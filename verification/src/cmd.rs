//! The commands that the chat side hands to the bridge.

use vstd::prelude::*;

verus! {

/// A command that a chat user sent to the bridge.
#[derive(Debug, PartialEq, Eq)]
pub enum Command {
    /// Liveness probe.
    Ping,
    /// Diagnostic command with a free argument; development builds of the
    /// bot offer it, others do not.
    Debug(String),
    /// Link an account on the instance named by the argument.
    Auth(String),
    /// Unlink the account.
    Revoke,
    /// Relay the message that the command replies to.
    Post,
}

impl Clone for Command {
    fn clone(&self) -> (copy: Command)
        ensures
            match (*self, copy) {
                (Command::Ping, Command::Ping) => true,
                (Command::Debug(a), Command::Debug(b)) => a@ == b@,
                (Command::Auth(a), Command::Auth(b)) => a@ == b@,
                (Command::Revoke, Command::Revoke) => true,
                (Command::Post, Command::Post) => true,
                _ => false,
            },
    {
        match self {
            Command::Ping => Command::Ping,
            Command::Debug(text) => Command::Debug(text.clone()),
            Command::Auth(domain) => Command::Auth(domain.clone()),
            Command::Revoke => Command::Revoke,
            Command::Post => Command::Post,
        }
    }
}

} // verus!
