//! The failures of the bridge, by class.

use vstd::prelude::*;

verus! {

/// The classes of failure that a caller tells apart.
#[derive(Debug, Clone, Copy, PartialEq, Eq, Structural)]
pub enum ErrorKind {
    /// No credential row exists for the chat user.
    NotFound,
    /// The stored blob does not decode to a session.
    CorruptData,
    /// The instance refused to register the bridge, or there is no
    /// authorization URL to show.
    RegistrationFailed,
    /// The instance refused the authorization code.
    AuthExchangeFailed,
    /// The instance refused the status.
    PostRejected,
    /// The credential table could not be reached.
    StorageUnavailable,
}

/// A failure of one request of one chat user: its class, and a text for
/// the log that says what the other side reported.
#[derive(Debug, PartialEq, Eq)]
pub struct BridgeError {
    pub kind: ErrorKind,
    pub detail: String,
}

impl Clone for BridgeError {
    fn clone(&self) -> (copy: BridgeError)
        ensures
            copy.kind == self.kind,
            copy.detail@ == self.detail@,
    {
        BridgeError { kind: self.kind, detail: self.detail.clone() }
    }
}

impl BridgeError {
    /// A failure of class `kind` with the given text.
    pub fn new(kind: ErrorKind, detail: String) -> (e: BridgeError)
        ensures
            e.kind == kind,
            e.detail@ == detail@,
    {
        BridgeError { kind, detail }
    }

    /// Whether the caller should ask the user to link an account first,
    /// which is the one failure that is no fault of either side.
    pub fn is_not_found(&self) -> (b: bool)
        ensures
            b == (self.kind == ErrorKind::NotFound),
    {
        self.kind == ErrorKind::NotFound
    }
}

} // verus!
