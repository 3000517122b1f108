//! Relaying a status through a linked account.

use vstd::prelude::*;

use crate::error::{BridgeError, ErrorKind};
use crate::registration::text_of;
use crate::session::LoginUser;

verus! {

/// Who may see a status.
#[derive(Debug, Clone, Copy, PartialEq, Eq, Structural)]
pub enum Visibility {
    /// Only the accounts it mentions.
    Direct,
    /// Only followers.
    Private,
    /// Everyone, but not on public timelines.
    Unlisted,
    /// Everyone.
    Public,
}

/// A status as the bridge hands it to the publishing call.
#[derive(Debug, PartialEq, Eq)]
pub struct StatusDraft {
    /// The text to publish.
    pub text: String,
    /// Who may see it.
    pub visibility: Visibility,
    /// Language of the text, as an ISO 639-3 code.
    pub language: String,
}

/// The mathematical value of a [`StatusDraft`].
pub struct StatusDraftView {
    pub text: Seq<char>,
    pub visibility: Visibility,
    pub language: Seq<char>,
}

impl View for StatusDraft {
    type V = StatusDraftView;

    open spec fn view(&self) -> StatusDraftView {
        StatusDraftView {
            text: self.text@,
            visibility: self.visibility,
            language: self.language@,
        }
    }
}

/// How the publishing call ended.
#[derive(Debug, PartialEq, Eq)]
pub enum PublishOutcome {
    /// The instance took the status, and may have said where it stands.
    Published { url: Option<String> },
    /// The instance refused the status; the text says why.
    Rejected(String),
}

/// The language in which every relayed status is tagged.
pub open spec fn default_language() -> Seq<char> {
    "eng"@
}

/// What stands in for the address of a status that has none.
pub open spec fn invisible() -> Seq<char> {
    "*invisible*"@
}

/// The draft under which `text` is relayed: public, in the default
/// language.
pub open spec fn draft_of(text: Seq<char>) -> StatusDraftView {
    StatusDraftView { text, visibility: Visibility::Public, language: default_language() }
}

/// The address to report for a published status.
pub open spec fn address_of(url: Option<Seq<char>>) -> Seq<char> {
    match url {
        Some(u) => u,
        None => invisible(),
    }
}

impl LoginUser {
    /// The status to publish for `text`.
    pub fn new_status(&self, text: &str) -> (draft: StatusDraft)
        ensures
            draft@ == draft_of(text@),
    {
        StatusDraft {
            text: text.to_owned(),
            visibility: Visibility::Public,
            language: "eng".to_owned(),
        }
    }

    /// The address of the status that was published, or the failure.
    ///
    /// A status that the instance took without saying where it stands was
    /// still published: its address is reported as `*invisible*`. A refusal
    /// is `PostRejected`, with the instance's words as detail; the session
    /// is none the worse for it.
    pub fn post_status(&self, outcome: PublishOutcome) -> (r: Result<String, BridgeError>)
        ensures
            match outcome {
                PublishOutcome::Published { url } => r matches Ok(address) && address@
                    == address_of(text_of(url)),
                PublishOutcome::Rejected(why) => r matches Err(e) && e.kind
                    == ErrorKind::PostRejected && e.detail@ == why@,
            },
    {
        match outcome {
            PublishOutcome::Published { url } => match url {
                Some(address) => Ok(address),
                None => Ok("*invisible*".to_owned()),
            },
            PublishOutcome::Rejected(why) => Err(BridgeError::new(ErrorKind::PostRejected, why)),
        }
    }
}

} // verus!
