//! Account linking between a chat user and a federated social-network
//! account: the handshake's decisions, the stored session and its codec,
//! and the statements that keep one credential row per chat user.
//!
//! Nothing in this crate touches the network or the database. Each
//! operation is split in two: a function that says what to hand to the
//! remote instance or to the credential table, and a function that takes
//! what came back and decides the result.

pub mod client;
pub mod cmd;
pub mod error;
pub mod json;
pub mod laws;
pub mod registration;
pub mod session;
pub mod status;
pub mod store;

pub use client::Client;
pub use cmd::Command;
pub use error::{BridgeError, ErrorKind};
pub use registration::{
    AppCredentials, ExchangeOutcome, PendingRegistration, PendingView, RegistrationOutcome,
    RegistrationRequest, Scope,
};
pub use session::{LoginUser, LoginUserView, SessionData, SessionFields};
pub use status::{PublishOutcome, StatusDraft, StatusDraftView, Visibility};
pub use store::{Answer, AnswerView, MemoryTable, Query, QueryView};
