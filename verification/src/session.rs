//! A linked account and the text under which it is stored.

use vstd::prelude::*;

use crate::error::{BridgeError, ErrorKind};
use crate::json::{data_json, json_data, parse_data, render_data};

verus! {

/// What the bridge needs to act on a remote instance for one account.
#[derive(Debug, PartialEq, Eq)]
pub struct SessionData {
    /// Base domain of the instance.
    pub base: String,
    /// Id that the instance gave the bridge at registration.
    pub client_id: String,
    /// Secret that the instance gave the bridge at registration.
    pub client_secret: String,
    /// Where the instance sends the user after authorization.
    pub redirect: String,
    /// Access token of the account.
    pub token: String,
}

/// The mathematical value of a [`SessionData`].
pub struct SessionFields {
    pub base: Seq<char>,
    pub client_id: Seq<char>,
    pub client_secret: Seq<char>,
    pub redirect: Seq<char>,
    pub token: Seq<char>,
}

impl View for SessionData {
    type V = SessionFields;

    open spec fn view(&self) -> SessionFields {
        SessionFields {
            base: self.base@,
            client_id: self.client_id@,
            client_secret: self.client_secret@,
            redirect: self.redirect@,
            token: self.token@,
        }
    }
}

impl Clone for SessionData {
    fn clone(&self) -> (copy: SessionData)
        ensures
            copy@ == self@,
    {
        SessionData {
            base: self.base.clone(),
            client_id: self.client_id.clone(),
            client_secret: self.client_secret.clone(),
            redirect: self.redirect.clone(),
            token: self.token.clone(),
        }
    }
}

/// The stored text of a session: its five connection fields, and nothing
/// of the chat user who owns it.
pub open spec fn encode(data: SessionFields) -> Seq<char> {
    data_json(data.base, data.client_id, data.client_secret, data.redirect, data.token)
}

/// The connection fields that a stored text holds, or `None` where the
/// text is not a well-formed record of all five.
pub open spec fn decode(blob: Seq<char>) -> Option<SessionFields> {
    match json_data(blob) {
        Some(fields) => Some(
            SessionFields {
                base: fields.0,
                client_id: fields.1,
                client_secret: fields.2,
                redirect: fields.3,
                token: fields.4,
            },
        ),
        None => None,
    }
}

/// A linked account: the connection data and the chat user it belongs to.
#[derive(Debug, PartialEq, Eq)]
pub struct LoginUser {
    inst: SessionData,
    tg_user_id: u64,
}

/// The mathematical value of a [`LoginUser`].
pub struct LoginUserView {
    pub data: SessionFields,
    pub owner: u64,
}

impl View for LoginUser {
    type V = LoginUserView;

    closed spec fn view(&self) -> LoginUserView {
        LoginUserView { data: self.inst@, owner: self.tg_user_id }
    }
}

impl Clone for LoginUser {
    fn clone(&self) -> (copy: LoginUser)
        ensures
            copy@ == self@,
    {
        LoginUser { inst: self.inst.clone(), tg_user_id: self.tg_user_id }
    }
}

/// What reading a stored text for chat user `owner` yields.
pub open spec fn decode_for(blob: Seq<char>, owner: u64) -> Result<LoginUserView, ErrorKind> {
    match decode(blob) {
        Some(data) => Ok(LoginUserView { data, owner }),
        None => Err(ErrorKind::CorruptData),
    }
}

impl LoginUser {
    /// The session of chat user `tg_user_id` over the connection `inst`.
    pub fn new(inst: SessionData, tg_user_id: u64) -> (user: LoginUser)
        ensures
            user@ == (LoginUserView { data: inst@, owner: tg_user_id }),
    {
        LoginUser { inst, tg_user_id }
    }

    /// The connection data, for the caller that talks to the instance.
    pub fn data(&self) -> (data: &SessionData)
        ensures
            data@ == self@.data,
    {
        &self.inst
    }

    /// The chat user who owns this session.
    pub fn tg_user_id(&self) -> (id: u64)
        ensures
            id == self@.owner,
    {
        self.tg_user_id
    }

    /// Base domain of the instance that the account lives on.
    pub fn domain(&self) -> (domain: &str)
        ensures
            domain@ == self@.data.base,
    {
        self.inst.base.as_str()
    }

    /// The text under which the session is stored.
    ///
    /// It holds the connection data alone, and reading it back gives the
    /// same session, whichever chat user it is read for.
    pub fn serialize(&self) -> (blob: String)
        ensures
            blob@ == encode(self@.data),
            decode(blob@) == Some(self@.data),
            forall|owner: u64|
                decode_for(blob@, owner) == Ok::<LoginUserView, ErrorKind>(
                    LoginUserView { data: self@.data, owner },
                ),
    {
        render_data(&self.inst).unwrap()
    }

    /// The session of chat user `tg_user_id` that the decoder's result
    /// comes to: the connection data that it read, bound to that user, or
    /// `CorruptData` with the decoder's report as detail.
    pub fn from_parsed(parsed: Result<SessionData, String>, tg_user_id: u64) -> (r: Result<
        LoginUser,
        BridgeError,
    >)
        ensures
            match parsed {
                Ok(data) => r matches Ok(u) && u@ == (LoginUserView {
                    data: data@,
                    owner: tg_user_id,
                }),
                Err(report) => r matches Err(e) && e.kind == ErrorKind::CorruptData && e.detail@
                    == report@,
            },
    {
        match parsed {
            Ok(inst) => Ok(LoginUser { inst, tg_user_id }),
            Err(report) => Err(BridgeError::new(ErrorKind::CorruptData, report)),
        }
    }

    /// Reads a stored text as the session of chat user `tg_user_id`.
    ///
    /// Fails with `CorruptData` exactly where the text is not a well-formed
    /// record of the five fields. What is made of the decoder's result,
    /// its report included, is [`LoginUser::from_parsed`].
    pub fn deserialize(input: &str, tg_user_id: u64) -> (r: Result<LoginUser, BridgeError>)
        ensures
            match decode_for(input@, tg_user_id) {
                Ok(user) => r matches Ok(u) && u@ == user,
                Err(kind) => r matches Err(e) && e.kind == kind,
            },
    {
        match parse_data(input) {
            Ok(inst) => LoginUser::from_parsed(Ok(inst), tg_user_id),
            Err(e) => LoginUser::from_parsed(Err(e.to_string()), tg_user_id),
        }
    }
}

} // verus!
