//! The operations of account linking: for each, what to send out and what
//! to make of the answer.

use vstd::prelude::*;

use crate::error::{BridgeError, ErrorKind};
use crate::registration::{
    authorize_address, authorize_url_text, lemma_authorize_url_is_not_empty, ExchangeOutcome,
    PendingRegistration, PendingView, RegistrationOutcome, RegistrationRequest, Scope,
};
use crate::session::{decode_for, encode, LoginUser, LoginUserView, SessionData, SessionFields};
use crate::store::{key_of, row_key, Answer, AnswerView, Query, QueryView};

verus! {

/// The statement that stores `user` as the row of chat user `tg_user_id`.
pub open spec fn save_query(tg_user_id: u64, user: LoginUserView) -> QueryView {
    QueryView::Upsert { key: key_of(tg_user_id), blob: encode(user.data) }
}

/// The statement that reads the row of chat user `tg_user_id`.
pub open spec fn load_query(tg_user_id: u64) -> QueryView {
    QueryView::Select { key: key_of(tg_user_id) }
}

/// The statement that removes the row of chat user `tg_user_id`.
pub open spec fn delete_query(tg_user_id: u64) -> QueryView {
    QueryView::Delete { key: key_of(tg_user_id) }
}

/// What a login of chat user `tg_user_id` comes to, given the table's
/// answer to [`load_query`].
pub open spec fn login_result(answer: AnswerView, tg_user_id: u64) -> Result<
    LoginUserView,
    ErrorKind,
> {
    match answer {
        AnswerView::Row(blob) => decode_for(blob, tg_user_id),
        AnswerView::NoRow => Err(ErrorKind::NotFound),
        AnswerView::Unavailable(why) => Err(ErrorKind::StorageUnavailable),
        AnswerView::Done => Err(ErrorKind::StorageUnavailable),
    }
}

/// What a write comes to, given the table's answer to it.
pub open spec fn write_result(answer: AnswerView) -> Result<(), ErrorKind> {
    match answer {
        AnswerView::Done => Ok(()),
        _ => Err(ErrorKind::StorageUnavailable),
    }
}

/// The attempt that `domain` and the instance's answer open.
pub open spec fn pending_of(domain: Seq<char>, outcome: RegistrationOutcome) -> Result<
    PendingView,
    ErrorKind,
> {
    match outcome {
        RegistrationOutcome::Registered(credentials) => Ok(
            PendingView {
                base: domain,
                client_id: credentials.client_id@,
                client_secret: credentials.client_secret@,
                redirect: credentials.redirect@,
                scope: Scope::WriteStatuses,
                force_login: false,
                authorize_url: authorize_url_text(
                    domain,
                    credentials.client_id@,
                    credentials.redirect@,
                    Scope::WriteStatuses,
                    false,
                ),
            },
        ),
        RegistrationOutcome::Rejected(why) => Err(ErrorKind::RegistrationFailed),
    }
}

/// The session that a pending registration and an access token make for
/// chat user `tg_user_id`.
pub open spec fn linked(reg: PendingView, tg_user_id: u64, token: Seq<char>) -> LoginUserView {
    LoginUserView {
        data: SessionFields {
            base: reg.base,
            client_id: reg.client_id,
            client_secret: reg.client_secret,
            redirect: reg.redirect,
            token,
        },
        owner: tg_user_id,
    }
}

/// The bridge's side of account linking.
///
/// It decides; it does not act. For each operation one method says what to
/// send to the instance or to the credential table, and another takes what
/// came back.
#[derive(Debug, PartialEq, Eq)]
pub struct Client {
    client_name: String,
}

impl Client {
    /// A client that registers with instances under `client_name`.
    pub fn new(client_name: String) -> (client: Client)
        ensures
            client.client_name()@ == client_name@,
    {
        Client { client_name }
    }

    /// The name under which the bridge registers.
    pub closed spec fn client_name(&self) -> String {
        self.client_name
    }

    /// The session of chat user `tg_user_id`, given the table's answer to
    /// [`Client::load_login_user`].
    ///
    /// `NotFound` where there is no row, `CorruptData` where the row does
    /// not decode, `StorageUnavailable` where the table gave no row and no
    /// word of its absence. Nothing is written in any case: a row that
    /// does not decode stays as it is.
    pub fn login(&self, tg_user_id: u64, answer: Answer) -> (r: Result<LoginUser, BridgeError>)
        ensures
            match login_result(answer@, tg_user_id) {
                Ok(user) => r matches Ok(u) && u@ == user,
                Err(kind) => r matches Err(e) && e.kind == kind,
            },
            answer matches Answer::Unavailable(why) ==> r matches Err(e) && e.detail@ == why@,
    {
        match answer {
            Answer::Row(blob) => LoginUser::deserialize(blob.as_str(), tg_user_id),
            Answer::NoRow => Err(
                BridgeError::new(ErrorKind::NotFound, "no account is linked".to_owned()),
            ),
            Answer::Unavailable(why) => Err(BridgeError::new(ErrorKind::StorageUnavailable, why)),
            Answer::Done => Err(
                BridgeError::new(
                    ErrorKind::StorageUnavailable,
                    "the table answered a read as a write".to_owned(),
                ),
            ),
        }
    }

    /// What to register with the instance at `domain`: the bridge under its
    /// name, asking for leave to publish statuses and for nothing more.
    pub fn registration_request(&self, domain: &str) -> (request: RegistrationRequest)
        ensures
            request.domain@ == domain@,
            request.client_name@ == self.client_name()@,
            request.scope == Scope::WriteStatuses,
    {
        RegistrationRequest {
            domain: domain.to_owned(),
            client_name: self.client_name.clone(),
            scope: Scope::WriteStatuses,
        }
    }

    /// First step of linking: the pending registration on `domain`, given
    /// how the registration call ended.
    ///
    /// Fails with `RegistrationFailed`, and the instance's words as detail,
    /// exactly where the instance refused. The authorization address is
    /// made here, so that an attempt without one never comes to exist.
    pub fn auth_step_1(&self, domain: &str, outcome: RegistrationOutcome) -> (r: Result<
        PendingRegistration,
        BridgeError,
    >)
        ensures
            match pending_of(domain@, outcome) {
                Ok(pending) => r matches Ok(p) && p@ == pending,
                Err(kind) => r matches Err(e) && e.kind == kind,
            },
            outcome matches RegistrationOutcome::Rejected(why) ==> r matches Err(e) && e.detail@
                == why@,
            r matches Ok(p) ==> p@.authorize_url.len() > 0,
    {
        match outcome {
            RegistrationOutcome::Registered(credentials) => {
                proof {
                    lemma_authorize_url_is_not_empty(
                        domain@,
                        credentials.client_id@,
                        credentials.redirect@,
                        Scope::WriteStatuses,
                        false,
                    );
                }
                let url = authorize_address(
                    domain,
                    credentials.client_id.as_str(),
                    credentials.redirect.as_str(),
                    Scope::WriteStatuses,
                    false,
                );
                PendingRegistration::accept(domain, Scope::WriteStatuses, credentials, Some(url))
            },
            RegistrationOutcome::Rejected(why) => Err(
                BridgeError::new(ErrorKind::RegistrationFailed, why),
            ),
        }
    }

    /// Second step of linking: the session of chat user `tg_user_id`, given
    /// how the exchange of the authorization code ended, and the statement
    /// that stores it.
    ///
    /// The session is the pending registration's instance and credentials
    /// with the token that the instance gave. Fails with
    /// `AuthExchangeFailed`, and the instance's words as detail, exactly
    /// where the instance refused the code; then there is no statement, and
    /// nothing gets stored.
    pub fn auth_step_2(
        &self,
        reg: &PendingRegistration,
        tg_user_id: u64,
        outcome: ExchangeOutcome,
    ) -> (r: Result<(LoginUser, Query), BridgeError>)
        ensures
            match outcome {
                ExchangeOutcome::Granted { token } => r matches Ok(pair) && pair.0@ == linked(
                    reg@,
                    tg_user_id,
                    token@,
                ) && pair.1@ == save_query(tg_user_id, pair.0@),
                ExchangeOutcome::Refused(why) => r matches Err(e) && e.kind
                    == ErrorKind::AuthExchangeFailed && e.detail@ == why@,
            },
    {
        match outcome {
            ExchangeOutcome::Granted { token } => {
                let login_user = LoginUser::new(
                    SessionData {
                        base: reg.base().to_owned(),
                        client_id: reg.client_id().to_owned(),
                        client_secret: reg.client_secret().to_owned(),
                        redirect: reg.redirect().to_owned(),
                        token,
                    },
                    tg_user_id,
                );
                let query = self.save_login_user(tg_user_id, &login_user);
                Ok((login_user, query))
            },
            ExchangeOutcome::Refused(why) => Err(
                BridgeError::new(ErrorKind::AuthExchangeFailed, why),
            ),
        }
    }

    /// The linked session, once the table has answered the statement of
    /// [`Client::auth_step_2`]; `StorageUnavailable` where it was not
    /// stored.
    pub fn saved(&self, login_user: LoginUser, answer: Answer) -> (r: Result<
        LoginUser,
        BridgeError,
    >)
        ensures
            match write_result(answer@) {
                Ok(_) => r matches Ok(u) && u@ == login_user@,
                Err(kind) => r matches Err(e) && e.kind == kind,
            },
            answer matches Answer::Unavailable(why) ==> r matches Err(e) && e.detail@ == why@,
    {
        match self.written(answer) {
            Ok(_) => Ok(login_user),
            Err(e) => Err(e),
        }
    }

    /// Unlinks: the statement that removes the session's row. The token
    /// stays valid on the instance.
    pub fn revoke(&self, login_user: &LoginUser) -> (query: Query)
        ensures
            query@ == delete_query(login_user@.owner),
    {
        self.delete_login_user(login_user.tg_user_id())
    }

    /// Whether a write went through, given the table's answer to it;
    /// `StorageUnavailable` where it did not.
    pub fn written(&self, answer: Answer) -> (r: Result<(), BridgeError>)
        ensures
            match write_result(answer@) {
                Ok(_) => r is Ok,
                Err(kind) => r matches Err(e) && e.kind == kind,
            },
            answer matches Answer::Unavailable(why) ==> r matches Err(e) && e.detail@ == why@,
    {
        match answer {
            Answer::Done => Ok(()),
            Answer::Unavailable(why) => Err(BridgeError::new(ErrorKind::StorageUnavailable, why)),
            _ => Err(
                BridgeError::new(
                    ErrorKind::StorageUnavailable,
                    "the table answered a write as a read".to_owned(),
                ),
            ),
        }
    }

    /// The statement that stores `login_user` as the row of chat user
    /// `tg_user_id`, in place of any row that the user had.
    ///
    /// Whatever the table held before, once it has run the statement a
    /// login of that user yields this session's connection data.
    pub fn save_login_user(&self, tg_user_id: u64, login_user: &LoginUser) -> (query: Query)
        ensures
            query@ == save_query(tg_user_id, login_user@),
            forall|rows: Map<i64, Seq<char>>|
                login_result(
                    #[trigger] crate::store::answer_to(
                        crate::store::rows_after(rows, query@),
                        load_query(tg_user_id),
                    ),
                    tg_user_id,
                ) == Ok::<LoginUserView, ErrorKind>(
                    LoginUserView { data: login_user@.data, owner: tg_user_id },
                ),
    {
        let blob = login_user.serialize();
        Query::Upsert { key: row_key(tg_user_id), blob }
    }

    /// The statement that reads the row of chat user `tg_user_id`.
    pub fn load_login_user(&self, tg_user_id: u64) -> (query: Query)
        ensures
            query@ == load_query(tg_user_id),
    {
        Query::Select { key: row_key(tg_user_id) }
    }

    /// The statement that removes the row of chat user `tg_user_id`.
    pub fn delete_login_user(&self, tg_user_id: u64) -> (query: Query)
        ensures
            query@ == delete_query(tg_user_id),
    {
        Query::Delete { key: row_key(tg_user_id) }
    }
}

} // verus!
