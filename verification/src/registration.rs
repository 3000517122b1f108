//! The first half of the handshake: registering with an instance and the
//! pending registration that comes of it.

use vstd::prelude::*;

use crate::error::{BridgeError, ErrorKind};

verus! {

/// A capability that the bridge asks an instance for.
#[derive(Debug, Clone, Copy, PartialEq, Eq, Structural)]
pub enum Scope {
    /// To publish statuses, and nothing else.
    WriteStatuses,
}

impl Scope {
    /// The scope as it stands in the query of an authorization URL, with
    /// the colon percent-encoded.
    pub open spec fn query_text(self) -> Seq<char> {
        match self {
            Scope::WriteStatuses => "write%3Astatuses"@,
        }
    }
}

/// What to register with an instance: handed to the registration call.
#[derive(Debug, PartialEq, Eq)]
pub struct RegistrationRequest {
    /// Base domain of the instance to register with.
    pub domain: String,
    /// Name under which the bridge registers.
    pub client_name: String,
    /// The one capability asked for.
    pub scope: Scope,
}

/// The credentials that an instance gave the bridge at registration.
#[derive(Debug, PartialEq, Eq)]
pub struct AppCredentials {
    pub client_id: String,
    pub client_secret: String,
    pub redirect: String,
}

/// How the registration call ended.
#[derive(Debug, PartialEq, Eq)]
pub enum RegistrationOutcome {
    /// The instance registered the bridge.
    Registered(AppCredentials),
    /// The instance refused, or could not be reached; the text says why.
    Rejected(String),
}

/// How the exchange of an authorization code ended.
#[derive(Debug, PartialEq, Eq)]
pub enum ExchangeOutcome {
    /// The instance took the code and gave an access token.
    Granted { token: String },
    /// The instance refused the code; the text says why.
    Refused(String),
}

/// A linking attempt between its two steps: the bridge is registered with
/// the instance, and the user has yet to bring the authorization code.
///
/// It belongs to one attempt of one chat user. The caller keeps it until
/// the code arrives or the attempt is given up; nothing else remembers it.
#[derive(Debug, PartialEq, Eq)]
pub struct PendingRegistration {
    base: String,
    client_id: String,
    client_secret: String,
    redirect: String,
    scope: Scope,
    force_login: bool,
    authorize_url: String,
}

/// The mathematical value of a [`PendingRegistration`].
pub struct PendingView {
    pub base: Seq<char>,
    pub client_id: Seq<char>,
    pub client_secret: Seq<char>,
    pub redirect: Seq<char>,
    pub scope: Scope,
    pub force_login: bool,
    pub authorize_url: Seq<char>,
}

impl View for PendingRegistration {
    type V = PendingView;

    closed spec fn view(&self) -> PendingView {
        PendingView {
            base: self.base@,
            client_id: self.client_id@,
            client_secret: self.client_secret@,
            redirect: self.redirect@,
            scope: self.scope,
            force_login: self.force_login,
            authorize_url: self.authorize_url@,
        }
    }
}

/// The address that the user opens to approve the bridge.
pub open spec fn authorize_url_text(
    base: Seq<char>,
    client_id: Seq<char>,
    redirect: Seq<char>,
    scope: Scope,
    force_login: bool,
) -> Seq<char> {
    base + "/oauth/authorize?client_id="@ + client_id + "&redirect_uri="@ + redirect + "&scope="@
        + scope.query_text() + if force_login {
        "&force_login=true&response_type=code"@
    } else {
        "&response_type=code"@
    }
}

/// The address that the user opens to approve the bridge: the instance's
/// authorization page with the client id, the redirect and the scope in
/// its query. The client id and the redirect stand as they are; the secret
/// is no part of it.
pub fn authorize_address(
    base: &str,
    client_id: &str,
    redirect: &str,
    scope: Scope,
    force_login: bool,
) -> (url: String)
    ensures
        url@ == authorize_url_text(base@, client_id@, redirect@, scope, force_login),
{
    let scope_text = match scope {
        Scope::WriteStatuses => "write%3Astatuses",
    };
    let tail = if force_login {
        "&force_login=true&response_type=code"
    } else {
        "&response_type=code"
    };
    base.to_owned().concat("/oauth/authorize?client_id=").concat(client_id).concat(
        "&redirect_uri=",
    ).concat(redirect).concat("&scope=").concat(scope_text).concat(tail)
}

/// An authorization address is never empty.
pub proof fn lemma_authorize_url_is_not_empty(
    base: Seq<char>,
    client_id: Seq<char>,
    redirect: Seq<char>,
    scope: Scope,
    force_login: bool,
)
    ensures
        authorize_url_text(base, client_id, redirect, scope, force_login).len() > 0,
{
    reveal_strlit("/oauth/authorize?client_id=");
}

/// The attempt that a registration opens, given the address to show, or
/// the failure where there is none.
pub open spec fn accepted(
    domain: Seq<char>,
    scope: Scope,
    client_id: Seq<char>,
    client_secret: Seq<char>,
    redirect: Seq<char>,
    authorize_url: Option<Seq<char>>,
) -> Result<PendingView, ErrorKind> {
    match authorize_url {
        Some(url) => Ok(
            PendingView {
                base: domain,
                client_id,
                client_secret,
                redirect,
                scope,
                force_login: false,
                authorize_url: url,
            },
        ),
        None => Err(ErrorKind::RegistrationFailed),
    }
}

/// The view of an optional text.
pub open spec fn text_of(text: Option<String>) -> Option<Seq<char>> {
    match text {
        Some(t) => Some(t@),
        None => None,
    }
}

impl PendingRegistration {
    /// Opens a linking attempt on `domain` from the credentials that the
    /// instance gave and the authorization address.
    ///
    /// Without an address there is nothing to show the user and no later
    /// step can mend that, so the attempt fails here with
    /// `RegistrationFailed` and no pending registration exists.
    pub fn accept(
        domain: &str,
        scope: Scope,
        credentials: AppCredentials,
        authorize_url: Option<String>,
    ) -> (r: Result<PendingRegistration, BridgeError>)
        ensures
            match accepted(
                domain@,
                scope,
                credentials.client_id@,
                credentials.client_secret@,
                credentials.redirect@,
                text_of(authorize_url),
            ) {
                Ok(pending) => r matches Ok(p) && p@ == pending,
                Err(kind) => r matches Err(e) && e.kind == kind,
            },
    {
        match authorize_url {
            Some(url) => Ok(
                PendingRegistration {
                    base: domain.to_owned(),
                    client_id: credentials.client_id,
                    client_secret: credentials.client_secret,
                    redirect: credentials.redirect,
                    scope,
                    force_login: false,
                    authorize_url: url,
                },
            ),
            None => Err(
                BridgeError::new(
                    ErrorKind::RegistrationFailed,
                    "the instance gave no authorization address".to_owned(),
                ),
            ),
        }
    }

    /// Base domain of the instance that the attempt runs against.
    pub fn base(&self) -> (text: &str)
        ensures
            text@ == self@.base,
    {
        self.base.as_str()
    }

    /// Id that the instance gave the bridge.
    pub fn client_id(&self) -> (text: &str)
        ensures
            text@ == self@.client_id,
    {
        self.client_id.as_str()
    }

    /// Secret that the instance gave the bridge.
    pub fn client_secret(&self) -> (text: &str)
        ensures
            text@ == self@.client_secret,
    {
        self.client_secret.as_str()
    }

    /// Where the instance sends the user after authorization.
    pub fn redirect(&self) -> (text: &str)
        ensures
            text@ == self@.redirect,
    {
        self.redirect.as_str()
    }

    /// The capability that was asked for.
    pub fn scope(&self) -> (scope: Scope)
        ensures
            scope == self@.scope,
    {
        self.scope
    }

    /// Whether the instance is to ask the user to log in anew.
    pub fn force_login(&self) -> (flag: bool)
        ensures
            flag == self@.force_login,
    {
        self.force_login
    }

    /// The address that the user opens to approve the bridge.
    pub fn authorize_url(&self) -> (text: &str)
        ensures
            text@ == self@.authorize_url,
    {
        self.authorize_url.as_str()
    }
}

} // verus!
