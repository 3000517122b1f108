//! The stored form of connection data: the calls into `serde_json`, and the
//! names under which the rest of the crate speaks of their results.

use vstd::prelude::*;

use crate::session::SessionData;

verus! {

/// The error of `serde_json`, carried from a failed decode to the text
/// that reports it.
#[verifier::external_type_specification]
#[verifier::external_body]
pub struct ExJsonError(serde_json::Error);

/// The JSON text that `serde_json::to_string` gives for the connection
/// data of `mastodon_async` with these five fields.
pub uninterp spec fn data_json(
    base: Seq<char>,
    client_id: Seq<char>,
    client_secret: Seq<char>,
    redirect: Seq<char>,
    token: Seq<char>,
) -> Seq<char>;

/// The five fields (base, client id, client secret, redirect, token) that
/// `serde_json::from_str` reads from `text` as connection data of
/// `mastodon_async`, or `None` where it reports an error.
pub uninterp spec fn json_data(text: Seq<char>) -> Option<
    (Seq<char>, Seq<char>, Seq<char>, Seq<char>, Seq<char>),
>;

/// Calls `serde_json::to_string` on a `mastodon_async::Data` that holds
/// the five fields of `data`.
///
/// Trusted: the call succeeds, since that type serialises as a map of five
/// strings under fixed keys; its text is a function of the five fields; and
/// `serde_json::from_str` reads the same five fields back from that text.
#[verifier::external_body]
pub(crate) fn render_data(data: &SessionData) -> (r: Result<String, serde_json::Error>)
    ensures
        r is Ok,
        r matches Ok(text) ==> text@ == data_json(
            data.base@,
            data.client_id@,
            data.client_secret@,
            data.redirect@,
            data.token@,
        ),
        r matches Ok(text) ==> json_data(text@) == Some(
            (data.base@, data.client_id@, data.client_secret@, data.redirect@, data.token@),
        ),
{
    serde_json::to_string(
        &mastodon_async::Data {
            base: data.base.clone().into(),
            client_id: data.client_id.clone().into(),
            client_secret: data.client_secret.clone().into(),
            redirect: data.redirect.clone().into(),
            token: data.token.clone().into(),
        },
    )
}

/// Calls `serde_json::from_str` for a `mastodon_async::Data` and moves its
/// five fields into the library's type.
///
/// Trusted: whether the call succeeds, and the fields it gives, are a
/// function of the text.
#[verifier::external_body]
pub(crate) fn parse_data(text: &str) -> (r: Result<SessionData, serde_json::Error>)
    ensures
        match r {
            Ok(data) => json_data(text@) == Some(
                (data.base@, data.client_id@, data.client_secret@, data.redirect@, data.token@),
            ),
            Err(_) => json_data(text@) is None,
        },
{
    match serde_json::from_str::<mastodon_async::Data>(text) {
        Ok(data) => Ok(
            SessionData {
                base: data.base.into_owned(),
                client_id: data.client_id.into_owned(),
                client_secret: data.client_secret.into_owned(),
                redirect: data.redirect.into_owned(),
                token: data.token.into_owned(),
            },
        ),
        Err(e) => Err(e),
    }
}

} // verus!
