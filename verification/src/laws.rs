//! What holds of the operations taken together, over every table and every
//! chat user.

use vstd::prelude::*;

use crate::client::{
    delete_query, linked, load_query, login_result, pending_of, save_query, write_result,
};
use crate::error::ErrorKind;
use crate::registration::RegistrationOutcome;
use crate::session::{decode_for, encode, LoginUserView};
use crate::store::{answer_to, key_of, lemma_key_of_injective, rows_after, QueryView};

verus! {

/// Unlinking twice is unlinking once. On a reachable table both removals
/// are accepted, the second changes nothing, and a login afterwards finds
/// no one.
pub proof fn law_unlink_is_idempotent(rows: Map<i64, Seq<char>>, tg_user_id: u64)
    ensures
        ({
            let once = rows_after(rows, delete_query(tg_user_id));
            let twice = rows_after(once, delete_query(tg_user_id));
            &&& write_result(answer_to(rows, delete_query(tg_user_id))) is Ok
            &&& write_result(answer_to(once, delete_query(tg_user_id))) is Ok
            &&& twice == once
            &&& login_result(answer_to(twice, load_query(tg_user_id)), tg_user_id) == Err::<
                LoginUserView,
                ErrorKind,
            >(ErrorKind::NotFound)
        }),
{
    let once = rows_after(rows, delete_query(tg_user_id));
    let twice = rows_after(once, delete_query(tg_user_id));
    assert(twice =~= once);
}

/// A later link replaces an earlier one. After two saves under one chat
/// user the table is as if only the second had been made, both saves are
/// accepted, and a login reads what the second stored.
pub proof fn law_last_save_wins(
    rows: Map<i64, Seq<char>>,
    tg_user_id: u64,
    first: LoginUserView,
    second: LoginUserView,
)
    ensures
        ({
            let one = rows_after(rows, save_query(tg_user_id, first));
            let two = rows_after(one, save_query(tg_user_id, second));
            &&& write_result(answer_to(rows, save_query(tg_user_id, first))) is Ok
            &&& write_result(answer_to(one, save_query(tg_user_id, second))) is Ok
            &&& two == rows_after(rows, save_query(tg_user_id, second))
            &&& login_result(answer_to(two, load_query(tg_user_id)), tg_user_id) == decode_for(
                encode(second.data),
                tg_user_id,
            )
        }),
{
    let one = rows_after(rows, save_query(tg_user_id, first));
    let two = rows_after(one, save_query(tg_user_id, second));
    assert(two =~= rows_after(rows, save_query(tg_user_id, second)));
}

/// A login only reads. Whatever the row holds, and so too where it does
/// not decode, the table is the same after the login's statement.
pub proof fn law_login_leaves_table(rows: Map<i64, Seq<char>>, tg_user_id: u64)
    ensures
        rows_after(rows, load_query(tg_user_id)) == rows,
{
}

/// A link stays until it is replaced or removed: a login reads the same
/// row again and again.
pub proof fn law_login_repeats(rows: Map<i64, Seq<char>>, tg_user_id: u64)
    ensures
        answer_to(rows_after(rows, load_query(tg_user_id)), load_query(tg_user_id)) == answer_to(
            rows,
            load_query(tg_user_id),
        ),
{
}

/// Chat users do not touch each other's rows: no statement made for one
/// user changes what a login of another reads.
pub proof fn law_users_are_independent(
    rows: Map<i64, Seq<char>>,
    tg_user_id: u64,
    other: u64,
    session: LoginUserView,
)
    requires
        tg_user_id != other,
    ensures
        answer_to(rows_after(rows, save_query(tg_user_id, session)), load_query(other))
            == answer_to(rows, load_query(other)),
        answer_to(rows_after(rows, delete_query(tg_user_id)), load_query(other)) == answer_to(
            rows,
            load_query(other),
        ),
        answer_to(rows_after(rows, load_query(tg_user_id)), load_query(other)) == answer_to(
            rows,
            load_query(other),
        ),
{
    lemma_key_of_injective(tg_user_id, other);
}

/// A link leads to the instance that it was begun on: the session that the
/// second step makes has the domain given to the first, and belongs to the
/// chat user given to the second.
pub proof fn law_link_keeps_domain_and_owner(
    domain: Seq<char>,
    outcome: RegistrationOutcome,
    tg_user_id: u64,
    token: Seq<char>,
)
    ensures
        pending_of(domain, outcome) matches Ok(pending) ==> {
            &&& linked(pending, tg_user_id, token).data.base == domain
            &&& linked(pending, tg_user_id, token).data.token == token
            &&& linked(pending, tg_user_id, token).owner == tg_user_id
        },
{
}

/// A write decides the user's row: after a save the row under the user's
/// key is the saved blob, whatever stood there, and after a removal the
/// user has no row.
pub proof fn law_write_decides_the_row(rows: Map<i64, Seq<char>>, tg_user_id: u64, blob: Seq<char>)
    ensures
        rows_after(rows, QueryView::Upsert { key: key_of(tg_user_id), blob })[key_of(tg_user_id)]
            == blob,
        !rows_after(rows, delete_query(tg_user_id)).contains_key(key_of(tg_user_id)),
{
}

} // verus!
