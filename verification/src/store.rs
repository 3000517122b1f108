//! The credential table: its statements, what a table does with them, and a
//! table in memory that does exactly that.

use std::collections::HashMap;
use vstd::prelude::*;

verus! {

broadcast use vstd::std_specs::hash::group_hash_axioms;

/// One statement on the credential table, which holds at most one row per
/// chat user: the user's key and the stored text of the session.
#[derive(Debug, PartialEq, Eq)]
pub enum Query {
    /// Put `blob` under `key`, in place of whatever row was there.
    Upsert { key: i64, blob: String },
    /// Read the row under `key`.
    Select { key: i64 },
    /// Remove the row under `key`, if there is one.
    Delete { key: i64 },
}

/// The mathematical value of a [`Query`].
pub enum QueryView {
    Upsert { key: i64, blob: Seq<char> },
    Select { key: i64 },
    Delete { key: i64 },
}

impl View for Query {
    type V = QueryView;

    open spec fn view(&self) -> QueryView {
        match self {
            Query::Upsert { key, blob } => QueryView::Upsert { key: *key, blob: blob@ },
            Query::Select { key } => QueryView::Select { key: *key },
            Query::Delete { key } => QueryView::Delete { key: *key },
        }
    }
}

/// What the credential table said to one statement.
#[derive(Debug, PartialEq, Eq)]
pub enum Answer {
    /// The write went through.
    Done,
    /// The row that was asked for.
    Row(String),
    /// There is no row under the key.
    NoRow,
    /// The table could not be reached; the text says why.
    Unavailable(String),
}

/// The mathematical value of an [`Answer`].
pub enum AnswerView {
    Done,
    Row(Seq<char>),
    NoRow,
    Unavailable(Seq<char>),
}

impl View for Answer {
    type V = AnswerView;

    open spec fn view(&self) -> AnswerView {
        match self {
            Answer::Done => AnswerView::Done,
            Answer::Row(blob) => AnswerView::Row(blob@),
            Answer::NoRow => AnswerView::NoRow,
            Answer::Unavailable(why) => AnswerView::Unavailable(why@),
        }
    }
}

/// The key of a chat user's row: the user's id read as a signed column
/// value, bit for bit.
pub open spec fn key_of(tg_user_id: u64) -> i64 {
    tg_user_id as i64
}

/// The table after a reachable table has run `query` on `rows`.
pub open spec fn rows_after(rows: Map<i64, Seq<char>>, query: QueryView) -> Map<i64, Seq<char>> {
    match query {
        QueryView::Upsert { key, blob } => rows.insert(key, blob),
        QueryView::Select { key } => rows,
        QueryView::Delete { key } => rows.remove(key),
    }
}

/// What a reachable table holding `rows` says to `query`.
pub open spec fn answer_to(rows: Map<i64, Seq<char>>, query: QueryView) -> AnswerView {
    match query {
        QueryView::Upsert { key, blob } => AnswerView::Done,
        QueryView::Select { key } => if rows.contains_key(key) {
            AnswerView::Row(rows[key])
        } else {
            AnswerView::NoRow
        },
        QueryView::Delete { key } => AnswerView::Done,
    }
}

/// The SQL text of each kind of statement. The key is bound as `?1`, the
/// blob as `?2`.
pub open spec fn statement_text(query: QueryView) -> Seq<char> {
    match query {
        QueryView::Upsert { key, blob } =>
            "INSERT OR REPLACE INTO login_users ( tg_user_id, mastodon_async_data ) VALUES ( ?1, ?2 )"@,
        QueryView::Select { key } =>
            "SELECT mastodon_async_data FROM login_users WHERE tg_user_id = ?1"@,
        QueryView::Delete { key } => "DELETE FROM login_users WHERE tg_user_id = ?1"@,
    }
}

/// The key of the row of chat user `tg_user_id`.
pub fn row_key(tg_user_id: u64) -> (key: i64)
    ensures
        key == key_of(tg_user_id),
{
    #[verifier::truncate]
    (tg_user_id as i64)
}

/// Two chat users never share a row.
pub proof fn lemma_key_of_injective(a: u64, b: u64)
    ensures
        key_of(a) == key_of(b) <==> a == b,
{
    assert((a as i64) == (b as i64) ==> a == b) by (bit_vector);
}

impl Query {
    /// The key that the statement binds as `?1`.
    pub fn key(&self) -> (key: i64)
        ensures
            key == match self@ {
                QueryView::Upsert { key, blob } => key,
                QueryView::Select { key } => key,
                QueryView::Delete { key } => key,
            },
    {
        match self {
            Query::Upsert { key, blob: _ } => *key,
            Query::Select { key } => *key,
            Query::Delete { key } => *key,
        }
    }

    /// The SQL text to hand to the database.
    pub fn statement(&self) -> (sql: &'static str)
        ensures
            sql@ == statement_text(self@),
    {
        match self {
            Query::Upsert { key: _, blob: _ } =>
                "INSERT OR REPLACE INTO login_users ( tg_user_id, mastodon_async_data ) VALUES ( ?1, ?2 )",
            Query::Select { key: _ } =>
                "SELECT mastodon_async_data FROM login_users WHERE tg_user_id = ?1",
            Query::Delete { key: _ } => "DELETE FROM login_users WHERE tg_user_id = ?1",
        }
    }
}

/// A credential table held in memory. It runs each statement as the
/// durable table is meant to, and is never unreachable.
pub struct MemoryTable {
    rows: HashMap<i64, String>,
}

impl View for MemoryTable {
    type V = Map<i64, Seq<char>>;

    closed spec fn view(&self) -> Map<i64, Seq<char>> {
        self.rows@.map_values(|blob: String| blob@)
    }
}

impl MemoryTable {
    /// A table without rows.
    pub fn new() -> (table: MemoryTable)
        ensures
            table@ == Map::<i64, Seq<char>>::empty(),
    {
        let table = MemoryTable { rows: HashMap::new() };
        assert(table@ =~= Map::<i64, Seq<char>>::empty());
        table
    }

    /// Runs one statement.
    pub fn run(&mut self, query: &Query) -> (answer: Answer)
        ensures
            final(self)@ == rows_after(old(self)@, query@),
            answer@ == answer_to(old(self)@, query@),
    {
        match query {
            Query::Upsert { key, blob } => {
                self.rows.insert(*key, blob.clone());
                assert(self@ =~= rows_after(old(self)@, query@));
                Answer::Done
            },
            Query::Select { key } => {
                match self.rows.get(key) {
                    Some(blob) => Answer::Row(blob.clone()),
                    None => Answer::NoRow,
                }
            },
            Query::Delete { key } => {
                self.rows.remove(key);
                assert(self@ =~= rows_after(old(self)@, query@));
                Answer::Done
            },
        }
    }
}

} // verus!
