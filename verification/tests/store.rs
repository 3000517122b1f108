use mastodon_link::store::row_key;
use mastodon_link::{Answer, Client, ErrorKind, LoginUser, MemoryTable, Query, SessionData};

fn client() -> Client {
    Client::new("bridge".to_string())
}

fn session(token: &str, owner: u64) -> LoginUser {
    LoginUser::new(
        SessionData {
            base: "https://example.social".to_string(),
            client_id: "id".to_string(),
            client_secret: "secret".to_string(),
            redirect: "urn:ietf:wg:oauth:2.0:oob".to_string(),
            token: token.to_string(),
        },
        owner,
    )
}

#[test]
fn row_key_reads_the_id_as_signed() {
    assert_eq!(row_key(0), 0);
    assert_eq!(row_key(42), 42);
    assert_eq!(row_key(i64::MAX as u64), i64::MAX);
    assert_eq!(row_key(i64::MAX as u64 + 1), i64::MIN);
    assert_eq!(row_key(u64::MAX), -1);
}

#[test]
fn row_key_tells_users_apart() {
    assert_ne!(row_key(1), row_key(u64::MAX));
    assert_ne!(row_key(0), row_key(1u64 << 63));
    assert_ne!(row_key(42), row_key(43));
}

#[test]
fn statements_are_the_three_of_the_table() {
    let c = client();
    let save = c.save_login_user(42, &session("t", 42));
    assert_eq!(
        save.statement(),
        "INSERT OR REPLACE INTO login_users ( tg_user_id, mastodon_async_data ) VALUES ( ?1, ?2 )"
    );
    assert_eq!(
        c.load_login_user(42).statement(),
        "SELECT mastodon_async_data FROM login_users WHERE tg_user_id = ?1"
    );
    assert_eq!(
        c.delete_login_user(42).statement(),
        "DELETE FROM login_users WHERE tg_user_id = ?1"
    );
}

#[test]
fn statements_bind_the_users_key() {
    let c = client();
    let user = session("t", 42);
    assert_eq!(
        c.save_login_user(42, &user),
        Query::Upsert { key: 42, blob: user.serialize() }
    );
    assert_eq!(c.load_login_user(u64::MAX), Query::Select { key: -1 });
    assert_eq!(c.delete_login_user(7), Query::Delete { key: 7 });
    assert_eq!(c.revoke(&user), Query::Delete { key: 42 });
    assert_eq!(c.save_login_user(42, &user).key(), 42);
    assert_eq!(c.load_login_user(u64::MAX).key(), -1);
    assert_eq!(c.delete_login_user(7).key(), 7);
}

#[test]
fn empty_table_has_no_row() {
    let mut table = MemoryTable::new();
    assert_eq!(table.run(&Query::Select { key: 42 }), Answer::NoRow);
    assert_eq!(table.run(&Query::Select { key: -1 }), Answer::NoRow);
}

#[test]
fn table_gives_back_what_was_put() {
    let mut table = MemoryTable::new();
    let put = Query::Upsert { key: 5, blob: "five".to_string() };
    assert_eq!(table.run(&put), Answer::Done);
    assert_eq!(table.run(&Query::Select { key: 5 }), Answer::Row("five".to_string()));
    assert_eq!(table.run(&Query::Select { key: 5 }), Answer::Row("five".to_string()));
    assert_eq!(table.run(&Query::Select { key: 6 }), Answer::NoRow);
}

#[test]
fn delete_twice_then_load_finds_no_one() {
    let c = client();
    let mut table = MemoryTable::new();
    let user = session("t", 42);
    assert_eq!(c.written(table.run(&c.save_login_user(42, &user))), Ok(()));
    assert_eq!(c.written(table.run(&c.delete_login_user(42))), Ok(()));
    assert_eq!(c.written(table.run(&c.delete_login_user(42))), Ok(()));
    let err = c.login(42, table.run(&c.load_login_user(42))).unwrap_err();
    assert_eq!(err.kind, ErrorKind::NotFound);
    assert!(err.is_not_found());
}

#[test]
fn delete_without_a_row_is_accepted() {
    let c = client();
    let mut table = MemoryTable::new();
    assert_eq!(c.written(table.run(&c.delete_login_user(9))), Ok(()));
    assert_eq!(c.written(table.run(&c.delete_login_user(9))), Ok(()));
    assert_eq!(c.login(9, table.run(&c.load_login_user(9))).unwrap_err().kind, ErrorKind::NotFound);
}

#[test]
fn second_save_replaces_the_first() {
    let c = client();
    let mut table = MemoryTable::new();
    let first = session("first", 42);
    let second = session("second", 42);
    assert_eq!(c.written(table.run(&c.save_login_user(42, &first))), Ok(()));
    assert_eq!(c.written(table.run(&c.save_login_user(42, &second))), Ok(()));
    let loaded = c.login(42, table.run(&c.load_login_user(42))).unwrap();
    assert_eq!(loaded, second);
    assert_ne!(loaded, first);
    assert_eq!(loaded.data().token, "second");
}

#[test]
fn save_after_delete_links_again() {
    let c = client();
    let mut table = MemoryTable::new();
    let user = session("t", 1);
    table.run(&c.save_login_user(1, &user));
    table.run(&c.revoke(&user));
    table.run(&c.save_login_user(1, &user));
    assert_eq!(c.login(1, table.run(&c.load_login_user(1))), Ok(user));
}

#[test]
fn users_do_not_touch_each_other() {
    let c = client();
    let mut table = MemoryTable::new();
    let ann = session("ann", 1);
    let bob = session("bob", u64::MAX);
    table.run(&c.save_login_user(1, &ann));
    table.run(&c.save_login_user(u64::MAX, &bob));
    assert_eq!(c.login(1, table.run(&c.load_login_user(1))), Ok(ann.clone()));
    assert_eq!(c.login(u64::MAX, table.run(&c.load_login_user(u64::MAX))), Ok(bob.clone()));
    table.run(&c.revoke(&ann));
    assert_eq!(c.login(1, table.run(&c.load_login_user(1))).unwrap_err().kind, ErrorKind::NotFound);
    assert_eq!(c.login(u64::MAX, table.run(&c.load_login_user(u64::MAX))), Ok(bob));
}

#[test]
fn corrupt_row_fails_the_login_and_stays() {
    let c = client();
    let mut table = MemoryTable::new();
    let malformed = Query::Upsert { key: row_key(7), blob: "{\"base\": oops".to_string() };
    assert_eq!(table.run(&malformed), Answer::Done);
    let err = c.login(7, table.run(&c.load_login_user(7))).unwrap_err();
    assert_eq!(err.kind, ErrorKind::CorruptData);
    assert_eq!(
        table.run(&c.load_login_user(7)),
        Answer::Row("{\"base\": oops".to_string())
    );
    assert_eq!(
        c.login(7, table.run(&c.load_login_user(7))).unwrap_err().kind,
        ErrorKind::CorruptData
    );
}

#[test]
fn login_without_a_row_is_not_found() {
    let c = client();
    let err = c.login(42, Answer::NoRow).unwrap_err();
    assert_eq!(err.kind, ErrorKind::NotFound);
}

#[test]
fn login_reports_an_unreachable_table() {
    let c = client();
    let err = c.login(42, Answer::Unavailable("pool timed out".to_string())).unwrap_err();
    assert_eq!(err.kind, ErrorKind::StorageUnavailable);
    assert_eq!(err.detail, "pool timed out");
}

#[test]
fn login_takes_no_write_answer_for_a_row() {
    let c = client();
    assert_eq!(c.login(42, Answer::Done).unwrap_err().kind, ErrorKind::StorageUnavailable);
}

#[test]
fn written_accepts_done_only() {
    let c = client();
    assert_eq!(c.written(Answer::Done), Ok(()));
    let err = c.written(Answer::Unavailable("disk full".to_string())).unwrap_err();
    assert_eq!(err.kind, ErrorKind::StorageUnavailable);
    assert_eq!(err.detail, "disk full");
    assert_eq!(c.written(Answer::NoRow).unwrap_err().kind, ErrorKind::StorageUnavailable);
    assert_eq!(
        c.written(Answer::Row("x".to_string())).unwrap_err().kind,
        ErrorKind::StorageUnavailable
    );
}

#[test]
fn saved_hands_the_session_on_only_when_stored() {
    let c = client();
    let user = session("t", 42);
    assert_eq!(c.saved(user.clone(), Answer::Done), Ok(user.clone()));
    let err = c.saved(user, Answer::Unavailable("locked".to_string())).unwrap_err();
    assert_eq!(err.kind, ErrorKind::StorageUnavailable);
    assert_eq!(err.detail, "locked");
}
