use diesel::connection::SimpleConnection;
use diesel::sqlite::SqliteConnection;
use diesel::sql_types::BigInt;
use diesel::{Connection, RunQueryDsl};
use user_service::errors::AppError;
use user_service::models::{create_user, find_user, User, UserKey};
use user_service::routes::{convert, Reply, ReplyBody};

fn store() -> SqliteConnection {
    let conn = SqliteConnection::establish(":memory:").unwrap();
    conn.batch_execute(
        "CREATE TABLE users (id INTEGER PRIMARY KEY AUTOINCREMENT NOT NULL, \
         username VARCHAR NOT NULL UNIQUE)",
    )
    .unwrap();
    conn
}

fn user(id: i32, name: &str) -> User {
    User { id, username: name.to_string() }
}

#[test]
fn created_user_is_found_by_name() {
    let conn = store();
    for name in ["alice", "bob", "carol d"] {
        let created = create_user(&conn, name).unwrap();
        let found = find_user(&conn, UserKey::Username(name)).unwrap();
        assert_eq!(found.username, name);
        assert!(found.id > 0);
        assert_eq!(found, created);
    }
}

#[test]
fn second_create_with_same_name_fails() {
    let conn = store();
    let first = create_user(&conn, "alice").unwrap();
    assert_eq!(create_user(&conn, "alice"), Err(AppError::RecordAlreadyExists));
    assert_eq!(find_user(&conn, UserKey::Username("alice")), Ok(first.clone()));
    let rows: i64 = diesel::dsl::sql::<BigInt>("SELECT COUNT(*) FROM users WHERE username = 'alice'")
        .get_result(&conn)
        .unwrap();
    assert_eq!(rows, 1);
    // the failed insert was rolled back: the next id follows the first one
    let next = create_user(&conn, "bob").unwrap();
    assert!(next.id > first.id);
    assert_eq!(find_user(&conn, UserKey::ID(first.id)), Ok(first));
}

#[test]
fn unknown_id_is_not_found() {
    let conn = store();
    assert_eq!(find_user(&conn, UserKey::ID(1)), Err(AppError::RecordNotFound));
    create_user(&conn, "alice").unwrap();
    assert_eq!(find_user(&conn, UserKey::ID(999)), Err(AppError::RecordNotFound));
    assert_eq!(find_user(&conn, UserKey::ID(-1)), Err(AppError::RecordNotFound));
}

#[test]
fn unknown_name_is_not_found() {
    let conn = store();
    assert_eq!(find_user(&conn, UserKey::Username("alice")), Err(AppError::RecordNotFound));
    create_user(&conn, "alice").unwrap();
    assert_eq!(find_user(&conn, UserKey::Username("Alice")), Err(AppError::RecordNotFound));
    assert_eq!(find_user(&conn, UserKey::Username("")), Err(AppError::RecordNotFound));
}

#[test]
fn sequential_creates_get_distinct_increasing_ids() {
    let conn = store();
    let names = ["u1", "u2", "u3", "u4", "u5"];
    let mut last = 0;
    for name in names {
        let u = create_user(&conn, name).unwrap();
        assert_eq!(u.username, name);
        assert!(u.id > last);
        last = u.id;
    }
    for (i, name) in names.iter().enumerate() {
        assert_eq!(find_user(&conn, UserKey::Username(name)), Ok(user(i as i32 + 1, name)));
    }
}

#[test]
fn missing_table_is_a_database_error() {
    let conn = SqliteConnection::establish(":memory:").unwrap();
    let e = create_user(&conn, "alice").unwrap_err();
    assert!(matches!(e, AppError::DatabaseError(_)));
    assert_eq!(e.status_code(), 500);
    assert!(e.message().starts_with("Database error: "));
    assert!(e.message().len() > "Database error: ".len());
    let e = find_user(&conn, UserKey::ID(1)).unwrap_err();
    assert!(matches!(e, AppError::DatabaseError(_)));
}

#[test]
fn http_scenario_create_repeat_and_lookups() {
    let conn = store();
    assert_eq!(
        convert(create_user(&conn, "alice")),
        Reply { status: 200, body: ReplyBody::User(user(1, "alice")) }
    );
    assert_eq!(
        convert(create_user(&conn, "alice")),
        Reply {
            status: 400,
            body: ReplyBody::Error("This record violates a unique constraint".to_string())
        }
    );
    assert_eq!(
        convert(find_user(&conn, UserKey::ID(1))),
        Reply { status: 200, body: ReplyBody::User(user(1, "alice")) }
    );
    assert_eq!(
        convert(find_user(&conn, UserKey::ID(999))),
        Reply { status: 404, body: ReplyBody::Error("This record does not exist".to_string()) }
    );
    assert_eq!(
        convert(find_user(&conn, UserKey::Username("alice"))),
        Reply { status: 200, body: ReplyBody::User(user(1, "alice")) }
    );
}

#[test]
fn case_insensitive_column_does_not_match_other_spelling() {
    let conn = SqliteConnection::establish(":memory:").unwrap();
    conn.batch_execute(
        "CREATE TABLE users (id INTEGER PRIMARY KEY AUTOINCREMENT NOT NULL, \
         username VARCHAR NOT NULL UNIQUE COLLATE NOCASE)",
    )
    .unwrap();
    let alice = create_user(&conn, "alice").unwrap();
    assert_eq!(find_user(&conn, UserKey::Username("ALICE")), Err(AppError::RecordNotFound));
    assert_eq!(find_user(&conn, UserKey::Username("alice")), Ok(alice));
}
