use diesel::sql_types::{Integer, Text};
use diesel::Connection;
use diesel::RunQueryDsl;
use vstd::prelude::*;

use crate::errors::StoreFailure;

verus! {

#[verifier::external_type_specification]
#[verifier::external_body]
pub struct ExSqliteConnection(diesel::sqlite::SqliteConnection);

#[verifier::external_type_specification]
#[verifier::external_body]
pub struct ExStoreError(diesel::result::Error);

/// What the store's error is reduced to by `failure_of`.
pub uninterp spec fn store_failure_of(e: diesel::result::Error) -> StoreFailure;

/// Relies on diesel's `Error` variants: a unique-constraint violation reported
/// by the database, a query that matched no row, and everything else, whose
/// `Debug` text is kept as the cause.
#[verifier::external_body]
pub(crate) fn failure_of(e: diesel::result::Error) -> (r: StoreFailure)
    ensures
        r == store_failure_of(e),
{
    match e {
        diesel::result::Error::DatabaseError(
            diesel::result::DatabaseErrorKind::UniqueViolation,
            _,
        ) => StoreFailure::UniqueViolation,
        diesel::result::Error::NotFound => StoreFailure::NotFound,
        other => StoreFailure::Other(format!("{:?}", other)),
    }
}

/// Relies on diesel's `sql_query(..).bind(..).execute`: runs one insert of a
/// row with the given username into `users`.
#[verifier::external_body]
pub(crate) fn insert_username(
    conn: &diesel::sqlite::SqliteConnection,
    username: &str,
) -> (r: Result<usize, diesel::result::Error>) {
    diesel::sql_query("INSERT INTO users (username) VALUES (?)")
        .bind::<Text, _>(username)
        .execute(conn)
}

/// Relies on diesel's `sql(..).get_result`: the row of `users` with the
/// largest id, or `NotFound` where the table is empty.
#[verifier::external_body]
pub(crate) fn select_latest(
    conn: &diesel::sqlite::SqliteConnection,
) -> (r: Result<(i32, String), diesel::result::Error>) {
    diesel::dsl::sql::<(Integer, Text)>(
        "SELECT id, username FROM users ORDER BY id DESC LIMIT 1",
    ).get_result(conn)
}

/// Relies on diesel's `sql(..).bind(..).get_result`: the first row of `users`
/// that the store's own comparison `username = ?` matches, or `NotFound`. That
/// comparison follows the column's collation, so the row may differ in name.
#[verifier::external_body]
pub(crate) fn select_by_username(
    conn: &diesel::sqlite::SqliteConnection,
    name: &str,
) -> (r: Result<(i32, String), diesel::result::Error>) {
    diesel::dsl::sql::<(Integer, Text)>("SELECT id, username FROM users WHERE username = ")
        .bind::<Text, _>(name)
        .get_result(conn)
}

/// Relies on diesel's `sql(..).bind(..).get_result`: the row of `users` whose
/// primary key equals the given id, or `NotFound`.
#[verifier::external_body]
pub(crate) fn select_by_id(
    conn: &diesel::sqlite::SqliteConnection,
    id: i32,
) -> (r: Result<(i32, String), diesel::result::Error>)
    ensures
        r matches Ok(row) ==> row.0 == id,
{
    diesel::dsl::sql::<(Integer, Text)>("SELECT id, username FROM users WHERE id = ")
        .bind::<Integer, _>(id)
        .get_result(conn)
}

/// Inserts the username, then reads back the row with the largest id.
///
/// The store cannot hand back the generated id from the insert itself, so the
/// row is found again by its id alone: under concurrent inserts on the same
/// store this may be a row that another caller inserted.
pub(crate) fn insert_then_latest(
    conn: &diesel::sqlite::SqliteConnection,
    username: &str,
) -> (r: Result<(i32, String), diesel::result::Error>) {
    match insert_username(conn, username) {
        Ok(_) => select_latest(conn),
        Err(e) => Err(e),
    }
}

/// Relies on diesel's `Connection::transaction`: runs `insert_then_latest` in
/// one transaction, committed on success and rolled back on failure.
#[verifier::external_body]
pub(crate) fn create_in_transaction(
    conn: &diesel::sqlite::SqliteConnection,
    username: &str,
) -> (r: Result<(i32, String), diesel::result::Error>) {
    conn.transaction(|| insert_then_latest(conn, username))
}

} // verus!
