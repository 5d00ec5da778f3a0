use vstd::prelude::*;
use vstd::string::*;

use crate::errors::{AppError, StoreFailure};
use crate::store::{create_in_transaction, select_by_id, select_by_username, store_failure_of};

verus! {

/// A row of the `users` table.
#[derive(Debug, Clone, PartialEq, Eq)]
pub struct User {
    pub id: i32,
    pub username: String,
}

/// Selects which of the two lookup predicates `find_user` uses.
pub enum UserKey<'a> {
    Username(&'a str),
    ID(i32),
}

/// The user that a row read from the store stands for, or the classified
/// failure of the read.
pub open spec fn user_from_row_spec(outcome: Result<(i32, String), StoreFailure>) -> Result<
    User,
    AppError,
> {
    match outcome {
        Ok(row) => Ok(User { id: row.0, username: row.1 }),
        Err(f) => Err(AppError::from_failure_spec(f)),
    }
}

/// Builds the user from a row, or classifies the failure that came instead.
pub fn user_from_row(outcome: Result<(i32, String), StoreFailure>) -> (r: Result<User, AppError>)
    ensures
        r == user_from_row_spec(outcome),
{
    match outcome {
        Ok(row) => Ok(User { id: row.0, username: row.1 }),
        Err(f) => Err(AppError::from_failure(f)),
    }
}

fn user_from_query(outcome: Result<(i32, String), diesel::result::Error>) -> (r: Result<
    User,
    AppError,
>)
    ensures
        outcome matches Ok(row) ==> r == Ok::<User, AppError>(User { id: row.0, username: row.1 }),
        outcome matches Err(e) ==> r == Err::<User, AppError>(
            AppError::from_failure_spec(store_failure_of(e)),
        ),
        outcome is Err ==> (r matches Err(e) && !(e is OperationCanceled)),
{
    match outcome {
        Ok(row) => user_from_row(Ok(row)),
        Err(e) => Err(AppError::from_store_error(e)),
    }
}

/// The answer of a lookup by name, kept only where the user found has exactly
/// that name; a row that the store matched under another spelling counts as
/// not found.
pub open spec fn match_username_spec(found: Result<User, AppError>, name: Seq<char>) -> Result<
    User,
    AppError,
> {
    match found {
        Ok(u) => if u.username@ == name {
            Ok(u)
        } else {
            Err(AppError::RecordNotFound)
        },
        Err(e) => Err(e),
    }
}

pub fn match_username(found: Result<User, AppError>, name: &str) -> (r: Result<User, AppError>)
    ensures
        r == match_username_spec(found, name@),
{
    match found {
        Ok(u) => {
            let wanted = String::from_str(name);
            if u.username.eq(&wanted) {
                Ok(u)
            } else {
                Err(AppError::RecordNotFound)
            }
        },
        Err(e) => Err(e),
    }
}

/// Inserts a user with the given name and returns the row read back.
///
/// The row is read back as the one with the largest id, inside the same
/// transaction; concurrent inserts on the same store may make it another
/// caller's row. A name that is taken fails with `RecordAlreadyExists`.
pub fn create_user(conn: &diesel::sqlite::SqliteConnection, username: &str) -> (r: Result<
    User,
    AppError,
>)
    ensures
        r matches Err(e) ==> !(e is OperationCanceled),
{
    user_from_query(create_in_transaction(conn, username))
}

/// Looks a user up by name or by id.
pub fn find_user<'a>(conn: &diesel::sqlite::SqliteConnection, key: UserKey<'a>) -> (r: Result<
    User,
    AppError,
>)
    ensures
        key matches UserKey::Username(name) ==> (r matches Ok(u) ==> u.username@ == name@),
        key matches UserKey::ID(id) ==> (r matches Ok(u) ==> u.id == id),
        r matches Err(e) ==> !(e is OperationCanceled),
{
    match key {
        UserKey::Username(name) => match_username(user_from_query(select_by_username(conn, name)), name),
        UserKey::ID(id) => user_from_query(select_by_id(conn, id)),
    }
}

} // verus!
