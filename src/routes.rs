use vstd::prelude::*;

use crate::errors::AppError;
use crate::models::User;

verus! {

/// What a response carries: the user, or the message of an error.
#[derive(Debug, Clone, PartialEq, Eq)]
pub enum ReplyBody {
    User(User),
    Error(String),
}

/// A response: its HTTP status code and its body.
#[derive(Debug, Clone, PartialEq, Eq)]
pub struct Reply {
    pub status: u16,
    pub body: ReplyBody,
}

impl AppError {
    /// The response that renders this error: its status, and its message as
    /// the body's `err`.
    pub fn error_response(&self) -> (r: Reply)
        ensures
            r.status == self.status_spec(),
            (r.body matches ReplyBody::Error(m) && m@ == self.message_spec()),
    {
        Reply { status: self.status_code(), body: ReplyBody::Error(self.message()) }
    }
}

/// Renders the outcome of a request: 200 with the user, or the error's response.
pub fn convert(res: Result<User, AppError>) -> (r: Reply)
    ensures
        res matches Ok(u) ==> r == (Reply { status: 200, body: ReplyBody::User(u) }),
        res matches Err(e) ==> (r.status == e.status_spec() && (r.body matches ReplyBody::Error(m)
            && m@ == e.message_spec())),
{
    match res {
        Ok(u) => Reply { status: 200, body: ReplyBody::User(u) },
        Err(e) => e.error_response(),
    }
}

} // verus!
