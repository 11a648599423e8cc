//! The HTTP outcomes that the library decides on: a status and, for failures, the message
//! sent back with it.

use vstd::prelude::*;

verus! {

/// The HTTP statuses that the server answers with.
#[derive(Clone, Copy, Debug, PartialEq, Eq, Structural)]
pub enum Status {
    Success,
    NoContent,
    BadRequest,
    Unauthorized,
    Forbidden,
    NotFound,
    InternalServerError,
}

impl Status {
    /// The numeric HTTP code of the status.
    pub open spec fn spec_code(self) -> u16 {
        match self {
            Status::Success => 200,
            Status::NoContent => 204,
            Status::BadRequest => 400,
            Status::Unauthorized => 401,
            Status::Forbidden => 403,
            Status::NotFound => 404,
            Status::InternalServerError => 500,
        }
    }

    /// The numeric HTTP code of the status.
    pub fn code(&self) -> (c: u16)
        ensures
            c == self.spec_code(),
    {
        match self {
            Status::Success => 200,
            Status::NoContent => 204,
            Status::BadRequest => 400,
            Status::Unauthorized => 401,
            Status::Forbidden => 403,
            Status::NotFound => 404,
            Status::InternalServerError => 500,
        }
    }
}

/// A refused or failed request: the status and the text of the answer.
#[derive(Clone, Debug)]
pub struct ApiError {
    pub status: Status,
    pub message: String,
}

/// The error with this status and message.
pub fn api_error(status: Status, message: &str) -> (e: ApiError)
    ensures
        e.status == status,
        e.message@ == message@,
{
    ApiError { status, message: message.to_owned() }
}

/// A successful answer: the status and the text of the body.
#[derive(Clone, Debug)]
pub struct Reply {
    pub status: Status,
    pub body: String,
}

/// The reply with this status and body.
pub fn reply(status: Status, body: &str) -> (r: Reply)
    ensures
        r.status == status,
        r.body@ == body@,
{
    Reply { status, body: body.to_owned() }
}

} // verus!
