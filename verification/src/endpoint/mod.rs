//! The HTTP API's decisions: which status and body answer each outcome of a
//! use case. Receiving requests and sending responses is left to the server.
use vstd::prelude::*;

pub mod docs_id;
pub mod dto;
pub mod faculties;
pub mod subjects;
pub mod subjects_id;

verus! {

pub const STATUS_OK: u16 = 200;
pub const STATUS_CREATED: u16 = 201;
pub const STATUS_NO_CONTENT: u16 = 204;
pub const STATUS_BAD_REQUEST: u16 = 400;
pub const STATUS_NOT_FOUND: u16 = 404;
pub const STATUS_CONFLICT: u16 = 409;
pub const STATUS_INTERNAL_SERVER_ERROR: u16 = 500;

/// The body of an error response.
#[derive(Debug)]
pub struct EndpointError {
    pub message: String,
    pub details: Option<String>,
}

/// The text of optional details.
pub open spec fn details_text(d: Option<String>) -> Option<Seq<char>> {
    match d {
        Some(s) => Some(s@),
        None => None,
    }
}

impl EndpointError {
    /// This error reads `message`, with `details` if any.
    pub open spec fn reads(&self, message: Seq<char>, details: Option<Seq<char>>) -> bool {
        &&& self.message@ == message
        &&& details_text(self.details) == details
    }

    pub fn new(message: &str, details: Option<String>) -> (res: Self)
        ensures
            res.message@ == message@,
            details_text(res.details) == details_text(details),
    {
        EndpointError { message: message.to_owned(), details }
    }
}

impl Clone for EndpointError {
    fn clone(&self) -> (res: Self)
        ensures
            res.message@ == self.message@,
            details_text(res.details) == details_text(self.details),
    {
        let details = match &self.details {
            Some(d) => Some(d.clone()),
            None => None,
        };
        EndpointError { message: self.message.clone(), details }
    }
}

/// A status code with either the body of a success or an error.
pub type EndpointResult<T> = (u16, Result<T, EndpointError>);

/// The answer to an outcome that the server did not expect: 500, `unexpected
/// error occured`.
pub open spec fn is_unexpected_error<T>(r: EndpointResult<T>) -> bool {
    &&& r.0 == STATUS_INTERNAL_SERVER_ERROR
    &&& r.1 matches Err(e) && e.reads("unexpected error occured"@, None)
}

pub fn unexpected_error<T>() -> (res: EndpointResult<T>)
    ensures
        is_unexpected_error(res),
{
    (STATUS_INTERNAL_SERVER_ERROR, Err(EndpointError::new("unexpected error occured", None)))
}

/// The answer to a path outside the API: 404, `not found`.
pub fn api_not_found() -> (res: EndpointResult<()>)
    ensures
        res.0 == STATUS_NOT_FOUND,
        res.1 matches Err(e) && e.reads("not found"@, None),
{
    (STATUS_NOT_FOUND, Err(EndpointError::new("not found", None)))
}

/// Answers a rejected request: 400 with `e`.
pub fn error_with_400<T>(e: EndpointError) -> (res: EndpointResult<T>)
    ensures
        res.0 == STATUS_BAD_REQUEST,
        res.1 matches Err(r) && r == e,
{
    (STATUS_BAD_REQUEST, Err(e))
}

} // verus!

verus! {

/// The body of `GET /alive`: `ok`.
pub fn alive() -> (res: String)
    ensures
        res@ == "ok"@,
{
    "ok".to_owned()
}

} // verus!
