use vstd::prelude::*;

verus! {

/// The outcome of a failed request: an HTTP status code, a coarse
/// category key (`client`, `server` or `validation`) and a single
/// human-readable message.
///
/// Store and crypto failures are always collapsed into the generic
/// internal-server-error value, so no internal detail reaches a caller.
#[derive(Debug)]
pub struct HttpError {
    pub status: u16,
    pub key: String,
    pub message: String,
}

pub const STATUS_BAD_REQUEST: u16 = 400;

pub const STATUS_UNAUTHORIZED: u16 = 401;

pub const STATUS_FORBIDDEN: u16 = 403;

pub const STATUS_NOT_FOUND: u16 = 404;

pub const STATUS_CONFLICT: u16 = 409;

pub const STATUS_INTERNAL_SERVER_ERROR: u16 = 500;

impl HttpError {
    /// True of the errors built by the named constructors below.
    pub open spec fn is(self, status: u16, key: Seq<char>, message: Seq<char>) -> bool {
        &&& self.status == status
        &&& self.key@ == key
        &&& self.message@ == message
    }

    fn error(key: &str, status: u16, message: &str) -> (r: HttpError)
        ensures
            r.is(status, key@, message@),
    {
        HttpError { status, key: key.to_owned(), message: message.to_owned() }
    }

    pub fn internal_server_error() -> (r: HttpError)
        ensures
            r.is(STATUS_INTERNAL_SERVER_ERROR, "server"@, "Internal Server Error"@),
    {
        Self::error("server", STATUS_INTERNAL_SERVER_ERROR, "Internal Server Error")
    }

    pub fn bad_request(message: &str) -> (r: HttpError)
        ensures
            r.is(STATUS_BAD_REQUEST, "client"@, message@),
    {
        Self::error("client", STATUS_BAD_REQUEST, message)
    }

    pub fn not_found(message: &str) -> (r: HttpError)
        ensures
            r.is(STATUS_NOT_FOUND, "client"@, message@),
    {
        Self::error("client", STATUS_NOT_FOUND, message)
    }

    pub fn unauthorized(message: &str) -> (r: HttpError)
        ensures
            r.is(STATUS_UNAUTHORIZED, "client"@, message@),
    {
        Self::error("client", STATUS_UNAUTHORIZED, message)
    }

    pub fn forbbiden(message: &str) -> (r: HttpError)
        ensures
            r.is(STATUS_FORBIDDEN, "client"@, message@),
    {
        Self::error("client", STATUS_FORBIDDEN, message)
    }

    pub fn conflict(message: &str) -> (r: HttpError)
        ensures
            r.is(STATUS_CONFLICT, "client"@, message@),
    {
        Self::error("client", STATUS_CONFLICT, message)
    }

    /// A failed input validation, reported under the `validation` key.
    pub fn errors(message: &str) -> (r: HttpError)
        ensures
            r.is(STATUS_BAD_REQUEST, "validation"@, message@),
    {
        Self::error("validation", STATUS_BAD_REQUEST, message)
    }
}

} // verus!
