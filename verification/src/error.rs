use vstd::prelude::*;
use crate::amount::{Amount, decimal_parse};

verus! {

/// Body of an error response.
#[derive(Debug)]
pub struct ErrorResponse {
    pub error: String,
}

/// An error to answer a request with: an HTTP status code and a message.
#[derive(Debug)]
pub struct AppError {
    pub status: u16,
    pub message: String,
}

/// 400 Bad Request.
pub const BAD_REQUEST: u16 = 400;
/// 401 Unauthorized.
pub const UNAUTHORIZED: u16 = 401;
/// 404 Not Found.
pub const NOT_FOUND: u16 = 404;
/// 500 Internal Server Error.
pub const INTERNAL_SERVER_ERROR: u16 = 500;
/// 502 Bad Gateway.
pub const BAD_GATEWAY: u16 = 502;

impl AppError {
    /// An error with the status and message.
    pub fn from(err: (u16, String)) -> (r: AppError)
        ensures
            r.status == err.0,
            r.message == err.1,
    {
        AppError { status: err.0, message: err.1 }
    }

    /// The body that answers with this error: its message.
    pub fn into_body(self) -> (r: (u16, ErrorResponse))
        ensures
            r.0 == self.status,
            r.1.error == self.message,
    {
        (self.status, ErrorResponse { error: self.message })
    }
}

/// The text of `a` followed by that of `b`.
pub fn concat(a: &str, b: &str) -> (r: String)
    ensures
        r@ == a@ + b@,
{
    let mut r = String::from_str(a);
    r.append(b);
    r
}

/// What parsing a decimal text gives, as a message when it fails.
pub open spec fn parse_failure(s: Seq<char>) -> Option<Seq<char>> {
    match decimal_parse(s) {
        Err(msg) => Some(msg),
        Ok(_) => None,
    }
}

/// Parses a decimal field of a request; a text that is no decimal is a bad
/// request, with the message `"Invalid <field>: <reason>"`.
pub fn parse_amount_field(s: &str, field: &str) -> (r: Result<Amount, AppError>)
    ensures
        match parse_failure(s@) {
            Some(msg) => r matches Err(e) && e.status == BAD_REQUEST
                && e.message@ == "Invalid "@ + field@ + ": "@ + msg,
            None => r matches Ok(a) && decimal_parse(s@) == Ok::<(int, int), Seq<char>>(a@),
        },
{
    match Amount::parse(s) {
        Ok(a) => Ok(a),
        Err(e) => {
            let m = concat("Invalid ", field);
            let m = concat(m.as_str(), ": ");
            let m = concat(m.as_str(), e.as_str());
            Err(AppError { status: BAD_REQUEST, message: m })
        },
    }
}

} // verus!
