//! The error that request handling ends in: a status code and a message.

use vstd::prelude::*;
use vstd::string::{to_string_from_display_ensures, StringExecFns};
use crate::text::{decimal, decimal_text, text_of};

verus! {

/// An HTTP status code: a number from 100 to 999.
#[derive(Clone, Copy, Debug, PartialEq, Eq, Structural)]
pub struct StatusCode {
    code: u16,
}

impl View for StatusCode {
    type V = int;

    closed spec fn view(&self) -> int {
        self.code as int
    }
}

/// Whether `code` is the number of a status code.
pub open spec fn is_status(code: int) -> bool {
    100 <= code <= 999
}

/// The canonical reason phrase of the status with the number `code`, as
/// `http::StatusCode::canonical_reason` gives it: `Not Found` for 404, and
/// none for a status without a registered phrase.
pub uninterp spec fn reason_phrase(code: u16) -> Option<Seq<char>>;

/// Looks the reason phrase up with `http::StatusCode::canonical_reason`
/// (the `http` crate as axum exports it), on the status that
/// `http::StatusCode::from_u16` makes of the number. The phrase comes from
/// a fixed table, so it depends on the number alone.
#[verifier::external_body]
fn canonical_reason(code: u16) -> (r: Option<String>)
    requires
        is_status(code as int),
    ensures
        text_of(r) == reason_phrase(code),
{
    match axum::http::StatusCode::from_u16(code) {
        Ok(status) => status.canonical_reason().map(String::from),
        Err(_) => None,
    }
}

/// The text of a status: its number in decimal, a space, and its reason
/// phrase, or `<unknown status code>` where it has none.
pub open spec fn status_line(code: nat, reason: Option<Seq<char>>) -> Seq<char> {
    decimal(code) + " "@ + match reason {
        Some(phrase) => phrase,
        None => "<unknown status code>"@,
    }
}

/// Writes the text of a status with the given number and reason phrase.
pub fn status_line_text(code: u16, reason: &Option<String>) -> (r: String)
    ensures
        r@ == status_line(code as nat, text_of(*reason)),
{
    let mut r = decimal_text(code as u64);
    r.append(" ");
    match reason {
        Some(phrase) => r.append(phrase.as_str()),
        None => r.append("<unknown status code>"),
    }
    r
}

impl StatusCode {
    #[verifier::type_invariant]
    spec fn in_range(self) -> bool {
        100 <= self.code <= 999
    }

    /// The status with the given number, if it is the number of one.
    pub fn from_u16(code: u16) -> (r: Option<StatusCode>)
        ensures
            is_status(code as int) ==> r is Some && r->0@ == code,
            !is_status(code as int) ==> r is None,
    {
        if 100 <= code && code <= 999 {
            Some(StatusCode { code })
        } else {
            None
        }
    }

    /// The number of this status.
    pub fn as_u16(self) -> (code: u16)
        ensures
            code == self@,
            is_status(self@),
    {
        proof {
            use_type_invariant(&self);
        }
        self.code
    }

    /// 404, the status of a response for what does not exist.
    pub fn not_found() -> (r: StatusCode)
        ensures
            r@ == 404,
    {
        StatusCode { code: 404 }
    }

    /// 500, the status of a response for a failure inside the server.
    pub fn internal_server_error() -> (r: StatusCode)
        ensures
            r@ == 500,
    {
        StatusCode { code: 500 }
    }

    /// The text of this status: its number and its reason phrase.
    pub fn to_text(self) -> (r: String)
        ensures
            r@ == status_line(self@ as nat, reason_phrase(self@ as u16)),
    {
        let code: u16 = self.as_u16();
        let reason = canonical_reason(code);
        status_line_text(code, &reason)
    }
}

/// An error with the status of the response that reports it.
#[derive(Clone, Debug, PartialEq, Eq)]
pub struct AppError {
    pub status_code: StatusCode,
    pub message: String,
}

/// What request handling gives: a value, or the error to answer with.
pub type AppResult<T> = Result<T, AppError>;

impl AppError {
    /// An internal server error with the given message.
    pub fn new(message: String) -> (r: AppError)
        ensures
            r.status_code@ == 500,
            r.message == message,
    {
        AppError { status_code: StatusCode::internal_server_error(), message }
    }

    /// An error with the given status and an empty message.
    pub fn status(status_code: StatusCode) -> (r: AppError)
        ensures
            r.status_code == status_code,
            r.message@ == Seq::<char>::empty(),
    {
        AppError { status_code, message: String::new() }
    }

    /// A not-found error with the given message.
    pub fn not_found(message: &str) -> (r: AppError)
        ensures
            r.status_code@ == 404,
            r.message@ == message@,
    {
        AppError { status_code: StatusCode::not_found(), message: message.to_owned() }
    }

    /// An internal server error whose message is the display text of `e`.
    pub fn from<T: std::fmt::Display>(e: T) -> (r: AppError)
        ensures
            r.status_code@ == 500,
            to_string_from_display_ensures::<T>(&e, r.message),
    {
        AppError { status_code: StatusCode::internal_server_error(), message: e.to_string() }
    }

    /// The text of this error: the text of its status, a colon and a space,
    /// and its message.
    pub fn to_text(&self) -> (r: String)
        ensures
            r@ == status_line(self.status_code@ as nat, reason_phrase(self.status_code@ as u16))
                + ": "@ + self.message@,
    {
        let mut r = self.status_code.to_text();
        r.append(": ");
        r.append(self.message.as_str());
        r
    }
}

} // verus!
