//! The closed error taxonomy and its total mapping to HTTP responses.
//!
//! Every fallible handler operation produces exactly one of these kinds, and
//! the conversion to a status code plus JSON error body is centralized here.

use vstd::prelude::*;
use crate::json::{json_encoded_str, json_quote};
use crate::text::{push_dec_i32, spec_dec_int};

verus! {

/// The closed set of application errors.
#[derive(Debug)]
pub enum AppError {
    /// The user with the given id could not be found (carries id, message).
    UserNotFound(i32, String),
    /// The request input was invalid (carries id, message).
    InvalidInput(i32, String),
    /// An internal failure, e.g. of the storage layer (carries message).
    InternalServerError(String),
}

/// A fully determined HTTP response: a status code and a body.
#[derive(Debug)]
pub struct HttpResponse {
    pub status: u16,
    pub body: String,
}

/// The HTTP status code documented for each error kind.
pub open spec fn spec_error_status(e: AppError) -> int {
    match e {
        AppError::UserNotFound(_, _) => 404,
        AppError::InvalidInput(_, _) => 400,
        AppError::InternalServerError(_) => 500,
    }
}

/// The human-readable message documented for each error kind.
pub open spec fn spec_error_message(e: AppError) -> Seq<char> {
    match e {
        AppError::UserNotFound(id, m) => "User not found: "@ + spec_dec_int(id as int) + " - "@
            + m@,
        AppError::InvalidInput(id, m) => "Invalid input: "@ + spec_dec_int(id as int) + " - "@
            + m@,
        AppError::InternalServerError(m) => "Internal server error: "@ + m@,
    }
}

/// The JSON error body `{"error": <msg>}` carrying the given message.
pub open spec fn spec_error_body(msg: Seq<char>) -> Seq<char> {
    "{\"error\":"@ + json_encoded_str(msg) + "}"@
}

/// Builds the JSON error body `{"error": <msg>}` for a message.
pub fn error_body(msg: &str) -> (b: String)
    ensures
        b@ == spec_error_body(msg@),
{
    let mut b = String::from_str("{\"error\":");
    let quoted = json_quote(msg);
    b.append(quoted.as_str());
    b.append("}");
    proof {
        assert(b@ =~= spec_error_body(msg@));
    }
    b
}

impl AppError {
    /// The total conversion of an error into its HTTP response: exactly one
    /// status code and one `{"error": ...}` body per kind.
    pub fn into_response(self) -> (r: HttpResponse)
        ensures
            r.status == spec_error_status(self),
            r.body@ == spec_error_body(spec_error_message(self)),
    {
        let (status, message): (u16, String) = match self {
            AppError::UserNotFound(id, msg) => {
                let mut m = String::from_str("User not found: ");
                push_dec_i32(&mut m, id);
                m.append(" - ");
                m.append(msg.as_str());
                (404, m)
            },
            AppError::InvalidInput(id, msg) => {
                let mut m = String::from_str("Invalid input: ");
                push_dec_i32(&mut m, id);
                m.append(" - ");
                m.append(msg.as_str());
                (400, m)
            },
            AppError::InternalServerError(msg) => {
                let mut m = String::from_str("Internal server error: ");
                m.append(msg.as_str());
                (500, m)
            },
        };
        proof {
            assert(message@ =~= spec_error_message(self));
        }
        HttpResponse { status, body: error_body(message.as_str()) }
    }
}

/// Law: the error-to-status mapping is total over the closed kind set and the
/// status code identifies the kind, so no kind is ever reported with another
/// kind's status code.
pub proof fn lemma_error_status_identifies_kind(e: AppError)
    ensures
        spec_error_status(e) == 404 || spec_error_status(e) == 400 || spec_error_status(e)
            == 500,
        spec_error_status(e) == 404 <==> e is UserNotFound,
        spec_error_status(e) == 400 <==> e is InvalidInput,
        spec_error_status(e) == 500 <==> e is InternalServerError,
{
}

/// Law: errors of different kinds never share a message, whatever ids and
/// texts they carry: each kind announces itself in its fixed prefix, so no
/// kind ever appears with another kind's body text.
pub proof fn lemma_error_messages_distinct_by_kind(e1: AppError, e2: AppError)
    ensures
        (e1 is UserNotFound && e2 is InvalidInput) ==> spec_error_message(e1)
            != spec_error_message(e2),
        (e1 is UserNotFound && e2 is InternalServerError) ==> spec_error_message(e1)
            != spec_error_message(e2),
        (e1 is InvalidInput && e2 is InternalServerError) ==> spec_error_message(e1)
            != spec_error_message(e2),
{
    reveal_strlit("User not found: ");
    reveal_strlit("Invalid input: ");
    reveal_strlit("Internal server error: ");
    if e1 is UserNotFound && (e2 is InvalidInput || e2 is InternalServerError) {
        assert(spec_error_message(e1)[0] == 'U');
        assert(spec_error_message(e2)[0] == 'I');
    }
    if e1 is InvalidInput && e2 is InternalServerError {
        assert(spec_error_message(e1)[2] == 'v');
        assert(spec_error_message(e2)[2] == 't');
    }
}

} // verus!
