//! The error that every failing call stores and reports: a status code and a
//! message.
use vstd::prelude::*;
use vstd::string::*;

use crate::codes::{code_for_kind, error_code_from_kind, od_zig_error_code, ErrorKind};

verus! {

/// An error as the interface reports it: a status code and a message.
#[derive(Debug)]
pub struct StoredError {
    pub code: od_zig_error_code,
    pub message: String,
}

impl StoredError {
    /// An error with the given code and message.
    pub fn new(code: od_zig_error_code, message: String) -> (err: StoredError)
        ensures
            err.code == code,
            err.message@ == message@,
    {
        StoredError { code, message }
    }

    /// An internal error with the given message.
    pub fn internal(message: String) -> (err: StoredError)
        ensures
            err.code == od_zig_error_code::OD_ZIG_INTERNAL,
            err.message@ == message@,
    {
        Self::new(od_zig_error_code::OD_ZIG_INTERNAL, message)
    }

    /// The error a canceled task reports.
    pub fn canceled() -> (err: StoredError)
        ensures
            err.code == od_zig_error_code::OD_ZIG_CANCELED,
            err.message@ == "task canceled"@,
    {
        Self::new(od_zig_error_code::OD_ZIG_CANCELED, String::from_str("task canceled"))
    }
}

/// Converts an error of the storage layer, given by its kind and its
/// displayed text, into a stored error.
pub fn stored_from_opendal_error(kind: ErrorKind, text: String) -> (err: StoredError)
    ensures
        err.code == code_for_kind(kind),
        err.message@ == text@,
{
    StoredError::new(error_code_from_kind(kind), text)
}

/// Converts an I/O error, given by its displayed text, into a stored error.
pub fn stored_from_io_error(text: String) -> (err: StoredError)
    ensures
        err.code == od_zig_error_code::OD_ZIG_UNEXPECTED,
        err.message@ == text@,
{
    StoredError::new(od_zig_error_code::OD_ZIG_UNEXPECTED, text)
}

/// The message of a task whose work panicked: the panic's text where it
/// carried one.
pub open spec fn panic_message(payload: Option<Seq<char>>) -> Seq<char> {
    match payload {
        Some(text) => "async task panicked: "@ + text,
        None => "async task panicked"@,
    }
}

/// The outcome recorded for a task whose work panicked, given the text the
/// panic carried, if any.
pub fn panic_error(payload: Option<String>) -> (err: StoredError)
    ensures
        err.code == od_zig_error_code::OD_ZIG_INTERNAL,
        err.message@ == panic_message(match payload {
            Some(t) => Some(t@),
            None => None,
        }),
{
    match payload {
        Some(text) => {
            let mut message = String::from_str("async task panicked: ");
            message.append(text.as_str());
            StoredError::internal(message)
        },
        None => StoredError::internal(String::from_str("async task panicked")),
    }
}

} // verus!
