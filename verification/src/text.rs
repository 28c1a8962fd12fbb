//! Copying caller-supplied byte strings: as bytes, as UTF-8 text, and as
//! RFC 2822 dates.
use vstd::prelude::*;
use vstd::string::*;
use vstd::utf8::{decode_utf8, valid_utf8};

use crate::codes::od_zig_error_code;
use crate::error::StoredError;
use crate::ffi::{od_zig_slice, slice_bytes};

verus! {

/// An instant, as whole seconds since the Unix epoch and the nanoseconds
/// past them.
#[derive(Clone, Copy, PartialEq, Eq, Structural, Debug)]
pub struct HttpDate {
    pub seconds: i64,
    pub nanoseconds: i32,
}

/// The text with which the standard library describes why the given bytes
/// are not UTF-8.
pub uninterp spec fn utf8_error_text(bytes: Seq<u8>) -> Seq<char>;

/// `std::str::from_utf8`: succeeds exactly on valid UTF-8, and then the
/// text is what the bytes encode; otherwise the error's displayed text is
/// returned.
#[verifier::external_body]
fn decode_utf8_text(bytes: &[u8]) -> (res: Result<String, String>)
    ensures
        res is Ok <==> valid_utf8(bytes@),
        res matches Ok(s) ==> s@ == decode_utf8(bytes@),
        res matches Err(m) ==> m@ == utf8_error_text(bytes@),
{
    match std::str::from_utf8(bytes) {
        Ok(text) => Ok(text.to_string()),
        Err(err) => Err(err.to_string()),
    }
}

/// The instant an RFC 2822 date-time denotes, or the text of the parser's
/// error.
pub uninterp spec fn rfc2822_instant(text: Seq<char>) -> Result<(i64, i32), Seq<char>>;

/// `jiff::fmt::rfc2822::parse` followed by `Zoned::timestamp`: the instant
/// the text denotes as seconds and nanoseconds, or the displayed text of
/// the parser's error.
#[verifier::external_body]
fn parse_rfc2822(text: &str) -> (res: Result<HttpDate, String>)
    ensures
        match res {
            Ok(d) => rfc2822_instant(text@) == Ok::<(i64, i32), Seq<char>>(
                (d.seconds, d.nanoseconds),
            ),
            Err(m) => rfc2822_instant(text@) == Err::<(i64, i32), Seq<char>>(m@),
        },
{
    match jiff::fmt::rfc2822::parse(text) {
        Ok(zoned) => {
            let ts = zoned.timestamp();
            Ok(HttpDate { seconds: ts.as_second(), nanoseconds: ts.subsec_nanosecond() })
        },
        Err(err) => Err(err.to_string()),
    }
}

/// A copy of the bytes a slice describes (none where it is null).
pub fn clone_bytes(input: &od_zig_slice) -> (out: Vec<u8>)
    ensures
        out@ == slice_bytes(input@),
{
    match &input.data {
        Some(v) => {
            let out = v.clone();
            assert(out@ =~= v@);
            out
        },
        None => Vec::new(),
    }
}

/// The error of a byte string that is not UTF-8.
pub open spec fn utf8_error_message(bytes: Seq<u8>) -> Seq<char> {
    "invalid utf-8 input: "@ + utf8_error_text(bytes)
}

/// The text a slice holds: it must be UTF-8; a null slice is empty text.
pub fn clone_string(input: &od_zig_slice) -> (res: Result<String, StoredError>)
    ensures
        res is Ok <==> valid_utf8(slice_bytes(input@)),
        res matches Ok(s) ==> s@ == decode_utf8(slice_bytes(input@)),
        res matches Err(e) ==> e.code == od_zig_error_code::OD_ZIG_INVALID_ARGUMENT
            && e.message@ == utf8_error_message(slice_bytes(input@)),
{
    let bytes = clone_bytes(input);
    match decode_utf8_text(bytes.as_slice()) {
        Ok(text) => Ok(text),
        Err(detail) => {
            let mut message = String::from_str("invalid utf-8 input: ");
            message.append(detail.as_str());
            Err(StoredError::new(od_zig_error_code::OD_ZIG_INVALID_ARGUMENT, message))
        },
    }
}

/// The text a slice holds, or `None` where the slice is null.
pub fn clone_optional_string(input: &od_zig_slice) -> (res: Result<Option<String>, StoredError>)
    ensures
        input@ is None ==> res matches Ok(None),
        input@ matches Some(b) ==> {
            &&& (res is Ok <==> valid_utf8(b))
            &&& (res matches Ok(v) ==> v matches Some(s) && s@ == decode_utf8(b))
            &&& (res matches Err(e) ==> e.code == od_zig_error_code::OD_ZIG_INVALID_ARGUMENT
                && e.message@ == utf8_error_message(b))
        },
{
    if input.data.is_none() {
        Ok(None)
    } else {
        match clone_string(input) {
            Ok(s) => Ok(Some(s)),
            Err(e) => Err(e),
        }
    }
}

/// The error of a date that does not parse.
pub open spec fn date_error_message(text: Seq<char>, detail: Seq<char>) -> Seq<char> {
    "invalid http date '"@ + text + "': "@ + detail
}

/// What a slice that should hold an optional RFC 2822 date gives: nothing
/// where it is null, else the instant its UTF-8 text denotes.
pub open spec fn timestamp_outcome(input: Option<Seq<u8>>) -> Result<
    Option<(i64, i32)>,
    (od_zig_error_code, Seq<char>),
> {
    match input {
        None => Ok(None),
        Some(b) => if !valid_utf8(b) {
            Err((od_zig_error_code::OD_ZIG_INVALID_ARGUMENT, utf8_error_message(b)))
        } else {
            match rfc2822_instant(decode_utf8(b)) {
                Ok(t) => Ok(Some(t)),
                Err(detail) => Err(
                    (
                        od_zig_error_code::OD_ZIG_INVALID_ARGUMENT,
                        date_error_message(decode_utf8(b), detail),
                    ),
                ),
            }
        },
    }
}

/// Whether a parsed date, or the error of its parse, is what the outcome
/// says.
pub open spec fn timestamp_matches(
    res: Result<Option<HttpDate>, StoredError>,
    outcome: Result<Option<(i64, i32)>, (od_zig_error_code, Seq<char>)>,
) -> bool {
    match (res, outcome) {
        (Ok(None), Ok(None)) => true,
        (Ok(Some(d)), Ok(Some(t))) => d.seconds == t.0 && d.nanoseconds == t.1,
        (Err(e), Err(f)) => e.code == f.0 && e.message@ == f.1,
        _ => false,
    }
}

/// Parses an optional RFC 2822 date from a slice.
pub fn parse_timestamp(value: &od_zig_slice) -> (res: Result<Option<HttpDate>, StoredError>)
    ensures
        timestamp_matches(res, timestamp_outcome(value@)),
{
    let text = match clone_optional_string(value) {
        Ok(Some(text)) => text,
        Ok(None) => {
            return Ok(None);
        },
        Err(e) => {
            return Err(e);
        },
    };
    match parse_rfc2822(text.as_str()) {
        Ok(date) => Ok(Some(date)),
        Err(detail) => {
            let mut message = String::from_str("invalid http date '");
            message.append(text.as_str());
            message.append("': ");
            message.append(detail.as_str());
            Err(StoredError::new(od_zig_error_code::OD_ZIG_INVALID_ARGUMENT, message))
        },
    }
}

} // verus!
