//! Converting the options a caller passes into the options of the storage
//! operations, field by field, failing on the first field that does not
//! convert.
use vstd::prelude::*;
use vstd::string::*;
use vstd::utf8::{decode_utf8, valid_utf8};

use crate::codes::od_zig_error_code;
use crate::error::StoredError;
use crate::ffi::{
    od_zig_delete_options, od_zig_header, od_zig_list_options, od_zig_presign_options,
    od_zig_read_options, od_zig_stat_options, od_zig_write_options, slice_bytes,
};
use crate::text::{
    clone_optional_string, clone_string, parse_timestamp, timestamp_outcome, utf8_error_message,
    HttpDate,
};

verus! {

/// A failure as a status code and a message.
pub type Fail = (od_zig_error_code, Seq<char>);

/// Whether a stored error is the given failure.
pub open spec fn fails_with(e: StoredError, f: Fail) -> bool {
    e.code == f.0 && e.message@ == f.1
}

/// The failure of a step, if it failed.
pub open spec fn failure_of<T>(r: Result<T, Fail>) -> Option<Fail> {
    match r {
        Ok(_) => None,
        Err(f) => Some(f),
    }
}

/// The first of two failures.
pub open spec fn or_else(a: Option<Fail>, b: Option<Fail>) -> Option<Fail> {
    match a {
        Some(f) => Some(f),
        None => b,
    }
}

/// What copying a slice as required text gives (a null slice is empty).
pub open spec fn text_required(s: Option<Seq<u8>>) -> Result<Seq<char>, Fail> {
    if valid_utf8(slice_bytes(s)) {
        Ok(decode_utf8(slice_bytes(s)))
    } else {
        Err((od_zig_error_code::OD_ZIG_INVALID_ARGUMENT, utf8_error_message(slice_bytes(s))))
    }
}

/// What copying a slice as optional text gives (a null slice is nothing).
pub open spec fn text_field(s: Option<Seq<u8>>) -> Result<Option<Seq<char>>, Fail> {
    match s {
        None => Ok(None),
        Some(b) => if valid_utf8(b) {
            Ok(Some(decode_utf8(b)))
        } else {
            Err((od_zig_error_code::OD_ZIG_INVALID_ARGUMENT, utf8_error_message(b)))
        },
    }
}

/// Whether a copied optional text is what the slice gives.
pub open spec fn text_is(o: Option<String>, s: Option<Seq<u8>>) -> bool {
    match (o, text_field(s)) {
        (None, Ok(None)) => true,
        (Some(x), Ok(Some(t))) => x@ == t,
        _ => false,
    }
}

/// Whether a parsed optional date is what the slice gives.
pub open spec fn date_is(o: Option<HttpDate>, s: Option<Seq<u8>>) -> bool {
    match (o, timestamp_outcome(s)) {
        (None, Ok(None)) => true,
        (Some(d), Ok(Some(t))) => d.seconds == t.0 && d.nanoseconds == t.1,
        _ => false,
    }
}

/// A byte range of a read: from `start`, up to `end` exclusive where it is
/// given, else to the end of the object.
#[derive(Clone, Copy, PartialEq, Eq, Structural, Debug)]
pub struct ReadRange {
    pub start: u64,
    pub end: Option<u64>,
}

/// Options of a read as the storage layer takes them; `range` is `None`
/// for the whole object.
#[derive(Debug)]
pub struct ReadOptions {
    pub version: Option<String>,
    pub if_match: Option<String>,
    pub if_none_match: Option<String>,
    pub if_modified_since: Option<HttpDate>,
    pub if_unmodified_since: Option<HttpDate>,
    pub override_content_type: Option<String>,
    pub override_cache_control: Option<String>,
    pub override_content_disposition: Option<String>,
    pub range: Option<ReadRange>,
}

/// Options of opening a reader as the storage layer takes them.
#[derive(Debug)]
pub struct ReaderOptions {
    pub version: Option<String>,
    pub if_match: Option<String>,
    pub if_none_match: Option<String>,
    pub if_modified_since: Option<HttpDate>,
    pub if_unmodified_since: Option<HttpDate>,
}

/// Options of a write as the storage layer takes them; the user metadata
/// are given in the caller's order, a later key replacing an earlier one.
#[derive(Debug)]
pub struct WriteOptions {
    pub append: bool,
    pub cache_control: Option<String>,
    pub content_type: Option<String>,
    pub content_disposition: Option<String>,
    pub content_encoding: Option<String>,
    pub user_metadata: Option<Vec<(String, String)>>,
    pub if_match: Option<String>,
    pub if_none_match: Option<String>,
    pub if_not_exists: bool,
}

/// Options of a stat as the storage layer takes them.
#[derive(Debug)]
pub struct StatOptions {
    pub version: Option<String>,
    pub if_match: Option<String>,
    pub if_none_match: Option<String>,
    pub if_modified_since: Option<HttpDate>,
    pub if_unmodified_since: Option<HttpDate>,
    pub override_content_type: Option<String>,
    pub override_cache_control: Option<String>,
    pub override_content_disposition: Option<String>,
}

/// Options of a delete as the storage layer takes them.
#[derive(Debug)]
pub struct DeleteOptions {
    pub version: Option<String>,
    pub recursive: bool,
}

/// Options of a listing as the storage layer takes them.
#[derive(Debug)]
pub struct ListOptions {
    pub limit: Option<usize>,
    pub start_after: Option<String>,
    pub recursive: bool,
    pub versions: bool,
    pub deleted: bool,
}

/// The message of a read range whose end does not fit in 64 bits.
pub open spec fn range_overflow_message() -> Seq<char> {
    "read range overflows u64"@
}

/// Where a read starts: at the offset where one is given, else at the
/// start of the object.
pub open spec fn range_start(i: &od_zig_read_options) -> u64 {
    if i.has_offset {
        i.offset
    } else {
        0
    }
}

/// The failure of a read range, if its end overflows.
pub open spec fn range_failure(i: &od_zig_read_options) -> Option<Fail> {
    if i.has_size && range_start(i) + i.size > u64::MAX {
        Some((od_zig_error_code::OD_ZIG_INVALID_ARGUMENT, range_overflow_message()))
    } else {
        None
    }
}

/// The byte range a read asks for.
pub open spec fn range_of(i: &od_zig_read_options) -> Option<ReadRange> {
    if i.has_offset || i.has_size {
        if i.has_size {
            Some(
                ReadRange { start: range_start(i), end: Some((range_start(i) + i.size) as u64) },
            )
        } else {
            Some(ReadRange { start: range_start(i), end: None })
        }
    } else {
        None
    }
}

/// The first field of read options that fails to convert, in the order
/// the fields are converted.
pub open spec fn read_options_failure(i: &od_zig_read_options) -> Option<Fail> {
    or_else(
        failure_of(text_field(i.version@)),
        or_else(
            failure_of(text_field(i.if_match@)),
            or_else(
                failure_of(text_field(i.if_none_match@)),
                or_else(
                    failure_of(timestamp_outcome(i.if_modified_since_http_date@)),
                    or_else(
                        failure_of(timestamp_outcome(i.if_unmodified_since_http_date@)),
                        or_else(
                            failure_of(text_field(i.override_content_type@)),
                            or_else(
                                failure_of(text_field(i.override_cache_control@)),
                                or_else(
                                    failure_of(text_field(i.override_content_disposition@)),
                                    range_failure(i),
                                ),
                            ),
                        ),
                    ),
                ),
            ),
        ),
    )
}

/// Whether the converted options of a read are what the caller's fields give.
pub open spec fn read_options_converted(o: ReadOptions, input: &od_zig_read_options) -> bool {
    &&& text_is(o.version, input.version@)
    &&& text_is(o.if_match, input.if_match@)
    &&& text_is(o.if_none_match, input.if_none_match@)
    &&& date_is(o.if_modified_since, input.if_modified_since_http_date@)
    &&& date_is(o.if_unmodified_since, input.if_unmodified_since_http_date@)
    &&& text_is(o.override_content_type, input.override_content_type@)
    &&& text_is(o.override_cache_control, input.override_cache_control@)
    &&& text_is(o.override_content_disposition, input.override_content_disposition@)
    &&& o.range == range_of(input)
}

/// Converts the options of a read; a size without an offset reads from
/// the start, and an end past `u64::MAX` is refused.
pub fn convert_read_options(input: &od_zig_read_options) -> (res: Result<ReadOptions, StoredError>)
    ensures
        match res {
            Ok(o) => {
                &&& read_options_failure(input) is None
                &&& read_options_converted(o, input)
            },
            Err(e) => read_options_failure(input) matches Some(f) && fails_with(e, f),
        },
{
    let version = match clone_optional_string(&input.version) {
        Ok(v) => v,
        Err(e) => return Err(e),
    };
    let if_match = match clone_optional_string(&input.if_match) {
        Ok(v) => v,
        Err(e) => return Err(e),
    };
    let if_none_match = match clone_optional_string(&input.if_none_match) {
        Ok(v) => v,
        Err(e) => return Err(e),
    };
    let if_modified_since = match parse_timestamp(&input.if_modified_since_http_date) {
        Ok(v) => v,
        Err(e) => return Err(e),
    };
    let if_unmodified_since = match parse_timestamp(&input.if_unmodified_since_http_date) {
        Ok(v) => v,
        Err(e) => return Err(e),
    };
    let override_content_type = match clone_optional_string(&input.override_content_type) {
        Ok(v) => v,
        Err(e) => return Err(e),
    };
    let override_cache_control = match clone_optional_string(&input.override_cache_control) {
        Ok(v) => v,
        Err(e) => return Err(e),
    };
    let override_content_disposition = match clone_optional_string(
        &input.override_content_disposition,
    ) {
        Ok(v) => v,
        Err(e) => return Err(e),
    };
    let mut range = None;
    if input.has_offset || input.has_size {
        let start = if input.has_offset {
            input.offset
        } else {
            0
        };
        if input.has_size {
            match start.checked_add(input.size) {
                Some(end) => {
                    range = Some(ReadRange { start, end: Some(end) });
                },
                None => {
                    return Err(
                        StoredError::new(
                            od_zig_error_code::OD_ZIG_INVALID_ARGUMENT,
                            String::from_str("read range overflows u64"),
                        ),
                    );
                },
            }
        } else {
            range = Some(ReadRange { start, end: None });
        }
    }
    Ok(
        ReadOptions {
            version,
            if_match,
            if_none_match,
            if_modified_since,
            if_unmodified_since,
            override_content_type,
            override_cache_control,
            override_content_disposition,
            range,
        },
    )
}

/// The first field of reader options that fails to convert.
pub open spec fn reader_options_failure(i: &od_zig_read_options) -> Option<Fail> {
    or_else(
        failure_of(text_field(i.version@)),
        or_else(
            failure_of(text_field(i.if_match@)),
            or_else(
                failure_of(text_field(i.if_none_match@)),
                or_else(
                    failure_of(timestamp_outcome(i.if_modified_since_http_date@)),
                    failure_of(timestamp_outcome(i.if_unmodified_since_http_date@)),
                ),
            ),
        ),
    )
}

/// Whether the converted options of opening a reader are what the caller's fields give.
pub open spec fn reader_options_converted(o: ReaderOptions, input: &od_zig_read_options) -> bool {
    &&& text_is(o.version, input.version@)
    &&& text_is(o.if_match, input.if_match@)
    &&& text_is(o.if_none_match, input.if_none_match@)
    &&& date_is(o.if_modified_since, input.if_modified_since_http_date@)
    &&& date_is(o.if_unmodified_since, input.if_unmodified_since_http_date@)
}

/// Converts the options of opening a reader: only the version and the
/// conditions are taken; the range and the overrides are not.
pub fn convert_reader_options(input: &od_zig_read_options) -> (res: Result<ReaderOptions, StoredError>)
    ensures
        match res {
            Ok(o) => {
                &&& reader_options_failure(input) is None
                &&& reader_options_converted(o, input)
            },
            Err(e) => reader_options_failure(input) matches Some(f) && fails_with(e, f),
        },
{
    let version = match clone_optional_string(&input.version) {
        Ok(v) => v,
        Err(e) => return Err(e),
    };
    let if_match = match clone_optional_string(&input.if_match) {
        Ok(v) => v,
        Err(e) => return Err(e),
    };
    let if_none_match = match clone_optional_string(&input.if_none_match) {
        Ok(v) => v,
        Err(e) => return Err(e),
    };
    let if_modified_since = match parse_timestamp(&input.if_modified_since_http_date) {
        Ok(v) => v,
        Err(e) => return Err(e),
    };
    let if_unmodified_since = match parse_timestamp(&input.if_unmodified_since_http_date) {
        Ok(v) => v,
        Err(e) => return Err(e),
    };
    Ok(ReaderOptions { version, if_match, if_none_match, if_modified_since, if_unmodified_since })
}

/// A header as the two slices it is made of.
pub open spec fn header_view(h: od_zig_header) -> (Option<Seq<u8>>, Option<Seq<u8>>) {
    (h.key@, h.value@)
}

/// What copying a list of headers gives: the texts of their keys and
/// values in order, or the failure of the first key or value (a key before
/// its value) that is not UTF-8.
pub open spec fn headers_outcome(hs: Seq<(Option<Seq<u8>>, Option<Seq<u8>>)>) -> Result<
    Seq<(Seq<char>, Seq<char>)>,
    Fail,
>
    decreases hs.len(),
{
    if hs.len() == 0 {
        Ok(Seq::empty())
    } else {
        match headers_outcome(hs.drop_last()) {
            Err(f) => Err(f),
            Ok(prev) => match text_required(hs.last().0) {
                Err(f) => Err(f),
                Ok(k) => match text_required(hs.last().1) {
                    Err(f) => Err(f),
                    Ok(v) => Ok(prev.push((k, v))),
                },
            },
        }
    }
}

/// Once copying a prefix of the headers failed, copying any longer prefix
/// fails in the same way.
pub proof fn lemma_headers_failure_persists(
    hs: Seq<(Option<Seq<u8>>, Option<Seq<u8>>)>,
    i: int,
    f: Fail,
)
    requires
        0 <= i <= hs.len(),
        headers_outcome(hs.take(i)) == Err::<Seq<(Seq<char>, Seq<char>)>, Fail>(f),
    ensures
        headers_outcome(hs) == Err::<Seq<(Seq<char>, Seq<char>)>, Fail>(f),
    decreases hs.len() - i,
{
    if i < hs.len() {
        assert(hs.take(i + 1).drop_last() =~= hs.take(i));
        lemma_headers_failure_persists(hs, i + 1, f);
    } else {
        assert(hs.take(i) =~= hs);
    }
}

/// The texts of a list of copied headers.
pub open spec fn pairs_view(v: Seq<(String, String)>) -> Seq<(Seq<char>, Seq<char>)> {
    v.map_values(|p: (String, String)| (p.0@, p.1@))
}

/// What copying the user metadata of a write gives: nothing where there
/// are none.
pub open spec fn user_metadata_outcome(hs: Option<Seq<od_zig_header>>) -> Result<
    Option<Seq<(Seq<char>, Seq<char>)>>,
    Fail,
> {
    match hs {
        None => Ok(None),
        Some(s) => if s.len() == 0 {
            Ok(None)
        } else {
            match headers_outcome(s.map_values(|h: od_zig_header| header_view(h))) {
                Ok(p) => Ok(Some(p)),
                Err(f) => Err(f),
            }
        },
    }
}

/// The user metadata a caller passed, as a sequence of headers.
pub open spec fn user_metadata_view(hs: Option<Vec<od_zig_header>>) -> Option<Seq<od_zig_header>> {
    match hs {
        Some(v) => Some(v@),
        None => None,
    }
}

/// Copies a caller's list of headers; none where the list is null or
/// empty.
pub fn convert_headers_input(headers: &Option<Vec<od_zig_header>>) -> (res: Result<
    Option<Vec<(String, String)>>,
    StoredError,
>)
    ensures
        match (res, user_metadata_outcome(user_metadata_view(*headers))) {
            (Ok(None), Ok(None)) => true,
            (Ok(Some(v)), Ok(Some(p))) => pairs_view(v@) == p,
            (Err(e), Err(f)) => fails_with(e, f),
            _ => false,
        },
{
    let hs = match headers {
        None => return Ok(None),
        Some(hs) => hs,
    };
    if hs.len() == 0 {
        return Ok(None);
    }
    let ghost views = hs@.map_values(|h: od_zig_header| header_view(h));
    let mut out: Vec<(String, String)> = Vec::new();
    let mut i: usize = 0;
    assert(views.take(0) =~= Seq::<(Option<Seq<u8>>, Option<Seq<u8>>)>::empty());
    assert(pairs_view(out@) =~= Seq::<(Seq<char>, Seq<char>)>::empty());
    while i < hs.len()
        invariant
            0 <= i <= hs@.len(),
            hs@.len() > 0,
            user_metadata_view(*headers) == Some(hs@),
            views == hs@.map_values(|h: od_zig_header| header_view(h)),
            headers_outcome(views.take(i as int)) == Ok::<Seq<(Seq<char>, Seq<char>)>, Fail>(
                pairs_view(out@),
            ),
        decreases hs@.len() - i,
    {
        let header = &hs[i];
        assert(views.take(i + 1).drop_last() =~= views.take(i as int));
        assert(views.take(i + 1).last() == header_view(*header));
        let key = match clone_string(&header.key) {
            Ok(k) => k,
            Err(e) => {
                proof {
                    assert(text_required(header.key@) == Err::<Seq<char>, Fail>((e.code, e.message@)));
                    assert(headers_outcome(views.take(i + 1)) == Err::<Seq<(Seq<char>, Seq<char>)>, Fail>((e.code, e.message@)));
                    lemma_headers_failure_persists(views, i + 1, (e.code, e.message@));
                }
                return Err(e);
            },
        };
        let value = match clone_string(&header.value) {
            Ok(v) => v,
            Err(e) => {
                proof {
                    assert(text_required(header.value@) == Err::<Seq<char>, Fail>((e.code, e.message@)));
                    assert(headers_outcome(views.take(i + 1)) == Err::<Seq<(Seq<char>, Seq<char>)>, Fail>((e.code, e.message@)));
                    lemma_headers_failure_persists(views, i + 1, (e.code, e.message@));
                }
                return Err(e);
            },
        };
        let ghost before = out@;
        out.push((key, value));
        proof {
            assert(pairs_view(out@) =~= pairs_view(before).push((key@, value@)));
        }
        i = i + 1;
    }
    assert(views.take(hs@.len() as int) =~= views);
    Ok(Some(out))
}

/// Whether copied user metadata are what the caller's headers give.
pub open spec fn metadata_is(o: Option<Vec<(String, String)>>, hs: Option<Vec<od_zig_header>>) -> bool {
    match (o, user_metadata_outcome(user_metadata_view(hs))) {
        (None, Ok(None)) => true,
        (Some(v), Ok(Some(p))) => pairs_view(v@) == p,
        _ => false,
    }
}

/// The first field of write options that fails to convert.
pub open spec fn write_options_failure(i: &od_zig_write_options) -> Option<Fail> {
    or_else(
        failure_of(text_field(i.cache_control@)),
        or_else(
            failure_of(text_field(i.content_type@)),
            or_else(
                failure_of(text_field(i.content_disposition@)),
                or_else(
                    failure_of(text_field(i.content_encoding@)),
                    or_else(
                        failure_of(user_metadata_outcome(user_metadata_view(i.user_metadata))),
                        or_else(
                            failure_of(text_field(i.if_match@)),
                            failure_of(text_field(i.if_none_match@)),
                        ),
                    ),
                ),
            ),
        ),
    )
}

/// Whether the converted options of a write are what the caller's fields give.
pub open spec fn write_options_converted(o: WriteOptions, input: &od_zig_write_options) -> bool {
    &&& o.append == input.append
    &&& text_is(o.cache_control, input.cache_control@)
    &&& text_is(o.content_type, input.content_type@)
    &&& text_is(o.content_disposition, input.content_disposition@)
    &&& text_is(o.content_encoding, input.content_encoding@)
    &&& metadata_is(o.user_metadata, input.user_metadata)
    &&& text_is(o.if_match, input.if_match@)
    &&& text_is(o.if_none_match, input.if_none_match@)
    &&& o.if_not_exists == input.if_not_exists
}

/// Converts the options of a write.
pub fn convert_write_options(input: &od_zig_write_options) -> (res: Result<WriteOptions, StoredError>)
    ensures
        match res {
            Ok(o) => {
                &&& write_options_failure(input) is None
                &&& write_options_converted(o, input)
            },
            Err(e) => write_options_failure(input) matches Some(f) && fails_with(e, f),
        },
{
    let cache_control = match clone_optional_string(&input.cache_control) {
        Ok(v) => v,
        Err(e) => return Err(e),
    };
    let content_type = match clone_optional_string(&input.content_type) {
        Ok(v) => v,
        Err(e) => return Err(e),
    };
    let content_disposition = match clone_optional_string(&input.content_disposition) {
        Ok(v) => v,
        Err(e) => return Err(e),
    };
    let content_encoding = match clone_optional_string(&input.content_encoding) {
        Ok(v) => v,
        Err(e) => return Err(e),
    };
    let user_metadata = match convert_headers_input(&input.user_metadata) {
        Ok(v) => v,
        Err(e) => return Err(e),
    };
    let if_match = match clone_optional_string(&input.if_match) {
        Ok(v) => v,
        Err(e) => return Err(e),
    };
    let if_none_match = match clone_optional_string(&input.if_none_match) {
        Ok(v) => v,
        Err(e) => return Err(e),
    };
    Ok(
        WriteOptions {
            append: input.append,
            cache_control,
            content_type,
            content_disposition,
            content_encoding,
            user_metadata,
            if_match,
            if_none_match,
            if_not_exists: input.if_not_exists,
        },
    )
}

/// The first field of stat options that fails to convert.
pub open spec fn stat_options_failure(i: &od_zig_stat_options) -> Option<Fail> {
    or_else(
        failure_of(text_field(i.version@)),
        or_else(
            failure_of(text_field(i.if_match@)),
            or_else(
                failure_of(text_field(i.if_none_match@)),
                or_else(
                    failure_of(timestamp_outcome(i.if_modified_since_http_date@)),
                    or_else(
                        failure_of(timestamp_outcome(i.if_unmodified_since_http_date@)),
                        or_else(
                            failure_of(text_field(i.override_content_type@)),
                            or_else(
                                failure_of(text_field(i.override_cache_control@)),
                                failure_of(text_field(i.override_content_disposition@)),
                            ),
                        ),
                    ),
                ),
            ),
        ),
    )
}

/// Whether the converted options of a stat are what the caller's fields give.
pub open spec fn stat_options_converted(o: StatOptions, input: &od_zig_stat_options) -> bool {
    &&& text_is(o.version, input.version@)
    &&& text_is(o.if_match, input.if_match@)
    &&& text_is(o.if_none_match, input.if_none_match@)
    &&& date_is(o.if_modified_since, input.if_modified_since_http_date@)
    &&& date_is(o.if_unmodified_since, input.if_unmodified_since_http_date@)
    &&& text_is(o.override_content_type, input.override_content_type@)
    &&& text_is(o.override_cache_control, input.override_cache_control@)
    &&& text_is(o.override_content_disposition, input.override_content_disposition@)
}

/// Converts the options of a stat.
pub fn convert_stat_options(input: &od_zig_stat_options) -> (res: Result<StatOptions, StoredError>)
    ensures
        match res {
            Ok(o) => {
                &&& stat_options_failure(input) is None
                &&& stat_options_converted(o, input)
            },
            Err(e) => stat_options_failure(input) matches Some(f) && fails_with(e, f),
        },
{
    let version = match clone_optional_string(&input.version) {
        Ok(v) => v,
        Err(e) => return Err(e),
    };
    let if_match = match clone_optional_string(&input.if_match) {
        Ok(v) => v,
        Err(e) => return Err(e),
    };
    let if_none_match = match clone_optional_string(&input.if_none_match) {
        Ok(v) => v,
        Err(e) => return Err(e),
    };
    let if_modified_since = match parse_timestamp(&input.if_modified_since_http_date) {
        Ok(v) => v,
        Err(e) => return Err(e),
    };
    let if_unmodified_since = match parse_timestamp(&input.if_unmodified_since_http_date) {
        Ok(v) => v,
        Err(e) => return Err(e),
    };
    let override_content_type = match clone_optional_string(&input.override_content_type) {
        Ok(v) => v,
        Err(e) => return Err(e),
    };
    let override_cache_control = match clone_optional_string(&input.override_cache_control) {
        Ok(v) => v,
        Err(e) => return Err(e),
    };
    let override_content_disposition = match clone_optional_string(
        &input.override_content_disposition,
    ) {
        Ok(v) => v,
        Err(e) => return Err(e),
    };
    Ok(
        StatOptions {
            version,
            if_match,
            if_none_match,
            if_modified_since,
            if_unmodified_since,
            override_content_type,
            override_cache_control,
            override_content_disposition,
        },
    )
}

/// Whether the converted options of a delete are what the caller's fields give.
pub open spec fn delete_options_converted(o: DeleteOptions, input: &od_zig_delete_options) -> bool {
    &&& text_is(o.version, input.version@)
    &&& o.recursive == input.recursive
}

/// Converts the options of a delete.
pub fn convert_delete_options(input: &od_zig_delete_options) -> (res: Result<DeleteOptions, StoredError>)
    ensures
        match res {
            Ok(o) => {
                &&& text_field(input.version@) is Ok
                &&& delete_options_converted(o, input)
            },
            Err(e) => text_field(input.version@) matches Err(f) && fails_with(e, f),
        },
{
    let version = match clone_optional_string(&input.version) {
        Ok(v) => v,
        Err(e) => return Err(e),
    };
    Ok(DeleteOptions { version, recursive: input.recursive })
}

/// Whether the converted options of a listing are what the caller's fields give.
pub open spec fn list_options_converted(o: ListOptions, input: &od_zig_list_options) -> bool {
    &&& o.limit == (if input.has_limit {
        Some(input.limit)
    } else {
        None
    })
    &&& text_is(o.start_after, input.start_after@)
    &&& o.recursive == input.recursive
    &&& o.versions == input.versions
    &&& o.deleted == input.deleted
}

/// Converts the options of a listing; the limit counts only where the
/// caller says it is given.
pub fn convert_list_options(input: &od_zig_list_options) -> (res: Result<ListOptions, StoredError>)
    ensures
        match res {
            Ok(o) => {
                &&& text_field(input.start_after@) is Ok
                &&& list_options_converted(o, input)
            },
            Err(e) => text_field(input.start_after@) matches Err(f) && fails_with(e, f),
        },
{
    let start_after = match clone_optional_string(&input.start_after) {
        Ok(v) => v,
        Err(e) => return Err(e),
    };
    let limit = if input.has_limit {
        Some(input.limit)
    } else {
        None
    };
    Ok(
        ListOptions {
            limit,
            start_after,
            recursive: input.recursive,
            versions: input.versions,
            deleted: input.deleted,
        },
    )
}

/// The first field of presign options that fails to convert, where the
/// request asks for reading or stating.
pub open spec fn presign_conditions_failure(i: &od_zig_presign_options) -> Option<Fail> {
    or_else(
        failure_of(text_field(i.version@)),
        or_else(
            failure_of(text_field(i.if_match@)),
            or_else(
                failure_of(text_field(i.if_none_match@)),
                or_else(
                    failure_of(timestamp_outcome(i.if_modified_since_http_date@)),
                    or_else(
                        failure_of(timestamp_outcome(i.if_unmodified_since_http_date@)),
                        or_else(
                            failure_of(text_field(i.override_content_type@)),
                            or_else(
                                failure_of(text_field(i.override_cache_control@)),
                                failure_of(text_field(i.override_content_disposition@)),
                            ),
                        ),
                    ),
                ),
            ),
        ),
    )
}

/// Whether the converted options of a presigned read are what the caller's fields give.
pub open spec fn presign_read_converted(o: ReadOptions, input: &od_zig_presign_options) -> bool {
    &&& text_is(o.version, input.version@)
    &&& text_is(o.if_match, input.if_match@)
    &&& text_is(o.if_none_match, input.if_none_match@)
    &&& date_is(o.if_modified_since, input.if_modified_since_http_date@)
    &&& date_is(o.if_unmodified_since, input.if_unmodified_since_http_date@)
    &&& text_is(o.override_content_type, input.override_content_type@)
    &&& text_is(o.override_cache_control, input.override_cache_control@)
    &&& text_is(o.override_content_disposition, input.override_content_disposition@)
    &&& o.range is None
}

/// Converts the options of a presigned read: the whole object, with the
/// given version, conditions and overrides.
pub fn convert_presign_read_options(input: &od_zig_presign_options) -> (res: Result<
    ReadOptions,
    StoredError,
>)
    ensures
        match res {
            Ok(o) => {
                &&& presign_conditions_failure(input) is None
                &&& presign_read_converted(o, input)
            },
            Err(e) => presign_conditions_failure(input) matches Some(f) && fails_with(e, f),
        },
{
    let o = match convert_presign_stat_options(input) {
        Ok(o) => o,
        Err(e) => return Err(e),
    };
    Ok(
        ReadOptions {
            version: o.version,
            if_match: o.if_match,
            if_none_match: o.if_none_match,
            if_modified_since: o.if_modified_since,
            if_unmodified_since: o.if_unmodified_since,
            override_content_type: o.override_content_type,
            override_cache_control: o.override_cache_control,
            override_content_disposition: o.override_content_disposition,
            range: None,
        },
    )
}

/// The first field of presign options that fails to convert, where the
/// request asks for writing.
pub open spec fn presign_write_failure(i: &od_zig_presign_options) -> Option<Fail> {
    or_else(
        failure_of(text_field(i.content_encoding@)),
        or_else(
            failure_of(text_field(i.if_match@)),
            or_else(
                failure_of(text_field(i.if_none_match@)),
                or_else(
                    failure_of(text_field(i.override_content_type@)),
                    or_else(
                        failure_of(text_field(i.override_cache_control@)),
                        failure_of(text_field(i.override_content_disposition@)),
                    ),
                ),
            ),
        ),
    )
}

/// Whether the converted options of a presigned write are what the caller's fields give.
pub open spec fn presign_write_converted(o: WriteOptions, input: &od_zig_presign_options) -> bool {
    &&& !o.append
    &&& text_is(o.content_encoding, input.content_encoding@)
    &&& text_is(o.if_match, input.if_match@)
    &&& text_is(o.if_none_match, input.if_none_match@)
    &&& o.if_not_exists == input.if_not_exists
    &&& text_is(o.content_type, input.override_content_type@)
    &&& text_is(o.cache_control, input.override_cache_control@)
    &&& text_is(o.content_disposition, input.override_content_disposition@)
    &&& o.user_metadata is None
}

/// Converts the options of a presigned write: the overrides become the
/// written object's content type, cache control and disposition.
pub fn convert_presign_write_options(input: &od_zig_presign_options) -> (res: Result<
    WriteOptions,
    StoredError,
>)
    ensures
        match res {
            Ok(o) => {
                &&& presign_write_failure(input) is None
                &&& presign_write_converted(o, input)
            },
            Err(e) => presign_write_failure(input) matches Some(f) && fails_with(e, f),
        },
{
    let content_encoding = match clone_optional_string(&input.content_encoding) {
        Ok(v) => v,
        Err(e) => return Err(e),
    };
    let if_match = match clone_optional_string(&input.if_match) {
        Ok(v) => v,
        Err(e) => return Err(e),
    };
    let if_none_match = match clone_optional_string(&input.if_none_match) {
        Ok(v) => v,
        Err(e) => return Err(e),
    };
    let content_type = match clone_optional_string(&input.override_content_type) {
        Ok(v) => v,
        Err(e) => return Err(e),
    };
    let cache_control = match clone_optional_string(&input.override_cache_control) {
        Ok(v) => v,
        Err(e) => return Err(e),
    };
    let content_disposition = match clone_optional_string(&input.override_content_disposition) {
        Ok(v) => v,
        Err(e) => return Err(e),
    };
    Ok(
        WriteOptions {
            append: false,
            cache_control,
            content_type,
            content_disposition,
            content_encoding,
            user_metadata: None,
            if_match,
            if_none_match,
            if_not_exists: input.if_not_exists,
        },
    )
}

/// Whether the converted options of a presigned stat are what the caller's fields give.
pub open spec fn presign_stat_converted(o: StatOptions, input: &od_zig_presign_options) -> bool {
    &&& text_is(o.version, input.version@)
    &&& text_is(o.if_match, input.if_match@)
    &&& text_is(o.if_none_match, input.if_none_match@)
    &&& date_is(o.if_modified_since, input.if_modified_since_http_date@)
    &&& date_is(o.if_unmodified_since, input.if_unmodified_since_http_date@)
    &&& text_is(o.override_content_type, input.override_content_type@)
    &&& text_is(o.override_cache_control, input.override_cache_control@)
    &&& text_is(o.override_content_disposition, input.override_content_disposition@)
}

/// Converts the options of a presigned stat.
pub fn convert_presign_stat_options(input: &od_zig_presign_options) -> (res: Result<
    StatOptions,
    StoredError,
>)
    ensures
        match res {
            Ok(o) => {
                &&& presign_conditions_failure(input) is None
                &&& presign_stat_converted(o, input)
            },
            Err(e) => presign_conditions_failure(input) matches Some(f) && fails_with(e, f),
        },
{
    let version = match clone_optional_string(&input.version) {
        Ok(v) => v,
        Err(e) => return Err(e),
    };
    let if_match = match clone_optional_string(&input.if_match) {
        Ok(v) => v,
        Err(e) => return Err(e),
    };
    let if_none_match = match clone_optional_string(&input.if_none_match) {
        Ok(v) => v,
        Err(e) => return Err(e),
    };
    let if_modified_since = match parse_timestamp(&input.if_modified_since_http_date) {
        Ok(v) => v,
        Err(e) => return Err(e),
    };
    let if_unmodified_since = match parse_timestamp(&input.if_unmodified_since_http_date) {
        Ok(v) => v,
        Err(e) => return Err(e),
    };
    let override_content_type = match clone_optional_string(&input.override_content_type) {
        Ok(v) => v,
        Err(e) => return Err(e),
    };
    let override_cache_control = match clone_optional_string(&input.override_cache_control) {
        Ok(v) => v,
        Err(e) => return Err(e),
    };
    let override_content_disposition = match clone_optional_string(
        &input.override_content_disposition,
    ) {
        Ok(v) => v,
        Err(e) => return Err(e),
    };
    Ok(
        StatOptions {
            version,
            if_match,
            if_none_match,
            if_modified_since,
            if_unmodified_since,
            override_content_type,
            override_cache_control,
            override_content_disposition,
        },
    )
}

/// Whether the converted options of a presigned delete are what the caller's fields give.
pub open spec fn presign_delete_converted(o: DeleteOptions, input: &od_zig_presign_options) -> bool {
    &&& text_is(o.version, input.version@)
    &&& !o.recursive
}

/// Converts the options of a presigned delete: the version only, never
/// recursive.
pub fn convert_presign_delete_options(input: &od_zig_presign_options) -> (res: Result<
    DeleteOptions,
    StoredError,
>)
    ensures
        match res {
            Ok(o) => {
                &&& text_field(input.version@) is Ok
                &&& presign_delete_converted(o, input)
            },
            Err(e) => text_field(input.version@) matches Err(f) && fails_with(e, f),
        },
{
    let version = match clone_optional_string(&input.version) {
        Ok(v) => v,
        Err(e) => return Err(e),
    };
    Ok(DeleteOptions { version, recursive: false })
}

} // verus!
