//! What each conversion keeps: every field of a converted value is the
//! field of the same name in what it was converted from (where the
//! interface names a field otherwise, the one it stands for), and how the
//! host sees a task is what the task's state is.
use vstd::prelude::*;
use vstd::utf8::{decode_utf8, decode_utf8_encode_utf8, encode_utf8, encode_utf8_decode_utf8, valid_utf8};

use crate::codes::{
    code_for_kind, entry_mode_number, od_zig_error_code, od_zig_poll_state, od_zig_task_state,
    EntryMode, ErrorKind,
};
use crate::convert::{
    capability_converted, empty_entry_view, entry_converted, headers_of_http, headers_of_texts, headers_view,
    info_converted, metadata_converted, metadata_viewed, presigned_converted, text_slice,
    Capability, Entry, Metadata, OperatorInfo, PresignedRequest,
};
use crate::ffi::{
    od_zig_capability, od_zig_delete_options, od_zig_entry_owned, od_zig_entry_view, od_zig_header,
    od_zig_list_options, od_zig_metadata, od_zig_option, od_zig_metadata_view, od_zig_operator_info,
    od_zig_presign_options, od_zig_presigned_request, od_zig_read_options, od_zig_stat_options,
    od_zig_write_options, slice_bytes,
};
use crate::options::{
    date_is, delete_options_converted, presign_conditions_failure, presign_write_failure,
    range_failure, read_options_failure, reader_options_failure, stat_options_failure,
    write_options_failure, header_view, headers_outcome, pairs_view, text_required,
    Fail, list_options_converted, metadata_is,
    presign_delete_converted, presign_read_converted, presign_stat_converted,
    presign_write_converted, read_options_converted, reader_options_converted,
    stat_options_converted, text_field, text_is, user_metadata_outcome, user_metadata_view,
    write_options_converted, DeleteOptions, ListOptions, ReadOptions, ReaderOptions, StatOptions,
    WriteOptions,
};
use crate::calls::{handle_value, option_view, options_view, recorded, take_code};
use crate::error::StoredError;
use crate::hdfs::{entry_of_status, instant_in_range, HdfsFileStatus, HdfsListedEntry};
use crate::path::normalized_root;
use crate::requests::{paths_are, request_failure};
use crate::surreal::{config_with, settings_built, SurrealSetting, SurrealSettings, SurrealdbConfigView};
use crate::runtime::{completion_signals, take_failure_code, tasks_after_completion};
use crate::task::{
    error_code_of, is_running, kind_of, poll_state_of, task_state_of, TaskCompletion, TaskOutcome,
    TaskValue, TaskValueKind,
};
use crate::text::{rfc2822_instant, timestamp_outcome, HttpDate};

verus! {

/// Whether an optional text, written back as UTF-8, is exactly the
/// caller's slice (none where the slice is null).
pub open spec fn carries(o: Option<String>, s: Option<Seq<u8>>) -> bool {
    match o {
        Some(t) => s == Some(encode_utf8(t@)),
        None => s is None,
    }
}

/// Whether an optional date is the instant the caller's slice names (none
/// where the slice is null).
pub open spec fn carries_date(o: Option<HttpDate>, s: Option<Seq<u8>>) -> bool {
    match (o, s) {
        (None, None) => true,
        (Some(d), Some(b)) => valid_utf8(b) && rfc2822_instant(decode_utf8(b)) == Ok::<
            (i64, i32),
            Seq<char>,
        >((d.seconds, d.nanoseconds)),
        _ => false,
    }
}

/// Whether the bytes handed out, read as UTF-8, are the given text (null
/// where there is none).
pub open spec fn read_back(bytes: Option<Seq<u8>>, t: Option<String>) -> bool {
    match (bytes, t) {
        (None, None) => true,
        (Some(b), Some(x)) => valid_utf8(b) && decode_utf8(b) == x@,
        _ => false,
    }
}

proof fn lemma_text_carried(o: Option<String>, s: Option<Seq<u8>>)
    requires
        text_is(o, s),
    ensures
        carries(o, s),
{
    if let Some(b) = s {
        decode_utf8_encode_utf8(b);
    }
}

proof fn lemma_date_carried(o: Option<HttpDate>, s: Option<Seq<u8>>)
    requires
        date_is(o, s),
    ensures
        carries_date(o, s),
{
}

proof fn lemma_text_read_back(t: Option<String>)
    ensures
        read_back(text_slice(t), t),
{
    if let Some(x) = t {
        encode_utf8_decode_utf8(x@);
        vstd::utf8::encode_utf8_valid_utf8(x@);
    }
}

proof fn lemma_headers_copied(hs: Seq<(Option<Seq<u8>>, Option<Seq<u8>>)>, p: Seq<(Seq<char>, Seq<char>)>)
    requires
        headers_outcome(hs) == Ok::<Seq<(Seq<char>, Seq<char>)>, Fail>(p),
    ensures
        p.len() == hs.len(),
        forall|i: int|
            #![trigger p[i]]
            0 <= i < p.len() ==> text_required(hs[i].0) == Ok::<Seq<char>, Fail>(p[i].0)
                && text_required(hs[i].1) == Ok::<Seq<char>, Fail>(p[i].1),
    decreases hs.len(),
{
    if hs.len() > 0 {
        match headers_outcome(hs.drop_last()) {
            Ok(prev) => {
                assert(p.drop_last() =~= prev);
                lemma_headers_copied(hs.drop_last(), prev);
                assert forall|i: int| 0 <= i < p.len() implies text_required(hs[i].0) == Ok::<
                    Seq<char>,
                    Fail,
                >(#[trigger] p[i].0) && text_required(hs[i].1) == Ok::<Seq<char>, Fail>(p[i].1) by {
                    if i < prev.len() {
                        assert(p[i] == prev[i]);
                        assert(hs[i] == hs.drop_last()[i]);
                    }
                }
            },
            Err(_) => {},
        }
    }
}

proof fn lemma_user_metadata_kept(o: Option<Vec<(String, String)>>, hs: Option<Vec<od_zig_header>>)
    requires
        metadata_is(o, hs),
    ensures
        o is None <==> (hs is None || hs->0@.len() == 0),
        o matches Some(v) ==> v@.len() == hs->0@.len() && forall|i: int|
            #![trigger v@[i]]
            0 <= i < v@.len() ==> text_required(hs->0@[i].key@) == Ok::<Seq<char>, Fail>(v@[i].0@)
                && text_required(hs->0@[i].value@) == Ok::<Seq<char>, Fail>(v@[i].1@),
{
    if let Some(v) = o {
        let s = hs->0@;
        let views = s.map_values(|h: od_zig_header| header_view(h));
        let p = pairs_view(v@);
        lemma_headers_copied(views, p);
        assert forall|i: int| 0 <= i < v@.len() implies text_required(s[i].key@) == Ok::<
            Seq<char>,
            Fail,
        >((#[trigger] v@[i]).0@) && text_required(s[i].value@) == Ok::<Seq<char>, Fail>(
            v@[i].1@,
        ) by {
            assert(p[i] == (v@[i].0@, v@[i].1@));
            assert(views[i] == header_view(s[i]));
        }
    }
}

/// Polling reports a task as pending exactly while its work runs (pending,
/// or being canceled), and as finished once it has an outcome, was
/// canceled, or had its outcome taken.
pub proof fn law_poll_pending_exactly_while_running(s: TaskCompletion)
    ensures
        is_running(s) <==> (s is Pending || s is Canceling),
        (poll_state_of(s) == od_zig_poll_state::OD_ZIG_POLL_PENDING) <==> (s is Pending
            || s is Canceling),
        (poll_state_of(s) == od_zig_poll_state::OD_ZIG_POLL_READY) <==> !(s is Pending
            || s is Canceling),
{
}

/// The state a task reports names what happened to it: pending while it
/// runs, ready when its work gave a value, failed when its work gave an
/// error, canceled when it was canceled, consumed once its outcome was
/// taken; and its code is its error's where it failed, `OD_ZIG_CANCELED`
/// where it was canceled, success otherwise.
pub proof fn law_task_state_names_what_happened(s: TaskCompletion)
    ensures
        (task_state_of(s) == od_zig_task_state::OD_ZIG_TASK_PENDING) <==> (s is Pending
            || s is Canceling),
        (task_state_of(s) == od_zig_task_state::OD_ZIG_TASK_READY) <==> (s matches TaskCompletion::Ready(
            Ok(_),
        )),
        (task_state_of(s) == od_zig_task_state::OD_ZIG_TASK_FAILED) <==> (s matches TaskCompletion::Ready(
            Err(_),
        )),
        (task_state_of(s) == od_zig_task_state::OD_ZIG_TASK_CANCELED) <==> s is Canceled,
        (task_state_of(s) == od_zig_task_state::OD_ZIG_TASK_CONSUMED) <==> s is Consumed,
        s matches TaskCompletion::Ready(Err(e)) ==> error_code_of(s) == e.code,
        s is Canceled ==> error_code_of(s) == od_zig_error_code::OD_ZIG_CANCELED,
        !(s matches TaskCompletion::Ready(Err(_))) && !(s is Canceled) ==> error_code_of(s)
            == od_zig_error_code::OD_ZIG_OK,
{
}

/// A running task whose work ends, with a value or an error, polls as
/// finished and reports ready or failed accordingly.
pub proof fn law_completed_task_polls_ready(
    tasks: Map<u64, TaskCompletion>,
    task_id: u64,
    outcome: TaskOutcome,
)
    requires
        completion_signals(tasks, task_id),
    ensures
        ({
            let after = tasks_after_completion(tasks, task_id, outcome);
            &&& poll_state_of(after[task_id]) == od_zig_poll_state::OD_ZIG_POLL_READY
            &&& task_state_of(after[task_id]) == (match outcome {
                Ok(_) => od_zig_task_state::OD_ZIG_TASK_READY,
                Err(_) => od_zig_task_state::OD_ZIG_TASK_FAILED,
            })
        }),
{
}

/// Each option of a converted read is the caller's field of the same name:
/// a text written back as UTF-8 is the caller's bytes, a date is the
/// instant the caller's text names, and the range starts at the offset
/// where one is given (else at 0) and spans the size where one is given.
pub proof fn law_read_options_keep_each_field(o: ReadOptions, input: od_zig_read_options)
    requires
        read_options_converted(o, &input),
    ensures
        carries(o.version, input.version@),
        carries(o.if_match, input.if_match@),
        carries(o.if_none_match, input.if_none_match@),
        carries(o.override_content_type, input.override_content_type@),
        carries(o.override_cache_control, input.override_cache_control@),
        carries(o.override_content_disposition, input.override_content_disposition@),
        carries_date(o.if_modified_since, input.if_modified_since_http_date@),
        carries_date(o.if_unmodified_since, input.if_unmodified_since_http_date@),        !input.has_offset && !input.has_size ==> o.range is None,
        input.has_offset || input.has_size ==> (o.range matches Some(r) && r.start == (
            if input.has_offset {
                input.offset
            } else {
                0
            })),
        input.has_size ==> (o.range matches Some(r) && r.end == Some((r.start + input.size) as u64)),
        input.has_offset && !input.has_size ==> (o.range matches Some(r) && r.end is None),
{
    lemma_text_carried(o.version, input.version@);
    lemma_text_carried(o.if_match, input.if_match@);
    lemma_text_carried(o.if_none_match, input.if_none_match@);
    lemma_text_carried(o.override_content_type, input.override_content_type@);
    lemma_text_carried(o.override_cache_control, input.override_cache_control@);
    lemma_text_carried(o.override_content_disposition, input.override_content_disposition@);
    lemma_date_carried(o.if_modified_since, input.if_modified_since_http_date@);
    lemma_date_carried(o.if_unmodified_since, input.if_unmodified_since_http_date@);
}
/// Each option of a converted reader is the caller's field of the same
/// name: the version and the conditions.
pub proof fn law_reader_options_keep_each_field(o: ReaderOptions, input: od_zig_read_options)
    requires
        reader_options_converted(o, &input),
    ensures
        carries(o.version, input.version@),
        carries(o.if_match, input.if_match@),
        carries(o.if_none_match, input.if_none_match@),
        carries_date(o.if_modified_since, input.if_modified_since_http_date@),
        carries_date(o.if_unmodified_since, input.if_unmodified_since_http_date@),
{
    lemma_text_carried(o.version, input.version@);
    lemma_text_carried(o.if_match, input.if_match@);
    lemma_text_carried(o.if_none_match, input.if_none_match@);
    lemma_date_carried(o.if_modified_since, input.if_modified_since_http_date@);
    lemma_date_carried(o.if_unmodified_since, input.if_unmodified_since_http_date@);
}
/// Each option of a converted write is the caller's field of the same
/// name, and user metadata are given exactly where the caller passed some.
pub proof fn law_write_options_keep_each_field(o: WriteOptions, input: od_zig_write_options)
    requires
        write_options_converted(o, &input),
    ensures
        carries(o.cache_control, input.cache_control@),
        carries(o.content_type, input.content_type@),
        carries(o.content_disposition, input.content_disposition@),
        carries(o.content_encoding, input.content_encoding@),
        carries(o.if_match, input.if_match@),
        carries(o.if_none_match, input.if_none_match@),
        o.append == input.append,
        o.if_not_exists == input.if_not_exists,
        o.user_metadata is None <==> (input.user_metadata is None || input.user_metadata->0@.len()
            == 0),
        o.user_metadata matches Some(v) ==> v@.len() == input.user_metadata->0@.len() && forall|
            i: int,
        |
            #![trigger v@[i]]
            0 <= i < v@.len() ==> text_required(input.user_metadata->0@[i].key@) == Ok::<
                Seq<char>,
                Fail,
            >(v@[i].0@) && text_required(input.user_metadata->0@[i].value@) == Ok::<
                Seq<char>,
                Fail,
            >(v@[i].1@),
{
    lemma_text_carried(o.cache_control, input.cache_control@);
    lemma_text_carried(o.content_type, input.content_type@);
    lemma_text_carried(o.content_disposition, input.content_disposition@);
    lemma_text_carried(o.content_encoding, input.content_encoding@);
    lemma_text_carried(o.if_match, input.if_match@);
    lemma_text_carried(o.if_none_match, input.if_none_match@);

    lemma_user_metadata_kept(o.user_metadata, input.user_metadata);
}
/// Each option of a converted stat is the caller's field of the same name.
pub proof fn law_stat_options_keep_each_field(o: StatOptions, input: od_zig_stat_options)
    requires
        stat_options_converted(o, &input),
    ensures
        carries(o.version, input.version@),
        carries(o.if_match, input.if_match@),
        carries(o.if_none_match, input.if_none_match@),
        carries(o.override_content_type, input.override_content_type@),
        carries(o.override_cache_control, input.override_cache_control@),
        carries(o.override_content_disposition, input.override_content_disposition@),
        carries_date(o.if_modified_since, input.if_modified_since_http_date@),
        carries_date(o.if_unmodified_since, input.if_unmodified_since_http_date@),
{
    lemma_text_carried(o.version, input.version@);
    lemma_text_carried(o.if_match, input.if_match@);
    lemma_text_carried(o.if_none_match, input.if_none_match@);
    lemma_text_carried(o.override_content_type, input.override_content_type@);
    lemma_text_carried(o.override_cache_control, input.override_cache_control@);
    lemma_text_carried(o.override_content_disposition, input.override_content_disposition@);
    lemma_date_carried(o.if_modified_since, input.if_modified_since_http_date@);
    lemma_date_carried(o.if_unmodified_since, input.if_unmodified_since_http_date@);
}
/// The version and the recursion of a converted delete are the caller's.
pub proof fn law_delete_options_keep_each_field(o: DeleteOptions, input: od_zig_delete_options)
    requires
        delete_options_converted(o, &input),
    ensures
        carries(o.version, input.version@),
        o.recursive == input.recursive,
{
    lemma_text_carried(o.version, input.version@);
}
/// Each option of a converted listing is the caller's field of the same
/// name; the limit counts only where the caller says it is given.
pub proof fn law_list_options_keep_each_field(o: ListOptions, input: od_zig_list_options)
    requires
        list_options_converted(o, &input),
    ensures
        carries(o.start_after, input.start_after@),
        o.limit is Some <==> input.has_limit,
        o.limit matches Some(n) ==> n == input.limit,
        o.recursive == input.recursive,
        o.versions == input.versions,
        o.deleted == input.deleted,
{
    lemma_text_carried(o.start_after, input.start_after@);
}
/// A presigned read takes the caller's version, conditions and overrides,
/// each from the field of the same name, and reads the whole object.
pub proof fn law_presign_read_options_keep_each_field(o: ReadOptions, input: od_zig_presign_options)
    requires
        presign_read_converted(o, &input),
    ensures
        carries(o.version, input.version@),
        carries(o.if_match, input.if_match@),
        carries(o.if_none_match, input.if_none_match@),
        carries(o.override_content_type, input.override_content_type@),
        carries(o.override_cache_control, input.override_cache_control@),
        carries(o.override_content_disposition, input.override_content_disposition@),
        carries_date(o.if_modified_since, input.if_modified_since_http_date@),
        carries_date(o.if_unmodified_since, input.if_unmodified_since_http_date@),        o.range is None,
{
    lemma_text_carried(o.version, input.version@);
    lemma_text_carried(o.if_match, input.if_match@);
    lemma_text_carried(o.if_none_match, input.if_none_match@);
    lemma_text_carried(o.override_content_type, input.override_content_type@);
    lemma_text_carried(o.override_cache_control, input.override_cache_control@);
    lemma_text_carried(o.override_content_disposition, input.override_content_disposition@);
    lemma_date_carried(o.if_modified_since, input.if_modified_since_http_date@);
    lemma_date_carried(o.if_unmodified_since, input.if_unmodified_since_http_date@);
}
/// A presigned write takes the caller's encoding and conditions from the
/// fields of the same name, and its overrides as the written object's
/// content type, cache control and disposition; it never appends and
/// carries no user metadata.
pub proof fn law_presign_write_options_keep_each_field(o: WriteOptions, input: od_zig_presign_options)
    requires
        presign_write_converted(o, &input),
    ensures
        carries(o.content_encoding, input.content_encoding@),
        carries(o.if_match, input.if_match@),
        carries(o.if_none_match, input.if_none_match@),
        carries(o.content_type, input.override_content_type@),
        carries(o.cache_control, input.override_cache_control@),
        carries(o.content_disposition, input.override_content_disposition@),
        !o.append,
        o.if_not_exists == input.if_not_exists,
        o.user_metadata is None,
{
    lemma_text_carried(o.content_encoding, input.content_encoding@);
    lemma_text_carried(o.if_match, input.if_match@);
    lemma_text_carried(o.if_none_match, input.if_none_match@);
    lemma_text_carried(o.content_type, input.override_content_type@);
    lemma_text_carried(o.cache_control, input.override_cache_control@);
    lemma_text_carried(o.content_disposition, input.override_content_disposition@);
}
/// A presigned stat takes each option from the caller's field of the same
/// name.
pub proof fn law_presign_stat_options_keep_each_field(o: StatOptions, input: od_zig_presign_options)
    requires
        presign_stat_converted(o, &input),
    ensures
        carries(o.version, input.version@),
        carries(o.if_match, input.if_match@),
        carries(o.if_none_match, input.if_none_match@),
        carries(o.override_content_type, input.override_content_type@),
        carries(o.override_cache_control, input.override_cache_control@),
        carries(o.override_content_disposition, input.override_content_disposition@),
        carries_date(o.if_modified_since, input.if_modified_since_http_date@),
        carries_date(o.if_unmodified_since, input.if_unmodified_since_http_date@),
{
    lemma_text_carried(o.version, input.version@);
    lemma_text_carried(o.if_match, input.if_match@);
    lemma_text_carried(o.if_none_match, input.if_none_match@);
    lemma_text_carried(o.override_content_type, input.override_content_type@);
    lemma_text_carried(o.override_cache_control, input.override_cache_control@);
    lemma_text_carried(o.override_content_disposition, input.override_content_disposition@);
    lemma_date_carried(o.if_modified_since, input.if_modified_since_http_date@);
    lemma_date_carried(o.if_unmodified_since, input.if_unmodified_since_http_date@);
}
/// A presigned delete takes the caller's version and is never recursive.
pub proof fn law_presign_delete_options_keep_each_field(o: DeleteOptions, input: od_zig_presign_options)
    requires
        presign_delete_converted(o, &input),
    ensures
        carries(o.version, input.version@),
        !o.recursive,
{
    lemma_text_carried(o.version, input.version@);
}

/// A read's options fail on the first field that does not convert, in the
/// order version, conditions, dates, overrides; then on a range whose end
/// overflows.
pub proof fn law_read_options_fail_on_first_bad_field(input: od_zig_read_options)
    ensures
        (text_field(input.version@) matches Err(f) ==> read_options_failure(&input) == Some(f)),
        text_field(input.version@) is Ok ==>
            (text_field(input.if_match@) matches Err(f) ==> read_options_failure(&input) == Some(f)),
        text_field(input.version@) is Ok ==>
            text_field(input.if_match@) is Ok ==>
            (text_field(input.if_none_match@) matches Err(f) ==> read_options_failure(&input) == Some(f)),
        text_field(input.version@) is Ok ==>
            text_field(input.if_match@) is Ok ==>
            text_field(input.if_none_match@) is Ok ==>
            (timestamp_outcome(input.if_modified_since_http_date@) matches Err(f) ==> read_options_failure(&input) == Some(f)),
        text_field(input.version@) is Ok ==>
            text_field(input.if_match@) is Ok ==>
            text_field(input.if_none_match@) is Ok ==>
            timestamp_outcome(input.if_modified_since_http_date@) is Ok ==>
            (timestamp_outcome(input.if_unmodified_since_http_date@) matches Err(f) ==> read_options_failure(&input) == Some(f)),
        text_field(input.version@) is Ok ==>
            text_field(input.if_match@) is Ok ==>
            text_field(input.if_none_match@) is Ok ==>
            timestamp_outcome(input.if_modified_since_http_date@) is Ok ==>
            timestamp_outcome(input.if_unmodified_since_http_date@) is Ok ==>
            (text_field(input.override_content_type@) matches Err(f) ==> read_options_failure(&input) == Some(f)),
        text_field(input.version@) is Ok ==>
            text_field(input.if_match@) is Ok ==>
            text_field(input.if_none_match@) is Ok ==>
            timestamp_outcome(input.if_modified_since_http_date@) is Ok ==>
            timestamp_outcome(input.if_unmodified_since_http_date@) is Ok ==>
            text_field(input.override_content_type@) is Ok ==>
            (text_field(input.override_cache_control@) matches Err(f) ==> read_options_failure(&input) == Some(f)),
        text_field(input.version@) is Ok ==>
            text_field(input.if_match@) is Ok ==>
            text_field(input.if_none_match@) is Ok ==>
            timestamp_outcome(input.if_modified_since_http_date@) is Ok ==>
            timestamp_outcome(input.if_unmodified_since_http_date@) is Ok ==>
            text_field(input.override_content_type@) is Ok ==>
            text_field(input.override_cache_control@) is Ok ==>
            (text_field(input.override_content_disposition@) matches Err(f) ==> read_options_failure(&input) == Some(f)),
        text_field(input.version@) is Ok
            && text_field(input.if_match@) is Ok
            && text_field(input.if_none_match@) is Ok
            && timestamp_outcome(input.if_modified_since_http_date@) is Ok
            && timestamp_outcome(input.if_unmodified_since_http_date@) is Ok
            && text_field(input.override_content_type@) is Ok
            && text_field(input.override_cache_control@) is Ok
            && text_field(input.override_content_disposition@) is Ok
            ==> read_options_failure(&input) == range_failure(&input),
{
}

/// A reader's options fail on the first of the version, the conditions and
/// the dates that does not convert.
pub proof fn law_reader_options_fail_on_first_bad_field(input: od_zig_read_options)
    ensures
        (text_field(input.version@) matches Err(f) ==> reader_options_failure(&input) == Some(f)),
        text_field(input.version@) is Ok ==>
            (text_field(input.if_match@) matches Err(f) ==> reader_options_failure(&input) == Some(f)),
        text_field(input.version@) is Ok ==>
            text_field(input.if_match@) is Ok ==>
            (text_field(input.if_none_match@) matches Err(f) ==> reader_options_failure(&input) == Some(f)),
        text_field(input.version@) is Ok ==>
            text_field(input.if_match@) is Ok ==>
            text_field(input.if_none_match@) is Ok ==>
            (timestamp_outcome(input.if_modified_since_http_date@) matches Err(f) ==> reader_options_failure(&input) == Some(f)),
        text_field(input.version@) is Ok ==>
            text_field(input.if_match@) is Ok ==>
            text_field(input.if_none_match@) is Ok ==>
            timestamp_outcome(input.if_modified_since_http_date@) is Ok ==>
            (timestamp_outcome(input.if_unmodified_since_http_date@) matches Err(f) ==> reader_options_failure(&input) == Some(f)),
        text_field(input.version@) is Ok
            && text_field(input.if_match@) is Ok
            && text_field(input.if_none_match@) is Ok
            && timestamp_outcome(input.if_modified_since_http_date@) is Ok
            && timestamp_outcome(input.if_unmodified_since_http_date@) is Ok
            ==> reader_options_failure(&input) is None,
{
}

/// A write's options fail on the first field that does not convert, in the
/// order cache control, content type, disposition, encoding, user
/// metadata, conditions.
pub proof fn law_write_options_fail_on_first_bad_field(input: od_zig_write_options)
    ensures
        (text_field(input.cache_control@) matches Err(f) ==> write_options_failure(&input) == Some(f)),
        text_field(input.cache_control@) is Ok ==>
            (text_field(input.content_type@) matches Err(f) ==> write_options_failure(&input) == Some(f)),
        text_field(input.cache_control@) is Ok ==>
            text_field(input.content_type@) is Ok ==>
            (text_field(input.content_disposition@) matches Err(f) ==> write_options_failure(&input) == Some(f)),
        text_field(input.cache_control@) is Ok ==>
            text_field(input.content_type@) is Ok ==>
            text_field(input.content_disposition@) is Ok ==>
            (text_field(input.content_encoding@) matches Err(f) ==> write_options_failure(&input) == Some(f)),
        text_field(input.cache_control@) is Ok ==>
            text_field(input.content_type@) is Ok ==>
            text_field(input.content_disposition@) is Ok ==>
            text_field(input.content_encoding@) is Ok ==>
            (user_metadata_outcome(user_metadata_view(input.user_metadata)) matches Err(f) ==> write_options_failure(&input) == Some(f)),
        text_field(input.cache_control@) is Ok ==>
            text_field(input.content_type@) is Ok ==>
            text_field(input.content_disposition@) is Ok ==>
            text_field(input.content_encoding@) is Ok ==>
            user_metadata_outcome(user_metadata_view(input.user_metadata)) is Ok ==>
            (text_field(input.if_match@) matches Err(f) ==> write_options_failure(&input) == Some(f)),
        text_field(input.cache_control@) is Ok ==>
            text_field(input.content_type@) is Ok ==>
            text_field(input.content_disposition@) is Ok ==>
            text_field(input.content_encoding@) is Ok ==>
            user_metadata_outcome(user_metadata_view(input.user_metadata)) is Ok ==>
            text_field(input.if_match@) is Ok ==>
            (text_field(input.if_none_match@) matches Err(f) ==> write_options_failure(&input) == Some(f)),
        text_field(input.cache_control@) is Ok
            && text_field(input.content_type@) is Ok
            && text_field(input.content_disposition@) is Ok
            && text_field(input.content_encoding@) is Ok
            && user_metadata_outcome(user_metadata_view(input.user_metadata)) is Ok
            && text_field(input.if_match@) is Ok
            && text_field(input.if_none_match@) is Ok
            ==> write_options_failure(&input) is None,
{
}

/// A stat's options fail on the first field that does not convert, in the
/// order version, conditions, dates, overrides.
pub proof fn law_stat_options_fail_on_first_bad_field(input: od_zig_stat_options)
    ensures
        (text_field(input.version@) matches Err(f) ==> stat_options_failure(&input) == Some(f)),
        text_field(input.version@) is Ok ==>
            (text_field(input.if_match@) matches Err(f) ==> stat_options_failure(&input) == Some(f)),
        text_field(input.version@) is Ok ==>
            text_field(input.if_match@) is Ok ==>
            (text_field(input.if_none_match@) matches Err(f) ==> stat_options_failure(&input) == Some(f)),
        text_field(input.version@) is Ok ==>
            text_field(input.if_match@) is Ok ==>
            text_field(input.if_none_match@) is Ok ==>
            (timestamp_outcome(input.if_modified_since_http_date@) matches Err(f) ==> stat_options_failure(&input) == Some(f)),
        text_field(input.version@) is Ok ==>
            text_field(input.if_match@) is Ok ==>
            text_field(input.if_none_match@) is Ok ==>
            timestamp_outcome(input.if_modified_since_http_date@) is Ok ==>
            (timestamp_outcome(input.if_unmodified_since_http_date@) matches Err(f) ==> stat_options_failure(&input) == Some(f)),
        text_field(input.version@) is Ok ==>
            text_field(input.if_match@) is Ok ==>
            text_field(input.if_none_match@) is Ok ==>
            timestamp_outcome(input.if_modified_since_http_date@) is Ok ==>
            timestamp_outcome(input.if_unmodified_since_http_date@) is Ok ==>
            (text_field(input.override_content_type@) matches Err(f) ==> stat_options_failure(&input) == Some(f)),
        text_field(input.version@) is Ok ==>
            text_field(input.if_match@) is Ok ==>
            text_field(input.if_none_match@) is Ok ==>
            timestamp_outcome(input.if_modified_since_http_date@) is Ok ==>
            timestamp_outcome(input.if_unmodified_since_http_date@) is Ok ==>
            text_field(input.override_content_type@) is Ok ==>
            (text_field(input.override_cache_control@) matches Err(f) ==> stat_options_failure(&input) == Some(f)),
        text_field(input.version@) is Ok ==>
            text_field(input.if_match@) is Ok ==>
            text_field(input.if_none_match@) is Ok ==>
            timestamp_outcome(input.if_modified_since_http_date@) is Ok ==>
            timestamp_outcome(input.if_unmodified_since_http_date@) is Ok ==>
            text_field(input.override_content_type@) is Ok ==>
            text_field(input.override_cache_control@) is Ok ==>
            (text_field(input.override_content_disposition@) matches Err(f) ==> stat_options_failure(&input) == Some(f)),
        text_field(input.version@) is Ok
            && text_field(input.if_match@) is Ok
            && text_field(input.if_none_match@) is Ok
            && timestamp_outcome(input.if_modified_since_http_date@) is Ok
            && timestamp_outcome(input.if_unmodified_since_http_date@) is Ok
            && text_field(input.override_content_type@) is Ok
            && text_field(input.override_cache_control@) is Ok
            && text_field(input.override_content_disposition@) is Ok
            ==> stat_options_failure(&input) is None,
{
}

/// A presigned read's or stat's options fail on the first field that does
/// not convert, in the order version, conditions, dates, overrides.
pub proof fn law_presign_conditions_fail_on_first_bad_field(input: od_zig_presign_options)
    ensures
        (text_field(input.version@) matches Err(f) ==> presign_conditions_failure(&input) == Some(f)),
        text_field(input.version@) is Ok ==>
            (text_field(input.if_match@) matches Err(f) ==> presign_conditions_failure(&input) == Some(f)),
        text_field(input.version@) is Ok ==>
            text_field(input.if_match@) is Ok ==>
            (text_field(input.if_none_match@) matches Err(f) ==> presign_conditions_failure(&input) == Some(f)),
        text_field(input.version@) is Ok ==>
            text_field(input.if_match@) is Ok ==>
            text_field(input.if_none_match@) is Ok ==>
            (timestamp_outcome(input.if_modified_since_http_date@) matches Err(f) ==> presign_conditions_failure(&input) == Some(f)),
        text_field(input.version@) is Ok ==>
            text_field(input.if_match@) is Ok ==>
            text_field(input.if_none_match@) is Ok ==>
            timestamp_outcome(input.if_modified_since_http_date@) is Ok ==>
            (timestamp_outcome(input.if_unmodified_since_http_date@) matches Err(f) ==> presign_conditions_failure(&input) == Some(f)),
        text_field(input.version@) is Ok ==>
            text_field(input.if_match@) is Ok ==>
            text_field(input.if_none_match@) is Ok ==>
            timestamp_outcome(input.if_modified_since_http_date@) is Ok ==>
            timestamp_outcome(input.if_unmodified_since_http_date@) is Ok ==>
            (text_field(input.override_content_type@) matches Err(f) ==> presign_conditions_failure(&input) == Some(f)),
        text_field(input.version@) is Ok ==>
            text_field(input.if_match@) is Ok ==>
            text_field(input.if_none_match@) is Ok ==>
            timestamp_outcome(input.if_modified_since_http_date@) is Ok ==>
            timestamp_outcome(input.if_unmodified_since_http_date@) is Ok ==>
            text_field(input.override_content_type@) is Ok ==>
            (text_field(input.override_cache_control@) matches Err(f) ==> presign_conditions_failure(&input) == Some(f)),
        text_field(input.version@) is Ok ==>
            text_field(input.if_match@) is Ok ==>
            text_field(input.if_none_match@) is Ok ==>
            timestamp_outcome(input.if_modified_since_http_date@) is Ok ==>
            timestamp_outcome(input.if_unmodified_since_http_date@) is Ok ==>
            text_field(input.override_content_type@) is Ok ==>
            text_field(input.override_cache_control@) is Ok ==>
            (text_field(input.override_content_disposition@) matches Err(f) ==> presign_conditions_failure(&input) == Some(f)),
        text_field(input.version@) is Ok
            && text_field(input.if_match@) is Ok
            && text_field(input.if_none_match@) is Ok
            && timestamp_outcome(input.if_modified_since_http_date@) is Ok
            && timestamp_outcome(input.if_unmodified_since_http_date@) is Ok
            && text_field(input.override_content_type@) is Ok
            && text_field(input.override_cache_control@) is Ok
            && text_field(input.override_content_disposition@) is Ok
            ==> presign_conditions_failure(&input) is None,
{
}

/// A presigned write's options fail on the first field that does not
/// convert, in the order encoding, conditions, overrides.
pub proof fn law_presign_write_fails_on_first_bad_field(input: od_zig_presign_options)
    ensures
        (text_field(input.content_encoding@) matches Err(f) ==> presign_write_failure(&input) == Some(f)),
        text_field(input.content_encoding@) is Ok ==>
            (text_field(input.if_match@) matches Err(f) ==> presign_write_failure(&input) == Some(f)),
        text_field(input.content_encoding@) is Ok ==>
            text_field(input.if_match@) is Ok ==>
            (text_field(input.if_none_match@) matches Err(f) ==> presign_write_failure(&input) == Some(f)),
        text_field(input.content_encoding@) is Ok ==>
            text_field(input.if_match@) is Ok ==>
            text_field(input.if_none_match@) is Ok ==>
            (text_field(input.override_content_type@) matches Err(f) ==> presign_write_failure(&input) == Some(f)),
        text_field(input.content_encoding@) is Ok ==>
            text_field(input.if_match@) is Ok ==>
            text_field(input.if_none_match@) is Ok ==>
            text_field(input.override_content_type@) is Ok ==>
            (text_field(input.override_cache_control@) matches Err(f) ==> presign_write_failure(&input) == Some(f)),
        text_field(input.content_encoding@) is Ok ==>
            text_field(input.if_match@) is Ok ==>
            text_field(input.if_none_match@) is Ok ==>
            text_field(input.override_content_type@) is Ok ==>
            text_field(input.override_cache_control@) is Ok ==>
            (text_field(input.override_content_disposition@) matches Err(f) ==> presign_write_failure(&input) == Some(f)),
        text_field(input.content_encoding@) is Ok
            && text_field(input.if_match@) is Ok
            && text_field(input.if_none_match@) is Ok
            && text_field(input.override_content_type@) is Ok
            && text_field(input.override_cache_control@) is Ok
            && text_field(input.override_content_disposition@) is Ok
            ==> presign_write_failure(&input) is None,
{
}

/// A read range fails exactly when a size is given and the end it reaches
/// from the start does not fit in 64 bits.
pub proof fn law_read_range_fails_on_overflow(input: od_zig_read_options)
    ensures
        range_failure(&input) is Some <==> input.has_size && (if input.has_offset {
            input.offset
        } else {
            0
        }) + input.size > u64::MAX,
{
}

/// A call checks its path before its options: a path that is not text
/// decides the failure, and otherwise the options' failure does.
pub proof fn law_path_checked_before_options(path: Option<Seq<u8>>, options: Option<Fail>)
    ensures
        text_required(path) matches Err(f) ==> request_failure(path, options) == Some(f),
        text_required(path) is Ok
            ==> request_failure(path, options) == options,
{
}

/// Each builder method sets its own setting and no other: to the given
/// text, or leaving it as it was where the text is empty.
pub proof fn law_each_setter_sets_its_own_setting(c: SurrealdbConfigView, value: Seq<char>)
    ensures
        ({
            let after = config_with(c, SurrealSetting::Root, value);
            &&& (value.len() == 0 ==> after.root == c.root)
            &&& (value.len() > 0 ==> after.root == Some(value))
            &&& after.url == c.url && after.auth_type == c.auth_type && after.username == c.username && after.password == c.password && after.token == c.token && after.namespace == c.namespace && after.database == c.database && after.table == c.table && after.key_field == c.key_field && after.value_field == c.value_field
        }),
        ({
            let after = config_with(c, SurrealSetting::Table, value);
            &&& (value.len() == 0 ==> after.table == c.table)
            &&& (value.len() > 0 ==> after.table == Some(value))
            &&& after.root == c.root && after.url == c.url && after.auth_type == c.auth_type && after.username == c.username && after.password == c.password && after.token == c.token && after.namespace == c.namespace && after.database == c.database && after.key_field == c.key_field && after.value_field == c.value_field
        }),
        ({
            let after = config_with(c, SurrealSetting::KeyField, value);
            &&& (value.len() == 0 ==> after.key_field == c.key_field)
            &&& (value.len() > 0 ==> after.key_field == Some(value))
            &&& after.root == c.root && after.url == c.url && after.auth_type == c.auth_type && after.username == c.username && after.password == c.password && after.token == c.token && after.namespace == c.namespace && after.database == c.database && after.table == c.table && after.value_field == c.value_field
        }),
        ({
            let after = config_with(c, SurrealSetting::ValueField, value);
            &&& (value.len() == 0 ==> after.value_field == c.value_field)
            &&& (value.len() > 0 ==> after.value_field == Some(value))
            &&& after.root == c.root && after.url == c.url && after.auth_type == c.auth_type && after.username == c.username && after.password == c.password && after.token == c.token && after.namespace == c.namespace && after.database == c.database && after.table == c.table && after.key_field == c.key_field
        }),
        ({
            let after = config_with(c, SurrealSetting::Url, value);
            &&& (value.len() == 0 ==> after.url == c.url)
            &&& (value.len() > 0 ==> after.url == Some(value))
            &&& after.root == c.root && after.auth_type == c.auth_type && after.username == c.username && after.password == c.password && after.token == c.token && after.namespace == c.namespace && after.database == c.database && after.table == c.table && after.key_field == c.key_field && after.value_field == c.value_field
        }),
        ({
            let after = config_with(c, SurrealSetting::Username, value);
            &&& (value.len() == 0 ==> after.username == c.username)
            &&& (value.len() > 0 ==> after.username == Some(value))
            &&& after.root == c.root && after.url == c.url && after.auth_type == c.auth_type && after.password == c.password && after.token == c.token && after.namespace == c.namespace && after.database == c.database && after.table == c.table && after.key_field == c.key_field && after.value_field == c.value_field
        }),
        ({
            let after = config_with(c, SurrealSetting::Password, value);
            &&& (value.len() == 0 ==> after.password == c.password)
            &&& (value.len() > 0 ==> after.password == Some(value))
            &&& after.root == c.root && after.url == c.url && after.auth_type == c.auth_type && after.username == c.username && after.token == c.token && after.namespace == c.namespace && after.database == c.database && after.table == c.table && after.key_field == c.key_field && after.value_field == c.value_field
        }),
        ({
            let after = config_with(c, SurrealSetting::Namespace, value);
            &&& (value.len() == 0 ==> after.namespace == c.namespace)
            &&& (value.len() > 0 ==> after.namespace == Some(value))
            &&& after.root == c.root && after.url == c.url && after.auth_type == c.auth_type && after.username == c.username && after.password == c.password && after.token == c.token && after.database == c.database && after.table == c.table && after.key_field == c.key_field && after.value_field == c.value_field
        }),
        ({
            let after = config_with(c, SurrealSetting::Database, value);
            &&& (value.len() == 0 ==> after.database == c.database)
            &&& (value.len() > 0 ==> after.database == Some(value))
            &&& after.root == c.root && after.url == c.url && after.auth_type == c.auth_type && after.username == c.username && after.password == c.password && after.token == c.token && after.namespace == c.namespace && after.table == c.table && after.key_field == c.key_field && after.value_field == c.value_field
        }),
{
}

/// A built service uses the configured table, the configured key and value
/// fields or `key` and `value` where unset, and the configured working
/// directory (or `/`) normalized.
pub proof fn law_settings_use_the_configuration(c: SurrealdbConfigView, s: SurrealSettings)
    requires
        settings_built(c, s),
    ensures
        c.table == Some(s.table@),
        c.key_field matches Some(k) ==> s.key_field@ == k,
        c.key_field is None ==> s.key_field@ == "key"@,
        c.value_field matches Some(v) ==> s.value_field@ == v,
        c.value_field is None ==> s.value_field@ == "value"@,
        c.root matches Some(r) ==> s.root@ == normalized_root(r),
        c.root is None ==> s.root@ == normalized_root("/"@),
{
}

/// A listed directory's path is its own with one `/` added and carries no
/// length or time; a listed file keeps its path, its length and its time;
/// and the time converts exactly between jiff's first and last instants.
pub proof fn law_listed_entry_follows_the_status(status: HdfsFileStatus, entry: HdfsListedEntry)
    requires
        entry_of_status(&status, entry),
    ensures
        status.isdir ==> entry.path@.len() == status.path@.len() + 1 && entry.path@.last() == '/'
            && entry.path@.drop_last() == status.path@,
        !status.isdir ==> entry.path@ == status.path@,
        (entry.mode == EntryMode::DIR) == status.isdir,
        (entry.mode == EntryMode::FILE) == !status.isdir,
        entry.content_length is None <==> status.isdir,
        !status.isdir ==> entry.content_length == Some(status.length as u64)
            && entry.last_modified_seconds == Some(status.modification_time as i64),
        status.isdir ==> entry.last_modified_seconds is None,
        instant_in_range(status.modification_time as i64) <==> -377705023201 <= (
        status.modification_time as i64) <= 253402207200,
{
    reveal_strlit("/");
    if status.isdir {
        assert((status.path@ + "/"@).drop_last() =~= status.path@);
    }
}

/// Two copied paths are, in order, the source's and the target's texts.
pub proof fn law_paths_keep_source_and_target(
    f: String,
    t: String,
    from: Option<Seq<u8>>,
    to: Option<Seq<u8>>,
)
    requires
        paths_are(f, t, from, to),
    ensures
        valid_utf8(slice_bytes(from)) && f@ == decode_utf8(slice_bytes(from)),
        valid_utf8(slice_bytes(to)) && t@ == decode_utf8(slice_bytes(to)),
{
}

/// Taking a task's outcome fails with `OD_ZIG_INTERNAL` where the task is
/// unknown, still running, already taken, or holds a value of another
/// kind; with `OD_ZIG_CANCELED` where it was canceled; with its error's
/// code where its work failed; and succeeds only on a value of the kind
/// asked for.
pub proof fn law_take_fails_with_the_right_code(
    tasks: Map<u64, TaskCompletion>,
    task_id: u64,
    kind: TaskValueKind,
)
    ensures
        !tasks.contains_key(task_id) ==> take_failure_code(tasks, task_id, kind) == Some(
            od_zig_error_code::OD_ZIG_INTERNAL,
        ),
        tasks.contains_key(task_id) && (tasks[task_id] is Pending || tasks[task_id] is Canceling
            || tasks[task_id] is Consumed) ==> take_failure_code(tasks, task_id, kind) == Some(
            od_zig_error_code::OD_ZIG_INTERNAL,
        ),
        tasks.contains_key(task_id) && tasks[task_id] is Canceled ==> take_failure_code(
            tasks,
            task_id,
            kind,
        ) == Some(od_zig_error_code::OD_ZIG_CANCELED),
        tasks.contains_key(task_id) ==> (tasks[task_id] matches TaskCompletion::Ready(Err(e))
            ==> take_failure_code(tasks, task_id, kind) == Some(e.code)),
        tasks.contains_key(task_id) ==> (tasks[task_id] matches TaskCompletion::Ready(Ok(v))
            ==> (take_failure_code(tasks, task_id, kind) is None <==> kind_of(v) == kind)),
        take_failure_code(tasks, task_id, kind) is None ==> tasks.contains_key(task_id),
        take_failure_code(tasks, task_id, kind) is None ==> (tasks[task_id] matches TaskCompletion::Ready(
            Ok(v),
        ) && kind_of(v) == kind),
{
}

/// A service's configuration is copied in the caller's order, each key and
/// value from the option's own key and value.
pub proof fn law_operator_options_keep_keys_and_values(
    options: Option<Vec<od_zig_option>>,
    v: Seq<(String, String)>,
)
    requires
        headers_outcome(options_view(options)) == Ok::<Seq<(Seq<char>, Seq<char>)>, Fail>(
            pairs_view(v),
        ),
    ensures
        options is None ==> v.len() == 0,
        options matches Some(list) ==> v.len() == list@.len(),
        options matches Some(list) ==> forall|i: int|
            #![trigger v[i]]
            0 <= i < v.len() ==> text_required(list@[i].key@) == Ok::<Seq<char>, Fail>(v[i].0@)
                && text_required(list@[i].value@) == Ok::<Seq<char>, Fail>(v[i].1@),
{
    let views = options_view(options);
    lemma_headers_copied(views, pairs_view(v));
    assert(pairs_view(v).len() == v.len());
    if let Some(list) = options {
        assert forall|i: int| 0 <= i < v.len() implies text_required(list@[i].key@) == Ok::<
            Seq<char>,
            Fail,
        >((#[trigger] v[i]).0@) && text_required(list@[i].value@) == Ok::<Seq<char>, Fail>(
            v[i].1@,
        ) by {
            assert(pairs_view(v)[i] == (v[i].0@, v[i].1@));
            assert(views[i] == option_view(list@[i]));
        }
    }
}

/// A slice copied as required text is its bytes read as UTF-8 (a null
/// slice is empty text), and fails exactly where they are not UTF-8.
pub proof fn law_required_text_reads_the_bytes(s: Option<Seq<u8>>)
    ensures
        text_required(s) is Ok <==> valid_utf8(slice_bytes(s)),
        text_required(s) matches Ok(t) ==> t == decode_utf8(slice_bytes(s)),
        s is None ==> text_required(s) == Ok::<Seq<char>, Fail>(Seq::empty()),
{
    if s is None {
        assert(slice_bytes(s) =~= Seq::<u8>::empty());
        vstd::utf8::encode_utf8_decode_utf8(Seq::<char>::empty());
        assert(encode_utf8(Seq::<char>::empty()) =~= Seq::<u8>::empty()) by {
            reveal_with_fuel(encode_utf8, 2);
        }
    }
}

/// A value's kind names the variant it is, so a take of one kind never
/// hands out a value of another.
pub proof fn law_kind_names_the_value(v: TaskValue)
    ensures
        (kind_of(v) == TaskValueKind::Unit) <==> v is Unit,
        (kind_of(v) == TaskValueKind::Bool) <==> v is Bool,
        (kind_of(v) == TaskValueKind::Usize) <==> v is Usize,
        (kind_of(v) == TaskValueKind::U64) <==> v is U64,
        (kind_of(v) == TaskValueKind::Bytes) <==> v is Bytes,
        (kind_of(v) == TaskValueKind::Metadata) <==> v is Metadata,
        (kind_of(v) == TaskValueKind::Info) <==> v is Info,
        (kind_of(v) == TaskValueKind::PresignedRequest) <==> v is PresignedRequest,
        (kind_of(v) == TaskValueKind::Entry) <==> v is Entry,
        (kind_of(v) == TaskValueKind::Reader) <==> v is Reader,
        (kind_of(v) == TaskValueKind::Writer) <==> v is Writer,
        (kind_of(v) == TaskValueKind::Lister) <==> v is Lister,
{
}

/// A finished call leaves the runtime's last error as its own error, or
/// none where it succeeded; a take reports success exactly where it
/// succeeds and otherwise the code of its failure; and a taken handle is
/// the value of the kind asked for.
pub proof fn law_results_report_the_outcome(
    outcome: Result<bool, StoredError>,
    tasks: Map<u64, TaskCompletion>,
    task_id: u64,
    kind: TaskValueKind,
    handle: u64,
)
    ensures
        outcome is Ok ==> recorded(outcome) is None,
        outcome matches Err(e) ==> recorded(outcome) == Some((e.code, e.message@)),
        take_failure_code(tasks, task_id, kind) is None ==> take_code(tasks, task_id, kind)
            == od_zig_error_code::OD_ZIG_OK,
        take_failure_code(tasks, task_id, kind) matches Some(c) ==> take_code(tasks, task_id, kind)
            == c,
        handle_value(TaskValueKind::Reader, handle) == TaskValue::Reader(handle),
        handle_value(TaskValueKind::Writer, handle) == TaskValue::Writer(handle),
        handle_value(TaskValueKind::Lister, handle) == TaskValue::Lister(handle),
{
}

/// The view handed out where a listing has no entry to show is empty: no
/// path, no name, every number zero, every flag false, every text null,
/// no user metadata.
pub proof fn law_empty_view_shows_nothing(v: od_zig_entry_view)
    requires
        empty_entry_view(v),
    ensures
        v.path@ is None,
        v.name@ is None,
        v.metadata.mode == 0,
        !v.metadata.is_file && !v.metadata.is_dir && !v.metadata.is_deleted,
        !v.metadata.has_content_length && v.metadata.content_length == 0,
        v.metadata.content_type@ is None && v.metadata.content_encoding@ is None,
        v.metadata.content_disposition@ is None && v.metadata.content_md5@ is None,
        v.metadata.etag@ is None && v.metadata.last_modified_rfc3339@ is None,
        v.metadata.version@ is None,
        v.metadata.user_metadata@.len() == 0,
{
}

/// Every flag of an interface capability is the storage layer's flag of
/// the same name, and each size limit is given exactly where the storage
/// layer gives one, with its value (zero where it does not).
pub proof fn law_capability_keeps_each_flag(cap: Capability, out: od_zig_capability)
    requires
        capability_converted(cap, out),
    ensures
        out.stat == cap.stat,
        out.stat_with_if_match == cap.stat_with_if_match,
        out.stat_with_if_none_match == cap.stat_with_if_none_match,
        out.stat_with_if_modified_since == cap.stat_with_if_modified_since,
        out.stat_with_if_unmodified_since == cap.stat_with_if_unmodified_since,
        out.stat_with_override_cache_control == cap.stat_with_override_cache_control,
        out.stat_with_override_content_disposition == cap.stat_with_override_content_disposition,
        out.stat_with_override_content_type == cap.stat_with_override_content_type,
        out.stat_with_version == cap.stat_with_version,
        out.read == cap.read,
        out.read_with_if_match == cap.read_with_if_match,
        out.read_with_if_none_match == cap.read_with_if_none_match,
        out.read_with_if_modified_since == cap.read_with_if_modified_since,
        out.read_with_if_unmodified_since == cap.read_with_if_unmodified_since,
        out.read_with_override_cache_control == cap.read_with_override_cache_control,
        out.read_with_override_content_disposition == cap.read_with_override_content_disposition,
        out.read_with_override_content_type == cap.read_with_override_content_type,
        out.read_with_version == cap.read_with_version,
        out.write == cap.write,
        out.write_can_multi == cap.write_can_multi,
        out.write_can_empty == cap.write_can_empty,
        out.write_can_append == cap.write_can_append,
        out.write_with_content_type == cap.write_with_content_type,
        out.write_with_content_disposition == cap.write_with_content_disposition,
        out.write_with_content_encoding == cap.write_with_content_encoding,
        out.write_with_cache_control == cap.write_with_cache_control,
        out.write_with_if_match == cap.write_with_if_match,
        out.write_with_if_none_match == cap.write_with_if_none_match,
        out.write_with_if_not_exists == cap.write_with_if_not_exists,
        out.write_with_user_metadata == cap.write_with_user_metadata,
        out.has_write_multi_max_size == cap.write_multi_max_size is Some,
        cap.write_multi_max_size matches Some(n) ==> out.write_multi_max_size == n,
        cap.write_multi_max_size is None ==> out.write_multi_max_size == 0,
        out.has_write_multi_min_size == cap.write_multi_min_size is Some,
        cap.write_multi_min_size matches Some(n) ==> out.write_multi_min_size == n,
        cap.write_multi_min_size is None ==> out.write_multi_min_size == 0,
        out.has_write_total_max_size == cap.write_total_max_size is Some,
        cap.write_total_max_size matches Some(n) ==> out.write_total_max_size == n,
        cap.write_total_max_size is None ==> out.write_total_max_size == 0,
        out.create_dir == cap.create_dir,
        out.delete == cap.delete,
        out.delete_with_version == cap.delete_with_version,
        out.delete_with_recursive == cap.delete_with_recursive,
        out.has_delete_max_size == cap.delete_max_size is Some,
        cap.delete_max_size matches Some(n) ==> out.delete_max_size == n,
        cap.delete_max_size is None ==> out.delete_max_size == 0,
        out.copy == cap.copy,
        out.copy_with_if_not_exists == cap.copy_with_if_not_exists,
        out.rename == cap.rename,
        out.list == cap.list,
        out.list_with_limit == cap.list_with_limit,
        out.list_with_start_after == cap.list_with_start_after,
        out.list_with_recursive == cap.list_with_recursive,
        out.list_with_versions == cap.list_with_versions,
        out.list_with_deleted == cap.list_with_deleted,
        out.presign == cap.presign,
        out.presign_read == cap.presign_read,
        out.presign_stat == cap.presign_stat,
        out.presign_write == cap.presign_write,
        out.presign_delete == cap.presign_delete,
        out.shared == cap.shared,
{
}

/// Interface metadata are the storage layer's, field by field: the mode's
/// number is 0 for a file, 1 for a directory and 2 otherwise, the flags say
/// which, the length is given exactly where it is known (zero included),
/// each text read back as UTF-8 is the storage layer's text of the same
/// name, and the user metadata come in order with their keys and values.
pub proof fn law_metadata_keeps_each_field(meta: Metadata, out: od_zig_metadata)
    requires
        metadata_converted(meta, out),
    ensures
        (out.mode == 0) <==> meta.mode == EntryMode::FILE,
        (out.mode == 1) <==> meta.mode == EntryMode::DIR,
        (out.mode == 2) <==> meta.mode == EntryMode::Unknown,
        out.is_file <==> meta.mode == EntryMode::FILE,
        out.is_dir <==> meta.mode == EntryMode::DIR,
        out.is_deleted == meta.is_deleted,
        out.has_content_length <==> meta.content_length is Some,
        meta.content_length matches Some(n) ==> out.content_length == n,
        meta.content_length is None ==> out.content_length == 0,
        read_back(out.content_type@, meta.content_type),
        read_back(out.content_encoding@, meta.content_encoding),
        read_back(out.content_disposition@, meta.content_disposition),
        read_back(out.content_md5@, meta.content_md5),
        read_back(out.etag@, meta.etag),
        read_back(out.version@, meta.version),
        read_back(out.last_modified_rfc3339@, meta.last_modified),
        out.user_metadata@.len() == (match meta.user_metadata {
            Some(pairs) => pairs@.len(),
            None => 0,
        }),
        forall|i: int|
            #![trigger out.user_metadata@[i]]
            0 <= i < out.user_metadata@.len() ==> (meta.user_metadata matches Some(pairs)
                && read_back(out.user_metadata@[i].key@, Some(pairs@[i].0)) && read_back(
                out.user_metadata@[i].value@,
                Some(pairs@[i].1),
            )),
{
    lemma_text_read_back(meta.content_type);
    lemma_text_read_back(meta.content_encoding);
    lemma_text_read_back(meta.content_disposition);
    lemma_text_read_back(meta.content_md5);
    lemma_text_read_back(meta.etag);
    lemma_text_read_back(meta.version);
    lemma_text_read_back(meta.last_modified);
    let hs = out.user_metadata@;
    assert(headers_view(hs).len() == hs.len());
    if let Some(pairs) = meta.user_metadata {
        assert(headers_of_texts(pairs@).len() == pairs@.len());
        assert forall|i: int| 0 <= i < hs.len() implies read_back(
            (#[trigger] hs[i]).key@,
            Some(pairs@[i].0),
        ) && read_back(hs[i].value@, Some(pairs@[i].1)) by {
            assert(headers_view(hs)[i] == headers_of_texts(pairs@)[i]);
            lemma_text_read_back(Some(pairs@[i].0));
            lemma_text_read_back(Some(pairs@[i].1));
        }
    }
}

/// A view of metadata shows the metadata's own fields, each under its own
/// name.
pub proof fn law_metadata_view_shows_each_field(meta: od_zig_metadata, view: od_zig_metadata_view)
    requires
        metadata_viewed(meta, view),
    ensures
        view.mode == meta.mode,
        view.is_file == meta.is_file,
        view.is_dir == meta.is_dir,
        view.is_deleted == meta.is_deleted,
        view.has_content_length == meta.has_content_length,
        view.content_length == meta.content_length,
        view.content_type@ == meta.content_type@,
        view.content_encoding@ == meta.content_encoding@,
        view.content_disposition@ == meta.content_disposition@,
        view.content_md5@ == meta.content_md5@,
        view.etag@ == meta.etag@,
        view.last_modified_rfc3339@ == meta.last_modified_rfc3339@,
        view.version@ == meta.version@,
        view.user_metadata@.len() == meta.user_metadata@.len(),
{
    assert(headers_view(view.user_metadata@).len() == view.user_metadata@.len());
    assert(headers_view(meta.user_metadata@).len() == meta.user_metadata@.len());
}

/// A listed entry's path and name read back as the storage layer's, and
/// its metadata are converted.
pub proof fn law_entry_keeps_path_and_name(entry: Entry, out: od_zig_entry_owned)
    requires
        entry_converted(entry, out),
    ensures
        read_back(out.path@, Some(entry.path)),
        read_back(out.name@, Some(entry.name)),
        metadata_converted(entry.metadata, out.metadata),
{
    lemma_text_read_back(Some(entry.path));
    lemma_text_read_back(Some(entry.name));
}

/// Information about an operator reads back as the storage layer's: the
/// scheme, the root and the name each from the field of the same name, and
/// the full and native capabilities each from its own.
pub proof fn law_info_keeps_each_field(info: OperatorInfo, out: od_zig_operator_info)
    requires
        info_converted(info, out),
    ensures
        read_back(out.scheme@, Some(info.scheme)),
        read_back(out.root@, Some(info.root)),
        read_back(out.name@, Some(info.name)),
        capability_converted(info.full_capability, out.full_capability),
        capability_converted(info.native_capability, out.native_capability),
{
    lemma_text_read_back(Some(info.scheme));
    lemma_text_read_back(Some(info.root));
    lemma_text_read_back(Some(info.name));
}

/// A presigned request reads back as the storage layer's: the method and
/// the URI each from its own field, and the headers in order, each name
/// read back as text and each value as the raw bytes.
pub proof fn law_presigned_request_keeps_each_field(
    req: PresignedRequest,
    out: od_zig_presigned_request,
)
    requires
        presigned_converted(req, out),
    ensures
        read_back(out.method@, Some(req.method)),
        read_back(out.url@, Some(req.uri)),
        out.headers@.len() == req.headers@.len(),
        forall|i: int|
            #![trigger out.headers@[i]]
            0 <= i < out.headers@.len() ==> read_back(out.headers@[i].key@, Some(req.headers@[i].0))
                && out.headers@[i].value@ == Some(req.headers@[i].1@),
{
    lemma_text_read_back(Some(req.method));
    lemma_text_read_back(Some(req.uri));
    let hs = out.headers@;
    assert(headers_view(hs).len() == hs.len());
    assert(headers_of_http(req.headers@).len() == req.headers@.len());
    assert forall|i: int| 0 <= i < hs.len() implies read_back(
        (#[trigger] hs[i]).key@,
        Some(req.headers@[i].0),
    ) && hs[i].value@ == Some(req.headers@[i].1@) by {
        assert(headers_view(hs)[i] == headers_of_http(req.headers@)[i]);
        lemma_text_read_back(Some(req.headers@[i].0));
    }
}

/// Each error kind has its own code; an error is never reported as success.
pub proof fn law_error_kinds_have_their_codes(kind: ErrorKind)
    ensures
        code_for_kind(kind) != od_zig_error_code::OD_ZIG_OK,
        kind == ErrorKind::Unexpected <==> code_for_kind(kind) == od_zig_error_code::OD_ZIG_UNEXPECTED,
        kind == ErrorKind::Unsupported <==> code_for_kind(kind) == od_zig_error_code::OD_ZIG_UNSUPPORTED,
        kind == ErrorKind::ConfigInvalid <==> code_for_kind(kind) == od_zig_error_code::OD_ZIG_CONFIG_INVALID,
        kind == ErrorKind::NotFound <==> code_for_kind(kind) == od_zig_error_code::OD_ZIG_NOT_FOUND,
        kind == ErrorKind::PermissionDenied <==> code_for_kind(kind) == od_zig_error_code::OD_ZIG_PERMISSION_DENIED,
        kind == ErrorKind::IsADirectory <==> code_for_kind(kind) == od_zig_error_code::OD_ZIG_IS_DIRECTORY,
        kind == ErrorKind::NotADirectory <==> code_for_kind(kind) == od_zig_error_code::OD_ZIG_NOT_A_DIRECTORY,
        kind == ErrorKind::AlreadyExists <==> code_for_kind(kind) == od_zig_error_code::OD_ZIG_ALREADY_EXISTS,
        kind == ErrorKind::RateLimited <==> code_for_kind(kind) == od_zig_error_code::OD_ZIG_RATE_LIMITED,
        kind == ErrorKind::IsSameFile <==> code_for_kind(kind) == od_zig_error_code::OD_ZIG_IS_SAME_FILE,
        kind == ErrorKind::ConditionNotMatch <==> code_for_kind(kind) == od_zig_error_code::OD_ZIG_CONDITION_NOT_MATCH,
        kind == ErrorKind::RangeNotSatisfied <==> code_for_kind(kind) == od_zig_error_code::OD_ZIG_RANGE_NOT_SATISFIED,
        kind == ErrorKind::Other <==> code_for_kind(kind) == od_zig_error_code::OD_ZIG_INTERNAL,
{
}

} // verus!
