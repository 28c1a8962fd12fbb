//! The arguments of each call on an operator, checked in the order the
//! call checks them (the paths first, then the options), and the results
//! of the calls that yield metadata, a presigned request or information
//! about the operator.
use vstd::prelude::*;
use vstd::string::*;

use crate::calls::recorded;
use crate::codes::od_zig_error_code;
use crate::convert::{
    build_info, build_metadata, build_presigned_request, info_converted, metadata_converted,
    presigned_converted, Metadata, OperatorInfo, PresignedRequest,
};
use crate::error::StoredError;
use crate::ffi::{
    od_zig_delete_options, od_zig_list_options, od_zig_metadata, od_zig_operator_info,
    od_zig_presign_options, od_zig_presigned_request, od_zig_read_options, od_zig_slice,
    od_zig_stat_options, od_zig_write_options, slice_bytes,
};
use crate::options::{
    convert_delete_options, convert_list_options, convert_presign_delete_options,
    convert_presign_read_options, convert_presign_stat_options, convert_presign_write_options,
    convert_read_options, convert_reader_options, convert_stat_options, convert_write_options,
    delete_options_converted, failure_of, fails_with, list_options_converted, or_else,
    presign_conditions_failure, presign_delete_converted, presign_read_converted,
    presign_stat_converted, presign_write_converted, presign_write_failure,
    read_options_converted, read_options_failure, reader_options_converted,
    reader_options_failure, stat_options_converted, stat_options_failure, text_field,
    text_required, write_options_converted, write_options_failure, DeleteOptions, Fail,
    ListOptions, ReadOptions, ReaderOptions, StatOptions, WriteOptions,
};
use crate::runtime::TaskRegistry;
use crate::text::{clone_bytes, clone_string};

verus! {

/// The first failure of a call that checks a path and then its options.
pub open spec fn request_failure(path: Option<Seq<u8>>, options: Option<Fail>) -> Option<Fail> {
    or_else(failure_of(text_required(path)), options)
}

/// Whether a copied path is the text the caller's slice gives.
pub open spec fn path_is(p: String, path: Option<Seq<u8>>) -> bool {
    text_required(path) == Ok::<Seq<char>, Fail>(p@)
}

/// Whether two copied paths are the source's text and the target's text.
pub open spec fn paths_are(f: String, t: String, from: Option<Seq<u8>>, to: Option<Seq<u8>>) -> bool {
    path_is(f, from) && path_is(t, to)
}

/// The two paths of a rename or a copy, the source checked first.
pub fn paths_request(from: &od_zig_slice, to: &od_zig_slice) -> (res: Result<
    (String, String),
    StoredError,
>)
    ensures
        match res {
            Ok((f, t)) => paths_are(f, t, from@, to@),
            Err(e) => request_failure(from@, failure_of(text_required(to@))) matches Some(f)
                && fails_with(e, f),
        },
{
    let f = match clone_string(from) {
        Ok(s) => s,
        Err(e) => return Err(e),
    };
    let t = match clone_string(to) {
        Ok(s) => s,
        Err(e) => return Err(e),
    };
    Ok((f, t))
}

/// The path and options of a delete.
pub fn delete_request(path: &od_zig_slice, options: &od_zig_delete_options) -> (res: Result<
    (String, DeleteOptions),
    StoredError,
>)
    ensures
        match res {
            Ok((p, o)) => {
                &&& path_is(p, path@)
                &&& text_field(options.version@) is Ok
                &&& delete_options_converted(o, options)
            },
            Err(e) => request_failure(path@, failure_of(text_field(options.version@))) matches Some(
                f,
            ) && fails_with(e, f),
        },
{
    let p = match clone_string(path) {
        Ok(s) => s,
        Err(e) => return Err(e),
    };
    match convert_delete_options(options) {
        Ok(o) => Ok((p, o)),
        Err(e) => Err(e),
    }
}

/// The path, data and options of a write; the data are copied as they
/// are and cannot fail.
pub fn write_request(
    path: &od_zig_slice,
    data: &od_zig_slice,
    options: &od_zig_write_options,
) -> (res: Result<(String, Vec<u8>, WriteOptions), StoredError>)
    ensures
        match res {
            Ok((p, d, o)) => {
                &&& path_is(p, path@)
                &&& d@ == slice_bytes(data@)
                &&& write_options_failure(options) is None
                &&& write_options_converted(o, options)
            },
            Err(e) => request_failure(path@, write_options_failure(options)) matches Some(f)
                && fails_with(e, f),
        },
{
    let p = match clone_string(path) {
        Ok(s) => s,
        Err(e) => return Err(e),
    };
    let o = match convert_write_options(options) {
        Ok(o) => o,
        Err(e) => return Err(e),
    };
    Ok((p, clone_bytes(data), o))
}

/// The path and options of opening a writer.
pub fn writer_request(path: &od_zig_slice, options: &od_zig_write_options) -> (res: Result<
    (String, WriteOptions),
    StoredError,
>)
    ensures
        match res {
            Ok((p, o)) => {
                &&& path_is(p, path@)
                &&& write_options_failure(options) is None
                &&& write_options_converted(o, options)
            },
            Err(e) => request_failure(path@, write_options_failure(options)) matches Some(f)
                && fails_with(e, f),
        },
{
    let p = match clone_string(path) {
        Ok(s) => s,
        Err(e) => return Err(e),
    };
    match convert_write_options(options) {
        Ok(o) => Ok((p, o)),
        Err(e) => Err(e),
    }
}

/// The path and options of a read.
pub fn read_request(path: &od_zig_slice, options: &od_zig_read_options) -> (res: Result<
    (String, ReadOptions),
    StoredError,
>)
    ensures
        match res {
            Ok((p, o)) => {
                &&& path_is(p, path@)
                &&& read_options_failure(options) is None
                &&& read_options_converted(o, options)
            },
            Err(e) => request_failure(path@, read_options_failure(options)) matches Some(f)
                && fails_with(e, f),
        },
{
    let p = match clone_string(path) {
        Ok(s) => s,
        Err(e) => return Err(e),
    };
    match convert_read_options(options) {
        Ok(o) => Ok((p, o)),
        Err(e) => Err(e),
    }
}

/// The path and options of opening a reader.
pub fn reader_request(path: &od_zig_slice, options: &od_zig_read_options) -> (res: Result<
    (String, ReaderOptions),
    StoredError,
>)
    ensures
        match res {
            Ok((p, o)) => {
                &&& path_is(p, path@)
                &&& reader_options_failure(options) is None
                &&& reader_options_converted(o, options)
            },
            Err(e) => request_failure(path@, reader_options_failure(options)) matches Some(f)
                && fails_with(e, f),
        },
{
    let p = match clone_string(path) {
        Ok(s) => s,
        Err(e) => return Err(e),
    };
    match convert_reader_options(options) {
        Ok(o) => Ok((p, o)),
        Err(e) => Err(e),
    }
}

/// The path and options of a stat.
pub fn stat_request(path: &od_zig_slice, options: &od_zig_stat_options) -> (res: Result<
    (String, StatOptions),
    StoredError,
>)
    ensures
        match res {
            Ok((p, o)) => {
                &&& path_is(p, path@)
                &&& stat_options_failure(options) is None
                &&& stat_options_converted(o, options)
            },
            Err(e) => request_failure(path@, stat_options_failure(options)) matches Some(f)
                && fails_with(e, f),
        },
{
    let p = match clone_string(path) {
        Ok(s) => s,
        Err(e) => return Err(e),
    };
    match convert_stat_options(options) {
        Ok(o) => Ok((p, o)),
        Err(e) => Err(e),
    }
}

/// The path and options of opening a lister.
pub fn list_request(path: &od_zig_slice, options: &od_zig_list_options) -> (res: Result<
    (String, ListOptions),
    StoredError,
>)
    ensures
        match res {
            Ok((p, o)) => {
                &&& path_is(p, path@)
                &&& text_field(options.start_after@) is Ok
                &&& list_options_converted(o, options)
            },
            Err(e) => request_failure(path@, failure_of(text_field(options.start_after@)))
                matches Some(f) && fails_with(e, f),
        },
{
    let p = match clone_string(path) {
        Ok(s) => s,
        Err(e) => return Err(e),
    };
    match convert_list_options(options) {
        Ok(o) => Ok((p, o)),
        Err(e) => Err(e),
    }
}

/// The path and options of a presigned read.
pub fn presign_read_request(path: &od_zig_slice, options: &od_zig_presign_options) -> (res:
    Result<(String, ReadOptions), StoredError>)
    ensures
        match res {
            Ok((p, o)) => {
                &&& path_is(p, path@)
                &&& presign_conditions_failure(options) is None
                &&& presign_read_converted(o, options)
            },
            Err(e) => request_failure(path@, presign_conditions_failure(options)) matches Some(f)
                && fails_with(e, f),
        },
{
    let p = match clone_string(path) {
        Ok(s) => s,
        Err(e) => return Err(e),
    };
    match convert_presign_read_options(options) {
        Ok(o) => Ok((p, o)),
        Err(e) => Err(e),
    }
}

/// The path and options of a presigned write.
pub fn presign_write_request(path: &od_zig_slice, options: &od_zig_presign_options) -> (res:
    Result<(String, WriteOptions), StoredError>)
    ensures
        match res {
            Ok((p, o)) => {
                &&& path_is(p, path@)
                &&& presign_write_failure(options) is None
                &&& presign_write_converted(o, options)
            },
            Err(e) => request_failure(path@, presign_write_failure(options)) matches Some(f)
                && fails_with(e, f),
        },
{
    let p = match clone_string(path) {
        Ok(s) => s,
        Err(e) => return Err(e),
    };
    match convert_presign_write_options(options) {
        Ok(o) => Ok((p, o)),
        Err(e) => Err(e),
    }
}

/// The path and options of a presigned stat.
pub fn presign_stat_request(path: &od_zig_slice, options: &od_zig_presign_options) -> (res:
    Result<(String, StatOptions), StoredError>)
    ensures
        match res {
            Ok((p, o)) => {
                &&& path_is(p, path@)
                &&& presign_conditions_failure(options) is None
                &&& presign_stat_converted(o, options)
            },
            Err(e) => request_failure(path@, presign_conditions_failure(options)) matches Some(f)
                && fails_with(e, f),
        },
{
    let p = match clone_string(path) {
        Ok(s) => s,
        Err(e) => return Err(e),
    };
    match convert_presign_stat_options(options) {
        Ok(o) => Ok((p, o)),
        Err(e) => Err(e),
    }
}

/// The path and options of a presigned delete.
pub fn presign_delete_request(path: &od_zig_slice, options: &od_zig_presign_options) -> (res:
    Result<(String, DeleteOptions), StoredError>)
    ensures
        match res {
            Ok((p, o)) => {
                &&& path_is(p, path@)
                &&& text_field(options.version@) is Ok
                &&& presign_delete_converted(o, options)
            },
            Err(e) => request_failure(path@, failure_of(text_field(options.version@))) matches Some(
                f,
            ) && fails_with(e, f),
        },
{
    let p = match clone_string(path) {
        Ok(s) => s,
        Err(e) => return Err(e),
    };
    match convert_presign_delete_options(options) {
        Ok(o) => Ok((p, o)),
        Err(e) => Err(e),
    }
}

/// Records the outcome of a stat and builds its metadata; a failed stat
/// yields its code and no metadata.
pub fn finish_metadata(runtime: &mut TaskRegistry, outcome: Result<Metadata, StoredError>) -> (r: (
    od_zig_error_code,
    Option<od_zig_metadata>,
))
    ensures
        final(runtime)@.last_error == recorded(outcome),
        final(runtime)@.tasks == old(runtime)@.tasks,
        final(runtime)@.ready == old(runtime)@.ready,
        final(runtime)@.next_id == old(runtime)@.next_id,
        match outcome {
            Ok(m) => {
                &&& r.0 == od_zig_error_code::OD_ZIG_OK
                &&& r.1 matches Some(out) && metadata_converted(m, out)
            },
            Err(e) => r.0 == e.code && r.1 is None,
        },
{
    match runtime.map_and_record(outcome) {
        Ok(meta) => (od_zig_error_code::OD_ZIG_OK, Some(build_metadata(&meta))),
        Err(err) => (err.code, None),
    }
}

/// Records the outcome of a presign and builds its request; a failed
/// presign yields its code and no request.
pub fn finish_presigned_request(
    runtime: &mut TaskRegistry,
    outcome: Result<PresignedRequest, StoredError>,
) -> (r: (od_zig_error_code, Option<od_zig_presigned_request>))
    ensures
        final(runtime)@.last_error == recorded(outcome),
        final(runtime)@.tasks == old(runtime)@.tasks,
        final(runtime)@.ready == old(runtime)@.ready,
        final(runtime)@.next_id == old(runtime)@.next_id,
        match outcome {
            Ok(req) => {
                &&& r.0 == od_zig_error_code::OD_ZIG_OK
                &&& r.1 matches Some(out) && presigned_converted(req, out)
            },
            Err(e) => r.0 == e.code && r.1 is None,
        },
{
    match runtime.map_and_record(outcome) {
        Ok(req) => (od_zig_error_code::OD_ZIG_OK, Some(build_presigned_request(&req))),
        Err(err) => (err.code, None),
    }
}

/// Reports information about an operator; the call cannot fail and
/// clears the runtime's last error.
pub fn finish_info(runtime: &mut TaskRegistry, info: &OperatorInfo) -> (out: od_zig_operator_info)
    ensures
        final(runtime)@.last_error is None,
        final(runtime)@.tasks == old(runtime)@.tasks,
        final(runtime)@.ready == old(runtime)@.ready,
        final(runtime)@.next_id == old(runtime)@.next_id,
        info_converted(*info, out),
{
    runtime.clear_error();
    build_info(info)
}

} // verus!
