//! The decisions of the interface's calls: checking the handles a caller
//! passes, starting tasks, recording a call's outcome and building its
//! result, and taking the outcomes of tasks.
use vstd::prelude::*;
use vstd::string::*;
use vstd::utf8::decode_utf8;

use crate::codes::od_zig_error_code;
use crate::convert::{
    bool_result, build_entry, empty_entry_view, entry_converted, entry_view_of, metadata_viewed,
    u64_result, unit_ok, usize_result, Entry,
};
use crate::error::StoredError;
use crate::ffi::{
    od_zig_entry_owned, od_zig_entry_view, od_zig_metadata, od_zig_operator_info, od_zig_option,
    od_zig_presigned_request, od_zig_result_bool, od_zig_result_entry_owned,
    od_zig_result_entry_view, od_zig_result_task, od_zig_result_u64, od_zig_result_unit,
    od_zig_result_usize, od_zig_slice,
};
use crate::options::{fails_with, headers_outcome, header_view, pairs_view, Fail};
use crate::runtime::{
    next_number, ready_value, take_failure_code, take_task_value, tasks_after_take, TaskRegistry,
};
use crate::task::{TaskCompletion, TaskValue, TaskValueKind};
use crate::text::clone_string;

verus! {

/// The message of a call given a null operator.
pub open spec fn null_operator_message() -> Seq<char> {
    "operator pointer is null"@
}

/// Checks the operator a caller passed: `OD_ZIG_INVALID_ARGUMENT` where it
/// is null.
pub fn operator_runtime(operator_present: bool) -> (res: Result<(), StoredError>)
    ensures
        res is Ok <==> operator_present,
        res matches Err(e) ==> e.code == od_zig_error_code::OD_ZIG_INVALID_ARGUMENT && e.message@
            == null_operator_message(),
{
    if operator_present {
        Ok(())
    } else {
        Err(
            StoredError::new(
                od_zig_error_code::OD_ZIG_INVALID_ARGUMENT,
                String::from_str("operator pointer is null"),
            ),
        )
    }
}

/// The message of an asynchronous call on an operator built without a
/// runtime.
pub open spec fn runtime_required_message() -> Seq<char> {
    "async runtime is required for async APIs"@
}

/// Checks that an operator may start tasks: only one built with a runtime
/// may.
pub fn async_runtime_for_operator(async_enabled: bool) -> (res: Result<(), StoredError>)
    ensures
        res is Ok <==> async_enabled,
        res matches Err(e) ==> e.code == od_zig_error_code::OD_ZIG_ASYNC_RUNTIME_REQUIRED
            && e.message@ == runtime_required_message(),
{
    if async_enabled {
        Ok(())
    } else {
        Err(
            StoredError::new(
                od_zig_error_code::OD_ZIG_ASYNC_RUNTIME_REQUIRED,
                String::from_str("async runtime is required for async APIs"),
            ),
        )
    }
}

/// Checks that an operator may start tasks, recording the error with the
/// operator's runtime where it may not.
pub fn check_async_runtime(runtime: &mut TaskRegistry, async_enabled: bool) -> (res: Result<
    (),
    StoredError,
>)
    ensures
        res is Ok <==> async_enabled,
        async_enabled ==> final(runtime)@ == old(runtime)@,
        !async_enabled ==> {
            &&& final(runtime)@.last_error == Some(
                (od_zig_error_code::OD_ZIG_ASYNC_RUNTIME_REQUIRED, runtime_required_message()),
            )
            &&& final(runtime)@.tasks == old(runtime)@.tasks
            &&& final(runtime)@.ready == old(runtime)@.ready
            &&& final(runtime)@.next_id == old(runtime)@.next_id
        },
        res matches Err(e) ==> e.code == od_zig_error_code::OD_ZIG_ASYNC_RUNTIME_REQUIRED
            && e.message@ == runtime_required_message(),
{
    match async_runtime_for_operator(async_enabled) {
        Ok(()) => Ok(()),
        Err(err) => {
            runtime.record_error(&err);
            Err(err)
        },
    }
}

/// Enters a new task and returns it as a started task; the host then runs
/// its work.
pub fn spawn_task(runtime: &mut TaskRegistry) -> (r: od_zig_result_task)
    ensures
        r.code == od_zig_error_code::OD_ZIG_OK,
        r.value == Some(old(runtime)@.next_id),
        final(runtime)@.tasks == old(runtime)@.tasks.insert(
            old(runtime)@.next_id,
            TaskCompletion::Pending,
        ),
        final(runtime)@.next_id == next_number(old(runtime)@.next_id),
        final(runtime)@.ready == old(runtime)@.ready,
        final(runtime)@.last_error == old(runtime)@.last_error,
{
    let id = runtime.register_task();
    od_zig_result_task { code: od_zig_error_code::OD_ZIG_OK, value: Some(id) }
}

/// The last error a runtime holds after a call with the given outcome.
pub open spec fn recorded<T>(r: Result<T, StoredError>) -> Option<(od_zig_error_code, Seq<char>)> {
    match r {
        Ok(_) => None,
        Err(e) => Some((e.code, e.message@)),
    }
}

/// Records the outcome of a call that yields nothing and builds its
/// result.
pub fn finish_unit(runtime: &mut TaskRegistry, outcome: Result<(), StoredError>) -> (r:
    od_zig_result_unit)
    ensures
        r.code == (match outcome {
            Ok(_) => od_zig_error_code::OD_ZIG_OK,
            Err(e) => e.code,
        }),
        final(runtime)@.last_error == recorded(outcome),
        final(runtime)@.tasks == old(runtime)@.tasks,
        final(runtime)@.ready == old(runtime)@.ready,
        final(runtime)@.next_id == old(runtime)@.next_id,
{
    match runtime.map_and_record(outcome) {
        Ok(_) => unit_ok(),
        Err(err) => od_zig_result_unit { code: err.code },
    }
}

/// Records the outcome of a call that yields a boolean and builds its
/// result; a failed call reports `false`.
pub fn finish_bool(runtime: &mut TaskRegistry, outcome: Result<bool, StoredError>) -> (r:
    od_zig_result_bool)
    ensures
        match outcome {
            Ok(v) => r.code == od_zig_error_code::OD_ZIG_OK && r.value == v,
            Err(e) => r.code == e.code && !r.value,
        },
        final(runtime)@.last_error == recorded(outcome),
        final(runtime)@.tasks == old(runtime)@.tasks,
        final(runtime)@.ready == old(runtime)@.ready,
        final(runtime)@.next_id == old(runtime)@.next_id,
{
    match runtime.map_and_record(outcome) {
        Ok(value) => bool_result(od_zig_error_code::OD_ZIG_OK, value),
        Err(err) => bool_result(err.code, false),
    }
}

/// Records the outcome of a call that yields a size and builds its result;
/// a failed call reports zero.
pub fn finish_usize(runtime: &mut TaskRegistry, outcome: Result<usize, StoredError>) -> (r:
    od_zig_result_usize)
    ensures
        match outcome {
            Ok(v) => r.code == od_zig_error_code::OD_ZIG_OK && r.value == v,
            Err(e) => r.code == e.code && r.value == 0,
        },
        final(runtime)@.last_error == recorded(outcome),
        final(runtime)@.tasks == old(runtime)@.tasks,
        final(runtime)@.ready == old(runtime)@.ready,
        final(runtime)@.next_id == old(runtime)@.next_id,
{
    match runtime.map_and_record(outcome) {
        Ok(value) => usize_result(od_zig_error_code::OD_ZIG_OK, value),
        Err(err) => usize_result(err.code, 0),
    }
}

/// Records the outcome of a call that yields a position and builds its
/// result; a failed call reports zero.
pub fn finish_u64(runtime: &mut TaskRegistry, outcome: Result<u64, StoredError>) -> (r:
    od_zig_result_u64)
    ensures
        match outcome {
            Ok(v) => r.code == od_zig_error_code::OD_ZIG_OK && r.value == v,
            Err(e) => r.code == e.code && r.value == 0,
        },
        final(runtime)@.last_error == recorded(outcome),
        final(runtime)@.tasks == old(runtime)@.tasks,
        final(runtime)@.ready == old(runtime)@.ready,
        final(runtime)@.next_id == old(runtime)@.next_id,
{
    match runtime.map_and_record(outcome) {
        Ok(value) => u64_result(od_zig_error_code::OD_ZIG_OK, value),
        Err(err) => u64_result(err.code, 0),
    }
}

/// The code a take reports.
pub open spec fn take_code(
    tasks: Map<u64, TaskCompletion>,
    task_id: u64,
    kind: TaskValueKind,
) -> od_zig_error_code {
    match take_failure_code(tasks, task_id, kind) {
        Some(c) => c,
        None => od_zig_error_code::OD_ZIG_OK,
    }
}

/// Takes the outcome of a task that yields nothing.
pub fn od_zig_task_take_unit(runtime: &mut TaskRegistry, task_id: u64) -> (r: od_zig_result_unit)
    ensures
        r.code == take_code(old(runtime)@.tasks, task_id, TaskValueKind::Unit),
        final(runtime)@.tasks == tasks_after_take(
            old(runtime)@.tasks,
            task_id,
            TaskValueKind::Unit,
        ),
        final(runtime)@.ready == old(runtime)@.ready,
        final(runtime)@.last_error == old(runtime)@.last_error,
{
    match take_task_value(runtime, task_id, TaskValueKind::Unit) {
        Ok(_) => unit_ok(),
        Err(err) => od_zig_result_unit { code: err.code },
    }
}

/// Takes the outcome of a task that yields a boolean; `false` on failure.
pub fn od_zig_task_take_bool(runtime: &mut TaskRegistry, task_id: u64) -> (r: od_zig_result_bool)
    ensures
        r.code == take_code(old(runtime)@.tasks, task_id, TaskValueKind::Bool),
        take_failure_code(old(runtime)@.tasks, task_id, TaskValueKind::Bool) is None
            ==> ready_value(old(runtime)@.tasks, task_id) == TaskValue::Bool(r.value),
        take_failure_code(old(runtime)@.tasks, task_id, TaskValueKind::Bool) is Some
            ==> !r.value,
        final(runtime)@.tasks == tasks_after_take(
            old(runtime)@.tasks,
            task_id,
            TaskValueKind::Bool,
        ),
        final(runtime)@.ready == old(runtime)@.ready,
        final(runtime)@.last_error == old(runtime)@.last_error,
{
    match take_task_value(runtime, task_id, TaskValueKind::Bool) {
        Ok(TaskValue::Bool(value)) => bool_result(od_zig_error_code::OD_ZIG_OK, value),
        Ok(_) => bool_result(od_zig_error_code::OD_ZIG_INTERNAL, false),
        Err(err) => bool_result(err.code, false),
    }
}

/// Takes the outcome of a task that yields a size; zero on failure.
pub fn od_zig_task_take_usize(runtime: &mut TaskRegistry, task_id: u64) -> (r: od_zig_result_usize)
    ensures
        r.code == take_code(old(runtime)@.tasks, task_id, TaskValueKind::Usize),
        take_failure_code(old(runtime)@.tasks, task_id, TaskValueKind::Usize) is None
            ==> ready_value(old(runtime)@.tasks, task_id) == TaskValue::Usize(r.value),
        take_failure_code(old(runtime)@.tasks, task_id, TaskValueKind::Usize) is Some
            ==> r.value == 0,
        final(runtime)@.tasks == tasks_after_take(
            old(runtime)@.tasks,
            task_id,
            TaskValueKind::Usize,
        ),
        final(runtime)@.ready == old(runtime)@.ready,
        final(runtime)@.last_error == old(runtime)@.last_error,
{
    match take_task_value(runtime, task_id, TaskValueKind::Usize) {
        Ok(TaskValue::Usize(value)) => usize_result(od_zig_error_code::OD_ZIG_OK, value),
        Ok(_) => usize_result(od_zig_error_code::OD_ZIG_INTERNAL, 0),
        Err(err) => usize_result(err.code, 0),
    }
}

/// Takes the outcome of a task that yields a position; zero on failure.
pub fn od_zig_task_take_u64(runtime: &mut TaskRegistry, task_id: u64) -> (r: od_zig_result_u64)
    ensures
        r.code == take_code(old(runtime)@.tasks, task_id, TaskValueKind::U64),
        take_failure_code(old(runtime)@.tasks, task_id, TaskValueKind::U64) is None
            ==> ready_value(old(runtime)@.tasks, task_id) == TaskValue::U64(r.value),
        take_failure_code(old(runtime)@.tasks, task_id, TaskValueKind::U64) is Some
            ==> r.value == 0,
        final(runtime)@.tasks == tasks_after_take(
            old(runtime)@.tasks,
            task_id,
            TaskValueKind::U64,
        ),
        final(runtime)@.ready == old(runtime)@.ready,
        final(runtime)@.last_error == old(runtime)@.last_error,
{
    match take_task_value(runtime, task_id, TaskValueKind::U64) {
        Ok(TaskValue::U64(value)) => u64_result(od_zig_error_code::OD_ZIG_OK, value),
        Ok(_) => u64_result(od_zig_error_code::OD_ZIG_INTERNAL, 0),
        Err(err) => u64_result(err.code, 0),
    }
}

/// Takes the outcome of a task that read bytes.
pub fn od_zig_task_take_bytes(runtime: &mut TaskRegistry, task_id: u64) -> (r: Result<
    Vec<u8>,
    StoredError,
>)
    ensures
        r is Ok <==> take_failure_code(old(runtime)@.tasks, task_id, TaskValueKind::Bytes)
            is None,
        r matches Ok(b) ==> ready_value(old(runtime)@.tasks, task_id) == TaskValue::Bytes(b),
        r matches Err(e) ==> take_failure_code(old(runtime)@.tasks, task_id, TaskValueKind::Bytes)
            == Some(e.code),
        final(runtime)@.tasks == tasks_after_take(
            old(runtime)@.tasks,
            task_id,
            TaskValueKind::Bytes,
        ),
        final(runtime)@.ready == old(runtime)@.ready,
        final(runtime)@.last_error == old(runtime)@.last_error,
{
    match take_task_value(runtime, task_id, TaskValueKind::Bytes) {
        Ok(TaskValue::Bytes(value)) => Ok(value),
        Ok(_) => Err(StoredError::internal(String::from_str("task result kind mismatch"))),
        Err(err) => Err(err),
    }
}

/// Takes the outcome of a task that stated an object.
pub fn od_zig_task_take_metadata(runtime: &mut TaskRegistry, task_id: u64) -> (r: Result<
    od_zig_metadata,
    StoredError,
>)
    ensures
        r is Ok <==> take_failure_code(old(runtime)@.tasks, task_id, TaskValueKind::Metadata)
            is None,
        r matches Ok(m) ==> ready_value(old(runtime)@.tasks, task_id) == TaskValue::Metadata(m),
        r matches Err(e) ==> take_failure_code(
            old(runtime)@.tasks,
            task_id,
            TaskValueKind::Metadata,
        ) == Some(e.code),
        final(runtime)@.tasks == tasks_after_take(
            old(runtime)@.tasks,
            task_id,
            TaskValueKind::Metadata,
        ),
        final(runtime)@.ready == old(runtime)@.ready,
        final(runtime)@.last_error == old(runtime)@.last_error,
{
    match take_task_value(runtime, task_id, TaskValueKind::Metadata) {
        Ok(TaskValue::Metadata(value)) => Ok(value),
        Ok(_) => Err(StoredError::internal(String::from_str("task result kind mismatch"))),
        Err(err) => Err(err),
    }
}

/// Takes the outcome of a task that fetched an operator's information.
pub fn od_zig_task_take_info(runtime: &mut TaskRegistry, task_id: u64) -> (r: Result<
    od_zig_operator_info,
    StoredError,
>)
    ensures
        r is Ok <==> take_failure_code(old(runtime)@.tasks, task_id, TaskValueKind::Info) is None,
        r matches Ok(i) ==> ready_value(old(runtime)@.tasks, task_id) == TaskValue::Info(i),
        r matches Err(e) ==> take_failure_code(old(runtime)@.tasks, task_id, TaskValueKind::Info)
            == Some(e.code),
        final(runtime)@.tasks == tasks_after_take(
            old(runtime)@.tasks,
            task_id,
            TaskValueKind::Info,
        ),
        final(runtime)@.ready == old(runtime)@.ready,
        final(runtime)@.last_error == old(runtime)@.last_error,
{
    match take_task_value(runtime, task_id, TaskValueKind::Info) {
        Ok(TaskValue::Info(value)) => Ok(value),
        Ok(_) => Err(StoredError::internal(String::from_str("task result kind mismatch"))),
        Err(err) => Err(err),
    }
}

/// Takes the outcome of a task that presigned a request.
pub fn od_zig_task_take_presigned_request(runtime: &mut TaskRegistry, task_id: u64) -> (r: Result<
    od_zig_presigned_request,
    StoredError,
>)
    ensures
        r is Ok <==> take_failure_code(
            old(runtime)@.tasks,
            task_id,
            TaskValueKind::PresignedRequest,
        ) is None,
        r matches Ok(p) ==> ready_value(old(runtime)@.tasks, task_id)
            == TaskValue::PresignedRequest(p),
        r matches Err(e) ==> take_failure_code(
            old(runtime)@.tasks,
            task_id,
            TaskValueKind::PresignedRequest,
        ) == Some(e.code),
        final(runtime)@.tasks == tasks_after_take(
            old(runtime)@.tasks,
            task_id,
            TaskValueKind::PresignedRequest,
        ),
        final(runtime)@.ready == old(runtime)@.ready,
        final(runtime)@.last_error == old(runtime)@.last_error,
{
    match take_task_value(runtime, task_id, TaskValueKind::PresignedRequest) {
        Ok(TaskValue::PresignedRequest(value)) => Ok(value),
        Ok(_) => Err(StoredError::internal(String::from_str("task result kind mismatch"))),
        Err(err) => Err(err),
    }
}

/// Takes the outcome of a task that listed the next entry: the entry where
/// there was one, nothing at the end of the listing.
pub fn od_zig_task_take_entry(runtime: &mut TaskRegistry, task_id: u64) -> (r:
    od_zig_result_entry_owned)
    ensures
        r.code == take_code(old(runtime)@.tasks, task_id, TaskValueKind::Entry),
        take_failure_code(old(runtime)@.tasks, task_id, TaskValueKind::Entry) is None
            ==> ready_value(old(runtime)@.tasks, task_id) == TaskValue::Entry(r.value)
            && r.has_value == r.value is Some,
        take_failure_code(old(runtime)@.tasks, task_id, TaskValueKind::Entry) is Some
            ==> !r.has_value && r.value is None,
        final(runtime)@.tasks == tasks_after_take(
            old(runtime)@.tasks,
            task_id,
            TaskValueKind::Entry,
        ),
        final(runtime)@.ready == old(runtime)@.ready,
        final(runtime)@.last_error == old(runtime)@.last_error,
{
    match take_task_value(runtime, task_id, TaskValueKind::Entry) {
        Ok(TaskValue::Entry(Some(entry))) => od_zig_result_entry_owned {
            code: od_zig_error_code::OD_ZIG_OK,
            has_value: true,
            value: Some(entry),
        },
        Ok(TaskValue::Entry(None)) => od_zig_result_entry_owned {
            code: od_zig_error_code::OD_ZIG_OK,
            has_value: false,
            value: None,
        },
        Ok(_) => od_zig_result_entry_owned {
            code: od_zig_error_code::OD_ZIG_INTERNAL,
            has_value: false,
            value: None,
        },
        Err(err) => od_zig_result_entry_owned { code: err.code, has_value: false, value: None },
    }
}

/// The handle in a value of the given kind of handle.
pub open spec fn handle_value(kind: TaskValueKind, handle: u64) -> TaskValue {
    match kind {
        TaskValueKind::Reader => TaskValue::Reader(handle),
        TaskValueKind::Writer => TaskValue::Writer(handle),
        _ => TaskValue::Lister(handle),
    }
}

/// Takes the outcome of a task that opened a reader, a writer or a lister:
/// the handle of what it opened.
pub fn take_handle(runtime: &mut TaskRegistry, task_id: u64, kind: TaskValueKind) -> (r: Result<
    u64,
    StoredError,
>)
    requires
        kind == TaskValueKind::Reader || kind == TaskValueKind::Writer || kind
            == TaskValueKind::Lister,
    ensures
        r is Ok <==> take_failure_code(old(runtime)@.tasks, task_id, kind) is None,
        r matches Ok(h) ==> ready_value(old(runtime)@.tasks, task_id) == handle_value(kind, h),
        r matches Err(e) ==> take_failure_code(old(runtime)@.tasks, task_id, kind) == Some(
            e.code,
        ),
        final(runtime)@.tasks == tasks_after_take(old(runtime)@.tasks, task_id, kind),
        final(runtime)@.ready == old(runtime)@.ready,
        final(runtime)@.last_error == old(runtime)@.last_error,
{
    match take_task_value(runtime, task_id, kind) {
        Ok(TaskValue::Reader(h)) => Ok(h),
        Ok(TaskValue::Writer(h)) => Ok(h),
        Ok(TaskValue::Lister(h)) => Ok(h),
        Ok(_) => Err(StoredError::internal(String::from_str("task result kind mismatch"))),
        Err(err) => Err(err),
    }
}

/// Records the outcome of a listing step and builds a borrowed view of the
/// listed entry; the entry itself is returned for the lister to keep until
/// its next step. At the end of the listing, or on failure, there is no
/// entry and the view is empty.
pub fn od_zig_lister_next_view(
    runtime: &mut TaskRegistry,
    outcome: Result<Option<Entry>, StoredError>,
) -> (r: (od_zig_result_entry_view, Option<od_zig_entry_owned>))
    ensures
        final(runtime)@.last_error == recorded(outcome),
        final(runtime)@.tasks == old(runtime)@.tasks,
        final(runtime)@.ready == old(runtime)@.ready,
        final(runtime)@.next_id == old(runtime)@.next_id,
        match outcome {
            Ok(Some(entry)) => {
                &&& r.0.code == od_zig_error_code::OD_ZIG_OK
                &&& r.0.has_value
                &&& r.1 matches Some(owned) && entry_converted(entry, owned) && r.0.value.path@
                    == owned.path@ && r.0.value.name@ == owned.name@ && metadata_viewed(
                    owned.metadata,
                    r.0.value.metadata,
                )
            },
            Ok(None) => r.0.code == od_zig_error_code::OD_ZIG_OK && !r.0.has_value && r.1 is None
                && empty_entry_view(r.0.value),
            Err(e) => r.0.code == e.code && !r.0.has_value && r.1 is None && empty_entry_view(
                r.0.value,
            ),
        },
{
    match runtime.map_and_record(outcome) {
        Ok(Some(entry)) => {
            let owned = build_entry(&entry);
            let view = entry_view_of(&owned);
            (
                od_zig_result_entry_view {
                    code: od_zig_error_code::OD_ZIG_OK,
                    has_value: true,
                    value: view,
                },
                Some(owned),
            )
        },
        Ok(None) => (
            od_zig_result_entry_view {
                code: od_zig_error_code::OD_ZIG_OK,
                has_value: false,
                value: od_zig_entry_view::default(),
            },
            None,
        ),
        Err(err) => (
            od_zig_result_entry_view {
                code: err.code,
                has_value: false,
                value: od_zig_entry_view::default(),
            },
            None,
        ),
    }
}

/// Records the outcome of a listing step and builds the owned entry, if
/// there is one.
pub fn od_zig_lister_next_owned(
    runtime: &mut TaskRegistry,
    outcome: Result<Option<Entry>, StoredError>,
) -> (r: od_zig_result_entry_owned)
    ensures
        final(runtime)@.last_error == recorded(outcome),
        final(runtime)@.tasks == old(runtime)@.tasks,
        final(runtime)@.ready == old(runtime)@.ready,
        final(runtime)@.next_id == old(runtime)@.next_id,
        match outcome {
            Ok(Some(entry)) => {
                &&& r.code == od_zig_error_code::OD_ZIG_OK
                &&& r.has_value
                &&& r.value matches Some(owned) && entry_converted(entry, owned)
            },
            Ok(None) => r.code == od_zig_error_code::OD_ZIG_OK && !r.has_value && r.value is None,
            Err(e) => r.code == e.code && !r.has_value && r.value is None,
        },
{
    match runtime.map_and_record(outcome) {
        Ok(Some(entry)) => od_zig_result_entry_owned {
            code: od_zig_error_code::OD_ZIG_OK,
            has_value: true,
            value: Some(build_entry(&entry)),
        },
        Ok(None) => od_zig_result_entry_owned {
            code: od_zig_error_code::OD_ZIG_OK,
            has_value: false,
            value: None,
        },
        Err(err) => od_zig_result_entry_owned { code: err.code, has_value: false, value: None },
    }
}

/// The scheme and the configuration an operator is built from.
#[derive(Debug)]
pub struct OperatorArguments {
    pub scheme: String,
    pub options: Vec<(String, String)>,
}

/// A configuration option as the two slices it is made of.
pub open spec fn option_view(o: od_zig_option) -> (Option<Seq<u8>>, Option<Seq<u8>>) {
    (o.key@, o.value@)
}

/// The configuration options a caller passed, as pairs of slices; none
/// where the list is null.
pub open spec fn options_view(o: Option<Vec<od_zig_option>>) -> Seq<
    (Option<Seq<u8>>, Option<Seq<u8>>),
> {
    match o {
        Some(v) => v@.map_values(|x: od_zig_option| option_view(x)),
        None => Seq::empty(),
    }
}

/// Copies the scheme and the configuration an operator is to be built
/// from: the scheme first, then each key and its value in order, all as
/// UTF-8 text; the first that is not fails the call.
pub fn operator_arguments(scheme: &od_zig_slice, options: &Option<Vec<od_zig_option>>) -> (res:
    Result<OperatorArguments, StoredError>)
    ensures
        match res {
            Ok(a) => {
                &&& crate::options::text_required(scheme@) == Ok::<Seq<char>, Fail>(a.scheme@)
                &&& headers_outcome(options_view(*options)) == Ok::<
                    Seq<(Seq<char>, Seq<char>)>,
                    Fail,
                >(pairs_view(a.options@))
            },
            Err(e) => match crate::options::text_required(scheme@) {
                Err(f) => fails_with(e, f),
                Ok(_) => headers_outcome(options_view(*options)) matches Err(f) && fails_with(
                    e,
                    f,
                ),
            },
        },
{
    let scheme_text = match clone_string(scheme) {
        Ok(s) => s,
        Err(e) => return Err(e),
    };
    let empty: Vec<od_zig_option> = Vec::new();
    let list = match options {
        Some(list) => list,
        None => &empty,
    };
    let ghost views = list@.map_values(|x: od_zig_option| option_view(x));
    assert(views == options_view(*options));
    let mut out: Vec<(String, String)> = Vec::new();
    let mut i: usize = 0;
    assert(views.take(0) =~= Seq::<(Option<Seq<u8>>, Option<Seq<u8>>)>::empty());
    assert(pairs_view(out@) =~= Seq::<(Seq<char>, Seq<char>)>::empty());
    while i < list.len()
        invariant
            0 <= i <= list@.len(),
            views == list@.map_values(|x: od_zig_option| option_view(x)),
            views == options_view(*options),
            crate::options::text_required(scheme@) == Ok::<Seq<char>, Fail>(scheme_text@),
            headers_outcome(views.take(i as int)) == Ok::<Seq<(Seq<char>, Seq<char>)>, Fail>(
                pairs_view(out@),
            ),
        decreases list@.len() - i,
    {
        let option = &list[i];
        assert(views.take(i + 1).drop_last() =~= views.take(i as int));
        assert(views.take(i + 1).last() == option_view(*option));
        let key = match clone_string(&option.key) {
            Ok(k) => k,
            Err(e) => {
                proof {
                    assert(headers_outcome(views.take(i + 1)) == Err::<
                        Seq<(Seq<char>, Seq<char>)>,
                        Fail,
                    >((e.code, e.message@)));
                    crate::options::lemma_headers_failure_persists(
                        views,
                        i + 1,
                        (e.code, e.message@),
                    );
                }
                return Err(e);
            },
        };
        let value = match clone_string(&option.value) {
            Ok(v) => v,
            Err(e) => {
                proof {
                    assert(headers_outcome(views.take(i + 1)) == Err::<
                        Seq<(Seq<char>, Seq<char>)>,
                        Fail,
                    >((e.code, e.message@)));
                    crate::options::lemma_headers_failure_persists(
                        views,
                        i + 1,
                        (e.code, e.message@),
                    );
                }
                return Err(e);
            },
        };
        let ghost before = out@;
        out.push((key, value));
        proof {
            assert(pairs_view(out@) =~= pairs_view(before).push((key@, value@)));
        }
        i = i + 1;
    }
    assert(views.take(list@.len() as int) =~= views);
    Ok(OperatorArguments { scheme: scheme_text, options: out })
}

} // verus!
