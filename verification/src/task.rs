//! What an asynchronous task yields and the states a task passes through:
//! pending, being canceled, ready with its outcome, canceled, and consumed.
use vstd::prelude::*;

use crate::codes::{od_zig_error_code, od_zig_poll_state, od_zig_task_state};
use crate::error::StoredError;
use crate::ffi::{od_zig_entry_owned, od_zig_metadata, od_zig_operator_info, od_zig_presigned_request};

verus! {

/// What a task that succeeded yields. Readers, writers and listers are
/// held by the host and named here by their handles.
#[derive(Debug)]
pub enum TaskValue {
    Unit,
    Bool(bool),
    Usize(usize),
    U64(u64),
    Bytes(Vec<u8>),
    Metadata(od_zig_metadata),
    Info(od_zig_operator_info),
    PresignedRequest(od_zig_presigned_request),
    Entry(Option<od_zig_entry_owned>),
    Reader(u64),
    Writer(u64),
    Lister(u64),
}

/// The kinds of values a task may yield, one for each way of taking it.
#[derive(Clone, Copy, PartialEq, Eq, Structural, Debug)]
pub enum TaskValueKind {
    Unit,
    Bool,
    Usize,
    U64,
    Bytes,
    Metadata,
    Info,
    PresignedRequest,
    Entry,
    Reader,
    Writer,
    Lister,
}

/// The kind of a value.
pub open spec fn kind_of(v: TaskValue) -> TaskValueKind {
    match v {
        TaskValue::Unit => TaskValueKind::Unit,
        TaskValue::Bool(_) => TaskValueKind::Bool,
        TaskValue::Usize(_) => TaskValueKind::Usize,
        TaskValue::U64(_) => TaskValueKind::U64,
        TaskValue::Bytes(_) => TaskValueKind::Bytes,
        TaskValue::Metadata(_) => TaskValueKind::Metadata,
        TaskValue::Info(_) => TaskValueKind::Info,
        TaskValue::PresignedRequest(_) => TaskValueKind::PresignedRequest,
        TaskValue::Entry(_) => TaskValueKind::Entry,
        TaskValue::Reader(_) => TaskValueKind::Reader,
        TaskValue::Writer(_) => TaskValueKind::Writer,
        TaskValue::Lister(_) => TaskValueKind::Lister,
    }
}

/// The kind of a value.
pub fn value_kind(v: &TaskValue) -> (k: TaskValueKind)
    ensures
        k == kind_of(*v),
{
    match v {
        TaskValue::Unit => TaskValueKind::Unit,
        TaskValue::Bool(_) => TaskValueKind::Bool,
        TaskValue::Usize(_) => TaskValueKind::Usize,
        TaskValue::U64(_) => TaskValueKind::U64,
        TaskValue::Bytes(_) => TaskValueKind::Bytes,
        TaskValue::Metadata(_) => TaskValueKind::Metadata,
        TaskValue::Info(_) => TaskValueKind::Info,
        TaskValue::PresignedRequest(_) => TaskValueKind::PresignedRequest,
        TaskValue::Entry(_) => TaskValueKind::Entry,
        TaskValue::Reader(_) => TaskValueKind::Reader,
        TaskValue::Writer(_) => TaskValueKind::Writer,
        TaskValue::Lister(_) => TaskValueKind::Lister,
    }
}

/// What a finished task yields: its value or its error.
pub type TaskOutcome = Result<TaskValue, StoredError>;

/// The states of a task.
#[derive(Debug)]
pub enum TaskCompletion {
    /// Running.
    Pending,
    /// Running, and a cancellation is under way.
    Canceling,
    /// Finished with the given outcome, which nobody has taken yet.
    Ready(TaskOutcome),
    /// Canceled before it finished.
    Canceled,
    /// Its outcome has been taken.
    Consumed,
}

/// Whether polling a task in the given state finds it finished.
pub open spec fn poll_state_of(s: TaskCompletion) -> od_zig_poll_state {
    match s {
        TaskCompletion::Pending | TaskCompletion::Canceling => od_zig_poll_state::OD_ZIG_POLL_PENDING,
        _ => od_zig_poll_state::OD_ZIG_POLL_READY,
    }
}

/// The state the host sees of a task in the given state.
pub open spec fn task_state_of(s: TaskCompletion) -> od_zig_task_state {
    match s {
        TaskCompletion::Pending | TaskCompletion::Canceling => od_zig_task_state::OD_ZIG_TASK_PENDING,
        TaskCompletion::Ready(Ok(_)) => od_zig_task_state::OD_ZIG_TASK_READY,
        TaskCompletion::Ready(Err(_)) => od_zig_task_state::OD_ZIG_TASK_FAILED,
        TaskCompletion::Canceled => od_zig_task_state::OD_ZIG_TASK_CANCELED,
        TaskCompletion::Consumed => od_zig_task_state::OD_ZIG_TASK_CONSUMED,
    }
}

/// The code a task in the given state reports: its error's where it
/// failed, `OD_ZIG_CANCELED` where it was canceled, and success otherwise.
pub open spec fn error_code_of(s: TaskCompletion) -> od_zig_error_code {
    match s {
        TaskCompletion::Ready(Err(e)) => e.code,
        TaskCompletion::Canceled => od_zig_error_code::OD_ZIG_CANCELED,
        _ => od_zig_error_code::OD_ZIG_OK,
    }
}

/// Whether a task in the given state is still running.
pub open spec fn is_running(s: TaskCompletion) -> bool {
    s is Pending || s is Canceling
}

/// Whether polling finds the task running.
pub fn poll_state(s: &TaskCompletion) -> (p: od_zig_poll_state)
    ensures
        p == poll_state_of(*s),
{
    match s {
        TaskCompletion::Pending | TaskCompletion::Canceling => od_zig_poll_state::OD_ZIG_POLL_PENDING,
        _ => od_zig_poll_state::OD_ZIG_POLL_READY,
    }
}

/// The state the host sees.
pub fn task_state(s: &TaskCompletion) -> (t: od_zig_task_state)
    ensures
        t == task_state_of(*s),
{
    match s {
        TaskCompletion::Pending | TaskCompletion::Canceling => od_zig_task_state::OD_ZIG_TASK_PENDING,
        TaskCompletion::Ready(Ok(_)) => od_zig_task_state::OD_ZIG_TASK_READY,
        TaskCompletion::Ready(Err(_)) => od_zig_task_state::OD_ZIG_TASK_FAILED,
        TaskCompletion::Canceled => od_zig_task_state::OD_ZIG_TASK_CANCELED,
        TaskCompletion::Consumed => od_zig_task_state::OD_ZIG_TASK_CONSUMED,
    }
}

/// The code the task reports.
pub fn task_error_code(s: &TaskCompletion) -> (c: od_zig_error_code)
    ensures
        c == error_code_of(*s),
{
    match s {
        TaskCompletion::Ready(Err(e)) => e.code,
        TaskCompletion::Canceled => od_zig_error_code::OD_ZIG_CANCELED,
        _ => od_zig_error_code::OD_ZIG_OK,
    }
}

} // verus!
