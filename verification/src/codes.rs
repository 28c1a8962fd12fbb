//! Status codes, task and poll states, entry modes, and the mapping from
//! storage error kinds to the status codes reported across the interface.
use vstd::prelude::*;

verus! {

/// Status code of every call across the foreign interface.
#[derive(Clone, Copy, PartialEq, Eq, Structural, Debug)]
pub enum od_zig_error_code {
    OD_ZIG_OK,
    OD_ZIG_UNEXPECTED,
    OD_ZIG_UNSUPPORTED,
    OD_ZIG_CONFIG_INVALID,
    OD_ZIG_NOT_FOUND,
    OD_ZIG_PERMISSION_DENIED,
    OD_ZIG_IS_DIRECTORY,
    OD_ZIG_NOT_A_DIRECTORY,
    OD_ZIG_ALREADY_EXISTS,
    OD_ZIG_RATE_LIMITED,
    OD_ZIG_IS_SAME_FILE,
    OD_ZIG_CONDITION_NOT_MATCH,
    OD_ZIG_RANGE_NOT_SATISFIED,
    OD_ZIG_INVALID_ARGUMENT,
    OD_ZIG_ASYNC_RUNTIME_REQUIRED,
    OD_ZIG_CANCELED,
    OD_ZIG_OUT_OF_MEMORY,
    OD_ZIG_INTERNAL,
}

/// How a runtime tells its host that tasks have completed.
#[derive(Clone, Copy, PartialEq, Eq, Structural, Debug)]
pub enum od_zig_notifier_kind {
    OD_ZIG_NOTIFIER_NONE,
    OD_ZIG_NOTIFIER_EVENTFD,
    OD_ZIG_NOTIFIER_PIPE_READ_FD,
    OD_ZIG_NOTIFIER_WIN_HANDLE,
}

/// The state of an asynchronous task as seen by the host.
#[derive(Clone, Copy, PartialEq, Eq, Structural, Debug)]
pub enum od_zig_task_state {
    OD_ZIG_TASK_PENDING,
    OD_ZIG_TASK_READY,
    OD_ZIG_TASK_CONSUMED,
    OD_ZIG_TASK_CANCELED,
    OD_ZIG_TASK_FAILED,
}

/// Whether polling a task found it still running.
#[derive(Clone, Copy, PartialEq, Eq, Structural, Debug)]
pub enum od_zig_poll_state {
    OD_ZIG_POLL_PENDING,
    OD_ZIG_POLL_READY,
}

/// The kind of a listed or stated entry.
#[derive(Clone, Copy, PartialEq, Eq, Structural, Debug)]
pub enum od_zig_entry_mode {
    OD_ZIG_ENTRY_MODE_FILE,
    OD_ZIG_ENTRY_MODE_DIR,
    OD_ZIG_ENTRY_MODE_UNKNOWN,
}

/// The kind of an error reported by the storage layer.
#[derive(Clone, Copy, PartialEq, Eq, Structural, Debug)]
pub enum ErrorKind {
    Unexpected,
    Unsupported,
    ConfigInvalid,
    NotFound,
    PermissionDenied,
    IsADirectory,
    NotADirectory,
    AlreadyExists,
    RateLimited,
    IsSameFile,
    ConditionNotMatch,
    RangeNotSatisfied,
    /// Any kind the interface has no code of its own for.
    Other,
}

/// The mode of an entry as reported by the storage layer.
#[derive(Clone, Copy, PartialEq, Eq, Structural, Debug)]
pub enum EntryMode {
    FILE,
    DIR,
    Unknown,
}

/// The status code that stands for an error of the given kind.
pub open spec fn code_for_kind(kind: ErrorKind) -> od_zig_error_code {
    match kind {
        ErrorKind::Unexpected => od_zig_error_code::OD_ZIG_UNEXPECTED,
        ErrorKind::Unsupported => od_zig_error_code::OD_ZIG_UNSUPPORTED,
        ErrorKind::ConfigInvalid => od_zig_error_code::OD_ZIG_CONFIG_INVALID,
        ErrorKind::NotFound => od_zig_error_code::OD_ZIG_NOT_FOUND,
        ErrorKind::PermissionDenied => od_zig_error_code::OD_ZIG_PERMISSION_DENIED,
        ErrorKind::IsADirectory => od_zig_error_code::OD_ZIG_IS_DIRECTORY,
        ErrorKind::NotADirectory => od_zig_error_code::OD_ZIG_NOT_A_DIRECTORY,
        ErrorKind::AlreadyExists => od_zig_error_code::OD_ZIG_ALREADY_EXISTS,
        ErrorKind::RateLimited => od_zig_error_code::OD_ZIG_RATE_LIMITED,
        ErrorKind::IsSameFile => od_zig_error_code::OD_ZIG_IS_SAME_FILE,
        ErrorKind::ConditionNotMatch => od_zig_error_code::OD_ZIG_CONDITION_NOT_MATCH,
        ErrorKind::RangeNotSatisfied => od_zig_error_code::OD_ZIG_RANGE_NOT_SATISFIED,
        ErrorKind::Other => od_zig_error_code::OD_ZIG_INTERNAL,
    }
}

/// Maps a storage error kind to its status code; kinds without a code of
/// their own become `OD_ZIG_INTERNAL`.
pub fn error_code_from_kind(kind: ErrorKind) -> (code: od_zig_error_code)
    ensures
        code == code_for_kind(kind),
{
    match kind {
        ErrorKind::Unexpected => od_zig_error_code::OD_ZIG_UNEXPECTED,
        ErrorKind::Unsupported => od_zig_error_code::OD_ZIG_UNSUPPORTED,
        ErrorKind::ConfigInvalid => od_zig_error_code::OD_ZIG_CONFIG_INVALID,
        ErrorKind::NotFound => od_zig_error_code::OD_ZIG_NOT_FOUND,
        ErrorKind::PermissionDenied => od_zig_error_code::OD_ZIG_PERMISSION_DENIED,
        ErrorKind::IsADirectory => od_zig_error_code::OD_ZIG_IS_DIRECTORY,
        ErrorKind::NotADirectory => od_zig_error_code::OD_ZIG_NOT_A_DIRECTORY,
        ErrorKind::AlreadyExists => od_zig_error_code::OD_ZIG_ALREADY_EXISTS,
        ErrorKind::RateLimited => od_zig_error_code::OD_ZIG_RATE_LIMITED,
        ErrorKind::IsSameFile => od_zig_error_code::OD_ZIG_IS_SAME_FILE,
        ErrorKind::ConditionNotMatch => od_zig_error_code::OD_ZIG_CONDITION_NOT_MATCH,
        ErrorKind::RangeNotSatisfied => od_zig_error_code::OD_ZIG_RANGE_NOT_SATISFIED,
        ErrorKind::Other => od_zig_error_code::OD_ZIG_INTERNAL,
    }
}

/// An error of the storage layer is never reported as success, and two
/// different kinds that have codes of their own never share a code.
pub proof fn lemma_kind_codes_distinct(a: ErrorKind, b: ErrorKind)
    ensures
        code_for_kind(a) != od_zig_error_code::OD_ZIG_OK,
        code_for_kind(a) == code_for_kind(b) ==> a == b || (code_for_kind(a)
            == od_zig_error_code::OD_ZIG_INTERNAL),
{
}

/// The number that stands for an entry mode on the wire.
pub open spec fn entry_mode_number(mode: EntryMode) -> u8 {
    match mode {
        EntryMode::FILE => 0,
        EntryMode::DIR => 1,
        EntryMode::Unknown => 2,
    }
}

/// Maps a storage entry mode to its number on the wire.
pub fn convert_entry_mode(mode: EntryMode) -> (n: u8)
    ensures
        n == entry_mode_number(mode),
{
    match mode {
        EntryMode::FILE => 0,
        EntryMode::DIR => 1,
        EntryMode::Unknown => 2,
    }
}

} // verus!
