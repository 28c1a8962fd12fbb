//! The values that cross the foreign interface, held as plain values: a
//! byte slice is the bytes it points at, or nothing where its pointer is
//! null; a pointer and a length that describe an array are the array.
use vstd::prelude::*;

use crate::codes::{od_zig_error_code, od_zig_poll_state, od_zig_task_state};

verus! {

/// A borrowed byte string: `None` where the caller passed a null pointer.
#[derive(Default, Debug)]
pub struct od_zig_slice {
    pub data: Option<Vec<u8>>,
}

impl View for od_zig_slice {
    type V = Option<Seq<u8>>;

    open spec fn view(&self) -> Option<Seq<u8>> {
        match self.data {
            Some(v) => Some(v@),
            None => None,
        }
    }
}

/// The bytes a slice describes: none where it is null.
pub open spec fn slice_bytes(s: Option<Seq<u8>>) -> Seq<u8> {
    match s {
        Some(b) => b,
        None => Seq::empty(),
    }
}

/// A copy of a byte vector.
pub fn copy_bytes(v: &Vec<u8>) -> (out: Vec<u8>)
    ensures
        out@ == v@,
{
    let out = v.clone();
    assert(out@ =~= v@);
    out
}

impl od_zig_slice {
    /// The null slice.
    pub fn null() -> (s: od_zig_slice)
        ensures
            s@ is None,
    {
        od_zig_slice { data: None }
    }

    /// A slice that describes the given bytes.
    pub fn from_bytes(bytes: Vec<u8>) -> (s: od_zig_slice)
        ensures
            s@ == Some(bytes@),
    {
        od_zig_slice { data: Some(bytes) }
    }

    /// A copy of this slice.
    pub fn duplicate(&self) -> (s: od_zig_slice)
        ensures
            s@ == self@,
    {
        match &self.data {
            Some(v) => od_zig_slice { data: Some(copy_bytes(v)) },
            None => od_zig_slice { data: None },
        }
    }
}

/// A caller's buffer to read into: its length, or `None` where the caller
/// passed a null pointer.
#[derive(Default, Debug)]
pub struct od_zig_mut_slice {
    pub len: Option<usize>,
}

/// The room for bytes in a caller's buffer: none where it is null.
pub fn slice_from_ffi_mut(input: &od_zig_mut_slice) -> (room: usize)
    ensures
        room == match input.len {
            Some(n) => n,
            None => 0,
        },
{
    match input.len {
        Some(n) => n,
        None => 0,
    }
}

/// A key and a value of a service's configuration.
#[derive(Default, Debug)]
pub struct od_zig_option {
    pub key: od_zig_slice,
    pub value: od_zig_slice,
}

/// Options of an asynchronous runtime.
#[derive(Clone, Copy, Debug)]
pub struct od_zig_runtime_options {
    pub has_worker_threads: bool,
    pub worker_threads: u16,
    pub completion_queue_capacity: usize,
    pub cancellation_check_interval_ms: u32,
}

/// A header or a piece of user metadata.
#[derive(Default, Debug)]
pub struct od_zig_header {
    pub key: od_zig_slice,
    pub value: od_zig_slice,
}

impl od_zig_header {
    /// A copy of this header.
    pub fn duplicate(&self) -> (h: od_zig_header)
        ensures
            h.key@ == self.key@,
            h.value@ == self.value@,
    {
        od_zig_header { key: self.key.duplicate(), value: self.value.duplicate() }
    }
}

/// The operations a service supports and the options it accepts.
#[derive(Clone, Copy, Default, Debug)]
pub struct od_zig_capability {
    pub stat: bool,
    pub stat_with_if_match: bool,
    pub stat_with_if_none_match: bool,
    pub stat_with_if_modified_since: bool,
    pub stat_with_if_unmodified_since: bool,
    pub stat_with_override_cache_control: bool,
    pub stat_with_override_content_disposition: bool,
    pub stat_with_override_content_type: bool,
    pub stat_with_version: bool,
    pub read: bool,
    pub read_with_if_match: bool,
    pub read_with_if_none_match: bool,
    pub read_with_if_modified_since: bool,
    pub read_with_if_unmodified_since: bool,
    pub read_with_override_cache_control: bool,
    pub read_with_override_content_disposition: bool,
    pub read_with_override_content_type: bool,
    pub read_with_version: bool,
    pub write: bool,
    pub write_can_multi: bool,
    pub write_can_empty: bool,
    pub write_can_append: bool,
    pub write_with_content_type: bool,
    pub write_with_content_disposition: bool,
    pub write_with_content_encoding: bool,
    pub write_with_cache_control: bool,
    pub write_with_if_match: bool,
    pub write_with_if_none_match: bool,
    pub write_with_if_not_exists: bool,
    pub write_with_user_metadata: bool,
    pub has_write_multi_max_size: bool,
    pub write_multi_max_size: usize,
    pub has_write_multi_min_size: bool,
    pub write_multi_min_size: usize,
    pub has_write_total_max_size: bool,
    pub write_total_max_size: usize,
    pub create_dir: bool,
    pub delete: bool,
    pub delete_with_version: bool,
    pub delete_with_recursive: bool,
    pub has_delete_max_size: bool,
    pub delete_max_size: usize,
    pub copy: bool,
    pub copy_with_if_not_exists: bool,
    pub rename: bool,
    pub list: bool,
    pub list_with_limit: bool,
    pub list_with_start_after: bool,
    pub list_with_recursive: bool,
    pub list_with_versions: bool,
    pub list_with_deleted: bool,
    pub presign: bool,
    pub presign_read: bool,
    pub presign_stat: bool,
    pub presign_write: bool,
    pub presign_delete: bool,
    pub shared: bool,
}

/// A borrowed view of an entry's metadata.
#[derive(Debug)]
pub struct od_zig_metadata_view {
    pub mode: u8,
    pub is_file: bool,
    pub is_dir: bool,
    pub is_deleted: bool,
    pub has_content_length: bool,
    pub content_length: u64,
    pub content_type: od_zig_slice,
    pub content_encoding: od_zig_slice,
    pub content_disposition: od_zig_slice,
    pub content_md5: od_zig_slice,
    pub etag: od_zig_slice,
    pub last_modified_rfc3339: od_zig_slice,
    pub version: od_zig_slice,
    pub user_metadata: Vec<od_zig_header>,
}

/// An entry's metadata, owned by the interface until the caller frees it.
#[derive(Debug)]
pub struct od_zig_metadata {
    pub mode: u8,
    pub is_file: bool,
    pub is_dir: bool,
    pub is_deleted: bool,
    pub has_content_length: bool,
    pub content_length: u64,
    pub content_type: od_zig_slice,
    pub content_encoding: od_zig_slice,
    pub content_disposition: od_zig_slice,
    pub content_md5: od_zig_slice,
    pub etag: od_zig_slice,
    pub last_modified_rfc3339: od_zig_slice,
    pub version: od_zig_slice,
    pub user_metadata: Vec<od_zig_header>,
}

/// A borrowed view of a listed entry.
#[derive(Debug)]
pub struct od_zig_entry_view {
    pub path: od_zig_slice,
    pub name: od_zig_slice,
    pub metadata: od_zig_metadata_view,
}

/// A listed entry, owned by the interface until the caller frees it.
#[derive(Debug)]
pub struct od_zig_entry_owned {
    pub path: od_zig_slice,
    pub name: od_zig_slice,
    pub metadata: od_zig_metadata,
}

/// What an operator is and what it supports.
#[derive(Debug)]
pub struct od_zig_operator_info {
    pub scheme: od_zig_slice,
    pub root: od_zig_slice,
    pub name: od_zig_slice,
    pub full_capability: od_zig_capability,
    pub native_capability: od_zig_capability,
}

/// A request that anyone holding it may send without credentials.
#[derive(Debug)]
pub struct od_zig_presigned_request {
    pub method: od_zig_slice,
    pub url: od_zig_slice,
    pub headers: Vec<od_zig_header>,
}

/// The code and message of the last failed call.
#[derive(Debug)]
pub struct od_zig_error_info {
    pub code: od_zig_error_code,
    pub message: od_zig_slice,
}

/// Options of a read.
#[derive(Default, Debug)]
pub struct od_zig_read_options {
    pub version: od_zig_slice,
    pub if_match: od_zig_slice,
    pub if_none_match: od_zig_slice,
    pub if_modified_since_http_date: od_zig_slice,
    pub if_unmodified_since_http_date: od_zig_slice,
    pub override_content_type: od_zig_slice,
    pub override_cache_control: od_zig_slice,
    pub override_content_disposition: od_zig_slice,
    pub has_offset: bool,
    pub offset: u64,
    pub has_size: bool,
    pub size: u64,
}

/// Options of a write; `user_metadata` is `None` where the caller passed a
/// null pointer.
#[derive(Default, Debug)]
pub struct od_zig_write_options {
    pub content_type: od_zig_slice,
    pub content_disposition: od_zig_slice,
    pub content_encoding: od_zig_slice,
    pub cache_control: od_zig_slice,
    pub if_match: od_zig_slice,
    pub if_none_match: od_zig_slice,
    pub if_not_exists: bool,
    pub append: bool,
    pub user_metadata: Option<Vec<od_zig_header>>,
}

/// Options of a stat.
#[derive(Default, Debug)]
pub struct od_zig_stat_options {
    pub if_match: od_zig_slice,
    pub if_none_match: od_zig_slice,
    pub if_modified_since_http_date: od_zig_slice,
    pub if_unmodified_since_http_date: od_zig_slice,
    pub override_content_type: od_zig_slice,
    pub override_cache_control: od_zig_slice,
    pub override_content_disposition: od_zig_slice,
    pub version: od_zig_slice,
}

/// Options of a delete.
#[derive(Default, Debug)]
pub struct od_zig_delete_options {
    pub version: od_zig_slice,
    pub recursive: bool,
}

/// Options of a copy.
#[derive(Clone, Copy, Default, Debug)]
pub struct od_zig_copy_options {
    pub if_not_exists: bool,
}

/// Options of a listing.
#[derive(Default, Debug)]
pub struct od_zig_list_options {
    pub recursive: bool,
    pub has_limit: bool,
    pub limit: usize,
    pub start_after: od_zig_slice,
    pub versions: bool,
    pub deleted: bool,
}

/// Options of a presigned request.
#[derive(Default, Debug)]
pub struct od_zig_presign_options {
    pub version: od_zig_slice,
    pub if_match: od_zig_slice,
    pub if_none_match: od_zig_slice,
    pub if_modified_since_http_date: od_zig_slice,
    pub if_unmodified_since_http_date: od_zig_slice,
    pub override_content_type: od_zig_slice,
    pub override_cache_control: od_zig_slice,
    pub override_content_disposition: od_zig_slice,
    pub content_encoding: od_zig_slice,
    pub if_not_exists: bool,
}

/// The last error of a runtime, if there is one.
#[derive(Debug)]
pub struct od_zig_result_error_info_optional {
    pub code: od_zig_error_code,
    pub has_value: bool,
    pub value: Option<od_zig_error_info>,
}

/// A status code and a boolean.
#[derive(Clone, Copy, Debug)]
pub struct od_zig_result_bool {
    pub code: od_zig_error_code,
    pub value: bool,
}

/// A status code alone.
#[derive(Clone, Copy, Debug)]
pub struct od_zig_result_unit {
    pub code: od_zig_error_code,
}

/// A status code and a size.
#[derive(Clone, Copy, Debug)]
pub struct od_zig_result_usize {
    pub code: od_zig_error_code,
    pub value: usize,
}

/// A status code and a 64-bit number.
#[derive(Clone, Copy, Debug)]
pub struct od_zig_result_u64 {
    pub code: od_zig_error_code,
    pub value: u64,
}

/// A status code and a 64-bit number that may be absent.
#[derive(Clone, Copy, Debug)]
pub struct od_zig_result_optional_u64 {
    pub code: od_zig_error_code,
    pub has_value: bool,
    pub value: u64,
}

/// A status code and a borrowed view of a listed entry, if there is one.
#[derive(Debug)]
pub struct od_zig_result_entry_view {
    pub code: od_zig_error_code,
    pub has_value: bool,
    pub value: od_zig_entry_view,
}

/// A status code and a listed entry, if there is one.
#[derive(Debug)]
pub struct od_zig_result_entry_owned {
    pub code: od_zig_error_code,
    pub has_value: bool,
    pub value: Option<od_zig_entry_owned>,
}

/// A status code and whether a task had completed.
#[derive(Clone, Copy, Debug)]
pub struct od_zig_task_poll_result {
    pub code: od_zig_error_code,
    pub state: od_zig_poll_state,
}

/// A status code and whether the canceled task had completed first.
#[derive(Clone, Copy, Debug)]
pub struct od_zig_task_cancel_result {
    pub code: od_zig_error_code,
    pub completed: bool,
}

/// A status code and a task's state.
#[derive(Clone, Copy, Debug)]
pub struct od_zig_task_state_result {
    pub code: od_zig_error_code,
    pub state: od_zig_task_state,
}

/// A status code and the task that was started, if one was.
#[derive(Clone, Copy, Debug)]
pub struct od_zig_result_task {
    pub code: od_zig_error_code,
    pub value: Option<u64>,
}

} // verus!
