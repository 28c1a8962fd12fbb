//! Building the values handed to the host from what the storage layer
//! reports: capabilities, metadata, entries, operator information,
//! presigned requests, error information, and the plain result records.
use vstd::prelude::*;
use vstd::string::*;
use vstd::utf8::encode_utf8;

use crate::codes::{convert_entry_mode, entry_mode_number, od_zig_error_code, EntryMode};
use crate::ffi::{
    od_zig_capability, od_zig_entry_owned, od_zig_entry_view, od_zig_error_info, od_zig_header,
    od_zig_metadata, od_zig_metadata_view, od_zig_operator_info, od_zig_presigned_request,
    od_zig_result_bool, od_zig_result_task, od_zig_result_u64, od_zig_result_unit,
    od_zig_result_usize, od_zig_slice, copy_bytes,
};
use crate::options::header_view;

verus! {

/// The operations a service supports and the options it accepts, as the
/// storage layer reports them; a size limit is absent where there is none.
#[derive(Clone, Copy, Debug)]
pub struct Capability {
    pub stat: bool,
    pub stat_with_if_match: bool,
    pub stat_with_if_none_match: bool,
    pub stat_with_if_modified_since: bool,
    pub stat_with_if_unmodified_since: bool,
    pub stat_with_override_cache_control: bool,
    pub stat_with_override_content_disposition: bool,
    pub stat_with_override_content_type: bool,
    pub stat_with_version: bool,
    pub read: bool,
    pub read_with_if_match: bool,
    pub read_with_if_none_match: bool,
    pub read_with_if_modified_since: bool,
    pub read_with_if_unmodified_since: bool,
    pub read_with_override_cache_control: bool,
    pub read_with_override_content_disposition: bool,
    pub read_with_override_content_type: bool,
    pub read_with_version: bool,
    pub write: bool,
    pub write_can_multi: bool,
    pub write_can_empty: bool,
    pub write_can_append: bool,
    pub write_with_content_type: bool,
    pub write_with_content_disposition: bool,
    pub write_with_content_encoding: bool,
    pub write_with_cache_control: bool,
    pub write_with_if_match: bool,
    pub write_with_if_none_match: bool,
    pub write_with_if_not_exists: bool,
    pub write_with_user_metadata: bool,
    pub write_multi_max_size: Option<usize>,
    pub write_multi_min_size: Option<usize>,
    pub write_total_max_size: Option<usize>,
    pub create_dir: bool,
    pub delete: bool,
    pub delete_with_version: bool,
    pub delete_with_recursive: bool,
    pub delete_max_size: Option<usize>,
    pub copy: bool,
    pub copy_with_if_not_exists: bool,
    pub rename: bool,
    pub list: bool,
    pub list_with_limit: bool,
    pub list_with_start_after: bool,
    pub list_with_recursive: bool,
    pub list_with_versions: bool,
    pub list_with_deleted: bool,
    pub presign: bool,
    pub presign_read: bool,
    pub presign_stat: bool,
    pub presign_write: bool,
    pub presign_delete: bool,
    pub shared: bool,
}

/// Whether an interface capability is the storage layer's: every flag the
/// same, and each size limit split into whether it is given and its value
/// (zero where it is not).
pub open spec fn capability_converted(cap: Capability, out: od_zig_capability) -> bool {
    &&& out.stat == cap.stat
    &&& out.stat_with_if_match == cap.stat_with_if_match
    &&& out.stat_with_if_none_match == cap.stat_with_if_none_match
    &&& out.stat_with_if_modified_since == cap.stat_with_if_modified_since
    &&& out.stat_with_if_unmodified_since == cap.stat_with_if_unmodified_since
    &&& out.stat_with_override_cache_control == cap.stat_with_override_cache_control
    &&& out.stat_with_override_content_disposition == cap.stat_with_override_content_disposition
    &&& out.stat_with_override_content_type == cap.stat_with_override_content_type
    &&& out.stat_with_version == cap.stat_with_version
    &&& out.read == cap.read
    &&& out.read_with_if_match == cap.read_with_if_match
    &&& out.read_with_if_none_match == cap.read_with_if_none_match
    &&& out.read_with_if_modified_since == cap.read_with_if_modified_since
    &&& out.read_with_if_unmodified_since == cap.read_with_if_unmodified_since
    &&& out.read_with_override_cache_control == cap.read_with_override_cache_control
    &&& out.read_with_override_content_disposition == cap.read_with_override_content_disposition
    &&& out.read_with_override_content_type == cap.read_with_override_content_type
    &&& out.read_with_version == cap.read_with_version
    &&& out.write == cap.write
    &&& out.write_can_multi == cap.write_can_multi
    &&& out.write_can_empty == cap.write_can_empty
    &&& out.write_can_append == cap.write_can_append
    &&& out.write_with_content_type == cap.write_with_content_type
    &&& out.write_with_content_disposition == cap.write_with_content_disposition
    &&& out.write_with_content_encoding == cap.write_with_content_encoding
    &&& out.write_with_cache_control == cap.write_with_cache_control
    &&& out.write_with_if_match == cap.write_with_if_match
    &&& out.write_with_if_none_match == cap.write_with_if_none_match
    &&& out.write_with_if_not_exists == cap.write_with_if_not_exists
    &&& out.write_with_user_metadata == cap.write_with_user_metadata
    &&& out.has_write_multi_max_size == cap.write_multi_max_size.is_some()
    &&& out.write_multi_max_size == (match cap.write_multi_max_size { Some(v) => v, None => 0usize })
    &&& out.has_write_multi_min_size == cap.write_multi_min_size.is_some()
    &&& out.write_multi_min_size == (match cap.write_multi_min_size { Some(v) => v, None => 0usize })
    &&& out.has_write_total_max_size == cap.write_total_max_size.is_some()
    &&& out.write_total_max_size == (match cap.write_total_max_size { Some(v) => v, None => 0usize })
    &&& out.create_dir == cap.create_dir
    &&& out.delete == cap.delete
    &&& out.delete_with_version == cap.delete_with_version
    &&& out.delete_with_recursive == cap.delete_with_recursive
    &&& out.has_delete_max_size == cap.delete_max_size.is_some()
    &&& out.delete_max_size == (match cap.delete_max_size { Some(v) => v, None => 0usize })
    &&& out.copy == cap.copy
    &&& out.copy_with_if_not_exists == cap.copy_with_if_not_exists
    &&& out.rename == cap.rename
    &&& out.list == cap.list
    &&& out.list_with_limit == cap.list_with_limit
    &&& out.list_with_start_after == cap.list_with_start_after
    &&& out.list_with_recursive == cap.list_with_recursive
    &&& out.list_with_versions == cap.list_with_versions
    &&& out.list_with_deleted == cap.list_with_deleted
    &&& out.presign == cap.presign
    &&& out.presign_read == cap.presign_read
    &&& out.presign_stat == cap.presign_stat
    &&& out.presign_write == cap.presign_write
    &&& out.presign_delete == cap.presign_delete
    &&& out.shared == cap.shared
}

/// Converts a capability of the storage layer into the interface's.
pub fn build_capability(cap: &Capability) -> (out: od_zig_capability)
    ensures
        capability_converted(*cap, out),
{
    od_zig_capability {
        stat: cap.stat,
        stat_with_if_match: cap.stat_with_if_match,
        stat_with_if_none_match: cap.stat_with_if_none_match,
        stat_with_if_modified_since: cap.stat_with_if_modified_since,
        stat_with_if_unmodified_since: cap.stat_with_if_unmodified_since,
        stat_with_override_cache_control: cap.stat_with_override_cache_control,
        stat_with_override_content_disposition: cap.stat_with_override_content_disposition,
        stat_with_override_content_type: cap.stat_with_override_content_type,
        stat_with_version: cap.stat_with_version,
        read: cap.read,
        read_with_if_match: cap.read_with_if_match,
        read_with_if_none_match: cap.read_with_if_none_match,
        read_with_if_modified_since: cap.read_with_if_modified_since,
        read_with_if_unmodified_since: cap.read_with_if_unmodified_since,
        read_with_override_cache_control: cap.read_with_override_cache_control,
        read_with_override_content_disposition: cap.read_with_override_content_disposition,
        read_with_override_content_type: cap.read_with_override_content_type,
        read_with_version: cap.read_with_version,
        write: cap.write,
        write_can_multi: cap.write_can_multi,
        write_can_empty: cap.write_can_empty,
        write_can_append: cap.write_can_append,
        write_with_content_type: cap.write_with_content_type,
        write_with_content_disposition: cap.write_with_content_disposition,
        write_with_content_encoding: cap.write_with_content_encoding,
        write_with_cache_control: cap.write_with_cache_control,
        write_with_if_match: cap.write_with_if_match,
        write_with_if_none_match: cap.write_with_if_none_match,
        write_with_if_not_exists: cap.write_with_if_not_exists,
        write_with_user_metadata: cap.write_with_user_metadata,
        has_write_multi_max_size: cap.write_multi_max_size.is_some(),
        write_multi_max_size: match cap.write_multi_max_size {
            Some(v) => v,
            None => 0,
        },
        has_write_multi_min_size: cap.write_multi_min_size.is_some(),
        write_multi_min_size: match cap.write_multi_min_size {
            Some(v) => v,
            None => 0,
        },
        has_write_total_max_size: cap.write_total_max_size.is_some(),
        write_total_max_size: match cap.write_total_max_size {
            Some(v) => v,
            None => 0,
        },
        create_dir: cap.create_dir,
        delete: cap.delete,
        delete_with_version: cap.delete_with_version,
        delete_with_recursive: cap.delete_with_recursive,
        has_delete_max_size: cap.delete_max_size.is_some(),
        delete_max_size: match cap.delete_max_size {
            Some(v) => v,
            None => 0,
        },
        copy: cap.copy,
        copy_with_if_not_exists: cap.copy_with_if_not_exists,
        rename: cap.rename,
        list: cap.list,
        list_with_limit: cap.list_with_limit,
        list_with_start_after: cap.list_with_start_after,
        list_with_recursive: cap.list_with_recursive,
        list_with_versions: cap.list_with_versions,
        list_with_deleted: cap.list_with_deleted,
        presign: cap.presign,
        presign_read: cap.presign_read,
        presign_stat: cap.presign_stat,
        presign_write: cap.presign_write,
        presign_delete: cap.presign_delete,
        shared: cap.shared,
    }
}

/// The UTF-8 bytes of a text.
pub fn text_bytes(s: &String) -> (out: Vec<u8>)
    ensures
        out@ == encode_utf8(s@),
{
    s.as_str().as_bytes_vec()
}

/// A slice describing the given bytes, or a null slice where there are
/// none.
pub fn od_slice_from_box(value: &Option<Vec<u8>>) -> (s: od_zig_slice)
    ensures
        s@ == (match value {
            Some(v) => Some(v@),
            None => None::<Seq<u8>>,
        }),
{
    match value {
        Some(data) => od_slice_from_box_ref(data),
        None => od_zig_slice::null(),
    }
}

/// A slice describing the given bytes.
pub fn od_slice_from_box_ref(value: &Vec<u8>) -> (s: od_zig_slice)
    ensures
        s@ == Some(value@),
{
    od_zig_slice::from_bytes(copy_bytes(value))
}

/// The slice of an optional text: its UTF-8 bytes, or null where there is
/// none.
pub open spec fn text_slice(o: Option<String>) -> Option<Seq<u8>> {
    match o {
        Some(s) => Some(encode_utf8(s@)),
        None => None,
    }
}

/// The slice of an optional text.
fn optional_text_slice(o: &Option<String>) -> (s: od_zig_slice)
    ensures
        s@ == text_slice(*o),
{
    match o {
        Some(text) => od_zig_slice::from_bytes(text_bytes(text)),
        None => od_zig_slice::null(),
    }
}

/// The headers built from pairs of texts: each key and value as its UTF-8
/// bytes, in order.
pub open spec fn headers_of_texts(pairs: Seq<(String, String)>) -> Seq<(Option<Seq<u8>>, Option<Seq<u8>>)> {
    pairs.map_values(|p: (String, String)| (Some(encode_utf8(p.0@)), Some(encode_utf8(p.1@))))
}

/// The headers as pairs of slices.
pub open spec fn headers_view(hs: Seq<od_zig_header>) -> Seq<(Option<Seq<u8>>, Option<Seq<u8>>)> {
    hs.map_values(|h: od_zig_header| header_view(h))
}

/// Builds the headers of user metadata; none where there are none.
pub fn build_headers(data: Option<&Vec<(String, String)>>) -> (out: Vec<od_zig_header>)
    ensures
        headers_view(out@) == (match data {
            Some(pairs) => headers_of_texts(pairs@),
            None => Seq::empty(),
        }),
{
    let pairs = match data {
        Some(pairs) => pairs,
        None => {
            let out: Vec<od_zig_header> = Vec::new();
            assert(headers_view(out@) =~= Seq::empty());
            return out;
        },
    };
    let mut out: Vec<od_zig_header> = Vec::new();
    let mut i: usize = 0;
    while i < pairs.len()
        invariant
            0 <= i <= pairs@.len(),
            headers_view(out@) == headers_of_texts(pairs@.take(i as int)),
        decreases pairs@.len() - i,
    {
        let ghost before = out@;
        let key = od_zig_slice::from_bytes(text_bytes(&pairs[i].0));
        let value = od_zig_slice::from_bytes(text_bytes(&pairs[i].1));
        let header = od_zig_header { key, value };
        assert(header_view(header) == (
            Some(encode_utf8(pairs@[i as int].0@)),
            Some(encode_utf8(pairs@[i as int].1@)),
        ));
        out.push(header);
        assert(headers_view(out@) =~= headers_view(before).push(header_view(header)));
        assert(pairs@.take(i + 1) =~= pairs@.take(i as int).push(pairs@[i as int]));
        assert(headers_of_texts(pairs@.take(i + 1)) =~= headers_of_texts(pairs@.take(i as int)).push(
            header_view(header),
        ));
        i = i + 1;
    }
    assert(pairs@.take(pairs@.len() as int) =~= pairs@);
    out
}

/// The headers built from the headers of a request: each name as its
/// UTF-8 bytes and each value as its raw bytes, in order.
pub open spec fn headers_of_http(pairs: Seq<(String, Vec<u8>)>) -> Seq<(Option<Seq<u8>>, Option<Seq<u8>>)> {
    pairs.map_values(|p: (String, Vec<u8>)| (Some(encode_utf8(p.0@)), Some(p.1@)))
}

/// Builds the headers of a presigned request.
pub fn build_headers_from_http(headers: &Vec<(String, Vec<u8>)>) -> (out: Vec<od_zig_header>)
    ensures
        headers_view(out@) == headers_of_http(headers@),
{
    let mut out: Vec<od_zig_header> = Vec::new();
    let mut i: usize = 0;
    while i < headers.len()
        invariant
            0 <= i <= headers@.len(),
            headers_view(out@) == headers_of_http(headers@.take(i as int)),
        decreases headers@.len() - i,
    {
        let ghost before = out@;
        let key = od_zig_slice::from_bytes(text_bytes(&headers[i].0));
        let value = od_slice_from_box_ref(&headers[i].1);
        let header = od_zig_header { key, value };
        assert(header_view(header) == (
            Some(encode_utf8(headers@[i as int].0@)),
            Some(headers@[i as int].1@),
        ));
        out.push(header);
        assert(headers_view(out@) =~= headers_view(before).push(header_view(header)));
        assert(headers@.take(i + 1) =~= headers@.take(i as int).push(headers@[i as int]));
        assert(headers_of_http(headers@.take(i + 1)) =~= headers_of_http(headers@.take(i as int)).push(
            header_view(header),
        ));
        i = i + 1;
    }
    assert(headers@.take(headers@.len() as int) =~= headers@);
    out
}

/// A copy of a list of headers.
fn copy_headers(hs: &Vec<od_zig_header>) -> (out: Vec<od_zig_header>)
    ensures
        headers_view(out@) == headers_view(hs@),
{
    let mut out: Vec<od_zig_header> = Vec::new();
    let mut i: usize = 0;
    while i < hs.len()
        invariant
            0 <= i <= hs@.len(),
            headers_view(out@) == headers_view(hs@.take(i as int)),
        decreases hs@.len() - i,
    {
        let ghost before = out@;
        let header = hs[i].duplicate();
        assert(header_view(header) == header_view(hs@[i as int]));
        out.push(header);
        assert(headers_view(out@) =~= headers_view(before).push(header_view(header)));
        assert(hs@.take(i + 1) =~= hs@.take(i as int).push(hs@[i as int]));
        assert(headers_view(hs@.take(i + 1)) =~= headers_view(hs@.take(i as int)).push(
            header_view(header),
        ));
        i = i + 1;
    }
    assert(hs@.take(hs@.len() as int) =~= hs@);
    out
}

/// The metadata of an entry as the storage layer reports them; the content
/// length is `None` where it is unknown, and the last modification is given
/// as RFC 3339 text.
#[derive(Debug)]
pub struct Metadata {
    pub mode: EntryMode,
    pub is_deleted: bool,
    pub content_length: Option<u64>,
    pub content_type: Option<String>,
    pub content_encoding: Option<String>,
    pub content_disposition: Option<String>,
    pub content_md5: Option<String>,
    pub etag: Option<String>,
    pub last_modified: Option<String>,
    pub version: Option<String>,
    pub user_metadata: Option<Vec<(String, String)>>,
}

/// Whether interface metadata are what the storage layer reported.
pub open spec fn metadata_converted(meta: Metadata, out: od_zig_metadata) -> bool {
    &&& out.mode == entry_mode_number(meta.mode)
    &&& out.is_file == (meta.mode == EntryMode::FILE)
    &&& out.is_dir == (meta.mode == EntryMode::DIR)
    &&& out.is_deleted == meta.is_deleted
    &&& out.has_content_length == meta.content_length is Some
    &&& out.content_length == (match meta.content_length {
        Some(n) => n,
        None => 0,
    })
    &&& out.content_type@ == text_slice(meta.content_type)
    &&& out.content_encoding@ == text_slice(meta.content_encoding)
    &&& out.content_disposition@ == text_slice(meta.content_disposition)
    &&& out.content_md5@ == text_slice(meta.content_md5)
    &&& out.etag@ == text_slice(meta.etag)
    &&& out.last_modified_rfc3339@ == text_slice(meta.last_modified)
    &&& out.version@ == text_slice(meta.version)
    &&& headers_view(out.user_metadata@) == (match meta.user_metadata {
        Some(pairs) => headers_of_texts(pairs@),
        None => Seq::empty(),
    })
}

impl Default for od_zig_metadata {
    /// Metadata of an entry of unknown mode with nothing known about it.
    fn default() -> (m: od_zig_metadata)
        ensures
            m.mode == entry_mode_number(EntryMode::Unknown),
            !m.is_file && !m.is_dir && !m.is_deleted,
            !m.has_content_length && m.content_length == 0,
            m.content_type@ is None && m.content_encoding@ is None,
            m.content_disposition@ is None && m.content_md5@ is None,
            m.etag@ is None && m.last_modified_rfc3339@ is None && m.version@ is None,
            m.user_metadata@.len() == 0,
    {
        od_zig_metadata {
            mode: convert_entry_mode(EntryMode::Unknown),
            is_file: false,
            is_dir: false,
            is_deleted: false,
            has_content_length: false,
            content_length: 0,
            content_type: od_zig_slice::null(),
            content_encoding: od_zig_slice::null(),
            content_disposition: od_zig_slice::null(),
            content_md5: od_zig_slice::null(),
            etag: od_zig_slice::null(),
            last_modified_rfc3339: od_zig_slice::null(),
            version: od_zig_slice::null(),
            user_metadata: Vec::new(),
        }
    }
}

/// Converts metadata of the storage layer into the interface's: the mode
/// as its number, the content length where it is known (zero included),
/// each text as its UTF-8 bytes (null where absent), and the user metadata
/// as headers.
pub fn build_metadata(meta: &Metadata) -> (out: od_zig_metadata)
    ensures
        metadata_converted(*meta, out),
{
    let mut owned = od_zig_metadata::default();
    owned.mode = convert_entry_mode(meta.mode);
    owned.is_file = meta.mode == EntryMode::FILE;
    owned.is_dir = meta.mode == EntryMode::DIR;
    owned.is_deleted = meta.is_deleted;
    match meta.content_length {
        Some(n) => {
            owned.has_content_length = true;
            owned.content_length = n;
        },
        None => {},
    }
    owned.content_type = optional_text_slice(&meta.content_type);
    owned.content_encoding = optional_text_slice(&meta.content_encoding);
    owned.content_disposition = optional_text_slice(&meta.content_disposition);
    owned.content_md5 = optional_text_slice(&meta.content_md5);
    owned.etag = optional_text_slice(&meta.etag);
    owned.last_modified_rfc3339 = optional_text_slice(&meta.last_modified);
    owned.version = optional_text_slice(&meta.version);
    owned.user_metadata = build_headers(meta.user_metadata.as_ref());
    owned
}

/// Whether a view of metadata shows the metadata.
pub open spec fn metadata_viewed(meta: od_zig_metadata, view: od_zig_metadata_view) -> bool {
    &&& view.mode == meta.mode
    &&& view.is_file == meta.is_file
    &&& view.is_dir == meta.is_dir
    &&& view.is_deleted == meta.is_deleted
    &&& view.has_content_length == meta.has_content_length
    &&& view.content_length == meta.content_length
    &&& view.content_type@ == meta.content_type@
    &&& view.content_encoding@ == meta.content_encoding@
    &&& view.content_disposition@ == meta.content_disposition@
    &&& view.content_md5@ == meta.content_md5@
    &&& view.etag@ == meta.etag@
    &&& view.last_modified_rfc3339@ == meta.last_modified_rfc3339@
    &&& view.version@ == meta.version@
    &&& headers_view(view.user_metadata@) == headers_view(meta.user_metadata@)
}

/// A view of metadata.
pub fn build_metadata_view(meta: &od_zig_metadata) -> (view: od_zig_metadata_view)
    ensures
        metadata_viewed(*meta, view),
{
    od_zig_metadata_view {
        mode: meta.mode,
        is_file: meta.is_file,
        is_dir: meta.is_dir,
        is_deleted: meta.is_deleted,
        has_content_length: meta.has_content_length,
        content_length: meta.content_length,
        content_type: meta.content_type.duplicate(),
        content_encoding: meta.content_encoding.duplicate(),
        content_disposition: meta.content_disposition.duplicate(),
        content_md5: meta.content_md5.duplicate(),
        etag: meta.etag.duplicate(),
        last_modified_rfc3339: meta.last_modified_rfc3339.duplicate(),
        version: meta.version.duplicate(),
        user_metadata: copy_headers(&meta.user_metadata),
    }
}

/// Whether a metadata view is the empty one: every number zero, every flag
/// false, every slice null, no user metadata.
pub open spec fn empty_metadata_view(v: od_zig_metadata_view) -> bool {
    &&& v.mode == 0 && !v.is_file && !v.is_dir && !v.is_deleted
    &&& !v.has_content_length && v.content_length == 0
    &&& v.content_type@ is None && v.content_encoding@ is None
    &&& v.content_disposition@ is None && v.content_md5@ is None
    &&& v.etag@ is None && v.last_modified_rfc3339@ is None && v.version@ is None
    &&& v.user_metadata@.len() == 0
}

/// Whether an entry view is the empty one: null path and name, empty
/// metadata.
pub open spec fn empty_entry_view(v: od_zig_entry_view) -> bool {
    v.path@ is None && v.name@ is None && empty_metadata_view(v.metadata)
}

impl Default for od_zig_metadata_view {
    /// An empty view: every number zero, every flag false, every slice
    /// null.
    fn default() -> (v: od_zig_metadata_view)
        ensures
            empty_metadata_view(v),
    {
        od_zig_metadata_view {
            mode: 0,
            is_file: false,
            is_dir: false,
            is_deleted: false,
            has_content_length: false,
            content_length: 0,
            content_type: od_zig_slice::null(),
            content_encoding: od_zig_slice::null(),
            content_disposition: od_zig_slice::null(),
            content_md5: od_zig_slice::null(),
            etag: od_zig_slice::null(),
            last_modified_rfc3339: od_zig_slice::null(),
            version: od_zig_slice::null(),
            user_metadata: Vec::new(),
        }
    }
}

impl Default for od_zig_entry_view {
    /// An empty view: null path and name, empty metadata.
    fn default() -> (v: od_zig_entry_view)
        ensures
            empty_entry_view(v),
    {
        od_zig_entry_view {
            path: od_zig_slice::null(),
            name: od_zig_slice::null(),
            metadata: od_zig_metadata_view::default(),
        }
    }
}

/// A listed entry as the storage layer reports it.
#[derive(Debug)]
pub struct Entry {
    pub path: String,
    pub name: String,
    pub metadata: Metadata,
}

/// Whether an owned entry is what the storage layer listed.
pub open spec fn entry_converted(entry: Entry, out: od_zig_entry_owned) -> bool {
    &&& out.path@ == Some(encode_utf8(entry.path@))
    &&& out.name@ == Some(encode_utf8(entry.name@))
    &&& metadata_converted(entry.metadata, out.metadata)
}

/// Converts a listed entry into an owned entry.
pub fn build_entry(entry: &Entry) -> (out: od_zig_entry_owned)
    ensures
        entry_converted(*entry, out),
{
    let path = od_slice_from_box_ref(&text_bytes(&entry.path));
    let name = od_slice_from_box_ref(&text_bytes(&entry.name));
    let metadata = build_metadata(&entry.metadata);
    od_zig_entry_owned { path, name, metadata }
}

/// A view of an owned entry.
pub fn entry_view_of(entry: &od_zig_entry_owned) -> (view: od_zig_entry_view)
    ensures
        view.path@ == entry.path@,
        view.name@ == entry.name@,
        metadata_viewed(entry.metadata, view.metadata),
{
    od_zig_entry_view {
        path: entry.path.duplicate(),
        name: entry.name.duplicate(),
        metadata: build_metadata_view(&entry.metadata),
    }
}

/// What an operator is and what it supports, as the storage layer reports
/// it.
#[derive(Debug)]
pub struct OperatorInfo {
    pub scheme: String,
    pub root: String,
    pub name: String,
    pub full_capability: Capability,
    pub native_capability: Capability,
}

/// Whether interface information about an operator is the storage
/// layer's: each text as its UTF-8 bytes, each capability converted.
pub open spec fn info_converted(info: OperatorInfo, out: od_zig_operator_info) -> bool {
    &&& out.scheme@ == Some(encode_utf8(info.scheme@))
    &&& out.root@ == Some(encode_utf8(info.root@))
    &&& out.name@ == Some(encode_utf8(info.name@))
    &&& capability_converted(info.full_capability, out.full_capability)
    &&& capability_converted(info.native_capability, out.native_capability)
}

/// Converts information about an operator into the interface's.
pub fn build_info(info: &OperatorInfo) -> (out: od_zig_operator_info)
    ensures
        info_converted(*info, out),
{
    od_zig_operator_info {
        scheme: od_zig_slice::from_bytes(text_bytes(&info.scheme)),
        root: od_zig_slice::from_bytes(text_bytes(&info.root)),
        name: od_zig_slice::from_bytes(text_bytes(&info.name)),
        full_capability: build_capability(&info.full_capability),
        native_capability: build_capability(&info.native_capability),
    }
}

/// A presigned request as the storage layer gives it: the method, the
/// URI, and the headers' names with their raw values.
#[derive(Debug)]
pub struct PresignedRequest {
    pub method: String,
    pub uri: String,
    pub headers: Vec<(String, Vec<u8>)>,
}

/// Whether an interface presigned request is the storage layer's: the
/// method and the URI as their UTF-8 bytes, the headers in order.
pub open spec fn presigned_converted(req: PresignedRequest, out: od_zig_presigned_request) -> bool {
    &&& out.method@ == Some(encode_utf8(req.method@))
    &&& out.url@ == Some(encode_utf8(req.uri@))
    &&& headers_view(out.headers@) == headers_of_http(req.headers@)
}

/// Converts a presigned request into the interface's.
pub fn build_presigned_request(req: &PresignedRequest) -> (out: od_zig_presigned_request)
    ensures
        presigned_converted(*req, out),
{
    od_zig_presigned_request {
        method: od_zig_slice::from_bytes(text_bytes(&req.method)),
        url: od_zig_slice::from_bytes(text_bytes(&req.uri)),
        headers: build_headers_from_http(&req.headers),
    }
}

/// The error information of a code and a message.
pub fn build_error_info(code: od_zig_error_code, message: &String) -> (out: od_zig_error_info)
    ensures
        out.code == code,
        out.message@ == Some(encode_utf8(message@)),
{
    od_zig_error_info { code, message: od_zig_slice::from_bytes(text_bytes(message)) }
}

/// A status code and a boolean.
pub fn bool_result(code: od_zig_error_code, value: bool) -> (r: od_zig_result_bool)
    ensures
        r.code == code && r.value == value,
{
    od_zig_result_bool { code, value }
}

/// Success, with nothing more.
pub fn unit_ok() -> (r: od_zig_result_unit)
    ensures
        r.code == od_zig_error_code::OD_ZIG_OK,
{
    od_zig_result_unit { code: od_zig_error_code::OD_ZIG_OK }
}

/// A status code and a size.
pub fn usize_result(code: od_zig_error_code, value: usize) -> (r: od_zig_result_usize)
    ensures
        r.code == code && r.value == value,
{
    od_zig_result_usize { code, value }
}

/// A status code and a 64-bit number.
pub fn u64_result(code: od_zig_error_code, value: u64) -> (r: od_zig_result_u64)
    ensures
        r.code == code && r.value == value,
{
    od_zig_result_u64 { code, value }
}

/// A failure to start a task.
pub fn task_result_error(code: od_zig_error_code) -> (r: od_zig_result_task)
    ensures
        r.code == code && r.value is None,
{
    od_zig_result_task { code, value: None }
}

} // verus!
