use opendal_zig::calls::{
    async_runtime_for_operator, od_zig_lister_next_owned, od_zig_lister_next_view,
    operator_arguments, operator_runtime,
};
use opendal_zig::codes::{od_zig_error_code, EntryMode};
use opendal_zig::convert::{
    bool_result, build_capability, build_entry, build_error_info, build_headers,
    build_headers_from_http, build_info, build_metadata, build_metadata_view,
    build_presigned_request, od_slice_from_box, od_slice_from_box_ref, task_result_error,
    u64_result, unit_ok, usize_result, Capability, Entry, Metadata, OperatorInfo,
    PresignedRequest,
};
use opendal_zig::error::StoredError;
use opendal_zig::ffi::{
    od_zig_entry_view, od_zig_metadata, od_zig_metadata_view, od_zig_mut_slice, od_zig_option,
    od_zig_slice, slice_from_ffi_mut,
};
use opendal_zig::runtime::{empty_runtime_options, TaskRegistry};

fn capability(read: bool, multi_max: Option<usize>) -> Capability {
    Capability {
        stat: true,
        stat_with_if_match: false,
        stat_with_if_none_match: false,
        stat_with_if_modified_since: false,
        stat_with_if_unmodified_since: false,
        stat_with_override_cache_control: false,
        stat_with_override_content_disposition: false,
        stat_with_override_content_type: false,
        stat_with_version: true,
        read,
        read_with_if_match: false,
        read_with_if_none_match: false,
        read_with_if_modified_since: false,
        read_with_if_unmodified_since: false,
        read_with_override_cache_control: false,
        read_with_override_content_disposition: false,
        read_with_override_content_type: false,
        read_with_version: false,
        write: true,
        write_can_multi: true,
        write_can_empty: true,
        write_can_append: false,
        write_with_content_type: false,
        write_with_content_disposition: false,
        write_with_content_encoding: false,
        write_with_cache_control: false,
        write_with_if_match: false,
        write_with_if_none_match: false,
        write_with_if_not_exists: false,
        write_with_user_metadata: false,
        write_multi_max_size: multi_max,
        write_multi_min_size: None,
        write_total_max_size: Some(0),
        create_dir: true,
        delete: true,
        delete_with_version: false,
        delete_with_recursive: false,
        delete_max_size: None,
        copy: false,
        copy_with_if_not_exists: false,
        rename: false,
        list: true,
        list_with_limit: false,
        list_with_start_after: false,
        list_with_recursive: true,
        list_with_versions: false,
        list_with_deleted: false,
        presign: false,
        presign_read: false,
        presign_stat: false,
        presign_write: false,
        presign_delete: false,
        shared: false,
    }
}

#[test]
fn capabilities_split_size_limits() {
    let out = build_capability(&capability(true, Some(4096)));
    assert!(out.stat && out.stat_with_version && out.read && out.write && out.list_with_recursive);
    assert!(!out.copy && !out.presign && !out.shared);
    assert!(out.has_write_multi_max_size);
    assert_eq!(out.write_multi_max_size, 4096);
    assert!(!out.has_write_multi_min_size);
    assert_eq!(out.write_multi_min_size, 0);
    assert!(out.has_write_total_max_size);
    assert_eq!(out.write_total_max_size, 0);
    assert!(!out.has_delete_max_size);
    let out = build_capability(&capability(false, None));
    assert!(!out.read);
    assert!(!out.has_write_multi_max_size);
    assert_eq!(out.write_multi_max_size, 0);
}

fn file_metadata() -> Metadata {
    Metadata {
        mode: EntryMode::FILE,
        is_deleted: false,
        content_length: Some(11),
        content_type: Some("text/plain".to_string()),
        content_encoding: None,
        content_disposition: None,
        content_md5: Some("md5".to_string()),
        etag: Some("\"e1\"".to_string()),
        last_modified: Some("2024-01-02T03:04:05Z".to_string()),
        version: None,
        user_metadata: Some(vec![("k".to_string(), "v".to_string())]),
    }
}

#[test]
fn metadata_convert_to_slices() {
    let out = build_metadata(&file_metadata());
    assert_eq!(out.mode, 0);
    assert!(out.is_file && !out.is_dir && !out.is_deleted);
    assert!(out.has_content_length);
    assert_eq!(out.content_length, 11);
    assert_eq!(out.content_type.data, Some(b"text/plain".to_vec()));
    assert_eq!(out.content_encoding.data, None);
    assert_eq!(out.etag.data, Some(b"\"e1\"".to_vec()));
    assert_eq!(out.last_modified_rfc3339.data, Some(b"2024-01-02T03:04:05Z".to_vec()));
    assert_eq!(out.version.data, None);
    assert_eq!(out.user_metadata.len(), 1);
    assert_eq!(out.user_metadata[0].key.data, Some(b"k".to_vec()));
    assert_eq!(out.user_metadata[0].value.data, Some(b"v".to_vec()));

    let view = build_metadata_view(&out);
    assert_eq!(view.mode, out.mode);
    assert_eq!(view.content_length, 11);
    assert_eq!(view.content_md5.data, Some(b"md5".to_vec()));
    assert_eq!(view.user_metadata.len(), 1);

    let mut dir = file_metadata();
    dir.mode = EntryMode::DIR;
    dir.content_length = None;
    dir.user_metadata = None;
    let out = build_metadata(&dir);
    assert_eq!(out.mode, 1);
    assert!(out.is_dir && !out.is_file);
    assert!(!out.has_content_length);
    assert_eq!(out.content_length, 0);
    assert!(out.user_metadata.is_empty());

    let mut empty = file_metadata();
    empty.content_length = Some(0);
    let out = build_metadata(&empty);
    assert!(out.has_content_length);
    assert_eq!(out.content_length, 0);
}

#[test]
fn defaults_are_empty() {
    let m = od_zig_metadata::default();
    assert_eq!(m.mode, 2);
    assert!(!m.is_file && !m.is_dir && !m.has_content_length);
    assert_eq!(m.content_type.data, None);
    let v = od_zig_metadata_view::default();
    assert_eq!(v.mode, 0);
    assert_eq!(v.etag.data, None);
    let e = od_zig_entry_view::default();
    assert_eq!(e.path.data, None);
    assert_eq!(e.name.data, None);
}

#[test]
fn entries_info_and_requests_convert() {
    let entry = Entry { path: "dir/a.txt".to_string(), name: "a.txt".to_string(), metadata: file_metadata() };
    let out = build_entry(&entry);
    assert_eq!(out.path.data, Some(b"dir/a.txt".to_vec()));
    assert_eq!(out.name.data, Some(b"a.txt".to_vec()));
    assert_eq!(out.metadata.content_length, 11);

    let info = OperatorInfo {
        scheme: "memory".to_string(),
        root: "/".to_string(),
        name: "0x1".to_string(),
        full_capability: capability(true, None),
        native_capability: capability(false, Some(1)),
    };
    let out = build_info(&info);
    assert_eq!(out.scheme.data, Some(b"memory".to_vec()));
    assert_eq!(out.root.data, Some(b"/".to_vec()));
    assert_eq!(out.name.data, Some(b"0x1".to_vec()));
    assert!(out.full_capability.read);
    assert!(!out.native_capability.read);
    assert_eq!(out.native_capability.write_multi_max_size, 1);

    let req = PresignedRequest {
        method: "GET".to_string(),
        uri: "https://example.com/a?sig=1".to_string(),
        headers: vec![("host".to_string(), b"example.com".to_vec())],
    };
    let out = build_presigned_request(&req);
    assert_eq!(out.method.data, Some(b"GET".to_vec()));
    assert_eq!(out.url.data, Some(b"https://example.com/a?sig=1".to_vec()));
    assert_eq!(out.headers.len(), 1);
    assert_eq!(out.headers[0].key.data, Some(b"host".to_vec()));
    assert_eq!(out.headers[0].value.data, Some(b"example.com".to_vec()));
}

#[test]
fn headers_and_slices_build() {
    assert!(build_headers(None).is_empty());
    let pairs = vec![("a".to_string(), "1".to_string()), ("b".to_string(), "".to_string())];
    let out = build_headers(Some(&pairs));
    assert_eq!(out.len(), 2);
    assert_eq!(out[1].key.data, Some(b"b".to_vec()));
    assert_eq!(out[1].value.data, Some(Vec::new()));
    assert!(build_headers_from_http(&vec![]).is_empty());
    assert_eq!(od_slice_from_box(&None).data, None);
    assert_eq!(od_slice_from_box(&Some(vec![7])).data, Some(vec![7]));
    assert_eq!(od_slice_from_box_ref(&vec![]).data, Some(vec![]));
    assert_eq!(slice_from_ffi_mut(&od_zig_mut_slice { len: None }), 0);
    assert_eq!(slice_from_ffi_mut(&od_zig_mut_slice { len: Some(64) }), 64);
}

#[test]
fn plain_results_build() {
    let e = build_error_info(od_zig_error_code::OD_ZIG_RATE_LIMITED, &"slow down".to_string());
    assert_eq!(e.code, od_zig_error_code::OD_ZIG_RATE_LIMITED);
    assert_eq!(e.message.data, Some(b"slow down".to_vec()));
    let b = bool_result(od_zig_error_code::OD_ZIG_OK, true);
    assert!(b.value);
    assert_eq!(unit_ok().code, od_zig_error_code::OD_ZIG_OK);
    assert_eq!(usize_result(od_zig_error_code::OD_ZIG_NOT_FOUND, 3).value, 3);
    assert_eq!(u64_result(od_zig_error_code::OD_ZIG_OK, 8).value, 8);
    let t = task_result_error(od_zig_error_code::OD_ZIG_ASYNC_RUNTIME_REQUIRED);
    assert_eq!(t.code, od_zig_error_code::OD_ZIG_ASYNC_RUNTIME_REQUIRED);
    assert_eq!(t.value, None);
}

#[test]
fn listing_steps_build_views_and_entries() {
    let mut r = TaskRegistry::new(&empty_runtime_options());
    let entry = Entry { path: "x/".to_string(), name: "x/".to_string(), metadata: file_metadata() };
    let (view, kept) = od_zig_lister_next_view(&mut r, Ok(Some(entry)));
    assert_eq!(view.code, od_zig_error_code::OD_ZIG_OK);
    assert!(view.has_value);
    assert_eq!(view.value.path.data, Some(b"x/".to_vec()));
    assert_eq!(view.value.metadata.content_length, 11);
    assert_eq!(kept.unwrap().path.data, Some(b"x/".to_vec()));

    let (end, kept) = od_zig_lister_next_view(&mut r, Ok(None));
    assert_eq!(end.code, od_zig_error_code::OD_ZIG_OK);
    assert!(!end.has_value);
    assert!(kept.is_none());
    assert_eq!(end.value.path.data, None);
    assert_eq!(end.value.metadata.mode, 0);
    assert!(!end.value.metadata.is_file && !end.value.metadata.has_content_length);
    assert_eq!(end.value.metadata.content_length, 0);
    assert_eq!(end.value.metadata.etag.data, None);

    let failure = StoredError::new(od_zig_error_code::OD_ZIG_PERMISSION_DENIED, "denied".to_string());
    let (failed, kept) = od_zig_lister_next_view(&mut r, Err(failure));
    assert_eq!(failed.code, od_zig_error_code::OD_ZIG_PERMISSION_DENIED);
    assert!(!failed.has_value);
    assert!(kept.is_none());
    assert_eq!(failed.value.name.data, None);
    assert_eq!(failed.value.metadata.content_length, 0);
    assert!(failed.value.metadata.user_metadata.is_empty());
    assert_eq!(r.last_error_info().value.unwrap().code, od_zig_error_code::OD_ZIG_PERMISSION_DENIED);

    let entry = Entry { path: "y".to_string(), name: "y".to_string(), metadata: file_metadata() };
    let owned = od_zig_lister_next_owned(&mut r, Ok(Some(entry)));
    assert!(owned.has_value);
    assert_eq!(owned.value.unwrap().name.data, Some(b"y".to_vec()));
    assert!(!r.last_error_info().has_value);
    let none = od_zig_lister_next_owned(&mut r, Ok(None));
    assert!(!none.has_value && none.value.is_none());
}

#[test]
fn operator_arguments_are_text() {
    let scheme = od_zig_slice::from_bytes(b"memory".to_vec());
    let args = operator_arguments(&scheme, &None).unwrap();
    assert_eq!(args.scheme, "memory");
    assert!(args.options.is_empty());
    let options = vec![od_zig_option {
        key: od_zig_slice::from_bytes(b"root".to_vec()),
        value: od_zig_slice::from_bytes(b"/tmp".to_vec()),
    }];
    let args = operator_arguments(&scheme, &Some(options)).unwrap();
    assert_eq!(args.options, vec![("root".to_string(), "/tmp".to_string())]);
    let bad = vec![od_zig_option { key: od_zig_slice::null(), value: od_zig_slice::from_bytes(vec![0xff]) }];
    let err = operator_arguments(&scheme, &Some(bad)).unwrap_err();
    assert_eq!(err.code, od_zig_error_code::OD_ZIG_INVALID_ARGUMENT);
    let err = operator_arguments(&od_zig_slice::from_bytes(vec![0xfe]), &None).unwrap_err();
    assert_eq!(err.code, od_zig_error_code::OD_ZIG_INVALID_ARGUMENT);

    assert!(operator_runtime(true).is_ok());
    let err = operator_runtime(false).unwrap_err();
    assert_eq!(err.code, od_zig_error_code::OD_ZIG_INVALID_ARGUMENT);
    assert_eq!(err.message, "operator pointer is null");
    assert!(async_runtime_for_operator(true).is_ok());
    assert_eq!(async_runtime_for_operator(false).unwrap_err().code, od_zig_error_code::OD_ZIG_ASYNC_RUNTIME_REQUIRED);
}
