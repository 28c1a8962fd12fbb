use opendal_zig::codes::{od_zig_error_code, EntryMode};
use opendal_zig::convert::{Capability, Metadata, OperatorInfo, PresignedRequest};
use opendal_zig::error::StoredError;
use opendal_zig::ffi::{
    od_zig_delete_options, od_zig_list_options, od_zig_presign_options, od_zig_read_options,
    od_zig_slice, od_zig_stat_options, od_zig_write_options,
};
use opendal_zig::options::ReadRange;
use opendal_zig::requests::{
    delete_request, finish_info, finish_metadata, finish_presigned_request, list_request,
    paths_request, presign_delete_request, presign_read_request, presign_stat_request,
    presign_write_request, read_request, reader_request, stat_request, write_request,
    writer_request,
};
use opendal_zig::runtime::{empty_runtime_options, TaskRegistry};

fn text(s: &str) -> od_zig_slice {
    od_zig_slice::from_bytes(s.as_bytes().to_vec())
}

fn not_text() -> od_zig_slice {
    od_zig_slice::from_bytes(vec![0x66, 0xff])
}

const BAD_PATH: &str = "invalid utf-8 input: invalid utf-8 sequence of 1 bytes from index 1";

#[test]
fn paths_are_checked_source_first() {
    let (from, to) = paths_request(&text("a"), &text("b")).unwrap();
    assert_eq!((from.as_str(), to.as_str()), ("a", "b"));

    let err = paths_request(&not_text(), &od_zig_slice::from_bytes(vec![0xc0])).unwrap_err();
    assert_eq!(err.code, od_zig_error_code::OD_ZIG_INVALID_ARGUMENT);
    assert_eq!(err.message, BAD_PATH);

    let err = paths_request(&text("a"), &not_text()).unwrap_err();
    assert_eq!(err.message, BAD_PATH);

    let (from, to) = paths_request(&od_zig_slice::null(), &text("b")).unwrap();
    assert_eq!((from.as_str(), to.as_str()), ("", "b"));
}

#[test]
fn the_path_fails_before_the_options() {
    let mut stat = od_zig_stat_options::default();
    stat.if_match = not_text();
    stat.if_modified_since_http_date = text("someday");

    let err = stat_request(&not_text(), &stat).unwrap_err();
    assert_eq!(err.message, BAD_PATH);

    let err = stat_request(&text("p"), &stat).unwrap_err();
    assert_eq!(err.code, od_zig_error_code::OD_ZIG_INVALID_ARGUMENT);
    assert_eq!(err.message, BAD_PATH);

    stat.if_match = text("\"e\"");
    let err = stat_request(&text("p"), &stat).unwrap_err();
    assert!(err.message.starts_with("invalid http date 'someday': "));

    stat.if_modified_since_http_date = od_zig_slice::null();
    let (path, options) = stat_request(&text("p"), &stat).unwrap();
    assert_eq!(path, "p");
    assert_eq!(options.if_match, Some("\"e\"".to_string()));
    assert_eq!(options.if_modified_since, None);
}

#[test]
fn reads_and_readers_take_their_options() {
    let mut read = od_zig_read_options::default();
    read.has_offset = true;
    read.offset = 4;
    read.has_size = true;
    read.size = 6;
    read.version = text("v1");
    let (path, options) = read_request(&text("dir/f"), &read).unwrap();
    assert_eq!(path, "dir/f");
    assert_eq!(options.range, Some(ReadRange { start: 4, end: Some(10) }));
    assert_eq!(options.version, Some("v1".to_string()));

    let (path, options) = reader_request(&text("dir/f"), &read).unwrap();
    assert_eq!(path, "dir/f");
    assert_eq!(options.version, Some("v1".to_string()));

    read.offset = u64::MAX;
    let err = read_request(&text("dir/f"), &read).unwrap_err();
    assert_eq!(err.message, "read range overflows u64");
    assert!(reader_request(&text("dir/f"), &read).is_ok());
    let err = read_request(&not_text(), &read).unwrap_err();
    assert_eq!(err.message, BAD_PATH);
}

#[test]
fn writes_copy_their_data() {
    let mut write = od_zig_write_options::default();
    write.content_type = text("text/plain");
    write.append = true;
    let (path, data, options) = write_request(&text("f"), &od_zig_slice::from_bytes(vec![1, 2, 3]), &write).unwrap();
    assert_eq!(path, "f");
    assert_eq!(data, vec![1, 2, 3]);
    assert!(options.append);
    assert_eq!(options.content_type, Some("text/plain".to_string()));

    let (_, data, _) = write_request(&text("f"), &od_zig_slice::null(), &write).unwrap();
    assert!(data.is_empty());

    write.cache_control = not_text();
    let err = write_request(&text("f"), &od_zig_slice::null(), &write).unwrap_err();
    assert_eq!(err.message, BAD_PATH);
    let err = writer_request(&text("f"), &write).unwrap_err();
    assert_eq!(err.message, BAD_PATH);
    write.cache_control = od_zig_slice::null();
    let (path, options) = writer_request(&text("w"), &write).unwrap();
    assert_eq!(path, "w");
    assert!(options.append);
}

#[test]
fn deletes_and_listings_take_their_options() {
    let delete = od_zig_delete_options { version: text("v2"), recursive: true };
    let (path, options) = delete_request(&text("d/"), &delete).unwrap();
    assert_eq!(path, "d/");
    assert_eq!(options.version, Some("v2".to_string()));
    assert!(options.recursive);
    let bad = od_zig_delete_options { version: not_text(), recursive: false };
    assert_eq!(delete_request(&text("d/"), &bad).unwrap_err().message, BAD_PATH);

    let mut list = od_zig_list_options::default();
    list.has_limit = true;
    list.limit = 7;
    list.start_after = text("d/b");
    list.recursive = true;
    let (path, options) = list_request(&text("d/"), &list).unwrap();
    assert_eq!(path, "d/");
    assert_eq!(options.limit, Some(7));
    assert_eq!(options.start_after, Some("d/b".to_string()));
    assert!(options.recursive && !options.versions && !options.deleted);
    list.start_after = not_text();
    assert_eq!(list_request(&text("d/"), &list).unwrap_err().message, BAD_PATH);
}

#[test]
fn presigned_requests_take_their_options() {
    let mut presign = od_zig_presign_options::default();
    presign.version = text("v3");
    presign.override_content_type = text("image/png");
    presign.content_encoding = text("gzip");
    presign.if_not_exists = true;

    let (path, read) = presign_read_request(&text("p"), &presign).unwrap();
    assert_eq!(path, "p");
    assert_eq!(read.version, Some("v3".to_string()));
    assert_eq!(read.override_content_type, Some("image/png".to_string()));
    assert_eq!(read.range, None);

    let (_, write) = presign_write_request(&text("p"), &presign).unwrap();
    assert_eq!(write.content_type, Some("image/png".to_string()));
    assert_eq!(write.content_encoding, Some("gzip".to_string()));
    assert!(write.if_not_exists && !write.append);

    let (_, stat) = presign_stat_request(&text("p"), &presign).unwrap();
    assert_eq!(stat.version, Some("v3".to_string()));

    let (_, delete) = presign_delete_request(&text("p"), &presign).unwrap();
    assert_eq!(delete.version, Some("v3".to_string()));
    assert!(!delete.recursive);

    presign.if_unmodified_since_http_date = text("never");
    assert!(presign_read_request(&text("p"), &presign).is_err());
    assert!(presign_stat_request(&text("p"), &presign).is_err());
    assert!(presign_write_request(&text("p"), &presign).is_ok());
    assert!(presign_delete_request(&text("p"), &presign).is_ok());
    assert_eq!(presign_delete_request(&not_text(), &presign).unwrap_err().message, BAD_PATH);
}

fn file_metadata() -> Metadata {
    Metadata {
        mode: EntryMode::FILE,
        is_deleted: false,
        content_length: Some(3),
        content_type: None,
        content_encoding: None,
        content_disposition: None,
        content_md5: None,
        etag: Some("e".to_string()),
        last_modified: None,
        version: None,
        user_metadata: None,
    }
}

#[test]
fn stats_and_presigns_record_their_outcome() {
    let mut runtime = TaskRegistry::new(&empty_runtime_options());

    let failed = StoredError::new(od_zig_error_code::OD_ZIG_NOT_FOUND, "missing".to_string());
    let (code, meta) = finish_metadata(&mut runtime, Err(failed));
    assert_eq!(code, od_zig_error_code::OD_ZIG_NOT_FOUND);
    assert!(meta.is_none());
    let last = runtime.last_error_info().value.unwrap();
    assert_eq!(last.code, od_zig_error_code::OD_ZIG_NOT_FOUND);
    assert_eq!(last.message.data, Some(b"missing".to_vec()));

    let (code, meta) = finish_metadata(&mut runtime, Ok(file_metadata()));
    assert_eq!(code, od_zig_error_code::OD_ZIG_OK);
    let meta = meta.unwrap();
    assert!(meta.is_file);
    assert_eq!(meta.content_length, 3);
    assert_eq!(meta.etag.data, Some(b"e".to_vec()));
    assert!(!runtime.last_error_info().has_value);

    let failed = StoredError::new(od_zig_error_code::OD_ZIG_UNSUPPORTED, "no presign".to_string());
    let (code, req) = finish_presigned_request(&mut runtime, Err(failed));
    assert_eq!(code, od_zig_error_code::OD_ZIG_UNSUPPORTED);
    assert!(req.is_none());
    assert!(runtime.last_error_info().has_value);

    let req = PresignedRequest {
        method: "PUT".to_string(),
        uri: "https://h/p".to_string(),
        headers: vec![("content-type".to_string(), b"image/png".to_vec())],
    };
    let (code, out) = finish_presigned_request(&mut runtime, Ok(req));
    assert_eq!(code, od_zig_error_code::OD_ZIG_OK);
    let out = out.unwrap();
    assert_eq!(out.method.data, Some(b"PUT".to_vec()));
    assert_eq!(out.url.data, Some(b"https://h/p".to_vec()));
    assert_eq!(out.headers[0].value.data, Some(b"image/png".to_vec()));
    assert!(!runtime.last_error_info().has_value);
}

fn read_only_capability() -> Capability {
    Capability {
        stat: false,
        stat_with_if_match: false,
        stat_with_if_none_match: false,
        stat_with_if_modified_since: false,
        stat_with_if_unmodified_since: false,
        stat_with_override_cache_control: false,
        stat_with_override_content_disposition: false,
        stat_with_override_content_type: false,
        stat_with_version: false,
        read: true,
        read_with_if_match: false,
        read_with_if_none_match: false,
        read_with_if_modified_since: false,
        read_with_if_unmodified_since: false,
        read_with_override_cache_control: false,
        read_with_override_content_disposition: false,
        read_with_override_content_type: false,
        read_with_version: false,
        write: false,
        write_can_multi: false,
        write_can_empty: false,
        write_can_append: false,
        write_with_content_type: false,
        write_with_content_disposition: false,
        write_with_content_encoding: false,
        write_with_cache_control: false,
        write_with_if_match: false,
        write_with_if_none_match: false,
        write_with_if_not_exists: false,
        write_with_user_metadata: false,
        write_multi_max_size: None,
        write_multi_min_size: None,
        write_total_max_size: Some(64),
        create_dir: false,
        delete: false,
        delete_with_version: false,
        delete_with_recursive: false,
        delete_max_size: None,
        copy: false,
        copy_with_if_not_exists: false,
        rename: false,
        list: false,
        list_with_limit: false,
        list_with_start_after: false,
        list_with_recursive: false,
        list_with_versions: false,
        list_with_deleted: false,
        presign: false,
        presign_read: false,
        presign_stat: false,
        presign_write: false,
        presign_delete: false,
        shared: false,
    }
}

#[test]
fn information_clears_the_last_error() {
    let mut runtime = TaskRegistry::new(&empty_runtime_options());
    runtime.record_error(&StoredError::new(od_zig_error_code::OD_ZIG_INTERNAL, "earlier".to_string()));
    let info = OperatorInfo {
        scheme: "fs".to_string(),
        root: "/tmp/".to_string(),
        name: "".to_string(),
        full_capability: read_only_capability(),
        native_capability: read_only_capability(),
    };
    let out = finish_info(&mut runtime, &info);
    assert!(!runtime.last_error_info().has_value);
    assert_eq!(out.scheme.data, Some(b"fs".to_vec()));
    assert_eq!(out.root.data, Some(b"/tmp/".to_vec()));
    assert_eq!(out.name.data, Some(Vec::new()));
    assert!(out.full_capability.read);
    assert!(out.native_capability.has_write_total_max_size);
    assert_eq!(out.native_capability.write_total_max_size, 64);
}
