use opendal_zig::codes::od_zig_error_code;
use opendal_zig::ffi::{
    od_zig_delete_options, od_zig_header, od_zig_list_options, od_zig_presign_options,
    od_zig_read_options, od_zig_slice, od_zig_stat_options, od_zig_write_options,
};
use opendal_zig::options::{
    convert_delete_options, convert_headers_input, convert_list_options,
    convert_presign_delete_options, convert_presign_read_options, convert_presign_stat_options,
    convert_presign_write_options, convert_read_options, convert_reader_options,
    convert_stat_options, convert_write_options, ReadRange,
};
use opendal_zig::text::{clone_bytes, clone_optional_string, clone_string, parse_timestamp, HttpDate};

fn text(s: &str) -> od_zig_slice {
    od_zig_slice::from_bytes(s.as_bytes().to_vec())
}

fn bytes(b: &[u8]) -> od_zig_slice {
    od_zig_slice::from_bytes(b.to_vec())
}

#[test]
fn null_slices_copy_as_empty() {
    assert_eq!(clone_bytes(&od_zig_slice::null()), Vec::<u8>::new());
    assert_eq!(clone_bytes(&bytes(&[1, 2, 3])), vec![1, 2, 3]);
    assert_eq!(clone_string(&od_zig_slice::null()).unwrap(), "");
    assert_eq!(clone_optional_string(&od_zig_slice::null()).unwrap(), None);
    assert_eq!(clone_optional_string(&text("")).unwrap(), Some(String::new()));
}

#[test]
fn text_must_be_utf8() {
    assert_eq!(clone_string(&text("héllo")).unwrap(), "héllo");
    let err = clone_string(&bytes(&[0x61, 0xff])).unwrap_err();
    assert_eq!(err.code, od_zig_error_code::OD_ZIG_INVALID_ARGUMENT);
    assert_eq!(err.message, "invalid utf-8 input: invalid utf-8 sequence of 1 bytes from index 1");
    let err = clone_optional_string(&bytes(&[0xe2, 0x82])).unwrap_err();
    assert_eq!(err.code, od_zig_error_code::OD_ZIG_INVALID_ARGUMENT);
    assert!(err.message.starts_with("invalid utf-8 input: "));
}

#[test]
fn dates_parse_as_rfc2822() {
    assert_eq!(parse_timestamp(&od_zig_slice::null()).unwrap(), None);
    let date = parse_timestamp(&text("Tue, 1 Jul 2003 10:52:37 +0200")).unwrap().unwrap();
    assert_eq!(date, HttpDate { seconds: 1057049557, nanoseconds: 0 });
    let err = parse_timestamp(&text("yesterday")).unwrap_err();
    assert_eq!(err.code, od_zig_error_code::OD_ZIG_INVALID_ARGUMENT);
    assert!(err.message.starts_with("invalid http date 'yesterday': "));
    assert!(err.message.len() > "invalid http date 'yesterday': ".len());
    let err = parse_timestamp(&bytes(&[0xff])).unwrap_err();
    assert!(err.message.starts_with("invalid utf-8 input: "));
}

#[test]
fn read_options_build_ranges() {
    let mut input = od_zig_read_options::default();
    assert_eq!(convert_read_options(&input).unwrap().range, None);

    input.has_offset = true;
    input.offset = 10;
    assert_eq!(convert_read_options(&input).unwrap().range, Some(ReadRange { start: 10, end: None }));

    input.has_size = true;
    input.size = 5;
    assert_eq!(convert_read_options(&input).unwrap().range, Some(ReadRange { start: 10, end: Some(15) }));

    input.has_offset = false;
    input.offset = 0;
    assert_eq!(convert_read_options(&input).unwrap().range, Some(ReadRange { start: 0, end: Some(5) }));

    input.offset = 7;
    assert_eq!(convert_read_options(&input).unwrap().range, Some(ReadRange { start: 0, end: Some(5) }));
    input.offset = u64::MAX;
    assert_eq!(convert_read_options(&input).unwrap().range, Some(ReadRange { start: 0, end: Some(5) }));

    input.has_offset = true;
    input.size = 1;
    let err = convert_read_options(&input).unwrap_err();
    assert_eq!(err.code, od_zig_error_code::OD_ZIG_INVALID_ARGUMENT);
    assert_eq!(err.message, "read range overflows u64");

    input.offset = u64::MAX - 1;
    assert_eq!(
        convert_read_options(&input).unwrap().range,
        Some(ReadRange { start: u64::MAX - 1, end: Some(u64::MAX) })
    );
}

#[test]
fn read_options_copy_texts_and_dates() {
    let mut input = od_zig_read_options::default();
    input.version = text("v1");
    input.if_match = text("etag-a");
    input.if_modified_since_http_date = text("Tue, 1 Jul 2003 10:52:37 +0200");
    input.override_content_type = text("text/plain");
    let out = convert_read_options(&input).unwrap();
    assert_eq!(out.version.as_deref(), Some("v1"));
    assert_eq!(out.if_match.as_deref(), Some("etag-a"));
    assert_eq!(out.if_none_match, None);
    assert_eq!(out.if_modified_since, Some(HttpDate { seconds: 1057049557, nanoseconds: 0 }));
    assert_eq!(out.if_unmodified_since, None);
    assert_eq!(out.override_content_type.as_deref(), Some("text/plain"));

    let reader = convert_reader_options(&input).unwrap();
    assert_eq!(reader.version.as_deref(), Some("v1"));
    assert_eq!(reader.if_modified_since, Some(HttpDate { seconds: 1057049557, nanoseconds: 0 }));
}

#[test]
fn read_options_fail_on_first_bad_field() {
    let mut input = od_zig_read_options::default();
    input.if_none_match = bytes(&[0xff]);
    input.if_modified_since_http_date = text("not a date");
    input.has_offset = true;
    input.has_size = true;
    input.offset = u64::MAX;
    input.size = u64::MAX;
    let err = convert_read_options(&input).unwrap_err();
    assert!(err.message.starts_with("invalid utf-8 input: "));

    input.if_none_match = od_zig_slice::null();
    let err = convert_read_options(&input).unwrap_err();
    assert!(err.message.starts_with("invalid http date 'not a date': "));

    input.if_modified_since_http_date = od_zig_slice::null();
    assert_eq!(convert_read_options(&input).unwrap_err().message, "read range overflows u64");
}

fn header(k: &[u8], v: &[u8]) -> od_zig_header {
    od_zig_header { key: bytes(k), value: bytes(v) }
}

#[test]
fn headers_copy_in_order() {
    assert_eq!(convert_headers_input(&None).unwrap(), None);
    assert_eq!(convert_headers_input(&Some(vec![])).unwrap(), None);
    let pairs = convert_headers_input(&Some(vec![header(b"a", b"1"), header(b"b", b"2")])).unwrap();
    assert_eq!(pairs, Some(vec![("a".to_string(), "1".to_string()), ("b".to_string(), "2".to_string())]));
    let err = convert_headers_input(&Some(vec![header(b"a", b"1"), header(b"b", &[0xff])])).unwrap_err();
    assert_eq!(err.code, od_zig_error_code::OD_ZIG_INVALID_ARGUMENT);
    assert_eq!(err.message, "invalid utf-8 input: invalid utf-8 sequence of 1 bytes from index 0");
}

#[test]
fn write_options_convert() {
    let mut input = od_zig_write_options::default();
    input.append = true;
    input.content_type = text("application/json");
    input.if_not_exists = true;
    input.user_metadata = Some(vec![header(b"owner", b"zig")]);
    let out = convert_write_options(&input).unwrap();
    assert!(out.append);
    assert!(out.if_not_exists);
    assert_eq!(out.content_type.as_deref(), Some("application/json"));
    assert_eq!(out.cache_control, None);
    assert_eq!(out.user_metadata, Some(vec![("owner".to_string(), "zig".to_string())]));

    input.user_metadata = Some(vec![header(&[0xc0], b"x")]);
    assert_eq!(convert_write_options(&input).unwrap_err().code, od_zig_error_code::OD_ZIG_INVALID_ARGUMENT);
}

#[test]
fn stat_delete_and_list_options_convert() {
    let mut stat = od_zig_stat_options::default();
    stat.version = text("7");
    stat.if_unmodified_since_http_date = text("Tue, 1 Jul 2003 10:52:37 +0200");
    let out = convert_stat_options(&stat).unwrap();
    assert_eq!(out.version.as_deref(), Some("7"));
    assert_eq!(out.if_unmodified_since, Some(HttpDate { seconds: 1057049557, nanoseconds: 0 }));
    stat.override_cache_control = bytes(&[0xff]);
    assert!(convert_stat_options(&stat).is_err());

    let delete = od_zig_delete_options { version: text("3"), recursive: true };
    let out = convert_delete_options(&delete).unwrap();
    assert_eq!(out.version.as_deref(), Some("3"));
    assert!(out.recursive);

    let mut list = od_zig_list_options::default();
    list.limit = 7;
    assert_eq!(convert_list_options(&list).unwrap().limit, None);
    list.has_limit = true;
    list.recursive = true;
    list.start_after = text("a/b");
    let out = convert_list_options(&list).unwrap();
    assert_eq!(out.limit, Some(7));
    assert!(out.recursive);
    assert!(!out.versions);
    assert_eq!(out.start_after.as_deref(), Some("a/b"));
}

#[test]
fn presign_options_convert() {
    let mut input = od_zig_presign_options::default();
    input.override_content_type = text("image/png");
    input.override_cache_control = text("no-cache");
    input.content_encoding = text("gzip");
    input.version = text("v2");
    input.if_not_exists = true;

    let read = convert_presign_read_options(&input).unwrap();
    assert_eq!(read.override_content_type.as_deref(), Some("image/png"));
    assert_eq!(read.version.as_deref(), Some("v2"));
    assert_eq!(read.range, None);

    let write = convert_presign_write_options(&input).unwrap();
    assert_eq!(write.content_type.as_deref(), Some("image/png"));
    assert_eq!(write.cache_control.as_deref(), Some("no-cache"));
    assert_eq!(write.content_encoding.as_deref(), Some("gzip"));
    assert!(write.if_not_exists);
    assert!(!write.append);
    assert_eq!(write.user_metadata, None);

    let stat = convert_presign_stat_options(&input).unwrap();
    assert_eq!(stat.override_cache_control.as_deref(), Some("no-cache"));

    let delete = convert_presign_delete_options(&input).unwrap();
    assert_eq!(delete.version.as_deref(), Some("v2"));
    assert!(!delete.recursive);

    input.version = bytes(&[0xff]);
    assert!(convert_presign_read_options(&input).is_err());
    assert!(convert_presign_delete_options(&input).is_err());
    assert!(convert_presign_write_options(&input).is_ok());
}
