use opendal_zig::codes::{od_zig_error_code, EntryMode};
use opendal_zig::hdfs::{listed_entry, HdfsFileStatus};

fn status(path: &str, isdir: bool, length: usize, modification_time: u64) -> HdfsFileStatus {
    HdfsFileStatus { path: path.to_string(), isdir, length, modification_time }
}

#[test]
fn directories_are_listed_with_a_trailing_slash() {
    let entry = listed_entry(&status("/data/logs", true, 0, 1_700_000_000)).unwrap();
    assert_eq!(entry.path, "/data/logs/");
    assert_eq!(entry.mode, EntryMode::DIR);
    assert_eq!(entry.content_length, None);
    assert_eq!(entry.last_modified_seconds, None);
}

#[test]
fn files_carry_their_length_and_time() {
    let entry = listed_entry(&status("/data/a.txt", false, 42, 5)).unwrap();
    assert_eq!(entry.path, "/data/a.txt");
    assert_eq!(entry.mode, EntryMode::FILE);
    assert_eq!(entry.content_length, Some(42));
    assert_eq!(entry.last_modified_seconds, Some(5));

    let entry = listed_entry(&status("f", false, 1, u64::MAX)).unwrap();
    assert_eq!(entry.last_modified_seconds, Some(-1));
    let last = listed_entry(&status("f", false, 1, 253402207200)).unwrap();
    assert_eq!(last.last_modified_seconds, Some(253402207200));
}

#[test]
fn times_that_are_not_instants_fail_the_listing() {
    let err = listed_entry(&status("f", false, 1, 253402207201)).unwrap_err();
    assert_eq!(err.code, od_zig_error_code::OD_ZIG_UNEXPECTED);
    assert!(!err.message.is_empty());

    let err = listed_entry(&status("/data/logs", true, 0, 1_700_000_000_000)).unwrap_err();
    assert_eq!(err.code, od_zig_error_code::OD_ZIG_UNEXPECTED);

    let err = listed_entry(&status("f", false, 1, 1u64 << 63)).unwrap_err();
    assert_eq!(err.code, od_zig_error_code::OD_ZIG_UNEXPECTED);
}
