use opendal_zig::codes::{convert_entry_mode, error_code_from_kind, od_zig_error_code, EntryMode, ErrorKind};
use opendal_zig::error::{panic_error, stored_from_io_error, stored_from_opendal_error, StoredError};

#[test]
fn error_kinds_map_to_their_codes() {
    let cases = [
        (ErrorKind::Unexpected, od_zig_error_code::OD_ZIG_UNEXPECTED),
        (ErrorKind::Unsupported, od_zig_error_code::OD_ZIG_UNSUPPORTED),
        (ErrorKind::ConfigInvalid, od_zig_error_code::OD_ZIG_CONFIG_INVALID),
        (ErrorKind::NotFound, od_zig_error_code::OD_ZIG_NOT_FOUND),
        (ErrorKind::PermissionDenied, od_zig_error_code::OD_ZIG_PERMISSION_DENIED),
        (ErrorKind::IsADirectory, od_zig_error_code::OD_ZIG_IS_DIRECTORY),
        (ErrorKind::NotADirectory, od_zig_error_code::OD_ZIG_NOT_A_DIRECTORY),
        (ErrorKind::AlreadyExists, od_zig_error_code::OD_ZIG_ALREADY_EXISTS),
        (ErrorKind::RateLimited, od_zig_error_code::OD_ZIG_RATE_LIMITED),
        (ErrorKind::IsSameFile, od_zig_error_code::OD_ZIG_IS_SAME_FILE),
        (ErrorKind::ConditionNotMatch, od_zig_error_code::OD_ZIG_CONDITION_NOT_MATCH),
        (ErrorKind::RangeNotSatisfied, od_zig_error_code::OD_ZIG_RANGE_NOT_SATISFIED),
        (ErrorKind::Other, od_zig_error_code::OD_ZIG_INTERNAL),
    ];
    for (kind, code) in cases {
        assert_eq!(error_code_from_kind(kind), code);
        assert_ne!(error_code_from_kind(kind), od_zig_error_code::OD_ZIG_OK);
    }
}

#[test]
fn entry_modes_have_their_numbers() {
    assert_eq!(convert_entry_mode(EntryMode::FILE), 0);
    assert_eq!(convert_entry_mode(EntryMode::DIR), 1);
    assert_eq!(convert_entry_mode(EntryMode::Unknown), 2);
}

#[test]
fn stored_errors_keep_code_and_message() {
    let e = StoredError::new(od_zig_error_code::OD_ZIG_NOT_FOUND, "missing".to_string());
    assert_eq!(e.code, od_zig_error_code::OD_ZIG_NOT_FOUND);
    assert_eq!(e.message, "missing");
    let i = StoredError::internal("boom".to_string());
    assert_eq!(i.code, od_zig_error_code::OD_ZIG_INTERNAL);
    assert_eq!(i.message, "boom");
    let c = StoredError::canceled();
    assert_eq!(c.code, od_zig_error_code::OD_ZIG_CANCELED);
    assert_eq!(c.message, "task canceled");
}

#[test]
fn storage_and_io_errors_convert() {
    let e = stored_from_opendal_error(ErrorKind::NotFound, "NotFound (permanent) at stat".to_string());
    assert_eq!(e.code, od_zig_error_code::OD_ZIG_NOT_FOUND);
    assert_eq!(e.message, "NotFound (permanent) at stat");
    let io = stored_from_io_error("broken pipe".to_string());
    assert_eq!(io.code, od_zig_error_code::OD_ZIG_UNEXPECTED);
    assert_eq!(io.message, "broken pipe");
}

#[test]
fn panics_become_internal_errors() {
    let with_text = panic_error(Some("index out of bounds".to_string()));
    assert_eq!(with_text.code, od_zig_error_code::OD_ZIG_INTERNAL);
    assert_eq!(with_text.message, "async task panicked: index out of bounds");
    let without = panic_error(None);
    assert_eq!(without.code, od_zig_error_code::OD_ZIG_INTERNAL);
    assert_eq!(without.message, "async task panicked");
}
