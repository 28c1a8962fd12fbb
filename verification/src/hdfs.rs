//! The entries of an HDFS listing: how the status of a file, as the HDFS
//! client reports it, becomes an entry of the storage layer, or fails the
//! listing.
use vstd::prelude::*;
use vstd::string::*;

use crate::codes::{code_for_kind, ErrorKind, EntryMode};
use crate::error::{stored_from_opendal_error, StoredError};

verus! {

/// The status of a file as the HDFS client reports it: its path, whether
/// it is a directory, its length, and its modification time.
#[derive(Debug)]
pub struct HdfsFileStatus {
    pub path: String,
    pub isdir: bool,
    pub length: usize,
    pub modification_time: u64,
}

/// An entry of a listing: its path, its mode, and what its metadata carry
/// besides the mode (a directory's carry nothing else). The modification
/// time is in seconds since the Unix epoch, as the storage layer reads the
/// status's time.
#[derive(Debug)]
pub struct HdfsListedEntry {
    pub path: String,
    pub mode: EntryMode,
    pub content_length: Option<u64>,
    pub last_modified_seconds: Option<i64>,
}

/// The earliest second since the Unix epoch that an instant can be.
pub open spec fn first_instant_second() -> int {
    -377705023201
}

/// The latest second since the Unix epoch that an instant can be.
pub open spec fn last_instant_second() -> int {
    253402207200
}

/// Whether a number of seconds since the Unix epoch is an instant.
pub open spec fn instant_in_range(second: i64) -> bool {
    first_instant_second() <= second <= last_instant_second()
}

/// The text of jiff's error for a number of seconds that is not an instant.
pub uninterp spec fn instant_error_text(second: i64) -> Seq<char>;

/// `jiff::Timestamp::from_second`: succeeds exactly on the seconds between
/// `Timestamp::MIN` and `Timestamp::MAX` (from -377705023201 to
/// 253402207200); otherwise the error's displayed text is returned.
#[verifier::external_body]
fn instant_from_second(second: i64) -> (res: Result<(), String>)
    ensures
        res is Ok <==> instant_in_range(second),
        res matches Err(m) ==> m@ == instant_error_text(second),
{
    match jiff::Timestamp::from_second(second) {
        Ok(_) => Ok(()),
        Err(err) => Err(err.to_string()),
    }
}

/// The modification time of a status, in the seconds the storage layer
/// reads it as.
pub open spec fn status_seconds(status: &HdfsFileStatus) -> i64 {
    status.modification_time as i64
}

/// Whether an entry is the one listed for a status whose time is an
/// instant: a directory under its path with a trailing `/` and metadata
/// that carry only its mode; a file under its path with its length and
/// modification time.
pub open spec fn entry_of_status(status: &HdfsFileStatus, entry: HdfsListedEntry) -> bool {
    if status.isdir {
        &&& entry.path@ == status.path@ + "/"@
        &&& entry.mode == EntryMode::DIR
        &&& entry.content_length is None
        &&& entry.last_modified_seconds is None
    } else {
        &&& entry.path@ == status.path@
        &&& entry.mode == EntryMode::FILE
        &&& entry.content_length == Some(status.length as u64)
        &&& entry.last_modified_seconds == Some(status_seconds(status))
    }
}

/// The entry for a status. The modification time is converted to an
/// instant first, a directory's included, and the listing fails with an
/// unexpected error where it is not one. Then a directory is listed under
/// its path with a trailing `/` and metadata that carry only its mode; a
/// file is listed under its path with its length and modification time.
pub fn listed_entry(status: &HdfsFileStatus) -> (res: Result<HdfsListedEntry, StoredError>)
    ensures
        !instant_in_range(status_seconds(status)) ==> (res matches Err(e) && e.code
            == code_for_kind(ErrorKind::Unexpected) && e.message@ == instant_error_text(
            status_seconds(status),
        )),
        instant_in_range(status_seconds(status)) ==> (res matches Ok(entry) && entry_of_status(
            status,
            entry,
        )),
{
    let seconds = status.modification_time as i64;
    match instant_from_second(seconds) {
        Ok(()) => {},
        Err(text) => {
            return Err(stored_from_opendal_error(ErrorKind::Unexpected, text));
        },
    }
    if status.isdir {
        let mut path = status.path.clone();
        path.append("/");
        Ok(
            HdfsListedEntry {
                path,
                mode: EntryMode::DIR,
                content_length: None,
                last_modified_seconds: None,
            },
        )
    } else {
        Ok(
            HdfsListedEntry {
                path: status.path.clone(),
                mode: EntryMode::FILE,
                content_length: Some(status.length as u64),
                last_modified_seconds: Some(seconds),
            },
        )
    }
}

} // verus!
