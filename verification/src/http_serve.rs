//! What a file server answers to a request for one file.
//!
//! Looking for the file and reading it is the caller's part. This module
//! decides the status and the body of the answer from what the caller found.

use vstd::prelude::*;
use vstd::string::StringExecFns;

verus! {

/// Status of an answer that carries the file's text.
pub const STATUS_OK: u16 = 200;

/// Status of the answer to a request for a file that does not exist.
pub const STATUS_NOT_FOUND: u16 = 404;

/// Status of the answer where the file exists and could not be read.
pub const STATUS_INTERNAL_SERVER_ERROR: u16 = 500;

/// What came of looking for a file and reading it as text.
pub enum FileRead {
    /// There is no such file.
    Missing,
    /// The file was read, and this is its text.
    Content(String),
    /// The file exists and reading it failed, for the reason given.
    Failed(String),
}

/// The status that answers `read`.
pub open spec fn response_status(read: FileRead) -> u16 {
    match read {
        FileRead::Missing => STATUS_NOT_FOUND,
        FileRead::Content(_) => STATUS_OK,
        FileRead::Failed(_) => STATUS_INTERNAL_SERVER_ERROR,
    }
}

/// The body that answers `read`, for a file whose path is shown as `shown`.
pub open spec fn response_body(shown: Seq<char>, read: FileRead) -> Seq<char> {
    match read {
        FileRead::Missing => "File not found: "@ + shown,
        FileRead::Content(text) => text@,
        FileRead::Failed(reason) => reason@,
    }
}

/// The answer to a request for one file: its status and its body.
///
/// A file that was read is answered with its text, one that could not be read
/// with the reason, and a missing one with a line that names it by
/// `shown_path`.
pub fn file_response(shown_path: &str, read: FileRead) -> (res: (u16, String))
    ensures
        res.0 == response_status(read),
        res.1@ == response_body(shown_path@, read),
{
    match read {
        FileRead::Missing => {
            let body = String::from_str("File not found: ").concat(shown_path);
            (STATUS_NOT_FOUND, body)
        },
        FileRead::Content(text) => (STATUS_OK, text),
        FileRead::Failed(reason) => (STATUS_INTERNAL_SERVER_ERROR, reason),
    }
}

} // verus!
