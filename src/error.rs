use vstd::prelude::*;

use crate::engine::{Status, ARCHIVE_OK, ARCHIVE_WARN};

verus! {

/// The kind of an operating-system level failure.
#[derive(Debug, Clone, Copy, PartialEq, Eq)]
pub enum IoErrorKind {
    /// A path or a named entry does not exist.
    NotFound,
    /// The engine handed out data that cannot be used (a missing entry name).
    InvalidData,
    /// A value cannot be handed to the engine (a passphrase holding a NUL byte).
    InvalidInput,
    /// The engine's errno, where it gave no error text.
    Os(i32),
}

/// Every failure of the library.
#[derive(Debug, Clone, PartialEq, Eq)]
pub enum Error {
    Io(IoErrorKind),
    /// A failure reported by the engine, with its text verbatim.
    Extraction(String),
    /// The archive path cannot be represented in the engine's encoding.
    PathEncoding,
    /// An entry name cannot be decoded by the configured decoder.
    Encoding,
    /// The engine failed and gave no diagnostic.
    Unknown,
}

/// Whether an engine result code counts as success (warnings included).
pub open spec fn is_success(code: i32) -> bool {
    code == ARCHIVE_OK || code == ARCHIVE_WARN
}

/// The error that a failing status stands for: the engine's text if it gave
/// one, else its errno, else nothing known.
pub open spec fn failure_of(s: Status) -> Error {
    match s.message {
        Some(m) => Error::Extraction(m),
        None => if s.errno != 0 {
            Error::Io(IoErrorKind::Os(s.errno))
        } else {
            Error::Unknown
        },
    }
}

/// What a status means to the caller.
pub open spec fn translated(s: Status) -> Result<(), Error> {
    if is_success(s.code) {
        Ok(())
    } else {
        Err(failure_of(s))
    }
}

/// The error that a failing status stands for.
pub fn engine_failure(status: Status) -> (r: Error)
    ensures
        r == failure_of(status),
{
    match status.message {
        Some(m) => Error::Extraction(m),
        None => if status.errno != 0 {
            Error::Io(IoErrorKind::Os(status.errno))
        } else {
            Error::Unknown
        },
    }
}

/// Turns the engine's status into a typed result: success and warnings pass,
/// anything else becomes the error that `failure_of` describes.
pub fn analyze_result(status: Status) -> (r: Result<(), Error>)
    ensures
        r == translated(status),
{
    if status.code == ARCHIVE_OK || status.code == ARCHIVE_WARN {
        Ok(())
    } else {
        Err(engine_failure(status))
    }
}

/// The error for a path or an entry name that does not exist.
pub fn path_does_not_exist() -> (r: Error)
    ensures
        r == Error::Io(IoErrorKind::NotFound),
{
    Error::Io(IoErrorKind::NotFound)
}

} // verus!
