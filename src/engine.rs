use vstd::prelude::*;

verus! {

/// Result code of an engine primitive that succeeded.
pub const ARCHIVE_OK: i32 = 0;

/// Result code of an engine primitive that reached the end of the archive or entry.
pub const ARCHIVE_EOF: i32 = 1;

/// Result code of an engine primitive that succeeded with a warning.
pub const ARCHIVE_WARN: i32 = -20;

/// What the engine reported for one primitive call: its result code, and the
/// diagnostics it held right after that call (its error text, if any, and its
/// errno).
#[derive(Debug, Clone, PartialEq, Eq)]
pub struct Status {
    pub code: i32,
    pub message: Option<String>,
    pub errno: i32,
}

/// The engine's answer to "advance to the next entry header".
#[derive(Debug, Clone, PartialEq, Eq)]
pub struct HeaderReply {
    pub status: Status,
    /// The raw pathname bytes of the new entry; `None` where the engine has none.
    pub pathname: Option<Vec<u8>>,
}

/// The engine's answer to "read the next content block of the current entry".
#[derive(Debug, Clone, PartialEq, Eq)]
pub struct BlockReply {
    pub status: Status,
    pub data: Vec<u8>,
}

/// One setup call that the engine must perform, in order, before traversal.
#[derive(Debug, Clone, PartialEq, Eq)]
pub enum EngineCall {
    SupportFilterAll,
    SupportFormatRaw,
    SupportFormatAll,
    AddPassphrase(String),
    OpenFilename(String, usize),
}

impl Status {
    /// A status that reports plain success.
    pub fn ok() -> (r: Status)
        ensures
            r.code == ARCHIVE_OK,
            r.message is None,
            r.errno == 0,
    {
        Status { code: ARCHIVE_OK, message: None, errno: 0 }
    }

    /// A status that reports the end of the archive or entry.
    pub fn eof() -> (r: Status)
        ensures
            r.code == ARCHIVE_EOF,
            r.message is None,
            r.errno == 0,
    {
        Status { code: ARCHIVE_EOF, message: None, errno: 0 }
    }

    /// A failing status that carries the engine's error text.
    pub fn failed(code: i32, message: String) -> (r: Status)
        ensures
            r.code == code,
            r.message == Some(message),
            r.errno == 0,
    {
        Status { code, message: Some(message), errno: 0 }
    }
}

} // verus!
