//! Streaming, forward-only access to the entries of an archive, driven through
//! a small set of engine primitives: open, advance to the next entry header,
//! read the next content block, close.
//!
//! The library decides and the caller acts: each traversal says which engine
//! primitive it needs next (`Request`), the caller performs it and hands the
//! engine's reply back (`HeaderReply`, `BlockReply`). Data obtained from one
//! entry never outlives the next header advance, a failure ends a traversal,
//! and the end of an entry's content is final.
pub mod archive;
pub mod blocks;
pub mod decoder;
pub mod engine;
pub mod entries;
pub mod error;
pub mod laws;
pub mod lookup;

pub use archive::{Archive, DEFAULT_BLOCK_SIZE};
pub use blocks::{BlockReader, FileReader};
pub use decoder::{Decoder, Utf8, Utf8Lossy};
pub use engine::{BlockReply, EngineCall, HeaderReply, Status, ARCHIVE_EOF, ARCHIVE_OK, ARCHIVE_WARN};
pub use entries::{CursorState, Entries, Entry, EntryNames};
pub use error::{analyze_result, engine_failure, path_does_not_exist, Error, IoErrorKind};
pub use lookup::{FileBlocks, FileRead, Request};
