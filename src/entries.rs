use vstd::prelude::*;

use crate::blocks::{BlockReader, FileReader};
use crate::decoder::Decoder;
use crate::engine::{HeaderReply, ARCHIVE_EOF, ARCHIVE_OK, ARCHIVE_WARN};
use crate::error::{engine_failure, failure_of, is_success, path_does_not_exist, Error, IoErrorKind};

verus! {

/// One file or directory record of an archive, as the last header advance
/// reported it.
#[derive(Debug, Clone, PartialEq, Eq)]
pub struct Entry {
    pub pathname: Option<Vec<u8>>,
}

/// Where an entry cursor stands.
#[derive(Debug, Clone, Copy, PartialEq, Eq)]
pub enum CursorState {
    /// Nothing read yet.
    Ready,
    /// The last advance produced an entry.
    EntryAvailable,
    /// The engine reported the end of the archive: no entry follows.
    Exhausted,
    /// The engine or the decoder failed: the cursor must not advance again.
    Failed,
}

/// The entry cursor: advances through the archive's entry headers, one
/// engine reply at a time, and decodes their names with `D`.
pub struct Entries<D> {
    decoder: D,
    state: CursorState,
}

/// The raw name bytes of an entry, as a sequence.
pub open spec fn raw_name(pathname: Option<Vec<u8>>) -> Option<Seq<u8>> {
    match pathname {
        Some(v) => Some(v@),
        None => None,
    }
}

/// What decoding an entry name gives: a missing name is invalid data, a name
/// that the decoder refuses is an encoding error.
pub open spec fn name_result<D: Decoder>(decoder: D, raw: Option<Seq<u8>>) -> Result<Seq<char>, Error> {
    match raw {
        None => Err(Error::Io(IoErrorKind::InvalidData)),
        Some(b) => match decoder.decoded(b) {
            Some(t) => Ok(t),
            None => Err(Error::Encoding),
        },
    }
}

/// A decoded name, or its error, seen as text.
pub open spec fn text_view(r: Result<String, Error>) -> Result<Seq<char>, Error> {
    match r {
        Ok(s) => Ok(s@),
        Err(e) => Err(e),
    }
}

/// What one header advance yields: nothing at the end of the archive, the
/// translated error where the engine failed, else the new entry.
pub open spec fn header_outcome(reply: HeaderReply) -> Option<Result<Entry, Error>> {
    if reply.status.code == ARCHIVE_EOF {
        None
    } else if !is_success(reply.status.code) {
        Some(Err(failure_of(reply.status)))
    } else {
        Some(Ok(Entry { pathname: reply.pathname }))
    }
}

/// What one listing step yields: nothing at the end of the archive, the
/// failure, or the new entry's decoded name (or why it cannot be decoded).
pub open spec fn listing_step<D: Decoder>(decoder: D, reply: HeaderReply) -> Option<Result<Seq<char>, Error>> {
    match header_outcome(reply) {
        None => None,
        Some(Err(e)) => Some(Err(e)),
        Some(Ok(entry)) => Some(name_result(decoder, entry.raw_name())),
    }
}

/// What a listing yields over a run of header replies, in order.
pub open spec fn listing<D: Decoder>(decoder: D, replies: Seq<HeaderReply>) -> Seq<Result<Seq<char>, Error>>
    decreases replies.len(),
{
    if replies.len() == 0 {
        Seq::empty()
    } else {
        let before = listing(decoder, replies.drop_last());
        match listing_step(decoder, replies.last()) {
            Some(x) => before.push(x),
            None => before,
        }
    }
}

/// A listed name, or its error, seen as text.
pub open spec fn listed_view(r: Option<Result<String, Error>>) -> Option<Result<Seq<char>, Error>> {
    match r {
        Some(x) => Some(text_view(x)),
        None => None,
    }
}

/// The cursor's state after a header advance.
pub open spec fn state_after(reply: HeaderReply) -> CursorState {
    if reply.status.code == ARCHIVE_EOF {
        CursorState::Exhausted
    } else if !is_success(reply.status.code) {
        CursorState::Failed
    } else {
        CursorState::EntryAvailable
    }
}

/// What one step of a search for `target` yields: `None` while the entry is
/// not the one sought; the entry once its decoded name equals `target`;
/// `NotFound` at the end of the archive; the first engine or decoding error.
pub open spec fn seek_outcome<D: Decoder>(decoder: D, target: Seq<char>, reply: HeaderReply) -> Option<Result<Entry, Error>> {
    match header_outcome(reply) {
        None => Some(Err(Error::Io(IoErrorKind::NotFound))),
        Some(Err(e)) => Some(Err(e)),
        Some(Ok(entry)) => match name_result(decoder, entry.raw_name()) {
            Err(e) => Some(Err(e)),
            Ok(t) => if t == target {
                Some(Ok(entry))
            } else {
                None
            },
        },
    }
}

/// The cursor's state after one search step.
pub open spec fn seek_state<D: Decoder>(decoder: D, target: Seq<char>, reply: HeaderReply) -> CursorState {
    match seek_outcome(decoder, target, reply) {
        Some(Err(_)) => if reply.status.code == ARCHIVE_EOF {
            CursorState::Exhausted
        } else {
            CursorState::Failed
        },
        _ => CursorState::EntryAvailable,
    }
}

impl Entry {
    /// An entry whose engine-reported pathname is `pathname`.
    pub fn new(pathname: Option<Vec<u8>>) -> (r: Entry)
        ensures
            r.pathname == pathname,
    {
        Entry { pathname }
    }

    pub open spec fn raw_name(&self) -> Option<Seq<u8>> {
        raw_name(self.pathname)
    }

    /// The entry's name decoded with `decoder`. Reads nothing but the entry,
    /// so the same decoder gives the same result every time.
    pub fn file_name<D: Decoder>(&self, decoder: &D) -> (r: Result<String, Error>)
        ensures
            text_view(r) == name_result(*decoder, self.raw_name()),
    {
        match &self.pathname {
            None => Err(Error::Io(IoErrorKind::InvalidData)),
            Some(bytes) => match decoder.decode(bytes.as_slice()) {
                Some(text) => Ok(text),
                None => Err(Error::Encoding),
            },
        }
    }

    /// A block cursor over this entry's content. Taking the entry by value
    /// makes its content readable once.
    pub fn read_file_by_block(self) -> (r: BlockReader)
        ensures
            r.wf(),
            r.log() == Seq::<crate::engine::BlockReply>::empty(),
    {
        BlockReader::new()
    }

    /// A reader that copies this entry's whole content to an output.
    pub fn read_file(self) -> (r: FileReader)
        ensures
            r.wf(),
            r.log() == Seq::<crate::engine::BlockReply>::empty(),
    {
        FileReader::new()
    }
}

impl<D: Decoder + Copy> Entries<D> {
    /// A cursor before the first entry.
    pub fn new(decoder: D) -> (r: Entries<D>)
        ensures
            r.decoder() == decoder,
            r.state() == CursorState::Ready,
    {
        Entries { decoder, state: CursorState::Ready }
    }

    pub closed spec fn decoder(&self) -> D {
        self.decoder
    }

    pub closed spec fn state(&self) -> CursorState {
        self.state
    }

    /// Whether the cursor may not advance any more.
    pub open spec fn finished(&self) -> bool {
        self.state() == CursorState::Exhausted || self.state() == CursorState::Failed
    }

    /// Whether the cursor may not advance any more: the end of the archive
    /// was reached, or a failure was reported.
    pub fn is_finished(&self) -> (r: bool)
        ensures
            r == self.finished(),
    {
        match self.state {
            CursorState::Exhausted | CursorState::Failed => true,
            _ => false,
        }
    }

    /// The decoder that names are decoded with.
    pub fn name_decoder(&self) -> (r: D)
        ensures
            r == self.decoder(),
    {
        self.decoder
    }

    /// Takes the engine's reply to a header advance. The previous entry is
    /// gone: the new one, if any, replaces it.
    pub fn next(&mut self, reply: HeaderReply) -> (r: Option<Result<Entry, Error>>)
        requires
            !old(self).finished(),
        ensures
            r == header_outcome(reply),
            final(self).state() == state_after(reply),
            final(self).decoder() == old(self).decoder(),
    {
        let code = reply.status.code;
        if code == ARCHIVE_EOF {
            self.state = CursorState::Exhausted;
            return None;
        }
        if !(code == ARCHIVE_OK || code == ARCHIVE_WARN) {
            self.state = CursorState::Failed;
            return Some(Err(engine_failure(reply.status)));
        }
        self.state = CursorState::EntryAvailable;
        Some(Ok(Entry { pathname: reply.pathname }))
    }

    /// One step of the search for the entry named `file_name`: takes the
    /// engine's reply to a header advance and says whether to go on (`None`),
    /// or where the search ended.
    pub fn find_entry_by_name(&mut self, file_name: &String, reply: HeaderReply) -> (r: Option<Result<Entry, Error>>)
        requires
            !old(self).finished(),
        ensures
            r == seek_outcome(old(self).decoder(), file_name@, reply),
            final(self).state() == seek_state(old(self).decoder(), file_name@, reply),
            final(self).decoder() == old(self).decoder(),
    {
        match self.next(reply) {
            None => {
                Some(Err(path_does_not_exist()))
            },
            Some(Err(e)) => Some(Err(e)),
            Some(Ok(entry)) => match entry.file_name(&self.decoder) {
                Err(e) => {
                    self.state = CursorState::Failed;
                    Some(Err(e))
                },
                Ok(name) => if name == *file_name {
                    Some(Ok(entry))
                } else {
                    None
                },
            },
        }
    }
}

} // verus!

verus! {

/// The names of an archive's entries, decoded, in the archive's order.
pub struct EntryNames<D> {
    entries: Entries<D>,
}

impl<D: Decoder + Copy> EntryNames<D> {
    pub fn new(decoder: D) -> (r: EntryNames<D>)
        ensures
            r.decoder() == decoder,
            !r.finished(),
    {
        EntryNames { entries: Entries::new(decoder) }
    }

    pub closed spec fn decoder(&self) -> D {
        self.entries.decoder()
    }

    pub closed spec fn finished(&self) -> bool {
        self.entries.finished()
    }

    /// Whether no name follows: the archive ended or the engine failed.
    pub fn is_finished(&self) -> (r: bool)
        ensures
            r == self.finished(),
    {
        self.entries.is_finished()
    }

    /// Takes the engine's reply to a header advance and gives the new
    /// entry's decoded name, the failure, or `None` at the end of the archive.
    /// A name that cannot be decoded is an error, and the listing goes on.
    pub fn next(&mut self, reply: HeaderReply) -> (r: Option<Result<String, Error>>)
        requires
            !old(self).finished(),
        ensures
            final(self).decoder() == old(self).decoder(),
            final(self).finished() == (state_after(reply) != CursorState::EntryAvailable),
            listed_view(r) == listing_step(old(self).decoder(), reply),
    {
        match self.entries.next(reply) {
            None => None,
            Some(Err(e)) => Some(Err(e)),
            Some(Ok(entry)) => Some(entry.file_name(&self.entries.decoder)),
        }
    }
}

} // verus!
