use vstd::prelude::*;

use crate::blocks::{block_outcome, bytes_content, ends_stream, read_outcome, step_bytes, stream_bytes, stream_ended, BlockReader, FileReader};
use crate::decoder::Decoder;
use crate::engine::{BlockReply, HeaderReply};
use crate::entries::{seek_outcome, Entries};
use crate::error::Error;

verus! {

/// The engine primitive that a traversal needs next.
#[derive(Debug, Clone, Copy, PartialEq, Eq)]
pub enum Request {
    /// Advance to the next entry header.
    NextHeader,
    /// Read the next content block of the current entry.
    ReadBlock,
}

/// Finds the entry named `target`, then hands out its content block by block.
/// Entries before it are skipped, and their content is lost: the engine reads
/// forward only.
pub struct FileBlocks<D> {
    entries: Entries<D>,
    target: String,
    blocks: Option<BlockReader>,
    failed: bool,
}

impl<D: Decoder + Copy> FileBlocks<D> {
    pub closed spec fn decoder(&self) -> D {
        self.entries.decoder()
    }

    pub closed spec fn target(&self) -> Seq<char> {
        self.target@
    }

    pub closed spec fn wf(&self) -> bool {
        &&& self.blocks is Some ==> self.blocks->0.wf()
        &&& (self.blocks is None && !self.failed) ==> !self.entries.finished()
    }

    /// Still looking for the entry.
    pub closed spec fn seeking(&self) -> bool {
        self.blocks is None && !self.failed
    }

    /// The block replies taken since the entry was found.
    pub closed spec fn log(&self) -> Seq<BlockReply> {
        match self.blocks {
            Some(b) => b.log(),
            None => Seq::empty(),
        }
    }

    /// The entry was found and its content has not ended.
    pub closed spec fn reading(&self) -> bool {
        self.blocks is Some && !stream_ended(self.log())
    }

    pub open spec fn request(&self) -> Option<Request> {
        if self.seeking() {
            Some(Request::NextHeader)
        } else if self.reading() {
            Some(Request::ReadBlock)
        } else {
            None
        }
    }

    pub fn new(decoder: D, file_name: &str) -> (r: FileBlocks<D>)
        ensures
            r.wf(),
            r.decoder() == decoder,
            r.target() == file_name@,
            r.seeking(),
    {
        FileBlocks { entries: Entries::new(decoder), target: file_name.to_owned(), blocks: None, failed: false }
    }

    /// The engine primitive to perform next, or `None` when done.
    pub fn next_request(&self) -> (r: Option<Request>)
        requires
            self.wf(),
        ensures
            r == self.request(),
    {
        match &self.blocks {
            None => if self.failed {
                None
            } else {
                Some(Request::NextHeader)
            },
            Some(b) => if b.is_ended() {
                None
            } else {
                Some(Request::ReadBlock)
            },
        }
    }

    /// Takes the engine's reply to a header advance while seeking. Returns
    /// the error that ends the search (`NotFound` at the end of the archive),
    /// else `None`: the search goes on, or the entry was found.
    pub fn on_header(&mut self, reply: HeaderReply) -> (r: Option<Error>)
        requires
            old(self).wf(),
            old(self).seeking(),
        ensures
            final(self).wf(),
            final(self).decoder() == old(self).decoder(),
            final(self).target() == old(self).target(),
            match seek_outcome(old(self).decoder(), old(self).target(), reply) {
                None => r is None && final(self).seeking(),
                Some(Ok(_)) => r is None && final(self).reading() && final(self).log() == Seq::<BlockReply>::empty(),
                Some(Err(e)) => r == Some(e) && final(self).request() is None,
            },
    {
        match self.entries.find_entry_by_name(&self.target, reply) {
            None => {
                assert(!self.entries.finished());
                None
            },
            Some(Ok(entry)) => {
                self.blocks = Some(entry.read_file_by_block());
                None
            },
            Some(Err(e)) => {
                self.failed = true;
                Some(e)
            },
        }
    }

    /// Takes the engine's reply to a block read of the found entry: the
    /// block, the failure, or `None` once the content has ended.
    pub fn on_block(&mut self, reply: BlockReply) -> (r: Option<Result<bytes::Bytes, Error>>)
        requires
            old(self).wf(),
            old(self).reading(),
        ensures
            final(self).wf(),
            final(self).decoder() == old(self).decoder(),
            final(self).target() == old(self).target(),
            final(self).log() == old(self).log().push(reply),
            final(self).request() == (if stream_ended(final(self).log()) {
                None
            } else {
                Some(Request::ReadBlock)
            }),
            match block_outcome(reply) {
                Err(e) => r == Some(Err::<bytes::Bytes, Error>(e)),
                Ok(b) => if ends_stream(reply) {
                    r is None
                } else {
                    r is Some && r->0 is Ok && bytes_content(r->0->Ok_0) == b
                },
            },
    {
        let mut blocks = self.blocks.take().unwrap();
        let r = blocks.next(reply);
        self.blocks = Some(blocks);
        r
    }
}

/// Finds the entry named `target`, then copies its whole content to an
/// output and counts the bytes. Nothing is written before the entry is found.
pub struct FileRead<D> {
    entries: Entries<D>,
    target: String,
    reader: Option<FileReader>,
    failed: bool,
}

impl<D: Decoder + Copy> FileRead<D> {
    pub closed spec fn decoder(&self) -> D {
        self.entries.decoder()
    }

    pub closed spec fn target(&self) -> Seq<char> {
        self.target@
    }

    pub closed spec fn wf(&self) -> bool {
        &&& self.reader is Some ==> self.reader->0.wf()
        &&& (self.reader is None && !self.failed) ==> !self.entries.finished()
    }

    pub closed spec fn seeking(&self) -> bool {
        self.reader is None && !self.failed
    }

    /// The block replies taken since the entry was found.
    pub closed spec fn log(&self) -> Seq<BlockReply> {
        match self.reader {
            Some(f) => f.log(),
            None => Seq::empty(),
        }
    }

    /// The number of bytes written so far.
    pub open spec fn written(&self) -> nat {
        stream_bytes(self.log()).len()
    }

    pub closed spec fn reading(&self) -> bool {
        self.reader is Some && !stream_ended(self.log())
    }

    pub open spec fn request(&self) -> Option<Request> {
        if self.seeking() {
            Some(Request::NextHeader)
        } else if self.reading() {
            Some(Request::ReadBlock)
        } else {
            None
        }
    }

    pub fn new(decoder: D, file_name: &str) -> (r: FileRead<D>)
        ensures
            r.wf(),
            r.decoder() == decoder,
            r.target() == file_name@,
            r.seeking(),
    {
        FileRead { entries: Entries::new(decoder), target: file_name.to_owned(), reader: None, failed: false }
    }

    /// The engine primitive to perform next, or `None` when done.
    pub fn next_request(&self) -> (r: Option<Request>)
        requires
            self.wf(),
        ensures
            r == self.request(),
    {
        match &self.reader {
            None => if self.failed {
                None
            } else {
                Some(Request::NextHeader)
            },
            Some(f) => if f.is_finished() {
                None
            } else {
                Some(Request::ReadBlock)
            },
        }
    }

    /// Takes the engine's reply to a header advance while seeking. Returns
    /// the error that ends the search (`NotFound` at the end of the archive),
    /// else `None`: the search goes on, or the entry was found.
    pub fn on_header(&mut self, reply: HeaderReply) -> (r: Option<Error>)
        requires
            old(self).wf(),
            old(self).seeking(),
        ensures
            final(self).wf(),
            final(self).decoder() == old(self).decoder(),
            final(self).target() == old(self).target(),
            match seek_outcome(old(self).decoder(), old(self).target(), reply) {
                None => r is None && final(self).seeking(),
                Some(Ok(_)) => r is None && final(self).reading() && final(self).log() == Seq::<BlockReply>::empty(),
                Some(Err(e)) => r == Some(e) && final(self).request() is None,
            },
    {
        match self.entries.find_entry_by_name(&self.target, reply) {
            None => None,
            Some(Ok(entry)) => {
                self.reader = Some(entry.read_file());
                None
            },
            Some(Err(e)) => {
                self.failed = true;
                Some(e)
            },
        }
    }

    /// Takes the engine's reply to a block read of the found entry and
    /// appends its data to `output`. Returns the total number of bytes
    /// written once the content ends, the failure, or `None` while more is
    /// to come.
    pub fn on_block(&mut self, reply: BlockReply, output: &mut Vec<u8>) -> (r: Option<Result<usize, Error>>)
        requires
            old(self).wf(),
            old(self).reading(),
            old(self).written() + reply.data@.len() <= usize::MAX,
        ensures
            final(self).wf(),
            final(self).decoder() == old(self).decoder(),
            final(self).target() == old(self).target(),
            final(self).log() == old(self).log().push(reply),
            final(self).request() == (if stream_ended(final(self).log()) {
                None
            } else {
                Some(Request::ReadBlock)
            }),
            final(output)@ == old(output)@ + step_bytes(old(self).log(), reply),
            r == read_outcome(old(self).written(), reply),
    {
        let mut reader = self.reader.take().unwrap();
        let r = reader.read(reply, output);
        self.reader = Some(reader);
        r
    }
}

} // verus!
