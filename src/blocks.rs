use vstd::prelude::*;

use crate::engine::{BlockReply, Status, ARCHIVE_EOF, ARCHIVE_OK, ARCHIVE_WARN};
use crate::error::{engine_failure, failure_of, is_success, Error};

verus! {

#[verifier::external_type_specification]
#[verifier::external_body]
pub struct ExBytes(bytes::Bytes);

/// The bytes that a `bytes::Bytes` holds.
pub uninterp spec fn bytes_content(b: bytes::Bytes) -> Seq<u8>;

/// Relies on `From<Vec<u8>> for bytes::Bytes`: the result holds the vector's
/// bytes, in order.
#[verifier::external_body]
fn to_bytes(v: Vec<u8>) -> (r: bytes::Bytes)
    ensures
        bytes_content(r) == v@,
{
    bytes::Bytes::from(v)
}

/// Whether a block reply ends the entry's content: the end of the entry, a
/// failure, or an empty block.
pub open spec fn ends_stream(reply: BlockReply) -> bool {
    reply.status.code == ARCHIVE_EOF || !is_success(reply.status.code) || reply.data@.len() == 0
}

/// What one block read yields from an entry that has not ended.
pub open spec fn block_outcome(reply: BlockReply) -> Result<Seq<u8>, Error> {
    if reply.status.code != ARCHIVE_EOF && !is_success(reply.status.code) {
        Err(failure_of(reply.status))
    } else if ends_stream(reply) {
        Ok(Seq::empty())
    } else {
        Ok(reply.data@)
    }
}

/// Whether some reply of the run ended the entry's content.
pub open spec fn stream_ended(replies: Seq<BlockReply>) -> bool
    decreases replies.len(),
{
    replies.len() > 0 && (stream_ended(replies.drop_last()) || ends_stream(replies.last()))
}

/// The bytes that the last reply of a run adds to what came before it.
pub open spec fn step_bytes(before: Seq<BlockReply>, reply: BlockReply) -> Seq<u8> {
    if stream_ended(before) || ends_stream(reply) {
        Seq::empty()
    } else {
        reply.data@
    }
}

/// The entry's content that a run of block replies delivers: the data of the
/// replies up to the first one that ends the content.
pub open spec fn stream_bytes(replies: Seq<BlockReply>) -> Seq<u8>
    decreases replies.len(),
{
    if replies.len() == 0 {
        Seq::empty()
    } else {
        stream_bytes(replies.drop_last()) + step_bytes(replies.drop_last(), replies.last())
    }
}

/// The blocks that a run of block replies delivers, one per reply that
/// carries content.
pub open spec fn stream_blocks(replies: Seq<BlockReply>) -> Seq<Seq<u8>>
    decreases replies.len(),
{
    if replies.len() == 0 {
        Seq::empty()
    } else if stream_ended(replies.drop_last()) || ends_stream(replies.last()) {
        stream_blocks(replies.drop_last())
    } else {
        stream_blocks(replies.drop_last()).push(replies.last().data@)
    }
}

/// The bytes of a sequence of blocks, laid end to end.
pub open spec fn concat(blocks: Seq<Seq<u8>>) -> Seq<u8>
    decreases blocks.len(),
{
    if blocks.len() == 0 {
        Seq::empty()
    } else {
        concat(blocks.drop_last()) + blocks.last()
    }
}

/// How each run function grows by one reply.
proof fn lemma_run_push(before: Seq<BlockReply>, reply: BlockReply)
    ensures
        stream_ended(before.push(reply)) == (stream_ended(before) || ends_stream(reply)),
        stream_bytes(before.push(reply)) == stream_bytes(before) + step_bytes(before, reply),
        stream_blocks(before.push(reply)) == if stream_ended(before) || ends_stream(reply) {
            stream_blocks(before)
        } else {
            stream_blocks(before).push(reply.data@)
        },
{
    assert(before.push(reply).drop_last() =~= before);
    assert(stream_bytes(Seq::<BlockReply>::empty()) == Seq::<u8>::empty());
}

/// The block cursor of one entry: hands out its content block by block, and
/// once the content has ended, hands out nothing more.
pub struct BlockReader {
    ended: bool,
    log: Ghost<Seq<BlockReply>>,
}

impl BlockReader {
    /// The block replies taken so far.
    pub closed spec fn log(&self) -> Seq<BlockReply> {
        self.log@
    }

    pub open spec fn ended(&self) -> bool {
        stream_ended(self.log())
    }

    /// The content handed out so far.
    pub open spec fn delivered(&self) -> Seq<u8> {
        stream_bytes(self.log())
    }

    pub closed spec fn wf(&self) -> bool {
        self.ended == stream_ended(self.log@)
    }

    /// A cursor at the start of an entry's content.
    pub fn new() -> (r: BlockReader)
        ensures
            r.wf(),
            r.log() == Seq::<BlockReply>::empty(),
            !r.ended(),
    {
        BlockReader { ended: false, log: Ghost(Seq::empty()) }
    }

    /// A cursor with nothing to read.
    pub fn empty() -> (r: BlockReader)
        ensures
            r.wf(),
            r.ended(),
            r.delivered() == Seq::<u8>::empty(),
    {
        let mut r = BlockReader::new();
        let _ = r.read_block(BlockReply { status: Status::eof(), data: Vec::new() });
        proof {
            lemma_run_push(Seq::empty(), r.log().last());
            assert(Seq::<BlockReply>::empty().push(r.log().last()) == r.log());
        }
        r
    }

    /// Whether the content has ended: the caller then asks the engine for no
    /// further block.
    pub fn is_ended(&self) -> (r: bool)
        requires
            self.wf(),
        ensures
            r == self.ended(),
    {
        self.ended
    }

    /// Takes the engine's reply to a block read. Once the content has ended
    /// the reply is not looked at and the block is empty; the end of the
    /// entry gives an empty block; a failure ends the content too.
    pub fn read_block(&mut self, reply: BlockReply) -> (r: Result<Vec<u8>, Error>)
        requires
            old(self).wf(),
        ensures
            final(self).wf(),
            final(self).log() == old(self).log().push(reply),
            old(self).ended() ==> r is Ok && r->Ok_0@.len() == 0,
            !old(self).ended() ==> match r {
                Ok(b) => block_outcome(reply) == Ok::<Seq<u8>, Error>(b@),
                Err(e) => block_outcome(reply) == Err::<Seq<u8>, Error>(e),
            },
    {
        proof {
            assert(self.log@.push(reply).drop_last() =~= self.log@);
        }
        self.log = Ghost(self.log@.push(reply));
        if self.ended {
            return Ok(Vec::new());
        }
        let code = reply.status.code;
        if code != ARCHIVE_EOF && !(code == ARCHIVE_OK || code == ARCHIVE_WARN) {
            self.ended = true;
            return Err(engine_failure(reply.status));
        }
        if code == ARCHIVE_EOF || reply.data.len() == 0 {
            self.ended = true;
            return Ok(Vec::new());
        }
        Ok(reply.data)
    }

    /// The block-iterator form of `read_block`: `None` once the content has
    /// ended, else the next block or the failure.
    pub fn next(&mut self, reply: BlockReply) -> (r: Option<Result<bytes::Bytes, Error>>)
        requires
            old(self).wf(),
        ensures
            final(self).wf(),
            final(self).log() == old(self).log().push(reply),
            old(self).ended() ==> r is None,
            !old(self).ended() ==> match block_outcome(reply) {
                Err(e) => r == Some(Err::<bytes::Bytes, Error>(e)),
                Ok(b) => if ends_stream(reply) {
                    r is None
                } else {
                    r is Some && r->0 is Ok && bytes_content(r->0->Ok_0) == b
                },
            },
    {
        match self.read_block(reply) {
            Err(e) => Some(Err(e)),
            Ok(block) => if block.len() == 0 {
                None
            } else {
                Some(Ok(to_bytes(block)))
            },
        }
    }
}

/// What one whole-entry read step returns, given how many bytes were written
/// before it: the total at the end of the content, the failure, or `None`
/// while more is to come.
pub open spec fn read_outcome(written: nat, reply: BlockReply) -> Option<Result<usize, Error>> {
    match block_outcome(reply) {
        Err(e) => Some(Err(e)),
        Ok(_) => if ends_stream(reply) {
            Some(Ok(written as usize))
        } else {
            None
        },
    }
}

/// Copies one entry's whole content to an output, block by block, and counts
/// the bytes written. A failure stops it; what was written stays written.
pub struct FileReader {
    blocks: BlockReader,
    written: usize,
}

impl FileReader {
    pub closed spec fn log(&self) -> Seq<BlockReply> {
        self.blocks.log()
    }

    pub open spec fn finished(&self) -> bool {
        stream_ended(self.log())
    }

    /// The number of bytes written so far.
    pub open spec fn written(&self) -> nat {
        stream_bytes(self.log()).len()
    }

    pub closed spec fn wf(&self) -> bool {
        self.blocks.wf() && self.written == stream_bytes(self.blocks.log()).len()
    }

    /// A reader at the start of an entry's content.
    pub fn new() -> (r: FileReader)
        ensures
            r.wf(),
            r.log() == Seq::<BlockReply>::empty(),
            !r.finished(),
            r.written() == 0,
    {
        FileReader { blocks: BlockReader::new(), written: 0 }
    }

    /// Whether the content has ended or failed.
    pub fn is_finished(&self) -> (r: bool)
        requires
            self.wf(),
        ensures
            r == self.finished(),
    {
        self.blocks.is_ended()
    }

    /// Takes the engine's reply to a block read and appends its data to
    /// `output`. Returns the total number of bytes written once the content
    /// ends, the failure if the engine failed, and `None` while more is to
    /// come.
    pub fn read(&mut self, reply: BlockReply, output: &mut Vec<u8>) -> (r: Option<Result<usize, Error>>)
        requires
            old(self).wf(),
            !old(self).finished(),
            old(self).written() + reply.data@.len() <= usize::MAX,
        ensures
            final(self).wf(),
            final(self).log() == old(self).log().push(reply),
            final(output)@ == old(output)@ + step_bytes(old(self).log(), reply),
            r == read_outcome(old(self).written(), reply),
    {
        let ghost before = self.blocks.log();
        let len = reply.data.len();
        proof {
            assert(before.push(reply).drop_last() =~= before);
        }
        match self.blocks.read_block(reply) {
            Err(e) => {
                assert(step_bytes(before, reply) =~= Seq::<u8>::empty());
                Some(Err(e))
            },
            Ok(mut block) => if block.len() == 0 {
                assert(step_bytes(before, reply) =~= Seq::<u8>::empty());
                Some(Ok(self.written))
            } else {
                output.append(&mut block);
                self.written = self.written + len;
                None
            },
        }
    }
}

} // verus!
