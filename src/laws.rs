//! Facts about traversals that hold over whole runs of engine replies.
use vstd::prelude::*;

use crate::archive::Archive;
use crate::blocks::{block_outcome, concat, read_outcome, step_bytes, stream_blocks, stream_bytes, stream_ended};
use crate::decoder::Decoder;
use crate::engine::{BlockReply, EngineCall, HeaderReply, ARCHIVE_EOF};
use crate::entries::{header_outcome, listing, name_result, raw_name, seek_outcome, text_view, Entry};
use crate::error::{is_success, Error, IoErrorKind};

verus! {

/// Listing an archive yields one result per entry, in the order the engine
/// reports the entries, each the entry's decoded name, and nothing after the
/// end of the archive.
pub proof fn lemma_listing_in_archive_order<D: Decoder>(decoder: D, headers: Seq<HeaderReply>, end: HeaderReply)
    requires
        forall|i: int| 0 <= i < headers.len() ==> is_success(#[trigger] headers[i].status.code),
        end.status.code == ARCHIVE_EOF,
    ensures
        listing(decoder, headers.push(end)).len() == headers.len(),
        forall|i: int| 0 <= i < headers.len()
            ==> listing(decoder, headers.push(end))[i] == name_result(decoder, raw_name(#[trigger] headers[i].pathname)),
{
    assert(headers.push(end).drop_last() =~= headers);
    lemma_listing_of_entries(decoder, headers);
}

proof fn lemma_listing_of_entries<D: Decoder>(decoder: D, headers: Seq<HeaderReply>)
    requires
        forall|i: int| 0 <= i < headers.len() ==> is_success(#[trigger] headers[i].status.code),
    ensures
        listing(decoder, headers).len() == headers.len(),
        forall|i: int| 0 <= i < headers.len()
            ==> listing(decoder, headers)[i] == name_result(decoder, raw_name(#[trigger] headers[i].pathname)),
    decreases headers.len(),
{
    if headers.len() > 0 {
        let before = headers.drop_last();
        assert forall|i: int| 0 <= i < before.len() implies is_success(#[trigger] before[i].status.code) by {
            assert(before[i] == headers[i]);
        }
        lemma_listing_of_entries(decoder, before);
        assert(is_success(headers[headers.len() - 1].status.code));
        assert forall|i: int| 0 <= i < headers.len()
            implies listing(decoder, headers)[i] == name_result(decoder, raw_name(#[trigger] headers[i].pathname)) by {
            if i < before.len() {
                assert(before[i] == headers[i]);
            }
        }
    }
}

/// Streaming an entry block by block and reading it whole give the same
/// bytes: laid end to end, the blocks handed out over a run of replies are
/// exactly what the whole-entry read writes.
pub proof fn lemma_blocks_concatenate(replies: Seq<BlockReply>)
    ensures
        concat(stream_blocks(replies)) == stream_bytes(replies),
    decreases replies.len(),
{
    if replies.len() > 0 {
        let before = replies.drop_last();
        lemma_blocks_concatenate(before);
        if !(stream_ended(before) || crate::blocks::ends_stream(replies.last())) {
            let bs = stream_blocks(before).push(replies.last().data@);
            assert(bs.drop_last() =~= stream_blocks(before));
        }
    }
}

/// An entry whose first block read reports the end (an empty file or a
/// directory) yields zero bytes and no error.
pub proof fn lemma_empty_entry_reads_nothing(reply: BlockReply)
    requires
        reply.status.code == ARCHIVE_EOF,
    ensures
        read_outcome(0, reply) == Some(Ok::<usize, Error>(0)),
        step_bytes(Seq::empty(), reply) == Seq::<u8>::empty(),
        block_outcome(reply) == Ok::<Seq<u8>, Error>(Seq::empty()),
{
}

/// A search that reaches the end of the archive fails with `NotFound`.
pub proof fn lemma_missing_entry_is_not_found<D: Decoder>(decoder: D, target: Seq<char>, reply: HeaderReply)
    requires
        reply.status.code == ARCHIVE_EOF,
    ensures
        seek_outcome(decoder, target, reply) == Some(Err::<Entry, Error>(Error::Io(IoErrorKind::NotFound))),
{
}

/// Decoding an entry's name is a function of the decoder and the entry
/// alone: two reads through the same decoder agree.
pub proof fn lemma_file_name_deterministic<D: Decoder>(
    entry: Entry,
    decoder: D,
    first: Result<String, Error>,
    second: Result<String, Error>,
)
    requires
        text_view(first) == name_result(decoder, entry.raw_name()),
        text_view(second) == name_result(decoder, entry.raw_name()),
    ensures
        text_view(first) == text_view(second),
{
}

/// A failing block read surfaces the engine's error text verbatim (this is
/// how a missing, empty or wrong passphrase is reported).
pub proof fn lemma_block_failure_text_verbatim(reply: BlockReply, message: String)
    requires
        reply.status.code != ARCHIVE_EOF,
        !is_success(reply.status.code),
        reply.status.message == Some(message),
    ensures
        block_outcome(reply) == Err::<Seq<u8>, Error>(Error::Extraction(message)),
        read_outcome(0, reply) == Some(Err::<usize, Error>(Error::Extraction(message))),
{
}

/// A failing header advance (such as one over encrypted entry metadata)
/// surfaces the engine's error text verbatim instead of an entry.
pub proof fn lemma_header_failure_text_verbatim(reply: HeaderReply, message: String)
    requires
        reply.status.code != ARCHIVE_EOF,
        !is_success(reply.status.code),
        reply.status.message == Some(message),
    ensures
        header_outcome(reply) == Some(Err::<Entry, Error>(Error::Extraction(message))),
{
}

/// Passphrases are registered with the engine in the order they were added,
/// all of them before the file is opened.
pub proof fn lemma_passphrases_in_order<D: Decoder + Copy>(archive: Archive<D>, path_exists: bool, calls: Seq<EngineCall>)
    requires
        archive.plan(path_exists) == Ok::<Seq<EngineCall>, Error>(calls),
    ensures
        calls.len() == archive.passwords_view().len() + 4,
        forall|i: int| 0 <= i < archive.passwords_view().len()
            ==> calls[i + 3] == EngineCall::AddPassphrase(#[trigger] archive.passwords_view()[i]),
        calls[0] == EngineCall::SupportFilterAll,
        calls[1] == EngineCall::SupportFormatRaw,
        calls[2] == EngineCall::SupportFormatAll,
        calls.last() == EngineCall::OpenFilename(archive.path_string(), archive.block_size_value()),
{
}

} // verus!
