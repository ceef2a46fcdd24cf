use vstd::prelude::*;
use vstd::utf8::encode_utf8;

use crate::decoder::{Decoder, Utf8};
use crate::engine::EngineCall;
use crate::entries::{EntryNames, Entries};
use crate::error::{Error, IoErrorKind};
use crate::lookup::{FileBlocks, FileRead};

verus! {

/// The size of one read request handed to the engine when none is configured.
pub const DEFAULT_BLOCK_SIZE: usize = 1048576;

/// Whether some text, encoded as UTF-8, holds a NUL byte: the engine takes
/// paths and passphrases as NUL-terminated strings, so such text cannot be
/// handed to it.
pub open spec fn holds_nul(s: Seq<char>) -> bool {
    encode_utf8(s).contains(0u8)
}

/// The setup calls that open an archive, in order: every filter and format
/// is enabled, each passphrase is registered in the order given, and only
/// then is the file opened.
pub open spec fn setup_calls(path: String, block_size: usize, passwords: Seq<String>) -> Seq<EngineCall> {
    seq![EngineCall::SupportFilterAll, EngineCall::SupportFormatRaw, EngineCall::SupportFormatAll]
        + passwords.map_values(|p: String| EngineCall::AddPassphrase(p))
        + seq![EngineCall::OpenFilename(path, block_size)]
}

fn text_holds_nul(s: &str) -> (r: bool)
    ensures
        r == holds_nul(s@),
{
    let bytes = s.as_bytes();
    let mut i: usize = 0;
    while i < bytes.len()
        invariant
            bytes@ == encode_utf8(s@),
            0 <= i <= bytes@.len(),
            forall|j: int| 0 <= j < i ==> bytes@[j] != 0u8,
        decreases bytes@.len() - i,
    {
        if bytes[i] == 0u8 {
            assert(bytes@[i as int] == 0u8);
            return true;
        }
        i = i + 1;
    }
    false
}

/// An archive file to be read, with how to read it: the size of each read
/// request, the passphrases to try on encrypted entries, and the decoder of
/// entry names. Nothing is checked until an operation is planned.
pub struct Archive<D> {
    block_size: usize,
    file_path: String,
    passwords: Vec<String>,
    decoder: D,
}

impl Archive<Utf8> {
    /// A configuration for the archive at `path`, with the default block size,
    /// no passphrase and strict UTF-8 names.
    pub fn open(path: &str) -> (r: Archive<Utf8>)
        ensures
            r.path_view() == path@,
            r.block_size_value() == DEFAULT_BLOCK_SIZE,
            r.passwords_view() == Seq::<String>::empty(),
            r.decoder_value() == Utf8,
    {
        Archive { block_size: DEFAULT_BLOCK_SIZE, file_path: path.to_owned(), passwords: Vec::new(), decoder: Utf8 }
    }
}

impl<D: Decoder + Copy> Archive<D> {
    pub open spec fn path_view(&self) -> Seq<char> {
        self.path_string()@
    }

    pub closed spec fn path_string(&self) -> String {
        self.file_path
    }

    pub closed spec fn block_size_value(&self) -> usize {
        self.block_size
    }

    pub closed spec fn passwords_view(&self) -> Seq<String> {
        self.passwords@
    }

    pub closed spec fn decoder_value(&self) -> D {
        self.decoder
    }

    /// Sets the size of each read request, in bytes.
    pub fn block_size(&mut self, block_size: usize) -> (r: &mut Self)
        ensures
            r.block_size_value() == block_size,
            r.path_view() == old(self).path_view(),
            r.passwords_view() == old(self).passwords_view(),
            r.decoder_value() == old(self).decoder_value(),
            *final(self) == *final(r),
    {
        self.block_size = block_size;
        self
    }

    /// Sets the size of each read request back to the default.
    pub fn reset_block_size(&mut self) -> (r: &mut Self)
        ensures
            r.block_size_value() == DEFAULT_BLOCK_SIZE,
            r.path_view() == old(self).path_view(),
            r.passwords_view() == old(self).passwords_view(),
            r.decoder_value() == old(self).decoder_value(),
            *final(self) == *final(r),
    {
        self.block_size(DEFAULT_BLOCK_SIZE)
    }

    /// Adds a passphrase to try on encrypted entries, after those already
    /// added: the engine tries them in this order.
    pub fn try_password(&mut self, password: &str) -> (r: &mut Self)
        ensures
            r.passwords_view().len() == old(self).passwords_view().len() + 1,
            r.passwords_view().drop_last() == old(self).passwords_view(),
            r.passwords_view().last()@ == password@,
            r.block_size_value() == old(self).block_size_value(),
            r.path_view() == old(self).path_view(),
            r.decoder_value() == old(self).decoder_value(),
            *final(self) == *final(r),
    {
        self.passwords.push(password.to_owned());
        proof {
            assert(self.passwords@.drop_last() =~= old(self).passwords@);
        }
        self
    }

    /// The same configuration with entry names decoded by `function`.
    pub fn decoder<E: Decoder + Copy>(self, function: E) -> (r: Archive<E>)
        ensures
            r.decoder_value() == function,
            r.block_size_value() == self.block_size_value(),
            r.path_view() == self.path_view(),
            r.passwords_view() == self.passwords_view(),
    {
        Archive { block_size: self.block_size, file_path: self.file_path, passwords: self.passwords, decoder: function }
    }

    /// The same configuration with the default decoder, strict UTF-8.
    pub fn reset_decoder(self) -> (r: Archive<Utf8>)
        ensures
            r.decoder_value() == Utf8,
            r.block_size_value() == self.block_size_value(),
            r.path_view() == self.path_view(),
            r.passwords_view() == self.passwords_view(),
    {
        self.decoder(Utf8)
    }

    /// The archive file's path.
    pub fn path(&self) -> (r: &str)
        ensures
            r@ == self.path_view(),
    {
        self.file_path.as_str()
    }

    /// What opening the archive gives: `NotFound` where the path does not
    /// exist, `PathEncoding` where it holds a NUL byte, an invalid input
    /// error where a passphrase does, else the engine's setup calls.
    pub open spec fn plan(&self, path_exists: bool) -> Result<Seq<EngineCall>, Error> {
        if !path_exists {
            Err(Error::Io(IoErrorKind::NotFound))
        } else if holds_nul(self.path_view()) {
            Err(Error::PathEncoding)
        } else if exists|i: int| 0 <= i < self.passwords_view().len() && holds_nul(#[trigger] self.passwords_view()[i]@) {
            Err(Error::Io(IoErrorKind::InvalidInput))
        } else {
            Ok(setup_calls(self.path_string(), self.block_size_value(), self.passwords_view()))
        }
    }

    /// The engine calls that open the archive, in order, or why it cannot be
    /// opened. `path_exists` says whether the archive's path exists.
    pub fn open_calls(&self, path_exists: bool) -> (r: Result<Vec<EngineCall>, Error>)
        ensures
            match r {
                Ok(calls) => self.plan(path_exists) == Ok::<Seq<EngineCall>, Error>(calls@),
                Err(e) => self.plan(path_exists) == Err::<Seq<EngineCall>, Error>(e),
            },
    {
        if !path_exists {
            return Err(Error::Io(IoErrorKind::NotFound));
        }
        if text_holds_nul(self.file_path.as_str()) {
            return Err(Error::PathEncoding);
        }
        let mut calls: Vec<EngineCall> = Vec::new();
        calls.push(EngineCall::SupportFilterAll);
        calls.push(EngineCall::SupportFormatRaw);
        calls.push(EngineCall::SupportFormatAll);
        let ghost head = calls@;
        let mut i: usize = 0;
        while i < self.passwords.len()
            invariant
                0 <= i <= self.passwords@.len(),
                path_exists,
                !holds_nul(self.file_path@),
                head == seq![EngineCall::SupportFilterAll, EngineCall::SupportFormatRaw, EngineCall::SupportFormatAll],
                calls@ == head + self.passwords@.subrange(0, i as int).map_values(|p: String| EngineCall::AddPassphrase(p)),
                forall|j: int| 0 <= j < i ==> !holds_nul(#[trigger] self.passwords@[j]@),
            decreases self.passwords@.len() - i,
        {
            let password = &self.passwords[i];
            if text_holds_nul(password.as_str()) {
                assert(holds_nul(self.passwords@[i as int]@));
                return Err(Error::Io(IoErrorKind::InvalidInput));
            }
            calls.push(EngineCall::AddPassphrase(password.clone()));
            proof {
                assert(self.passwords@.subrange(0, i + 1) =~= self.passwords@.subrange(0, i as int).push(self.passwords@[i as int]));
                assert(self.passwords@.subrange(0, i + 1).map_values(|p: String| EngineCall::AddPassphrase(p))
                    =~= self.passwords@.subrange(0, i as int).map_values(|p: String| EngineCall::AddPassphrase(p)).push(EngineCall::AddPassphrase(self.passwords@[i as int])));
            }
            i = i + 1;
        }
        calls.push(EngineCall::OpenFilename(self.file_path.clone(), self.block_size));
        proof {
            assert(self.passwords@.subrange(0, i as int) =~= self.passwords@);
            assert(calls@ =~= setup_calls(self.file_path, self.block_size, self.passwords@));
        }
        Ok(calls)
    }

    /// A cursor over the entries, from the first one on.
    pub fn entries(&self) -> (r: Entries<D>)
        ensures
            r.decoder() == self.decoder_value(),
            r.state() == crate::entries::CursorState::Ready,
    {
        Entries::new(self.decoder)
    }

    /// The names of the entries, decoded, in the archive's order.
    pub fn list_file_names(&self) -> (r: EntryNames<D>)
        ensures
            r.decoder() == self.decoder_value(),
            !r.finished(),
    {
        EntryNames::new(self.decoder)
    }

    /// The content, block by block, of the entry named `file_name`.
    pub fn read_file_by_block(&self, file_name: &str) -> (r: FileBlocks<D>)
        ensures
            r.wf(),
            r.decoder() == self.decoder_value(),
            r.target() == file_name@,
            r.seeking(),
    {
        FileBlocks::new(self.decoder, file_name)
    }

    /// The whole content of the entry named `file_name`, copied to an output.
    pub fn read_file(&self, file_name: &str) -> (r: FileRead<D>)
        ensures
            r.wf(),
            r.decoder() == self.decoder_value(),
            r.target() == file_name@,
            r.seeking(),
    {
        FileRead::new(self.decoder, file_name)
    }
}

} // verus!
