use vstd::prelude::*;
use vstd::utf8::{decode_utf8, valid_utf8};

verus! {

/// Turns the raw bytes of an entry name into text, or refuses them.
///
/// A decoder is a function of the bytes alone: `decoded` says what it gives.
pub trait Decoder {
    spec fn decoded(&self, bytes: Seq<u8>) -> Option<Seq<char>>;

    fn decode(&self, bytes: &[u8]) -> (r: Option<String>)
        ensures
            r is Some <==> self.decoded(bytes@) is Some,
            r is Some ==> r->0@ == self.decoded(bytes@)->0,
    ;
}

/// Strict UTF-8: bytes that are not valid UTF-8 are refused.
#[derive(Debug, Clone, Copy, PartialEq, Eq)]
pub struct Utf8;

/// Lossy UTF-8: invalid sequences become U+FFFD; nothing is refused.
#[derive(Debug, Clone, Copy, PartialEq, Eq)]
pub struct Utf8Lossy;

/// The text that lossy UTF-8 decoding gives for some bytes.
pub uninterp spec fn lossy_utf8(bytes: Seq<u8>) -> Seq<char>;

/// Relies on std::str::from_utf8: it accepts exactly the valid UTF-8 byte
/// strings, and the text it gives is what they encode.
#[verifier::external_body]
fn strict_utf8(bytes: &[u8]) -> (r: Option<String>)
    ensures
        r is Some <==> valid_utf8(bytes@),
        r is Some ==> r->0@ == decode_utf8(bytes@),
{
    std::str::from_utf8(bytes).ok().map(String::from)
}

/// Relies on String::from_utf8_lossy: valid UTF-8 decodes as itself.
#[verifier::external_body]
fn utf8_lossy(bytes: &[u8]) -> (r: String)
    ensures
        r@ == lossy_utf8(bytes@),
        valid_utf8(bytes@) ==> r@ == decode_utf8(bytes@),
{
    String::from_utf8_lossy(bytes).into_owned()
}

impl Decoder for Utf8 {
    open spec fn decoded(&self, bytes: Seq<u8>) -> Option<Seq<char>> {
        if valid_utf8(bytes) {
            Some(decode_utf8(bytes))
        } else {
            None
        }
    }

    fn decode(&self, bytes: &[u8]) -> (r: Option<String>) {
        strict_utf8(bytes)
    }
}

impl Decoder for Utf8Lossy {
    open spec fn decoded(&self, bytes: Seq<u8>) -> Option<Seq<char>> {
        Some(lossy_utf8(bytes))
    }

    fn decode(&self, bytes: &[u8]) -> (r: Option<String>) {
        Some(utf8_lossy(bytes))
    }
}

} // verus!
