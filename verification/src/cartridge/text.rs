//! Text on the wire: UTF-8 bytes of a known length.
use crate::cartridge::error::{agrees, fails_with, yields, CartridgeError, Fault};
use crate::cartridge::stream::{ByteStream, Decoded, StreamError};
use vstd::prelude::*;
use vstd::utf8::{decode_utf8, valid_utf8};

verus! {

/// `String::from_utf8`: succeeds exactly on bytes that are valid UTF-8, and
/// the string is then made of the characters that the bytes encode.
pub assume_specification[ String::from_utf8 ](vec: Vec<u8>) -> (r: Result<
    String,
    std::string::FromUtf8Error,
>)
    ensures
        r is Ok <==> valid_utf8(vec@),
        r matches Ok(text) ==> text@ == decode_utf8(vec@),
;

/// What reading a text of `count` bytes from `bytes` gives: the bytes are
/// read first and decoded as UTF-8 after.
pub open spec fn decode_text(bytes: Seq<u8>, count: nat) -> Decoded<Seq<char>, Fault> {
    if bytes.len() < count {
        Decoded { outcome: Err(Fault::Io(StreamError::UnexpectedEof)), used: bytes.len() }
    } else if !valid_utf8(bytes.subrange(0, count as int)) {
        Decoded { outcome: Err(Fault::FromUtf8), used: count }
    } else {
        Decoded { outcome: Ok(decode_utf8(bytes.subrange(0, count as int))), used: count }
    }
}

/// The text that `bytes` encode, or the error of bytes that are not UTF-8.
pub fn text_from_utf8(bytes: Vec<u8>) -> (r: Result<String, CartridgeError>)
    ensures
        valid_utf8(bytes@) ==> yields(r, decode_utf8(bytes@)),
        !valid_utf8(bytes@) ==> fails_with(r, Fault::FromUtf8),
{
    match String::from_utf8(bytes) {
        Ok(text) => Ok(text),
        Err(error) => Err(CartridgeError::FromUtf8(error)),
    }
}

/// Reads a text of `count` bytes from a stream.
pub fn read_text(reader: &mut ByteStream, count: usize) -> (r: Result<String, CartridgeError>)
    ensures
        final(reader)@ == old(reader)@.skipped(decode_text(old(reader)@.ahead, count as nat).used),
        agrees(r, decode_text(old(reader)@.ahead, count as nat).outcome),
{
    let raw = match reader.read_exact(count) {
        Ok(raw) => raw,
        Err(error) => {
            proof {
                crate::cartridge::stream::lemma_skipped_clamps(old(reader)@, count as nat);
            }
            return Err(CartridgeError::new_io(error));
        },
    };
    text_from_utf8(raw)
}

} // verus!
