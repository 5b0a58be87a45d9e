//! The fixed-size header at the start of a cartridge.
use crate::cartridge::endian::{read_u16, u16_bytes, u16_from_le, u16_to_le};
use crate::cartridge::error::{fails_with, reports, write_fault, CartridgeError, Fault};
use crate::cartridge::stream::{
    lemma_skipped_clamps, lemma_skipped_nothing, lemma_skipped_twice, lemma_written_twice,
    ByteStream, Decoded, StreamError,
};
use vstd::prelude::*;

verus! {

/// The default cartridge file version.
pub const DEFAULT_CART_FILE_VERSION: u8 = 1;

/// The default name size.
pub const DEFAULT_NAME_SIZE: u8 = 64;

/// The default description size.
pub const DEFAULT_DESC_SIZE: u16 = 512;

/// The default author name size.
pub const DEFAULT_AUTHOR_SIZE: u8 = 64;

/// The size of a cartridge header on the wire.
pub const CARTRIDGE_HEADER_SIZE: usize = 5;

/// The cartridge header.
#[derive(Debug, Clone, Copy, PartialEq, Eq, Structural)]
pub struct CartridgeHeader {
    /// The version of the container format.
    pub cart_version: u8,
    /// The length of the name in bytes.
    pub name_size: u8,
    /// The length of the description in bytes.
    pub desc_size: u16,
    /// The length of the author name in bytes.
    pub author_size: u8,
}

impl CartridgeHeader {
    /// The five bytes of the header on the wire, in the order of the fields,
    /// the description size little-endian.
    pub open spec fn image(self) -> Seq<u8> {
        seq![self.cart_version, self.name_size] + u16_to_le(self.desc_size) + seq![self.author_size]
    }

    /// What reading a header from `bytes` gives: the header made of the
    /// first five bytes, or the failure of a stream that ends before.
    pub open spec fn decode(bytes: Seq<u8>) -> Decoded<CartridgeHeader, Fault> {
        if bytes.len() < CARTRIDGE_HEADER_SIZE {
            Decoded { outcome: Err(Fault::Io(StreamError::UnexpectedEof)), used: bytes.len() }
        } else {
            Decoded {
                outcome: Ok(
                    CartridgeHeader {
                        cart_version: bytes[0],
                        name_size: bytes[1],
                        desc_size: u16_from_le(bytes.subrange(2, 4)) as u16,
                        author_size: bytes[4],
                    },
                ),
                used: CARTRIDGE_HEADER_SIZE as nat,
            }
        }
    }

    /// Creates a CartridgeHeader from the data read from a stream.
    pub fn from_reader(reader: &mut ByteStream) -> (r: Result<CartridgeHeader, CartridgeError>)
        ensures
            final(reader)@ == old(reader)@.skipped(
                CartridgeHeader::decode(old(reader)@.ahead).used,
            ),
            match CartridgeHeader::decode(old(reader)@.ahead).outcome {
                Ok(header) => r == Ok::<CartridgeHeader, CartridgeError>(header),
                Err(fault) => fails_with(r, fault),
            },
    {
        proof {
            lemma_skipped_nothing(old(reader)@);
            lemma_skipped_twice(old(reader)@, 1, 1);
            lemma_skipped_twice(old(reader)@, 2, 2);
            lemma_skipped_twice(old(reader)@, 4, 1);
            lemma_skipped_clamps(old(reader)@, 1);
            lemma_skipped_clamps(old(reader)@, 2);
            lemma_skipped_clamps(old(reader)@, 4);
            lemma_skipped_clamps(old(reader)@, 5);
        }
        let cart_version = match reader.read_u8() {
            Ok(byte) => byte,
            Err(error) => {
                return Err(CartridgeError::new_io(error));
            },
        };
        let name_size = match reader.read_u8() {
            Ok(byte) => byte,
            Err(error) => {
                return Err(CartridgeError::new_io(error));
            },
        };
        let raw = match reader.read_exact(2) {
            Ok(raw) => raw,
            Err(error) => {
                return Err(CartridgeError::new_io(error));
            },
        };
        let desc_size = read_u16(raw.as_slice());
        assert(raw@ == old(reader)@.ahead.subrange(2, 4));
        let author_size = match reader.read_u8() {
            Ok(byte) => byte,
            Err(error) => {
                return Err(CartridgeError::new_io(error));
            },
        };
        Ok(CartridgeHeader { cart_version, name_size, desc_size, author_size })
    }

    /// Saves the CartridgeHeader data into a stream.
    pub fn save(&self, writer: &mut ByteStream) -> (r: Result<(), CartridgeError>)
        ensures
            final(writer)@ == old(writer)@.written(self.image()),
            reports(r, write_fault(old(writer)@, CARTRIDGE_HEADER_SIZE as nat)),
    {
        let desc = u16_bytes(self.desc_size);
        proof {
            let a = seq![self.cart_version];
            let b = seq![self.name_size];
            let d = seq![self.author_size];
            lemma_written_twice(old(writer)@, a, b);
            lemma_written_twice(old(writer)@, a + b, desc@);
            lemma_written_twice(old(writer)@, a + b + desc@, d);
            assert(a + b == seq![self.cart_version, self.name_size]);
        }
        match writer.write_u8(self.cart_version) {
            Ok(()) => {},
            Err(error) => {
                return Err(CartridgeError::new_io(error));
            },
        }
        match writer.write_u8(self.name_size) {
            Ok(()) => {},
            Err(error) => {
                return Err(CartridgeError::new_io(error));
            },
        }
        match writer.write_all(desc.as_slice()) {
            Ok(()) => {},
            Err(error) => {
                return Err(CartridgeError::new_io(error));
            },
        }
        match writer.write_u8(self.author_size) {
            Ok(()) => Ok(()),
            Err(error) => Err(CartridgeError::new_io(error)),
        }
    }
}

impl Default for CartridgeHeader {
    fn default() -> (header: Self)
        ensures
            header == (CartridgeHeader {
                cart_version: DEFAULT_CART_FILE_VERSION,
                name_size: DEFAULT_NAME_SIZE,
                desc_size: DEFAULT_DESC_SIZE,
                author_size: DEFAULT_AUTHOR_SIZE,
            }),
    {
        Self {
            cart_version: DEFAULT_CART_FILE_VERSION,
            name_size: DEFAULT_NAME_SIZE,
            desc_size: DEFAULT_DESC_SIZE,
            author_size: DEFAULT_AUTHOR_SIZE,
        }
    }
}

} // verus!
