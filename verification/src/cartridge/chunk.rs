//! Chunk implementation and manipulation.
use crate::cartridge::endian::{read_u32, u32_bytes, u32_from_le, u32_to_le};
use crate::cartridge::error::{agrees, fails_with, reports, write_fault, CartridgeError, Fault};
use crate::cartridge::stream::{
    lemma_skipped_clamps, lemma_skipped_nothing, lemma_skipped_twice, lemma_written_twice,
    ByteStream, Decoded, StreamError,
};
use vstd::prelude::*;

verus! {

/// The size of a cover image in bytes.
pub const COVER_CHUNK_SIZE: usize = 245760;

/// The size of a font in bytes.
pub const FONT_CHUNK_SIZE: usize = 16384;

/// The largest size of a code chunk in bytes.
pub const CODE_CHUNK_MAX_SIZE: usize = 131072;

/// The largest size of a map chunk in bytes.
pub const MAP_CHUNK_MAX_SIZE: usize = 122880;

/// The size of a chunk header on the wire.
pub const CHUNK_HEADER_SIZE: usize = 5;

/// The Chunk type.
#[derive(Debug, Copy, Clone, PartialEq, Eq, Structural)]
pub enum ChunkType {
    /// The End of all chunk data.
    End,
    /// Cover data.
    Cover,
    /// Code data.
    Code,
    /// Font data.
    Font,
    /// Palette data.
    Palette,
    /// Map data.
    TileMap,
}

/// The payload lengths that a chunk type admits: the model of a `SizeRule`.
pub enum SizeLaw {
    /// One of the listed lengths.
    OneOf(Seq<usize>),
    /// Any length up to the maximum.
    AtMost(usize),
}

impl SizeLaw {
    /// Whether a payload of `len` bytes is legal.
    pub open spec fn admits(self, len: nat) -> bool {
        match self {
            SizeLaw::OneOf(sizes) => exists|i: int| 0 <= i < sizes.len() && sizes[i] == len,
            SizeLaw::AtMost(max) => len <= max,
        }
    }

    /// What is wrong with a payload of `len` bytes in a chunk of type
    /// `chunk_type`, if anything.
    pub open spec fn fault(self, chunk_type: ChunkType, len: nat) -> Option<Fault> {
        if self.admits(len) {
            None
        } else {
            match self {
                SizeLaw::OneOf(sizes) => Some(Fault::InvalidChunkSize(chunk_type, len, sizes)),
                SizeLaw::AtMost(max) => Some(Fault::InvalidChunkMaxSize(chunk_type, len, max as nat)),
            }
        }
    }
}

/// The payload lengths that a chunk type admits.
#[derive(Debug, PartialEq)]
pub enum SizeRule {
    /// One of the listed lengths.
    OneOf(Vec<usize>),
    /// Any length up to the maximum.
    AtMost(usize),
}

impl View for SizeRule {
    type V = SizeLaw;

    open spec fn view(&self) -> SizeLaw {
        match self {
            SizeRule::OneOf(sizes) => SizeLaw::OneOf(sizes@),
            SizeRule::AtMost(max) => SizeLaw::AtMost(*max),
        }
    }
}

impl SizeRule {
    /// Checks a payload of `len` bytes in a chunk of type `chunk_type`
    /// against the rule.
    pub fn check(self, chunk_type: ChunkType, len: usize) -> (r: Result<(), CartridgeError>)
        ensures
            reports(r, self@.fault(chunk_type, len as nat)),
    {
        match self {
            SizeRule::OneOf(sizes) => {
                let mut i: usize = 0;
                while i < sizes.len()
                    invariant
                        i <= sizes@.len(),
                        self@ == SizeLaw::OneOf(sizes@),
                        forall|j: int| 0 <= j < i ==> sizes@[j] != len,
                    decreases sizes@.len() - i,
                {
                    if sizes[i] == len {
                        assert(sizes@[i as int] == len);
                        return Ok(());
                    }
                    i = i + 1;
                }
                Err(CartridgeError::new_invalid_chunk_size(chunk_type, len, sizes))
            },
            SizeRule::AtMost(max) => {
                if len <= max {
                    Ok(())
                } else {
                    Err(CartridgeError::new_invalid_chunk_max_size(chunk_type, len, max))
                }
            },
        }
    }
}

impl ChunkType {
    /// The tag of the chunk type on the wire.
    pub open spec fn spec_tag(self) -> u8 {
        match self {
            ChunkType::End => 0,
            ChunkType::Cover => 1,
            ChunkType::Code => 2,
            ChunkType::Font => 3,
            ChunkType::Palette => 4,
            ChunkType::TileMap => 5,
        }
    }

    /// The chunk type that a tag stands for, if any.
    pub open spec fn from_tag(tag: u8) -> Option<ChunkType> {
        if tag == 0 {
            Some(ChunkType::End)
        } else if tag == 1 {
            Some(ChunkType::Cover)
        } else if tag == 2 {
            Some(ChunkType::Code)
        } else if tag == 3 {
            Some(ChunkType::Font)
        } else if tag == 4 {
            Some(ChunkType::Palette)
        } else if tag == 5 {
            Some(ChunkType::TileMap)
        } else {
            None
        }
    }

    /// The payload lengths that are legal for the chunk type.
    pub open spec fn size_law(self) -> SizeLaw {
        match self {
            ChunkType::End => SizeLaw::OneOf(seq![0usize]),
            ChunkType::Cover => SizeLaw::OneOf(seq![0usize, COVER_CHUNK_SIZE]),
            ChunkType::Code => SizeLaw::AtMost(CODE_CHUNK_MAX_SIZE),
            ChunkType::Font => SizeLaw::OneOf(seq![0usize, FONT_CHUNK_SIZE]),
            ChunkType::Palette => SizeLaw::OneOf(seq![0usize, 4usize, 8usize, 16usize]),
            ChunkType::TileMap => SizeLaw::AtMost(MAP_CHUNK_MAX_SIZE),
        }
    }

    /// Whether a payload of `len` bytes is legal for the chunk type.
    pub open spec fn admits(self, len: nat) -> bool {
        match self {
            ChunkType::End => len == 0,
            ChunkType::Cover => len == 0 || len == COVER_CHUNK_SIZE,
            ChunkType::Code => len <= CODE_CHUNK_MAX_SIZE,
            ChunkType::Font => len == 0 || len == FONT_CHUNK_SIZE,
            ChunkType::Palette => len == 0 || len == 4 || len == 8 || len == 16,
            ChunkType::TileMap => len <= MAP_CHUNK_MAX_SIZE,
        }
    }

    /// What is wrong with a payload of `len` bytes for the chunk type, if
    /// anything.
    pub open spec fn size_fault(self, len: nat) -> Option<Fault> {
        self.size_law().fault(self, len)
    }

    /// The size table says what `admits` says.
    pub proof fn lemma_size_law_admits(self, len: nat)
        ensures
            self.size_law().admits(len) == self.admits(len),
            self.size_fault(len) is None <==> self.admits(len),
    {
        match self.size_law() {
            SizeLaw::OneOf(sizes) => {
                if self.admits(len) {
                    assert(sizes[0] == len || (sizes.len() > 1 && sizes[1] == len) || (sizes.len()
                        > 2 && sizes[2] == len) || (sizes.len() > 3 && sizes[3] == len));
                }
            },
            SizeLaw::AtMost(_) => {},
        }
    }

    /// Maps a tag read from the wire to its chunk type.
    pub fn try_from(value: u8) -> (r: Result<ChunkType, CartridgeError>)
        ensures
            match ChunkType::from_tag(value) {
                Some(chunk_type) => r == Ok::<ChunkType, CartridgeError>(chunk_type),
                None => fails_with(r, Fault::InvalidChunkType(value)),
            },
    {
        match value {
            0 => Ok(ChunkType::End),
            1 => Ok(ChunkType::Cover),
            2 => Ok(ChunkType::Code),
            3 => Ok(ChunkType::Font),
            4 => Ok(ChunkType::Palette),
            5 => Ok(ChunkType::TileMap),
            _ => Err(CartridgeError::new_invalid_chunk_type(value)),
        }
    }

    /// Returns the tag of the chunk type on the wire.
    pub fn tag(self) -> (tag: u8)
        ensures
            tag == self.spec_tag(),
            ChunkType::from_tag(tag) == Some(self),
    {
        match self {
            ChunkType::End => 0,
            ChunkType::Cover => 1,
            ChunkType::Code => 2,
            ChunkType::Font => 3,
            ChunkType::Palette => 4,
            ChunkType::TileMap => 5,
        }
    }

    /// Returns the payload lengths that are legal for the chunk type: the
    /// one table that encoding and decoding both go by.
    pub fn size_rule(self) -> (rule: SizeRule)
        ensures
            rule@ == self.size_law(),
    {
        match self {
            ChunkType::End => {
                let sizes: Vec<usize> = vec![0usize];
                assert(sizes@ == seq![0usize]);
                SizeRule::OneOf(sizes)
            },
            ChunkType::Cover => {
                let sizes: Vec<usize> = vec![0usize, COVER_CHUNK_SIZE];
                assert(sizes@ == seq![0usize, COVER_CHUNK_SIZE]);
                SizeRule::OneOf(sizes)
            },
            ChunkType::Code => SizeRule::AtMost(CODE_CHUNK_MAX_SIZE),
            ChunkType::Font => {
                let sizes: Vec<usize> = vec![0usize, FONT_CHUNK_SIZE];
                assert(sizes@ == seq![0usize, FONT_CHUNK_SIZE]);
                SizeRule::OneOf(sizes)
            },
            ChunkType::Palette => {
                let sizes: Vec<usize> = vec![0usize, 4usize, 8usize, 16usize];
                assert(sizes@ == seq![0usize, 4usize, 8usize, 16usize]);
                SizeRule::OneOf(sizes)
            },
            ChunkType::TileMap => SizeRule::AtMost(MAP_CHUNK_MAX_SIZE),
        }
    }
}

/// The chunk header.
#[derive(Debug, Clone, Copy, PartialEq, Eq, Structural)]
pub struct ChunkHeader {
    /// The chunk type value.
    pub chunk_type: ChunkType,
    /// The chunk size.
    pub size: u32,
}

impl ChunkHeader {
    /// The five bytes of the header on the wire: the tag, then the size,
    /// little-endian.
    pub open spec fn image(self) -> Seq<u8> {
        seq![self.chunk_type.spec_tag()] + u32_to_le(self.size)
    }

    /// What reading a header from `bytes` gives. The tag is read and checked
    /// first, then the four bytes of the size; a read that finds too few
    /// bytes consumes what is left.
    pub open spec fn decode(bytes: Seq<u8>) -> Decoded<ChunkHeader, Fault> {
        if bytes.len() == 0 {
            Decoded { outcome: Err(Fault::Io(StreamError::UnexpectedEof)), used: 0 }
        } else {
            match ChunkType::from_tag(bytes[0]) {
                None => Decoded { outcome: Err(Fault::InvalidChunkType(bytes[0])), used: 1 },
                Some(chunk_type) => {
                    if bytes.len() < CHUNK_HEADER_SIZE {
                        Decoded {
                            outcome: Err(Fault::Io(StreamError::UnexpectedEof)),
                            used: bytes.len(),
                        }
                    } else {
                        Decoded {
                            outcome: Ok(
                                ChunkHeader {
                                    chunk_type,
                                    size: u32_from_le(bytes.subrange(1, 5)) as u32,
                                },
                            ),
                            used: CHUNK_HEADER_SIZE as nat,
                        }
                    }
                },
            }
        }
    }

    /// Creates a ChunkHeader with the type and data provided. A size that
    /// does not fit in 32 bits is cut down to its low 32 bits.
    pub fn new(chunk_type: ChunkType, size: usize) -> (header: Self)
        ensures
            header.chunk_type == chunk_type,
            header.size == size as u32,
    {
        Self { chunk_type, size: #[verifier::truncate] (size as u32) }
    }

    /// Creates a ChunkHeader from the data read from a stream.
    pub fn from_reader(reader: &mut ByteStream) -> (r: Result<ChunkHeader, CartridgeError>)
        ensures
            final(reader)@ == old(reader)@.skipped(ChunkHeader::decode(old(reader)@.ahead).used),
            match ChunkHeader::decode(old(reader)@.ahead).outcome {
                Ok(header) => r == Ok::<ChunkHeader, CartridgeError>(header),
                Err(fault) => fails_with(r, fault),
            },
    {
        let tag = match reader.read_u8() {
            Ok(tag) => tag,
            Err(error) => {
                proof {
                    lemma_skipped_nothing(old(reader)@);
                }
                return Err(CartridgeError::new_io(error));
            },
        };
        let chunk_type = match ChunkType::try_from(tag) {
            Ok(chunk_type) => chunk_type,
            Err(error) => {
                return Err(error);
            },
        };
        let raw = match reader.read_exact(4) {
            Ok(raw) => raw,
            Err(error) => {
                proof {
                    lemma_skipped_twice(old(reader)@, 1, 4);
                    lemma_skipped_clamps(old(reader)@, 5);
                }
                return Err(CartridgeError::new_io(error));
            },
        };
        let size = read_u32(raw.as_slice());
        proof {
            lemma_skipped_twice(old(reader)@, 1, 4);
            assert(raw@ == old(reader)@.ahead.subrange(1, 5));
        }
        Ok(ChunkHeader { chunk_type, size })
    }

    /// Saves the ChunkHeader data into a stream.
    pub fn save(&self, writer: &mut ByteStream) -> (r: Result<(), CartridgeError>)
        ensures
            final(writer)@ == old(writer)@.written(self.image()),
            reports(r, write_fault(old(writer)@, CHUNK_HEADER_SIZE as nat)),
    {
        let tag = self.chunk_type.tag();
        let size = u32_bytes(self.size);
        proof {
            lemma_written_twice(old(writer)@, seq![tag], size@);
        }
        match writer.write_u8(tag) {
            Ok(()) => {},
            Err(error) => {
                return Err(CartridgeError::new_io(error));
            },
        }
        match writer.write_all(size.as_slice()) {
            Ok(()) => Ok(()),
            Err(error) => Err(CartridgeError::new_io(error)),
        }
    }
}

impl Default for ChunkHeader {
    fn default() -> (header: Self)
        ensures
            header == (ChunkHeader { chunk_type: ChunkType::End, size: 0 }),
    {
        Self { chunk_type: ChunkType::End, size: 0 }
    }
}

/// The mathematical model of a chunk: its header and its payload.
pub struct ChunkView {
    /// The header.
    pub header: ChunkHeader,
    /// The payload.
    pub data: Seq<u8>,
}

impl ChunkView {
    /// The chunk of type `chunk_type` that carries `data`.
    pub open spec fn of(chunk_type: ChunkType, data: Seq<u8>) -> ChunkView {
        ChunkView { header: ChunkHeader { chunk_type, size: data.len() as u32 }, data }
    }

    /// What is wrong with the chunk, if anything: a header size that is not
    /// the payload length, or a payload length that the type does not admit.
    pub open spec fn fault(self) -> Option<Fault> {
        if self.header.size != self.data.len() as u32 {
            Some(
                Fault::MismatchedChunkSizes(
                    self.header.chunk_type,
                    self.header.size as nat,
                    self.data.len(),
                ),
            )
        } else {
            self.header.chunk_type.size_fault(self.data.len())
        }
    }

    /// The bytes of the chunk on the wire: the header, then the payload.
    pub open spec fn image(self) -> Seq<u8> {
        self.header.image() + self.data
    }

    /// What reading a chunk from `bytes` gives: the header, then as many
    /// payload bytes as it declares, then the check of the payload length
    /// against the type.
    pub open spec fn decode(bytes: Seq<u8>) -> Decoded<ChunkView, Fault> {
        let head = ChunkHeader::decode(bytes);
        match head.outcome {
            Err(fault) => Decoded { outcome: Err(fault), used: head.used },
            Ok(header) => {
                if bytes.len() - CHUNK_HEADER_SIZE < header.size {
                    Decoded {
                        outcome: Err(Fault::Io(StreamError::UnexpectedEof)),
                        used: bytes.len(),
                    }
                } else {
                    let end = CHUNK_HEADER_SIZE + header.size;
                    let chunk = ChunkView { header, data: bytes.subrange(5, end) };
                    match chunk.fault() {
                        Some(fault) => Decoded { outcome: Err(fault), used: end as nat },
                        None => Decoded { outcome: Ok(chunk), used: end as nat },
                    }
                }
            },
        }
    }
}

/// The data chunk.
#[derive(Debug, PartialEq)]
pub struct Chunk {
    /// The header.
    pub header: ChunkHeader,
    /// The payload.
    pub data: Vec<u8>,
}

impl View for Chunk {
    type V = ChunkView;

    open spec fn view(&self) -> ChunkView {
        ChunkView { header: self.header, data: self.data@ }
    }
}

impl Chunk {
    /// Creates a Chunk with the type and data provided.
    pub fn new(chunk_type: ChunkType, data: Vec<u8>) -> (chunk: Self)
        ensures
            chunk@ == ChunkView::of(chunk_type, data@),
    {
        let header = ChunkHeader::new(chunk_type, data.len());
        Self { header, data }
    }

    /// Returns the type of the chunk.
    pub fn chunk_type(&self) -> (chunk_type: ChunkType)
        ensures
            chunk_type == self@.header.chunk_type,
    {
        self.header.chunk_type
    }

    /// Returns the payload of the chunk.
    pub fn data(&self) -> (data: &Vec<u8>)
        ensures
            data@ == self@.data,
    {
        &self.data
    }

    /// Creates a Chunk from the data read from a stream.
    pub fn from_reader(reader: &mut ByteStream) -> (r: Result<Chunk, CartridgeError>)
        ensures
            final(reader)@ == old(reader)@.skipped(ChunkView::decode(old(reader)@.ahead).used),
            agrees(r, ChunkView::decode(old(reader)@.ahead).outcome),
    {
        let header = match ChunkHeader::from_reader(reader) {
            Ok(header) => header,
            Err(error) => {
                return Err(error);
            },
        };
        let data = match reader.read_exact(header.size as usize) {
            Ok(data) => data,
            Err(error) => {
                proof {
                    lemma_skipped_twice(old(reader)@, 5, header.size as nat);
                    lemma_skipped_clamps(old(reader)@, 5 + header.size as nat);
                }
                return Err(CartridgeError::new_io(error));
            },
        };
        proof {
            lemma_skipped_twice(old(reader)@, 5, header.size as nat);
            assert(data@ == old(reader)@.ahead.subrange(5, 5 + header.size));
        }
        let chunk = Chunk { header, data };
        match chunk.validate() {
            Ok(()) => Ok(chunk),
            Err(error) => Err(error),
        }
    }

    /// Saves the Chunk data into a stream. A chunk that is not valid is
    /// refused before any byte is written.
    pub fn save(&self, writer: &mut ByteStream) -> (r: Result<(), CartridgeError>)
        ensures
            match self@.fault() {
                Some(fault) => final(writer)@ == old(writer)@ && fails_with(r, fault),
                None => {
                    &&& final(writer)@ == old(writer)@.written(self@.image())
                    &&& reports(r, write_fault(old(writer)@, self@.image().len()))
                },
            },
    {
        match self.validate() {
            Ok(()) => {},
            Err(error) => {
                return Err(error);
            },
        }
        proof {
            lemma_written_twice(old(writer)@, self.header.image(), self.data@);
        }
        match self.header.save(writer) {
            Ok(()) => {},
            Err(error) => {
                return Err(error);
            },
        }
        match writer.write_all(self.data.as_slice()) {
            Ok(()) => Ok(()),
            Err(error) => Err(CartridgeError::new_io(error)),
        }
    }

    /// Checks the header size against the payload, then the payload length
    /// against the size table of the chunk type.
    pub fn validate(&self) -> (r: Result<(), CartridgeError>)
        ensures
            reports(r, self@.fault()),
    {
        if self.header.size != #[verifier::truncate] (self.data.len() as u32) {
            return Err(
                CartridgeError::new_mismatched_chunk_sizes(
                    self.header.chunk_type,
                    self.header.size as usize,
                    self.data.len(),
                ),
            );
        }
        self.header.chunk_type.size_rule().check(self.header.chunk_type, self.data.len())
    }
}

impl Default for Chunk {
    fn default() -> (chunk: Self)
        ensures
            chunk@ == ChunkView::of(ChunkType::End, Seq::<u8>::empty()),
    {
        let header = ChunkHeader::default();
        let data: Vec<u8> = Vec::new();
        Self { header, data }
    }
}

} // verus!
