//! Cartridge utilities.
pub mod chunk;
pub mod emit;
pub mod endian;
pub mod error;
pub mod header;
pub mod laws;
pub mod stream;
pub mod text;

pub use crate::cartridge::chunk::{Chunk, ChunkHeader, ChunkType, ChunkView};
pub use crate::cartridge::emit::Emitted;
pub use crate::cartridge::error::{CartridgeError, Fault};
pub use crate::cartridge::header::CartridgeHeader;
pub use crate::cartridge::stream::{ByteStream, Decoded, StreamError, StreamView};

use crate::cartridge::emit::{lemma_leads_to_earlier, lemma_leads_to_itself, lemma_save_step};
use crate::cartridge::error::{agrees, fails_with, reports};
use crate::cartridge::header::DEFAULT_CART_FILE_VERSION;
use crate::cartridge::stream::{lemma_skipped_nothing, lemma_skipped_twice, lemma_written_nothing};
use crate::cartridge::text::{decode_text, read_text, text_from_utf8};
use vstd::prelude::*;
use vstd::slice::slice_to_vec;
use vstd::utf8::{decode_utf8, encode_utf8, valid_utf8};

verus! {

/// The default game version.
pub const DEFAULT_VERSION: u8 = 1;

/// The mathematical model of a cartridge: its texts as characters and its
/// assets as bytes.
pub struct CartridgeView {
    /// The version of the game.
    pub version: u8,
    /// The name of the game.
    pub name: Seq<char>,
    /// The description of the game.
    pub desc: Seq<char>,
    /// The name of the author.
    pub author: Seq<char>,
    /// The cover image.
    pub cover: Seq<u8>,
    /// The font.
    pub font: Seq<u8>,
    /// The palette.
    pub palette: Seq<u8>,
    /// The tile map.
    pub map: Seq<u8>,
    /// The program text.
    pub code: Seq<char>,
}

impl CartridgeView {
    /// The cartridge with the given version and texts and no asset.
    pub open spec fn bare(
        version: u8,
        name: Seq<char>,
        desc: Seq<char>,
        author: Seq<char>,
    ) -> CartridgeView {
        CartridgeView {
            version,
            name,
            desc,
            author,
            cover: Seq::<u8>::empty(),
            font: Seq::<u8>::empty(),
            palette: Seq::<u8>::empty(),
            map: Seq::<u8>::empty(),
            code: Seq::<char>::empty(),
        }
    }

    /// Whether the fields have sizes that the format can hold: texts whose
    /// UTF-8 lengths fit their size fields, and assets of a length that
    /// their chunk types admit.
    pub open spec fn wf(self) -> bool {
        &&& encode_utf8(self.name).len() <= u8::MAX
        &&& encode_utf8(self.desc).len() <= u16::MAX
        &&& encode_utf8(self.author).len() <= u8::MAX
        &&& ChunkType::Cover.admits(self.cover.len())
        &&& ChunkType::Code.admits(encode_utf8(self.code).len())
        &&& ChunkType::Font.admits(self.font.len())
        &&& ChunkType::Palette.admits(self.palette.len())
        &&& ChunkType::TileMap.admits(self.map.len())
    }

    /// The header that a save writes: the version of the format and the
    /// UTF-8 lengths of the texts, each cut down to the width of its field.
    pub open spec fn header(self) -> CartridgeHeader {
        CartridgeHeader {
            cart_version: DEFAULT_CART_FILE_VERSION,
            name_size: encode_utf8(self.name).len() as u8,
            desc_size: encode_utf8(self.desc).len() as u16,
            author_size: encode_utf8(self.author).len() as u8,
        }
    }

    /// The bytes before the chunks: the header, the game version, and the
    /// texts as UTF-8.
    pub open spec fn preamble(self) -> Seq<u8> {
        self.header().image() + seq![self.version] + encode_utf8(self.name) + encode_utf8(
            self.desc,
        ) + encode_utf8(self.author)
    }

    /// What a save emits: the preamble, a chunk for each field that is not
    /// empty, in the order cover, code, font, palette, map, and the end
    /// chunk. A field of a length that its chunk type does not admit stops
    /// the save before its chunk.
    pub open spec fn emitted(self) -> Emitted {
        Emitted::of(self.preamble()).followed_by(Emitted::field(ChunkType::Cover, self.cover)).followed_by(
            Emitted::field(ChunkType::Code, encode_utf8(self.code)),
        ).followed_by(Emitted::field(ChunkType::Font, self.font)).followed_by(
            Emitted::field(ChunkType::Palette, self.palette),
        ).followed_by(Emitted::field(ChunkType::TileMap, self.map)).followed_by(
            Emitted::of(ChunkView::of(ChunkType::End, Seq::<u8>::empty()).image()),
        )
    }

    /// The bytes of the cartridge on the wire.
    pub open spec fn image(self) -> Seq<u8> {
        self.emitted().bytes
    }

    /// The cartridge after a chunk read from the wire was put into the field
    /// of its type, replacing what the field held. A code chunk must hold
    /// UTF-8.
    pub open spec fn with_chunk(self, chunk: ChunkView) -> Result<
        CartridgeView,
        Fault,
    > {
        match chunk.header.chunk_type {
            ChunkType::End => Ok(self),
            ChunkType::Cover => Ok(CartridgeView { cover: chunk.data, ..self }),
            ChunkType::Code => if valid_utf8(chunk.data) {
                Ok(CartridgeView { code: decode_utf8(chunk.data), ..self })
            } else {
                Err(Fault::FromUtf8)
            },
            ChunkType::Font => Ok(CartridgeView { font: chunk.data, ..self }),
            ChunkType::Palette => Ok(CartridgeView { palette: chunk.data, ..self }),
            ChunkType::TileMap => Ok(CartridgeView { map: chunk.data, ..self }),
        }
    }

    /// What reading chunks from `bytes` into `self` gives: each chunk goes
    /// into its field, until the end chunk. Nothing after the end chunk is
    /// read.
    pub open spec fn decode_chunks(self, bytes: Seq<u8>) -> Decoded<CartridgeView, Fault>
        decreases bytes.len(),
    {
        let next = ChunkView::decode(bytes);
        match next.outcome {
            Err(fault) => Decoded { outcome: Err(fault), used: next.used },
            Ok(chunk) => {
                if chunk.header.chunk_type == ChunkType::End {
                    Decoded { outcome: Ok(self), used: next.used }
                } else {
                    match self.with_chunk(chunk) {
                        Err(fault) => Decoded { outcome: Err(fault), used: next.used },
                        Ok(cart) => cart.decode_chunks(bytes.skip(next.used as int)).after(
                            next.used,
                        ),
                    }
                }
            },
        }
    }

    /// What reading a cartridge from `bytes` gives: the header, the game
    /// version, the three texts with the lengths that the header declares,
    /// then the chunks.
    pub open spec fn decode(bytes: Seq<u8>) -> Decoded<CartridgeView, Fault> {
        let head = CartridgeHeader::decode(bytes);
        match head.outcome {
            Err(fault) => Decoded { outcome: Err(fault), used: head.used },
            Ok(header) => {
                if bytes.len() < 6 {
                    Decoded { outcome: Err(Fault::Io(StreamError::UnexpectedEof)), used: 5 }
                } else {
                    let name = decode_text(bytes.skip(6), header.name_size as nat).after(6);
                    match name.outcome {
                        Err(fault) => Decoded { outcome: Err(fault), used: name.used },
                        Ok(name_text) => {
                            let desc = decode_text(
                                bytes.skip(name.used as int),
                                header.desc_size as nat,
                            ).after(name.used);
                            match desc.outcome {
                                Err(fault) => Decoded { outcome: Err(fault), used: desc.used },
                                Ok(desc_text) => {
                                    let author = decode_text(
                                        bytes.skip(desc.used as int),
                                        header.author_size as nat,
                                    ).after(desc.used);
                                    match author.outcome {
                                        Err(fault) => Decoded {
                                            outcome: Err(fault),
                                            used: author.used,
                                        },
                                        Ok(author_text) => CartridgeView::bare(
                                            bytes[5],
                                            name_text,
                                            desc_text,
                                            author_text,
                                        ).decode_chunks(bytes.skip(author.used as int)).after(
                                            author.used,
                                        ),
                                    }
                                },
                            }
                        },
                    }
                }
            },
        }
    }
}

/// The cartridge data.
#[derive(Debug, Clone, PartialEq)]
pub struct Cartridge {
    /// The version of the game.
    pub version: u8,
    /// The name of the game.
    pub name: String,
    /// The description of the game.
    pub desc: String,
    /// The name of the author.
    pub author: String,
    /// The cover image.
    pub cover: Vec<u8>,
    /// The font.
    pub font: Vec<u8>,
    /// The palette.
    pub palette: Vec<u8>,
    /// The tile map.
    pub map: Vec<u8>,
    /// The program text.
    pub code: String,
}

impl View for Cartridge {
    type V = CartridgeView;

    open spec fn view(&self) -> CartridgeView {
        CartridgeView {
            version: self.version,
            name: self.name@,
            desc: self.desc@,
            author: self.author@,
            cover: self.cover@,
            font: self.font@,
            palette: self.palette@,
            map: self.map@,
            code: self.code@,
        }
    }
}

/// Saves one optional field into a stream: nothing where it is empty, else
/// the chunk of type `chunk_type` that carries it.
fn save_field(chunk_type: ChunkType, data: Vec<u8>, writer: &mut ByteStream) -> (r: Result<
    (),
    CartridgeError,
>)
    ensures
        final(writer)@ == old(writer)@.written(Emitted::field(chunk_type, data@).bytes),
        reports(r, Emitted::field(chunk_type, data@).outcome(old(writer)@)),
{
    if data.len() == 0 {
        proof {
            lemma_written_nothing(old(writer)@);
        }
        return Ok(());
    }
    let chunk = Chunk::new(chunk_type, data);
    proof {
        lemma_written_nothing(old(writer)@);
    }
    chunk.save(writer)
}

/// Puts a chunk read from the wire into the field of its type.
fn store_chunk(cart: &mut Cartridge, chunk: Chunk) -> (r: Result<(), CartridgeError>)
    ensures
        match old(cart)@.with_chunk(chunk@) {
            Ok(updated) => r is Ok && final(cart)@ == updated,
            Err(fault) => fails_with(r, fault) && final(cart)@ == old(cart)@,
        },
{
    match chunk.header.chunk_type {
        ChunkType::End => {},
        ChunkType::Cover => {
            cart.cover = chunk.data;
        },
        ChunkType::Code => {
            cart.code = match text_from_utf8(chunk.data) {
                Ok(code) => code,
                Err(error) => {
                    return Err(error);
                },
            };
        },
        ChunkType::Font => {
            cart.font = chunk.data;
        },
        ChunkType::Palette => {
            cart.palette = chunk.data;
        },
        ChunkType::TileMap => {
            cart.map = chunk.data;
        },
    }
    Ok(())
}

/// Reads chunks from a stream into `cart` until the end chunk.
fn read_chunks(reader: &mut ByteStream, cart: Cartridge) -> (r: Result<Cartridge, CartridgeError>)
    ensures
        final(reader)@ == old(reader)@.skipped(cart@.decode_chunks(old(reader)@.ahead).used),
        agrees(r, cart@.decode_chunks(old(reader)@.ahead).outcome),
{
    let ghost first = cart@;
    let ghost all = old(reader)@.ahead;
    let ghost mut done: nat = 0;
    let mut current = cart;
    proof {
        lemma_skipped_nothing(old(reader)@);
        assert(all.skip(0) == all);
    }
    loop
        invariant
            all == old(reader)@.ahead,
            first == cart@,
            done <= all.len(),
            reader@ == old(reader)@.skipped(done),
            first.decode_chunks(all) == current@.decode_chunks(all.skip(done as int)).after(done),
        decreases all.len() - done,
    {
        let ghost ahead = reader@.ahead;
        let ghost before = current@;
        let ghost next = ChunkView::decode(ahead);
        proof {
            assert(ahead == all.skip(done as int));
            lemma_skipped_twice(old(reader)@, done, next.used);
        }
        let chunk = match Chunk::from_reader(reader) {
            Ok(chunk) => chunk,
            Err(error) => {
                return Err(error);
            },
        };
        if chunk.header.chunk_type == ChunkType::End {
            return Ok(current);
        }
        match store_chunk(&mut current, chunk) {
            Ok(()) => {},
            Err(error) => {
                return Err(error);
            },
        }
        proof {
            assert(ahead.skip(next.used as int) == all.skip((done + next.used) as int));
            assert(before.decode_chunks(ahead) == current@.decode_chunks(
                ahead.skip(next.used as int),
            ).after(next.used));
            done = done + next.used;
        }
    }
}

impl Cartridge {
    /// Creates a Cartridge from the data read from a stream.
    pub fn from_reader(reader: &mut ByteStream) -> (r: Result<Cartridge, CartridgeError>)
        ensures
            final(reader)@ == old(reader)@.skipped(CartridgeView::decode(old(reader)@.ahead).used),
            agrees(r, CartridgeView::decode(old(reader)@.ahead).outcome),
    {
        let ghost all = old(reader)@.ahead;
        let header = match CartridgeHeader::from_reader(reader) {
            Ok(header) => header,
            Err(error) => {
                return Err(error);
            },
        };
        let version = match reader.read_u8() {
            Ok(version) => version,
            Err(error) => {
                proof {
                    lemma_skipped_twice(old(reader)@, 5, 1);
                }
                return Err(CartridgeError::new_io(error));
            },
        };
        proof {
            lemma_skipped_twice(old(reader)@, 5, 1);
            assert(reader@.ahead == all.skip(6));
        }
        let ghost name_read = decode_text(all.skip(6), header.name_size as nat).after(6);
        proof {
            lemma_skipped_twice(old(reader)@, 6, (name_read.used - 6) as nat);
        }
        let name = match read_text(reader, header.name_size as usize) {
            Ok(name) => name,
            Err(error) => {
                return Err(error);
            },
        };
        let ghost desc_read = decode_text(all.skip(name_read.used as int), header.desc_size as nat).after(
            name_read.used,
        );
        proof {
            assert(reader@.ahead == all.skip(name_read.used as int));
            lemma_skipped_twice(old(reader)@, name_read.used, (desc_read.used - name_read.used) as nat);
        }
        let desc = match read_text(reader, header.desc_size as usize) {
            Ok(desc) => desc,
            Err(error) => {
                return Err(error);
            },
        };
        let ghost author_read = decode_text(
            all.skip(desc_read.used as int),
            header.author_size as nat,
        ).after(desc_read.used);
        proof {
            assert(reader@.ahead == all.skip(desc_read.used as int));
            lemma_skipped_twice(
                old(reader)@,
                desc_read.used,
                (author_read.used - desc_read.used) as nat,
            );
        }
        let author = match read_text(reader, header.author_size as usize) {
            Ok(author) => author,
            Err(error) => {
                return Err(error);
            },
        };
        let cart = Cartridge {
            version,
            name,
            desc,
            author,
            cover: Vec::new(),
            font: Vec::new(),
            palette: Vec::new(),
            map: Vec::new(),
            code: String::new(),
        };
        proof {
            assert(reader@.ahead == all.skip(author_read.used as int));
            assert(cart@ == CartridgeView::bare(version, name@, desc@, author@));
            let rest = cart@.decode_chunks(all.skip(author_read.used as int));
            lemma_skipped_twice(old(reader)@, author_read.used, rest.used);
        }
        read_chunks(reader, cart)
    }

    /// Saves the Cartridge data into a stream.
    pub fn save(&self, writer: &mut ByteStream) -> (r: Result<(), CartridgeError>)
        ensures
            final(writer)@ == old(writer)@.written(self@.emitted().bytes),
            reports(r, self@.emitted().outcome(old(writer)@)),
    {
        let ghost start = old(writer)@;
        let header = CartridgeHeader {
            cart_version: DEFAULT_CART_FILE_VERSION,
            name_size: #[verifier::truncate] (self.name.as_str().as_bytes().len() as u8),
            desc_size: #[verifier::truncate] (self.desc.as_str().as_bytes().len() as u16),
            author_size: #[verifier::truncate] (self.author.as_str().as_bytes().len() as u8),
        };
        assert(header == self@.header());
        let ghost part1 = Emitted::of(header.image());
        let ghost part2 = Emitted::of(seq![self.version]);
        let ghost part3 = Emitted::of(encode_utf8(self.name@));
        let ghost part4 = Emitted::of(encode_utf8(self.desc@));
        let ghost part5 = Emitted::of(encode_utf8(self.author@));
        let ghost part6 = Emitted::field(ChunkType::Cover, self.cover@);
        let ghost part7 = Emitted::field(ChunkType::Code, encode_utf8(self.code@));
        let ghost part8 = Emitted::field(ChunkType::Font, self.font@);
        let ghost part9 = Emitted::field(ChunkType::Palette, self.palette@);
        let ghost part10 = Emitted::field(ChunkType::TileMap, self.map@);
        let ghost part11 = Emitted::of(ChunkView::of(ChunkType::End, Seq::<u8>::empty()).image());
        let ghost e0 = Emitted::of(Seq::<u8>::empty());
        let ghost e1 = e0.followed_by(part1);
        let ghost e2 = e1.followed_by(part2);
        let ghost e3 = e2.followed_by(part3);
        let ghost e4 = e3.followed_by(part4);
        let ghost e5 = e4.followed_by(part5);
        let ghost e6 = e5.followed_by(part6);
        let ghost e7 = e6.followed_by(part7);
        let ghost e8 = e7.followed_by(part8);
        let ghost e9 = e8.followed_by(part9);
        let ghost e10 = e9.followed_by(part10);
        let ghost e11 = e10.followed_by(part11);
        proof {
            assert(e1.bytes == header.image());
            assert(e5 == Emitted::of(self@.preamble()));
            assert(e11 == self@.emitted());
            lemma_leads_to_itself(e11);
            lemma_leads_to_earlier(e10, part11, e11);
            lemma_leads_to_earlier(e9, part10, e11);
            lemma_leads_to_earlier(e8, part9, e11);
            lemma_leads_to_earlier(e7, part8, e11);
            lemma_leads_to_earlier(e6, part7, e11);
            lemma_leads_to_earlier(e5, part6, e11);
            lemma_leads_to_earlier(e4, part5, e11);
            lemma_leads_to_earlier(e3, part4, e11);
            lemma_leads_to_earlier(e2, part3, e11);
            lemma_leads_to_earlier(e1, part2, e11);
            lemma_written_nothing(start);
            lemma_save_step(start, e0, part1, e11);
        }
        match header.save(writer) {
            Ok(()) => {},
            Err(error) => {
                return Err(error);
            },
        }
        proof {
            lemma_save_step(start, e1, part2, e11);
        }
        match writer.write_u8(self.version) {
            Ok(()) => {},
            Err(error) => {
                return Err(CartridgeError::new_io(error));
            },
        }
        proof {
            lemma_save_step(start, e2, part3, e11);
        }
        match writer.write_all(self.name.as_str().as_bytes()) {
            Ok(()) => {},
            Err(error) => {
                return Err(CartridgeError::new_io(error));
            },
        }
        proof {
            lemma_save_step(start, e3, part4, e11);
        }
        match writer.write_all(self.desc.as_str().as_bytes()) {
            Ok(()) => {},
            Err(error) => {
                return Err(CartridgeError::new_io(error));
            },
        }
        proof {
            lemma_save_step(start, e4, part5, e11);
        }
        match writer.write_all(self.author.as_str().as_bytes()) {
            Ok(()) => {},
            Err(error) => {
                return Err(CartridgeError::new_io(error));
            },
        }
        proof {
            lemma_save_step(start, e5, part6, e11);
        }
        match save_field(ChunkType::Cover, self.cover.clone(), writer) {
            Ok(()) => {},
            Err(error) => {
                return Err(error);
            },
        }
        proof {
            lemma_save_step(start, e6, part7, e11);
        }
        match save_field(ChunkType::Code, slice_to_vec(self.code.as_str().as_bytes()), writer) {
            Ok(()) => {},
            Err(error) => {
                return Err(error);
            },
        }
        proof {
            lemma_save_step(start, e7, part8, e11);
        }
        match save_field(ChunkType::Font, self.font.clone(), writer) {
            Ok(()) => {},
            Err(error) => {
                return Err(error);
            },
        }
        proof {
            lemma_save_step(start, e8, part9, e11);
        }
        match save_field(ChunkType::Palette, self.palette.clone(), writer) {
            Ok(()) => {},
            Err(error) => {
                return Err(error);
            },
        }
        proof {
            lemma_save_step(start, e9, part10, e11);
        }
        match save_field(ChunkType::TileMap, self.map.clone(), writer) {
            Ok(()) => {},
            Err(error) => {
                return Err(error);
            },
        }
        proof {
            lemma_save_step(start, e10, part11, e11);
            ChunkType::End.lemma_size_law_admits(0);
        }
        let chunk = Chunk::default();
        chunk.save(writer)
    }
}

impl Default for Cartridge {
    fn default() -> (cart: Self)
        ensures
            cart@ == CartridgeView::bare(
                DEFAULT_VERSION,
                Seq::<char>::empty(),
                Seq::<char>::empty(),
                Seq::<char>::empty(),
            ),
    {
        Self {
            version: DEFAULT_VERSION,
            name: String::new(),
            desc: String::new(),
            author: String::new(),
            cover: Vec::new(),
            font: Vec::new(),
            palette: Vec::new(),
            map: Vec::new(),
            code: String::new(),
        }
    }
}

} // verus!
