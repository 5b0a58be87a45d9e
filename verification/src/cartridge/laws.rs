//! What holds of the cartridge format as a whole: reading back what was
//! saved, the size gate, truncated streams, and omitted fields.
use crate::cartridge::chunk::{
    ChunkHeader, ChunkType, ChunkView, CODE_CHUNK_MAX_SIZE, COVER_CHUNK_SIZE, FONT_CHUNK_SIZE,
    MAP_CHUNK_MAX_SIZE,
};
use crate::cartridge::emit::Emitted;
use crate::cartridge::endian::{
    lemma_u16_le_round_trip, lemma_u32_le_round_trip, u16_to_le, u32_to_le,
};
use crate::cartridge::error::Fault;
use crate::cartridge::header::CartridgeHeader;
use crate::cartridge::stream::{Decoded, StreamError, StreamView};
use crate::cartridge::text::decode_text;
use crate::cartridge::CartridgeView;
use vstd::prelude::*;
use vstd::utf8::{encode_utf8, encode_utf8_decode_utf8, encode_utf8_valid_utf8, valid_utf8};

verus! {

/// A chunk header is read back from its bytes, whatever follows them.
pub proof fn lemma_chunk_header_round_trip(header: ChunkHeader, tail: Seq<u8>)
    ensures
        header.image().len() == 5,
        ChunkHeader::decode(header.image() + tail) == (Decoded::<ChunkHeader, Fault> {
            outcome: Ok(header),
            used: 5,
        }),
{
    let bytes = header.image() + tail;
    lemma_u32_le_round_trip(header.size, tail);
    assert(bytes.subrange(1, 5) =~= u32_to_le(header.size));
    assert(u32_to_le(header.size) + Seq::<u8>::empty() =~= u32_to_le(header.size));
    lemma_u32_le_round_trip(header.size, Seq::<u8>::empty());
    assert(bytes[0] == header.chunk_type.spec_tag());
}

/// A valid chunk is read back from its bytes, whatever follows them.
pub proof fn lemma_chunk_round_trip(chunk: ChunkView, tail: Seq<u8>)
    requires
        chunk.fault() is None,
    ensures
        chunk.image().len() == 5 + chunk.data.len(),
        ChunkView::decode(chunk.image() + tail) == (Decoded::<ChunkView, Fault> {
            outcome: Ok(chunk),
            used: chunk.image().len(),
        }),
{
    let bytes = chunk.image() + tail;
    let len = chunk.data.len();
    chunk.header.chunk_type.lemma_size_law_admits(len);
    assert(len <= COVER_CHUNK_SIZE);
    assert(chunk.header.size == len);
    lemma_chunk_header_round_trip(chunk.header, chunk.data + tail);
    assert(bytes =~= chunk.header.image() + (chunk.data + tail));
    assert(bytes.subrange(5, 5 + len as int) =~= chunk.data);
}

/// A cartridge header is read back from its bytes, whatever follows them.
pub proof fn lemma_cartridge_header_round_trip(header: CartridgeHeader, tail: Seq<u8>)
    ensures
        header.image().len() == 5,
        CartridgeHeader::decode(header.image() + tail) == (Decoded::<CartridgeHeader, Fault> {
            outcome: Ok(header),
            used: 5,
        }),
{
    let bytes = header.image() + tail;
    assert(bytes.subrange(2, 4) =~= u16_to_le(header.desc_size));
    assert(u16_to_le(header.desc_size) + Seq::<u8>::empty() =~= u16_to_le(header.desc_size));
    lemma_u16_le_round_trip(header.desc_size, Seq::<u8>::empty());
}

/// A text is read back from its UTF-8 bytes, whatever follows them.
pub proof fn lemma_text_round_trip(text: Seq<char>, tail: Seq<u8>)
    ensures
        decode_text(encode_utf8(text) + tail, encode_utf8(text).len()) == (Decoded::<
            Seq<char>,
            Fault,
        > { outcome: Ok(text), used: encode_utf8(text).len() }),
{
    let raw = encode_utf8(text);
    let bytes = raw + tail;
    assert(bytes.subrange(0, raw.len() as int) =~= raw);
    encode_utf8_valid_utf8(text);
    encode_utf8_decode_utf8(text);
}

/// The size gate: a chunk made of a type and a payload is valid exactly when
/// the type admits the payload length. Otherwise its fault names the type,
/// the length, and the lengths or the maximum that the type allows. A save
/// of such a chunk fails with that fault and writes nothing.
pub proof fn lemma_size_gate(chunk_type: ChunkType, data: Seq<u8>)
    ensures
        ChunkView::of(chunk_type, data).fault() is None <==> chunk_type.admits(data.len()),
        !chunk_type.admits(data.len()) ==> ChunkView::of(chunk_type, data).fault() == Some(
            match chunk_type {
                ChunkType::End => Fault::InvalidChunkSize(chunk_type, data.len(), seq![0usize]),
                ChunkType::Cover => Fault::InvalidChunkSize(
                    chunk_type,
                    data.len(),
                    seq![0usize, COVER_CHUNK_SIZE],
                ),
                ChunkType::Code => Fault::InvalidChunkMaxSize(
                    chunk_type,
                    data.len(),
                    CODE_CHUNK_MAX_SIZE as nat,
                ),
                ChunkType::Font => Fault::InvalidChunkSize(
                    chunk_type,
                    data.len(),
                    seq![0usize, FONT_CHUNK_SIZE],
                ),
                ChunkType::Palette => Fault::InvalidChunkSize(
                    chunk_type,
                    data.len(),
                    seq![0usize, 4usize, 8usize, 16usize],
                ),
                ChunkType::TileMap => Fault::InvalidChunkMaxSize(
                    chunk_type,
                    data.len(),
                    MAP_CHUNK_MAX_SIZE as nat,
                ),
            },
        ),
{
    chunk_type.lemma_size_law_admits(data.len());
}

/// A tag that stands for no chunk type is refused with the tag itself,
/// whatever follows it.
pub proof fn lemma_unknown_tag_is_refused(tag: u8, tail: Seq<u8>)
    requires
        tag > 5,
    ensures
        ChunkView::decode(seq![tag] + tail).outcome == Err::<ChunkView, Fault>(
            Fault::InvalidChunkType(tag),
        ),
{
    assert((seq![tag] + tail)[0] == tag);
}

/// One field on the wire is read back into its place: a field that is
/// empty leaves no bytes, and the chunk of a field that is not empty puts
/// its payload into the cartridge before the rest is read.
pub proof fn lemma_field_round_trip(
    cart: CartridgeView,
    chunk_type: ChunkType,
    data: Seq<u8>,
    tail: Seq<u8>,
)
    requires
        chunk_type != ChunkType::End,
        chunk_type.admits(data.len()),
        chunk_type == ChunkType::Code ==> valid_utf8(data),
    ensures
        Emitted::field(chunk_type, data).fault is None,
        data.len() == 0 ==> Emitted::field(chunk_type, data).bytes + tail == tail,
        data.len() > 0 ==> cart.with_chunk(ChunkView::of(chunk_type, data)) is Ok,
        data.len() > 0 ==> cart.decode_chunks(Emitted::field(chunk_type, data).bytes + tail)
            == cart.with_chunk(ChunkView::of(chunk_type, data))->Ok_0.decode_chunks(tail).after(
            Emitted::field(chunk_type, data).bytes.len(),
        ),
{
    let chunk = ChunkView::of(chunk_type, data);
    let piece = Emitted::field(chunk_type, data);
    lemma_size_gate(chunk_type, data);
    if data.len() == 0 {
        assert(piece.bytes + tail =~= tail);
    } else {
        lemma_chunk_round_trip(chunk, tail);
        let bytes = piece.bytes + tail;
        assert(bytes.skip(chunk.image().len() as int) =~= tail);
    }
}

/// The bytes of the chunks of a cartridge, end chunk included, with `tail`
/// after them.
pub open spec fn chunk_section(cart: CartridgeView, tail: Seq<u8>) -> Seq<u8> {
    Emitted::field(ChunkType::Cover, cart.cover).bytes + (Emitted::field(
        ChunkType::Code,
        encode_utf8(cart.code),
    ).bytes + (Emitted::field(ChunkType::Font, cart.font).bytes + (Emitted::field(
        ChunkType::Palette,
        cart.palette,
    ).bytes + (Emitted::field(ChunkType::TileMap, cart.map).bytes + (ChunkView::of(
        ChunkType::End,
        Seq::<u8>::empty(),
    ).image() + tail)))))
}

/// Joining three runs of bytes gives the same whichever two are joined
/// first.
proof fn lemma_join_regroups(a: Seq<u8>, b: Seq<u8>, c: Seq<u8>)
    ensures
        (a + b) + c == a + (b + c),
{
    assert((a + b) + c =~= a + (b + c));
}

/// Dropping the first run from two joined runs leaves the second.
proof fn lemma_skip_first_run(a: Seq<u8>, b: Seq<u8>)
    ensures
        (a + b).skip(a.len() as int) == b,
        (a + b).len() == a.len() + b.len(),
{
    assert((a + b).skip(a.len() as int) =~= b);
}

/// A save of a cartridge whose fields have sizes that the format can hold
/// meets no fault, and its bytes are the preamble and the chunks.
pub proof fn lemma_image_is_preamble_and_chunks(cart: CartridgeView, tail: Seq<u8>)
    requires
        cart.wf(),
    ensures
        cart.emitted().fault is None,
        cart.image() + tail == cart.preamble() + chunk_section(cart, tail),
{
    let code = encode_utf8(cart.code);
    let part0 = Emitted::of(cart.preamble());
    let part1 = Emitted::field(ChunkType::Cover, cart.cover);
    let part2 = Emitted::field(ChunkType::Code, code);
    let part3 = Emitted::field(ChunkType::Font, cart.font);
    let part4 = Emitted::field(ChunkType::Palette, cart.palette);
    let part5 = Emitted::field(ChunkType::TileMap, cart.map);
    let part6 = Emitted::of(ChunkView::of(ChunkType::End, Seq::<u8>::empty()).image());
    assert(part1.fault is None) by {
        lemma_size_gate(ChunkType::Cover, cart.cover);
    }
    assert(part2.fault is None) by {
        lemma_size_gate(ChunkType::Code, code);
    }
    assert(part3.fault is None) by {
        lemma_size_gate(ChunkType::Font, cart.font);
    }
    assert(part4.fault is None) by {
        lemma_size_gate(ChunkType::Palette, cart.palette);
    }
    assert(part5.fault is None) by {
        lemma_size_gate(ChunkType::TileMap, cart.map);
    }
    let e1 = part0.followed_by(part1);
    let e2 = e1.followed_by(part2);
    let e3 = e2.followed_by(part3);
    let e4 = e3.followed_by(part4);
    let e5 = e4.followed_by(part5);
    let e6 = e5.followed_by(part6);
    assert(e6 == cart.emitted());
    let t5 = part6.bytes + tail;
    let t4 = part5.bytes + t5;
    let t3 = part4.bytes + t4;
    let t2 = part3.bytes + t3;
    let t1 = part2.bytes + t2;
    let t0 = part1.bytes + t1;
    assert(t0 == chunk_section(cart, tail));
    lemma_join_regroups(e5.bytes, part6.bytes, tail);
    lemma_join_regroups(e4.bytes, part5.bytes, t5);
    lemma_join_regroups(e3.bytes, part4.bytes, t4);
    lemma_join_regroups(e2.bytes, part3.bytes, t3);
    lemma_join_regroups(e1.bytes, part2.bytes, t2);
    lemma_join_regroups(part0.bytes, part1.bytes, t1);
}

/// The chunks of a cartridge are read back into a cartridge that has its
/// version and texts and no asset yet.
pub proof fn lemma_chunks_round_trip(cart: CartridgeView, tail: Seq<u8>)
    requires
        cart.wf(),
    ensures
        chunk_section(cart, tail).len() >= tail.len(),
        CartridgeView::bare(cart.version, cart.name, cart.desc, cart.author).decode_chunks(
            chunk_section(cart, tail),
        ) == (Decoded::<CartridgeView, Fault> {
            outcome: Ok(cart),
            used: (chunk_section(cart, tail).len() - tail.len()) as nat,
        }),
{
    let code = encode_utf8(cart.code);
    let part1 = Emitted::field(ChunkType::Cover, cart.cover);
    let part2 = Emitted::field(ChunkType::Code, code);
    let part3 = Emitted::field(ChunkType::Font, cart.font);
    let part4 = Emitted::field(ChunkType::Palette, cart.palette);
    let part5 = Emitted::field(ChunkType::TileMap, cart.map);
    let end = ChunkView::of(ChunkType::End, Seq::<u8>::empty());
    let t5 = end.image() + tail;
    let t4 = part5.bytes + t5;
    let t3 = part4.bytes + t4;
    let t2 = part3.bytes + t3;
    let t1 = part2.bytes + t2;
    let t0 = part1.bytes + t1;
    let c0 = CartridgeView::bare(cart.version, cart.name, cart.desc, cart.author);
    let c1 = CartridgeView { cover: cart.cover, ..c0 };
    let c2 = CartridgeView { code: cart.code, ..c1 };
    let c3 = CartridgeView { font: cart.font, ..c2 };
    let c4 = CartridgeView { palette: cart.palette, ..c3 };
    let c5 = CartridgeView { map: cart.map, ..c4 };
    assert(c5 == cart);
    assert(t0 == chunk_section(cart, tail));
    assert(c5.decode_chunks(t5) == (Decoded::<CartridgeView, Fault> { outcome: Ok(c5), used: 5 })
        && t5.len() == 5 + tail.len()) by {
        lemma_size_gate(ChunkType::End, Seq::<u8>::empty());
        lemma_chunk_round_trip(end, tail);
    }
    assert(c4.decode_chunks(t4) == c5.decode_chunks(t5).after(part5.bytes.len())) by {
        lemma_field_round_trip(c4, ChunkType::TileMap, cart.map, t5);
        if cart.map.len() == 0 {
            assert(cart.map =~= Seq::<u8>::empty());
            assert(c4 == c5);
        }
    }
    assert(c3.decode_chunks(t3) == c4.decode_chunks(t4).after(part4.bytes.len())) by {
        lemma_field_round_trip(c3, ChunkType::Palette, cart.palette, t4);
        if cart.palette.len() == 0 {
            assert(cart.palette =~= Seq::<u8>::empty());
            assert(c3 == c4);
        }
    }
    assert(c2.decode_chunks(t2) == c3.decode_chunks(t3).after(part3.bytes.len())) by {
        lemma_field_round_trip(c2, ChunkType::Font, cart.font, t3);
        if cart.font.len() == 0 {
            assert(cart.font =~= Seq::<u8>::empty());
            assert(c2 == c3);
        }
    }
    assert(c1.decode_chunks(t1) == c2.decode_chunks(t2).after(part2.bytes.len())) by {
        encode_utf8_valid_utf8(cart.code);
        encode_utf8_decode_utf8(cart.code);
        lemma_field_round_trip(c1, ChunkType::Code, code, t2);
        if code.len() == 0 {
            assert(cart.code =~= Seq::<char>::empty());
            assert(c1 == c2);
        }
    }
    assert(c0.decode_chunks(t0) == c1.decode_chunks(t1).after(part1.bytes.len())) by {
        lemma_field_round_trip(c0, ChunkType::Cover, cart.cover, t1);
        if cart.cover.len() == 0 {
            assert(cart.cover =~= Seq::<u8>::empty());
            assert(c0 == c1);
        }
    }
}

/// The preamble of a cartridge is read back: what follows it is read as
/// chunks into a cartridge that has the version and the texts.
pub proof fn lemma_preamble_round_trip(cart: CartridgeView, rest: Seq<u8>)
    requires
        encode_utf8(cart.name).len() <= u8::MAX,
        encode_utf8(cart.desc).len() <= u16::MAX,
        encode_utf8(cart.author).len() <= u8::MAX,
    ensures
        CartridgeView::decode(cart.preamble() + rest) == CartridgeView::bare(
            cart.version,
            cart.name,
            cart.desc,
            cart.author,
        ).decode_chunks(rest).after(cart.preamble().len()),
{
    let header = cart.header();
    let h = header.image();
    let v = seq![cart.version];
    let n = encode_utf8(cart.name);
    let d = encode_utf8(cart.desc);
    let a = encode_utf8(cart.author);
    let bytes = cart.preamble() + rest;
    let r3 = a + rest;
    let r2 = d + r3;
    let r1 = n + r2;
    let r0 = v + r1;
    assert(h.len() == 5) by {
        lemma_cartridge_header_round_trip(header, r0);
    }
    assert(bytes == (h + v + n + d) + r3) by {
        lemma_join_regroups(h + v + n + d, a, rest);
    }
    assert(bytes == (h + v + n) + r2) by {
        lemma_join_regroups(h + v + n, d, r3);
    }
    assert(bytes == (h + v) + r1) by {
        lemma_join_regroups(h + v, n, r2);
    }
    assert(bytes == h + r0) by {
        lemma_join_regroups(h, v, r1);
    }
    assert(CartridgeHeader::decode(bytes).outcome == Ok::<CartridgeHeader, Fault>(header)) by {
        lemma_cartridge_header_round_trip(header, r0);
    }
    assert(bytes.len() >= 6 && bytes[5] == cart.version) by {
        assert(bytes[5] == r0[0]);
    }
    let name = decode_text(bytes.skip(6), header.name_size as nat).after(6);
    assert(name == (Decoded::<Seq<char>, Fault> { outcome: Ok(cart.name), used: 6 + n.len() })) by {
        lemma_skip_first_run(h + v, r1);
        lemma_text_round_trip(cart.name, r2);
    }
    let desc = decode_text(bytes.skip(name.used as int), header.desc_size as nat).after(name.used);
    assert(desc == (Decoded::<Seq<char>, Fault> {
        outcome: Ok(cart.desc),
        used: 6 + n.len() + d.len(),
    })) by {
        lemma_skip_first_run(h + v + n, r2);
        lemma_text_round_trip(cart.desc, r3);
    }
    let author = decode_text(bytes.skip(desc.used as int), header.author_size as nat).after(
        desc.used,
    );
    assert(author == (Decoded::<Seq<char>, Fault> {
        outcome: Ok(cart.author),
        used: 6 + n.len() + d.len() + a.len(),
    })) by {
        lemma_skip_first_run(h + v + n + d, r3);
        lemma_text_round_trip(cart.author, rest);
    }
    assert(bytes.skip(author.used as int) == rest && cart.preamble().len() == author.used) by {
        lemma_skip_first_run(cart.preamble(), rest);
    }
}

/// Round trip: a cartridge whose fields have sizes that the format can hold
/// is saved without a fault, and reading the saved bytes gives the cartridge
/// back, consuming exactly those bytes, whatever follows them.
pub proof fn lemma_round_trip(cart: CartridgeView, tail: Seq<u8>)
    requires
        cart.wf(),
    ensures
        cart.emitted().fault is None,
        CartridgeView::decode(cart.image() + tail) == (Decoded::<CartridgeView, Fault> {
            outcome: Ok(cart),
            used: cart.image().len(),
        }),
{
    lemma_image_is_preamble_and_chunks(cart, tail);
    lemma_chunks_round_trip(cart, tail);
    lemma_preamble_round_trip(cart, chunk_section(cart, tail));
    lemma_skip_first_run(cart.image(), tail);
    lemma_skip_first_run(cart.preamble(), chunk_section(cart, tail));
}

/// Empty-field omission: where the cover, the code, the font, the palette
/// and the map are all empty, the wire holds the preamble and the end chunk
/// and no chunk between them.
pub proof fn lemma_empty_fields_are_omitted(cart: CartridgeView)
    requires
        cart.cover.len() == 0,
        cart.code.len() == 0,
        cart.font.len() == 0,
        cart.palette.len() == 0,
        cart.map.len() == 0,
    ensures
        cart.emitted().fault is None,
        cart.image() == cart.preamble() + seq![0u8, 0u8, 0u8, 0u8, 0u8],
{
    let nothing = Seq::<u8>::empty();
    assert(encode_utf8(cart.code) =~= nothing);
    let end = ChunkView::of(ChunkType::End, nothing);
    assert(end.image() =~= seq![0u8, 0u8, 0u8, 0u8, 0u8]);
    assert(cart.image() =~= cart.preamble() + end.image());
}

/// Determinism: what a save writes and how it ends depend on nothing but
/// the fields of the cartridge and the stream it is given, so two saves of
/// cartridges with equal fields to equal streams leave equal streams.
pub proof fn lemma_save_is_deterministic(
    first: CartridgeView,
    second: CartridgeView,
    stream: StreamView,
)
    requires
        first == second,
    ensures
        stream.written(first.emitted().bytes) == stream.written(second.emitted().bytes),
        first.emitted().outcome(stream) == second.emitted().outcome(stream),
{
}

/// A chunk that was read is read the same from any prefix of the bytes that
/// holds all of it, and a shorter prefix fails as a stream that ended early.
pub proof fn lemma_chunk_in_prefix(bytes: Seq<u8>, cut: nat)
    requires
        ChunkView::decode(bytes).outcome is Ok,
        cut <= bytes.len(),
    ensures
        5 <= ChunkView::decode(bytes).used <= bytes.len(),
        cut >= ChunkView::decode(bytes).used ==> ChunkView::decode(bytes.take(cut as int))
            == ChunkView::decode(bytes),
        cut < ChunkView::decode(bytes).used ==> ChunkView::decode(
            bytes.take(cut as int),
        ).outcome == Err::<ChunkView, Fault>(Fault::Io(StreamError::UnexpectedEof)),
{
    let part = bytes.take(cut as int);
    let whole = ChunkView::decode(bytes);
    if cut >= 5 {
        assert(part.subrange(1, 5) =~= bytes.subrange(1, 5));
        if cut >= whole.used {
            assert(part.subrange(5, whole.used as int) =~= bytes.subrange(5, whole.used as int));
        }
    }
}

/// A text that was read is read the same from any prefix of the bytes that
/// holds all of it, and a shorter prefix fails as a stream that ended early.
pub proof fn lemma_text_in_prefix(bytes: Seq<u8>, count: nat, cut: nat)
    requires
        decode_text(bytes, count).outcome is Ok,
        cut <= bytes.len(),
    ensures
        decode_text(bytes, count).used == count,
        count <= bytes.len(),
        cut >= count ==> decode_text(bytes.take(cut as int), count) == decode_text(bytes, count),
        cut < count ==> decode_text(bytes.take(cut as int), count).outcome == Err::<
            Seq<char>,
            Fault,
        >(Fault::Io(StreamError::UnexpectedEof)),
{
    let part = bytes.take(cut as int);
    if cut >= count {
        assert(part.subrange(0, count as int) =~= bytes.subrange(0, count as int));
    }
}

/// Truncation of the chunks: where chunks are read up to an end chunk, no
/// proper prefix of the bytes consumed is read with success: each one fails
/// as a stream that ended early.
pub proof fn lemma_truncated_chunks_fail(cart: CartridgeView, bytes: Seq<u8>, cut: nat)
    requires
        cart.decode_chunks(bytes).outcome is Ok,
        cut < cart.decode_chunks(bytes).used,
    ensures
        cart.decode_chunks(bytes).used <= bytes.len(),
        cart.decode_chunks(bytes.take(cut as int)).outcome == Err::<CartridgeView, Fault>(
            Fault::Io(StreamError::UnexpectedEof),
        ),
    decreases bytes.len(),
{
    let next = ChunkView::decode(bytes);
    let chunk = next.outcome->Ok_0;
    lemma_chunks_stay_within(cart, bytes);
    lemma_chunk_in_prefix(bytes, cut);
    if cut >= next.used {
        let updated = cart.with_chunk(chunk)->Ok_0;
        let rest = bytes.skip(next.used as int);
        let less = (cut - next.used) as nat;
        lemma_truncated_chunks_fail(updated, rest, less);
        assert(bytes.take(cut as int).skip(next.used as int) =~= rest.take(less as int));
    }
}

/// Chunks that are read with success are read from the bytes at hand: no
/// more bytes are consumed than there are.
pub proof fn lemma_chunks_stay_within(cart: CartridgeView, bytes: Seq<u8>)
    requires
        cart.decode_chunks(bytes).outcome is Ok,
    ensures
        5 <= cart.decode_chunks(bytes).used <= bytes.len(),
    decreases bytes.len(),
{
    let next = ChunkView::decode(bytes);
    let chunk = next.outcome->Ok_0;
    if chunk.header.chunk_type != ChunkType::End {
        let updated = cart.with_chunk(chunk)->Ok_0;
        lemma_chunks_stay_within(updated, bytes.skip(next.used as int));
    }
}

/// Truncation: where a stream holds a cartridge, no proper prefix of the
/// bytes of that cartridge is read with success. A stream that ends in the
/// preamble, in a chunk header, in a payload, or before the end chunk fails
/// as a stream that ended early.
pub proof fn lemma_truncated_stream_fails(bytes: Seq<u8>, cut: nat)
    requires
        CartridgeView::decode(bytes).outcome is Ok,
        cut < CartridgeView::decode(bytes).used,
    ensures
        CartridgeView::decode(bytes).used <= bytes.len(),
        CartridgeView::decode(bytes.take(cut as int)).outcome == Err::<CartridgeView, Fault>(
            Fault::Io(StreamError::UnexpectedEof),
        ),
{
    let part = bytes.take(cut as int);
    let header = CartridgeHeader::decode(bytes).outcome->Ok_0;
    let name = decode_text(bytes.skip(6), header.name_size as nat).after(6);
    let desc = decode_text(bytes.skip(name.used as int), header.desc_size as nat).after(name.used);
    let author = decode_text(bytes.skip(desc.used as int), header.author_size as nat).after(
        desc.used,
    );
    let cart = CartridgeView::bare(
        bytes[5],
        name.outcome->Ok_0,
        desc.outcome->Ok_0,
        author.outcome->Ok_0,
    );
    let rest = bytes.skip(author.used as int);
    lemma_chunks_stay_within(cart, rest);
    if cut >= 6 {
        assert(part.subrange(2, 4) =~= bytes.subrange(2, 4));
        assert(CartridgeHeader::decode(part) == CartridgeHeader::decode(bytes));
        let less = (cut - 6) as nat;
        assert(part.skip(6) =~= bytes.skip(6).take(less as int));
        lemma_text_in_prefix(bytes.skip(6), header.name_size as nat, less);
        if cut >= name.used {
            let less = (cut - name.used) as nat;
            assert(part.skip(name.used as int) =~= bytes.skip(name.used as int).take(less as int));
            lemma_text_in_prefix(bytes.skip(name.used as int), header.desc_size as nat, less);
            if cut >= desc.used {
                let less = (cut - desc.used) as nat;
                assert(part.skip(desc.used as int) =~= bytes.skip(desc.used as int).take(
                    less as int,
                ));
                lemma_text_in_prefix(bytes.skip(desc.used as int), header.author_size as nat, less);
                if cut >= author.used {
                    let less = (cut - author.used) as nat;
                    assert(part.skip(author.used as int) =~= rest.take(less as int));
                    lemma_truncated_chunks_fail(cart, rest, less);
                }
            }
        }
    }
}

/// No success without the end chunk: where chunks are read with success, the
/// last five bytes consumed are an end chunk.
pub proof fn lemma_chunks_end_with_end_chunk(cart: CartridgeView, bytes: Seq<u8>)
    requires
        cart.decode_chunks(bytes).outcome is Ok,
    ensures
        5 <= cart.decode_chunks(bytes).used <= bytes.len(),
        ChunkView::decode(bytes.skip(cart.decode_chunks(bytes).used - 5)).outcome == Ok::<
            ChunkView,
            Fault,
        >(ChunkView::of(ChunkType::End, Seq::<u8>::empty())),
    decreases bytes.len(),
{
    let next = ChunkView::decode(bytes);
    let chunk = next.outcome->Ok_0;
    lemma_chunks_stay_within(cart, bytes);
    if chunk.header.chunk_type != ChunkType::End {
        let updated = cart.with_chunk(chunk)->Ok_0;
        let rest = bytes.skip(next.used as int);
        lemma_chunks_end_with_end_chunk(updated, rest);
        let used = updated.decode_chunks(rest).used;
        assert(rest.skip(used - 5) =~= bytes.skip(next.used + used - 5));
    } else {
        chunk.header.chunk_type.lemma_size_law_admits(chunk.data.len());
        assert(bytes.skip(0) =~= bytes);
        assert(chunk.data =~= Seq::<u8>::empty());
    }
}

} // verus!
