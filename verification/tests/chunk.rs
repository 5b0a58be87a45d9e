use tinlib::cartridge::{ByteStream, CartridgeError, Chunk, ChunkHeader, ChunkType, StreamError};

#[test]
fn test_chunktype_tryfrom() {
    let data = [
        (0, ChunkType::End),
        (1, ChunkType::Cover),
        (2, ChunkType::Code),
        (3, ChunkType::Font),
        (4, ChunkType::Palette),
        (5, ChunkType::TileMap),
    ];

    for (value, expected) in data.iter() {
        let result = ChunkType::try_from(*value);

        assert!(result.is_ok());
        assert_eq!(result.unwrap(), *expected);
    }
}

#[test]
fn test_chunktype_tryfrom_fail() {
    let value = 255u8;
    let result = ChunkType::try_from(value);

    assert!(result.is_err());
    assert!(matches!(
        result.unwrap_err(),
        CartridgeError::InvalidChunkType(v) if v == value
    ));
}

#[test]
fn test_chunktype_tag_is_the_wire_value() {
    let types = [
        ChunkType::End,
        ChunkType::Cover,
        ChunkType::Code,
        ChunkType::Font,
        ChunkType::Palette,
        ChunkType::TileMap,
    ];
    for (value, chunk_type) in types.iter().enumerate() {
        assert_eq!(chunk_type.tag(), value as u8);
        assert_eq!(ChunkType::try_from(chunk_type.tag()).unwrap(), *chunk_type);
    }
}

#[test]
fn test_chunkheader_from_reader() {
    let mut reader = ByteStream::new(vec![5, 0, 240, 0, 0]);
    let expected = ChunkHeader {
        chunk_type: ChunkType::TileMap,
        size: 61440,
    };

    let result = ChunkHeader::from_reader(&mut reader);
    assert!(result.is_ok());
    assert_eq!(result.unwrap(), expected);
    assert_eq!(reader.position(), 5);
}

#[test]
fn test_chunkheader_from_reader_all_size_bytes() {
    let mut reader = ByteStream::new(vec![2, 0x78, 0x56, 0x34, 0x12, 9]);

    let header = ChunkHeader::from_reader(&mut reader).unwrap();
    assert_eq!(header.chunk_type, ChunkType::Code);
    assert_eq!(header.size, 0x1234_5678);
    assert_eq!(reader.remaining(), 1);
}

#[test]
fn test_chunkheader_from_reader_invalid_chunk_type() {
    let mut reader = ByteStream::new(vec![6, 0, 240, 0, 0]);

    let result = ChunkHeader::from_reader(&mut reader);
    assert!(result.is_err());
    assert!(matches!(
        result.unwrap_err(),
        CartridgeError::InvalidChunkType(v) if v == 6
    ));
    assert_eq!(reader.position(), 1);
}

#[test]
fn test_chunkheader_from_reader_invalid_data() {
    let mut reader = ByteStream::new(vec![5, 0]);

    let result = ChunkHeader::from_reader(&mut reader);
    assert!(result.is_err());
    assert!(matches!(
        result.unwrap_err(),
        CartridgeError::Io(StreamError::UnexpectedEof)
    ));
    assert_eq!(reader.remaining(), 0);
}

#[test]
fn test_chunkheader_from_reader_empty_stream() {
    let mut reader = ByteStream::new(vec![]);

    let result = ChunkHeader::from_reader(&mut reader);
    assert!(matches!(
        result.unwrap_err(),
        CartridgeError::Io(StreamError::UnexpectedEof)
    ));
}

#[test]
fn test_chunkheader_save() {
    let chunk_header = ChunkHeader {
        chunk_type: ChunkType::TileMap,
        size: 61440,
    };
    let expected: Vec<u8> = vec![5, 0, 240, 0, 0];

    let mut writer = ByteStream::new(vec![0u8; 5]);
    let result = chunk_header.save(&mut writer);
    assert!(result.is_ok());
    assert_eq!(writer.get_ref(), &expected);
}

#[test]
fn test_chunkheader_save_all_size_bytes() {
    let chunk_header = ChunkHeader::new(ChunkType::Code, 0x1234_5678);

    let mut writer = ByteStream::new(vec![]);
    chunk_header.save(&mut writer).unwrap();
    assert_eq!(writer.get_ref(), &vec![2u8, 0x78, 0x56, 0x34, 0x12]);
}

#[test]
fn test_chunkheader_save_error() {
    let chunk_header = ChunkHeader {
        chunk_type: ChunkType::TileMap,
        size: 61440,
    };

    let mut writer = ByteStream::fixed(vec![0u8; 1]);
    let result = chunk_header.save(&mut writer);
    assert!(result.is_err());
    assert!(matches!(
        result.unwrap_err(),
        CartridgeError::Io(StreamError::WriteZero)
    ));
    assert_eq!(writer.get_ref(), &vec![5u8]);
}

#[test]
fn test_chunkheader_default() {
    let chunk_header = ChunkHeader::default();
    assert_eq!(chunk_header.chunk_type, ChunkType::End);
    assert_eq!(chunk_header.size, 0);
}

#[test]
fn test_chunkheader_new() {
    let chunk_header = ChunkHeader::new(ChunkType::Font, 16384);
    assert_eq!(chunk_header.chunk_type, ChunkType::Font);
    assert_eq!(chunk_header.size, 16384);
}

// A palette of 12 bytes is not among the lengths 0, 4, 8 and 16 that a
// palette chunk admits, so the chunk is read and then refused.
#[test]
fn test_chunk_from_reader() {
    let mut reader = ByteStream::new(vec![
        // header
        4, // type
        12, 0, 0, 0, // size
        // data
        0, 0, 0, 86, 86, 86, 172, 172, 172, 255, 255, 255,
    ]);

    let result = Chunk::from_reader(&mut reader);
    assert!(result.is_err());
    assert!(matches!(
        result.unwrap_err(),
        CartridgeError::InvalidChunkSize(ChunkType::Palette, 12, sizes) if sizes == vec![0, 4, 8, 16]
    ));
    assert_eq!(reader.position(), 17);
}

#[test]
fn test_chunk_from_reader_valid_palette() {
    let mut reader = ByteStream::new(vec![
        // header
        4, // type
        16, 0, 0, 0, // size
        // data
        0, 0, 0, 86, 86, 86, 172, 172, 172, 255, 255, 255, 1, 2, 3, 4,
    ]);
    let expected = Chunk {
        header: ChunkHeader {
            chunk_type: ChunkType::Palette,
            size: 16,
        },
        data: vec![0, 0, 0, 86, 86, 86, 172, 172, 172, 255, 255, 255, 1, 2, 3, 4],
    };

    let result = Chunk::from_reader(&mut reader);
    assert!(result.is_ok());
    let chunk = result.unwrap();
    assert_eq!(chunk, expected);
    assert_eq!(chunk.chunk_type(), ChunkType::Palette);
    assert_eq!(chunk.data(), &expected.data);
    assert_eq!(reader.position(), 21);
}

#[test]
fn test_header_from_reader_invalid_chunk_type() {
    let mut reader = ByteStream::new(vec![
        // header
        6, // type
        12, 0, 0, 0, // size
        // data
        0, 0, 0, 86, 86, 86, 172, 172, 172, 255, 255, 255,
    ]);

    let result = Chunk::from_reader(&mut reader);
    assert!(result.is_err());
    assert!(matches!(
        result.unwrap_err(),
        CartridgeError::InvalidChunkType(v) if v == 6
    ));
}

#[test]
fn test_header_from_reader_invalid_data() {
    let mut reader = ByteStream::new(vec![
        // header
        4, // type
        12, 0, 0, 0, // size
        // data
        0,
    ]);

    let result = Chunk::from_reader(&mut reader);
    assert!(result.is_err());
    assert!(matches!(
        result.unwrap_err(),
        CartridgeError::Io(StreamError::UnexpectedEof)
    ));
    assert_eq!(reader.remaining(), 0);
}

// A palette of 12 bytes is refused before any byte is written.
#[test]
fn test_chunk_save() {
    let chunk = Chunk {
        header: ChunkHeader {
            chunk_type: ChunkType::Palette,
            size: 12,
        },
        data: vec![0, 0, 0, 86, 86, 86, 172, 172, 172, 255, 255, 255],
    };

    let mut writer = ByteStream::new(vec![0u8; 17]);
    let result = chunk.save(&mut writer);
    assert!(result.is_err());
    assert!(matches!(
        result.unwrap_err(),
        CartridgeError::InvalidChunkSize(ChunkType::Palette, 12, sizes) if sizes == vec![0, 4, 8, 16]
    ));
    assert_eq!(writer.get_ref(), &vec![0u8; 17]);
    assert_eq!(writer.position(), 0);
}

#[test]
fn test_chunk_save_valid_palette() {
    let chunk = Chunk::new(
        ChunkType::Palette,
        vec![0, 0, 0, 86, 86, 86, 172, 172, 172, 255, 255, 255, 1, 2, 3, 4],
    );
    let expected: Vec<u8> = vec![
        4, 16, 0, 0, 0, 0, 0, 0, 86, 86, 86, 172, 172, 172, 255, 255, 255, 1, 2, 3, 4,
    ];

    let mut writer = ByteStream::new(vec![0u8; 17]);
    let result = chunk.save(&mut writer);
    assert!(result.is_ok());
    assert_eq!(writer.get_ref(), &expected);
}

#[test]
fn test_chunk_save_error() {
    let chunk = Chunk {
        header: ChunkHeader {
            chunk_type: ChunkType::Palette,
            size: 16,
        },
        data: vec![0, 0, 0, 86, 86, 86, 172, 172, 172, 255, 255, 255, 1, 2, 3, 4],
    };

    let mut writer = ByteStream::fixed(vec![0u8; 6]);
    let result = chunk.save(&mut writer);
    assert!(result.is_err());
    assert!(matches!(
        result.unwrap_err(),
        CartridgeError::Io(StreamError::WriteZero)
    ));
    assert_eq!(writer.get_ref(), &vec![4u8, 16, 0, 0, 0, 0]);
}

#[test]
fn test_chunk_default() {
    let chunk = Chunk::default();
    assert_eq!(chunk.header.chunk_type, ChunkType::End);
    assert_eq!(chunk.header.size, 0);
    assert_eq!(chunk.data.len(), 0);
}

#[test]
fn test_chunk_new_sets_the_size() {
    let chunk = Chunk::new(ChunkType::Code, vec![1, 2, 3]);
    assert_eq!(chunk.header.chunk_type, ChunkType::Code);
    assert_eq!(chunk.header.size, 3);
    assert_eq!(chunk.data, vec![1, 2, 3]);
}

#[test]
fn test_chunk_mismatched_sizes() {
    let chunk = Chunk {
        header: ChunkHeader {
            chunk_type: ChunkType::Code,
            size: 10,
        },
        data: vec![7; 15],
    };

    let result = chunk.validate();
    assert!(matches!(
        result.unwrap_err(),
        CartridgeError::MismatchedChunkSizes(ChunkType::Code, 10, 15)
    ));

    let mut writer = ByteStream::new(vec![]);
    let result = chunk.save(&mut writer);
    assert!(matches!(
        result.unwrap_err(),
        CartridgeError::MismatchedChunkSizes(ChunkType::Code, 10, 15)
    ));
    assert_eq!(writer.get_ref().len(), 0);
}

#[test]
fn test_chunk_size_gate_font() {
    for len in [1usize, 5, 16383, 16385] {
        let chunk = Chunk::new(ChunkType::Font, vec![0; len]);
        let mut writer = ByteStream::new(vec![]);
        let result = chunk.save(&mut writer);
        assert!(matches!(
            result.unwrap_err(),
            CartridgeError::InvalidChunkSize(ChunkType::Font, l, sizes) if l == len && sizes == vec![0, 16384]
        ));
        assert_eq!(writer.get_ref().len(), 0);
    }
    for len in [0usize, 16384] {
        let chunk = Chunk::new(ChunkType::Font, vec![0; len]);
        let mut writer = ByteStream::new(vec![]);
        assert!(chunk.save(&mut writer).is_ok());
        assert_eq!(writer.get_ref().len(), 5 + len);
    }
}

#[test]
fn test_chunk_size_gate_code() {
    let chunk = Chunk::new(ChunkType::Code, vec![b'a'; 131073]);
    let mut writer = ByteStream::new(vec![]);
    let result = chunk.save(&mut writer);
    assert!(matches!(
        result.unwrap_err(),
        CartridgeError::InvalidChunkMaxSize(ChunkType::Code, 131073, 131072)
    ));

    let chunk = Chunk::new(ChunkType::Code, vec![b'a'; 131072]);
    let mut writer = ByteStream::new(vec![]);
    assert!(chunk.save(&mut writer).is_ok());
}

#[test]
fn test_chunk_size_gate_palette() {
    let chunk = Chunk::new(ChunkType::Palette, vec![0; 5]);
    let mut writer = ByteStream::new(vec![]);
    let result = chunk.save(&mut writer);
    assert!(matches!(
        result.unwrap_err(),
        CartridgeError::InvalidChunkSize(ChunkType::Palette, 5, sizes) if sizes == vec![0, 4, 8, 16]
    ));
    for len in [0usize, 4, 8, 16] {
        let chunk = Chunk::new(ChunkType::Palette, vec![0; len]);
        assert!(chunk.validate().is_ok());
    }
}

#[test]
fn test_chunk_size_gate_other_types() {
    let chunk = Chunk::new(ChunkType::End, vec![0; 1]);
    assert!(matches!(
        chunk.validate().unwrap_err(),
        CartridgeError::InvalidChunkSize(ChunkType::End, 1, sizes) if sizes == vec![0]
    ));
    let chunk = Chunk::new(ChunkType::Cover, vec![0; 7]);
    assert!(matches!(
        chunk.validate().unwrap_err(),
        CartridgeError::InvalidChunkSize(ChunkType::Cover, 7, sizes) if sizes == vec![0, 245760]
    ));
    assert!(Chunk::new(ChunkType::Cover, vec![0; 245760]).validate().is_ok());
    let chunk = Chunk::new(ChunkType::TileMap, vec![0; 122881]);
    assert!(matches!(
        chunk.validate().unwrap_err(),
        CartridgeError::InvalidChunkMaxSize(ChunkType::TileMap, 122881, 122880)
    ));
    assert!(Chunk::new(ChunkType::TileMap, vec![0; 122880]).validate().is_ok());
}

#[test]
fn test_chunk_round_trip() {
    let chunk = Chunk::new(ChunkType::TileMap, vec![9; 300]);
    let mut stream = ByteStream::new(vec![]);
    chunk.save(&mut stream).unwrap();
    assert_eq!(stream.get_ref().len(), 305);
    assert_eq!(&stream.get_ref()[0..5], &[5u8, 44, 1, 0, 0]);
    stream.rewind();
    let back = Chunk::from_reader(&mut stream).unwrap();
    assert_eq!(back, chunk);
}
