use tinlib::cartridge::header::{
    DEFAULT_AUTHOR_SIZE, DEFAULT_CART_FILE_VERSION, DEFAULT_DESC_SIZE, DEFAULT_NAME_SIZE,
};
use tinlib::cartridge::{
    ByteStream, Cartridge, CartridgeError, CartridgeHeader, ChunkType, StreamError,
    DEFAULT_VERSION,
};

#[test]
fn test_cartridgeheader_from_reader() {
    let mut reader = ByteStream::new(vec![5, 32, 0, 1, 32]);
    let expected = CartridgeHeader {
        cart_version: 5,
        name_size: 32,
        desc_size: 256,
        author_size: 32,
    };

    let result = CartridgeHeader::from_reader(&mut reader);
    assert!(result.is_ok());
    assert_eq!(result.unwrap(), expected);
}

#[test]
fn test_cartridgeheader_from_reader_invalid_data() {
    let mut reader = ByteStream::new(vec![5, 32, 0, 1]);

    let result = CartridgeHeader::from_reader(&mut reader);
    assert!(result.is_err());
    assert!(matches!(
        result.unwrap_err(),
        CartridgeError::Io(StreamError::UnexpectedEof)
    ));
}

#[test]
fn test_cartridgeheader_save() {
    let header = CartridgeHeader {
        cart_version: 1,
        name_size: 64,
        desc_size: 512,
        author_size: 64,
    };
    let expected: Vec<u8> = vec![1, 64, 0, 2, 64];

    let mut writer = ByteStream::new(vec![0u8; 5]);
    let result = header.save(&mut writer);
    assert!(result.is_ok());
    assert_eq!(writer.get_ref(), &expected);
}

#[test]
fn test_cartridgeheader_save_both_size_bytes() {
    let header = CartridgeHeader {
        cart_version: 1,
        name_size: 2,
        desc_size: 0xabcd,
        author_size: 3,
    };

    let mut writer = ByteStream::new(vec![]);
    header.save(&mut writer).unwrap();
    assert_eq!(writer.get_ref(), &vec![1u8, 2, 0xcd, 0xab, 3]);

    writer.rewind();
    assert_eq!(CartridgeHeader::from_reader(&mut writer).unwrap(), header);
}

#[test]
fn test_cartridgeheader_save_error() {
    let header = CartridgeHeader {
        cart_version: 1,
        name_size: 64,
        desc_size: 512,
        author_size: 64,
    };

    let mut writer = ByteStream::fixed(vec![0u8; 1]);
    let result = header.save(&mut writer);
    assert!(result.is_err());
    assert!(matches!(
        result.unwrap_err(),
        CartridgeError::Io(StreamError::WriteZero)
    ));
}

#[test]
fn test_cartridgeheader_default() {
    let header = CartridgeHeader::default();
    assert_eq!(header.cart_version, DEFAULT_CART_FILE_VERSION);
    assert_eq!(header.name_size, DEFAULT_NAME_SIZE);
    assert_eq!(header.desc_size, DEFAULT_DESC_SIZE);
    assert_eq!(header.author_size, DEFAULT_AUTHOR_SIZE);
    assert_eq!(header.cart_version, 1);
    assert_eq!(header.name_size, 64);
    assert_eq!(header.desc_size, 512);
    assert_eq!(header.author_size, 64);
}

fn wire_preamble() -> Vec<u8> {
    let mut data = vec![
        // cart header
        1,  // cart version
        10, // name size
        11, 0, // desc size
        2, // author size
    ];

    // cart data
    data.extend_from_slice(&[
        11, // cart version
        116, 104, 105, 115, 105, 115, 110, 97, 109, 101, // name
        100, 101, 115, 99, 114, 105, 195, 167, 195, 163, 111, // desc
        109, 101, // author
    ]);
    data
}

// The palette chunk of this stream holds 12 bytes, which is not among the
// lengths 0, 4, 8 and 16 that a palette chunk admits: the read fails there.
#[test]
fn test_cartridge_from_reader() {
    let mut data = wire_preamble();

    // code chunk
    data.extend_from_slice(&[
        2, 6, 0, 0, 0, // header
        109, 97, 105, 110, 40, 41, // data
    ]);

    // map chunk
    data.extend_from_slice(&[
        5, 0, 0, 0, 0, // header
    ]);

    // font chunk
    data.extend_from_slice(&[
        3, 0, 64, 0, 0, // header
    ]);
    data.extend_from_slice(&[0; 16384]);

    // cover chunk
    data.extend_from_slice(&[
        1, 0, 0, 0, 0, // header
    ]);

    // palette chunk
    data.extend_from_slice(&[
        4, 12, 0, 0, 0, // header
        0, 0, 0, 255, 255, 255, 180, 180, 180, 90, 90, 90, // data
    ]);

    // end chunk
    data.extend_from_slice(&[
        0, 0, 0, 0, 0, // ignored
        1, 0, 0, 0, 0, // junk data
    ]);

    let mut reader = ByteStream::new(data);

    let result = Cartridge::from_reader(&mut reader);
    assert!(result.is_err());
    assert!(matches!(
        result.unwrap_err(),
        CartridgeError::InvalidChunkSize(ChunkType::Palette, 12, sizes) if sizes == vec![0, 4, 8, 16]
    ));
    assert_eq!(reader.remaining(), 10);
}

#[test]
fn test_cartridge_from_reader_valid_palette() {
    let mut data = wire_preamble();

    // code chunk
    data.extend_from_slice(&[
        2, 6, 0, 0, 0, // header
        109, 97, 105, 110, 40, 41, // data
    ]);

    // map chunk
    data.extend_from_slice(&[
        5, 0, 0, 0, 0, // header
    ]);

    // font chunk
    data.extend_from_slice(&[
        3, 0, 64, 0, 0, // header
    ]);
    data.extend_from_slice(&[0; 16384]);

    // cover chunk
    data.extend_from_slice(&[
        1, 0, 0, 0, 0, // header
    ]);

    // palette chunk
    data.extend_from_slice(&[
        4, 8, 0, 0, 0, // header
        0, 0, 0, 255, 255, 255, 180, 180, // data
    ]);

    // end chunk
    data.extend_from_slice(&[
        0, 0, 0, 0, 0, // ignored
        1, 0, 0, 0, 0, // junk data
    ]);

    let mut reader = ByteStream::new(data);
    let expected = Cartridge {
        version: 11,
        name: "thisisname".to_string(),
        desc: "descrição".to_string(),
        author: "me".to_string(),
        cover: vec![],
        font: vec![0; 16384],
        palette: vec![0, 0, 0, 255, 255, 255, 180, 180],
        map: vec![],
        code: "main()".to_string(),
    };

    let result = Cartridge::from_reader(&mut reader);
    assert!(result.is_ok());
    assert_eq!(result.unwrap(), expected);
    // The junk after the end chunk is not read.
    assert_eq!(reader.remaining(), 5);
}

#[test]
fn test_cartridge_from_reader_empty_data_and_chunks() {
    let mut reader = ByteStream::new(vec![
        // header
        1, // cart version
        0, // name size
        0, 0, // desc size
        0, // author size
        // cart
        1, // version
        // end
        0, 0, 0, 0, 0,
    ]);
    let expected = Cartridge {
        version: 1,
        name: "".to_string(),
        desc: "".to_string(),
        author: "".to_string(),
        cover: vec![],
        font: vec![],
        palette: vec![],
        map: vec![],
        code: "".to_string(),
    };

    let result = Cartridge::from_reader(&mut reader);
    assert!(result.is_ok());
    assert_eq!(result.unwrap(), expected);
}

#[test]
fn test_cartridge_from_reader_missing_data() {
    let mut reader = ByteStream::new(vec![
        // header
        1, // cart version
        0, // name size
        0, 0, // desc size
        0, // author size
        // cart
        1, // version
    ]);

    let result = Cartridge::from_reader(&mut reader);
    assert!(result.is_err());
    assert!(matches!(
        result.unwrap_err(),
        CartridgeError::Io(StreamError::UnexpectedEof)
    ));
}

#[test]
fn test_cartridge_from_reader_missing_end_chunk() {
    let mut reader = ByteStream::new(vec![
        // header
        1, // cart version
        0, // name size
        0, 0, // desc size
        0, // author size
    ]);

    let result = Cartridge::from_reader(&mut reader);
    assert!(result.is_err());
    assert!(matches!(
        result.unwrap_err(),
        CartridgeError::Io(StreamError::UnexpectedEof)
    ));
}

// The palette of this cartridge holds 12 bytes, which a palette chunk does
// not admit: the save writes what comes before the palette and fails.
#[test]
fn test_cartridge_save() {
    let cart = Cartridge {
        version: 11,
        name: "thisisname".to_string(),
        desc: "descrição".to_string(),
        author: "me".to_string(),
        cover: vec![],
        font: vec![0; 16384],
        palette: vec![0, 0, 0, 255, 255, 255, 180, 180, 180, 90, 90, 90],
        map: vec![],
        code: "main()".to_string(),
    };

    let mut expected = wire_preamble();

    // code chunk
    expected.extend_from_slice(&[
        2, 6, 0, 0, 0, // header
        109, 97, 105, 110, 40, 41, // data
    ]);

    // font chunk
    expected.extend_from_slice(&[
        3, 0, 64, 0, 0, // header
    ]);
    expected.extend_from_slice(&[0; 16384]);

    let written = expected.len();

    // room for the palette chunk and the end chunk, which are not written
    expected.extend_from_slice(&[0; 17]);
    expected.extend_from_slice(&[0; 5]);

    let mut writer = ByteStream::new(vec![0u8; expected.len()]);
    let result = cart.save(&mut writer);
    assert!(result.is_err());
    assert!(matches!(
        result.unwrap_err(),
        CartridgeError::InvalidChunkSize(ChunkType::Palette, 12, sizes) if sizes == vec![0, 4, 8, 16]
    ));
    assert_eq!(writer.position(), written);
    assert_eq!(writer.get_ref(), &expected);
}

#[test]
fn test_cartridge_save_valid_palette() {
    let cart = Cartridge {
        version: 11,
        name: "thisisname".to_string(),
        desc: "descrição".to_string(),
        author: "me".to_string(),
        cover: vec![],
        font: vec![0; 16384],
        palette: vec![0, 0, 0, 255, 255, 255, 180, 180, 180, 90, 90, 90, 1, 2, 3, 4],
        map: vec![],
        code: "main()".to_string(),
    };

    let mut expected = wire_preamble();

    // code chunk
    expected.extend_from_slice(&[
        2, 6, 0, 0, 0, // header
        109, 97, 105, 110, 40, 41, // data
    ]);

    // font chunk
    expected.extend_from_slice(&[
        3, 0, 64, 0, 0, // header
    ]);
    expected.extend_from_slice(&[0; 16384]);

    // palette chunk
    expected.extend_from_slice(&[
        4, 16, 0, 0, 0, // header
        0, 0, 0, 255, 255, 255, 180, 180, 180, 90, 90, 90, 1, 2, 3, 4, // data
    ]);

    // end chunk
    expected.extend_from_slice(&[
        0, 0, 0, 0, 0, // ignored
    ]);

    let mut writer = ByteStream::new(vec![0u8; expected.len()]);
    let result = cart.save(&mut writer);
    assert!(result.is_ok());
    assert_eq!(writer.get_ref(), &expected);
}

#[test]
fn test_cartridge_save_empty() {
    let cart = Cartridge::default();
    let expected: Vec<u8> = vec![1, 0, 0, 0, 0, 1, 0, 0, 0, 0, 0];

    let mut writer = ByteStream::new(vec![0u8; 5]);
    let result = cart.save(&mut writer);
    assert!(result.is_ok());
    assert_eq!(writer.get_ref(), &expected);
}

#[test]
fn test_cartridge_save_error() {
    let cart = Cartridge::default();

    let mut writer = ByteStream::fixed(vec![0u8; 1]);
    let result = cart.save(&mut writer);
    assert!(result.is_err());
    assert!(matches!(
        result.unwrap_err(),
        CartridgeError::Io(StreamError::WriteZero)
    ));
}

#[test]
fn test_cartridge_default() {
    let cart = Cartridge::default();
    assert_eq!(cart.version, DEFAULT_VERSION);
    assert_eq!(cart.version, 1);
    assert_eq!(cart.name, "".to_string());
    assert_eq!(cart.desc, "".to_string());
    assert_eq!(cart.author, "".to_string());
    assert_eq!(cart.cover, Vec::<u8>::new());
    assert_eq!(cart.font, Vec::<u8>::new());
    assert_eq!(cart.palette, Vec::<u8>::new());
    assert_eq!(cart.map, Vec::<u8>::new());
    assert_eq!(cart.code, "".to_string());
}
