use raytracer::png::{crc_checksum, Chunk, ChunkType, PngError};
use std::convert::TryFrom;
use std::str::FromStr;

fn testing_chunk() -> Chunk {
    let data_length: u32 = 42;
    let chunk_type = "RuSt".as_bytes();
    let message_bytes = "This is where your secret message will be!".as_bytes();
    let crc: u32 = 2882656334;

    let chunk_data: Vec<u8> = data_length
        .to_be_bytes()
        .iter()
        .chain(chunk_type.iter())
        .chain(message_bytes.iter())
        .chain(crc.to_be_bytes().iter())
        .copied()
        .collect();

    Chunk::try_from(chunk_data.as_ref()).unwrap()
}

#[test]
fn test_new_chunk() {
    let chunk_type = ChunkType::from_str("RuSt").unwrap();
    let data = "This is where your secret message will be!"
        .as_bytes()
        .to_vec();
    let chunk = Chunk::new(chunk_type, data);
    assert_eq!(chunk._length(), 42);
    assert_eq!(chunk._crc(), 2882656334);
}

#[test]
fn test_chunk_length() {
    let chunk = testing_chunk();
    assert_eq!(chunk._length(), 42);
}

#[test]
fn test_chunk_type() {
    let chunk = testing_chunk();
    assert_eq!(chunk._chunk_type().to_string(), String::from("RuSt"));
}

#[test]
fn test_chunk_string() {
    let chunk = testing_chunk();
    let chunk_string = chunk._data_as_string().unwrap();
    let expected_chunk_string = String::from("This is where your secret message will be!");
    assert_eq!(chunk_string, expected_chunk_string);
}

#[test]
fn test_chunk_crc() {
    let chunk = testing_chunk();
    assert_eq!(chunk._crc(), 2882656334);
}

#[test]
fn test_valid_chunk_from_bytes() {
    let data_length: u32 = 42;
    let chunk_type = "RuSt".as_bytes();
    let message_bytes = "This is where your secret message will be!".as_bytes();
    let crc: u32 = 2882656334;

    let chunk_data: Vec<u8> = data_length
        .to_be_bytes()
        .iter()
        .chain(chunk_type.iter())
        .chain(message_bytes.iter())
        .chain(crc.to_be_bytes().iter())
        .copied()
        .collect();

    let chunk = Chunk::try_from(chunk_data.as_ref()).unwrap();

    let chunk_string = chunk._data_as_string().unwrap();
    let expected_chunk_string = String::from("This is where your secret message will be!");

    assert_eq!(chunk._length(), 42);
    assert_eq!(chunk._chunk_type().to_string(), String::from("RuSt"));
    assert_eq!(chunk_string, expected_chunk_string);
    assert_eq!(chunk._crc(), 2882656334);
}

#[test]
fn test_invalid_chunk_from_bytes() {
    let data_length: u32 = 42;
    let chunk_type = "RuSt".as_bytes();
    let message_bytes = "This is where your secret message will be!".as_bytes();
    let crc: u32 = 2882656333;

    let chunk_data: Vec<u8> = data_length
        .to_be_bytes()
        .iter()
        .chain(chunk_type.iter())
        .chain(message_bytes.iter())
        .chain(crc.to_be_bytes().iter())
        .copied()
        .collect();

    let chunk = Chunk::try_from(chunk_data.as_ref());

    assert!(chunk.is_err());
}

#[test]
pub fn test_chunk_trait_impls() {
    let data_length: u32 = 42;
    let chunk_type = "RuSt".as_bytes();
    let message_bytes = "This is where your secret message will be!".as_bytes();
    let crc: u32 = 2882656334;

    let chunk_data: Vec<u8> = data_length
        .to_be_bytes()
        .iter()
        .chain(chunk_type.iter())
        .chain(message_bytes.iter())
        .chain(crc.to_be_bytes().iter())
        .copied()
        .collect();

    let chunk: Chunk = TryFrom::try_from(chunk_data.as_ref()).unwrap();

    let _chunk_string = format!("{:?}", chunk);
}

#[test]
fn crc_of_known_messages() {
    assert_eq!(crc_checksum(b""), 0);
    assert_eq!(crc_checksum(b"123456789"), 0xcbf4_3926);
    assert_eq!(crc_checksum(b"IEND"), 0xae42_6082);
    assert_eq!(crc_checksum(b"a"), 0xe8b7_be43);
}

#[test]
fn chunk_round_trip() {
    let payloads: [&[u8]; 4] = [b"", b"\x00", b"hello", &[255, 0, 255, 0, 17]];
    for code in ["IHDR", "IDAT", "IEND", "tEXt"] {
        for payload in payloads {
            let chunk = Chunk::new(ChunkType::from_str(code).unwrap(), payload.to_vec());
            let wire = chunk.as_bytes();
            assert_eq!(wire.len(), 12 + payload.len());
            assert_eq!(&wire[0..4], (payload.len() as u32).to_be_bytes());
            assert_eq!(&wire[4..8], code.as_bytes());
            assert_eq!(&wire[8..8 + payload.len()], payload);
            let back = Chunk::try_from(wire.as_slice()).unwrap();
            assert_eq!(back._length(), chunk._length());
            assert_eq!(back._chunk_type(), chunk._chunk_type());
            assert_eq!(back._crc(), chunk._crc());
            assert_eq!(back.as_bytes(), wire);
        }
    }
}

#[test]
fn chunk_with_one_changed_data_byte_is_rejected() {
    let chunk = Chunk::new(ChunkType::from_str("RuSt").unwrap(), b"secret".to_vec());
    let wire = chunk.as_bytes();
    for i in 8..wire.len() - 4 {
        for flip in [1u8, 0x80, 0xff] {
            let mut bad = wire.clone();
            bad[i] ^= flip;
            assert_eq!(Chunk::try_from(bad.as_slice()).unwrap_err(), PngError::InvalidCrc);
        }
    }
}

#[test]
fn chunk_errors_name_their_cause() {
    let wire = Chunk::new(ChunkType::from_str("RuSt").unwrap(), b"secret".to_vec()).as_bytes();
    for n in 0..8 {
        assert_eq!(Chunk::try_from(&wire[..n]).unwrap_err(), PngError::UnexpectedEof);
    }
    for n in 8..wire.len() {
        assert_eq!(Chunk::try_from(&wire[..n]).unwrap_err(), PngError::UnexpectedEof);
    }
    let mut bad_type = wire.clone();
    bad_type[5] = b'1';
    assert_eq!(Chunk::try_from(bad_type.as_slice()).unwrap_err(), PngError::InvalidTypeCode);
    // The type is looked at before the length of the input.
    assert_eq!(Chunk::try_from(&bad_type[..8]).unwrap_err(), PngError::InvalidTypeCode);
    let mut bad_crc = wire.clone();
    let last = bad_crc.len() - 1;
    bad_crc[last] ^= 1;
    assert_eq!(Chunk::try_from(bad_crc.as_slice()).unwrap_err(), PngError::InvalidCrc);
    // What follows the chunk is not looked at.
    let mut longer = wire.clone();
    longer.extend_from_slice(&[1, 2, 3]);
    assert_eq!(Chunk::try_from(longer.as_slice()).unwrap().as_bytes(), wire);
    // A length field that promises more than the input holds.
    let huge = [0xff, 0xff, 0xff, 0xff, b'R', b'u', b'S', b't', 0, 0, 0, 0];
    assert_eq!(Chunk::try_from(&huge[..]).unwrap_err(), PngError::UnexpectedEof);
}

#[test]
fn chunk_data_that_is_no_text() {
    let chunk = Chunk::new(ChunkType::from_str("RuSt").unwrap(), vec![0xff, 0xfe]);
    assert_eq!(chunk._data_as_string().unwrap_err(), PngError::InvalidUtf8);
    let chunk = Chunk::new(ChunkType::from_str("RuSt").unwrap(), "héllo".as_bytes().to_vec());
    assert_eq!(chunk._data_as_string().unwrap(), "héllo");
}
