use raytracer::png::{ChunkType, PngError};
use std::convert::TryFrom;
use std::str::FromStr;

#[test]
pub fn test_chunk_type_from_bytes() {
    let expected = [82, 117, 83, 116];
    let actual = ChunkType::try_from([82, 117, 83, 116]).unwrap();

    assert_eq!(expected, actual.bytes());
}

#[test]
pub fn test_chunk_type_from_str() {
    let expected = ChunkType::try_from([82, 117, 83, 116]).unwrap();
    let actual = ChunkType::from_str("RuSt").unwrap();
    assert_eq!(expected, actual);
}

#[test]
pub fn test_chunk_type_is_critical() {
    let chunk = ChunkType::from_str("RuSt").unwrap();
    assert!(chunk._is_critical());
}

#[test]
pub fn test_chunk_type_is_not_critical() {
    let chunk = ChunkType::from_str("ruSt").unwrap();
    assert!(!chunk._is_critical());
}

#[test]
pub fn test_chunk_type_is_public() {
    let chunk = ChunkType::from_str("RUSt").unwrap();
    assert!(chunk._is_public());
}

#[test]
pub fn test_chunk_type_is_not_public() {
    let chunk = ChunkType::from_str("RuSt").unwrap();
    assert!(!chunk._is_public());
}

#[test]
pub fn test_chunk_type_is_reserved_bit_valid() {
    let chunk = ChunkType::from_str("RuSt").unwrap();
    assert!(chunk._is_reserved_bit_valid());
}

#[test]
pub fn test_chunk_type_is_reserved_bit_invalid() {
    let chunk = ChunkType::from_str("Rust").unwrap();
    assert!(!chunk._is_reserved_bit_valid());
}

#[test]
pub fn test_chunk_type_is_safe_to_copy() {
    let chunk = ChunkType::from_str("RuSt").unwrap();
    assert!(chunk._is_safe_to_copy());
}

#[test]
pub fn test_chunk_type_is_unsafe_to_copy() {
    let chunk = ChunkType::from_str("RuST").unwrap();
    assert!(!chunk._is_safe_to_copy());
}

#[test]
pub fn test_valid_chunk_is_valid() {
    let chunk = ChunkType::from_str("RuSt").unwrap();
    assert!(chunk._is_valid());
}

#[test]
pub fn test_invalid_chunk_is_valid() {
    let chunk = ChunkType::from_str("Rust").unwrap();
    assert!(!chunk._is_valid());

    let chunk = ChunkType::from_str("Ru1t");
    assert!(chunk.is_err());
}

#[test]
pub fn test_chunk_type_string() {
    let chunk = ChunkType::from_str("RuSt").unwrap();
    assert_eq!(&chunk.to_string(), "RuSt");
}

#[test]
pub fn test_chunk_type_trait_impls() {
    let chunk_type_1: ChunkType = TryFrom::try_from([82, 117, 83, 116]).unwrap();
    let chunk_type_2: ChunkType = FromStr::from_str("RuSt").unwrap();
    let _chunk_string = format!("{}", chunk_type_1.to_string());
    let _are_chunks_equal = chunk_type_1 == chunk_type_2;
}

#[test]
fn chunk_type_errors_name_their_cause() {
    assert_eq!(ChunkType::from_str("Ru1t").unwrap_err(), PngError::InvalidTypeCode);
    assert_eq!(ChunkType::from_str("RuS").unwrap_err(), PngError::InvalidLength);
    assert_eq!(ChunkType::from_str("RuStt").unwrap_err(), PngError::InvalidLength);
    assert_eq!(ChunkType::from_str("").unwrap_err(), PngError::InvalidLength);
    // Two letters of two bytes each: four bytes, none of them a letter.
    assert_eq!(ChunkType::from_str("éé").unwrap_err(), PngError::InvalidTypeCode);
    assert_eq!(ChunkType::try_from([82, 117, 64, 116]).unwrap_err(), PngError::InvalidTypeCode);
    assert_eq!(ChunkType::try_from([82, 117, 91, 116]).unwrap_err(), PngError::InvalidTypeCode);
    assert_eq!(ChunkType::try_from([96, 117, 83, 116]).unwrap_err(), PngError::InvalidTypeCode);
    assert_eq!(ChunkType::try_from([82, 123, 83, 116]).unwrap_err(), PngError::InvalidTypeCode);
    assert!(ChunkType::try_from([65, 90, 97, 122]).is_ok());
}

#[test]
fn type_code_letters() {
    for ch in 0..=255u8 {
        assert_eq!(
            raytracer::png::chunk_type::is_valid_type_code(ch),
            ch.is_ascii_alphabetic()
        );
    }
}
