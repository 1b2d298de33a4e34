use pngme::chunk::{Chunk, ChunkError};
use pngme::chunk_type::{ChunkType, ChunkTypeError};

fn encoded_fixture() -> Vec<u8> {
    let data_length: u32 = 42;
    let chunk_type = "RuSt".as_bytes();
    let message_bytes = "This is where your secret message will be!".as_bytes();
    let crc: u32 = 2882656334;

    data_length
        .to_be_bytes()
        .iter()
        .chain(chunk_type.iter())
        .chain(message_bytes.iter())
        .chain(crc.to_be_bytes().iter())
        .copied()
        .collect()
}

#[test]
fn round_trip_decode_of_encode() {
    let chunk_type = ChunkType::from_str("RuSt").unwrap();
    let data = "This is where your secret message will be!"
        .as_bytes()
        .to_vec();
    let chunk = Chunk::new(chunk_type, data);
    let encoded = chunk.as_bytes();
    let decoded = Chunk::try_from_bytes(&encoded).unwrap();
    assert!(decoded == chunk);
}

#[test]
fn encode_matches_wire_layout() {
    let chunk_type = ChunkType::from_str("RuSt").unwrap();
    let data = "This is where your secret message will be!"
        .as_bytes()
        .to_vec();
    let chunk = Chunk::new(chunk_type, data);
    assert_eq!(chunk.as_bytes(), encoded_fixture());
}

#[test]
fn crc_depends_on_data() {
    let first = Chunk::new(ChunkType::from_str("RuSt").unwrap(), vec![1, 2, 3]);
    let second = Chunk::new(ChunkType::from_str("RuSt").unwrap(), vec![1, 2, 4]);
    let same = Chunk::new(ChunkType::from_str("RuSt").unwrap(), vec![1, 2, 3]);
    assert_ne!(first.crc(), second.crc());
    assert_eq!(first.crc(), same.crc());
}

#[test]
fn tag_validity_cases() {
    assert!(ChunkType::from_str("RuSt").unwrap().is_valid());
    assert!(!ChunkType::from_str("Rust").unwrap().is_valid());
    assert_eq!(
        ChunkType::from_str("Ru1t"),
        Err(ChunkTypeError::InvalidCharacter)
    );
    assert_eq!(
        ChunkType::from_str("abc"),
        Err(ChunkTypeError::WrongLength(3))
    );
    assert_eq!(
        ChunkType::from_str("abcde"),
        Err(ChunkTypeError::WrongLength(5))
    );
}

#[test]
fn tag_bit_predicates() {
    let rust_mixed = ChunkType::from_str("RuSt").unwrap();
    assert!(rust_mixed.is_critical());
    assert!(!rust_mixed.is_public());
    assert!(rust_mixed.is_reserved_bit_valid());
    assert!(rust_mixed.is_safe_to_copy());

    let upper_last = ChunkType::from_str("RuST").unwrap();
    assert!(!upper_last.is_safe_to_copy());
}

#[test]
fn tag_from_bytes_equals_from_str() {
    let from_bytes = ChunkType::from_bytes([82, 117, 83, 116]);
    let from_text = ChunkType::from_str("RuSt").unwrap();
    assert!(from_bytes == from_text);
}

#[test]
fn corrupting_any_crc_byte_fails_decode() {
    let good = encoded_fixture();
    let crc_start = good.len() - 4;
    for i in crc_start..good.len() {
        let mut bad = good.clone();
        bad[i] ^= 0x01;
        let result = Chunk::try_from_bytes(&bad);
        assert!(matches!(result, Err(ChunkError::InvalidCrc(_, _))));
    }
}

#[test]
fn truncated_inputs_fail_cleanly() {
    assert_eq!(Chunk::try_from_bytes(&[]), Err(ChunkError::InputTooSmall));
    assert_eq!(
        Chunk::try_from_bytes(&[0, 0, 0]),
        Err(ChunkError::InputTooSmall)
    );
    assert_eq!(
        Chunk::try_from_bytes(&[0, 0, 0, 1, 82, 117]),
        Err(ChunkError::TruncatedInput)
    );
    // declares 5 data bytes but holds only 2 before the CRC field
    let short = [0u8, 0, 0, 5, 82, 117, 83, 116, 1, 2, 9, 9, 9, 9];
    assert_eq!(
        Chunk::try_from_bytes(&short),
        Err(ChunkError::TruncatedInput)
    );
    // a full fixture cut off anywhere inside data or CRC is refused
    let good = encoded_fixture();
    for cut in 8..good.len() {
        let result = Chunk::try_from_bytes(&good[..cut]);
        assert_eq!(result, Err(ChunkError::TruncatedInput));
    }
}

#[test]
fn invalid_tag_in_buffer_is_refused() {
    // "Rust": the reserved bit of the third byte is set, so the tag is
    // invalid even though the rest of the record is well-formed
    let tag = "Rust".as_bytes();
    let data = [7u8, 8, 9];
    let mut joined: Vec<u8> = tag.to_vec();
    joined.extend_from_slice(&data);
    let crc = crc32fast::hash(&joined);
    let buf: Vec<u8> = (data.len() as u32)
        .to_be_bytes()
        .iter()
        .chain(tag.iter())
        .chain(data.iter())
        .chain(crc.to_be_bytes().iter())
        .copied()
        .collect();
    assert_eq!(
        Chunk::try_from_bytes(&buf),
        Err(ChunkError::InvalidChunkType)
    );
}

#[test]
fn non_utf8_data_has_no_text() {
    let chunk = Chunk::new(ChunkType::from_str("RuSt").unwrap(), vec![0xff, 0xfe]);
    assert_eq!(chunk.data_as_string(), Err(ChunkError::NotUtf8));
}

#[test]
fn non_utf8_tag_is_not_renderable() {
    let tag = ChunkType::from_bytes([0xff, 0xff, 0xff, 0xff]);
    assert_eq!(tag.to_text(), Err(ChunkTypeError::NotRenderable));
}

#[test]
fn empty_data_chunk_round_trips() {
    let chunk = Chunk::new(ChunkType::from_str("RuSt").unwrap(), Vec::new());
    assert_eq!(chunk.length(), 0);
    let encoded = chunk.as_bytes();
    assert_eq!(encoded.len(), 12);
    let decoded = Chunk::try_from_bytes(&encoded).unwrap();
    assert!(decoded == chunk);
    assert_eq!(decoded.data(), &[] as &[u8]);
}
