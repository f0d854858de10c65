use zff::HeaderCoding;
use zff::chunk::{crc32, decode_chunk_record, encode_chunk, encode_encrypted_chunk};
use zff::constants::{HEADER_IDENTIFIER_CHUNK_HEADER, SIGNATURE_LENGTH};
use zff::{
    ChunkHeader, CompressionAlgorithm, Encryption, EncryptionAlgorithm, Reader, ZffErrorKind,
};

#[test]
fn crc32_of_abc() {
    assert_eq!(crc32(&[0x61, 0x62, 0x63]), 0x352441C2);
    assert_eq!(crc32(&[]), 0);
    assert_eq!(crc32(b"123456789"), 0xCBF43926);
}

#[test]
fn the_signature_length_is_that_of_ed25519() {
    assert_eq!(SIGNATURE_LENGTH, 64);
    assert_eq!(SIGNATURE_LENGTH, ed25519_dalek::SIGNATURE_LENGTH);
}

#[test]
fn plain_chunk_header_has_34_bytes_and_comes_back() {
    let header = ChunkHeader::new(1, 7, 3, crc32(&[0x61, 0x62, 0x63]), false, false, None);
    let encoded = header.encode_directly();
    assert_eq!(encoded.len(), 4 + 8 + 1 + 8 + 8 + 4 + 1);
    let expected: Vec<u8> = vec![
        0x7a, 0x66, 0x66, 0x43, 34, 0, 0, 0, 0, 0, 0, 0, 1, 7, 0, 0, 0, 0, 0, 0, 0, 3, 0, 0, 0,
        0, 0, 0, 0, 0xc2, 0x41, 0x24, 0x35, 0,
    ];
    assert_eq!(encoded, expected);
    let (decoded, end) = ChunkHeader::decode_at(&encoded, 0).unwrap();
    assert_eq!(end, 34);
    assert_eq!(decoded, header);
    assert_eq!(decoded.version(), 1);
    assert_eq!(decoded.chunk_number(), 7);
    assert_eq!(*decoded.chunk_size(), 3);
    assert_eq!(decoded.crc32(), 0x352441C2);
    assert!(!decoded.error_flag());
    assert!(!decoded.compression_flag());
    assert_eq!(decoded.signature(), &None);
    assert_eq!(header.header_size(), 34);
}

#[test]
fn chunk_header_content_has_21_or_85_bytes_behind_the_version() {
    let plain = ChunkHeader::new(1, 1, 0, 0, false, false, None);
    assert_eq!(plain.encode_header().len(), 1 + 21);
    let signed = ChunkHeader::new(1, 1, 0, 0, false, false, Some([7u8; 64]));
    assert_eq!(signed.encode_header().len(), 1 + 85);
    assert_eq!(signed.encode_directly().len(), 12 + 86);
    assert_eq!(signed.header_size(), 98);
}

#[test]
fn signed_chunk_header_comes_back() {
    let mut signature = [0u8; 64];
    for (i, byte) in signature.iter_mut().enumerate() {
        *byte = i as u8;
    }
    let header = ChunkHeader::new(2, u64::MAX, 1 << 40, 0xdeadbeef, true, true, Some(signature));
    let encoded = header.encode_directly();
    assert_eq!(encoded[33], 3);
    assert_eq!(&encoded[34..], &signature[..]);
    let mut reader = Reader::new(encoded.clone());
    let decoded = ChunkHeader::decode_directly(&mut reader).unwrap();
    assert_eq!(reader.stream_position(), 98);
    assert_eq!(decoded, header);
    assert!(decoded.error_flag());
    assert!(decoded.compression_flag());
    assert_eq!(decoded.signature(), &Some(signature));
}

#[test]
fn chunk_flags_are_bit_0_and_bit_1() {
    let error = ChunkHeader::new(1, 1, 0, 0, true, false, None);
    assert_eq!(error.encode_header()[21], 1);
    let compressed = ChunkHeader::new(1, 1, 0, 0, false, true, None);
    assert_eq!(compressed.encode_header()[21], 2);
    let mut content = error.encode_header();
    content[21] = 0xfe;
    let decoded = ChunkHeader::decode_content(content).unwrap();
    assert!(!decoded.error_flag());
    assert!(decoded.compression_flag());
}

#[test]
fn the_signature_is_there_if_more_than_one_byte_is_left() {
    let header = ChunkHeader::new(1, 1, 0, 0, false, false, None);
    let mut content = header.encode_header();
    content.push(9);
    let decoded = ChunkHeader::decode_content(content.clone()).unwrap();
    assert_eq!(decoded.signature(), &None);
    content.push(9);
    let err = ChunkHeader::decode_content(content.clone()).unwrap_err();
    assert_eq!(err.get_kind(), &ZffErrorKind::MalformedInput);
    content.extend_from_slice(&[9; 62]);
    let decoded = ChunkHeader::decode_content(content).unwrap();
    assert_eq!(decoded.signature(), &Some([9u8; 64]));
}

#[test]
fn short_chunk_header_content_is_malformed_input() {
    let header = ChunkHeader::new(1, 1, 0, 0, false, false, None);
    let mut content = header.encode_header();
    content.pop();
    let err = ChunkHeader::decode_content(content).unwrap_err();
    assert_eq!(err.get_kind(), &ZffErrorKind::MalformedInput);
    let err = ChunkHeader::decode_content(vec![]).unwrap_err();
    assert_eq!(err.get_kind(), &ZffErrorKind::MalformedInput);
}

#[test]
fn chunk_header_of_another_identifier_is_a_mismatch() {
    let mut encoded = ChunkHeader::new(1, 1, 0, 0, false, false, None).encode_directly();
    encoded[3] = 0x44;
    let mut reader = Reader::new(encoded);
    let err = ChunkHeader::decode_directly(&mut reader).unwrap_err();
    assert_eq!(err.get_kind(), &ZffErrorKind::HeaderDecodeMismatchIdentifier);
    assert_eq!(reader.stream_position(), 0);
    assert_eq!(ChunkHeader::identifier(), HEADER_IDENTIFIER_CHUNK_HEADER);
}

#[test]
fn an_empty_chunk_header_is_filled_afterwards() {
    let mut header = ChunkHeader::new_empty(1, 12);
    assert_eq!(header, ChunkHeader::new(1, 12, 0, 0, false, false, None));
    header.set_chunk_size(4096);
    header.set_crc32(0x01020304);
    header.set_compression_flag();
    header.set_signature(Some([1u8; 64]));
    assert_eq!(header, ChunkHeader::new(1, 12, 4096, 0x01020304, false, true, Some([1u8; 64])));
    header.set_signature(None);
    assert_eq!(header.signature(), &None);
}

#[test]
fn a_chunk_record_carries_the_crc32_of_the_plain_data() {
    let data = b"zffzffzffzffzffzffzffzffzffzffzffzff".to_vec();
    for algorithm in [
        CompressionAlgorithm::Uncompressed,
        CompressionAlgorithm::Zstd,
        CompressionAlgorithm::Lz4,
    ] {
        let record = encode_chunk(1, 5, &data, &algorithm, 0).unwrap();
        let (header, payload, end) = decode_chunk_record(&record, 0).unwrap();
        assert_eq!(end, record.len());
        assert_eq!(header.crc32(), crc32(&data));
        assert_eq!(header.chunk_number(), 5);
        assert_eq!(*header.chunk_size(), payload.len() as u64);
        assert_eq!(header.compression_flag(), algorithm != CompressionAlgorithm::Uncompressed);
        assert!(!header.error_flag());
        assert_eq!(zff::decompress_buffer(&payload, &algorithm).unwrap(), data);
    }
}

#[test]
fn an_uncompressed_chunk_record_is_header_then_data() {
    let record = encode_chunk(1, 1, &[0x61, 0x62, 0x63], &CompressionAlgorithm::Uncompressed, 0)
        .unwrap();
    let header = ChunkHeader::new(1, 1, 3, 0x352441C2, false, false, None);
    let mut expected = header.encode_directly();
    expected.extend_from_slice(&[0x61, 0x62, 0x63]);
    assert_eq!(record, expected);
}

#[test]
fn a_chunk_record_cut_short_is_an_io_error() {
    let mut record = encode_chunk(1, 1, &[1, 2, 3], &CompressionAlgorithm::Uncompressed, 0)
        .unwrap();
    record.pop();
    let err = decode_chunk_record(&record, 0).unwrap_err();
    assert_eq!(err.get_kind(), &ZffErrorKind::Io);
    let err = decode_chunk_record(&record, 1).unwrap_err();
    assert_eq!(err.get_kind(), &ZffErrorKind::HeaderDecodeMismatchIdentifier);
}

#[test]
fn an_encrypted_chunk_record_opens_under_its_number() {
    let key = [0x42u8; 32];
    let data = vec![7u8; 1000];
    let algorithm = EncryptionAlgorithm::AES256GCMSIV;
    let record =
        encode_encrypted_chunk(1, 9, &data, &CompressionAlgorithm::Zstd, 3, &key, &algorithm)
            .unwrap();
    let (header, payload, _) = decode_chunk_record(&record, 0).unwrap();
    assert_eq!(header.crc32(), crc32(&data));
    assert_eq!(*header.chunk_size(), payload.len() as u64);
    let opened = Encryption::decrypt_message(&key, &payload, 9, &algorithm).unwrap();
    assert_eq!(zff::decompress_buffer(&opened, &CompressionAlgorithm::Zstd).unwrap(), data);
    let err = Encryption::decrypt_message(&key, &payload, 10, &algorithm).unwrap_err();
    assert_eq!(err.get_kind(), &ZffErrorKind::DecryptionFailed);
    let err = encode_encrypted_chunk(
        1,
        9,
        &data,
        &CompressionAlgorithm::Zstd,
        3,
        &key[..5],
        &algorithm,
    )
    .unwrap_err();
    assert_eq!(err.get_kind(), &ZffErrorKind::EncryptionFailed);
}
