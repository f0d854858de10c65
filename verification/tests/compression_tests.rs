use zff::HeaderCoding;
use zff::compression::{ascii_lower, codec_result, eq_ignore_ascii_case};
use zff::header::compression_header::CompressionHeader;
use zff::{compress_buffer, decompress_buffer, CompressionAlgorithm, Reader, ZffErrorKind};

fn sample() -> Vec<u8> {
    let mut buffer = Vec::new();
    for _ in 0..1024 {
        buffer.extend_from_slice(b"zff");
    }
    buffer
}

#[test]
fn zstd_round_trip() {
    let buffer = sample();
    let compressed = compress_buffer(&buffer, &CompressionAlgorithm::Zstd, 0).unwrap();
    assert!(compressed.len() < buffer.len());
    assert_eq!(&compressed[..4], &[0x28, 0xb5, 0x2f, 0xfd]);
    assert_eq!(decompress_buffer(&compressed, &CompressionAlgorithm::Zstd).unwrap(), buffer);
}

#[test]
fn lz4_frame_round_trip() {
    let buffer = sample();
    let compressed = compress_buffer(&buffer, &CompressionAlgorithm::Lz4, 0).unwrap();
    assert!(compressed.len() < buffer.len());
    assert_eq!(&compressed[..4], &[0x04, 0x22, 0x4d, 0x18]);
    assert_eq!(decompress_buffer(&compressed, &CompressionAlgorithm::Lz4).unwrap(), buffer);
}

#[test]
fn no_compression_is_the_identity() {
    let buffer = sample();
    let stored = compress_buffer(&buffer, &CompressionAlgorithm::Uncompressed, 9).unwrap();
    assert_eq!(stored, buffer);
    assert_eq!(decompress_buffer(&stored, &CompressionAlgorithm::Uncompressed).unwrap(), buffer);
    assert_eq!(decompress_buffer(&[], &CompressionAlgorithm::Uncompressed).unwrap(), vec![]);
}

#[test]
fn empty_buffers_round_trip() {
    for algorithm in [CompressionAlgorithm::Zstd, CompressionAlgorithm::Lz4] {
        let compressed = compress_buffer(&[], &algorithm, 0).unwrap();
        assert_eq!(decompress_buffer(&compressed, &algorithm).unwrap(), vec![]);
    }
}

#[test]
fn zstd_levels_round_trip() {
    let buffer = sample();
    for level in [1u8, 3, 19] {
        let compressed = compress_buffer(&buffer, &CompressionAlgorithm::Zstd, level).unwrap();
        assert_eq!(decompress_buffer(&compressed, &CompressionAlgorithm::Zstd).unwrap(), buffer);
    }
}

#[test]
fn garbage_does_not_decompress() {
    let garbage = vec![1u8, 2, 3, 4, 5, 6, 7, 8, 9];
    let err = decompress_buffer(&garbage, &CompressionAlgorithm::Zstd).unwrap_err();
    assert_eq!(err.get_kind(), &ZffErrorKind::Io);
    let err = decompress_buffer(&garbage, &CompressionAlgorithm::Lz4).unwrap_err();
    assert_eq!(err.get_kind(), &ZffErrorKind::Io);
}

#[test]
fn lz4_is_the_frame_format_not_zstd() {
    let buffer = sample();
    let compressed = compress_buffer(&buffer, &CompressionAlgorithm::Lz4, 0).unwrap();
    let err = decompress_buffer(&compressed, &CompressionAlgorithm::Zstd).unwrap_err();
    assert_eq!(err.get_kind(), &ZffErrorKind::Io);
}

#[test]
fn a_codec_that_gave_nothing_is_an_io_error() {
    assert_eq!(codec_result(Some(vec![1, 2])).unwrap(), vec![1, 2]);
    assert_eq!(codec_result(None).unwrap_err().get_kind(), &ZffErrorKind::Io);
}

#[test]
fn algorithm_names_are_read_in_any_case() {
    assert_eq!(CompressionAlgorithm::from("zstd"), CompressionAlgorithm::Zstd);
    assert_eq!(CompressionAlgorithm::from("ZSTD"), CompressionAlgorithm::Zstd);
    assert_eq!(CompressionAlgorithm::from("ZsTd"), CompressionAlgorithm::Zstd);
    assert_eq!(CompressionAlgorithm::from("lz4"), CompressionAlgorithm::Lz4);
    assert_eq!(CompressionAlgorithm::from("LZ4"), CompressionAlgorithm::Lz4);
    assert_eq!(CompressionAlgorithm::from("none"), CompressionAlgorithm::Uncompressed);
    assert_eq!(CompressionAlgorithm::from(""), CompressionAlgorithm::Uncompressed);
    assert_eq!(CompressionAlgorithm::from("zstd "), CompressionAlgorithm::Uncompressed);
    assert_eq!(CompressionAlgorithm::from("gzip"), CompressionAlgorithm::Uncompressed);
    assert_eq!(CompressionAlgorithm::from("lz"), CompressionAlgorithm::Uncompressed);
}

#[test]
fn ascii_case_is_ignored_for_letters_only() {
    assert_eq!(ascii_lower(b'A'), b'a');
    assert_eq!(ascii_lower(b'Z'), b'z');
    assert_eq!(ascii_lower(b'a'), b'a');
    assert_eq!(ascii_lower(b'@'), b'@');
    assert_eq!(ascii_lower(b'['), b'[');
    assert_eq!(ascii_lower(0xc4), 0xc4);
    assert!(eq_ignore_ascii_case(b"LZ4", b"lz4"));
    assert!(!eq_ignore_ascii_case(b"LZ4", b"lz5"));
    assert!(!eq_ignore_ascii_case(b"LZ4", b"lz"));
    assert!(eq_ignore_ascii_case(b"", b""));
}

#[test]
fn algorithm_selectors() {
    assert_eq!(CompressionAlgorithm::Uncompressed.selector(), 0);
    assert_eq!(CompressionAlgorithm::Zstd.selector(), 1);
    assert_eq!(CompressionAlgorithm::Lz4.selector(), 2);
    assert_eq!(CompressionAlgorithm::from_selector(0), Some(CompressionAlgorithm::Uncompressed));
    assert_eq!(CompressionAlgorithm::from_selector(1), Some(CompressionAlgorithm::Zstd));
    assert_eq!(CompressionAlgorithm::from_selector(2), Some(CompressionAlgorithm::Lz4));
    assert_eq!(CompressionAlgorithm::from_selector(3), None);
}

#[test]
fn compression_header_without_threshold_comes_back() {
    let header = CompressionHeader::new(1, CompressionAlgorithm::Zstd, 3, None);
    let encoded = header.encode_directly();
    assert_eq!(encoded, vec![0x7a, 0x66, 0x66, 0x63, 15, 0, 0, 0, 0, 0, 0, 0, 1, 1, 3]);
    let (decoded, end) = CompressionHeader::decode_at(&encoded, 0).unwrap();
    assert_eq!(end, 15);
    assert_eq!(decoded, header);
    assert_eq!(decoded.threshold(), None);
    assert_eq!(decoded.algorithm(), &CompressionAlgorithm::Zstd);
    assert_eq!(decoded.level(), 3);
    assert_eq!(decoded.version(), 1);
}

#[test]
fn compression_header_with_threshold_comes_back() {
    let header = CompressionHeader::new(2, CompressionAlgorithm::Lz4, 0, Some(0x3fa00000));
    let encoded = header.encode_directly();
    assert_eq!(
        encoded,
        vec![
            0x7a, 0x66, 0x66, 0x63, 23, 0, 0, 0, 0, 0, 0, 0, 2, 2, 0, 0x74, 0x68, 0x72, 0x73, 0,
            0, 0xa0, 0x3f
        ]
    );
    let mut reader = Reader::new(encoded);
    let decoded = CompressionHeader::decode_directly(&mut reader).unwrap();
    assert_eq!(reader.stream_position(), 23);
    assert_eq!(decoded, header);
    assert_eq!(decoded.threshold(), Some(0x3fa00000));
}

#[test]
fn compression_header_with_unknown_algorithm_is_malformed() {
    let err = CompressionHeader::decode_content(vec![1, 3, 0]).unwrap_err();
    assert_eq!(err.get_kind(), &ZffErrorKind::MalformedHeader);
    let err = CompressionHeader::decode_content(vec![1, 1]).unwrap_err();
    assert_eq!(err.get_kind(), &ZffErrorKind::MalformedInput);
    let err =
        CompressionHeader::decode_content(vec![1, 1, 0, 0x74, 0x68, 0x72, 0x73, 0]).unwrap_err();
    assert_eq!(err.get_kind(), &ZffErrorKind::MalformedInput);
}
