use zff::HeaderCoding;
use zff::codec::{encode_bytes, encode_string, encode_u64, encode_u8};
use zff::constants::HEADER_IDENTIFIER_FILE_HEADER;
use zff::framing::encode_frame;
use zff::Encryption;
use zff::header::encryption_header::EncryptionHeader;
use zff::header::pbe_header::{KDFParameters, PBEHeader, PBKDF2SHA256Parameters};
use zff::{
    EncryptionAlgorithm, FileHeader, FileType, KDFScheme, MetadataMap, PBEScheme, Reader,
    ZffErrorKind,
};

fn metadata() -> MetadataMap {
    let mut map = MetadataMap::new();
    map.insert("uid".to_string(), "1000".to_string());
    map.insert("gid".to_string(), "100".to_string());
    map.insert("mode".to_string(), "0644".to_string());
    map
}

fn sample() -> FileHeader {
    FileHeader::new(
        2,
        17,
        FileType::File,
        "textfile.txt".to_string(),
        3,
        1_600_000_001,
        1_600_000_002,
        1_600_000_003,
        1_600_000_004,
        metadata(),
    )
}

fn encryption_header(algorithm: EncryptionAlgorithm) -> EncryptionHeader {
    let parameters =
        KDFParameters::PBKDF2SHA256Parameters(PBKDF2SHA256Parameters::new(10, vec![0u8; 16]));
    let pbe = PBEHeader::new(1, KDFScheme::PBKDF2SHA256, PBEScheme::AES256CBC, parameters, [0u8; 16]);
    EncryptionHeader::new(1, pbe, algorithm, vec![0u8; 48], [6u8; 12])
}

#[test]
fn metadata_map_keeps_the_order_of_insertion() {
    let map = metadata();
    assert_eq!(map.len(), 3);
    assert_eq!(map.entry(0), Some((&"uid".to_string(), &"1000".to_string())));
    assert_eq!(map.entry(1), Some((&"gid".to_string(), &"100".to_string())));
    assert_eq!(map.entry(2), Some((&"mode".to_string(), &"0644".to_string())));
    assert_eq!(map.get(&"gid".to_string()), Some(&"100".to_string()));
    assert_eq!(map.get(&"nope".to_string()), None);
    assert_eq!(MetadataMap::new().len(), 0);
}

#[test]
fn metadata_map_replaces_a_value_in_its_place() {
    let mut map = metadata();
    map.insert("uid".to_string(), "0".to_string());
    assert_eq!(map.len(), 3);
    assert_eq!(map.entry(0), Some((&"uid".to_string(), &"0".to_string())));
    assert_eq!(map.entry(1), Some((&"gid".to_string(), &"100".to_string())));
    assert_eq!(map.get(&"uid".to_string()), Some(&"0".to_string()));
    let copy = map.clone();
    assert_eq!(copy, map);
}

#[test]
fn metadata_map_is_count_then_entries() {
    let mut map = MetadataMap::new();
    map.insert("a".to_string(), "bc".to_string());
    let mut expected = encode_u64(1);
    expected.extend_from_slice(&encode_string("a"));
    expected.extend_from_slice(&encode_string("bc"));
    assert_eq!(map.encode_directly(), expected);
    assert_eq!(MetadataMap::decode_at(&expected, 0).unwrap(), (map, expected.len()));
    assert_eq!(MetadataMap::new().encode_directly(), vec![0u8; 8]);
}

#[test]
fn metadata_map_round_trip_keeps_order() {
    let map = metadata();
    let encoded = map.encode_directly();
    let (decoded, end) = MetadataMap::decode_at(&encoded, 0).unwrap();
    assert_eq!(end, encoded.len());
    assert_eq!(decoded, map);
    assert_eq!(decoded.entry(0).unwrap().0, "uid");
    assert_eq!(decoded.entry(2).unwrap().0, "mode");
    assert_eq!(decoded.entry(3), None);
}

#[test]
fn metadata_map_reads_a_repeated_key_once() {
    let mut encoded = encode_u64(3);
    for (key, value) in [("a", "1"), ("b", "2"), ("a", "3")] {
        encoded.extend_from_slice(&encode_string(key));
        encoded.extend_from_slice(&encode_string(value));
    }
    let (decoded, end) = MetadataMap::decode_at(&encoded, 0).unwrap();
    assert_eq!(end, encoded.len());
    assert_eq!(decoded.len(), 2);
    assert_eq!(decoded.entry(0), Some((&"a".to_string(), &"3".to_string())));
    assert_eq!(decoded.entry(1), Some((&"b".to_string(), &"2".to_string())));
}

#[test]
fn metadata_map_with_too_few_entries_is_malformed_input() {
    let mut encoded = encode_u64(2);
    encoded.extend_from_slice(&encode_string("a"));
    encoded.extend_from_slice(&encode_string("1"));
    let err = MetadataMap::decode_at(&encoded, 0).unwrap_err();
    assert_eq!(err.get_kind(), &ZffErrorKind::MalformedInput);
    let err = MetadataMap::decode_at(&encode_u64(u64::MAX), 0).unwrap_err();
    assert_eq!(err.get_kind(), &ZffErrorKind::MalformedInput);
}

#[test]
fn file_type_names_and_selectors() {
    assert_eq!(FileType::File.selector(), 1);
    assert_eq!(FileType::Directory.selector(), 2);
    assert_eq!(FileType::Symlink.selector(), 3);
    assert_eq!(FileType::Hardlink.selector(), 4);
    assert_eq!(FileType::from_selector(0), None);
    assert_eq!(FileType::from_selector(1), Some(FileType::File));
    assert_eq!(FileType::from_selector(4), Some(FileType::Hardlink));
    assert_eq!(FileType::from_selector(5), None);
    assert_eq!(FileType::File.name(), "File");
    assert_eq!(FileType::Directory.name(), "Directory");
    assert_eq!(FileType::Symlink.name(), "Symlink");
    assert_eq!(FileType::Hardlink.name(), "Hardlink");
}

#[test]
fn file_header_comes_back() {
    let header = sample();
    let encoded = header.encode_directly();
    assert_eq!(&encoded[..4], &[0x7a, 0x66, 0x66, 0x66]);
    assert_eq!(encoded[12], 2);
    assert_eq!(&encoded[13..21], &[17, 0, 0, 0, 0, 0, 0, 0]);
    assert_eq!(encoded[21], 1);
    let (decoded, end) = FileHeader::decode_at(&encoded, 0).unwrap();
    assert_eq!(end, encoded.len());
    assert_eq!(decoded, header);
    assert_eq!(decoded.version(), 2);
    assert_eq!(decoded.file_number(), 17);
    assert_eq!(decoded.file_type(), FileType::File);
    assert_eq!(decoded.filename(), "textfile.txt");
    assert_eq!(decoded.parent_file_number(), 3);
    assert_eq!(decoded.atime(), 1_600_000_001);
    assert_eq!(decoded.mtime(), 1_600_000_002);
    assert_eq!(decoded.ctime(), 1_600_000_003);
    assert_eq!(decoded.btime(), 1_600_000_004);
    assert_eq!(decoded.metadata_ext(), &metadata());
    let mut reader = Reader::new(encoded.clone());
    assert_eq!(FileHeader::decode_directly(&mut reader).unwrap(), header);
    assert_eq!(reader.stream_position(), encoded.len() as u64);
}

#[test]
fn file_header_of_every_type_comes_back() {
    for file_type in [FileType::File, FileType::Directory, FileType::Symlink, FileType::Hardlink] {
        let header =
            FileHeader::new(1, 1, file_type, String::new(), 0, 0, 0, 0, 0, MetadataMap::new());
        let encoded = header.encode_directly();
        assert_eq!(encoded.len(), 12 + 1 + 8 + 1 + 8 + 5 * 8 + 8);
        assert_eq!(FileHeader::decode_at(&encoded, 0).unwrap().0, header);
    }
}

#[test]
fn file_type_7_is_rejected() {
    let header = sample();
    let mut content = header.encode_header();
    assert_eq!(content[9], 1);
    content[9] = 7;
    let err = FileHeader::decode_content(content.clone()).unwrap_err();
    assert_eq!(err.get_kind(), &ZffErrorKind::UnknownFileType);
    assert_eq!(err.details(), "7");
    content[9] = 0;
    let err = FileHeader::decode_content(content.clone()).unwrap_err();
    assert_eq!(err.get_kind(), &ZffErrorKind::UnknownFileType);
    assert_eq!(err.details(), "0");
    let err = FileHeader::decode_inner_content(&[255], 0, 1, 1).unwrap_err();
    assert_eq!(err.get_kind(), &ZffErrorKind::UnknownFileType);
    assert_eq!(err.details(), "255");
}

#[test]
fn short_file_header_is_malformed_input() {
    let header = sample();
    let mut content = header.encode_header();
    content.pop();
    let err = FileHeader::decode_content(content).unwrap_err();
    assert_eq!(err.get_kind(), &ZffErrorKind::MalformedInput);
    let err = FileHeader::decode_content(vec![1, 2, 3]).unwrap_err();
    assert_eq!(err.get_kind(), &ZffErrorKind::MalformedInput);
}

#[test]
fn a_file_becomes_a_hardlink_but_a_symlink_does_not() {
    let mut file = sample();
    file.transform_to_hardlink();
    assert_eq!(file.file_type(), FileType::Hardlink);
    assert_eq!(file.filename(), "textfile.txt");
    let mut directory =
        FileHeader::new(1, 1, FileType::Directory, "d".to_string(), 0, 0, 0, 0, 0, MetadataMap::new());
    directory.transform_to_hardlink();
    assert_eq!(directory.file_type(), FileType::Hardlink);
    let mut link =
        FileHeader::new(1, 1, FileType::Symlink, "l".to_string(), 0, 0, 0, 0, 0, MetadataMap::new());
    link.transform_to_hardlink();
    assert_eq!(link.file_type(), FileType::Symlink);
    let mut hard =
        FileHeader::new(1, 1, FileType::Hardlink, "h".to_string(), 0, 0, 0, 0, 0, MetadataMap::new());
    hard.transform_to_hardlink();
    assert_eq!(hard.file_type(), FileType::Hardlink);
}

#[test]
fn encrypted_file_header_comes_back_under_its_key() {
    let header = sample();
    for (algorithm, key) in [
        (EncryptionAlgorithm::AES128GCMSIV, vec![8u8; 16]),
        (EncryptionAlgorithm::AES256GCMSIV, vec![8u8; 32]),
    ] {
        let encoded = header
            .encode_encrypted_header_directly(&key, encryption_header(algorithm))
            .unwrap();
        assert_eq!(&encoded[..4], &[0x7a, 0x66, 0x66, 0x66]);
        assert_eq!(encoded[12], 2);
        assert_eq!(&encoded[13..21], &[17, 0, 0, 0, 0, 0, 0, 0]);
        let plain = header.encode_directly();
        assert_eq!(encoded.len(), plain.len() + 8 + 16);
        assert_ne!(&encoded[29..29 + 12], &plain[21..21 + 12]);
        let mut reader = Reader::new(encoded.clone());
        let decoded =
            FileHeader::decode_encrypted_header_with_key(&mut reader, &key, encryption_header(algorithm))
                .unwrap();
        assert_eq!(decoded, header);
        assert_eq!(reader.stream_position(), encoded.len() as u64);
    }
}

#[test]
fn encrypted_file_header_does_not_open_under_another_key() {
    let header = sample();
    let algorithm = EncryptionAlgorithm::AES256GCMSIV;
    let encoded = header
        .encode_encrypted_header_directly(&[8u8; 32], encryption_header(algorithm))
        .unwrap();
    let mut reader = Reader::new(encoded.clone());
    let err =
        FileHeader::decode_encrypted_header_with_key(&mut reader, &[9u8; 32], encryption_header(algorithm))
            .unwrap_err();
    assert_eq!(err.get_kind(), &ZffErrorKind::DecryptionFailed);
    assert_eq!(reader.stream_position(), 0);
    let mut reader = Reader::new(header.encode_directly());
    let err =
        FileHeader::decode_encrypted_header_with_key(&mut reader, &[8u8; 32], encryption_header(algorithm))
            .unwrap_err();
    assert_ne!(err.get_kind(), &ZffErrorKind::Io);
    let err = header
        .encode_encrypted_header_directly(&[8u8; 31], encryption_header(algorithm))
        .unwrap_err();
    assert_eq!(err.get_kind(), &ZffErrorKind::EncryptionFailed);
}

#[test]
fn file_type_7_is_named_by_every_decoder() {
    let header = sample();
    let mut content = header.encode_header();
    content[9] = 7;
    let framed = encode_frame(HEADER_IDENTIFIER_FILE_HEADER, &content);
    let err = FileHeader::decode_at(&framed, 0).unwrap_err();
    assert_eq!(err.get_kind(), &ZffErrorKind::UnknownFileType);
    assert_eq!(err.details(), "7");
    let mut reader = Reader::new(framed);
    let err = FileHeader::decode_directly(&mut reader).unwrap_err();
    assert_eq!(err.get_kind(), &ZffErrorKind::UnknownFileType);
    assert_eq!(err.details(), "7");
    assert_eq!(reader.stream_position(), 0);
}

#[test]
fn file_type_200_is_named_after_decryption() {
    let header = sample();
    let algorithm = EncryptionAlgorithm::AES256GCMSIV;
    let key = [8u8; 32];
    let mut inner = header.encode_header()[9..].to_vec();
    inner[0] = 200;
    let sealed = Encryption::encrypt_header(&key, &inner, &[6u8; 12], &algorithm).unwrap();
    let mut content = encode_u8(2);
    content.extend_from_slice(&encode_u64(17));
    content.extend_from_slice(&encode_bytes(&sealed));
    let framed = encode_frame(HEADER_IDENTIFIER_FILE_HEADER, &content);
    let mut reader = Reader::new(framed);
    let err =
        FileHeader::decode_encrypted_header_with_key(&mut reader, &key, encryption_header(algorithm))
            .unwrap_err();
    assert_eq!(err.get_kind(), &ZffErrorKind::UnknownFileType);
    assert_eq!(err.details(), "200");
    assert_eq!(reader.stream_position(), 0);
}
