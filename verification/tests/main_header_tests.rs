use zff::HeaderCoding;
use zff::codec::{decode_u8, encode_string_for_key};
use zff::constants::{
    ENCODING_KEY_DESCRIPTION_NOTES,
    DEFAULT_CHUNK_SIZE, HEADER_IDENTIFIER_ENCRYPTED_MAIN_HEADER, HEADER_IDENTIFIER_MAIN_HEADER,
};
use zff::header::compression_header::CompressionHeader;
use zff::header::encryption_header::EncryptionHeader;
use zff::header::pbe_header::{KDFParameters, PBEHeader, PBKDF2SHA256Parameters};
use zff::{
    CompressionAlgorithm, EncryptionAlgorithm, KDFScheme, MainHeader, PBEScheme, Reader,
    ZffErrorKind,
};

fn data_key() -> Vec<u8> {
    (100u8..132).collect()
}

fn encryption_header(password: &[u8]) -> EncryptionHeader {
    let salt = vec![3u8; 16];
    let iv = [4u8; 16];
    let wrapped = pkcs5::pbes2::Parameters::pbkdf2_sha256_aes256cbc(1000, &salt, &iv)
        .unwrap()
        .encrypt(password, &data_key())
        .unwrap();
    let parameters = KDFParameters::PBKDF2SHA256Parameters(PBKDF2SHA256Parameters::new(1000, salt));
    let pbe = PBEHeader::new(1, KDFScheme::PBKDF2SHA256, PBEScheme::AES256CBC, parameters, iv);
    EncryptionHeader::new(1, pbe, EncryptionAlgorithm::AES256GCMSIV, wrapped, [6u8; 12])
}

fn compression_header() -> CompressionHeader {
    CompressionHeader::new(1, CompressionAlgorithm::Zstd, 3, None)
}

fn plain(notes: Option<String>) -> MainHeader {
    MainHeader::new(2, None, compression_header(), DEFAULT_CHUNK_SIZE, 1, 1 << 30, -42, notes)
}

fn with_envelope(password: &[u8], notes: Option<String>) -> MainHeader {
    MainHeader::new(
        2,
        Some(encryption_header(password)),
        compression_header(),
        DEFAULT_CHUNK_SIZE,
        0,
        1 << 30,
        4711,
        notes,
    )
}

#[test]
fn main_header_without_notes_comes_back_without_notes() {
    let header = plain(None);
    let encoded = header.encode_directly();
    let mut expected = vec![0x7a, 0x66, 0x66, 0x6d, 47, 0, 0, 0, 0, 0, 0, 0, 2, 0];
    expected.extend_from_slice(&compression_header().encode_directly());
    expected.extend_from_slice(&[15, 1]);
    expected.extend_from_slice(&[0, 0, 0, 0x40, 0, 0, 0, 0]);
    expected.extend_from_slice(&[0xd6, 0xff, 0xff, 0xff, 0xff, 0xff, 0xff, 0xff]);
    assert_eq!(encoded, expected);
    let (decoded, end) = MainHeader::decode_at(&encoded, 0).unwrap();
    assert_eq!(end, 47);
    assert_eq!(decoded, header);
    assert_eq!(decoded.description_notes(), &None);
    assert_eq!(decoded.encryption_header(), &None);
    assert_eq!(header.get_encoded_size(), 47);
}

#[test]
fn main_header_with_notes_comes_back() {
    let header = plain(Some("seized on site".to_string()));
    let encoded = header.encode_directly();
    assert_eq!(encoded.len(), 47 + 4 + 8 + 14);
    assert_eq!(&encoded[47..51], &[0x64, 0x65, 0x73, 0x63]);
    let mut reader = Reader::new(encoded.clone());
    let decoded = MainHeader::decode_directly(&mut reader).unwrap();
    assert_eq!(reader.stream_position(), encoded.len() as u64);
    assert_eq!(decoded, header);
    assert_eq!(decoded.description_notes(), &Some("seized on site".to_string()));
    assert_eq!(decoded.version(), 2);
    assert_eq!(decoded.segment_size(), 1 << 30);
    assert_eq!(decoded.unique_identifier(), -42);
    assert_eq!(decoded.compression_header(), &compression_header());
    assert!(decoded.has_signature());
    assert_eq!(MainHeader::identifier(), HEADER_IDENTIFIER_MAIN_HEADER);
}

#[test]
fn main_header_with_broken_notes_is_malformed_input() {
    let header = plain(Some("seized on site".to_string()));
    let mut content = header.encode_header();
    content.pop();
    let err = MainHeader::decode_content(content.clone()).unwrap_err();
    assert_eq!(err.get_kind(), &ZffErrorKind::MalformedInput);
    content.truncate(35 + 3);
    let decoded = MainHeader::decode_content(content).unwrap();
    assert_eq!(decoded.description_notes(), &None);
}

#[test]
fn main_header_chunk_size_is_a_power_of_two() {
    assert_eq!(plain(None).chunk_size(), 32768);
    let small = MainHeader::new(2, None, compression_header(), 0, 0, 0, 0, None);
    assert_eq!(small.chunk_size(), 1);
    assert!(!small.has_signature());
    let large = MainHeader::new(2, None, compression_header(), 31, 255, 0, 0, None);
    assert_eq!(large.chunk_size(), 1 << 31);
    assert!(large.has_signature());
}

#[test]
fn main_header_with_envelope_has_flag_1() {
    let header = with_envelope(b"a", Some("n".to_string()));
    let encoded = header.encode_directly();
    assert_eq!(encoded[13], 1);
    assert_eq!(&encoded[14..18], &[0x7a, 0x66, 0x66, 0x65]);
    let (decoded, end) = MainHeader::decode_at(&encoded, 0).unwrap();
    assert_eq!(end, encoded.len());
    assert_eq!(decoded, header);
    assert_eq!(decoded.encryption_header(), &Some(encryption_header(b"a")));
    assert_eq!(header.get_encoded_size(), encoded.len());
}

#[test]
fn main_header_with_a_flag_above_1_is_refused() {
    let header = plain(None);
    let mut content = header.encode_header();
    assert_eq!(content[1], 0);
    content[1] = 2;
    let err = MainHeader::decode_content(content.clone()).unwrap_err();
    assert_eq!(err.get_kind(), &ZffErrorKind::HeaderDecodeEncryptedMainHeader);
    content[1] = 255;
    let err = MainHeader::decode_content(content.clone()).unwrap_err();
    assert_eq!(err.get_kind(), &ZffErrorKind::HeaderDecodeEncryptedMainHeader);
    content[1] = 1;
    let err = MainHeader::decode_content(content).unwrap_err();
    assert_eq!(err.get_kind(), &ZffErrorKind::HeaderDecodeMismatchIdentifier);
}

#[test]
fn encrypted_main_header_opens_with_the_password_only() {
    let header = with_envelope(b"a", Some("notes".to_string()));
    let encoded = header.encode_encrypted_header_directly(&data_key()).unwrap();
    assert_eq!(&encoded[..4], &[0x7a, 0x66, 0x66, 0x45]);
    assert_eq!(encoded[12], 2);
    assert_eq!(encoded[13], 2);
    assert_eq!(header.get_encrypted_encoded_size(&data_key()).unwrap(), encoded.len());
    let mut reader = Reader::new(encoded.clone());
    let err = MainHeader::decode_encrypted_header_with_password(&mut reader, b"b").unwrap_err();
    assert_eq!(err.get_kind(), &ZffErrorKind::DecryptionFailed);
    assert_eq!(reader.stream_position(), 0);
    let decoded = MainHeader::decode_encrypted_header_with_password(&mut reader, b"a").unwrap();
    assert_eq!(decoded, header);
    assert_eq!(reader.stream_position(), encoded.len() as u64);
    assert_eq!(MainHeader::encrypted_header_identifier(), HEADER_IDENTIFIER_ENCRYPTED_MAIN_HEADER);
}

#[test]
fn encrypted_main_header_without_notes_comes_back() {
    let header = with_envelope(b"secret", None);
    let encoded = header.encode_encrypted_header_directly(&data_key()).unwrap();
    let mut reader = Reader::new(encoded);
    let decoded =
        MainHeader::decode_encrypted_header_with_password(&mut reader, b"secret").unwrap();
    assert_eq!(decoded, header);
    assert_eq!(decoded.description_notes(), &None);
}

#[test]
fn encrypted_main_header_sealed_under_another_key_does_not_open() {
    let header = with_envelope(b"a", None);
    let encoded = header.encode_encrypted_header_directly(&[1u8; 32]).unwrap();
    let mut reader = Reader::new(encoded);
    let err = MainHeader::decode_encrypted_header_with_password(&mut reader, b"a").unwrap_err();
    assert_eq!(err.get_kind(), &ZffErrorKind::DecryptionFailed);
}

#[test]
fn encrypting_without_an_encryption_header_is_refused() {
    let header = plain(None);
    let err = header.encode_encrypted_header_directly(&data_key()).unwrap_err();
    assert_eq!(err.get_kind(), &ZffErrorKind::MissingEncryptionHeader);
    let err = header.get_encrypted_encoded_size(&data_key()).unwrap_err();
    assert_eq!(err.get_kind(), &ZffErrorKind::MissingEncryptionHeader);
    let header = with_envelope(b"a", None);
    let err = header.encode_encrypted_header_directly(&[1u8; 5]).unwrap_err();
    assert_eq!(err.get_kind(), &ZffErrorKind::EncryptionFailed);
}

#[test]
fn a_plain_main_header_is_no_encrypted_main_header() {
    let header = with_envelope(b"a", None);
    let mut reader = Reader::new(header.encode_directly());
    let err = MainHeader::decode_encrypted_header_with_password(&mut reader, b"a").unwrap_err();
    assert_eq!(err.get_kind(), &ZffErrorKind::HeaderDecodeMismatchIdentifier);
    let mut reader = Reader::new(vec![0x7a, 0x66]);
    let err = MainHeader::decode_encrypted_header_with_password(&mut reader, b"a").unwrap_err();
    assert_eq!(err.get_kind(), &ZffErrorKind::HeaderDecodeMismatchIdentifier);
    let mut encoded = header.encode_encrypted_header_directly(&data_key()).unwrap();
    encoded[13] = 1;
    let mut reader = Reader::new(encoded);
    let err = MainHeader::decode_encrypted_header_with_password(&mut reader, b"a").unwrap_err();
    assert_eq!(err.get_kind(), &ZffErrorKind::HeaderDecodeEncryptedMainHeader);
}

#[test]
fn inner_content_without_notes_ends_behind_the_unique_identifier() {
    let header = plain(None);
    let inner = header.encode_header()[2..].to_vec();
    assert_eq!(inner.len(), 15 + 18);
    let mut data = inner.clone();
    data.extend_from_slice(&[0xaa, 0xbb, 0xcc, 0xdd, 0xee]);
    let (decoded, end) = MainHeader::decode_inner_content(&data, 0, 2, None).unwrap();
    assert_eq!(decoded, header);
    assert_eq!(decoded.description_notes(), &None);
    assert_eq!(end, inner.len());
    assert_eq!(decode_u8(&data, end).unwrap(), (0xaa, end + 1));
    let (decoded, end) = MainHeader::decode_inner_content(&inner, 0, 2, None).unwrap();
    assert_eq!(decoded, header);
    assert_eq!(end, inner.len());
}

#[test]
fn inner_content_with_notes_ends_behind_the_notes() {
    let header = plain(Some("seized".to_string()));
    let inner = header.encode_header()[2..].to_vec();
    assert_eq!(inner.len(), 15 + 18 + 4 + 8 + 6);
    let mut data = vec![0x11, 0x22, 0x33];
    data.extend_from_slice(&inner);
    data.extend_from_slice(&[0xaa, 0xbb]);
    let (decoded, end) = MainHeader::decode_inner_content(&data, 3, 2, None).unwrap();
    assert_eq!(decoded, header);
    assert_eq!(end, 3 + inner.len());
    assert_eq!(decode_u8(&data, end).unwrap(), (0xaa, end + 1));
}

#[test]
fn notes_that_follow_the_unique_identifier_are_read() {
    let header = plain(None);
    let mut data = header.encode_header()[2..].to_vec();
    let behind_identifier = data.len();
    data.extend_from_slice(&encode_string_for_key("late", ENCODING_KEY_DESCRIPTION_NOTES));
    data.push(0x99);
    let (decoded, end) = MainHeader::decode_inner_content(&data, 0, 2, None).unwrap();
    assert_eq!(decoded.description_notes(), &Some("late".to_string()));
    assert_eq!(end, behind_identifier + 4 + 8 + 4);
    data.truncate(behind_identifier + 6);
    let err = MainHeader::decode_inner_content(&data, 0, 2, None).unwrap_err();
    assert_eq!(err.get_kind(), &ZffErrorKind::MalformedInput);
}
