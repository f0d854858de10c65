use zff::codec::{
    key_not_on_position, malformed_input,
    decode_array, decode_bytes, decode_fixed, decode_i64, decode_string, decode_string_for_key,
    decode_u32, decode_u32_be, decode_u32_for_key, decode_u64, decode_u64_seq, decode_u8,
    encode_bytes, encode_i64, encode_string, encode_string_for_key, encode_u32, encode_u32_be,
    encode_u32_for_key, encode_u64, encode_u64_seq, encode_u8, i64_bits, i64_of_bits, key_at,
};
use zff::framing::{decode_frame, encode_frame};
use zff::{Reader, ZffError, ZffErrorKind};

#[test]
fn u8_is_one_byte() {
    assert_eq!(encode_u8(0xab), vec![0xab]);
    assert_eq!(decode_u8(&[0xab, 1], 0).unwrap(), (0xab, 1));
    assert_eq!(decode_u8(&[0xab, 1], 1).unwrap(), (1, 2));
}

#[test]
fn u8_behind_the_end_is_malformed_input() {
    let err = decode_u8(&[1, 2], 2).unwrap_err();
    assert_eq!(err.get_kind(), &ZffErrorKind::MalformedInput);
    let err = decode_u8(&[], 0).unwrap_err();
    assert_eq!(err.get_kind(), &ZffErrorKind::MalformedInput);
}

#[test]
fn u32_be_is_most_significant_first() {
    assert_eq!(encode_u32_be(0x7A666643), vec![0x7a, 0x66, 0x66, 0x43]);
    assert_eq!(decode_u32_be(&[0, 0x7a, 0x66, 0x66, 0x43], 1).unwrap(), (0x7A666643, 5));
    assert_eq!(encode_u32_be(u32::MAX), vec![0xff; 4]);
    assert_eq!(encode_u32_be(0), vec![0; 4]);
}

#[test]
fn u32_is_little_endian() {
    assert_eq!(encode_u32(0x01020304), vec![4, 3, 2, 1]);
    assert_eq!(decode_u32(&[4, 3, 2, 1], 0).unwrap(), (0x01020304, 4));
    let err = decode_u32(&[4, 3, 2], 0).unwrap_err();
    assert_eq!(err.get_kind(), &ZffErrorKind::MalformedInput);
}

#[test]
fn u64_is_little_endian() {
    assert_eq!(encode_u64(0x0102030405060708), vec![8, 7, 6, 5, 4, 3, 2, 1]);
    assert_eq!(decode_u64(&[8, 7, 6, 5, 4, 3, 2, 1], 0).unwrap(), (0x0102030405060708, 8));
    assert_eq!(decode_u64(&encode_u64(u64::MAX), 0).unwrap(), (u64::MAX, 8));
    let err = decode_u64(&[0; 7], 0).unwrap_err();
    assert_eq!(err.get_kind(), &ZffErrorKind::MalformedInput);
}

#[test]
fn i64_is_twos_complement() {
    assert_eq!(encode_i64(-1), vec![0xff; 8]);
    assert_eq!(encode_i64(-2), vec![0xfe, 0xff, 0xff, 0xff, 0xff, 0xff, 0xff, 0xff]);
    assert_eq!(encode_i64(1), vec![1, 0, 0, 0, 0, 0, 0, 0]);
    assert_eq!(encode_i64(i64::MIN), vec![0, 0, 0, 0, 0, 0, 0, 0x80]);
    for v in [0i64, 1, -1, 42, -42, i64::MAX, i64::MIN, i64::MIN + 1] {
        assert_eq!(i64_bits(v), v as u64);
        assert_eq!(i64_of_bits(v as u64), v);
        assert_eq!(decode_i64(&encode_i64(v), 0).unwrap(), (v, 8));
    }
}

#[test]
fn bytes_carry_their_length() {
    assert_eq!(encode_bytes(&[9, 8, 7]), vec![3, 0, 0, 0, 0, 0, 0, 0, 9, 8, 7]);
    assert_eq!(encode_bytes(&[]), vec![0; 8]);
    let encoded = encode_bytes(&[9, 8, 7]);
    assert_eq!(decode_bytes(&encoded, 0).unwrap(), (vec![9, 8, 7], 11));
    assert_eq!(decode_bytes(&[0; 8], 0).unwrap(), (vec![], 8));
}

#[test]
fn bytes_shorter_than_their_length_are_malformed_input() {
    let mut encoded = encode_bytes(&[9, 8, 7]);
    encoded.pop();
    let err = decode_bytes(&encoded, 0).unwrap_err();
    assert_eq!(err.get_kind(), &ZffErrorKind::MalformedInput);
    let huge = encode_u64(u64::MAX);
    let err = decode_bytes(&huge, 0).unwrap_err();
    assert_eq!(err.get_kind(), &ZffErrorKind::MalformedInput);
}

#[test]
fn fixed_bytes_are_taken_as_they_are() {
    assert_eq!(decode_fixed(&[1, 2, 3, 4], 1, 2).unwrap(), (vec![2, 3], 3));
    assert_eq!(decode_fixed(&[1, 2, 3, 4], 4, 0).unwrap(), (vec![], 4));
    assert_eq!(decode_array::<3>(&[1, 2, 3, 4], 1).unwrap(), ([2, 3, 4], 4));
    let err = decode_array::<3>(&[1, 2, 3, 4], 2).unwrap_err();
    assert_eq!(err.get_kind(), &ZffErrorKind::MalformedInput);
    let err = decode_fixed(&[1, 2, 3, 4], 5, 0).unwrap_err();
    assert_eq!(err.get_kind(), &ZffErrorKind::MalformedInput);
}

#[test]
fn strings_are_utf8_behind_their_length() {
    assert_eq!(encode_string("zff"), vec![3, 0, 0, 0, 0, 0, 0, 0, b'z', b'f', b'f']);
    let text = "Grüße, 世界";
    let encoded = encode_string(text);
    assert_eq!(encoded.len(), 8 + text.len());
    assert_eq!(decode_string(&encoded, 0).unwrap(), (text.to_string(), encoded.len()));
    assert_eq!(decode_string(&encode_string(""), 0).unwrap(), (String::new(), 8));
}

#[test]
fn strings_of_invalid_utf8_are_malformed_input() {
    let encoded = encode_bytes(&[0xff, 0xfe]);
    let err = decode_string(&encoded, 0).unwrap_err();
    assert_eq!(err.get_kind(), &ZffErrorKind::MalformedInput);
}

#[test]
fn u64_sequences_carry_their_length() {
    let v = vec![1u64, 0x0100, u64::MAX];
    let encoded = encode_u64_seq(&v);
    let mut expected = vec![3, 0, 0, 0, 0, 0, 0, 0];
    expected.extend_from_slice(&[1, 0, 0, 0, 0, 0, 0, 0]);
    expected.extend_from_slice(&[0, 1, 0, 0, 0, 0, 0, 0]);
    expected.extend_from_slice(&[0xff; 8]);
    assert_eq!(encoded, expected);
    assert_eq!(decode_u64_seq(&encoded, 0).unwrap(), (v, 32));
    assert_eq!(decode_u64_seq(&encode_u64_seq(&vec![]), 0).unwrap(), (vec![], 8));
}

#[test]
fn u64_sequences_with_an_impossible_count_are_malformed_input() {
    let mut encoded = encode_u64(2);
    encoded.extend_from_slice(&[0; 15]);
    let err = decode_u64_seq(&encoded, 0).unwrap_err();
    assert_eq!(err.get_kind(), &ZffErrorKind::MalformedInput);
    let err = decode_u64_seq(&encode_u64(u64::MAX), 0).unwrap_err();
    assert_eq!(err.get_kind(), &ZffErrorKind::MalformedInput);
}

#[test]
fn tagged_values_stand_behind_their_key() {
    let encoded = encode_string_for_key("note", 0x64657363);
    let mut expected = vec![0x64, 0x65, 0x73, 0x63];
    expected.extend_from_slice(&encode_string("note"));
    assert_eq!(encoded, expected);
    assert!(key_at(&encoded, 0, 0x64657363));
    assert!(!key_at(&encoded, 0, 0x64657364));
    assert!(!key_at(&encoded, 1, 0x64657363));
    assert_eq!(
        decode_string_for_key(&encoded, 0, 0x64657363).unwrap(),
        ("note".to_string(), encoded.len())
    );
    let tagged = encode_u32_for_key(7, 0x74687273);
    assert_eq!(tagged, vec![0x74, 0x68, 0x72, 0x73, 7, 0, 0, 0]);
    assert_eq!(decode_u32_for_key(&tagged, 0, 0x74687273).unwrap(), (7, 8));
}

#[test]
fn a_missing_key_is_key_not_on_position() {
    let encoded = encode_string_for_key("note", 0x64657363);
    let err = decode_string_for_key(&encoded, 0, 0x11223344).unwrap_err();
    assert_eq!(err.get_kind(), &ZffErrorKind::HeaderDecoderKeyNotOnPosition);
    let err = decode_string_for_key(&[0x64, 0x65], 0, 0x64657363).unwrap_err();
    assert_eq!(err.get_kind(), &ZffErrorKind::HeaderDecoderKeyNotOnPosition);
    let err = decode_u32_for_key(&[], 0, 0x64657363).unwrap_err();
    assert_eq!(err.get_kind(), &ZffErrorKind::HeaderDecoderKeyNotOnPosition);
}

#[test]
fn a_key_with_a_broken_value_is_malformed_input() {
    let mut encoded = encode_string_for_key("note", 0x64657363);
    encoded.pop();
    let err = decode_string_for_key(&encoded, 0, 0x64657363).unwrap_err();
    assert_eq!(err.get_kind(), &ZffErrorKind::MalformedInput);
}

#[test]
fn a_missing_key_does_not_move_the_cursor() {
    let mut data = vec![0xaa, 0xbb];
    data.extend_from_slice(&encode_string_for_key("note", 0x64657363));
    let mut reader = Reader::new(data.clone());
    reader.seek(2);
    let err = reader.decode_string_for_key(0x01020304).unwrap_err();
    assert_eq!(err.get_kind(), &ZffErrorKind::HeaderDecoderKeyNotOnPosition);
    assert_eq!(reader.stream_position(), 2);
    assert_eq!(reader.get_ref(), &data);
    assert_eq!(reader.decode_string_for_key(0x64657363).unwrap(), "note");
    assert_eq!(reader.stream_position(), data.len() as u64);
}

#[test]
fn a_reader_moves_behind_what_it_read() {
    let mut data = encode_u8(5);
    data.extend_from_slice(&encode_u32(6));
    data.extend_from_slice(&encode_u64(7));
    data.extend_from_slice(&encode_i64(-8));
    data.extend_from_slice(&encode_bytes(&[9, 9]));
    data.extend_from_slice(&encode_string("ten"));
    data.extend_from_slice(&encode_u64_seq(&vec![11, 12]));
    let mut reader = Reader::new(data.clone());
    assert_eq!(reader.stream_position(), 0);
    assert_eq!(reader.decode_u8().unwrap(), 5);
    assert_eq!(reader.stream_position(), 1);
    assert_eq!(reader.decode_u32().unwrap(), 6);
    assert_eq!(reader.decode_u64().unwrap(), 7);
    assert_eq!(reader.decode_i64().unwrap(), -8);
    assert_eq!(reader.stream_position(), 21);
    assert_eq!(reader.decode_bytes().unwrap(), vec![9, 9]);
    assert_eq!(reader.decode_string().unwrap(), "ten");
    assert_eq!(reader.decode_u64_seq().unwrap(), vec![11, 12]);
    assert_eq!(reader.stream_position(), data.len() as u64);
    let err = reader.decode_u8().unwrap_err();
    assert_eq!(err.get_kind(), &ZffErrorKind::MalformedInput);
    assert_eq!(reader.stream_position(), data.len() as u64);
}

#[test]
fn a_reader_behind_its_data_fails_and_stays() {
    let mut reader = Reader::new(vec![1, 2, 3]);
    reader.seek(u64::MAX);
    assert_eq!(reader.decode_u8().unwrap_err().get_kind(), &ZffErrorKind::MalformedInput);
    assert_eq!(reader.stream_position(), u64::MAX);
    reader.seek(1);
    assert_eq!(reader.decode_u64().unwrap_err().get_kind(), &ZffErrorKind::MalformedInput);
    assert_eq!(reader.stream_position(), 1);
    assert_eq!(reader.decode_u8().unwrap(), 2);
}

#[test]
fn a_frame_is_identifier_length_content() {
    let frame = encode_frame(0x7A666643, &[1, 2, 3]);
    assert_eq!(frame, vec![0x7a, 0x66, 0x66, 0x43, 15, 0, 0, 0, 0, 0, 0, 0, 1, 2, 3]);
    assert_eq!(decode_frame(&frame, 0, 0x7A666643).unwrap(), (vec![1, 2, 3], 15));
    let empty = encode_frame(1, &[]);
    assert_eq!(empty.len(), 12);
    assert_eq!(decode_frame(&empty, 0, 1).unwrap(), (vec![], 12));
}

#[test]
fn a_frame_of_another_identifier_is_a_mismatch() {
    let frame = encode_frame(0x7A666643, &[1, 2, 3]);
    let err = decode_frame(&frame, 0, 0x7A666644).unwrap_err();
    assert_eq!(err.get_kind(), &ZffErrorKind::HeaderDecodeMismatchIdentifier);
    let err = decode_frame(&[0x7a, 0x66], 0, 0x7A666643).unwrap_err();
    assert_eq!(err.get_kind(), &ZffErrorKind::HeaderDecodeMismatchIdentifier);
}

#[test]
fn a_frame_with_an_impossible_length_is_refused() {
    let mut frame = encode_u32_be(0x7A666643);
    frame.extend_from_slice(&encode_u64(11));
    let err = decode_frame(&frame, 0, 0x7A666643).unwrap_err();
    assert_eq!(err.get_kind(), &ZffErrorKind::MalformedHeader);
    let mut frame = encode_u32_be(0x7A666643);
    frame.extend_from_slice(&encode_u64(13));
    let err = decode_frame(&frame, 0, 0x7A666643).unwrap_err();
    assert_eq!(err.get_kind(), &ZffErrorKind::MalformedInput);
    let mut frame = encode_u32_be(0x7A666643);
    frame.extend_from_slice(&[0; 7]);
    let err = decode_frame(&frame, 0, 0x7A666643).unwrap_err();
    assert_eq!(err.get_kind(), &ZffErrorKind::MalformedInput);
}

#[test]
fn the_errors_of_the_codec_carry_no_detail() {
    let e = malformed_input();
    assert_eq!(e.get_kind(), &ZffErrorKind::MalformedInput);
    assert_eq!(e.details(), "");
    let e = key_not_on_position();
    assert_eq!(e.get_kind(), &ZffErrorKind::HeaderDecoderKeyNotOnPosition);
    assert_eq!(e.details(), "");
    let e = decode_u8(&[], 0).unwrap_err();
    assert_eq!(e.details(), "");
    let e = decode_string_for_key(&[], 0, 1).unwrap_err();
    assert_eq!(e.details(), "");
}

#[test]
fn an_error_keeps_kind_and_details() {
    let e = ZffError::new(ZffErrorKind::UnknownFileType, "7".to_string());
    assert_eq!(e.get_kind(), &ZffErrorKind::UnknownFileType);
    assert_eq!(e.details(), "7");
    let e = ZffError::with_number(ZffErrorKind::DataDecodeChunkNumberNotInSegment, 0);
    assert_eq!(e.details(), "0");
    let e = ZffError::with_number(ZffErrorKind::DataDecodeChunkNumberNotInSegment, 1090);
    assert_eq!(e.details(), "1090");
    let e = ZffError::with_number(ZffErrorKind::DataDecodeChunkNumberNotInSegment, u64::MAX);
    assert_eq!(e.details(), "18446744073709551615");
    let e = ZffError::of_kind(ZffErrorKind::Io);
    assert_eq!(e.get_kind(), &ZffErrorKind::Io);
    assert_eq!(e.details(), "");
}
