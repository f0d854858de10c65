use zff::chunk::{crc32, matches_crc32};
use zff::constants::{FILE_EXTENSION_FIRST_VALUE, FILE_EXTENSION_PARSER_ERROR, FILE_EXTENSION_START};
use zff::extension::{file_extension, file_extension_next_value, file_extension_number};
use zff::{ChunkHeader, ZffErrorKind};

#[test]
fn extensions_have_two_digits_at_least() {
    assert_eq!(file_extension(1), FILE_EXTENSION_FIRST_VALUE);
    assert_eq!(file_extension(0), "z00");
    assert_eq!(file_extension(2), "z02");
    assert_eq!(file_extension(9), "z09");
    assert_eq!(file_extension(10), "z10");
    assert_eq!(file_extension(99), "z99");
    assert_eq!(file_extension(100), "z100");
    assert_eq!(file_extension(u64::MAX), "z18446744073709551615");
    assert!(file_extension(5).starts_with(FILE_EXTENSION_START));
}

#[test]
fn extensions_name_their_number() {
    assert_eq!(file_extension_number("z01").unwrap(), 1);
    assert_eq!(file_extension_number("z10").unwrap(), 10);
    assert_eq!(file_extension_number("z99").unwrap(), 99);
    assert_eq!(file_extension_number("z100").unwrap(), 100);
    assert_eq!(file_extension_number("z007").unwrap(), 7);
    assert_eq!(file_extension_number("z18446744073709551615").unwrap(), u64::MAX);
    for number in [0u64, 1, 9, 10, 11, 99, 100, 12345, u64::MAX] {
        assert_eq!(file_extension_number(&file_extension(number)).unwrap(), number);
    }
}

#[test]
fn the_next_extension_follows() {
    assert_eq!(file_extension_next_value("z01").unwrap(), "z02");
    assert_eq!(file_extension_next_value("z09").unwrap(), "z10");
    assert_eq!(file_extension_next_value("z99").unwrap(), "z100");
    assert_eq!(file_extension_next_value("z00").unwrap(), "z01");
}

#[test]
fn an_extension_outside_the_pattern_is_a_parser_error() {
    for value in ["", "z", "z1", "a01", "Z01", "z0a", "z+1", "z 1", "z01 ", "01", "zz1", "z1.0", "zé1"] {
        let err = file_extension_number(value).unwrap_err();
        assert_eq!(err.get_kind(), &ZffErrorKind::FileExtensionParserError);
        assert_eq!(err.details(), FILE_EXTENSION_PARSER_ERROR);
        let err = file_extension_next_value(value).unwrap_err();
        assert_eq!(err.get_kind(), &ZffErrorKind::FileExtensionParserError);
    }
}

#[test]
fn an_extension_above_the_largest_number_is_a_parser_error() {
    let err = file_extension_number("z18446744073709551616").unwrap_err();
    assert_eq!(err.get_kind(), &ZffErrorKind::FileExtensionParserError);
    let err = file_extension_number("z99999999999999999999999").unwrap_err();
    assert_eq!(err.get_kind(), &ZffErrorKind::FileExtensionParserError);
    let err = file_extension_next_value("z18446744073709551615").unwrap_err();
    assert_eq!(err.get_kind(), &ZffErrorKind::FileExtensionParserError);
    assert_eq!(file_extension_next_value("z18446744073709551614").unwrap(), "z18446744073709551615");
}

#[test]
fn a_chunk_header_tells_whether_data_has_its_crc32() {
    let data = [0x61u8, 0x62, 0x63];
    let header = ChunkHeader::new(1, 1, 3, crc32(&data), false, false, None);
    assert!(matches_crc32(&header, &data));
    assert!(!matches_crc32(&header, &[0x61, 0x62, 0x64]));
    assert!(!matches_crc32(&header, &[]));
    assert!(matches_crc32(&ChunkHeader::new_empty(1, 1), &[]));
}
