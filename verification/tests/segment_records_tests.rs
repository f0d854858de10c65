use zff::HeaderCoding;
use zff::constants::{FOOTER_IDENTIFIER_SEGMENT_FOOTER, HEADER_IDENTIFIER_SEGMENT_HEADER};
use zff::{Reader, SegmentFooter, SegmentHeader, ZffErrorKind};

#[test]
fn segment_header_comes_back() {
    let header = SegmentHeader::new(2, 1, -5, 0x1122);
    let encoded = header.encode_directly();
    assert_eq!(
        encoded,
        vec![
            0x7a, 0x66, 0x66, 0x73, 37, 0, 0, 0, 0, 0, 0, 0, 2, 1, 0, 0, 0, 0, 0, 0, 0, 0xfb,
            0xff, 0xff, 0xff, 0xff, 0xff, 0xff, 0xff, 0x22, 0x11, 0, 0, 0, 0, 0, 0
        ]
    );
    let (decoded, end) = SegmentHeader::decode_at(&encoded, 0).unwrap();
    assert_eq!(end, 37);
    assert_eq!(decoded, header);
    assert_eq!(decoded.version(), 2);
    assert_eq!(decoded.segment_number(), 1);
    assert_eq!(decoded.unique_identifier(), -5);
    assert_eq!(decoded.footer_offset(), 0x1122);
    assert_eq!(SegmentHeader::identifier(), HEADER_IDENTIFIER_SEGMENT_HEADER);
}

#[test]
fn segment_header_is_read_at_the_cursor() {
    let header = SegmentHeader::new(2, 9, i64::MIN, u64::MAX);
    let mut data = vec![0xee; 5];
    data.extend_from_slice(&header.encode_directly());
    data.push(0xee);
    let mut reader = Reader::new(data);
    let err = SegmentHeader::decode_directly(&mut reader).unwrap_err();
    assert_eq!(err.get_kind(), &ZffErrorKind::HeaderDecodeMismatchIdentifier);
    assert_eq!(reader.stream_position(), 0);
    reader.seek(5);
    assert_eq!(SegmentHeader::decode_directly(&mut reader).unwrap(), header);
    assert_eq!(reader.stream_position(), 42);
}

#[test]
fn segment_header_footer_offset_is_set_afterwards() {
    let mut header = SegmentHeader::new(2, 1, 77, 0);
    header.set_footer_offset(4096);
    assert_eq!(header, SegmentHeader::new(2, 1, 77, 4096));
}

#[test]
fn short_segment_header_is_malformed_input() {
    let header = SegmentHeader::new(2, 1, 77, 0);
    let mut content = header.encode_header();
    assert_eq!(content.len(), 25);
    content.pop();
    let err = SegmentHeader::decode_content(content).unwrap_err();
    assert_eq!(err.get_kind(), &ZffErrorKind::MalformedInput);
    let mut encoded = header.encode_directly();
    encoded.truncate(30);
    let err = SegmentHeader::decode_at(&encoded, 0).unwrap_err();
    assert_eq!(err.get_kind(), &ZffErrorKind::MalformedInput);
}

#[test]
fn segment_footer_comes_back() {
    let footer = SegmentFooter::new(1, 5000, vec![37, 100, 4000], 4900);
    let encoded = footer.encode_directly();
    assert_eq!(encoded.len(), 37 + 3 * 8);
    assert_eq!(&encoded[..4], &[0x7a, 0x66, 0x66, 0x46]);
    assert_eq!(&encoded[4..12], &[61, 0, 0, 0, 0, 0, 0, 0]);
    assert_eq!(&encoded[21..29], &[3, 0, 0, 0, 0, 0, 0, 0]);
    assert_eq!(&encoded[29..37], &[37, 0, 0, 0, 0, 0, 0, 0]);
    let (decoded, end) = SegmentFooter::decode_at(&encoded, 0).unwrap();
    assert_eq!(end, encoded.len());
    assert_eq!(decoded, footer);
    assert_eq!(decoded.version(), 1);
    assert_eq!(decoded.length_of_segment(), 5000);
    assert_eq!(decoded.chunk_offsets(), &vec![37, 100, 4000]);
    assert_eq!(decoded.footer_offset(), 4900);
    assert_eq!(SegmentFooter::identifier(), FOOTER_IDENTIFIER_SEGMENT_FOOTER);
}

#[test]
fn segment_footer_keeps_the_order_of_its_offsets() {
    let mut footer = SegmentFooter::new_empty(1);
    assert_eq!(footer, SegmentFooter::new(1, 0, vec![], 0));
    footer.add_offset(30);
    footer.add_offset(10);
    footer.add_offset(20);
    footer.set_length_of_segment(99);
    footer.set_footer_offset(50);
    assert_eq!(footer, SegmentFooter::new(1, 99, vec![30, 10, 20], 50));
    let mut reader = Reader::new(footer.encode_directly());
    let decoded = SegmentFooter::decode_directly(&mut reader).unwrap();
    assert_eq!(decoded.chunk_offsets(), &vec![30, 10, 20]);
    assert_eq!(reader.stream_position(), 61);
}

#[test]
fn empty_segment_footer_comes_back() {
    let footer = SegmentFooter::new_empty(3);
    let encoded = footer.encode_directly();
    assert_eq!(encoded.len(), 37);
    assert_eq!(SegmentFooter::decode_at(&encoded, 0).unwrap(), (footer, 37));
}

#[test]
fn segment_footer_with_a_table_longer_than_its_content_is_malformed_input() {
    let footer = SegmentFooter::new(1, 5000, vec![37, 100, 4000], 4900);
    let mut content = footer.encode_header();
    content[9] = 4;
    let err = SegmentFooter::decode_content(content.clone()).unwrap_err();
    assert_eq!(err.get_kind(), &ZffErrorKind::MalformedInput);
    content[9] = 3;
    content.pop();
    let err = SegmentFooter::decode_content(content).unwrap_err();
    assert_eq!(err.get_kind(), &ZffErrorKind::MalformedInput);
}
