//! The header that opens every segment.

use vstd::prelude::*;
use crate::codec::{
    agrees, decode_i64, decode_u64, decode_u8, encode_i64, encode_u64, fits, lemma_decode_i64,
    lemma_decode_u64, lemma_decode_u8, lemma_stands_at_self, lemma_stands_at_split,
    spec_decode_i64, spec_decode_u64, spec_encode_i64, spec_encode_u64, spec_encode_u8, stands_at,
};
use crate::constants::HEADER_IDENTIFIER_SEGMENT_HEADER;
use crate::error::{ZffError, ZffErrorKind};
use crate::framing::{
    decode_frame, encode_frame, lemma_decode_frame, spec_decode_frame, spec_frame, HeaderCoding,
};
use crate::reader::{reads, Reader};

verus! {

/// The header of a segment: which segment of which image this is, and where
/// in the segment its footer begins.
#[derive(Debug, Clone, Copy, PartialEq, Eq, Structural)]
pub struct SegmentHeader {
    version: u8,
    segment_number: u64,
    unique_identifier: i64,
    footer_offset: u64,
}

/// What a segment header says.
pub struct SegmentHeaderView {
    pub version: u8,
    pub segment_number: u64,
    pub unique_identifier: i64,
    pub footer_offset: u64,
}

impl View for SegmentHeader {
    type V = SegmentHeaderView;

    closed spec fn view(&self) -> SegmentHeaderView {
        SegmentHeaderView {
            version: self.version,
            segment_number: self.segment_number,
            unique_identifier: self.unique_identifier,
            footer_offset: self.footer_offset,
        }
    }
}

/// The content of a segment header's frame: version, segment number, unique
/// identifier of the image, offset of the footer.
pub open spec fn spec_segment_header_content(h: SegmentHeaderView) -> Seq<u8> {
    spec_encode_u8(h.version) + spec_encode_u64(h.segment_number) + spec_encode_i64(
        h.unique_identifier,
    ) + spec_encode_u64(h.footer_offset)
}

/// The framed segment header.
pub open spec fn spec_segment_header_bytes(h: SegmentHeaderView) -> Seq<u8> {
    spec_frame(HEADER_IDENTIFIER_SEGMENT_HEADER, spec_segment_header_content(h))
}

/// The segment header that the content of a frame spells.
pub open spec fn spec_decode_segment_header_content(data: Seq<u8>) -> Result<
    SegmentHeaderView,
    ZffErrorKind,
> {
    if !fits(data, 0, 25) {
        Err(ZffErrorKind::MalformedInput)
    } else {
        Ok(
            SegmentHeaderView {
                version: data[0],
                segment_number: spec_decode_u64(data, 1)->Ok_0.0,
                unique_identifier: spec_decode_i64(data, 9)->Ok_0.0,
                footer_offset: spec_decode_u64(data, 17)->Ok_0.0,
            },
        )
    }
}

/// The segment header framed at `pos`, and where its frame ends.
pub open spec fn spec_decode_segment_header(data: Seq<u8>, pos: int) -> Result<
    (SegmentHeaderView, int),
    ZffErrorKind,
> {
    match spec_decode_frame(data, pos, HEADER_IDENTIFIER_SEGMENT_HEADER) {
        Ok((content, end)) => match spec_decode_segment_header_content(content) {
            Ok(h) => Ok((h, end)),
            Err(kind) => Err(kind),
        },
        Err(kind) => Err(kind),
    }
}

/// The content of a segment header has 25 bytes, its frame 37.
pub proof fn lemma_segment_header_len(h: SegmentHeaderView)
    ensures
        spec_segment_header_content(h).len() == 25,
        spec_segment_header_bytes(h).len() == 37,
{
    vstd::bytes::lemma_auto_spec_u64_to_from_le_bytes();
}

/// Decoding the content that a segment header encodes to gives that header.
pub proof fn lemma_segment_header_content_roundtrip(h: SegmentHeaderView)
    ensures
        spec_decode_segment_header_content(spec_segment_header_content(h)) == Ok::<
            _,
            ZffErrorKind,
        >(h),
{
    let data = spec_segment_header_content(h);
    let a = spec_encode_u8(h.version);
    let b = spec_encode_u64(h.segment_number);
    let c = spec_encode_i64(h.unique_identifier);
    let d = spec_encode_u64(h.footer_offset);
    lemma_segment_header_len(h);
    lemma_stands_at_self(data);
    lemma_stands_at_split(data, 0, a + b + c, d);
    lemma_stands_at_split(data, 0, a + b, c);
    lemma_stands_at_split(data, 0, a, b);
    lemma_decode_u8(data, 0, h.version);
    lemma_decode_u64(data, 1, h.segment_number);
    lemma_decode_i64(data, 9, h.unique_identifier);
    lemma_decode_u64(data, 17, h.footer_offset);
}

/// Decoding the bytes that a segment header encodes to gives that header.
pub proof fn lemma_segment_header_roundtrip(data: Seq<u8>, pos: int, h: SegmentHeaderView)
    requires
        stands_at(data, pos, spec_segment_header_bytes(h)),
    ensures
        spec_decode_segment_header(data, pos) == Ok::<_, ZffErrorKind>((h, pos + 37)),
{
    lemma_segment_header_len(h);
    lemma_decode_frame(data, pos, HEADER_IDENTIFIER_SEGMENT_HEADER, spec_segment_header_content(h));
    lemma_segment_header_content_roundtrip(h);
}

impl SegmentHeader {
    /// A new segment header from the given values.
    pub fn new(version: u8, segment_number: u64, unique_identifier: i64, footer_offset: u64) -> (h:
        SegmentHeader)
        ensures
            h@ == (SegmentHeaderView { version, segment_number, unique_identifier, footer_offset }),
    {
        Self { version, segment_number, unique_identifier, footer_offset }
    }

    /// The number of the segment.
    pub fn segment_number(&self) -> (number: u64)
        ensures
            number == self@.segment_number,
    {
        self.segment_number
    }

    /// The unique identifier of the image that the segment belongs to.
    pub fn unique_identifier(&self) -> (id: i64)
        ensures
            id == self@.unique_identifier,
    {
        self.unique_identifier
    }

    /// The position in the segment at which its footer begins.
    pub fn footer_offset(&self) -> (offset: u64)
        ensures
            offset == self@.footer_offset,
    {
        self.footer_offset
    }

    /// Overwrites the offset of the footer, which is known only when the
    /// chunks of the segment are written.
    pub fn set_footer_offset(&mut self, offset: u64)
        ensures
            final(self)@ == (SegmentHeaderView { footer_offset: offset, ..old(self)@ }),
    {
        self.footer_offset = offset
    }
}

impl HeaderCoding for SegmentHeader {
    open spec fn spec_identifier() -> u32 {
        HEADER_IDENTIFIER_SEGMENT_HEADER
    }

    open spec fn spec_version(value: SegmentHeaderView) -> u8 {
        value.version
    }

    open spec fn spec_encode_header(value: SegmentHeaderView) -> Seq<u8> {
        spec_segment_header_content(value)
    }

    open spec fn spec_decode_content(data: Seq<u8>) -> Result<SegmentHeaderView, ZffErrorKind> {
        spec_decode_segment_header_content(data)
    }

    open spec fn spec_decode_directly(data: Seq<u8>, pos: int) -> Result<
        (SegmentHeaderView, int),
        ZffErrorKind,
    > {
        spec_decode_segment_header(data, pos)
    }

    /// The magic identifier of a segment header.
    fn identifier() -> (id: u32)
        ensures
            id == HEADER_IDENTIFIER_SEGMENT_HEADER,
    {
        HEADER_IDENTIFIER_SEGMENT_HEADER
    }

    /// The version of the header.
    fn version(&self) -> (version: u8)
        ensures
            version == self@.version,
    {
        self.version
    }

    /// The content of the header's frame.
    fn encode_header(&self) -> (out: Vec<u8>)
        ensures
            out@ == spec_segment_header_content(self@),
            out@.len() == 25,
    {
        let mut vec: Vec<u8> = Vec::new();
        vec.push(self.version);
        let mut segment_number = encode_u64(self.segment_number);
        vec.append(&mut segment_number);
        let mut unique_identifier = encode_i64(self.unique_identifier);
        vec.append(&mut unique_identifier);
        let mut footer_offset = encode_u64(self.footer_offset);
        vec.append(&mut footer_offset);
        proof {
            assert(vec@ =~= spec_segment_header_content(self@));
        }
        vec
    }

    /// The framed header: identifier, total length, content.
    fn encode_directly(&self) -> (out: Vec<u8>)
        ensures
            out@ == spec_segment_header_bytes(self@),
            out@.len() == 37,
    {
        let content = self.encode_header();
        encode_frame(HEADER_IDENTIFIER_SEGMENT_HEADER, content.as_slice())
    }

    /// Decodes the content of a segment header's frame. Content that ends
    /// early is `MalformedInput`.
    fn decode_content(data: Vec<u8>) -> (res: Result<SegmentHeader, ZffError>)
        ensures
            match spec_decode_segment_header_content(data@) {
                Ok(h) => res matches Ok(found) && found@ == h,
                Err(kind) => res matches Err(e) && e.kind == kind,
            },
    {
        let bytes = data.as_slice();
        let (version, at) = decode_u8(bytes, 0)?;
        let (segment_number, at) = decode_u64(bytes, at)?;
        let (unique_identifier, at) = decode_i64(bytes, at)?;
        let (footer_offset, _) = decode_u64(bytes, at)?;
        Ok(SegmentHeader::new(version, segment_number, unique_identifier, footer_offset))
    }

    /// Decodes the segment header framed at `pos` of `data`, and gives the
    /// position behind its frame.
    fn decode_at(data: &[u8], pos: usize) -> (res: Result<(SegmentHeader, usize), ZffError>)
        ensures
            agrees(res, spec_decode_segment_header(data@, pos as int)),
    {
        let (content, end) = decode_frame(data, pos, HEADER_IDENTIFIER_SEGMENT_HEADER)?;
        let header = SegmentHeader::decode_content(content)?;
        Ok((header, end))
    }

    /// Reads the framed segment header at the cursor of `reader` and moves
    /// the cursor behind it. On failure the cursor stays.
    fn decode_directly(reader: &mut Reader) -> (res: Result<SegmentHeader, ZffError>)
        ensures
            reads(
                *old(reader),
                *final(reader),
                res,
                spec_decode_segment_header(old(reader).data@, old(reader).position as int),
            ),
    {
        let pos = reader.cursor();
        let (header, end) = SegmentHeader::decode_at(reader.data.as_slice(), pos)?;
        reader.position = end as u64;
        Ok(header)
    }
}

} // verus!
