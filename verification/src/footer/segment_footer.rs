//! The footer that closes every segment.

use vstd::prelude::*;
use crate::codec::{
    agrees, decode_u64, decode_u64_seq, decode_u8, encode_u64, encode_u64_seq, lemma_decode_u64,
    lemma_decode_u64_seq, lemma_decode_u8, lemma_stands_at_self, lemma_stands_at_split,
    spec_decode_u64, spec_decode_u64_seq, spec_decode_u8, spec_encode_u64, spec_encode_u64_seq,
    spec_encode_u8, stands_at,
};
use crate::constants::FOOTER_IDENTIFIER_SEGMENT_FOOTER;
use crate::error::{ZffError, ZffErrorKind};
use crate::framing::HeaderCoding;
use crate::framing::{decode_frame, encode_frame, lemma_decode_frame, spec_decode_frame, spec_frame};
use crate::reader::{reads, Reader};

verus! {

/// The footer of a segment. It holds the table of the chunks of the segment:
/// the position of each chunk's header, in the order of the chunks.
#[derive(Debug, Clone, PartialEq, Eq)]
pub struct SegmentFooter {
    version: u8,
    length_of_segment: u64,
    chunk_offsets: Vec<u64>,
    /// The offset where the footer starts.
    footer_offset: u64,
}

/// What a segment footer says.
pub struct SegmentFooterView {
    pub version: u8,
    pub length_of_segment: u64,
    pub chunk_offsets: Seq<u64>,
    pub footer_offset: u64,
}

impl SegmentFooterView {
    /// The frame of the footer has a length that eight bytes can hold.
    pub open spec fn wf(self) -> bool {
        37 + 8 * self.chunk_offsets.len() <= u64::MAX
    }
}

impl View for SegmentFooter {
    type V = SegmentFooterView;

    closed spec fn view(&self) -> SegmentFooterView {
        SegmentFooterView {
            version: self.version,
            length_of_segment: self.length_of_segment,
            chunk_offsets: self.chunk_offsets@,
            footer_offset: self.footer_offset,
        }
    }
}

/// The content of a segment footer's frame: version, length of the segment,
/// the table of chunk offsets, the footer's own offset.
pub open spec fn spec_segment_footer_content(f: SegmentFooterView) -> Seq<u8> {
    spec_encode_u8(f.version) + spec_encode_u64(f.length_of_segment) + spec_encode_u64_seq(
        f.chunk_offsets,
    ) + spec_encode_u64(f.footer_offset)
}

/// The framed segment footer.
pub open spec fn spec_segment_footer_bytes(f: SegmentFooterView) -> Seq<u8> {
    spec_frame(FOOTER_IDENTIFIER_SEGMENT_FOOTER, spec_segment_footer_content(f))
}

/// The segment footer that the content of a frame spells.
pub open spec fn spec_decode_segment_footer_content(data: Seq<u8>) -> Result<
    SegmentFooterView,
    ZffErrorKind,
> {
    match spec_decode_u8(data, 0) {
        Ok((version, pos1)) => match spec_decode_u64(data, pos1) {
            Ok((length_of_segment, pos2)) => match spec_decode_u64_seq(data, pos2) {
                Ok((chunk_offsets, pos3)) => match spec_decode_u64(data, pos3) {
                    Ok((footer_offset, _)) => Ok(
                        SegmentFooterView {
                            version,
                            length_of_segment,
                            chunk_offsets,
                            footer_offset,
                        },
                    ),
                    Err(kind) => Err(kind),
                },
                Err(kind) => Err(kind),
            },
            Err(kind) => Err(kind),
        },
        Err(kind) => Err(kind),
    }
}

/// The segment footer framed at `pos`, and where its frame ends.
pub open spec fn spec_decode_segment_footer(data: Seq<u8>, pos: int) -> Result<
    (SegmentFooterView, int),
    ZffErrorKind,
> {
    match spec_decode_frame(data, pos, FOOTER_IDENTIFIER_SEGMENT_FOOTER) {
        Ok((content, end)) => match spec_decode_segment_footer_content(content) {
            Ok(f) => Ok((f, end)),
            Err(kind) => Err(kind),
        },
        Err(kind) => Err(kind),
    }
}

/// The content of a segment footer has 25 bytes and eight for each chunk.
pub proof fn lemma_segment_footer_len(f: SegmentFooterView)
    requires
        f.wf(),
    ensures
        spec_segment_footer_content(f).len() == 25 + 8 * f.chunk_offsets.len(),
        spec_segment_footer_bytes(f).len() == 37 + 8 * f.chunk_offsets.len(),
{
    vstd::bytes::lemma_auto_spec_u64_to_from_le_bytes();
    crate::codec::lemma_u64_items_len(f.chunk_offsets);
}

/// Decoding the content that a segment footer encodes to gives that footer.
pub proof fn lemma_segment_footer_content_roundtrip(f: SegmentFooterView)
    requires
        f.wf(),
    ensures
        spec_decode_segment_footer_content(spec_segment_footer_content(f)) == Ok::<
            _,
            ZffErrorKind,
        >(f),
{
    let data = spec_segment_footer_content(f);
    let a = spec_encode_u8(f.version);
    let b = spec_encode_u64(f.length_of_segment);
    let c = spec_encode_u64_seq(f.chunk_offsets);
    let d = spec_encode_u64(f.footer_offset);
    lemma_segment_footer_len(f);
    lemma_stands_at_self(data);
    lemma_stands_at_split(data, 0, a + b + c, d);
    lemma_stands_at_split(data, 0, a + b, c);
    lemma_stands_at_split(data, 0, a, b);
    lemma_decode_u8(data, 0, f.version);
    lemma_decode_u64(data, 1, f.length_of_segment);
    lemma_decode_u64_seq(data, 9, f.chunk_offsets);
    lemma_decode_u64(data, 17 + 8 * (f.chunk_offsets.len() as int), f.footer_offset);
}

/// Decoding the bytes that a segment footer encodes to gives that footer.
pub proof fn lemma_segment_footer_roundtrip(data: Seq<u8>, pos: int, f: SegmentFooterView)
    requires
        f.wf(),
        stands_at(data, pos, spec_segment_footer_bytes(f)),
    ensures
        spec_decode_segment_footer(data, pos) == Ok::<_, ZffErrorKind>(
            (f, pos + 37 + 8 * f.chunk_offsets.len()),
        ),
{
    lemma_segment_footer_len(f);
    lemma_decode_frame(data, pos, FOOTER_IDENTIFIER_SEGMENT_FOOTER, spec_segment_footer_content(f));
    lemma_segment_footer_content_roundtrip(f);
}

impl SegmentFooter {
    /// A new, empty segment footer: no chunk, length and offset 0.
    pub fn new_empty(version: u8) -> (f: SegmentFooter)
        ensures
            f@ == (SegmentFooterView {
                version,
                length_of_segment: 0,
                chunk_offsets: Seq::empty(),
                footer_offset: 0,
            }),
    {
        Self { version, length_of_segment: 0, chunk_offsets: Vec::new(), footer_offset: 0 }
    }

    /// A new segment footer with the given table of chunk offsets.
    pub fn new(version: u8, length_of_segment: u64, chunk_offsets: Vec<u64>, footer_offset: u64) -> (f:
        SegmentFooter)
        ensures
            f@ == (SegmentFooterView {
                version,
                length_of_segment,
                chunk_offsets: chunk_offsets@,
                footer_offset,
            }),
    {
        Self { version, length_of_segment, chunk_offsets, footer_offset }
    }

    /// The length of the segment in bytes.
    pub fn length_of_segment(&self) -> (length: u64)
        ensures
            length == self@.length_of_segment,
    {
        self.length_of_segment
    }

    /// Overwrites the length of the segment, for a footer that was made empty
    /// before the segment was written.
    pub fn set_length_of_segment(&mut self, value: u64)
        ensures
            final(self)@ == (SegmentFooterView { length_of_segment: value, ..old(self)@ }),
    {
        self.length_of_segment = value
    }

    /// Adds the offset of the next chunk to the table.
    pub fn add_offset(&mut self, offset: u64)
        ensures
            final(self)@ == (SegmentFooterView {
                chunk_offsets: old(self)@.chunk_offsets.push(offset),
                ..old(self)@
            }),
    {
        self.chunk_offsets.push(offset)
    }

    /// The table of chunk offsets.
    pub fn chunk_offsets(&self) -> (offsets: &Vec<u64>)
        ensures
            offsets@ == self@.chunk_offsets,
    {
        &self.chunk_offsets
    }

    /// The offset at which the footer says that it starts.
    pub fn footer_offset(&self) -> (offset: u64)
        ensures
            offset == self@.footer_offset,
    {
        self.footer_offset
    }

    /// Overwrites the footer's own offset.
    pub fn set_footer_offset(&mut self, offset: u64)
        ensures
            final(self)@ == (SegmentFooterView { footer_offset: offset, ..old(self)@ }),
    {
        self.footer_offset = offset
    }
}

impl HeaderCoding for SegmentFooter {
    open spec fn spec_identifier() -> u32 {
        FOOTER_IDENTIFIER_SEGMENT_FOOTER
    }

    open spec fn spec_version(value: SegmentFooterView) -> u8 {
        value.version
    }

    open spec fn spec_encode_header(value: SegmentFooterView) -> Seq<u8> {
        spec_segment_footer_content(value)
    }

    open spec fn spec_decode_content(data: Seq<u8>) -> Result<SegmentFooterView, ZffErrorKind> {
        spec_decode_segment_footer_content(data)
    }

    open spec fn spec_decode_directly(data: Seq<u8>, pos: int) -> Result<
        (SegmentFooterView, int),
        ZffErrorKind,
    > {
        spec_decode_segment_footer(data, pos)
    }

    /// The magic identifier of a segment footer.
    fn identifier() -> (id: u32)
        ensures
            id == FOOTER_IDENTIFIER_SEGMENT_FOOTER,
    {
        FOOTER_IDENTIFIER_SEGMENT_FOOTER
    }

    /// The version of the footer.
    fn version(&self) -> (version: u8)
        ensures
            version == self@.version,
    {
        self.version
    }

    /// The content of the footer's frame.
    fn encode_header(&self) -> (out: Vec<u8>)
        ensures
            out@ == spec_segment_footer_content(self@),
            out@.len() == 25 + 8 * self@.chunk_offsets.len(),
    {
        let mut vec: Vec<u8> = Vec::new();
        vec.push(self.version);
        let mut length_of_segment = encode_u64(self.length_of_segment);
        vec.append(&mut length_of_segment);
        let mut chunk_offsets = encode_u64_seq(&self.chunk_offsets);
        vec.append(&mut chunk_offsets);
        let mut footer_offset = encode_u64(self.footer_offset);
        vec.append(&mut footer_offset);
        proof {
            assert(vec@ =~= spec_segment_footer_content(self@));
        }
        vec
    }

    /// The framed footer: identifier, total length, content.
    fn encode_directly(&self) -> (out: Vec<u8>)
        ensures
            out@ == spec_segment_footer_bytes(self@),
            out@.len() == 37 + 8 * self@.chunk_offsets.len(),
            self@.wf(),
    {
        let content = self.encode_header();
        encode_frame(FOOTER_IDENTIFIER_SEGMENT_FOOTER, content.as_slice())
    }

    /// Decodes the content of a segment footer's frame. Content that ends
    /// early, or a table longer than the content, is `MalformedInput`.
    fn decode_content(data: Vec<u8>) -> (res: Result<SegmentFooter, ZffError>)
        ensures
            match spec_decode_segment_footer_content(data@) {
                Ok(f) => res matches Ok(found) && found@ == f,
                Err(kind) => res matches Err(e) && e.kind == kind,
            },
    {
        let bytes = data.as_slice();
        let (version, at) = decode_u8(bytes, 0)?;
        let (length_of_segment, at) = decode_u64(bytes, at)?;
        let (chunk_offsets, at) = decode_u64_seq(bytes, at)?;
        let (footer_offset, _) = decode_u64(bytes, at)?;
        Ok(SegmentFooter::new(version, length_of_segment, chunk_offsets, footer_offset))
    }

    /// Decodes the segment footer framed at `pos` of `data`, and gives the
    /// position behind its frame.
    fn decode_at(data: &[u8], pos: usize) -> (res: Result<(SegmentFooter, usize), ZffError>)
        ensures
            agrees(res, spec_decode_segment_footer(data@, pos as int)),
    {
        let (content, end) = decode_frame(data, pos, FOOTER_IDENTIFIER_SEGMENT_FOOTER)?;
        let footer = SegmentFooter::decode_content(content)?;
        Ok((footer, end))
    }

    /// Reads the framed segment footer at the cursor of `reader` and moves
    /// the cursor behind it. On failure the cursor stays.
    fn decode_directly(reader: &mut Reader) -> (res: Result<SegmentFooter, ZffError>)
        ensures
            reads(
                *old(reader),
                *final(reader),
                res,
                spec_decode_segment_footer(old(reader).data@, old(reader).position as int),
            ),
    {
        let pos = reader.cursor();
        let (footer, end) = SegmentFooter::decode_at(reader.data.as_slice(), pos)?;
        reader.position = end as u64;
        Ok(footer)
    }
}

} // verus!
