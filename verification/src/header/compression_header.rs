//! The header that tells how the chunks of an image are compressed.

use vstd::prelude::*;
use crate::codec::{
    agrees, decode_u32_for_key, decode_u8, encode_u32_for_key, lemma_decode_u32,
    lemma_decode_u32_be, lemma_decode_u8, lemma_stands_at_self, lemma_stands_at_split,
    spec_decode_u32_for_key, spec_decode_u8, spec_encode_for_key, spec_encode_u32,
    spec_encode_u32_be, spec_encode_u8, stands_at,
};
use crate::compression::{spec_algorithm_of_selector, CompressionAlgorithm};
use crate::constants::{ENCODING_KEY_COMPRESSION_THRESHOLD, HEADER_IDENTIFIER_COMPRESSION_HEADER};
use crate::error::{ZffError, ZffErrorKind};
use crate::framing::HeaderCoding;
use crate::framing::{decode_frame, encode_frame, lemma_decode_frame, spec_decode_frame, spec_frame};
use crate::reader::{reads, Reader};

verus! {

/// The compression header: the algorithm, its level, and optionally the
/// threshold from which a chunk is stored compressed. The threshold is a
/// ratio; the header carries it as the 32 bits of its single-precision form.
#[derive(Debug, Clone, Copy, PartialEq, Eq, Structural)]
pub struct CompressionHeader {
    version: u8,
    algorithm: CompressionAlgorithm,
    level: u8,
    threshold: Option<u32>,
}

/// What a compression header says.
pub struct CompressionHeaderView {
    pub version: u8,
    pub algorithm: CompressionAlgorithm,
    pub level: u8,
    pub threshold: Option<u32>,
}

impl View for CompressionHeader {
    type V = CompressionHeaderView;

    closed spec fn view(&self) -> CompressionHeaderView {
        CompressionHeaderView {
            version: self.version,
            algorithm: self.algorithm,
            level: self.level,
            threshold: self.threshold,
        }
    }
}

/// The bytes of an optional threshold: the value behind its tag, or nothing.
pub open spec fn spec_encode_threshold(threshold: Option<u32>) -> Seq<u8> {
    match threshold {
        Some(t) => spec_encode_for_key(ENCODING_KEY_COMPRESSION_THRESHOLD, spec_encode_u32(t)),
        None => Seq::empty(),
    }
}

/// The content of a compression header's frame: version, selector of the
/// algorithm, level and, where there is one, the tagged threshold.
pub open spec fn spec_compression_header_content(h: CompressionHeaderView) -> Seq<u8> {
    spec_encode_u8(h.version) + spec_encode_u8(h.algorithm.spec_selector()) + spec_encode_u8(
        h.level,
    ) + spec_encode_threshold(h.threshold)
}

/// The framed compression header.
pub open spec fn spec_compression_header_bytes(h: CompressionHeaderView) -> Seq<u8> {
    spec_frame(HEADER_IDENTIFIER_COMPRESSION_HEADER, spec_compression_header_content(h))
}

/// The number of bytes of a framed compression header.
pub open spec fn spec_compression_header_len(h: CompressionHeaderView) -> int {
    if h.threshold is Some {
        23
    } else {
        15
    }
}

/// The optional threshold at `pos`: absent where its tag is not there.
pub open spec fn spec_decode_threshold(data: Seq<u8>, pos: int) -> Result<
    Option<u32>,
    ZffErrorKind,
> {
    match spec_decode_u32_for_key(data, pos, ENCODING_KEY_COMPRESSION_THRESHOLD) {
        Ok((t, _)) => Ok(Some(t)),
        Err(kind) => if kind == ZffErrorKind::HeaderDecoderKeyNotOnPosition {
            Ok(None)
        } else {
            Err(kind)
        },
    }
}

/// The compression header that the content of a frame spells. A selector
/// that stands for no algorithm is `MalformedHeader`.
pub open spec fn spec_decode_compression_header_content(data: Seq<u8>) -> Result<
    CompressionHeaderView,
    ZffErrorKind,
> {
    match spec_decode_u8(data, 0) {
        Ok((version, pos1)) => match spec_decode_u8(data, pos1) {
            Ok((selector, pos2)) => match spec_algorithm_of_selector(selector) {
                Some(algorithm) => match spec_decode_u8(data, pos2) {
                    Ok((level, pos3)) => match spec_decode_threshold(data, pos3) {
                        Ok(threshold) => Ok(
                            CompressionHeaderView { version, algorithm, level, threshold },
                        ),
                        Err(kind) => Err(kind),
                    },
                    Err(kind) => Err(kind),
                },
                None => Err(ZffErrorKind::MalformedHeader),
            },
            Err(kind) => Err(kind),
        },
        Err(kind) => Err(kind),
    }
}

/// The compression header framed at `pos`, and where its frame ends.
#[verifier::opaque]
pub open spec fn spec_decode_compression_header(data: Seq<u8>, pos: int) -> Result<
    (CompressionHeaderView, int),
    ZffErrorKind,
> {
    match spec_decode_frame(data, pos, HEADER_IDENTIFIER_COMPRESSION_HEADER) {
        Ok((content, end)) => match spec_decode_compression_header_content(content) {
            Ok(h) => Ok((h, end)),
            Err(kind) => Err(kind),
        },
        Err(kind) => Err(kind),
    }
}

/// Decoding the content that a compression header encodes to gives that
/// header; without a threshold it comes back without one.
pub proof fn lemma_compression_header_content_roundtrip(h: CompressionHeaderView)
    ensures
        spec_compression_header_content(h).len() == spec_compression_header_len(h) - 12,
        spec_decode_compression_header_content(spec_compression_header_content(h)) == Ok::<
            _,
            ZffErrorKind,
        >(h),
{
    let data = spec_compression_header_content(h);
    let a = spec_encode_u8(h.version);
    let b = spec_encode_u8(h.algorithm.spec_selector());
    let c = spec_encode_u8(h.level);
    let d = spec_encode_threshold(h.threshold);
    lemma_stands_at_self(data);
    lemma_stands_at_split(data, 0, a + b + c, d);
    lemma_stands_at_split(data, 0, a + b, c);
    lemma_stands_at_split(data, 0, a, b);
    lemma_decode_u8(data, 0, h.version);
    lemma_decode_u8(data, 1, h.algorithm.spec_selector());
    lemma_decode_u8(data, 2, h.level);
    match h.threshold {
        Some(t) => {
            lemma_stands_at_split(
                data,
                3,
                spec_encode_u32_be(ENCODING_KEY_COMPRESSION_THRESHOLD),
                spec_encode_u32(t),
            );
            lemma_decode_u32_be(data, 3, ENCODING_KEY_COMPRESSION_THRESHOLD);
            lemma_decode_u32(data, 7, t);
        },
        None => {},
    }
}

/// Decoding the bytes that a compression header encodes to gives that
/// header.
pub proof fn lemma_compression_header_roundtrip(data: Seq<u8>, pos: int, h: CompressionHeaderView)
    requires
        stands_at(data, pos, spec_compression_header_bytes(h)),
    ensures
        spec_compression_header_bytes(h).len() == spec_compression_header_len(h),
        spec_decode_compression_header(data, pos) == Ok::<_, ZffErrorKind>(
            (h, pos + spec_compression_header_len(h)),
        ),
{
    reveal(spec_decode_compression_header);
    lemma_compression_header_content_roundtrip(h);
    lemma_decode_frame(
        data,
        pos,
        HEADER_IDENTIFIER_COMPRESSION_HEADER,
        spec_compression_header_content(h),
    );
}

impl CompressionHeader {
    /// A new compression header from the given values.
    pub fn new(version: u8, algorithm: CompressionAlgorithm, level: u8, threshold: Option<u32>) -> (h:
        CompressionHeader)
        ensures
            h@ == (CompressionHeaderView { version, algorithm, level, threshold }),
    {
        Self { version, algorithm, level, threshold }
    }

    /// The compression algorithm.
    pub fn algorithm(&self) -> (algorithm: &CompressionAlgorithm)
        ensures
            *algorithm == self@.algorithm,
    {
        &self.algorithm
    }

    /// The compression level.
    pub fn level(&self) -> (level: u8)
        ensures
            level == self@.level,
    {
        self.level
    }

    /// The threshold, if there is one, as the bits of its single-precision
    /// form.
    pub fn threshold(&self) -> (threshold: Option<u32>)
        ensures
            threshold == self@.threshold,
    {
        self.threshold
    }
}

impl HeaderCoding for CompressionHeader {
    open spec fn spec_identifier() -> u32 {
        HEADER_IDENTIFIER_COMPRESSION_HEADER
    }

    open spec fn spec_version(value: CompressionHeaderView) -> u8 {
        value.version
    }

    open spec fn spec_encode_header(value: CompressionHeaderView) -> Seq<u8> {
        spec_compression_header_content(value)
    }

    open spec fn spec_decode_content(data: Seq<u8>) -> Result<CompressionHeaderView, ZffErrorKind> {
        spec_decode_compression_header_content(data)
    }

    open spec fn spec_decode_directly(data: Seq<u8>, pos: int) -> Result<
        (CompressionHeaderView, int),
        ZffErrorKind,
    > {
        spec_decode_compression_header(data, pos)
    }

    /// The magic identifier of a compression header.
    fn identifier() -> (id: u32)
        ensures
            id == HEADER_IDENTIFIER_COMPRESSION_HEADER,
    {
        HEADER_IDENTIFIER_COMPRESSION_HEADER
    }

    /// The version of the header.
    fn version(&self) -> (version: u8)
        ensures
            version == self@.version,
    {
        self.version
    }

    /// The content of the header's frame.
    fn encode_header(&self) -> (out: Vec<u8>)
        ensures
            out@ == spec_compression_header_content(self@),
    {
        let mut vec: Vec<u8> = Vec::new();
        vec.push(self.version);
        vec.push(self.algorithm.selector());
        vec.push(self.level);
        match self.threshold {
            Some(t) => {
                let mut threshold = encode_u32_for_key(t, ENCODING_KEY_COMPRESSION_THRESHOLD);
                vec.append(&mut threshold);
            },
            None => {},
        }
        proof {
            assert(vec@ =~= spec_compression_header_content(self@));
        }
        vec
    }

    /// The framed header: identifier, total length, content.
    fn encode_directly(&self) -> (out: Vec<u8>)
        ensures
            out@ == spec_compression_header_bytes(self@),
            out@.len() == spec_compression_header_len(self@),
    {
        let content = self.encode_header();
        proof {
            lemma_compression_header_content_roundtrip(self@);
        }
        encode_frame(HEADER_IDENTIFIER_COMPRESSION_HEADER, content.as_slice())
    }

    /// Decodes the content of a compression header's frame. A selector that
    /// stands for no algorithm is `MalformedHeader`.
    fn decode_content(data: Vec<u8>) -> (res: Result<CompressionHeader, ZffError>)
        ensures
            match spec_decode_compression_header_content(data@) {
                Ok(h) => res matches Ok(found) && found@ == h,
                Err(kind) => res matches Err(e) && e.kind == kind,
            },
    {
        let bytes = data.as_slice();
        let (version, at) = decode_u8(bytes, 0)?;
        let (selector, at) = decode_u8(bytes, at)?;
        let algorithm = match CompressionAlgorithm::from_selector(selector) {
            Some(algorithm) => algorithm,
            None => { return Err(ZffError::of_kind(ZffErrorKind::MalformedHeader)); },
        };
        let (level, at) = decode_u8(bytes, at)?;
        let threshold = match decode_u32_for_key(bytes, at, ENCODING_KEY_COMPRESSION_THRESHOLD) {
            Ok((t, _)) => Some(t),
            Err(e) => match e.get_kind() {
                ZffErrorKind::HeaderDecoderKeyNotOnPosition => None,
                _ => { return Err(e); },
            },
        };
        Ok(CompressionHeader::new(version, algorithm, level, threshold))
    }

    /// Decodes the compression header framed at `pos` of `data`, and gives
    /// the position behind its frame.
    fn decode_at(data: &[u8], pos: usize) -> (res: Result<(CompressionHeader, usize), ZffError>)
        ensures
            agrees(res, spec_decode_compression_header(data@, pos as int)),
    {
        proof {
            reveal(spec_decode_compression_header);
        }
        let (content, end) = decode_frame(data, pos, HEADER_IDENTIFIER_COMPRESSION_HEADER)?;
        let header = CompressionHeader::decode_content(content)?;
        Ok((header, end))
    }

    /// Reads the framed compression header at the cursor of `reader` and
    /// moves the cursor behind it. On failure the cursor stays.
    fn decode_directly(reader: &mut Reader) -> (res: Result<CompressionHeader, ZffError>)
        ensures
            reads(
                *old(reader),
                *final(reader),
                res,
                spec_decode_compression_header(old(reader).data@, old(reader).position as int),
            ),
    {
        proof {
            reveal(spec_decode_compression_header);
        }
        let pos = reader.cursor();
        let (header, end) = CompressionHeader::decode_at(reader.data.as_slice(), pos)?;
        reader.position = end as u64;
        Ok(header)
    }
}

} // verus!
