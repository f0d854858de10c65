//! Compression of chunk payloads: none, Zstd, or LZ4 in its frame format.

use std::io::{Read, Write};
use vstd::prelude::*;
use crate::error::{ZffError, ZffErrorKind};

verus! {

/// The compression algorithms of the format.
#[derive(Debug, Clone, Copy, PartialEq, Eq, Structural)]
pub enum CompressionAlgorithm {
    /// No compression; 0 in a header.
    Uncompressed,
    /// Zstd compression; 1 in a header.
    Zstd,
    /// LZ4 compression in the LZ4 frame format (not the block format); 2 in a
    /// header.
    Lz4,
}

/// The lower-case form of an ASCII letter; any other byte itself.
pub open spec fn spec_ascii_lower(b: u8) -> u8 {
    if 0x41 <= b <= 0x5a {
        (b + 0x20) as u8
    } else {
        b
    }
}

/// Equality of byte strings, the case of ASCII letters ignored.
pub open spec fn spec_eq_ignore_ascii_case(a: Seq<u8>, b: Seq<u8>) -> bool {
    a.len() == b.len() && forall|i: int|
        0 <= i < a.len() ==> spec_ascii_lower(#[trigger] a[i]) == spec_ascii_lower(b[i])
}

/// The bytes of the name `zstd`.
pub open spec fn spec_name_zstd() -> Seq<u8> {
    seq![0x7au8, 0x73u8, 0x74u8, 0x64u8]
}

/// The bytes of the name `lz4`.
pub open spec fn spec_name_lz4() -> Seq<u8> {
    seq![0x6cu8, 0x7au8, 0x34u8]
}

/// The algorithm that a name stands for: `zstd` and `lz4` in any case of
/// letters, and no compression for every other name.
pub open spec fn spec_algorithm_of_name(name: Seq<u8>) -> CompressionAlgorithm {
    if spec_eq_ignore_ascii_case(name, spec_name_zstd()) {
        CompressionAlgorithm::Zstd
    } else if spec_eq_ignore_ascii_case(name, spec_name_lz4()) {
        CompressionAlgorithm::Lz4
    } else {
        CompressionAlgorithm::Uncompressed
    }
}

/// The algorithm that a selector byte stands for, if any.
pub open spec fn spec_algorithm_of_selector(selector: u8) -> Option<CompressionAlgorithm> {
    if selector == 0 {
        Some(CompressionAlgorithm::Uncompressed)
    } else if selector == 1 {
        Some(CompressionAlgorithm::Zstd)
    } else if selector == 2 {
        Some(CompressionAlgorithm::Lz4)
    } else {
        None
    }
}

/// The lower-case form of an ASCII letter; any other byte itself.
pub fn ascii_lower(b: u8) -> (lower: u8)
    ensures
        lower == spec_ascii_lower(b),
{
    if 0x41 <= b && b <= 0x5a {
        b + 0x20
    } else {
        b
    }
}

/// Whether two byte strings are equal, the case of ASCII letters ignored.
pub fn eq_ignore_ascii_case(a: &[u8], b: &[u8]) -> (equal: bool)
    ensures
        equal == spec_eq_ignore_ascii_case(a@, b@),
{
    if a.len() != b.len() {
        return false;
    }
    let mut i: usize = 0;
    while i < a.len()
        invariant
            i <= a.len(),
            a@.len() == b@.len(),
            forall|j: int| 0 <= j < i ==> spec_ascii_lower(#[trigger] a@[j]) == spec_ascii_lower(b@[j]),
        decreases a.len() - i,
    {
        if ascii_lower(a[i]) != ascii_lower(b[i]) {
            return false;
        }
        i += 1;
    }
    true
}

impl CompressionAlgorithm {
    /// The byte that selects this algorithm in a header.
    pub open spec fn spec_selector(self) -> u8 {
        match self {
            CompressionAlgorithm::Uncompressed => 0,
            CompressionAlgorithm::Zstd => 1,
            CompressionAlgorithm::Lz4 => 2,
        }
    }

    /// The byte that selects this algorithm in a header.
    pub fn selector(&self) -> (selector: u8)
        ensures
            selector == self.spec_selector(),
            spec_algorithm_of_selector(selector) == Some(*self),
    {
        match self {
            CompressionAlgorithm::Uncompressed => 0,
            CompressionAlgorithm::Zstd => 1,
            CompressionAlgorithm::Lz4 => 2,
        }
    }

    /// The algorithm that a selector byte stands for, if any.
    pub fn from_selector(selector: u8) -> (algorithm: Option<CompressionAlgorithm>)
        ensures
            algorithm == spec_algorithm_of_selector(selector),
    {
        if selector == 0 {
            Some(CompressionAlgorithm::Uncompressed)
        } else if selector == 1 {
            Some(CompressionAlgorithm::Zstd)
        } else if selector == 2 {
            Some(CompressionAlgorithm::Lz4)
        } else {
            None
        }
    }
}

impl From<&str> for CompressionAlgorithm {
    /// Reads the name of an algorithm, whatever the case of its letters.
    /// A name that is neither `zstd` nor `lz4` stands for no compression.
    fn from(algorithm: &str) -> (ret: CompressionAlgorithm) {
        let name = algorithm.as_bytes();
        let zstd: [u8; 4] = [0x7a, 0x73, 0x74, 0x64];
        let lz4: [u8; 3] = [0x6c, 0x7a, 0x34];
        proof {
            assert(zstd@ =~= spec_name_zstd());
            assert(lz4@ =~= spec_name_lz4());
        }
        if eq_ignore_ascii_case(name, zstd.as_slice()) {
            CompressionAlgorithm::Zstd
        } else if eq_ignore_ascii_case(name, lz4.as_slice()) {
            CompressionAlgorithm::Lz4
        } else {
            CompressionAlgorithm::Uncompressed
        }
    }
}

impl vstd::std_specs::convert::FromSpecImpl<&str> for CompressionAlgorithm {
    open spec fn obeys_from_spec() -> bool {
        true
    }

    open spec fn from_spec(algorithm: &str) -> CompressionAlgorithm {
        spec_algorithm_of_name(vstd::utf8::encode_utf8(algorithm@))
    }
}

/// What Zstd decompression gives for a buffer: the decoded bytes, or nothing
/// where the buffer is no Zstd frame.
pub uninterp spec fn spec_zstd_decompress(buffer: Seq<u8>) -> Option<Seq<u8>>;

/// What Zstd compression at a level gives for a buffer.
pub uninterp spec fn spec_zstd_compress(buffer: Seq<u8>, level: i32) -> Option<Seq<u8>>;

/// What LZ4 frame decompression gives for a buffer: the decoded bytes, or
/// nothing where the buffer is no LZ4 frame.
pub uninterp spec fn spec_lz4_decompress(buffer: Seq<u8>) -> Option<Seq<u8>>;

/// What LZ4 frame compression gives for a buffer.
pub uninterp spec fn spec_lz4_compress(buffer: Seq<u8>) -> Option<Seq<u8>>;

/// What an executable codec returned is what the codec is said to give.
pub open spec fn same_outcome(res: Option<Vec<u8>>, expected: Option<Seq<u8>>) -> bool {
    match expected {
        Some(bytes) => res matches Some(v) && v@ == bytes,
        None => res is None,
    }
}

/// `zstd::stream::decode_all`: decodes a buffer of Zstd frames. The result is
/// fixed by the buffer; a buffer that does not decode gives nothing.
#[verifier::external_body]
fn zstd_decode_all(buffer: &[u8]) -> (res: Option<Vec<u8>>)
    ensures
        same_outcome(res, spec_zstd_decompress(buffer@)),
{
    zstd::stream::decode_all(buffer).ok()
}

/// `zstd::stream::encode_all`: encodes a buffer as a Zstd frame at a level.
/// The result is fixed by the buffer and the level.
#[verifier::external_body]
fn zstd_encode_all(buffer: &[u8], level: i32) -> (res: Option<Vec<u8>>)
    ensures
        same_outcome(res, spec_zstd_compress(buffer@, level)),
{
    zstd::stream::encode_all(buffer, level).ok()
}

/// `lz4_flex::frame::FrameDecoder`, read to its end: decodes a buffer of LZ4
/// frames. The result is fixed by the buffer; a buffer that does not decode
/// gives nothing.
#[verifier::external_body]
fn lz4_frame_decode(buffer: &[u8]) -> (res: Option<Vec<u8>>)
    ensures
        same_outcome(res, spec_lz4_decompress(buffer@)),
{
    let mut decoded = Vec::new();
    let mut decoder = lz4_flex::frame::FrameDecoder::new(buffer);
    decoder.read_to_end(&mut decoded).ok()?;
    Some(decoded)
}

/// `lz4_flex::frame::FrameEncoder`, written once and finished: encodes a
/// buffer as an LZ4 frame. The result is fixed by the buffer.
#[verifier::external_body]
fn lz4_frame_encode(buffer: &[u8]) -> (res: Option<Vec<u8>>)
    ensures
        same_outcome(res, spec_lz4_compress(buffer@)),
{
    let mut encoder = lz4_flex::frame::FrameEncoder::new(Vec::new());
    encoder.write_all(buffer).ok()?;
    encoder.finish().ok()
}

/// What a codec gave, as a result of the library: the bytes, or an error of
/// the kind `Io` where the codec gave nothing.
pub fn codec_result(outcome: Option<Vec<u8>>) -> (res: Result<Vec<u8>, ZffError>)
    ensures
        match outcome {
            Some(bytes) => res matches Ok(v) && v == bytes,
            None => res matches Err(e) && e.kind == ZffErrorKind::Io,
        },
{
    match outcome {
        Some(bytes) => Ok(bytes),
        None => Err(ZffError::of_kind(ZffErrorKind::Io)),
    }
}

/// What decompression under an algorithm gives for a buffer.
pub open spec fn spec_decompress(
    buffer: Seq<u8>,
    algorithm: CompressionAlgorithm,
) -> Option<Seq<u8>> {
    match algorithm {
        CompressionAlgorithm::Uncompressed => Some(buffer),
        CompressionAlgorithm::Zstd => spec_zstd_decompress(buffer),
        CompressionAlgorithm::Lz4 => spec_lz4_decompress(buffer),
    }
}

/// The Zstd level that a header's level byte asks for.
pub open spec fn spec_zstd_level(level: u8) -> i32 {
    level as i32
}

/// What compression under an algorithm and a level gives for a buffer.
pub open spec fn spec_compress(
    buffer: Seq<u8>,
    algorithm: CompressionAlgorithm,
    level: u8,
) -> Option<Seq<u8>> {
    match algorithm {
        CompressionAlgorithm::Uncompressed => Some(buffer),
        CompressionAlgorithm::Zstd => spec_zstd_compress(buffer, spec_zstd_level(level)),
        CompressionAlgorithm::Lz4 => spec_lz4_compress(buffer),
    }
}

/// What a codec call of the library returned is what the codec gives.
pub open spec fn codec_agrees(res: Result<Vec<u8>, ZffError>, expected: Option<Seq<u8>>) -> bool {
    match expected {
        Some(bytes) => res matches Ok(v) && v@ == bytes,
        None => res matches Err(e) && e.kind == ZffErrorKind::Io,
    }
}

/// Decompresses a buffer. Without compression the buffer comes back as it
/// is; a buffer that the algorithm cannot decode is an error of the kind `Io`.
pub fn decompress_buffer(buffer: &[u8], compression_algorithm: &CompressionAlgorithm) -> (res:
    Result<Vec<u8>, ZffError>)
    ensures
        codec_agrees(res, spec_decompress(buffer@, *compression_algorithm)),
        *compression_algorithm == CompressionAlgorithm::Uncompressed ==> (res matches Ok(v) && v@
            == buffer@),
{
    match compression_algorithm {
        CompressionAlgorithm::Uncompressed => Ok(vstd::slice::slice_to_vec(buffer)),
        CompressionAlgorithm::Zstd => codec_result(zstd_decode_all(buffer)),
        CompressionAlgorithm::Lz4 => codec_result(lz4_frame_decode(buffer)),
    }
}

/// Compresses a buffer. Without compression the buffer comes back as it is.
/// The level is handed to Zstd, where 0 asks for its default; LZ4 has no
/// levels.
pub fn compress_buffer(
    buffer: &[u8],
    compression_algorithm: &CompressionAlgorithm,
    level: u8,
) -> (res: Result<Vec<u8>, ZffError>)
    ensures
        codec_agrees(res, spec_compress(buffer@, *compression_algorithm, level)),
        *compression_algorithm == CompressionAlgorithm::Uncompressed ==> (res matches Ok(v) && v@
            == buffer@),
{
    match compression_algorithm {
        CompressionAlgorithm::Uncompressed => Ok(vstd::slice::slice_to_vec(buffer)),
        CompressionAlgorithm::Zstd => codec_result(zstd_encode_all(buffer, level as i32)),
        CompressionAlgorithm::Lz4 => codec_result(lz4_frame_encode(buffer)),
    }
}

/// Without compression, what was compressed decompresses to itself.
pub proof fn lemma_uncompressed_roundtrip(buffer: Seq<u8>, level: u8)
    ensures
        spec_compress(buffer, CompressionAlgorithm::Uncompressed, level) == Some(buffer),
        spec_decompress(buffer, CompressionAlgorithm::Uncompressed) == Some(buffer),
{
}

} // verus!
