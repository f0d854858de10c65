//! The envelope of every record: magic identifier, total length, content.

use vstd::prelude::*;
use vstd::bytes::*;
use crate::codec::{
    agrees, decode_fixed, decode_u64, encode_u32_be, encode_u64, key_at, lemma_decode_u32_be,
    lemma_decode_u64, lemma_stands_at_split, malformed_input, spec_decode_fixed, spec_decode_u64,
    spec_encode_u32_be, spec_encode_u64, spec_key_at, stands_at,
};
use crate::error::{ZffError, ZffErrorKind};
use crate::reader::{reads, Reader};

verus! {

/// Bytes of a frame that lie before its content.
pub const FRAME_PREFIX_LENGTH: u64 = 12;

/// A frame: the identifier, most significant byte first; the length of the
/// whole frame in eight little-endian bytes; the content.
pub open spec fn spec_frame(identifier: u32, content: Seq<u8>) -> Seq<u8> {
    spec_encode_u32_be(identifier) + spec_encode_u64((12 + content.len()) as u64) + content
}

/// The content of the frame of `identifier` at `pos`, and where the frame ends.
pub open spec fn spec_decode_frame(data: Seq<u8>, pos: int, identifier: u32) -> Result<
    (Seq<u8>, int),
    ZffErrorKind,
> {
    if !spec_key_at(data, pos, identifier) {
        Err(ZffErrorKind::HeaderDecodeMismatchIdentifier)
    } else {
        match spec_decode_u64(data, pos + 4) {
            Ok((total, start)) => if total < 12 {
                Err(ZffErrorKind::MalformedHeader)
            } else {
                spec_decode_fixed(data, start, total - 12)
            },
            Err(kind) => Err(kind),
        }
    }
}

/// A frame that stands at `pos` is found there, content and end.
pub proof fn lemma_decode_frame(data: Seq<u8>, pos: int, identifier: u32, content: Seq<u8>)
    requires
        12 + content.len() <= u64::MAX,
        stands_at(data, pos, spec_frame(identifier, content)),
    ensures
        spec_frame(identifier, content).len() == 12 + content.len(),
        spec_decode_frame(data, pos, identifier) == Ok::<_, ZffErrorKind>(
            (content, pos + 12 + content.len()),
        ),
{
    let total = (12 + content.len()) as u64;
    lemma_auto_spec_u64_to_from_le_bytes();
    lemma_stands_at_split(
        data,
        pos,
        spec_encode_u32_be(identifier) + spec_encode_u64(total),
        content,
    );
    lemma_stands_at_split(data, pos, spec_encode_u32_be(identifier), spec_encode_u64(total));
    lemma_decode_u32_be(data, pos, identifier);
    lemma_decode_u64(data, pos + 4, total);
}

/// `len` of std on a byte slice, as a `u64`. No slice spans more than
/// `isize::MAX` bytes, so the count leaves room for a frame's prefix.
#[verifier::external_body]
fn byte_count(bytes: &[u8]) -> (n: u64)
    ensures
        n == bytes@.len(),
        n <= isize::MAX,
{
    bytes.len() as u64
}

/// Wraps `content` in the frame of `identifier`.
pub fn encode_frame(identifier: u32, content: &[u8]) -> (out: Vec<u8>)
    ensures
        out@ == spec_frame(identifier, content@),
        out@.len() == 12 + content@.len(),
        12 + content@.len() <= u64::MAX,
{
    let total: u64 = FRAME_PREFIX_LENGTH + byte_count(content);
    let mut out = encode_u32_be(identifier);
    let mut length = encode_u64(total);
    out.append(&mut length);
    out.extend_from_slice(content);
    out
}

/// Reads the frame of `identifier` at `pos` and gives its content.
///
/// Anything but the identifier at `pos` is `HeaderDecodeMismatchIdentifier`; a
/// total length under twelve is `MalformedHeader`; a frame that ends behind
/// the data is `MalformedInput`.
pub fn decode_frame(data: &[u8], pos: usize, identifier: u32) -> (res: Result<
    (Vec<u8>, usize),
    ZffError,
>)
    ensures
        agrees(res, spec_decode_frame(data@, pos as int, identifier)),
{
    if !key_at(data, pos, identifier) {
        return Err(ZffError::of_kind(ZffErrorKind::HeaderDecodeMismatchIdentifier));
    }
    let (total, start) = match decode_u64(data, pos + 4) {
        Ok(found) => found,
        Err(e) => { return Err(e); },
    };
    if total < FRAME_PREFIX_LENGTH {
        return Err(ZffError::of_kind(ZffErrorKind::MalformedHeader));
    }
    let length: u64 = total - FRAME_PREFIX_LENGTH;
    if length > (data.len() - start) as u64 {
        return Err(malformed_input());
    }
    decode_fixed(data, start, length as usize)
}

/// What decoding the content of a frame returned agrees with what the
/// format says: the same record, or an error of the same kind.
pub open spec fn content_agrees<T: View>(
    res: Result<T, ZffError>,
    expected: Result<T::V, ZffErrorKind>,
) -> bool {
    match expected {
        Ok(value) => res matches Ok(v) && v@ == value,
        Err(kind) => res matches Err(e) && e.kind == kind,
    }
}

/// A record that is coded as a frame: it has a magic identifier and a
/// version, and its content encodes to bytes and decodes from them.
pub trait HeaderCoding: Sized + View {
    /// The magic identifier of the record.
    spec fn spec_identifier() -> u32;

    /// The version of a record.
    spec fn spec_version(value: Self::V) -> u8;

    /// The content of the frame of a record.
    spec fn spec_encode_header(value: Self::V) -> Seq<u8>;

    /// The record that the content of a frame spells.
    spec fn spec_decode_content(data: Seq<u8>) -> Result<Self::V, ZffErrorKind>;

    /// The record that is framed at `pos`, and where its frame ends.
    spec fn spec_decode_directly(data: Seq<u8>, pos: int) -> Result<(Self::V, int), ZffErrorKind>;

    /// The magic identifier of the record.
    fn identifier() -> (id: u32)
        ensures
            id == Self::spec_identifier(),
    ;

    /// The version of the record.
    fn version(&self) -> (version: u8)
        ensures
            version == Self::spec_version(self@),
    ;

    /// The content of the record's frame.
    fn encode_header(&self) -> (out: Vec<u8>)
        ensures
            out@ == Self::spec_encode_header(self@),
    ;

    /// The framed record: identifier, total length, content.
    fn encode_directly(&self) -> (out: Vec<u8>)
        ensures
            out@ == spec_frame(Self::spec_identifier(), Self::spec_encode_header(self@)),
    ;

    /// Decodes the content of a frame of the record.
    fn decode_content(data: Vec<u8>) -> (res: Result<Self, ZffError>)
        ensures
            content_agrees(res, Self::spec_decode_content(data@)),
    ;

    /// Decodes the record framed at `pos` of `data`, and gives the position
    /// behind its frame.
    fn decode_at(data: &[u8], pos: usize) -> (res: Result<(Self, usize), ZffError>)
        ensures
            agrees(res, Self::spec_decode_directly(data@, pos as int)),
    ;

    /// Reads the framed record at the cursor of `reader` and moves the
    /// cursor behind it. On failure the cursor stays.
    fn decode_directly(reader: &mut Reader) -> (res: Result<Self, ZffError>)
        ensures
            reads(
                *old(reader),
                *final(reader),
                res,
                Self::spec_decode_directly(old(reader).data@, old(reader).position as int),
            ),
    ;
}

} // verus!
