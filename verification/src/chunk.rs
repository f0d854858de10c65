//! Chunk records: a chunk header followed by the payload that it describes.

use std::io::{Cursor, Read};
use vstd::prelude::*;
use crate::codec::{fits, lemma_stands_at_split, stands_at};
use crate::compression::{
    compress_buffer, spec_compress, CompressionAlgorithm,
};
use crate::encryption::{spec_aead_encrypt, spec_chunk_nonce, Encryption, EncryptionAlgorithm};
use crate::framing::HeaderCoding;
use crate::error::{ZffError, ZffErrorKind};
use crate::header::chunk_header::{
    lemma_chunk_header_roundtrip, spec_chunk_header_bytes, spec_decode_chunk_header,
    ChunkHeader, ChunkHeaderView,
};

verus! {

/// The CRC32 checksum of a byte string.
pub uninterp spec fn spec_crc32(buffer: Seq<u8>) -> u32;

/// `crc32fast::hash`: the CRC32 checksum of a buffer. The result is fixed
/// by the buffer.
#[verifier::external_body]
fn crc32fast_hash(buffer: &[u8]) -> (sum: u32)
    ensures
        sum == spec_crc32(buffer@),
{
    crc32fast::hash(buffer)
}

/// `slice::IoSlice` over a cursor on `data`, read to its end: the `length`
/// bytes of `data` from `begin`. The range has to lie within `data`.
#[verifier::external_body]
fn io_slice_read(data: &[u8], begin: u64, length: u64) -> (res: Option<Vec<u8>>)
    requires
        begin + length <= data@.len(),
    ensures
        res is Some,
        res->Some_0@ == data@.subrange(begin as int, begin + length),
{
    let mut window = slice::IoSlice::new(Cursor::new(data), begin, length).ok()?;
    let mut bytes = Vec::new();
    window.read_to_end(&mut bytes).ok()?;
    Some(bytes)
}

/// The CRC32 checksum of a buffer.
pub fn crc32(buffer: &[u8]) -> (sum: u32)
    ensures
        sum == spec_crc32(buffer@),
{
    crc32fast_hash(buffer)
}

/// Whether the CRC32 of a chunk header is that of the given data: the
/// data of the chunk as it was before compression and encryption.
pub fn matches_crc32(header: &ChunkHeader, data: &[u8]) -> (matches: bool)
    ensures
        matches == (header@.crc32 == spec_crc32(data@)),
{
    header.crc32() == crc32(data)
}

/// A chunk record: the framed header, then the payload.
pub open spec fn spec_chunk_record(header: ChunkHeaderView, payload: Seq<u8>) -> Seq<u8> {
    spec_chunk_header_bytes(header) + payload
}

/// The chunk record at `offset`: the header framed there, and behind it
/// exactly as many bytes of payload as the header says. A payload that
/// ends behind the data is an error of the kind `Io`.
pub open spec fn spec_decode_chunk_record(data: Seq<u8>, offset: int) -> Result<
    (ChunkHeaderView, Seq<u8>, int),
    ZffErrorKind,
> {
    match spec_decode_chunk_header(data, offset) {
        Ok((header, start)) => if fits(data, start, header.chunk_size as int) {
            Ok(
                (
                    header,
                    data.subrange(start, start + header.chunk_size),
                    start + header.chunk_size,
                ),
            )
        } else {
            Err(ZffErrorKind::Io)
        },
        Err(kind) => Err(kind),
    }
}

/// A chunk record that stands at `offset` is read back: its header and its
/// payload.
pub proof fn lemma_chunk_record_roundtrip(
    data: Seq<u8>,
    offset: int,
    header: ChunkHeaderView,
    payload: Seq<u8>,
)
    requires
        header.wf(),
        header.chunk_size == payload.len(),
        stands_at(data, offset, spec_chunk_record(header, payload)),
    ensures
        spec_decode_chunk_record(data, offset) == Ok::<_, ZffErrorKind>(
            (header, payload, offset + spec_chunk_record(header, payload).len()),
        ),
{
    lemma_stands_at_split(data, offset, spec_chunk_header_bytes(header), payload);
    lemma_chunk_header_roundtrip(data, offset, header);
}

/// The header of the chunk record that is built for `data`: the CRC32 is
/// that of `data` as it is given, before compression and encryption; the
/// size is that of the payload as it is stored.
pub open spec fn spec_chunk_header_for(
    version: u8,
    chunk_number: u64,
    data: Seq<u8>,
    stored: Seq<u8>,
    compression_algorithm: CompressionAlgorithm,
) -> ChunkHeaderView {
    ChunkHeaderView {
        version,
        chunk_number,
        chunk_size: stored.len() as u64,
        crc32: spec_crc32(data),
        error_flag: false,
        compression_flag: compression_algorithm != CompressionAlgorithm::Uncompressed,
        signature: None,
    }
}

/// Reads the chunk record at `offset` of `data`: the header, the payload as
/// it is stored, and the position behind the payload.
pub fn decode_chunk_record(data: &[u8], offset: usize) -> (res: Result<
    (ChunkHeader, Vec<u8>, usize),
    ZffError,
>)
    ensures
        match spec_decode_chunk_record(data@, offset as int) {
            Ok((header, payload, end)) => res matches Ok((h, p, e)) && h@ == header && p@
                == payload && e == end,
            Err(kind) => res matches Err(e) && e.kind == kind,
        },
{
    let (chunk_header, start) = ChunkHeader::decode_at(data, offset)?;
    let chunk_size: u64 = *chunk_header.chunk_size();
    if chunk_size > (data.len() - start) as u64 {
        return Err(ZffError::of_kind(ZffErrorKind::Io));
    }
    match io_slice_read(data, start as u64, chunk_size) {
        Some(payload) => Ok((chunk_header, payload, start + chunk_size as usize)),
        None => Err(ZffError::of_kind(ZffErrorKind::Io)),
    }
}

/// Builds the record of a chunk: the data is compressed, and the compressed
/// payload is framed with a chunk header. The header carries the CRC32 of the
/// data as it was given, and the size of the payload as it is stored.
pub fn encode_chunk(
    version: u8,
    chunk_number: u64,
    data: &[u8],
    compression_algorithm: &CompressionAlgorithm,
    level: u8,
) -> (res: Result<Vec<u8>, ZffError>)
    ensures
        match spec_compress(data@, *compression_algorithm, level) {
            Some(stored) => res matches Ok(record) && record@ == spec_chunk_record(
                spec_chunk_header_for(version, chunk_number, data@, stored, *compression_algorithm),
                stored,
            ),
            None => res matches Err(e) && e.kind == ZffErrorKind::Io,
        },
{
    let checksum = crc32(data);
    let mut stored = compress_buffer(data, compression_algorithm, level)?;
    let mut header = ChunkHeader::new_empty(version, chunk_number);
    header.set_crc32(checksum);
    header.set_chunk_size(stored.len() as u64);
    match compression_algorithm {
        CompressionAlgorithm::Uncompressed => {},
        _ => { header.set_compression_flag(); },
    }
    let mut record = header.encode_directly();
    record.append(&mut stored);
    Ok(record)
}

/// What compression and then encryption under the nonce of the chunk give
/// for the data of a chunk.
pub open spec fn spec_seal_chunk(
    data: Seq<u8>,
    chunk_number: u64,
    compression_algorithm: CompressionAlgorithm,
    level: u8,
    key: Seq<u8>,
    encryption_algorithm: EncryptionAlgorithm,
) -> Result<Seq<u8>, ZffErrorKind> {
    match spec_compress(data, compression_algorithm, level) {
        Some(compressed) => match spec_aead_encrypt(
            encryption_algorithm,
            key,
            spec_chunk_nonce(chunk_number),
            compressed,
        ) {
            Some(sealed) => Ok(sealed),
            None => Err(ZffErrorKind::EncryptionFailed),
        },
        None => Err(ZffErrorKind::Io),
    }
}

/// Builds the record of an encrypted chunk: the data is compressed, the
/// compressed payload is encrypted under the nonce of the chunk number, and
/// the ciphertext is framed with a chunk header. The header carries the
/// CRC32 of the data as it was given, and the size of the ciphertext.
pub fn encode_encrypted_chunk(
    version: u8,
    chunk_number: u64,
    data: &[u8],
    compression_algorithm: &CompressionAlgorithm,
    level: u8,
    key: &[u8],
    encryption_algorithm: &EncryptionAlgorithm,
) -> (res: Result<Vec<u8>, ZffError>)
    ensures
        match spec_seal_chunk(
            data@,
            chunk_number,
            *compression_algorithm,
            level,
            key@,
            *encryption_algorithm,
        ) {
            Ok(stored) => res matches Ok(record) && record@ == spec_chunk_record(
                spec_chunk_header_for(version, chunk_number, data@, stored, *compression_algorithm),
                stored,
            ),
            Err(kind) => res matches Err(e) && e.kind == kind,
        },
{
    let checksum = crc32(data);
    let compressed = compress_buffer(data, compression_algorithm, level)?;
    let mut stored = Encryption::encrypt_message(
        key,
        compressed.as_slice(),
        chunk_number,
        encryption_algorithm,
    )?;
    let mut header = ChunkHeader::new_empty(version, chunk_number);
    header.set_crc32(checksum);
    header.set_chunk_size(stored.len() as u64);
    match compression_algorithm {
        CompressionAlgorithm::Uncompressed => {},
        _ => { header.set_compression_flag(); },
    }
    let mut record = header.encode_directly();
    record.append(&mut stored);
    Ok(record)
}

} // verus!
