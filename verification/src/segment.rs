//! The segment engine: opens a segment, indexes its chunks by number, and
//! serves the payload of any chunk of the segment.

use std::collections::HashMap;
use vstd::prelude::*;
use crate::chunk::{
    decode_chunk_record, lemma_chunk_record_roundtrip, spec_chunk_header_for, spec_chunk_record,
    spec_crc32, spec_decode_chunk_record,
};
use crate::codec::stands_at;
use crate::compression::{
    decompress_buffer, spec_compress, spec_decompress, CompressionAlgorithm,
};
use crate::encryption::{
    spec_aead_decrypt, spec_aead_encrypt, spec_chunk_nonce, Encryption, EncryptionAlgorithm,
};
use crate::framing::HeaderCoding;
use crate::error::{spec_decimal, ZffError, ZffErrorKind};
use crate::footer::segment_footer::{spec_decode_segment_footer, SegmentFooter};
use crate::header::chunk_header::{spec_decode_chunk_header, ChunkHeader};
use crate::header::segment_header::{
    spec_decode_segment_header, SegmentHeader, SegmentHeaderView,
};
use crate::reader::{index_of, Reader};

verus! {

broadcast use vstd::std_specs::hash::group_hash_axioms;

/// A segment of an image: its header, its bytes with a cursor, and the map
/// from the number of each chunk of the segment to the position of that
/// chunk's header.
#[derive(Debug)]
pub struct Segment {
    header: SegmentHeader,
    data: Reader,
    chunk_offsets: HashMap<u64, u64>,
}

/// What a segment holds.
pub struct SegmentView {
    pub header: SegmentHeaderView,
    pub data: Seq<u8>,
    pub position: u64,
    pub chunk_offsets: Map<u64, u64>,
}

impl View for Segment {
    type V = SegmentView;

    closed spec fn view(&self) -> SegmentView {
        SegmentView {
            header: self.header@,
            data: self.data.data@,
            position: self.data.position,
            chunk_offsets: self.chunk_offsets@,
        }
    }
}

/// The index of a segment: the `i`-th offset of the footer's table belongs
/// to the chunk of the number `initial + i`.
pub open spec fn spec_chunk_index(initial: u64, offsets: Seq<u64>) -> Map<u64, u64> {
    Map::new(
        |number: u64| initial <= number < initial + offsets.len(),
        |number: u64| offsets[number - initial],
    )
}

/// The segment that opening the bytes `data` at `pos` gives.
///
/// The segment header is read at `pos`, the header of the first chunk right
/// behind it, and the footer at the offset that the segment header names.
/// The chunks are numbered from the number of the first chunk on; a table
/// that would number a chunk above the largest number is `MalformedHeader`.
/// The cursor of the segment stands behind the segment header.
pub open spec fn spec_open_segment(data: Seq<u8>, pos: int) -> Result<SegmentView, ZffErrorKind> {
    match spec_decode_segment_header(data, pos) {
        Ok((header, behind)) => match spec_decode_chunk_header(data, behind) {
            Ok((first, _)) => match spec_decode_segment_footer(data, header.footer_offset as int) {
                Ok((footer, _)) => if first.chunk_number + footer.chunk_offsets.len() > u64::MAX {
                    Err(ZffErrorKind::MalformedHeader)
                } else {
                    Ok(
                        SegmentView {
                            header,
                            data,
                            position: behind as u64,
                            chunk_offsets: spec_chunk_index(
                                first.chunk_number,
                                footer.chunk_offsets,
                            ),
                        },
                    )
                },
                Err(kind) => Err(kind),
            },
            Err(kind) => Err(kind),
        },
        Err(kind) => Err(kind),
    }
}

/// The payload of a chunk as it is stored in the segment, and where it
/// ends. A number that the segment does not hold is
/// `DataDecodeChunkNumberNotInSegment`.
pub open spec fn spec_stored_chunk(segment: SegmentView, chunk_number: u64) -> Result<
    (Seq<u8>, int),
    ZffErrorKind,
> {
    if !segment.chunk_offsets.contains_key(chunk_number) {
        Err(ZffErrorKind::DataDecodeChunkNumberNotInSegment)
    } else {
        match spec_decode_chunk_record(segment.data, segment.chunk_offsets[chunk_number] as int) {
            Ok((_, payload, end)) => Ok((payload, end)),
            Err(kind) => Err(kind),
        }
    }
}

/// What a compression codec gave, or `Io` where it gave nothing.
pub open spec fn spec_decompressed(outcome: Option<Seq<u8>>) -> Result<Seq<u8>, ZffErrorKind> {
    match outcome {
        Some(bytes) => Ok(bytes),
        None => Err(ZffErrorKind::Io),
    }
}

/// The data of a chunk: its stored payload, decompressed.
pub open spec fn spec_chunk_data(
    segment: SegmentView,
    chunk_number: u64,
    algorithm: CompressionAlgorithm,
) -> Result<(Seq<u8>, int), ZffErrorKind> {
    match spec_stored_chunk(segment, chunk_number) {
        Ok((payload, end)) => match spec_decompressed(spec_decompress(payload, algorithm)) {
            Ok(bytes) => Ok((bytes, end)),
            Err(kind) => Err(kind),
        },
        Err(kind) => Err(kind),
    }
}

/// The data of an encrypted chunk: its stored payload, decrypted under the
/// nonce of its number and then decompressed. A payload that does not open
/// is `DecryptionFailed`.
pub open spec fn spec_chunk_data_decrypted(
    segment: SegmentView,
    chunk_number: u64,
    algorithm: CompressionAlgorithm,
    key: Seq<u8>,
    encryption_algorithm: EncryptionAlgorithm,
) -> Result<(Seq<u8>, int), ZffErrorKind> {
    match spec_stored_chunk(segment, chunk_number) {
        Ok((payload, end)) => match spec_aead_decrypt(
            encryption_algorithm,
            key,
            spec_chunk_nonce(chunk_number),
            payload,
        ) {
            Some(opened) => match spec_decompressed(spec_decompress(opened, algorithm)) {
                Ok(bytes) => Ok((bytes, end)),
                Err(kind) => Err(kind),
            },
            None => Err(ZffErrorKind::DecryptionFailed),
        },
        Err(kind) => Err(kind),
    }
}

/// What a call that reads a chunk did to a segment: on success the data is
/// returned and the cursor stands behind the payload; on failure the
/// cursor stays. Header, bytes and index stay as they are either way.
pub open spec fn serves(
    before: SegmentView,
    after: SegmentView,
    res: Result<Vec<u8>, ZffError>,
    expected: Result<(Seq<u8>, int), ZffErrorKind>,
) -> bool {
    match expected {
        Ok((bytes, end)) => {
            &&& res matches Ok(v)
            &&& v@ == bytes
            &&& after == (SegmentView { position: end as u64, ..before })
        },
        Err(kind) => {
            &&& res matches Err(e)
            &&& e.kind == kind
            &&& after == before
        },
    }
}

/// The stream from which a segment is opened is valid: it opens, and the
/// chunk record of every number of the index stands at the offset that the
/// index gives for it and carries that number.
pub open spec fn spec_valid_segment_stream(data: Seq<u8>, pos: int) -> bool {
    spec_open_segment(data, pos) matches Ok(segment) && forall|number: u64| #[trigger]
        segment.chunk_offsets.contains_key(number) ==> (spec_decode_chunk_record(
            data,
            segment.chunk_offsets[number] as int,
        ) matches Ok((header, _, _)) && header.chunk_number == number)
}

/// The index of a segment has one entry for each offset of the footer's
/// table, and the entry of the number `initial + i` is the `i`-th offset.
pub proof fn lemma_chunk_index(initial: u64, offsets: Seq<u64>)
    requires
        initial + offsets.len() <= u64::MAX,
    ensures
        spec_chunk_index(initial, offsets).dom().finite(),
        spec_chunk_index(initial, offsets).dom().len() == offsets.len(),
        forall|i: int|
            0 <= i < offsets.len() ==> spec_chunk_index(initial, offsets).contains_key(
                #[trigger] ((initial + i) as u64),
            ) && spec_chunk_index(initial, offsets)[(initial + i) as u64] == offsets[i],
    decreases offsets.len(),
{
    let index = spec_chunk_index(initial, offsets);
    if offsets.len() == 0 {
        assert(index.dom() =~= Set::<u64>::empty());
    } else {
        let shorter = offsets.drop_last();
        let last = (initial + offsets.len() - 1) as u64;
        lemma_chunk_index(initial, shorter);
        assert(index.dom() =~= spec_chunk_index(initial, shorter).dom().insert(last));
    }
}

/// In a segment that was opened from a valid stream, the index has as many
/// entries as the footer's table has offsets, and the chunk header that is
/// decoded at the offset of the number `initial + i` carries that number.
pub proof fn lemma_valid_segment_index(data: Seq<u8>, pos: int, i: int)
    requires
        spec_valid_segment_stream(data, pos),
    ensures
        ({
            let segment = spec_open_segment(data, pos)->Ok_0;
            let header = spec_decode_segment_header(data, pos)->Ok_0.0;
            let behind = spec_decode_segment_header(data, pos)->Ok_0.1;
            let initial = spec_decode_chunk_header(data, behind)->Ok_0.0.chunk_number;
            let offsets = spec_decode_segment_footer(
                data,
                header.footer_offset as int,
            )->Ok_0.0.chunk_offsets;
            &&& segment.chunk_offsets.dom().finite()
            &&& segment.chunk_offsets.dom().len() == offsets.len()
            &&& 0 <= i < offsets.len() ==> {
                &&& segment.chunk_offsets.contains_key((initial + i) as u64)
                &&& segment.chunk_offsets[(initial + i) as u64] == offsets[i]
                &&& spec_decode_chunk_header(data, offsets[i] as int) matches Ok((found, _))
                &&& found.chunk_number == initial + i
            }
        }),
{
    let segment = spec_open_segment(data, pos)->Ok_0;
    let header = spec_decode_segment_header(data, pos)->Ok_0.0;
    let behind = spec_decode_segment_header(data, pos)->Ok_0.1;
    let initial = spec_decode_chunk_header(data, behind)->Ok_0.0.chunk_number;
    let offsets = spec_decode_segment_footer(data, header.footer_offset as int)->Ok_0.0.chunk_offsets;
    lemma_chunk_index(initial, offsets);
    if 0 <= i < offsets.len() {
        let number = (initial + i) as u64;
        assert(segment.chunk_offsets.contains_key(number));
    }
}

/// Where the record that is built for the data of a chunk stands at the
/// offset of the chunk's number, and the codec decompresses what it
/// compressed to the data again, the segment serves that data for the
/// number, and the CRC32 in the chunk's header is that of the data.
pub proof fn lemma_chunk_data_of_encoded_chunk(
    segment: SegmentView,
    version: u8,
    chunk_number: u64,
    payload: Seq<u8>,
    stored: Seq<u8>,
    algorithm: CompressionAlgorithm,
    level: u8,
)
    requires
        segment.chunk_offsets.contains_key(chunk_number),
        spec_compress(payload, algorithm, level) == Some(stored),
        spec_decompress(stored, algorithm) == Some(payload),
        stored.len() <= u64::MAX,
        stands_at(
            segment.data,
            segment.chunk_offsets[chunk_number] as int,
            spec_chunk_record(
                spec_chunk_header_for(version, chunk_number, payload, stored, algorithm),
                stored,
            ),
        ),
    ensures
        spec_chunk_data(segment, chunk_number, algorithm) matches Ok((data, _)) && data == payload,
        spec_decode_chunk_record(
            segment.data,
            segment.chunk_offsets[chunk_number] as int,
        ) matches Ok((header, _, _)) && header.chunk_number == chunk_number && header.crc32
            == spec_crc32(payload),
{
    let header = spec_chunk_header_for(version, chunk_number, payload, stored, algorithm);
    lemma_chunk_record_roundtrip(
        segment.data,
        segment.chunk_offsets[chunk_number] as int,
        header,
        stored,
    );
}

/// Where the record that is built for the data of an encrypted chunk stands
/// at the offset of the chunk's number, the cipher opens under the nonce of
/// that number what it sealed under it, and the codec decompresses what it
/// compressed to the data again, the segment serves that data for the
/// number: it decrypts first and decompresses then.
pub proof fn lemma_chunk_data_of_encrypted_chunk(
    segment: SegmentView,
    version: u8,
    chunk_number: u64,
    payload: Seq<u8>,
    compressed: Seq<u8>,
    stored: Seq<u8>,
    algorithm: CompressionAlgorithm,
    level: u8,
    key: Seq<u8>,
    encryption_algorithm: EncryptionAlgorithm,
)
    requires
        segment.chunk_offsets.contains_key(chunk_number),
        spec_compress(payload, algorithm, level) == Some(compressed),
        spec_aead_encrypt(
            encryption_algorithm,
            key,
            spec_chunk_nonce(chunk_number),
            compressed,
        ) == Some(stored),
        spec_aead_decrypt(encryption_algorithm, key, spec_chunk_nonce(chunk_number), stored)
            == Some(compressed),
        spec_decompress(compressed, algorithm) == Some(payload),
        stored.len() <= u64::MAX,
        stands_at(
            segment.data,
            segment.chunk_offsets[chunk_number] as int,
            spec_chunk_record(
                spec_chunk_header_for(version, chunk_number, payload, stored, algorithm),
                stored,
            ),
        ),
    ensures
        spec_chunk_data_decrypted(
            segment,
            chunk_number,
            algorithm,
            key,
            encryption_algorithm,
        ) matches Ok((data, _)) && data == payload,
        spec_decode_chunk_record(
            segment.data,
            segment.chunk_offsets[chunk_number] as int,
        ) matches Ok((header, _, _)) && header.chunk_number == chunk_number && header.crc32
            == spec_crc32(payload),
{
    let header = spec_chunk_header_for(version, chunk_number, payload, stored, algorithm);
    lemma_chunk_record_roundtrip(
        segment.data,
        segment.chunk_offsets[chunk_number] as int,
        header,
        stored,
    );
}

impl Segment {
    /// A segment of the given parts.
    fn new(header: SegmentHeader, data: Reader, chunk_offsets: HashMap<u64, u64>) -> (segment:
        Segment)
        ensures
            segment@ == (SegmentView {
                header: header@,
                data: data.data@,
                position: data.position,
                chunk_offsets: chunk_offsets@,
            }),
    {
        Self { header, data, chunk_offsets }
    }

    /// Opens a segment from a reader that stands at the segment header.
    ///
    /// The first segment of an image begins with the main header; the
    /// reader is expected behind it. The footer is found through the offset
    /// in the segment header, and the chunks are numbered from the number of
    /// the first chunk, whose header follows the segment header.
    pub fn new_from_reader(data: Reader) -> (res: Result<Segment, ZffError>)
        ensures
            match spec_open_segment(data.data@, data.position as int) {
                Ok(segment) => res matches Ok(opened) && opened@ == segment,
                Err(kind) => res matches Err(e) && e.kind == kind,
            },
    {
        let mut data = data;
        let stream_position = data.stream_position();
        let segment_header = SegmentHeader::decode_directly(&mut data)?;
        let behind_header = data.stream_position();
        let footer_offset = segment_header.footer_offset();
        let initial_chunk_header = ChunkHeader::decode_directly(&mut data)?;
        let initial_chunk_number = initial_chunk_header.chunk_number();
        data.seek(footer_offset);
        let segment_footer = SegmentFooter::decode_directly(&mut data)?;
        let offsets = segment_footer.chunk_offsets();
        let count = offsets.len();
        if count as u64 > u64::MAX - initial_chunk_number {
            return Err(ZffError::of_kind(ZffErrorKind::MalformedHeader));
        }
        let mut chunk_offsets: HashMap<u64, u64> = HashMap::new();
        let mut chunk_number = initial_chunk_number;
        let mut i: usize = 0;
        while i < count
            invariant
                i <= count,
                count == offsets@.len(),
                initial_chunk_number + count <= u64::MAX,
                chunk_number == initial_chunk_number + i,
                chunk_offsets@ == spec_chunk_index(initial_chunk_number, offsets@.take(i as int)),
            decreases count - i,
        {
            chunk_offsets.insert(chunk_number, offsets[i]);
            proof {
                assert(chunk_offsets@ =~= spec_chunk_index(
                    initial_chunk_number,
                    offsets@.take(i + 1),
                ));
            }
            chunk_number += 1;
            i += 1;
        }
        proof {
            assert(offsets@.take(i as int) =~= offsets@);
        }
        data.seek(stream_position);
        let _ = SegmentHeader::decode_directly(&mut data)?;
        Ok(Self::new(segment_header, data, chunk_offsets))
    }

    /// The position of the header of the chunk of the given number. A
    /// number that the segment does not hold is
    /// `DataDecodeChunkNumberNotInSegment`, with the number as the detail.
    fn chunk_offset(&self, chunk_number: u64) -> (res: Result<u64, ZffError>)
        ensures
            match res {
                Ok(offset) => self@.chunk_offsets.contains_key(chunk_number)
                    && self@.chunk_offsets[chunk_number] == offset,
                Err(e) => !self@.chunk_offsets.contains_key(chunk_number) && e.kind
                    == ZffErrorKind::DataDecodeChunkNumberNotInSegment
                    && e.details@ == spec_decimal(chunk_number as nat),
            },
    {
        match self.chunk_offsets.get(&chunk_number) {
            Some(offset) => Ok(*offset),
            None => Err(
                ZffError::with_number(
                    ZffErrorKind::DataDecodeChunkNumberNotInSegment,
                    chunk_number,
                ),
            ),
        }
    }

    /// The payload of the chunk of the given number as it is stored, and the
    /// position behind it.
    fn stored_chunk(&self, chunk_number: u64) -> (res: Result<(Vec<u8>, usize), ZffError>)
        ensures
            match spec_stored_chunk(self@, chunk_number) {
                Ok((payload, end)) => res matches Ok((v, e)) && v@ == payload && e == end,
                Err(kind) => res matches Err(e) && e.kind == kind,
            },
            !self@.chunk_offsets.contains_key(chunk_number) ==> (res matches Err(e)
                && e.details@ == spec_decimal(chunk_number as nat)),
    {
        let chunk_offset = self.chunk_offset(chunk_number)?;
        let bytes = self.data.data.as_slice();
        let offset = index_of(bytes, chunk_offset);
        let (_, payload, end) = decode_chunk_record(bytes, offset)?;
        Ok((payload, end))
    }

    /// The data of the chunk of the given number: its payload, decompressed
    /// under the algorithm that the main header of the image names.
    ///
    /// A number that the segment does not hold is
    /// `DataDecodeChunkNumberNotInSegment`, with the number as the detail; a
    /// payload that ends behind the segment or does not decompress is `Io`.
    pub fn chunk_data(&mut self, chunk_number: u64, compression_algorithm: &CompressionAlgorithm) -> (res:
        Result<Vec<u8>, ZffError>)
        ensures
            serves(
                old(self)@,
                final(self)@,
                res,
                spec_chunk_data(old(self)@, chunk_number, *compression_algorithm),
            ),
            !old(self)@.chunk_offsets.contains_key(chunk_number) ==> (res matches Err(e)
                && e.details@ == spec_decimal(chunk_number as nat)),
    {
        let (payload, end) = self.stored_chunk(chunk_number)?;
        let buffer = decompress_buffer(payload.as_slice(), compression_algorithm)?;
        self.data.seek(end as u64);
        Ok(buffer)
    }

    /// The data of the encrypted chunk of the given number: its payload,
    /// decrypted under the given key and the nonce of the chunk number, and
    /// then decompressed.
    ///
    /// The errors are those of `chunk_data`, and `DecryptionFailed` for a
    /// payload that does not open.
    pub fn chunk_data_decrypted(
        &mut self,
        chunk_number: u64,
        compression_algorithm: &CompressionAlgorithm,
        decryption_key: &[u8],
        encryption_algorithm: &EncryptionAlgorithm,
    ) -> (res: Result<Vec<u8>, ZffError>)
        ensures
            serves(
                old(self)@,
                final(self)@,
                res,
                spec_chunk_data_decrypted(
                    old(self)@,
                    chunk_number,
                    *compression_algorithm,
                    decryption_key@,
                    *encryption_algorithm,
                ),
            ),
            !old(self)@.chunk_offsets.contains_key(chunk_number) ==> (res matches Err(e)
                && e.details@ == spec_decimal(chunk_number as nat)),
    {
        let (payload, end) = self.stored_chunk(chunk_number)?;
        let decrypted_chunk_data = Encryption::decrypt_message(
            decryption_key,
            payload.as_slice(),
            chunk_number,
            encryption_algorithm,
        )?;
        let buffer = decompress_buffer(decrypted_chunk_data.as_slice(), compression_algorithm)?;
        self.data.seek(end as u64);
        Ok(buffer)
    }

    /// The header of the segment.
    pub fn header(&self) -> (header: &SegmentHeader)
        ensures
            header@ == self@.header,
    {
        &self.header
    }

    /// The map from chunk numbers to the positions of the chunk headers.
    pub fn chunk_offsets(&self) -> (offsets: &HashMap<u64, u64>)
        ensures
            offsets@ == self@.chunk_offsets,
    {
        &self.chunk_offsets
    }

    /// The underlying reader.
    pub fn data(&self) -> (data: &Reader)
        ensures
            data.data@ == self@.data,
            data.position == self@.position,
    {
        &self.data
    }
}

} // verus!
