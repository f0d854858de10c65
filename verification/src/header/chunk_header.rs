//! The header that precedes the payload of every chunk.

use vstd::prelude::*;
use crate::codec::{
    agrees, decode_array, decode_u32, decode_u64, decode_u8, encode_u32, encode_u64, fits,
    lemma_decode_u32, lemma_decode_u64, lemma_decode_u8, lemma_stands_at_self,
    lemma_stands_at_split, spec_decode_fixed, spec_decode_u32, spec_decode_u64, spec_encode_u32,
    spec_encode_u64, spec_encode_u8, stands_at,
};
use crate::constants::{
    COMPRESSION_FLAG_VALUE, ERROR_FLAG_VALUE, HEADER_IDENTIFIER_CHUNK_HEADER,
};
use crate::error::{ZffError, ZffErrorKind};
use crate::framing::HeaderCoding;
use crate::framing::{decode_frame, encode_frame, lemma_decode_frame, spec_decode_frame, spec_frame};
use crate::reader::{reads, Reader};

verus! {

/// Header for chunk data. Each chunk of data has its own header; the payload
/// follows the header.
#[derive(Debug, Clone, PartialEq, Eq)]
pub struct ChunkHeader {
    version: u8,
    chunk_number: u64,
    chunk_size: u64,
    crc32: u32,
    error_flag: bool,
    compression_flag: bool,
    ed25519_signature: Option<[u8; 64]>,
}

/// What a chunk header says.
pub struct ChunkHeaderView {
    pub version: u8,
    pub chunk_number: u64,
    pub chunk_size: u64,
    pub crc32: u32,
    pub error_flag: bool,
    pub compression_flag: bool,
    pub signature: Option<Seq<u8>>,
}

impl ChunkHeaderView {
    /// A signature, where there is one, has 64 bytes.
    pub open spec fn wf(self) -> bool {
        self.signature matches Some(s) ==> s.len() == 64
    }
}

impl View for ChunkHeader {
    type V = ChunkHeaderView;

    closed spec fn view(&self) -> ChunkHeaderView {
        ChunkHeaderView {
            version: self.version,
            chunk_number: self.chunk_number,
            chunk_size: self.chunk_size,
            crc32: self.crc32,
            error_flag: self.error_flag,
            compression_flag: self.compression_flag,
            signature: match self.ed25519_signature {
                Some(signature) => Some(signature@),
                None => None,
            },
        }
    }
}

/// The view of an optional signature.
pub open spec fn spec_signature_view(signature: Option<[u8; 64]>) -> Option<Seq<u8>> {
    match signature {
        Some(s) => Some(s@),
        None => None,
    }
}

/// The flag byte: bit 0 is the error flag, bit 1 the compression flag.
pub open spec fn spec_chunk_flags(error_flag: bool, compression_flag: bool) -> u8 {
    if error_flag {
        if compression_flag {
            3
        } else {
            1
        }
    } else {
        if compression_flag {
            2
        } else {
            0
        }
    }
}

/// The bytes of an optional signature: its 64 bytes, or nothing.
pub open spec fn spec_encode_signature(signature: Option<Seq<u8>>) -> Seq<u8> {
    match signature {
        Some(s) => s,
        None => Seq::empty(),
    }
}

/// The content of a chunk header's frame: version, chunk number, chunk size,
/// CRC32, flag byte and, where there is one, the signature.
pub open spec fn spec_chunk_header_content(h: ChunkHeaderView) -> Seq<u8> {
    spec_encode_u8(h.version) + spec_encode_u64(h.chunk_number) + spec_encode_u64(h.chunk_size)
        + spec_encode_u32(h.crc32) + spec_encode_u8(
        spec_chunk_flags(h.error_flag, h.compression_flag),
    ) + spec_encode_signature(h.signature)
}

/// The framed chunk header.
pub open spec fn spec_chunk_header_bytes(h: ChunkHeaderView) -> Seq<u8> {
    spec_frame(HEADER_IDENTIFIER_CHUNK_HEADER, spec_chunk_header_content(h))
}

/// The signature behind the flag byte at `pos`: there is one exactly if more
/// than one byte is left.
pub open spec fn spec_decode_signature(data: Seq<u8>, pos: int) -> Result<
    Option<Seq<u8>>,
    ZffErrorKind,
> {
    if data.len() - pos > 1 {
        match spec_decode_fixed(data, pos, 64) {
            Ok((signature, _)) => Ok(Some(signature)),
            Err(kind) => Err(kind),
        }
    } else {
        Ok(None)
    }
}

/// The chunk header that the content of a frame spells.
pub open spec fn spec_decode_chunk_header_content(data: Seq<u8>) -> Result<
    ChunkHeaderView,
    ZffErrorKind,
> {
    if !fits(data, 0, 22) {
        Err(ZffErrorKind::MalformedInput)
    } else {
        let flags = data[21];
        match spec_decode_signature(data, 22) {
            Ok(signature) => Ok(
                ChunkHeaderView {
                    version: data[0],
                    chunk_number: spec_decode_u64(data, 1)->Ok_0.0,
                    chunk_size: spec_decode_u64(data, 9)->Ok_0.0,
                    crc32: spec_decode_u32(data, 17)->Ok_0.0,
                    error_flag: flags & ERROR_FLAG_VALUE != 0,
                    compression_flag: flags & COMPRESSION_FLAG_VALUE != 0,
                    signature,
                },
            ),
            Err(kind) => Err(kind),
        }
    }
}

/// The chunk header framed at `pos`, and where its frame ends.
pub open spec fn spec_decode_chunk_header(data: Seq<u8>, pos: int) -> Result<
    (ChunkHeaderView, int),
    ZffErrorKind,
> {
    match spec_decode_frame(data, pos, HEADER_IDENTIFIER_CHUNK_HEADER) {
        Ok((content, end)) => match spec_decode_chunk_header_content(content) {
            Ok(h) => Ok((h, end)),
            Err(kind) => Err(kind),
        },
        Err(kind) => Err(kind),
    }
}

/// The content of a chunk header has 22 bytes without a signature and 86
/// with one: the version byte and 21 or 85 bytes behind it.
pub proof fn lemma_chunk_header_content_len(h: ChunkHeaderView)
    requires
        h.wf(),
    ensures
        h.signature is None ==> spec_chunk_header_content(h).len() == 1 + 21,
        h.signature is Some ==> spec_chunk_header_content(h).len() == 1 + 85,
        spec_chunk_header_bytes(h).len() == 12 + spec_chunk_header_content(h).len(),
{
    vstd::bytes::lemma_auto_spec_u64_to_from_le_bytes();
}

/// Decoding the content that a chunk header encodes to gives that header.
pub proof fn lemma_chunk_header_content_roundtrip(h: ChunkHeaderView)
    requires
        h.wf(),
    ensures
        spec_decode_chunk_header_content(spec_chunk_header_content(h)) == Ok::<_, ZffErrorKind>(h),
{
    let data = spec_chunk_header_content(h);
    let flags = spec_chunk_flags(h.error_flag, h.compression_flag);
    let a = spec_encode_u8(h.version);
    let b = spec_encode_u64(h.chunk_number);
    let c = spec_encode_u64(h.chunk_size);
    let d = spec_encode_u32(h.crc32);
    let e = spec_encode_u8(flags);
    let f = spec_encode_signature(h.signature);
    lemma_chunk_header_content_len(h);
    lemma_stands_at_self(data);
    lemma_stands_at_split(data, 0, a + b + c + d + e, f);
    lemma_stands_at_split(data, 0, a + b + c + d, e);
    lemma_stands_at_split(data, 0, a + b + c, d);
    lemma_stands_at_split(data, 0, a + b, c);
    lemma_stands_at_split(data, 0, a, b);
    lemma_decode_u8(data, 0, h.version);
    lemma_decode_u64(data, 1, h.chunk_number);
    lemma_decode_u64(data, 9, h.chunk_size);
    lemma_decode_u32(data, 17, h.crc32);
    lemma_decode_u8(data, 21, flags);
    assert(0u8 & 1u8 == 0 && 1u8 & 1u8 != 0 && 2u8 & 1u8 == 0 && 3u8 & 1u8 != 0) by (bit_vector);
    assert(0u8 & 2u8 == 0 && 1u8 & 2u8 == 0 && 2u8 & 2u8 != 0 && 3u8 & 2u8 != 0) by (bit_vector);
    let found = spec_decode_chunk_header_content(data)->Ok_0;
    assert(found.signature == h.signature);
}

/// Decoding the bytes that a chunk header encodes to gives that header.
pub proof fn lemma_chunk_header_roundtrip(data: Seq<u8>, pos: int, h: ChunkHeaderView)
    requires
        h.wf(),
        stands_at(data, pos, spec_chunk_header_bytes(h)),
    ensures
        spec_decode_chunk_header(data, pos) == Ok::<_, ZffErrorKind>(
            (h, pos + spec_chunk_header_bytes(h).len()),
        ),
{
    lemma_chunk_header_content_len(h);
    lemma_decode_frame(data, pos, HEADER_IDENTIFIER_CHUNK_HEADER, spec_chunk_header_content(h));
    lemma_chunk_header_content_roundtrip(h);
}

impl ChunkHeader {
    /// A new, empty chunk header for the given chunk number: size and CRC32
    /// are 0, no flag is set and there is no signature.
    pub fn new_empty(version: u8, chunk_number: u64) -> (h: ChunkHeader)
        ensures
            h@ == (ChunkHeaderView {
                version,
                chunk_number,
                chunk_size: 0,
                crc32: 0,
                error_flag: false,
                compression_flag: false,
                signature: None,
            }),
            h@.wf(),
    {
        Self {
            version,
            chunk_number,
            chunk_size: 0,
            crc32: 0,
            error_flag: false,
            compression_flag: false,
            ed25519_signature: None,
        }
    }

    /// A new chunk header from the given values.
    pub fn new(
        version: u8,
        chunk_number: u64,
        chunk_size: u64,
        crc32: u32,
        error_flag: bool,
        compression_flag: bool,
        ed25519_signature: Option<[u8; 64]>,
    ) -> (h: ChunkHeader)
        ensures
            h@ == (ChunkHeaderView {
                version,
                chunk_number,
                chunk_size,
                crc32,
                error_flag,
                compression_flag,
                signature: spec_signature_view(ed25519_signature),
            }),
            h@.wf(),
    {
        Self {
            version,
            chunk_number,
            chunk_size,
            crc32,
            error_flag,
            compression_flag,
            ed25519_signature,
        }
    }

    /// Every chunk header that exists is well formed.
    pub proof fn lemma_wf(&self)
        ensures
            self@.wf(),
    {
    }

    /// Overwrites the chunk size, for a header that was made empty before the
    /// payload was read.
    pub fn set_chunk_size(&mut self, size: u64)
        ensures
            final(self)@ == (ChunkHeaderView { chunk_size: size, ..old(self)@ }),
    {
        self.chunk_size = size
    }

    /// The size of the payload, the header not counted.
    pub fn chunk_size(&self) -> (size: &u64)
        ensures
            *size == self@.chunk_size,
    {
        &self.chunk_size
    }

    /// Overwrites the CRC32, for a header that was made empty before the
    /// payload was read.
    pub fn set_crc32(&mut self, crc32: u32)
        ensures
            final(self)@ == (ChunkHeaderView { crc32, ..old(self)@ }),
    {
        self.crc32 = crc32
    }

    /// The CRC32 of the payload.
    pub fn crc32(&self) -> (crc32: u32)
        ensures
            crc32 == self@.crc32,
    {
        self.crc32
    }

    /// Whether the source could not be read for this chunk.
    pub fn error_flag(&self) -> (flag: bool)
        ensures
            flag == self@.error_flag,
    {
        self.error_flag
    }

    /// Marks the payload as compressed.
    pub fn set_compression_flag(&mut self)
        ensures
            final(self)@ == (ChunkHeaderView { compression_flag: true, ..old(self)@ }),
    {
        self.compression_flag = true;
    }

    /// Whether the payload is compressed.
    pub fn compression_flag(&self) -> (flag: bool)
        ensures
            flag == self@.compression_flag,
    {
        self.compression_flag
    }

    /// Overwrites the signature, for a header that was made empty before the
    /// payload was read. The signature of a chunk is optional.
    pub fn set_signature(&mut self, signature: Option<[u8; 64]>)
        ensures
            final(self)@ == (ChunkHeaderView {
                signature: spec_signature_view(signature),
                ..old(self)@
            }),
    {
        self.ed25519_signature = signature
    }

    /// The number of the chunk.
    pub fn chunk_number(&self) -> (number: u64)
        ensures
            number == self@.chunk_number,
    {
        self.chunk_number
    }

    /// The signature, if there is one.
    pub fn signature(&self) -> (signature: &Option<[u8; 64]>)
        ensures
            spec_signature_view(*signature) == self@.signature,
    {
        &self.ed25519_signature
    }

    /// The number of bytes of the framed header.
    pub fn header_size(&self) -> (size: usize)
        ensures
            size == spec_chunk_header_bytes(self@).len(),
            size == if self@.signature is Some { 98int } else { 34int },
    {
        proof {
            lemma_chunk_header_content_len(self@);
        }
        match &self.ed25519_signature {
            None => 34,
            Some(_) => 98,
        }
    }
}

impl HeaderCoding for ChunkHeader {
    open spec fn spec_identifier() -> u32 {
        HEADER_IDENTIFIER_CHUNK_HEADER
    }

    open spec fn spec_version(value: ChunkHeaderView) -> u8 {
        value.version
    }

    open spec fn spec_encode_header(value: ChunkHeaderView) -> Seq<u8> {
        spec_chunk_header_content(value)
    }

    open spec fn spec_decode_content(data: Seq<u8>) -> Result<ChunkHeaderView, ZffErrorKind> {
        spec_decode_chunk_header_content(data)
    }

    open spec fn spec_decode_directly(data: Seq<u8>, pos: int) -> Result<
        (ChunkHeaderView, int),
        ZffErrorKind,
    > {
        spec_decode_chunk_header(data, pos)
    }

    /// The magic identifier of a chunk header.
    fn identifier() -> (id: u32)
        ensures
            id == HEADER_IDENTIFIER_CHUNK_HEADER,
    {
        HEADER_IDENTIFIER_CHUNK_HEADER
    }

    /// The version of the header.
    fn version(&self) -> (version: u8)
        ensures
            version == self@.version,
    {
        self.version
    }

    /// The content of the header's frame.
    fn encode_header(&self) -> (out: Vec<u8>)
        ensures
            out@ == spec_chunk_header_content(self@),
            self@.signature is None ==> out@.len() == 1 + 21,
            self@.signature is Some ==> out@.len() == 1 + 85,
    {
        let mut vec: Vec<u8> = Vec::new();
        vec.push(self.version);
        let mut chunk_number = encode_u64(self.chunk_number);
        vec.append(&mut chunk_number);
        let mut chunk_size = encode_u64(self.chunk_size);
        vec.append(&mut chunk_size);
        let mut crc32 = encode_u32(self.crc32);
        vec.append(&mut crc32);
        let mut flags: u8 = 0;
        if self.error_flag {
            flags += ERROR_FLAG_VALUE;
        }
        if self.compression_flag {
            flags += COMPRESSION_FLAG_VALUE;
        }
        vec.push(flags);
        match &self.ed25519_signature {
            None => (),
            Some(signature) => {
                vec.extend_from_slice(signature.as_slice());
            },
        }
        proof {
            assert(vec@ =~= spec_chunk_header_content(self@));
        }
        vec
    }

    /// The framed header: identifier, total length, content.
    fn encode_directly(&self) -> (out: Vec<u8>)
        ensures
            out@ == spec_chunk_header_bytes(self@),
            self@.signature is None ==> out@.len() == 12 + 22,
            self@.signature is Some ==> out@.len() == 12 + 86,
    {
        let content = self.encode_header();
        encode_frame(HEADER_IDENTIFIER_CHUNK_HEADER, content.as_slice())
    }

    /// Decodes the content of a chunk header's frame.
    ///
    /// The signature is taken to be present exactly if more than one byte
    /// follows the flag byte; content that ends early is `MalformedInput`.
    fn decode_content(data: Vec<u8>) -> (res: Result<ChunkHeader, ZffError>)
        ensures
            match spec_decode_chunk_header_content(data@) {
                Ok(h) => res matches Ok(found) && found@ == h && h.wf(),
                Err(kind) => res matches Err(e) && e.kind == kind,
            },
    {
        let bytes = data.as_slice();
        let (version, at) = match decode_u8(bytes, 0) {
            Ok(found) => found,
            Err(e) => { return Err(e); },
        };
        let (chunk_number, at) = match decode_u64(bytes, at) {
            Ok(found) => found,
            Err(e) => { return Err(e); },
        };
        let (chunk_size, at) = match decode_u64(bytes, at) {
            Ok(found) => found,
            Err(e) => { return Err(e); },
        };
        let (crc32, at) = match decode_u32(bytes, at) {
            Ok(found) => found,
            Err(e) => { return Err(e); },
        };
        let (flags, at) = match decode_u8(bytes, at) {
            Ok(found) => found,
            Err(e) => { return Err(e); },
        };
        let compression_flag = flags & COMPRESSION_FLAG_VALUE != 0;
        let error_flag = flags & ERROR_FLAG_VALUE != 0;
        let mut ed25519_signature: Option<[u8; 64]> = None;
        if bytes.len() - at > 1 {
            let (signature, _) = match decode_array::<64>(bytes, at) {
                Ok(found) => found,
                Err(e) => { return Err(e); },
            };
            ed25519_signature = Some(signature);
        }
        Ok(
            ChunkHeader::new(
                version,
                chunk_number,
                chunk_size,
                crc32,
                error_flag,
                compression_flag,
                ed25519_signature,
            ),
        )
    }

    /// Decodes the chunk header framed at `pos` of `data`, and gives the
    /// position behind its frame.
    fn decode_at(data: &[u8], pos: usize) -> (res: Result<(ChunkHeader, usize), ZffError>)
        ensures
            agrees(res, spec_decode_chunk_header(data@, pos as int)),
            res matches Ok((h, _)) ==> h@.wf(),
    {
        let (content, end) = match decode_frame(data, pos, HEADER_IDENTIFIER_CHUNK_HEADER) {
            Ok(found) => found,
            Err(e) => { return Err(e); },
        };
        match ChunkHeader::decode_content(content) {
            Ok(h) => Ok((h, end)),
            Err(e) => Err(e),
        }
    }

    /// Reads the framed chunk header at the cursor of `reader` and moves the
    /// cursor behind it. On failure the cursor stays.
    fn decode_directly(reader: &mut Reader) -> (res: Result<ChunkHeader, ZffError>)
        ensures
            reads(
                *old(reader),
                *final(reader),
                res,
                spec_decode_chunk_header(old(reader).data@, old(reader).position as int),
            ),
    {
        let pos = reader.cursor();
        match ChunkHeader::decode_at(reader.data.as_slice(), pos) {
            Ok((h, end)) => {
                reader.position = end as u64;
                Ok(h)
            },
            Err(e) => Err(e),
        }
    }
}

} // verus!
