//! The main header: the root of an image, found at the start of its first
//! segment.

use byteorder::{BigEndian, ByteOrder};
use vstd::arithmetic::power2::pow2;
use vstd::prelude::*;
use vstd::utf8::encode_utf8;
use crate::codec::{
    agrees, decode_bytes, decode_i64, decode_string_for_key, decode_u64, decode_u8, encode_bytes,
    encode_i64, encode_string_for_key, encode_u64, has_bytes, lemma_decode_bytes,
    lemma_decode_i64, lemma_decode_string, lemma_decode_u32_be, lemma_decode_u64, lemma_decode_u8,
    lemma_stands_at_self, lemma_stands_at_split, spec_decode_bytes, spec_decode_i64,
    spec_decode_string_for_key, spec_decode_u64, spec_decode_u8, spec_encode_bytes,
    spec_encode_for_key, spec_encode_i64, spec_encode_string, spec_encode_u32_be, spec_encode_u64,
    spec_encode_u8, spec_key_at, spec_u32_from_be, stands_at,
};
use crate::constants::{
    ENCODING_KEY_DESCRIPTION_NOTES, HEADER_IDENTIFIER_ENCRYPTED_MAIN_HEADER,
    HEADER_IDENTIFIER_MAIN_HEADER,
};
use crate::encryption::{spec_aead_decrypt, spec_aead_encrypt, Encryption};
use crate::error::{ZffError, ZffErrorKind};
use crate::framing::HeaderCoding;
use crate::framing::{decode_frame, encode_frame, lemma_decode_frame, spec_decode_frame, spec_frame};
use crate::header::compression_header::{
    lemma_compression_header_roundtrip, spec_compression_header_bytes,
    spec_compression_header_len, spec_decode_compression_header, CompressionHeader,
    CompressionHeaderView,
};
use crate::header::encryption_header::{
    lemma_encryption_header_roundtrip, spec_decode_encryption_header,
    spec_decrypt_encryption_key, spec_encryption_header_bytes, spec_encryption_header_len,
    EncryptionHeader, EncryptionHeaderView,
};
use crate::reader::{reads, Reader};

verus! {

/// The main header is the first header of an image. It holds the other
/// headers of the image and what a reader needs to start: how chunks are
/// compressed, how large chunks and segments are, whether chunks are signed,
/// and the identifier that all segments of the image share.
#[derive(Debug, Clone, PartialEq, Eq)]
pub struct MainHeader {
    version: u8,
    encryption_header: Option<EncryptionHeader>,
    compression_header: CompressionHeader,
    chunk_size: u8,
    signature_flag: u8,
    segment_size: u64,
    unique_identifier: i64,
    description_notes: Option<String>,
}

/// What a main header says.
pub struct MainHeaderView {
    pub version: u8,
    pub encryption_header: Option<EncryptionHeaderView>,
    pub compression_header: CompressionHeaderView,
    pub chunk_size: u8,
    pub signature_flag: u8,
    pub segment_size: u64,
    pub unique_identifier: i64,
    pub description_notes: Option<Seq<char>>,
}

/// The view of an optional encryption header.
pub open spec fn spec_encryption_header_view(h: Option<EncryptionHeader>) -> Option<
    EncryptionHeaderView,
> {
    match h {
        Some(header) => Some(header@),
        None => None,
    }
}

/// The view of optional description notes.
pub open spec fn spec_notes_view(notes: Option<String>) -> Option<Seq<char>> {
    match notes {
        Some(text) => Some(text@),
        None => None,
    }
}

impl View for MainHeader {
    type V = MainHeaderView;

    closed spec fn view(&self) -> MainHeaderView {
        MainHeaderView {
            version: self.version,
            encryption_header: spec_encryption_header_view(self.encryption_header),
            compression_header: self.compression_header@,
            chunk_size: self.chunk_size,
            signature_flag: self.signature_flag,
            segment_size: self.segment_size,
            unique_identifier: self.unique_identifier,
            description_notes: spec_notes_view(self.description_notes),
        }
    }
}

/// The bytes of optional description notes: the text behind its tag, or
/// nothing.
pub open spec fn spec_encode_notes(notes: Option<Seq<char>>) -> Seq<u8> {
    match notes {
        Some(text) => spec_encode_for_key(ENCODING_KEY_DESCRIPTION_NOTES, spec_encode_string(text)),
        None => Seq::empty(),
    }
}

/// The inner content of a main header, which is what header encryption
/// hides: the compression header in its frame, the chunk-size exponent, the
/// signature flag, the segment size, the unique identifier and, where there
/// are any, the tagged description notes.
pub open spec fn spec_main_header_inner(h: MainHeaderView) -> Seq<u8> {
    spec_compression_header_bytes(h.compression_header) + spec_encode_u8(h.chunk_size)
        + spec_encode_u8(h.signature_flag) + spec_encode_u64(h.segment_size) + spec_encode_i64(
        h.unique_identifier,
    ) + spec_encode_notes(h.description_notes)
}

/// What stands between the version and the inner content of a plain main
/// header: the encryption flag, 0 without an encryption header and 1 with
/// one, and then that header in its frame.
pub open spec fn spec_encode_encryption_part(h: Option<EncryptionHeaderView>) -> Seq<u8> {
    match h {
        Some(header) => spec_encode_u8(1) + spec_encryption_header_bytes(header),
        None => spec_encode_u8(0),
    }
}

/// The content of a plain main header's frame.
pub open spec fn spec_main_header_content(h: MainHeaderView) -> Seq<u8> {
    spec_encode_u8(h.version) + spec_encode_encryption_part(h.encryption_header)
        + spec_main_header_inner(h)
}

/// The framed plain main header.
pub open spec fn spec_main_header_bytes(h: MainHeaderView) -> Seq<u8> {
    spec_frame(HEADER_IDENTIFIER_MAIN_HEADER, spec_main_header_content(h))
}

/// The content of the frame of a main header whose inner content is
/// encrypted to `ciphertext`: version, the encryption flag 2, the encryption
/// header in its frame, and the ciphertext behind its length.
pub open spec fn spec_main_header_encrypted_content(
    h: MainHeaderView,
    encryption_header: EncryptionHeaderView,
    ciphertext: Seq<u8>,
) -> Seq<u8> {
    spec_encode_u8(h.version) + spec_encode_u8(2) + spec_encryption_header_bytes(encryption_header)
        + spec_encode_bytes(ciphertext)
}

/// The framed main header whose inner content is encrypted to `ciphertext`.
pub open spec fn spec_main_header_encrypted_bytes(
    h: MainHeaderView,
    encryption_header: EncryptionHeaderView,
    ciphertext: Seq<u8>,
) -> Seq<u8> {
    spec_frame(
        HEADER_IDENTIFIER_ENCRYPTED_MAIN_HEADER,
        spec_main_header_encrypted_content(h, encryption_header, ciphertext),
    )
}

impl MainHeaderView {
    /// The encryption header, where there is one, is well formed; the notes
    /// can be encoded; the frame has a length that eight bytes can hold.
    pub open spec fn wf(self) -> bool {
        &&& self.encryption_header matches Some(header) ==> header.wf()
        &&& self.description_notes matches Some(text) ==> encode_utf8(text).len() <= u64::MAX
        &&& 12 + spec_main_header_content(self).len() <= u64::MAX
    }
}

/// The optional description notes at `pos`, and where they end. Where
/// their tag is not at `pos` they are absent, and nothing is consumed: the
/// end is `pos` itself.
pub open spec fn spec_decode_notes(data: Seq<u8>, pos: int) -> Result<
    (Option<Seq<char>>, int),
    ZffErrorKind,
> {
    match spec_decode_string_for_key(data, pos, ENCODING_KEY_DESCRIPTION_NOTES) {
        Ok((text, end)) => Ok((Some(text), end)),
        Err(kind) => if kind == ZffErrorKind::HeaderDecoderKeyNotOnPosition {
            Ok((None, pos))
        } else {
            Err(kind)
        },
    }
}

/// The header of an inner content that was decoded, without the position
/// at which the inner content ends.
pub open spec fn spec_header_of(inner: Result<(MainHeaderView, int), ZffErrorKind>) -> Result<
    MainHeaderView,
    ZffErrorKind,
> {
    match inner {
        Ok((header, _)) => Ok(header),
        Err(kind) => Err(kind),
    }
}

/// The main header of the given version and encryption header whose inner
/// content stands at `pos`, and where that inner content ends: behind the
/// description notes where there are any, and else behind the unique
/// identifier.
pub open spec fn spec_decode_main_header_inner(
    data: Seq<u8>,
    pos: int,
    version: u8,
    encryption_header: Option<EncryptionHeaderView>,
) -> Result<(MainHeaderView, int), ZffErrorKind> {
    match spec_decode_compression_header(data, pos) {
        Ok((compression_header, pos1)) => match spec_decode_u8(data, pos1) {
            Ok((chunk_size, pos2)) => match spec_decode_u8(data, pos2) {
                Ok((signature_flag, pos3)) => match spec_decode_u64(data, pos3) {
                    Ok((segment_size, pos4)) => match spec_decode_i64(data, pos4) {
                        Ok((unique_identifier, pos5)) => match spec_decode_notes(data, pos5) {
                            Ok((description_notes, end)) => Ok(
                                (
                                    MainHeaderView {
                                        version,
                                        encryption_header,
                                        compression_header,
                                        chunk_size,
                                        signature_flag,
                                        segment_size,
                                        unique_identifier,
                                        description_notes,
                                    },
                                    end,
                                ),
                            ),
                            Err(kind) => Err(kind),
                        },
                        Err(kind) => Err(kind),
                    },
                    Err(kind) => Err(kind),
                },
                Err(kind) => Err(kind),
            },
            Err(kind) => Err(kind),
        },
        Err(kind) => Err(kind),
    }
}

/// The main header that the content of a plain frame spells. The
/// encryption flag 0 means no encryption header, 1 means that one follows;
/// any other flag is `HeaderDecodeEncryptedMainHeader`.
pub open spec fn spec_decode_main_header_content(data: Seq<u8>) -> Result<
    MainHeaderView,
    ZffErrorKind,
> {
    match spec_decode_u8(data, 0) {
        Ok((version, pos1)) => match spec_decode_u8(data, pos1) {
            Ok((flag, pos2)) => if flag == 0 {
                spec_header_of(spec_decode_main_header_inner(data, pos2, version, None))
            } else if flag == 1 {
                match spec_decode_encryption_header(data, pos2) {
                    Ok((header, pos3)) => spec_header_of(
                        spec_decode_main_header_inner(data, pos3, version, Some(header)),
                    ),
                    Err(kind) => Err(kind),
                }
            } else {
                Err(ZffErrorKind::HeaderDecodeEncryptedMainHeader)
            },
            Err(kind) => Err(kind),
        },
        Err(kind) => Err(kind),
    }
}

/// The plain main header framed at `pos`, and where its frame ends.
pub open spec fn spec_decode_main_header(data: Seq<u8>, pos: int) -> Result<
    (MainHeaderView, int),
    ZffErrorKind,
> {
    match spec_decode_frame(data, pos, HEADER_IDENTIFIER_MAIN_HEADER) {
        Ok((content, end)) => match spec_decode_main_header_content(content) {
            Ok(h) => Ok((h, end)),
            Err(kind) => Err(kind),
        },
        Err(kind) => Err(kind),
    }
}

/// The main header that the content of an encrypted frame spells under a
/// password. The encryption flag must be 2, else the error is
/// `HeaderDecodeEncryptedMainHeader`; the data key is unwrapped from the
/// encryption header with the password; the inner content is decrypted
/// with that key under the header's nonce and cipher, and then decoded. A
/// ciphertext that does not open is `DecryptionFailed`.
pub open spec fn spec_decode_encrypted_main_header_content(
    data: Seq<u8>,
    password: Seq<u8>,
) -> Result<MainHeaderView, ZffErrorKind> {
    match spec_decode_u8(data, 0) {
        Ok((version, pos1)) => match spec_decode_u8(data, pos1) {
            Ok((flag, pos2)) => if flag != 2 {
                Err(ZffErrorKind::HeaderDecodeEncryptedMainHeader)
            } else {
                match spec_decode_encryption_header(data, pos2) {
                    Ok((header, pos3)) => match spec_decode_bytes(data, pos3) {
                        Ok((ciphertext, _)) => match spec_decrypt_encryption_key(header, password) {
                            Ok(key) => match spec_aead_decrypt(
                                header.algorithm,
                                key,
                                header.nonce,
                                ciphertext,
                            ) {
                                Some(inner) => spec_header_of(
                                    spec_decode_main_header_inner(
                                        inner,
                                        0,
                                        version,
                                        Some(header),
                                    ),
                                ),
                                None => Err(ZffErrorKind::DecryptionFailed),
                            },
                            Err(kind) => Err(kind),
                        },
                        Err(kind) => Err(kind),
                    },
                    Err(kind) => Err(kind),
                }
            },
            Err(kind) => Err(kind),
        },
        Err(kind) => Err(kind),
    }
}

/// The encrypted main header framed at `pos`, and where its frame ends.
pub open spec fn spec_decode_encrypted_main_header(
    data: Seq<u8>,
    pos: int,
    password: Seq<u8>,
) -> Result<(MainHeaderView, int), ZffErrorKind> {
    match spec_decode_frame(data, pos, HEADER_IDENTIFIER_ENCRYPTED_MAIN_HEADER) {
        Ok((content, end)) => match spec_decode_encrypted_main_header_content(content, password) {
            Ok(h) => Ok((h, end)),
            Err(kind) => Err(kind),
        },
        Err(kind) => Err(kind),
    }
}

/// The position behind the inner content of a main header: behind its
/// unique identifier, which lies 18 bytes behind the compression header, and
/// behind the bytes of its description notes, where there are any.
pub open spec fn spec_main_header_inner_end(
    behind_compression_header: int,
    notes: Option<Seq<char>>,
) -> int {
    behind_compression_header + 18 + spec_encode_notes(notes).len()
}

/// Description notes that were decoded end behind the bytes that they
/// encode to; absent notes end where they were looked for.
pub proof fn lemma_notes_end(data: Seq<u8>, pos: int)
    ensures
        spec_decode_notes(data, pos) matches Ok((notes, end)) ==> end == pos + spec_encode_notes(
            notes,
        ).len(),
        spec_decode_notes(data, pos) matches Ok((notes, end)) ==> (notes is None ==> end == pos),
{
    vstd::bytes::lemma_auto_spec_u64_to_from_le_bytes();
    if spec_decode_notes(data, pos) matches Ok((Some(text), end)) {
        let bytes = spec_decode_bytes(data, pos + 4)->Ok_0.0;
        vstd::utf8::decode_utf8_encode_utf8(bytes);
    }
}

/// The inner content of a main header that stands at `pos` is read back as
/// that header, and ends where its bytes end. Where the header has no
/// notes, what follows its inner content must not begin with the tag of the
/// notes; at the end of `data` nothing follows.
#[verifier::rlimit(50)]
pub proof fn lemma_main_header_inner_roundtrip(data: Seq<u8>, pos: int, h: MainHeaderView)
    requires
        h.description_notes matches Some(text) ==> encode_utf8(text).len() <= u64::MAX,
        stands_at(data, pos, spec_main_header_inner(h)),
        h.description_notes is None ==> !spec_key_at(
            data,
            pos + spec_main_header_inner(h).len(),
            ENCODING_KEY_DESCRIPTION_NOTES,
        ),
    ensures
        spec_decode_main_header_inner(data, pos, h.version, h.encryption_header) == Ok::<
            _,
            ZffErrorKind,
        >((h, pos + spec_main_header_inner(h).len())),
{
    let a = spec_compression_header_bytes(h.compression_header);
    let b = spec_encode_u8(h.chunk_size);
    let c = spec_encode_u8(h.signature_flag);
    let d = spec_encode_u64(h.segment_size);
    let e = spec_encode_i64(h.unique_identifier);
    let f = spec_encode_notes(h.description_notes);
    let n = spec_compression_header_len(h.compression_header);
    vstd::bytes::lemma_auto_spec_u64_to_from_le_bytes();
    lemma_stands_at_split(data, pos, a + b + c + d + e, f);
    lemma_stands_at_split(data, pos, a + b + c + d, e);
    lemma_stands_at_split(data, pos, a + b + c, d);
    lemma_stands_at_split(data, pos, a + b, c);
    lemma_stands_at_split(data, pos, a, b);
    lemma_compression_header_roundtrip(data, pos, h.compression_header);
    lemma_decode_u8(data, pos + n, h.chunk_size);
    lemma_decode_u8(data, pos + n + 1, h.signature_flag);
    lemma_decode_u64(data, pos + n + 2, h.segment_size);
    lemma_decode_i64(data, pos + n + 10, h.unique_identifier);
    let pos5 = pos + n + 18;
    match h.description_notes {
        Some(text) => {
            lemma_stands_at_split(
                data,
                pos5,
                spec_encode_u32_be(ENCODING_KEY_DESCRIPTION_NOTES),
                spec_encode_string(text),
            );
            lemma_decode_u32_be(data, pos5, ENCODING_KEY_DESCRIPTION_NOTES);
            lemma_decode_string(data, pos5 + 4, text);
        },
        None => {
            assert(pos5 == pos + spec_main_header_inner(h).len());
        },
    }
}

/// Decoding the content that a plain main header encodes to gives that
/// header.
#[verifier::rlimit(50)]
pub proof fn lemma_main_header_content_roundtrip(h: MainHeaderView)
    requires
        h.wf(),
    ensures
        spec_decode_main_header_content(spec_main_header_content(h)) == Ok::<_, ZffErrorKind>(h),
{
    let data = spec_main_header_content(h);
    let a = spec_encode_u8(h.version);
    let b = spec_encode_encryption_part(h.encryption_header);
    let c = spec_main_header_inner(h);
    lemma_stands_at_self(data);
    lemma_stands_at_split(data, 0, a + b, c);
    lemma_stands_at_split(data, 0, a, b);
    lemma_decode_u8(data, 0, h.version);
    match h.encryption_header {
        Some(header) => {
            lemma_stands_at_split(
                data,
                1,
                spec_encode_u8(1),
                spec_encryption_header_bytes(header),
            );
            lemma_decode_u8(data, 1, 1);
            lemma_encryption_header_roundtrip(data, 2, header);
            lemma_main_header_inner_roundtrip(data, 2 + spec_encryption_header_len(header), h);
        },
        None => {
            lemma_decode_u8(data, 1, 0);
            lemma_main_header_inner_roundtrip(data, 2, h);
        },
    }
}

/// Decoding the bytes that a plain main header encodes to gives that
/// header.
pub proof fn lemma_main_header_roundtrip(data: Seq<u8>, pos: int, h: MainHeaderView)
    requires
        h.wf(),
        stands_at(data, pos, spec_main_header_bytes(h)),
    ensures
        spec_decode_main_header(data, pos) == Ok::<_, ZffErrorKind>(
            (h, pos + spec_main_header_bytes(h).len()),
        ),
{
    lemma_decode_frame(data, pos, HEADER_IDENTIFIER_MAIN_HEADER, spec_main_header_content(h));
    lemma_main_header_content_roundtrip(h);
}

/// A main header that is encoded without description notes is decoded
/// without them.
pub proof fn lemma_main_header_without_notes(h: MainHeaderView)
    requires
        h.wf(),
        h.description_notes is None,
    ensures
        spec_decode_main_header(spec_main_header_bytes(h), 0) matches Ok((found, _)) && found == h
            && found.description_notes is None,
{
    lemma_stands_at_self(spec_main_header_bytes(h));
    lemma_main_header_roundtrip(spec_main_header_bytes(h), 0, h);
}

/// The password unwraps `key` from the encryption header of `h`, and the
/// cipher of that header seals the inner content of `h` under `key` to
/// `ciphertext` and opens `ciphertext` to that content again.
pub open spec fn spec_main_header_sealed(
    h: MainHeaderView,
    password: Seq<u8>,
    key: Seq<u8>,
    ciphertext: Seq<u8>,
) -> bool {
    &&& h.encryption_header matches Some(header)
    &&& spec_decrypt_encryption_key(header, password) == Ok::<_, ZffErrorKind>(key)
    &&& spec_aead_encrypt(header.algorithm, key, header.nonce, spec_main_header_inner(h))
        == Some(ciphertext)
    &&& spec_aead_decrypt(header.algorithm, key, header.nonce, ciphertext) == Some(
        spec_main_header_inner(h),
    )
    &&& 22 + spec_encryption_header_len(header) + ciphertext.len() <= u64::MAX
}

/// The encryption header and the ciphertext are read back from the content
/// of an encrypted main header's frame.
#[verifier::rlimit(50)]
proof fn lemma_main_header_encrypted_parts(
    h: MainHeaderView,
    header: EncryptionHeaderView,
    ciphertext: Seq<u8>,
)
    requires
        header.wf(),
        22 + spec_encryption_header_len(header) + ciphertext.len() <= u64::MAX,
    ensures
        ({
            let content = spec_main_header_encrypted_content(h, header, ciphertext);
            &&& content.len() == 10 + spec_encryption_header_len(header) + ciphertext.len()
            &&& spec_decode_u8(content, 0) == Ok::<_, ZffErrorKind>((h.version, 1int))
            &&& spec_decode_u8(content, 1) == Ok::<_, ZffErrorKind>((2u8, 2int))
            &&& spec_decode_encryption_header(content, 2) == Ok::<_, ZffErrorKind>(
                (header, 2 + spec_encryption_header_len(header)),
            )
            &&& spec_decode_bytes(content, 2 + spec_encryption_header_len(header)) == Ok::<
                _,
                ZffErrorKind,
            >((ciphertext, content.len() as int))
        }),
{
    let content = spec_main_header_encrypted_content(h, header, ciphertext);
    let a = spec_encode_u8(h.version);
    let b = spec_encode_u8(2);
    let c = spec_encryption_header_bytes(header);
    let d = spec_encode_bytes(ciphertext);
    vstd::bytes::lemma_auto_spec_u64_to_from_le_bytes();
    lemma_stands_at_self(content);
    lemma_stands_at_split(content, 0, a + b + c, d);
    lemma_stands_at_split(content, 0, a + b, c);
    lemma_stands_at_split(content, 0, a, b);
    lemma_decode_u8(content, 0, h.version);
    lemma_decode_u8(content, 1, 2);
    lemma_encryption_header_roundtrip(content, 2, header);
    lemma_decode_bytes(content, 2 + spec_encryption_header_len(header), ciphertext);
}

/// Where the password unwraps the data key and the cipher opens what it
/// sealed under that key, decoding the encrypted content of a main header
/// with the password gives that header.
pub proof fn lemma_main_header_encrypted_content_roundtrip(
    h: MainHeaderView,
    password: Seq<u8>,
    key: Seq<u8>,
    ciphertext: Seq<u8>,
)
    requires
        h.wf(),
        spec_main_header_sealed(h, password, key, ciphertext),
    ensures
        spec_decode_encrypted_main_header_content(
            spec_main_header_encrypted_content(h, h.encryption_header->Some_0, ciphertext),
            password,
        ) == Ok::<_, ZffErrorKind>(h),
{
    let header = h.encryption_header->Some_0;
    lemma_main_header_encrypted_parts(h, header, ciphertext);
    let inner = spec_main_header_inner(h);
    lemma_stands_at_self(inner);
    lemma_main_header_inner_roundtrip(inner, 0, h);
}

/// Where the password unwraps the data key and the cipher opens what it
/// sealed under that key, decoding the encrypted bytes of a main header
/// with the password gives that header.
#[verifier::rlimit(50)]
pub proof fn lemma_main_header_encrypted_roundtrip(
    data: Seq<u8>,
    pos: int,
    h: MainHeaderView,
    password: Seq<u8>,
    key: Seq<u8>,
    ciphertext: Seq<u8>,
)
    requires
        h.wf(),
        spec_main_header_sealed(h, password, key, ciphertext),
        stands_at(
            data,
            pos,
            spec_main_header_encrypted_bytes(h, h.encryption_header->Some_0, ciphertext),
        ),
    ensures
        spec_decode_encrypted_main_header(data, pos, password) == Ok::<_, ZffErrorKind>(
            (
                h,
                pos + spec_main_header_encrypted_bytes(
                    h,
                    h.encryption_header->Some_0,
                    ciphertext,
                ).len(),
            ),
        ),
{
    let header = h.encryption_header->Some_0;
    let content = spec_main_header_encrypted_content(h, header, ciphertext);
    assert(12 + content.len() <= u64::MAX) by {
        lemma_main_header_encrypted_parts(h, header, ciphertext);
    }
    assert(spec_decode_encrypted_main_header_content(content, password) == Ok::<
        _,
        ZffErrorKind,
    >(h)) by {
        lemma_main_header_encrypted_content_roundtrip(h, password, key, ciphertext);
    }
    assert(stands_at(data, pos, spec_frame(HEADER_IDENTIFIER_ENCRYPTED_MAIN_HEADER, content)));
    lemma_decode_frame(data, pos, HEADER_IDENTIFIER_ENCRYPTED_MAIN_HEADER, content);
}

/// What unwrapping the data key with a password failed with, or
/// `DecryptionFailed` where a key was unwrapped.
pub open spec fn spec_wrong_password_error(
    header: EncryptionHeaderView,
    password: Seq<u8>,
) -> ZffErrorKind {
    match spec_decrypt_encryption_key(header, password) {
        Ok(_) => ZffErrorKind::DecryptionFailed,
        Err(kind) => kind,
    }
}

/// Where a password unwraps no data key from the encryption header, or a
/// key under which the cipher does not open the inner content, decoding the
/// encrypted bytes of a main header with that password gives no header: it
/// fails with the error of the unwrapping, or with `DecryptionFailed`.
#[verifier::rlimit(50)]
pub proof fn lemma_main_header_wrong_password(
    data: Seq<u8>,
    pos: int,
    h: MainHeaderView,
    header: EncryptionHeaderView,
    password: Seq<u8>,
    ciphertext: Seq<u8>,
)
    requires
        header.wf(),
        22 + spec_encryption_header_len(header) + ciphertext.len() <= u64::MAX,
        stands_at(data, pos, spec_main_header_encrypted_bytes(h, header, ciphertext)),
        spec_decrypt_encryption_key(header, password) matches Ok(key) ==> spec_aead_decrypt(
            header.algorithm,
            key,
            header.nonce,
            ciphertext,
        ) is None,
    ensures
        spec_decode_encrypted_main_header(data, pos, password) == Err::<
            (MainHeaderView, int),
            ZffErrorKind,
        >(spec_wrong_password_error(header, password)),
{
    let content = spec_main_header_encrypted_content(h, header, ciphertext);
    lemma_main_header_encrypted_parts(h, header, ciphertext);
    lemma_decode_frame(data, pos, HEADER_IDENTIFIER_ENCRYPTED_MAIN_HEADER, content);
}

/// `byteorder::BigEndian::read_u32`: the number that the first four bytes
/// of the buffer spell, most significant first. It needs four bytes.
#[verifier::external_body]
fn read_u32_be(buf: &[u8]) -> (v: u32)
    requires
        buf@.len() >= 4,
    ensures
        v == spec_u32_from_be(buf@.subrange(0, 4)),
{
    BigEndian::read_u32(buf)
}

impl MainHeader {
    /// A new main header from the given values.
    pub fn new(
        version: u8,
        encryption_header: Option<EncryptionHeader>,
        compression_header: CompressionHeader,
        chunk_size: u8,
        signature_flag: u8,
        segment_size: u64,
        unique_identifier: i64,
        description_notes: Option<String>,
    ) -> (h: MainHeader)
        ensures
            h@ == (MainHeaderView {
                version,
                encryption_header: spec_encryption_header_view(encryption_header),
                compression_header: compression_header@,
                chunk_size,
                signature_flag,
                segment_size,
                unique_identifier,
                description_notes: spec_notes_view(description_notes),
            }),
    {
        Self {
            version,
            encryption_header,
            compression_header,
            chunk_size,
            signature_flag,
            segment_size,
            unique_identifier,
            description_notes,
        }
    }

    /// The magic identifier of a main header with encrypted inner content.
    pub fn encrypted_header_identifier() -> (id: u32)
        ensures
            id == HEADER_IDENTIFIER_ENCRYPTED_MAIN_HEADER,
    {
        HEADER_IDENTIFIER_ENCRYPTED_MAIN_HEADER
    }

    /// The content of the frame with the inner content encrypted under
    /// `key`. Without an encryption header the error is
    /// `MissingEncryptionHeader`; a key or content that the cipher refuses is
    /// `EncryptionFailed`.
    fn encode_encrypted_header(&self, key: &[u8]) -> (res: Result<Vec<u8>, ZffError>)
        ensures
            match self@.encryption_header {
                None => res matches Err(e) && e.kind == ZffErrorKind::MissingEncryptionHeader,
                Some(header) => match spec_aead_encrypt(
                    header.algorithm,
                    key@,
                    header.nonce,
                    spec_main_header_inner(self@),
                ) {
                    Some(ciphertext) => res matches Ok(v) && v@
                        == spec_main_header_encrypted_content(self@, header, ciphertext),
                    None => res matches Err(e) && e.kind == ZffErrorKind::EncryptionFailed,
                },
            },
    {
        let mut vec: Vec<u8> = Vec::new();
        vec.push(self.version);
        let encryption_header = match &self.encryption_header {
            None => { return Err(ZffError::of_kind(ZffErrorKind::MissingEncryptionHeader)); },
            Some(header) => header,
        };
        let encryption_flag: u8 = 2;
        vec.push(encryption_flag);
        let mut header_bytes = encryption_header.encode_directly();
        vec.append(&mut header_bytes);
        let data_to_encrypt = self.encode_content();
        let encrypted_data = Encryption::encrypt_header(
            key,
            data_to_encrypt.as_slice(),
            encryption_header.nonce(),
            encryption_header.algorithm(),
        )?;
        let mut ciphertext = encode_bytes(encrypted_data.as_slice());
        vec.append(&mut ciphertext);
        proof {
            let header = self@.encryption_header->Some_0;
            assert(vec@ =~= spec_main_header_encrypted_content(self@, header, encrypted_data@));
        }
        Ok(vec)
    }

    /// Whether the magic identifier of an encrypted main header stands at
    /// `pos` of `data`.
    fn check_encrypted_identifier(data: &[u8], pos: usize) -> (found: bool)
        ensures
            found == spec_key_at(data@, pos as int, HEADER_IDENTIFIER_ENCRYPTED_MAIN_HEADER),
    {
        if !has_bytes(data, pos, 4) {
            return false;
        }
        let tag = vstd::slice::slice_subrange(data, pos, pos + 4);
        proof {
            assert(tag@.subrange(0, 4) =~= data@.subrange(pos as int, pos + 4));
        }
        let identifier = read_u32_be(tag);
        identifier == Self::encrypted_header_identifier()
    }

    /// Reads the framed main header with encrypted inner content at the
    /// cursor of `reader`, unwraps the data key with the password, decrypts
    /// the inner content, and moves the cursor behind the frame. On failure
    /// the cursor stays.
    pub fn decode_encrypted_header_with_password(reader: &mut Reader, password: &[u8]) -> (res:
        Result<MainHeader, ZffError>)
        ensures
            reads(
                *old(reader),
                *final(reader),
                res,
                spec_decode_encrypted_main_header(
                    old(reader).data@,
                    old(reader).position as int,
                    password@,
                ),
            ),
    {
        let pos = reader.cursor();
        if !Self::check_encrypted_identifier(reader.data.as_slice(), pos) {
            return Err(ZffError::of_kind(ZffErrorKind::HeaderDecodeMismatchIdentifier));
        }
        let (header_content, end) = decode_frame(
            reader.data.as_slice(),
            pos,
            HEADER_IDENTIFIER_ENCRYPTED_MAIN_HEADER,
        )?;
        let content = header_content.as_slice();
        let (header_version, at) = decode_u8(content, 0)?;
        let (encryption_flag, at) = decode_u8(content, at)?;
        if encryption_flag != 2 {
            return Err(ZffError::of_kind(ZffErrorKind::HeaderDecodeEncryptedMainHeader));
        }
        let (encryption_header, at) = EncryptionHeader::decode_at(content, at)?;
        let (encrypted_data, _) = decode_bytes(content, at)?;
        let encryption_key = encryption_header.decrypt_encryption_key(password)?;
        let decrypted_data = Encryption::decrypt_header(
            encryption_key.as_slice(),
            encrypted_data.as_slice(),
            encryption_header.nonce(),
            encryption_header.algorithm(),
        )?;
        let (main_header, _) = Self::decode_inner_content(
            decrypted_data.as_slice(),
            0,
            header_version,
            Some(encryption_header),
        )?;
        reader.position = end as u64;
        Ok(main_header)
    }

    /// The framed main header with its inner content encrypted under `key`;
    /// the encryption flag is 2. Without an encryption header the error is
    /// `MissingEncryptionHeader`; a key or content that the cipher refuses is
    /// `EncryptionFailed`.
    pub fn encode_encrypted_header_directly(&self, key: &[u8]) -> (res: Result<Vec<u8>, ZffError>)
        ensures
            match self@.encryption_header {
                None => res matches Err(e) && e.kind == ZffErrorKind::MissingEncryptionHeader,
                Some(header) => match spec_aead_encrypt(
                    header.algorithm,
                    key@,
                    header.nonce,
                    spec_main_header_inner(self@),
                ) {
                    Some(ciphertext) => res matches Ok(v) && v@
                        == spec_main_header_encrypted_bytes(self@, header, ciphertext),
                    None => res matches Err(e) && e.kind == ZffErrorKind::EncryptionFailed,
                },
            },
    {
        let encoded_header = self.encode_encrypted_header(key)?;
        Ok(encode_frame(HEADER_IDENTIFIER_ENCRYPTED_MAIN_HEADER, encoded_header.as_slice()))
    }

    /// The inner content: everything behind the encryption header.
    fn encode_content(&self) -> (out: Vec<u8>)
        ensures
            out@ == spec_main_header_inner(self@),
            self@.description_notes matches Some(text) ==> encode_utf8(text).len() <= u64::MAX,
    {
        let mut vec = self.compression_header.encode_directly();
        vec.push(self.chunk_size);
        vec.push(self.signature_flag);
        let mut segment_size = encode_u64(self.segment_size);
        vec.append(&mut segment_size);
        let mut unique_identifier = encode_i64(self.unique_identifier);
        vec.append(&mut unique_identifier);
        if let Some(description_notes) = &self.description_notes {
            let mut notes = encode_string_for_key(
                description_notes.as_str(),
                ENCODING_KEY_DESCRIPTION_NOTES,
            );
            vec.append(&mut notes);
        }
        proof {
            assert(vec@ =~= spec_main_header_inner(self@));
        }
        vec
    }

    /// Decodes the inner content of a main header at `pos` of `data` and
    /// gives the header of the given version and encryption header, and the
    /// position behind the inner content.
    ///
    /// Description notes whose tag is not there are taken to be absent, and
    /// looking for them consumes nothing: the position that is given is then
    /// the one behind the unique identifier. With notes it is the position
    /// behind the notes.
    pub fn decode_inner_content(
        data: &[u8],
        pos: usize,
        version: u8,
        encryption_header: Option<EncryptionHeader>,
    ) -> (res: Result<(MainHeader, usize), ZffError>)
        ensures
            agrees(
                res,
                spec_decode_main_header_inner(
                    data@,
                    pos as int,
                    version,
                    spec_encryption_header_view(encryption_header),
                ),
            ),
            res matches Ok((header, end)) ==> (spec_decode_compression_header(
                data@,
                pos as int,
            ) matches Ok((_, behind)) && end == spec_main_header_inner_end(
                behind,
                header@.description_notes,
            )),
    {
        let (compression_header, at) = CompressionHeader::decode_at(data, pos)?;
        let (chunk_size, at) = decode_u8(data, at)?;
        let (signature_flag, at) = decode_u8(data, at)?;
        let (segment_size, at) = decode_u64(data, at)?;
        let (unique_identifier, at) = decode_i64(data, at)?;
        proof {
            lemma_notes_end(data@, at as int);
        }
        let (description_notes, end) = match decode_string_for_key(
            data,
            at,
            ENCODING_KEY_DESCRIPTION_NOTES,
        ) {
            Ok((value, behind)) => (Some(value), behind),
            Err(e) => match e.get_kind() {
                ZffErrorKind::HeaderDecoderKeyNotOnPosition => (None, at),
                _ => { return Err(e); },
            },
        };
        let header = MainHeader::new(
            version,
            encryption_header,
            compression_header,
            chunk_size,
            signature_flag,
            segment_size,
            unique_identifier,
            description_notes,
        );
        Ok((header, end))
    }

    /// The size of a chunk in bytes: 2 to the power of the chunk-size
    /// exponent. The exponent has to be one whose power a `usize` can hold.
    pub fn chunk_size(&self) -> (size: usize)
        requires
            self@.chunk_size < usize::BITS,
        ensures
            size == pow2(self@.chunk_size as nat),
    {
        let exponent: usize = self.chunk_size as usize;
        proof {
            vstd::bits::lemma_usize_pow2_no_overflow(exponent as nat);
            vstd::bits::lemma_usize_shl_is_mul(1usize, exponent);
        }
        1usize << exponent
    }

    /// The chunk-size exponent as it is stored.
    pub fn chunk_size_exponent(&self) -> (exponent: u8)
        ensures
            exponent == self@.chunk_size,
    {
        self.chunk_size
    }

    /// The signature flag as it is stored.
    pub fn signature_flag(&self) -> (flag: u8)
        ensures
            flag == self@.signature_flag,
    {
        self.signature_flag
    }

    /// The size of a segment in bytes.
    pub fn segment_size(&self) -> (size: u64)
        ensures
            size == self@.segment_size,
    {
        self.segment_size
    }

    /// The number of bytes of the framed plain main header.
    pub fn get_encoded_size(&self) -> (size: usize)
        ensures
            size == spec_main_header_bytes(self@).len(),
    {
        self.encode_directly().len()
    }

    /// The number of bytes of the framed main header with its inner content
    /// encrypted under `key`. It fails where the encoding fails.
    pub fn get_encrypted_encoded_size(&self, key: &[u8]) -> (res: Result<usize, ZffError>)
        ensures
            match self@.encryption_header {
                None => res matches Err(e) && e.kind == ZffErrorKind::MissingEncryptionHeader,
                Some(header) => match spec_aead_encrypt(
                    header.algorithm,
                    key@,
                    header.nonce,
                    spec_main_header_inner(self@),
                ) {
                    Some(ciphertext) => res matches Ok(size) && size
                        == spec_main_header_encrypted_bytes(self@, header, ciphertext).len(),
                    None => res matches Err(e) && e.kind == ZffErrorKind::EncryptionFailed,
                },
            },
    {
        Ok(self.encode_encrypted_header_directly(key)?.len())
    }

    /// Whether the chunks of the image carry a signature.
    pub fn has_signature(&self) -> (signed: bool)
        ensures
            signed == (self@.signature_flag != 0),
    {
        self.signature_flag != 0
    }

    /// The compression header.
    pub fn compression_header(&self) -> (header: &CompressionHeader)
        ensures
            header@ == self@.compression_header,
    {
        &self.compression_header
    }

    /// The encryption header, if there is one.
    pub fn encryption_header(&self) -> (header: &Option<EncryptionHeader>)
        ensures
            spec_encryption_header_view(*header) == self@.encryption_header,
    {
        &self.encryption_header
    }

    /// The identifier that all segments of the image share.
    pub fn unique_identifier(&self) -> (id: i64)
        ensures
            id == self@.unique_identifier,
    {
        self.unique_identifier
    }

    /// The description notes, if there are any.
    pub fn description_notes(&self) -> (notes: &Option<String>)
        ensures
            spec_notes_view(*notes) == self@.description_notes,
    {
        &self.description_notes
    }
}

impl HeaderCoding for MainHeader {
    open spec fn spec_identifier() -> u32 {
        HEADER_IDENTIFIER_MAIN_HEADER
    }

    open spec fn spec_version(value: MainHeaderView) -> u8 {
        value.version
    }

    open spec fn spec_encode_header(value: MainHeaderView) -> Seq<u8> {
        spec_main_header_content(value)
    }

    open spec fn spec_decode_content(data: Seq<u8>) -> Result<MainHeaderView, ZffErrorKind> {
        spec_decode_main_header_content(data)
    }

    open spec fn spec_decode_directly(data: Seq<u8>, pos: int) -> Result<
        (MainHeaderView, int),
        ZffErrorKind,
    > {
        spec_decode_main_header(data, pos)
    }

    /// The magic identifier of a plain main header.
    fn identifier() -> (id: u32)
        ensures
            id == HEADER_IDENTIFIER_MAIN_HEADER,
    {
        HEADER_IDENTIFIER_MAIN_HEADER
    }

    /// The version of the header.
    fn version(&self) -> (version: u8)
        ensures
            version == self@.version,
    {
        self.version
    }

    /// The content of the plain header's frame. The encryption flag is 0
    /// without an encryption header and 1 with one.
    fn encode_header(&self) -> (out: Vec<u8>)
        ensures
            out@ == spec_main_header_content(self@),
            self@.encryption_header matches Some(header) ==> header.wf(),
            self@.description_notes matches Some(text) ==> encode_utf8(text).len() <= u64::MAX,
    {
        let mut vec: Vec<u8> = Vec::new();
        vec.push(self.version);
        match &self.encryption_header {
            None => {
                let encryption_flag: u8 = 0;
                vec.push(encryption_flag);
            },
            Some(header) => {
                let encryption_flag: u8 = 1;
                vec.push(encryption_flag);
                let mut header_bytes = header.encode_directly();
                vec.append(&mut header_bytes);
            },
        };
        let mut content = self.encode_content();
        vec.append(&mut content);
        proof {
            assert(vec@ =~= spec_main_header_content(self@));
        }
        vec
    }

    /// The framed plain header: identifier, total length, content. A
    /// header that was encoded is well formed, so that decoding its bytes
    /// gives it back.
    fn encode_directly(&self) -> (out: Vec<u8>)
        ensures
            out@ == spec_main_header_bytes(self@),
            self@.wf(),
    {
        let content = self.encode_header();
        encode_frame(HEADER_IDENTIFIER_MAIN_HEADER, content.as_slice())
    }

    /// Decodes the content of a plain main header's frame. An encryption
    /// flag above 1 is `HeaderDecodeEncryptedMainHeader`.
    fn decode_content(data: Vec<u8>) -> (res: Result<MainHeader, ZffError>)
        ensures
            match spec_decode_main_header_content(data@) {
                Ok(h) => res matches Ok(found) && found@ == h,
                Err(kind) => res matches Err(e) && e.kind == kind,
            },
    {
        let bytes = data.as_slice();
        let (version, at) = decode_u8(bytes, 0)?;
        let mut encryption_header: Option<EncryptionHeader> = None;
        let (encryption_flag, at) = decode_u8(bytes, at)?;
        let mut inner_at: usize = at;
        if encryption_flag == 1 {
            let (header, behind) = EncryptionHeader::decode_at(bytes, at)?;
            encryption_header = Some(header);
            inner_at = behind;
        } else if encryption_flag > 1 {
            return Err(ZffError::of_kind(ZffErrorKind::HeaderDecodeEncryptedMainHeader));
        }
        let (header, _) = Self::decode_inner_content(bytes, inner_at, version, encryption_header)?;
        Ok(header)
    }

    /// Decodes the plain main header framed at `pos` of `data`, and gives
    /// the position behind its frame.
    fn decode_at(data: &[u8], pos: usize) -> (res: Result<(MainHeader, usize), ZffError>)
        ensures
            agrees(res, spec_decode_main_header(data@, pos as int)),
    {
        let (content, end) = decode_frame(data, pos, HEADER_IDENTIFIER_MAIN_HEADER)?;
        let header = MainHeader::decode_content(content)?;
        Ok((header, end))
    }

    /// Reads the framed plain main header at the cursor of `reader` and
    /// moves the cursor behind it. On failure the cursor stays.
    fn decode_directly(reader: &mut Reader) -> (res: Result<MainHeader, ZffError>)
        ensures
            reads(
                *old(reader),
                *final(reader),
                res,
                spec_decode_main_header(old(reader).data@, old(reader).position as int),
            ),
    {
        let pos = reader.cursor();
        let (header, end) = MainHeader::decode_at(reader.data.as_slice(), pos)?;
        reader.position = end as u64;
        Ok(header)
    }
}

} // verus!
