//! The header that carries everything needed to decrypt an image but the
//! password: the wrapped data key and how it was wrapped.

use vstd::prelude::*;
use crate::codec::{
    agrees, decode_array, decode_bytes, decode_u8, encode_bytes, lemma_decode_bytes,
    lemma_decode_fixed, lemma_decode_u8, lemma_stands_at_self, lemma_stands_at_split,
    spec_decode_bytes, spec_decode_fixed, spec_decode_u8, spec_encode_bytes, spec_encode_u8,
    stands_at,
};
use crate::constants::HEADER_IDENTIFIER_ENCRYPTION_HEADER;
use crate::encryption::{
    spec_pbkdf2_sha256_decrypt, spec_scrypt_cost_fits, spec_scrypt_decrypt, Encryption,
    EncryptionAlgorithm, KDFScheme, PBEScheme,
};
use crate::error::{ZffError, ZffErrorKind};
use crate::framing::HeaderCoding;
use crate::framing::{decode_frame, encode_frame, lemma_decode_frame, spec_decode_frame, spec_frame};
use crate::header::pbe_header::{
    lemma_pbe_header_roundtrip, spec_decode_pbe_header, spec_pbe_header_bytes,
    spec_pbe_header_len, KDFParameters, KDFParametersView, PBEHeader, PBEHeaderView,
};
use crate::reader::{reads, Reader};

verus! {

/// The encryption header holds the data key, encrypted under a key that is
/// derived from a password as the inner PBE header says. The data key,
/// unwrapped with the right password, decrypts the chunks and the encrypted
/// headers of the image.
#[derive(Debug, Clone, PartialEq, Eq)]
pub struct EncryptionHeader {
    version: u8,
    pbe_header: PBEHeader,
    algorithm: EncryptionAlgorithm,
    encrypted_encryption_key: Vec<u8>,
    encrypted_header_nonce: [u8; 12],
}

/// What an encryption header says.
pub struct EncryptionHeaderView {
    pub version: u8,
    pub pbe_header: PBEHeaderView,
    pub algorithm: EncryptionAlgorithm,
    pub encrypted_encryption_key: Seq<u8>,
    pub nonce: Seq<u8>,
}

/// The number of bytes of a framed encryption header.
pub open spec fn spec_encryption_header_len(h: EncryptionHeaderView) -> int {
    34 + spec_pbe_header_len(h.pbe_header) + h.encrypted_encryption_key.len()
}

impl EncryptionHeaderView {
    /// The nonce has 12 bytes, the PBE header is well formed, and the frame
    /// has a length that eight bytes can hold.
    pub open spec fn wf(self) -> bool {
        self.nonce.len() == 12 && self.pbe_header.wf() && spec_encryption_header_len(self)
            <= u64::MAX
    }
}

impl View for EncryptionHeader {
    type V = EncryptionHeaderView;

    closed spec fn view(&self) -> EncryptionHeaderView {
        EncryptionHeaderView {
            version: self.version,
            pbe_header: self.pbe_header@,
            algorithm: self.algorithm,
            encrypted_encryption_key: self.encrypted_encryption_key@,
            nonce: self.encrypted_header_nonce@,
        }
    }
}

/// The content of an encryption header's frame: version, the PBE header in
/// its own frame, the selector of the cipher, the wrapped data key behind
/// its length, and the 12 bytes of the nonce of header encryption.
pub open spec fn spec_encryption_header_content(h: EncryptionHeaderView) -> Seq<u8> {
    spec_encode_u8(h.version) + spec_pbe_header_bytes(h.pbe_header) + spec_encode_u8(
        h.algorithm.spec_selector(),
    ) + spec_encode_bytes(h.encrypted_encryption_key) + h.nonce
}

/// The framed encryption header.
pub open spec fn spec_encryption_header_bytes(h: EncryptionHeaderView) -> Seq<u8> {
    spec_frame(HEADER_IDENTIFIER_ENCRYPTION_HEADER, spec_encryption_header_content(h))
}

/// The encryption header that the content of a frame spells. A selector
/// that stands for no cipher is `UnknownEncryptionAlgorithm`.
pub open spec fn spec_decode_encryption_header_content(data: Seq<u8>) -> Result<
    EncryptionHeaderView,
    ZffErrorKind,
> {
    match spec_decode_u8(data, 0) {
        Ok((version, pos1)) => match spec_decode_pbe_header(data, pos1) {
            Ok((pbe_header, pos2)) => match spec_decode_u8(data, pos2) {
                Ok((selector, pos3)) => match EncryptionAlgorithm::spec_of_selector(selector) {
                    Some(algorithm) => match spec_decode_bytes(data, pos3) {
                        Ok((encrypted_encryption_key, pos4)) => match spec_decode_fixed(
                            data,
                            pos4,
                            12,
                        ) {
                            Ok((nonce, _)) => Ok(
                                EncryptionHeaderView {
                                    version,
                                    pbe_header,
                                    algorithm,
                                    encrypted_encryption_key,
                                    nonce,
                                },
                            ),
                            Err(kind) => Err(kind),
                        },
                        Err(kind) => Err(kind),
                    },
                    None => Err(ZffErrorKind::UnknownEncryptionAlgorithm),
                },
                Err(kind) => Err(kind),
            },
            Err(kind) => Err(kind),
        },
        Err(kind) => Err(kind),
    }
}

/// The encryption header framed at `pos`, and where its frame ends.
#[verifier::opaque]
pub open spec fn spec_decode_encryption_header(data: Seq<u8>, pos: int) -> Result<
    (EncryptionHeaderView, int),
    ZffErrorKind,
> {
    match spec_decode_frame(data, pos, HEADER_IDENTIFIER_ENCRYPTION_HEADER) {
        Ok((content, end)) => match spec_decode_encryption_header_content(content) {
            Ok(h) => Ok((h, end)),
            Err(kind) => Err(kind),
        },
        Err(kind) => Err(kind),
    }
}

/// What a cipher gave, or `DecryptionFailed` where it gave nothing.
pub open spec fn spec_unwrapped(outcome: Option<Seq<u8>>) -> Result<Seq<u8>, ZffErrorKind> {
    match outcome {
        Some(key) => Ok(key),
        None => Err(ZffErrorKind::DecryptionFailed),
    }
}

/// The data key that a password unwraps from an encryption header.
///
/// The wrap key is derived as the scheme of the PBE header says, with that
/// header's parameters; the wrapped key is then decrypted under the PBE
/// header's cipher and nonce. Parameters of another scheme than the one
/// named, and Scrypt parameters whose buffers cannot be addressed, are
/// `MalformedHeader`; a key that does not open is `DecryptionFailed`.
pub open spec fn spec_decrypt_encryption_key(h: EncryptionHeaderView, password: Seq<u8>) -> Result<
    Seq<u8>,
    ZffErrorKind,
> {
    let pbe = h.pbe_header;
    match pbe.kdf_scheme {
        KDFScheme::PBKDF2SHA256 => match pbe.kdf_parameters {
            KDFParametersView::PBKDF2SHA256Parameters(p) => spec_unwrapped(
                spec_pbkdf2_sha256_decrypt(
                    pbe.encryption_scheme,
                    p.iterations,
                    p.salt,
                    pbe.nonce,
                    password,
                    h.encrypted_encryption_key,
                ),
            ),
            KDFParametersView::ScryptParameters(_) => Err(ZffErrorKind::MalformedHeader),
        },
        KDFScheme::Scrypt => match pbe.kdf_parameters {
            KDFParametersView::ScryptParameters(p) => if spec_scrypt_cost_fits(p.logn, p.r, p.p) {
                spec_unwrapped(
                    spec_scrypt_decrypt(
                        pbe.encryption_scheme,
                        p.logn,
                        p.r,
                        p.p,
                        p.salt,
                        pbe.nonce,
                        password,
                        h.encrypted_encryption_key,
                    ),
                )
            } else {
                Err(ZffErrorKind::MalformedHeader)
            },
            KDFParametersView::PBKDF2SHA256Parameters(_) => Err(ZffErrorKind::MalformedHeader),
        },
    }
}

/// Decoding the content that an encryption header encodes to gives that
/// header.
#[verifier::rlimit(50)]
pub proof fn lemma_encryption_header_content_roundtrip(h: EncryptionHeaderView)
    requires
        h.wf(),
    ensures
        spec_encryption_header_content(h).len() == spec_encryption_header_len(h) - 12,
        spec_decode_encryption_header_content(spec_encryption_header_content(h)) == Ok::<
            _,
            ZffErrorKind,
        >(h),
{
    let data = spec_encryption_header_content(h);
    let a = spec_encode_u8(h.version);
    let b = spec_pbe_header_bytes(h.pbe_header);
    let c = spec_encode_u8(h.algorithm.spec_selector());
    let d = spec_encode_bytes(h.encrypted_encryption_key);
    let e = h.nonce;
    let n = spec_pbe_header_len(h.pbe_header);
    lemma_stands_at_self(data);
    lemma_stands_at_split(data, 0, a + b + c + d, e);
    lemma_stands_at_split(data, 0, a + b + c, d);
    lemma_stands_at_split(data, 0, a + b, c);
    lemma_stands_at_split(data, 0, a, b);
    lemma_decode_u8(data, 0, h.version);
    lemma_pbe_header_roundtrip(data, 1, h.pbe_header);
    lemma_decode_u8(data, 1 + n, h.algorithm.spec_selector());
    lemma_decode_bytes(data, 2 + n, h.encrypted_encryption_key);
    lemma_decode_fixed(data, 10 + n + h.encrypted_encryption_key.len(), h.nonce);
}

/// Decoding the bytes that an encryption header encodes to gives that
/// header.
pub proof fn lemma_encryption_header_roundtrip(data: Seq<u8>, pos: int, h: EncryptionHeaderView)
    requires
        h.wf(),
        stands_at(data, pos, spec_encryption_header_bytes(h)),
    ensures
        spec_encryption_header_bytes(h).len() == spec_encryption_header_len(h),
        spec_decode_encryption_header(data, pos) == Ok::<_, ZffErrorKind>(
            (h, pos + spec_encryption_header_len(h)),
        ),
{
    reveal(spec_decode_encryption_header);
    lemma_encryption_header_content_roundtrip(h);
    lemma_decode_frame(
        data,
        pos,
        HEADER_IDENTIFIER_ENCRYPTION_HEADER,
        spec_encryption_header_content(h),
    );
}

impl EncryptionHeader {
    /// A new encryption header from the given values: the key is the data
    /// key as wrapped under the password, the nonce the one of header
    /// encryption.
    pub fn new(
        version: u8,
        pbe_header: PBEHeader,
        algorithm: EncryptionAlgorithm,
        encrypted_encryption_key: Vec<u8>,
        encrypted_header_nonce: [u8; 12],
    ) -> (h: EncryptionHeader)
        ensures
            h@ == (EncryptionHeaderView {
                version,
                pbe_header: pbe_header@,
                algorithm,
                encrypted_encryption_key: encrypted_encryption_key@,
                nonce: encrypted_header_nonce@,
            }),
    {
        Self { version, pbe_header, algorithm, encrypted_encryption_key, encrypted_header_nonce }
    }

    /// The cipher of headers and chunks.
    pub fn algorithm(&self) -> (algorithm: &EncryptionAlgorithm)
        ensures
            *algorithm == self@.algorithm,
    {
        &self.algorithm
    }

    /// The inner PBE header.
    pub fn pbe_header(&self) -> (pbe_header: &PBEHeader)
        ensures
            pbe_header@ == self@.pbe_header,
    {
        &self.pbe_header
    }

    /// The nonce of header encryption. Chunks are encrypted under nonces of
    /// their own.
    pub fn nonce(&self) -> (nonce: &[u8; 12])
        ensures
            nonce@ == self@.nonce,
    {
        &self.encrypted_header_nonce
    }

    /// The data key as it is stored: wrapped under the password.
    pub fn encrypted_encryption_key(&self) -> (key: &Vec<u8>)
        ensures
            key@ == self@.encrypted_encryption_key,
    {
        &self.encrypted_encryption_key
    }

    /// Unwraps the data key with a password.
    pub fn decrypt_encryption_key(&self, password: &[u8]) -> (res: Result<Vec<u8>, ZffError>)
        ensures
            match spec_decrypt_encryption_key(self@, password@) {
                Ok(key) => res matches Ok(v) && v@ == key,
                Err(kind) => res matches Err(e) && e.kind == kind,
            },
    {
        match self.pbe_header.kdf_scheme() {
            KDFScheme::PBKDF2SHA256 => match self.pbe_header.kdf_parameters() {
                KDFParameters::PBKDF2SHA256Parameters(parameters) => {
                    let iterations = parameters.iterations();
                    let salt = parameters.salt();
                    match self.pbe_header.encryption_scheme() {
                        PBEScheme::AES128CBC => Encryption::decrypt_pbkdf2sha256_aes128cbc(
                            iterations,
                            salt.as_slice(),
                            self.pbe_header.nonce(),
                            password,
                            self.encrypted_encryption_key.as_slice(),
                        ),
                        PBEScheme::AES256CBC => Encryption::decrypt_pbkdf2sha256_aes256cbc(
                            iterations,
                            salt.as_slice(),
                            self.pbe_header.nonce(),
                            password,
                            self.encrypted_encryption_key.as_slice(),
                        ),
                    }
                },
                _ => Err(ZffError::of_kind(ZffErrorKind::MalformedHeader)),
            },
            KDFScheme::Scrypt => match self.pbe_header.kdf_parameters() {
                KDFParameters::ScryptParameters(parameters) => {
                    let logn = parameters.logn();
                    let p = parameters.p();
                    let r = parameters.r();
                    let salt = parameters.salt();
                    match self.pbe_header.encryption_scheme() {
                        PBEScheme::AES128CBC => Encryption::decrypt_scrypt_aes128cbc(
                            logn,
                            p,
                            r,
                            salt.as_slice(),
                            self.pbe_header.nonce(),
                            password,
                            self.encrypted_encryption_key.as_slice(),
                        ),
                        PBEScheme::AES256CBC => Encryption::decrypt_scrypt_aes256cbc(
                            logn,
                            p,
                            r,
                            salt.as_slice(),
                            self.pbe_header.nonce(),
                            password,
                            self.encrypted_encryption_key.as_slice(),
                        ),
                    }
                },
                _ => Err(ZffError::of_kind(ZffErrorKind::MalformedHeader)),
            },
        }
    }
}

impl HeaderCoding for EncryptionHeader {
    open spec fn spec_identifier() -> u32 {
        HEADER_IDENTIFIER_ENCRYPTION_HEADER
    }

    open spec fn spec_version(value: EncryptionHeaderView) -> u8 {
        value.version
    }

    open spec fn spec_encode_header(value: EncryptionHeaderView) -> Seq<u8> {
        spec_encryption_header_content(value)
    }

    open spec fn spec_decode_content(data: Seq<u8>) -> Result<EncryptionHeaderView, ZffErrorKind> {
        spec_decode_encryption_header_content(data)
    }

    open spec fn spec_decode_directly(data: Seq<u8>, pos: int) -> Result<
        (EncryptionHeaderView, int),
        ZffErrorKind,
    > {
        spec_decode_encryption_header(data, pos)
    }

    /// The magic identifier of an encryption header.
    fn identifier() -> (id: u32)
        ensures
            id == HEADER_IDENTIFIER_ENCRYPTION_HEADER,
    {
        HEADER_IDENTIFIER_ENCRYPTION_HEADER
    }

    /// The version of the header.
    fn version(&self) -> (version: u8)
        ensures
            version == self@.version,
    {
        self.version
    }

    /// The content of the header's frame.
    fn encode_header(&self) -> (out: Vec<u8>)
        ensures
            out@ == spec_encryption_header_content(self@),
            self@.pbe_header.wf(),
            self@.nonce.len() == 12,
    {
        let mut vec: Vec<u8> = Vec::new();
        vec.push(self.version);
        let mut pbe_header = self.pbe_header.encode_directly();
        vec.append(&mut pbe_header);
        vec.push(self.algorithm.selector());
        let mut key = encode_bytes(self.encrypted_encryption_key.as_slice());
        vec.append(&mut key);
        vec.extend_from_slice(self.encrypted_header_nonce.as_slice());
        proof {
            assert(vec@ =~= spec_encryption_header_content(self@));
        }
        vec
    }

    /// The framed header: identifier, total length, content.
    fn encode_directly(&self) -> (out: Vec<u8>)
        ensures
            out@ == spec_encryption_header_bytes(self@),
            out@.len() == spec_encryption_header_len(self@),
            self@.wf(),
    {
        let content = self.encode_header();
        proof {
            let h = self@;
            vstd::bytes::lemma_auto_spec_u64_to_from_le_bytes();
            crate::header::pbe_header::lemma_pbe_header_content_roundtrip(h.pbe_header);
            assert(spec_pbe_header_bytes(h.pbe_header).len() == spec_pbe_header_len(
                h.pbe_header,
            ));
        }
        encode_frame(HEADER_IDENTIFIER_ENCRYPTION_HEADER, content.as_slice())
    }

    /// Decodes the content of an encryption header's frame. A selector that
    /// stands for no cipher is `UnknownEncryptionAlgorithm`.
    fn decode_content(data: Vec<u8>) -> (res: Result<EncryptionHeader, ZffError>)
        ensures
            match spec_decode_encryption_header_content(data@) {
                Ok(h) => res matches Ok(found) && found@ == h,
                Err(kind) => res matches Err(e) && e.kind == kind,
            },
    {
        let bytes = data.as_slice();
        let (header_version, at) = decode_u8(bytes, 0)?;
        let (pbe_header, at) = PBEHeader::decode_at(bytes, at)?;
        let (selector, at) = decode_u8(bytes, at)?;
        let encryption_algorithm = match EncryptionAlgorithm::from_selector(selector) {
            Some(algorithm) => algorithm,
            None => { return Err(ZffError::of_kind(ZffErrorKind::UnknownEncryptionAlgorithm)); },
        };
        let (encryption_key, at) = decode_bytes(bytes, at)?;
        let (nonce, _) = decode_array::<12>(bytes, at)?;
        Ok(
            EncryptionHeader::new(
                header_version,
                pbe_header,
                encryption_algorithm,
                encryption_key,
                nonce,
            ),
        )
    }

    /// Decodes the encryption header framed at `pos` of `data`, and gives
    /// the position behind its frame.
    fn decode_at(data: &[u8], pos: usize) -> (res: Result<(EncryptionHeader, usize), ZffError>)
        ensures
            agrees(res, spec_decode_encryption_header(data@, pos as int)),
    {
        proof {
            reveal(spec_decode_encryption_header);
        }
        let (content, end) = decode_frame(data, pos, HEADER_IDENTIFIER_ENCRYPTION_HEADER)?;
        let header = EncryptionHeader::decode_content(content)?;
        Ok((header, end))
    }

    /// Reads the framed encryption header at the cursor of `reader` and
    /// moves the cursor behind it. On failure the cursor stays.
    fn decode_directly(reader: &mut Reader) -> (res: Result<EncryptionHeader, ZffError>)
        ensures
            reads(
                *old(reader),
                *final(reader),
                res,
                spec_decode_encryption_header(old(reader).data@, old(reader).position as int),
            ),
    {
        proof {
            reveal(spec_decode_encryption_header);
        }
        let pos = reader.cursor();
        let (header, end) = EncryptionHeader::decode_at(reader.data.as_slice(), pos)?;
        reader.position = end as u64;
        Ok(header)
    }
}

} // verus!
