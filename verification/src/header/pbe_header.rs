//! The header of the password-based encryption that wraps the data key, and
//! the parameters of its key derivation.

use vstd::prelude::*;
use crate::codec::{
    agrees, decode_array, decode_bytes, decode_u32, decode_u8, encode_bytes, encode_u32, key_at,
    lemma_decode_bytes, lemma_decode_fixed, lemma_decode_u32, lemma_decode_u32_be, lemma_decode_u8,
    lemma_stands_at_self, lemma_stands_at_split, spec_decode_bytes, spec_decode_fixed,
    spec_decode_u32, spec_decode_u8, spec_encode_bytes, spec_encode_u32, spec_encode_u8,
    spec_key_at, stands_at,
};
use crate::constants::{HEADER_IDENTIFIER_PBE_HEADER, PBE_KDF_PARAMETERS, PBE_KDF_PARAMETERS_SCRYPT};
use crate::encryption::{KDFScheme, PBEScheme};
use crate::error::{ZffError, ZffErrorKind};
use crate::framing::HeaderCoding;
use crate::framing::{decode_frame, encode_frame, lemma_decode_frame, spec_decode_frame, spec_frame};
use crate::reader::{reads, Reader};

verus! {

/// The parameters of PBKDF2 with HMAC-SHA256.
#[derive(Debug, Clone, PartialEq, Eq)]
pub struct PBKDF2SHA256Parameters {
    iterations: u32,
    salt: Vec<u8>,
}

/// What a block of PBKDF2-SHA256 parameters says.
pub struct PBKDF2SHA256ParametersView {
    pub iterations: u32,
    pub salt: Seq<u8>,
}

/// The parameters of Scrypt.
#[derive(Debug, Clone, PartialEq, Eq)]
pub struct ScryptParameters {
    logn: u8,
    r: u32,
    p: u32,
    salt: Vec<u8>,
}

/// What a block of Scrypt parameters says.
pub struct ScryptParametersView {
    pub logn: u8,
    pub r: u32,
    pub p: u32,
    pub salt: Seq<u8>,
}

/// The parameters of a key derivation, of one scheme or the other.
#[derive(Debug, Clone, PartialEq, Eq)]
pub enum KDFParameters {
    /// Parameters of PBKDF2 with HMAC-SHA256.
    PBKDF2SHA256Parameters(PBKDF2SHA256Parameters),
    /// Parameters of Scrypt.
    ScryptParameters(ScryptParameters),
}

/// What a block of key derivation parameters says.
pub enum KDFParametersView {
    /// Parameters of PBKDF2 with HMAC-SHA256.
    PBKDF2SHA256Parameters(PBKDF2SHA256ParametersView),
    /// Parameters of Scrypt.
    ScryptParameters(ScryptParametersView),
}

impl PBKDF2SHA256ParametersView {
    /// The frame of the block has a length that eight bytes can hold.
    pub open spec fn wf(self) -> bool {
        24 + self.salt.len() <= u64::MAX
    }
}

impl ScryptParametersView {
    /// The frame of the block has a length that eight bytes can hold.
    pub open spec fn wf(self) -> bool {
        29 + self.salt.len() <= u64::MAX
    }
}

impl KDFParametersView {
    /// The frame of the block has a length that eight bytes can hold.
    pub open spec fn wf(self) -> bool {
        match self {
            KDFParametersView::PBKDF2SHA256Parameters(p) => p.wf(),
            KDFParametersView::ScryptParameters(p) => p.wf(),
        }
    }
}

impl View for PBKDF2SHA256Parameters {
    type V = PBKDF2SHA256ParametersView;

    closed spec fn view(&self) -> PBKDF2SHA256ParametersView {
        PBKDF2SHA256ParametersView { iterations: self.iterations, salt: self.salt@ }
    }
}

impl View for ScryptParameters {
    type V = ScryptParametersView;

    closed spec fn view(&self) -> ScryptParametersView {
        ScryptParametersView { logn: self.logn, r: self.r, p: self.p, salt: self.salt@ }
    }
}

impl View for KDFParameters {
    type V = KDFParametersView;

    open spec fn view(&self) -> KDFParametersView {
        match self {
            KDFParameters::PBKDF2SHA256Parameters(p) => KDFParametersView::PBKDF2SHA256Parameters(
                p@,
            ),
            KDFParameters::ScryptParameters(p) => KDFParametersView::ScryptParameters(p@),
        }
    }
}

/// The content of a PBKDF2-SHA256 block: iterations, then the salt behind
/// its length.
pub open spec fn spec_pbkdf2_parameters_content(p: PBKDF2SHA256ParametersView) -> Seq<u8> {
    spec_encode_u32(p.iterations) + spec_encode_bytes(p.salt)
}

/// The content of a Scrypt block: logN, r, p, then the salt behind its length.
pub open spec fn spec_scrypt_parameters_content(p: ScryptParametersView) -> Seq<u8> {
    spec_encode_u8(p.logn) + spec_encode_u32(p.r) + spec_encode_u32(p.p) + spec_encode_bytes(
        p.salt,
    )
}

/// The framed block of key derivation parameters. The identifier of the
/// frame tells the scheme.
pub open spec fn spec_kdf_parameters_bytes(p: KDFParametersView) -> Seq<u8> {
    match p {
        KDFParametersView::PBKDF2SHA256Parameters(p) => spec_frame(
            PBE_KDF_PARAMETERS,
            spec_pbkdf2_parameters_content(p),
        ),
        KDFParametersView::ScryptParameters(p) => spec_frame(
            PBE_KDF_PARAMETERS_SCRYPT,
            spec_scrypt_parameters_content(p),
        ),
    }
}

/// The PBKDF2-SHA256 parameters that the content of a frame spells.
pub open spec fn spec_decode_pbkdf2_parameters_content(data: Seq<u8>) -> Result<
    PBKDF2SHA256ParametersView,
    ZffErrorKind,
> {
    match spec_decode_u32(data, 0) {
        Ok((iterations, pos1)) => match spec_decode_bytes(data, pos1) {
            Ok((salt, _)) => Ok(PBKDF2SHA256ParametersView { iterations, salt }),
            Err(kind) => Err(kind),
        },
        Err(kind) => Err(kind),
    }
}

/// The Scrypt parameters that the content of a frame spells.
pub open spec fn spec_decode_scrypt_parameters_content(data: Seq<u8>) -> Result<
    ScryptParametersView,
    ZffErrorKind,
> {
    match spec_decode_u8(data, 0) {
        Ok((logn, pos1)) => match spec_decode_u32(data, pos1) {
            Ok((r, pos2)) => match spec_decode_u32(data, pos2) {
                Ok((p, pos3)) => match spec_decode_bytes(data, pos3) {
                    Ok((salt, _)) => Ok(ScryptParametersView { logn, r, p, salt }),
                    Err(kind) => Err(kind),
                },
                Err(kind) => Err(kind),
            },
            Err(kind) => Err(kind),
        },
        Err(kind) => Err(kind),
    }
}

/// The block of key derivation parameters framed at `pos`, and where its
/// frame ends. A frame of neither identifier is
/// `HeaderDecodeMismatchIdentifier`.
#[verifier::opaque]
pub open spec fn spec_decode_kdf_parameters(data: Seq<u8>, pos: int) -> Result<
    (KDFParametersView, int),
    ZffErrorKind,
> {
    if spec_key_at(data, pos, PBE_KDF_PARAMETERS) {
        match spec_decode_frame(data, pos, PBE_KDF_PARAMETERS) {
            Ok((content, end)) => match spec_decode_pbkdf2_parameters_content(content) {
                Ok(p) => Ok((KDFParametersView::PBKDF2SHA256Parameters(p), end)),
                Err(kind) => Err(kind),
            },
            Err(kind) => Err(kind),
        }
    } else {
        match spec_decode_frame(data, pos, PBE_KDF_PARAMETERS_SCRYPT) {
            Ok((content, end)) => match spec_decode_scrypt_parameters_content(content) {
                Ok(p) => Ok((KDFParametersView::ScryptParameters(p), end)),
                Err(kind) => Err(kind),
            },
            Err(kind) => Err(kind),
        }
    }
}

/// The number of bytes of a framed block of key derivation parameters.
pub open spec fn spec_kdf_parameters_len(p: KDFParametersView) -> int {
    match p {
        KDFParametersView::PBKDF2SHA256Parameters(p) => 24 + (p.salt.len() as int),
        KDFParametersView::ScryptParameters(p) => 29 + (p.salt.len() as int),
    }
}

/// A framed block of key derivation parameters has the length that
/// `spec_kdf_parameters_len` gives.
pub proof fn lemma_kdf_parameters_len(p: KDFParametersView)
    requires
        p.wf(),
    ensures
        spec_kdf_parameters_bytes(p).len() == spec_kdf_parameters_len(p),
{
    vstd::bytes::lemma_auto_spec_u64_to_from_le_bytes();
}

/// Decoding the content that PBKDF2-SHA256 parameters encode to gives them.
pub proof fn lemma_pbkdf2_parameters_content_roundtrip(p: PBKDF2SHA256ParametersView)
    requires
        p.wf(),
    ensures
        spec_pbkdf2_parameters_content(p).len() == 12 + p.salt.len(),
        spec_decode_pbkdf2_parameters_content(spec_pbkdf2_parameters_content(p)) == Ok::<
            _,
            ZffErrorKind,
        >(p),
{
    let data = spec_pbkdf2_parameters_content(p);
    lemma_stands_at_self(data);
    lemma_stands_at_split(data, 0, spec_encode_u32(p.iterations), spec_encode_bytes(p.salt));
    lemma_decode_u32(data, 0, p.iterations);
    lemma_decode_bytes(data, 4, p.salt);
}

/// Decoding the content that Scrypt parameters encode to gives them.
pub proof fn lemma_scrypt_parameters_content_roundtrip(p: ScryptParametersView)
    requires
        p.wf(),
    ensures
        spec_scrypt_parameters_content(p).len() == 17 + p.salt.len(),
        spec_decode_scrypt_parameters_content(spec_scrypt_parameters_content(p)) == Ok::<
            _,
            ZffErrorKind,
        >(p),
{
    let data = spec_scrypt_parameters_content(p);
    let a = spec_encode_u8(p.logn);
    let b = spec_encode_u32(p.r);
    let c = spec_encode_u32(p.p);
    let d = spec_encode_bytes(p.salt);
    lemma_stands_at_self(data);
    lemma_stands_at_split(data, 0, a + b + c, d);
    lemma_stands_at_split(data, 0, a + b, c);
    lemma_stands_at_split(data, 0, a, b);
    lemma_decode_u8(data, 0, p.logn);
    lemma_decode_u32(data, 1, p.r);
    lemma_decode_u32(data, 5, p.p);
    lemma_decode_bytes(data, 9, p.salt);
}

/// Decoding the bytes that key derivation parameters encode to gives them.
pub proof fn lemma_kdf_parameters_roundtrip(data: Seq<u8>, pos: int, p: KDFParametersView)
    requires
        p.wf(),
        stands_at(data, pos, spec_kdf_parameters_bytes(p)),
    ensures
        spec_decode_kdf_parameters(data, pos) == Ok::<_, ZffErrorKind>(
            (p, pos + spec_kdf_parameters_len(p)),
        ),
{
    reveal(spec_decode_kdf_parameters);
    lemma_kdf_parameters_len(p);
    match p {
        KDFParametersView::PBKDF2SHA256Parameters(params) => {
            let content = spec_pbkdf2_parameters_content(params);
            lemma_pbkdf2_parameters_content_roundtrip(params);
            lemma_decode_frame(data, pos, PBE_KDF_PARAMETERS, content);
            lemma_frame_starts_with_identifier(data, pos, PBE_KDF_PARAMETERS, content);
        },
        KDFParametersView::ScryptParameters(params) => {
            let content = spec_scrypt_parameters_content(params);
            lemma_scrypt_parameters_content_roundtrip(params);
            lemma_decode_frame(data, pos, PBE_KDF_PARAMETERS_SCRYPT, content);
            lemma_frame_starts_with_identifier(data, pos, PBE_KDF_PARAMETERS_SCRYPT, content);
        },
    }
}

/// Where a frame stands, its identifier stands, and no other.
pub proof fn lemma_frame_starts_with_identifier(
    data: Seq<u8>,
    pos: int,
    identifier: u32,
    content: Seq<u8>,
)
    requires
        stands_at(data, pos, spec_frame(identifier, content)),
    ensures
        forall|other: u32| spec_key_at(data, pos, other) <==> other == identifier,
{
    let length = crate::codec::spec_encode_u64((12 + content.len()) as u64);
    lemma_stands_at_split(
        data,
        pos,
        crate::codec::spec_encode_u32_be(identifier) + length,
        content,
    );
    lemma_stands_at_split(data, pos, crate::codec::spec_encode_u32_be(identifier), length);
    lemma_decode_u32_be(data, pos, identifier);
}

impl PBKDF2SHA256Parameters {
    /// New parameters of PBKDF2-SHA256.
    pub fn new(iterations: u32, salt: Vec<u8>) -> (p: PBKDF2SHA256Parameters)
        ensures
            p@ == (PBKDF2SHA256ParametersView { iterations, salt: salt@ }),
    {
        Self { iterations, salt }
    }

    /// The number of iterations.
    pub fn iterations(&self) -> (iterations: u32)
        ensures
            iterations == self@.iterations,
    {
        self.iterations
    }

    /// The salt.
    pub fn salt(&self) -> (salt: &Vec<u8>)
        ensures
            salt@ == self@.salt,
    {
        &self.salt
    }

    /// The content of the block's frame.
    pub fn encode_header(&self) -> (out: Vec<u8>)
        ensures
            out@ == spec_pbkdf2_parameters_content(self@),
    {
        let mut vec = encode_u32(self.iterations);
        let mut salt = encode_bytes(self.salt.as_slice());
        vec.append(&mut salt);
        vec
    }

    /// Decodes the content of a PBKDF2-SHA256 block.
    pub fn decode_content(data: Vec<u8>) -> (res: Result<PBKDF2SHA256Parameters, ZffError>)
        ensures
            match spec_decode_pbkdf2_parameters_content(data@) {
                Ok(p) => res matches Ok(found) && found@ == p,
                Err(kind) => res matches Err(e) && e.kind == kind,
            },
    {
        let bytes = data.as_slice();
        let (iterations, at) = decode_u32(bytes, 0)?;
        let (salt, _) = decode_bytes(bytes, at)?;
        Ok(PBKDF2SHA256Parameters::new(iterations, salt))
    }
}

impl ScryptParameters {
    /// New parameters of Scrypt.
    pub fn new(logn: u8, r: u32, p: u32, salt: Vec<u8>) -> (params: ScryptParameters)
        ensures
            params@ == (ScryptParametersView { logn, r, p, salt: salt@ }),
    {
        Self { logn, r, p, salt }
    }

    /// The binary logarithm of the cost N.
    pub fn logn(&self) -> (logn: u8)
        ensures
            logn == self@.logn,
    {
        self.logn
    }

    /// The block size r.
    pub fn r(&self) -> (r: u32)
        ensures
            r == self@.r,
    {
        self.r
    }

    /// The parallelization p.
    pub fn p(&self) -> (p: u32)
        ensures
            p == self@.p,
    {
        self.p
    }

    /// The salt.
    pub fn salt(&self) -> (salt: &Vec<u8>)
        ensures
            salt@ == self@.salt,
    {
        &self.salt
    }

    /// The content of the block's frame.
    pub fn encode_header(&self) -> (out: Vec<u8>)
        ensures
            out@ == spec_scrypt_parameters_content(self@),
    {
        let mut vec: Vec<u8> = Vec::new();
        vec.push(self.logn);
        let mut r = encode_u32(self.r);
        vec.append(&mut r);
        let mut p = encode_u32(self.p);
        vec.append(&mut p);
        let mut salt = encode_bytes(self.salt.as_slice());
        vec.append(&mut salt);
        proof {
            assert(vec@ =~= spec_scrypt_parameters_content(self@));
        }
        vec
    }

    /// Decodes the content of a Scrypt block.
    pub fn decode_content(data: Vec<u8>) -> (res: Result<ScryptParameters, ZffError>)
        ensures
            match spec_decode_scrypt_parameters_content(data@) {
                Ok(p) => res matches Ok(found) && found@ == p,
                Err(kind) => res matches Err(e) && e.kind == kind,
            },
    {
        let bytes = data.as_slice();
        let (logn, at) = decode_u8(bytes, 0)?;
        let (r, at) = decode_u32(bytes, at)?;
        let (p, at) = decode_u32(bytes, at)?;
        let (salt, _) = decode_bytes(bytes, at)?;
        Ok(ScryptParameters::new(logn, r, p, salt))
    }
}

impl KDFParameters {
    /// The framed block: the identifier of its scheme, total length, content.
    pub fn encode_directly(&self) -> (out: Vec<u8>)
        ensures
            out@ == spec_kdf_parameters_bytes(self@),
            self@.wf(),
    {
        match self {
            KDFParameters::PBKDF2SHA256Parameters(p) => {
                let content = p.encode_header();
                proof {
                    vstd::bytes::lemma_auto_spec_u64_to_from_le_bytes();
                }
                encode_frame(PBE_KDF_PARAMETERS, content.as_slice())
            },
            KDFParameters::ScryptParameters(p) => {
                let content = p.encode_header();
                proof {
                    vstd::bytes::lemma_auto_spec_u64_to_from_le_bytes();
                }
                encode_frame(PBE_KDF_PARAMETERS_SCRYPT, content.as_slice())
            },
        }
    }

    /// Decodes the block of key derivation parameters framed at `pos` of
    /// `data`, and gives the position behind its frame.
    pub fn decode_at(data: &[u8], pos: usize) -> (res: Result<(KDFParameters, usize), ZffError>)
        ensures
            agrees(res, spec_decode_kdf_parameters(data@, pos as int)),
    {
        proof {
            reveal(spec_decode_kdf_parameters);
        }
        if key_at(data, pos, PBE_KDF_PARAMETERS) {
            let (content, end) = decode_frame(data, pos, PBE_KDF_PARAMETERS)?;
            let params = PBKDF2SHA256Parameters::decode_content(content)?;
            Ok((KDFParameters::PBKDF2SHA256Parameters(params), end))
        } else {
            let (content, end) = decode_frame(data, pos, PBE_KDF_PARAMETERS_SCRYPT)?;
            let params = ScryptParameters::decode_content(content)?;
            Ok((KDFParameters::ScryptParameters(params), end))
        }
    }
}

/// The header of the password-based encryption: how the wrap key is derived
/// from the password, and under which cipher and nonce it wraps the data key.
#[derive(Debug, Clone, PartialEq, Eq)]
pub struct PBEHeader {
    version: u8,
    kdf_scheme: KDFScheme,
    encryption_scheme: PBEScheme,
    kdf_parameters: KDFParameters,
    pbencryption_nonce: [u8; 16],
}

/// What a password-based encryption header says.
pub struct PBEHeaderView {
    pub version: u8,
    pub kdf_scheme: KDFScheme,
    pub encryption_scheme: PBEScheme,
    pub kdf_parameters: KDFParametersView,
    pub nonce: Seq<u8>,
}

impl PBEHeaderView {
    /// The nonce has 16 bytes, and the parameters are well formed.
    pub open spec fn wf(self) -> bool {
        self.nonce.len() == 16 && self.kdf_parameters.wf() && 31 + spec_kdf_parameters_len(
            self.kdf_parameters,
        ) <= u64::MAX
    }
}

impl View for PBEHeader {
    type V = PBEHeaderView;

    closed spec fn view(&self) -> PBEHeaderView {
        PBEHeaderView {
            version: self.version,
            kdf_scheme: self.kdf_scheme,
            encryption_scheme: self.encryption_scheme,
            kdf_parameters: self.kdf_parameters@,
            nonce: self.pbencryption_nonce@,
        }
    }
}

/// The content of a PBE header's frame: version, selector of the key
/// derivation, selector of the cipher, the parameters of the key derivation
/// in their own frame, and the 16 bytes of the nonce.
pub open spec fn spec_pbe_header_content(h: PBEHeaderView) -> Seq<u8> {
    spec_encode_u8(h.version) + spec_encode_u8(h.kdf_scheme.spec_selector()) + spec_encode_u8(
        h.encryption_scheme.spec_selector(),
    ) + spec_kdf_parameters_bytes(h.kdf_parameters) + h.nonce
}

/// The framed PBE header.
pub open spec fn spec_pbe_header_bytes(h: PBEHeaderView) -> Seq<u8> {
    spec_frame(HEADER_IDENTIFIER_PBE_HEADER, spec_pbe_header_content(h))
}

/// The number of bytes of a framed PBE header.
pub open spec fn spec_pbe_header_len(h: PBEHeaderView) -> int {
    31 + spec_kdf_parameters_len(h.kdf_parameters)
}

/// The PBE header that the content of a frame spells. A selector that
/// stands for no scheme is `MalformedHeader`.
pub open spec fn spec_decode_pbe_header_content(data: Seq<u8>) -> Result<
    PBEHeaderView,
    ZffErrorKind,
> {
    match spec_decode_u8(data, 0) {
        Ok((version, pos1)) => match spec_decode_u8(data, pos1) {
            Ok((kdf, pos2)) => match KDFScheme::spec_of_selector(kdf) {
                Some(kdf_scheme) => match spec_decode_u8(data, pos2) {
                    Ok((cipher, pos3)) => match PBEScheme::spec_of_selector(cipher) {
                        Some(encryption_scheme) => match spec_decode_kdf_parameters(data, pos3) {
                            Ok((kdf_parameters, pos4)) => match spec_decode_fixed(data, pos4, 16) {
                                Ok((nonce, _)) => Ok(
                                    PBEHeaderView {
                                        version,
                                        kdf_scheme,
                                        encryption_scheme,
                                        kdf_parameters,
                                        nonce,
                                    },
                                ),
                                Err(kind) => Err(kind),
                            },
                            Err(kind) => Err(kind),
                        },
                        None => Err(ZffErrorKind::MalformedHeader),
                    },
                    Err(kind) => Err(kind),
                },
                None => Err(ZffErrorKind::MalformedHeader),
            },
            Err(kind) => Err(kind),
        },
        Err(kind) => Err(kind),
    }
}

/// The PBE header framed at `pos`, and where its frame ends.
#[verifier::opaque]
pub open spec fn spec_decode_pbe_header(data: Seq<u8>, pos: int) -> Result<
    (PBEHeaderView, int),
    ZffErrorKind,
> {
    match spec_decode_frame(data, pos, HEADER_IDENTIFIER_PBE_HEADER) {
        Ok((content, end)) => match spec_decode_pbe_header_content(content) {
            Ok(h) => Ok((h, end)),
            Err(kind) => Err(kind),
        },
        Err(kind) => Err(kind),
    }
}

/// Decoding the content that a PBE header encodes to gives that header.
#[verifier::rlimit(50)]
pub proof fn lemma_pbe_header_content_roundtrip(h: PBEHeaderView)
    requires
        h.wf(),
    ensures
        spec_pbe_header_content(h).len() == 19 + spec_kdf_parameters_len(h.kdf_parameters),
        spec_decode_pbe_header_content(spec_pbe_header_content(h)) == Ok::<_, ZffErrorKind>(h),
{
    let data = spec_pbe_header_content(h);
    let a = spec_encode_u8(h.version);
    let b = spec_encode_u8(h.kdf_scheme.spec_selector());
    let c = spec_encode_u8(h.encryption_scheme.spec_selector());
    let d = spec_kdf_parameters_bytes(h.kdf_parameters);
    let e = h.nonce;
    lemma_kdf_parameters_len(h.kdf_parameters);
    lemma_stands_at_self(data);
    lemma_stands_at_split(data, 0, a + b + c + d, e);
    lemma_stands_at_split(data, 0, a + b + c, d);
    lemma_stands_at_split(data, 0, a + b, c);
    lemma_stands_at_split(data, 0, a, b);
    lemma_decode_u8(data, 0, h.version);
    lemma_decode_u8(data, 1, h.kdf_scheme.spec_selector());
    lemma_decode_u8(data, 2, h.encryption_scheme.spec_selector());
    lemma_kdf_parameters_roundtrip(data, 3, h.kdf_parameters);
    lemma_decode_fixed(data, 3 + spec_kdf_parameters_len(h.kdf_parameters), h.nonce);
}

/// Decoding the bytes that a PBE header encodes to gives that header.
pub proof fn lemma_pbe_header_roundtrip(data: Seq<u8>, pos: int, h: PBEHeaderView)
    requires
        h.wf(),
        stands_at(data, pos, spec_pbe_header_bytes(h)),
    ensures
        spec_pbe_header_bytes(h).len() == spec_pbe_header_len(h),
        spec_decode_pbe_header(data, pos) == Ok::<_, ZffErrorKind>(
            (h, pos + spec_pbe_header_len(h)),
        ),
{
    reveal(spec_decode_pbe_header);
    lemma_pbe_header_content_roundtrip(h);
    lemma_decode_frame(data, pos, HEADER_IDENTIFIER_PBE_HEADER, spec_pbe_header_content(h));
}

impl PBEHeader {
    /// A new PBE header from the given values.
    pub fn new(
        version: u8,
        kdf_scheme: KDFScheme,
        encryption_scheme: PBEScheme,
        kdf_parameters: KDFParameters,
        pbencryption_nonce: [u8; 16],
    ) -> (h: PBEHeader)
        ensures
            h@ == (PBEHeaderView {
                version,
                kdf_scheme,
                encryption_scheme,
                kdf_parameters: kdf_parameters@,
                nonce: pbencryption_nonce@,
            }),
    {
        Self { version, kdf_scheme, encryption_scheme, kdf_parameters, pbencryption_nonce }
    }

    /// The scheme of the key derivation.
    pub fn kdf_scheme(&self) -> (scheme: &KDFScheme)
        ensures
            *scheme == self@.kdf_scheme,
    {
        &self.kdf_scheme
    }

    /// The cipher that wraps the data key.
    pub fn encryption_scheme(&self) -> (scheme: &PBEScheme)
        ensures
            *scheme == self@.encryption_scheme,
    {
        &self.encryption_scheme
    }

    /// The parameters of the key derivation.
    pub fn kdf_parameters(&self) -> (parameters: &KDFParameters)
        ensures
            parameters@ == self@.kdf_parameters,
    {
        &self.kdf_parameters
    }

    /// The nonce under which the data key is wrapped.
    pub fn nonce(&self) -> (nonce: &[u8; 16])
        ensures
            nonce@ == self@.nonce,
    {
        &self.pbencryption_nonce
    }
}

impl HeaderCoding for PBEHeader {
    open spec fn spec_identifier() -> u32 {
        HEADER_IDENTIFIER_PBE_HEADER
    }

    open spec fn spec_version(value: PBEHeaderView) -> u8 {
        value.version
    }

    open spec fn spec_encode_header(value: PBEHeaderView) -> Seq<u8> {
        spec_pbe_header_content(value)
    }

    open spec fn spec_decode_content(data: Seq<u8>) -> Result<PBEHeaderView, ZffErrorKind> {
        spec_decode_pbe_header_content(data)
    }

    open spec fn spec_decode_directly(data: Seq<u8>, pos: int) -> Result<
        (PBEHeaderView, int),
        ZffErrorKind,
    > {
        spec_decode_pbe_header(data, pos)
    }

    /// The magic identifier of a PBE header.
    fn identifier() -> (id: u32)
        ensures
            id == HEADER_IDENTIFIER_PBE_HEADER,
    {
        HEADER_IDENTIFIER_PBE_HEADER
    }

    /// The version of the header.
    fn version(&self) -> (version: u8)
        ensures
            version == self@.version,
    {
        self.version
    }

    /// The content of the header's frame.
    fn encode_header(&self) -> (out: Vec<u8>)
        ensures
            out@ == spec_pbe_header_content(self@),
            self@.kdf_parameters.wf(),
            self@.nonce.len() == 16,
    {
        let mut vec: Vec<u8> = Vec::new();
        vec.push(self.version);
        vec.push(self.kdf_scheme.selector());
        vec.push(self.encryption_scheme.selector());
        let mut kdf_parameters = self.kdf_parameters.encode_directly();
        vec.append(&mut kdf_parameters);
        vec.extend_from_slice(self.pbencryption_nonce.as_slice());
        proof {
            assert(vec@ =~= spec_pbe_header_content(self@));
        }
        vec
    }

    /// The framed header: identifier, total length, content.
    fn encode_directly(&self) -> (out: Vec<u8>)
        ensures
            out@ == spec_pbe_header_bytes(self@),
            self@.wf(),
    {
        let content = self.encode_header();
        proof {
            lemma_kdf_parameters_len(self@.kdf_parameters);
        }
        encode_frame(HEADER_IDENTIFIER_PBE_HEADER, content.as_slice())
    }

    /// Decodes the content of a PBE header's frame. A selector that stands
    /// for no scheme is `MalformedHeader`.
    fn decode_content(data: Vec<u8>) -> (res: Result<PBEHeader, ZffError>)
        ensures
            match spec_decode_pbe_header_content(data@) {
                Ok(h) => res matches Ok(found) && found@ == h,
                Err(kind) => res matches Err(e) && e.kind == kind,
            },
    {
        let bytes = data.as_slice();
        let (version, at) = decode_u8(bytes, 0)?;
        let (kdf, at) = decode_u8(bytes, at)?;
        let kdf_scheme = match KDFScheme::from_selector(kdf) {
            Some(scheme) => scheme,
            None => { return Err(ZffError::of_kind(ZffErrorKind::MalformedHeader)); },
        };
        let (cipher, at) = decode_u8(bytes, at)?;
        let encryption_scheme = match PBEScheme::from_selector(cipher) {
            Some(scheme) => scheme,
            None => { return Err(ZffError::of_kind(ZffErrorKind::MalformedHeader)); },
        };
        let (kdf_parameters, at) = KDFParameters::decode_at(bytes, at)?;
        let (nonce, _) = decode_array::<16>(bytes, at)?;
        Ok(PBEHeader::new(version, kdf_scheme, encryption_scheme, kdf_parameters, nonce))
    }

    /// Decodes the PBE header framed at `pos` of `data`, and gives the
    /// position behind its frame.
    fn decode_at(data: &[u8], pos: usize) -> (res: Result<(PBEHeader, usize), ZffError>)
        ensures
            agrees(res, spec_decode_pbe_header(data@, pos as int)),
    {
        proof {
            reveal(spec_decode_pbe_header);
        }
        let (content, end) = decode_frame(data, pos, HEADER_IDENTIFIER_PBE_HEADER)?;
        let header = PBEHeader::decode_content(content)?;
        Ok((header, end))
    }

    /// Reads the framed PBE header at the cursor of `reader` and moves the
    /// cursor behind it. On failure the cursor stays.
    fn decode_directly(reader: &mut Reader) -> (res: Result<PBEHeader, ZffError>)
        ensures
            reads(
                *old(reader),
                *final(reader),
                res,
                spec_decode_pbe_header(old(reader).data@, old(reader).position as int),
            ),
    {
        proof {
            reveal(spec_decode_pbe_header);
        }
        let pos = reader.cursor();
        let (header, end) = PBEHeader::decode_at(reader.data.as_slice(), pos)?;
        reader.position = end as u64;
        Ok(header)
    }
}

} // verus!
