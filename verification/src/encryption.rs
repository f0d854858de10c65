//! Authenticated encryption of headers and chunks, and the password-based
//! unwrapping of the data key.

use aes_gcm_siv::aead::{Aead, KeyInit};
use vstd::prelude::*;
use crate::codec::{encode_u64, spec_encode_u64};
use crate::error::{ZffError, ZffErrorKind};

verus! {

/// The ciphers for headers and chunk payloads.
#[derive(Debug, Clone, Copy, PartialEq, Eq, Structural)]
pub enum EncryptionAlgorithm {
    /// AES-128 in GCM-SIV mode; 0 in a header.
    AES128GCMSIV,
    /// AES-256 in GCM-SIV mode; 1 in a header.
    AES256GCMSIV,
}

/// The functions that derive the wrap key from a password.
#[derive(Debug, Clone, Copy, PartialEq, Eq, Structural)]
pub enum KDFScheme {
    /// PBKDF2 with HMAC-SHA256; 0 in a header.
    PBKDF2SHA256,
    /// Scrypt; 1 in a header.
    Scrypt,
}

/// The ciphers that wrap the data key.
#[derive(Debug, Clone, Copy, PartialEq, Eq, Structural)]
pub enum PBEScheme {
    /// AES-128 in CBC mode; 0 in a header.
    AES128CBC,
    /// AES-256 in CBC mode; 1 in a header.
    AES256CBC,
}

impl EncryptionAlgorithm {
    /// The byte that selects this cipher in a header.
    pub open spec fn spec_selector(self) -> u8 {
        match self {
            EncryptionAlgorithm::AES128GCMSIV => 0,
            EncryptionAlgorithm::AES256GCMSIV => 1,
        }
    }

    /// The cipher that a selector byte stands for, if any.
    pub open spec fn spec_of_selector(selector: u8) -> Option<EncryptionAlgorithm> {
        if selector == 0 {
            Some(EncryptionAlgorithm::AES128GCMSIV)
        } else if selector == 1 {
            Some(EncryptionAlgorithm::AES256GCMSIV)
        } else {
            None
        }
    }

    /// The byte that selects this cipher in a header.
    pub fn selector(&self) -> (selector: u8)
        ensures
            selector == self.spec_selector(),
    {
        match self {
            EncryptionAlgorithm::AES128GCMSIV => 0,
            EncryptionAlgorithm::AES256GCMSIV => 1,
        }
    }

    /// The cipher that a selector byte stands for, if any.
    pub fn from_selector(selector: u8) -> (algorithm: Option<EncryptionAlgorithm>)
        ensures
            algorithm == Self::spec_of_selector(selector),
    {
        if selector == 0 {
            Some(EncryptionAlgorithm::AES128GCMSIV)
        } else if selector == 1 {
            Some(EncryptionAlgorithm::AES256GCMSIV)
        } else {
            None
        }
    }
}

impl KDFScheme {
    /// The byte that selects this scheme in a header.
    pub open spec fn spec_selector(self) -> u8 {
        match self {
            KDFScheme::PBKDF2SHA256 => 0,
            KDFScheme::Scrypt => 1,
        }
    }

    /// The scheme that a selector byte stands for, if any.
    pub open spec fn spec_of_selector(selector: u8) -> Option<KDFScheme> {
        if selector == 0 {
            Some(KDFScheme::PBKDF2SHA256)
        } else if selector == 1 {
            Some(KDFScheme::Scrypt)
        } else {
            None
        }
    }

    /// The byte that selects this scheme in a header.
    pub fn selector(&self) -> (selector: u8)
        ensures
            selector == self.spec_selector(),
    {
        match self {
            KDFScheme::PBKDF2SHA256 => 0,
            KDFScheme::Scrypt => 1,
        }
    }

    /// The scheme that a selector byte stands for, if any.
    pub fn from_selector(selector: u8) -> (scheme: Option<KDFScheme>)
        ensures
            scheme == Self::spec_of_selector(selector),
    {
        if selector == 0 {
            Some(KDFScheme::PBKDF2SHA256)
        } else if selector == 1 {
            Some(KDFScheme::Scrypt)
        } else {
            None
        }
    }
}

impl PBEScheme {
    /// The byte that selects this scheme in a header.
    pub open spec fn spec_selector(self) -> u8 {
        match self {
            PBEScheme::AES128CBC => 0,
            PBEScheme::AES256CBC => 1,
        }
    }

    /// The scheme that a selector byte stands for, if any.
    pub open spec fn spec_of_selector(selector: u8) -> Option<PBEScheme> {
        if selector == 0 {
            Some(PBEScheme::AES128CBC)
        } else if selector == 1 {
            Some(PBEScheme::AES256CBC)
        } else {
            None
        }
    }

    /// The byte that selects this scheme in a header.
    pub fn selector(&self) -> (selector: u8)
        ensures
            selector == self.spec_selector(),
    {
        match self {
            PBEScheme::AES128CBC => 0,
            PBEScheme::AES256CBC => 1,
        }
    }

    /// The scheme that a selector byte stands for, if any.
    pub fn from_selector(selector: u8) -> (scheme: Option<PBEScheme>)
        ensures
            scheme == Self::spec_of_selector(selector),
    {
        if selector == 0 {
            Some(PBEScheme::AES128CBC)
        } else if selector == 1 {
            Some(PBEScheme::AES256CBC)
        } else {
            None
        }
    }
}

/// What AES-128-GCM-SIV gives for a message under a key and a nonce: the
/// ciphertext with its tag, or nothing where the cipher refuses key or message.
pub uninterp spec fn spec_aes128_gcm_siv_encrypt(
    key: Seq<u8>,
    nonce: Seq<u8>,
    message: Seq<u8>,
) -> Option<Seq<u8>>;

/// What AES-256-GCM-SIV gives for a message under a key and a nonce: the
/// ciphertext with its tag, or nothing where the cipher refuses key or message.
pub uninterp spec fn spec_aes256_gcm_siv_encrypt(
    key: Seq<u8>,
    nonce: Seq<u8>,
    message: Seq<u8>,
) -> Option<Seq<u8>>;

/// What AES-128-GCM-SIV opens a ciphertext to under a key and a nonce, or
/// nothing where the tag does not match.
pub uninterp spec fn spec_aes128_gcm_siv_decrypt(
    key: Seq<u8>,
    nonce: Seq<u8>,
    ciphertext: Seq<u8>,
) -> Option<Seq<u8>>;

/// What AES-256-GCM-SIV opens a ciphertext to under a key and a nonce, or
/// nothing where the tag does not match.
pub uninterp spec fn spec_aes256_gcm_siv_decrypt(
    key: Seq<u8>,
    nonce: Seq<u8>,
    ciphertext: Seq<u8>,
) -> Option<Seq<u8>>;

/// What a ciphertext opens to under AES-128-CBC with the key that
/// PBKDF2-HMAC-SHA256 derives from a password, or nothing where the
/// parameters are refused or the padding is wrong.
pub uninterp spec fn spec_pbkdf2_sha256_aes128cbc_decrypt(
    iterations: u32,
    salt: Seq<u8>,
    iv: Seq<u8>,
    password: Seq<u8>,
    ciphertext: Seq<u8>,
) -> Option<Seq<u8>>;

/// What a ciphertext opens to under AES-256-CBC with the key that
/// PBKDF2-HMAC-SHA256 derives from a password, or nothing where the
/// parameters are refused or the padding is wrong.
pub uninterp spec fn spec_pbkdf2_sha256_aes256cbc_decrypt(
    iterations: u32,
    salt: Seq<u8>,
    iv: Seq<u8>,
    password: Seq<u8>,
    ciphertext: Seq<u8>,
) -> Option<Seq<u8>>;

/// What a ciphertext opens to under AES-128-CBC with the key that Scrypt
/// derives from a password, or nothing where the parameters are refused or
/// the padding is wrong.
pub uninterp spec fn spec_scrypt_aes128cbc_decrypt(
    logn: u8,
    r: u32,
    p: u32,
    salt: Seq<u8>,
    iv: Seq<u8>,
    password: Seq<u8>,
    ciphertext: Seq<u8>,
) -> Option<Seq<u8>>;

/// What a ciphertext opens to under AES-256-CBC with the key that Scrypt
/// derives from a password, or nothing where the parameters are refused or
/// the padding is wrong.
pub uninterp spec fn spec_scrypt_aes256cbc_decrypt(
    logn: u8,
    r: u32,
    p: u32,
    salt: Seq<u8>,
    iv: Seq<u8>,
    password: Seq<u8>,
    ciphertext: Seq<u8>,
) -> Option<Seq<u8>>;

/// What an executable cipher returned is what the cipher is said to give.
pub open spec fn same_bytes(res: Option<Vec<u8>>, expected: Option<Seq<u8>>) -> bool {
    match expected {
        Some(bytes) => res matches Some(v) && v@ == bytes,
        None => res is None,
    }
}

/// The bytes of the table that Scrypt fills: 128 · r · 2^logn.
pub open spec fn spec_scrypt_memory(logn: nat, r: nat) -> nat
    decreases logn,
{
    if logn == 0 {
        128 * r
    } else {
        2 * spec_scrypt_memory((logn - 1) as nat, r)
    }
}

/// Whether the buffers that Scrypt fills can be addressed on this machine:
/// its table of 128 · r · 2^logn bytes, and its blocks of 128 · r · p bytes.
pub open spec fn spec_scrypt_cost_fits(logn: u8, r: u32, p: u32) -> bool {
    spec_scrypt_memory(logn as nat, r as nat) <= isize::MAX && 128 * r * p <= isize::MAX
}

/// The table of Scrypt does not shrink when the cost grows.
pub proof fn lemma_scrypt_memory_grows(low: nat, high: nat, r: nat)
    requires
        low <= high,
    ensures
        spec_scrypt_memory(low, r) <= spec_scrypt_memory(high, r),
    decreases high,
{
    if low < high {
        lemma_scrypt_memory_grows(low, (high - 1) as nat, r);
    }
}

/// `aes_gcm_siv::Aes128GcmSiv`: `new_from_slice`, then `encrypt`. The result
/// is fixed by key, nonce and message; a key of another length than 16 bytes
/// or a message that the cipher refuses gives nothing.
#[verifier::external_body]
fn aes128_gcm_siv_encrypt(key: &[u8], nonce: &[u8; 12], message: &[u8]) -> (res: Option<Vec<u8>>)
    ensures
        same_bytes(res, spec_aes128_gcm_siv_encrypt(key@, nonce@, message@)),
{
    let cipher = aes_gcm_siv::Aes128GcmSiv::new_from_slice(key).ok()?;
    cipher.encrypt(aes_gcm_siv::Nonce::from_slice(nonce), message).ok()
}

/// `aes_gcm_siv::Aes256GcmSiv`: `new_from_slice`, then `encrypt`. The result
/// is fixed by key, nonce and message; a key of another length than 32 bytes
/// or a message that the cipher refuses gives nothing.
#[verifier::external_body]
fn aes256_gcm_siv_encrypt(key: &[u8], nonce: &[u8; 12], message: &[u8]) -> (res: Option<Vec<u8>>)
    ensures
        same_bytes(res, spec_aes256_gcm_siv_encrypt(key@, nonce@, message@)),
{
    let cipher = aes_gcm_siv::Aes256GcmSiv::new_from_slice(key).ok()?;
    cipher.encrypt(aes_gcm_siv::Nonce::from_slice(nonce), message).ok()
}

/// `aes_gcm_siv::Aes128GcmSiv`: `new_from_slice`, then `decrypt`. The result
/// is fixed by key, nonce and ciphertext; a key of another length than 16
/// bytes or a tag that does not match gives nothing.
#[verifier::external_body]
fn aes128_gcm_siv_decrypt(key: &[u8], nonce: &[u8; 12], ciphertext: &[u8]) -> (res: Option<Vec<u8>>)
    ensures
        same_bytes(res, spec_aes128_gcm_siv_decrypt(key@, nonce@, ciphertext@)),
{
    let cipher = aes_gcm_siv::Aes128GcmSiv::new_from_slice(key).ok()?;
    cipher.decrypt(aes_gcm_siv::Nonce::from_slice(nonce), ciphertext).ok()
}

/// `aes_gcm_siv::Aes256GcmSiv`: `new_from_slice`, then `decrypt`. The result
/// is fixed by key, nonce and ciphertext; a key of another length than 32
/// bytes or a tag that does not match gives nothing.
#[verifier::external_body]
fn aes256_gcm_siv_decrypt(key: &[u8], nonce: &[u8; 12], ciphertext: &[u8]) -> (res: Option<Vec<u8>>)
    ensures
        same_bytes(res, spec_aes256_gcm_siv_decrypt(key@, nonce@, ciphertext@)),
{
    let cipher = aes_gcm_siv::Aes256GcmSiv::new_from_slice(key).ok()?;
    cipher.decrypt(aes_gcm_siv::Nonce::from_slice(nonce), ciphertext).ok()
}

/// `pkcs5::pbes2::Parameters::pbkdf2_sha256_aes128cbc`, then `decrypt`. The
/// result is fixed by the arguments; parameters that the scheme refuses, a
/// ciphertext that is no whole number of blocks and a wrong padding give
/// nothing.
#[verifier::external_body]
fn pbkdf2_sha256_aes128cbc_decrypt(
    iterations: u32,
    salt: &[u8],
    iv: &[u8; 16],
    password: &[u8],
    ciphertext: &[u8],
) -> (res: Option<Vec<u8>>)
    ensures
        same_bytes(
            res,
            spec_pbkdf2_sha256_aes128cbc_decrypt(iterations, salt@, iv@, password@, ciphertext@),
        ),
{
    let scheme = pkcs5::pbes2::Parameters::pbkdf2_sha256_aes128cbc(iterations, salt, iv).ok()?;
    scheme.decrypt(password, ciphertext).ok()
}

/// `pkcs5::pbes2::Parameters::pbkdf2_sha256_aes256cbc`, then `decrypt`. The
/// result is fixed by the arguments; parameters that the scheme refuses, a
/// ciphertext that is no whole number of blocks and a wrong padding give
/// nothing.
#[verifier::external_body]
fn pbkdf2_sha256_aes256cbc_decrypt(
    iterations: u32,
    salt: &[u8],
    iv: &[u8; 16],
    password: &[u8],
    ciphertext: &[u8],
) -> (res: Option<Vec<u8>>)
    ensures
        same_bytes(
            res,
            spec_pbkdf2_sha256_aes256cbc_decrypt(iterations, salt@, iv@, password@, ciphertext@),
        ),
{
    let scheme = pkcs5::pbes2::Parameters::pbkdf2_sha256_aes256cbc(iterations, salt, iv).ok()?;
    scheme.decrypt(password, ciphertext).ok()
}

/// `scrypt::Params::new` and `pkcs5::pbes2::Parameters::scrypt_aes128cbc`,
/// then `decrypt`. The result is fixed by the arguments; parameters that
/// Scrypt or the scheme refuses, a ciphertext that is no whole number of
/// blocks and a wrong padding give nothing. Scrypt allocates its buffers
/// before it works, so they have to be addressable.
#[verifier::external_body]
fn scrypt_aes128cbc_decrypt(
    logn: u8,
    r: u32,
    p: u32,
    salt: &[u8],
    iv: &[u8; 16],
    password: &[u8],
    ciphertext: &[u8],
) -> (res: Option<Vec<u8>>)
    requires
        spec_scrypt_cost_fits(logn, r, p),
    ensures
        same_bytes(
            res,
            spec_scrypt_aes128cbc_decrypt(logn, r, p, salt@, iv@, password@, ciphertext@),
        ),
{
    let params = scrypt::Params::new(logn, r, p, scrypt::Params::RECOMMENDED_LEN).ok()?;
    let scheme = pkcs5::pbes2::Parameters::scrypt_aes128cbc(params, salt, iv).ok()?;
    scheme.decrypt(password, ciphertext).ok()
}

/// `scrypt::Params::new` and `pkcs5::pbes2::Parameters::scrypt_aes256cbc`,
/// then `decrypt`. The result is fixed by the arguments; parameters that
/// Scrypt or the scheme refuses, a ciphertext that is no whole number of
/// blocks and a wrong padding give nothing. Scrypt allocates its buffers
/// before it works, so they have to be addressable.
#[verifier::external_body]
fn scrypt_aes256cbc_decrypt(
    logn: u8,
    r: u32,
    p: u32,
    salt: &[u8],
    iv: &[u8; 16],
    password: &[u8],
    ciphertext: &[u8],
) -> (res: Option<Vec<u8>>)
    requires
        spec_scrypt_cost_fits(logn, r, p),
    ensures
        same_bytes(
            res,
            spec_scrypt_aes256cbc_decrypt(logn, r, p, salt@, iv@, password@, ciphertext@),
        ),
{
    let params = scrypt::Params::new(logn, r, p, scrypt::Params::RECOMMENDED_LEN).ok()?;
    let scheme = pkcs5::pbes2::Parameters::scrypt_aes256cbc(params, salt, iv).ok()?;
    scheme.decrypt(password, ciphertext).ok()
}

/// What the cipher `algorithm` gives for a message under a key and a nonce.
pub open spec fn spec_aead_encrypt(
    algorithm: EncryptionAlgorithm,
    key: Seq<u8>,
    nonce: Seq<u8>,
    message: Seq<u8>,
) -> Option<Seq<u8>> {
    match algorithm {
        EncryptionAlgorithm::AES128GCMSIV => spec_aes128_gcm_siv_encrypt(key, nonce, message),
        EncryptionAlgorithm::AES256GCMSIV => spec_aes256_gcm_siv_encrypt(key, nonce, message),
    }
}

/// What the cipher `algorithm` opens a ciphertext to under a key and a nonce.
pub open spec fn spec_aead_decrypt(
    algorithm: EncryptionAlgorithm,
    key: Seq<u8>,
    nonce: Seq<u8>,
    ciphertext: Seq<u8>,
) -> Option<Seq<u8>> {
    match algorithm {
        EncryptionAlgorithm::AES128GCMSIV => spec_aes128_gcm_siv_decrypt(key, nonce, ciphertext),
        EncryptionAlgorithm::AES256GCMSIV => spec_aes256_gcm_siv_decrypt(key, nonce, ciphertext),
    }
}

/// The nonce of a chunk: four zero bytes, then the chunk number in eight
/// little-endian bytes.
pub open spec fn spec_chunk_nonce(chunk_number: u64) -> Seq<u8> {
    seq![0u8, 0u8, 0u8, 0u8] + spec_encode_u64(chunk_number)
}

/// Chunks of different numbers have different nonces.
pub proof fn lemma_chunk_nonce_injective(a: u64, b: u64)
    requires
        spec_chunk_nonce(a) == spec_chunk_nonce(b),
    ensures
        a == b,
{
    vstd::bytes::lemma_auto_spec_u64_to_from_le_bytes();
    let zeros = seq![0u8, 0u8, 0u8, 0u8];
    assert(spec_chunk_nonce(a).subrange(4, 12) =~= spec_encode_u64(a));
    assert(spec_chunk_nonce(b).subrange(4, 12) =~= spec_encode_u64(b));
}

/// What a cipher call of the library returned is what the cipher gives; where
/// the cipher gives nothing the error is of the kind `failure`.
pub open spec fn cipher_agrees(
    res: Result<Vec<u8>, ZffError>,
    expected: Option<Seq<u8>>,
    failure: ZffErrorKind,
) -> bool {
    match expected {
        Some(bytes) => res matches Ok(v) && v@ == bytes,
        None => res matches Err(e) && e.kind == failure,
    }
}

/// What a cipher gave, as a result of the library: the bytes, or an error of
/// the kind `failure` where the cipher gave nothing.
pub fn cipher_result(outcome: Option<Vec<u8>>, failure: ZffErrorKind) -> (res: Result<
    Vec<u8>,
    ZffError,
>)
    ensures
        match outcome {
            Some(bytes) => res matches Ok(v) && v == bytes,
            None => res matches Err(e) && e.kind == failure,
        },
{
    match outcome {
        Some(bytes) => Ok(bytes),
        None => Err(ZffError::of_kind(failure)),
    }
}

/// What unwrapping a ciphertext under PBKDF2-SHA256 and a CBC scheme gives.
pub open spec fn spec_pbkdf2_sha256_decrypt(
    scheme: PBEScheme,
    iterations: u32,
    salt: Seq<u8>,
    iv: Seq<u8>,
    password: Seq<u8>,
    ciphertext: Seq<u8>,
) -> Option<Seq<u8>> {
    match scheme {
        PBEScheme::AES128CBC => spec_pbkdf2_sha256_aes128cbc_decrypt(
            iterations,
            salt,
            iv,
            password,
            ciphertext,
        ),
        PBEScheme::AES256CBC => spec_pbkdf2_sha256_aes256cbc_decrypt(
            iterations,
            salt,
            iv,
            password,
            ciphertext,
        ),
    }
}

/// What unwrapping a ciphertext under Scrypt and a CBC scheme gives.
pub open spec fn spec_scrypt_decrypt(
    scheme: PBEScheme,
    logn: u8,
    r: u32,
    p: u32,
    salt: Seq<u8>,
    iv: Seq<u8>,
    password: Seq<u8>,
    ciphertext: Seq<u8>,
) -> Option<Seq<u8>> {
    match scheme {
        PBEScheme::AES128CBC => spec_scrypt_aes128cbc_decrypt(
            logn,
            r,
            p,
            salt,
            iv,
            password,
            ciphertext,
        ),
        PBEScheme::AES256CBC => spec_scrypt_aes256cbc_decrypt(
            logn,
            r,
            p,
            salt,
            iv,
            password,
            ciphertext,
        ),
    }
}

/// What unwrapping under Scrypt returns: `MalformedHeader` where the
/// buffers of Scrypt cannot be addressed, else what the cipher gives, and
/// `DecryptionFailed` where it gives nothing.
pub open spec fn scrypt_agrees(
    res: Result<Vec<u8>, ZffError>,
    logn: u8,
    r: u32,
    p: u32,
    expected: Option<Seq<u8>>,
) -> bool {
    if spec_scrypt_cost_fits(logn, r, p) {
        cipher_agrees(res, expected, ZffErrorKind::DecryptionFailed)
    } else {
        res matches Err(e) && e.kind == ZffErrorKind::MalformedHeader
    }
}

/// Whether the buffers that Scrypt fills for these parameters can be
/// addressed on this machine.
pub fn scrypt_cost_fits(logn: u8, r: u32, p: u32) -> (fits: bool)
    ensures
        fits == spec_scrypt_cost_fits(logn, r, p),
{
    let limit: u128 = isize::MAX as u128;
    let mut memory: u128 = 128u128 * (r as u128);
    assert(128 * r * p <= 0x80 * 0xffff_ffff * 0xffff_ffff) by (nonlinear_arith)
        requires
            r <= 0xffff_ffff,
            p <= 0xffff_ffff,
    ;
    let blocks: u128 = memory * (p as u128);
    if blocks > limit {
        return false;
    }
    if memory > limit {
        proof {
            lemma_scrypt_memory_grows(0, logn as nat, r as nat);
        }
        return false;
    }
    let mut i: u8 = 0;
    while i < logn
        invariant
            i <= logn,
            limit == isize::MAX,
            memory == spec_scrypt_memory(i as nat, r as nat),
            memory <= limit,
        decreases logn - i,
    {
        memory = 2 * memory;
        i += 1;
        if memory > limit {
            proof {
                lemma_scrypt_memory_grows(i as nat, logn as nat, r as nat);
            }
            return false;
        }
    }
    true
}

/// The symmetric and the password-based operations of the format.
pub struct Encryption;

impl Encryption {
    /// The nonce under which the chunk of the given number is encrypted.
    pub fn gen_crypto_nonce(chunk_number: u64) -> (nonce: [u8; 12])
        ensures
            nonce@ == spec_chunk_nonce(chunk_number),
    {
        let number = encode_u64(chunk_number);
        let mut nonce: [u8; 12] = [0u8; 12];
        let mut i: usize = 0;
        while i < 8
            invariant
                i <= 8,
                number@.len() == 8,
                forall|j: int| 0 <= j < 4 ==> nonce@[j] == 0,
                forall|j: int| 0 <= j < i ==> nonce@[4 + j] == number@[j],
            decreases 8 - i,
        {
            nonce[4 + i] = number[i];
            i += 1;
        }
        assert(nonce@ =~= spec_chunk_nonce(chunk_number));
        nonce
    }

    /// Encrypts the payload of a header under the data key and the nonce of
    /// the encryption header. A key or message that the cipher refuses is an
    /// error of the kind `EncryptionFailed`.
    pub fn encrypt_header(
        key: &[u8],
        message: &[u8],
        nonce: &[u8; 12],
        algorithm: &EncryptionAlgorithm,
    ) -> (res: Result<Vec<u8>, ZffError>)
        ensures
            cipher_agrees(
                res,
                spec_aead_encrypt(*algorithm, key@, nonce@, message@),
                ZffErrorKind::EncryptionFailed,
            ),
    {
        match algorithm {
            EncryptionAlgorithm::AES128GCMSIV => cipher_result(
                aes128_gcm_siv_encrypt(key, nonce, message),
                ZffErrorKind::EncryptionFailed,
            ),
            EncryptionAlgorithm::AES256GCMSIV => cipher_result(
                aes256_gcm_siv_encrypt(key, nonce, message),
                ZffErrorKind::EncryptionFailed,
            ),
        }
    }

    /// Decrypts the payload of a header under the data key and the nonce of
    /// the encryption header. A ciphertext that does not open is an error of
    /// the kind `DecryptionFailed`.
    pub fn decrypt_header(
        key: &[u8],
        ciphertext: &[u8],
        nonce: &[u8; 12],
        algorithm: &EncryptionAlgorithm,
    ) -> (res: Result<Vec<u8>, ZffError>)
        ensures
            cipher_agrees(
                res,
                spec_aead_decrypt(*algorithm, key@, nonce@, ciphertext@),
                ZffErrorKind::DecryptionFailed,
            ),
    {
        match algorithm {
            EncryptionAlgorithm::AES128GCMSIV => cipher_result(
                aes128_gcm_siv_decrypt(key, nonce, ciphertext),
                ZffErrorKind::DecryptionFailed,
            ),
            EncryptionAlgorithm::AES256GCMSIV => cipher_result(
                aes256_gcm_siv_decrypt(key, nonce, ciphertext),
                ZffErrorKind::DecryptionFailed,
            ),
        }
    }

    /// Encrypts the payload of a chunk under the data key and the nonce of
    /// its chunk number.
    pub fn encrypt_message(
        key: &[u8],
        message: &[u8],
        chunk_number: u64,
        algorithm: &EncryptionAlgorithm,
    ) -> (res: Result<Vec<u8>, ZffError>)
        ensures
            cipher_agrees(
                res,
                spec_aead_encrypt(*algorithm, key@, spec_chunk_nonce(chunk_number), message@),
                ZffErrorKind::EncryptionFailed,
            ),
    {
        let nonce = Encryption::gen_crypto_nonce(chunk_number);
        Encryption::encrypt_header(key, message, &nonce, algorithm)
    }

    /// Decrypts the payload of a chunk under the data key and the nonce of
    /// its chunk number.
    pub fn decrypt_message(
        key: &[u8],
        ciphertext: &[u8],
        chunk_number: u64,
        algorithm: &EncryptionAlgorithm,
    ) -> (res: Result<Vec<u8>, ZffError>)
        ensures
            cipher_agrees(
                res,
                spec_aead_decrypt(*algorithm, key@, spec_chunk_nonce(chunk_number), ciphertext@),
                ZffErrorKind::DecryptionFailed,
            ),
    {
        let nonce = Encryption::gen_crypto_nonce(chunk_number);
        Encryption::decrypt_header(key, ciphertext, &nonce, algorithm)
    }

    /// Unwraps a ciphertext under AES-128-CBC with the key that PBKDF2-SHA256
    /// derives from the password.
    pub fn decrypt_pbkdf2sha256_aes128cbc(
        iterations: u32,
        salt: &[u8],
        aes_iv: &[u8; 16],
        password: &[u8],
        ciphertext: &[u8],
    ) -> (res: Result<Vec<u8>, ZffError>)
        ensures
            cipher_agrees(
                res,
                spec_pbkdf2_sha256_aes128cbc_decrypt(
                    iterations,
                    salt@,
                    aes_iv@,
                    password@,
                    ciphertext@,
                ),
                ZffErrorKind::DecryptionFailed,
            ),
    {
        cipher_result(
            pbkdf2_sha256_aes128cbc_decrypt(iterations, salt, aes_iv, password, ciphertext),
            ZffErrorKind::DecryptionFailed,
        )
    }

    /// Unwraps a ciphertext under AES-256-CBC with the key that PBKDF2-SHA256
    /// derives from the password.
    pub fn decrypt_pbkdf2sha256_aes256cbc(
        iterations: u32,
        salt: &[u8],
        aes_iv: &[u8; 16],
        password: &[u8],
        ciphertext: &[u8],
    ) -> (res: Result<Vec<u8>, ZffError>)
        ensures
            cipher_agrees(
                res,
                spec_pbkdf2_sha256_aes256cbc_decrypt(
                    iterations,
                    salt@,
                    aes_iv@,
                    password@,
                    ciphertext@,
                ),
                ZffErrorKind::DecryptionFailed,
            ),
    {
        cipher_result(
            pbkdf2_sha256_aes256cbc_decrypt(iterations, salt, aes_iv, password, ciphertext),
            ZffErrorKind::DecryptionFailed,
        )
    }

    /// Unwraps a ciphertext under AES-128-CBC with the key that Scrypt
    /// derives from the password. Parameters whose buffers cannot be
    /// addressed are `MalformedHeader`.
    pub fn decrypt_scrypt_aes128cbc(
        logn: u8,
        p: u32,
        r: u32,
        salt: &[u8],
        aes_iv: &[u8; 16],
        password: &[u8],
        ciphertext: &[u8],
    ) -> (res: Result<Vec<u8>, ZffError>)
        ensures
            scrypt_agrees(
                res,
                logn,
                r,
                p,
                spec_scrypt_aes128cbc_decrypt(logn, r, p, salt@, aes_iv@, password@, ciphertext@),
            ),
    {
        if !scrypt_cost_fits(logn, r, p) {
            return Err(ZffError::of_kind(ZffErrorKind::MalformedHeader));
        }
        cipher_result(
            scrypt_aes128cbc_decrypt(logn, r, p, salt, aes_iv, password, ciphertext),
            ZffErrorKind::DecryptionFailed,
        )
    }

    /// Unwraps a ciphertext under AES-256-CBC with the key that Scrypt
    /// derives from the password. Parameters whose buffers cannot be
    /// addressed are `MalformedHeader`.
    pub fn decrypt_scrypt_aes256cbc(
        logn: u8,
        p: u32,
        r: u32,
        salt: &[u8],
        aes_iv: &[u8; 16],
        password: &[u8],
        ciphertext: &[u8],
    ) -> (res: Result<Vec<u8>, ZffError>)
        ensures
            scrypt_agrees(
                res,
                logn,
                r,
                p,
                spec_scrypt_aes256cbc_decrypt(logn, r, p, salt@, aes_iv@, password@, ciphertext@),
            ),
    {
        if !scrypt_cost_fits(logn, r, p) {
            return Err(ZffError::of_kind(ZffErrorKind::MalformedHeader));
        }
        cipher_result(
            scrypt_aes256cbc_decrypt(logn, r, p, salt, aes_iv, password, ciphertext),
            ZffErrorKind::DecryptionFailed,
        )
    }
}

} // verus!
