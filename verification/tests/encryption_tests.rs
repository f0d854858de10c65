use zff::HeaderCoding;
use zff::encryption::{cipher_result, scrypt_cost_fits};
use zff::header::encryption_header::EncryptionHeader;
use zff::header::pbe_header::{KDFParameters, PBEHeader, PBKDF2SHA256Parameters, ScryptParameters};
use zff::{Encryption, EncryptionAlgorithm, KDFScheme, PBEScheme, Reader, ZffErrorKind};

fn wrap_pbkdf2_aes256(password: &[u8], iterations: u32, salt: &[u8], iv: &[u8; 16], key: &[u8]) -> Vec<u8> {
    pkcs5::pbes2::Parameters::pbkdf2_sha256_aes256cbc(iterations, salt, iv)
        .unwrap()
        .encrypt(password, key)
        .unwrap()
}

fn wrap_pbkdf2_aes128(password: &[u8], iterations: u32, salt: &[u8], iv: &[u8; 16], key: &[u8]) -> Vec<u8> {
    pkcs5::pbes2::Parameters::pbkdf2_sha256_aes128cbc(iterations, salt, iv)
        .unwrap()
        .encrypt(password, key)
        .unwrap()
}

fn wrap_scrypt_aes256(password: &[u8], logn: u8, r: u32, p: u32, salt: &[u8], iv: &[u8; 16], key: &[u8]) -> Vec<u8> {
    let params = scrypt::Params::new(logn, r, p, 32).unwrap();
    pkcs5::pbes2::Parameters::scrypt_aes256cbc(params, salt, iv)
        .unwrap()
        .encrypt(password, key)
        .unwrap()
}

fn wrap_scrypt_aes128(password: &[u8], logn: u8, r: u32, p: u32, salt: &[u8], iv: &[u8; 16], key: &[u8]) -> Vec<u8> {
    let params = scrypt::Params::new(logn, r, p, 32).unwrap();
    pkcs5::pbes2::Parameters::scrypt_aes128cbc(params, salt, iv)
        .unwrap()
        .encrypt(password, key)
        .unwrap()
}

fn known_key() -> Vec<u8> {
    (0u8..32).collect()
}

fn pbkdf2_header(wrapped: Vec<u8>, iterations: u32, scheme: PBEScheme) -> EncryptionHeader {
    let parameters = KDFParameters::PBKDF2SHA256Parameters(PBKDF2SHA256Parameters::new(
        iterations,
        vec![0u8; 16],
    ));
    let pbe = PBEHeader::new(1, KDFScheme::PBKDF2SHA256, scheme, parameters, [0u8; 16]);
    EncryptionHeader::new(1, pbe, EncryptionAlgorithm::AES256GCMSIV, wrapped, [5u8; 12])
}

#[test]
fn header_encryption_round_trip() {
    let message = b"the payload of a header".to_vec();
    let nonce = [3u8; 12];
    for (algorithm, key) in [
        (EncryptionAlgorithm::AES128GCMSIV, vec![1u8; 16]),
        (EncryptionAlgorithm::AES256GCMSIV, vec![1u8; 32]),
    ] {
        let sealed = Encryption::encrypt_header(&key, &message, &nonce, &algorithm).unwrap();
        assert_eq!(sealed.len(), message.len() + 16);
        assert_ne!(&sealed[..message.len()], &message[..]);
        let opened = Encryption::decrypt_header(&key, &sealed, &nonce, &algorithm).unwrap();
        assert_eq!(opened, message);
    }
}

#[test]
fn header_encryption_is_fixed_by_its_inputs() {
    let key = [9u8; 32];
    let nonce = [3u8; 12];
    let a = Encryption::encrypt_header(&key, b"abc", &nonce, &EncryptionAlgorithm::AES256GCMSIV)
        .unwrap();
    let b = Encryption::encrypt_header(&key, b"abc", &nonce, &EncryptionAlgorithm::AES256GCMSIV)
        .unwrap();
    assert_eq!(a, b);
    let c = Encryption::encrypt_header(&key, b"abc", &[4u8; 12], &EncryptionAlgorithm::AES256GCMSIV)
        .unwrap();
    assert_ne!(a, c);
}

#[test]
fn a_tampered_ciphertext_does_not_open() {
    let key = [1u8; 32];
    let nonce = [3u8; 12];
    let algorithm = EncryptionAlgorithm::AES256GCMSIV;
    let mut sealed = Encryption::encrypt_header(&key, b"secret", &nonce, &algorithm).unwrap();
    sealed[0] ^= 1;
    let err = Encryption::decrypt_header(&key, &sealed, &nonce, &algorithm).unwrap_err();
    assert_eq!(err.get_kind(), &ZffErrorKind::DecryptionFailed);
    sealed[0] ^= 1;
    let err = Encryption::decrypt_header(&[2u8; 32], &sealed, &nonce, &algorithm).unwrap_err();
    assert_eq!(err.get_kind(), &ZffErrorKind::DecryptionFailed);
    let err = Encryption::decrypt_header(&key, &sealed, &[4u8; 12], &algorithm).unwrap_err();
    assert_eq!(err.get_kind(), &ZffErrorKind::DecryptionFailed);
    let err = Encryption::decrypt_header(&key, &[1, 2, 3], &nonce, &algorithm).unwrap_err();
    assert_eq!(err.get_kind(), &ZffErrorKind::DecryptionFailed);
}

#[test]
fn a_key_of_the_wrong_length_is_refused() {
    let nonce = [3u8; 12];
    let err = Encryption::encrypt_header(&[1u8; 32], b"x", &nonce, &EncryptionAlgorithm::AES128GCMSIV)
        .unwrap_err();
    assert_eq!(err.get_kind(), &ZffErrorKind::EncryptionFailed);
    let err = Encryption::encrypt_header(&[1u8; 16], b"x", &nonce, &EncryptionAlgorithm::AES256GCMSIV)
        .unwrap_err();
    assert_eq!(err.get_kind(), &ZffErrorKind::EncryptionFailed);
    let err = Encryption::decrypt_header(&[], &[0u8; 16], &nonce, &EncryptionAlgorithm::AES256GCMSIV)
        .unwrap_err();
    assert_eq!(err.get_kind(), &ZffErrorKind::DecryptionFailed);
}

#[test]
fn chunk_nonce_is_four_zero_bytes_and_the_number() {
    assert_eq!(
        Encryption::gen_crypto_nonce(0x0102030405060708),
        [0, 0, 0, 0, 8, 7, 6, 5, 4, 3, 2, 1]
    );
    assert_eq!(Encryption::gen_crypto_nonce(0), [0u8; 12]);
    assert_eq!(Encryption::gen_crypto_nonce(1), [0, 0, 0, 0, 1, 0, 0, 0, 0, 0, 0, 0]);
    assert_ne!(Encryption::gen_crypto_nonce(1), Encryption::gen_crypto_nonce(2));
}

#[test]
fn chunk_encryption_round_trip() {
    let key = [7u8; 16];
    let algorithm = EncryptionAlgorithm::AES128GCMSIV;
    let sealed = Encryption::encrypt_message(&key, b"chunk data", 7, &algorithm).unwrap();
    let by_header =
        Encryption::encrypt_header(&key, b"chunk data", &Encryption::gen_crypto_nonce(7), &algorithm)
            .unwrap();
    assert_eq!(sealed, by_header);
    assert_eq!(Encryption::decrypt_message(&key, &sealed, 7, &algorithm).unwrap(), b"chunk data");
    let err = Encryption::decrypt_message(&key, &sealed, 8, &algorithm).unwrap_err();
    assert_eq!(err.get_kind(), &ZffErrorKind::DecryptionFailed);
}

#[test]
fn a_cipher_that_gave_nothing_is_an_error_of_the_given_kind() {
    assert_eq!(cipher_result(Some(vec![1]), ZffErrorKind::DecryptionFailed).unwrap(), vec![1]);
    let err = cipher_result(None, ZffErrorKind::DecryptionFailed).unwrap_err();
    assert_eq!(err.get_kind(), &ZffErrorKind::DecryptionFailed);
    let err = cipher_result(None, ZffErrorKind::EncryptionFailed).unwrap_err();
    assert_eq!(err.get_kind(), &ZffErrorKind::EncryptionFailed);
}

#[test]
fn pbe_unwrap_pbkdf2_aes256() {
    let key = known_key();
    let wrapped = wrap_pbkdf2_aes256(b"hunter2", 100_000, &[0u8; 16], &[0u8; 16], &key);
    assert_eq!(wrapped.len(), 48);
    let header = pbkdf2_header(wrapped, 100_000, PBEScheme::AES256CBC);
    assert_eq!(header.decrypt_encryption_key(b"hunter2").unwrap(), key);
}

#[test]
fn pbe_unwrap_pbkdf2_aes128() {
    let key = known_key();
    let wrapped = wrap_pbkdf2_aes128(b"hunter2", 1000, &[0u8; 16], &[0u8; 16], &key);
    let header = pbkdf2_header(wrapped.clone(), 1000, PBEScheme::AES128CBC);
    assert_eq!(header.decrypt_encryption_key(b"hunter2").unwrap(), key);
    let other = pbkdf2_header(wrapped, 1000, PBEScheme::AES256CBC);
    assert_ne!(other.decrypt_encryption_key(b"hunter2").ok(), Some(key));
}

#[test]
fn pbe_unwrap_scrypt() {
    let key = known_key();
    let salt = vec![1u8; 32];
    let iv = [2u8; 16];
    let wrapped = wrap_scrypt_aes256(b"hunter2", 4, 8, 1, &salt, &iv, &key);
    let parameters = KDFParameters::ScryptParameters(ScryptParameters::new(4, 8, 1, salt.clone()));
    let pbe = PBEHeader::new(1, KDFScheme::Scrypt, PBEScheme::AES256CBC, parameters, iv);
    let header = EncryptionHeader::new(1, pbe, EncryptionAlgorithm::AES128GCMSIV, wrapped, [0u8; 12]);
    assert_eq!(header.decrypt_encryption_key(b"hunter2").unwrap(), key);
    let wrapped = wrap_scrypt_aes128(b"hunter2", 4, 8, 1, &salt, &iv, &key);
    assert_eq!(
        Encryption::decrypt_scrypt_aes128cbc(4, 1, 8, &salt, &iv, b"hunter2", &wrapped).unwrap(),
        key
    );
}

#[test]
fn pbe_unwrap_fails_on_a_broken_ciphertext() {
    let key = known_key();
    let wrapped = wrap_pbkdf2_aes256(b"hunter2", 1000, &[0u8; 16], &[0u8; 16], &key);
    let header = pbkdf2_header(wrapped[..47].to_vec(), 1000, PBEScheme::AES256CBC);
    let err = header.decrypt_encryption_key(b"hunter2").unwrap_err();
    assert_eq!(err.get_kind(), &ZffErrorKind::DecryptionFailed);
    let header = pbkdf2_header(vec![], 1000, PBEScheme::AES256CBC);
    let err = header.decrypt_encryption_key(b"hunter2").unwrap_err();
    assert_eq!(err.get_kind(), &ZffErrorKind::DecryptionFailed);
    let err = Encryption::decrypt_pbkdf2sha256_aes256cbc(
        200_000_000,
        &[0u8; 16],
        &[0u8; 16],
        b"hunter2",
        &wrapped,
    )
    .unwrap_err();
    assert_eq!(err.get_kind(), &ZffErrorKind::DecryptionFailed);
}

#[test]
fn kdf_scheme_and_parameters_must_agree() {
    let scrypt = KDFParameters::ScryptParameters(ScryptParameters::new(4, 8, 1, vec![0u8; 16]));
    let pbe = PBEHeader::new(1, KDFScheme::PBKDF2SHA256, PBEScheme::AES256CBC, scrypt, [0u8; 16]);
    let header = EncryptionHeader::new(1, pbe, EncryptionAlgorithm::AES256GCMSIV, vec![0u8; 48], [0u8; 12]);
    let err = header.decrypt_encryption_key(b"hunter2").unwrap_err();
    assert_eq!(err.get_kind(), &ZffErrorKind::MalformedHeader);
    let pbkdf2 =
        KDFParameters::PBKDF2SHA256Parameters(PBKDF2SHA256Parameters::new(10, vec![0u8; 16]));
    let pbe = PBEHeader::new(1, KDFScheme::Scrypt, PBEScheme::AES128CBC, pbkdf2, [0u8; 16]);
    let header = EncryptionHeader::new(1, pbe, EncryptionAlgorithm::AES256GCMSIV, vec![0u8; 48], [0u8; 12]);
    let err = header.decrypt_encryption_key(b"hunter2").unwrap_err();
    assert_eq!(err.get_kind(), &ZffErrorKind::MalformedHeader);
}

#[test]
fn scrypt_cost_that_cannot_be_addressed_is_malformed() {
    assert!(scrypt_cost_fits(4, 8, 1));
    assert!(scrypt_cost_fits(0, 0, 0));
    assert!(scrypt_cost_fits(55, 1, 1));
    assert!(!scrypt_cost_fits(56, 1, 1));
    assert!(!scrypt_cost_fits(255, 1, 1));
    assert!(!scrypt_cost_fits(40, u32::MAX, 1));
    assert!(!scrypt_cost_fits(1, u32::MAX, u32::MAX));
    assert!(scrypt_cost_fits(1, 1 << 20, 1 << 20));
    let err = Encryption::decrypt_scrypt_aes256cbc(60, 1, 8, &[0u8; 16], &[0u8; 16], b"pw", &[0u8; 16])
        .unwrap_err();
    assert_eq!(err.get_kind(), &ZffErrorKind::MalformedHeader);
    let err = Encryption::decrypt_scrypt_aes256cbc(4, 1, 0, &[0u8; 16], &[0u8; 16], b"pw", &[0u8; 16])
        .unwrap_err();
    assert_eq!(err.get_kind(), &ZffErrorKind::DecryptionFailed);
}

#[test]
fn scheme_selectors() {
    assert_eq!(EncryptionAlgorithm::AES128GCMSIV.selector(), 0);
    assert_eq!(EncryptionAlgorithm::AES256GCMSIV.selector(), 1);
    assert_eq!(EncryptionAlgorithm::from_selector(1), Some(EncryptionAlgorithm::AES256GCMSIV));
    assert_eq!(EncryptionAlgorithm::from_selector(2), None);
    assert_eq!(KDFScheme::PBKDF2SHA256.selector(), 0);
    assert_eq!(KDFScheme::Scrypt.selector(), 1);
    assert_eq!(KDFScheme::from_selector(0), Some(KDFScheme::PBKDF2SHA256));
    assert_eq!(KDFScheme::from_selector(9), None);
    assert_eq!(PBEScheme::AES128CBC.selector(), 0);
    assert_eq!(PBEScheme::AES256CBC.selector(), 1);
    assert_eq!(PBEScheme::from_selector(1), Some(PBEScheme::AES256CBC));
    assert_eq!(PBEScheme::from_selector(2), None);
}

#[test]
fn kdf_parameters_come_back() {
    let pbkdf2 =
        KDFParameters::PBKDF2SHA256Parameters(PBKDF2SHA256Parameters::new(100_000, vec![1, 2, 3]));
    let encoded = pbkdf2.encode_directly();
    assert_eq!(
        encoded,
        vec![
            0x6b, 0x64, 0x66, 0x70, 27, 0, 0, 0, 0, 0, 0, 0, 0xa0, 0x86, 0x01, 0x00, 3, 0, 0, 0,
            0, 0, 0, 0, 1, 2, 3
        ]
    );
    assert_eq!(KDFParameters::decode_at(&encoded, 0).unwrap(), (pbkdf2, 27));
    let scrypt = KDFParameters::ScryptParameters(ScryptParameters::new(15, 8, 1, vec![9; 32]));
    let encoded = scrypt.encode_directly();
    assert_eq!(&encoded[..4], &[0x6b, 0x64, 0x66, 0x73]);
    assert_eq!(encoded.len(), 29 + 32);
    assert_eq!(KDFParameters::decode_at(&encoded, 0).unwrap(), (scrypt, 61));
    let err = KDFParameters::decode_at(&[0x6b, 0x64, 0x66, 0x71, 12, 0, 0, 0, 0, 0, 0, 0], 0)
        .unwrap_err();
    assert_eq!(err.get_kind(), &ZffErrorKind::HeaderDecodeMismatchIdentifier);
}

#[test]
fn pbe_header_comes_back() {
    let parameters = KDFParameters::ScryptParameters(ScryptParameters::new(15, 8, 1, vec![9; 32]));
    let header = PBEHeader::new(3, KDFScheme::Scrypt, PBEScheme::AES128CBC, parameters.clone(), [4u8; 16]);
    let encoded = header.encode_directly();
    assert_eq!(&encoded[..4], &[0x7a, 0x66, 0x66, 0x70]);
    assert_eq!(encoded.len(), 31 + 61);
    assert_eq!(&encoded[12..15], &[3, 1, 0]);
    let mut reader = Reader::new(encoded.clone());
    let decoded = PBEHeader::decode_directly(&mut reader).unwrap();
    assert_eq!(reader.stream_position(), encoded.len() as u64);
    assert_eq!(decoded, header);
    assert_eq!(decoded.kdf_scheme(), &KDFScheme::Scrypt);
    assert_eq!(decoded.encryption_scheme(), &PBEScheme::AES128CBC);
    assert_eq!(decoded.kdf_parameters(), &parameters);
    assert_eq!(decoded.nonce(), &[4u8; 16]);
    assert_eq!(decoded.version(), 3);
}

#[test]
fn pbe_header_with_unknown_schemes_is_malformed() {
    let parameters =
        KDFParameters::PBKDF2SHA256Parameters(PBKDF2SHA256Parameters::new(1, vec![]));
    let header = PBEHeader::new(1, KDFScheme::PBKDF2SHA256, PBEScheme::AES128CBC, parameters, [0u8; 16]);
    let mut content = header.encode_header();
    content[1] = 2;
    let err = PBEHeader::decode_content(content.clone()).unwrap_err();
    assert_eq!(err.get_kind(), &ZffErrorKind::MalformedHeader);
    content[1] = 0;
    content[2] = 7;
    let err = PBEHeader::decode_content(content.clone()).unwrap_err();
    assert_eq!(err.get_kind(), &ZffErrorKind::MalformedHeader);
    content[2] = 1;
    content.pop();
    let err = PBEHeader::decode_content(content).unwrap_err();
    assert_eq!(err.get_kind(), &ZffErrorKind::MalformedInput);
}

#[test]
fn encryption_header_comes_back() {
    let header = pbkdf2_header(vec![0xaa; 48], 100_000, PBEScheme::AES256CBC);
    let encoded = header.encode_directly();
    assert_eq!(&encoded[..4], &[0x7a, 0x66, 0x66, 0x65]);
    let (decoded, end) = EncryptionHeader::decode_at(&encoded, 0).unwrap();
    assert_eq!(end, encoded.len());
    assert_eq!(decoded, header);
    assert_eq!(decoded.algorithm(), &EncryptionAlgorithm::AES256GCMSIV);
    assert_eq!(decoded.nonce(), &[5u8; 12]);
    assert_eq!(decoded.encrypted_encryption_key(), &vec![0xaa; 48]);
    assert_eq!(decoded.pbe_header(), header.pbe_header());
    assert_eq!(decoded.version(), 1);
    let mut reader = Reader::new(encoded.clone());
    assert_eq!(EncryptionHeader::decode_directly(&mut reader).unwrap(), header);
    assert_eq!(reader.stream_position(), encoded.len() as u64);
}

#[test]
fn encryption_header_with_unknown_cipher_is_refused() {
    let header = pbkdf2_header(vec![0xaa; 48], 10, PBEScheme::AES256CBC);
    let mut content = header.encode_header();
    let selector_at = 1 + header.pbe_header().encode_directly().len();
    assert_eq!(content[selector_at], 1);
    content[selector_at] = 2;
    let err = EncryptionHeader::decode_content(content.clone()).unwrap_err();
    assert_eq!(err.get_kind(), &ZffErrorKind::UnknownEncryptionAlgorithm);
    content[selector_at] = 0;
    let decoded = EncryptionHeader::decode_content(content.clone()).unwrap();
    assert_eq!(decoded.algorithm(), &EncryptionAlgorithm::AES128GCMSIV);
    content.pop();
    let err = EncryptionHeader::decode_content(content).unwrap_err();
    assert_eq!(err.get_kind(), &ZffErrorKind::MalformedInput);
}
