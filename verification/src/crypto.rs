use vstd::prelude::*;
use vstd::utf8::{valid_utf8, decode_utf8};
use crate::errors::Errors;

verus! {

// Every cryptographic primitive the protocol uses comes from openssl; the
// calls are gathered here behind trusted declarations. RSA keys and big
// numbers stay opaque: nothing in this library reads their insides.

#[verifier::external_type_specification]
#[verifier::external_body]
#[verifier::reject_recursive_types(T)]
pub struct ExRsa<T>(openssl::rsa::Rsa<T>);

#[verifier::external_type_specification]
#[verifier::external_body]
pub struct ExPrivate(openssl::pkey::Private);

#[verifier::external_type_specification]
#[verifier::external_body]
pub struct ExPublic(openssl::pkey::Public);

#[verifier::external_type_specification]
#[verifier::external_body]
pub struct ExBigNum(openssl::bn::BigNum);

#[verifier::external_type_specification]
#[verifier::external_body]
pub struct ExRsaPrivateKeyBuilder(openssl::rsa::RsaPrivateKeyBuilder);

/// The 32-byte key PBKDF2-HMAC-SHA256 derives from a passphrase, a salt and
/// an iteration count: a function of those arguments alone.
pub uninterp spec fn spec_pbkdf2_hmac_sha256(pass: Seq<u8>, salt: Seq<u8>, iterations: usize) -> Seq<u8>;

/// The SHA-256 digest of `data`.
pub uninterp spec fn spec_sha256(data: Seq<u8>) -> Seq<u8>;

/// The AES-256-CBC (PKCS#7 padded) encryption of `data` under `key` and `iv`.
pub uninterp spec fn spec_aes256_cbc_encrypt(key: Seq<u8>, iv: Seq<u8>, data: Seq<u8>) -> Seq<u8>;

/// Whether the password-encrypted PEM text opens under the passphrase and
/// yields a private key: a function of the two byte strings alone.
pub uninterp spec fn spec_pem_private_key_opens(pem: Seq<u8>, passphrase: Seq<u8>) -> bool;

/// Whether the PEM text parses as an RSA public key.
pub uninterp spec fn spec_pem_public_key_parses(pem: Seq<u8>) -> bool;

/// The longest input the cipher and PEM calls take: their C layer holds
/// lengths in a 32-bit signed integer and aborts past it.
pub const CRYPTO_INPUT_LIMIT: usize = 0x7fff_ffff;

/// The AES-256-CBC decryption of `data` under `key` and `iv`; `None` where
/// the cipher rejects the input (bad key length, truncation, bad padding).
pub uninterp spec fn spec_aes256_cbc_decrypt(key: Seq<u8>, iv: Seq<u8>, data: Seq<u8>) -> Option<Seq<u8>>;

/// Relies on openssl's `pkcs5::pbkdf2_hmac` with SHA-256 and a 32-byte
/// output buffer; the bounds keep its internal conversions from panicking,
/// and within them the derivation always succeeds (allocation aside).
#[verifier::external_body]
pub(crate) fn pbkdf2_hmac_sha256(pass: &[u8], salt: &[u8], iterations: usize) -> (r: Result<
    Vec<u8>,
    Errors,
>)
    requires
        pass@.len() <= 0x7fff_ffff,
        salt@.len() <= 0x7fff_ffff,
        iterations <= 0x7fff_ffff,
    ensures
        r is Ok,
        (r matches Ok(v) ==> v@ == spec_pbkdf2_hmac_sha256(pass@, salt@, iterations) && v@.len()
            == 32),
{
    let mut key = vec![0u8; 32];
    match openssl::pkcs5::pbkdf2_hmac(
        pass,
        salt,
        iterations,
        openssl::hash::MessageDigest::sha256(),
        &mut key,
    ) {
        Ok(()) => Ok(key),
        Err(e) => Err(Errors::EncryptionError(format!("{e}"))),
    }
}

/// Relies on openssl's `sha::sha256`, which never fails.
#[verifier::external_body]
pub(crate) fn sha256(data: &[u8]) -> (r: Vec<u8>)
    ensures
        r@ == spec_sha256(data@),
        r@.len() == 32,
{
    openssl::sha::sha256(data).to_vec()
}

/// Relies on openssl's `symm::encrypt` with `Cipher::aes_256_cbc`: the
/// produced ciphertext decrypts back to `data` under the same key and IV,
/// the defining round trip of the cipher; it is one padded block longer than
/// the plaintext at most, and a 32-byte key with a 16-byte IV is never
/// refused (the cipher's own parameters; allocation aside). The length bound
/// keeps the cipher's internal conversion from aborting.
#[verifier::external_body]
pub(crate) fn aes256_cbc_encrypt(key: &[u8], iv: &[u8], data: &[u8]) -> (r: Result<Vec<u8>, Errors>)
    requires
        data@.len() <= CRYPTO_INPUT_LIMIT,
    ensures
        (r matches Ok(ct) ==> ct@ == spec_aes256_cbc_encrypt(key@, iv@, data@)),
        (r matches Ok(ct) ==> spec_aes256_cbc_decrypt(key@, iv@, ct@) == Some(data@)),
        (r matches Ok(ct) ==> ct@.len() <= data@.len() + 16),
        (key@.len() == 32 && iv@.len() == 16 ==> r is Ok),
        (r matches Err(e) ==> e is EncryptionError),
{
    openssl::symm::encrypt(openssl::symm::Cipher::aes_256_cbc(), key, Some(iv), data)
        .map_err(|e| Errors::EncryptionError(format!("{e}")))
}

/// Relies on openssl's `symm::decrypt` with `Cipher::aes_256_cbc`: a pure
/// function of key, IV and ciphertext, failing exactly where the cipher
/// rejects the input. The length bound keeps the cipher's internal
/// conversion from aborting.
#[verifier::external_body]
pub(crate) fn aes256_cbc_decrypt(key: &[u8], iv: &[u8], data: &[u8]) -> (r: Result<Vec<u8>, Errors>)
    requires
        data@.len() <= CRYPTO_INPUT_LIMIT,
    ensures
        (r matches Ok(pt) ==> spec_aes256_cbc_decrypt(key@, iv@, data@) == Some(pt@)),
        (r matches Err(e) ==> e is EncryptionError && spec_aes256_cbc_decrypt(key@, iv@, data@)
            is None),
{
    openssl::symm::decrypt(openssl::symm::Cipher::aes_256_cbc(), key, Some(iv), data)
        .map_err(|e| Errors::EncryptionError(format!("{e}")))
}

/// Relies on openssl's `Rsa::private_key_from_pem_passphrase`: success is a
/// function of the PEM text and the passphrase alone, named by
/// `spec_pem_private_key_opens`. The bounds keep the call from aborting: its
/// C layer refuses PEM text past a 32-bit length and a passphrase holding an
/// interior NUL byte.
#[verifier::external_body]
pub(crate) fn rsa_private_from_pem_passphrase(pem: &[u8], passphrase: &[u8]) -> (r: Result<
    openssl::rsa::Rsa<openssl::pkey::Private>,
    Errors,
>)
    requires
        pem@.len() <= CRYPTO_INPUT_LIMIT,
        !passphrase@.contains(0u8),
    ensures
        (r is Ok <==> spec_pem_private_key_opens(pem@, passphrase@)),
        (r matches Err(e) ==> e is EncryptionError),
{
    openssl::rsa::Rsa::private_key_from_pem_passphrase(pem, passphrase)
        .map_err(|e| Errors::EncryptionError(format!("{e}")))
}

/// Relies on openssl's `Rsa::public_key_from_pem`: success is a function of
/// the PEM text alone, named by `spec_pem_public_key_parses`. The length
/// bound keeps its C layer from aborting.
#[verifier::external_body]
pub(crate) fn rsa_public_from_pem(pem: &[u8]) -> (r: Result<
    openssl::rsa::Rsa<openssl::pkey::Public>,
    Errors,
>)
    requires
        pem@.len() <= CRYPTO_INPUT_LIMIT,
    ensures
        (r is Ok <==> spec_pem_public_key_parses(pem@)),
        (r matches Err(e) ==> e is EncryptionError),
{
    openssl::rsa::Rsa::public_key_from_pem(pem).map_err(|e| Errors::EncryptionError(format!("{e}")))
}

/// Relies on openssl's `BigNum::from_slice`; the length bound keeps its
/// internal assertion from panicking, and within it the conversion always
/// succeeds (allocation aside).
#[verifier::external_body]
pub(crate) fn bignum_from_bytes(b: &[u8]) -> (r: Result<openssl::bn::BigNum, Errors>)
    requires
        b@.len() <= 0x7fff_ffff,
    ensures
        r is Ok,
{
    openssl::bn::BigNum::from_slice(b).map_err(|e| Errors::EncryptionError(format!("{e}")))
}

/// Relies on openssl's `RsaPrivateKeyBuilder::new`, which only installs the
/// numbers and fails on nothing but allocation.
#[verifier::external_body]
pub(crate) fn rsa_builder_new(
    n: openssl::bn::BigNum,
    e: openssl::bn::BigNum,
    d: openssl::bn::BigNum,
) -> (r: Result<openssl::rsa::RsaPrivateKeyBuilder, Errors>)
    ensures
        r is Ok,
{
    openssl::rsa::RsaPrivateKeyBuilder::new(n, e, d)
        .map_err(|e| Errors::EncryptionError(format!("{e}")))
}

/// Relies on openssl's `RsaPrivateKeyBuilder::set_factors`, which only
/// installs the numbers and never fails.
#[verifier::external_body]
pub(crate) fn rsa_builder_set_factors(
    b: openssl::rsa::RsaPrivateKeyBuilder,
    p: openssl::bn::BigNum,
    q: openssl::bn::BigNum,
) -> (r: Result<openssl::rsa::RsaPrivateKeyBuilder, Errors>)
    ensures
        r is Ok,
{
    b.set_factors(p, q).map_err(|e| Errors::EncryptionError(format!("{e}")))
}

/// Relies on openssl's `RsaPrivateKeyBuilder::build`, which never fails.
#[verifier::external_body]
pub(crate) fn rsa_builder_build(b: openssl::rsa::RsaPrivateKeyBuilder) -> (r: openssl::rsa::Rsa<
    openssl::pkey::Private,
>) {
    b.build()
}

/// Relies on openssl's `Rsa::from_public_components`, which only installs
/// the numbers and fails on nothing but allocation.
#[verifier::external_body]
pub(crate) fn rsa_public_from_components(n: openssl::bn::BigNum, e: openssl::bn::BigNum) -> (r:
    Result<openssl::rsa::Rsa<openssl::pkey::Public>, Errors>)
    ensures
        r is Ok,
{
    openssl::rsa::Rsa::from_public_components(n, e)
        .map_err(|e| Errors::EncryptionError(format!("{e}")))
}

/// Relies on openssl's `Rsa::private_decrypt` with `Padding::PKCS1_OAEP`;
/// the buffer it demands is allocated at the key's size, and the length
/// bound keeps its internal assertion from panicking.
#[verifier::external_body]
pub(crate) fn rsa_private_decrypt_oaep(
    key: &openssl::rsa::Rsa<openssl::pkey::Private>,
    data: &[u8],
) -> (r: Result<Vec<u8>, Errors>)
    requires
        data@.len() <= 0x7fff_ffff,
    ensures
        (r matches Err(e) ==> e is EncryptionError),
{
    let mut buf = vec![0u8; key.size() as usize];
    match key.private_decrypt(data, &mut buf, openssl::rsa::Padding::PKCS1_OAEP) {
        Ok(n) => {
            buf.truncate(n);
            Ok(buf)
        },
        Err(e) => Err(Errors::EncryptionError(format!("{e}"))),
    }
}

/// Relies on openssl's `Rsa::private_encrypt` with `Padding::PKCS1_OAEP`,
/// as the session uses it to re-wrap data under its own key.
#[verifier::external_body]
pub(crate) fn rsa_private_encrypt_oaep(
    key: &openssl::rsa::Rsa<openssl::pkey::Private>,
    data: &[u8],
) -> (r: Result<Vec<u8>, Errors>)
    requires
        data@.len() <= 0x7fff_ffff,
    ensures
        (r matches Err(e) ==> e is EncryptionError),
{
    let mut buf = vec![0u8; key.size() as usize];
    match key.private_encrypt(data, &mut buf, openssl::rsa::Padding::PKCS1_OAEP) {
        Ok(n) => {
            buf.truncate(n);
            Ok(buf)
        },
        Err(e) => Err(Errors::EncryptionError(format!("{e}"))),
    }
}

/// Relies on openssl's `Rsa::public_decrypt` with `Padding::NONE`: the raw
/// RSA operation the server's hash-signature scheme uses.
#[verifier::external_body]
pub(crate) fn rsa_public_decrypt_raw(
    key: &openssl::rsa::Rsa<openssl::pkey::Public>,
    data: &[u8],
) -> (r: Result<Vec<u8>, Errors>)
    requires
        data@.len() <= 0x7fff_ffff,
    ensures
        (r matches Err(e) ==> e is EncryptionError),
{
    let mut buf = vec![0u8; key.size() as usize];
    match key.public_decrypt(data, &mut buf, openssl::rsa::Padding::NONE) {
        Ok(n) => {
            buf.truncate(n);
            Ok(buf)
        },
        Err(e) => Err(Errors::EncryptionError(format!("{e}"))),
    }
}

/// Relies on openssl's `RsaRef::n` and `BigNumRef::to_vec`: the big-endian
/// bytes of the key's public modulus.
#[verifier::external_body]
pub(crate) fn rsa_private_modulus(key: &openssl::rsa::Rsa<openssl::pkey::Private>) -> (r: Vec<u8>) {
    key.n().to_vec()
}

/// Relies on std's `String::from_utf8`: it succeeds exactly on valid UTF-8
/// and returns its decoding, the functions vstd's `utf8` module specifies.
#[verifier::external_body]
pub(crate) fn string_from_utf8(v: Vec<u8>) -> (r: Result<String, Errors>)
    ensures
        (r matches Ok(s) ==> valid_utf8(v@) && s@ == decode_utf8(v@)),
        (r matches Err(e) ==> e is StringDecodeError && !valid_utf8(v@)),
{
    String::from_utf8(v).map_err(|e| Errors::StringDecodeError(format!("{e}")))
}

} // verus!
