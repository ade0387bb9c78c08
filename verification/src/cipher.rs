use vstd::prelude::*;
use vstd::string::StringExecFns;
use crate::crypto::{
    aes256_cbc_decrypt, aes256_cbc_encrypt, spec_aes256_cbc_decrypt, spec_aes256_cbc_encrypt,
    CRYPTO_INPUT_LIMIT,
};
use crate::errors::Errors;

verus! {

/// The stateless AES-256-CBC primitive every payload (message text, file
/// bytes, key envelopes) goes through. The cipher demands an initialization
/// vector; a payload that arrives without one cannot be decrypted and is
/// reported as a cipher failure rather than silently given a zero IV. An
/// input past the cipher's 32-bit length limit is refused the same way.
pub struct PayloadCipher;

/// What decrypting `data` under `key` and an optional IV denotes: `None`
/// without an IV, `None` past the cipher's input limit, the cipher's
/// decryption otherwise.
pub open spec fn spec_payload_decrypt(key: Seq<u8>, iv: Option<Seq<u8>>, data: Seq<u8>) -> Option<
    Seq<u8>,
> {
    match iv {
        Some(v) => if data.len() <= CRYPTO_INPUT_LIMIT {
            spec_aes256_cbc_decrypt(key, v, data)
        } else {
            None
        },
        None => None,
    }
}

impl PayloadCipher {
    /// Encrypts `data`. The contract states the round trip — whatever
    /// ciphertext comes back decrypts to `data` under the same key and IV —
    /// and owes success for a 32-byte key, a 16-byte IV and an in-bounds
    /// plaintext.
    pub fn encrypt(key: &[u8], iv: &[u8], data: &[u8]) -> (r: Result<Vec<u8>, Errors>)
        ensures
            (r matches Ok(ct) ==> ct@ == spec_aes256_cbc_encrypt(key@, iv@, data@)),
            (r matches Ok(ct) ==> spec_payload_decrypt(key@, Some(iv@), ct@) == Some(data@)),
            (key@.len() == 32 && iv@.len() == 16 && data@.len() + 16 <= CRYPTO_INPUT_LIMIT
                ==> r is Ok),
            (r matches Err(e) ==> e is EncryptionError),
    {
        if data.len() > CRYPTO_INPUT_LIMIT - 16 {
            return Err(Errors::EncryptionError(String::from_str("plaintext is too long")));
        }
        aes256_cbc_encrypt(key, iv, data)
    }

    /// Decrypts `data`; the result is exactly `spec_payload_decrypt`, an
    /// `EncryptionError` where that is `None` (a missing IV, an over-long
    /// input, or a ciphertext the key does not open).
    pub fn decrypt(key: &[u8], iv: Option<&Vec<u8>>, data: &[u8]) -> (r: Result<Vec<u8>, Errors>)
        ensures
            (r matches Ok(pt) ==> spec_payload_decrypt(key@, spec_iv_view(iv), data@) == Some(
                pt@,
            )),
            (r matches Err(e) ==> e is EncryptionError && spec_payload_decrypt(
                key@,
                spec_iv_view(iv),
                data@,
            ) is None),
            (spec_payload_decrypt(key@, spec_iv_view(iv), data@) matches Some(pt) ==> (
            r matches Ok(v) && v@ == pt)),
    {
        match iv {
            Some(v) => {
                if data.len() > CRYPTO_INPUT_LIMIT {
                    return Err(
                        Errors::EncryptionError(String::from_str("ciphertext is too long")),
                    );
                }
                aes256_cbc_decrypt(key, v.as_slice(), data)
            },
            None => Err(
                Errors::EncryptionError(
                    String::from_str("an initialization vector is required and none was given"),
                ),
            ),
        }
    }
}

/// The view of an optional IV argument.
pub open spec fn spec_iv_view(iv: Option<&Vec<u8>>) -> Option<Seq<u8>> {
    match iv {
        Some(v) => Some(v@),
        None => None,
    }
}

} // verus!
