use vstd::prelude::*;
use vstd::string::StrSliceExecFns;
use vstd::string::StringExecFns;
use crate::b64::{b64_standard_decode, spec_b64_standard_decode};
use crate::crypto::{rsa_private_decrypt_oaep, rsa_private_encrypt_oaep, rsa_private_modulus};
use crate::errors::Errors;
use crate::strutil::{spec_has_prefix, starts_with};
use rand::Rng;

verus! {

/// Relies on rand's `Rng::sample_iter` over `Alphanumeric`: `len` characters
/// drawn at random, so nothing but the length is stated.
#[verifier::external_body]
fn random_alphanumeric(len: usize) -> (r: String)
    ensures
        r@.len() == len,
{
    rand::rng().sample_iter(&rand::distr::Alphanumeric).take(len).map(char::from).collect()
}

/// The session's decrypted RSA key material: one pair for encryption and one
/// for signing, recovered once from the server's envelopes and read-only
/// afterwards. The keys are opaque handles of the crypto library.
pub struct EncryptionState {
    private_key: openssl::rsa::Rsa<openssl::pkey::Private>,
    public_key: openssl::rsa::Rsa<openssl::pkey::Public>,
    private_signing_key: openssl::rsa::Rsa<openssl::pkey::Private>,
    public_signing_key: openssl::rsa::Rsa<openssl::pkey::Public>,
}

impl EncryptionState {
    pub fn new(
        private_encryption_key: openssl::rsa::Rsa<openssl::pkey::Private>,
        public_encryption_key: openssl::rsa::Rsa<openssl::pkey::Public>,
        private_signing_key: openssl::rsa::Rsa<openssl::pkey::Private>,
        public_signing_key: openssl::rsa::Rsa<openssl::pkey::Public>,
    ) -> Self {
        Self {
            private_key: private_encryption_key,
            public_key: public_encryption_key,
            private_signing_key,
            public_signing_key,
        }
    }

    /// Base64-decodes a wrapped key and RSA-OAEP-unwraps it with the
    /// session's private encryption key. A field that is not base64 is a
    /// `Base64Error`; a wrapped key the private key cannot open is an
    /// `EncryptionError`.
    pub fn decrypt(&self, key: &str) -> (r: Result<Vec<u8>, Errors>)
        ensures
            (spec_b64_standard_decode(key@) is None ==> (r matches Err(e) && e is Base64Error)),
            (r matches Err(e) ==> e is Base64Error || e is EncryptionError),
            (r matches Err(e) && e is Base64Error ==> spec_b64_standard_decode(key@) is None),
    {
        let encrypted_data = b64_standard_decode(key)?;
        if encrypted_data.len() > 0x7fff_ffff {
            return Err(
                Errors::EncryptionError(String::from_str("wrapped key is too long to decrypt")),
            );
        }
        rsa_private_decrypt_oaep(&self.private_key, encrypted_data.as_slice())
    }

    /// Asks the RSA primitive to encrypt `data` under the session's private
    /// key with OAEP padding, the optional private-key re-encryption path a
    /// read-only client never needs. The cipher itself refuses OAEP under a
    /// private key, so in practice every call comes back an
    /// `EncryptionError`; the request is carried as the session makes it.
    pub fn encrypt(&self, data: &Vec<u8>) -> (r: Result<Vec<u8>, Errors>)
        ensures
            (r matches Err(e) ==> e is EncryptionError),
    {
        if data.len() > 0x7fff_ffff {
            return Err(Errors::EncryptionError(String::from_str("data is too long to encrypt")));
        }
        rsa_private_encrypt_oaep(&self.private_key, data.as_slice())
    }

    /// The big-endian bytes of the encryption key's public modulus.
    pub fn public_modulus(&self) -> Vec<u8> {
        rsa_private_modulus(&self.private_key)
    }

    /// Borrows the private encryption key, as the key-encryption-key unwrap
    /// step of the signing envelope needs it.
    pub fn private_encryption_key(&self) -> &openssl::rsa::Rsa<openssl::pkey::Private> {
        &self.private_key
    }
}

/// Connection coordinates: where the API lives and how the session
/// authenticates to it.
pub struct State {
    pub base_url: String,
    pub device_id: String,
    pub client_key: Option<String>,
}

/// Strips every leading `/` from a path.
pub open spec fn spec_trim_slashes(s: Seq<char>) -> Seq<char>
    decreases s.len(),
{
    if s.len() > 0 && s[0] == '/' {
        spec_trim_slashes(s.skip(1))
    } else {
        s
    }
}

/// The URL `build_url` assembles: the base, exactly one `/`, the path.
pub open spec fn spec_build_url(base: Seq<char>, path: Seq<char>) -> Seq<char> {
    (if base.len() > 0 && base[base.len() - 1] == '/' {
        base
    } else {
        base + seq!['/']
    }) + spec_trim_slashes(path)
}

impl State {
    /// Joins the base URL and `path` with exactly one `/` between them.
    pub fn build_url(&self, path: &str) -> (r: String)
        ensures
            r@ == spec_build_url(self.base_url@, path@),
    {
        proof {
            reveal_strlit("/");
        }
        let blen = self.base_url.as_str().unicode_len();
        let base = if blen > 0 && self.base_url.as_str().get_char(blen - 1) == '/' {
            self.base_url.clone()
        } else {
            self.base_url.clone().concat("/")
        };
        let plen = path.unicode_len();
        let mut i: usize = 0;
        proof {
            assert(path@.skip(0) =~= path@);
        }
        while i < plen && path.get_char(i) == '/'
            invariant
                plen == path@.len(),
                i <= plen,
                spec_trim_slashes(path@) == spec_trim_slashes(path@.skip(i as int)),
            decreases plen - i,
        {
            proof {
                assert(path@.skip(i as int).skip(1) =~= path@.skip(i + 1));
            }
            i = i + 1;
        }
        proof {
            if i < plen {
                assert(path@.skip(i as int)[0] == path@[i as int]);
            } else {
                assert(path@.skip(i as int) =~= Seq::<char>::empty());
            }
            assert(spec_trim_slashes(path@.skip(i as int)) == path@.skip(i as int));
        }
        let trimmed = path.substring_char(i, plen);
        proof {
            assert(path@.subrange(i as int, plen as int) =~= path@.skip(i as int));
        }
        base.concat(trimmed)
    }

    pub(crate) fn expect_client_key(&self) -> (r: Result<String, Errors>)
        ensures
            match self.client_key {
                Some(k) => r matches Ok(v) && v@ == k@,
                None => r matches Err(e) && e is NotAuthenticated,
            },
    {
        match &self.client_key {
            Some(k) => Ok(k.clone()),
            None => Err(Errors::NotAuthenticated),
        }
    }

    pub(crate) fn get_device_id(&self) -> (r: String)
        ensures
            r@ == self.device_id@,
    {
        self.device_id.clone()
    }
}

impl State {
    /// Builds the coordinates; a base URL without a scheme gets `https://`.
    pub fn new(base_url: String, device_id: String, client_key: Option<String>) -> (r: State)
        ensures
            r.base_url@ == (if spec_has_prefix(base_url@, "http://"@) || spec_has_prefix(
                base_url@,
                "https://"@,
            ) {
                base_url@
            } else {
                "https://"@ + base_url@
            }),
            r.device_id@ == device_id@,
            r.client_key == client_key,
    {
        let base_url = if starts_with(base_url.as_str(), "http://") || starts_with(
            base_url.as_str(),
            "https://",
        ) {
            base_url
        } else {
            String::from_str("https://").concat(base_url.as_str())
        };
        State { base_url, device_id, client_key }
    }
}

impl Default for State {
    /// Fresh coordinates against the public API host, under a random
    /// 32-character device identity and no client key yet.
    fn default() -> (r: Self)
        ensures
            r.base_url@ == "https://api.stashcat.com/"@,
            r.device_id@.len() == 32,
            r.client_key is None,
    {
        Self {
            base_url: String::from_str("https://api.stashcat.com/"),
            device_id: random_alphanumeric(32),
            client_key: None,
        }
    }
}

} // verus!
