use vstd::prelude::*;
use vstd::string::StringSliceAdditionalSpecFns;
use vstd::string::StrSliceExecFns;
use vstd::string::StringExecFns;
use vstd::utf8::{valid_utf8, decode_utf8};
use crate::b64::{b64_standard_decode, b64_url_nopad_decode, spec_b64_standard_decode, spec_b64_url_nopad_decode};
use crate::crypto::{
    aes256_cbc_decrypt, bignum_from_bytes, pbkdf2_hmac_sha256, rsa_builder_build, rsa_builder_new,
    rsa_builder_set_factors, rsa_private_decrypt_oaep, rsa_private_from_pem_passphrase,
    rsa_public_from_components, rsa_public_from_pem, spec_aes256_cbc_decrypt,
    spec_pbkdf2_hmac_sha256, spec_pem_private_key_opens, spec_pem_public_key_parses,
    string_from_utf8, CRYPTO_INPUT_LIMIT,
};
use crate::errors::Errors;
use crate::json::{
    parse_document, field_lookup, scalar_lookup, spec_parse_document, spec_field_lookup,
    spec_scalar_lookup, spec_doc_view, JsonField, JsonFieldSpec, JsonScalar, JsonScalarSpec,
};
use crate::state::EncryptionState;

verus! {

// The server's key envelopes: small JSON documents wrapping RSA key
// material. Each struct mirrors one document shape, with an exact parsing
// contract over the grammar of `json`.

/// A required string member of a document.
pub open spec fn spec_string_field(doc: Seq<(Seq<u8>, JsonFieldSpec)>, key: Seq<u8>) -> Option<
    Seq<char>,
> {
    match spec_field_lookup(doc, key) {
        Some(JsonFieldSpec::Scalar(JsonScalarSpec::Str(v))) => if valid_utf8(v) {
            Some(decode_utf8(v))
        } else {
            None
        },
        _ => None,
    }
}

/// An optional string member: absent or `null` is `Some(None)`; any shape
/// other than a UTF-8 string is malformed (`None`).
pub open spec fn spec_opt_string_field(doc: Seq<(Seq<u8>, JsonFieldSpec)>, key: Seq<u8>) -> Option<
    Option<Seq<char>>,
> {
    match spec_field_lookup(doc, key) {
        None => Some(None),
        Some(JsonFieldSpec::Scalar(JsonScalarSpec::Null)) => Some(None),
        Some(JsonFieldSpec::Scalar(JsonScalarSpec::Str(v))) => if valid_utf8(v) {
            Some(Some(decode_utf8(v)))
        } else {
            None
        },
        _ => None,
    }
}

/// A required string member of a nested scalar object.
pub open spec fn spec_member_string(
    members: Seq<(Seq<u8>, JsonScalarSpec)>,
    key: Seq<u8>,
) -> Option<Seq<char>> {
    match spec_scalar_lookup(members, key) {
        Some(JsonScalarSpec::Str(v)) => if valid_utf8(v) {
            Some(decode_utf8(v))
        } else {
            None
        },
        _ => None,
    }
}

/// A required count member of a nested scalar object, bounded by `usize`.
pub open spec fn spec_member_usize(
    members: Seq<(Seq<u8>, JsonScalarSpec)>,
    key: Seq<u8>,
) -> Option<usize> {
    match spec_scalar_lookup(members, key) {
        Some(JsonScalarSpec::UInt(n)) => if n <= usize::MAX as u64 {
            Some(n as usize)
        } else {
            None
        },
        _ => None,
    }
}

fn get_string_field(doc: &Vec<(Vec<u8>, JsonField)>, key: &str) -> (r: Option<String>)
    ensures
        match spec_string_field(spec_doc_view(doc@), key.spec_bytes()) {
            Some(v) => r matches Some(s) && s@ == v,
            None => r is None,
        },
{
    match field_lookup(doc, key) {
        Some(JsonField::Scalar(JsonScalar::Str(v))) => {
            match string_from_utf8(v.clone()) {
                Ok(s) => Some(s),
                Err(_) => None,
            }
        },
        _ => None,
    }
}

fn get_opt_string_field(doc: &Vec<(Vec<u8>, JsonField)>, key: &str) -> (r: Option<Option<String>>)
    ensures
        match spec_opt_string_field(spec_doc_view(doc@), key.spec_bytes()) {
            Some(Some(v)) => r matches Some(s) && s matches Some(x) && x@ == v,
            Some(None) => r matches Some(s) && s is None,
            None => r is None,
        },
{
    match field_lookup(doc, key) {
        None => Some(None),
        Some(JsonField::Scalar(JsonScalar::Null)) => Some(None),
        Some(JsonField::Scalar(JsonScalar::Str(v))) => {
            match string_from_utf8(v.clone()) {
                Ok(s) => Some(Some(s)),
                Err(_) => None,
            }
        },
        _ => None,
    }
}

fn get_member_string(members: &Vec<(Vec<u8>, JsonScalar)>, key: &str) -> (r: Option<String>)
    ensures
        match spec_member_string(
            members@.map_values(|q: (Vec<u8>, JsonScalar)| (q.0@, q.1@)),
            key.spec_bytes(),
        ) {
            Some(v) => r matches Some(s) && s@ == v,
            None => r is None,
        },
{
    match scalar_lookup(members, key) {
        Some(JsonScalar::Str(v)) => {
            match string_from_utf8(v.clone()) {
                Ok(s) => Some(s),
                Err(_) => None,
            }
        },
        _ => None,
    }
}

fn get_member_usize(members: &Vec<(Vec<u8>, JsonScalar)>, key: &str) -> (r: Option<usize>)
    ensures
        r == spec_member_usize(
            members@.map_values(|q: (Vec<u8>, JsonScalar)| (q.0@, q.1@)),
            key.spec_bytes(),
        ),
{
    match scalar_lookup(members, key) {
        Some(JsonScalar::UInt(n)) => {
            let n = *n;
            if n <= usize::MAX as u64 {
                Some(n as usize)
            } else {
                None
            }
        },
        _ => None,
    }
}

/// The PBKDF2 parameters of a wrapped envelope.
pub struct KeyDerivationProperties {
    pub prf: String,
    pub iterations: usize,
    pub salt: String,
}

pub struct KeyDerivationPropertiesSpec {
    pub prf: Seq<char>,
    pub iterations: usize,
    pub salt: Seq<char>,
}

impl View for KeyDerivationProperties {
    type V = KeyDerivationPropertiesSpec;

    open spec fn view(&self) -> KeyDerivationPropertiesSpec {
        KeyDerivationPropertiesSpec { prf: self.prf@, iterations: self.iterations, salt: self.salt@ }
    }
}

/// What the `key_derivation_properties` member denotes: absent or `null`
/// is `Some(None)`; a malformed block is `None`.
pub open spec fn spec_kdp_field(doc: Seq<(Seq<u8>, JsonFieldSpec)>, key: Seq<u8>) -> Option<
    Option<KeyDerivationPropertiesSpec>,
> {
    match spec_field_lookup(doc, key) {
        None => Some(None),
        Some(JsonFieldSpec::Scalar(JsonScalarSpec::Null)) => Some(None),
        Some(JsonFieldSpec::Obj(members)) => {
            match (
                spec_member_string(members, "prf".spec_bytes()),
                spec_member_usize(members, "iterations".spec_bytes()),
                spec_member_string(members, "salt".spec_bytes()),
            ) {
                (Some(prf), Some(iterations), Some(salt)) => Some(
                    Some(KeyDerivationPropertiesSpec { prf, iterations, salt }),
                ),
                _ => None,
            }
        },
        _ => None,
    }
}

fn get_kdp_field(doc: &Vec<(Vec<u8>, JsonField)>, key: &str) -> (r: Option<
    Option<KeyDerivationProperties>,
>)
    ensures
        match spec_kdp_field(spec_doc_view(doc@), key.spec_bytes()) {
            Some(Some(v)) => r matches Some(s) && s matches Some(x) && x@ == v,
            Some(None) => r matches Some(s) && s is None,
            None => r is None,
        },
{
    match field_lookup(doc, key) {
        None => Some(None),
        Some(JsonField::Scalar(JsonScalar::Null)) => Some(None),
        Some(JsonField::Obj(members)) => {
            let prf = get_member_string(members, "prf");
            let iterations = get_member_usize(members, "iterations");
            let salt = get_member_string(members, "salt");
            match (prf, iterations, salt) {
                (Some(prf), Some(iterations), Some(salt)) => Some(
                    Some(KeyDerivationProperties { prf, iterations, salt }),
                ),
                _ => None,
            }
        },
        _ => None,
    }
}

/// A wrapped private-key envelope: AES ciphertext with its IV, the PBKDF2
/// block where the passphrase derives the key, and the wrapped
/// key-encryption-key where a second unwrap tier is in use.
#[allow(non_snake_case)]
pub struct EncryptedPrivateKeyData {
    pub iv: String,
    pub ciphertext: String,
    pub encryption_func: String,
    pub key_derivation_properties: Option<KeyDerivationProperties>,
    pub encryptedKEK: Option<String>,
}

pub struct EncryptedPrivateKeyDataSpec {
    pub iv: Seq<char>,
    pub ciphertext: Seq<char>,
    pub encryption_func: Seq<char>,
    pub key_derivation_properties: Option<KeyDerivationPropertiesSpec>,
    pub encrypted_kek: Option<Seq<char>>,
}

impl View for EncryptedPrivateKeyData {
    type V = EncryptedPrivateKeyDataSpec;

    open spec fn view(&self) -> EncryptedPrivateKeyDataSpec {
        EncryptedPrivateKeyDataSpec {
            iv: self.iv@,
            ciphertext: self.ciphertext@,
            encryption_func: self.encryption_func@,
            key_derivation_properties: match self.key_derivation_properties {
                Some(k) => Some(k@),
                None => None,
            },
            encrypted_kek: match self.encryptedKEK {
                Some(k) => Some(k@),
                None => None,
            },
        }
    }
}

/// What a wrapped envelope document denotes, `None` where it is malformed.
pub open spec fn spec_envelope(s: Seq<u8>) -> Option<EncryptedPrivateKeyDataSpec> {
    match spec_parse_document(s) {
        None => None,
        Some(doc) => match (
            spec_string_field(doc, "iv".spec_bytes()),
            spec_string_field(doc, "ciphertext".spec_bytes()),
            spec_string_field(doc, "encryption_func".spec_bytes()),
            spec_kdp_field(doc, "key_derivation_properties".spec_bytes()),
            spec_opt_string_field(doc, "encryptedKEK".spec_bytes()),
        ) {
            (Some(iv), Some(ciphertext), Some(encryption_func), Some(kdp), Some(kek)) => Some(
                EncryptedPrivateKeyDataSpec {
                    iv,
                    ciphertext,
                    encryption_func,
                    key_derivation_properties: kdp,
                    encrypted_kek: kek,
                },
            ),
            _ => None,
        },
    }
}

impl EncryptedPrivateKeyData {
    /// Reads a wrapped envelope from its JSON text; the result is exactly
    /// what `spec_envelope` names.
    pub fn from_str(s: &str) -> (r: Result<EncryptedPrivateKeyData, Errors>)
        ensures
            match spec_envelope(s.spec_bytes()) {
                Some(env) => r matches Ok(v) && v@ == env,
                None => r matches Err(e) && e is JsonDeserializeError,
            },
    {
        let bytes = s.as_bytes_vec();
        let doc = parse_document(&bytes)?;
        let iv = get_string_field(&doc, "iv");
        let ciphertext = get_string_field(&doc, "ciphertext");
        let encryption_func = get_string_field(&doc, "encryption_func");
        let kdp = get_kdp_field(&doc, "key_derivation_properties");
        let kek = get_opt_string_field(&doc, "encryptedKEK");
        match (iv, ciphertext, encryption_func, kdp, kek) {
            (
                Some(iv),
                Some(ciphertext),
                Some(encryption_func),
                Some(key_derivation_properties),
                Some(encryptedKEK),
            ) => Ok(
                EncryptedPrivateKeyData {
                    iv,
                    ciphertext,
                    encryption_func,
                    key_derivation_properties,
                    encryptedKEK,
                },
            ),
            _ => Err(
                Errors::JsonDeserializeError(
                    String::from_str("envelope document misses a required field"),
                ),
            ),
        }
    }
}

/// A directly password-encrypted PEM envelope.
pub struct PemPrivateKey {
    pub private: String,
}

impl View for PemPrivateKey {
    type V = Seq<char>;

    open spec fn view(&self) -> Seq<char> {
        self.private@
    }
}

impl PemPrivateKey {
    /// Reads a PEM envelope from its JSON text: the single member `private`.
    pub fn from_str(s: &str) -> (r: Result<PemPrivateKey, Errors>)
        ensures
            match spec_parse_document(s.spec_bytes()) {
                Some(doc) => match spec_string_field(doc, "private".spec_bytes()) {
                    Some(v) => r matches Ok(k) && k@ == v,
                    None => r matches Err(e) && e is JsonDeserializeError,
                },
                None => r matches Err(e) && e is JsonDeserializeError,
            },
    {
        let bytes = s.as_bytes_vec();
        let doc = parse_document(&bytes)?;
        match get_string_field(&doc, "private") {
            Some(private) => Ok(PemPrivateKey { private }),
            None => Err(
                Errors::JsonDeserializeError(
                    String::from_str("envelope document misses the private member"),
                ),
            ),
        }
    }
}

/// Raw RSA private-key components, base64url-encoded big-endian integers.
pub struct RSAPrivateKey {
    pub n: String,
    pub e: String,
    pub d: String,
    pub p: String,
    pub q: String,
    pub dp: String,
    pub dq: String,
    pub qi: String,
}

pub struct RSAPrivateKeySpec {
    pub n: Seq<char>,
    pub e: Seq<char>,
    pub d: Seq<char>,
    pub p: Seq<char>,
    pub q: Seq<char>,
    pub dp: Seq<char>,
    pub dq: Seq<char>,
    pub qi: Seq<char>,
}

impl View for RSAPrivateKey {
    type V = RSAPrivateKeySpec;

    open spec fn view(&self) -> RSAPrivateKeySpec {
        RSAPrivateKeySpec {
            n: self.n@,
            e: self.e@,
            d: self.d@,
            p: self.p@,
            q: self.q@,
            dp: self.dp@,
            dq: self.dq@,
            qi: self.qi@,
        }
    }
}

/// What a raw-components document denotes, `None` where it is malformed.
pub open spec fn spec_rsa_private_key(s: Seq<u8>) -> Option<RSAPrivateKeySpec> {
    match spec_parse_document(s) {
        None => None,
        Some(doc) => match (
            spec_string_field(doc, "n".spec_bytes()),
            spec_string_field(doc, "e".spec_bytes()),
            spec_string_field(doc, "d".spec_bytes()),
            spec_string_field(doc, "p".spec_bytes()),
            spec_string_field(doc, "q".spec_bytes()),
            spec_string_field(doc, "dp".spec_bytes()),
            spec_string_field(doc, "dq".spec_bytes()),
            spec_string_field(doc, "qi".spec_bytes()),
        ) {
            (
                Some(n),
                Some(e),
                Some(d),
                Some(p),
                Some(q),
                Some(dp),
                Some(dq),
                Some(qi),
            ) => Some(RSAPrivateKeySpec { n, e, d, p, q, dp, dq, qi }),
            _ => None,
        },
    }
}

impl RSAPrivateKey {
    /// Reads the raw components from their JSON text; the result is exactly
    /// what `spec_rsa_private_key` names.
    pub fn from_str(private_key: &str) -> (r: Result<RSAPrivateKey, Errors>)
        ensures
            match spec_rsa_private_key(private_key.spec_bytes()) {
                Some(k) => r matches Ok(v) && v@ == k,
                None => r matches Err(e) && e is JsonDeserializeError,
            },
    {
        let bytes = private_key.as_bytes_vec();
        Self::from_bytes(&bytes)
    }

    /// Reads the raw components straight from decrypted envelope bytes.
    /// Bytes that are not UTF-8 are their own kind of failure — the mark of
    /// a wrong key — distinct from a well-encoded document of the wrong
    /// shape.
    pub fn from_decrypted(private_key: Vec<u8>) -> (r: Result<RSAPrivateKey, Errors>)
        ensures
            (!valid_utf8(private_key@) ==> (r matches Err(e) && e is StringDecodeError)),
            (valid_utf8(private_key@) ==> match spec_rsa_private_key(private_key@) {
                Some(k) => r matches Ok(v) && v@ == k,
                None => r matches Err(e) && e is JsonDeserializeError,
            }),
    {
        let ghost original = private_key@;
        let text = string_from_utf8(private_key)?;
        proof {
            vstd::utf8::decode_utf8_encode_utf8(original);
        }
        Self::from_bytes(&text.as_str().as_bytes_vec())
    }

    fn from_bytes(bytes: &Vec<u8>) -> (r: Result<RSAPrivateKey, Errors>)
        ensures
            match spec_rsa_private_key(bytes@) {
                Some(k) => r matches Ok(v) && v@ == k,
                None => r matches Err(e) && e is JsonDeserializeError,
            },
    {
        let doc = parse_document(bytes)?;
        let n = get_string_field(&doc, "n");
        let e = get_string_field(&doc, "e");
        let d = get_string_field(&doc, "d");
        let p = get_string_field(&doc, "p");
        let q = get_string_field(&doc, "q");
        let dp = get_string_field(&doc, "dp");
        let dq = get_string_field(&doc, "dq");
        let qi = get_string_field(&doc, "qi");
        match (n, e, d, p, q, dp, dq, qi) {
            (
                Some(n),
                Some(e),
                Some(d),
                Some(p),
                Some(q),
                Some(dp),
                Some(dq),
                Some(qi),
            ) => Ok(RSAPrivateKey { n, e, d, p, q, dp, dq, qi }),
            _ => Err(
                Errors::JsonDeserializeError(
                    String::from_str("raw key document misses a component"),
                ),
            ),
        }
    }

    /// Rebuilds the private key from `(n, e, d, p, q)` through the crypto
    /// library's builder: success exactly when every component rebuilds,
    /// the first bad component deciding the error.
    pub fn to_key(&self) -> (r: Result<openssl::rsa::Rsa<openssl::pkey::Private>, Errors>)
        ensures
            match spec_private_rebuild_outcome(self@) {
                ComponentOutcome::Rebuilt => r is Ok,
                ComponentOutcome::NotBase64 => r matches Err(e) && e is Base64Error,
                ComponentOutcome::Overlong => r matches Err(e) && e is EncryptionError,
            },
    {
        let n = to_big_num(&self.n)?;
        let e = to_big_num(&self.e)?;
        let d = to_big_num(&self.d)?;
        let p = to_big_num(&self.p)?;
        let q = to_big_num(&self.q)?;
        let builder = rsa_builder_new(n, e, d)?;
        let builder = rsa_builder_set_factors(builder, p, q)?;
        Ok(rsa_builder_build(builder))
    }
}

/// How rebuilding one big number from a base64url component field goes.
pub enum ComponentOutcome {
    Rebuilt,
    NotBase64,
    Overlong,
}

pub open spec fn spec_component_outcome(s: Seq<char>) -> ComponentOutcome {
    match spec_b64_url_nopad_decode(s) {
        None => ComponentOutcome::NotBase64,
        Some(b) => if b.len() <= CRYPTO_INPUT_LIMIT {
            ComponentOutcome::Rebuilt
        } else {
            ComponentOutcome::Overlong
        },
    }
}

/// The first bad component of `(n, e, d, p, q)` decides the rebuild.
pub open spec fn spec_private_rebuild_outcome(k: RSAPrivateKeySpec) -> ComponentOutcome {
    if !(spec_component_outcome(k.n) is Rebuilt) {
        spec_component_outcome(k.n)
    } else if !(spec_component_outcome(k.e) is Rebuilt) {
        spec_component_outcome(k.e)
    } else if !(spec_component_outcome(k.d) is Rebuilt) {
        spec_component_outcome(k.d)
    } else if !(spec_component_outcome(k.p) is Rebuilt) {
        spec_component_outcome(k.p)
    } else {
        spec_component_outcome(k.q)
    }
}

/// The first bad component of `(n, e)` decides the rebuild.
pub open spec fn spec_public_rebuild_outcome(k: RSAPublicKeySpec) -> ComponentOutcome {
    if !(spec_component_outcome(k.n) is Rebuilt) {
        spec_component_outcome(k.n)
    } else {
        spec_component_outcome(k.e)
    }
}

/// Decodes one base64url component into a big number; the outcome is
/// exactly `spec_component_outcome`.
fn to_big_num(s: &String) -> (r: Result<openssl::bn::BigNum, Errors>)
    ensures
        match spec_component_outcome(s@) {
            ComponentOutcome::Rebuilt => r is Ok,
            ComponentOutcome::NotBase64 => r matches Err(e) && e is Base64Error,
            ComponentOutcome::Overlong => r matches Err(e) && e is EncryptionError,
        },
{
    let bytes = b64_url_nopad_decode(s.as_str())?;
    if bytes.len() > CRYPTO_INPUT_LIMIT {
        return Err(Errors::EncryptionError(String::from_str("component is too long")));
    }
    bignum_from_bytes(bytes.as_slice())
}

/// A raw RSA public key: modulus and exponent, base64url-encoded.
pub struct RSAPublicKey {
    pub n: String,
    pub e: String,
}

pub struct RSAPublicKeySpec {
    pub n: Seq<char>,
    pub e: Seq<char>,
}

impl View for RSAPublicKey {
    type V = RSAPublicKeySpec;

    open spec fn view(&self) -> RSAPublicKeySpec {
        RSAPublicKeySpec { n: self.n@, e: self.e@ }
    }
}

/// What a public-key document denotes, `None` where it is malformed.
pub open spec fn spec_rsa_public_key(s: Seq<u8>) -> Option<RSAPublicKeySpec> {
    match spec_parse_document(s) {
        None => None,
        Some(doc) => match (
            spec_string_field(doc, "n".spec_bytes()),
            spec_string_field(doc, "e".spec_bytes()),
        ) {
            (Some(n), Some(e)) => Some(RSAPublicKeySpec { n, e }),
            _ => None,
        },
    }
}

impl RSAPublicKey {
    /// Reads a public key from its JSON text; the result is exactly what
    /// `spec_rsa_public_key` names.
    pub fn from_str(public_key: &str) -> (r: Result<RSAPublicKey, Errors>)
        ensures
            match spec_rsa_public_key(public_key.spec_bytes()) {
                Some(k) => r matches Ok(v) && v@ == k,
                None => r matches Err(e) && e is JsonDeserializeError,
            },
    {
        let bytes = public_key.as_bytes_vec();
        let doc = parse_document(&bytes)?;
        let n = get_string_field(&doc, "n");
        let e = get_string_field(&doc, "e");
        match (n, e) {
            (Some(n), Some(e)) => Ok(RSAPublicKey { n, e }),
            _ => Err(
                Errors::JsonDeserializeError(
                    String::from_str("public key document misses a component"),
                ),
            ),
        }
    }

    /// Rebuilds the public key from `(n, e)`: success exactly when both
    /// components rebuild, the first bad one deciding the error.
    pub fn to_key(&self) -> (r: Result<openssl::rsa::Rsa<openssl::pkey::Public>, Errors>)
        ensures
            match spec_public_rebuild_outcome(self@) {
                ComponentOutcome::Rebuilt => r is Ok,
                ComponentOutcome::NotBase64 => r matches Err(e) && e is Base64Error,
                ComponentOutcome::Overlong => r matches Err(e) && e is EncryptionError,
            },
    {
        let n = to_big_num(&self.n)?;
        let e = to_big_num(&self.e)?;
        rsa_public_from_components(n, e)
    }
}

/// A required boolean member of a document.
pub open spec fn spec_bool_field(doc: Seq<(Seq<u8>, JsonFieldSpec)>, key: Seq<u8>) -> Option<bool> {
    match spec_field_lookup(doc, key) {
        Some(JsonFieldSpec::Scalar(JsonScalarSpec::Bool(b))) => Some(b),
        _ => None,
    }
}

fn get_bool_field(doc: &Vec<(Vec<u8>, JsonField)>, key: &str) -> (r: Option<bool>)
    ensures
        r == spec_bool_field(spec_doc_view(doc@), key.spec_bytes()),
{
    match field_lookup(doc, key) {
        Some(JsonField::Scalar(JsonScalar::Bool(b))) => Some(*b),
        _ => None,
    }
}

/// A required array-of-strings member of a document.
pub open spec fn spec_string_array_items(items: Seq<JsonScalarSpec>) -> Option<Seq<Seq<char>>>
    decreases items.len(),
{
    if items.len() == 0 {
        Some(Seq::empty())
    } else {
        match items[0] {
            JsonScalarSpec::Str(v) => if valid_utf8(v) {
                match spec_string_array_items(items.drop_first()) {
                    Some(rest) => Some(seq![decode_utf8(v)] + rest),
                    None => None,
                }
            } else {
                None
            },
            _ => None,
        }
    }
}

pub open spec fn spec_string_array_field(doc: Seq<(Seq<u8>, JsonFieldSpec)>, key: Seq<u8>) -> Option<
    Seq<Seq<char>>,
> {
    match spec_field_lookup(doc, key) {
        Some(JsonFieldSpec::Arr(items)) => spec_string_array_items(items),
        _ => None,
    }
}

fn string_array_items(items: &Vec<JsonScalar>, i: usize) -> (r: Option<Vec<String>>)
    requires
        i <= items@.len(),
    ensures
        match spec_string_array_items(items@.map_values(|x: JsonScalar| x@).skip(i as int)) {
            Some(v) => r matches Some(out) && out.deep_view() == v,
            None => r is None,
        },
    decreases items@.len() - i,
{
    let ghost iv = items@.map_values(|x: JsonScalar| x@);
    if i >= items.len() {
        let out: Vec<String> = Vec::new();
        proof {
            assert(iv.skip(i as int) =~= Seq::<JsonScalarSpec>::empty());
            assert(out.deep_view() =~= Seq::<Seq<char>>::empty());
        }
        Some(out)
    } else {
        proof {
            assert(iv.skip(i as int)[0] == iv[i as int]);
            assert(iv.skip(i as int).drop_first() =~= iv.skip(i + 1));
        }
        match &items[i] {
            JsonScalar::Str(v) => {
                match string_from_utf8(v.clone()) {
                    Ok(s) => {
                        match string_array_items(items, i + 1) {
                            Some(rest) => {
                                let mut out: Vec<String> = Vec::new();
                                out.push(s);
                                let mut rest = rest;
                                out.append(&mut rest);
                                proof {
                                    assert(out.deep_view() =~= seq![decode_utf8(v@)]
                                        + spec_string_array_items(iv.skip(i + 1))->Some_0);
                                }
                                Some(out)
                            },
                            None => None,
                        }
                    },
                    Err(_) => None,
                }
            },
            _ => None,
        }
    }
}

fn get_string_array_field(doc: &Vec<(Vec<u8>, JsonField)>, key: &str) -> (r: Option<Vec<String>>)
    ensures
        match spec_string_array_field(spec_doc_view(doc@), key.spec_bytes()) {
            Some(v) => r matches Some(out) && out.deep_view() == v,
            None => r is None,
        },
{
    match field_lookup(doc, key) {
        Some(JsonField::Arr(items)) => {
            proof {
                assert(items@.map_values(|x: JsonScalar| x@).skip(0) =~= items@.map_values(
                    |x: JsonScalar| x@,
                ));
            }
            string_array_items(items, 0)
        },
        _ => None,
    }
}

/// A sender's public signing key as the user directory serves it: a JSON
/// web key carrying the base64url modulus and exponent beside its metadata.
/// The verifier reads only `n` and `e` (through `RSAPublicKey`); this shape
/// is for callers that want the whole record.
pub struct PublicSigningKey {
    pub alg: String,
    pub e: String,
    pub ext: bool,
    pub key_ops: Vec<String>,
    pub kty: String,
    pub n: String,
}

pub struct PublicSigningKeySpec {
    pub alg: Seq<char>,
    pub e: Seq<char>,
    pub ext: bool,
    pub key_ops: Seq<Seq<char>>,
    pub kty: Seq<char>,
    pub n: Seq<char>,
}

impl View for PublicSigningKey {
    type V = PublicSigningKeySpec;

    open spec fn view(&self) -> PublicSigningKeySpec {
        PublicSigningKeySpec {
            alg: self.alg@,
            e: self.e@,
            ext: self.ext,
            key_ops: self.key_ops.deep_view(),
            kty: self.kty@,
            n: self.n@,
        }
    }
}

/// What a signing-key document denotes, `None` where it is malformed.
pub open spec fn spec_public_signing_key(s: Seq<u8>) -> Option<PublicSigningKeySpec> {
    match spec_parse_document(s) {
        None => None,
        Some(doc) => match (
            spec_string_field(doc, "alg".spec_bytes()),
            spec_string_field(doc, "e".spec_bytes()),
            spec_bool_field(doc, "ext".spec_bytes()),
            spec_string_array_field(doc, "key_ops".spec_bytes()),
            spec_string_field(doc, "kty".spec_bytes()),
            spec_string_field(doc, "n".spec_bytes()),
        ) {
            (Some(alg), Some(e), Some(ext), Some(key_ops), Some(kty), Some(n)) => Some(
                PublicSigningKeySpec { alg, e, ext, key_ops, kty, n },
            ),
            _ => None,
        },
    }
}

impl PublicSigningKey {
    /// Reads a signing key from its JSON text; the result is exactly what
    /// `spec_public_signing_key` names.
    pub fn from_str(s: &str) -> (r: Result<PublicSigningKey, Errors>)
        ensures
            match spec_public_signing_key(s.spec_bytes()) {
                Some(k) => r matches Ok(v) && v@ == k,
                None => r matches Err(e) && e is JsonDeserializeError,
            },
    {
        let bytes = s.as_bytes_vec();
        let doc = parse_document(&bytes)?;
        let alg = get_string_field(&doc, "alg");
        let e = get_string_field(&doc, "e");
        let ext = get_bool_field(&doc, "ext");
        let key_ops = get_string_array_field(&doc, "key_ops");
        let kty = get_string_field(&doc, "kty");
        let n = get_string_field(&doc, "n");
        match (alg, e, ext, key_ops, kty, n) {
            (Some(alg), Some(e), Some(ext), Some(key_ops), Some(kty), Some(n)) => Ok(
                PublicSigningKey { alg, e, ext, key_ops, kty, n },
            ),
            _ => Err(
                Errors::JsonDeserializeError(
                    String::from_str("signing key document misses a member"),
                ),
            ),
        }
    }
}

/// One key record of the private-key endpoint's response.
pub struct PrivateKeyData {
    pub user_id: String,
    pub key_type: String,
    pub format: String,
    pub private_key: String,
    pub public_key: String,
    pub public_key_signature: Option<String>,
    pub time: String,
    pub deleted: Option<String>,
    pub version: usize,
}

/// The private-key endpoint's response shell.
pub struct PrivateKeyResponse {
    pub keys: PrivateKeyData,
}

/// Whether a PEM text and a passphrase are within what the cipher's C layer
/// takes: the text within its 32-bit length limit, the passphrase free of
/// interior NUL bytes.
pub open spec fn spec_pem_inputs_ok(pem: Seq<u8>, passphrase: Seq<u8>) -> bool {
    pem.len() <= CRYPTO_INPUT_LIMIT && !passphrase.contains(0u8)
}

/// Whether the byte `x` occurs in `b`.
fn contains_byte(b: &[u8], x: u8) -> (r: bool)
    ensures
        r == b@.contains(x),
{
    let mut i: usize = 0;
    while i < b.len()
        invariant
            i <= b@.len(),
            forall|j: int| 0 <= j < i ==> b@[j] != x,
        decreases b@.len() - i,
    {
        if b[i] == x {
            return true;
        }
        i = i + 1;
    }
    false
}

/// Recovers the private encryption key from a directly password-encrypted
/// PEM envelope: the `private` member holds the PEM text and the passphrase
/// opens it. A document without that member is rejected before any
/// cryptography runs; a wrong passphrase — a PEM the passphrase does not
/// open — is exactly an `EncryptionError`, and no key is ever built from it.
pub fn decode_pem_private_key(private_key_json: &str, passphrase: &str) -> (r: Result<
    openssl::rsa::Rsa<openssl::pkey::Private>,
    Errors,
>)
    ensures
        (spec_parse_document(private_key_json.spec_bytes()) is None ==> (r matches Err(e)
            && e is JsonDeserializeError)),
        (spec_parse_document(private_key_json.spec_bytes()) matches Some(doc)
            && spec_string_field(doc, "private".spec_bytes()) is None ==> (r matches Err(e)
            && e is OtherErrors)),
        ((spec_parse_document(private_key_json.spec_bytes()) matches Some(doc)
            && spec_string_field(doc, "private".spec_bytes()) matches Some(pem)
            && spec_pem_inputs_ok(
            vstd::utf8::encode_utf8(pem),
            passphrase.spec_bytes(),
        )) ==> ({
            let doc = spec_parse_document(private_key_json.spec_bytes())->Some_0;
            let pem = spec_string_field(doc, "private".spec_bytes())->Some_0;
            if spec_pem_private_key_opens(vstd::utf8::encode_utf8(pem), passphrase.spec_bytes()) {
                r is Ok
            } else {
                r matches Err(e) && e is EncryptionError
            }
        })),
        (r matches Err(e) ==> e is JsonDeserializeError || e is OtherErrors
            || e is EncryptionError),
{
    let bytes = private_key_json.as_bytes_vec();
    let doc = parse_document(&bytes)?;
    match get_string_field(&doc, "private") {
        None => Err(
            Errors::OtherErrors(
                String::from_str("Couldn't load private key from field \"private\""),
            ),
        ),
        Some(pem) => {
            let pem_bytes = pem.as_str().as_bytes();
            let passphrase_bytes = passphrase.as_bytes();
            if pem_bytes.len() > CRYPTO_INPUT_LIMIT || contains_byte(passphrase_bytes, 0) {
                return Err(
                    Errors::EncryptionError(
                        String::from_str("the PEM text or the passphrase is outside what the cipher takes"),
                    ),
                );
            }
            rsa_private_from_pem_passphrase(pem_bytes, passphrase_bytes)
        },
    }
}

/// Recovers a full key pair along path A: the private key from its
/// password-encrypted PEM envelope, the public key from its plain PEM text.
/// A wrong passphrase is exactly an `EncryptionError`, before the public key
/// is even read.
pub fn decode_pem_key_pair(
    private_key_json: &str,
    public_key_pem: &str,
    passphrase: &str,
) -> (r: Result<
    (openssl::rsa::Rsa<openssl::pkey::Private>, openssl::rsa::Rsa<openssl::pkey::Public>),
    Errors,
>)
    ensures
        (spec_parse_document(private_key_json.spec_bytes()) is None ==> (r matches Err(e)
            && e is JsonDeserializeError)),
        ((spec_parse_document(private_key_json.spec_bytes()) matches Some(doc)
            && spec_string_field(doc, "private".spec_bytes()) matches Some(pem)
            && spec_pem_inputs_ok(vstd::utf8::encode_utf8(pem), passphrase.spec_bytes())
            && !spec_pem_private_key_opens(
            vstd::utf8::encode_utf8(pem),
            passphrase.spec_bytes(),
        )) ==> (r matches Err(e) && e is EncryptionError)),
        ((spec_parse_document(private_key_json.spec_bytes()) matches Some(doc)
            && spec_string_field(doc, "private".spec_bytes()) matches Some(pem)
            && spec_pem_inputs_ok(vstd::utf8::encode_utf8(pem), passphrase.spec_bytes())
            && spec_pem_private_key_opens(vstd::utf8::encode_utf8(pem), passphrase.spec_bytes())
            && public_key_pem.spec_bytes().len() <= CRYPTO_INPUT_LIMIT) ==> (r is Ok
            <==> spec_pem_public_key_parses(public_key_pem.spec_bytes()))),
        (r matches Err(e) ==> e is JsonDeserializeError || e is OtherErrors
            || e is EncryptionError),
{
    let private_key = decode_pem_private_key(private_key_json, passphrase)?;
    let public_pem = public_key_pem.as_bytes();
    if public_pem.len() > CRYPTO_INPUT_LIMIT {
        return Err(Errors::EncryptionError(String::from_str("the public PEM text is too long")));
    }
    let public_key = rsa_public_from_pem(public_pem)?;
    Ok((private_key, public_key))
}

/// Recovers the session's key pairs from the wrapped envelopes: the
/// passphrase derives an AES key through PBKDF2 which opens the encryption
/// envelope; the raw components inside rebuild the encryption pair; the
/// signing envelope's wrapped key-encryption-key is then RSA-OAEP-unwrapped
/// with that private key, must be exactly 32 bytes, and opens the signing
/// envelope. An envelope without its derivation block or without its wrapped
/// key-encryption-key is rejected as `ValueError`; everything the ciphers
/// refuse — a derived key that does not open its envelope (the wrong
/// passphrase), decrypted material that is no raw component document, a
/// key-encryption-key of the wrong size — is an `EncryptionError`, so a bad
/// passphrase is never mistaken for a server protocol mismatch.
pub fn decode_encryption_state(
    passphrase: &str,
    encryption_keys: &PrivateKeyData,
    signing_keys: &PrivateKeyData,
) -> (r: Result<EncryptionState, Errors>)
    ensures
        (match spec_envelope(vstd::utf8::encode_utf8(encryption_keys.private_key@)) {
            None => r matches Err(e) && e is JsonDeserializeError,
            Some(env) => match env.key_derivation_properties {
                None => r matches Err(e) && e is ValueError,
                Some(kdp) => match spec_b64_standard_decode(kdp.salt) {
                    None => r matches Err(e) && e is Base64Error,
                    Some(salt) => if passphrase.spec_bytes().len() > CRYPTO_INPUT_LIMIT
                        || salt.len() > CRYPTO_INPUT_LIMIT || kdp.iterations
                        > CRYPTO_INPUT_LIMIT {
                        r matches Err(e) && e is EncryptionError
                    } else {
                        match spec_b64_standard_decode(env.iv) {
                            None => r matches Err(e) && e is Base64Error,
                            Some(iv) => match spec_b64_standard_decode(env.ciphertext) {
                                None => r matches Err(e) && e is Base64Error,
                                Some(ct) => if ct.len() > CRYPTO_INPUT_LIMIT {
                                    r matches Err(e) && e is EncryptionError
                                } else {
                                    match spec_aes256_cbc_decrypt(
                                        spec_pbkdf2_hmac_sha256(
                                            passphrase.spec_bytes(),
                                            salt,
                                            kdp.iterations,
                                        ),
                                        iv,
                                        ct,
                                    ) {
                                        None => r matches Err(e) && e is EncryptionError,
                                        Some(pt) => if !valid_utf8(pt) || spec_rsa_private_key(
                                            pt,
                                        ) is None {
                                            r matches Err(e) && e is EncryptionError
                                        } else {
                                            match spec_private_rebuild_outcome(
                                                spec_rsa_private_key(pt)->Some_0,
                                            ) {
                                                ComponentOutcome::NotBase64 => r matches Err(e)
                                                    && e is Base64Error,
                                                ComponentOutcome::Overlong => r matches Err(e)
                                                    && e is EncryptionError,
                                                ComponentOutcome::Rebuilt => match spec_rsa_public_key(
                                                    vstd::utf8::encode_utf8(
                                                        encryption_keys.public_key@,
                                                    ),
                                                ) {
                                                    None => r matches Err(e)
                                                        && e is JsonDeserializeError,
                                                    Some(pk) => match spec_public_rebuild_outcome(
                                                        pk,
                                                    ) {
                                                        ComponentOutcome::NotBase64 => r matches Err(
                                                            e,
                                                        ) && e is Base64Error,
                                                        ComponentOutcome::Overlong => r matches Err(
                                                            e,
                                                        ) && e is EncryptionError,
                                                        ComponentOutcome::Rebuilt => match spec_envelope(
                                                            vstd::utf8::encode_utf8(
                                                                signing_keys.private_key@,
                                                            ),
                                                        ) {
                                                            None => r matches Err(e)
                                                                && e is JsonDeserializeError,
                                                            Some(senv) => match senv.encrypted_kek {
                                                                None => r matches Err(e)
                                                                    && e is ValueError,
                                                                Some(kk) => match spec_b64_standard_decode(
                                                                    kk,
                                                                ) {
                                                                    None => r matches Err(e)
                                                                        && e is Base64Error,
                                                                    Some(kek_ct) => if kek_ct.len()
                                                                        > CRYPTO_INPUT_LIMIT {
                                                                        r matches Err(e)
                                                                            && e is EncryptionError
                                                                    } else {
                                                                        true
                                                                    },
                                                                },
                                                            },
                                                        },
                                                    },
                                                },
                                            }
                                        },
                                    }
                                },
                            },
                        }
                    },
                },
            },
        }),
        (r is Ok ==> ({
            let env = spec_envelope(vstd::utf8::encode_utf8(encryption_keys.private_key@));
            let senv = spec_envelope(vstd::utf8::encode_utf8(signing_keys.private_key@));
            &&& env is Some
            &&& env->Some_0.key_derivation_properties is Some
            &&& ({
                let e = env->Some_0;
                let kdp = e.key_derivation_properties->Some_0;
                &&& spec_b64_standard_decode(kdp.salt) is Some
                &&& spec_b64_standard_decode(e.iv) is Some
                &&& spec_b64_standard_decode(e.ciphertext) is Some
                &&& match spec_aes256_cbc_decrypt(
                    spec_pbkdf2_hmac_sha256(
                        passphrase.spec_bytes(),
                        spec_b64_standard_decode(kdp.salt)->Some_0,
                        kdp.iterations,
                    ),
                    spec_b64_standard_decode(e.iv)->Some_0,
                    spec_b64_standard_decode(e.ciphertext)->Some_0,
                ) {
                    Some(pt) => spec_rsa_private_key(pt) is Some,
                    None => false,
                }
            })
            &&& spec_rsa_public_key(vstd::utf8::encode_utf8(encryption_keys.public_key@)) is Some
            &&& senv is Some
            &&& senv->Some_0.encrypted_kek is Some
            &&& spec_b64_standard_decode(senv->Some_0.encrypted_kek->Some_0) is Some
            &&& spec_b64_standard_decode(senv->Some_0.iv) is Some
            &&& spec_b64_standard_decode(senv->Some_0.ciphertext) is Some
            &&& spec_rsa_public_key(vstd::utf8::encode_utf8(signing_keys.public_key@)) is Some
        })),
        ((r matches Err(e) && e is ValueError) ==> ((spec_envelope(
            vstd::utf8::encode_utf8(encryption_keys.private_key@),
        ) matches Some(v) && v.key_derivation_properties is None) || (spec_envelope(
            vstd::utf8::encode_utf8(signing_keys.private_key@),
        ) matches Some(s) && s.encrypted_kek is None))),
        (r matches Err(e) ==> e is JsonDeserializeError || e is ValueError || e is Base64Error
            || e is EncryptionError),
{
    // Recover the encryption pair: passphrase -> PBKDF2 -> AES -> raw components.
    let envelope = EncryptedPrivateKeyData::from_str(encryption_keys.private_key.as_str())?;
    let properties = match envelope.key_derivation_properties {
        Some(p) => p,
        None => {
            return Err(
                Errors::ValueError(
                    String::from_str("API didn't respond with key derivation properties"),
                ),
            );
        },
    };
    let passphrase_bytes = passphrase.as_bytes();
    let salt = b64_standard_decode(properties.salt.as_str())?;
    if passphrase_bytes.len() > CRYPTO_INPUT_LIMIT || salt.len() > CRYPTO_INPUT_LIMIT
        || properties.iterations > CRYPTO_INPUT_LIMIT {
        return Err(Errors::EncryptionError(String::from_str("key derivation input is too large")));
    }
    let derived_key = pbkdf2_hmac_sha256(passphrase_bytes, salt.as_slice(), properties.iterations)?;
    let iv = b64_standard_decode(envelope.iv.as_str())?;
    let encrypted_private = b64_standard_decode(envelope.ciphertext.as_str())?;
    if encrypted_private.len() > CRYPTO_INPUT_LIMIT {
        return Err(Errors::EncryptionError(String::from_str("the envelope ciphertext is too long")));
    }
    let decrypted = aes256_cbc_decrypt(
        derived_key.as_slice(),
        iv.as_slice(),
        encrypted_private.as_slice(),
    )?;
    let components = match RSAPrivateKey::from_decrypted(decrypted) {
        Ok(c) => c,
        Err(_) => {
            return Err(
                Errors::EncryptionError(
                    String::from_str("decrypted key material is no raw component document"),
                ),
            );
        },
    };
    let private_encrypt = components.to_key()?;
    let public_encrypt = RSAPublicKey::from_str(encryption_keys.public_key.as_str())?.to_key()?;

    // Recover the signing pair: its envelope opens with a key-encryption-key
    // that only the encryption key can unwrap.
    let signing_envelope = EncryptedPrivateKeyData::from_str(signing_keys.private_key.as_str())?;
    let encrypted_kek = match signing_envelope.encryptedKEK {
        Some(k) => k,
        None => {
            return Err(Errors::ValueError(String::from_str("No Key Encryption Key (KEK)")));
        },
    };
    let encrypted_kek = b64_standard_decode(encrypted_kek.as_str())?;
    if encrypted_kek.len() > 0x7fff_ffff {
        return Err(Errors::EncryptionError(String::from_str("wrapped key is too long")));
    }
    let kek = rsa_private_decrypt_oaep(&private_encrypt, encrypted_kek.as_slice())?;
    if kek.len() != 32 {
        return Err(
            Errors::EncryptionError(String::from_str("decrypted AES key is not 256 bits long")),
        );
    }
    let signing_iv = b64_standard_decode(signing_envelope.iv.as_str())?;
    let encrypted_signing = b64_standard_decode(signing_envelope.ciphertext.as_str())?;
    if encrypted_signing.len() > CRYPTO_INPUT_LIMIT {
        return Err(Errors::EncryptionError(String::from_str("the envelope ciphertext is too long")));
    }
    let decrypted_signing = aes256_cbc_decrypt(
        kek.as_slice(),
        signing_iv.as_slice(),
        encrypted_signing.as_slice(),
    )?;
    let signing_components = match RSAPrivateKey::from_decrypted(decrypted_signing) {
        Ok(c) => c,
        Err(_) => {
            return Err(
                Errors::EncryptionError(
                    String::from_str("decrypted key material is no raw component document"),
                ),
            );
        },
    };
    let private_sign = signing_components.to_key()?;
    let public_sign = RSAPublicKey::from_str(signing_keys.public_key.as_str())?.to_key()?;
    Ok(EncryptionState::new(private_encrypt, public_encrypt, private_sign, public_sign))
}

} // verus!
