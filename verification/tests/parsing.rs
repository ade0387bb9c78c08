use stashcat::envelope::{
    EncryptedPrivateKeyData, PemPrivateKey, PublicSigningKey, RSAPrivateKey, RSAPublicKey,
};
use stashcat::errors::Errors;
use stashcat::hexstr::hex_decode;
use stashcat::strutil::{bool_to_string, join, starts_with, str_eq, usize_to_string};

#[test]
fn hex_decodes_exact_bytes() {
    assert_eq!(hex_decode("0aff").unwrap(), vec![0x0a, 0xff]);
    assert_eq!(hex_decode("00").unwrap(), vec![0x00]);
    assert_eq!(hex_decode("DEADbeef").unwrap(), vec![0xde, 0xad, 0xbe, 0xef]);
    assert_eq!(hex_decode("").unwrap(), Vec::<u8>::new());
}

#[test]
fn hex_rejects_odd_length() {
    assert!(matches!(hex_decode("abc"), Err(Errors::HexError(_))));
}

#[test]
fn hex_rejects_non_digits() {
    assert!(matches!(hex_decode("zz"), Err(Errors::HexError(_))));
    assert!(matches!(hex_decode("0g"), Err(Errors::HexError(_))));
}

#[test]
fn envelope_fields_parse_exactly() {
    let doc = "{\"iv\": \"aXY=\", \"ciphertext\": \"Y3Q=\", \"encryption_func\": \"AES-CBC\", \"key_derivation_properties\": {\"prf\": \"PBKDF2\", \"iterations\": 1000, \"salt\": \"c2FsdA==\"}, \"encryptedKEK\": null}";
    let env = EncryptedPrivateKeyData::from_str(doc).unwrap();
    assert_eq!(env.iv, "aXY=");
    assert_eq!(env.ciphertext, "Y3Q=");
    assert_eq!(env.encryption_func, "AES-CBC");
    let kdp = env.key_derivation_properties.unwrap();
    assert_eq!(kdp.prf, "PBKDF2");
    assert_eq!(kdp.iterations, 1000);
    assert_eq!(kdp.salt, "c2FsdA==");
    assert!(env.encryptedKEK.is_none());
}

#[test]
fn envelope_without_kdp_parses_to_none() {
    let doc = "{\"iv\":\"aXY=\",\"ciphertext\":\"Y3Q=\",\"encryption_func\":\"AES-CBC\",\"encryptedKEK\":\"a2Vr\"}";
    let env = EncryptedPrivateKeyData::from_str(doc).unwrap();
    assert!(env.key_derivation_properties.is_none());
    assert_eq!(env.encryptedKEK.as_deref(), Some("a2Vr"));
}

#[test]
fn envelope_missing_field_is_json_error() {
    let doc = "{\"iv\":\"aXY=\",\"encryption_func\":\"AES-CBC\"}";
    assert!(matches!(
        EncryptedPrivateKeyData::from_str(doc),
        Err(Errors::JsonDeserializeError(_))
    ));
}

#[test]
fn envelope_malformed_document_is_json_error() {
    assert!(matches!(
        EncryptedPrivateKeyData::from_str("{\"iv\": }"),
        Err(Errors::JsonDeserializeError(_))
    ));
    assert!(matches!(
        EncryptedPrivateKeyData::from_str("not json at all"),
        Err(Errors::JsonDeserializeError(_))
    ));
    assert!(matches!(
        EncryptedPrivateKeyData::from_str(""),
        Err(Errors::JsonDeserializeError(_))
    ));
}

#[test]
fn envelope_rejects_trailing_garbage() {
    let doc = "{\"iv\":\"a\",\"ciphertext\":\"b\",\"encryption_func\":\"c\"} tail";
    assert!(matches!(
        EncryptedPrivateKeyData::from_str(doc),
        Err(Errors::JsonDeserializeError(_))
    ));
}

#[test]
fn pem_envelope_unescapes_newlines() {
    let doc = "{\"private\": \"-----BEGIN-----\\nAAA\\n-----END-----\\n\"}";
    let pem = PemPrivateKey::from_str(doc).unwrap();
    assert_eq!(pem.private, "-----BEGIN-----\nAAA\n-----END-----\n");
}

#[test]
fn rsa_private_key_components_parse() {
    let doc = "{\"n\":\"AQAB\",\"e\":\"AQ\",\"d\":\"Ag\",\"p\":\"Aw\",\"q\":\"BA\",\"dp\":\"BQ\",\"dq\":\"Bg\",\"qi\":\"Bw\"}";
    let k = RSAPrivateKey::from_str(doc).unwrap();
    assert_eq!(k.n, "AQAB");
    assert_eq!(k.e, "AQ");
    assert_eq!(k.qi, "Bw");
    let k2 = RSAPrivateKey::from_decrypted(doc.as_bytes().to_vec()).unwrap();
    assert_eq!(k2.d, "Ag");
}

#[test]
fn rsa_private_key_missing_component_is_json_error() {
    let doc = "{\"n\":\"AQAB\",\"e\":\"AQ\"}";
    assert!(matches!(
        RSAPrivateKey::from_str(doc),
        Err(Errors::JsonDeserializeError(_))
    ));
}

#[test]
fn rsa_public_key_parses() {
    let k = RSAPublicKey::from_str("{\"n\": \"AQAB\", \"e\": \"AQAB\"}").unwrap();
    assert_eq!(k.n, "AQAB");
    assert_eq!(k.e, "AQAB");
}

#[test]
fn public_signing_key_parses_jwk_shape() {
    let doc = "{\"alg\":\"RS256\",\"e\":\"AQAB\",\"ext\":true,\"key_ops\":[\"verify\",\"encrypt\"],\"kty\":\"RSA\",\"n\":\"AQAB\"}";
    let k = PublicSigningKey::from_str(doc).unwrap();
    assert_eq!(k.alg, "RS256");
    assert!(k.ext);
    assert_eq!(k.key_ops, vec!["verify".to_string(), "encrypt".to_string()]);
    assert_eq!(k.kty, "RSA");
}

#[test]
fn public_signing_key_rejects_wrong_types() {
    let doc = "{\"alg\":\"RS256\",\"e\":\"AQAB\",\"ext\":\"yes\",\"key_ops\":[\"verify\"],\"kty\":\"RSA\",\"n\":\"AQAB\"}";
    assert!(matches!(
        PublicSigningKey::from_str(doc),
        Err(Errors::JsonDeserializeError(_))
    ));
}

#[test]
fn numbers_parse_up_to_u64_max() {
    let doc = "{\"iv\":\"a\",\"ciphertext\":\"b\",\"encryption_func\":\"c\",\"key_derivation_properties\":{\"prf\":\"p\",\"iterations\":18446744073709551615,\"salt\":\"s\"}}";
    let env = EncryptedPrivateKeyData::from_str(doc).unwrap();
    assert_eq!(
        env.key_derivation_properties.unwrap().iterations,
        18446744073709551615usize
    );
    let over = "{\"iv\":\"a\",\"ciphertext\":\"b\",\"encryption_func\":\"c\",\"key_derivation_properties\":{\"prf\":\"p\",\"iterations\":18446744073709551616,\"salt\":\"s\"}}";
    assert!(matches!(
        EncryptedPrivateKeyData::from_str(over),
        Err(Errors::JsonDeserializeError(_))
    ));
}

#[test]
fn string_helpers_behave() {
    assert!(str_eq("abc", "abc"));
    assert!(!str_eq("abc", "abd"));
    assert!(!str_eq("abc", "ab"));
    assert!(starts_with("https://host", "https://"));
    assert!(!starts_with("http://host", "https://"));
    assert_eq!(usize_to_string(0), "0");
    assert_eq!(usize_to_string(7), "7");
    assert_eq!(usize_to_string(12034), "12034");
    assert_eq!(bool_to_string(true), "true");
    assert_eq!(bool_to_string(false), "false");
    let parts = vec!["a".to_string(), "bb".to_string(), "c".to_string()];
    assert_eq!(join(&parts, ","), "a,bb,c");
    assert_eq!(join(&Vec::new(), ","), "");
    assert_eq!(join(&vec!["x".to_string()], ","), "x");
}

#[test]
fn errors_describe_themselves() {
    assert_eq!(Errors::NotAuthenticated.describe(), "not authenticated");
    assert_eq!(
        Errors::HexError("odd length".to_string()).describe(),
        "hex error: odd length"
    );
    assert_eq!(
        Errors::APIError("FAIL".to_string(), "short".to_string(), "long".to_string()).describe(),
        "API error FAIL: short: long"
    );
    assert!(Errors::EncryptionError("x".to_string()).is_crypto());
    assert!(!Errors::NotAuthenticated.is_crypto());
}

#[test]
fn unknown_fields_of_any_shape_are_tolerated() {
    let doc = "{\"iv\":\"aXY=\",\"ciphertext\":\"Y3Q=\",\"encryption_func\":\"AES-CBC\",\"extra\":{\"deep\":{\"deeper\":[1.5,\"\\u0041\",{\"x\":null}]}},\"ratio\":-2.75e-3,\"note\":\"holds an \\u00e9scape\"}";
    let env = EncryptedPrivateKeyData::from_str(doc).unwrap();
    assert_eq!(env.iv, "aXY=");
    assert_eq!(env.ciphertext, "Y3Q=");
    assert!(env.key_derivation_properties.is_none());
    let doc = "{\"private\":\"PEM\",\"unused\":[[],[{}],\"\\t\"]}";
    assert_eq!(PemPrivateKey::from_str(doc).unwrap().private, "PEM");
}

#[test]
fn unknown_members_inside_the_derivation_block_are_tolerated() {
    let doc = "{\"iv\":\"a\",\"ciphertext\":\"b\",\"encryption_func\":\"c\",\"key_derivation_properties\":{\"prf\":\"p\",\"iterations\":7,\"salt\":\"s\",\"vendor\":{\"nested\":[true,0.5]}}}";
    let env = EncryptedPrivateKeyData::from_str(doc).unwrap();
    assert_eq!(env.key_derivation_properties.unwrap().iterations, 7);
}

#[test]
fn known_field_of_wrong_shape_is_json_error() {
    let doc = "{\"iv\":1.5,\"ciphertext\":\"Y3Q=\",\"encryption_func\":\"AES-CBC\"}";
    assert!(matches!(
        EncryptedPrivateKeyData::from_str(doc),
        Err(Errors::JsonDeserializeError(_))
    ));
}

#[test]
fn non_utf8_decrypted_bytes_are_a_string_decode_error() {
    let r = RSAPrivateKey::from_decrypted(vec![0xff, 0xfe, 0x80, 0x00]);
    assert!(matches!(r, Err(Errors::StringDecodeError(_))));
    // A well-encoded document of the wrong shape stays a JSON error.
    let r = RSAPrivateKey::from_decrypted(b"{\"n\":\"AQAB\"}".to_vec());
    assert!(matches!(r, Err(Errors::JsonDeserializeError(_))));
}

#[test]
fn component_rebuild_succeeds_and_pins_its_errors() {
    let doc = "{\"n\":\"AQAB\",\"e\":\"AQ\",\"d\":\"Ag\",\"p\":\"Aw\",\"q\":\"BA\",\"dp\":\"BQ\",\"dq\":\"Bg\",\"qi\":\"Bw\"}";
    let k = RSAPrivateKey::from_str(doc).unwrap();
    assert!(k.to_key().is_ok());
    let bad = RSAPrivateKey { d: "!!!".to_string(), ..RSAPrivateKey::from_str(doc).unwrap() };
    assert!(matches!(bad.to_key(), Err(Errors::Base64Error(_))));
    let pk = RSAPublicKey::from_str("{\"n\":\"AQAB\",\"e\":\"AQAB\"}").unwrap();
    assert!(pk.to_key().is_ok());
    let bad_pk = RSAPublicKey { n: "not base64url!".to_string(), e: "AQAB".to_string() };
    assert!(matches!(bad_pk.to_key(), Err(Errors::Base64Error(_))));
}
