use vstd::prelude::*;
use vstd::string::StringExecFns;

verus! {

/// Every failure the library reports. Outside failures (cipher, decode)
/// are carried as their rendered text so the enum stays free of foreign
/// types. A server response of an unrecognized shape — a protocol mismatch —
/// is carried as `JsonDeserializeError`, `ValueError` or `OtherErrors`,
/// never as `EncryptionError`: a wrong passphrase stays distinguishable from
/// a server that changed shape.
#[derive(Debug, Clone, PartialEq, Eq)]
pub enum Errors {
    /// The HTTP layer failed before a response arrived.
    RequestError(String),
    /// The response body was not JSON.
    NotJsonError(String),
    /// A JSON document did not have the expected shape.
    JsonDeserializeError(String),
    /// The server answered with a non-OK status: value, short message, message.
    APIError(String, String, String),
    /// A cipher, key-derivation or RSA operation failed.
    EncryptionError(String),
    /// A caller referenced an unknown chat or a required field was absent.
    ValueError(String),
    /// A base64 field did not decode.
    Base64Error(String),
    /// A hex field did not decode.
    HexError(String),
    /// Decrypted bytes were not valid UTF-8 where text was expected.
    StringDecodeError(String),
    /// Anything that fits no other kind.
    OtherErrors(String),
    /// A client key is needed but none is set.
    NotAuthenticated,
}

impl Errors {
    /// True for the failures spec-wise terminal to a cryptographic operation.
    pub fn is_crypto(&self) -> (r: bool)
        ensures
            r == (self is EncryptionError),
    {
        match self {
            Errors::EncryptionError(_) => true,
            _ => false,
        }
    }

    /// The failure's kind and detail as one line, for callers that print.
    pub fn describe(&self) -> (r: String)
        ensures
            match self {
                Errors::RequestError(m) => r@ == "request error: "@ + m@,
                Errors::NotJsonError(m) => r@ == "response is not JSON: "@ + m@,
                Errors::JsonDeserializeError(m) => r@ == "JSON error: "@ + m@,
                Errors::APIError(v, s, m) => r@ == "API error "@ + v@ + ": "@ + s@ + ": "@ + m@,
                Errors::EncryptionError(m) => r@ == "encryption error: "@ + m@,
                Errors::ValueError(m) => r@ == "value error: "@ + m@,
                Errors::Base64Error(m) => r@ == "base64 error: "@ + m@,
                Errors::HexError(m) => r@ == "hex error: "@ + m@,
                Errors::StringDecodeError(m) => r@ == "text is not UTF-8: "@ + m@,
                Errors::OtherErrors(m) => r@ == "error: "@ + m@,
                Errors::NotAuthenticated => r@ == "not authenticated"@,
            },
    {
        match self {
            Errors::RequestError(m) => String::from_str("request error: ").concat(m.as_str()),
            Errors::NotJsonError(m) => String::from_str("response is not JSON: ").concat(
                m.as_str(),
            ),
            Errors::JsonDeserializeError(m) => String::from_str("JSON error: ").concat(m.as_str()),
            Errors::APIError(v, s, m) => String::from_str("API error ").concat(v.as_str()).concat(
                ": ",
            ).concat(s.as_str()).concat(": ").concat(m.as_str()),
            Errors::EncryptionError(m) => String::from_str("encryption error: ").concat(m.as_str()),
            Errors::ValueError(m) => String::from_str("value error: ").concat(m.as_str()),
            Errors::Base64Error(m) => String::from_str("base64 error: ").concat(m.as_str()),
            Errors::HexError(m) => String::from_str("hex error: ").concat(m.as_str()),
            Errors::StringDecodeError(m) => String::from_str("text is not UTF-8: ").concat(
                m.as_str(),
            ),
            Errors::OtherErrors(m) => String::from_str("error: ").concat(m.as_str()),
            Errors::NotAuthenticated => String::from_str("not authenticated"),
        }
    }
}

} // verus!
