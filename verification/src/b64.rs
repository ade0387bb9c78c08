use vstd::prelude::*;
use base64::Engine;
use crate::errors::Errors;

verus! {

// The server base64-encodes two families of fields, each under its own
// engine of the base64 crate; every decode is a pure function of the input
// text, named here so contracts can speak of it exactly.

/// What the STANDARD engine (padded, `+/` alphabet) decodes `s` to.
pub uninterp spec fn spec_b64_standard_decode(s: Seq<char>) -> Option<Seq<u8>>;

/// What the URL_SAFE_NO_PAD engine (unpadded, `-_` alphabet) decodes `s` to.
pub uninterp spec fn spec_b64_url_nopad_decode(s: Seq<char>) -> Option<Seq<u8>>;

/// Relies on base64's `Engine::decode` with the STANDARD engine: the result
/// is a function of the input alone; rejected inputs yield `Err`.
#[verifier::external_body]
pub fn b64_standard_decode(s: &str) -> (r: Result<Vec<u8>, Errors>)
    ensures
        (r matches Ok(v) ==> spec_b64_standard_decode(s@) == Some(v@)),
        (r matches Err(e) ==> e is Base64Error && spec_b64_standard_decode(s@) is None),
{
    base64::engine::general_purpose::STANDARD
        .decode(s)
        .map_err(|e| Errors::Base64Error(format!("{e}")))
}

/// Relies on base64's `Engine::decode` with the URL_SAFE_NO_PAD engine, the
/// encoding of the raw RSA component fields.
#[verifier::external_body]
pub fn b64_url_nopad_decode(s: &str) -> (r: Result<Vec<u8>, Errors>)
    ensures
        (r matches Ok(v) ==> spec_b64_url_nopad_decode(s@) == Some(v@)),
        (r matches Err(e) ==> e is Base64Error && spec_b64_url_nopad_decode(s@) is None),
{
    base64::engine::general_purpose::URL_SAFE_NO_PAD
        .decode(s)
        .map_err(|e| Errors::Base64Error(format!("{e}")))
}

} // verus!
