use vstd::prelude::*;
use vstd::string::StringSliceAdditionalSpecFns;
use vstd::string::StrSliceExecFns;
use vstd::string::StringExecFns;
use crate::errors::Errors;

verus! {

/// The wire protocol carries message ciphertexts and initialization vectors
/// hex-encoded. Decoding is defined here over the UTF-8 bytes of the field:
/// two hex digits (either case) per output byte, nothing else admitted.
pub open spec fn is_hex_digit_byte(b: u8) -> bool {
    (0x30 <= b && b <= 0x39)  // '0'..'9'
    || (0x61 <= b && b <= 0x66)  // 'a'..'f'
    || (0x41 <= b && b <= 0x46)  // 'A'..'F'
}

pub open spec fn hex_digit_value(b: u8) -> u8
    recommends
        is_hex_digit_byte(b),
{
    if 0x30 <= b && b <= 0x39 {
        (b - 0x30) as u8
    } else if 0x61 <= b && b <= 0x66 {
        (b - 0x61 + 10) as u8
    } else {
        (b - 0x41 + 10) as u8
    }
}

/// What a hex string denotes: `None` when the length is odd or a
/// non-digit appears, otherwise the decoded bytes in order.
pub open spec fn spec_hex_decode(s: Seq<u8>) -> Option<Seq<u8>>
    decreases s.len(),
{
    if s.len() % 2 != 0 {
        None
    } else if s.len() == 0 {
        Some(Seq::empty())
    } else if is_hex_digit_byte(s[0]) && is_hex_digit_byte(s[1]) {
        match spec_hex_decode(s.skip(2)) {
            None => None,
            Some(rest) => Some(
                seq![(hex_digit_value(s[0]) * 16 + hex_digit_value(s[1])) as u8] + rest,
            ),
        }
    } else {
        None
    }
}

fn hex_digit(b: u8) -> (r: Option<u8>)
    ensures
        is_hex_digit_byte(b) ==> r == Some(hex_digit_value(b)),
        !is_hex_digit_byte(b) ==> r is None,
{
    if 0x30 <= b && b <= 0x39 {
        Some(b - 0x30)
    } else if 0x61 <= b && b <= 0x66 {
        Some(b - 0x61 + 10)
    } else if 0x41 <= b && b <= 0x46 {
        Some(b - 0x41 + 10)
    } else {
        None
    }
}

/// Decodes the hex bytes `bytes`; the result is exactly what
/// `spec_hex_decode` names, a `HexError` where that is `None`.
pub fn hex_decode_bytes(bytes: &Vec<u8>) -> (r: Result<Vec<u8>, Errors>)
    ensures
        match spec_hex_decode(bytes@) {
            Some(d) => r matches Ok(v) && v@ == d,
            None => r matches Err(e) && e is HexError,
        },
{
    if bytes.len() % 2 != 0 {
        return Err(Errors::HexError(String::from_str("hex string has an odd length")));
    }
    let mut out: Vec<u8> = Vec::new();
    let mut i: usize = 0;
    proof {
        assert(bytes@.skip(0) =~= bytes@);
    }
    while i < bytes.len()
        invariant
            i % 2 == 0,
            i <= bytes@.len(),
            bytes@.len() % 2 == 0,
            spec_hex_decode(bytes@) == match spec_hex_decode(bytes@.skip(i as int)) {
                None => None::<Seq<u8>>,
                Some(rest) => Some(out@ + rest),
            },
        decreases bytes@.len() - i,
    {
        let hi = hex_digit(bytes[i]);
        let lo = hex_digit(bytes[i + 1]);
        proof {
            assert(bytes@.skip(i as int)[0] == bytes@[i as int]);
            assert(bytes@.skip(i as int)[1] == bytes@[i + 1]);
            assert(bytes@.skip(i as int).skip(2) =~= bytes@.skip(i + 2));
        }
        match (hi, lo) {
            (Some(h), Some(l)) => {
                proof {
                    assert(h < 16 && l < 16);
                }
                out.push(h * 16 + l);
                i = i + 2;
            },
            _ => {
                return Err(Errors::HexError(
                    String::from_str("hex string holds a non-hex character"),
                ));
            },
        }
    }
    proof {
        assert(bytes@.skip(i as int) =~= Seq::<u8>::empty());
        assert(out@ + Seq::<u8>::empty() =~= out@);
    }
    Ok(out)
}

/// Decodes a hex `&str` field as the wire protocol uses it.
pub fn hex_decode(s: &str) -> (r: Result<Vec<u8>, Errors>)
    ensures
        match spec_hex_decode(s.spec_bytes()) {
            Some(d) => r matches Ok(v) && v@ == d,
            None => r matches Err(e) && e is HexError,
        },
{
    let bytes = s.as_bytes_vec();
    hex_decode_bytes(&bytes)
}

} // verus!
