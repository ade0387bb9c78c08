use vstd::prelude::*;
use vstd::string::StringSliceAdditionalSpecFns;
use vstd::string::StrSliceExecFns;
use vstd::string::StringExecFns;
use crate::errors::Errors;

verus! {

// The server wraps key material in small JSON documents: an object of
// string, number, boolean and null fields, at most one object deep, with
// arrays of scalars. That envelope grammar is defined here over the UTF-8
// bytes of the document, and the parser is proved to compute exactly it.
// A member outside the grammar (a fraction, a `\uXXXX` escape, deeper
// nesting) is skipped as a whole well-formed JSON value and carried as
// `Other`, so schema variation in fields the protocol does not read never
// fails a document.

/// A leaf value of an envelope document. `Other` stands for a well-formed
/// JSON value outside the envelope grammar (a fraction, an exotic escape, a
/// deeper nesting): it is carried so unknown fields never fail a document,
/// and it satisfies no extractor.
pub enum JsonScalarSpec {
    Null,
    Bool(bool),
    UInt(u64),
    Str(Seq<u8>),
    Other,
}

/// A field value: a scalar, an array of scalars, an object of scalars, or
/// any other well-formed JSON value, skipped.
pub enum JsonFieldSpec {
    Scalar(JsonScalarSpec),
    Arr(Seq<JsonScalarSpec>),
    Obj(Seq<(Seq<u8>, JsonScalarSpec)>),
    Other,
}

pub enum JsonScalar {
    Null,
    Bool(bool),
    UInt(u64),
    Str(Vec<u8>),
    Other,
}

pub enum JsonField {
    Scalar(JsonScalar),
    Arr(Vec<JsonScalar>),
    Obj(Vec<(Vec<u8>, JsonScalar)>),
    Other,
}

impl View for JsonScalar {
    type V = JsonScalarSpec;

    open spec fn view(&self) -> JsonScalarSpec {
        match self {
            JsonScalar::Null => JsonScalarSpec::Null,
            JsonScalar::Bool(b) => JsonScalarSpec::Bool(*b),
            JsonScalar::UInt(n) => JsonScalarSpec::UInt(*n),
            JsonScalar::Str(v) => JsonScalarSpec::Str(v@),
            JsonScalar::Other => JsonScalarSpec::Other,
        }
    }
}

impl View for JsonField {
    type V = JsonFieldSpec;

    open spec fn view(&self) -> JsonFieldSpec {
        match self {
            JsonField::Scalar(v) => JsonFieldSpec::Scalar(v@),
            JsonField::Arr(items) => JsonFieldSpec::Arr(
                items@.map_values(|x: JsonScalar| x@),
            ),
            JsonField::Obj(members) => JsonFieldSpec::Obj(
                members@.map_values(|p: (Vec<u8>, JsonScalar)| (p.0@, p.1@)),
            ),
            JsonField::Other => JsonFieldSpec::Other,
        }
    }
}

/// The view of a whole parsed document.
pub open spec fn spec_doc_view(doc: Seq<(Vec<u8>, JsonField)>) -> Seq<(Seq<u8>, JsonFieldSpec)> {
    doc.map_values(|p: (Vec<u8>, JsonField)| (p.0@, p.1@))
}

pub open spec fn is_json_ws(b: u8) -> bool {
    b == 0x20 || b == 0x09 || b == 0x0a || b == 0x0d
}

pub open spec fn spec_skip_ws(s: Seq<u8>, i: int) -> int
    decreases s.len() - i,
{
    if 0 <= i < s.len() && is_json_ws(s[i]) {
        spec_skip_ws(s, i + 1)
    } else {
        i
    }
}

pub proof fn lemma_skip_ws_bounds(s: Seq<u8>, i: int)
    requires
        0 <= i <= s.len(),
    ensures
        i <= spec_skip_ws(s, i) <= s.len(),
    decreases s.len() - i,
{
    if i < s.len() && is_json_ws(s[i]) {
        lemma_skip_ws_bounds(s, i + 1);
    }
}

/// What a backslash escape denotes, `None` for escapes outside the grammar.
pub open spec fn spec_escape_byte(b: u8) -> Option<u8> {
    if b == 0x22 {
        Some(0x22u8)
    } else if b == 0x5c {
        Some(0x5cu8)
    } else if b == 0x2f {
        Some(0x2fu8)
    } else if b == 0x62 {
        Some(0x08u8)
    } else if b == 0x66 {
        Some(0x0cu8)
    } else if b == 0x6e {
        Some(0x0au8)
    } else if b == 0x72 {
        Some(0x0du8)
    } else if b == 0x74 {
        Some(0x09u8)
    } else {
        None
    }
}

/// Scans a string body from `i` (just past the opening quote), accumulating
/// decoded bytes into `acc`; yields the value and the position past the
/// closing quote.
pub open spec fn spec_parse_string_body(s: Seq<u8>, i: int, acc: Seq<u8>) -> Option<(Seq<u8>, int)>
    decreases s.len() - i,
{
    if i < 0 || i >= s.len() {
        None
    } else if s[i] == 0x22 {
        Some((acc, i + 1))
    } else if s[i] == 0x5c {
        if i + 1 < s.len() {
            match spec_escape_byte(s[i + 1]) {
                Some(b) => spec_parse_string_body(s, i + 2, acc.push(b)),
                None => None,
            }
        } else {
            None
        }
    } else if s[i] < 0x20 {
        None
    } else {
        spec_parse_string_body(s, i + 1, acc.push(s[i]))
    }
}

pub open spec fn spec_parse_string(s: Seq<u8>, i: int) -> Option<(Seq<u8>, int)> {
    if 0 <= i < s.len() && s[i] == 0x22 {
        spec_parse_string_body(s, i + 1, Seq::empty())
    } else {
        None
    }
}

pub proof fn lemma_parse_string_body_advances(s: Seq<u8>, i: int, acc: Seq<u8>)
    requires
        0 <= i <= s.len(),
    ensures
        spec_parse_string_body(s, i, acc) matches Some((v, j)) ==> i + 1 <= j <= s.len(),
    decreases s.len() - i,
{
    if i < s.len() {
        if s[i] == 0x5c && i + 1 < s.len() {
            if let Some(b) = spec_escape_byte(s[i + 1]) {
                lemma_parse_string_body_advances(s, i + 2, acc.push(b));
            }
        } else if s[i] != 0x22 && s[i] >= 0x20 {
            lemma_parse_string_body_advances(s, i + 1, acc.push(s[i]));
        }
    }
}

pub proof fn lemma_parse_string_advances(s: Seq<u8>, i: int)
    ensures
        spec_parse_string(s, i) matches Some((v, j)) ==> i + 2 <= j <= s.len(),
{
    if 0 <= i < s.len() && s[i] == 0x22 {
        lemma_parse_string_body_advances(s, i + 1, Seq::empty());
    }
}

pub open spec fn is_json_digit(b: u8) -> bool {
    0x30 <= b <= 0x39
}

/// Accumulates a run of decimal digits into a 64-bit value; a value past
/// `u64::MAX` is malformed.
pub open spec fn spec_parse_digits(s: Seq<u8>, i: int, acc: u64) -> Option<(u64, int)>
    decreases s.len() - i,
{
    if 0 <= i < s.len() && is_json_digit(s[i]) {
        let d = (s[i] - 0x30) as u64;
        if acc > (0xffff_ffff_ffff_ffffu64 - d) / 10 {
            None
        } else {
            spec_parse_digits(s, i + 1, (10 * acc + d) as u64)
        }
    } else if 0 <= i <= s.len() {
        Some((acc, i))
    } else {
        None
    }
}

pub open spec fn spec_parse_number(s: Seq<u8>, i: int) -> Option<(u64, int)> {
    if 0 <= i < s.len() && is_json_digit(s[i]) {
        spec_parse_digits(s, i, 0)
    } else {
        None
    }
}

pub proof fn lemma_parse_digits_bounds(s: Seq<u8>, i: int, acc: u64)
    requires
        0 <= i <= s.len(),
    ensures
        spec_parse_digits(s, i, acc) matches Some((v, j)) ==> i <= j <= s.len(),
    decreases s.len() - i,
{
    if i < s.len() && is_json_digit(s[i]) {
        let d = (s[i] - 0x30) as u64;
        if !(acc > (0xffff_ffff_ffff_ffffu64 - d) / 10) {
            lemma_parse_digits_bounds(s, i + 1, (10 * acc + d) as u64);
        }
    }
}

pub proof fn lemma_parse_number_advances(s: Seq<u8>, i: int)
    ensures
        spec_parse_number(s, i) matches Some((v, j)) ==> i + 1 <= j <= s.len(),
{
    if 0 <= i < s.len() && is_json_digit(s[i]) {
        lemma_parse_digits_bounds(s, i + 1, (s[i] - 0x30) as u64);
    }
}

/// Parses one scalar at `i`: a string, an unsigned number, `true`, `false`
/// or `null`.
pub open spec fn spec_parse_scalar(s: Seq<u8>, i: int) -> Option<(JsonScalarSpec, int)> {
    if i < 0 || i >= s.len() {
        None
    } else if s[i] == 0x22 {
        match spec_parse_string(s, i) {
            Some((v, j)) => Some((JsonScalarSpec::Str(v), j)),
            None => None,
        }
    } else if is_json_digit(s[i]) {
        match spec_parse_number(s, i) {
            Some((n, j)) => Some((JsonScalarSpec::UInt(n), j)),
            None => None,
        }
    } else if s[i] == 0x74 {
        if i + 4 <= s.len() && s[i + 1] == 0x72 && s[i + 2] == 0x75 && s[i + 3] == 0x65 {
            Some((JsonScalarSpec::Bool(true), i + 4))
        } else {
            None
        }
    } else if s[i] == 0x66 {
        if i + 5 <= s.len() && s[i + 1] == 0x61 && s[i + 2] == 0x6c && s[i + 3] == 0x73 && s[i + 4]
            == 0x65 {
            Some((JsonScalarSpec::Bool(false), i + 5))
        } else {
            None
        }
    } else if s[i] == 0x6e {
        if i + 4 <= s.len() && s[i + 1] == 0x75 && s[i + 2] == 0x6c && s[i + 3] == 0x6c {
            Some((JsonScalarSpec::Null, i + 4))
        } else {
            None
        }
    } else {
        None
    }
}

pub proof fn lemma_parse_scalar_advances(s: Seq<u8>, i: int)
    ensures
        spec_parse_scalar(s, i) matches Some((v, j)) ==> i + 1 <= j <= s.len(),
{
    lemma_parse_string_advances(s, i);
    lemma_parse_number_advances(s, i);
}

/// The recursion budget the generic skipper runs on: the remaining input,
/// one unit per nested value. Every step consumes input before recursing,
/// so the budget never runs out before the input does.
pub open spec fn spec_skip_fuel(s: Seq<u8>, i: int) -> nat {
    (s.len() - i) as nat
}

/// Skips a string body from `i` (just past the opening quote) to just past
/// the unescaped closing quote; the escape after a backslash is consumed
/// blindly, whatever it is.
pub open spec fn spec_skip_string_body(s: Seq<u8>, i: int) -> Option<int>
    decreases s.len() - i,
{
    if i < 0 || i >= s.len() {
        None
    } else if s[i] == 0x22 {
        Some(i + 1)
    } else if s[i] == 0x5c {
        if i + 2 <= s.len() {
            spec_skip_string_body(s, i + 2)
        } else {
            None
        }
    } else if s[i] < 0x20 {
        None
    } else {
        spec_skip_string_body(s, i + 1)
    }
}

pub open spec fn spec_skip_string(s: Seq<u8>, i: int) -> Option<int> {
    if 0 <= i < s.len() && s[i] == 0x22 {
        spec_skip_string_body(s, i + 1)
    } else {
        None
    }
}

pub proof fn lemma_skip_string_body_advances(s: Seq<u8>, i: int)
    requires
        0 <= i <= s.len(),
    ensures
        spec_skip_string_body(s, i) matches Some(j) ==> i + 1 <= j <= s.len(),
    decreases s.len() - i,
{
    if i < s.len() {
        if s[i] == 0x5c {
            if i + 2 <= s.len() {
                lemma_skip_string_body_advances(s, i + 2);
            }
        } else if s[i] != 0x22 && s[i] >= 0x20 {
            lemma_skip_string_body_advances(s, i + 1);
        }
    }
}

pub proof fn lemma_skip_string_advances(s: Seq<u8>, i: int)
    ensures
        spec_skip_string(s, i) matches Some(j) ==> i + 2 <= j <= s.len(),
{
    if 0 <= i < s.len() && s[i] == 0x22 {
        lemma_skip_string_body_advances(s, i + 1);
    }
}

/// A byte a JSON number may hold: digits, sign, point, exponent. A skipped
/// number is tolerated by shape, not validated: its value is discarded.
pub open spec fn is_json_number_byte(b: u8) -> bool {
    is_json_digit(b) || b == 0x2d || b == 0x2b || b == 0x2e || b == 0x45 || b == 0x65
}

pub open spec fn spec_skip_number(s: Seq<u8>, i: int) -> int
    decreases s.len() - i,
{
    if 0 <= i < s.len() && is_json_number_byte(s[i]) {
        spec_skip_number(s, i + 1)
    } else {
        i
    }
}

pub proof fn lemma_skip_number_bounds(s: Seq<u8>, i: int)
    requires
        0 <= i <= s.len(),
    ensures
        i <= spec_skip_number(s, i) <= s.len(),
    decreases s.len() - i,
{
    if i < s.len() && is_json_number_byte(s[i]) {
        lemma_skip_number_bounds(s, i + 1);
    }
}

/// Skips any well-formed JSON value at `i`, however deeply it nests; yields
/// the position just past it.
pub open spec fn spec_skip_value(s: Seq<u8>, i: int, fuel: nat) -> Option<int>
    decreases fuel,
{
    if fuel == 0 || i < 0 || i >= s.len() {
        None
    } else if s[i] == 0x22 {
        spec_skip_string(s, i)
    } else if is_json_digit(s[i]) || s[i] == 0x2d {
        Some(spec_skip_number(s, i))
    } else if s[i] == 0x74 {
        if i + 4 <= s.len() && s[i + 1] == 0x72 && s[i + 2] == 0x75 && s[i + 3] == 0x65 {
            Some(i + 4)
        } else {
            None
        }
    } else if s[i] == 0x66 {
        if i + 5 <= s.len() && s[i + 1] == 0x61 && s[i + 2] == 0x6c && s[i + 3] == 0x73 && s[i + 4]
            == 0x65 {
            Some(i + 5)
        } else {
            None
        }
    } else if s[i] == 0x6e {
        if i + 4 <= s.len() && s[i + 1] == 0x75 && s[i + 2] == 0x6c && s[i + 3] == 0x6c {
            Some(i + 4)
        } else {
            None
        }
    } else if s[i] == 0x7b {
        let j = spec_skip_ws(s, i + 1);
        if j < s.len() && s[j] == 0x7d {
            Some(j + 1)
        } else {
            spec_skip_members(s, j, (fuel - 1) as nat)
        }
    } else if s[i] == 0x5b {
        let j = spec_skip_ws(s, i + 1);
        if j < s.len() && s[j] == 0x5d {
            Some(j + 1)
        } else {
            spec_skip_items(s, j, (fuel - 1) as nat)
        }
    } else {
        None
    }
}

/// Skips the members of a non-empty object, `i` at the first key.
pub open spec fn spec_skip_members(s: Seq<u8>, i: int, fuel: nat) -> Option<int>
    decreases fuel,
{
    if fuel == 0 {
        None
    } else {
        match spec_skip_string(s, i) {
            None => None,
            Some(j) => {
                let c = spec_skip_ws(s, j);
                if c < s.len() && s[c] == 0x3a {
                    let v0 = spec_skip_ws(s, c + 1);
                    match spec_skip_value(s, v0, (fuel - 1) as nat) {
                        None => None,
                        Some(e) => {
                            let t = spec_skip_ws(s, e);
                            if t < s.len() && s[t] == 0x2c {
                                spec_skip_members(s, spec_skip_ws(s, t + 1), (fuel - 1) as nat)
                            } else if t < s.len() && s[t] == 0x7d {
                                Some(t + 1)
                            } else {
                                None
                            }
                        },
                    }
                } else {
                    None
                }
            },
        }
    }
}

/// Skips the items of a non-empty array, `i` at the first item.
pub open spec fn spec_skip_items(s: Seq<u8>, i: int, fuel: nat) -> Option<int>
    decreases fuel,
{
    if fuel == 0 {
        None
    } else {
        match spec_skip_value(s, i, (fuel - 1) as nat) {
            None => None,
            Some(e) => {
                let t = spec_skip_ws(s, e);
                if t < s.len() && s[t] == 0x2c {
                    spec_skip_items(s, spec_skip_ws(s, t + 1), (fuel - 1) as nat)
                } else if t < s.len() && s[t] == 0x5d {
                    Some(t + 1)
                } else {
                    None
                }
            },
        }
    }
}

pub proof fn lemma_skip_value_advances(s: Seq<u8>, i: int, fuel: nat)
    ensures
        spec_skip_value(s, i, fuel) matches Some(j) ==> i + 1 <= j <= s.len(),
    decreases fuel,
{
    if fuel > 0 && 0 <= i < s.len() {
        lemma_skip_string_advances(s, i);
        lemma_skip_number_bounds(s, i);
        if is_json_digit(s[i]) || s[i] == 0x2d {
            assert(spec_skip_number(s, i) == spec_skip_number(s, i + 1));
            lemma_skip_number_bounds(s, i + 1);
        }
        if s[i] == 0x7b || s[i] == 0x5b {
            lemma_skip_ws_bounds(s, i + 1);
            let j = spec_skip_ws(s, i + 1);
            lemma_skip_members_advances(s, j, (fuel - 1) as nat);
            lemma_skip_items_advances(s, j, (fuel - 1) as nat);
        }
    }
}

pub proof fn lemma_skip_members_advances(s: Seq<u8>, i: int, fuel: nat)
    ensures
        spec_skip_members(s, i, fuel) matches Some(j) ==> i + 1 <= j <= s.len(),
    decreases fuel,
{
    if fuel > 0 {
        lemma_skip_string_advances(s, i);
        if let Some(j) = spec_skip_string(s, i) {
            lemma_skip_ws_bounds(s, j);
            let c = spec_skip_ws(s, j);
            if c < s.len() && s[c] == 0x3a {
                lemma_skip_ws_bounds(s, c + 1);
                let v0 = spec_skip_ws(s, c + 1);
                lemma_skip_value_advances(s, v0, (fuel - 1) as nat);
                if let Some(e) = spec_skip_value(s, v0, (fuel - 1) as nat) {
                    lemma_skip_ws_bounds(s, e);
                    let t = spec_skip_ws(s, e);
                    if t < s.len() && s[t] == 0x2c {
                        lemma_skip_ws_bounds(s, t + 1);
                        lemma_skip_members_advances(s, spec_skip_ws(s, t + 1), (fuel - 1) as nat);
                    }
                }
            }
        }
    }
}

pub proof fn lemma_skip_items_advances(s: Seq<u8>, i: int, fuel: nat)
    ensures
        spec_skip_items(s, i, fuel) matches Some(j) ==> i + 1 <= j <= s.len(),
    decreases fuel,
{
    if fuel > 0 {
        lemma_skip_value_advances(s, i, (fuel - 1) as nat);
        if let Some(e) = spec_skip_value(s, i, (fuel - 1) as nat) {
            lemma_skip_ws_bounds(s, e);
            let t = spec_skip_ws(s, e);
            if t < s.len() && s[t] == 0x2c {
                lemma_skip_ws_bounds(s, t + 1);
                lemma_skip_items_advances(s, spec_skip_ws(s, t + 1), (fuel - 1) as nat);
            }
        }
    }
}

/// Parses the items of a non-empty scalar array, `i` at the first item;
/// yields the items and the position past the closing bracket.
pub open spec fn spec_parse_array_items(s: Seq<u8>, i: int) -> Option<(Seq<JsonScalarSpec>, int)>
    decreases s.len() - i,
{
    match spec_parse_scalar(s, i) {
        None => None,
        Some((v, j)) => {
            let k = spec_skip_ws(s, j);
            if k < s.len() && s[k] == 0x2c {
                let m = spec_skip_ws(s, k + 1);
                proof {
                    lemma_parse_scalar_advances(s, i);
                    lemma_skip_ws_bounds(s, j);
                    lemma_skip_ws_bounds(s, k + 1);
                }
                match spec_parse_array_items(s, m) {
                    Some((rest, e)) => Some((seq![v] + rest, e)),
                    None => None,
                }
            } else if k < s.len() && s[k] == 0x5d {
                Some((seq![v], k + 1))
            } else {
                None
            }
        },
    }
}

pub open spec fn spec_parse_array(s: Seq<u8>, i: int) -> Option<(Seq<JsonScalarSpec>, int)> {
    if 0 <= i < s.len() && s[i] == 0x5b {
        let j = spec_skip_ws(s, i + 1);
        if j < s.len() && s[j] == 0x5d {
            Some((Seq::empty(), j + 1))
        } else {
            spec_parse_array_items(s, j)
        }
    } else {
        None
    }
}

/// One scalar-object member value at `i`: a scalar of the grammar, or any
/// other well-formed JSON value, skipped and carried as `Other`.
pub open spec fn spec_parse_member_value(s: Seq<u8>, i: int) -> Option<(JsonScalarSpec, int)> {
    match spec_parse_scalar(s, i) {
        Some(p) => Some(p),
        None => match spec_skip_value(s, i, spec_skip_fuel(s, i)) {
            Some(e) => Some((JsonScalarSpec::Other, e)),
            None => None,
        },
    }
}

pub proof fn lemma_parse_member_value_advances(s: Seq<u8>, i: int)
    ensures
        spec_parse_member_value(s, i) matches Some((v, j)) ==> i + 1 <= j <= s.len(),
{
    lemma_parse_scalar_advances(s, i);
    lemma_skip_value_advances(s, i, spec_skip_fuel(s, i));
}

/// Parses the members of a non-empty scalar object, `i` at the first key;
/// yields the members in order and the position past the closing brace.
pub open spec fn spec_parse_scalar_members(s: Seq<u8>, i: int) -> Option<
    (Seq<(Seq<u8>, JsonScalarSpec)>, int),
>
    decreases s.len() - i,
{
    match spec_parse_string(s, i) {
        None => None,
        Some((key, j)) => {
            let c = spec_skip_ws(s, j);
            if c < s.len() && s[c] == 0x3a {
                let v0 = spec_skip_ws(s, c + 1);
                match spec_parse_member_value(s, v0) {
                    None => None,
                    Some((v, e)) => {
                        let t = spec_skip_ws(s, e);
                        if t < s.len() && s[t] == 0x2c {
                            let n = spec_skip_ws(s, t + 1);
                            proof {
                                lemma_parse_string_advances(s, i);
                                lemma_skip_ws_bounds(s, j);
                                lemma_parse_member_value_advances(s, v0);
                                lemma_skip_ws_bounds(s, c + 1);
                                lemma_skip_ws_bounds(s, e);
                                lemma_skip_ws_bounds(s, t + 1);
                            }
                            match spec_parse_scalar_members(s, n) {
                                Some((rest, end)) => Some((seq![(key, v)] + rest, end)),
                                None => None,
                            }
                        } else if t < s.len() && s[t] == 0x7d {
                            Some((seq![(key, v)], t + 1))
                        } else {
                            None
                        }
                    },
                }
            } else {
                None
            }
        },
    }
}

pub open spec fn spec_parse_scalar_object(s: Seq<u8>, i: int) -> Option<
    (Seq<(Seq<u8>, JsonScalarSpec)>, int),
> {
    if 0 <= i < s.len() && s[i] == 0x7b {
        let j = spec_skip_ws(s, i + 1);
        if j < s.len() && s[j] == 0x7d {
            Some((Seq::empty(), j + 1))
        } else {
            spec_parse_scalar_members(s, j)
        }
    } else {
        None
    }
}

/// A well-formed value outside the grammar, skipped and carried as `Other`.
pub open spec fn spec_parse_other_field(s: Seq<u8>, i: int) -> Option<(JsonFieldSpec, int)> {
    match spec_skip_value(s, i, spec_skip_fuel(s, i)) {
        Some(j) => Some((JsonFieldSpec::Other, j)),
        None => None,
    }
}

/// Parses one field value: a scalar, an array of scalars, an object of
/// scalars, or — falling back — any other well-formed JSON value.
pub open spec fn spec_parse_field(s: Seq<u8>, i: int) -> Option<(JsonFieldSpec, int)> {
    if 0 <= i < s.len() && s[i] == 0x7b {
        match spec_parse_scalar_object(s, i) {
            Some((m, j)) => Some((JsonFieldSpec::Obj(m), j)),
            None => spec_parse_other_field(s, i),
        }
    } else if 0 <= i < s.len() && s[i] == 0x5b {
        match spec_parse_array(s, i) {
            Some((a, j)) => Some((JsonFieldSpec::Arr(a), j)),
            None => spec_parse_other_field(s, i),
        }
    } else {
        match spec_parse_scalar(s, i) {
            Some((v, j)) => Some((JsonFieldSpec::Scalar(v), j)),
            None => spec_parse_other_field(s, i),
        }
    }
}

pub proof fn lemma_parse_array_items_advances(s: Seq<u8>, i: int)
    requires
        0 <= i,
    ensures
        spec_parse_array_items(s, i) matches Some((v, j)) ==> i + 1 <= j <= s.len(),
    decreases s.len() - i,
{
    lemma_parse_scalar_advances(s, i);
    if let Some((v, j)) = spec_parse_scalar(s, i) {
        lemma_skip_ws_bounds(s, j);
        let k = spec_skip_ws(s, j);
        if k < s.len() && s[k] == 0x2c {
            lemma_skip_ws_bounds(s, k + 1);
            lemma_parse_array_items_advances(s, spec_skip_ws(s, k + 1));
        }
    }
}

pub proof fn lemma_parse_scalar_members_advances(s: Seq<u8>, i: int)
    requires
        0 <= i,
    ensures
        spec_parse_scalar_members(s, i) matches Some((v, j)) ==> i + 1 <= j <= s.len(),
    decreases s.len() - i,
{
    lemma_parse_string_advances(s, i);
    if let Some((key, j)) = spec_parse_string(s, i) {
        lemma_skip_ws_bounds(s, j);
        let c = spec_skip_ws(s, j);
        if c < s.len() && s[c] == 0x3a {
            lemma_skip_ws_bounds(s, c + 1);
            let v0 = spec_skip_ws(s, c + 1);
            lemma_parse_member_value_advances(s, v0);
            if let Some((v, e)) = spec_parse_member_value(s, v0) {
                lemma_skip_ws_bounds(s, e);
                let t = spec_skip_ws(s, e);
                if t < s.len() && s[t] == 0x2c {
                    lemma_skip_ws_bounds(s, t + 1);
                    lemma_parse_scalar_members_advances(s, spec_skip_ws(s, t + 1));
                }
            }
        }
    }
}

pub proof fn lemma_parse_field_advances(s: Seq<u8>, i: int)
    requires
        0 <= i,
    ensures
        spec_parse_field(s, i) matches Some((v, j)) ==> i + 1 <= j <= s.len(),
{
    lemma_parse_scalar_advances(s, i);
    lemma_skip_value_advances(s, i, spec_skip_fuel(s, i));
    if 0 <= i < s.len() && s[i] == 0x7b {
        lemma_skip_ws_bounds(s, i + 1);
        lemma_parse_scalar_members_advances(s, spec_skip_ws(s, i + 1));
    } else if 0 <= i < s.len() && s[i] == 0x5b {
        lemma_skip_ws_bounds(s, i + 1);
        lemma_parse_array_items_advances(s, spec_skip_ws(s, i + 1));
    }
}

/// Parses the members of a non-empty top-level object, `i` at the first key.
pub open spec fn spec_parse_top_members(s: Seq<u8>, i: int) -> Option<
    (Seq<(Seq<u8>, JsonFieldSpec)>, int),
>
    decreases s.len() - i,
{
    match spec_parse_string(s, i) {
        None => None,
        Some((key, j)) => {
            let c = spec_skip_ws(s, j);
            if c < s.len() && s[c] == 0x3a {
                let v0 = spec_skip_ws(s, c + 1);
                match spec_parse_field(s, v0) {
                    None => None,
                    Some((v, e)) => {
                        let t = spec_skip_ws(s, e);
                        if t < s.len() && s[t] == 0x2c {
                            let n = spec_skip_ws(s, t + 1);
                            proof {
                                lemma_parse_string_advances(s, i);
                                lemma_skip_ws_bounds(s, j);
                                lemma_skip_ws_bounds(s, c + 1);
                                lemma_parse_field_advances(s, v0);
                                lemma_skip_ws_bounds(s, e);
                                lemma_skip_ws_bounds(s, t + 1);
                            }
                            match spec_parse_top_members(s, n) {
                                Some((rest, end)) => Some((seq![(key, v)] + rest, end)),
                                None => None,
                            }
                        } else if t < s.len() && s[t] == 0x7d {
                            Some((seq![(key, v)], t + 1))
                        } else {
                            None
                        }
                    },
                }
            } else {
                None
            }
        },
    }
}

pub open spec fn spec_parse_top_object(s: Seq<u8>, i: int) -> Option<
    (Seq<(Seq<u8>, JsonFieldSpec)>, int),
> {
    if 0 <= i < s.len() && s[i] == 0x7b {
        let j = spec_skip_ws(s, i + 1);
        if j < s.len() && s[j] == 0x7d {
            Some((Seq::empty(), j + 1))
        } else {
            spec_parse_top_members(s, j)
        }
    } else {
        None
    }
}

/// What a whole envelope document denotes: one object, nothing but
/// whitespace around it.
pub open spec fn spec_parse_document(s: Seq<u8>) -> Option<Seq<(Seq<u8>, JsonFieldSpec)>> {
    let i = spec_skip_ws(s, 0);
    match spec_parse_top_object(s, i) {
        Some((obj, j)) => {
            if spec_skip_ws(s, j) == s.len() {
                Some(obj)
            } else {
                None
            }
        },
        None => None,
    }
}

/// The value of the first member named `key`.
pub open spec fn spec_field_lookup(fields: Seq<(Seq<u8>, JsonFieldSpec)>, key: Seq<u8>) -> Option<
    JsonFieldSpec,
>
    decreases fields.len(),
{
    if fields.len() == 0 {
        None
    } else if fields[0].0 == key {
        Some(fields[0].1)
    } else {
        spec_field_lookup(fields.drop_first(), key)
    }
}

/// The value of the first member named `key` in a scalar object.
pub open spec fn spec_scalar_lookup(
    members: Seq<(Seq<u8>, JsonScalarSpec)>,
    key: Seq<u8>,
) -> Option<JsonScalarSpec>
    decreases members.len(),
{
    if members.len() == 0 {
        None
    } else if members[0].0 == key {
        Some(members[0].1)
    } else {
        spec_scalar_lookup(members.drop_first(), key)
    }
}

fn skip_ws(s: &Vec<u8>, i: usize) -> (r: usize)
    requires
        i <= s@.len(),
    ensures
        r == spec_skip_ws(s@, i as int),
        i <= r <= s@.len(),
{
    let mut j = i;
    while j < s.len() && (s[j] == 0x20 || s[j] == 0x09 || s[j] == 0x0a || s[j] == 0x0d)
        invariant
            i <= j <= s@.len(),
            spec_skip_ws(s@, i as int) == spec_skip_ws(s@, j as int),
        decreases s@.len() - j,
    {
        j = j + 1;
    }
    j
}

fn escape_byte(b: u8) -> (r: Option<u8>)
    ensures
        r == spec_escape_byte(b),
{
    if b == 0x22 {
        Some(0x22)
    } else if b == 0x5c {
        Some(0x5c)
    } else if b == 0x2f {
        Some(0x2f)
    } else if b == 0x62 {
        Some(0x08)
    } else if b == 0x66 {
        Some(0x0c)
    } else if b == 0x6e {
        Some(0x0a)
    } else if b == 0x72 {
        Some(0x0d)
    } else if b == 0x74 {
        Some(0x09)
    } else {
        None
    }
}

fn parse_string_body(s: &Vec<u8>, i: usize, acc: Vec<u8>) -> (r: Option<(Vec<u8>, usize)>)
    requires
        i <= s@.len(),
    ensures
        match spec_parse_string_body(s@, i as int, acc@) {
            Some((v, j)) => r matches Some(p) && p.0@ == v && p.1 == j,
            None => r is None,
        },
    decreases s@.len() - i,
{
    if i >= s.len() {
        None
    } else {
        let b = s[i];
        if b == 0x22 {
            Some((acc, i + 1))
        } else if b == 0x5c {
            if i + 1 < s.len() {
                match escape_byte(s[i + 1]) {
                    Some(e) => {
                        let mut acc = acc;
                        acc.push(e);
                        parse_string_body(s, i + 2, acc)
                    },
                    None => None,
                }
            } else {
                None
            }
        } else if b < 0x20 {
            None
        } else {
            let mut acc = acc;
            acc.push(b);
            parse_string_body(s, i + 1, acc)
        }
    }
}

fn parse_string(s: &Vec<u8>, i: usize) -> (r: Option<(Vec<u8>, usize)>)
    requires
        i <= s@.len(),
    ensures
        match spec_parse_string(s@, i as int) {
            Some((v, j)) => r matches Some(p) && p.0@ == v && p.1 == j && i < j <= s@.len(),
            None => r is None,
        },
{
    proof {
        lemma_parse_string_advances(s@, i as int);
    }
    if i < s.len() && s[i] == 0x22 {
        parse_string_body(s, i + 1, Vec::new())
    } else {
        None
    }
}

fn parse_digits(s: &Vec<u8>, i: usize, acc: u64) -> (r: Option<(u64, usize)>)
    requires
        i <= s@.len(),
    ensures
        match spec_parse_digits(s@, i as int, acc) {
            Some((v, j)) => r matches Some(p) && p.0 == v && p.1 == j,
            None => r is None,
        },
    decreases s@.len() - i,
{
    if i < s.len() && 0x30 <= s[i] && s[i] <= 0x39 {
        let d = (s[i] - 0x30) as u64;
        if acc > (0xffff_ffff_ffff_ffffu64 - d) / 10 {
            None
        } else {
            proof {
                let m = (0xffff_ffff_ffff_ffffu64 - d) as int;
                vstd::arithmetic::div_mod::lemma_fundamental_div_mod(m, 10);
            }
            parse_digits(s, i + 1, 10 * acc + d)
        }
    } else {
        Some((acc, i))
    }
}

fn parse_scalar(s: &Vec<u8>, i: usize) -> (r: Option<(JsonScalar, usize)>)
    requires
        i <= s@.len(),
    ensures
        match spec_parse_scalar(s@, i as int) {
            Some((v, j)) => r matches Some(p) && p.0@ == v && p.1 == j && i < j <= s@.len(),
            None => r is None,
        },
{
    proof {
        lemma_parse_scalar_advances(s@, i as int);
    }
    if i >= s.len() {
        None
    } else {
        let b = s[i];
        if b == 0x22 {
            match parse_string(s, i) {
                Some((v, j)) => Some((JsonScalar::Str(v), j)),
                None => None,
            }
        } else if 0x30 <= b && b <= 0x39 {
            match parse_digits(s, i, 0) {
                Some((n, j)) => Some((JsonScalar::UInt(n), j)),
                None => None,
            }
        } else if b == 0x74 {
            if s.len() - i >= 4 && s[i + 1] == 0x72 && s[i + 2] == 0x75 && s[i + 3] == 0x65 {
                Some((JsonScalar::Bool(true), i + 4))
            } else {
                None
            }
        } else if b == 0x66 {
            if s.len() - i >= 5 && s[i + 1] == 0x61 && s[i + 2] == 0x6c && s[i + 3] == 0x73 && s[i
                + 4] == 0x65 {
                Some((JsonScalar::Bool(false), i + 5))
            } else {
                None
            }
        } else if b == 0x6e {
            if s.len() - i >= 4 && s[i + 1] == 0x75 && s[i + 2] == 0x6c && s[i + 3] == 0x6c {
                Some((JsonScalar::Null, i + 4))
            } else {
                None
            }
        } else {
            None
        }
    }
}

fn skip_string_body(s: &Vec<u8>, i: usize) -> (r: Option<usize>)
    requires
        i <= s@.len(),
    ensures
        match spec_skip_string_body(s@, i as int) {
            Some(j) => r matches Some(p) && p == j,
            None => r is None,
        },
    decreases s@.len() - i,
{
    if i >= s.len() {
        None
    } else if s[i] == 0x22 {
        Some(i + 1)
    } else if s[i] == 0x5c {
        if s.len() - i >= 2 {
            skip_string_body(s, i + 2)
        } else {
            None
        }
    } else if s[i] < 0x20 {
        None
    } else {
        skip_string_body(s, i + 1)
    }
}

fn skip_string(s: &Vec<u8>, i: usize) -> (r: Option<usize>)
    requires
        i <= s@.len(),
    ensures
        match spec_skip_string(s@, i as int) {
            Some(j) => r matches Some(p) && p == j && i < j <= s@.len(),
            None => r is None,
        },
{
    proof {
        lemma_skip_string_advances(s@, i as int);
    }
    if i < s.len() && s[i] == 0x22 {
        skip_string_body(s, i + 1)
    } else {
        None
    }
}

fn skip_number(s: &Vec<u8>, i: usize) -> (r: usize)
    requires
        i <= s@.len(),
    ensures
        r == spec_skip_number(s@, i as int),
        i <= r <= s@.len(),
{
    let mut j = i;
    while j < s.len() && (0x30 <= s[j] && s[j] <= 0x39 || s[j] == 0x2d || s[j] == 0x2b || s[j]
        == 0x2e || s[j] == 0x45 || s[j] == 0x65)
        invariant
            i <= j <= s@.len(),
            spec_skip_number(s@, i as int) == spec_skip_number(s@, j as int),
        decreases s@.len() - j,
    {
        j = j + 1;
    }
    j
}

fn skip_value(s: &Vec<u8>, i: usize, fuel: usize) -> (r: Option<usize>)
    requires
        i <= s@.len(),
    ensures
        match spec_skip_value(s@, i as int, fuel as nat) {
            Some(j) => r matches Some(p) && p == j && i < j <= s@.len(),
            None => r is None,
        },
    decreases fuel,
{
    proof {
        lemma_skip_value_advances(s@, i as int, fuel as nat);
    }
    if fuel == 0 || i >= s.len() {
        None
    } else if s[i] == 0x22 {
        skip_string(s, i)
    } else if 0x30 <= s[i] && s[i] <= 0x39 || s[i] == 0x2d {
        Some(skip_number(s, i))
    } else if s[i] == 0x74 {
        if s.len() - i >= 4 && s[i + 1] == 0x72 && s[i + 2] == 0x75 && s[i + 3] == 0x65 {
            Some(i + 4)
        } else {
            None
        }
    } else if s[i] == 0x66 {
        if s.len() - i >= 5 && s[i + 1] == 0x61 && s[i + 2] == 0x6c && s[i + 3] == 0x73 && s[i + 4]
            == 0x65 {
            Some(i + 5)
        } else {
            None
        }
    } else if s[i] == 0x6e {
        if s.len() - i >= 4 && s[i + 1] == 0x75 && s[i + 2] == 0x6c && s[i + 3] == 0x6c {
            Some(i + 4)
        } else {
            None
        }
    } else if s[i] == 0x7b {
        let j = skip_ws(s, i + 1);
        if j < s.len() && s[j] == 0x7d {
            Some(j + 1)
        } else {
            skip_members(s, j, fuel - 1)
        }
    } else if s[i] == 0x5b {
        let j = skip_ws(s, i + 1);
        if j < s.len() && s[j] == 0x5d {
            Some(j + 1)
        } else {
            skip_items(s, j, fuel - 1)
        }
    } else {
        None
    }
}

fn skip_members(s: &Vec<u8>, i: usize, fuel: usize) -> (r: Option<usize>)
    requires
        i <= s@.len(),
    ensures
        match spec_skip_members(s@, i as int, fuel as nat) {
            Some(j) => r matches Some(p) && p == j && i < j <= s@.len(),
            None => r is None,
        },
    decreases fuel,
{
    proof {
        lemma_skip_members_advances(s@, i as int, fuel as nat);
    }
    if fuel == 0 {
        return None;
    }
    match skip_string(s, i) {
        None => None,
        Some(j) => {
            let c = skip_ws(s, j);
            if c < s.len() && s[c] == 0x3a {
                let v0 = skip_ws(s, c + 1);
                match skip_value(s, v0, fuel - 1) {
                    None => None,
                    Some(e) => {
                        let t = skip_ws(s, e);
                        if t < s.len() && s[t] == 0x2c {
                            let n = skip_ws(s, t + 1);
                            skip_members(s, n, fuel - 1)
                        } else if t < s.len() && s[t] == 0x7d {
                            Some(t + 1)
                        } else {
                            None
                        }
                    },
                }
            } else {
                None
            }
        },
    }
}

fn skip_items(s: &Vec<u8>, i: usize, fuel: usize) -> (r: Option<usize>)
    requires
        i <= s@.len(),
    ensures
        match spec_skip_items(s@, i as int, fuel as nat) {
            Some(j) => r matches Some(p) && p == j && i < j <= s@.len(),
            None => r is None,
        },
    decreases fuel,
{
    proof {
        lemma_skip_items_advances(s@, i as int, fuel as nat);
    }
    if fuel == 0 {
        return None;
    }
    match skip_value(s, i, fuel - 1) {
        None => None,
        Some(e) => {
            let t = skip_ws(s, e);
            if t < s.len() && s[t] == 0x2c {
                let n = skip_ws(s, t + 1);
                skip_items(s, n, fuel - 1)
            } else if t < s.len() && s[t] == 0x5d {
                Some(t + 1)
            } else {
                None
            }
        },
    }
}

fn parse_array_items(s: &Vec<u8>, i: usize) -> (r: Option<(Vec<JsonScalar>, usize)>)
    requires
        i <= s@.len(),
    ensures
        match spec_parse_array_items(s@, i as int) {
            Some((v, j)) => r matches Some(p) && p.0@.map_values(|x: JsonScalar| x@) == v && p.1
                == j && i < j <= s@.len(),
            None => r is None,
        },
    decreases s@.len() - i,
{
    proof {
        lemma_parse_array_items_advances(s@, i as int);
    }
    match parse_scalar(s, i) {
        None => None,
        Some((v, j)) => {
            let k = skip_ws(s, j);
            if k < s.len() && s[k] == 0x2c {
                let m = skip_ws(s, k + 1);
                match parse_array_items(s, m) {
                    Some((rest, e)) => {
                        let mut out: Vec<JsonScalar> = Vec::new();
                        out.push(v);
                        let mut rest = rest;
                        out.append(&mut rest);
                        proof {
                            let f = |x: JsonScalar| x@;
                            assert(out@.map_values(f) =~= seq![v@] + spec_parse_array_items(
                                s@,
                                m as int,
                            )->Some_0.0);
                        }
                        Some((out, e))
                    },
                    None => None,
                }
            } else if k < s.len() && s[k] == 0x5d {
                let mut out: Vec<JsonScalar> = Vec::new();
                out.push(v);
                proof {
                    let f = |x: JsonScalar| x@;
                    assert(out@.map_values(f) =~= seq![v@]);
                }
                Some((out, k + 1))
            } else {
                None
            }
        },
    }
}

fn parse_array(s: &Vec<u8>, i: usize) -> (r: Option<(Vec<JsonScalar>, usize)>)
    requires
        i <= s@.len(),
    ensures
        match spec_parse_array(s@, i as int) {
            Some((v, j)) => r matches Some(p) && p.0@.map_values(|x: JsonScalar| x@) == v && p.1
                == j && i < j <= s@.len(),
            None => r is None,
        },
{
    if i < s.len() && s[i] == 0x5b {
        let j = skip_ws(s, i + 1);
        if j < s.len() && s[j] == 0x5d {
            let out: Vec<JsonScalar> = Vec::new();
            proof {
                let f = |x: JsonScalar| x@;
                assert(out@.map_values(f) =~= Seq::<JsonScalarSpec>::empty());
            }
            Some((out, j + 1))
        } else {
            parse_array_items(s, j)
        }
    } else {
        None
    }
}

fn parse_member_value(s: &Vec<u8>, i: usize) -> (r: Option<(JsonScalar, usize)>)
    requires
        i <= s@.len(),
    ensures
        match spec_parse_member_value(s@, i as int) {
            Some((v, j)) => r matches Some(p) && p.0@ == v && p.1 == j && i < j <= s@.len(),
            None => r is None,
        },
{
    proof {
        lemma_parse_member_value_advances(s@, i as int);
    }
    match parse_scalar(s, i) {
        Some(p) => Some(p),
        None => {
            match skip_value(s, i, s.len() - i) {
                Some(e) => Some((JsonScalar::Other, e)),
                None => None,
            }
        },
    }
}

fn parse_scalar_members(s: &Vec<u8>, i: usize) -> (r: Option<(Vec<(Vec<u8>, JsonScalar)>, usize)>)
    requires
        i <= s@.len(),
    ensures
        match spec_parse_scalar_members(s@, i as int) {
            Some((v, j)) => r matches Some(p) && p.0@.map_values(
                |q: (Vec<u8>, JsonScalar)| (q.0@, q.1@),
            ) == v && p.1 == j && i < j <= s@.len(),
            None => r is None,
        },
    decreases s@.len() - i,
{
    proof {
        lemma_parse_scalar_members_advances(s@, i as int);
    }
    match parse_string(s, i) {
        None => None,
        Some((key, j)) => {
            let c = skip_ws(s, j);
            if c < s.len() && s[c] == 0x3a {
                let v0 = skip_ws(s, c + 1);
                match parse_member_value(s, v0) {
                    None => None,
                    Some((v, e)) => {
                        let t = skip_ws(s, e);
                        if t < s.len() && s[t] == 0x2c {
                            let n = skip_ws(s, t + 1);
                            match parse_scalar_members(s, n) {
                                Some((rest, end)) => {
                                    let mut out: Vec<(Vec<u8>, JsonScalar)> = Vec::new();
                                    out.push((key, v));
                                    let mut rest = rest;
                                    out.append(&mut rest);
                                    proof {
                                        let f = |q: (Vec<u8>, JsonScalar)| (q.0@, q.1@);
                                        assert(out@.map_values(f) =~= seq![(key@, v@)]
                                            + spec_parse_scalar_members(s@, n as int)->Some_0.0);
                                    }
                                    Some((out, end))
                                },
                                None => None,
                            }
                        } else if t < s.len() && s[t] == 0x7d {
                            let mut out: Vec<(Vec<u8>, JsonScalar)> = Vec::new();
                            out.push((key, v));
                            proof {
                                let f = |q: (Vec<u8>, JsonScalar)| (q.0@, q.1@);
                                assert(out@.map_values(f) =~= seq![(key@, v@)]);
                            }
                            Some((out, t + 1))
                        } else {
                            None
                        }
                    },
                }
            } else {
                None
            }
        },
    }
}

fn parse_scalar_object(s: &Vec<u8>, i: usize) -> (r: Option<(Vec<(Vec<u8>, JsonScalar)>, usize)>)
    requires
        i <= s@.len(),
    ensures
        match spec_parse_scalar_object(s@, i as int) {
            Some((v, j)) => r matches Some(p) && p.0@.map_values(
                |q: (Vec<u8>, JsonScalar)| (q.0@, q.1@),
            ) == v && p.1 == j && i < j <= s@.len(),
            None => r is None,
        },
{
    if i < s.len() && s[i] == 0x7b {
        let j = skip_ws(s, i + 1);
        if j < s.len() && s[j] == 0x7d {
            let out: Vec<(Vec<u8>, JsonScalar)> = Vec::new();
            proof {
                let f = |q: (Vec<u8>, JsonScalar)| (q.0@, q.1@);
                assert(out@.map_values(f) =~= Seq::<(Seq<u8>, JsonScalarSpec)>::empty());
            }
            Some((out, j + 1))
        } else {
            parse_scalar_members(s, j)
        }
    } else {
        None
    }
}

fn parse_field(s: &Vec<u8>, i: usize) -> (r: Option<(JsonField, usize)>)
    requires
        i <= s@.len(),
    ensures
        match spec_parse_field(s@, i as int) {
            Some((v, j)) => r matches Some(p) && p.0@ == v && p.1 == j && i < j <= s@.len(),
            None => r is None,
        },
{
    if i < s.len() && s[i] == 0x7b {
        match parse_scalar_object(s, i) {
            Some((m, j)) => Some((JsonField::Obj(m), j)),
            None => parse_other_field(s, i),
        }
    } else if i < s.len() && s[i] == 0x5b {
        match parse_array(s, i) {
            Some((a, j)) => Some((JsonField::Arr(a), j)),
            None => parse_other_field(s, i),
        }
    } else {
        match parse_scalar(s, i) {
            Some((v, j)) => Some((JsonField::Scalar(v), j)),
            None => parse_other_field(s, i),
        }
    }
}

fn parse_other_field(s: &Vec<u8>, i: usize) -> (r: Option<(JsonField, usize)>)
    requires
        i <= s@.len(),
    ensures
        match spec_parse_other_field(s@, i as int) {
            Some((v, j)) => r matches Some(p) && p.0@ == v && p.1 == j && i < j <= s@.len(),
            None => r is None,
        },
{
    proof {
        lemma_skip_value_advances(s@, i as int, spec_skip_fuel(s@, i as int));
    }
    match skip_value(s, i, s.len() - i) {
        Some(j) => Some((JsonField::Other, j)),
        None => None,
    }
}

fn parse_top_members(s: &Vec<u8>, i: usize) -> (r: Option<(Vec<(Vec<u8>, JsonField)>, usize)>)
    requires
        i <= s@.len(),
    ensures
        match spec_parse_top_members(s@, i as int) {
            Some((v, j)) => r matches Some(p) && spec_doc_view(p.0@) == v && p.1 == j && i < j
                <= s@.len(),
            None => r is None,
        },
    decreases s@.len() - i,
{
    proof {
        lemma_parse_string_advances(s@, i as int);
    }
    match parse_string(s, i) {
        None => None,
        Some((key, j)) => {
            let c = skip_ws(s, j);
            if c < s.len() && s[c] == 0x3a {
                let v0 = skip_ws(s, c + 1);
                proof {
                    lemma_parse_field_advances(s@, v0 as int);
                }
                match parse_field(s, v0) {
                    None => None,
                    Some((v, e)) => {
                        let t = skip_ws(s, e);
                        if t < s.len() && s[t] == 0x2c {
                            let n = skip_ws(s, t + 1);
                            match parse_top_members(s, n) {
                                Some((rest, end)) => {
                                    let mut out: Vec<(Vec<u8>, JsonField)> = Vec::new();
                                    out.push((key, v));
                                    let mut rest = rest;
                                    out.append(&mut rest);
                                    proof {
                                        assert(spec_doc_view(out@) =~= seq![(key@, v@)]
                                            + spec_parse_top_members(s@, n as int)->Some_0.0);
                                    }
                                    Some((out, end))
                                },
                                None => None,
                            }
                        } else if t < s.len() && s[t] == 0x7d {
                            let mut out: Vec<(Vec<u8>, JsonField)> = Vec::new();
                            out.push((key, v));
                            proof {
                                assert(spec_doc_view(out@) =~= seq![(key@, v@)]);
                            }
                            Some((out, t + 1))
                        } else {
                            None
                        }
                    },
                }
            } else {
                None
            }
        },
    }
}

fn parse_top_object(s: &Vec<u8>, i: usize) -> (r: Option<(Vec<(Vec<u8>, JsonField)>, usize)>)
    requires
        i <= s@.len(),
    ensures
        match spec_parse_top_object(s@, i as int) {
            Some((v, j)) => r matches Some(p) && spec_doc_view(p.0@) == v && p.1 == j && i < j
                <= s@.len(),
            None => r is None,
        },
{
    if i < s.len() && s[i] == 0x7b {
        let j = skip_ws(s, i + 1);
        if j < s.len() && s[j] == 0x7d {
            let out: Vec<(Vec<u8>, JsonField)> = Vec::new();
            proof {
                assert(spec_doc_view(out@) =~= Seq::<(Seq<u8>, JsonFieldSpec)>::empty());
            }
            Some((out, j + 1))
        } else {
            proof {
                lemma_parse_top_members_advances(s@, j as int);
            }
            parse_top_members(s, j)
        }
    } else {
        None
    }
}

proof fn lemma_parse_top_members_advances(s: Seq<u8>, i: int)
    requires
        0 <= i,
    ensures
        spec_parse_top_members(s, i) matches Some((v, j)) ==> i + 1 <= j <= s.len(),
    decreases s.len() - i,
{
    lemma_parse_string_advances(s, i);
    if let Some((key, j)) = spec_parse_string(s, i) {
        lemma_skip_ws_bounds(s, j);
        let c = spec_skip_ws(s, j);
        if c < s.len() && s[c] == 0x3a {
            lemma_skip_ws_bounds(s, c + 1);
            let v0 = spec_skip_ws(s, c + 1);
            lemma_parse_field_advances(s, v0);
            if let Some((v, e)) = spec_parse_field(s, v0) {
                lemma_skip_ws_bounds(s, e);
                let t = spec_skip_ws(s, e);
                if t < s.len() && s[t] == 0x2c {
                    lemma_skip_ws_bounds(s, t + 1);
                    lemma_parse_top_members_advances(s, spec_skip_ws(s, t + 1));
                }
            }
        }
    }
}

/// Parses a whole envelope document; the result is exactly what
/// `spec_parse_document` names, a `JsonDeserializeError` where that is
/// `None`.
pub fn parse_document(s: &Vec<u8>) -> (r: Result<Vec<(Vec<u8>, JsonField)>, Errors>)
    ensures
        match spec_parse_document(s@) {
            Some(d) => r matches Ok(o) && spec_doc_view(o@) == d,
            None => r matches Err(e) && e is JsonDeserializeError,
        },
{
    let i = skip_ws(s, 0);
    match parse_top_object(s, i) {
        Some((obj, j)) => {
            if skip_ws(s, j) == s.len() {
                Ok(obj)
            } else {
                Err(
                    Errors::JsonDeserializeError(
                        String::from_str("trailing characters after the document"),
                    ),
                )
            }
        },
        None => Err(Errors::JsonDeserializeError(String::from_str("malformed envelope document"))),
    }
}

/// Looks `key` up among the document's top-level members.
pub fn field_lookup<'a>(doc: &'a Vec<(Vec<u8>, JsonField)>, key: &str) -> (r: Option<
    &'a JsonField,
>)
    ensures
        match spec_field_lookup(spec_doc_view(doc@), key.spec_bytes()) {
            Some(f) => r matches Some(x) && x@ == f,
            None => r is None,
        },
{
    let key_bytes = key.as_bytes_vec();
    let mut idx: usize = 0;
    proof {
        assert(spec_doc_view(doc@).skip(0) =~= spec_doc_view(doc@));
    }
    while idx < doc.len()
        invariant
            idx <= doc@.len(),
            key_bytes@ == key.spec_bytes(),
            spec_field_lookup(spec_doc_view(doc@), key.spec_bytes()) == spec_field_lookup(
                spec_doc_view(doc@).skip(idx as int),
                key.spec_bytes(),
            ),
        decreases doc@.len() - idx,
    {
        let entry = &doc[idx];
        proof {
            assert(spec_doc_view(doc@).skip(idx as int)[0] == spec_doc_view(doc@)[idx as int]);
            assert(spec_doc_view(doc@).skip(idx as int).drop_first() =~= spec_doc_view(
                doc@,
            ).skip(idx + 1));
        }
        if bytes_eq(&entry.0, &key_bytes) {
            return Some(&entry.1);
        }
        idx = idx + 1;
    }
    proof {
        assert(spec_doc_view(doc@).skip(idx as int) =~= Seq::<(Seq<u8>, JsonFieldSpec)>::empty());
    }
    None
}

/// Looks `key` up among a nested scalar object's members.
pub fn scalar_lookup<'a>(members: &'a Vec<(Vec<u8>, JsonScalar)>, key: &str) -> (r: Option<
    &'a JsonScalar,
>)
    ensures
        match spec_scalar_lookup(
            members@.map_values(|q: (Vec<u8>, JsonScalar)| (q.0@, q.1@)),
            key.spec_bytes(),
        ) {
            Some(f) => r matches Some(x) && x@ == f,
            None => r is None,
        },
{
    let ghost mv = members@.map_values(|q: (Vec<u8>, JsonScalar)| (q.0@, q.1@));
    let key_bytes = key.as_bytes_vec();
    let mut idx: usize = 0;
    proof {
        assert(mv.skip(0) =~= mv);
    }
    while idx < members.len()
        invariant
            idx <= members@.len(),
            key_bytes@ == key.spec_bytes(),
            mv == members@.map_values(|q: (Vec<u8>, JsonScalar)| (q.0@, q.1@)),
            spec_scalar_lookup(mv, key.spec_bytes()) == spec_scalar_lookup(
                mv.skip(idx as int),
                key.spec_bytes(),
            ),
        decreases members@.len() - idx,
    {
        let entry = &members[idx];
        proof {
            assert(mv.skip(idx as int)[0] == mv[idx as int]);
            assert(mv.skip(idx as int).drop_first() =~= mv.skip(idx + 1));
        }
        if bytes_eq(&entry.0, &key_bytes) {
            return Some(&entry.1);
        }
        idx = idx + 1;
    }
    proof {
        assert(mv.skip(idx as int) =~= Seq::<(Seq<u8>, JsonScalarSpec)>::empty());
    }
    None
}

/// Byte-wise equality of two byte vectors.
pub fn bytes_eq(a: &Vec<u8>, b: &Vec<u8>) -> (r: bool)
    ensures
        r == (a@ == b@),
{
    if a.len() != b.len() {
        proof {
            assert(a@ != b@);
        }
        return false;
    }
    let mut i: usize = 0;
    while i < a.len()
        invariant
            a@.len() == b@.len(),
            i <= a@.len(),
            forall|j: int| 0 <= j < i ==> a@[j] == b@[j],
        decreases a@.len() - i,
    {
        if a[i] != b[i] {
            return false;
        }
        i = i + 1;
    }
    proof {
        assert(a@ =~= b@);
    }
    true
}

} // verus!
