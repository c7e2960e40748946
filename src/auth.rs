//! Request authentication: the secret header and the shared secret.

use subtle::ConstantTimeEq;
use vstd::prelude::*;
use vstd::string::StringSliceAdditionalSpecFns;
use vstd::utf8::{decode_utf8, encode_utf8, is_ascii_chars, valid_utf8};

verus! {

/// ASCII lower-casing of one byte; other bytes stay as they are.
pub open spec fn ascii_lower(b: u8) -> u8 {
    if 65 <= b <= 90 {
        (b + 32) as u8
    } else {
        b
    }
}

/// Two byte strings are equal once ASCII letters are folded to lower case.
pub open spec fn eq_ignore_ascii_case_spec(a: Seq<u8>, b: Seq<u8>) -> bool {
    &&& a.len() == b.len()
    &&& forall|i: int| 0 <= i < a.len() ==> #[trigger] ascii_lower(a[i]) == ascii_lower(b[i])
}

/// Compares two byte strings, ignoring the case of ASCII letters.
pub fn eq_ignore_ascii_case(a: &[u8], b: &[u8]) -> (r: bool)
    ensures
        r == eq_ignore_ascii_case_spec(a@, b@),
{
    if a.len() != b.len() {
        return false;
    }
    let mut i: usize = 0;
    while i < a.len()
        invariant
            a@.len() == b@.len(),
            0 <= i <= a@.len(),
            forall|j: int| 0 <= j < i ==> #[trigger] ascii_lower(a@[j]) == ascii_lower(b@[j]),
        decreases a@.len() - i,
    {
        let x: u8 = a[i];
        let y: u8 = b[i];
        let lx: u8 = if 65 <= x && x <= 90 { x + 32 } else { x };
        let ly: u8 = if 65 <= y && y <= 90 { y + 32 } else { y };
        if lx != ly {
            assert(ascii_lower(a@[i as int]) != ascii_lower(b@[i as int]));
            return false;
        }
        i = i + 1;
    }
    true
}

/// Relies on subtle's `ConstantTimeEq` for byte slices and its conversion of
/// `Choice` into `bool`: the result is true exactly when both slices have the
/// same length and the same bytes.
#[verifier::external_body]
fn constant_time_eq(a: &[u8], b: &[u8]) -> (r: bool)
    ensures
        r == (a@ == b@),
{
    a.ct_eq(b).into()
}

/// Name of the header that carries the shared secret.
pub const SECRET_HEADER: &'static str = "X-Daylit-Secret";

/// Number of characters in a shared secret.
pub const SECRET_LEN: usize = 32;

/// One request header: its name (`field`) and its value.
pub struct Header {
    pub field: String,
    pub value: String,
}

impl Header {
    pub fn new(field: &str, value: &str) -> (h: Header)
        ensures
            h.field@ == field@,
            h.value@ == value@,
    {
        Header { field: field.to_owned(), value: value.to_owned() }
    }

    /// The header's name names the secret header, in any ASCII casing.
    pub open spec fn names_secret(&self) -> bool {
        eq_ignore_ascii_case_spec(encode_utf8(self.field@), SECRET_HEADER.spec_bytes())
    }
}

/// The header that authentication reads: the first one, in order, whose name
/// names the secret header.
pub open spec fn secret_header_index(headers: Seq<Header>, i: int) -> bool {
    &&& 0 <= i < headers.len()
    &&& headers[i].names_secret()
    &&& forall|j: int| 0 <= j < i ==> !(#[trigger] headers[j].names_secret())
}

/// A request is authentic when its first secret header holds exactly the
/// bytes of the expected secret.
pub open spec fn authentic(headers: Seq<Header>, secret: Seq<char>) -> bool {
    exists|i: int|
        #[trigger] secret_header_index(headers, i) && encode_utf8(headers[i].value@)
            == encode_utf8(secret)
}

/// Checks the secret header of a request against the expected secret; the
/// value is compared in constant time.
pub fn validate_request(headers: &[Header], expected_secret: &str) -> (r: bool)
    ensures
        r == authentic(headers@, expected_secret@),
{
    let name = SECRET_HEADER.as_bytes();
    let mut i: usize = 0;
    while i < headers.len()
        invariant
            0 <= i <= headers@.len(),
            name@ == SECRET_HEADER.spec_bytes(),
            forall|j: int| 0 <= j < i ==> !(#[trigger] headers@[j].names_secret()),
        decreases headers@.len() - i,
    {
        let h = &headers[i];
        if eq_ignore_ascii_case(h.field.as_str().as_bytes(), name) {
            assert(secret_header_index(headers@, i as int));
            let ok = constant_time_eq(h.value.as_str().as_bytes(), expected_secret.as_bytes());
            proof {
                if !ok {
                    assert forall|k: int| #[trigger] secret_header_index(headers@, k) implies k
                        == i by {
                        if k < i {
                        } else if k > i {
                            assert(!headers@[i as int].names_secret());
                        }
                    }
                }
            }
            return ok;
        }
        i = i + 1;
    }
    assert forall|k: int| !(#[trigger] secret_header_index(headers@, k)) by {
        if 0 <= k < headers@.len() {
            assert(!headers@[k].names_secret());
        }
    }
    false
}

/// ASCII letters and digits, the alphabet of the shared secret.
pub open spec fn is_alphanumeric_byte(b: u8) -> bool {
    (48 <= b <= 57) || (65 <= b <= 90) || (97 <= b <= 122)
}

pub open spec fn is_alphanumeric_char(c: char) -> bool {
    (c as u32) < 128 && is_alphanumeric_byte((c as u32) as u8)
}

/// A well-formed shared secret: exactly `SECRET_LEN` ASCII letters and digits.
pub open spec fn is_secret(s: Seq<char>) -> bool {
    &&& s.len() == SECRET_LEN
    &&& forall|i: int| 0 <= i < s.len() ==> #[trigger] is_alphanumeric_char(s[i])
}

/// `rand::rngs::StdRng`, a cryptographically secure generator, carried
/// unopened.
#[verifier::external_type_specification]
#[verifier::external_body]
pub struct ExStdRng(rand::rngs::StdRng);

/// Relies on `SeedableRng::from_rng` for `StdRng` seeded from `OsRng`: it
/// reports a failure of the operating system's generator as an error
/// (`None` here) instead of panicking.
#[verifier::external_body]
fn secure_rng() -> (r: Option<rand::rngs::StdRng>) {
    rand::SeedableRng::from_rng(rand::rngs::OsRng).ok()
}

/// Relies on rand's `Alphanumeric` distribution: every sample is one of the
/// 62 bytes `A-Z`, `a-z`, `0-9`.
#[verifier::external_body]
fn sample_alphanumeric(rng: &mut rand::rngs::StdRng) -> (b: u8)
    ensures
        is_alphanumeric_byte(b),
{
    rand::Rng::sample(rng, rand::distributions::Alphanumeric)
}

/// Relies on `String::from_utf8`: it succeeds exactly on valid UTF-8 and the
/// string then holds the characters those bytes encode.
#[verifier::external_body]
pub(crate) fn string_from_utf8(bytes: Vec<u8>) -> (r: Option<String>)
    ensures
        r is Some <==> valid_utf8(bytes@),
        r matches Some(s) ==> s@ == decode_utf8(bytes@),
{
    String::from_utf8(bytes).ok()
}

/// Draws a fresh shared secret from a secure generator seeded by the
/// operating system; `None` when the operating system supplies no randomness.
pub fn generate_secret() -> (r: Option<String>)
    ensures
        r matches Some(s) ==> is_secret(s@),
{
    let mut rng = match secure_rng() {
        Some(rng) => rng,
        None => return None,
    };
    let mut bytes: Vec<u8> = Vec::new();
    while bytes.len() < SECRET_LEN
        invariant
            bytes@.len() <= SECRET_LEN,
            forall|i: int| 0 <= i < bytes@.len() ==> #[trigger] is_alphanumeric_byte(bytes@[i]),
        decreases SECRET_LEN - bytes@.len(),
    {
        let b: u8 = sample_alphanumeric(&mut rng);
        bytes.push(b);
    }
    let ghost chars = Seq::new(bytes@.len(), |i: int| bytes@[i] as char);
    proof {
        assert forall|i: int| 0 <= i < chars.len() implies '\0' <= #[trigger] chars[i] <= '\u{7f}' by {
            let b = bytes@[i];
            assert(is_alphanumeric_byte(b));
            assert((b as char) as u32 == b as u32);
        }
        vstd::utf8::is_ascii_chars_encode_utf8(chars);
        assert(encode_utf8(chars) =~= bytes@);
        vstd::utf8::encode_utf8_valid_utf8(chars);
        vstd::utf8::encode_utf8_decode_utf8(chars);
    }
    string_from_utf8(bytes)
}

} // verus!
