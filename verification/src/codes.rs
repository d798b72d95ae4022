use vstd::prelude::*;

verus! {

/// Length of every generated short code.
pub const CODE_LEN: usize = 6;

/// An ASCII byte of the code alphabet: a digit, an upper-case letter or a
/// lower-case letter.
pub open spec fn is_code_byte(b: u8) -> bool {
    (48 <= b && b <= 57) || (65 <= b && b <= 90) || (97 <= b && b <= 122)
}

/// A character of the code alphabet.
pub open spec fn is_code_char(c: char) -> bool {
    (48 <= c as u32 && c as u32 <= 57) || (65 <= c as u32 && c as u32 <= 90) || (97 <= c as u32
        && c as u32 <= 122)
}

/// A well-formed short code: exactly `CODE_LEN` characters, all drawn from
/// the alphanumeric alphabet.
pub open spec fn is_valid_code(s: Seq<char>) -> bool {
    &&& s.len() == CODE_LEN
    &&& forall|i: int| 0 <= i < s.len() ==> is_code_char(#[trigger] s[i])
}

/// Relies on rand's `Alphanumeric` distribution: sampling it yields a byte
/// taken from the 62-symbol charset of ASCII letters and digits.
#[verifier::external_body]
fn sample_alphanumeric_byte() -> (b: u8)
    ensures
        is_code_byte(b),
{
    <rand::distr::Alphanumeric as rand::distr::Distribution<u8>>::sample(
        &rand::distr::Alphanumeric,
        &mut rand::rng(),
    )
}

/// Relies on std's `String::from_utf8`: bytes that are all ASCII are valid
/// UTF-8 and decode to the string whose characters are exactly those bytes.
#[verifier::external_body]
fn ascii_bytes_to_string(bytes: Vec<u8>) -> (s: String)
    requires
        forall|i: int| 0 <= i < bytes@.len() ==> bytes@[i] < 128,
    ensures
        s@.len() == bytes@.len(),
        forall|i: int| 0 <= i < bytes@.len() ==> s@[i] == (bytes@[i] as char),
{
    match String::from_utf8(bytes) {
        Ok(s) => s,
        Err(_) => String::new(),
    }
}

/// Produces one candidate short code: `CODE_LEN` characters drawn
/// independently from the alphanumeric alphabet. No uniqueness against
/// existing codes is promised; collision avoidance belongs to the shorten
/// service.
pub fn generate_short_code() -> (code: String)
    ensures
        is_valid_code(code@),
{
    let mut bytes: Vec<u8> = Vec::new();
    let mut i: usize = 0;
    while i < CODE_LEN
        invariant
            i <= CODE_LEN,
            bytes@.len() == i,
            forall|j: int| 0 <= j < bytes@.len() ==> is_code_byte(#[trigger] bytes@[j]),
        decreases CODE_LEN - i,
    {
        bytes.push(sample_alphanumeric_byte());
        i = i + 1;
    }
    let code = ascii_bytes_to_string(bytes);
    assert forall|j: int| 0 <= j < code@.len() implies is_code_char(#[trigger] code@[j]) by {
        assert(is_code_byte(bytes@[j]));
        assert(code@[j] == (bytes@[j] as char));
    }
    code
}

} // verus!
