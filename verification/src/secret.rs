//! Secret generator: short-lived, unguessable alphanumeric tokens (CSRF
//! token, PKCE verifier, per-container connection secret).

use vstd::prelude::*;

verus! {

/// Length of the per-container connection secret.
pub const CONNECTION_SECRET_LEN: usize = 32;

/// `c` is a character of the alphanumeric alphabet: ASCII letters and digits.
pub open spec fn is_alphanumeric_char(c: char) -> bool {
    ||| 97 <= c as u32 && c as u32 <= 122  // 'a' ..= 'z'
    ||| 65 <= c as u32 && c as u32 <= 90  // 'A' ..= 'Z'
    ||| 48 <= c as u32 && c as u32 <= 57  // '0' ..= '9'
}

/// `b` is the ASCII code of a letter or a digit.
pub open spec fn is_alphanumeric_byte(b: u8) -> bool {
    ||| 97 <= b && b <= 122
    ||| 65 <= b && b <= 90
    ||| 48 <= b && b <= 57
}

/// Every character of `s` belongs to the alphanumeric alphabet.
pub open spec fn is_alphanumeric_seq(s: Seq<char>) -> bool {
    forall|i: int| 0 <= i < s.len() ==> is_alphanumeric_char(#[trigger] s[i])
}

/// Relies on rand's `Alphanumeric` distribution sampled from `thread_rng`:
/// each sample is one byte drawn uniformly from the ASCII alphanumeric set
/// (a-z, A-Z, 0-9). Nothing further is assumed of the random outcome.
#[verifier::external_body]
fn sample_alphanumeric_byte() -> (r: u8)
    ensures
        is_alphanumeric_byte(r),
{
    rand::Rng::sample(&mut rand::thread_rng(), rand::distributions::Alphanumeric)
}

/// Relies on `String::from_utf8`: a vector of ASCII bytes is valid UTF-8 and
/// decodes to the string whose characters are exactly those bytes.
#[verifier::external_body]
fn ascii_bytes_to_string(v: Vec<u8>) -> (r: String)
    requires
        forall|i: int| 0 <= i < v@.len() ==> v@[i] < 128,
    ensures
        r@.len() == v@.len(),
        forall|i: int| 0 <= i < v@.len() ==> r@[i] == #[trigger] v@[i] as char,
{
    String::from_utf8(v).unwrap()
}

/// Draws a fresh random secret: exactly `length` characters, all drawn from
/// the alphanumeric alphabet.
pub fn generate_secret(length: usize) -> (r: String)
    ensures
        r@.len() == length,
        is_alphanumeric_seq(r@),
{
    let mut bytes: Vec<u8> = Vec::new();
    let mut k: usize = 0;
    while k < length
        invariant
            k <= length,
            bytes@.len() == k,
            forall|i: int| 0 <= i < bytes@.len() ==> is_alphanumeric_byte(#[trigger] bytes@[i]),
        decreases length - k,
    {
        bytes.push(sample_alphanumeric_byte());
        k = k + 1;
    }
    let r = ascii_bytes_to_string(bytes);
    proof {
        assert forall|i: int| 0 <= i < r@.len() implies is_alphanumeric_char(#[trigger] r@[i]) by {
            assert(is_alphanumeric_byte(bytes@[i]));
        }
    }
    r
}

/// Draws the fixed-length connection secret embedded in a container's launch
/// command.
pub fn generate_secret_token() -> (r: String)
    ensures
        r@.len() == CONNECTION_SECRET_LEN,
        is_alphanumeric_seq(r@),
{
    generate_secret(CONNECTION_SECRET_LEN)
}

} // verus!
