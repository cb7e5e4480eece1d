//! The short-code generator: a fixed-length string of characters drawn at
//! random from the alphanumeric alphabet.

use vstd::prelude::*;
use rand::Rng;
use crate::text::is_alphanumeric_char;

verus! {

/// A well-formed short code: exactly 7 characters, each ASCII alphanumeric.
pub open spec fn is_valid_short_code(s: Seq<char>) -> bool {
    &&& s.len() == 7
    &&& forall|i: int| 0 <= i < s.len() ==> is_alphanumeric_char(s[i])
}

/// Relies on rand's `Alphanumeric` distribution: sampling it yields bytes
/// drawn from the 62-symbol set of ASCII digits and letters, so every
/// character of the collected string is alphanumeric. The characters are
/// random; nothing more is promised of them.
#[verifier::external_body]
fn sample_alphanumeric(n: usize) -> (r: String)
    ensures
        r@.len() == n as nat,
        forall|i: int| 0 <= i < r@.len() ==> is_alphanumeric_char(r@[i]),
{
    rand::thread_rng()
        .sample_iter(&rand::distributions::Alphanumeric)
        .take(n)
        .map(char::from)
        .collect()
}

/// Draws a fresh short code: 7 random alphanumeric characters. Distinct calls
/// draw independently; uniqueness against stored codes is not checked here.
pub fn generate_short_code() -> (r: String)
    ensures
        is_valid_short_code(r@),
{
    sample_alphanumeric(7)
}

} // verus!
