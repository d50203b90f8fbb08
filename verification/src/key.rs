//! Session key generation.
//!
//! A session key is an opaque string identifier, treated as an unguessable
//! capability token. The default generator draws 64 characters from the
//! alphanumeric alphabet using a cryptographically strong random source.

use vstd::prelude::*;

verus! {

/// A character the default key generator can produce: ASCII alphanumeric.
pub open spec fn is_key_char(c: char) -> bool {
    ('a' <= c && c <= 'z') || ('A' <= c && c <= 'Z') || ('0' <= c && c <= '9')
}

/// Every character of the sequence is drawn from the key alphabet.
pub open spec fn is_key_text(s: Seq<char>) -> bool {
    forall|i: int| 0 <= i < s.len() ==> is_key_char(#[trigger] s[i])
}

/// Generates a random session key: 64 alphanumeric characters.
///
/// Relies on rand's `Alphanumeric` distribution: `sample_string` appends the
/// requested number of characters, each sampled uniformly from a-z, A-Z and
/// 0-9, using the thread-local cryptographically secure generator. The result
/// depends on the random source, so nothing beyond its shape is stated.
#[verifier::external_body]
pub fn generate_random_key() -> (r: String)
    ensures
        r@.len() == 64,
        is_key_text(r@),
{
    rand::distributions::DistString::sample_string(
        &rand::distributions::Alphanumeric,
        &mut rand::thread_rng(),
        64,
    )
}

} // verus!
