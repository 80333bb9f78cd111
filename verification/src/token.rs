//! The shared token: the one that was supplied, or a random one.

use vstd::prelude::*;

verus! {

/// The number of characters of a generated token.
pub const TOKEN_LENGTH: usize = 20;

/// `c` is an ASCII letter or digit.
pub open spec fn is_alphanumeric(c: char) -> bool {
    ||| '0' <= c <= '9'
    ||| 'A' <= c <= 'Z'
    ||| 'a' <= c <= 'z'
}

/// `token` could have been generated: it has the length of a generated
/// token and holds ASCII letters and digits only.
pub open spec fn is_generated_token(token: Seq<char>) -> bool {
    &&& token.len() == TOKEN_LENGTH
    &&& forall|i: int| 0 <= i < token.len() ==> is_alphanumeric(#[trigger] token[i])
}

/// One sample of `rand::distributions::Alphanumeric`, drawn from
/// `rand::thread_rng()`. The distribution yields the bytes of the ASCII
/// letters and digits; which of them comes is left open.
#[verifier::external_body]
fn sample_alphanumeric() -> (byte: u8)
    ensures
        is_alphanumeric(byte as char),
{
    rand::Rng::sample(&mut rand::thread_rng(), rand::distributions::Alphanumeric)
}

/// A fresh random token.
pub fn generate_token() -> (token: String)
    ensures
        is_generated_token(token@),
{
    let mut token = String::new();
    let mut count: usize = 0;
    while count < TOKEN_LENGTH
        invariant
            count <= TOKEN_LENGTH,
            token@.len() == count,
            forall|i: int| 0 <= i < token@.len() ==> is_alphanumeric(#[trigger] token@[i]),
        decreases TOKEN_LENGTH - count,
    {
        let byte = sample_alphanumeric();
        token.push(byte as char);
        count = count + 1;
    }
    token
}

/// The token of a run: the supplied one where there is one, else a fresh
/// random one.
pub fn effective_token(supplied: &Option<String>) -> (token: String)
    ensures
        match supplied {
            Some(given) => token@ == given@,
            None => is_generated_token(token@),
        },
{
    match supplied {
        Some(given) => given.clone(),
        None => generate_token(),
    }
}

} // verus!
