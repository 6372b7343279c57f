use vstd::prelude::*;

verus! {

/// The number of characters of a short code.
pub const CODE_LENGTH: usize = 6;

/// An ASCII letter or digit.
pub open spec fn is_alphanumeric(c: char) -> bool {
    ||| ('A' <= c && c <= 'Z')
    ||| ('a' <= c && c <= 'z')
    ||| ('0' <= c && c <= '9')
}

/// A well-formed short code: exactly `CODE_LENGTH` ASCII letters and digits.
pub open spec fn is_short_code(s: Seq<char>) -> bool {
    &&& s.len() == CODE_LENGTH
    &&& forall|i: int| 0 <= i < s.len() ==> is_alphanumeric(#[trigger] s[i])
}

/// Relies on std's String::push: the character is appended at the end.
pub assume_specification[ String::push ](s: &mut String, ch: char)
    ensures
        final(s)@ == old(s)@.push(ch),
;

/// Relies on rand's Alphanumeric distribution, sampled from the thread-local
/// generator: each draw is one of the 62 ASCII letters and digits.
#[verifier::external_body]
fn sample_alphanumeric() -> (c: char)
    ensures
        is_alphanumeric(c),
{
    char::from(rand::Rng::sample(&mut rand::rng(), rand::distr::Alphanumeric))
}

/// Draws a fresh random short code. Codes are not checked against existing
/// ones: the store's uniqueness constraint is the only guard.
pub fn generate_short_code() -> (r: String)
    ensures
        is_short_code(r@),
{
    let mut code = String::new();
    let mut i: usize = 0;
    while i < CODE_LENGTH
        invariant
            i <= CODE_LENGTH,
            code@.len() == i,
            forall|j: int| 0 <= j < i ==> is_alphanumeric(#[trigger] code@[j]),
        decreases CODE_LENGTH - i,
    {
        let c = sample_alphanumeric();
        code.push(c);
        i = i + 1;
    }
    code
}

} // verus!
