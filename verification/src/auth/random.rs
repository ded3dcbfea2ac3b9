//! Random credential material: tokens and keys are drawn from a fixed
//! alphanumeric alphabet, one uniformly random character at a time.

use vstd::prelude::*;

use rand::Rng;

verus! {

/// A character of the credential alphabet: ASCII letters and digits.
pub open spec fn is_token_char(c: char) -> bool {
    ('A' <= c && c <= 'Z') || ('a' <= c && c <= 'z') || ('0' <= c && c <= '9')
}

/// Every character of `s` comes from the credential alphabet.
pub open spec fn all_token_chars(s: Seq<char>) -> bool {
    forall|i: int| 0 <= i < s.len() ==> is_token_char(#[trigger] s[i])
}

/// Relies on rand's thread_rng and gen_range: a value drawn uniformly
/// from `0..bound`. Nothing but the range can be promised of it.
#[verifier::external_body]
fn random_below(bound: u32) -> (r: u32)
    requires
        1 <= bound,
    ensures
        r < bound,
{
    rand::thread_rng().gen_range(0..bound)
}

/// A fresh random string of `len` characters, each drawn independently
/// from the 62-character alphanumeric alphabet.
pub fn random_alphanumeric(len: usize) -> (r: String)
    ensures
        r@.len() == len,
        all_token_chars(r@),
{
    let alphabet = "ABCDEFGHIJKLMNOPQRSTUVWXYZabcdefghijklmnopqrstuvwxyz0123456789";
    proof {
        reveal_strlit("ABCDEFGHIJKLMNOPQRSTUVWXYZabcdefghijklmnopqrstuvwxyz0123456789");
        assert(alphabet@.len() == 62);
        assert(forall|i: int| 0 <= i < 62 ==> is_token_char(#[trigger] alphabet@[i]));
        assert(vstd::string::is_ascii(alphabet));
    }
    let mut out = String::new();
    let mut n: usize = 0;
    while n < len
        invariant
            n <= len,
            out@.len() == n,
            all_token_chars(out@),
            alphabet@.len() == 62,
            vstd::string::is_ascii(alphabet),
            forall|i: int| 0 <= i < 62 ==> is_token_char(#[trigger] alphabet@[i]),
        decreases len - n,
    {
        let idx = random_below(62) as usize;
        let c = alphabet.substring_ascii(idx, idx + 1);
        out.append(c);
        n = n + 1;
    }
    out
}

} // verus!
