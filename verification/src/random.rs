//! Uniform random sampling.
//!
//! All randomness enters the crate through [`random_index`]; everything built
//! on top of it is verified against the single guarantee that the index lies
//! below the bound, which holds of every outcome of the draw.

use vstd::prelude::*;
use rand::Rng;
use crate::text::{chars_to_string, str_to_chars};

verus! {

/// Relies on `rand::thread_rng` and `rand::Rng::gen_range`: for the non-empty
/// range `0..n` the draw returns a uniformly distributed value inside the
/// range. `gen_range` panics only on an empty range, which `n > 0` rules out.
#[verifier::external_body]
pub(crate) fn random_index(n: usize) -> (r: usize)
    requires
        n > 0,
    ensures
        r < n,
{
    rand::thread_rng().gen_range(0..n)
}

/// Draws one character uniformly at random from a non-empty charset. This is
/// the one sampling primitive, shared by the generator and the balancer.
pub(crate) fn sample_char(charset: &Vec<char>) -> (c: char)
    requires
        charset@.len() > 0,
    ensures
        charset@.contains(c),
{
    let i = random_index(charset.len());
    let c = charset[i];
    proof {
        assert(charset@[i as int] == c);
    }
    c
}

/// Generates a random password of exactly `length` characters, each drawn
/// independently and uniformly from the non-empty charset.
pub fn generate_random_password(charset: &str, length: usize) -> (r: String)
    requires
        charset@.len() > 0,
    ensures
        r@.len() == length,
        forall|i: int| 0 <= i < r@.len() ==> charset@.contains(#[trigger] r@[i]),
{
    let chars = str_to_chars(charset);
    let mut out: Vec<char> = Vec::new();
    let mut i: usize = 0;
    while i < length
        invariant
            0 <= i <= length,
            chars@ == charset@,
            chars@.len() > 0,
            out@.len() == i,
            forall|j: int| 0 <= j < out@.len() ==> charset@.contains(#[trigger] out@[j]),
        decreases length - i,
    {
        out.push(sample_char(&chars));
        i = i + 1;
    }
    chars_to_string(&out)
}

} // verus!
