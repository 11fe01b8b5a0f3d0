//! Random draws, from the generator of the running thread.
//!
//! What a draw returns is not known beforehand. All that is stated of one is the range
//! that it falls in, so what is proved of the code that draws holds for every outcome.

use crate::digits::{all_digits, DigitSequence};
use rand::rngs::ThreadRng;
use rand::Rng;
use vstd::prelude::*;

verus! {

/// `rand::rngs::ThreadRng`, the handle to the generator of the running thread. Nothing
/// is known of what it holds.
#[verifier::external_type_specification]
#[verifier::external_body]
pub struct ExThreadRng(ThreadRng);

/// `rand::thread_rng`, which hands out the handle to the generator of the running
/// thread. Nothing is claimed of the handle. The call panics where the system cannot
/// seed the generator; no argument decides that.
pub assume_specification[ rand::thread_rng ]() -> (rng: ThreadRng)
;

/// `Rng::gen_range` on the range from zero up to, not including, `bound`. The range
/// must not be empty. The number drawn lies in the range; which one it is, and what
/// the draw does to the generator, is not stated.
#[verifier::external_body]
pub(crate) fn draw_below(rng: &mut ThreadRng, bound: usize) -> (drawn: usize)
    requires
        bound > 0,
    ensures
        drawn < bound,
{
    rng.gen_range(0..bound)
}

/// Draws `count` decimal digits, one after the other.
pub(crate) fn draw_digits(rng: &mut ThreadRng, count: usize) -> (drawn: DigitSequence)
    ensures
        drawn@.len() == count,
        all_digits(drawn@),
{
    let mut digits: Vec<u8> = Vec::new();
    let mut i: usize = 0;
    while i < count
        invariant
            i <= count,
            digits@.len() == i,
            all_digits(digits@),
        decreases count - i,
    {
        let digit = draw_below(rng, 10) as u8;
        digits.push(digit);
        i += 1;
    }
    DigitSequence::from_digits(digits).unwrap()
}

} // verus!
