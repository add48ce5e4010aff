//! The generator of batches.

use vstd::prelude::*;

verus! {

/// `rand::random` for `u32`: a number from the thread's generator. Any `u32`
/// may come back, and two calls may differ, so nothing is claimed.
#[verifier::external_body]
fn random_u32() -> u32 {
    rand::random()
}

/// A batch of `count` random numbers.
pub fn generate_random_numbers(count: usize) -> (numbers: Vec<u32>)
    ensures
        numbers@.len() == count,
{
    let mut numbers: Vec<u32> = Vec::new();
    let mut i: usize = 0;
    while i < count
        invariant
            i <= count,
            numbers@.len() == i,
        decreases count - i,
    {
        numbers.push(random_u32());
        i = i + 1;
    }
    numbers
}

} // verus!
