//! Whole numbers drawn at random.

use vstd::prelude::*;

verus! {

/// Calls `rand::Rng::gen_range` on the generator of the calling thread, with
/// the range from `low` to `high`, both included. The crate documents that it
/// panics on an empty range, which `low <= high` rules out, and that the
/// value lies in the range; which value it is, is left to chance.
#[verifier::external_body]
fn uniform_u32(low: u32, high: u32) -> (drawn: u32)
    requires
        low <= high,
    ensures
        low <= drawn <= high,
{
    rand::Rng::gen_range(&mut rand::thread_rng(), low..=high)
}

/// A whole number drawn from `min` to `max`, both included. Where `min` lies
/// above `max` the number is drawn from the numbers between the two instead,
/// and is `min` where there is none between them.
pub fn random_u32_range(min: u32, max: u32) -> (drawn: u32)
    requires
        max < u32::MAX,
    ensures
        min <= max ==> min <= drawn <= max,
        min > max + 1 ==> max < drawn < min,
        min == max + 1 ==> drawn == min,
{
    if min <= max {
        uniform_u32(min, max)
    } else if min == max + 1 {
        min
    } else {
        uniform_u32(max + 1, min - 1)
    }
}

/// One of the three axes, drawn at random.
pub fn random_axis() -> (axis: u32)
    ensures
        axis <= 2,
{
    random_u32_range(0, 2)
}

} // verus!
