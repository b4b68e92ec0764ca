//! Chance: numbers drawn at random from a range.

use vstd::prelude::*;

verus! {

/// Draws a number with `rand::Rng::gen_range` from the generator that
/// `rand::thread_rng` hands out. `gen_range(low..high)` gives a value of
/// the half-open range and panics on an empty one, which the precondition
/// rules out. Which value comes is left open.
#[verifier::external_body]
fn gen_range_i64(low: i64, high: i64) -> (r: i64)
    requires
        low < high,
    ensures
        low <= r < high,
{
    rand::Rng::gen_range(&mut rand::thread_rng(), low..high)
}

/// A number drawn at random from `low` up to, but not including, `high`.
pub fn draw(low: i64, high: i64) -> (r: i64)
    requires
        low < high,
    ensures
        low <= r < high,
{
    gen_range_i64(low, high)
}

/// A number drawn at random from `low` up to, but not including, `high`;
/// where there is no such number, `low`.
pub fn draw_or_low(low: i64, high: i64) -> (r: i64)
    ensures
        low < high ==> low <= r < high,
        low >= high ==> r == low,
{
    if low < high {
        gen_range_i64(low, high)
    } else {
        low
    }
}

/// A position drawn at random in a list of a given length.
pub fn draw_index(length: usize) -> (r: usize)
    requires
        length > 0,
    ensures
        r < length,
{
    let wide: u64 = length as u64;
    let high: i64 = if wide > 0x7fff_ffff_ffff_ffff {
        i64::MAX
    } else {
        wide as i64
    };
    gen_range_i64(0, high) as usize
}

} // verus!
