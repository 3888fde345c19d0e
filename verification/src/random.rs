//! Random selection helpers for demo driving loops: a raw random integer, a
//! bounded one, and a draw from a caller-supplied candidate list with a
//! defined fallback for the empty list.

use rand::Rng;
use vstd::prelude::*;

verus! {

/// Relies on rand::random::<i32>: returns some integer; nothing more can be
/// promised of a random value.
#[verifier::external_body]
pub fn get_random_integer() -> i32 {
    rand::random::<i32>()
}

/// Relies on rand::Rng::gen_range on `min..max`: the result is uniformly
/// drawn from the half-open range, so it lies in it. The call panics on an
/// empty range, which the precondition rules out.
#[verifier::external_body]
pub fn get_random_integer_between(min: i32, max: i32) -> (r: i32)
    requires
        min < max,
    ensures
        min <= r < max,
{
    rand::thread_rng().gen_range(min..max)
}

/// Relies on rand::Rng::gen_range on `0..n`: the result lies below `n`. The
/// call panics on an empty range, which the precondition rules out.
#[verifier::external_body]
fn random_index_below(n: usize) -> (r: usize)
    requires
        n > 0,
    ensures
        r < n,
{
    rand::thread_rng().gen_range(0..n)
}

/// Draws one element of `list` at random; drawing from an empty list returns
/// the fallback value 0.
pub fn get_random_integer_from_list(list: &Vec<i32>) -> (r: i32)
    ensures
        list@.len() == 0 ==> r == 0,
        list@.len() > 0 ==> list@.contains(r),
{
    if list.len() == 0 {
        0
    } else {
        let index = random_index_below(list.len());
        let r = list[index];
        proof {
            assert(list@.contains(r));
        }
        r
    }
}

} // verus!
