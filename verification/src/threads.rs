//! How many worker threads the servers run.
use vstd::prelude::*;
use vstd::arithmetic::power2::{pow2, lemma_pow2_unfold};

verus! {

/// `r` is the smallest power of two at or above `n`.
pub open spec fn least_power_of_two(r: int, n: int) -> bool {
    &&& exists|e: nat| r == pow2(e)
    &&& n <= r
    &&& (r == 1 || r < 2 * n)
}

/// The smallest power of two at or above `n`, as `usize::next_power_of_two`
/// gives it where the result fits.
pub fn next_power_of_two(n: usize) -> (r: usize)
    requires
        n <= usize::MAX / 2 + 1,
    ensures
        least_power_of_two(r as int, n as int),
{
    let mut p: usize = 1;
    let ghost mut e: nat = 0;
    proof {
        assert(pow2(0) == 1) by {
            vstd::arithmetic::power2::lemma2_to64();
        }
    }
    while p < n
        invariant
            n <= usize::MAX / 2 + 1,
            p == pow2(e),
            1 <= p,
            p == 1 || p < 2 * n,
        decreases 2 * n - p,
    {
        proof {
            lemma_pow2_unfold(e + 1);
        }
        p = p * 2;
        proof {
            e = e + 1;
        }
    }
    p
}

/// The number of worker threads for `cores` available cores: four per core,
/// rounded up to a power of two.
pub fn threads_for_cores(cores: usize) -> (r: usize)
    requires
        4 * cores <= usize::MAX / 2 + 1,
    ensures
        least_power_of_two(r as int, 4 * cores),
{
    next_power_of_two(cores * 4)
}

} // verus!
