//! Sizing of the spectral convolution buffers.
use vstd::prelude::*;

verus! {

/// `p` is a power of two (1, 2, 4, ...).
pub open spec fn is_power_of_two(p: int) -> bool
    decreases p,
{
    if p <= 1 {
        p == 1
    } else {
        p % 2 == 0 && is_power_of_two(p / 2)
    }
}

/// The smallest power of two that is at least `n`.
pub open spec fn is_least_power_of_two_at_least(p: int, n: int) -> bool {
    &&& is_power_of_two(p)
    &&& p >= n
    &&& (p == 1 || p / 2 < n)
}

/// Capacity of a convolution buffer for operands of lengths `a_size` and
/// `b_size`: the smallest power of two that holds their linear convolution
/// (`a_size + b_size - 1` samples), so that the circular product does not wrap.
pub fn conv_length(a_size: usize, b_size: usize) -> (r: usize)
    requires
        a_size + b_size <= usize::MAX / 2 + 2,
    ensures
        is_least_power_of_two_at_least(r as int, a_size + b_size - 1),
{
    let needed: usize = if a_size + b_size > 0 {
        a_size + b_size - 1
    } else {
        0
    };
    let mut p: usize = 1;
    while p < needed
        invariant
            needed == (if a_size + b_size > 0 { a_size + b_size - 1 } else { 0 }),
            needed <= usize::MAX / 2 + 1,
            p >= 1,
            is_power_of_two(p as int),
            p == 1 || p / 2 < needed,
        decreases usize::MAX - p,
    {
        assert(is_power_of_two((p * 2) as int)) by {
            assert((p * 2) as int / 2 == p as int);
        }
        p = p * 2;
    }
    p
}

} // verus!
