//! Wrap-around arithmetic on inclusive ranges, one pair of helpers per
//! integer type that needs them.

use vstd::prelude::*;

verus! {

/// The value after `x` in the cycle `lower ..= upper`.
pub fn circular_increment_usize(x: usize, lower_bound: usize, upper_bound: usize) -> (r: usize)
    requires
        lower_bound <= x <= upper_bound,
        upper_bound - lower_bound < usize::MAX,
    ensures
        r == (x - lower_bound + 1) % (upper_bound - lower_bound + 1) + lower_bound,
        lower_bound <= r <= upper_bound,
{
    let range = upper_bound - lower_bound + 1;
    (x - lower_bound + 1) % range + lower_bound
}

/// The value before `x` in the cycle `lower ..= upper`.
pub fn circular_decrement_usize(x: usize, lower_bound: usize, upper_bound: usize) -> (r: usize)
    requires
        lower_bound <= x <= upper_bound,
        upper_bound - lower_bound < usize::MAX - 1,
        upper_bound <= usize::MAX - upper_bound + lower_bound,
    ensures
        r == (x - lower_bound + (upper_bound - lower_bound)) % (upper_bound - lower_bound + 1)
            + lower_bound,
        lower_bound <= r <= upper_bound,
{
    let range = upper_bound - lower_bound + 1;
    (x - lower_bound + range - 1) % range + lower_bound
}

/// The value after `x` in the cycle `lower ..= upper`, for signed indices.
pub fn circular_increment_isize(x: isize, lower_bound: isize, upper_bound: isize) -> (r: isize)
    requires
        lower_bound <= x <= upper_bound,
        upper_bound - lower_bound < usize::MAX,
        upper_bound - lower_bound + 1 <= isize::MAX,
    ensures
        lower_bound <= r <= upper_bound,
        r - lower_bound == (x - lower_bound + 1) % (upper_bound - lower_bound + 1),
{
    let range: isize = upper_bound - lower_bound + 1;
    let offset: isize = x - lower_bound + 1;
    proof {
        vstd::arithmetic::div_mod::lemma_mod_bound(offset as int, range as int);
    }
    offset % range + lower_bound
}

/// The value before `x` in the cycle `lower ..= upper`, for signed indices.
pub fn circular_decrement_isize(x: isize, lower_bound: isize, upper_bound: isize) -> (r: isize)
    requires
        lower_bound <= x <= upper_bound,
        upper_bound - lower_bound + 1 <= isize::MAX,
        2 * (upper_bound - lower_bound) <= isize::MAX,
    ensures
        lower_bound <= r <= upper_bound,
        r - lower_bound == (x - lower_bound + (upper_bound - lower_bound)) % (upper_bound
            - lower_bound + 1),
{
    let range: isize = upper_bound - lower_bound + 1;
    let offset: isize = x - lower_bound + range - 1;
    proof {
        vstd::arithmetic::div_mod::lemma_mod_bound(offset as int, range as int);
    }
    offset % range + lower_bound
}

} // verus!
