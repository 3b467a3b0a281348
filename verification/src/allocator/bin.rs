use vstd::prelude::*;
use vstd::arithmetic::power2::pow2;
use vstd::bits::{lemma_usize_pow2_no_overflow, lemma_usize_shl_is_mul};

verus! {

/// The size class of blocks of `2^power` bytes.
///
/// Class k holds blocks of `2^(k + 3)` bytes. The smallest class holds
/// blocks of 8 bytes, and every smaller request falls into it.
pub fn k_value_usize(power: usize) -> (k: usize)
    ensures
        k == (if power < 3 {
            0
        } else {
            power - 3
        }),
{
    if power < 3 {
        0
    } else {
        power - 3
    }
}

/// The number of bytes in a block of size class `k`: `2^(k + 3)`.
pub fn bin_size_fn(k: usize) -> (size: usize)
    requires
        k + 3 < usize::BITS,
    ensures
        size == pow2((k + 3) as nat),
{
    let shift: usize = k + 3;
    proof {
        lemma_usize_pow2_no_overflow(shift as nat);
        lemma_usize_shl_is_mul(1usize, shift);
    }
    1usize << shift
}

} // verus!
