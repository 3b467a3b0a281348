use vstd::prelude::*;
use vstd::arithmetic::power2::is_pow2;

verus! {

/// A word is a power of two exactly if it is not zero and has no bit in
/// common with its predecessor.
pub proof fn lemma_power_of_two_bits(x: usize)
    ensures
        is_pow2(x as int) <==> (x != 0 && x & ((x - 1) as usize) == 0),
    decreases x,
{
    reveal(is_pow2);
    if x == 0 {
    } else if x == 1 {
        assert(1usize & 0usize == 0) by (bit_vector);
    } else {
        let half: usize = x / 2;
        lemma_power_of_two_bits(half);
        let x_less = (x - 1) as usize;
        let half_less = (half - 1) as usize;
        assert((x & x_less == 0) <==> (x % 2 == 0 && half & half_less == 0)) by (bit_vector)
            requires
                x >= 2,
                half == x / 2,
                x_less == x - 1,
                half_less == half - 1,
        ;
    }
}

/// Returns `true` if `x` is a power of two.
pub fn is_power_of_two(x: usize) -> (power: bool)
    ensures
        power == is_pow2(x as int),
{
    proof {
        lemma_power_of_two_bits(x);
    }
    (x != 0) && ((x & (x - 1)) == 0)
}

/// Aligns `addr` downwards to the nearest multiple of `align`, which must
/// be a power of two.
///
/// The result is the largest multiple of `align` that is not above `addr`.
pub fn align_down(addr: usize, align: usize) -> (aligned: usize)
    requires
        is_pow2(align as int),
    ensures
        aligned % align == 0,
        aligned <= addr < aligned + align,
        aligned == addr - addr % align,
{
    proof {
        reveal(is_pow2);
        vstd::arithmetic::div_mod::lemma_fundamental_div_mod(addr as int, align as int);
        vstd::arithmetic::div_mod::lemma_mod_multiples_basic(
            (addr / align) as int,
            align as int,
        );
        vstd::arithmetic::mul::lemma_mul_is_commutative(align as int, (addr / align) as int);
    }
    let remainder = addr % align;
    addr - remainder
}

/// Whether the nearest multiple of `align` at or above `addr` is an
/// address, that is, does not exceed the largest `usize`.
pub open spec fn aligns_up(addr: usize, align: usize) -> bool {
    addr % align == 0 || addr - addr % align + align <= usize::MAX
}

/// Aligns `addr` upwards to the nearest multiple of `align`, which must be
/// a power of two.
///
/// The result is the smallest multiple of `align` that is not below `addr`.
pub fn align_up(addr: usize, align: usize) -> (aligned: usize)
    requires
        is_pow2(align as int),
        aligns_up(addr, align),
    ensures
        aligned % align == 0,
        addr <= aligned < addr + align,
        aligned == (if addr % align == 0 {
            addr as int
        } else {
            addr - addr % align + align
        }),
{
    proof {
        reveal(is_pow2);
    }
    let remainder = addr % align;
    if remainder == 0 {
        addr
    } else {
        proof {
            vstd::arithmetic::div_mod::lemma_fundamental_div_mod(addr as int, align as int);
            vstd::arithmetic::mul::lemma_mul_is_commutative(align as int, (addr / align) as int);
            vstd::arithmetic::mul::lemma_mul_is_distributive_add_other_way(
                align as int,
                (addr / align) as int,
                1,
            );
            vstd::arithmetic::div_mod::lemma_mod_multiples_basic(
                (addr / align) as int + 1,
                align as int,
            );
        }
        addr + (align - remainder)
    }
}

/// Aligns `addr` upwards to the nearest multiple of `align` where that can
/// be done: returns `None` if `align` is not a power of two or if no
/// multiple of `align` at or above `addr` is an address, and otherwise what
/// `align_up` returns.
pub fn checked_align_up(addr: usize, align: usize) -> (aligned: Option<usize>)
    ensures
        aligned is Some <==> is_pow2(align as int) && aligns_up(addr, align),
        aligned matches Some(a) ==> {
            &&& a % align == 0
            &&& addr <= a < addr + align
            &&& a == (if addr % align == 0 {
                addr as int
            } else {
                addr - addr % align + align
            })
        },
{
    if !is_power_of_two(align) {
        return None;
    }
    proof {
        reveal(is_pow2);
        vstd::arithmetic::div_mod::lemma_mod_decreases(addr as nat, align as nat);
    }
    let remainder = addr % align;
    if remainder != 0 && addr - remainder > usize::MAX - align {
        return None;
    }
    Some(align_up(addr, align))
}

} // verus!
