//! Power-of-two alignment arithmetic on 64-bit addresses.
//!
//! The contracts speak of multiples and remainders; the code masks bits. The
//! private lemmas of this module tie the two together.

use vstd::prelude::*;
use vstd::arithmetic::div_mod::lemma_fundamental_div_mod;
use vstd::arithmetic::div_mod::lemma_mod_multiples_basic;
use vstd::arithmetic::mul::lemma_mul_is_commutative;
use vstd::arithmetic::power2::lemma2_to64;
use vstd::arithmetic::power2::lemma_pow2_pos;
use vstd::arithmetic::power2::pow2;
use vstd::bits::lemma_u64_low_bits_mask_is_mod;
use vstd::bits::low_bits_mask;

verus! {

/// Size of a 4 KiB page.
pub const ALIGN_4KIB: u64 = 0x0000_1000;

/// Size of a 2 MiB block.
pub const ALIGN_2MIB: u64 = 0x0020_0000;

/// Size of a 1 GiB block.
pub const ALIGN_1GIB: u64 = 0x4000_0000;

/// `n` is `2^k` for some `k` below 64.
pub open spec fn is_power_of_two(n: u64) -> bool {
    exists|k: nat| k < 64 && n == pow2(k)
}

/// The greatest multiple of `align` that does not exceed `addr`.
pub open spec fn align_down_spec(addr: u64, align: u64) -> int {
    addr - addr % align
}

/// Aligning `addr` upwards leaves the 64-bit range: `addr` lies above the
/// last multiple of `align` that fits.
pub open spec fn align_up_wraps(addr: u64, align: u64) -> bool {
    addr % align != 0 && align_down_spec(addr, align) + align > u64::MAX
}

/// The least multiple of `align` that is not below `addr`, or 0 where that
/// multiple no longer fits into 64 bits.
pub open spec fn align_up_spec(addr: u64, align: u64) -> int {
    if addr % align == 0 {
        addr as int
    } else if align_up_wraps(addr, align) {
        0
    } else {
        align_down_spec(addr, align) + align
    }
}

/// `addr` is a multiple of `align`: aligning it downwards changes nothing.
pub open spec fn is_aligned_spec(addr: u64, align: u64) -> bool {
    align_down_spec(addr, align) == addr
}

/// Clearing the bits of `mask` subtracts what `addr` has of them, and
/// setting them adds what it lacks.
proof fn lemma_mask_splits(addr: u64, mask: u64)
    by (bit_vector)
    ensures
        addr & !mask == addr - (addr & mask),
        (addr | mask) == (addr & !mask) + mask,
{
}

/// Under a power of two `align`, masking with `align - 1` takes the
/// remainder of the division by `align`.
proof fn lemma_mask_is_remainder(addr: u64, align: u64)
    requires
        is_power_of_two(align),
    ensures
        align >= 1,
        addr & ((align - 1) as u64) == addr % align,
{
    let k = choose|k: nat| k < 64 && align == pow2(k);
    lemma_pow2_pos(k);
    lemma_u64_low_bits_mask_is_mod(addr, k);
    assert(low_bits_mask(k) == align - 1);
}

/// `align_down_spec` yields a multiple of `align` that lies less than
/// `align` below `addr`; no multiple of `align` lies between the two.
pub proof fn lemma_align_down_is_greatest_multiple(addr: u64, align: u64)
    requires
        align > 0,
    ensures
        0 <= align_down_spec(addr, align) <= addr,
        addr - align_down_spec(addr, align) < align,
        align_down_spec(addr, align) % (align as int) == 0,
        forall|m: int|
            #[trigger] (m % (align as int)) == 0 && m <= addr ==> m <= align_down_spec(addr, align),
{
    let a = addr as int;
    let n = align as int;
    lemma_fundamental_div_mod(a, n);
    lemma_mul_is_commutative(n, a / n);
    lemma_mod_multiples_basic(a / n, n);
    assert forall|m: int| #[trigger] (m % n) == 0 && m <= a implies m <= align_down_spec(
        addr,
        align,
    ) by {
        if m > a - a % n {
            lemma_fundamental_div_mod(m, n);
            assert(m / n > a / n) by (nonlinear_arith)
                requires
                    n > 0,
                    n * (m / n) > n * (a / n),
            ;
            assert(n * (m / n) >= n * (a / n) + n) by (nonlinear_arith)
                requires
                    n > 0,
                    m / n >= a / n + 1,
            ;
        }
    }
}

/// Where it does not wrap, `align_up_spec` yields a multiple of `align` that
/// lies less than `align` above `addr`; no multiple of `align` lies between
/// the two.
pub proof fn lemma_align_up_is_least_multiple(addr: u64, align: u64)
    requires
        align > 0,
        !align_up_wraps(addr, align),
    ensures
        addr <= align_up_spec(addr, align) <= u64::MAX,
        align_up_spec(addr, align) - addr < align,
        align_up_spec(addr, align) % (align as int) == 0,
        forall|m: int|
            #[trigger] (m % (align as int)) == 0 && m >= addr ==> m >= align_up_spec(addr, align),
{
    let a = addr as int;
    let n = align as int;
    lemma_align_down_is_greatest_multiple(addr, align);
    lemma_fundamental_div_mod(a, n);
    lemma_mul_is_commutative(n, a / n);
    if a % n != 0 {
        lemma_mod_multiples_basic(a / n + 1, n);
        assert(n * (a / n) + n == (a / n + 1) * n) by (nonlinear_arith);
        assert forall|m: int| #[trigger] (m % n) == 0 && m >= a implies m >= align_up_spec(
            addr,
            align,
        ) by {
            lemma_fundamental_div_mod(m, n);
            assert(m / n > a / n) by (nonlinear_arith)
                requires
                    n > 0,
                    n * (m / n) > n * (a / n),
            ;
            assert(n * (m / n) >= n * (a / n) + n) by (nonlinear_arith)
                requires
                    n > 0,
                    m / n >= a / n + 1,
            ;
        }
    }
}

/// Aligns `addr` downwards: the greatest multiple of `align` that is not
/// above `addr`.
pub fn align_down(addr: u64, align: u64) -> (aligned: u64)
    requires
        is_power_of_two(align),
    ensures
        aligned == align_down_spec(addr, align),
        aligned % align == 0,
        aligned <= addr < aligned + align,
{
    proof {
        lemma_mask_is_remainder(addr, align);
        lemma_mask_splits(addr, (align - 1) as u64);
        lemma_align_down_is_greatest_multiple(addr, align);
    }
    addr & !(align - 1)
}

/// Aligns `addr` upwards: the least multiple of `align` that is not below
/// `addr`.
///
/// Where `addr` lies above the last multiple of `align` that fits into 64
/// bits, the result wraps around to 0.
pub fn align_up(addr: u64, align: u64) -> (aligned: u64)
    requires
        is_power_of_two(align),
    ensures
        aligned == align_up_spec(addr, align),
        align == 1 ==> aligned == addr,
        align_up_wraps(addr, align) ==> aligned == 0,
        !align_up_wraps(addr, align) ==> aligned % align == 0 && addr <= aligned < addr + align,
{
    proof {
        lemma_mask_is_remainder(addr, align);
    }
    let align_mask = align - 1;
    proof {
        lemma_mask_splits(addr, align_mask);
        if !align_up_wraps(addr, align) {
            lemma_align_up_is_least_multiple(addr, align);
        }
    }
    if addr & align_mask == 0 {
        addr
    } else {
        (addr | align_mask).wrapping_add(1)
    }
}

/// Tells whether `addr` is a multiple of `align`.
pub fn is_aligned(addr: u64, align: u64) -> (aligned: bool)
    requires
        is_power_of_two(align),
    ensures
        aligned == is_aligned_spec(addr, align),
        aligned == (addr % align == 0),
{
    align_down(addr, align) == addr
}

/// The three page and block sizes are powers of two, and so is 1.
pub proof fn lemma_page_sizes_are_powers_of_two()
    ensures
        is_power_of_two(1),
        is_power_of_two(ALIGN_4KIB),
        is_power_of_two(ALIGN_2MIB),
        is_power_of_two(ALIGN_1GIB),
{
    lemma2_to64();
    assert(0 < 64 && 1u64 == pow2(0));
    assert(12 < 64 && ALIGN_4KIB == pow2(12));
    assert(21 < 64 && ALIGN_2MIB == pow2(21));
    assert(30 < 64 && ALIGN_1GIB == pow2(30));
}

/// Aligning to 1, upwards or downwards, changes no address.
pub proof fn lemma_align_to_one_is_identity(addr: u64)
    ensures
        is_power_of_two(1),
        align_up_spec(addr, 1) == addr,
        align_down_spec(addr, 1) == addr,
{
    lemma_page_sizes_are_powers_of_two();
}

/// An address lies between its two aligned neighbours, unless aligning it
/// upwards wraps around.
pub proof fn lemma_align_brackets(addr: u64, align: u64)
    requires
        is_power_of_two(align),
        !align_up_wraps(addr, align),
    ensures
        align_down_spec(addr, align) <= addr <= align_up_spec(addr, align),
{
    lemma_mask_is_remainder(addr, align);
    lemma_align_down_is_greatest_multiple(addr, align);
    lemma_align_up_is_least_multiple(addr, align);
}

/// What `align_down` returns is aligned.
pub proof fn lemma_align_down_is_aligned(addr: u64, align: u64)
    requires
        is_power_of_two(align),
    ensures
        0 <= align_down_spec(addr, align) <= u64::MAX,
        is_aligned_spec(align_down_spec(addr, align) as u64, align),
{
    lemma_mask_is_remainder(addr, align);
    lemma_align_down_is_greatest_multiple(addr, align);
}

} // verus!
