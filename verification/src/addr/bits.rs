//! Bit fields of a 64-bit word, and the narrow integers that carry them.
//!
//! This module is the boundary to the crates `bit_field`, `cast` and `ux`.
//! What it states of their functions is taken on trust from their sources;
//! everything else in the library is proved from these statements.

use bit_field::BitField;
use vstd::arithmetic::div_mod::lemma_multiply_divide_lt;
use vstd::arithmetic::div_mod::lemma_small_mod;
use vstd::arithmetic::power2::lemma2_to64;
use vstd::arithmetic::power2::lemma_pow2_adds;
use vstd::arithmetic::power2::lemma_pow2_pos;
use vstd::arithmetic::power2::pow2;
use vstd::prelude::*;

verus! {

/// The number that the bits `start..end` of `value` spell, bit 0 being the
/// least significant: `value` without its `start` lowest bits, reduced to
/// `end - start` bits.
pub open spec fn bit_range(value: u64, start: nat, end: nat) -> nat
    recommends
        start <= end <= 64,
{
    (value as nat / pow2(start)) % pow2((end - start) as nat)
}

/// A field that reaches up to bit 63 is the word shifted down: nothing is
/// left above it to cut off.
pub proof fn lemma_bit_range_to_top(value: u64, start: nat)
    requires
        start <= 64,
    ensures
        bit_range(value, start, 64) == value as nat / pow2(start),
{
    let width = (64 - start) as nat;
    lemma2_to64();
    lemma_pow2_pos(start);
    lemma_pow2_pos(width);
    lemma_pow2_adds(start, width);
    lemma_multiply_divide_lt(value as int, pow2(start) as int, pow2(width) as int);
    lemma_small_mod(value as nat / pow2(start), pow2(width));
}

/// `bit_field::BitField::get_bits` on a `u64`, with the range `start..end`.
///
/// The source shifts the bits above `end` out to the left, back, and then the
/// bits below `start` out to the right, and returns 0 for an empty range; it
/// panics unless `start < 64` and `start <= end <= 64`. The contract states
/// that result as the number the bits `start..end` spell.
#[verifier::external_body]
pub(crate) fn get_bits(value: u64, start: usize, end: usize) -> (field: u64)
    requires
        start < 64,
        start <= end <= 64,
    ensures
        field == bit_range(value, start as nat, end as nat),
{
    value.get_bits(start..end)
}

/// `cast::u64` on a `usize`: an integer promotion, which keeps the number.
#[verifier::external_body]
pub(crate) fn u64_from_usize(offset: usize) -> (wide: u64)
    ensures
        wide == offset,
{
    cast::u64(offset)
}

/// `ux::u12`, the 12-bit unsigned integer. Verus carries a value of it
/// without looking inside; [`u12_value`] stands for the number it holds.
#[verifier::external_type_specification]
#[verifier::external_body]
pub struct ExU12(ux::u12);

/// `ux::u9`, the 9-bit unsigned integer. Verus carries a value of it
/// without looking inside; [`u9_value`] stands for the number it holds.
#[verifier::external_type_specification]
#[verifier::external_body]
pub struct ExU9(ux::u9);

/// The number that a `ux::u12` holds, which `u16::from` hands out again.
pub uninterp spec fn u12_value(narrow: ux::u12) -> u16;

/// The number that a `ux::u9` holds, which `u16::from` hands out again.
pub uninterp spec fn u9_value(narrow: ux::u9) -> u16;

/// `ux::u12::new` wraps its argument as it is, and panics where the argument
/// needs more than 12 bits.
pub assume_specification[ ux::u12::new ](value: u16) -> (narrow: ux::u12)
    requires
        value <= 0xfff,
    ensures
        u12_value(narrow) == value,
;

/// `ux::u9::new` wraps its argument as it is, and panics where the argument
/// needs more than 9 bits.
pub assume_specification[ ux::u9::new ](value: u16) -> (narrow: ux::u9)
    requires
        value <= 0x1ff,
    ensures
        u9_value(narrow) == value,
;

} // verus!
