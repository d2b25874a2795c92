//! Physical addresses, limited to the 52 bits of the widest output address.

use super::align::align_down;
use super::align::align_down_spec;
use super::align::align_up;
use super::align::align_up_spec;
use super::align::is_aligned_spec;
use super::align::is_power_of_two;
use super::bits::get_bits;
use super::bits::lemma_bit_range_to_top;
use super::bits::u64_from_usize;
use super::text::binary;
use super::text::binary_text;
use super::text::lower_hex;
use super::text::lower_hex_text;
use super::text::octal;
use super::text::octal_text;
use super::text::tagged_hex;
use super::text::tagged_hex_text;
use super::text::upper_hex;
use super::text::upper_hex_text;
use core::ops::Add;
use core::ops::AddAssign;
use core::ops::Sub;
use core::ops::SubAssign;
use vstd::arithmetic::power2::lemma2_to64_rest;
use vstd::prelude::*;
use vstd::std_specs::ops::AddSpecImpl;
use vstd::std_specs::ops::SubSpecImpl;

verus! {

/// The top 12 bits of `raw`, bits 52 to 63.
pub open spec fn high_bits(raw: u64) -> u64 {
    raw / 0x10_0000_0000_0000
}

/// `raw` fits into 52 bits: none of its bits 52 to 63 is set.
pub open spec fn is_in_physical_range(raw: u64) -> bool {
    high_bits(raw) == 0
}

/// A 64-bit value was not a valid physical address.
///
/// Its bits 52 to 63, which the error carries, were not all zero.
#[derive(Clone, Copy, Debug, PartialEq, Eq, Structural)]
pub struct PhysAddrNotValid(pub u64);

/// A 64-bit physical memory address.
///
/// This is a wrapper type around an `u64`, so it is always 8 bytes, even when
/// compiled on non 64-bit systems.
///
/// Only [`PhysAddr::try_new`] checks the 52-bit limit. The other constructor
/// and the arithmetic store what they are given, so contracts that depend on
/// the limit ask for it with [`PhysAddr::is_valid`].
#[derive(Clone, Copy, Debug, PartialEq, Eq, Structural, PartialOrd, Ord)]
pub struct PhysAddr(u64);

impl PhysAddr {
    /// The address as a number.
    pub closed spec fn view(&self) -> u64 {
        self.0
    }

    /// The address fits into 52 bits.
    pub open spec fn is_valid(&self) -> bool {
        is_in_physical_range(self@)
    }

    /// An address is nothing but its number.
    pub proof fn lemma_view_is_injective(self, other: PhysAddr)
        requires
            self@ == other@,
        ensures
            self == other,
    {
    }

    /// A number fits into 52 bits just when it is below `2^52`.
    pub proof fn lemma_valid_is_below_limit(raw: u64)
        ensures
            is_in_physical_range(raw) <==> raw < 0x10_0000_0000_0000,
    {
    }

    /// Creates a new physical address without checks.
    pub fn new(addr: u64) -> (pa: PhysAddr)
        ensures
            pa@ == addr,
    {
        PhysAddr(addr)
    }

    /// Tries to create a new physical address.
    ///
    /// Fails if any bits in the range 52 to 64 are set; the error carries
    /// those 12 bits.
    pub fn try_new(addr: u64) -> (result: Result<PhysAddr, PhysAddrNotValid>)
        ensures
            match result {
                Ok(pa) => is_in_physical_range(addr) && pa@ == addr,
                Err(err) => !is_in_physical_range(addr) && err.0 == high_bits(addr),
            },
    {
        let high = get_bits(addr, 52, 64);
        proof {
            lemma_bit_range_to_top(addr, 52);
            lemma2_to64_rest();
        }
        if high == 0 {
            Ok(PhysAddr(addr))
        } else {
            Err(PhysAddrNotValid(high))
        }
    }

    /// Converts the address to an `u64`.
    pub fn as_u64(self) -> (raw: u64)
        ensures
            raw == self@,
    {
        self.0
    }

    /// Convenience method for checking if a physical address is null.
    pub fn is_null(&self) -> (null: bool)
        ensures
            null == (self@ == 0),
    {
        self.0 == 0
    }

    /// Aligns the physical address upwards to the given alignment.
    ///
    /// See the `align_up` function for more information.
    pub fn align_up(self, align: u64) -> (aligned: PhysAddr)
        requires
            is_power_of_two(align),
        ensures
            aligned@ == align_up_spec(self@, align),
    {
        PhysAddr(align_up(self.0, align))
    }

    /// Aligns the physical address downwards to the given alignment.
    ///
    /// See the `align_down` function for more information.
    pub fn align_down(self, align: u64) -> (aligned: PhysAddr)
        requires
            is_power_of_two(align),
        ensures
            aligned@ == align_down_spec(self@, align),
            self.is_valid() ==> aligned.is_valid(),
    {
        PhysAddr(align_down(self.0, align))
    }

    /// Checks whether the physical address has the demanded alignment.
    pub fn is_aligned(self, align: u64) -> (aligned: bool)
        requires
            is_power_of_two(align),
        ensures
            aligned == is_aligned_spec(self@, align),
    {
        self.align_down(align) == self
    }

    /// The address in its default form, `PhysAddr(0x…)` with lower-case
    /// hexadecimal digits.
    pub fn to_debug_string(&self) -> (text: String)
        ensures
            text@ == tagged_hex_text("PhysAddr"@, self@),
    {
        tagged_hex("PhysAddr", self.0)
    }

    /// The address in hexadecimal with the digits `a` to `f`.
    pub fn to_lower_hex(&self) -> (text: String)
        ensures
            text@ == lower_hex_text(self@),
    {
        lower_hex(self.0)
    }

    /// The address in hexadecimal with the digits `A` to `F`.
    pub fn to_upper_hex(&self) -> (text: String)
        ensures
            text@ == upper_hex_text(self@),
    {
        upper_hex(self.0)
    }

    /// The address in octal.
    pub fn to_octal(&self) -> (text: String)
        ensures
            text@ == octal_text(self@),
    {
        octal(self.0)
    }

    /// The address in binary.
    pub fn to_binary(&self) -> (text: String)
        ensures
            text@ == binary_text(self@),
    {
        binary(self.0)
    }
}

impl Add<u64> for PhysAddr {
    type Output = PhysAddr;

    /// The address `rhs` bytes above this one; the sum is not checked
    /// against the 52-bit limit.
    fn add(self, rhs: u64) -> (sum: PhysAddr)
        ensures
            sum@ == self@ + rhs,
    {
        PhysAddr::new(self.0 + rhs)
    }
}

impl AddSpecImpl<u64> for PhysAddr {
    open spec fn obeys_add_spec() -> bool {
        true
    }

    open spec fn add_req(self, rhs: u64) -> bool {
        self@ + rhs <= u64::MAX
    }

    closed spec fn add_spec(self, rhs: u64) -> PhysAddr {
        PhysAddr((self.0 + rhs) as u64)
    }
}

impl AddAssign<u64> for PhysAddr {
    fn add_assign(&mut self, rhs: u64)
        requires
            old(self)@ + rhs <= u64::MAX,
        ensures
            final(self)@ == old(self)@ + rhs,
    {
        *self = *self + rhs;
    }
}

impl Add<usize> for PhysAddr {
    type Output = PhysAddr;

    /// The address `rhs` bytes above this one; the sum is not checked
    /// against the 52-bit limit.
    fn add(self, rhs: usize) -> (sum: PhysAddr)
        ensures
            sum@ == self@ + rhs,
    {
        self + u64_from_usize(rhs)
    }
}

impl AddSpecImpl<usize> for PhysAddr {
    open spec fn obeys_add_spec() -> bool {
        true
    }

    open spec fn add_req(self, rhs: usize) -> bool {
        self@ + rhs <= u64::MAX
    }

    closed spec fn add_spec(self, rhs: usize) -> PhysAddr {
        PhysAddr((self.0 + rhs) as u64)
    }
}

impl AddAssign<usize> for PhysAddr {
    fn add_assign(&mut self, rhs: usize)
        requires
            old(self)@ + rhs <= u64::MAX,
        ensures
            final(self)@ == old(self)@ + rhs,
    {
        self.add_assign(u64_from_usize(rhs))
    }
}

impl Sub<u64> for PhysAddr {
    type Output = PhysAddr;

    /// The address `rhs` bytes below this one.
    fn sub(self, rhs: u64) -> (difference: PhysAddr)
        ensures
            difference@ == self@ - rhs,
    {
        PhysAddr::new(self.0.checked_sub(rhs).unwrap())
    }
}

impl SubSpecImpl<u64> for PhysAddr {
    open spec fn obeys_sub_spec() -> bool {
        true
    }

    open spec fn sub_req(self, rhs: u64) -> bool {
        rhs <= self@
    }

    closed spec fn sub_spec(self, rhs: u64) -> PhysAddr {
        PhysAddr((self.0 - rhs) as u64)
    }
}

impl SubAssign<u64> for PhysAddr {
    fn sub_assign(&mut self, rhs: u64)
        requires
            rhs <= old(self)@,
        ensures
            final(self)@ == old(self)@ - rhs,
    {
        *self = *self - rhs;
    }
}

impl Sub<usize> for PhysAddr {
    type Output = PhysAddr;

    /// The address `rhs` bytes below this one.
    fn sub(self, rhs: usize) -> (difference: PhysAddr)
        ensures
            difference@ == self@ - rhs,
    {
        self - u64_from_usize(rhs)
    }
}

impl SubSpecImpl<usize> for PhysAddr {
    open spec fn obeys_sub_spec() -> bool {
        true
    }

    open spec fn sub_req(self, rhs: usize) -> bool {
        rhs <= self@
    }

    closed spec fn sub_spec(self, rhs: usize) -> PhysAddr {
        PhysAddr((self.0 - rhs) as u64)
    }
}

impl SubAssign<usize> for PhysAddr {
    fn sub_assign(&mut self, rhs: usize)
        requires
            rhs <= old(self)@,
        ensures
            final(self)@ == old(self)@ - rhs,
    {
        self.sub_assign(u64_from_usize(rhs))
    }
}

impl Sub<PhysAddr> for PhysAddr {
    type Output = u64;

    /// The distance in bytes from `rhs` up to this address.
    fn sub(self, rhs: PhysAddr) -> (distance: u64)
        ensures
            distance == self@ - rhs@,
    {
        self.as_u64().checked_sub(rhs.as_u64()).unwrap()
    }
}

impl SubSpecImpl<PhysAddr> for PhysAddr {
    open spec fn obeys_sub_spec() -> bool {
        true
    }

    open spec fn sub_req(self, rhs: PhysAddr) -> bool {
        rhs@ <= self@
    }

    open spec fn sub_spec(self, rhs: PhysAddr) -> u64 {
        (self@ - rhs@) as u64
    }
}

} // verus!
