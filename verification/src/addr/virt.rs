//! Virtual addresses of the 48-bit, two-range AArch64 address space.
//!
//! A virtual address is canonical when its top 16 bits are all zero (the
//! bottom range) or all one (the top range). Below them lie four 9-bit
//! translation table indices and the 12-bit offset into a 4 KiB page:
//!
//! ```text
//! 63      48 47    39 38    30 29    21 20    12 11         0
//! |  range  | level4 | level3 | level2 | level1 | page offset |
//! ```

use super::align::align_down;
use super::align::align_down_spec;
use super::align::align_up;
use super::align::align_up_spec;
use super::align::is_aligned_spec;
use super::align::is_power_of_two;
use super::align::lemma_align_down_is_greatest_multiple;
use super::bits::get_bits;
use super::bits::lemma_bit_range_to_top;
use super::bits::u12_value;
use super::bits::u64_from_usize;
use super::bits::u9_value;
use super::text::tagged_hex;
use super::text::tagged_hex_text;
use core::ops::Add;
use core::ops::AddAssign;
use core::ops::Sub;
use core::ops::SubAssign;
use vstd::arithmetic::div_mod::lemma_mod_multiples_basic;
use vstd::arithmetic::power2::lemma2_to64_rest;
use vstd::arithmetic::power2::lemma_pow2_adds;
use vstd::arithmetic::power2::lemma_pow2_pos;
use vstd::arithmetic::power2::lemma_pow2_strictly_increases;
use vstd::arithmetic::power2::pow2;
use vstd::prelude::*;
use vstd::std_specs::ops::AddSpecImpl;
use vstd::std_specs::ops::SubSpecImpl;

verus! {

/// The top 16 bits of `raw`, bits 48 to 63.
pub open spec fn range_bits(raw: u64) -> u64 {
    raw / 0x1_0000_0000_0000
}

/// The top 16 bits of `raw` are all zero or all one.
pub open spec fn is_canonical(raw: u64) -> bool {
    range_bits(raw) == 0 || range_bits(raw) == 0xffff
}

/// The low 12 bits of `raw`: the offset into its 4 KiB page.
pub open spec fn page_offset_bits(raw: u64) -> u64 {
    raw % 0x1000
}

/// The weight of the lowest bit of the table index of `level`: `2^12` for
/// level 1, and `2^9` times more for each level above it.
pub open spec fn level_unit(level: nat) -> u64
    recommends
        1 <= level <= 4,
{
    if level == 1 {
        0x1000
    } else if level == 2 {
        0x20_0000
    } else if level == 3 {
        0x4000_0000
    } else {
        0x80_0000_0000
    }
}

/// The 9-bit translation table index of `level` in `raw`: bits 12 to 20 for
/// level 1, up to bits 39 to 47 for level 4.
pub open spec fn table_index(raw: u64, level: nat) -> u64
    recommends
        1 <= level <= 4,
{
    (raw / level_unit(level)) % 0x200
}

/// The range that a 16-bit top field selects, or the field itself as the
/// error where it is neither all zero nor all one.
pub open spec fn classify_range(bits: u64) -> Result<VirtAddrRange, VirtAddrNotValid> {
    if bits == 0 {
        Ok(VirtAddrRange::BottomRange)
    } else if bits == 0xffff {
        Ok(VirtAddrRange::TopRange)
    } else {
        Err(VirtAddrNotValid(bits))
    }
}

/// Aligning downwards to at most `2^48` clears bits below bit 48 only.
proof fn lemma_align_down_keeps_range_bits(raw: u64, align: u64)
    requires
        is_power_of_two(align),
        align <= 0x1_0000_0000_0000,
    ensures
        0 <= align_down_spec(raw, align) <= raw,
        range_bits(align_down_spec(raw, align) as u64) == range_bits(raw),
{
    let k = choose|k: nat| k < 64 && align == pow2(k);
    lemma2_to64_rest();
    if k > 48 {
        lemma_pow2_strictly_increases(48, k);
    }
    let rest = (48 - k) as nat;
    lemma_pow2_pos(k);
    lemma_pow2_adds(k, rest);
    let top = raw as int / 0x1_0000_0000_0000;
    let base = top * 0x1_0000_0000_0000;
    assert(base == (top * pow2(rest)) * align) by (nonlinear_arith)
        requires
            pow2(k) * pow2(rest) == 0x1_0000_0000_0000,
            align == pow2(k),
            base == top * 0x1_0000_0000_0000,
    ;
    lemma_mod_multiples_basic(top * pow2(rest), align as int);
    lemma_align_down_is_greatest_multiple(raw, align);
    assert(base % (align as int) == 0);
}

/// The two ranges of the virtual address space.
#[derive(Clone, Copy, Debug, PartialEq, Eq, Structural)]
pub enum VirtAddrRange {
    /// 0x0000000000000000 to 0x0000FFFFFFFFFFFF
    BottomRange,
    /// 0xFFFF000000000000 to 0xFFFFFFFFFFFFFFFF.
    TopRange,
}

impl VirtAddrRange {
    /// The first address of the range.
    pub open spec fn spec_as_offset(&self) -> u64 {
        match self {
            VirtAddrRange::BottomRange => 0,
            VirtAddrRange::TopRange => 0xFFFF_0000_0000_0000,
        }
    }

    /// Tells which range a 16-bit top field selects: the bottom range for
    /// 0x0000 and the top range for 0xffff. Any other field is handed back
    /// as the error.
    pub fn classify(bits: u16) -> (result: Result<VirtAddrRange, VirtAddrNotValid>)
        ensures
            result == classify_range(bits as u64),
            result is Ok <==> bits == 0 || bits == 0xffff,
    {
        match bits {
            0x0000 => Ok(VirtAddrRange::BottomRange),
            0xffff => Ok(VirtAddrRange::TopRange),
            _ => Err(VirtAddrNotValid(bits as u64)),
        }
    }

    /// Returns the address offset
    #[verifier::when_used_as_spec(spec_as_offset)]
    pub fn as_offset(&self) -> (offset: u64)
        ensures
            offset == self.spec_as_offset(),
    {
        match self {
            VirtAddrRange::BottomRange => 0,
            VirtAddrRange::TopRange => 0xFFFF_0000_0000_0000,
        }
    }
}

/// A 64-bit value was not a canonical virtual address.
///
/// The top 16 bits, which the error carries, were neither all zero nor all
/// one. This likely indicates a bug, for example an invalid address
/// calculation.
#[derive(Clone, Copy, Debug, PartialEq, Eq, Structural)]
pub struct VirtAddrNotValid(pub u64);

/// A 64-bit virtual memory address.
///
/// This is a wrapper type around an `u64`, so it is always 8 bytes, even when
/// compiled on non 64-bit systems.
///
/// Only [`VirtAddr::try_new`] checks that an address is canonical. The other
/// constructors and the arithmetic store what they are given, so contracts
/// that depend on canonical form ask for it with [`VirtAddr::is_canonical`].
#[derive(Clone, Copy, Debug, PartialEq, Eq, Structural, PartialOrd, Ord)]
pub struct VirtAddr(u64);

impl VirtAddr {
    /// The address as a number.
    pub closed spec fn view(&self) -> u64 {
        self.0
    }

    /// The top 16 bits of the address are all zero or all one.
    pub open spec fn is_canonical(&self) -> bool {
        is_canonical(self@)
    }

    /// The range that the address lies in, or its top 16 bits as the error
    /// where it is not canonical.
    pub open spec fn spec_va_range(&self) -> Result<VirtAddrRange, VirtAddrNotValid> {
        classify_range(range_bits(self@))
    }

    /// An address is nothing but its number.
    pub proof fn lemma_view_is_injective(self, other: VirtAddr)
        requires
            self@ == other@,
        ensures
            self == other,
    {
    }

    /// Creates a new virtual address without checks.
    pub fn new(addr: u64) -> (va: VirtAddr)
        ensures
            va@ == addr,
    {
        VirtAddr(addr)
    }

    /// Tries to create a new canonical virtual address.
    ///
    /// A canonical address starts with 0x0000 or 0xffff; for any other the
    /// error carries the 16 bits it starts with.
    pub fn try_new(addr: u64) -> (result: Result<VirtAddr, VirtAddrNotValid>)
        ensures
            match result {
                Ok(va) => is_canonical(addr) && va@ == addr,
                Err(err) => !is_canonical(addr) && err.0 == range_bits(addr),
            },
    {
        let top = get_bits(addr, 48, 64);
        proof {
            lemma_bit_range_to_top(addr, 48);
            lemma2_to64_rest();
        }
        if top == 0 || top == 0xffff {
            Ok(VirtAddr(addr))
        } else {
            Err(VirtAddrNotValid(top))
        }
    }

    /// Creates a new virtual address without checks.
    pub fn new_unchecked(addr: u64) -> (va: VirtAddr)
        ensures
            va@ == addr,
    {
        VirtAddr(addr)
    }

    /// Creates a virtual address that points to `0`.
    pub fn zero() -> (va: VirtAddr)
        ensures
            va@ == 0,
            va.is_canonical(),
    {
        VirtAddr(0)
    }

    /// Converts the address to an `u64`.
    pub fn as_u64(self) -> (raw: u64)
        ensures
            raw == self@,
    {
        self.0
    }

    /// The address in its default form, `VirtAddr(0x…)` with lower-case
    /// hexadecimal digits.
    pub fn to_debug_string(&self) -> (text: String)
        ensures
            text@ == tagged_hex_text("VirtAddr"@, self@),
    {
        tagged_hex("VirtAddr", self.0)
    }

    /// Aligns the virtual address upwards to the given alignment.
    ///
    /// See the `align_up` function for more information.
    pub fn align_up(self, align: u64) -> (aligned: VirtAddr)
        requires
            is_power_of_two(align),
        ensures
            aligned@ == align_up_spec(self@, align),
    {
        VirtAddr(align_up(self.0, align))
    }

    /// Aligns the virtual address downwards to the given alignment.
    ///
    /// See the `align_down` function for more information. An alignment of
    /// up to `2^48` leaves the top 16 bits as they are, so a canonical
    /// address stays canonical.
    pub fn align_down(self, align: u64) -> (aligned: VirtAddr)
        requires
            is_power_of_two(align),
        ensures
            aligned@ == align_down_spec(self@, align),
            align <= 0x1_0000_0000_0000 ==> range_bits(aligned@) == range_bits(self@),
            align <= 0x1_0000_0000_0000 && self.is_canonical() ==> aligned.is_canonical(),
    {
        proof {
            if align <= 0x1_0000_0000_0000 {
                lemma_align_down_keeps_range_bits(self.0, align);
            }
        }
        VirtAddr(align_down(self.0, align))
    }

    /// Checks whether the virtual address has the demanded alignment.
    pub fn is_aligned(self, align: u64) -> (aligned: bool)
        requires
            is_power_of_two(align),
        ensures
            aligned == is_aligned_spec(self@, align),
    {
        self.align_down(align) == self
    }

    /// Returns the 12-bit page offset of this virtual address.
    pub fn page_offset(&self) -> (offset: ux::u12)
        ensures
            u12_value(offset) == page_offset_bits(self@),
    {
        let raw = self.0;
        let low = raw & 0xfff;
        assert(low == raw % 0x1000) by (bit_vector)
            requires
                low == raw & 0xfff,
        ;
        ux::u12::new(low as u16)
    }

    /// Returns the VA range
    pub fn va_range(&self) -> (result: Result<VirtAddrRange, VirtAddrNotValid>)
        ensures
            result == self.spec_va_range(),
            result is Ok <==> self.is_canonical(),
    {
        VirtAddrRange::classify(self.va_range_bits())
    }

    /// Returns the top 16 bits
    pub fn va_range_bits(&self) -> (bits: u16)
        ensures
            bits == range_bits(self@),
    {
        let raw = self.0;
        let top = (raw >> 48) & 0xffff;
        assert(top == raw / 0x1_0000_0000_0000 && top <= 0xffff) by (bit_vector)
            requires
                top == (raw >> 48) & 0xffff,
        ;
        top as u16
    }

    /// Returns the 9-bit level 1 page table index.
    pub fn p1_index(&self) -> (index: ux::u9)
        ensures
            u9_value(index) == table_index(self@, 1),
            u9_value(index) <= 511,
    {
        let raw = self.0;
        let field = (raw >> 12) & 0o777;
        assert(field == (raw / 0x1000) % 0x200) by (bit_vector)
            requires
                field == (raw >> 12) & 0o777,
        ;
        ux::u9::new(field as u16)
    }

    /// Returns the 9-bit level 2 page table index.
    pub fn p2_index(&self) -> (index: ux::u9)
        ensures
            u9_value(index) == table_index(self@, 2),
            u9_value(index) <= 511,
    {
        let raw = self.0;
        let field = (raw >> 12 >> 9) & 0o777;
        assert(field == (raw / 0x20_0000) % 0x200) by (bit_vector)
            requires
                field == (raw >> 12 >> 9) & 0o777,
        ;
        ux::u9::new(field as u16)
    }

    /// Returns the 9-bit level 3 page table index.
    pub fn p3_index(&self) -> (index: ux::u9)
        ensures
            u9_value(index) == table_index(self@, 3),
            u9_value(index) <= 511,
    {
        let raw = self.0;
        let field = (raw >> 12 >> 9 >> 9) & 0o777;
        assert(field == (raw / 0x4000_0000) % 0x200) by (bit_vector)
            requires
                field == (raw >> 12 >> 9 >> 9) & 0o777,
        ;
        ux::u9::new(field as u16)
    }

    /// Returns the 9-bit level 4 page table index.
    pub fn p4_index(&self) -> (index: ux::u9)
        ensures
            u9_value(index) == table_index(self@, 4),
            u9_value(index) <= 511,
    {
        let raw = self.0;
        let field = (raw >> 12 >> 9 >> 9 >> 9) & 0o777;
        assert(field == (raw / 0x80_0000_0000) % 0x200) by (bit_vector)
            requires
                field == (raw >> 12 >> 9 >> 9 >> 9) & 0o777,
        ;
        ux::u9::new(field as u16)
    }
}

impl VirtAddr {
    /// The range offset, the four table indices and the page offset of a
    /// canonical address, each put back at its place, give the address
    /// again. The fields do not overlap, so adding them and combining them
    /// bit by bit come to the same.
    pub proof fn lemma_fields_rebuild_address(self)
        requires
            self.is_canonical(),
        ensures
            self.spec_va_range() is Ok,
            ({
                let offset = self.spec_va_range().unwrap().as_offset();
                let level4 = table_index(self@, 4);
                let level3 = table_index(self@, 3);
                let level2 = table_index(self@, 2);
                let level1 = table_index(self@, 1);
                let low = page_offset_bits(self@);
                &&& self@ == offset + level4 * level_unit(4) + level3 * level_unit(3) + level2
                    * level_unit(2) + level1 * level_unit(1) + low
                &&& self@ == offset | (level4 << 39) | (level3 << 30) | (level2 << 21) | (level1
                    << 12) | low
            }),
    {
        let raw = self@;
        let top = range_bits(raw);
        let offset = self.spec_va_range().unwrap().as_offset();
        let level4 = table_index(raw, 4);
        let level3 = table_index(raw, 3);
        let level2 = table_index(raw, 2);
        let level1 = table_index(raw, 1);
        let low = page_offset_bits(raw);
        assert(offset == top * 0x1_0000_0000_0000);
        assert(raw == top * 0x1_0000_0000_0000 + level4 * 0x80_0000_0000 + level3 * 0x4000_0000
            + level2 * 0x20_0000 + level1 * 0x1000 + low) by (bit_vector)
            requires
                top == raw / 0x1_0000_0000_0000,
                level4 == (raw / 0x80_0000_0000) % 0x200,
                level3 == (raw / 0x4000_0000) % 0x200,
                level2 == (raw / 0x20_0000) % 0x200,
                level1 == (raw / 0x1000) % 0x200,
                low == raw % 0x1000,
        ;
        assert(raw == offset | (level4 << 39) | (level3 << 30) | (level2 << 21) | (level1 << 12)
            | low) by (bit_vector)
            requires
                offset == (raw / 0x1_0000_0000_0000) * 0x1_0000_0000_0000,
                level4 == (raw / 0x80_0000_0000) % 0x200,
                level3 == (raw / 0x4000_0000) % 0x200,
                level2 == (raw / 0x20_0000) % 0x200,
                level1 == (raw / 0x1000) % 0x200,
                low == raw % 0x1000,
        ;
    }

    /// Every table index of every address lies in 0 to 511.
    pub proof fn lemma_table_index_in_range(self, level: nat)
        requires
            1 <= level <= 4,
        ensures
            0 <= table_index(self@, level) <= 511,
    {
    }
}

impl Add<u64> for VirtAddr {
    type Output = VirtAddr;

    /// The address `rhs` bytes above this one; the sum is not checked for
    /// canonical form.
    fn add(self, rhs: u64) -> (sum: VirtAddr)
        ensures
            sum@ == self@ + rhs,
    {
        VirtAddr::new(self.0 + rhs)
    }
}

impl AddSpecImpl<u64> for VirtAddr {
    open spec fn obeys_add_spec() -> bool {
        true
    }

    open spec fn add_req(self, rhs: u64) -> bool {
        self@ + rhs <= u64::MAX
    }

    closed spec fn add_spec(self, rhs: u64) -> VirtAddr {
        VirtAddr((self.0 + rhs) as u64)
    }
}

impl AddAssign<u64> for VirtAddr {
    fn add_assign(&mut self, rhs: u64)
        requires
            old(self)@ + rhs <= u64::MAX,
        ensures
            final(self)@ == old(self)@ + rhs,
    {
        *self = *self + rhs;
    }
}

impl Add<usize> for VirtAddr {
    type Output = VirtAddr;

    /// The address `rhs` bytes above this one; the sum is not checked for
    /// canonical form.
    fn add(self, rhs: usize) -> (sum: VirtAddr)
        ensures
            sum@ == self@ + rhs,
    {
        self + u64_from_usize(rhs)
    }
}

impl AddSpecImpl<usize> for VirtAddr {
    open spec fn obeys_add_spec() -> bool {
        true
    }

    open spec fn add_req(self, rhs: usize) -> bool {
        self@ + rhs <= u64::MAX
    }

    closed spec fn add_spec(self, rhs: usize) -> VirtAddr {
        VirtAddr((self.0 + rhs) as u64)
    }
}

impl AddAssign<usize> for VirtAddr {
    fn add_assign(&mut self, rhs: usize)
        requires
            old(self)@ + rhs <= u64::MAX,
        ensures
            final(self)@ == old(self)@ + rhs,
    {
        self.add_assign(u64_from_usize(rhs))
    }
}

impl Sub<u64> for VirtAddr {
    type Output = VirtAddr;

    /// The address `rhs` bytes below this one; the difference is not checked
    /// for canonical form.
    fn sub(self, rhs: u64) -> (difference: VirtAddr)
        ensures
            difference@ == self@ - rhs,
    {
        VirtAddr::new(self.0.checked_sub(rhs).unwrap())
    }
}

impl SubSpecImpl<u64> for VirtAddr {
    open spec fn obeys_sub_spec() -> bool {
        true
    }

    open spec fn sub_req(self, rhs: u64) -> bool {
        rhs <= self@
    }

    closed spec fn sub_spec(self, rhs: u64) -> VirtAddr {
        VirtAddr((self.0 - rhs) as u64)
    }
}

impl SubAssign<u64> for VirtAddr {
    fn sub_assign(&mut self, rhs: u64)
        requires
            rhs <= old(self)@,
        ensures
            final(self)@ == old(self)@ - rhs,
    {
        *self = *self - rhs;
    }
}

impl Sub<usize> for VirtAddr {
    type Output = VirtAddr;

    /// The address `rhs` bytes below this one; the difference is not checked
    /// for canonical form.
    fn sub(self, rhs: usize) -> (difference: VirtAddr)
        ensures
            difference@ == self@ - rhs,
    {
        self - u64_from_usize(rhs)
    }
}

impl SubSpecImpl<usize> for VirtAddr {
    open spec fn obeys_sub_spec() -> bool {
        true
    }

    open spec fn sub_req(self, rhs: usize) -> bool {
        rhs <= self@
    }

    closed spec fn sub_spec(self, rhs: usize) -> VirtAddr {
        VirtAddr((self.0 - rhs) as u64)
    }
}

impl SubAssign<usize> for VirtAddr {
    fn sub_assign(&mut self, rhs: usize)
        requires
            rhs <= old(self)@,
        ensures
            final(self)@ == old(self)@ - rhs,
    {
        self.sub_assign(u64_from_usize(rhs))
    }
}

impl Sub<VirtAddr> for VirtAddr {
    type Output = u64;

    /// The distance in bytes from `rhs` up to this address.
    fn sub(self, rhs: VirtAddr) -> (distance: u64)
        ensures
            distance == self@ - rhs@,
    {
        self.as_u64().checked_sub(rhs.as_u64()).unwrap()
    }
}

impl SubSpecImpl<VirtAddr> for VirtAddr {
    open spec fn obeys_sub_spec() -> bool {
        true
    }

    open spec fn sub_req(self, rhs: VirtAddr) -> bool {
        rhs@ <= self@
    }

    open spec fn sub_spec(self, rhs: VirtAddr) -> u64 {
        (self@ - rhs@) as u64
    }
}

} // verus!
