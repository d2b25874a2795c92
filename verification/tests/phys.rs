use aarch64_addr::addr::PhysAddr;
use aarch64_addr::addr::PhysAddrNotValid;
use aarch64_addr::addr::ALIGN_2MIB;
use aarch64_addr::addr::ALIGN_4KIB;
use aarch64_addr::regs::scr_el3::Reg;

#[test]
fn try_new_accepts_the_largest_52_bit_address() {
    let pa = PhysAddr::try_new(0x000f_ffff_ffff_ffff).unwrap();
    assert_eq!(pa.as_u64(), 0x000f_ffff_ffff_ffff);
    assert_eq!(PhysAddr::try_new(0).map(PhysAddr::as_u64), Ok(0));
}

#[test]
fn try_new_rejects_bit_52_and_above() {
    assert_eq!(PhysAddr::try_new(0x0010_0000_0000_0000), Err(PhysAddrNotValid(1)));
    assert_eq!(PhysAddr::try_new(0xfff0_0000_0000_0000), Err(PhysAddrNotValid(0xfff)));
    assert_eq!(PhysAddr::try_new(0x1234_5678_9abc_def0), Err(PhysAddrNotValid(0x123)));
    assert_eq!(PhysAddr::try_new(u64::MAX), Err(PhysAddrNotValid(0xfff)));
}

#[test]
fn new_stores_what_it_gets() {
    assert_eq!(PhysAddr::new(0xfff0_0000_0000_0000).as_u64(), 0xfff0_0000_0000_0000);
    assert_eq!(PhysAddr::new(7).as_u64(), 7);
}

#[test]
fn only_address_zero_is_null() {
    assert!(PhysAddr::new(0).is_null());
    assert!(!PhysAddr::new(1).is_null());
    assert!(!PhysAddr::new(0x0010_0000_0000_0000).is_null());
}

#[test]
fn alignment_of_physical_addresses() {
    let pa = PhysAddr::new(0x20_1234);
    assert_eq!(pa.align_down(ALIGN_4KIB).as_u64(), 0x20_1000);
    assert_eq!(pa.align_up(ALIGN_4KIB).as_u64(), 0x20_2000);
    assert_eq!(pa.align_down(ALIGN_2MIB).as_u64(), 0x20_0000);
    assert_eq!(pa.align_up(ALIGN_2MIB).as_u64(), 0x40_0000);
    assert!(!pa.is_aligned(ALIGN_4KIB));
    assert!(PhysAddr::new(0x20_0000).is_aligned(ALIGN_2MIB));
    assert_eq!(PhysAddr::new(u64::MAX).align_up(2).as_u64(), 0);
}

#[test]
fn physical_offsets_are_added_and_subtracted() {
    let pa = PhysAddr::new(0x8_0000);
    assert_eq!((pa + 0x10u64).as_u64(), 0x8_0010);
    assert_eq!((pa + 0x10usize).as_u64(), 0x8_0010);
    assert_eq!((pa - 0x10u64).as_u64(), 0x7_fff0);
    assert_eq!((pa - 0x8_0000usize).as_u64(), 0);
    // the sum leaves the 52-bit range and is kept as it is
    assert_eq!((PhysAddr::new(0x000f_ffff_ffff_ffff) + 1u64).as_u64(), 0x0010_0000_0000_0000);

    let mut moving = PhysAddr::new(0x100);
    moving += 1u64;
    moving += 2usize;
    assert_eq!(moving.as_u64(), 0x103);
    moving -= 3u64;
    moving -= 0x100usize;
    assert!(moving.is_null());
}

#[test]
fn distance_between_two_physical_addresses() {
    let low = PhysAddr::new(0x1000);
    let high = PhysAddr::new(0x000f_ffff_ffff_f000);
    assert_eq!(high - low, 0x000f_ffff_ffff_e000);
    assert_eq!(high - low, high.as_u64() - low.as_u64());
    assert_eq!(low - low, 0);
}

#[test]
fn physical_addresses_are_ordered_by_their_value() {
    assert!(PhysAddr::new(1) < PhysAddr::new(2));
    assert_eq!(PhysAddr::new(5), PhysAddr::new(5));
    assert_ne!(PhysAddr::new(5), PhysAddr::new(6));
}

#[test]
fn register_handle_holds_no_state() {
    let _handle: Reg = Reg;
    assert_eq!(std::mem::size_of::<Reg>(), 0);
}

#[test]
fn physical_address_in_the_four_bases() {
    let pa = PhysAddr::new(0xabc);
    assert_eq!(pa.to_lower_hex(), "abc");
    assert_eq!(pa.to_upper_hex(), "ABC");
    assert_eq!(pa.to_octal(), "5274");
    assert_eq!(pa.to_binary(), "101010111100");
    assert_eq!(pa.to_lower_hex(), format!("{:x}", 0xabcu64));
}

#[test]
fn null_address_is_written_as_one_zero() {
    let pa = PhysAddr::new(0);
    assert_eq!(pa.to_lower_hex(), "0");
    assert_eq!(pa.to_upper_hex(), "0");
    assert_eq!(pa.to_octal(), "0");
    assert_eq!(pa.to_binary(), "0");
}

#[test]
fn largest_value_in_the_four_bases() {
    let pa = PhysAddr::new(u64::MAX);
    assert_eq!(pa.to_lower_hex(), "ffffffffffffffff");
    assert_eq!(pa.to_upper_hex(), "FFFFFFFFFFFFFFFF");
    assert_eq!(pa.to_octal(), "1777777777777777777777");
    assert_eq!(pa.to_binary(), "1".repeat(64));
}

#[test]
fn physical_address_in_its_default_form() {
    assert_eq!(PhysAddr::new(0xfee0_0000).to_debug_string(), "PhysAddr(0xfee00000)");
    assert_eq!(PhysAddr::new(0).to_debug_string(), "PhysAddr(0x0)");
}
