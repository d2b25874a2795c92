use aarch64_addr::addr::align_down;
use aarch64_addr::addr::align_up;
use aarch64_addr::addr::is_aligned;
use aarch64_addr::addr::ALIGN_1GIB;
use aarch64_addr::addr::ALIGN_2MIB;
use aarch64_addr::addr::ALIGN_4KIB;

#[test]
pub fn test_align_up() {
    // align 1
    assert_eq!(align_up(0, 1), 0);
    assert_eq!(align_up(1234, 1), 1234);
    assert_eq!(align_up(0xffffffffffffffff, 1), 0xffffffffffffffff);
    // align 2
    assert_eq!(align_up(0, 2), 0);
    assert_eq!(align_up(1233, 2), 1234);
    assert_eq!(align_up(0xfffffffffffffffe, 2), 0xfffffffffffffffe);
    // address 0
    assert_eq!(align_up(0, 128), 0);
    assert_eq!(align_up(0, 1), 0);
    assert_eq!(align_up(0, 2), 0);
    assert_eq!(align_up(0, 0x8000000000000000), 0);
}

#[test]
fn align_up_examples() {
    assert_eq!(align_up(1233, 2), 1234);
    assert_eq!(align_up(0, 2), 0);
    assert_eq!(align_up(0x1001, ALIGN_4KIB), 0x2000);
    assert_eq!(align_up(0x1000, ALIGN_4KIB), 0x1000);
    assert_eq!(align_up(1, ALIGN_2MIB), 0x20_0000);
    assert_eq!(align_up(0x4000_0001, ALIGN_1GIB), 0x8000_0000);
}

#[test]
fn align_down_examples() {
    assert_eq!(align_down(1234, 2), 1234);
    assert_eq!(align_down(1235, 2), 1234);
    assert_eq!(align_down(0x1fff, ALIGN_4KIB), 0x1000);
    assert_eq!(align_down(0xffff_ffff_ffff_ffff, ALIGN_1GIB), 0xffff_ffff_c000_0000);
    assert_eq!(align_down(0x7fff_ffff_ffff_ffff, 0x8000_0000_0000_0000), 0);
    assert_eq!(align_down(0xffff_ffff_ffff_ffff, 0x8000_0000_0000_0000), 0x8000_0000_0000_0000);
}

#[test]
fn align_up_wraps_to_zero_above_the_last_multiple() {
    assert_eq!(align_up(0xffff_ffff_ffff_ffff, 2), 0);
    assert_eq!(align_up(0xffff_ffff_ffff_f001, ALIGN_4KIB), 0);
    assert_eq!(align_up(0xffff_ffff_ffff_f000, ALIGN_4KIB), 0xffff_ffff_ffff_f000);
    assert_eq!(align_up(0x8000_0000_0000_0001, 0x8000_0000_0000_0000), 0);
}

#[test]
fn align_up_to_one_is_identity() {
    for addr in [0u64, 1, 2, 1233, 0x1000, 0xdead_beef, u64::MAX - 1, u64::MAX] {
        assert_eq!(align_up(addr, 1), addr);
        assert_eq!(align_down(addr, 1), addr);
    }
}

#[test]
fn address_lies_between_its_aligned_neighbours() {
    for shift in 0..64u32 {
        let align = 1u64 << shift;
        for addr in [0u64, 1, 4095, 4096, 4097, 0x1234_5678_9abc_def0, 0x7fff_ffff_ffff_ffff] {
            let down = align_down(addr, align);
            assert!(down <= addr);
            assert_eq!(down % align, 0);
            assert!(addr - down < align);
            if addr % align == 0 || down <= u64::MAX - align {
                let up = align_up(addr, align);
                assert!(addr <= up);
                assert_eq!(up % align, 0);
                assert!(up - addr < align);
            }
        }
    }
}

#[test]
fn aligned_down_address_is_aligned() {
    for shift in 0..64u32 {
        let align = 1u64 << shift;
        for addr in [0u64, 1, 4097, 0x1234_5678_9abc_def0, u64::MAX] {
            assert!(is_aligned(align_down(addr, align), align));
        }
    }
}

#[test]
fn is_aligned_examples() {
    assert!(is_aligned(0, ALIGN_4KIB));
    assert!(is_aligned(0x3000, ALIGN_4KIB));
    assert!(!is_aligned(0x3001, ALIGN_4KIB));
    assert!(!is_aligned(0x1000, ALIGN_2MIB));
    assert!(is_aligned(0x4000_0000, ALIGN_1GIB));
    assert!(is_aligned(u64::MAX, 1));
}
