use bootcore::memory::addr::{PhysAddr, VirtAddr, PAGE_SIZE};

#[test]
fn align_down_then_up_is_stable() {
    for &a in &[0usize, 1, 4095, 4096, 4097, 0x1234_5678, usize::MAX - 8192] {
        for &n in &[1usize, 2, 8, 4096, 1 << 21] {
            let d = VirtAddr::new(a).align_down(n);
            assert_eq!(d.align_up(n), d);
            let p = PhysAddr::new_const(a).align_down(n);
            assert_eq!(p.align_up(n), p);
        }
    }
}

#[test]
fn align_bounds_are_aligned() {
    for &a in &[0usize, 1, 4095, 4096, 4097, 0x1234_5678] {
        for &n in &[1usize, 16, 4096] {
            let v = VirtAddr::new(a);
            let down = v.align_down(n);
            let up = v.align_up(n);
            assert!(down.as_usize() <= a && a <= up.as_usize());
            assert!(down.is_aligned(n));
            assert!(up.is_aligned(n));
        }
    }
}

#[test]
fn align_exact_values() {
    let v = VirtAddr::new(0x1001);
    assert_eq!(v.align_up(0x1000).as_usize(), 0x2000);
    assert_eq!(v.align_down(0x1000).as_usize(), 0x1000);
    assert_eq!(VirtAddr::new(0x2000).align_up(0x1000).as_usize(), 0x2000);
    let p = PhysAddr::new_const(0x3fff);
    assert_eq!(p.align_up(0x1000).as_u64(), 0x4000);
    assert_eq!(p.align_down(0x1000).as_u64(), 0x3000);
}

#[test]
fn unchecked_physical_address_keeps_misalignment() {
    let p = PhysAddr::new_const(0x1001);
    assert_eq!(p.0, 0x1001);
    assert!(!p.is_aligned(PAGE_SIZE));
}

#[test]
fn checked_physical_address_is_page_aligned() {
    let p = PhysAddr::new(0x5000);
    assert_eq!(p.as_u64(), 0x5000);
    assert!(p.is_aligned(PAGE_SIZE));
}

#[test]
fn virtual_address_offset_and_read_ok() {
    let v = VirtAddr::new(0x1000).offset(0x10);
    assert_eq!(v.as_u64(), 0x1010);
    assert!(v.read_ok::<u64>());
    assert!(!VirtAddr::new(0x1004).read_ok::<u64>());
    assert!(VirtAddr::new(0x1004).read_ok::<u32>());
    assert!(!VirtAddr::new(0).read_ok::<u8>());
}

#[test]
fn checked_constructor_rejects_unaligned() {
    assert_eq!(PhysAddr::try_new(0x1001), None);
    assert_eq!(PhysAddr::try_new(0x2000), Some(PhysAddr(0x2000)));
    assert_eq!(PhysAddr::try_new(0), Some(PhysAddr(0)));
}

#[test]
fn aligned_address_near_top_rounds_up_to_itself() {
    let top = VirtAddr::new(usize::MAX).align_down(4096);
    assert_eq!(top.align_up(4096), top);
}
