use x86_vcpu::vmx::structs::{IOBitmap, MsrBitmap, VmxRegion};

#[test]
fn io_bitmap_starts_passthrough() {
    let b = IOBitmap::passthrough_all();
    assert!(!b.get_intercept(0));
    assert!(!b.get_intercept(0x604));
    assert!(!b.get_intercept(0x7fff));
    assert!(!b.get_intercept(0x8000));
    assert!(!b.get_intercept(0xffff));
}

#[test]
fn io_bitmap_intercept_all_sets_everything() {
    let b = IOBitmap::intercept_all();
    assert!(b.get_intercept(0));
    assert!(b.get_intercept(0x604));
    assert!(b.get_intercept(0xffff));
}

#[test]
fn io_bitmap_set_one_port() {
    let mut b = IOBitmap::passthrough_all();
    b.set_intercept(0x604, true);
    assert!(b.get_intercept(0x604));
    // Neighbours in the same byte stay untouched.
    assert!(!b.get_intercept(0x603));
    assert!(!b.get_intercept(0x605));
    assert!(!b.get_intercept(0x8604));
}

#[test]
fn io_bitmap_set_then_clear_restores_prior_state() {
    let mut b = IOBitmap::passthrough_all();
    b.set_intercept(0x2f8, true); // unrelated port stays set throughout
    b.set_intercept(0x604, true);
    b.set_intercept(0x604, false);
    assert!(!b.get_intercept(0x604));
    assert!(b.get_intercept(0x2f8));
    assert!(!b.get_intercept(0x603));
    assert!(!b.get_intercept(0x605));
}

#[test]
fn io_bitmap_range_covers_both_pages() {
    let mut b = IOBitmap::passthrough_all();
    b.set_intercept_of_range(0x7ffe, 4, true);
    assert!(!b.get_intercept(0x7ffd));
    assert!(b.get_intercept(0x7ffe));
    assert!(b.get_intercept(0x7fff));
    assert!(b.get_intercept(0x8000));
    assert!(b.get_intercept(0x8001));
    assert!(!b.get_intercept(0x8002));
}

#[test]
fn msr_bitmap_directions_are_independent() {
    let mut m = MsrBitmap::passthrough_all();
    m.set_read_intercept(0xe1, true);
    assert!(m.get_intercept(0xe1, false));
    assert!(!m.get_intercept(0xe1, true));
    m.set_write_intercept(0xe1, true);
    assert!(m.get_intercept(0xe1, true));
    m.set_read_intercept(0xe1, false);
    assert!(!m.get_intercept(0xe1, false));
    assert!(m.get_intercept(0xe1, true));
}

#[test]
fn msr_bitmap_high_range() {
    let mut m = MsrBitmap::passthrough_all();
    m.set_write_intercept(0xc000_0080, true);
    assert!(m.get_intercept(0xc000_0080, true));
    assert!(!m.get_intercept(0xc000_0080, false));
    assert!(!m.get_intercept(0x80, true));
    assert!(!m.get_intercept(0xc000_0081, true));
}

#[test]
fn vmx_region_is_stamped_and_zeroed() {
    let r = VmxRegion::new(0x7fff_0001, false);
    assert_eq!(r.len(), 4096);
    assert_eq!(r.read_byte(0), 0x01);
    assert_eq!(r.read_byte(1), 0x00);
    assert_eq!(r.read_byte(2), 0xff);
    assert_eq!(r.read_byte(3), 0x7f);
    for i in 4..4096 {
        assert_eq!(r.read_byte(i), 0);
    }
}

#[test]
fn vmx_region_shadow_indicator_sets_bit31() {
    let r = VmxRegion::new(0x1234, true);
    assert_eq!(r.read_byte(3), 0x80);
}
