use blaze::descriptors::{InterruptDescriptor, SegmentDescriptor32, SegmentDescriptor64, GDT, GDTR, IDTR};

#[test]
fn flat_segments() {
    let n = SegmentDescriptor32::null();
    assert_eq!((n.limit, n.access_byte, n.flags_limit), (0, 0, 0));
    let kc = SegmentDescriptor32::kernel_code();
    assert_eq!((kc.limit, kc.access_byte, kc.flags_limit), (0xFFFF, 0x9A, 0xAF));
    let kd = SegmentDescriptor32::kernel_data();
    assert_eq!((kd.access_byte, kd.flags_limit), (0x92, 0xCF));
    let uc = SegmentDescriptor32::user_code();
    assert_eq!((uc.access_byte, uc.flags_limit), (0xFA, 0xAF));
    let ud = SegmentDescriptor32::user_data();
    assert_eq!((ud.access_byte, ud.flags_limit), (0xF2, 0xCF));
}

#[test]
fn tss_descriptor_splits_base() {
    let d = SegmentDescriptor64::tss(0x1122_3344_5566_7788);
    assert_eq!(d.limit, 104);
    assert_eq!(d.base_1, 0x7788);
    assert_eq!(d.base_2, 0x66);
    assert_eq!(d.base_3, 0x55);
    assert_eq!(d.base_4, 0x1122_3344);
    assert_eq!(d.access_byte, 0x89);
    let g = GDT::with_tss(0x1122_3344_5566_7788);
    assert_eq!(g.tss.base_4, 0x1122_3344);
    assert_eq!(g.kernel_code.access_byte, 0x9A);
    assert_eq!(GDTR::new(0x5000).size, 56);
}

#[test]
fn interrupt_gates_split_handler_address() {
    let h = 0xFFFF_8000_1234_5678u64;
    for g in [
        InterruptDescriptor::new_interrupt(h),
        InterruptDescriptor::new_trap(h),
        InterruptDescriptor::new_interrupt_error_code(h),
        InterruptDescriptor::new_trap_error_code(h),
        InterruptDescriptor::new_page_fault(h),
    ] {
        assert_eq!(g.offset_1, 0x5678);
        assert_eq!(g.offset_2, 0x1234);
        assert_eq!(g.offset_3, 0xFFFF_8000);
        assert_eq!((g.selector, g.ist, g.type_attributes, g.zero), (8, 0, 0x8e, 0));
    }
    let r = IDTR::new(0x9000);
    assert_eq!((r.size, r.offset), (4095, 0x9000));
}
