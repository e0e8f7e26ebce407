use blaze::bump_alloc::{init_heap, BumpAllocator, HEAP_SIZE, HEAP_START};
use blaze::frame::{BootInfoFrameAllocator, MemoryRegion, MemoryRegionType};
use blaze::paging::{
    entry_frame, mapping_flags, page_range, page_table_index, translate_addr_inner, Page, Size1GiB,
    Size2MiB, Size4KiB, TranslateError,
};
use blaze::phys::PhysMemory;
use blaze::util::{align_down, align_up, is_aligned};

#[test]
fn alignment_helpers() {
    assert_eq!(align_up(0x1001, 0x1000), 0x2000);
    assert_eq!(align_up(0x1000, 0x1000), 0x1000);
    assert_eq!(align_up(0, 8), 0);
    assert_eq!(align_down(0x1fff, 0x1000), 0x1000);
    assert_eq!(align_down(0x2000, 0x1000), 0x2000);
    assert!(is_aligned(0x3000, 0x1000));
    assert!(!is_aligned(0x3001, 0x1000));
}

#[test]
fn frame_allocator_single_region_then_exhaustion() {
    let map = vec![MemoryRegion { base: 0x1000, len: 0x3000, typ: MemoryRegionType::Usable }];
    let mut a = BootInfoFrameAllocator::init(map);
    assert_eq!(a.allocate_frame(), Some(0x1000));
    assert_eq!(a.allocate_frame(), Some(0x2000));
    assert_eq!(a.allocate_frame(), Some(0x3000));
    assert_eq!(a.allocate_frame(), None);
    assert_eq!(a.allocate_frame(), None);
}

#[test]
fn frame_allocator_skips_unusable_regions_in_order() {
    let map = vec![
        MemoryRegion { base: 0x0, len: 0x1000, typ: MemoryRegionType::Reserved },
        MemoryRegion { base: 0x10000, len: 0x2000, typ: MemoryRegionType::Usable },
        MemoryRegion { base: 0x20000, len: 0x1000, typ: MemoryRegionType::AcpiReclaimable },
        MemoryRegion { base: 0x40000, len: 0x1800, typ: MemoryRegionType::Usable },
    ];
    let mut a = BootInfoFrameAllocator::init(map);
    let mut got = Vec::new();
    while let Some(f) = a.allocate_frame() {
        got.push(f);
    }
    assert_eq!(got, vec![0x10000, 0x11000, 0x40000]);
}

#[test]
fn frame_allocator_keeps_frames_inside_unaligned_regions() {
    let map = vec![
        MemoryRegion { base: 0x1800, len: 0x1000, typ: MemoryRegionType::Usable },
        MemoryRegion { base: 0x2800, len: 0x2000, typ: MemoryRegionType::Usable },
    ];
    let mut a = BootInfoFrameAllocator::init(map);
    assert_eq!(a.allocate_frame(), Some(0x3000));
    assert_eq!(a.allocate_frame(), None);
}

#[test]
fn bump_heap_round_trip() {
    let mut h = BumpAllocator::new();
    h.init(0x1000, 0x1000);
    let a = h.allocate(16, 8).unwrap();
    let b = h.allocate(32, 16).unwrap();
    assert!(0x1000 <= a && a < b && b + 32 <= 0x2000);
    assert_eq!(a % 8, 0);
    assert_eq!(b % 16, 0);
    assert!(a + 16 <= b);
    h.deallocate();
    h.deallocate();
    assert_eq!(h.allocate(8, 8), Some(0x1000));
}

#[test]
fn bump_heap_aligns_cursor_up() {
    let mut h = BumpAllocator::new();
    h.init(0x1001, 0x100);
    assert_eq!(h.allocate(4, 16), Some(0x1010));
    assert_eq!(h.allocate(1, 1), Some(0x1014));
}

#[test]
fn bump_heap_reports_exhaustion_and_keeps_state() {
    let mut h = BumpAllocator::new();
    h.init(0x1000, 0x20);
    assert_eq!(h.allocate(0x18, 8), Some(0x1000));
    assert_eq!(h.allocate(0x10, 8), None);
    assert_eq!(h.allocate(0x8, 8), Some(0x1018));
    assert_eq!(h.allocate(1, 1), None);
}

#[test]
fn bump_heap_only_resets_when_all_freed() {
    let mut h = BumpAllocator::new();
    h.init(0x1000, 0x100);
    h.allocate(0x10, 1).unwrap();
    h.allocate(0x10, 1).unwrap();
    h.deallocate();
    assert_eq!(h.allocate(0x10, 1), Some(0x1020));
}

#[test]
fn empty_heap_refuses_everything() {
    let mut h = BumpAllocator::new();
    assert_eq!(h.allocate(1, 1), None);
}

#[test]
fn kernel_heap_region() {
    let mut h = BumpAllocator::new();
    init_heap(&mut h);
    assert_eq!(h.allocate(8, 8), Some(HEAP_START as usize));
    assert_eq!(HEAP_SIZE, 100 * 1024);
}

#[test]
fn pages_round_down() {
    assert_eq!(Page::<Size4KiB>::from_address(0x1234).address, 0x1000);
    assert_eq!(Page::<Size4KiB>::from_address(0x2000).address, 0x2000);
    assert_eq!(Page::<Size2MiB>::from_address(0x3F_FFFF).address, 0x20_0000);
    assert_eq!(Page::<Size1GiB>::from_address(0x4000_0001).address, 0x4000_0000);
}

#[test]
fn region_pages_and_flags() {
    assert_eq!(page_range(0xffff_ffff_dead_0000, 100 * 1024), (0xffff_ffff_dead_0000, 0xffff_ffff_deae_8000));
    assert_eq!(page_range(0x1fff, 2), (0x1000, 0x2000));
    assert_eq!(mapping_flags(false), 0b011);
    assert_eq!(mapping_flags(true), 0b111);
}

#[test]
fn entry_frame_cases() {
    assert_eq!(entry_frame(0), Err(TranslateError::NotPresent));
    assert_eq!(entry_frame(0x5000 | 0x81), Err(TranslateError::HugeFrame));
    assert_eq!(entry_frame(0x8000_0000_0000_5003), Ok(0x5000));
}

#[test]
fn table_indices() {
    let addr: u64 = (1 << 39) * 3 + (1 << 30) * 5 + (1 << 21) * 7 + (1 << 12) * 9 + 0x123;
    assert_eq!(page_table_index(addr, 4), 3);
    assert_eq!(page_table_index(addr, 3), 5);
    assert_eq!(page_table_index(addr, 2), 7);
    assert_eq!(page_table_index(addr, 1), 9);
}

fn page_table(entries: &[(u64, u64)]) -> Vec<u8> {
    let mut t = vec![0u8; 4096];
    for (i, e) in entries {
        t[(*i as usize) * 8..(*i as usize) * 8 + 8].copy_from_slice(&e.to_le_bytes());
    }
    t
}

#[test]
fn translate_walks_four_levels() {
    let addr: u64 = (1 << 39) * 1 + (1 << 30) * 2 + (1 << 21) * 3 + (1 << 12) * 4 + 0x567;
    let mut mem = PhysMemory::new();
    mem.add_region(0x1000, page_table(&[(1, 0x2003)]));
    mem.add_region(0x2000, page_table(&[(2, 0x3003)]));
    mem.add_region(0x3000, page_table(&[(3, 0x4003)]));
    mem.add_region(0x4000, page_table(&[(4, 0xAB000 | 3)]));
    assert_eq!(translate_addr_inner(&mem, 0x1000, addr), Ok(0xAB567));
    assert_eq!(translate_addr_inner(&mem, 0x1000, addr + 0x1000), Err(TranslateError::NotPresent));
    assert_eq!(translate_addr_inner(&mem, 0x9000, addr), Err(TranslateError::Unreadable));
}

#[test]
fn translate_stops_at_huge_page() {
    let mut mem = PhysMemory::new();
    mem.add_region(0x1000, page_table(&[(0, 0x2003)]));
    mem.add_region(0x2000, page_table(&[(0, 0x4000_0083)]));
    assert_eq!(translate_addr_inner(&mem, 0x1000, 0x1234), Err(TranslateError::HugeFrame));
}
