use blaze::ioapic::{InterruptSources, IoApicWindow, IOAPIC, IOREDTBL};

fn controller() -> IOAPIC {
    IOAPIC::new(&[2, 0, 0x00, 0x00, 0xC0, 0xFE, 0, 0, 0, 0])
}

#[test]
fn reserved_lines_start_claimed() {
    let mut s = InterruptSources::new();
    for l in 0..64u8 {
        assert_eq!(s.get_irq(l), ![0u8, 1, 2, 8].contains(&l), "line {}", l);
    }
}

#[test]
fn set_and_clear_single_lines() {
    let mut s = InterruptSources(0);
    s.set_irq(5);
    s.set_irq(9);
    assert!(!s.get_irq(5));
    s.clear_irq(5);
    assert!(s.get_irq(5));
    assert!(!s.get_irq(9));
    assert_eq!(s.0, 1 << 9);
}

#[test]
fn allocate_takes_lowest_free_candidate() {
    let mut s = InterruptSources::new();
    let all = u64::MAX;
    assert_eq!(s.allocate(all), Some(3));
    assert_eq!(s.allocate(all), Some(4));
    assert_eq!(s.allocate((1 << 8) | (1 << 2) | (1 << 11)), Some(11));
}

#[test]
fn allocate_never_returns_reserved_or_duplicate_lines() {
    let mut s = InterruptSources(0);
    let mut seen = Vec::new();
    while let Some(l) = s.allocate(u64::MAX) {
        assert!(![0u8, 1, 2, 8].contains(&l));
        assert!(!seen.contains(&l));
        seen.push(l);
    }
    assert_eq!(seen.len(), 60);
}

#[test]
fn allocate_without_free_candidate_changes_nothing() {
    let mut s = InterruptSources::new();
    assert_eq!(s.allocate((1 << 0) | (1 << 8)), None);
    assert_eq!(s.allocate(0), None);
    assert_eq!(s.0, 0x107);
}

#[test]
fn redirection_entry_fields() {
    let e = IOREDTBL(0xAB00_0000_0001_F3C5);
    assert_eq!(e.vector(), 0xC5);
    assert_eq!(e.delivery_mode(), 3);
    assert!(!e.destination_mode());
    assert!(e.delivery_status());
    assert!(e.polarity());
    assert!(e.remote_irr());
    assert!(e.trigger_mode());
    assert!(e.mask());
    assert_eq!(e.destination(), 0xAB);
    let mut f = e;
    f.set_vector(0x140);
    assert_eq!(f.0, 0xAB00_0000_0001_F340);
}

#[test]
fn table_entries_split_into_halves() {
    let io = controller();
    assert_eq!(io.ioapic_address, 0xFEC0_0000);
    let mut win = IoApicWindow::new();
    io.write_table_entry(&mut win, 5, IOREDTBL(0x1122_3344_5566_7788));
    assert_eq!(win.writes, vec![(0x1A, 0x5566_7788), (0x1B, 0x1122_3344)]);
    assert_eq!(io.read_table_entry(&win, 5), 0x1122_3344_5566_7788);
    assert_eq!(io.read(&win, 0x1A), 0x5566_7788);
}

#[test]
fn standard_entry_claims_line_and_sets_vector_only() {
    let io = controller();
    let mut win = IoApicWindow::new();
    let mut s = InterruptSources::new();
    io.standard_table_entry(&mut win, &mut s, 9, 0x41);
    assert!(!s.get_irq(9));
    let e = IOREDTBL(io.read_table_entry(&win, 9));
    assert_eq!(e.vector(), 0x41);
    assert_eq!(e.delivery_mode(), 0);
    assert!(!e.destination_mode());
    assert!(!e.mask());
}
