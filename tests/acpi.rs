use blaze::hpet::{HpetRegisters, HPET};
use blaze::ioapic::{InterruptSources, IoApicWindow};
use blaze::madt::{MADTEntryTypes, MADT};
use blaze::phys::PhysMemory;
use blaze::rsdp::RSDPDescriptor;
use blaze::rsdt::{checksum_ok, read_table, ACPISDTHeader, RSDT};

/// Builds a table with a valid checksum from its signature and body.
fn table(sig: &[u8; 4], body: &[u8]) -> Vec<u8> {
    let len = (36 + body.len()) as u32;
    let mut t = Vec::new();
    t.extend_from_slice(sig);
    t.extend_from_slice(&len.to_le_bytes());
    t.push(1); // revision
    t.push(0); // checksum, fixed below
    t.extend_from_slice(b"BLAZE ");
    t.extend_from_slice(b"TESTTBL ");
    t.extend_from_slice(&1u32.to_le_bytes());
    t.extend_from_slice(&2u32.to_le_bytes());
    t.extend_from_slice(&3u32.to_le_bytes());
    t.extend_from_slice(body);
    let sum: u8 = t.iter().fold(0u8, |a, b| a.wrapping_add(*b));
    t[9] = 0u8.wrapping_sub(sum);
    t
}

fn rsdp(rsdt_addr: u32) -> Vec<u8> {
    let mut r = Vec::new();
    r.extend_from_slice(b"RSD PTR ");
    r.push(0);
    r.extend_from_slice(b"BLAZE ");
    r.push(0);
    r.extend_from_slice(&rsdt_addr.to_le_bytes());
    let sum: u8 = r.iter().fold(0u8, |a, b| a.wrapping_add(*b));
    r[8] = 0u8.wrapping_sub(sum);
    r
}

fn madt_body(entries: &[Vec<u8>]) -> Vec<u8> {
    let mut b = Vec::new();
    b.extend_from_slice(&0xFEE0_0000u32.to_le_bytes());
    b.extend_from_slice(&1u32.to_le_bytes());
    for e in entries {
        b.extend_from_slice(e);
    }
    b
}

fn ioapic_entry(id: u8, addr: u32, gsi: u32) -> Vec<u8> {
    let mut e = vec![1u8, 12, id, 0];
    e.extend_from_slice(&addr.to_le_bytes());
    e.extend_from_slice(&gsi.to_le_bytes());
    e
}

fn hpet_body(base: u64) -> Vec<u8> {
    let mut b = vec![1u8, 0x02, 0x86, 0x80, 0, 64, 0, 0];
    b.extend_from_slice(&base.to_le_bytes());
    b.push(0);
    b.extend_from_slice(&0x80u16.to_le_bytes());
    b.push(0);
    b
}

#[test]
fn checksum_of_valid_table_holds() {
    let t = table(b"TEST", &[1, 2, 3, 4, 5]);
    let sum: u32 = t.iter().map(|b| *b as u32).sum();
    assert_eq!(sum % 256, 0);
    assert!(checksum_ok(&t));
}

#[test]
fn checksum_detects_each_corrupted_byte() {
    let t = table(b"TEST", &[9, 8, 7, 6]);
    for i in 0..t.len() {
        if (4..8).contains(&i) {
            continue;
        }
        let mut c = t.clone();
        c[i] = c[i].wrapping_add(1);
        assert!(!checksum_ok(&c), "byte {} corrupted but accepted", i);
    }
}

#[test]
fn checksum_rejects_short_and_mislabelled_tables() {
    assert!(!checksum_ok(&[0u8; 10]));
    let mut t = table(b"TEST", &[]);
    t.push(0);
    assert!(!checksum_ok(&t));
}

#[test]
fn header_parse_reads_every_field() {
    let t = table(b"APIC", &[0; 8]);
    let h = ACPISDTHeader::parse(&t);
    assert_eq!(h.signature, *b"APIC");
    assert_eq!(h.length, 44);
    assert_eq!(h.revision, 1);
    assert_eq!(h.oem_id, *b"BLAZE ");
    assert_eq!(h.oem_table_id, *b"TESTTBL ");
    assert_eq!(h.oem_revision, 1);
    assert_eq!(h.creator_id, 2);
    assert_eq!(h.creator_revision, 3);
    assert_eq!(h.signature(), "APIC");
}

#[test]
fn read_table_needs_memory_and_checksum() {
    let mut mem = PhysMemory::new();
    let mut t = table(b"TEST", &[1, 2, 3]);
    mem.add_region(0x1000, t.clone());
    assert_eq!(read_table(&mem, 0x1000), Some(t.clone()));
    assert_eq!(read_table(&mem, 0x2000), None);
    t[20] ^= 0xff;
    let mut bad = PhysMemory::new();
    bad.add_region(0x1000, t);
    assert_eq!(read_table(&bad, 0x1000), None);
}

#[test]
fn memory_read_refuses_spans_past_a_region() {
    let mut mem = PhysMemory::new();
    mem.add_region(0x100, vec![1, 2, 3, 4]);
    assert_eq!(mem.read(0x101, 3), Some(vec![2, 3, 4]));
    assert_eq!(mem.read(0x101, 4), None);
    assert_eq!(mem.read(0xff, 1), None);
}

#[test]
fn rsdp_fields_and_checksum() {
    let b = rsdp(0x4000);
    let d = RSDPDescriptor::parse(&b);
    assert!(d.checksum());
    assert_eq!(d.signature(), "RSD PTR ");
    assert_eq!(d.oem_id(), "BLAZE ");
    assert_eq!(d.rsdt_address(), 0x4000);
    for i in 0..20 {
        let mut c = b.clone();
        c[i] = c[i].wrapping_add(1);
        assert!(!RSDPDescriptor::parse(&c).checksum(), "byte {} corrupted but accepted", i);
    }
    assert!(d.extended_rsdp(&b).is_none());
}

#[test]
fn extended_rsdp_needs_revision_two() {
    let mut b = rsdp(0x4000);
    b[15] = 2;
    b.extend_from_slice(&36u32.to_le_bytes());
    b.extend_from_slice(&0x1234_5678_9000u64.to_le_bytes());
    b.extend_from_slice(&[7, 0, 0, 0]);
    let d = RSDPDescriptor::parse(&b);
    let e = d.extended_rsdp(&b).unwrap();
    assert_eq!(e.length, 36);
    assert_eq!(e.xsdt_address, 0x1234_5678_9000);
    assert_eq!(e.extended_checksum, 7);
    assert_eq!(e.signature(), "RSD PTR ");
    assert!(d.extended_rsdp(&b[..30]).is_none());
}

fn madt_with(n: usize) -> (MADT, Vec<Vec<u8>>) {
    let mut entries = Vec::new();
    for k in 0..n {
        let len = 2 + (k % 5) as u8 * 2;
        let mut e = vec![(k % 6) as u8, len];
        for j in 2..len {
            e.push(j + k as u8);
        }
        entries.push(e);
    }
    let t = table(b"APIC", &madt_body(&entries));
    (MADT::from_table(&t), entries)
}

#[test]
fn madt_iteration_yields_each_entry_in_order() {
    for n in [0usize, 1, 16] {
        let (m, entries) = madt_with(n);
        let got = m.entry_list();
        assert_eq!(got.len(), n);
        for (e, want) in got.iter().zip(entries.iter()) {
            assert_eq!(e.entry_type, want[0]);
            assert_eq!(e.length, want[1]);
            assert_eq!(e.data, want[2..].to_vec());
        }
        let mut it = m.entries();
        let mut count = 0;
        while let Some(_) = it.next() {
            count += 1;
        }
        assert_eq!(count, n);
    }
}

#[test]
fn madt_iteration_stops_at_a_truncated_entry() {
    let mut entries = vec![vec![4u8, 6, 0, 0, 0, 0]];
    entries.push(vec![1u8, 12, 0]);
    let t = table(b"APIC", &madt_body(&entries));
    let m = MADT::from_table(&t);
    assert_eq!(m.entry_list().len(), 1);
}

#[test]
fn madt_entries_decode_by_type() {
    let mut lapic = vec![0u8, 8, 3, 7];
    lapic.extend_from_slice(&1u32.to_le_bytes());
    let mut iso = vec![2u8, 10, 0, 0];
    iso.extend_from_slice(&2u32.to_le_bytes());
    iso.extend_from_slice(&5u16.to_le_bytes());
    let entries = vec![lapic, ioapic_entry(4, 0xFEC0_0000, 0), iso, vec![4u8, 6, 0, 0, 0, 0], vec![7u8, 2]];
    let t = table(b"APIC", &madt_body(&entries));
    let m = MADT::from_table(&t);
    assert_eq!(m.local_apic_address(), 0xFEE0_0000);
    let kinds: Vec<_> = m.entry_list().iter().map(|e| e.get_type()).collect();
    match kinds[0] {
        Some(MADTEntryTypes::ProcessorLocalAPIC(p)) => {
            assert_eq!((p.processor_id, p.apic_id, p.flags), (3, 7, 1));
        }
        _ => panic!("expected a local controller"),
    }
    match kinds[1] {
        Some(MADTEntryTypes::IOAPIC(a)) => {
            assert_eq!((a.ioapic_id, a.ioapic_address, a.global_system_interrupt_base), (4, 0xFEC0_0000, 0));
        }
        _ => panic!("expected an I/O controller"),
    }
    match kinds[2] {
        Some(MADTEntryTypes::InterruptSourceOverride(o)) => {
            assert_eq!((o.bus, o.source, o.global_system_interrupt, o.flags), (0, 0, 2, 5));
        }
        _ => panic!("expected an override"),
    }
    assert!(matches!(kinds[3], Some(MADTEntryTypes::LocalAPICNMI)));
    assert!(kinds[4].is_none());
}

#[test]
fn lookup_by_signature_finds_first_match_or_none() {
    let mut mem = PhysMemory::new();
    let madt = table(b"APIC", &madt_body(&[ioapic_entry(0, 0xFEC0_0000, 0)]));
    let other = table(b"FACP", &[0; 4]);
    let mut body = Vec::new();
    body.extend_from_slice(&0x2000u32.to_le_bytes());
    body.extend_from_slice(&0x3000u32.to_le_bytes());
    let root = table(b"RSDT", &body);
    mem.add_region(0x1000, root);
    mem.add_region(0x2000, other);
    mem.add_region(0x3000, madt);
    let rsdt = RSDT::from_addr(&mem, 0x1000).unwrap();
    assert_eq!(rsdt.entries, vec![0x2000, 0x3000]);
    let mut it = rsdt.entries();
    assert_eq!(it.next(), Some(0x2000));
    assert_eq!(it.next(), Some(0x3000));
    assert_eq!(it.next(), None);
    assert_eq!(rsdt.get_common(&mem, b"APIC"), Some(0x3000));
    assert_eq!(rsdt.get_common(&mem, b"HPET"), None);
    assert!(rsdt.get_madt(&mem).is_some());
    assert!(rsdt.get_hpet(&mem).is_none());
}

#[test]
fn end_to_end_boot_programs_one_entry_and_starts_counter() {
    let mut mem = PhysMemory::new();
    let madt = table(b"APIC", &madt_body(&[ioapic_entry(0, 0xFEC0_0000, 0)]));
    let hpet = table(b"HPET", &hpet_body(0xFED0_0000));
    let mut body = Vec::new();
    body.extend_from_slice(&0x3000u32.to_le_bytes());
    body.extend_from_slice(&0x4000u32.to_le_bytes());
    mem.add_region(0xE0000, rsdp(0x1000));
    mem.add_region(0x1000, table(b"RSDT", &body));
    mem.add_region(0x3000, madt);
    mem.add_region(0x4000, hpet);

    let root = RSDPDescriptor::from_addr(&mem, 0xE0000).unwrap();
    assert!(root.checksum());
    let rsdt = RSDT::from_addr(&mem, root.rsdt_address()).unwrap();
    let madt = rsdt.get_madt(&mem).unwrap();
    let ioapic = madt
        .entry_list()
        .iter()
        .find_map(|e| match e.get_type() {
            Some(MADTEntryTypes::IOAPIC(a)) => Some(a),
            _ => None,
        })
        .unwrap();
    let hpet = rsdt.get_hpet(&mem).unwrap();
    assert_eq!(hpet.address.address, 0xFED0_0000);

    // one timer, 100 ns period, routable to lines 2..=3 and 20
    let caps: u64 = (100_000_000u64 << 32) | 1;
    let route: u64 = (1 << 2) | (1 << 3) | (1 << 20);
    let mut regs = HpetRegisters {
        capabilities: caps,
        configuration: 0,
        interrupt_status: 0,
        main_counter: 0,
        timer_config: vec![(route << 32) | 0x30],
        timer_comparator: vec![0],
        writes: Vec::new(),
    };
    let mut win = IoApicWindow::new();
    let mut sources = InterruptSources::new();
    assert_eq!(HPET::init(&hpet, &mut regs, &ioapic, &mut win, &mut sources), Ok(vec![Some(3)]));

    // exactly one redirection entry programmed: line 3, vector 0x40
    assert_eq!(win.writes, vec![(0x10 + 2 * 3, 0x40), (0x11 + 2 * 3, 0)]);
    assert_eq!(ioapic.read_table_entry(&win, 3), 0x40);
    assert!(!sources.get_irq(3));
    // the counter runs and the timer is routed to line 3 and disabled
    assert_eq!(regs.configuration & 1, 1);
    assert_eq!((regs.timer_config[0] >> 9) & 0x1f, 3);
    assert_eq!(regs.timer_config[0] & 4, 0);
}
