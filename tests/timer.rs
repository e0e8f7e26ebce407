use blaze::hpet::{duration_to_ticks, int_valid, HpetRegisters, TimerError, HPET};
use blaze::ioapic::{InterruptSources, IoApicWindow, IOAPIC};
use blaze::phys::PhysMemory;

fn regs(period_fs: u64, timers: usize, confs: Vec<u64>) -> HpetRegisters {
    HpetRegisters {
        capabilities: (period_fs << 32) | (((timers - 1) as u64) << 8),
        configuration: 0,
        interrupt_status: 0,
        main_counter: 1_000,
        timer_config: confs,
        timer_comparator: vec![0; timers],
        writes: Vec::new(),
    }
}

fn hpet() -> HPET {
    let mut t = Vec::new();
    t.extend_from_slice(b"HPET");
    t.extend_from_slice(&56u32.to_le_bytes());
    t.extend_from_slice(&[0u8; 28]);
    t.extend_from_slice(&[1, 0, 0, 0, 0, 64, 0, 0]);
    t.extend_from_slice(&0xFED0_0000u64.to_le_bytes());
    t.extend_from_slice(&[0, 0x80, 0, 0]);
    let sum: u8 = t.iter().fold(0u8, |a, b| a.wrapping_add(*b));
    t[9] = 0u8.wrapping_sub(sum);
    let mut mem = PhysMemory::new();
    mem.add_region(0x5000, t);
    HPET::new(&mem, 0x5000).unwrap()
}

#[test]
fn tick_math_for_one_millisecond() {
    // 100 ns period: 10^7 ticks per second
    assert_eq!(duration_to_ticks(1_000, 100_000_000, 1_000_000), 10_000);
    // 10 ns period: 10^8 ticks per second
    assert_eq!(duration_to_ticks(1_000, 10_000_000, 1_000_000), 100_000);
    assert_eq!(duration_to_ticks(5, 100_000_000, 1_000), 50_000);
}

#[test]
fn one_shot_disables_sets_comparator_and_enables() {
    let h = hpet();
    assert_eq!(h.address.address, 0xFED0_0000);
    let mut r = regs(100_000_000, 3, vec![0x4, 0x10, 0]);
    h.one_shot(&mut r, 1_000);
    assert_eq!(r.writes, vec![(0x100, 0x0), (0x108, 11_000), (0x100, 0x4)]);
    assert_eq!(r.timer_comparator[0], 11_000);
}

#[test]
fn periodic_timer_writes_comparator_twice() {
    let h = hpet();
    let mut r = regs(100_000_000, 3, vec![0, 0x10, 0]);
    assert_eq!(h.sleep_timer_init(&mut r, 2), Ok(()));
    assert_eq!(r.writes, vec![(0x120, 0x5c), (0x128, 21_000), (0x128, 20_000)]);
    assert_eq!(r.timer_config[1], 0x5c);
}

#[test]
fn periodic_timer_degrades_without_hardware() {
    let h = hpet();
    let mut one = regs(100_000_000, 1, vec![0x10]);
    assert_eq!(h.sleep_timer_init(&mut one, 1), Err(TimerError::NoSecondTimer));
    assert!(one.writes.is_empty());
    let mut no_periodic = regs(100_000_000, 2, vec![0, 0]);
    assert_eq!(h.sleep_timer_init(&mut no_periodic, 1), Err(TimerError::NoPeriodicMode));
    assert!(no_periodic.writes.is_empty());
}

#[test]
fn disable_clears_only_the_enable_bit() {
    let h = hpet();
    let mut r = regs(100_000_000, 2, vec![0, 0xFF]);
    h.disable_n_timer(&mut r, 1);
    assert_eq!(r.timer_config[1], 0xFB);
}

#[test]
fn route_capability_bits() {
    let conf: u64 = ((1 << 20) | (1 << 3)) << 32;
    assert!(int_valid(conf, 20));
    assert!(int_valid(conf, 3));
    assert!(!int_valid(conf, 4));
}

#[test]
fn assign_routes_to_lowest_free_line() {
    let h = hpet();
    let mut r = regs(100_000_000, 1, vec![((1u64 << 2) | (1 << 5) | (1 << 6)) << 32]);
    let mut s = InterruptSources::new();
    s.set_irq(5);
    assert_eq!(h.assign_timer_irq(&mut r, &mut s, 0), Some(6));
    assert_eq!((r.timer_config[0] >> 9) & 0x1f, 6);
    assert!(!s.get_irq(6));
}

#[test]
fn init_fails_without_a_free_line() {
    let h = hpet();
    let io = IOAPIC::new(&[0, 0, 0, 0, 0xC0, 0xFE, 0, 0, 0, 0]);
    let mut r = regs(100_000_000, 1, vec![(1u64 << 2) << 32]);
    let mut win = IoApicWindow::new();
    let mut s = InterruptSources::new();
    assert_eq!(h.init(&mut r, &io, &mut win, &mut s), Err(TimerError::NoFreeInterruptLine));
    assert!(r.writes.is_empty());
    assert!(win.writes.is_empty());
    assert_eq!(r.configuration, 0);
    assert_eq!(s.0, 0x107);
}

#[test]
fn init_skips_a_later_timer_without_a_line() {
    let h = hpet();
    let io = IOAPIC::new(&[0, 0, 0, 0, 0xC0, 0xFE, 0, 0, 0, 0]);
    let mut r = regs(100_000_000, 2, vec![((1u64 << 3) << 32) | 4, ((1u64 << 3) << 32) | 4]);
    let mut win = IoApicWindow::new();
    let mut s = InterruptSources::new();
    assert_eq!(h.init(&mut r, &io, &mut win, &mut s), Ok(vec![Some(3), None]));
    assert_eq!(win.writes, vec![(0x16, 0x40), (0x17, 0)]);
    assert_eq!(r.timer_config[1], (1u64 << 3) << 32);
    assert_eq!(r.configuration, 1);
    assert_eq!(r.writes.last(), Some(&(0x10, 1)));
}

#[test]
fn init_routes_each_timer_to_its_own_line() {
    let h = hpet();
    let io = IOAPIC::new(&[0, 0, 0, 0, 0xC0, 0xFE, 0, 0, 0, 0]);
    let route: u64 = (1 << 3) | (1 << 4) | (1 << 5);
    let mut r = regs(100_000_000, 3, vec![(route << 32) | 4; 3]);
    let mut win = IoApicWindow::new();
    let mut s = InterruptSources::new();
    assert_eq!(h.init(&mut r, &io, &mut win, &mut s), Ok(vec![Some(3), Some(4), Some(5)]));
    for (i, line) in [3u64, 4, 5].iter().enumerate() {
        assert_eq!((r.timer_config[i] >> 9) & 0x1f, *line);
        assert_eq!(r.timer_config[i] & 4, 0);
        assert_eq!(io.read_table_entry(&win, *line as u8), 0x40 + i as u64);
    }
    assert_eq!(r.configuration, 1);
    assert_eq!(r.writes.last(), Some(&(0x10, 1)));
}

#[test]
fn sleep_countdown_stops_at_zero() {
    assert_eq!(blaze::hpet::sleep_tick(3), 2);
    assert_eq!(blaze::hpet::sleep_tick(1), 0);
    assert_eq!(blaze::hpet::sleep_tick(0), 0);
}
