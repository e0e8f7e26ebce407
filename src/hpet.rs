//! The high-precision event timer: its description table and its comparator driver.
//!
//! Timer 0 is used in one-shot mode and timer 1 in periodic mode for sleeping.
//! The driver works on `HpetRegisters`, a copy of the register block that also
//! records every register write in order; the platform layer loads the copy from
//! the hardware and replays the recorded writes onto it.
use crate::bytes::{le16, le64, read_u16, read_u64};
use crate::ioapic::{
    allocate_bits, allocate_spec, claimed, InterruptSources, IoApicWindow, IOAPIC,
};
use crate::phys::PhysMemory;
use crate::rsdt::{header_of, read_table, table_at, ACPISDTHeader};
use vstd::prelude::*;

verus! {

/// Size in bytes of the timer description table.
pub const HPET_TABLE_SIZE: usize = 56;

/// Femtoseconds per second.
pub const FEMTOS_PER_SECOND: u64 = 1_000_000_000_000_000;

/// First interrupt vector handed to the timers; timer `n` raises `TIMER_VECTOR_BASE + n`.
pub const TIMER_VECTOR_BASE: u8 = 0x40;

/// Where the register block lives.
#[derive(Debug, Clone, Copy)]
pub struct AddressStructure {
    pub address_space_id: u8,
    pub register_bit_width: u8,
    pub register_bit_offset: u8,
    pub reserved: u8,
    pub address: u64,
}

/// The timer description table.
#[derive(Debug, Clone, Copy)]
pub struct HPET {
    pub header: ACPISDTHeader,
    pub hardware_rev_id: u8,
    pub flags: u8,
    pub pci_vendor_id: u16,
    pub address: AddressStructure,
    pub hpet_number: u8,
    pub minimum_tick: u16,
    pub page_protection: u8,
}

/// `h` holds the fields of the timer table `t`.
pub open spec fn hpet_of(h: HPET, t: Seq<u8>) -> bool {
    &&& header_of(h.header, t)
    &&& h.hardware_rev_id == t[36]
    &&& h.flags == t[37]
    &&& h.pci_vendor_id == le16(t, 38)
    &&& h.address.address_space_id == t[40]
    &&& h.address.register_bit_width == t[41]
    &&& h.address.register_bit_offset == t[42]
    &&& h.address.reserved == t[43]
    &&& h.address.address == le64(t, 44)
    &&& h.hpet_number == t[52]
    &&& h.minimum_tick == le16(t, 53)
    &&& h.page_protection == t[55]
}

/// The general registers of the block.
pub enum Registers64 {
    GeneralCapibilities,
    GeneralConfiguration,
    GeneralInterruptStatus,
    MainCounterValue,
}

/// Byte offset of a general register.
pub open spec fn register_offset(r: Registers64) -> u64 {
    match r {
        Registers64::GeneralCapibilities => 0x00,
        Registers64::GeneralConfiguration => 0x10,
        Registers64::GeneralInterruptStatus => 0x20,
        Registers64::MainCounterValue => 0xF0,
    }
}

/// Byte offset of the configuration register of timer `n`.
pub open spec fn config_offset(n: int) -> u64 {
    (0x100 + 0x20 * n) as u64
}

/// Byte offset of the comparator register of timer `n`.
pub open spec fn comparator_offset(n: int) -> u64 {
    (0x108 + 0x20 * n) as u64
}

/// Number of timers, from the capabilities register (bits 12..8 hold it minus one).
pub open spec fn timer_count(caps: u64) -> int {
    ((caps / 0x100) % 0x20) as int + 1
}

/// Main counter period in femtoseconds (bits 63..32 of the capabilities register).
pub open spec fn clock_period(caps: u64) -> int {
    (caps / 0x1_0000_0000) as int
}

/// The interrupt lines a timer can be routed to (bits 63..32 of its configuration).
pub open spec fn route_capabilities(conf: u64) -> u64 {
    conf >> 32u64
}

/// The timer supports periodic mode (bit 4 of its configuration).
pub open spec fn periodic_capable(conf: u64) -> bool {
    (conf / 0x10) % 2 == 1
}

/// The configuration with its interrupt enable bit (bit 2) set.
pub open spec fn enabled(conf: u64) -> u64 {
    conf | 4u64
}

/// The configuration with its interrupt enable bit (bit 2) cleared.
pub open spec fn disabled(conf: u64) -> u64 {
    conf & !4u64
}

/// The configuration routed to line `irq` (bits 13..9).
pub open spec fn routed(conf: u64, irq: u64) -> u64 {
    (conf & !0x3e00u64) | ((irq & 0x1fu64) << 9u64)
}

/// The configuration set for periodic firing: enabled (bit 2), periodic (bit 3),
/// and accumulator write enabled (bit 6).
pub open spec fn periodic_setup(conf: u64) -> u64 {
    conf | 0x4cu64
}

/// Ticks of a counter with period `period` femtoseconds in `duration` units of
/// which `units_per_second` make a second.
pub open spec fn ticks_for(duration: int, period: int, units_per_second: int) -> int {
    duration * (FEMTOS_PER_SECOND as int / period) / units_per_second
}

/// The register block of the timer, with every write made to it in order as
/// (byte offset, value) pairs.
pub struct HpetRegisters {
    pub capabilities: u64,
    pub configuration: u64,
    pub interrupt_status: u64,
    pub main_counter: u64,
    pub timer_config: Vec<u64>,
    pub timer_comparator: Vec<u64>,
    pub writes: Vec<(u64, u64)>,
}

impl HpetRegisters {
    /// One configuration and one comparator register per timer.
    pub open spec fn wf(&self) -> bool {
        &&& self.timer_config@.len() == timer_count(self.capabilities)
        &&& self.timer_comparator@.len() == timer_count(self.capabilities)
    }
}

/// Ticks for `duration` units of which `units_per_second` make a second, on a
/// counter whose period is `period` femtoseconds.
pub fn duration_to_ticks(duration: u64, period: u64, units_per_second: u64) -> (r: u64)
    requires
        period > 0,
        units_per_second > 0,
        duration * (FEMTOS_PER_SECOND / period) <= u64::MAX,
    ensures
        r == ticks_for(duration as int, period as int, units_per_second as int),
{
    let frequency = FEMTOS_PER_SECOND / period;
    duration * frequency / units_per_second
}

/// Whether a timer with configuration `conf` can be routed to line `line`.
pub fn int_valid(conf: u64, line: u64) -> (r: bool)
    requires
        line < 32,
    ensures
        r == claimed(route_capabilities(conf), line),
{
    let caps = conf >> 32u64;
    (caps >> line) & 1 == 1
}

impl HPET {
    /// Reads the timer table at physical address `addr`; `None` unless it is valid
    /// and long enough for its fields.
    pub fn new(mem: &PhysMemory, addr: u32) -> (r: Option<Self>)
        ensures
            r is Some <==> (table_at(*mem, addr as int) is Some
                && table_at(*mem, addr as int)->0.len() >= HPET_TABLE_SIZE),
            r is Some ==> hpet_of(r->0, table_at(*mem, addr as int)->0),
    {
        let t = match read_table(mem, addr as u64) {
            Some(t) => t,
            None => return None,
        };
        if t.len() < HPET_TABLE_SIZE {
            return None;
        }
        let t = t.as_slice();
        Some(HPET {
            header: ACPISDTHeader::parse(t),
            hardware_rev_id: t[36],
            flags: t[37],
            pci_vendor_id: read_u16(t, 38),
            address: AddressStructure {
                address_space_id: t[40],
                register_bit_width: t[41],
                register_bit_offset: t[42],
                reserved: t[43],
                address: read_u64(t, 44),
            },
            hpet_number: t[52],
            minimum_tick: read_u16(t, 53),
            page_protection: t[55],
        })
    }

    /// Reads a general register.
    pub fn read_register64(&self, regs: &HpetRegisters, register: Registers64) -> (r: u64)
        ensures
            r == match register {
                Registers64::GeneralCapibilities => regs.capabilities,
                Registers64::GeneralConfiguration => regs.configuration,
                Registers64::GeneralInterruptStatus => regs.interrupt_status,
                Registers64::MainCounterValue => regs.main_counter,
            },
    {
        match register {
            Registers64::GeneralCapibilities => regs.capabilities,
            Registers64::GeneralConfiguration => regs.configuration,
            Registers64::GeneralInterruptStatus => regs.interrupt_status,
            Registers64::MainCounterValue => regs.main_counter,
        }
    }

    /// Writes the general configuration register.
    pub fn write_configuration(&self, regs: &mut HpetRegisters, value: u64)
        requires
            old(regs).wf(),
        ensures
            final(regs).wf(),
            final(regs).capabilities == old(regs).capabilities,
            final(regs).configuration == value,
            final(regs).interrupt_status == old(regs).interrupt_status,
            final(regs).main_counter == old(regs).main_counter,
            final(regs).timer_config@ == old(regs).timer_config@,
            final(regs).timer_comparator@ == old(regs).timer_comparator@,
            final(regs).writes@ == old(regs).writes@.push((0x10u64, value)),
    {
        regs.configuration = value;
        regs.writes.push((0x10, value));
    }

    /// Reads the configuration register of timer `n`.
    pub fn read_n_config(&self, regs: &HpetRegisters, n: u8) -> (r: u64)
        requires
            regs.wf(),
            n < timer_count(regs.capabilities),
        ensures
            r == regs.timer_config@[n as int],
    {
        regs.timer_config[n as usize]
    }

    /// Writes the configuration register of timer `n`.
    pub fn write_n_config(&self, regs: &mut HpetRegisters, n: u8, value: u64)
        requires
            old(regs).wf(),
            n < timer_count(old(regs).capabilities),
        ensures
            final(regs).wf(),
            final(regs).capabilities == old(regs).capabilities,
            final(regs).configuration == old(regs).configuration,
            final(regs).interrupt_status == old(regs).interrupt_status,
            final(regs).main_counter == old(regs).main_counter,
            final(regs).timer_config@ == old(regs).timer_config@.update(n as int, value),
            final(regs).timer_comparator@ == old(regs).timer_comparator@,
            final(regs).writes@ == old(regs).writes@.push((config_offset(n as int), value)),
    {
        regs.timer_config.set(n as usize, value);
        regs.writes.push((0x100 + (n as u64) * 0x20, value));
    }

    /// Writes the comparator register of timer `n`.
    pub fn write_n_comparator(&self, regs: &mut HpetRegisters, n: u8, value: u64)
        requires
            old(regs).wf(),
            n < timer_count(old(regs).capabilities),
        ensures
            final(regs).wf(),
            final(regs).capabilities == old(regs).capabilities,
            final(regs).configuration == old(regs).configuration,
            final(regs).interrupt_status == old(regs).interrupt_status,
            final(regs).main_counter == old(regs).main_counter,
            final(regs).timer_config@ == old(regs).timer_config@,
            final(regs).timer_comparator@ == old(regs).timer_comparator@.update(n as int, value),
            final(regs).writes@ == old(regs).writes@.push((comparator_offset(n as int), value)),
    {
        regs.timer_comparator.set(n as usize, value);
        regs.writes.push((0x108 + (n as u64) * 0x20, value));
    }

    /// Stops timer `n` from raising interrupts.
    pub fn disable_n_timer(&self, regs: &mut HpetRegisters, timer: u8)
        requires
            old(regs).wf(),
            timer < timer_count(old(regs).capabilities),
        ensures
            final(regs).wf(),
            final(regs).capabilities == old(regs).capabilities,
            final(regs).configuration == old(regs).configuration,
            final(regs).main_counter == old(regs).main_counter,
            final(regs).timer_config@ == old(regs).timer_config@.update(
                timer as int,
                disabled(old(regs).timer_config@[timer as int]),
            ),
            final(regs).timer_comparator@ == old(regs).timer_comparator@,
            final(regs).writes@ == old(regs).writes@.push(
                (config_offset(timer as int), disabled(old(regs).timer_config@[timer as int])),
            ),
    {
        let tim = self.read_n_config(regs, timer);
        self.write_n_config(regs, timer, tim & !4u64);
    }

    /// Lets timer `n` raise interrupts.
    fn enable_n_timer(&self, regs: &mut HpetRegisters, timer: u8)
        requires
            old(regs).wf(),
            timer < timer_count(old(regs).capabilities),
        ensures
            final(regs).wf(),
            final(regs).capabilities == old(regs).capabilities,
            final(regs).configuration == old(regs).configuration,
            final(regs).main_counter == old(regs).main_counter,
            final(regs).timer_config@ == old(regs).timer_config@.update(
                timer as int,
                enabled(old(regs).timer_config@[timer as int]),
            ),
            final(regs).timer_comparator@ == old(regs).timer_comparator@,
            final(regs).writes@ == old(regs).writes@.push(
                (config_offset(timer as int), enabled(old(regs).timer_config@[timer as int])),
            ),
    {
        let tim = self.read_n_config(regs, timer);
        self.write_n_config(regs, timer, tim | 4u64);
    }
}


/// Why a timer could not be set up.
#[derive(Debug, Clone, Copy, PartialEq, Eq)]
pub enum TimerError {
    /// Timer 1 does not exist.
    NoSecondTimer,
    /// Timer 1 cannot fire periodically.
    NoPeriodicMode,
    /// No line that the timer can be routed to is free.
    NoFreeInterruptLine,
}

/// The lines that `init` routes timers `0..i` to, one after the other (`None` for a
/// timer that found no free line and is left unrouted), with the bitmap after those
/// claims.
pub open spec fn lines_upto(bits: u64, confs: Seq<u64>, i: int) -> (Seq<Option<u8>>, u64)
    decreases i,
{
    if i <= 0 {
        (Seq::empty(), bits)
    } else {
        let (ls, b) = lines_upto(bits, confs, i - 1);
        let caps = route_capabilities(confs[i - 1]);
        (ls.push(allocate_spec(b, caps)), allocate_bits(b, caps))
    }
}

/// The final configuration of a timer: routed to its line if it got one, and disabled.
pub open spec fn final_config(conf: u64, line: Option<u8>) -> u64 {
    match line {
        Some(l) => disabled(routed(conf, l as u64)),
        None => disabled(conf),
    }
}

/// The timer register writes `init` makes for timers `0..i`: a timer that got a line
/// is routed to it, then disabled; one that did not is only disabled.
pub open spec fn setup_writes(confs: Seq<u64>, ls: Seq<Option<u8>>, i: int) -> Seq<(u64, u64)>
    decreases i,
{
    if i <= 0 {
        Seq::empty()
    } else {
        let prev = setup_writes(confs, ls, i - 1);
        match ls[i - 1] {
            Some(l) => {
                let c = routed(confs[i - 1], l as u64);
                prev.push((config_offset(i - 1), c)).push((config_offset(i - 1), disabled(c)))
            },
            None => prev.push((config_offset(i - 1), disabled(confs[i - 1]))),
        }
    }
}

/// The controller writes `init` makes for timers `0..i`: the line `l` of timer `n` is
/// sent to vector `TIMER_VECTOR_BASE + n`, low half then high half.
pub open spec fn routing_writes(ls: Seq<Option<u8>>, i: int) -> Seq<(u8, u32)>
    decreases i,
{
    if i <= 0 {
        Seq::empty()
    } else {
        let prev = routing_writes(ls, i - 1);
        match ls[i - 1] {
            Some(l) => prev.push(((l * 2 + 0x10) as u8, (TIMER_VECTOR_BASE + i - 1) as u32)).push(
                ((l * 2 + 0x11) as u8, 0u32),
            ),
            None => prev,
        }
    }
}

/// The sleep countdown after one period of the sleep timer: one less, stopping at zero.
pub fn sleep_tick(ticks: u64) -> (r: u64)
    ensures
        r == if ticks == 0 {
            0
        } else {
            ticks - 1
        },
{
    if ticks == 0 {
        0
    } else {
        ticks - 1
    }
}

/// Number of timers minus one (bits 12..8 of the capabilities register).
pub fn num_tim_cap(caps: u64) -> (r: u64)
    ensures
        r + 1 == timer_count(caps),
        r < 32,
{
    let r = (caps >> 8u64) & 0x1f;
    assert(r == (caps / 0x100) % 0x20 && r < 32) by (bit_vector)
        requires
            r == (caps >> 8u64) & 0x1f,
    ;
    r
}

/// Main counter period in femtoseconds (bits 63..32 of the capabilities register).
pub fn counter_clk_period(caps: u64) -> (r: u64)
    ensures
        r == clock_period(caps),
{
    let r = caps >> 32u64;
    assert(r == caps / 0x1_0000_0000) by (bit_vector)
        requires
            r == caps >> 32u64,
    ;
    r
}

impl HPET {
    /// Arms timer 0 to fire once, `time_in_us` microseconds from the current count.
    pub fn one_shot(&self, regs: &mut HpetRegisters, time_in_us: u64)
        requires
            old(regs).wf(),
            clock_period(old(regs).capabilities) > 0,
            time_in_us * (FEMTOS_PER_SECOND / clock_period(old(regs).capabilities) as u64) <= u64::MAX,
        ensures
            final(regs).wf(),
            ({
                let c0 = old(regs).timer_config@[0];
                let ticks = ticks_for(time_in_us as int, clock_period(old(regs).capabilities), 1_000_000);
                let cmp = ((old(regs).main_counter + ticks) % 0x1_0000_0000_0000_0000) as u64;
                &&& final(regs).capabilities == old(regs).capabilities
                &&& final(regs).configuration == old(regs).configuration
                &&& final(regs).main_counter == old(regs).main_counter
                &&& final(regs).timer_config@ == old(regs).timer_config@.update(0, enabled(disabled(c0)))
                &&& final(regs).timer_comparator@ == old(regs).timer_comparator@.update(0, cmp)
                &&& final(regs).writes@ == old(regs).writes@.push((0x100u64, disabled(c0))).push(
                    (0x108u64, cmp),
                ).push((0x100u64, enabled(disabled(c0))))
            }),
    {
        let period = counter_clk_period(self.read_register64(regs, Registers64::GeneralCapibilities));
        let current_counter = self.read_register64(regs, Registers64::MainCounterValue);
        let time_in_ticks = duration_to_ticks(time_in_us, period, 1_000_000);
        self.disable_n_timer(regs, 0);
        self.write_n_comparator(regs, 0, current_counter.wrapping_add(time_in_ticks));
        self.enable_n_timer(regs, 0);
    }

    /// Sets timer 1 up to fire every `time_in_ms` milliseconds. Without a second
    /// timer, or when it cannot fire periodically, nothing is written.
    pub fn sleep_timer_init(&self, regs: &mut HpetRegisters, time_in_ms: u64) -> (r: Result<(), TimerError>)
        requires
            old(regs).wf(),
            clock_period(old(regs).capabilities) > 0,
            time_in_ms * (FEMTOS_PER_SECOND / clock_period(old(regs).capabilities) as u64) <= u64::MAX,
        ensures
            final(regs).wf(),
            timer_count(old(regs).capabilities) < 2 ==> r == Err::<(), TimerError>(TimerError::NoSecondTimer)
                && *final(regs) == *old(regs),
            timer_count(old(regs).capabilities) >= 2 && !periodic_capable(old(regs).timer_config@[1])
                ==> r == Err::<(), TimerError>(TimerError::NoPeriodicMode) && *final(regs) == *old(regs),
            timer_count(old(regs).capabilities) >= 2 && periodic_capable(old(regs).timer_config@[1]) ==> ({
                let c1 = periodic_setup(old(regs).timer_config@[1]);
                let ticks = ticks_for(time_in_ms as int, clock_period(old(regs).capabilities), 1000);
                let first = ((old(regs).main_counter + ticks) % 0x1_0000_0000_0000_0000) as u64;
                &&& r is Ok
                &&& final(regs).capabilities == old(regs).capabilities
                &&& final(regs).configuration == old(regs).configuration
                &&& final(regs).main_counter == old(regs).main_counter
                &&& final(regs).timer_config@ == old(regs).timer_config@.update(1, c1)
                &&& final(regs).timer_comparator@ == old(regs).timer_comparator@.update(1, ticks as u64)
                &&& final(regs).writes@ == old(regs).writes@.push((0x120u64, c1)).push((0x128u64, first)).push(
                    (0x128u64, ticks as u64),
                )
            }),
    {
        let caps = self.read_register64(regs, Registers64::GeneralCapibilities);
        if num_tim_cap(caps) < 1 {
            return Err(TimerError::NoSecondTimer);
        }
        let conf = self.read_n_config(regs, 1);
        let per_int_cap = (conf >> 4u64) & 1 == 1;
        assert(per_int_cap == periodic_capable(conf)) by (bit_vector)
            requires
                per_int_cap == ((conf >> 4u64) & 1 == 1),
        ;
        if !per_int_cap {
            return Err(TimerError::NoPeriodicMode);
        }
        self.write_n_config(regs, 1, conf | 0x4c);
        let period = counter_clk_period(caps);
        let current_counter = self.read_register64(regs, Registers64::MainCounterValue);
        let time_in_ticks = duration_to_ticks(time_in_ms, period, 1000);
        self.write_n_comparator(regs, 1, current_counter.wrapping_add(time_in_ticks));
        self.write_n_comparator(regs, 1, time_in_ticks);
        Ok(())
    }

    /// Claims the lowest free line that timer `timer` can raise and routes the timer
    /// to it; `None`, with nothing changed, when there is none.
    pub fn assign_timer_irq(
        &self,
        regs: &mut HpetRegisters,
        sources: &mut InterruptSources,
        timer: u8,
    ) -> (r: Option<u8>)
        requires
            old(regs).wf(),
            timer < timer_count(old(regs).capabilities),
        ensures
            final(regs).wf(),
            r == allocate_spec(old(sources).0, route_capabilities(old(regs).timer_config@[timer as int])),
            final(sources).0 == allocate_bits(
                old(sources).0,
                route_capabilities(old(regs).timer_config@[timer as int]),
            ),
            r is None ==> *final(regs) == *old(regs),
            r matches Some(l) ==> {
                let c = routed(old(regs).timer_config@[timer as int], l as u64);
                &&& l < 64
                &&& final(regs).capabilities == old(regs).capabilities
                &&& final(regs).configuration == old(regs).configuration
                &&& final(regs).main_counter == old(regs).main_counter
                &&& final(regs).timer_config@ == old(regs).timer_config@.update(timer as int, c)
                &&& final(regs).timer_comparator@ == old(regs).timer_comparator@
                &&& final(regs).writes@ == old(regs).writes@.push((config_offset(timer as int), c))
            },
    {
        let conf = self.read_n_config(regs, timer);
        let line = match sources.allocate(conf >> 32u64) {
            Some(l) => l,
            None => return None,
        };
        proof {
            crate::ioapic::lemma_allocate_result(old(sources).0, conf >> 32u64);
        }
        let conf = self.read_n_config(regs, timer);
        self.write_n_config(regs, timer, (conf & !0x3e00u64) | (((line as u64) & 0x1f) << 9u64));
        Some(line)
    }

    /// Routes every timer to a free line, sends that line to the timer's vector,
    /// leaves every timer disabled, and starts the main counter. Timer 0 must get a
    /// line: without one nothing is written and the call fails. A later timer without
    /// a free line is left unrouted (its entry in the result is `None`).
    pub fn init(
        &self,
        regs: &mut HpetRegisters,
        ioapic: &IOAPIC,
        win: &mut IoApicWindow,
        sources: &mut InterruptSources,
    ) -> (r: Result<Vec<Option<u8>>, TimerError>)
        requires
            old(regs).wf(),
            old(win).wf(),
        ensures
            final(regs).wf(),
            final(win).wf(),
            ({
                let n = timer_count(old(regs).capabilities);
                let confs = old(regs).timer_config@;
                let (ls, bits) = lines_upto(old(sources).0, confs, n);
                if ls[0] is None {
                    &&& r == Err::<Vec<Option<u8>>, TimerError>(TimerError::NoFreeInterruptLine)
                    &&& *final(regs) == *old(regs)
                    &&& *final(win) == *old(win)
                    &&& final(sources).0 == old(sources).0
                } else {
                    &&& r is Ok
                    &&& r->Ok_0@ == ls
                    &&& final(sources).0 == bits
                    &&& final(regs).capabilities == old(regs).capabilities
                    &&& final(regs).configuration == old(regs).configuration | 1
                    &&& final(regs).main_counter == old(regs).main_counter
                    &&& final(regs).timer_comparator@ == old(regs).timer_comparator@
                    &&& final(regs).timer_config@ == Seq::new(
                        n as nat,
                        |i: int| final_config(confs[i], ls[i]),
                    )
                    &&& final(regs).writes@ == old(regs).writes@ + setup_writes(confs, ls, n).push(
                        (0x10u64, old(regs).configuration | 1),
                    )
                    &&& final(win).writes@ == old(win).writes@ + routing_writes(ls, n)
                }
            }),
    {
        let caps = self.read_register64(regs, Registers64::GeneralCapibilities);
        let general_config = self.read_register64(regs, Registers64::GeneralConfiguration);
        let count = num_tim_cap(caps) + 1;
        let ghost confs = regs.timer_config@;
        let ghost bits0 = sources.0;
        let mut lines: Vec<Option<u8>> = Vec::new();
        let mut i: u64 = 0;
        while i < count
            invariant
                regs.wf(),
                win.wf(),
                regs.capabilities == old(regs).capabilities,
                regs.configuration == old(regs).configuration,
                regs.main_counter == old(regs).main_counter,
                caps == regs.capabilities,
                general_config == regs.configuration,
                count == timer_count(caps),
                confs == old(regs).timer_config@,
                bits0 == old(sources).0,
                i <= count,
                lines@.len() == i,
                lines_upto(bits0, confs, i as int) == (lines@, sources.0),
                i > 0 ==> lines@[0] is Some,
                i == 0 ==> *regs == *old(regs) && *win == *old(win) && sources.0 == old(sources).0,
                regs.timer_comparator@ == old(regs).timer_comparator@,
                regs.timer_config@.len() == confs.len(),
                forall|j: int| 0 <= j < i ==> regs.timer_config@[j] == final_config(confs[j], lines@[j]),
                forall|j: int| i <= j < confs.len() ==> regs.timer_config@[j] == confs[j],
                regs.writes@ == old(regs).writes@ + setup_writes(confs, lines@, i as int),
                win.writes@ == old(win).writes@ + routing_writes(lines@, i as int),
            decreases count - i,
        {
            let ghost b = sources.0;
            let ghost ls0 = lines@;
            let line = self.assign_timer_irq(regs, sources, i as u8);
            match line {
                Some(irq) => {
                    proof {
                        crate::ioapic::lemma_allocate_result(b, route_capabilities(confs[i as int]));
                        crate::ioapic::lemma_set_twice(b, irq as u64);
                    }
                    ioapic.standard_table_entry(win, sources, irq, TIMER_VECTOR_BASE + i as u8);
                },
                None => {
                    if i == 0 {
                        proof {
                            assert(lines_upto(bits0, confs, count as int).0[0] == lines_upto(bits0, confs, 1).0[0]) by {
                                lemma_lines_upto_prefix(bits0, confs, 1, count as int);
                            }
                        }
                        return Err(TimerError::NoFreeInterruptLine);
                    }
                },
            }
            self.disable_n_timer(regs, i as u8);
            lines.push(line);
            proof {
                lemma_setup_writes_prefix(confs, ls0, lines@, i as int);
                lemma_routing_writes_prefix(ls0, lines@, i as int);
                assert(regs.writes@ =~= old(regs).writes@ + setup_writes(confs, lines@, i as int + 1));
                assert(win.writes@ =~= old(win).writes@ + routing_writes(lines@, i as int + 1));
                assert forall|j: int| 0 <= j < i + 1 implies regs.timer_config@[j] == final_config(
                    confs[j],
                    lines@[j],
                ) by {
                    if j < i {
                        assert(lines@[j] == ls0[j]);
                    }
                }
            }
            i = i + 1;
        }
        self.write_configuration(regs, general_config | 1);
        proof {
            assert(regs.timer_config@ =~= Seq::new(
                count as nat,
                |j: int| final_config(confs[j], lines@[j]),
            ));
            assert(regs.writes@ =~= old(regs).writes@ + setup_writes(confs, lines@, count as int).push(
                (0x10u64, old(regs).configuration | 1),
            ));
        }
        Ok(lines)
    }
}

/// The lines chosen for the first `i` timers do not depend on the later ones.
proof fn lemma_lines_upto_prefix(bits: u64, confs: Seq<u64>, i: int, n: int)
    requires
        0 <= i <= n,
    ensures
        lines_upto(bits, confs, n).0.len() == n,
        forall|j: int| 0 <= j < i ==> lines_upto(bits, confs, n).0[j] == lines_upto(bits, confs, i).0[j],
    decreases n - i,
{
    lemma_lines_upto_len(bits, confs, n);
    lemma_lines_upto_len(bits, confs, i);
    if i < n {
        lemma_lines_upto_prefix(bits, confs, i + 1, n);
        lemma_lines_upto_len(bits, confs, i + 1);
    }
}

proof fn lemma_lines_upto_len(bits: u64, confs: Seq<u64>, i: int)
    requires
        0 <= i,
    ensures
        lines_upto(bits, confs, i).0.len() == i,
    decreases i,
{
    if i > 0 {
        lemma_lines_upto_len(bits, confs, i - 1);
    }
}

/// The setup writes for a prefix depend only on the lines chosen for that prefix.
proof fn lemma_setup_writes_prefix(confs: Seq<u64>, a: Seq<Option<u8>>, b: Seq<Option<u8>>, i: int)
    requires
        0 <= i <= a.len(),
        i <= b.len(),
        forall|j: int| 0 <= j < i ==> a[j] == b[j],
    ensures
        setup_writes(confs, a, i) == setup_writes(confs, b, i),
    decreases i,
{
    if i > 0 {
        lemma_setup_writes_prefix(confs, a, b, i - 1);
    }
}

/// The routing writes for a prefix depend only on the lines chosen for that prefix.
proof fn lemma_routing_writes_prefix(a: Seq<Option<u8>>, b: Seq<Option<u8>>, i: int)
    requires
        0 <= i <= a.len(),
        i <= b.len(),
        forall|j: int| 0 <= j < i ==> a[j] == b[j],
    ensures
        routing_writes(a, i) == routing_writes(b, i),
    decreases i,
{
    if i > 0 {
        lemma_routing_writes_prefix(a, b, i - 1);
    }
}

} // verus!
