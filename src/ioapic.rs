//! The I/O interrupt controller: redirection entries and the indexed register window.
use crate::bytes::{le32, read_u32};
use vstd::prelude::*;

verus! {

/// An I/O interrupt controller as the description table lists it.
#[derive(Debug, Clone, Copy)]
pub struct IOAPIC {
    pub ioapic_id: u8,
    pub reserved: u8,
    pub ioapic_address: u32,
    pub global_system_interrupt_base: u32,
}

impl IOAPIC {
    /// Decodes the entry payload.
    pub fn new(data: &[u8]) -> (r: Self)
        requires
            data@.len() >= 10,
        ensures
            r.ioapic_id == data@[0],
            r.reserved == data@[1],
            r.ioapic_address == le32(data@, 2),
            r.global_system_interrupt_base == le32(data@, 6),
    {
        Self {
            ioapic_id: data[0],
            reserved: data[1],
            ioapic_address: read_u32(data, 2),
            global_system_interrupt_base: read_u32(data, 6),
        }
    }
}


/// Line `line` is marked claimed in the bitmap `bits`.
pub open spec fn claimed(bits: u64, line: u64) -> bool {
    (bits >> line) & 1u64 == 1u64
}

/// Lines with a fixed legacy meaning, which are never handed out.
pub open spec fn is_reserved(line: u64) -> bool {
    line == 0 || line == 1 || line == 2 || line == 8
}

/// Line `line` may be handed out: it is a candidate, free, and not reserved.
pub open spec fn claimable(bits: u64, candidates: u64, line: u64) -> bool {
    &&& line < 64
    &&& claimed(candidates, line)
    &&& !claimed(bits, line)
    &&& !is_reserved(line)
}

/// The line that `allocate` hands out: the lowest claimable one.
pub open spec fn allocate_spec(bits: u64, candidates: u64) -> Option<u8> {
    if exists|l: u64| claimable(bits, candidates, l) {
        let l = choose|l: u64|
            claimable(bits, candidates, l) && forall|m: u64| m < l ==> !claimable(bits, candidates, m);
        Some(l as u8)
    } else {
        None
    }
}

/// The bitmap after `allocate`.
pub open spec fn allocate_bits(bits: u64, candidates: u64) -> u64 {
    match allocate_spec(bits, candidates) {
        Some(l) => bits | (1u64 << l),
        None => bits,
    }
}

/// The lines that a sequence of `allocate` calls hands out, one per call.
pub open spec fn allocate_all(bits: u64, calls: Seq<u64>) -> Seq<Option<u8>>
    decreases calls.len(),
{
    if calls.len() == 0 {
        Seq::empty()
    } else {
        seq![allocate_spec(bits, calls[0])].add(
            allocate_all(allocate_bits(bits, calls[0]), calls.drop_first()),
        )
    }
}

proof fn lemma_set_bit(bits: u64, line: u64, j: u64)
    requires
        line < 64,
        j < 64,
    ensures
        claimed(bits | (1u64 << line), j) == (j == line || claimed(bits, j)),
{
    assert(((bits | (1u64 << line)) >> j) & 1u64 == 1u64 <==> (j == line || (bits >> j) & 1u64
        == 1u64)) by (bit_vector)
        requires
            line < 64,
            j < 64,
    ;
}

proof fn lemma_clear_bit(bits: u64, line: u64, j: u64)
    requires
        line < 64,
        j < 64,
    ensures
        claimed(bits & !(1u64 << line), j) == (j != line && claimed(bits, j)),
{
    assert(((bits & !(1u64 << line)) >> j) & 1u64 == 1u64 <==> (j != line && (bits >> j) & 1u64
        == 1u64)) by (bit_vector)
        requires
            line < 64,
            j < 64,
    ;
}

/// What `allocate` hands out is claimable, and is claimed afterwards along with
/// every line that was claimed before.
proof fn lemma_allocate_step(bits: u64, candidates: u64)
    ensures
        allocate_spec(bits, candidates) matches Some(l) ==> claimable(bits, candidates, l as u64)
            && claimed(allocate_bits(bits, candidates), l as u64),
        forall|j: u64| j < 64 && claimed(bits, j) ==> claimed(allocate_bits(bits, candidates), j),
{
    if let Some(l) = allocate_spec(bits, candidates) {
        let c = choose|l: u64|
            claimable(bits, candidates, l) && forall|m: u64| m < l ==> !claimable(bits, candidates, m);
        assert(c as u8 as u64 == c);
        lemma_set_bit(bits, c, c);
        assert forall|j: u64| j < 64 && claimed(bits, j) implies claimed(
            allocate_bits(bits, candidates),
            j,
        ) by {
            lemma_set_bit(bits, c, j);
        }
    }
}

/// No two `allocate` calls of a sequence hand out the same line, none hands out a
/// reserved line, and none hands out a line that was already claimed.
pub proof fn lemma_allocations_exclusive(bits: u64, calls: Seq<u64>)
    ensures
        forall|i: int, j: int|
            0 <= i < j < calls.len() && allocate_all(bits, calls)[i] is Some
                && allocate_all(bits, calls)[j] is Some ==> allocate_all(bits, calls)[i]
                != allocate_all(bits, calls)[j],
        forall|i: int|
            0 <= i < calls.len() && #[trigger] allocate_all(bits, calls)[i] is Some ==> {
                let l = allocate_all(bits, calls)[i]->0 as u64;
                !is_reserved(l) && l < 64 && !claimed(bits, l)
            },
    decreases calls.len(),
{
    if calls.len() > 0 {
        let next = allocate_bits(bits, calls[0]);
        let rest = calls.drop_first();
        let all = allocate_all(bits, calls);
        lemma_allocations_exclusive(next, rest);
        lemma_allocate_step(bits, calls[0]);
        assert(all.len() == calls.len()) by {
            lemma_allocate_all_len(bits, calls);
        }
        assert forall|i: int| 0 < i < calls.len() implies all[i] == allocate_all(next, rest)[i
            - 1] by {}
        assert forall|i: int|
            0 <= i < calls.len() && #[trigger] all[i] is Some implies {
                let l = all[i]->0 as u64;
                !is_reserved(l) && l < 64 && !claimed(bits, l)
            } by {
            if i > 0 {
                let l = all[i]->0 as u64;
                assert(allocate_all(next, rest)[i - 1] is Some);
                if claimed(bits, l) {
                    assert(claimed(next, l));
                }
            }
        }
        assert forall|i: int, j: int|
            0 <= i < j < calls.len() && all[i] is Some && all[j] is Some implies all[i] != all[j] by {
            if i == 0 {
                let l = all[0]->0 as u64;
                assert(claimed(next, l));
                assert(allocate_all(next, rest)[j - 1] is Some);
            } else {
                assert(allocate_all(next, rest)[i - 1] is Some);
                assert(allocate_all(next, rest)[j - 1] is Some);
            }
        }
    }
}

proof fn lemma_allocate_all_len(bits: u64, calls: Seq<u64>)
    ensures
        allocate_all(bits, calls).len() == calls.len(),
    decreases calls.len(),
{
    if calls.len() > 0 {
        lemma_allocate_all_len(allocate_bits(bits, calls[0]), calls.drop_first());
    }
}

/// The bitmap of legacy interrupt lines; a set bit marks a claimed line.
pub struct InterruptSources(pub u64);

impl InterruptSources {
    /// A bitmap in which only the reserved lines are claimed.
    pub fn new() -> (r: Self)
        ensures
            forall|j: u64| j < 64 ==> (claimed(r.0, j) <==> is_reserved(j)),
    {
        let r = InterruptSources(1u64 | (1u64 << 1u64) | (1u64 << 2u64) | (1u64 << 8u64));
        assert forall|j: u64| j < 64 implies (claimed(r.0, j) <==> is_reserved(j)) by {
            assert(j < 64 ==> ((((1u64 | (1u64 << 1u64) | (1u64 << 2u64) | (1u64 << 8u64)) >> j)
                & 1u64 == 1u64) <==> (j == 0 || j == 1 || j == 2 || j == 8))) by (bit_vector);
        }
        r
    }

    /// Marks line `irq` claimed.
    pub fn set_irq(&mut self, irq: u8)
        requires
            irq < 64,
        ensures
            final(self).0 == old(self).0 | (1u64 << irq),
            forall|j: u64| j < 64 ==> claimed(final(self).0, j) == (j == irq || claimed(old(self).0, j)),
    {
        self.0 = self.0 | (1u64 << irq);
        proof {
            assert forall|j: u64| j < 64 implies claimed(self.0, j) == (j == irq || claimed(
                old(self).0,
                j,
            )) by {
                lemma_set_bit(old(self).0, irq as u64, j);
            }
        }
    }

    /// Marks line `irq` free.
    pub fn clear_irq(&mut self, irq: u8)
        requires
            irq < 64,
        ensures
            final(self).0 == old(self).0 & !(1u64 << irq),
            forall|j: u64| j < 64 ==> claimed(final(self).0, j) == (j != irq && claimed(old(self).0, j)),
    {
        self.0 = self.0 & !(1u64 << irq);
        proof {
            assert forall|j: u64| j < 64 implies claimed(self.0, j) == (j != irq && claimed(
                old(self).0,
                j,
            )) by {
                lemma_clear_bit(old(self).0, irq as u64, j);
            }
        }
    }

    /// Whether line `irq` is free.
    pub fn get_irq(&mut self, irq: u8) -> (r: bool)
        requires
            irq < 64,
        ensures
            final(self).0 == old(self).0,
            r == !claimed(old(self).0, irq as u64),
    {
        let bits = self.0;
        let r = bits & (1u64 << irq) == 0;
        assert(r == !((bits >> (irq as u64)) & 1u64 == 1u64)) by (bit_vector)
            requires
                r == (bits & (1u64 << irq) == 0),
                irq < 64,
        ;
        r
    }

    /// Claims and returns the lowest line that is set in `candidates`, free, and not
    /// reserved; `None` when there is none.
    pub fn allocate(&mut self, candidates: u64) -> (r: Option<u8>)
        ensures
            r == allocate_spec(old(self).0, candidates),
            final(self).0 == allocate_bits(old(self).0, candidates),
    {
        let mut line: u8 = 0;
        while line < 64
            invariant
                line <= 64,
                forall|m: u64| m < line ==> !claimable(self.0, candidates, m),
                self.0 == old(self).0,
            decreases 64 - line,
        {
            let is_candidate = (candidates >> line) & 1 == 1;
            let reserved = line == 0 || line == 1 || line == 2 || line == 8;
            if is_candidate && !reserved && self.get_irq(line) {
                self.set_irq(line);
                proof {
                    let l = line as u64;
                    assert(claimable(old(self).0, candidates, l));
                    let c = choose|c: u64|
                        claimable(old(self).0, candidates, c) && forall|m: u64|
                            m < c ==> !claimable(old(self).0, candidates, m);
                    assert(c == l) by {
                        if c < l {
                        } else if c > l {
                        }
                    }
                }
                return Some(line);
            }
            line = line + 1;
        }
        proof {
            assert forall|l: u64| !claimable(old(self).0, candidates, l) by {
                if l < 64 {
                }
            }
        }
        None
    }
}

/// An I/O redirection table entry (64 bits).
#[derive(Debug, Clone, Copy)]
pub struct IOREDTBL(pub u64);

impl IOREDTBL {
    /// Interrupt vector, bits 7..0.
    pub fn vector(&self) -> (r: u64)
        ensures
            r == self.0 % 0x100,
    {
        let x = self.0;
        let r = x & 0xff;
        assert(r == x % 0x100) by (bit_vector)
            requires
                r == x & 0xff,
        ;
        r
    }

    /// Sets the interrupt vector, bits 7..0, to the low byte of `v`.
    pub fn set_vector(&mut self, v: u64)
        ensures
            final(self).0 % 0x100 == v % 0x100,
            final(self).0 / 0x100 == old(self).0 / 0x100,
    {
        let x = self.0;
        let r = (x & !0xffu64) | (v & 0xff);
        assert(r % 0x100 == v % 0x100 && r / 0x100 == x / 0x100) by (bit_vector)
            requires
                r == (x & !0xffu64) | (v & 0xff),
        ;
        self.0 = r;
    }

    /// Delivery mode, bits 10..8.
    pub fn delivery_mode(&self) -> (r: u64)
        ensures
            r == (self.0 / 0x100) % 8,
    {
        let x = self.0;
        let r = (x >> 8u64) & 7;
        assert(r == (x / 0x100) % 8) by (bit_vector)
            requires
                r == (x >> 8u64) & 7,
        ;
        r
    }

    /// Destination mode, bit 11.
    pub fn destination_mode(&self) -> (r: bool)
        ensures
            r == ((self.0 / 0x800) % 2 == 1),
    {
        let x = self.0;
        let r = (x >> 11u64) & 1 == 1;
        assert(r == ((x / 0x800) % 2 == 1)) by (bit_vector)
            requires
                r == ((x >> 11u64) & 1 == 1),
        ;
        r
    }

    /// Delivery status, bit 12.
    pub fn delivery_status(&self) -> (r: bool)
        ensures
            r == ((self.0 / 0x1000) % 2 == 1),
    {
        let x = self.0;
        let r = (x >> 12u64) & 1 == 1;
        assert(r == ((x / 0x1000) % 2 == 1)) by (bit_vector)
            requires
                r == ((x >> 12u64) & 1 == 1),
        ;
        r
    }

    /// Pin polarity, bit 13.
    pub fn polarity(&self) -> (r: bool)
        ensures
            r == ((self.0 / 0x2000) % 2 == 1),
    {
        let x = self.0;
        let r = (x >> 13u64) & 1 == 1;
        assert(r == ((x / 0x2000) % 2 == 1)) by (bit_vector)
            requires
                r == ((x >> 13u64) & 1 == 1),
        ;
        r
    }

    /// Remote IRR, bit 14.
    pub fn remote_irr(&self) -> (r: bool)
        ensures
            r == ((self.0 / 0x4000) % 2 == 1),
    {
        let x = self.0;
        let r = (x >> 14u64) & 1 == 1;
        assert(r == ((x / 0x4000) % 2 == 1)) by (bit_vector)
            requires
                r == ((x >> 14u64) & 1 == 1),
        ;
        r
    }

    /// Trigger mode, bit 15.
    pub fn trigger_mode(&self) -> (r: bool)
        ensures
            r == ((self.0 / 0x8000) % 2 == 1),
    {
        let x = self.0;
        let r = (x >> 15u64) & 1 == 1;
        assert(r == ((x / 0x8000) % 2 == 1)) by (bit_vector)
            requires
                r == ((x >> 15u64) & 1 == 1),
        ;
        r
    }

    /// Interrupt mask, bit 16.
    pub fn mask(&self) -> (r: bool)
        ensures
            r == ((self.0 / 0x1_0000) % 2 == 1),
    {
        let x = self.0;
        let r = (x >> 16u64) & 1 == 1;
        assert(r == ((x / 0x1_0000) % 2 == 1)) by (bit_vector)
            requires
                r == ((x >> 16u64) & 1 == 1),
        ;
        r
    }

    /// Destination, bits 63..56.
    pub fn destination(&self) -> (r: u64)
        ensures
            r == self.0 / 0x100_0000_0000_0000,
    {
        let x = self.0;
        let r = x >> 56u64;
        assert(r == x / 0x100_0000_0000_0000) by (bit_vector)
            requires
                r == x >> 56u64,
        ;
        r
    }
}

/// The controller's 32-bit registers as seen through its index/data window,
/// with every write made through it, in order.
pub struct IoApicWindow {
    pub regs: Vec<u32>,
    pub writes: Vec<(u8, u32)>,
}

impl IoApicWindow {
    /// One value per register index.
    pub open spec fn wf(&self) -> bool {
        self.regs@.len() == 256
    }

    /// A window whose registers all read zero and that has seen no write.
    pub fn new() -> (r: Self)
        ensures
            r.wf(),
            r.regs@ == Seq::new(256, |i: int| 0u32),
            r.writes@.len() == 0,
    {
        let mut regs: Vec<u32> = Vec::new();
        while regs.len() < 256
            invariant
                regs@.len() <= 256,
                regs@ == Seq::new(regs@.len(), |i: int| 0u32),
            decreases 256 - regs@.len(),
        {
            regs.push(0);
            assert(regs@ =~= Seq::new(regs@.len(), |i: int| 0u32));
        }
        IoApicWindow { regs, writes: Vec::new() }
    }
}

/// Register index of the low half of redirection entry `index`.
pub open spec fn redirection_low(index: int) -> int {
    0x10 + 2 * index
}

impl IOAPIC {
    /// Reads register `reg` through the window.
    pub fn read(&self, win: &IoApicWindow, reg: u8) -> (r: u32)
        requires
            win.wf(),
        ensures
            r == win.regs@[reg as int],
    {
        win.regs[reg as usize]
    }

    /// Writes `value` to register `reg` through the window.
    pub fn write(&self, win: &mut IoApicWindow, reg: u8, value: u32)
        requires
            old(win).wf(),
        ensures
            final(win).wf(),
            final(win).regs@ == old(win).regs@.update(reg as int, value),
            final(win).writes@ == old(win).writes@.push((reg, value)),
    {
        win.regs.set(reg as usize, value);
        win.writes.push((reg, value));
    }

    /// Reads redirection entry `index` as its low then its high 32-bit half.
    pub fn read_table_entry(&self, win: &IoApicWindow, index: u8) -> (r: u64)
        requires
            win.wf(),
            index < 120,
        ensures
            r == win.regs@[redirection_low(index as int)] + 0x1_0000_0000 * win.regs@[redirection_low(
                index as int,
            ) + 1],
    {
        let low = self.read(win, index * 2 + 0x10);
        let high = self.read(win, index * 2 + 1 + 0x10);
        let r = (low as u64) | ((high as u64) << 32u64);
        assert(r == low + 0x1_0000_0000 * high) by (bit_vector)
            requires
                r == (low as u64) | ((high as u64) << 32u64),
        ;
        r
    }

    /// Writes redirection entry `index`: the low 32-bit half, then the high half.
    pub fn write_table_entry(&self, win: &mut IoApicWindow, index: u8, entry: IOREDTBL)
        requires
            old(win).wf(),
            index < 120,
        ensures
            final(win).wf(),
            final(win).writes@ == old(win).writes@.push(
                ((index * 2 + 0x10) as u8, (entry.0 % 0x1_0000_0000) as u32),
            ).push(((index * 2 + 0x11) as u8, (entry.0 / 0x1_0000_0000) as u32)),
            final(win).regs@ == old(win).regs@.update(
                redirection_low(index as int),
                (entry.0 % 0x1_0000_0000) as u32,
            ).update(redirection_low(index as int) + 1, (entry.0 / 0x1_0000_0000) as u32),
    {
        let value = entry.0;
        let low = #[verifier::truncate] (value as u32);
        let high = #[verifier::truncate] ((value >> 32u64) as u32);
        assert(low == value % 0x1_0000_0000 && high == value / 0x1_0000_0000) by (bit_vector)
            requires
                low == value as u32,
                high == (value >> 32u64) as u32,
        ;
        self.write(win, index * 2 + 0x10, low);
        self.write(win, index * 2 + 1 + 0x10, high);
    }

    /// Routes line `irq` to `vector` with every other field zero (fixed delivery,
    /// physical destination, unmasked), and marks the line claimed.
    pub fn standard_table_entry(
        &self,
        win: &mut IoApicWindow,
        sources: &mut InterruptSources,
        irq: u8,
        vector: u8,
    )
        requires
            old(win).wf(),
            irq < 64,
        ensures
            final(win).wf(),
            final(sources).0 == old(sources).0 | (1u64 << irq),
            final(win).writes@ == old(win).writes@.push(((irq * 2 + 0x10) as u8, vector as u32)).push(
                ((irq * 2 + 0x11) as u8, 0u32),
            ),
            final(win).regs@ == old(win).regs@.update(redirection_low(irq as int), vector as u32).update(
                redirection_low(irq as int) + 1,
                0u32,
            ),
    {
        let mut standard_entry = IOREDTBL(0);
        standard_entry.set_vector(vector as u64);
        assert(standard_entry.0 == vector as u64) by {
            assert(standard_entry.0 / 0x100 == 0);
        }
        sources.set_irq(irq);
        self.write_table_entry(win, irq, standard_entry);
    }
}


/// What `allocate` hands out is a line below 64 whose bit the call sets.
pub proof fn lemma_allocate_result(bits: u64, candidates: u64)
    ensures
        allocate_spec(bits, candidates) matches Some(l) ==> l < 64 && allocate_bits(bits, candidates)
            == bits | (1u64 << l),
{
    lemma_allocate_step(bits, candidates);
}

/// Setting a bit that is already set changes nothing.
pub proof fn lemma_set_twice(bits: u64, line: u64)
    ensures
        (bits | (1u64 << line)) | (1u64 << line) == bits | (1u64 << line),
{
    assert((bits | (1u64 << line)) | (1u64 << line) == bits | (1u64 << line)) by (bit_vector);
}

} // verus!
