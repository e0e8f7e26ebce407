//! The interrupt-controller description table and its variable-length entries.
use crate::bytes::{le16, le32, read_u16, read_u32};
use crate::ioapic::IOAPIC;
use crate::phys::PhysMemory;
use crate::rsdt::{header_of, read_table, table_at, ACPISDTHeader};
use vstd::prelude::*;

verus! {

/// Offset of the entry array inside the table.
pub const MADT_ENTRIES_OFFSET: usize = 44;

/// The multiple interrupt-controller description table.
pub struct MADT {
    pub header: ACPISDTHeader,
    pub local_apic_address: u32,
    pub flags: u32,
    /// The raw entry array: everything after the fixed fields up to the declared length.
    pub entries: Vec<u8>,
}

/// One entry of the table: a type byte, a length byte, and its payload.
pub struct MADTEntry {
    pub entry_type: u8,
    pub length: u8,
    pub data: Vec<u8>,
}

/// The entries laid out back to back at the start of `buf`. Walking stops at the
/// first entry whose length byte is missing, shorter than the two header bytes, or
/// runs past the end of `buf`.
pub open spec fn entries_of(buf: Seq<u8>) -> Seq<Seq<u8>>
    decreases buf.len(),
{
    if buf.len() >= 2 && buf[1] >= 2 && buf[1] <= buf.len() {
        seq![buf.subrange(0, buf[1] as int)].add(entries_of(buf.subrange(buf[1] as int, buf.len() as int)))
    } else {
        Seq::empty()
    }
}

/// `e` is the entry whose raw bytes are `raw`.
pub open spec fn entry_of(e: MADTEntry, raw: Seq<u8>) -> bool {
    &&& raw.len() >= 2
    &&& e.entry_type == raw[0]
    &&& e.length == raw[1]
    &&& e.data@ == raw.subrange(2, raw.len() as int)
}

/// A well-formed entry: its length byte is its exact size, header included.
pub open spec fn entry_well_formed(e: Seq<u8>) -> bool {
    e.len() >= 2 && e[1] == e.len()
}

/// Entries encoded back to back are read back exactly, one for one and in order.
pub proof fn lemma_entries_round_trip(es: Seq<Seq<u8>>)
    requires
        forall|k: int| 0 <= k < es.len() ==> entry_well_formed(#[trigger] es[k]),
    ensures
        entries_of(es.flatten()) == es,
    decreases es.len(),
{
    if es.len() > 0 {
        let buf = es.flatten();
        let rest = es.drop_first();
        assert(entry_well_formed(es[0]));
        assert forall|k: int| 0 <= k < rest.len() implies entry_well_formed(#[trigger] rest[k]) by {
            assert(rest[k] == es[k + 1]);
        }
        lemma_entries_round_trip(rest);
        assert(buf == es[0] + rest.flatten());
        assert(buf.subrange(0, es[0].len() as int) =~= es[0]);
        assert(buf.subrange(es[0].len() as int, buf.len() as int) =~= rest.flatten());
        assert(entries_of(buf) =~= seq![es[0]].add(rest));
        assert(seq![es[0]].add(rest) =~= es);
    } else {
        assert(es.flatten() =~= Seq::<u8>::empty());
        assert(entries_of(es.flatten()) =~= es);
    }
}

/// An iterator over the entries of the table.
pub struct MADTIterator {
    entries: Vec<u8>,
    index: usize,
}

impl MADTIterator {
    /// The entries not yet returned.
    pub closed spec fn remaining(&self) -> Seq<Seq<u8>> {
        entries_of(self.entries@.subrange(self.index as int, self.entries@.len() as int))
    }

    /// The iterator's position lies inside its buffer.
    pub closed spec fn wf(&self) -> bool {
        self.index <= self.entries@.len()
    }

    /// The next entry, if one is left; never reads past the end of the entry array.
    pub fn next(&mut self) -> (r: Option<MADTEntry>)
        requires
            old(self).wf(),
        ensures
            final(self).wf(),
            old(self).remaining().len() == 0 ==> r is None && final(self).remaining().len() == 0,
            old(self).remaining().len() > 0 ==> r is Some && entry_of(r->0, old(self).remaining()[0])
                && final(self).remaining() == old(self).remaining().drop_first(),
    {
        let n = self.entries.len();
        let i = self.index;
        let ghost rest = self.entries@.subrange(i as int, n as int);
        if n - i < 2 {
            return None;
        }
        let len = self.entries[i + 1];
        assert(rest[1] == len);
        if len < 2 || len as usize > n - i {
            return None;
        }
        let mut data: Vec<u8> = Vec::new();
        let mut k: usize = i + 2;
        while k < i + len as usize
            invariant
                i + 2 <= k <= i + len as usize <= n,
                n == self.entries@.len(),
                data@ =~= self.entries@.subrange(i + 2, k as int),
            decreases i + len as usize - k,
        {
            data.push(self.entries[k]);
            k = k + 1;
        }
        let entry = MADTEntry { entry_type: self.entries[i], length: len, data };
        self.index = i + len as usize;
        proof {
            assert(rest.subrange(0, len as int) =~= self.entries@.subrange(i as int, i + len));
            assert(rest.subrange(len as int, rest.len() as int) =~= self.entries@.subrange(
                self.index as int,
                n as int,
            ));
            assert(entries_of(rest).drop_first() =~= self.remaining());
            assert(data@ =~= rest.subrange(0, len as int).subrange(2, len as int));
        }
        Some(entry)
    }
}

/// `m` holds the fields of the interrupt-controller table `t`.
pub open spec fn madt_of(m: MADT, t: Seq<u8>) -> bool {
    &&& header_of(m.header, t)
    &&& m.local_apic_address == le32(t, 36)
    &&& m.flags == le32(t, 40)
    &&& m.entries@ == t.subrange(MADT_ENTRIES_OFFSET as int, t.len() as int)
}

impl MADT {
    /// Decodes the table from its validated bytes.
    pub fn from_table(t: &[u8]) -> (r: Self)
        requires
            crate::rsdt::table_valid(t@),
            t@.len() >= MADT_ENTRIES_OFFSET,
        ensures
            header_of(r.header, t@),
            r.local_apic_address == le32(t@, 36),
            r.flags == le32(t@, 40),
            r.entries@ == t@.subrange(MADT_ENTRIES_OFFSET as int, t@.len() as int),
    {
        let header = ACPISDTHeader::parse(t);
        let mut entries: Vec<u8> = Vec::new();
        let mut k: usize = MADT_ENTRIES_OFFSET;
        while k < t.len()
            invariant
                MADT_ENTRIES_OFFSET <= k <= t@.len(),
                entries@ =~= t@.subrange(MADT_ENTRIES_OFFSET as int, k as int),
            decreases t@.len() - k,
        {
            entries.push(t[k]);
            k = k + 1;
        }
        MADT { header, local_apic_address: read_u32(t, 36), flags: read_u32(t, 40), entries }
    }

    /// Reads the table at physical address `addr`; `None` unless it is valid and
    /// long enough for its fixed fields.
    pub fn from_addr(mem: &PhysMemory, addr: u32) -> (r: Option<Self>)
        ensures
            r is Some <==> (table_at(*mem, addr as int) is Some
                && table_at(*mem, addr as int)->0.len() >= MADT_ENTRIES_OFFSET),
            r is Some ==> madt_of(r->0, table_at(*mem, addr as int)->0),
    {
        match read_table(mem, addr as u64) {
            Some(t) => {
                if t.len() < MADT_ENTRIES_OFFSET {
                    None
                } else {
                    Some(MADT::from_table(t.as_slice()))
                }
            },
            None => None,
        }
    }

    /// An iterator over the entries, from the first.
    pub fn entries(&self) -> (r: MADTIterator)
        ensures
            r.wf(),
            r.remaining() == entries_of(self.entries@),
    {
        let r = MADTIterator { entries: self.entries.clone(), index: 0 };
        assert(r.entries@.subrange(0, r.entries@.len() as int) =~= self.entries@);
        r
    }

    /// All entries, in order.
    pub fn entry_list(&self) -> (r: Vec<MADTEntry>)
        ensures
            r@.len() == entries_of(self.entries@).len(),
            forall|k: int| 0 <= k < r@.len() ==> entry_of(#[trigger] r@[k], entries_of(self.entries@)[k]),
    {
        let mut it = self.entries();
        let mut out: Vec<MADTEntry> = Vec::new();
        let ghost all = entries_of(self.entries@);
        loop
            invariant
                it.wf(),
                all == entries_of(self.entries@),
                out@.len() + it.remaining().len() == all.len(),
                it.remaining() == all.subrange(out@.len() as int, all.len() as int),
                forall|k: int| 0 <= k < out@.len() ==> entry_of(#[trigger] out@[k], all[k]),
            decreases it.remaining().len(),
        {
            let ghost before = it.remaining();
            match it.next() {
                Some(e) => {
                    proof {
                        assert(before[0] == all[out@.len() as int]);
                        assert(it.remaining() =~= all.subrange(out@.len() as int + 1, all.len() as int));
                    }
                    out.push(e);
                },
                None => {
                    return out;
                },
            }
        }
    }

    /// The physical address of the local interrupt controller.
    pub fn local_apic_address(&self) -> (r: u32)
        ensures
            r == self.local_apic_address,
    {
        self.local_apic_address
    }
}


/// A processor and its local interrupt controller.
#[derive(Debug, Clone, Copy)]
pub struct ProcessorLocalAPIC {
    pub processor_id: u8,
    pub apic_id: u8,
    pub flags: u32,
}

impl ProcessorLocalAPIC {
    /// Decodes the entry payload.
    pub fn new(data: &[u8]) -> (r: Self)
        requires
            data@.len() >= 6,
        ensures
            r.processor_id == data@[0],
            r.apic_id == data@[1],
            r.flags == le32(data@, 2),
    {
        Self { processor_id: data[0], apic_id: data[1], flags: read_u32(data, 2) }
    }
}

/// A source whose interrupt is delivered on another global interrupt line.
#[derive(Debug, Clone, Copy)]
pub struct InterruptSourceOverride {
    pub bus: u8,
    pub source: u8,
    pub global_system_interrupt: u32,
    pub flags: u16,
}

impl InterruptSourceOverride {
    /// Decodes the entry payload.
    pub fn new(data: &[u8]) -> (r: Self)
        requires
            data@.len() >= 8,
        ensures
            r.bus == data@[0],
            r.source == data@[1],
            r.global_system_interrupt == le32(data@, 2),
            r.flags == le16(data@, 6),
    {
        Self {
            bus: data[0],
            source: data[1],
            global_system_interrupt: read_u32(data, 2),
            flags: read_u16(data, 6),
        }
    }
}

/// The kinds of entry, each with what its payload holds.
#[derive(Debug, Clone, Copy)]
pub enum MADTEntryTypes {
    ProcessorLocalAPIC(ProcessorLocalAPIC),
    IOAPIC(IOAPIC),
    InterruptSourceOverride(InterruptSourceOverride),
    IOAPICNMISource,
    LocalAPICNMI,
    LocalAPICAddressOverride,
    ProcessorLocalx2APIC,
}

/// What an entry of type `t` with payload `d` decodes to: `None` for an unknown
/// type, or for a known one whose payload is too short for its fields.
pub open spec fn decodes_to(t: u8, d: Seq<u8>, r: Option<MADTEntryTypes>) -> bool {
    if t == 0 && d.len() >= 6 {
        r matches Some(MADTEntryTypes::ProcessorLocalAPIC(p)) && p.processor_id == d[0]
            && p.apic_id == d[1] && p.flags == le32(d, 2)
    } else if t == 1 && d.len() >= 10 {
        r matches Some(MADTEntryTypes::IOAPIC(a)) && a.ioapic_id == d[0] && a.reserved == d[1]
            && a.ioapic_address == le32(d, 2) && a.global_system_interrupt_base == le32(d, 6)
    } else if t == 2 && d.len() >= 8 {
        r matches Some(MADTEntryTypes::InterruptSourceOverride(o)) && o.bus == d[0] && o.source
            == d[1] && o.global_system_interrupt == le32(d, 2) && o.flags == le16(d, 6)
    } else if t == 3 {
        r == Some(MADTEntryTypes::IOAPICNMISource)
    } else if t == 4 {
        r == Some(MADTEntryTypes::LocalAPICNMI)
    } else if t == 5 {
        r == Some(MADTEntryTypes::LocalAPICAddressOverride)
    } else if t == 9 {
        r == Some(MADTEntryTypes::ProcessorLocalx2APIC)
    } else {
        r is None
    }
}

impl MADTEntry {
    /// Decodes the entry by its type byte.
    pub fn get_type(&self) -> (r: Option<MADTEntryTypes>)
        ensures
            decodes_to(self.entry_type, self.data@, r),
    {
        let d = self.data.as_slice();
        match self.entry_type {
            0 => if d.len() >= 6 {
                Some(MADTEntryTypes::ProcessorLocalAPIC(ProcessorLocalAPIC::new(d)))
            } else {
                None
            },
            1 => if d.len() >= 10 {
                Some(MADTEntryTypes::IOAPIC(IOAPIC::new(d)))
            } else {
                None
            },
            2 => if d.len() >= 8 {
                Some(MADTEntryTypes::InterruptSourceOverride(InterruptSourceOverride::new(d)))
            } else {
                None
            },
            3 => Some(MADTEntryTypes::IOAPICNMISource),
            4 => Some(MADTEntryTypes::LocalAPICNMI),
            5 => Some(MADTEntryTypes::LocalAPICAddressOverride),
            9 => Some(MADTEntryTypes::ProcessorLocalx2APIC),
            _ => None,
        }
    }
}

} // verus!
