//! System description table headers, checksums, and the root table.
use crate::bytes::{byte_sum, lemma_byte_sum_update, le32, read_u32, sum_bytes};
use crate::hpet::{hpet_of, HPET, HPET_TABLE_SIZE};
use crate::madt::{madt_of, MADT, MADT_ENTRIES_OFFSET};
use crate::phys::PhysMemory;
use vstd::prelude::*;

verus! {

/// Size in bytes of the header that starts every system description table.
pub const HEADER_SIZE: usize = 36;

/// A well-formed table: its header fits, its declared length is its exact size,
/// and all its bytes sum to zero modulo 256.
pub open spec fn table_valid(t: Seq<u8>) -> bool {
    &&& t.len() >= HEADER_SIZE
    &&& le32(t, 4) == t.len()
    &&& byte_sum(t) % 256 == 0
}

/// The table found at physical address `addr`: its header is read first, then the
/// whole table with the length the header declares, which must be valid.
pub open spec fn table_at(mem: PhysMemory, addr: int) -> Option<Seq<u8>> {
    match mem.read_spec(addr, HEADER_SIZE as int) {
        None => None,
        Some(h) => {
            let n = le32(h, 4);
            match mem.read_spec(addr, n) {
                Some(t) => if n >= HEADER_SIZE && table_valid(t) {
                    Some(t)
                } else {
                    None
                },
                None => None,
            }
        },
    }
}

/// Whether the table bytes `t` are well formed and their checksum holds.
pub fn checksum_ok(t: &[u8]) -> (r: bool)
    ensures
        r == table_valid(t@),
{
    if t.len() < HEADER_SIZE {
        return false;
    }
    let length = read_u32(t, 4);
    if length as usize != t.len() {
        return false;
    }
    let sum = sum_bytes(t, t.len());
    assert(t@.subrange(0, t@.len() as int) =~= t@);
    sum == 0
}

/// Reads and validates the table at physical address `addr`.
pub fn read_table(mem: &PhysMemory, addr: u64) -> (r: Option<Vec<u8>>)
    ensures
        match r {
            Some(t) => table_at(*mem, addr as int) == Some(t@),
            None => table_at(*mem, addr as int) is None,
        },
{
    let header = match mem.read(addr, HEADER_SIZE) {
        Some(h) => h,
        None => return None,
    };
    let length = read_u32(header.as_slice(), 4);
    if (length as usize) < HEADER_SIZE {
        return None;
    }
    let table = match mem.read(addr, length as usize) {
        Some(t) => t,
        None => return None,
    };
    if checksum_ok(table.as_slice()) {
        Some(table)
    } else {
        None
    }
}

/// A valid table sums to zero modulo 256, and corrupting any single byte outside the
/// length field makes the table invalid.
pub proof fn lemma_checksum_detects_corruption(t: Seq<u8>, i: int, v: u8)
    requires
        table_valid(t),
        0 <= i < t.len(),
        !(4 <= i < 8),
        v != t[i],
    ensures
        byte_sum(t.subrange(0, le32(t, 4))) % 256 == 0,
        !table_valid(t.update(i, v)),
{
    assert(t.subrange(0, le32(t, 4)) =~= t);
    lemma_byte_sum_update(t, i, v);
    let u = t.update(i, v);
    assert(le32(u, 4) == le32(t, 4));
}

/// The header common to every system description table.
#[derive(Debug, Clone, Copy)]
pub struct ACPISDTHeader {
    pub signature: [u8; 4],
    /// The length of the table, including the header.
    pub length: u32,
    pub revision: u8,
    pub checksum: u8,
    pub oem_id: [u8; 6],
    pub oem_table_id: [u8; 8],
    pub oem_revision: u32,
    pub creator_id: u32,
    pub creator_revision: u32,
}

/// `h` holds the header fields found at the start of `t`.
pub open spec fn header_of(h: ACPISDTHeader, t: Seq<u8>) -> bool {
    &&& h.signature@ == t.subrange(0, 4)
    &&& h.length == le32(t, 4)
    &&& h.revision == t[8]
    &&& h.checksum == t[9]
    &&& h.oem_id@ == t.subrange(10, 16)
    &&& h.oem_table_id@ == t.subrange(16, 24)
    &&& h.oem_revision == le32(t, 24)
    &&& h.creator_id == le32(t, 28)
    &&& h.creator_revision == le32(t, 32)
}

/// A name for what `String::from_utf8_lossy` makes of a byte string.
pub uninterp spec fn utf8_lossy(b: Seq<u8>) -> Seq<char>;

/// All bytes of `b` are ASCII.
pub open spec fn is_ascii(b: Seq<u8>) -> bool {
    forall|i: int| 0 <= i < b.len() ==> b[i] < 0x80
}

/// Relies on `String::from_utf8_lossy`: valid UTF-8, and ASCII in particular,
/// comes out unchanged, one character per byte.
#[verifier::external_body]
pub(crate) fn lossy_string(b: &[u8]) -> (r: String)
    ensures
        r@ == utf8_lossy(b@),
        is_ascii(b@) ==> r@ == b@.map_values(|c: u8| c as char),
{
    String::from_utf8_lossy(b).into_owned()
}

impl ACPISDTHeader {
    /// Decodes the header at the start of `t`.
    pub fn parse(t: &[u8]) -> (r: Self)
        requires
            t@.len() >= HEADER_SIZE,
        ensures
            header_of(r, t@),
    {
        let r = ACPISDTHeader {
            signature: [t[0], t[1], t[2], t[3]],
            length: read_u32(t, 4),
            revision: t[8],
            checksum: t[9],
            oem_id: [t[10], t[11], t[12], t[13], t[14], t[15]],
            oem_table_id: [t[16], t[17], t[18], t[19], t[20], t[21], t[22], t[23]],
            oem_revision: read_u32(t, 24),
            creator_id: read_u32(t, 28),
            creator_revision: read_u32(t, 32),
        };
        assert(r.signature@ =~= t@.subrange(0, 4));
        assert(r.oem_id@ =~= t@.subrange(10, 16));
        assert(r.oem_table_id@ =~= t@.subrange(16, 24));
        r
    }

    /// The signature as text.
    pub fn signature(&self) -> (r: String)
        ensures
            r@ == utf8_lossy(self.signature@),
    {
        lossy_string(self.signature.as_slice())
    }
}

/// The root system description table: a header followed by 32-bit physical
/// addresses of the other tables.
pub struct RSDT {
    pub header: ACPISDTHeader,
    pub entries: Vec<u32>,
}

/// The table addresses listed in the root table `t`.
pub open spec fn rsdt_entries(t: Seq<u8>) -> Seq<u32> {
    Seq::new(
        ((t.len() - HEADER_SIZE) / 4) as nat,
        |k: int| le32(t, HEADER_SIZE + 4 * k) as u32,
    )
}

/// An iterator over the table addresses of a root table.
pub struct RSDTIterator {
    entries: Vec<u32>,
    index: usize,
}

impl View for RSDTIterator {
    type V = (Seq<u32>, int);

    closed spec fn view(&self) -> (Seq<u32>, int) {
        (self.entries@, self.index as int)
    }
}

impl RSDTIterator {
    /// The next table address, if any is left.
    pub fn next(&mut self) -> (r: Option<u32>)
        requires
            old(self)@.1 <= old(self)@.0.len(),
        ensures
            final(self)@.0 == old(self)@.0,
            final(self)@.1 <= final(self)@.0.len(),
            old(self)@.1 < old(self)@.0.len() ==> r == Some(old(self)@.0[old(self)@.1])
                && final(self)@.1 == old(self)@.1 + 1,
            old(self)@.1 == old(self)@.0.len() ==> r is None && final(self)@.1 == old(self)@.1,
    {
        if self.index >= self.entries.len() {
            return None;
        }
        let entry = self.entries[self.index];
        self.index = self.index + 1;
        Some(entry)
    }
}

/// The table at `addr` starts with the four signature bytes `sig`.
pub open spec fn has_signature(mem: PhysMemory, addr: u32, sig: Seq<u8>) -> bool {
    mem.read_spec(addr as int, 4) == Some(sig)
}

/// The first of `entries` whose table carries signature `sig`, if any does.
pub open spec fn first_with_signature(mem: PhysMemory, entries: Seq<u32>, sig: Seq<u8>) -> Option<
    u32,
> {
    if exists|k: int| 0 <= k < entries.len() && has_signature(mem, entries[k], sig) {
        let k = choose|k: int|
            0 <= k < entries.len() && has_signature(mem, entries[k], sig) && forall|j: int|
                0 <= j < k ==> !has_signature(mem, entries[j], sig);
        Some(entries[k])
    } else {
        None
    }
}

impl RSDT {
    /// Decodes a root table from its validated bytes.
    pub fn from_table(t: &[u8]) -> (r: Self)
        requires
            table_valid(t@),
        ensures
            header_of(r.header, t@),
            r.entries@ == rsdt_entries(t@),
    {
        let header = ACPISDTHeader::parse(t);
        let tl = t.len();
        let n = (tl - HEADER_SIZE) / 4;
        assert(HEADER_SIZE + 4 * n <= tl) by (nonlinear_arith)
            requires
                n == (tl - HEADER_SIZE) / 4,
                tl >= HEADER_SIZE,
        {
        }
        let mut entries: Vec<u32> = Vec::new();
        let mut k: usize = 0;
        while k < n
            invariant
                n == (t@.len() - HEADER_SIZE) / 4,
                tl == t@.len(),
                HEADER_SIZE + 4 * n <= tl,
                k <= n,
                entries@ =~= rsdt_entries(t@).subrange(0, k as int),
            decreases n - k,
        {
            entries.push(read_u32(t, HEADER_SIZE + 4 * k));
            k = k + 1;
        }
        assert(entries@ =~= rsdt_entries(t@));
        RSDT { header, entries }
    }

    /// Reads the root table at physical address `addr`.
    pub fn from_addr(mem: &PhysMemory, addr: u32) -> (r: Option<Self>)
        ensures
            r is Some <==> table_at(*mem, addr as int) is Some,
            r is Some ==> header_of(r->0.header, table_at(*mem, addr as int)->0)
                && r->0.entries@ == rsdt_entries(table_at(*mem, addr as int)->0),
    {
        match read_table(mem, addr as u64) {
            Some(t) => Some(RSDT::from_table(t.as_slice())),
            None => None,
        }
    }

    /// An iterator over the listed table addresses.
    pub fn entries(&self) -> (r: RSDTIterator)
        ensures
            r@ == (self.entries@, 0int),
    {
        RSDTIterator { entries: self.entries.clone(), index: 0 }
    }

    /// The address of the first listed table whose signature is `signature`.
    pub fn get_common(&self, mem: &PhysMemory, signature: &[u8; 4]) -> (r: Option<u32>)
        ensures
            r == first_with_signature(*mem, self.entries@, signature@),
    {
        let mut it = self.entries();
        let mut k: usize = 0;
        while k < self.entries.len()
            invariant
                it@ == (self.entries@, k as int),
                k <= self.entries@.len(),
                forall|j: int| 0 <= j < k ==> !has_signature(*mem, self.entries@[j], signature@),
            decreases self.entries@.len() - k,
        {
            let entry = match it.next() {
                Some(e) => e,
                None => return None,
            };
            let found = match mem.read(entry as u64, 4) {
                Some(sig) => sig.len() == 4 && sig[0] == signature[0] && sig[1] == signature[1]
                    && sig[2] == signature[2] && sig[3] == signature[3],
                None => false,
            };
            proof {
                if let Some(sig) = mem.read_spec(entry as int, 4) {
                    if found {
                        assert(sig =~= signature@);
                    }
                }
            }
            if found {
                proof {
                    let kk = k as int;
                    assert(has_signature(*mem, self.entries@[kk], signature@));
                    let c = choose|c: int|
                        0 <= c < self.entries@.len() && has_signature(*mem, self.entries@[c], signature@)
                            && forall|j: int|
                            0 <= j < c ==> !has_signature(*mem, self.entries@[j], signature@);
                    assert(c == kk) by {
                        if c < kk {
                        } else if c > kk {
                        }
                    }
                }
                return Some(entry);
            }
            k = k + 1;
        }
        None
    }
}


/// Signature of the interrupt-controller table.
pub open spec fn madt_signature() -> Seq<u8> {
    seq![0x41u8, 0x50u8, 0x49u8, 0x43u8]
}

/// Signature of the timer table.
pub open spec fn hpet_signature() -> Seq<u8> {
    seq![0x48u8, 0x50u8, 0x45u8, 0x54u8]
}

impl RSDT {
    /// The interrupt-controller table, found by its signature `APIC`.
    pub fn get_madt(&self, mem: &PhysMemory) -> (r: Option<MADT>)
        ensures
            match first_with_signature(*mem, self.entries@, madt_signature()) {
                None => r is None,
                Some(a) => (r is Some <==> (table_at(*mem, a as int) is Some && table_at(
                    *mem,
                    a as int,
                )->0.len() >= MADT_ENTRIES_OFFSET)) && (r is Some ==> madt_of(
                    r->0,
                    table_at(*mem, a as int)->0,
                )),
            },
    {
        let sig: [u8; 4] = [0x41, 0x50, 0x49, 0x43];
        assert(sig@ =~= madt_signature());
        let addr = match self.get_common(mem, &sig) {
            Some(a) => a,
            None => return None,
        };
        MADT::from_addr(mem, addr)
    }

    /// The timer table, found by its signature `HPET`.
    pub fn get_hpet(&self, mem: &PhysMemory) -> (r: Option<HPET>)
        ensures
            match first_with_signature(*mem, self.entries@, hpet_signature()) {
                None => r is None,
                Some(a) => (r is Some <==> (table_at(*mem, a as int) is Some && table_at(
                    *mem,
                    a as int,
                )->0.len() >= HPET_TABLE_SIZE)) && (r is Some ==> hpet_of(
                    r->0,
                    table_at(*mem, a as int)->0,
                )),
            },
    {
        let sig: [u8; 4] = [0x48, 0x50, 0x45, 0x54];
        assert(sig@ =~= hpet_signature());
        let addr = match self.get_common(mem, &sig) {
            Some(a) => a,
            None => return None,
        };
        HPET::new(mem, addr)
    }
}

} // verus!
