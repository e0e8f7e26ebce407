//! A byte-level view of the physical memory that holds firmware tables.
//!
//! The boot glue copies each firmware region it knows of into a `PhysRegion`; the
//! table reader then only ever reads through `PhysMemory::read`, which refuses any
//! span that no single region covers.
use vstd::prelude::*;

verus! {

/// A copy of the physical bytes `[base, base + bytes.len())`.
pub struct PhysRegion {
    pub base: u64,
    pub bytes: Vec<u8>,
}

/// The physical memory known to the table reader, as a list of regions.
pub struct PhysMemory {
    pub regions: Vec<PhysRegion>,
}

/// Region `r` holds the whole span `[addr, addr + len)`.
pub open spec fn covers(r: PhysRegion, addr: int, len: int) -> bool {
    r.base <= addr && addr + len <= r.base + r.bytes@.len()
}

/// The bytes `[addr, addr + len)` as the first region that covers them holds them.
pub open spec fn read_regions(regions: Seq<PhysRegion>, addr: int, len: int) -> Option<Seq<u8>>
    decreases regions.len(),
{
    if regions.len() == 0 {
        None
    } else if covers(regions[0], addr, len) {
        Some(regions[0].bytes@.subrange(addr - regions[0].base, addr - regions[0].base + len))
    } else {
        read_regions(regions.drop_first(), addr, len)
    }
}

impl PhysMemory {
    /// The bytes `[addr, addr + len)`, if one region holds them all.
    pub open spec fn read_spec(&self, addr: int, len: int) -> Option<Seq<u8>> {
        read_regions(self.regions@, addr, len)
    }

    /// A memory that knows no region.
    pub fn new() -> (r: Self)
        ensures
            r.regions@.len() == 0,
    {
        PhysMemory { regions: Vec::new() }
    }

    /// Adds a copy of the bytes found at physical address `base`.
    pub fn add_region(&mut self, base: u64, bytes: Vec<u8>)
        ensures
            final(self).regions@ == old(self).regions@.push(PhysRegion { base, bytes }),
    {
        self.regions.push(PhysRegion { base, bytes });
    }

    /// Copies out the bytes `[addr, addr + len)`, or `None` when no region holds them.
    pub fn read(&self, addr: u64, len: usize) -> (r: Option<Vec<u8>>)
        ensures
            match r {
                Some(v) => self.read_spec(addr as int, len as int) == Some(v@) && v@.len() == len,
                None => self.read_spec(addr as int, len as int) is None,
            },
    {
        let mut i: usize = 0;
        assert(self.regions@.subrange(0, self.regions@.len() as int) =~= self.regions@);
        while i < self.regions.len()
            invariant
                i <= self.regions@.len(),
                self.read_spec(addr as int, len as int) == read_regions(
                    self.regions@.subrange(i as int, self.regions@.len() as int),
                    addr as int,
                    len as int,
                ),
            decreases self.regions@.len() - i,
        {
            let region = &self.regions[i];
            let n = region.bytes.len();
            let ghost rest = self.regions@.subrange(i as int, self.regions@.len() as int);
            assert(rest[0] == self.regions@[i as int]);
            assert(rest.drop_first() =~= self.regions@.subrange(i as int + 1, self.regions@.len() as int));
            if region.base <= addr && (addr - region.base) as u128 + len as u128 <= n as u128 {
                let start = (addr - region.base) as usize;
                let mut out: Vec<u8> = Vec::new();
                let mut k: usize = 0;
                while k < len
                    invariant
                        k <= len,
                        start + len <= n,
                        n == region.bytes@.len(),
                        out@ =~= region.bytes@.subrange(start as int, start + k),
                    decreases len - k,
                {
                    out.push(region.bytes[start + k]);
                    k = k + 1;
                }
                return Some(out);
            }
            i = i + 1;
        }
        None
    }
}

} // verus!
