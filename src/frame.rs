//! The physical frame allocator: hands out the frames of the firmware-reported
//! usable memory in ascending order, never reusing one.
use vstd::prelude::*;

verus! {

/// Size in bytes of a physical frame.
pub const FRAME_SIZE: u64 = 4096;

/// What a memory-map entry describes.
#[derive(Debug, Clone, Copy, PartialEq, Eq, Structural)]
pub enum MemoryRegionType {
    Usable,
    Reserved,
    AcpiReclaimable,
    AcpiNvs,
    BadMemory,
    BootloaderReclaimable,
    KernelAndModules,
    Framebuffer,
}

/// One entry of the boot memory map: `len` bytes from `base`.
#[derive(Debug, Clone, Copy)]
pub struct MemoryRegion {
    pub base: u64,
    pub len: u64,
    pub typ: MemoryRegionType,
}

/// The first frame boundary at or above the base of region `r`.
pub open spec fn first_frame(r: MemoryRegion) -> int {
    if r.base % FRAME_SIZE == 0 {
        r.base as int
    } else {
        r.base + FRAME_SIZE - r.base % FRAME_SIZE
    }
}

/// How many whole frames region `r` holds; non-usable regions hold none.
pub open spec fn frame_count(r: MemoryRegion) -> int {
    if r.typ == MemoryRegionType::Usable && first_frame(r) <= r.base + r.len {
        (r.base + r.len - first_frame(r)) / FRAME_SIZE as int
    } else {
        0
    }
}

/// The frames of region `r`: every 4 KiB-aligned frame lying wholly inside it, in
/// ascending order.
pub open spec fn region_frames(r: MemoryRegion) -> Seq<u64> {
    Seq::new(frame_count(r) as nat, |k: int| (first_frame(r) + FRAME_SIZE * k) as u64)
}

/// The frames of all usable regions, region by region, in map order.
pub open spec fn usable_frames(map: Seq<MemoryRegion>) -> Seq<u64>
    decreases map.len(),
{
    if map.len() == 0 {
        Seq::empty()
    } else {
        usable_frames(map.drop_last()) + region_frames(map.last())
    }
}

/// Every region ends within the 64-bit address space.
pub open spec fn map_fits(map: Seq<MemoryRegion>) -> bool {
    forall|i: int| 0 <= i < map.len() ==> #[trigger] map[i].base + map[i].len <= u64::MAX
}

proof fn lemma_usable_frames_prefix(map: Seq<MemoryRegion>, j: int, n: int)
    requires
        0 <= j <= map.len(),
        0 <= n < usable_frames(map.subrange(0, j)).len(),
    ensures
        usable_frames(map.subrange(0, j)).len() <= usable_frames(map).len(),
        usable_frames(map)[n] == usable_frames(map.subrange(0, j))[n],
    decreases map.len() - j,
{
    if j < map.len() {
        let p = map.subrange(0, j + 1);
        assert(p.drop_last() =~= map.subrange(0, j));
        lemma_usable_frames_prefix(map, j + 1, n);
    } else {
        assert(map.subrange(0, j) =~= map);
    }
}

/// A frame allocator over the boot memory map.
pub struct BootInfoFrameAllocator {
    memory_map: Vec<MemoryRegion>,
    next: usize,
}

impl BootInfoFrameAllocator {
    /// All frames the allocator can ever hand out, in order.
    pub closed spec fn frames(&self) -> Seq<u64> {
        usable_frames(self.memory_map@)
    }

    /// How many frames have been handed out.
    pub closed spec fn handed_out(&self) -> int {
        self.next as int
    }

    /// The memory map fits the address space.
    pub closed spec fn wf(&self) -> bool {
        map_fits(self.memory_map@) && usable_frames(self.memory_map@).len() <= usize::MAX
    }

    /// An allocator over `memory_map` that has handed out nothing yet.
    pub fn init(memory_map: Vec<MemoryRegion>) -> (r: Self)
        requires
            map_fits(memory_map@),
            usable_frames(memory_map@).len() <= usize::MAX,
        ensures
            r.wf(),
            r.frames() == usable_frames(memory_map@),
            r.handed_out() == 0,
    {
        BootInfoFrameAllocator { memory_map, next: 0 }
    }

    /// The frame at position `n` of the usable frames, if there are that many.
    fn usable_frame(&self, n: usize) -> (r: Option<u64>)
        requires
            self.wf(),
        ensures
            n < self.frames().len() ==> r == Some(self.frames()[n as int]),
            n >= self.frames().len() ==> r is None,
    {
        let ghost map = self.memory_map@;
        let mut idx: u64 = n as u64;
        let mut i: usize = 0;
        while i < self.memory_map.len()
            invariant
                i <= map.len(),
                map == self.memory_map@,
                map_fits(map),
                idx + usable_frames(map.subrange(0, i as int)).len() == n,
            decreases map.len() - i,
        {
            let region = self.memory_map[i];
            proof {
                let p = map.subrange(0, i as int + 1);
                assert(p.drop_last() =~= map.subrange(0, i as int));
                assert(p.last() == region);
                assert(map[i as int] == region);
            }
            if region.typ == MemoryRegionType::Usable {
                let end = region.base + region.len;
                let rem = region.base % FRAME_SIZE;
                let mut count: u64 = 0;
                let mut first: u64 = region.base;
                if rem == 0 || region.len >= FRAME_SIZE - rem {
                    if rem != 0 {
                        first = region.base + (FRAME_SIZE - rem);
                    }
                    count = (end - first) / FRAME_SIZE;
                }
                assert(count == frame_count(region));
                if idx < count {
                    assert(first + FRAME_SIZE * idx + FRAME_SIZE <= end) by (nonlinear_arith)
                        requires
                            idx < count,
                            count == (end - first) / 4096,
                            first <= end,
                    {
                    }
                    let frame = first + FRAME_SIZE * idx;
                    proof {
                        lemma_usable_frames_prefix(map, i as int + 1, n as int);
                    }
                    return Some(frame);
                }
                idx = idx - count;
            }
            i = i + 1;
        }
        proof {
            assert(map.subrange(0, map.len() as int) =~= map);
        }
        None
    }

    /// Hands out the next usable frame; once all are gone, reports exhaustion
    /// with `None` and stays exhausted.
    pub fn allocate_frame(&mut self) -> (r: Option<u64>)
        requires
            old(self).wf(),
            old(self).handed_out() <= old(self).frames().len(),
        ensures
            final(self).wf(),
            final(self).frames() == old(self).frames(),
            final(self).handed_out() <= final(self).frames().len(),
            old(self).handed_out() < old(self).frames().len() ==> r == Some(
                old(self).frames()[old(self).handed_out()],
            ) && final(self).handed_out() == old(self).handed_out() + 1,
            old(self).handed_out() == old(self).frames().len() ==> r is None && final(self).handed_out()
                == old(self).handed_out(),
    {
        let frame = self.usable_frame(self.next);
        if frame.is_some() {
            self.next = self.next + 1;
        }
        frame
    }
}


/// Frame `f` lies wholly inside a usable region of `map`, at index `m`.
pub open spec fn frame_in_region(map: Seq<MemoryRegion>, m: int, f: int) -> bool {
    &&& 0 <= m < map.len()
    &&& map[m].typ == MemoryRegionType::Usable
    &&& map[m].base <= f
    &&& f + FRAME_SIZE <= map[m].base + map[m].len
}

/// No two usable regions of `map` overlap.
pub open spec fn usable_disjoint(map: Seq<MemoryRegion>) -> bool {
    forall|i: int, j: int|
        0 <= i < map.len() && 0 <= j < map.len() && i != j && map[i].typ == MemoryRegionType::Usable
            && map[j].typ == MemoryRegionType::Usable ==> map[i].base + map[i].len <= map[j].base
            || map[j].base + map[j].len <= map[i].base
}

proof fn lemma_first_frame(r: MemoryRegion)
    ensures
        first_frame(r) % FRAME_SIZE as int == 0,
        r.base <= first_frame(r),
{
    let b = r.base as int;
    vstd::arithmetic::div_mod::lemma_fundamental_div_mod(b, 4096);
    if b % 4096 != 0 {
        assert(b + 4096 - b % 4096 == 4096 * (b / 4096 + 1));
        vstd::arithmetic::div_mod::lemma_mod_multiples_basic(b / 4096 + 1, 4096);
    }
}

/// Every frame of region `r` is aligned and lies wholly inside `r`.
proof fn lemma_region_frame(r: MemoryRegion, k: int)
    requires
        0 <= k < frame_count(r),
        r.base + r.len <= u64::MAX,
    ensures
        region_frames(r)[k] == first_frame(r) + FRAME_SIZE * k,
        region_frames(r)[k] % FRAME_SIZE == 0,
        r.base <= region_frames(r)[k],
        region_frames(r)[k] + FRAME_SIZE <= r.base + r.len,
{
    lemma_first_frame(r);
    let f = first_frame(r);
    let e = r.base + r.len;
    assert(f + 4096 * k + 4096 <= e) by (nonlinear_arith)
        requires
            0 <= k < (e - f) / 4096,
            f <= e,
    {
    }
    vstd::arithmetic::div_mod::lemma_mod_multiples_vanish(k, f, 4096);
}

/// Every frame the allocator can hand out is 4 KiB-aligned and lies wholly inside one
/// usable region of the memory map.
pub proof fn lemma_frames_in_usable_memory(map: Seq<MemoryRegion>, n: int)
    requires
        map_fits(map),
        0 <= n < usable_frames(map).len(),
    ensures
        usable_frames(map)[n] % FRAME_SIZE == 0,
        exists|m: int| frame_in_region(map, m, usable_frames(map)[n] as int),
    decreases map.len(),
{
    let p = map.drop_last();
    let last = map.len() - 1;
    assert(map[last] == map.last());
    if n < usable_frames(p).len() {
        assert(map_fits(p)) by {
            assert forall|i: int| 0 <= i < p.len() implies #[trigger] p[i].base + p[i].len <= u64::MAX by {
                assert(p[i] == map[i]);
            }
        }
        lemma_frames_in_usable_memory(p, n);
        let m = choose|m: int| frame_in_region(p, m, usable_frames(p)[n] as int);
        assert(p[m] == map[m]);
        assert(frame_in_region(map, m, usable_frames(map)[n] as int));
    } else {
        let k = n - usable_frames(p).len();
        lemma_region_frame(map.last(), k);
        assert(frame_in_region(map, last, usable_frames(map)[n] as int));
    }
}

/// When no two usable regions overlap, no frame is handed out twice.
pub proof fn lemma_frames_distinct(map: Seq<MemoryRegion>, i: int, j: int)
    requires
        map_fits(map),
        usable_disjoint(map),
        0 <= i < j < usable_frames(map).len(),
    ensures
        usable_frames(map)[i] != usable_frames(map)[j],
    decreases map.len(),
{
    let p = map.drop_last();
    let last = map.len() - 1;
    let np = usable_frames(p).len();
    assert(map[last] == map.last());
    assert(map_fits(p)) by {
        assert forall|x: int| 0 <= x < p.len() implies #[trigger] p[x].base + p[x].len <= u64::MAX by {
            assert(p[x] == map[x]);
        }
    }
    assert(usable_disjoint(p)) by {
        assert forall|x: int, y: int|
            0 <= x < p.len() && 0 <= y < p.len() && x != y && p[x].typ == MemoryRegionType::Usable
                && p[y].typ == MemoryRegionType::Usable implies p[x].base + p[x].len <= p[y].base
            || p[y].base + p[y].len <= p[x].base by {
            assert(p[x] == map[x] && p[y] == map[y]);
        }
    }
    if j < np {
        lemma_frames_distinct(p, i, j);
    } else if i >= np {
        lemma_region_frame(map.last(), i - np);
        lemma_region_frame(map.last(), j - np);
    } else {
        lemma_frames_in_usable_memory(p, i);
        let m = choose|m: int| frame_in_region(p, m, usable_frames(p)[i] as int);
        assert(p[m] == map[m]);
        lemma_region_frame(map.last(), j - np);
        assert(frame_count(map.last()) > 0);
    }
}

} // verus!
