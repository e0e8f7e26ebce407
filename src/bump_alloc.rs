//! A bump allocator for the kernel heap.
//!
//! The allocator keeps a cursor (`next`) that only moves forward while blocks are live.
//! Freeing a block only decrements the live-allocation count; once that count returns
//! to zero the whole heap is reclaimed at once by moving the cursor back to the start.
use crate::util::{align_up, is_pow2};
use vstd::prelude::*;

verus! {

/// The abstract state of a bump allocator.
pub struct BumpState {
    pub start: int,
    pub end: int,
    pub next: int,
    pub allocations: int,
}

/// The smallest multiple of `a` that is at least `x`.
pub open spec fn round_up(x: int, a: int) -> int {
    if x % a == 0 {
        x
    } else {
        x + a - x % a
    }
}

impl BumpState {
    /// The cursor lies inside the heap, and every value fits in a machine word.
    pub open spec fn wf(self) -> bool {
        &&& 0 <= self.start <= self.next <= self.end <= usize::MAX
        &&& 0 <= self.allocations <= usize::MAX
    }

    /// Whether a block of `size` bytes aligned to `align` can be handed out.
    pub open spec fn can_alloc(self, size: int, align: int) -> bool {
        &&& round_up(self.next, align) + size <= self.end
        &&& self.allocations < usize::MAX
    }

    /// The block that `alloc(size, align)` hands out, if any.
    pub open spec fn alloc_result(self, size: int, align: int) -> Option<int> {
        if self.can_alloc(size, align) {
            Some(round_up(self.next, align))
        } else {
            None
        }
    }

    /// The state after `alloc(size, align)`.
    pub open spec fn after_alloc(self, size: int, align: int) -> BumpState {
        if self.can_alloc(size, align) {
            BumpState {
                next: round_up(self.next, align) + size,
                allocations: self.allocations + 1,
                ..self
            }
        } else {
            self
        }
    }

    /// The state after one block is freed.
    pub open spec fn after_dealloc(self) -> BumpState {
        if self.allocations == 1 {
            BumpState { next: self.start, allocations: 0, ..self }
        } else {
            BumpState { allocations: self.allocations - 1, ..self }
        }
    }
}

/// A simple bump allocator.
#[derive(Debug)]
pub struct BumpAllocator {
    heap_start: usize,
    heap_end: usize,
    next: usize,
    allocations: usize,
}

impl View for BumpAllocator {
    type V = BumpState;

    closed spec fn view(&self) -> BumpState {
        BumpState {
            start: self.heap_start as int,
            end: self.heap_end as int,
            next: self.next as int,
            allocations: self.allocations as int,
        }
    }
}

impl BumpAllocator {
    /// Creates an empty allocator that manages no memory.
    pub fn new() -> (r: Self)
        ensures
            r@ == (BumpState { start: 0, end: 0, next: 0, allocations: 0 }),
    {
        Self { heap_start: 0, heap_end: 0, next: 0, allocations: 0 }
    }

    /// Gives the allocator the heap `[heap_start, heap_start + heap_size)`.
    pub fn init(&mut self, heap_start: usize, heap_size: usize)
        requires
            heap_start + heap_size <= usize::MAX,
            old(self)@.allocations >= 0,
        ensures
            final(self)@ == (BumpState {
                start: heap_start as int,
                end: heap_start + heap_size,
                next: heap_start as int,
                allocations: old(self)@.allocations,
            }),
    {
        self.heap_start = heap_start;
        self.heap_end = heap_start + heap_size;
        self.next = heap_start;
    }

    /// Hands out `size` bytes aligned to `align`, or `None` when the heap cannot hold them.
    pub fn allocate(&mut self, size: usize, align: usize) -> (r: Option<usize>)
        requires
            old(self)@.wf(),
            is_pow2(align as int),
        ensures
            final(self)@.wf(),
            old(self)@.alloc_result(size as int, align as int) == (match r {
                Some(a) => Some(a as int),
                None => None,
            }),
            final(self)@ == old(self)@.after_alloc(size as int, align as int),
    {
        proof {
            crate::util::lemma_mask_rounds_down(0, align as u64);
        }
        let alloc_start: usize;
        if self.next <= usize::MAX - (align - 1) {
            alloc_start = align_up(self.next, align);
            proof {
                lemma_round_up_is(self.next as int, align as int, alloc_start as int);
            }
        } else {
            let rem = self.next % align;
            if rem == 0 {
                alloc_start = self.next;
            } else if self.next <= usize::MAX - (align - rem) {
                alloc_start = self.next + (align - rem);
            } else {
                return None;
            }
        }
        if alloc_start > usize::MAX - size || alloc_start + size > self.heap_end
            || self.allocations == usize::MAX {
            None
        } else {
            self.next = alloc_start + size;
            self.allocations = self.allocations + 1;
            Some(alloc_start)
        }
    }

    /// How many handed-out blocks are still live.
    pub fn allocations(&self) -> (r: usize)
        ensures
            r == self@.allocations,
    {
        self.allocations
    }

    /// Frees one block; when none is left live the whole heap is reclaimed.
    pub fn deallocate(&mut self)
        requires
            old(self)@.wf(),
            old(self)@.allocations > 0,
        ensures
            final(self)@.wf(),
            final(self)@ == old(self)@.after_dealloc(),
    {
        self.allocations = self.allocations - 1;
        if self.allocations == 0 {
            self.next = self.heap_start;
        }
    }
}

/// The rounded-up cursor is the unique multiple of `a` in `[x, x + a)`.
proof fn lemma_round_up_is(x: int, a: int, r: int)
    requires
        a > 0,
        r % a == 0,
        x <= r < x + a,
    ensures
        round_up(x, a) == r,
{
    vstd::arithmetic::div_mod::lemma_fundamental_div_mod(x, a);
    vstd::arithmetic::div_mod::lemma_fundamental_div_mod(r, a);
    if x % a == 0 {
        assert(r / a == x / a) by (nonlinear_arith)
            requires
                a > 0, x == a * (x / a), r == a * (r / a), x <= r < x + a,
        {
        }
    } else {
        assert(r / a == x / a + 1) by (nonlinear_arith)
            requires
                a > 0, x == a * (x / a) + x % a, r == a * (r / a), 0 < x % a < a,
                x <= r < x + a,
        {
        }
        assert(r == a * (x / a) + a) by (nonlinear_arith)
            requires
                r / a == x / a + 1, r == a * (r / a),
        {
        }
    }
}

/// Round trip of an idle heap: two blocks handed out one after the other lie in
/// increasing order, each aligned as asked and inside the heap, without overlap;
/// once both are freed the cursor is back at the heap start, so a further request
/// that the start satisfies is served at the start itself.
pub proof fn lemma_bump_round_trip(
    h: BumpState,
    size1: int,
    align1: int,
    size2: int,
    align2: int,
    size3: int,
    align3: int,
)
    requires
        h.wf(),
        h.allocations == 0,
        h.next == h.start,
        align1 > 0,
        align2 > 0,
        align3 > 0,
        size1 > 0,
        size2 >= 0,
        size3 >= 0,
        h.alloc_result(size1, align1) is Some,
        h.after_alloc(size1, align1).alloc_result(size2, align2) is Some,
    ensures
        ({
            let r1 = h.alloc_result(size1, align1)->0;
            let h1 = h.after_alloc(size1, align1);
            let r2 = h1.alloc_result(size2, align2)->0;
            let h2 = h1.after_alloc(size2, align2);
            let h3 = h2.after_dealloc().after_dealloc();
            &&& h.start <= r1 < r2
            &&& r1 + size1 <= r2
            &&& r2 + size2 <= h.end
            &&& r1 % align1 == 0
            &&& r2 % align2 == 0
            &&& h3.allocations == 0
            &&& h3.next == h.start
            &&& (h.start % align3 == 0 && h.start + size3 <= h.end) ==> h3.alloc_result(
                size3,
                align3,
            ) == Some(h.start)
        }),
{
    let h1 = h.after_alloc(size1, align1);
    lemma_round_up_props(h.next, align1);
    lemma_round_up_props(h1.next, align2);
}

/// `round_up(x, a)` is a multiple of `a` in `[x, x + a)`.
proof fn lemma_round_up_props(x: int, a: int)
    requires
        a > 0,
    ensures
        round_up(x, a) % a == 0,
        x <= round_up(x, a) < x + a,
{
    vstd::arithmetic::div_mod::lemma_fundamental_div_mod(x, a);
    if x % a != 0 {
        vstd::arithmetic::div_mod::lemma_mod_multiples_vanish(x / a + 1, 0, a);
        assert(x + a - x % a == a * (x / a + 1)) by (nonlinear_arith)
            requires
                x == a * (x / a) + x % a,
        {
        }
        vstd::arithmetic::div_mod::lemma_mod_multiples_basic(x / a + 1, a);
    }
}


/// Start address of the kernel heap.
pub const HEAP_START: u64 = 0xffff_ffff_dead_0000;

/// Size of the kernel heap in bytes (100 KiB).
pub const HEAP_SIZE: u64 = 100 * 1024;

/// Hands the kernel heap region, once mapped, to the allocator (on a target whose
/// address space holds the region).
pub fn init_heap(allocator: &mut BumpAllocator)
    requires
        old(allocator)@.allocations >= 0,
        HEAP_START + HEAP_SIZE <= usize::MAX,
    ensures
        final(allocator)@ == (BumpState {
            start: HEAP_START as int,
            end: HEAP_START + HEAP_SIZE,
            next: HEAP_START as int,
            allocations: old(allocator)@.allocations,
        }),
{
    allocator.init(HEAP_START as usize, HEAP_SIZE as usize);
}

} // verus!
