//! Pages, page-table entries, and the four-level page-table walk.
use crate::bytes::{le64, read_u64};
use crate::phys::PhysMemory;
use crate::util::{align_down, is_aligned, is_pow2};
use core::marker::PhantomData;
use vstd::arithmetic::power2::pow2;
use vstd::prelude::*;

verus! {

/// A size of page.
pub trait PageSize {
    /// The size in bytes.
    spec fn spec_size() -> u64;

    /// The size in bytes, a power of two.
    fn size() -> (r: u64)
        ensures
            r == Self::spec_size(),
            is_pow2(r as int);
}

/// 4 KiB pages.
pub struct Size4KiB;

/// 2 MiB pages.
pub struct Size2MiB;

/// 1 GiB pages.
pub struct Size1GiB;

impl PageSize for Size4KiB {
    open spec fn spec_size() -> u64 {
        0x1000
    }

    fn size() -> (r: u64) {
        proof {
            vstd::arithmetic::power2::lemma2_to64();
            assert(pow2(12) == 0x1000);
        }
        0x1000
    }
}

impl PageSize for Size2MiB {
    open spec fn spec_size() -> u64 {
        0x20_0000
    }

    fn size() -> (r: u64) {
        proof {
            vstd::arithmetic::power2::lemma2_to64();
            assert(pow2(21) == 0x20_0000);
        }
        0x20_0000
    }
}

impl PageSize for Size1GiB {
    open spec fn spec_size() -> u64 {
        0x4000_0000
    }

    fn size() -> (r: u64) {
        proof {
            vstd::arithmetic::power2::lemma2_to64();
            assert(pow2(30) == 0x4000_0000);
        }
        0x4000_0000
    }
}

/// A virtual page, identified by its start address.
pub struct Page<S: PageSize> {
    pub address: u64,
    pub size: PhantomData<S>,
}

impl<S: PageSize> Page<S> {
    /// The page containing `addr`: an unaligned address is rounded down.
    pub fn from_address(addr: u64) -> (r: Self)
        ensures
            r.address == addr - addr % S::spec_size(),
    {
        let size = S::size();
        if !is_aligned(addr, size) {
            Page { address: align_down(addr, size), size: PhantomData }
        } else {
            Page { address: addr, size: PhantomData }
        }
    }
}

/// Entry flag: the entry is present.
pub const PRESENT: u64 = 1;

/// Entry flag: the mapped memory is writable.
pub const WRITABLE: u64 = 2;

/// Entry flag: the mapped memory is accessible from user mode.
pub const USER_ACCESSIBLE: u64 = 4;

/// Entry flag: the entry maps a huge page instead of pointing at a table.
pub const HUGE_PAGE: u64 = 0x80;

/// The physical-address bits (51..12) of an entry.
pub const ADDRESS_MASK: u64 = 0x000f_ffff_ffff_f000;

/// Why a page-table walk stopped.
#[derive(Debug, Clone, Copy, PartialEq, Eq)]
pub enum TranslateError {
    /// An entry on the way is not present.
    NotPresent,
    /// An entry on the way maps a huge page.
    HugeFrame,
    /// A table on the way is not in the known memory.
    Unreadable,
}

/// The frame an entry refers to, or why it refers to none.
pub open spec fn entry_frame_spec(entry: u64) -> Result<u64, TranslateError> {
    if entry & PRESENT == 0 {
        Err(TranslateError::NotPresent)
    } else if entry & HUGE_PAGE != 0 {
        Err(TranslateError::HugeFrame)
    } else {
        Ok(entry & ADDRESS_MASK)
    }
}

/// The frame a page-table entry refers to.
pub fn entry_frame(entry: u64) -> (r: Result<u64, TranslateError>)
    ensures
        r == entry_frame_spec(entry),
{
    if entry & PRESENT == 0 {
        Err(TranslateError::NotPresent)
    } else if entry & HUGE_PAGE != 0 {
        Err(TranslateError::HugeFrame)
    } else {
        Ok(entry & ADDRESS_MASK)
    }
}

/// The index into the level-`level` table (4 is the root) for virtual address `addr`:
/// nine bits each, above the 12-bit page offset.
pub open spec fn table_index(addr: u64, level: int) -> int {
    if level == 4 {
        ((addr / 0x80_0000_0000) % 512) as int
    } else if level == 3 {
        ((addr / 0x4000_0000) % 512) as int
    } else if level == 2 {
        ((addr / 0x20_0000) % 512) as int
    } else {
        ((addr / 0x1000) % 512) as int
    }
}

/// The index into the level-`level` table for virtual address `addr`.
pub fn page_table_index(addr: u64, level: u8) -> (r: u64)
    requires
        1 <= level <= 4,
    ensures
        r == table_index(addr, level as int),
        r < 512,
{
    let r = if level == 4 {
        (addr >> 39u64) & 0x1ff
    } else if level == 3 {
        (addr >> 30u64) & 0x1ff
    } else if level == 2 {
        (addr >> 21u64) & 0x1ff
    } else {
        (addr >> 12u64) & 0x1ff
    };
    assert((addr >> 39u64) & 0x1ff == (addr / 0x80_0000_0000) % 512) by (bit_vector);
    assert((addr >> 30u64) & 0x1ff == (addr / 0x4000_0000) % 512) by (bit_vector);
    assert((addr >> 21u64) & 0x1ff == (addr / 0x20_0000) % 512) by (bit_vector);
    assert((addr >> 12u64) & 0x1ff == (addr / 0x1000) % 512) by (bit_vector);
    r
}

/// The walk from the table at physical address `table` through levels `level..1`.
pub open spec fn walk(mem: PhysMemory, table: u64, addr: u64, level: int) -> Result<u64, TranslateError>
    decreases level,
{
    if level <= 0 {
        Ok((table + addr % 0x1000) as u64)
    } else {
        match mem.read_spec(table + 8 * table_index(addr, level), 8) {
            None => Err(TranslateError::Unreadable),
            Some(b) => match entry_frame_spec(le64(b, 0) as u64) {
                Err(e) => Err(e),
                Ok(f) => walk(mem, f, addr, level - 1),
            },
        }
    }
}

/// Translates virtual address `addr` through the four-level tables whose root is at
/// physical address `root`, reading the tables from `mem`.
pub fn translate_addr_inner(mem: &PhysMemory, root: u64, addr: u64) -> (r: Result<u64, TranslateError>)
    requires
        root & ADDRESS_MASK == root,
    ensures
        r == walk(*mem, root, addr, 4),
{
    let mut frame = root;
    let mut level: u8 = 4;
    while level > 0
        invariant
            level <= 4,
            frame & ADDRESS_MASK == frame,
            walk(*mem, root, addr, 4) == walk(*mem, frame, addr, level as int),
        decreases level,
    {
        let index = page_table_index(addr, level);
        assert(frame <= 0x000f_ffff_ffff_f000) by (bit_vector)
            requires
                frame & 0x000f_ffff_ffff_f000u64 == frame,
        ;
        let bytes = match mem.read(frame + 8 * index, 8) {
            Some(b) => b,
            None => return Err(TranslateError::Unreadable),
        };
        let entry = read_u64(bytes.as_slice(), 0);
        frame = match entry_frame(entry) {
            Ok(f) => f,
            Err(e) => return Err(e),
        };
        assert(frame & 0x000f_ffff_ffff_f000u64 == frame) by (bit_vector)
            requires
                frame == entry & 0x000f_ffff_ffff_f000u64,
        ;
        level = level - 1;
    }
    assert(frame <= 0x000f_ffff_ffff_f000) by (bit_vector)
        requires
            frame & 0x000f_ffff_ffff_f000u64 == frame,
    ;
    let offset = addr & 0xfff;
    assert(offset == addr % 0x1000) by (bit_vector)
        requires
            offset == addr & 0xfff,
    ;
    Ok(frame + offset)
}

/// The flags of a fresh mapping: present and writable, and user-accessible if asked.
pub fn mapping_flags(user: bool) -> (r: u64)
    ensures
        r == if user {
            PRESENT | WRITABLE | USER_ACCESSIBLE
        } else {
            PRESENT | WRITABLE
        },
{
    let mut flags = PRESENT | WRITABLE;
    if user {
        flags = flags | USER_ACCESSIBLE;
    }
    flags
}

/// The first and last 4 KiB page that the region `[start, start + size)` touches.
pub fn page_range(start: u64, size: u64) -> (r: (u64, u64))
    requires
        size > 0,
        start + size - 1 <= u64::MAX,
    ensures
        r.0 == start - start % 0x1000,
        r.1 == (start + size - 1) - (start + size - 1) % 0x1000,
{
    let end = start + (size - 1);
    let first = Page::<Size4KiB>::from_address(start);
    let last = Page::<Size4KiB>::from_address(end);
    (first.address, last.address)
}

} // verus!
