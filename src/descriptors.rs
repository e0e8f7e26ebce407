//! Segment and interrupt-gate descriptors, and the registers that point at their tables.
use vstd::prelude::*;

verus! {

/// Size in bytes of the task state segment.
pub const TSS_SIZE: u64 = 104;

/// Size in bytes of the descriptor table built by `GDT::with_tss`.
pub const GDT_SIZE: u16 = 56;

/// Kernel code segment selector used by every interrupt gate.
pub const KERNEL_CODE_SELECTOR: u16 = 0x8;

/// Present, ring-0, 64-bit interrupt gate.
pub const INTERRUPT_GATE: u8 = 0x8e;

/// A legacy 8-byte segment descriptor.
#[derive(Clone, Copy, Debug)]
pub struct SegmentDescriptor32 {
    pub limit: u16,
    pub base_1: u16,
    pub base_2: u8,
    pub access_byte: u8,
    pub flags_limit: u8,
    pub base_3: u8,
}

/// A flat segment with limit 0xFFFF and base 0, with the given access and flag bytes.
pub open spec fn flat_segment(d: SegmentDescriptor32, access: u8, flags: u8) -> bool {
    &&& d.limit == 0xFFFF
    &&& d.base_1 == 0
    &&& d.base_2 == 0
    &&& d.access_byte == access
    &&& d.flags_limit == flags
    &&& d.base_3 == 0
}

impl SegmentDescriptor32 {
    /// The null descriptor.
    pub fn null() -> (r: Self)
        ensures
            r.limit == 0 && r.base_1 == 0 && r.base_2 == 0 && r.access_byte == 0 && r.flags_limit == 0
                && r.base_3 == 0,
    {
        Self { limit: 0, base_1: 0, base_2: 0, access_byte: 0, flags_limit: 0, base_3: 0 }
    }

    /// Ring-0 64-bit code.
    pub fn kernel_code() -> (r: Self)
        ensures
            flat_segment(r, 0x9A, 0xAF),
    {
        Self { limit: 0xFFFF, base_1: 0, base_2: 0, access_byte: 0x9A, flags_limit: 0xAF, base_3: 0 }
    }

    /// Ring-0 data.
    pub fn kernel_data() -> (r: Self)
        ensures
            flat_segment(r, 0x92, 0xCF),
    {
        Self { limit: 0xFFFF, base_1: 0, base_2: 0, access_byte: 0x92, flags_limit: 0xCF, base_3: 0 }
    }

    /// Ring-3 64-bit code.
    pub fn user_code() -> (r: Self)
        ensures
            flat_segment(r, 0xFA, 0xAF),
    {
        Self { limit: 0xFFFF, base_1: 0, base_2: 0, access_byte: 0xFA, flags_limit: 0xAF, base_3: 0 }
    }

    /// Ring-3 data.
    pub fn user_data() -> (r: Self)
        ensures
            flat_segment(r, 0xF2, 0xCF),
    {
        Self { limit: 0xFFFF, base_1: 0, base_2: 0, access_byte: 0xF2, flags_limit: 0xCF, base_3: 0 }
    }
}

/// A 16-byte system segment descriptor.
#[derive(Clone, Copy, Debug)]
pub struct SegmentDescriptor64 {
    pub limit: u16,
    pub base_1: u16,
    pub base_2: u8,
    pub access_byte: u8,
    pub flags_limit: u8,
    pub base_3: u8,
    pub base_4: u32,
    pub reserved: u32,
}

impl SegmentDescriptor64 {
    /// The descriptor of an available 64-bit task state segment at address `base`.
    pub fn tss(base: u64) -> (r: Self)
        ensures
            r.limit == TSS_SIZE,
            r.base_1 == base % 0x1_0000,
            r.base_2 == (base / 0x1_0000) % 0x100,
            r.access_byte == 0x89,
            r.flags_limit == 0,
            r.base_3 == (base / 0x100_0000) % 0x100,
            r.base_4 == base / 0x1_0000_0000,
            r.reserved == 0,
    {
        let base_1 = #[verifier::truncate] (base as u16);
        let base_2 = #[verifier::truncate] ((base >> 16u64) as u8);
        let base_3 = #[verifier::truncate] ((base >> 24u64) as u8);
        let base_4 = #[verifier::truncate] ((base >> 32u64) as u32);
        let flags_limit = #[verifier::truncate] ((TSS_SIZE >> 20u64) as u8);
        assert(flags_limit == 0) by (bit_vector)
            requires
                flags_limit == (104u64 >> 20u64) as u8,
        ;
        assert(base_1 == base % 0x1_0000 && base_2 == (base / 0x1_0000) % 0x100 && base_3 == (base
            / 0x100_0000) % 0x100 && base_4 == base / 0x1_0000_0000) by (bit_vector)
            requires
                base_1 == base as u16,
                base_2 == (base >> 16u64) as u8,
                base_3 == (base >> 24u64) as u8,
                base_4 == (base >> 32u64) as u32,
        ;
        Self {
            limit: TSS_SIZE as u16,
            base_1,
            base_2,
            access_byte: 0x89,
            flags_limit,
            base_3,
            base_4,
            reserved: 0,
        }
    }
}

/// The global descriptor table: null, kernel code and data, user code and data, and
/// the task state segment.
#[derive(Clone, Copy, Debug)]
pub struct GDT {
    pub null: SegmentDescriptor32,
    pub kernel_code: SegmentDescriptor32,
    pub kernel_data: SegmentDescriptor32,
    pub user_code: SegmentDescriptor32,
    pub user_data: SegmentDescriptor32,
    pub tss: SegmentDescriptor64,
}

impl GDT {
    /// The table whose task state segment is at address `tss_base`.
    pub fn with_tss(tss_base: u64) -> (r: Self)
        ensures
            r.null.access_byte == 0 && r.null.limit == 0,
            flat_segment(r.kernel_code, 0x9A, 0xAF),
            flat_segment(r.kernel_data, 0x92, 0xCF),
            flat_segment(r.user_code, 0xFA, 0xAF),
            flat_segment(r.user_data, 0xF2, 0xCF),
            r.tss.access_byte == 0x89,
            r.tss.base_1 == tss_base % 0x1_0000,
            r.tss.base_2 == (tss_base / 0x1_0000) % 0x100,
            r.tss.base_3 == (tss_base / 0x100_0000) % 0x100,
            r.tss.base_4 == tss_base / 0x1_0000_0000,
    {
        Self {
            null: SegmentDescriptor32::null(),
            kernel_code: SegmentDescriptor32::kernel_code(),
            kernel_data: SegmentDescriptor32::kernel_data(),
            user_code: SegmentDescriptor32::user_code(),
            user_data: SegmentDescriptor32::user_data(),
            tss: SegmentDescriptor64::tss(tss_base),
        }
    }
}

/// The operand of the instruction that loads the global descriptor table.
#[derive(Clone, Copy, Debug)]
pub struct GDTR {
    pub size: u16,
    pub offset: u64,
}

impl GDTR {
    /// Points at the table at address `gdt`.
    pub fn new(gdt: u64) -> (r: Self)
        ensures
            r.size == GDT_SIZE,
            r.offset == gdt,
    {
        Self { size: GDT_SIZE, offset: gdt }
    }
}

/// An interrupt-gate descriptor.
#[derive(Clone, Copy, Debug)]
pub struct InterruptDescriptor {
    pub offset_1: u16,
    pub selector: u16,
    pub ist: u8,
    pub type_attributes: u8,
    pub offset_2: u16,
    pub offset_3: u32,
    pub zero: u32,
}

/// `d` is a present ring-0 interrupt gate into kernel code at handler address `h`.
pub open spec fn gate_for(d: InterruptDescriptor, h: u64) -> bool {
    &&& d.offset_1 == h % 0x1_0000
    &&& d.offset_2 == (h / 0x1_0000) % 0x1_0000
    &&& d.offset_3 == h / 0x1_0000_0000
    &&& d.selector == KERNEL_CODE_SELECTOR
    &&& d.ist == 0
    &&& d.type_attributes == INTERRUPT_GATE
    &&& d.zero == 0
}

/// A present ring-0 interrupt gate into kernel code at handler address `handler`.
fn gate(handler: u64) -> (r: InterruptDescriptor)
    ensures
        gate_for(r, handler),
{
    let offset_1 = #[verifier::truncate] (handler as u16);
    let offset_2 = #[verifier::truncate] ((handler >> 16u64) as u16);
    let offset_3 = #[verifier::truncate] ((handler >> 32u64) as u32);
    assert(offset_1 == handler % 0x1_0000 && offset_2 == (handler / 0x1_0000) % 0x1_0000 && offset_3
        == handler / 0x1_0000_0000) by (bit_vector)
        requires
            offset_1 == handler as u16,
            offset_2 == (handler >> 16u64) as u16,
            offset_3 == (handler >> 32u64) as u32,
    ;
    InterruptDescriptor {
        offset_1,
        selector: KERNEL_CODE_SELECTOR,
        ist: 0,
        type_attributes: INTERRUPT_GATE,
        offset_2,
        offset_3,
        zero: 0,
    }
}

impl InterruptDescriptor {
    /// Gate for a handler without an error code.
    pub fn new_interrupt(handler: u64) -> (r: Self)
        ensures
            gate_for(r, handler),
    {
        gate(handler)
    }

    /// Gate for a trap handler without an error code.
    pub fn new_trap(handler: u64) -> (r: Self)
        ensures
            gate_for(r, handler),
    {
        gate(handler)
    }

    /// Gate for a handler that receives an error code.
    pub fn new_interrupt_error_code(handler: u64) -> (r: Self)
        ensures
            gate_for(r, handler),
    {
        gate(handler)
    }

    /// Gate for a trap handler that receives an error code.
    pub fn new_trap_error_code(handler: u64) -> (r: Self)
        ensures
            gate_for(r, handler),
    {
        gate(handler)
    }

    /// Gate for the page-fault handler.
    pub fn new_page_fault(handler: u64) -> (r: Self)
        ensures
            gate_for(r, handler),
    {
        gate(handler)
    }
}

/// The operand of the instruction that loads the interrupt descriptor table.
#[derive(Clone, Copy, Debug)]
pub struct IDTR {
    pub size: u16,
    pub offset: u64,
}

impl IDTR {
    /// Points at the 256-entry table at address `idt`.
    pub fn new(idt: u64) -> (r: Self)
        ensures
            r.size == 256 * 16 - 1,
            r.offset == idt,
    {
        Self { size: 256 * 16 - 1, offset: idt }
    }
}

} // verus!
