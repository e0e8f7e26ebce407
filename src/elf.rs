//! ELF64 file and program headers, and the check for what the loader supports.
use crate::bytes::{le16, le32, le64, read_u16, read_u32, read_u64};
use vstd::prelude::*;

verus! {

/// `\x7fELF` read as a little-endian word.
pub const ELF64_MAGIC: u32 = 0x464c_457f;
/// 64-bit objects.
pub const ELFCLASS64: u8 = 2;
/// Little-endian objects.
pub const ELFDATA2LSB: u8 = 1;
/// The x86-64 machine.
pub const EM_X86_64: u16 = 62;
/// The current ELF version.
pub const EV_CURRENT: u32 = 1;
/// Relocatable file.
pub const ET_REL: u16 = 1;
/// Executable file.
pub const ET_EXEC: u16 = 2;
/// Shared object file.
pub const ET_DYN: u16 = 3;
/// Loadable segment.
pub const PT_LOAD: u32 = 1;

/// Size in bytes of the file header.
pub const EHDR_SIZE: usize = 64;
/// Size in bytes of a program header.
pub const PHDR_SIZE: usize = 56;

/// The identification bytes at the start of the file.
#[allow(non_camel_case_types)]
#[derive(Debug, Copy, Clone)]
pub struct E_Ident {
    pub magic: u32,
    pub ei_class: u8,
    pub ei_data: u8,
    pub ei_version: u8,
    pub ei_osabi: u8,
    pub ei_abiversion: u8,
    pub ei_pad0: u32,
    pub ei_pad1: u16,
    pub ei_nident: u8,
}

/// The file header.
#[allow(non_camel_case_types)]
#[derive(Debug, Copy, Clone)]
pub struct Elf64_Ehdr {
    pub e_ident: E_Ident,
    pub e_type: u16,
    pub e_machine: u16,
    pub e_version: u32,
    pub e_entry: u64,
    pub e_phoff: u64,
    pub e_shoff: u64,
    pub e_flags: u32,
    pub e_ehsize: u16,
    pub e_phentsize: u16,
    pub e_phnum: u16,
    pub e_shentsize: u16,
    pub e_shnum: u16,
    pub e_shstrnfx: u16,
}

/// A program header, describing one segment.
#[allow(non_camel_case_types)]
#[derive(Debug, Copy, Clone)]
pub struct Elf64_Phdr {
    pub p_type: u32,
    pub p_flags: u32,
    pub p_offset: u64,
    pub p_vaddr: u64,
    pub p_paddr: u64,
    pub p_filesz: u64,
    pub p_memsz: u64,
    pub p_align: u64,
}

/// `h` holds the file header at the start of `b`.
pub open spec fn ehdr_of(h: Elf64_Ehdr, b: Seq<u8>) -> bool {
    &&& h.e_ident.magic == le32(b, 0)
    &&& h.e_ident.ei_class == b[4]
    &&& h.e_ident.ei_data == b[5]
    &&& h.e_ident.ei_version == b[6]
    &&& h.e_ident.ei_osabi == b[7]
    &&& h.e_ident.ei_abiversion == b[8]
    &&& h.e_ident.ei_pad0 == le32(b, 9)
    &&& h.e_ident.ei_pad1 == le16(b, 13)
    &&& h.e_ident.ei_nident == b[15]
    &&& h.e_type == le16(b, 16)
    &&& h.e_machine == le16(b, 18)
    &&& h.e_version == le32(b, 20)
    &&& h.e_entry == le64(b, 24)
    &&& h.e_phoff == le64(b, 32)
    &&& h.e_shoff == le64(b, 40)
    &&& h.e_flags == le32(b, 48)
    &&& h.e_ehsize == le16(b, 52)
    &&& h.e_phentsize == le16(b, 54)
    &&& h.e_phnum == le16(b, 56)
    &&& h.e_shentsize == le16(b, 58)
    &&& h.e_shnum == le16(b, 60)
    &&& h.e_shstrnfx == le16(b, 62)
}

/// `p` holds the program header at the start of `b`.
pub open spec fn phdr_of(p: Elf64_Phdr, b: Seq<u8>) -> bool {
    &&& p.p_type == le32(b, 0)
    &&& p.p_flags == le32(b, 4)
    &&& p.p_offset == le64(b, 8)
    &&& p.p_vaddr == le64(b, 16)
    &&& p.p_paddr == le64(b, 24)
    &&& p.p_filesz == le64(b, 32)
    &&& p.p_memsz == le64(b, 40)
    &&& p.p_align == le64(b, 48)
}

/// The loader can run a file with header `h`: a little-endian 64-bit x86-64 object
/// of the current version that is relocatable, executable, or shared.
pub open spec fn supported(h: Elf64_Ehdr) -> bool {
    &&& h.e_ident.magic == ELF64_MAGIC
    &&& h.e_ident.ei_class == ELFCLASS64
    &&& h.e_ident.ei_data == ELFDATA2LSB
    &&& h.e_machine == EM_X86_64
    &&& h.e_version == EV_CURRENT
    &&& (h.e_type == ET_REL || h.e_type == ET_EXEC || h.e_type == ET_DYN)
}

impl Elf64_Ehdr {
    /// Decodes the file header at the start of `b`.
    pub fn parse(b: &[u8]) -> (r: Self)
        requires
            b@.len() >= EHDR_SIZE,
        ensures
            ehdr_of(r, b@),
    {
        Elf64_Ehdr {
            e_ident: E_Ident {
                magic: read_u32(b, 0),
                ei_class: b[4],
                ei_data: b[5],
                ei_version: b[6],
                ei_osabi: b[7],
                ei_abiversion: b[8],
                ei_pad0: read_u32(b, 9),
                ei_pad1: read_u16(b, 13),
                ei_nident: b[15],
            },
            e_type: read_u16(b, 16),
            e_machine: read_u16(b, 18),
            e_version: read_u32(b, 20),
            e_entry: read_u64(b, 24),
            e_phoff: read_u64(b, 32),
            e_shoff: read_u64(b, 40),
            e_flags: read_u32(b, 48),
            e_ehsize: read_u16(b, 52),
            e_phentsize: read_u16(b, 54),
            e_phnum: read_u16(b, 56),
            e_shentsize: read_u16(b, 58),
            e_shnum: read_u16(b, 60),
            e_shstrnfx: read_u16(b, 62),
        }
    }
}

impl Elf64_Phdr {
    /// Decodes the program header at the start of `b`.
    pub fn parse(b: &[u8]) -> (r: Self)
        requires
            b@.len() >= PHDR_SIZE,
        ensures
            phdr_of(r, b@),
    {
        Elf64_Phdr {
            p_type: read_u32(b, 0),
            p_flags: read_u32(b, 4),
            p_offset: read_u64(b, 8),
            p_vaddr: read_u64(b, 16),
            p_paddr: read_u64(b, 24),
            p_filesz: read_u64(b, 32),
            p_memsz: read_u64(b, 40),
            p_align: read_u64(b, 48),
        }
    }
}

/// Whether the loader supports the file with header `elf_header`.
pub fn check_elf_support(elf_header: &Elf64_Ehdr) -> (r: bool)
    ensures
        r == supported(*elf_header),
{
    if elf_header.e_ident.magic != ELF64_MAGIC {
        return false;
    }
    if elf_header.e_ident.ei_class != ELFCLASS64 {
        return false;
    }
    if elf_header.e_ident.ei_data != ELFDATA2LSB {
        return false;
    }
    if elf_header.e_machine != EM_X86_64 {
        return false;
    }
    if elf_header.e_version != EV_CURRENT {
        return false;
    }
    let etype = elf_header.e_type;
    etype == ET_REL || etype == ET_EXEC || etype == ET_DYN
}

} // verus!
