use blaze::elf::{check_elf_support, Elf64_Ehdr, Elf64_Phdr};

fn header(class: u8, data: u8, etype: u16, machine: u16, version: u32) -> Vec<u8> {
    let mut b = vec![0x7f, b'E', b'L', b'F', class, data, 1, 0, 0, 0, 0, 0, 0, 0, 0, 0];
    b.extend_from_slice(&etype.to_le_bytes());
    b.extend_from_slice(&machine.to_le_bytes());
    b.extend_from_slice(&version.to_le_bytes());
    b.extend_from_slice(&0x40_1000u64.to_le_bytes());
    b.extend_from_slice(&64u64.to_le_bytes());
    b.extend_from_slice(&0u64.to_le_bytes());
    b.extend_from_slice(&0u32.to_le_bytes());
    for v in [64u16, 56, 2, 64, 0, 0] {
        b.extend_from_slice(&v.to_le_bytes());
    }
    b
}

#[test]
fn supported_executable() {
    let h = Elf64_Ehdr::parse(&header(2, 1, 2, 62, 1));
    assert!(check_elf_support(&h));
    assert_eq!(h.e_entry, 0x40_1000);
    assert_eq!(h.e_phoff, 64);
    assert_eq!(h.e_phnum, 2);
    assert_eq!(h.e_phentsize, 56);
}

#[test]
fn unsupported_headers() {
    assert!(!check_elf_support(&Elf64_Ehdr::parse(&header(1, 1, 2, 62, 1))));
    assert!(!check_elf_support(&Elf64_Ehdr::parse(&header(2, 2, 2, 62, 1))));
    assert!(!check_elf_support(&Elf64_Ehdr::parse(&header(2, 1, 4, 62, 1))));
    assert!(!check_elf_support(&Elf64_Ehdr::parse(&header(2, 1, 2, 3, 1))));
    assert!(!check_elf_support(&Elf64_Ehdr::parse(&header(2, 1, 2, 62, 0))));
    let mut bad_magic = header(2, 1, 3, 62, 1);
    bad_magic[1] = b'X';
    assert!(!check_elf_support(&Elf64_Ehdr::parse(&bad_magic)));
}

#[test]
fn program_header_fields() {
    let mut b = Vec::new();
    b.extend_from_slice(&1u32.to_le_bytes());
    b.extend_from_slice(&5u32.to_le_bytes());
    for v in [0x1000u64, 0x40_0000, 0x40_0000, 0x234, 0x1234, 0x1000] {
        b.extend_from_slice(&v.to_le_bytes());
    }
    let p = Elf64_Phdr::parse(&b);
    assert_eq!((p.p_type, p.p_flags), (1, 5));
    assert_eq!((p.p_offset, p.p_vaddr, p.p_filesz, p.p_memsz, p.p_align), (0x1000, 0x40_0000, 0x234, 0x1234, 0x1000));
}
