pub mod bump_alloc;
pub mod bytes;
pub mod cmdline;
pub mod descriptors;
pub mod elf;
pub mod frame;
pub mod hpet;
pub mod ioapic;
pub mod madt;
pub mod paging;
pub mod phys;
pub mod rsdp;
pub mod rsdt;
pub mod util;
