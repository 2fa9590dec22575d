//! Verified core of a small x86_64 kernel: descriptor-table encodings,
//! serial-port and local-APIC register logic, and CPU feature decoding.

pub mod gdt;
pub mod idt;
pub mod serial;
pub mod cpuid;
pub mod lapic;
