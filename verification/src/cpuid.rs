use vstd::prelude::*;
use crate::serial::PortWrite;

verus! {

/// Bit of the `cpuid` leaf 1 EDX register that reports an on-chip local APIC.
pub const APIC_BIT: u32 = 9;

/// Model-specific register that holds the local APIC base address.
pub const IA32_APIC_BASE_MSR: u64 = 0x1b;

/// I/O port of the command register of the master 8259 interrupt controller.
pub const PIC_MASTER: u16 = 0x20;

/// I/O port of the command register of the slave 8259 interrupt controller.
pub const PIC_SLAVE: u16 = 0xA0;

/// Whether the EDX value of `cpuid` leaf 1 reports a local APIC (bit 9 set).
pub fn apic_available(info: u32) -> (b: bool)
    ensures
        b == ((info / 512) % 2 == 1),
{
    let masked: u32 = info & (1u32 << APIC_BIT);
    assert((masked != 0) == ((info / 512) % 2 == 1)) by (bit_vector)
        requires masked == info & (1u32 << 9u32);
    masked != 0
}

/// The port writes that mask every interrupt line of both 8259 controllers:
/// 0xFF to the data port (command port + 1) of the master, then of the slave.
pub fn disable_pci_writes() -> (w: [PortWrite; 2])
    ensures
        w@ == seq![
            PortWrite { port: (PIC_MASTER + 1) as u16, value: 0xFF },
            PortWrite { port: (PIC_SLAVE + 1) as u16, value: 0xFF },
        ],
{
    let w = [
        PortWrite { port: PIC_MASTER + 1, value: 0xff },
        PortWrite { port: PIC_SLAVE + 1, value: 0xff },
    ];
    assert(w@ =~= seq![
        PortWrite { port: (PIC_MASTER + 1) as u16, value: 0xFF },
        PortWrite { port: (PIC_SLAVE + 1) as u16, value: 0xFF },
    ]);
    w
}

} // verus!
