use vstd::prelude::*;

verus! {

// Register indices of the local APIC, in 32-bit words from its base.
/// ID register.
pub const ID: usize = 0x0020 / 4;
/// Version register.
pub const VER: usize = 0x0030 / 4;
/// Task priority register.
pub const TPR: usize = 0x0080 / 4;
/// End-of-interrupt register.
pub const EOI: usize = 0x00B0 / 4;
/// Spurious interrupt vector register.
pub const SVR: usize = 0x00F0 / 4;
/// Unit enable bit of the spurious interrupt vector register.
pub const ENABLE: u32 = 0x00000100;
/// Error status register.
pub const ESR: usize = 0x0280 / 4;
/// Interrupt command register, bits 0..32.
pub const ICRLO: usize = 0x0300 / 4;
/// INIT/RESET delivery mode.
pub const INIT: u32 = 0x00000500;
/// Startup IPI delivery mode.
pub const STARTUP: u32 = 0x00000600;
/// Delivery status bit.
pub const DELIVS: u32 = 0x00001000;
/// Assert interrupt (as opposed to deassert).
pub const ASSERT: u32 = 0x00004000;
/// Deassert interrupt.
pub const DEASSERT: u32 = 0x00000000;
/// Level-triggered.
pub const LEVEL: u32 = 0x00008000;
/// Send to all APICs, including self.
pub const BCAST: u32 = 0x00080000;
/// Busy bit.
pub const BUSY: u32 = 0x00001000;
/// Fixed delivery mode.
pub const FIXED: u32 = 0x00000000;
/// Interrupt command register, bits 32..64.
pub const ICRHI: usize = 0x0310 / 4;
/// Local vector table entry 0 (timer).
pub const TIMER: usize = 0x0320 / 4;
/// Timer divides counts by 1.
pub const X1: u32 = 0x0000000B;
/// Periodic timer mode.
pub const PERIODIC: u32 = 0x00020000;
/// Performance counter local vector table entry.
pub const PCINT: usize = 0x0340 / 4;
/// Local vector table entry 1 (LINT0).
pub const LINT0: usize = 0x0350 / 4;
/// Local vector table entry 2 (LINT1).
pub const LINT1: usize = 0x0360 / 4;
/// Local vector table entry 3 (error).
pub const ERROR: usize = 0x0370 / 4;
/// Interrupt masked bit.
pub const MASKED: u32 = 0x00010000;
/// Timer initial count register.
pub const TICR: usize = 0x0380 / 4;
/// Timer current count register.
pub const TCCR: usize = 0x0390 / 4;
/// Timer divide configuration register.
pub const TDCR: usize = 0x03E0 / 4;

/// Offset, from the start of the higher-half direct map, of the base from
/// which local APIC register words are addressed. The value is kept as the
/// kernel has always used it; it is not the architectural physical base
/// 0xFEE00000.
pub const LAPIC_OFFSET: u64 = 0xFEE0000;

/// A write of `value` to the 32-bit local APIC register at word `index`.
#[derive(Clone, Copy, Debug, PartialEq, Eq, Structural)]
pub struct LapicWrite {
    pub index: usize,
    pub value: u32,
}

/// The address of the 32-bit register at word `index` of the local APIC,
/// whose registers start `LAPIC_OFFSET` bytes past the direct-map offset.
pub open spec fn register_address_spec(hhdm_offset: u64, index: usize) -> int {
    hhdm_offset + LAPIC_OFFSET + 4 * index
}

/// The virtual address of local APIC register word `index`, given the
/// offset of the bootloader's higher-half direct map.
pub fn register_address(hhdm_offset: u64, index: usize) -> (a: u64)
    requires
        register_address_spec(hhdm_offset, index) <= u64::MAX,
    ensures
        a == register_address_spec(hhdm_offset, index),
        a == hhdm_offset + 0xFEE0000 + 4 * index,
{
    let base: u64 = hhdm_offset + LAPIC_OFFSET;
    let idx: u64 = index as u64;
    base + 4 * idx
}

/// The address of register word `index` is the direct-map offset plus
/// 0xFEE0000 plus four bytes per word, so consecutive words are four bytes
/// apart and word 0 is the base itself.
pub proof fn lemma_register_address_formula(hhdm_offset: u64, index: usize)
    ensures
        register_address_spec(hhdm_offset, index) == hhdm_offset + 0xFEE0000 + 4 * index,
        register_address_spec(hhdm_offset, 0) == hhdm_offset + 0xFEE0000,
        index < usize::MAX ==> register_address_spec(hhdm_offset, (index + 1) as usize)
            == register_address_spec(hhdm_offset, index) + 4,
{
}

/// Distinct register words have distinct addresses, each 4-byte aligned
/// relative to the APIC base and at least that base.
pub proof fn lemma_register_addresses_distinct(hhdm_offset: u64, i: usize, j: usize)
    ensures
        register_address_spec(hhdm_offset, i) >= hhdm_offset + LAPIC_OFFSET,
        (register_address_spec(hhdm_offset, i) - (hhdm_offset + LAPIC_OFFSET)) % 4 == 0,
        i != j ==> register_address_spec(hhdm_offset, i) != register_address_spec(hhdm_offset, j),
{
}

/// The register writes that bring up the local APIC, in order, as
/// (word index, value): (0x80, 0), (0xd0, 0x01000000), (0xe0, 0xffffffff) and
/// (0xf0, 0x1ff). The indices are the kernel's own values: they are the byte
/// offsets of the task priority, logical destination, destination format and
/// spurious vector registers, but they are used as word indices, so the writes
/// land at bytes 0x200, 0x340, 0x380 and 0x3C0 past the base.
pub open spec fn init_writes_spec() -> Seq<LapicWrite> {
    seq![
        LapicWrite { index: 0x0080, value: 0 },
        LapicWrite { index: 0x00d0, value: 0x01000000 },
        LapicWrite { index: 0x00e0, value: 0xffffffff },
        LapicWrite { index: 0x00f0, value: 0x1ff },
    ]
}

/// The register writes of `init_lapic`, in order.
pub fn init_lapic_writes() -> (w: [LapicWrite; 4])
    ensures
        w@ == init_writes_spec(),
{
    assert(0x100u32 | 0xffu32 == 0x1ffu32) by (bit_vector);
    let w = [
        LapicWrite { index: 0x0080, value: 0 },
        LapicWrite { index: 0x00d0, value: 0x01000000 },
        LapicWrite { index: 0x00e0, value: 0xffffffff },
        LapicWrite { index: 0x00f0, value: 0x100 | 0xff },
    ];
    assert(w@ =~= init_writes_spec());
    w
}

} // verus!
