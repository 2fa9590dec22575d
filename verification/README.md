# kernel

The verified core of a small x86_64 hobby kernel booted by Limine.

- `src/` (Verus): the computations of the kernel, each with a contract.
  - `gdt`: segment descriptors, the five-entry flat table, the `lgdt` operand,
    and the 64-bit in-memory image of a descriptor.
  - `idt`: interrupt descriptors built from a handler address, the 256-entry
    table, the `lidt` operand, and the two-word in-memory image.
  - `serial`: port addressing, line-status bits, the bytes that a write sends,
    and the setup sequence of a 16550 line as a step function (state and event
    in, next state and port action out).
  - `cpuid`: the APIC feature bit and the writes that mask both 8259 PICs.
  - `lapic`: the local APIC register map, register addresses in the direct map,
    and the register writes of its initialisation.
- `app/`: the kernel binary. It performs what `src/` decides: port and MMIO
  accesses, `cpuid`, `lgdt`/`lidt`, the Limine requests, the panic handler.
- `tests/`: tests of the library on concrete values.
