use vstd::prelude::*;
use crate::gdt::KERNEL_CODE_SELECTOR;

verus! {

/// One 16-byte descriptor of the interrupt descriptor table.
#[derive(Clone, Copy, Debug, PartialEq, Eq, Structural)]
pub struct IDTEntry {
    pub isr_low: u16,
    pub kernel_cs: u16,
    pub ist: u8,
    pub attributes: u8,
    pub isr_mid: u16,
    pub isr_high: u32,
    pub reserved: u32,
}

/// Number of entries in the table.
pub const IDT_ENTRIES: usize = 256;

/// Size in bytes of one descriptor.
pub const IDT_ENTRY_SIZE: usize = 16;

/// Vector of the divide-error exception.
pub const DIVIDE_ERROR_VECTOR: u8 = 0;

/// Attributes of a present, ring-0, 64-bit trap entry.
pub const TRAP_GATE: u8 = 0x8F;

/// The entry with every field zero (a not-present entry).
pub open spec fn zeroed_spec() -> IDTEntry {
    IDTEntry {
        isr_low: 0,
        kernel_cs: 0,
        ist: 0,
        attributes: 0,
        isr_mid: 0,
        isr_high: 0,
        reserved: 0,
    }
}

/// The entry for a handler at address `handler` with type/attribute byte
/// `flags`: the address split into bits 0..16, 16..32 and 32..64, the kernel
/// code segment selector, no interrupt stack.
pub open spec fn entry_spec(handler: u64, flags: u8) -> IDTEntry {
    IDTEntry {
        isr_low: (handler % 0x1_0000) as u16,
        kernel_cs: 0x0008,
        ist: 0,
        attributes: flags,
        isr_mid: ((handler / 0x1_0000) % 0x1_0000) as u16,
        isr_high: (handler / 0x1_0000_0000) as u32,
        reserved: 0,
    }
}

/// The handler address that an entry points at.
pub open spec fn handler_address(e: IDTEntry) -> int {
    e.isr_low + e.isr_mid * 0x1_0000 + e.isr_high * 0x1_0000_0000
}

/// The low 64-bit word of an entry as the processor reads it from memory:
/// isr_low, kernel_cs, ist, attributes and isr_mid at byte offsets 0, 2, 4,
/// 5 and 6.
pub open spec fn low_word_spec(e: IDTEntry) -> int {
    e.isr_low + e.kernel_cs * 0x1_0000 + e.ist * 0x1_0000_0000 + e.attributes * 0x100_0000_0000
        + e.isr_mid * 0x1_0000_0000_0000
}

/// The high 64-bit word of an entry: isr_high, then the reserved field.
pub open spec fn high_word_spec(e: IDTEntry) -> int {
    e.isr_high + e.reserved * 0x1_0000_0000
}

/// Reads the fields of an entry back from its two 64-bit words.
pub open spec fn decode_spec(low: u64, high: u64) -> IDTEntry {
    IDTEntry {
        isr_low: (low % 0x1_0000) as u16,
        kernel_cs: ((low / 0x1_0000) % 0x1_0000) as u16,
        ist: ((low / 0x1_0000_0000) % 0x100) as u8,
        attributes: ((low / 0x100_0000_0000) % 0x100) as u8,
        isr_mid: (low / 0x1_0000_0000_0000) as u16,
        isr_high: (high % 0x1_0000_0000) as u32,
        reserved: (high / 0x1_0000_0000) as u32,
    }
}

impl IDTEntry {
    /// An entry with every field zero.
    pub fn zeroed() -> (e: Self)
        ensures
            e == zeroed_spec(),
    {
        IDTEntry {
            isr_low: 0,
            kernel_cs: 0,
            ist: 0,
            attributes: 0,
            isr_mid: 0,
            isr_high: 0,
            reserved: 0,
        }
    }

    /// The entry for the handler at address `handler` with attributes `flags`.
    pub fn new(handler: u64, flags: u8) -> (e: Self)
        ensures
            e == entry_spec(handler, flags),
            e.reserved == 0,
            e.kernel_cs == 0x0008,
            e.ist == 0,
            e.attributes == flags,
            e.isr_low + e.isr_mid * 0x1_0000 + e.isr_high * 0x1_0000_0000 == handler,
    {
        let low: u16 = handler as u16;
        let mid: u16 = (handler >> 16) as u16;
        let high: u32 = (handler >> 32) as u32;
        assert(low == handler % 0x1_0000 && mid == (handler / 0x1_0000) % 0x1_0000 && high
            == handler / 0x1_0000_0000) by (bit_vector)
            requires
                low == handler as u16,
                mid == (handler >> 16) as u16,
                high == (handler >> 32) as u32,
        ;
        IDTEntry {
            isr_low: low,
            kernel_cs: 0x0008,
            ist: 0,
            attributes: flags,
            isr_mid: mid,
            isr_high: high,
            reserved: 0,
        }
    }

    /// The entry as the two 64-bit words stored in the table, low word first.
    pub fn encode(&self) -> (w: (u64, u64))
        ensures
            w.0 == low_word_spec(*self),
            w.1 == high_word_spec(*self),
    {
        let (a, b, c, d, m, h, r) = (
            self.isr_low,
            self.kernel_cs,
            self.ist,
            self.attributes,
            self.isr_mid,
            self.isr_high,
            self.reserved,
        );
        let low: u64 = (a as u64) | ((b as u64) << 16) | ((c as u64) << 32) | ((d as u64) << 40)
            | ((m as u64) << 48);
        let high: u64 = (h as u64) | ((r as u64) << 32);
        assert(low == a + b * 0x1_0000 + c * 0x1_0000_0000 + d * 0x100_0000_0000 + m
            * 0x1_0000_0000_0000) by (bit_vector)
            requires
                low == (a as u64) | ((b as u64) << 16) | ((c as u64) << 32) | ((d as u64) << 40)
                    | ((m as u64) << 48),
        ;
        assert(high == h + r * 0x1_0000_0000) by (bit_vector)
            requires
                high == (h as u64) | ((r as u64) << 32),
        ;
        (low, high)
    }
}

/// Decoding the two stored words of an entry gives back every field of it.
pub proof fn lemma_encode_decode(e: IDTEntry)
    ensures
        0 <= low_word_spec(e) <= u64::MAX,
        0 <= high_word_spec(e) <= u64::MAX,
        decode_spec(low_word_spec(e) as u64, high_word_spec(e) as u64) == e,
{
    let (a, b, c, d, m, h, r) = (
        e.isr_low,
        e.kernel_cs,
        e.ist,
        e.attributes,
        e.isr_mid,
        e.isr_high,
        e.reserved,
    );
    let low: u64 = (a as u64) | ((b as u64) << 16) | ((c as u64) << 32) | ((d as u64) << 40) | ((
    m as u64) << 48);
    let high: u64 = (h as u64) | ((r as u64) << 32);
    assert({
        &&& low == a + b * 0x1_0000 + c * 0x1_0000_0000 + d * 0x100_0000_0000 + m
            * 0x1_0000_0000_0000
        &&& a == low % 0x1_0000
        &&& b == (low / 0x1_0000) % 0x1_0000
        &&& c == (low / 0x1_0000_0000) % 0x100
        &&& d == (low / 0x100_0000_0000) % 0x100
        &&& m == low / 0x1_0000_0000_0000
    }) by (bit_vector)
        requires
            low == (a as u64) | ((b as u64) << 16) | ((c as u64) << 32) | ((d as u64) << 40) | ((
            m as u64) << 48),
    ;
    assert({
        &&& high == h + r * 0x1_0000_0000
        &&& h == high % 0x1_0000_0000
        &&& r == high / 0x1_0000_0000
    }) by (bit_vector)
        requires
            high == (h as u64) | ((r as u64) << 32),
    ;
}

/// An entry built for any handler and flags has a zero reserved field, so its
/// high stored word is exactly the handler address shifted down by 32 bits,
/// and its low stored word holds the low 16 bits of the address, selector
/// 0x0008, no interrupt stack, the flags, and address bits 16..32.
pub proof fn lemma_entry_words(handler: u64, flags: u8)
    ensures
        entry_spec(handler, flags).reserved == 0,
        high_word_spec(entry_spec(handler, flags)) == handler / 0x1_0000_0000,
        low_word_spec(entry_spec(handler, flags)) == handler % 0x1_0000 + 0x0008 * 0x1_0000
            + flags * 0x100_0000_0000 + ((handler / 0x1_0000) % 0x1_0000) * 0x1_0000_0000_0000,
{
}

/// An entry built for a handler points back at exactly that handler, through
/// the kernel code segment of the global descriptor table, with the
/// requested attributes and no interrupt stack.
pub proof fn lemma_entry_targets_handler(handler: u64, flags: u8)
    ensures
        handler_address(entry_spec(handler, flags)) == handler,
        entry_spec(handler, flags).kernel_cs == KERNEL_CODE_SELECTOR,
        entry_spec(handler, flags).attributes == flags,
        entry_spec(handler, flags).ist == 0,
{
    let l: u64 = handler % 0x1_0000;
    let m: u64 = (handler / 0x1_0000) % 0x1_0000;
    let h: u64 = handler / 0x1_0000_0000;
    assert(l + m * 0x1_0000 + h * 0x1_0000_0000 == handler) by (bit_vector)
        requires
            l == handler % 0x1_0000,
            m == (handler / 0x1_0000) % 0x1_0000,
            h == handler / 0x1_0000_0000,
    ;
}


/// The interrupt descriptor table: 256 entries, one per interrupt vector.
pub struct IDTTable {
    pub entries: [IDTEntry; 256],
}

impl IDTTable {
    /// A table in which every entry is zero.
    pub fn new() -> (t: Self)
        ensures
            forall|i: int| 0 <= i < IDT_ENTRIES ==> #[trigger] t.entries@[i] == zeroed_spec(),
    {
        IDTTable { entries: [IDTEntry::zeroed();256] }
    }

    /// Installs, at vector `index`, the entry for the handler at address
    /// `handler` with attributes `flags`; every other entry is left as it was.
    pub fn set_entry(&mut self, index: u8, flags: u8, handler: u64)
        ensures
            final(self).entries@ == old(self).entries@.update(
                index as int,
                entry_spec(handler, flags),
            ),
    {
        let e = IDTEntry::new(handler, flags);
        self.entries[index as usize] = e;
    }
}

/// The operand of the `lidt` instruction: the table's size in bytes minus
/// one, and the table's linear address.
#[derive(Clone, Copy, Debug, PartialEq, Eq, Structural)]
pub struct IDTR {
    pub limit: u16,
    pub base: u64,
}

impl IDTR {
    /// The `lidt` operand for a table of `IDT_ENTRIES` entries at address `base`.
    pub fn new(base: u64) -> (r: Self)
        ensures
            r.limit == IDT_ENTRY_SIZE * IDT_ENTRIES - 1,
            r.base == base,
    {
        IDTR { limit: (IDT_ENTRY_SIZE * IDT_ENTRIES - 1) as u16, base }
    }
}

} // verus!
