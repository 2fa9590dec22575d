use vstd::prelude::*;

verus! {

/// One 8-byte segment descriptor of the global descriptor table.
#[derive(Clone, Copy, Debug, PartialEq, Eq, Structural)]
pub struct GDTEntry {
    pub limit: u16,
    pub base: u16,
    pub base2: u8,
    pub access: u8,
    pub limit2_flags: u8,
    pub base3: u8,
}

/// The descriptor that `create_entry` builds: the low 16 bits of the limit,
/// the 16-bit base, the access byte, and a byte holding limit bits 16..20 in
/// its low nibble and the low nibble of `flags` in its high nibble.
pub open spec fn entry_spec(base: u16, limit: u32, access: u8, flags: u8) -> GDTEntry {
    GDTEntry {
        limit: (limit % 0x10000) as u16,
        base,
        base2: 0,
        access,
        limit2_flags: ((limit / 0x10000) % 16 + (flags % 16) * 16) as u8,
        base3: 0,
    }
}

/// Builds a segment descriptor from a base, a 20-bit limit, an access byte
/// and a 4-bit flags field.
pub fn create_entry(base: u16, limit: u32, access: u8, flags: u8) -> (e: GDTEntry)
    ensures
        e == entry_spec(base, limit, access, flags),
        e.base == base,
        e.access == access,
        e.base2 == 0,
        e.base3 == 0,
        e.limit == limit % 0x1_0000,
        e.limit2_flags == (limit / 0x1_0000) % 16 + (flags % 16) * 16,
{
    let lo: u16 = (limit & 0xFFFF) as u16;
    let hi: u8 = (((limit >> 16) & 0xF) as u8) | (flags << 4);
    assert(lo == limit % 0x10000) by (bit_vector)
        requires lo == (limit & 0xFFFF) as u16;
    assert(hi == (limit / 0x10000) % 16 + (flags % 16) * 16) by (bit_vector)
        requires hi == (((limit >> 16) & 0xF) as u8) | (flags << 4);
    GDTEntry { limit: lo, base, base2: 0, access, limit2_flags: hi, base3: 0 }
}


/// The 64-bit little-endian image of a descriptor as the processor reads it
/// from memory: limit, base, base2, access, limit/flags and base3 at byte
/// offsets 0, 2, 4, 5, 6 and 7.
pub open spec fn encoded_spec(e: GDTEntry) -> int {
    e.limit + e.base * 0x1_0000 + e.base2 * 0x1_0000_0000 + e.access * 0x100_0000_0000
        + e.limit2_flags * 0x1_0000_0000_0000 + e.base3 * 0x100_0000_0000_0000
}

/// Reads the fields of a descriptor back from its 64-bit image.
pub open spec fn decode_spec(w: u64) -> GDTEntry {
    GDTEntry {
        limit: (w % 0x1_0000) as u16,
        base: ((w / 0x1_0000) % 0x1_0000) as u16,
        base2: ((w / 0x1_0000_0000) % 0x100) as u8,
        access: ((w / 0x100_0000_0000) % 0x100) as u8,
        limit2_flags: ((w / 0x1_0000_0000_0000) % 0x100) as u8,
        base3: (w / 0x100_0000_0000_0000) as u8,
    }
}

impl GDTEntry {
    /// The descriptor as the 64-bit word that is stored in the table.
    pub fn encode(&self) -> (w: u64)
        ensures
            w == encoded_spec(*self),
    {
        let (limit, base, base2, access, lf, base3) = (
            self.limit,
            self.base,
            self.base2,
            self.access,
            self.limit2_flags,
            self.base3,
        );
        let w: u64 = (limit as u64) | ((base as u64) << 16) | ((base2 as u64) << 32) | ((
        access as u64) << 40) | ((lf as u64) << 48) | ((base3 as u64) << 56);
        assert(w == limit + base * 0x1_0000 + base2 * 0x1_0000_0000 + access * 0x100_0000_0000
            + lf * 0x1_0000_0000_0000 + base3 * 0x100_0000_0000_0000) by (bit_vector)
            requires
                w == (limit as u64) | ((base as u64) << 16) | ((base2 as u64) << 32) | ((
                access as u64) << 40) | ((lf as u64) << 48) | ((base3 as u64) << 56),
        ;
        w
    }
}

/// Decoding the stored image of a descriptor gives back every field of it.
pub proof fn lemma_encode_decode(e: GDTEntry)
    ensures
        0 <= encoded_spec(e) <= u64::MAX,
        decode_spec(encoded_spec(e) as u64) == e,
{
    let (limit, base, base2, access, lf, base3) = (
        e.limit,
        e.base,
        e.base2,
        e.access,
        e.limit2_flags,
        e.base3,
    );
    let w: u64 = (limit as u64) | ((base as u64) << 16) | ((base2 as u64) << 32) | ((
    access as u64) << 40) | ((lf as u64) << 48) | ((base3 as u64) << 56);
    assert({
        &&& w == limit + base * 0x1_0000 + base2 * 0x1_0000_0000 + access * 0x100_0000_0000
            + lf * 0x1_0000_0000_0000 + base3 * 0x100_0000_0000_0000
        &&& limit == w % 0x1_0000
        &&& base == (w / 0x1_0000) % 0x1_0000
        &&& base2 == (w / 0x1_0000_0000) % 0x100
        &&& access == (w / 0x100_0000_0000) % 0x100
        &&& lf == (w / 0x1_0000_0000_0000) % 0x100
        &&& base3 == w / 0x100_0000_0000_0000
    }) by (bit_vector)
        requires
            w == (limit as u64) | ((base as u64) << 16) | ((base2 as u64) << 32) | ((
            access as u64) << 40) | ((lf as u64) << 48) | ((base3 as u64) << 56),
    ;
}

/// A descriptor built from a base, limit, access byte and flags stores the
/// base and the access byte unchanged, zero in the upper base bytes, and in
/// its stored image the access byte sits at bits 40..48 and the base at bits
/// 16..32.
pub proof fn lemma_entry_keeps_base_and_access(base: u16, limit: u32, access: u8, flags: u8)
    ensures
        entry_spec(base, limit, access, flags).base == base,
        entry_spec(base, limit, access, flags).access == access,
        entry_spec(base, limit, access, flags).base2 == 0,
        entry_spec(base, limit, access, flags).base3 == 0,
        (encoded_spec(entry_spec(base, limit, access, flags)) / 0x100_0000_0000) % 0x100 == access,
        (encoded_spec(entry_spec(base, limit, access, flags)) / 0x1_0000) % 0x1_0000 == base,
        encoded_spec(entry_spec(base, limit, access, flags)) / 0x100_0000_0000_0000 == 0,
        (encoded_spec(entry_spec(base, limit, access, flags)) / 0x1_0000_0000) % 0x100 == 0,
{
    let e = entry_spec(base, limit, access, flags);
    lemma_encode_decode(e);
}

/// A descriptor built by `create_entry` keeps the low 20 bits of the limit,
/// split between `limit` and the low nibble of `limit2_flags`, and the low
/// nibble of the flags in the high nibble of `limit2_flags`.
pub proof fn lemma_entry_limit_and_flags(base: u16, limit: u32, access: u8, flags: u8)
    ensures
        ({
            let e = entry_spec(base, limit, access, flags);
            &&& e.limit + (e.limit2_flags % 16) * 0x1_0000 == limit % 0x10_0000
            &&& e.limit2_flags / 16 == flags % 16
        }),
{
}


/// Number of descriptors in the table: null, kernel code, kernel data,
/// user code, user data.
pub const GDT_ENTRIES: usize = 5;

/// Size in bytes of one descriptor in the table.
pub const GDT_ENTRY_SIZE: usize = 8;

/// Selector of the kernel code segment (descriptor 1, ring 0).
pub const KERNEL_CODE_SELECTOR: u16 = 0x08;

/// Selector of the kernel data segment (descriptor 2, ring 0).
pub const KERNEL_DATA_SELECTOR: u16 = 0x10;

/// The flat 64-bit table: a null descriptor, then kernel code, kernel data,
/// user code and user data segments spanning the whole 20-bit limit.
pub open spec fn table_spec() -> Seq<GDTEntry> {
    seq![
        entry_spec(0, 0, 0, 0),
        entry_spec(0, 0xFFFFF, 0x9A, 0xA),
        entry_spec(0, 0xFFFFF, 0x92, 0xC),
        entry_spec(0, 0xFFFFF, 0xFA, 0xA),
        entry_spec(0, 0xFFFFF, 0xF2, 0xC),
    ]
}

/// Builds the five descriptors of the global descriptor table.
pub fn create_table() -> (t: [GDTEntry; 5])
    ensures
        t@ == table_spec(),
{
    let t = [
        create_entry(0, 0, 0, 0),
        create_entry(0, 0xFFFFF, 0x9A, 0xA),
        create_entry(0, 0xFFFFF, 0x92, 0xC),
        create_entry(0, 0xFFFFF, 0xFA, 0xA),
        create_entry(0, 0xFFFFF, 0xF2, 0xC),
    ];
    assert(t@ =~= table_spec());
    t
}

/// The operand of the `lgdt` instruction: the table's size in bytes minus
/// one, and the table's linear address.
#[derive(Clone, Copy, Debug, PartialEq, Eq, Structural)]
pub struct GlobalDescriptor {
    pub size: u16,
    pub offset: u64,
}

/// Builds the `lgdt` operand for a table of `GDT_ENTRIES` descriptors that
/// starts at address `table_addr`.
pub fn create_descriptor(table_addr: u64) -> (d: GlobalDescriptor)
    ensures
        d.size == GDT_ENTRY_SIZE * GDT_ENTRIES - 1,
        d.offset == table_addr,
{
    GlobalDescriptor { size: (GDT_ENTRY_SIZE * GDT_ENTRIES - 1) as u16, offset: table_addr }
}

/// The selectors loaded after `lgdt` name ring-0 descriptors of the table:
/// the code selector a present, executable, readable segment in long mode,
/// the data selector a present, writable data segment.
pub proof fn lemma_kernel_selectors()
    ensures
        KERNEL_CODE_SELECTOR % 8 == 0,
        KERNEL_DATA_SELECTOR % 8 == 0,
        KERNEL_CODE_SELECTOR / 8 < GDT_ENTRIES,
        KERNEL_DATA_SELECTOR / 8 < GDT_ENTRIES,
        table_spec()[(KERNEL_CODE_SELECTOR / 8) as int].access == 0x9A,
        table_spec()[(KERNEL_CODE_SELECTOR / 8) as int].limit2_flags / 16 == 0xA,
        table_spec()[(KERNEL_DATA_SELECTOR / 8) as int].access == 0x92,
        table_spec()[(KERNEL_DATA_SELECTOR / 8) as int].limit2_flags / 16 == 0xC,
{
}

} // verus!
