use kernel::gdt::{
    create_descriptor, create_entry, create_table, GDTEntry, GDT_ENTRIES, GDT_ENTRY_SIZE,
    KERNEL_CODE_SELECTOR, KERNEL_DATA_SELECTOR,
};
use kernel::idt::{IDTEntry, IDTTable, DIVIDE_ERROR_VECTOR, IDTR, IDT_ENTRIES, TRAP_GATE};

#[test]
fn create_entry_splits_limit_and_flags() {
    let e = create_entry(0, 0xFFFFF, 0x9A, 0xA);
    assert_eq!(
        e,
        GDTEntry { limit: 0xFFFF, base: 0, base2: 0, access: 0x9A, limit2_flags: 0xAF, base3: 0 }
    );
}

#[test]
fn create_entry_truncates_wide_limit_and_flags() {
    let e = create_entry(0x1234, 0xABCD_EF01, 0x92, 0xFC);
    assert_eq!(e.limit, 0xEF01);
    assert_eq!(e.base, 0x1234);
    assert_eq!(e.limit2_flags, 0xCD);
}

#[test]
fn null_entry_is_zero() {
    assert_eq!(create_entry(0, 0, 0, 0).encode(), 0);
}

#[test]
fn table_encodes_flat_long_mode_segments() {
    let t = create_table();
    let words: Vec<u64> = t.iter().map(|e| e.encode()).collect();
    assert_eq!(
        words,
        vec![
            0,
            0x00AF_9A00_0000_FFFF,
            0x00CF_9200_0000_FFFF,
            0x00AF_FA00_0000_FFFF,
            0x00CF_F200_0000_FFFF
        ]
    );
}

#[test]
fn encode_places_every_field() {
    let e = GDTEntry { limit: 0x1122, base: 0x3344, base2: 0x55, access: 0x66, limit2_flags: 0x77, base3: 0x88 };
    assert_eq!(e.encode(), 0x8877_6655_3344_1122);
}

#[test]
fn descriptor_size_is_table_bytes_minus_one() {
    let d = create_descriptor(0xFFFF_8000_0010_0000);
    assert_eq!(d.size, 39);
    assert_eq!(d.size as usize, GDT_ENTRY_SIZE * GDT_ENTRIES - 1);
    assert_eq!(d.offset, 0xFFFF_8000_0010_0000);
}

#[test]
fn kernel_selectors_name_code_and_data() {
    let t = create_table();
    assert_eq!(t[(KERNEL_CODE_SELECTOR / 8) as usize].access, 0x9A);
    assert_eq!(t[(KERNEL_DATA_SELECTOR / 8) as usize].access, 0x92);
}

#[test]
fn zeroed_entry_is_all_zero() {
    let z = IDTEntry::zeroed();
    assert_eq!(
        z,
        IDTEntry { isr_low: 0, kernel_cs: 0, ist: 0, attributes: 0, isr_mid: 0, isr_high: 0, reserved: 0 }
    );
    assert_eq!(z.encode(), (0, 0));
}

#[test]
fn entry_splits_handler_address() {
    let e = IDTEntry::new(0x1234_5678_9ABC_DEF0, TRAP_GATE);
    assert_eq!(e.isr_low, 0xDEF0);
    assert_eq!(e.isr_mid, 0x9ABC);
    assert_eq!(e.isr_high, 0x1234_5678);
    assert_eq!(e.kernel_cs, KERNEL_CODE_SELECTOR);
    assert_eq!(e.attributes, 0x8F);
    assert_eq!(e.ist, 0);
    assert_eq!(e.reserved, 0);
    let back = e.isr_low as u64 | (e.isr_mid as u64) << 16 | (e.isr_high as u64) << 32;
    assert_eq!(back, 0x1234_5678_9ABC_DEF0);
}

#[test]
fn entry_encodes_hardware_layout() {
    let e = IDTEntry::new(0x1234_5678_9ABC_DEF0, 0x8F);
    assert_eq!(e.encode(), (0x9ABC_8F00_0008_DEF0, 0x1234_5678));
}

#[test]
fn set_entry_changes_only_its_vector() {
    let mut t = IDTTable::new();
    assert_eq!(t.entries.len(), IDT_ENTRIES);
    t.set_entry(DIVIDE_ERROR_VECTOR, TRAP_GATE, 0xFFFF_FFFF_8000_1000);
    assert_eq!(t.entries[0], IDTEntry::new(0xFFFF_FFFF_8000_1000, 0x8F));
    for i in 1..256 {
        assert_eq!(t.entries[i], IDTEntry::zeroed());
    }
    t.set_entry(255, 0x8E, 0x10);
    assert_eq!(t.entries[255].isr_low, 0x10);
    assert_eq!(t.entries[255].attributes, 0x8E);
    assert_eq!(t.entries[0], IDTEntry::new(0xFFFF_FFFF_8000_1000, 0x8F));
}

#[test]
fn idtr_limit_covers_table() {
    let r = IDTR::new(0xFFFF_8000_0020_0000);
    assert_eq!(r.limit, 4095);
    assert_eq!(r.base, 0xFFFF_8000_0020_0000);
}
