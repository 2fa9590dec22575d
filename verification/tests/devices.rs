use kernel::cpuid::{apic_available, disable_pci_writes, IA32_APIC_BASE_MSR};
use kernel::lapic::{init_lapic_writes, register_address, LapicWrite, LAPIC_OFFSET};
use kernel::serial::{
    LINE_STATUS, PortWrite, Serial, SerialEvent, SerialInitAction, SerialSetup, SerialStatus, PORT,
};

fn run_setup(base: u16, echo: u8) -> Vec<SerialInitAction> {
    let mut s = SerialSetup::new(PORT::new(base));
    let mut actions = Vec::new();
    let mut event = SerialEvent::Ack;
    loop {
        let a = s.step(event);
        actions.push(a);
        match a {
            SerialInitAction::Out(_) => event = SerialEvent::Ack,
            SerialInitAction::In(_) => event = SerialEvent::Received(echo),
            _ => break,
        }
    }
    actions
}

#[test]
fn serial_setup_succeeds_on_loopback_echo() {
    let a = run_setup(0x3F8, 0xAE);
    let w = |port: u16, value: u8| SerialInitAction::Out(PortWrite { port, value });
    assert_eq!(
        a,
        vec![
            w(0x3F9, 0x00),
            w(0x3FB, 0x80),
            w(0x3F8, 0x03),
            w(0x3F9, 0x00),
            w(0x3FB, 0x03),
            w(0x3FA, 0xC7),
            w(0x3FC, 0x0B),
            w(0x3FC, 0x1E),
            w(0x3F8, 0xAE),
            SerialInitAction::In(0x3F8),
            w(0x3FC, 0x0F),
            SerialInitAction::Ready(Serial { port: PORT::new(0x3F8) }),
        ]
    );
}

#[test]
fn serial_setup_fails_on_wrong_echo() {
    let a = run_setup(0x2F8, 0x00);
    assert_eq!(a.len(), 11);
    assert_eq!(a[9], SerialInitAction::In(0x2F8));
    assert_eq!(a[10], SerialInitAction::Failed);
}

#[test]
fn serial_setup_is_done_after_finishing() {
    let mut s = SerialSetup::new(PORT::new(0x3F8));
    for _ in 0..10 {
        s.step(SerialEvent::Ack);
    }
    assert_eq!(s.step(SerialEvent::Ack), SerialInitAction::In(0x3F8));
    assert_eq!(s.step(SerialEvent::Received(1)), SerialInitAction::Failed);
    assert_eq!(s.step(SerialEvent::Ack), SerialInitAction::Done);
}

#[test]
fn port_registers_and_status_bits() {
    let p = PORT::new(0x3F8);
    assert_eq!(p.register(5), 0x3FD);
    assert_eq!(p.status_port(), 0x3FD);
    assert_eq!(LINE_STATUS, 5);
    assert_eq!(p.recieved(0x61), 1);
    assert_eq!(p.recieved(0x60), 0);
    assert_eq!(p.read_port(), 0x7F0);
    assert_eq!(p.change(0x2F8), PORT::new(0x2F8));
    let s = Serial { port: p };
    assert!(s.is_transmit_empty(0x00));
    assert!(s.is_transmit_empty(0xDF));
    assert!(!s.is_transmit_empty(0x20));
    assert_eq!(SerialStatus::Success, SerialStatus::Success);
}

#[test]
fn write_ops_sends_each_byte_to_data_register() {
    let s = Serial { port: PORT::new(0x3F8) };
    let w = s.write_ops("Hi\n");
    assert_eq!(
        w,
        vec![
            PortWrite { port: 0x3F8, value: b'H' },
            PortWrite { port: 0x3F8, value: b'i' },
            PortWrite { port: 0x3F8, value: b'\n' },
        ]
    );
    assert_eq!(s.write_ops("é").len(), 2);
    assert!(s.write_ops("").is_empty());
}

#[test]
fn apic_bit_is_bit_nine() {
    assert!(apic_available(1 << 9));
    assert!(apic_available(0xFFFF_FFFF));
    assert!(!apic_available(0));
    assert!(!apic_available(0xFFFF_FDFF));
    assert_eq!(IA32_APIC_BASE_MSR, 0x1b);
}

#[test]
fn pic_mask_writes() {
    assert_eq!(
        disable_pci_writes(),
        [PortWrite { port: 0x21, value: 0xFF }, PortWrite { port: 0xA1, value: 0xFF }]
    );
}

#[test]
fn lapic_register_addresses() {
    assert_eq!(LAPIC_OFFSET, 0xFEE0000);
    assert_eq!(register_address(0xFFFF_8000_0000_0000, 0), 0xFFFF_8000_0FEE_0000);
    assert_eq!(register_address(0xFFFF_8000_0000_0000, 0x80), 0xFFFF_8000_0FEE_0200);
    assert_eq!(register_address(0, 0xf0), 0xFEE0000 + 0x3C0);
}

#[test]
fn lapic_init_sequence() {
    assert_eq!(
        init_lapic_writes(),
        [
            LapicWrite { index: 0x80, value: 0 },
            LapicWrite { index: 0xd0, value: 0x0100_0000 },
            LapicWrite { index: 0xe0, value: 0xFFFF_FFFF },
            LapicWrite { index: 0xf0, value: 0x1FF },
        ]
    );
}
