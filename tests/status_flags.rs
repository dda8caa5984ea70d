use nes_emulator::status_flags::{ProcessorStatus, StatusFlag};

#[test]
fn test_set_flag() {
    let mut p = ProcessorStatus::new();
    p.set_flag(StatusFlag::Carry, true);
    // The reset value already holds I and bit 5.
    assert_eq!(p.status, 0b0010_0101);
}

#[test]
fn clear_flag_keeps_other_bits() {
    let mut p = ProcessorStatus::new();
    p.set_flag(StatusFlag::InterruptDisable, false);
    assert_eq!(p.status, 0b0010_0000);
    assert!(!p.get_flag(StatusFlag::InterruptDisable));
}

#[test]
fn zero_and_negative_update() {
    let mut p = ProcessorStatus::new();
    p.update_zero_and_negative_registers(0);
    assert!(p.get_flag(StatusFlag::Zero));
    assert!(!p.get_flag(StatusFlag::Negative));
    p.update_zero_and_negative_registers(0x80);
    assert!(!p.get_flag(StatusFlag::Zero));
    assert!(p.get_flag(StatusFlag::Negative));
    p.update_zero_and_negative_registers(0x7F);
    assert!(!p.get_flag(StatusFlag::Zero));
    assert!(!p.get_flag(StatusFlag::Negative));
    assert_eq!(p.status & 0b0010_0000, 0b0010_0000);
}

#[test]
fn set_from_byte_replaces_status() {
    let mut p = ProcessorStatus::new();
    p.set_from_byte(0xC3);
    assert_eq!(p.status, 0xE3);
    assert!(p.get_flag(StatusFlag::Carry));
    assert!(p.get_flag(StatusFlag::Overflow));
}

#[test]
fn set_from_byte_keeps_unused_bit() {
    let mut p = ProcessorStatus::new();
    p.set_from_byte(0x00);
    assert_eq!(p.status, 0b0010_0000);
    assert!(!p.get_flag(StatusFlag::Carry));
}
