use usbarmory::usbd::token::{Status, Token};

#[test]
fn token_total_bytes_roundtrip() {
    let mut t = Token::empty();
    t.set_total_bytes(0x1234);
    assert_eq!(t.get_total_bytes(), 0x1234);
    t.set_total_bytes(64);
    assert_eq!(t.get_total_bytes(), 64);
    t.set_total_bytes(0x4fff);
    assert_eq!(t.get_total_bytes(), 0x4fff);
}

#[test]
fn token_status_roundtrip() {
    let mut t = Token::empty();
    t.set_total_bytes(512);
    t.set_status(Status::active());
    assert!(t.get_status().is_active());
    assert_eq!(t.get_total_bytes(), 512);
    t.clear_status();
    assert!(!t.get_status().is_active());
    assert_eq!(t.get_total_bytes(), 512);
}

#[test]
fn token_ioc_keeps_other_fields() {
    let mut t = Token::empty();
    t.set_total_bytes(8);
    t.set_status(Status::active());
    t.set_ioc();
    assert_eq!(t.get_total_bytes(), 8);
    assert!(t.get_status().is_active());
    assert!(!t.get_status().has_errors());
}

#[test]
fn token_empty_has_no_status() {
    let t = Token::empty();
    let s = t.get_status();
    assert_eq!(t.get_total_bytes(), 0);
    assert!(!s.is_active());
    assert!(!s.is_halted());
    assert!(!s.has_data_buffer_error());
    assert!(!s.has_transaction_error());
    assert!(!s.has_errors());
}

#[test]
fn status_bits_decode() {
    let s = Status::active();
    assert!(s.is_active());
    assert!(!s.is_halted());
    assert!(!s.has_errors());
}
