use gb_core::serial::Serial;

#[test]
fn test_new_serial_has_empty_output() {
    let s = Serial::new();
    assert!(s.output.is_empty());
    assert_eq!(s.output_str(), "");
}

#[test]
fn test_sc_write_with_0x81_captures_sb() {
    let mut s = Serial::new();
    s.on_sc_write(b'H', 0x81);
    assert_eq!(s.output, vec![b'H']);
}

#[test]
fn test_sc_write_without_bit7_ignores_sb() {
    let mut s = Serial::new();
    s.on_sc_write(b'X', 0x01); // bit 7 not set
    assert!(s.output.is_empty());
}

#[test]
fn test_sc_write_without_bit0_ignores_sb() {
    let mut s = Serial::new();
    s.on_sc_write(b'X', 0x80); // bit 0 not set
    assert!(s.output.is_empty());
}

#[test]
fn test_multiple_chars_accumulate() {
    let mut s = Serial::new();
    for &c in b"Hello" {
        s.on_sc_write(c, 0x81);
    }
    assert_eq!(s.output_str(), "Hello");
}

#[test]
fn test_passed_detection() {
    let mut s = Serial::new();
    for &c in b"Passed" {
        s.on_sc_write(c, 0x81);
    }
    assert!(s.passed());
    assert!(!s.failed());
    assert!(s.all_passed());
}

#[test]
fn test_failed_detection() {
    let mut s = Serial::new();
    for &c in b"Failed #1" {
        s.on_sc_write(c, 0x81);
    }
    assert!(s.failed());
    assert!(!s.passed());
    assert!(!s.all_passed());
}

#[test]
fn test_all_passed_requires_no_failed() {
    let mut s = Serial::new();
    // Has both "Failed" and "Passed" — should NOT be all_passed
    for &c in b"Failed #1\nPassed" {
        s.on_sc_write(c, 0x81);
    }
    assert!(!s.all_passed());
}

#[test]
fn test_output_str_lossy_on_non_utf8() {
    let mut s = Serial::new();
    s.output.push(0xFF); // invalid UTF-8
    let out = s.output_str();
    assert!(!out.is_empty()); // lossy — produces replacement char
}
