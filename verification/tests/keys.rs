use nagx::keys::terminal_key_bytes;

#[test]
fn return_key_sends_carriage_return() {
    assert_eq!(terminal_key_bytes("\n", false, false), vec![b'\r']);
}

#[test]
fn backspace_key_sends_delete_byte() {
    assert_eq!(terminal_key_bytes("\u{8}", false, false), vec![0x7f]);
}

#[test]
fn tab_and_escape_keys() {
    assert_eq!(terminal_key_bytes("\t", false, false), vec![b'\t']);
    assert_eq!(terminal_key_bytes("\u{1b}", false, false), vec![0x1b]);
}

#[test]
fn arrow_keys_send_cursor_sequences() {
    assert_eq!(terminal_key_bytes("\u{F700}", false, false), b"\x1b[A".to_vec());
    assert_eq!(terminal_key_bytes("\u{F701}", false, false), b"\x1b[B".to_vec());
    assert_eq!(terminal_key_bytes("\u{F703}", false, false), b"\x1b[C".to_vec());
    assert_eq!(terminal_key_bytes("\u{F702}", false, false), b"\x1b[D".to_vec());
}

#[test]
fn delete_home_end_keys() {
    assert_eq!(terminal_key_bytes("\u{7f}", false, false), b"\x1b[3~".to_vec());
    assert_eq!(terminal_key_bytes("\u{F729}", false, false), b"\x1b[H".to_vec());
    assert_eq!(terminal_key_bytes("\u{F72B}", false, false), b"\x1b[F".to_vec());
}

#[test]
fn plain_text_is_sent_as_utf8() {
    assert_eq!(terminal_key_bytes("ls -la", false, false), b"ls -la".to_vec());
    assert_eq!(terminal_key_bytes("é", false, false), vec![0xc3, 0xa9]);
    assert_eq!(terminal_key_bytes("€", false, false), vec![0xe2, 0x82, 0xac]);
}

#[test]
fn control_letter_gives_control_code() {
    assert_eq!(terminal_key_bytes("a", true, false), vec![1]);
    assert_eq!(terminal_key_bytes("c", true, false), vec![3]);
    assert_eq!(terminal_key_bytes("C", true, false), vec![3]);
    assert_eq!(terminal_key_bytes("z", true, false), vec![26]);
    assert_eq!(terminal_key_bytes("Z", true, false), vec![26]);
}

#[test]
fn control_takes_precedence_over_alt() {
    assert_eq!(terminal_key_bytes("d", true, true), vec![4]);
}

#[test]
fn control_without_a_letter_changes_nothing() {
    assert_eq!(terminal_key_bytes("1", true, false), vec![b'1']);
    assert_eq!(terminal_key_bytes("ab", true, false), b"ab".to_vec());
    assert_eq!(terminal_key_bytes("\n", true, false), vec![b'\r']);
}

#[test]
fn alt_prefixes_escape() {
    assert_eq!(terminal_key_bytes("x", false, true), vec![0x1b, b'x']);
    assert_eq!(terminal_key_bytes("\u{F700}", false, true), b"\x1b\x1b[A".to_vec());
    assert_eq!(terminal_key_bytes("1", true, true), vec![0x1b, b'1']);
}

#[test]
fn empty_text_gives_no_bytes() {
    assert!(terminal_key_bytes("", false, false).is_empty());
    assert!(terminal_key_bytes("", true, true).is_empty());
    assert!(terminal_key_bytes("", false, true).is_empty());
}
