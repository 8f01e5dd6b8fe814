use mullvad_core::shortcut::{strip_null_terminator, units_before_terminator};

fn utf16(text: &str) -> Vec<u16> {
    text.encode_utf16().collect()
}

#[test]
fn text_ends_at_the_first_zero() {
    let mut buffer = utf16("C:\\Program Files\\App\\app.exe");
    buffer.extend([0, 0, 0x41, 0]);
    assert_eq!(
        Some("C:\\Program Files\\App\\app.exe".to_owned()),
        strip_null_terminator(&buffer)
    );
}

#[test]
fn buffer_without_zero_is_read_to_its_end() {
    assert_eq!(Some("caf\u{e9}".to_owned()), strip_null_terminator(&utf16("caf\u{e9}")));
}

#[test]
fn empty_buffer_and_leading_zero_give_no_text() {
    assert_eq!(Some(String::new()), strip_null_terminator(&[]));
    assert_eq!(Some(String::new()), strip_null_terminator(&[0, 0x41]));
}

#[test]
fn invalid_units_are_replaced() {
    // A lone surrogate is no character.
    assert_eq!(Some("a\u{fffd}b".to_owned()), strip_null_terminator(&[0x61, 0xd800, 0x62, 0]));
    assert_eq!(
        Some("\u{1F600}".to_owned()),
        strip_null_terminator(&[0xd83d, 0xde00, 0, 0x61])
    );
}

#[test]
fn units_are_copied_up_to_the_terminator() {
    assert_eq!(vec![1u16, 2], units_before_terminator(&[1, 2, 0, 3]));
    assert_eq!(vec![1u16, 2, 3], units_before_terminator(&[1, 2, 3]));
    assert!(units_before_terminator(&[0]).is_empty());
}
