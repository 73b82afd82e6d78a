use serial_term::keymap::{encode_char, encode_chars, encode_str, translate, KeyCode, KeyEvent};

fn plain(code: KeyCode) -> KeyEvent {
    KeyEvent::plain(code)
}

fn ctrl(code: KeyCode) -> KeyEvent {
    KeyEvent::with_ctrl(code)
}

#[test]
fn enter_sends_crlf() {
    assert_eq!(translate(&plain(KeyCode::Enter)), Some(b"\r\n".to_vec()));
}

#[test]
fn backspace_sends_single_byte() {
    assert_eq!(translate(&plain(KeyCode::Backspace)), Some(b"\x08".to_vec()));
}

#[test]
fn tab_and_esc() {
    assert_eq!(translate(&plain(KeyCode::Tab)), Some(b"\x09".to_vec()));
    assert_eq!(translate(&plain(KeyCode::Esc)), Some(b"\x1b".to_vec()));
}

#[test]
fn control_letters_mask_to_low_five_bits() {
    assert_eq!(translate(&ctrl(KeyCode::Char('a'))), Some(b"\x01".to_vec()));
    assert_eq!(translate(&ctrl(KeyCode::Char('z'))), Some(b"\x1a".to_vec()));
    assert_eq!(translate(&ctrl(KeyCode::Char(' '))), Some(b"\x00".to_vec()));
}

#[test]
fn control_digits_four_to_seven_are_offset() {
    assert_eq!(translate(&ctrl(KeyCode::Char('4'))), Some(b"\x1c".to_vec()));
    assert_eq!(translate(&ctrl(KeyCode::Char('5'))), Some(b"\x1d".to_vec()));
    assert_eq!(translate(&ctrl(KeyCode::Char('6'))), Some(b"\x1e".to_vec()));
    assert_eq!(translate(&ctrl(KeyCode::Char('7'))), Some(b"\x1f".to_vec()));
}

#[test]
fn arrow_keys_send_ansi_sequences() {
    assert_eq!(translate(&plain(KeyCode::Up)), Some(b"\x1b[A".to_vec()));
    assert_eq!(translate(&plain(KeyCode::Down)), Some(b"\x1b[B".to_vec()));
    assert_eq!(translate(&plain(KeyCode::Right)), Some(b"\x1b[C".to_vec()));
    assert_eq!(translate(&plain(KeyCode::Left)), Some(b"\x1b[D".to_vec()));
}

#[test]
fn home_end_delete_insert_send_ansi_sequences() {
    assert_eq!(translate(&plain(KeyCode::Home)), Some(b"\x1b[H".to_vec()));
    assert_eq!(translate(&plain(KeyCode::End)), Some(b"\x1b[F".to_vec()));
    assert_eq!(translate(&plain(KeyCode::Delete)), Some(b"\x1b[3~".to_vec()));
    assert_eq!(translate(&plain(KeyCode::Insert)), Some(b"\x1b[2~".to_vec()));
}

#[test]
fn plain_character_is_utf8_encoded() {
    assert_eq!(translate(&plain(KeyCode::Char('x'))), Some(b"x".to_vec()));
    assert_eq!(translate(&plain(KeyCode::Char('\u{e9}'))), Some(vec![0xC3, 0xA9]));
    assert_eq!(
        translate(&plain(KeyCode::Char('\u{1F600}'))),
        Some(vec![0xF0, 0x9F, 0x98, 0x80])
    );
}

#[test]
fn unmapped_keys_produce_no_output() {
    assert_eq!(translate(&plain(KeyCode::Function(5))), None);
    assert_eq!(translate(&ctrl(KeyCode::Function(1))), None);
    assert_eq!(translate(&plain(KeyCode::Other)), None);
}

#[test]
fn encode_char_matches_std() {
    for c in ['a', '\u{7f}', '\u{80}', '\u{7ff}', '\u{800}', '\u{ffff}', '\u{10000}', '\u{10FFFF}']
    {
        let mut buf = [0u8; 4];
        let expected = c.encode_utf8(&mut buf).as_bytes().to_vec();
        assert_eq!(encode_char(c), expected);
    }
}

#[test]
fn encode_str_matches_std_bytes() {
    let s = "h\u{e9}llo \u{65e5}\u{672c} \u{1F600}";
    assert_eq!(encode_str(s), s.as_bytes().to_vec());
    assert_eq!(encode_str(""), Vec::<u8>::new());
}

#[test]
fn encode_chars_matches_std_bytes() {
    let chars: Vec<char> = "caf\u{e9}".chars().collect();
    assert_eq!(encode_chars(&chars), "caf\u{e9}".as_bytes().to_vec());
}
