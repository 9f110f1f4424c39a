use minmux::connection::{frame, received_line, RecvError};
use minmux::keys::{
    encode_char, key_display, key_event_display, key_to_bytes, to_ascii_upper, KeyCode, KeyEvent, MediaKeyCode,
    ModifierKeyCode, CONTROL,
};
use minmux::text::push_decimal;

fn decimal_string(n: u64) -> String {
    let mut s = String::new();
    push_decimal(&mut s, n as u128);
    s
}

#[test]
fn decimal_strings() {
    assert_eq!(decimal_string(0), "0");
    assert_eq!(decimal_string(7), "7");
    assert_eq!(decimal_string(1234567890), "1234567890");
    assert_eq!(decimal_string(u64::MAX), u64::MAX.to_string());
    let mut s = "window ".to_string();
    push_decimal(&mut s, u128::MAX);
    assert_eq!(s, format!("window {}", u128::MAX));
}

#[test]
fn utf8_encoding_matches_std() {
    for c in ['a', '\u{7f}', '\u{80}', 'é', '\u{7ff}', '\u{800}', '€', '\u{ffff}', '\u{10000}', '😀', '\u{10ffff}'] {
        let mut buf = [0u8; 4];
        assert_eq!(encode_char(c), c.encode_utf8(&mut buf).as_bytes().to_vec());
    }
}

#[test]
fn key_bytes() {
    let k = |code| KeyEvent::new(code, 0);
    assert_eq!(key_to_bytes(&k(KeyCode::Enter)), Some(b"\r".to_vec()));
    assert_eq!(key_to_bytes(&k(KeyCode::Backspace)), Some(b"\x7f".to_vec()));
    assert_eq!(key_to_bytes(&k(KeyCode::Tab)), Some(b"\t".to_vec()));
    assert_eq!(key_to_bytes(&k(KeyCode::Esc)), Some(b"\x1b".to_vec()));
    assert_eq!(key_to_bytes(&k(KeyCode::Down)), Some(b"\x1b[B".to_vec()));
    assert_eq!(key_to_bytes(&k(KeyCode::Right)), Some(b"\x1b[C".to_vec()));
    assert_eq!(key_to_bytes(&k(KeyCode::Left)), Some(b"\x1b[D".to_vec()));
    assert_eq!(key_to_bytes(&k(KeyCode::Home)), Some(b"\x1b[H".to_vec()));
    assert_eq!(key_to_bytes(&k(KeyCode::End)), Some(b"\x1b[F".to_vec()));
    assert_eq!(key_to_bytes(&k(KeyCode::Delete)), Some(b"\x1b[3~".to_vec()));
    assert_eq!(key_to_bytes(&k(KeyCode::PageUp)), Some(b"\x1b[5~".to_vec()));
    assert_eq!(key_to_bytes(&k(KeyCode::PageDown)), Some(b"\x1b[6~".to_vec()));
    assert_eq!(key_to_bytes(&k(KeyCode::Insert)), None);
    assert_eq!(key_to_bytes(&k(KeyCode::Char('Z'))), Some(b"Z".to_vec()));
    // Control characters count from `a` as 1 and wrap around.
    assert_eq!(key_to_bytes(&KeyEvent::new(KeyCode::Char('a'), CONTROL)), Some(vec![1]));
    assert_eq!(key_to_bytes(&KeyEvent::new(KeyCode::Char('z'), CONTROL)), Some(vec![26]));
    assert_eq!(key_to_bytes(&KeyEvent::new(KeyCode::Char('@'), CONTROL)), Some(vec![224]));
}

#[test]
fn key_labels() {
    assert_eq!(to_ascii_upper('q'), 'Q');
    assert_eq!(to_ascii_upper('Q'), 'Q');
    assert_eq!(to_ascii_upper('é'), 'é');
    let k = |code| KeyEvent::new(code, 0);
    assert_eq!(key_display(&KeyEvent::new(KeyCode::Char('b'), CONTROL)), "^B");
    assert_eq!(key_display(&k(KeyCode::Char('b'))), "b");
    assert_eq!(key_display(&k(KeyCode::Esc)), "Esc");
    assert_eq!(key_display(&k(KeyCode::BackTab)), "BackTab");
    assert_eq!(key_display(&k(KeyCode::F(10))), "F(10)");
    assert_eq!(key_display(&k(KeyCode::Media(MediaKeyCode::PlayPause))), "Media(PlayPause)");
    assert_eq!(key_display(&k(KeyCode::Modifier(ModifierKeyCode::IsoLevel3Shift))), "Modifier(IsoLevel3Shift)");
    assert_eq!(key_event_display(&k(KeyCode::Esc)), "<Esc>");
    assert_eq!(key_event_display(&k(KeyCode::Enter)), "<Enter>");
    assert_eq!(key_event_display(&KeyEvent::new(KeyCode::Char('t'), CONTROL)), "^T");
    assert_eq!(key_event_display(&k(KeyCode::Up)), "Up");
}

#[test]
fn frames() {
    assert_eq!(frame("{\"Detach\":null}".to_string()), "{\"Detach\":null}\n");
    assert_eq!(received_line(String::new()), Err(RecvError::Closed));
    assert_eq!(RecvError::Closed.message(), "connection closed");
    assert_eq!(received_line("x\n".to_string()), Ok("x\n".to_string()));
    let line = frame("\"Detached\"".to_string());
    assert_eq!(received_line(line.clone()), Ok(line));
}
