use minmux::ipc::{ClientMessage, MoveDirection, NavigateDirection};
use minmux::message_text::client_message_text;

fn same_as_debug(m: ClientMessage) {
    assert_eq!(client_message_text(&m), format!("{:?}", m));
}

#[test]
fn message_text_is_the_debug_text() {
    same_as_debug(ClientMessage::Detach);
    same_as_debug(ClientMessage::Attach { session_name: "main".to_string() });
    same_as_debug(ClientMessage::CreatePane { window_id: 7, command: None });
    same_as_debug(ClientMessage::CreatePane { window_id: 0, command: Some("ls -l".to_string()) });
    same_as_debug(ClientMessage::MovePane { pane_id: 12, direction: MoveDirection::Left });
    same_as_debug(ClientMessage::Navigate { session_name: "w".to_string(), direction: NavigateDirection::Down });
    same_as_debug(ClientMessage::SendInput { pane_id: 3, data: vec![] });
    same_as_debug(ClientMessage::SendInput { pane_id: 3, data: vec![0, 27, 255] });
    same_as_debug(ClientMessage::ResizePane { pane_id: 1, cols: 80, rows: 24 });
}

#[test]
fn strings_are_escaped_as_debug_escapes_them() {
    for name in ["a\"b", "back\\slash", "tab\there", "new\nline", "it's", "caf\u{e9}", "bell\u{7}", "\u{301}x", "\u{200b}"] {
        same_as_debug(ClientMessage::Attach { session_name: name.to_string() });
    }
}

#[test]
fn attach_text_in_full() {
    let m = ClientMessage::Attach { session_name: "a\"b".to_string() };
    assert_eq!(client_message_text(&m), "Attach { session_name: \"a\\\"b\" }");
    let m = ClientMessage::SendInput { pane_id: 5, data: vec![1, 2] };
    assert_eq!(client_message_text(&m), "SendInput { pane_id: 5, data: [1, 2] }");
}
