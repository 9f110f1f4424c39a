use minmux::ipc::{ClientMessage, MoveDirection, NavigateDirection, ServerMessage};
use minmux::server::{handle_client, pane_program, ClientEvent, ClientHandler, Phase, ServerAction, PANE_TERM};
use minmux::session::SessionStore;

fn attach(name: &str) -> ClientEvent {
    ClientEvent::Received(ClientMessage::Attach { session_name: name.to_string() })
}

fn error_text(a: &ServerAction) -> String {
    match a {
        ServerAction::Send(ServerMessage::Error { message }) => message.clone(),
        _ => panic!("expected an error message"),
    }
}

#[test]
fn attach_to_a_new_session_opens_its_first_pane() {
    let mut store = SessionStore::new();
    let mut h = ClientHandler::new();
    let actions = handle_client(&mut h, &mut store, attach("main"));
    assert_eq!(actions.len(), 1);
    match &actions[0] {
        ServerAction::OpenPty { command, size } => {
            assert!(command.is_none());
            assert_eq!((size.rows, size.cols, size.pixel_width, size.pixel_height), (24, 80, 0, 0));
        }
        _ => panic!("expected a terminal to open"),
    }
    assert!(matches!(h.phase, Phase::OpeningSession { .. }));
    let actions = handle_client(&mut h, &mut store, ClientEvent::PtyOpened);
    assert_eq!(actions.len(), 3);
    assert!(matches!(actions[0], ServerAction::KeepPty { pane_id: 1 }));
    match &actions[1] {
        ServerAction::Send(ServerMessage::SessionState(info)) => {
            assert_eq!(info.name, "main");
            assert_eq!(info.windows[0].panes[0].id, 1);
        }
        _ => panic!("expected the session state"),
    }
    assert!(matches!(actions[2], ServerAction::ForwardOutput(_)));
    assert!(matches!(h.phase, Phase::Attached { .. }));
}

#[test]
fn attach_to_an_existing_session_sends_its_state() {
    let mut store = SessionStore::new();
    store.ensure_session(&"main".to_string());
    let mut h = ClientHandler::new();
    let actions = handle_client(&mut h, &mut store, attach("main"));
    assert_eq!(actions.len(), 2);
    assert!(matches!(actions[0], ServerAction::Send(ServerMessage::SessionState(_))));
    assert!(matches!(actions[1], ServerAction::ForwardOutput(_)));
}

#[test]
fn first_message_must_attach() {
    let mut store = SessionStore::new();
    let mut h = ClientHandler::new();
    let actions = handle_client(&mut h, &mut store, ClientEvent::Received(ClientMessage::Detach));
    assert_eq!(actions.len(), 2);
    assert_eq!(error_text(&actions[0]), "expected Attach, got Detach");
    assert!(matches!(actions[1], ServerAction::Close));
    assert!(h.is_finished());

    let mut h = ClientHandler::new();
    let actions = handle_client(&mut h, &mut store, ClientEvent::ReceiveFailed);
    assert!(matches!(actions[..], [ServerAction::Fail]));
}

fn attached(store: &mut SessionStore) -> ClientHandler {
    let mut h = ClientHandler::new();
    handle_client(&mut h, store, attach("main"));
    handle_client(&mut h, store, ClientEvent::PtyOpened);
    h
}

#[test]
fn requests_once_attached() {
    let mut store = SessionStore::new();
    let mut h = attached(&mut store);

    let a = handle_client(&mut h, &mut store, attach("other"));
    assert_eq!(error_text(&a[0]), "already attached");

    // A pane for window 2: the terminal opens, then the pane is added.
    let a = handle_client(
        &mut h,
        &mut store,
        ClientEvent::Received(ClientMessage::CreatePane { window_id: 2, command: Some("top".to_string()) }),
    );
    match &a[..] {
        [ServerAction::OpenPty { command: Some(c), .. }] => assert_eq!(c, "top"),
        _ => panic!("expected a terminal to open"),
    }
    let a = handle_client(&mut h, &mut store, ClientEvent::PtyOpened);
    assert!(matches!(a[0], ServerAction::KeepPty { pane_id: 3 }));
    assert!(matches!(a[1], ServerAction::Send(ServerMessage::SessionState(_))));

    let a = handle_client(
        &mut h,
        &mut store,
        ClientEvent::Received(ClientMessage::CreatePane { window_id: 9, command: None }),
    );
    assert_eq!(error_text(&a[0]), "window 9 not found");

    let a = handle_client(
        &mut h,
        &mut store,
        ClientEvent::Received(ClientMessage::Navigate {
            session_name: "ignored".to_string(),
            direction: NavigateDirection::Down,
        }),
    );
    match &a[0] {
        ServerAction::Send(ServerMessage::SessionState(info)) => assert_eq!(info.windows[0].active_pane_id, 3),
        _ => panic!("expected the session state"),
    }

    let a = handle_client(
        &mut h,
        &mut store,
        ClientEvent::Received(ClientMessage::MovePane { pane_id: 3, direction: MoveDirection::Down }),
    );
    assert_eq!(error_text(&a[0]), "pane is already at the bottom");

    let a = handle_client(
        &mut h,
        &mut store,
        ClientEvent::Received(ClientMessage::SendInput { pane_id: 3, data: vec![1, 2] }),
    );
    match &a[..] {
        [ServerAction::WritePty(w)] => assert_eq!((w.pane_id, w.data.clone()), (3, vec![1, 2])),
        _ => panic!("expected a write"),
    }
    let a = handle_client(&mut h, &mut store, ClientEvent::PtyError("broken pipe".to_string()));
    assert_eq!(error_text(&a[0]), "broken pipe");

    let a = handle_client(
        &mut h,
        &mut store,
        ClientEvent::Received(ClientMessage::ResizePane { pane_id: 50, cols: 1, rows: 1 }),
    );
    assert_eq!(error_text(&a[0]), "pane 50 not found");

    let a = handle_client(&mut h, &mut store, ClientEvent::Received(ClientMessage::Detach));
    assert!(matches!(a[..], [ServerAction::Send(ServerMessage::Detached), ServerAction::Close]));
    assert!(h.is_finished());
}

#[test]
fn failed_terminal_for_a_new_pane_is_reported() {
    let mut store = SessionStore::new();
    let mut h = attached(&mut store);
    handle_client(
        &mut h,
        &mut store,
        ClientEvent::Received(ClientMessage::CreatePane { window_id: 2, command: None }),
    );
    let a = handle_client(&mut h, &mut store, ClientEvent::PtyError("no pty".to_string()));
    assert_eq!(error_text(&a[0]), "no pty");
    assert!(matches!(h.phase, Phase::Attached { .. }));
    assert_eq!(store.session_info(&"main".to_string()).windows[0].panes.len(), 1);
}

#[test]
fn unhandled_events() {
    let mut store = SessionStore::new();
    let h = attached(&mut store);
    let lone_move = ClientEvent::Received(ClientMessage::MovePane { pane_id: 1, direction: MoveDirection::Left });
    assert!(h.is_unhandled(&store, &lone_move));
    let mut opening = ClientHandler::new();
    handle_client(&mut opening, &mut store, attach("fresh"));
    assert!(opening.is_unhandled(&store, &ClientEvent::PtyError("x".to_string())));
    assert!(!opening.is_unhandled(&store, &ClientEvent::PtyOpened));
}

#[test]
fn pane_programs() {
    assert_eq!(pane_program(Some("vim".to_string()), Some("/bin/zsh".to_string())), "vim");
    assert_eq!(pane_program(None, Some("/bin/zsh".to_string())), "/bin/zsh");
    assert_eq!(pane_program(None, None), "/bin/sh");
    assert_eq!(PANE_TERM, "xterm-256color");
}
