use minmux::client::{AppState, InputMode};
use minmux::input::handle_key;
use minmux::ipc::{MoveDirection, NavigateDirection, SessionInfo};
use minmux::keys::{KeyCode, KeyEvent, CONTROL};
use minmux::session::SessionStore;
use std::collections::HashSet;

fn all_ids(info: &SessionInfo) -> Vec<u64> {
    let mut ids = Vec::new();
    for w in &info.windows {
        ids.push(w.id);
        for p in &w.panes {
            ids.push(p.id);
        }
    }
    ids
}

fn layout(info: &SessionInfo) -> Vec<(u64, Vec<u64>, u64)> {
    info.windows
        .iter()
        .map(|w| (w.id, w.panes.iter().map(|p| p.id).collect(), w.active_pane_id))
        .collect()
}

#[test]
fn ids_stay_unique_across_operations() {
    let mut store = SessionStore::new();
    let a = "a".to_string();
    let b = "b".to_string();
    store.ensure_session(&a);
    store.ensure_session(&b);
    store.create_pane(&a, 2).unwrap();
    store.create_pane(&a, 2).unwrap();
    store.move_pane(&a, 6, MoveDirection::Right).unwrap();
    store.move_pane(&a, 5, MoveDirection::Left).unwrap();
    store.create_pane(&b, 4).unwrap();
    store.move_pane(&b, 9, MoveDirection::Up).unwrap();
    let mut seen = HashSet::new();
    for name in [&a, &b] {
        for id in all_ids(&store.session_info(name)) {
            assert!(seen.insert(id), "id {id} appears twice");
            assert!(id < store.next_id());
        }
    }
    assert!(store.has_session(&a) && store.has_session(&b));
}

#[test]
fn moving_back_restores_the_session() {
    let mut store = SessionStore::new();
    let s = "main".to_string();
    store.ensure_session(&s);
    store.create_pane(&s, 2).unwrap();
    store.create_pane(&s, 2).unwrap();
    store.navigate(&s, NavigateDirection::Down).unwrap();
    let before = layout(&store.session_info(&s));
    store.move_pane(&s, 3, MoveDirection::Down).unwrap();
    assert_ne!(layout(&store.session_info(&s)), before);
    store.move_pane(&s, 3, MoveDirection::Up).unwrap();
    assert_eq!(layout(&store.session_info(&s)), before);
}

#[test]
fn navigating_back_restores_the_focus() {
    let mut store = SessionStore::new();
    let s = "main".to_string();
    store.ensure_session(&s);
    store.create_pane(&s, 2).unwrap();
    store.create_pane(&s, 2).unwrap(); // pane 4
    store.move_pane(&s, 4, MoveDirection::Right).unwrap(); // window 5
    let before = store.session_info(&s);
    store.navigate(&s, NavigateDirection::Right).unwrap();
    store.navigate(&s, NavigateDirection::Left).unwrap();
    let after = store.session_info(&s);
    assert_eq!(after.active_window_id, before.active_window_id);
    assert_eq!(layout(&after), layout(&before));
}

#[test]
fn escape_always_returns_to_normal_mode() {
    for mode_key in ['n', 'm', 'x'] {
        let mut s = AppState::new();
        handle_key(KeyEvent::new(KeyCode::Char('t'), CONTROL), &mut s);
        handle_key(KeyEvent::new(KeyCode::Char(mode_key), 0), &mut s);
        assert_ne!(s.input_mode, InputMode::Normal);
        let (_, msg) = handle_key(KeyEvent::new(KeyCode::Esc, CONTROL), &mut s);
        assert!(msg.is_none());
        assert_eq!(s.input_mode, InputMode::Normal);
        assert!(s.pending_sequence.is_empty());
        assert!(s.status_message.is_none());
    }
}
