use minmux::ipc::{MoveDirection, NavigateDirection, SessionInfo};
use minmux::session::{PtySize, SessionStore, StoreError};

fn name(s: &str) -> String {
    s.to_string()
}

fn pane_ids(info: &SessionInfo, window: usize) -> Vec<u64> {
    info.windows[window].panes.iter().map(|p| p.id).collect()
}

fn pane_names(info: &SessionInfo, window: usize) -> Vec<String> {
    info.windows[window].panes.iter().map(|p| p.name.clone()).collect()
}

#[test]
fn new_session_has_one_window_with_one_pane() {
    let mut store = SessionStore::new();
    let pane = store.ensure_session(&name("main"));
    assert_eq!(pane, Some(1));
    let info = store.session_info(&name("main"));
    assert_eq!(info.name, "main");
    assert_eq!(info.windows.len(), 1);
    assert_eq!(info.windows[0].id, 2);
    assert_eq!(info.windows[0].name, "window 1");
    assert_eq!(pane_ids(&info, 0), vec![1]);
    assert_eq!(pane_names(&info, 0), vec!["pane 1".to_string()]);
    assert_eq!(info.windows[0].active_pane_id, 1);
    assert_eq!(info.active_window_id, 2);
}

#[test]
fn ensure_session_twice_changes_nothing() {
    let mut store = SessionStore::new();
    assert_eq!(store.ensure_session(&name("work")), Some(1));
    assert_eq!(store.ensure_session(&name("work")), None);
    let info = store.session_info(&name("work"));
    assert_eq!(info.windows.len(), 1);
    assert_eq!(pane_ids(&info, 0), vec![1]);
    // A second session gets fresh ids.
    assert_eq!(store.ensure_session(&name("other")), Some(3));
    assert!(store.has_session(&name("other")));
    assert!(!store.has_session(&name("missing")));
}

#[test]
fn create_pane_appends_numbered_pane() {
    let mut store = SessionStore::new();
    store.ensure_session(&name("main"));
    assert_eq!(store.check_create_pane(&name("main"), 2), Ok(()));
    assert_eq!(store.create_pane(&name("main"), 2), Ok(3));
    assert_eq!(store.create_pane(&name("main"), 2), Ok(4));
    let info = store.session_info(&name("main"));
    assert_eq!(pane_ids(&info, 0), vec![1, 3, 4]);
    assert_eq!(
        pane_names(&info, 0),
        vec!["pane 1".to_string(), "pane 2".to_string(), "pane 3".to_string()]
    );
    // The active pane does not change.
    assert_eq!(info.windows[0].active_pane_id, 1);
}

#[test]
fn create_pane_errors() {
    let mut store = SessionStore::new();
    store.ensure_session(&name("main"));
    let e = store.create_pane(&name("nope"), 2).unwrap_err();
    assert_eq!(e, StoreError::UnknownSession(name("nope")));
    assert_eq!(e.message(), "session not found: nope");
    let e = store.create_pane(&name("main"), 99).unwrap_err();
    assert_eq!(e, StoreError::WindowNotFound(99));
    assert_eq!(e.message(), "window 99 not found");
    assert_eq!(store.check_create_pane(&name("main"), 99), Err(StoreError::WindowNotFound(99)));
}

#[test]
fn navigate_between_panes_and_windows() {
    let mut store = SessionStore::new();
    store.ensure_session(&name("main"));
    store.create_pane(&name("main"), 2).unwrap();
    let s = name("main");
    assert_eq!(store.navigate(&s, NavigateDirection::Up), Err(StoreError::NoPaneAbove));
    assert_eq!(store.navigate(&s, NavigateDirection::Down), Ok(()));
    assert_eq!(store.session_info(&s).windows[0].active_pane_id, 3);
    assert_eq!(store.navigate(&s, NavigateDirection::Down), Err(StoreError::NoPaneBelow));
    assert_eq!(store.navigate(&s, NavigateDirection::Up), Ok(()));
    assert_eq!(store.session_info(&s).windows[0].active_pane_id, 1);
    assert_eq!(store.navigate(&s, NavigateDirection::Left), Err(StoreError::NoWindowLeft));
    assert_eq!(store.navigate(&s, NavigateDirection::Right), Err(StoreError::NoWindowRight));
    assert_eq!(store.navigate(&name("x"), NavigateDirection::Up), Err(StoreError::SessionNotFound));
    assert_eq!(StoreError::NoPaneAbove.message(), "no pane above");
    assert_eq!(StoreError::NoWindowRight.message(), "no window to the right");
}

#[test]
fn move_pane_up_and_down_swaps_neighbours() {
    let mut store = SessionStore::new();
    let s = name("main");
    store.ensure_session(&s); // pane 1, window 2
    store.create_pane(&s, 2).unwrap(); // pane 3
    store.create_pane(&s, 2).unwrap(); // pane 4
    assert_eq!(store.move_pane(&s, 4, MoveDirection::Up), Ok(()));
    assert_eq!(pane_ids(&store.session_info(&s), 0), vec![1, 4, 3]);
    assert_eq!(store.move_pane(&s, 4, MoveDirection::Down), Ok(()));
    assert_eq!(pane_ids(&store.session_info(&s), 0), vec![1, 3, 4]);
    assert_eq!(store.move_pane(&s, 1, MoveDirection::Up), Err(StoreError::PaneAtTop));
    assert_eq!(store.move_pane(&s, 4, MoveDirection::Down), Err(StoreError::PaneAtBottom));
    assert_eq!(store.move_pane(&s, 77, MoveDirection::Down), Err(StoreError::PaneNotFound(77)));
    assert_eq!(StoreError::PaneNotFound(77).message(), "pane 77 not found");
    assert_eq!(store.move_pane(&name("x"), 1, MoveDirection::Down), Err(StoreError::SessionNotFound));
}

#[test]
fn moving_the_active_pane_keeps_it_active() {
    let mut store = SessionStore::new();
    let s = name("main");
    store.ensure_session(&s);
    store.create_pane(&s, 2).unwrap(); // pane 3
    // pane 1 is active; move it down below pane 3.
    assert_eq!(store.move_pane(&s, 1, MoveDirection::Down), Ok(()));
    let info = store.session_info(&s);
    assert_eq!(pane_ids(&info, 0), vec![3, 1]);
    assert_eq!(info.windows[0].active_pane_id, 1);
}

#[test]
fn move_pane_right_creates_a_window() {
    let mut store = SessionStore::new();
    let s = name("main");
    store.ensure_session(&s); // pane 1, window 2
    store.create_pane(&s, 2).unwrap(); // pane 3
    // Moving pane 3 right: the id 4 is set aside for a new window.
    assert_eq!(store.move_pane(&s, 3, MoveDirection::Right), Ok(()));
    let info = store.session_info(&s);
    assert_eq!(info.windows.len(), 2);
    assert_eq!(info.windows[1].id, 4);
    assert_eq!(info.windows[1].name, "window 2");
    assert_eq!(pane_ids(&info, 0), vec![1]);
    assert_eq!(pane_ids(&info, 1), vec![3]);
    assert_eq!(info.active_window_id, 2);
    // Navigating right reaches it.
    assert_eq!(store.navigate(&s, NavigateDirection::Right), Ok(()));
    assert_eq!(store.session_info(&s).active_window_id, 4);
}

#[test]
fn move_pane_left_into_existing_window() {
    let mut store = SessionStore::new();
    let s = name("main");
    store.ensure_session(&s); // pane 1, window 2
    store.create_pane(&s, 2).unwrap(); // pane 3
    store.create_pane(&s, 2).unwrap(); // pane 4
    assert_eq!(store.move_pane(&s, 4, MoveDirection::Left), Ok(())); // new window 5 on the left
    let info = store.session_info(&s);
    assert_eq!(info.windows.iter().map(|w| w.id).collect::<Vec<_>>(), vec![5, 2]);
    assert_eq!(pane_ids(&info, 0), vec![4]);
    assert_eq!(pane_ids(&info, 1), vec![1, 3]);
    // The active window index is unchanged, so the new window is now active.
    assert_eq!(info.active_window_id, 5);
    // Move pane 3 left into window 5.
    assert_eq!(store.move_pane(&s, 3, MoveDirection::Left), Ok(()));
    let info = store.session_info(&s);
    assert_eq!(pane_ids(&info, 0), vec![4, 3]);
    assert_eq!(pane_ids(&info, 1), vec![1]);
    assert_eq!(info.windows[0].active_pane_id, 4);
}

#[test]
fn sideways_move_of_a_lone_pane_is_not_handled() {
    let mut store = SessionStore::new();
    let s = name("main");
    store.ensure_session(&s);
    assert!(store.move_pane_fails(&s, 1, MoveDirection::Left));
    assert!(store.move_pane_fails(&s, 1, MoveDirection::Right));
    assert!(!store.move_pane_fails(&s, 1, MoveDirection::Up));
    assert!(!store.move_pane_fails(&s, 99, MoveDirection::Left));
    assert!(!store.move_pane_fails(&name("x"), 1, MoveDirection::Left));
}

#[test]
fn active_pane_index_pulled_back_when_last_pane_leaves() {
    let mut store = SessionStore::new();
    let s = name("main");
    store.ensure_session(&s);
    store.create_pane(&s, 2).unwrap(); // pane 3
    store.navigate(&s, NavigateDirection::Down).unwrap(); // pane 3 active
    store.move_pane(&s, 3, MoveDirection::Right).unwrap();
    let info = store.session_info(&s);
    assert_eq!(info.windows[0].active_pane_id, 1);
}

#[test]
fn send_input_and_resize_find_panes_in_any_session() {
    let mut store = SessionStore::new();
    store.ensure_session(&name("a"));
    store.ensure_session(&name("b")); // pane 3
    let w = store.send_input(3, vec![104, 105]).unwrap();
    assert_eq!(w.pane_id, 3);
    assert_eq!(w.data, vec![104, 105]);
    let e = store.send_input(2, vec![1]).err().unwrap();
    assert_eq!(e, StoreError::PaneNotFound(2));
    let z = store.resize_pane(1, 120, 40).unwrap();
    assert_eq!(z.pane_id, 1);
    assert_eq!(z.size, PtySize { rows: 40, cols: 120, pixel_width: 0, pixel_height: 0 });
    assert!(store.resize_pane(9, 1, 1).is_err());
}

#[test]
fn output_reaches_subscribers_until_they_go_away() {
    let mut store = SessionStore::new();
    let s = name("main");
    store.ensure_session(&s);
    let mut rx1 = store.subscribe_output(&s);
    let rx2 = store.subscribe_output(&s);
    store.broadcast_output(&s, 1, vec![7, 8]);
    assert_eq!(rx1.rx.try_recv().unwrap(), (1, vec![7, 8]));
    drop(rx2);
    store.broadcast_output(&s, 1, vec![9]);
    assert_eq!(rx1.rx.try_recv().unwrap(), (1, vec![9]));
    // Output for a session without subscribers goes nowhere.
    store.broadcast_output(&name("other"), 1, vec![1]);
}

#[test]
fn navigating_to_a_window_lands_on_its_top_pane() {
    let mut store = SessionStore::new();
    let s = name("main");
    store.ensure_session(&s); // pane 1, window 2
    store.create_pane(&s, 2).unwrap(); // pane 3
    store.create_pane(&s, 2).unwrap(); // pane 4
    assert_eq!(store.move_pane(&s, 4, MoveDirection::Right), Ok(())); // window 5
    assert_eq!(store.navigate(&s, NavigateDirection::Down), Ok(()));
    assert_eq!(store.session_info(&s).windows[0].active_pane_id, 3);
    assert_eq!(store.navigate(&s, NavigateDirection::Right), Ok(()));
    assert_eq!(store.navigate(&s, NavigateDirection::Left), Ok(()));
    let info = store.session_info(&s);
    assert_eq!(info.active_window_id, 2);
    assert_eq!(info.windows[0].active_pane_id, 1);
}
