//! Key handling: in normal mode keys go to the active pane; `^T` enters
//! command mode, from which the navigate and move modes are reached.

use vstd::prelude::*;

use crate::client::{AppState, AppView, InputMode};
use crate::ipc::{ClientMessage, MoveDirection, NavigateDirection, PaneId, SessionInfo, WindowId, WindowInfo};
use crate::keys::{key_bytes, key_display, key_label, key_to_bytes, KeyCode, KeyEvent, CONTROL};
use crate::util::{first_index, is_first, lemma_first_index_is, lemma_first_index_none};

verus! {

/// Help text shown when the user presses `^T h`.
pub const HELP_TEXT: &'static str = "Key Bindings
============

Normal mode:
  ^T            Enter command mode
  <any>         Send key to active pane

Command mode:
  h             Show this help
  p             Append new pane
  n             Enter navigate mode
  m             Enter move mode
  d             Detach session
  <Escape>      Return to normal mode

Navigate mode (navigate between panes/windows):
  j             Pane below
  k             Pane above
  h             Window to the left (top pane)
  l             Window to the right (top pane)
  <Escape>      Return to normal mode

Move mode (move the active pane):
  j             Move pane down
  k             Move pane up
  h             Move pane left (or new window)
  l             Move pane right (or new window)
  <Escape>      Return to normal mode
";

/// A request to the server, as the model sees it.
pub enum Request {
    SendInput { pane_id: PaneId, data: Seq<u8> },
    CreatePane { window_id: WindowId },
    MovePane { pane_id: PaneId, direction: MoveDirection },
    Navigate { session_name: Seq<char>, direction: NavigateDirection },
    Detach,
}

/// The message `m` carries the request `r`.
pub open spec fn message_is(m: ClientMessage, r: Request) -> bool {
    match r {
        Request::SendInput { pane_id, data } => m matches ClientMessage::SendInput { pane_id: p, data: d }
            && p == pane_id && d@ == data,
        Request::CreatePane { window_id } => m matches ClientMessage::CreatePane { window_id: w, command }
            && w == window_id && command is None,
        Request::MovePane { pane_id, direction } => m matches ClientMessage::MovePane { pane_id: p, direction: d }
            && p == pane_id && d == direction,
        Request::Navigate { session_name, direction } => m matches ClientMessage::Navigate {
            session_name: n,
            direction: d,
        } && n@ == session_name && d == direction,
        Request::Detach => m is Detach,
    }
}

/// The optional message carries the optional request.
pub open spec fn sends(m: Option<ClientMessage>, r: Option<Request>) -> bool {
    match r {
        None => m is None,
        Some(q) => m matches Some(x) && message_is(x, q),
    }
}

/// The window has this id.
pub open spec fn window_info_is(id: WindowId) -> spec_fn(WindowInfo) -> bool {
    |w: WindowInfo| w.id == id
}

/// The active pane of the session: the active pane of the first window
/// whose id is the session's active window id.
pub open spec fn active_pane_of(session: Option<SessionInfo>) -> Option<PaneId> {
    match session {
        None => None,
        Some(s) => match first_index(s.windows@, window_info_is(s.active_window_id)) {
            Some(i) => Some(s.windows@[i].active_pane_id),
            None => None,
        },
    }
}

/// The state with the pending keys cleared.
pub open spec fn cleared(v: AppView) -> AppView {
    AppView { pending: Seq::empty(), ..v }
}

/// A key in normal mode: `^T` enters command mode; any other key that
/// sends bytes is sent to the active pane.
pub open spec fn normal_step(v: AppView, key: KeyEvent) -> (AppView, Option<Request>) {
    if key.modifiers == CONTROL && key.code == KeyCode::Char('t') {
        (AppView { mode: InputMode::Command, pending: Seq::empty(), status: None, ..v }, None)
    } else {
        (
            v,
            match key_bytes(key) {
                Some(data) => match active_pane_of(v.session) {
                    Some(id) => Some(Request::SendInput { pane_id: id, data: data }),
                    None => None,
                },
                None => None,
            },
        )
    }
}

/// The last key of a command-mode sequence: `h` shows help, `p` asks for
/// a new pane in the active window, `n` and `m` enter navigate and move
/// mode, `d` detaches; anything else is reported.
pub open spec fn command_step(v: AppView) -> (AppView, Option<Request>) {
    let key = v.pending.last();
    match key.code {
        KeyCode::Char('h') => (AppView { help: Some(HELP_TEXT@), ..cleared(v) }, None),
        KeyCode::Char('p') => (
            cleared(v),
            match v.session {
                Some(s) => Some(Request::CreatePane { window_id: s.active_window_id }),
                None => None,
            },
        ),
        KeyCode::Char('n') => (
            AppView { mode: InputMode::Navigate, status: Some("navigate mode"@), ..cleared(v) },
            None,
        ),
        KeyCode::Char('m') => (AppView { mode: InputMode::Move, status: Some("move mode"@), ..cleared(v) }, None),
        KeyCode::Char('d') => (cleared(v), Some(Request::Detach)),
        _ => (AppView { status: Some("unknown command: "@ + key_label(key)), ..cleared(v) }, None),
    }
}

/// The last key of a navigate-mode sequence: `j`, `k`, `h`, `l` ask to
/// make the pane below or above, or the window left or right, active.
pub open spec fn navigate_step(v: AppView) -> (AppView, Option<Request>) {
    let key = v.pending.last();
    match v.session {
        None => (cleared(v), None),
        Some(s) => match key.code {
            KeyCode::Char('j') => (cleared(v), Some(Request::Navigate { session_name: s.name@, direction: NavigateDirection::Down })),
            KeyCode::Char('k') => (cleared(v), Some(Request::Navigate { session_name: s.name@, direction: NavigateDirection::Up })),
            KeyCode::Char('h') => (cleared(v), Some(Request::Navigate { session_name: s.name@, direction: NavigateDirection::Left })),
            KeyCode::Char('l') => (cleared(v), Some(Request::Navigate { session_name: s.name@, direction: NavigateDirection::Right })),
            _ => (AppView { status: Some("unknown navigate key: "@ + key_label(key)), ..cleared(v) }, None),
        },
    }
}

/// The last key of a move-mode sequence: `j`, `k`, `h`, `l` ask to move
/// the active pane down, up, left or right.
pub open spec fn move_step(v: AppView) -> (AppView, Option<Request>) {
    let key = v.pending.last();
    match active_pane_of(v.session) {
        None => (cleared(v), None),
        Some(id) => match key.code {
            KeyCode::Char('j') => (cleared(v), Some(Request::MovePane { pane_id: id, direction: MoveDirection::Down })),
            KeyCode::Char('k') => (cleared(v), Some(Request::MovePane { pane_id: id, direction: MoveDirection::Up })),
            KeyCode::Char('h') => (cleared(v), Some(Request::MovePane { pane_id: id, direction: MoveDirection::Left })),
            KeyCode::Char('l') => (cleared(v), Some(Request::MovePane { pane_id: id, direction: MoveDirection::Right })),
            _ => (AppView { status: Some("unknown move key: "@ + key_label(key)), ..cleared(v) }, None),
        },
    }
}

/// One key press: the new state and the request, if any, for the server.
/// Escape leaves any mode but normal; other keys in those modes are added
/// to the pending sequence and acted on.
pub open spec fn key_step(v: AppView, key: KeyEvent) -> (AppView, Option<Request>) {
    match v.mode {
        InputMode::Normal => normal_step(v, key),
        _ => if key.code == KeyCode::Esc {
            (AppView { mode: InputMode::Normal, pending: Seq::empty(), status: None, help: None, ..v }, None)
        } else {
            let w = AppView { pending: v.pending.push(key), ..v };
            match v.mode {
                InputMode::Command => command_step(w),
                InputMode::Navigate => navigate_step(w),
                _ => move_step(w),
            }
        },
    }
}

/// Handle one key press.  Returns `(quit, Option<ClientMessage>)`.
pub fn handle_key(key: KeyEvent, state: &mut AppState) -> (r: (bool, Option<ClientMessage>))
    ensures
        !r.0,
        final(state)@ == key_step(old(state)@, key).0,
        sends(r.1, key_step(old(state)@, key).1),
{
    match state.input_mode {
        InputMode::Normal => handle_normal(key, state),
        InputMode::Command => handle_non_normal(key, state, InputMode::Command),
        InputMode::Navigate => handle_non_normal(key, state, InputMode::Navigate),
        InputMode::Move => handle_non_normal(key, state, InputMode::Move),
    }
}

fn handle_normal(key: KeyEvent, state: &mut AppState) -> (r: (bool, Option<ClientMessage>))
    ensures
        !r.0,
        final(state)@ == normal_step(old(state)@, key).0,
        sends(r.1, normal_step(old(state)@, key).1),
{
    if key.modifiers == CONTROL && key.code == KeyCode::Char('t') {
        state.input_mode = InputMode::Command;
        state.pending_sequence.clear();
        state.status_message = None;
        assert(state@.pending =~= Seq::<KeyEvent>::empty());
        return (false, None);
    }
    let msg = if let Some(data) = key_to_bytes(&key) {
        match active_pane_id(state) {
            Some(id) => Some(ClientMessage::SendInput { pane_id: id, data: data }),
            None => None,
        }
    } else {
        None
    };
    (false, msg)
}

fn handle_non_normal(key: KeyEvent, state: &mut AppState, mode: InputMode) -> (r: (bool, Option<ClientMessage>))
    requires
        mode != InputMode::Normal,
        old(state).input_mode == mode,
    ensures
        !r.0,
        final(state)@ == key_step(old(state)@, key).0,
        sends(r.1, key_step(old(state)@, key).1),
{
    if key.code == KeyCode::Esc {
        state.input_mode = InputMode::Normal;
        state.pending_sequence.clear();
        state.status_message = None;
        state.help_text = None;
        assert(state@.pending =~= Seq::<KeyEvent>::empty());
        return (false, None);
    }
    state.pending_sequence.push(key);
    match mode {
        InputMode::Command => handle_command(state),
        InputMode::Navigate => handle_navigate(state),
        _ => handle_move(state),
    }
}

fn last_key(state: &AppState) -> (k: Option<KeyEvent>)
    ensures
        state.pending_sequence@.len() == 0 ==> k is None,
        state.pending_sequence@.len() > 0 ==> k == Some(state.pending_sequence@.last()),
{
    let n = state.pending_sequence.len();
    if n == 0 {
        None
    } else {
        Some(state.pending_sequence[n - 1])
    }
}

fn handle_command(state: &mut AppState) -> (r: (bool, Option<ClientMessage>))
    requires
        old(state)@.pending.len() > 0,
    ensures
        !r.0,
        final(state)@ == command_step(old(state)@).0,
        sends(r.1, command_step(old(state)@).1),
{
    let key = match last_key(state) {
        Some(k) => k,
        None => return (false, None),
    };
    match key.code {
        KeyCode::Char('h') => {
            state.help_text = Some(String::from_str(HELP_TEXT));
            state.pending_sequence.clear();
            assert(state@.pending =~= Seq::<KeyEvent>::empty());
            (false, None)
        },
        KeyCode::Char('p') => {
            state.pending_sequence.clear();
            assert(state@.pending =~= Seq::<KeyEvent>::empty());
            let msg = match active_window_id(state) {
                Some(wid) => Some(ClientMessage::CreatePane { window_id: wid, command: None }),
                None => None,
            };
            (false, msg)
        },
        KeyCode::Char('n') => {
            state.input_mode = InputMode::Navigate;
            state.pending_sequence.clear();
            state.status_message = Some(String::from_str("navigate mode"));
            assert(state@.pending =~= Seq::<KeyEvent>::empty());
            (false, None)
        },
        KeyCode::Char('m') => {
            state.input_mode = InputMode::Move;
            state.pending_sequence.clear();
            state.status_message = Some(String::from_str("move mode"));
            assert(state@.pending =~= Seq::<KeyEvent>::empty());
            (false, None)
        },
        KeyCode::Char('d') => {
            state.pending_sequence.clear();
            assert(state@.pending =~= Seq::<KeyEvent>::empty());
            (false, Some(ClientMessage::Detach))
        },
        _ => {
            let mut text = String::from_str("unknown command: ");
            text.append(key_display(&key).as_str());
            state.status_message = Some(text);
            state.pending_sequence.clear();
            assert(state@.pending =~= Seq::<KeyEvent>::empty());
            (false, None)
        },
    }
}

fn handle_navigate(state: &mut AppState) -> (r: (bool, Option<ClientMessage>))
    requires
        old(state)@.pending.len() > 0,
    ensures
        !r.0,
        final(state)@ == navigate_step(old(state)@).0,
        sends(r.1, navigate_step(old(state)@).1),
{
    let key = match last_key(state) {
        Some(k) => k,
        None => return (false, None),
    };
    state.pending_sequence.clear();
    assert(state@.pending =~= Seq::<KeyEvent>::empty());
    let session_name = match &state.session {
        Some(s) => s.name.clone(),
        None => return (false, None),
    };
    let direction = match key.code {
        KeyCode::Char('j') => NavigateDirection::Down,
        KeyCode::Char('k') => NavigateDirection::Up,
        KeyCode::Char('h') => NavigateDirection::Left,
        KeyCode::Char('l') => NavigateDirection::Right,
        _ => {
            let mut text = String::from_str("unknown navigate key: ");
            text.append(key_display(&key).as_str());
            state.status_message = Some(text);
            return (false, None);
        },
    };
    (false, Some(ClientMessage::Navigate { session_name: session_name, direction: direction }))
}

fn handle_move(state: &mut AppState) -> (r: (bool, Option<ClientMessage>))
    requires
        old(state)@.pending.len() > 0,
    ensures
        !r.0,
        final(state)@ == move_step(old(state)@).0,
        sends(r.1, move_step(old(state)@).1),
{
    let key = match last_key(state) {
        Some(k) => k,
        None => return (false, None),
    };
    state.pending_sequence.clear();
    assert(state@.pending =~= Seq::<KeyEvent>::empty());
    let pane_id = match active_pane_id(state) {
        Some(id) => id,
        None => return (false, None),
    };
    let direction = match key.code {
        KeyCode::Char('j') => MoveDirection::Down,
        KeyCode::Char('k') => MoveDirection::Up,
        KeyCode::Char('h') => MoveDirection::Left,
        KeyCode::Char('l') => MoveDirection::Right,
        _ => {
            let mut text = String::from_str("unknown move key: ");
            text.append(key_display(&key).as_str());
            state.status_message = Some(text);
            return (false, None);
        },
    };
    (false, Some(ClientMessage::MovePane { pane_id: pane_id, direction: direction }))
}

// ─── Helpers ─────────────────────────────────────────────────────────────────

/// The active pane of the attached session, if known.
pub fn active_pane_id(state: &AppState) -> (r: Option<PaneId>)
    ensures
        r == active_pane_of(state.session),
{
    let session = match &state.session {
        Some(s) => s,
        None => return None,
    };
    let mut i: usize = 0;
    while i < session.windows.len()
        invariant
            i <= session.windows@.len(),
            state.session == Some(*session),
            forall|k: int| 0 <= k < i ==> !(#[trigger] window_info_is(session.active_window_id)(session.windows@[k])),
        decreases session.windows@.len() - i,
    {
        if session.windows[i].id == session.active_window_id {
            assert(is_first(session.windows@, window_info_is(session.active_window_id), i as int));
            proof { lemma_first_index_is(session.windows@, window_info_is(session.active_window_id), i as int); }
            return Some(session.windows[i].active_pane_id);
        }
        i += 1;
    }
    proof { lemma_first_index_none(session.windows@, window_info_is(session.active_window_id)); }
    None
}

/// The active window of the attached session, if known.
pub fn active_window_id(state: &AppState) -> (r: Option<WindowId>)
    ensures
        r == (match state.session {
            Some(s) => Some(s.active_window_id),
            None => None::<WindowId>,
        }),
{
    match &state.session {
        Some(s) => Some(s.active_window_id),
        None => None,
    }
}


// ─── Laws ────────────────────────────────────────────────────────────────────

/// Escape always returns to normal mode: in command, navigate or move
/// mode it clears the pending keys, the message and the help, and sends
/// nothing.
pub proof fn law_escape_returns_to_normal(v: AppView, modifiers: u8)
    requires
        v.mode != InputMode::Normal,
    ensures
        ({
            let (w, r) = key_step(v, KeyEvent { code: KeyCode::Esc, modifiers: modifiers });
            &&& w.mode == InputMode::Normal
            &&& w.pending.len() == 0
            &&& w.status is None
            &&& w.help is None
            &&& w.session == v.session
            &&& r is None
        }),
{
}

/// `^T` in normal mode enters command mode and sends nothing; any other
/// key leaves the state as it was.
pub proof fn law_ctrl_t_enters_command_mode(v: AppView, key: KeyEvent)
    requires
        v.mode == InputMode::Normal,
    ensures
        key.modifiers == CONTROL && key.code == KeyCode::Char('t') ==> key_step(v, key).0.mode == InputMode::Command
            && key_step(v, key).1 is None,
        !(key.modifiers == CONTROL && key.code == KeyCode::Char('t')) ==> key_step(v, key).0 == v,
{
}

/// A key sequence in command, navigate or move mode ends with its key: no
/// key other than escape leaves keys pending, and only escape leaves the
/// mode for normal.
pub proof fn law_sequences_end_with_their_key(v: AppView, key: KeyEvent)
    requires
        v.mode != InputMode::Normal,
        key.code != KeyCode::Esc,
    ensures
        key_step(v, key).0.pending.len() == 0,
        key_step(v, key).0.mode != InputMode::Normal,
{
}

/// In normal mode every key other than `^T` leaves the state as it is,
/// and a key that sends bytes goes, as exactly those bytes, to the active
/// pane of the active window when there is one; otherwise nothing is sent.
pub proof fn law_normal_keys_go_to_the_pane(v: AppView, key: KeyEvent)
    requires
        v.mode == InputMode::Normal,
        !(key.modifiers == CONTROL && key.code == KeyCode::Char('t')),
    ensures
        key_step(v, key).0 == v,
        key_bytes(key) matches Some(data) ==> (active_pane_of(v.session) matches Some(id) ==> key_step(v, key).1
            == Some(Request::SendInput { pane_id: id, data: data })),
        key_bytes(key) is None || active_pane_of(v.session) is None ==> key_step(v, key).1 is None,
{
}

} // verus!
