//! The client's state: what it knows of the attached session, the input
//! mode, the keys typed so far in a key sequence, and what it shows.

use vstd::prelude::*;

use crate::ipc::{ServerMessage, SessionInfo};
use crate::keys::KeyEvent;

verus! {

/// The current input mode of the client.
#[derive(Debug, Clone, Copy, PartialEq, Eq, Structural)]
pub enum InputMode {
    Normal,
    Command,
    Navigate,
    Move,
}

/// How an input mode is named in the status bar.
pub open spec fn mode_name(m: InputMode) -> Seq<char> {
    match m {
        InputMode::Normal => "normal"@,
        InputMode::Command => "command"@,
        InputMode::Navigate => "navigate"@,
        InputMode::Move => "move"@,
    }
}

impl InputMode {
    /// How the mode is named in the status bar.
    pub fn to_string(&self) -> (s: String)
        ensures
            s@ == mode_name(*self),
    {
        match self {
            InputMode::Normal => String::from_str("normal"),
            InputMode::Command => String::from_str("command"),
            InputMode::Navigate => String::from_str("navigate"),
            InputMode::Move => String::from_str("move"),
        }
    }
}

/// The text of an optional string.
pub open spec fn text_of(s: Option<String>) -> Option<Seq<char>> {
    match s {
        Some(t) => Some(t@),
        None => None,
    }
}

/// Application state shared between the draw loop and the network receiver.
pub struct AppState {
    pub session: Option<SessionInfo>,
    pub input_mode: InputMode,
    pub pending_sequence: Vec<KeyEvent>,
    pub status_message: Option<String>,
    pub should_quit: bool,
    pub help_text: Option<String>,
}

/// The client's state as the model sees it.
pub struct AppView {
    pub session: Option<SessionInfo>,
    pub mode: InputMode,
    pub pending: Seq<KeyEvent>,
    pub status: Option<Seq<char>>,
    pub should_quit: bool,
    pub help: Option<Seq<char>>,
}

impl View for AppState {
    type V = AppView;

    open spec fn view(&self) -> AppView {
        AppView {
            session: self.session,
            mode: self.input_mode,
            pending: self.pending_sequence@,
            status: text_of(self.status_message),
            should_quit: self.should_quit,
            help: text_of(self.help_text),
        }
    }
}

/// The state after a message from the server: a new session state
/// replaces the old one, an error is shown as `Error: ...`, and a detach
/// acknowledgement makes the client quit. Pane output changes nothing.
pub open spec fn receive_step(v: AppView, msg: ServerMessage) -> AppView {
    match msg {
        ServerMessage::SessionState(info) => AppView { session: Some(info), ..v },
        ServerMessage::PaneOutput { .. } => v,
        ServerMessage::Error { message } => AppView { status: Some("Error: "@ + message@), ..v },
        ServerMessage::Detached => AppView { should_quit: true, ..v },
    }
}

impl AppState {
    /// The state when the client starts: nothing known of the session,
    /// normal mode, nothing typed or shown.
    pub fn new() -> (s: Self)
        ensures
            s@ == (AppView {
                session: None,
                mode: InputMode::Normal,
                pending: Seq::<KeyEvent>::empty(),
                status: None,
                should_quit: false,
                help: None,
            }),
    {
        let s = AppState {
            session: None,
            input_mode: InputMode::Normal,
            pending_sequence: Vec::new(),
            status_message: None,
            should_quit: false,
            help_text: None,
        };
        assert(s@.pending =~= Seq::<KeyEvent>::empty());
        s
    }
}

/// Takes one message from the server into the state; returns whether the
/// client stops listening (after the detach acknowledgement).
pub fn receive_server_message(state: &mut AppState, msg: ServerMessage) -> (stop: bool)
    ensures
        final(state)@ == receive_step(old(state)@, msg),
        stop == (msg is Detached),
{
    match msg {
        ServerMessage::SessionState(info) => {
            state.session = Some(info);
            false
        },
        ServerMessage::PaneOutput { .. } => false,
        ServerMessage::Error { message } => {
            let mut text = String::from_str("Error: ");
            text.append(message.as_str());
            state.status_message = Some(text);
            false
        },
        ServerMessage::Detached => {
            state.should_quit = true;
            true
        },
    }
}

} // verus!
