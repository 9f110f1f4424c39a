//! The server's side of one client connection, as a state machine: each
//! event (a message received, the connection failing, a terminal opened
//! or failing) moves the connection on and yields the actions to perform
//! (messages to send, terminals to open, write or resize). The first
//! message must attach the client to a session.

use vstd::prelude::*;

use crate::ipc::{ClientMessage, PaneId, ServerMessage, WindowId};
use crate::message_text::{client_message_debug, client_message_text};
use crate::model::{
    fresh_session, move_session, navigate_session, session_described, session_index, session_named, session_with_pane,
    sessions_kept, store_has_pane, store_move_fails, subscriber_count, window_is, StoreView,
};
use crate::channel::OutputReceiver;
use crate::session::{error_text, PaneResize, PaneWrite, PtySize, SessionStore, StoreError};
use crate::util::{first_index, lemma_first_index_push};

verus! {

/// The terminal type that pane programs are told they run in.
pub const PANE_TERM: &'static str = "xterm-256color";

/// The size a new pane's terminal opens with: 24 rows of 80 columns.
pub open spec fn initial_pty_size() -> PtySize {
    PtySize { rows: 24, cols: 80, pixel_width: 0, pixel_height: 0 }
}

/// The program a new pane runs: the requested command, else the user's
/// shell, else `/bin/sh`.
pub open spec fn shell_program(command: Option<Seq<char>>, user_shell: Option<Seq<char>>) -> Seq<char> {
    match command {
        Some(c) => c,
        None => match user_shell {
            Some(s) => s,
            None => "/bin/sh"@,
        },
    }
}

/// The program a new pane runs: `command` if given, else the user's
/// shell (`$SHELL`), else `/bin/sh`.
pub fn pane_program(command: Option<String>, user_shell: Option<String>) -> (p: String)
    ensures
        p@ == shell_program(
            match command { Some(c) => Some(c@), None => None },
            match user_shell { Some(s) => Some(s@), None => None },
        ),
{
    match command {
        Some(c) => c,
        None => match user_shell {
            Some(s) => s,
            None => String::from_str("/bin/sh"),
        },
    }
}

/// Where a client connection stands.
pub enum Phase {
    /// Waiting for the first message, which must attach.
    AwaitingAttach,
    /// The named session did not exist: a terminal for its first pane is being opened.
    OpeningSession { session_name: String },
    /// Attached to the named session.
    Attached { session_name: String },
    /// A terminal for a new pane of window `window_id` is being opened.
    OpeningPane { session_name: String, window_id: WindowId },
    /// The connection is over.
    Finished,
}

/// Where a client connection stands, as the model sees it.
pub enum PhaseView {
    AwaitingAttach,
    OpeningSession(Seq<char>),
    Attached(Seq<char>),
    OpeningPane(Seq<char>, WindowId),
    Finished,
}

impl View for Phase {
    type V = PhaseView;

    open spec fn view(&self) -> PhaseView {
        match self {
            Phase::AwaitingAttach => PhaseView::AwaitingAttach,
            Phase::OpeningSession { session_name } => PhaseView::OpeningSession(session_name@),
            Phase::Attached { session_name } => PhaseView::Attached(session_name@),
            Phase::OpeningPane { session_name, window_id } => PhaseView::OpeningPane(session_name@, *window_id),
            Phase::Finished => PhaseView::Finished,
        }
    }
}

/// Something that happened on the connection.
pub enum ClientEvent {
    /// A message arrived.
    Received(ClientMessage),
    /// No message could be read: the client went away or sent something unreadable.
    ReceiveFailed,
    /// The terminal asked for was opened.
    PtyOpened,
    /// Opening, writing to or resizing a terminal failed with this error text.
    PtyError(String),
}

/// Something the server is to do for the connection.
pub enum ServerAction {
    /// Send this message to the client.
    Send(ServerMessage),
    /// Open a terminal of this size running `command` (or the user's
    /// shell) and report `PtyOpened` or `PtyError`.
    OpenPty { command: Option<String>, size: PtySize },
    /// Keep the terminal just opened as the terminal of this pane.
    KeepPty { pane_id: PaneId },
    /// Write to a pane's terminal; report `PtyError` if that fails.
    WritePty(PaneWrite),
    /// Resize a pane's terminal; report `PtyError` if that fails.
    ResizePty(PaneResize),
    /// Forward the pane output arriving on this receiver to the client.
    ForwardOutput(OutputReceiver),
    /// Stop serving the client.
    Close,
    /// Stop serving the client with an error: its first message never came.
    Fail,
}

/// The action sends the current state of the named session.
pub open spec fn sends_state(a: ServerAction, v: StoreView, name: Seq<char>) -> bool {
    a matches ServerAction::Send(ServerMessage::SessionState(info)) && session_index(v, name) is Some
        && session_described(info, v.sessions[session_index(v, name)->0])
}

/// The action sends an error with this text.
pub open spec fn sends_error(a: ServerAction, text: Seq<char>) -> bool {
    a matches ServerAction::Send(ServerMessage::Error { message }) && message@ == text
}

/// The session of this name gained one output subscriber and nothing else
/// changed between `v` and `w` but what `sessions` says.
pub open spec fn subscribed(v: StoreView, w: StoreView, name: Seq<char>) -> bool {
    &&& w.next_id == v.next_id
    &&& forall|n: Seq<char>| #[trigger] subscriber_count(w, n) == subscriber_count(v, n) + (if n == name { 1nat } else { 0nat })
}

/// How many ids handling the event takes from the store: two for a new
/// session (its pane and its window), one for a new pane, one for a move
/// (set aside for a window the move may create).
pub open spec fn ids_needed(p: PhaseView, v: StoreView, e: ClientEvent) -> nat {
    match p {
        PhaseView::OpeningSession(name) => if e is PtyOpened && session_index(v, name) is None { 2 } else { 0 },
        PhaseView::Attached(_) => if e matches ClientEvent::Received(ClientMessage::MovePane { .. }) { 1 } else { 0 },
        PhaseView::OpeningPane(..) => if e is PtyOpened { 1 } else { 0 },
        _ => 0,
    }
}

/// The event is one the server does not handle: a terminal failing for a
/// new session's first pane, a sideways move of a pane alone in its
/// window, or an event that needs more ids than are left.
pub open spec fn unhandled(p: PhaseView, v: StoreView, e: ClientEvent) -> bool {
    ||| v.next_id + ids_needed(p, v, e) > u64::MAX
    ||| match p {
        PhaseView::OpeningSession(_) => e is PtyError,
        PhaseView::Attached(name) => e matches ClientEvent::Received(ClientMessage::MovePane { pane_id, direction })
            && store_move_fails(v, name, pane_id, direction),
        _ => false,
    }
}

/// One client connection on the server.
pub struct ClientHandler {
    pub phase: Phase,
}

impl ClientHandler {
    /// A new connection, waiting for its first message.
    pub fn new() -> (h: Self)
        ensures
            h.phase@ == PhaseView::AwaitingAttach,
    {
        ClientHandler { phase: Phase::AwaitingAttach }
    }

    /// Whether the connection is over.
    pub fn is_finished(&self) -> (r: bool)
        ensures
            r == (self.phase@ is Finished),
    {
        match self.phase {
            Phase::Finished => true,
            _ => false,
        }
    }

    /// Whether the server does not handle this event: see `unhandled`.
    pub fn is_unhandled(&self, store: &SessionStore, event: &ClientEvent) -> (r: bool)
        ensures
            r == unhandled(self.phase@, store@, *event),
    {
        let next = store.next_id();
        match &self.phase {
            Phase::OpeningSession { session_name } => match event {
                ClientEvent::PtyError(_) => true,
                ClientEvent::PtyOpened => !store.has_session(session_name) && next > u64::MAX - 2,
                _ => false,
            },
            Phase::Attached { session_name } => match event {
                ClientEvent::Received(ClientMessage::MovePane { pane_id, direction }) => next == u64::MAX
                    || store.move_pane_fails(session_name, *pane_id, *direction),
                _ => false,
            },
            Phase::OpeningPane { .. } => match event {
                ClientEvent::PtyOpened => next == u64::MAX,
                _ => false,
            },
            _ => false,
        }
    }
}


/// The actions are exactly one error message with this text.
pub open spec fn only_error(a: Seq<ServerAction>, text: Seq<char>) -> bool {
    a.len() == 1 && sends_error(a[0], text)
}

/// The store is unchanged and the phase stays: nothing happens.
pub open spec fn nothing(p: PhaseView, v: StoreView, q: PhaseView, w: StoreView, a: Seq<ServerAction>) -> bool {
    q == p && w == v && a.len() == 0
}

/// One step of a connection: from phase `p` and store `v`, the event `e`
/// leads to phase `q`, store `w` and the actions `a`.
pub open spec fn client_step(
    p: PhaseView,
    v: StoreView,
    e: ClientEvent,
    q: PhaseView,
    w: StoreView,
    a: Seq<ServerAction>,
) -> bool {
    match p {
        PhaseView::AwaitingAttach => match e {
            ClientEvent::Received(ClientMessage::Attach { session_name }) => {
                let name = session_name@;
                if session_index(v, name) is Some {
                    &&& q == PhaseView::Attached(name)
                    &&& w.sessions == v.sessions
                    &&& subscribed(v, w, name)
                    &&& a.len() == 2
                    &&& sends_state(a[0], w, name)
                    &&& a[1] is ForwardOutput
                } else {
                    &&& q == PhaseView::OpeningSession(name)
                    &&& w == v
                    &&& a.len() == 1
                    &&& a[0] matches ServerAction::OpenPty { command, size }
                    &&& command is None
                    &&& size == initial_pty_size()
                }
            },
            ClientEvent::Received(m) => {
                &&& q == PhaseView::Finished
                &&& w == v
                &&& a.len() == 2
                &&& sends_error(a[0], "expected Attach, got "@ + client_message_debug(m))
                &&& a[1] is Close
            },
            ClientEvent::ReceiveFailed => q == PhaseView::Finished && w == v && a.len() == 1 && a[0] is Fail,
            _ => nothing(p, v, q, w, a),
        },
        PhaseView::OpeningSession(name) => match e {
            ClientEvent::PtyOpened => {
                &&& q == PhaseView::Attached(name)
                &&& if session_index(v, name) is None {
                    &&& w.sessions == v.sessions.push(fresh_session(name, v.next_id, (v.next_id + 1) as u64))
                    &&& w.next_id == v.next_id + 2
                    &&& forall|n: Seq<char>|
                        #[trigger] subscriber_count(w, n) == subscriber_count(v, n) + (if n == name { 1nat } else { 0nat })
                    &&& a.len() == 3
                    &&& a[0] matches ServerAction::KeepPty { pane_id } && pane_id == v.next_id
                    &&& sends_state(a[1], w, name)
                    &&& a[2] is ForwardOutput
                } else {
                    &&& w.sessions == v.sessions
                    &&& subscribed(v, w, name)
                    &&& a.len() == 2
                    &&& sends_state(a[0], w, name)
                    &&& a[1] is ForwardOutput
                }
            },
            _ => nothing(p, v, q, w, a),
        },
        PhaseView::Attached(name) => match e {
            ClientEvent::Received(ClientMessage::Attach { .. }) => q == p && w == v && only_error(a, "already attached"@),
            ClientEvent::Received(ClientMessage::CreatePane { window_id, command }) => {
                &&& w == v
                &&& match session_index(v, name) {
                    None => q == p && only_error(a, "session not found: "@ + name),
                    Some(i) => match first_index(v.sessions[i].windows, window_is(window_id)) {
                        None => q == p && only_error(a, error_text(StoreError::WindowNotFound(window_id))),
                        Some(_) => {
                            &&& q == PhaseView::OpeningPane(name, window_id)
                            &&& a.len() == 1
                            &&& a[0] matches ServerAction::OpenPty { command: c, size }
                            &&& c == command
                            &&& size == initial_pty_size()
                        },
                    },
                }
            },
            ClientEvent::Received(ClientMessage::MovePane { pane_id, direction }) => {
                &&& q == p
                &&& w.next_id == v.next_id + 1
                &&& w.subscribers == v.subscribers
                &&& match session_index(v, name) {
                    None => w.sessions == v.sessions && only_error(a, "session not found"@),
                    Some(i) => match move_session(v.sessions[i], pane_id, direction, v.next_id) {
                        Ok(t) => w.sessions == v.sessions.update(i, t) && a.len() == 1 && sends_state(a[0], w, name),
                        Err(err) => w.sessions == v.sessions && only_error(a, error_text(err)),
                    },
                }
            },
            ClientEvent::Received(ClientMessage::Navigate { direction, .. }) => {
                &&& q == p
                &&& match session_index(v, name) {
                    None => w == v && only_error(a, "session not found"@),
                    Some(i) => match navigate_session(v.sessions[i], direction) {
                        Ok(t) => w == (StoreView { sessions: v.sessions.update(i, t), ..v }) && a.len() == 1
                            && sends_state(a[0], w, name),
                        Err(err) => w == v && only_error(a, error_text(err)),
                    },
                }
            },
            ClientEvent::Received(ClientMessage::SendInput { pane_id, data }) => {
                &&& q == p
                &&& w == v
                &&& if store_has_pane(v, pane_id) {
                    a.len() == 1 && (a[0] matches ServerAction::WritePty(x) && x.pane_id == pane_id && x.data == data)
                } else {
                    only_error(a, error_text(StoreError::PaneNotFound(pane_id)))
                }
            },
            ClientEvent::Received(ClientMessage::ResizePane { pane_id, cols, rows }) => {
                &&& q == p
                &&& w == v
                &&& if store_has_pane(v, pane_id) {
                    a.len() == 1 && (a[0] matches ServerAction::ResizePty(z) && z.pane_id == pane_id && z.size == (PtySize {
                        rows: rows,
                        cols: cols,
                        pixel_width: 0,
                        pixel_height: 0,
                    }))
                } else {
                    only_error(a, error_text(StoreError::PaneNotFound(pane_id)))
                }
            },
            ClientEvent::Received(ClientMessage::Detach) => {
                &&& q == PhaseView::Finished
                &&& w == v
                &&& a.len() == 2
                &&& a[0] matches ServerAction::Send(ServerMessage::Detached)
                &&& a[1] is Close
            },
            ClientEvent::ReceiveFailed => q == PhaseView::Finished && w == v && a.len() == 1 && a[0] is Close,
            ClientEvent::PtyError(message) => q == p && w == v && only_error(a, message@),
            ClientEvent::PtyOpened => nothing(p, v, q, w, a),
        },
        PhaseView::OpeningPane(name, window_id) => match e {
            ClientEvent::PtyOpened => {
                &&& q == PhaseView::Attached(name)
                &&& match session_index(v, name) {
                    None => w == v && only_error(a, "session not found: "@ + name),
                    Some(i) => match first_index(v.sessions[i].windows, window_is(window_id)) {
                        None => w == v && only_error(a, error_text(StoreError::WindowNotFound(window_id))),
                        Some(wi) => {
                            &&& w.sessions == v.sessions.update(i, session_with_pane(v.sessions[i], wi, v.next_id))
                            &&& w.next_id == v.next_id + 1
                            &&& w.subscribers == v.subscribers
                            &&& a.len() == 2
                            &&& a[0] matches ServerAction::KeepPty { pane_id } && pane_id == v.next_id
                            &&& sends_state(a[1], w, name)
                        },
                    },
                }
            },
            ClientEvent::PtyError(message) => q == PhaseView::Attached(name) && w == v && only_error(a, message@),
            _ => nothing(p, v, q, w, a),
        },
        PhaseView::Finished => nothing(p, v, q, w, a),
    }
}

fn error_action(e: &StoreError) -> (a: ServerAction)
    ensures
        sends_error(a, error_text(*e)),
{
    ServerAction::Send(ServerMessage::Error { message: e.message() })
}

fn state_action(store: &SessionStore, name: &String) -> (a: ServerAction)
    requires
        store.wf(),
        session_index(store@, name@) is Some,
    ensures
        sends_state(a, store@, name@),
{
    ServerAction::Send(ServerMessage::SessionState(store.session_info(name)))
}

/// Each receiver that the actions forward belongs to a channel that no
/// subscriber had before, and that channel's sender is now the last output
/// subscriber of the session the client is attached to.
pub open spec fn forwards_new_channel(before: SessionStore, after: SessionStore, q: PhaseView, a: Seq<ServerAction>) -> bool {
    forall|i: int|
        #![trigger a[i]]
        0 <= i < a.len() && a[i] is ForwardOutput ==> {
            let c = a[i]->ForwardOutput_0.channel();
            &&& q matches PhaseView::Attached(name) && after.senders_of(name) == before.senders_of(name).push(c)
            &&& forall|n: Seq<char>| !(#[trigger] before.senders_of(n)).contains(c)
        }
}

/// Handles one event of a client connection; see `client_step`.
pub fn handle_client(handler: &mut ClientHandler, store: &mut SessionStore, event: ClientEvent) -> (actions: Vec<
    ServerAction,
>)
    requires
        old(store).wf(),
        !unhandled(old(handler).phase@, old(store)@, event),
    ensures
        final(store).wf(),
        sessions_kept(old(store)@, final(store)@),
        client_step(old(handler).phase@, old(store)@, event, final(handler).phase@, final(store)@, actions@),
        forwards_new_channel(*old(store), *final(store), final(handler).phase@, actions@),
{
    let ghost v = store@;
    let mut phase = Phase::Finished;
    std::mem::swap(&mut phase, &mut handler.phase);
    let mut actions: Vec<ServerAction> = Vec::new();
    match phase {
        Phase::AwaitingAttach => match event {
            ClientEvent::Received(ClientMessage::Attach { session_name }) => {
                if store.has_session(&session_name) {
                    let rx = store.subscribe_output(&session_name);
                    actions.push(state_action(store, &session_name));
                    actions.push(ServerAction::ForwardOutput(rx));
                    handler.phase = Phase::Attached { session_name: session_name };
                } else {
                    actions.push(ServerAction::OpenPty { command: None, size: PtySize { rows: 24, cols: 80, pixel_width: 0, pixel_height: 0 } });
                    handler.phase = Phase::OpeningSession { session_name: session_name };
                }
            },
            ClientEvent::Received(other) => {
                let mut message = String::from_str("expected Attach, got ");
                message.append(client_message_text(&other).as_str());
                actions.push(ServerAction::Send(ServerMessage::Error { message: message }));
                actions.push(ServerAction::Close);
            },
            ClientEvent::ReceiveFailed => {
                actions.push(ServerAction::Fail);
            },
            _ => {
                handler.phase = Phase::AwaitingAttach;
            },
        },
        Phase::OpeningSession { session_name } => match event {
            ClientEvent::PtyOpened => {
                let ghost s0 = *store;
                if let Some(pane_id) = store.ensure_session(&session_name) {
                    actions.push(ServerAction::KeepPty { pane_id: pane_id });
                }
                let ghost v1 = store@;
                let ghost s1 = *store;
                let rx = store.subscribe_output(&session_name);
                assert forall|n: Seq<char>| !(#[trigger] s0.senders_of(n)).contains(rx.channel()) by {
                    assert(s1.senders_of(n) == s0.senders_of(n));
                }
                assert(sessions_kept(v, store@)) by {
                    assert forall|n: Seq<char>| session_index(v, n) is Some implies #[trigger] session_index(store@, n) is Some by {
                        assert(session_index(v1, n) is Some);
                    }
                }
                actions.push(state_action(store, &session_name));
                actions.push(ServerAction::ForwardOutput(rx));
                handler.phase = Phase::Attached { session_name: session_name };
            },
            _ => {
                handler.phase = Phase::OpeningSession { session_name: session_name };
            },
        },
        Phase::Attached { session_name } => {
            match event {
                ClientEvent::Received(ClientMessage::Attach { .. }) => {
                    actions.push(ServerAction::Send(ServerMessage::Error { message: String::from_str("already attached") }));
                    handler.phase = Phase::Attached { session_name: session_name };
                },
                ClientEvent::Received(ClientMessage::CreatePane { window_id, command }) => {
                    match store.check_create_pane(&session_name, window_id) {
                        Ok(()) => {
                            actions.push(ServerAction::OpenPty { command: command, size: PtySize { rows: 24, cols: 80, pixel_width: 0, pixel_height: 0 } });
                            handler.phase = Phase::OpeningPane { session_name: session_name, window_id: window_id };
                        },
                        Err(e) => {
                            actions.push(error_action(&e));
                            handler.phase = Phase::Attached { session_name: session_name };
                        },
                    }
                },
                ClientEvent::Received(ClientMessage::MovePane { pane_id, direction }) => {
                    match store.move_pane(&session_name, pane_id, direction) {
                        Ok(()) => actions.push(state_action(store, &session_name)),
                        Err(e) => actions.push(error_action(&e)),
                    }
                    handler.phase = Phase::Attached { session_name: session_name };
                },
                ClientEvent::Received(ClientMessage::Navigate { direction, .. }) => {
                    match store.navigate(&session_name, direction) {
                        Ok(()) => actions.push(state_action(store, &session_name)),
                        Err(e) => actions.push(error_action(&e)),
                    }
                    handler.phase = Phase::Attached { session_name: session_name };
                },
                ClientEvent::Received(ClientMessage::SendInput { pane_id, data }) => {
                    match store.send_input(pane_id, data) {
                        Ok(write) => actions.push(ServerAction::WritePty(write)),
                        Err(e) => actions.push(error_action(&e)),
                    }
                    handler.phase = Phase::Attached { session_name: session_name };
                },
                ClientEvent::Received(ClientMessage::ResizePane { pane_id, cols, rows }) => {
                    match store.resize_pane(pane_id, cols, rows) {
                        Ok(resize) => actions.push(ServerAction::ResizePty(resize)),
                        Err(e) => actions.push(error_action(&e)),
                    }
                    handler.phase = Phase::Attached { session_name: session_name };
                },
                ClientEvent::Received(ClientMessage::Detach) => {
                    actions.push(ServerAction::Send(ServerMessage::Detached));
                    actions.push(ServerAction::Close);
                },
                ClientEvent::ReceiveFailed => {
                    actions.push(ServerAction::Close);
                },
                ClientEvent::PtyError(message) => {
                    actions.push(ServerAction::Send(ServerMessage::Error { message: message }));
                    handler.phase = Phase::Attached { session_name: session_name };
                },
                ClientEvent::PtyOpened => {
                    handler.phase = Phase::Attached { session_name: session_name };
                },
            }
        },
        Phase::OpeningPane { session_name, window_id } => match event {
            ClientEvent::PtyOpened => {
                match store.create_pane(&session_name, window_id) {
                    Ok(pane_id) => {
                        actions.push(ServerAction::KeepPty { pane_id: pane_id });
                        actions.push(state_action(store, &session_name));
                    },
                    Err(e) => actions.push(error_action(&e)),
                }
                handler.phase = Phase::Attached { session_name: session_name };
            },
            ClientEvent::PtyError(message) => {
                actions.push(ServerAction::Send(ServerMessage::Error { message: message }));
                handler.phase = Phase::Attached { session_name: session_name };
            },
            _ => {
                handler.phase = Phase::OpeningPane { session_name: session_name, window_id: window_id };
            },
        },
        Phase::Finished => {},
    }
    actions
}


/// Attaching to a session creates it when it is absent: when the client's
/// first message attaches to `name`, the client is attached to an
/// existing session at once, or, once the terminal of the new session's
/// first pane is open, to the session then created.
pub proof fn law_attach_creates_session(
    v: StoreView,
    name: String,
    q: PhaseView,
    w: StoreView,
    a: Seq<ServerAction>,
    q2: PhaseView,
    w2: StoreView,
    a2: Seq<ServerAction>,
)
    requires
        client_step(
            PhaseView::AwaitingAttach,
            v,
            ClientEvent::Received(ClientMessage::Attach { session_name: name }),
            q,
            w,
            a,
        ),
        client_step(q, w, ClientEvent::PtyOpened, q2, w2, a2),
    ensures
        q is Attached ==> q == PhaseView::Attached(name@) && session_index(w, name@) is Some,
        q is OpeningSession ==> q2 == PhaseView::Attached(name@) && session_index(w2, name@) is Some,
{
    if q is OpeningSession {
        if session_index(w, name@) is None {
            lemma_first_index_push(w.sessions, session_named(name@), fresh_session(name@, w.next_id, (w.next_id + 1) as u64));
        } else {
            assert(session_index(w2, name@) == session_index(w, name@));
        }
    } else {
        assert(session_index(w, name@) == session_index(v, name@));
    }
}

/// An attached client's request to resize an existing pane becomes one
/// resize of that pane's terminal to the rows and columns the message
/// gives, each from the field of that name; the store and the connection
/// stay as they were.
pub proof fn law_resize_uses_the_message_size(
    name: Seq<char>,
    v: StoreView,
    pane_id: PaneId,
    cols: u16,
    rows: u16,
    q: PhaseView,
    w: StoreView,
    a: Seq<ServerAction>,
)
    requires
        client_step(
            PhaseView::Attached(name),
            v,
            ClientEvent::Received(ClientMessage::ResizePane { pane_id, cols, rows }),
            q,
            w,
            a,
        ),
        store_has_pane(v, pane_id),
    ensures
        q == PhaseView::Attached(name),
        w == v,
        a.len() == 1,
        a[0] matches ServerAction::ResizePty(z) && z.pane_id == pane_id && z.size.rows == rows && z.size.cols == cols
            && z.size.pixel_width == 0 && z.size.pixel_height == 0,
{
}

/// An attached client's input for an existing pane becomes one write of
/// exactly those bytes to that pane's terminal; the store and the
/// connection stay as they were.
pub proof fn law_input_goes_to_its_pane(
    name: Seq<char>,
    v: StoreView,
    pane_id: PaneId,
    data: Vec<u8>,
    q: PhaseView,
    w: StoreView,
    a: Seq<ServerAction>,
)
    requires
        client_step(
            PhaseView::Attached(name),
            v,
            ClientEvent::Received(ClientMessage::SendInput { pane_id, data }),
            q,
            w,
            a,
        ),
        store_has_pane(v, pane_id),
    ensures
        q == PhaseView::Attached(name),
        w == v,
        a.len() == 1,
        a[0] matches ServerAction::WritePty(x) && x.pane_id == pane_id && x.data@ == data@,
{
}

} // verus!
