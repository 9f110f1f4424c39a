//! What the client draws: the help text, or the active window's panes
//! stacked top to bottom, and a status bar with the session name, the
//! window list, the input mode, the pending keys and the last message.
//! The terminal library lays out and paints what this module describes.

use ratatui::layout;
use vstd::prelude::*;

use crate::client::{mode_name, AppState, AppView};
use crate::input::window_info_is;
use crate::ipc::{SessionInfo, WindowInfo};
use crate::keys::{key_event_display, key_event_label, KeyEvent};
use crate::util::{first_index, is_first, lemma_first_index_is, lemma_first_index_none};

verus! {

/// A constraint on the height of one pane's area.
#[derive(Debug, Clone, Copy, PartialEq, Eq, Structural)]
pub enum Constraint {
    /// Exactly this many rows.
    Length(u16),
    /// At least this many rows.
    Min(u16),
}

/// A rectangle of character cells: its top left corner and its size.
#[derive(Debug, Clone, Copy, PartialEq, Eq, Structural)]
pub struct Rect {
    pub x: u16,
    pub y: u16,
    pub width: u16,
    pub height: u16,
}

/// `r` spans the full width of `area`, as each area of a vertical split
/// does when `area` does not reach past the last column.
pub open spec fn spans_width(r: Rect, area: Rect) -> bool {
    area.x + area.width <= u16::MAX ==> r.x == area.x && r.width == area.width
}

/// Calls ratatui's `Layout::split` with a vertical layout of these
/// constraints on `area`. Which rows each area gets is left unsaid: a
/// constraint solver that walks hash maps picks them. What its source
/// shows of every outcome is stated: one area per constraint, each as wide
/// as `area` and at its column.
#[verifier::external_body]
fn split_vertically(area: Rect, constraints: &Vec<Constraint>) -> (rects: Vec<Rect>)
    ensures
        rects@.len() == constraints@.len(),
        forall|i: int| 0 <= i < rects@.len() ==> spans_width(#[trigger] rects@[i], area),
{
    let cs: Vec<layout::Constraint> = constraints.iter().map(|c| match c {
        Constraint::Length(n) => layout::Constraint::Length(*n),
        Constraint::Min(n) => layout::Constraint::Min(*n),
    }).collect();
    let whole = layout::Rect::new(area.x, area.y, area.width, area.height);
    let split = layout::Layout::default().direction(layout::Direction::Vertical).constraints(cs).split(whole);
    split.iter().map(|r| Rect { x: r.x, y: r.y, width: r.width, height: r.height }).collect()
}

/// One pane's box: its title, whether it is active (drawn highlighted),
/// and the text inside it.
pub struct PaneBox {
    pub title: String,
    pub active: bool,
    pub text: String,
}

/// What fills the area above the status bar.
pub enum Content {
    /// The help text, in a box titled `Help`.
    Help(String),
    /// The panes of the active window, with the height constraint of each
    /// row of the layout and the area of each row.
    Window { constraints: Vec<Constraint>, panes: Vec<PaneBox>, areas: Vec<Rect> },
    /// Nothing: the session has no window with its active id.
    Empty,
    /// The session is not known yet.
    Connecting(String),
}

/// How a piece of the status bar is styled.
#[derive(Debug, Clone, Copy, PartialEq, Eq, Structural)]
pub enum SpanStyle {
    SessionName,
    ActiveWindow,
    InactiveWindow,
    Plain,
    Mode,
    Message,
}

/// A piece of the status bar.
pub struct StatusSpan {
    pub text: String,
    pub style: SpanStyle,
}

/// The whole screen: what fills the content area, the status bar below
/// it, and the two areas.
pub struct Screen {
    pub content: Content,
    pub status: Vec<StatusSpan>,
    pub content_area: Rect,
    pub status_area: Rect,
}

// ─── The active window ──────────────────────────────────────────────────────

/// The number of layout rows for a window: one per pane, and one for an
/// empty window.
pub open spec fn row_count(w: WindowInfo) -> nat {
    if w.panes@.len() == 0 { 1 } else { w.panes@.len() }
}

/// The height given to each row but the last: the height divided by the
/// row count taken as a 16-bit number.
pub open spec fn row_height(w: WindowInfo, height: u16) -> u16 {
    ((height as nat) / ((row_count(w) as u16) as nat)) as u16
}

/// The constraints of a window's layout: every row but the last gets
/// `row_height`, the last at least one row.
pub open spec fn window_constraints(w: WindowInfo, height: u16) -> Seq<Constraint> {
    Seq::new(
        row_count(w),
        |i: int| if i + 1 == row_count(w) { Constraint::Min(1) } else { Constraint::Length(row_height(w, height)) },
    )
}

/// The box of a pane: titled with its name, active when it is the
/// window's active pane, and then holding the text `(active)`.
pub open spec fn pane_box_is(b: PaneBox, w: WindowInfo, j: int) -> bool {
    let active = w.panes@[j].id == w.active_pane_id;
    &&& b.title@ == w.panes@[j].name@
    &&& b.active == active
    &&& b.text@ == (if active { "(active)"@ } else { ""@ })
}

/// The row count, taken as a 16-bit number, is not zero, so the height
/// can be divided by it.
pub open spec fn window_drawable(w: WindowInfo) -> bool {
    (row_count(w) as u16) != 0
}

/// The window whose panes are drawn: the first window of the session with
/// the session's active window id, unless the help is shown.
pub open spec fn drawn_window(v: AppView) -> Option<WindowInfo> {
    match v.help {
        Some(_) => None,
        None => match v.session {
            None => None,
            Some(s) => match first_index(s.windows@, window_info_is(s.active_window_id)) {
                Some(i) => Some(s.windows@[i]),
                None => None,
            },
        },
    }
}

/// The content area shows what `content_is` says.
pub open spec fn content_is(c: Content, v: AppView, height: u16) -> bool {
    match v.help {
        Some(h) => c matches Content::Help(t) && t@ == h,
        None => match v.session {
            None => c matches Content::Connecting(t) && t@ == "Connecting…"@,
            Some(_) => match drawn_window(v) {
                None => c is Empty,
                Some(w) => c matches Content::Window { constraints, panes, .. } && constraints@ == window_constraints(w, height)
                    && panes@.len() == w.panes@.len() && forall|j: int|
                    0 <= j < w.panes@.len() ==> pane_box_is(#[trigger] panes@[j], w, j),
            },
        },
    }
}

/// A window has one area per row, each spanning the width of `area`.
pub open spec fn rows_placed(c: Content, area: Rect) -> bool {
    c matches Content::Window { constraints, areas, .. } ==> areas@.len() == constraints@.len() && forall|i: int|
        0 <= i < areas@.len() ==> spans_width(#[trigger] areas@[i], area)
}

fn window_layout(window: &WindowInfo, area: Rect) -> (c: Content)
    requires
        window_drawable(*window),
    ensures
        c matches Content::Window { constraints, panes, .. } && constraints@ == window_constraints(*window, area.height)
            && panes@.len() == window.panes@.len() && forall|j: int|
            0 <= j < window.panes@.len() ==> pane_box_is(#[trigger] panes@[j], *window, j),
        rows_placed(c, area),
{
    let height = area.height;
    let pane_count: usize = if window.panes.len() == 0 { 1 } else { window.panes.len() };
    let pane_height = height / (pane_count as u16);
    let mut constraints: Vec<Constraint> = Vec::new();
    let mut i: usize = 0;
    while i < pane_count
        invariant
            i <= pane_count,
            pane_count == row_count(*window),
            pane_height == row_height(*window, height),
            constraints@ =~= window_constraints(*window, height).take(i as int),
        decreases pane_count - i,
    {
        if i + 1 == pane_count {
            constraints.push(Constraint::Min(1));
        } else {
            constraints.push(Constraint::Length(pane_height));
        }
        i += 1;
        assert(constraints@ =~= window_constraints(*window, height).take(i as int));
    }
    assert(constraints@ =~= window_constraints(*window, height));
    let mut panes: Vec<PaneBox> = Vec::new();
    let mut j: usize = 0;
    while j < window.panes.len()
        invariant
            j <= window.panes@.len(),
            panes@.len() == j,
            forall|k: int| 0 <= k < j ==> pane_box_is(#[trigger] panes@[k], *window, k),
        decreases window.panes@.len() - j,
    {
        let pane = &window.panes[j];
        let is_active = pane.id == window.active_pane_id;
        let text = if is_active { String::from_str("(active)") } else { String::from_str("") };
        panes.push(PaneBox { title: pane.name.clone(), active: is_active, text: text });
        j += 1;
    }
    let areas = split_vertically(area, &constraints);
    Content::Window { constraints: constraints, panes: panes, areas: areas }
}

// ─── The status bar ─────────────────────────────────────────────────────────

/// The parts of `parts` joined by `sep`.
pub open spec fn join(parts: Seq<Seq<char>>, sep: Seq<char>) -> Seq<char>
    decreases parts.len(),
{
    if parts.len() == 0 {
        Seq::empty()
    } else if parts.len() == 1 {
        parts[0]
    } else {
        join(parts.drop_last(), sep) + sep + parts.last()
    }
}

/// The labels of the pending keys.
pub open spec fn pending_labels(keys: Seq<KeyEvent>) -> Seq<Seq<char>> {
    keys.map_values(|k: KeyEvent| key_event_label(k))
}

/// The window list of the status bar: each name padded with a space on
/// both sides, the active window highlighted.
pub open spec fn window_tabs(s: SessionInfo) -> Seq<(Seq<char>, SpanStyle)> {
    Seq::new(
        s.windows@.len(),
        |i: int| (
            " "@ + s.windows@[i].name@ + " "@,
            if s.windows@[i].id == s.active_window_id { SpanStyle::ActiveWindow } else { SpanStyle::InactiveWindow },
        ),
    )
}

/// The pieces of the status bar: the session name and window list when
/// the session is known, the input mode in brackets, the pending keys,
/// and the last message.
pub open spec fn status_line(v: AppView) -> Seq<(Seq<char>, SpanStyle)> {
    let session_part = match v.session {
        Some(s) => seq![(" "@ + s.name@ + " "@, SpanStyle::SessionName), (" "@, SpanStyle::Plain)] + window_tabs(s)
            + seq![(" "@, SpanStyle::Plain)],
        None => Seq::empty(),
    };
    let mode_part = seq![("["@ + mode_name(v.mode) + "]"@, SpanStyle::Mode)];
    let pending_part = if v.pending.len() == 0 {
        Seq::empty()
    } else {
        seq![(" "@ + join(pending_labels(v.pending), " "@), SpanStyle::Plain)]
    };
    let message_part = match v.status {
        Some(m) => seq![("  "@ + m, SpanStyle::Message)],
        None => Seq::empty(),
    };
    session_part + mode_part + pending_part + message_part
}

/// The text and style of each piece.
pub open spec fn spans_view(spans: Seq<StatusSpan>) -> Seq<(Seq<char>, SpanStyle)> {
    spans.map_values(|s: StatusSpan| (s.text@, s.style))
}

fn push_span(spans: &mut Vec<StatusSpan>, text: String, style: SpanStyle)
    ensures
        spans_view(final(spans)@) == spans_view(old(spans)@).push((text@, style)),
{
    spans.push(StatusSpan { text: text, style: style });
    assert(spans_view(spans@) =~= spans_view(old(spans)@).push((text@, style)));
}

fn padded(text: &String) -> (r: String)
    ensures
        r@ == " "@ + text@ + " "@,
{
    let mut r = String::from_str(" ");
    r.append(text.as_str());
    r.append(" ");
    r
}

fn pending_text(keys: &Vec<KeyEvent>) -> (r: String)
    ensures
        r@ == join(pending_labels(keys@), " "@),
{
    let mut r = String::new();
    let mut i: usize = 0;
    while i < keys.len()
        invariant
            i <= keys@.len(),
            r@ == join(pending_labels(keys@).take(i as int), " "@),
        decreases keys@.len() - i,
    {
        let label = key_event_display(&keys[i]);
        let ghost before = pending_labels(keys@).take(i as int);
        if i != 0 {
            r.append(" ");
        }
        r.append(label.as_str());
        i += 1;
        proof {
            let after = pending_labels(keys@).take(i as int);
            assert(after.drop_last() =~= before);
            assert(after.last() == key_event_label(keys@[i - 1]));
            if i == 1 {
                assert(r@ =~= after[0]);
            } else {
                assert(r@ =~= join(before, " "@) + " "@ + after.last());
            }
        }
    }
    assert(pending_labels(keys@).take(keys@.len() as int) =~= pending_labels(keys@));
    r
}

/// The pieces of the status bar.
pub fn status_bar(state: &AppState) -> (spans: Vec<StatusSpan>)
    ensures
        spans_view(spans@) == status_line(state@),
{
    let mut spans: Vec<StatusSpan> = Vec::new();
    let ghost v = state@;
    let ghost mut expected: Seq<(Seq<char>, SpanStyle)> = Seq::empty();
    assert(spans_view(spans@) =~= expected);
    if let Some(session) = &state.session {
        push_span(&mut spans, padded(&session.name), SpanStyle::SessionName);
        push_span(&mut spans, String::from_str(" "), SpanStyle::Plain);
        let ghost start = spans_view(spans@);
        let mut i: usize = 0;
        while i < session.windows.len()
            invariant
                i <= session.windows@.len(),
                spans_view(spans@) =~= start + window_tabs(*session).take(i as int),
            decreases session.windows@.len() - i,
        {
            let win = &session.windows[i];
            let style = if win.id == session.active_window_id {
                SpanStyle::ActiveWindow
            } else {
                SpanStyle::InactiveWindow
            };
            push_span(&mut spans, padded(&win.name), style);
            i += 1;
            assert(window_tabs(*session).take(i as int) =~= window_tabs(*session).take(i - 1).push(
                window_tabs(*session)[i - 1],
            ));
        }
        assert(window_tabs(*session).take(session.windows@.len() as int) =~= window_tabs(*session));
        push_span(&mut spans, String::from_str(" "), SpanStyle::Plain);
        proof {
            expected = seq![(" "@ + session.name@ + " "@, SpanStyle::SessionName), (" "@, SpanStyle::Plain)]
                + window_tabs(*session) + seq![(" "@, SpanStyle::Plain)];
        }
        assert(spans_view(spans@) =~= expected);
    }
    let mut mode = String::from_str("[");
    mode.append(state.input_mode.to_string().as_str());
    mode.append("]");
    push_span(&mut spans, mode, SpanStyle::Mode);
    proof {
        expected = expected + seq![("["@ + mode_name(v.mode) + "]"@, SpanStyle::Mode)];
    }
    assert(spans_view(spans@) =~= expected);
    if state.pending_sequence.len() != 0 {
        let mut text = String::from_str(" ");
        text.append(pending_text(&state.pending_sequence).as_str());
        push_span(&mut spans, text, SpanStyle::Plain);
        proof {
            expected = expected + seq![(" "@ + join(pending_labels(v.pending), " "@), SpanStyle::Plain)];
        }
    } else {
        assert(expected + Seq::<(Seq<char>, SpanStyle)>::empty() =~= expected);
    }
    assert(spans_view(spans@) =~= expected);
    if let Some(msg) = &state.status_message {
        let mut text = String::from_str("  ");
        text.append(msg.as_str());
        push_span(&mut spans, text, SpanStyle::Message);
        proof {
            expected = expected + seq![("  "@ + msg@, SpanStyle::Message)];
        }
    } else {
        assert(expected + Seq::<(Seq<char>, SpanStyle)>::empty() =~= expected);
    }
    assert(spans_view(spans@) =~= expected);
    assert(expected =~= status_line(v));
    spans
}

// ─── The whole screen ───────────────────────────────────────────────────────

/// The window whose panes would be drawn, if any.
fn find_drawn_window(state: &AppState) -> (r: Option<&WindowInfo>)
    requires
        state.help_text is None,
    ensures
        match drawn_window(state@) {
            Some(w) => r matches Some(x) && *x == w,
            None => r is None,
        },
{
    let session = match &state.session {
        Some(s) => s,
        None => return None,
    };
    let mut i: usize = 0;
    while i < session.windows.len()
        invariant
            i <= session.windows@.len(),
            state.session == Some(*session),
            state.help_text is None,
            forall|k: int| 0 <= k < i ==> !(#[trigger] window_info_is(session.active_window_id)(session.windows@[k])),
        decreases session.windows@.len() - i,
    {
        if session.windows[i].id == session.active_window_id {
            assert(is_first(session.windows@, window_info_is(session.active_window_id), i as int));
            proof { lemma_first_index_is(session.windows@, window_info_is(session.active_window_id), i as int); }
            return Some(&session.windows[i]);
        }
        i += 1;
    }
    proof { lemma_first_index_none(session.windows@, window_info_is(session.active_window_id)); }
    None
}

/// Whether the screen can be drawn: a window to draw has a row count
/// that, taken as a 16-bit number, is not zero.
pub fn can_draw(state: &AppState) -> (r: bool)
    ensures
        r == (drawn_window(state@) matches Some(w) ==> window_drawable(w)),
{
    if state.help_text.is_some() {
        return true;
    }
    match find_drawn_window(state) {
        Some(w) => {
            let rows: usize = if w.panes.len() == 0 { 1 } else { w.panes.len() };
            assert(((rows as u16) != 0) == (rows % 65536 != 0)) by (bit_vector);
            rows % 65536 != 0
        },
        None => true,
    }
}

/// Draw the full application UI in `area`: the content area above a
/// status bar of one row.
pub fn draw(state: &AppState, area: Rect) -> (screen: Screen)
    requires
        drawn_window(state@) matches Some(w) ==> window_drawable(w),
    ensures
        spans_width(screen.content_area, area),
        spans_width(screen.status_area, area),
        content_is(screen.content, state@, screen.content_area.height),
        rows_placed(screen.content, screen.content_area),
        spans_view(screen.status@) == status_line(state@),
{
    let constraints = vec![Constraint::Min(1), Constraint::Length(1)];
    assert(constraints@.len() == 2);
    let parts = split_vertically(area, &constraints);
    let content_area = parts[0];
    let status_area = parts[1];
    let content = if let Some(help) = &state.help_text {
        Content::Help(help.clone())
    } else if state.session.is_some() {
        match find_drawn_window(state) {
            Some(window) => window_layout(window, content_area),
            None => Content::Empty,
        }
    } else {
        Content::Connecting(String::from_str("Connecting…"))
    };
    Screen { content: content, status: status_bar(state), content_area: content_area, status_area: status_area }
}

} // verus!
