//! The sessions that the server keeps, with the output subscribers of
//! each: the executable store whose operations `model` states.

use vstd::prelude::*;

use crate::channel::{open_channel, send_output, ChannelLabels, OutputReceiver, OutputSender};
use crate::ipc::{MoveDirection, NavigateDirection, PaneId, PaneInfo, SessionInfo, WindowId, WindowInfo};
use crate::model::{
    fresh_session, holds_pane, ids_unique, lemma_add_pane_counts, lemma_count_after_update, lemma_fresh_counts,
    lemma_ids_unique_frame, lemma_move_counts, lemma_move_keeps_wf, lemma_navigate_counts, lemma_navigate_keeps_wf,
    lemma_push_keeps_sessions, lemma_store_update_count, lemma_update_keeps_sessions, lemma_update_keeps_wf, move_session, move_session_fails,
    move_sideways, navigate_session, numbered, pane_is, session_counter, session_described, session_has_pane,
    session_index, session_named, session_wf, session_with_pane, sessions_kept, store_has_pane, store_id_count,
    store_move_fails, store_wf, subscribed_to, subscriber_count, swap_panes, window_described, window_has_pane,
    window_is, window_wf, without_pane, PaneView, SessionView, StoreView, WindowView,
};
use crate::text::{decimal, push_decimal};
use crate::util::{
    first_index, is_first, lemma_first_index_is, lemma_first_index_none, lemma_first_index_push,
    lemma_first_index_some, lemma_sum_push,
};

verus! {

// ─── Errors ─────────────────────────────────────────────────────────────────

/// Why a request on the sessions was refused.
#[derive(Debug, Clone, PartialEq, Eq)]
pub enum StoreError {
    /// No session of this name (when creating a pane).
    UnknownSession(String),
    /// No session of the requested name.
    SessionNotFound,
    /// The session has no window with this id.
    WindowNotFound(WindowId),
    /// No pane with this id.
    PaneNotFound(PaneId),
    NoPaneAbove,
    NoPaneBelow,
    NoWindowLeft,
    NoWindowRight,
    PaneAtTop,
    PaneAtBottom,
}

/// The text shown to the user for an error.
pub open spec fn error_text(e: StoreError) -> Seq<char> {
    match e {
        StoreError::UnknownSession(name) => "session not found: "@ + name@,
        StoreError::SessionNotFound => "session not found"@,
        StoreError::WindowNotFound(id) => "window "@ + decimal(id as nat) + " not found"@,
        StoreError::PaneNotFound(id) => "pane "@ + decimal(id as nat) + " not found"@,
        StoreError::NoPaneAbove => "no pane above"@,
        StoreError::NoPaneBelow => "no pane below"@,
        StoreError::NoWindowLeft => "no window to the left"@,
        StoreError::NoWindowRight => "no window to the right"@,
        StoreError::PaneAtTop => "pane is already at the top"@,
        StoreError::PaneAtBottom => "pane is already at the bottom"@,
    }
}

impl StoreError {
    /// The text shown to the user for this error.
    pub fn message(&self) -> (m: String)
        ensures
            m@ == error_text(*self),
    {
        match self {
            StoreError::UnknownSession(name) => {
                let mut m = String::from_str("session not found: ");
                m.append(name.as_str());
                m
            },
            StoreError::SessionNotFound => String::from_str("session not found"),
            StoreError::WindowNotFound(id) => {
                let mut m = String::from_str("window ");
                push_decimal(&mut m, *id as u128);
                m.append(" not found");
                m
            },
            StoreError::PaneNotFound(id) => {
                let mut m = String::from_str("pane ");
                push_decimal(&mut m, *id as u128);
                m.append(" not found");
                m
            },
            StoreError::NoPaneAbove => String::from_str("no pane above"),
            StoreError::NoPaneBelow => String::from_str("no pane below"),
            StoreError::NoWindowLeft => String::from_str("no window to the left"),
            StoreError::NoWindowRight => String::from_str("no window to the right"),
            StoreError::PaneAtTop => String::from_str("pane is already at the top"),
            StoreError::PaneAtBottom => String::from_str("pane is already at the bottom"),
        }
    }
}

// ─── Executable data ────────────────────────────────────────────────────────

/// `prefix` followed by `n` in decimal, such as `window 3`.
fn numbered_name(prefix: &str, n: u128) -> (r: String)
    ensures
        r@ == numbered(prefix@, n as nat),
{
    let mut r = String::from_str(prefix);
    push_decimal(&mut r, n);
    r
}

struct Pane {
    id: PaneId,
    name: String,
}

impl View for Pane {
    type V = PaneView;

    closed spec fn view(&self) -> PaneView {
        PaneView { id: self.id, name: self.name@ }
    }
}

struct Window {
    id: WindowId,
    name: String,
    panes: Vec<Pane>,
    active_pane_idx: usize,
}

impl View for Window {
    type V = WindowView;

    closed spec fn view(&self) -> WindowView {
        WindowView {
            id: self.id,
            name: self.name@,
            panes: self.panes@.map_values(|p: Pane| p@),
            active: self.active_pane_idx as int,
        }
    }
}

struct Session {
    name: String,
    windows: Vec<Window>,
    active_window_idx: usize,
}

impl View for Session {
    type V = SessionView;

    closed spec fn view(&self) -> SessionView {
        SessionView {
            name: self.name@,
            windows: self.windows@.map_values(|w: Window| w@),
            active: self.active_window_idx as int,
        }
    }
}


impl Window {
    fn active_pane_id(&self) -> (id: PaneId)
        requires
            window_wf(self@),
        ensures
            id == self@.panes[self@.active].id,
    {
        self.panes[self.active_pane_idx].id
    }

    fn contains_pane(&self, pane_id: PaneId) -> (r: bool)
        ensures
            r == window_has_pane(self@, pane_id),
    {
        let mut j: usize = 0;
        while j < self.panes.len()
            invariant
                j <= self.panes@.len(),
                forall|k: int| 0 <= k < j ==> (#[trigger] self@.panes[k]).id != pane_id,
            decreases self.panes@.len() - j,
        {
            if self.panes[j].id == pane_id {
                assert(self@.panes[j as int].id == pane_id);
                return true;
            }
            j += 1;
        }
        false
    }

    fn position_of(&self, pane_id: PaneId) -> (pi: usize)
        requires
            window_has_pane(self@, pane_id),
        ensures
            is_first(self@.panes, pane_is(pane_id), pi as int),
            first_index(self@.panes, pane_is(pane_id)) == Some(pi as int),
    {
        let mut j: usize = 0;
        while j < self.panes.len()
            invariant
                j <= self.panes@.len(),
                window_has_pane(self@, pane_id),
                forall|k: int| 0 <= k < j ==> !(#[trigger] pane_is(pane_id)(self@.panes[k])),
            decreases self.panes@.len() - j,
        {
            if self.panes[j].id == pane_id {
                assert(is_first(self@.panes, pane_is(pane_id), j as int));
                proof { lemma_first_index_is(self@.panes, pane_is(pane_id), j as int); }
                return j;
            }
            assert(!pane_is(pane_id)(self@.panes[j as int]));
            j += 1;
        }
        proof {
            let k = choose|k: int| 0 <= k < self@.panes.len() && (#[trigger] self@.panes[k]).id == pane_id;
            assert(!pane_is(pane_id)(self@.panes[k]));
        }
        0
    }

    /// Exchanges the pane at `pi` with the one above it.
    fn raise_pane(&mut self, pi: usize)
        requires
            0 < pi < old(self)@.panes.len(),
        ensures
            final(self)@ == swap_panes(old(self)@, pi as int, pi - 1),
    {
        let ghost w = self@;
        let p = self.panes.remove(pi);
        self.panes.insert(pi - 1, p);
        if self.active_pane_idx == pi {
            self.active_pane_idx = pi - 1;
        } else if self.active_pane_idx == pi - 1 {
            self.active_pane_idx = pi;
        }
        assert(self@.panes =~= swap_panes(w, pi as int, pi - 1).panes);
    }

    /// Exchanges the pane at `pi` with the one below it.
    fn lower_pane(&mut self, pi: usize)
        requires
            pi + 1 < old(self)@.panes.len(),
        ensures
            final(self)@ == swap_panes(old(self)@, pi as int, pi + 1),
    {
        let ghost w = self@;
        let count = self.panes.len();
        assert(pi + 1 < count);
        let p = self.panes.remove(pi);
        self.panes.insert(pi + 1, p);
        if self.active_pane_idx == pi {
            self.active_pane_idx = pi + 1;
        } else if self.active_pane_idx == pi + 1 {
            self.active_pane_idx = pi;
        }
        assert(self@.panes =~= swap_panes(w, pi as int, pi + 1).panes);
    }

    /// Removes the pane at `pi` and hands it back.
    fn take_pane(&mut self, pi: usize) -> (p: Pane)
        requires
            pi < old(self)@.panes.len(),
        ensures
            final(self)@ == without_pane(old(self)@, pi as int),
            p@ == old(self)@.panes[pi as int],
    {
        let ghost w = self@;
        let p = self.panes.remove(pi);
        let remaining = self.panes.len();
        if self.active_pane_idx >= remaining && remaining != 0 {
            self.active_pane_idx = remaining - 1;
        }
        assert(self@.panes =~= without_pane(w, pi as int).panes);
        p
    }

    /// Adds a pane below the others.
    fn push_pane(&mut self, p: Pane)
        ensures
            final(self)@ == (WindowView { panes: old(self)@.panes.push(p@), ..old(self)@ }),
    {
        let ghost w = self@;
        self.panes.push(p);
        assert(self@.panes =~= w.panes.push(p@));
    }
}

impl Session {
    fn find_window_containing_pane(&self, pane_id: PaneId) -> (r: Option<usize>)
        ensures
            r == (match first_index(self@.windows, holds_pane(pane_id)) {
                Some(i) => Some(i as usize),
                None => None::<usize>,
            }),
            r matches Some(i) ==> is_first(self@.windows, holds_pane(pane_id), i as int),
    {
        let mut i: usize = 0;
        while i < self.windows.len()
            invariant
                i <= self.windows@.len(),
                forall|k: int| 0 <= k < i ==> !(#[trigger] holds_pane(pane_id)(self@.windows[k])),
            decreases self.windows@.len() - i,
        {
            assert(self@.windows[i as int] == self.windows@[i as int]@);
            if self.windows[i].contains_pane(pane_id) {
                assert(is_first(self@.windows, holds_pane(pane_id), i as int));
                proof { lemma_first_index_is(self@.windows, holds_pane(pane_id), i as int); }
                return Some(i);
            }
            i += 1;
        }
        proof { lemma_first_index_none(self@.windows, holds_pane(pane_id)); }
        None
    }

    fn find_window_by_id(&self, window_id: WindowId) -> (r: Option<usize>)
        ensures
            r == (match first_index(self@.windows, window_is(window_id)) {
                Some(i) => Some(i as usize),
                None => None::<usize>,
            }),
            r matches Some(i) ==> is_first(self@.windows, window_is(window_id), i as int),
    {
        let mut i: usize = 0;
        while i < self.windows.len()
            invariant
                i <= self.windows@.len(),
                forall|k: int| 0 <= k < i ==> !(#[trigger] window_is(window_id)(self@.windows[k])),
            decreases self.windows@.len() - i,
        {
            assert(self@.windows[i as int] == self.windows@[i as int]@);
            if self.windows[i].id == window_id {
                assert(is_first(self@.windows, window_is(window_id), i as int));
                proof { lemma_first_index_is(self@.windows, window_is(window_id), i as int); }
                return Some(i);
            }
            i += 1;
        }
        proof { lemma_first_index_none(self@.windows, window_is(window_id)); }
        None
    }

    fn move_pane(&mut self, pane_id: PaneId, dir: MoveDirection, new_window_id: WindowId) -> (r: Result<(), StoreError>)
        requires
            session_wf(old(self)@),
            !move_session_fails(old(self)@, pane_id, dir),
        ensures
            match move_session(old(self)@, pane_id, dir, new_window_id) {
                Ok(s) => r is Ok && final(self)@ == s,
                Err(e) => r == Err::<(), StoreError>(e) && final(self)@ == old(self)@,
            },
    {
        let ghost s = self@;
        let wi = match self.find_window_containing_pane(pane_id) {
            Some(i) => i,
            None => return Err(StoreError::PaneNotFound(pane_id)),
        };
        assert(self@.windows[wi as int] == self.windows@[wi as int]@);
        assert(holds_pane(pane_id)(s.windows[wi as int]));
        let pi = self.windows[wi].position_of(pane_id);
        let pane_count = self.windows[wi].panes.len();
        match dir {
            MoveDirection::Up => {
                if pi == 0 {
                    return Err(StoreError::PaneAtTop);
                }
                self.windows[wi].raise_pane(pi);
                assert(self@.windows =~= s.windows.update(wi as int, swap_panes(s.windows[wi as int], pi as int, pi - 1)));
            },
            MoveDirection::Down => {
                if pi + 1 >= pane_count {
                    return Err(StoreError::PaneAtBottom);
                }
                self.windows[wi].lower_pane(pi);
                assert(self@.windows =~= s.windows.update(wi as int, swap_panes(s.windows[wi as int], pi as int, pi + 1)));
            },
            MoveDirection::Left | MoveDirection::Right => {
                let left = dir == MoveDirection::Left;
                let window_count = self.windows.len();
                let target: Option<usize> = if left {
                    if wi == 0 { None } else { Some(wi - 1) }
                } else {
                    if wi + 1 >= window_count { None } else { Some(wi + 1) }
                };
                let pane = self.windows[wi].take_pane(pi);
                let ghost after_take = self@.windows;
                assert(after_take =~= s.windows.update(wi as int, without_pane(s.windows[wi as int], pi as int)));
                assert(window_wf(s.windows[wi as int]));
                let was_active = pane.id == self.windows[wi].active_pane_id();
                let ghost pane_view = pane@;
                match target {
                    Some(d) => {
                        assert(self@.windows[d as int] == self.windows@[d as int]@);
                        self.windows[d].push_pane(pane);
                        if was_active {
                            let last = self.windows[d].panes.len() - 1;
                            self.windows[d].active_pane_idx = last;
                            self.active_window_idx = d;
                        }
                        let ghost dest = after_take[d as int];
                        let ghost dest_panes = dest.panes.push(pane_view);
                        assert(self@.windows =~= after_take.update(d as int, WindowView {
                            panes: dest_panes,
                            active: if was_active { dest_panes.len() - 1 } else { dest.active },
                            ..dest
                        }));
                        assert(self@.windows[wi as int] == after_take[wi as int]);
                    },
                    None => {
                        let at = if left { wi } else { wi + 1 };
                        let fresh = Window {
                            id: new_window_id,
                            name: numbered_name("window ", window_count as u128 + 1),
                            panes: vec![pane],
                            active_pane_idx: 0,
                        };
                        assert(fresh@.panes =~= seq![pane_view]);
                        self.windows.insert(at, fresh);
                        if was_active {
                            self.active_window_idx = at;
                        }
                        assert(self@.windows =~= after_take.insert(at as int, fresh@));
                    },
                }
                let actual = match target {
                    Some(_) => wi,
                    None => if left { wi + 1 } else { wi },
                };
                if self.windows[actual].panes.is_empty() {
                    self.windows.remove(actual);
                    if self.active_window_idx >= self.windows.len() {
                        self.active_window_idx = self.windows.len().saturating_sub(1);
                    }
                }
                assert(self@.windows =~= move_sideways(s, wi as int, pi as int, left, new_window_id).windows);
            },
        }
        Ok(())
    }
    fn navigate(&mut self, dir: NavigateDirection) -> (r: Result<(), StoreError>)
        requires
            session_wf(old(self)@),
        ensures
            match navigate_session(old(self)@, dir) {
                Ok(s) => r is Ok && final(self)@ == s,
                Err(e) => r == Err::<(), StoreError>(e) && final(self)@ == old(self)@,
            },
    {
        let ghost s = self@;
        let wi = self.active_window_idx;
        assert(self.windows@.map_values(|w: Window| w@)[wi as int] == self.windows@[wi as int]@);
        assert(window_wf(s.windows[wi as int]));
        match dir {
            NavigateDirection::Up | NavigateDirection::Down => {
                let idx = self.windows[wi].active_pane_idx;
                let new_idx = match dir {
                    NavigateDirection::Up => {
                        if idx == 0 {
                            return Err(StoreError::NoPaneAbove);
                        }
                        idx - 1
                    },
                    _ => {
                        let pane_count = self.windows[wi].panes.len();
                        if idx + 1 >= pane_count {
                            return Err(StoreError::NoPaneBelow);
                        }
                        idx + 1
                    },
                };
                self.windows[wi].active_pane_idx = new_idx;
                assert(self@.windows =~= s.windows.update(wi as int, WindowView { active: new_idx as int, ..s.windows[wi as int] }));
            },
            NavigateDirection::Left | NavigateDirection::Right => {
                let new_wi = match dir {
                    NavigateDirection::Left => {
                        if wi == 0 {
                            return Err(StoreError::NoWindowLeft);
                        }
                        wi - 1
                    },
                    _ => {
                        let window_count = self.windows.len();
                        if wi + 1 >= window_count {
                            return Err(StoreError::NoWindowRight);
                        }
                        wi + 1
                    },
                };
                assert(self.windows@.map_values(|w: Window| w@)[new_wi as int] == self.windows@[new_wi as int]@);
                self.active_window_idx = new_wi;
                self.windows[new_wi].active_pane_idx = 0;
                assert(self@.windows =~= s.windows.update(new_wi as int, WindowView { active: 0, ..s.windows[new_wi as int] }));
            },
        }
        Ok(())
    }
}


impl Pane {
    fn info(&self) -> (info: PaneInfo)
        ensures
            info.id == self@.id,
            info.name@ == self@.name,
    {
        PaneInfo { id: self.id, name: self.name.clone() }
    }
}

impl Window {
    fn info(&self) -> (info: WindowInfo)
        requires
            window_wf(self@),
        ensures
            window_described(info, self@),
    {
        let mut panes: Vec<PaneInfo> = Vec::new();
        let mut j: usize = 0;
        while j < self.panes.len()
            invariant
                j <= self.panes@.len(),
                panes@.len() == j,
                forall|k: int|
                    0 <= k < j ==> (#[trigger] panes@[k]).id == self@.panes[k].id
                        && panes@[k].name@ == self@.panes[k].name,
            decreases self.panes@.len() - j,
        {
            let p = self.panes[j].info();
            panes.push(p);
            j += 1;
        }
        WindowInfo {
            id: self.id,
            name: self.name.clone(),
            panes: panes,
            active_pane_id: self.active_pane_id(),
        }
    }
}

impl Session {
    fn info(&self) -> (info: SessionInfo)
        requires
            session_wf(self@),
        ensures
            session_described(info, self@),
    {
        let mut windows: Vec<WindowInfo> = Vec::new();
        let mut i: usize = 0;
        while i < self.windows.len()
            invariant
                i <= self.windows@.len(),
                windows@.len() == i,
                session_wf(self@),
                forall|k: int| 0 <= k < i ==> window_described(#[trigger] windows@[k], self@.windows[k]),
            decreases self.windows@.len() - i,
        {
            assert(self@.windows[i as int] == self.windows@[i as int]@);
            assert(window_wf(self@.windows[i as int]));
            let w = self.windows[i].info();
            windows.push(w);
            i += 1;
        }
        assert(self@.windows[self.active_window_idx as int] == self.windows@[self.active_window_idx as int]@);
        SessionInfo {
            name: self.name.clone(),
            windows: windows,
            active_window_id: self.windows[self.active_window_idx].id,
        }
    }

    fn contains_pane(&self, pane_id: PaneId) -> (r: bool)
        ensures
            r == session_has_pane(self@, pane_id),
    {
        let mut i: usize = 0;
        while i < self.windows.len()
            invariant
                i <= self.windows@.len(),
                forall|k: int| 0 <= k < i ==> !window_has_pane(#[trigger] self@.windows[k], pane_id),
            decreases self.windows@.len() - i,
        {
            assert(self@.windows[i as int] == self.windows@[i as int]@);
            if self.windows[i].contains_pane(pane_id) {
                return true;
            }
            i += 1;
        }
        false
    }
}

// ─── Output subscribers ─────────────────────────────────────────────────────

/// What `broadcast_output` did for one subscriber: the label of the channel
/// it sent on, the pane and bytes that `send_output` was handed, and what
/// that call returned.
pub type Offer = (nat, PaneId, Seq<u8>, bool);

/// The channels of the offers that were taken, in order.
pub open spec fn taken_channels(offers: Seq<Offer>) -> Seq<nat>
    decreases offers.len(),
{
    if offers.len() == 0 {
        Seq::empty()
    } else {
        let rest = taken_channels(offers.drop_last());
        if offers.last().3 {
            rest.push(offers.last().0)
        } else {
            rest
        }
    }
}

spec fn channels(senders: Seq<OutputSender>) -> Seq<nat> {
    senders.map_values(|o: OutputSender| o.channel())
}

struct OutputSubscribers {
    session_name: String,
    senders: Vec<OutputSender>,
}

/// Bytes to write to a pane's terminal.
pub struct PaneWrite {
    pub pane_id: PaneId,
    pub data: Vec<u8>,
}

/// The size of a pane's terminal, in character cells and pixels.
#[derive(Debug, Clone, Copy, PartialEq, Eq, Structural)]
pub struct PtySize {
    pub rows: u16,
    pub cols: u16,
    pub pixel_width: u16,
    pub pixel_height: u16,
}

/// A new size for a pane's terminal.
pub struct PaneResize {
    pub pane_id: PaneId,
    pub size: PtySize,
}

/// Central store for all sessions.
pub struct SessionStore {
    sessions: Vec<Session>,
    output_senders: Vec<OutputSubscribers>,
    next_id: u64,
    labels: ChannelLabels,
}

impl View for SessionStore {
    type V = StoreView;

    closed spec fn view(&self) -> StoreView {
        StoreView {
            sessions: self.sessions@.map_values(|s: Session| s@),
            subscribers: self.output_senders@.map_values(
                |o: OutputSubscribers| (o.session_name@, o.senders@.len()),
            ),
            next_id: self.next_id,
        }
    }
}

impl SessionStore {
    /// The store is well formed.
    pub open spec fn wf(&self) -> bool {
        store_wf(self@) && self.channels_named()
    }

    /// Every stored sender's channel has a label below the next one to give out.
    pub closed spec fn channels_named(&self) -> bool {
        forall|k: int, j: int|
            0 <= k < self.output_senders@.len() && 0 <= j < self.output_senders@[k].senders@.len()
                ==> (#[trigger] self.output_senders@[k].senders@[j]).channel() < self.labels.next()
    }

    /// The channels that feed the output subscribers of the named session,
    /// in the order in which they subscribed.
    pub closed spec fn senders_of(&self, name: Seq<char>) -> Seq<nat> {
        match first_index(self@.subscribers, subscribed_to(name)) {
            Some(k) => channels(self.output_senders@[k].senders@),
            None => Seq::empty(),
        }
    }

    proof fn lemma_senders_named(&self, n: Seq<char>)
        requires
            self.channels_named(),
        ensures
            forall|j: int| 0 <= j < self.senders_of(n).len() ==> #[trigger] self.senders_of(n)[j] < self.labels.next(),
    {
        if let Some(m) = first_index(self@.subscribers, subscribed_to(n)) {
            let x = choose|i: int| 0 <= i < self@.subscribers.len() && subscribed_to(n)(#[trigger] self@.subscribers[i]);
            lemma_first_index_some(self@.subscribers, subscribed_to(n), x);
            assert forall|j: int| 0 <= j < self.senders_of(n).len() implies #[trigger] self.senders_of(n)[j] < self.labels.next() by {
                assert(self.output_senders@[m].senders@[j].channel() < self.labels.next());
            }
        }
    }

    /// An empty store; the first id it hands out is 1.
    pub fn new() -> (store: Self)
        ensures
            store.wf(),
            store@.sessions.len() == 0,
            store@.subscribers.len() == 0,
            store@.next_id == 1,
    {
        let store = SessionStore { sessions: Vec::new(), output_senders: Vec::new(), next_id: 1, labels: ChannelLabels::new() };
        assert(store@.sessions =~= Seq::<SessionView>::empty());
        assert(ids_unique(store@)) by {
            assert forall|x: u64| #[trigger] store_id_count(store@, x) == 0 by {
                assert(store@.sessions =~= Seq::<SessionView>::empty());
            }
        }
        assert(store@.subscribers =~= Seq::<(Seq<char>, nat)>::empty());
        store
    }

    fn alloc_id(&mut self) -> (id: u64)
        requires
            old(self).next_id < u64::MAX,
        ensures
            id == old(self).next_id,
            final(self).next_id == old(self).next_id + 1,
            final(self).sessions == old(self).sessions,
            final(self).output_senders == old(self).output_senders,
            final(self).labels == old(self).labels,
    {
        let id = self.next_id;
        self.next_id += 1;
        id
    }

    fn find_session(&self, name: &String) -> (r: Option<usize>)
        ensures
            r == (match session_index(self@, name@) {
                Some(i) => Some(i as usize),
                None => None::<usize>,
            }),
            r matches Some(i) ==> is_first(self@.sessions, session_named(name@), i as int),
    {
        let mut i: usize = 0;
        while i < self.sessions.len()
            invariant
                i <= self.sessions@.len(),
                forall|k: int| 0 <= k < i ==> !(#[trigger] session_named(name@)(self@.sessions[k])),
            decreases self.sessions@.len() - i,
        {
            assert(self@.sessions[i as int] == self.sessions@[i as int]@);
            if self.sessions[i].name == *name {
                assert(is_first(self@.sessions, session_named(name@), i as int));
                proof { lemma_first_index_is(self@.sessions, session_named(name@), i as int); }
                return Some(i);
            }
            i += 1;
        }
        proof { lemma_first_index_none(self@.sessions, session_named(name@)); }
        None
    }

    /// The next id the store hands out.
    pub fn next_id(&self) -> (id: u64)
        ensures
            id == self@.next_id,
    {
        self.next_id
    }

    /// Whether a session of this name exists.
    pub fn has_session(&self, name: &String) -> (r: bool)
        ensures
            r == session_index(self@, name@) is Some,
    {
        self.find_session(name).is_some()
    }

    /// Makes sure a session of this name exists. A new one gets one window,
    /// `window 1`, holding one pane, `pane 1`; the pane's id is handed back.
    pub fn ensure_session(&mut self, name: &String) -> (r: Option<PaneId>)
        requires
            old(self).wf(),
            session_index(old(self)@, name@) is None ==> old(self)@.next_id < u64::MAX - 1,
        ensures
            final(self).wf(),
            session_index(old(self)@, name@) is Some ==> r is None && final(self)@ == old(self)@,
            session_index(old(self)@, name@) is None ==> {
                &&& r == Some(old(self)@.next_id)
                &&& final(self)@.sessions == old(self)@.sessions.push(
                    fresh_session(name@, old(self)@.next_id, (old(self)@.next_id + 1) as u64),
                )
                &&& final(self)@.subscribers == old(self)@.subscribers
                &&& final(self)@.next_id == old(self)@.next_id + 2
            },
            session_index(final(self)@, name@) is Some,
            sessions_kept(old(self)@, final(self)@),
            forall|n: Seq<char>| #[trigger] final(self).senders_of(n) == old(self).senders_of(n),
    {
        let ghost v = self@;
        match self.find_session(name) {
            Some(i) => {
                assert(session_named(name@)(v.sessions[i as int]));
                None
            },
            None => {
                let pane_id = self.alloc_id();
                let window_id = self.alloc_id();
                let pane = Pane { id: pane_id, name: String::from_str("pane 1") };
                let window = Window {
                    id: window_id,
                    name: String::from_str("window 1"),
                    panes: vec![pane],
                    active_pane_idx: 0,
                };
                assert(window@.panes =~= seq![PaneView { id: pane_id, name: "pane 1"@ }]);
                let session = Session { name: name.clone(), windows: vec![window], active_window_idx: 0 };
                assert(session@.windows =~= fresh_session(name@, pane_id, window_id).windows);
                self.sessions.push(session);
                assert(self@.sessions =~= v.sessions.push(fresh_session(name@, pane_id, window_id)));
                assert(self@.subscribers =~= v.subscribers);
                proof {
                    assert forall|x: u64| #![trigger store_id_count(self@, x)]
                        store_id_count(self@, x) <= 1 && (x >= self@.next_id ==> store_id_count(self@, x) == 0) by {
                        lemma_sum_push(v.sessions, session_counter(x), session@);
                        lemma_fresh_counts(name@, pane_id, window_id, x);
                        assert(store_id_count(v, x) <= 1 && (x >= v.next_id ==> store_id_count(v, x) == 0));
                    }
                    lemma_push_keeps_sessions(v, self@, session@);
                    lemma_first_index_push(v.sessions, session_named(name@), session@);
                    assert forall|i: int, j: int|
                        0 <= i < self@.sessions.len() && 0 <= j < self@.sessions.len() && i != j
                        implies (#[trigger] self@.sessions[i]).name != (#[trigger] self@.sessions[j]).name by {
                        if i == v.sessions.len() {
                            assert(!session_named(name@)(v.sessions[j]));
                        } else if j == v.sessions.len() {
                            assert(!session_named(name@)(v.sessions[i]));
                        }
                    }
                    assert(session_wf(fresh_session(name@, pane_id, window_id))) by {
                        assert(window_wf(fresh_session(name@, pane_id, window_id).windows[0]));
                    }
                    assert forall|i: int| 0 <= i < self@.sessions.len() implies session_wf(#[trigger] self@.sessions[i]) by {
                        if i < v.sessions.len() {
                            assert(self@.sessions[i] == v.sessions[i]);
                        }
                    }
                }
                Some(pane_id)
            },
        }
    }

    /// What the server reports of the named session.
    pub fn session_info(&self, name: &String) -> (info: SessionInfo)
        requires
            self.wf(),
            session_index(self@, name@) is Some,
        ensures
            session_described(info, self@.sessions[session_index(self@, name@)->0]),
    {
        let i = self.find_session(name).unwrap();
        assert(self@.sessions[i as int] == self.sessions@[i as int]@);
        assert(session_wf(self@.sessions[i as int]));
        self.sessions[i].info()
    }

    /// Whether a pane can be added to window `window_id` of the named session.
    pub fn check_create_pane(&self, name: &String, window_id: WindowId) -> (r: Result<(), StoreError>)
        ensures
            match session_index(self@, name@) {
                None => r matches Err(StoreError::UnknownSession(n)) && n@ == name@,
                Some(i) => match first_index(self@.sessions[i].windows, window_is(window_id)) {
                    None => r == Err::<(), StoreError>(StoreError::WindowNotFound(window_id)),
                    Some(_) => r is Ok,
                },
            },
    {
        let i = match self.find_session(name) {
            Some(i) => i,
            None => return Err(StoreError::UnknownSession(name.clone())),
        };
        assert(self@.sessions[i as int] == self.sessions@[i as int]@);
        match self.sessions[i].find_window_by_id(window_id) {
            Some(_) => Ok(()),
            None => Err(StoreError::WindowNotFound(window_id)),
        }
    }

    /// Adds a pane below the others in window `window_id` of the named
    /// session, named after its position (`pane 2`, ...), and hands back its id.
    pub fn create_pane(&mut self, name: &String, window_id: WindowId) -> (r: Result<PaneId, StoreError>)
        requires
            old(self).wf(),
            old(self)@.next_id < u64::MAX,
        ensures
            final(self).wf(),
            sessions_kept(old(self)@, final(self)@),
            r is Ok ==> session_index(final(self)@, name@) is Some,
            match session_index(old(self)@, name@) {
                None => r matches Err(StoreError::UnknownSession(n)) && n@ == name@ && final(self)@ == old(self)@,
                Some(i) => match first_index(old(self)@.sessions[i].windows, window_is(window_id)) {
                    None => r == Err::<PaneId, StoreError>(StoreError::WindowNotFound(window_id))
                        && final(self)@ == old(self)@,
                    Some(wi) => {
                        &&& r == Ok::<PaneId, StoreError>(old(self)@.next_id)
                        &&& final(self)@.sessions == old(self)@.sessions.update(
                            i,
                            session_with_pane(old(self)@.sessions[i], wi, old(self)@.next_id),
                        )
                        &&& final(self)@.subscribers == old(self)@.subscribers
                        &&& final(self)@.next_id == old(self)@.next_id + 1
                    },
                },
            },
    {
        let ghost v = self@;
        let i = match self.find_session(name) {
            Some(i) => i,
            None => return Err(StoreError::UnknownSession(name.clone())),
        };
        assert(self@.sessions[i as int] == self.sessions@[i as int]@);
        let wi = match self.sessions[i].find_window_by_id(window_id) {
            Some(wi) => wi,
            None => return Err(StoreError::WindowNotFound(window_id)),
        };
        assert(self@.sessions[i as int].windows[wi as int] == self.sessions@[i as int].windows@[wi as int]@);
        let pane_count = self.sessions[i].windows[wi].panes.len();
        let pane_name = numbered_name("pane ", pane_count as u128 + 1);
        let id = self.alloc_id();
        self.sessions[i].windows[wi].push_pane(Pane { id: id, name: pane_name });
        assert(self@.subscribers =~= v.subscribers);
        proof {
            let t = session_with_pane(v.sessions[i as int], wi as int, id);
            assert(self@.sessions[i as int].windows =~= t.windows);
            assert(self@.sessions =~= v.sessions.update(i as int, t));
            lemma_update_keeps_sessions(v, self@, i as int, t);
            assert forall|x: u64| #![trigger store_id_count(self@, x)]
                store_id_count(self@, x) <= 1 && (x >= self@.next_id ==> store_id_count(self@, x) == 0) by {
                lemma_store_update_count(v, self@, i as int, t, x);
                lemma_add_pane_counts(v.sessions[i as int], wi as int, id, x);
                assert(store_id_count(v, x) <= 1 && (x >= v.next_id ==> store_id_count(v, x) == 0));
            }
            assert(session_wf(v.sessions[i as int]));
            assert(window_wf(v.sessions[i as int].windows[wi as int]));
            assert forall|k: int| 0 <= k < t.windows.len() implies window_wf(#[trigger] t.windows[k]) by {
                assert(window_wf(v.sessions[i as int].windows[k]));
            }
            lemma_update_keeps_wf(v, self@, i as int, t);
        }
        Ok(id)
    }

    fn find_pane(&self, pane_id: PaneId) -> (r: bool)
        ensures
            r == store_has_pane(self@, pane_id),
    {
        let mut i: usize = 0;
        while i < self.sessions.len()
            invariant
                i <= self.sessions@.len(),
                forall|k: int| 0 <= k < i ==> !session_has_pane(#[trigger] self@.sessions[k], pane_id),
            decreases self.sessions@.len() - i,
        {
            assert(self@.sessions[i as int] == self.sessions@[i as int]@);
            if self.sessions[i].contains_pane(pane_id) {
                return true;
            }
            i += 1;
        }
        false
    }

    /// The write of `data` to pane `pane_id`'s terminal, if some session holds that pane.
    pub fn send_input(&self, pane_id: PaneId, data: Vec<u8>) -> (r: Result<PaneWrite, StoreError>)
        ensures
            store_has_pane(self@, pane_id) ==> (r matches Ok(w) && w.pane_id == pane_id && w.data == data),
            !store_has_pane(self@, pane_id) ==> (r matches Err(e) && e == StoreError::PaneNotFound(pane_id)),
    {
        if self.find_pane(pane_id) {
            Ok(PaneWrite { pane_id: pane_id, data: data })
        } else {
            Err(StoreError::PaneNotFound(pane_id))
        }
    }

    /// The resize of pane `pane_id`'s terminal to `cols` by `rows` cells,
    /// if some session holds that pane.
    pub fn resize_pane(&self, pane_id: PaneId, cols: u16, rows: u16) -> (r: Result<PaneResize, StoreError>)
        ensures
            store_has_pane(self@, pane_id) ==> (r matches Ok(z) && z.pane_id == pane_id && z.size == (PtySize {
                rows: rows,
                cols: cols,
                pixel_width: 0,
                pixel_height: 0,
            })),
            !store_has_pane(self@, pane_id) ==> (r matches Err(e) && e == StoreError::PaneNotFound(pane_id)),
    {
        if self.find_pane(pane_id) {
            Ok(PaneResize { pane_id: pane_id, size: PtySize { rows: rows, cols: cols, pixel_width: 0, pixel_height: 0 } })
        } else {
            Err(StoreError::PaneNotFound(pane_id))
        }
    }

    /// Makes the pane above or below, or the window to the left or right,
    /// active in the named session.
    pub fn navigate(&mut self, name: &String, dir: NavigateDirection) -> (r: Result<(), StoreError>)
        requires
            old(self).wf(),
        ensures
            final(self).wf(),
            sessions_kept(old(self)@, final(self)@),
            r is Ok ==> session_index(final(self)@, name@) is Some,
            match session_index(old(self)@, name@) {
                None => r == Err::<(), StoreError>(StoreError::SessionNotFound) && final(self)@ == old(self)@,
                Some(i) => match navigate_session(old(self)@.sessions[i], dir) {
                    Ok(t) => r is Ok && final(self)@ == (StoreView {
                        sessions: old(self)@.sessions.update(i, t),
                        ..old(self)@
                    }),
                    Err(e) => r == Err::<(), StoreError>(e) && final(self)@ == old(self)@,
                },
            },
    {
        let ghost v = self@;
        let i = match self.find_session(name) {
            Some(i) => i,
            None => return Err(StoreError::SessionNotFound),
        };
        assert(self@.sessions[i as int] == self.sessions@[i as int]@);
        assert(session_wf(v.sessions[i as int]));
        let r = self.sessions[i].navigate(dir);
        assert(self@.subscribers =~= v.subscribers);
        proof {
            lemma_navigate_keeps_wf(v.sessions[i as int], dir);
            if r is Ok {
                let t = navigate_session(v.sessions[i as int], dir)->Ok_0;
                assert(self@.sessions =~= v.sessions.update(i as int, t));
                lemma_update_keeps_sessions(v, self@, i as int, t);
                assert forall|x: u64| #![trigger store_id_count(self@, x)]
                    store_id_count(self@, x) <= 1 && (x >= self@.next_id ==> store_id_count(self@, x) == 0) by {
                    lemma_store_update_count(v, self@, i as int, t, x);
                    lemma_navigate_counts(v.sessions[i as int], dir, x);
                    assert(store_id_count(v, x) <= 1 && (x >= v.next_id ==> store_id_count(v, x) == 0));
                }
                lemma_update_keeps_wf(v, self@, i as int, t);
            } else {
                assert(self@.sessions =~= v.sessions);
            }
        }
        r
    }

    /// Whether moving pane `pane_id` in the named session is a request the
    /// server stops on: a sideways move of a pane alone in its window.
    pub fn move_pane_fails(&self, name: &String, pane_id: PaneId, dir: MoveDirection) -> (r: bool)
        ensures
            r == store_move_fails(self@, name@, pane_id, dir),
    {
        if dir == MoveDirection::Up || dir == MoveDirection::Down {
            return false;
        }
        let i = match self.find_session(name) {
            Some(i) => i,
            None => return false,
        };
        assert(self@.sessions[i as int] == self.sessions@[i as int]@);
        match self.sessions[i].find_window_containing_pane(pane_id) {
            Some(wi) => {
                assert(self@.sessions[i as int].windows[wi as int] == self.sessions@[i as int].windows@[wi as int]@);
                self.sessions[i].windows[wi].panes.len() < 2
            },
            None => false,
        }
    }

    /// Moves pane `pane_id` of the named session one step in `dir`. An id is
    /// set aside first, whatever happens, for the window that a sideways
    /// move may have to create.
    pub fn move_pane(&mut self, name: &String, pane_id: PaneId, dir: MoveDirection) -> (r: Result<(), StoreError>)
        requires
            old(self).wf(),
            old(self)@.next_id < u64::MAX,
            !store_move_fails(old(self)@, name@, pane_id, dir),
        ensures
            final(self).wf(),
            sessions_kept(old(self)@, final(self)@),
            r is Ok ==> session_index(final(self)@, name@) is Some,
            final(self)@.next_id == old(self)@.next_id + 1,
            final(self)@.subscribers == old(self)@.subscribers,
            match session_index(old(self)@, name@) {
                None => r == Err::<(), StoreError>(StoreError::SessionNotFound)
                    && final(self)@.sessions == old(self)@.sessions,
                Some(i) => match move_session(old(self)@.sessions[i], pane_id, dir, old(self)@.next_id) {
                    Ok(t) => r is Ok && final(self)@.sessions == old(self)@.sessions.update(i, t),
                    Err(e) => r == Err::<(), StoreError>(e) && final(self)@.sessions == old(self)@.sessions,
                },
            },
    {
        let ghost v = self@;
        let new_window_id = self.alloc_id();
        assert(self@.sessions == v.sessions);
        assert(self@.subscribers =~= v.subscribers);
        proof { lemma_ids_unique_frame(v, self@); }
        let i = match self.find_session(name) {
            Some(i) => i,
            None => return Err(StoreError::SessionNotFound),
        };
        assert(self@.sessions[i as int] == self.sessions@[i as int]@);
        assert(session_wf(v.sessions[i as int]));
        let r = self.sessions[i].move_pane(pane_id, dir, new_window_id);
        assert(self@.subscribers =~= v.subscribers);
        proof {
            lemma_move_keeps_wf(v.sessions[i as int], pane_id, dir, new_window_id);
            if r is Ok {
                let t = move_session(v.sessions[i as int], pane_id, dir, new_window_id)->Ok_0;
                assert(self@.sessions =~= v.sessions.update(i as int, t));
                lemma_update_keeps_sessions(v, self@, i as int, t);
                assert forall|x: u64| #![trigger store_id_count(self@, x)]
                    store_id_count(self@, x) <= 1 && (x >= self@.next_id ==> store_id_count(self@, x) == 0) by {
                    lemma_store_update_count(v, self@, i as int, t, x);
                    lemma_move_counts(v.sessions[i as int], pane_id, dir, new_window_id, x);
                    assert(store_id_count(v, x) <= 1 && (x >= v.next_id ==> store_id_count(v, x) == 0));
                }
                lemma_update_keeps_wf(v, self@, i as int, t);
            } else {
                assert(self@.sessions =~= v.sessions);
            }
        }
        r
    }

    fn find_subscribers(&self, name: &String) -> (r: Option<usize>)
        ensures
            r == (match first_index(self@.subscribers, subscribed_to(name@)) {
                Some(k) => Some(k as usize),
                None => None::<usize>,
            }),
            r matches Some(k) ==> is_first(self@.subscribers, subscribed_to(name@), k as int),
    {
        let mut k: usize = 0;
        while k < self.output_senders.len()
            invariant
                k <= self.output_senders@.len(),
                forall|j: int| 0 <= j < k ==> !(#[trigger] subscribed_to(name@)(self@.subscribers[j])),
            decreases self.output_senders@.len() - k,
        {
            if self.output_senders[k].session_name == *name {
                assert(is_first(self@.subscribers, subscribed_to(name@), k as int));
                proof { lemma_first_index_is(self@.subscribers, subscribed_to(name@), k as int); }
                return Some(k);
            }
            k += 1;
        }
        proof { lemma_first_index_none(self@.subscribers, subscribed_to(name@)); }
        None
    }

    /// A receiver that will deliver pane output for the named session: the
    /// session gains one output subscriber, fed by the sender of the
    /// receiver's own channel, a channel no subscriber had before.
    pub fn subscribe_output(&mut self, name: &String) -> (rx: OutputReceiver)
        requires
            old(self).wf(),
        ensures
            final(self).wf(),
            final(self)@.sessions == old(self)@.sessions,
            sessions_kept(old(self)@, final(self)@),
            final(self)@.next_id == old(self)@.next_id,
            forall|n: Seq<char>|
                #[trigger] subscriber_count(final(self)@, n) == subscriber_count(old(self)@, n) + (if n == name@ {
                    1nat
                } else {
                    0nat
                }),
            final(self).senders_of(name@) == old(self).senders_of(name@).push(rx.channel()),
            forall|n: Seq<char>| n != name@ ==> #[trigger] final(self).senders_of(n) == old(self).senders_of(n),
            forall|n: Seq<char>| !(#[trigger] old(self).senders_of(n)).contains(rx.channel()),
    {
        let ghost v = self@;
        let ghost before = self.output_senders@;
        let ghost c = self.labels.next();
        let (sender, receiver) = open_channel(&self.labels);
        proof {
            assert forall|n: Seq<char>| !(#[trigger] old(self).senders_of(n)).contains(c) by {
                old(self).lemma_senders_named(n);
            }
        }
        self.labels.advance();
        match self.find_subscribers(name) {
            Some(k) => {
                self.output_senders[k].senders.push(sender);
                proof {
                    let w = self@.subscribers;
                    assert(w =~= v.subscribers.update(k as int, (name@, v.subscribers[k as int].1 + 1)));
                    assert forall|n: Seq<char>|
                        #[trigger] subscriber_count(self@, n) == subscriber_count(v, n) + (if n == name@ { 1nat } else { 0nat }) by {
                        lemma_count_after_update(v, self@, k as int, v.subscribers[k as int].1 + 1, n);
                        if n != name@ && first_index(v.subscribers, subscribed_to(n)) == Some(k as int) {
                            lemma_first_index_some(v.subscribers, subscribed_to(n), k as int);
                        }
                    }
                    lemma_count_after_update(v, self@, k as int, v.subscribers[k as int].1 + 1, name@);
                    assert(channels(self.output_senders@[k as int].senders@) =~= channels(before[k as int].senders@).push(c));
                    assert forall|n: Seq<char>| n != name@ implies #[trigger] self.senders_of(n) == old(self).senders_of(n) by {
                        lemma_count_after_update(v, self@, k as int, v.subscribers[k as int].1 + 1, n);
                        if let Some(m) = first_index(v.subscribers, subscribed_to(n)) {
                            let x = choose|i: int| 0 <= i < v.subscribers.len() && subscribed_to(n)(#[trigger] v.subscribers[i]);
                            lemma_first_index_some(v.subscribers, subscribed_to(n), x);
                            assert(m != k as int);
                            assert(self.output_senders@[m] == before[m]);
                        }
                    }
                    assert forall|a: int, b: int|
                        0 <= a < self.output_senders@.len() && 0 <= b < self.output_senders@[a].senders@.len()
                        implies (#[trigger] self.output_senders@[a].senders@[b]).channel() < self.labels.next() by {
                        if a == k as int && b == before[a].senders@.len() {
                        } else {
                            assert(self.output_senders@[a].senders@[b] == before[a].senders@[b]);
                        }
                    }
                }
            },
            None => {
                let mut senders = Vec::new();
                senders.push(sender);
                let entry = OutputSubscribers { session_name: name.clone(), senders: senders };
                self.output_senders.push(entry);
                proof {
                    let w = self@.subscribers;
                    assert(w =~= v.subscribers.push((name@, 1nat)));
                    assert forall|n: Seq<char>|
                        #[trigger] subscriber_count(self@, n) == subscriber_count(v, n) + (if n == name@ { 1nat } else { 0nat }) by {
                        lemma_first_index_push(v.subscribers, subscribed_to(n), (name@, 1nat));
                        if let Some(m) = first_index(v.subscribers, subscribed_to(n)) {
                            let x = choose|i: int| 0 <= i < v.subscribers.len() && subscribed_to(n)(#[trigger] v.subscribers[i]);
                            lemma_first_index_some(v.subscribers, subscribed_to(n), x);
                            assert(w[m] == v.subscribers[m]);
                        }
                    }
                    assert forall|n: Seq<char>|
                        #[trigger] self.senders_of(n) == (if n == name@ { old(self).senders_of(n).push(c) } else { old(self).senders_of(n) }) by {
                        lemma_first_index_push(v.subscribers, subscribed_to(n), (name@, 1nat));
                        if let Some(m) = first_index(v.subscribers, subscribed_to(n)) {
                            let x = choose|i: int| 0 <= i < v.subscribers.len() && subscribed_to(n)(#[trigger] v.subscribers[i]);
                            lemma_first_index_some(v.subscribers, subscribed_to(n), x);
                            assert(w[m] == v.subscribers[m]);
                            assert(self.output_senders@[m] == before[m]);
                        } else if n == name@ {
                            assert(channels(self.output_senders@[v.subscribers.len() as int].senders@) =~= seq![c]);
                            assert(old(self).senders_of(n).push(c) =~= seq![c]);
                        }
                    }
                    assert forall|i: int, j: int|
                        0 <= i < w.len() && 0 <= j < w.len() && i != j
                        implies (#[trigger] w[i]).0 != (#[trigger] w[j]).0 by {
                        if i == v.subscribers.len() {
                            assert(!subscribed_to(name@)(v.subscribers[j]));
                        } else if j == v.subscribers.len() {
                            assert(!subscribed_to(name@)(v.subscribers[i]));
                        }
                    }
                    assert forall|a: int, b: int|
                        0 <= a < self.output_senders@.len() && 0 <= b < self.output_senders@[a].senders@.len()
                        implies (#[trigger] self.output_senders@[a].senders@[b]).channel() < self.labels.next() by {
                        if a < before.len() {
                            assert(self.output_senders@[a] == before[a]);
                        }
                    }
                }
            },
        }
        assert(self@.sessions =~= v.sessions);
        proof { lemma_ids_unique_frame(v, self@); }
        receiver
    }

    /// Offers one piece of pane output to every subscriber of the named
    /// session, in order, and drops the subscribers whose channel did not
    /// take it (its receiver is gone). The offers made are handed back.
    pub fn broadcast_output(&mut self, name: &String, pane_id: PaneId, data: Vec<u8>) -> (offers: Ghost<Seq<Offer>>)
        requires
            old(self).wf(),
        ensures
            final(self).wf(),
            final(self)@.sessions == old(self)@.sessions,
            final(self)@.next_id == old(self)@.next_id,
            offers@.len() == old(self).senders_of(name@).len(),
            forall|i: int|
                0 <= i < offers@.len() ==> (#[trigger] offers@[i]).0 == old(self).senders_of(name@)[i] && offers@[i].1
                    == pane_id && offers@[i].2 == data@,
            final(self).senders_of(name@) == taken_channels(offers@),
            subscriber_count(final(self)@, name@) <= subscriber_count(old(self)@, name@),
            forall|n: Seq<char>|
                n != name@ ==> #[trigger] subscriber_count(final(self)@, n) == subscriber_count(old(self)@, n),
            forall|n: Seq<char>| n != name@ ==> #[trigger] final(self).senders_of(n) == old(self).senders_of(n),
    {
        let ghost v = self@;
        let ghost before = self.output_senders@;
        let ghost mut offers: Seq<Offer> = Seq::empty();
        if let Some(k) = self.find_subscribers(name) {
            let mut pending: Vec<OutputSender> = Vec::new();
            std::mem::swap(&mut pending, &mut self.output_senders[k].senders);
            let ghost all = pending@;
            let ghost bound = self.labels.next();
            let ghost mut sent: Seq<OutputSender> = Seq::empty();
            let mut kept: Vec<OutputSender> = Vec::new();
            assert forall|j: int| 0 <= j < pending@.len() implies (#[trigger] pending@[j]).channel() < bound by {
                assert(before[k as int].senders@[j] == pending@[j]);
            }
            while pending.len() > 0
                invariant
                    all == sent + pending@,
                    offers.len() == sent.len(),
                    forall|i: int|
                        0 <= i < offers.len() ==> (#[trigger] offers[i]).0 == sent[i].channel() && offers[i].1 == pane_id
                            && offers[i].2 == data@,
                    channels(kept@) == taken_channels(offers),
                    kept@.len() <= sent.len(),
                    forall|j: int| 0 <= j < pending@.len() ==> (#[trigger] pending@[j]).channel() < bound,
                    forall|j: int| 0 <= j < kept@.len() ==> (#[trigger] kept@[j]).channel() < bound,
                decreases pending@.len(),
            {
                let tx = pending.remove(0);
                let copy = data.clone();
                assert(copy@ =~= data@);
                let (delivered, handed) = send_output(&tx, (pane_id, copy));
                proof {
                    let o = (tx.channel(), handed@.0, handed@.1, delivered);
                    assert(offers.push(o).drop_last() =~= offers);
                    offers = offers.push(o);
                    sent = sent.push(tx);
                }
                if delivered {
                    let ghost old_kept = kept@;
                    kept.push(tx);
                    assert(channels(kept@) =~= channels(old_kept).push(tx.channel()));
                }
            }
            assert(sent =~= all);
            self.output_senders[k].senders = kept;
            proof {
                let w = self@.subscribers;
                assert(all == before[k as int].senders@);
                assert(w =~= v.subscribers.update(k as int, (name@, w[k as int].1)));
                assert forall|n: Seq<char>| n != name@ implies #[trigger] subscriber_count(self@, n) == subscriber_count(v, n) by {
                    lemma_count_after_update(v, self@, k as int, w[k as int].1, n);
                }
                assert forall|n: Seq<char>| n != name@ implies #[trigger] self.senders_of(n) == old(self).senders_of(n) by {
                    lemma_count_after_update(v, self@, k as int, w[k as int].1, n);
                    if let Some(m) = first_index(v.subscribers, subscribed_to(n)) {
                        let x = choose|i: int| 0 <= i < v.subscribers.len() && subscribed_to(n)(#[trigger] v.subscribers[i]);
                        lemma_first_index_some(v.subscribers, subscribed_to(n), x);
                        assert(m != k as int);
                        assert(self.output_senders@[m] == before[m]);
                    }
                }
                lemma_count_after_update(v, self@, k as int, w[k as int].1, name@);
                assert forall|a: int, b: int|
                    0 <= a < self.output_senders@.len() && 0 <= b < self.output_senders@[a].senders@.len()
                    implies (#[trigger] self.output_senders@[a].senders@[b]).channel() < self.labels.next() by {
                    if a != k as int {
                        assert(self.output_senders@[a] == before[a]);
                    }
                }
            }
            assert(self@.sessions =~= v.sessions);
            proof { lemma_ids_unique_frame(v, self@); }
        }
        Ghost(offers)
    }
}


} // verus!
