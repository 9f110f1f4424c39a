//! The model of the sessions that the server keeps: each session holds
//! windows left to right, each window holds panes stacked top to bottom,
//! and one window of a session and one pane of each window are active.
//! The operations on sessions are stated here over this model, with the
//! laws they keep.

use vstd::prelude::*;

use crate::ipc::{MoveDirection, NavigateDirection, PaneId, SessionInfo, WindowId, WindowInfo};
use crate::session::StoreError;
use crate::text::decimal;
use crate::util::{
    first_index, is_first, lemma_first_index_agree, lemma_first_index_is, lemma_first_index_push,
    lemma_first_index_some, lemma_sum_at_least, lemma_sum_at_least_two, lemma_sum_insert, lemma_sum_push,
    lemma_sum_remove, lemma_sum_update, sum_of,
};

verus! {

// ─── Abstract model ─────────────────────────────────────────────────────────

/// A pane as the model sees it.
pub struct PaneView {
    pub id: PaneId,
    pub name: Seq<char>,
}

/// A window as the model sees it: its panes top to bottom and the index
/// of the active one.
pub struct WindowView {
    pub id: WindowId,
    pub name: Seq<char>,
    pub panes: Seq<PaneView>,
    pub active: int,
}

/// A session as the model sees it: its windows left to right and the
/// index of the active one.
pub struct SessionView {
    pub name: Seq<char>,
    pub windows: Seq<WindowView>,
    pub active: int,
}

/// A window is well formed when it has a pane and its active index is one of them.
pub open spec fn window_wf(w: WindowView) -> bool {
    &&& w.panes.len() > 0
    &&& 0 <= w.active < w.panes.len()
}

/// A session is well formed when it has a window, its active index is
/// one of them, and each window is well formed.
pub open spec fn session_wf(s: SessionView) -> bool {
    &&& s.windows.len() > 0
    &&& 0 <= s.active < s.windows.len()
    &&& forall|i: int| 0 <= i < s.windows.len() ==> window_wf(#[trigger] s.windows[i])
}

/// The name of the `n`-th pane or window: `prefix` followed by `n` in decimal.
pub open spec fn numbered(prefix: Seq<char>, n: nat) -> Seq<char> {
    prefix + decimal(n)
}

/// The window holds a pane with this id.
pub open spec fn window_has_pane(w: WindowView, pane_id: PaneId) -> bool {
    exists|j: int| 0 <= j < w.panes.len() && (#[trigger] w.panes[j]).id == pane_id
}

/// The pane has this id.
pub open spec fn pane_is(pane_id: PaneId) -> spec_fn(PaneView) -> bool {
    |p: PaneView| p.id == pane_id
}

/// The window holds the pane with this id.
pub open spec fn holds_pane(pane_id: PaneId) -> spec_fn(WindowView) -> bool {
    |w: WindowView| window_has_pane(w, pane_id)
}

/// The window has this id.
pub open spec fn window_is(window_id: WindowId) -> spec_fn(WindowView) -> bool {
    |w: WindowView| w.id == window_id
}

/// The session has this name.
pub open spec fn session_named(name: Seq<char>) -> spec_fn(SessionView) -> bool {
    |s: SessionView| s.name == name
}

// ─── Navigation ─────────────────────────────────────────────────────────────

/// The session with the window at `i` active, on its top pane.
pub open spec fn enter_window(s: SessionView, i: int) -> SessionView {
    SessionView { active: i, windows: s.windows.update(i, WindowView { active: 0, ..s.windows[i] }), ..s }
}

/// The session after making the pane above or below active, or the window
/// to the left or right active on its top pane.
pub open spec fn navigate_session(s: SessionView, dir: NavigateDirection) -> Result<SessionView, StoreError> {
    let w = s.windows[s.active];
    match dir {
        NavigateDirection::Up => if w.active == 0 {
            Err(StoreError::NoPaneAbove)
        } else {
            Ok(SessionView {
                windows: s.windows.update(s.active, WindowView { active: w.active - 1, ..w }),
                ..s
            })
        },
        NavigateDirection::Down => if w.active + 1 >= w.panes.len() {
            Err(StoreError::NoPaneBelow)
        } else {
            Ok(SessionView {
                windows: s.windows.update(s.active, WindowView { active: w.active + 1, ..w }),
                ..s
            })
        },
        NavigateDirection::Left => if s.active == 0 {
            Err(StoreError::NoWindowLeft)
        } else {
            Ok(enter_window(s, s.active - 1))
        },
        NavigateDirection::Right => if s.active + 1 >= s.windows.len() {
            Err(StoreError::NoWindowRight)
        } else {
            Ok(enter_window(s, s.active + 1))
        },
    }
}


// ─── Moving panes ───────────────────────────────────────────────────────────

/// The window with the panes at `a` and `b` exchanged; the active index
/// follows the pane it pointed to.
pub open spec fn swap_panes(w: WindowView, a: int, b: int) -> WindowView {
    WindowView {
        panes: w.panes.update(a, w.panes[b]).update(b, w.panes[a]),
        active: if w.active == a {
            b
        } else if w.active == b {
            a
        } else {
            w.active
        },
        ..w
    }
}

/// The window without the pane at `pi`; an active index past the end
/// is pulled back to the last pane.
pub open spec fn without_pane(w: WindowView, pi: int) -> WindowView {
    let panes = w.panes.remove(pi);
    WindowView {
        panes: panes,
        active: if w.active >= panes.len() && panes.len() > 0 {
            panes.len() - 1
        } else {
            w.active
        },
        ..w
    }
}

/// The session after moving the pane at `pi` of window `wi` to the window
/// on its left (`left`) or right, or into a new window with id
/// `new_window_id` placed there when there is none.
pub open spec fn move_sideways(
    s: SessionView,
    wi: int,
    pi: int,
    left: bool,
    new_window_id: WindowId,
) -> SessionView {
    let pane = s.windows[wi].panes[pi];
    let source = without_pane(s.windows[wi], pi);
    let was_active = pane.id == source.panes[source.active].id;
    let windows = s.windows.update(wi, source);
    let target: Option<int> = if left {
        if wi == 0 { None } else { Some(wi - 1) }
    } else {
        if wi + 1 >= s.windows.len() { None } else { Some(wi + 1) }
    };
    match target {
        Some(d) => {
            let dest = windows[d];
            let panes = dest.panes.push(pane);
            let dest = WindowView {
                panes: panes,
                active: if was_active { panes.len() - 1 } else { dest.active },
                ..dest
            };
            SessionView {
                windows: windows.update(d, dest),
                active: if was_active { d } else { s.active },
                ..s
            }
        },
        None => {
            let at = if left { wi } else { wi + 1 };
            let fresh = WindowView {
                id: new_window_id,
                name: numbered("window "@, s.windows.len() + 1),
                panes: seq![pane],
                active: 0,
            };
            SessionView {
                windows: windows.insert(at, fresh),
                active: if was_active { at } else { s.active },
                ..s
            }
        },
    }
}

/// The session after moving the pane `pane_id` one step in `dir`: up and
/// down exchange it with its neighbour in its window, left and right
/// carry it to the neighbouring window (see `move_sideways`).
pub open spec fn move_session(
    s: SessionView,
    pane_id: PaneId,
    dir: MoveDirection,
    new_window_id: WindowId,
) -> Result<SessionView, StoreError> {
    match first_index(s.windows, holds_pane(pane_id)) {
        None => Err(StoreError::PaneNotFound(pane_id)),
        Some(wi) => {
            let w = s.windows[wi];
            match first_index(w.panes, pane_is(pane_id)) {
                None => Err(StoreError::PaneNotFound(pane_id)),
                Some(pi) => match dir {
                    MoveDirection::Up => if pi == 0 {
                        Err(StoreError::PaneAtTop)
                    } else {
                        Ok(SessionView { windows: s.windows.update(wi, swap_panes(w, pi, pi - 1)), ..s })
                    },
                    MoveDirection::Down => if pi + 1 >= w.panes.len() {
                        Err(StoreError::PaneAtBottom)
                    } else {
                        Ok(SessionView { windows: s.windows.update(wi, swap_panes(w, pi, pi + 1)), ..s })
                    },
                    MoveDirection::Left => Ok(move_sideways(s, wi, pi, true, new_window_id)),
                    MoveDirection::Right => Ok(move_sideways(s, wi, pi, false, new_window_id)),
                },
            }
        },
    }
}

/// Moving the pane sideways out of a window that holds nothing else: the
/// server does not handle this and stops.
pub open spec fn move_session_fails(s: SessionView, pane_id: PaneId, dir: MoveDirection) -> bool {
    &&& (dir == MoveDirection::Left || dir == MoveDirection::Right)
    &&& first_index(s.windows, holds_pane(pane_id)) matches Some(wi)
    &&& s.windows[wi].panes.len() < 2
}


// ─── The model keeps its shape ──────────────────────────────────────────────

/// Navigating keeps a session well formed and keeps its name.
pub proof fn lemma_navigate_keeps_wf(s: SessionView, dir: NavigateDirection)
    requires
        session_wf(s),
    ensures
        navigate_session(s, dir) matches Ok(t) ==> session_wf(t) && t.name == s.name,
{
    if let Ok(t) = navigate_session(s, dir) {
        assert(window_wf(s.windows[s.active]));
        assert forall|i: int| 0 <= i < t.windows.len() implies window_wf(#[trigger] t.windows[i]) by {
            assert(window_wf(s.windows[i]));
        }
    }
}

/// The window and pane index that a move of `pane_id` starts from.
pub proof fn lemma_move_source(s: SessionView, pane_id: PaneId)
    requires
        first_index(s.windows, holds_pane(pane_id)) is Some,
    ensures
        ({
            let wi = first_index(s.windows, holds_pane(pane_id))->0;
            &&& is_first(s.windows, holds_pane(pane_id), wi)
            &&& first_index(s.windows[wi].panes, pane_is(pane_id)) is Some
            &&& is_first(s.windows[wi].panes, pane_is(pane_id), first_index(s.windows[wi].panes, pane_is(pane_id))->0)
        }),
{
    let p = holds_pane(pane_id);
    let w = choose|i: int| 0 <= i < s.windows.len() && p(#[trigger] s.windows[i]);
    lemma_first_index_some(s.windows, p, w);
    let wi = first_index(s.windows, p)->0;
    assert(window_has_pane(s.windows[wi], pane_id));
    let j = choose|j: int| 0 <= j < s.windows[wi].panes.len() && (#[trigger] s.windows[wi].panes[j]).id == pane_id;
    assert(pane_is(pane_id)(s.windows[wi].panes[j]));
    lemma_first_index_some(s.windows[wi].panes, pane_is(pane_id), j);
}

/// Moving a pane keeps a session well formed and keeps its name.
pub proof fn lemma_move_keeps_wf(s: SessionView, pane_id: PaneId, dir: MoveDirection, new_window_id: WindowId)
    requires
        session_wf(s),
        !move_session_fails(s, pane_id, dir),
    ensures
        move_session(s, pane_id, dir, new_window_id) matches Ok(t) ==> session_wf(t) && t.name == s.name,
{
    if let Ok(t) = move_session(s, pane_id, dir, new_window_id) {
        lemma_move_source(s, pane_id);
        let wi = first_index(s.windows, holds_pane(pane_id))->0;
        let pi = first_index(s.windows[wi].panes, pane_is(pane_id))->0;
        assert(window_wf(s.windows[wi]));
        assert forall|i: int| 0 <= i < t.windows.len() implies window_wf(#[trigger] t.windows[i]) by {
            if i < s.windows.len() {
                assert(window_wf(s.windows[i]));
            }
            if i > 0 {
                assert(window_wf(s.windows[i - 1]));
            }
            if i + 1 < s.windows.len() {
                assert(window_wf(s.windows[i + 1]));
            }
        }
    }
}


/// No two panes of a window share an id.
pub open spec fn panes_distinct(s: SessionView) -> bool {
    forall|i: int, j: int, k: int|
        0 <= i < s.windows.len() && 0 <= j < s.windows[i].panes.len() && 0 <= k < s.windows[i].panes.len() && j != k
            ==> (#[trigger] s.windows[i].panes[j]).id != (#[trigger] s.windows[i].panes[k]).id
}

/// Navigating back undoes a navigation: after moving the focus up or
/// down, the opposite step restores the session as it was; after moving
/// to the window on the left or right, the opposite step makes the first
/// window active again, on its top pane, and every window keeps its id
/// and its panes.
pub proof fn law_navigate_back(s: SessionView)
    requires
        session_wf(s),
    ensures
        navigate_session(s, NavigateDirection::Up) matches Ok(t)
            ==> navigate_session(t, NavigateDirection::Down) == Ok::<SessionView, StoreError>(s),
        navigate_session(s, NavigateDirection::Down) matches Ok(t)
            ==> navigate_session(t, NavigateDirection::Up) == Ok::<SessionView, StoreError>(s),
        navigate_session(s, NavigateDirection::Left) matches Ok(t)
            ==> navigate_session(t, NavigateDirection::Right) matches Ok(u) && returned_to_window(s, u),
        navigate_session(s, NavigateDirection::Right) matches Ok(t)
            ==> navigate_session(t, NavigateDirection::Left) matches Ok(u) && returned_to_window(s, u),
{
    assert(window_wf(s.windows[s.active]));
    if let Ok(t) = navigate_session(s, NavigateDirection::Up) {
        if let Ok(u) = navigate_session(t, NavigateDirection::Down) {
            assert(u.windows =~= s.windows);
        }
    }
    if let Ok(t) = navigate_session(s, NavigateDirection::Down) {
        if let Ok(u) = navigate_session(t, NavigateDirection::Up) {
            assert(u.windows =~= s.windows);
        }
    }
}

/// `u` has the same windows as `s`, each with its id and panes, and the
/// window that was active in `s` is active again, on its top pane.
pub open spec fn returned_to_window(s: SessionView, u: SessionView) -> bool {
    &&& u.name == s.name
    &&& u.active == s.active
    &&& u.windows.len() == s.windows.len()
    &&& u.windows[u.active].active == 0
    &&& forall|i: int|
        0 <= i < s.windows.len() ==> (#[trigger] u.windows[i]).id == s.windows[i].id && u.windows[i].panes
            == s.windows[i].panes
}

/// The first match of a pane after it was exchanged with a neighbour.
pub(crate) proof fn lemma_swapped_position(s: SessionView, pane_id: PaneId, wi: int, pi: int, other: int)
    requires
        is_first(s.windows, holds_pane(pane_id), wi),
        is_first(s.windows[wi].panes, pane_is(pane_id), pi),
        other == pi - 1 || other == pi + 1,
        0 <= other < s.windows[wi].panes.len(),
    ensures
        ({
            let t = SessionView { windows: s.windows.update(wi, swap_panes(s.windows[wi], pi, other)), ..s };
            &&& first_index(t.windows, holds_pane(pane_id)) == Some(wi)
            &&& other == pi - 1 ==> first_index(t.windows[wi].panes, pane_is(pane_id)) == Some(other)
        }),
{
    let t = SessionView { windows: s.windows.update(wi, swap_panes(s.windows[wi], pi, other)), ..s };
    let w = t.windows[wi];
    assert(w.panes[other].id == pane_id);
    assert(window_has_pane(w, pane_id));
    assert forall|j: int| 0 <= j < wi implies !(#[trigger] holds_pane(pane_id)(t.windows[j])) by {
        assert(!holds_pane(pane_id)(s.windows[j]));
    }
    lemma_first_index_is(t.windows, holds_pane(pane_id), wi);
    if other == pi - 1 {
        assert forall|j: int| 0 <= j < other implies !(#[trigger] pane_is(pane_id)(w.panes[j])) by {
            assert(!pane_is(pane_id)(s.windows[wi].panes[j]));
        }
        lemma_first_index_is(w.panes, pane_is(pane_id), other);
    }
}

/// Moving a pane back undoes a move: after a pane moved up (or down) in its
/// window, moving it down (or up) restores the session as it was.
pub proof fn law_move_back(s: SessionView, pane_id: PaneId, id1: WindowId, id2: WindowId)
    requires
        session_wf(s),
        panes_distinct(s),
    ensures
        move_session(s, pane_id, MoveDirection::Up, id1) matches Ok(t)
            ==> move_session(t, pane_id, MoveDirection::Down, id2) == Ok::<SessionView, StoreError>(s),
        move_session(s, pane_id, MoveDirection::Down, id1) matches Ok(t)
            ==> move_session(t, pane_id, MoveDirection::Up, id2) == Ok::<SessionView, StoreError>(s),
{
    if let Ok(t) = move_session(s, pane_id, MoveDirection::Up, id1) {
        lemma_move_source(s, pane_id);
        let wi = first_index(s.windows, holds_pane(pane_id))->0;
        let pi = first_index(s.windows[wi].panes, pane_is(pane_id))->0;
        lemma_swapped_position(s, pane_id, wi, pi, pi - 1);
        let u = move_session(t, pane_id, MoveDirection::Down, id2);
        assert(u matches Ok(x) && x.windows =~= s.windows) by {
            assert(t.windows[wi].panes.update(pi - 1, t.windows[wi].panes[pi]).update(pi, t.windows[wi].panes[pi - 1])
                =~= s.windows[wi].panes);
            assert(t.windows.update(wi, swap_panes(t.windows[wi], pi - 1, pi)) =~= s.windows);
        }
    }
    if let Ok(t) = move_session(s, pane_id, MoveDirection::Down, id1) {
        lemma_move_source(s, pane_id);
        let wi = first_index(s.windows, holds_pane(pane_id))->0;
        let pi = first_index(s.windows[wi].panes, pane_is(pane_id))->0;
        lemma_swapped_position(s, pane_id, wi, pi, pi + 1);
        let w = t.windows[wi];
        assert(w.panes[pi + 1].id == pane_id);
        assert forall|j: int| 0 <= j < pi + 1 && j != pi implies !(#[trigger] pane_is(pane_id)(w.panes[j])) by {
            assert(!pane_is(pane_id)(s.windows[wi].panes[j]));
        }
        assert(s.windows[wi].panes[pi + 1].id != pane_id);
        assert(!pane_is(pane_id)(w.panes[pi]));
        lemma_first_index_is(w.panes, pane_is(pane_id), pi + 1);
        let u = move_session(t, pane_id, MoveDirection::Up, id2);
        assert(u matches Ok(x) && x.windows =~= s.windows) by {
            assert(swap_panes(w, pi + 1, pi).panes =~= s.windows[wi].panes);
            assert(t.windows.update(wi, swap_panes(w, pi + 1, pi)) =~= s.windows);
        }
    }
}


// ─── Identifiers ────────────────────────────────────────────────────────────

/// One when the pane has id `x`.
pub open spec fn pane_counter(x: u64) -> spec_fn(PaneView) -> nat {
    |p: PaneView| if p.id == x { 1nat } else { 0nat }
}

/// How often `x` is the id of the window or of one of its panes.
pub open spec fn window_id_count(w: WindowView, x: u64) -> nat {
    (if w.id == x { 1nat } else { 0nat }) + sum_of(w.panes, pane_counter(x))
}

/// How often `x` is the id of the window or of one of its panes.
pub open spec fn window_counter(x: u64) -> spec_fn(WindowView) -> nat {
    |w: WindowView| window_id_count(w, x)
}

/// How often `x` is the id of a window or pane of the session.
pub open spec fn session_id_count(s: SessionView, x: u64) -> nat {
    sum_of(s.windows, window_counter(x))
}

/// How often `x` is the id of a window or pane of the session.
pub open spec fn session_counter(x: u64) -> spec_fn(SessionView) -> nat {
    |s: SessionView| session_id_count(s, x)
}

/// Moving the focus changes no id.
pub(crate) proof fn lemma_navigate_counts(s: SessionView, dir: NavigateDirection, x: u64)
    requires
        session_wf(s),
    ensures
        navigate_session(s, dir) matches Ok(t) ==> session_id_count(t, x) == session_id_count(s, x),
{
    if let Ok(t) = navigate_session(s, dir) {
        let i = match dir {
            NavigateDirection::Up | NavigateDirection::Down => s.active,
            _ => t.active,
        };
        lemma_sum_update(s.windows, window_counter(x), i, t.windows[i]);
        assert(t.windows =~= s.windows.update(i, t.windows[i]));
    }
}

/// Moving a pane keeps every id where it was counted; only a new window
/// adds its id.
pub(crate) proof fn lemma_move_counts(s: SessionView, pane_id: PaneId, dir: MoveDirection, new_window_id: WindowId, x: u64)
    requires
        session_wf(s),
        !move_session_fails(s, pane_id, dir),
    ensures
        move_session(s, pane_id, dir, new_window_id) matches Ok(t) ==> {
            &&& x != new_window_id ==> session_id_count(t, x) == session_id_count(s, x)
            &&& session_id_count(t, x) <= session_id_count(s, x) + 1
        },
{
    if let Ok(t) = move_session(s, pane_id, dir, new_window_id) {
        lemma_move_source(s, pane_id);
        let wi = first_index(s.windows, holds_pane(pane_id))->0;
        let w = s.windows[wi];
        let pi = first_index(w.panes, pane_is(pane_id))->0;
        let pc = pane_counter(x);
        let wc = window_counter(x);
        match dir {
            MoveDirection::Up | MoveDirection::Down => {
                let other = if dir == MoveDirection::Up { pi - 1 } else { pi + 1 };
                let p1 = w.panes.update(pi, w.panes[other]);
                lemma_sum_update(w.panes, pc, pi, w.panes[other]);
                lemma_sum_update(p1, pc, other, w.panes[pi]);
                let sw = swap_panes(w, pi, other);
                assert(sw.panes == p1.update(other, w.panes[pi]));
                lemma_sum_update(s.windows, wc, wi, sw);
            },
            _ => {
                let left = dir == MoveDirection::Left;
                let pane = w.panes[pi];
                let source = without_pane(w, pi);
                lemma_sum_remove(w.panes, pc, pi);
                let windows = s.windows.update(wi, source);
                lemma_sum_update(s.windows, wc, wi, source);
                let target: Option<int> = if left {
                    if wi == 0 { None } else { Some(wi - 1) }
                } else {
                    if wi + 1 >= s.windows.len() { None } else { Some(wi + 1) }
                };
                match target {
                    Some(d) => {
                        let dest = windows[d];
                        lemma_sum_push(dest.panes, pc, pane);
                        let was_active = pane.id == source.panes[source.active].id;
                        let panes = dest.panes.push(pane);
                        let dest2 = WindowView {
                            panes: panes,
                            active: if was_active { panes.len() - 1 } else { dest.active },
                            ..dest
                        };
                        lemma_sum_update(windows, wc, d, dest2);
                    },
                    None => {
                        let at = if left { wi } else { wi + 1 };
                        let fresh = WindowView {
                            id: new_window_id,
                            name: numbered("window "@, s.windows.len() + 1),
                            panes: seq![pane],
                            active: 0,
                        };
                        lemma_sum_insert(windows, wc, at, fresh);
                        lemma_sum_push(Seq::<PaneView>::empty(), pc, pane);
                        assert(seq![pane] =~= Seq::<PaneView>::empty().push(pane));
                    },
                }
            },
        }
    }
}

/// Adding pane `pane_id` to a window adds that id once.
pub(crate) proof fn lemma_add_pane_counts(s: SessionView, wi: int, pane_id: PaneId, x: u64)
    requires
        0 <= wi < s.windows.len(),
    ensures
        session_id_count(session_with_pane(s, wi, pane_id), x) == session_id_count(s, x) + (if x == pane_id {
            1nat
        } else {
            0nat
        }),
{
    let w = s.windows[wi];
    let p = PaneView { id: pane_id, name: numbered("pane "@, w.panes.len() + 1) };
    lemma_sum_push(w.panes, pane_counter(x), p);
    let t = session_with_pane(s, wi, pane_id);
    lemma_sum_update(s.windows, window_counter(x), wi, t.windows[wi]);
}

/// A new session holds its pane's and its window's ids once each.
pub(crate) proof fn lemma_fresh_counts(name: Seq<char>, pane_id: PaneId, window_id: WindowId, x: u64)
    ensures
        session_id_count(fresh_session(name, pane_id, window_id), x) == (if x == pane_id { 1nat } else { 0nat }) + (
        if x == window_id {
            1nat
        } else {
            0nat
        }),
{
    let s = fresh_session(name, pane_id, window_id);
    let w = s.windows[0];
    lemma_sum_push(Seq::<PaneView>::empty(), pane_counter(x), w.panes[0]);
    assert(w.panes =~= Seq::<PaneView>::empty().push(w.panes[0]));
    lemma_sum_push(Seq::<WindowView>::empty(), window_counter(x), w);
    assert(s.windows =~= Seq::<WindowView>::empty().push(w));
}

// ─── What the server reports ───────────────────────────────────────────────

/// `info` reports the window `w`: its id, name, panes in order and the id
/// of its active pane.
pub open spec fn window_described(info: WindowInfo, w: WindowView) -> bool {
    &&& info.id == w.id
    &&& info.name@ == w.name
    &&& info.panes@.len() == w.panes.len()
    &&& info.active_pane_id == w.panes[w.active].id
    &&& forall|j: int|
        0 <= j < w.panes.len() ==> (#[trigger] info.panes@[j]).id == w.panes[j].id
            && info.panes@[j].name@ == w.panes[j].name
}

/// `info` reports the session `s`: its name, windows in order and the id
/// of its active window.
pub open spec fn session_described(info: SessionInfo, s: SessionView) -> bool {
    &&& info.name@ == s.name
    &&& info.windows@.len() == s.windows.len()
    &&& info.active_window_id == s.windows[s.active].id
    &&& forall|i: int|
        0 <= i < s.windows.len() ==> window_described(#[trigger] info.windows@[i], s.windows[i])
}

/// The session holds a pane with this id in one of its windows.
pub open spec fn session_has_pane(s: SessionView, pane_id: PaneId) -> bool {
    exists|j: int| 0 <= j < s.windows.len() && window_has_pane(#[trigger] s.windows[j], pane_id)
}

/// A new session as `ensure_session` makes it: one window holding one pane.
pub open spec fn fresh_session(name: Seq<char>, pane_id: PaneId, window_id: WindowId) -> SessionView {
    SessionView {
        name: name,
        windows: seq![WindowView {
            id: window_id,
            name: "window 1"@,
            panes: seq![PaneView { id: pane_id, name: "pane 1"@ }],
            active: 0,
        }],
        active: 0,
    }
}

/// The session with a new pane `pane_id` added below the others in window `wi`.
pub open spec fn session_with_pane(s: SessionView, wi: int, pane_id: PaneId) -> SessionView {
    let w = s.windows[wi];
    SessionView {
        windows: s.windows.update(wi, WindowView {
            panes: w.panes.push(PaneView { id: pane_id, name: numbered("pane "@, w.panes.len() + 1) }),
            ..w
        }),
        ..s
    }
}

// ─── The store ──────────────────────────────────────────────────────────────

/// The whole store as the model sees it: the sessions, for each session
/// name with subscribers the number of them, and the next id to hand out.
pub struct StoreView {
    pub sessions: Seq<SessionView>,
    pub subscribers: Seq<(Seq<char>, nat)>,
    pub next_id: u64,
}

/// How often `x` is the id of a window or pane in the store.
pub open spec fn store_id_count(v: StoreView, x: u64) -> nat {
    sum_of(v.sessions, session_counter(x))
}

/// Every id names at most one window or pane, and no id from `next_id`
/// on is taken yet.
pub open spec fn ids_unique(v: StoreView) -> bool {
    forall|x: u64| #![trigger store_id_count(v, x)] store_id_count(v, x) <= 1 && (x >= v.next_id ==> store_id_count(v, x) == 0)
}

/// No id is handed out twice: in a well-formed store every id is held at
/// most once, and none at or above the next id to hand out is held at all.
pub proof fn law_ids_never_reused(v: StoreView, x: u64)
    requires
        store_wf(v),
    ensures
        store_id_count(v, x) <= 1,
        x >= v.next_id ==> store_id_count(v, x) == 0,
{
}

/// Ids stay unique while the sessions stay and the next id only grows.
pub(crate) proof fn lemma_ids_unique_frame(v: StoreView, w: StoreView)
    requires
        ids_unique(v),
        w.sessions == v.sessions,
        w.next_id >= v.next_id,
    ensures
        ids_unique(w),
{
    assert forall|x: u64| #![trigger store_id_count(w, x)]
        store_id_count(w, x) <= 1 && (x >= w.next_id ==> store_id_count(w, x) == 0) by {
        assert(store_id_count(v, x) <= 1 && (x >= v.next_id ==> store_id_count(v, x) == 0));
    }
}

/// Replacing a session changes the id counts by the difference between the two.
pub(crate) proof fn lemma_store_update_count(v: StoreView, w: StoreView, i: int, t: SessionView, x: u64)
    requires
        0 <= i < v.sessions.len(),
        w.sessions == v.sessions.update(i, t),
    ensures
        store_id_count(w, x) + session_id_count(v.sessions[i], x) == store_id_count(v, x) + session_id_count(t, x),
{
    lemma_sum_update(v.sessions, session_counter(x), i, t);
}

/// Each session is well formed, no two sessions share a name, every id
/// names one window or pane at most, and no session name has two
/// subscriber lists.
pub open spec fn store_wf(v: StoreView) -> bool {
    &&& forall|i: int| 0 <= i < v.sessions.len() ==> session_wf(#[trigger] v.sessions[i])
    &&& ids_unique(v)
    &&& forall|i: int, j: int|
        0 <= i < v.sessions.len() && 0 <= j < v.sessions.len() && i != j
            ==> (#[trigger] v.sessions[i]).name != (#[trigger] v.sessions[j]).name
    &&& forall|i: int, j: int|
        0 <= i < v.subscribers.len() && 0 <= j < v.subscribers.len() && i != j
            ==> (#[trigger] v.subscribers[i]).0 != (#[trigger] v.subscribers[j]).0
}

/// The index of the session with this name, if there is one.
pub open spec fn session_index(v: StoreView, name: Seq<char>) -> Option<int> {
    first_index(v.sessions, session_named(name))
}

/// The subscriber list entry is for this session.
pub open spec fn subscribed_to(name: Seq<char>) -> spec_fn((Seq<char>, nat)) -> bool {
    |e: (Seq<char>, nat)| e.0 == name
}

/// How many output subscribers the session of this name has.
pub open spec fn subscriber_count(v: StoreView, name: Seq<char>) -> nat {
    match first_index(v.subscribers, subscribed_to(name)) {
        Some(i) => v.subscribers[i].1,
        None => 0,
    }
}

/// Some session holds a pane with this id.
pub open spec fn store_has_pane(v: StoreView, pane_id: PaneId) -> bool {
    exists|i: int| 0 <= i < v.sessions.len() && session_has_pane(#[trigger] v.sessions[i], pane_id)
}

/// Moving this pane sideways in the named session is a request the server
/// does not handle: the pane is alone in its window.
pub open spec fn store_move_fails(v: StoreView, name: Seq<char>, pane_id: PaneId, dir: MoveDirection) -> bool {
    session_index(v, name) matches Some(i) && move_session_fails(v.sessions[i], pane_id, dir)
}


/// Changing the count of one subscriber entry leaves every other session's
/// count alone and sets that session's count.
pub(crate) proof fn lemma_count_after_update(v: StoreView, w: StoreView, k: int, c: nat, n: Seq<char>)
    requires
        0 <= k < v.subscribers.len(),
        w.subscribers == v.subscribers.update(k, (v.subscribers[k].0, c)),
    ensures
        subscriber_count(w, n) == if n == v.subscribers[k].0 && first_index(v.subscribers, subscribed_to(n)) == Some(k) {
            c
        } else {
            subscriber_count(v, n)
        },
        first_index(w.subscribers, subscribed_to(n)) == first_index(v.subscribers, subscribed_to(n)),
{
    assert forall|j: int| 0 <= j < w.subscribers.len() implies #[trigger] subscribed_to(n)(w.subscribers[j])
        == subscribed_to(n)(v.subscribers[j]) by {
        if j == k {
            assert(w.subscribers[j].0 == v.subscribers[j].0);
        } else {
            assert(w.subscribers[j] == v.subscribers[j]);
        }
    }
    lemma_first_index_agree(w.subscribers, subscribed_to(n), v.subscribers, subscribed_to(n));
    if let Some(m) = first_index(v.subscribers, subscribed_to(n)) {
        let x = choose|i: int| 0 <= i < v.subscribers.len() && subscribed_to(n)(#[trigger] v.subscribers[i]);
        lemma_first_index_some(v.subscribers, subscribed_to(n), x);
        if m != k {
            assert(w.subscribers[m] == v.subscribers[m]);
        }
    }
}


/// Every session of `old` is still there in `new`.
pub open spec fn sessions_kept(old: StoreView, new: StoreView) -> bool {
    forall|n: Seq<char>| session_index(old, n) is Some ==> #[trigger] session_index(new, n) is Some
}

/// Replacing a session by one of the same name finds every name where it was.
pub(crate) proof fn lemma_update_keeps_sessions(v: StoreView, w: StoreView, i: int, t: SessionView)
    requires
        0 <= i < v.sessions.len(),
        t.name == v.sessions[i].name,
        w.sessions == v.sessions.update(i, t),
    ensures
        sessions_kept(v, w),
        forall|n: Seq<char>| #[trigger] session_index(w, n) == session_index(v, n),
{
    assert forall|n: Seq<char>| #[trigger] session_index(w, n) == session_index(v, n) by {
        assert forall|j: int| 0 <= j < w.sessions.len() implies #[trigger] session_named(n)(w.sessions[j])
            == session_named(n)(v.sessions[j]) by {
            if j == i {
                assert(w.sessions[j].name == v.sessions[j].name);
            }
        }
        lemma_first_index_agree(w.sessions, session_named(n), v.sessions, session_named(n));
    }
}

/// Replacing one session by a well-formed one of the same name keeps the
/// store well formed, once its ids are known to stay unique.
pub(crate) proof fn lemma_update_keeps_wf(v: StoreView, w: StoreView, i: int, t: SessionView)
    requires
        store_wf(v),
        0 <= i < v.sessions.len(),
        t.name == v.sessions[i].name,
        session_wf(t),
        w.sessions == v.sessions.update(i, t),
        w.subscribers == v.subscribers,
        ids_unique(w),
    ensures
        store_wf(w),
{
    assert forall|k: int| 0 <= k < w.sessions.len() implies session_wf(#[trigger] w.sessions[k]) by {
        assert(session_wf(v.sessions[k]));
    }
    assert forall|a: int, b: int|
        0 <= a < w.sessions.len() && 0 <= b < w.sessions.len() && a != b
        implies (#[trigger] w.sessions[a]).name != (#[trigger] w.sessions[b]).name by {
        assert(v.sessions[a].name != v.sessions[b].name);
    }
}

/// Adding a session finds every name where it was.
pub(crate) proof fn lemma_push_keeps_sessions(v: StoreView, w: StoreView, t: SessionView)
    requires
        w.sessions == v.sessions.push(t),
    ensures
        sessions_kept(v, w),
{
    assert forall|n: Seq<char>| session_index(v, n) is Some implies #[trigger] session_index(w, n) is Some by {
        lemma_first_index_push(v.sessions, session_named(n), t);
    }
}

/// Pane and window ids are unique: in a well-formed store, which every
/// operation keeps well formed, no two panes of a window share an id, so
/// moving a pane up and then down restores its session (`law_move_back`).
pub proof fn law_panes_distinct(v: StoreView, i: int)
    requires
        store_wf(v),
        0 <= i < v.sessions.len(),
    ensures
        panes_distinct(v.sessions[i]),
{
    let s = v.sessions[i];
    assert forall|k: int, j: int, l: int|
        0 <= k < s.windows.len() && 0 <= j < s.windows[k].panes.len() && 0 <= l < s.windows[k].panes.len() && j != l
        implies (#[trigger] s.windows[k].panes[j]).id != (#[trigger] s.windows[k].panes[l]).id by {
        let w = s.windows[k];
        if w.panes[j].id == w.panes[l].id {
            let x = w.panes[j].id;
            lemma_sum_at_least_two(w.panes, pane_counter(x), j, l);
            lemma_sum_at_least(s.windows, window_counter(x), k);
            lemma_sum_at_least(v.sessions, session_counter(x), i);
            assert(store_id_count(v, x) <= 1);
        }
    }
}



/// In every session of a well-formed store, moving a pane up (or down)
/// and then back restores the session.
pub proof fn law_store_move_back(v: StoreView, i: int, pane_id: PaneId, id1: WindowId, id2: WindowId)
    requires
        store_wf(v),
        0 <= i < v.sessions.len(),
    ensures
        move_session(v.sessions[i], pane_id, MoveDirection::Up, id1) matches Ok(t) ==> move_session(
            t,
            pane_id,
            MoveDirection::Down,
            id2,
        ) == Ok::<SessionView, StoreError>(v.sessions[i]),
        move_session(v.sessions[i], pane_id, MoveDirection::Down, id1) matches Ok(t) ==> move_session(
            t,
            pane_id,
            MoveDirection::Up,
            id2,
        ) == Ok::<SessionView, StoreError>(v.sessions[i]),
{
    law_panes_distinct(v, i);
    law_move_back(v.sessions[i], pane_id, id1, id2);
}


// ─── What each step does ────────────────────────────────────────────────────

/// Moving the focus up or down acts on the active window alone: its
/// active pane moves one step, within its panes, and the session's active
/// window and every other window stay as they were. Up fails exactly at
/// the top pane and down exactly at the bottom one.
pub proof fn law_navigate_within_window(s: SessionView)
    requires
        session_wf(s),
    ensures
        ({
            let a = s.active;
            let w = s.windows[a];
            &&& navigate_session(s, NavigateDirection::Up) is Ok <==> w.active > 0
            &&& navigate_session(s, NavigateDirection::Down) is Ok <==> w.active + 1 < w.panes.len()
            &&& navigate_session(s, NavigateDirection::Up) matches Ok(t) ==> focus_moved(s, t, w.active - 1)
            &&& navigate_session(s, NavigateDirection::Down) matches Ok(t) ==> focus_moved(s, t, w.active + 1)
        }),
{
}

/// `t` is `s` with the active window's active pane at index `p`, and
/// nothing else changed.
pub open spec fn focus_moved(s: SessionView, t: SessionView, p: int) -> bool {
    &&& t.name == s.name
    &&& t.active == s.active
    &&& t.windows.len() == s.windows.len()
    &&& t.windows[s.active].active == p
    &&& t.windows[s.active].id == s.windows[s.active].id
    &&& t.windows[s.active].panes == s.windows[s.active].panes
    &&& forall|j: int| 0 <= j < s.windows.len() && j != s.active ==> #[trigger] t.windows[j] == s.windows[j]
}

/// Moving the focus left or right makes the neighbouring window active,
/// on its top pane, and changes no window's id or panes; it fails exactly
/// when there is no window on that side.
pub proof fn law_navigate_between_windows(s: SessionView)
    requires
        session_wf(s),
    ensures
        navigate_session(s, NavigateDirection::Left) is Ok <==> s.active > 0,
        navigate_session(s, NavigateDirection::Right) is Ok <==> s.active + 1 < s.windows.len(),
        navigate_session(s, NavigateDirection::Left) matches Ok(t) ==> window_entered(s, t, s.active - 1),
        navigate_session(s, NavigateDirection::Right) matches Ok(t) ==> window_entered(s, t, s.active + 1),
{
}

/// `t` is `s` with the window at `d` active on its top pane; every window
/// keeps its id and panes, and all but the one at `d` are unchanged.
pub open spec fn window_entered(s: SessionView, t: SessionView, d: int) -> bool {
    &&& t.name == s.name
    &&& t.active == d
    &&& t.windows.len() == s.windows.len()
    &&& t.windows[d].active == 0
    &&& t.windows[d].id == s.windows[d].id
    &&& t.windows[d].panes == s.windows[d].panes
    &&& forall|j: int| 0 <= j < s.windows.len() && j != d ==> #[trigger] t.windows[j] == s.windows[j]
}

/// A new pane goes to the bottom of the window with the requested id, and
/// every other window keeps its panes.
pub proof fn law_new_pane_in_its_window(s: SessionView, window_id: WindowId, wi: int, pane_id: PaneId)
    requires
        session_wf(s),
        is_first(s.windows, window_is(window_id), wi),
    ensures
        ({
            let t = session_with_pane(s, wi, pane_id);
            &&& t.name == s.name
            &&& t.active == s.active
            &&& t.windows.len() == s.windows.len()
            &&& t.windows[wi].id == window_id
            &&& t.windows[wi].active == s.windows[wi].active
            &&& t.windows[wi].panes.len() == s.windows[wi].panes.len() + 1
            &&& t.windows[wi].panes.last().id == pane_id
            &&& t.windows[wi].panes.drop_last() == s.windows[wi].panes
            &&& forall|j: int| 0 <= j < s.windows.len() && j != wi ==> #[trigger] t.windows[j] == s.windows[j]
        }),
{
    let t = session_with_pane(s, wi, pane_id);
    assert(t.windows[wi].panes.drop_last() =~= s.windows[wi].panes);
}

/// Moving a pane up or down exchanges it with its neighbour in its own
/// window; no other window changes. Up fails exactly for the top pane,
/// down exactly for the bottom one.
pub proof fn law_move_within_window(s: SessionView, pane_id: PaneId, wi: int, pi: int, new_window_id: WindowId)
    requires
        session_wf(s),
        is_first(s.windows, holds_pane(pane_id), wi),
        is_first(s.windows[wi].panes, pane_is(pane_id), pi),
    ensures
        move_session(s, pane_id, MoveDirection::Up, new_window_id) is Ok <==> pi > 0,
        move_session(s, pane_id, MoveDirection::Down, new_window_id) is Ok <==> pi + 1 < s.windows[wi].panes.len(),
        move_session(s, pane_id, MoveDirection::Up, new_window_id) matches Ok(t) ==> panes_exchanged(s, t, wi, pi, pi - 1),
        move_session(s, pane_id, MoveDirection::Down, new_window_id) matches Ok(t) ==> panes_exchanged(s, t, wi, pi, pi + 1),
{
    lemma_first_index_is(s.windows, holds_pane(pane_id), wi);
    lemma_first_index_is(s.windows[wi].panes, pane_is(pane_id), pi);
}

/// `t` is `s` with the panes at `a` and `b` of window `wi` exchanged; the
/// window's active pane stays the same pane.
pub open spec fn panes_exchanged(s: SessionView, t: SessionView, wi: int, a: int, b: int) -> bool {
    &&& t.name == s.name
    &&& t.windows[wi].panes[t.windows[wi].active] == s.windows[wi].panes[s.windows[wi].active]
    &&& t.active == s.active
    &&& t.windows.len() == s.windows.len()
    &&& t.windows[wi].id == s.windows[wi].id
    &&& t.windows[wi].panes.len() == s.windows[wi].panes.len()
    &&& t.windows[wi].panes[a] == s.windows[wi].panes[b]
    &&& t.windows[wi].panes[b] == s.windows[wi].panes[a]
    &&& forall|k: int|
        0 <= k < s.windows[wi].panes.len() && k != a && k != b ==> #[trigger] t.windows[wi].panes[k]
            == s.windows[wi].panes[k]
    &&& forall|j: int| 0 <= j < s.windows.len() && j != wi ==> #[trigger] t.windows[j] == s.windows[j]
}

/// Moving a pane left or right when its window has a neighbour on that
/// side carries the pane to the bottom of that neighbour: the number of
/// windows stays, the pane leaves its own window, and every other window
/// is unchanged.
pub proof fn law_move_into_neighbour(
    s: SessionView,
    pane_id: PaneId,
    wi: int,
    pi: int,
    dir: MoveDirection,
    new_window_id: WindowId,
)
    requires
        session_wf(s),
        is_first(s.windows, holds_pane(pane_id), wi),
        is_first(s.windows[wi].panes, pane_is(pane_id), pi),
        dir == MoveDirection::Left && wi > 0 || dir == MoveDirection::Right && wi + 1 < s.windows.len(),
    ensures
        ({
            let d = if dir == MoveDirection::Left { wi - 1 } else { wi + 1 };
            move_session(s, pane_id, dir, new_window_id) matches Ok(t) && {
                &&& t.name == s.name
                &&& t.windows.len() == s.windows.len()
                &&& t.windows[d].id == s.windows[d].id
                &&& t.windows[d].panes == s.windows[d].panes.push(s.windows[wi].panes[pi])
                &&& t.windows[wi].id == s.windows[wi].id
                &&& t.windows[wi].panes == s.windows[wi].panes.remove(pi)
                &&& forall|j: int|
                    0 <= j < s.windows.len() && j != wi && j != d ==> #[trigger] t.windows[j] == s.windows[j]
            }
        }),
{
    lemma_first_index_is(s.windows, holds_pane(pane_id), wi);
    lemma_first_index_is(s.windows[wi].panes, pane_is(pane_id), pi);
}

/// Moving a pane left or right when its window has no neighbour on that
/// side puts the pane alone in a new window with the given id, on that
/// side of its window; the pane leaves its own window, and with the new
/// window taken out the windows are those before.
pub proof fn law_move_into_new_window(
    s: SessionView,
    pane_id: PaneId,
    wi: int,
    pi: int,
    dir: MoveDirection,
    new_window_id: WindowId,
)
    requires
        session_wf(s),
        is_first(s.windows, holds_pane(pane_id), wi),
        is_first(s.windows[wi].panes, pane_is(pane_id), pi),
        dir == MoveDirection::Left && wi == 0 || dir == MoveDirection::Right && wi + 1 == s.windows.len(),
    ensures
        ({
            let at = if dir == MoveDirection::Left { wi } else { wi + 1 };
            move_session(s, pane_id, dir, new_window_id) matches Ok(t) && {
                &&& t.name == s.name
                &&& t.windows.len() == s.windows.len() + 1
                &&& t.windows[at].id == new_window_id
                &&& t.windows[at].panes == seq![s.windows[wi].panes[pi]]
                &&& t.windows.remove(at)[wi].id == s.windows[wi].id
                &&& t.windows.remove(at)[wi].panes == s.windows[wi].panes.remove(pi)
                &&& forall|j: int|
                    0 <= j < s.windows.len() && j != wi ==> #[trigger] t.windows.remove(at)[j] == s.windows[j]
            }
        }),
{
    lemma_first_index_is(s.windows, holds_pane(pane_id), wi);
    lemma_first_index_is(s.windows[wi].panes, pane_is(pane_id), pi);
    if let Ok(t) = move_session(s, pane_id, dir, new_window_id) {
        let at = if dir == MoveDirection::Left { wi } else { wi + 1 };
        let source = without_pane(s.windows[wi], pi);
        assert(t.windows.remove(at) =~= s.windows.update(wi, source));
    }
}

} // verus!
