//! The windows that are there at the start, and the workspaces they go to.

use crate::eligibility;
use crate::eligibility::RuleDebug;
use crate::geometry;
use crate::geometry::Rect;
use crate::macos_api::MacosApi;
use crate::rule_book::RuleBookView;
use crate::sequences;
use crate::session;
use crate::session::SessionState;
use crate::session::SessionStateView;
use crate::settings::WindowAttributes;
use crate::settings::WindowAttributesView;
use crate::window_manager;
use crate::window_manager::Container;
use crate::window_manager::ContainerView;
use crate::window_manager::Monitor;
use crate::window_manager::MonitorView;
use crate::window_manager::Window;
use crate::window_manager::WindowManager;
use crate::window_manager::WindowManagerView;
use crate::window_manager::WorkspaceView;
use vstd::prelude::*;

verus! {

/// A window that was found on the screen.
pub struct FoundWindow {
    pub window: Window,
    /// What the window can be told by.
    pub attributes: WindowAttributes,
    /// The window can be reached.
    pub is_valid: bool,
    /// Where it is.
    pub rect: Rect,
    /// What its container is called if it gets one.
    pub container_id: String,
}

/// The value of a [`FoundWindow`].
pub struct FoundWindowView {
    pub window: Window,
    pub attributes: WindowAttributesView,
    pub is_valid: bool,
    pub rect: Rect,
    pub container_id: Seq<char>,
}

impl DeepView for FoundWindow {
    type V = FoundWindowView;

    open spec fn deep_view(&self) -> FoundWindowView {
        FoundWindowView {
            window: self.window,
            attributes: self.attributes.deep_view(),
            is_valid: self.is_valid,
            rect: self.rect,
            container_id: self.container_id@,
        }
    }
}

/// A window that was found is managed.
pub open spec fn is_managed(rules: RuleBookView, found: FoundWindowView) -> bool {
    eligibility::managed(
        rules,
        None,
        found.is_valid,
        found.attributes,
        eligibility::no_findings(),
    )
}

/// The first `n` monitors that a rectangle lies within.
pub open spec fn monitors_around(monitors: Seq<MonitorView>, rect: Rect, n: int) -> Seq<usize>
    decreases n,
{
    if n <= 0 {
        Seq::empty()
    } else {
        let earlier = monitors_around(monitors, rect, n - 1);
        if geometry::lies_within(rect, monitors[n - 1].size) {
            earlier.push((n - 1) as usize)
        } else {
            earlier
        }
    }
}

/// The windows to manage among the first `n` that were found, each with a monitor that it is
/// on: once for every such monitor.
pub open spec fn chosen_windows(wm: WindowManagerView, found: Seq<FoundWindowView>, n: int) -> Seq<
    (usize, usize),
>
    decreases n,
{
    if n <= 0 {
        Seq::empty()
    } else {
        let earlier = chosen_windows(wm, found, n - 1);
        if is_managed(wm.rules, found[n - 1]) {
            earlier + monitors_around(
                wm.monitors,
                found[n - 1].rect,
                wm.monitors.len() as int,
            ).map_values(|m: usize| (m, (n - 1) as usize))
        } else {
            earlier
        }
    }
}

/// Where a window goes: which of those that were found it is, the monitor and the workspace
/// that it goes to, and the slot that it had there.
#[derive(Clone, Copy, Debug)]
pub struct Claim {
    pub found: usize,
    pub target: (usize, usize),
    pub slot: Option<usize>,
}

/// There is such a workspace.
pub open spec fn is_there(wm: WindowManagerView, target: (usize, usize)) -> bool {
    target.0 < wm.monitors.len() && target.1 < wm.monitors[target.0 as int].workspaces.len()
}

/// Where a window goes: to the place it had in an earlier session, where that still exists,
/// or else to the workspace that is showing on the monitor it is on.
pub open spec fn claim_of(
    wm: WindowManagerView,
    session: Option<SessionStateView>,
    m: usize,
    i: usize,
    found: FoundWindowView,
) -> Claim {
    let fallback = Claim {
        found: i,
        target: (
            m,
            if m < wm.monitors.len() {
                wm.monitors[m as int].focused_workspace
            } else {
                0
            },
        ),
        slot: None,
    };
    match session {
        Some(session) => match session::claimed_place(
            session,
            found.window.id,
            session::or_empty(found.attributes.exe),
            session::or_empty(found.attributes.title),
        ) {
            Some((tm, tw, slot)) => if is_there(wm, (tm, tw)) {
                Claim { found: i, target: (tm, tw), slot: Some(slot) }
            } else {
                fallback
            },
            None => fallback,
        },
        None => fallback,
    }
}

/// What is left of a session once a window has looked for its place in it.
pub open spec fn session_after(
    session: Option<SessionStateView>,
    found: FoundWindowView,
) -> Option<SessionStateView> {
    match session {
        Some(session) => Some(
            session::after_claim(
                session,
                found.window.id,
                session::or_empty(found.attributes.exe),
                session::or_empty(found.attributes.title),
            ),
        ),
        None => None,
    }
}

/// A container that holds one window.
pub open spec fn single_container(id: Seq<char>, window: Window) -> ContainerView {
    ContainerView { id, windows: seq![window], focused_window: 0, locked: false }
}

/// A container for a window that was found.
pub open spec fn container_for(found: FoundWindowView) -> ContainerView {
    single_container(found.container_id, found.window)
}

/// The state with one more container, if the workspace it goes to exists.
pub open spec fn with_container(
    wm: WindowManagerView,
    target: (usize, usize),
    slot: Option<usize>,
    container: ContainerView,
) -> WindowManagerView {
    let (m, w) = target;
    if is_there(wm, target) {
        wm.with_workspace_at(
            m as int,
            w as int,
            wm.monitors[m as int].workspaces[w as int].with_container(slot, container),
        )
    } else {
        wm
    }
}

/// The window was found on this monitor.
pub open spec fn is_on(m: usize) -> spec_fn((usize, usize)) -> bool {
    |chosen: (usize, usize)| chosen.0 == m
}

/// Some windows in the order of the first `n` monitors, and on each of them in the order in
/// which they were found.
pub open spec fn by_monitor(chosen: Seq<(usize, usize)>, n: int) -> Seq<(usize, usize)>
    decreases n,
{
    if n <= 0 {
        Seq::empty()
    } else {
        by_monitor(chosen, n - 1) + chosen.filter(is_on((n - 1) as usize))
    }
}

/// Where the first `n` of some windows go, and what is left of the session once they have all
/// looked for their place in it.
pub open spec fn claims(
    wm: WindowManagerView,
    session: Option<SessionStateView>,
    found: Seq<FoundWindowView>,
    chosen: Seq<(usize, usize)>,
    n: int,
) -> (Seq<Claim>, Option<SessionStateView>)
    decreases n,
{
    if n <= 0 {
        (Seq::empty(), session)
    } else {
        let (earlier, left) = claims(wm, session, found, chosen, n - 1);
        let (m, i) = chosen[n - 1];
        if i < found.len() {
            (
                earlier.push(claim_of(wm, left, m, i, found[i as int])),
                session_after(left, found[i as int]),
            )
        } else {
            (earlier, left)
        }
    }
}

/// A slot comes before another. Windows without a slot come last.
pub open spec fn comes_before(slot: Option<usize>, other: Option<usize>) -> bool {
    match (slot, other) {
        (Some(slot), Some(other)) => slot < other,
        (Some(_), None) => true,
        _ => false,
    }
}

/// Where a window that goes to a slot stands among others: before the first, counting from
/// `from`, that goes to a later slot.
pub open spec fn turn(order: Seq<Claim>, slot: Option<usize>, from: int) -> int
    decreases order.len() - from,
{
    if from < 0 || from >= order.len() {
        order.len() as int
    } else if comes_before(slot, order[from].slot) {
        from
    } else {
        turn(order, slot, from + 1)
    }
}

/// The first `n` of some windows in the order of their slots, and of their own where slots
/// are the same.
pub open spec fn by_slot(claims: Seq<Claim>, n: int) -> Seq<Claim>
    decreases n,
{
    if n <= 0 {
        Seq::empty()
    } else {
        let earlier = by_slot(claims, n - 1);
        earlier.insert(turn(earlier, claims[n - 1].slot, 0), claims[n - 1])
    }
}

/// The state once the first `n` of some windows have gone where they go.
pub open spec fn placed(
    wm: WindowManagerView,
    found: Seq<FoundWindowView>,
    order: Seq<Claim>,
    n: int,
) -> WindowManagerView
    decreases n,
{
    if n <= 0 {
        wm
    } else {
        let claim = order[n - 1];
        with_container(
            placed(wm, found, order, n - 1),
            claim.target,
            claim.slot,
            container_for(found[claim.found as int]),
        )
    }
}

/// The state and what is left of the session once the first `n` of some windows have gone to
/// their workspaces. All of them look for their place first, in their order; they are put
/// there in the order of their slots, so that each slot is filled after those before it.
pub open spec fn settled_windows(
    wm: WindowManagerView,
    session: Option<SessionStateView>,
    found: Seq<FoundWindowView>,
    chosen: Seq<(usize, usize)>,
    n: int,
) -> (WindowManagerView, Option<SessionStateView>) {
    let (claims, left) = claims(wm, session, found, chosen, n);
    let order = by_slot(claims, claims.len() as int);
    (placed(wm, found, order, order.len() as int), left)
}

fn text_of(text: &Option<String>) -> (t: &str)
    ensures
        t@ == session::or_empty(text.deep_view()),
{
    proof {
        reveal_strlit("");
        assert(""@ =~= Seq::<char>::empty());
    }
    match text {
        Some(text) => text.as_str(),
        None => "",
    }
}

fn find_claim(
    wm: &WindowManager,
    session: &mut Option<SessionState>,
    m: usize,
    i: usize,
    found: &FoundWindow,
) -> (claim: Claim)
    ensures
        claim == claim_of(
            wm.deep_view(),
            old(session).deep_view(),
            m,
            i,
            found.deep_view(),
        ),
        final(session).deep_view() == session_after(old(session).deep_view(), found.deep_view()),
{
    let place: Option<(usize, usize, usize)> = match session {
        Some(session) => session.take_match(
            found.window.id,
            text_of(&found.attributes.exe),
            text_of(&found.attributes.title),
        ),
        None => None,
    };
    if let Some((tm, tw, slot)) = place {
        if tm < wm.monitors.len() {
            assert(wm.deep_view().monitors[tm as int] == wm.monitors[tm as int].deep_view());
            if tw < wm.monitors[tm].workspaces.len() {
                return Claim { found: i, target: (tm, tw), slot: Some(slot) };
            }
        }
    }
    if m < wm.monitors.len() {
        assert(wm.deep_view().monitors[m as int] == wm.monitors[m as int].deep_view());
        Claim { found: i, target: (m, wm.monitors[m].focused_workspace), slot: None }
    } else {
        Claim { found: i, target: (m, 0), slot: None }
    }
}

fn stand_in_line(order: &mut Vec<Claim>, claim: Claim)
    ensures
        final(order)@ == old(order)@.insert(turn(old(order)@, claim.slot, 0), claim),
{
    let mut at: usize = 0;
    while at < order.len()
        invariant_except_break
            turn(order@, claim.slot, 0) == turn(order@, claim.slot, at as int),
        invariant
            at <= order.len(),
            order@ == old(order)@,
        ensures
            turn(order@, claim.slot, 0) == at,
        decreases order.len() - at,
    {
        let before: bool = match (claim.slot, order[at].slot) {
            (Some(slot), Some(other)) => slot < other,
            (Some(_), None) => true,
            _ => false,
        };
        if before {
            break;
        }
        at += 1;
    }
    order.insert(at, claim);
}

impl WindowManager {
    /// Gives a workspace a container for one window, in a slot if one is asked for. Where there
    /// is no such workspace nothing happens.
    pub fn place_restored(
        &mut self,
        m: usize,
        w: usize,
        slot: Option<usize>,
        window: Window,
        container_id: String,
    )
        ensures
            final(self).deep_view() == with_container(
                old(self).deep_view(),
                (m, w),
                slot,
                single_container(container_id@, window),
            ),
    {
        if m < self.monitors.len() {
            assert(self.deep_view().monitors[m as int] == self.monitors[m as int].deep_view());
            if w < self.monitors[m].workspaces.len() {
                let container = Container {
                    id: container_id,
                    windows: vec![window],
                    focused_window: 0,
                    locked: false,
                };
                assert(container.windows@ =~= seq![window]);
                assert(self.deep_view().monitors[m as int].workspaces[w as int]
                    == self.monitors[m as int].workspaces[w as int].deep_view());
                self.workspace_at_mut(m, w).insert_container(slot, container);
            }
        }
    }
}

fn group_by_monitor(chosen: &Vec<(usize, usize)>, n: usize) -> (grouped: Vec<(usize, usize)>)
    ensures
        grouped@ == by_monitor(chosen@, n as int),
{
    let mut grouped: Vec<(usize, usize)> = Vec::new();
    let mut m: usize = 0;
    while m < n
        invariant
            m <= n,
            grouped@ == by_monitor(chosen@, m as int),
        decreases n - m,
    {
        let ghost before = grouped@;
        let ghost keep = is_on(m);
        let mut k: usize = 0;
        proof {
            reveal(Seq::filter);
            assert(chosen@.take(0).filter(keep) =~= Seq::<(usize, usize)>::empty());
        }
        while k < chosen.len()
            invariant
                k <= chosen.len(),
                keep == is_on(m),
                grouped@ =~= before + chosen@.take(k as int).filter(keep),
            decreases chosen.len() - k,
        {
            proof {
                sequences::lemma_filter_step(chosen@, keep, k as int);
            }
            if chosen[k].0 == m {
                grouped.push(chosen[k]);
            }
            k += 1;
        }
        assert(chosen@.take(k as int) =~= chosen@);
        m += 1;
    }
    grouped
}

fn find_monitors(monitors: &Vec<Monitor>, rect: Rect) -> (around: Vec<usize>)
    ensures
        around@ == monitors_around(monitors.deep_view(), rect, monitors.len() as int),
{
    let mut around: Vec<usize> = Vec::new();
    let mut m: usize = 0;
    while m < monitors.len()
        invariant
            m <= monitors.len(),
            around@ == monitors_around(monitors.deep_view(), rect, m as int),
        decreases monitors.len() - m,
    {
        assert(monitors.deep_view()[m as int] == monitors[m as int].deep_view());
        if monitors[m].size.contains(&rect) {
            around.push(m);
        }
        m += 1;
    }
    around
}

impl MacosApi {
    /// Which of the windows that were found are to be managed, each with a monitor that it is
    /// on. They have to be observed before they go to their workspaces.
    pub fn windows_to_manage(wm: &WindowManager, found: &Vec<FoundWindow>) -> (chosen: Vec<
        (usize, usize),
    >)
        ensures
            chosen@ == chosen_windows(wm.deep_view(), found.deep_view(), found.len() as int),
    {
        let mut chosen: Vec<(usize, usize)> = Vec::new();
        let mut i: usize = 0;
        while i < found.len()
            invariant
                i <= found.len(),
                chosen@ == chosen_windows(wm.deep_view(), found.deep_view(), i as int),
            decreases found.len() - i,
        {
            assert(found.deep_view()[i as int] == found[i as int].deep_view());
            let mut debug = RuleDebug::default();
            let managed: bool = eligibility::should_manage(
                &wm.rules,
                None,
                found[i].is_valid,
                &found[i].attributes,
                &mut debug,
            );
            if managed {
                let around = find_monitors(&wm.monitors, found[i].rect);
                let ghost before = chosen@;
                let ghost all = around@.map_values(|m: usize| (m, i));
                let mut k: usize = 0;
                while k < around.len()
                    invariant
                        k <= around.len(),
                        all == around@.map_values(|m: usize| (m, i)),
                        chosen@ =~= before + all.take(k as int),
                    decreases around.len() - k,
                {
                    chosen.push((around[k], i));
                    k += 1;
                    assert(all.take(k as int) =~= all.take(k - 1).push(all[k - 1]));
                }
                assert(all.take(k as int) =~= all);
            }
            i += 1;
        }
        chosen
    }

    /// Sends windows that were found to their workspaces: to where they were in an earlier
    /// session, or to what is showing on their monitor. They look for their place one monitor
    /// after another, and are put there in the order of their slots. A number that no monitor
    /// or no window goes by is passed over.
    pub fn load_workspace_information(
        wm: &mut WindowManager,
        session: &mut Option<SessionState>,
        found: &Vec<FoundWindow>,
        chosen: &Vec<(usize, usize)>,
    )
        ensures
            ({
                let order = by_monitor(chosen@, old(wm).deep_view().monitors.len() as int);
                (final(wm).deep_view(), final(session).deep_view()) == settled_windows(
                    old(wm).deep_view(),
                    old(session).deep_view(),
                    found.deep_view(),
                    order,
                    order.len() as int,
                )
            }),
    {
        let ghost fresh = wm.deep_view();
        let grouped = group_by_monitor(chosen, wm.monitors.len());
        let mut order: Vec<Claim> = Vec::new();
        let ghost mut all: Seq<Claim> = Seq::empty();
        let mut k: usize = 0;
        while k < grouped.len()
            invariant
                k <= grouped.len(),
                wm.deep_view() == fresh,
                (all, session.deep_view()) == claims(
                    fresh,
                    old(session).deep_view(),
                    found.deep_view(),
                    grouped@,
                    k as int,
                ),
                order@ == by_slot(all, all.len() as int),
                forall|a: int| 0 <= a < order.len() ==> (#[trigger] order[a]).found < found.len(),
            decreases grouped.len() - k,
        {
            let (m, i) = grouped[k];
            if i < found.len() {
                assert(found.deep_view()[i as int] == found[i as int].deep_view());
                let claim = find_claim(&*wm, session, m, i, &found[i]);
                proof {
                    lemma_turn_in_range(order@, claim.slot, 0);
                    lemma_by_slot_of_prefix(all, claim, all.len() as int);
                    all = all.push(claim);
                }
                let ghost earlier = order@;
                stand_in_line(&mut order, claim);
                assert forall|a: int| 0 <= a < order.len() implies (#[trigger] order[a]).found
                    < found.len() by {
                    let at = turn(earlier, claim.slot, 0);
                    assert(order@[a] == if a < at {
                        earlier[a]
                    } else if a == at {
                        claim
                    } else {
                        earlier[a - 1]
                    });
                }
            }
            k += 1;
        }
        let mut n: usize = 0;
        while n < order.len()
            invariant
                n <= order.len(),
                wm.deep_view() == placed(fresh, found.deep_view(), order@, n as int),
                forall|a: int| 0 <= a < order.len() ==> (#[trigger] order[a]).found < found.len(),
            decreases order.len() - n,
        {
            let claim = order[n];
            let window = &found[claim.found];
            assert(found.deep_view()[claim.found as int] == window.deep_view());
            let (m, w) = claim.target;
            wm.place_restored(m, w, claim.slot, window.window.clone(), window.container_id.clone());
            n += 1;
        }
    }
}

/// Everything before the place that a slot has in an order comes no later than it.
pub proof fn lemma_turn_in_range(order: Seq<Claim>, slot: Option<usize>, from: int)
    requires
        0 <= from <= order.len(),
    ensures
        from <= turn(order, slot, from) <= order.len(),
        forall|a: int|
            from <= a < turn(order, slot, from) ==> !comes_before(slot, (#[trigger] order[a]).slot),
        turn(order, slot, from) < order.len() ==> comes_before(
            slot,
            order[turn(order, slot, from)].slot,
        ),
    decreases order.len() - from,
{
    if from < order.len() && !comes_before(slot, order[from].slot) {
        lemma_turn_in_range(order, slot, from + 1);
    }
}

proof fn lemma_by_slot_of_prefix(claims: Seq<Claim>, claim: Claim, n: int)
    requires
        n <= claims.len(),
    ensures
        by_slot(claims.push(claim), n) == by_slot(claims, n),
    decreases n,
{
    if n > 0 {
        lemma_by_slot_of_prefix(claims, claim, n - 1);
    }
}

} // verus!
