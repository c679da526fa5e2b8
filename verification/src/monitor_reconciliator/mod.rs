//! Monitors that are unplugged and plugged in again.
//!
//! What was on a monitor that goes is kept for the rest of the session, and put back when a
//! monitor with the same serial number comes. A change is handled in two stages:
//! [`WindowManager::detach_monitors`] lets go of the monitors that are no longer there, and
//! once the displays that are there have been taken in, [`WindowManager::attach_monitors`]
//! puts back what was on those that have come back, one after the other.

pub mod leaving;
pub mod reattach;
pub mod returning;

use crate::macos_api::Attached;
use crate::macos_api::AttachedView;
use crate::names::NameMap;
use crate::operation::Operation;
use crate::process_command::plan;
use crate::process_command::plan::CommandPlan;
use crate::process_command::plan::CommandPlanView;
use crate::rule_book;
use crate::rule_book::RuleBookView;
use crate::sequences;
use crate::text;
use crate::window_manager::CommandError;
use crate::window_manager::ContainerView;
use crate::window_manager::Monitor;
use crate::window_manager::MonitorView;
use crate::window_manager::Window;
use crate::window_manager::WindowManager;
use crate::window_manager::WindowManagerView;
use crate::window_manager::Workspace;
use crate::window_manager::WorkspaceView;
use std::collections::HashMap;
use vstd::prelude::*;

verus! {

/// Something happened to a display, which is given by its id.
#[derive(Clone, Copy, Debug, PartialEq, Eq, Structural)]
pub enum MonitorNotification {
    Resize(u32),
    DisplayConnectionChange(u32),
}

/// The monitors that were unplugged in this session, by serial number.
pub struct MonitorCache {
    pub monitors: NameMap<Monitor>,
}

impl View for MonitorCache {
    type V = Map<Seq<char>, MonitorView>;

    open spec fn view(&self) -> Map<Seq<char>, MonitorView> {
        self.monitors@.map_values(|monitor: Monitor| monitor.deep_view())
    }
}

impl MonitorCache {
    /// No monitors.
    pub fn new() -> (none: Self)
        ensures
            none@ == Map::<Seq<char>, MonitorView>::empty(),
    {
        let none = MonitorCache { monitors: NameMap::new() };
        assert(none@ =~= Map::<Seq<char>, MonitorView>::empty());
        none
    }

    fn put(&mut self, id: String, monitor: Monitor)
        ensures
            final(self)@ == old(self)@.insert(id@, monitor.deep_view()),
    {
        let ghost before = self@;
        self.monitors.insert(id, monitor);
        assert(self@ =~= before.insert(id@, monitor.deep_view()));
    }

    /// Drops what is kept under an id.
    pub fn drop_entry(&mut self, id: &str)
        ensures
            final(self)@ == old(self)@.remove(id@),
    {
        let ghost before = self@;
        self.monitors.remove(id);
        assert(self@ =~= before.remove(id@));
    }
}

/// An index is preferred for this display.
pub open spec fn is_preferred(preferences: Seq<(usize, Seq<char>)>, serial: Seq<char>) -> bool {
    exists|i: int| 0 <= i < preferences.len() && (#[trigger] preferences[i]).1 == serial
}

/// What a monitor is kept under: its own serial number where an index is preferred for the
/// one that was given, and the one that was given otherwise.
pub open spec fn cache_id(
    preferences: Seq<(usize, Seq<char>)>,
    serial: Seq<char>,
    monitor: MonitorView,
) -> Seq<char> {
    if is_preferred(preferences, serial) {
        monitor.serial_number_id
    } else {
        serial
    }
}

fn prefers(preferences: &Vec<(usize, String)>, serial: &str) -> (found: bool)
    ensures
        found == is_preferred(preferences.deep_view(), serial@),
{
    let mut i: usize = 0;
    while i < preferences.len()
        invariant
            i <= preferences.len(),
            forall|k: int| 0 <= k < i ==> (#[trigger] preferences.deep_view()[k]).1 != serial@,
        decreases preferences.len() - i,
    {
        assert(preferences.deep_view()[i as int] == preferences[i as int].deep_view());
        if text::same_text(preferences[i].1.as_str(), serial) {
            assert(preferences.deep_view()[i as int].1 == serial@);
            return true;
        }
        i += 1;
    }
    false
}

/// Keeps what is on a monitor for when it comes back.
pub fn insert_in_monitor_cache(
    cache: &mut MonitorCache,
    preferences: &Vec<(usize, String)>,
    serial_number_id: &str,
    monitor: Monitor,
)
    ensures
        final(cache)@ == old(cache)@.insert(
            cache_id(preferences.deep_view(), serial_number_id@, monitor.deep_view()),
            monitor.deep_view(),
        ),
{
    let id = if prefers(preferences, serial_number_id) {
        monitor.serial_number_id.clone()
    } else {
        serial_number_id.to_owned()
    };
    cache.put(id, monitor);
}

/// A monitor with what the first `n` displays that are attached say of it.
pub open spec fn refreshed(monitor: MonitorView, attached: Seq<AttachedView>, n: int) -> MonitorView
    decreases n,
{
    if n <= 0 {
        monitor
    } else {
        let earlier = refreshed(monitor, attached, n - 1);
        let display = attached[n - 1];
        if display.serial_number_id == earlier.serial_number_id {
            MonitorView {
                id: display.id,
                device: display.device,
                size: display.size,
                work_area_size: display.work_area_size,
                ..earlier
            }
        } else {
            earlier
        }
    }
}

/// The monitors with what the displays that are attached say of them.
pub open spec fn all_refreshed(monitors: Seq<MonitorView>, attached: Seq<AttachedView>) -> Seq<
    MonitorView,
> {
    monitors.map_values(
        |monitor: MonitorView| refreshed(monitor, attached, attached.len() as int),
    )
}

/// A display with this serial number is attached.
pub open spec fn is_attached(attached: Seq<AttachedView>, serial: Seq<char>) -> bool {
    exists|i: int| 0 <= i < attached.len() && (#[trigger] attached[i]).serial_number_id == serial
}

/// The monitor is still there.
pub open spec fn still_there(attached: Seq<AttachedView>) -> spec_fn(MonitorView) -> bool {
    |monitor: MonitorView| is_attached(attached, monitor.serial_number_id)
}

/// The ids of some windows.
pub open spec fn ids_of(windows: Seq<Window>) -> Seq<u32> {
    windows.map_values(|window: Window| window.id)
}

/// The ids of the windows in the first `n` containers.
pub open spec fn container_ids(containers: Seq<ContainerView>, n: int) -> Seq<u32>
    decreases n,
{
    if n <= 0 {
        Seq::empty()
    } else {
        container_ids(containers, n - 1) + ids_of(containers[n - 1].windows)
    }
}

/// The ids of the windows on a workspace.
pub open spec fn workspace_ids(workspace: WorkspaceView) -> Seq<u32> {
    container_ids(workspace.containers, workspace.containers.len() as int) + (
    match workspace.monocle_container {
        Some(monocle) => ids_of(monocle.windows),
        None => Seq::empty(),
    }) + ids_of(workspace.floating_windows)
}

/// The ids of the windows on the first `n` workspaces of a monitor.
pub open spec fn monitor_ids(monitor: MonitorView, n: int) -> Seq<u32>
    decreases n,
{
    if n <= 0 {
        Seq::empty()
    } else {
        monitor_ids(monitor, n - 1) + workspace_ids(monitor.workspaces[n - 1])
    }
}

/// A map without some keys.
pub open spec fn without_ids(known: Map<u32, (usize, usize)>, ids: Seq<u32>) -> Map<
    u32,
    (usize, usize),
> {
    known.remove_keys(ids.to_set())
}

/// The state after the first `n` monitors have been looked through for those that have gone:
/// their windows are no longer known, no rule sends a window to them any more, and what was on
/// them is kept.
pub open spec fn let_go(
    wm: WindowManagerView,
    cache: Map<Seq<char>, MonitorView>,
    attached: Seq<AttachedView>,
    n: int,
) -> (WindowManagerView, Map<Seq<char>, MonitorView>)
    decreases n,
{
    if n <= 0 {
        (wm, cache)
    } else {
        let (earlier, kept) = let_go(wm, cache, attached, n - 1);
        let monitor = wm.monitors[n - 1];
        if is_attached(attached, monitor.serial_number_id) {
            (earlier, kept)
        } else {
            (
                WindowManagerView {
                    known_window_ids: without_ids(
                        earlier.known_window_ids,
                        monitor_ids(monitor, monitor.workspaces.len() as int),
                    ),
                    rules: RuleBookView {
                        workspace_matching_rules: earlier.rules.workspace_matching_rules.filter(
                            rule_book::names_another_monitor((n - 1) as usize),
                        ),
                        ..earlier.rules
                    },
                    ..earlier
                },
                kept.insert(monitor.serial_number_id, monitor),
            )
        }
    }
}

/// Every one of `n` monitors is laid out again.
pub open spec fn update_all(n: nat) -> Seq<Operation> {
    Seq::new(n, |i: int| Operation::UpdateMonitorFocusedWorkspace(i as usize))
}

/// What letting go of the monitors that have gone comes to, once their own data is up to date.
pub open spec fn removal_effect(
    wm: WindowManagerView,
    cache: Map<Seq<char>, MonitorView>,
    attached: Seq<AttachedView>,
) -> (WindowManagerView, Map<Seq<char>, MonitorView>, CommandPlanView) {
    let (released, kept) = let_go(wm, cache, attached, wm.monitors.len() as int);
    let left = WindowManagerView {
        monitors: wm.monitors.filter(still_there(attached)),
        ..released
    };
    let count = left.monitors.len();
    if left.focused_monitor >= count && count == 0 {
        (left, kept, plan::plan_failure(CommandError::NotAMonitorIndex))
    } else {
        (
            WindowManagerView {
                focused_monitor: if left.focused_monitor >= count {
                    0
                } else {
                    left.focused_monitor
                },
                ..left
            },
            kept,
            if count != wm.monitors.len() {
                plan::plan_of(update_all(count))
            } else {
                plan::plan_nothing()
            },
        )
    }
}

/// What is left to do once the monitors that have gone were let go of.
pub struct Detached {
    pub plan: CommandPlan,
    /// How many monitors there were before.
    pub initial_count: usize,
    /// The serial numbers of the monitors that are left.
    pub serial_ids: Vec<String>,
}

/// The value of a [`Detached`].
pub struct DetachedView {
    pub plan: CommandPlanView,
    pub initial_count: usize,
    pub serial_ids: Seq<Seq<char>>,
}

impl DeepView for Detached {
    type V = DetachedView;

    open spec fn deep_view(&self) -> DetachedView {
        DetachedView {
            plan: self.plan.deep_view(),
            initial_count: self.initial_count,
            serial_ids: self.serial_ids.deep_view(),
        }
    }
}

/// The serial numbers of some monitors.
pub open spec fn serials_of(monitors: Seq<MonitorView>) -> Seq<Seq<char>> {
    monitors.map_values(|monitor: MonitorView| monitor.serial_number_id)
}

/// What a change of the displays that are connected comes to, as far as the monitors that have
/// gone. Where as many displays are attached as there are monitors, or none at all, which can
/// not be right, nothing is left to do.
pub open spec fn detach_effect(
    wm: WindowManagerView,
    cache: Map<Seq<char>, MonitorView>,
    attached: Seq<AttachedView>,
) -> (WindowManagerView, Map<Seq<char>, MonitorView>, Option<DetachedView>) {
    let fresh = WindowManagerView { monitors: all_refreshed(wm.monitors, attached), ..wm };
    let count = wm.monitors.len();
    if count == attached.len() || attached.len() == 0 {
        (fresh, cache, None)
    } else if count > attached.len() {
        let (left, kept, plan) = removal_effect(fresh, cache, attached);
        (
            left,
            kept,
            Some(
                DetachedView {
                    plan,
                    initial_count: count as usize,
                    serial_ids: serials_of(left.monitors),
                },
            ),
        )
    } else {
        (
            fresh,
            cache,
            Some(
                DetachedView {
                    plan: plan::plan_nothing(),
                    initial_count: count as usize,
                    serial_ids: serials_of(fresh.monitors),
                },
            ),
        )
    }
}

fn refresh(monitor: &mut Monitor, attached: &Vec<Attached>)
    ensures
        final(monitor).deep_view() == refreshed(
            old(monitor).deep_view(),
            attached.deep_view(),
            attached.len() as int,
        ),
{
    let mut i: usize = 0;
    while i < attached.len()
        invariant
            i <= attached.len(),
            monitor.deep_view() == refreshed(
                old(monitor).deep_view(),
                attached.deep_view(),
                i as int,
            ),
        decreases attached.len() - i,
    {
        assert(attached.deep_view()[i as int] == attached[i as int].deep_view());
        let display = &attached[i];
        if text::same_text(display.serial_number_id.as_str(), monitor.serial_number_id.as_str()) {
            monitor.id = display.id;
            monitor.device = display.device.clone();
            monitor.size = display.size;
            monitor.work_area_size = display.work_area_size;
        }
        i += 1;
    }
}

fn attaches(attached: &Vec<Attached>, serial: &str) -> (found: bool)
    ensures
        found == is_attached(attached.deep_view(), serial@),
{
    let mut i: usize = 0;
    while i < attached.len()
        invariant
            i <= attached.len(),
            forall|k: int|
                0 <= k < i ==> (#[trigger] attached.deep_view()[k]).serial_number_id != serial@,
        decreases attached.len() - i,
    {
        assert(attached.deep_view()[i as int] == attached[i as int].deep_view());
        if text::same_text(attached[i].serial_number_id.as_str(), serial) {
            assert(attached.deep_view()[i as int].serial_number_id == serial@);
            return true;
        }
        i += 1;
    }
    false
}

fn push_ids(ids: &mut Vec<u32>, windows: &Vec<Window>)
    ensures
        final(ids)@ == old(ids)@ + ids_of(windows@),
{
    let ghost before = ids@;
    let ghost all = ids_of(windows@);
    let mut i: usize = 0;
    while i < windows.len()
        invariant
            i <= windows.len(),
            all == ids_of(windows@),
            ids@ =~= before + all.take(i as int),
        decreases windows.len() - i,
    {
        ids.push(windows[i].id);
        i += 1;
        assert(all.take(i as int) =~= all.take(i - 1).push(all[i - 1]));
    }
    assert(all.take(i as int) =~= all);
}

fn push_workspace_ids(ids: &mut Vec<u32>, workspace: &Workspace)
    ensures
        final(ids)@ == old(ids)@ + workspace_ids(workspace.deep_view()),
{
    let ghost before = ids@;
    let ghost containers = workspace.deep_view().containers;
    let mut c: usize = 0;
    while c < workspace.containers.len()
        invariant
            c <= workspace.containers.len(),
            containers == workspace.deep_view().containers,
            ids@ =~= before + container_ids(containers, c as int),
        decreases workspace.containers.len() - c,
    {
        assert(containers[c as int] == workspace.containers[c as int].deep_view());
        push_ids(ids, &workspace.containers[c].windows);
        c += 1;
    }
    if let Some(monocle) = &workspace.monocle_container {
        push_ids(ids, &monocle.windows);
    }
    push_ids(ids, &workspace.floating_windows);
    assert(ids@ =~= before + workspace_ids(workspace.deep_view()));
}

fn list_monitor_ids(monitor: &Monitor) -> (ids: Vec<u32>)
    ensures
        ids@ == monitor_ids(monitor.deep_view(), monitor.workspaces.len() as int),
{
    let mut ids: Vec<u32> = Vec::new();
    let mut w: usize = 0;
    while w < monitor.workspaces.len()
        invariant
            w <= monitor.workspaces.len(),
            ids@ == monitor_ids(monitor.deep_view(), w as int),
        decreases monitor.workspaces.len() - w,
    {
        assert(monitor.deep_view().workspaces[w as int] == monitor.workspaces[w as int].deep_view());
        push_workspace_ids(&mut ids, &monitor.workspaces[w]);
        w += 1;
    }
    ids
}

fn forget_ids(known: &mut HashMap<u32, (usize, usize)>, ids: &Vec<u32>)
    ensures
        final(known)@ == without_ids(old(known)@, ids@),
{
    broadcast use vstd::std_specs::hash::group_hash_axioms;

    let ghost before = known@;
    let mut i: usize = 0;
    assert(known@ =~= without_ids(before, ids@.take(0)));
    while i < ids.len()
        invariant
            i <= ids.len(),
            known@ == without_ids(before, ids@.take(i as int)),
        decreases ids.len() - i,
    {
        let ghost now = known@;
        known.remove(&ids[i]);
        proof {
            let shorter = ids@.take(i as int);
            let longer = ids@.take(i + 1);
            assert(longer =~= shorter.push(ids@[i as int]));
            assert forall|id: u32| longer.contains(id) == (shorter.contains(id) || id
                == ids@[i as int]) by {
                if shorter.contains(id) {
                    let k = choose|k: int| 0 <= k < shorter.len() && shorter[k] == id;
                    assert(longer[k] == id);
                }
                assert(longer[i as int] == ids@[i as int]);
            }
            assert(known@ =~= without_ids(before, longer));
        }
        i += 1;
    }
    assert(ids@.take(i as int) =~= ids@);
}

fn drop_detached(monitors: &mut Vec<Monitor>, attached: &Vec<Attached>)
    ensures
        final(monitors).deep_view() == old(monitors).deep_view().filter(
            still_there(attached.deep_view()),
        ),
{
    let ghost all = monitors.deep_view();
    let ghost keep = still_there(attached.deep_view());
    let ghost mut seen: int = 0;
    let mut i: usize = 0;
    proof {
        reveal(Seq::filter);
        assert(all.take(0).filter(keep) + all.skip(0) =~= all);
    }
    while i < monitors.len()
        invariant
            0 <= seen <= all.len(),
            i == all.take(seen).filter(keep).len(),
            keep == still_there(attached.deep_view()),
            monitors.deep_view() == all.take(seen).filter(keep) + all.skip(seen),
        decreases all.len() - seen,
    {
        let ghost kept = all.take(seen).filter(keep);
        let ghost current = monitors.deep_view();
        assert(current[i as int] == all[seen]);
        assert(monitors[i as int].deep_view() == all[seen]);
        proof {
            sequences::lemma_filter_step(all, keep, seen);
        }
        if attaches(attached, monitors[i].serial_number_id.as_str()) {
            i += 1;
            assert(kept.push(all[seen]) + all.skip(seen + 1) =~= kept + all.skip(seen));
        } else {
            let _ = monitors.remove(i);
            assert(monitors.deep_view() =~= current.remove(i as int));
            assert(current.remove(i as int) =~= kept + all.skip(seen + 1));
        }
        proof {
            seen = seen + 1;
        }
    }
    proof {
        assert(seen == all.len());
        assert(all.take(seen) =~= all);
        assert(monitors.deep_view() =~= all.filter(keep));
    }
}

fn list_serials(monitors: &Vec<Monitor>) -> (serials: Vec<String>)
    ensures
        serials.deep_view() == serials_of(monitors.deep_view()),
{
    let mut serials: Vec<String> = Vec::new();
    let ghost all = serials_of(monitors.deep_view());
    let mut i: usize = 0;
    while i < monitors.len()
        invariant
            i <= monitors.len(),
            all == serials_of(monitors.deep_view()),
            serials.deep_view() =~= all.take(i as int),
        decreases monitors.len() - i,
    {
        let ghost before = serials.deep_view();
        assert(all[i as int] == monitors[i as int].serial_number_id@);
        serials.push(monitors[i].serial_number_id.clone());
        assert(serials.deep_view() =~= before.push(all[i as int]));
        i += 1;
    }
    assert(all.take(i as int) =~= all);
    serials
}

fn plan_update_all(n: usize) -> (operations: Vec<Operation>)
    ensures
        operations@ == update_all(n as nat),
{
    let mut operations: Vec<Operation> = Vec::new();
    let mut i: usize = 0;
    while i < n
        invariant
            i <= n,
            operations@ =~= update_all(i as nat),
        decreases n - i,
    {
        operations.push(Operation::UpdateMonitorFocusedWorkspace(i));
        i += 1;
    }
    operations
}

impl WindowManager {
    fn refresh_monitors(&mut self, attached: &Vec<Attached>)
        ensures
            final(self).deep_view() == (WindowManagerView {
                monitors: all_refreshed(old(self).deep_view().monitors, attached.deep_view()),
                ..old(self).deep_view()
            }),
    {
        let ghost before = self.deep_view();
        let ghost all = all_refreshed(before.monitors, attached.deep_view());
        let mut i: usize = 0;
        while i < self.monitors.len()
            invariant
                i <= self.monitors.len(),
                self.monitors.len() == before.monitors.len(),
                all == all_refreshed(before.monitors, attached.deep_view()),
                self.deep_view() == (WindowManagerView {
                    monitors: self.deep_view().monitors,
                    ..before
                }),
                self.deep_view().monitors =~= all.take(i as int) + before.monitors.skip(i as int),
            decreases self.monitors.len() - i,
        {
            let ghost now = self.deep_view();
            assert(now.monitors[i as int] == before.monitors[i as int]);
            assert(self.monitors[i as int].deep_view() == before.monitors[i as int]);
            refresh(self.monitor_mut(i), attached);
            assert(self.deep_view().monitors =~= now.monitors.update(i as int, all[i as int]));
            i += 1;
        }
        assert(self.deep_view().monitors =~= all);
    }

    fn release_monitor(&mut self, cache: &mut MonitorCache, m: usize)
        requires
            m < old(self).monitors.len(),
        ensures
            ({
                let before = old(self).deep_view();
                let monitor = before.monitors[m as int];
                &&& final(self).deep_view() == (WindowManagerView {
                    known_window_ids: without_ids(
                        before.known_window_ids,
                        monitor_ids(monitor, monitor.workspaces.len() as int),
                    ),
                    rules: RuleBookView {
                        workspace_matching_rules: before.rules.workspace_matching_rules.filter(
                            rule_book::names_another_monitor(m),
                        ),
                        ..before.rules
                    },
                    ..before
                })
                &&& final(cache)@ == old(cache)@.insert(monitor.serial_number_id, monitor)
            }),
    {
        assert(self.deep_view().monitors[m as int] == self.monitors[m as int].deep_view());
        let ids = list_monitor_ids(&self.monitors[m]);
        self.rules.clear_monitor_rules(m);
        insert_in_monitor_cache(
            cache,
            &self.display_index_preferences,
            self.monitors[m].serial_number_id.as_str(),
            self.monitors[m].clone(),
        );
        forget_ids(&mut self.known_window_ids, &ids);
    }

    fn remove_detached(&mut self, cache: &mut MonitorCache, attached: &Vec<Attached>) -> (plan:
        CommandPlan)
        ensures
            (final(self).deep_view(), final(cache)@, plan.deep_view()) == removal_effect(
                old(self).deep_view(),
                old(cache)@,
                attached.deep_view(),
            ),
    {
        let ghost before = self.deep_view();
        let initial_count: usize = self.monitors.len();
        let mut m: usize = 0;
        while m < self.monitors.len()
            invariant
                m <= self.monitors.len(),
                self.deep_view().monitors == before.monitors,
                initial_count == before.monitors.len(),
                (self.deep_view(), cache@) == let_go(
                    before,
                    old(cache)@,
                    attached.deep_view(),
                    m as int,
                ),
            decreases self.monitors.len() - m,
        {
            assert(before.monitors[m as int] == self.monitors[m as int].deep_view());
            if !attaches(attached, self.monitors[m].serial_number_id.as_str()) {
                self.release_monitor(cache, m);
            }
            m += 1;
        }
        drop_detached(&mut self.monitors, attached);
        let count: usize = self.monitors.len();
        if self.focused_monitor >= count {
            if let Err(error) = self.focus_monitor(0) {
                return CommandPlan::failed(error);
            }
        }
        if count != initial_count {
            CommandPlan::of(plan_update_all(count))
        } else {
            CommandPlan::nothing()
        }
    }

    /// Brings the data of the monitors up to date and lets go of those that are no longer
    /// attached. What they held is put in the cache. Where nothing is returned the change has
    /// been handled.
    pub fn detach_monitors(&mut self, cache: &mut MonitorCache, attached: &Vec<Attached>) -> (
    detached: Option<Detached>)
        ensures
            (final(self).deep_view(), final(cache)@, detached.deep_view()) == detach_effect(
                old(self).deep_view(),
                old(cache)@,
                attached.deep_view(),
            ),
    {
        let initial_count: usize = self.monitors.len();
        self.refresh_monitors(attached);
        if initial_count == attached.len() || attached.len() == 0 {
            return None;
        }
        let plan = if initial_count > attached.len() {
            self.remove_detached(cache, attached)
        } else {
            CommandPlan::nothing()
        };
        Some(Detached { plan, initial_count, serial_ids: list_serials(&self.monitors) })
    }
}

proof fn lemma_let_go_keeps(
    wm: WindowManagerView,
    cache: Map<Seq<char>, MonitorView>,
    attached: Seq<AttachedView>,
    n: int,
    m: int,
    id: u32,
)
    requires
        0 <= m < n <= wm.monitors.len(),
        !is_attached(attached, wm.monitors[m].serial_number_id),
        forall|j: int|
            m < j < wm.monitors.len() ==> (#[trigger] wm.monitors[j]).serial_number_id
                != wm.monitors[m].serial_number_id,
    ensures
        ({
            let (after, kept) = let_go(wm, cache, attached, n);
            let monitor = wm.monitors[m];
            &&& kept.contains_key(monitor.serial_number_id)
            &&& kept[monitor.serial_number_id] == monitor
            &&& monitor_ids(monitor, monitor.workspaces.len() as int).contains(id)
                ==> !after.known_window_ids.contains_key(id)
        }),
    decreases n,
{
    let monitor = wm.monitors[m];
    if m < n - 1 {
        lemma_let_go_keeps(wm, cache, attached, n - 1, m, id);
        assert(wm.monitors[n - 1].serial_number_id != monitor.serial_number_id);
    } else {
        let ids = monitor_ids(monitor, monitor.workspaces.len() as int);
        if ids.contains(id) {
            assert(ids.to_set().contains(id));
        }
    }
}

/// A monitor that was unplugged is kept as it was, and none of its windows counts as being
/// anywhere any more, so that all of them can be put back. Of two monitors with the same serial
/// number the later one is kept.
pub proof fn law_an_unplugged_monitor_is_kept(
    wm: WindowManagerView,
    cache: Map<Seq<char>, MonitorView>,
    attached: Seq<AttachedView>,
    m: int,
    id: u32,
)
    requires
        0 <= m < wm.monitors.len(),
        !is_attached(attached, wm.monitors[m].serial_number_id),
        forall|j: int|
            m < j < wm.monitors.len() ==> (#[trigger] wm.monitors[j]).serial_number_id
                != wm.monitors[m].serial_number_id,
    ensures
        ({
            let (after, kept, _) = removal_effect(wm, cache, attached);
            let monitor = wm.monitors[m];
            &&& kept.contains_key(monitor.serial_number_id)
            &&& kept[monitor.serial_number_id] == monitor
            &&& monitor_ids(monitor, monitor.workspaces.len() as int).contains(id)
                ==> !after.known_window_ids.contains_key(id)
        }),
{
    lemma_let_go_keeps(wm, cache, attached, wm.monitors.len() as int, m, id);
}

/// No monitor that is still attached is let go of, none that is not stays, and the focus is on
/// a monitor that is there, unless none is left.
pub proof fn law_only_unplugged_monitors_go(
    wm: WindowManagerView,
    cache: Map<Seq<char>, MonitorView>,
    attached: Seq<AttachedView>,
    monitor: MonitorView,
)
    ensures
        ({
            let (after, _, plan) = removal_effect(wm, cache, attached);
            &&& after.monitors.contains(monitor) == (wm.monitors.contains(monitor) && is_attached(
                attached,
                monitor.serial_number_id,
            ))
            &&& plan.failure is None ==> after.focused_monitor < after.monitors.len()
            &&& plan.failure is Some <==> after.monitors.len() == 0
        }),
{
    sequences::lemma_filter_contains(wm.monitors, still_there(attached), monitor);
}

} // verus!
