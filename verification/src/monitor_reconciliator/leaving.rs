//! What becomes of monitors whose displays have gone or changed.

use crate::macos_api::AttachedView;
use crate::monitor_reconciliator;
use crate::operation::Operation;
use crate::process_event::dragging;
use crate::rule_book;
use crate::rules::WorkspaceMatchingRuleView;
use crate::sequences;
use crate::window_manager::CommandError;
use crate::window_manager::ContainerView;
use crate::window_manager::MonitorView;
use crate::window_manager::Window;
use crate::window_manager::WindowManagerView;
use crate::window_manager::WorkspaceView;
use vstd::prelude::*;

verus! {

/// A display is the last that is attached under a serial number.
pub open spec fn is_last_under(attached: Seq<AttachedView>, n: int, serial: Seq<char>, i: int) -> bool {
    &&& 0 <= i < n
    &&& attached[i].serial_number_id == serial
    &&& forall|j: int| i < j < n ==> (#[trigger] attached[j]).serial_number_id != serial
}

proof fn lemma_refreshed(monitor: MonitorView, attached: Seq<AttachedView>, n: int)
    requires
        0 <= n <= attached.len(),
    ensures
        ({
            let now = monitor_reconciliator::refreshed(monitor, attached, n);
            &&& now == (MonitorView {
                id: now.id,
                device: now.device,
                size: now.size,
                work_area_size: now.work_area_size,
                ..monitor
            })
            &&& forall|i: int| #[trigger]
                is_last_under(attached, n, monitor.serial_number_id, i) ==> {
                    &&& now.id == attached[i].id
                    &&& now.device == attached[i].device
                    &&& now.size == attached[i].size
                    &&& now.work_area_size == attached[i].work_area_size
                }
            &&& (forall|i: int|
                0 <= i < n ==> (#[trigger] attached[i]).serial_number_id
                    != monitor.serial_number_id) ==> now == monitor
        }),
    decreases n,
{
    if n > 0 {
        lemma_refreshed(monitor, attached, n - 1);
        assert forall|i: int| #[trigger]
            is_last_under(attached, n, monitor.serial_number_id, i) && i < n - 1 implies is_last_under(
            attached,
            n - 1,
            monitor.serial_number_id,
            i,
        ) by {
            assert(attached[n - 1].serial_number_id != monitor.serial_number_id);
        }
    }
}

/// Whatever displays are attached, each monitor has the id, the device, the size and the work area
/// of the last display under its serial number, and everything else as before; one that has no
/// display is as it was. As many displays as monitors, or none, leave nothing else to do.
pub proof fn law_displays_bring_monitors_up_to_date(
    wm: WindowManagerView,
    cache: Map<Seq<char>, MonitorView>,
    attached: Seq<AttachedView>,
    m: int,
    i: int,
)
    requires
        0 <= m < wm.monitors.len(),
        wm.monitors.len() <= attached.len() || attached.len() == 0,
    ensures
        ({
            let (after, kept, detached) = monitor_reconciliator::detach_effect(
                wm,
                cache,
                attached,
            );
            let before = wm.monitors[m];
            let now = after.monitors[m];
            &&& after == (WindowManagerView { monitors: after.monitors, ..wm })
            &&& after.monitors.len() == wm.monitors.len()
            &&& kept == cache
            &&& now == (MonitorView {
                id: now.id,
                device: now.device,
                size: now.size,
                work_area_size: now.work_area_size,
                ..before
            })
            &&& is_last_under(attached, attached.len() as int, before.serial_number_id, i) ==> {
                &&& now.id == attached[i].id
                &&& now.device == attached[i].device
                &&& now.size == attached[i].size
                &&& now.work_area_size == attached[i].work_area_size
            }
            &&& (forall|j: int|
                0 <= j < attached.len() ==> (#[trigger] attached[j]).serial_number_id
                    != before.serial_number_id) ==> now == before
            &&& detached is None <==> wm.monitors.len() == attached.len() || attached.len() == 0
            &&& detached matches Some(detached) ==> {
                &&& detached.initial_count == wm.monitors.len() as usize
                &&& detached.plan.failure is None
                &&& detached.plan.operations.len() == 0
                &&& detached.serial_ids.len() == wm.monitors.len()
                &&& detached.serial_ids[m] == before.serial_number_id
            }
        }),
{
    lemma_refreshed(wm.monitors[m], attached, attached.len() as int);
}

/// No display is attached under a serial number.
pub open spec fn has_gone(attached: Seq<AttachedView>, monitor: MonitorView) -> bool {
    forall|i: int|
        0 <= i < attached.len() ==> (#[trigger] attached[i]).serial_number_id
            != monitor.serial_number_id
}

/// A window stands on a monitor: in a container, on its own or floating.
pub open spec fn stands_on(monitor: MonitorView, id: u32) -> bool {
    exists|w: int|
        0 <= w < monitor.workspaces.len() && stands_on_workspace(
            #[trigger] monitor.workspaces[w],
            id,
        )
}

/// A window stands on a workspace: in a container, on its own or floating.
pub open spec fn stands_on_workspace(workspace: WorkspaceView, id: u32) -> bool {
    ||| exists|c: int|
        0 <= c < workspace.containers.len() && dragging::is_among(
            (#[trigger] workspace.containers[c]).windows,
            id,
        )
    ||| workspace.monocle_container is Some && dragging::is_among(
        workspace.monocle_container->0.windows,
        id,
    )
    ||| dragging::is_among(workspace.floating_windows, id)
}

proof fn lemma_ids(windows: Seq<Window>, id: u32)
    ensures
        monitor_reconciliator::ids_of(windows).contains(id) == dragging::is_among(windows, id),
{
    let ids = monitor_reconciliator::ids_of(windows);
    if ids.contains(id) {
        let i = choose|i: int| 0 <= i < ids.len() && ids[i] == id;
        assert(windows[i].id == id);
    }
    if dragging::is_among(windows, id) {
        let i = choose|i: int| 0 <= i < windows.len() && (#[trigger] windows[i]).id == id;
        assert(ids[i] == id);
    }
}

proof fn lemma_in_either(a: Seq<u32>, b: Seq<u32>, id: u32)
    ensures
        (a + b).contains(id) == (a.contains(id) || b.contains(id)),
{
    let all = a + b;
    if a.contains(id) {
        let i = choose|i: int| 0 <= i < a.len() && a[i] == id;
        assert(all[i] == id);
    }
    if b.contains(id) {
        let i = choose|i: int| 0 <= i < b.len() && b[i] == id;
        assert(all[a.len() + i] == id);
    }
    if all.contains(id) {
        let i = choose|i: int| 0 <= i < all.len() && all[i] == id;
        if i < a.len() {
            assert(a[i] == id);
        } else {
            assert(b[i - a.len()] == id);
        }
    }
}

proof fn lemma_container_ids(containers: Seq<ContainerView>, n: int, id: u32)
    requires
        0 <= n <= containers.len(),
    ensures
        monitor_reconciliator::container_ids(containers, n).contains(id) <==> exists|c: int|
            0 <= c < n && dragging::is_among((#[trigger] containers[c]).windows, id),
    decreases n,
{
    if n > 0 {
        lemma_container_ids(containers, n - 1, id);
        lemma_ids(containers[n - 1].windows, id);
        lemma_in_either(
            monitor_reconciliator::container_ids(containers, n - 1),
            monitor_reconciliator::ids_of(containers[n - 1].windows),
            id,
        );
    }
}

proof fn lemma_workspace_ids(workspace: WorkspaceView, id: u32)
    ensures
        monitor_reconciliator::workspace_ids(workspace).contains(id) == stands_on_workspace(
            workspace,
            id,
        ),
{
    let n = workspace.containers.len() as int;
    let tiled = monitor_reconciliator::container_ids(workspace.containers, n);
    let own = match workspace.monocle_container {
        Some(monocle) => monitor_reconciliator::ids_of(monocle.windows),
        None => Seq::empty(),
    };
    let floating = monitor_reconciliator::ids_of(workspace.floating_windows);
    lemma_container_ids(workspace.containers, n, id);
    lemma_ids(workspace.floating_windows, id);
    if let Some(monocle) = workspace.monocle_container {
        lemma_ids(monocle.windows, id);
    }
    lemma_in_either(tiled, own, id);
    lemma_in_either(tiled + own, floating, id);
}

proof fn lemma_monitor_ids(monitor: MonitorView, n: int, id: u32)
    requires
        0 <= n <= monitor.workspaces.len(),
    ensures
        monitor_reconciliator::monitor_ids(monitor, n).contains(id) <==> exists|w: int|
            0 <= w < n && stands_on_workspace(#[trigger] monitor.workspaces[w], id),
    decreases n,
{
    if n > 0 {
        lemma_monitor_ids(monitor, n - 1, id);
        lemma_workspace_ids(monitor.workspaces[n - 1], id);
        lemma_in_either(
            monitor_reconciliator::monitor_ids(monitor, n - 1),
            monitor_reconciliator::workspace_ids(monitor.workspaces[n - 1]),
            id,
        );
    }
}

proof fn lemma_let_go(
    wm: WindowManagerView,
    cache: Map<Seq<char>, MonitorView>,
    attached: Seq<AttachedView>,
    n: int,
    id: u32,
    rule: WorkspaceMatchingRuleView,
    serial: Seq<char>,
)
    requires
        0 <= n <= wm.monitors.len() <= usize::MAX,
    ensures
        ({
            let (after, kept) = monitor_reconciliator::let_go(wm, cache, attached, n);
            &&& after == (WindowManagerView {
                known_window_ids: after.known_window_ids,
                rules: after.rules,
                ..wm
            })
            &&& after.known_window_ids.contains_key(id) <==> wm.known_window_ids.contains_key(id)
                && forall|m: int|
                0 <= m < n && has_gone(attached, #[trigger] wm.monitors[m]) ==> !stands_on(
                    wm.monitors[m],
                    id,
                )
            &&& after.known_window_ids.contains_key(id) ==> after.known_window_ids[id]
                == wm.known_window_ids[id]
            &&& after.rules.workspace_matching_rules.contains(rule)
                <==> wm.rules.workspace_matching_rules.contains(rule) && !(rule.monitor_index < n
                && has_gone(attached, wm.monitors[rule.monitor_index as int]))
            &&& (forall|m: int|
                0 <= m < n && (#[trigger] wm.monitors[m]).serial_number_id == serial ==> !has_gone(
                    attached,
                    wm.monitors[m],
                )) ==> kept.contains_key(serial) == cache.contains_key(serial) && kept[serial]
                == cache[serial]
        }),
    decreases n,
{
    if n > 0 {
        lemma_let_go(wm, cache, attached, n - 1, id, rule, serial);
        let monitor = wm.monitors[n - 1];
        let (earlier, _) = monitor_reconciliator::let_go(wm, cache, attached, n - 1);
        assert(has_gone(attached, monitor) == !monitor_reconciliator::is_attached(
            attached,
            monitor.serial_number_id,
        ));
        if has_gone(attached, monitor) {
            let count = monitor.workspaces.len() as int;
            let ids = monitor_reconciliator::monitor_ids(monitor, count);
            lemma_monitor_ids(monitor, count, id);
            assert(ids.to_set().contains(id) == ids.contains(id));
            sequences::lemma_filter_contains(
                earlier.rules.workspace_matching_rules,
                rule_book::names_another_monitor((n - 1) as usize),
                rule,
            );
        }
    }
}

/// When displays have gone, the windows of their monitors are no longer known and all others are, as
/// before; the rules that send windows there are dropped and all others are kept; the cache keeps
/// what it has of other monitors. The focus stays where it is unless there is no such monitor any
/// more, and then it goes to the first.
pub proof fn law_monitors_that_have_gone_are_forgotten(
    wm: WindowManagerView,
    cache: Map<Seq<char>, MonitorView>,
    attached: Seq<AttachedView>,
    id: u32,
    rule: WorkspaceMatchingRuleView,
    serial: Seq<char>,
)
    requires
        wm.monitors.len() <= usize::MAX,
    ensures
        ({
            let (after, kept, plan) = monitor_reconciliator::removal_effect(wm, cache, attached);
            &&& after == (WindowManagerView {
                monitors: after.monitors,
                focused_monitor: after.focused_monitor,
                known_window_ids: after.known_window_ids,
                rules: after.rules,
                ..wm
            })
            &&& after.known_window_ids.contains_key(id) <==> wm.known_window_ids.contains_key(id)
                && forall|m: int|
                0 <= m < wm.monitors.len() && has_gone(attached, #[trigger] wm.monitors[m])
                    ==> !stands_on(wm.monitors[m], id)
            &&& after.known_window_ids.contains_key(id) ==> after.known_window_ids[id]
                == wm.known_window_ids[id]
            &&& after.rules.workspace_matching_rules.contains(rule)
                <==> wm.rules.workspace_matching_rules.contains(rule) && !(rule.monitor_index
                < wm.monitors.len() && has_gone(
                attached,
                wm.monitors[rule.monitor_index as int],
            ))
            &&& (forall|m: int|
                0 <= m < wm.monitors.len() && (#[trigger] wm.monitors[m]).serial_number_id
                    == serial ==> !has_gone(attached, wm.monitors[m])) ==> kept.contains_key(
                serial,
            ) == cache.contains_key(serial) && kept[serial] == cache[serial]
            &&& after.monitors.len() == 0 ==> dragging::fails(plan, CommandError::NotAMonitorIndex)
            &&& after.monitors.len() > 0 ==> {
                &&& plan.failure is None
                &&& after.focused_monitor == if wm.focused_monitor < after.monitors.len() {
                    wm.focused_monitor
                } else {
                    0
                }
                &&& after.monitors.len() == wm.monitors.len() ==> plan.operations.len() == 0
                &&& after.monitors.len() != wm.monitors.len() ==> plan.operations.len()
                    == after.monitors.len() && forall|i: int|
                    0 <= i < after.monitors.len() ==> #[trigger] plan.operations[i]
                        == Operation::UpdateMonitorFocusedWorkspace(i as usize)
            }
        }),
{
    lemma_let_go(wm, cache, attached, wm.monitors.len() as int, id, rule, serial);
}

/// When fewer displays are attached than there are monitors, what is left of the monitors is told by
/// serial number, together with how many there were.
pub proof fn law_the_monitors_that_are_left_are_told(
    wm: WindowManagerView,
    cache: Map<Seq<char>, MonitorView>,
    attached: Seq<AttachedView>,
    i: int,
)
    requires
        0 < attached.len() < wm.monitors.len() <= usize::MAX,
    ensures
        ({
            let (after, _, detached) = monitor_reconciliator::detach_effect(wm, cache, attached);
            &&& detached is Some
            &&& detached->0.initial_count == wm.monitors.len()
            &&& detached->0.serial_ids.len() == after.monitors.len()
            &&& 0 <= i < after.monitors.len() ==> detached->0.serial_ids[i]
                == after.monitors[i].serial_number_id
        }),
{
}

/// A monitor is kept in the cache under its own serial number where an index is preferred for the
/// serial number that was given, and under that one otherwise.
pub proof fn law_preferred_monitors_are_kept_under_their_own_number(
    preferences: Seq<(usize, Seq<char>)>,
    serial: Seq<char>,
    monitor: MonitorView,
)
    ensures
        (exists|i: int| 0 <= i < preferences.len() && (#[trigger] preferences[i]).1 == serial)
            ==> monitor_reconciliator::cache_id(preferences, serial, monitor)
            == monitor.serial_number_id,
        (forall|i: int| 0 <= i < preferences.len() ==> (#[trigger] preferences[i]).1 != serial)
            ==> monitor_reconciliator::cache_id(preferences, serial, monitor) == serial,
{
}

} // verus!
