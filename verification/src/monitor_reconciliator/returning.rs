//! What a monitor that has come back gets of what was on it.

use crate::monitor_reconciliator::reattach::AttachmentView;
use crate::monitor_reconciliator::reattach;
use crate::operation::Operation;
use crate::rules::MatchingRuleView;
use crate::rules::WorkspaceMatchingRuleView;
use crate::sequences;
use crate::window_manager::CommandError;
use crate::window_manager::MonitorView;
use crate::window_manager::Window;
use crate::window_manager::WindowManagerView;
use crate::window_manager::WorkspaceView;
use vstd::prelude::*;

verus! {

/// A monitor was not there when monitors were last looked at, and what was on it is in the cache
/// and has not been used up.
pub open spec fn has_returned(
    monitor: MonitorView,
    cache: Map<Seq<char>, MonitorView>,
    attachment: AttachmentView,
) -> bool {
    let serial = monitor.serial_number_id;
    &&& !attachment.left.contains(serial)
    &&& cache.contains_key(serial)
    &&& serial.len() > 0 ==> attachment.loaded != Some(serial)
}

/// The monitor that is looked at next: the first that has returned, of those that have not been
/// looked at. There is none where no monitor was added.
pub open spec fn is_next(
    wm: WindowManagerView,
    cache: Map<Seq<char>, MonitorView>,
    attachment: AttachmentView,
    m: int,
) -> bool {
    &&& attachment.focus is Some
    &&& attachment.next <= m < wm.monitors.len()
    &&& has_returned(wm.monitors[m], cache, attachment)
    &&& forall|k: int|
        attachment.next <= k < m ==> !has_returned(#[trigger] wm.monitors[k], cache, attachment)
}

proof fn lemma_next(
    wm: WindowManagerView,
    cache: Map<Seq<char>, MonitorView>,
    attachment: AttachmentView,
    m: int,
    from: int,
)
    requires
        attachment.next <= from <= m < wm.monitors.len(),
        has_returned(wm.monitors[m], cache, attachment),
        forall|k: int|
            attachment.next <= k < m ==> !has_returned(
                #[trigger] wm.monitors[k],
                cache,
                attachment,
            ),
    ensures
        reattach::first_returning(
            wm.monitors,
            reattach::cache_left(cache, attachment.loaded),
            attachment.left,
            from,
        ) == Some(m),
    decreases m - from,
{
    if from < m {
        assert(!has_returned(wm.monitors[from], cache, attachment));
        lemma_next(wm, cache, attachment, m, from + 1);
    }
}

proof fn lemma_none_next(
    wm: WindowManagerView,
    cache: Map<Seq<char>, MonitorView>,
    attachment: AttachmentView,
    from: int,
)
    requires
        attachment.next <= from,
        forall|k: int|
            attachment.next <= k < wm.monitors.len() ==> !has_returned(
                #[trigger] wm.monitors[k],
                cache,
                attachment,
            ),
    ensures
        reattach::first_returning(
            wm.monitors,
            reattach::cache_left(cache, attachment.loaded),
            attachment.left,
            from,
        ) is None,
    decreases wm.monitors.len() - from,
{
    if from < wm.monitors.len() {
        assert(!has_returned(wm.monitors[from], cache, attachment));
        lemma_none_next(wm, cache, attachment, from + 1);
    }
}

/// A monitor that has come back keeps its id, its device, its serial number, its size and its
/// work area, which the display tells; everything else that it had is as it was when the monitor
/// went: which workspace is focused, which one was before, how many there are, and its settings.
pub proof fn law_a_monitor_gets_back_its_focus_and_its_workspaces(
    wm: WindowManagerView,
    cache: Map<Seq<char>, MonitorView>,
    attachment: AttachmentView,
    alive: Seq<u32>,
    m: usize,
)
    requires
        is_next(wm, cache, attachment, m as int),
        wm.monitors.len() < usize::MAX,
    ensures
        ({
            let step = reattach::attach_step(wm, cache, attachment, alive);
            let display = wm.monitors[m as int];
            let cached = cache[display.serial_number_id];
            let back = step.wm.monitors[m as int];
            &&& !step.done
            &&& step.attachment.next == m + 1
            &&& step.attachment.loaded == Some(display.serial_number_id)
            &&& step.attachment.left == attachment.left
            &&& step.attachment.initial_count == attachment.initial_count
            &&& step.attachment.focus == attachment.focus
            &&& back.id == display.id
            &&& back.device == display.device
            &&& back.serial_number_id == display.serial_number_id
            &&& back.size == display.size
            &&& back.work_area_size == display.work_area_size
            &&& back.focused_workspace == cached.focused_workspace
            &&& back.last_focused_workspace == cached.last_focused_workspace
            &&& back.workspaces.len() == cached.workspaces.len()
            &&& back.work_area_offset == cached.work_area_offset
            &&& back.window_based_work_area_offset == cached.window_based_work_area_offset
            &&& back.window_based_work_area_offset_limit
                == cached.window_based_work_area_offset_limit
            &&& back.container_padding == cached.container_padding
            &&& back.workspace_padding == cached.workspace_padding
            &&& back.wallpaper == cached.wallpaper
            &&& back.floating_layer_behaviour == cached.floating_layer_behaviour
            &&& back.window_hiding_position == cached.window_hiding_position
            &&& step.wm.monitors.len() == wm.monitors.len()
            &&& forall|k: int|
                0 <= k < wm.monitors.len() && k != m ==> #[trigger] step.wm.monitors[k]
                    == wm.monitors[k]
            &&& step.wm.focused_monitor == wm.focused_monitor
            &&& step.wm.known_window_ids == wm.known_window_ids
        }),
{
    lemma_next(wm, cache, attachment, m as int, attachment.next as int);
}

/// Each workspace of a monitor that has come back has its name, its layout and its settings
/// again, and each of its containers its id, its lock and as much of its focus as there are
/// windows for.
pub proof fn law_workspaces_come_back_with_their_settings(
    wm: WindowManagerView,
    cache: Map<Seq<char>, MonitorView>,
    attachment: AttachmentView,
    alive: Seq<u32>,
    m: usize,
    w: int,
)
    requires
        is_next(wm, cache, attachment, m as int),
        wm.monitors.len() < usize::MAX,
        0 <= w < cache[wm.monitors[m as int].serial_number_id].workspaces.len(),
    ensures
        ({
            let step = reattach::attach_step(wm, cache, attachment, alive);
            let was = cache[wm.monitors[m as int].serial_number_id];
            let before = was.workspaces[w];
            let now = step.wm.monitors[m as int].workspaces[w];
            &&& now == (WorkspaceView {
                containers: now.containers,
                monocle_container: now.monocle_container,
                floating_windows: now.floating_windows,
                ..before
            })
            &&& now.containers.len() == before.containers.len()
            &&& forall|c: int|
                0 <= c < before.containers.len() ==> {
                    &&& (#[trigger] now.containers[c]).id == before.containers[c].id
                    &&& now.containers[c].locked == before.containers[c].locked
                    &&& now.containers[c].focused_window == if w == was.focused_workspace
                        && before.containers[c].focused_window >= now.containers[c].windows.len() {
                        0
                    } else {
                        before.containers[c].focused_window
                    }
                }
        }),
{
    lemma_next(wm, cache, attachment, m as int, attachment.next as int);
}

/// A window comes back where it was in the layout of a monitor exactly if it still exists and has
/// not gone to another workspace meanwhile; so does a floating one.
pub proof fn law_windows_come_back_where_they_were(
    wm: WindowManagerView,
    cache: Map<Seq<char>, MonitorView>,
    attachment: AttachmentView,
    alive: Seq<u32>,
    m: usize,
    w: int,
    window: Window,
)
    requires
        is_next(wm, cache, attachment, m as int),
        wm.monitors.len() < usize::MAX,
        0 <= w < cache[wm.monitors[m as int].serial_number_id].workspaces.len(),
    ensures
        ({
            let step = reattach::attach_step(wm, cache, attachment, alive);
            let before = cache[wm.monitors[m as int].serial_number_id].workspaces[w];
            let now = step.wm.monitors[m as int].workspaces[w];
            let is_kept = alive.contains(window.id) && !wm.known_window_ids.contains_key(
                window.id,
            );
            &&& forall|c: int|
                0 <= c < before.containers.len() ==> (#[trigger] now.containers[c].windows.contains(
                    window,
                ) <==> before.containers[c].windows.contains(window) && is_kept)
            &&& now.floating_windows.contains(window) <==> before.floating_windows.contains(window)
                && is_kept
            &&& now.monocle_container is Some && now.monocle_container->0.windows.contains(window)
                <==> before.monocle_container is Some
                && before.monocle_container->0.windows.contains(window) && is_kept
            &&& now.monocle_container is Some ==> now.monocle_container->0.windows.len() > 0
        }),
{
    lemma_next(wm, cache, attachment, m as int, attachment.next as int);
    let before = cache[wm.monitors[m as int].serial_number_id].workspaces[w];
    let keep = reattach::is_put_back(wm.known_window_ids, alive);
    let step = reattach::attach_step(wm, cache, attachment, alive);
    let now = step.wm.monitors[m as int].workspaces[w];
    assert forall|c: int| 0 <= c < before.containers.len() implies #[trigger] now.containers[c].windows.contains(
        window,
    ) == (before.containers[c].windows.contains(window) && keep(window)) by {
        sequences::lemma_filter_contains(before.containers[c].windows, keep, window);
    }
    sequences::lemma_filter_contains(before.floating_windows, keep, window);
    if let Some(monocle) = before.monocle_container {
        sequences::lemma_filter_contains(monocle.windows, keep, window);
    }
}

proof fn lemma_rules_sent(
    monitor: MonitorView,
    m: usize,
    n: int,
    w: int,
    rule: MatchingRuleView,
)
    requires
        0 <= w < n <= monitor.workspaces.len() <= usize::MAX,
    ensures
        monitor.workspaces[w].workspace_rules.contains(rule) ==> reattach::all_rules(
            monitor,
            m,
            n,
        ).contains(
            (WorkspaceMatchingRuleView {
                monitor_index: m,
                workspace_index: w as usize,
                matching_rule: rule,
                initial_only: false,
            }),
        ),
        monitor.workspaces[w].initial_workspace_rules.contains(rule) ==> reattach::all_rules(
            monitor,
            m,
            n,
        ).contains(
            (WorkspaceMatchingRuleView {
                monitor_index: m,
                workspace_index: w as usize,
                matching_rule: rule,
                initial_only: true,
            }),
        ),
    decreases n,
{
    let always = WorkspaceMatchingRuleView {
        monitor_index: m,
        workspace_index: w as usize,
        matching_rule: rule,
        initial_only: false,
    };
    let once = WorkspaceMatchingRuleView { initial_only: true, ..always };
    let workspace = monitor.workspaces[n - 1];
    let all = reattach::all_rules(monitor, m, n);
    let earlier = reattach::all_rules(monitor, m, n - 1);
    let own = reattach::sending(workspace.workspace_rules, m, (n - 1) as usize, false);
    let initial = reattach::sending(workspace.initial_workspace_rules, m, (n - 1) as usize, true);
    assert(all == earlier + own + initial);
    if w < n - 1 {
        lemma_rules_sent(monitor, m, n - 1, w, rule);
        if earlier.contains(always) {
            let i = choose|i: int| 0 <= i < earlier.len() && earlier[i] == always;
            assert(all[i] == always);
        }
        if earlier.contains(once) {
            let i = choose|i: int| 0 <= i < earlier.len() && earlier[i] == once;
            assert(all[i] == once);
        }
    } else {
        if workspace.workspace_rules.contains(rule) {
            let i = choose|i: int|
                0 <= i < workspace.workspace_rules.len() && workspace.workspace_rules[i] == rule;
            assert(own[i] == always);
            assert(all[earlier.len() + i] == always);
        }
        if workspace.initial_workspace_rules.contains(rule) {
            let i = choose|i: int|
                0 <= i < workspace.initial_workspace_rules.len()
                    && workspace.initial_workspace_rules[i] == rule;
            assert(initial[i] == once);
            assert(all[earlier.len() + own.len() + i] == once);
        }
    }
}

proof fn lemma_only_rules_sent(monitor: MonitorView, m: usize, n: int, i: int)
    requires
        0 <= n <= monitor.workspaces.len() <= usize::MAX,
        0 <= i < reattach::all_rules(monitor, m, n).len(),
    ensures
        is_rule_of(monitor, m, reattach::all_rules(monitor, m, n)[i]),
    decreases n,
{
    if n > 0 {
        let workspace = monitor.workspaces[n - 1];
        let earlier = reattach::all_rules(monitor, m, n - 1);
        let own = reattach::sending(workspace.workspace_rules, m, (n - 1) as usize, false);
        let initial = reattach::sending(
            workspace.initial_workspace_rules,
            m,
            (n - 1) as usize,
            true,
        );
        if i < earlier.len() {
            lemma_only_rules_sent(monitor, m, n - 1, i);
        } else if i < earlier.len() + own.len() {
            assert(workspace.workspace_rules.contains(
                workspace.workspace_rules[i - earlier.len()],
            ));
        } else {
            assert(workspace.initial_workspace_rules.contains(
                workspace.initial_workspace_rules[i - earlier.len() - own.len()],
            ));
        }
    }
}

/// A rule sends windows to a workspace of a monitor that has this rule itself.
pub open spec fn is_rule_of(
    monitor: MonitorView,
    m: usize,
    rule: WorkspaceMatchingRuleView,
) -> bool {
    &&& rule.monitor_index == m
    &&& rule.workspace_index < monitor.workspaces.len()
    &&& {
        let workspace = monitor.workspaces[rule.workspace_index as int];
        if rule.initial_only {
            workspace.initial_workspace_rules.contains(rule.matching_rule)
        } else {
            workspace.workspace_rules.contains(rule.matching_rule)
        }
    }
}

/// The rules of the workspaces of a monitor that has come back are in force again, each for its
/// own workspace; no rule is lost and no other is added.
pub proof fn law_workspace_rules_come_back(
    wm: WindowManagerView,
    cache: Map<Seq<char>, MonitorView>,
    attachment: AttachmentView,
    alive: Seq<u32>,
    m: usize,
    rule: WorkspaceMatchingRuleView,
)
    requires
        is_next(wm, cache, attachment, m as int),
        wm.monitors.len() < usize::MAX,
        cache[wm.monitors[m as int].serial_number_id].workspaces.len() <= usize::MAX,
    ensures
        ({
            let step = reattach::attach_step(wm, cache, attachment, alive);
            let was = cache[wm.monitors[m as int].serial_number_id];
            step.wm.rules.workspace_matching_rules.contains(rule)
                <==> wm.rules.workspace_matching_rules.contains(rule) || is_rule_of(was, m, rule)
        }),
{
    lemma_next(wm, cache, attachment, m as int, attachment.next as int);
    let step = reattach::attach_step(wm, cache, attachment, alive);
    let was = cache[wm.monitors[m as int].serial_number_id];
    let back = step.wm.monitors[m as int];
    let n = back.workspaces.len() as int;
    let before = wm.rules.workspace_matching_rules;
    let added = reattach::all_rules(back, m, n);
    let all = step.wm.rules.workspace_matching_rules;
    assert(all == before + added);
    if before.contains(rule) {
        let i = choose|i: int| 0 <= i < before.len() && before[i] == rule;
        assert(all[i] == rule);
    }
    if is_rule_of(was, m, rule) {
        assert(back.workspaces[rule.workspace_index as int].workspace_rules
            == was.workspaces[rule.workspace_index as int].workspace_rules);
        lemma_rules_sent(back, m, n, rule.workspace_index as int, rule.matching_rule);
        let i = choose|i: int| 0 <= i < added.len() && added[i] == rule;
        assert(all[before.len() + i] == rule);
    }
    if all.contains(rule) {
        let i = choose|i: int| 0 <= i < all.len() && all[i] == rule;
        if i < before.len() {
            assert(before[i] == rule);
        } else {
            lemma_only_rules_sent(back, m, n, i - before.len());
            assert(back.workspaces[rule.workspace_index as int].workspace_rules
                == was.workspaces[rule.workspace_index as int].workspace_rules);
        }
    }
}

/// Once a monitor has got back what was on it, its focused workspace is loaded and then updated,
/// after the containers that have become empty were removed.
pub proof fn law_a_monitor_that_is_back_is_loaded(
    wm: WindowManagerView,
    cache: Map<Seq<char>, MonitorView>,
    attachment: AttachmentView,
    alive: Seq<u32>,
    m: usize,
)
    requires
        is_next(wm, cache, attachment, m as int),
        wm.monitors.len() < usize::MAX,
    ensures
        ({
            let plan = reattach::attach_step(wm, cache, attachment, alive).plan;
            let n = plan.operations.len();
            &&& plan.failure is None
            &&& plan.reply is None
            &&& n >= 2
            &&& plan.operations[n - 2] == Operation::LoadFocusedWorkspace(
                m,
                wm.mouse_follows_focus,
            )
            &&& plan.operations[n - 1] == Operation::UpdateMonitorFocusedWorkspace(m)
            &&& forall|i: int|
                0 <= i < n - 2 ==> match #[trigger] plan.operations[i] {
                    Operation::RemoveContainer(at, _, _) => at == m,
                    Operation::RemoveContainerByIdx(at, _, _) => at == m,
                    _ => false,
                }
        }),
{
    lemma_next(wm, cache, attachment, m as int, attachment.next as int);
    let step = reattach::attach_step(wm, cache, attachment, alive);
    let back = step.wm.monitors[m as int];
    let n = back.workspaces.len() as int;
    let removals = reattach::all_removals(back, m, n);
    assert forall|i: int| 0 <= i < removals.len() implies (match #[trigger] removals[i] {
        Operation::RemoveContainer(at, _, _) => at == m,
        Operation::RemoveContainerByIdx(at, _, _) => at == m,
        _ => false,
    }) by {
        lemma_only_removals(back, m, n, i);
    }
    assert forall|i: int| 0 <= i < removals.len() implies #[trigger] step.plan.operations[i]
        == removals[i] by {}
}

proof fn lemma_only_own_removals(workspace: WorkspaceView, m: usize, w: usize, n: int, i: int)
    requires
        0 <= i < reattach::removals(workspace, m, w, n).len(),
    ensures
        match reattach::removals(workspace, m, w, n)[i] {
            Operation::RemoveContainer(at, _, _) => at == m,
            Operation::RemoveContainerByIdx(at, _, _) => at == m,
            _ => false,
        },
    decreases n,
{
    if n > 0 {
        let all = reattach::removals(workspace, m, w, n);
        let rest = reattach::removals(workspace, m, w, n - 1);
        let first = all.len() - rest.len();
        if i >= first {
            lemma_only_own_removals(workspace, m, w, n - 1, i - first);
        }
    }
}

proof fn lemma_only_removals(monitor: MonitorView, m: usize, n: int, i: int)
    requires
        0 <= i < reattach::all_removals(monitor, m, n).len(),
    ensures
        match reattach::all_removals(monitor, m, n)[i] {
            Operation::RemoveContainer(at, _, _) => at == m,
            Operation::RemoveContainerByIdx(at, _, _) => at == m,
            _ => false,
        },
    decreases n,
{
    if n > 0 {
        let earlier = reattach::all_removals(monitor, m, n - 1);
        let workspace = monitor.workspaces[n - 1];
        if i < earlier.len() {
            lemma_only_removals(monitor, m, n - 1, i);
        } else {
            lemma_only_own_removals(
                workspace,
                m,
                (n - 1) as usize,
                workspace.containers.len() as int,
                i - earlier.len(),
            );
        }
    }
}

/// Where no monitor has come back, or none is left that has, nothing changes: the focus goes to
/// where it was noted to be, everything is laid out again where the number of monitors is another
/// than that of those left, every monitor is loaded where it is another than at first, and the
/// subscribers and the borders are brought up to date last.
pub proof fn law_the_focus_goes_back_when_all_monitors_are(
    wm: WindowManagerView,
    cache: Map<Seq<char>, MonitorView>,
    attachment: AttachmentView,
    alive: Seq<u32>,
)
    requires
        attachment.focus is None || forall|k: int|
            attachment.next <= k < wm.monitors.len() ==> !has_returned(
                #[trigger] wm.monitors[k],
                cache,
                attachment,
            ),
        wm.monitors.len() < usize::MAX,
    ensures
        ({
            let step = reattach::attach_step(wm, cache, attachment, alive);
            let operations = step.plan.operations;
            let n = wm.monitors.len() as int;
            let refocused: int = if attachment.focus is Some {
                2
            } else {
                0
            };
            let retiled: int = if n != attachment.left.len() {
                1
            } else {
                0
            };
            let loaded: int = if n != attachment.initial_count {
                n
            } else {
                0
            };
            &&& step.done
            &&& step.wm == wm
            &&& step.attachment.loaded is None
            &&& step.plan.failure is None
            &&& operations.len() == refocused + retiled + loaded + 2
            &&& attachment.focus is Some ==> {
                let (m, w) = attachment.focus->0;
                &&& operations[0] == Operation::FocusMonitor(m)
                &&& operations[1] == Operation::FocusWorkspace(w)
            }
            &&& n != attachment.left.len() ==> operations[refocused] == Operation::RetileAll(true)
            &&& n != attachment.initial_count ==> forall|k: int|
                0 <= k < n ==> #[trigger] operations[refocused + retiled + k]
                    == Operation::LoadFocusedWorkspace(k as usize, wm.mouse_follows_focus)
            &&& operations[operations.len() - 2] == Operation::NotifySubscribers
            &&& operations[operations.len() - 1] == Operation::UpdateBorders
        }),
{
    if attachment.focus is Some {
        lemma_none_next(wm, cache, attachment, attachment.next as int);
    }
}


/// Putting back starts with nothing put back. Where there are more monitors than were left, it is noted
/// which workspace of which monitor has the focus, and some monitor has to; otherwise nothing is noted.
pub proof fn law_the_focus_is_noted_where_monitors_were_added(
    wm: WindowManagerView,
    left: Seq<Seq<char>>,
    initial_count: usize,
)
    ensures
        ({
            let started = reattach::attaching_started(wm, left, initial_count);
            if wm.monitors.len() > left.len() && wm.focused_monitor >= wm.monitors.len() {
                started == Err::<AttachmentView, CommandError>(CommandError::NoMonitor)
            } else {
                &&& started is Ok
                &&& started->Ok_0.left == left
                &&& started->Ok_0.initial_count == initial_count
                &&& started->Ok_0.next == 0
                &&& started->Ok_0.loaded is None
                &&& started->Ok_0.focus == if wm.monitors.len() > left.len() {
                    Some(
                        (
                            wm.focused_monitor,
                            wm.monitors[wm.focused_monitor as int].focused_workspace,
                        ),
                    )
                } else {
                    None
                }
            }
        }),
{
}


/// An operation removes a container of a workspace of a monitor that holds no window: as the focused
/// one if it is, and by its index if not.
pub open spec fn removes_empty(
    operation: Operation,
    monitor: MonitorView,
    m: usize,
    w: int,
    c: int,
) -> bool {
    &&& 0 <= w < monitor.workspaces.len()
    &&& 0 <= c < monitor.workspaces[w].containers.len()
    &&& monitor.workspaces[w].containers[c].windows.len() == 0
    &&& operation == if c == monitor.workspaces[w].focused_container {
        Operation::RemoveContainer(m, w as usize, c as usize)
    } else {
        Operation::RemoveContainerByIdx(m, w as usize, c as usize)
    }
}

proof fn lemma_own_removal(workspace: WorkspaceView, m: usize, w: usize, n: int, c: int)
    requires
        0 <= c < n <= workspace.containers.len() <= usize::MAX,
        workspace.containers[c].windows.len() == 0,
    ensures
        reattach::removals(workspace, m, w, n).contains(
            if c == workspace.focused_container {
                Operation::RemoveContainer(m, w, c as usize)
            } else {
                Operation::RemoveContainerByIdx(m, w, c as usize)
            },
        ),
    decreases n,
{
    let all = reattach::removals(workspace, m, w, n);
    let rest = reattach::removals(workspace, m, w, n - 1);
    let operation = if c == workspace.focused_container {
        Operation::RemoveContainer(m, w, c as usize)
    } else {
        Operation::RemoveContainerByIdx(m, w, c as usize)
    };
    if c == n - 1 {
        assert(all[0] == operation);
    } else {
        lemma_own_removal(workspace, m, w, n - 1, c);
        let k = choose|k: int| 0 <= k < rest.len() && rest[k] == operation;
        assert(all[all.len() - rest.len() + k] == operation);
    }
}

proof fn lemma_removal(monitor: MonitorView, m: usize, n: int, w: int, c: int)
    requires
        0 <= w < n <= monitor.workspaces.len() <= usize::MAX,
        0 <= c < monitor.workspaces[w].containers.len() <= usize::MAX,
        monitor.workspaces[w].containers[c].windows.len() == 0,
    ensures
        reattach::all_removals(monitor, m, n).contains(
            if c == monitor.workspaces[w].focused_container {
                Operation::RemoveContainer(m, w as usize, c as usize)
            } else {
                Operation::RemoveContainerByIdx(m, w as usize, c as usize)
            },
        ),
    decreases n,
{
    let all = reattach::all_removals(monitor, m, n);
    let earlier = reattach::all_removals(monitor, m, n - 1);
    let operation = if c == monitor.workspaces[w].focused_container {
        Operation::RemoveContainer(m, w as usize, c as usize)
    } else {
        Operation::RemoveContainerByIdx(m, w as usize, c as usize)
    };
    if w == n - 1 {
        let workspace = monitor.workspaces[w];
        let own = reattach::removals(
            workspace,
            m,
            w as usize,
            workspace.containers.len() as int,
        );
        lemma_own_removal(workspace, m, w as usize, workspace.containers.len() as int, c);
        let k = choose|k: int| 0 <= k < own.len() && own[k] == operation;
        assert(all[earlier.len() + k] == operation);
    } else {
        lemma_removal(monitor, m, n - 1, w, c);
        let k = choose|k: int| 0 <= k < earlier.len() && earlier[k] == operation;
        assert(all[k] == operation);
    }
}

proof fn lemma_own_removed(workspace: WorkspaceView, m: usize, w: usize, n: int, k: int) -> (c: int)
    requires
        0 <= n <= workspace.containers.len() <= usize::MAX,
        0 <= k < reattach::removals(workspace, m, w, n).len(),
    ensures
        0 <= c < n,
        workspace.containers[c].windows.len() == 0,
        reattach::removals(workspace, m, w, n)[k] == if c == workspace.focused_container {
            Operation::RemoveContainer(m, w, c as usize)
        } else {
            Operation::RemoveContainerByIdx(m, w, c as usize)
        },
    decreases n,
{
    let all = reattach::removals(workspace, m, w, n);
    let rest = reattach::removals(workspace, m, w, n - 1);
    let first = all.len() - rest.len();
    if k < first {
        n - 1
    } else {
        lemma_own_removed(workspace, m, w, n - 1, k - first)
    }
}

proof fn lemma_removed(monitor: MonitorView, m: usize, n: int, k: int) -> (place: (int, int))
    requires
        0 <= n <= monitor.workspaces.len() <= usize::MAX,
        forall|w: int|
            0 <= w < monitor.workspaces.len() ==> (
            #[trigger] monitor.workspaces[w]).containers.len() <= usize::MAX,
        0 <= k < reattach::all_removals(monitor, m, n).len(),
    ensures
        ({
            let (w, c) = place;
            removes_empty(reattach::all_removals(monitor, m, n)[k], monitor, m, w, c)
        }),
    decreases n,
{
    let earlier = reattach::all_removals(monitor, m, n - 1);
    if n > 0 && k < earlier.len() {
        lemma_removed(monitor, m, n - 1, k)
    } else {
        let workspace = monitor.workspaces[n - 1];
        let c = lemma_own_removed(
            workspace,
            m,
            (n - 1) as usize,
            workspace.containers.len() as int,
            k - earlier.len(),
        );
        (n - 1, c)
    }
}

/// Every container of a monitor that is back which has become empty is removed, as the focused one of
/// its workspace if it is that and by its index if not, and no other container is.
pub proof fn law_every_emptied_container_is_removed(
    wm: WindowManagerView,
    cache: Map<Seq<char>, MonitorView>,
    attachment: AttachmentView,
    alive: Seq<u32>,
    m: usize,
    w: int,
    c: int,
    k: int,
)
    requires
        is_next(wm, cache, attachment, m as int),
        wm.monitors.len() < usize::MAX,
        ({
            let was = cache[wm.monitors[m as int].serial_number_id];
            &&& was.workspaces.len() <= usize::MAX
            &&& forall|v: int|
                0 <= v < was.workspaces.len() ==> (#[trigger] was.workspaces[v]).containers.len()
                    <= usize::MAX
        }),
    ensures
        ({
            let step = reattach::attach_step(wm, cache, attachment, alive);
            let back = step.wm.monitors[m as int];
            let operations = step.plan.operations;
            &&& 0 <= w < back.workspaces.len() && 0 <= c < back.workspaces[w].containers.len()
                && back.workspaces[w].containers[c].windows.len() == 0 ==> operations.contains(
                if c == back.workspaces[w].focused_container {
                    Operation::RemoveContainer(m, w as usize, c as usize)
                } else {
                    Operation::RemoveContainerByIdx(m, w as usize, c as usize)
                },
            )
            &&& 0 <= k < operations.len() - 2 ==> exists|v: int, d: int| #[trigger]
                removes_empty(operations[k], back, m, v, d)
        }),
{
    lemma_next(wm, cache, attachment, m as int, attachment.next as int);
    let step = reattach::attach_step(wm, cache, attachment, alive);
    let back = step.wm.monitors[m as int];
    let was = cache[wm.monitors[m as int].serial_number_id];
    let n = back.workspaces.len() as int;
    let made = reattach::all_removals(back, m, n);
    let operations = step.plan.operations;
    assert forall|v: int| 0 <= v < back.workspaces.len() implies (
    #[trigger] back.workspaces[v]).containers.len() <= usize::MAX by {
        assert(back.workspaces[v].containers.len() == was.workspaces[v].containers.len());
    }
    if 0 <= w < back.workspaces.len() && 0 <= c < back.workspaces[w].containers.len()
        && back.workspaces[w].containers[c].windows.len() == 0 {
        lemma_removal(back, m, n, w, c);
        let operation = if c == back.workspaces[w].focused_container {
            Operation::RemoveContainer(m, w as usize, c as usize)
        } else {
            Operation::RemoveContainerByIdx(m, w as usize, c as usize)
        };
        let i = choose|i: int| 0 <= i < made.len() && made[i] == operation;
        assert(operations[i] == operation);
    }
    if 0 <= k < operations.len() - 2 {
        let (v, d) = lemma_removed(back, m, n, k);
        assert(removes_empty(operations[k], back, m, v, d));
    }
}


/// What is in the cache of a monitor that was put back is gone with the next step, unless the monitor
/// has no serial number; everything else in the cache stays.
pub proof fn law_what_was_put_back_leaves_the_cache(
    wm: WindowManagerView,
    cache: Map<Seq<char>, MonitorView>,
    attachment: AttachmentView,
    alive: Seq<u32>,
    serial: Seq<char>,
)
    ensures
        ({
            let step = reattach::attach_step(wm, cache, attachment, alive);
            &&& step.cache.contains_key(serial) <==> cache.contains_key(serial) && !(serial.len()
                > 0 && attachment.loaded == Some(serial))
            &&& step.cache.contains_key(serial) ==> step.cache[serial] == cache[serial]
        }),
{
}

} // verus!
