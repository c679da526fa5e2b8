//! Windows that have gone are taken out.

use crate::operation::Operation;
use crate::process_command::plan;
use crate::process_command::plan::CommandPlan;
use crate::process_command::plan::CommandPlanView;
use crate::sequences;
use crate::window_manager;
use crate::window_manager::Container;
use crate::window_manager::ContainerView;
use crate::window_manager::Monitor;
use crate::window_manager::MonitorView;
use crate::window_manager::Window;
use crate::window_manager::WindowManager;
use crate::window_manager::WindowManagerView;
use crate::window_manager::Workspace;
use crate::window_manager::WorkspaceView;
use vstd::prelude::*;

verus! {

/// Word to the reaper.
#[derive(Clone, Copy, Debug, PartialEq, Eq, Structural)]
pub enum ReaperNotification {
    /// A window could not be reached.
    InvalidWindow(u32),
    /// A mouse button or a key was let go of.
    MouseUpKeyUp,
}

/// Whether the screen is covered: a screensaver is up, or the machine has locked or slept.
///
/// While it is, windows are out of reach, and every call about them fails the way a call about
/// a window that has gone does. That is not evidence of anything: the windows are where they
/// were, behind whatever is covering them.
#[derive(Clone, Copy, Debug, PartialEq, Eq, Structural)]
pub struct Screen {
    pub covered: bool,
}

/// Notes that the screen is covered: nothing is reaped from now on.
pub fn note_screen_covered(screen: &mut Screen)
    ensures
        final(screen).covered,
{
    screen.covered = true;
}

/// Notes that the screen is no longer covered, and says whether it was.
pub fn note_screen_returned(screen: &mut Screen) -> (was_covered: bool)
    ensures
        !final(screen).covered,
        was_covered == old(screen).covered,
{
    let was_covered: bool = screen.covered;
    screen.covered = false;
    was_covered
}

/// Whether the screen is covered.
pub fn screen_is_covered(screen: &Screen) -> (covered: bool)
    ensures
        covered == screen.covered,
{
    screen.covered
}

/// What is left to be said of a window that a call has failed for.
#[derive(Clone, Copy, Debug, PartialEq, Eq, Structural)]
pub struct FailedWindow {
    pub id: u32,
    /// The window still answers.
    pub is_valid: bool,
    /// Whether the window fills the screen, where it says so.
    pub is_fullscreen: Option<bool>,
}

/// A failed call is taken to mean that the window has gone: the screen is not covered, the
/// window does not answer, and it does not fill the screen, where such calls fail too.
pub open spec fn counts_as_gone(screen: Screen, window: FailedWindow) -> bool {
    &&& !screen.covered
    &&& !window.is_valid
    &&& window.is_fullscreen != Some(true)
}

/// What the reaper is told when a call about a window has come to something.
pub fn notify_on_error(screen: &Screen, window: FailedWindow, failed: bool) -> (notification:
    Option<ReaperNotification>)
    ensures
        notification == if failed && counts_as_gone(*screen, window) {
            Some(ReaperNotification::InvalidWindow(window.id))
        } else {
            None
        },
{
    let is_fullscreen: bool = match window.is_fullscreen {
        Some(is_fullscreen) => is_fullscreen,
        None => false,
    };
    if failed && !screen_is_covered(screen) && !window.is_valid && !is_fullscreen {
        Some(ReaperNotification::InvalidWindow(window.id))
    } else {
        None
    }
}

/// The window is another one.
pub open spec fn is_another(id: u32) -> spec_fn(Window) -> bool {
    |window: Window| window.id != id
}

/// A container without a window.
pub open spec fn reaped_container(container: ContainerView, id: u32) -> ContainerView {
    ContainerView { windows: container.windows.filter(is_another(id)), ..container }
}

/// A workspace without a window. A monocle container that is left empty goes too.
pub open spec fn reaped_workspace(workspace: WorkspaceView, id: u32) -> WorkspaceView {
    let emptied = workspace.monocle_container matches Some(monocle) && reaped_container(
        monocle,
        id,
    ).windows.len() == 0;
    WorkspaceView {
        containers: workspace.containers.map_values(
            |container: ContainerView| reaped_container(container, id),
        ),
        monocle_container: match workspace.monocle_container {
            Some(monocle) => if emptied {
                None
            } else {
                Some(reaped_container(monocle, id))
            },
            None => None,
        },
        monocle_container_restore_idx: if emptied {
            None
        } else {
            workspace.monocle_container_restore_idx
        },
        floating_windows: workspace.floating_windows.filter(is_another(id)),
        ..workspace
    }
}

/// A monitor without a window.
pub open spec fn reaped_monitor(monitor: MonitorView, id: u32) -> MonitorView {
    MonitorView {
        workspaces: monitor.workspaces.map_values(
            |workspace: WorkspaceView| reaped_workspace(workspace, id),
        ),
        ..monitor
    }
}

/// The state without a window.
pub open spec fn reaped(wm: WindowManagerView, id: u32) -> WindowManagerView {
    WindowManagerView {
        monitors: wm.monitors.map_values(|monitor: MonitorView| reaped_monitor(monitor, id)),
        ..wm
    }
}

/// There is a window with this id to take out of a workspace.
pub open spec fn can_reap_from(workspace: WorkspaceView, id: u32) -> bool {
    ||| exists|c: int|
        0 <= c < workspace.containers.len() && window_manager::has_id(
            (#[trigger] workspace.containers[c]).windows,
            id,
        )
    ||| match workspace.monocle_container {
        Some(monocle) => window_manager::has_id(monocle.windows, id),
        None => false,
    }
    ||| window_manager::has_id(workspace.floating_windows, id)
}

/// There is a window with this id to take out of a monitor.
pub open spec fn can_reap_from_monitor(monitor: MonitorView, id: u32) -> bool {
    exists|w: int|
        0 <= w < monitor.workspaces.len() && can_reap_from(#[trigger] monitor.workspaces[w], id)
}

/// There is a window with this id to take out.
pub open spec fn can_reap(wm: WindowManagerView, id: u32) -> bool {
    exists|m: int|
        0 <= m < wm.monitors.len() && can_reap_from_monitor(#[trigger] wm.monitors[m], id)
}

/// What a word to the reaper comes to.
pub open spec fn reaper_effect(
    wm: WindowManagerView,
    screen: Screen,
    notification: ReaperNotification,
) -> (WindowManagerView, CommandPlanView) {
    if wm.is_paused {
        (wm, plan::plan_nothing())
    } else {
        match notification {
            ReaperNotification::MouseUpKeyUp => (
                wm,
                plan::plan_of(seq![Operation::UpdateFocusedWorkspace(false, false)]),
            ),
            ReaperNotification::InvalidWindow(id) => if screen.covered {
                (wm, plan::plan_nothing())
            } else {
                (
                    reaped(wm, id),
                    if can_reap(wm, id) {
                        plan::plan_of(
                            seq![
                                Operation::UpdateFocusedWorkspace(false, false),
                                Operation::UpdateBordersAfterReaping(id),
                            ],
                        )
                    } else {
                        plan::plan_nothing()
                    },
                )
            },
        }
    }
}

fn take_out(windows: &mut Vec<Window>, id: u32) -> (found: bool)
    ensures
        final(windows)@ == old(windows)@.filter(is_another(id)),
        found == window_manager::has_id(old(windows)@, id),
{
    let ghost all = windows@;
    let ghost keep = is_another(id);
    let found: bool = window_manager::contains_id(&*windows, id);
    let ghost mut seen: int = 0;
    let mut i: usize = 0;
    proof {
        reveal(Seq::filter);
        assert(all.take(0).filter(keep) + all.skip(0) =~= all);
    }
    while i < windows.len()
        invariant
            0 <= seen <= all.len(),
            i == all.take(seen).filter(keep).len(),
            keep == is_another(id),
            windows@ == all.take(seen).filter(keep) + all.skip(seen),
        decreases all.len() - seen,
    {
        let ghost kept = all.take(seen).filter(keep);
        let ghost current = windows@;
        assert(current[i as int] == all[seen]);
        proof {
            sequences::lemma_filter_step(all, keep, seen);
        }
        if windows[i].id != id {
            i += 1;
            assert(kept.push(all[seen]) + all.skip(seen + 1) =~= kept + all.skip(seen));
        } else {
            let _ = windows.remove(i);
            assert(windows@ =~= current.remove(i as int));
            assert(current.remove(i as int) =~= kept + all.skip(seen + 1));
        }
        proof {
            seen = seen + 1;
        }
    }
    proof {
        assert(seen == all.len());
        assert(all.take(seen) =~= all);
        assert(windows@ =~= all.filter(keep));
    }
    found
}

fn reap_containers(containers: &mut Vec<Container>, id: u32) -> (found: bool)
    ensures
        final(containers).deep_view() == old(containers).deep_view().map_values(
            |container: ContainerView| reaped_container(container, id),
        ),
        found == exists|c: int|
            0 <= c < old(containers).len() && window_manager::has_id(
                (#[trigger] old(containers).deep_view()[c]).windows,
                id,
            ),
{
    let ghost before = containers.deep_view();
    let ghost all = before.map_values(|container: ContainerView| reaped_container(container, id));
    let mut found: bool = false;
    let mut c: usize = 0;
    while c < containers.len()
        invariant
            c <= containers.len(),
            containers.len() == before.len(),
            all.len() == before.len(),
            forall|k: int|
                0 <= k < all.len() ==> #[trigger] all[k] == reaped_container(before[k], id),
            containers.deep_view() =~= all.take(c as int) + before.skip(c as int),
            found == exists|k: int|
                0 <= k < c && window_manager::has_id((#[trigger] before[k]).windows, id),
        decreases containers.len() - c,
    {
        let ghost now = containers.deep_view();
        assert(now[c as int] == before[c as int]);
        assert(containers[c as int].deep_view() == before[c as int]);
        let here: bool = take_out(&mut containers[c].windows, id);
        assert(containers.deep_view() =~= now.update(c as int, all[c as int]));
        if here {
            assert(window_manager::has_id(before[c as int].windows, id));
            found = true;
        }
        c += 1;
    }
    assert(containers.deep_view() =~= all);
    found
}

fn reap_workspace(workspace: &mut Workspace, id: u32) -> (found: bool)
    ensures
        final(workspace).deep_view() == reaped_workspace(old(workspace).deep_view(), id),
        found == can_reap_from(old(workspace).deep_view(), id),
{
    let tiled: bool = reap_containers(&mut workspace.containers, id);
    let mut covering: bool = false;
    let mut emptied: bool = false;
    if let Some(monocle) = &mut workspace.monocle_container {
        covering = take_out(&mut monocle.windows, id);
        emptied = monocle.windows.len() == 0;
    }
    if emptied {
        workspace.monocle_container = None;
        workspace.monocle_container_restore_idx = None;
    }
    let floating: bool = take_out(&mut workspace.floating_windows, id);
    tiled || covering || floating
}

fn reap_monitor(monitor: &mut Monitor, id: u32) -> (found: bool)
    ensures
        final(monitor).deep_view() == reaped_monitor(old(monitor).deep_view(), id),
        found == can_reap_from_monitor(old(monitor).deep_view(), id),
{
    let ghost before = monitor.deep_view();
    let ghost all = reaped_monitor(before, id).workspaces;
    let mut found: bool = false;
    let mut w: usize = 0;
    while w < monitor.workspaces.len()
        invariant
            w <= monitor.workspaces.len(),
            monitor.workspaces.len() == before.workspaces.len(),
            all.len() == before.workspaces.len(),
            forall|k: int|
                0 <= k < all.len() ==> #[trigger] all[k] == reaped_workspace(
                    before.workspaces[k],
                    id,
                ),
            monitor.deep_view() == (MonitorView {
                workspaces: monitor.deep_view().workspaces,
                ..before
            }),
            monitor.deep_view().workspaces =~= all.take(w as int) + before.workspaces.skip(
                w as int,
            ),
            found == exists|k: int|
                0 <= k < w && can_reap_from(#[trigger] before.workspaces[k], id),
        decreases monitor.workspaces.len() - w,
    {
        let ghost now = monitor.deep_view();
        assert(now.workspaces[w as int] == before.workspaces[w as int]);
        assert(monitor.workspaces[w as int].deep_view() == before.workspaces[w as int]);
        let here: bool = reap_workspace(monitor.workspace_mut(w), id);
        assert(monitor.deep_view().workspaces =~= now.workspaces.update(w as int, all[w as int]));
        if here {
            assert(can_reap_from(before.workspaces[w as int], id));
            found = true;
        }
        w += 1;
    }
    assert(monitor.deep_view().workspaces =~= all);
    found
}

impl WindowManager {
    fn reap(&mut self, id: u32) -> (found: bool)
        ensures
            final(self).deep_view() == reaped(old(self).deep_view(), id),
            found == can_reap(old(self).deep_view(), id),
    {
        let ghost before = self.deep_view();
        let ghost all = reaped(before, id).monitors;
        let mut found: bool = false;
        let mut m: usize = 0;
        while m < self.monitors.len()
            invariant
                m <= self.monitors.len(),
                self.monitors.len() == before.monitors.len(),
                all.len() == before.monitors.len(),
                forall|k: int|
                    0 <= k < all.len() ==> #[trigger] all[k] == reaped_monitor(
                        before.monitors[k],
                        id,
                    ),
                self.deep_view() == (WindowManagerView {
                    monitors: self.deep_view().monitors,
                    ..before
                }),
                self.deep_view().monitors =~= all.take(m as int) + before.monitors.skip(m as int),
                found == exists|k: int|
                    0 <= k < m && can_reap_from_monitor(#[trigger] before.monitors[k], id),
            decreases self.monitors.len() - m,
        {
            let ghost now = self.deep_view();
            assert(now.monitors[m as int] == before.monitors[m as int]);
            assert(self.monitors[m as int].deep_view() == before.monitors[m as int]);
            let here: bool = reap_monitor(self.monitor_mut(m), id);
            assert(self.deep_view().monitors =~= now.monitors.update(m as int, all[m as int]));
            if here {
                assert(can_reap_from_monitor(before.monitors[m as int], id));
                found = true;
            }
            m += 1;
        }
        assert(self.deep_view().monitors =~= all);
        found
    }

    /// Takes a window out that has gone, wherever it is, unless the screen is covered. Letting
    /// go of a button or a key lays the focused workspace out again, which brings windows to
    /// light that can no longer be reached.
    pub fn handle_reaper_notification(
        &mut self,
        screen: &Screen,
        notification: ReaperNotification,
    ) -> (plan: CommandPlan)
        ensures
            (final(self).deep_view(), plan.deep_view()) == reaper_effect(
                old(self).deep_view(),
                *screen,
                notification,
            ),
    {
        if self.is_paused {
            return CommandPlan::nothing();
        }
        match notification {
            ReaperNotification::MouseUpKeyUp => CommandPlan::single(
                Operation::UpdateFocusedWorkspace(false, false),
            ),
            ReaperNotification::InvalidWindow(id) => {
                if screen_is_covered(screen) {
                    return CommandPlan::nothing();
                }
                if self.reap(id) {
                    CommandPlan::pair(
                        Operation::UpdateFocusedWorkspace(false, false),
                        Operation::UpdateBordersAfterReaping(id),
                    )
                } else {
                    CommandPlan::nothing()
                }
            },
        }
    }
}

/// While the screen is covered nothing is reaped, and no failed call is taken to mean that a
/// window has gone.
pub proof fn law_a_covered_screen_keeps_every_window(
    wm: WindowManagerView,
    notification: ReaperNotification,
    window: FailedWindow,
)
    ensures
        reaper_effect(wm, Screen { covered: true }, notification).0 == wm,
        !counts_as_gone(Screen { covered: true }, window),
{
}

proof fn lemma_taken_out(windows: Seq<Window>, id: u32, other: u32)
    ensures
        !window_manager::has_id(windows.filter(is_another(id)), id),
        other != id ==> window_manager::has_id(windows.filter(is_another(id)), other)
            == window_manager::has_id(windows, other),
{
    let kept = windows.filter(is_another(id));
    if window_manager::has_id(kept, id) {
        let i = choose|i: int| 0 <= i < kept.len() && (#[trigger] kept[i]).id == id;
        assert(kept.contains(kept[i]));
        sequences::lemma_filter_contains(windows, is_another(id), kept[i]);
    }
    if other != id && window_manager::has_id(kept, other) {
        let i = choose|i: int| 0 <= i < kept.len() && (#[trigger] kept[i]).id == other;
        assert(kept.contains(kept[i]));
        sequences::lemma_filter_contains(windows, is_another(id), kept[i]);
        let j = choose|j: int| 0 <= j < windows.len() && windows[j] == kept[i];
        assert(windows[j].id == other);
    }
    if other != id && window_manager::has_id(windows, other) {
        let j = choose|j: int| 0 <= j < windows.len() && (#[trigger] windows[j]).id == other;
        assert(windows.contains(windows[j]));
        sequences::lemma_filter_contains(windows, is_another(id), windows[j]);
        let i = choose|i: int| 0 <= i < kept.len() && kept[i] == windows[j];
        assert(kept[i].id == other);
    }
}

/// A window that was reaped is in no container and not among the floating windows of any
/// workspace, and every other window is where it was.
pub proof fn law_only_the_reaped_window_goes(workspace: WorkspaceView, id: u32, other: u32)
    ensures
        !can_reap_from(reaped_workspace(workspace, id), id),
        other != id ==> can_reap_from(reaped_workspace(workspace, id), other) == can_reap_from(
            workspace,
            other,
        ),
{
    let after = reaped_workspace(workspace, id);
    lemma_taken_out(workspace.floating_windows, id, other);
    if let Some(monocle) = workspace.monocle_container {
        lemma_taken_out(monocle.windows, id, other);
    }
    assert forall|c: int| 0 <= c < workspace.containers.len() implies {
        &&& !window_manager::has_id((#[trigger] after.containers[c]).windows, id)
        &&& other != id ==> window_manager::has_id(after.containers[c].windows, other)
            == window_manager::has_id(workspace.containers[c].windows, other)
    } by {
        lemma_taken_out(workspace.containers[c].windows, id, other);
    }
    if other != id {
        if exists|c: int|
            0 <= c < workspace.containers.len() && window_manager::has_id(
                (#[trigger] workspace.containers[c]).windows,
                other,
            ) {
            let c = choose|c: int|
                0 <= c < workspace.containers.len() && window_manager::has_id(
                    (#[trigger] workspace.containers[c]).windows,
                    other,
                );
            assert(window_manager::has_id(after.containers[c].windows, other));
        }
        if exists|c: int|
            0 <= c < after.containers.len() && window_manager::has_id(
                (#[trigger] after.containers[c]).windows,
                other,
            ) {
            let c = choose|c: int|
                0 <= c < after.containers.len() && window_manager::has_id(
                    (#[trigger] after.containers[c]).windows,
                    other,
                );
            assert(window_manager::has_id(workspace.containers[c].windows, other));
        }
    }
}


/// A window counts as gone only if it does not answer, is not known to fill the screen, and nothing
/// covers the screen.
pub proof fn law_only_silent_windows_count_as_gone(screen: Screen, window: FailedWindow)
    ensures
        counts_as_gone(screen, window) <==> !screen.covered && !window.is_valid && !(
        window.is_fullscreen is Some && window.is_fullscreen->0),
{
}

/// A workspace has lost the windows with an id and nothing else. Each container keeps its id, its
/// focus, its lock and its other windows; a container in monocle mode that has no window left is gone,
/// and with it where it was to go back to.
pub open spec fn has_lost(now: WorkspaceView, before: WorkspaceView, id: u32, window: Window) -> bool {
    let emptied = before.monocle_container is Some && forall|i: int|
        0 <= i < before.monocle_container->0.windows.len() ==> (
        #[trigger] before.monocle_container->0.windows[i]).id == id;
    &&& now.containers.len() == before.containers.len()
    &&& forall|c: int|
        0 <= c < before.containers.len() ==> {
            &&& (#[trigger] now.containers[c]).id == before.containers[c].id
            &&& now.containers[c].focused_window == before.containers[c].focused_window
            &&& now.containers[c].locked == before.containers[c].locked
            &&& now.containers[c].windows.contains(window) <==> before.containers[c].windows.contains(
                window,
            ) && window.id != id
        }
    &&& now.floating_windows.contains(window) <==> before.floating_windows.contains(window)
        && window.id != id
    &&& now.monocle_container is None <==> before.monocle_container is None || emptied
    &&& now.monocle_container is Some ==> (now.monocle_container->0.windows.contains(window)
        <==> before.monocle_container->0.windows.contains(window) && window.id != id)
    &&& now.monocle_container_restore_idx == if emptied {
        None
    } else {
        before.monocle_container_restore_idx
    }
    &&& now == (WorkspaceView {
        containers: now.containers,
        floating_windows: now.floating_windows,
        monocle_container: now.monocle_container,
        monocle_container_restore_idx: now.monocle_container_restore_idx,
        ..before
    })
}

proof fn lemma_has_lost(before: WorkspaceView, id: u32, window: Window)
    ensures
        has_lost(reaped_workspace(before, id), before, id, window),
{
    let now = reaped_workspace(before, id);
    assert forall|c: int| 0 <= c < before.containers.len() implies #[trigger] now.containers[c].windows.contains(
        window,
    ) == (before.containers[c].windows.contains(window) && window.id != id) by {
        sequences::lemma_filter_contains(before.containers[c].windows, is_another(id), window);
    }
    assert forall|c: int| 0 <= c < before.containers.len() implies {
        &&& (#[trigger] now.containers[c]).id == before.containers[c].id
        &&& now.containers[c].windows.contains(window) == (before.containers[c].windows.contains(
            window,
        ) && window.id != id)
    } by {
        assert(now.containers[c].windows.contains(window) == (before.containers[c].windows.contains(
            window,
        ) && window.id != id));
    }
    sequences::lemma_filter_contains(before.floating_windows, is_another(id), window);
    if let Some(monocle) = before.monocle_container {
        let kept = monocle.windows.filter(is_another(id));
        sequences::lemma_filter_contains(monocle.windows, is_another(id), window);
        if kept.len() > 0 {
            assert(kept.contains(kept[0]));
            sequences::lemma_filter_contains(monocle.windows, is_another(id), kept[0]);
            let i = choose|i: int| 0 <= i < monocle.windows.len() && monocle.windows[i] == kept[0];
            assert(monocle.windows[i].id != id);
        } else {
            assert forall|i: int| 0 <= i < monocle.windows.len() implies (
            #[trigger] monocle.windows[i]).id == id by {
                assert(monocle.windows.contains(monocle.windows[i]));
                sequences::lemma_filter_contains(
                    monocle.windows,
                    is_another(id),
                    monocle.windows[i],
                );
            }
        }
    }
}

/// A window that has gone is taken out of every workspace, and nothing else is changed. The workspace
/// and the borders are updated if it was anywhere.
pub proof fn law_a_gone_window_is_taken_out_everywhere(
    wm: WindowManagerView,
    id: u32,
    m: int,
    w: int,
    window: Window,
)
    requires
        !wm.is_paused,
        0 <= m < wm.monitors.len(),
        0 <= w < wm.monitors[m].workspaces.len(),
    ensures
        ({
            let (after, plan) = reaper_effect(
                wm,
                Screen { covered: false },
                ReaperNotification::InvalidWindow(id),
            );
            let before = wm.monitors[m];
            let now = after.monitors[m];
            &&& after == (WindowManagerView { monitors: after.monitors, ..wm })
            &&& after.monitors.len() == wm.monitors.len()
            &&& now == (MonitorView { workspaces: now.workspaces, ..before })
            &&& now.workspaces.len() == before.workspaces.len()
            &&& has_lost(now.workspaces[w], before.workspaces[w], id, window)
            &&& plan.failure is None
            &&& plan.operations =~= if can_reap(wm, id) {
                seq![
                    Operation::UpdateFocusedWorkspace(false, false),
                    Operation::UpdateBordersAfterReaping(id),
                ]
            } else {
                Seq::empty()
            }
        }),
{
    lemma_has_lost(wm.monitors[m].workspaces[w], id, window);
}

/// There is a window to take out exactly if some container, some container in monocle mode or the
/// floating windows of some workspace hold one with the id.
pub proof fn law_a_window_can_be_taken_out_where_it_is(wm: WindowManagerView, id: u32)
    ensures
        can_reap(wm, id) <==> exists|m: int, w: int|
            {
                &&& 0 <= m < wm.monitors.len()
                &&& 0 <= w < wm.monitors[m].workspaces.len()
                &&& crate::monitor_reconciliator::leaving::stands_on_workspace(
                    #[trigger] wm.monitors[m].workspaces[w],
                    id,
                )
            },
{
    assert forall|workspace: WorkspaceView| #[trigger]
        crate::monitor_reconciliator::leaving::stands_on_workspace(workspace, id) == can_reap_from(
            workspace,
            id,
        ) by {
        lemma_stands(workspace, id);
    }
    if can_reap(wm, id) {
        let m = choose|m: int|
            0 <= m < wm.monitors.len() && can_reap_from_monitor(#[trigger] wm.monitors[m], id);
        let w = choose|w: int|
            0 <= w < wm.monitors[m].workspaces.len() && can_reap_from(
                #[trigger] wm.monitors[m].workspaces[w],
                id,
            );
        assert(crate::monitor_reconciliator::leaving::stands_on_workspace(
            wm.monitors[m].workspaces[w],
            id,
        ));
    }
    if exists|m: int, w: int|
        {
            &&& 0 <= m < wm.monitors.len()
            &&& 0 <= w < wm.monitors[m].workspaces.len()
            &&& crate::monitor_reconciliator::leaving::stands_on_workspace(
                #[trigger] wm.monitors[m].workspaces[w],
                id,
            )
        } {
        let (m, w) = choose|m: int, w: int|
            {
                &&& 0 <= m < wm.monitors.len()
                &&& 0 <= w < wm.monitors[m].workspaces.len()
                &&& crate::monitor_reconciliator::leaving::stands_on_workspace(
                    #[trigger] wm.monitors[m].workspaces[w],
                    id,
                )
            };
        assert(can_reap_from(wm.monitors[m].workspaces[w], id));
        assert(can_reap_from_monitor(wm.monitors[m], id));
    }
}

proof fn lemma_stands(workspace: WorkspaceView, id: u32)
    ensures
        crate::monitor_reconciliator::leaving::stands_on_workspace(workspace, id)
            == can_reap_from(workspace, id),
{
    assert forall|windows: Seq<Window>| #[trigger]
        crate::process_event::dragging::is_among(windows, id) == window_manager::has_id(
            windows,
            id,
        ) by {}
    if can_reap_from(workspace, id) && exists|c: int|
        0 <= c < workspace.containers.len() && window_manager::has_id(
            (#[trigger] workspace.containers[c]).windows,
            id,
        ) {
        let c = choose|c: int|
            0 <= c < workspace.containers.len() && window_manager::has_id(
                (#[trigger] workspace.containers[c]).windows,
                id,
            );
        assert(crate::process_event::dragging::is_among(workspace.containers[c].windows, id));
    }
    if exists|c: int|
        0 <= c < workspace.containers.len() && crate::process_event::dragging::is_among(
            (#[trigger] workspace.containers[c]).windows,
            id,
        ) {
        let c = choose|c: int|
            0 <= c < workspace.containers.len() && crate::process_event::dragging::is_among(
                (#[trigger] workspace.containers[c]).windows,
                id,
            );
        assert(window_manager::has_id(workspace.containers[c].windows, id));
    }
    if let Some(monocle) = workspace.monocle_container {
        assert(crate::process_event::dragging::is_among(monocle.windows, id)
            == window_manager::has_id(monocle.windows, id));
    }
    assert(crate::process_event::dragging::is_among(workspace.floating_windows, id)
        == window_manager::has_id(workspace.floating_windows, id));
}

/// While everything is paused nothing is done. Otherwise letting go of the mouse or of a key updates
/// the workspace.
pub proof fn law_a_pause_keeps_the_reaper_off(
    wm: WindowManagerView,
    screen: Screen,
    notification: ReaperNotification,
)
    ensures
        wm.is_paused ==> reaper_effect(wm, screen, notification).0 == wm && reaper_effect(
            wm,
            screen,
            notification,
        ).1.operations.len() == 0,
        !wm.is_paused ==> reaper_effect(wm, screen, ReaperNotification::MouseUpKeyUp).0 == wm
            && reaper_effect(wm, screen, ReaperNotification::MouseUpKeyUp).1.operations =~= seq![
            Operation::UpdateFocusedWorkspace(false, false),
        ],
{
}

} // verus!
