//! Commands that move the focus between monitors and workspaces.

use crate::message::SocketMessage;
use crate::operation::Operation;
use crate::process_command::plan;
use crate::process_command::plan::CommandPlan;
use crate::process_command::plan::CommandPlanView;
use crate::process_command::plan::CommandSight;
use crate::process_command::plan::CommandSightView;
use crate::process_command::transfer;
use crate::settings;
use crate::settings::CycleDirection;
use crate::window_manager::CommandError;
use crate::window_manager::MonitorView;
use crate::window_manager::WindowManager;
use crate::window_manager::WindowManagerView;
use crate::window_manager::Workspace;
use crate::window_manager::WorkspaceView;
use vstd::prelude::*;

verus! {

/// The cursor is on another monitor, whose focused workspace is empty.
pub open spec fn cursor_on_vacant_monitor(wm: WindowManagerView, cursor: Option<usize>) -> bool {
    match cursor {
        Some(m) => {
            &&& m != wm.focused_monitor
            &&& m < wm.monitors.len()
            &&& wm.monitors[m as int].focused() is Some
            &&& wm.monitors[m as int].focused()->0.vacant()
        },
        None => false,
    }
}

/// The focus follows the cursor to a monitor whose focused workspace is empty: nothing there
/// could have taken the focus by being clicked on.
pub open spec fn cursor_focus(wm: WindowManagerView, cursor: Option<usize>) -> WindowManagerView {
    if cursor_on_vacant_monitor(wm, cursor) {
        WindowManagerView { focused_monitor: cursor->0, ..wm }
    } else {
        wm
    }
}

/// A monitor is focused, and its workspace brought up.
pub open spec fn focus_monitor_effect(
    wm: WindowManagerView,
    m: usize,
) -> (WindowManagerView, CommandPlanView) {
    if m < wm.monitors.len() {
        (
            WindowManagerView { focused_monitor: m, ..wm },
            plan::plan_of(seq![Operation::UpdateFocusedWorkspace(wm.mouse_follows_focus, true)]),
        )
    } else {
        (wm, plan::plan_failure(CommandError::NotAMonitorIndex))
    }
}

/// The next monitor is focused.
pub open spec fn cycle_monitor_effect(
    wm: WindowManagerView,
    direction: CycleDirection,
) -> (WindowManagerView, CommandPlanView) {
    if wm.monitors.len() == 0 {
        (wm, plan::plan_failure(CommandError::AtLeastOneMonitor))
    } else {
        focus_monitor_effect(
            wm,
            settings::cycled(
                direction,
                wm.focused_monitor as int,
                wm.monitors.len() as int,
            ) as usize,
        )
    }
}

/// The next workspace of the focused monitor, or why there is none.
pub open spec fn next_workspace(wm: WindowManagerView, direction: CycleDirection) -> Result<
    usize,
    CommandError,
> {
    match wm.focused() {
        Some(monitor) => if monitor.workspaces.len() == 0 {
            Err(CommandError::AtLeastOneWorkspace)
        } else {
            Ok(
                settings::cycled(
                    direction,
                    monitor.focused_workspace as int,
                    monitor.workspaces.len() as int,
                ) as usize,
            )
        },
        None => Err(CommandError::NoMonitor),
    }
}

/// The next workspace is focused, on the monitor that the cursor is on if that is empty.
pub open spec fn cycle_workspace_effect(
    wm: WindowManagerView,
    direction: CycleDirection,
    cursor: Option<usize>,
) -> (WindowManagerView, CommandPlanView) {
    let there = cursor_focus(wm, cursor);
    (
        there,
        match next_workspace(there, direction) {
            Ok(w) => plan::plan_of(seq![Operation::FocusWorkspace(w)]),
            Err(error) => plan::plan_failure(error),
        },
    )
}

/// The first empty workspace at `w` or beyond it, taking at most `steps` steps.
pub open spec fn first_vacant(
    workspaces: Seq<WorkspaceView>,
    direction: CycleDirection,
    w: int,
    steps: nat,
) -> int
    decreases steps,
{
    if steps == 0 || workspaces[w].vacant() {
        w
    } else {
        first_vacant(
            workspaces,
            direction,
            settings::cycled(direction, w, workspaces.len() as int),
            (steps - 1) as nat,
        )
    }
}

/// Some workspace is empty.
pub open spec fn any_vacant(workspaces: Seq<WorkspaceView>) -> bool {
    exists|i: int| 0 <= i < workspaces.len() && (#[trigger] workspaces[i]).vacant()
}

/// The next empty workspace is focused. Where no workspace is empty nothing happens.
pub open spec fn cycle_empty_workspace_plan(
    wm: WindowManagerView,
    direction: CycleDirection,
) -> CommandPlanView {
    match wm.focused() {
        Some(monitor) => if any_vacant(monitor.workspaces) {
            let len = monitor.workspaces.len() as int;
            plan::plan_of(
                seq![
                    Operation::FocusWorkspace(
                        first_vacant(
                            monitor.workspaces,
                            direction,
                            settings::cycled(direction, monitor.focused_workspace as int, len),
                            len as nat,
                        ) as usize,
                    ),
                ],
            )
        } else {
            plan::plan_nothing()
        },
        None => plan::plan_failure(CommandError::NoMonitor),
    }
}

/// The monitor that the cursor is on is focused.
pub open spec fn cursor_monitor_effect(
    wm: WindowManagerView,
    cursor: Option<usize>,
) -> (WindowManagerView, CommandPlanView) {
    match cursor {
        Some(m) => if m < wm.monitors.len() {
            (WindowManagerView { focused_monitor: m, ..wm }, plan::plan_nothing())
        } else {
            (wm, plan::plan_failure(CommandError::NotAMonitorIndex))
        },
        None => (wm, plan::plan_nothing()),
    }
}

/// The workspace that had the focus before has it again, and the one that has it now is
/// remembered in its place.
pub open spec fn last_workspace_plan(wm: WindowManagerView) -> CommandPlanView {
    match wm.focused() {
        Some(monitor) => plan::plan_of(
            match monitor.last_focused_workspace {
                Some(last) => seq![
                    Operation::FocusWorkspace(last),
                    Operation::SetLastFocusedWorkspace(monitor.focused_workspace),
                ],
                None => seq![Operation::SetLastFocusedWorkspace(monitor.focused_workspace)],
            },
        ),
        None => plan::plan_failure(CommandError::NoMonitor),
    }
}

/// The operations that bring a workspace up on the monitors before `m`, but for the focused
/// one.
pub open spec fn bring_up_elsewhere(m: nat, focused: usize, w: usize) -> Seq<Operation>
    decreases m,
{
    if m == 0 {
        Seq::empty()
    } else if m - 1 == focused {
        bring_up_elsewhere((m - 1) as nat, focused, w)
    } else {
        bring_up_elsewhere((m - 1) as nat, focused, w).push(
            Operation::FocusMonitorWorkspace((m - 1) as usize, w),
        ).push(Operation::LoadFocusedWorkspace((m - 1) as usize, false))
    }
}

/// A workspace of a monitor is focused, unless it is already.
pub open spec fn monitor_workspace_effect(
    wm: WindowManagerView,
    m: usize,
    w: usize,
) -> (WindowManagerView, CommandPlanView) {
    if wm.focused_monitor == m && wm.workspace_idx_or_zero() == w {
        (wm, plan::plan_nothing())
    } else {
        go_to_effect(wm, m, w)
    }
}

/// A workspace of a monitor is focused.
pub open spec fn go_to_effect(
    wm: WindowManagerView,
    m: usize,
    w: usize,
) -> (WindowManagerView, CommandPlanView) {
    if m < wm.monitors.len() {
        (
            WindowManagerView { focused_monitor: m, ..wm },
            plan::plan_of(seq![Operation::FocusWorkspace(w)]),
        )
    } else {
        (wm, plan::plan_failure(CommandError::NotAMonitorIndex))
    }
}

/// The workspace that goes by a name is focused, if there is one.
pub open spec fn named_workspace_effect(
    wm: WindowManagerView,
    name: Seq<char>,
) -> (WindowManagerView, CommandPlanView) {
    match wm.named(name) {
        Some((m, w)) => go_to_effect(wm, m, w),
        None => (wm, plan::plan_nothing()),
    }
}

/// The focused workspace may be closed: it is empty, it has no name, and it is not the only
/// one.
pub open spec fn may_close(monitor: MonitorView) -> bool {
    &&& monitor.focused() is Some
    &&& monitor.workspaces.len() > 1
    &&& monitor.focused()->0.vacant()
    &&& monitor.focused()->0.name is None
}

/// The focused workspace is closed, if it may be, and the one before it is focused.
pub open spec fn close_workspace_effect(
    wm: WindowManagerView,
) -> (WindowManagerView, CommandPlanView) {
    match wm.focused() {
        Some(monitor) => if may_close(monitor) {
            let w = monitor.focused_workspace;
            (
                wm.with_monitor(
                    wm.focused_monitor as int,
                    MonitorView { workspaces: monitor.workspaces.remove(w as int), ..monitor },
                ),
                plan::plan_of(
                    seq![
                        Operation::FocusWorkspace(
                            if w == 0 {
                                0
                            } else {
                                (w - 1) as usize
                            },
                        ),
                    ],
                ),
            )
        } else {
            (wm, plan::plan_nothing())
        },
        None => (wm, plan::plan_nothing()),
    }
}

/// What a command that moves the focus comes to.
pub open spec fn focus_effect(
    wm: WindowManagerView,
    message: SocketMessage,
    sight: CommandSightView,
) -> (WindowManagerView, CommandPlanView) {
    match message {
        SocketMessage::CycleFocusMonitor(direction) => cycle_monitor_effect(wm, direction),
        SocketMessage::CycleFocusWorkspace(direction) => cycle_workspace_effect(
            wm,
            direction,
            sight.cursor_monitor_idx,
        ),
        SocketMessage::CycleFocusEmptyWorkspace(direction) => (
            wm,
            cycle_empty_workspace_plan(wm, direction),
        ),
        SocketMessage::FocusMonitorNumber(m) => focus_monitor_effect(wm, m),
        SocketMessage::FocusMonitorAtCursor => cursor_monitor_effect(wm, sight.cursor_monitor_idx),
        SocketMessage::FocusLastWorkspace => (wm, last_workspace_plan(wm)),
        SocketMessage::FocusWorkspaceNumber(w) => (
            wm,
            if wm.workspace_idx_or_zero() != w {
                plan::plan_of(seq![Operation::FocusWorkspace(w)])
            } else {
                plan::plan_nothing()
            },
        ),
        SocketMessage::FocusWorkspaceNumbers(w) => (
            wm,
            plan::plan_of(
                bring_up_elsewhere(wm.monitors.len(), wm.focused_monitor, w).push(
                    Operation::FocusWorkspace(w),
                ),
            ),
        ),
        SocketMessage::FocusMonitorWorkspaceNumber(m, w) => monitor_workspace_effect(wm, m, w),
        SocketMessage::FocusNamedWorkspace(name) => named_workspace_effect(wm, name@),
        SocketMessage::CloseWorkspace => close_workspace_effect(wm),
        _ => transfer::transfer_effect(wm, message, sight),
    }
}

fn any_workspace_vacant(workspaces: &Vec<Workspace>) -> (any: bool)
    ensures
        any == any_vacant(workspaces.deep_view()),
{
    let mut i: usize = 0;
    while i < workspaces.len()
        invariant
            i <= workspaces.len(),
            forall|k: int| 0 <= k < i ==> !(#[trigger] workspaces.deep_view()[k]).vacant(),
        decreases workspaces.len() - i,
    {
        if workspaces[i].is_empty() {
            assert(workspaces.deep_view()[i as int].vacant());
            return true;
        }
        i += 1;
    }
    false
}

fn seek_vacant(workspaces: &Vec<Workspace>, direction: CycleDirection, from: usize) -> (found:
    usize)
    requires
        from < workspaces.len(),
        any_vacant(workspaces.deep_view()),
    ensures
        found < workspaces.len(),
        found == first_vacant(
            workspaces.deep_view(),
            direction,
            from as int,
            workspaces.len() as nat,
        ),
{
    let ghost all = workspaces.deep_view();
    let ghost goal = choose|i: int| 0 <= i < all.len() && (#[trigger] all[i]).vacant();
    let ghost mut steps: nat = all.len();
    let mut w: usize = from;
    while !workspaces[w].is_empty()
        invariant
            all == workspaces.deep_view(),
            w < workspaces.len(),
            0 <= goal < all.len(),
            all[goal].vacant(),
            steps_between(direction, w as int, goal, all.len() as int) < steps,
            first_vacant(all, direction, from as int, all.len()) == first_vacant(
                all,
                direction,
                w as int,
                steps,
            ),
        decreases steps,
    {
        assert(!all[w as int].vacant());
        w = direction.next_idx(w, workspaces.len());
        proof {
            steps = (steps - 1) as nat;
        }
    }
    assert(all[w as int].vacant());
    w
}

impl WindowManager {
    /// Lets the focus follow the cursor to a monitor whose focused workspace is empty.
    pub(crate) fn follow_cursor(&mut self, cursor: Option<usize>)
        ensures
            final(self).deep_view() == cursor_focus(old(self).deep_view(), cursor),
    {
        if let Some(m) = cursor {
            if m != self.focused_monitor && m < self.monitors.len() {
                let vacant: bool = match self.monitors[m].focused() {
                    Some(workspace) => workspace.is_empty(),
                    None => false,
                };
                assert(self.deep_view().monitors[m as int] == self.monitors[m as int].deep_view());
                if vacant {
                    self.focused_monitor = m;
                }
            }
        }
    }

    fn go_to_monitor(&mut self, m: usize) -> (plan: CommandPlan)
        ensures
            (final(self).deep_view(), plan.deep_view()) == focus_monitor_effect(
                old(self).deep_view(),
                m,
            ),
    {
        match self.focus_monitor(m) {
            Ok(_) => CommandPlan::single(
                Operation::UpdateFocusedWorkspace(self.mouse_follows_focus, true),
            ),
            Err(error) => CommandPlan::failed(error),
        }
    }

    fn cycle_monitor(&mut self, direction: CycleDirection) -> (plan: CommandPlan)
        ensures
            (final(self).deep_view(), plan.deep_view()) == cycle_monitor_effect(
                old(self).deep_view(),
                direction,
            ),
    {
        if self.monitors.len() == 0 {
            return CommandPlan::failed(CommandError::AtLeastOneMonitor);
        }
        let m: usize = direction.next_idx(self.focused_monitor, self.monitors.len());
        self.go_to_monitor(m)
    }

    /// The next workspace of the focused monitor, or why there is none.
    pub(crate) fn next_workspace_idx(&self, direction: CycleDirection) -> (next: Result<
        usize,
        CommandError,
    >)
        ensures
            next == next_workspace(self.deep_view(), direction),
    {
        match self.focused() {
            Some(monitor) => {
                if monitor.workspaces.len() == 0 {
                    Err(CommandError::AtLeastOneWorkspace)
                } else {
                    Ok(direction.next_idx(monitor.focused_workspace, monitor.workspaces.len()))
                }
            },
            None => Err(CommandError::NoMonitor),
        }
    }

    fn cycle_workspace(&mut self, direction: CycleDirection, cursor: Option<usize>) -> (plan:
        CommandPlan)
        ensures
            (final(self).deep_view(), plan.deep_view()) == cycle_workspace_effect(
                old(self).deep_view(),
                direction,
                cursor,
            ),
    {
        self.follow_cursor(cursor);
        match self.next_workspace_idx(direction) {
            Ok(w) => CommandPlan::single(Operation::FocusWorkspace(w)),
            Err(error) => CommandPlan::failed(error),
        }
    }

    fn cycle_empty_workspace(&self, direction: CycleDirection) -> (plan: CommandPlan)
        ensures
            plan.deep_view() == cycle_empty_workspace_plan(self.deep_view(), direction),
    {
        match self.focused() {
            Some(monitor) => {
                if any_workspace_vacant(&monitor.workspaces) {
                    let from: usize = direction.next_idx(
                        monitor.focused_workspace,
                        monitor.workspaces.len(),
                    );
                    let w: usize = seek_vacant(&monitor.workspaces, direction, from);
                    CommandPlan::single(Operation::FocusWorkspace(w))
                } else {
                    CommandPlan::nothing()
                }
            },
            None => CommandPlan::failed(CommandError::NoMonitor),
        }
    }

    fn go_to_cursor_monitor(&mut self, cursor: Option<usize>) -> (plan: CommandPlan)
        ensures
            (final(self).deep_view(), plan.deep_view()) == cursor_monitor_effect(
                old(self).deep_view(),
                cursor,
            ),
    {
        match cursor {
            Some(m) => match self.focus_monitor(m) {
                Ok(_) => CommandPlan::nothing(),
                Err(error) => CommandPlan::failed(error),
            },
            None => CommandPlan::nothing(),
        }
    }

    fn go_to_last_workspace(&self) -> (plan: CommandPlan)
        ensures
            plan.deep_view() == last_workspace_plan(self.deep_view()),
    {
        match self.focused() {
            Some(monitor) => match monitor.last_focused_workspace {
                Some(last) => CommandPlan::pair(
                    Operation::FocusWorkspace(last),
                    Operation::SetLastFocusedWorkspace(monitor.focused_workspace),
                ),
                None => CommandPlan::single(
                    Operation::SetLastFocusedWorkspace(monitor.focused_workspace),
                ),
            },
            None => CommandPlan::failed(CommandError::NoMonitor),
        }
    }

    fn focused_idx_or_zero(&self) -> (w: usize)
        ensures
            w == self.deep_view().workspace_idx_or_zero(),
    {
        match self.focused() {
            Some(monitor) => monitor.focused_workspace,
            None => 0,
        }
    }

    fn go_to_workspace(&self, w: usize) -> (plan: CommandPlan)
        ensures
            plan.deep_view() == if self.deep_view().workspace_idx_or_zero() != w {
                plan::plan_of(seq![Operation::FocusWorkspace(w)])
            } else {
                plan::plan_nothing()
            },
    {
        if self.focused_idx_or_zero() != w {
            CommandPlan::single(Operation::FocusWorkspace(w))
        } else {
            CommandPlan::nothing()
        }
    }

    fn go_to_workspace_everywhere(&self, w: usize) -> (plan: CommandPlan)
        ensures
            plan.deep_view() == plan::plan_of(
                bring_up_elsewhere(self.monitors.len() as nat, self.focused_monitor, w).push(
                    Operation::FocusWorkspace(w),
                ),
            ),
    {
        let mut operations: Vec<Operation> = Vec::new();
        let mut m: usize = 0;
        while m < self.monitors.len()
            invariant
                m <= self.monitors.len(),
                operations@ == bring_up_elsewhere(m as nat, self.focused_monitor, w),
            decreases self.monitors.len() - m,
        {
            if m != self.focused_monitor {
                operations.push(Operation::FocusMonitorWorkspace(m, w));
                operations.push(Operation::LoadFocusedWorkspace(m, false));
            }
            m += 1;
        }
        operations.push(Operation::FocusWorkspace(w));
        CommandPlan::of(operations)
    }

    fn go_to(&mut self, m: usize, w: usize) -> (plan: CommandPlan)
        ensures
            (final(self).deep_view(), plan.deep_view()) == go_to_effect(
                old(self).deep_view(),
                m,
                w,
            ),
    {
        match self.focus_monitor(m) {
            Ok(_) => CommandPlan::single(Operation::FocusWorkspace(w)),
            Err(error) => CommandPlan::failed(error),
        }
    }

    fn go_to_monitor_workspace(&mut self, m: usize, w: usize) -> (plan: CommandPlan)
        ensures
            (final(self).deep_view(), plan.deep_view()) == monitor_workspace_effect(
                old(self).deep_view(),
                m,
                w,
            ),
    {
        if self.focused_monitor == m && self.focused_idx_or_zero() == w {
            CommandPlan::nothing()
        } else {
            self.go_to(m, w)
        }
    }

    fn go_to_named_workspace(&mut self, name: &str) -> (plan: CommandPlan)
        ensures
            (final(self).deep_view(), plan.deep_view()) == named_workspace_effect(
                old(self).deep_view(),
                name@,
            ),
    {
        match self.monitor_workspace_index_by_name(name) {
            Some((m, w)) => self.go_to(m, w),
            None => CommandPlan::nothing(),
        }
    }

    fn close_workspace(&mut self) -> (plan: CommandPlan)
        ensures
            (final(self).deep_view(), plan.deep_view()) == close_workspace_effect(
                old(self).deep_view(),
            ),
    {
        let w: usize = match self.focused() {
            Some(monitor) => {
                let closable: bool = match monitor.focused() {
                    Some(workspace) => monitor.workspaces.len() > 1 && workspace.is_empty()
                        && workspace.name.is_none(),
                    None => false,
                };
                if !closable {
                    return CommandPlan::nothing();
                }
                monitor.focused_workspace
            },
            None => {
                return CommandPlan::nothing();
            },
        };
        let m: usize = self.focused_monitor;
        let ghost there = self.deep_view().monitors[m as int];
        let monitor = self.monitor_mut(m);
        assert(monitor.deep_view() == there);
        let _ = monitor.workspaces.remove(w);
        assert(monitor.workspaces.deep_view() =~= there.workspaces.remove(w as int));
        CommandPlan::single(Operation::FocusWorkspace(w.saturating_sub(1)))
    }

    /// Carries out a command that moves the focus.
    pub fn focus_command(&mut self, message: SocketMessage, sight: &CommandSight) -> (plan:
        CommandPlan)
        ensures
            (final(self).deep_view(), plan.deep_view()) == focus_effect(
                old(self).deep_view(),
                message,
                sight.deep_view(),
            ),
    {
        match message {
            SocketMessage::CycleFocusMonitor(direction) => self.cycle_monitor(direction),
            SocketMessage::CycleFocusWorkspace(direction) => self.cycle_workspace(
                direction,
                sight.cursor_monitor_idx,
            ),
            SocketMessage::CycleFocusEmptyWorkspace(direction) => self.cycle_empty_workspace(
                direction,
            ),
            SocketMessage::FocusMonitorNumber(m) => self.go_to_monitor(m),
            SocketMessage::FocusMonitorAtCursor => self.go_to_cursor_monitor(
                sight.cursor_monitor_idx,
            ),
            SocketMessage::FocusLastWorkspace => self.go_to_last_workspace(),
            SocketMessage::FocusWorkspaceNumber(w) => self.go_to_workspace(w),
            SocketMessage::FocusWorkspaceNumbers(w) => self.go_to_workspace_everywhere(w),
            SocketMessage::FocusMonitorWorkspaceNumber(m, w) => self.go_to_monitor_workspace(m, w),
            SocketMessage::FocusNamedWorkspace(name) => self.go_to_named_workspace(name.as_str()),
            SocketMessage::CloseWorkspace => self.close_workspace(),
            message => self.transfer_command(message, sight),
        }
    }

    /// Remembers which workspace of the focused monitor had the focus.
    pub fn set_last_focused_workspace(&mut self, w: usize) -> (result: Result<(), CommandError>)
        ensures
            match old(self).deep_view().focused() {
                Some(monitor) => {
                    &&& result is Ok
                    &&& final(self).deep_view() == old(self).deep_view().with_monitor(
                        old(self).focused_monitor as int,
                        MonitorView { last_focused_workspace: Some(w), ..monitor },
                    )
                },
                None => {
                    &&& result == Err::<(), CommandError>(CommandError::NoMonitor)
                    &&& final(self).deep_view() == old(self).deep_view()
                },
            },
    {
        let m: usize = self.focused_monitor;
        if m < self.monitors.len() {
            self.monitor_mut(m).last_focused_workspace = Some(w);
            Ok(())
        } else {
            Err(CommandError::NoMonitor)
        }
    }
}

proof fn lemma_first_vacant(
    workspaces: Seq<WorkspaceView>,
    direction: CycleDirection,
    w: int,
    steps: nat,
    goal: int,
)
    requires
        0 <= w < workspaces.len(),
        0 <= goal < workspaces.len(),
        workspaces[goal].vacant(),
        steps_between(direction, w, goal, workspaces.len() as int) < steps,
    ensures
        0 <= first_vacant(workspaces, direction, w, steps) < workspaces.len(),
        workspaces[first_vacant(workspaces, direction, w, steps)].vacant(),
        steps_between(
            direction,
            w,
            first_vacant(workspaces, direction, w, steps),
            workspaces.len() as int,
        ) <= steps_between(direction, w, goal, workspaces.len() as int),
    decreases steps,
{
    if !workspaces[w].vacant() {
        let next = settings::cycled(direction, w, workspaces.len() as int);
        lemma_first_vacant(workspaces, direction, next, (steps - 1) as nat, goal);
    }
}

/// Cycling to an empty workspace always arrives at one, if there is any, and at the nearest
/// in the direction taken: no other empty workspace is fewer steps away.
pub proof fn law_cycling_finds_the_nearest_empty_workspace(
    workspaces: Seq<WorkspaceView>,
    direction: CycleDirection,
    from: int,
    other: int,
)
    requires
        0 <= from < workspaces.len(),
        0 <= other < workspaces.len(),
        workspaces[other].vacant(),
    ensures
        0 <= first_vacant(workspaces, direction, from, workspaces.len()) < workspaces.len(),
        workspaces[first_vacant(workspaces, direction, from, workspaces.len())].vacant(),
        steps_between(
            direction,
            from,
            first_vacant(workspaces, direction, from, workspaces.len()),
            workspaces.len() as int,
        ) <= steps_between(direction, from, other, workspaces.len() as int),
{
    lemma_first_vacant(workspaces, direction, from, workspaces.len(), other);
}

/// How many steps it takes to get from one index to another in a list that wraps around.
pub open spec fn steps_between(direction: CycleDirection, from: int, to: int, len: int) -> int {
    match direction {
        CycleDirection::Next => if to >= from {
            to - from
        } else {
            to - from + len
        },
        CycleDirection::Previous => if from >= to {
            from - to
        } else {
            from - to + len
        },
    }
}

/// Going back to the last workspace and back again ends where it began: each remembers the
/// other.
pub proof fn law_going_back_twice_returns(monitor: MonitorView, wm: WindowManagerView)
    requires
        wm.focused() == Some(monitor),
        monitor.last_focused_workspace is Some,
    ensures
        ({
            let last = monitor.last_focused_workspace->0;
            let there = wm.with_monitor(
                wm.focused_monitor as int,
                MonitorView {
                    focused_workspace: last,
                    last_focused_workspace: Some(monitor.focused_workspace),
                    ..monitor
                },
            );
            &&& last_workspace_plan(wm).operations == seq![
                Operation::FocusWorkspace(last),
                Operation::SetLastFocusedWorkspace(monitor.focused_workspace),
            ]
            &&& last_workspace_plan(there).operations == seq![
                Operation::FocusWorkspace(monitor.focused_workspace),
                Operation::SetLastFocusedWorkspace(last),
            ]
        }),
{
}

} // verus!
