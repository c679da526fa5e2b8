//! Commands: what each of them changes, and what it asks to have done.
//!
//! A command is decided in one go from the state and from what was seen when it came in.
//! What only touches the state is done at once; everything else becomes the plan that is
//! left behind, to be carried out in order. The kinds of commands are looked after one
//! module each, and each hands on what it does not know.

pub mod acting;
pub mod asking;
pub mod behaviour;
pub mod focus;
pub mod going;
pub mod layer;
pub mod looks;
pub mod plan;
pub mod questions;
pub mod rules;
pub mod ruling;
pub mod transfer;
pub mod tuning;
pub mod windows;
pub mod workspaces;

use crate::message::SocketMessage;
use crate::operation::Operation;
use crate::process_command::plan::CommandPlan;
use crate::process_command::plan::CommandPlanView;
use crate::process_command::plan::CommandSight;
use crate::process_command::plan::CommandSightView;
use crate::window_manager::CommandError;
use crate::window_manager::WindowManager;
use crate::window_manager::WindowManagerView;
use vstd::prelude::*;

verus! {

/// Another space is on the screen than the one that is managed.
pub open spec fn on_another_space(managed: Option<u64>, current: Option<u64>) -> bool {
    managed is Some && current is Some && managed->0 != current->0
}

/// Whether another space is on the screen than the one that is managed.
pub fn is_on_another_space(managed: Option<u64>, current: Option<u64>) -> (elsewhere: bool)
    ensures
        elsewhere == on_another_space(managed, current),
{
    match (managed, current) {
        (Some(managed), Some(current)) => managed != current,
        _ => false,
    }
}

/// What follows every command that succeeds.
pub open spec fn after_command() -> Seq<Operation> {
    seq![
        Operation::UpdateKnownWindowIds,
        Operation::NotifySubscribers,
        Operation::UpdateBorders,
    ]
}

/// A plan with what follows it, if it succeeds.
pub open spec fn completed(plan: CommandPlanView) -> CommandPlanView {
    match plan.failure {
        Some(_) => plan,
        None => CommandPlanView { operations: plan.operations + after_command(), ..plan },
    }
}

/// What a command comes to. While another space is on the screen every command is ignored;
/// and commands are refused while an unmanaged window is in front that they are not to act
/// on.
pub open spec fn command_effect(
    wm: WindowManagerView,
    message: SocketMessage,
    sight: CommandSightView,
) -> (WindowManagerView, CommandPlanView) {
    if on_another_space(wm.space_id, sight.current_space_id) {
        (wm, plan::plan_nothing())
    } else if sight.unmanaged_window_in_front {
        (wm, plan::plan_failure(CommandError::UnmanagedWindow))
    } else {
        let (after, plan) = windows::windows_effect(wm, message, sight);
        (after, completed(plan))
    }
}

fn complete(plan: CommandPlan) -> (whole: CommandPlan)
    ensures
        whole.deep_view() == completed(plan.deep_view()),
{
    let mut plan = plan;
    let ghost before = plan.deep_view();
    if plan.failure.is_none() {
        plan.operations.push(Operation::UpdateKnownWindowIds);
        plan.operations.push(Operation::NotifySubscribers);
        plan.operations.push(Operation::UpdateBorders);
        assert(plan.operations@ =~= before.operations + after_command());
    }
    plan
}

impl WindowManager {
    /// Carries out a command: changes the state, and leaves behind what is left to do.
    pub fn process_command(&mut self, message: SocketMessage, sight: &CommandSight) -> (plan:
        CommandPlan)
        ensures
            (final(self).deep_view(), plan.deep_view()) == command_effect(
                old(self).deep_view(),
                message,
                sight.deep_view(),
            ),
    {
        if is_on_another_space(self.space_id, sight.current_space_id) {
            return CommandPlan::nothing();
        }
        if sight.unmanaged_window_in_front {
            return CommandPlan::failed(CommandError::UnmanagedWindow);
        }
        complete(self.windows_command(message, sight))
    }
}

/// A command that fails is not followed by anything, and one that succeeds always ends with
/// the known windows, the subscribers and the borders being brought up to date.
pub proof fn law_only_success_is_followed_up(
    wm: WindowManagerView,
    message: SocketMessage,
    sight: CommandSightView,
)
    requires
        !on_another_space(wm.space_id, sight.current_space_id),
        !sight.unmanaged_window_in_front,
    ensures
        ({
            let plan = command_effect(wm, message, sight).1;
            let n = plan.operations.len();
            plan.failure is None ==> {
                &&& n >= 3
                &&& plan.operations.skip(n - 3) == after_command()
            }
        }),
{
    let plan = windows::windows_effect(wm, message, sight).1;
    let all = plan.operations + after_command();
    assert(all.skip(all.len() - 3) =~= after_command());
}

/// While another space is on the screen nothing changes and nothing is done, whatever is
/// asked for.
pub proof fn law_other_spaces_are_left_alone(
    wm: WindowManagerView,
    message: SocketMessage,
    sight: CommandSightView,
)
    requires
        on_another_space(wm.space_id, sight.current_space_id),
    ensures
        command_effect(wm, message, sight) == (wm, plan::plan_nothing()),
{
}

/// Asking for the cursor to decide focus, or not to, or for the opposite of what holds, gives
/// just that, and changes nothing else.
pub proof fn law_following_the_cursor_is_switched(
    wm: WindowManagerView,
    enable: bool,
    sight: CommandSightView,
)
    requires
        !on_another_space(wm.space_id, sight.current_space_id),
        !sight.unmanaged_window_in_front,
    ensures
        ({
            let (after, plan) = command_effect(
                wm,
                SocketMessage::FocusFollowsMouse(enable),
                sight,
            );
            &&& after.follower.enabled == enable
            &&& after == (WindowManagerView { follower: after.follower, ..wm })
            &&& plan.failure is None
        }),
        ({
            let (after, plan) = command_effect(wm, SocketMessage::ToggleFocusFollowsMouse, sight);
            &&& after.follower.enabled == !wm.follower.enabled
            &&& after == (WindowManagerView { follower: after.follower, ..wm })
            &&& plan.failure is None
        }),
{
}

/// Asking twice for the opposite of what holds of the cursor is the same as not asking at all.
pub proof fn law_switching_the_cursor_undoes_itself(wm: WindowManagerView, sight: CommandSightView)
    ensures
        windows::windows_effect(
            windows::windows_effect(wm, SocketMessage::ToggleFocusFollowsMouse, sight).0,
            SocketMessage::ToggleFocusFollowsMouse,
            sight,
        ).0 == wm,
{
}

/// Toggling twice is the same as not toggling at all.
pub proof fn law_toggles_undo_themselves(wm: WindowManagerView, sight: CommandSightView)
    ensures
        windows::windows_effect(
            windows::windows_effect(wm, SocketMessage::TogglePause, sight).0,
            SocketMessage::TogglePause,
            sight,
        ).0 == wm,
        windows::windows_effect(
            windows::windows_effect(wm, SocketMessage::ToggleMouseFollowsFocus, sight).0,
            SocketMessage::ToggleMouseFollowsFocus,
            sight,
        ).0 == wm,
        windows::windows_effect(
            windows::windows_effect(wm, SocketMessage::ToggleFloatOverride, sight).0,
            SocketMessage::ToggleFloatOverride,
            sight,
        ).0 == wm,
        windows::windows_effect(
            windows::windows_effect(wm, SocketMessage::ToggleWindowContainerBehaviour, sight).0,
            SocketMessage::ToggleWindowContainerBehaviour,
            sight,
        ).0 == wm,
        windows::windows_effect(
            windows::windows_effect(wm, SocketMessage::ToggleMonocleFocusBehaviour, sight).0,
            SocketMessage::ToggleMonocleFocusBehaviour,
            sight,
        ).0 == wm,
        windows::windows_effect(
            windows::windows_effect(wm, SocketMessage::ToggleCrossMonitorMoveBehaviour, sight).0,
            SocketMessage::ToggleCrossMonitorMoveBehaviour,
            sight,
        ).0 == wm,
{
}

} // verus!
