//! What a command comes to: the plan it leaves behind, and what was seen before it.

use crate::geometry::Rect;
use crate::operation::Operation;
use crate::settings::WindowAttributes;
use crate::settings::WindowAttributesView;
use crate::settings::WorkspaceWindowLocation;
use crate::window_manager::CommandError;
use vstd::prelude::*;

verus! {

/// What is left to do for a command: the operations to carry out, in order; the text to
/// reply with, before anything else; and what the command fails with once they are done.
pub struct CommandPlan {
    pub operations: Vec<Operation>,
    pub reply: Option<String>,
    pub failure: Option<CommandError>,
}

/// The value of a [`CommandPlan`].
#[verifier::ext_equal]
pub struct CommandPlanView {
    pub operations: Seq<Operation>,
    pub reply: Option<Seq<char>>,
    pub failure: Option<CommandError>,
}

impl DeepView for CommandPlan {
    type V = CommandPlanView;

    open spec fn deep_view(&self) -> CommandPlanView {
        CommandPlanView {
            operations: self.operations@,
            reply: self.reply.deep_view(),
            failure: self.failure,
        }
    }
}

/// A plan of these operations.
pub open spec fn plan_of(operations: Seq<Operation>) -> CommandPlanView {
    CommandPlanView { operations, reply: None, failure: None }
}

/// A plan of nothing.
pub open spec fn plan_nothing() -> CommandPlanView {
    plan_of(Seq::empty())
}

/// A command that fails before anything is done.
pub open spec fn plan_failure(error: CommandError) -> CommandPlanView {
    CommandPlanView { operations: Seq::empty(), reply: None, failure: Some(error) }
}

/// A command that is answered with a text.
pub open spec fn plan_reply(text: Seq<char>) -> CommandPlanView {
    CommandPlanView { operations: Seq::empty(), reply: Some(text), failure: None }
}

impl CommandPlan {
    /// A plan of these operations.
    pub fn of(operations: Vec<Operation>) -> (plan: Self)
        ensures
            plan.deep_view() == plan_of(operations@),
    {
        CommandPlan { operations, reply: None, failure: None }
    }

    /// A plan of one operation.
    pub fn single(operation: Operation) -> (plan: Self)
        ensures
            plan.deep_view() == plan_of(seq![operation]),
    {
        let plan = CommandPlan { operations: vec![operation], reply: None, failure: None };
        assert(plan.operations@ =~= seq![operation]);
        plan
    }

    /// A plan of two operations.
    pub fn pair(first: Operation, second: Operation) -> (plan: Self)
        ensures
            plan.deep_view() == plan_of(seq![first, second]),
    {
        let plan = CommandPlan { operations: vec![first, second], reply: None, failure: None };
        assert(plan.operations@ =~= seq![first, second]);
        plan
    }

    /// A plan of nothing.
    pub fn nothing() -> (plan: Self)
        ensures
            plan.deep_view() == plan_nothing(),
    {
        CommandPlan { operations: Vec::new(), reply: None, failure: None }
    }

    /// A command that fails before anything is done.
    pub fn failed(error: CommandError) -> (plan: Self)
        ensures
            plan.deep_view() == plan_failure(error),
    {
        CommandPlan { operations: Vec::new(), reply: None, failure: Some(error) }
    }

    /// A command that is answered with a text.
    pub fn replied(text: String) -> (plan: Self)
        ensures
            plan.deep_view() == plan_reply(text@),
    {
        CommandPlan { operations: Vec::new(), reply: Some(text), failure: None }
    }
}

/// What was seen when a command came in.
pub struct CommandSight {
    /// The space that is on the screen.
    pub current_space_id: Option<u64>,
    /// A window that is not managed is in front, and commands are not to act on those.
    pub unmanaged_window_in_front: bool,
    /// The monitor that the cursor is on.
    pub cursor_monitor_idx: Option<usize>,
    /// What the window in front can be told by.
    pub foreground: Option<WindowAttributes>,
    /// For every monitor and workspace, where on it an application has a window.
    pub exe_locations: Vec<Vec<Option<WorkspaceWindowLocation>>>,
    /// Where the floating windows of the focused workspace are, in their order.
    pub floating_rects: Vec<Rect>,
    /// What managed windows can be told by, by id.
    pub attributes: Vec<(u32, WindowAttributes)>,
    /// The configuration that is to be switched to can be read.
    pub configuration_is_valid: bool,
    /// The version that is running.
    pub version: String,
}

/// The value of a [`CommandSight`].
pub struct CommandSightView {
    pub current_space_id: Option<u64>,
    pub unmanaged_window_in_front: bool,
    pub cursor_monitor_idx: Option<usize>,
    pub foreground: Option<WindowAttributesView>,
    pub exe_locations: Seq<Seq<Option<WorkspaceWindowLocation>>>,
    pub floating_rects: Seq<Rect>,
    pub attributes: Seq<(u32, WindowAttributesView)>,
    pub configuration_is_valid: bool,
    pub version: Seq<char>,
}

impl DeepView for CommandSight {
    type V = CommandSightView;

    open spec fn deep_view(&self) -> CommandSightView {
        CommandSightView {
            current_space_id: self.current_space_id,
            unmanaged_window_in_front: self.unmanaged_window_in_front,
            cursor_monitor_idx: self.cursor_monitor_idx,
            foreground: self.foreground.deep_view(),
            exe_locations: self.exe_locations@.map_values(
                |row: Vec<Option<WorkspaceWindowLocation>>| row@,
            ),
            floating_rects: self.floating_rects@,
            attributes: self.attributes.deep_view(),
            configuration_is_valid: self.configuration_is_valid,
            version: self.version@,
        }
    }
}

} // verus!
