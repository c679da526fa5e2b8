//! What is seen while an event is handled, and what follows every event.

use crate::geometry::Rect;
use crate::operation::Operation;
use crate::process_command::plan;
use crate::process_command::plan::CommandPlan;
use crate::process_command::plan::CommandPlanView;
use crate::settings::WindowAttributes;
use crate::settings::WindowAttributesView;
use crate::settings::WindowManagementBehaviour;
use crate::text;
use crate::window_manager::CommandError;
use crate::window_manager::Window;
use vstd::prelude::*;

verus! {

/// What came of asking for the frame of a window.
#[derive(Clone, Copy, Debug, PartialEq, Eq, Structural)]
pub enum Frame {
    /// The window is there.
    At(Rect),
    /// The window has gone.
    Gone,
    /// The question could not be answered.
    Unreadable,
}

/// A window that an application is showing.
pub struct VisibleWindow {
    pub id: u32,
    pub application: Option<String>,
}

/// What is seen while an event is handled.
pub struct HandlingSight {
    /// What time it is, in milliseconds.
    pub now: u64,
    /// The main window of the application when the event was let in.
    pub border_window_id: Option<u32>,
    /// The application could be reached.
    pub application_found: bool,
    /// What the application is called.
    pub application_name: Option<String>,
    /// The windows of the application.
    pub window_ids: Vec<u32>,
    /// The main window of the application.
    pub main_window_id: Option<u32>,
    /// The frames of windows, by id.
    pub frames: Vec<(u32, Frame)>,
    /// The ids that windows report for themselves, by the id they are kept under.
    pub reported_ids: Vec<(u32, u32)>,
    /// How new windows are taken in on the focused workspace.
    pub behaviour: WindowManagementBehaviour,
    /// The monitor that the cursor is on.
    pub cursor_monitor_idx: Option<usize>,
    /// The container of the focused workspace that the cursor is on.
    pub cursor_container_idx: Option<usize>,
    /// The container that the cursor is on, on the focused workspace of the monitor that it
    /// is on.
    pub target_container_idx: Option<usize>,
    /// The focus change was caused from here.
    pub focus_was_ours: bool,
    /// The windows that the focused workspace is showing.
    pub visible_windows: Vec<VisibleWindow>,
    /// The window that appeared can still be reached.
    pub shown_is_valid: bool,
    /// What the window that appeared can be told by.
    pub shown: WindowAttributes,
    /// The window that appeared.
    pub shown_window: Window,
    /// How many windows the application has.
    pub window_count: usize,
    /// What a container is called that is made for the window that appeared.
    pub container_id: String,
}

/// The value of a [`HandlingSight`].
pub struct HandlingSightView {
    pub now: u64,
    pub border_window_id: Option<u32>,
    pub application_found: bool,
    pub application_name: Option<Seq<char>>,
    pub window_ids: Seq<u32>,
    pub main_window_id: Option<u32>,
    pub frames: Seq<(u32, Frame)>,
    pub reported_ids: Seq<(u32, u32)>,
    pub behaviour: WindowManagementBehaviour,
    pub cursor_monitor_idx: Option<usize>,
    pub cursor_container_idx: Option<usize>,
    pub target_container_idx: Option<usize>,
    pub focus_was_ours: bool,
    pub visible_windows: Seq<VisibleWindow>,
    pub shown_is_valid: bool,
    pub shown: WindowAttributesView,
    pub shown_window: Window,
    pub window_count: usize,
    pub container_id: Seq<char>,
}

impl DeepView for HandlingSight {
    type V = HandlingSightView;

    open spec fn deep_view(&self) -> HandlingSightView {
        HandlingSightView {
            now: self.now,
            border_window_id: self.border_window_id,
            application_found: self.application_found,
            application_name: self.application_name.deep_view(),
            window_ids: self.window_ids@,
            main_window_id: self.main_window_id,
            frames: self.frames@,
            reported_ids: self.reported_ids@,
            behaviour: self.behaviour,
            cursor_monitor_idx: self.cursor_monitor_idx,
            cursor_container_idx: self.cursor_container_idx,
            target_container_idx: self.target_container_idx,
            focus_was_ours: self.focus_was_ours,
            visible_windows: self.visible_windows@,
            shown_is_valid: self.shown_is_valid,
            shown: self.shown.deep_view(),
            shown_window: self.shown_window,
            window_count: self.window_count,
            container_id: self.container_id@,
        }
    }
}

/// The frame of a window, counting from `from`: a window that is not listed cannot be read.
pub open spec fn frame_of(frames: Seq<(u32, Frame)>, id: u32, from: int) -> Frame
    decreases frames.len() - from,
{
    if from < 0 || from >= frames.len() {
        Frame::Unreadable
    } else if frames[from].0 == id {
        frames[from].1
    } else {
        frame_of(frames, id, from + 1)
    }
}

/// The id that a window reports for itself, counting from `from`, if it reports one.
pub open spec fn reported_id(reported: Seq<(u32, u32)>, id: u32, from: int) -> Option<u32>
    decreases reported.len() - from,
{
    if from < 0 || from >= reported.len() {
        None
    } else if reported[from].0 == id {
        Some(reported[from].1)
    } else {
        reported_id(reported, id, from + 1)
    }
}

impl HandlingSight {
    /// The frame of a window.
    pub fn frame(&self, id: u32) -> (frame: Frame)
        ensures
            frame == frame_of(self.deep_view().frames, id, 0),
    {
        let mut i: usize = 0;
        while i < self.frames.len()
            invariant
                i <= self.frames.len(),
                frame_of(self.frames@, id, 0) == frame_of(self.frames@, id, i as int),
            decreases self.frames.len() - i,
        {
            if self.frames[i].0 == id {
                return self.frames[i].1;
            }
            i += 1;
        }
        Frame::Unreadable
    }

    /// The id that a window reports for itself, if it reports one.
    pub fn reported(&self, id: u32) -> (reported: Option<u32>)
        ensures
            reported == reported_id(self.deep_view().reported_ids, id, 0),
    {
        let mut i: usize = 0;
        while i < self.reported_ids.len()
            invariant
                i <= self.reported_ids.len(),
                reported_id(self.reported_ids@, id, 0) == reported_id(
                    self.reported_ids@,
                    id,
                    i as int,
                ),
            decreases self.reported_ids.len() - i,
        {
            if self.reported_ids[i].0 == id {
                return Some(self.reported_ids[i].1);
            }
            i += 1;
        }
        None
    }
}

/// A name, or the empty text where there is none.
pub open spec fn name_or_empty(name: Option<Seq<char>>) -> Seq<char> {
    match name {
        Some(name) => name,
        None => Seq::empty(),
    }
}

/// Whether two names are the same, where no name is the same as an empty one.
pub fn same_name(a: &Option<String>, b: &Option<String>) -> (same: bool)
    ensures
        same == (name_or_empty(a.deep_view()) == name_or_empty(b.deep_view())),
{
    proof {
        reveal_strlit("");
        assert(""@ =~= Seq::<char>::empty());
    }
    let left: &str = match a {
        Some(name) => name.as_str(),
        None => "",
    };
    let right: &str = match b {
        Some(name) => name.as_str(),
        None => "",
    };
    text::same_text(left, right)
}

/// What follows every event that was handled.
pub open spec fn after_event(border_window_id: Option<u32>) -> Seq<Operation> {
    seq![
        Operation::UpdateKnownWindowIds,
        Operation::NotifySubscribers,
        Operation::UpdateBordersFor(border_window_id),
        Operation::SaveSession,
    ]
}

/// A plan with what follows it, if it succeeds.
pub open spec fn finished(plan: CommandPlanView, border_window_id: Option<u32>) -> CommandPlanView {
    match plan.failure {
        Some(_) => plan,
        None => CommandPlanView {
            operations: plan.operations + after_event(border_window_id),
            ..plan
        },
    }
}

/// A plan that fails once some operations have been carried out.
pub open spec fn plan_until(operations: Seq<Operation>, error: CommandError) -> CommandPlanView {
    CommandPlanView { operations, reply: None, failure: Some(error) }
}

/// A plan that fails once some operations have been carried out.
pub fn until(operations: Vec<Operation>, error: CommandError) -> (plan: CommandPlan)
    ensures
        plan.deep_view() == plan_until(operations@, error),
{
    CommandPlan { operations, reply: None, failure: Some(error) }
}

/// A plan with what follows it, if it succeeds.
pub fn finish(plan: CommandPlan, border_window_id: Option<u32>) -> (whole: CommandPlan)
    ensures
        whole.deep_view() == finished(plan.deep_view(), border_window_id),
{
    let mut plan = plan;
    let ghost before = plan.deep_view();
    if plan.failure.is_none() {
        plan.operations.push(Operation::UpdateKnownWindowIds);
        plan.operations.push(Operation::NotifySubscribers);
        plan.operations.push(Operation::UpdateBordersFor(border_window_id));
        plan.operations.push(Operation::SaveSession);
        assert(plan.operations@ =~= before.operations + after_event(border_window_id));
    }
    plan
}

} // verus!
