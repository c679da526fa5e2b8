//! What commands that ask something, set up workspaces or bring up a layer do.

use crate::geometry::Rect;
use crate::message::SocketMessage;
use crate::operation::Operation;
use crate::process_command::acting;
use crate::process_command::going;
use crate::process_command::layer;
use crate::process_command::plan::CommandPlanView;
use crate::process_command::plan::CommandSightView;
use crate::process_command::tuning;
use crate::process_command::workspaces;
use crate::settings::Axis;
use crate::settings::CycleDirection;
use crate::settings::DefaultLayout;
use crate::settings::Sizing;
use crate::settings::StateQuery;
use crate::text;
use crate::window_manager::CommandError;
use crate::window_manager::ContainerView;
use crate::window_manager::Window;
use crate::window_manager::WindowManagerView;
use crate::window_manager::WorkspaceView;
use vstd::prelude::*;

verus! {

/// A command that sets up workspaces or needs no deciding leaves the state alone and comes to
/// these operations.
pub open spec fn comes_to(
    wm: WindowManagerView,
    message: SocketMessage,
    sight: CommandSightView,
    operations: Seq<Operation>,
) -> bool {
    let (after, plan) = workspaces::workspaces_effect(wm, message, sight);
    &&& after == wm
    &&& plan.failure is None
    &&& plan.reply is None
    &&& plan.operations =~= operations
}

/// Paddings and tiling are set on the workspace that is named by its place.
pub proof fn law_paddings_and_tiling_are_set_by_place(
    wm: WindowManagerView,
    m: usize,
    w: usize,
    size: i32,
    tile: bool,
    sight: CommandSightView,
)
    ensures
        comes_to(
            wm,
            SocketMessage::ContainerPadding(m, w, size),
            sight,
            seq![Operation::SetContainerPadding(m, w, size)],
        ),
        comes_to(
            wm,
            SocketMessage::WorkspacePadding(m, w, size),
            sight,
            seq![Operation::SetWorkspacePadding(m, w, size)],
        ),
        comes_to(
            wm,
            SocketMessage::WorkspaceTiling(m, w, tile),
            sight,
            seq![Operation::SetWorkspaceTiling(m, w, tile)],
        ),
{
}

/// Layouts and layout rules are set on the workspace that is named by its place.
pub proof fn law_layouts_are_set_by_place(
    wm: WindowManagerView,
    m: usize,
    w: usize,
    count: usize,
    layout: DefaultLayout,
    sight: CommandSightView,
)
    ensures
        comes_to(
            wm,
            SocketMessage::WorkspaceLayout(m, w, layout),
            sight,
            seq![Operation::SetWorkspaceLayout(m, w, layout)],
        ),
        comes_to(
            wm,
            SocketMessage::WorkspaceLayoutRule(m, w, count, layout),
            sight,
            seq![Operation::AddWorkspaceLayoutRule(m, w, count, layout)],
        ),
        comes_to(
            wm,
            SocketMessage::ClearWorkspaceLayoutRules(m, w),
            sight,
            seq![Operation::ClearWorkspaceLayoutRules(m, w)],
        ),
{
}

proof fn lemma_first_is_named(wm: WindowManagerView, name: Seq<char>, m: usize, w: usize)
    requires
        wm.monitors.len() <= usize::MAX,
        forall|i: int|
            0 <= i < wm.monitors.len() ==> (#[trigger] wm.monitors[i]).workspaces.len()
                <= usize::MAX,
        going::is_first_by(wm, name, m, w),
    ensures
        wm.named(name) == Some((m, w)),
{
    going::lemma_first_by(wm, name);
    assert(going::goes_by(wm, name, m as int, w as int));
    let (first_m, first_w) = wm.named(name)->0;
    assert(going::goes_by(wm, name, first_m as int, first_w as int));
}

/// Paddings and tiling of a workspace that goes by a name are set on the first that does.
pub proof fn law_paddings_and_tiling_are_set_by_name(
    wm: WindowManagerView,
    name: String,
    m: usize,
    w: usize,
    size: i32,
    tile: bool,
    sight: CommandSightView,
)
    requires
        wm.monitors.len() <= usize::MAX,
        forall|i: int|
            0 <= i < wm.monitors.len() ==> (#[trigger] wm.monitors[i]).workspaces.len()
                <= usize::MAX,
        going::is_first_by(wm, name@, m, w),
    ensures
        comes_to(
            wm,
            SocketMessage::NamedWorkspaceContainerPadding(name, size),
            sight,
            seq![Operation::SetContainerPadding(m, w, size)],
        ),
        comes_to(
            wm,
            SocketMessage::NamedWorkspacePadding(name, size),
            sight,
            seq![Operation::SetWorkspacePadding(m, w, size)],
        ),
        comes_to(
            wm,
            SocketMessage::NamedWorkspaceTiling(name, tile),
            sight,
            seq![Operation::SetWorkspaceTiling(m, w, tile)],
        ),
{
    lemma_first_is_named(wm, name@, m, w);
}

/// Layouts and layout rules of a workspace that goes by a name are set on the first that does.
pub proof fn law_layouts_are_set_by_name(
    wm: WindowManagerView,
    name: String,
    m: usize,
    w: usize,
    count: usize,
    layout: DefaultLayout,
    sight: CommandSightView,
)
    requires
        wm.monitors.len() <= usize::MAX,
        forall|i: int|
            0 <= i < wm.monitors.len() ==> (#[trigger] wm.monitors[i]).workspaces.len()
                <= usize::MAX,
        going::is_first_by(wm, name@, m, w),
    ensures
        comes_to(
            wm,
            SocketMessage::NamedWorkspaceLayout(name, layout),
            sight,
            seq![Operation::SetWorkspaceLayout(m, w, layout)],
        ),
        comes_to(
            wm,
            SocketMessage::NamedWorkspaceLayoutRule(name, count, layout),
            sight,
            seq![Operation::AddWorkspaceLayoutRule(m, w, count, layout)],
        ),
        comes_to(
            wm,
            SocketMessage::ClearNamedWorkspaceLayoutRules(name),
            sight,
            seq![Operation::ClearWorkspaceLayoutRules(m, w)],
        ),
{
    lemma_first_is_named(wm, name@, m, w);
}

/// Nothing is set where no workspace goes by the name.
pub proof fn law_nothing_is_set_by_a_name_that_none_goes_by(
    wm: WindowManagerView,
    name: String,
    size: i32,
    tile: bool,
    count: usize,
    layout: DefaultLayout,
    sight: CommandSightView,
)
    requires
        wm.monitors.len() <= usize::MAX,
        forall|i: int|
            0 <= i < wm.monitors.len() ==> (#[trigger] wm.monitors[i]).workspaces.len()
                <= usize::MAX,
        forall|i: int, j: int| !#[trigger] going::goes_by(wm, name@, i, j),
    ensures
        comes_to(
            wm,
            SocketMessage::NamedWorkspaceContainerPadding(name, size),
            sight,
            Seq::empty(),
        ),
        comes_to(
            wm,
            SocketMessage::NamedWorkspacePadding(name, size),
            sight,
            Seq::empty(),
        ),
        comes_to(
            wm,
            SocketMessage::NamedWorkspaceTiling(name, tile),
            sight,
            Seq::empty(),
        ),
        comes_to(
            wm,
            SocketMessage::NamedWorkspaceLayout(name, layout),
            sight,
            Seq::empty(),
        ),
        comes_to(
            wm,
            SocketMessage::NamedWorkspaceLayoutRule(name, count, layout),
            sight,
            Seq::empty(),
        ),
        comes_to(
            wm,
            SocketMessage::ClearNamedWorkspaceLayoutRules(name),
            sight,
            Seq::empty(),
        ),
{
    going::lemma_first_by(wm, name@);
}

/// The paddings of the focused workspace are set there.
pub proof fn law_the_focused_workspace_is_padded(
    wm: WindowManagerView,
    size: i32,
    sight: CommandSightView,
)
    requires
        wm.focused_monitor < wm.monitors.len(),
    ensures
        ({
            let w = wm.monitors[wm.focused_monitor as int].focused_workspace;
            &&& comes_to(
                wm,
                SocketMessage::FocusedWorkspaceContainerPadding(size),
                sight,
                seq![Operation::SetContainerPadding(wm.focused_monitor, w, size)],
            )
            &&& comes_to(
                wm,
                SocketMessage::FocusedWorkspacePadding(size),
                sight,
                seq![Operation::SetWorkspacePadding(wm.focused_monitor, w, size)],
            )
        }),
{
}

/// Promoting and moving the focused container are carried out by the one operation they ask for.
pub proof fn law_promoting_is_carried_out(
    wm: WindowManagerView,
    direction: CycleDirection,
    sight: CommandSightView,
)
    ensures
        comes_to(
            wm,
            SocketMessage::Promote,
            sight,
            seq![Operation::PromoteContainerToFront],
        ),
        comes_to(
            wm,
            SocketMessage::PromoteSwap,
            sight,
            seq![Operation::PromoteContainerSwap],
        ),
        comes_to(
            wm,
            SocketMessage::PromoteFocus,
            sight,
            seq![Operation::PromoteFocusToFront],
        ),
        comes_to(
            wm,
            SocketMessage::CycleMoveWindow(direction),
            sight,
            seq![Operation::MoveContainerInCycleDirection(direction)],
        ),
{
}

/// The focused window is managed, no longer managed, floated, locked or shown on its own by the one
/// operation that is asked for.
pub proof fn law_managing_is_carried_out(
    wm: WindowManagerView,
    sight: CommandSightView,
)
    ensures
        comes_to(
            wm,
            SocketMessage::ManageFocusedWindow,
            sight,
            seq![Operation::ManageFocusedWindow],
        ),
        comes_to(
            wm,
            SocketMessage::UnmanageFocusedWindow,
            sight,
            seq![Operation::UnmanageFocusedWindow],
        ),
        comes_to(
            wm,
            SocketMessage::ToggleFloat,
            sight,
            seq![Operation::ToggleFloat(false)],
        ),
        comes_to(
            wm,
            SocketMessage::ToggleMonocle,
            sight,
            seq![Operation::ToggleMonocle],
        ),
        comes_to(
            wm,
            SocketMessage::ToggleLock,
            sight,
            seq![Operation::ToggleLock],
        ),
{
}

/// The layout is flipped, changed, cycled or switched off by the one operation that is asked for.
pub proof fn law_layouts_are_changed(
    wm: WindowManagerView,
    axis: Axis,
    layout: DefaultLayout,
    direction: CycleDirection,
    sight: CommandSightView,
)
    ensures
        comes_to(
            wm,
            SocketMessage::FlipLayout(axis),
            sight,
            seq![Operation::FlipLayout(axis)],
        ),
        comes_to(
            wm,
            SocketMessage::ChangeLayout(layout),
            sight,
            seq![Operation::ChangeWorkspaceLayout(layout)],
        ),
        comes_to(
            wm,
            SocketMessage::CycleLayout(direction),
            sight,
            seq![Operation::CycleLayout(direction)],
        ),
        comes_to(
            wm,
            SocketMessage::ToggleTiling,
            sight,
            seq![Operation::ToggleTiling],
        ),
{
}

/// Everything is laid out again, with the sizes that windows were given only where that is asked for;
/// a workspace is added where one is asked for.
pub proof fn law_everything_is_laid_out_again(
    wm: WindowManagerView,
    sight: CommandSightView,
)
    ensures
        comes_to(
            wm,
            SocketMessage::Retile,
            sight,
            seq![Operation::RetileAll(false)],
        ),
        comes_to(
            wm,
            SocketMessage::RetileWithResizeDimensions,
            sight,
            seq![Operation::RetileAll(true)],
        ),
        comes_to(
            wm,
            SocketMessage::NewWorkspace,
            sight,
            seq![Operation::NewWorkspace],
        ),
{
}

/// Paddings are adjusted, each on its own.
pub proof fn law_paddings_are_adjusted(
    wm: WindowManagerView,
    sizing: Sizing,
    adjustment: i32,
    sight: CommandSightView,
)
    ensures
        comes_to(
            wm,
            SocketMessage::AdjustContainerPadding(sizing, adjustment),
            sight,
            seq![Operation::AdjustContainerPadding(sizing, adjustment)],
        ),
        comes_to(
            wm,
            SocketMessage::AdjustWorkspacePadding(sizing, adjustment),
            sight,
            seq![Operation::AdjustWorkspacePadding(sizing, adjustment)],
        ),
{
}

/// Workspaces are named, and as many made as are asked for.
pub proof fn law_workspaces_are_named_and_made(
    wm: WindowManagerView,
    m: usize,
    w: usize,
    name: String,
    names: Vec<String>,
    sight: CommandSightView,
)
    ensures
        comes_to(
            wm,
            SocketMessage::WorkspaceName(m, w, name),
            sight,
            seq![Operation::SetWorkspaceName(m, w, name)],
        ),
        comes_to(
            wm,
            SocketMessage::EnsureWorkspaces(m, w),
            sight,
            seq![Operation::EnsureWorkspaces(m, w)],
        ),
        comes_to(
            wm,
            SocketMessage::EnsureNamedWorkspaces(m, names),
            sight,
            seq![Operation::EnsureNamedWorkspaces(m, names)],
        ),
{
}

/// The state, the windows that are showing, the monitors, the rules of the session and what is known
/// of a window are told by the one operation that answers the question.
pub proof fn law_the_state_is_told(
    wm: WindowManagerView,
    id: u32,
    sight: CommandSightView,
)
    ensures
        comes_to(
            wm,
            SocketMessage::State,
            sight,
            seq![Operation::ReplyState],
        ),
        comes_to(
            wm,
            SocketMessage::GlobalState,
            sight,
            seq![Operation::ReplyGlobalState],
        ),
        comes_to(
            wm,
            SocketMessage::VisibleWindows,
            sight,
            seq![Operation::ReplyVisibleWindows],
        ),
        comes_to(
            wm,
            SocketMessage::MonitorInformation,
            sight,
            seq![Operation::ReplyMonitorInformation],
        ),
        comes_to(
            wm,
            SocketMessage::SessionFloatRules,
            sight,
            seq![Operation::ReplySessionFloatRules],
        ),
        comes_to(
            wm,
            SocketMessage::DebugWindow(id),
            sight,
            seq![Operation::ReplyWindowDebug(id)],
        ),
{
}

/// Each schema is told where it is asked for, and a configuration where that is.
pub proof fn law_schemas_are_told(
    wm: WindowManagerView,
    sight: CommandSightView,
)
    ensures
        comes_to(
            wm,
            SocketMessage::ApplicationSpecificConfigurationSchema,
            sight,
            seq![Operation::ReplyApplicationSpecificConfigurationSchema],
        ),
        comes_to(
            wm,
            SocketMessage::NotificationSchema,
            sight,
            seq![Operation::ReplyNotificationSchema],
        ),
        comes_to(
            wm,
            SocketMessage::SocketSchema,
            sight,
            seq![Operation::ReplySocketSchema],
        ),
        comes_to(
            wm,
            SocketMessage::StaticConfigSchema,
            sight,
            seq![Operation::ReplyStaticConfigSchema],
        ),
        comes_to(
            wm,
            SocketMessage::GenerateStaticConfig,
            sight,
            seq![Operation::ReplyStaticConfig],
        ),
{
}

/// Stopping restores windows unless that is to be left, a configuration is read again where it is, and
/// the theme is sent on.
pub proof fn law_stopping_is_carried_out(
    wm: WindowManagerView,
    path: String,
    sight: CommandSightView,
)
    ensures
        comes_to(
            wm,
            SocketMessage::ReloadStaticConfiguration(path),
            sight,
            seq![Operation::ReloadStaticConfiguration(path)],
        ),
        comes_to(
            wm,
            SocketMessage::Stop,
            sight,
            seq![Operation::Stop(false)],
        ),
        comes_to(
            wm,
            SocketMessage::StopIgnoreRestore,
            sight,
            seq![Operation::Stop(true)],
        ),
        comes_to(
            wm,
            SocketMessage::Theme,
            sight,
            seq![Operation::SendTheme],
        ),
{
}

/// The sizes of the focused workspace are written to a file or read from one, and the workspace is
/// updated once they have been read; the quick save is meant where no file is named.
pub proof fn law_sizes_are_saved_and_loaded(
    wm: WindowManagerView,
    workspace: WorkspaceView,
    path: String,
    sight: CommandSightView,
)
    requires
        acting::is_in_focus(wm, workspace),
    ensures
        comes_to(
            wm,
            SocketMessage::QuickSave,
            sight,
            seq![Operation::WriteResizeDimensions(None)],
        ),
        comes_to(
            wm,
            SocketMessage::Save(path),
            sight,
            seq![Operation::WriteResizeDimensions(Some(path))],
        ),
        comes_to(
            wm,
            SocketMessage::QuickLoad,
            sight,
            seq![
                Operation::ReadResizeDimensions(None),
                Operation::UpdateFocusedWorkspace(false, false),
            ],
        ),
        comes_to(
            wm,
            SocketMessage::Load(path),
            sight,
            seq![
                Operation::ReadResizeDimensions(Some(path)),
                Operation::UpdateFocusedWorkspace(false, false),
            ],
        ),
{
}

/// A plan answers with a text and does nothing else.
pub open spec fn answers(plan: CommandPlanView, answer: Seq<char>) -> bool {
    &&& plan.failure is None
    &&& plan.reply == Some(answer)
    &&& plan.operations.len() == 0
}

/// A question is answered with the number that it asks for, written in decimal, and the version
/// with itself.
pub proof fn law_indices_are_answered(
    wm: WindowManagerView,
    workspace: WorkspaceView,
    sight: CommandSightView,
)
    requires
        acting::is_in_focus(wm, workspace),
    ensures
        answers(
            workspaces::workspaces_effect(
                wm,
                SocketMessage::Query(StateQuery::FocusedMonitorIndex),
                sight,
            ).1,
            text::decimal_digits(wm.focused_monitor as nat),
        ),
        answers(
            workspaces::workspaces_effect(
                wm,
                SocketMessage::Query(StateQuery::FocusedWorkspaceIndex),
                sight,
            ).1,
            text::decimal_digits(
                wm.monitors[wm.focused_monitor as int].focused_workspace as nat,
            ),
        ),
        answers(
            workspaces::workspaces_effect(
                wm,
                SocketMessage::Query(StateQuery::FocusedContainerIndex),
                sight,
            ).1,
            text::decimal_digits(workspace.focused_container as nat),
        ),
        answers(
            workspaces::workspaces_effect(
                wm,
                SocketMessage::Query(StateQuery::Version),
                sight,
            ).1,
            sight.version,
        ),
{
}

/// The focused workspace is answered by its name, or by its index where it has none; its layout by
/// the name of the layout; and its focused container by whether there are several windows in it.
pub proof fn law_the_focused_workspace_is_described(
    wm: WindowManagerView,
    workspace: WorkspaceView,
    sight: CommandSightView,
)
    requires
        acting::is_in_focus(wm, workspace),
    ensures
        answers(
            workspaces::workspaces_effect(
                wm,
                SocketMessage::Query(StateQuery::FocusedWorkspaceName),
                sight,
            ).1,
            if workspace.name is Some {
                workspace.name->0
            } else {
                text::decimal_digits(
                    wm.monitors[wm.focused_monitor as int].focused_workspace as nat,
                )
            },
        ),
        ({
            let plan = workspaces::workspaces_effect(
                wm,
                SocketMessage::Query(StateQuery::FocusedContainerKind),
                sight,
            ).1;
            if workspace.focused_container >= workspace.containers.len() {
                answers(plan, "None"@)
            } else if workspace.containers[workspace.focused_container as int].windows.len() > 1 {
                answers(plan, "Stack"@)
            } else {
                answers(plan, "Single"@)
            }
        }),
        ({
            let plan = workspaces::workspaces_effect(
                wm,
                SocketMessage::Query(StateQuery::FocusedWindowIndex),
                sight,
            ).1;
            if workspace.focused_container >= workspace.containers.len() {
                going::fails(plan, CommandError::NoContainer)
            } else {
                answers(
                    plan,
                    text::decimal_digits(
                        workspace.containers[workspace.focused_container as int].focused_window
                            as nat,
                    ),
                )
            }
        }),
{
}

/// The layout of the focused workspace is answered by its own name.
pub proof fn law_the_layout_is_named(
    wm: WindowManagerView,
    workspace: WorkspaceView,
    sight: CommandSightView,
)
    requires
        acting::is_in_focus(wm, workspace),
    ensures
        answers(
            workspaces::workspaces_effect(
                wm,
                SocketMessage::Query(StateQuery::FocusedWorkspaceLayout),
                sight,
            ).1,
            match workspace.layout {
                DefaultLayout::BSP => "BSP"@,
                DefaultLayout::Columns => "Columns"@,
                DefaultLayout::Rows => "Rows"@,
                DefaultLayout::VerticalStack => "VerticalStack"@,
                DefaultLayout::HorizontalStack => "HorizontalStack"@,
                DefaultLayout::UltrawideVerticalStack => "UltrawideVerticalStack"@,
                DefaultLayout::Grid => "Grid"@,
                DefaultLayout::RightMainVerticalStack => "RightMainVerticalStack"@,
                DefaultLayout::Scrolling => "Scrolling"@,
            },
        ),
{
}

/// Toggling the layer brings up the other one, and changes nothing else in the state.
pub proof fn law_the_other_layer_comes_up(
    wm: WindowManagerView,
    workspace: WorkspaceView,
    sight: CommandSightView,
)
    requires
        acting::is_in_focus(wm, workspace),
    ensures
        ({
            let after = workspaces::workspaces_effect(
                wm,
                SocketMessage::ToggleWorkspaceLayer,
                sight,
            ).0;
            let now = tuning::focused_one(after, wm);
            &&& now.layer != workspace.layer
            &&& tuning::differs_in_focus(
                after,
                wm,
                (WorkspaceView { layer: now.layer, ..workspace }),
            )
        }),
{
}

/// One operation stands before another.
pub open spec fn is_before(operations: Seq<Operation>, first: Operation, second: Operation) -> bool {
    exists|i: int, j: int|
        0 <= i < j < operations.len() && #[trigger] operations[i] == first
            && #[trigger] operations[j] == second
}

proof fn lemma_brought_up(windows: Seq<Window>, order: Seq<usize>, focused: usize, p: int)
    requires
        0 <= p < order.len(),
        order[p] != focused,
    ensures
        is_before(
            layer::bring_up_others(windows, order, focused),
            Operation::RestoreWindow(windows[order[p] as int].id),
            Operation::RaiseWindow(windows[order[p] as int].id),
        ),
    decreases order.len(),
{
    let all = layer::bring_up_others(windows, order, focused);
    let rest = layer::bring_up_others(windows, order.drop_last(), focused);
    let first = all.len() - rest.len();
    let restore = Operation::RestoreWindow(windows[order[p] as int].id);
    let raise = Operation::RaiseWindow(windows[order[p] as int].id);
    if p == order.len() - 1 {
        assert(all[0] == restore && all[1] == raise);
    } else {
        lemma_brought_up(windows, order.drop_last(), focused, p);
        let (i, j) = choose|i: int, j: int|
            0 <= i < j < rest.len() && #[trigger] rest[i] == restore && #[trigger] rest[j] == raise;
        assert(all[first + i] == restore && all[first + j] == raise);
    }
}

proof fn lemma_brought_up_in_order(
    windows: Seq<Window>,
    order: Seq<usize>,
    focused: usize,
    p: int,
    q: int,
)
    requires
        0 <= p < q < order.len(),
        order[p] != focused,
        order[q] != focused,
    ensures
        is_before(
            layer::bring_up_others(windows, order, focused),
            Operation::RaiseWindow(windows[order[q] as int].id),
            Operation::RaiseWindow(windows[order[p] as int].id),
        ),
    decreases order.len(),
{
    let all = layer::bring_up_others(windows, order, focused);
    let rest = layer::bring_up_others(windows, order.drop_last(), focused);
    let first = all.len() - rest.len();
    let lower = Operation::RaiseWindow(windows[order[q] as int].id);
    let upper = Operation::RaiseWindow(windows[order[p] as int].id);
    if q == order.len() - 1 {
        lemma_brought_up(windows, order.drop_last(), focused, p);
        let restore = Operation::RestoreWindow(windows[order[p] as int].id);
        let (i, j) = choose|i: int, j: int|
            0 <= i < j < rest.len() && #[trigger] rest[i] == restore && #[trigger] rest[j] == upper;
        assert(all[1] == lower && all[first + j] == upper);
    } else {
        lemma_brought_up_in_order(windows, order.drop_last(), focused, p, q);
        let (i, j) = choose|i: int, j: int|
            0 <= i < j < rest.len() && #[trigger] rest[i] == lower && #[trigger] rest[j] == upper;
        assert(all[first + i] == lower && all[first + j] == upper);
    }
}

proof fn lemma_only_brought_up(windows: Seq<Window>, order: Seq<usize>, focused: usize, k: int)
    requires
        0 <= k < layer::bring_up_others(windows, order, focused).len(),
    ensures
        ({
            let operation = layer::bring_up_others(windows, order, focused)[k];
            operation is RestoreWindow || operation is RaiseWindow
        }),
    decreases order.len(),
{
    if order.len() > 0 {
        let all = layer::bring_up_others(windows, order, focused);
        let rest = layer::bring_up_others(windows, order.drop_last(), focused);
        let first = all.len() - rest.len();
        if k >= first {
            lemma_only_brought_up(windows, order.drop_last(), focused, k - first);
        }
    }
}

proof fn lemma_placed_in_order(rects: Seq<Rect>, n: nat, x: usize) -> (p: int)
    requires
        x < n <= usize::MAX,
    ensures
        0 <= p < layer::area_order(rects, n).len(),
        layer::area_order(rects, n)[p] == x,
    decreases n,
{
    let earlier = layer::area_order(rects, (n - 1) as nat);
    if x == n - 1 {
        lemma_inserted(rects, earlier, (n - 1) as usize, x)
    } else {
        let p = lemma_placed_in_order(rects, (n - 1) as nat, x);
        lemma_kept(rects, earlier, (n - 1) as usize, p)
    }
}

proof fn lemma_inserted(rects: Seq<Rect>, order: Seq<usize>, new: usize, x: usize) -> (p: int)
    requires
        x == new,
    ensures
        0 <= p < layer::insert_by_area(rects, order, new).len(),
        layer::insert_by_area(rects, order, new)[p] == x,
    decreases order.len(),
{
    if order.len() == 0 || layer::area_at(rects, order.last() as int) <= layer::area_at(
        rects,
        new as int,
    ) {
        order.len() as int
    } else {
        lemma_inserted(rects, order.drop_last(), new, x)
    }
}

proof fn lemma_kept(rects: Seq<Rect>, order: Seq<usize>, new: usize, q: int) -> (p: int)
    requires
        0 <= q < order.len(),
    ensures
        0 <= p < layer::insert_by_area(rects, order, new).len(),
        layer::insert_by_area(rects, order, new)[p] == order[q],
    decreases order.len(),
{
    if layer::area_at(rects, order.last() as int) <= layer::area_at(rects, new as int) {
        q
    } else if q == order.len() - 1 {
        layer::insert_by_area(rects, order.drop_last(), new).len() as int
    } else {
        lemma_kept(rects, order.drop_last(), new, q)
    }
}

/// When the floating layer comes up, every floating window is restored and raised, and the focused
/// one last of all, which then has the focus.
pub proof fn law_floating_windows_come_up(
    wm: WindowManagerView,
    workspace: WorkspaceView,
    sight: CommandSightView,
    x: usize,
)
    requires
        acting::is_in_focus(wm, workspace),
        workspace.layer is Tiling,
        x < workspace.floating_windows.len() <= usize::MAX,
    ensures
        ({
            let plan = workspaces::workspaces_effect(
                wm,
                SocketMessage::ToggleWorkspaceLayer,
                sight,
            ).1;
            let windows = workspace.floating_windows;
            let focused = workspace.focused_floating_window;
            let n = plan.operations.len() as int;
            &&& plan.failure is None
            &&& is_before(
                plan.operations,
                Operation::RestoreWindow(windows[x as int].id),
                Operation::RaiseWindow(windows[x as int].id),
            )
            &&& focused < windows.len() ==> {
                &&& n >= 3
                &&& plan.operations[n - 3] == Operation::RestoreWindow(windows[focused as int].id)
                &&& plan.operations[n - 2] == Operation::RaiseWindow(windows[focused as int].id)
                &&& plan.operations[n - 1] == Operation::FocusWindow(
                    windows[focused as int].id,
                    wm.mouse_follows_focus,
                )
            }
        }),
{
    let windows = workspace.floating_windows;
    let focused = workspace.focused_floating_window;
    let rects = sight.floating_rects;
    let order = layer::area_order(rects, windows.len());
    let others = layer::bring_up_others(windows, order, focused);
    let plan = workspaces::workspaces_effect(
        wm,
        SocketMessage::ToggleWorkspaceLayer,
        sight,
    ).1;
    let n = plan.operations.len() as int;
    assert(plan.operations.take(n) =~= layer::show_floating(
        workspace,
        rects,
        wm.mouse_follows_focus,
    ));
    if x == focused {
        assert(plan.operations[n - 3] == Operation::RestoreWindow(windows[x as int].id));
        assert(plan.operations[n - 2] == Operation::RaiseWindow(windows[x as int].id));
    } else {
        let p = lemma_placed_in_order(rects, windows.len(), x);
        lemma_brought_up(windows, order, focused, p);
        let restore = Operation::RestoreWindow(windows[x as int].id);
        let raise = Operation::RaiseWindow(windows[x as int].id);
        let (i, j) = choose|i: int, j: int|
            0 <= i < j < others.len() && #[trigger] others[i] == restore && #[trigger] others[j]
                == raise;
        assert(plan.operations[i] == restore && plan.operations[j] == raise);
    }
}

/// The area that a window covers, which is nothing where it could not be read.
pub open spec fn covers(rects: Seq<Rect>, x: usize, area: int) -> bool {
    if x < rects.len() {
        area == rects[x as int].right * rects[x as int].bottom
    } else {
        area == 0
    }
}

/// When the floating layer comes up, a larger window is raised before a smaller one, so that it
/// does not cover it, and of two of the same size the one that is listed later.
pub proof fn law_smaller_windows_come_up_on_top(
    wm: WindowManagerView,
    workspace: WorkspaceView,
    sight: CommandSightView,
    x: usize,
    y: usize,
    smaller: int,
    larger: int,
)
    requires
        acting::is_in_focus(wm, workspace),
        workspace.layer is Tiling,
        x < workspace.floating_windows.len() <= usize::MAX,
        y < workspace.floating_windows.len(),
        x != workspace.focused_floating_window,
        y != workspace.focused_floating_window,
        covers(sight.floating_rects, x, smaller),
        covers(sight.floating_rects, y, larger),
        smaller < larger || smaller == larger && x < y,
    ensures
        ({
            let plan = workspaces::workspaces_effect(
                wm,
                SocketMessage::ToggleWorkspaceLayer,
                sight,
            ).1;
            is_before(
                plan.operations,
                Operation::RaiseWindow(workspace.floating_windows[y as int].id),
                Operation::RaiseWindow(workspace.floating_windows[x as int].id),
            )
        }),
{
    let windows = workspace.floating_windows;
    let focused = workspace.focused_floating_window;
    let rects = sight.floating_rects;
    let order = layer::area_order(rects, windows.len());
    let others = layer::bring_up_others(windows, order, focused);
    let plan = workspaces::workspaces_effect(
        wm,
        SocketMessage::ToggleWorkspaceLayer,
        sight,
    ).1;
    let p = lemma_placed_in_order(rects, windows.len(), x);
    let q = lemma_placed_in_order(rects, windows.len(), y);
    layer::law_windows_are_ordered_by_area(rects, windows.len());
    assert(layer::comes_before(rects, x, y));
    if q < p {
        assert(layer::comes_before(rects, order[q], order[p]));
    }
    lemma_brought_up_in_order(windows, order, focused, p, q);
    let lower = Operation::RaiseWindow(windows[y as int].id);
    let upper = Operation::RaiseWindow(windows[x as int].id);
    let (i, j) = choose|i: int, j: int|
        0 <= i < j < others.len() && #[trigger] others[i] == lower && #[trigger] others[j]
            == upper;
    assert(plan.operations[i] == lower && plan.operations[j] == upper);
}

proof fn lemma_containers_raised(containers: Seq<ContainerView>, c: int)
    requires
        0 <= c < containers.len(),
        containers[c].focused_window < containers[c].windows.len(),
    ensures
        layer::raise_containers(containers).contains(
            Operation::RaiseWindow(
                containers[c].windows[containers[c].focused_window as int].id,
            ),
        ),
    decreases containers.len(),
{
    let rest = layer::raise_containers(containers.drop_last());
    let all = layer::raise_containers(containers);
    let raise = Operation::RaiseWindow(
        containers[c].windows[containers[c].focused_window as int].id,
    );
    if c < containers.len() - 1 {
        lemma_containers_raised(containers.drop_last(), c);
        let i = choose|i: int| 0 <= i < rest.len() && rest[i] == raise;
        assert(all[i] == raise);
    } else {
        assert(all[rest.len() as int] == raise);
    }
}

/// When the tiling layer comes up, every floating window is hidden where windows of the monitor
/// are, and what is tiled comes up: the focused window of every container, or of the one in
/// monocle mode, which has the focus at the end.
pub proof fn law_floating_windows_are_hidden(
    wm: WindowManagerView,
    workspace: WorkspaceView,
    sight: CommandSightView,
    x: usize,
)
    requires
        acting::is_in_focus(wm, workspace),
        workspace.layer is Floating,
        x < workspace.floating_windows.len() <= usize::MAX,
    ensures
        ({
            let plan = workspaces::workspaces_effect(
                wm,
                SocketMessage::ToggleWorkspaceLayer,
                sight,
            ).1;
            let n = plan.operations.len() as int;
            let position = wm.monitors[wm.focused_monitor as int].window_hiding_position;
            &&& plan.failure is None
            &&& plan.operations.contains(
                Operation::HideWindow(workspace.floating_windows[x as int].id, position),
            )
            &&& match workspace.monocle_container {
                Some(monocle) => monocle.focused_window < monocle.windows.len() ==> {
                    let window = monocle.windows[monocle.focused_window as int];
                    &&& n >= 2
                    &&& plan.operations[0] == Operation::RaiseWindow(window.id)
                    &&& plan.operations[n - 1] == Operation::FocusWindow(
                        window.id,
                        wm.mouse_follows_focus,
                    )
                },
                None => {
                    &&& forall|c: int|
                        0 <= c < workspace.containers.len() && (
                        #[trigger] workspace.containers[c]).focused_window
                            < workspace.containers[c].windows.len() ==> plan.operations.contains(
                            Operation::RaiseWindow(
                                workspace.containers[c].windows[workspace.containers[c].focused_window as int].id,
                            ),
                        )
                    &&& workspace.focused_container < workspace.containers.len() ==> {
                        let container = workspace.containers[workspace.focused_container as int];
                        container.focused_window < container.windows.len() ==> n > 0
                            && plan.operations[n - 1] == Operation::FocusWindow(
                            container.windows[container.focused_window as int].id,
                            wm.mouse_follows_focus,
                        )
                    }
                },
            }
        }),
{
    let windows = workspace.floating_windows;
    let rects = sight.floating_rects;
    let position = wm.monitors[wm.focused_monitor as int].window_hiding_position;
    let plan = workspaces::workspaces_effect(
        wm,
        SocketMessage::ToggleWorkspaceLayer,
        sight,
    ).1;
    let n = plan.operations.len() as int;
    let made = layer::show_tiling(workspace, rects, position, wm.mouse_follows_focus);
    assert(plan.operations.take(n) =~= made);
    assert forall|k: int| 0 <= k < n implies #[trigger] plan.operations[k] == made[k] by {}
    let order = if workspace.monocle_container is Some {
        layer::in_order(windows.len())
    } else {
        layer::area_order(rects, windows.len())
    };
    let p = if workspace.monocle_container is Some {
        x as int
    } else {
        lemma_placed_in_order(rects, windows.len(), x)
    };
    let hidden = layer::hide_all(windows, order, position);
    assert(hidden[p] == Operation::HideWindow(windows[x as int].id, position));
    if let Some(monocle) = workspace.monocle_container {
        let raised: int = if monocle.focused() is Some {
            1
        } else {
            0
        };
        assert(made[raised + p] == hidden[p]);
        assert(plan.operations[raised + p] == hidden[p]);
    } else {
        let raised = layer::raise_containers(workspace.containers);
        assert(made[raised.len() + p] == hidden[p]);
        assert(plan.operations[raised.len() + p] == hidden[p]);
        assert forall|c: int|
            0 <= c < workspace.containers.len() && (
            #[trigger] workspace.containers[c]).focused_window
                < workspace.containers[c].windows.len() implies plan.operations.contains(
            Operation::RaiseWindow(
                workspace.containers[c].windows[workspace.containers[c].focused_window as int].id,
            ),
        ) by {
            lemma_containers_raised(workspace.containers, c);
            let raise = Operation::RaiseWindow(
                workspace.containers[c].windows[workspace.containers[c].focused_window as int].id,
            );
            let i = choose|i: int| 0 <= i < raised.len() && raised[i] == raise;
            assert(plan.operations[i] == raise);
        }
    }
}


/// What asks about the focused workspace, or acts on it, fails where there is none; so does what asks
/// about the focused monitor where that is not there.
pub proof fn law_asking_needs_a_workspace(
    wm: WindowManagerView,
    error: CommandError,
    path: String,
    size: i32,
    sight: CommandSightView,
)
    requires
        acting::is_out_of_focus(wm, error),
    ensures
        workspaces::workspaces_effect(wm, SocketMessage::ToggleWorkspaceLayer, sight).0 == wm,
        going::fails(
            workspaces::workspaces_effect(wm, SocketMessage::ToggleWorkspaceLayer, sight).1,
            error,
        ),
        going::fails(
            workspaces::workspaces_effect(wm, SocketMessage::QuickSave, sight).1,
            error,
        ),
        going::fails(
            workspaces::workspaces_effect(wm, SocketMessage::Load(path), sight).1,
            error,
        ),
        going::fails(
            workspaces::workspaces_effect(
                wm,
                SocketMessage::Query(StateQuery::FocusedContainerIndex),
                sight,
            ).1,
            error,
        ),
        going::fails(
            workspaces::workspaces_effect(
                wm,
                SocketMessage::Query(StateQuery::FocusedWindowIndex),
                sight,
            ).1,
            error,
        ),
        going::fails(
            workspaces::workspaces_effect(
                wm,
                SocketMessage::Query(StateQuery::FocusedContainerKind),
                sight,
            ).1,
            error,
        ),
        wm.focused_monitor >= wm.monitors.len() ==> {
            &&& going::fails(
                workspaces::workspaces_effect(
                    wm,
                    SocketMessage::Query(StateQuery::FocusedWorkspaceIndex),
                    sight,
                ).1,
                CommandError::NoMonitor,
            )
            &&& going::fails(
                workspaces::workspaces_effect(
                    wm,
                    SocketMessage::Query(StateQuery::FocusedWorkspaceName),
                    sight,
                ).1,
                CommandError::NoMonitor,
            )
            &&& going::fails(
                workspaces::workspaces_effect(
                    wm,
                    SocketMessage::Query(StateQuery::FocusedWorkspaceLayout),
                    sight,
                ).1,
                CommandError::NoMonitor,
            )
            &&& going::fails(
                workspaces::workspaces_effect(
                    wm,
                    SocketMessage::FocusedWorkspacePadding(size),
                    sight,
                ).1,
                CommandError::NoMonitor,
            )
        },
        wm.focused_monitor < wm.monitors.len() ==> {
            let index = text::decimal_digits(
                wm.monitors[wm.focused_monitor as int].focused_workspace as nat,
            );
            &&& answers(
                workspaces::workspaces_effect(
                    wm,
                    SocketMessage::Query(StateQuery::FocusedWorkspaceName),
                    sight,
                ).1,
                index,
            )
            &&& answers(
                workspaces::workspaces_effect(
                    wm,
                    SocketMessage::Query(StateQuery::FocusedWorkspaceLayout),
                    sight,
                ).1,
                "None"@,
            )
        },
{
}


proof fn lemma_hidden_in_order(
    windows: Seq<Window>,
    order: Seq<usize>,
    position: crate::geometry::WindowHidingPosition,
    p: int,
    q: int,
)
    requires
        0 <= p < q < order.len(),
    ensures
        is_before(
            layer::hide_all(windows, order, position),
            Operation::HideWindow(windows[order[p] as int].id, position),
            Operation::HideWindow(windows[order[q] as int].id, position),
        ),
{
    let hidden = layer::hide_all(windows, order, position);
    assert(hidden[p] == Operation::HideWindow(windows[order[p] as int].id, position));
    assert(hidden[q] == Operation::HideWindow(windows[order[q] as int].id, position));
}

/// When the tiling layer comes up, a smaller floating window is hidden before a larger one, and of two
/// of the same size the one that is listed first; with a container in monocle mode they are hidden as
/// they are listed.
pub proof fn law_smaller_windows_are_hidden_first(
    wm: WindowManagerView,
    workspace: WorkspaceView,
    sight: CommandSightView,
    x: usize,
    y: usize,
    smaller: int,
    larger: int,
)
    requires
        acting::is_in_focus(wm, workspace),
        workspace.layer is Floating,
        x < workspace.floating_windows.len() <= usize::MAX,
        y < workspace.floating_windows.len(),
        covers(sight.floating_rects, x, smaller),
        covers(sight.floating_rects, y, larger),
        if workspace.monocle_container is Some {
            x < y
        } else {
            smaller < larger || smaller == larger && x < y
        },
    ensures
        ({
            let plan = workspaces::workspaces_effect(
                wm,
                SocketMessage::ToggleWorkspaceLayer,
                sight,
            ).1;
            let position = wm.monitors[wm.focused_monitor as int].window_hiding_position;
            is_before(
                plan.operations,
                Operation::HideWindow(workspace.floating_windows[x as int].id, position),
                Operation::HideWindow(workspace.floating_windows[y as int].id, position),
            )
        }),
{
    let windows = workspace.floating_windows;
    let rects = sight.floating_rects;
    let position = wm.monitors[wm.focused_monitor as int].window_hiding_position;
    let plan = workspaces::workspaces_effect(
        wm,
        SocketMessage::ToggleWorkspaceLayer,
        sight,
    ).1;
    let first = Operation::HideWindow(windows[x as int].id, position);
    let second = Operation::HideWindow(windows[y as int].id, position);
    let order = if workspace.monocle_container is Some {
        layer::in_order(windows.len())
    } else {
        layer::area_order(rects, windows.len())
    };
    let hidden = layer::hide_all(windows, order, position);
    let raised: int = match workspace.monocle_container {
        Some(monocle) => if monocle.focused() is Some {
            1
        } else {
            0
        },
        None => layer::raise_containers(workspace.containers).len() as int,
    };
    if workspace.monocle_container is Some {
        lemma_hidden_in_order(windows, order, position, x as int, y as int);
    } else {
        let p = lemma_placed_in_order(rects, windows.len(), x);
        let q = lemma_placed_in_order(rects, windows.len(), y);
        layer::law_windows_are_ordered_by_area(rects, windows.len());
        if q < p {
            assert(layer::comes_before(rects, order[q], order[p]));
        }
        lemma_hidden_in_order(windows, order, position, p, q);
    }
    let (i, j) = choose|i: int, j: int|
        0 <= i < j < hidden.len() && #[trigger] hidden[i] == first && #[trigger] hidden[j]
            == second;
    assert(plan.operations[raised + i] == first && plan.operations[raised + j] == second);
}

} // verus!
