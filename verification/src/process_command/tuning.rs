//! What commands that change a setting do.

use crate::border_manager::BorderSettingsView;
use crate::border_manager::Rgb;
use crate::focus_follows_mouse::Follower;
use crate::geometry::Rect;
use crate::message::SocketMessage;
use crate::operation::Operation;
use crate::process_command::acting;
use crate::process_command::going;
use crate::process_command::plan::CommandSightView;
use crate::process_command;
use crate::settings::AnimationPrefix;
use crate::settings::AnimationSettings;
use crate::settings::AnimationStyle;
use crate::settings::MonocleFocusBehaviour;
use crate::settings::MoveBehaviour;
use crate::settings::OperationBehaviour;
use crate::settings::SubscribeOptions;
use crate::settings::WindowKind;
use crate::settings::WindowManagementBehaviour;
use crate::subscriptions::SubscriptionsView;
use crate::window_manager::CommandError;
use crate::window_manager::MonitorView;
use crate::window_manager::WindowManagerView;
use crate::window_manager::WorkspaceView;
use vstd::prelude::*;

verus! {

/// A command leaves this state and does these operations.
pub open spec fn comes_to(
    wm: WindowManagerView,
    message: SocketMessage,
    sight: CommandSightView,
    after: WindowManagerView,
    operations: Seq<Operation>,
) -> bool {
    &&& process_command::command_effect(wm, message, sight).0 == after
    &&& going::does(process_command::command_effect(wm, message, sight).1, operations)
}

/// A behaviour that is given takes the place of the one before, and nothing else changes.
pub proof fn law_behaviours_are_set(
    wm: WindowManagerView,
    crossing: MoveBehaviour,
    monocle: MonocleFocusBehaviour,
    unmanaged: OperationBehaviour,
    sight: CommandSightView,
)
    requires
        going::is_heard(wm, sight),
    ensures
        comes_to(
            wm,
            SocketMessage::CrossMonitorMoveBehaviour(crossing),
            sight,
            (WindowManagerView { cross_monitor_move_behaviour: crossing, ..wm }),
            Seq::empty(),
        ),
        comes_to(
            wm,
            SocketMessage::MonocleFocusBehaviour(monocle),
            sight,
            (WindowManagerView { monocle_focus_behaviour: monocle, ..wm }),
            Seq::empty(),
        ),
        comes_to(
            wm,
            SocketMessage::UnmanagedWindowOperationBehaviour(unmanaged),
            sight,
            (WindowManagerView { unmanaged_window_operation_behaviour: unmanaged, ..wm }),
            Seq::empty(),
        ),
{
}

/// Whether the mouse follows the focus, whether the focus follows the mouse and how far windows
/// are resized are set on their own.
pub proof fn law_the_mouse_and_the_delta_are_set(
    wm: WindowManagerView,
    enable: bool,
    delta: i32,
    sight: CommandSightView,
)
    requires
        going::is_heard(wm, sight),
    ensures
        comes_to(
            wm,
            SocketMessage::MouseFollowsFocus(enable),
            sight,
            (WindowManagerView { mouse_follows_focus: enable, ..wm }),
            Seq::empty(),
        ),
        comes_to(
            wm,
            SocketMessage::ToggleMouseFollowsFocus,
            sight,
            (WindowManagerView { mouse_follows_focus: !wm.mouse_follows_focus, ..wm }),
            Seq::empty(),
        ),
        comes_to(
            wm,
            SocketMessage::FocusFollowsMouse(enable),
            sight,
            (WindowManagerView { follower: Follower { enabled: enable, ..wm.follower }, ..wm }),
            Seq::empty(),
        ),
        comes_to(
            wm,
            SocketMessage::ResizeDelta(delta),
            sight,
            (WindowManagerView { resize_delta: delta, ..wm }),
            Seq::empty(),
        ),
{
}

/// Toggling a setting of two values gives it the other value; toggling what becomes of windows
/// that are moved across monitors trades swapping for inserting, and leaves doing nothing alone.
pub proof fn law_toggles_give_the_other_value(wm: WindowManagerView, sight: CommandSightView)
    requires
        going::is_heard(wm, sight),
    ensures
        comes_to(
            wm,
            SocketMessage::TogglePause,
            sight,
            (WindowManagerView { is_paused: !wm.is_paused, ..wm }),
            Seq::empty(),
        ),
        ({
            let (after, plan) = process_command::command_effect(
                wm,
                SocketMessage::ToggleCrossMonitorMoveBehaviour,
                sight,
            );
            let before = wm.cross_monitor_move_behaviour;
            let now = after.cross_monitor_move_behaviour;
            &&& going::does(plan, Seq::empty())
            &&& after == (WindowManagerView { cross_monitor_move_behaviour: now, ..wm })
            &&& now is Insert <==> before is Swap
            &&& now is Swap <==> before is Insert
            &&& now is NoOp <==> before is NoOp
        }),
        ({
            let (after, plan) = process_command::command_effect(
                wm,
                SocketMessage::ToggleMonocleFocusBehaviour,
                sight,
            );
            &&& going::does(plan, Seq::empty())
            &&& after.monocle_focus_behaviour != wm.monocle_focus_behaviour
            &&& after == (WindowManagerView {
                monocle_focus_behaviour: after.monocle_focus_behaviour,
                ..wm
            })
        }),
{
}

/// Toggling what becomes of new windows everywhere changes just that.
pub proof fn law_new_windows_are_toggled_everywhere(wm: WindowManagerView, sight: CommandSightView)
    requires
        going::is_heard(wm, sight),
    ensures
        ({
            let (after, plan) = process_command::command_effect(
                wm,
                SocketMessage::ToggleWindowContainerBehaviour,
                sight,
            );
            let now = after.window_management_behaviour;
            &&& going::does(plan, Seq::empty())
            &&& now.current_behaviour != wm.window_management_behaviour.current_behaviour
            &&& now == (WindowManagementBehaviour {
                current_behaviour: now.current_behaviour,
                ..wm.window_management_behaviour
            })
            &&& after == (WindowManagerView { window_management_behaviour: now, ..wm })
        }),
        ({
            let (after, plan) = process_command::command_effect(
                wm,
                SocketMessage::ToggleFloatOverride,
                sight,
            );
            let now = after.window_management_behaviour;
            &&& going::does(plan, Seq::empty())
            &&& now.float_override != wm.window_management_behaviour.float_override
            &&& now == (WindowManagementBehaviour {
                float_override: now.float_override,
                ..wm.window_management_behaviour
            })
            &&& after == (WindowManagerView { window_management_behaviour: now, ..wm })
        }),
{
}

/// One state differs from another in the focused workspace alone, which is this one now.
pub open spec fn differs_in_focus(
    after: WindowManagerView,
    wm: WindowManagerView,
    now: WorkspaceView,
) -> bool {
    let m = wm.focused_monitor as int;
    let w = wm.monitors[m].focused_workspace as int;
    let monitor = after.monitors[m];
    &&& after == (WindowManagerView { monitors: after.monitors, ..wm })
    &&& going::differ_only_at(after.monitors, wm.monitors, m)
    &&& monitor == (MonitorView { workspaces: monitor.workspaces, ..wm.monitors[m] })
    &&& monitor.workspaces.len() == wm.monitors[m].workspaces.len()
    &&& forall|i: int|
        0 <= i < monitor.workspaces.len() && i != w ==> #[trigger] monitor.workspaces[i]
            == wm.monitors[m].workspaces[i]
    &&& monitor.workspaces[w] == now
}

/// The workspace that is focused in a state that differs from another in it alone.
pub open spec fn focused_one(after: WindowManagerView, wm: WindowManagerView) -> WorkspaceView {
    let m = wm.focused_monitor as int;
    after.monitors[m].workspaces[wm.monitors[m].focused_workspace as int]
}

/// Toggling what becomes of new windows on a workspace gives it the other value than holds there:
/// than its own, or than the one everywhere where it has none.
pub proof fn law_new_windows_are_toggled_on_a_workspace(
    wm: WindowManagerView,
    workspace: WorkspaceView,
    sight: CommandSightView,
)
    requires
        going::is_heard(wm, sight),
        acting::is_in_focus(wm, workspace),
    ensures
        ({
            let (after, plan) = process_command::command_effect(
                wm,
                SocketMessage::ToggleWorkspaceWindowContainerBehaviour,
                sight,
            );
            let now = focused_one(after, wm);
            let held = if workspace.window_container_behaviour is Some {
                workspace.window_container_behaviour->0
            } else {
                wm.window_management_behaviour.current_behaviour
            };
            &&& going::does(plan, Seq::empty())
            &&& now.window_container_behaviour is Some
            &&& now.window_container_behaviour->0 != held
            &&& differs_in_focus(
                after,
                wm,
                (WorkspaceView {
                    window_container_behaviour: now.window_container_behaviour,
                    ..workspace
                }),
            )
        }),
        ({
            let (after, plan) = process_command::command_effect(
                wm,
                SocketMessage::ToggleWorkspaceFloatOverride,
                sight,
            );
            let now = focused_one(after, wm);
            let held = if workspace.float_override is Some {
                workspace.float_override->0
            } else {
                wm.window_management_behaviour.float_override
            };
            &&& going::does(plan, Seq::empty())
            &&& now.float_override == Some(!held)
            &&& differs_in_focus(
                after,
                wm,
                (WorkspaceView { float_override: now.float_override, ..workspace }),
            )
        }),
        ({
            let (after, plan) = process_command::command_effect(
                wm,
                SocketMessage::ToggleWindowBasedWorkAreaOffset,
                sight,
            );
            &&& going::does(plan, seq![Operation::RetileAll(true)])
            &&& differs_in_focus(
                after,
                wm,
                (WorkspaceView {
                    apply_window_based_work_area_offset:
                        !workspace.apply_window_based_work_area_offset,
                    ..workspace
                }),
            )
        }),
{
}

/// A work area offset is set where it is given for: everywhere, for a monitor or for a workspace;
/// everything is laid out again. A monitor or a workspace that is not there is passed over.
pub proof fn law_offsets_are_set_where_they_are_for(
    wm: WindowManagerView,
    m: usize,
    w: usize,
    rect: Rect,
    sight: CommandSightView,
)
    requires
        going::is_heard(wm, sight),
    ensures
        comes_to(
            wm,
            SocketMessage::WorkAreaOffset(rect),
            sight,
            (WindowManagerView { work_area_offset: Some(rect), ..wm }),
            seq![Operation::RetileAll(false)],
        ),
        ({
            let (after, plan) = process_command::command_effect(
                wm,
                SocketMessage::MonitorWorkAreaOffset(m, rect),
                sight,
            );
            if m < wm.monitors.len() {
                &&& going::does(plan, seq![Operation::RetileAll(false)])
                &&& after == (WindowManagerView { monitors: after.monitors, ..wm })
                &&& going::differ_only_at(after.monitors, wm.monitors, m as int)
                &&& after.monitors[m as int] == (MonitorView {
                    work_area_offset: Some(rect),
                    ..wm.monitors[m as int]
                })
            } else {
                after == wm && going::does(plan, Seq::empty())
            }
        }),
        ({
            let (after, plan) = process_command::command_effect(
                wm,
                SocketMessage::WorkspaceWorkAreaOffset(m, w, rect),
                sight,
            );
            if m < wm.monitors.len() && w < wm.monitors[m as int].workspaces.len() {
                let before = wm.monitors[m as int];
                let now = after.monitors[m as int];
                &&& going::does(plan, seq![Operation::RetileAll(false)])
                &&& after == (WindowManagerView { monitors: after.monitors, ..wm })
                &&& going::differ_only_at(after.monitors, wm.monitors, m as int)
                &&& now == (MonitorView { workspaces: now.workspaces, ..before })
                &&& now.workspaces.len() == before.workspaces.len()
                &&& now.workspaces[w as int] == (WorkspaceView {
                    work_area_offset: Some(rect),
                    ..before.workspaces[w as int]
                })
                &&& forall|i: int|
                    0 <= i < before.workspaces.len() && i != w ==> #[trigger] now.workspaces[i]
                        == before.workspaces[i]
            } else {
                after == wm && going::does(plan, Seq::empty())
            }
        }),
{
}

/// The number of columns is set where the options of the workspace speak of scrolling, or where it
/// has none at all; options that say nothing of scrolling are left. Setting the ratios leaves the
/// options that there are alone. The workspace is updated each time.
pub proof fn law_layout_options_are_set(
    wm: WindowManagerView,
    workspace: WorkspaceView,
    columns: usize,
    sight: CommandSightView,
)
    requires
        going::is_heard(wm, sight),
        acting::is_in_focus(wm, workspace),
    ensures
        ({
            let (after, plan) = process_command::command_effect(
                wm,
                SocketMessage::ScrollingLayoutColumns(columns),
                sight,
            );
            let now = focused_one(after, wm);
            let before = workspace.layout_options;
            &&& going::does(plan, seq![Operation::UpdateFocusedWorkspace(false, false)])
            &&& differs_in_focus(
                after,
                wm,
                (WorkspaceView { layout_options: now.layout_options, ..workspace }),
            )
            &&& now.layout_options is Some
            &&& if before is Some && before->0.scrolling is None {
                now.layout_options == before
            } else {
                let scrolling = now.layout_options->0.scrolling;
                &&& scrolling is Some
                &&& scrolling->0.columns == columns
                &&& scrolling->0.center_focused_column == if before is Some {
                    before->0.scrolling->0.center_focused_column
                } else {
                    None
                }
            }
        }),
        ({
            let (after, plan) = process_command::command_effect(
                wm,
                SocketMessage::LayoutRatios,
                sight,
            );
            let now = focused_one(after, wm);
            &&& going::does(
                plan,
                seq![
                    Operation::ApplyLayoutRatios,
                    Operation::UpdateFocusedWorkspace(false, false),
                ],
            )
            &&& differs_in_focus(
                after,
                wm,
                (WorkspaceView { layout_options: now.layout_options, ..workspace }),
            )
            &&& now.layout_options is Some
            &&& workspace.layout_options is Some ==> now.layout_options == workspace.layout_options
            &&& workspace.layout_options is None ==> now.layout_options->0.scrolling is None
        }),
{
}

/// A display is preferred at an index.
pub open spec fn is_preferred(
    preferences: Seq<(usize, Seq<char>)>,
    index: usize,
    display: Seq<char>,
) -> bool {
    exists|i: int|
        0 <= i < preferences.len() && #[trigger] preferences[i] == (index, display)
}

/// No index is listed twice.
pub open spec fn are_single(preferences: Seq<(usize, Seq<char>)>) -> bool {
    forall|i: int, j: int|
        0 <= i < j < preferences.len() ==> (#[trigger] preferences[i]).0 != (
        #[trigger] preferences[j]).0
}

proof fn lemma_preference(
    preferences: Seq<(usize, Seq<char>)>,
    index: usize,
    from: int,
)
    requires
        0 <= from,
    ensures
        match process_command::behaviour::preference_at(preferences, index, from) {
            Some(i) => from <= i < preferences.len() && preferences[i].0 == index && forall|j: int|
                from <= j < i ==> (#[trigger] preferences[j]).0 != index,
            None => forall|j: int|
                from <= j < preferences.len() ==> (#[trigger] preferences[j]).0 != index,
        },
    decreases preferences.len() - from,
{
    if from < preferences.len() && preferences[from].0 != index {
        lemma_preference(preferences, index, from + 1);
    }
}

/// A display that is preferred at an index takes the place of any other there, what is preferred
/// at another index stays, and no index is listed twice.
pub proof fn law_one_display_is_preferred_at_an_index(
    wm: WindowManagerView,
    index: usize,
    display: String,
    other: usize,
    name: Seq<char>,
    sight: CommandSightView,
)
    requires
        going::is_heard(wm, sight),
        are_single(wm.display_index_preferences),
    ensures
        ({
            let (after, plan) = process_command::command_effect(
                wm,
                SocketMessage::DisplayIndexPreference(index, display),
                sight,
            );
            let before = wm.display_index_preferences;
            let now = after.display_index_preferences;
            &&& going::does(plan, Seq::empty())
            &&& after == (WindowManagerView { display_index_preferences: now, ..wm })
            &&& are_single(now)
            &&& is_preferred(now, index, display@)
            &&& other == index && name != display@ ==> !is_preferred(now, other, name)
            &&& other != index ==> is_preferred(now, other, name) == is_preferred(
                before,
                other,
                name,
            )
        }),
{
    let before = wm.display_index_preferences;
    lemma_preference(before, index, 0);
    let after = process_command::command_effect(
        wm,
        SocketMessage::DisplayIndexPreference(index, display),
        sight,
    ).0;
    let now = after.display_index_preferences;
    match process_command::behaviour::preference_at(before, index, 0) {
        Some(i) => {
            assert(now[i] == (index, display@));
            assert forall|j: int| 0 <= j < before.len() && j != i implies #[trigger] now[j]
                == before[j] by {}
            if is_preferred(before, other, name) && other != index {
                let j = choose|j: int|
                    0 <= j < before.len() && #[trigger] before[j] == (other, name);
                assert(now[j] == (other, name));
            }
            if is_preferred(now, other, name) {
                let j = choose|j: int| 0 <= j < now.len() && #[trigger] now[j] == (other, name);
                if other != index {
                    assert(before[j] == (other, name));
                } else if j != i {
                    assert(before[j].0 != before[i].0);
                }
            }
        },
        None => {
            assert(now[before.len() as int] == (index, display@));
            assert forall|j: int| 0 <= j < before.len() implies #[trigger] now[j]
                == before[j] by {}
            if is_preferred(before, other, name) {
                let j = choose|j: int|
                    0 <= j < before.len() && #[trigger] before[j] == (other, name);
                assert(now[j] == (other, name));
            }
            if is_preferred(now, other, name) {
                let j = choose|j: int| 0 <= j < now.len() && #[trigger] now[j] == (other, name);
                if j < before.len() {
                    assert(before[j] == (other, name));
                }
            }
        },
    }
}

/// Borders are switched on and off, and set to a width and an offset, each on its own. Those that
/// are drawn are taken away, but for when borders are switched on.
pub proof fn law_borders_are_set(
    wm: WindowManagerView,
    enable: bool,
    value: i32,
    sight: CommandSightView,
)
    requires
        going::is_heard(wm, sight),
    ensures
        comes_to(
            wm,
            SocketMessage::Border(enable),
            sight,
            (WindowManagerView {
                borders: BorderSettingsView { enabled: enable, ..wm.borders },
                ..wm
            }),
            if enable {
                Seq::empty()
            } else {
                seq![Operation::DestroyAllBorders]
            },
        ),
        comes_to(
            wm,
            SocketMessage::BorderWidth(value),
            sight,
            (WindowManagerView { borders: BorderSettingsView { width: value, ..wm.borders }, ..wm }),
            seq![Operation::DestroyAllBorders],
        ),
        comes_to(
            wm,
            SocketMessage::BorderOffset(value),
            sight,
            (WindowManagerView { borders: BorderSettingsView { offset: value, ..wm.borders }, ..wm }),
            seq![Operation::DestroyAllBorders],
        ),
{
}

/// A colour is given to the borders of one kind of window, and of no other.
pub proof fn law_a_border_colour_is_for_one_kind(
    wm: WindowManagerView,
    kind: WindowKind,
    r: u32,
    g: u32,
    b: u32,
    sight: CommandSightView,
)
    requires
        going::is_heard(wm, sight),
    ensures
        ({
            let (after, plan) = process_command::command_effect(
                wm,
                SocketMessage::BorderColour(kind, r, g, b),
                sight,
            );
            let colour = Rgb { r, g, b };
            let now = after.borders;
            let was = wm.borders;
            &&& going::does(plan, Seq::empty())
            &&& after == (WindowManagerView { borders: now, ..wm })
            &&& now == (BorderSettingsView {
                focused: now.focused,
                unfocused: now.unfocused,
                unfocused_locked: now.unfocused_locked,
                monocle: now.monocle,
                stack: now.stack,
                floating: now.floating,
                ..was
            })
            &&& now.focused == if kind is Single {
                colour
            } else {
                was.focused
            }
            &&& now.unfocused == if kind is Unfocused {
                colour
            } else {
                was.unfocused
            }
            &&& now.unfocused_locked == if kind is UnfocusedLocked {
                colour
            } else {
                was.unfocused_locked
            }
            &&& now.monocle == if kind is Monocle {
                colour
            } else {
                was.monocle
            }
            &&& now.stack == if kind is Stack {
                colour
            } else {
                was.stack
            }
            &&& now.floating == if kind is Floating {
                colour
            } else {
                was.floating
            }
        }),
{
}

/// Whether windows are animated is set for one kind of animation, or for all, in place of what was
/// set for each; nothing else about animations changes.
pub proof fn law_animations_are_switched(
    wm: WindowManagerView,
    enable: bool,
    prefix: Option<AnimationPrefix>,
    sight: CommandSightView,
)
    requires
        going::is_heard(wm, sight),
    ensures
        ({
            let (after, plan) = process_command::command_effect(
                wm,
                SocketMessage::Animation(enable, prefix),
                sight,
            );
            let now = after.animation.enabled;
            let was = wm.animation.enabled;
            &&& going::does(plan, Seq::empty())
            &&& after == (WindowManagerView {
                animation: AnimationSettings { enabled: now, ..wm.animation },
                ..wm
            })
            &&& prefix is None ==> now.global == enable && now.movement is None
                && now.transparency is None
            &&& prefix == Some(AnimationPrefix::Movement) ==> now.movement == Some(enable)
                && now.global == was.global && now.transparency == was.transparency
            &&& prefix == Some(AnimationPrefix::Transparency) ==> now.transparency == Some(enable)
                && now.global == was.global && now.movement == was.movement
        }),
{
}

/// How long animations take is set for one kind of animation, or for all.
pub proof fn law_animations_take_as_long_as_set(
    wm: WindowManagerView,
    duration: u64,
    prefix: Option<AnimationPrefix>,
    fps: u64,
    sight: CommandSightView,
)
    requires
        going::is_heard(wm, sight),
    ensures
        ({
            let (after, plan) = process_command::command_effect(
                wm,
                SocketMessage::AnimationDuration(duration, prefix),
                sight,
            );
            let now = after.animation.duration;
            let was = wm.animation.duration;
            &&& going::does(plan, Seq::empty())
            &&& after == (WindowManagerView {
                animation: AnimationSettings { duration: now, ..wm.animation },
                ..wm
            })
            &&& prefix is None ==> now.global == duration && now.movement is None
                && now.transparency is None
            &&& prefix == Some(AnimationPrefix::Movement) ==> now.movement == Some(duration)
                && now.global == was.global && now.transparency == was.transparency
            &&& prefix == Some(AnimationPrefix::Transparency) ==> now.transparency == Some(
                duration,
            ) && now.global == was.global && now.movement == was.movement
        }),
        comes_to(
            wm,
            SocketMessage::AnimationFps(fps),
            sight,
            (WindowManagerView { animation: AnimationSettings { fps, ..wm.animation }, ..wm }),
            Seq::empty(),
        ),
{
}

/// The style of animations is set for one kind of animation, or for all.
pub proof fn law_animations_look_as_set(
    wm: WindowManagerView,
    style: AnimationStyle,
    prefix: Option<AnimationPrefix>,
    sight: CommandSightView,
)
    requires
        going::is_heard(wm, sight),
    ensures
        ({
            let (after, plan) = process_command::command_effect(
                wm,
                SocketMessage::AnimationStyle(style, prefix),
                sight,
            );
            let now = after.animation.style;
            let was = wm.animation.style;
            &&& going::does(plan, Seq::empty())
            &&& after == (WindowManagerView {
                animation: AnimationSettings { style: now, ..wm.animation },
                ..wm
            })
            &&& prefix is None ==> now.global == style && now.movement is None && now.transparency
                is None
            &&& prefix == Some(AnimationPrefix::Movement) ==> now.movement == Some(style)
                && now.global == was.global && now.transparency == was.transparency
            &&& prefix == Some(AnimationPrefix::Transparency) ==> now.transparency == Some(style)
                && now.global == was.global && now.movement == was.movement
        }),
{
}

/// A socket that subscribes is among the subscribers, with the options it asks for if it asks for
/// any and with those of before otherwise; every other stays as it was. One that unsubscribes is
/// not among them, and what it had asked for is kept.
pub proof fn law_sockets_subscribe_and_unsubscribe(
    wm: WindowManagerView,
    socket: String,
    options: SubscribeOptions,
    other: Seq<char>,
    sight: CommandSightView,
)
    requires
        going::is_heard(wm, sight),
    ensures
        ({
            let (after, plan) = process_command::command_effect(
                wm,
                SocketMessage::AddSubscriberSocket(socket),
                sight,
            );
            &&& going::does(plan, Seq::empty())
            &&& after == (WindowManagerView { subscriptions: after.subscriptions, ..wm })
            &&& after.subscriptions.sockets.contains_key(socket@)
            &&& other != socket@ ==> after.subscriptions.sockets.contains_key(other)
                == wm.subscriptions.sockets.contains_key(other)
            &&& after.subscriptions.options =~= wm.subscriptions.options
        }),
        ({
            let (after, plan) = process_command::command_effect(
                wm,
                SocketMessage::AddSubscriberSocketWithOptions(socket, options),
                sight,
            );
            &&& going::does(plan, Seq::empty())
            &&& after == (WindowManagerView { subscriptions: after.subscriptions, ..wm })
            &&& after.subscriptions.sockets.contains_key(socket@)
            &&& after.subscriptions.options.contains_key(socket@)
            &&& after.subscriptions.options[socket@] == options
            &&& other != socket@ ==> {
                &&& after.subscriptions.sockets.contains_key(other)
                    == wm.subscriptions.sockets.contains_key(other)
                &&& after.subscriptions.options.contains_key(other)
                    == wm.subscriptions.options.contains_key(other)
                &&& after.subscriptions.options[other] == wm.subscriptions.options[other]
            }
        }),
        ({
            let (after, plan) = process_command::command_effect(
                wm,
                SocketMessage::RemoveSubscriberSocket(socket),
                sight,
            );
            &&& going::does(plan, Seq::empty())
            &&& after == (WindowManagerView { subscriptions: after.subscriptions, ..wm })
            &&& !after.subscriptions.sockets.contains_key(socket@)
            &&& other != socket@ ==> after.subscriptions.sockets.contains_key(other)
                == wm.subscriptions.sockets.contains_key(other)
            &&& after.subscriptions.options =~= wm.subscriptions.options
        }),
{
}

/// Whether a subscriber is told: always where it has not asked to be spared, and otherwise only
/// where the state has changed or the event overrides that. Nobody else is.
pub proof fn law_subscribers_are_told_of_changes(
    subscriptions: SubscriptionsView,
    socket: Seq<char>,
    is_override_event: bool,
    state_has_been_modified: bool,
)
    ensures
        ({
            let told = subscriptions.is_told(socket, is_override_event, state_has_been_modified);
            let spared = subscriptions.options.contains_key(socket)
                && subscriptions.options[socket].filter_state_changes;
            &&& !subscriptions.sockets.contains_key(socket) ==> !told
            &&& subscriptions.sockets.contains_key(socket) && !spared ==> told
            &&& subscriptions.sockets.contains_key(socket) && spared ==> told == (
            is_override_event || state_has_been_modified)
        }),
{
}


/// What changes a setting of the focused workspace fails where there is none, and changes nothing.
pub proof fn law_tuning_needs_a_workspace(
    wm: WindowManagerView,
    error: CommandError,
    columns: usize,
    sight: CommandSightView,
)
    requires
        going::is_heard(wm, sight),
        acting::is_out_of_focus(wm, error),
    ensures
        going::is_refused(
            wm,
            SocketMessage::ToggleWorkspaceWindowContainerBehaviour,
            sight,
            error,
        ),
        going::is_refused(wm, SocketMessage::ToggleWorkspaceFloatOverride, sight, error),
        going::is_refused(wm, SocketMessage::ToggleWindowBasedWorkAreaOffset, sight, error),
        going::is_refused(wm, SocketMessage::ScrollingLayoutColumns(columns), sight, error),
        going::is_refused(wm, SocketMessage::LayoutRatios, sight, error),
{
}

} // verus!
