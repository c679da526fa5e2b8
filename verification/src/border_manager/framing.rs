//! Which windows wear a border, and what becomes of borders.

use crate::border_manager::BorderSettingsView;
use crate::border_manager::FOREGROUND_LOST_GRACE_MS;
use crate::border_manager::Notification;
use crate::border_manager::WINDOW_APPEARANCE_GRACE_MS;
use crate::border_manager::border::Border;
use crate::border_manager::border::BordersView;
use crate::border_manager::border::FrameView;
use crate::border_manager::border::Framed;
use crate::border_manager::border::KeepView;
use crate::border_manager::border;
use crate::border_manager::drawing::Attention;
use crate::border_manager::drawing::BorderStepView;
use crate::border_manager::drawing;
use crate::border_manager::watch::BorderVerdict;
use crate::border_manager::watch::BorderWatch;
use crate::border_manager::watch::WatchSight;
use crate::border_manager::watch;
use crate::process_command::acting;
use crate::settings::WindowKind;
use crate::settings::WorkspaceLayer;
use crate::text;
use crate::window_manager::MonitorView;
use crate::window_manager::Window;
use crate::window_manager::WindowManagerView;
use crate::window_manager::WorkspaceView;
use vstd::prelude::*;

verus! {

/// A container has the focus of the user: it is the focused one of the focused monitor, and its
/// window is the one in front, where that is known.
pub open spec fn has_attention(
    workspace: WorkspaceView,
    c: int,
    monitor_idx: usize,
    window: Window,
    attention: Attention,
) -> bool {
    &&& c == workspace.focused_container
    &&& monitor_idx == attention.focused_monitor
    &&& attention.foreground_window == 0 || attention.foreground_window == window.id
}

/// The border of a container frames its focused window, and says of it whether it has the focus of
/// the user, whether it is one of several then, and whether it is locked if not. Only a window that
/// has it is given the focus back, once that was lost. A container without a window has no border.
pub proof fn law_containers_are_framed_as_they_are(
    workspace: WorkspaceView,
    c: int,
    monitor_idx: usize,
    attention: Attention,
)
    requires
        0 <= c < workspace.containers.len(),
    ensures
        ({
            let frame = drawing::container_frame(workspace, c, monitor_idx, attention);
            let container = workspace.containers[c];
            &&& frame is Some <==> container.focused_window < container.windows.len()
            &&& frame matches Some(frame) ==> {
                let window = container.windows[container.focused_window as int];
                let focused = has_attention(workspace, c, monitor_idx, window, attention);
                &&& frame.id == container.id
                &&& frame.window_id == window.id
                &&& frame.process_id == window.process_id
                &&& frame.monitor_idx == monitor_idx
                &&& frame.floating is None
                &&& focused && container.windows.len() > 1 ==> frame.kind is Stack
                &&& focused && container.windows.len() == 1 ==> frame.kind is Single
                &&& !focused && container.locked ==> frame.kind is UnfocusedLocked
                &&& !focused && !container.locked ==> frame.kind is Unfocused
                &&& frame.refocus <==> focused && attention.foreground_lost
            }
        }),
{
}

/// The border of a floating window goes by its id, and is that of a focused one while the window is
/// in front.
pub proof fn law_floating_windows_are_framed_while_in_front(
    window: Window,
    monitor_idx: usize,
    attention: Attention,
    round: usize,
)
    ensures
        ({
            let frame = drawing::floating_frame(window, monitor_idx, attention, round);
            &&& frame.id == text::decimal_digits(window.id as nat)
            &&& frame.window_id == window.id
            &&& frame.process_id == window.process_id
            &&& frame.monitor_idx == monitor_idx
            &&& frame.floating == Some(round)
            &&& !frame.refocus
            &&& window.id == attention.foreground_window ==> frame.kind is Floating
            &&& window.id != attention.foreground_window ==> frame.kind is Unfocused
        }),
{
}

/// The workspace that a monitor shows is the one whose borders are brought up to date.
pub proof fn law_the_shown_workspace_is_framed(
    monitor: MonitorView,
    monitor_idx: usize,
    attention: Attention,
)
    ensures
        monitor.focused_workspace < monitor.workspaces.len() ==> drawing::monitor_steps(
            monitor,
            monitor_idx,
            attention,
        ) == drawing::workspace_steps(
            monitor.workspaces[monitor.focused_workspace as int],
            monitor_idx,
            attention,
        ),
        monitor.focused_workspace >= monitor.workspaces.len() ==> drawing::monitor_steps(
            monitor,
            monitor_idx,
            attention,
        ).len() == 0,
{
}

/// A workspace that does not tile loses all its borders. In monocle mode the window that covers it
/// wears one, as the one in monocle mode on the focused monitor and as an unfocused one elsewhere;
/// the other borders go, but for those of floating windows while the floating layer is up.
pub proof fn law_a_covering_window_wears_the_border(
    workspace: WorkspaceView,
    monitor_idx: usize,
    attention: Attention,
)
    ensures
        ({
            let steps = drawing::workspace_steps(workspace, monitor_idx, attention);
            &&& !workspace.tile ==> {
                &&& steps.len() == 1
                &&& steps[0] matches BorderStepView::Clear(at, keep) && at == monitor_idx
                    && keep.ids.len() == 0 && keep.windows.len() == 0
            }
            &&& workspace.tile && workspace.monocle_container is Some
                && workspace.monocle_container->0.focused_window
                < workspace.monocle_container->0.windows.len() ==> {
                let monocle = workspace.monocle_container->0;
                let window = monocle.windows[monocle.focused_window as int];
                let n = steps.len();
                let floats = workspace.layer == WorkspaceLayer::Floating;
                &&& n == if floats {
                    2 + workspace.floating_windows.len()
                } else {
                    2
                }
                &&& steps[0] matches BorderStepView::Frame(frame) && frame.id == monocle.id
                    && frame.window_id == window.id && frame.process_id == window.process_id
                    && frame.monitor_idx == monitor_idx && !frame.refocus && frame.floating is None
                    && (frame.kind is Monocle <==> monitor_idx == attention.focused_monitor) && (
                frame.kind is Unfocused <==> monitor_idx != attention.focused_monitor)
                &&& steps[n - 1] matches BorderStepView::Clear(at, keep) && at == monitor_idx
                    && keep.ids =~= seq![monocle.id] && keep.windows.len() == if floats {
                    workspace.floating_windows.len()
                } else {
                    0
                } && forall|i: int|
                    0 <= i < keep.windows.len() ==> #[trigger] keep.windows[i]
                        == workspace.floating_windows[i].id
                &&& floats ==> forall|i: int|
                    0 <= i < workspace.floating_windows.len() ==> (#[trigger] steps[1 + i])
                        == BorderStepView::Frame(
                        drawing::floating_frame(
                            workspace.floating_windows[i],
                            monitor_idx,
                            attention,
                            0,
                        ),
                    )
            }
        }),
{
}

proof fn lemma_container_step(
    workspace: WorkspaceView,
    n: int,
    c: int,
    monitor_idx: usize,
    attention: Attention,
)
    requires
        0 <= c < n <= workspace.containers.len(),
        workspace.containers[c].focused_window < workspace.containers[c].windows.len(),
    ensures
        exists|k: int|
            0 <= k < drawing::container_steps(workspace, n, monitor_idx, attention).len()
                && #[trigger] drawing::container_steps(workspace, n, monitor_idx, attention)[k]
                == BorderStepView::Frame(
                drawing::container_frame(workspace, c, monitor_idx, attention)->0,
            ),
    decreases n,
{
    let all = drawing::container_steps(workspace, n, monitor_idx, attention);
    let earlier = drawing::container_steps(workspace, n - 1, monitor_idx, attention);
    let step = BorderStepView::Frame(
        drawing::container_frame(workspace, c, monitor_idx, attention)->0,
    );
    if c == n - 1 {
        assert(all[earlier.len() as int] == step);
    } else {
        lemma_container_step(workspace, n - 1, c, monitor_idx, attention);
        let k = choose|k: int| 0 <= k < earlier.len() && #[trigger] earlier[k] == step;
        assert(all[k] == step);
    }
}

/// On a workspace that tiles and is not in monocle mode, every container that has a window is
/// framed, and the borders that go afterwards are those of neither its containers nor its floating
/// windows.
pub proof fn law_every_container_is_framed(
    workspace: WorkspaceView,
    monitor_idx: usize,
    attention: Attention,
    c: int,
    f: int,
)
    requires
        workspace.tile,
        workspace.monocle_container is None,
        0 <= c < workspace.containers.len(),
    ensures
        ({
            let steps = drawing::workspace_steps(workspace, monitor_idx, attention);
            let n = steps.len();
            let container = workspace.containers[c];
            &&& n > 0
            &&& container.focused_window < container.windows.len() ==> exists|k: int|
                0 <= k < n - 1 && #[trigger] steps[k] == BorderStepView::Frame(
                    drawing::container_frame(workspace, c, monitor_idx, attention)->0,
                )
            &&& steps[n - 1] matches BorderStepView::Clear(at, keep) && at == monitor_idx
                && keep.windows.len() == 0 && keep.ids.contains(container.id) && (0 <= f
                < workspace.floating_windows.len() ==> keep.ids.contains(
                text::decimal_digits(workspace.floating_windows[f].id as nat),
            ))
        }),
{
    let steps = drawing::workspace_steps(workspace, monitor_idx, attention);
    let count = workspace.containers.len() as int;
    let made = drawing::container_steps(workspace, count, monitor_idx, attention);
    let container = workspace.containers[c];
    if container.focused_window < container.windows.len() {
        lemma_container_step(workspace, count, c, monitor_idx, attention);
        let step = BorderStepView::Frame(
            drawing::container_frame(workspace, c, monitor_idx, attention)->0,
        );
        let k = choose|k: int| 0 <= k < made.len() && #[trigger] made[k] == step;
        assert(steps[k] == step);
    }
    let keep = drawing::kept_on(workspace);
    assert(keep.ids[c] == container.id);
    if 0 <= f < workspace.floating_windows.len() {
        assert(keep.ids[count + f] == text::decimal_digits(
            workspace.floating_windows[f].id as nat,
        ));
    }
}

proof fn lemma_after_round(steps: Seq<BorderStepView>, round: usize, from: int)
    requires
        0 <= from <= steps.len(),
    ensures
        ({
            let next = drawing::after_round(steps, round, from);
            &&& from <= next <= steps.len()
            &&& forall|j: int|
                from <= j < next ==> drawing::is_floating_in(#[trigger] steps[j], round)
            &&& next < steps.len() ==> !drawing::is_floating_in(steps[next], round)
        }),
    decreases steps.len() - from,
{
    if from < steps.len() && drawing::is_floating_in(steps[from], round) {
        lemma_after_round(steps, round, from + 1);
    }
}

/// Where a border could not be made, nothing more is drawn if it was that of a container; if it was
/// that of a floating window, the others of its round are passed over.
pub proof fn law_a_refused_border_ends_its_round(steps: Seq<BorderStepView>, i: int, frame: FrameView)
    requires
        0 <= i < steps.len(),
        steps[i] == BorderStepView::Frame(frame),
    ensures
        ({
            let next = drawing::after_refusal(steps, i);
            &&& frame.floating is None ==> next == steps.len()
            &&& frame.floating matches Some(round) ==> {
                &&& i < next <= steps.len()
                &&& forall|j: int|
                    i < j < next ==> ((#[trigger] steps[j]) matches BorderStepView::Frame(other)
                        && other.floating == Some(round))
                &&& next < steps.len() ==> !(steps[next] matches BorderStepView::Frame(other)
                    && other.floating == Some(round))
            }
        }),
{
    if let Some(round) = frame.floating {
        lemma_after_round(steps, round, i + 1);
        let next = drawing::after_refusal(steps, i);
        assert forall|j: int| i < j < next implies ((
        #[trigger] steps[j]) matches BorderStepView::Frame(other) && other.floating == Some(
            round,
        )) by {
            assert(drawing::is_floating_in(steps[j], round));
        }
    }
}

/// A border shows unless its window is an unfocused one, locked or not; and then it has the colour
/// of its kind, the width that is set, and the radius that is set for the application or else for
/// all.
pub proof fn law_borders_look_as_set(settings: BorderSettingsView, worn: Border)
    ensures
        ({
            let look = border::look_of(settings, worn);
            let kind = worn.window_kind;
            &&& look is None <==> kind is Unfocused || kind is UnfocusedLocked
            &&& look matches Some(look) ==> {
                &&& look.width == settings.width
                &&& look.flash == settings.flash.style
                &&& look.radius == if settings.radius_rules.contains_key(worn.application_name@) {
                    settings.radius_rules[worn.application_name@]
                } else {
                    settings.radius
                }
                &&& kind is Single ==> look.colour == settings.focused
                &&& kind is Stack ==> look.colour == settings.stack
                &&& kind is Monocle ==> look.colour == settings.monocle
                &&& kind is Floating ==> look.colour == settings.floating
            }
        }),
{
}

/// A window is framed with the border that goes by the id of its frame, or with a new one where
/// there is none and one could be made. The border has the kind and the monitor of the frame, and
/// frames the window from then on, unless it is that of a floating one; no other border changes.
pub proof fn law_a_window_is_framed_with_its_border(
    borders: BordersView,
    frame: FrameView,
    made: Option<String>,
    other: Seq<char>,
)
    ensures
        ({
            let (after, outcome) = border::framing(borders, frame, made);
            let there = borders.state.contains_key(frame.id);
            let now = after.state[frame.id];
            if !there && made is None {
                after == borders && outcome is Refused
            } else {
                &&& outcome is Redraw
                &&& after.state.contains_key(frame.id)
                &&& now.window_kind == frame.kind
                &&& now.monitor_idx == Some(frame.monitor_idx)
                &&& after.windows.contains_key(frame.window_id)
                &&& after.windows[frame.window_id] == frame.id
                &&& other != frame.id ==> after.state.contains_key(other)
                    == borders.state.contains_key(other) && after.state[other]
                    == borders.state[other]
                &&& there ==> {
                    let was = borders.state[frame.id];
                    &&& now.application_name == was.application_name
                    &&& now.process_id == was.process_id
                    &&& now.tracking_window_id == if frame.floating is None {
                        frame.window_id
                    } else {
                        was.tracking_window_id
                    }
                    &&& outcome == Framed::Redraw {
                        retrack: frame.floating is None && was.tracking_window_id
                            != frame.window_id && was.process_id == frame.process_id,
                    }
                }
                &&& !there ==> {
                    &&& now.application_name == made->0
                    &&& now.process_id == frame.process_id
                    &&& now.tracking_window_id == frame.window_id
                    &&& outcome == Framed::Redraw { retrack: false }
                }
            }
        }),
{
}

/// A window is forgotten only if the border that framed it went over to another, and only if no
/// other border frames it by now.
pub proof fn law_a_window_is_forgotten_with_its_border(
    borders: BordersView,
    frame: FrameView,
    made: Option<String>,
    window_id: u32,
)
    requires
        window_id != frame.window_id,
    ensures
        ({
            let after = border::framing(borders, frame, made).0;
            let went_over = borders.state.contains_key(frame.id) && frame.floating is None
                && borders.state[frame.id].tracking_window_id == window_id;
            &&& after.windows.contains_key(window_id) <==> borders.windows.contains_key(window_id)
                && !(went_over && borders.windows[window_id] == frame.id)
            &&& after.windows.contains_key(window_id) ==> after.windows[window_id]
                == borders.windows[window_id]
        }),
{
}

/// A border goes if it is on the monitor and neither it nor its window is to be kept.
pub open spec fn goes(borders: BordersView, monitor_idx: usize, keep: KeepView, id: Seq<char>) -> bool {
    &&& borders.state.contains_key(id)
    &&& borders.state[id].monitor_idx == Some(monitor_idx)
    &&& !keep.ids.contains(id)
    &&& !keep.windows.contains(borders.state[id].tracking_window_id)
}

/// Clearing a monitor takes away the borders on it that are not to be kept, and no other; the windows
/// that they framed are forgotten, and no other.
pub proof fn law_only_borders_that_are_not_kept_go(
    borders: BordersView,
    monitor_idx: usize,
    keep: KeepView,
    id: Seq<char>,
    window_id: u32,
)
    ensures
        ({
            let after = border::cleared(borders, monitor_idx, keep);
            &&& after.state.contains_key(id) <==> borders.state.contains_key(id) && !goes(
                borders,
                monitor_idx,
                keep,
                id,
            )
            &&& after.state.contains_key(id) ==> after.state[id] == borders.state[id]
            &&& after.windows.contains_key(window_id) <==> borders.windows.contains_key(window_id)
                && !(exists|other: Seq<char>| #[trigger]
                goes(borders, monitor_idx, keep, other) && borders.state[other].tracking_window_id
                    == window_id)
            &&& after.windows.contains_key(window_id) ==> after.windows[window_id]
                == borders.windows[window_id]
        }),
{
    assert forall|other: Seq<char>| #[trigger]
        goes(borders, monitor_idx, keep, other) == border::doomed(
            borders,
            monitor_idx,
            keep,
            other,
        ) by {}
    if border::loses_border(borders, monitor_idx, keep, window_id) {
        let other = choose|other: Seq<char>| #[trigger]
            border::doomed(borders, monitor_idx, keep, other)
                && borders.state[other].tracking_window_id == window_id;
        assert(goes(borders, monitor_idx, keep, other));
    }
}

/// The window in front is managed, or it is not known which one is in front.
pub open spec fn is_at_home(wm: WindowManagerView, sight: WatchSight) -> bool {
    sight.foreground_window == 0 || wm.shows(sight.foreground_window)
}

/// A window has a border of some kind.
pub open spec fn wears(borders: BordersView, window_id: u32, kind: WindowKind) -> bool {
    &&& borders.windows.contains_key(window_id)
    &&& borders.state.contains_key(borders.windows[window_id])
    &&& borders.state[borders.windows[window_id]].window_kind == kind
}

/// What is remembered of each look: whether the window in front is managed, which one it is, and
/// since when there has been none.
pub proof fn law_each_look_is_remembered(
    wm: WindowManagerView,
    seen: BorderWatch,
    borders: BordersView,
    notification: Option<Notification>,
    sight: WatchSight,
)
    ensures
        ({
            let now = watch::look_effect(wm, seen, borders, notification, sight).0;
            &&& now.foreground_is_managed == is_at_home(wm, sight)
            &&& now.foreground_window == sight.foreground_window
            &&& sight.foreground_window != 0 ==> now.foreground_lost_since is None
            &&& sight.foreground_window == 0 && seen.foreground_lost_since is Some
                ==> now.foreground_lost_since == seen.foreground_lost_since
            &&& sight.foreground_window == 0 && seen.foreground_lost_since is None
                ==> now.foreground_lost_since == Some(sight.now)
        }),
{
}

/// What is done once there is a reason to: borders are hidden while a window that is not managed is in
/// front, taken away while they are switched off or everything is paused, and drawn otherwise.
pub proof fn law_borders_are_drawn_while_they_may_be(
    wm: WindowManagerView,
    seen: BorderWatch,
    borders: BordersView,
    sight: WatchSight,
)
    ensures
        ({
            let (now, verdict) = watch::look_effect(
                wm,
                seen,
                borders,
                Some(Notification::ForceUpdate),
                sight,
            );
            let lost = sight.foreground_window == 0 && seen.foreground_lost_since is Some
                && seen.foreground_lost_since->0 + FOREGROUND_LOST_GRACE_MS <= sight.now
                && wm.borders.last_window_appeared + WINDOW_APPEARANCE_GRACE_MS <= sight.now;
            &&& !is_at_home(wm, sight) ==> verdict is HideAll
            &&& is_at_home(wm, sight) && (!wm.borders.enabled || wm.is_paused) ==> verdict
                is DestroyAll && now.is_paused == wm.is_paused
            &&& is_at_home(wm, sight) && wm.borders.enabled && !wm.is_paused ==> {
                &&& verdict == BorderVerdict::Draw(
                    Attention {
                        focused_monitor: wm.focused_monitor,
                        foreground_window: sight.foreground_window,
                        foreground_lost: lost,
                    },
                )
                &&& now.pending_move_op == wm.pending_move_op
                &&& !now.is_paused
                &&& now.notification == Some(Notification::ForceUpdate)
            }
        }),
{
}

/// Without a word, or with one about a window, borders are looked at exactly for these reasons: the
/// window in front is managed and the last was not, or the other way round; the reaper sent the word;
/// the monitors have changed; a window was taken hold of or let go of; everything was paused or is no
/// longer; there is no border yet; the window wears that of an unfocused one; it is a floating one,
/// or a floating one that is not in front still wears that of a focused one; or the word before was
/// about another window.
pub proof fn law_borders_are_looked_at_for_a_reason(
    wm: WindowManagerView,
    workspace: WorkspaceView,
    seen: BorderWatch,
    borders: BordersView,
    about: Option<u32>,
    reaper: bool,
    sight: WatchSight,
)
    requires
        acting::is_in_focus(wm, workspace),
    ensures
        ({
            let silent = watch::look_effect(wm, seen, borders, None, sight).1;
            let verdict = watch::look_effect(
                wm,
                seen,
                borders,
                Some(Notification::Update(about, reaper)),
                sight,
            ).1;
            let id = if about is Some {
                about->0
            } else {
                0
            };
            let crossed = is_at_home(wm, sight) != seen.foreground_is_managed;
            let reason = {
                ||| crossed
                ||| reaper
                ||| !sight.monitors_unchanged
                ||| wm.pending_move_op != seen.pending_move_op
                ||| wm.is_paused != seen.is_paused
                ||| borders.state == Map::<Seq<char>, Border>::empty()
                ||| wears(borders, id, WindowKind::Unfocused)
                ||| exists|i: int|
                    0 <= i < workspace.floating_windows.len() && ((
                    #[trigger] workspace.floating_windows[i]).id == id
                        || workspace.floating_windows[i].id != sight.foreground_window && wears(
                        borders,
                        workspace.floating_windows[i].id,
                        WindowKind::Floating,
                    ))
                ||| seen.notification matches Some(Notification::Update(before, false)) && {
                    (if before is Some {
                        before->0
                    } else {
                        0
                    }) != id
                }
            };
            &&& silent is Skip <==> !crossed
            &&& verdict is Skip <==> !reason
        }),
{
    let id = if about is Some {
        about->0
    } else {
        0
    };
    let windows = workspace.floating_windows;
    assert forall|i: int| 0 <= i < windows.len() implies watch::touches_floating(
        #[trigger] windows[i],
        borders,
        id,
        sight.foreground_window,
    ) == (windows[i].id == id || windows[i].id != sight.foreground_window && wears(
        borders,
        windows[i].id,
        WindowKind::Floating,
    )) by {}
    if watch::touches_any_floating(windows, borders, id, sight.foreground_window) {
        let i = choose|i: int|
            0 <= i < windows.len() && watch::touches_floating(
                #[trigger] windows[i],
                borders,
                id,
                sight.foreground_window,
            );
        assert(windows[i].id == id || windows[i].id != sight.foreground_window);
    }
    if exists|i: int|
        0 <= i < windows.len() && ((#[trigger] windows[i]).id == id || windows[i].id
            != sight.foreground_window && wears(borders, windows[i].id, WindowKind::Floating)) {
        let i = choose|i: int|
            0 <= i < windows.len() && ((#[trigger] windows[i]).id == id || windows[i].id
                != sight.foreground_window && wears(borders, windows[i].id, WindowKind::Floating));
        assert(watch::touches_floating(windows[i], borders, id, sight.foreground_window));
    }
}


proof fn lemma_floating_step(
    workspace: WorkspaceView,
    n: int,
    c: int,
    f: int,
    monitor_idx: usize,
    attention: Attention,
)
    requires
        0 <= c < n <= workspace.containers.len() <= usize::MAX,
        0 <= f < workspace.floating_windows.len(),
    ensures
        drawing::container_steps(workspace, n, monitor_idx, attention).contains(
            BorderStepView::Frame(
                drawing::floating_frame(
                    workspace.floating_windows[f],
                    monitor_idx,
                    attention,
                    c as usize,
                ),
            ),
        ),
    decreases n,
{
    let all = drawing::container_steps(workspace, n, monitor_idx, attention);
    let earlier = drawing::container_steps(workspace, n - 1, monitor_idx, attention);
    let step = BorderStepView::Frame(
        drawing::floating_frame(
            workspace.floating_windows[f],
            monitor_idx,
            attention,
            c as usize,
        ),
    );
    if c == n - 1 {
        let count = workspace.floating_windows.len();
        assert(all[all.len() - count + f] == step);
    } else {
        lemma_floating_step(workspace, n - 1, c, f, monitor_idx, attention);
        let k = choose|k: int| 0 <= k < earlier.len() && earlier[k] == step;
        assert(all[k] == step);
    }
}

/// On a workspace that tiles and is not in monocle mode, every floating window is framed in a round of
/// its own after each container.
pub proof fn law_floating_windows_are_framed_every_round(
    workspace: WorkspaceView,
    monitor_idx: usize,
    attention: Attention,
    c: int,
    f: int,
)
    requires
        workspace.tile,
        workspace.monocle_container is None,
        0 <= c < workspace.containers.len() <= usize::MAX,
        0 <= f < workspace.floating_windows.len(),
    ensures
        drawing::workspace_steps(workspace, monitor_idx, attention).contains(
            BorderStepView::Frame(
                drawing::floating_frame(
                    workspace.floating_windows[f],
                    monitor_idx,
                    attention,
                    c as usize,
                ),
            ),
        ),
{
    let count = workspace.containers.len() as int;
    let made = drawing::container_steps(workspace, count, monitor_idx, attention);
    let steps = drawing::workspace_steps(workspace, monitor_idx, attention);
    lemma_floating_step(workspace, count, c, f, monitor_idx, attention);
    let step = BorderStepView::Frame(
        drawing::floating_frame(
            workspace.floating_windows[f],
            monitor_idx,
            attention,
            c as usize,
        ),
    );
    let k = choose|k: int| 0 <= k < made.len() && made[k] == step;
    assert(steps[k] == step);
}

} // verus!
