//! How the borders of a monitor are brought up to date.
//!
//! The borders of the workspace that a monitor is showing are made and redrawn first, and
//! those of other workspaces are removed afterwards, so that a new border does not have to
//! wait for an old one to go.

use crate::border_manager::border;
use crate::border_manager::border::BordersView;
use crate::border_manager::border::Frame;
use crate::border_manager::border::FrameView;
use crate::border_manager::border::Keep;
use crate::border_manager::border::KeepView;
use crate::settings::WindowKind;
use crate::settings::WorkspaceLayer;
use crate::text;
use crate::window_manager::Container;
use crate::window_manager::ContainerView;
use crate::window_manager::Monitor;
use crate::window_manager::MonitorView;
use crate::window_manager::Window;
use crate::window_manager::Workspace;
use crate::window_manager::WorkspaceView;
use vstd::prelude::*;

verus! {

/// One step of bringing the borders of a monitor up to date.
#[derive(Debug)]
pub enum BorderStep {
    /// A window is framed.
    Frame(Frame),
    /// The borders on a monitor are removed, but for some.
    Clear(usize, Keep),
}

/// The value of a [`BorderStep`].
pub enum BorderStepView {
    Frame(FrameView),
    Clear(usize, KeepView),
}

impl DeepView for BorderStep {
    type V = BorderStepView;

    open spec fn deep_view(&self) -> BorderStepView {
        match self {
            BorderStep::Frame(frame) => BorderStepView::Frame(frame.deep_view()),
            BorderStep::Clear(monitor_idx, keep) => BorderStepView::Clear(
                *monitor_idx,
                keep.deep_view(),
            ),
        }
    }
}

/// Where the focus is.
#[derive(Clone, Copy, Debug, PartialEq, Eq, Structural)]
pub struct Attention {
    pub focused_monitor: usize,
    /// The window in front, or zero where that is not known.
    pub foreground_window: u32,
    /// Nothing has been in front for so long that a window must have closed.
    pub foreground_lost: bool,
}

/// What a container is to its border. The focused container only counts as focused if its
/// window is the one in front, unless that is not known.
pub open spec fn container_kind(
    container: ContainerView,
    is_focused: bool,
    window: Window,
    monitor_idx: usize,
    attention: Attention,
) -> WindowKind {
    if !is_focused || monitor_idx != attention.focused_monitor || (attention.foreground_window != 0
        && window.id != attention.foreground_window) {
        if container.locked {
            WindowKind::UnfocusedLocked
        } else {
            WindowKind::Unfocused
        }
    } else if container.windows.len() > 1 {
        WindowKind::Stack
    } else {
        WindowKind::Single
    }
}

/// The frame of a container, if it has a window to frame.
pub open spec fn container_frame(
    workspace: WorkspaceView,
    c: int,
    monitor_idx: usize,
    attention: Attention,
) -> Option<FrameView> {
    let container = workspace.containers[c];
    match container.focused() {
        Some(window) => {
            let kind = container_kind(
                container,
                c == workspace.focused_container,
                window,
                monitor_idx,
                attention,
            );
            Some(
                FrameView {
                    monitor_idx,
                    id: container.id,
                    window_id: window.id,
                    process_id: window.process_id,
                    kind,
                    refocus: attention.foreground_lost && border::shows_border(kind),
                    floating: None,
                },
            )
        },
        None => None,
    }
}

/// The frame of a floating window, whose border goes by the id of the window.
pub open spec fn floating_frame(
    window: Window,
    monitor_idx: usize,
    attention: Attention,
    round: usize,
) -> FrameView {
    FrameView {
        monitor_idx,
        id: text::decimal_digits(window.id as nat),
        window_id: window.id,
        process_id: window.process_id,
        kind: if window.id == attention.foreground_window {
            WindowKind::Floating
        } else {
            WindowKind::Unfocused
        },
        refocus: false,
        floating: Some(round),
    }
}

/// The floating windows of a workspace are framed.
pub open spec fn floating_steps(
    workspace: WorkspaceView,
    monitor_idx: usize,
    attention: Attention,
    round: usize,
) -> Seq<BorderStepView> {
    workspace.floating_windows.map_values(
        |window: Window|
            BorderStepView::Frame(floating_frame(window, monitor_idx, attention, round)),
    )
}

/// The first `n` containers are framed, each of them followed by the floating windows.
pub open spec fn container_steps(
    workspace: WorkspaceView,
    n: int,
    monitor_idx: usize,
    attention: Attention,
) -> Seq<BorderStepView>
    decreases n,
{
    if n <= 0 {
        Seq::empty()
    } else {
        let earlier = container_steps(workspace, n - 1, monitor_idx, attention);
        let here: Seq<BorderStepView> = match container_frame(
            workspace,
            n - 1,
            monitor_idx,
            attention,
        ) {
            Some(frame) => seq![BorderStepView::Frame(frame)],
            None => Seq::empty(),
        };
        earlier + here + floating_steps(workspace, monitor_idx, attention, (n - 1) as usize)
    }
}

/// The borders of the containers and the floating windows stay.
pub open spec fn kept_on(workspace: WorkspaceView) -> KeepView {
    KeepView {
        ids: workspace.containers.map_values(|container: ContainerView| container.id)
            + workspace.floating_windows.map_values(
            |window: Window| text::decimal_digits(window.id as nat),
        ),
        windows: Seq::empty(),
    }
}

/// The ids of some windows.
pub open spec fn ids_of(windows: Seq<Window>) -> Seq<u32> {
    windows.map_values(|window: Window| window.id)
}

/// A workspace in monocle mode: one border for the container that covers it, the floating
/// windows where they are in front, and no other.
pub open spec fn monocle_steps(
    workspace: WorkspaceView,
    monocle: ContainerView,
    window: Window,
    monitor_idx: usize,
    attention: Attention,
) -> Seq<BorderStepView> {
    let frame = BorderStepView::Frame(
        FrameView {
            monitor_idx,
            id: monocle.id,
            window_id: window.id,
            process_id: window.process_id,
            kind: if monitor_idx != attention.focused_monitor {
                WindowKind::Unfocused
            } else {
                WindowKind::Monocle
            },
            refocus: false,
            floating: None,
        },
    );
    if workspace.layer == WorkspaceLayer::Floating {
        seq![frame] + floating_steps(workspace, monitor_idx, attention, 0) + seq![
            BorderStepView::Clear(
                monitor_idx,
                KeepView { ids: seq![monocle.id], windows: ids_of(workspace.floating_windows) },
            ),
        ]
    } else {
        seq![
            frame,
            BorderStepView::Clear(
                monitor_idx,
                KeepView { ids: seq![monocle.id], windows: Seq::empty() },
            ),
        ]
    }
}

/// The window that covers a workspace in monocle mode, and its container.
pub open spec fn monocle_of(workspace: WorkspaceView) -> Option<(ContainerView, Window)> {
    match workspace.monocle_container {
        Some(monocle) => match monocle.focused() {
            Some(window) => Some((monocle, window)),
            None => None,
        },
        None => None,
    }
}

/// The borders of a workspace are brought up to date. One that does not tile has none.
pub open spec fn workspace_steps(
    workspace: WorkspaceView,
    monitor_idx: usize,
    attention: Attention,
) -> Seq<BorderStepView> {
    if !workspace.tile {
        seq![
            BorderStepView::Clear(
                monitor_idx,
                KeepView { ids: Seq::empty(), windows: Seq::empty() },
            ),
        ]
    } else {
        match monocle_of(workspace) {
            Some((monocle, window)) => monocle_steps(
                workspace,
                monocle,
                window,
                monitor_idx,
                attention,
            ),
            None => container_steps(
                workspace,
                workspace.containers.len() as int,
                monitor_idx,
                attention,
            ).push(BorderStepView::Clear(monitor_idx, kept_on(workspace))),
        }
    }
}

/// The borders of a monitor are brought up to date.
pub open spec fn monitor_steps(
    monitor: MonitorView,
    monitor_idx: usize,
    attention: Attention,
) -> Seq<BorderStepView> {
    match monitor.focused() {
        Some(workspace) => workspace_steps(workspace, monitor_idx, attention),
        None => Seq::empty(),
    }
}

/// The step frames a floating window in this round.
pub open spec fn is_floating_in(step: BorderStepView, round: usize) -> bool {
    step matches BorderStepView::Frame(frame) && frame.floating == Some(round)
}

/// The first step from `from` on that does not frame a floating window in this round.
pub open spec fn after_round(steps: Seq<BorderStepView>, round: usize, from: int) -> int
    decreases steps.len() - from,
{
    if from < 0 || from >= steps.len() || !is_floating_in(steps[from], round) {
        from
    } else {
        after_round(steps, round, from + 1)
    }
}

/// Where to go on when the border of step `i` could not be made: after the round for a
/// floating window, and not at all for any other.
pub open spec fn after_refusal(steps: Seq<BorderStepView>, i: int) -> int {
    match steps[i] {
        BorderStepView::Frame(frame) => match frame.floating {
            Some(round) => after_round(steps, round, i + 1),
            None => steps.len() as int,
        },
        BorderStepView::Clear(_, _) => i + 1,
    }
}

fn kind_of_container(
    container: &Container,
    is_focused: bool,
    window: &Window,
    monitor_idx: usize,
    attention: Attention,
) -> (kind: WindowKind)
    ensures
        kind == container_kind(
            container.deep_view(),
            is_focused,
            *window,
            monitor_idx,
            attention,
        ),
{
    if !is_focused || monitor_idx != attention.focused_monitor || (attention.foreground_window != 0
        && window.id != attention.foreground_window) {
        if container.locked {
            WindowKind::UnfocusedLocked
        } else {
            WindowKind::Unfocused
        }
    } else if container.windows.len() > 1 {
        WindowKind::Stack
    } else {
        WindowKind::Single
    }
}

fn frame_container(
    workspace: &Workspace,
    c: usize,
    monitor_idx: usize,
    attention: Attention,
) -> (frame: Option<Frame>)
    requires
        c < workspace.containers.len(),
    ensures
        frame.deep_view() == container_frame(
            workspace.deep_view(),
            c as int,
            monitor_idx,
            attention,
        ),
{
    let container = &workspace.containers[c];
    assert(workspace.deep_view().containers[c as int] == container.deep_view());
    match container.focused() {
        Some(window) => {
            let kind = kind_of_container(
                container,
                c == workspace.focused_container,
                window,
                monitor_idx,
                attention,
            );
            let showing: bool = match kind {
                WindowKind::Unfocused | WindowKind::UnfocusedLocked => false,
                _ => true,
            };
            Some(
                Frame {
                    monitor_idx,
                    id: container.id.clone(),
                    window_id: window.id,
                    process_id: window.process_id,
                    kind,
                    refocus: attention.foreground_lost && showing,
                    floating: None,
                },
            )
        },
        None => None,
    }
}

fn push_floating(
    steps: &mut Vec<BorderStep>,
    workspace: &Workspace,
    monitor_idx: usize,
    attention: Attention,
    round: usize,
)
    ensures
        final(steps).deep_view() == old(steps).deep_view() + floating_steps(
            workspace.deep_view(),
            monitor_idx,
            attention,
            round,
        ),
{
    let ghost before = steps.deep_view();
    let ghost all = floating_steps(workspace.deep_view(), monitor_idx, attention, round);
    let mut i: usize = 0;
    while i < workspace.floating_windows.len()
        invariant
            i <= workspace.floating_windows.len(),
            all == floating_steps(workspace.deep_view(), monitor_idx, attention, round),
            steps.deep_view() =~= before + all.take(i as int),
        decreases workspace.floating_windows.len() - i,
    {
        let window = &workspace.floating_windows[i];
        let kind = if window.id == attention.foreground_window {
            WindowKind::Floating
        } else {
            WindowKind::Unfocused
        };
        let ghost now = steps.deep_view();
        let step = BorderStep::Frame(
            Frame {
                monitor_idx,
                id: text::decimal(window.id as usize),
                window_id: window.id,
                process_id: window.process_id,
                kind,
                refocus: false,
                floating: Some(round),
            },
        );
        assert(step.deep_view() == all[i as int]);
        steps.push(step);
        assert(steps.deep_view() =~= now.push(all[i as int]));
        i += 1;
        assert(all.take(i as int) =~= all.take(i - 1).push(all[i - 1]));
    }
    assert(all.take(i as int) =~= all);
}

fn plan_containers(workspace: &Workspace, monitor_idx: usize, attention: Attention) -> (steps: Vec<
    BorderStep,
>)
    ensures
        steps.deep_view() == container_steps(
            workspace.deep_view(),
            workspace.containers.len() as int,
            monitor_idx,
            attention,
        ),
{
    let mut steps: Vec<BorderStep> = Vec::new();
    assert(steps.deep_view() =~= Seq::<BorderStepView>::empty());
    let mut c: usize = 0;
    while c < workspace.containers.len()
        invariant
            c <= workspace.containers.len(),
            steps.deep_view() == container_steps(
                workspace.deep_view(),
                c as int,
                monitor_idx,
                attention,
            ),
        decreases workspace.containers.len() - c,
    {
        let ghost earlier = steps.deep_view();
        let ghost here: Seq<BorderStepView> = match container_frame(
            workspace.deep_view(),
            c as int,
            monitor_idx,
            attention,
        ) {
            Some(frame) => seq![BorderStepView::Frame(frame)],
            None => Seq::empty(),
        };
        if let Some(frame) = frame_container(workspace, c, monitor_idx, attention) {
            steps.push(BorderStep::Frame(frame));
        }
        assert(steps.deep_view() =~= earlier + here);
        push_floating(&mut steps, workspace, monitor_idx, attention, c);
        c += 1;
    }
    steps
}

fn keep_borders(workspace: &Workspace) -> (keep: Keep)
    ensures
        keep.deep_view() == kept_on(workspace.deep_view()),
{
    let mut ids: Vec<String> = Vec::new();
    let ghost all = kept_on(workspace.deep_view()).ids;
    let mut c: usize = 0;
    while c < workspace.containers.len()
        invariant
            c <= workspace.containers.len(),
            all == kept_on(workspace.deep_view()).ids,
            ids.deep_view() =~= all.take(c as int),
        decreases workspace.containers.len() - c,
    {
        let ghost now = ids.deep_view();
        assert(all[c as int] == workspace.containers[c as int].id@);
        ids.push(workspace.containers[c].id.clone());
        assert(ids.deep_view() =~= now.push(all[c as int]));
        c += 1;
    }
    let mut i: usize = 0;
    while i < workspace.floating_windows.len()
        invariant
            i <= workspace.floating_windows.len(),
            all == kept_on(workspace.deep_view()).ids,
            ids.deep_view() =~= all.take(workspace.containers.len() + i),
        decreases workspace.floating_windows.len() - i,
    {
        let ghost now = ids.deep_view();
        let ghost at = workspace.containers.len() + i;
        assert(all[at] == text::decimal_digits(workspace.floating_windows[i as int].id as nat));
        ids.push(text::decimal(workspace.floating_windows[i].id as usize));
        assert(ids.deep_view() =~= now.push(all[at]));
        i += 1;
    }
    let keep = Keep { ids, windows: Vec::new() };
    assert(keep.deep_view() =~= kept_on(workspace.deep_view()));
    keep
}

fn window_ids(windows: &Vec<Window>) -> (ids: Vec<u32>)
    ensures
        ids@ == ids_of(windows@),
{
    let mut ids: Vec<u32> = Vec::new();
    let mut i: usize = 0;
    while i < windows.len()
        invariant
            i <= windows.len(),
            ids@ =~= ids_of(windows@).take(i as int),
        decreases windows.len() - i,
    {
        ids.push(windows[i].id);
        i += 1;
    }
    ids
}

fn plan_monocle(
    workspace: &Workspace,
    monocle: &Container,
    window: &Window,
    monitor_idx: usize,
    attention: Attention,
) -> (steps: Vec<BorderStep>)
    ensures
        steps.deep_view() == monocle_steps(
            workspace.deep_view(),
            monocle.deep_view(),
            *window,
            monitor_idx,
            attention,
        ),
{
    let kind = if monitor_idx != attention.focused_monitor {
        WindowKind::Unfocused
    } else {
        WindowKind::Monocle
    };
    let frame = Frame {
        monitor_idx,
        id: monocle.id.clone(),
        window_id: window.id,
        process_id: window.process_id,
        kind,
        refocus: false,
        floating: None,
    };
    let ghost first = BorderStepView::Frame(frame.deep_view());
    let mut steps: Vec<BorderStep> = vec![BorderStep::Frame(frame)];
    assert(steps.deep_view() =~= seq![first]);
    let mut windows: Vec<u32> = Vec::new();
    match workspace.layer {
        WorkspaceLayer::Floating => {
            push_floating(&mut steps, workspace, monitor_idx, attention, 0);
            windows = window_ids(&workspace.floating_windows);
        },
        WorkspaceLayer::Tiling => {},
    }
    let keep = Keep { ids: vec![monocle.id.clone()], windows };
    assert(keep.ids.deep_view() =~= seq![monocle.id@]);
    let ghost before = steps.deep_view();
    let ghost last = BorderStepView::Clear(monitor_idx, keep.deep_view());
    steps.push(BorderStep::Clear(monitor_idx, keep));
    assert(steps.deep_view() =~= before.push(last));
    assert(steps.deep_view() =~= monocle_steps(
        workspace.deep_view(),
        monocle.deep_view(),
        *window,
        monitor_idx,
        attention,
    ));
    steps
}

fn plan_workspace(workspace: &Workspace, monitor_idx: usize, attention: Attention) -> (steps: Vec<
    BorderStep,
>)
    ensures
        steps.deep_view() == workspace_steps(workspace.deep_view(), monitor_idx, attention),
{
    if !workspace.tile {
        let keep = Keep { ids: Vec::new(), windows: Vec::new() };
        assert(keep.deep_view() =~= (KeepView { ids: Seq::empty(), windows: Seq::empty() }));
        let steps: Vec<BorderStep> = vec![BorderStep::Clear(monitor_idx, keep)];
        assert(steps.deep_view() =~= workspace_steps(
            workspace.deep_view(),
            monitor_idx,
            attention,
        ));
        return steps;
    }
    if let Some(monocle) = &workspace.monocle_container {
        if let Some(window) = monocle.focused() {
            return plan_monocle(workspace, monocle, window, monitor_idx, attention);
        }
    }
    let mut steps = plan_containers(workspace, monitor_idx, attention);
    let ghost before = steps.deep_view();
    steps.push(BorderStep::Clear(monitor_idx, keep_borders(workspace)));
    assert(steps.deep_view() =~= before.push(
        BorderStepView::Clear(monitor_idx, kept_on(workspace.deep_view())),
    ));
    steps
}

/// The steps that bring the borders of a monitor up to date.
pub fn plan_monitor(monitor: &Monitor, monitor_idx: usize, attention: Attention) -> (steps: Vec<
    BorderStep,
>)
    ensures
        steps.deep_view() == monitor_steps(monitor.deep_view(), monitor_idx, attention),
{
    match monitor.focused() {
        Some(workspace) => plan_workspace(workspace, monitor_idx, attention),
        None => {
            let steps: Vec<BorderStep> = Vec::new();
            assert(steps.deep_view() =~= Seq::<BorderStepView>::empty());
            steps
        },
    }
}

/// Where to go on when the border of step `i` could not be made.
pub fn skip_refused(steps: &Vec<BorderStep>, i: usize) -> (next: usize)
    requires
        i < steps.len(),
    ensures
        next == after_refusal(steps.deep_view(), i as int),
        i < next <= steps.len(),
{
    assert(steps.deep_view()[i as int] == steps[i as int].deep_view());
    match &steps[i] {
        BorderStep::Clear(_, _) => i + 1,
        BorderStep::Frame(frame) => match frame.floating {
            None => steps.len(),
            Some(round) => {
                let mut j: usize = i + 1;
                while j < steps.len() && floats_in(&steps[j], round)
                    invariant
                        i < j <= steps.len(),
                        after_round(steps.deep_view(), round, i + 1) == after_round(
                            steps.deep_view(),
                            round,
                            j as int,
                        ),
                    decreases steps.len() - j,
                {
                    assert(steps.deep_view()[j as int] == steps[j as int].deep_view());
                    j += 1;
                }
                if j < steps.len() {
                    assert(steps.deep_view()[j as int] == steps[j as int].deep_view());
                }
                j
            },
        },
    }
}

fn floats_in(step: &BorderStep, round: usize) -> (floats: bool)
    ensures
        floats == is_floating_in(step.deep_view(), round),
{
    match step {
        BorderStep::Frame(frame) => match frame.floating {
            Some(r) => r == round,
            None => false,
        },
        BorderStep::Clear(_, _) => false,
    }
}

/// At most one container wears a border that shows: of two that do, both are the focused
/// container of the workspace that the focused monitor is showing.
pub proof fn law_one_container_shows_a_border(
    one: WorkspaceView,
    c: int,
    m: usize,
    other: WorkspaceView,
    d: int,
    n: usize,
    attention: Attention,
)
    ensures
        ({
            let first = container_frame(one, c, m, attention);
            let second = container_frame(other, d, n, attention);
            first is Some && border::shows_border(first->0.kind) && second is Some
                && border::shows_border(second->0.kind) ==> {
                &&& m == n
                &&& c == one.focused_container
                &&& d == other.focused_container
            }
        }),
{
}

/// While a window is in front, every border that shows is that window's, on a workspace that
/// is not in monocle mode.
pub proof fn law_only_the_window_in_front_shows_a_border(
    workspace: WorkspaceView,
    n: int,
    m: usize,
    attention: Attention,
    i: int,
)
    requires
        attention.foreground_window != 0,
        0 <= n <= workspace.containers.len(),
        0 <= i < container_steps(workspace, n, m, attention).len(),
    ensures
        container_steps(workspace, n, m, attention)[i] matches BorderStepView::Frame(frame)
            && border::shows_border(frame.kind) ==> container_steps(
            workspace,
            n,
            m,
            attention,
        )[i]->Frame_0.window_id == attention.foreground_window,
    decreases n,
{
    if n > 0 {
        let earlier = container_steps(workspace, n - 1, m, attention);
        if i < earlier.len() {
            law_only_the_window_in_front_shows_a_border(workspace, n - 1, m, attention, i);
        }
    }
}

/// Focus is only ever forced onto a window whose border shows.
pub proof fn law_focus_is_restored_to_the_framed_window(
    workspace: WorkspaceView,
    c: int,
    m: usize,
    attention: Attention,
)
    ensures
        container_frame(workspace, c, m, attention) matches Some(frame) && frame.refocus
            ==> attention.foreground_lost && border::shows_border(
            container_frame(workspace, c, m, attention)->0.kind,
        ),
{
}

/// The border of a container that was just framed is not among those that are removed
/// afterwards.
pub proof fn law_a_framed_container_keeps_its_border(
    borders: BordersView,
    workspace: WorkspaceView,
    c: int,
    m: usize,
    attention: Attention,
    made: Option<String>,
)
    requires
        0 <= c < workspace.containers.len(),
        container_frame(workspace, c, m, attention) is Some,
        border::border_for(
            borders,
            container_frame(workspace, c, m, attention)->0,
            made,
        ) is Some,
    ensures
        ({
            let frame = container_frame(workspace, c, m, attention)->0;
            let framed = border::framing(borders, frame, made).0;
            let after = border::cleared(framed, m, kept_on(workspace));
            &&& after.state.contains_key(frame.id)
            &&& after.state[frame.id].window_kind == frame.kind
            &&& after.state[frame.id].tracking_window_id == frame.window_id
        }),
{
    let kept = kept_on(workspace);
    let frame = container_frame(workspace, c, m, attention)->0;
    assert(kept.ids[c] == workspace.containers[c].id);
    assert(kept.ids.contains(frame.id));
}

} // verus!
