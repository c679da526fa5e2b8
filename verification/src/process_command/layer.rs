//! Switching between the tiling and the floating layer of a workspace.

use crate::geometry;
use crate::geometry::Rect;
use crate::geometry::WindowHidingPosition;
use crate::operation::Operation;
use crate::process_command::plan;
use crate::process_command::plan::CommandPlan;
use crate::process_command::plan::CommandPlanView;
use crate::settings::WorkspaceLayer;
use crate::window_manager::CommandError;
use crate::window_manager::Container;
use crate::window_manager::ContainerView;
use crate::window_manager::Window;
use crate::window_manager::WindowManager;
use crate::window_manager::WindowManagerView;
use crate::window_manager::Workspace;
use crate::window_manager::WorkspaceView;
use vstd::prelude::*;

verus! {

/// The area that the `i`-th floating window covers: none, where it could not be read.
pub open spec fn area_at(rects: Seq<Rect>, i: int) -> int {
    if 0 <= i < rects.len() {
        geometry::area(rects[i])
    } else {
        0
    }
}

/// An order of windows with one more, put behind every window that covers no more than it.
pub open spec fn insert_by_area(rects: Seq<Rect>, order: Seq<usize>, x: usize) -> Seq<usize>
    decreases order.len(),
{
    if order.len() == 0 || area_at(rects, order.last() as int) <= area_at(rects, x as int) {
        order.push(x)
    } else {
        insert_by_area(rects, order.drop_last(), x).push(order.last())
    }
}

/// The first `n` windows, the smallest first. Windows of the same size stay in their order.
pub open spec fn area_order(rects: Seq<Rect>, n: nat) -> Seq<usize>
    decreases n,
{
    if n == 0 {
        Seq::empty()
    } else {
        insert_by_area(rects, area_order(rects, (n - 1) as nat), (n - 1) as usize)
    }
}

/// One window comes before another: it is smaller, or the same size and listed earlier.
pub open spec fn comes_before(rects: Seq<Rect>, a: usize, b: usize) -> bool {
    area_at(rects, a as int) < area_at(rects, b as int) || area_at(rects, a as int) == area_at(
        rects,
        b as int,
    ) && a < b
}

/// The operations that bring a window back up.
pub open spec fn bring_up(window: Window) -> Seq<Operation> {
    seq![Operation::RestoreWindow(window.id), Operation::RaiseWindow(window.id)]
}

/// The operations that bring floating windows up, the last of `order` first, but for the
/// focused one.
pub open spec fn bring_up_others(
    windows: Seq<Window>,
    order: Seq<usize>,
    focused: usize,
) -> Seq<Operation>
    decreases order.len(),
{
    if order.len() == 0 {
        Seq::empty()
    } else {
        let i = order.last();
        (if i == focused {
            Seq::empty()
        } else {
            bring_up(windows[i as int])
        }) + bring_up_others(windows, order.drop_last(), focused)
    }
}

/// The operations that show the floating layer: the largest window first, and the focused
/// one last, so that it ends up on top.
pub open spec fn show_floating(
    workspace: WorkspaceView,
    rects: Seq<Rect>,
    mouse_follows_focus: bool,
) -> Seq<Operation> {
    let windows = workspace.floating_windows;
    let focused = workspace.focused_floating_window;
    bring_up_others(windows, area_order(rects, windows.len()), focused) + (if focused
        < windows.len() {
        bring_up(windows[focused as int]).push(
            Operation::FocusWindow(windows[focused as int].id, mouse_follows_focus),
        )
    } else {
        Seq::empty()
    })
}

/// The operations that hide some windows, in the order given.
pub open spec fn hide_all(
    windows: Seq<Window>,
    order: Seq<usize>,
    position: WindowHidingPosition,
) -> Seq<Operation> {
    order.map_values(|i: usize| Operation::HideWindow(windows[i as int].id, position))
}

/// The indices of a list, in order.
pub open spec fn in_order(n: nat) -> Seq<usize> {
    Seq::new(n, |i: int| i as usize)
}

/// The operations that raise the focused window of every container.
pub open spec fn raise_containers(containers: Seq<ContainerView>) -> Seq<Operation>
    decreases containers.len(),
{
    if containers.len() == 0 {
        Seq::empty()
    } else {
        let rest = raise_containers(containers.drop_last());
        match containers.last().focused() {
            Some(window) => rest.push(Operation::RaiseWindow(window.id)),
            None => rest,
        }
    }
}

/// The operation that focuses a window, if there is one.
pub open spec fn focus_if_any(window: Option<Window>, mouse_follows_focus: bool) -> Seq<Operation> {
    match window {
        Some(window) => seq![Operation::FocusWindow(window.id, mouse_follows_focus)],
        None => Seq::empty(),
    }
}

/// The operations that show the tiling layer: what is tiled comes up, what floats is hidden,
/// the smallest window first unless a container is in monocle mode.
pub open spec fn show_tiling(
    workspace: WorkspaceView,
    rects: Seq<Rect>,
    position: WindowHidingPosition,
    mouse_follows_focus: bool,
) -> Seq<Operation> {
    let windows = workspace.floating_windows;
    match workspace.monocle_container {
        Some(monocle) => (match monocle.focused() {
            Some(window) => seq![Operation::RaiseWindow(window.id)],
            None => Seq::empty(),
        }) + hide_all(windows, in_order(windows.len()), position) + focus_if_any(
            monocle.focused(),
            mouse_follows_focus,
        ),
        None => raise_containers(workspace.containers) + hide_all(
            windows,
            area_order(rects, windows.len()),
            position,
        ) + focus_if_any(
            match workspace.focused() {
                Some(container) => container.focused(),
                None => None,
            },
            mouse_follows_focus,
        ),
    }
}

/// The focused workspace switches to its other layer.
pub open spec fn toggle_layer_effect(
    wm: WindowManagerView,
    rects: Seq<Rect>,
) -> (WindowManagerView, CommandPlanView) {
    match wm.workspace() {
        Ok(workspace) => match workspace.layer {
            WorkspaceLayer::Tiling => (
                wm.with_workspace(
                    WorkspaceView { layer: WorkspaceLayer::Floating, ..workspace },
                ),
                plan::plan_of(show_floating(workspace, rects, wm.mouse_follows_focus)),
            ),
            WorkspaceLayer::Floating => (
                wm.with_workspace(WorkspaceView { layer: WorkspaceLayer::Tiling, ..workspace }),
                plan::plan_of(
                    show_tiling(
                        workspace,
                        rects,
                        wm.focused()->0.window_hiding_position,
                        wm.mouse_follows_focus,
                    ),
                ),
            ),
        },
        Err(error) => (wm, plan::plan_failure(error)),
    }
}

fn area_of(rects: &Vec<Rect>, i: usize) -> (area: i64)
    ensures
        area == area_at(rects@, i as int),
{
    if i < rects.len() {
        let rect = rects[i];
        assert(-0x8000_0000 * 0x8000_0000 <= rect.right * rect.bottom <= 0x8000_0000 * 0x8000_0000)
            by (nonlinear_arith)
            requires
                -0x8000_0000 <= rect.right <= 0x7fff_ffff,
                -0x8000_0000 <= rect.bottom <= 0x7fff_ffff,
        ;
        rect.right as i64 * rect.bottom as i64
    } else {
        0
    }
}

proof fn lemma_insert_by_area(rects: Seq<Rect>, order: Seq<usize>, x: usize, at: int)
    requires
        0 <= at <= order.len(),
        at > 0 ==> area_at(rects, order[at - 1] as int) <= area_at(rects, x as int),
        forall|k: int|
            at <= k < order.len() ==> area_at(rects, (#[trigger] order[k]) as int) > area_at(
                rects,
                x as int,
            ),
    ensures
        insert_by_area(rects, order, x) == order.insert(at, x),
    decreases order.len(),
{
    if at == order.len() {
        assert(order.insert(at, x) =~= order.push(x));
    } else {
        assert(order.last() == order[order.len() - 1]);
        lemma_insert_by_area(rects, order.drop_last(), x, at);
        assert(order.insert(at, x) =~= order.drop_last().insert(at, x).push(order.last()));
    }
}

/// The floating windows, the smallest first.
fn by_area(rects: &Vec<Rect>, n: usize) -> (order: Vec<usize>)
    ensures
        order@ == area_order(rects@, n as nat),
{
    let mut order: Vec<usize> = Vec::new();
    let mut x: usize = 0;
    while x < n
        invariant
            x <= n,
            order@ == area_order(rects@, x as nat),
        decreases n - x,
    {
        let area: i64 = area_of(rects, x);
        let mut at: usize = order.len();
        while at > 0 && area_of(rects, order[at - 1]) > area
            invariant
                at <= order.len(),
                area == area_at(rects@, x as int),
                forall|k: int|
                    at <= k < order.len() ==> area_at(rects@, (#[trigger] order[k]) as int)
                        > area_at(rects@, x as int),
            decreases at,
        {
            at -= 1;
        }
        proof {
            lemma_insert_by_area(rects@, order@, x, at as int);
        }
        order.insert(at, x);
        x += 1;
    }
    order
}

proof fn lemma_area_order_range(rects: Seq<Rect>, n: nat)
    requires
        n <= usize::MAX,
    ensures
        area_order(rects, n).len() == n,
        forall|i: int| 0 <= i < n ==> (#[trigger] area_order(rects, n)[i]) < n,
    decreases n,
{
    if n > 0 {
        lemma_area_order_range(rects, (n - 1) as nat);
        lemma_insert_range(rects, area_order(rects, (n - 1) as nat), (n - 1) as usize, n);
    }
}

proof fn lemma_insert_range(rects: Seq<Rect>, order: Seq<usize>, x: usize, n: nat)
    requires
        x < n,
        forall|i: int| 0 <= i < order.len() ==> (#[trigger] order[i]) < n,
    ensures
        insert_by_area(rects, order, x).len() == order.len() + 1,
        forall|i: int|
            0 <= i <= order.len() ==> (#[trigger] insert_by_area(rects, order, x)[i]) < n,
    decreases order.len(),
{
    if order.len() == 0 || area_at(rects, order.last() as int) <= area_at(rects, x as int) {
    } else {
        lemma_insert_range(rects, order.drop_last(), x, n);
        assert(order.last() == order[order.len() - 1]);
    }
}

proof fn lemma_insert_sorted(rects: Seq<Rect>, order: Seq<usize>, x: usize)
    requires
        forall|i: int| 0 <= i < order.len() ==> (#[trigger] order[i]) < x,
        forall|i: int, j: int|
            0 <= i < j < order.len() ==> comes_before(
                rects,
                #[trigger] order[i],
                #[trigger] order[j],
            ),
    ensures
        forall|i: int|
            0 <= i < insert_by_area(rects, order, x).len() ==> (
            #[trigger] insert_by_area(rects, order, x)[i]) <= x,
        forall|i: int, j: int|
            0 <= i < j < insert_by_area(rects, order, x).len() ==> comes_before(
                rects,
                #[trigger] insert_by_area(rects, order, x)[i],
                #[trigger] insert_by_area(rects, order, x)[j],
            ),
        insert_by_area(rects, order, x).len() == order.len() + 1,
        forall|i: int|
            0 <= i < insert_by_area(rects, order, x).len() ==> (
            #[trigger] insert_by_area(rects, order, x)[i]) == x || order.contains(
                insert_by_area(rects, order, x)[i],
            ),
    decreases order.len(),
{
    let result = insert_by_area(rects, order, x);
    if order.len() == 0 || area_at(rects, order.last() as int) <= area_at(rects, x as int) {
        assert forall|i: int, j: int| 0 <= i < j < result.len() implies comes_before(
            rects,
            #[trigger] result[i],
            #[trigger] result[j],
        ) by {
            if j == result.len() - 1 {
                assert(result[i] == order[i]);
                if i < order.len() - 1 {
                    assert(comes_before(rects, order[i], order[order.len() - 1]));
                }
            } else {
                assert(result[i] == order[i] && result[j] == order[j]);
            }
        }
        assert forall|i: int| 0 <= i < result.len() implies (#[trigger] result[i]) == x
            || order.contains(result[i]) by {
            if i < order.len() {
                assert(order[i] == result[i]);
            }
        }
    } else {
        let shorter = order.drop_last();
        lemma_insert_sorted(rects, shorter, x);
        let inner = insert_by_area(rects, shorter, x);
        assert(order.last() == order[order.len() - 1]);
        assert forall|i: int, j: int| 0 <= i < j < result.len() implies comes_before(
            rects,
            #[trigger] result[i],
            #[trigger] result[j],
        ) by {
            if j == result.len() - 1 {
                assert(result[i] == inner[i]);
                if inner[i] != x {
                    let k = choose|k: int| 0 <= k < shorter.len() && shorter[k] == inner[i];
                    assert(order[k] == inner[i]);
                    assert(comes_before(rects, order[k], order[order.len() - 1]));
                }
            } else {
                assert(result[i] == inner[i] && result[j] == inner[j]);
            }
        }
        assert forall|i: int| 0 <= i < result.len() implies (#[trigger] result[i]) == x
            || order.contains(result[i]) by {
            if i < inner.len() {
                assert(result[i] == inner[i]);
                if inner[i] != x {
                    let k = choose|k: int| 0 <= k < shorter.len() && shorter[k] == inner[i];
                    assert(order[k] == inner[i]);
                }
            } else {
                assert(order[order.len() - 1] == result[i]);
            }
        }
    }
}

/// Floating windows are put in order by size: every window stands in the order once, a
/// smaller window always before a larger one, and of two of the same size the one listed
/// first.
pub proof fn law_windows_are_ordered_by_area(rects: Seq<Rect>, n: nat)
    requires
        n <= usize::MAX,
    ensures
        area_order(rects, n).len() == n,
        forall|i: int| 0 <= i < n ==> (#[trigger] area_order(rects, n)[i]) < n,
        forall|i: int, j: int|
            0 <= i < j < n ==> comes_before(
                rects,
                #[trigger] area_order(rects, n)[i],
                #[trigger] area_order(rects, n)[j],
            ),
    decreases n,
{
    if n > 0 {
        law_windows_are_ordered_by_area(rects, (n - 1) as nat);
        lemma_insert_sorted(rects, area_order(rects, (n - 1) as nat), (n - 1) as usize);
    }
}

fn push_bring_up(operations: &mut Vec<Operation>, window: &Window)
    ensures
        final(operations)@ == old(operations)@ + bring_up(*window),
{
    operations.push(Operation::RestoreWindow(window.id));
    operations.push(Operation::RaiseWindow(window.id));
    assert(operations@ =~= old(operations)@ + bring_up(*window));
}

fn floating_shown(workspace: &Workspace, rects: &Vec<Rect>, mouse_follows_focus: bool) -> (
    operations: Vec<Operation>)
    ensures
        operations@ == show_floating(workspace.deep_view(), rects@, mouse_follows_focus),
{
    let windows = &workspace.floating_windows;
    let focused: usize = workspace.focused_floating_window;
    let order = by_area(rects, windows.len());
    proof {
        lemma_area_order_range(rects@, windows.len() as nat);
    }
    let mut operations: Vec<Operation> = Vec::new();
    let mut left: usize = order.len();
    assert(order@.take(left as int) =~= order@);
    assert(operations@ + bring_up_others(windows@, order@, focused) =~= bring_up_others(
        windows@,
        order@,
        focused,
    ));
    while left > 0
        invariant
            left <= order.len(),
            *windows == workspace.floating_windows,
            focused == workspace.focused_floating_window,
            order.len() == windows.len(),
            forall|i: int| 0 <= i < order.len() ==> (#[trigger] order@[i]) < windows.len(),
            operations@ + bring_up_others(windows@, order@.take(left as int), focused)
                == bring_up_others(windows@, order@, focused),
        decreases left,
    {
        let ghost so_far = operations@;
        let ghost ahead = order@.take(left as int);
        left -= 1;
        let i: usize = order[left];
        if i != focused {
            push_bring_up(&mut operations, &windows[i]);
        }
        proof {
            assert(ahead.last() == i);
            assert(ahead.drop_last() =~= order@.take(left as int));
            assert(operations@ + bring_up_others(windows@, order@.take(left as int), focused)
                =~= so_far + bring_up_others(windows@, ahead, focused));
        }
    }
    assert(operations@ =~= bring_up_others(windows@, order@, focused));
    if focused < windows.len() {
        push_bring_up(&mut operations, &windows[focused]);
        operations.push(Operation::FocusWindow(windows[focused].id, mouse_follows_focus));
    }
    assert(operations@ =~= show_floating(workspace.deep_view(), rects@, mouse_follows_focus));
    operations
}

fn push_hides(
    operations: &mut Vec<Operation>,
    windows: &Vec<Window>,
    order: &Vec<usize>,
    position: WindowHidingPosition,
)
    requires
        forall|i: int| 0 <= i < order.len() ==> (#[trigger] order@[i]) < windows.len(),
    ensures
        final(operations)@ == old(operations)@ + hide_all(windows@, order@, position),
{
    let ghost before = operations@;
    let mut k: usize = 0;
    assert(operations@ =~= before + hide_all(windows@, order@, position).take(0));
    while k < order.len()
        invariant
            k <= order.len(),
            forall|i: int| 0 <= i < order.len() ==> (#[trigger] order@[i]) < windows.len(),
            operations@ == before + hide_all(windows@, order@, position).take(k as int),
        decreases order.len() - k,
    {
        let i: usize = order[k];
        operations.push(Operation::HideWindow(windows[i].id, position));
        k += 1;
        assert(operations@ =~= before + hide_all(windows@, order@, position).take(k as int));
    }
    assert(hide_all(windows@, order@, position).take(k as int) =~= hide_all(
        windows@,
        order@,
        position,
    ));
}

fn indices(n: usize) -> (order: Vec<usize>)
    ensures
        order@ == in_order(n as nat),
{
    let mut order: Vec<usize> = Vec::new();
    let mut i: usize = 0;
    while i < n
        invariant
            i <= n,
            order@ == in_order(i as nat),
        decreases n - i,
    {
        order.push(i);
        i += 1;
        assert(order@ =~= in_order(i as nat));
    }
    order
}

fn push_raises(operations: &mut Vec<Operation>, containers: &Vec<Container>)
    ensures
        final(operations)@ == old(operations)@ + raise_containers(containers.deep_view()),
{
    let ghost before = operations@;
    let ghost all = containers.deep_view();
    let mut i: usize = 0;
    assert(all.take(0) =~= Seq::empty());
    assert(operations@ =~= before + raise_containers(all.take(0)));
    while i < containers.len()
        invariant
            i <= containers.len(),
            all == containers.deep_view(),
            operations@ == before + raise_containers(all.take(i as int)),
        decreases containers.len() - i,
    {
        assert(all[i as int] == containers[i as int].deep_view());
        if let Some(window) = containers[i].focused() {
            operations.push(Operation::RaiseWindow(window.id));
        }
        i += 1;
        proof {
            let seen = all.take(i as int);
            assert(seen.drop_last() =~= all.take(i - 1));
            assert(seen.last() == all[i - 1]);
            assert(operations@ =~= before + raise_containers(seen));
        }
    }
    assert(all.take(i as int) =~= all);
}

fn push_focus_if_any(
    operations: &mut Vec<Operation>,
    window: Option<&Window>,
    mouse_follows_focus: bool,
)
    ensures
        final(operations)@ == old(operations)@ + focus_if_any(
            match window {
                Some(window) => Some(*window),
                None => None,
            },
            mouse_follows_focus,
        ),
{
    if let Some(window) = window {
        operations.push(Operation::FocusWindow(window.id, mouse_follows_focus));
    }
    assert(operations@ =~= old(operations)@ + focus_if_any(
        match window {
            Some(window) => Some(*window),
            None => None,
        },
        mouse_follows_focus,
    ));
}

fn tiling_shown(
    workspace: &Workspace,
    rects: &Vec<Rect>,
    position: WindowHidingPosition,
    mouse_follows_focus: bool,
) -> (operations: Vec<Operation>)
    ensures
        operations@ == show_tiling(workspace.deep_view(), rects@, position, mouse_follows_focus),
{
    let mut operations: Vec<Operation> = Vec::new();
    let windows = &workspace.floating_windows;
    match &workspace.monocle_container {
        Some(monocle) => {
            if let Some(window) = monocle.focused() {
                operations.push(Operation::RaiseWindow(window.id));
            }
            let order = indices(windows.len());
            push_hides(&mut operations, windows, &order, position);
            push_focus_if_any(&mut operations, monocle.focused(), mouse_follows_focus);
        },
        None => {
            push_raises(&mut operations, &workspace.containers);
            let order = by_area(rects, windows.len());
            proof {
                lemma_area_order_range(rects@, windows.len() as nat);
            }
            push_hides(&mut operations, windows, &order, position);
            let window = match workspace.focused() {
                Some(container) => container.focused(),
                None => None,
            };
            push_focus_if_any(&mut operations, window, mouse_follows_focus);
        },
    }
    assert(operations@ =~= show_tiling(
        workspace.deep_view(),
        rects@,
        position,
        mouse_follows_focus,
    ));
    operations
}

impl WindowManager {
    /// Switches the focused workspace to its other layer.
    pub(crate) fn toggle_layer(&mut self, rects: &Vec<Rect>) -> (plan: CommandPlan)
        ensures
            (final(self).deep_view(), plan.deep_view()) == toggle_layer_effect(
                old(self).deep_view(),
                rects@,
            ),
    {
        let mouse_follows_focus: bool = self.mouse_follows_focus;
        let position = match self.focused() {
            Some(monitor) => monitor.window_hiding_position,
            None => {
                return CommandPlan::failed(CommandError::NoMonitor);
            },
        };
        match self.workspace_mut() {
            Ok(workspace) => match workspace.layer {
                WorkspaceLayer::Tiling => {
                    let operations = floating_shown(&*workspace, rects, mouse_follows_focus);
                    workspace.layer = WorkspaceLayer::Floating;
                    CommandPlan::of(operations)
                },
                WorkspaceLayer::Floating => {
                    let operations = tiling_shown(
                        &*workspace,
                        rects,
                        position,
                        mouse_follows_focus,
                    );
                    workspace.layer = WorkspaceLayer::Tiling;
                    CommandPlan::of(operations)
                },
            },
            Err(error) => CommandPlan::failed(error),
        }
    }
}

/// Toggling the layer twice brings the workspace back to the layer it was on.
pub proof fn law_toggling_the_layer_twice_returns(
    wm: WindowManagerView,
    rects: Seq<Rect>,
    later: Seq<Rect>,
)
    requires
        wm.workspace() is Ok,
    ensures
        toggle_layer_effect(toggle_layer_effect(wm, rects).0, later).0.workspace() == wm.workspace(),
{
}

} // verus!
