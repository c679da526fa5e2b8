//! Focus whatever window the cursor moves onto.
//!
//! The cursor entering a window focuses it. A cursor that has not moved is not asking for
//! anything, so every other way of choosing a window keeps what it chose until the mouse
//! actually goes somewhere.

use crate::border_manager::watch;
use crate::geometry::Rect;
use crate::operation::Operation;
use crate::window_manager::Monitor;
use crate::window_manager::MonitorView;
use crate::window_manager::Window;
use crate::window_manager::WindowManager;
use crate::window_manager::WindowManagerView;
use crate::window_manager::Workspace;
use crate::window_manager::WorkspaceView;
use vstd::prelude::*;

verus! {

/// How often the cursor is read, in milliseconds.
pub const POLL_INTERVAL_MS: u64 = 100;

/// What is remembered of the cursor from one reading to the next.
#[derive(Clone, Copy, Debug)]
pub struct Follower {
    /// The cursor decides focus.
    pub enabled: bool,
    /// Where the cursor was.
    pub last_point: Option<(i32, i32)>,
    /// The window that it was over.
    pub last_window: Option<u32>,
}

impl Default for Follower {
    fn default() -> (follower: Self)
        ensures
            follower == (Follower { enabled: true, last_point: None, last_window: None }),
    {
        Follower { enabled: true, last_point: None, last_window: None }
    }
}

/// Whether the cursor decides focus at all.
pub fn is_enabled(follower: &Follower) -> (enabled: bool)
    ensures
        enabled == follower.enabled,
{
    follower.enabled
}

/// Lets the cursor decide focus, or not.
pub fn set_enabled(follower: &mut Follower, enabled: bool)
    ensures
        *final(follower) == (Follower { enabled, ..*old(follower) }),
{
    follower.enabled = enabled;
}

/// Whether the window in front is one that focus may be taken from. Where it is not known
/// which that is, that is evidence of nothing.
pub fn foreground_is_ours(wm: &WindowManager, foreground: u32) -> (ours: bool)
    ensures
        ours == watch::is_ours(wm.deep_view(), foreground),
{
    foreground == 0 || wm.manages_window(foreground)
}

/// A point is inside a rectangle. The far edges are outside.
pub open spec fn is_inside(rect: Rect, x: i32, y: i32) -> bool {
    &&& rect.left <= x < rect.left + rect.right
    &&& rect.top <= y < rect.top + rect.bottom
}

/// The first container from `from` on that the layout put under a point, and the window that
/// it shows.
pub open spec fn container_under(workspace: WorkspaceView, x: i32, y: i32, from: int) -> Option<
    (usize, Window),
>
    decreases workspace.containers.len() - from,
{
    if from < 0 || from >= workspace.containers.len() {
        None
    } else if from < workspace.latest_layout.len() && is_inside(
        workspace.latest_layout[from],
        x,
        y,
    ) && workspace.containers[from].focused() is Some {
        Some((from as usize, workspace.containers[from].focused()->0))
    } else {
        container_under(workspace, x, y, from + 1)
    }
}

/// The container of the workspace that a monitor is showing that is under a point. In monocle
/// mode there is none: what the layout put there is out of sight.
pub open spec fn on_monitor(monitor: MonitorView, x: i32, y: i32) -> Option<(usize, Window)> {
    match monitor.focused() {
        Some(workspace) => if workspace.monocle_container is Some {
            None
        } else {
            container_under(workspace, x, y, 0)
        },
        None => None,
    }
}

/// The first monitor from `from` on that has a window under a point.
pub open spec fn under_from(monitors: Seq<MonitorView>, x: i32, y: i32, from: int) -> Option<
    (usize, usize, Window),
>
    decreases monitors.len() - from,
{
    if from < 0 || from >= monitors.len() {
        None
    } else {
        match on_monitor(monitors[from], x, y) {
            Some((c, window)) => Some((from as usize, c, window)),
            None => under_from(monitors, x, y, from + 1),
        }
    }
}

/// The window under a point, with its monitor and its container. While everything is paused
/// there is none.
pub open spec fn under(wm: WindowManagerView, point: (i32, i32)) -> Option<(usize, usize, Window)> {
    if wm.is_paused {
        None
    } else {
        under_from(wm.monitors, point.0, point.1, 0)
    }
}

/// The id of the window that was found.
pub open spec fn id_of(found: Option<(usize, usize, Window)>) -> Option<u32> {
    match found {
        Some((_, _, window)) => Some(window.id),
        None => None,
    }
}

/// What one reading of the cursor comes to: what is remembered, and the window that the
/// cursor has moved onto. What is under the cursor is noted even while it rests, because other
/// windows may come up beneath it.
pub open spec fn sampled(
    follower: Follower,
    wm: WindowManagerView,
    point: (i32, i32),
) -> (Follower, Option<(usize, usize, Window)>) {
    if !follower.enabled {
        (Follower { last_point: None, last_window: None, ..follower }, None)
    } else {
        let found = under(wm, point);
        let moved = follower.last_point is Some && follower.last_point != Some(point);
        (
            Follower { last_point: Some(point), last_window: id_of(found), ..follower },
            if moved && found is Some && id_of(found) != follower.last_window {
                found
            } else {
                None
            },
        )
    }
}

/// What the cursor moving onto a window comes to. The focus is left alone while a window that
/// is not managed is in front. The cursor is never moved along: it would pick the next window.
pub open spec fn entered(
    wm: WindowManagerView,
    foreground: u32,
    m: usize,
    c: usize,
    window_id: u32,
) -> (WindowManagerView, Seq<Operation>) {
    if !watch::is_ours(wm, foreground) {
        (wm, Seq::empty())
    } else {
        let focused = if m < wm.monitors.len() {
            WindowManagerView { focused_monitor: m, ..wm }
        } else {
            wm
        };
        (
            focused,
            if focused.workspace() is Ok {
                seq![Operation::FocusContainer(c), Operation::FocusWindow(window_id, false)]
            } else {
                seq![Operation::FocusWindow(window_id, false)]
            },
        )
    }
}

fn inside(rect: Rect, x: i32, y: i32) -> (is_in: bool)
    ensures
        is_in == is_inside(rect, x, y),
{
    x >= rect.left && (x as i64) < rect.left as i64 + rect.right as i64 && y >= rect.top && (
    y as i64) < rect.top as i64 + rect.bottom as i64
}

fn find_container(workspace: &Workspace, x: i32, y: i32) -> (found: Option<(usize, Window)>)
    ensures
        found == container_under(workspace.deep_view(), x, y, 0),
{
    let mut c: usize = 0;
    while c < workspace.containers.len()
        invariant
            c <= workspace.containers.len(),
            container_under(workspace.deep_view(), x, y, 0) == container_under(
                workspace.deep_view(),
                x,
                y,
                c as int,
            ),
        decreases workspace.containers.len() - c,
    {
        assert(workspace.deep_view().containers[c as int]
            == workspace.containers[c as int].deep_view());
        if c < workspace.latest_layout.len() && inside(workspace.latest_layout[c], x, y) {
            if let Some(window) = workspace.containers[c].focused() {
                return Some((c, window.clone()));
            }
        }
        c += 1;
    }
    None
}

fn find_on_monitor(monitor: &Monitor, x: i32, y: i32) -> (found: Option<(usize, Window)>)
    ensures
        found == on_monitor(monitor.deep_view(), x, y),
{
    match monitor.focused() {
        Some(workspace) => if workspace.monocle_container.is_some() {
            None
        } else {
            find_container(workspace, x, y)
        },
        None => None,
    }
}

/// The window under a point, with its monitor and its container, whether or not everything is
/// paused.
pub fn window_under_cursor(wm: &WindowManager, x: i32, y: i32) -> (found: Option<
    (usize, usize, Window),
>)
    ensures
        found == under_from(wm.deep_view().monitors, x, y, 0),
{
    let mut m: usize = 0;
    while m < wm.monitors.len()
        invariant
            m <= wm.monitors.len(),
            under_from(wm.deep_view().monitors, x, y, 0) == under_from(
                wm.deep_view().monitors,
                x,
                y,
                m as int,
            ),
        decreases wm.monitors.len() - m,
    {
        assert(wm.deep_view().monitors[m as int] == wm.monitors[m as int].deep_view());
        if let Some((c, window)) = find_on_monitor(&wm.monitors[m], x, y) {
            return Some((m, c, window));
        }
        m += 1;
    }
    None
}

impl Follower {
    /// Takes in one reading of the cursor, and says which window it has moved onto.
    pub fn sample(&mut self, wm: &WindowManager, point: (i32, i32)) -> (onto: Option<
        (usize, usize, Window),
    >)
        ensures
            (*final(self), onto) == sampled(*old(self), wm.deep_view(), point),
    {
        if !is_enabled(&*self) {
            self.last_point = None;
            self.last_window = None;
            return None;
        }
        let moved: bool = match self.last_point {
            Some((x, y)) => x != point.0 || y != point.1,
            None => false,
        };
        let found = if wm.is_paused {
            None
        } else {
            window_under_cursor(wm, point.0, point.1)
        };
        let id: Option<u32> = match &found {
            Some((_, _, window)) => Some(window.id),
            None => None,
        };
        let same: bool = match (id, self.last_window) {
            (Some(id), Some(last)) => id == last,
            (None, None) => true,
            _ => false,
        };
        self.last_point = Some(point);
        self.last_window = id;
        if moved && !same {
            found
        } else {
            None
        }
    }
}

impl WindowManager {
    /// Moves the focus to a window that the cursor has moved onto.
    pub fn enter_window(&mut self, foreground: u32, m: usize, c: usize, window_id: u32) -> (
    operations: Vec<Operation>)
        ensures
            (final(self).deep_view(), operations@) == entered(
                old(self).deep_view(),
                foreground,
                m,
                c,
                window_id,
            ),
    {
        let mut operations: Vec<Operation> = Vec::new();
        if !foreground_is_ours(&*self, foreground) {
            return operations;
        }
        let _ = self.focus_monitor(m);
        if self.workspace().is_ok() {
            operations.push(Operation::FocusContainer(c));
        }
        operations.push(Operation::FocusWindow(window_id, false));
        assert(operations@ =~= entered(old(self).deep_view(), foreground, m, c, window_id).1);
        operations
    }
}

/// A cursor that rests chooses nothing, whatever comes up beneath it.
pub proof fn law_a_resting_cursor_chooses_nothing(
    follower: Follower,
    wm: WindowManagerView,
    later: WindowManagerView,
    point: (i32, i32),
)
    ensures
        sampled(sampled(follower, wm, point).0, later, point).1 is None,
{
}

/// Moving about within a window chooses it once at most.
pub proof fn law_a_window_is_entered_once(
    follower: Follower,
    wm: WindowManagerView,
    point: (i32, i32),
    next: (i32, i32),
)
    requires
        id_of(under(wm, next)) == id_of(under(wm, point)),
    ensures
        sampled(sampled(follower, wm, point).0, wm, next).1 is None,
{
}

/// While it is switched off, while everything is paused, and on a workspace in monocle mode,
/// the cursor chooses nothing; and while a window that is not managed is in front, what it
/// chooses is not acted on.
pub proof fn law_the_cursor_stands_back(
    follower: Follower,
    wm: WindowManagerView,
    point: (i32, i32),
    foreground: u32,
    m: usize,
    c: usize,
    window_id: u32,
)
    ensures
        !follower.enabled || wm.is_paused ==> sampled(follower, wm, point).1 is None,
        foreground != 0 && !wm.shows(foreground) ==> entered(
            wm,
            foreground,
            m,
            c,
            window_id,
        ) == (wm, Seq::<Operation>::empty()),
        forall|monitor: MonitorView|
            monitor.focused() is Some && monitor.focused()->0.monocle_container is Some
                ==> #[trigger] on_monitor(monitor, point.0, point.1) is None,
{
}

/// Focusing a window for the cursor never moves the cursor.
pub proof fn law_following_never_moves_the_cursor(
    wm: WindowManagerView,
    foreground: u32,
    m: usize,
    c: usize,
    window_id: u32,
)
    ensures
        forall|i: int|
            #![trigger entered(wm, foreground, m, c, window_id).1[i]]
            0 <= i < entered(wm, foreground, m, c, window_id).1.len() ==> (
            entered(wm, foreground, m, c, window_id).1[i] matches Operation::FocusWindow(
                _,
                follow,
            ) ==> !follow),
{
}


/// The layout put a container of the workspace that a monitor shows under a point, and the container
/// has a window to show.
pub open spec fn lies_under(
    wm: WindowManagerView,
    m: int,
    c: int,
    x: i32,
    y: i32,
) -> bool {
    &&& 0 <= m < wm.monitors.len()
    &&& wm.monitors[m].focused_workspace < wm.monitors[m].workspaces.len()
    &&& {
        let workspace = wm.monitors[m].workspaces[wm.monitors[m].focused_workspace as int];
        &&& workspace.monocle_container is None
        &&& 0 <= c < workspace.containers.len()
        &&& c < workspace.latest_layout.len()
        &&& workspace.containers[c].focused_window < workspace.containers[c].windows.len()
        &&& workspace.latest_layout[c].left <= x
        &&& x < workspace.latest_layout[c].left + workspace.latest_layout[c].right
        &&& workspace.latest_layout[c].top <= y
        &&& y < workspace.latest_layout[c].top + workspace.latest_layout[c].bottom
    }
}

proof fn lemma_container_under(wm: WindowManagerView, m: int, x: i32, y: i32, from: int)
    requires
        0 <= from,
        0 <= m < wm.monitors.len(),
        wm.monitors[m].focused_workspace < wm.monitors[m].workspaces.len(),
        wm.monitors[m].workspaces[wm.monitors[m].focused_workspace as int].monocle_container
            is None,
        wm.monitors[m].workspaces[wm.monitors[m].focused_workspace as int].containers.len()
            <= usize::MAX,
    ensures
        ({
            let workspace = wm.monitors[m].workspaces[wm.monitors[m].focused_workspace as int];
            match container_under(workspace, x, y, from) {
                Some((c, window)) => {
                    &&& from <= c
                    &&& lies_under(wm, m, c as int, x, y)
                    &&& window
                        == workspace.containers[c as int].windows[workspace.containers[c as int].focused_window as int]
                    &&& forall|d: int| from <= d < c ==> !#[trigger] lies_under(wm, m, d, x, y)
                },
                None => forall|d: int| from <= d ==> !#[trigger] lies_under(wm, m, d, x, y),
            }
        }),
    decreases
        wm.monitors[m].workspaces[wm.monitors[m].focused_workspace as int].containers.len() - from,
{
    let workspace = wm.monitors[m].workspaces[wm.monitors[m].focused_workspace as int];
    if from < workspace.containers.len() {
        lemma_container_under(wm, m, x, y, from + 1);
    }
}

proof fn lemma_under_from(wm: WindowManagerView, x: i32, y: i32, from: int)
    requires
        0 <= from,
        wm.monitors.len() <= usize::MAX,
        forall|m: int, w: int|
            0 <= m < wm.monitors.len() && 0 <= w < wm.monitors[m].workspaces.len() ==> (
            #[trigger] wm.monitors[m].workspaces[w]).containers.len() <= usize::MAX,
    ensures
        match under_from(wm.monitors, x, y, from) {
            Some((m, c, window)) => {
                let workspace =
                    wm.monitors[m as int].workspaces[wm.monitors[m as int].focused_workspace as int];
                &&& from <= m
                &&& lies_under(wm, m as int, c as int, x, y)
                &&& window
                    == workspace.containers[c as int].windows[workspace.containers[c as int].focused_window as int]
                &&& forall|l: int, d: int|
                    from <= l && (l < m || l == m && d < c) ==> !#[trigger] lies_under(
                        wm,
                        l,
                        d,
                        x,
                        y,
                    )
            },
            None => forall|l: int, d: int| from <= l ==> !#[trigger] lies_under(wm, l, d, x, y),
        },
    decreases wm.monitors.len() - from,
{
    if from < wm.monitors.len() {
        lemma_under_from(wm, x, y, from + 1);
        let monitor = wm.monitors[from];
        if monitor.focused_workspace < monitor.workspaces.len() {
            let workspace = monitor.workspaces[monitor.focused_workspace as int];
            if workspace.monocle_container is None {
                lemma_container_under(wm, from, x, y, 0);
            }
        }
    }
}

/// The window under a point is the one that the first container shows which the layout put there,
/// counting monitors and then containers; there is none where no container is there, and none while
/// everything is paused.
pub proof fn law_the_first_container_under_the_cursor_counts(
    wm: WindowManagerView,
    x: i32,
    y: i32,
)
    requires
        wm.monitors.len() <= usize::MAX,
        forall|m: int, w: int|
            0 <= m < wm.monitors.len() && 0 <= w < wm.monitors[m].workspaces.len() ==> (
            #[trigger] wm.monitors[m].workspaces[w]).containers.len() <= usize::MAX,
    ensures
        wm.is_paused ==> under(wm, (x, y)) is None,
        !wm.is_paused ==> match under(wm, (x, y)) {
            Some((m, c, window)) => {
                let workspace =
                    wm.monitors[m as int].workspaces[wm.monitors[m as int].focused_workspace as int];
                &&& lies_under(wm, m as int, c as int, x, y)
                &&& window
                    == workspace.containers[c as int].windows[workspace.containers[c as int].focused_window as int]
                &&& forall|l: int, d: int|
                    l < m || l == m && d < c ==> !#[trigger] lies_under(wm, l, d, x, y)
            },
            None => forall|l: int, d: int| !#[trigger] lies_under(wm, l, d, x, y),
        },
{
    lemma_under_from(wm, x, y, 0);
}

/// A reading of the cursor chooses the window under it if the cursor has moved since the last reading
/// and that window is another than was under it then. What is remembered is where the cursor is and
/// what is under it; nothing, while the cursor does not decide.
pub proof fn law_the_cursor_chooses_what_it_moves_onto(
    follower: Follower,
    wm: WindowManagerView,
    point: (i32, i32),
)
    ensures
        ({
            let (now, chosen) = sampled(follower, wm, point);
            let found = under(wm, point);
            &&& now.enabled == follower.enabled
            &&& !follower.enabled ==> now.last_point is None && now.last_window is None && chosen
                is None
            &&& follower.enabled ==> {
                &&& now.last_point == Some(point)
                &&& found is None ==> now.last_window is None && chosen is None
                &&& found matches Some((m, c, window)) ==> {
                    &&& now.last_window == Some(window.id)
                    &&& if follower.last_point is Some && follower.last_point->0 != point
                        && follower.last_window != Some(window.id) {
                        chosen == found
                    } else {
                        chosen is None
                    }
                }
            }
        }),
{
}

/// A window that the cursor has chosen is focused with its container, on its monitor, if the window
/// in front is managed or not known; otherwise nothing is done.
pub proof fn law_a_chosen_window_is_focused(
    wm: WindowManagerView,
    foreground: u32,
    m: usize,
    c: usize,
    window_id: u32,
)
    requires
        m < wm.monitors.len(),
        wm.monitors[m as int].focused_workspace < wm.monitors[m as int].workspaces.len(),
    ensures
        ({
            let (after, operations) = entered(wm, foreground, m, c, window_id);
            if foreground == 0 || wm.shows(foreground) {
                &&& after.focused_monitor == m
                &&& after == (WindowManagerView { focused_monitor: m, ..wm })
                &&& operations =~= seq![
                    Operation::FocusContainer(c),
                    Operation::FocusWindow(window_id, false),
                ]
            } else {
                after == wm && operations.len() == 0
            }
        }),
{
}

} // verus!
