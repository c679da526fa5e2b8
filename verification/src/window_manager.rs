//! What is managed: windows in containers, containers in workspaces, workspaces on
//! monitors, and the settings that go with them.

use crate::border_manager::BorderSettings;
use crate::border_manager::BorderSettingsView;
use crate::focus_follows_mouse::Follower;
use crate::geometry::Rect;
use crate::geometry::WindowHidingPosition;
use crate::rule_book::RuleBook;
use crate::rule_book::RuleBookView;
use crate::rules::MatchingRule;
use crate::rules::MatchingRuleView;
use crate::session::SessionState;
use crate::session::SessionStateView;
use crate::settings::AnimationSettings;
use crate::settings::DefaultLayout;
use crate::settings::LayoutOptions;
use crate::settings::MonocleFocusBehaviour;
use crate::settings::MoveBehaviour;
use crate::settings::OperationBehaviour;
use crate::settings::WindowContainerBehaviour;
use crate::settings::WindowManagementBehaviour;
use crate::settings::WorkspaceLayer;
use crate::subscriptions::Subscriptions;
use crate::subscriptions::SubscriptionsView;
use crate::text;
use crate::window::WindowMemory;
use crate::window::WindowMemoryView;
use std::collections::HashMap;
use vstd::prelude::*;

verus! {

/// A window: the id the system gave it, the process that owns it and the name of that
/// application.
#[derive(Debug)]
pub struct Window {
    pub id: u32,
    pub process_id: i32,
    pub application: Option<String>,
}

impl Clone for Window {
    fn clone(&self) -> (copy: Self)
        ensures
            copy == *self,
    {
        Window {
            id: self.id,
            process_id: self.process_id,
            application: match &self.application {
                Some(name) => Some(name.clone()),
                None => None,
            },
        }
    }
}

/// A copy of a list of windows.
pub fn copy_windows(windows: &Vec<Window>) -> (copy: Vec<Window>)
    ensures
        copy@ == windows@,
{
    let mut copy: Vec<Window> = Vec::new();
    let mut i: usize = 0;
    while i < windows.len()
        invariant
            i <= windows.len(),
            copy@ == windows@.take(i as int),
        decreases windows.len() - i,
    {
        copy.push(windows[i].clone());
        i += 1;
        assert(copy@ =~= windows@.take(i as int));
    }
    assert(windows@.take(i as int) =~= windows@);
    copy
}

/// Some window of `windows` has the id `id`.
pub open spec fn has_id(windows: Seq<Window>, id: u32) -> bool {
    exists|i: int| 0 <= i < windows.len() && (#[trigger] windows[i]).id == id
}

/// Whether some window of `windows` has the id `id`.
pub fn contains_id(windows: &Vec<Window>, id: u32) -> (found: bool)
    ensures
        found == has_id(windows@, id),
{
    let mut i: usize = 0;
    while i < windows.len()
        invariant
            i <= windows.len(),
            forall|k: int| 0 <= k < i ==> (#[trigger] windows@[k]).id != id,
        decreases windows.len() - i,
    {
        if windows[i].id == id {
            assert(windows@[i as int].id == id);
            return true;
        }
        i += 1;
    }
    false
}

/// Whether `ids` holds `id`.
pub fn lists_id(ids: &Vec<u32>, id: u32) -> (found: bool)
    ensures
        found == ids@.contains(id),
{
    let mut i: usize = 0;
    while i < ids.len()
        invariant
            i <= ids.len(),
            forall|k: int| 0 <= k < i ==> #[trigger] ids@[k] != id,
        decreases ids.len() - i,
    {
        if ids[i] == id {
            assert(ids@[i as int] == id);
            return true;
        }
        i += 1;
    }
    false
}

/// Windows that share one place in the layout.
#[derive(Debug)]
pub struct Container {
    pub id: String,
    pub windows: Vec<Window>,
    pub focused_window: usize,
    pub locked: bool,
}

/// The value of a [`Container`].
pub struct ContainerView {
    pub id: Seq<char>,
    pub windows: Seq<Window>,
    pub focused_window: usize,
    pub locked: bool,
}

impl DeepView for Container {
    type V = ContainerView;

    open spec fn deep_view(&self) -> ContainerView {
        ContainerView {
            id: self.id@,
            windows: self.windows@,
            focused_window: self.focused_window,
            locked: self.locked,
        }
    }
}

impl Clone for Container {
    fn clone(&self) -> (copy: Self)
        ensures
            copy.deep_view() == self.deep_view(),
    {
        Container {
            id: self.id.clone(),
            windows: copy_windows(&self.windows),
            focused_window: self.focused_window,
            locked: self.locked,
        }
    }
}

impl ContainerView {
    /// The focused window of the container, if it has one.
    pub open spec fn focused(self) -> Option<Window> {
        if self.focused_window < self.windows.len() {
            Some(self.windows[self.focused_window as int])
        } else {
            None
        }
    }
}

impl Container {
    /// The focused window of the container, if it has one.
    pub fn focused(&self) -> (window: Option<&Window>)
        ensures
            match window {
                Some(window) => self.deep_view().focused() == Some(*window),
                None => self.deep_view().focused() is None,
            },
    {
        if self.focused_window < self.windows.len() {
            Some(&self.windows[self.focused_window])
        } else {
            None
        }
    }

    /// The focused window of the container, to be changed in place.
    pub fn focused_mut(&mut self) -> (window: Option<&mut Window>)
        ensures
            match window {
                Some(window) => {
                    &&& old(self).deep_view().focused() == Some(*window)
                    &&& final(self).deep_view() == (ContainerView {
                        windows: old(self).deep_view().windows.update(
                            old(self).focused_window as int,
                            *final(window),
                        ),
                        ..old(self).deep_view()
                    })
                },
                None => old(self).deep_view().focused() is None && *final(self) == *old(self),
            },
    {
        if self.focused_window < self.windows.len() {
            let i: usize = self.focused_window;
            Some(&mut self.windows[i])
        } else {
            None
        }
    }
}

/// One screenful of containers on a monitor.
#[derive(Debug)]
pub struct Workspace {
    pub name: Option<String>,
    pub containers: Vec<Container>,
    pub focused_container: usize,
    pub monocle_container: Option<Container>,
    /// Where the monocle container goes back to.
    pub monocle_container_restore_idx: Option<usize>,
    pub maximized_window: Option<Window>,
    pub floating_windows: Vec<Window>,
    pub focused_floating_window: usize,
    pub layout: DefaultLayout,
    pub layout_options: Option<LayoutOptions>,
    pub layer: WorkspaceLayer,
    pub tile: bool,
    pub preselected_container_idx: Option<usize>,
    pub float_override: Option<bool>,
    pub window_container_behaviour: Option<WindowContainerBehaviour>,
    pub apply_window_based_work_area_offset: bool,
    pub work_area_offset: Option<Rect>,
    pub work_area: Rect,
    pub window_hiding_position: WindowHidingPosition,
    pub latest_layout: Vec<Rect>,
    pub resize_dimensions: Vec<Option<Rect>>,
    pub workspace_rules: Vec<MatchingRule>,
    pub initial_workspace_rules: Vec<MatchingRule>,
}

/// The value of a [`Workspace`].
pub struct WorkspaceView {
    pub name: Option<Seq<char>>,
    pub containers: Seq<ContainerView>,
    pub focused_container: usize,
    pub monocle_container: Option<ContainerView>,
    pub monocle_container_restore_idx: Option<usize>,
    pub maximized_window: Option<Window>,
    pub floating_windows: Seq<Window>,
    pub focused_floating_window: usize,
    pub layout: DefaultLayout,
    pub layout_options: Option<LayoutOptions>,
    pub layer: WorkspaceLayer,
    pub tile: bool,
    pub preselected_container_idx: Option<usize>,
    pub float_override: Option<bool>,
    pub window_container_behaviour: Option<WindowContainerBehaviour>,
    pub apply_window_based_work_area_offset: bool,
    pub work_area_offset: Option<Rect>,
    pub work_area: Rect,
    pub window_hiding_position: WindowHidingPosition,
    pub latest_layout: Seq<Rect>,
    pub resize_dimensions: Seq<Option<Rect>>,
    pub workspace_rules: Seq<MatchingRuleView>,
    pub initial_workspace_rules: Seq<MatchingRuleView>,
}

impl DeepView for Workspace {
    type V = WorkspaceView;

    open spec fn deep_view(&self) -> WorkspaceView {
        WorkspaceView {
            name: self.name.deep_view(),
            containers: self.containers.deep_view(),
            focused_container: self.focused_container,
            monocle_container: self.monocle_container.deep_view(),
            monocle_container_restore_idx: self.monocle_container_restore_idx,
            maximized_window: self.maximized_window,
            floating_windows: self.floating_windows@,
            focused_floating_window: self.focused_floating_window,
            layout: self.layout,
            layout_options: self.layout_options,
            layer: self.layer,
            tile: self.tile,
            preselected_container_idx: self.preselected_container_idx,
            float_override: self.float_override,
            window_container_behaviour: self.window_container_behaviour,
            apply_window_based_work_area_offset: self.apply_window_based_work_area_offset,
            work_area_offset: self.work_area_offset,
            work_area: self.work_area,
            window_hiding_position: self.window_hiding_position,
            latest_layout: self.latest_layout@,
            resize_dimensions: self.resize_dimensions@,
            workspace_rules: self.workspace_rules.deep_view(),
            initial_workspace_rules: self.initial_workspace_rules.deep_view(),
        }
    }
}

/// A copy of a list of plain values.
fn copy_values<T: Copy>(values: &Vec<T>) -> (copy: Vec<T>)
    ensures
        copy@ == values@,
{
    let mut copy: Vec<T> = Vec::new();
    let mut i: usize = 0;
    while i < values.len()
        invariant
            i <= values.len(),
            copy@ =~= values@.take(i as int),
        decreases values.len() - i,
    {
        copy.push(values[i]);
        i += 1;
    }
    copy
}

fn copy_rules(rules: &Vec<MatchingRule>) -> (copy: Vec<MatchingRule>)
    ensures
        copy.deep_view() == rules.deep_view(),
{
    let mut copy: Vec<MatchingRule> = Vec::new();
    let mut i: usize = 0;
    while i < rules.len()
        invariant
            i <= rules.len(),
            copy.deep_view() =~= rules.deep_view().take(i as int),
        decreases rules.len() - i,
    {
        let ghost before = copy.deep_view();
        copy.push(rules[i].clone());
        assert(copy.deep_view() =~= before.push(rules.deep_view()[i as int]));
        i += 1;
    }
    copy
}

fn copy_containers(containers: &Vec<Container>) -> (copy: Vec<Container>)
    ensures
        copy.deep_view() == containers.deep_view(),
{
    let mut copy: Vec<Container> = Vec::new();
    let mut i: usize = 0;
    while i < containers.len()
        invariant
            i <= containers.len(),
            copy.deep_view() =~= containers.deep_view().take(i as int),
        decreases containers.len() - i,
    {
        let ghost before = copy.deep_view();
        copy.push(containers[i].clone());
        assert(copy.deep_view() =~= before.push(containers.deep_view()[i as int]));
        i += 1;
    }
    copy
}

impl Clone for Workspace {
    fn clone(&self) -> (copy: Self)
        ensures
            copy.deep_view() == self.deep_view(),
    {
        Workspace {
            name: match &self.name {
                Some(name) => Some(name.clone()),
                None => None,
            },
            containers: copy_containers(&self.containers),
            focused_container: self.focused_container,
            monocle_container: match &self.monocle_container {
                Some(monocle) => Some(monocle.clone()),
                None => None,
            },
            monocle_container_restore_idx: self.monocle_container_restore_idx,
            maximized_window: match &self.maximized_window {
                Some(window) => Some(window.clone()),
                None => None,
            },
            floating_windows: copy_windows(&self.floating_windows),
            focused_floating_window: self.focused_floating_window,
            layout: self.layout,
            layout_options: self.layout_options,
            layer: self.layer,
            tile: self.tile,
            preselected_container_idx: self.preselected_container_idx,
            float_override: self.float_override,
            window_container_behaviour: self.window_container_behaviour,
            apply_window_based_work_area_offset: self.apply_window_based_work_area_offset,
            work_area_offset: self.work_area_offset,
            work_area: self.work_area,
            window_hiding_position: self.window_hiding_position,
            latest_layout: copy_values(&self.latest_layout),
            resize_dimensions: copy_values(&self.resize_dimensions),
            workspace_rules: copy_rules(&self.workspace_rules),
            initial_workspace_rules: copy_rules(&self.initial_workspace_rules),
        }
    }
}

impl WorkspaceView {
    /// The focused container, if there is one.
    pub open spec fn focused(self) -> Option<ContainerView> {
        if self.focused_container < self.containers.len() {
            Some(self.containers[self.focused_container as int])
        } else {
            None
        }
    }

    /// There is no window on the workspace.
    pub open spec fn vacant(self) -> bool {
        &&& self.containers.len() == 0
        &&& self.monocle_container is None
        &&& self.maximized_window is None
        &&& self.floating_windows.len() == 0
    }

    /// A window with this id has a place in the layout of the workspace.
    pub open spec fn manages(self, id: u32) -> bool {
        ||| exists|c: int|
            0 <= c < self.containers.len() && has_id((#[trigger] self.containers[c]).windows, id)
        ||| match self.monocle_container {
            Some(monocle) => has_id(monocle.windows, id),
            None => false,
        }
        ||| match self.maximized_window {
            Some(window) => window.id == id,
            None => false,
        }
    }

    /// A window with this id is on the workspace, in the layout or floating above it.
    pub open spec fn shows(self, id: u32) -> bool {
        self.manages(id) || has_id(self.floating_windows, id)
    }

    /// Where a container that goes to a slot comes to stand: in that slot, or at the end where
    /// there are not so many containers or no slot is asked for.
    pub open spec fn landing(self, slot: Option<usize>) -> int {
        match slot {
            Some(slot) => if slot < self.containers.len() {
                slot as int
            } else {
                self.containers.len() as int
            },
            None => self.containers.len() as int,
        }
    }

    /// The workspace with one more container. The focus, and what is remembered of the size of
    /// each container, stay with the containers that they were of.
    pub open spec fn with_container(self, slot: Option<usize>, container: ContainerView) -> WorkspaceView {
        let at = self.landing(slot);
        WorkspaceView {
            containers: self.containers.insert(at, container),
            focused_container: if at <= self.focused_container < self.containers.len() {
                (self.focused_container + 1) as usize
            } else {
                self.focused_container
            },
            resize_dimensions: if at < self.resize_dimensions.len() {
                self.resize_dimensions.insert(at, None)
            } else {
                self.resize_dimensions
            },
            ..self
        }
    }
}

impl Workspace {
    /// The focused container, if there is one.
    pub fn focused(&self) -> (container: Option<&Container>)
        ensures
            match container {
                Some(container) => {
                    &&& self.focused_container < self.containers.len()
                    &&& *container == self.containers[self.focused_container as int]
                    &&& self.deep_view().focused() == Some(container.deep_view())
                },
                None => self.deep_view().focused() is None,
            },
    {
        if self.focused_container < self.containers.len() {
            Some(&self.containers[self.focused_container])
        } else {
            None
        }
    }

    /// Gives the workspace one more container, in a slot if one is asked for.
    pub fn insert_container(&mut self, slot: Option<usize>, container: Container)
        ensures
            final(self).deep_view() == old(self).deep_view().with_container(
                slot,
                container.deep_view(),
            ),
    {
        let ghost before = self.deep_view();
        let count: usize = self.containers.len();
        let at: usize = match slot {
            Some(slot) => if slot < count {
                slot
            } else {
                count
            },
            None => count,
        };
        self.containers.insert(at, container);
        assert(self.containers.deep_view() =~= before.containers.insert(
            at as int,
            container.deep_view(),
        ));
        if at <= self.focused_container && self.focused_container < count {
            self.focused_container += 1;
        }
        if at < self.resize_dimensions.len() {
            self.resize_dimensions.insert(at, None);
        }
    }

    /// Whether there is no window on the workspace.
    pub fn is_empty(&self) -> (empty: bool)
        ensures
            empty == self.deep_view().vacant(),
    {
        self.containers.len() == 0 && self.monocle_container.is_none()
            && self.maximized_window.is_none() && self.floating_windows.len() == 0
    }

    /// Whether a window with this id has a place in the layout of the workspace.
    pub fn contains_managed_window(&self, id: u32) -> (found: bool)
        ensures
            found == self.deep_view().manages(id),
    {
        let mut c: usize = 0;
        while c < self.containers.len()
            invariant
                c <= self.containers.len(),
                forall|k: int|
                    0 <= k < c ==> !has_id(
                        (#[trigger] self.deep_view().containers[k]).windows,
                        id,
                    ),
            decreases self.containers.len() - c,
        {
            if contains_id(&self.containers[c].windows, id) {
                assert(has_id(self.deep_view().containers[c as int].windows, id));
                return true;
            }
            c += 1;
        }
        if let Some(monocle) = &self.monocle_container {
            if contains_id(&monocle.windows, id) {
                return true;
            }
        }
        match &self.maximized_window {
            Some(window) => window.id == id,
            None => false,
        }
    }

    /// Whether a window with this id is on the workspace.
    pub fn contains_window(&self, id: u32) -> (found: bool)
        ensures
            found == self.deep_view().shows(id),
    {
        self.contains_managed_window(id) || contains_id(&self.floating_windows, id)
    }
}

/// Whether windows that would be tiled float while the floating layer is up.
#[derive(Clone, Copy, Debug, PartialEq, Eq, Structural)]
pub enum FloatingLayerBehaviour {
    Tile,
    Float,
}

/// A monitor and its workspaces.
#[derive(Debug)]
pub struct Monitor {
    pub id: u32,
    pub device: String,
    pub serial_number_id: String,
    pub size: Rect,
    pub work_area_size: Rect,
    pub work_area_offset: Option<Rect>,
    pub window_based_work_area_offset: Option<Rect>,
    pub window_based_work_area_offset_limit: isize,
    pub workspaces: Vec<Workspace>,
    pub focused_workspace: usize,
    pub last_focused_workspace: Option<usize>,
    pub container_padding: Option<i32>,
    pub workspace_padding: Option<i32>,
    pub wallpaper: Option<String>,
    pub floating_layer_behaviour: Option<FloatingLayerBehaviour>,
    pub window_hiding_position: WindowHidingPosition,
}

/// The value of a [`Monitor`].
pub struct MonitorView {
    pub id: u32,
    pub device: Seq<char>,
    pub serial_number_id: Seq<char>,
    pub size: Rect,
    pub work_area_size: Rect,
    pub work_area_offset: Option<Rect>,
    pub window_based_work_area_offset: Option<Rect>,
    pub window_based_work_area_offset_limit: isize,
    pub workspaces: Seq<WorkspaceView>,
    pub focused_workspace: usize,
    pub last_focused_workspace: Option<usize>,
    pub container_padding: Option<i32>,
    pub workspace_padding: Option<i32>,
    pub wallpaper: Option<Seq<char>>,
    pub floating_layer_behaviour: Option<FloatingLayerBehaviour>,
    pub window_hiding_position: WindowHidingPosition,
}

impl DeepView for Monitor {
    type V = MonitorView;

    open spec fn deep_view(&self) -> MonitorView {
        MonitorView {
            id: self.id,
            device: self.device@,
            serial_number_id: self.serial_number_id@,
            size: self.size,
            work_area_size: self.work_area_size,
            work_area_offset: self.work_area_offset,
            window_based_work_area_offset: self.window_based_work_area_offset,
            window_based_work_area_offset_limit: self.window_based_work_area_offset_limit,
            workspaces: self.workspaces.deep_view(),
            focused_workspace: self.focused_workspace,
            last_focused_workspace: self.last_focused_workspace,
            container_padding: self.container_padding,
            workspace_padding: self.workspace_padding,
            wallpaper: self.wallpaper.deep_view(),
            floating_layer_behaviour: self.floating_layer_behaviour,
            window_hiding_position: self.window_hiding_position,
        }
    }
}

fn copy_workspaces(workspaces: &Vec<Workspace>) -> (copy: Vec<Workspace>)
    ensures
        copy.deep_view() == workspaces.deep_view(),
{
    let mut copy: Vec<Workspace> = Vec::new();
    let mut i: usize = 0;
    while i < workspaces.len()
        invariant
            i <= workspaces.len(),
            copy.deep_view() =~= workspaces.deep_view().take(i as int),
        decreases workspaces.len() - i,
    {
        let ghost before = copy.deep_view();
        copy.push(workspaces[i].clone());
        assert(copy.deep_view() =~= before.push(workspaces.deep_view()[i as int]));
        i += 1;
    }
    copy
}

impl Clone for Monitor {
    fn clone(&self) -> (copy: Self)
        ensures
            copy.deep_view() == self.deep_view(),
    {
        Monitor {
            id: self.id,
            device: self.device.clone(),
            serial_number_id: self.serial_number_id.clone(),
            size: self.size,
            work_area_size: self.work_area_size,
            work_area_offset: self.work_area_offset,
            window_based_work_area_offset: self.window_based_work_area_offset,
            window_based_work_area_offset_limit: self.window_based_work_area_offset_limit,
            workspaces: copy_workspaces(&self.workspaces),
            focused_workspace: self.focused_workspace,
            last_focused_workspace: self.last_focused_workspace,
            container_padding: self.container_padding,
            workspace_padding: self.workspace_padding,
            wallpaper: match &self.wallpaper {
                Some(wallpaper) => Some(wallpaper.clone()),
                None => None,
            },
            floating_layer_behaviour: self.floating_layer_behaviour,
            window_hiding_position: self.window_hiding_position,
        }
    }
}

impl MonitorView {
    /// The focused workspace, if there is one.
    pub open spec fn focused(self) -> Option<WorkspaceView> {
        if self.focused_workspace < self.workspaces.len() {
            Some(self.workspaces[self.focused_workspace as int])
        } else {
            None
        }
    }

    /// The monitor with one workspace changed.
    pub open spec fn with_workspace(self, w: int, workspace: WorkspaceView) -> MonitorView {
        MonitorView { workspaces: self.workspaces.update(w, workspace), ..self }
    }
}

impl Monitor {
    /// The focused workspace, if there is one.
    pub fn focused(&self) -> (workspace: Option<&Workspace>)
        ensures
            match workspace {
                Some(workspace) => {
                    &&& self.focused_workspace < self.workspaces.len()
                    &&& *workspace == self.workspaces[self.focused_workspace as int]
                    &&& self.deep_view().focused() == Some(workspace.deep_view())
                },
                None => self.deep_view().focused() is None,
            },
    {
        if self.focused_workspace < self.workspaces.len() {
            Some(&self.workspaces[self.focused_workspace])
        } else {
            None
        }
    }

    /// One workspace of the monitor, to be changed in place.
    pub fn workspace_mut(&mut self, w: usize) -> (workspace: &mut Workspace)
        requires
            w < old(self).workspaces.len(),
        ensures
            *workspace == old(self).workspaces[w as int],
            final(self).deep_view() == old(self).deep_view().with_workspace(
                w as int,
                final(workspace).deep_view(),
            ),
    {
        let ghost before = self.deep_view();
        let workspace = &mut self.workspaces[w];
        assert(after_borrow(self).workspaces.deep_view() =~= before.workspaces.update(
            w as int,
            final(workspace).deep_view(),
        ));
        workspace
    }
}

/// Why a command or an event could not be carried out.
#[derive(Clone, Copy, Debug, PartialEq, Eq, Structural)]
pub enum CommandError {
    NoMonitor,
    NoWorkspace,
    NoContainer,
    NoMonitorAtIndex,
    NoWorkspaceAtIndex,
    NotAMonitorIndex,
    AtLeastOneMonitor,
    AtLeastOneWorkspace,
    NoForegroundWindow,
    NoFocusedContainer,
    /// The window that was being moved, and the one that was let go of.
    MoveOfAnotherWindow(u32, u32),
    /// The window that was being resized, and the one that was let go of.
    ResizeOfAnotherWindow(u32, u32),
    NoMonitorAtCursor,
    NoSuchMonitor,
    NoOriginMonitor,
    NoMonitorWithIndex,
    NoSuchWorkspace,
    NoFocusedWorkspaceOnMonitor,
    UnmanagedWindow,
    NoApplication,
    UnreadableFrame,
}

/// That two windows are not the same, and which they are.
pub open spec fn mismatch(reason: Seq<char>, held: u32, other: u32) -> Seq<char> {
    reason + text::decimal_digits(held as nat) + " != "@ + text::decimal_digits(other as nat)
}

fn mismatch_text(reason: &str, held: u32, other: u32) -> (message: String)
    ensures
        message@ == mismatch(reason@, held, other),
{
    let mut message: String = reason.to_owned();
    message.append(text::decimal(held as usize).as_str());
    message.append(" != ");
    message.append(text::decimal(other as usize).as_str());
    message
}

impl CommandError {
    /// What is reported.
    pub open spec fn text(self) -> Seq<char> {
        match self {
            CommandError::NoMonitor => "there is no monitor"@,
            CommandError::NoWorkspace => "there is no workspace"@,
            CommandError::NoContainer => "there is no container"@,
            CommandError::NoMonitorAtIndex => "no monitor at the given index"@,
            CommandError::NoWorkspaceAtIndex => "no workspace at the given index"@,
            CommandError::NotAMonitorIndex => "this is not a valid monitor index"@,
            CommandError::AtLeastOneMonitor => "there must be at least one monitor"@,
            CommandError::AtLeastOneWorkspace => "there must be at least one workspace"@,
            CommandError::NoForegroundWindow => "there is no foreground window"@,
            CommandError::NoFocusedContainer => "there is no focused container"@,
            CommandError::MoveOfAnotherWindow(held, other) => mismatch(
                "window handles for move operation don't match: "@,
                held,
                other,
            ),
            CommandError::ResizeOfAnotherWindow(held, other) => mismatch(
                "window handles for resize operation don't match: "@,
                held,
                other,
            ),
            CommandError::NoMonitorAtCursor => "cannot get monitor idx from current position"@,
            CommandError::NoSuchMonitor => "there is no monitor at this idx"@,
            CommandError::NoOriginMonitor => "cannot get monitor idx"@,
            CommandError::NoMonitorWithIndex => "there is no monitor with this idx"@,
            CommandError::NoSuchWorkspace => "cannot get workspace idx"@,
            CommandError::NoFocusedWorkspaceOnMonitor =>
                "there is no focused workspace for this monitor"@,
            CommandError::UnmanagedWindow => "commands do not act on unmanaged windows"@,
            CommandError::NoApplication => "the application could not be reached"@,
            CommandError::UnreadableFrame => "the frame of a window could not be read"@,
        }
    }

    /// What is reported.
    pub fn message(self) -> (message: String)
        ensures
            message@ == self.text(),
    {
        match self {
            CommandError::NoMonitor => "there is no monitor".to_owned(),
            CommandError::NoWorkspace => "there is no workspace".to_owned(),
            CommandError::NoContainer => "there is no container".to_owned(),
            CommandError::NoMonitorAtIndex => "no monitor at the given index".to_owned(),
            CommandError::NoWorkspaceAtIndex => "no workspace at the given index".to_owned(),
            CommandError::NotAMonitorIndex => "this is not a valid monitor index".to_owned(),
            CommandError::AtLeastOneMonitor => "there must be at least one monitor".to_owned(),
            CommandError::AtLeastOneWorkspace => "there must be at least one workspace".to_owned(),
            CommandError::NoForegroundWindow => "there is no foreground window".to_owned(),
            CommandError::NoFocusedContainer => "there is no focused container".to_owned(),
            CommandError::MoveOfAnotherWindow(held, other) => mismatch_text(
                "window handles for move operation don't match: ",
                held,
                other,
            ),
            CommandError::ResizeOfAnotherWindow(held, other) => mismatch_text(
                "window handles for resize operation don't match: ",
                held,
                other,
            ),
            CommandError::NoMonitorAtCursor =>
                "cannot get monitor idx from current position".to_owned(),
            CommandError::NoSuchMonitor => "there is no monitor at this idx".to_owned(),
            CommandError::NoOriginMonitor => "cannot get monitor idx".to_owned(),
            CommandError::NoMonitorWithIndex => "there is no monitor with this idx".to_owned(),
            CommandError::NoSuchWorkspace => "cannot get workspace idx".to_owned(),
            CommandError::NoFocusedWorkspaceOnMonitor =>
                "there is no focused workspace for this monitor".to_owned(),
            CommandError::UnmanagedWindow => "commands do not act on unmanaged windows".to_owned(),
            CommandError::NoApplication => "the application could not be reached".to_owned(),
            CommandError::UnreadableFrame => "the frame of a window could not be read".to_owned(),
        }
    }
}

/// Everything that is managed, and the settings that go with it.
pub struct WindowManager {
    pub monitors: Vec<Monitor>,
    pub focused_monitor: usize,
    pub monitor_usr_idx_map: HashMap<usize, usize>,
    pub display_index_preferences: Vec<(usize, String)>,
    pub is_paused: bool,
    pub space_id: Option<u64>,
    pub mouse_follows_focus: bool,
    /// What is remembered of the cursor, and whether it decides focus.
    pub follower: Follower,
    pub resize_delta: i32,
    pub work_area_offset: Option<Rect>,
    pub window_management_behaviour: WindowManagementBehaviour,
    pub cross_monitor_move_behaviour: MoveBehaviour,
    pub monocle_focus_behaviour: MonocleFocusBehaviour,
    pub unmanaged_window_operation_behaviour: OperationBehaviour,
    pub known_window_ids: HashMap<u32, (usize, usize)>,
    pub already_moved_window_ids: Vec<u32>,
    pub unmanaged_window_ids: Vec<u32>,
    pub minimized_windows: HashMap<u32, Window>,
    pub pending_move_op: Option<(usize, usize, u32)>,
    pub pending_resize_op: Option<(u32, Option<Rect>)>,
    pub pending_session: Option<SessionState>,
    pub rules: RuleBook,
    pub subscriptions: Subscriptions,
    pub borders: BorderSettings,
    pub animation: AnimationSettings,
    pub memory: WindowMemory,
}

/// The value of a [`WindowManager`].
pub struct WindowManagerView {
    pub monitors: Seq<MonitorView>,
    pub focused_monitor: usize,
    pub monitor_usr_idx_map: Map<usize, usize>,
    pub display_index_preferences: Seq<(usize, Seq<char>)>,
    pub is_paused: bool,
    pub space_id: Option<u64>,
    pub mouse_follows_focus: bool,
    pub follower: Follower,
    pub resize_delta: i32,
    pub work_area_offset: Option<Rect>,
    pub window_management_behaviour: WindowManagementBehaviour,
    pub cross_monitor_move_behaviour: MoveBehaviour,
    pub monocle_focus_behaviour: MonocleFocusBehaviour,
    pub unmanaged_window_operation_behaviour: OperationBehaviour,
    pub known_window_ids: Map<u32, (usize, usize)>,
    pub already_moved_window_ids: Seq<u32>,
    pub unmanaged_window_ids: Seq<u32>,
    pub minimized_windows: Map<u32, Window>,
    pub pending_move_op: Option<(usize, usize, u32)>,
    pub pending_resize_op: Option<(u32, Option<Rect>)>,
    pub pending_session: Option<SessionStateView>,
    pub rules: RuleBookView,
    pub subscriptions: SubscriptionsView,
    pub borders: BorderSettingsView,
    pub animation: AnimationSettings,
    pub memory: WindowMemoryView,
}

impl DeepView for WindowManager {
    type V = WindowManagerView;

    open spec fn deep_view(&self) -> WindowManagerView {
        WindowManagerView {
            monitors: self.monitors.deep_view(),
            focused_monitor: self.focused_monitor,
            monitor_usr_idx_map: self.monitor_usr_idx_map@,
            display_index_preferences: self.display_index_preferences.deep_view(),
            is_paused: self.is_paused,
            space_id: self.space_id,
            mouse_follows_focus: self.mouse_follows_focus,
            follower: self.follower,
            resize_delta: self.resize_delta,
            work_area_offset: self.work_area_offset,
            window_management_behaviour: self.window_management_behaviour,
            cross_monitor_move_behaviour: self.cross_monitor_move_behaviour,
            monocle_focus_behaviour: self.monocle_focus_behaviour,
            unmanaged_window_operation_behaviour: self.unmanaged_window_operation_behaviour,
            known_window_ids: self.known_window_ids@,
            already_moved_window_ids: self.already_moved_window_ids@,
            unmanaged_window_ids: self.unmanaged_window_ids@,
            minimized_windows: self.minimized_windows@,
            pending_move_op: self.pending_move_op,
            pending_resize_op: self.pending_resize_op,
            pending_session: self.pending_session.deep_view(),
            rules: self.rules.deep_view(),
            subscriptions: self.subscriptions@,
            borders: self.borders.deep_view(),
            animation: self.animation,
            memory: self.memory@,
        }
    }
}

impl WindowManagerView {
    /// The focused monitor, if there is one.
    pub open spec fn focused(self) -> Option<MonitorView> {
        if self.focused_monitor < self.monitors.len() {
            Some(self.monitors[self.focused_monitor as int])
        } else {
            None
        }
    }

    /// The focused workspace, or why there is none.
    pub open spec fn workspace(self) -> Result<WorkspaceView, CommandError> {
        match self.focused() {
            Some(monitor) => match monitor.focused() {
                Some(workspace) => Ok(workspace),
                None => Err(CommandError::NoWorkspace),
            },
            None => Err(CommandError::NoMonitor),
        }
    }

    /// The state with one monitor changed.
    pub open spec fn with_monitor(self, m: int, monitor: MonitorView) -> WindowManagerView {
        WindowManagerView { monitors: self.monitors.update(m, monitor), ..self }
    }

    /// The state with one workspace changed.
    pub open spec fn with_workspace_at(
        self,
        m: int,
        w: int,
        workspace: WorkspaceView,
    ) -> WindowManagerView {
        self.with_monitor(m, self.monitors[m].with_workspace(w, workspace))
    }

    /// The state with the focused workspace changed.
    pub open spec fn with_workspace(self, workspace: WorkspaceView) -> WindowManagerView {
        self.with_workspace_at(
            self.focused_monitor as int,
            self.monitors[self.focused_monitor as int].focused_workspace as int,
            workspace,
        )
    }

    /// The index of the focused workspace on the focused monitor, or zero.
    pub open spec fn workspace_idx_or_zero(self) -> usize {
        match self.focused() {
            Some(monitor) => monitor.focused_workspace,
            None => 0,
        }
    }

    /// The monitor and the workspace that go by a name: the first there is.
    pub open spec fn named(self, name: Seq<char>) -> Option<(usize, usize)> {
        named_from(self.monitors, name, 0)
    }
}

/// The first workspace of a monitor that goes by `name`, counting from `from`.
pub open spec fn named_workspace_from(
    workspaces: Seq<WorkspaceView>,
    name: Seq<char>,
    from: int,
) -> Option<usize>
    decreases workspaces.len() - from,
{
    if from < 0 || from >= workspaces.len() {
        None
    } else if workspaces[from].name == Some(name) {
        Some(from as usize)
    } else {
        named_workspace_from(workspaces, name, from + 1)
    }
}

/// The first workspace that goes by `name`, counting monitors from `from`.
pub open spec fn named_from(monitors: Seq<MonitorView>, name: Seq<char>, from: int) -> Option<
    (usize, usize),
>
    decreases monitors.len() - from,
{
    if from < 0 || from >= monitors.len() {
        None
    } else {
        match named_workspace_from(monitors[from].workspaces, name, 0) {
            Some(w) => Some((from as usize, w)),
            None => named_from(monitors, name, from + 1),
        }
    }
}

impl WindowManager {
    /// The focused monitor, if there is one.
    pub fn focused(&self) -> (monitor: Option<&Monitor>)
        ensures
            match monitor {
                Some(monitor) => {
                    &&& self.focused_monitor < self.monitors.len()
                    &&& *monitor == self.monitors[self.focused_monitor as int]
                    &&& self.deep_view().focused() == Some(monitor.deep_view())
                },
                None => self.deep_view().focused() is None,
            },
    {
        if self.focused_monitor < self.monitors.len() {
            Some(&self.monitors[self.focused_monitor])
        } else {
            None
        }
    }

    /// The focused workspace, or why there is none.
    pub fn workspace(&self) -> (workspace: Result<&Workspace, CommandError>)
        ensures
            match workspace {
                Ok(workspace) => self.deep_view().workspace() == Ok::<WorkspaceView, CommandError>(
                    workspace.deep_view(),
                ),
                Err(error) => self.deep_view().workspace() == Err::<WorkspaceView, CommandError>(
                    error,
                ),
            },
    {
        match self.focused() {
            Some(monitor) => match monitor.focused() {
                Some(workspace) => Ok(workspace),
                None => Err(CommandError::NoWorkspace),
            },
            None => Err(CommandError::NoMonitor),
        }
    }

    /// One monitor, to be changed in place.
    pub fn monitor_mut(&mut self, m: usize) -> (monitor: &mut Monitor)
        requires
            m < old(self).monitors.len(),
        ensures
            *monitor == old(self).monitors[m as int],
            final(self).deep_view() == old(self).deep_view().with_monitor(
                m as int,
                final(monitor).deep_view(),
            ),
    {
        let ghost before = self.deep_view();
        let monitor = &mut self.monitors[m];
        assert(after_borrow(self).monitors.deep_view() =~= before.monitors.update(
            m as int,
            final(monitor).deep_view(),
        ));
        monitor
    }

    /// One workspace, to be changed in place.
    pub fn workspace_at_mut(&mut self, m: usize, w: usize) -> (workspace: &mut Workspace)
        requires
            m < old(self).monitors.len(),
            w < old(self).monitors[m as int].workspaces.len(),
        ensures
            *workspace == old(self).monitors[m as int].workspaces[w as int],
            final(self).deep_view() == old(self).deep_view().with_workspace_at(
                m as int,
                w as int,
                final(workspace).deep_view(),
            ),
    {
        self.monitor_mut(m).workspace_mut(w)
    }

    /// The focused workspace, to be changed in place, or why there is none.
    pub fn workspace_mut(&mut self) -> (workspace: Result<&mut Workspace, CommandError>)
        ensures
            match workspace {
                Ok(workspace) => {
                    &&& old(self).deep_view().workspace() == Ok::<WorkspaceView, CommandError>(
                        workspace.deep_view(),
                    )
                    &&& final(self).deep_view() == old(self).deep_view().with_workspace(
                        final(workspace).deep_view(),
                    )
                },
                Err(error) => {
                    &&& old(self).deep_view().workspace() == Err::<WorkspaceView, CommandError>(
                        error,
                    )
                    &&& final(self).deep_view() == old(self).deep_view()
                },
            },
    {
        let m: usize = self.focused_monitor;
        if m < self.monitors.len() {
            let w: usize = self.monitors[m].focused_workspace;
            if w < self.monitors[m].workspaces.len() {
                Ok(self.workspace_at_mut(m, w))
            } else {
                Err(CommandError::NoWorkspace)
            }
        } else {
            Err(CommandError::NoMonitor)
        }
    }

    /// Moves the focus to a monitor that there is.
    pub fn focus_monitor(&mut self, idx: usize) -> (result: Result<(), CommandError>)
        ensures
            match result {
                Ok(_) => {
                    &&& idx < old(self).monitors.len()
                    &&& final(self).deep_view() == (WindowManagerView {
                        focused_monitor: idx,
                        ..old(self).deep_view()
                    })
                },
                Err(error) => {
                    &&& idx >= old(self).monitors.len()
                    &&& error == CommandError::NotAMonitorIndex
                    &&& *final(self) == *old(self)
                },
            },
    {
        if idx < self.monitors.len() {
            self.focused_monitor = idx;
            Ok(())
        } else {
            Err(CommandError::NotAMonitorIndex)
        }
    }

    /// The monitor and the workspace that go by a name: the first there is.
    pub fn monitor_workspace_index_by_name(&self, name: &str) -> (place: Option<(usize, usize)>)
        ensures
            place == self.deep_view().named(name@),
    {
        let mut m: usize = 0;
        while m < self.monitors.len()
            invariant
                m <= self.monitors.len(),
                self.deep_view().named(name@) == named_from(
                    self.deep_view().monitors,
                    name@,
                    m as int,
                ),
            decreases self.monitors.len() - m,
        {
            let workspaces = &self.monitors[m].workspaces;
            assert(self.deep_view().monitors[m as int].workspaces == workspaces.deep_view());
            if let Some(w) = workspace_index_by_name(workspaces, name) {
                return Some((m, w));
            }
            m += 1;
        }
        None
    }
}

/// Some workspace of a monitor shows a window with this id.
pub open spec fn monitor_shows(monitor: MonitorView, id: u32) -> bool {
    exists|w: int| 0 <= w < monitor.workspaces.len() && (#[trigger] monitor.workspaces[w]).shows(id)
}

impl WindowManagerView {
    /// Some workspace shows a window with this id.
    pub open spec fn shows(self, id: u32) -> bool {
        exists|m: int|
            0 <= m < self.monitors.len() && monitor_shows(#[trigger] self.monitors[m], id)
    }
}

impl Monitor {
    /// Whether some workspace of the monitor shows a window with this id.
    pub fn contains_window(&self, id: u32) -> (found: bool)
        ensures
            found == monitor_shows(self.deep_view(), id),
    {
        let mut w: usize = 0;
        while w < self.workspaces.len()
            invariant
                w <= self.workspaces.len(),
                forall|k: int| 0 <= k < w ==> !(#[trigger] self.deep_view().workspaces[k]).shows(id),
            decreases self.workspaces.len() - w,
        {
            if self.workspaces[w].contains_window(id) {
                assert(self.deep_view().workspaces[w as int].shows(id));
                return true;
            }
            w += 1;
        }
        false
    }
}

impl WindowManager {
    /// Whether some workspace shows a window with this id.
    pub fn manages_window(&self, id: u32) -> (found: bool)
        ensures
            found == self.deep_view().shows(id),
    {
        let mut m: usize = 0;
        while m < self.monitors.len()
            invariant
                m <= self.monitors.len(),
                forall|k: int|
                    0 <= k < m ==> !monitor_shows(#[trigger] self.deep_view().monitors[k], id),
            decreases self.monitors.len() - m,
        {
            assert(self.deep_view().monitors[m as int] == self.monitors[m as int].deep_view());
            if self.monitors[m].contains_window(id) {
                assert(monitor_shows(self.deep_view().monitors[m as int], id));
                return true;
            }
            m += 1;
        }
        false
    }
}

/// The first of some workspaces that goes by `name`.
pub fn workspace_index_by_name(workspaces: &Vec<Workspace>, name: &str) -> (place: Option<usize>)
    ensures
        place == named_workspace_from(workspaces.deep_view(), name@, 0),
{
    let mut w: usize = 0;
    while w < workspaces.len()
        invariant
            w <= workspaces.len(),
            named_workspace_from(workspaces.deep_view(), name@, 0) == named_workspace_from(
                workspaces.deep_view(),
                name@,
                w as int,
            ),
        decreases workspaces.len() - w,
    {
        assert(workspaces.deep_view()[w as int].name == workspaces[w as int].name.deep_view());
        if let Some(found) = &workspaces[w].name {
            if text::same_text(found.as_str(), name) {
                return Some(w);
            }
        }
        w += 1;
    }
    None
}

} // verus!
