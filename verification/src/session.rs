//! Where windows were, so that they can be put back.
//!
//! Two things identify a window here, and they fail in different situations. The ids the
//! system gives out are exact but only last as long as the boot that issued them. The name
//! of the application together with the title survives anything that reopens the same
//! windows, at the cost of being a guess when two windows of one application share a
//! title. Both are tried, ids first.

use crate::settings;
use crate::settings::WindowAttributes;
use crate::settings::WindowAttributesView;
use crate::text;
use crate::window_manager::Container;
use crate::window_manager::ContainerView;
use crate::window_manager::Monitor;
use crate::window_manager::MonitorView;
use crate::window_manager::Window;
use crate::window_manager::WindowManager;
use crate::window_manager::WindowManagerView;
use crate::window_manager::Workspace;
use crate::window_manager::WorkspaceView;
use vstd::prelude::*;

verus! {

/// The file, under the data directory, that the session is kept in.
pub const SESSION_FILE: &'static str = "komorebi.session.json";

/// One window of a session.
#[derive(Debug)]
pub struct SessionWindow {
    pub window_id: u32,
    /// The name of the application. Lets a window be matched by application and title when
    /// its id is no longer valid.
    pub exe: String,
    pub title: String,
    pub monitor: usize,
    pub workspace: usize,
    /// Which slot of that workspace the window occupied.
    pub index: usize,
}

/// The value of a [`SessionWindow`].
pub struct SessionWindowView {
    pub window_id: u32,
    pub exe: Seq<char>,
    pub title: Seq<char>,
    pub monitor: usize,
    pub workspace: usize,
    pub index: usize,
}

impl DeepView for SessionWindow {
    type V = SessionWindowView;

    open spec fn deep_view(&self) -> SessionWindowView {
        SessionWindowView {
            window_id: self.window_id,
            exe: self.exe@,
            title: self.title@,
            monitor: self.monitor,
            workspace: self.workspace,
            index: self.index,
        }
    }
}

/// The windows of a session, and the boot it was written in.
#[derive(Debug)]
pub struct SessionState {
    /// What the system called the boot that the session was written in.
    pub boot_uuid: String,
    pub windows: Vec<SessionWindow>,
    /// Whether the window ids in here still refer to the windows they were written for.
    /// False once the machine has rebooted: the placements are still worth having, but only
    /// what can be matched by name and title.
    pub ids_are_current: bool,
}

/// The value of a [`SessionState`].
pub struct SessionStateView {
    pub boot_uuid: Seq<char>,
    pub windows: Seq<SessionWindowView>,
    pub ids_are_current: bool,
}

impl DeepView for SessionState {
    type V = SessionStateView;

    open spec fn deep_view(&self) -> SessionStateView {
        SessionStateView {
            boot_uuid: self.boot_uuid@,
            windows: self.windows.deep_view(),
            ids_are_current: self.ids_are_current,
        }
    }
}

/// An entry is the exact one for a window: same id, same application.
pub open spec fn matches_id(entry: SessionWindowView, window_id: u32, exe: Seq<char>) -> bool {
    entry.window_id == window_id && entry.exe == exe
}

/// An entry is a likely one for a window: same application, same title.
pub open spec fn matches_title(entry: SessionWindowView, exe: Seq<char>, title: Seq<char>) -> bool {
    entry.exe == exe && entry.title == title
}

/// Where the first entry for this id and application stands, counting from `from`.
pub open spec fn first_by_id(
    windows: Seq<SessionWindowView>,
    window_id: u32,
    exe: Seq<char>,
    from: int,
) -> Option<int>
    decreases windows.len() - from,
{
    if from < 0 || from >= windows.len() {
        None
    } else if matches_id(windows[from], window_id, exe) {
        Some(from)
    } else {
        first_by_id(windows, window_id, exe, from + 1)
    }
}

/// Where the first entry for this application and title stands, counting from `from`.
pub open spec fn first_by_title(
    windows: Seq<SessionWindowView>,
    exe: Seq<char>,
    title: Seq<char>,
    from: int,
) -> Option<int>
    decreases windows.len() - from,
{
    if from < 0 || from >= windows.len() {
        None
    } else if matches_title(windows[from], exe, title) {
        Some(from)
    } else {
        first_by_title(windows, exe, title, from + 1)
    }
}

/// Which entry of a session a window claims: by id while ids mean anything, and otherwise
/// by title, which an untitled window does not have.
pub open spec fn claimed_entry(
    session: SessionStateView,
    window_id: u32,
    exe: Seq<char>,
    title: Seq<char>,
) -> Option<int> {
    let by_id = first_by_id(session.windows, window_id, exe, 0);
    if session.ids_are_current && by_id is Some {
        by_id
    } else if title.len() > 0 {
        first_by_title(session.windows, exe, title, 0)
    } else {
        None
    }
}

/// The session after a window claimed its entry.
pub open spec fn after_claim(
    session: SessionStateView,
    window_id: u32,
    exe: Seq<char>,
    title: Seq<char>,
) -> SessionStateView {
    match claimed_entry(session, window_id, exe, title) {
        Some(i) => SessionStateView { windows: session.windows.remove(i), ..session },
        None => session,
    }
}

/// The place that a window claims: monitor, workspace and slot.
pub open spec fn claimed_place(
    session: SessionStateView,
    window_id: u32,
    exe: Seq<char>,
    title: Seq<char>,
) -> Option<(usize, usize, usize)> {
    match claimed_entry(session, window_id, exe, title) {
        Some(i) => Some(
            (
                session.windows[i].monitor,
                session.windows[i].workspace,
                session.windows[i].index,
            ),
        ),
        None => None,
    }
}

impl SessionState {
    fn position_by_id(&self, window_id: u32, exe: &str) -> (at: Option<usize>)
        ensures
            match at {
                Some(i) => i < self.windows.len() && first_by_id(
                    self.deep_view().windows,
                    window_id,
                    exe@,
                    0,
                ) == Some(i as int),
                None => first_by_id(self.deep_view().windows, window_id, exe@, 0) is None,
            },
    {
        let mut i: usize = 0;
        while i < self.windows.len()
            invariant
                i <= self.windows.len(),
                first_by_id(self.deep_view().windows, window_id, exe@, 0) == first_by_id(
                    self.deep_view().windows,
                    window_id,
                    exe@,
                    i as int,
                ),
            decreases self.windows.len() - i,
        {
            let entry = &self.windows[i];
            assert(self.deep_view().windows[i as int] == entry.deep_view());
            if entry.window_id == window_id && text::same_text(entry.exe.as_str(), exe) {
                return Some(i);
            }
            i += 1;
        }
        None
    }

    fn position_by_title(&self, exe: &str, title: &str) -> (at: Option<usize>)
        ensures
            match at {
                Some(i) => i < self.windows.len() && first_by_title(
                    self.deep_view().windows,
                    exe@,
                    title@,
                    0,
                ) == Some(i as int),
                None => first_by_title(self.deep_view().windows, exe@, title@, 0) is None,
            },
    {
        let mut i: usize = 0;
        while i < self.windows.len()
            invariant
                i <= self.windows.len(),
                first_by_title(self.deep_view().windows, exe@, title@, 0) == first_by_title(
                    self.deep_view().windows,
                    exe@,
                    title@,
                    i as int,
                ),
            decreases self.windows.len() - i,
        {
            let entry = &self.windows[i];
            assert(self.deep_view().windows[i as int] == entry.deep_view());
            if text::same_text(entry.exe.as_str(), exe) && text::same_text(
                entry.title.as_str(),
                title,
            ) {
                return Some(i);
            }
            i += 1;
        }
        None
    }

    fn take(&mut self, i: usize) -> (place: (usize, usize, usize))
        requires
            i < old(self).windows.len(),
        ensures
            final(self).deep_view() == (SessionStateView {
                windows: old(self).deep_view().windows.remove(i as int),
                ..old(self).deep_view()
            }),
            place == (
                old(self).deep_view().windows[i as int].monitor,
                old(self).deep_view().windows[i as int].workspace,
                old(self).deep_view().windows[i as int].index,
            ),
    {
        let ghost before = self.deep_view().windows;
        let entry = self.windows.remove(i);
        assert(self.windows.deep_view() =~= before.remove(i as int));
        (entry.monitor, entry.workspace, entry.index)
    }

    /// Finds the remembered place of a window and consumes the entry, so that two windows
    /// cannot claim the same one. First by id and application, which is exact; then by
    /// application and title, which is the best that can be done with new ids. Requiring the
    /// application to match keeps a new id that collides with an old one by chance from
    /// misplacing a window.
    pub fn take_match(&mut self, window_id: u32, exe: &str, title: &str) -> (place: Option<
        (usize, usize, usize),
    >)
        ensures
            place == claimed_place(old(self).deep_view(), window_id, exe@, title@),
            final(self).deep_view() == after_claim(old(self).deep_view(), window_id, exe@, title@),
    {
        // Ids are only meaningful within the boot that issued them.
        if self.ids_are_current {
            if let Some(i) = self.position_by_id(window_id, exe) {
                return Some(self.take(i));
            }
        }
        if !title.is_empty() {
            if let Some(i) = self.position_by_title(exe, title) {
                return Some(self.take(i));
            }
        }
        None
    }

    /// Whether nothing is left to claim.
    pub fn is_spent(&self) -> (spent: bool)
        ensures
            spent == (self.deep_view().windows.len() == 0),
    {
        self.windows.len() == 0
    }
}

/// A session that was read back, for use in the boot that `current` names. The session is
/// kept whatever boot it is from, and only what a reboot makes unreliable, the ids, is
/// switched off.
pub fn load(stored: SessionState, current: Option<&str>) -> (session: SessionState)
    ensures
        session.deep_view() == (SessionStateView {
            ids_are_current: current is Some && current->0@ == stored.deep_view().boot_uuid,
            ..stored.deep_view()
        }),
{
    let mut session = stored;
    session.ids_are_current = match current {
        Some(current) => text::same_text(current, session.boot_uuid.as_str()),
        None => false,
    };
    session
}

/// Whether a session that reads `contents` has to be written, when `last` was written last.
pub fn needs_writing(contents: &str, last: Option<&str>) -> (needed: bool)
    ensures
        needed == !(last is Some && last->0@ == contents@),
{
    match last {
        Some(last) => !text::same_text(last, contents),
        None => true,
    }
}

/// A text that may be missing, which then reads as empty.
pub open spec fn or_empty(text: Option<Seq<char>>) -> Seq<char> {
    match text {
        Some(text) => text,
        None => Seq::empty(),
    }
}

/// What is written down of a window.
pub open spec fn entry_of(
    window: Window,
    m: usize,
    w: usize,
    index: usize,
    attributes: Seq<(u32, WindowAttributesView)>,
) -> SessionWindowView {
    let told_by = settings::attributes_of(attributes, window.id, 0);
    SessionWindowView {
        window_id: window.id,
        exe: or_empty(told_by.exe),
        title: or_empty(told_by.title),
        monitor: m,
        workspace: w,
        index,
    }
}

/// What is written down of some windows in one slot.
pub open spec fn entries_of(
    windows: Seq<Window>,
    m: usize,
    w: usize,
    index: usize,
    attributes: Seq<(u32, WindowAttributesView)>,
) -> Seq<SessionWindowView> {
    windows.map_values(|window: Window| entry_of(window, m, w, index, attributes))
}

/// What is written down of the first `n` containers of a workspace: the slot of a container
/// is its place among them.
pub open spec fn container_entries(
    containers: Seq<ContainerView>,
    n: int,
    m: usize,
    w: usize,
    attributes: Seq<(u32, WindowAttributesView)>,
) -> Seq<SessionWindowView>
    decreases n,
{
    if n <= 0 {
        Seq::empty()
    } else {
        container_entries(containers, n - 1, m, w, attributes) + entries_of(
            containers[n - 1].windows,
            m,
            w,
            (n - 1) as usize,
            attributes,
        )
    }
}

/// The slot that the container on its own comes back to, or the first.
pub open spec fn monocle_slot(workspace: WorkspaceView) -> usize {
    match workspace.monocle_container_restore_idx {
        Some(index) => index,
        None => 0,
    }
}

/// What is written down of the container that fills a workspace on its own.
pub open spec fn monocle_entries(
    workspace: WorkspaceView,
    m: usize,
    w: usize,
    attributes: Seq<(u32, WindowAttributesView)>,
) -> Seq<SessionWindowView> {
    match workspace.monocle_container {
        Some(monocle) => entries_of(monocle.windows, m, w, monocle_slot(workspace), attributes),
        None => Seq::empty(),
    }
}

/// What is written down of the window that is maximized over a workspace.
pub open spec fn maximized_entries(
    workspace: WorkspaceView,
    m: usize,
    w: usize,
    attributes: Seq<(u32, WindowAttributesView)>,
) -> Seq<SessionWindowView> {
    match workspace.maximized_window {
        Some(window) => seq![entry_of(window, m, w, 0, attributes)],
        None => Seq::empty(),
    }
}

/// What is written down of a workspace. Floating windows and a maximized one have no slot to
/// come back to.
pub open spec fn workspace_entries(
    workspace: WorkspaceView,
    m: usize,
    w: usize,
    attributes: Seq<(u32, WindowAttributesView)>,
) -> Seq<SessionWindowView> {
    container_entries(workspace.containers, workspace.containers.len() as int, m, w, attributes)
        + entries_of(workspace.floating_windows, m, w, 0, attributes) + monocle_entries(
        workspace,
        m,
        w,
        attributes,
    ) + maximized_entries(workspace, m, w, attributes)
}

/// What is written down of the first `n` workspaces of a monitor.
pub open spec fn monitor_entries(
    monitor: MonitorView,
    n: int,
    m: usize,
    attributes: Seq<(u32, WindowAttributesView)>,
) -> Seq<SessionWindowView>
    decreases n,
{
    if n <= 0 {
        Seq::empty()
    } else {
        monitor_entries(monitor, n - 1, m, attributes) + workspace_entries(
            monitor.workspaces[n - 1],
            m,
            (n - 1) as usize,
            attributes,
        )
    }
}

/// What is written down of the first `n` monitors.
pub open spec fn all_entries(
    monitors: Seq<MonitorView>,
    n: int,
    attributes: Seq<(u32, WindowAttributesView)>,
) -> Seq<SessionWindowView>
    decreases n,
{
    if n <= 0 {
        Seq::empty()
    } else {
        let monitor = monitors[n - 1];
        all_entries(monitors, n - 1, attributes) + monitor_entries(
            monitor,
            monitor.workspaces.len() as int,
            (n - 1) as usize,
            attributes,
        )
    }
}

/// The session that is written down: every window, whether it is in a container, floating, in
/// the container on its own or maximized, with where it is.
pub open spec fn built(
    wm: WindowManagerView,
    attributes: Seq<(u32, WindowAttributesView)>,
    boot_uuid: Option<Seq<char>>,
) -> SessionStateView {
    SessionStateView {
        boot_uuid: or_empty(boot_uuid),
        windows: all_entries(wm.monitors, wm.monitors.len() as int, attributes),
        ids_are_current: true,
    }
}

/// A copy of a text that may be missing, which then reads as empty.
pub fn text_or_empty(text: &Option<String>) -> (copy: String)
    ensures
        copy@ == or_empty(text.deep_view()),
{
    match text {
        Some(text) => text.clone(),
        None => {
            proof {
                reveal_strlit("");
                assert(""@ =~= Seq::<char>::empty());
            }
            "".to_owned()
        },
    }
}

fn write_entry(
    window: &Window,
    m: usize,
    w: usize,
    index: usize,
    attributes: &Vec<(u32, WindowAttributes)>,
) -> (entry: SessionWindow)
    ensures
        entry.deep_view() == entry_of(*window, m, w, index, attributes.deep_view()),
{
    let (exe, title) = match settings::attributes_position(attributes, window.id) {
        Some(i) => (text_or_empty(&attributes[i].1.exe), text_or_empty(&attributes[i].1.title)),
        None => (text_or_empty(&None), text_or_empty(&None)),
    };
    SessionWindow { window_id: window.id, exe, title, monitor: m, workspace: w, index }
}

fn write_windows(
    entries: &mut Vec<SessionWindow>,
    windows: &Vec<Window>,
    m: usize,
    w: usize,
    index: usize,
    attributes: &Vec<(u32, WindowAttributes)>,
)
    ensures
        final(entries).deep_view() == old(entries).deep_view() + entries_of(
            windows@,
            m,
            w,
            index,
            attributes.deep_view(),
        ),
{
    let ghost before = entries.deep_view();
    let ghost all = entries_of(windows@, m, w, index, attributes.deep_view());
    let mut i: usize = 0;
    while i < windows.len()
        invariant
            i <= windows.len(),
            all == entries_of(windows@, m, w, index, attributes.deep_view()),
            entries.deep_view() =~= before + all.take(i as int),
        decreases windows.len() - i,
    {
        let ghost now = entries.deep_view();
        entries.push(write_entry(&windows[i], m, w, index, attributes));
        assert(entries.deep_view() =~= now.push(all[i as int]));
        i += 1;
        assert(all.take(i as int) =~= all.take(i - 1).push(all[i - 1]));
    }
    assert(all.take(i as int) =~= all);
}

fn write_containers(
    entries: &mut Vec<SessionWindow>,
    containers: &Vec<Container>,
    m: usize,
    w: usize,
    attributes: &Vec<(u32, WindowAttributes)>,
)
    ensures
        final(entries).deep_view() == old(entries).deep_view() + container_entries(
            containers.deep_view(),
            containers.len() as int,
            m,
            w,
            attributes.deep_view(),
        ),
{
    let ghost before = entries.deep_view();
    let mut c: usize = 0;
    while c < containers.len()
        invariant
            c <= containers.len(),
            entries.deep_view() =~= before + container_entries(
                containers.deep_view(),
                c as int,
                m,
                w,
                attributes.deep_view(),
            ),
        decreases containers.len() - c,
    {
        assert(containers.deep_view()[c as int] == containers[c as int].deep_view());
        write_windows(entries, &containers[c].windows, m, w, c, attributes);
        c += 1;
    }
}

fn write_workspace(
    entries: &mut Vec<SessionWindow>,
    workspace: &Workspace,
    m: usize,
    w: usize,
    attributes: &Vec<(u32, WindowAttributes)>,
)
    ensures
        final(entries).deep_view() == old(entries).deep_view() + workspace_entries(
            workspace.deep_view(),
            m,
            w,
            attributes.deep_view(),
        ),
{
    let ghost before = entries.deep_view();
    write_containers(entries, &workspace.containers, m, w, attributes);
    write_windows(entries, &workspace.floating_windows, m, w, 0, attributes);
    let ghost tiled_and_floating = entries.deep_view();
    if let Some(monocle) = &workspace.monocle_container {
        let index: usize = match workspace.monocle_container_restore_idx {
            Some(index) => index,
            None => 0,
        };
        write_windows(entries, &monocle.windows, m, w, index, attributes);
    }
    assert(entries.deep_view() =~= tiled_and_floating + monocle_entries(
        workspace.deep_view(),
        m,
        w,
        attributes.deep_view(),
    ));
    let ghost but_maximized = entries.deep_view();
    if let Some(window) = &workspace.maximized_window {
        let entry = write_entry(window, m, w, 0, attributes);
        entries.push(entry);
        assert(entries.deep_view() =~= but_maximized.push(entry.deep_view()));
    }
    assert(entries.deep_view() =~= but_maximized + maximized_entries(
        workspace.deep_view(),
        m,
        w,
        attributes.deep_view(),
    ));
    assert(entries.deep_view() =~= before + workspace_entries(
        workspace.deep_view(),
        m,
        w,
        attributes.deep_view(),
    ));
}

fn write_monitor(
    entries: &mut Vec<SessionWindow>,
    monitor: &Monitor,
    m: usize,
    attributes: &Vec<(u32, WindowAttributes)>,
)
    ensures
        final(entries).deep_view() == old(entries).deep_view() + monitor_entries(
            monitor.deep_view(),
            monitor.workspaces.len() as int,
            m,
            attributes.deep_view(),
        ),
{
    let ghost before = entries.deep_view();
    let mut w: usize = 0;
    while w < monitor.workspaces.len()
        invariant
            w <= monitor.workspaces.len(),
            entries.deep_view() =~= before + monitor_entries(
                monitor.deep_view(),
                w as int,
                m,
                attributes.deep_view(),
            ),
        decreases monitor.workspaces.len() - w,
    {
        assert(monitor.deep_view().workspaces[w as int] == monitor.workspaces[w as int].deep_view());
        write_workspace(entries, &monitor.workspaces[w], m, w, attributes);
        w += 1;
    }
}

/// Writes down where every window is, with what the windows can be told by and the boot that
/// this is written in, where they are known.
pub fn build(
    wm: &WindowManager,
    attributes: &Vec<(u32, WindowAttributes)>,
    boot_uuid: &Option<String>,
) -> (session: SessionState)
    ensures
        session.deep_view() == built(
            wm.deep_view(),
            attributes.deep_view(),
            boot_uuid.deep_view(),
        ),
{
    let mut windows: Vec<SessionWindow> = Vec::new();
    assert(windows.deep_view() =~= Seq::<SessionWindowView>::empty());
    let mut m: usize = 0;
    while m < wm.monitors.len()
        invariant
            m <= wm.monitors.len(),
            windows.deep_view() == all_entries(
                wm.deep_view().monitors,
                m as int,
                attributes.deep_view(),
            ),
        decreases wm.monitors.len() - m,
    {
        assert(wm.deep_view().monitors[m as int] == wm.monitors[m as int].deep_view());
        write_monitor(&mut windows, &wm.monitors[m], m, attributes);
        m += 1;
    }
    SessionState { boot_uuid: text_or_empty(boot_uuid), windows, ids_are_current: true }
}

proof fn lemma_container_is_written(
    containers: Seq<ContainerView>,
    n: int,
    m: usize,
    w: usize,
    attributes: Seq<(u32, WindowAttributesView)>,
    c: int,
    k: int,
)
    requires
        0 <= c < n <= containers.len(),
        0 <= k < containers[c].windows.len(),
    ensures
        container_entries(containers, n, m, w, attributes).contains(
            entry_of(containers[c].windows[k], m, w, c as usize, attributes),
        ),
    decreases n,
{
    let all = container_entries(containers, n, m, w, attributes);
    let earlier = container_entries(containers, n - 1, m, w, attributes);
    if c < n - 1 {
        lemma_container_is_written(containers, n - 1, m, w, attributes, c, k);
        let entry = entry_of(containers[c].windows[k], m, w, c as usize, attributes);
        let i = choose|i: int| 0 <= i < earlier.len() && earlier[i] == entry;
        assert(all[i] == entry);
    } else {
        assert(all[earlier.len() + k] == entry_of(
            containers[c].windows[k],
            m,
            w,
            c as usize,
            attributes,
        ));
    }
}

proof fn lemma_workspace_is_written(
    monitor: MonitorView,
    n: int,
    m: usize,
    attributes: Seq<(u32, WindowAttributesView)>,
    w: int,
    entry: SessionWindowView,
)
    requires
        0 <= w < n <= monitor.workspaces.len(),
        workspace_entries(monitor.workspaces[w], m, w as usize, attributes).contains(entry),
    ensures
        monitor_entries(monitor, n, m, attributes).contains(entry),
    decreases n,
{
    let all = monitor_entries(monitor, n, m, attributes);
    let earlier = monitor_entries(monitor, n - 1, m, attributes);
    if w < n - 1 {
        lemma_workspace_is_written(monitor, n - 1, m, attributes, w, entry);
        let i = choose|i: int| 0 <= i < earlier.len() && earlier[i] == entry;
        assert(all[i] == entry);
    } else {
        let here = workspace_entries(monitor.workspaces[w], m, w as usize, attributes);
        let i = choose|i: int| 0 <= i < here.len() && here[i] == entry;
        assert(all[earlier.len() + i] == entry);
    }
}

proof fn lemma_monitor_is_written(
    monitors: Seq<MonitorView>,
    n: int,
    attributes: Seq<(u32, WindowAttributesView)>,
    m: int,
    entry: SessionWindowView,
)
    requires
        0 <= m < n <= monitors.len(),
        monitor_entries(
            monitors[m],
            monitors[m].workspaces.len() as int,
            m as usize,
            attributes,
        ).contains(entry),
    ensures
        all_entries(monitors, n, attributes).contains(entry),
    decreases n,
{
    let all = all_entries(monitors, n, attributes);
    let earlier = all_entries(monitors, n - 1, attributes);
    if m < n - 1 {
        lemma_monitor_is_written(monitors, n - 1, attributes, m, entry);
        let i = choose|i: int| 0 <= i < earlier.len() && earlier[i] == entry;
        assert(all[i] == entry);
    } else {
        let here = monitor_entries(
            monitors[m],
            monitors[m].workspaces.len() as int,
            m as usize,
            attributes,
        );
        let i = choose|i: int| 0 <= i < here.len() && here[i] == entry;
        assert(all[earlier.len() + i] == entry);
    }
}

proof fn lemma_entry_is_built(
    wm: WindowManagerView,
    attributes: Seq<(u32, WindowAttributesView)>,
    boot_uuid: Option<Seq<char>>,
    m: usize,
    w: usize,
    entry: SessionWindowView,
)
    requires
        m < wm.monitors.len(),
        w < wm.monitors[m as int].workspaces.len(),
        workspace_entries(
            wm.monitors[m as int].workspaces[w as int],
            m,
            w,
            attributes,
        ).contains(entry),
    ensures
        built(wm, attributes, boot_uuid).windows.contains(entry),
{
    let monitor = wm.monitors[m as int];
    lemma_workspace_is_written(
        monitor,
        monitor.workspaces.len() as int,
        m,
        attributes,
        w as int,
        entry,
    );
    lemma_monitor_is_written(
        wm.monitors,
        wm.monitors.len() as int,
        attributes,
        m as int,
        entry,
    );
}

/// An id was written down no more than once.
pub open spec fn is_written_once(windows: Seq<SessionWindowView>, id: u32) -> bool {
    forall|i: int, j: int|
        0 <= i < windows.len() && 0 <= j < windows.len() && (#[trigger] windows[i]).window_id == id
            && (#[trigger] windows[j]).window_id == id ==> i == j
}

proof fn lemma_entry_is_claimed(
    session: SessionStateView,
    entry: SessionWindowView,
    title: Seq<char>,
)
    requires
        session.ids_are_current,
        session.windows.contains(entry),
        is_written_once(session.windows, entry.window_id),
    ensures
        claimed_place(session, entry.window_id, entry.exe, title) == Some(
            (entry.monitor, entry.workspace, entry.index),
        ),
{
    let i = choose|i: int| 0 <= i < session.windows.len() && session.windows[i] == entry;
    assert(session.windows[i].window_id == entry.window_id);
    law_a_written_window_is_found_again(session, i, title);
}

/// Every window in a container is written down, with its monitor, its workspace and its slot.
pub proof fn law_every_tiled_window_is_written_down(
    wm: WindowManagerView,
    attributes: Seq<(u32, WindowAttributesView)>,
    boot_uuid: Option<Seq<char>>,
    m: usize,
    w: usize,
    c: usize,
    k: int,
)
    requires
        m < wm.monitors.len(),
        w < wm.monitors[m as int].workspaces.len(),
        c < wm.monitors[m as int].workspaces[w as int].containers.len(),
        0 <= k < wm.monitors[m as int].workspaces[w as int].containers[c as int].windows.len(),
    ensures
        built(wm, attributes, boot_uuid).windows.contains(
            entry_of(
                wm.monitors[m as int].workspaces[w as int].containers[c as int].windows[k],
                m,
                w,
                c,
                attributes,
            ),
        ),
{
    let monitor = wm.monitors[m as int];
    let workspace = monitor.workspaces[w as int];
    let entry = entry_of(workspace.containers[c as int].windows[k], m, w, c, attributes);
    let n = workspace.containers.len() as int;
    lemma_container_is_written(workspace.containers, n, m, w, attributes, c as int, k);
    let tiled = container_entries(workspace.containers, n, m, w, attributes);
    let i = choose|i: int| 0 <= i < tiled.len() && tiled[i] == entry;
    assert(workspace_entries(workspace, m, w, attributes)[i] == entry);
    lemma_entry_is_built(wm, attributes, boot_uuid, m, w, entry);
}

/// Writing a session down and reading it back within the same boot gives a tiled window its
/// monitor, its workspace and its slot back, whatever its title is by then, if its id was
/// written down once.
pub proof fn law_a_restart_puts_windows_back(
    wm: WindowManagerView,
    attributes: Seq<(u32, WindowAttributesView)>,
    boot_uuid: Seq<char>,
    m: usize,
    w: usize,
    c: usize,
    k: int,
    title: Seq<char>,
)
    requires
        m < wm.monitors.len(),
        w < wm.monitors[m as int].workspaces.len(),
        c < wm.monitors[m as int].workspaces[w as int].containers.len(),
        0 <= k < wm.monitors[m as int].workspaces[w as int].containers[c as int].windows.len(),
        is_written_once(
            built(wm, attributes, Some(boot_uuid)).windows,
            wm.monitors[m as int].workspaces[w as int].containers[c as int].windows[k].id,
        ),
    ensures
        ({
            let window =
                wm.monitors[m as int].workspaces[w as int].containers[c as int].windows[k];
            claimed_place(
                built(wm, attributes, Some(boot_uuid)),
                window.id,
                or_empty(settings::attributes_of(attributes, window.id, 0).exe),
                title,
            ) == Some((m, w, c))
        }),
{
    let window = wm.monitors[m as int].workspaces[w as int].containers[c as int].windows[k];
    let session = built(wm, attributes, Some(boot_uuid));
    let entry = entry_of(window, m, w, c, attributes);
    law_every_tiled_window_is_written_down(wm, attributes, Some(boot_uuid), m, w, c, k);
    lemma_entry_is_claimed(session, entry, title);
}

/// Writing a session down and reading it back within the same boot gives a floating window its
/// monitor and its workspace back, if its id was written down once.
pub proof fn law_a_restart_puts_floating_windows_back(
    wm: WindowManagerView,
    attributes: Seq<(u32, WindowAttributesView)>,
    boot_uuid: Seq<char>,
    m: usize,
    w: usize,
    k: int,
    title: Seq<char>,
)
    requires
        m < wm.monitors.len(),
        w < wm.monitors[m as int].workspaces.len(),
        0 <= k < wm.monitors[m as int].workspaces[w as int].floating_windows.len(),
        is_written_once(
            built(wm, attributes, Some(boot_uuid)).windows,
            wm.monitors[m as int].workspaces[w as int].floating_windows[k].id,
        ),
    ensures
        ({
            let workspace = wm.monitors[m as int].workspaces[w as int];
            let window = workspace.floating_windows[k];
            claimed_place(
                built(wm, attributes, Some(boot_uuid)),
                window.id,
                or_empty(settings::attributes_of(attributes, window.id, 0).exe),
                title,
            ) == Some((m, w, 0usize))
        }),
{
    let workspace = wm.monitors[m as int].workspaces[w as int];
    let entry = entry_of(workspace.floating_windows[k], m, w, 0, attributes);
    let all = workspace_entries(workspace, m, w, attributes);
    let tiled = container_entries(
        workspace.containers,
        workspace.containers.len() as int,
        m,
        w,
        attributes,
    );
    assert(all[tiled.len() + k] == entry);
    lemma_entry_is_built(wm, attributes, Some(boot_uuid), m, w, entry);
    lemma_entry_is_claimed(built(wm, attributes, Some(boot_uuid)), entry, title);
}

/// Writing a session down and reading it back within the same boot gives a window of the
/// container that filled a workspace on its own its monitor and its workspace back, and the
/// slot that the container would have come back to, if its id was written down once.
pub proof fn law_a_restart_puts_monocle_windows_back(
    wm: WindowManagerView,
    attributes: Seq<(u32, WindowAttributesView)>,
    boot_uuid: Seq<char>,
    m: usize,
    w: usize,
    k: int,
    title: Seq<char>,
)
    requires
        m < wm.monitors.len(),
        w < wm.monitors[m as int].workspaces.len(),
        wm.monitors[m as int].workspaces[w as int].monocle_container is Some,
        0 <= k < wm.monitors[m as int].workspaces[w as int].monocle_container->0.windows.len(),
        is_written_once(
            built(wm, attributes, Some(boot_uuid)).windows,
            wm.monitors[m as int].workspaces[w as int].monocle_container->0.windows[k].id,
        ),
    ensures
        ({
            let workspace = wm.monitors[m as int].workspaces[w as int];
            let window = workspace.monocle_container->0.windows[k];
            claimed_place(
                built(wm, attributes, Some(boot_uuid)),
                window.id,
                or_empty(settings::attributes_of(attributes, window.id, 0).exe),
                title,
            ) == Some((m, w, monocle_slot(workspace)))
        }),
{
    let workspace = wm.monitors[m as int].workspaces[w as int];
    let entry = entry_of(workspace.monocle_container->0.windows[k], m, w, monocle_slot(workspace), attributes);
    let all = workspace_entries(workspace, m, w, attributes);
    let tiled = container_entries(
        workspace.containers,
        workspace.containers.len() as int,
        m,
        w,
        attributes,
    );
    assert(all[tiled.len() + workspace.floating_windows.len() + k] == entry);
    lemma_entry_is_built(wm, attributes, Some(boot_uuid), m, w, entry);
    lemma_entry_is_claimed(built(wm, attributes, Some(boot_uuid)), entry, title);
}

/// Writing a session down and reading it back within the same boot gives a maximized window
/// its monitor and its workspace back, if its id was written down once.
pub proof fn law_a_restart_puts_a_maximized_window_back(
    wm: WindowManagerView,
    attributes: Seq<(u32, WindowAttributesView)>,
    boot_uuid: Seq<char>,
    m: usize,
    w: usize,
    title: Seq<char>,
)
    requires
        m < wm.monitors.len(),
        w < wm.monitors[m as int].workspaces.len(),
        wm.monitors[m as int].workspaces[w as int].maximized_window is Some,
        is_written_once(
            built(wm, attributes, Some(boot_uuid)).windows,
            wm.monitors[m as int].workspaces[w as int].maximized_window->0.id,
        ),
    ensures
        ({
            let workspace = wm.monitors[m as int].workspaces[w as int];
            let window = workspace.maximized_window->0;
            claimed_place(
                built(wm, attributes, Some(boot_uuid)),
                window.id,
                or_empty(settings::attributes_of(attributes, window.id, 0).exe),
                title,
            ) == Some((m, w, 0usize))
        }),
{
    let workspace = wm.monitors[m as int].workspaces[w as int];
    let entry = entry_of(workspace.maximized_window->0, m, w, 0, attributes);
    let all = workspace_entries(workspace, m, w, attributes);
    let tiled = container_entries(
        workspace.containers,
        workspace.containers.len() as int,
        m,
        w,
        attributes,
    );
    assert(all[all.len() - 1] == entry);
    lemma_entry_is_built(wm, attributes, Some(boot_uuid), m, w, entry);
    lemma_entry_is_claimed(built(wm, attributes, Some(boot_uuid)), entry, title);
}

/// The first entry for an id and application is one, and none before it is.
pub proof fn lemma_first_by_id(
    windows: Seq<SessionWindowView>,
    window_id: u32,
    exe: Seq<char>,
    from: int,
)
    requires
        0 <= from,
    ensures
        match first_by_id(windows, window_id, exe, from) {
            Some(i) => {
                &&& from <= i < windows.len()
                &&& matches_id(windows[i], window_id, exe)
                &&& forall|j: int|
                    from <= j < i ==> !matches_id(#[trigger] windows[j], window_id, exe)
            },
            None => forall|j: int|
                from <= j < windows.len() ==> !matches_id(#[trigger] windows[j], window_id, exe),
        },
    decreases windows.len() - from,
{
    if from < windows.len() && !matches_id(windows[from], window_id, exe) {
        lemma_first_by_id(windows, window_id, exe, from + 1);
    }
}

/// The first entry for an application and title is one, and none before it is.
pub proof fn lemma_first_by_title(
    windows: Seq<SessionWindowView>,
    exe: Seq<char>,
    title: Seq<char>,
    from: int,
)
    requires
        0 <= from,
    ensures
        match first_by_title(windows, exe, title, from) {
            Some(i) => {
                &&& from <= i < windows.len()
                &&& matches_title(windows[i], exe, title)
                &&& forall|j: int|
                    from <= j < i ==> !matches_title(#[trigger] windows[j], exe, title)
            },
            None => forall|j: int|
                from <= j < windows.len() ==> !matches_title(#[trigger] windows[j], exe, title),
        },
    decreases windows.len() - from,
{
    if from < windows.len() && !matches_title(windows[from], exe, title) {
        lemma_first_by_title(windows, exe, title, from + 1);
    }
}

/// A claim takes exactly one entry out of the session and leaves the others as they were,
/// in their order, and a window that claims nothing changes nothing. So no two windows are
/// ever given the same entry.
pub proof fn law_an_entry_is_claimed_once(
    session: SessionStateView,
    window_id: u32,
    exe: Seq<char>,
    title: Seq<char>,
)
    ensures
        match claimed_entry(session, window_id, exe, title) {
            Some(i) => {
                let left = after_claim(session, window_id, exe, title).windows;
                &&& 0 <= i < session.windows.len()
                &&& left.len() == session.windows.len() - 1
                &&& forall|j: int| 0 <= j < i ==> #[trigger] left[j] == session.windows[j]
                &&& forall|j: int|
                    i <= j < left.len() ==> #[trigger] left[j] == session.windows[j + 1]
            },
            None => after_claim(session, window_id, exe, title) == session,
        },
{
    lemma_first_by_id(session.windows, window_id, exe, 0);
    lemma_first_by_title(session.windows, exe, title, 0);
}

/// A window is only ever given the place of a window of the same application; and once the
/// ids have gone stale, only the place of one that also had the same title, whatever its id.
pub proof fn law_claims_stay_within_the_application(
    session: SessionStateView,
    window_id: u32,
    exe: Seq<char>,
    title: Seq<char>,
)
    ensures
        claimed_entry(session, window_id, exe, title) matches Some(i) ==> {
            &&& session.windows[i].exe == exe
            &&& !session.ids_are_current ==> session.windows[i].title == title
            &&& session.windows[i].window_id == window_id || session.windows[i].title == title
        },
{
    lemma_first_by_id(session.windows, window_id, exe, 0);
    lemma_first_by_title(session.windows, exe, title, 0);
}

/// While the ids are current, a window whose id and application were written down is given
/// its own place back, whatever its title is now.
pub proof fn law_a_written_window_is_found_again(
    session: SessionStateView,
    i: int,
    title: Seq<char>,
)
    requires
        session.ids_are_current,
        0 <= i < session.windows.len(),
        forall|j: int|
            0 <= j < session.windows.len() && j != i ==> (#[trigger] session.windows[j]).window_id
                != session.windows[i].window_id,
    ensures
        claimed_place(
            session,
            session.windows[i].window_id,
            session.windows[i].exe,
            title,
        ) == Some(
            (session.windows[i].monitor, session.windows[i].workspace, session.windows[i].index),
        ),
{
    let w = session.windows[i];
    lemma_first_by_id(session.windows, w.window_id, w.exe, 0);
    assert(matches_id(session.windows[i], w.window_id, w.exe));
}

/// Once the ids have gone stale, a titled window is given the place of the entry with its
/// application and title back, whatever its id is by then, if there is only one such entry.
pub proof fn law_a_reboot_puts_titled_windows_back(
    session: SessionStateView,
    i: int,
    window_id: u32,
)
    requires
        !session.ids_are_current,
        0 <= i < session.windows.len(),
        session.windows[i].title.len() > 0,
        forall|j: int|
            0 <= j < session.windows.len() && j != i ==> !matches_title(
                #[trigger] session.windows[j],
                session.windows[i].exe,
                session.windows[i].title,
            ),
    ensures
        claimed_place(
            session,
            window_id,
            session.windows[i].exe,
            session.windows[i].title,
        ) == Some(
            (session.windows[i].monitor, session.windows[i].workspace, session.windows[i].index),
        ),
{
    let w = session.windows[i];
    lemma_first_by_title(session.windows, w.exe, w.title, 0);
    assert(matches_title(session.windows[i], w.exe, w.title));
}

/// Writing a session down and reading it back in another boot gives a tiled window with a title
/// its monitor, its workspace and its slot back, whatever its id is by then, if its application
/// and title were written down once.
pub proof fn law_a_reboot_puts_windows_back(
    wm: WindowManagerView,
    attributes: Seq<(u32, WindowAttributesView)>,
    boot_uuid: Seq<char>,
    m: usize,
    w: usize,
    c: usize,
    k: int,
    window_id: u32,
)
    requires
        m < wm.monitors.len(),
        w < wm.monitors[m as int].workspaces.len(),
        c < wm.monitors[m as int].workspaces[w as int].containers.len(),
        0 <= k < wm.monitors[m as int].workspaces[w as int].containers[c as int].windows.len(),
        ({
            let windows = built(wm, attributes, Some(boot_uuid)).windows;
            let window =
                wm.monitors[m as int].workspaces[w as int].containers[c as int].windows[k];
            let told_by = settings::attributes_of(attributes, window.id, 0);
            &&& or_empty(told_by.title).len() > 0
            &&& forall|i: int, j: int|
                0 <= i < windows.len() && 0 <= j < windows.len() && matches_title(
                    #[trigger] windows[i],
                    or_empty(told_by.exe),
                    or_empty(told_by.title),
                ) && matches_title(
                    #[trigger] windows[j],
                    or_empty(told_by.exe),
                    or_empty(told_by.title),
                ) ==> i == j
        }),
    ensures
        ({
            let session = SessionStateView {
                ids_are_current: false,
                ..built(wm, attributes, Some(boot_uuid))
            };
            let window =
                wm.monitors[m as int].workspaces[w as int].containers[c as int].windows[k];
            let told_by = settings::attributes_of(attributes, window.id, 0);
            claimed_place(session, window_id, or_empty(told_by.exe), or_empty(told_by.title))
                == Some((m, w, c))
        }),
{
    let session = SessionStateView {
        ids_are_current: false,
        ..built(wm, attributes, Some(boot_uuid))
    };
    let window = wm.monitors[m as int].workspaces[w as int].containers[c as int].windows[k];
    let entry = entry_of(window, m, w, c, attributes);
    law_every_tiled_window_is_written_down(wm, attributes, Some(boot_uuid), m, w, c, k);
    let i = choose|i: int| 0 <= i < session.windows.len() && session.windows[i] == entry;
    assert(matches_title(session.windows[i], entry.exe, entry.title));
    law_a_reboot_puts_titled_windows_back(session, i, window_id);
}


/// An entry of a session is that of a window by its id.
pub open spec fn is_by_id(entry: SessionWindowView, window_id: u32, exe: Seq<char>) -> bool {
    entry.window_id == window_id && entry.exe == exe
}

/// An entry of a session is that of a window by its title.
pub open spec fn is_by_title(entry: SessionWindowView, exe: Seq<char>, title: Seq<char>) -> bool {
    entry.exe == exe && entry.title == title
}

proof fn lemma_own_by_id(
    windows: Seq<SessionWindowView>,
    window_id: u32,
    exe: Seq<char>,
    from: int,
)
    requires
        0 <= from,
    ensures
        match first_by_id(windows, window_id, exe, from) {
            Some(i) => {
                &&& from <= i < windows.len()
                &&& is_by_id(windows[i], window_id, exe)
                &&& forall|j: int|
                    from <= j < i ==> !is_by_id(#[trigger] windows[j], window_id, exe)
            },
            None => forall|j: int|
                from <= j < windows.len() ==> !is_by_id(#[trigger] windows[j], window_id, exe),
        },
    decreases windows.len() - from,
{
    if from < windows.len() && !matches_id(windows[from], window_id, exe) {
        lemma_own_by_id(windows, window_id, exe, from + 1);
    }
}

proof fn lemma_own_by_title(
    windows: Seq<SessionWindowView>,
    exe: Seq<char>,
    title: Seq<char>,
    from: int,
)
    requires
        0 <= from,
    ensures
        match first_by_title(windows, exe, title, from) {
            Some(i) => {
                &&& from <= i < windows.len()
                &&& is_by_title(windows[i], exe, title)
                &&& forall|j: int|
                    from <= j < i ==> !is_by_title(#[trigger] windows[j], exe, title)
            },
            None => forall|j: int|
                from <= j < windows.len() ==> !is_by_title(#[trigger] windows[j], exe, title),
        },
    decreases windows.len() - from,
{
    if from < windows.len() && !matches_title(windows[from], exe, title) {
        lemma_own_by_title(windows, exe, title, from + 1);
    }
}

/// A window claims the first entry under its id and application while ids are those of the session
/// and there is one; otherwise, if it has a title, the first under its application and title. It gets
/// the place that is written there, and that entry is gone from the session, no other.
pub proof fn law_a_window_claims_its_own_entry(
    session: SessionStateView,
    window_id: u32,
    exe: Seq<char>,
    title: Seq<char>,
    i: int,
)
    requires
        0 <= i < session.windows.len(),
        ({
            let windows = session.windows;
            ||| {
                &&& session.ids_are_current
                &&& is_by_id(windows[i], window_id, exe)
                &&& forall|j: int| 0 <= j < i ==> !is_by_id(#[trigger] windows[j], window_id, exe)
            }
            ||| {
                &&& session.ids_are_current ==> forall|j: int|
                    0 <= j < windows.len() ==> !is_by_id(#[trigger] windows[j], window_id, exe)
                &&& title.len() > 0
                &&& is_by_title(windows[i], exe, title)
                &&& forall|j: int| 0 <= j < i ==> !is_by_title(#[trigger] windows[j], exe, title)
            }
        }),
    ensures
        claimed_place(session, window_id, exe, title) == Some(
            (
                session.windows[i].monitor,
                session.windows[i].workspace,
                session.windows[i].index,
            ),
        ),
        ({
            let after = after_claim(session, window_id, exe, title);
            &&& after.boot_uuid == session.boot_uuid
            &&& after.ids_are_current == session.ids_are_current
            &&& after.windows =~= session.windows.take(i) + session.windows.skip(i + 1)
        }),
{
    lemma_own_by_id(session.windows, window_id, exe, 0);
    lemma_own_by_title(session.windows, exe, title, 0);
    assert(claimed_entry(session, window_id, exe, title) == Some(i));
}

/// A window claims nothing, and leaves the session as it is, where no entry is its own.
pub proof fn law_a_window_without_an_entry_claims_nothing(
    session: SessionStateView,
    window_id: u32,
    exe: Seq<char>,
    title: Seq<char>,
)
    requires
        session.ids_are_current ==> forall|j: int|
            0 <= j < session.windows.len() ==> !is_by_id(
                #[trigger] session.windows[j],
                window_id,
                exe,
            ),
        title.len() > 0 ==> forall|j: int|
            0 <= j < session.windows.len() ==> !is_by_title(
                #[trigger] session.windows[j],
                exe,
                title,
            ),
    ensures
        claimed_place(session, window_id, exe, title) is None,
        after_claim(session, window_id, exe, title) == session,
{
    lemma_own_by_id(session.windows, window_id, exe, 0);
    lemma_own_by_title(session.windows, exe, title, 0);
}

} // verus!
