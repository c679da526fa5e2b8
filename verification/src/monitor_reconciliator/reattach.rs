//! What was on a monitor is put back when it comes back.

use crate::monitor_reconciliator::MonitorCache;
use crate::operation::Operation;
use crate::process_command::plan;
use crate::process_command::plan::CommandPlan;
use crate::process_command::plan::CommandPlanView;
use crate::rule_book::RuleBook;
use crate::rule_book::RuleBookView;
use crate::rules::MatchingRule;
use crate::rules::MatchingRuleView;
use crate::rules::WorkspaceMatchingRule;
use crate::rules::WorkspaceMatchingRuleView;
use crate::sequences;
use crate::text;
use crate::window_manager;
use crate::window_manager::CommandError;
use crate::window_manager::Container;
use crate::window_manager::ContainerView;
use crate::window_manager::Monitor;
use crate::window_manager::MonitorView;
use crate::window_manager::Window;
use crate::window_manager::WindowManager;
use crate::window_manager::WindowManagerView;
use crate::window_manager::Workspace;
use crate::window_manager::WorkspaceView;
use std::collections::HashMap;
use vstd::prelude::*;

verus! {

/// A monitor that has come back: what the display says of itself, and what was on it.
pub open spec fn returned(monitor: MonitorView, cached: MonitorView) -> MonitorView {
    MonitorView {
        id: monitor.id,
        device: monitor.device,
        serial_number_id: monitor.serial_number_id,
        size: monitor.size,
        work_area_size: monitor.work_area_size,
        ..cached
    }
}

/// A window is put back: it still exists, and has not gone to another workspace meanwhile.
pub open spec fn is_put_back(known: Map<u32, (usize, usize)>, alive: Seq<u32>) -> spec_fn(
    Window,
) -> bool {
    |window: Window| alive.contains(window.id) && !known.contains_key(window.id)
}

/// A container with the windows that are put back. On the workspace that is showing, the first
/// window is focused if the focused one has gone.
pub open spec fn pruned_container(
    container: ContainerView,
    keep: spec_fn(Window) -> bool,
    is_showing: bool,
) -> ContainerView {
    let windows = container.windows.filter(keep);
    ContainerView {
        windows,
        focused_window: if is_showing && container.focused_window >= windows.len() {
            0
        } else {
            container.focused_window
        },
        ..container
    }
}

/// A monocle container with the windows that are put back, if any are.
pub open spec fn pruned_monocle(
    monocle: Option<ContainerView>,
    keep: spec_fn(Window) -> bool,
    is_showing: bool,
) -> Option<ContainerView> {
    match monocle {
        Some(container) => {
            let pruned = pruned_container(container, keep, is_showing);
            if pruned.windows.len() == 0 {
                None
            } else {
                Some(pruned)
            }
        },
        None => None,
    }
}

/// A workspace with the windows that are put back.
pub open spec fn pruned_workspace(
    workspace: WorkspaceView,
    keep: spec_fn(Window) -> bool,
    is_showing: bool,
) -> WorkspaceView {
    WorkspaceView {
        containers: workspace.containers.map_values(
            |container: ContainerView| pruned_container(container, keep, is_showing),
        ),
        monocle_container: pruned_monocle(workspace.monocle_container, keep, is_showing),
        floating_windows: workspace.floating_windows.filter(keep),
        ..workspace
    }
}

/// A monitor with the windows that are put back.
pub open spec fn pruned_monitor(monitor: MonitorView, keep: spec_fn(Window) -> bool) -> MonitorView {
    MonitorView {
        workspaces: monitor.workspaces.map(
            |w: int, workspace: WorkspaceView|
                pruned_workspace(workspace, keep, w == monitor.focused_workspace),
        ),
        ..monitor
    }
}

/// The operations that remove those of the first `n` containers of a workspace that are empty,
/// from the last to the first: removing one leaves those before it where they are.
pub open spec fn removals(workspace: WorkspaceView, m: usize, w: usize, n: int) -> Seq<Operation>
    decreases n,
{
    if n <= 0 {
        Seq::empty()
    } else {
        let c = (n - 1) as usize;
        (if workspace.containers[n - 1].windows.len() > 0 {
            Seq::empty()
        } else if c == workspace.focused_container {
            seq![Operation::RemoveContainer(m, w, c)]
        } else {
            seq![Operation::RemoveContainerByIdx(m, w, c)]
        }) + removals(workspace, m, w, n - 1)
    }
}

/// The operations that remove the empty containers of the first `n` workspaces.
pub open spec fn all_removals(monitor: MonitorView, m: usize, n: int) -> Seq<Operation>
    decreases n,
{
    if n <= 0 {
        Seq::empty()
    } else {
        let workspace = monitor.workspaces[n - 1];
        all_removals(monitor, m, n - 1) + removals(
            workspace,
            m,
            (n - 1) as usize,
            workspace.containers.len() as int,
        )
    }
}

/// Some rules of a workspace as rules that send windows there.
pub open spec fn sending(
    rules: Seq<MatchingRuleView>,
    m: usize,
    w: usize,
    initial_only: bool,
) -> Seq<WorkspaceMatchingRuleView> {
    rules.map_values(
        |rule: MatchingRuleView|
            WorkspaceMatchingRuleView {
                monitor_index: m,
                workspace_index: w,
                matching_rule: rule,
                initial_only,
            },
    )
}

/// The rules of the first `n` workspaces of a monitor.
pub open spec fn all_rules(monitor: MonitorView, m: usize, n: int) -> Seq<WorkspaceMatchingRuleView>
    decreases n,
{
    if n <= 0 {
        Seq::empty()
    } else {
        let workspace = monitor.workspaces[n - 1];
        let w = (n - 1) as usize;
        all_rules(monitor, m, n - 1) + sending(workspace.workspace_rules, m, w, false) + sending(
            workspace.initial_workspace_rules,
            m,
            w,
            true,
        )
    }
}

/// The operations for a monitor that has come back.
pub open spec fn return_operations(monitor: MonitorView, m: usize, mouse_follows_focus: bool) -> Seq<
    Operation,
> {
    all_removals(monitor, m, monitor.workspaces.len() as int) + seq![
        Operation::LoadFocusedWorkspace(m, mouse_follows_focus),
        Operation::UpdateMonitorFocusedWorkspace(m),
    ]
}

/// The state once a monitor has got back what was on it.
pub open spec fn reattached(
    wm: WindowManagerView,
    cached: MonitorView,
    m: usize,
    alive: Seq<u32>,
) -> WindowManagerView {
    let back = pruned_monitor(
        returned(wm.monitors[m as int], cached),
        is_put_back(wm.known_window_ids, alive),
    );
    WindowManagerView {
        monitors: wm.monitors.update(m as int, back),
        rules: RuleBookView {
            workspace_matching_rules: wm.rules.workspace_matching_rules + all_rules(
                back,
                m,
                back.workspaces.len() as int,
            ),
            ..wm.rules
        },
        ..wm
    }
}

/// How far putting back what was on monitors has come: the serial numbers of the monitors that
/// were left, how many there were at first, where the focus goes back to if monitors were
/// added, the next monitor to look at, and the one that was put back last.
#[derive(Debug)]
pub struct Attachment {
    pub left: Vec<String>,
    pub initial_count: usize,
    pub focus: Option<(usize, usize)>,
    pub next: usize,
    pub loaded: Option<String>,
}

/// The value of an [`Attachment`].
#[verifier::ext_equal]
pub struct AttachmentView {
    pub left: Seq<Seq<char>>,
    pub initial_count: usize,
    pub focus: Option<(usize, usize)>,
    pub next: usize,
    pub loaded: Option<Seq<char>>,
}

impl DeepView for Attachment {
    type V = AttachmentView;

    open spec fn deep_view(&self) -> AttachmentView {
        AttachmentView {
            left: self.left.deep_view(),
            initial_count: self.initial_count,
            focus: self.focus,
            next: self.next,
            loaded: self.loaded.deep_view(),
        }
    }
}

/// How putting back what was on monitors starts: where monitors were added, it is noted where
/// the focus is, which then has to be somewhere.
pub open spec fn attaching_started(
    wm: WindowManagerView,
    left: Seq<Seq<char>>,
    initial_count: usize,
) -> Result<AttachmentView, CommandError> {
    let nothing_yet = AttachmentView { left, initial_count, focus: None, next: 0, loaded: None };
    if wm.monitors.len() > left.len() {
        match wm.focused() {
            Some(monitor) => Ok(
                AttachmentView {
                    focus: Some((wm.focused_monitor, monitor.focused_workspace)),
                    ..nothing_yet
                },
            ),
            None => Err(CommandError::NoMonitor),
        }
    } else {
        Ok(nothing_yet)
    }
}

/// The first monitor from `from` on that was not among those that were left and that is in the
/// cache.
pub open spec fn first_returning(
    monitors: Seq<MonitorView>,
    cache: Map<Seq<char>, MonitorView>,
    left: Seq<Seq<char>>,
    from: int,
) -> Option<int>
    decreases monitors.len() - from,
{
    if from < 0 || from >= monitors.len() {
        None
    } else if !left.contains(monitors[from].serial_number_id) && cache.contains_key(
        monitors[from].serial_number_id,
    ) {
        Some(from)
    } else {
        first_returning(monitors, cache, left, from + 1)
    }
}

/// The cache once a monitor has been put back: what is in it is only used once, but for a
/// monitor without a serial number.
pub open spec fn cache_left(
    cache: Map<Seq<char>, MonitorView>,
    loaded: Option<Seq<char>>,
) -> Map<Seq<char>, MonitorView> {
    match loaded {
        Some(serial) => if serial.len() == 0 {
            cache
        } else {
            cache.remove(serial)
        },
        None => cache,
    }
}

/// Every one of `n` monitors loads the workspace that it is showing, so that what is on others
/// is out of sight.
pub open spec fn load_all(n: nat, mouse_follows_focus: bool) -> Seq<Operation> {
    Seq::new(n, |i: int| Operation::LoadFocusedWorkspace(i as usize, mouse_follows_focus))
}

/// What follows once every monitor is in place: everything is laid out again where monitors
/// were added, and the windows that came back onto the screen by themselves are hidden again.
pub open spec fn ending(
    wm: WindowManagerView,
    initial_count: nat,
    left_count: nat,
) -> Seq<Operation> {
    let count = wm.monitors.len();
    (if left_count != count {
        seq![Operation::RetileAll(true)]
    } else {
        Seq::empty()
    }) + (if initial_count != count {
        load_all(count, wm.mouse_follows_focus)
    } else {
        Seq::empty()
    }) + seq![Operation::NotifySubscribers, Operation::UpdateBorders]
}

/// The operations that bring the focus back to where it was.
pub open spec fn refocus(focus: Option<(usize, usize)>) -> Seq<Operation> {
    match focus {
        Some((m, w)) => seq![Operation::FocusMonitor(m), Operation::FocusWorkspace(w)],
        None => Seq::empty(),
    }
}

/// What one step of putting back what was on monitors comes to: the state, the cache, how far it
/// has come, and the plan.
#[verifier::ext_equal]
pub struct AttachStepView {
    pub wm: WindowManagerView,
    pub cache: Map<Seq<char>, MonitorView>,
    pub attachment: AttachmentView,
    pub plan: CommandPlanView,
    pub done: bool,
}

/// What one step comes to. The monitor that was put back in the step before has been loaded, so
/// its entry in the cache is used up. The next monitor that has come back gets what was on it,
/// and is to be loaded before any other is looked at; where there is none, the focus goes back
/// to where it was and everything is brought up to date.
pub open spec fn attach_step(
    wm: WindowManagerView,
    cache: Map<Seq<char>, MonitorView>,
    attachment: AttachmentView,
    alive: Seq<u32>,
) -> AttachStepView {
    let rest = cache_left(cache, attachment.loaded);
    let next = if attachment.focus is Some {
        first_returning(wm.monitors, rest, attachment.left, attachment.next as int)
    } else {
        None
    };
    match next {
        Some(m) => {
            let serial = wm.monitors[m].serial_number_id;
            let after = reattached(wm, rest[serial], m as usize, alive);
            AttachStepView {
                wm: after,
                cache: rest,
                attachment: AttachmentView {
                    next: (m + 1) as usize,
                    loaded: Some(serial),
                    ..attachment
                },
                plan: plan::plan_of(
                    return_operations(after.monitors[m], m as usize, wm.mouse_follows_focus),
                ),
                done: false,
            }
        },
        None => AttachStepView {
            wm,
            cache: rest,
            attachment: AttachmentView { loaded: None, ..attachment },
            plan: plan::plan_of(
                refocus(attachment.focus) + ending(
                    wm,
                    attachment.initial_count as nat,
                    attachment.left.len(),
                ),
            ),
            done: true,
        },
    }
}

fn retain_windows(
    windows: &mut Vec<Window>,
    known: &HashMap<u32, (usize, usize)>,
    alive: &Vec<u32>,
)
    ensures
        final(windows)@ == old(windows)@.filter(is_put_back(known@, alive@)),
{
    broadcast use vstd::std_specs::hash::group_hash_axioms;

    let ghost all = windows@;
    let ghost keep = is_put_back(known@, alive@);
    let ghost mut seen: int = 0;
    let mut i: usize = 0;
    proof {
        reveal(Seq::filter);
        assert(all.take(0).filter(keep) + all.skip(0) =~= all);
    }
    while i < windows.len()
        invariant
            0 <= seen <= all.len(),
            i == all.take(seen).filter(keep).len(),
            keep == is_put_back(known@, alive@),
            windows@ == all.take(seen).filter(keep) + all.skip(seen),
        decreases all.len() - seen,
    {
        let ghost kept = all.take(seen).filter(keep);
        let ghost current = windows@;
        assert(current[i as int] == all[seen]);
        proof {
            sequences::lemma_filter_step(all, keep, seen);
        }
        let id: u32 = windows[i].id;
        if window_manager::lists_id(alive, id) && !known.contains_key(&id) {
            i += 1;
            assert(kept.push(all[seen]) + all.skip(seen + 1) =~= kept + all.skip(seen));
        } else {
            let _ = windows.remove(i);
            assert(windows@ =~= current.remove(i as int));
            assert(current.remove(i as int) =~= kept + all.skip(seen + 1));
        }
        proof {
            seen = seen + 1;
        }
    }
    proof {
        assert(seen == all.len());
        assert(all.take(seen) =~= all);
        assert(windows@ =~= all.filter(keep));
    }
}

fn prune_container(
    container: &mut Container,
    known: &HashMap<u32, (usize, usize)>,
    alive: &Vec<u32>,
    is_showing: bool,
)
    ensures
        final(container).deep_view() == pruned_container(
            old(container).deep_view(),
            is_put_back(known@, alive@),
            is_showing,
        ),
{
    retain_windows(&mut container.windows, known, alive);
    if is_showing && container.focused_window >= container.windows.len() {
        container.focused_window = 0;
    }
}

fn prune_containers(
    containers: &mut Vec<Container>,
    known: &HashMap<u32, (usize, usize)>,
    alive: &Vec<u32>,
    is_showing: bool,
)
    ensures
        final(containers).deep_view() == old(containers).deep_view().map_values(
            |container: ContainerView|
                pruned_container(container, is_put_back(known@, alive@), is_showing),
        ),
{
    let ghost before = containers.deep_view();
    let ghost all = before.map_values(
        |container: ContainerView|
            pruned_container(container, is_put_back(known@, alive@), is_showing),
    );
    let mut c: usize = 0;
    while c < containers.len()
        invariant
            c <= containers.len(),
            containers.len() == before.len(),
            all.len() == before.len(),
            forall|k: int|
                0 <= k < all.len() ==> #[trigger] all[k] == pruned_container(
                    before[k],
                    is_put_back(known@, alive@),
                    is_showing,
                ),
            containers.deep_view() =~= all.take(c as int) + before.skip(c as int),
        decreases containers.len() - c,
    {
        let ghost now = containers.deep_view();
        assert(now[c as int] == before[c as int]);
        assert(containers[c as int].deep_view() == before[c as int]);
        prune_container(&mut containers[c], known, alive, is_showing);
        assert(containers.deep_view() =~= now.update(c as int, all[c as int]));
        c += 1;
    }
    assert(containers.deep_view() =~= all);
}

fn prune_workspace(
    workspace: &mut Workspace,
    known: &HashMap<u32, (usize, usize)>,
    alive: &Vec<u32>,
    is_showing: bool,
)
    ensures
        final(workspace).deep_view() == pruned_workspace(
            old(workspace).deep_view(),
            is_put_back(known@, alive@),
            is_showing,
        ),
{
    prune_containers(&mut workspace.containers, known, alive, is_showing);
    let mut vacated: bool = false;
    if let Some(monocle) = &mut workspace.monocle_container {
        prune_container(monocle, known, alive, is_showing);
        vacated = monocle.windows.len() == 0;
    }
    if vacated {
        workspace.monocle_container = None;
    }
    retain_windows(&mut workspace.floating_windows, known, alive);
}

fn prune_monitor(monitor: &mut Monitor, known: &HashMap<u32, (usize, usize)>, alive: &Vec<u32>)
    ensures
        final(monitor).deep_view() == pruned_monitor(
            old(monitor).deep_view(),
            is_put_back(known@, alive@),
        ),
{
    let ghost before = monitor.deep_view();
    let ghost all = pruned_monitor(before, is_put_back(known@, alive@)).workspaces;
    let mut w: usize = 0;
    while w < monitor.workspaces.len()
        invariant
            w <= monitor.workspaces.len(),
            monitor.workspaces.len() == before.workspaces.len(),
            all.len() == before.workspaces.len(),
            forall|k: int|
                0 <= k < all.len() ==> #[trigger] all[k] == pruned_workspace(
                    before.workspaces[k],
                    is_put_back(known@, alive@),
                    k == before.focused_workspace,
                ),
            monitor.deep_view() == (MonitorView {
                workspaces: monitor.deep_view().workspaces,
                ..before
            }),
            monitor.deep_view().workspaces =~= all.take(w as int) + before.workspaces.skip(
                w as int,
            ),
        decreases monitor.workspaces.len() - w,
    {
        let ghost now = monitor.deep_view();
        assert(now.workspaces[w as int] == before.workspaces[w as int]);
        assert(monitor.workspaces[w as int].deep_view() == before.workspaces[w as int]);
        let is_showing: bool = w == monitor.focused_workspace;
        prune_workspace(monitor.workspace_mut(w), known, alive, is_showing);
        assert(monitor.deep_view().workspaces =~= now.workspaces.update(w as int, all[w as int]));
        w += 1;
    }
    assert(monitor.deep_view().workspaces =~= all);
}

fn push_removals(operations: &mut Vec<Operation>, workspace: &Workspace, m: usize, w: usize)
    ensures
        final(operations)@ == old(operations)@ + removals(
            workspace.deep_view(),
            m,
            w,
            workspace.containers.len() as int,
        ),
{
    let ghost before = operations@;
    let ghost all = removals(workspace.deep_view(), m, w, workspace.containers.len() as int);
    let mut c: usize = workspace.containers.len();
    assert(operations@ + all =~= before + all);
    while c > 0
        invariant
            c <= workspace.containers.len(),
            operations@ + removals(workspace.deep_view(), m, w, c as int) =~= before + all,
        decreases c,
    {
        let ghost so_far = operations@;
        let ghost rest = removals(workspace.deep_view(), m, w, c - 1);
        c -= 1;
        assert(workspace.deep_view().containers[c as int]
            == workspace.containers[c as int].deep_view());
        if workspace.containers[c].windows.len() == 0 {
            if c == workspace.focused_container {
                operations.push(Operation::RemoveContainer(m, w, c));
            } else {
                operations.push(Operation::RemoveContainerByIdx(m, w, c));
            }
        }
        assert(operations@ + rest =~= so_far + removals(workspace.deep_view(), m, w, c + 1));
    }
    assert(operations@ =~= before + all);
}

fn push_return(
    operations: &mut Vec<Operation>,
    monitor: &Monitor,
    m: usize,
    mouse_follows_focus: bool,
)
    ensures
        final(operations)@ == old(operations)@ + return_operations(
            monitor.deep_view(),
            m,
            mouse_follows_focus,
        ),
{
    let ghost before = operations@;
    let mut w: usize = 0;
    while w < monitor.workspaces.len()
        invariant
            w <= monitor.workspaces.len(),
            operations@ =~= before + all_removals(monitor.deep_view(), m, w as int),
        decreases monitor.workspaces.len() - w,
    {
        assert(monitor.deep_view().workspaces[w as int] == monitor.workspaces[w as int].deep_view());
        push_removals(operations, &monitor.workspaces[w], m, w);
        w += 1;
    }
    operations.push(Operation::LoadFocusedWorkspace(m, mouse_follows_focus));
    operations.push(Operation::UpdateMonitorFocusedWorkspace(m));
    assert(operations@ =~= before + return_operations(
        monitor.deep_view(),
        m,
        mouse_follows_focus,
    ));
}

fn push_sending(
    book: &mut RuleBook,
    rules: &Vec<MatchingRule>,
    m: usize,
    w: usize,
    initial_only: bool,
)
    ensures
        final(book).deep_view() == (RuleBookView {
            workspace_matching_rules: old(book).deep_view().workspace_matching_rules + sending(
                rules.deep_view(),
                m,
                w,
                initial_only,
            ),
            ..old(book).deep_view()
        }),
{
    let ghost before = book.deep_view();
    let ghost all = sending(rules.deep_view(), m, w, initial_only);
    assert(before.workspace_matching_rules + all.take(0) =~= before.workspace_matching_rules);
    let mut i: usize = 0;
    while i < rules.len()
        invariant
            i <= rules.len(),
            all == sending(rules.deep_view(), m, w, initial_only),
            book.deep_view() == (RuleBookView {
                workspace_matching_rules: before.workspace_matching_rules + all.take(i as int),
                ..before
            }),
        decreases rules.len() - i,
    {
        assert(rules.deep_view()[i as int] == rules[i as int].deep_view());
        book.push_workspace_rule(
            WorkspaceMatchingRule {
                monitor_index: m,
                workspace_index: w,
                matching_rule: rules[i].clone(),
                initial_only,
            },
        );
        assert((before.workspace_matching_rules + all.take(i as int)).push(all[i as int])
            =~= before.workspace_matching_rules + all.take(i + 1));
        i += 1;
    }
    assert(all.take(i as int) =~= all);
}

fn push_all_rules(book: &mut RuleBook, monitor: &Monitor, m: usize)
    ensures
        final(book).deep_view() == (RuleBookView {
            workspace_matching_rules: old(book).deep_view().workspace_matching_rules + all_rules(
                monitor.deep_view(),
                m,
                monitor.workspaces.len() as int,
            ),
            ..old(book).deep_view()
        }),
{
    let ghost before = book.deep_view();
    assert(before.workspace_matching_rules + all_rules(monitor.deep_view(), m, 0)
        =~= before.workspace_matching_rules);
    let mut w: usize = 0;
    while w < monitor.workspaces.len()
        invariant
            w <= monitor.workspaces.len(),
            book.deep_view() == (RuleBookView {
                workspace_matching_rules: before.workspace_matching_rules + all_rules(
                    monitor.deep_view(),
                    m,
                    w as int,
                ),
                ..before
            }),
        decreases monitor.workspaces.len() - w,
    {
        let workspace = &monitor.workspaces[w];
        assert(monitor.deep_view().workspaces[w as int] == workspace.deep_view());
        push_sending(book, &workspace.workspace_rules, m, w, false);
        push_sending(book, &workspace.initial_workspace_rules, m, w, true);
        w += 1;
        assert(book.deep_view().workspace_matching_rules =~= before.workspace_matching_rules
            + all_rules(monitor.deep_view(), m, w as int));
    }
}

fn put_back(monitor: &Monitor, cached: &Monitor) -> (back: Monitor)
    ensures
        back.deep_view() == returned(monitor.deep_view(), cached.deep_view()),
{
    let mut back = cached.clone();
    back.id = monitor.id;
    back.device = monitor.device.clone();
    back.serial_number_id = monitor.serial_number_id.clone();
    back.size = monitor.size;
    back.work_area_size = monitor.work_area_size;
    back
}

impl WindowManager {
    fn reattach_monitor(
        &mut self,
        cached: &Monitor,
        m: usize,
        alive: &Vec<u32>,
    ) -> (operations: Vec<Operation>)
        requires
            m < old(self).monitors.len(),
        ensures
            final(self).deep_view() == reattached(
                old(self).deep_view(),
                cached.deep_view(),
                m,
                alive@,
            ),
            operations@ == return_operations(
                final(self).deep_view().monitors[m as int],
                m,
                old(self).deep_view().mouse_follows_focus,
            ),
    {
        let ghost before = self.deep_view();
        assert(before.monitors[m as int] == self.monitors[m as int].deep_view());
        let mut back: Monitor = put_back(&self.monitors[m], cached);
        prune_monitor(&mut back, &self.known_window_ids, alive);
        let ghost whole = back.deep_view();
        push_all_rules(&mut self.rules, &back, m);
        let mut operations: Vec<Operation> = Vec::new();
        push_return(&mut operations, &back, m, self.mouse_follows_focus);
        self.monitors.set(m, back);
        assert(self.deep_view().monitors =~= before.monitors.update(m as int, whole));
        assert(operations@ =~= return_operations(whole, m, before.mouse_follows_focus));
        operations
    }

    fn find_returning(&self, cache: &MonitorCache, left: &Vec<String>, from: usize) -> (next:
        Option<usize>)
        ensures
            match next {
                Some(m) => m < self.monitors.len() && first_returning(
                    self.deep_view().monitors,
                    cache@,
                    left.deep_view(),
                    from as int,
                ) == Some(m as int) && cache@.contains_key(
                    self.deep_view().monitors[m as int].serial_number_id,
                ),
                None => first_returning(
                    self.deep_view().monitors,
                    cache@,
                    left.deep_view(),
                    from as int,
                ) is None,
            },
    {
        let mut m: usize = from;
        while m < self.monitors.len()
            invariant
                first_returning(
                    self.deep_view().monitors,
                    cache@,
                    left.deep_view(),
                    from as int,
                ) == first_returning(
                    self.deep_view().monitors,
                    cache@,
                    left.deep_view(),
                    m as int,
                ),
            decreases self.monitors.len() - m,
        {
            assert(self.deep_view().monitors[m as int] == self.monitors[m as int].deep_view());
            let serial: &str = self.monitors[m].serial_number_id.as_str();
            if !text::list_contains(left, serial) && cache.monitors.contains_key(serial) {
                return Some(m);
            }
            m += 1;
        }
        None
    }

    fn push_ending(&self, operations: &mut Vec<Operation>, initial_count: usize, left_count: usize)
        ensures
            final(operations)@ == old(operations)@ + ending(
                self.deep_view(),
                initial_count as nat,
                left_count as nat,
            ),
    {
        let ghost before = operations@;
        let count: usize = self.monitors.len();
        if left_count != count {
            operations.push(Operation::RetileAll(true));
        }
        let ghost retiled = operations@;
        if initial_count != count {
            let mut i: usize = 0;
            while i < count
                invariant
                    i <= count,
                    operations@ =~= retiled + load_all(i as nat, self.mouse_follows_focus),
                decreases count - i,
            {
                operations.push(Operation::LoadFocusedWorkspace(i, self.mouse_follows_focus));
                i += 1;
            }
        }
        operations.push(Operation::NotifySubscribers);
        operations.push(Operation::UpdateBorders);
        assert(operations@ =~= before + ending(
            self.deep_view(),
            initial_count as nat,
            left_count as nat,
        ));
    }

    /// Starts to put back what was on the monitors that have come back, given the serial numbers
    /// of those that were left and how many there were at first.
    pub fn start_attaching(&self, left: Vec<String>, initial_count: usize) -> (started: Result<
        Attachment,
        CommandError,
    >)
        ensures
            match started {
                Ok(attachment) => attaching_started(
                    self.deep_view(),
                    left.deep_view(),
                    initial_count,
                ) == Ok::<AttachmentView, CommandError>(attachment.deep_view()),
                Err(error) => attaching_started(self.deep_view(), left.deep_view(), initial_count)
                    == Err::<AttachmentView, CommandError>(error),
            },
    {
        let mut focus: Option<(usize, usize)> = None;
        if self.monitors.len() > left.len() {
            match self.focused() {
                Some(monitor) => {
                    focus = Some((self.focused_monitor, monitor.focused_workspace));
                },
                None => {
                    return Err(CommandError::NoMonitor);
                },
            }
        }
        Ok(Attachment { left, initial_count, focus, next: 0, loaded: None })
    }

    /// Puts back what was on one more monitor that has come back, given the windows that still
    /// exist, and says whether that was all. This is called again once the plan has been carried
    /// out, unless it fails: what was in the cache for that monitor, and all later monitors, are
    /// then as they were.
    pub fn attach_monitors(
        &mut self,
        cache: &mut MonitorCache,
        attachment: &mut Attachment,
        alive: &Vec<u32>,
    ) -> (step: (CommandPlan, bool))
        ensures
            (AttachStepView {
                wm: final(self).deep_view(),
                cache: final(cache)@,
                attachment: final(attachment).deep_view(),
                plan: step.0.deep_view(),
                done: step.1,
            }) == attach_step(
                old(self).deep_view(),
                old(cache)@,
                old(attachment).deep_view(),
                alive@,
            ),
    {
        let ghost before = self.deep_view();
        if let Some(serial) = &attachment.loaded {
            if !serial.as_str().is_empty() {
                cache.drop_entry(serial.as_str());
            }
        }
        attachment.loaded = None;
        let next: Option<usize> = if attachment.focus.is_some() {
            self.find_returning(&*cache, &attachment.left, attachment.next)
        } else {
            None
        };
        if let Some(m) = next {
            assert(before.monitors[m as int] == self.monitors[m as int].deep_view());
            let serial: String = self.monitors[m].serial_number_id.clone();
            if let Some(cached) = cache.monitors.get(serial.as_str()) {
                let operations = self.reattach_monitor(cached, m, alive);
                attachment.next = m + 1;
                attachment.loaded = Some(serial);
                return (CommandPlan::of(operations), false);
            }
        }
        let mut operations: Vec<Operation> = Vec::new();
        if let Some((m, w)) = attachment.focus {
            operations.push(Operation::FocusMonitor(m));
            operations.push(Operation::FocusWorkspace(w));
        }
        assert(operations@ =~= refocus(attachment.focus));
        self.push_ending(&mut operations, attachment.initial_count, attachment.left.len());
        (CommandPlan::of(operations), true)
    }
}

proof fn lemma_first_returning(
    monitors: Seq<MonitorView>,
    cache: Map<Seq<char>, MonitorView>,
    left: Seq<Seq<char>>,
    from: int,
)
    requires
        0 <= from,
    ensures
        first_returning(monitors, cache, left, from) matches Some(m) ==> {
            &&& from <= m < monitors.len()
            &&& !left.contains(monitors[m].serial_number_id)
            &&& cache.contains_key(monitors[m].serial_number_id)
        },
    decreases monitors.len() - from,
{
    if from < monitors.len() {
        lemma_first_returning(monitors, cache, left, from + 1);
    }
}

/// Monitors are put back one at a time, and none is looked at twice. As long as one has not been
/// loaded, its entry stays in the cache and all other monitors are as they were; and the entry
/// is gone once the next step is taken.
pub proof fn law_a_failed_load_leaves_the_rest_alone(
    wm: WindowManagerView,
    cache: Map<Seq<char>, MonitorView>,
    attachment: AttachmentView,
    alive: Seq<u32>,
)
    requires
        wm.monitors.len() < usize::MAX,
    ensures
        ({
            let step = attach_step(wm, cache, attachment, alive);
            let m = step.attachment.next - 1;
            &&& step.done ==> step.wm == wm
            &&& !step.done ==> {
                let serial = wm.monitors[m].serial_number_id;
                &&& attachment.next <= m < wm.monitors.len()
                &&& step.cache.contains_key(serial)
                &&& step.wm.monitors.len() == wm.monitors.len()
                &&& forall|k: int|
                    0 <= k < wm.monitors.len() && k != m ==> #[trigger] step.wm.monitors[k]
                        == wm.monitors[k]
                &&& serial.len() > 0 ==> !attach_step(
                    step.wm,
                    step.cache,
                    step.attachment,
                    alive,
                ).cache.contains_key(serial)
            }
        }),
{
    lemma_first_returning(
        wm.monitors,
        cache_left(cache, attachment.loaded),
        attachment.left,
        attachment.next as int,
    );
}

/// The containers of a workspace once some of them have been removed, one after the other.
pub open spec fn after_removals(
    containers: Seq<ContainerView>,
    operations: Seq<Operation>,
) -> Seq<ContainerView>
    decreases operations.len(),
{
    if operations.len() == 0 {
        containers
    } else {
        after_removals(
            match operations[0] {
                Operation::RemoveContainer(_, _, c) => containers.remove(c as int),
                Operation::RemoveContainerByIdx(_, _, c) => containers.remove(c as int),
                _ => containers,
            },
            operations.skip(1),
        )
    }
}

/// A container that holds a window.
pub open spec fn is_filled() -> spec_fn(ContainerView) -> bool {
    |container: ContainerView| container.windows.len() > 0
}

proof fn lemma_after_removals(
    workspace: WorkspaceView,
    m: usize,
    w: usize,
    n: int,
    rest: Seq<ContainerView>,
)
    requires
        0 <= n <= workspace.containers.len() <= usize::MAX,
    ensures
        after_removals(workspace.containers.take(n) + rest, removals(workspace, m, w, n))
            == workspace.containers.take(n).filter(is_filled()) + rest,
    decreases n,
{
    let containers = workspace.containers;
    reveal(Seq::filter);
    if n == 0 {
        assert(containers.take(0).filter(is_filled()) =~= Seq::<ContainerView>::empty());
        assert(containers.take(0) + rest =~= rest);
        assert(Seq::<ContainerView>::empty() + rest =~= rest);
    } else {
        let all = removals(workspace, m, w, n);
        let fewer = removals(workspace, m, w, n - 1);
        sequences::lemma_filter_step(containers, is_filled(), n - 1);
        if containers[n - 1].windows.len() > 0 {
            let more = seq![containers[n - 1]] + rest;
            assert(all =~= fewer);
            assert(containers.take(n) + rest =~= containers.take(n - 1) + more);
            lemma_after_removals(workspace, m, w, n - 1, more);
            assert(containers.take(n - 1).filter(is_filled()) + more =~= containers.take(
                n - 1,
            ).filter(is_filled()).push(containers[n - 1]) + rest);
        } else {
            assert(all.skip(1) =~= fewer);
            assert((containers.take(n) + rest).remove(n - 1) =~= containers.take(n - 1) + rest);
            lemma_after_removals(workspace, m, w, n - 1, rest);
        }
    }
}

/// Removing the empty containers, in the order in which they are removed, leaves exactly those
/// that hold a window.
pub proof fn law_only_empty_containers_are_removed(workspace: WorkspaceView, m: usize, w: usize)
    requires
        workspace.containers.len() <= usize::MAX,
    ensures
        after_removals(
            workspace.containers,
            removals(workspace, m, w, workspace.containers.len() as int),
        ) == workspace.containers.filter(is_filled()),
{
    let n = workspace.containers.len() as int;
    lemma_after_removals(workspace, m, w, n, Seq::empty());
    assert(workspace.containers.take(n) =~= workspace.containers);
    assert(workspace.containers + Seq::<ContainerView>::empty() =~= workspace.containers);
    assert(workspace.containers.filter(is_filled()) + Seq::<ContainerView>::empty()
        =~= workspace.containers.filter(is_filled()));
}

/// All windows of a container are put back, and its focus is on one of them.
pub open spec fn is_intact(container: ContainerView, keep: spec_fn(Window) -> bool) -> bool {
    &&& container.windows.len() > 0
    &&& container.focused_window < container.windows.len()
    &&& forall|i: int| 0 <= i < container.windows.len() ==> keep(#[trigger] container.windows[i])
}

/// All windows of a workspace are put back.
pub open spec fn is_intact_workspace(
    workspace: WorkspaceView,
    keep: spec_fn(Window) -> bool,
) -> bool {
    &&& forall|c: int|
        0 <= c < workspace.containers.len() ==> is_intact(#[trigger] workspace.containers[c], keep)
    &&& workspace.monocle_container matches Some(monocle) ==> is_intact(monocle, keep)
    &&& forall|i: int|
        0 <= i < workspace.floating_windows.len() ==> keep(
            #[trigger] workspace.floating_windows[i],
        )
}

proof fn lemma_nothing_pruned(
    workspace: WorkspaceView,
    keep: spec_fn(Window) -> bool,
    is_showing: bool,
)
    requires
        is_intact_workspace(workspace, keep),
    ensures
        pruned_workspace(workspace, keep, is_showing) == workspace,
{
    let pruned = pruned_workspace(workspace, keep, is_showing);
    assert forall|c: int| 0 <= c < workspace.containers.len() implies pruned.containers[c]
        == workspace.containers[c] by {
        assert(is_intact(workspace.containers[c], keep));
        sequences::lemma_filter_all(workspace.containers[c].windows, keep);
    }
    assert(pruned.containers =~= workspace.containers);
    if let Some(monocle) = workspace.monocle_container {
        sequences::lemma_filter_all(monocle.windows, keep);
    }
    sequences::lemma_filter_all(workspace.floating_windows, keep);
}

/// A monitor that comes back while all its windows still exist and none of them has gone
/// anywhere else shows what it showed before: every workspace is as it was, and nothing has to
/// be removed.
pub proof fn law_a_monitor_comes_back_as_it_was(
    display: MonitorView,
    cached: MonitorView,
    keep: spec_fn(Window) -> bool,
    m: usize,
)
    requires
        forall|w: int|
            0 <= w < cached.workspaces.len() ==> is_intact_workspace(
                #[trigger] cached.workspaces[w],
                keep,
            ),
    ensures
        ({
            let back = pruned_monitor(returned(display, cached), keep);
            &&& back == returned(display, cached)
            &&& all_removals(back, m, back.workspaces.len() as int).len() == 0
        }),
{
    let whole = returned(display, cached);
    let back = pruned_monitor(whole, keep);
    assert forall|w: int| 0 <= w < whole.workspaces.len() implies back.workspaces[w]
        == whole.workspaces[w] by {
        assert(is_intact_workspace(cached.workspaces[w], keep));
        lemma_nothing_pruned(whole.workspaces[w], keep, w == whole.focused_workspace);
    }
    assert(back.workspaces =~= whole.workspaces);
    lemma_nothing_removed(back, keep, m, back.workspaces.len() as int);
}

proof fn lemma_no_removals(
    workspace: WorkspaceView,
    keep: spec_fn(Window) -> bool,
    m: usize,
    w: usize,
    n: int,
)
    requires
        is_intact_workspace(workspace, keep),
        n <= workspace.containers.len(),
    ensures
        removals(workspace, m, w, n).len() == 0,
    decreases n,
{
    if n > 0 {
        assert(is_intact(workspace.containers[n - 1], keep));
        lemma_no_removals(workspace, keep, m, w, n - 1);
    }
}

proof fn lemma_nothing_removed(
    monitor: MonitorView,
    keep: spec_fn(Window) -> bool,
    m: usize,
    n: int,
)
    requires
        n <= monitor.workspaces.len(),
        forall|w: int|
            0 <= w < monitor.workspaces.len() ==> is_intact_workspace(
                #[trigger] monitor.workspaces[w],
                keep,
            ),
    ensures
        all_removals(monitor, m, n).len() == 0,
    decreases n,
{
    if n > 0 {
        let workspace = monitor.workspaces[n - 1];
        lemma_nothing_removed(monitor, keep, m, n - 1);
        lemma_no_removals(
            workspace,
            keep,
            m,
            (n - 1) as usize,
            workspace.containers.len() as int,
        );
    }
}

/// A window that is known to be on another workspace, or that no longer exists, is not put
/// back.
pub proof fn law_nothing_is_put_back_twice(
    workspace: WorkspaceView,
    known: Map<u32, (usize, usize)>,
    alive: Seq<u32>,
    is_showing: bool,
    id: u32,
)
    requires
        known.contains_key(id) || !alive.contains(id),
        workspace.maximized_window is None,
    ensures
        !pruned_workspace(workspace, is_put_back(known, alive), is_showing).shows(id),
{
    let keep = is_put_back(known, alive);
    let after = pruned_workspace(workspace, keep, is_showing);
    if after.shows(id) {
        if window_manager::has_id(after.floating_windows, id) {
            lemma_not_kept(workspace.floating_windows, known, alive, id);
        } else if exists|c: int|
            0 <= c < after.containers.len() && window_manager::has_id(
                (#[trigger] after.containers[c]).windows,
                id,
            ) {
            let c = choose|c: int|
                0 <= c < after.containers.len() && window_manager::has_id(
                    (#[trigger] after.containers[c]).windows,
                    id,
                );
            lemma_not_kept(workspace.containers[c].windows, known, alive, id);
        } else {
            lemma_not_kept(workspace.monocle_container->0.windows, known, alive, id);
        }
    }
}

proof fn lemma_not_kept(
    windows: Seq<Window>,
    known: Map<u32, (usize, usize)>,
    alive: Seq<u32>,
    id: u32,
)
    requires
        known.contains_key(id) || !alive.contains(id),
    ensures
        !window_manager::has_id(windows.filter(is_put_back(known, alive)), id),
{
    let kept = windows.filter(is_put_back(known, alive));
    if window_manager::has_id(kept, id) {
        let i = choose|i: int| 0 <= i < kept.len() && (#[trigger] kept[i]).id == id;
        assert(kept.contains(kept[i]));
        sequences::lemma_filter_contains(windows, is_put_back(known, alive), kept[i]);
    }
}

} // verus!
