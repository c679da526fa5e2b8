//! The focus has moved to another window.

use crate::events::AccessibilityNotification;
use crate::events::ManualNotification;
use crate::events::SystemNotification;
use crate::operation::EventStage;
use crate::operation::Operation;
use crate::placement;
use crate::process_command::plan;
use crate::process_command::plan::CommandPlan;
use crate::process_command::plan::CommandPlanView;
use crate::process_event::handling;
use crate::process_event::handling::Frame;
use crate::process_event::handling::HandlingSight;
use crate::process_event::handling::HandlingSightView;
use crate::rules::IdWithIdentifier;
use crate::rules::IdWithIdentifierView;
use crate::rules::MatchingRule;
use crate::rules::MatchingRuleView;
use crate::rules::WorkspaceMatchingRule;
use crate::rules::WorkspaceMatchingRuleView;
use crate::settings::DefaultLayout;
use crate::settings::WorkspaceLayer;
use crate::text;
use crate::window_manager;
use crate::window_manager::CommandError;
use crate::window_manager::Container;
use crate::window_manager::ContainerView;
use crate::window_manager::Window;
use crate::window_manager::WindowManager;
use crate::window_manager::WindowManagerView;
use crate::window_manager::Workspace;
use crate::window_manager::WorkspaceView;
use vstd::prelude::*;

verus! {

/// A window belongs to the application whose focus changed.
pub open spec fn belongs(window: Window, name: Option<Seq<char>>, process_id: i32) -> bool {
    handling::name_or_empty(window.application.deep_view()) == handling::name_or_empty(name)
        && window.process_id == process_id
}

/// What looking at one window for the tab that has the focus comes to: whether the window
/// has gone, and whether the tab is at the very place where the window is kept; or the frames
/// could not be read.
pub open spec fn tab_seen(
    sight: HandlingSightView,
    window_id: u32,
    window: Window,
) -> Result<(bool, bool), CommandError> {
    match handling::frame_of(sight.frames, window_id, 0) {
        Frame::At(tab) => match handling::frame_of(sight.frames, window.id, 0) {
            Frame::At(rect) => Ok((false, tab == rect && window.id != window_id)),
            Frame::Gone => Ok((true, window.id != window_id)),
            Frame::Unreadable => Err(CommandError::UnreadableFrame),
        },
        _ => Err(CommandError::UnreadableFrame),
    }
}

/// How far the search for the tab that has the focus has come.
#[verifier::ext_equal]
pub struct TabSearch {
    /// The container whose focused window is the tab.
    pub container: Option<usize>,
    /// The first tab of a window has gone.
    pub first_tab_destroyed: bool,
    pub operations: Seq<Operation>,
    pub failure: Option<CommandError>,
}

/// The search goes on with one more container. A window counts as the same one under another
/// tab only if it still reports the id that it is kept under: separate windows can have the
/// same frame.
pub open spec fn tab_search_step(
    search: TabSearch,
    i: usize,
    container: ContainerView,
    sight: HandlingSightView,
    process_id: i32,
    window_id: u32,
) -> TabSearch {
    match (search.failure, container.focused()) {
        (None, Some(window)) => if belongs(window, sight.application_name, process_id) {
            match tab_seen(sight, window_id, window) {
                Ok((gone, same_frame)) => TabSearch {
                    container: if same_frame && handling::reported_id(
                        sight.reported_ids,
                        window.id,
                        0,
                    ) == Some(window.id) {
                        Some(i)
                    } else {
                        search.container
                    },
                    first_tab_destroyed: search.first_tab_destroyed || gone,
                    operations: if gone {
                        search.operations.push(
                            Operation::SendManualEvent(
                                ManualNotification::ShowOnFocusChangeFirstTabDestroyed,
                                process_id,
                                window_id,
                            ),
                        )
                    } else {
                        search.operations
                    },
                    failure: None,
                },
                Err(error) => TabSearch { failure: Some(error), ..search },
            }
        } else {
            search
        },
        _ => search,
    }
}

/// The search for the tab that has the focus in the first `n` containers.
pub open spec fn tab_search(
    containers: Seq<ContainerView>,
    n: nat,
    sight: HandlingSightView,
    process_id: i32,
    window_id: u32,
) -> TabSearch
    decreases n,
{
    if n == 0 {
        TabSearch {
            container: None,
            first_tab_destroyed: false,
            operations: Seq::empty(),
            failure: None,
        }
    } else {
        tab_search_step(
            tab_search(containers, (n - 1) as nat, sight, process_id, window_id),
            (n - 1) as usize,
            containers[n - 1],
            sight,
            process_id,
            window_id,
        )
    }
}

/// A container whose focused window is kept under another id.
pub open spec fn renamed(container: ContainerView, window_id: u32) -> ContainerView {
    match container.focused() {
        Some(window) => ContainerView {
            windows: container.windows.update(
                container.focused_window as int,
                Window { id: window_id, ..window },
            ),
            ..container
        },
        None => container,
    }
}

/// A workspace on which the tab that has the focus is kept under its own id.
pub open spec fn with_tab(
    workspace: WorkspaceView,
    container: Option<usize>,
    window_id: u32,
) -> WorkspaceView {
    match container {
        Some(i) => WorkspaceView {
            containers: workspace.containers.update(
                i as int,
                renamed(workspace.containers[i as int], window_id),
            ),
            ..workspace
        },
        None => workspace,
    }
}

/// What looking at the monocle container for the tab comes to: whether the window has gone,
/// and whether the tab is that window.
pub open spec fn monocle_tab_seen(
    workspace: WorkspaceView,
    sight: HandlingSightView,
    process_id: i32,
    window_id: u32,
) -> Result<(bool, bool), CommandError> {
    match workspace.monocle_container {
        Some(monocle) => match monocle.focused() {
            Some(window) => if belongs(window, sight.application_name, process_id) {
                tab_seen(sight, window_id, window)
            } else {
                Ok((false, false))
            },
            None => Ok((false, false)),
        },
        None => Ok((false, false)),
    }
}

/// How far following the focus of a tabbed application has come: the workspace, whether the
/// window is a tab, whether windows that have gone are to be reaped, the operations so far
/// and, where it failed, why.
#[verifier::ext_equal]
pub struct TabOutcome {
    pub workspace: WorkspaceView,
    pub tabbed: bool,
    pub reaps: bool,
    pub operations: Seq<Operation>,
    pub failure: Option<CommandError>,
}

/// What following the focus of a tabbed application comes to. A focus change between the tabs
/// of one window changes which id the window is kept under, and nothing else.
pub open spec fn tab_outcome(
    workspace: WorkspaceView,
    sight: HandlingSightView,
    process_id: i32,
    window_id: u32,
) -> TabOutcome {
    let search = tab_search(
        workspace.containers,
        workspace.containers.len(),
        sight,
        process_id,
        window_id,
    );
    match search.failure {
        Some(error) => TabOutcome {
            workspace,
            tabbed: false,
            reaps: false,
            operations: search.operations,
            failure: Some(error),
        },
        None => {
            let kept = with_tab(workspace, search.container, window_id);
            match monocle_tab_seen(kept, sight, process_id, window_id) {
                Err(error) => TabOutcome {
                    workspace: kept,
                    tabbed: search.container is Some,
                    reaps: false,
                    operations: search.operations,
                    failure: Some(error),
                },
                Ok((gone, is_tab)) => TabOutcome {
                    workspace: if is_tab {
                        WorkspaceView {
                            monocle_container: Some(
                                renamed(kept.monocle_container->0, window_id),
                            ),
                            ..kept
                        }
                    } else {
                        kept
                    },
                    tabbed: search.container is Some || is_tab,
                    reaps: search.first_tab_destroyed || gone,
                    operations: if search.first_tab_destroyed || gone {
                        search.operations.push(Operation::ReapInvalidWindows(process_id))
                    } else {
                        search.operations
                    },
                    failure: None,
                },
            }
        },
    }
}

/// The operations that end a focus change, unless it was between tabs or is reconciled: when
/// the main window of an application has changed, windows that have gone are reaped.
pub open spec fn focus_ending(
    notification: SystemNotification,
    process_id: i32,
    left_alone: bool,
) -> Seq<Operation> {
    if notification == SystemNotification::Accessibility(
        AccessibilityNotification::AXMainWindowChanged,
    ) && !left_alone {
        seq![
            Operation::ReapInvalidWindows(process_id),
            Operation::UpdateFocusedWorkspace(false, false),
        ]
    } else {
        Seq::empty()
    }
}

/// The layout of a workspace scrolls.
pub open spec fn scrolls(workspace: WorkspaceView) -> bool {
    workspace.layout == DefaultLayout::Scrolling
}

/// The operations that follow up the focus of a window that is not a tab as far as its
/// workspace: unless the layout scrolls or nothing is tiled, the workspace is updated.
pub open spec fn focus_followed_up(
    workspace: WorkspaceView,
    mouse_follows_focus: bool,
    window_id: u32,
) -> Seq<Operation> {
    (if !scrolls(workspace) && workspace.containers.len() > 0 {
        seq![Operation::UpdateFocusedWorkspace(mouse_follows_focus, false)]
    } else {
        Seq::empty()
    }).push(Operation::ResumeEvent(EventStage::FocusSettled(window_id)))
}

/// The plan that follows up the focus of a window that is not a tab, once windows that have
/// gone have been reaped.
pub open spec fn focus_reaped_plan(wm: WindowManagerView, window_id: u32) -> CommandPlanView {
    match wm.workspace() {
        Err(error) => plan::plan_failure(error),
        Ok(workspace) => plan::plan_of(
            focus_followed_up(workspace, wm.mouse_follows_focus, window_id),
        ),
    }
}

/// What a focus change comes to, as far as it is known whether it was between tabs. Where the
/// first tab of a window has gone, what is left on the workspace is only looked at once windows
/// that have gone have been reaped.
pub open spec fn focus_change_effect(
    wm: WindowManagerView,
    notification: SystemNotification,
    process_id: i32,
    sight: HandlingSightView,
) -> (WindowManagerView, CommandPlanView) {
    if !sight.application_found {
        (wm, plan::plan_failure(CommandError::NoApplication))
    } else {
        match sight.main_window_id {
            None => (
                wm,
                handling::finished(
                    plan::plan_of(focus_ending(notification, process_id, false)),
                    sight.border_window_id,
                ),
            ),
            Some(window_id) => match wm.workspace() {
                Err(error) => (wm, plan::plan_failure(error)),
                Ok(workspace) => {
                    let outcome = if placement::is_tabbed(
                        wm.rules.tabbed_applications,
                        sight.application_name,
                    ) {
                        tab_outcome(workspace, sight, process_id, window_id)
                    } else {
                        TabOutcome {
                            workspace,
                            tabbed: false,
                            reaps: false,
                            operations: Seq::empty(),
                            failure: None,
                        }
                    };
                    (
                        wm.with_workspace(outcome.workspace),
                        match outcome.failure {
                            Some(error) => handling::plan_until(outcome.operations, error),
                            None => if outcome.tabbed {
                                handling::finished(
                                    plan::plan_of(outcome.operations),
                                    sight.border_window_id,
                                )
                            } else if outcome.reaps {
                                plan::plan_of(
                                    outcome.operations.push(
                                        Operation::ResumeEvent(EventStage::FocusReaped(window_id)),
                                    ),
                                )
                            } else {
                                plan::plan_of(
                                    outcome.operations + focus_followed_up(
                                        outcome.workspace,
                                        wm.mouse_follows_focus,
                                        window_id,
                                    ),
                                )
                            },
                        },
                    )
                },
            },
        }
    }
}

/// A comparison names the application, whose `.exe` ending does not count.
pub open spec fn names_application(identifier: IdWithIdentifierView, name: Seq<char>) -> bool {
    text::exe_trimmed(identifier.id) == name
}

/// A workspace rule names the application somewhere, whatever it looks at.
pub open spec fn rule_names_application(rule: WorkspaceMatchingRuleView, name: Seq<char>) -> bool {
    match rule.matching_rule {
        MatchingRuleView::Simple(identifier) => names_application(identifier, name),
        MatchingRuleView::Composite(identifiers) => any_names_application(identifiers, name),
    }
}

/// Some comparison names the application.
pub open spec fn any_names_application(
    identifiers: Seq<IdWithIdentifierView>,
    name: Seq<char>,
) -> bool {
    exists|i: int|
        0 <= i < identifiers.len() && names_application(#[trigger] identifiers[i], name)
}

/// Some workspace rule names the application.
pub open spec fn has_workspace_rule(rules: Seq<WorkspaceMatchingRuleView>, name: Seq<char>) -> bool {
    exists|i: int| 0 <= i < rules.len() && rule_names_application(#[trigger] rules[i], name)
}

/// The operations that follow the focus to a window that is not floating: to the window that
/// is in front in monocle mode, to the container that holds it, or, where nobody knows of it
/// and no rule says where it goes, to a window that is only now noticed.
pub open spec fn follow_tiled(
    wm: WindowManagerView,
    workspace: WorkspaceView,
    window_id: u32,
    process_id: i32,
    sight: HandlingSightView,
) -> Seq<Operation> {
    let here = workspace.shows(window_id);
    let unnoticed = workspace.monocle_container is None && !here
        && !wm.known_window_ids.contains_key(window_id) && !has_workspace_rule(
        wm.rules.workspace_matching_rules,
        handling::name_or_empty(sight.application_name),
    );
    let follow: Seq<Operation> = match workspace.monocle_container {
        Some(monocle) => match monocle.focused() {
            Some(window) => seq![Operation::FocusWindow(window.id, false)],
            None => Seq::empty(),
        },
        None => if unnoticed {
            seq![
                Operation::SendManualEvent(
                    ManualNotification::ShowOnFocusChangeWindowlessAppRestored,
                    process_id,
                    window_id,
                ),
            ]
        } else if here {
            seq![Operation::FocusContainerByWindow(window_id)]
        } else {
            Seq::empty()
        },
    };
    let switch: Seq<Operation> = if unnoticed {
        Seq::empty()
    } else {
        seq![Operation::SetWorkspaceLayer(WorkspaceLayer::Tiling)]
    };
    let update: Seq<Operation> = if scrolls(workspace) && workspace.containers.len() > 0 {
        seq![Operation::UpdateFocusedWorkspace(wm.mouse_follows_focus, false)]
    } else {
        Seq::empty()
    };
    follow + switch + update
}

/// The workspace that the focus has to be reconciled with: one that is known to hold the
/// window, where the focused one does not, unless the focus change was caused from here.
pub open spec fn to_reconcile(
    wm: WindowManagerView,
    workspace: WorkspaceView,
    window_id: u32,
    sight: HandlingSightView,
) -> Option<(usize, usize)> {
    if !workspace.shows(window_id) && wm.known_window_ids.contains_key(window_id)
        && !sight.focus_was_ours {
        Some(wm.known_window_ids[window_id])
    } else {
        None
    }
}

/// What a focus change that was not between tabs comes to.
pub open spec fn focus_settled_plan(
    wm: WindowManagerView,
    notification: SystemNotification,
    process_id: i32,
    window_id: u32,
    sight: HandlingSightView,
) -> CommandPlanView {
    match wm.workspace() {
        Err(error) => plan::plan_failure(error),
        Ok(workspace) => {
            let follow: Seq<Operation> = if window_manager::has_id(
                workspace.floating_windows,
                window_id,
            ) {
                seq![Operation::SetWorkspaceLayer(WorkspaceLayer::Floating)]
            } else {
                follow_tiled(wm, workspace, window_id, process_id, sight)
            };
            let place = to_reconcile(wm, workspace, window_id, sight);
            let reconcile: Seq<Operation> = match place {
                Some((m, w)) => seq![Operation::Reconcile(m, w)],
                None => Seq::empty(),
            };
            handling::finished(
                plan::plan_of(
                    follow + reconcile + focus_ending(notification, process_id, place is Some),
                ),
                sight.border_window_id,
            )
        },
    }
}

fn look_at_tab(sight: &HandlingSight, window_id: u32, window: &Window) -> (seen: Result<
    (bool, bool),
    CommandError,
>)
    ensures
        seen == tab_seen(sight.deep_view(), window_id, *window),
{
    match sight.frame(window_id) {
        Frame::At(tab) => match sight.frame(window.id) {
            Frame::At(rect) => Ok((false, tab == rect && window.id != window_id)),
            Frame::Gone => Ok((true, window.id != window_id)),
            Frame::Unreadable => Err(CommandError::UnreadableFrame),
        },
        _ => Err(CommandError::UnreadableFrame),
    }
}

fn window_belongs(window: &Window, sight: &HandlingSight, process_id: i32) -> (yes: bool)
    ensures
        yes == belongs(*window, sight.deep_view().application_name, process_id),
{
    handling::same_name(&window.application, &sight.application_name) && window.process_id
        == process_id
}

/// What a search for the tab that has the focus found.
struct FoundTab {
    container: Option<usize>,
    first_tab_destroyed: bool,
    operations: Vec<Operation>,
    failure: Option<CommandError>,
}

impl View for FoundTab {
    type V = TabSearch;

    closed spec fn view(&self) -> TabSearch {
        TabSearch {
            container: self.container,
            first_tab_destroyed: self.first_tab_destroyed,
            operations: self.operations@,
            failure: self.failure,
        }
    }
}

fn look_in_container(
    found: &mut FoundTab,
    i: usize,
    container: &Container,
    sight: &HandlingSight,
    process_id: i32,
    window_id: u32,
)
    requires
        old(found).failure is None,
    ensures
        final(found)@ == tab_search_step(
            old(found)@,
            i,
            container.deep_view(),
            sight.deep_view(),
            process_id,
            window_id,
        ),
{
    if let Some(window) = container.focused() {
        if window_belongs(window, sight, process_id) {
            match look_at_tab(sight, window_id, window) {
                Ok((gone, same_frame)) => {
                    if gone {
                        found.operations.push(
                            Operation::SendManualEvent(
                                ManualNotification::ShowOnFocusChangeFirstTabDestroyed,
                                process_id,
                                window_id,
                            ),
                        );
                        found.first_tab_destroyed = true;
                    }
                    let reports_itself: bool = match sight.reported(window.id) {
                        Some(reported) => reported == window.id,
                        None => false,
                    };
                    if same_frame && reports_itself {
                        found.container = Some(i);
                    }
                },
                Err(error) => {
                    found.failure = Some(error);
                },
            }
        }
    }
}

proof fn lemma_tab_search_keeps_failure(
    containers: Seq<ContainerView>,
    n: nat,
    more: nat,
    sight: HandlingSightView,
    process_id: i32,
    window_id: u32,
)
    requires
        n <= more,
        tab_search(containers, n, sight, process_id, window_id).failure is Some,
    ensures
        tab_search(containers, more, sight, process_id, window_id) == tab_search(
            containers,
            n,
            sight,
            process_id,
            window_id,
        ),
    decreases more,
{
    if n < more {
        lemma_tab_search_keeps_failure(
            containers,
            n,
            (more - 1) as nat,
            sight,
            process_id,
            window_id,
        );
    }
}

proof fn lemma_tab_search_in_range(
    containers: Seq<ContainerView>,
    n: nat,
    sight: HandlingSightView,
    process_id: i32,
    window_id: u32,
)
    requires
        n <= usize::MAX,
    ensures
        tab_search(containers, n, sight, process_id, window_id).container matches Some(i) ==> i < n,
    decreases n,
{
    if n > 0 {
        lemma_tab_search_in_range(containers, (n - 1) as nat, sight, process_id, window_id);
    }
}

fn search_tab(
    containers: &Vec<Container>,
    sight: &HandlingSight,
    process_id: i32,
    window_id: u32,
) -> (found: FoundTab)
    ensures
        found@ == tab_search(
            containers.deep_view(),
            containers.len() as nat,
            sight.deep_view(),
            process_id,
            window_id,
        ),
        found.container matches Some(i) ==> i < containers.len(),
{
    let ghost all = containers.deep_view();
    let mut found = FoundTab {
        container: None,
        first_tab_destroyed: false,
        operations: Vec::new(),
        failure: None,
    };
    proof {
        lemma_tab_search_in_range(
            all,
            containers.len() as nat,
            sight.deep_view(),
            process_id,
            window_id,
        );
    }
    let mut i: usize = 0;
    while i < containers.len()
        invariant
            i <= containers.len(),
            all == containers.deep_view(),
            found.failure is None,
            found@ == tab_search(all, i as nat, sight.deep_view(), process_id, window_id),
            tab_search(
                all,
                containers.len() as nat,
                sight.deep_view(),
                process_id,
                window_id,
            ).container matches Some(i) ==> i < containers.len(),
        decreases containers.len() - i,
    {
        assert(all[i as int] == containers[i as int].deep_view());
        look_in_container(&mut found, i, &containers[i], sight, process_id, window_id);
        i += 1;
        if found.failure.is_some() {
            proof {
                lemma_tab_search_keeps_failure(
                    all,
                    i as nat,
                    containers.len() as nat,
                    sight.deep_view(),
                    process_id,
                    window_id,
                );
            }
            return found;
        }
    }
    found
}

fn rename_focused(container: &mut Container, window_id: u32)
    ensures
        final(container).deep_view() == renamed(old(container).deep_view(), window_id),
{
    if let Some(window) = container.focused_mut() {
        window.id = window_id;
    }
}

fn rename_in(workspace: &mut Workspace, i: usize, window_id: u32)
    requires
        i < old(workspace).containers.len(),
    ensures
        final(workspace).deep_view() == with_tab(old(workspace).deep_view(), Some(i), window_id),
{
    let ghost before = workspace.deep_view();
    rename_focused(&mut workspace.containers[i], window_id);
    assert(workspace.containers.deep_view() =~= with_tab(before, Some(i), window_id).containers);
}

fn rename_monocle(workspace: &mut Workspace, window_id: u32)
    requires
        old(workspace).monocle_container is Some,
    ensures
        final(workspace).deep_view() == (WorkspaceView {
            monocle_container: Some(
                renamed(old(workspace).deep_view().monocle_container->0, window_id),
            ),
            ..old(workspace).deep_view()
        }),
{
    if let Some(monocle) = &mut workspace.monocle_container {
        rename_focused(monocle, window_id);
    }
}

fn look_at_monocle(
    workspace: &Workspace,
    sight: &HandlingSight,
    process_id: i32,
    window_id: u32,
) -> (seen: Result<(bool, bool), CommandError>)
    ensures
        seen == monocle_tab_seen(workspace.deep_view(), sight.deep_view(), process_id, window_id),
{
    if let Some(monocle) = &workspace.monocle_container {
        if let Some(window) = monocle.focused() {
            if window_belongs(window, sight, process_id) {
                return look_at_tab(sight, window_id, window);
            }
        }
    }
    Ok((false, false))
}

/// What following the focus of a tabbed application came to.
struct Followed {
    tabbed: bool,
    reaps: bool,
    operations: Vec<Operation>,
    failure: Option<CommandError>,
}

fn follow_tab(
    workspace: &mut Workspace,
    sight: &HandlingSight,
    process_id: i32,
    window_id: u32,
) -> (followed: Followed)
    ensures
        (TabOutcome {
            workspace: final(workspace).deep_view(),
            tabbed: followed.tabbed,
            reaps: followed.reaps,
            operations: followed.operations@,
            failure: followed.failure,
        }) == tab_outcome(old(workspace).deep_view(), sight.deep_view(), process_id, window_id),
{
    let found = search_tab(&workspace.containers, sight, process_id, window_id);
    if found.failure.is_some() {
        return Followed {
            tabbed: false,
            reaps: false,
            operations: found.operations,
            failure: found.failure,
        };
    }
    if let Some(i) = found.container {
        rename_in(workspace, i, window_id);
    }
    let seen = look_at_monocle(&*workspace, sight, process_id, window_id);
    match seen {
        Err(error) => Followed {
            tabbed: found.container.is_some(),
            reaps: false,
            operations: found.operations,
            failure: Some(error),
        },
        Ok((gone, is_tab)) => {
            if is_tab {
                rename_monocle(workspace, window_id);
            }
            let reaps: bool = found.first_tab_destroyed || gone;
            let mut operations = found.operations;
            if reaps {
                operations.push(Operation::ReapInvalidWindows(process_id));
            }
            Followed {
                tabbed: found.container.is_some() || is_tab,
                reaps,
                operations,
                failure: None,
            }
        },
    }
}

fn push_ending(
    operations: &mut Vec<Operation>,
    notification: SystemNotification,
    process_id: i32,
    left_alone: bool,
)
    ensures
        final(operations)@ == old(operations)@ + focus_ending(
            notification,
            process_id,
            left_alone,
        ),
{
    let main_window_changed: bool = match notification {
        SystemNotification::Accessibility(AccessibilityNotification::AXMainWindowChanged) => true,
        _ => false,
    };
    if main_window_changed && !left_alone {
        operations.push(Operation::ReapInvalidWindows(process_id));
        operations.push(Operation::UpdateFocusedWorkspace(false, false));
    }
    assert(operations@ =~= old(operations)@ + focus_ending(notification, process_id, left_alone));
}

fn is_scrolling(layout: DefaultLayout) -> (scrolling: bool)
    ensures
        scrolling == (layout == DefaultLayout::Scrolling),
{
    match layout {
        DefaultLayout::Scrolling => true,
        _ => false,
    }
}

fn push_followed_up(
    operations: &mut Vec<Operation>,
    workspace: &Workspace,
    mouse_follows_focus: bool,
    window_id: u32,
)
    ensures
        final(operations)@ == old(operations)@ + focus_followed_up(
            workspace.deep_view(),
            mouse_follows_focus,
            window_id,
        ),
{
    if !is_scrolling(workspace.layout) && workspace.containers.len() > 0 {
        operations.push(Operation::UpdateFocusedWorkspace(mouse_follows_focus, false));
    }
    operations.push(Operation::ResumeEvent(EventStage::FocusSettled(window_id)));
    assert(operations@ =~= old(operations)@ + focus_followed_up(
        workspace.deep_view(),
        mouse_follows_focus,
        window_id,
    ));
}

fn identifier_names(identifier: &IdWithIdentifier, name: &str) -> (names: bool)
    ensures
        names == names_application(identifier.deep_view(), name@),
{
    let trimmed = text::trim_exe(identifier.id.as_str());
    text::same_text(trimmed.as_str(), name)
}

fn any_identifier_names(identifiers: &Vec<IdWithIdentifier>, name: &str) -> (names: bool)
    ensures
        names == any_names_application(identifiers.deep_view(), name@),
{
    let mut i: usize = 0;
    while i < identifiers.len()
        invariant
            i <= identifiers.len(),
            forall|k: int|
                0 <= k < i ==> !names_application(#[trigger] identifiers.deep_view()[k], name@),
        decreases identifiers.len() - i,
    {
        if identifier_names(&identifiers[i], name) {
            assert(names_application(identifiers.deep_view()[i as int], name@));
            return true;
        }
        i += 1;
    }
    false
}

fn rule_names(rule: &WorkspaceMatchingRule, name: &str) -> (names: bool)
    ensures
        names == rule_names_application(rule.deep_view(), name@),
{
    match &rule.matching_rule {
        MatchingRule::Simple(identifier) => identifier_names(identifier, name),
        MatchingRule::Composite(identifiers) => any_identifier_names(identifiers, name),
    }
}

fn any_rule_names(rules: &Vec<WorkspaceMatchingRule>, name: &str) -> (names: bool)
    ensures
        names == has_workspace_rule(rules.deep_view(), name@),
{
    let mut i: usize = 0;
    while i < rules.len()
        invariant
            i <= rules.len(),
            forall|k: int|
                0 <= k < i ==> !rule_names_application(#[trigger] rules.deep_view()[k], name@),
        decreases rules.len() - i,
    {
        if rule_names(&rules[i], name) {
            assert(rule_names_application(rules.deep_view()[i as int], name@));
            return true;
        }
        i += 1;
    }
    false
}

impl WindowManager {
    /// Where a window is known to be.
    pub fn known_place(&self, window_id: u32) -> (place: Option<(usize, usize)>)
        ensures
            match place {
                Some(place) => self.deep_view().known_window_ids.contains_key(window_id)
                    && self.deep_view().known_window_ids[window_id] == place,
                None => !self.deep_view().known_window_ids.contains_key(window_id),
            },
    {
        broadcast use vstd::std_specs::hash::group_hash_axioms;

        match self.known_window_ids.get(&window_id) {
            Some(place) => Some(*place),
            None => None,
        }
    }

    fn follow_focus_to_tab(
        &mut self,
        sight: &HandlingSight,
        process_id: i32,
        window_id: u32,
    ) -> (followed: Result<Followed, CommandError>)
        ensures
            match followed {
                Ok(followed) => {
                    let outcome = TabOutcome {
                        workspace: final(self).deep_view().workspace()->Ok_0,
                        tabbed: followed.tabbed,
                        reaps: followed.reaps,
                        operations: followed.operations@,
                        failure: followed.failure,
                    };
                    &&& old(self).deep_view().workspace() is Ok
                    &&& final(self).deep_view() == old(self).deep_view().with_workspace(
                        outcome.workspace,
                    )
                    &&& outcome == if placement::is_tabbed(
                        old(self).deep_view().rules.tabbed_applications,
                        sight.deep_view().application_name,
                    ) {
                        tab_outcome(
                            old(self).deep_view().workspace()->Ok_0,
                            sight.deep_view(),
                            process_id,
                            window_id,
                        )
                    } else {
                        TabOutcome {
                            workspace: old(self).deep_view().workspace()->Ok_0,
                            tabbed: false,
                            reaps: false,
                            operations: Seq::empty(),
                            failure: None,
                        }
                    }
                },
                Err(error) => {
                    &&& old(self).deep_view().workspace() == Err::<WorkspaceView, CommandError>(
                        error,
                    )
                    &&& final(self).deep_view() == old(self).deep_view()
                },
            },
    {
        let tabs: bool = placement::keeps_tabs(
            &self.rules.tabbed_applications,
            &sight.application_name,
        );
        match self.workspace_mut() {
            Err(error) => Err(error),
            Ok(workspace) => {
                if tabs {
                    Ok(follow_tab(workspace, sight, process_id, window_id))
                } else {
                    Ok(
                        Followed {
                            tabbed: false,
                            reaps: false,
                            operations: Vec::new(),
                            failure: None,
                        },
                    )
                }
            },
        }
    }

    /// Handles a focus change, as far as it is known whether it was between tabs.
    pub fn handle_focus_change(
        &mut self,
        notification: SystemNotification,
        process_id: i32,
        sight: &HandlingSight,
    ) -> (plan: CommandPlan)
        ensures
            (final(self).deep_view(), plan.deep_view()) == focus_change_effect(
                old(self).deep_view(),
                notification,
                process_id,
                sight.deep_view(),
            ),
    {
        if !sight.application_found {
            return CommandPlan::failed(CommandError::NoApplication);
        }
        let window_id: u32 = match sight.main_window_id {
            Some(window_id) => window_id,
            None => {
                let mut operations: Vec<Operation> = Vec::new();
                push_ending(&mut operations, notification, process_id, false);
                assert(operations@ =~= focus_ending(notification, process_id, false));
                return handling::finish(CommandPlan::of(operations), sight.border_window_id);
            },
        };
        let followed = match self.follow_focus_to_tab(sight, process_id, window_id) {
            Ok(followed) => followed,
            Err(error) => {
                return CommandPlan::failed(error);
            },
        };
        if let Some(error) = followed.failure {
            return handling::until(followed.operations, error);
        }
        if followed.tabbed {
            return handling::finish(
                CommandPlan::of(followed.operations),
                sight.border_window_id,
            );
        }
        let mut operations = followed.operations;
        if followed.reaps {
            operations.push(Operation::ResumeEvent(EventStage::FocusReaped(window_id)));
            return CommandPlan::of(operations);
        }
        if let Ok(workspace) = self.workspace() {
            push_followed_up(&mut operations, workspace, self.mouse_follows_focus, window_id);
        }
        CommandPlan::of(operations)
    }

    /// Goes on with a focus change that was not between tabs, once windows that have gone have
    /// been reaped.
    pub fn follow_up_focus_change(&self, window_id: u32) -> (plan: CommandPlan)
        ensures
            plan.deep_view() == focus_reaped_plan(self.deep_view(), window_id),
    {
        let workspace = match self.workspace() {
            Ok(workspace) => workspace,
            Err(error) => {
                return CommandPlan::failed(error);
            },
        };
        let mut operations: Vec<Operation> = Vec::new();
        push_followed_up(&mut operations, workspace, self.mouse_follows_focus, window_id);
        assert(operations@ =~= focus_followed_up(
            workspace.deep_view(),
            self.mouse_follows_focus,
            window_id,
        ));
        CommandPlan::of(operations)
    }

    fn push_follow_tiled(
        &self,
        operations: &mut Vec<Operation>,
        workspace: &Workspace,
        window_id: u32,
        process_id: i32,
        sight: &HandlingSight,
    )
        ensures
            final(operations)@ == old(operations)@ + follow_tiled(
                self.deep_view(),
                workspace.deep_view(),
                window_id,
                process_id,
                sight.deep_view(),
            ),
    {
        proof {
            reveal_strlit("");
            assert(""@ =~= Seq::<char>::empty());
        }
        let name: &str = match &sight.application_name {
            Some(name) => name.as_str(),
            None => "",
        };
        let here: bool = workspace.contains_window(window_id);
        let mut unnoticed: bool = false;
        match &workspace.monocle_container {
            Some(monocle) => {
                if let Some(window) = monocle.focused() {
                    operations.push(Operation::FocusWindow(window.id, false));
                }
            },
            None => {
                unnoticed = !here && self.known_place(window_id).is_none() && !any_rule_names(
                    &self.rules.workspace_matching_rules,
                    name,
                );
                if unnoticed {
                    operations.push(
                        Operation::SendManualEvent(
                            ManualNotification::ShowOnFocusChangeWindowlessAppRestored,
                            process_id,
                            window_id,
                        ),
                    );
                } else if here {
                    operations.push(Operation::FocusContainerByWindow(window_id));
                }
            },
        }
        if !unnoticed {
            operations.push(Operation::SetWorkspaceLayer(WorkspaceLayer::Tiling));
        }
        if is_scrolling(workspace.layout) && workspace.containers.len() > 0 {
            operations.push(Operation::UpdateFocusedWorkspace(self.mouse_follows_focus, false));
        }
        assert(operations@ =~= old(operations)@ + follow_tiled(
            self.deep_view(),
            workspace.deep_view(),
            window_id,
            process_id,
            sight.deep_view(),
        ));
    }

    /// Goes on with a focus change that was not between tabs.
    pub fn settle_focus_change(
        &self,
        notification: SystemNotification,
        process_id: i32,
        window_id: u32,
        sight: &HandlingSight,
    ) -> (plan: CommandPlan)
        ensures
            plan.deep_view() == focus_settled_plan(
                self.deep_view(),
                notification,
                process_id,
                window_id,
                sight.deep_view(),
            ),
    {
        let workspace = match self.workspace() {
            Ok(workspace) => workspace,
            Err(error) => {
                return CommandPlan::failed(error);
            },
        };
        let mut operations: Vec<Operation> = Vec::new();
        if window_manager::contains_id(&workspace.floating_windows, window_id) {
            operations.push(Operation::SetWorkspaceLayer(WorkspaceLayer::Floating));
        } else {
            self.push_follow_tiled(&mut operations, workspace, window_id, process_id, sight);
        }
        let mut reconciled: bool = false;
        if !workspace.contains_window(window_id) && !sight.focus_was_ours {
            if let Some((m, w)) = self.known_place(window_id) {
                operations.push(Operation::Reconcile(m, w));
                reconciled = true;
            }
        }
        push_ending(&mut operations, notification, process_id, reconciled);
        proof {
            let place = to_reconcile(
                self.deep_view(),
                workspace.deep_view(),
                window_id,
                sight.deep_view(),
            );
            let follow: Seq<Operation> = if window_manager::has_id(
                workspace.deep_view().floating_windows,
                window_id,
            ) {
                seq![Operation::SetWorkspaceLayer(WorkspaceLayer::Floating)]
            } else {
                follow_tiled(
                    self.deep_view(),
                    workspace.deep_view(),
                    window_id,
                    process_id,
                    sight.deep_view(),
                )
            };
            let reconcile: Seq<Operation> = match place {
                Some((m, w)) => seq![Operation::Reconcile(m, w)],
                None => Seq::empty(),
            };
            assert(operations@ =~= follow + reconcile + focus_ending(
                notification,
                process_id,
                place is Some,
            ));
        }
        handling::finish(CommandPlan::of(operations), sight.border_window_id)
    }
}

/// A focus change between the tabs of one window neither reaps anything beyond that window
/// nor moves the focus anywhere: the window is kept under the id of the tab, and everything
/// else on the workspace stays as it was.
pub proof fn law_switching_tabs_only_renames_the_window(
    workspace: WorkspaceView,
    sight: HandlingSightView,
    process_id: i32,
    window_id: u32,
)
    requires
        workspace.containers.len() <= usize::MAX,
    ensures
        ({
            let after = tab_outcome(workspace, sight, process_id, window_id).workspace;
            &&& after.containers.len() == workspace.containers.len()
            &&& after.floating_windows == workspace.floating_windows
            &&& after.focused_container == workspace.focused_container
            &&& after.layer == workspace.layer
            &&& forall|i: int|
                0 <= i < workspace.containers.len() ==> {
                    ||| (#[trigger] after.containers[i]) == workspace.containers[i]
                    ||| after.containers[i] == renamed(workspace.containers[i], window_id)
                }
        }),
{
    lemma_tab_search_in_range(
        workspace.containers,
        workspace.containers.len(),
        sight,
        process_id,
        window_id,
    );
}

/// Where the first tab of a window has gone, nothing that is read of the workspace decides what
/// becomes of the focus before windows that have gone have been reaped: the plan ends with the
/// reaping, and what follows depends on the workspace that it left.
pub proof fn law_reaping_comes_before_following_up(
    wm: WindowManagerView,
    notification: SystemNotification,
    process_id: i32,
    sight: HandlingSightView,
)
    requires
        sight.application_found,
        sight.main_window_id is Some,
        wm.workspace() is Ok,
        placement::is_tabbed(wm.rules.tabbed_applications, sight.application_name),
        ({
            let outcome = tab_outcome(
                wm.workspace()->Ok_0,
                sight,
                process_id,
                sight.main_window_id->0,
            );
            outcome.reaps && !outcome.tabbed
        }),
    ensures
        ({
            let operations = focus_change_effect(wm, notification, process_id, sight).1.operations;
            &&& operations.len() >= 2
            &&& operations[operations.len() - 2] == Operation::ReapInvalidWindows(process_id)
            &&& operations.last() == Operation::ResumeEvent(
                EventStage::FocusReaped(sight.main_window_id->0),
            )
            &&& !operations.contains(
                Operation::UpdateFocusedWorkspace(wm.mouse_follows_focus, false),
            )
        }),
{
    let workspace = wm.workspace()->Ok_0;
    lemma_tab_search_only_tells(
        workspace.containers,
        workspace.containers.len(),
        sight,
        process_id,
        sight.main_window_id->0,
    );
}

proof fn lemma_tab_search_only_tells(
    containers: Seq<ContainerView>,
    n: nat,
    sight: HandlingSightView,
    process_id: i32,
    window_id: u32,
)
    ensures
        forall|i: int|
            0 <= i < tab_search(containers, n, sight, process_id, window_id).operations.len() ==> (
            #[trigger] tab_search(containers, n, sight, process_id, window_id).operations[i])
                is SendManualEvent,
    decreases n,
{
    if n > 0 {
        lemma_tab_search_only_tells(containers, (n - 1) as nat, sight, process_id, window_id);
    }
}

} // verus!
