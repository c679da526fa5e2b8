//! A window has appeared.

use crate::border_manager;
use crate::border_manager::BorderSettingsView;
use crate::eligibility;
use crate::eligibility::RuleDebug;
use crate::eligibility::RuleDebugView;
use crate::events::WindowManagerEvent;
use crate::geometry;
use crate::macos_api::windows;
use crate::operation::EventStage;
use crate::operation::Operation;
use crate::placement;
use crate::process_command::plan;
use crate::process_command::plan::CommandPlan;
use crate::process_command::plan::CommandPlanView;
use crate::process_event::handling;
use crate::process_event::handling::Frame;
use crate::process_event::handling::HandlingSight;
use crate::process_event::handling::HandlingSightView;
use crate::session;
use crate::session::SessionStateView;
use crate::settings;
use crate::settings::Placement;
use crate::settings::WindowAttributesView;
use crate::settings::WindowContainerBehaviour;
use crate::settings::WindowManagementBehaviour;
use crate::settings::WorkspaceLayer;
use crate::window_manager;
use crate::window_manager::CommandError;
use crate::window_manager::Window;
use crate::window_manager::WindowManager;
use crate::window_manager::WindowManagerView;
use crate::window_manager::Workspace;
use crate::window_manager::WorkspaceView;
use vstd::prelude::*;

verus! {

/// The windows of an application that may be the one that appeared: all of them, and its main
/// window, which need not be listed.
pub open spec fn candidates(window_ids: Seq<u32>, main_window_id: Option<u32>) -> Seq<u32> {
    match main_window_id {
        Some(id) => if window_ids.contains(id) {
            window_ids
        } else {
            window_ids.push(id)
        },
        None => window_ids,
    }
}

/// The first candidate, counting from `from`, that is on no workspace yet.
pub open spec fn first_unmanaged(
    wm: WindowManagerView,
    candidates: Seq<u32>,
    from: int,
) -> Option<u32>
    decreases candidates.len() - from,
{
    if from < 0 || from >= candidates.len() {
        None
    } else if !wm.shows(candidates[from]) {
        Some(candidates[from])
    } else {
        first_unmanaged(wm, candidates, from + 1)
    }
}

/// The window that appeared: one that is on no workspace yet. Where all of them are, the
/// event is a duplicate, and the first one stands for it.
pub open spec fn appeared(
    wm: WindowManagerView,
    window_ids: Seq<u32>,
    main_window_id: Option<u32>,
) -> Option<u32> {
    let all = candidates(window_ids, main_window_id);
    let unmanaged = first_unmanaged(wm, all, 0);
    if unmanaged is Some {
        unmanaged
    } else if all.len() > 0 {
        Some(all[0])
    } else {
        None
    }
}

/// Whether the window that appeared is a tab of a window that is showing, counting from
/// `from`: one of its own application, at the same place and with the same id.
pub open spec fn tab_among(
    sight: HandlingSightView,
    window_id: u32,
    from: int,
) -> Result<bool, CommandError>
    decreases sight.visible_windows.len() - from,
{
    if from < 0 || from >= sight.visible_windows.len() {
        Ok(false)
    } else {
        let window = sight.visible_windows[from];
        if handling::name_or_empty(window.application.deep_view()) == handling::name_or_empty(
            sight.application_name,
        ) {
            match (
                handling::frame_of(sight.frames, window_id, 0),
                handling::frame_of(sight.frames, window.id, 0),
            ) {
                (Frame::At(tab), Frame::At(rect)) => if tab == rect && window.id == window_id {
                    Ok(true)
                } else {
                    tab_among(sight, window_id, from + 1)
                },
                _ => Err(CommandError::UnreadableFrame),
            }
        } else {
            tab_among(sight, window_id, from + 1)
        }
    }
}

/// Whether the window that appeared is a tab.
pub open spec fn is_shown_tab(
    wm: WindowManagerView,
    sight: HandlingSightView,
    window_id: u32,
) -> Result<bool, CommandError> {
    if placement::is_tabbed(wm.rules.tabbed_applications, sight.application_name) {
        tab_among(sight, window_id, 0)
    } else {
        Ok(false)
    }
}

/// The window is known to be on another workspace than the focused one.
pub open spec fn known_elsewhere(wm: WindowManagerView, window_id: u32) -> bool {
    &&& wm.known_window_ids.contains_key(window_id)
    &&& wm.focused() is Some
    &&& wm.known_window_ids[window_id] != (wm.focused_monitor, wm.focused()->0.focused_workspace)
}

/// The state once it is noted that a window appeared.
pub open spec fn with_appearance(wm: WindowManagerView, now: u64) -> WindowManagerView {
    WindowManagerView {
        borders: BorderSettingsView { last_window_appeared: now, ..wm.borders },
        ..wm
    }
}

/// What is done about a window that appeared. One that is here already is left alone; one
/// that belongs elsewhere is hidden; one that is not managed, or is a tab, is left alone; and
/// any other is observed, and then placed.
pub open spec fn appearance_plan(
    wm: WindowManagerView,
    event: WindowManagerEvent,
    sight: HandlingSightView,
    debug: RuleDebugView,
) -> CommandPlanView {
    if wm.focused() is None {
        plan::plan_failure(CommandError::NoMonitor)
    } else if !sight.application_found {
        plan::plan_failure(CommandError::NoApplication)
    } else {
        match appeared(wm, sight.window_ids, sight.main_window_id) {
            None => handling::finished(plan::plan_nothing(), sight.border_window_id),
            Some(id) => match wm.workspace() {
                Err(error) => plan::plan_failure(error),
                Ok(workspace) => match is_shown_tab(wm, sight, id) {
                    Err(error) => plan::plan_failure(error),
                    Ok(tab) => {
                        let hide: Seq<Operation> = if known_elsewhere(wm, id) {
                            seq![Operation::HideUnmanagedWindow(id, geometry::DEFAULT_HIDING_POSITION)]
                        } else {
                            Seq::empty()
                        };
                        if !tab && !workspace.shows(id) && !known_elsewhere(wm, id)
                            && eligibility::managed(
                            wm.rules,
                            Some(event),
                            sight.shown_is_valid,
                            sight.shown,
                            debug,
                        ) {
                            plan::plan_of(
                                hide.push(Operation::ObserveWindow(id)).push(
                                    Operation::ResumeEvent(EventStage::Place(id)),
                                ),
                            )
                        } else {
                            handling::finished(plan::plan_of(hide), sight.border_window_id)
                        }
                    },
                },
            },
        }
    }
}

/// What the appearance of a window comes to.
pub open spec fn show_effect(
    wm: WindowManagerView,
    event: WindowManagerEvent,
    sight: HandlingSightView,
    debug: RuleDebugView,
) -> (WindowManagerView, CommandPlanView) {
    let noted = with_appearance(wm, sight.now);
    (noted, appearance_plan(noted, event, sight, debug))
}

/// What is found out about the window that appeared.
pub open spec fn show_findings(
    wm: WindowManagerView,
    event: WindowManagerEvent,
    sight: HandlingSightView,
    debug: RuleDebugView,
) -> RuleDebugView {
    match appeared(wm, sight.window_ids, sight.main_window_id) {
        Some(id) => if wm.workspace() is Ok && sight.application_found && is_shown_tab(
            wm,
            sight,
            id,
        ) is Ok {
            eligibility::managed_findings(
                wm.rules,
                Some(event),
                sight.shown_is_valid,
                sight.shown,
                debug,
            )
        } else {
            debug
        },
        None => debug,
    }
}

/// The place that a window had in an earlier session.
pub open spec fn session_place(
    session: Option<SessionStateView>,
    window_id: u32,
    window: WindowAttributesView,
) -> Option<(usize, usize, usize)> {
    match session {
        Some(session) => session::claimed_place(
            session,
            window_id,
            handling::name_or_empty(window.exe),
            handling::name_or_empty(window.title),
        ),
        None => None,
    }
}

/// What is left of an earlier session once a window has claimed its place.
pub open spec fn session_left(
    session: Option<SessionStateView>,
    window_id: u32,
    window: WindowAttributesView,
) -> Option<SessionStateView> {
    match session {
        Some(session) => Some(
            session::after_claim(
                session,
                window_id,
                handling::name_or_empty(window.exe),
                handling::name_or_empty(window.title),
            ),
        ),
        None => None,
    }
}

/// A session that is over once nothing is left to claim.
pub open spec fn unless_spent(session: Option<SessionStateView>) -> Option<SessionStateView> {
    match session {
        Some(session) => if session.windows.len() == 0 {
            None
        } else {
            Some(session)
        },
        None => None,
    }
}

/// What follows once a window has looked for its place: where nothing is left of the session it
/// is over, and what is there now is written down.
pub open spec fn put_back_ending(
    wm: WindowManagerView,
    operations: Seq<Operation>,
    sight: HandlingSightView,
) -> (WindowManagerView, CommandPlanView) {
    (
        WindowManagerView { pending_session: unless_spent(wm.pending_session), ..wm },
        handling::finished(
            plan::plan_of(
                operations + seq![Operation::SaveSession, Operation::UpdateBorders],
            ),
            sight.border_window_id,
        ),
    )
}

/// What putting a window back where it was in an earlier session comes to, once its workspace
/// is there: it gets a container of its own in the slot that it had, and is brought onto the
/// screen if that is the focused workspace, and out of sight otherwise.
pub open spec fn put_back_effect(
    wm: WindowManagerView,
    m: usize,
    w: usize,
    slot: usize,
    sight: HandlingSightView,
) -> (WindowManagerView, CommandPlanView) {
    let window = sight.shown_window;
    put_back_ending(
        windows::with_container(
            wm,
            (m, w),
            Some(slot),
            windows::single_container(sight.container_id, window),
        ),
        if m < wm.monitors.len() {
            seq![
                if m == wm.focused_monitor && w == wm.workspace_idx_or_zero() {
                    Operation::LoadFocusedWorkspace(m, wm.mouse_follows_focus)
                } else {
                    Operation::HideWindow(window.id, wm.monitors[m as int].window_hiding_position)
                },
            ]
        } else {
            Seq::empty()
        },
        sight,
    )
}

/// A window floats rather than taking a place in the layout. A rule that says so does not
/// hold against being asked to manage the window.
pub open spec fn floats(
    wm: WindowManagerView,
    event: WindowManagerEvent,
    sight: HandlingSightView,
) -> bool {
    ||| sight.behaviour.float_override
    ||| sight.behaviour.floating_layer_override
    ||| eligibility::asked_for(wm.rules.floating_applications, wm.rules, sight.shown) && !(
    event is Manage)
}

/// The focused window of the monocle container, if there is one.
pub open spec fn monocle_window(workspace: WorkspaceView) -> Option<Option<u32>> {
    match workspace.monocle_container {
        Some(monocle) => Some(
            match monocle.focused() {
                Some(window) => Some(window.id),
                None => None,
            },
        ),
        None => None,
    }
}

/// A workspace with one more floating window.
pub open spec fn with_floating(workspace: WorkspaceView, window: Window) -> WorkspaceView {
    WorkspaceView {
        floating_windows: workspace.floating_windows.push(window),
        layer: WorkspaceLayer::Floating,
        ..workspace
    }
}

/// The operations that show a window that floats: in the middle, where that is asked for and
/// the workspace tiles.
pub open spec fn float_operations(
    workspace: WorkspaceView,
    window: Window,
    behaviour: WindowManagementBehaviour,
    stage: EventStage,
) -> Seq<Operation> {
    let placement = settings::float_placement(behaviour);
    (if placement != Placement::Unchanged && workspace.tile {
        seq![Operation::CenterWindow(window.id, placement == Placement::CenterAndResize)]
    } else {
        Seq::empty()
    }) + seq![Operation::UpdateFocusedWorkspace(false, false), Operation::ResumeEvent(stage)]
}

/// A window takes its place in the layout: a container of its own, or a place in the focused
/// one, which then has to be there.
pub open spec fn tile_plan(
    workspace: WorkspaceView,
    window: Window,
    behaviour: WindowManagementBehaviour,
    stage: EventStage,
) -> CommandPlanView {
    let opened = Operation::NoteWindowOpened(window.id);
    let tiling = Operation::SetWorkspaceLayer(WorkspaceLayer::Tiling);
    match behaviour.current_behaviour {
        WindowContainerBehaviour::Create => plan::plan_of(
            seq![
                opened,
                Operation::NewContainerForWindow(window),
                tiling,
                Operation::UpdateFocusedWorkspace(false, false),
                Operation::ResumeEvent(stage),
            ],
        ),
        WindowContainerBehaviour::Append => match workspace.focused() {
            Some(_) => plan::plan_of(
                seq![
                    opened,
                    Operation::AddWindowToFocusedContainer(
                        window,
                        workspace.window_hiding_position,
                    ),
                    tiling,
                    Operation::UpdateFocusedWorkspace(true, false),
                    Operation::ResumeEvent(stage),
                ],
            ),
            None => handling::plan_until(seq![opened], CommandError::NoFocusedContainer),
        },
    }
}

/// What placing a window that appeared comes to. A window that had a place in an earlier
/// session goes back there, as soon as its workspace is there; any other goes to the focused
/// workspace.
pub open spec fn place_effect(
    wm: WindowManagerView,
    event: WindowManagerEvent,
    sight: HandlingSightView,
) -> (WindowManagerView, CommandPlanView) {
    let window = sight.shown_window;
    let claimed = WindowManagerView {
        pending_session: session_left(wm.pending_session, window.id, sight.shown),
        ..wm
    };
    match session_place(wm.pending_session, window.id, sight.shown) {
        Some((m, w, slot)) => if m < wm.monitors.len() {
            (
                claimed,
                plan::plan_of(
                    seq![
                        Operation::EnsureWorkspace(m, w),
                        Operation::ResumeEvent(
                            EventStage::PutBack { monitor: m, workspace: w, slot },
                        ),
                    ],
                ),
            )
        } else {
            put_back_ending(claimed, Seq::empty(), sight)
        },
        None => match wm.workspace() {
            Err(error) => (claimed, plan::plan_failure(error)),
            Ok(workspace) => {
                let tiled = !floats(wm, event, sight);
                let stage = EventStage::Placed {
                    window: window.id,
                    tiled,
                    was_there: workspace.shows(window.id),
                    monocle: monocle_window(workspace),
                };
                if tiled {
                    (claimed, tile_plan(workspace, window, sight.behaviour, stage))
                } else {
                    (
                        claimed.with_workspace(with_floating(workspace, window)),
                        plan::plan_of(
                            float_operations(workspace, window, sight.behaviour, stage),
                        ),
                    )
                }
            },
        },
    }
}

/// The window is the only one on the workspace.
pub open spec fn is_alone(workspace: WorkspaceView) -> bool {
    ||| workspace.containers.len() == 1 && workspace.floating_windows.len() == 0
    ||| workspace.containers.len() == 0 && workspace.floating_windows.len() == 1
}

/// What follows once a window that appeared has been placed: it is focused if the workspace
/// was empty before, and hidden if it was there already behind a container in monocle mode.
pub open spec fn placed_plan(
    wm: WindowManagerView,
    window_id: u32,
    tiled: bool,
    was_there: bool,
    monocle: Option<Option<u32>>,
    sight: HandlingSightView,
) -> CommandPlanView {
    if !tiled && !was_there {
        handling::finished(plan::plan_nothing(), sight.border_window_id)
    } else {
        match wm.workspace() {
            Err(error) => plan::plan_failure(error),
            Ok(workspace) => {
                let focus: Seq<Operation> = if tiled && is_alone(workspace) {
                    seq![Operation::FocusWindow(window_id, wm.mouse_follows_focus)]
                } else {
                    Seq::empty()
                };
                let hide: Seq<Operation> = if was_there && monocle is Some && monocle != Some(
                    Some(window_id),
                ) && workspace.layer == WorkspaceLayer::Tiling {
                    seq![Operation::HideWindow(window_id, workspace.window_hiding_position)]
                } else {
                    Seq::empty()
                };
                handling::finished(plan::plan_of(focus + hide), sight.border_window_id)
            },
        }
    }
}

fn gather_candidates(window_ids: &Vec<u32>, main_window_id: Option<u32>) -> (all: Vec<u32>)
    ensures
        all@ == candidates(window_ids@, main_window_id),
{
    let mut all: Vec<u32> = Vec::new();
    let mut i: usize = 0;
    while i < window_ids.len()
        invariant
            i <= window_ids.len(),
            all@ == window_ids@.take(i as int),
        decreases window_ids.len() - i,
    {
        all.push(window_ids[i]);
        i += 1;
        assert(all@ =~= window_ids@.take(i as int));
    }
    assert(window_ids@.take(i as int) =~= window_ids@);
    if let Some(id) = main_window_id {
        if !window_manager::lists_id(&all, id) {
            all.push(id);
        }
    }
    all
}

fn tab_among_visible(sight: &HandlingSight, window_id: u32) -> (tab: Result<bool, CommandError>)
    ensures
        tab == tab_among(sight.deep_view(), window_id, 0),
{
    let mut i: usize = 0;
    while i < sight.visible_windows.len()
        invariant
            i <= sight.visible_windows.len(),
            tab_among(sight.deep_view(), window_id, 0) == tab_among(
                sight.deep_view(),
                window_id,
                i as int,
            ),
        decreases sight.visible_windows.len() - i,
    {
        let window = &sight.visible_windows[i];
        if handling::same_name(&window.application, &sight.application_name) {
            match (sight.frame(window_id), sight.frame(window.id)) {
                (Frame::At(tab), Frame::At(rect)) => {
                    if tab == rect && window.id == window_id {
                        return Ok(true);
                    }
                },
                _ => {
                    return Err(CommandError::UnreadableFrame);
                },
            }
        }
        i += 1;
    }
    Ok(false)
}

impl WindowManager {
    /// Which window of an application is the one that appeared.
    pub fn window_that_appeared(
        &self,
        window_ids: &Vec<u32>,
        main_window_id: Option<u32>,
    ) -> (window_id: Option<u32>)
        ensures
            window_id == appeared(self.deep_view(), window_ids@, main_window_id),
    {
        let all = gather_candidates(window_ids, main_window_id);
        let mut i: usize = 0;
        while i < all.len()
            invariant
                i <= all.len(),
                first_unmanaged(self.deep_view(), all@, 0) == first_unmanaged(
                    self.deep_view(),
                    all@,
                    i as int,
                ),
                all@ == candidates(window_ids@, main_window_id),
            decreases all.len() - i,
        {
            if !self.manages_window(all[i]) {
                return Some(all[i]);
            }
            i += 1;
        }
        if all.len() > 0 {
            Some(all[0])
        } else {
            None
        }
    }

    fn is_known_elsewhere(&self, window_id: u32) -> (elsewhere: bool)
        ensures
            elsewhere == known_elsewhere(self.deep_view(), window_id),
    {
        match (self.known_place(window_id), self.focused()) {
            (Some((m, w)), Some(monitor)) => m != self.focused_monitor || w
                != monitor.focused_workspace,
            _ => false,
        }
    }

    fn plan_appearance(
        &self,
        event: WindowManagerEvent,
        sight: &HandlingSight,
        debug: &mut RuleDebug,
    ) -> (plan: CommandPlan)
        ensures
            plan.deep_view() == appearance_plan(
                self.deep_view(),
                event,
                sight.deep_view(),
                old(debug).deep_view(),
            ),
            final(debug).deep_view() == show_findings(
                self.deep_view(),
                event,
                sight.deep_view(),
                old(debug).deep_view(),
            ),
    {
        if self.focused().is_none() {
            return CommandPlan::failed(CommandError::NoMonitor);
        }
        if !sight.application_found {
            return CommandPlan::failed(CommandError::NoApplication);
        }
        let id: u32 = match self.window_that_appeared(&sight.window_ids, sight.main_window_id) {
            Some(id) => id,
            None => {
                return handling::finish(CommandPlan::nothing(), sight.border_window_id);
            },
        };
        let here: bool = match self.workspace() {
            Ok(workspace) => workspace.contains_window(id),
            Err(error) => {
                return CommandPlan::failed(error);
            },
        };
        let mut tab: bool = false;
        if placement::keeps_tabs(&self.rules.tabbed_applications, &sight.application_name) {
            match tab_among_visible(sight, id) {
                Ok(found) => {
                    tab = found;
                },
                Err(error) => {
                    return CommandPlan::failed(error);
                },
            }
        }
        let elsewhere: bool = self.is_known_elsewhere(id);
        let mut operations: Vec<Operation> = Vec::new();
        if elsewhere {
            operations.push(Operation::HideUnmanagedWindow(id, geometry::DEFAULT_HIDING_POSITION));
        }
        let managed: bool = eligibility::should_manage(
            &self.rules,
            Some(event),
            sight.shown_is_valid,
            &sight.shown,
            debug,
        );
        proof {
            let hide: Seq<Operation> = if known_elsewhere(self.deep_view(), id) {
                seq![Operation::HideUnmanagedWindow(id, geometry::DEFAULT_HIDING_POSITION)]
            } else {
                Seq::empty()
            };
            assert(operations@ =~= hide);
        }
        if !tab && !here && !elsewhere && managed {
            operations.push(Operation::ObserveWindow(id));
            operations.push(Operation::ResumeEvent(EventStage::Place(id)));
            CommandPlan::of(operations)
        } else {
            handling::finish(CommandPlan::of(operations), sight.border_window_id)
        }
    }

    /// Handles the appearance of a window, until it is being observed.
    pub fn handle_show(
        &mut self,
        event: WindowManagerEvent,
        sight: &HandlingSight,
        debug: &mut RuleDebug,
    ) -> (plan: CommandPlan)
        ensures
            (final(self).deep_view(), plan.deep_view()) == show_effect(
                old(self).deep_view(),
                event,
                sight.deep_view(),
                old(debug).deep_view(),
            ),
            final(debug).deep_view() == show_findings(
                with_appearance(old(self).deep_view(), sight.now),
                event,
                sight.deep_view(),
                old(debug).deep_view(),
            ),
    {
        border_manager::note_window_appeared(&mut self.borders, sight.now);
        self.plan_appearance(event, sight, debug)
    }

    fn claim_session_place(&mut self, sight: &HandlingSight) -> (place: Option<
        (usize, usize, usize),
    >)
        ensures
            place == session_place(
                old(self).deep_view().pending_session,
                sight.shown_window.id,
                sight.deep_view().shown,
            ),
            final(self).deep_view() == (WindowManagerView {
                pending_session: session_left(
                    old(self).deep_view().pending_session,
                    sight.shown_window.id,
                    sight.deep_view().shown,
                ),
                ..old(self).deep_view()
            }),
    {
        proof {
            reveal_strlit("");
            assert(""@ =~= Seq::<char>::empty());
        }
        let exe: &str = match &sight.shown.exe {
            Some(exe) => exe.as_str(),
            None => "",
        };
        let title: &str = match &sight.shown.title {
            Some(title) => title.as_str(),
            None => "",
        };
        match &mut self.pending_session {
            Some(session) => session.take_match(sight.shown_window.id, exe, title),
            None => None,
        }
    }

    fn end_putting_back(&mut self, operations: Vec<Operation>, sight: &HandlingSight) -> (plan:
        CommandPlan)
        ensures
            (final(self).deep_view(), plan.deep_view()) == put_back_ending(
                old(self).deep_view(),
                operations@,
                sight.deep_view(),
            ),
    {
        let ghost first = operations@;
        let mut operations = operations;
        let spent: bool = match &self.pending_session {
            Some(session) => session.is_spent(),
            None => true,
        };
        if spent {
            self.pending_session = None;
        }
        operations.push(Operation::SaveSession);
        operations.push(Operation::UpdateBorders);
        assert(operations@ =~= first + seq![Operation::SaveSession, Operation::UpdateBorders]);
        handling::finish(CommandPlan::of(operations), sight.border_window_id)
    }

    /// Puts a window that appeared back where it was in an earlier session.
    pub fn put_back_shown(&mut self, m: usize, w: usize, slot: usize, sight: &HandlingSight) -> (
    plan: CommandPlan)
        ensures
            (final(self).deep_view(), plan.deep_view()) == put_back_effect(
                old(self).deep_view(),
                m,
                w,
                slot,
                sight.deep_view(),
            ),
    {
        let id: u32 = sight.shown_window.id;
        let mut operations: Vec<Operation> = Vec::new();
        if m < self.monitors.len() {
            let focused: usize = match self.focused() {
                Some(monitor) => monitor.focused_workspace,
                None => 0,
            };
            if m == self.focused_monitor && w == focused {
                operations.push(Operation::LoadFocusedWorkspace(m, self.mouse_follows_focus));
            } else {
                operations.push(
                    Operation::HideWindow(id, self.monitors[m].window_hiding_position),
                );
            }
        }
        proof {
            let wm = self.deep_view();
            let first: Seq<Operation> = if m < wm.monitors.len() {
                seq![
                    if m == wm.focused_monitor && w == wm.workspace_idx_or_zero() {
                        Operation::LoadFocusedWorkspace(m, wm.mouse_follows_focus)
                    } else {
                        Operation::HideWindow(id, wm.monitors[m as int].window_hiding_position)
                    },
                ]
            } else {
                Seq::empty()
            };
            assert(operations@ =~= first);
        }
        self.place_restored(
            m,
            w,
            Some(slot),
            sight.shown_window.clone(),
            sight.container_id.clone(),
        );
        self.end_putting_back(operations, sight)
    }

    fn should_float(&self, event: WindowManagerEvent, sight: &HandlingSight) -> (float: bool)
        ensures
            float == floats(self.deep_view(), event, sight.deep_view()),
    {
        let asked_to_manage: bool = match event {
            WindowManagerEvent::Manage(_, _, _) => true,
            _ => false,
        };
        sight.behaviour.float_override || sight.behaviour.floating_layer_override
            || !asked_to_manage && eligibility::is_asked_for(
            &self.rules.floating_applications,
            &self.rules,
            &sight.shown,
        )
    }

    /// Places a window that appeared and is being observed.
    pub fn place_shown(&mut self, event: WindowManagerEvent, sight: &HandlingSight) -> (plan:
        CommandPlan)
        ensures
            (final(self).deep_view(), plan.deep_view()) == place_effect(
                old(self).deep_view(),
                event,
                sight.deep_view(),
            ),
    {
        if let Some((m, w, slot)) = self.claim_session_place(sight) {
            let mut operations: Vec<Operation> = Vec::new();
            if m >= self.monitors.len() {
                assert(operations@ =~= Seq::empty());
                return self.end_putting_back(operations, sight);
            }
            let stage = EventStage::PutBack { monitor: m, workspace: w, slot };
            operations.push(Operation::EnsureWorkspace(m, w));
            operations.push(Operation::ResumeEvent(stage));
            assert(operations@ =~= seq![
                Operation::EnsureWorkspace(m, w),
                Operation::ResumeEvent(stage),
            ]);
            return CommandPlan::of(operations);
        }
        let float: bool = self.should_float(event, sight);
        let stage = match self.workspace() {
            Err(error) => {
                return CommandPlan::failed(error);
            },
            Ok(workspace) => {
                let stage = EventStage::Placed {
                    window: sight.shown_window.id,
                    tiled: !float,
                    was_there: workspace.contains_window(sight.shown_window.id),
                    monocle: monocle_window_id(workspace),
                };
                if !float {
                    return tile_window(workspace, &sight.shown_window, sight.behaviour, stage);
                }
                stage
            },
        };
        match self.workspace_mut() {
            Err(error) => CommandPlan::failed(error),
            Ok(workspace) => CommandPlan::of(
                float_window(workspace, &sight.shown_window, sight.behaviour, stage),
            ),
        }
    }

    /// Goes on once a window that appeared has been placed.
    pub fn settle_shown(
        &self,
        window_id: u32,
        tiled: bool,
        was_there: bool,
        monocle: Option<Option<u32>>,
        sight: &HandlingSight,
    ) -> (plan: CommandPlan)
        ensures
            plan.deep_view() == placed_plan(
                self.deep_view(),
                window_id,
                tiled,
                was_there,
                monocle,
                sight.deep_view(),
            ),
    {
        if !tiled && !was_there {
            return handling::finish(CommandPlan::nothing(), sight.border_window_id);
        }
        let workspace = match self.workspace() {
            Ok(workspace) => workspace,
            Err(error) => {
                return CommandPlan::failed(error);
            },
        };
        let tiling: bool = match workspace.layer {
            WorkspaceLayer::Tiling => true,
            WorkspaceLayer::Floating => false,
        };
        let behind: bool = match monocle {
            Some(Some(id)) => id != window_id,
            Some(None) => true,
            None => false,
        };
        let containers: usize = workspace.containers.len();
        let floating: usize = workspace.floating_windows.len();
        let mut operations: Vec<Operation> = Vec::new();
        if tiled && (containers == 1 && floating == 0 || containers == 0 && floating == 1) {
            operations.push(Operation::FocusWindow(window_id, self.mouse_follows_focus));
        }
        if was_there && behind && tiling {
            operations.push(Operation::HideWindow(window_id, workspace.window_hiding_position));
        }
        proof {
            let focus: Seq<Operation> = if tiled && is_alone(workspace.deep_view()) {
                seq![Operation::FocusWindow(window_id, self.mouse_follows_focus)]
            } else {
                Seq::empty()
            };
            let hide: Seq<Operation> = if was_there && behind && tiling {
                seq![Operation::HideWindow(window_id, workspace.window_hiding_position)]
            } else {
                Seq::empty()
            };
            assert(operations@ =~= focus + hide);
        }
        handling::finish(CommandPlan::of(operations), sight.border_window_id)
    }
}

fn monocle_window_id(workspace: &Workspace) -> (id: Option<Option<u32>>)
    ensures
        id == monocle_window(workspace.deep_view()),
{
    match &workspace.monocle_container {
        Some(monocle) => match monocle.focused() {
            Some(window) => Some(Some(window.id)),
            None => Some(None),
        },
        None => None,
    }
}

fn float_window(
    workspace: &mut Workspace,
    window: &Window,
    behaviour: WindowManagementBehaviour,
    stage: EventStage,
) -> (operations: Vec<Operation>)
    ensures
        final(workspace).deep_view() == with_floating(old(workspace).deep_view(), *window),
        operations@ == float_operations(old(workspace).deep_view(), *window, behaviour, stage),
{
    let ghost before = workspace.deep_view();
    let placement = behaviour.placement();
    workspace.floating_windows.push(window.clone());
    workspace.layer = WorkspaceLayer::Floating;
    let mut operations: Vec<Operation> = Vec::new();
    if placement.should_center() && workspace.tile {
        operations.push(Operation::CenterWindow(window.id, placement.should_resize()));
    }
    operations.push(Operation::UpdateFocusedWorkspace(false, false));
    operations.push(Operation::ResumeEvent(stage));
    assert(operations@ =~= float_operations(before, *window, behaviour, stage));
    operations
}

fn tile_window(
    workspace: &Workspace,
    window: &Window,
    behaviour: WindowManagementBehaviour,
    stage: EventStage,
) -> (plan: CommandPlan)
    ensures
        plan.deep_view() == tile_plan(workspace.deep_view(), *window, behaviour, stage),
{
    let mut operations: Vec<Operation> = vec![Operation::NoteWindowOpened(window.id)];
    match behaviour.current_behaviour {
        WindowContainerBehaviour::Create => {
            operations.push(Operation::NewContainerForWindow(window.clone()));
            operations.push(Operation::SetWorkspaceLayer(WorkspaceLayer::Tiling));
            operations.push(Operation::UpdateFocusedWorkspace(false, false));
        },
        WindowContainerBehaviour::Append => {
            if workspace.focused().is_none() {
                assert(operations@ =~= seq![Operation::NoteWindowOpened(window.id)]);
                return handling::until(operations, CommandError::NoFocusedContainer);
            }
            operations.push(
                Operation::AddWindowToFocusedContainer(
                    window.clone(),
                    workspace.window_hiding_position,
                ),
            );
            operations.push(Operation::SetWorkspaceLayer(WorkspaceLayer::Tiling));
            operations.push(Operation::UpdateFocusedWorkspace(true, false));
        },
    }
    operations.push(Operation::ResumeEvent(stage));
    assert(operations@ =~= tile_plan(
        workspace.deep_view(),
        *window,
        behaviour,
        stage,
    ).operations);
    CommandPlan::of(operations)
}

/// A window that is already on the focused workspace is not placed a second time, whatever
/// else is known of it.
pub proof fn law_a_window_is_placed_once(
    wm: WindowManagerView,
    event: WindowManagerEvent,
    sight: HandlingSightView,
    debug: RuleDebugView,
    id: u32,
)
    requires
        wm.workspace() matches Ok(workspace) && workspace.shows(id),
        appeared(wm, sight.window_ids, sight.main_window_id) == Some(id),
    ensures
        !show_effect(wm, event, sight, debug).1.operations.contains(
            Operation::ResumeEvent(EventStage::Place(id)),
        ),
{
    let noted = with_appearance(wm, sight.now);
    lemma_appeared_ignores_the_time(wm, sight);
    assert(noted.workspace() == wm.workspace());
}

proof fn lemma_first_unmanaged_ignores_the_time(
    wm: WindowManagerView,
    now: u64,
    candidates: Seq<u32>,
    from: int,
)
    ensures
        first_unmanaged(with_appearance(wm, now), candidates, from) == first_unmanaged(
            wm,
            candidates,
            from,
        ),
    decreases candidates.len() - from,
{
    if 0 <= from < candidates.len() {
        let noted = with_appearance(wm, now);
        let id = candidates[from];
        assert(noted.monitors == wm.monitors);
        if wm.shows(id) {
            let m = choose|m: int|
                0 <= m < wm.monitors.len() && window_manager::monitor_shows(
                    #[trigger] wm.monitors[m],
                    id,
                );
            assert(window_manager::monitor_shows(noted.monitors[m], id));
        }
        lemma_first_unmanaged_ignores_the_time(wm, now, candidates, from + 1);
    }
}

proof fn lemma_appeared_ignores_the_time(wm: WindowManagerView, sight: HandlingSightView)
    ensures
        appeared(with_appearance(wm, sight.now), sight.window_ids, sight.main_window_id)
            == appeared(wm, sight.window_ids, sight.main_window_id),
{
    lemma_first_unmanaged_ignores_the_time(
        wm,
        sight.now,
        candidates(sight.window_ids, sight.main_window_id),
        0,
    );
}

/// A window that nothing shows yet is never passed over for one that is shown: if any window
/// of the application is new, the one that appeared is new.
pub proof fn law_a_new_window_is_noticed(
    wm: WindowManagerView,
    window_ids: Seq<u32>,
    main_window_id: Option<u32>,
    i: int,
)
    requires
        0 <= i < candidates(window_ids, main_window_id).len(),
        !wm.shows(candidates(window_ids, main_window_id)[i]),
    ensures
        appeared(wm, window_ids, main_window_id) matches Some(id) && !wm.shows(id),
{
    lemma_first_unmanaged_is_unmanaged(wm, candidates(window_ids, main_window_id), 0, i);
}

proof fn lemma_first_unmanaged_is_unmanaged(
    wm: WindowManagerView,
    candidates: Seq<u32>,
    from: int,
    i: int,
)
    requires
        0 <= from <= i < candidates.len(),
        !wm.shows(candidates[i]),
    ensures
        first_unmanaged(wm, candidates, from) matches Some(id) && !wm.shows(id),
    decreases candidates.len() - from,
{
    if wm.shows(candidates[from]) {
        lemma_first_unmanaged_is_unmanaged(wm, candidates, from + 1, i);
    }
}

/// A window that comes up after a login and had a place in the earlier session is on its own
/// workspace once it has been put back, and in its own slot where there are that many
/// containers.
pub proof fn law_a_late_window_is_put_back(
    wm: WindowManagerView,
    m: usize,
    w: usize,
    slot: usize,
    sight: HandlingSightView,
)
    requires
        windows::is_there(wm, (m, w)),
    ensures
        ({
            let before = wm.monitors[m as int].workspaces[w as int];
            let after = put_back_effect(
                wm,
                m,
                w,
                slot,
                sight,
            ).0.monitors[m as int].workspaces[w as int];
            &&& after.shows(sight.shown_window.id)
            &&& slot <= before.containers.len() ==> after.containers[slot as int]
                == windows::single_container(sight.container_id, sight.shown_window)
            &&& forall|id: u32| #[trigger] before.shows(id) ==> after.shows(id)
        }),
{
    let before = wm.monitors[m as int].workspaces[w as int];
    let container = windows::single_container(sight.container_id, sight.shown_window);
    let after = put_back_effect(wm, m, w, slot, sight).0.monitors[m as int].workspaces[w as int];
    let at = before.landing(Some(slot));
    assert(after == before.with_container(Some(slot), container));
    assert(container.windows[0].id == sight.shown_window.id);
    assert(window_manager::has_id(after.containers[at].windows, sight.shown_window.id));
    assert forall|id: u32| #[trigger] before.shows(id) implies after.shows(id) by {
        if exists|c: int|
            0 <= c < before.containers.len() && window_manager::has_id(
                (#[trigger] before.containers[c]).windows,
                id,
            ) {
            let c = choose|c: int|
                0 <= c < before.containers.len() && window_manager::has_id(
                    (#[trigger] before.containers[c]).windows,
                    id,
                );
            if c < at {
                assert(window_manager::has_id(after.containers[c].windows, id));
            } else {
                assert(window_manager::has_id(after.containers[c + 1].windows, id));
            }
        }
    }
}

/// A window that comes up and has a place in the earlier session is sent there, and its entry is
/// used up.
pub proof fn law_a_late_window_is_sent_to_its_place(
    wm: WindowManagerView,
    event: WindowManagerEvent,
    sight: HandlingSightView,
    m: usize,
    w: usize,
    slot: usize,
)
    requires
        session_place(wm.pending_session, sight.shown_window.id, sight.shown) == Some((m, w, slot)),
        m < wm.monitors.len(),
    ensures
        ({
            let (after, plan) = place_effect(wm, event, sight);
            &&& after == (WindowManagerView { pending_session: after.pending_session, ..wm })
            &&& after.pending_session->0.windows.len() == wm.pending_session->0.windows.len() - 1
            &&& plan.failure is None
            &&& plan.operations == seq![
                Operation::EnsureWorkspace(m, w),
                Operation::ResumeEvent(EventStage::PutBack { monitor: m, workspace: w, slot }),
            ]
        }),
{
    session::law_an_entry_is_claimed_once(
        wm.pending_session->0,
        sight.shown_window.id,
        handling::name_or_empty(sight.shown.exe),
        handling::name_or_empty(sight.shown.title),
    );
}

} // verus!
