//! Which events are let in, and which windows are noticed.

use crate::eligibility::RuleDebugView;
use crate::eligibility;
use crate::events::SystemNotification;
use crate::events::WindowManagerEvent;
use crate::geometry;
use crate::operation::EventStage;
use crate::operation::Operation;
use crate::process_command::acting;
use crate::process_event::EventSightView;
use crate::process_event::dragging;
use crate::process_event::handling::Frame;
use crate::process_event::handling::HandlingSightView;
use crate::process_event::noticing;
use crate::process_event::show;
use crate::process_event;
use crate::window_manager::CommandError;
use crate::window_manager::WindowManagerView;
use crate::window_manager::WorkspaceView;
use vstd::prelude::*;

verus! {

/// An event is about windows: not about spaces and not about the screen.
pub open spec fn is_about_windows(event: WindowManagerEvent) -> bool {
    !(event is SpaceChange) && !(event is ScreenLock) && !(event is ScreenUnlock)
}

/// The space that is managed and the one on the screen are known to be two.
pub open spec fn is_elsewhere(wm: WindowManagerView, sight: EventSightView) -> bool {
    &&& wm.space_id is Some
    &&& sight.current_space_id is Some
    &&& wm.space_id->0 != sight.current_space_id->0
}

/// An event about windows is dropped while everything is paused, and takes the borders away while
/// another space is on the screen; neither changes anything.
pub proof fn law_events_are_dropped_while_paused_or_elsewhere(
    wm: WindowManagerView,
    event: WindowManagerEvent,
    sight: EventSightView,
    debug: RuleDebugView,
)
    requires
        is_about_windows(event),
    ensures
        ({
            let (after, plan) = process_event::event_effect(wm, event, sight, debug);
            &&& wm.is_paused ==> {
                &&& after == wm
                &&& plan.failure is None
                &&& plan.operations.len() == 0
            }
            &&& !wm.is_paused && is_elsewhere(wm, sight) ==> {
                &&& after == wm
                &&& plan.failure is None
                &&& plan.operations =~= seq![Operation::DestroyAllBorders]
            }
        }),
{
}

/// An event about windows that is neither dropped nor elsewhere needs its application. It is dropped
/// where the main window of that is not managed or was asked not to be, and otherwise handled after
/// the workspace rules have been enforced.
pub proof fn law_events_of_managed_windows_are_handled(
    wm: WindowManagerView,
    event: WindowManagerEvent,
    sight: EventSightView,
    debug: RuleDebugView,
)
    requires
        is_about_windows(event),
        !wm.is_paused,
        !is_elsewhere(wm, sight),
    ensures
        ({
            let (after, plan) = process_event::event_effect(wm, event, sight, debug);
            &&& after == (WindowManagerView { memory: after.memory, ..wm })
            &&& sight.application is None ==> dragging::fails(plan, CommandError::NoApplication)
            &&& sight.application matches Some(application) ==> {
                &&& plan.failure is None
                &&& plan.reply is None
                &&& plan.operations =~= match application.main_window {
                    Some(window) => if wm.unmanaged_window_ids.contains(window.id)
                        || !eligibility::managed(
                        wm.rules,
                        Some(event),
                        window.is_valid,
                        window.attributes,
                        debug,
                    ) {
                        Seq::empty()
                    } else {
                        seq![Operation::EnforceWorkspaceRules, Operation::HandleEvent]
                    },
                    None => seq![Operation::EnforceWorkspaceRules, Operation::HandleEvent],
                }
            }
        }),
{
}

/// When a space comes up, borders are drawn again if it is the one that is managed, and taken away
/// if it is another.
pub proof fn law_borders_come_and_go_with_spaces(
    wm: WindowManagerView,
    notification: SystemNotification,
    process_id: i32,
    sight: EventSightView,
    debug: RuleDebugView,
)
    requires
        !wm.is_paused,
        wm.space_id is Some,
        sight.current_space_id is Some,
    ensures
        ({
            let (after, plan) = process_event::event_effect(
                wm,
                WindowManagerEvent::SpaceChange(notification, process_id),
                sight,
                debug,
            );
            &&& after == wm
            &&& plan.failure is None
            &&& plan.operations =~= seq![
                if wm.space_id->0 == sight.current_space_id->0 {
                    Operation::UpdateBorders
                } else {
                    Operation::DestroyAllBorders
                },
            ]
        }),
{
}

/// Locking the screen pauses everything and unlocking it ends that, where the report comes from the
/// application that locks the screen; another application changes nothing by it.
pub proof fn law_the_screen_lock_pauses(
    wm: WindowManagerView,
    notification: SystemNotification,
    process_id: i32,
    sight: EventSightView,
    debug: RuleDebugView,
)
    requires
        sight.application is Some,
    ensures
        ({
            let locks = sight.application->0.name == Some("loginwindow"@);
            let (locked, locking) = process_event::event_effect(
                wm,
                WindowManagerEvent::ScreenLock(notification, process_id),
                sight,
                debug,
            );
            let (unlocked, unlocking) = process_event::event_effect(
                wm,
                WindowManagerEvent::ScreenUnlock(notification, process_id),
                sight,
                debug,
            );
            &&& locked.is_paused == (wm.is_paused || locks)
            &&& unlocked.is_paused == (wm.is_paused && !locks)
            &&& locked.monitors == wm.monitors
            &&& unlocked.monitors == wm.monitors
            &&& locks ==> locking.failure is None && locking.operations.len() == 0
        }),
{
}

/// What is remembered of where a window is: nothing once it begins to be moved or resized by hand;
/// once it has been, nothing unless the report was owed, which then is owed no longer. Of any other
/// window, and after any other event, it is what it was.
pub proof fn law_only_owed_reports_leave_the_memory(
    wm: WindowManagerView,
    event: WindowManagerEvent,
    sight: EventSightView,
    debug: RuleDebugView,
    other: u32,
)
    requires
        is_about_windows(event),
        !wm.is_paused,
        !is_elsewhere(wm, sight),
    ensures
        ({
            let before = wm.memory;
            let now = process_event::event_effect(wm, event, sight, debug).0.memory;
            &&& event matches WindowManagerEvent::MoveStart(_, _, id) ==> {
                &&& !now.confirmed_positions.contains_key(id)
                &&& !now.self_move_echoes.contains_key(id)
            }
            &&& event matches WindowManagerEvent::ResizeStart(_, _, id) ==> {
                &&& !now.confirmed_positions.contains_key(id)
                &&& !now.self_move_echoes.contains_key(id)
            }
            &&& crate::events::window_of(event) != Some(other) ==> {
                &&& now.confirmed_positions.contains_key(other)
                    == before.confirmed_positions.contains_key(other)
                &&& now.confirmed_positions[other] == before.confirmed_positions[other]
                &&& now.self_move_echoes.contains_key(other)
                    == before.self_move_echoes.contains_key(other)
                &&& now.self_move_echoes[other] == before.self_move_echoes[other]
            }
            &&& now.titles == before.titles
            &&& now.restore_positions == before.restore_positions
            &&& !(event is MoveStart) && !(event is ResizeStart) && !(event is MoveEnd) && !(
            event is ResizeEnd) ==> now == before
        }),
{
}

/// A report that a window has been moved or resized is believed if it is owed and was not made by
/// hand: the window stays known where it was put and one report less is owed. Any other makes it
/// unknown where the window is.
pub proof fn law_reports_that_are_owed_are_used_up(
    wm: WindowManagerView,
    notification: SystemNotification,
    process_id: i32,
    id: u32,
    resized: bool,
    sight: EventSightView,
    debug: RuleDebugView,
)
    requires
        !wm.is_paused,
        !is_elsewhere(wm, sight),
    ensures
        ({
            let before = wm.memory;
            let now = process_event::event_effect(
                wm,
                if resized {
                    WindowManagerEvent::ResizeEnd(notification, process_id, id)
                } else {
                    WindowManagerEvent::MoveEnd(notification, process_id, id)
                },
                sight,
                debug,
            ).0.memory;
            if !(notification is Manual) && before.self_move_echoes.contains_key(id)
                && before.self_move_echoes[id] > 0 {
                &&& now.confirmed_positions == before.confirmed_positions
                &&& now.self_move_echoes =~= before.self_move_echoes.insert(
                    id,
                    (before.self_move_echoes[id] - 1) as u8,
                )
            } else {
                &&& !now.confirmed_positions.contains_key(id)
                &&& !now.self_move_echoes.contains_key(id)
            }
        }),
{
}

/// A window is one of an application that may have appeared: it is listed, or is the main one.
pub open spec fn is_candidate(sight: HandlingSightView, id: u32) -> bool {
    sight.window_ids.contains(id) || sight.main_window_id == Some(id)
}

/// A window is on some workspace.
pub open spec fn is_anywhere(wm: WindowManagerView, id: u32) -> bool {
    exists|m: int, w: int|
        0 <= m < wm.monitors.len() && 0 <= w < wm.monitors[m].workspaces.len() && dragging::is_on(
            #[trigger] wm.monitors[m].workspaces[w],
            id,
        )
}

proof fn lemma_anywhere(wm: WindowManagerView, id: u32)
    ensures
        is_anywhere(wm, id) == wm.shows(id),
{
    if is_anywhere(wm, id) {
        let (m, w) = choose|m: int, w: int|
            0 <= m < wm.monitors.len() && 0 <= w < wm.monitors[m].workspaces.len()
                && dragging::is_on(#[trigger] wm.monitors[m].workspaces[w], id);
        dragging::lemma_on(wm.monitors[m].workspaces[w], id);
        assert(crate::window_manager::monitor_shows(wm.monitors[m], id));
    }
    if wm.shows(id) {
        let m = choose|m: int|
            0 <= m < wm.monitors.len() && crate::window_manager::monitor_shows(
                #[trigger] wm.monitors[m],
                id,
            );
        let w = choose|w: int|
            0 <= w < wm.monitors[m].workspaces.len() && (
            #[trigger] wm.monitors[m].workspaces[w]).shows(id);
        dragging::lemma_on(wm.monitors[m].workspaces[w], id);
    }
}

proof fn lemma_first_unmanaged(wm: WindowManagerView, candidates: Seq<u32>, from: int)
    requires
        0 <= from,
    ensures
        match show::first_unmanaged(wm, candidates, from) {
            Some(id) => candidates.contains(id) && !wm.shows(id),
            None => forall|i: int|
                from <= i < candidates.len() ==> wm.shows(#[trigger] candidates[i]),
        },
    decreases candidates.len() - from,
{
    if from < candidates.len() {
        if wm.shows(candidates[from]) {
            lemma_first_unmanaged(wm, candidates, from + 1);
        } else {
            assert(candidates.contains(candidates[from]));
        }
    }
}

/// The window that appeared is one that may have; it is on no workspace yet if there is such a
/// window; and there is none only if the application has no window at all.
pub proof fn law_the_window_that_appeared_is_new_if_any_is(
    wm: WindowManagerView,
    sight: HandlingSightView,
    other: u32,
)
    ensures
        match show::appeared(wm, sight.window_ids, sight.main_window_id) {
            Some(id) => {
                &&& is_candidate(sight, id)
                &&& is_candidate(sight, other) && !is_anywhere(wm, other) ==> !is_anywhere(wm, id)
            },
            None => !is_candidate(sight, other),
        },
{
    let all = show::candidates(sight.window_ids, sight.main_window_id);
    lemma_first_unmanaged(wm, all, 0);
    assert forall|id: u32| all.contains(id) == #[trigger] is_candidate(sight, id) by {
        if sight.window_ids.contains(id) {
            let i = choose|i: int| 0 <= i < sight.window_ids.len() && sight.window_ids[i] == id;
            assert(all[i] == id);
        }
        if sight.main_window_id == Some(id) && !sight.window_ids.contains(id) {
            assert(all[sight.window_ids.len() as int] == id);
        }
        if all.contains(id) {
            let i = choose|i: int| 0 <= i < all.len() && all[i] == id;
            if i < sight.window_ids.len() {
                assert(sight.window_ids[i] == id);
            }
        }
    }
    lemma_anywhere(wm, other);
    if let Some(id) = show::appeared(wm, sight.window_ids, sight.main_window_id) {
        lemma_anywhere(wm, id);
        if show::first_unmanaged(wm, all, 0) is None {
            assert(all.contains(all[0]));
            if all.contains(other) {
                let i = choose|i: int| 0 <= i < all.len() && all[i] == other;
                assert(wm.shows(all[i]));
            }
        }
        assert(is_candidate(sight, id));
    } else {
        assert(is_candidate(sight, other) == all.contains(other));
    }
}

/// A window that appeared in an application without tabs is observed and then placed if it is on no
/// workspace that is focused, is not known to be elsewhere and is managed. One that is known to be
/// elsewhere is hidden at the default place, and any other is left alone. When it appeared is noted.
pub proof fn law_a_window_that_appeared_is_placed(
    wm: WindowManagerView,
    event: WindowManagerEvent,
    workspace: WorkspaceView,
    sight: HandlingSightView,
    debug: RuleDebugView,
    id: u32,
)
    requires
        event is Show || event is Manage,
        acting::is_in_focus(wm, workspace),
        sight.application_found,
        !noticing::keeps_tabs(wm, sight),
        show::appeared(wm, sight.window_ids, sight.main_window_id) == Some(id),
    ensures
        ({
            let (after, plan) = process_event::handling_effect(wm, event, sight, debug);
            let here = (
                wm.focused_monitor,
                wm.monitors[wm.focused_monitor as int].focused_workspace,
            );
            let elsewhere = wm.known_window_ids.contains_key(id) && wm.known_window_ids[id] != here;
            &&& after.borders.last_window_appeared == sight.now
            &&& after == (WindowManagerView { borders: after.borders, ..wm })
            &&& plan.failure is None
            &&& elsewhere ==> dragging::does(
                plan,
                seq![Operation::HideUnmanagedWindow(id, geometry::DEFAULT_HIDING_POSITION)],
                sight.border_window_id,
            )
            &&& !elsewhere && (dragging::is_on(workspace, id) || !eligibility::managed(
                wm.rules,
                Some(event),
                sight.shown_is_valid,
                sight.shown,
                debug,
            )) ==> dragging::does(plan, Seq::empty(), sight.border_window_id)
            &&& !elsewhere && !dragging::is_on(workspace, id) && eligibility::managed(
                wm.rules,
                Some(event),
                sight.shown_is_valid,
                sight.shown,
                debug,
            ) ==> plan.operations =~= seq![
                Operation::ObserveWindow(id),
                Operation::ResumeEvent(EventStage::Place(id)),
            ]
        }),
{
    dragging::lemma_on(workspace, id);
    let noted = show::with_appearance(wm, sight.now);
    assert(noted.monitors == wm.monitors);
    lemma_shows_alike(noted, wm, show::candidates(sight.window_ids, sight.main_window_id), 0);
}

proof fn lemma_shows_alike(
    a: WindowManagerView,
    b: WindowManagerView,
    candidates: Seq<u32>,
    from: int,
)
    requires
        0 <= from,
        a.monitors == b.monitors,
    ensures
        show::first_unmanaged(a, candidates, from) == show::first_unmanaged(b, candidates, from),
    decreases candidates.len() - from,
{
    if from < candidates.len() {
        assert(a.shows(candidates[from]) == b.shows(candidates[from]));
        lemma_shows_alike(a, b, candidates, from + 1);
    }
}

/// A window that is showing is one of the application that an event is about.
pub open spec fn is_of_application(sight: HandlingSightView, i: int) -> bool {
    let name = sight.visible_windows[i].application.deep_view();
    let own: Seq<char> = if name is Some {
        name->0
    } else {
        Seq::empty()
    };
    let told: Seq<char> = if sight.application_name is Some {
        sight.application_name->0
    } else {
        Seq::empty()
    };
    own == told
}

/// Where every window of the application that is showing is, could be read.
pub open spec fn are_framed(sight: HandlingSightView) -> bool {
    forall|i: int|
        0 <= i < sight.visible_windows.len() && is_of_application(sight, i)
            ==> #[trigger] process_event::handling::frame_of(
            sight.frames,
            sight.visible_windows[i].id,
            0,
        ) is At
}

/// A window of the application that is showing goes by an id.
pub open spec fn is_showing(sight: HandlingSightView, id: u32) -> bool {
    exists|i: int|
        0 <= i < sight.visible_windows.len() && #[trigger] is_of_application(sight, i)
            && sight.visible_windows[i].id == id
}

proof fn lemma_tab_among(sight: HandlingSightView, id: u32, from: int)
    requires
        0 <= from,
        are_framed(sight),
        process_event::handling::frame_of(sight.frames, id, 0) is At,
    ensures
        show::tab_among(sight, id, from) == Ok::<bool, CommandError>(
            exists|i: int|
                from <= i < sight.visible_windows.len() && #[trigger] is_of_application(sight, i)
                    && sight.visible_windows[i].id == id,
        ),
    decreases sight.visible_windows.len() - from,
{
    if from < sight.visible_windows.len() {
        lemma_tab_among(sight, id, from + 1);
        let own = process_event::handling::name_or_empty(
            sight.visible_windows[from].application.deep_view(),
        );
        let told = process_event::handling::name_or_empty(sight.application_name);
        assert(is_of_application(sight, from) == (own == told));
        if is_of_application(sight, from) {
            assert(process_event::handling::frame_of(
                sight.frames,
                sight.visible_windows[from].id,
                0,
            ) is At);
        }
    }
}

/// A window that appeared in an application with tabs is left alone where a window of that
/// application which is showing goes by its id; where none does it is placed like any other.
pub proof fn law_a_new_tab_is_left_alone(
    wm: WindowManagerView,
    event: WindowManagerEvent,
    workspace: WorkspaceView,
    sight: HandlingSightView,
    debug: RuleDebugView,
    id: u32,
    frame: geometry::Rect,
)
    requires
        event is Show || event is Manage,
        acting::is_in_focus(wm, workspace),
        sight.application_found,
        noticing::keeps_tabs(wm, sight),
        show::appeared(wm, sight.window_ids, sight.main_window_id) == Some(id),
        !wm.known_window_ids.contains_key(id),
        !dragging::is_on(workspace, id),
        are_framed(sight),
        dragging::is_framed(sight.frames, id, Frame::At(frame)),
    ensures
        ({
            let plan = process_event::handling_effect(wm, event, sight, debug).1;
            if is_showing(sight, id) || !eligibility::managed(
                wm.rules,
                Some(event),
                sight.shown_is_valid,
                sight.shown,
                debug,
            ) {
                dragging::does(plan, Seq::empty(), sight.border_window_id)
            } else {
                &&& plan.failure is None
                &&& plan.operations =~= seq![
                    Operation::ObserveWindow(id),
                    Operation::ResumeEvent(EventStage::Place(id)),
                ]
            }
        }),
{
    let noted = show::with_appearance(wm, sight.now);
    lemma_shows_alike(noted, wm, show::candidates(sight.window_ids, sight.main_window_id), 0);
    dragging::lemma_framed(sight.frames, id, Frame::At(frame));
    dragging::lemma_on(workspace, id);
    lemma_tab_among(sight, id, 0);
}


/// Something is found out about the main window of an application by every event about windows that is
/// neither dropped nor elsewhere, and by no other.
pub proof fn law_events_that_are_let_in_look_at_the_main_window(
    wm: WindowManagerView,
    event: WindowManagerEvent,
    sight: EventSightView,
    debug: RuleDebugView,
)
    requires
        is_about_windows(event),
    ensures
        ({
            let now = process_event::event_findings(wm, event, sight, debug);
            if !wm.is_paused && !is_elsewhere(wm, sight) && sight.application is Some
                && sight.application->0.main_window is Some {
                let window = sight.application->0.main_window->0;
                now == eligibility::managed_findings(
                    wm.rules,
                    Some(event),
                    window.is_valid,
                    window.attributes,
                    debug,
                )
            } else {
                now == debug
            }
        }),
{
}

/// Something is found out about the window that appeared while its event is handled, if its application
/// is there and has no tabs; and nothing by any other event.
pub proof fn law_a_window_that_appeared_is_looked_at(
    wm: WindowManagerView,
    event: WindowManagerEvent,
    workspace: WorkspaceView,
    sight: HandlingSightView,
    debug: RuleDebugView,
)
    requires
        acting::is_in_focus(wm, workspace),
        !noticing::keeps_tabs(wm, sight),
    ensures
        ({
            let now = process_event::handling_findings(wm, event, sight, debug);
            if (event is Show || event is Manage) && sight.application_found && (
            sight.main_window_id is Some || sight.window_ids.len() > 0) {
                now == eligibility::managed_findings(
                    wm.rules,
                    Some(event),
                    sight.shown_is_valid,
                    sight.shown,
                    debug,
                )
            } else {
                now == debug
            }
        }),
{
    let noted = show::with_appearance(wm, sight.now);
    let all = show::candidates(sight.window_ids, sight.main_window_id);
    lemma_first_unmanaged(noted, all, 0);
    if sight.main_window_id is Some {
        assert(all.len() > 0) by {
            if sight.window_ids.contains(sight.main_window_id->0) {
                let i = choose|i: int|
                    0 <= i < sight.window_ids.len() && sight.window_ids[i]
                        == sight.main_window_id->0;
            }
        }
    }
    if all.len() == 0 {
        assert(show::first_unmanaged(noted, all, 0) is None);
    }
}


/// The appearance of a window is an error where no monitor has the focus and where its application is
/// not there; and where it is, but has no window, nothing happens. When it appeared is noted each time.
pub proof fn law_an_appearance_needs_an_application(
    wm: WindowManagerView,
    event: WindowManagerEvent,
    sight: HandlingSightView,
    debug: RuleDebugView,
)
    requires
        event is Show || event is Manage,
    ensures
        ({
            let (after, plan) = process_event::handling_effect(wm, event, sight, debug);
            &&& after.borders.last_window_appeared == sight.now
            &&& after == (WindowManagerView { borders: after.borders, ..wm })
            &&& wm.focused_monitor >= wm.monitors.len() ==> dragging::fails(
                plan,
                CommandError::NoMonitor,
            )
            &&& wm.focused_monitor < wm.monitors.len() && !sight.application_found
                ==> dragging::fails(plan, CommandError::NoApplication)
            &&& wm.focused_monitor < wm.monitors.len() && sight.application_found
                && sight.main_window_id is None && sight.window_ids.len() == 0 ==> dragging::does(
                plan,
                Seq::empty(),
                sight.border_window_id,
            )
        }),
{
}

/// An event about spaces or the screen that is handled does nothing but what follows every event.
pub proof fn law_nothing_is_handled_of_spaces_and_screens(
    wm: WindowManagerView,
    event: WindowManagerEvent,
    sight: HandlingSightView,
    debug: RuleDebugView,
)
    requires
        !is_about_windows(event),
    ensures
        process_event::handling_effect(wm, event, sight, debug).0 == wm,
        dragging::does(
            process_event::handling_effect(wm, event, sight, debug).1,
            Seq::empty(),
            sight.border_window_id,
        ),
{
}


/// The windows that may have appeared are those that are listed, in their order, and then the main one
/// if it is not among them.
pub open spec fn is_candidate_at(sight: HandlingSightView, i: int, id: u32) -> bool {
    if 0 <= i < sight.window_ids.len() {
        sight.window_ids[i] == id
    } else {
        &&& i == sight.window_ids.len()
        &&& sight.main_window_id == Some(id)
        &&& !sight.window_ids.contains(id)
    }
}

proof fn lemma_first_unmanaged_in_order(
    wm: WindowManagerView,
    candidates: Seq<u32>,
    from: int,
)
    requires
        0 <= from,
    ensures
        show::first_unmanaged(wm, candidates, from) matches Some(id) ==> exists|i: int|
            {
                &&& from <= i < candidates.len()
                &&& #[trigger] candidates[i] == id
                &&& !wm.shows(id)
                &&& forall|j: int| from <= j < i ==> wm.shows(#[trigger] candidates[j])
            },
    decreases candidates.len() - from,
{
    if from < candidates.len() {
        if !wm.shows(candidates[from]) {
            let i = from;
            assert(candidates[i] == candidates[from]);
        } else {
            lemma_first_unmanaged_in_order(wm, candidates, from + 1);
            if let Some(id) = show::first_unmanaged(wm, candidates, from + 1) {
                let i = choose|i: int|
                    {
                        &&& from + 1 <= i < candidates.len()
                        &&& #[trigger] candidates[i] == id
                        &&& !wm.shows(id)
                        &&& forall|j: int| from + 1 <= j < i ==> wm.shows(#[trigger] candidates[j])
                    };
                assert(candidates[i] == id);
            }
        }
    }
}

/// The window that appeared is the first, of those that may have, that is on no workspace yet; where
/// all of them are, it is the very first.
pub proof fn law_the_first_new_window_appeared(
    wm: WindowManagerView,
    sight: HandlingSightView,
    i: int,
    id: u32,
)
    requires
        is_candidate_at(sight, i, id),
        ({
            ||| !is_anywhere(wm, id) && forall|j: int, other: u32|
                0 <= j < i && #[trigger] is_candidate_at(sight, j, other) ==> is_anywhere(
                    wm,
                    other,
                )
            ||| i == 0 && forall|j: int, other: u32| #[trigger]
                is_candidate_at(sight, j, other) ==> is_anywhere(wm, other)
        }),
    ensures
        show::appeared(wm, sight.window_ids, sight.main_window_id) == Some(id),
{
    let all = show::candidates(sight.window_ids, sight.main_window_id);
    assert forall|j: int, other: u32| #[trigger]
        is_candidate_at(sight, j, other) implies 0 <= j < all.len() && all[j] == other by {}
    assert forall|j: int| 0 <= j < all.len() implies is_candidate_at(
        sight,
        j,
        #[trigger] all[j],
    ) by {}
    lemma_first_unmanaged(wm, all, 0);
    lemma_first_unmanaged_in_order(wm, all, 0);
    lemma_anywhere(wm, id);
    match show::first_unmanaged(wm, all, 0) {
        Some(found) => {
            let k = choose|k: int|
                {
                    &&& 0 <= k < all.len()
                    &&& #[trigger] all[k] == found
                    &&& !wm.shows(found)
                    &&& forall|j: int| 0 <= j < k ==> wm.shows(#[trigger] all[j])
                };
            lemma_anywhere(wm, found);
            assert(is_candidate_at(sight, k, found));
            if i < k {
                assert(wm.shows(all[i]));
            }
        },
        None => {
            assert(wm.shows(all[i]));
        },
    }
}

} // verus!
