//! Events: which of them matter, what each of them changes, and what it asks to have done.
//!
//! An event is let in by [`WindowManager::process_event`], handled by
//! [`WindowManager::handle_event`] and, where handling it depends on what an operation has
//! done in between, gone on with by [`WindowManager::resume_event`].

pub mod admitting;
pub mod dragging;
pub mod focus_change;
pub mod handling;
pub mod moves;
pub mod noticing;
pub mod reports;
pub mod resuming;
pub mod show;

use crate::eligibility;
use crate::eligibility::RuleDebug;
use crate::eligibility::RuleDebugView;
use crate::events;
use crate::events::SystemNotification;
use crate::events::WindowManagerEvent;
use crate::operation::EventStage;
use crate::operation::Operation;
use crate::process_command;
use crate::process_command::plan;
use crate::process_command::plan::CommandPlan;
use crate::process_command::plan::CommandPlanView;
use crate::process_event::handling::HandlingSight;
use crate::process_event::handling::HandlingSightView;
use crate::settings::WindowAttributes;
use crate::settings::WindowAttributesView;
use crate::text;
use crate::window;
use crate::window::WindowMemory;
use crate::window::WindowMemoryView;
use crate::window_manager;
use crate::window_manager::CommandError;
use crate::window_manager::WindowManager;
use crate::window_manager::WindowManagerView;
use vstd::prelude::*;

verus! {

/// The main window of an application, as it was when an event came in.
pub struct MainWindowSight {
    pub id: u32,
    pub is_valid: bool,
    pub attributes: WindowAttributes,
}

/// The value of a [`MainWindowSight`].
pub struct MainWindowSightView {
    pub id: u32,
    pub is_valid: bool,
    pub attributes: WindowAttributesView,
}

impl DeepView for MainWindowSight {
    type V = MainWindowSightView;

    open spec fn deep_view(&self) -> MainWindowSightView {
        MainWindowSightView {
            id: self.id,
            is_valid: self.is_valid,
            attributes: self.attributes.deep_view(),
        }
    }
}

/// The application that an event is about, as it was when the event came in.
pub struct ApplicationSight {
    pub name: Option<String>,
    pub main_window: Option<MainWindowSight>,
}

/// The value of an [`ApplicationSight`].
pub struct ApplicationSightView {
    pub name: Option<Seq<char>>,
    pub main_window: Option<MainWindowSightView>,
}

impl DeepView for ApplicationSight {
    type V = ApplicationSightView;

    open spec fn deep_view(&self) -> ApplicationSightView {
        ApplicationSightView {
            name: self.name.deep_view(),
            main_window: self.main_window.deep_view(),
        }
    }
}

/// What was seen when an event came in.
pub struct EventSight {
    /// The space that is on the screen.
    pub current_space_id: Option<u64>,
    /// The application that the event is about, unless it could not be reached.
    pub application: Option<ApplicationSight>,
}

/// The value of an [`EventSight`].
pub struct EventSightView {
    pub current_space_id: Option<u64>,
    pub application: Option<ApplicationSightView>,
}

impl DeepView for EventSight {
    type V = EventSightView;

    open spec fn deep_view(&self) -> EventSightView {
        EventSightView {
            current_space_id: self.current_space_id,
            application: self.application.deep_view(),
        }
    }
}

/// The event says that the screen was locked or unlocked.
pub open spec fn is_screen_event(event: WindowManagerEvent) -> bool {
    event is ScreenLock || event is ScreenUnlock
}

/// The application is the one that locks the screen.
pub open spec fn is_login_window(application: Option<ApplicationSightView>) -> bool {
    application is Some && application->0.name == Some("loginwindow"@)
}

/// The state after a screen event: while the screen is locked everything is paused.
pub open spec fn after_screen_event(
    wm: WindowManagerView,
    event: WindowManagerEvent,
    sight: EventSightView,
) -> WindowManagerView {
    if is_screen_event(event) && is_login_window(sight.application) {
        WindowManagerView { is_paused: event is ScreenLock, ..wm }
    } else {
        wm
    }
}

/// The report of a move came from the mouse, so the user moved the window.
pub open spec fn user_moved_it(notification: SystemNotification) -> bool {
    notification is Manual
}

/// What is remembered of a window after an event about it. A move that is about to be made
/// by hand, or that nobody announced, makes the remembered position stale; a report that was
/// announced does not.
pub open spec fn memory_after(memory: WindowMemoryView, event: WindowManagerEvent) -> WindowMemoryView {
    match event {
        WindowManagerEvent::MoveStart(_, _, id) => memory.without_position(id),
        WindowManagerEvent::ResizeStart(_, _, id) => memory.without_position(id),
        WindowManagerEvent::MoveEnd(notification, _, id) => settled(memory, notification, id),
        WindowManagerEvent::ResizeEnd(notification, _, id) => settled(memory, notification, id),
        _ => memory,
    }
}

/// What is remembered of a window after a report that its frame has settled.
pub open spec fn settled(
    memory: WindowMemoryView,
    notification: SystemNotification,
    id: u32,
) -> WindowMemoryView {
    if !user_moved_it(notification) && memory.owes(id) {
        memory.absorbed(id)
    } else {
        memory.without_position(id)
    }
}

/// The main window of the application is one that is not managed.
pub open spec fn is_rejected(
    wm: WindowManagerView,
    event: WindowManagerEvent,
    application: ApplicationSightView,
    debug: RuleDebugView,
) -> bool {
    match application.main_window {
        Some(window) => !eligibility::managed(
            wm.rules,
            Some(event),
            window.is_valid,
            window.attributes,
            debug,
        ) || wm.unmanaged_window_ids.contains(window.id),
        None => false,
    }
}

/// An event has been let in as far as its application: it is dropped where the main window
/// is not managed, and handled otherwise, after the workspace rules have been enforced.
pub open spec fn admitted(
    wm: WindowManagerView,
    event: WindowManagerEvent,
    sight: EventSightView,
    debug: RuleDebugView,
) -> CommandPlanView {
    match sight.application {
        Some(application) => if is_rejected(wm, event, application, debug) {
            plan::plan_nothing()
        } else {
            plan::plan_of(seq![Operation::EnforceWorkspaceRules, Operation::HandleEvent])
        },
        None => plan::plan_failure(CommandError::NoApplication),
    }
}

/// What becomes of an event: whether it is let in, and what it changes on the way.
pub open spec fn event_effect(
    wm: WindowManagerView,
    event: WindowManagerEvent,
    sight: EventSightView,
    debug: RuleDebugView,
) -> (WindowManagerView, CommandPlanView) {
    if is_screen_event(event) && sight.application is None {
        (wm, plan::plan_failure(CommandError::NoApplication))
    } else {
        let seen = after_screen_event(wm, event, sight);
        if seen.is_paused {
            (seen, plan::plan_nothing())
        } else if event is SpaceChange && seen.space_id is Some && sight.current_space_id is Some {
            (
                seen,
                if seen.space_id == sight.current_space_id {
                    plan::plan_of(seq![Operation::UpdateBorders])
                } else {
                    plan::plan_of(seq![Operation::DestroyAllBorders])
                },
            )
        } else if process_command::on_another_space(seen.space_id, sight.current_space_id) {
            (seen, plan::plan_of(seq![Operation::DestroyAllBorders]))
        } else {
            let remembered = WindowManagerView { memory: memory_after(seen.memory, event), ..seen };
            (remembered, admitted(remembered, event, sight, debug))
        }
    }
}

/// The event gets as far as its application.
pub open spec fn reaches_application(
    wm: WindowManagerView,
    event: WindowManagerEvent,
    sight: EventSightView,
) -> bool {
    let seen = after_screen_event(wm, event, sight);
    &&& !seen.is_paused
    &&& !(event is SpaceChange && seen.space_id is Some && sight.current_space_id is Some)
    &&& !process_command::on_another_space(seen.space_id, sight.current_space_id)
}

/// What handling an event that was let in comes to.
pub open spec fn handling_effect(
    wm: WindowManagerView,
    event: WindowManagerEvent,
    sight: HandlingSightView,
    debug: RuleDebugView,
) -> (WindowManagerView, CommandPlanView) {
    match event {
        WindowManagerEvent::FocusChange(notification, process_id, _) =>
            focus_change::focus_change_effect(wm, notification, process_id, sight),
        WindowManagerEvent::Show(_, _) => show::show_effect(wm, event, sight, debug),
        WindowManagerEvent::Manage(_, _, _) => show::show_effect(wm, event, sight, debug),
        WindowManagerEvent::Destroy(notification, process_id) => (
            wm,
            reports::destroy_plan(wm, notification, process_id, sight),
        ),
        WindowManagerEvent::Unmanage(_, _, id) => (wm, reports::unmanage_plan(wm, id, sight)),
        WindowManagerEvent::Minimize(_, _, id) => (wm, reports::minimize_plan(id, sight)),
        WindowManagerEvent::Restore(_, _, id) => reports::restore_effect(wm, id, sight),
        WindowManagerEvent::MoveStart(_, _, id) => moves::move_start_effect(wm, id, sight),
        WindowManagerEvent::MoveEnd(_, _, id) => moves::move_end_effect(wm, id, sight),
        WindowManagerEvent::ResizeStart(_, _, id) => moves::resize_start_effect(wm, id, sight),
        WindowManagerEvent::ResizeEnd(_, _, id) => moves::resize_end_effect(wm, id, sight),
        WindowManagerEvent::SpaceChange(_, _) => (wm, nothing_to_handle(sight)),
        WindowManagerEvent::ScreenLock(_, _) => (wm, nothing_to_handle(sight)),
        WindowManagerEvent::ScreenUnlock(_, _) => (wm, nothing_to_handle(sight)),
    }
}

/// An event that leaves nothing to do but what follows every event.
pub open spec fn nothing_to_handle(sight: HandlingSightView) -> CommandPlanView {
    handling::finished(plan::plan_nothing(), sight.border_window_id)
}

/// What is found out about the window that appeared while an event is handled.
pub open spec fn handling_findings(
    wm: WindowManagerView,
    event: WindowManagerEvent,
    sight: HandlingSightView,
    debug: RuleDebugView,
) -> RuleDebugView {
    if event is Show || event is Manage {
        show::show_findings(show::with_appearance(wm, sight.now), event, sight, debug)
    } else {
        debug
    }
}

/// What going on with an event comes to. A focus change goes on with what it was reported by;
/// the other stages do not depend on it.
pub open spec fn stage_effect(
    wm: WindowManagerView,
    event: WindowManagerEvent,
    stage: EventStage,
    sight: HandlingSightView,
) -> (WindowManagerView, CommandPlanView) {
    match stage {
        EventStage::FocusSettled(window_id) => (
            wm,
            focus_change::focus_settled_plan(
                wm,
                events::source_of(event),
                events::process_of(event),
                window_id,
                sight,
            ),
        ),
        EventStage::FocusReaped(window_id) => (wm, focus_change::focus_reaped_plan(wm, window_id)),
        EventStage::Place(_) => show::place_effect(wm, event, sight),
        EventStage::PutBack { monitor, workspace, slot } => show::put_back_effect(
            wm,
            monitor,
            workspace,
            slot,
            sight,
        ),
        EventStage::Placed { window, tiled, was_there, monocle } => (
            wm,
            show::placed_plan(wm, window, tiled, was_there, monocle, sight),
        ),
        EventStage::Reaped => (wm, reports::reaped_plan(wm, sight)),
    }
}

/// What is found out about the main window of the application on the way.
pub open spec fn event_findings(
    wm: WindowManagerView,
    event: WindowManagerEvent,
    sight: EventSightView,
    debug: RuleDebugView,
) -> RuleDebugView {
    match sight.application {
        Some(application) => if reaches_application(wm, event, sight)
            && application.main_window is Some {
            eligibility::managed_findings(
                wm.rules,
                Some(event),
                application.main_window->0.is_valid,
                application.main_window->0.attributes,
                debug,
            )
        } else {
            debug
        },
        None => debug,
    }
}

fn remember(memory: &mut WindowMemory, event: WindowManagerEvent)
    ensures
        final(memory)@ == memory_after(old(memory)@, event),
{
    match event {
        WindowManagerEvent::MoveStart(_, _, id) | WindowManagerEvent::ResizeStart(_, _, id) => {
            window::forget_position(memory, id);
        },
        WindowManagerEvent::MoveEnd(notification, _, id)
        | WindowManagerEvent::ResizeEnd(notification, _, id) => {
            let user_moved: bool = match notification {
                SystemNotification::Manual(_) => true,
                _ => false,
            };
            if user_moved || !window::absorb_self_move_echo(memory, id) {
                window::forget_position(memory, id);
            }
        },
        _ => {},
    }
}

impl WindowManager {
    fn note_screen_event(&mut self, event: WindowManagerEvent, sight: &EventSight)
        requires
            is_screen_event(event),
            sight.application is Some,
        ensures
            final(self).deep_view() == after_screen_event(
                old(self).deep_view(),
                event,
                sight.deep_view(),
            ),
    {
        let locks: bool = match event {
            WindowManagerEvent::ScreenLock(_, _) => true,
            _ => false,
        };
        if let Some(application) = &sight.application {
            if let Some(name) = &application.name {
                if text::same_text(name.as_str(), "loginwindow") {
                    self.is_paused = locks;
                }
            }
        }
    }

    fn let_in(
        &self,
        event: WindowManagerEvent,
        sight: &EventSight,
        debug: &mut RuleDebug,
    ) -> (plan: CommandPlan)
        ensures
            plan.deep_view() == admitted(
                self.deep_view(),
                event,
                sight.deep_view(),
                old(debug).deep_view(),
            ),
            final(debug).deep_view() == match sight.deep_view().application {
                Some(application) => match application.main_window {
                    Some(window) => eligibility::managed_findings(
                        self.deep_view().rules,
                        Some(event),
                        window.is_valid,
                        window.attributes,
                        old(debug).deep_view(),
                    ),
                    None => old(debug).deep_view(),
                },
                None => old(debug).deep_view(),
            },
    {
        match &sight.application {
            Some(application) => {
                if let Some(window) = &application.main_window {
                    let manage: bool = eligibility::should_manage(
                        &self.rules,
                        Some(event),
                        window.is_valid,
                        &window.attributes,
                        debug,
                    );
                    if !manage || window_manager::lists_id(&self.unmanaged_window_ids, window.id) {
                        return CommandPlan::nothing();
                    }
                }
                CommandPlan::pair(Operation::EnforceWorkspaceRules, Operation::HandleEvent)
            },
            None => CommandPlan::failed(CommandError::NoApplication),
        }
    }

    /// Lets an event in, or drops it, and keeps up what is remembered of windows that move.
    /// `debug` notes why the main window of the application is managed or not.
    pub fn process_event(
        &mut self,
        event: WindowManagerEvent,
        sight: &EventSight,
        debug: &mut RuleDebug,
    ) -> (plan: CommandPlan)
        ensures
            (final(self).deep_view(), plan.deep_view()) == event_effect(
                old(self).deep_view(),
                event,
                sight.deep_view(),
                old(debug).deep_view(),
            ),
            final(debug).deep_view() == event_findings(
                old(self).deep_view(),
                event,
                sight.deep_view(),
                old(debug).deep_view(),
            ),
    {
        let (screen, space): (bool, bool) = match event {
            WindowManagerEvent::ScreenLock(_, _) | WindowManagerEvent::ScreenUnlock(_, _) => (
                true,
                false,
            ),
            WindowManagerEvent::SpaceChange(_, _) => (false, true),
            _ => (false, false),
        };
        if screen {
            if sight.application.is_none() {
                return CommandPlan::failed(CommandError::NoApplication);
            }
            self.note_screen_event(event, sight);
        }
        if self.is_paused {
            return CommandPlan::nothing();
        }
        if space && self.space_id.is_some() && sight.current_space_id.is_some() {
            return if process_command::is_on_another_space(
                self.space_id,
                sight.current_space_id,
            ) {
                CommandPlan::single(Operation::DestroyAllBorders)
            } else {
                CommandPlan::single(Operation::UpdateBorders)
            };
        }
        if process_command::is_on_another_space(self.space_id, sight.current_space_id) {
            return CommandPlan::single(Operation::DestroyAllBorders);
        }
        remember(&mut self.memory, event);
        self.let_in(event, sight, debug)
    }
}

impl WindowManager {
    /// Handles an event that was let in, as far as that goes before an operation has to be
    /// carried out.
    pub fn handle_event(
        &mut self,
        event: WindowManagerEvent,
        sight: &HandlingSight,
        debug: &mut RuleDebug,
    ) -> (plan: CommandPlan)
        ensures
            (final(self).deep_view(), plan.deep_view()) == handling_effect(
                old(self).deep_view(),
                event,
                sight.deep_view(),
                old(debug).deep_view(),
            ),
            final(debug).deep_view() == handling_findings(
                old(self).deep_view(),
                event,
                sight.deep_view(),
                old(debug).deep_view(),
            ),
    {
        match event {
            WindowManagerEvent::FocusChange(notification, process_id, _) =>
                self.handle_focus_change(notification, process_id, sight),
            WindowManagerEvent::Show(_, _) => self.handle_show(event, sight, debug),
            WindowManagerEvent::Manage(_, _, _) => self.handle_show(event, sight, debug),
            WindowManagerEvent::Destroy(notification, process_id) => self.handle_destroy(
                notification,
                process_id,
                sight,
            ),
            WindowManagerEvent::Unmanage(_, _, id) => self.handle_unmanage(id, sight),
            WindowManagerEvent::Minimize(_, _, id) => self.handle_minimize(id, sight),
            WindowManagerEvent::Restore(_, _, id) => self.handle_restore(id, sight),
            WindowManagerEvent::MoveStart(_, _, id) => self.handle_move_start(id, sight),
            WindowManagerEvent::MoveEnd(_, _, id) => self.handle_move_end(id, sight),
            WindowManagerEvent::ResizeStart(_, _, id) => self.handle_resize_start(id, sight),
            WindowManagerEvent::ResizeEnd(_, _, id) => self.handle_resize_end(id, sight),
            WindowManagerEvent::SpaceChange(_, _) | WindowManagerEvent::ScreenLock(_, _)
            | WindowManagerEvent::ScreenUnlock(_, _) => handling::finish(
                CommandPlan::nothing(),
                sight.border_window_id,
            ),
        }
    }

    /// Goes on with an event at a stage that an earlier plan ended with.
    pub fn resume_event(
        &mut self,
        event: WindowManagerEvent,
        stage: EventStage,
        sight: &HandlingSight,
    ) -> (plan: CommandPlan)
        ensures
            (final(self).deep_view(), plan.deep_view()) == stage_effect(
                old(self).deep_view(),
                event,
                stage,
                sight.deep_view(),
            ),
    {
        match stage {
            EventStage::FocusSettled(window_id) => self.settle_focus_change(
                event.notification(),
                event.process_id(),
                window_id,
                sight,
            ),
            EventStage::FocusReaped(window_id) => self.follow_up_focus_change(window_id),
            EventStage::Place(_) => self.place_shown(event, sight),
            EventStage::PutBack { monitor, workspace, slot } => self.put_back_shown(
                monitor,
                workspace,
                slot,
                sight,
            ),
            EventStage::Placed { window, tiled, was_there, monocle } => self.settle_shown(
                window,
                tiled,
                was_there,
                monocle,
                sight,
            ),
            EventStage::Reaped => self.settle_destroy(sight),
        }
    }
}

/// While everything is paused no event changes anything or is handled, but for the screen
/// being unlocked.
pub proof fn law_pausing_silences_events(
    wm: WindowManagerView,
    event: WindowManagerEvent,
    sight: EventSightView,
    debug: RuleDebugView,
)
    requires
        wm.is_paused,
        !(event is ScreenUnlock),
    ensures
        event_effect(wm, event, sight, debug).0 == wm,
        event_effect(wm, event, sight, debug).1.operations.len() == 0,
{
}

/// Locking and unlocking the screen leaves nothing paused, and nothing else changed.
pub proof fn law_unlocking_undoes_locking(
    wm: WindowManagerView,
    lock: SystemNotification,
    unlock: SystemNotification,
    process_id: i32,
    sight: EventSightView,
    debug: RuleDebugView,
)
    requires
        is_login_window(sight.application),
    ensures
        ({
            let locked = event_effect(
                wm,
                WindowManagerEvent::ScreenLock(lock, process_id),
                sight,
                debug,
            ).0;
            let unlocked = event_effect(
                locked,
                WindowManagerEvent::ScreenUnlock(unlock, process_id),
                sight,
                debug,
            ).0;
            &&& locked.is_paused
            &&& unlocked == (WindowManagerView { is_paused: false, ..wm })
        }),
{
}

/// A move that was announced leaves the remembered position alone as many times as it was
/// announced; a move by hand, and one that nobody announced, makes it forgotten.
pub proof fn law_only_announced_moves_are_believed(
    memory: WindowMemoryView,
    notification: SystemNotification,
    process_id: i32,
    id: u32,
)
    ensures
        ({
            let after = memory_after(
                memory,
                WindowManagerEvent::MoveEnd(notification, process_id, id),
            );
            &&& !user_moved_it(notification) && memory.owes(id) ==> after.position(id)
                == memory.position(id)
            &&& user_moved_it(notification) || !memory.owes(id) ==> after.position(id) is None
        }),
{
}

} // verus!
