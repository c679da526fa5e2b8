//! How tabs are followed, and how windows go back where they were.

use crate::eligibility::RuleDebugView;
use crate::events::ManualNotification;
use crate::events::SystemNotification;
use crate::events::WindowManagerEvent;
use crate::operation::EventStage;
use crate::operation::Operation;
use crate::process_command::acting;
use crate::process_command::going;
use crate::process_command::tuning;
use crate::process_event::dragging;
use crate::process_event::focus_change;
use crate::process_event::handling::HandlingSightView;
use crate::process_event::handling;
use crate::process_event::noticing;
use crate::process_event;
use crate::session;
use crate::settings::DefaultLayout;
use crate::window_manager::ContainerView;
use crate::window_manager::MonitorView;
use crate::window_manager::Window;
use crate::window_manager::WindowManagerView;
use crate::window_manager::WorkspaceView;
use vstd::prelude::*;

verus! {

/// The id that a window reports is the first that is listed for it.
pub proof fn law_the_first_report_counts(reported: Seq<(u32, u32)>, id: u32, from: int)
    requires
        0 <= from,
    ensures
        match handling::reported_id(reported, id, from) {
            Some(own) => exists|i: int|
                {
                    &&& from <= i < reported.len()
                    &&& #[trigger] reported[i] == (id, own)
                    &&& forall|j: int| from <= j < i ==> (#[trigger] reported[j]).0 != id
                },
            None => forall|i: int|
                from <= i < reported.len() ==> (#[trigger] reported[i]).0 != id,
        },
    decreases reported.len() - from,
{
    if from < reported.len() {
        if reported[from].0 == id {
            assert(reported[from] == (id, reported[from].1));
        } else {
            law_the_first_report_counts(reported, id, from + 1);
            if let Some(own) = handling::reported_id(reported, id, from + 1) {
                let i = choose|i: int|
                    {
                        &&& from + 1 <= i < reported.len()
                        &&& #[trigger] reported[i] == (id, own)
                        &&& forall|j: int| from + 1 <= j < i ==> (#[trigger] reported[j]).0 != id
                    };
                assert(reported[i] == (id, own));
            }
        }
    }
}

/// A container shows a window of the application whose focus changed.
pub open spec fn shows_window_of(
    container: ContainerView,
    sight: HandlingSightView,
    process_id: i32,
) -> bool {
    &&& container.focused_window < container.windows.len()
    &&& {
        let window = container.windows[container.focused_window as int];
        let own = window.application.deep_view();
        &&& window.process_id == process_id
        &&& (if own is Some {
            own->0
        } else {
            Seq::empty()
        }) == (if sight.application_name is Some {
            sight.application_name->0
        } else {
            Seq::empty()
        })
    }
}

/// The window that a container shows has gone.
pub open spec fn shows_gone_window(
    container: ContainerView,
    sight: HandlingSightView,
    process_id: i32,
) -> bool {
    &&& shows_window_of(container, sight, process_id)
    &&& handling::frame_of(
        sight.frames,
        container.windows[container.focused_window as int].id,
        0,
    ) is Gone
}

/// The window that a container shows is kept under the id of another tab than the one that has the
/// focus: it has gone or is at the very place of the tab, and still reports the id it is kept under.
pub open spec fn shows_other_tab(
    container: ContainerView,
    sight: HandlingSightView,
    process_id: i32,
    window_id: u32,
) -> bool {
    &&& shows_window_of(container, sight, process_id)
    &&& {
        let id = container.windows[container.focused_window as int].id;
        let frame = handling::frame_of(sight.frames, id, 0);
        &&& id != window_id
        &&& frame is Gone || frame == handling::frame_of(sight.frames, window_id, 0)
        &&& handling::reported_id(sight.reported_ids, id, 0) == Some(id)
    }
}

/// Where the tab is, and where every window of the application is that a container shows, could be
/// read.
pub open spec fn are_readable(
    containers: Seq<ContainerView>,
    sight: HandlingSightView,
    process_id: i32,
    window_id: u32,
) -> bool {
    &&& handling::frame_of(sight.frames, window_id, 0) is At
    &&& forall|c: int|
        0 <= c < containers.len() && shows_window_of(
            #[trigger] containers[c],
            sight,
            process_id,
        ) ==> !(handling::frame_of(
            sight.frames,
            containers[c].windows[containers[c].focused_window as int].id,
            0,
        ) is Unreadable)
}

proof fn lemma_tab_search(
    containers: Seq<ContainerView>,
    n: nat,
    sight: HandlingSightView,
    process_id: i32,
    window_id: u32,
)
    requires
        n <= containers.len() <= usize::MAX,
        are_readable(containers, sight, process_id, window_id),
    ensures
        ({
            let search = focus_change::tab_search(containers, n, sight, process_id, window_id);
            &&& search.failure is None
            &&& match search.container {
                Some(i) => {
                    &&& i < n
                    &&& shows_other_tab(containers[i as int], sight, process_id, window_id)
                    &&& forall|j: int|
                        i < j < n ==> !shows_other_tab(
                            #[trigger] containers[j],
                            sight,
                            process_id,
                            window_id,
                        )
                },
                None => forall|j: int|
                    0 <= j < n ==> !shows_other_tab(
                        #[trigger] containers[j],
                        sight,
                        process_id,
                        window_id,
                    ),
            }
            &&& search.first_tab_destroyed <==> exists|j: int|
                0 <= j < n && shows_gone_window(#[trigger] containers[j], sight, process_id)
            &&& search.first_tab_destroyed <==> search.operations.len() > 0
            &&& forall|k: int|
                0 <= k < search.operations.len() ==> #[trigger] search.operations[k]
                    == Operation::SendManualEvent(
                    ManualNotification::ShowOnFocusChangeFirstTabDestroyed,
                    process_id,
                    window_id,
                )
        }),
    decreases n,
{
    if n > 0 {
        lemma_tab_search(containers, (n - 1) as nat, sight, process_id, window_id);
        let container = containers[n - 1];
        assert(shows_window_of(container, sight, process_id) == (container.focused() is Some
            && focus_change::belongs(container.focused()->0, sight.application_name, process_id)));
        assert(shows_window_of(containers[n - 1], sight, process_id) ==> !(handling::frame_of(
            sight.frames,
            container.windows[container.focused_window as int].id,
            0,
        ) is Unreadable));
        if shows_gone_window(container, sight, process_id) {
            assert(shows_gone_window(containers[n - 1], sight, process_id));
        }
    }
}

/// A container keeps everything but the id of the window that it shows, which is this one now.
pub open spec fn is_kept_under(now: ContainerView, before: ContainerView, window_id: u32) -> bool {
    let at = before.focused_window as int;
    &&& now == (ContainerView { windows: now.windows, ..before })
    &&& now.windows.len() == before.windows.len()
    &&& forall|i: int|
        0 <= i < before.windows.len() && i != at ==> #[trigger] now.windows[i] == before.windows[i]
    &&& now.windows[at] == (Window { id: window_id, ..before.windows[at] })
}

/// A focus change in an application with tabs, on a workspace without a container in monocle mode: the
/// last container that shows another tab of the window which has the focus keeps it under the id of
/// that tab from then on, no other container changes, and the focus is not followed any further. Where
/// no container does, the focus is followed; first, where a window has gone that a container shows, it
/// is announced and windows that have gone are reaped.
pub proof fn law_the_last_tab_that_fits_is_renamed(
    wm: WindowManagerView,
    notification: SystemNotification,
    process_id: i32,
    named: Option<u32>,
    window_id: u32,
    workspace: WorkspaceView,
    sight: HandlingSightView,
    debug: RuleDebugView,
)
    requires
        acting::is_in_focus(wm, workspace),
        workspace.containers.len() <= usize::MAX,
        workspace.monocle_container is None,
        sight.application_found,
        sight.main_window_id == Some(window_id),
        noticing::keeps_tabs(wm, sight),
        are_readable(workspace.containers, sight, process_id, window_id),
    ensures
        ({
            let (after, plan) = process_event::handling_effect(
                wm,
                WindowManagerEvent::FocusChange(notification, process_id, named),
                sight,
                debug,
            );
            let now = tuning::focused_one(after, wm);
            let tabbed = exists|c: int|
                0 <= c < workspace.containers.len() && shows_other_tab(
                    #[trigger] workspace.containers[c],
                    sight,
                    process_id,
                    window_id,
                );
            let gone = exists|c: int|
                0 <= c < workspace.containers.len() && shows_gone_window(
                    #[trigger] workspace.containers[c],
                    sight,
                    process_id,
                );
            &&& plan.failure is None
            &&& now.containers.len() == workspace.containers.len()
            &&& forall|c: int|
                #![trigger workspace.containers[c]]
                0 <= c < workspace.containers.len() ==> if shows_other_tab(
                    workspace.containers[c],
                    sight,
                    process_id,
                    window_id,
                ) && forall|d: int|
                    c < d < workspace.containers.len() ==> !shows_other_tab(
                        #[trigger] workspace.containers[d],
                        sight,
                        process_id,
                        window_id,
                    ) {
                    is_kept_under(now.containers[c], workspace.containers[c], window_id)
                } else {
                    now.containers[c] == workspace.containers[c]
                }
            &&& now.floating_windows == workspace.floating_windows
            &&& now.monocle_container is None
            &&& tabbed ==> forall|k: int|
                0 <= k < plan.operations.len() ==> !((#[trigger] plan.operations[k])
                    is ResumeEvent)
            &&& !tabbed ==> plan.operations.len() > 0 && plan.operations.last()
                == Operation::ResumeEvent(
                if gone {
                    EventStage::FocusReaped(window_id)
                } else {
                    EventStage::FocusSettled(window_id)
                },
            )
            &&& gone ==> plan.operations[0] == Operation::SendManualEvent(
                ManualNotification::ShowOnFocusChangeFirstTabDestroyed,
                process_id,
                window_id,
            ) && plan.operations.contains(Operation::ReapInvalidWindows(process_id))
            &&& !gone ==> !plan.operations.contains(Operation::ReapInvalidWindows(process_id))
        }),
{
    lemma_tab_search(
        workspace.containers,
        workspace.containers.len(),
        sight,
        process_id,
        window_id,
    );
    let search = focus_change::tab_search(
        workspace.containers,
        workspace.containers.len(),
        sight,
        process_id,
        window_id,
    );
    let (after, plan) = process_event::handling_effect(
        wm,
        WindowManagerEvent::FocusChange(notification, process_id, named),
        sight,
        debug,
    );
    let now = tuning::focused_one(after, wm);
    assert(now == focus_change::with_tab(workspace, search.container, window_id));
    if let Some(i) = search.container {
        assert(is_kept_under(
            now.containers[i as int],
            workspace.containers[i as int],
            window_id,
        ));
    }
    if search.first_tab_destroyed {
        assert(plan.operations[search.operations.len() as int] == Operation::ReapInvalidWindows(
            process_id,
        ));
    }
}

/// Once windows that have gone have been reaped, the focus is followed up as far as the workspace: it
/// is updated unless its layout scrolls or nothing is tiled there, and the event goes on.
pub proof fn law_the_focus_is_followed_up_after_reaping(
    wm: WindowManagerView,
    event: WindowManagerEvent,
    window_id: u32,
    workspace: WorkspaceView,
    sight: HandlingSightView,
)
    requires
        acting::is_in_focus(wm, workspace),
    ensures
        ({
            let (after, plan) = process_event::stage_effect(
                wm,
                event,
                EventStage::FocusReaped(window_id),
                sight,
            );
            let go_on = Operation::ResumeEvent(EventStage::FocusSettled(window_id));
            &&& after == wm
            &&& plan.failure is None
            &&& plan.operations =~= if workspace.layout != DefaultLayout::Scrolling
                && workspace.containers.len() > 0 {
                seq![Operation::UpdateFocusedWorkspace(wm.mouse_follows_focus, false), go_on]
            } else {
                seq![go_on]
            }
        }),
{
}

/// A window that had a place in an earlier session claims it: the workspace is made sure of, and the
/// window then goes back. Where the monitor is not there it is passed over, and what is there is
/// written down.
pub proof fn law_a_window_with_a_place_goes_back_there(
    wm: WindowManagerView,
    event: WindowManagerEvent,
    placed: u32,
    earlier: session::SessionStateView,
    m: usize,
    w: usize,
    slot: usize,
    sight: HandlingSightView,
)
    requires
        wm.pending_session == Some(earlier),
        ({
            let exe: Seq<char> = if sight.shown.exe is Some {
                sight.shown.exe->0
            } else {
                Seq::empty()
            };
            let title: Seq<char> = if sight.shown.title is Some {
                sight.shown.title->0
            } else {
                Seq::empty()
            };
            session::claimed_place(earlier, sight.shown_window.id, exe, title) == Some(
                (m, w, slot),
            )
        }),
    ensures
        ({
            let (after, plan) = process_event::stage_effect(
                wm,
                event,
                EventStage::Place(placed),
                sight,
            );
            let exe: Seq<char> = if sight.shown.exe is Some {
                sight.shown.exe->0
            } else {
                Seq::empty()
            };
            let title: Seq<char> = if sight.shown.title is Some {
                sight.shown.title->0
            } else {
                Seq::empty()
            };
            let left = session::after_claim(earlier, sight.shown_window.id, exe, title);
            &&& after == (WindowManagerView { pending_session: after.pending_session, ..wm })
            &&& plan.failure is None
            &&& m < wm.monitors.len() ==> {
                &&& after.pending_session == Some(left)
                &&& plan.operations =~= seq![
                    Operation::EnsureWorkspace(m, w),
                    Operation::ResumeEvent(EventStage::PutBack { monitor: m, workspace: w, slot }),
                ]
            }
            &&& m >= wm.monitors.len() ==> {
                &&& after.pending_session is None <==> left.windows.len() == 0
                &&& dragging::does(
                    plan,
                    seq![Operation::SaveSession, Operation::UpdateBorders],
                    sight.border_window_id,
                )
            }
        }),
{
}

/// A window that goes back gets an unlocked container of its own in the slot that it had, on the
/// workspace it was on and on no other. It is loaded if that is the focused workspace, and hidden where
/// windows of its monitor are if not; then what is there is written down. The session is over once
/// nothing is left of it.
pub proof fn law_a_window_is_put_back_in_its_slot(
    wm: WindowManagerView,
    event: WindowManagerEvent,
    m: usize,
    w: usize,
    slot: usize,
    sight: HandlingSightView,
)
    requires
        m < wm.monitors.len(),
        w < wm.monitors[m as int].workspaces.len(),
        wm.focused_monitor < wm.monitors.len(),
        wm.monitors[m as int].workspaces[w as int].containers.len() < usize::MAX,
    ensures
        ({
            let (after, plan) = process_event::stage_effect(
                wm,
                event,
                EventStage::PutBack { monitor: m, workspace: w, slot },
                sight,
            );
            let before = wm.monitors[m as int];
            let now = after.monitors[m as int];
            let was = before.workspaces[w as int];
            let place = now.workspaces[w as int];
            let at = if slot < was.containers.len() {
                slot as int
            } else {
                was.containers.len() as int
            };
            let here = m == wm.focused_monitor && w == before.focused_workspace;
            &&& going::differ_only_at(after.monitors, wm.monitors, m as int)
            &&& now == (MonitorView { workspaces: now.workspaces, ..before })
            &&& forall|i: int|
                0 <= i < before.workspaces.len() && i != w ==> #[trigger] now.workspaces[i]
                    == before.workspaces[i]
            &&& place.containers.len() == was.containers.len() + 1
            &&& place.containers[at].windows =~= seq![sight.shown_window]
            &&& place.containers[at].focused_window == 0
            &&& !place.containers[at].locked
            &&& place.containers[at].id == sight.container_id
            &&& place.floating_windows == was.floating_windows
            &&& match wm.pending_session {
                Some(session) => if session.windows.len() == 0 {
                    after.pending_session is None
                } else {
                    after.pending_session == wm.pending_session
                },
                None => after.pending_session is None,
            }
            &&& dragging::does(
                plan,
                seq![
                    if here {
                        Operation::LoadFocusedWorkspace(m, wm.mouse_follows_focus)
                    } else {
                        Operation::HideWindow(sight.shown_window.id, before.window_hiding_position)
                    },
                    Operation::SaveSession,
                    Operation::UpdateBorders,
                ],
                sight.border_window_id,
            )
        }),
{
}


/// A container in monocle mode shows another tab of the window that has the focus: its window has gone
/// or is at the very place of the tab, under another id.
pub open spec fn covers_with_other_tab(
    monocle: ContainerView,
    sight: HandlingSightView,
    process_id: i32,
    window_id: u32,
) -> bool {
    &&& shows_window_of(monocle, sight, process_id)
    &&& {
        let id = monocle.windows[monocle.focused_window as int].id;
        let frame = handling::frame_of(sight.frames, id, 0);
        &&& id != window_id
        &&& frame is Gone || frame == handling::frame_of(sight.frames, window_id, 0)
    }
}

/// A focus change in an application with tabs, on a workspace with a container in monocle mode and
/// nothing else in the layout: where that shows another tab of the window which has the focus, it keeps
/// it under the id of that tab from then on, and the focus is not followed any further; otherwise it
/// stays as it is and the focus is followed.
pub proof fn law_a_covering_tab_is_renamed(
    wm: WindowManagerView,
    notification: SystemNotification,
    process_id: i32,
    named: Option<u32>,
    window_id: u32,
    workspace: WorkspaceView,
    monocle: ContainerView,
    sight: HandlingSightView,
    debug: RuleDebugView,
)
    requires
        acting::is_in_focus(wm, workspace),
        workspace.containers.len() == 0,
        workspace.monocle_container == Some(monocle),
        sight.application_found,
        sight.main_window_id == Some(window_id),
        noticing::keeps_tabs(wm, sight),
        handling::frame_of(sight.frames, window_id, 0) is At,
        shows_window_of(monocle, sight, process_id) ==> !(handling::frame_of(
            sight.frames,
            monocle.windows[monocle.focused_window as int].id,
            0,
        ) is Unreadable),
    ensures
        ({
            let (after, plan) = process_event::handling_effect(
                wm,
                WindowManagerEvent::FocusChange(notification, process_id, named),
                sight,
                debug,
            );
            let now = tuning::focused_one(after, wm);
            let tabbed = covers_with_other_tab(monocle, sight, process_id, window_id);
            let gone = shows_gone_window(monocle, sight, process_id);
            &&& plan.failure is None
            &&& now.monocle_container is Some
            &&& now == (WorkspaceView { monocle_container: now.monocle_container, ..workspace })
            &&& tabbed ==> is_kept_under(now.monocle_container->0, monocle, window_id)
            &&& !tabbed ==> now.monocle_container->0 == monocle
            &&& tabbed ==> forall|k: int|
                0 <= k < plan.operations.len() ==> !((#[trigger] plan.operations[k])
                    is ResumeEvent)
            &&& !tabbed ==> plan.operations.len() > 0 && plan.operations.last()
                == Operation::ResumeEvent(
                if gone {
                    EventStage::FocusReaped(window_id)
                } else {
                    EventStage::FocusSettled(window_id)
                },
            )
            &&& gone <==> plan.operations.contains(Operation::ReapInvalidWindows(process_id))
        }),
{
    assert(shows_window_of(monocle, sight, process_id) == (monocle.focused() is Some
        && focus_change::belongs(monocle.focused()->0, sight.application_name, process_id)));
    let search = focus_change::tab_search(
        workspace.containers,
        workspace.containers.len(),
        sight,
        process_id,
        window_id,
    );
    assert(search.container is None && search.operations.len() == 0);
    let (after, plan) = process_event::handling_effect(
        wm,
        WindowManagerEvent::FocusChange(notification, process_id, named),
        sight,
        debug,
    );
    if shows_gone_window(monocle, sight, process_id) {
        assert(plan.operations[0] == Operation::ReapInvalidWindows(process_id));
    }
}

} // verus!
