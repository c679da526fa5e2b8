//! Commands that change the rules.

use crate::message::SocketMessage;
use crate::operation::Operation;
use crate::process_command::plan;
use crate::process_command::plan::CommandPlan;
use crate::process_command::plan::CommandPlanView;
use crate::process_command::plan::CommandSight;
use crate::process_command::plan::CommandSightView;
use crate::process_command::workspaces;
use crate::rule_book;
use crate::rule_book::RuleBookView;
use crate::rules::ApplicationIdentifier;
use crate::settings;
use crate::settings::WindowAttributes;
use crate::settings::WindowAttributesView;
use crate::window_manager::CommandError;
use crate::window_manager::Container;
use crate::window_manager::ContainerView;
use crate::window_manager::MonitorView;
use crate::window_manager::Window;
use crate::window_manager::WindowManager;
use crate::window_manager::WindowManagerView;
use vstd::prelude::*;

verus! {

/// The window in front floats for the rest of the session. A window that does not say what
/// it is is left alone.
pub open spec fn session_float_effect(
    wm: WindowManagerView,
    foreground: Option<WindowAttributesView>,
) -> (WindowManagerView, CommandPlanView) {
    match foreground {
        Some(window) => match (window.exe, window.title, window.role) {
            (Some(exe), Some(title), Some(role)) => (
                WindowManagerView {
                    rules: rule_book::with_session_float_rule(
                        wm.rules,
                        rule_book::session_float_rule(exe, title, role),
                    ),
                    ..wm
                },
                plan::plan_of(seq![Operation::ToggleFloat(true)]),
            ),
            _ => (wm, plan::plan_nothing()),
        },
        None => (wm, plan::plan_failure(CommandError::NoForegroundWindow)),
    }
}

/// Windows named `id` go to a workspace from now on.
pub open spec fn add_rule_effect(
    wm: WindowManagerView,
    kind: ApplicationIdentifier,
    id: Seq<char>,
    place: Option<(usize, usize)>,
    initial_only: bool,
) -> (WindowManagerView, CommandPlanView) {
    (
        match place {
            Some((m, w)) => WindowManagerView {
                rules: rule_book::with_workspace_rule(
                    wm.rules,
                    rule_book::workspace_rule(kind, id, m, w, initial_only),
                ),
                ..wm
            },
            None => wm,
        },
        plan::plan_nothing(),
    )
}

/// The rules of a workspace are dropped, and with them all other rules on its monitor and all
/// rules for a workspace of its number on any other monitor.
pub open spec fn clear_rules_effect(
    wm: WindowManagerView,
    place: Option<(usize, usize)>,
) -> (WindowManagerView, CommandPlanView) {
    (
        match place {
            Some((m, w)) => WindowManagerView {
                rules: rule_book::without_workspace_rules(wm.rules, m, w),
                ..wm
            },
            None => wm,
        },
        plan::plan_nothing(),
    )
}

/// The operations that take a window out that is ignored from now on.
pub open spec fn purge(m: usize, id: u32) -> Seq<Operation> {
    seq![Operation::RemoveWindow(m, id), Operation::UpdateMonitorFocusedWorkspace(m)]
}

/// The operations that take a window out, if it goes by the name that is ignored. One whose
/// role and subrole both read so is taken out once.
pub open spec fn purge_window(
    m: usize,
    id: u32,
    window: WindowAttributesView,
    kind: ApplicationIdentifier,
    name: Seq<char>,
) -> Seq<Operation> {
    match kind {
        ApplicationIdentifier::Path => if settings::reads(window.path, name) {
            purge(m, id)
        } else {
            Seq::empty()
        },
        ApplicationIdentifier::Exe => if settings::reads(window.exe, name) {
            purge(m, id)
        } else {
            Seq::empty()
        },
        ApplicationIdentifier::Title => if settings::reads(window.title, name) {
            purge(m, id)
        } else {
            Seq::empty()
        },
        ApplicationIdentifier::Class => if settings::reads(window.role, name) || settings::reads(
            window.subrole,
            name,
        ) {
            purge(m, id)
        } else {
            Seq::empty()
        },
    }
}

/// The operations that take windows of one container out.
pub open spec fn purge_windows(
    m: usize,
    windows: Seq<Window>,
    attributes: Seq<(u32, WindowAttributesView)>,
    kind: ApplicationIdentifier,
    name: Seq<char>,
) -> Seq<Operation>
    decreases windows.len(),
{
    if windows.len() == 0 {
        Seq::empty()
    } else {
        purge_windows(m, windows.drop_last(), attributes, kind, name) + purge_window(
            m,
            windows.last().id,
            settings::attributes_of(attributes, windows.last().id, 0),
            kind,
            name,
        )
    }
}

/// The operations that take windows of some containers out.
pub open spec fn purge_containers(
    m: usize,
    containers: Seq<ContainerView>,
    attributes: Seq<(u32, WindowAttributesView)>,
    kind: ApplicationIdentifier,
    name: Seq<char>,
) -> Seq<Operation>
    decreases containers.len(),
{
    if containers.len() == 0 {
        Seq::empty()
    } else {
        purge_containers(m, containers.drop_last(), attributes, kind, name) + purge_windows(
            m,
            containers.last().windows,
            attributes,
            kind,
            name,
        )
    }
}

/// The operations that take windows out of the focused workspaces of the first `m` monitors.
pub open spec fn purge_monitors(
    m: nat,
    monitors: Seq<MonitorView>,
    attributes: Seq<(u32, WindowAttributesView)>,
    kind: ApplicationIdentifier,
    name: Seq<char>,
) -> Seq<Operation>
    decreases m,
{
    if m == 0 {
        Seq::empty()
    } else {
        purge_monitors((m - 1) as nat, monitors, attributes, kind, name) + purge_containers(
            (m - 1) as usize,
            monitors[m - 1].focused()->0.containers,
            attributes,
            kind,
            name,
        )
    }
}

/// Every monitor has a focused workspace.
pub open spec fn all_have_workspaces(monitors: Seq<MonitorView>) -> bool {
    forall|i: int| 0 <= i < monitors.len() ==> (#[trigger] monitors[i]).focused() is Some
}

/// Windows that go by a name are ignored from now on, and those that are showing are taken
/// out.
pub open spec fn ignore_effect(
    wm: WindowManagerView,
    kind: ApplicationIdentifier,
    name: Seq<char>,
    attributes: Seq<(u32, WindowAttributesView)>,
) -> (WindowManagerView, CommandPlanView) {
    (
        WindowManagerView {
            rules: RuleBookView {
                ignore_identifiers: rule_book::with_legacy_rule(
                    wm.rules.ignore_identifiers,
                    kind,
                    name,
                ),
                ..wm.rules
            },
            ..wm
        },
        if all_have_workspaces(wm.monitors) {
            plan::plan_of(purge_monitors(wm.monitors.len(), wm.monitors, attributes, kind, name))
        } else {
            plan::plan_failure(CommandError::NoWorkspace)
        },
    )
}

/// Windows that go by a name are managed from now on, whatever else is said of them.
pub open spec fn manage_effect(
    wm: WindowManagerView,
    kind: ApplicationIdentifier,
    name: Seq<char>,
) -> (WindowManagerView, CommandPlanView) {
    (
        WindowManagerView {
            rules: RuleBookView {
                manage_identifiers: rule_book::with_legacy_rule(
                    wm.rules.manage_identifiers,
                    kind,
                    name,
                ),
                ..wm.rules
            },
            ..wm
        },
        plan::plan_nothing(),
    )
}

/// Everything starts over from another configuration, if that can be read. Workspace rules
/// are the configuration's own, so they go; and until the start everything is paused, so
/// that the windows of all workspaces can come to the front.
pub open spec fn replace_configuration_effect(
    wm: WindowManagerView,
    path: String,
    valid: bool,
) -> (WindowManagerView, CommandPlanView) {
    if valid {
        (
            WindowManagerView {
                rules: RuleBookView { workspace_matching_rules: Seq::empty(), ..wm.rules },
                is_paused: true,
                ..wm
            },
            plan::plan_of(
                seq![
                    Operation::RestoreAllWindows(false),
                    Operation::StartOverFromConfiguration(path),
                ],
            ),
        )
    } else {
        (wm, plan::plan_nothing())
    }
}

/// What a command that changes the rules comes to.
pub open spec fn rules_effect(
    wm: WindowManagerView,
    message: SocketMessage,
    sight: CommandSightView,
) -> (WindowManagerView, CommandPlanView) {
    match message {
        SocketMessage::SessionFloatRule => session_float_effect(wm, sight.foreground),
        SocketMessage::ClearSessionFloatRules => (
            WindowManagerView {
                rules: rule_book::without_session_float_rules(wm.rules),
                ..wm
            },
            plan::plan_nothing(),
        ),
        SocketMessage::InitialWorkspaceRule(kind, id, m, w) => add_rule_effect(
            wm,
            kind,
            id@,
            Some((m, w)),
            true,
        ),
        SocketMessage::InitialNamedWorkspaceRule(kind, id, name) => add_rule_effect(
            wm,
            kind,
            id@,
            wm.named(name@),
            true,
        ),
        SocketMessage::WorkspaceRule(kind, id, m, w) => add_rule_effect(
            wm,
            kind,
            id@,
            Some((m, w)),
            false,
        ),
        SocketMessage::NamedWorkspaceRule(kind, id, name) => add_rule_effect(
            wm,
            kind,
            id@,
            wm.named(name@),
            false,
        ),
        SocketMessage::ClearWorkspaceRules(m, w) => clear_rules_effect(wm, Some((m, w))),
        SocketMessage::ClearNamedWorkspaceRules(name) => clear_rules_effect(wm, wm.named(name@)),
        SocketMessage::ClearAllWorkspaceRules => (
            WindowManagerView {
                rules: RuleBookView { workspace_matching_rules: Seq::empty(), ..wm.rules },
                ..wm
            },
            plan::plan_nothing(),
        ),
        SocketMessage::EnforceWorkspaceRules => (
            WindowManagerView { already_moved_window_ids: Seq::empty(), ..wm },
            plan::plan_of(seq![Operation::EnforceWorkspaceRules]),
        ),
        SocketMessage::IgnoreRule(kind, id) => ignore_effect(wm, kind, id@, sight.attributes),
        SocketMessage::ManageRule(kind, id) => manage_effect(wm, kind, id@),
        SocketMessage::ReplaceConfiguration(path) => replace_configuration_effect(
            wm,
            path,
            sight.configuration_is_valid,
        ),
        _ => workspaces::workspaces_effect(wm, message, sight),
    }
}

fn push_purge(operations: &mut Vec<Operation>, m: usize, id: u32)
    ensures
        final(operations)@ == old(operations)@ + purge(m, id),
{
    operations.push(Operation::RemoveWindow(m, id));
    operations.push(Operation::UpdateMonitorFocusedWorkspace(m));
    assert(operations@ =~= old(operations)@ + purge(m, id));
}

fn push_purge_window(
    operations: &mut Vec<Operation>,
    m: usize,
    id: u32,
    window: &WindowAttributes,
    kind: ApplicationIdentifier,
    name: &str,
)
    ensures
        final(operations)@ == old(operations)@ + purge_window(
            m,
            id,
            window.deep_view(),
            kind,
            name@,
        ),
{
    let ghost before = operations@;
    match kind {
        ApplicationIdentifier::Path => {
            if settings::attribute_reads(&window.path, name) {
                push_purge(operations, m, id);
            }
        },
        ApplicationIdentifier::Exe => {
            if settings::attribute_reads(&window.exe, name) {
                push_purge(operations, m, id);
            }
        },
        ApplicationIdentifier::Title => {
            if settings::attribute_reads(&window.title, name) {
                push_purge(operations, m, id);
            }
        },
        ApplicationIdentifier::Class => {
            if settings::attribute_reads(&window.role, name) || settings::attribute_reads(
                &window.subrole,
                name,
            ) {
                push_purge(operations, m, id);
            }
        },
    }
    assert(operations@ =~= before + purge_window(m, id, window.deep_view(), kind, name@));
}

fn push_purge_windows(
    operations: &mut Vec<Operation>,
    m: usize,
    windows: &Vec<Window>,
    attributes: &Vec<(u32, WindowAttributes)>,
    kind: ApplicationIdentifier,
    name: &str,
)
    ensures
        final(operations)@ == old(operations)@ + purge_windows(
            m,
            windows@,
            attributes.deep_view(),
            kind,
            name@,
        ),
{
    let unknown = WindowAttributes {
        title: None,
        exe: None,
        role: None,
        subrole: None,
        path: None,
    };
    let ghost before = operations@;
    assert(windows@.take(0) =~= Seq::empty());
    assert(operations@ =~= before + purge_windows(
        m,
        windows@.take(0),
        attributes.deep_view(),
        kind,
        name@,
    ));
    let mut i: usize = 0;
    while i < windows.len()
        invariant
            i <= windows.len(),
            unknown.deep_view() == (WindowAttributesView {
                title: None,
                exe: None,
                role: None,
                subrole: None,
                path: None,
            }),
            operations@ == before + purge_windows(
                m,
                windows@.take(i as int),
                attributes.deep_view(),
                kind,
                name@,
            ),
        decreases windows.len() - i,
    {
        let id: u32 = windows[i].id;
        let ghost so_far = operations@;
        match settings::attributes_position(attributes, id) {
            Some(at) => {
                push_purge_window(operations, m, id, &attributes[at].1, kind, name);
            },
            None => {
                push_purge_window(operations, m, id, &unknown, kind, name);
            },
        }
        i += 1;
        proof {
            let seen = windows@.take(i as int);
            assert(seen.drop_last() =~= windows@.take(i - 1));
            assert(seen.last() == windows@[i - 1]);
            assert(operations@ =~= before + purge_windows(
                m,
                seen,
                attributes.deep_view(),
                kind,
                name@,
            ));
        }
    }
    assert(windows@.take(i as int) =~= windows@);
}

fn push_purge_containers(
    operations: &mut Vec<Operation>,
    m: usize,
    containers: &Vec<Container>,
    attributes: &Vec<(u32, WindowAttributes)>,
    kind: ApplicationIdentifier,
    name: &str,
)
    ensures
        final(operations)@ == old(operations)@ + purge_containers(
            m,
            containers.deep_view(),
            attributes.deep_view(),
            kind,
            name@,
        ),
{
    let ghost before = operations@;
    let ghost all = containers.deep_view();
    assert(all.take(0) =~= Seq::empty());
    assert(operations@ =~= before + purge_containers(
        m,
        all.take(0),
        attributes.deep_view(),
        kind,
        name@,
    ));
    let mut i: usize = 0;
    while i < containers.len()
        invariant
            i <= containers.len(),
            all == containers.deep_view(),
            operations@ == before + purge_containers(
                m,
                all.take(i as int),
                attributes.deep_view(),
                kind,
                name@,
            ),
        decreases containers.len() - i,
    {
        assert(all[i as int] == containers[i as int].deep_view());
        push_purge_windows(operations, m, &containers[i].windows, attributes, kind, name);
        i += 1;
        proof {
            let seen = all.take(i as int);
            assert(seen.drop_last() =~= all.take(i - 1));
            assert(seen.last() == all[i - 1]);
            assert(operations@ =~= before + purge_containers(
                m,
                seen,
                attributes.deep_view(),
                kind,
                name@,
            ));
        }
    }
    assert(all.take(i as int) =~= all);
}

impl WindowManager {
    fn float_foreground_window(&mut self, sight: &CommandSight) -> (plan: CommandPlan)
        ensures
            (final(self).deep_view(), plan.deep_view()) == session_float_effect(
                old(self).deep_view(),
                sight.deep_view().foreground,
            ),
    {
        match &sight.foreground {
            Some(window) => match (&window.exe, &window.title, &window.role) {
                (Some(exe), Some(title), Some(role)) => {
                    self.rules.add_session_float_rule(exe.clone(), title.clone(), role.clone());
                    CommandPlan::single(Operation::ToggleFloat(true))
                },
                _ => CommandPlan::nothing(),
            },
            None => CommandPlan::failed(CommandError::NoForegroundWindow),
        }
    }

    fn add_rule(
        &mut self,
        kind: ApplicationIdentifier,
        id: String,
        place: Option<(usize, usize)>,
        initial_only: bool,
    ) -> (plan: CommandPlan)
        ensures
            (final(self).deep_view(), plan.deep_view()) == add_rule_effect(
                old(self).deep_view(),
                kind,
                id@,
                place,
                initial_only,
            ),
    {
        if let Some((m, w)) = place {
            self.rules.add_workspace_rule(kind, id, m, w, initial_only);
        }
        CommandPlan::nothing()
    }

    fn add_named_rule(
        &mut self,
        kind: ApplicationIdentifier,
        id: String,
        name: &str,
        initial_only: bool,
    ) -> (plan: CommandPlan)
        ensures
            (final(self).deep_view(), plan.deep_view()) == add_rule_effect(
                old(self).deep_view(),
                kind,
                id@,
                old(self).deep_view().named(name@),
                initial_only,
            ),
    {
        let place = self.monitor_workspace_index_by_name(name);
        self.add_rule(kind, id, place, initial_only)
    }

    fn clear_rules(&mut self, place: Option<(usize, usize)>) -> (plan: CommandPlan)
        ensures
            (final(self).deep_view(), plan.deep_view()) == clear_rules_effect(
                old(self).deep_view(),
                place,
            ),
    {
        if let Some((m, w)) = place {
            self.rules.clear_workspace_rules(m, w);
        }
        CommandPlan::nothing()
    }

    fn clear_named_rules(&mut self, name: &str) -> (plan: CommandPlan)
        ensures
            (final(self).deep_view(), plan.deep_view()) == clear_rules_effect(
                old(self).deep_view(),
                old(self).deep_view().named(name@),
            ),
    {
        let place = self.monitor_workspace_index_by_name(name);
        self.clear_rules(place)
    }

    fn clear_all_rules(&mut self) -> (plan: CommandPlan)
        ensures
            plan.deep_view() == plan::plan_nothing(),
            final(self).deep_view() == (WindowManagerView {
                rules: RuleBookView {
                    workspace_matching_rules: Seq::empty(),
                    ..old(self).deep_view().rules
                },
                ..old(self).deep_view()
            }),
    {
        self.rules.workspace_matching_rules.clear();
        assert(self.rules.workspace_matching_rules.deep_view() =~= Seq::empty());
        CommandPlan::nothing()
    }

    fn enforce_rules(&mut self) -> (plan: CommandPlan)
        ensures
            plan.deep_view() == plan::plan_of(seq![Operation::EnforceWorkspaceRules]),
            final(self).deep_view() == (WindowManagerView {
                already_moved_window_ids: Seq::empty(),
                ..old(self).deep_view()
            }),
    {
        self.already_moved_window_ids.clear();
        CommandPlan::single(Operation::EnforceWorkspaceRules)
    }

    fn purge_ignored(
        &self,
        kind: ApplicationIdentifier,
        name: &str,
        attributes: &Vec<(u32, WindowAttributes)>,
    ) -> (plan: CommandPlan)
        ensures
            plan.deep_view() == if all_have_workspaces(self.deep_view().monitors) {
                plan::plan_of(
                    purge_monitors(
                        self.monitors.len() as nat,
                        self.deep_view().monitors,
                        attributes.deep_view(),
                        kind,
                        name@,
                    ),
                )
            } else {
                plan::plan_failure(CommandError::NoWorkspace)
            },
    {
        let ghost all = self.deep_view().monitors;
        let mut operations: Vec<Operation> = Vec::new();
        let mut m: usize = 0;
        while m < self.monitors.len()
            invariant
                m <= self.monitors.len(),
                all == self.deep_view().monitors,
                forall|i: int| 0 <= i < m ==> (#[trigger] all[i]).focused() is Some,
                operations@ == purge_monitors(
                    m as nat,
                    all,
                    attributes.deep_view(),
                    kind,
                    name@,
                ),
            decreases self.monitors.len() - m,
        {
            assert(all[m as int] == self.monitors[m as int].deep_view());
            match self.monitors[m].focused() {
                Some(workspace) => {
                    push_purge_containers(
                        &mut operations,
                        m,
                        &workspace.containers,
                        attributes,
                        kind,
                        name,
                    );
                },
                None => {
                    assert(!all_have_workspaces(all)) by {
                        assert(all[m as int].focused() is None);
                    }
                    return CommandPlan::failed(CommandError::NoWorkspace);
                },
            }
            m += 1;
        }
        CommandPlan::of(operations)
    }

    fn ignore(
        &mut self,
        kind: ApplicationIdentifier,
        id: String,
        attributes: &Vec<(u32, WindowAttributes)>,
    ) -> (plan: CommandPlan)
        ensures
            (final(self).deep_view(), plan.deep_view()) == ignore_effect(
                old(self).deep_view(),
                kind,
                id@,
                attributes.deep_view(),
            ),
    {
        let plan = self.purge_ignored(kind, id.as_str(), attributes);
        rule_book::push_legacy_rule(&mut self.rules.ignore_identifiers, kind, id);
        plan
    }

    fn manage(&mut self, kind: ApplicationIdentifier, id: String) -> (plan: CommandPlan)
        ensures
            (final(self).deep_view(), plan.deep_view()) == manage_effect(
                old(self).deep_view(),
                kind,
                id@,
            ),
    {
        rule_book::push_legacy_rule(&mut self.rules.manage_identifiers, kind, id);
        CommandPlan::nothing()
    }

    fn replace_configuration(&mut self, path: String, valid: bool) -> (plan: CommandPlan)
        ensures
            (final(self).deep_view(), plan.deep_view()) == replace_configuration_effect(
                old(self).deep_view(),
                path,
                valid,
            ),
    {
        if !valid {
            return CommandPlan::nothing();
        }
        let _ = self.clear_all_rules();
        self.is_paused = true;
        CommandPlan::pair(
            Operation::RestoreAllWindows(false),
            Operation::StartOverFromConfiguration(path),
        )
    }

    /// Carries out a command that changes the rules.
    pub fn rules_command(&mut self, message: SocketMessage, sight: &CommandSight) -> (plan:
        CommandPlan)
        ensures
            (final(self).deep_view(), plan.deep_view()) == rules_effect(
                old(self).deep_view(),
                message,
                sight.deep_view(),
            ),
    {
        match message {
            SocketMessage::SessionFloatRule => self.float_foreground_window(sight),
            SocketMessage::ClearSessionFloatRules => {
                self.rules.clear_session_float_rules();
                CommandPlan::nothing()
            },
            SocketMessage::InitialWorkspaceRule(kind, id, m, w) => self.add_rule(
                kind,
                id,
                Some((m, w)),
                true,
            ),
            SocketMessage::InitialNamedWorkspaceRule(kind, id, name) => self.add_named_rule(
                kind,
                id,
                name.as_str(),
                true,
            ),
            SocketMessage::WorkspaceRule(kind, id, m, w) => self.add_rule(
                kind,
                id,
                Some((m, w)),
                false,
            ),
            SocketMessage::NamedWorkspaceRule(kind, id, name) => self.add_named_rule(
                kind,
                id,
                name.as_str(),
                false,
            ),
            SocketMessage::ClearWorkspaceRules(m, w) => self.clear_rules(Some((m, w))),
            SocketMessage::ClearNamedWorkspaceRules(name) => self.clear_named_rules(name.as_str()),
            SocketMessage::ClearAllWorkspaceRules => self.clear_all_rules(),
            SocketMessage::EnforceWorkspaceRules => self.enforce_rules(),
            SocketMessage::IgnoreRule(kind, id) => self.ignore(kind, id, &sight.attributes),
            SocketMessage::ManageRule(kind, id) => self.manage(kind, id),
            SocketMessage::ReplaceConfiguration(path) => self.replace_configuration(
                path,
                sight.configuration_is_valid,
            ),
            message => self.workspaces_command(message, sight),
        }
    }
}

} // verus!
