//! What commands that change the rules do.

use crate::message::SocketMessage;
use crate::operation::Operation;
use crate::process_command::going;
use crate::process_command::plan::CommandSightView;
use crate::process_command;
use crate::rule_book::RuleBookView;
use crate::rule_book;
use crate::rules::ApplicationIdentifier;
use crate::rules::IdWithIdentifierView;
use crate::rules::MatchingRuleView;
use crate::rules::MatchingStrategy;
use crate::rules::WorkspaceMatchingRuleView;
use crate::sequences;
use crate::settings::WindowAttributesView;
use crate::window_manager::CommandError;
use crate::window_manager::ContainerView;
use crate::window_manager::MonitorView;
use crate::window_manager::Window;
use crate::window_manager::WindowManagerView;
use vstd::prelude::*;

verus! {

/// A comparison wants one part of a window to read exactly a text.
pub open spec fn wants(
    identifier: IdWithIdentifierView,
    kind: ApplicationIdentifier,
    text: Seq<char>,
) -> bool {
    &&& identifier.kind == kind
    &&& identifier.id == text
    &&& identifier.matching_strategy == Some(MatchingStrategy::Equals)
}

/// A rule is for windows of one application, one title and one role.
pub open spec fn is_for(
    rule: MatchingRuleView,
    exe: Seq<char>,
    title: Seq<char>,
    role: Seq<char>,
) -> bool {
    match rule {
        MatchingRuleView::Composite(identifiers) => {
            &&& identifiers.len() == 3
            &&& wants(identifiers[0], ApplicationIdentifier::Exe, exe)
            &&& wants(identifiers[1], ApplicationIdentifier::Title, title)
            &&& wants(identifiers[2], ApplicationIdentifier::Class, role)
        },
        _ => false,
    }
}

/// Floating the window in front for the session adds a rule for its application, title and role to
/// those that make windows float, and notes that it is one of this session; the window itself is
/// toggled. A window that does not tell all three is left alone, and there has to be one.
pub proof fn law_the_window_in_front_floats_for_the_session(
    wm: WindowManagerView,
    sight: CommandSightView,
)
    requires
        going::is_heard(wm, sight),
    ensures
        ({
            let (after, plan) = process_command::command_effect(
                wm,
                SocketMessage::SessionFloatRule,
                sight,
            );
            let floating = after.rules.floating_applications;
            let session = after.rules.session_floating_applications;
            match sight.foreground {
                None => after == wm && going::fails(plan, CommandError::NoForegroundWindow),
                Some(window) => if window.exe is Some && window.title is Some && window.role
                    is Some {
                    &&& going::does(plan, seq![Operation::ToggleFloat(true)])
                    &&& after == (WindowManagerView { rules: after.rules, ..wm })
                    &&& after.rules == (RuleBookView {
                        floating_applications: floating,
                        session_floating_applications: session,
                        ..wm.rules
                    })
                    &&& floating.len() == wm.rules.floating_applications.len() + 1
                    &&& floating.drop_last() =~= wm.rules.floating_applications
                    &&& is_for(
                        floating.last(),
                        window.exe->0,
                        window.title->0,
                        window.role->0,
                    )
                    &&& session.len() == wm.rules.session_floating_applications.len() + 1
                    &&& session.drop_last() =~= wm.rules.session_floating_applications
                    &&& session.last() == floating.last()
                } else {
                    after == wm && going::does(plan, Seq::empty())
                },
            }
        }),
{
}

/// Once the rules of the session are cleared none is left, and the rules that make windows float
/// are those that were not of the session.
pub proof fn law_session_rules_are_cleared(
    wm: WindowManagerView,
    rule: MatchingRuleView,
    sight: CommandSightView,
)
    requires
        going::is_heard(wm, sight),
    ensures
        ({
            let (after, plan) = process_command::command_effect(
                wm,
                SocketMessage::ClearSessionFloatRules,
                sight,
            );
            let floating = after.rules.floating_applications;
            &&& going::does(plan, Seq::empty())
            &&& after == (WindowManagerView { rules: after.rules, ..wm })
            &&& after.rules == (RuleBookView {
                floating_applications: floating,
                session_floating_applications: Seq::empty(),
                ..wm.rules
            })
            &&& floating.contains(rule) <==> wm.rules.floating_applications.contains(rule)
                && !wm.rules.session_floating_applications.contains(rule)
        }),
{
    sequences::lemma_filter_contains(
        wm.rules.floating_applications,
        rule_book::not_among(wm.rules.session_floating_applications),
        rule,
    );
}

/// A rule sends windows that go by a name, by the legacy comparison, to a place.
pub open spec fn sends(
    rule: WorkspaceMatchingRuleView,
    kind: ApplicationIdentifier,
    id: Seq<char>,
    m: usize,
    w: usize,
    initial_only: bool,
) -> bool {
    &&& rule.monitor_index == m
    &&& rule.workspace_index == w
    &&& rule.initial_only == initial_only
    &&& rule.matching_rule == MatchingRuleView::Simple(
        IdWithIdentifierView { kind, id, matching_strategy: Some(MatchingStrategy::Legacy) },
    )
}

/// The rules of one state are those of another and one more that sends windows to a place, which
/// is added at the end if it was not there.
pub open spec fn one_more_sends(
    after: WindowManagerView,
    wm: WindowManagerView,
    kind: ApplicationIdentifier,
    id: Seq<char>,
    m: usize,
    w: usize,
    initial_only: bool,
) -> bool {
    let now = after.rules.workspace_matching_rules;
    let before = wm.rules.workspace_matching_rules;
    &&& after == (WindowManagerView { rules: after.rules, ..wm })
    &&& after.rules == (RuleBookView { workspace_matching_rules: now, ..wm.rules })
    &&& exists|i: int|
        0 <= i < now.len() && sends(#[trigger] now[i], kind, id, m, w, initial_only)
    &&& if exists|i: int|
        0 <= i < before.len() && sends(#[trigger] before[i], kind, id, m, w, initial_only) {
        now == before
    } else {
        now.len() == before.len() + 1 && now.drop_last() =~= before
    }
}

proof fn lemma_one_more_sends(
    wm: WindowManagerView,
    kind: ApplicationIdentifier,
    id: Seq<char>,
    m: usize,
    w: usize,
    initial_only: bool,
)
    ensures
        one_more_sends(
            process_command::rules::add_rule_effect(wm, kind, id, Some((m, w)), initial_only).0,
            wm,
            kind,
            id,
            m,
            w,
            initial_only,
        ),
{
    let after = process_command::rules::add_rule_effect(
        wm,
        kind,
        id,
        Some((m, w)),
        initial_only,
    ).0;
    let before = wm.rules.workspace_matching_rules;
    let now = after.rules.workspace_matching_rules;
    let rule = rule_book::workspace_rule(kind, id, m, w, initial_only);
    assert forall|other: WorkspaceMatchingRuleView| #[trigger]
        sends(other, kind, id, m, w, initial_only) implies other == rule by {}
    if before.contains(rule) {
        let i = choose|i: int| 0 <= i < before.len() && before[i] == rule;
        assert(sends(before[i], kind, id, m, w, initial_only));
        assert(sends(now[i], kind, id, m, w, initial_only));
    } else {
        assert forall|i: int| 0 <= i < before.len() implies !sends(
            #[trigger] before[i],
            kind,
            id,
            m,
            w,
            initial_only,
        ) by {}
        assert(sends(now[before.len() as int], kind, id, m, w, initial_only));
    }
}

/// A workspace rule sends windows that go by a name to a workspace each time, and an initial one
/// sends them there once. No rule is added twice, and none is lost.
pub proof fn law_workspace_rules_are_added(
    wm: WindowManagerView,
    kind: ApplicationIdentifier,
    id: String,
    m: usize,
    w: usize,
    sight: CommandSightView,
)
    requires
        going::is_heard(wm, sight),
    ensures
        one_more_sends(
            process_command::command_effect(
                wm,
                SocketMessage::WorkspaceRule(kind, id, m, w),
                sight,
            ).0,
            wm,
            kind,
            id@,
            m,
            w,
            false,
        ),
        going::does(
            process_command::command_effect(
                wm,
                SocketMessage::WorkspaceRule(kind, id, m, w),
                sight,
            ).1,
            Seq::empty(),
        ),
        one_more_sends(
            process_command::command_effect(
                wm,
                SocketMessage::InitialWorkspaceRule(kind, id, m, w),
                sight,
            ).0,
            wm,
            kind,
            id@,
            m,
            w,
            true,
        ),
        going::does(
            process_command::command_effect(
                wm,
                SocketMessage::InitialWorkspaceRule(kind, id, m, w),
                sight,
            ).1,
            Seq::empty(),
        ),
{
    lemma_one_more_sends(wm, kind, id@, m, w, false);
    lemma_one_more_sends(wm, kind, id@, m, w, true);
}

/// A rule for a workspace that goes by a name is one for the first that does, and no rule where
/// none does.
pub proof fn law_workspace_rules_are_added_by_name(
    wm: WindowManagerView,
    kind: ApplicationIdentifier,
    id: String,
    name: String,
    initial_only: bool,
    sight: CommandSightView,
)
    requires
        going::is_heard(wm, sight),
        wm.monitors.len() <= usize::MAX,
        forall|i: int|
            0 <= i < wm.monitors.len() ==> (#[trigger] wm.monitors[i]).workspaces.len()
                <= usize::MAX,
    ensures
        ({
            let (after, plan) = process_command::command_effect(
                wm,
                if initial_only {
                    SocketMessage::InitialNamedWorkspaceRule(kind, id, name)
                } else {
                    SocketMessage::NamedWorkspaceRule(kind, id, name)
                },
                sight,
            );
            &&& going::does(plan, Seq::empty())
            &&& {
                ||| {
                    &&& forall|i: int, j: int| !#[trigger] going::goes_by(wm, name@, i, j)
                    &&& after == wm
                }
                ||| exists|m: usize, w: usize| #[trigger]
                    going::is_first_by(wm, name@, m, w) && one_more_sends(
                        after,
                        wm,
                        kind,
                        id@,
                        m,
                        w,
                        initial_only,
                    )
            }
        }),
{
    going::lemma_first_by(wm, name@);
    if let Some((m, w)) = wm.named(name@) {
        lemma_one_more_sends(wm, kind, id@, m, w, initial_only);
    }
}

/// Clearing the rules of a workspace leaves exactly the rules that name neither its monitor nor a
/// workspace of its number; clearing all of them leaves none.
pub proof fn law_workspace_rules_are_cleared(
    wm: WindowManagerView,
    m: usize,
    w: usize,
    rule: WorkspaceMatchingRuleView,
    sight: CommandSightView,
)
    requires
        going::is_heard(wm, sight),
    ensures
        ({
            let (after, plan) = process_command::command_effect(
                wm,
                SocketMessage::ClearWorkspaceRules(m, w),
                sight,
            );
            let now = after.rules.workspace_matching_rules;
            &&& going::does(plan, Seq::empty())
            &&& after == (WindowManagerView { rules: after.rules, ..wm })
            &&& after.rules == (RuleBookView { workspace_matching_rules: now, ..wm.rules })
            &&& now.contains(rule) <==> wm.rules.workspace_matching_rules.contains(rule)
                && rule.monitor_index != m && rule.workspace_index != w
        }),
        ({
            let (after, plan) = process_command::command_effect(
                wm,
                SocketMessage::ClearAllWorkspaceRules,
                sight,
            );
            &&& going::does(plan, Seq::empty())
            &&& after == (WindowManagerView { rules: after.rules, ..wm })
            &&& after.rules == (RuleBookView {
                workspace_matching_rules: Seq::empty(),
                ..wm.rules
            })
        }),
        ({
            let (after, plan) = process_command::command_effect(
                wm,
                SocketMessage::EnforceWorkspaceRules,
                sight,
            );
            &&& going::does(plan, seq![Operation::EnforceWorkspaceRules])
            &&& after == (WindowManagerView { already_moved_window_ids: Seq::empty(), ..wm })
        }),
{
    sequences::lemma_filter_contains(
        wm.rules.workspace_matching_rules,
        rule_book::outlasts_clearing(m, w),
        rule,
    );
}

/// Clearing the rules of a workspace that goes by a name clears those of the first that does.
pub proof fn law_workspace_rules_are_cleared_by_name(
    wm: WindowManagerView,
    name: String,
    rule: WorkspaceMatchingRuleView,
    sight: CommandSightView,
)
    requires
        going::is_heard(wm, sight),
        wm.monitors.len() <= usize::MAX,
        forall|i: int|
            0 <= i < wm.monitors.len() ==> (#[trigger] wm.monitors[i]).workspaces.len()
                <= usize::MAX,
    ensures
        ({
            let (after, plan) = process_command::command_effect(
                wm,
                SocketMessage::ClearNamedWorkspaceRules(name),
                sight,
            );
            let now = after.rules.workspace_matching_rules;
            let before = wm.rules.workspace_matching_rules;
            &&& going::does(plan, Seq::empty())
            &&& {
                ||| {
                    &&& forall|i: int, j: int| !#[trigger] going::goes_by(wm, name@, i, j)
                    &&& after == wm
                }
                ||| exists|m: usize, w: usize| #[trigger]
                    going::is_first_by(wm, name@, m, w) && now.contains(rule) == (before.contains(
                        rule,
                    ) && rule.monitor_index != m && rule.workspace_index != w)
            }
        }),
{
    going::lemma_first_by(wm, name@);
    if let Some((m, w)) = wm.named(name@) {
        sequences::lemma_filter_contains(
            wm.rules.workspace_matching_rules,
            rule_book::outlasts_clearing(m, w),
            rule,
        );
    }
}

/// A rule of one comparison names a text.
pub open spec fn names(rule: MatchingRuleView, id: Seq<char>) -> bool {
    match rule {
        MatchingRuleView::Simple(identifier) => identifier.id == id,
        _ => false,
    }
}

/// A list of rules is another with one legacy rule for a name at the end, unless some rule of one
/// comparison named it before.
pub open spec fn one_more_names(
    now: Seq<MatchingRuleView>,
    before: Seq<MatchingRuleView>,
    kind: ApplicationIdentifier,
    id: Seq<char>,
) -> bool {
    if exists|i: int| 0 <= i < before.len() && names(#[trigger] before[i], id) {
        now == before
    } else {
        &&& now.len() == before.len() + 1
        &&& now.drop_last() =~= before
        &&& now.last() == MatchingRuleView::Simple(
            IdWithIdentifierView { kind, id, matching_strategy: Some(MatchingStrategy::Legacy) },
        )
    }
}

proof fn lemma_one_more_names(
    before: Seq<MatchingRuleView>,
    kind: ApplicationIdentifier,
    id: Seq<char>,
)
    ensures
        one_more_names(rule_book::with_legacy_rule(before, kind, id), before, kind, id),
{
    assert forall|rule: MatchingRuleView| #[trigger] names(rule, id) == rule_book::rule_names(
        rule,
        id,
    ) by {}
    if exists|i: int| 0 <= i < before.len() && names(#[trigger] before[i], id) {
        let i = choose|i: int| 0 <= i < before.len() && names(#[trigger] before[i], id);
        assert(rule_book::rule_names(before[i], id));
    } else if rule_book::names_id(before, id) {
        let i = choose|i: int|
            0 <= i < before.len() && rule_book::rule_names(#[trigger] before[i], id);
        assert(names(before[i], id));
    }
}

/// A name that is to be managed gets a rule among those that ask for windows, and one that is to
/// be ignored a rule among those that ignore them; neither touches the other.
pub proof fn law_names_are_managed_and_ignored(
    wm: WindowManagerView,
    kind: ApplicationIdentifier,
    id: String,
    sight: CommandSightView,
)
    requires
        going::is_heard(wm, sight),
    ensures
        ({
            let (after, plan) = process_command::command_effect(
                wm,
                SocketMessage::ManageRule(kind, id),
                sight,
            );
            let now = after.rules.manage_identifiers;
            &&& going::does(plan, Seq::empty())
            &&& after == (WindowManagerView { rules: after.rules, ..wm })
            &&& after.rules == (RuleBookView { manage_identifiers: now, ..wm.rules })
            &&& one_more_names(now, wm.rules.manage_identifiers, kind, id@)
        }),
        ({
            let after = process_command::command_effect(
                wm,
                SocketMessage::IgnoreRule(kind, id),
                sight,
            ).0;
            let now = after.rules.ignore_identifiers;
            &&& after == (WindowManagerView { rules: after.rules, ..wm })
            &&& after.rules == (RuleBookView { ignore_identifiers: now, ..wm.rules })
            &&& one_more_names(now, wm.rules.ignore_identifiers, kind, id@)
        }),
{
    lemma_one_more_names(wm.rules.manage_identifiers, kind, id@);
    lemma_one_more_names(wm.rules.ignore_identifiers, kind, id@);
}

/// Starting over from another configuration pauses everything and drops the workspace rules before
/// all windows are restored and the start is made; one that cannot be read changes nothing.
pub proof fn law_a_readable_configuration_is_started_from(
    wm: WindowManagerView,
    path: String,
    sight: CommandSightView,
)
    requires
        going::is_heard(wm, sight),
    ensures
        ({
            let (after, plan) = process_command::command_effect(
                wm,
                SocketMessage::ReplaceConfiguration(path),
                sight,
            );
            if sight.configuration_is_valid {
                &&& after.is_paused
                &&& after.rules.workspace_matching_rules.len() == 0
                &&& after == (WindowManagerView { rules: after.rules, is_paused: true, ..wm })
                &&& after.rules == (RuleBookView {
                    workspace_matching_rules: after.rules.workspace_matching_rules,
                    ..wm.rules
                })
                &&& going::does(
                    plan,
                    seq![
                        Operation::RestoreAllWindows(false),
                        Operation::StartOverFromConfiguration(path),
                    ],
                )
            } else {
                after == wm && going::does(plan, Seq::empty())
            }
        }),
{
}

/// What a window tells about itself: the first that is listed under its id, and nothing where it
/// is not listed.
pub open spec fn is_told(
    attributes: Seq<(u32, WindowAttributesView)>,
    id: u32,
    window: WindowAttributesView,
) -> bool {
    ||| {
        &&& forall|j: int| 0 <= j < attributes.len() ==> (#[trigger] attributes[j]).0 != id
        &&& window.title is None
        &&& window.exe is None
        &&& window.role is None
        &&& window.subrole is None
        &&& window.path is None
    }
    ||| exists|i: int|
        {
            &&& 0 <= i < attributes.len()
            &&& #[trigger] attributes[i] == (id, window)
            &&& forall|j: int| 0 <= j < i ==> (#[trigger] attributes[j]).0 != id
        }
}

proof fn lemma_told_from(attributes: Seq<(u32, WindowAttributesView)>, id: u32, from: int)
    requires
        0 <= from,
        forall|j: int| 0 <= j < from && j < attributes.len() ==> (#[trigger] attributes[j]).0 != id,
    ensures
        is_told(attributes, id, crate::settings::attributes_of(attributes, id, from)),
    decreases attributes.len() - from,
{
    if from < attributes.len() {
        if attributes[from].0 == id {
            assert(attributes[from] == (id, attributes[from].1));
        } else {
            lemma_told_from(attributes, id, from + 1);
        }
    }
}

proof fn lemma_told(
    attributes: Seq<(u32, WindowAttributesView)>,
    id: u32,
    window: WindowAttributesView,
)
    requires
        is_told(attributes, id, window),
    ensures
        window == crate::settings::attributes_of(attributes, id, 0),
{
    lemma_told_from(attributes, id, 0);
    let other = crate::settings::attributes_of(attributes, id, 0);
    if exists|i: int| 0 <= i < attributes.len() && (#[trigger] attributes[i]).0 == id {
        let i = choose|i: int|
            {
                &&& 0 <= i < attributes.len()
                &&& #[trigger] attributes[i] == (id, window)
                &&& forall|j: int| 0 <= j < i ==> (#[trigger] attributes[j]).0 != id
            };
        let k = choose|k: int|
            {
                &&& 0 <= k < attributes.len()
                &&& #[trigger] attributes[k] == (id, other)
                &&& forall|j: int| 0 <= j < k ==> (#[trigger] attributes[j]).0 != id
            };
        if i < k {
            assert(attributes[i].0 != id);
        } else if k < i {
            assert(attributes[k].0 != id);
        }
    }
}

/// A part of a window reads as a name; a part that is not told reads as empty.
pub open spec fn reads_as(part: Option<Seq<char>>, name: Seq<char>) -> bool {
    if part is Some {
        part->0 == name
    } else {
        name.len() == 0
    }
}

/// A window goes by a name: its path, its application or its title reads so, or its role or its
/// subrole does.
pub open spec fn is_named(
    window: WindowAttributesView,
    kind: ApplicationIdentifier,
    name: Seq<char>,
) -> bool {
    match kind {
        ApplicationIdentifier::Path => reads_as(window.path, name),
        ApplicationIdentifier::Exe => reads_as(window.exe, name),
        ApplicationIdentifier::Title => reads_as(window.title, name),
        ApplicationIdentifier::Class => reads_as(window.role, name) || reads_as(
            window.subrole,
            name,
        ),
    }
}

proof fn lemma_purge_window(
    m: usize,
    id: u32,
    window: WindowAttributesView,
    kind: ApplicationIdentifier,
    name: Seq<char>,
)
    ensures
        process_command::rules::purge_window(m, id, window, kind, name) == if is_named(
            window,
            kind,
            name,
        ) {
            seq![Operation::RemoveWindow(m, id), Operation::UpdateMonitorFocusedWorkspace(m)]
        } else {
            Seq::empty()
        },
{
    assert forall|part: Option<Seq<char>>| #[trigger] reads_as(part, name)
        == crate::settings::reads(part, name) by {
        if part is None && name.len() == 0 {
            assert(name =~= Seq::<char>::empty());
        }
    }
    assert(reads_as(window.path, name) == crate::settings::reads(window.path, name));
    assert(reads_as(window.exe, name) == crate::settings::reads(window.exe, name));
    assert(reads_as(window.title, name) == crate::settings::reads(window.title, name));
    assert(reads_as(window.role, name) == crate::settings::reads(window.role, name));
    assert(reads_as(window.subrole, name) == crate::settings::reads(window.subrole, name));
}

proof fn lemma_purge_windows(
    m: usize,
    windows: Seq<Window>,
    attributes: Seq<(u32, WindowAttributesView)>,
    kind: ApplicationIdentifier,
    name: Seq<char>,
    i: int,
)
    requires
        0 <= i < windows.len(),
        is_named(crate::settings::attributes_of(attributes, windows[i].id, 0), kind, name),
    ensures
        process_command::rules::purge_windows(m, windows, attributes, kind, name).contains(
            Operation::RemoveWindow(m, windows[i].id),
        ),
    decreases windows.len(),
{
    let last = windows.last();
    let told = crate::settings::attributes_of(attributes, last.id, 0);
    let earlier = process_command::rules::purge_windows(
        m,
        windows.drop_last(),
        attributes,
        kind,
        name,
    );
    let all = process_command::rules::purge_windows(m, windows, attributes, kind, name);
    let operation = Operation::RemoveWindow(m, windows[i].id);
    lemma_purge_window(m, last.id, told, kind, name);
    if i < windows.len() - 1 {
        lemma_purge_windows(m, windows.drop_last(), attributes, kind, name, i);
        let k = choose|k: int| 0 <= k < earlier.len() && earlier[k] == operation;
        assert(all[k] == operation);
    } else {
        assert(all[earlier.len() as int] == operation);
    }
}

proof fn lemma_purge_containers(
    m: usize,
    containers: Seq<ContainerView>,
    attributes: Seq<(u32, WindowAttributesView)>,
    kind: ApplicationIdentifier,
    name: Seq<char>,
    c: int,
    i: int,
)
    requires
        0 <= c < containers.len(),
        0 <= i < containers[c].windows.len(),
        is_named(
            crate::settings::attributes_of(attributes, containers[c].windows[i].id, 0),
            kind,
            name,
        ),
    ensures
        process_command::rules::purge_containers(m, containers, attributes, kind, name).contains(
            Operation::RemoveWindow(m, containers[c].windows[i].id),
        ),
    decreases containers.len(),
{
    let earlier = process_command::rules::purge_containers(
        m,
        containers.drop_last(),
        attributes,
        kind,
        name,
    );
    let all = process_command::rules::purge_containers(m, containers, attributes, kind, name);
    let operation = Operation::RemoveWindow(m, containers[c].windows[i].id);
    if c < containers.len() - 1 {
        lemma_purge_containers(m, containers.drop_last(), attributes, kind, name, c, i);
        let k = choose|k: int| 0 <= k < earlier.len() && earlier[k] == operation;
        assert(all[k] == operation);
    } else {
        let own = process_command::rules::purge_windows(
            m,
            containers[c].windows,
            attributes,
            kind,
            name,
        );
        lemma_purge_windows(m, containers[c].windows, attributes, kind, name, i);
        let k = choose|k: int| 0 <= k < own.len() && own[k] == operation;
        assert(all[earlier.len() + k] == operation);
    }
}

proof fn lemma_purge_monitors(
    n: nat,
    monitors: Seq<MonitorView>,
    attributes: Seq<(u32, WindowAttributesView)>,
    kind: ApplicationIdentifier,
    name: Seq<char>,
    m: usize,
    c: int,
    i: int,
)
    requires
        m < n <= monitors.len() <= usize::MAX,
        process_command::rules::all_have_workspaces(monitors),
        0 <= c < monitors[m as int].focused()->0.containers.len(),
        0 <= i < monitors[m as int].focused()->0.containers[c].windows.len(),
        is_named(
            crate::settings::attributes_of(
                attributes,
                monitors[m as int].focused()->0.containers[c].windows[i].id,
                0,
            ),
            kind,
            name,
        ),
    ensures
        process_command::rules::purge_monitors(n, monitors, attributes, kind, name).contains(
            Operation::RemoveWindow(
                m,
                monitors[m as int].focused()->0.containers[c].windows[i].id,
            ),
        ),
    decreases n,
{
    let earlier = process_command::rules::purge_monitors(
        (n - 1) as nat,
        monitors,
        attributes,
        kind,
        name,
    );
    let all = process_command::rules::purge_monitors(n, monitors, attributes, kind, name);
    let containers = monitors[m as int].focused()->0.containers;
    let operation = Operation::RemoveWindow(m, containers[c].windows[i].id);
    if m < n - 1 {
        lemma_purge_monitors((n - 1) as nat, monitors, attributes, kind, name, m, c, i);
        let k = choose|k: int| 0 <= k < earlier.len() && earlier[k] == operation;
        assert(all[k] == operation);
    } else {
        let own = process_command::rules::purge_containers(m, containers, attributes, kind, name);
        lemma_purge_containers(m, containers, attributes, kind, name, c, i);
        let k = choose|k: int| 0 <= k < own.len() && own[k] == operation;
        assert(all[earlier.len() + k] == operation);
    }
}

/// A window is shown in a container of the workspace that a monitor shows, and goes by a name.
pub open spec fn is_shown_named(
    monitors: Seq<MonitorView>,
    attributes: Seq<(u32, WindowAttributesView)>,
    kind: ApplicationIdentifier,
    name: Seq<char>,
    m: usize,
    c: int,
    i: int,
    id: u32,
) -> bool {
    &&& m < monitors.len()
    &&& monitors[m as int].focused_workspace < monitors[m as int].workspaces.len()
    &&& {
        let monitor = monitors[m as int];
        let workspace = monitor.workspaces[monitor.focused_workspace as int];
        &&& 0 <= c < workspace.containers.len()
        &&& 0 <= i < workspace.containers[c].windows.len()
        &&& workspace.containers[c].windows[i].id == id
        &&& exists|window: WindowAttributesView| #[trigger]
            is_told(attributes, id, window) && is_named(window, kind, name)
    }
}

proof fn lemma_purged_windows(
    m: usize,
    windows: Seq<Window>,
    attributes: Seq<(u32, WindowAttributesView)>,
    kind: ApplicationIdentifier,
    name: Seq<char>,
    k: int,
) -> (i: int)
    requires
        0 <= k < process_command::rules::purge_windows(m, windows, attributes, kind, name).len(),
    ensures
        ({
            let all = process_command::rules::purge_windows(m, windows, attributes, kind, name);
            &&& 0 <= i < windows.len()
            &&& is_named(
                crate::settings::attributes_of(attributes, windows[i].id, 0),
                kind,
                name,
            )
            &&& all[k] == Operation::RemoveWindow(m, windows[i].id) || all[k]
                == Operation::UpdateMonitorFocusedWorkspace(m)
        }),
    decreases windows.len(),
{
    let last = windows.last();
    let earlier = process_command::rules::purge_windows(
        m,
        windows.drop_last(),
        attributes,
        kind,
        name,
    );
    lemma_purge_window(
        m,
        last.id,
        crate::settings::attributes_of(attributes, last.id, 0),
        kind,
        name,
    );
    if windows.len() > 0 && k < earlier.len() {
        lemma_purged_windows(m, windows.drop_last(), attributes, kind, name, k)
    } else {
        windows.len() - 1
    }
}

proof fn lemma_purged_containers(
    m: usize,
    containers: Seq<ContainerView>,
    attributes: Seq<(u32, WindowAttributesView)>,
    kind: ApplicationIdentifier,
    name: Seq<char>,
    k: int,
) -> (place: (int, int))
    requires
        0 <= k < process_command::rules::purge_containers(
            m,
            containers,
            attributes,
            kind,
            name,
        ).len(),
    ensures
        ({
            let all = process_command::rules::purge_containers(
                m,
                containers,
                attributes,
                kind,
                name,
            );
            let (c, i) = place;
            &&& 0 <= c < containers.len()
            &&& 0 <= i < containers[c].windows.len()
            &&& is_named(
                crate::settings::attributes_of(attributes, containers[c].windows[i].id, 0),
                kind,
                name,
            )
            &&& all[k] == Operation::RemoveWindow(m, containers[c].windows[i].id) || all[k]
                == Operation::UpdateMonitorFocusedWorkspace(m)
        }),
    decreases containers.len(),
{
    let earlier = process_command::rules::purge_containers(
        m,
        containers.drop_last(),
        attributes,
        kind,
        name,
    );
    if containers.len() > 0 && k < earlier.len() {
        lemma_purged_containers(m, containers.drop_last(), attributes, kind, name, k)
    } else {
        let i = lemma_purged_windows(
            m,
            containers.last().windows,
            attributes,
            kind,
            name,
            k - earlier.len(),
        );
        (containers.len() - 1, i)
    }
}

proof fn lemma_purged_monitors(
    n: nat,
    monitors: Seq<MonitorView>,
    attributes: Seq<(u32, WindowAttributesView)>,
    kind: ApplicationIdentifier,
    name: Seq<char>,
    k: int,
) -> (place: (usize, int, int))
    requires
        n <= monitors.len() <= usize::MAX,
        process_command::rules::all_have_workspaces(monitors),
        0 <= k < process_command::rules::purge_monitors(
            n,
            monitors,
            attributes,
            kind,
            name,
        ).len(),
    ensures
        ({
            let all = process_command::rules::purge_monitors(n, monitors, attributes, kind, name);
            let (m, c, i) = place;
            let containers = monitors[m as int].focused()->0.containers;
            &&& m < monitors.len()
            &&& 0 <= c < containers.len()
            &&& 0 <= i < containers[c].windows.len()
            &&& is_named(
                crate::settings::attributes_of(attributes, containers[c].windows[i].id, 0),
                kind,
                name,
            )
            &&& all[k] == Operation::RemoveWindow(m, containers[c].windows[i].id) || all[k]
                == Operation::UpdateMonitorFocusedWorkspace(m)
        }),
    decreases n,
{
    let earlier = process_command::rules::purge_monitors(
        (n - 1) as nat,
        monitors,
        attributes,
        kind,
        name,
    );
    if n > 0 && k < earlier.len() {
        lemma_purged_monitors((n - 1) as nat, monitors, attributes, kind, name, k)
    } else {
        let (c, i) = lemma_purged_containers(
            (n - 1) as usize,
            monitors[n - 1].focused()->0.containers,
            attributes,
            kind,
            name,
            k - earlier.len(),
        );
        ((n - 1) as usize, c, i)
    }
}

/// Once a name is ignored, every window in a container of a workspace that is shown which goes by
/// that name is taken out, and no other window is.
pub proof fn law_ignored_windows_are_taken_out(
    wm: WindowManagerView,
    kind: ApplicationIdentifier,
    name: String,
    sight: CommandSightView,
)
    requires
        going::is_heard(wm, sight),
        wm.monitors.len() <= usize::MAX,
        forall|i: int|
            0 <= i < wm.monitors.len() ==> (#[trigger] wm.monitors[i]).focused_workspace
                < wm.monitors[i].workspaces.len(),
    ensures
        ({
            let plan = process_command::command_effect(
                wm,
                SocketMessage::IgnoreRule(kind, name),
                sight,
            ).1;
            &&& plan.failure is None
            &&& forall|m: usize, c: int, i: int, id: u32| #[trigger]
                is_shown_named(wm.monitors, sight.attributes, kind, name@, m, c, i, id)
                    ==> plan.operations.contains(Operation::RemoveWindow(m, id))
            &&& forall|k: int|
                0 <= k < plan.operations.len() && (#[trigger] plan.operations[k]) is RemoveWindow
                    ==> exists|c: int, i: int| #[trigger]
                    is_shown_named(
                        wm.monitors,
                        sight.attributes,
                        kind,
                        name@,
                        plan.operations[k]->RemoveWindow_0,
                        c,
                        i,
                        plan.operations[k]->RemoveWindow_1,
                    )
        }),
{
    let plan = process_command::command_effect(
        wm,
        SocketMessage::IgnoreRule(kind, name),
        sight,
    ).1;
    let n = wm.monitors.len();
    let made = process_command::rules::purge_monitors(
        n,
        wm.monitors,
        sight.attributes,
        kind,
        name@,
    );
    assert(process_command::rules::all_have_workspaces(wm.monitors));
    assert forall|m: usize, c: int, i: int, id: u32| #[trigger]
        is_shown_named(
            wm.monitors,
            sight.attributes,
            kind,
            name@,
            m,
            c,
            i,
            id,
        ) implies plan.operations.contains(Operation::RemoveWindow(m, id)) by {
        let window = choose|window: WindowAttributesView| #[trigger]
            is_told(sight.attributes, id, window) && is_named(window, kind, name@);
        lemma_told(sight.attributes, id, window);
        lemma_purge_monitors(n, wm.monitors, sight.attributes, kind, name@, m, c, i);
        let k = choose|k: int| 0 <= k < made.len() && made[k] == Operation::RemoveWindow(m, id);
        assert(plan.operations[k] == Operation::RemoveWindow(m, id));
    }
    assert forall|k: int|
        0 <= k < plan.operations.len() && (
        #[trigger] plan.operations[k]) is RemoveWindow implies exists|c: int, i: int| #[trigger]
        is_shown_named(
            wm.monitors,
            sight.attributes,
            kind,
            name@,
            plan.operations[k]->RemoveWindow_0,
            c,
            i,
            plan.operations[k]->RemoveWindow_1,
        ) by {
        let (m, c, i) = lemma_purged_monitors(
            n,
            wm.monitors,
            sight.attributes,
            kind,
            name@,
            k,
        );
        let id = wm.monitors[m as int].focused()->0.containers[c].windows[i].id;
        lemma_told_from(sight.attributes, id, 0);
        let operation = plan.operations[k];
        assert(operation == made[k]);
        assert(operation == Operation::RemoveWindow(m, id));
        assert(is_shown_named(wm.monitors, sight.attributes, kind, name@, m, c, i, id));
        assert(is_shown_named(
            wm.monitors,
            sight.attributes,
            kind,
            name@,
            operation->RemoveWindow_0,
            c,
            i,
            operation->RemoveWindow_1,
        ));
    }
}


/// A name is ignored from then on even where some monitor shows no workspace, but nothing can be taken
/// out there.
pub proof fn law_nothing_is_taken_out_without_workspaces(
    wm: WindowManagerView,
    kind: ApplicationIdentifier,
    name: String,
    sight: CommandSightView,
    m: int,
)
    requires
        going::is_heard(wm, sight),
        0 <= m < wm.monitors.len(),
        wm.monitors[m].focused_workspace >= wm.monitors[m].workspaces.len(),
    ensures
        going::fails(
            process_command::command_effect(wm, SocketMessage::IgnoreRule(kind, name), sight).1,
            CommandError::NoWorkspace,
        ),
{
    assert(wm.monitors[m].focused() is None);
}

} // verus!
