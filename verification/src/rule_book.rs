//! The rules in force, and how commands change them.

use crate::rules::ApplicationIdentifier;
use crate::rules::IdWithIdentifier;
use crate::rules::IdWithIdentifierView;
use crate::rules::MatchingRule;
use crate::rules::MatchingRuleView;
use crate::rules::MatchingStrategy;
use crate::rules::RegexIdentifiers;
use crate::rules::WorkspaceMatchingRule;
use crate::rules::WorkspaceMatchingRuleView;
use crate::text;
use crate::sequences;
use vstd::prelude::*;

verus! {

/// All the rules in force.
pub struct RuleBook {
    pub ignore_identifiers: Vec<MatchingRule>,
    pub manage_identifiers: Vec<MatchingRule>,
    pub floating_applications: Vec<MatchingRule>,
    pub session_floating_applications: Vec<MatchingRule>,
    pub workspace_matching_rules: Vec<WorkspaceMatchingRule>,
    pub permaignore_classes: Vec<String>,
    pub tabbed_applications: Vec<String>,
    pub titleless_applications: Vec<String>,
    pub regex_identifiers: RegexIdentifiers,
}

/// The value of a [`RuleBook`].
pub struct RuleBookView {
    pub ignore_identifiers: Seq<MatchingRuleView>,
    pub manage_identifiers: Seq<MatchingRuleView>,
    pub floating_applications: Seq<MatchingRuleView>,
    pub session_floating_applications: Seq<MatchingRuleView>,
    pub workspace_matching_rules: Seq<WorkspaceMatchingRuleView>,
    pub permaignore_classes: Seq<Seq<char>>,
    pub tabbed_applications: Seq<Seq<char>>,
    pub titleless_applications: Seq<Seq<char>>,
    pub regex_identifiers: Map<Seq<char>, Seq<char>>,
}

impl DeepView for RuleBook {
    type V = RuleBookView;

    open spec fn deep_view(&self) -> RuleBookView {
        RuleBookView {
            ignore_identifiers: self.ignore_identifiers.deep_view(),
            manage_identifiers: self.manage_identifiers.deep_view(),
            floating_applications: self.floating_applications.deep_view(),
            session_floating_applications: self.session_floating_applications.deep_view(),
            workspace_matching_rules: self.workspace_matching_rules.deep_view(),
            permaignore_classes: self.permaignore_classes.deep_view(),
            tabbed_applications: self.tabbed_applications.deep_view(),
            titleless_applications: self.titleless_applications.deep_view(),
            regex_identifiers: self.regex_identifiers@,
        }
    }
}

/// A rule of one comparison.
pub open spec fn simple_rule(
    kind: ApplicationIdentifier,
    id: Seq<char>,
    strategy: MatchingStrategy,
) -> MatchingRuleView {
    MatchingRuleView::Simple(IdWithIdentifierView { kind, id, matching_strategy: Some(strategy) })
}

/// The rules that are in force before any configuration is read.
pub open spec fn initial_rules() -> RuleBookView {
    RuleBookView {
        ignore_identifiers: seq![
            simple_rule(ApplicationIdentifier::Exe, "Spotlight"@, MatchingStrategy::Equals),
            simple_rule(ApplicationIdentifier::Exe, "komorebi-bar"@, MatchingStrategy::Equals),
        ],
        manage_identifiers: Seq::empty(),
        floating_applications: seq![
            simple_rule(
                ApplicationIdentifier::Exe,
                "komorebi-shortcuts.exe"@,
                MatchingStrategy::Equals,
            ),
        ],
        session_floating_applications: Seq::empty(),
        workspace_matching_rules: Seq::empty(),
        permaignore_classes: seq!["AXDialog"@],
        tabbed_applications: Seq::empty(),
        titleless_applications: Seq::empty(),
        regex_identifiers: Map::empty(),
    }
}

fn simple(kind: ApplicationIdentifier, id: String, strategy: MatchingStrategy) -> (rule:
    MatchingRule)
    ensures
        rule.deep_view() == simple_rule(kind, id@, strategy),
{
    MatchingRule::Simple(IdWithIdentifier { kind, id, matching_strategy: Some(strategy) })
}

/// The rule that sends windows named `id` to a workspace.
pub open spec fn workspace_rule(
    kind: ApplicationIdentifier,
    id: Seq<char>,
    monitor_index: usize,
    workspace_index: usize,
    initial_only: bool,
) -> WorkspaceMatchingRuleView {
    WorkspaceMatchingRuleView {
        monitor_index,
        workspace_index,
        matching_rule: simple_rule(kind, id, MatchingStrategy::Legacy),
        initial_only,
    }
}

/// The rules with one more workspace rule, unless it is already there.
pub open spec fn with_workspace_rule(
    rules: RuleBookView,
    rule: WorkspaceMatchingRuleView,
) -> RuleBookView {
    if rules.workspace_matching_rules.contains(rule) {
        rules
    } else {
        RuleBookView {
            workspace_matching_rules: rules.workspace_matching_rules.push(rule),
            ..rules
        }
    }
}

/// The rules that stay when the rules of a workspace are cleared: those that name neither
/// its monitor nor a workspace of its number.
pub open spec fn outlasts_clearing(monitor: usize, workspace: usize) -> spec_fn(
    WorkspaceMatchingRuleView,
) -> bool {
    |rule: WorkspaceMatchingRuleView|
        rule.monitor_index != monitor && rule.workspace_index != workspace
}

/// The rules once those of a workspace have been cleared: neither those on its monitor nor those
/// for a workspace of its number on any other monitor are left.
pub open spec fn without_workspace_rules(
    rules: RuleBookView,
    monitor: usize,
    workspace: usize,
) -> RuleBookView {
    RuleBookView {
        workspace_matching_rules: rules.workspace_matching_rules.filter(
            outlasts_clearing(monitor, workspace),
        ),
        ..rules
    }
}

/// A rule that names another monitor.
pub open spec fn names_another_monitor(monitor: usize) -> spec_fn(WorkspaceMatchingRuleView) -> bool {
    |rule: WorkspaceMatchingRuleView| rule.monitor_index != monitor
}

/// Some rule of one comparison names `id`, whatever it compares and however.
pub open spec fn names_id(rules: Seq<MatchingRuleView>, id: Seq<char>) -> bool {
    exists|i: int| 0 <= i < rules.len() && rule_names(#[trigger] rules[i], id)
}

/// The rule is of one comparison and names `id`.
pub open spec fn rule_names(rule: MatchingRuleView, id: Seq<char>) -> bool {
    rule matches MatchingRuleView::Simple(identifier) && identifier.id == id
}

/// A list of rules with a legacy rule for `id`, unless a rule already names it.
pub open spec fn with_legacy_rule(
    rules: Seq<MatchingRuleView>,
    kind: ApplicationIdentifier,
    id: Seq<char>,
) -> Seq<MatchingRuleView> {
    if names_id(rules, id) {
        rules
    } else {
        rules.push(simple_rule(kind, id, MatchingStrategy::Legacy))
    }
}

/// The rule that floats one window for the rest of the session.
pub open spec fn session_float_rule(
    exe: Seq<char>,
    title: Seq<char>,
    role: Seq<char>,
) -> MatchingRuleView {
    MatchingRuleView::Composite(
        seq![
            IdWithIdentifierView {
                kind: ApplicationIdentifier::Exe,
                id: exe,
                matching_strategy: Some(MatchingStrategy::Equals),
            },
            IdWithIdentifierView {
                kind: ApplicationIdentifier::Title,
                id: title,
                matching_strategy: Some(MatchingStrategy::Equals),
            },
            IdWithIdentifierView {
                kind: ApplicationIdentifier::Class,
                id: role,
                matching_strategy: Some(MatchingStrategy::Equals),
            },
        ],
    )
}

/// The rules with one window floating for the rest of the session.
pub open spec fn with_session_float_rule(
    rules: RuleBookView,
    rule: MatchingRuleView,
) -> RuleBookView {
    RuleBookView {
        floating_applications: rules.floating_applications.push(rule),
        session_floating_applications: rules.session_floating_applications.push(rule),
        ..rules
    }
}

/// A rule that is none of `listed`.
pub open spec fn not_among(listed: Seq<MatchingRuleView>) -> spec_fn(MatchingRuleView) -> bool {
    |rule: MatchingRuleView| !listed.contains(rule)
}

/// The rules with nothing floating for this session only.
pub open spec fn without_session_float_rules(rules: RuleBookView) -> RuleBookView {
    RuleBookView {
        floating_applications: rules.floating_applications.filter(
            not_among(rules.session_floating_applications),
        ),
        session_floating_applications: Seq::empty(),
        ..rules
    }
}

/// Whether `rules` holds `rule`.
pub fn contains_rule(rules: &Vec<MatchingRule>, rule: &MatchingRule) -> (found: bool)
    ensures
        found == rules.deep_view().contains(rule.deep_view()),
{
    let mut i: usize = 0;
    while i < rules.len()
        invariant
            i <= rules.len(),
            forall|k: int| 0 <= k < i ==> #[trigger] rules.deep_view()[k] != rule.deep_view(),
        decreases rules.len() - i,
    {
        if rules[i].same(rule) {
            assert(rules.deep_view()[i as int] == rule.deep_view());
            return true;
        }
        i += 1;
    }
    false
}

/// Adds a legacy rule for `id` to a list of rules, unless one already names it.
pub fn push_legacy_rule(rules: &mut Vec<MatchingRule>, kind: ApplicationIdentifier, id: String)
    ensures
        final(rules).deep_view() == with_legacy_rule(old(rules).deep_view(), kind, id@),
{
    let mut i: usize = 0;
    while i < rules.len()
        invariant
            i <= rules.len(),
            rules.deep_view() == old(rules).deep_view(),
            forall|k: int| 0 <= k < i ==> !rule_names(#[trigger] rules.deep_view()[k], id@),
        decreases rules.len() - i,
    {
        if let MatchingRule::Simple(identifier) = &rules[i] {
            if text::same_text(identifier.id.as_str(), id.as_str()) {
                assert(rule_names(rules.deep_view()[i as int], id@));
                return ;
            }
        }
        i += 1;
    }
    let ghost before = rules.deep_view();
    let rule = simple(kind, id, MatchingStrategy::Legacy);
    rules.push(rule);
    assert(rules.deep_view() =~= before.push(rule.deep_view()));
}

impl RuleBook {
    /// The rules that are in force before any configuration is read.
    pub fn new() -> (rules: Self)
        ensures
            rules.deep_view() == initial_rules(),
    {
        let spotlight = simple(
            ApplicationIdentifier::Exe,
            "Spotlight".to_owned(),
            MatchingStrategy::Equals,
        );
        let bar = simple(
            ApplicationIdentifier::Exe,
            "komorebi-bar".to_owned(),
            MatchingStrategy::Equals,
        );
        let shortcuts = simple(
            ApplicationIdentifier::Exe,
            "komorebi-shortcuts.exe".to_owned(),
            MatchingStrategy::Equals,
        );
        let rules = RuleBook {
            ignore_identifiers: vec![spotlight, bar],
            manage_identifiers: Vec::new(),
            floating_applications: vec![shortcuts],
            session_floating_applications: Vec::new(),
            workspace_matching_rules: Vec::new(),
            permaignore_classes: vec!["AXDialog".to_owned()],
            tabbed_applications: Vec::new(),
            titleless_applications: Vec::new(),
            regex_identifiers: RegexIdentifiers::new(),
        };
        assert(rules.ignore_identifiers.deep_view() =~= initial_rules().ignore_identifiers);
        assert(rules.manage_identifiers.deep_view() =~= initial_rules().manage_identifiers);
        assert(rules.floating_applications.deep_view() =~= initial_rules().floating_applications);
        assert(rules.session_floating_applications.deep_view()
            =~= initial_rules().session_floating_applications);
        assert(rules.workspace_matching_rules.deep_view()
            =~= initial_rules().workspace_matching_rules);
        assert(rules.permaignore_classes.deep_view() =~= initial_rules().permaignore_classes);
        assert(rules.tabbed_applications.deep_view() =~= initial_rules().tabbed_applications);
        assert(rules.titleless_applications.deep_view() =~= initial_rules().titleless_applications);
        rules
    }

    /// Sends windows named `id` to a workspace from now on.
    pub fn add_workspace_rule(
        &mut self,
        kind: ApplicationIdentifier,
        id: String,
        monitor_index: usize,
        workspace_index: usize,
        initial_only: bool,
    )
        ensures
            final(self).deep_view() == with_workspace_rule(
                old(self).deep_view(),
                workspace_rule(kind, id@, monitor_index, workspace_index, initial_only),
            ),
    {
        let rule = WorkspaceMatchingRule {
            monitor_index,
            workspace_index,
            matching_rule: simple(kind, id, MatchingStrategy::Legacy),
            initial_only,
        };
        let mut i: usize = 0;
        while i < self.workspace_matching_rules.len()
            invariant
                i <= self.workspace_matching_rules.len(),
                *self == *old(self),
                rule.deep_view() == workspace_rule(
                    kind,
                    id@,
                    monitor_index,
                    workspace_index,
                    initial_only,
                ),
                forall|k: int|
                    0 <= k < i ==> #[trigger] self.workspace_matching_rules.deep_view()[k]
                        != rule.deep_view(),
            decreases self.workspace_matching_rules.len() - i,
        {
            if self.workspace_matching_rules[i].same(&rule) {
                assert(self.workspace_matching_rules.deep_view()[i as int] == rule.deep_view());
                return ;
            }
            i += 1;
        }
        self.push_workspace_rule(rule);
    }

    /// Adds a workspace rule at the end.
    pub fn push_workspace_rule(&mut self, rule: WorkspaceMatchingRule)
        ensures
            final(self).deep_view() == (RuleBookView {
                workspace_matching_rules: old(self).deep_view().workspace_matching_rules.push(
                    rule.deep_view(),
                ),
                ..old(self).deep_view()
            }),
    {
        let ghost before = self.workspace_matching_rules.deep_view();
        self.workspace_matching_rules.push(rule);
        assert(self.workspace_matching_rules.deep_view() =~= before.push(rule.deep_view()));
    }

    /// Drops the rules that name a monitor or a workspace number.
    pub fn clear_workspace_rules(&mut self, monitor: usize, workspace: usize)
        ensures
            final(self).deep_view() == without_workspace_rules(
                old(self).deep_view(),
                monitor,
                workspace,
            ),
    {
        let ghost all = self.workspace_matching_rules.deep_view();
        let ghost keep = outlasts_clearing(monitor, workspace);
        let ghost mut seen: int = 0;
        let mut i: usize = 0;
        proof {
            reveal(Seq::filter);
            assert(all.take(0).filter(keep) + all.skip(0) =~= all);
        }
        while i < self.workspace_matching_rules.len()
            invariant
                0 <= seen <= all.len(),
                i == all.take(seen).filter(keep).len(),
                keep == outlasts_clearing(monitor, workspace),
                self.workspace_matching_rules.deep_view() == all.take(seen).filter(keep)
                    + all.skip(seen),
                self.deep_view() == (RuleBookView {
                    workspace_matching_rules: self.workspace_matching_rules.deep_view(),
                    ..old(self).deep_view()
                }),
            decreases all.len() - seen,
        {
            let ghost kept = all.take(seen).filter(keep);
            let ghost current = self.workspace_matching_rules.deep_view();
            assert(current[i as int] == all[seen]);
            assert(self.workspace_matching_rules[i as int].deep_view() == all[seen]);
            proof {
                sequences::lemma_filter_step(all, keep, seen);
            }
            let rule = &self.workspace_matching_rules[i];
            if rule.monitor_index != monitor && rule.workspace_index != workspace {
                i += 1;
                assert(kept.push(all[seen]) + all.skip(seen + 1) =~= kept + all.skip(seen));
            } else {
                let _ = self.workspace_matching_rules.remove(i);
                assert(self.workspace_matching_rules.deep_view() =~= current.remove(i as int));
                assert(current.remove(i as int) =~= kept + all.skip(seen + 1));
            }
            proof {
                seen = seen + 1;
            }
        }
        proof {
            assert(seen == all.len());
            assert(all.take(seen) =~= all);
            assert(self.workspace_matching_rules.deep_view() =~= all.filter(keep));
        }
    }

    /// Drops the rules that name a monitor.
    pub fn clear_monitor_rules(&mut self, monitor: usize)
        ensures
            final(self).deep_view() == (RuleBookView {
                workspace_matching_rules: old(self).deep_view().workspace_matching_rules.filter(
                    names_another_monitor(monitor),
                ),
                ..old(self).deep_view()
            }),
    {
        let ghost all = self.workspace_matching_rules.deep_view();
        let ghost keep = names_another_monitor(monitor);
        let ghost mut seen: int = 0;
        let mut i: usize = 0;
        proof {
            reveal(Seq::filter);
            assert(all.take(0).filter(keep) + all.skip(0) =~= all);
        }
        while i < self.workspace_matching_rules.len()
            invariant
                0 <= seen <= all.len(),
                i == all.take(seen).filter(keep).len(),
                keep == names_another_monitor(monitor),
                self.workspace_matching_rules.deep_view() == all.take(seen).filter(keep)
                    + all.skip(seen),
                self.deep_view() == (RuleBookView {
                    workspace_matching_rules: self.workspace_matching_rules.deep_view(),
                    ..old(self).deep_view()
                }),
            decreases all.len() - seen,
        {
            let ghost kept = all.take(seen).filter(keep);
            let ghost current = self.workspace_matching_rules.deep_view();
            assert(current[i as int] == all[seen]);
            assert(self.workspace_matching_rules[i as int].deep_view() == all[seen]);
            proof {
                sequences::lemma_filter_step(all, keep, seen);
            }
            if self.workspace_matching_rules[i].monitor_index != monitor {
                i += 1;
                assert(kept.push(all[seen]) + all.skip(seen + 1) =~= kept + all.skip(seen));
            } else {
                let _ = self.workspace_matching_rules.remove(i);
                assert(self.workspace_matching_rules.deep_view() =~= current.remove(i as int));
                assert(current.remove(i as int) =~= kept + all.skip(seen + 1));
            }
            proof {
                seen = seen + 1;
            }
        }
        proof {
            assert(seen == all.len());
            assert(all.take(seen) =~= all);
            assert(self.workspace_matching_rules.deep_view() =~= all.filter(keep));
        }
    }

    /// Floats one window for the rest of the session.
    pub fn add_session_float_rule(&mut self, exe: String, title: String, role: String)
        ensures
            final(self).deep_view() == with_session_float_rule(
                old(self).deep_view(),
                session_float_rule(exe@, title@, role@),
            ),
    {
        let identifiers = vec![
            IdWithIdentifier {
                kind: ApplicationIdentifier::Exe,
                id: exe,
                matching_strategy: Some(MatchingStrategy::Equals),
            },
            IdWithIdentifier {
                kind: ApplicationIdentifier::Title,
                id: title,
                matching_strategy: Some(MatchingStrategy::Equals),
            },
            IdWithIdentifier {
                kind: ApplicationIdentifier::Class,
                id: role,
                matching_strategy: Some(MatchingStrategy::Equals),
            },
        ];
        let rule = MatchingRule::Composite(identifiers);
        proof {
            let listed = session_float_rule(exe@, title@, role@)->Composite_0;
            assert(identifiers.deep_view() =~= listed);
        }
        let ghost floating = self.floating_applications.deep_view();
        let ghost session = self.session_floating_applications.deep_view();
        let copy = rule.clone();
        self.floating_applications.push(rule);
        self.session_floating_applications.push(copy);
        assert(self.floating_applications.deep_view() =~= floating.push(rule.deep_view()));
        assert(self.session_floating_applications.deep_view() =~= session.push(rule.deep_view()));
    }

    /// Drops every rule that was made for the rest of the session.
    pub fn clear_session_float_rules(&mut self)
        ensures
            final(self).deep_view() == without_session_float_rules(old(self).deep_view()),
    {
        let ghost all = self.floating_applications.deep_view();
        let ghost keep = not_among(self.session_floating_applications.deep_view());
        let ghost mut seen: int = 0;
        let mut i: usize = 0;
        proof {
            reveal(Seq::filter);
            assert(all.take(0).filter(keep) + all.skip(0) =~= all);
        }
        while i < self.floating_applications.len()
            invariant
                0 <= seen <= all.len(),
                i == all.take(seen).filter(keep).len(),
                keep == not_among(self.session_floating_applications.deep_view()),
                self.floating_applications.deep_view() == all.take(seen).filter(keep) + all.skip(
                    seen,
                ),
                self.deep_view() == (RuleBookView {
                    floating_applications: self.floating_applications.deep_view(),
                    ..old(self).deep_view()
                }),
            decreases all.len() - seen,
        {
            let ghost kept = all.take(seen).filter(keep);
            let ghost current = self.floating_applications.deep_view();
            assert(current[i as int] == all[seen]);
            assert(self.floating_applications[i as int].deep_view() == all[seen]);
            proof {
                sequences::lemma_filter_step(all, keep, seen);
            }
            if !contains_rule(&self.session_floating_applications, &self.floating_applications[i]) {
                i += 1;
                assert(kept.push(all[seen]) + all.skip(seen + 1) =~= kept + all.skip(seen));
            } else {
                let _ = self.floating_applications.remove(i);
                assert(self.floating_applications.deep_view() =~= current.remove(i as int));
                assert(current.remove(i as int) =~= kept + all.skip(seen + 1));
            }
            proof {
                seen = seen + 1;
            }
        }
        proof {
            assert(seen == all.len());
            assert(all.take(seen) =~= all);
            assert(self.floating_applications.deep_view() =~= all.filter(keep));
        }
        self.session_floating_applications.clear();
        assert(self.session_floating_applications.deep_view() =~= Seq::empty());
    }
}

} // verus!
