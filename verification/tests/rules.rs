use komorebi::eligibility::is_asked_for;
use komorebi::eligibility::should_manage;
use komorebi::eligibility::window_is_eligible;
use komorebi::eligibility::RuleDebug;
use komorebi::events::AccessibilityNotification;
use komorebi::events::SystemNotification;
use komorebi::events::WindowManagerEvent;
use komorebi::rule_book::contains_rule;
use komorebi::rule_book::push_legacy_rule;
use komorebi::rule_book::RuleBook;
use komorebi::rules::regex_verdict;
use komorebi::rules::should_act;
use komorebi::rules::should_act_individual;
use komorebi::rules::text_accepted;
use komorebi::rules::ApplicationIdentifier;
use komorebi::rules::IdWithIdentifier;
use komorebi::rules::MatchingRule;
use komorebi::rules::MatchingStrategy;
use komorebi::rules::RegexIdentifiers;
use komorebi::settings::WindowAttributes;
use komorebi::text;

fn identifier(
    kind: ApplicationIdentifier,
    id: &str,
    strategy: Option<MatchingStrategy>,
) -> IdWithIdentifier {
    IdWithIdentifier { kind, id: id.to_string(), matching_strategy: strategy }
}

fn exe_rule(id: &str) -> MatchingRule {
    MatchingRule::Simple(identifier(
        ApplicationIdentifier::Exe,
        id,
        Some(MatchingStrategy::Equals),
    ))
}

fn attributes(title: &str, exe: &str) -> WindowAttributes {
    WindowAttributes {
        title: Some(title.to_string()),
        exe: Some(exe.to_string()),
        role: Some("AXWindow".to_string()),
        subrole: Some("AXStandardWindow".to_string()),
        path: Some("/Applications".to_string()),
    }
}

fn acts_on_title(strategy: Option<MatchingStrategy>, title: &str, id: &str) -> bool {
    should_act_individual(
        title,
        "Terminal",
        &["AXWindow", "AXStandardWindow"],
        "/Applications/Terminal.app",
        &identifier(ApplicationIdentifier::Title, id, strategy),
        &RegexIdentifiers::new(),
    )
}

#[test]
fn every_strategy_compares_titles() {
    assert!(acts_on_title(Some(MatchingStrategy::Equals), "notes", "notes"));
    assert!(!acts_on_title(Some(MatchingStrategy::Equals), "notes 2", "notes"));
    assert!(acts_on_title(Some(MatchingStrategy::DoesNotEqual), "notes 2", "notes"));
    assert!(acts_on_title(Some(MatchingStrategy::StartsWith), "notes 2", "notes"));
    assert!(!acts_on_title(Some(MatchingStrategy::DoesNotStartWith), "notes 2", "notes"));
    assert!(acts_on_title(Some(MatchingStrategy::EndsWith), "my notes", "notes"));
    assert!(!acts_on_title(Some(MatchingStrategy::DoesNotEndWith), "my notes", "notes"));
    assert!(acts_on_title(Some(MatchingStrategy::Contains), "my notes 2", "notes"));
    assert!(!acts_on_title(Some(MatchingStrategy::DoesNotContain), "my notes 2", "notes"));
    assert!(acts_on_title(Some(MatchingStrategy::DoesNotContain), "letters", "notes"));
}

#[test]
fn legacy_titles_match_at_either_end() {
    for strategy in [Some(MatchingStrategy::Legacy), None] {
        assert!(acts_on_title(strategy, "notes 2", "notes"));
        assert!(acts_on_title(strategy, "my notes", "notes"));
        assert!(!acts_on_title(strategy, "my notes 2", "notes"));
    }
}

#[test]
fn legacy_executables_match_in_full() {
    let acts = |exe: &str| {
        should_act_individual(
            "title",
            exe,
            &["AXWindow"],
            "/Applications",
            &identifier(ApplicationIdentifier::Exe, "Finder.exe", Some(MatchingStrategy::Legacy)),
            &RegexIdentifiers::new(),
        )
    };
    assert!(acts("Finder"));
    assert!(!acts("Finder 2"));
}

#[test]
fn paths_are_compared_like_executables() {
    let acts = |path: &str| {
        should_act_individual(
            "title",
            "Finder",
            &["AXWindow"],
            path,
            &identifier(
                ApplicationIdentifier::Path,
                "/System",
                Some(MatchingStrategy::StartsWith),
            ),
            &RegexIdentifiers::new(),
        )
    };
    assert!(acts("/System/Library"));
    assert!(!acts("/Applications"));
}

#[test]
fn any_class_will_do() {
    let acts = |classes: &[&str]| {
        should_act_individual(
            "title",
            "Finder",
            classes,
            "/Applications",
            &identifier(ApplicationIdentifier::Class, "AXDialog", Some(MatchingStrategy::Equals)),
            &RegexIdentifiers::new(),
        )
    };
    assert!(acts(&["AXWindow", "AXDialog"]));
    assert!(!acts(&["AXWindow", "AXStandardWindow"]));
    assert!(!acts(&[]));
}

#[test]
fn regular_expressions_are_looked_up_by_name() {
    let mut patterns = RegexIdentifiers::new();
    patterns.insert("^note[0-9]+$".to_string(), "^note[0-9]+$".to_string());
    patterns.insert("broken(".to_string(), "broken(".to_string());
    assert!(patterns.finds("^note[0-9]+$", "note12"));
    assert!(!patterns.finds("^note[0-9]+$", "note"));
    assert!(!patterns.finds("broken(", "broken("));
    assert!(!patterns.finds("unknown", "unknown"));
    let rule = identifier(
        ApplicationIdentifier::Title,
        "^note[0-9]+$",
        Some(MatchingStrategy::Regex),
    );
    let acts = |title: &str, patterns: &RegexIdentifiers| {
        should_act_individual(title, "Notes", &[], "/Applications", &rule, patterns)
    };
    assert!(acts("note12", &patterns));
    assert!(!acts("a note12", &patterns));
    assert!(!acts("note12", &RegexIdentifiers::new()));
}

#[test]
fn a_regular_expression_decides_for_itself() {
    assert!(regex_verdict(Some(true)));
    assert!(!regex_verdict(Some(false)));
    assert!(!regex_verdict(None));
    assert!(text_accepted(Some(MatchingStrategy::Regex), true, "a", "b", true));
    assert!(!text_accepted(Some(MatchingStrategy::Regex), true, "a", "a", false));
}

#[test]
fn the_last_rule_that_applies_is_found() {
    let rules = vec![exe_rule("Finder"), exe_rule("Terminal"), exe_rule("Finder")];
    let found = should_act("t", "Finder", &[], "p", &rules, &RegexIdentifiers::new());
    assert!(found.unwrap().same(&exe_rule("Finder")));
    assert!(should_act("t", "Music", &[], "p", &rules, &RegexIdentifiers::new()).is_none());
}

#[test]
fn a_composite_rule_applies_in_full() {
    let rule = MatchingRule::Composite(vec![
        identifier(ApplicationIdentifier::Exe, "Finder", Some(MatchingStrategy::Equals)),
        identifier(ApplicationIdentifier::Title, "Copy", Some(MatchingStrategy::StartsWith)),
    ]);
    let rules = vec![rule];
    let none = RegexIdentifiers::new();
    assert!(should_act("Copying", "Finder", &[], "p", &rules, &none).is_some());
    assert!(should_act("Moving", "Finder", &[], "p", &rules, &none).is_none());
    assert!(should_act("Copying", "Terminal", &[], "p", &rules, &none).is_none());
}

#[test]
fn manage_rules_win_over_ignore_rules() {
    let mut book = RuleBook::new();
    book.ignore_identifiers.push(exe_rule("Finder"));
    let mut debug = RuleDebug::default();
    let eligible = |book: &RuleBook, debug: &mut RuleDebug| {
        window_is_eligible(book, "t", "Finder", &["AXWindow", "AXStandardWindow"], "p", debug)
    };
    assert!(!eligible(&book, &mut debug));
    assert!(debug.matches_ignore_identifier.is_some());
    book.manage_identifiers.push(exe_rule("Finder"));
    assert!(eligible(&book, &mut debug));
    assert!(debug.matches_managed_override.is_some());
}

#[test]
fn dialogs_are_never_eligible() {
    let mut book = RuleBook::new();
    book.manage_identifiers.push(exe_rule("Finder"));
    let mut debug = RuleDebug::default();
    assert!(!window_is_eligible(
        &book,
        "t",
        "Finder",
        &["AXWindow", "AXDialog"],
        "p",
        &mut debug
    ));
    assert_eq!(debug.matches_permaignore_class, Some("AXDialog".to_string()));
}

#[test]
fn ordinary_windows_are_managed() {
    let book = RuleBook::new();
    let mut debug = RuleDebug::default();
    assert!(should_manage(&book, None, true, &attributes("notes", "Notes"), &mut debug));
    assert!(debug.is_window);
    assert!(debug.has_title);
    assert_eq!(debug.exe_name, Some("Notes".to_string()));
}

#[test]
fn spotlight_and_the_bar_are_ignored() {
    let book = RuleBook::new();
    for exe in ["Spotlight", "komorebi-bar"] {
        let mut debug = RuleDebug::default();
        assert!(!should_manage(&book, None, true, &attributes("t", exe), &mut debug));
    }
}

#[test]
fn windows_that_have_gone_are_not_managed() {
    let mut debug = RuleDebug::default();
    assert!(!should_manage(
        &RuleBook::new(),
        None,
        false,
        &attributes("notes", "Notes"),
        &mut debug
    ));
    assert!(!debug.is_window);
}

#[test]
fn panels_are_left_alone() {
    for subrole in ["AXSystemDialog", "AXUnknown"] {
        let mut window = attributes("panel", "Notes");
        window.subrole = Some(subrole.to_string());
        let mut debug = RuleDebug::default();
        assert!(!should_manage(&RuleBook::new(), None, true, &window, &mut debug));
    }
}

#[test]
fn windows_without_a_subrole_are_left_out() {
    let mut window = attributes("notes", "Notes");
    let mut debug = RuleDebug::default();
    assert!(should_manage(&RuleBook::new(), None, true, &window, &mut debug));
    window.subrole = None;
    let mut debug = RuleDebug::default();
    assert!(!should_manage(&RuleBook::new(), None, true, &window, &mut debug));
}

#[test]
fn windows_without_a_title_are_left_alone() {
    let mut window = attributes("", "Notes");
    let mut debug = RuleDebug::default();
    assert!(!should_manage(&RuleBook::new(), None, true, &window, &mut debug));
    window.title = None;
    assert!(!should_manage(&RuleBook::new(), None, true, &window, &mut debug));

    let mut book = RuleBook::new();
    book.titleless_applications.push("Notes".to_string());
    let mut debug = RuleDebug::default();
    assert!(should_manage(&book, None, true, &window, &mut debug));
    assert_eq!(debug.matches_titleless_applications, Some("Notes".to_string()));
}

#[test]
fn a_window_that_was_just_created_needs_no_title() {
    let mut window = attributes("", "Notes");
    let created = WindowManagerEvent::Show(
        SystemNotification::Accessibility(AccessibilityNotification::AXWindowCreated),
        7,
    );
    let mut debug = RuleDebug::default();
    assert!(should_manage(&RuleBook::new(), Some(created), true, &window, &mut debug));
    window.subrole = Some("AXFloatingWindow".to_string());
    let mut debug = RuleDebug::default();
    assert!(!should_manage(&RuleBook::new(), Some(created), true, &window, &mut debug));
}

#[test]
fn a_window_that_says_nothing_is_not_asked_for() {
    let mut book = RuleBook::new();
    book.manage_identifiers.push(exe_rule("Notes"));
    let mut window = attributes("notes", "Notes");
    assert!(is_asked_for(&book.manage_identifiers, &book, &window));
    window.path = None;
    assert!(!is_asked_for(&book.manage_identifiers, &book, &window));
}

#[test]
fn legacy_rules_are_added_once() {
    let mut rules = Vec::new();
    push_legacy_rule(&mut rules, ApplicationIdentifier::Exe, "Finder".to_string());
    push_legacy_rule(&mut rules, ApplicationIdentifier::Title, "Finder".to_string());
    push_legacy_rule(&mut rules, ApplicationIdentifier::Exe, "Notes".to_string());
    assert_eq!(rules.len(), 2);
    assert!(contains_rule(
        &rules,
        &MatchingRule::Simple(identifier(
            ApplicationIdentifier::Exe,
            "Finder",
            Some(MatchingStrategy::Legacy)
        ))
    ));
    assert!(!contains_rule(&rules, &exe_rule("Finder")));
}

#[test]
fn workspace_rules_are_added_once_and_cleared() {
    let mut book = RuleBook::new();
    let exe = ApplicationIdentifier::Exe;
    book.add_workspace_rule(exe, "Notes".to_string(), 0, 1, false);
    book.add_workspace_rule(exe, "Notes".to_string(), 0, 1, false);
    book.add_workspace_rule(exe, "Notes".to_string(), 0, 1, true);
    book.add_workspace_rule(exe, "Mail".to_string(), 1, 2, false);
    book.add_workspace_rule(exe, "Maps".to_string(), 2, 1, false);
    assert_eq!(book.workspace_matching_rules.len(), 4);
    book.clear_workspace_rules(0, 1);
    assert_eq!(book.workspace_matching_rules.len(), 1);
    assert_eq!(book.workspace_matching_rules[0].monitor_index, 1);
    book.clear_monitor_rules(1);
    assert!(book.workspace_matching_rules.is_empty());
}

#[test]
fn session_float_rules_come_and_go_together() {
    let mut book = RuleBook::new();
    let before = book.floating_applications.len();
    book.add_session_float_rule(
        "Notes".to_string(),
        "notes".to_string(),
        "AXWindow".to_string(),
    );
    assert_eq!(book.floating_applications.len(), before + 1);
    assert_eq!(book.session_floating_applications.len(), 1);
    book.clear_session_float_rules();
    assert_eq!(book.floating_applications.len(), before);
    assert!(book.session_floating_applications.is_empty());
}

#[test]
fn texts_are_compared_as_characters() {
    assert!(text::starts_with("Música", "Mú"));
    assert!(text::ends_with("Música", "ica"));
    assert!(text::contains("a big window", "big"));
    assert!(text::contains("anything", ""));
    assert!(!text::contains("big", "bigger"));
    assert!(text::same_text("Música", "Música"));
    assert!(!text::same_text("Música", "Musica"));
    assert_eq!(text::remove_exe("a.exe.exeb"), "ab");
    assert_eq!(text::trim_exe("a.exe"), "a");
    assert_eq!(text::characters("ab"), vec!['a', 'b']);
}

#[test]
fn numbers_are_written_in_decimal() {
    assert_eq!(text::decimal(0), "0");
    assert_eq!(text::decimal(1204), "1204");
    assert_eq!(text::signed_decimal(-2147483648), "-2147483648");
    assert_eq!(text::signed_decimal(42), "42");
}
