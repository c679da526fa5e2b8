//! Which windows are managed.

use crate::events;
use crate::events::WindowManagerEvent;
use crate::rule_book::RuleBook;
use crate::rule_book::RuleBookView;
use crate::rules;
use crate::rules::MatchingRule;
use crate::rules::MatchingRuleView;
use crate::rules::WindowText;
use crate::settings::WindowAttributes;
use crate::settings::WindowAttributesView;
use crate::text;
use vstd::prelude::*;

verus! {

/// Why a window is managed or not.
#[derive(Debug)]
pub struct RuleDebug {
    pub should_manage: bool,
    pub is_window: bool,
    pub has_title: bool,
    pub title: Option<String>,
    pub exe_name: Option<String>,
    pub role: Option<String>,
    pub subrole: Option<String>,
    pub path: Option<String>,
    pub matches_permaignore_class: Option<String>,
    pub matches_ignore_identifier: Option<MatchingRule>,
    pub matches_managed_override: Option<MatchingRule>,
    pub matches_floating_applications: Option<MatchingRule>,
    pub matches_titleless_applications: Option<String>,
}

/// The value of a [`RuleDebug`].
#[verifier::ext_equal]
pub struct RuleDebugView {
    pub should_manage: bool,
    pub is_window: bool,
    pub has_title: bool,
    pub title: Option<Seq<char>>,
    pub exe_name: Option<Seq<char>>,
    pub role: Option<Seq<char>>,
    pub subrole: Option<Seq<char>>,
    pub path: Option<Seq<char>>,
    pub matches_permaignore_class: Option<Seq<char>>,
    pub matches_ignore_identifier: Option<MatchingRuleView>,
    pub matches_managed_override: Option<MatchingRuleView>,
    pub matches_floating_applications: Option<MatchingRuleView>,
    pub matches_titleless_applications: Option<Seq<char>>,
}

impl DeepView for RuleDebug {
    type V = RuleDebugView;

    open spec fn deep_view(&self) -> RuleDebugView {
        RuleDebugView {
            should_manage: self.should_manage,
            is_window: self.is_window,
            has_title: self.has_title,
            title: self.title.deep_view(),
            exe_name: self.exe_name.deep_view(),
            role: self.role.deep_view(),
            subrole: self.subrole.deep_view(),
            path: self.path.deep_view(),
            matches_permaignore_class: self.matches_permaignore_class.deep_view(),
            matches_ignore_identifier: self.matches_ignore_identifier.deep_view(),
            matches_managed_override: self.matches_managed_override.deep_view(),
            matches_floating_applications: self.matches_floating_applications.deep_view(),
            matches_titleless_applications: self.matches_titleless_applications.deep_view(),
        }
    }
}

/// Nothing found out yet.
pub open spec fn no_findings() -> RuleDebugView {
    RuleDebugView {
        should_manage: false,
        is_window: false,
        has_title: false,
        title: None,
        exe_name: None,
        role: None,
        subrole: None,
        path: None,
        matches_permaignore_class: None,
        matches_ignore_identifier: None,
        matches_managed_override: None,
        matches_floating_applications: None,
        matches_titleless_applications: None,
    }
}

impl Default for RuleDebug {
    fn default() -> (debug: Self)
        ensures
            debug.deep_view() == no_findings(),
    {
        RuleDebug {
            should_manage: false,
            is_window: false,
            has_title: false,
            title: None,
            exe_name: None,
            role: None,
            subrole: None,
            path: None,
            matches_permaignore_class: None,
            matches_ignore_identifier: None,
            matches_managed_override: None,
            matches_floating_applications: None,
            matches_titleless_applications: None,
        }
    }
}

/// The first of a window's classes that is never managed, counting from `from`.
pub open spec fn first_ignored_class(
    permaignored: Seq<Seq<char>>,
    classes: Seq<Seq<char>>,
    from: int,
) -> Option<Seq<char>>
    decreases classes.len() - from,
{
    if from < 0 || from >= classes.len() {
        None
    } else if permaignored.contains(classes[from]) {
        Some(classes[from])
    } else {
        first_ignored_class(permaignored, classes, from + 1)
    }
}

/// The rules let the window be managed: none of its classes is ruled out, and where a rule
/// ignores it another rule asks for it.
pub open spec fn eligible(book: RuleBookView, window: WindowText) -> bool {
    &&& first_ignored_class(book.permaignore_classes, window.classes, 0) is None
    &&& rules::last_accepting(book.ignore_identifiers, window, book.regex_identifiers) is None
        || rules::last_accepting(book.manage_identifiers, window, book.regex_identifiers) is Some
}

/// What is found out about a window while its eligibility is settled.
pub open spec fn eligibility_findings(
    book: RuleBookView,
    window: WindowText,
    debug: RuleDebugView,
) -> RuleDebugView {
    match first_ignored_class(book.permaignore_classes, window.classes, 0) {
        Some(class) => RuleDebugView { matches_permaignore_class: Some(class), ..debug },
        None => RuleDebugView {
            matches_ignore_identifier: found_or(
                rules::last_accepting(book.ignore_identifiers, window, book.regex_identifiers),
                debug.matches_ignore_identifier,
            ),
            matches_managed_override: found_or(
                rules::last_accepting(book.manage_identifiers, window, book.regex_identifiers),
                debug.matches_managed_override,
            ),
            matches_floating_applications: found_or(
                rules::last_accepting(book.floating_applications, window, book.regex_identifiers),
                debug.matches_floating_applications,
            ),
            ..debug
        },
    }
}

/// The rule that was found, or else what was found before.
pub open spec fn found_or(
    found: Option<MatchingRuleView>,
    before: Option<MatchingRuleView>,
) -> Option<MatchingRuleView> {
    if found is Some {
        found
    } else {
        before
    }
}

fn ignored_class(permaignored: &Vec<String>, classes: &[&str]) -> (class: Option<String>)
    ensures
        class.deep_view() == first_ignored_class(
            permaignored.deep_view(),
            rules::texts(classes@),
            0,
        ),
{
    let mut i: usize = 0;
    while i < classes.len()
        invariant
            i <= classes.len(),
            first_ignored_class(permaignored.deep_view(), rules::texts(classes@), 0)
                == first_ignored_class(
                permaignored.deep_view(),
                rules::texts(classes@),
                i as int,
            ),
        decreases classes.len() - i,
    {
        assert(rules::texts(classes@)[i as int] == classes@[i as int]@);
        if text::list_contains(permaignored, classes[i]) {
            return Some(classes[i].to_owned());
        }
        i += 1;
    }
    None
}

/// Whether the rules let a window be managed, noting which of them apply.
pub fn window_is_eligible(
    book: &RuleBook,
    title: &str,
    exe_name: &str,
    classes: &[&str],
    path: &str,
    debug: &mut RuleDebug,
) -> (is_eligible: bool)
    ensures
        is_eligible == eligible(
            book.deep_view(),
            (WindowText {
                title: title@,
                exe_name: exe_name@,
                classes: rules::texts(classes@),
                path: path@,
            }),
        ),
        final(debug).deep_view() == eligibility_findings(
            book.deep_view(),
            (WindowText {
                title: title@,
                exe_name: exe_name@,
                classes: rules::texts(classes@),
                path: path@,
            }),
            old(debug).deep_view(),
        ),
{
    if let Some(class) = ignored_class(&book.permaignore_classes, classes) {
        debug.matches_permaignore_class = Some(class);
        return false;
    }
    let mut should_ignore: bool = false;
    if let Some(rule) = rules::should_act(
        title,
        exe_name,
        classes,
        path,
        &book.ignore_identifiers,
        &book.regex_identifiers,
    ) {
        debug.matches_ignore_identifier = Some(rule);
        should_ignore = true;
    }
    let mut managed_override: bool = false;
    if let Some(rule) = rules::should_act(
        title,
        exe_name,
        classes,
        path,
        &book.manage_identifiers,
        &book.regex_identifiers,
    ) {
        debug.matches_managed_override = Some(rule);
        managed_override = true;
    }
    if let Some(rule) = rules::should_act(
        title,
        exe_name,
        classes,
        path,
        &book.floating_applications,
        &book.regex_identifiers,
    ) {
        debug.matches_floating_applications = Some(rule);
    }
    !should_ignore || managed_override
}

/// What rules can look at, where a window says everything about itself. `title` stands in
/// for the title that it reports.
pub open spec fn window_text(
    title: Option<Seq<char>>,
    window: WindowAttributesView,
) -> Option<WindowText> {
    match (title, window.exe, window.role, window.subrole, window.path) {
        (Some(title), Some(exe), Some(role), Some(subrole), Some(path)) => Some(
            WindowText { title, exe_name: exe, classes: seq![role, subrole], path },
        ),
        _ => None,
    }
}

/// A list of rules asks for a window, which then has to say everything about itself.
pub open spec fn asked_for(
    list: Seq<MatchingRuleView>,
    book: RuleBookView,
    window: WindowAttributesView,
) -> bool {
    match window_text(window.title, window) {
        Some(window) => rules::last_accepting(list, window, book.regex_identifiers) is Some,
        None => false,
    }
}

/// Whether a list of rules asks for a window.
pub fn is_asked_for(
    list: &Vec<MatchingRule>,
    book: &RuleBook,
    window: &WindowAttributes,
) -> (asked: bool)
    ensures
        asked == asked_for(list.deep_view(), book.deep_view(), window.deep_view()),
{
    match (&window.title, &window.exe, &window.role, &window.subrole, &window.path) {
        (Some(title), Some(exe), Some(role), Some(subrole), Some(path)) => {
            let classes: [&str; 2] = [role.as_str(), subrole.as_str()];
            let rule = rules::should_act(
                title.as_str(),
                exe.as_str(),
                &classes,
                path.as_str(),
                list,
                &book.regex_identifiers,
            );
            assert(rules::texts(classes@) =~= seq![role@, subrole@]);
            rule.is_some()
        },
        _ => false,
    }
}

/// The window says it is a system panel, or declines to say what it is.
pub open spec fn is_panel(subrole: Option<Seq<char>>) -> bool {
    subrole == Some("AXSystemDialog"@) || subrole == Some("AXUnknown"@)
}

/// The window is an ordinary window that has only just been created, and has not been named
/// yet.
pub open spec fn is_newly_created(
    event: Option<WindowManagerEvent>,
    subrole: Option<Seq<char>>,
) -> bool {
    event is Some && events::reports_creation(event->0) && subrole == Some("AXStandardWindow"@)
}

/// The window may do without a title.
pub open spec fn may_be_titleless(
    book: RuleBookView,
    event: Option<WindowManagerEvent>,
    window: WindowAttributesView,
) -> bool {
    is_newly_created(event, window.subrole) || book.titleless_applications.contains(
        match window.exe {
            Some(exe) => exe,
            None => Seq::empty(),
        },
    )
}

/// The window reports a title that is not empty.
pub open spec fn has_title(window: WindowAttributesView) -> bool {
    window.title is Some && window.title->0.len() > 0
}

/// The name that a window which may do without a title is noted under. What was noted of an
/// earlier window stays where this one has a title.
pub open spec fn noted_titleless(window: WindowAttributesView, debug: RuleDebugView) -> Option<
    Seq<char>,
> {
    if has_title(window) {
        debug.matches_titleless_applications
    } else {
        window.exe
    }
}

/// What rules can look at, where a window that may do without a title goes by the name of its
/// application instead.
pub open spec fn text_with_title(window: WindowAttributesView, debug: RuleDebugView) -> Option<
    WindowText,
> {
    window_text(
        if noted_titleless(window, debug) is Some {
            window.exe
        } else {
            window.title
        },
        window,
    )
}

/// The window is managed.
pub open spec fn managed(
    book: RuleBookView,
    event: Option<WindowManagerEvent>,
    is_valid: bool,
    window: WindowAttributesView,
    debug: RuleDebugView,
) -> bool {
    &&& is_valid
    &&& is_panel(window.subrole) ==> asked_for(book.manage_identifiers, book, window)
    &&& has_title(window) || may_be_titleless(book, event, window)
    &&& text_with_title(window, debug) is Some
    &&& eligible(book, text_with_title(window, debug)->0)
}

/// What is found out about a window while it is settled whether it is managed.
pub open spec fn managed_findings(
    book: RuleBookView,
    event: Option<WindowManagerEvent>,
    is_valid: bool,
    window: WindowAttributesView,
    debug: RuleDebugView,
) -> RuleDebugView {
    if !is_valid {
        debug
    } else {
        let seen = RuleDebugView { is_window: true, ..debug };
        if is_panel(window.subrole) && !asked_for(book.manage_identifiers, book, window) {
            seen
        } else if !has_title(window) && !may_be_titleless(book, event, window) {
            seen
        } else {
            let titled = if has_title(window) {
                RuleDebugView { has_title: true, ..seen }
            } else {
                RuleDebugView { matches_titleless_applications: window.exe, ..seen }
            };
            match text_with_title(window, debug) {
                Some(text) => eligibility_findings(
                    book,
                    text,
                    RuleDebugView {
                        title: Some(text.title),
                        exe_name: window.exe,
                        role: window.role,
                        subrole: window.subrole,
                        path: window.path,
                        ..titled
                    },
                ),
                None => titled,
            }
        }
    }
}

fn reads_as(attribute: &Option<String>, text: &str) -> (same: bool)
    ensures
        same == (attribute.deep_view() == Some(text@)),
{
    match attribute {
        Some(found) => text::same_text(found.as_str(), text),
        None => false,
    }
}

fn titleless_is_expected(
    book: &RuleBook,
    event: Option<WindowManagerEvent>,
    window: &WindowAttributes,
) -> (expected: bool)
    ensures
        expected == may_be_titleless(book.deep_view(), event, window.deep_view()),
{
    let created: bool = match event {
        Some(event) => event.is_creation(),
        None => false,
    };
    if created && reads_as(&window.subrole, "AXStandardWindow") {
        return true;
    }
    match &window.exe {
        Some(exe) => text::list_contains(&book.titleless_applications, exe.as_str()),
        None => {
            proof {
                reveal_strlit("");
                assert(""@ =~= Seq::<char>::empty());
            }
            text::list_contains(&book.titleless_applications, "")
        },
    }
}

fn copy_text(text: &Option<String>) -> (copy: Option<String>)
    ensures
        copy.deep_view() == text.deep_view(),
{
    match text {
        Some(text) => Some(text.clone()),
        None => None,
    }
}

/// Whether a window is managed, noting why.
///
/// Panels that the system puts on top of things, and windows that decline to say what they
/// are, are not application windows and stay outside the layout, unless a rule asks for
/// them. A window without a title is only managed where that is to be expected: of an
/// ordinary window that has only just been created, or of an application that is known for
/// it.
pub fn should_manage(
    book: &RuleBook,
    event: Option<WindowManagerEvent>,
    is_valid: bool,
    window: &WindowAttributes,
    debug: &mut RuleDebug,
) -> (manage: bool)
    ensures
        manage == managed(
            book.deep_view(),
            event,
            is_valid,
            window.deep_view(),
            old(debug).deep_view(),
        ),
        final(debug).deep_view() == managed_findings(
            book.deep_view(),
            event,
            is_valid,
            window.deep_view(),
            old(debug).deep_view(),
        ),
{
    if !is_valid {
        return false;
    }
    debug.is_window = true;
    if (reads_as(&window.subrole, "AXSystemDialog") || reads_as(&window.subrole, "AXUnknown"))
        && !is_asked_for(&book.manage_identifiers, book, window) {
        return false;
    }
    let titled: bool = match &window.title {
        Some(title) => !title.as_str().is_empty(),
        None => false,
    };
    if titled {
        debug.has_title = true;
    } else if titleless_is_expected(book, event, window) {
        debug.matches_titleless_applications = copy_text(&window.exe);
    } else {
        return false;
    }
    let title = if debug.matches_titleless_applications.is_some() {
        &window.exe
    } else {
        &window.title
    };
    match (title, &window.exe, &window.role, &window.subrole, &window.path) {
        (Some(title), Some(exe), Some(role), Some(subrole), Some(path)) => {
            debug.title = Some(title.clone());
            debug.exe_name = Some(exe.clone());
            debug.role = Some(role.clone());
            debug.subrole = Some(subrole.clone());
            debug.path = Some(path.clone());
            let classes: [&str; 2] = [role.as_str(), subrole.as_str()];
            assert(rules::texts(classes@) =~= seq![role@, subrole@]);
            window_is_eligible(
                book,
                title.as_str(),
                exe.as_str(),
                &classes,
                path.as_str(),
                debug,
            )
        },
        _ => false,
    }
}

/// A rule that asks for a window to be managed wins over every rule that ignores it, unless
/// one of its classes is never managed.
pub proof fn law_manage_rules_win_over_ignore_rules(book: RuleBookView, window: WindowText)
    requires
        first_ignored_class(book.permaignore_classes, window.classes, 0) is None,
        rules::last_accepting(book.manage_identifiers, window, book.regex_identifiers) is Some,
    ensures
        eligible(book, window),
{
}

/// A window that no rule speaks of is managed by default.
pub proof fn law_windows_are_managed_by_default(book: RuleBookView, window: WindowText)
    requires
        book.permaignore_classes.len() == 0,
        rules::last_accepting(book.ignore_identifiers, window, book.regex_identifiers) is None,
    ensures
        eligible(book, window),
{
    assert(forall|class: Seq<char>| !book.permaignore_classes.contains(class));
    lemma_no_ignored_class(book.permaignore_classes, window.classes, 0);
}

proof fn lemma_no_ignored_class(
    permaignored: Seq<Seq<char>>,
    classes: Seq<Seq<char>>,
    from: int,
)
    requires
        permaignored.len() == 0,
    ensures
        first_ignored_class(permaignored, classes, from) is None,
    decreases classes.len() - from,
{
    if 0 <= from < classes.len() {
        lemma_no_ignored_class(permaignored, classes, from + 1);
    }
}

/// A system panel, or a window that declines to say what it is, is never managed unless a
/// rule asks for it, whatever event it is seen in.
pub proof fn law_panels_are_left_alone(
    book: RuleBookView,
    event: Option<WindowManagerEvent>,
    is_valid: bool,
    window: WindowAttributesView,
    debug: RuleDebugView,
)
    requires
        is_panel(window.subrole),
        !asked_for(book.manage_identifiers, book, window),
    ensures
        !managed(book, event, is_valid, window, debug),
{
}

/// A window that declares no subrole is never managed.
pub proof fn law_windows_without_a_subrole_are_left_out(
    book: RuleBookView,
    event: Option<WindowManagerEvent>,
    is_valid: bool,
    window: WindowAttributesView,
    debug: RuleDebugView,
)
    requires
        window.subrole is None,
    ensures
        !managed(book, event, is_valid, window, debug),
{
}

/// A standard window that has just been created is managed without a title, by the name of its
/// application, wherever no rule speaks against it.
pub proof fn law_a_new_standard_window_needs_no_title(
    book: RuleBookView,
    event: WindowManagerEvent,
    window: WindowAttributesView,
    debug: RuleDebugView,
)
    requires
        events::reports_creation(event),
        window.subrole == Some("AXStandardWindow"@),
        !has_title(window),
        window.exe is Some,
        window.role is Some,
        window.path is Some,
        eligible(
            book,
            (WindowText {
                title: window.exe->0,
                exe_name: window.exe->0,
                classes: seq![window.role->0, window.subrole->0],
                path: window.path->0,
            }),
        ),
    ensures
        managed(book, Some(event), true, window, debug),
{
    reveal_strlit("AXStandardWindow");
    reveal_strlit("AXSystemDialog");
    reveal_strlit("AXUnknown");
    assert("AXStandardWindow"@.len() != "AXSystemDialog"@.len());
    assert("AXStandardWindow"@.len() != "AXUnknown"@.len());
}

} // verus!
