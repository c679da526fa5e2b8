//! What rules say of windows.

use crate::eligibility::RuleDebugView;
use crate::eligibility;
use crate::events::AccessibilityNotification;
use crate::events::SystemNotification;
use crate::events::WindowManagerEvent;
use crate::rule_book::RuleBookView;
use crate::rules::ApplicationIdentifier;
use crate::rules::IdWithIdentifierView;
use crate::rules::MatchingRuleView;
use crate::rules::MatchingStrategy;
use crate::rules::WindowText;
use crate::rules;
use crate::settings::WindowAttributesView;
use crate::text;
use vstd::prelude::*;

verus! {

/// A text is another and something behind it.
pub open spec fn begins_with(text: Seq<char>, id: Seq<char>) -> bool {
    exists|rest: Seq<char>| text =~= #[trigger] (id + rest)
}

/// A text is something and another behind it.
pub open spec fn ends_with(text: Seq<char>, id: Seq<char>) -> bool {
    exists|start: Seq<char>| text =~= #[trigger] (start + id)
}

/// A text is another with something before it and something behind it.
pub open spec fn has_inside(text: Seq<char>, id: Seq<char>) -> bool {
    exists|start: Seq<char>, rest: Seq<char>| text =~= #[trigger] (start + id + rest)
}

proof fn lemma_occurrences(text: Seq<char>, id: Seq<char>)
    ensures
        text::has_prefix(text, id) == begins_with(text, id),
        text::has_suffix(text, id) == ends_with(text, id),
        text::has_infix(text, id) == has_inside(text, id),
{
    if text::has_prefix(text, id) {
        let rest = text.skip(id.len() as int);
        assert(text =~= id + rest) by {
            assert forall|i: int| 0 <= i < id.len() implies text[i] == id[i] by {
                assert(text.subrange(0, id.len() as int)[i] == text[i]);
            }
        }
    }
    if begins_with(text, id) {
        let rest = choose|rest: Seq<char>| text =~= #[trigger] (id + rest);
        assert(text.subrange(0, id.len() as int) =~= id);
    }
    if text::has_suffix(text, id) {
        let at = text.len() - id.len();
        let start = text.take(at);
        assert(text =~= start + id) by {
            assert forall|i: int| 0 <= i < id.len() implies text[at + i] == id[i] by {
                assert(text.subrange(at, at + id.len())[i] == text[at + i]);
            }
        }
    }
    if ends_with(text, id) {
        let start = choose|start: Seq<char>| text =~= #[trigger] (start + id);
        let at = text.len() - id.len();
        assert(text.subrange(at, at + id.len()) =~= id);
    }
    if text::has_infix(text, id) {
        let at = choose|at: int| #[trigger] text::occurs_at(text, id, at);
        let start = text.take(at);
        let rest = text.skip(at + id.len());
        assert(text =~= start + id + rest) by {
            assert forall|i: int| 0 <= i < id.len() implies text[at + i] == id[i] by {
                assert(text.subrange(at, at + id.len())[i] == text[at + i]);
            }
        }
    }
    if has_inside(text, id) {
        let (start, rest) = choose|start: Seq<char>, rest: Seq<char>|
            text =~= #[trigger] (start + id + rest);
        let at = start.len() as int;
        assert(text.subrange(at, at + id.len()) =~= id);
        assert(text::occurs_at(text, id, at));
    }
}

/// Each way of comparing texts means what it says, and each that starts with a negation is the
/// opposite of the one without. The legacy way looks at both ends of titles and classes and wants
/// names and paths whole; so does a comparison that names no way.
pub proof fn law_texts_are_compared_as_asked(
    text: Seq<char>,
    id: Seq<char>,
    by_affix: bool,
    finds: bool,
)
    ensures
        rules::accepts_text(Some(MatchingStrategy::Equals), by_affix, text, id, finds) == (text
            == id),
        rules::accepts_text(Some(MatchingStrategy::DoesNotEqual), by_affix, text, id, finds) == (
        text != id),
        rules::accepts_text(Some(MatchingStrategy::StartsWith), by_affix, text, id, finds)
            == begins_with(text, id),
        rules::accepts_text(Some(MatchingStrategy::DoesNotStartWith), by_affix, text, id, finds)
            == !begins_with(text, id),
        rules::accepts_text(Some(MatchingStrategy::EndsWith), by_affix, text, id, finds)
            == ends_with(text, id),
        rules::accepts_text(Some(MatchingStrategy::DoesNotEndWith), by_affix, text, id, finds)
            == !ends_with(text, id),
        rules::accepts_text(Some(MatchingStrategy::Contains), by_affix, text, id, finds)
            == has_inside(text, id),
        rules::accepts_text(Some(MatchingStrategy::DoesNotContain), by_affix, text, id, finds)
            == !has_inside(text, id),
        rules::accepts_text(Some(MatchingStrategy::Regex), by_affix, text, id, finds) == finds,
        rules::accepts_text(Some(MatchingStrategy::Legacy), true, text, id, finds) == (begins_with(
            text,
            id,
        ) || ends_with(text, id)),
        rules::accepts_text(Some(MatchingStrategy::Legacy), false, text, id, finds) == (text
            == id),
        rules::accepts_text(None, by_affix, text, id, finds) == rules::accepts_text(
            Some(MatchingStrategy::Legacy),
            by_affix,
            text,
            id,
            finds,
        ),
{
    lemma_occurrences(text, id);
}

/// `.exe` stands nowhere in a text.
pub open spec fn is_free_of_exe(text: Seq<char>) -> bool {
    forall|i: int|
        0 <= i <= text.len() - 4 ==> !((#[trigger] text[i]) == '.' && text[i + 1] == 'e' && text[i
            + 2] == 'x' && text[i + 3] == 'e')
}

proof fn lemma_free_of_exe(text: Seq<char>, at: int)
    requires
        is_free_of_exe(text),
    ensures
        !text::occurs_at(text, text::exe_suffix(), at),
{
    if text::occurs_at(text, text::exe_suffix(), at) {
        let part = text.subrange(at, at + 4);
        assert(part[0] == '.' && part[1] == 'e' && part[2] == 'x' && part[3] == 'e');
        assert(text[at] == part[0]);
    }
}

proof fn lemma_nothing_removed(text: Seq<char>, from: int)
    requires
        is_free_of_exe(text),
        0 <= from <= text.len(),
    ensures
        text::exe_removed_from(text, from) =~= text.skip(from),
    decreases text.len() - from,
{
    if from < text.len() {
        lemma_free_of_exe(text, from);
        lemma_nothing_removed(text, from + 1);
    }
}

proof fn lemma_ending_removed(text: Seq<char>, from: int)
    requires
        is_free_of_exe(text),
        0 <= from <= text.len(),
    ensures
        text::exe_removed_from(text + text::exe_suffix(), from) =~= text.skip(from),
    decreases text.len() - from,
{
    let whole = text + text::exe_suffix();
    if from < text.len() {
        if text::occurs_at(whole, text::exe_suffix(), from) {
            let part = whole.subrange(from, from + 4);
            assert(part[0] == '.' && part[1] == 'e' && part[2] == 'x' && part[3] == 'e');
            assert(whole[from] == '.' && whole[from + 1] == 'e' && whole[from + 2] == 'x'
                && whole[from + 3] == 'e');
            if from + 4 <= text.len() {
                assert(text[from] == '.');
            } else {
                assert(whole[text.len() as int] == '.');
            }
        }
        lemma_ending_removed(text, from + 1);
    } else {
        assert(whole.subrange(from, from + 4) =~= text::exe_suffix());
        assert(text::occurs_at(whole, text::exe_suffix(), from));
        assert(text::exe_removed_from(whole, from + 4) =~= Seq::<char>::empty());
    }
}

/// The ending `.exe` of a name does not count: a name with it and the name without it are compared
/// as the same, and a name without any is compared as it is.
pub proof fn law_exe_endings_do_not_count(name: Seq<char>)
    requires
        is_free_of_exe(name),
    ensures
        text::exe_removed(name) == name,
        text::exe_removed(name + seq!['.', 'e', 'x', 'e']) == name,
        text::exe_trimmed(name) == name,
        text::exe_trimmed(name + seq!['.', 'e', 'x', 'e']) == name,
{
    lemma_nothing_removed(name, 0);
    assert(name.skip(0) =~= name);
    lemma_ending_removed(name, 0);
    lemma_free_of_exe(name, name.len() - 4);
    let whole = name + seq!['.', 'e', 'x', 'e'];
    assert(whole.subrange(whole.len() - 4, whole.len() as int) =~= text::exe_suffix());
    assert(whole.take(whole.len() - 4) =~= name);
    assert(text::exe_trimmed(whole) == text::exe_trimmed(whole.take(whole.len() - 4)));
}

/// A part of a window passes a comparison: as it says for the name without `.exe`, where the regular
/// expression that was remembered for the name is what a comparison by expression goes by.
pub open spec fn passes(
    identifier: IdWithIdentifierView,
    by_affix: bool,
    part: Seq<char>,
    patterns: Map<Seq<char>, Seq<char>>,
) -> bool {
    let id = text::exe_removed(identifier.id);
    rules::accepts_text(
        identifier.matching_strategy,
        by_affix,
        part,
        id,
        patterns.contains_key(id) && rules::regex_search(patterns[id], part) == Some(true),
    )
}

/// A comparison looks at the part of a window that it is about: titles and classes are compared at
/// their ends where the legacy way is meant, names and paths whole; of the classes any one will do.
pub proof fn law_comparisons_look_at_their_part(
    identifier: IdWithIdentifierView,
    window: WindowText,
    patterns: Map<Seq<char>, Seq<char>>,
)
    ensures
        identifier.kind == ApplicationIdentifier::Title ==> rules::identifier_accepts(
            identifier,
            window,
            patterns,
        ) == passes(identifier, true, window.title, patterns),
        identifier.kind == ApplicationIdentifier::Exe ==> rules::identifier_accepts(
            identifier,
            window,
            patterns,
        ) == passes(identifier, false, window.exe_name, patterns),
        identifier.kind == ApplicationIdentifier::Path ==> rules::identifier_accepts(
            identifier,
            window,
            patterns,
        ) == passes(identifier, false, window.path, patterns),
        identifier.kind == ApplicationIdentifier::Class ==> rules::identifier_accepts(
            identifier,
            window,
            patterns,
        ) == exists|i: int|
            0 <= i < window.classes.len() && passes(
                identifier,
                true,
                #[trigger] window.classes[i],
                patterns,
            ),
{
    if identifier.kind == ApplicationIdentifier::Class {
        assert forall|i: int| 0 <= i < window.classes.len() implies passes(
            identifier,
            true,
            #[trigger] window.classes[i],
            patterns,
        ) == rules::part_accepted(identifier, true, window.classes[i], patterns) by {}
    }
}

/// A rule of one comparison is passed by what passes that, and a rule of several by what passes
/// each of them.
pub proof fn law_rules_want_every_comparison(
    identifier: IdWithIdentifierView,
    identifiers: Seq<IdWithIdentifierView>,
    window: WindowText,
    patterns: Map<Seq<char>, Seq<char>>,
)
    ensures
        rules::rule_accepts(MatchingRuleView::Simple(identifier), window, patterns)
            == rules::identifier_accepts(identifier, window, patterns),
        rules::rule_accepts(MatchingRuleView::Composite(identifiers), window, patterns) <==> (
        forall|i: int|
            0 <= i < identifiers.len() ==> rules::identifier_accepts(
                #[trigger] identifiers[i],
                window,
                patterns,
            )),
{
}

/// Some rule of a list is passed by a window.
pub open spec fn some_passes(
    list: Seq<MatchingRuleView>,
    window: WindowText,
    patterns: Map<Seq<char>, Seq<char>>,
) -> bool {
    exists|i: int|
        0 <= i < list.len() && rules::rule_accepts(#[trigger] list[i], window, patterns)
}

/// A list of rules finds a window exactly if some rule of it does, and the rule that it is found by
/// is the last that does.
pub proof fn law_the_last_rule_that_passes_is_found(
    list: Seq<MatchingRuleView>,
    window: WindowText,
    patterns: Map<Seq<char>, Seq<char>>,
)
    ensures
        rules::last_accepting(list, window, patterns) is Some <==> some_passes(
            list,
            window,
            patterns,
        ),
        rules::last_accepting(list, window, patterns) matches Some(rule) ==> exists|i: int|
            {
                &&& 0 <= i < list.len()
                &&& #[trigger] list[i] == rule
                &&& rules::rule_accepts(rule, window, patterns)
                &&& forall|j: int|
                    i < j < list.len() ==> !rules::rule_accepts(
                        #[trigger] list[j],
                        window,
                        patterns,
                    )
            },
    decreases list.len(),
{
    if list.len() > 0 {
        let shorter = list.drop_last();
        law_the_last_rule_that_passes_is_found(shorter, window, patterns);
        if rules::rule_accepts(list.last(), window, patterns) {
            assert(list[list.len() - 1] == list.last());
        } else {
            if some_passes(list, window, patterns) {
                let i = choose|i: int|
                    0 <= i < list.len() && rules::rule_accepts(#[trigger] list[i], window, patterns);
                assert(shorter[i] == list[i]);
            }
            if some_passes(shorter, window, patterns) {
                let i = choose|i: int|
                    0 <= i < shorter.len() && rules::rule_accepts(
                        #[trigger] shorter[i],
                        window,
                        patterns,
                    );
                assert(list[i] == shorter[i]);
                let rule = rules::last_accepting(shorter, window, patterns)->0;
                let k = choose|k: int|
                    {
                        &&& 0 <= k < shorter.len()
                        &&& #[trigger] shorter[k] == rule
                        &&& rules::rule_accepts(rule, window, patterns)
                        &&& forall|j: int|
                            k < j < shorter.len() ==> !rules::rule_accepts(
                                #[trigger] shorter[j],
                                window,
                                patterns,
                            )
                    };
                assert(list[k] == rule);
                assert forall|j: int| k < j < list.len() implies !rules::rule_accepts(
                    #[trigger] list[j],
                    window,
                    patterns,
                ) by {
                    if j < shorter.len() {
                        assert(shorter[j] == list[j]);
                    }
                }
            }
        }
    }
}

proof fn lemma_ignored_class(permaignored: Seq<Seq<char>>, classes: Seq<Seq<char>>, from: int)
    requires
        0 <= from,
    ensures
        eligibility::first_ignored_class(permaignored, classes, from) is Some <==> exists|i: int|
            from <= i < classes.len() && permaignored.contains(#[trigger] classes[i]),
    decreases classes.len() - from,
{
    if from < classes.len() && !permaignored.contains(classes[from]) {
        lemma_ignored_class(permaignored, classes, from + 1);
    }
}

/// A window may be managed if none of its classes is one that never is, and if no rule ignores it
/// or some rule asks for it.
pub proof fn law_windows_are_eligible_unless_ignored(book: RuleBookView, window: WindowText)
    ensures
        eligibility::eligible(book, window) <==> {
            &&& forall|i: int|
                0 <= i < window.classes.len() ==> !book.permaignore_classes.contains(
                    #[trigger] window.classes[i],
                )
            &&& some_passes(book.ignore_identifiers, window, book.regex_identifiers)
                ==> some_passes(book.manage_identifiers, window, book.regex_identifiers)
        },
{
    lemma_ignored_class(book.permaignore_classes, window.classes, 0);
    law_the_last_rule_that_passes_is_found(
        book.ignore_identifiers,
        window,
        book.regex_identifiers,
    );
    law_the_last_rule_that_passes_is_found(
        book.manage_identifiers,
        window,
        book.regex_identifiers,
    );
}

/// What rules look at of a window that tells everything, under a title.
pub open spec fn is_told_as(
    window: WindowAttributesView,
    title: Seq<char>,
    told: WindowText,
) -> bool {
    &&& window.exe is Some
    &&& window.role is Some
    &&& window.subrole is Some
    &&& window.path is Some
    &&& told.title == title
    &&& told.exe_name == window.exe->0
    &&& told.classes =~= seq![window.role->0, window.subrole->0]
    &&& told.path == window.path->0
}

/// A list of rules asks for a window exactly if the window tells everything and some rule of it is
/// passed.
pub proof fn law_rules_ask_for_windows_that_tell_everything(
    list: Seq<MatchingRuleView>,
    book: RuleBookView,
    window: WindowAttributesView,
    told: WindowText,
)
    ensures
        window.title is None || window.exe is None || window.role is None || window.subrole is None
            || window.path is None ==> !eligibility::asked_for(list, book, window),
        window.title is Some && is_told_as(window, window.title->0, told)
            ==> eligibility::asked_for(list, book, window) == some_passes(
            list,
            told,
            book.regex_identifiers,
        ),
{
    if window.title is Some && is_told_as(window, window.title->0, told) {
        law_the_last_rule_that_passes_is_found(list, told, book.regex_identifiers);
        assert(eligibility::window_text(window.title, window) == Some(told));
    }
}

/// A window with a title of its own is managed exactly if it is valid, tells everything, is eligible
/// under that title, and is asked for if it is a system panel or does not say what it is. This holds
/// while nothing was noted of an earlier window without a title.
pub proof fn law_a_titled_window_is_managed_if_eligible(
    book: RuleBookView,
    event: Option<WindowManagerEvent>,
    is_valid: bool,
    window: WindowAttributesView,
    told: WindowText,
    debug: RuleDebugView,
)
    requires
        window.title is Some,
        window.title->0.len() > 0,
        is_told_as(window, window.title->0, told),
        debug.matches_titleless_applications is None,
    ensures
        eligibility::managed(book, event, is_valid, window, debug) <==> {
            &&& is_valid
            &&& window.subrole == Some("AXSystemDialog"@) || window.subrole == Some("AXUnknown"@)
                ==> some_passes(book.manage_identifiers, told, book.regex_identifiers)
            &&& eligibility::eligible(book, told)
        },
{
    law_rules_ask_for_windows_that_tell_everything(book.manage_identifiers, book, window, told);
    assert(eligibility::window_text(window.title, window) == Some(told));
}

/// A window without a title is managed, by the name of its application, only if it is an ordinary
/// window that was just created or one of an application whose windows do without a title.
pub proof fn law_an_untitled_window_goes_by_its_application(
    book: RuleBookView,
    event: Option<WindowManagerEvent>,
    is_valid: bool,
    window: WindowAttributesView,
    told: WindowText,
    debug: RuleDebugView,
)
    requires
        window.title is None || window.title->0.len() == 0,
        window.exe is Some,
        is_told_as(window, window.exe->0, told),
        window.subrole != Some("AXSystemDialog"@),
        window.subrole != Some("AXUnknown"@),
    ensures
        eligibility::managed(book, event, is_valid, window, debug) <==> {
            &&& is_valid
            &&& event is Some && event->0 is Show && crate::events::source_of(event->0)
                == SystemNotification::Accessibility(AccessibilityNotification::AXWindowCreated)
                && window.subrole == Some("AXStandardWindow"@)
                || book.titleless_applications.contains(window.exe->0)
            &&& eligibility::eligible(book, told)
        },
{
    assert(eligibility::window_text(window.exe, window) == Some(told));
}


/// A rule is the last of a list that a window passes.
pub open spec fn is_last_passing(
    list: Seq<MatchingRuleView>,
    window: WindowText,
    patterns: Map<Seq<char>, Seq<char>>,
    i: int,
) -> bool {
    &&& 0 <= i < list.len()
    &&& rules::rule_accepts(list[i], window, patterns)
    &&& forall|j: int|
        i < j < list.len() ==> !rules::rule_accepts(#[trigger] list[j], window, patterns)
}

/// What is found of a list of rules is the last that a window passes, or what was found before where
/// it passes none.
pub open spec fn is_found(
    found: Option<MatchingRuleView>,
    before: Option<MatchingRuleView>,
    list: Seq<MatchingRuleView>,
    window: WindowText,
    patterns: Map<Seq<char>, Seq<char>>,
) -> bool {
    ||| !some_passes(list, window, patterns) && found == before
    ||| exists|i: int| #[trigger]
        is_last_passing(list, window, patterns, i) && found == Some(list[i])
}

proof fn lemma_found(
    before: Option<MatchingRuleView>,
    list: Seq<MatchingRuleView>,
    window: WindowText,
    patterns: Map<Seq<char>, Seq<char>>,
)
    ensures
        is_found(
            eligibility::found_or(rules::last_accepting(list, window, patterns), before),
            before,
            list,
            window,
            patterns,
        ),
{
    law_the_last_rule_that_passes_is_found(list, window, patterns);
    if let Some(rule) = rules::last_accepting(list, window, patterns) {
        let i = choose|i: int|
            {
                &&& 0 <= i < list.len()
                &&& #[trigger] list[i] == rule
                &&& rules::rule_accepts(rule, window, patterns)
                &&& forall|j: int|
                    i < j < list.len() ==> !rules::rule_accepts(
                        #[trigger] list[j],
                        window,
                        patterns,
                    )
            };
        assert(is_last_passing(list, window, patterns, i));
    }
}

proof fn lemma_class_found(permaignored: Seq<Seq<char>>, classes: Seq<Seq<char>>, from: int)
    requires
        0 <= from,
    ensures
        match eligibility::first_ignored_class(permaignored, classes, from) {
            Some(class) => exists|i: int|
                {
                    &&& from <= i < classes.len()
                    &&& #[trigger] classes[i] == class
                    &&& permaignored.contains(class)
                    &&& forall|j: int|
                        from <= j < i ==> !permaignored.contains(#[trigger] classes[j])
                },
            None => forall|i: int|
                from <= i < classes.len() ==> !permaignored.contains(#[trigger] classes[i]),
        },
    decreases classes.len() - from,
{
    if from < classes.len() {
        if permaignored.contains(classes[from]) {
            let i = from;
            assert(permaignored.contains(classes[i]));
        } else {
            lemma_class_found(permaignored, classes, from + 1);
            if let Some(class) = eligibility::first_ignored_class(permaignored, classes, from + 1) {
                let i = choose|i: int|
                    {
                        &&& from + 1 <= i < classes.len()
                        &&& #[trigger] classes[i] == class
                        &&& permaignored.contains(class)
                        &&& forall|j: int|
                            from + 1 <= j < i ==> !permaignored.contains(#[trigger] classes[j])
                    };
                assert(classes[i] == class);
            }
        }
    }
}

/// What is found out about a window that may or may not be managed: its first class that never is, and
/// where it has none, the last rules that ignore it, that ask for it and that make it float, each if
/// there is one.
pub proof fn law_the_rules_that_speak_of_a_window_are_found(
    book: RuleBookView,
    window: WindowText,
    debug: RuleDebugView,
)
    ensures
        ({
            let now = eligibility::eligibility_findings(book, window, debug);
            let patterns = book.regex_identifiers;
            let ruled_out = exists|i: int|
                0 <= i < window.classes.len() && book.permaignore_classes.contains(
                    #[trigger] window.classes[i],
                );
            &&& now == (RuleDebugView {
                matches_permaignore_class: now.matches_permaignore_class,
                matches_ignore_identifier: now.matches_ignore_identifier,
                matches_managed_override: now.matches_managed_override,
                matches_floating_applications: now.matches_floating_applications,
                ..debug
            })
            &&& ruled_out ==> {
                &&& exists|i: int|
                    {
                        &&& 0 <= i < window.classes.len()
                        &&& now.matches_permaignore_class == Some(#[trigger] window.classes[i])
                        &&& book.permaignore_classes.contains(window.classes[i])
                        &&& forall|j: int|
                            0 <= j < i ==> !book.permaignore_classes.contains(
                                #[trigger] window.classes[j],
                            )
                    }
                &&& now.matches_ignore_identifier == debug.matches_ignore_identifier
                &&& now.matches_managed_override == debug.matches_managed_override
                &&& now.matches_floating_applications == debug.matches_floating_applications
            }
            &&& !ruled_out ==> {
                &&& now.matches_permaignore_class == debug.matches_permaignore_class
                &&& is_found(
                    now.matches_ignore_identifier,
                    debug.matches_ignore_identifier,
                    book.ignore_identifiers,
                    window,
                    patterns,
                )
                &&& is_found(
                    now.matches_managed_override,
                    debug.matches_managed_override,
                    book.manage_identifiers,
                    window,
                    patterns,
                )
                &&& is_found(
                    now.matches_floating_applications,
                    debug.matches_floating_applications,
                    book.floating_applications,
                    window,
                    patterns,
                )
            }
        }),
{
    let patterns = book.regex_identifiers;
    lemma_class_found(book.permaignore_classes, window.classes, 0);
    lemma_found(
        debug.matches_ignore_identifier,
        book.ignore_identifiers,
        window,
        patterns,
    );
    lemma_found(debug.matches_managed_override, book.manage_identifiers, window, patterns);
    lemma_found(
        debug.matches_floating_applications,
        book.floating_applications,
        window,
        patterns,
    );
}

/// Nothing is found out about a window that is not valid. Of one that is, it is noted that it is a
/// window; that it has a title, if it has one; and what it tells of itself, if it tells everything,
/// before the rules are looked at.
pub proof fn law_what_a_window_tells_is_noted(
    book: RuleBookView,
    event: Option<WindowManagerEvent>,
    window: WindowAttributesView,
    told: WindowText,
    debug: RuleDebugView,
)
    requires
        window.title is Some,
        window.title->0.len() > 0,
        is_told_as(window, window.title->0, told),
        window.subrole != Some("AXSystemDialog"@),
        window.subrole != Some("AXUnknown"@),
        debug.matches_titleless_applications is None,
    ensures
        eligibility::managed_findings(book, event, false, window, debug) == debug,
        ({
            let now = eligibility::managed_findings(book, event, true, window, debug);
            let noted = RuleDebugView {
                is_window: true,
                has_title: true,
                title: window.title,
                exe_name: window.exe,
                role: window.role,
                subrole: window.subrole,
                path: window.path,
                ..debug
            };
            now == eligibility::eligibility_findings(book, told, noted)
        }),
{
    assert(eligibility::window_text(window.title, window) == Some(told));
}

/// Of a window without a title that may do without, the name of its application is noted in its place,
/// and of one that may not, only that it is a window.
pub proof fn law_an_untitled_window_is_noted_by_its_application(
    book: RuleBookView,
    event: Option<WindowManagerEvent>,
    window: WindowAttributesView,
    told: WindowText,
    debug: RuleDebugView,
)
    requires
        window.title is None || window.title->0.len() == 0,
        window.exe is Some,
        is_told_as(window, window.exe->0, told),
        window.subrole != Some("AXSystemDialog"@),
        window.subrole != Some("AXUnknown"@),
    ensures
        ({
            let now = eligibility::managed_findings(book, event, true, window, debug);
            let may = event is Some && event->0 is Show && crate::events::source_of(event->0)
                == SystemNotification::Accessibility(AccessibilityNotification::AXWindowCreated)
                && window.subrole == Some("AXStandardWindow"@)
                || book.titleless_applications.contains(window.exe->0);
            let noted = RuleDebugView {
                is_window: true,
                matches_titleless_applications: window.exe,
                title: window.exe,
                exe_name: window.exe,
                role: window.role,
                subrole: window.subrole,
                path: window.path,
                ..debug
            };
            &&& may ==> now == eligibility::eligibility_findings(book, told, noted)
            &&& !may ==> now == (RuleDebugView { is_window: true, ..debug })
        }),
{
    assert(eligibility::window_text(window.exe, window) == Some(told));
}


proof fn lemma_first_names()
    ensures
        text::exe_removed("Spotlight"@) == "Spotlight"@,
        text::exe_removed("komorebi-bar"@) == "komorebi-bar"@,
        text::exe_removed("komorebi-shortcuts.exe"@) == "komorebi-shortcuts"@,
{
    reveal_strlit("Spotlight");
    reveal_strlit("komorebi-bar");
    reveal_strlit("komorebi-shortcuts");
    reveal_strlit("komorebi-shortcuts.exe");
    law_exe_endings_do_not_count("Spotlight"@);
    law_exe_endings_do_not_count("komorebi-bar"@);
    law_exe_endings_do_not_count("komorebi-shortcuts"@);
    assert("komorebi-shortcuts.exe"@ =~= "komorebi-shortcuts"@ + seq!['.', 'e', 'x', 'e']);
}

/// Before any configuration is read, a window may be managed unless it is one of the search or of the
/// bar, or its role or subrole is that of a dialog; and only one of the list of shortcuts floats.
pub proof fn law_few_windows_are_ruled_out_at_first(window: WindowText)
    ensures
        ({
            let book = crate::rule_book::initial_rules();
            &&& eligibility::eligible(book, window) <==> {
                &&& window.exe_name != "Spotlight"@
                &&& window.exe_name != "komorebi-bar"@
                &&& !window.classes.contains("AXDialog"@)
            }
            &&& some_passes(book.floating_applications, window, book.regex_identifiers)
                <==> window.exe_name == "komorebi-shortcuts"@
        }),
{
    let book = crate::rule_book::initial_rules();
    lemma_first_names();
    law_windows_are_eligible_unless_ignored(book, window);
    assert(!some_passes(book.manage_identifiers, window, book.regex_identifiers));
    assert(rules::rule_accepts(book.ignore_identifiers[0], window, book.regex_identifiers) == (
    window.exe_name == "Spotlight"@));
    assert(rules::rule_accepts(book.ignore_identifiers[1], window, book.regex_identifiers) == (
    window.exe_name == "komorebi-bar"@));
    assert(rules::rule_accepts(book.floating_applications[0], window, book.regex_identifiers) == (
    window.exe_name == "komorebi-shortcuts"@));
    assert(book.permaignore_classes =~= seq!["AXDialog"@]);
    assert forall|class: Seq<char>| #[trigger] book.permaignore_classes.contains(class) == (class
        == "AXDialog"@) by {
        if class == "AXDialog"@ {
            assert(book.permaignore_classes[0] == class);
        }
    }
    if window.classes.contains("AXDialog"@) {
        let i = choose|i: int| 0 <= i < window.classes.len() && window.classes[i] == "AXDialog"@;
        assert(book.permaignore_classes.contains(window.classes[i]));
    }
}

} // verus!
