//! Rules that pick windows out by what they are called.
//!
//! A rule names a window by its title, its accessibility classes, its application or the
//! path of that application, and says how the name is to be compared. Rules decide which
//! windows are managed, which float, and which workspace a window belongs to.

use crate::text;
use vstd::hash_map::StringHashMap;
use vstd::prelude::*;

verus! {

/// What part of a window a rule looks at.
#[derive(Clone, Copy, Debug, PartialEq, Eq, Structural)]
pub enum ApplicationIdentifier {
    Exe,
    Class,
    Title,
    Path,
}

/// How a rule compares its identifier with that part.
#[derive(Clone, Copy, Debug, PartialEq, Eq, Structural)]
pub enum MatchingStrategy {
    Legacy,
    Equals,
    StartsWith,
    EndsWith,
    Contains,
    Regex,
    DoesNotEndWith,
    DoesNotStartWith,
    DoesNotEqual,
    DoesNotContain,
}

/// One comparison: the part looked at, the identifier, and how the two are compared.
#[derive(Debug)]
pub struct IdWithIdentifier {
    pub kind: ApplicationIdentifier,
    pub id: String,
    pub matching_strategy: Option<MatchingStrategy>,
}

/// The value of an [`IdWithIdentifier`].
pub struct IdWithIdentifierView {
    pub kind: ApplicationIdentifier,
    pub id: Seq<char>,
    pub matching_strategy: Option<MatchingStrategy>,
}

impl DeepView for IdWithIdentifier {
    type V = IdWithIdentifierView;

    open spec fn deep_view(&self) -> IdWithIdentifierView {
        IdWithIdentifierView {
            kind: self.kind,
            id: self.id@,
            matching_strategy: self.matching_strategy,
        }
    }
}

impl Clone for IdWithIdentifier {
    fn clone(&self) -> (copy: Self)
        ensures
            copy.deep_view() == self.deep_view(),
    {
        IdWithIdentifier {
            kind: self.kind,
            id: self.id.clone(),
            matching_strategy: self.matching_strategy,
        }
    }
}

impl IdWithIdentifier {
    /// Whether two comparisons are the same one.
    pub fn same(&self, other: &Self) -> (same: bool)
        ensures
            same == (self.deep_view() == other.deep_view()),
    {
        let same_strategy: bool = match (self.matching_strategy, other.matching_strategy) {
            (None, None) => true,
            (Some(a), Some(b)) => a == b,
            _ => false,
        };
        self.kind == other.kind && same_strategy && self.id == other.id
    }
}

/// A copy of a list of comparisons.
pub fn copy_identifiers(identifiers: &Vec<IdWithIdentifier>) -> (copy: Vec<IdWithIdentifier>)
    ensures
        copy.deep_view() == identifiers.deep_view(),
{
    let mut copy: Vec<IdWithIdentifier> = Vec::new();
    let mut i: usize = 0;
    while i < identifiers.len()
        invariant
            i <= identifiers.len(),
            copy.deep_view() == identifiers.deep_view().take(i as int),
        decreases identifiers.len() - i,
    {
        let ghost before = copy.deep_view();
        let next = identifiers[i].clone();
        copy.push(next);
        i += 1;
        assert(copy.deep_view() =~= before.push(next.deep_view()));
        assert(copy.deep_view() =~= identifiers.deep_view().take(i as int));
    }
    assert(identifiers.deep_view().take(i as int) =~= identifiers.deep_view());
    copy
}

/// Whether two lists of comparisons are the same.
pub fn same_identifiers(a: &Vec<IdWithIdentifier>, b: &Vec<IdWithIdentifier>) -> (same: bool)
    ensures
        same == (a.deep_view() == b.deep_view()),
{
    if a.len() != b.len() {
        assert(a.deep_view().len() != b.deep_view().len());
        return false;
    }
    let mut i: usize = 0;
    while i < a.len()
        invariant
            i <= a.len(),
            a.len() == b.len(),
            forall|k: int| 0 <= k < i ==> a.deep_view()[k] == b.deep_view()[k],
        decreases a.len() - i,
    {
        if !a[i].same(&b[i]) {
            assert(a.deep_view()[i as int] != b.deep_view()[i as int]);
            return false;
        }
        i += 1;
    }
    assert(a.deep_view() =~= b.deep_view());
    true
}

/// A rule: one comparison, or several that must all hold.
#[derive(Debug)]
pub enum MatchingRule {
    Simple(IdWithIdentifier),
    Composite(Vec<IdWithIdentifier>),
}

/// The value of a [`MatchingRule`].
pub enum MatchingRuleView {
    Simple(IdWithIdentifierView),
    Composite(Seq<IdWithIdentifierView>),
}

impl DeepView for MatchingRule {
    type V = MatchingRuleView;

    open spec fn deep_view(&self) -> MatchingRuleView {
        match self {
            MatchingRule::Simple(identifier) => MatchingRuleView::Simple(identifier.deep_view()),
            MatchingRule::Composite(identifiers) => MatchingRuleView::Composite(
                identifiers.deep_view(),
            ),
        }
    }
}

impl Clone for MatchingRule {
    fn clone(&self) -> (copy: Self)
        ensures
            copy.deep_view() == self.deep_view(),
    {
        match self {
            MatchingRule::Simple(identifier) => MatchingRule::Simple(identifier.clone()),
            MatchingRule::Composite(identifiers) => MatchingRule::Composite(
                copy_identifiers(identifiers),
            ),
        }
    }
}

impl MatchingRule {
    /// Whether two rules are the same one.
    pub fn same(&self, other: &Self) -> (same: bool)
        ensures
            same == (self.deep_view() == other.deep_view()),
    {
        match (self, other) {
            (MatchingRule::Simple(a), MatchingRule::Simple(b)) => a.same(b),
            (MatchingRule::Composite(a), MatchingRule::Composite(b)) => same_identifiers(a, b),
            _ => false,
        }
    }
}

/// A rule that sends the windows it matches to one workspace.
#[derive(Debug)]
pub struct WorkspaceMatchingRule {
    pub monitor_index: usize,
    pub workspace_index: usize,
    pub matching_rule: MatchingRule,
    pub initial_only: bool,
}

/// The value of a [`WorkspaceMatchingRule`].
pub struct WorkspaceMatchingRuleView {
    pub monitor_index: usize,
    pub workspace_index: usize,
    pub matching_rule: MatchingRuleView,
    pub initial_only: bool,
}

impl DeepView for WorkspaceMatchingRule {
    type V = WorkspaceMatchingRuleView;

    open spec fn deep_view(&self) -> WorkspaceMatchingRuleView {
        WorkspaceMatchingRuleView {
            monitor_index: self.monitor_index,
            workspace_index: self.workspace_index,
            matching_rule: self.matching_rule.deep_view(),
            initial_only: self.initial_only,
        }
    }
}

impl WorkspaceMatchingRule {
    /// Whether two workspace rules are the same one.
    pub fn same(&self, other: &Self) -> (same: bool)
        ensures
            same == (self.deep_view() == other.deep_view()),
    {
        self.monitor_index == other.monitor_index && self.workspace_index == other.workspace_index
            && self.initial_only == other.initial_only && self.matching_rule.same(
            &other.matching_rule,
        )
    }
}

/// Everything about a window that a rule can look at.
pub struct WindowText {
    pub title: Seq<char>,
    pub exe_name: Seq<char>,
    pub classes: Seq<Seq<char>>,
    pub path: Seq<char>,
}

/// The texts behind a list of borrowed strings.
pub open spec fn texts(list: Seq<&str>) -> Seq<Seq<char>> {
    list.map_values(|text: &str| text@)
}

/// What searching `text` for the regular expression `pattern` comes to: `None` where
/// `pattern` is not a regular expression, or is one that grows larger than the limit on the
/// size of a compiled one, and otherwise whether it matches anywhere.
pub uninterp spec fn regex_search(pattern: Seq<char>, text: Seq<char>) -> Option<bool>;

/// Searches `text` with `regex::Regex::new` and `regex::Regex::is_match`.
///
/// The result depends on the pattern and the text alone, and [`regex_search`] is its name.
/// What a pattern matches is not spelled out here: that is the syntax of the regex crate.
#[verifier::external_body]
fn search(pattern: &str, text: &str) -> (found: Option<bool>)
    ensures
        found == regex_search(pattern@, text@),
{
    match regex::Regex::new(pattern) {
        Ok(regex) => Some(regex.is_match(text)),
        Err(_) => None,
    }
}

/// The regular expressions that rules refer to, by the identifier of the rule.
pub struct RegexIdentifiers {
    patterns: StringHashMap<String>,
}

impl View for RegexIdentifiers {
    type V = Map<Seq<char>, Seq<char>>;

    closed spec fn view(&self) -> Map<Seq<char>, Seq<char>> {
        self.patterns@.map_values(|pattern: String| pattern@)
    }
}

impl RegexIdentifiers {
    /// No regular expressions.
    pub fn new() -> (none: Self)
        ensures
            none@ == Map::<Seq<char>, Seq<char>>::empty(),
    {
        let none = RegexIdentifiers { patterns: StringHashMap::new() };
        assert(none@ =~= Map::<Seq<char>, Seq<char>>::empty());
        none
    }

    /// Remembers `pattern` under `id`, in place of what was there before.
    pub fn insert(&mut self, id: String, pattern: String)
        ensures
            final(self)@ == old(self)@.insert(id@, pattern@),
    {
        self.patterns.insert(id, pattern);
        assert(self@ =~= old(self)@.insert(id@, pattern@));
    }

    /// Whether the regular expression remembered under `id` matches `text`.
    pub fn finds(&self, id: &str, text: &str) -> (found: bool)
        ensures
            found == regex_accepts(self@, id@, text@),
    {
        match self.patterns.get(id) {
            Some(pattern) => regex_verdict(search(pattern.as_str(), text)),
            None => false,
        }
    }
}

/// A rule whose pattern is not a regular expression matches nothing.
pub fn regex_verdict(found: Option<bool>) -> (matches: bool)
    ensures
        matches == (found == Some(true)),
{
    match found {
        Some(found) => found,
        None => false,
    }
}

/// The regular expression remembered under `id` matches `text`.
pub open spec fn regex_accepts(
    patterns: Map<Seq<char>, Seq<char>>,
    id: Seq<char>,
    text: Seq<char>,
) -> bool {
    patterns.contains_key(id) && regex_search(patterns[id], text) == Some(true)
}

/// `text` passes the comparison with `id`. `by_affix` tells titles and classes, which the
/// legacy comparison looks for at either end, from names and paths, which it wants whole.
/// `regex_finds` is what the regular expression remembered under `id` says of `text`.
pub open spec fn accepts_text(
    strategy: Option<MatchingStrategy>,
    by_affix: bool,
    text: Seq<char>,
    id: Seq<char>,
    regex_finds: bool,
) -> bool {
    match strategy {
        None | Some(MatchingStrategy::Legacy) => if by_affix {
            text::has_prefix(text, id) || text::has_suffix(text, id)
        } else {
            text == id
        },
        Some(MatchingStrategy::Equals) => text == id,
        Some(MatchingStrategy::DoesNotEqual) => text != id,
        Some(MatchingStrategy::StartsWith) => text::has_prefix(text, id),
        Some(MatchingStrategy::DoesNotStartWith) => !text::has_prefix(text, id),
        Some(MatchingStrategy::EndsWith) => text::has_suffix(text, id),
        Some(MatchingStrategy::DoesNotEndWith) => !text::has_suffix(text, id),
        Some(MatchingStrategy::Contains) => text::has_infix(text, id),
        Some(MatchingStrategy::DoesNotContain) => !text::has_infix(text, id),
        Some(MatchingStrategy::Regex) => regex_finds,
    }
}

/// Whether `text` passes the comparison with `id`.
pub fn text_accepted(
    strategy: Option<MatchingStrategy>,
    by_affix: bool,
    text: &str,
    id: &str,
    regex_finds: bool,
) -> (accepted: bool)
    ensures
        accepted == accepts_text(strategy, by_affix, text@, id@, regex_finds),
{
    match strategy {
        None | Some(MatchingStrategy::Legacy) => if by_affix {
            text::starts_with(text, id) || text::ends_with(text, id)
        } else {
            text::same_text(text, id)
        },
        Some(MatchingStrategy::Equals) => text::same_text(text, id),
        Some(MatchingStrategy::DoesNotEqual) => !text::same_text(text, id),
        Some(MatchingStrategy::StartsWith) => text::starts_with(text, id),
        Some(MatchingStrategy::DoesNotStartWith) => !text::starts_with(text, id),
        Some(MatchingStrategy::EndsWith) => text::ends_with(text, id),
        Some(MatchingStrategy::DoesNotEndWith) => !text::ends_with(text, id),
        Some(MatchingStrategy::Contains) => text::contains(text, id),
        Some(MatchingStrategy::DoesNotContain) => !text::contains(text, id),
        Some(MatchingStrategy::Regex) => regex_finds,
    }
}

/// `text` passes the comparison `identifier`, whose `.exe` endings do not count.
pub open spec fn part_accepted(
    identifier: IdWithIdentifierView,
    by_affix: bool,
    text: Seq<char>,
    patterns: Map<Seq<char>, Seq<char>>,
) -> bool {
    let id = text::exe_removed(identifier.id);
    accepts_text(
        identifier.matching_strategy,
        by_affix,
        text,
        id,
        regex_accepts(patterns, id, text),
    )
}

/// The window passes the comparison `identifier`. Of its classes, any one is enough.
pub open spec fn identifier_accepts(
    identifier: IdWithIdentifierView,
    window: WindowText,
    patterns: Map<Seq<char>, Seq<char>>,
) -> bool {
    match identifier.kind {
        ApplicationIdentifier::Title => part_accepted(identifier, true, window.title, patterns),
        ApplicationIdentifier::Class => exists|i: int|
            0 <= i < window.classes.len() && part_accepted(
                identifier,
                true,
                #[trigger] window.classes[i],
                patterns,
            ),
        ApplicationIdentifier::Exe => part_accepted(identifier, false, window.exe_name, patterns),
        ApplicationIdentifier::Path => part_accepted(identifier, false, window.path, patterns),
    }
}

/// The window passes every one of several comparisons.
pub open spec fn all_accept(
    identifiers: Seq<IdWithIdentifierView>,
    window: WindowText,
    patterns: Map<Seq<char>, Seq<char>>,
) -> bool {
    forall|i: int|
        0 <= i < identifiers.len() ==> identifier_accepts(
            #[trigger] identifiers[i],
            window,
            patterns,
        )
}

/// The window passes the rule: its one comparison, or all of them.
pub open spec fn rule_accepts(
    rule: MatchingRuleView,
    window: WindowText,
    patterns: Map<Seq<char>, Seq<char>>,
) -> bool {
    match rule {
        MatchingRuleView::Simple(identifier) => identifier_accepts(identifier, window, patterns),
        MatchingRuleView::Composite(identifiers) => all_accept(identifiers, window, patterns),
    }
}

/// The last of `rules` that the window passes.
pub open spec fn last_accepting(
    rules: Seq<MatchingRuleView>,
    window: WindowText,
    patterns: Map<Seq<char>, Seq<char>>,
) -> Option<MatchingRuleView>
    decreases rules.len(),
{
    if rules.len() == 0 {
        None
    } else if rule_accepts(rules.last(), window, patterns) {
        Some(rules.last())
    } else {
        last_accepting(rules.drop_last(), window, patterns)
    }
}

/// Whether `text` passes the comparison with `id`, looking a regular expression up where
/// the comparison asks for one.
fn compare(
    strategy: Option<MatchingStrategy>,
    by_affix: bool,
    text: &str,
    id: &str,
    regex_identifiers: &RegexIdentifiers,
) -> (accepted: bool)
    ensures
        accepted == accepts_text(
            strategy,
            by_affix,
            text@,
            id@,
            regex_accepts(regex_identifiers@, id@, text@),
        ),
{
    let regex_finds: bool = match strategy {
        Some(MatchingStrategy::Regex) => regex_identifiers.finds(id, text),
        _ => false,
    };
    text_accepted(strategy, by_affix, text, id, regex_finds)
}

/// Whether any of the classes of a window passes a comparison with `id`.
fn any_class_accepted(
    classes: &[&str],
    identifier: &IdWithIdentifier,
    id: &str,
    regex_identifiers: &RegexIdentifiers,
) -> (accepted: bool)
    requires
        id@ == text::exe_removed(identifier.id@),
    ensures
        accepted == (exists|i: int|
            0 <= i < texts(classes@).len() && part_accepted(
                identifier.deep_view(),
                true,
                #[trigger] texts(classes@)[i],
                regex_identifiers@,
            )),
{
    let mut i: usize = 0;
    while i < classes.len()
        invariant
            i <= classes.len(),
            id@ == text::exe_removed(identifier.id@),
            forall|k: int|
                0 <= k < i ==> !part_accepted(
                    identifier.deep_view(),
                    true,
                    #[trigger] texts(classes@)[k],
                    regex_identifiers@,
                ),
        decreases classes.len() - i,
    {
        if compare(identifier.matching_strategy, true, classes[i], id, regex_identifiers) {
            assert(texts(classes@)[i as int] == classes@[i as int]@);
            return true;
        }
        i += 1;
    }
    false
}

/// Whether a window passes one comparison.
pub fn should_act_individual(
    title: &str,
    exe_name: &str,
    classes: &[&str],
    path: &str,
    identifier: &IdWithIdentifier,
    regex_identifiers: &RegexIdentifiers,
) -> (acts: bool)
    ensures
        acts == identifier_accepts(
            identifier.deep_view(),
            (WindowText { title: title@, exe_name: exe_name@, classes: texts(classes@), path: path@ }),
            regex_identifiers@,
        ),
{
    let id = text::remove_exe(identifier.id.as_str());
    let strategy = identifier.matching_strategy;
    match identifier.kind {
        ApplicationIdentifier::Title => compare(
            strategy,
            true,
            title,
            id.as_str(),
            regex_identifiers,
        ),
        ApplicationIdentifier::Class => any_class_accepted(
            classes,
            identifier,
            id.as_str(),
            regex_identifiers,
        ),
        ApplicationIdentifier::Exe => compare(
            strategy,
            false,
            exe_name,
            id.as_str(),
            regex_identifiers,
        ),
        ApplicationIdentifier::Path => compare(
            strategy,
            false,
            path,
            id.as_str(),
            regex_identifiers,
        ),
    }
}

/// Whether a window passes every one of several comparisons.
fn all_identifiers_act(
    title: &str,
    exe_name: &str,
    classes: &[&str],
    path: &str,
    identifiers: &Vec<IdWithIdentifier>,
    regex_identifiers: &RegexIdentifiers,
) -> (acts: bool)
    ensures
        acts == all_accept(
            identifiers.deep_view(),
            (WindowText { title: title@, exe_name: exe_name@, classes: texts(classes@), path: path@ }),
            regex_identifiers@,
        ),
{
    let ghost window = WindowText {
        title: title@,
        exe_name: exe_name@,
        classes: texts(classes@),
        path: path@,
    };
    let mut i: usize = 0;
    while i < identifiers.len()
        invariant
            i <= identifiers.len(),
            window == (WindowText {
                title: title@,
                exe_name: exe_name@,
                classes: texts(classes@),
                path: path@,
            }),
            forall|k: int|
                0 <= k < i ==> identifier_accepts(
                    #[trigger] identifiers.deep_view()[k],
                    window,
                    regex_identifiers@,
                ),
        decreases identifiers.len() - i,
    {
        if !should_act_individual(
            title,
            exe_name,
            classes,
            path,
            &identifiers[i],
            regex_identifiers,
        ) {
            assert(!identifier_accepts(
                identifiers.deep_view()[i as int],
                window,
                regex_identifiers@,
            ));
            return false;
        }
        i += 1;
    }
    true
}

/// Whether a window passes one rule.
fn rule_acts(
    title: &str,
    exe_name: &str,
    classes: &[&str],
    path: &str,
    rule: &MatchingRule,
    regex_identifiers: &RegexIdentifiers,
) -> (acts: bool)
    ensures
        acts == rule_accepts(
            rule.deep_view(),
            (WindowText { title: title@, exe_name: exe_name@, classes: texts(classes@), path: path@ }),
            regex_identifiers@,
        ),
{
    match rule {
        MatchingRule::Simple(identifier) => should_act_individual(
            title,
            exe_name,
            classes,
            path,
            identifier,
            regex_identifiers,
        ),
        MatchingRule::Composite(identifiers) => all_identifiers_act(
            title,
            exe_name,
            classes,
            path,
            identifiers,
            regex_identifiers,
        ),
    }
}

/// The last of `identifiers` that a window passes.
pub fn should_act(
    title: &str,
    exe_name: &str,
    classes: &[&str],
    path: &str,
    identifiers: &Vec<MatchingRule>,
    regex_identifiers: &RegexIdentifiers,
) -> (rule: Option<MatchingRule>)
    ensures
        rule.deep_view() == last_accepting(
            identifiers.deep_view(),
            (WindowText { title: title@, exe_name: exe_name@, classes: texts(classes@), path: path@ }),
            regex_identifiers@,
        ),
{
    let ghost window = WindowText {
        title: title@,
        exe_name: exe_name@,
        classes: texts(classes@),
        path: path@,
    };
    let mut matching_rule: Option<MatchingRule> = None;
    let mut i: usize = 0;
    while i < identifiers.len()
        invariant
            i <= identifiers.len(),
            window == (WindowText {
                title: title@,
                exe_name: exe_name@,
                classes: texts(classes@),
                path: path@,
            }),
            matching_rule.deep_view() == last_accepting(
                identifiers.deep_view().take(i as int),
                window,
                regex_identifiers@,
            ),
        decreases identifiers.len() - i,
    {
        if rule_acts(title, exe_name, classes, path, &identifiers[i], regex_identifiers) {
            matching_rule = Some(identifiers[i].clone());
        }
        i += 1;
        proof {
            let seen = identifiers.deep_view().take(i as int);
            assert(seen.drop_last() =~= identifiers.deep_view().take(i - 1));
            assert(seen.last() == identifiers.deep_view()[i - 1]);
        }
    }
    assert(identifiers.deep_view().take(i as int) =~= identifiers.deep_view());
    matching_rule
}

} // verus!
