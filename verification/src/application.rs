//! The windows of one application, and what it reports.

use crate::events::AccessibilityNotification;
use crate::text;
use vstd::prelude::*;

verus! {

/// How often it is tried to observe an application, some of which refuse at first.
pub const OBSERVE_ATTEMPTS: u32 = 5;

/// How long to wait before trying again, in milliseconds.
pub const OBSERVE_RETRY_INTERVAL_MS: u64 = 100;

/// A window of an application, as the application lists it.
#[derive(Debug)]
pub struct ListedWindow {
    /// Its id, where it says so.
    pub id: Option<u32>,
    /// The window can be reached.
    pub is_reachable: bool,
    pub title: Option<String>,
}

/// The value of a [`ListedWindow`].
pub struct ListedWindowView {
    pub id: Option<u32>,
    pub is_reachable: bool,
    pub title: Option<Seq<char>>,
}

impl DeepView for ListedWindow {
    type V = ListedWindowView;

    open spec fn deep_view(&self) -> ListedWindowView {
        ListedWindowView {
            id: self.id,
            is_reachable: self.is_reachable,
            title: self.title.deep_view(),
        }
    }
}

/// The first window from `from` on with this id, if that one can be reached.
pub open spec fn with_id(windows: Seq<ListedWindowView>, id: u32, from: int) -> Option<int>
    decreases windows.len() - from,
{
    if from < 0 || from >= windows.len() {
        None
    } else if windows[from].id == Some(id) {
        if windows[from].is_reachable {
            Some(from)
        } else {
            None
        }
    } else {
        with_id(windows, id, from + 1)
    }
}

/// The window's title reads `title`, or has it within: applications that are already running
/// may give a longer title than the one they were known by.
pub open spec fn is_titled(window: ListedWindowView, title: Seq<char>) -> bool {
    window.title is Some && text::has_infix(window.title->0, title)
}

/// The last of the first `n` windows that is titled so.
pub open spec fn last_titled(windows: Seq<ListedWindowView>, n: int, title: Seq<char>) -> Option<int>
    decreases n,
{
    if n <= 0 {
        None
    } else if is_titled(windows[n - 1], title) {
        Some(n - 1)
    } else {
        last_titled(windows, n - 1, title)
    }
}

/// Every window can be reached.
pub open spec fn all_reachable(windows: Seq<ListedWindowView>) -> bool {
    forall|i: int| 0 <= i < windows.len() ==> (#[trigger] windows[i]).is_reachable
}

/// Where a window with this id stands in the list. Going by id rather than by title lets
/// several windows with the same title be told apart.
pub fn window_by_id(windows: &Vec<ListedWindow>, window_id: u32) -> (at: Option<usize>)
    ensures
        match at {
            Some(i) => with_id(windows.deep_view(), window_id, 0) == Some(i as int),
            None => with_id(windows.deep_view(), window_id, 0) is None,
        },
{
    let mut i: usize = 0;
    while i < windows.len()
        invariant
            i <= windows.len(),
            with_id(windows.deep_view(), window_id, 0) == with_id(
                windows.deep_view(),
                window_id,
                i as int,
            ),
        decreases windows.len() - i,
    {
        assert(windows.deep_view()[i as int] == windows[i as int].deep_view());
        if let Some(id) = windows[i].id {
            if id == window_id {
                return if windows[i].is_reachable {
                    Some(i)
                } else {
                    None
                };
            }
        }
        i += 1;
    }
    None
}

/// Where the last window that is titled so stands in the list. Where some window cannot be
/// reached, none is found.
pub fn window_by_title(windows: &Vec<ListedWindow>, title: &str) -> (at: Option<usize>)
    ensures
        match at {
            Some(i) => {
                &&& all_reachable(windows.deep_view())
                &&& last_titled(windows.deep_view(), windows.len() as int, title@) == Some(
                    i as int,
                )
            },
            None => !all_reachable(windows.deep_view()) || last_titled(
                windows.deep_view(),
                windows.len() as int,
                title@,
            ) is None,
        },
{
    let mut target: Option<usize> = None;
    let mut i: usize = 0;
    while i < windows.len()
        invariant
            i <= windows.len(),
            forall|k: int|
                0 <= k < i ==> (#[trigger] windows.deep_view()[k]).is_reachable,
            match target {
                Some(t) => last_titled(windows.deep_view(), i as int, title@) == Some(t as int),
                None => last_titled(windows.deep_view(), i as int, title@) is None,
            },
        decreases windows.len() - i,
    {
        assert(windows.deep_view()[i as int] == windows[i as int].deep_view());
        if !windows[i].is_reachable {
            assert(!windows.deep_view()[i as int].is_reachable);
            return None;
        }
        if let Some(found) = &windows[i].title {
            if text::contains(found.as_str(), title) {
                target = Some(i);
            }
        }
        i += 1;
    }
    target
}

/// A report is passed on: something that has a title reports it, or a window reports its own
/// end, when it no longer has one, or its own beginning, when it does not have one yet. Other
/// reports come from helpers that nobody sees.
pub open spec fn is_passed_on(
    notification: Option<AccessibilityNotification>,
    name: Option<Seq<char>>,
) -> bool {
    &&& notification is Some
    &&& {
        ||| notification == Some(AccessibilityNotification::AXUIElementDestroyed)
        ||| notification == Some(AccessibilityNotification::AXWindowCreated)
        ||| name is Some && name->0.len() > 0
    }
}

/// Whether a report is passed on.
pub fn passes_on(notification: Option<AccessibilityNotification>, name: Option<&str>) -> (
passed_on: bool)
    ensures
        passed_on == is_passed_on(
            notification,
            match name {
                Some(name) => Some(name@),
                None => None,
            },
        ),
{
    let named: bool = match name {
        Some(name) => !name.is_empty(),
        None => false,
    };
    match notification {
        Some(AccessibilityNotification::AXUIElementDestroyed)
        | Some(AccessibilityNotification::AXWindowCreated) => true,
        Some(_) => named,
        None => false,
    }
}

/// What is to be done after an attempt to observe an application.
#[derive(Clone, Copy, Debug, PartialEq, Eq, Structural)]
pub enum ObserveStep {
    Observed,
    Retry,
    GiveUp,
}

/// What is to be done after an attempt to observe an application, counting attempts from one.
pub fn after_observing(attempt: u32, succeeded: bool) -> (step: ObserveStep)
    ensures
        step == if succeeded {
            ObserveStep::Observed
        } else if attempt < OBSERVE_ATTEMPTS {
            ObserveStep::Retry
        } else {
            ObserveStep::GiveUp
        },
{
    if succeeded {
        ObserveStep::Observed
    } else if attempt < OBSERVE_ATTEMPTS {
        ObserveStep::Retry
    } else {
        ObserveStep::GiveUp
    }
}

/// A window's beginning and its end are never missed, whatever it is called by then.
pub proof fn law_beginnings_and_ends_are_passed_on(name: Option<Seq<char>>)
    ensures
        is_passed_on(Some(AccessibilityNotification::AXWindowCreated), name),
        is_passed_on(Some(AccessibilityNotification::AXUIElementDestroyed), name),
{
}


/// A window is found by its id: the first that has it counts, and it has to be reachable.
pub proof fn law_a_window_is_found_by_its_id(windows: Seq<ListedWindowView>, id: u32, from: int)
    requires
        0 <= from,
    ensures
        match with_id(windows, id, from) {
            Some(i) => {
                &&& from <= i < windows.len()
                &&& windows[i].id == Some(id)
                &&& windows[i].is_reachable
                &&& forall|j: int| from <= j < i ==> (#[trigger] windows[j]).id != Some(id)
            },
            None => forall|i: int|
                from <= i < windows.len() && (#[trigger] windows[i]).id == Some(id) && (forall|
                    j: int,
                |
                    from <= j < i ==> (#[trigger] windows[j]).id != Some(id))
                    ==> !windows[i].is_reachable,
        },
    decreases windows.len() - from,
{
    if from < windows.len() && windows[from].id != Some(id) {
        law_a_window_is_found_by_its_id(windows, id, from + 1);
        if with_id(windows, id, from) is None {
            assert forall|i: int|
                from <= i < windows.len() && (#[trigger] windows[i]).id == Some(id) && (forall|
                    j: int,
                |
                    from <= j < i ==> (#[trigger] windows[j]).id != Some(id)) implies !windows[i].is_reachable by {
                assert(i != from);
            }
        }
    } else if from < windows.len() {
        assert forall|i: int|
            from <= i < windows.len() && (#[trigger] windows[i]).id == Some(id) && (forall|j: int|
                from <= j < i ==> (#[trigger] windows[j]).id != Some(id)) && with_id(
                windows,
                id,
                from,
            ) is None implies !windows[i].is_reachable by {
            if i != from {
                assert(windows[from].id != Some(id));
            }
        }
    }
}

/// A window is found by its title: it is the last whose title has the given one within.
pub proof fn law_a_window_is_found_by_its_title(
    windows: Seq<ListedWindowView>,
    n: int,
    title: Seq<char>,
)
    requires
        0 <= n <= windows.len(),
    ensures
        match last_titled(windows, n, title) {
            Some(i) => {
                &&& 0 <= i < n
                &&& windows[i].title is Some
                &&& text::has_infix(windows[i].title->0, title)
                &&& forall|j: int|
                    i < j < n && (#[trigger] windows[j]).title is Some ==> !text::has_infix(
                        windows[j].title->0,
                        title,
                    )
            },
            None => forall|j: int|
                0 <= j < n && (#[trigger] windows[j]).title is Some ==> !text::has_infix(
                    windows[j].title->0,
                    title,
                ),
        },
    decreases n,
{
    if n > 0 {
        law_a_window_is_found_by_its_title(windows, n - 1, title);
    }
}

/// Reports of an element with a title are passed on, and so is every report that an element has gone
/// or that a window was made; nothing else is.
pub proof fn law_nameless_helpers_are_not_heard(
    notification: AccessibilityNotification,
    name: Option<Seq<char>>,
)
    ensures
        is_passed_on(Some(notification), name) <==> {
            ||| name is Some && name->0.len() > 0
            ||| notification is AXUIElementDestroyed
            ||| notification is AXWindowCreated
        },
        !is_passed_on(None, name),
{
}

} // verus!
