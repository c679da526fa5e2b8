//! What is remembered about windows and the applications that they belong to.

use crate::events::AccessibilityNotification;
use crate::geometry::Rect;
use std::collections::HashMap;
use vstd::prelude::*;

verus! {

/// What is remembered about windows, by id, and about applications, by process.
pub struct WindowMemory {
    /// Where each window was last confirmed to be. Dropped the moment a window moves for any
    /// other reason than having been put there.
    confirmed_positions: HashMap<u32, Rect>,
    /// How many reports of its own moves each window still owes.
    self_move_echoes: HashMap<u32, u8>,
    /// The titles of windows, asked for once and remembered.
    titles: HashMap<u32, String>,
    /// The names of applications, asked for once and remembered.
    application_names: HashMap<i32, String>,
    /// Where hidden windows go back to.
    restore_positions: HashMap<u32, Rect>,
}

/// The value of a [`WindowMemory`].
#[verifier::ext_equal]
pub struct WindowMemoryView {
    pub confirmed_positions: Map<u32, Rect>,
    pub self_move_echoes: Map<u32, u8>,
    pub titles: Map<u32, Seq<char>>,
    pub application_names: Map<i32, Seq<char>>,
    pub restore_positions: Map<u32, Rect>,
}

impl View for WindowMemory {
    type V = WindowMemoryView;

    closed spec fn view(&self) -> WindowMemoryView {
        WindowMemoryView {
            confirmed_positions: self.confirmed_positions@,
            self_move_echoes: self.self_move_echoes@,
            titles: self.titles@.map_values(|title: String| title@),
            application_names: self.application_names@.map_values(|name: String| name@),
            restore_positions: self.restore_positions@,
        }
    }
}

impl WindowMemoryView {
    /// Where a window is known to be.
    pub open spec fn position(self, id: u32) -> Option<Rect> {
        if self.confirmed_positions.contains_key(id) {
            Some(self.confirmed_positions[id])
        } else {
            None
        }
    }

    /// A window was confirmed to be somewhere.
    pub open spec fn confirmed(self, id: u32, rect: Rect) -> WindowMemoryView {
        WindowMemoryView { confirmed_positions: self.confirmed_positions.insert(id, rect), ..self }
    }

    /// A move that is about to be made will be reported so many times.
    pub open spec fn expecting(self, id: u32, count: u8) -> WindowMemoryView {
        WindowMemoryView { self_move_echoes: self.self_move_echoes.insert(id, count), ..self }
    }

    /// A report of a move is one that is owed.
    pub open spec fn owes(self, id: u32) -> bool {
        self.self_move_echoes.contains_key(id) && self.self_move_echoes[id] > 0
    }

    /// One report of a move has come in.
    pub open spec fn absorbed(self, id: u32) -> WindowMemoryView {
        if self.owes(id) {
            self.expecting(id, (self.self_move_echoes[id] - 1) as u8)
        } else {
            self
        }
    }

    /// It is no longer known where a window is.
    pub open spec fn without_position(self, id: u32) -> WindowMemoryView {
        WindowMemoryView {
            confirmed_positions: self.confirmed_positions.remove(id),
            self_move_echoes: self.self_move_echoes.remove(id),
            ..self
        }
    }

    /// It is no longer known what a window is called.
    pub open spec fn without_title(self, id: u32) -> WindowMemoryView {
        WindowMemoryView { titles: self.titles.remove(id), ..self }
    }

    /// It is no longer known what an application is called.
    pub open spec fn without_application_name(self, process_id: i32) -> WindowMemoryView {
        WindowMemoryView {
            application_names: self.application_names.remove(process_id),
            ..self
        }
    }
}

impl WindowMemory {
    /// Nothing is remembered.
    pub fn new() -> (none: Self)
        ensures
            none@ == (WindowMemoryView {
                confirmed_positions: Map::empty(),
                self_move_echoes: Map::empty(),
                titles: Map::empty(),
                application_names: Map::empty(),
                restore_positions: Map::empty(),
            }),
    {
        broadcast use vstd::std_specs::hash::group_hash_axioms;

        let none = WindowMemory {
            confirmed_positions: HashMap::new(),
            self_move_echoes: HashMap::new(),
            titles: HashMap::new(),
            application_names: HashMap::new(),
            restore_positions: HashMap::new(),
        };
        assert(none@.titles =~= Map::empty());
        assert(none@.application_names =~= Map::empty());
        none
    }

    /// Where a window is known to be, without asking.
    pub fn known_position(&self, id: u32) -> (rect: Option<Rect>)
        ensures
            rect == self@.position(id),
    {
        broadcast use vstd::std_specs::hash::group_hash_axioms;

        match self.confirmed_positions.get(&id) {
            Some(rect) => Some(*rect),
            None => None,
        }
    }

    /// Remembers where a window was seen to be.
    pub fn confirm_position(&mut self, id: u32, rect: Rect)
        ensures
            final(self)@ == old(self)@.confirmed(id, rect),
    {
        broadcast use vstd::std_specs::hash::group_hash_axioms;

        self.confirmed_positions.insert(id, rect);
        assert(self@ =~= old(self)@.confirmed(id, rect));
    }
}

impl WindowMemory {
    /// Where a hidden window goes back to.
    pub fn restore_point(&self, id: u32) -> (rect: Option<Rect>)
        ensures
            match rect {
                Some(rect) => self@.restore_positions.contains_key(id)
                    && self@.restore_positions[id] == rect,
                None => !self@.restore_positions.contains_key(id),
            },
    {
        broadcast use vstd::std_specs::hash::group_hash_axioms;

        match self.restore_positions.get(&id) {
            Some(rect) => Some(*rect),
            None => None,
        }
    }

    /// Notes where a window goes back to, unless that was noted already.
    pub fn note_restore_point(&mut self, id: u32, rect: Rect)
        ensures
            final(self)@ == crate::placement::with_restore_point(old(self)@, id, rect),
    {
        broadcast use vstd::std_specs::hash::group_hash_axioms;

        if !self.restore_positions.contains_key(&id) {
            self.restore_positions.insert(id, rect);
        }
        assert(self@ =~= crate::placement::with_restore_point(old(self)@, id, rect));
    }

    /// A window is back where it goes.
    pub fn drop_restore_point(&mut self, id: u32)
        ensures
            final(self)@ == crate::placement::without_restore_point(old(self)@, id),
    {
        broadcast use vstd::std_specs::hash::group_hash_axioms;

        self.restore_positions.remove(&id);
        assert(self@ =~= crate::placement::without_restore_point(old(self)@, id));
    }
}

/// Says in advance how many reports a move is about to cause. The count is set, never added
/// to, so that a report that never arrives cannot make a later move go unnoticed.
pub fn expect_self_move_echoes(memory: &mut WindowMemory, window_id: u32, count: u8)
    ensures
        final(memory)@ == old(memory)@.expecting(window_id, count),
{
    broadcast use vstd::std_specs::hash::group_hash_axioms;

    memory.self_move_echoes.insert(window_id, count);
    assert(memory@ =~= old(memory)@.expecting(window_id, count));
}

/// Whether this report of a move is one that was expected, and should not be believed as
/// news.
pub fn absorb_self_move_echo(memory: &mut WindowMemory, window_id: u32) -> (expected: bool)
    ensures
        expected == old(memory)@.owes(window_id),
        final(memory)@ == old(memory)@.absorbed(window_id),
{
    broadcast use vstd::std_specs::hash::group_hash_axioms;

    let remaining: u8 = match memory.self_move_echoes.get(&window_id) {
        Some(remaining) => *remaining,
        None => 0,
    };
    if remaining > 0 {
        expect_self_move_echoes(memory, window_id, remaining - 1);
        true
    } else {
        false
    }
}

/// Forgets where a window was: it has moved for reasons of its own.
pub fn forget_position(memory: &mut WindowMemory, window_id: u32)
    ensures
        final(memory)@ == old(memory)@.without_position(window_id),
{
    broadcast use vstd::std_specs::hash::group_hash_axioms;

    memory.confirmed_positions.remove(&window_id);
    memory.self_move_echoes.remove(&window_id);
    assert(memory@ =~= old(memory)@.without_position(window_id));
}

/// The title of this window has changed, or the window has gone: it is asked for again next
/// time.
pub fn forget_title(memory: &mut WindowMemory, window_id: u32)
    ensures
        final(memory)@ == old(memory)@.without_title(window_id),
{
    broadcast use vstd::std_specs::hash::group_hash_axioms;

    memory.titles.remove(&window_id);
    assert(memory@ =~= old(memory)@.without_title(window_id));
}

/// A window that has gone: nothing remembered about it is worth keeping, and the next window
/// to be handed this id is a different one.
pub fn forget_window(memory: &mut WindowMemory, window_id: u32)
    ensures
        final(memory)@ == old(memory)@.without_position(window_id).without_title(window_id),
{
    forget_position(memory, window_id);
    forget_title(memory, window_id);
}

/// The memory after a title was read: only a real title is worth remembering, because a
/// window that has no title yet has not finished opening.
pub open spec fn with_title_read(
    memory: WindowMemoryView,
    id: u32,
    title: Option<Seq<char>>,
) -> WindowMemoryView {
    match title {
        Some(title) => if title.len() > 0 {
            WindowMemoryView { titles: memory.titles.insert(id, title), ..memory }
        } else {
            memory
        },
        None => memory,
    }
}

impl WindowMemory {
    /// The title of a window, as far as it is remembered.
    pub fn known_title(&self, id: u32) -> (title: Option<String>)
        ensures
            match title {
                Some(title) => self@.titles.contains_key(id) && self@.titles[id] == title@,
                None => !self@.titles.contains_key(id),
            },
    {
        broadcast use vstd::std_specs::hash::group_hash_axioms;

        match self.titles.get(&id) {
            Some(title) => Some(title.clone()),
            None => None,
        }
    }

    /// Remembers a title that was read, if it is a real one.
    pub fn note_title(&mut self, id: u32, title: &Option<String>)
        ensures
            final(self)@ == with_title_read(old(self)@, id, title.deep_view()),
    {
        broadcast use vstd::std_specs::hash::group_hash_axioms;

        if let Some(title) = title {
            if !title.as_str().is_empty() {
                self.titles.insert(id, title.clone());
                assert(self@.titles =~= old(self)@.titles.insert(id, title@));
            }
        }
        assert(self@ =~= with_title_read(old(self)@, id, title.deep_view()));
    }
}

/// The memory after the name of an application was read: whatever was read is remembered.
pub open spec fn with_application_name_read(
    memory: WindowMemoryView,
    process_id: i32,
    name: Option<Seq<char>>,
) -> WindowMemoryView {
    match name {
        Some(name) => WindowMemoryView {
            application_names: memory.application_names.insert(process_id, name),
            ..memory
        },
        None => memory,
    }
}

impl WindowMemory {
    /// The name of an application, as far as it is remembered.
    pub fn known_application_name(&self, process_id: i32) -> (name: Option<String>)
        ensures
            match name {
                Some(name) => self@.application_names.contains_key(process_id)
                    && self@.application_names[process_id] == name@,
                None => !self@.application_names.contains_key(process_id),
            },
    {
        broadcast use vstd::std_specs::hash::group_hash_axioms;

        match self.application_names.get(&process_id) {
            Some(name) => Some(name.clone()),
            None => None,
        }
    }

    /// Remembers the name of an application that was read.
    pub fn note_application_name(&mut self, process_id: i32, name: &Option<String>)
        ensures
            final(self)@ == with_application_name_read(old(self)@, process_id, name.deep_view()),
    {
        broadcast use vstd::std_specs::hash::group_hash_axioms;

        if let Some(name) = name {
            self.application_names.insert(process_id, name.clone());
            assert(self@.application_names =~= old(self)@.application_names.insert(
                process_id,
                name@,
            ));
        }
        assert(self@ =~= with_application_name_read(old(self)@, process_id, name.deep_view()));
    }
}

/// An application has quit: the next one to be handed this process id is a different one.
pub fn forget_application(memory: &mut WindowMemory, process_id: i32)
    ensures
        final(memory)@ == old(memory)@.without_application_name(process_id),
{
    broadcast use vstd::std_specs::hash::group_hash_axioms;

    memory.application_names.remove(&process_id);
    assert(memory@ =~= old(memory)@.without_application_name(process_id));
}

/// The name of an application: what is remembered, or else what the application says.
pub open spec fn name_of(
    memory: WindowMemoryView,
    process_id: i32,
    said: Option<Seq<char>>,
) -> Option<Seq<char>> {
    if memory.application_names.contains_key(process_id) {
        Some(memory.application_names[process_id])
    } else {
        said
    }
}

/// The name of an application, which is remembered once it has said one. Where a name is
/// remembered the application need not be asked, and what it `said` does not count.
pub fn application_name(memory: &mut WindowMemory, process_id: i32, said: Option<String>) -> (name:
    Option<String>)
    ensures
        name.deep_view() == name_of(old(memory)@, process_id, said.deep_view()),
        final(memory)@ == with_application_name_read(
            old(memory)@,
            process_id,
            name_of(old(memory)@, process_id, said.deep_view()),
        ),
{
    match memory.known_application_name(process_id) {
        Some(name) => {
            assert(memory@ =~= with_application_name_read(memory@, process_id, Some(name@)));
            Some(name)
        },
        None => {
            memory.note_application_name(process_id, &said);
            said
        },
    }
}

/// Once an application has said a name, whatever it is, that is its name from then on: whatever
/// would be said later, and whatever other applications say, until it is forgotten. So it is
/// asked for its name once.
pub proof fn law_application_names_are_asked_for_once(
    memory: WindowMemoryView,
    process_id: i32,
    said: Option<Seq<char>>,
    later: Option<Seq<char>>,
    other: i32,
    other_name: Option<Seq<char>>,
)
    requires
        name_of(memory, process_id, said) is Some,
        other != process_id,
    ensures
        ({
            let known = with_application_name_read(
                memory,
                process_id,
                name_of(memory, process_id, said),
            );
            &&& known.application_names.contains_key(process_id)
            &&& name_of(known, process_id, later) == name_of(memory, process_id, said)
            &&& name_of(
                with_application_name_read(known, other, other_name),
                process_id,
                later,
            ) == name_of(memory, process_id, said)
            &&& name_of(known.without_application_name(process_id), process_id, later) == later
            &&& name_of(known, other, later) == name_of(memory, other, later)
        }),
{
}

/// A report of a window is passed on: the window has a name, and the report is a known one.
pub open spec fn is_window_report(
    notification: Option<AccessibilityNotification>,
    name: Option<Seq<char>>,
) -> bool {
    notification is Some && name is Some && name->0.len() > 0
}

/// What is remembered after a report of a window: a change of title, which is the one thing
/// that makes a remembered title wrong, has it forgotten.
pub open spec fn after_window_report(
    memory: WindowMemoryView,
    notification: Option<AccessibilityNotification>,
    name: Option<Seq<char>>,
    window_id: Option<u32>,
) -> WindowMemoryView {
    match window_id {
        Some(id) => if is_window_report(notification, name) && notification == Some(
            AccessibilityNotification::AXTitleChanged,
        ) {
            memory.without_title(id)
        } else {
            memory
        },
        None => memory,
    }
}

/// Takes in a report of a window, and says whether it is passed on.
pub fn note_window_report(
    memory: &mut WindowMemory,
    notification: Option<AccessibilityNotification>,
    name: Option<&str>,
    window_id: Option<u32>,
) -> (passed_on: bool)
    ensures
        ({
            let name = match name {
                Some(name) => Some(name@),
                None => None,
            };
            &&& passed_on == is_window_report(notification, name)
            &&& final(memory)@ == after_window_report(old(memory)@, notification, name, window_id)
        }),
{
    let named: bool = match name {
        Some(name) => !name.is_empty(),
        None => false,
    };
    if !named {
        return false;
    }
    match notification {
        Some(AccessibilityNotification::AXTitleChanged) => {
            if let Some(id) = window_id {
                forget_title(memory, id);
            }
            true
        },
        Some(_) => true,
        None => false,
    }
}

/// The number of reports owed after a move is exactly the number that was announced last,
/// whatever was owed before.
pub proof fn law_echoes_are_set_not_added(memory: WindowMemoryView, id: u32, count: u8, other: u8)
    ensures
        memory.expecting(id, other).expecting(id, count) == memory.expecting(id, count),
        memory.expecting(id, count).self_move_echoes[id] == count,
{
    assert(memory.expecting(id, other).expecting(id, count) =~= memory.expecting(id, count));
}

/// After a move that is reported `count` times, exactly `count` reports are absorbed: each of
/// the next `n` while `n` is at most `count`, and none after that.
pub proof fn law_exactly_the_announced_echoes_are_absorbed(
    memory: WindowMemoryView,
    id: u32,
    count: u8,
    n: nat,
)
    requires
        n <= count,
    ensures
        absorbed_times(memory.expecting(id, count), id, n) == memory.expecting(
            id,
            (count - n) as u8,
        ),
        absorbed_times(memory.expecting(id, count), id, n).owes(id) <==> n < count,
    decreases n,
{
    if n > 0 {
        law_exactly_the_announced_echoes_are_absorbed(memory, id, count, (n - 1) as nat);
        let before = absorbed_times(memory.expecting(id, count), id, (n - 1) as nat);
        assert(before.absorbed(id) =~= memory.expecting(id, (count - n) as u8));
    }
}

/// The memory after `n` reports of a move.
pub open spec fn absorbed_times(memory: WindowMemoryView, id: u32, n: nat) -> WindowMemoryView
    decreases n,
{
    if n == 0 {
        memory
    } else {
        absorbed_times(memory, id, (n - 1) as nat).absorbed(id)
    }
}

/// Once a window's position is forgotten nothing is known of it and no report is owed, while
/// every other window is remembered as before.
pub proof fn law_forgetting_is_complete_and_local(memory: WindowMemoryView, id: u32, other: u32)
    requires
        other != id,
    ensures
        memory.without_position(id).position(id) is None,
        !memory.without_position(id).owes(id),
        memory.without_position(id).position(other) == memory.position(other),
        memory.without_position(id).owes(other) == memory.owes(other),
        !memory.without_position(id).without_title(id).titles.contains_key(id),
{
}


/// A title that was read is remembered if it is not empty, for that window and no other; otherwise what
/// was remembered stays.
pub proof fn law_only_real_titles_are_remembered(
    memory: WindowMemoryView,
    id: u32,
    title: Option<Seq<char>>,
    other: u32,
)
    ensures
        ({
            let now = with_title_read(memory, id, title);
            &&& now == (WindowMemoryView { titles: now.titles, ..memory })
            &&& title is Some && title->0.len() > 0 ==> now.titles.contains_key(id)
                && now.titles[id] == title->0
            &&& title is None || title->0.len() == 0 || other != id ==> now.titles.contains_key(
                other,
            ) == memory.titles.contains_key(other) && now.titles[other] == memory.titles[other]
        }),
{
}

/// The title of a window is forgotten by a report that it has changed, from a window that has a name;
/// no other report has anything forgotten, and no other window is concerned.
pub proof fn law_a_changed_title_is_forgotten(
    memory: WindowMemoryView,
    notification: Option<AccessibilityNotification>,
    name: Option<Seq<char>>,
    window_id: Option<u32>,
    other: u32,
)
    ensures
        ({
            let now = after_window_report(memory, notification, name, window_id);
            let changed = notification == Some(AccessibilityNotification::AXTitleChanged)
                && name is Some && name->0.len() > 0;
            &&& now == (WindowMemoryView { titles: now.titles, ..memory })
            &&& now.titles.contains_key(other) <==> memory.titles.contains_key(other) && !(changed
                && window_id == Some(other))
            &&& now.titles.contains_key(other) ==> now.titles[other] == memory.titles[other]
        }),
{
}

} // verus!
