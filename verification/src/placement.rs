//! Putting windows where they belong: moving, hiding, restoring, focusing and centring.
//!
//! Talking to an application about its window is slow, so every question that has a known
//! answer is answered from memory, and nothing is asked of a window that it already is.

use crate::geometry;
use crate::geometry::Rect;
use crate::geometry::WindowHidingPosition;
use crate::min_size;
use crate::min_size::AcceptedSizes;
use crate::min_size::MinSize;
use crate::min_size::MinSizes;
use crate::min_size::MinSizesView;
use crate::settings;
use crate::settings::AnimationPrefix;
use crate::settings::AnimationSettings;
use crate::settings::AnimationStyle;
use crate::text;
use crate::window;
use crate::window::WindowMemory;
use crate::window::WindowMemoryView;
use vstd::prelude::*;

verus! {

/// What to do about a window that is to be put somewhere.
#[derive(Clone, Copy, Debug, PartialEq, Eq, Structural)]
pub enum PlacementStep {
    /// Nothing: it was put there before and has not moved since.
    InPlace,
    /// Move it, and resize it unless it already has the size.
    Move { rect: Rect, resize: bool, animated: bool },
}

/// A dimension that an application will accept.
pub open spec fn at_least(wanted: i32, minimum: Option<i32>) -> i32 {
    match minimum {
        Some(minimum) => if minimum > wanted {
            minimum
        } else {
            wanted
        },
        None => wanted,
    }
}

/// A rectangle of a size that the application will accept.
pub open spec fn acceptable_rect(
    sizes: MinSizesView,
    application: Option<Seq<char>>,
    rect: Rect,
) -> Rect {
    match application {
        Some(application) => Rect {
            right: at_least(rect.right, min_size::minimum_width(sizes, application)),
            bottom: at_least(rect.bottom, min_size::minimum_height(sizes, application)),
            ..rect
        },
        None => rect,
    }
}

/// Two rectangles are of the same size.
pub open spec fn same_size(a: Rect, b: Rect) -> bool {
    a.right == b.right && a.bottom == b.bottom
}

/// Two rectangles are at the same place.
pub open spec fn same_point(a: Rect, b: Rect) -> bool {
    a.left == b.left && a.top == b.top
}

/// Whether two rectangles are of the same size.
pub fn is_same_size(a: Rect, b: Rect) -> (same: bool)
    ensures
        same == same_size(a, b),
{
    a.right == b.right && a.bottom == b.bottom
}

/// Whether two rectangles are at the same place.
pub fn is_same_point(a: Rect, b: Rect) -> (same: bool)
    ensures
        same == same_point(a, b),
{
    a.left == b.left && a.top == b.top
}

/// How a placement starts. `read` is where the application says its window is, which is only
/// asked where nothing is known; and only what is known, never what was read, is good enough
/// to leave the window alone.
pub open spec fn placement_started(
    memory: WindowMemoryView,
    id: u32,
    target: Rect,
    read: Option<Rect>,
    animated: bool,
) -> (WindowMemoryView, PlacementStep) {
    let known = memory.position(id);
    let current = if known is Some {
        known
    } else {
        read
    };
    let sized = current is Some && same_size(current->0, target);
    if sized && known is Some && same_point(known->0, target) {
        (memory, PlacementStep::InPlace)
    } else {
        (
            memory.expecting(
                id,
                if sized {
                    1
                } else {
                    2
                },
            ),
            PlacementStep::Move { rect: target, resize: !sized, animated },
        )
    }
}

/// A rectangle of a size that the application will accept. An application that refuses a
/// size does so slowly and every time, so its minimum is asked for instead.
pub fn effective_rect(sizes: &MinSizes, application: Option<&str>, rect: Rect) -> (effective: Rect)
    ensures
        effective == acceptable_rect(
            sizes@,
            match application {
                Some(application) => Some(application@),
                None => None,
            },
            rect,
        ),
{
    let mut effective: Rect = rect;
    if let Some(application) = application {
        if let Some(minimum) = min_size::get(sizes, application) {
            if minimum > effective.right {
                effective.right = minimum;
            }
        }
        if let Some(minimum) = min_size::get_height(sizes, application) {
            if minimum > effective.bottom {
                effective.bottom = minimum;
            }
        }
    }
    effective
}

/// Starts to put a window somewhere: says in advance what the move will make the system
/// report, and whether there is anything to move at all.
pub fn start_placement(
    memory: &mut WindowMemory,
    animation: &AnimationSettings,
    id: u32,
    target: Rect,
    read: Option<Rect>,
) -> (step: PlacementStep)
    ensures
        (final(memory)@, step) == placement_started(
            old(memory)@,
            id,
            target,
            read,
            settings::animation_value(animation.enabled, AnimationPrefix::Movement),
        ),
{
    let known = memory.known_position(id);
    let current = match known {
        Some(known) => Some(known),
        None => read,
    };
    let mut sized: bool = false;
    if let Some(current) = current {
        if is_same_size(current, target) {
            sized = true;
            if known.is_some() && is_same_point(current, target) {
                return PlacementStep::InPlace;
            }
        }
    }
    let animated: bool = animation.enabled.value(AnimationPrefix::Movement);
    window::expect_self_move_echoes(
        memory,
        id,
        if sized {
            1
        } else {
            2
        },
    );
    PlacementStep::Move { rect: target, resize: !sized, animated }
}

/// It is worth asking where the window ended up.
pub open spec fn worth_reading_back(
    accepted: Map<Seq<char>, MinSize>,
    application: Option<Seq<char>>,
    target: Rect,
) -> bool {
    match application {
        Some(application) => min_size::is_worth_verifying(
            accepted,
            application,
            target.right,
            target.bottom,
        ),
        None => true,
    }
}

/// Whether it is worth asking where the window ended up.
pub fn is_worth_reading_back(
    accepted: &AcceptedSizes,
    application: Option<&str>,
    target: Rect,
) -> (worth: bool)
    ensures
        worth == worth_reading_back(
            accepted@,
            match application {
                Some(application) => Some(application@),
                None => None,
            },
            target,
        ),
{
    match application {
        Some(application) => min_size::worth_verifying(
            accepted,
            application,
            target.right,
            target.bottom,
        ),
        None => true,
    }
}

/// What a refusal says about one dimension: nothing, unless the window stayed larger.
pub open spec fn refused(actual: i32, wanted: i32) -> i32 {
    if actual > wanted {
        actual
    } else {
        0
    }
}

/// Everything a placement changes.
#[verifier::ext_equal]
pub struct PlacementRecord {
    pub memory: WindowMemoryView,
    pub sizes: MinSizesView,
    pub accepted: Map<Seq<char>, MinSize>,
}

/// How a placement ends. A window that was asked where it ended up is remembered there, and
/// teaches what its application accepts or refuses; one that was not asked is taken to be
/// where it was put.
pub open spec fn placement_finished(
    record: PlacementRecord,
    id: u32,
    application: Option<Seq<char>>,
    target: Rect,
    succeeded: bool,
    read_back: Option<Rect>,
) -> PlacementRecord {
    if !succeeded {
        record
    } else if worth_reading_back(record.accepted, application, target) && read_back is Some {
        let actual = read_back->0;
        let seen = PlacementRecord { memory: record.memory.confirmed(id, actual), ..record };
        match application {
            Some(name) => if same_size(actual, target) {
                PlacementRecord {
                    accepted: record.accepted.insert(
                        name,
                        min_size::shrunk_size(record.accepted, name, actual.right, actual.bottom),
                    ),
                    ..seen
                }
            } else {
                let width = refused(actual.right, target.right);
                let height = refused(actual.bottom, target.bottom);
                PlacementRecord {
                    accepted: record.accepted.remove(name),
                    sizes: if width > 0 || height > 0 {
                        min_size::recorded(record.sizes, name, width, height)
                    } else {
                        record.sizes
                    },
                    ..seen
                }
            },
            None => seen,
        }
    } else {
        PlacementRecord { memory: record.memory.confirmed(id, target), ..record }
    }
}

/// Learns what an application accepts or refuses from where one of its windows ended up, and
/// says whether that is to be written out.
fn learn_from_frame(
    sizes: &mut MinSizes,
    accepted: &mut AcceptedSizes,
    name: &str,
    target: Rect,
    actual: Rect,
) -> (learned: bool)
    ensures
        final(accepted)@ == if same_size(actual, target) {
            old(accepted)@.insert(
                name@,
                min_size::shrunk_size(old(accepted)@, name@, actual.right, actual.bottom),
            )
        } else {
            old(accepted)@.remove(name@)
        },
        final(sizes)@ == if !same_size(actual, target) && (refused(actual.right, target.right) > 0
            || refused(actual.bottom, target.bottom) > 0) {
            min_size::recorded(
                old(sizes)@,
                name@,
                refused(actual.right, target.right),
                refused(actual.bottom, target.bottom),
            )
        } else {
            old(sizes)@
        },
        learned == (final(sizes)@ != old(sizes)@),
{
    if is_same_size(actual, target) {
        min_size::note_accepted(accepted, name, actual.right, actual.bottom);
        return false;
    }
    min_size::forget_accepted(accepted, name);
    let width: i32 = if actual.right > target.right {
        actual.right
    } else {
        0
    };
    let height: i32 = if actual.bottom > target.bottom {
        actual.bottom
    } else {
        0
    };
    if width > 0 || height > 0 {
        min_size::record(sizes, name, width, height)
    } else {
        false
    }
}

/// Finishes a placement, and says whether a minimum size was learned that is to be written
/// out. `read_back` is where the application says its window ended up, if it was asked.
pub fn finish_placement(
    memory: &mut WindowMemory,
    sizes: &mut MinSizes,
    accepted: &mut AcceptedSizes,
    id: u32,
    application: Option<&str>,
    target: Rect,
    succeeded: bool,
    read_back: Option<Rect>,
) -> (learned: bool)
    ensures
        (PlacementRecord {
            memory: final(memory)@,
            sizes: final(sizes)@,
            accepted: final(accepted)@,
        }) == placement_finished(
            (PlacementRecord {
                memory: old(memory)@,
                sizes: old(sizes)@,
                accepted: old(accepted)@,
            }),
            id,
            match application {
                Some(application) => Some(application@),
                None => None,
            },
            target,
            succeeded,
            read_back,
        ),
        learned == (final(sizes)@ != old(sizes)@),
{
    if !succeeded {
        return false;
    }
    let worth: bool = is_worth_reading_back(&*accepted, application, target);
    let seen = if worth {
        read_back
    } else {
        None
    };
    match seen {
        Some(actual) => {
            memory.confirm_position(id, actual);
            match application {
                Some(name) => learn_from_frame(sizes, accepted, name, target, actual),
                None => false,
            }
        },
        None => {
            memory.confirm_position(id, target);
            false
        },
    }
}

/// A window that was put somewhere and stayed is left alone by the next pass, unless it has
/// moved in between.
pub proof fn law_a_placed_window_is_left_alone(
    record: PlacementRecord,
    id: u32,
    application: Option<Seq<char>>,
    target: Rect,
    read_back: Option<Rect>,
    read: Option<Rect>,
    animated: bool,
)
    requires
        read_back is Some ==> read_back->0 == target,
    ensures
        ({
            let after = placement_finished(record, id, application, target, true, read_back);
            &&& placement_started(after.memory, id, target, read, animated) == (
                after.memory,
                PlacementStep::InPlace,
            )
            &&& placement_started(
                after.memory.without_position(id),
                id,
                target,
                read,
                animated,
            ).1 != PlacementStep::InPlace
        }),
{
}

/// A frame that an application reports is not evidence that its window is on the screen:
/// unless the window was put where it is, it is always told to move, even to where it says
/// it is.
pub proof fn law_a_reported_frame_is_not_trusted(
    memory: WindowMemoryView,
    id: u32,
    target: Rect,
    read: Option<Rect>,
    animated: bool,
)
    requires
        memory.position(id) is None,
    ensures
        placement_started(memory, id, target, read, animated).1 == (PlacementStep::Move {
            rect: target,
            resize: !(read is Some && same_size(read->0, target)),
            animated,
        }),
{
}

/// What an application refused once is not asked of it again: the next time, the size it
/// insisted on is asked for, unless it was opted out.
pub proof fn law_a_refusal_is_respected_next_time(
    record: PlacementRecord,
    id: u32,
    name: Seq<char>,
    target: Rect,
    actual: Rect,
    next: Rect,
)
    requires
        worth_reading_back(record.accepted, Some(name), target),
    ensures
        ({
            let after = placement_finished(record, id, Some(name), target, true, Some(actual));
            &&& actual.right > target.right && actual.right > 0 && !min_size::opted_out_of_width(
                record.sizes,
                name,
            )
                ==> acceptable_rect(after.sizes, Some(name), next).right >= actual.right
            &&& actual.bottom > target.bottom && actual.bottom > 0 && !min_size::opted_out_of_height(
                record.sizes,
                name,
            )
                ==> acceptable_rect(after.sizes, Some(name), next).bottom >= actual.bottom
        }),
{
}

/// How hiding a window starts.
#[derive(Clone, Copy, Debug, PartialEq, Eq, Structural)]
pub struct HideStep {
    pub frame: Rect,
    pub resize: bool,
}

/// The memory after a place to go back to was noted, unless one was already.
pub open spec fn with_restore_point(
    memory: WindowMemoryView,
    id: u32,
    rect: Rect,
) -> WindowMemoryView {
    if memory.restore_positions.contains_key(id) {
        memory
    } else {
        WindowMemoryView {
            restore_positions: memory.restore_positions.insert(id, rect),
            ..memory
        }
    }
}

/// How hiding a window that is at `rect`, on a display of `display`, starts. A window that
/// is already parked there is left alone, and one that is on no display cannot be parked.
pub open spec fn hiding_started(
    memory: WindowMemoryView,
    id: u32,
    position: WindowHidingPosition,
    rect: Rect,
    display: Option<Rect>,
) -> (WindowMemoryView, Option<HideStep>) {
    let noted = with_restore_point(memory, id, rect);
    match display {
        Some(display) => {
            let frame = geometry::parked(position, display, rect);
            if noted.position(id) == Some(frame) {
                (noted, None)
            } else {
                let resize = !same_size(frame, rect);
                (
                    noted.expecting(
                        id,
                        if resize {
                            2
                        } else {
                            1
                        },
                    ),
                    Some(HideStep { frame, resize }),
                )
            }
        },
        None => (noted, None),
    }
}

/// Starts to hide a window. Once it has been parked, it is confirmed to be there.
pub fn start_hiding(
    memory: &mut WindowMemory,
    id: u32,
    position: WindowHidingPosition,
    rect: Rect,
    display: Option<Rect>,
) -> (step: Option<HideStep>)
    ensures
        (final(memory)@, step) == hiding_started(old(memory)@, id, position, rect, display),
{
    memory.note_restore_point(id, rect);
    match display {
        Some(display) => {
            let frame = geometry::hidden_frame(position, display, rect);
            if let Some(known) = memory.known_position(id) {
                if known == frame {
                    return None;
                }
            }
            let resize: bool = !is_same_size(frame, rect);
            window::expect_self_move_echoes(
                memory,
                id,
                if resize {
                    2
                } else {
                    1
                },
            );
            Some(HideStep { frame, resize })
        },
        None => None,
    }
}

/// How hiding a window that is not managed starts: only where it was not hidden before and
/// is on a display.
pub open spec fn unmanaged_hiding_started(
    memory: WindowMemoryView,
    id: u32,
    position: WindowHidingPosition,
    rect: Rect,
    display: Option<Rect>,
) -> (WindowMemoryView, Option<Rect>) {
    if memory.restore_positions.contains_key(id) {
        (memory, None)
    } else {
        match display {
            Some(display) => (
                with_restore_point(memory, id, rect),
                Some(geometry::parked(position, display, rect)),
            ),
            None => (memory, None),
        }
    }
}

/// Starts to hide a window that is not managed.
pub fn start_hiding_unmanaged(
    memory: &mut WindowMemory,
    id: u32,
    position: WindowHidingPosition,
    rect: Rect,
    display: Option<Rect>,
) -> (frame: Option<Rect>)
    ensures
        (final(memory)@, frame) == unmanaged_hiding_started(
            old(memory)@,
            id,
            position,
            rect,
            display,
        ),
{
    if memory.restore_point(id).is_some() {
        return None;
    }
    match display {
        Some(display) => {
            memory.note_restore_point(id, rect);
            Some(geometry::hidden_frame(position, display, rect))
        },
        None => None,
    }
}

/// Hiding never resizes a window, and a window that is parked already is not parked again
/// wherever it is asked for, so long as it has not moved.
pub proof fn law_a_parked_window_is_left_alone(
    memory: WindowMemoryView,
    id: u32,
    position: WindowHidingPosition,
    rect: Rect,
    display: Rect,
)
    ensures
        ({
            let frame = geometry::parked(position, display, rect);
            let (started, step) = hiding_started(memory, id, position, rect, Some(display));
            let parked = started.confirmed(id, frame);
            &&& step matches Some(step) ==> step.frame == frame && !step.resize
            &&& hiding_started(parked, id, position, frame, Some(display)) == (
                parked,
                None::<HideStep>,
            )
        }),
{
}

/// Hiding a window that is hidden already does not change where it goes back to.
pub proof fn law_the_first_restore_point_stays(
    memory: WindowMemoryView,
    id: u32,
    position: WindowHidingPosition,
    rect: Rect,
    display: Option<Rect>,
)
    requires
        memory.restore_positions.contains_key(id),
    ensures
        hiding_started(memory, id, position, rect, display).0.restore_positions
            == memory.restore_positions,
{
}

/// How restoring a window goes: which halves of its frame have to be set.
#[derive(Clone, Copy, Debug, PartialEq, Eq, Structural)]
pub struct RestoreStep {
    pub rect: Rect,
    pub move_point: bool,
    pub resize: bool,
}

/// How restoring a window goes that reports to be at `current`. A window that was not hidden
/// has nowhere to go back to.
pub open spec fn restoring_started(
    memory: WindowMemoryView,
    id: u32,
    current: Option<Rect>,
) -> Option<RestoreStep> {
    if memory.restore_positions.contains_key(id) {
        let rect = memory.restore_positions[id];
        Some(
            RestoreStep {
                rect,
                move_point: current is None || !same_point(current->0, rect),
                resize: current is None || !same_size(current->0, rect),
            },
        )
    } else {
        None
    }
}

/// Starts to restore a window.
pub fn start_restoring(memory: &WindowMemory, id: u32, current: Option<Rect>) -> (step: Option<
    RestoreStep,
>)
    ensures
        step == restoring_started(memory@, id, current),
{
    match memory.restore_point(id) {
        Some(rect) => {
            let (move_point, resize): (bool, bool) = match current {
                Some(current) => (!is_same_point(current, rect), !is_same_size(current, rect)),
                None => (true, true),
            };
            Some(RestoreStep { rect, move_point, resize })
        },
        None => None,
    }
}

/// A hidden window is restored to where it was when it was first hidden; and once that is
/// done there is nothing left to restore.
pub proof fn law_restoring_undoes_hiding(
    memory: WindowMemoryView,
    id: u32,
    position: WindowHidingPosition,
    rect: Rect,
    display: Option<Rect>,
    current: Option<Rect>,
)
    requires
        !memory.restore_positions.contains_key(id),
    ensures
        ({
            let hidden = hiding_started(memory, id, position, rect, display).0;
            &&& restoring_started(hidden, id, current) is Some
            &&& restoring_started(hidden, id, current)->0.rect == rect
            &&& restoring_started(without_restore_point(hidden, id), id, current) is None
        }),
{
}

/// The memory once a window is back where it goes.
pub open spec fn without_restore_point(memory: WindowMemoryView, id: u32) -> WindowMemoryView {
    WindowMemoryView { restore_positions: memory.restore_positions.remove(id), ..memory }
}

/// Which element of an application takes the focus.
#[derive(Clone, Copy, Debug, PartialEq, Eq, Structural)]
pub enum FocusElement {
    /// The element of the window itself.
    Stored,
    /// The main window of the application, which for a tabbed application is the tab that
    /// is showing.
    MainWindow,
}

/// Which element takes the focus: the main window only for a tabbed application whose own
/// element has gone and that has a main window.
pub open spec fn focus_element(tabbed: bool, valid: bool, has_main_window: bool) -> FocusElement {
    if tabbed && !valid && has_main_window {
        FocusElement::MainWindow
    } else {
        FocusElement::Stored
    }
}

/// Which element takes the focus.
pub fn element_to_focus(tabbed: bool, valid: bool, has_main_window: bool) -> (element: FocusElement)
    ensures
        element == focus_element(tabbed, valid, has_main_window),
{
    if tabbed && !valid && has_main_window {
        FocusElement::MainWindow
    } else {
        FocusElement::Stored
    }
}

/// An application keeps several windows in one, as tabs.
pub open spec fn is_tabbed(tabbed: Seq<Seq<char>>, application: Option<Seq<char>>) -> bool {
    tabbed.contains(
        match application {
            Some(application) => application,
            None => Seq::empty(),
        },
    )
}

/// Whether an application keeps several windows in one, as tabs.
pub fn keeps_tabs(tabbed: &Vec<String>, application: &Option<String>) -> (keeps: bool)
    ensures
        keeps == is_tabbed(tabbed.deep_view(), application.deep_view()),
{
    match application {
        Some(application) => text::list_contains(tabbed, application.as_str()),
        None => {
            proof {
                reveal_strlit("");
                assert(""@ =~= Seq::<char>::empty());
            }
            text::list_contains(tabbed, "")
        },
    }
}

/// Where the cursor goes when it follows the focus, without asking: only where the element
/// that takes the focus is the window's own.
pub fn known_cursor_target(memory: &WindowMemory, id: u32, tabbed: bool) -> (rect: Option<Rect>)
    ensures
        rect == if tabbed {
            None
        } else {
            memory@.position(id)
        },
{
    if tabbed {
        None
    } else {
        memory.known_position(id)
    }
}

/// The middle of a rectangle.
pub open spec fn middle(rect: Rect) -> (int, int) {
    (
        rect.left + geometry::quotient(rect.right as int, 2),
        rect.top + geometry::quotient(rect.bottom as int, 2),
    )
}

/// The aspect ratio that floating windows are given.
#[derive(Clone, Copy, Debug, PartialEq, Eq, Structural)]
pub enum AspectRatio {
    /// A predefined aspect ratio.
    Predefined(PredefinedAspectRatio),
    /// A custom W:H aspect ratio.
    Custom(i32, i32),
}

/// A predefined aspect ratio.
#[derive(Clone, Copy, Debug, PartialEq, Eq, Structural)]
pub enum PredefinedAspectRatio {
    /// 21:9
    Ultrawide,
    /// 16:9
    Widescreen,
    /// 4:3
    Standard,
}

impl Default for PredefinedAspectRatio {
    fn default() -> (ratio: Self)
        ensures
            ratio == PredefinedAspectRatio::Standard,
    {
        PredefinedAspectRatio::Standard
    }
}

impl Default for AspectRatio {
    fn default() -> (ratio: Self)
        ensures
            ratio == AspectRatio::Predefined(PredefinedAspectRatio::Standard),
    {
        AspectRatio::Predefined(PredefinedAspectRatio::default())
    }
}

/// The two numbers of an aspect ratio.
pub open spec fn ratio_of(ratio: AspectRatio) -> (i32, i32) {
    match ratio {
        AspectRatio::Predefined(PredefinedAspectRatio::Ultrawide) => (21, 9),
        AspectRatio::Predefined(PredefinedAspectRatio::Widescreen) => (16, 9),
        AspectRatio::Predefined(PredefinedAspectRatio::Standard) => (4, 3),
        AspectRatio::Custom(width, height) => (width, height),
    }
}

impl AspectRatio {
    /// The two numbers of the ratio.
    pub fn width_and_height(self) -> (ratio: (i32, i32))
        ensures
            ratio == ratio_of(self),
    {
        match self {
            AspectRatio::Predefined(predefined) => match predefined {
                PredefinedAspectRatio::Ultrawide => (21, 9),
                PredefinedAspectRatio::Widescreen => (16, 9),
                PredefinedAspectRatio::Standard => (4, 3),
            },
            AspectRatio::Custom(width, height) => (width, height),
        }
    }
}

/// The width and the height that a floating window is given in a work area: half as tall as
/// the area, and as wide as the ratio makes that.
pub open spec fn floating_size(work_area: Rect, ratio: AspectRatio) -> (int, int) {
    let height = geometry::quotient(work_area.bottom as int, 2);
    let (w, h) = ratio_of(ratio);
    (geometry::quotient(height * w, h as int), height)
}

/// The place of a window of some size in the middle of a work area.
pub open spec fn centred(work_area: Rect, width: int, height: int) -> (int, int) {
    (
        work_area.left + geometry::quotient(work_area.right - width, 2),
        work_area.top + geometry::quotient(work_area.bottom - height, 2),
    )
}

/// A number that a screen coordinate can hold.
pub open spec fn fits(n: int) -> bool {
    i32::MIN <= n <= i32::MAX
}

/// Halves a number, rounding towards zero.
fn half(n: i32) -> (halved: i32)
    ensures
        halved == geometry::quotient(n as int, 2),
{
    if n >= 0 {
        n / 2
    } else if n == i32::MIN {
        -1_073_741_824
    } else {
        -((-n) / 2)
    }
}

/// The size that a floating window is given in a work area.
pub fn target_size(work_area: &Rect, ratio: AspectRatio) -> (size: (i32, i32))
    requires
        ratio_of(ratio).1 != 0,
        fits(geometry::quotient(work_area.bottom as int, 2) * ratio_of(ratio).0),
        fits(floating_size(*work_area, ratio).0),
    ensures
        (size.0 as int, size.1 as int) == floating_size(*work_area, ratio),
{
    let (w, h): (i32, i32) = ratio.width_and_height();
    let height: i32 = half(work_area.bottom);
    let scaled: i32 = height * w;
    (divide(scaled, h), height)
}

/// Divides, rounding towards zero.
fn divide(a: i32, b: i32) -> (q: i32)
    requires
        b != 0,
        fits(geometry::quotient(a as int, b as int)),
    ensures
        q == geometry::quotient(a as int, b as int),
{
    let (x, y): (i64, i64) = (a as i64, b as i64);
    let magnitude: i64 = (if x >= 0 {
        x
    } else {
        -x
    }) / (if y >= 0 {
        y
    } else {
        -y
    });
    proof {
        let n: int = if a >= 0 {
            a as int
        } else {
            -(a as int)
        };
        let d: int = if b >= 0 {
            b as int
        } else {
            -(b as int)
        };
        assert(0 <= n / d <= n) by (nonlinear_arith)
            requires
                n >= 0,
                d >= 1,
        ;
    }
    if (a >= 0) == (b >= 0) {
        magnitude as i32
    } else {
        (-magnitude) as i32
    }
}

/// Where a window of some size goes to be in the middle of a work area.
pub fn center(work_area: &Rect, width: i32, height: i32) -> (rect: Rect)
    requires
        fits(work_area.right - width),
        fits(work_area.bottom - height),
        fits(centred(*work_area, width as int, height as int).0),
        fits(centred(*work_area, width as int, height as int).1),
    ensures
        (rect.left as int, rect.top as int) == centred(*work_area, width as int, height as int),
        rect.right == width,
        rect.bottom == height,
{
    Rect {
        left: work_area.left + half(work_area.right - width),
        top: work_area.top + half(work_area.bottom - height),
        right: width,
        bottom: height,
    }
}

/// A window that is put in the middle of a work area at least as large as itself stays inside
/// it, and the room left on the two sides differs by no more than one point.
pub proof fn law_centred_windows_stay_inside(work_area: Rect, width: int, height: int)
    requires
        0 <= width <= work_area.right,
        0 <= height <= work_area.bottom,
    ensures
        ({
            let (left, top) = centred(work_area, width, height);
            let right_gap = (work_area.left + work_area.right) - (left + width);
            let bottom_gap = (work_area.top + work_area.bottom) - (top + height);
            &&& left >= work_area.left
            &&& top >= work_area.top
            &&& 0 <= right_gap - (left - work_area.left) <= 1
            &&& 0 <= bottom_gap - (top - work_area.top) <= 1
        }),
{
}

/// Where a window goes when it moves to another area, given its place and size scaled to that
/// area: as far into the new area as it was into the old one.
pub fn moved_to_area(
    current_area: &Rect,
    target_area: &Rect,
    scaled_relative: (i32, i32),
    scaled_size: (i32, i32),
) -> (rect: Rect)
    requires
        fits(target_area.left - current_area.left),
        fits(target_area.top - current_area.top),
        fits(current_area.left + scaled_relative.0),
        fits(current_area.top + scaled_relative.1),
        fits(target_area.left + scaled_relative.0),
        fits(target_area.top + scaled_relative.1),
    ensures
        rect.left == target_area.left + scaled_relative.0,
        rect.top == target_area.top + scaled_relative.1,
        rect.right == scaled_size.0,
        rect.bottom == scaled_size.1,
{
    let x_diff: i32 = target_area.left - current_area.left;
    let y_diff: i32 = target_area.top - current_area.top;
    let window_x: i32 = current_area.left + scaled_relative.0;
    let window_y: i32 = current_area.top + scaled_relative.1;
    Rect {
        left: x_diff + window_x,
        top: y_diff + window_y,
        right: scaled_size.0,
        bottom: scaled_size.1,
    }
}

/// How the move of a window is animated: not at all, where it is there already.
pub fn movement_animation(
    animation: &AnimationSettings,
    current: Rect,
    target: Rect,
) -> (run: Option<(AnimationStyle, u64)>)
    ensures
        run == if current == target {
            None
        } else {
            Some(
                (
                    settings::animation_value(animation.style, AnimationPrefix::Movement),
                    settings::animation_value(animation.duration, AnimationPrefix::Movement),
                ),
            )
        },
{
    if current == target {
        None
    } else {
        Some(
            (
                animation.style.value(AnimationPrefix::Movement),
                animation.duration.value(AnimationPrefix::Movement),
            ),
        )
    }
}

} // verus!
