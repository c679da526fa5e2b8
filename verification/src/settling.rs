//! Where windows are put, hidden and brought back.

use crate::geometry::Rect;
use crate::geometry::WindowHidingPosition;
use crate::geometry;
use crate::min_size::MinSize;
use crate::min_size::MinSizesView;
use crate::min_size;
use crate::placement::AspectRatio;
use crate::placement::FocusElement;
use crate::placement::HideStep;
use crate::placement::PlacementRecord;
use crate::placement::PlacementStep;
use crate::placement::PredefinedAspectRatio;
use crate::placement;
use crate::window::WindowMemoryView;
use vstd::prelude::*;

verus! {

/// A number is the coordinate that is nearest to another.
pub open spec fn is_nearest(coordinate: i32, n: int) -> bool {
    if i32::MIN <= n <= i32::MAX {
        coordinate == n
    } else if n > i32::MAX {
        coordinate == i32::MAX
    } else {
        coordinate == i32::MIN
    }
}

/// A parked window keeps its size. Its lower edge is level with that of the screen, unless it is
/// taller, and then it starts at the top; a sliver of it is left on the screen, on the side that it
/// is parked at.
pub proof fn law_a_parked_window_is_level_with_the_screen(
    position: WindowHidingPosition,
    screen: Rect,
    window: Rect,
)
    ensures
        ({
            let frame = geometry::parked(position, screen, window);
            &&& frame.right == window.right
            &&& frame.bottom == window.bottom
            &&& window.bottom <= screen.bottom ==> is_nearest(
                frame.top,
                screen.top + screen.bottom - window.bottom,
            )
            &&& window.bottom > screen.bottom ==> frame.top == screen.top
            &&& position == WindowHidingPosition::BottomLeft ==> is_nearest(
                frame.left,
                screen.left + geometry::VISIBLE_SLIVER - window.right,
            )
            &&& position == WindowHidingPosition::BottomRight ==> is_nearest(
                frame.left,
                screen.left + screen.right - geometry::VISIBLE_SLIVER,
            )
        }),
{
}

/// Division as the screen arithmetic does it rounds towards zero: what is left over is smaller than
/// the divisor and on the side of what was divided.
pub proof fn law_division_rounds_towards_zero(a: int, b: int)
    requires
        b != 0,
    ensures
        ({
            let q = geometry::quotient(a, b);
            let left_over = a - q * b;
            &&& a >= 0 ==> 0 <= left_over
            &&& a <= 0 ==> left_over <= 0
            &&& -left_over < b || -left_over < -b
            &&& left_over < b || left_over < -b
        }),
{
    let q = geometry::quotient(a, b);
    let x = if a >= 0 {
        a
    } else {
        -a
    };
    let y = if b >= 0 {
        b
    } else {
        -b
    };
    vstd::arithmetic::div_mod::lemma_fundamental_div_mod(x, y);
    vstd::arithmetic::div_mod::lemma_mod_bound(x, y);
    let d = x / y;
    assert(x == y * d + x % y);
    assert(q == d || q == -d);
    assert(q * b == if a >= 0 {
        d * y
    } else {
        -(d * y)
    }) by (nonlinear_arith)
        requires
            y == if b >= 0 {
                b
            } else {
                -b
            },
            q == if (a >= 0) == (b >= 0) {
                d
            } else {
                -d
            },
    ;
    assert(d * y == y * d) by (nonlinear_arith);
}

/// One coordinate lies in the middle between two, as near as numbers go.
pub open spec fn is_halfway(middle: int, start: int, length: int) -> bool {
    -1 <= 2 * (middle - start) - length <= 1
}

/// The middle of a rectangle is halfway between its edges.
pub proof fn law_the_middle_is_halfway(rect: Rect)
    ensures
        ({
            let (x, y) = placement::middle(rect);
            &&& is_halfway(x, rect.left as int, rect.right as int)
            &&& is_halfway(y, rect.top as int, rect.bottom as int)
        }),
{
}

/// A floating window is half as tall as its work area, and as wide as the aspect ratio makes that.
pub proof fn law_floating_windows_have_their_ratio(work_area: Rect, ratio: AspectRatio)
    ensures
        ({
            let (w, h) = placement::ratio_of(ratio);
            let (width, height) = placement::floating_size(work_area, ratio);
            &&& is_halfway(height, 0, work_area.bottom as int)
            &&& ratio == AspectRatio::Predefined(PredefinedAspectRatio::Ultrawide) ==> 9 * width
                <= 21 * height + 8 && 21 * height - 8 <= 9 * width
            &&& ratio == AspectRatio::Predefined(PredefinedAspectRatio::Widescreen) ==> 9 * width
                <= 16 * height + 8 && 16 * height - 8 <= 9 * width
            &&& ratio == AspectRatio::Predefined(PredefinedAspectRatio::Standard) ==> 3 * width
                <= 4 * height + 2 && 4 * height - 2 <= 3 * width
            &&& ratio matches AspectRatio::Custom(a, b) ==> (w, h) == (a, b)
        }),
{
}

/// A custom aspect ratio makes windows as wide as it says: the width times the second number is the
/// height times the first, but for what is lost by rounding.
pub proof fn law_custom_ratios_are_kept(work_area: Rect, w: i32, h: i32)
    requires
        h > 0,
    ensures
        ({
            let (width, height) = placement::floating_size(work_area, AspectRatio::Custom(w, h));
            &&& height * w - width * h < h
            &&& width * h - height * w < h
        }),
{
    let (width, height) = placement::floating_size(work_area, AspectRatio::Custom(w, h));
    law_division_rounds_towards_zero(height * w, h as int);
}

/// A rectangle that is asked of an application is at least as large as the smallest that the
/// application is known to accept, no larger than that or than what was wanted, and at the same
/// place.
pub proof fn law_windows_are_asked_for_acceptable_sizes(
    sizes: MinSizesView,
    application: Option<Seq<char>>,
    rect: Rect,
)
    ensures
        ({
            let asked = placement::acceptable_rect(sizes, application, rect);
            &&& asked.left == rect.left
            &&& asked.top == rect.top
            &&& asked.right >= rect.right
            &&& asked.bottom >= rect.bottom
            &&& application is None ==> asked == rect
            &&& application matches Some(name) ==> if sizes.known.contains_key(name) {
                let least = sizes.known[name];
                &&& least.width != 0 ==> asked.right >= least.width
                &&& least.height != 0 ==> asked.bottom >= least.height
                &&& asked.right == rect.right || asked.right == least.width
                &&& asked.bottom == rect.bottom || asked.bottom == least.height
                &&& least.width == 0 ==> asked.right == rect.right
                &&& least.height == 0 ==> asked.bottom == rect.bottom
            } else {
                asked == rect
            }
        }),
{
}

/// A window that is known to be where it is to go is left alone. Any other is moved there, and
/// resized unless what is known of it, or else what was read, is already of that size; as many
/// reports are expected as there are changes.
pub proof fn law_windows_are_moved_unless_in_place(
    memory: WindowMemoryView,
    id: u32,
    target: Rect,
    read: Option<Rect>,
    animated: bool,
)
    ensures
        ({
            let (after, step) = placement::placement_started(memory, id, target, read, animated);
            let is_known = memory.confirmed_positions.contains_key(id);
            let known = memory.confirmed_positions[id];
            let seen = if is_known {
                Some(known)
            } else {
                read
            };
            if is_known && known == target {
                after == memory && step is InPlace
            } else {
                let is_sized = seen is Some && seen->0.right == target.right && seen->0.bottom
                    == target.bottom;
                &&& step == PlacementStep::Move { rect: target, resize: !is_sized, animated }
                &&& after == (WindowMemoryView {
                    self_move_echoes: after.self_move_echoes,
                    ..memory
                })
                &&& after.self_move_echoes =~= memory.self_move_echoes.insert(
                    id,
                    if is_sized {
                        1
                    } else {
                        2
                    },
                )
            }
        }),
{
}

/// Once a window has been put somewhere, it is known to be where it was read to be, or where it was
/// put if it was not read; where that failed nothing is learned. No other window is concerned.
pub proof fn law_a_window_is_remembered_where_it_ended_up(
    record: PlacementRecord,
    id: u32,
    application: Option<Seq<char>>,
    target: Rect,
    succeeded: bool,
    read_back: Option<Rect>,
    other: u32,
)
    ensures
        ({
            let after = placement::placement_finished(
                record,
                id,
                application,
                target,
                succeeded,
                read_back,
            );
            let is_news = application is None || !record.accepted.contains_key(application->0)
                || target.right < record.accepted[application->0].width || target.bottom
                < record.accepted[application->0].height;
            &&& !succeeded ==> after == record
            &&& succeeded ==> after.memory.position(id) == Some(
                if is_news && read_back is Some {
                    read_back->0
                } else {
                    target
                },
            )
            &&& other != id ==> after.memory.position(other) == record.memory.position(other)
            &&& after.memory.self_move_echoes == record.memory.self_move_echoes
            &&& after.memory.restore_positions == record.memory.restore_positions
            &&& !is_news || read_back is None || application is None ==> after.accepted
                == record.accepted && after.sizes == record.sizes
        }),
{
}

/// What an application took when it was asked is noted as the smallest that it takes, in each
/// dimension; where it did not take it, nothing is taken for granted any more, and every dimension
/// that stayed larger than was wanted is noted as the least that it accepts.
pub proof fn law_applications_teach_what_they_take(
    record: PlacementRecord,
    id: u32,
    name: Seq<char>,
    target: Rect,
    actual: Rect,
    other: Seq<char>,
)
    requires
        !record.accepted.contains_key(name) || target.right < record.accepted[name].width
            || target.bottom < record.accepted[name].height,
    ensures
        ({
            let after = placement::placement_finished(
                record,
                id,
                Some(name),
                target,
                true,
                Some(actual),
            );
            let took = actual.right == target.right && actual.bottom == target.bottom;
            let least = after.accepted[name];
            &&& took ==> {
                &&& after.sizes == record.sizes
                &&& after.accepted.contains_key(name)
                &&& least.width <= actual.right
                &&& least.height <= actual.bottom
                &&& !record.accepted.contains_key(name) ==> least == MinSize {
                    width: actual.right,
                    height: actual.bottom,
                }
                &&& record.accepted.contains_key(name) ==> {
                    let before = record.accepted[name];
                    &&& least.width <= before.width
                    &&& least.height <= before.height
                    &&& least.width == actual.right || least.width == before.width
                    &&& least.height == actual.bottom || least.height == before.height
                }
            }
            &&& !took ==> !after.accepted.contains_key(name)
            &&& !took && actual.right <= target.right && actual.bottom <= target.bottom
                ==> after.sizes == record.sizes
            &&& !took && (actual.right > target.right && actual.right > 0 || actual.bottom
                > target.bottom && actual.bottom > 0) ==> after.sizes == min_size::recorded(
                record.sizes,
                name,
                if actual.right > target.right {
                    actual.right
                } else {
                    0
                },
                if actual.bottom > target.bottom {
                    actual.bottom
                } else {
                    0
                },
            )
            &&& other != name ==> after.accepted.contains_key(other)
                == record.accepted.contains_key(other) && after.accepted[other]
                == record.accepted[other]
        }),
{
}

/// A dimension of what is known of an application, or nothing.
pub open spec fn known_size(sizes: MinSizesView, name: Seq<char>) -> MinSize {
    if sizes.known.contains_key(name) {
        sizes.known[name]
    } else {
        MinSize { width: 0, height: 0 }
    }
}

/// A dimension that an application refused is the least it accepts from then on, if it is larger
/// than what is known and the application was not opted out of that dimension; nothing shrinks.
pub proof fn law_refused_sizes_are_recorded(
    sizes: MinSizesView,
    name: Seq<char>,
    width: i32,
    height: i32,
)
    ensures
        ({
            let after = min_size::recorded(sizes, name, width, height);
            let before = known_size(sizes, name);
            let now = known_size(after, name);
            let is_width_out = sizes.known.contains_key(name) && before.width == 0 && !(
            sizes.unreported.contains_key(name) && sizes.unreported[name].width);
            let is_height_out = sizes.known.contains_key(name) && before.height == 0 && !(
            sizes.unreported.contains_key(name) && sizes.unreported[name].height);
            &&& now.width == if width > before.width && width != 0 && !is_width_out {
                width
            } else {
                before.width
            }
            &&& now.height == if height > before.height && height != 0 && !is_height_out {
                height
            } else {
                before.height
            }
        }),
{
}

/// A window that is hidden is noted where it was, if nothing was noted before. It is moved to where
/// it is parked, unless it is known to be there or is on no display, and resized only if that is
/// another size; as many reports are expected as there are changes.
pub proof fn law_a_hidden_window_can_be_brought_back(
    memory: WindowMemoryView,
    id: u32,
    position: WindowHidingPosition,
    rect: Rect,
    display: Option<Rect>,
    other: u32,
)
    ensures
        ({
            let (after, step) = placement::hiding_started(memory, id, position, rect, display);
            &&& after.restore_positions.contains_key(id)
            &&& after.restore_positions[id] == if memory.restore_positions.contains_key(id) {
                memory.restore_positions[id]
            } else {
                rect
            }
            &&& other != id ==> after.restore_positions.contains_key(other)
                == memory.restore_positions.contains_key(other) && after.restore_positions[other]
                == memory.restore_positions[other]
            &&& after.confirmed_positions == memory.confirmed_positions
            &&& display is None ==> step is None
            &&& display matches Some(display) ==> {
                let frame = geometry::parked(position, display, rect);
                if memory.confirmed_positions.contains_key(id) && memory.confirmed_positions[id]
                    == frame {
                    step is None && after.self_move_echoes == memory.self_move_echoes
                } else {
                    &&& step == Some(HideStep { frame, resize: false })
                    &&& after.self_move_echoes =~= memory.self_move_echoes.insert(id, 1)
                }
            }
        }),
{
}

/// A window that is not managed is hidden once: where it was is noted, and it is parked, unless it
/// was hidden before or is on no display.
pub proof fn law_an_unmanaged_window_is_hidden_once(
    memory: WindowMemoryView,
    id: u32,
    position: WindowHidingPosition,
    rect: Rect,
    display: Option<Rect>,
)
    ensures
        ({
            let (after, frame) = placement::unmanaged_hiding_started(
                memory,
                id,
                position,
                rect,
                display,
            );
            if memory.restore_positions.contains_key(id) || display is None {
                after == memory && frame is None
            } else {
                &&& frame == Some(geometry::parked(position, display->0, rect))
                &&& after.restore_positions =~= memory.restore_positions.insert(id, rect)
                &&& after == (WindowMemoryView {
                    restore_positions: after.restore_positions,
                    ..memory
                })
            }
        }),
{
}

/// A window that was hidden goes back where it was noted to be; it is moved unless it is at that
/// place and resized unless it is of that size. One that was not hidden goes nowhere.
pub proof fn law_a_window_goes_back_where_it_was(
    memory: WindowMemoryView,
    id: u32,
    current: Option<Rect>,
)
    ensures
        ({
            let step = placement::restoring_started(memory, id, current);
            let noted = memory.restore_positions[id];
            &&& step is Some <==> memory.restore_positions.contains_key(id)
            &&& step is Some ==> {
                &&& step->0.rect == noted
                &&& step->0.move_point <==> !(current is Some && current->0.left == noted.left
                    && current->0.top == noted.top)
                &&& step->0.resize <==> !(current is Some && current->0.right == noted.right
                    && current->0.bottom == noted.bottom)
            }
        }),
{
}

/// The focus goes to the main window of a tabbed application only where the window itself has gone
/// and there is a main window.
pub proof fn law_the_window_itself_is_focused_while_it_is_there(
    tabbed: bool,
    valid: bool,
    has_main_window: bool,
)
    ensures
        placement::focus_element(tabbed, valid, has_main_window) == FocusElement::MainWindow
            <==> tabbed && !valid && has_main_window,
{
}

} // verus!
