//! Per-application minimum sizes, learned once and remembered on disk.
//!
//! Some applications refuse to shrink below a size of their own choosing. Asking for less
//! silently fails: the window keeps the size it had and ends up overlapping whatever sits
//! next to it in the layout. Width and height are refused independently.
//!
//! What is kept is the cause (this application will not go below so many points), not the
//! situations it breaks in, and it is kept by application name rather than by window,
//! because a window gets a fresh id every time the application is reopened.

use crate::names::NameMap;
use vstd::prelude::*;

verus! {

/// The smallest an application has ever been seen to accept. A zero in either dimension
/// means "leave this application alone in that dimension": an escape hatch that can be
/// edited into the file by hand when the automatic handling gets one wrong.
#[derive(Clone, Copy, Debug, PartialEq, Eq, Structural)]
pub struct MinSize {
    pub width: i32,
    pub height: i32,
}

impl Default for MinSize {
    fn default() -> (size: Self)
        ensures
            size == (MinSize { width: 0, height: 0 }),
    {
        MinSize { width: 0, height: 0 }
    }
}

/// In which dimensions an application has never been reported on. A zero there was not set on
/// purpose: it stands for nothing having been learned yet.
#[derive(Clone, Copy, Debug, PartialEq, Eq, Structural)]
pub struct Unreported {
    pub width: bool,
    pub height: bool,
}

/// The file, under the data directory, that minimum sizes are kept in.
pub const MIN_SIZES_FILE: &'static str = "komorebi.min-sizes.json";

/// The minimum sizes known, by application, and what was never reported of them.
pub struct MinSizes {
    known: NameMap<MinSize>,
    unreported: NameMap<Unreported>,
}

/// The value of [`MinSizes`].
#[verifier::ext_equal]
pub struct MinSizesView {
    pub known: Map<Seq<char>, MinSize>,
    pub unreported: Map<Seq<char>, Unreported>,
}

impl View for MinSizes {
    type V = MinSizesView;

    closed spec fn view(&self) -> MinSizesView {
        MinSizesView { known: self.known@, unreported: self.unreported@ }
    }
}

/// The sizes measured beforehand, so that even a first ever run does not have to discover
/// them by getting them wrong once.
pub open spec fn seeded_sizes() -> Map<Seq<char>, MinSize> {
    Map::<Seq<char>, MinSize>::empty().insert(
        "Música"@,
        MinSize { width: 980, height: 600 },
    ).insert("Music"@, MinSize { width: 980, height: 600 }).insert(
        "WhatsApp"@,
        MinSize { width: 970, height: 600 },
    )
}

/// The seeded sizes, under whatever was stored.
pub open spec fn loaded_sizes(stored: Option<Map<Seq<char>, MinSize>>) -> Map<Seq<char>, MinSize> {
    match stored {
        Some(stored) => seeded_sizes().union_prefer_right(stored),
        None => seeded_sizes(),
    }
}

/// The sizes to start with: the seeded ones, under whatever was stored. What was learned
/// on this machine wins over the seeded defaults, because an application update can change
/// its minimum and the observed value is the real one. Every zero that was stored is taken to
/// have been set on purpose.
pub fn load(stored: Option<NameMap<MinSize>>) -> (sizes: MinSizes)
    ensures
        sizes@ == (MinSizesView {
            known: loaded_sizes(
                match stored {
                    Some(stored) => Some(stored@),
                    None => None,
                },
            ),
            unreported: Map::empty(),
        }),
{
    load_with(stored, NameMap::new())
}

/// The sizes to start with, and what had not been reported when they were stored.
pub fn load_with(stored: Option<NameMap<MinSize>>, unreported: NameMap<Unreported>) -> (sizes:
    MinSizes)
    ensures
        sizes@ == (MinSizesView {
            known: loaded_sizes(
                match stored {
                    Some(stored) => Some(stored@),
                    None => None,
                },
            ),
            unreported: unreported@,
        }),
{
    let mut known: NameMap<MinSize> = NameMap::new();
    known.insert("Música".to_owned(), MinSize { width: 980, height: 600 });
    known.insert("Music".to_owned(), MinSize { width: 980, height: 600 });
    known.insert("WhatsApp".to_owned(), MinSize { width: 970, height: 600 });
    if let Some(stored) = stored {
        known.extend(stored);
    }
    MinSizes { known, unreported }
}

impl MinSizes {
    /// The sizes as they are written out.
    pub fn stored(&self) -> (known: &NameMap<MinSize>)
        ensures
            known@ == self@.known,
    {
        &self.known
    }

    /// What has not been reported of an application, where it matters: whether a zero in either
    /// dimension stands for nothing having been learned.
    pub fn unreported(&self, application: &str) -> (unreported: Unreported)
        ensures
            unreported.width == is_open_width(self@, application@),
            unreported.height == is_open_height(self@, application@),
    {
        if !self.known.contains_key(application) {
            return Unreported { width: true, height: true };
        }
        match self.unreported.get(application) {
            Some(unreported) => *unreported,
            None => Unreported { width: false, height: false },
        }
    }
}

/// The minimum width known for an application, if any.
pub fn get(sizes: &MinSizes, application: &str) -> (width: Option<i32>)
    ensures
        width == minimum_width(sizes@, application@),
{
    match sizes.known.get(application) {
        Some(size) => if size.width == 0 {
            None
        } else {
            Some(size.width)
        },
        None => None,
    }
}

/// The minimum height known for an application, if any.
pub fn get_height(sizes: &MinSizes, application: &str) -> (height: Option<i32>)
    ensures
        height == minimum_height(sizes@, application@),
{
    match sizes.known.get(application) {
        Some(size) => if size.height == 0 {
            None
        } else {
            Some(size.height)
        },
        None => None,
    }
}

/// The minimum width that `sizes` gives an application: none where it is zero.
pub open spec fn minimum_width(sizes: MinSizesView, application: Seq<char>) -> Option<i32> {
    if sizes.known.contains_key(application) && sizes.known[application].width != 0 {
        Some(sizes.known[application].width)
    } else {
        None
    }
}

/// The minimum height that `sizes` gives an application: none where it is zero.
pub open spec fn minimum_height(sizes: MinSizesView, application: Seq<char>) -> Option<i32> {
    if sizes.known.contains_key(application) && sizes.known[application].height != 0 {
        Some(sizes.known[application].height)
    } else {
        None
    }
}

/// What is known of an application, or zeros.
pub open spec fn size_or_zero(sizes: MinSizesView, application: Seq<char>) -> MinSize {
    if sizes.known.contains_key(application) {
        sizes.known[application]
    } else {
        MinSize { width: 0, height: 0 }
    }
}

/// A zero in the width of an application was not set on purpose.
pub open spec fn is_open_width(sizes: MinSizesView, application: Seq<char>) -> bool {
    sizes.known.contains_key(application) ==> sizes.unreported.contains_key(application)
        && sizes.unreported[application].width
}

/// A zero in the height of an application was not set on purpose.
pub open spec fn is_open_height(sizes: MinSizesView, application: Seq<char>) -> bool {
    sizes.known.contains_key(application) ==> sizes.unreported.contains_key(application)
        && sizes.unreported[application].height
}

/// An application was opted out of having its width handled.
pub open spec fn opted_out_of_width(sizes: MinSizesView, application: Seq<char>) -> bool {
    size_or_zero(sizes, application).width == 0 && !is_open_width(sizes, application)
}

/// An application was opted out of having its height handled.
pub open spec fn opted_out_of_height(sizes: MinSizesView, application: Seq<char>) -> bool {
    size_or_zero(sizes, application).height == 0 && !is_open_height(sizes, application)
}

/// One dimension after a refusal: the larger of the two, unless a zero was set on purpose or
/// the dimension is not being reported on.
pub open spec fn grown(existing: i32, refused: i32, opted_out: bool) -> i32 {
    if refused > existing && refused != 0 && !opted_out {
        refused
    } else {
        existing
    }
}

/// What is known of an application after it refused `width` by `height`.
pub open spec fn grown_size(
    sizes: MinSizesView,
    application: Seq<char>,
    width: i32,
    height: i32,
) -> MinSize {
    let existing = size_or_zero(sizes, application);
    MinSize {
        width: grown(existing.width, width, opted_out_of_width(sizes, application)),
        height: grown(existing.height, height, opted_out_of_height(sizes, application)),
    }
}

/// All the sizes after an application refused `width` by `height`.
pub open spec fn recorded(
    sizes: MinSizesView,
    application: Seq<char>,
    width: i32,
    height: i32,
) -> MinSizesView {
    let updated = grown_size(sizes, application, width, height);
    if updated == size_or_zero(sizes, application) {
        sizes
    } else {
        MinSizesView {
            known: sizes.known.insert(application, updated),
            unreported: sizes.unreported.insert(
                application,
                Unreported {
                    width: is_open_width(sizes, application) && updated.width == 0,
                    height: is_open_height(sizes, application) && updated.height == 0,
                },
            ),
        }
    }
}

/// Records a size an application refused to go below, and says whether anything was
/// learned, in which case the sizes are to be written out. Only ever grows: a window can
/// end up larger than its minimum for other reasons, so the largest refusal observed is the
/// safest estimate of where the floor actually is.
///
/// A dimension passed as zero is not being reported on and is left as it was.
pub fn record(sizes: &mut MinSizes, application: &str, width: i32, height: i32) -> (learned: bool)
    ensures
        final(sizes)@ == recorded(old(sizes)@, application@, width, height),
        learned == (final(sizes)@ != old(sizes)@),
{
    let existing: MinSize = match sizes.known.get(application) {
        Some(size) => *size,
        None => MinSize { width: 0, height: 0 },
    };
    let open = sizes.unreported(application);
    let mut updated: MinSize = existing;
    if width > existing.width && width != 0 && (existing.width != 0 || open.width) {
        updated.width = width;
    }
    if height > existing.height && height != 0 && (existing.height != 0 || open.height) {
        updated.height = height;
    }
    if updated.width == existing.width && updated.height == existing.height {
        return false;
    }
    let unreported = Unreported {
        width: open.width && updated.width == 0,
        height: open.height && updated.height == 0,
    };
    sizes.known.insert(application.to_owned(), updated);
    sizes.unreported.insert(application.to_owned(), unreported);
    assert(sizes@.known.contains_key(application@) && sizes@.known[application@] == updated);
    true
}

/// The smallest size each application has actually been seen to accept.
pub struct AcceptedSizes {
    accepted: NameMap<MinSize>,
}

impl View for AcceptedSizes {
    type V = Map<Seq<char>, MinSize>;

    closed spec fn view(&self) -> Map<Seq<char>, MinSize> {
        self.accepted@
    }
}

impl AcceptedSizes {
    /// Nothing accepted yet.
    pub fn new() -> (none: Self)
        ensures
            none@ == Map::<Seq<char>, MinSize>::empty(),
    {
        AcceptedSizes { accepted: NameMap::new() }
    }
}

/// There is still something to find out about an application at this size.
pub open spec fn is_worth_verifying(
    accepted: Map<Seq<char>, MinSize>,
    application: Seq<char>,
    width: i32,
    height: i32,
) -> bool {
    accepted.contains_key(application) ==> width < accepted[application].width || height
        < accepted[application].height
}

/// Whether asking where a window ended up would teach anything.
///
/// An application that has already accepted a size at least this small has nothing left to
/// refuse here, so the question has a known answer and does not need asking.
pub fn worth_verifying(
    accepted: &AcceptedSizes,
    application: &str,
    width: i32,
    height: i32,
) -> (worth: bool)
    ensures
        worth == is_worth_verifying(accepted@, application@, width, height),
{
    match accepted.accepted.get(application) {
        Some(smallest) => width < smallest.width || height < smallest.height,
        None => true,
    }
}

/// The smallest size an application is known to take once it has taken `width` by `height`.
pub open spec fn shrunk_size(
    accepted: Map<Seq<char>, MinSize>,
    application: Seq<char>,
    width: i32,
    height: i32,
) -> MinSize {
    if accepted.contains_key(application) {
        let smallest = accepted[application];
        MinSize {
            width: if width < smallest.width {
                width
            } else {
                smallest.width
            },
            height: if height < smallest.height {
                height
            } else {
                smallest.height
            },
        }
    } else {
        MinSize { width, height }
    }
}

/// Notes a size an application took without complaint.
pub fn note_accepted(accepted: &mut AcceptedSizes, application: &str, width: i32, height: i32)
    ensures
        final(accepted)@ == old(accepted)@.insert(
            application@,
            shrunk_size(old(accepted)@, application@, width, height),
        ),
{
    let mut smallest: MinSize = match accepted.accepted.get(application) {
        Some(smallest) => *smallest,
        None => MinSize { width: i32::MAX, height: i32::MAX },
    };
    if width < smallest.width {
        smallest.width = width;
    }
    if height < smallest.height {
        smallest.height = height;
    }
    accepted.accepted.insert(application.to_owned(), smallest);
}

/// An application has refused something: what it used to accept is no longer a promise.
pub fn forget_accepted(accepted: &mut AcceptedSizes, application: &str)
    ensures
        final(accepted)@ == old(accepted)@.remove(application@),
{
    accepted.accepted.remove(application);
}

/// Minimum sizes only ever grow, whatever is recorded for whichever application.
pub proof fn law_minimum_sizes_only_grow(
    sizes: MinSizesView,
    application: Seq<char>,
    width: i32,
    height: i32,
    other: Seq<char>,
)
    ensures
        ({
            let after = recorded(sizes, application, width, height);
            &&& sizes.known.contains_key(other) ==> after.known.contains_key(other)
            &&& size_or_zero(after, other).width >= size_or_zero(sizes, other).width
            &&& size_or_zero(after, other).height >= size_or_zero(sizes, other).height
            &&& other != application ==> size_or_zero(after, other) == size_or_zero(sizes, other)
        }),
{
}

/// A dimension that was set to zero on purpose stays zero, however often the application
/// refuses to shrink.
pub proof fn law_an_opt_out_is_never_undone(
    sizes: MinSizesView,
    application: Seq<char>,
    width: i32,
    height: i32,
)
    ensures
        ({
            let after = recorded(sizes, application, width, height);
            &&& opted_out_of_width(sizes, application) ==> opted_out_of_width(after, application)
                && minimum_width(after, application) is None
            &&& opted_out_of_height(sizes, application) ==> opted_out_of_height(after, application)
                && minimum_height(after, application) is None
        }),
{
}

/// A zero that was stored is an opt-out, and every other size that was stored is handed out as
/// it is.
pub proof fn law_what_was_stored_is_handed_out(
    stored: Map<Seq<char>, MinSize>,
    application: Seq<char>,
)
    requires
        stored.contains_key(application),
    ensures
        ({
            let sizes = MinSizesView {
                known: loaded_sizes(Some(stored)),
                unreported: Map::empty(),
            };
            &&& opted_out_of_width(sizes, application) == (stored[application].width == 0)
            &&& opted_out_of_height(sizes, application) == (stored[application].height == 0)
            &&& minimum_width(sizes, application) == if stored[application].width == 0 {
                None
            } else {
                Some(stored[application].width)
            }
            &&& minimum_height(sizes, application) == if stored[application].height == 0 {
                None
            } else {
                Some(stored[application].height)
            }
        }),
{
}

/// The order of two refusals does not matter, and a refusal that was recorded once teaches
/// nothing the second time.
pub proof fn law_refusals_are_order_independent(
    sizes: MinSizesView,
    application: Seq<char>,
    width: i32,
    height: i32,
    other_width: i32,
    other_height: i32,
)
    ensures
        recorded(
            recorded(sizes, application, width, height),
            application,
            other_width,
            other_height,
        ) == recorded(
            recorded(sizes, application, other_width, other_height),
            application,
            width,
            height,
        ),
        recorded(recorded(sizes, application, width, height), application, width, height)
            == recorded(sizes, application, width, height),
{
    let once = recorded(sizes, application, width, height);
    assert(recorded(once, application, other_width, other_height) =~= recorded(
        recorded(sizes, application, other_width, other_height),
        application,
        width,
        height,
    ));
    assert(recorded(once, application, width, height) =~= once);
}

/// The first refusal of an application gives back each dimension that was reported on.
pub proof fn law_a_first_refusal_is_remembered(
    sizes: MinSizesView,
    application: Seq<char>,
    width: i32,
    height: i32,
)
    requires
        !sizes.known.contains_key(application),
        width >= 0,
        height >= 0,
    ensures
        minimum_width(recorded(sizes, application, width, height), application) == if width > 0 {
            Some(width)
        } else {
            None
        },
        minimum_height(recorded(sizes, application, width, height), application) == if height
            > 0 {
            Some(height)
        } else {
            None
        },
{
}

/// A dimension that the first refusal of an application did not report on can be learned from
/// a later one.
pub proof fn law_an_unreported_dimension_can_still_be_learned(
    sizes: MinSizesView,
    application: Seq<char>,
    width: i32,
    height: i32,
    later_width: i32,
    later_height: i32,
)
    requires
        !sizes.known.contains_key(application),
        width >= 0,
        height >= 0,
        later_width > 0,
        later_height > 0,
    ensures
        ({
            let after = recorded(
                recorded(sizes, application, 0, height),
                application,
                later_width,
                0,
            );
            &&& minimum_width(after, application) == Some(later_width)
            &&& height > 0 ==> minimum_height(after, application) == Some(height)
        }),
        ({
            let after = recorded(
                recorded(sizes, application, width, 0),
                application,
                0,
                later_height,
            );
            &&& minimum_height(after, application) == Some(later_height)
            &&& width > 0 ==> minimum_width(after, application) == Some(width)
        }),
{
}

/// A dimension that is not being reported on is left as it was, whatever was known.
pub proof fn law_an_unreported_dimension_is_left_alone(
    sizes: MinSizesView,
    application: Seq<char>,
    width: i32,
    height: i32,
)
    ensures
        size_or_zero(recorded(sizes, application, 0, height), application).width == size_or_zero(
            sizes,
            application,
        ).width,
        size_or_zero(recorded(sizes, application, width, 0), application).height == size_or_zero(
            sizes,
            application,
        ).height,
{
}

/// Once an application has accepted a size, that size and every larger one need no asking,
/// until it refuses something.
pub proof fn law_accepted_sizes_need_no_asking(
    accepted: Map<Seq<char>, MinSize>,
    application: Seq<char>,
    width: i32,
    height: i32,
    larger_width: i32,
    larger_height: i32,
)
    requires
        larger_width >= width,
        larger_height >= height,
    ensures
        !is_worth_verifying(
            accepted.insert(application, shrunk_size(accepted, application, width, height)),
            application,
            larger_width,
            larger_height,
        ),
        is_worth_verifying(
            accepted.remove(application),
            application,
            larger_width,
            larger_height,
        ),
{
}

} // verus!
