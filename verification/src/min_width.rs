//! Per-application minimum widths, learned once and remembered on disk.
//!
//! The one-dimensional sibling of [`crate::min_size`]: one number per application answers
//! the question for any screen and any number of windows, so nothing has to be relearned
//! when a different monitor is plugged in.

use crate::names::NameMap;
use vstd::prelude::*;

verus! {

/// The file, under the data directory, that minimum widths are kept in.
pub const MIN_WIDTHS_FILE: &'static str = "komorebi.min-widths.json";

/// The minimum widths known, by application.
pub struct MinWidths {
    known: NameMap<i32>,
}

impl View for MinWidths {
    type V = Map<Seq<char>, i32>;

    closed spec fn view(&self) -> Map<Seq<char>, i32> {
        self.known@
    }
}

/// The widths measured beforehand.
pub open spec fn seeded_widths() -> Map<Seq<char>, i32> {
    Map::<Seq<char>, i32>::empty().insert("Música"@, 980).insert("Music"@, 980).insert(
        "WhatsApp"@,
        970,
    )
}

/// The widths to start with: the seeded ones, under whatever was stored.
pub fn load(stored: Option<NameMap<i32>>) -> (widths: MinWidths)
    ensures
        widths@ == match stored {
            Some(stored) => seeded_widths().union_prefer_right(stored@),
            None => seeded_widths(),
        },
{
    let mut known: NameMap<i32> = NameMap::new();
    known.insert("Música".to_owned(), 980);
    known.insert("Music".to_owned(), 980);
    known.insert("WhatsApp".to_owned(), 970);
    if let Some(stored) = stored {
        known.extend(stored);
    }
    MinWidths { known }
}

impl MinWidths {
    /// The widths as they are written out.
    pub fn stored(&self) -> (known: &NameMap<i32>)
        ensures
            known@ == self@,
    {
        &self.known
    }
}

/// The minimum width that `widths` gives an application: none where it is zero.
pub open spec fn minimum(widths: Map<Seq<char>, i32>, application: Seq<char>) -> Option<i32> {
    if widths.contains_key(application) && widths[application] != 0 {
        Some(widths[application])
    } else {
        None
    }
}

/// The minimum width known for an application, if any.
///
/// A stored zero means "leave this application alone": an escape hatch that can be edited
/// into the file by hand when the automatic handling gets an application wrong.
pub fn get(widths: &MinWidths, application: &str) -> (width: Option<i32>)
    ensures
        width == minimum(widths@, application@),
{
    match widths.known.get(application) {
        Some(width) => if *width == 0 {
            None
        } else {
            Some(*width)
        },
        None => None,
    }
}

/// A refused width is news, unless it is no larger than what is known or the application
/// was opted out with a zero.
pub open spec fn is_news(widths: Map<Seq<char>, i32>, application: Seq<char>, width: i32) -> bool {
    widths.contains_key(application) ==> widths[application] != 0 && widths[application] < width
}

/// All the widths after an application refused `width`.
pub open spec fn recorded(
    widths: Map<Seq<char>, i32>,
    application: Seq<char>,
    width: i32,
) -> Map<Seq<char>, i32> {
    if is_news(widths, application, width) {
        widths.insert(application, width)
    } else {
        widths
    }
}

/// Records a width an application refused to go below, and says whether anything was
/// learned, in which case the widths are to be written out. Only ever grows.
pub fn record(widths: &mut MinWidths, application: &str, width: i32) -> (learned: bool)
    ensures
        final(widths)@ == recorded(old(widths)@, application@, width),
        learned == (final(widths)@ != old(widths)@),
{
    if let Some(existing) = widths.known.get(application) {
        if *existing == 0 || *existing >= width {
            return false;
        }
    }
    widths.known.insert(application.to_owned(), width);
    assert(widths@.contains_key(application@) && widths@[application@] == width);
    true
}

/// Minimum widths only ever grow, and an opt-out is never undone.
pub proof fn law_minimum_widths_only_grow(
    widths: Map<Seq<char>, i32>,
    application: Seq<char>,
    width: i32,
    other: Seq<char>,
)
    requires
        widths.contains_key(other),
    ensures
        recorded(widths, application, width).contains_key(other),
        recorded(widths, application, width)[other] >= widths[other],
        widths[other] == 0 ==> minimum(recorded(widths, application, width), other) is None,
{
}


/// A width that an application refused is the least it accepts from then on, if nothing was known of it
/// or less was, other than a zero; otherwise, and of any other application, what was known stays.
pub proof fn law_refused_widths_are_recorded(
    widths: Map<Seq<char>, i32>,
    application: Seq<char>,
    width: i32,
    other: Seq<char>,
)
    ensures
        ({
            let after = recorded(widths, application, width);
            &&& !widths.contains_key(application) ==> after.contains_key(application)
                && after[application] == width
            &&& widths.contains_key(application) ==> after.contains_key(application)
                && after[application] == if widths[application] != 0 && widths[application] < width {
                width
            } else {
                widths[application]
            }
            &&& other != application ==> after.contains_key(other) == widths.contains_key(other)
                && after[other] == widths[other]
            &&& minimum(after, application) is None <==> after[application] == 0
            &&& minimum(after, application) is Some ==> minimum(after, application)->0
                == after[application]
        }),
{
}

} // verus!
