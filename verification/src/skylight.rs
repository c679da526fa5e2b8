//! Holding the screen still while several windows move.
//!
//! The window server draws every move as it happens. Holding the screen still makes several
//! of them one frame. Holds nest: only the outermost one freezes the screen, and it thaws once,
//! when the last one is let go of.

use vstd::prelude::*;

verus! {

/// How many holds there are.
#[derive(Clone, Copy, Debug, PartialEq, Eq, Structural)]
pub struct FrozenDepth {
    pub depth: usize,
}

/// A hold on the screen.
#[derive(Debug)]
pub struct ScreenHeldStill {
    pub connection_id: i32,
}

/// Takes a hold on the screen, and says whether it has to be frozen now.
pub fn hold_screen_still(frozen: &mut FrozenDepth, connection_id: i32) -> (held: (
    ScreenHeldStill,
    bool,
))
    requires
        old(frozen).depth < usize::MAX,
    ensures
        held.0.connection_id == connection_id,
        held.1 == (old(frozen).depth == 0),
        final(frozen).depth == old(frozen).depth + 1,
{
    let freeze: bool = frozen.depth == 0;
    frozen.depth += 1;
    (ScreenHeldStill { connection_id }, freeze)
}

/// How many holds there are after one was let go of.
pub open spec fn released(depth: usize) -> usize {
    if depth == 0 {
        0
    } else {
        (depth - 1) as usize
    }
}

impl ScreenHeldStill {
    /// Lets go of the screen, and says over which connection it has to be thawed now, if it
    /// has to be.
    pub fn release(self, frozen: &mut FrozenDepth) -> (thaw: Option<i32>)
        ensures
            final(frozen).depth == released(old(frozen).depth),
            thaw == if final(frozen).depth == 0 {
                Some(self.connection_id)
            } else {
                None
            },
    {
        frozen.depth = frozen.depth.saturating_sub(1);
        if frozen.depth == 0 {
            Some(self.connection_id)
        } else {
            None
        }
    }
}

/// A hold that is taken and let go of leaves the others as they were, and thaws the screen
/// exactly where it froze it: holds nest.
pub proof fn law_only_the_outermost_hold_counts(depth: usize)
    requires
        depth < usize::MAX,
    ensures
        released((depth + 1) as usize) == depth,
        released((depth + 1) as usize) == 0 <==> depth == 0,
{
}

} // verus!
