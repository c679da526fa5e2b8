//! Which applications have their own animations held off.
//!
//! An application may animate every move of its windows by itself. That is turned off around
//! moves, and on again afterwards. What an application had is read once and remembered, and
//! holds nest, so that an outer one covers a whole batch of moves while those inside it cost
//! nothing.

use std::collections::HashMap;
use vstd::prelude::*;

verus! {

/// What is known of one application.
#[derive(Clone, Copy, Debug, PartialEq, Eq, Structural)]
pub struct EnhancedUiState {
    /// What the application had before anything was changed. Only an application that had it
    /// on needs it turning back on.
    pub was_on: bool,
    /// How many holds there are on it.
    pub holders: usize,
}

/// What is known of the applications, by process.
pub struct EnhancedUi {
    pub known: HashMap<i32, EnhancedUiState>,
}

impl View for EnhancedUi {
    type V = Map<i32, EnhancedUiState>;

    open spec fn view(&self) -> Map<i32, EnhancedUiState> {
        self.known@
    }
}

/// What is known of an application, where `was_on` was just read of one that was not known.
pub open spec fn state_of(
    known: Map<i32, EnhancedUiState>,
    process_id: i32,
    was_on: bool,
) -> EnhancedUiState {
    if known.contains_key(process_id) {
        known[process_id]
    } else {
        EnhancedUiState { was_on, holders: 0 }
    }
}

/// What is known once there is one more hold on an application.
pub open spec fn held(known: Map<i32, EnhancedUiState>, process_id: i32, was_on: bool) -> Map<
    i32,
    EnhancedUiState,
> {
    let state = state_of(known, process_id, was_on);
    known.insert(process_id, EnhancedUiState { holders: (state.holders + 1) as usize, ..state })
}

/// What is known once there is one hold less on an application.
pub open spec fn let_go(known: Map<i32, EnhancedUiState>, process_id: i32) -> Map<
    i32,
    EnhancedUiState,
> {
    if known.contains_key(process_id) {
        let state = known[process_id];
        known.insert(
            process_id,
            EnhancedUiState {
                holders: if state.holders == 0 {
                    0
                } else {
                    (state.holders - 1) as usize
                },
                ..state
            },
        )
    } else {
        known
    }
}

impl EnhancedUi {
    /// Nothing is known.
    pub fn new() -> (none: Self)
        ensures
            none@ == Map::<i32, EnhancedUiState>::empty(),
    {
        EnhancedUi { known: HashMap::new() }
    }

    /// What is known of an application.
    pub fn get(&self, process_id: i32) -> (state: Option<EnhancedUiState>)
        ensures
            state == if self@.contains_key(process_id) {
                Some(self@[process_id])
            } else {
                None
            },
    {
        broadcast use vstd::std_specs::hash::group_hash_axioms;

        match self.known.get(&process_id) {
            Some(state) => Some(*state),
            None => None,
        }
    }
}

/// Takes a hold on an application, and says whether its animations have to be turned off now.
/// `was_on` says whether they are on; it only counts for an application that is not known.
pub fn hold_enhanced_ui_off(ui: &mut EnhancedUi, process_id: i32, was_on: bool) -> (turn_off: bool)
    requires
        state_of(old(ui)@, process_id, was_on).holders < usize::MAX,
    ensures
        final(ui)@ == held(old(ui)@, process_id, was_on),
        turn_off == ({
            let state = state_of(old(ui)@, process_id, was_on);
            state.holders == 0 && state.was_on
        }),
{
    broadcast use vstd::std_specs::hash::group_hash_axioms;

    let ghost before = ui@;
    let state = match ui.get(process_id) {
        Some(state) => state,
        None => EnhancedUiState { was_on, holders: 0 },
    };
    ui.known.insert(
        process_id,
        EnhancedUiState { was_on: state.was_on, holders: state.holders + 1 },
    );
    assert(ui@ =~= held(before, process_id, was_on));
    state.holders == 0 && state.was_on
}

/// Lets go of an application, and says whether its animations have to be turned on again now.
pub fn release_enhanced_ui(ui: &mut EnhancedUi, process_id: i32) -> (turn_on: bool)
    ensures
        final(ui)@ == let_go(old(ui)@, process_id),
        turn_on == (final(ui)@.contains_key(process_id) && final(ui)@[process_id].holders == 0
            && final(ui)@[process_id].was_on),
{
    broadcast use vstd::std_specs::hash::group_hash_axioms;

    let ghost before = ui@;
    match ui.get(process_id) {
        Some(state) => {
            let holders: usize = state.holders.saturating_sub(1);
            ui.known.insert(process_id, EnhancedUiState { was_on: state.was_on, holders });
            assert(ui@ =~= let_go(before, process_id));
            holders == 0 && state.was_on
        },
        None => false,
    }
}

/// Stops remembering an application that will not be managed again.
pub fn forget_enhanced_ui(ui: &mut EnhancedUi, process_id: i32)
    ensures
        final(ui)@ == old(ui)@.remove(process_id),
{
    broadcast use vstd::std_specs::hash::group_hash_axioms;

    let ghost before = ui@;
    ui.known.remove(&process_id);
    assert(ui@ =~= before.remove(process_id));
}

/// A hold that is taken and let go of changes nothing about how many there are, and turns the
/// animations on again exactly where it turned them off; other applications are not touched.
pub proof fn law_holds_nest(
    known: Map<i32, EnhancedUiState>,
    process_id: i32,
    was_on: bool,
    other: i32,
)
    requires
        state_of(known, process_id, was_on).holders < usize::MAX,
    ensures
        ({
            let state = state_of(known, process_id, was_on);
            let after = let_go(held(known, process_id, was_on), process_id);
            &&& after.contains_key(process_id) && after[process_id] == state
            &&& other != process_id ==> after.contains_key(other) == known.contains_key(other)
            &&& other != process_id && known.contains_key(other) ==> after[other] == known[other]
        }),
{
}

/// What an application had is read once: a second reading changes nothing.
pub proof fn law_what_an_application_had_is_remembered(
    known: Map<i32, EnhancedUiState>,
    process_id: i32,
    was_on: bool,
    reads_as: bool,
)
    ensures
        state_of(held(known, process_id, was_on), process_id, reads_as).was_on == state_of(
            known,
            process_id,
            was_on,
        ).was_on,
{
}


/// A hold on an application adds one to those there are, and letting go takes one away where there is
/// any; what the application had is as it was read first.
pub proof fn law_holds_are_counted(
    known: Map<i32, EnhancedUiState>,
    process_id: i32,
    was_on: bool,
)
    requires
        known.contains_key(process_id) ==> known[process_id].holders < usize::MAX,
    ensures
        ({
            let after = held(known, process_id, was_on);
            &&& after.contains_key(process_id)
            &&& known.contains_key(process_id) ==> after[process_id].holders
                == known[process_id].holders + 1 && after[process_id].was_on
                == known[process_id].was_on
            &&& !known.contains_key(process_id) ==> after[process_id].holders == 1
                && after[process_id].was_on == was_on
        }),
        ({
            let after = let_go(known, process_id);
            &&& after.contains_key(process_id) == known.contains_key(process_id)
            &&& known.contains_key(process_id) ==> after[process_id].was_on
                == known[process_id].was_on && after[process_id].holders == if known[process_id].holders
                == 0 {
                0
            } else {
                known[process_id].holders - 1
            }
        }),
{
}

} // verus!
