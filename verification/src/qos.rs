//! Thread quality of service.
//!
//! The threads that place windows do so for someone who has just pressed a key and is looking
//! at the screen. Background work is left where it belongs.

use vstd::prelude::*;

verus! {

/// What the work of a thread is for.
#[derive(Clone, Copy, Debug, PartialEq, Eq, Structural)]
pub enum QosClass {
    /// Work the user is waiting to see the result of, right now.
    UserInteractive,
    /// Work the user asked for and is waiting on, but not frame by frame.
    UserInitiated,
    /// Work that should not compete with anything the user is doing.
    Utility,
}

/// The number that the system has for a class.
pub open spec fn class_number(class: QosClass) -> u32 {
    match class {
        QosClass::UserInteractive => 0x21,
        QosClass::UserInitiated => 0x19,
        QosClass::Utility => 0x11,
    }
}

impl QosClass {
    /// The number that the system has for the class.
    pub fn number(self) -> (number: u32)
        ensures
            number == class_number(self),
    {
        match self {
            QosClass::UserInteractive => 0x21,
            QosClass::UserInitiated => 0x19,
            QosClass::Utility => 0x11,
        }
    }
}

} // verus!
