//! What is kept track of for the accessibility system.

pub mod private;
