//! The error that the name look-ups of the library return.

use vstd::prelude::*;

verus! {

/// What goes wrong when a caller names something that the library does not have.
#[derive(PartialEq, Eq, Structural, Clone, Copy, Debug)]
pub enum HALError {
    /// The name is not one that the library knows.
    UNKNOWN,
}

} // verus!
