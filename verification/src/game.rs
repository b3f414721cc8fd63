//! The games whose script conventions this library knows.

use vstd::prelude::*;

verus! {

/// The game being validated. Scope bit assignments, scope names and some
/// rules depend on it.
#[derive(Clone, Copy, Debug, PartialEq, Eq, Structural)]
pub enum Game {
    Vic3,
    Hoi4,
}

} // verus!
