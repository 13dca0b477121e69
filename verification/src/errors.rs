//! The typed errors the lottery operations surface.
//!
//! Every failure is terminal for its operation: the substrate applies an
//! operation atomically, so an error means no state change at all.

use vstd::prelude::*;

verus! {

#[derive(Clone, Copy, PartialEq, Eq, Structural, Debug)]
pub enum RouletteErrors {
    /// `init_config` was called on an already-initialized config.
    ConfigAlreadyInitialized,
    /// The caller of an authority-gated operation is not the stored
    /// authority.
    NotAuth,
    /// An entry was attempted on a round that is not open.
    InProgress,
    /// A claim was attempted by a caller who is not the recorded winner.
    NotWinner,
    /// The randomness response did not come from the expected source, or
    /// its payload was not a valid 64-bit value.
    FailedToGetRandomNumber,
    /// Resolution was attempted on a round whose weights sum to zero.
    DegenerateRound,
}

} // verus!
