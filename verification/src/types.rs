//! Actor identities and the events that operations report.

use vstd::prelude::*;

verus! {

/// An authenticated actor reference (the ledger substrate's public key,
/// reduced to its plain value). The substrate verifies signatures; this
/// library only compares identities against stored values.
#[derive(Clone, Copy, PartialEq, Eq, Structural, Debug)]
pub struct Identity {
    pub key: u64,
}

impl Identity {
    /// The sentinel identity: a round whose winner equals this value has
    /// not had a winner written yet.
    pub open spec fn is_unset(self) -> bool {
        self.key == 0
    }

    /// The sentinel value a fresh round's winner field starts at.
    pub fn unset() -> (r: Identity)
        ensures
            r.is_unset(),
    {
        Identity { key: 0 }
    }
}

/// Reported when a participant's entry has been recorded: who entered and
/// which asset they deposited.
#[derive(Clone, Copy, PartialEq, Eq, Structural, Debug)]
pub struct EnterRouletteEvent {
    pub from: Identity,
    pub mint: Identity,
}

/// Reported when a resolution call completes: the round's winner field
/// after the draw was applied (the prior value when the draw matched no
/// entry).
#[derive(Clone, Copy, PartialEq, Eq, Structural, Debug)]
pub struct WinnerEvent {
    pub winner: Identity,
}

} // verus!
