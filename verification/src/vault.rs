//! The custody vault: the balance a round's deposits accumulate in, and
//! the claim path that empties it.

use vstd::prelude::*;

use crate::errors::RouletteErrors;
use crate::round::RouletteData;
use crate::types::Identity;

verus! {

/// A round's exclusively program-controlled holding area. Deposits credit
/// it one asset unit at a time; only the claim path debits it, and only
/// to the recorded winner.
#[derive(Clone, Copy, PartialEq, Eq, Structural, Debug)]
pub struct CustodyVault {
    pub balance: u64,
}

/// Credits `amount` asset units to the vault. The substrate's transfer
/// primitive has already moved the assets when this is applied; a failed
/// transfer aborts the whole operation before any state change.
pub fn deposit(vault: &mut CustodyVault, amount: u64)
    requires
        old(vault).balance + amount <= u64::MAX,
    ensures
        final(vault).balance == old(vault).balance + amount,
{
    vault.balance = vault.balance + amount;
}

/// What a claim returns: the vault's whole balance to the recorded
/// winner, and a typed refusal to anyone else.
pub open spec fn claim_outcome(winner: Identity, balance: u64, caller: Identity) -> Result<
    u64,
    RouletteErrors,
> {
    if caller == winner {
        Ok(balance)
    } else {
        Err(RouletteErrors::NotWinner)
    }
}

/// The balance a claim leaves behind: zero for the winner, untouched for
/// anyone else.
pub open spec fn claim_balance_after(winner: Identity, balance: u64, caller: Identity) -> u64 {
    if caller == winner {
        0
    } else {
        balance
    }
}

/// Releases the round's whole vault balance to the caller, who must be
/// the recorded winner; the returned amount is what the substrate's
/// transfer primitive is to move, signed by the capability scoped to this
/// round alone. A repeated claim finds the balance at zero and moves
/// nothing.
pub fn claim_winnings(round: &RouletteData, vault: &mut CustodyVault, caller: Identity) -> (r:
    Result<u64, RouletteErrors>)
    ensures
        r == claim_outcome(round.winner, old(vault).balance, caller),
        final(vault).balance == claim_balance_after(round.winner, old(vault).balance, caller),
{
    if caller != round.winner {
        return Err(RouletteErrors::NotWinner);
    }
    let payout = vault.balance;
    vault.balance = 0;
    Ok(payout)
}

/// Claim exclusivity: a non-winner is refused and moves nothing; the
/// winner is paid the whole balance exactly once, and a repeated claim is
/// a no-op paying zero.
pub proof fn lemma_claim_exclusivity(winner: Identity, balance: u64, caller: Identity)
    ensures
        caller != winner ==> claim_outcome(winner, balance, caller) == Err::<u64, RouletteErrors>(
            RouletteErrors::NotWinner,
        ) && claim_balance_after(winner, balance, caller) == balance,
        claim_outcome(winner, balance, winner) == Ok::<u64, RouletteErrors>(balance),
        claim_balance_after(winner, balance, winner) == 0,
        claim_outcome(winner, claim_balance_after(winner, balance, winner), winner) == Ok::<
            u64,
            RouletteErrors,
        >(0),
{
}

} // verus!
