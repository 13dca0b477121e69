//! The per-round record and the operations that fill it.

use vstd::prelude::*;

use crate::config::ConfigData;
use crate::errors::RouletteErrors;
use crate::types::EnterRouletteEvent;
use crate::types::Identity;
use crate::vault::CustodyVault;
use crate::vault::deposit;

verus! {

/// A round that has been created but not yet opened for entries.
pub const STATUS_CREATED: u8 = 0;

/// A round that accepts entries and may be resolved.
pub const STATUS_OPEN: u8 = 1;

/// One lottery round: its phase, the entrants in entry order, the weight
/// assigned to each entry (aligned index for index), the resolved winner
/// (the unset identity until a draw selects one), and the deterministic
/// handle the substrate uses to sign the custody release for this round
/// only.
pub struct RouletteData {
    pub status: u8,
    pub players: Vec<Identity>,
    pub values: Vec<u64>,
    pub winner: Identity,
    pub bump: u8,
}

/// The mathematical value of a [`RouletteData`]: the same fields over
/// sequences.
pub struct RouletteView {
    pub status: u8,
    pub players: Seq<Identity>,
    pub values: Seq<u64>,
    pub winner: Identity,
    pub bump: u8,
}

impl View for RouletteData {
    type V = RouletteView;

    open spec fn view(&self) -> RouletteView {
        RouletteView {
            status: self.status,
            players: self.players@,
            values: self.values@,
            winner: self.winner,
            bump: self.bump,
        }
    }
}

impl RouletteData {
    /// Every round keeps one weight per entrant.
    pub open spec fn wf(self) -> bool {
        self.players@.len() == self.values@.len()
    }
}

/// Opens a new round: only the authority may, and on success the round
/// starts open, with no entries, no winner, the substrate-derived signing
/// handle `bump`, and the round counter stepped to key the next round.
pub fn start_roulette(config: &mut ConfigData, caller: Identity, bump: u8) -> (r: Result<
    RouletteData,
    RouletteErrors,
>)
    requires
        old(config).roulette_count < u64::MAX,
    ensures
        caller != old(config).auth <==> r is Err,
        r is Err ==> r == Err::<RouletteData, RouletteErrors>(RouletteErrors::NotAuth)
            && *final(config) == *old(config),
        caller == old(config).auth ==> *final(config) == (ConfigData {
            roulette_count: (old(config).roulette_count + 1) as u64,
            ..*old(config)
        }) && (r matches Ok(round) && round@ == (RouletteView {
            status: STATUS_OPEN,
            players: Seq::empty(),
            values: Seq::empty(),
            winner: (Identity { key: 0 }),
            bump,
        })),
{
    if caller != config.auth {
        return Err(RouletteErrors::NotAuth);
    }
    config.roulette_count = config.roulette_count + 1;
    let round = RouletteData {
        status: STATUS_OPEN,
        players: Vec::new(),
        values: Vec::new(),
        winner: Identity::unset(),
        bump,
    };
    Ok(round)
}

/// Records one entry: the deposit of one asset unit is credited to the
/// round's vault, and the sender is appended as an entrant with initial
/// weight 0. Only open rounds take entries; a participant may enter any
/// number of times, each entry an independent weighted slot. The returned
/// event names the sender and the deposited asset.
pub fn enter_roulette(
    round: &mut RouletteData,
    vault: &mut CustodyVault,
    sender: Identity,
    mint: Identity,
) -> (r: Result<EnterRouletteEvent, RouletteErrors>)
    requires
        old(vault).balance < u64::MAX,
    ensures
        old(round).status != STATUS_OPEN <==> r == Err::<EnterRouletteEvent, RouletteErrors>(
            RouletteErrors::InProgress,
        ),
        r is Err ==> r == Err::<EnterRouletteEvent, RouletteErrors>(RouletteErrors::InProgress)
            && final(round)@ == old(round)@ && *final(vault) == *old(vault),
        r is Ok ==> r == Ok::<EnterRouletteEvent, RouletteErrors>(
            EnterRouletteEvent { from: sender, mint },
        ) && final(round)@ == (RouletteView {
            players: old(round)@.players.push(sender),
            values: old(round)@.values.push(0),
            ..old(round)@
        }) && final(vault).balance == old(vault).balance + 1,
        old(round).wf() ==> final(round).wf(),
{
    if round.status != STATUS_OPEN {
        return Err(RouletteErrors::InProgress);
    }
    deposit(vault, 1);
    round.players.push(sender);
    round.values.push(0);
    Ok(EnterRouletteEvent { from: sender, mint })
}

/// The first entry slot held by `address`, if it entered at all.
pub open spec fn first_entry_index_from(players: Seq<Identity>, address: Identity, start: int) -> Option<int>
    decreases players.len() - start,
{
    if start < 0 || start >= players.len() {
        None
    } else if players[start] == address {
        Some(start)
    } else {
        first_entry_index_from(players, address, start + 1)
    }
}

/// The first entry slot held by `address`: the only slot `set_floor_price`
/// can reweight when a participant entered more than once.
pub open spec fn first_entry_index(players: Seq<Identity>, address: Identity) -> Option<int> {
    first_entry_index_from(players, address, 0)
}

/// The weights after the authority prices `address`'s first entry slot at
/// `floor_price`; unchanged when `address` never entered.
pub open spec fn reweighted(
    players: Seq<Identity>,
    values: Seq<u64>,
    address: Identity,
    floor_price: u64,
) -> Seq<u64> {
    match first_entry_index(players, address) {
        Some(i) => values.update(i, floor_price),
        None => values,
    }
}

/// Sets the weight of `address`'s first entry slot to `floor_price`. Only
/// the authority may; an `address` that never entered is silently left
/// alone (a permissive edge case, not an error).
pub fn set_floor_price(
    config: &ConfigData,
    round: &mut RouletteData,
    caller: Identity,
    address: Identity,
    floor_price: u64,
) -> (r: Result<(), RouletteErrors>)
    requires
        old(round).wf(),
    ensures
        caller != config.auth <==> r == Err::<(), RouletteErrors>(RouletteErrors::NotAuth),
        caller != config.auth ==> final(round)@ == old(round)@,
        caller == config.auth ==> r == Ok::<(), RouletteErrors>(()) && final(round)@ == (
        RouletteView {
            values: reweighted(old(round)@.players, old(round)@.values, address, floor_price),
            ..old(round)@
        }),
        old(round).wf() ==> final(round).wf(),
{
    if caller != config.auth {
        return Err(RouletteErrors::NotAuth);
    }
    let n = round.players.len();
    let mut i: usize = 0;
    while i < n
        invariant
            caller == config.auth,
            0 <= i <= n,
            n == round.players@.len(),
            round.wf(),
            *round == *old(round),
            first_entry_index(round.players@, address) == first_entry_index_from(
                round.players@,
                address,
                i as int,
            ),
        decreases n - i,
    {
        if round.players[i] == address {
            round.values[i] = floor_price;
            return Ok(());
        }
        i = i + 1;
    }
    Ok(())
}

} // verus!
