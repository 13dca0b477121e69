//! The per-participant append-only log of rounds won.

use vstd::prelude::*;

use crate::config::ConfigData;
use crate::errors::RouletteErrors;
use crate::types::Identity;

verus! {

/// A participant's record of the rounds they won, in the order the
/// authority recorded them. Append-only; duplicates are permitted by
/// design.
pub struct UserRouletteData {
    pub winning_roulette_indexes: Vec<u64>,
}

/// What one recording appends: the new log is the old log with `index` at
/// its end, whether or not `index` already appears.
pub open spec fn record_win_log(log: Seq<u64>, index: u64) -> Seq<u64> {
    log.push(index)
}

/// Appends round `index` to the participant's wins log. Only the
/// authority may record a win; a rejected caller changes nothing.
pub fn update_winner_account(
    config: &ConfigData,
    user_winning_account: &mut UserRouletteData,
    caller: Identity,
    index: u64,
) -> (r: Result<(), RouletteErrors>)
    ensures
        caller != config.auth <==> r == Err::<(), RouletteErrors>(RouletteErrors::NotAuth),
        caller != config.auth ==> final(user_winning_account).winning_roulette_indexes@
            == old(user_winning_account).winning_roulette_indexes@,
        caller == config.auth ==> r == Ok::<(), RouletteErrors>(())
            && final(user_winning_account).winning_roulette_indexes@
            == record_win_log(old(user_winning_account).winning_roulette_indexes@, index),
{
    if caller != config.auth {
        return Err(RouletteErrors::NotAuth);
    }
    user_winning_account.winning_roulette_indexes.push(index);
    Ok(())
}

/// Recording the same round twice appends two entries: the log keeps both
/// duplicates, each preserving everything recorded before it.
pub proof fn lemma_record_win_duplicates(log: Seq<u64>, index: u64)
    ensures
        record_win_log(record_win_log(log, index), index).len() == log.len() + 2,
        record_win_log(record_win_log(log, index), index)[log.len() as int] == index,
        record_win_log(record_win_log(log, index), index)[log.len() as int + 1] == index,
        forall|k: int|
            0 <= k < log.len() ==> record_win_log(record_win_log(log, index), index)[k] == log[k],
{
}

} // verus!
