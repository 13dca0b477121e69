//! Weighted winner selection: the deterministic function of a round's
//! weights and a random draw.
//!
//! A draw `d` against weights summing to `total` is first adjusted into
//! `[1, total]` as `d % total + 1`. Walking the weights, the first index
//! whose running cumulative sum strictly exceeds the adjusted draw wins.
//! The comparison being strict against the post-increment sum, the
//! adjusted draw `total` itself exceeds no cumulative sum and selects
//! nobody: that boundary draw leaves the round's winner untouched.

use vstd::prelude::*;

use crate::codec::decode_random_number;
use crate::codec::le_bytes_to_u64;
use crate::config::ConfigData;
use crate::errors::RouletteErrors;
use crate::round::RouletteData;
use crate::round::RouletteView;
use crate::types::Identity;
use crate::types::WinnerEvent;

verus! {

/// The sum of the first `k` weights.
pub open spec fn cumulative_weight(weights: Seq<u64>, k: int) -> int
    decreases k,
{
    if k <= 0 {
        0
    } else {
        cumulative_weight(weights, k - 1) + weights[k - 1]
    }
}

/// The sum of all the weights.
pub open spec fn total_weight(weights: Seq<u64>) -> int {
    cumulative_weight(weights, weights.len() as int)
}

/// The draw mapped into `[1, total_weight(weights)]`.
pub open spec fn adjusted_draw(weights: Seq<u64>, draw: u64) -> int
    recommends
        total_weight(weights) > 0,
{
    (draw as int) % total_weight(weights) + 1
}

/// The first index at or after `start` whose cumulative sum strictly
/// exceeds `adjusted`, if any.
pub open spec fn winning_index_from(weights: Seq<u64>, adjusted: int, start: int) -> Option<int>
    decreases weights.len() - start,
{
    if start < 0 || start >= weights.len() {
        None
    } else if adjusted < cumulative_weight(weights, start + 1) {
        Some(start)
    } else {
        winning_index_from(weights, adjusted, start + 1)
    }
}

/// The index an adjusted draw selects: the first one whose cumulative
/// sum strictly exceeds it, or none when no sum does.
pub open spec fn winning_index(weights: Seq<u64>, adjusted: int) -> Option<int> {
    winning_index_from(weights, adjusted, 0)
}

/// Cumulative sums grow with the index.
pub proof fn lemma_cumulative_monotonic(weights: Seq<u64>, i: int, j: int)
    requires
        0 <= i <= j <= weights.len(),
    ensures
        cumulative_weight(weights, i) <= cumulative_weight(weights, j),
    decreases j - i,
{
    if i < j {
        lemma_cumulative_monotonic(weights, i, j - 1);
    }
}

proof fn lemma_winning_from_characterized(weights: Seq<u64>, adjusted: int, start: int)
    requires
        0 <= start <= weights.len(),
        cumulative_weight(weights, start) <= adjusted,
    ensures
        winning_index_from(weights, adjusted, start) is Some <==> adjusted < total_weight(weights),
        winning_index_from(weights, adjusted, start) matches Some(i) ==> start <= i
            < weights.len() && cumulative_weight(weights, i) <= adjusted < cumulative_weight(
            weights,
            i + 1,
        ),
    decreases weights.len() - start,
{
    if start == weights.len() {
    } else if adjusted < cumulative_weight(weights, start + 1) {
        lemma_cumulative_monotonic(weights, start + 1, weights.len() as int);
    } else {
        lemma_winning_from_characterized(weights, adjusted, start + 1);
    }
}

/// What the selection rule guarantees over a whole round, for every draw:
/// with weights summing to a positive `total`, a draw whose adjusted value
/// is `total` itself (the boundary) selects nobody, and every other draw
/// selects exactly the index whose cumulative interval the adjusted value
/// falls in.
pub proof fn lemma_weighted_coverage(weights: Seq<u64>, draw: u64)
    requires
        total_weight(weights) > 0,
    ensures
        adjusted_draw(weights, draw) == total_weight(weights) ==> winning_index(
            weights,
            adjusted_draw(weights, draw),
        ) is None,
        adjusted_draw(weights, draw) < total_weight(weights) ==> (winning_index(
            weights,
            adjusted_draw(weights, draw),
        ) matches Some(i) && 0 <= i < weights.len() && (cumulative_weight(weights, i)
            <= adjusted_draw(weights, draw)) && (adjusted_draw(weights, draw) < cumulative_weight(
            weights,
            i + 1,
        ))),
        forall|j: int|
            0 <= j < weights.len() && cumulative_weight(weights, j) <= adjusted_draw(weights, draw)
                < cumulative_weight(weights, j + 1) ==> winning_index(
                weights,
                adjusted_draw(weights, draw),
            ) == Some(j),
{
    let adjusted = adjusted_draw(weights, draw);
    lemma_winning_from_characterized(weights, adjusted, 0);
    assert forall|j: int|
        0 <= j < weights.len() && cumulative_weight(weights, j) <= adjusted < cumulative_weight(
            weights,
            j + 1,
        ) implies winning_index(weights, adjusted) == Some(j) by {
        lemma_cumulative_monotonic(weights, j + 1, weights.len() as int);
        match winning_index(weights, adjusted) {
            Some(i) => {
                if i < j {
                    lemma_cumulative_monotonic(weights, i + 1, j);
                } else if j < i {
                    lemma_cumulative_monotonic(weights, j + 1, i);
                }
            },
            None => {},
        }
    }
}

/// Selects the winning index for `random_number` against `values`, or
/// reports that the round is degenerate (all weights zero), or that no
/// index matched (the boundary draw).
pub fn decide_winner_index(values: &Vec<u64>, random_number: u64) -> (r: Result<
    Option<usize>,
    RouletteErrors,
>)
    requires
        total_weight(values@) <= u64::MAX,
    ensures
        total_weight(values@) == 0 <==> r == Err::<Option<usize>, RouletteErrors>(
            RouletteErrors::DegenerateRound,
        ),
        r is Err ==> r == Err::<Option<usize>, RouletteErrors>(RouletteErrors::DegenerateRound),
        r matches Ok(sel) ==> match sel {
            Some(ix) => ix < values@.len() && winning_index(
                values@,
                adjusted_draw(values@, random_number),
            ) == Some(ix as int),
            None => winning_index(values@, adjusted_draw(values@, random_number)) is None,
        },
{
    let n = values.len();
    let mut total: u64 = 0;
    let mut k: usize = 0;
    while k < n
        invariant
            0 <= k <= n,
            n == values@.len(),
            total == cumulative_weight(values@, k as int),
            total_weight(values@) <= u64::MAX,
        decreases n - k,
    {
        proof {
            lemma_cumulative_monotonic(values@, k + 1, n as int);
        }
        total = total + values[k];
        k = k + 1;
    }
    if total == 0 {
        return Err(RouletteErrors::DegenerateRound);
    }
    let adjusted = (random_number % total) + 1;
    let mut cumulative: u64 = 0;
    let mut i: usize = 0;
    while i < n
        invariant
            0 <= i <= n,
            n == values@.len(),
            cumulative == cumulative_weight(values@, i as int),
            total == total_weight(values@),
            total > 0,
            adjusted == adjusted_draw(values@, random_number),
            winning_index(values@, adjusted as int) == winning_index_from(
                values@,
                adjusted as int,
                i as int,
            ),
        decreases n - i,
    {
        proof {
            lemma_cumulative_monotonic(values@, i + 1, n as int);
        }
        cumulative = cumulative + values[i];
        if adjusted < cumulative {
            return Ok(Some(i));
        }
        i = i + 1;
    }
    Ok(None)
}

/// The winner field a successful resolution leaves behind: the selected
/// entrant, or the prior value when the boundary draw selected nobody.
pub open spec fn resolution_winner(v: RouletteView, draw: u64) -> Identity
    recommends
        total_weight(v.values) > 0,
{
    match winning_index(v.values, adjusted_draw(v.values, draw)) {
        Some(i) => v.players[i],
        None => v.winner,
    }
}

/// A round after a successful resolution with `draw`: only the winner
/// field moves.
pub open spec fn resolved_view(v: RouletteView, draw: u64) -> RouletteView
    recommends
        total_weight(v.values) > 0,
{
    RouletteView { winner: resolution_winner(v, draw), ..v }
}

/// Applies a draw to the round: writes the selected entrant into the
/// winner field (or leaves it on the boundary draw) and reports the
/// field's new value. A round whose weights sum to zero is degenerate and
/// stays unchanged. Nothing locks the phase: a later call with a fresh
/// draw overwrites the winner.
pub fn resolve_winner(round: &mut RouletteData, random_number: u64) -> (r: Result<
    WinnerEvent,
    RouletteErrors,
>)
    requires
        old(round).wf(),
        total_weight(old(round)@.values) <= u64::MAX,
    ensures
        total_weight(old(round)@.values) == 0 <==> r == Err::<WinnerEvent, RouletteErrors>(
            RouletteErrors::DegenerateRound,
        ),
        r is Err ==> r == Err::<WinnerEvent, RouletteErrors>(RouletteErrors::DegenerateRound)
            && final(round)@ == old(round)@,
        r is Ok ==> r == Ok::<WinnerEvent, RouletteErrors>(
            WinnerEvent { winner: resolution_winner(old(round)@, random_number) },
        ) && final(round)@ == resolved_view(old(round)@, random_number),
        final(round).wf(),
{
    let selected = match decide_winner_index(&round.values, random_number) {
        Ok(selected) => selected,
        Err(e) => {
            return Err(e);
        },
    };
    match selected {
        Some(i) => {
            round.winner = round.players[i];
        },
        None => {},
    }
    Ok(WinnerEvent { winner: round.winner })
}

/// Resolves the round from the randomness service's raw response, under
/// the verified-draw trust model. Only the authority may trigger it; the
/// response is trusted only when it originates from the expected service
/// identity and carries a well-formed eight-byte payload, whose value is
/// then the draw.
pub fn get_random_decide_winner(
    config: &ConfigData,
    round: &mut RouletteData,
    caller: Identity,
    rng_program: Identity,
    response_source: Identity,
    payload: &Vec<u8>,
) -> (r: Result<WinnerEvent, RouletteErrors>)
    requires
        old(round).wf(),
        total_weight(old(round)@.values) <= u64::MAX,
    ensures
        caller != config.auth <==> r == Err::<WinnerEvent, RouletteErrors>(RouletteErrors::NotAuth),
        caller == config.auth ==> ((response_source != rng_program || payload@.len() != 8) <==> r
            == Err::<WinnerEvent, RouletteErrors>(RouletteErrors::FailedToGetRandomNumber)),
        caller == config.auth && response_source == rng_program && payload@.len() == 8 ==> {
            let draw = le_bytes_to_u64(payload@) as u64;
            &&& (total_weight(old(round)@.values) == 0 <==> r == Err::<WinnerEvent, RouletteErrors>(
                RouletteErrors::DegenerateRound,
            ))
            &&& (total_weight(old(round)@.values) > 0 ==> r == Ok::<WinnerEvent, RouletteErrors>(
                WinnerEvent { winner: resolution_winner(old(round)@, draw) },
            ) && final(round)@ == resolved_view(old(round)@, draw))
        },
        r is Err ==> final(round)@ == old(round)@,
        final(round).wf(),
{
    if caller != config.auth {
        return Err(RouletteErrors::NotAuth);
    }
    if response_source != rng_program {
        return Err(RouletteErrors::FailedToGetRandomNumber);
    }
    let random = match decode_random_number(payload) {
        Ok(random) => random,
        Err(e) => {
            return Err(e);
        },
    };
    resolve_winner(round, random.random_number)
}

/// Resolves the round from a draw the authority passes in itself: the
/// authority check on the caller is the whole randomness trust model.
pub fn decide_winner_with_draw(
    config: &ConfigData,
    round: &mut RouletteData,
    caller: Identity,
    random_number: u64,
) -> (r: Result<WinnerEvent, RouletteErrors>)
    requires
        old(round).wf(),
        total_weight(old(round)@.values) <= u64::MAX,
    ensures
        caller != config.auth <==> r == Err::<WinnerEvent, RouletteErrors>(RouletteErrors::NotAuth),
        caller == config.auth ==> (total_weight(old(round)@.values) == 0 <==> r == Err::<
            WinnerEvent,
            RouletteErrors,
        >(RouletteErrors::DegenerateRound)),
        caller == config.auth && total_weight(old(round)@.values) > 0 ==> r == Ok::<
            WinnerEvent,
            RouletteErrors,
        >(WinnerEvent { winner: resolution_winner(old(round)@, random_number) }) && final(round)@
            == resolved_view(old(round)@, random_number),
        r is Err ==> final(round)@ == old(round)@,
        final(round).wf(),
{
    if caller != config.auth {
        return Err(RouletteErrors::NotAuth);
    }
    resolve_winner(round, random_number)
}

} // verus!
