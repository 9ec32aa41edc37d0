use vstd::prelude::*;
use crate::types::{Balance, GovernorError, Weight};

verus! {

/// Fixed-point scale for voting weights. An account holding the whole supply
/// has weight `SCALE`; one holding a fraction of it has that fraction of
/// `SCALE`, rounded down. Every weight and every tally in the module is in
/// these units, so quorum and majority comparisons stay consistent.
pub const SCALE: u128 = 1_000_000_000_000;

/// The voting power of a balance against a total supply: the balance's share
/// of the supply, scaled by `SCALE` and rounded down.
pub open spec fn spec_weight(balance: Balance, total_supply: Balance) -> Weight
    recommends
        total_supply > 0,
{
    ((balance as int) * (SCALE as int) / (total_supply as int)) as Weight
}

/// What the weighting oracle yields for a given pair of external query
/// results: `QueryFailed` when either query came back empty, `ZeroSupply`
/// when the supply is zero, and the scaled weight otherwise.
pub open spec fn weight_outcome(balance: Option<Balance>, total_supply: Option<Balance>) -> Result<
    Weight,
    GovernorError,
> {
    match (balance, total_supply) {
        (Some(b), Some(ts)) => if ts == 0 {
            Err(GovernorError::ZeroSupply)
        } else {
            Ok(spec_weight(b, ts))
        },
        _ => Err(GovernorError::QueryFailed),
    }
}

/// The weighting oracle. It holds no state: it turns the asset contract's
/// answers to `balance_of` and `total_supply` — each `None` when the external
/// call failed or ran out of the host's resource budget — into a fixed-point
/// voting weight, guarding against a zero supply.
pub fn weight_of(balance: Option<Balance>, total_supply: Option<Balance>) -> (r: Result<
    Weight,
    GovernorError,
>)
    ensures
        r == weight_outcome(balance, total_supply),
{
    match (balance, total_supply) {
        (Some(b), Some(ts)) => {
            if ts == 0 {
                Err(GovernorError::ZeroSupply)
            } else {
                proof {
                    assert((b as int) * (SCALE as int) <= (u64::MAX as int) * (SCALE as int))
                        by (nonlinear_arith)
                        requires
                            b <= u64::MAX,
                    ;
                }
                Ok((b as u128) * SCALE / (ts as u128))
            }
        },
        _ => Err(GovernorError::QueryFailed),
    }
}

/// The least total weight the cast votes must reach for execution to be
/// eligible: `quorum` percent of the total possible voting power `SCALE`.
pub open spec fn spec_quorum_threshold(quorum: u8) -> int {
    (quorum as int) * (SCALE as int) / 100
}

/// Computes the quorum threshold (see `spec_quorum_threshold`).
pub fn quorum_threshold(quorum: u8) -> (t: u128)
    ensures
        t == spec_quorum_threshold(quorum),
{
    proof {
        assert((quorum as int) * (SCALE as int) <= 255 * (SCALE as int)) by (nonlinear_arith)
            requires
                quorum <= 255,
        ;
    }
    (quorum as u128) * SCALE / 100
}

/// Addition on tally accumulators, capped at `u128::MAX`.
pub open spec fn spec_sat_add(a: u128, b: u128) -> u128 {
    if a + b <= u128::MAX {
        (a + b) as u128
    } else {
        u128::MAX
    }
}

/// Saturating addition (see `spec_sat_add`): tallies never wrap.
pub fn sat_add(a: u128, b: u128) -> (r: u128)
    ensures
        r == spec_sat_add(a, b),
{
    if a <= u128::MAX - b {
        a + b
    } else {
        u128::MAX
    }
}

} // verus!
