use vstd::prelude::*;

verus! {

/// Basis points in a whole: a rate of 10,000 doubles the principal.
pub const BASIS_POINTS: u64 = 10000;

/// The reward on `principal` at `rate` basis points. The principal is divided
/// before it is multiplied, so whatever lies below a whole 10,000 earns nothing.
pub open spec fn reward_of(principal: nat, rate: nat) -> nat {
    (principal / (BASIS_POINTS as nat)) * rate
}

/// What a withdrawal pays out: the principal and its reward.
pub open spec fn payout_of(principal: nat, rate: nat) -> nat {
    principal + reward_of(principal, rate)
}

/// Whether the payout on `principal` at `rate` is a valid token amount.
pub open spec fn payout_fits(principal: nat, rate: nat) -> bool {
    payout_of(principal, rate) <= u64::MAX
}

/// The payout on `principal` at `rate` basis points, or `None` where it exceeds
/// the largest token amount.
pub fn payout_amount(principal: u64, rate: u64) -> (r: Option<u64>)
    ensures
        payout_fits(principal as nat, rate as nat) ==> r == Some(payout_of(principal as nat, rate as nat) as u64),
        !payout_fits(principal as nat, rate as nat) ==> r is None,
{
    let whole: u64 = principal / BASIS_POINTS;
    assert(whole as int * rate as int <= u64::MAX as int * u64::MAX as int) by (nonlinear_arith)
        requires whole <= u64::MAX, rate <= u64::MAX;
    let reward: u128 = (whole as u128) * (rate as u128);
    let total: u128 = (principal as u128) + reward;
    if total > u64::MAX as u128 {
        None
    } else {
        Some(total as u64)
    }
}

} // verus!
