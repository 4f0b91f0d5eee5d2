use vstd::prelude::*;

use crate::model::{
    change_percentage_model, change_percentage_result, initial_model, rate_of, records_kept,
    release_result, stake_model, unlock_time, well_formed, withdraw_model, withdraw_result,
    within_capacity, StorageModel,
};
use crate::reward::payout_fits;
use crate::types::{ErrorCode, Identity, Package};

verus! {

/// No package is ever over its capacity: a fresh ledger is well formed, and every
/// operation takes a well-formed ledger to a well-formed one, so each package's
/// locked total stays at most its maximum deposit.
pub proof fn lemma_capacity_invariant(
    m: StorageModel,
    packages: Seq<Package>,
    maintainer: Seq<u8>,
    staker: Identity,
    caller: Seq<u8>,
    package_index: u8,
    amount: u64,
    stake_id: u8,
    now: i64,
    percentage: u64,
)
    requires
        well_formed(m),
    ensures
        well_formed(initial_model(packages, maintainer)),
        within_capacity(m),
        well_formed(stake_model(m, staker, package_index, amount, now)),
        well_formed(withdraw_model(m, caller, stake_id, now)),
        well_formed(change_percentage_model(m, caller, package_index, percentage)),
{
    let m1 = stake_model(m, staker, package_index, amount, now);
    assert forall|k: int| 0 <= k < m1.logs.len() implies (#[trigger] m1.logs[k]).id == k
        && (m1.logs[k].package_index as int) < m1.packages.len() by {
        if k < m.logs.len() {
            assert(m1.logs[k] == m.logs[k]);
        }
    }
    let m2 = withdraw_model(m, caller, stake_id, now);
    assert forall|k: int| 0 <= k < m2.logs.len() implies (#[trigger] m2.logs[k]).id == k
        && (m2.logs[k].package_index as int) < m2.packages.len() by {
        assert(m2.logs[k].id == m.logs[k].id);
    }
}

/// A record goes from open to terminated at most once: no operation reopens a
/// record or changes anything else in it, and after a successful withdrawal a
/// second one of the same record fails, with `StakeAlreadyTerminated` for its
/// depositor.
pub proof fn lemma_terminal_monotonic(
    m: StorageModel,
    staker: Identity,
    caller: Seq<u8>,
    package_index: u8,
    amount: u64,
    stake_id: u8,
    now: i64,
    percentage: u64,
    other: Seq<u8>,
    later: i64,
)
    requires
        well_formed(m),
    ensures
        records_kept(m, stake_model(m, staker, package_index, amount, now)),
        records_kept(m, withdraw_model(m, caller, stake_id, now)),
        records_kept(m, change_percentage_model(m, caller, package_index, percentage)),
        withdraw_result(m, caller, stake_id, now) is Ok ==> {
            let after = withdraw_model(m, caller, stake_id, now);
            &&& after.logs[stake_id as int].terminated
            &&& withdraw_result(after, caller, stake_id, later) == Err::<u64, ErrorCode>(
                ErrorCode::StakeAlreadyTerminated,
            )
            &&& withdraw_result(after, other, stake_id, later) is Err
        },
{
}

/// The lock-time gate: an open record withdrawn by its depositor before its
/// opening time plus its package's period is refused with `InvalidLockTime`; at
/// or after that instant it is paid the principal plus
/// `floor(principal / 10000) * rate`, wherever that amount is a token amount.
pub proof fn lemma_lock_time_gate(m: StorageModel, caller: Seq<u8>, stake_id: u8, now: i64)
    requires
        well_formed(m),
        (stake_id as int) < m.logs.len(),
        m.logs[stake_id as int].staker@ == caller,
        !m.logs[stake_id as int].terminated,
    ensures
        now < unlock_time(m, m.logs[stake_id as int]) ==> withdraw_result(m, caller, stake_id, now)
            == Err::<u64, ErrorCode>(ErrorCode::InvalidLockTime),
        ({
            let log = m.logs[stake_id as int];
            let p = log.stake_amount as nat;
            let r = rate_of(m, log);
            now >= unlock_time(m, log) && payout_fits(p, r) ==> withdraw_result(m, caller, stake_id, now)
                == Ok::<u64, ErrorCode>((p + (p / 10000) * r) as u64)
        }),
{
}

/// Only the maintainer changes a rate or releases vault funds: for anyone else
/// both are refused with `NeedMaintainerRole` and the ledger is left as it was.
pub proof fn lemma_authorization_gate(
    m: StorageModel,
    caller: Seq<u8>,
    package_index: u8,
    percentage: u64,
    amount: u64,
)
    requires
        caller != m.maintainer,
    ensures
        change_percentage_result(m, caller, package_index) == Err::<(), ErrorCode>(
            ErrorCode::NeedMaintainerRole,
        ),
        change_percentage_model(m, caller, package_index, percentage) == m,
        release_result(m, caller, amount) == Err::<u64, ErrorCode>(ErrorCode::NeedMaintainerRole),
{
}

} // verus!
