use vstd::prelude::*;

use crate::reward::{payout_fits, payout_of};
use crate::types::{ErrorCode, Identity, Package, StakeLog};

verus! {

/// How many records the stake ledger can hold: ids are one byte.
pub const MAX_STAKE_LOGS: usize = 256;

/// The ledger as a mathematical value: the package registry, the stake records
/// in the order they were made, and the maintainer's key bytes.
pub ghost struct StorageModel {
    pub packages: Seq<Package>,
    pub logs: Seq<StakeLog>,
    pub maintainer: Seq<u8>,
}

/// No package holds more than its capacity.
pub open spec fn within_capacity(m: StorageModel) -> bool {
    forall|i: int|
        0 <= i < m.packages.len() ==> #[trigger] m.packages[i].total_locked_amount
            <= m.packages[i].max_deposit_amount
}

/// What holds of every ledger: no package is over its capacity, each record's id
/// is its position, and each record names a package of the registry.
pub open spec fn well_formed(m: StorageModel) -> bool {
    &&& m.logs.len() <= MAX_STAKE_LOGS
    &&& within_capacity(m)
    &&& forall|k: int|
        0 <= k < m.logs.len() ==> (#[trigger] m.logs[k]).id == k && (m.logs[k].package_index as int)
            < m.packages.len()
}

/// The ledger right after initialization: the given offers with nothing locked,
/// no stake records, and the given maintainer.
pub open spec fn initial_model(packages: Seq<Package>, maintainer: Seq<u8>) -> StorageModel {
    StorageModel {
        packages: Seq::new(
            packages.len(),
            |i: int| Package { total_locked_amount: 0, ..packages[i] },
        ),
        logs: Seq::empty(),
        maintainer,
    }
}

/// Whether a deposit of `amount` into package `package_index` is accepted, and
/// if not, the first check that refuses it.
pub open spec fn stake_check(m: StorageModel, package_index: u8, amount: u64) -> Result<(), ErrorCode> {
    let i = package_index as int;
    if i >= m.packages.len() {
        Err(ErrorCode::InvalidPackageIndex)
    } else if m.packages[i].total_locked_amount + amount > m.packages[i].max_deposit_amount {
        Err(ErrorCode::InvalidDepositAmount)
    } else if m.logs.len() >= MAX_STAKE_LOGS {
        Err(ErrorCode::StakeLimitReached)
    } else {
        Ok(())
    }
}

/// What a deposit returns: the id of the new record.
pub open spec fn stake_result(m: StorageModel, package_index: u8, amount: u64) -> Result<u8, ErrorCode> {
    match stake_check(m, package_index, amount) {
        Ok(_) => Ok(m.logs.len() as u8),
        Err(e) => Err(e),
    }
}

/// The record that an accepted deposit appends.
pub open spec fn new_stake_log(m: StorageModel, staker: Identity, package_index: u8, amount: u64, now: i64) -> StakeLog {
    StakeLog {
        id: m.logs.len() as u8,
        staker,
        package_index,
        stake_amount: amount,
        stake_timestamp: now,
        terminated: false,
    }
}

/// The ledger after a deposit: on acceptance the package's locked total grows by
/// `amount` and a new open record is appended; on refusal nothing changes.
pub open spec fn stake_model(m: StorageModel, staker: Identity, package_index: u8, amount: u64, now: i64) -> StorageModel {
    let i = package_index as int;
    if stake_check(m, package_index, amount) is Ok {
        StorageModel {
            packages: m.packages.update(
                i,
                Package {
                    total_locked_amount: (m.packages[i].total_locked_amount + amount) as u64,
                    ..m.packages[i]
                },
            ),
            logs: m.logs.push(new_stake_log(m, staker, package_index, amount, now)),
            maintainer: m.maintainer,
        }
    } else {
        m
    }
}

/// The first instant at which the record may be withdrawn.
pub open spec fn unlock_time(m: StorageModel, log: StakeLog) -> int {
    log.stake_timestamp + m.packages[log.package_index as int].period
}

/// The rate that a withdrawal of the record is paid at: its package's current one.
pub open spec fn rate_of(m: StorageModel, log: StakeLog) -> nat {
    m.packages[log.package_index as int].percentage as nat
}

/// What a withdrawal of record `stake_id` by `caller` at time `now` returns: the
/// payout, or the first check that refuses it.
pub open spec fn withdraw_result(m: StorageModel, caller: Seq<u8>, stake_id: u8, now: i64) -> Result<u64, ErrorCode> {
    let k = stake_id as int;
    if k >= m.logs.len() {
        Err(ErrorCode::NonExistStake)
    } else if m.logs[k].staker@ != caller {
        Err(ErrorCode::AccountNeverStaked)
    } else if m.logs[k].terminated {
        Err(ErrorCode::StakeAlreadyTerminated)
    } else if now < unlock_time(m, m.logs[k]) {
        Err(ErrorCode::InvalidLockTime)
    } else if !payout_fits(m.logs[k].stake_amount as nat, rate_of(m, m.logs[k])) {
        Err(ErrorCode::ArithmeticOverflow)
    } else {
        Ok(payout_of(m.logs[k].stake_amount as nat, rate_of(m, m.logs[k])) as u64)
    }
}

/// The ledger after a withdrawal: on success the record is marked terminated; on
/// refusal nothing changes.
pub open spec fn withdraw_model(m: StorageModel, caller: Seq<u8>, stake_id: u8, now: i64) -> StorageModel {
    let k = stake_id as int;
    if withdraw_result(m, caller, stake_id, now) is Ok {
        StorageModel { logs: m.logs.update(k, StakeLog { terminated: true, ..m.logs[k] }), ..m }
    } else {
        m
    }
}

/// What a release of `amount` from the vault returns: the amount to move, for the
/// maintainer alone.
pub open spec fn release_result(m: StorageModel, caller: Seq<u8>, amount: u64) -> Result<u64, ErrorCode> {
    if caller == m.maintainer {
        Ok(amount)
    } else {
        Err(ErrorCode::NeedMaintainerRole)
    }
}

/// Whether a change of package `package_index`'s rate by `caller` is accepted.
pub open spec fn change_percentage_result(m: StorageModel, caller: Seq<u8>, package_index: u8) -> Result<(), ErrorCode> {
    if caller != m.maintainer {
        Err(ErrorCode::NeedMaintainerRole)
    } else if package_index as int >= m.packages.len() {
        Err(ErrorCode::InvalidPackageIndex)
    } else {
        Ok(())
    }
}

/// The ledger after a change of rate: on acceptance the package's rate is
/// `percentage`; on refusal nothing changes.
pub open spec fn change_percentage_model(m: StorageModel, caller: Seq<u8>, package_index: u8, percentage: u64) -> StorageModel {
    let i = package_index as int;
    if change_percentage_result(m, caller, package_index) is Ok {
        StorageModel {
            packages: m.packages.update(i, Package { percentage, ..m.packages[i] }),
            ..m
        }
    } else {
        m
    }
}

/// How the records of `m` stand in `m2`: all are still there, and each is
/// unchanged or has gone from open to terminated, its other fields kept.
pub open spec fn records_kept(m: StorageModel, m2: StorageModel) -> bool {
    &&& m.logs.len() <= m2.logs.len()
    &&& forall|k: int|
        0 <= k < m.logs.len() ==> #[trigger] m2.logs[k] == m.logs[k] || (!m.logs[k].terminated
            && m2.logs[k] == StakeLog { terminated: true, ..m.logs[k] })
}

} // verus!
