use vstd::prelude::*;
use vstd::string::StringExecFns;

use crate::model::{
    change_percentage_model, change_percentage_result, initial_model, release_result,
    stake_check, stake_model, stake_result, well_formed, withdraw_model,
    withdraw_result, StorageModel, MAX_STAKE_LOGS,
};
use crate::reward::payout_amount;
use crate::types::{ErrorCode, Identity, Package, StakeLog};

verus! {

/// The ledger: the package registry, the stake records and the maintainer.
pub struct StakingStorage {
    packages: Vec<Package>,
    stake_logs: Vec<StakeLog>,
    maintainer: Identity,
}

impl View for StakingStorage {
    type V = StorageModel;

    closed spec fn view(&self) -> StorageModel {
        StorageModel { packages: self.packages@, logs: self.stake_logs@, maintainer: self.maintainer@ }
    }
}

impl StakingStorage {
    #[verifier::type_invariant]
    spec fn inv(&self) -> bool {
        well_formed(self@)
    }

    /// Moves the registry, the records and the maintainer out, leaving an empty
    /// ledger behind.
    fn take_parts(&mut self) -> (r: (Vec<Package>, Vec<StakeLog>, Identity))
        ensures
            r.0@ == old(self)@.packages,
            r.1@ == old(self)@.logs,
            r.2@ == old(self)@.maintainer,
            well_formed(old(self)@),
    {
        proof { use_type_invariant(&*self); }
        let mut parts = StakingStorage { packages: Vec::new(), stake_logs: Vec::new(), maintainer: self.maintainer };
        std::mem::swap(self, &mut parts);
        let StakingStorage { packages, stake_logs, maintainer } = parts;
        (packages, stake_logs, maintainer)
    }

    /// A ledger made of the given registry, records and maintainer, where they are
    /// well formed; `None` where they are not.
    pub fn from_parts(packages: Vec<Package>, stake_logs: Vec<StakeLog>, maintainer: Identity) -> (r: Option<StakingStorage>)
        ensures
            r is Some <==> well_formed(StorageModel { packages: packages@, logs: stake_logs@, maintainer: maintainer@ }),
            r matches Some(s) ==> s@ == (StorageModel { packages: packages@, logs: stake_logs@, maintainer: maintainer@ }),
    {
        let ghost m = StorageModel { packages: packages@, logs: stake_logs@, maintainer: maintainer@ };
        if stake_logs.len() > MAX_STAKE_LOGS {
            return None;
        }
        let mut i: usize = 0;
        while i < packages.len()
            invariant
                m == (StorageModel { packages: packages@, logs: stake_logs@, maintainer: maintainer@ }),
                i <= packages@.len(),
                forall|j: int| 0 <= j < i ==> #[trigger] packages@[j].total_locked_amount <= packages@[j].max_deposit_amount,
            decreases packages@.len() - i,
        {
            if packages[i].total_locked_amount > packages[i].max_deposit_amount {
                assert(m.packages[i as int].total_locked_amount > m.packages[i as int].max_deposit_amount);
                return None;
            }
            i = i + 1;
        }
        let mut k: usize = 0;
        while k < stake_logs.len()
            invariant
                m == (StorageModel { packages: packages@, logs: stake_logs@, maintainer: maintainer@ }),
                k <= stake_logs@.len() <= MAX_STAKE_LOGS,
                forall|j: int|
                    0 <= j < k ==> (#[trigger] stake_logs@[j]).id == j && (stake_logs@[j].package_index as int)
                        < packages@.len(),
            decreases stake_logs@.len() - k,
        {
            let log = &stake_logs[k];
            if log.id as usize != k || log.package_index as usize >= packages.len() {
                assert(m.logs[k as int] == *log);
                return None;
            }
            k = k + 1;
        }
        Some(StakingStorage { packages, stake_logs, maintainer })
    }

    /// The registry, the records and the maintainer, moved out of the ledger.
    pub fn into_parts(self) -> (r: (Vec<Package>, Vec<StakeLog>, Identity))
        ensures
            r.0@ == self@.packages,
            r.1@ == self@.logs,
            r.2@ == self@.maintainer,
    {
        let StakingStorage { packages, stake_logs, maintainer } = self;
        (packages, stake_logs, maintainer)
    }

    /// The package registry.
    pub fn packages(&self) -> (r: &Vec<Package>)
        ensures
            r@ == self@.packages,
    {
        &self.packages
    }

    /// The stake records, in the order they were made.
    pub fn stake_logs(&self) -> (r: &Vec<StakeLog>)
        ensures
            r@ == self@.logs,
    {
        &self.stake_logs
    }

    /// The identity allowed to change rates and release vault funds.
    pub fn maintainer(&self) -> (r: Identity)
        ensures
            r@ == self@.maintainer,
    {
        self.maintainer
    }

    /// Whether `identity` is the maintainer.
    pub fn is_maintainer(&self, identity: &Identity) -> (r: bool)
        ensures
            r == (identity@ == self@.maintainer),
    {
        identity.same_as(&self.maintainer)
    }

    /// Whether a deposit of `deposit_amount` into package `package_index` would be
    /// accepted, and if not, the first check that refuses it. Changes nothing.
    pub fn check_stake(&self, package_index: u8, deposit_amount: u64) -> (r: Result<(), ErrorCode>)
        ensures
            r == stake_check(self@, package_index, deposit_amount),
    {
        proof { use_type_invariant(self); }
        let i = package_index as usize;
        if i >= self.packages.len() {
            return Err(ErrorCode::InvalidPackageIndex);
        }
        let package = &self.packages[i];
        if deposit_amount > package.max_deposit_amount - package.total_locked_amount {
            return Err(ErrorCode::InvalidDepositAmount);
        }
        if self.stake_logs.len() >= MAX_STAKE_LOGS {
            return Err(ErrorCode::StakeLimitReached);
        }
        Ok(())
    }

    /// The payout that withdrawing record `stake_id` would bring `caller` at time
    /// `now`, or the first check that refuses it. Changes nothing.
    pub fn withdrawal_payout(&self, caller: &Identity, stake_id: u8, now: i64) -> (r: Result<u64, ErrorCode>)
        ensures
            r == withdraw_result(self@, caller@, stake_id, now),
    {
        proof { use_type_invariant(self); }
        let k = stake_id as usize;
        if k >= self.stake_logs.len() {
            return Err(ErrorCode::NonExistStake);
        }
        let log = &self.stake_logs[k];
        if !log.staker.same_as(caller) {
            return Err(ErrorCode::AccountNeverStaked);
        }
        if log.terminated {
            return Err(ErrorCode::StakeAlreadyTerminated);
        }
        let package = &self.packages[log.package_index as usize];
        let unlock: i128 = (log.stake_timestamp as i128) + (package.period as i128);
        if (now as i128) < unlock {
            return Err(ErrorCode::InvalidLockTime);
        }
        match payout_amount(log.stake_amount, package.percentage) {
            Some(payout) => Ok(payout),
            None => Err(ErrorCode::ArithmeticOverflow),
        }
    }
}

/// Withdraws record `stake_id` for `caller` at time `now`: checks that the record
/// exists, belongs to `caller`, is open and has served its lock period, then marks
/// it terminated and returns the principal plus reward to pay out. The caller
/// moves that amount out of the vault before this commit.
pub fn withdraw(storage: &mut StakingStorage, caller: &Identity, stake_id: u8, now: i64) -> (r: Result<u64, ErrorCode>)
    ensures
        r == withdraw_result(old(storage)@, caller@, stake_id, now),
        final(storage)@ == withdraw_model(old(storage)@, caller@, stake_id, now),
{
    let payout = storage.withdrawal_payout(caller, stake_id, now);
    if payout.is_ok() {
        let (packages, mut stake_logs, maintainer) = storage.take_parts();
        let k = stake_id as usize;
        let mut log = stake_logs[k];
        log.terminated = true;
        stake_logs.set(k, log);
        *storage = StakingStorage { packages, stake_logs, maintainer };
        assert(storage@.logs =~= withdraw_model(old(storage)@, caller@, stake_id, now).logs);
    }
    payout
}

/// Deposits `deposit_amount` of `staker` into package `package_index` at time
/// `now`: checks that the package exists and has room for the amount, then adds
/// the amount to the package's locked total and appends an open record whose id
/// is its position. Returns that id. The caller moves the amount into the vault
/// between the check and this commit.
pub fn stake(
    storage: &mut StakingStorage,
    staker: Identity,
    package_index: u8,
    deposit_amount: u64,
    now: i64,
) -> (r: Result<u8, ErrorCode>)
    ensures
        r == stake_result(old(storage)@, package_index, deposit_amount),
        final(storage)@ == stake_model(old(storage)@, staker, package_index, deposit_amount, now),
{
    match storage.check_stake(package_index, deposit_amount) {
        Err(e) => return Err(e),
        Ok(()) => {},
    }
    let (mut packages, mut stake_logs, maintainer) = storage.take_parts();
    let i = package_index as usize;
    let id = stake_logs.len() as u8;
    let current = &packages[i];
    let updated = Package {
        name: current.name.clone(),
        max_deposit_amount: current.max_deposit_amount,
        total_locked_amount: current.total_locked_amount + deposit_amount,
        period: current.period,
        apr: current.apr,
        percentage: current.percentage,
    };
    packages.set(i, updated);
    stake_logs.push(
        StakeLog {
            id,
            staker,
            package_index,
            stake_amount: deposit_amount,
            stake_timestamp: now,
            terminated: false,
        },
    );
    proof {
        let m = old(storage)@;
        let goal = stake_model(m, staker, package_index, deposit_amount, now);
        assert(packages@ =~= goal.packages);
        assert(stake_logs@ =~= goal.logs);
    }
    *storage = StakingStorage { packages, stake_logs, maintainer };
    Ok(id)
}

/// Sets package `package_index`'s reward rate to `percentage` basis points, for
/// the maintainer alone. Stakes still open are paid at the rate current when they
/// are withdrawn.
pub fn change_percentage(
    storage: &mut StakingStorage,
    caller: &Identity,
    package_index: u8,
    percentage: u64,
) -> (r: Result<(), ErrorCode>)
    ensures
        r == change_percentage_result(old(storage)@, caller@, package_index),
        final(storage)@ == change_percentage_model(old(storage)@, caller@, package_index, percentage),
{
    if !storage.is_maintainer(caller) {
        return Err(ErrorCode::NeedMaintainerRole);
    }
    let i = package_index as usize;
    if i >= storage.packages.len() {
        return Err(ErrorCode::InvalidPackageIndex);
    }
    let (mut packages, stake_logs, maintainer) = storage.take_parts();
    let current = &packages[i];
    let updated = Package {
        name: current.name.clone(),
        max_deposit_amount: current.max_deposit_amount,
        total_locked_amount: current.total_locked_amount,
        period: current.period,
        apr: current.apr,
        percentage,
    };
    packages.set(i, updated);
    proof {
        let goal = change_percentage_model(old(storage)@, caller@, package_index, percentage);
        assert(packages@ =~= goal.packages);
    }
    *storage = StakingStorage { packages, stake_logs, maintainer };
    Ok(())
}

/// Authorizes a release of `release_amount` from the vault, for the maintainer
/// alone, and returns the amount to move. Nothing bounds it by what is owed to
/// stakers.
pub fn release_escrow(storage: &StakingStorage, caller: &Identity, release_amount: u64) -> (r: Result<u64, ErrorCode>)
    ensures
        r == release_result(storage@, caller@, release_amount),
{
    if storage.is_maintainer(caller) {
        Ok(release_amount)
    } else {
        Err(ErrorCode::NeedMaintainerRole)
    }
}

/// A ledger offering `packages`, each with nothing locked yet, with no stake
/// records and with `maintainer` as the one identity allowed to change rates and
/// release vault funds.
pub fn initialize(packages: Vec<Package>, maintainer: Identity) -> (r: StakingStorage)
    ensures
        r@ == initial_model(packages@, maintainer@),
        well_formed(r@),
{
    let mut registry: Vec<Package> = Vec::new();
    let mut i: usize = 0;
    while i < packages.len()
        invariant
            i <= packages@.len(),
            registry@.len() == i,
            forall|j: int| 0 <= j < i ==> #[trigger] registry@[j] == (Package { total_locked_amount: 0, ..packages@[j] }),
        decreases packages@.len() - i,
    {
        let p = &packages[i];
        registry.push(
            Package {
                name: p.name.clone(),
                max_deposit_amount: p.max_deposit_amount,
                total_locked_amount: 0,
                period: p.period,
                apr: p.apr,
                percentage: p.percentage,
            },
        );
        i = i + 1;
    }
    assert(registry@ =~= initial_model(packages@, maintainer@).packages);
    StakingStorage { packages: registry, stake_logs: Vec::new(), maintainer }
}

/// Token units in one whole token.
pub const TOKEN_UNIT: u64 = 1_000_000_000;

/// Seconds in the thirty-day month that lock periods are counted in.
pub const MONTH_SECONDS: i64 = 60 * 60 * 24 * 30;

/// The three standard offers: one, two and three months, paying 164, 493 and
/// 1109 basis points, with room for 100, 75 and 50 million whole tokens.
pub fn default_packages() -> (r: Vec<Package>)
    ensures
        r@.len() == 3,
        r@[0].name@ == "BLUES Pebble Pounch"@,
        r@[1].name@ == "Blue Wheel Guild"@,
        r@[2].name@ == "Burrower's Bounty"@,
        r@[0].max_deposit_amount == 100_000_000 * TOKEN_UNIT,
        r@[1].max_deposit_amount == 75_000_000 * TOKEN_UNIT,
        r@[2].max_deposit_amount == 50_000_000 * TOKEN_UNIT,
        r@[0].period == MONTH_SECONDS,
        r@[1].period == 2 * MONTH_SECONDS,
        r@[2].period == 3 * MONTH_SECONDS,
        r@[0].apr == 20 && r@[1].apr == 30 && r@[2].apr == 45,
        r@[0].percentage == 164 && r@[1].percentage == 493 && r@[2].percentage == 1109,
        forall|i: int| 0 <= i < 3 ==> #[trigger] r@[i].total_locked_amount == 0,
{
    let mut r: Vec<Package> = Vec::new();
    r.push(Package::new(String::from_str("BLUES Pebble Pounch"), 100_000_000 * TOKEN_UNIT, MONTH_SECONDS, 20, 164));
    r.push(Package::new(String::from_str("Blue Wheel Guild"), 75_000_000 * TOKEN_UNIT, 2 * MONTH_SECONDS, 30, 493));
    r.push(Package::new(String::from_str("Burrower's Bounty"), 50_000_000 * TOKEN_UNIT, 3 * MONTH_SECONDS, 45, 1109));
    r
}

} // verus!
