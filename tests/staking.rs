use bluescrypto_staking::reward::payout_amount;
use bluescrypto_staking::storage::{
    change_percentage, default_packages, initialize, release_escrow, stake, withdraw,
    StakingStorage, MONTH_SECONDS,
};
use bluescrypto_staking::{ErrorCode, Identity, Package, StakeLog};

const PERIOD: i64 = 2_592_000;

fn id(b: u8) -> Identity {
    Identity { bytes: [b; 32] }
}

fn single_package(max: u64) -> StakingStorage {
    let packages = vec![Package::new(String::from("Pebble"), max, PERIOD, 20, 164)];
    initialize(packages, id(9))
}

#[test]
fn happy_path() {
    let a = id(1);
    let mut s = single_package(100_000_000);
    assert_eq!(stake(&mut s, a, 0, 1_000_000, 1_000), Ok(0));
    assert_eq!(s.packages()[0].total_locked_amount, 1_000_000);
    assert_eq!(s.stake_logs().len(), 1);
    assert_eq!(s.stake_logs()[0].id, 0);
    assert!(!s.stake_logs()[0].terminated);
    assert_eq!(withdraw(&mut s, &a, 0, 1_000 + PERIOD - 1), Err(ErrorCode::InvalidLockTime));
    assert!(!s.stake_logs()[0].terminated);
    assert_eq!(withdraw(&mut s, &a, 0, 1_000 + PERIOD), Ok(1_016_400));
    assert!(s.stake_logs()[0].terminated);
}

#[test]
fn capacity_exhaustion() {
    let a = id(1);
    let mut s = single_package(1_000_000);
    assert_eq!(stake(&mut s, a, 0, 1_000_000, 0), Ok(0));
    assert_eq!(stake(&mut s, a, 0, 1, 0), Err(ErrorCode::InvalidDepositAmount));
    assert_eq!(s.packages()[0].total_locked_amount, 1_000_000);
    assert_eq!(s.stake_logs().len(), 1);
}

#[test]
fn ownership_check() {
    let a = id(1);
    let b = id(2);
    let mut s = single_package(100_000_000);
    assert_eq!(stake(&mut s, a, 0, 500_000, 0), Ok(0));
    assert_eq!(withdraw(&mut s, &b, 0, PERIOD * 2), Err(ErrorCode::AccountNeverStaked));
    let log = s.stake_logs()[0];
    assert_eq!(log.staker.bytes, a.bytes);
    assert_eq!(log.stake_amount, 500_000);
    assert!(!log.terminated);
}

#[test]
fn reward_truncates_below_ten_thousand() {
    assert_eq!(payout_amount(1_000_000, 164), Some(1_016_400));
    assert_eq!(payout_amount(9_999, 10_000), Some(9_999));
    assert_eq!(payout_amount(19_999, 164), Some(19_999 + 164));
    assert_eq!(payout_amount(0, 164), Some(0));
}

#[test]
fn payout_overflow_is_none() {
    assert_eq!(payout_amount(u64::MAX, 1), None);
    assert_eq!(payout_amount(u64::MAX - 10_000, 0), Some(u64::MAX - 10_000));
}

#[test]
fn second_withdrawal_is_refused() {
    let a = id(1);
    let mut s = single_package(100_000_000);
    assert_eq!(stake(&mut s, a, 0, 20_000, 0), Ok(0));
    assert_eq!(withdraw(&mut s, &a, 0, PERIOD), Ok(20_000 + 2 * 164));
    assert_eq!(withdraw(&mut s, &a, 0, PERIOD + 5), Err(ErrorCode::StakeAlreadyTerminated));
    assert_eq!(withdraw(&mut s, &id(3), 0, PERIOD + 5), Err(ErrorCode::AccountNeverStaked));
    assert!(s.stake_logs()[0].terminated);
}

#[test]
fn withdraw_of_missing_stake() {
    let mut s = single_package(100);
    assert_eq!(withdraw(&mut s, &id(1), 0, 0), Err(ErrorCode::NonExistStake));
}

#[test]
fn stake_into_missing_package() {
    let mut s = single_package(100);
    assert_eq!(stake(&mut s, id(1), 1, 10, 0), Err(ErrorCode::InvalidPackageIndex));
    assert_eq!(s.check_stake(1, 10), Err(ErrorCode::InvalidPackageIndex));
    assert_eq!(s.stake_logs().len(), 0);
}

#[test]
fn ids_follow_ledger_order() {
    let mut s = initialize(default_packages(), id(9));
    assert_eq!(stake(&mut s, id(1), 2, 50, 0), Ok(0));
    assert_eq!(stake(&mut s, id(2), 0, 60, 0), Ok(1));
    assert_eq!(stake(&mut s, id(1), 2, 70, 0), Ok(2));
    assert_eq!(s.packages()[2].total_locked_amount, 120);
    assert_eq!(s.packages()[0].total_locked_amount, 60);
    let log: StakeLog = s.stake_logs()[2];
    assert_eq!(log.package_index, 2);
    assert_eq!(log.stake_amount, 70);
}

#[test]
fn ledger_full() {
    let mut s = single_package(u64::MAX);
    for i in 0..256u32 {
        assert_eq!(stake(&mut s, id(1), 0, 1, 0), Ok(i as u8));
    }
    assert_eq!(s.check_stake(0, 1), Err(ErrorCode::StakeLimitReached));
    assert_eq!(stake(&mut s, id(1), 0, 1, 0), Err(ErrorCode::StakeLimitReached));
    assert_eq!(s.stake_logs().len(), 256);
}

#[test]
fn withdraw_overflowing_payout() {
    let a = id(1);
    let mut s = single_package(u64::MAX);
    assert_eq!(change_percentage(&mut s, &id(9), 0, u64::MAX), Ok(()));
    assert_eq!(stake(&mut s, a, 0, 20_000, 0), Ok(0));
    assert_eq!(s.withdrawal_payout(&a, 0, PERIOD), Err(ErrorCode::ArithmeticOverflow));
    assert_eq!(withdraw(&mut s, &a, 0, PERIOD), Err(ErrorCode::ArithmeticOverflow));
    assert!(!s.stake_logs()[0].terminated);
}

#[test]
fn maintainer_changes_rate() {
    let a = id(1);
    let mut s = single_package(100_000_000);
    assert_eq!(stake(&mut s, a, 0, 1_000_000, 0), Ok(0));
    assert_eq!(change_percentage(&mut s, &id(9), 0, 500), Ok(()));
    assert_eq!(s.packages()[0].percentage, 500);
    assert_eq!(s.packages()[0].total_locked_amount, 1_000_000);
    assert_eq!(withdraw(&mut s, &a, 0, PERIOD), Ok(1_050_000));
}

#[test]
fn rate_change_out_of_range() {
    let mut s = single_package(100);
    assert_eq!(change_percentage(&mut s, &id(9), 3, 500), Err(ErrorCode::InvalidPackageIndex));
    assert_eq!(s.packages()[0].percentage, 164);
}

#[test]
fn non_maintainer_is_refused() {
    let mut s = single_package(100);
    assert_eq!(change_percentage(&mut s, &id(1), 0, 500), Err(ErrorCode::NeedMaintainerRole));
    assert_eq!(change_percentage(&mut s, &id(1), 7, 500), Err(ErrorCode::NeedMaintainerRole));
    assert_eq!(s.packages()[0].percentage, 164);
    assert_eq!(release_escrow(&s, &id(1), 10), Err(ErrorCode::NeedMaintainerRole));
    assert_eq!(release_escrow(&s, &id(9), 10), Ok(10));
    assert!(s.is_maintainer(&id(9)));
    assert!(!s.is_maintainer(&id(1)));
}

#[test]
fn identity_differs_in_one_byte() {
    let a = id(1);
    let mut b = id(1);
    b.bytes[31] = 2;
    assert!(a.same_as(&id(1)));
    assert!(!a.same_as(&b));
}

#[test]
fn initialize_clears_locked_totals() {
    let mut p = Package::new(String::from("Pebble"), 500, PERIOD, 20, 164);
    p.total_locked_amount = 400;
    let s = initialize(vec![p], id(9));
    assert_eq!(s.packages()[0].total_locked_amount, 0);
    assert_eq!(s.packages()[0].max_deposit_amount, 500);
    assert_eq!(s.packages()[0].name, "Pebble");
    assert_eq!(s.maintainer().bytes, [9u8; 32]);
    assert!(s.stake_logs().is_empty());
}

#[test]
fn standard_offers() {
    let p = default_packages();
    assert_eq!(p.len(), 3);
    assert_eq!(p[0].name, "BLUES Pebble Pounch");
    assert_eq!(p[1].name, "Blue Wheel Guild");
    assert_eq!(p[2].name, "Burrower's Bounty");
    assert_eq!(p[0].max_deposit_amount, 100_000_000_000_000_000);
    assert_eq!(p[1].period, 2 * MONTH_SECONDS);
    assert_eq!(p[2].period, 7_776_000);
    assert_eq!(p[2].percentage, 1109);
}

#[test]
fn parts_round_trip_and_rejection() {
    let mut s = single_package(1_000);
    assert_eq!(stake(&mut s, id(1), 0, 300, 0), Ok(0));
    let (packages, logs, maintainer) = s.into_parts();
    let s = StakingStorage::from_parts(packages.clone(), logs.clone(), maintainer).unwrap();
    assert_eq!(s.packages()[0].total_locked_amount, 300);
    assert_eq!(s.stake_logs().len(), 1);

    let mut over = packages.clone();
    over[0].total_locked_amount = 2_000;
    assert!(StakingStorage::from_parts(over, logs.clone(), maintainer).is_none());

    let mut bad_id = logs.clone();
    bad_id[0].id = 1;
    assert!(StakingStorage::from_parts(packages.clone(), bad_id, maintainer).is_none());

    let mut bad_index = logs.clone();
    bad_index[0].package_index = 1;
    assert!(StakingStorage::from_parts(packages, bad_index, maintainer).is_none());
}
