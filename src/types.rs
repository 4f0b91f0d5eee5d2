use vstd::prelude::*;

verus! {

/// The identity of an account: the 32 bytes of its public key.
#[derive(Clone, Copy, Debug)]
pub struct Identity {
    pub bytes: [u8; 32],
}

impl View for Identity {
    type V = Seq<u8>;

    open spec fn view(&self) -> Seq<u8> {
        self.bytes@
    }
}

impl Identity {
    /// Whether `self` and `other` are the same identity, byte for byte.
    pub fn same_as(&self, other: &Identity) -> (r: bool)
        ensures
            r == (self@ == other@),
    {
        let mut i: usize = 0;
        while i < 32
            invariant
                0 <= i <= 32,
                forall|k: int| 0 <= k < i ==> self.bytes@[k] == other.bytes@[k],
            decreases 32 - i,
        {
            if self.bytes[i] != other.bytes[i] {
                return false;
            }
            i = i + 1;
        }
        assert(self@ =~= other@);
        true
    }
}


/// A staking offer: a capacity cap, a lock duration and a reward rate.
#[derive(Clone, Debug)]
pub struct Package {
    /// Display label.
    pub name: String,
    /// Upper bound on the amount locked in this package.
    pub max_deposit_amount: u64,
    /// Sum of the deposits made into this package.
    pub total_locked_amount: u64,
    /// Lock duration, in seconds.
    pub period: i64,
    /// Advertised yearly rate, informational only.
    pub apr: u64,
    /// Reward rate in basis points (parts per 10,000) of the principal.
    pub percentage: u64,
}

impl Package {
    /// A package with nothing locked in it yet.
    pub fn new(name: String, max_deposit_amount: u64, period: i64, apr: u64, percentage: u64) -> (r: Package)
        ensures
            r.name == name,
            r.max_deposit_amount == max_deposit_amount,
            r.total_locked_amount == 0,
            r.period == period,
            r.apr == apr,
            r.percentage == percentage,
    {
        Package { name, max_deposit_amount, total_locked_amount: 0, period, apr, percentage }
    }
}

/// One deposit into a package, and whether it has been withdrawn.
#[derive(Clone, Copy, Debug)]
pub struct StakeLog {
    /// Position of this record in the ledger.
    pub id: u8,
    /// The depositor.
    pub staker: Identity,
    /// The package the deposit went into.
    pub package_index: u8,
    /// The principal.
    pub stake_amount: u64,
    /// When the deposit was made, in seconds.
    pub stake_timestamp: i64,
    /// Set once, when the principal and reward are paid out.
    pub terminated: bool,
}

/// Why an operation was refused. A refused operation changes nothing.
#[derive(Clone, Copy, Debug, PartialEq, Eq, Structural)]
pub enum ErrorCode {
    /// The package index is outside the registry.
    InvalidPackageIndex,
    /// The stake id is outside the ledger.
    NonExistStake,
    /// The deposit would take the package over its capacity.
    InvalidDepositAmount,
    /// The caller is not the depositor of the stake.
    AccountNeverStaked,
    /// The lock period of the stake has not elapsed yet.
    InvalidLockTime,
    /// The stake has already been withdrawn.
    StakeAlreadyTerminated,
    /// Only the maintainer may do this.
    NeedMaintainerRole,
    /// The ledger holds as many records as one-byte ids can number.
    StakeLimitReached,
    /// The payout does not fit in a token amount.
    ArithmeticOverflow,
}

} // verus!
