//! A staking ledger: depositors lock token amounts into time-boxed packages and
//! receive their principal plus a fixed basis-point reward once the lock period
//! has elapsed. The token transfers and the clock are supplied by the caller; this
//! crate decides what each operation does to the ledger and what it asks to move.

pub mod laws;
pub mod model;
pub mod reward;
pub mod storage;
pub mod types;

pub use storage::{
    change_percentage, initialize, release_escrow, stake, withdraw, StakingStorage,
};
pub use types::{ErrorCode, Identity, Package, StakeLog};
