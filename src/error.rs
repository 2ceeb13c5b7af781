use vstd::prelude::*;

verus! {

/// Why a stake or unstake operation was refused.
#[derive(Clone, Copy, Debug, PartialEq, Eq, Structural)]
pub enum StakeError {
    /// The caller is not the owner recorded for the stake.
    Unauthorized,
    /// The record is already in the staked state.
    AlreadyStaked,
    /// There is no live stake for this owner and asset.
    NotStaked,
    /// The requested lock duration is zero.
    InvalidStakingPeriod,
    /// The release time does not fit in a timestamp.
    Overflow,
    /// The custody transfer could not move the asset.
    TransferFailure,
}

} // verus!
