use vstd::prelude::*;
use crate::pubkey::Pubkey;

verus! {

/// The persisted stake record of one (owner, asset) pair.
///
/// While `is_staked` holds, the asset sits in escrow and `release_date` is
/// `staked_at` plus the duration requested at stake time. After an unstake
/// the record keeps its times as history and may be staked again.
#[derive(Clone, Copy, Debug, PartialEq, Eq)]
pub struct StakeInfo {
    pub owner: Pubkey,
    pub mint: Pubkey,
    pub staked_at: i64,
    pub release_date: i64,
    pub is_staked: bool,
}

/// Emitted when an asset enters escrow.
#[derive(Clone, Copy, Debug, PartialEq, Eq)]
pub struct StakeEvent {
    pub owner: Pubkey,
    pub mint: Pubkey,
    pub staked_at: i64,
    pub release_date: i64,
}

/// Emitted when an asset leaves escrow; `was_early` tells whether the
/// release date had not yet come.
#[derive(Clone, Copy, Debug, PartialEq, Eq)]
pub struct UnstakeEvent {
    pub owner: Pubkey,
    pub mint: Pubkey,
    pub unstaked_at: i64,
    pub was_early: bool,
}

/// The record of a pair that has never been staked.
pub open spec fn fresh_record(owner: Pubkey, mint: Pubkey) -> StakeInfo {
    StakeInfo { owner, mint, staked_at: 0, release_date: 0, is_staked: false }
}

/// Well-formed records: a live stake never ends before it began.
pub open spec fn record_wf(s: StakeInfo) -> bool {
    s.is_staked ==> s.staked_at <= s.release_date
}

impl StakeInfo {
    /// A record for a pair that has never been staked: unstaked, times zero.
    pub fn new(owner: Pubkey, mint: Pubkey) -> (r: StakeInfo)
        ensures
            r == fresh_record(owner, mint),
    {
        StakeInfo { owner, mint, staked_at: 0, release_date: 0, is_staked: false }
    }
}

} // verus!
