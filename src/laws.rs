use vstd::prelude::*;
use crate::error::StakeError;
use crate::program::{
    for_unstake, stake_error, staked, unstake_error, unstaked, StakeNft, UnstakeNft,
};

verus! {

/// A stake that goes through, followed at any later time by an unstake on the
/// same accounts, also goes through: the record is closed and both holding
/// accounts are as they were before the stake, so custody is back with the
/// owner.
pub proof fn lemma_stake_then_unstake(c: StakeNft, staking_period: u64, t_stake: i64, t_unstake: i64)
    requires
        stake_error(c, staking_period, t_stake) is None,
    ensures
        unstake_error(for_unstake(staked(c, staking_period, t_stake)), t_unstake) is None,
        !unstaked(for_unstake(staked(c, staking_period, t_stake))).stake_info.is_staked,
        unstaked(for_unstake(staked(c, staking_period, t_stake))).user_nft_account
            == c.user_nft_account,
        unstaked(for_unstake(staked(c, staking_period, t_stake))).escrow_nft_account
            == c.escrow_nft_account,
{
}

/// A live record's release date is its stake time plus the requested
/// duration, exactly.
pub proof fn lemma_release_is_exact(c: StakeNft, staking_period: u64, now: i64)
    requires
        stake_error(c, staking_period, now) is None,
    ensures
        staked(c, staking_period, now).stake_info.release_date
            == staked(c, staking_period, now).stake_info.staked_at + staking_period,
{
}

/// Staking a pair again while its record is live fails with `AlreadyStaked`,
/// whatever non-zero duration the second call asks for.
pub proof fn lemma_restake_rejected(
    c: StakeNft,
    first_period: u64,
    t_first: i64,
    second_period: u64,
    t_second: i64,
)
    requires
        stake_error(c, first_period, t_first) is None,
        second_period > 0,
    ensures
        stake_error(staked(c, first_period, t_first), second_period, t_second)
            == Some(StakeError::AlreadyStaked),
{
}

/// An unstake of a live record by anyone but its recorded owner fails with
/// `Unauthorized`.
pub proof fn lemma_foreign_unstake_rejected(c: UnstakeNft, now: i64)
    requires
        c.stake_info.is_staked,
        c.stake_info.mint@ == c.nft_mint@,
        c.stake_info.owner@ != c.owner@,
    ensures
        unstake_error(c, now) == Some(StakeError::Unauthorized),
{
}

/// A zero duration always fails with `InvalidStakingPeriod`.
pub proof fn lemma_zero_period_rejected(c: StakeNft, now: i64)
    ensures
        stake_error(c, 0, now) == Some(StakeError::InvalidStakingPeriod),
{
}

} // verus!
