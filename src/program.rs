use vstd::prelude::*;
use crate::custody::{can_transfer, credited, debited, transfer_one, TokenAccount};
use crate::error::StakeError;
use crate::policy::{classify, compute_release, release_fits, ReleaseTiming};
use crate::pubkey::Pubkey;
use crate::state::{record_wf, StakeEvent, StakeInfo, UnstakeEvent};

verus! {

/// The accounts of the program's initialisation.
#[derive(Clone, Copy, Debug, PartialEq, Eq)]
pub struct Initialize {
    pub program_id: Pubkey,
}

/// Initialisation changes nothing; it only succeeds.
pub fn initialize(ctx: &Initialize) -> (r: Result<(), StakeError>)
    ensures
        r is Ok,
{
    Ok(())
}

/// The accounts a stake works on. `owner` is the authenticated caller.
#[derive(Clone, Copy, Debug, PartialEq, Eq)]
pub struct StakeNft {
    pub owner: Pubkey,
    pub nft_mint: Pubkey,
    pub user_nft_account: TokenAccount,
    pub escrow_nft_account: TokenAccount,
    pub escrow_authority: Pubkey,
    pub stake_info: StakeInfo,
}

/// The accounts an unstake works on. `owner` is the authenticated caller.
#[derive(Clone, Copy, Debug, PartialEq, Eq)]
pub struct UnstakeNft {
    pub owner: Pubkey,
    pub nft_mint: Pubkey,
    pub user_nft_account: TokenAccount,
    pub escrow_nft_account: TokenAccount,
    pub escrow_authority: Pubkey,
    pub stake_info: StakeInfo,
}

/// Why a stake of `staking_period` at `now` is refused, checked in order, or
/// `None` when it goes through.
pub open spec fn stake_error(c: StakeNft, staking_period: u64, now: i64) -> Option<StakeError> {
    if staking_period == 0 {
        Some(StakeError::InvalidStakingPeriod)
    } else if c.stake_info.is_staked {
        Some(StakeError::AlreadyStaked)
    } else if !release_fits(now as int, staking_period as int) {
        Some(StakeError::Overflow)
    } else if !can_transfer(
        c.user_nft_account,
        c.escrow_nft_account,
        c.nft_mint,
        c.owner,
        c.escrow_authority,
    ) {
        Some(StakeError::TransferFailure)
    } else {
        None
    }
}

/// The record a successful stake writes.
pub open spec fn staked_record(c: StakeNft, staking_period: u64, now: i64) -> StakeInfo {
    StakeInfo {
        owner: c.owner,
        mint: c.nft_mint,
        staked_at: now,
        release_date: (now + staking_period) as i64,
        is_staked: true,
    }
}

/// The accounts after a successful stake: one unit moved into escrow and the
/// record live.
pub open spec fn staked(c: StakeNft, staking_period: u64, now: i64) -> StakeNft {
    StakeNft {
        user_nft_account: debited(c.user_nft_account),
        escrow_nft_account: credited(c.escrow_nft_account),
        stake_info: staked_record(c, staking_period, now),
        ..c
    }
}

/// Why an unstake at `now` is refused, checked in order, or `None` when it
/// goes through.
pub open spec fn unstake_error(c: UnstakeNft, now: i64) -> Option<StakeError> {
    if !c.stake_info.is_staked || c.stake_info.mint@ != c.nft_mint@ {
        Some(StakeError::NotStaked)
    } else if c.stake_info.owner@ != c.owner@ {
        Some(StakeError::Unauthorized)
    } else if !can_transfer(
        c.escrow_nft_account,
        c.user_nft_account,
        c.nft_mint,
        c.escrow_authority,
        c.owner,
    ) {
        Some(StakeError::TransferFailure)
    } else {
        None
    }
}

/// The accounts after a successful unstake: the unit back with the owner and
/// the record closed, its times kept.
pub open spec fn unstaked(c: UnstakeNft) -> UnstakeNft {
    UnstakeNft {
        escrow_nft_account: debited(c.escrow_nft_account),
        user_nft_account: credited(c.user_nft_account),
        stake_info: StakeInfo { is_staked: false, ..c.stake_info },
        ..c
    }
}

/// The event a successful unstake at `now` emits.
pub open spec fn unstake_event(c: UnstakeNft, now: i64) -> UnstakeEvent {
    UnstakeEvent {
        owner: c.owner,
        mint: c.nft_mint,
        unstaked_at: now,
        was_early: now < c.stake_info.release_date,
    }
}

/// The same accounts, presented for an unstake.
pub open spec fn for_unstake(c: StakeNft) -> UnstakeNft {
    UnstakeNft {
        owner: c.owner,
        nft_mint: c.nft_mint,
        user_nft_account: c.user_nft_account,
        escrow_nft_account: c.escrow_nft_account,
        escrow_authority: c.escrow_authority,
        stake_info: c.stake_info,
    }
}

/// Locks one unit of `nft_mint` in escrow for `staking_period` from `now`.
///
/// The checks run in order: a zero period, a live record, an overflowing
/// release time, a custody transfer that cannot go. The first that fails is
/// returned and nothing changes. Otherwise the unit moves into escrow, the
/// record becomes live with `release_date == now + staking_period`, and the
/// stake event is returned.
pub fn stake_nft(ctx: &mut StakeNft, staking_period: u64, now: i64) -> (r: Result<
    StakeEvent,
    StakeError,
>)
    ensures
        match r {
            Ok(e) => {
                &&& stake_error(*old(ctx), staking_period, now) is None
                &&& *final(ctx) == staked(*old(ctx), staking_period, now)
                &&& final(ctx).stake_info.release_date == now + staking_period
                &&& record_wf(final(ctx).stake_info)
                &&& e == (StakeEvent {
                    owner: old(ctx).owner,
                    mint: old(ctx).nft_mint,
                    staked_at: now,
                    release_date: final(ctx).stake_info.release_date,
                })
            },
            Err(err) => {
                &&& stake_error(*old(ctx), staking_period, now) == Some(err)
                &&& *final(ctx) == *old(ctx)
            },
        },
{
    if staking_period == 0 {
        return Err(StakeError::InvalidStakingPeriod);
    }
    if ctx.stake_info.is_staked {
        return Err(StakeError::AlreadyStaked);
    }
    let release_date = match compute_release(now, staking_period) {
        Ok(t) => t,
        Err(e) => return Err(e),
    };
    // Stage the record; it is written only once custody has moved.
    let record = StakeInfo {
        owner: ctx.owner,
        mint: ctx.nft_mint,
        staked_at: now,
        release_date,
        is_staked: true,
    };
    let mint = ctx.nft_mint;
    let authority = ctx.owner;
    let recipient = ctx.escrow_authority;
    match transfer_one(
        &mut ctx.user_nft_account,
        &mut ctx.escrow_nft_account,
        &mint,
        &authority,
        &recipient,
    ) {
        Ok(()) => {},
        Err(e) => return Err(e),
    }
    ctx.stake_info = record;
    Ok(StakeEvent { owner: ctx.owner, mint: ctx.nft_mint, staked_at: now, release_date })
}

/// Releases the unit held in escrow back to its owner at `now`.
///
/// The checks run in order: no live record for this asset (`NotStaked`), a
/// caller other than the recorded owner (`Unauthorized`), a custody transfer
/// that cannot go. The first that fails is returned and nothing changes.
/// Otherwise the unit returns to the owner, the record is closed with its
/// times kept, and the event tells whether `now` came before the release date.
pub fn unstake_nft(ctx: &mut UnstakeNft, now: i64) -> (r: Result<UnstakeEvent, StakeError>)
    ensures
        match r {
            Ok(e) => {
                &&& unstake_error(*old(ctx), now) is None
                &&& *final(ctx) == unstaked(*old(ctx))
                &&& e == unstake_event(*old(ctx), now)
                &&& e.was_early == (now < old(ctx).stake_info.release_date)
            },
            Err(err) => {
                &&& unstake_error(*old(ctx), now) == Some(err)
                &&& *final(ctx) == *old(ctx)
            },
        },
{
    if !ctx.stake_info.is_staked || !ctx.stake_info.mint.same_as(&ctx.nft_mint) {
        return Err(StakeError::NotStaked);
    }
    if !ctx.stake_info.owner.same_as(&ctx.owner) {
        return Err(StakeError::Unauthorized);
    }
    let timing = classify(now, ctx.stake_info.release_date);
    let was_early = match timing {
        ReleaseTiming::Early => true,
        ReleaseTiming::OnTime => false,
    };
    let mint = ctx.nft_mint;
    let authority = ctx.escrow_authority;
    let recipient = ctx.owner;
    match transfer_one(
        &mut ctx.escrow_nft_account,
        &mut ctx.user_nft_account,
        &mint,
        &authority,
        &recipient,
    ) {
        Ok(()) => {},
        Err(e) => return Err(e),
    }
    ctx.stake_info.is_staked = false;
    Ok(UnstakeEvent { owner: ctx.owner, mint: ctx.nft_mint, unstaked_at: now, was_early })
}

} // verus!
