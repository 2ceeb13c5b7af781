use nft_staking::custody::{transfer_one, TokenAccount};
use nft_staking::error::StakeError;
use nft_staking::policy::{classify, compute_release, ReleaseTiming};
use nft_staking::program::{initialize, stake_nft, unstake_nft, Initialize, StakeNft, UnstakeNft};
use nft_staking::pubkey::Pubkey;
use nft_staking::state::{StakeEvent, StakeInfo, UnstakeEvent};
use nft_staking::store::StakeStore;

fn key(b: u8) -> Pubkey {
    Pubkey::new([b; 32])
}

fn owner_a() -> Pubkey {
    key(0xA)
}

fn owner_b() -> Pubkey {
    key(0xB)
}

fn mint_m() -> Pubkey {
    key(0x4D)
}

fn escrow() -> Pubkey {
    key(0xE)
}

fn stake_ctx(owner: Pubkey) -> StakeNft {
    StakeNft {
        owner,
        nft_mint: mint_m(),
        user_nft_account: TokenAccount { mint: mint_m(), owner, amount: 1 },
        escrow_nft_account: TokenAccount { mint: mint_m(), owner: escrow(), amount: 0 },
        escrow_authority: escrow(),
        stake_info: StakeInfo::new(owner, mint_m()),
    }
}

fn unstake_ctx(caller: Pubkey, staked: &StakeNft) -> UnstakeNft {
    UnstakeNft {
        owner: caller,
        nft_mint: staked.nft_mint,
        user_nft_account: TokenAccount { mint: mint_m(), owner: caller, amount: if caller == staked.owner { staked.user_nft_account.amount } else { 0 } },
        escrow_nft_account: staked.escrow_nft_account,
        escrow_authority: staked.escrow_authority,
        stake_info: staked.stake_info,
    }
}

fn staked_a() -> StakeNft {
    let mut ctx = stake_ctx(owner_a());
    stake_nft(&mut ctx, 86400, 1000).unwrap();
    ctx
}

#[test]
fn scenario_a_early_unstake() {
    let mut ctx = stake_ctx(owner_a());
    let ev = stake_nft(&mut ctx, 86400, 1000).unwrap();
    assert_eq!(
        ev,
        StakeEvent { owner: owner_a(), mint: mint_m(), staked_at: 1000, release_date: 87400 }
    );
    assert_eq!(ctx.stake_info.staked_at, 1000);
    assert_eq!(ctx.stake_info.release_date, 87400);
    assert!(ctx.stake_info.is_staked);
    assert_eq!(ctx.user_nft_account.amount, 0);
    assert_eq!(ctx.escrow_nft_account.amount, 1);

    let mut u = unstake_ctx(owner_a(), &ctx);
    let ev = unstake_nft(&mut u, 50000).unwrap();
    assert_eq!(
        ev,
        UnstakeEvent { owner: owner_a(), mint: mint_m(), unstaked_at: 50000, was_early: true }
    );
    assert!(!u.stake_info.is_staked);
    assert_eq!(u.stake_info.staked_at, 1000);
    assert_eq!(u.stake_info.release_date, 87400);
    assert_eq!(u.stake_info.owner, owner_a());
    assert_eq!(u.stake_info.mint, mint_m());
    assert_eq!(u.user_nft_account.amount, 1);
    assert_eq!(u.escrow_nft_account.amount, 0);
}

#[test]
fn scenario_b_on_time_unstake() {
    let ctx = staked_a();
    let mut u = unstake_ctx(owner_a(), &ctx);
    let ev = unstake_nft(&mut u, 90000).unwrap();
    assert!(!ev.was_early);
    assert!(!u.stake_info.is_staked);
}

#[test]
fn scenario_c_second_stake_rejected() {
    let mut ctx = stake_ctx(owner_a());
    stake_nft(&mut ctx, 100, 1000).unwrap();
    let before = ctx;
    assert_eq!(stake_nft(&mut ctx, 200, 2000), Err(StakeError::AlreadyStaked));
    assert_eq!(ctx, before);
    assert_eq!(ctx.stake_info.release_date, 1100);
}

#[test]
fn scenario_d_foreign_unstake_rejected() {
    let ctx = staked_a();
    let mut u = unstake_ctx(owner_b(), &ctx);
    let before = u;
    assert_eq!(unstake_nft(&mut u, 90000), Err(StakeError::Unauthorized));
    assert_eq!(u, before);
    assert!(u.stake_info.is_staked);
}

#[test]
fn stake_then_unstake_restores_custody() {
    let start = stake_ctx(owner_a());
    let mut ctx = start;
    stake_nft(&mut ctx, 5, 7).unwrap();
    let mut u = unstake_ctx(owner_a(), &ctx);
    unstake_nft(&mut u, 8).unwrap();
    assert!(!u.stake_info.is_staked);
    assert_eq!(u.user_nft_account, start.user_nft_account);
    assert_eq!(u.escrow_nft_account, start.escrow_nft_account);
}

#[test]
fn release_date_is_exact_sum() {
    let mut ctx = stake_ctx(owner_a());
    stake_nft(&mut ctx, 3, -10).unwrap();
    assert_eq!(ctx.stake_info.release_date, -7);
    let mut ctx = stake_ctx(owner_a());
    stake_nft(&mut ctx, 1, i64::MAX - 1).unwrap();
    assert_eq!(ctx.stake_info.release_date, i64::MAX);
}

#[test]
fn restake_rejected_whatever_duration() {
    for d in [1u64, 100, u64::MAX] {
        let mut ctx = staked_a();
        assert_eq!(stake_nft(&mut ctx, d, 5000), Err(StakeError::AlreadyStaked));
    }
}

#[test]
fn unstake_at_release_date_is_on_time() {
    let ctx = staked_a();
    let mut u = unstake_ctx(owner_a(), &ctx);
    assert!(!unstake_nft(&mut u, 87400).unwrap().was_early);
    let mut u = unstake_ctx(owner_a(), &ctx);
    assert!(unstake_nft(&mut u, 87399).unwrap().was_early);
}

#[test]
fn zero_period_rejected() {
    let mut ctx = stake_ctx(owner_a());
    let before = ctx;
    assert_eq!(stake_nft(&mut ctx, 0, 1000), Err(StakeError::InvalidStakingPeriod));
    assert_eq!(ctx, before);
}

#[test]
fn overflowing_release_rejected() {
    let mut ctx = stake_ctx(owner_a());
    let before = ctx;
    assert_eq!(stake_nft(&mut ctx, 2, i64::MAX - 1), Err(StakeError::Overflow));
    assert_eq!(ctx, before);
    assert_eq!(stake_nft(&mut ctx, u64::MAX, 0), Err(StakeError::Overflow));
}

#[test]
fn stake_without_the_asset_fails_transfer() {
    let mut ctx = stake_ctx(owner_a());
    ctx.user_nft_account.amount = 0;
    let before = ctx;
    assert_eq!(stake_nft(&mut ctx, 10, 1000), Err(StakeError::TransferFailure));
    assert_eq!(ctx, before);
}

#[test]
fn unstake_of_unstaked_record_rejected() {
    let ctx = stake_ctx(owner_a());
    let mut u = unstake_ctx(owner_a(), &ctx);
    assert_eq!(unstake_nft(&mut u, 10), Err(StakeError::NotStaked));
    let staked = staked_a();
    let mut u = unstake_ctx(owner_a(), &staked);
    unstake_nft(&mut u, 90000).unwrap();
    assert_eq!(unstake_nft(&mut u, 90001), Err(StakeError::NotStaked));
}

#[test]
fn unstake_of_other_asset_rejected() {
    let ctx = staked_a();
    let mut u = unstake_ctx(owner_a(), &ctx);
    u.nft_mint = key(0x55);
    assert_eq!(unstake_nft(&mut u, 90000), Err(StakeError::NotStaked));
}

#[test]
fn unstake_to_foreign_account_fails_transfer() {
    let ctx = staked_a();
    let mut u = unstake_ctx(owner_a(), &ctx);
    u.user_nft_account.owner = owner_b();
    let before = u;
    assert_eq!(unstake_nft(&mut u, 90000), Err(StakeError::TransferFailure));
    assert_eq!(u, before);
}

#[test]
fn record_can_be_staked_again_after_unstake() {
    let ctx = staked_a();
    let mut u = unstake_ctx(owner_a(), &ctx);
    unstake_nft(&mut u, 90000).unwrap();
    let mut again = StakeNft {
        owner: u.owner,
        nft_mint: u.nft_mint,
        user_nft_account: u.user_nft_account,
        escrow_nft_account: u.escrow_nft_account,
        escrow_authority: u.escrow_authority,
        stake_info: u.stake_info,
    };
    stake_nft(&mut again, 10, 100000).unwrap();
    assert_eq!(again.stake_info.staked_at, 100000);
    assert_eq!(again.stake_info.release_date, 100010);
    assert!(again.stake_info.is_staked);
}

#[test]
fn compute_release_values() {
    assert_eq!(compute_release(1000, 86400), Ok(87400));
    assert_eq!(compute_release(i64::MIN, u64::MAX), Ok(i64::MAX));
    assert_eq!(compute_release(1, i64::MAX as u64), Err(StakeError::Overflow));
}

#[test]
fn classify_values() {
    assert_eq!(classify(50000, 87400), ReleaseTiming::Early);
    assert_eq!(classify(87400, 87400), ReleaseTiming::OnTime);
    assert_eq!(classify(90000, 87400), ReleaseTiming::OnTime);
}

#[test]
fn transfer_moves_one_unit() {
    let mut from = TokenAccount { mint: mint_m(), owner: owner_a(), amount: 3 };
    let mut to = TokenAccount { mint: mint_m(), owner: escrow(), amount: 0 };
    assert_eq!(transfer_one(&mut from, &mut to, &mint_m(), &owner_a(), &escrow()), Ok(()));
    assert_eq!(from.amount, 2);
    assert_eq!(to.amount, 1);
    assert_eq!(
        transfer_one(&mut from, &mut to, &mint_m(), &owner_b(), &escrow()),
        Err(StakeError::TransferFailure)
    );
    assert_eq!(from.amount, 2);
    assert_eq!(to.amount, 1);
}

#[test]
fn pubkey_comparison() {
    assert!(owner_a().same_as(&key(0xA)));
    let mut bytes = [0xAu8; 32];
    bytes[31] = 0;
    assert!(!owner_a().same_as(&Pubkey::new(bytes)));
}

#[test]
fn store_get_and_put() {
    let mut store = StakeStore::new();
    assert_eq!(store.get(&owner_a(), &mint_m()), None);
    let rec = staked_a().stake_info;
    store.put(rec);
    assert_eq!(store.get(&owner_a(), &mint_m()), Some(rec));
    assert_eq!(store.get(&owner_b(), &mint_m()), None);
    let other = StakeInfo::new(owner_b(), mint_m());
    store.put(other);
    let closed = StakeInfo { is_staked: false, ..rec };
    store.put(closed);
    assert_eq!(store.get(&owner_a(), &mint_m()), Some(closed));
    assert_eq!(store.get(&owner_b(), &mint_m()), Some(other));
}

#[test]
fn initialize_succeeds() {
    assert_eq!(initialize(&Initialize { program_id: key(1) }), Ok(()));
}
