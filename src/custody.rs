use vstd::prelude::*;
use crate::error::StakeError;
use crate::pubkey::Pubkey;

verus! {

/// A holding account: it holds `amount` units of the asset `mint` and is
/// controlled by `owner`.
#[derive(Clone, Copy, Debug, PartialEq, Eq)]
pub struct TokenAccount {
    pub mint: Pubkey,
    pub owner: Pubkey,
    pub amount: u64,
}

/// Whether one unit of `mint` can move from `from` to `to`, on the authority of
/// `authority`, into an account controlled by `recipient`.
pub open spec fn can_transfer(
    from: TokenAccount,
    to: TokenAccount,
    mint: Pubkey,
    authority: Pubkey,
    recipient: Pubkey,
) -> bool {
    &&& from.mint@ == mint@
    &&& to.mint@ == mint@
    &&& from.owner@ == authority@
    &&& to.owner@ == recipient@
    &&& from.amount >= 1
    &&& to.amount < u64::MAX
}

/// `a` with one unit less.
pub open spec fn debited(a: TokenAccount) -> TokenAccount {
    TokenAccount { amount: (a.amount - 1) as u64, ..a }
}

/// `a` with one unit more.
pub open spec fn credited(a: TokenAccount) -> TokenAccount {
    TokenAccount { amount: (a.amount + 1) as u64, ..a }
}

/// Moves one unit of `mint` from `from` to `to`, all or nothing: on success
/// exactly one unit has moved, on failure neither account has changed.
pub fn transfer_one(
    from: &mut TokenAccount,
    to: &mut TokenAccount,
    mint: &Pubkey,
    authority: &Pubkey,
    recipient: &Pubkey,
) -> (r: Result<(), StakeError>)
    ensures
        r is Ok <==> can_transfer(*old(from), *old(to), *mint, *authority, *recipient),
        r is Ok ==> *final(from) == debited(*old(from)) && *final(to) == credited(*old(to)),
        r is Err ==> *final(from) == *old(from) && *final(to) == *old(to)
            && r == Err::<(), StakeError>(StakeError::TransferFailure),
{
    if !from.mint.same_as(mint) || !to.mint.same_as(mint) || !from.owner.same_as(authority)
        || !to.owner.same_as(recipient) || from.amount < 1 || to.amount == u64::MAX {
        return Err(StakeError::TransferFailure);
    }
    from.amount = from.amount - 1;
    to.amount = to.amount + 1;
    Ok(())
}

} // verus!
