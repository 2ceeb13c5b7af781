use vstd::prelude::*;
use crate::error::StakeError;

verus! {

/// Whether a release happened before the committed lock period ended.
#[derive(Clone, Copy, Debug, PartialEq, Eq, Structural)]
pub enum ReleaseTiming {
    Early,
    OnTime,
}

/// The classification of a release at `now` against `release_date`.
pub open spec fn timing_of(now: int, release_date: int) -> ReleaseTiming {
    if now < release_date {
        ReleaseTiming::Early
    } else {
        ReleaseTiming::OnTime
    }
}

/// Whether a stake begun at `staked_at` for `duration` ends at a representable time.
pub open spec fn release_fits(staked_at: int, duration: int) -> bool {
    staked_at + duration <= i64::MAX
}

/// The release time of a lock: the start plus the duration, or `Overflow`
/// when the sum exceeds the largest timestamp.
pub fn compute_release(staked_at: i64, duration: u64) -> (r: Result<i64, StakeError>)
    ensures
        match r {
            Ok(t) => release_fits(staked_at as int, duration as int) && t == staked_at + duration,
            Err(e) => !release_fits(staked_at as int, duration as int) && e == StakeError::Overflow,
        },
{
    let sum: i128 = staked_at as i128 + duration as i128;
    if sum > i64::MAX as i128 {
        Err(StakeError::Overflow)
    } else {
        Ok(sum as i64)
    }
}

/// Classifies a release attempt: early strictly before the release date,
/// on time from the release date on.
pub fn classify(now: i64, release_date: i64) -> (r: ReleaseTiming)
    ensures
        r == timing_of(now as int, release_date as int),
{
    if now < release_date {
        ReleaseTiming::Early
    } else {
        ReleaseTiming::OnTime
    }
}

} // verus!
