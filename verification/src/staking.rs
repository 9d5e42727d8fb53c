//! The staking engine: a lock/claim state machine per participant and tier.
//!
//! Each tier moves `Idle -> Locked` on a stake and back to `Idle` on the
//! matching claim.  A matured claim pays out the locked units times the
//! tier's simple-yield multiplier; the payout is drawn from the same token
//! escrow as the sale inventory, so the caller must check escrow solvency
//! before performing the decided transfer.

use vstd::prelude::*;

use crate::error::PresaleError;
use crate::pricing::lemma_u64_mul_fits_u128;
use crate::state::{Presale, StakeTier, Tier, UserInfo};

verus! {

/// The tokens a matured claim pays out: the locked units times the tier's
/// multiplier, in percent, rounding down.
pub open spec fn spec_payout(locked: int, t: Tier) -> int {
    locked * t.spec_multiplier_percent() / 100
}

/// Whether a lock taken at `lock_started_at` has matured by `now`: the
/// tier's full duration must have elapsed, the boundary instant included.
pub open spec fn spec_matured(s: StakeTier, t: Tier, now: i64) -> bool {
    now - s.lock_started_at >= t.spec_duration_secs()
}

/// What a stake does: an idle tier takes the lock, an occupied tier refuses
/// it.
pub open spec fn spec_stake(u: UserInfo, t: Tier, token_units: u64, now: i64) -> Result<
    UserInfo,
    PresaleError,
> {
    if u.spec_tier(t).active {
        Err(PresaleError::AlreadyStaking)
    } else {
        Ok(
            u.spec_with_tier(
                t,
                StakeTier { locked_amount: token_units, lock_started_at: now, active: true },
            ),
        )
    }
}

/// What a claim does, in the order the conditions are checked: the tier must
/// hold a lock and the lock must have matured (else `NotStaking`), the lock
/// must not have been emptied already (else `AlreadyClaimed`), and the
/// payout must fit a 64-bit amount (else the defensive
/// `ArithmeticOverflow`).  On success the tier returns to idle and the
/// payout is owed to the participant.
pub open spec fn spec_claim(u: UserInfo, t: Tier, now: i64) -> Result<
    (UserInfo, u64),
    PresaleError,
> {
    let s = u.spec_tier(t);
    if !s.active {
        Err(PresaleError::NotStaking)
    } else if !spec_matured(s, t, now) {
        Err(PresaleError::NotStaking)
    } else if s.locked_amount == 0 {
        Err(PresaleError::AlreadyClaimed)
    } else if spec_payout(s.locked_amount as int, t) > u64::MAX {
        Err(PresaleError::ArithmeticOverflow)
    } else {
        Ok(
            (
                u.spec_with_tier(
                    t,
                    StakeTier { locked_amount: 0, lock_started_at: now, active: false },
                ),
                spec_payout(s.locked_amount as int, t) as u64,
            ),
        )
    }
}

/// Locks `token_units` into the given tier, started at `now`.
///
/// Fails with `AlreadyStaking`, and leaves the record unchanged, exactly
/// when the tier already holds an outstanding lock.
pub fn stake(u: &mut UserInfo, t: Tier, token_units: u64, now: i64) -> (r: Result<
    (),
    PresaleError,
>)
    ensures
        match spec_stake(*old(u), t, token_units, now) {
            Ok(u2) => r == Ok::<(), PresaleError>(()) && *final(u) == u2,
            Err(e) => r == Err::<(), PresaleError>(e) && *final(u) == *old(u),
        },
        old(u).wf() ==> final(u).wf(),
{
    let cur = u.read_tier(t);
    if cur.active {
        Err(PresaleError::AlreadyStaking)
    } else {
        u.set_tier(t, StakeTier { locked_amount: token_units, lock_started_at: now, active: true });
        Ok(())
    }
}

/// Claims the given tier at clock reading `now`, returning the payout owed.
///
/// Follows [`spec_claim`] exactly: the result and the record afterwards are
/// the ones it gives, and on any error the record is unchanged.
pub fn claim(u: &mut UserInfo, t: Tier, now: i64) -> (r: Result<u64, PresaleError>)
    ensures
        match spec_claim(*old(u), t, now) {
            Ok((u2, payout)) => r == Ok::<u64, PresaleError>(payout) && *final(u) == u2,
            Err(e) => r == Err::<u64, PresaleError>(e) && *final(u) == *old(u),
        },
        old(u).wf() ==> final(u).wf(),
{
    let s = u.read_tier(t);
    if !s.active {
        return Err(PresaleError::NotStaking);
    }
    let duration = t.duration_secs();
    let elapsed: i128 = (now as i128) - (s.lock_started_at as i128);
    if elapsed < duration as i128 {
        return Err(PresaleError::NotStaking);
    }
    if s.locked_amount == 0 {
        return Err(PresaleError::AlreadyClaimed);
    }
    let multiplier = t.multiplier_percent();
    proof {
        lemma_u64_mul_fits_u128(s.locked_amount, multiplier);
    }
    let payout: u128 = (s.locked_amount as u128) * (multiplier as u128) / 100;
    if payout > u64::MAX as u128 {
        return Err(PresaleError::ArithmeticOverflow);
    }
    u.set_tier(t, StakeTier { locked_amount: 0, lock_started_at: now, active: false });
    Ok(payout as u64)
}

/// Claims the staking tier of the given period for a participant.
///
/// The pool must be live (else `NotLive`) and the period must name one of
/// the four tiers (else `InvalidTier`); the claim itself then follows
/// [`spec_claim`].  The returned payout is owed from the token escrow to the
/// participant; it is not part of the pool's recorded sale inventory, so the
/// caller must check the escrow's balance before transferring.
pub fn claim_staked_token(p: &Presale, u: &mut UserInfo, staked_period: u8, now: i64) -> (r: Result<
    u64,
    PresaleError,
>)
    ensures
        !p.status ==> r == Err::<u64, PresaleError>(PresaleError::NotLive) && *final(u) == *old(u),
        p.status && Tier::spec_from_months(staked_period) is None ==> r == Err::<
            u64,
            PresaleError,
        >(PresaleError::InvalidTier) && *final(u) == *old(u),
        p.status ==> (Tier::spec_from_months(staked_period) matches Some(t) ==> match spec_claim(
            *old(u),
            t,
            now,
        ) {
            Ok((u2, payout)) => r == Ok::<u64, PresaleError>(payout) && *final(u) == u2,
            Err(e) => r == Err::<u64, PresaleError>(e) && *final(u) == *old(u),
        }),
        old(u).wf() ==> final(u).wf(),
{
    if !p.status {
        return Err(PresaleError::NotLive);
    }
    let t = match Tier::from_months(staked_period) {
        Some(t) => t,
        None => { return Err(PresaleError::InvalidTier) },
    };
    claim(u, t, now)
}

/// An outstanding lock blocks a second stake: once a stake in a tier has
/// succeeded, every further stake in that tier — any amount, any time —
/// fails with `AlreadyStaking` until the tier is claimed.
pub proof fn lemma_stake_twice_fails(u: UserInfo, t: Tier, x: u64, y: u64, now1: i64, now2: i64)
    ensures
        spec_stake(u, t, x, now1) matches Ok(u1) ==> spec_stake(u1, t, y, now2) == Err::<
            UserInfo,
            PresaleError,
        >(PresaleError::AlreadyStaking),
{
}

/// A claim strictly before the tier's duration has elapsed fails with
/// `NotStaking` and changes nothing; from the boundary instant on — the
/// elapsed time equal to the duration included — it succeeds, empties the
/// tier, and pays the locked units times the tier's multiplier.
pub proof fn lemma_claim_maturity_boundary(u: UserInfo, t: Tier, now: i64)
    requires
        u.spec_tier(t).active,
        u.spec_tier(t).locked_amount != 0,
        spec_payout(u.spec_tier(t).locked_amount as int, t) <= u64::MAX,
    ensures
        now - u.spec_tier(t).lock_started_at < t.spec_duration_secs() ==> spec_claim(u, t, now)
            == Err::<(UserInfo, u64), PresaleError>(PresaleError::NotStaking),
        now - u.spec_tier(t).lock_started_at >= t.spec_duration_secs() ==> spec_claim(u, t, now)
            == Ok::<(UserInfo, u64), PresaleError>(
            (
                u.spec_with_tier(
                    t,
                    StakeTier { locked_amount: 0, lock_started_at: now, active: false },
                ),
                spec_payout(u.spec_tier(t).locked_amount as int, t) as u64,
            ),
        ),
{
}

} // verus!
