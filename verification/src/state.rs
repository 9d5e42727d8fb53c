//! The two durable records: the singleton pool and the per-participant
//! staking record.

use vstd::prelude::*;

use crate::account::AccountId;

verus! {

/// The trading mode of the pool.
///
/// The mode starts private and may move to public exactly once; it never
/// moves back.
#[derive(Clone, Copy, Debug, PartialEq, Eq, Structural)]
pub enum SaleType {
    /// Fixed-price sale: trades pay `token_price` per whole token.
    Private,
    /// Dynamically priced sale: each buy pushes `token_price` up along the
    /// rate curve.
    Public,
}

/// The singleton pool record: inventory, raised quote currency, price and
/// mode.  Created once, mutated by every operation, never destroyed.
#[derive(Clone, Copy, Debug, PartialEq, Eq, Structural)]
pub struct Presale {
    /// The identity authorized to administer the pool.
    pub owner: AccountId,
    /// The custody location holding the raised quote currency (referenced
    /// only; the custody collaborator owns it).
    pub escrow_quote_ref: AccountId,
    /// The custody location holding the unsold tokens (referenced only).
    pub escrow_token_ref: AccountId,
    /// The identity of the sale token; every trade must match it.
    pub token_ref: AccountId,
    /// Unsold token units still available.
    pub token_amount: u64,
    /// Net quote currency collected: grows on buys, shrinks on owner
    /// withdrawals, never goes negative.
    pub quote_amount: u64,
    /// The price of one whole token, in quote base units, scaled by the
    /// token's decimal precision.
    pub token_price: u64,
    /// Whether trading is enabled.
    pub status: bool,
    /// The current trading mode.
    pub sale_type: SaleType,
    /// The price-growth coefficient; read only in public mode.
    pub rate: u64,
}

/// One staking tier of a participant's record.
#[derive(Clone, Copy, Debug, PartialEq, Eq, Structural)]
pub struct StakeTier {
    /// Token units locked in this tier.
    pub locked_amount: u64,
    /// The clock reading at which the outstanding lock started.
    pub lock_started_at: i64,
    /// Whether a lock is outstanding.
    pub active: bool,
}

impl StakeTier {
    /// An idle tier carries no leftover balance.
    pub open spec fn wf(self) -> bool {
        !self.active ==> self.locked_amount == 0
    }

    /// The tier before its first lock.
    pub fn idle() -> (r: StakeTier)
        ensures
            r == (StakeTier { locked_amount: 0, lock_started_at: 0, active: false }),
    {
        StakeTier { locked_amount: 0, lock_started_at: 0, active: false }
    }
}

/// The per-participant staking record: four independent tiers, created lazily
/// on the first stake and never deleted.
#[derive(Clone, Copy, Debug, PartialEq, Eq, Structural)]
pub struct UserInfo {
    /// The participant this record belongs to.
    pub owner: AccountId,
    /// The three-month tier.
    pub stake_3m: StakeTier,
    /// The six-month tier.
    pub stake_6m: StakeTier,
    /// The nine-month tier.
    pub stake_9m: StakeTier,
    /// The twelve-month tier.
    pub stake_12m: StakeTier,
}

/// One of the four fixed staking durations.
#[derive(Clone, Copy, Debug, PartialEq, Eq, Structural)]
pub enum Tier {
    /// Three months, 105% yield.
    M3,
    /// Six months, 110% yield.
    M6,
    /// Nine months, 115% yield.
    M9,
    /// Twelve months, 120% yield.
    M12,
}

impl Tier {
    /// The tier for a period given in months, if supported.
    pub open spec fn spec_from_months(months: u8) -> Option<Tier> {
        match months {
            3u8 => Some(Tier::M3),
            6u8 => Some(Tier::M6),
            9u8 => Some(Tier::M9),
            12u8 => Some(Tier::M12),
            _ => None,
        }
    }

    /// Maps a period in months onto its tier; `None` for an unsupported
    /// period.
    pub fn from_months(months: u8) -> (r: Option<Tier>)
        ensures
            r == Tier::spec_from_months(months),
    {
        match months {
            3u8 => Some(Tier::M3),
            6u8 => Some(Tier::M6),
            9u8 => Some(Tier::M9),
            12u8 => Some(Tier::M12),
            _ => None,
        }
    }

    /// The tier's period in months.
    pub open spec fn spec_months(self) -> u8 {
        match self {
            Tier::M3 => 3u8,
            Tier::M6 => 6u8,
            Tier::M9 => 9u8,
            Tier::M12 => 12u8,
        }
    }

    /// The fixed lock duration: the period in months, at thirty days of
    /// 86 400 seconds each.
    pub open spec fn spec_duration_secs(self) -> int {
        self.spec_months() * 30 * 86400
    }

    /// The lock duration in seconds.
    pub fn duration_secs(self) -> (d: i64)
        ensures
            d == self.spec_duration_secs(),
            0 < d,
    {
        match self {
            Tier::M3 => 7_776_000,
            Tier::M6 => 15_552_000,
            Tier::M9 => 23_328_000,
            Tier::M12 => 31_104_000,
        }
    }

    /// The simple-yield multiplier, in percent: a matured claim pays
    /// `locked_amount * multiplier / 100`.
    pub open spec fn spec_multiplier_percent(self) -> int {
        match self {
            Tier::M3 => 105,
            Tier::M6 => 110,
            Tier::M9 => 115,
            Tier::M12 => 120,
        }
    }

    /// The yield multiplier in percent.
    pub fn multiplier_percent(self) -> (m: u64)
        ensures
            m == self.spec_multiplier_percent(),
    {
        match self {
            Tier::M3 => 105,
            Tier::M6 => 110,
            Tier::M9 => 115,
            Tier::M12 => 120,
        }
    }
}

impl UserInfo {
    /// A fresh record for a participant, all tiers idle.
    pub fn new(owner: AccountId) -> (r: UserInfo)
        ensures
            r.owner == owner,
            r.wf(),
            forall|t: Tier| !(#[trigger] r.spec_tier(t)).active,
    {
        UserInfo {
            owner,
            stake_3m: StakeTier::idle(),
            stake_6m: StakeTier::idle(),
            stake_9m: StakeTier::idle(),
            stake_12m: StakeTier::idle(),
        }
    }

    /// The record of the given tier.
    pub open spec fn spec_tier(self, t: Tier) -> StakeTier {
        match t {
            Tier::M3 => self.stake_3m,
            Tier::M6 => self.stake_6m,
            Tier::M9 => self.stake_9m,
            Tier::M12 => self.stake_12m,
        }
    }

    /// The record with the given tier replaced.
    pub open spec fn spec_with_tier(self, t: Tier, s: StakeTier) -> UserInfo {
        match t {
            Tier::M3 => UserInfo { stake_3m: s, ..self },
            Tier::M6 => UserInfo { stake_6m: s, ..self },
            Tier::M9 => UserInfo { stake_9m: s, ..self },
            Tier::M12 => UserInfo { stake_12m: s, ..self },
        }
    }

    /// Every tier is well formed.
    pub open spec fn wf(self) -> bool {
        &&& self.stake_3m.wf()
        &&& self.stake_6m.wf()
        &&& self.stake_9m.wf()
        &&& self.stake_12m.wf()
    }

    /// Reads the given tier.
    pub fn read_tier(&self, t: Tier) -> (r: StakeTier)
        ensures
            r == self.spec_tier(t),
    {
        match t {
            Tier::M3 => self.stake_3m,
            Tier::M6 => self.stake_6m,
            Tier::M9 => self.stake_9m,
            Tier::M12 => self.stake_12m,
        }
    }

    /// Replaces the given tier.
    pub fn set_tier(&mut self, t: Tier, s: StakeTier)
        ensures
            *final(self) == old(self).spec_with_tier(t, s),
    {
        match t {
            Tier::M3 => self.stake_3m = s,
            Tier::M6 => self.stake_6m = s,
            Tier::M9 => self.stake_9m = s,
            Tier::M12 => self.stake_12m = s,
        }
    }
}

} // verus!
