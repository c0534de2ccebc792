//! Interest-rate policy: the fixed configuration of the lending engine and
//! the pure formulas that turn collateral and credit standing into prices.

use vstd::prelude::*;

verus! {

/// Basis points in one whole (100%).
pub const BP_SCALE: u64 = 10000;

/// The lowest annual rate the engine ever charges, in basis points.
pub const MIN_RATE_BP: u64 = 100;

/// The lowest collateral ratio (in percent) at which a loan may be opened.
pub const MIN_COLLATERAL_RATIO: u64 = 120;

/// The highest annual rate the policy can produce: a base rate of 100% under
/// the poorest credit factor of 110%.
pub const MAX_RATE_BP: u64 = 11000;

/// Seconds in one day.
pub const SECONDS_PER_DAY: u64 = 86400;

/// Days in one year, used to turn an annual rate into a daily one.
pub const DAYS_PER_YEAR: u64 = 365;

/// Process-wide lending policy. All rates and discounts are in basis points.
#[derive(Debug, Clone, Copy)]
pub struct InterestRateModel {
    pub base_rate: u64,
    pub prompt_payment_discount: u64,
    pub risk_premium: u64,
    pub collateral_discount: u64,
    pub borrower_history_factor: u64,
    pub max_discount: u64,
}

/// `a - b`, or zero when `b > a`.
pub open spec fn sat_sub(a: int, b: int) -> int {
    if a >= b { a - b } else { 0 }
}

pub open spec fn min_int(a: int, b: int) -> int {
    if a <= b { a } else { b }
}

pub open spec fn max_int(a: int, b: int) -> int {
    if a >= b { a } else { b }
}

/// The multiplier (in basis points) that a credit score applies to a rate.
pub open spec fn rate_factor(score: int) -> int {
    if 900 <= score <= 1000 {
        8000
    } else if 800 <= score <= 899 {
        9000
    } else if 700 <= score <= 799 {
        9500
    } else if 600 <= score <= 699 {
        10000
    } else if 500 <= score <= 599 {
        10500
    } else {
        11000
    }
}

/// `floor(collateral * 100 / principal)`.
pub open spec fn collateral_ratio_of(collateral: int, principal: int) -> int {
    collateral * 100 / principal
}

/// Whole days left before `due` at time `now`; zero at or past due.
pub open spec fn days_early_at(due: int, now: int) -> int {
    if now < due { (due - now) / (SECONDS_PER_DAY as int) } else { 0 }
}

/// Interest owed on `principal` at annual `rate` over a term of `term` days
/// that is repaid `days_early` days before its due date.
pub open spec fn interest_owed_of(principal: int, rate: int, term: int, days_early: int) -> int {
    let days_elapsed = if days_early > 0 { term - days_early } else { term };
    principal * (rate / (DAYS_PER_YEAR as int)) * days_elapsed / (BP_SCALE as int)
}

impl InterestRateModel {
    /// A discount can never exceed the whole amount, and the base rate is at
    /// most 100% a year.
    pub open spec fn wf(&self) -> bool {
        &&& self.base_rate <= BP_SCALE
        &&& self.max_discount <= BP_SCALE
    }

    /// The base rate after the collateral discount band is applied.
    pub open spec fn collateral_adjusted_rate(&self, ratio: int) -> int {
        if ratio > 200 {
            sat_sub(self.base_rate as int, self.collateral_discount as int)
        } else if ratio > 150 {
            sat_sub(self.base_rate as int, (self.collateral_discount / 2) as int)
        } else {
            self.base_rate as int
        }
    }

    /// The annual rate for a loan with collateral ratio `ratio` taken by a
    /// borrower whose credit score is `score`.
    pub open spec fn rate_for(&self, ratio: int, score: int) -> int {
        max_int(
            MIN_RATE_BP as int,
            self.collateral_adjusted_rate(ratio) * rate_factor(score) / (BP_SCALE as int),
        )
    }

    /// The share of interest (in basis points) forgiven for paying
    /// `days_early` days before the due date.
    pub open spec fn bonus_share(&self, days_early: int) -> int {
        min_int(days_early * self.prompt_payment_discount, self.max_discount as int)
    }

    /// The early-payment bonus on `interest` for paying `days_early` days early.
    pub open spec fn early_bonus(&self, interest: int, days_early: int) -> int {
        interest * self.bonus_share(days_early) / (BP_SCALE as int)
    }
}

/// The early-payment bonus never shrinks as the payment comes earlier (it
/// grows until the share reaches the cap, then stays), and paying on or after
/// the due date earns none.
pub proof fn lemma_early_bonus_monotone(model: InterestRateModel, interest: int, d1: int, d2: int)
    requires
        model.wf(),
        interest >= 0,
        0 <= d1 <= d2,
    ensures
        model.early_bonus(interest, d1) <= model.early_bonus(interest, d2),
        model.early_bonus(interest, 0) == 0,
{
    let p = model.prompt_payment_discount as int;
    assert(d1 * p <= d2 * p) by (nonlinear_arith)
        requires
            d1 <= d2,
            p >= 0,
    ;
    let s1 = model.bonus_share(d1);
    let s2 = model.bonus_share(d2);
    assert(0 <= s1 <= s2);
    assert(interest * s1 / (BP_SCALE as int) <= interest * s2 / (BP_SCALE as int)) by (nonlinear_arith)
        requires
            0 <= s1 <= s2,
            interest >= 0,
    ;
    assert(model.bonus_share(0) == 0);
}

} // verus!
