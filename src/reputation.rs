//! Per-borrower repayment history and the credit score derived from it.

use vstd::prelude::*;
use crate::policy::{min_int, rate_factor, BP_SCALE};

verus! {

/// The score every borrower starts with, before any loan is on record.
pub const NEUTRAL_CREDIT_SCORE: u64 = 500;

/// The highest credit score.
pub const MAX_CREDIT_SCORE: u64 = 1000;

/// Borrowers whose average repayment time is under this many days earn the
/// speed bonus.
pub const FAST_REPAYMENT_DAYS: u64 = 7;

/// Score points added for fast average repayment.
pub const TIME_BONUS: u64 = 100;

/// Repayment history of one borrower.
#[derive(Debug, Clone)]
pub struct BorrowerReputation {
    pub borrower: String,
    pub total_loans: u64,
    pub repaid_loans: u64,
    pub defaulted_loans: u64,
    /// Truncating running average of the days-early count of repayments.
    pub average_repayment_time: u64,
    /// `repaid_loans * 10000 / total_loans`, in basis points.
    pub prompt_payment_ratio: u64,
    /// Always within `0..=1000`.
    pub credit_score: u64,
    pub last_activity: u64,
    pub total_early_payment_bonus: u64,
}

/// `repaid * 10000 / total`: the share of repaid loans, in basis points.
pub open spec fn repayment_rate_of(repaid: int, total: int) -> int {
    repaid * (BP_SCALE as int) / total
}

impl BorrowerReputation {
    /// The credit score that the history on record earns: fixed at 500 while
    /// no loan is on record, else the sum of the repayment rate, the prompt
    /// payment ratio and the speed bonus, capped at 1000.
    pub open spec fn spec_credit_score(&self) -> int {
        if self.total_loans == 0 {
            NEUTRAL_CREDIT_SCORE as int
        } else {
            min_int(
                MAX_CREDIT_SCORE as int,
                repayment_rate_of(self.repaid_loans as int, self.total_loans as int)
                    + self.prompt_payment_ratio as int
                    + (if self.average_repayment_time < FAST_REPAYMENT_DAYS { TIME_BONUS as int } else { 0 }),
            )
        }
    }

    /// Computes the credit score from the history on record.
    pub fn calculate_credit_score(&self) -> (r: u64)
        ensures
            r == self.spec_credit_score(),
            r <= MAX_CREDIT_SCORE,
    {
        if self.total_loans == 0 {
            return NEUTRAL_CREDIT_SCORE;
        }
        assert((self.repaid_loans as u128) * (BP_SCALE as u128) <= 0xffff_ffff_ffff_ffffu128 * 10000)
            by (nonlinear_arith);
        let numerator: u128 = self.repaid_loans as u128 * BP_SCALE as u128;
        let repayment_rate: u128 = numerator / self.total_loans as u128;
        assert(repayment_rate <= numerator) by (nonlinear_arith)
            requires
                repayment_rate == numerator / (self.total_loans as u128),
                self.total_loans > 0,
        ;
        let time_bonus: u128 = if self.average_repayment_time < FAST_REPAYMENT_DAYS {
            TIME_BONUS as u128
        } else {
            0
        };
        let score: u128 = repayment_rate + self.prompt_payment_ratio as u128 + time_bonus;
        if score < MAX_CREDIT_SCORE as u128 {
            score as u64
        } else {
            MAX_CREDIT_SCORE
        }
    }

    /// The multiplier (in basis points) that this borrower's credit score
    /// applies to the interest rate.
    pub fn get_interest_rate_factor(&self) -> (r: u64)
        ensures
            r == rate_factor(self.credit_score as int),
            8000 <= r <= 11000,
    {
        if 900 <= self.credit_score && self.credit_score <= 1000 {
            8000
        } else if 800 <= self.credit_score && self.credit_score <= 899 {
            9000
        } else if 700 <= self.credit_score && self.credit_score <= 799 {
            9500
        } else if 600 <= self.credit_score && self.credit_score <= 699 {
            10000
        } else if 500 <= self.credit_score && self.credit_score <= 599 {
            10500
        } else {
            11000
        }
    }

    /// A record for a borrower seen for the first time at `now`.
    pub open spec fn fresh(borrower: String, now: u64) -> BorrowerReputation {
        BorrowerReputation {
            borrower,
            total_loans: 0,
            repaid_loans: 0,
            defaulted_loans: 0,
            average_repayment_time: 0,
            prompt_payment_ratio: 0,
            credit_score: NEUTRAL_CREDIT_SCORE,
            last_activity: now,
            total_early_payment_bonus: 0,
        }
    }

    /// Whether an event of `new_loans` opened, `repaid` repaid and
    /// `defaulted` defaulted loans can be recorded: the counters stay within
    /// range, repaid loans never outnumber loans, and a repayment made
    /// `days_early > 0` days early is counted among the repaid loans.
    pub open spec fn can_record(&self, new_loans: u64, repaid: u64, defaulted: u64, days_early: u64) -> bool {
        let total = self.total_loans + new_loans;
        let repaid_now = self.repaid_loans + repaid;
        &&& total <= u64::MAX
        &&& repaid_now <= total
        &&& self.defaulted_loans + defaulted <= u64::MAX
        &&& days_early > 0 ==> repaid_now >= 1
    }

    /// The record after an event: counters accumulate; a repayment made
    /// `days_early > 0` days early enters the truncating running average; the
    /// prompt payment ratio and the credit score are recomputed.
    pub open spec fn recorded(
        &self,
        new_loans: u64,
        repaid: u64,
        defaulted: u64,
        days_early: u64,
        now: u64,
    ) -> BorrowerReputation {
        let total = self.total_loans + new_loans;
        let repaid_now = self.repaid_loans + repaid;
        let counted = BorrowerReputation {
            total_loans: total as u64,
            repaid_loans: repaid_now as u64,
            defaulted_loans: (self.defaulted_loans + defaulted) as u64,
            last_activity: now,
            average_repayment_time: if days_early > 0 {
                ((self.average_repayment_time * (repaid_now - 1) + days_early) / repaid_now) as u64
            } else {
                self.average_repayment_time
            },
            prompt_payment_ratio: if total > 0 {
                repayment_rate_of(repaid_now, total) as u64
            } else {
                self.prompt_payment_ratio
            },
            ..*self
        };
        BorrowerReputation { credit_score: counted.spec_credit_score() as u64, ..counted }
    }
}

} // verus!
