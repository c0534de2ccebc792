//! The loan record, its repayment records and its lifecycle states.

use vstd::prelude::*;
use crate::policy::{
    collateral_ratio_of, days_early_at, interest_owed_of, MAX_RATE_BP, MIN_COLLATERAL_RATIO, MIN_RATE_BP, SECONDS_PER_DAY,
};

verus! {

/// Lifecycle state of a loan. Only `Active -> Repaid` is exercised; the other
/// states are reserved for default handling, liquidation and grace periods.
#[derive(Debug, Clone, Copy, PartialEq, Eq, Structural)]
pub enum LoanStatus {
    Active,
    Repaid,
    Defaulted,
    Liquidated,
    GracePeriod,
}

/// One payment event on a loan. Never changed once recorded.
#[derive(Debug, Clone, Copy, PartialEq, Eq, Structural)]
pub struct Repayment {
    pub amount: u64,
    pub timestamp: u64,
    pub interest_paid: u64,
    pub principal_paid: u64,
    pub early_payment_bonus: u64,
    pub days_early: u64,
}

/// A collateralized loan. Rates are annual, in basis points; the term is in
/// days and timestamps in seconds.
#[derive(Debug, Clone)]
pub struct DSTLoan {
    pub loan_id: u64,
    pub borrower: String,
    pub collateral_amount: u64,
    pub loan_amount: u64,
    pub base_interest_rate: u64,
    pub current_interest_rate: u64,
    pub term_length: u64,
    pub created_at: u64,
    pub due_date: u64,
    pub repaid_at: Option<u64>,
    pub status: LoanStatus,
    pub repayment_history: Vec<Repayment>,
    pub collateral_ratio: u64,
    pub total_interest_paid: u64,
    pub total_principal_paid: u64,
    pub early_payment_bonus_total: u64,
}

impl DSTLoan {
    /// What holds of every loan from its creation on: positive amounts and
    /// term, a ratio fixed from the amounts and at least 120%, a rate within
    /// the policy's range, a due date one term after creation; an active loan
    /// has no payment on record, and a repaid one exactly the one that closed it.
    /// The principal paid may exceed the amount lent: an early bonus comes off
    /// the interest only, so paying what is owed early overpays principal.
    pub open spec fn wf(&self) -> bool {
        &&& self.collateral_amount > 0
        &&& self.loan_amount > 0
        &&& self.term_length > 0
        &&& self.collateral_ratio as int == collateral_ratio_of(
            self.collateral_amount as int,
            self.loan_amount as int,
        )
        &&& self.collateral_ratio >= MIN_COLLATERAL_RATIO
        &&& MIN_RATE_BP <= self.current_interest_rate <= MAX_RATE_BP
        &&& self.due_date as int == self.created_at + self.term_length * SECONDS_PER_DAY
        &&& self.status == LoanStatus::Active || self.status == LoanStatus::Repaid
        &&& self.status == LoanStatus::Active ==> {
            &&& self.repayment_history@.len() == 0
            &&& self.total_interest_paid == 0
            &&& self.total_principal_paid == 0
            &&& self.early_payment_bonus_total == 0
            &&& self.repaid_at is None
        }
        &&& self.status == LoanStatus::Repaid ==> {
            &&& self.repayment_history@.len() == 1
            &&& self.total_principal_paid >= self.loan_amount
            &&& self.repaid_at is Some
        }
    }

    /// Whether this is the record of a loan opened at `now` under id
    /// `loan_id`, with the given parties, amounts, term and rates, before any
    /// payment.
    pub open spec fn is_opened(
        &self,
        loan_id: u64,
        borrower: Seq<char>,
        collateral_amount: u64,
        loan_amount: u64,
        term_length: u64,
        base_rate: u64,
        rate: u64,
        now: u64,
    ) -> bool {
        &&& self.loan_id == loan_id
        &&& self.borrower@ == borrower
        &&& self.collateral_amount == collateral_amount
        &&& self.loan_amount == loan_amount
        &&& self.term_length == term_length
        &&& self.base_interest_rate == base_rate
        &&& self.current_interest_rate == rate
        &&& self.created_at == now
        &&& self.due_date == now + term_length * SECONDS_PER_DAY
        &&& self.collateral_ratio as int == collateral_ratio_of(collateral_amount as int, loan_amount as int)
        &&& self.status == LoanStatus::Active
        &&& self.repaid_at is None
        &&& self.repayment_history@.len() == 0
        &&& self.total_interest_paid == 0
        &&& self.total_principal_paid == 0
        &&& self.early_payment_bonus_total == 0
    }

    /// What settles this loan at time `now`: the interest owed for the days
    /// elapsed plus the principal still outstanding.
    pub open spec fn amount_owed_at(&self, now: u64) -> int {
        interest_owed_of(
            self.loan_amount as int,
            self.current_interest_rate as int,
            self.term_length as int,
            days_early_at(self.due_date as int, now as int),
        ) + (self.loan_amount - self.total_principal_paid)
    }

    /// Whether this record is `before` after `payment` was applied: the
    /// payment is appended, the totals grow by its portions, and the loan is
    /// repaid, stamped with the payment's time, once the principal paid
    /// reaches the amount lent; otherwise its state is kept.
    pub open spec fn is_paid_down(&self, before: DSTLoan, payment: Repayment) -> bool {
        &&& self.loan_id == before.loan_id
        &&& self.borrower == before.borrower
        &&& self.collateral_amount == before.collateral_amount
        &&& self.loan_amount == before.loan_amount
        &&& self.base_interest_rate == before.base_interest_rate
        &&& self.current_interest_rate == before.current_interest_rate
        &&& self.term_length == before.term_length
        &&& self.created_at == before.created_at
        &&& self.due_date == before.due_date
        &&& self.collateral_ratio == before.collateral_ratio
        &&& self.repayment_history@ == before.repayment_history@.push(payment)
        &&& self.total_interest_paid == before.total_interest_paid + payment.interest_paid
        &&& self.total_principal_paid == before.total_principal_paid + payment.principal_paid
        &&& self.early_payment_bonus_total == before.early_payment_bonus_total
            + payment.early_payment_bonus
        &&& if self.total_principal_paid >= self.loan_amount {
            &&& self.status == LoanStatus::Repaid
            &&& self.repaid_at == Some(payment.timestamp)
        } else {
            &&& self.status == before.status
            &&& self.repaid_at == before.repaid_at
        }
    }
}

/// After a payment on an active loan that does not pay more principal than
/// was lent, the loan is repaid exactly when its principal is paid in full,
/// and stays active otherwise.
pub proof fn lemma_repaid_iff_principal_paid(before: DSTLoan, after: DSTLoan, payment: Repayment)
    requires
        before.status == LoanStatus::Active,
        after.is_paid_down(before, payment),
        after.total_principal_paid <= after.loan_amount,
    ensures
        after.status == LoanStatus::Repaid <==> after.total_principal_paid == after.loan_amount,
        after.status != LoanStatus::Repaid ==> after.status == LoanStatus::Active,
{
}

} // verus!
