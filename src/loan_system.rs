//! The orchestrator: owns every loan and every borrower reputation, opens and
//! repays loans, and reports aggregate statistics.

use vstd::prelude::*;
use crate::loan::{DSTLoan, LoanStatus, Repayment};
use crate::policy::{
    collateral_ratio_of, days_early_at, interest_owed_of, sat_sub, InterestRateModel, BP_SCALE,
    DAYS_PER_YEAR, MAX_RATE_BP, MIN_COLLATERAL_RATIO, MIN_RATE_BP, SECONDS_PER_DAY,
};
use crate::reputation::{BorrowerReputation, MAX_CREDIT_SCORE, NEUTRAL_CREDIT_SCORE};

verus! {

/// Why a creation or a repayment was refused. No refusal changes any state.
#[derive(Debug, Clone, Copy, PartialEq, Eq, Structural)]
pub enum LoanError {
    ZeroLoanAmount,
    ZeroCollateral,
    ZeroTerm,
    InsufficientCollateral,
    LoanNotFound,
    UnauthorizedBorrower,
    LoanNotActive,
    InsufficientRepayment,
}

impl LoanError {
    /// A human-readable description of the refusal.
    pub fn message(&self) -> &'static str {
        match self {
            LoanError::ZeroLoanAmount => "Loan amount must be greater than zero",
            LoanError::ZeroCollateral => "Collateral amount must be greater than zero",
            LoanError::ZeroTerm => "Term length must be greater than zero",
            LoanError::InsufficientCollateral => "Insufficient collateral: minimum 120% required",
            LoanError::LoanNotFound => "Loan not found",
            LoanError::UnauthorizedBorrower => "Unauthorized borrower",
            LoanError::LoanNotActive => "Loan is not active",
            LoanError::InsufficientRepayment => "Insufficient repayment amount",
        }
    }
}

/// Aggregate figures over the whole engine.
#[derive(Debug, Clone, Copy, PartialEq, Eq, Structural)]
pub struct SystemStats {
    pub total_loans_created: u64,
    pub total_loans_repaid: u64,
    pub total_interest_collected: u64,
    pub total_early_payment_bonus: u64,
    pub active_loans: u64,
    pub defaulted_loans: u64,
    pub average_interest_rate: u64,
    pub prompt_payment_rate: u64,
}

/// The lending engine. Loan `n` is stored at position `n - 1` of `loans`, so
/// ids are handed out in sequence and never reused; each borrower has at most
/// one reputation record.
pub struct DSTLoanSystem {
    pub loans: Vec<DSTLoan>,
    pub borrower_reputations: Vec<BorrowerReputation>,
    pub interest_rate_model: InterestRateModel,
    pub next_loan_id: u64,
    pub total_loans_created: u64,
    pub total_loans_repaid: u64,
    pub total_interest_collected: u64,
    pub total_early_payment_bonus: u64,
}

/// How many loans of `loans` satisfy `pred`.
pub open spec fn count_where(loans: Seq<DSTLoan>, pred: spec_fn(DSTLoan) -> bool) -> nat
    decreases loans.len(),
{
    if loans.len() == 0 {
        0
    } else {
        count_where(loans.drop_last(), pred) + if pred(loans.last()) { 1nat } else { 0nat }
    }
}

/// The sum of the current interest rates of `loans`.
pub open spec fn sum_of_rates(loans: Seq<DSTLoan>) -> int
    decreases loans.len(),
{
    if loans.len() == 0 {
        0
    } else {
        sum_of_rates(loans.drop_last()) + loans.last().current_interest_rate
    }
}

/// The loans of `loans` taken by `borrower`, in order.
pub open spec fn loans_of(loans: Seq<DSTLoan>, borrower: Seq<char>) -> Seq<DSTLoan>
    decreases loans.len(),
{
    if loans.len() == 0 {
        Seq::empty()
    } else if loans.last().borrower@ == borrower {
        loans_of(loans.drop_last(), borrower).push(loans.last())
    } else {
        loans_of(loans.drop_last(), borrower)
    }
}

/// Holds of the loans taken by `borrower`.
pub open spec fn taken_by(borrower: Seq<char>) -> spec_fn(DSTLoan) -> bool {
    |l: DSTLoan| l.borrower@ == borrower
}

/// Holds of the repaid loans taken by `borrower`.
pub open spec fn repaid_by(borrower: Seq<char>) -> spec_fn(DSTLoan) -> bool {
    |l: DSTLoan| l.borrower@ == borrower && l.status == LoanStatus::Repaid
}

/// Holds of the loans in `status`.
pub open spec fn in_status(status: LoanStatus) -> spec_fn(DSTLoan) -> bool {
    |l: DSTLoan| l.status == status
}

/// Holds of the repaid loans that earned an early bonus.
pub open spec fn repaid_with_bonus() -> spec_fn(DSTLoan) -> bool {
    |l: DSTLoan| l.status == LoanStatus::Repaid && l.early_payment_bonus_total > 0
}

/// Appending a loan adds one to a count exactly when the loan is counted.
pub proof fn lemma_count_push(s: Seq<DSTLoan>, l: DSTLoan, pred: spec_fn(DSTLoan) -> bool)
    ensures
        count_where(s.push(l), pred) == count_where(s, pred) + if pred(l) { 1nat } else { 0nat },
{
    assert(s.push(l).drop_last() =~= s);
}

/// Replacing a loan changes a count by what the new loan adds and the old
/// one took away.
pub proof fn lemma_count_update(
    s: Seq<DSTLoan>,
    i: int,
    l: DSTLoan,
    pred: spec_fn(DSTLoan) -> bool,
)
    requires
        0 <= i < s.len(),
    ensures
        count_where(s.update(i, l), pred) + (if pred(s[i]) { 1int } else { 0int })
            == count_where(s, pred) + (if pred(l) { 1int } else { 0int }),
    decreases s.len(),
{
    if i == s.len() - 1 {
        assert(s.update(i, l).drop_last() =~= s.drop_last());
    } else {
        lemma_count_update(s.drop_last(), i, l, pred);
        assert(s.update(i, l).drop_last() =~= s.drop_last().update(i, l));
    }
}

/// A weaker condition counts at least as many loans.
pub proof fn lemma_count_mono(
    s: Seq<DSTLoan>,
    p: spec_fn(DSTLoan) -> bool,
    q: spec_fn(DSTLoan) -> bool,
)
    requires
        forall|l: DSTLoan| #[trigger] p(l) ==> q(l),
    ensures
        count_where(s, p) <= count_where(s, q),
    decreases s.len(),
{
    if s.len() > 0 {
        lemma_count_mono(s.drop_last(), p, q);
    }
}

/// No count exceeds the number of loans.
pub proof fn lemma_count_le_len(s: Seq<DSTLoan>, p: spec_fn(DSTLoan) -> bool)
    ensures
        count_where(s, p) <= s.len(),
    decreases s.len(),
{
    if s.len() > 0 {
        lemma_count_le_len(s.drop_last(), p);
    }
}

/// A condition that no loan meets counts zero.
pub proof fn lemma_count_none(s: Seq<DSTLoan>, p: spec_fn(DSTLoan) -> bool)
    requires
        forall|i: int| 0 <= i < s.len() ==> !p(#[trigger] s[i]),
    ensures
        count_where(s, p) == 0,
    decreases s.len(),
{
    if s.len() > 0 {
        assert forall|i: int| 0 <= i < s.drop_last().len() implies !p(#[trigger] s.drop_last()[i]) by {
            assert(s.drop_last()[i] == s[i]);
        }
        lemma_count_none(s.drop_last(), p);
        assert(!p(s[s.len() - 1]));
    }
}

impl DSTLoanSystem {
    /// Whether `borrower` has a reputation record.
    pub open spec fn has_reputation(&self, borrower: Seq<char>) -> bool {
        exists|j: int|
            0 <= j < self.borrower_reputations@.len()
                && (#[trigger] self.borrower_reputations@[j]).borrower@ == borrower
    }

    /// The position of `borrower`'s reputation record, when `has_reputation(borrower)`.
    pub open spec fn reputation_index(&self, borrower: Seq<char>) -> int {
        choose|j: int|
            0 <= j < self.borrower_reputations@.len()
                && (#[trigger] self.borrower_reputations@[j]).borrower@ == borrower
    }

    /// The credit score that prices `borrower`'s next loan: the score on
    /// record, or the neutral score for a borrower not seen before.
    pub open spec fn standing(&self, borrower: Seq<char>) -> int {
        if self.has_reputation(borrower) {
            self.borrower_reputations@[self.reputation_index(borrower)].credit_score as int
        } else {
            NEUTRAL_CREDIT_SCORE as int
        }
    }

    pub open spec fn has_loan(&self, loan_id: u64) -> bool {
        1 <= loan_id <= self.loans@.len()
    }

    /// The loan with id `loan_id`, when `has_loan(loan_id)`.
    pub open spec fn loan(&self, loan_id: u64) -> DSTLoan {
        self.loans@[loan_id - 1]
    }

    /// No two reputation records are for the same borrower.
    pub open spec fn reputations_unique(&self) -> bool {
        forall|j: int, k: int|
            0 <= j < self.borrower_reputations@.len() && 0 <= k < self.borrower_reputations@.len()
                && (#[trigger] self.borrower_reputations@[j]).borrower@
                == (#[trigger] self.borrower_reputations@[k]).borrower@ ==> j == k
    }

    /// The record of a payment of `amount` on `loan` at `now`: the early
    /// bonus is taken off the interest owed, and the rest of the amount is
    /// principal.
    pub open spec fn repayment_for(&self, loan: DSTLoan, amount: u64, now: u64) -> Repayment {
        let days_early = days_early_at(loan.due_date as int, now as int);
        let interest = interest_owed_of(
            loan.loan_amount as int,
            loan.current_interest_rate as int,
            loan.term_length as int,
            days_early,
        );
        let bonus = if days_early > 0 {
            self.interest_rate_model.early_bonus(interest, days_early)
        } else {
            0
        };
        let interest_paid = sat_sub(interest, bonus);
        Repayment {
            amount,
            timestamp: now,
            interest_paid: interest_paid as u64,
            principal_paid: (amount - interest_paid) as u64,
            early_payment_bonus: bonus as u64,
            days_early: days_early as u64,
        }
    }

    /// The arithmetic mean of the current rates of all loans, zero when there
    /// are none.
    pub open spec fn spec_average_interest_rate(&self) -> int {
        if self.loans@.len() == 0 {
            0
        } else {
            sum_of_rates(self.loans@) / (self.loans@.len() as int)
        }
    }

    /// Repaid loans that earned an early bonus, per 10000 repaid loans; zero
    /// before any repayment.
    pub open spec fn spec_prompt_payment_rate(&self) -> int {
        if self.total_loans_repaid == 0 {
            0
        } else {
            count_where(self.loans@, repaid_with_bonus()) * (BP_SCALE as int)
                / (self.total_loans_repaid as int)
        }
    }

    /// Whether `r` is the answer to looking up loan `loan_id`.
    pub open spec fn answers_loan_lookup(&self, loan_id: u64, r: Option<DSTLoan>) -> bool {
        match r {
            Some(l) => self.has_loan(loan_id) && l == self.loan(loan_id),
            None => !self.has_loan(loan_id),
        }
    }

    /// Whether `r` is the answer to looking up `borrower`'s reputation.
    pub open spec fn answers_reputation_lookup(&self, borrower: Seq<char>, r: Option<BorrowerReputation>) -> bool {
        match r {
            Some(rep) => self.has_reputation(borrower) && rep
                == self.borrower_reputations@[self.reputation_index(borrower)],
            None => !self.has_reputation(borrower),
        }
    }

    /// Whether repaying loan `loan_id` with `amount`, claimed by `borrower`
    /// at `now`, succeeds: the loan exists, is the borrower's, is active, and
    /// the amount covers what is owed.
    pub open spec fn repayment_succeeds(&self, loan_id: u64, amount: u64, borrower: Seq<char>, now: u64) -> bool {
        &&& self.has_loan(loan_id)
        &&& self.loan(loan_id).borrower@ == borrower
        &&& self.loan(loan_id).status == LoanStatus::Active
        &&& amount >= self.loan(loan_id).amount_owed_at(now)
    }

    /// The engine's invariant.
    pub open spec fn wf(&self) -> bool {
        &&& self.interest_rate_model.wf()
        &&& self.next_loan_id == self.loans@.len() + 1
        &&& self.total_loans_created == self.loans@.len()
        &&& self.total_loans_repaid == count_where(self.loans@, in_status(LoanStatus::Repaid))
        &&& forall|i: int|
            0 <= i < self.loans@.len() ==> {
                &&& (#[trigger] self.loans@[i]).loan_id == i + 1
                &&& self.loans@[i].wf()
                &&& self.has_reputation(self.loans@[i].borrower@)
            }
        &&& self.reputations_unique()
        &&& forall|j: int|
            0 <= j < self.borrower_reputations@.len() ==> {
                let r = #[trigger] self.borrower_reputations@[j];
                &&& r.total_loans == count_where(self.loans@, taken_by(r.borrower@))
                &&& r.repaid_loans == count_where(self.loans@, repaid_by(r.borrower@))
                &&& r.credit_score == r.spec_credit_score()
            }
    }

    /// The position of `borrower`'s reputation record, if there is one.
    fn find_reputation(&self, borrower: &String) -> (r: Option<usize>)
        requires
            self.reputations_unique(),
        ensures
            match r {
                Some(j) => {
                    &&& self.has_reputation(borrower@)
                    &&& j == self.reputation_index(borrower@)
                    &&& j < self.borrower_reputations@.len()
                },
                None => !self.has_reputation(borrower@),
            },
    {
        let mut j: usize = 0;
        while j < self.borrower_reputations.len()
            invariant
                self.reputations_unique(),
                j <= self.borrower_reputations@.len(),
                forall|k: int| 0 <= k < j ==> (#[trigger] self.borrower_reputations@[k]).borrower@ != borrower@,
            decreases self.borrower_reputations@.len() - j,
        {
            if self.borrower_reputations[j].borrower == *borrower {
                assert(self.borrower_reputations@[j as int].borrower@ == borrower@);
                assert(self.has_reputation(borrower@));
                let ghost k = self.reputation_index(borrower@);
                assert(0 <= k < self.borrower_reputations@.len());
                assert(self.borrower_reputations@[k].borrower@ == borrower@);
                return Some(j);
            }
            j += 1;
        }
        None
    }

    /// Returns the position of `borrower`'s reputation record, first creating
    /// a neutral one stamped `now` if the borrower has none.
    fn get_or_create_borrower_reputation(&mut self, borrower: &String, now: u64) -> (j: usize)
        requires
            old(self).reputations_unique(),
        ensures
            final(self).reputations_unique(),
            final(self).has_reputation(borrower@),
            j == final(self).reputation_index(borrower@),
            j < final(self).borrower_reputations@.len(),
            old(self).has_reputation(borrower@) ==> *final(self) == *old(self),
            !old(self).has_reputation(borrower@) ==> {
                &&& final(self).borrower_reputations@ == old(self).borrower_reputations@.push(
                    BorrowerReputation::fresh(*borrower, now),
                )
                &&& final(self).loans == old(self).loans
                &&& final(self).interest_rate_model == old(self).interest_rate_model
                &&& final(self).next_loan_id == old(self).next_loan_id
                &&& final(self).total_loans_created == old(self).total_loans_created
                &&& final(self).total_loans_repaid == old(self).total_loans_repaid
                &&& final(self).total_interest_collected == old(self).total_interest_collected
                &&& final(self).total_early_payment_bonus == old(self).total_early_payment_bonus
            },
    {
        match self.find_reputation(borrower) {
            Some(j) => j,
            None => {
                let rep = BorrowerReputation {
                    borrower: borrower.clone(),
                    total_loans: 0,
                    repaid_loans: 0,
                    defaulted_loans: 0,
                    average_repayment_time: 0,
                    prompt_payment_ratio: 0,
                    credit_score: NEUTRAL_CREDIT_SCORE,
                    last_activity: now,
                    total_early_payment_bonus: 0,
                };
                let j = self.borrower_reputations.len();
                self.borrower_reputations.push(rep);
                assert(self.borrower_reputations@[j as int].borrower@ == borrower@);
                assert(self.has_reputation(borrower@));
                assert forall|a: int, b: int|
                    0 <= a < self.borrower_reputations@.len() && 0 <= b < self.borrower_reputations@.len()
                        && (#[trigger] self.borrower_reputations@[a]).borrower@
                        == (#[trigger] self.borrower_reputations@[b]).borrower@ implies a == b by {
                    if a < j && b == j {
                        assert(old(self).borrower_reputations@[a] == self.borrower_reputations@[a]);
                    } else if b < j && a == j {
                        assert(old(self).borrower_reputations@[b] == self.borrower_reputations@[b]);
                    } else if a < j && b < j {
                        assert(old(self).borrower_reputations@[a] == self.borrower_reputations@[a]);
                        assert(old(self).borrower_reputations@[b] == self.borrower_reputations@[b]);
                    }
                }
                j
            },
        }
    }

    /// Records a reputation event for `borrower`: `new_loans` loans opened,
    /// `repaid_loans` repaid and `defaulted_loans` defaulted, the repayment
    /// made `days_early` days early, at time `now`. Nothing happens for a
    /// borrower without a record.
    fn update_borrower_reputation(
        &mut self,
        borrower: &String,
        new_loans: u64,
        repaid_loans: u64,
        defaulted_loans: u64,
        days_early: u64,
        now: u64,
    )
        requires
            old(self).reputations_unique(),
            old(self).has_reputation(borrower@) ==> old(self).borrower_reputations@[old(self).reputation_index(borrower@)].can_record(new_loans, repaid_loans, defaulted_loans, days_early),
        ensures
            final(self).borrower_reputations@ == if old(self).has_reputation(borrower@) {
                let j = old(self).reputation_index(borrower@);
                old(self).borrower_reputations@.update(
                    j,
                    old(self).borrower_reputations@[j].recorded(
                        new_loans,
                        repaid_loans,
                        defaulted_loans,
                        days_early,
                        now,
                    ),
                )
            } else {
                old(self).borrower_reputations@
            },
            final(self).loans == old(self).loans,
            final(self).interest_rate_model == old(self).interest_rate_model,
            final(self).next_loan_id == old(self).next_loan_id,
            final(self).total_loans_created == old(self).total_loans_created,
            final(self).total_loans_repaid == old(self).total_loans_repaid,
            final(self).total_interest_collected == old(self).total_interest_collected,
            final(self).total_early_payment_bonus == old(self).total_early_payment_bonus,
    {
        if let Some(j) = self.find_reputation(borrower) {
            let ghost before = self.borrower_reputations@[j as int];
            let rep = &mut self.borrower_reputations[j];
            rep.total_loans = rep.total_loans + new_loans;
            rep.repaid_loans = rep.repaid_loans + repaid_loans;
            rep.defaulted_loans = rep.defaulted_loans + defaulted_loans;
            rep.last_activity = now;
            if days_early > 0 {
                let avg: u128 = rep.average_repayment_time as u128;
                let n: u128 = rep.repaid_loans as u128;
                let d: u128 = days_early as u128;
                assert(avg * (n - 1) + d <= 0xffff_ffff_ffff_ffffu128 * n
                    && (avg * (n - 1) + d) / (n as int) <= 0xffff_ffff_ffff_ffffu128) by (nonlinear_arith)
                    requires
                        avg <= 0xffff_ffff_ffff_ffffu128,
                        d <= 0xffff_ffff_ffff_ffffu128,
                        1 <= n <= 0xffff_ffff_ffff_ffffu128,
                ;
                rep.average_repayment_time = ((avg * (n - 1) + d) / n) as u64;
            }
            if rep.total_loans > 0 {
                assert(rep.repaid_loans * BP_SCALE / (rep.total_loans as int) <= BP_SCALE
                    && rep.repaid_loans * BP_SCALE <= 0xffff_ffff_ffff_ffffu128 * 10000) by (nonlinear_arith)
                    requires
                        rep.repaid_loans <= rep.total_loans,
                        rep.total_loans > 0,
                ;
                rep.prompt_payment_ratio = ((rep.repaid_loans as u128 * BP_SCALE as u128)
                    / rep.total_loans as u128) as u64;
            }
            rep.credit_score = rep.calculate_credit_score();
            assert(self.borrower_reputations@[j as int] == before.recorded(
                new_loans,
                repaid_loans,
                defaulted_loans,
                days_early,
                now,
            ));
        }
    }

    /// Opens a loan of `loan_amount` against `collateral_amount` for
    /// `term_length` days at time `now`, and returns its id. Amounts and term
    /// must be positive and the collateral ratio at least 120%. The rate is
    /// priced from the ratio and the borrower's standing before this loan; the
    /// borrower's reputation then counts one more loan.
    pub fn create_loan(
        &mut self,
        borrower: String,
        collateral_amount: u64,
        loan_amount: u64,
        term_length: u64,
        now: u64,
    ) -> (r: Result<u64, LoanError>)
        requires
            old(self).wf(),
            loan_amount > 0 && collateral_amount > 0 && term_length > 0 ==> collateral_amount * 100
                <= u64::MAX,
            loan_amount > 0 && collateral_amount > 0 && term_length > 0 && collateral_ratio_of(
                collateral_amount as int,
                loan_amount as int,
            ) >= MIN_COLLATERAL_RATIO ==> old(self).next_loan_id < u64::MAX && now + term_length
                * SECONDS_PER_DAY <= u64::MAX,
        ensures
            final(self).wf(),
            loan_amount == 0 ==> r == Err::<u64, LoanError>(LoanError::ZeroLoanAmount),
            loan_amount > 0 && collateral_amount == 0 ==> r == Err::<u64, LoanError>(
                LoanError::ZeroCollateral,
            ),
            loan_amount > 0 && collateral_amount > 0 && term_length == 0 ==> r == Err::<
                u64,
                LoanError,
            >(LoanError::ZeroTerm),
            loan_amount > 0 && collateral_amount > 0 && term_length > 0 && collateral_ratio_of(
                collateral_amount as int,
                loan_amount as int,
            ) < MIN_COLLATERAL_RATIO ==> r == Err::<u64, LoanError>(LoanError::InsufficientCollateral),
            r is Err ==> *final(self) == *old(self),
            loan_amount > 0 && collateral_amount > 0 && term_length > 0 && collateral_ratio_of(
                collateral_amount as int,
                loan_amount as int,
            ) >= MIN_COLLATERAL_RATIO ==> {
                let id = old(self).next_loan_id;
                let ratio = collateral_ratio_of(collateral_amount as int, loan_amount as int);
                let model = old(self).interest_rate_model;
                &&& r == Ok::<u64, LoanError>(id)
                &&& final(self).loan(id).collateral_ratio >= MIN_COLLATERAL_RATIO
                &&& final(self).loan(id).current_interest_rate >= MIN_RATE_BP
                &&& final(self).loans@ == old(self).loans@.push(final(self).loan(id))
                &&& final(self).loan(id).is_opened(
                    id,
                    borrower@,
                    collateral_amount,
                    loan_amount,
                    term_length,
                    model.base_rate,
                    model.rate_for(ratio, old(self).standing(borrower@)) as u64,
                    now,
                )
                &&& final(self).borrower_reputations@ == if old(self).has_reputation(borrower@) {
                    let j = old(self).reputation_index(borrower@);
                    old(self).borrower_reputations@.update(
                        j,
                        old(self).borrower_reputations@[j].recorded(1, 0, 0, 0, now),
                    )
                } else {
                    old(self).borrower_reputations@.push(
                        BorrowerReputation::fresh(borrower, now).recorded(1, 0, 0, 0, now),
                    )
                }
                &&& final(self).interest_rate_model == model
                &&& final(self).next_loan_id == id + 1
                &&& final(self).total_loans_created == old(self).total_loans_created + 1
                &&& final(self).total_loans_repaid == old(self).total_loans_repaid
                &&& final(self).total_interest_collected == old(self).total_interest_collected
                &&& final(self).total_early_payment_bonus == old(self).total_early_payment_bonus
            },
    {
        if loan_amount == 0 {
            return Err(LoanError::ZeroLoanAmount);
        }
        if collateral_amount == 0 {
            return Err(LoanError::ZeroCollateral);
        }
        if term_length == 0 {
            return Err(LoanError::ZeroTerm);
        }
        let collateral_ratio: u64 = collateral_amount * 100 / loan_amount;
        if collateral_ratio < MIN_COLLATERAL_RATIO {
            return Err(LoanError::InsufficientCollateral);
        }
        let ghost s0 = *self;
        let j = self.get_or_create_borrower_reputation(&borrower, now);
        let ghost s1 = *self;
        let interest_rate = self.calculate_interest_rate(
            collateral_ratio,
            &self.borrower_reputations[j],
        );
        assert(s0.standing(borrower@) == s1.borrower_reputations@[j as int].credit_score) by {
            if !s0.has_reputation(borrower@) {
                assert(s1.borrower_reputations@[j as int] == BorrowerReputation::fresh(borrower, now));
            }
        }
        let loan_id = self.next_loan_id;
        let loan = DSTLoan {
            loan_id,
            borrower: borrower.clone(),
            collateral_amount,
            loan_amount,
            base_interest_rate: self.interest_rate_model.base_rate,
            current_interest_rate: interest_rate,
            term_length,
            created_at: now,
            due_date: now + term_length * SECONDS_PER_DAY,
            repaid_at: None,
            status: LoanStatus::Active,
            repayment_history: Vec::new(),
            collateral_ratio,
            total_interest_paid: 0,
            total_principal_paid: 0,
            early_payment_bonus_total: 0,
        };
        let ghost new_loan = loan;
        self.loans.push(loan);
        self.next_loan_id = self.next_loan_id + 1;
        self.total_loans_created = self.total_loans_created + 1;
        let ghost s2 = *self;
        proof {
            let b = borrower@;
            let rep = s1.borrower_reputations@[j as int];
            if s0.has_reputation(b) {
                assert(rep.total_loans == count_where(s0.loans@, taken_by(b)));
                assert(rep.repaid_loans == count_where(s0.loans@, repaid_by(b)));
            } else {
                assert forall|i: int| 0 <= i < s0.loans@.len() implies !taken_by(b)(
                    #[trigger] s0.loans@[i],
                ) by {
                    assert(s0.has_reputation(s0.loans@[i].borrower@));
                }
                lemma_count_none(s0.loans@, taken_by(b));
                lemma_count_none(s0.loans@, repaid_by(b));
            }
            lemma_count_le_len(s0.loans@, taken_by(b));
            lemma_count_mono(s0.loans@, repaid_by(b), taken_by(b));
            assert(rep.can_record(1, 0, 0, 0));
        }
        self.update_borrower_reputation(&borrower, 1, 0, 0, 0, now);
        proof {
            let b = borrower@;
            let reps = self.borrower_reputations@;
            assert(self.loans@ == s0.loans@.push(new_loan));
            assert(self.loans@.drop_last() =~= s0.loans@);
            assert forall|k: int| 0 <= k < reps.len() implies (#[trigger] reps[k]).borrower@
                == s1.borrower_reputations@[k].borrower@ by {}
            lemma_count_push(s0.loans@, new_loan, in_status(LoanStatus::Repaid));
            assert forall|i: int| 0 <= i < self.loans@.len() implies {
                &&& (#[trigger] self.loans@[i]).loan_id == i + 1
                &&& self.loans@[i].wf()
                &&& self.has_reputation(self.loans@[i].borrower@)
            } by {
                if i < s0.loans@.len() {
                    assert(self.loans@[i] == s0.loans@[i]);
                    assert(s0.has_reputation(s0.loans@[i].borrower@));
                    let k = s0.reputation_index(s0.loans@[i].borrower@);
                    assert(s1.borrower_reputations@[k] == s0.borrower_reputations@[k]);
                    assert(reps[k].borrower@ == s0.loans@[i].borrower@);
                } else {
                    assert(reps[j as int].borrower@ == b);
                }
            }
            assert forall|a: int, c: int|
                0 <= a < reps.len() && 0 <= c < reps.len() && (#[trigger] reps[a]).borrower@
                    == (#[trigger] reps[c]).borrower@ implies a == c by {
                assert(s1.borrower_reputations@[a].borrower@ == s1.borrower_reputations@[c].borrower@);
            }
            assert forall|k: int| 0 <= k < reps.len() implies {
                let r = #[trigger] reps[k];
                &&& r.total_loans == count_where(self.loans@, taken_by(r.borrower@))
                &&& r.repaid_loans == count_where(self.loans@, repaid_by(r.borrower@))
                &&& r.credit_score == r.spec_credit_score()
            } by {
                let bk = reps[k].borrower@;
                lemma_count_push(s0.loans@, new_loan, taken_by(bk));
                lemma_count_push(s0.loans@, new_loan, repaid_by(bk));
                if k != j {
                    assert(reps[k] == s1.borrower_reputations@[k]);
                    assert(bk != b);
                    if !s0.has_reputation(b) && k == s0.borrower_reputations@.len() {
                        assert(false);
                    }
                    assert(s1.borrower_reputations@[k] == s0.borrower_reputations@[k]);
                }
            }
        }
        Ok(loan_id)
    }

    /// What repaying loan `loan_id` with `repayment_amount`, claimed by
    /// `borrower` at time `now`, would record, or why it would be refused;
    /// nothing is changed. `repay_loan` applies exactly this payment.
    pub fn quote_repayment(
        &self,
        loan_id: u64,
        repayment_amount: u64,
        borrower: &String,
        now: u64,
    ) -> (r: Result<Repayment, LoanError>)
        requires
            self.wf(),
            self.has_loan(loan_id) && self.loan(loan_id).borrower@ == borrower@ && self.loan(loan_id).status
                == LoanStatus::Active ==> self.loan(loan_id).created_at <= now,
        ensures
            !self.has_loan(loan_id) ==> r == Err::<Repayment, LoanError>(LoanError::LoanNotFound),
            self.has_loan(loan_id) && self.loan(loan_id).borrower@ != borrower@ ==> r == Err::<
                Repayment,
                LoanError,
            >(LoanError::UnauthorizedBorrower),
            self.has_loan(loan_id) && self.loan(loan_id).borrower@ == borrower@ && self.loan(loan_id).status != LoanStatus::Active ==> r == Err::<Repayment, LoanError>(
                LoanError::LoanNotActive,
            ),
            self.has_loan(loan_id) && self.loan(loan_id).borrower@ == borrower@ && self.loan(loan_id).status == LoanStatus::Active && repayment_amount < self.loan(
                loan_id,
            ).amount_owed_at(now) ==> r == Err::<Repayment, LoanError>(
                LoanError::InsufficientRepayment,
            ),
            self.repayment_succeeds(loan_id, repayment_amount, borrower@, now) ==> r == Ok::<
                Repayment,
                LoanError,
            >(self.repayment_for(self.loan(loan_id), repayment_amount, now)),
    {
        if loan_id == 0 || loan_id >= self.next_loan_id {
            return Err(LoanError::LoanNotFound);
        }
        let n: usize = self.loans.len();
        assert(loan_id - 1 < n);
        let idx: usize = (loan_id - 1) as usize;
        let loan = &self.loans[idx];
        if !(loan.borrower == *borrower) {
            return Err(LoanError::UnauthorizedBorrower);
        }
        if loan.status != LoanStatus::Active {
            return Err(LoanError::LoanNotActive);
        }
        let days_early: u64 = if now < loan.due_date {
            (loan.due_date - now) / SECONDS_PER_DAY
        } else {
            0
        };
        assert(days_early <= loan.term_length) by (nonlinear_arith)
            requires
                loan.due_date == loan.created_at + loan.term_length * 86400,
                loan.created_at <= now,
                days_early == if now < loan.due_date { (loan.due_date - now) / 86400 } else { 0 },
        ;
        let interest_owed: u128 = self.calculate_interest_owed(loan, days_early);
        let principal_owed: u64 = loan.loan_amount - loan.total_principal_paid;
        if (repayment_amount as u128) < interest_owed + principal_owed as u128 {
            return Err(LoanError::InsufficientRepayment);
        }
        let interest_owed: u64 = interest_owed as u64;
        let early_payment_bonus: u64 = if days_early > 0 {
            self.calculate_early_payment_bonus(interest_owed, days_early)
        } else {
            0
        };
        let final_interest: u64 = interest_owed.saturating_sub(early_payment_bonus);
        let principal_paid: u64 = repayment_amount - final_interest;
        let repayment = Repayment {
            amount: repayment_amount,
            timestamp: now,
            interest_paid: final_interest,
            principal_paid,
            early_payment_bonus,
            days_early,
        };
        Ok(repayment)
    }

    /// Repays loan `loan_id` in full with `repayment_amount`, claimed by
    /// `borrower` at time `now`. Refused when the loan does not exist, belongs
    /// to someone else, is not active, or the amount is less than the interest
    /// owed for the days elapsed plus the principal outstanding.
    pub fn repay_loan(
        &mut self,
        loan_id: u64,
        repayment_amount: u64,
        borrower: String,
        now: u64,
    ) -> (r: Result<Repayment, LoanError>)
        requires
            old(self).wf(),
            old(self).has_loan(loan_id) && old(self).loan(loan_id).borrower@ == borrower@ && old(self).loan(loan_id).status == LoanStatus::Active ==> old(self).loan(loan_id).created_at <= now,
            old(self).repayment_succeeds(loan_id, repayment_amount, borrower@, now) ==> {
                let payment = old(self).repayment_for(old(self).loan(loan_id), repayment_amount, now);
                &&& old(self).total_interest_collected + payment.interest_paid <= u64::MAX
                &&& old(self).total_early_payment_bonus + payment.early_payment_bonus <= u64::MAX
            },
        ensures
            final(self).wf(),
            !old(self).has_loan(loan_id) ==> r == Err::<Repayment, LoanError>(LoanError::LoanNotFound),
            old(self).has_loan(loan_id) && old(self).loan(loan_id).borrower@ != borrower@ ==> r == Err::<
                Repayment,
                LoanError,
            >(LoanError::UnauthorizedBorrower),
            old(self).has_loan(loan_id) && old(self).loan(loan_id).borrower@ == borrower@ && old(self).loan(loan_id).status != LoanStatus::Active ==> r == Err::<Repayment, LoanError>(
                LoanError::LoanNotActive,
            ),
            old(self).has_loan(loan_id) && old(self).loan(loan_id).borrower@ == borrower@ && old(self).loan(loan_id).status == LoanStatus::Active && repayment_amount < old(self).loan(
                loan_id,
            ).amount_owed_at(now) ==> r == Err::<Repayment, LoanError>(
                LoanError::InsufficientRepayment,
            ),
            r is Err ==> *final(self) == *old(self),
            old(self).repayment_succeeds(loan_id, repayment_amount, borrower@, now) ==> {
                let before = old(self).loan(loan_id);
                let payment = old(self).repayment_for(before, repayment_amount, now);
                let j = old(self).reputation_index(borrower@);
                &&& r == Ok::<Repayment, LoanError>(payment)
                &&& final(self).loans@ == old(self).loans@.update(loan_id - 1, final(self).loan(loan_id))
                &&& final(self).loan(loan_id).is_paid_down(before, payment)
                &&& final(self).loan(loan_id).status == LoanStatus::Repaid
                &&& final(self).loan(loan_id).total_principal_paid >= before.loan_amount
                &&& final(self).total_loans_repaid == old(self).total_loans_repaid + if final(self).loan(loan_id).status == LoanStatus::Repaid {
                    1int
                } else {
                    0int
                }
                &&& final(self).total_interest_collected == old(self).total_interest_collected
                    + payment.interest_paid
                &&& final(self).total_early_payment_bonus == old(self).total_early_payment_bonus
                    + payment.early_payment_bonus
                &&& final(self).borrower_reputations@ == old(self).borrower_reputations@.update(
                    j,
                    old(self).borrower_reputations@[j].recorded(0, 1, 0, payment.days_early, now),
                )
                &&& final(self).interest_rate_model == old(self).interest_rate_model
                &&& final(self).next_loan_id == old(self).next_loan_id
                &&& final(self).total_loans_created == old(self).total_loans_created
            },
    {
        let repayment = match self.quote_repayment(loan_id, repayment_amount, &borrower, now) {
            Ok(p) => p,
            Err(e) => return Err(e),
        };
        proof {
            assert(self.repayment_succeeds(loan_id, repayment_amount, borrower@, now));
            assert(self.loans@[loan_id - 1].wf());
            assert(self.loans@[loan_id - 1].loan_id == loan_id);
            lemma_successful_repayment_closes_loan(*self, loan_id, repayment_amount, borrower@, now);
        }
        let n: usize = self.loans.len();
        assert(loan_id - 1 < n);
        let idx: usize = (loan_id - 1) as usize;
        let final_interest: u64 = repayment.interest_paid;
        let principal_paid: u64 = repayment.principal_paid;
        let early_payment_bonus: u64 = repayment.early_payment_bonus;
        let days_early: u64 = repayment.days_early;
        let ghost s0 = *self;
        let ghost before = self.loans@[idx as int];
        let fully_repaid: bool;
        {
            let loan = &mut self.loans[idx];
            loan.repayment_history.push(repayment);
            loan.total_interest_paid = loan.total_interest_paid + final_interest;
            loan.total_principal_paid = loan.total_principal_paid + principal_paid;
            loan.early_payment_bonus_total = loan.early_payment_bonus_total + early_payment_bonus;
            fully_repaid = loan.total_principal_paid >= loan.loan_amount;
            if fully_repaid {
                loan.status = LoanStatus::Repaid;
                loan.repaid_at = Some(now);
            }
        }
        let ghost after = self.loans@[idx as int];
        proof {
            lemma_count_update(s0.loans@, idx as int, after, in_status(LoanStatus::Repaid));
            lemma_count_le_len(self.loans@, in_status(LoanStatus::Repaid));
        }
        if fully_repaid {
            self.total_loans_repaid = self.total_loans_repaid + 1;
        }
        self.total_interest_collected = self.total_interest_collected + final_interest;
        self.total_early_payment_bonus = self.total_early_payment_bonus + early_payment_bonus;
        let ghost s1 = *self;
        proof {
            let b = borrower@;
            assert(s0.has_reputation(before.borrower@));
            let j = s0.reputation_index(b);
            let rep = s0.borrower_reputations@[j];
            lemma_count_update(s0.loans@, idx as int, after, taken_by(b));
            lemma_count_update(s0.loans@, idx as int, after, repaid_by(b));
            lemma_count_mono(s1.loans@, repaid_by(b), taken_by(b));
            assert(rep.can_record(0, 1, 0, days_early));
        }
        self.update_borrower_reputation(&borrower, 0, 1, 0, days_early, now);
        proof {
            let b = borrower@;
            let reps = self.borrower_reputations@;
            let j = s0.reputation_index(b);
            assert(self.loans@ == s0.loans@.update(idx as int, after));
            assert forall|k: int| 0 <= k < reps.len() implies (#[trigger] reps[k]).borrower@
                == s0.borrower_reputations@[k].borrower@ by {}
            assert forall|i: int| 0 <= i < self.loans@.len() implies {
                &&& (#[trigger] self.loans@[i]).loan_id == i + 1
                &&& self.loans@[i].wf()
                &&& self.has_reputation(self.loans@[i].borrower@)
            } by {
                assert(s0.loans@[i].loan_id == i + 1);
                assert(s0.has_reputation(s0.loans@[i].borrower@));
                let k = s0.reputation_index(s0.loans@[i].borrower@);
                assert(reps[k].borrower@ == s0.loans@[i].borrower@);
            }
            assert forall|a: int, c: int|
                0 <= a < reps.len() && 0 <= c < reps.len() && (#[trigger] reps[a]).borrower@
                    == (#[trigger] reps[c]).borrower@ implies a == c by {
                assert(s0.borrower_reputations@[a].borrower@ == s0.borrower_reputations@[c].borrower@);
            }
            assert forall|k: int| 0 <= k < reps.len() implies {
                let r = #[trigger] reps[k];
                &&& r.total_loans == count_where(self.loans@, taken_by(r.borrower@))
                &&& r.repaid_loans == count_where(self.loans@, repaid_by(r.borrower@))
                &&& r.credit_score == r.spec_credit_score()
            } by {
                let bk = reps[k].borrower@;
                lemma_count_update(s0.loans@, idx as int, after, taken_by(bk));
                lemma_count_update(s0.loans@, idx as int, after, repaid_by(bk));
                if k != j {
                    assert(reps[k] == s0.borrower_reputations@[k]);
                }
            }
        }
        Ok(repayment)
    }

    /// The loan with id `loan_id`, if there is one.
    pub fn get_loan(&self, loan_id: u64) -> (r: Option<&DSTLoan>)
        requires
            self.wf(),
        ensures
            self.answers_loan_lookup(
                loan_id,
                match r {
                    Some(l) => Some(*l),
                    None => None,
                },
            ),
    {
        if loan_id == 0 || loan_id >= self.next_loan_id {
            return None;
        }
        let n: usize = self.loans.len();
        assert(loan_id - 1 < n);
        Some(&self.loans[(loan_id - 1) as usize])
    }

    /// The reputation record of `borrower`, if the borrower has one.
    pub fn get_borrower_reputation(&self, borrower: &String) -> (r: Option<&BorrowerReputation>)
        requires
            self.wf(),
        ensures
            self.answers_reputation_lookup(
                borrower@,
                match r {
                    Some(rep) => Some(*rep),
                    None => None,
                },
            ),
    {
        match self.find_reputation(borrower) {
            Some(j) => Some(&self.borrower_reputations[j]),
            None => None,
        }
    }

    /// All loans taken by `borrower`, in order of creation.
    pub fn get_borrower_loans(&self, borrower: &String) -> (r: Vec<&DSTLoan>)
        ensures
            r@.len() == loans_of(self.loans@, borrower@).len(),
            forall|k: int| 0 <= k < r@.len() ==> *(#[trigger] r@[k]) == loans_of(self.loans@, borrower@)[k],
    {
        let mut found: Vec<&DSTLoan> = Vec::new();
        let mut i: usize = 0;
        while i < self.loans.len()
            invariant
                i <= self.loans@.len(),
                found@.len() == loans_of(self.loans@.subrange(0, i as int), borrower@).len(),
                forall|k: int| 0 <= k < found@.len() ==> *(#[trigger] found@[k]) == loans_of(
                    self.loans@.subrange(0, i as int),
                    borrower@,
                )[k],
            decreases self.loans@.len() - i,
        {
            assert(self.loans@.subrange(0, i + 1).drop_last() =~= self.loans@.subrange(0, i as int));
            if self.loans[i].borrower == *borrower {
                found.push(&self.loans[i]);
            }
            i += 1;
        }
        assert(self.loans@.subrange(0, i as int) =~= self.loans@);
        found
    }

    /// How many loans are in `status`.
    fn count_loans_in_status(&self, status: LoanStatus) -> (r: u64)
        requires
            self.wf(),
        ensures
            r == count_where(self.loans@, in_status(status)),
    {
        let mut count: u64 = 0;
        let mut i: usize = 0;
        while i < self.loans.len()
            invariant
                self.wf(),
                i <= self.loans@.len(),
                count == count_where(self.loans@.subrange(0, i as int), in_status(status)),
                count <= i,
            decreases self.loans@.len() - i,
        {
            assert(self.loans@.subrange(0, i + 1).drop_last() =~= self.loans@.subrange(0, i as int));
            if self.loans[i].status == status {
                count = count + 1;
            }
            i += 1;
        }
        assert(self.loans@.subrange(0, i as int) =~= self.loans@);
        count
    }

    /// Aggregate figures over all loans.
    pub fn get_system_stats(&self) -> (r: SystemStats)
        requires
            self.wf(),
        ensures
            r.total_loans_created == self.total_loans_created,
            r.total_loans_repaid == self.total_loans_repaid,
            r.total_interest_collected == self.total_interest_collected,
            r.total_early_payment_bonus == self.total_early_payment_bonus,
            r.active_loans == count_where(self.loans@, in_status(LoanStatus::Active)),
            r.defaulted_loans == count_where(self.loans@, in_status(LoanStatus::Defaulted)),
            r.average_interest_rate == self.spec_average_interest_rate(),
            r.prompt_payment_rate == self.spec_prompt_payment_rate(),
    {
        SystemStats {
            total_loans_created: self.total_loans_created,
            total_loans_repaid: self.total_loans_repaid,
            total_interest_collected: self.total_interest_collected,
            total_early_payment_bonus: self.total_early_payment_bonus,
            active_loans: self.count_loans_in_status(LoanStatus::Active),
            defaulted_loans: self.count_loans_in_status(LoanStatus::Defaulted),
            average_interest_rate: self.calculate_average_interest_rate(),
            prompt_payment_rate: self.calculate_prompt_payment_rate(),
        }
    }

    /// The mean current rate over all loans, zero when there are none.
    fn calculate_average_interest_rate(&self) -> (r: u64)
        requires
            self.wf(),
        ensures
            r == self.spec_average_interest_rate(),
    {
        if self.loans.len() == 0 {
            return 0;
        }
        let mut total_rate: u128 = 0;
        let mut i: usize = 0;
        while i < self.loans.len()
            invariant
                self.wf(),
                i <= self.loans@.len(),
                total_rate == sum_of_rates(self.loans@.subrange(0, i as int)),
                total_rate <= i * MAX_RATE_BP,
            decreases self.loans@.len() - i,
        {
            assert(self.loans@.subrange(0, i + 1).drop_last() =~= self.loans@.subrange(0, i as int));
            assert(self.loans@[i as int].wf());
            total_rate = total_rate + self.loans[i].current_interest_rate as u128;
            i += 1;
        }
        assert(self.loans@.subrange(0, i as int) =~= self.loans@);
        let n: u128 = self.loans.len() as u128;
        assert(total_rate / n <= MAX_RATE_BP) by (nonlinear_arith)
            requires
                total_rate <= n * MAX_RATE_BP,
                n > 0,
        ;
        (total_rate / n) as u64
    }

    /// Repaid loans that earned an early bonus, per 10000 repaid loans.
    fn calculate_prompt_payment_rate(&self) -> (r: u64)
        requires
            self.wf(),
        ensures
            r == self.spec_prompt_payment_rate(),
    {
        if self.total_loans_repaid == 0 {
            return 0;
        }
        let mut prompt_payments: u64 = 0;
        let mut i: usize = 0;
        while i < self.loans.len()
            invariant
                self.wf(),
                i <= self.loans@.len(),
                prompt_payments == count_where(self.loans@.subrange(0, i as int), repaid_with_bonus()),
                prompt_payments <= i,
            decreases self.loans@.len() - i,
        {
            assert(self.loans@.subrange(0, i + 1).drop_last() =~= self.loans@.subrange(0, i as int));
            if self.loans[i].status == LoanStatus::Repaid && self.loans[i].early_payment_bonus_total > 0 {
                prompt_payments = prompt_payments + 1;
            }
            i += 1;
        }
        assert(self.loans@.subrange(0, i as int) =~= self.loans@);
        proof {
            lemma_count_mono(self.loans@, repaid_with_bonus(), in_status(LoanStatus::Repaid));
        }
        let total: u128 = self.total_loans_repaid as u128;
        let scaled: u128 = prompt_payments as u128 * BP_SCALE as u128;
        assert(scaled / total <= BP_SCALE) by (nonlinear_arith)
            requires
                scaled == prompt_payments * BP_SCALE,
                prompt_payments <= total,
                total > 0,
        ;
        (scaled / total) as u64
    }

    /// An empty engine under the standard policy: a 12% base rate, a 1% bonus
    /// per day repaid early up to 75%, and a 5% collateral discount.
    pub fn new() -> (r: Self)
        ensures
            r.wf(),
            r.loans@.len() == 0,
            r.borrower_reputations@.len() == 0,
            r.next_loan_id == 1,
            r.total_loans_created == 0,
            r.total_loans_repaid == 0,
            r.total_interest_collected == 0,
            r.total_early_payment_bonus == 0,
            r.interest_rate_model == (InterestRateModel {
                base_rate: 1200,
                prompt_payment_discount: 100,
                risk_premium: 200,
                collateral_discount: 500,
                borrower_history_factor: 10000,
                max_discount: 7500,
            }),
    {
        let r = DSTLoanSystem {
            loans: Vec::new(),
            borrower_reputations: Vec::new(),
            interest_rate_model: InterestRateModel {
                base_rate: 1200,
                prompt_payment_discount: 100,
                risk_premium: 200,
                collateral_discount: 500,
                borrower_history_factor: 10000,
                max_discount: 7500,
            },
            next_loan_id: 1,
            total_loans_created: 0,
            total_loans_repaid: 0,
            total_interest_collected: 0,
            total_early_payment_bonus: 0,
        };
        assert(count_where(r.loans@, in_status(LoanStatus::Repaid)) == 0);
        r
    }

    /// The annual rate for a loan with the given collateral ratio, priced for
    /// a borrower with the given reputation.
    pub fn calculate_interest_rate(&self, collateral_ratio: u64, borrower_rep: &BorrowerReputation) -> (r: u64)
        requires
            self.interest_rate_model.wf(),
        ensures
            r == self.interest_rate_model.rate_for(collateral_ratio as int, borrower_rep.credit_score as int),
            MIN_RATE_BP <= r <= MAX_RATE_BP,
    {
        let model = &self.interest_rate_model;
        let mut rate: u64 = model.base_rate;
        if collateral_ratio > 200 {
            rate = rate.saturating_sub(model.collateral_discount);
        } else if collateral_ratio > 150 {
            rate = rate.saturating_sub(model.collateral_discount / 2);
        }
        let factor = borrower_rep.get_interest_rate_factor();
        assert(rate * factor <= BP_SCALE * MAX_RATE_BP) by (nonlinear_arith)
            requires
                rate <= BP_SCALE,
                factor <= MAX_RATE_BP,
        ;
        let scaled: u64 = rate * factor / BP_SCALE;
        assert(scaled <= MAX_RATE_BP) by (nonlinear_arith)
            requires
                scaled == rate * factor / (BP_SCALE as int),
                rate <= BP_SCALE,
                factor <= MAX_RATE_BP,
        ;
        if scaled > MIN_RATE_BP {
            scaled
        } else {
            MIN_RATE_BP
        }
    }

    /// Interest owed on `loan` when it is repaid `days_early` days before it
    /// is due: the principal at the daily rate over the days elapsed.
    pub fn calculate_interest_owed(&self, loan: &DSTLoan, days_early: u64) -> (r: u128)
        requires
            loan.wf(),
            days_early <= loan.term_length,
        ensures
            r == interest_owed_of(
                loan.loan_amount as int,
                loan.current_interest_rate as int,
                loan.term_length as int,
                days_early as int,
            ),
            r < 0x1_0000_0000_0000_0000_0000_0000_0000u128,
    {
        let days_elapsed: u64 = if days_early > 0 {
            loan.term_length - days_early
        } else {
            loan.term_length
        };
        let daily_rate: u64 = loan.current_interest_rate / DAYS_PER_YEAR;
        assert(loan.term_length <= 0x1_0000_0000_0000) by (nonlinear_arith)
            requires
                loan.term_length * 86400 <= 0xffff_ffff_ffff_ffffu64,
        ;
        let amount: u128 = loan.loan_amount as u128;
        assert(amount * (daily_rate as u128) <= 0xffff_ffff_ffff_ffffu128 * 31) by (nonlinear_arith)
            requires
                amount <= 0xffff_ffff_ffff_ffffu128,
                daily_rate <= 31,
        ;
        let per_day: u128 = amount * daily_rate as u128;
        assert(per_day * (days_elapsed as u128) <= 0xffff_ffff_ffff_ffffu128 * 31 * 0x1_0000_0000_0000)
            by (nonlinear_arith)
            requires
                per_day <= 0xffff_ffff_ffff_ffffu128 * 31,
                days_elapsed <= 0x1_0000_0000_0000u64,
        ;
        let total: u128 = per_day * days_elapsed as u128;
        assert(total / 10000 < 0x1_0000_0000_0000_0000_0000_0000_0000u128) by (nonlinear_arith)
            requires
                total <= 0xffff_ffff_ffff_ffffu128 * 31 * 0x1_0000_0000_0000,
        ;
        total / BP_SCALE as u128
    }

    /// The early-payment bonus on `interest_owed` for paying `days_early` days
    /// before the due date. It never exceeds the interest.
    pub fn calculate_early_payment_bonus(&self, interest_owed: u64, days_early: u64) -> (r: u64)
        requires
            self.interest_rate_model.wf(),
        ensures
            r == self.interest_rate_model.early_bonus(interest_owed as int, days_early as int),
            r <= interest_owed,
    {
        let model = &self.interest_rate_model;
        assert((days_early as u128) * (model.prompt_payment_discount as u128)
            <= 0xffff_ffff_ffff_ffffu128 * 0xffff_ffff_ffff_ffffu128) by (nonlinear_arith);
        let mut share: u128 = days_early as u128 * model.prompt_payment_discount as u128;
        if share > model.max_discount as u128 {
            share = model.max_discount as u128;
        }
        assert((interest_owed as u128) * share <= 0xffff_ffff_ffff_ffffu128 * 10000)
            by (nonlinear_arith)
            requires
                share <= BP_SCALE,
                interest_owed <= 0xffff_ffff_ffff_ffffu64,
        ;
        let bonus: u128 = interest_owed as u128 * share / BP_SCALE as u128;
        assert(bonus <= interest_owed) by (nonlinear_arith)
            requires
                bonus == (interest_owed as u128) * share / (BP_SCALE as int),
                share <= BP_SCALE,
        ;
        bonus as u64
    }
}

/// A new, empty lending engine under the standard policy.
pub fn create_dst_loan_system() -> (r: DSTLoanSystem)
    ensures
        r.wf(),
        r.loans@.len() == 0,
        r.borrower_reputations@.len() == 0,
        r.next_loan_id == 1,
        r.total_loans_created == 0,
        r.total_loans_repaid == 0,
        r.total_interest_collected == 0,
        r.total_early_payment_bonus == 0,
        r.interest_rate_model == (InterestRateModel {
            base_rate: 1200,
            prompt_payment_discount: 100,
            risk_premium: 200,
            collateral_discount: 500,
            borrower_history_factor: 10000,
            max_discount: 7500,
        }),
{
    DSTLoanSystem::new()
}

/// Every loan on record was priced within policy: its collateral ratio is at
/// least 120% and its rate at least the 1% floor.
pub proof fn lemma_loans_within_policy(sys: DSTLoanSystem)
    requires
        sys.wf(),
    ensures
        forall|i: int|
            0 <= i < sys.loans@.len() ==> (#[trigger] sys.loans@[i]).collateral_ratio >= MIN_COLLATERAL_RATIO
                && sys.loans@[i].current_interest_rate >= MIN_RATE_BP,
{
    assert forall|i: int| 0 <= i < sys.loans@.len() implies (#[trigger] sys.loans@[i]).collateral_ratio
        >= MIN_COLLATERAL_RATIO && sys.loans@[i].current_interest_rate >= MIN_RATE_BP by {
        assert(sys.loans@[i].wf());
    }
}

/// Every successful repayment closes the loan. The payment splits into
/// interest and principal, and its principal covers all that was outstanding:
/// the early bonus comes off the interest only, so an early payment of what
/// is owed pays more principal than was lent. Applied to the loan, it leaves
/// the loan repaid with at least its principal paid.
pub proof fn lemma_successful_repayment_closes_loan(
    sys: DSTLoanSystem,
    loan_id: u64,
    amount: u64,
    borrower: Seq<char>,
    now: u64,
)
    requires
        sys.wf(),
        sys.repayment_succeeds(loan_id, amount, borrower, now),
        sys.loan(loan_id).created_at <= now,
    ensures
        ({
            let before = sys.loan(loan_id);
            let payment = sys.repayment_for(before, amount, now);
            &&& payment.interest_paid + payment.principal_paid == amount
            &&& before.total_principal_paid + payment.principal_paid >= before.loan_amount
            &&& forall|after: DSTLoan| #[trigger]
                after.is_paid_down(before, payment) ==> after.status == LoanStatus::Repaid
                    && after.total_principal_paid >= after.loan_amount
        }),
{
    let before = sys.loan(loan_id);
    assert(before.wf());
    let model = sys.interest_rate_model;
    let d = days_early_at(before.due_date as int, now as int);
    let term = before.term_length as int;
    assert(0 <= d <= term) by (nonlinear_arith)
        requires
            before.due_date == before.created_at + term * 86400,
            before.created_at <= now,
            d == if now < before.due_date { (before.due_date - now) / 86400 } else { 0 },
            term >= 0,
    ;
    let elapsed = if d > 0 { term - d } else { term };
    let daily = before.current_interest_rate as int / (DAYS_PER_YEAR as int);
    let interest = interest_owed_of(before.loan_amount as int, before.current_interest_rate as int, term, d);
    assert(interest >= 0) by (nonlinear_arith)
        requires
            interest == before.loan_amount * daily * elapsed / 10000,
            before.loan_amount >= 0,
            daily >= 0,
            elapsed >= 0,
    ;
    let bonus = if d > 0 { model.early_bonus(interest, d) } else { 0 };
    let share = model.bonus_share(d);
    assert(share >= 0) by (nonlinear_arith)
        requires
            share == if d * model.prompt_payment_discount <= model.max_discount {
                d * model.prompt_payment_discount
            } else {
                model.max_discount as int
            },
            d >= 0,
            model.prompt_payment_discount >= 0,
            model.max_discount >= 0,
    ;
    assert(interest * share / 10000 >= 0) by (nonlinear_arith)
        requires
            interest >= 0,
            share >= 0,
    ;
    assert(bonus >= 0);
    assert(amount >= interest + before.loan_amount);
}

/// Every credit score on record lies in `0..=1000`; a record with no loan
/// reads 500, and so does the standing of a borrower never seen.
pub proof fn lemma_credit_scores_in_range(sys: DSTLoanSystem, borrower: Seq<char>)
    requires
        sys.wf(),
    ensures
        forall|j: int|
            0 <= j < sys.borrower_reputations@.len() ==> (#[trigger] sys.borrower_reputations@[j]).credit_score
                <= MAX_CREDIT_SCORE,
        forall|j: int|
            0 <= j < sys.borrower_reputations@.len() && (#[trigger] sys.borrower_reputations@[j]).total_loans
                == 0 ==> sys.borrower_reputations@[j].credit_score == NEUTRAL_CREDIT_SCORE,
        !sys.has_reputation(borrower) ==> sys.standing(borrower) == NEUTRAL_CREDIT_SCORE,
        0 <= sys.standing(borrower) <= MAX_CREDIT_SCORE,
{
    if sys.has_reputation(borrower) {
        let j = sys.reputation_index(borrower);
        assert(sys.borrower_reputations@[j].credit_score == sys.borrower_reputations@[j].spec_credit_score());
    }
}

/// Looking a loan up twice with no change in between gives the same answer.
pub proof fn lemma_loan_lookup_idempotent(
    sys: DSTLoanSystem,
    loan_id: u64,
    first: Option<DSTLoan>,
    second: Option<DSTLoan>,
)
    requires
        sys.answers_loan_lookup(loan_id, first),
        sys.answers_loan_lookup(loan_id, second),
    ensures
        first == second,
{
}

/// Looking a reputation up twice with no change in between gives the same
/// answer.
pub proof fn lemma_reputation_lookup_idempotent(
    sys: DSTLoanSystem,
    borrower: Seq<char>,
    first: Option<BorrowerReputation>,
    second: Option<BorrowerReputation>,
)
    requires
        sys.answers_reputation_lookup(borrower, first),
        sys.answers_reputation_lookup(borrower, second),
    ensures
        first == second,
{
}

} // verus!
