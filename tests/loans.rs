use dst_lending::loan::LoanStatus;
use dst_lending::loan_system::{create_dst_loan_system, DSTLoanSystem, LoanError};
use dst_lending::reputation::BorrowerReputation;

const NOW: u64 = 1_700_000_000;
const DAY: u64 = 86_400;

#[test]
fn test_loan_creation() {
    let mut system = create_dst_loan_system();
    let borrower = "test_borrower".to_string();

    let result = system.create_loan(borrower.clone(), 120000000, 100000000, 30, NOW);
    assert!(result.is_ok());

    let loan_id = result.unwrap();
    let loan = system.get_loan(loan_id).unwrap();
    assert_eq!(loan.borrower, borrower);
    assert_eq!(loan.collateral_amount, 120000000);
    assert_eq!(loan.loan_amount, 100000000);
    assert_eq!(loan.term_length, 30);
    assert_eq!(loan.status, LoanStatus::Active);
}

#[test]
fn test_loan_repayment() {
    let mut system = create_dst_loan_system();
    let borrower = "test_borrower".to_string();

    let loan_id = system.create_loan(borrower.clone(), 120000000, 100000000, 30, NOW).unwrap();

    // Repaid at the moment of creation: the whole term is early and no
    // interest has accrued, so the principal alone settles the loan and there
    // is no interest to discount.
    let repayment = system.repay_loan(loan_id, 100000000, borrower.clone(), NOW).unwrap();

    assert_eq!(repayment.amount, 100000000);
    assert_eq!(repayment.early_payment_bonus, 0);
    assert!(repayment.days_early > 0);

    let loan = system.get_loan(loan_id).unwrap();
    assert_eq!(loan.status, LoanStatus::Repaid);
}

#[test]
fn test_borrower_reputation() {
    let mut system = create_dst_loan_system();
    let borrower = "test_borrower".to_string();

    for _ in 0..5 {
        let loan_id = system.create_loan(borrower.clone(), 120000000, 100000000, 30, NOW).unwrap();
        system.repay_loan(loan_id, 100000000, borrower.clone(), NOW).unwrap();
    }

    let reputation = system.get_borrower_reputation(&borrower).unwrap();
    assert_eq!(reputation.total_loans, 5);
    assert_eq!(reputation.repaid_loans, 5);
    assert!(reputation.credit_score > 500);
}

#[test]
fn test_interest_rate_calculation() {
    let mut system = create_dst_loan_system();
    let borrower = "test_borrower".to_string();

    let loan_id = system.create_loan(borrower.clone(), 200000000, 100000000, 30, NOW).unwrap();
    let loan = system.get_loan(loan_id).unwrap();

    assert!(loan.current_interest_rate < system.interest_rate_model.base_rate);
}

#[test]
fn test_early_payment_bonus() {
    let mut system = create_dst_loan_system();
    let borrower = "test_borrower".to_string();

    let loan_id = system.create_loan(borrower.clone(), 120000000, 100000000, 30, NOW).unwrap();

    // Repaid at the moment of creation: the whole term is early, and with no
    // interest accrued there is nothing for the bonus to discount.
    let repayment = system.repay_loan(loan_id, 100000000, borrower.clone(), NOW).unwrap();

    assert_eq!(repayment.early_payment_bonus, 0);
    assert!(repayment.days_early > 20);
}

fn alice() -> String {
    "alice".to_string()
}

fn open_alice(system: &mut DSTLoanSystem) -> u64 {
    system.create_loan(alice(), 120_000_000, 100_000_000, 30, NOW).unwrap()
}

#[test]
fn minimum_collateral_loan_is_priced_at_or_above_base() {
    let mut system = DSTLoanSystem::new();
    let id = open_alice(&mut system);
    let loan = system.get_loan(id).unwrap();
    assert_eq!(id, 1);
    assert_eq!(loan.collateral_ratio, 120);
    assert!(loan.current_interest_rate >= system.interest_rate_model.base_rate);
    // base 1200, no collateral band, new-borrower factor 10500
    assert_eq!(loan.current_interest_rate, 1260);
    assert_eq!(loan.base_interest_rate, 1200);
    assert_eq!(loan.created_at, NOW);
    assert_eq!(loan.due_date, NOW + 30 * DAY);
    assert_eq!(loan.repaid_at, None);
    assert!(loan.repayment_history.is_empty());
}

#[test]
fn doubled_collateral_takes_half_the_collateral_discount() {
    let mut system = DSTLoanSystem::new();
    let id = system.create_loan(alice(), 200_000_000, 100_000_000, 30, NOW).unwrap();
    let loan = system.get_loan(id).unwrap();
    assert_eq!(loan.collateral_ratio, 200);
    // (1200 - 500 / 2) * 10500 / 10000
    assert_eq!(loan.current_interest_rate, 997);
}

#[test]
fn triple_collateral_takes_the_full_collateral_discount() {
    let mut system = DSTLoanSystem::new();
    let id = system.create_loan(alice(), 300_000_000, 100_000_000, 30, NOW).unwrap();
    let loan = system.get_loan(id).unwrap();
    assert_eq!(loan.collateral_ratio, 300);
    // (1200 - 500) * 10500 / 10000
    assert_eq!(loan.current_interest_rate, 735);
}

#[test]
fn principal_alone_ten_days_early_is_insufficient() {
    let mut system = DSTLoanSystem::new();
    let id = open_alice(&mut system);
    let due = system.get_loan(id).unwrap().due_date;
    // 20 days elapsed at 1260 / 365 = 3 bp a day: 600000 of interest
    let r = system.repay_loan(id, 100_000_000, alice(), due - 10 * DAY);
    assert_eq!(r.unwrap_err(), LoanError::InsufficientRepayment);
    let loan = system.get_loan(id).unwrap();
    assert_eq!(loan.status, LoanStatus::Active);
    assert!(loan.repayment_history.is_empty());
    assert_eq!(loan.total_principal_paid, 0);
}

#[test]
fn full_repayment_ten_days_early_earns_a_bonus() {
    let mut system = DSTLoanSystem::new();
    let id = open_alice(&mut system);
    let due = system.get_loan(id).unwrap().due_date;
    let r = system.repay_loan(id, 100_600_000, alice(), due - 10 * DAY).unwrap();
    assert_eq!(r.days_early, 10);
    // 10 days at 1% a day: 10% of 600000
    assert_eq!(r.early_payment_bonus, 60_000);
    assert_eq!(r.interest_paid, 540_000);
    assert_eq!(r.principal_paid, 100_060_000);
    assert_eq!(r.timestamp, due - 10 * DAY);
    let loan = system.get_loan(id).unwrap();
    assert_eq!(loan.status, LoanStatus::Repaid);
    assert_eq!(loan.repaid_at, Some(due - 10 * DAY));
    assert_eq!(loan.repayment_history.len(), 1);
    assert_eq!(loan.total_interest_paid, 540_000);
    assert_eq!(loan.early_payment_bonus_total, 60_000);
    let stats = system.get_system_stats();
    assert_eq!(stats.total_interest_collected, 540_000);
    assert_eq!(stats.total_early_payment_bonus, 60_000);
    assert_eq!(stats.total_loans_repaid, 1);
}

#[test]
fn repayment_at_or_after_due_pays_full_term_interest() {
    let mut system = DSTLoanSystem::new();
    let id = open_alice(&mut system);
    let due = system.get_loan(id).unwrap().due_date;
    let r = system.repay_loan(id, 101_000_000, alice(), due + 5 * DAY).unwrap();
    assert_eq!(r.days_early, 0);
    assert_eq!(r.early_payment_bonus, 0);
    // 30 days at 3 bp a day
    assert_eq!(r.interest_paid, 900_000);
    assert_eq!(r.principal_paid, 100_100_000);
}

#[test]
fn short_of_the_amount_owed_changes_nothing() {
    let mut system = DSTLoanSystem::new();
    let id = open_alice(&mut system);
    let due = system.get_loan(id).unwrap().due_date;
    let before = format!("{:?}", system.get_loan(id).unwrap());
    let r = system.repay_loan(id, 100_599_999, alice(), due - 10 * DAY);
    assert_eq!(r.unwrap_err(), LoanError::InsufficientRepayment);
    assert_eq!(format!("{:?}", system.get_loan(id).unwrap()), before);
    let rep = system.get_borrower_reputation(&alice()).unwrap();
    assert_eq!(rep.repaid_loans, 0);
    assert_eq!(system.get_system_stats().total_interest_collected, 0);
}

#[test]
fn five_cycles_build_a_strong_reputation() {
    let mut system = DSTLoanSystem::new();
    for i in 0..5u64 {
        let start = NOW + i * 40 * DAY;
        let id = system.create_loan(alice(), 120_000_000, 100_000_000, 30, start).unwrap();
        let due = system.get_loan(id).unwrap().due_date;
        system.repay_loan(id, 101_000_000, alice(), due - 10 * DAY).unwrap();
    }
    let rep = system.get_borrower_reputation(&alice()).unwrap();
    assert_eq!(rep.total_loans, 5);
    assert_eq!(rep.repaid_loans, 5);
    assert!(rep.credit_score > 500);
    assert_eq!(rep.credit_score, 1000);
    assert_eq!(rep.average_repayment_time, 10);
    assert_eq!(rep.prompt_payment_ratio, 10000);
    let stats = system.get_system_stats();
    assert_eq!(stats.total_loans_created, 5);
    assert_eq!(stats.total_loans_repaid, 5);
    assert_eq!(stats.active_loans, 0);
    assert_eq!(stats.prompt_payment_rate, 10000);
}

#[test]
fn a_strong_reputation_lowers_the_next_rate() {
    let mut system = DSTLoanSystem::new();
    let id = open_alice(&mut system);
    system.repay_loan(id, 100_000_000, alice(), NOW).unwrap();
    assert_eq!(system.get_borrower_reputation(&alice()).unwrap().credit_score, 1000);
    let next = system.create_loan(alice(), 120_000_000, 100_000_000, 30, NOW).unwrap();
    // 1200 at the excellent-credit factor of 8000
    assert_eq!(system.get_loan(next).unwrap().current_interest_rate, 960);
}

#[test]
fn opening_a_loan_counts_it_and_rescores() {
    let mut system = DSTLoanSystem::new();
    assert!(system.get_borrower_reputation(&alice()).is_none());
    open_alice(&mut system);
    let rep = system.get_borrower_reputation(&alice()).unwrap();
    assert_eq!(rep.borrower, "alice");
    assert_eq!(rep.total_loans, 1);
    assert_eq!(rep.repaid_loans, 0);
    assert_eq!(rep.prompt_payment_ratio, 0);
    // no repayment yet, average time 0 < 7: only the speed bonus
    assert_eq!(rep.credit_score, 100);
    assert_eq!(rep.last_activity, NOW);
}

#[test]
fn creation_validates_its_inputs() {
    let mut system = DSTLoanSystem::new();
    assert_eq!(system.create_loan(alice(), 1, 0, 30, NOW), Err(LoanError::ZeroLoanAmount));
    assert_eq!(system.create_loan(alice(), 0, 100, 30, NOW), Err(LoanError::ZeroCollateral));
    assert_eq!(system.create_loan(alice(), 200, 100, 0, NOW), Err(LoanError::ZeroTerm));
    assert_eq!(
        system.create_loan(alice(), 119_999_999, 100_000_000, 30, NOW),
        Err(LoanError::InsufficientCollateral)
    );
    assert_eq!(system.next_loan_id, 1);
    assert!(system.loans.is_empty());
    assert!(system.borrower_reputations.is_empty());
    assert_eq!(system.create_loan(alice(), 120, 100, 1, NOW), Ok(1));
}

#[test]
fn repayment_refusals() {
    let mut system = DSTLoanSystem::new();
    let id = open_alice(&mut system);
    assert_eq!(system.repay_loan(0, 1, alice(), NOW), Err(LoanError::LoanNotFound));
    assert_eq!(system.repay_loan(id + 1, 1, alice(), NOW), Err(LoanError::LoanNotFound));
    assert_eq!(
        system.repay_loan(id, 200_000_000, "mallory".to_string(), NOW),
        Err(LoanError::UnauthorizedBorrower)
    );
    system.repay_loan(id, 100_000_000, alice(), NOW).unwrap();
    assert_eq!(system.repay_loan(id, 200_000_000, alice(), NOW), Err(LoanError::LoanNotActive));
}

#[test]
fn error_messages() {
    assert_eq!(LoanError::LoanNotFound.message(), "Loan not found");
    assert_eq!(LoanError::InsufficientRepayment.message(), "Insufficient repayment amount");
    assert_eq!(
        LoanError::InsufficientCollateral.message(),
        "Insufficient collateral: minimum 120% required"
    );
}

#[test]
fn lookups_repeat_identically() {
    let mut system = DSTLoanSystem::new();
    let id = open_alice(&mut system);
    let first = format!("{:?}", system.get_loan(id));
    let second = format!("{:?}", system.get_loan(id));
    assert_eq!(first, second);
    let first = format!("{:?}", system.get_borrower_reputation(&alice()));
    let second = format!("{:?}", system.get_borrower_reputation(&alice()));
    assert_eq!(first, second);
    assert!(system.get_loan(id + 1).is_none());
}

#[test]
fn loans_of_a_borrower_in_creation_order() {
    let mut system = DSTLoanSystem::new();
    let a1 = open_alice(&mut system);
    let b1 = system.create_loan("bob".to_string(), 150, 100, 10, NOW).unwrap();
    let a2 = open_alice(&mut system);
    let ids: Vec<u64> = system.get_borrower_loans(&alice()).iter().map(|l| l.loan_id).collect();
    assert_eq!(ids, vec![a1, a2]);
    let ids: Vec<u64> = system.get_borrower_loans(&"bob".to_string()).iter().map(|l| l.loan_id).collect();
    assert_eq!(ids, vec![b1]);
    assert!(system.get_borrower_loans(&"carol".to_string()).is_empty());
}

#[test]
fn statistics_over_mixed_loans() {
    let mut system = DSTLoanSystem::new();
    let empty = system.get_system_stats();
    assert_eq!(empty.average_interest_rate, 0);
    assert_eq!(empty.prompt_payment_rate, 0);
    let a = open_alice(&mut system);
    system.create_loan("bob".to_string(), 200_000_000, 100_000_000, 30, NOW).unwrap();
    system.repay_loan(a, 100_000_000, alice(), NOW).unwrap();
    let stats = system.get_system_stats();
    assert_eq!(stats.total_loans_created, 2);
    assert_eq!(stats.total_loans_repaid, 1);
    assert_eq!(stats.active_loans, 1);
    assert_eq!(stats.defaulted_loans, 0);
    // (1260 + 997) / 2
    assert_eq!(stats.average_interest_rate, 1128);
    // the repaid loan earned no bonus
    assert_eq!(stats.prompt_payment_rate, 0);
}

#[test]
fn early_bonus_grows_with_days_up_to_the_cap() {
    let system = DSTLoanSystem::new();
    assert_eq!(system.calculate_early_payment_bonus(10_000, 0), 0);
    assert_eq!(system.calculate_early_payment_bonus(10_000, 1), 100);
    assert_eq!(system.calculate_early_payment_bonus(10_000, 10), 1_000);
    assert_eq!(system.calculate_early_payment_bonus(10_000, 75), 7_500);
    assert_eq!(system.calculate_early_payment_bonus(10_000, 400), 7_500);
    let mut last = 0;
    for d in 0..120 {
        let b = system.calculate_early_payment_bonus(600_000, d);
        assert!(b >= last);
        last = b;
    }
}

#[test]
fn interest_owed_over_elapsed_days() {
    let mut system = DSTLoanSystem::new();
    let id = open_alice(&mut system);
    let loan = system.get_loan(id).unwrap();
    assert_eq!(system.calculate_interest_owed(loan, 0), 900_000);
    assert_eq!(system.calculate_interest_owed(loan, 10), 600_000);
    assert_eq!(system.calculate_interest_owed(loan, 30), 0);
}

#[test]
fn low_rates_round_to_a_zero_daily_rate() {
    let mut system = DSTLoanSystem::new();
    let id = open_alice(&mut system);
    let mut loan = system.get_loan(id).unwrap().clone();
    loan.current_interest_rate = 364;
    assert_eq!(system.calculate_interest_owed(&loan, 0), 0);
}

#[test]
fn interest_rate_floor_and_bands() {
    let mut system = DSTLoanSystem::new();
    let rep = BorrowerReputation {
        borrower: alice(),
        total_loans: 0,
        repaid_loans: 0,
        defaulted_loans: 0,
        average_repayment_time: 0,
        prompt_payment_ratio: 0,
        credit_score: 950,
        last_activity: 0,
        total_early_payment_bonus: 0,
    };
    assert_eq!(system.calculate_interest_rate(150, &rep), 960);
    assert_eq!(system.calculate_interest_rate(151, &rep), 760);
    assert_eq!(system.calculate_interest_rate(201, &rep), 560);
    system.interest_rate_model.base_rate = 100;
    assert_eq!(system.calculate_interest_rate(300, &rep), 100);
}

fn reputation(total: u64, repaid: u64, ratio: u64, avg: u64, score: u64) -> BorrowerReputation {
    BorrowerReputation {
        borrower: alice(),
        total_loans: total,
        repaid_loans: repaid,
        defaulted_loans: 0,
        average_repayment_time: avg,
        prompt_payment_ratio: ratio,
        credit_score: score,
        last_activity: 0,
        total_early_payment_bonus: 0,
    }
}

#[test]
fn credit_score_formula() {
    assert_eq!(reputation(0, 0, 0, 0, 0).calculate_credit_score(), 500);
    assert_eq!(reputation(0, 3, 9000, 1, 0).calculate_credit_score(), 500);
    assert_eq!(reputation(1, 0, 0, 3, 0).calculate_credit_score(), 100);
    assert_eq!(reputation(1, 0, 0, 7, 0).calculate_credit_score(), 0);
    assert_eq!(reputation(2, 1, 5000, 10, 0).calculate_credit_score(), 1000);
    assert_eq!(reputation(3, 0, 300, 10, 0).calculate_credit_score(), 300);
    assert_eq!(reputation(u64::MAX, u64::MAX, u64::MAX, 0, 0).calculate_credit_score(), 1000);
}

#[test]
fn rate_factor_bands() {
    let cases = [
        (1000, 8000),
        (900, 8000),
        (899, 9000),
        (800, 9000),
        (799, 9500),
        (700, 9500),
        (699, 10000),
        (600, 10000),
        (599, 10500),
        (500, 10500),
        (499, 11000),
        (0, 11000),
        (1001, 11000),
    ];
    for (score, factor) in cases {
        assert_eq!(reputation(1, 1, 0, 0, score).get_interest_rate_factor(), factor);
    }
}

#[test]
fn exact_payoff_at_due_closes_the_loan() {
    let mut system = DSTLoanSystem::new();
    let id = open_alice(&mut system);
    let due = system.get_loan(id).unwrap().due_date;
    let r = system.repay_loan(id, 100_900_000, alice(), due).unwrap();
    assert_eq!(r.principal_paid, 100_000_000);
    let loan = system.get_loan(id).unwrap();
    assert_eq!(loan.total_principal_paid, loan.loan_amount);
    assert_eq!(loan.status, LoanStatus::Repaid);
    let rep = system.get_borrower_reputation(&alice()).unwrap();
    assert_eq!(rep.repaid_loans, 1);
    // repaid on the due date: the running average is left as it was
    assert_eq!(rep.average_repayment_time, 0);
    assert_eq!(rep.credit_score, 1000);
}

#[test]
fn quote_matches_the_repayment() {
    let mut system = DSTLoanSystem::new();
    let id = open_alice(&mut system);
    let due = system.get_loan(id).unwrap().due_date;
    let at = due - 10 * DAY;
    assert_eq!(
        system.quote_repayment(id, 100_000_000, &alice(), at),
        Err(LoanError::InsufficientRepayment)
    );
    assert_eq!(system.quote_repayment(id, 1, &"bob".to_string(), at), Err(LoanError::UnauthorizedBorrower));
    let quote = system.quote_repayment(id, 100_600_000, &alice(), at).unwrap();
    assert_eq!(system.get_loan(id).unwrap().status, LoanStatus::Active);
    let paid = system.repay_loan(id, 100_600_000, alice(), at).unwrap();
    assert_eq!(quote, paid);
    assert_eq!(paid.interest_paid + paid.principal_paid, 100_600_000);
}

#[test]
fn standard_engine_from_the_factory() {
    let system = create_dst_loan_system();
    let m = system.interest_rate_model;
    assert_eq!(
        (m.base_rate, m.prompt_payment_discount, m.risk_premium, m.collateral_discount),
        (1200, 100, 200, 500)
    );
    assert_eq!((m.borrower_history_factor, m.max_discount), (10000, 7500));
    assert_eq!(system.total_interest_collected, 0);
    assert_eq!(system.total_early_payment_bonus, 0);
    assert_eq!(system.next_loan_id, 1);
}
