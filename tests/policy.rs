use burn_hook::policy::{
    accept_noop, accept_with_burn, burn_amount, evaluate, qualification_guard, settle_payment,
    Disposition, Evaluation, TransactionView, ACCEPT_CODE, BURNED_REASON, NOOP_REASON,
};

fn noop() -> Evaluation {
    Evaluation { disposition: Disposition::Accept { reason: "", code: 0 }, burn: None }
}

fn burned(units: u64) -> Evaluation {
    Evaluation {
        disposition: Disposition::Accept { reason: "1% Spark burned", code: 0 },
        burn: Some(units),
    }
}

#[test]
fn zero_amount_is_noop_accept() {
    assert_eq!(burn_amount(0), 0);
    assert_eq!(evaluate(&TransactionView::new(true, 0)), noop());
}

#[test]
fn ninety_nine_is_noop_accept() {
    assert_eq!(burn_amount(99), 0);
    assert_eq!(evaluate(&TransactionView::new(true, 99)), noop());
}

#[test]
fn one_hundred_burns_one() {
    assert_eq!(burn_amount(100), 1);
    assert_eq!(evaluate(&TransactionView::new(true, 100)), burned(1));
}

#[test]
fn two_hundred_fifty_burns_two() {
    assert_eq!(burn_amount(250), 2);
    assert_eq!(evaluate(&TransactionView::new(true, 250)), burned(2));
}

#[test]
fn max_amount_burns_without_overflow() {
    assert_eq!(burn_amount(u64::MAX), 184_467_440_737_095_516);
    assert_eq!(evaluate(&TransactionView::new(true, u64::MAX)), burned(u64::MAX / 100));
}

#[test]
fn every_small_amount_is_noop() {
    for amount in 0..100u64 {
        assert_eq!(settle_payment(amount), noop());
    }
}

#[test]
fn large_amounts_burn_floor_of_one_percent() {
    for amount in [100u64, 101, 199, 200, 999, 1_000, 12_345, 1_000_000_007] {
        assert_eq!(settle_payment(amount), burned(amount / 100));
    }
}

#[test]
fn non_qualifying_ignores_amount() {
    for amount in [0u64, 99, 100, 250, u64::MAX] {
        assert_eq!(evaluate(&TransactionView::new(false, amount)), noop());
    }
}

#[test]
fn guard_stops_only_non_qualifying() {
    assert_eq!(qualification_guard(false), Some(noop()));
    assert_eq!(qualification_guard(true), None);
}

#[test]
fn repeated_evaluation_is_identical() {
    for tx in [TransactionView::new(true, 12_345), TransactionView::new(false, 12_345)] {
        let first = evaluate(&tx);
        let second = evaluate(&tx);
        assert_eq!(first, second);
    }
}

#[test]
fn constructors_carry_fields() {
    let tx = TransactionView::new(true, 42);
    assert!(tx.is_qualifying_payment);
    assert_eq!(tx.transferred_amount, 42);
    assert_eq!(accept_noop(), noop());
    assert_eq!(accept_with_burn(7), burned(7));
    assert_eq!(NOOP_REASON, "");
    assert_eq!(BURNED_REASON, "1% Spark burned");
    assert_eq!(ACCEPT_CODE, 0);
}
