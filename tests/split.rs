use escrow_ledger::error::ErrorCode;
use escrow_ledger::escrow::settle;
use escrow_ledger::split::{checked_sum, portion_of, split, Weighting};

#[test]
fn split_halves_keeps_remainder_with_payer() {
    let parts = split(101, &vec![5000, 5000], 10000, Weighting::FixedBps).unwrap();
    assert_eq!(parts, vec![50, 50]);
    assert_eq!(101 - parts.iter().sum::<u64>(), 1);
}

#[test]
fn split_multiplies_before_dividing() {
    assert_eq!(split(3, &vec![3333], 10000, Weighting::FixedBps).unwrap(), vec![0]);
    assert_eq!(split(10000, &vec![3333], 10000, Weighting::FixedBps).unwrap(), vec![3333]);
    assert_eq!(split(7, &vec![1, 2], 3, Weighting::Proportional).unwrap(), vec![2, 4]);
}

#[test]
fn split_rejects_weights_past_denominator() {
    assert_eq!(
        split(100, &vec![6000, 5000], 10000, Weighting::FixedBps),
        Err(ErrorCode::InvalidWeights)
    );
    assert_eq!(split(100, &vec![6000, 5000], 10000, Weighting::Proportional).unwrap(), vec![60, 50]);
}

#[test]
fn split_reports_overflow() {
    assert_eq!(
        split(u64::MAX, &vec![2], 10000, Weighting::Proportional),
        Err(ErrorCode::ArithmeticOverflow)
    );
}

#[test]
fn split_of_nothing_is_empty() {
    assert_eq!(split(500, &vec![], 10000, Weighting::FixedBps).unwrap(), Vec::<u64>::new());
}

#[test]
fn portion_rounds_down() {
    assert_eq!(portion_of(999, 1000, 10000), Ok(99));
    assert_eq!(portion_of(u64::MAX, 1, 1), Ok(u64::MAX));
    assert_eq!(portion_of(u64::MAX, 2, 1), Err(ErrorCode::ArithmeticOverflow));
}

#[test]
fn checked_sum_detects_overflow() {
    assert_eq!(checked_sum(&vec![1, 2, 3]), Some(6));
    assert_eq!(checked_sum(&vec![u64::MAX, 1]), None);
}

#[test]
fn settle_divides_fee_and_proceeds() {
    let s = settle(1999, 250).unwrap();
    assert_eq!(s.fee, 49);
    assert_eq!(s.proceeds, 1950);
    assert_eq!(settle(100, 10001), Err(ErrorCode::InvalidWeights));
    assert_eq!(settle(u64::MAX, 2), Err(ErrorCode::ArithmeticOverflow));
}
