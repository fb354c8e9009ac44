use escrow_ledger::error::ErrorCode;
use escrow_ledger::ledger::{Ledger, Leg};

fn three() -> Ledger {
    let mut l = Ledger::new();
    l.open_account(100);
    l.open_account(0);
    l.open_account(u64::MAX);
    l
}

#[test]
fn ledger_applies_legs_in_order() {
    let mut l = three();
    let legs = vec![Leg { from: 0, to: 1, amount: 60 }, Leg { from: 1, to: 0, amount: 10 }];
    assert_eq!(l.apply(&legs), Ok(()));
    assert_eq!(l.balance(0), Some(50));
    assert_eq!(l.balance(1), Some(50));
    assert_eq!(l.balance(3), None);
    assert_eq!(l.len(), 3);
}

#[test]
fn ledger_batch_is_all_or_nothing() {
    let mut l = three();
    let legs = vec![Leg { from: 0, to: 1, amount: 60 }, Leg { from: 0, to: 1, amount: 60 }];
    assert_eq!(l.apply(&legs), Err(ErrorCode::InsufficientFunds));
    assert_eq!(l.balance(0), Some(100));
    assert_eq!(l.balance(1), Some(0));
}

#[test]
fn ledger_refuses_overflow_and_unknown_accounts() {
    let mut l = three();
    assert_eq!(l.apply(&vec![Leg { from: 0, to: 2, amount: 1 }]), Err(ErrorCode::ArithmeticOverflow));
    assert_eq!(l.apply(&vec![Leg { from: 0, to: 9, amount: 1 }]), Err(ErrorCode::UnknownAccount));
    assert_eq!(l.balance(0), Some(100));
    assert_eq!(l.apply(&vec![Leg { from: 2, to: 2, amount: 5 }]), Ok(()));
    assert_eq!(l.balance(2), Some(u64::MAX));
}
