use ledger_engine::account::ClientData;
use ledger_engine::amount::Amount;
use ledger_engine::transaction::TransactionType;

fn units(a: Amount) -> i64 {
    a.units
}

#[test]
fn new_scales_the_mantissa_to_ten_thousandths() {
    assert_eq!(units(Amount::new(75, 1).unwrap()), 75_000);
    assert_eq!(units(Amount::new(3, 0).unwrap()), 30_000);
    assert_eq!(units(Amount::new(125, 2).unwrap()), 12_500);
    assert_eq!(units(Amount::new(-1999, 3).unwrap()), -19_990);
    assert_eq!(units(Amount::new(1, 4).unwrap()), 1);
    assert_eq!(units(Amount::new(0, 2).unwrap()), 0);
}

#[test]
fn new_treats_equal_values_alike() {
    assert_eq!(Amount::new(100, 1), Amount::new(10, 0));
    assert_eq!(Amount::new(100, 1), Amount::new(100_000, 4));
    assert_ne!(Amount::new(100, 1), Amount::new(100, 2));
}

#[test]
fn new_rejects_more_than_four_fractional_digits() {
    assert_eq!(Amount::new(1, 5), None);
    assert_eq!(Amount::new(0, 29), None);
    assert_eq!(Amount::new(10, u32::MAX), None);
}

#[test]
fn new_rejects_what_does_not_fit() {
    assert_eq!(Amount::new(i64::MAX, 0), None);
    assert_eq!(Amount::new(i64::MIN, 3), None);
    assert_eq!(Amount::new(922_337_203_685_478, 0), None);
    assert_eq!(units(Amount::new(922_337_203_685_477, 0).unwrap()), 9_223_372_036_854_770_000);
    assert_eq!(units(Amount::new(i64::MAX, 4).unwrap()), i64::MAX);
    assert_eq!(units(Amount::new(i64::MIN, 4).unwrap()), i64::MIN);
}

#[test]
fn zero_default_and_from_units() {
    assert_eq!(units(Amount::zero()), 0);
    assert_eq!(Amount::default(), Amount::zero());
    assert_eq!(units(Amount::from_units(-42)), -42);
    assert_eq!(Amount::from_units(15_000), Amount::new(15, 1).unwrap());
}

#[test]
fn checked_add_is_exact() {
    let a = Amount::new(15, 1).unwrap();
    let b = Amount::new(225, 2).unwrap();
    assert_eq!(a.checked_add(b), Amount::new(375, 2));
    assert_eq!(b.checked_add(a), Amount::new(375, 2));
    assert_eq!(a.checked_add(Amount::zero()), Some(a));
    assert_eq!(Amount::zero().checked_add(b), Some(b));
    let n = Amount::new(-225, 2).unwrap();
    assert_eq!(a.checked_add(n), Amount::new(-75, 2));
    assert_eq!(b.checked_add(n), Some(Amount::zero()));
    assert_eq!(
        Amount::from_units(5_000_000_000).checked_add(Amount::from_units(7_000_000_000)),
        Some(Amount::from_units(12_000_000_000))
    );
    assert_eq!(
        Amount::from_units(1).checked_add(Amount::from_units(0x1_0000_0000)),
        Some(Amount::from_units(0x1_0000_0001))
    );
}

#[test]
fn checked_add_reports_overflow() {
    let max = Amount::from_units(i64::MAX);
    let min = Amount::from_units(i64::MIN);
    let one = Amount::from_units(1);
    assert_eq!(max.checked_add(one), None);
    assert_eq!(max.checked_add(max), None);
    assert_eq!(min.checked_add(Amount::from_units(-1)), None);
    assert_eq!(min.checked_add(min), None);
    assert_eq!(max.checked_add(Amount::zero()), Some(max));
    assert_eq!(max.checked_add(min), Some(Amount::from_units(-1)));
    assert_eq!(Amount::from_units(i64::MAX - 1).checked_add(one), Some(max));
}

#[test]
fn checked_sub_is_exact() {
    let a = Amount::new(15, 1).unwrap();
    let b = Amount::new(225, 2).unwrap();
    assert_eq!(a.checked_sub(b), Amount::new(-75, 2));
    assert_eq!(b.checked_sub(a), Amount::new(75, 2));
    assert_eq!(a.checked_sub(a), Some(Amount::zero()));
    assert_eq!(a.checked_sub(Amount::zero()), Some(a));
    assert_eq!(Amount::zero().checked_sub(a), Amount::new(-15, 1));
    assert_eq!(Amount::zero().checked_sub(Amount::zero()), Some(Amount::zero()));
    let n = Amount::new(-225, 2).unwrap();
    assert_eq!(a.checked_sub(n), Amount::new(375, 2));
    assert_eq!(n.checked_sub(a), Amount::new(-375, 2));
    assert_eq!(
        Amount::from_units(5_000_000_000).checked_sub(Amount::from_units(7_000_000_000)),
        Some(Amount::from_units(-2_000_000_000))
    );
}

#[test]
fn checked_sub_reports_overflow() {
    let max = Amount::from_units(i64::MAX);
    let min = Amount::from_units(i64::MIN);
    let one = Amount::from_units(1);
    assert_eq!(min.checked_sub(one), None);
    assert_eq!(max.checked_sub(Amount::from_units(-1)), None);
    assert_eq!(Amount::zero().checked_sub(min), None);
    assert_eq!(max.checked_sub(min), None);
    assert_eq!(min.checked_sub(min), Some(Amount::zero()));
    assert_eq!(Amount::from_units(-1).checked_sub(min), Some(max));
    assert_eq!(Amount::zero().checked_sub(max), Some(Amount::from_units(i64::MIN + 1)));
}

#[test]
fn less_than_orders_by_value() {
    let a = Amount::new(15, 1).unwrap();
    let b = Amount::new(225, 2).unwrap();
    let n = Amount::new(-3, 0).unwrap();
    assert!(a.less_than(b));
    assert!(!b.less_than(a));
    assert!(!a.less_than(a));
    assert!(n.less_than(a));
    assert!(!a.less_than(n));
    assert!(n.less_than(Amount::zero()));
    assert!(!Amount::zero().less_than(n));
    assert!(Amount::zero().less_than(a));
    assert!(!Amount::zero().less_than(Amount::zero()));
    assert!(Amount::new(-225, 2).unwrap().less_than(Amount::new(-15, 1).unwrap()));
    assert!(!Amount::new(-15, 1).unwrap().less_than(Amount::new(-225, 2).unwrap()));
    assert!(Amount::from_units(i64::MIN).less_than(Amount::from_units(i64::MAX)));
    assert!(!Amount::from_units(i64::MAX).less_than(Amount::from_units(i64::MIN)));
    assert!(Amount::from_units(0x1_0000_0000).less_than(Amount::from_units(0x1_0000_0001)));
}

fn account(available: i64, held: i64, total: i64, locked: bool) -> ClientData {
    ClientData {
        available: Amount::from_units(available),
        held: Amount::from_units(held),
        total: Amount::from_units(total),
        locked,
    }
}

fn balances(c: ClientData) -> (i64, i64, i64, bool) {
    (c.available.units, c.held.units, c.total.units, c.locked)
}

#[test]
fn default_account_is_empty_and_unlocked() {
    assert_eq!(balances(ClientData::default()), (0, 0, 0, false));
}

#[test]
fn each_effect_moves_the_amount_between_the_right_balances() {
    let c = account(70, 30, 100, false);
    let a = Amount::from_units(20);
    assert_eq!(balances(c.credited(a).unwrap()), (90, 30, 120, false));
    assert_eq!(balances(c.debited(a).unwrap()), (50, 30, 80, false));
    assert_eq!(balances(c.frozen(a).unwrap()), (50, 50, 100, false));
    assert_eq!(balances(c.released(a).unwrap()), (90, 10, 100, false));
    assert_eq!(balances(c.charged_back(a).unwrap()), (70, 10, 80, true));
}

#[test]
fn after_dispatches_on_the_kind() {
    let c = account(70, 30, 100, false);
    let a = Amount::from_units(20);
    assert_eq!(balances(c.after(TransactionType::Deposit, a).unwrap()), (90, 30, 120, false));
    assert_eq!(balances(c.after(TransactionType::Withdrawal, a).unwrap()), (50, 30, 80, false));
    assert_eq!(balances(c.after(TransactionType::Dispute, a).unwrap()), (50, 50, 100, false));
    assert_eq!(balances(c.after(TransactionType::Resolve, a).unwrap()), (90, 10, 100, false));
    assert_eq!(balances(c.after(TransactionType::Chargeback, a).unwrap()), (70, 10, 80, true));
}

#[test]
fn an_effect_that_does_not_fit_gives_none() {
    let one = Amount::from_units(1);
    assert!(account(i64::MAX, 0, i64::MAX, false).credited(one).is_none());
    assert!(account(0, 0, i64::MAX, false).credited(one).is_none());
    assert!(account(i64::MIN, 0, 0, false).debited(one).is_none());
    assert!(account(0, 0, i64::MIN, false).debited(one).is_none());
    assert!(account(i64::MIN, 0, 0, false).frozen(one).is_none());
    assert!(account(0, i64::MAX, 0, false).frozen(one).is_none());
    assert!(account(i64::MAX, 0, 0, false).released(one).is_none());
    assert!(account(0, i64::MIN, 0, false).released(one).is_none());
    assert!(account(0, i64::MIN, 0, false).charged_back(one).is_none());
    assert!(account(0, 0, i64::MIN, false).charged_back(one).is_none());
    assert!(account(i64::MAX, 0, i64::MAX, false).after(TransactionType::Deposit, one).is_none());
}

/// Mantissas at the edges of 32 and 64 bits and around zero.
fn edges() -> Vec<i64> {
    let mut v = vec![0i64, 1, 2, 5, 9, 10, 9_999, 10_000, 10_001];
    for shift in [31u32, 32, 33, 62] {
        let p = 1i64 << shift;
        v.push(p - 1);
        v.push(p);
        v.push(p + 1);
    }
    v.push(i64::MAX - 1);
    v.push(i64::MAX);
    let mut all = v.clone();
    for x in v {
        all.push(-x);
    }
    all.push(i64::MIN + 1);
    all.push(i64::MIN);
    all
}

fn narrowed(v: i128) -> Option<Amount> {
    i64::try_from(v).ok().map(Amount::from_units)
}

#[test]
fn checked_add_agrees_with_integer_addition_at_the_edges() {
    for a in edges() {
        for b in edges() {
            let expected = narrowed(a as i128 + b as i128);
            assert_eq!(Amount::from_units(a).checked_add(Amount::from_units(b)), expected);
        }
    }
}

#[test]
fn checked_sub_agrees_with_integer_subtraction_at_the_edges() {
    for a in edges() {
        for b in edges() {
            let expected = narrowed(a as i128 - b as i128);
            assert_eq!(Amount::from_units(a).checked_sub(Amount::from_units(b)), expected);
        }
    }
}

#[test]
fn less_than_agrees_with_integer_order_at_the_edges() {
    for a in edges() {
        for b in edges() {
            assert_eq!(Amount::from_units(a).less_than(Amount::from_units(b)), a < b);
        }
    }
}
