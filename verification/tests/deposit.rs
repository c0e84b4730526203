use storage_meter::{Balance, Deposit};

const MAX: Balance = Balance::MAX;

#[test]
fn charges_add_up() {
    assert_eq!(Deposit::Charge(5).saturating_add(&Deposit::Charge(7)), Deposit::Charge(12));
    assert_eq!(Deposit::Charge(0).saturating_add(&Deposit::Charge(0)), Deposit::Charge(0));
}

#[test]
fn refunds_add_up() {
    assert_eq!(Deposit::Refund(5).saturating_add(&Deposit::Refund(7)), Deposit::Refund(12));
    // two refunds of nothing stay a refund
    assert_eq!(Deposit::Refund(0).saturating_add(&Deposit::Refund(0)), Deposit::Refund(0));
}

#[test]
fn charge_and_refund_are_netted() {
    assert_eq!(Deposit::Charge(7).saturating_add(&Deposit::Refund(5)), Deposit::Charge(2));
    assert_eq!(Deposit::Charge(5).saturating_add(&Deposit::Refund(7)), Deposit::Refund(2));
    assert_eq!(Deposit::Refund(7).saturating_add(&Deposit::Charge(5)), Deposit::Refund(2));
    assert_eq!(Deposit::Refund(5).saturating_add(&Deposit::Charge(7)), Deposit::Charge(2));
}

#[test]
fn equal_charge_and_refund_net_to_a_charge_of_nothing() {
    assert_eq!(Deposit::Charge(5).saturating_add(&Deposit::Refund(5)), Deposit::Charge(0));
    assert_eq!(Deposit::Refund(5).saturating_add(&Deposit::Charge(5)), Deposit::Charge(0));
    assert_eq!(Deposit::Charge(0).saturating_add(&Deposit::Refund(0)), Deposit::Charge(0));
    assert_eq!(Deposit::Refund(0).saturating_add(&Deposit::Charge(0)), Deposit::Charge(0));
}

#[test]
fn sums_stop_at_the_largest_balance() {
    assert_eq!(Deposit::Charge(MAX).saturating_add(&Deposit::Charge(1)), Deposit::Charge(MAX));
    assert_eq!(Deposit::Charge(MAX - 1).saturating_add(&Deposit::Charge(1)), Deposit::Charge(MAX));
    assert_eq!(Deposit::Refund(MAX).saturating_add(&Deposit::Refund(MAX)), Deposit::Refund(MAX));
    assert_eq!(Deposit::Charge(MAX).saturating_add(&Deposit::Refund(MAX)), Deposit::Charge(0));
    assert_eq!(Deposit::Charge(MAX).saturating_add(&Deposit::Refund(1)), Deposit::Charge(MAX - 1));
    assert_eq!(Deposit::Refund(MAX).saturating_add(&Deposit::Charge(0)), Deposit::Refund(MAX));
}

#[test]
fn available_takes_a_charge_off_the_limit() {
    assert_eq!(Deposit::Charge(30).available(&100), 70);
    assert_eq!(Deposit::Charge(100).available(&100), 0);
    assert_eq!(Deposit::Charge(130).available(&100), 0);
    assert_eq!(Deposit::Charge(0).available(&MAX), MAX);
}

#[test]
fn available_adds_a_refund_to_the_limit() {
    assert_eq!(Deposit::Refund(30).available(&100), 130);
    assert_eq!(Deposit::Refund(0).available(&100), 100);
    assert_eq!(Deposit::Refund(MAX).available(&1), MAX);
    assert_eq!(Deposit::Refund(1).available(&MAX), MAX);
}

#[test]
fn charge_or_zero_ignores_refunds() {
    assert_eq!(Deposit::Charge(9).charge_or_zero(), 9);
    assert_eq!(Deposit::Charge(MAX).charge_or_zero(), MAX);
    assert_eq!(Deposit::Refund(9).charge_or_zero(), 0);
}

#[test]
fn zero_is_zero_in_either_direction() {
    assert!(Deposit::Charge(0).is_zero());
    assert!(Deposit::Refund(0).is_zero());
    assert!(!Deposit::Charge(1).is_zero());
    assert!(!Deposit::Refund(1).is_zero());
    assert_ne!(Deposit::Charge(0), Deposit::Refund(0));
}

#[test]
fn default_deposit_is_a_charge_of_nothing() {
    assert_eq!(Deposit::default(), Deposit::Charge(0));
}
