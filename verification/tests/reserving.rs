use storage_meter::{Balance, Deposit, Error, Movement, ReservingExt};

#[test]
fn requested_limit_defaults_to_what_can_be_spent() {
    assert_eq!(ReservingExt::requested_limit(1_000, None, 100), Ok(900));
    assert_eq!(ReservingExt::requested_limit(100, None, 1_000), Ok(0));
    assert_eq!(ReservingExt::requested_limit(1_000, Some(7), 100), Ok(7));
    assert_eq!(ReservingExt::requested_limit(1_000, Some(0), 100), Ok(0));
    assert_eq!(ReservingExt::requested_limit(1_000, Some(900), 100), Ok(900));
}

#[test]
fn limit_out_of_reach_is_refused() {
    assert_eq!(
        ReservingExt::requested_limit(1_000, Some(901), 100),
        Err(Error::StorageDepositNotEnoughFunds)
    );
    assert_eq!(
        ReservingExt::requested_limit(1_000, Some(5_000), 100),
        Err(Error::StorageDepositNotEnoughFunds)
    );
    assert_eq!(
        ReservingExt::requested_limit(10, Some(1), 100),
        Err(Error::StorageDepositNotEnoughFunds)
    );
}

#[test]
fn limit_within_reach_is_granted() {
    assert_eq!(ReservingExt::check_limit(900, true), Ok(900));
    assert_eq!(ReservingExt::check_limit(0, true), Ok(0));
    assert_eq!(ReservingExt::check_limit(Balance::MAX, true), Ok(Balance::MAX));
}

#[test]
fn limit_that_cannot_be_withdrawn_is_refused() {
    assert_eq!(ReservingExt::check_limit(900, false), Err(Error::StorageDepositNotEnoughFunds));
    assert_eq!(ReservingExt::check_limit(0, false), Err(Error::StorageDepositNotEnoughFunds));
}

#[test]
fn charge_is_collected_in_full() {
    assert_eq!(ReservingExt::charge(&Deposit::Charge(70), false), Movement::Collect(70));
    assert_eq!(ReservingExt::charge(&Deposit::Charge(70), true), Movement::Collect(70));
    assert_eq!(ReservingExt::charge(&Deposit::Charge(0), false), Movement::Collect(0));
}

#[test]
fn refund_of_a_removed_contract_takes_everything() {
    assert_eq!(ReservingExt::charge(&Deposit::Refund(70), true), Movement::Repatriate(70));
    assert_eq!(ReservingExt::charge(&Deposit::Refund(0), true), Movement::Repatriate(0));
}

#[test]
fn refund_of_a_living_contract_goes_by_its_reserve() {
    assert_eq!(ReservingExt::charge(&Deposit::Refund(70), false), Movement::RepatriateSpare(70));
}

#[test]
fn refund_of_a_living_contract_leaves_the_minimum() {
    let max: Balance = Balance::MAX;
    assert_eq!(ReservingExt::spared(70, 100, 10), 70);
    assert_eq!(ReservingExt::spared(90, 100, 10), 90);
    assert_eq!(ReservingExt::spared(91, 100, 10), 90);
    assert_eq!(ReservingExt::spared(70, 5, 10), 0);
    assert_eq!(ReservingExt::spared(70, 10, 10), 0);
    assert_eq!(ReservingExt::spared(max, max, 1), max - 1);
    assert_eq!(ReservingExt::spared(0, 100, 10), 0);
}

#[test]
fn refund_fails_unless_everything_was_moved() {
    assert!(!ReservingExt::refund_failed(Some(0)));
    assert!(ReservingExt::refund_failed(Some(1)));
    assert!(ReservingExt::refund_failed(None));
}
