use storage_meter::pro_rata::pro_rata;
use storage_meter::primitives::price_of;
use storage_meter::{Balance, ContractInfo, Deposit, Diff, Prices};

const PRICES: Prices = Prices { per_byte: 1, per_item: 2 };

fn diff(bytes_added: u32, bytes_removed: u32, items_added: u32, items_removed: u32) -> Diff {
    Diff { bytes_added, bytes_removed, items_added, items_removed }
}

fn info(bytes: u32, items: u32, bytes_deposit: Balance, items_deposit: Balance) -> ContractInfo {
    ContractInfo {
        storage_bytes: bytes,
        storage_items: items,
        storage_byte_deposit: bytes_deposit,
        storage_item_deposit: items_deposit,
        storage_base_deposit: 1_000,
    }
}

#[test]
fn default_diff_changes_nothing() {
    assert_eq!(Diff::default(), diff(0, 0, 0, 0));
    assert_eq!(Diff::default().update_contract(&PRICES, None), Deposit::Charge(0));
    let mut record = info(1, 2, 3, 4);
    assert_eq!(Diff::default().update_contract(&PRICES, Some(&mut record)), Deposit::Charge(0));
    assert_eq!(record, info(1, 2, 3, 4));
}

#[test]
fn diffs_add_up_counter_by_counter() {
    assert_eq!(diff(1, 2, 3, 4).saturating_add(&diff(10, 20, 30, 40)), diff(11, 22, 33, 44));
    assert_eq!(
        diff(u32::MAX, u32::MAX - 1, 0, 7).saturating_add(&diff(1, 1, 0, u32::MAX)),
        diff(u32::MAX, u32::MAX, 0, u32::MAX)
    );
}

#[test]
fn price_is_units_times_price() {
    assert_eq!(price_of(3, 4), 12);
    assert_eq!(price_of(0, u32::MAX), 0);
    assert_eq!(price_of(7, 0), 0);
    assert_eq!(price_of(Balance::MAX, 1), Balance::MAX);
    assert_eq!(price_of(Balance::MAX, 2), Balance::MAX);
    assert_eq!(price_of(Balance::MAX / 2 + 1, 2), Balance::MAX);
    assert_eq!(price_of(1 << 96, u32::MAX), ((1 as Balance) << 96) * 4_294_967_295);
}

#[test]
fn pro_rata_takes_a_share_of_the_deposit() {
    assert_eq!(pro_rata(1, 4, 100), 25);
    assert_eq!(pro_rata(3, 4, 100), 75);
    assert_eq!(pro_rata(1, 2, 7), 3);
    assert_eq!(pro_rata(0, 4, 100), 0);
    assert_eq!(pro_rata(5, 10, 20), 10);
    // a third of 10^18 parts is rounded down before it is multiplied
    assert_eq!(pro_rata(1, 3, 3), 0);
    assert_eq!(pro_rata(1, 3, 3_000_000_000_000_000_000), 999_999_999_999_999_999);
    assert_eq!(pro_rata(2, 3, 9), 5);
}

#[test]
fn pro_rata_never_gives_back_more_than_the_deposit() {
    assert_eq!(pro_rata(4, 4, 100), 100);
    assert_eq!(pro_rata(5, 4, 100), 100);
    assert_eq!(pro_rata(u32::MAX, 1, 100), 100);
    assert_eq!(pro_rata(7, 7, Balance::MAX), Balance::MAX);
    assert_eq!(pro_rata(u32::MAX, u32::MAX, 1), 1);
    assert_eq!(pro_rata(u32::MAX - 1, u32::MAX, Balance::MAX) < Balance::MAX, true);
}

#[test]
fn pro_rata_of_nothing_stored_is_everything_on_record() {
    assert_eq!(pro_rata(1, 0, 100), 100);
    assert_eq!(pro_rata(u32::MAX, 0, Balance::MAX), Balance::MAX);
    assert_eq!(pro_rata(7, 0, 0), 0);
    // nothing is given back where nothing is freed
    assert_eq!(pro_rata(0, 0, 100), 0);
}

#[test]
fn additions_are_charged_at_the_price() {
    assert_eq!(diff(5, 0, 3, 0).update_contract(&PRICES, None), Deposit::Charge(11));
    let mut record = info(100, 10, 100, 20);
    assert_eq!(diff(5, 0, 3, 0).update_contract(&PRICES, Some(&mut record)), Deposit::Charge(11));
    assert_eq!(record, info(105, 13, 105, 26));
    assert_eq!(record.extra_deposit(), 131);
    assert_eq!(record.total_deposit(), 1_131);
}

#[test]
fn only_the_net_change_counts() {
    let mut record = info(100, 5, 100, 10);
    let charged = diff(108, 104, 1, 2).update_contract(&PRICES, Some(&mut record));
    // four bytes at 1, less a fifth of the 10 on record for items
    assert_eq!(charged, Deposit::Charge(2));
    assert_eq!(record, info(104, 4, 104, 8));
    assert_eq!(record.extra_deposit(), 112);
}

#[test]
fn removing_everything_refunds_exactly_what_is_on_record() {
    let mut record = info(10, 4, 1_000, 77);
    let refunded = diff(0, 10, 0, 4).update_contract(&PRICES, Some(&mut record));
    assert_eq!(refunded, Deposit::Refund(1_077));
    assert_eq!(record, info(0, 0, 0, 0));

    // more than is stored gives no more back
    let mut record = info(10, 4, 1_000, 77);
    let refunded = diff(3, 500, 0, u32::MAX).update_contract(&PRICES, Some(&mut record));
    assert_eq!(refunded, Deposit::Refund(1_077));
    assert_eq!(record, info(0, 0, 0, 0));
}

#[test]
fn removing_a_part_refunds_its_share() {
    let mut record = info(100, 10, 100, 20);
    let refunded = diff(0, 0, 0, 5).update_contract(&PRICES, Some(&mut record));
    assert_eq!(refunded, Deposit::Refund(10));
    assert_eq!(record, info(100, 5, 100, 10));

    let mut record = info(8, 3, 80, 10);
    let refunded = diff(0, 2, 0, 1).update_contract(&PRICES, Some(&mut record));
    // a quarter of 80, and a third of 10 rounded down
    assert_eq!(refunded, Deposit::Refund(23));
    assert_eq!(record, info(6, 2, 60, 7));
}

#[test]
fn refund_goes_by_the_record_and_not_by_the_price() {
    let dear = Prices { per_byte: 1_000, per_item: 1_000 };
    let mut record = info(10, 0, 20, 0);
    let refunded = diff(0, 5, 0, 0).update_contract(&dear, Some(&mut record));
    assert_eq!(refunded, Deposit::Refund(10));
    assert_eq!(record, info(5, 0, 10, 0));
}

#[test]
fn freeing_from_an_empty_record_gives_back_what_is_on_record() {
    let mut record = info(0, 0, 50, 60);
    let refunded = diff(0, 9, 0, 9).update_contract(&PRICES, Some(&mut record));
    assert_eq!(refunded, Deposit::Refund(110));
    assert_eq!(record, info(0, 0, 0, 0));

    // only the counter that shrinks gives back
    let mut record = info(0, 0, 50, 60);
    let refunded = diff(0, 1, 0, 0).update_contract(&PRICES, Some(&mut record));
    assert_eq!(refunded, Deposit::Refund(50));
    assert_eq!(record, info(0, 0, 0, 60));

    // what is added and removed in one frame frees nothing
    let mut record = info(0, 0, 50, 60);
    let refunded = diff(3, 3, 2, 2).update_contract(&PRICES, Some(&mut record));
    assert_eq!(refunded, Deposit::Charge(0));
    assert_eq!(record, info(0, 0, 50, 60));
}

#[test]
fn charge_for_bytes_and_refund_for_items_are_netted() {
    let mut record = info(0, 4, 0, 40);
    let net = diff(10, 0, 0, 1).update_contract(&PRICES, Some(&mut record));
    assert_eq!(net, Deposit::Charge(0));
    assert_eq!(record, info(10, 3, 10, 30));

    let mut record = info(0, 4, 0, 40);
    let net = diff(9, 0, 0, 1).update_contract(&PRICES, Some(&mut record));
    assert_eq!(net, Deposit::Refund(1));
    assert_eq!(record, info(9, 3, 9, 30));

    let mut record = info(0, 4, 0, 40);
    let net = diff(11, 0, 0, 1).update_contract(&PRICES, Some(&mut record));
    assert_eq!(net, Deposit::Charge(1));
    assert_eq!(record, info(11, 3, 11, 30));
}

#[test]
fn record_stops_at_its_bounds() {
    let mut record = info(u32::MAX - 1, 0, Balance::MAX - 1, 0);
    let charged = diff(5, 0, 0, 0).update_contract(&PRICES, Some(&mut record));
    assert_eq!(charged, Deposit::Charge(5));
    assert_eq!(record, info(u32::MAX, 0, Balance::MAX, 0));

    let huge = Prices { per_byte: Balance::MAX, per_item: Balance::MAX };
    assert_eq!(diff(2, 0, 2, 0).update_contract(&huge, None), Deposit::Charge(Balance::MAX));
}

#[test]
fn total_deposit_includes_the_base_deposit() {
    let record = info(1, 1, 30, 4);
    assert_eq!(record.extra_deposit(), 34);
    assert_eq!(record.total_deposit(), 1_034);
    let full = ContractInfo {
        storage_bytes: 0,
        storage_items: 0,
        storage_byte_deposit: Balance::MAX,
        storage_item_deposit: 1,
        storage_base_deposit: 1,
    };
    assert_eq!(full.extra_deposit(), Balance::MAX);
    assert_eq!(full.total_deposit(), Balance::MAX);
}
