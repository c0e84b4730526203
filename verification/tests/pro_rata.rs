use sp_runtime::{FixedPointNumber, FixedU128};
use storage_meter::pro_rata::{pro_rata, FIXED_ONE};
use storage_meter::Balance;

/// The share as the fixed-point type computes it, step by step.
fn by_fixed_point(removed: u32, stored: u32, deposit: Balance) -> Balance {
    let ratio = FixedU128::checked_from_rational(removed, stored)
        .unwrap_or_default()
        .min(FixedU128::from_u32(1));
    ratio.saturating_mul_int(deposit)
}

const COUNTS: [u32; 12] = [0, 1, 2, 3, 5, 7, 10, 99, 100, 1_000_003, u32::MAX - 1, u32::MAX];

const DEPOSITS: [Balance; 10] = [
    0,
    1,
    2,
    9,
    100,
    999_999_999_999_999_999,
    1_000_000_000_000_000_000,
    1_000_000_000_000_000_001,
    Balance::MAX - 1,
    Balance::MAX,
];

#[test]
fn one_whole_is_ten_to_the_eighteenth() {
    assert_eq!(FixedU128::from_u32(1).into_inner(), FIXED_ONE);
    assert_eq!(FixedU128::DIV, FIXED_ONE);
    assert_eq!(FixedU128::default().into_inner(), 0);
}

#[test]
fn pro_rata_is_what_the_fixed_point_type_computes() {
    for removed in COUNTS {
        for stored in COUNTS {
            // the fixed-point type has no ratio over nothing
            if stored == 0 {
                assert_eq!(FixedU128::checked_from_rational(removed, stored), None);
                continue;
            }
            for deposit in DEPOSITS {
                assert_eq!(
                    pro_rata(removed, stored, deposit),
                    by_fixed_point(removed, stored, deposit),
                    "{} of {} units, {} on record",
                    removed,
                    stored,
                    deposit
                );
            }
        }
    }
}

#[test]
fn pro_rata_is_the_product_of_the_rounded_ratio() {
    for removed in COUNTS {
        for stored in COUNTS {
            if stored == 0 || removed >= stored {
                continue;
            }
            let ratio: Balance = (removed as Balance) * FIXED_ONE / (stored as Balance);
            for deposit in [0 as Balance, 1, 9, 100, 1 << 60, 1 << 64] {
                assert_eq!(pro_rata(removed, stored, deposit), ratio * deposit / FIXED_ONE);
            }
        }
    }
}

#[test]
fn pro_rata_stays_within_its_bounds() {
    for removed in COUNTS {
        for stored in COUNTS {
            for deposit in DEPOSITS {
                let refund: Balance = pro_rata(removed, stored, deposit);
                assert!(refund <= deposit);
                if removed > 0 && removed >= stored {
                    assert_eq!(refund, deposit);
                }
                if removed == 0 {
                    assert_eq!(refund, 0);
                }
            }
        }
    }
}
