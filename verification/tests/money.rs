use finsim::money::{grow_n_u64, grow_u64, sat_add_u64};

#[test]
fn sat_add_exact() {
    assert_eq!(sat_add_u64(2, 3), 5);
}

#[test]
fn sat_add_saturates() {
    assert_eq!(sat_add_u64(u64::MAX - 1, 5), u64::MAX);
    assert_eq!(sat_add_u64(u64::MAX, u64::MAX), u64::MAX);
}

#[test]
fn grow_exact_three_percent() {
    assert_eq!(grow_u64(10000, 300), 10300);
}

#[test]
fn grow_rounds_down() {
    // 1 * 10300 / 10000 rounds down to 1, and 999 * 10100 / 10000 to 1008.
    assert_eq!(grow_u64(1, 300), 1);
    assert_eq!(grow_u64(999, 100), 1008);
}

#[test]
fn grow_zero_balance() {
    assert_eq!(grow_u64(0, 700), 0);
}

#[test]
fn grow_saturates() {
    assert_eq!(grow_u64(u64::MAX, 700), u64::MAX);
}

#[test]
fn grow_n_zero_years_is_identity() {
    assert_eq!(grow_n_u64(60000, 300, 0), 60000);
}

#[test]
fn grow_n_compounds() {
    assert_eq!(grow_n_u64(60000, 300, 1), 61800);
    assert_eq!(grow_n_u64(60000, 300, 2), 63654);
}
