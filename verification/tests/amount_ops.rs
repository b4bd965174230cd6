use transaction_engine::{Amount, AMOUNT_SCALE};

#[test]
fn whole_units_scale_exactly() {
    assert_eq!(Amount::from_num(1).raw(), AMOUNT_SCALE);
    assert_eq!(Amount::from_num(50).raw(), 50 * AMOUNT_SCALE);
    assert_eq!(Amount::from_num(0), Amount::from_raw(0));
}

#[test]
fn add_is_exact() {
    let one_and_a_half = Amount::from_raw(3 * (AMOUNT_SCALE / 2));
    let half = Amount::from_raw(AMOUNT_SCALE / 2);
    assert_eq!(one_and_a_half.add(half), Amount::from_num(2));
}

#[test]
fn checked_sub_subtracts_or_signals_shortfall() {
    let two = Amount::from_num(2);
    let half = Amount::from_raw(AMOUNT_SCALE / 2);
    assert_eq!(two.checked_sub(half), Some(Amount::from_raw(3 * (AMOUNT_SCALE / 2))));
    assert_eq!(two.checked_sub(two), Some(Amount::from_num(0)));
    assert_eq!(half.checked_sub(two), None);
}
