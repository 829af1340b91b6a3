use fund_manager::amount::{Amount, AMOUNT_ONE};

fn units(u: i64) -> Amount {
    Amount::from_units(u)
}

#[test]
fn from_units_scales() {
    assert_eq!(units(3).subunits, 3 * AMOUNT_ONE);
    assert_eq!(Amount::one().subunits, AMOUNT_ONE);
    assert_eq!(Amount::zero().subunits, 0);
}

#[test]
fn addition_and_subtraction() {
    let a = units(7);
    let b = units(5);
    assert_eq!(a.checked_add(b).unwrap().subunits, 12 * AMOUNT_ONE);
    assert_eq!(a.checked_sub(b).unwrap().subunits, 2 * AMOUNT_ONE);
    assert_eq!(b.checked_sub(a).unwrap().subunits, -2 * AMOUNT_ONE);
}

#[test]
fn multiplication_rescales() {
    // 2.5 * 4 = 10
    let a = Amount::from_subunits(2_500_000);
    let b = units(4);
    assert_eq!(a.checked_mul(b).unwrap().subunits, 10 * AMOUNT_ONE);
}

#[test]
fn multiplication_truncates() {
    // 1 subunit * 1 subunit is far below one subunit: truncates to zero.
    let a = Amount::from_subunits(1);
    assert_eq!(a.checked_mul(a).unwrap().subunits, 0);
}

#[test]
fn division_rescales() {
    // 10 / 4 = 2.5
    let a = units(10);
    let b = units(4);
    assert_eq!(a.checked_div(b).unwrap().subunits, 2_500_000);
}

#[test]
fn percentage() {
    assert_eq!(units(200).checked_pct(15).unwrap().subunits, 30 * AMOUNT_ONE);
    assert_eq!(units(200).checked_pct(0).unwrap().subunits, 0);
    assert_eq!(units(200).checked_pct(100).unwrap().subunits, 200 * AMOUNT_ONE);
}

#[test]
fn overflow_is_reported() {
    let big = Amount::from_subunits(i128::MAX);
    assert!(big.checked_add(Amount::one()).is_none());
    assert!(big.checked_mul(big).is_none());
    assert!(big.checked_div(Amount::one()).is_none());
    assert!(big.checked_scale(2).is_none());
}
