use fund_manager::amount::Amount;
use fund_manager::errors::FundError;
use fund_manager::fund::FundManager;

const XRD: u64 = 1;

/// A fund with three positions of the given values (at a unit price) and
/// desired weights.
fn fund_with(positions: &[(&str, i64, u8)]) -> FundManager {
    let mut f = FundManager::new(7, XRD, 0, 0, 99);
    f.init(2, 0, Amount::from_units(1)).unwrap();
    f.set_oracle_component(1, 9, 10).unwrap();
    let mut names = Vec::new();
    let mut reported = Vec::new();
    for (i, (name, value, desired)) in positions.iter().enumerate() {
        f.add_defi_protocol(
            1,
            String::from(*name),
            XRD,
            1001,
            None,
            *desired,
            100 + i as u64,
            None,
            10,
        )
            .unwrap();
        names.push(String::from(*name));
        reported.push((Amount::from_units(*value), None));
    }
    f.update_defi_protocols_value(&names, &reported, &vec![(XRD, Amount::from_units(1))])
        .unwrap();
    f
}

#[test]
fn deposit_goes_to_most_under_allocated() {
    // Actual shares: a 50%, b 30%, c 20%; desired: 30%, 50%, 20%.
    // b lies 20 points under its target and is selected.
    let f = fund_with(&[("a", 500, 30), ("b", 300, 50), ("c", 200, 20)]);
    assert_eq!(f.find_where_to_deposit_to(), Ok(1));
}

#[test]
fn deposit_selection_breaks_ties_on_first() {
    // Both positions sit exactly at their target: the first wins.
    let f = fund_with(&[("a", 500, 50), ("b", 500, 50)]);
    assert_eq!(f.find_where_to_deposit_to(), Ok(0));
}

#[test]
fn deposit_selection_needs_value() {
    let empty = {
        let mut f = FundManager::new(7, XRD, 0, 0, 99);
        f.init(2, 0, Amount::zero()).unwrap();
        f
    };
    assert_eq!(empty.find_where_to_deposit_to(), Err(FundError::NoProtocols));
    let worthless = {
        let mut f = FundManager::new(7, XRD, 0, 0, 99);
        f.init(2, 0, Amount::zero()).unwrap();
        f.set_oracle_component(1, 9, 10).unwrap();
        f.add_defi_protocol(1, String::from("a"), XRD, 1001, None, 50, 100, None, 10).unwrap();
        f
    };
    assert_eq!(worthless.find_where_to_deposit_to(), Err(FundError::ZeroTotalValue));
}

#[test]
fn withdrawal_comes_from_most_over_allocated_covering_position() {
    // Request 100 USD.  c cannot cover it; among a and b, a is the more
    // over-allocated relative to its target and is selected.
    let f = fund_with(&[("a", 500, 30), ("b", 400, 40), ("c", 50, 30)]);
    let (idx, value) = f.find_where_to_withdraw_from(Amount::from_units(100)).unwrap();
    assert_eq!(idx, 0);
    assert_eq!(value, Amount::from_units(100));
}

#[test]
fn withdrawal_ties_break_on_first_covering_position() {
    let f = fund_with(&[("a", 500, 50), ("b", 500, 50)]);
    let (idx, value) = f.find_where_to_withdraw_from(Amount::from_units(100)).unwrap();
    assert_eq!(idx, 0);
    assert_eq!(value, Amount::from_units(100));
}

#[test]
fn withdrawal_falls_back_to_first_largest() {
    // Nothing covers 600 USD; b holds the most and is selected with its
    // full value.
    let f = fund_with(&[("a", 100, 50), ("b", 500, 50), ("c", 500, 0)]);
    let (idx, value) = f.find_where_to_withdraw_from(Amount::from_units(600)).unwrap();
    assert_eq!(idx, 1);
    assert_eq!(value, Amount::from_units(500));
}
