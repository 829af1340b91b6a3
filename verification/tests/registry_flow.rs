use fund_manager::amount::Amount;
use fund_manager::authorization::AuthorizedOperation;
use fund_manager::errors::FundError;
use fund_manager::fund::FundManager;

const XRD: u64 = 1;

fn fresh(admins: u8, min_authorizers: u8) -> FundManager {
    let mut f = FundManager::new(7, XRD, 0, 0, 99);
    f.init(admins, min_authorizers, Amount::zero()).unwrap();
    f.set_oracle_component(1, 9, 10).unwrap_or(());
    f
}

fn add_position(f: &mut FundManager, name: &str, coin: u64, wrapper: u64) {
    f.add_defi_protocol(1, String::from(name), coin, coin + 1000, None, 50, wrapper, None, 10)
        .unwrap();
}

fn set_value(f: &mut FundManager, name: &str, coin: u64, amount: i64, price: i64) {
    f.update_defi_protocols_value(
        &vec![String::from(name)],
        &vec![(Amount::from_units(amount), None)],
        &vec![(coin, Amount::from_units(price))],
    )
        .unwrap();
}

#[test]
fn add_and_list_positions() {
    let mut f = fresh(2, 0);
    add_position(&mut f, "weft-usdc", 2, 100);
    add_position(&mut f, "root-xrd", XRD, 101);
    let details = f.fund_details();
    assert_eq!(details.len(), 2);
    assert_eq!(details[0].0, "weft-usdc");
    assert_eq!(details[0].1, Amount::zero());
    assert_eq!(details[1].0, "root-xrd");
}

#[test]
fn add_needs_quorum_on_name() {
    let mut f = fresh(3, 1);
    f.authorize_admin_operation(
        1,
        2,
        AuthorizedOperation::AddDefiProtocol,
        Some(String::from("weft-usdc")),
        None,
        None,
        1000,
    )
        .unwrap();
    let wrong = f.add_defi_protocol(
        2,
        String::from("other-name"),
        2,
        1002,
        None,
        50,
        100,
        None,
        1001,
    );
    assert_eq!(wrong.unwrap_err(), FundError::NotAuthorized);
    let right = f.add_defi_protocol(
        2,
        String::from("weft-usdc"),
        2,
        1002,
        None,
        50,
        100,
        None,
        1001,
    );
    assert_eq!(right, Ok(None));
}

#[test]
fn replacing_a_position_carries_value_and_returns_old_adapter() {
    let mut f = fresh(2, 0);
    add_position(&mut f, "weft-usdc", 2, 100);
    set_value(&mut f, "weft-usdc", 2, 500, 1);
    assert_eq!(f.total_value, Amount::from_units(500));
    let old = f.add_defi_protocol(
        1,
        String::from("weft-usdc"),
        2,
        1002,
        None,
        60,
        222,
        None,
        20,
    )
        .unwrap();
    assert_eq!(old, Some(100));
    assert_eq!(f.defi_protocols.len(), 1);
    assert_eq!(f.defi_protocols[0].wrapper, 222);
    assert_eq!(f.defi_protocols[0].value, Amount::from_units(500));
    assert_eq!(f.total_value, Amount::from_units(500));
}

#[test]
fn remove_with_two_grants() {
    // Three admins, threshold two: A and C authorize B, who removes the
    // position; the position is gone and the fund value drops by its
    // cached value.
    let mut g = fresh(3, 2);
    g.authorize_admin_operation(
        1,
        2,
        AuthorizedOperation::SetOracleComponent,
        None,
        None,
        None,
        9,
    )
        .unwrap();
    g.authorize_admin_operation(
        3,
        2,
        AuthorizedOperation::SetOracleComponent,
        None,
        None,
        None,
        9,
    )
        .unwrap();
    g.set_oracle_component(2, 9, 10).unwrap();
    g.authorize_admin_operation(
        1,
        2,
        AuthorizedOperation::AddDefiProtocol,
        Some(String::from("weft-usdc")),
        None,
        None,
        10,
    )
        .unwrap();
    g.authorize_admin_operation(
        3,
        2,
        AuthorizedOperation::AddDefiProtocol,
        Some(String::from("weft-usdc")),
        None,
        None,
        10,
    )
        .unwrap();
    g.add_defi_protocol(2, String::from("weft-usdc"), 2, 1002, None, 50, 100, None, 11)
        .unwrap();
    g.update_defi_protocols_value(
        &vec![String::from("weft-usdc")],
        &vec![(Amount::from_units(300), None)],
        &vec![(2, Amount::from_units(1))],
    )
        .unwrap();
    assert_eq!(g.total_value, Amount::from_units(300));
    g.authorize_admin_operation(
        1,
        2,
        AuthorizedOperation::RemoveDefiProtocol,
        Some(String::from("weft-usdc")),
        None,
        None,
        12,
    )
        .unwrap();
    g.authorize_admin_operation(
        3,
        2,
        AuthorizedOperation::RemoveDefiProtocol,
        Some(String::from("weft-usdc")),
        None,
        None,
        12,
    )
        .unwrap();
    let removed = g.remove_defi_protocol(2, &String::from("weft-usdc"), 13).unwrap();
    assert_eq!(removed.wrapper, 100);
    assert_eq!(removed.value, Amount::from_units(300));
    assert_eq!(g.total_value, Amount::zero());
    assert_eq!(g.fund_details().len(), 0);
    assert_eq!(
        g.remove_defi_protocol(2, &String::from("weft-usdc"), 14)
            .unwrap_err(),
        FundError::NotAuthorized
    );
}

#[test]
fn position_list_capacity() {
    let mut f = fresh(2, 0);
    for i in 0..50u64 {
        add_position(&mut f, &format!("pos-{}", i), 2, 100 + i);
    }
    let r = f.add_defi_protocol(1, String::from("one-too-many"), 2, 1002, None, 50, 999, None, 10);
    assert_eq!(r.unwrap_err(), FundError::ProtocolListFull);
}

#[test]
fn desired_weight_bounds() {
    let mut f = fresh(2, 0);
    add_position(&mut f, "weft-usdc", 2, 100);
    let r = f.add_defi_protocol(1, String::from("p2"), 2, 1002, None, 101, 101, None, 10);
    assert_eq!(r.unwrap_err(), FundError::PercentageOutOfRange);
    assert_eq!(
        f.set_defi_protocols_percentage(&vec![(String::from("weft-usdc"), 101)])
            .unwrap_err(),
        FundError::PercentageOutOfRange
    );
    assert_eq!(
        f.set_defi_protocols_percentage(&vec![(String::from("missing"), 10)])
            .unwrap_err(),
        FundError::ProtocolNotFound
    );
    f.set_defi_protocols_percentage(&vec![(String::from("weft-usdc"), 80)]).unwrap();
    assert_eq!(f.defi_protocols[0].desired_percentage, 80);
}

#[test]
fn revaluation_applies_price_table_once_per_asset() {
    let mut f = fresh(2, 0);
    add_position(&mut f, "a", 2, 100);
    add_position(&mut f, "b", 2, 101);
    f.update_defi_protocols_value(
        &vec![String::from("a"), String::from("b")],
        &vec![(Amount::from_units(10), None), (Amount::from_units(20), None)],
        &vec![(2, Amount::from_units(3))],
    )
        .unwrap();
    assert_eq!(f.defi_protocols[0].value, Amount::from_units(30));
    assert_eq!(f.defi_protocols[1].value, Amount::from_units(60));
    assert_eq!(f.total_value, Amount::from_units(90));
}

#[test]
fn revaluation_twice_is_once() {
    let mut f = fresh(2, 0);
    add_position(&mut f, "a", 2, 100);
    add_position(&mut f, "b", 3, 101);
    let names = vec![String::from("a"), String::from("b")];
    let reported = vec![(Amount::from_units(10), None), (Amount::from_units(20), None)];
    let prices = vec![(2u64, Amount::from_units(3)), (3u64, Amount::from_units(5))];
    f.update_defi_protocols_value(&names, &reported, &prices).unwrap();
    let total_once = f.total_value;
    let values_once: Vec<Amount> = f.fund_details().into_iter().map(|d| d.1).collect();
    f.update_defi_protocols_value(&names, &reported, &prices).unwrap();
    assert_eq!(f.total_value, total_once);
    let values_twice: Vec<Amount> = f.fund_details().into_iter().map(|d| d.1).collect();
    assert_eq!(values_once, values_twice);
}

#[test]
fn revaluation_error_cases() {
    let mut f = fresh(2, 0);
    add_position(&mut f, "a", 2, 100);
    assert_eq!(
        f.update_defi_protocols_value(
            &vec![String::from("missing")],
            &vec![(Amount::zero(), None)],
            &vec![],
        )
            .unwrap_err(),
        FundError::ProtocolNotFound
    );
    assert_eq!(
        f.update_defi_protocols_value(
            &vec![String::from("a")],
            &vec![(Amount::from_units(10), None)],
            &vec![],
        )
            .unwrap_err(),
        FundError::MissingPrice
    );
    // A two-asset position must report both holdings.
    f.add_defi_protocol(1, String::from("two"), 2, 1002, Some(3), 50, 102, None, 10).unwrap();
    assert_eq!(
        f.update_defi_protocols_value(
            &vec![String::from("two")],
            &vec![(Amount::from_units(10), None)],
            &vec![(2, Amount::from_units(1)), (3, Amount::from_units(1))],
        )
            .unwrap_err(),
        FundError::MissingAmount
    );
    // Without an oracle no revaluation is possible.
    let mut g = FundManager::new(7, XRD, 0, 0, 99);
    g.init(2, 0, Amount::zero()).unwrap();
    g.add_defi_protocol(1, String::from("a"), 2, 1002, None, 50, 100, None, 10).unwrap();
    assert_eq!(
        g.update_defi_protocols_value(
            &vec![String::from("a")],
            &vec![(Amount::from_units(10), None)],
            &vec![(2, Amount::from_units(1))],
        )
            .unwrap_err(),
        FundError::NoOracle
    );
}

#[test]
fn total_value_equals_sum_of_positions() {
    let mut f = fresh(2, 0);
    add_position(&mut f, "a", 2, 100);
    add_position(&mut f, "b", 3, 101);
    add_position(&mut f, "c", 2, 102);
    set_value(&mut f, "a", 2, 100, 2);
    set_value(&mut f, "b", 3, 10, 7);
    set_value(&mut f, "c", 2, 5, 2);
    let sum: i128 = f.fund_details().iter().map(|d| d.1.subunits).sum();
    assert_eq!(f.total_value.subunits, sum);
    f.remove_defi_protocol(1, &String::from("b"), 20).unwrap();
    let sum2: i128 = f.fund_details().iter().map(|d| d.1.subunits).sum();
    assert_eq!(f.total_value.subunits, sum2);
}
