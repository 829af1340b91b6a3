use fund_manager::amount::{Amount, AMOUNT_ONE};
use fund_manager::errors::FundError;
use fund_manager::fund::FundManager;

const XRD: u64 = 1;
const USDC: u64 = 2;

/// A fund with a zero fee, 1000 units out, and one position holding 1000
/// USDC worth 1000 USD: the gross and net unit value are exactly one USD.
fn fund_with_position(fee: u8, desired: u8) -> FundManager {
    let mut f = FundManager::new(7, XRD, fee, 0, 99);
    f.init(2, 0, Amount::from_units(1000)).unwrap();
    f.set_oracle_component(1, 9, 10).unwrap();
    f.add_defi_protocol(1, String::from("weft-usdc"), USDC, 1002, None, desired, 100, None, 10)
        .unwrap();
    f.update_defi_protocols_value(
        &vec![String::from("weft-usdc")],
        &vec![(Amount::from_units(1000), None)],
        &vec![(USDC, Amount::from_units(1))],
    )
        .unwrap();
    f
}

#[test]
fn unit_value_reflects_fee() {
    let f = fund_with_position(20, 100);
    let (net, gross) = f.fund_unit_value().unwrap();
    assert_eq!(gross, Amount::from_units(1));
    assert_eq!(net.subunits, 800_000);
    let empty = FundManager::new(7, XRD, 0, 0, 99);
    assert_eq!(empty.fund_unit_value().unwrap_err(), FundError::ZeroUnitSupply);
}

#[test]
fn request_prices_the_units_and_selects() {
    let f = fund_with_position(0, 100);
    let req = f.withdraw_request(Amount::from_units(100), Amount::from_units(2), None).unwrap();
    assert_eq!(req.protocol_name, "weft-usdc");
    assert_eq!(req.protocol_index, 0);
    // 100 units are worth 100 USD; at a price of 2 USD, 50 coins.
    assert_eq!(req.amount, Amount::from_units(50));
    assert_eq!(req.other_coin_to_coin_price_ratio, None);
}

#[test]
fn withdraw_all_empties_position_and_supply() {
    // A single position with desired weight 100, 1000 USD of value, a
    // total of 1000 USD and no fee: withdrawing units worth 1000 USD
    // empties the position and burns the whole supply.
    let mut f = fund_with_position(0, 100);
    let out = f.withdraw(
        Amount::from_units(1000),
        Amount::from_units(1),
        None,
        Amount::from_units(1000),
        None,
        (Amount::zero(), None),
    )
        .unwrap();
    assert_eq!(out.fund_units_burned, Amount::from_units(1000));
    assert_eq!(out.fund_units_returned, Amount::zero());
    assert_eq!(out.protocol_value, Amount::zero());
    assert_eq!(out.total_value, Amount::zero());
    assert_eq!(f.fund_unit_supply, Amount::zero());
    assert_eq!(f.defi_protocols[0].value, Amount::zero());
}

#[test]
fn round_trip_burns_what_was_minted() {
    // Minting units for a deposit and withdrawing the same value burns
    // exactly the minted amount: the conversion loss stays inside the
    // clamp band.
    let mut f = fund_with_position(0, 100);
    let minted = f.deposit_coin(
        &String::from("weft-usdc"),
        Amount::from_units(50),
        None,
        Amount::from_units(1),
        None,
        (Amount::from_units(1050), None),
        true,
    )
        .unwrap()
        .unwrap();
    assert_eq!(minted, Amount::from_units(50));
    assert_eq!(f.fund_unit_supply, Amount::from_units(1050));
    let out = f.withdraw(
        minted,
        Amount::from_units(1),
        None,
        Amount::from_units(50),
        None,
        (Amount::from_units(1000), None),
    )
        .unwrap();
    assert_eq!(out.fund_units_burned, minted);
    assert_eq!(out.fund_units_returned, Amount::zero());
    assert_eq!(f.fund_unit_supply, Amount::from_units(1000));
}

#[test]
fn shortfall_falls_back_to_largest_position() {
    // The request exceeds every position's value: the engine falls back
    // to the largest position and withdraws only what it holds, and the
    // burn is clamped to the full presented amount when the shortfall is
    // within ten percent.
    let mut f = FundManager::new(7, XRD, 0, 0, 99);
    f.init(2, 0, Amount::from_units(105)).unwrap();
    f.set_oracle_component(1, 9, 10).unwrap();
    f.add_defi_protocol(1, String::from("small"), USDC, 1002, None, 50, 100, None, 10).unwrap();
    f.add_defi_protocol(1, String::from("large"), USDC, 1002, None, 50, 101, None, 10).unwrap();
    f.update_defi_protocols_value(
        &vec![String::from("small"), String::from("large")],
        &vec![(Amount::from_units(5), None), (Amount::from_units(100), None)],
        &vec![(USDC, Amount::from_units(1))],
    )
        .unwrap();
    // 105 units are worth 105 USD; no position covers that.
    let (idx, value) = f.find_where_to_withdraw_from(Amount::from_units(105)).unwrap();
    assert_eq!(idx, 1);
    assert_eq!(value, Amount::from_units(100));
    // The adapter returns the 100 USD the position holds; the computed
    // burn of 100 units lies within ten percent below the presented 105,
    // so the whole 105 are burned.
    let out = f.withdraw(
        Amount::from_units(105),
        Amount::from_units(1),
        None,
        Amount::from_units(100),
        None,
        (Amount::zero(), None),
    )
        .unwrap();
    assert_eq!(out.defi_protocol_name, "large");
    assert_eq!(out.fund_units_burned, Amount::from_units(105));
    assert_eq!(out.fund_units_returned, Amount::zero());
}

#[test]
fn shortfall_beyond_band_burns_only_covered_units() {
    let mut f = fund_with_position(0, 100);
    // 500 units presented, but the adapter returns only 100 USD: far
    // below the band, so only 100 units burn and 400 come back.
    let out = f.withdraw(
        Amount::from_units(500),
        Amount::from_units(1),
        None,
        Amount::from_units(100),
        None,
        (Amount::from_units(900), None),
    )
        .unwrap();
    assert_eq!(out.fund_units_burned, Amount::from_units(100));
    assert_eq!(out.fund_units_returned, Amount::from_units(400));
    assert_eq!(f.fund_unit_supply, Amount::from_units(900));
}

#[test]
fn excess_value_aborts_beyond_band() {
    let mut f = fund_with_position(0, 100);
    // The adapter returned 120 USD for 100 presented units: ten percent
    // or more above, the whole withdrawal aborts.
    let r = f.withdraw(
        Amount::from_units(100),
        Amount::from_units(1),
        None,
        Amount::from_units(120),
        None,
        (Amount::from_units(880), None),
    );
    assert_eq!(r.unwrap_err(), FundError::TooMuchValueWithdrawn);
    // State rolled back entirely.
    assert_eq!(f.fund_unit_supply, Amount::from_units(1000));
    assert_eq!(f.total_value, Amount::from_units(1000));
    // Just below the band the excess is clamped to the presented units.
    let out = f.withdraw(
        Amount::from_units(100),
        Amount::from_units(1),
        None,
        Amount::from_subunits(109 * AMOUNT_ONE + 999_999),
        None,
        (Amount::from_units(890), None),
    )
        .unwrap();
    assert_eq!(out.fund_units_burned, Amount::from_units(100));
    assert_eq!(out.fund_units_returned, Amount::zero());
}

#[test]
fn withdraw_needs_positions_and_oracle() {
    let mut empty = FundManager::new(7, XRD, 0, 0, 99);
    empty.init(2, 0, Amount::from_units(10)).unwrap();
    empty.set_oracle_component(1, 9, 10).unwrap();
    assert_eq!(
        empty.withdraw(
            Amount::from_units(1),
            Amount::from_units(1),
            None,
            Amount::zero(),
            None,
            (Amount::zero(), None),
        )
            .unwrap_err(),
        FundError::NoProtocols
    );
    let mut no_oracle = FundManager::new(7, XRD, 0, 0, 99);
    no_oracle.init(2, 0, Amount::from_units(10)).unwrap();
    no_oracle.add_defi_protocol(1, String::from("p"), USDC, 1002, None, 50, 100, None, 10)
        .unwrap();
    no_oracle.deposit_validator_badge().unwrap();
    // Give the position some value without the oracle: impossible, so the
    // fallback selection reports a fund without value.
    assert_eq!(
        no_oracle.withdraw(
            Amount::from_units(1),
            Amount::from_units(1),
            None,
            Amount::zero(),
            None,
            (Amount::zero(), None),
        )
            .unwrap_err(),
        FundError::ZeroTotalValue
    );
}

#[test]
fn two_asset_position_accounting() {
    let mut f = FundManager::new(7, XRD, 0, 0, 99);
    f.init(2, 0, Amount::from_units(300)).unwrap();
    f.set_oracle_component(1, 9, 10).unwrap();
    f.add_defi_protocol(1, String::from("lp"), USDC, 1002, Some(XRD), 100, 100, None, 10)
        .unwrap();
    f.update_defi_protocols_value(
        &vec![String::from("lp")],
        &vec![(Amount::from_units(100), Some(Amount::from_units(200)))],
        &vec![(USDC, Amount::from_units(1)), (XRD, Amount::from_units(1))],
    )
        .unwrap();
    assert_eq!(f.total_value, Amount::from_units(300));
    // The relative price of the two assets rides along in the request.
    let req = f.withdraw_request(
        Amount::from_units(30),
        Amount::from_units(2),
        Some(Amount::from_units(1)),
    )
        .unwrap();
    assert_eq!(req.other_coin_to_coin_price_ratio, Some(Amount::from_subunits(500_000)));
    // Withdraw 30 USD as 10 USDC at 2 and 10 XRD at 1.
    let out = f.withdraw(
        Amount::from_units(30),
        Amount::from_units(2),
        Some(Amount::from_units(1)),
        Amount::from_units(10),
        Some(Amount::from_units(10)),
        (Amount::from_units(85), Some(Amount::from_units(100))),
    )
        .unwrap();
    assert_eq!(out.fund_units_burned, Amount::from_units(30));
    assert_eq!(out.protocol_value, Amount::from_units(270));
    assert_eq!(f.total_value, Amount::from_units(270));
}

#[test]
fn deposit_errors() {
    let mut f = fund_with_position(0, 100);
    assert_eq!(
        f.deposit_coin(
            &String::from("missing"),
            Amount::from_units(1),
            None,
            Amount::from_units(1),
            None,
            (Amount::zero(), None),
            false,
        )
            .unwrap_err(),
        FundError::ProtocolNotFound
    );
    // Reporting a second holding for a single-asset position is a
    // mismatch.
    assert_eq!(
        f.deposit_coin(
            &String::from("weft-usdc"),
            Amount::from_units(1),
            None,
            Amount::from_units(1),
            None,
            (Amount::from_units(1001), Some(Amount::from_units(1))),
            false,
        )
            .unwrap_err(),
        FundError::AssetMismatch
    );
    // Depositing receipt tokens that lower the valuation cannot mint.
    assert_eq!(
        f.deposit_protocol_token(
            &String::from("weft-usdc"),
            (Amount::from_units(1000), None),
            (Amount::from_units(900), None),
            Amount::from_units(1),
            None,
            true,
        )
            .unwrap_err(),
        FundError::NegativeMintAmount
    );
    // Without minting, the valuation still moves to the report.
    let minted = f.deposit_protocol_token(
        &String::from("weft-usdc"),
        (Amount::from_units(1000), None),
        (Amount::from_units(1200), None),
        Amount::from_units(1),
        None,
        false,
    )
        .unwrap();
    assert_eq!(minted, None);
    assert_eq!(f.total_value, Amount::from_units(1200));
    // Minting against a freshly grown valuation works at the old price.
    let minted2 = f.deposit_protocol_token(
        &String::from("weft-usdc"),
        (Amount::from_units(1200), None),
        (Amount::from_units(1320), None),
        Amount::from_units(1),
        None,
        true,
    )
        .unwrap()
        .unwrap();
    // 120 USD of new value at a gross unit value of 1.2 USD: 100 units.
    assert_eq!(minted2, Amount::from_units(100));
    assert_eq!(f.fund_unit_supply, Amount::from_units(1100));
}

#[test]
fn overflow_is_transaction_fatal() {
    let mut f = fund_with_position(0, 100);
    // A share so large that scaling the batch overflows.
    let huge = Amount::from_subunits(i128::MAX);
    f.fund_units_to_distribute = Amount::from_subunits(i128::MAX);
    assert_eq!(
        f.fund_units_distribution(&vec![(501, huge)], Some(Amount::zero()), false)
            .unwrap_err(),
        FundError::AmountOverflow
    );
    // A price that makes the bucket valuation overflow.
    assert_eq!(
        f.deposit_coin(
            &String::from("weft-usdc"),
            huge,
            None,
            huge,
            None,
            (Amount::zero(), None),
            false,
        )
            .unwrap_err(),
        FundError::AmountOverflow
    );
}

#[test]
fn worthless_units_cannot_price_a_deposit() {
    // Supply exists but the fund holds no value: the gross unit value is
    // zero and no unit amount can be derived from a deposit.
    let mut f = FundManager::new(7, XRD, 0, 0, 99);
    f.init(2, 0, Amount::from_units(10)).unwrap();
    f.set_oracle_component(1, 9, 10).unwrap();
    f.add_defi_protocol(1, String::from("p"), USDC, 1002, None, 50, 100, None, 10).unwrap();
    assert_eq!(
        f.deposit_coin(
            &String::from("p"),
            Amount::from_units(1),
            None,
            Amount::from_units(1),
            None,
            (Amount::from_units(1), None),
            true,
        )
            .unwrap_err(),
        FundError::ZeroUnitValue
    );
}

#[test]
fn two_asset_request_needs_second_price() {
    let mut f = FundManager::new(7, XRD, 0, 0, 99);
    f.init(2, 0, Amount::from_units(100)).unwrap();
    f.set_oracle_component(1, 9, 10).unwrap();
    f.add_defi_protocol(1, String::from("lp"), USDC, 1002, Some(XRD), 100, 100, None, 10)
        .unwrap();
    f.update_defi_protocols_value(
        &vec![String::from("lp")],
        &vec![(Amount::from_units(50), Some(Amount::from_units(50)))],
        &vec![(USDC, Amount::from_units(1)), (XRD, Amount::from_units(1))],
    )
        .unwrap();
    assert_eq!(
        f.withdraw_request(Amount::from_units(10), Amount::from_units(1), None)
            .unwrap_err(),
        FundError::MissingPrice
    );
}

#[test]
fn conversion_plan_for_requested_target_asset() {
    let mut f = fund_with_position(0, 100);
    // No target requested: nothing is converted.
    let plan = f.conversion_plan(USDC, None, false, None).unwrap();
    assert!(!plan.swap_main_bucket && !plan.swap_other_bucket);
    // The bucket already holds the target: no swap, no dex needed.
    let plan = f.conversion_plan(USDC, None, false, Some(USDC)).unwrap();
    assert!(!plan.swap_main_bucket && !plan.swap_other_bucket);
    // A different target needs the dex.
    assert_eq!(
        f.conversion_plan(USDC, None, false, Some(XRD)).unwrap_err(),
        FundError::NoDex
    );
    f.set_dex_component(1, 8, 20).unwrap();
    let plan = f.conversion_plan(USDC, None, false, Some(XRD)).unwrap();
    assert!(plan.swap_main_bucket && !plan.swap_other_bucket);
    // A second bucket of another asset is swapped and merged; one already
    // holding the target stays as it is.
    let plan = f.conversion_plan(USDC, Some(XRD), true, Some(XRD)).unwrap();
    assert!(plan.swap_main_bucket && !plan.swap_other_bucket);
    let plan = f.conversion_plan(XRD, Some(USDC), true, Some(XRD)).unwrap();
    assert!(!plan.swap_main_bucket && plan.swap_other_bucket);
    // A second bucket from a single-asset position is a mismatch.
    assert_eq!(
        f.conversion_plan(USDC, None, true, Some(XRD)).unwrap_err(),
        FundError::AssetMismatch
    );
}
