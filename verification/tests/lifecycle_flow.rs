use fund_manager::amount::Amount;
use fund_manager::errors::FundError;
use fund_manager::fund::FundManager;

const XRD: u64 = 1;

/// A fund with one admin, a zero quorum threshold, an oracle, a validator
/// badge and one base-asset position worth 1000 USD, with 1000 units out.
fn staked_fund() -> FundManager {
    let mut f = FundManager::new(7, XRD, 0, 10, 99);
    f.init(2, 0, Amount::from_units(1000)).unwrap();
    f.set_oracle_component(1, 9, 10).unwrap();
    f.deposit_validator_badge().unwrap();
    f.add_defi_protocol(1, String::from("root-xrd"), XRD, 1001, None, 100, 100, None, 10)
        .unwrap();
    f.update_defi_protocols_value(
        &vec![String::from("root-xrd")],
        &vec![(Amount::from_units(1000), None)],
        &vec![(XRD, Amount::from_units(1))],
    )
        .unwrap();
    f
}

#[test]
fn unstake_starts_only_with_badge_and_stake() {
    let mut f = FundManager::new(7, XRD, 0, 0, 99);
    f.init(2, 0, Amount::zero()).unwrap();
    assert_eq!(
        f.start_unstake(Amount::from_units(5), 31)
            .unwrap_err(),
        FundError::NoValidatorBadge
    );
    f.deposit_validator_badge().unwrap();
    assert_eq!(f.start_unstake(Amount::zero(), 31), Err(FundError::NoLsuAvailable));
    f.start_unstake(Amount::from_units(5), 31).unwrap();
    assert_eq!(f.claim_nft_ids, vec![31]);
    assert_eq!(f.start_unlock_owner_stake_units(Amount::from_units(5)), Ok(Amount::from_units(5)));
}

#[test]
fn finish_unstake_accounts_the_proceeds() {
    let mut f = staked_fund();
    f.start_unstake(Amount::from_units(100), 31).unwrap();
    // The validator redeemed the claim for 100 XRD at a price of 1 USD.
    let out = f.finish_unstake(
        31,
        Amount::from_units(100),
        Amount::from_units(1),
        None,
        None,
        (Amount::from_units(1090), None),
    )
        .unwrap();
    // Ten percent went to the buyback fund, ninety were invested.
    assert_eq!(out.buyback_amount, Amount::from_units(10));
    assert_eq!(out.xrd_amount, Amount::from_units(90));
    assert_eq!(out.defi_protocol_name, "root-xrd");
    // At a gross unit value of one USD, ninety units cover the deposit
    // and exactly those are minted into the distribution vault.
    assert_eq!(out.fund_units_to_distribute, Amount::from_units(90));
    assert_eq!(f.fund_units_vault_amount, Amount::from_units(90));
    assert_eq!(f.fund_unit_supply, Amount::from_units(1090));
    assert_eq!(f.fund_units_to_distribute, Amount::from_units(90));
    // The position was revalued from the adapter's report.
    assert_eq!(out.protocol_value, Amount::from_units(1090));
    assert_eq!(f.total_value, Amount::from_units(1090));
    assert_eq!(f.claim_nft_ids.len(), 0);
}

#[test]
fn finish_unstake_guards() {
    let mut f = staked_fund();
    f.start_unstake(Amount::from_units(100), 31).unwrap();
    f.start_unstake(Amount::from_units(100), 32).unwrap();
    assert_eq!(
        f.finish_unstake(
            77,
            Amount::from_units(100),
            Amount::from_units(1),
            None,
            None,
            (Amount::from_units(1090), None),
        )
            .unwrap_err(),
        FundError::ClaimNotFound
    );
    f.finish_unstake(
        31,
        Amount::from_units(100),
        Amount::from_units(1),
        None,
        None,
        (Amount::from_units(1090), None),
    )
        .unwrap();
    // The previous batch is still undistributed: a second unstake cannot
    // complete.
    assert_eq!(
        f.finish_unstake(
            32,
            Amount::from_units(100),
            Amount::from_units(1),
            None,
            None,
            (Amount::from_units(1180), None),
        )
            .unwrap_err(),
        FundError::DistributionPending
    );
    // Draining the batch unblocks the next cycle.
    let undelivered = Amount::from_units(1);
    f.fund_units_distribution(
        &vec![(501, Amount::from_subunits(500_000)), (502, Amount::from_subunits(500_000))],
        Some(undelivered),
        false,
    )
        .unwrap();
    assert_eq!(f.fund_units_vault_amount, Amount::zero());
    assert!(
        f.finish_unstake(
            32,
            Amount::from_units(100),
            Amount::from_units(1),
            None,
            None,
            (Amount::from_units(1180), None),
        )
            .is_ok()
    );
}

#[test]
fn finish_unstake_needs_dex_for_foreign_asset() {
    let mut f = FundManager::new(7, XRD, 0, 0, 99);
    f.init(2, 0, Amount::from_units(100)).unwrap();
    f.set_oracle_component(1, 9, 10).unwrap();
    f.deposit_validator_badge().unwrap();
    // The only position manages a non-base asset and no dex is set.
    f.add_defi_protocol(1, String::from("weft-usdc"), 2, 1002, None, 100, 100, None, 10)
        .unwrap();
    f.update_defi_protocols_value(
        &vec![String::from("weft-usdc")],
        &vec![(Amount::from_units(100), None)],
        &vec![(2, Amount::from_units(1))],
    )
        .unwrap();
    f.start_unstake(Amount::from_units(10), 31).unwrap();
    assert_eq!(
        f.finish_unstake(
            31,
            Amount::from_units(10),
            Amount::from_units(1),
            Some(Amount::from_units(1)),
            None,
            (Amount::from_units(110), None),
        )
            .unwrap_err(),
        FundError::NoDex
    );
    f.set_dex_component(1, 8, 11).unwrap();
    assert!(
        f.finish_unstake(
            31,
            Amount::from_units(10),
            Amount::from_units(1),
            Some(Amount::from_units(1)),
            None,
            (Amount::from_units(110), None),
        )
            .is_ok()
    );
}

#[test]
fn distribution_shares_and_remainder() {
    let mut f = staked_fund();
    f.start_unstake(Amount::from_units(100), 31).unwrap();
    f.finish_unstake(
        31,
        Amount::from_units(100),
        Amount::from_units(1),
        None,
        None,
        (Amount::from_units(1090), None),
    )
        .unwrap();
    assert_eq!(f.fund_units_to_distribute, Amount::from_units(90));
    // First chunk: half of the batch to one staker.
    let half = Amount::from_subunits(500_000);
    let amounts = f.fund_units_distribution(
        &vec![(501, half)],
        Some(Amount::from_units(46)),
        true,
    )
        .unwrap();
    assert_eq!(amounts, vec![(501, Amount::from_units(45))]);
    assert_eq!(f.fund_units_vault_amount, Amount::from_units(46));
    // Final chunk: the rest; the undelivered remainder is burned.
    let supply_before = f.fund_unit_supply;
    let amounts2 = f.fund_units_distribution(
        &vec![(502, half)],
        Some(Amount::from_units(1)),
        false,
    )
        .unwrap();
    assert_eq!(amounts2, vec![(502, Amount::from_units(45))]);
    assert_eq!(f.fund_units_vault_amount, Amount::zero());
    assert_eq!(
        f.fund_unit_supply.subunits,
        supply_before.subunits - Amount::from_units(1).subunits
    );
    // A non-final chunk must hand a remainder back.
    let mut g = staked_fund();
    g.start_unstake(Amount::from_units(100), 31).unwrap();
    g.finish_unstake(
        31,
        Amount::from_units(100),
        Amount::from_units(1),
        None,
        None,
        (Amount::from_units(1090), None),
    )
        .unwrap();
    assert_eq!(
        g.fund_units_distribution(&vec![(501, half)], None, true)
            .unwrap_err(),
        FundError::MissingRemainder
    );
}
