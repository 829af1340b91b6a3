use fund_manager::amount::Amount;
use fund_manager::authorization::AuthorizedOperation;
use fund_manager::errors::FundError;
use fund_manager::fund::FundManager;

fn fresh(admins: u8, min_authorizers: u8) -> FundManager {
    let mut f = FundManager::new(7, 1, 0, 0, 99);
    f.init(admins, min_authorizers, Amount::zero()).unwrap();
    f
}

#[test]
fn init_mints_initial_supply() {
    let mut f = FundManager::new(7, 1, 3, 10, 99);
    let minted = f.init(3, 2, Amount::from_units(1000)).unwrap();
    assert_eq!(minted, Amount::from_units(1000));
    assert_eq!(f.fund_unit_supply, Amount::from_units(1000));
    assert_eq!(f.number_of_admins, 3);
    assert_eq!(f.min_authorizers, 2);
}

#[test]
fn init_runs_once() {
    let mut f = fresh(3, 2);
    assert_eq!(
        f.init(3, 2, Amount::zero()),
        Err(FundError::AlreadyInitialised)
    );
}

#[test]
fn init_needs_admins() {
    let mut f = FundManager::new(7, 1, 0, 0, 99);
    assert_eq!(f.init(0, 0, Amount::zero()), Err(FundError::NoAdminBadges));
}

#[test]
fn threshold_stays_below_admin_count() {
    // Initialisation already enforces the invariant.
    let mut f = FundManager::new(7, 1, 0, 0, 99);
    assert_eq!(f.init(2, 2, Amount::zero()), Err(FundError::TooFewAdmins));
    assert_eq!(f.init(2, 3, Amount::zero()), Err(FundError::TooFewAdmins));
    f.init(3, 2, Amount::zero()).unwrap();
    let grant = |f: &mut FundManager, allowers: &[u8], allowed: u8, op, acct| {
        for a in allowers {
            f.authorize_admin_operation(*a, allowed, op, None, None, acct, 1000).unwrap();
        }
    };
    // Even with a quorum, raising the threshold to the admin count aborts.
    grant(&mut f, &[1, 2], 3, AuthorizedOperation::IncreaseMinAuthorizers, None);
    assert_eq!(f.increase_min_authorizers(3, 1000), Err(FundError::TooFewAdmins));
    assert!(f.min_authorizers < f.number_of_admins);
    // After minting one more admin the raise becomes possible; the
    // aborted attempt spent none of its grants.
    grant(&mut f, &[1, 2], 3, AuthorizedOperation::MintAdminBadge, Some(55));
    let new_id = f.mint_admin_badge(3, 55, 1001).unwrap();
    assert_eq!(new_id, 4);
    assert_eq!(f.number_of_admins, 4);
    f.increase_min_authorizers(3, 1002).unwrap();
    assert_eq!(f.min_authorizers, 3);
    assert!(f.min_authorizers < f.number_of_admins);
}

#[test]
fn decrease_threshold_needs_positive_threshold() {
    let mut f = fresh(3, 0);
    assert_eq!(f.decrease_min_authorizers(1, 1000), Err(FundError::MinAuthorizersAtZero));
}

#[test]
fn admin_count_is_bounded() {
    let mut f = fresh(255, 0);
    assert_eq!(f.mint_admin_badge(1, 55, 1000), Err(FundError::TooManyAdmins));
}

#[test]
fn validator_badge_custody() {
    let mut f = fresh(2, 0);
    assert!(!f.validator_badge_present);
    // Nothing held yet: validator operations are impossible.
    assert_eq!(f.register_validator(true), Err(FundError::NoValidatorBadge));
    f.deposit_validator_badge().unwrap();
    assert_eq!(f.deposit_validator_badge(), Err(FundError::ValidatorBadgePresent));
    assert_eq!(f.register_validator(true), Ok(true));
    assert_eq!(
        f.signal_protocol_update_readiness(String::from("anemone")),
        Ok(String::from("anemone"))
    );
    // Withdrawing the badge needs a quorum (zero here) and empties custody.
    let had = f.withdraw_validator_badge(1, 1000).unwrap();
    assert!(had);
    assert!(!f.validator_badge_present);
    assert_eq!(f.update_node_key(String::from("k")), Err(FundError::NoValidatorBadge));
}

#[test]
fn fund_manager_badge_custody() {
    let mut f = fresh(2, 0);
    assert!(f.fund_manager_badge_present);
    let had = f.withdraw_fund_manager_badge(1, 1000).unwrap();
    assert!(had);
    assert!(!f.fund_manager_badge_present);
    f.deposit_fund_manager_badge();
    assert!(f.fund_manager_badge_present);
}

#[test]
fn buyback_fund_settings() {
    let mut f = fresh(2, 0);
    assert_eq!(f.set_buyback_fund(1, 130, 42, 1000), Err(FundError::PercentageOutOfRange));
    f.set_buyback_fund(1, 15, 42, 1000).unwrap();
    assert_eq!(f.buyback_fund_percentage, 15);
    assert_eq!(f.buyback_fund_account, 42);
}

#[test]
fn withdrawal_fee_bounded() {
    let mut f = fresh(2, 0);
    assert_eq!(f.set_withdrawal_fee(1, 100, 1000), Err(FundError::PercentageOutOfRange));
    f.set_withdrawal_fee(1, 99, 1000).unwrap();
    assert_eq!(f.withdrawal_fee, 99);
}

#[test]
fn bot_badge_needs_agreed_account() {
    let mut f = fresh(3, 1);
    f.authorize_admin_operation(
        1,
        2,
        AuthorizedOperation::MintBotBadge,
        None,
        None,
        Some(77),
        1000,
    )
        .unwrap();
    assert_eq!(f.mint_bot_badge(2, 78, 1001), Err(FundError::NotAuthorized));
    assert_eq!(f.mint_bot_badge(2, 77, 1001), Ok(()));
}

#[test]
fn oracle_component_set_by_quorum() {
    let mut f = fresh(3, 1);
    f.authorize_admin_operation(
        2,
        1,
        AuthorizedOperation::SetOracleComponent,
        None,
        None,
        None,
        1000,
    )
        .unwrap();
    f.set_oracle_component(1, 9, 1001).unwrap();
    assert_eq!(f.oracle_component, Some(9));
}
