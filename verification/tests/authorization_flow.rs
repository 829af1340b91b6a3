use fund_manager::amount::Amount;
use fund_manager::authorization::{AuthorizedOperation, AUTHORIZATION_TIMEOUT};
use fund_manager::errors::FundError;
use fund_manager::fund::FundManager;

fn fresh(admins: u8, min_authorizers: u8) -> FundManager {
    let mut f = FundManager::new(7, 1, 0, 0, 99);
    f.init(admins, min_authorizers, Amount::zero()).unwrap();
    f
}

#[test]
fn operation_wire_bytes_round() {
    assert_eq!(
        AuthorizedOperation::from_u8(0),
        Some(AuthorizedOperation::WithdrawValidatorBadge)
    );
    assert_eq!(AuthorizedOperation::from_u8(2), Some(AuthorizedOperation::RemoveDefiProtocol));
    assert_eq!(AuthorizedOperation::from_u8(11), Some(AuthorizedOperation::SetBuybackFund));
    assert_eq!(AuthorizedOperation::from_u8(12), None);
    assert_eq!(AuthorizedOperation::from_u8(255), None);
}

#[test]
fn self_authorization_rejected() {
    let mut f = fresh(3, 2);
    let r = f.authorize_admin_operation(
        1,
        1,
        AuthorizedOperation::SetDexComponent,
        None,
        None,
        None,
        1000,
    );
    assert_eq!(r, Err(FundError::SelfAuthorization));
}

#[test]
fn unknown_admin_rejected() {
    let mut f = fresh(3, 2);
    let r = f.authorize_admin_operation(
        4,
        1,
        AuthorizedOperation::SetDexComponent,
        None,
        None,
        None,
        1000,
    );
    assert_eq!(r, Err(FundError::InvalidAdminId));
}

#[test]
fn duplicate_grant_rejected() {
    let mut f = fresh(3, 2);
    f.authorize_admin_operation(
        1,
        2,
        AuthorizedOperation::SetDexComponent,
        None,
        None,
        None,
        1000,
    )
        .unwrap();
    let r = f.authorize_admin_operation(
        1,
        2,
        AuthorizedOperation::SetDexComponent,
        None,
        None,
        None,
        1500,
    );
    assert_eq!(r, Err(FundError::DuplicateAuthorization));
}

#[test]
fn quorum_gathers_and_spends() {
    let mut f = fresh(3, 2);
    f.authorize_admin_operation(
        1,
        3,
        AuthorizedOperation::SetDexComponent,
        None,
        None,
        None,
        1000,
    )
        .unwrap();
    // One grant is not a quorum of two.
    assert_eq!(f.set_dex_component(3, 42, 1001), Err(FundError::NotAuthorized));
    f.authorize_admin_operation(
        2,
        3,
        AuthorizedOperation::SetDexComponent,
        None,
        None,
        None,
        1001,
    )
        .unwrap();
    assert_eq!(f.set_dex_component(3, 42, 1002), Ok(()));
    assert_eq!(f.dex, Some(42));
    // The grants were consumed: a second execution needs new ones.
    assert_eq!(f.set_dex_component(3, 43, 1003), Err(FundError::NotAuthorized));
    assert_eq!(f.dex, Some(42));
}

fn with_two_grants() -> FundManager {
    let mut f = fresh(3, 2);
    f.authorize_admin_operation(
        1,
        3,
        AuthorizedOperation::SetDexComponent,
        None,
        None,
        None,
        0,
    )
        .unwrap();
    f.authorize_admin_operation(
        2,
        3,
        AuthorizedOperation::SetDexComponent,
        None,
        None,
        None,
        0,
    )
        .unwrap();
    f
}

#[test]
fn expired_grant_never_counts() {
    // At the timeout the grants no longer count, though still stored.
    let mut expired = with_two_grants();
    assert_eq!(expired.authorization_vector.len(), 2);
    assert_eq!(
        expired.set_dex_component(3, 42, AUTHORIZATION_TIMEOUT),
        Err(FundError::NotAuthorized)
    );
    // One second before the timeout both grants still count.
    let mut live = with_two_grants();
    assert_eq!(live.set_dex_component(3, 42, AUTHORIZATION_TIMEOUT - 1), Ok(()));
}

#[test]
fn grant_list_capacity() {
    let mut f = fresh(52, 0);
    for allower in 1..=50u8 {
        f.authorize_admin_operation(
            allower,
            51,
            AuthorizedOperation::SetDexComponent,
            None,
            None,
            None,
            1000,
        )
            .unwrap();
    }
    let r = f.authorize_admin_operation(
        51,
        52,
        AuthorizedOperation::SetDexComponent,
        None,
        None,
        None,
        1000,
    );
    assert_eq!(r, Err(FundError::AuthorizationListFull));
}

#[test]
fn grants_discriminate_on_parameters() {
    let mut f = fresh(3, 1);
    f.authorize_admin_operation(
        1,
        2,
        AuthorizedOperation::SetWithdrawalFee,
        None,
        Some(5),
        None,
        1000,
    )
        .unwrap();
    // The grant names fee 5; executing with fee 7 is not authorized.
    assert_eq!(f.set_withdrawal_fee(2, 7, 1001), Err(FundError::NotAuthorized));
    assert_eq!(f.set_withdrawal_fee(2, 5, 1001), Ok(()));
    assert_eq!(f.withdrawal_fee, 5);
}
