//! Governance operations: quorum-gated configuration changes and the
//! single-admin fast path.
//!
//! A quorum-gated method first evaluates the quorum exactly as the ledger
//! would, then validates its own arguments, and only then spends the
//! matching grants and applies its effect; any failure leaves the state
//! untouched.  The fast-path methods need only a valid admin credential,
//! which the ledger checks before they are reached.

use vstd::prelude::*;
use crate::amount::Amount;
use crate::authorization::{AuthorizedOperation, AUTHORIZATION_TIMEOUT, opt_name, purged, consumed};
use crate::errors::FundError;
use crate::fund::FundManager;

verus! {

impl FundManager {
    /// Why `withdraw_validator_badge` would fail, if it would.
    pub open spec fn withdraw_validator_badge_error(f: FundManager, admin_id: u8, now: i64) -> Option<FundError> {
        Self::check_auth_error(
            f,
            admin_id,
            AuthorizedOperation::WithdrawValidatorBadge,
            None,
            None,
            None,
            now,
        )
    }

    /// Hands the validator owner badge (if held) to the calling admin.
    /// Requires a quorum.  Returns whether a badge was actually held.
    pub fn withdraw_validator_badge(&mut self, admin_id: u8, now: i64) -> (r: Result<
        bool,
        FundError,
    >)
        requires
            old(self).wf(),
            0 <= now <= i64::MAX - AUTHORIZATION_TIMEOUT,
        ensures
            final(self).wf(),
            match r {
                Ok(had) => {
                    &&& Self::withdraw_validator_badge_error(*old(self), admin_id, now) is None
                    &&& had == old(self).validator_badge_present
                    &&& !final(self).validator_badge_present
                    &&& final(self).fund_manager_badge_present == old(
                        self,
                    ).fund_manager_badge_present
                    &&& final(self).claim_nft_ids@ == old(self).claim_nft_ids@
                    &&& final(self).authorization_vector@ == consumed(
                        purged(old(self).authorization_vector@, now),
                        admin_id,
                        AuthorizedOperation::WithdrawValidatorBadge,
                        None,
                        None,
                    )
                    &&& Self::same_admin_state(*final(self), *old(self))
                    &&& Self::same_positions(*final(self), *old(self))
                    &&& Self::same_units(*final(self), *old(self))
                    &&& Self::same_config(*final(self), *old(self))
                },
                Err(e) => {
                    &&& *final(self) == *old(self)
                    &&& Some(e) == Self::withdraw_validator_badge_error(*old(self), admin_id, now)
                },
            },
    {
        match self.check_operation_authorization(
            admin_id,
            AuthorizedOperation::WithdrawValidatorBadge,
            &None,
            None,
            None,
            now,
        ) {
            Ok(_) => {},
            Err(e) => {
                return Err(e);
            },
        }
        let had = self.validator_badge_present;
        self.validator_badge_present = false;
        Ok(had)
    }

    /// Why `withdraw_fund_manager_badge` would fail, if it would.
    pub open spec fn withdraw_fund_manager_badge_error(f: FundManager, admin_id: u8, now: i64) -> Option<FundError> {
        Self::check_auth_error(
            f,
            admin_id,
            AuthorizedOperation::WithdrawFundManagerBadge,
            None,
            None,
            None,
            now,
        )
    }

    /// Hands the position-management master badge (if held) to the calling
    /// admin.  Requires a quorum.  Returns whether a badge was held.
    pub fn withdraw_fund_manager_badge(&mut self, admin_id: u8, now: i64) -> (r: Result<
        bool,
        FundError,
    >)
        requires
            old(self).wf(),
            0 <= now <= i64::MAX - AUTHORIZATION_TIMEOUT,
        ensures
            final(self).wf(),
            match r {
                Ok(had) => {
                    &&& Self::withdraw_fund_manager_badge_error(*old(self), admin_id, now) is None
                    &&& had == old(self).fund_manager_badge_present
                    &&& !final(self).fund_manager_badge_present
                    &&& final(self).validator_badge_present == old(self).validator_badge_present
                    &&& final(self).claim_nft_ids@ == old(self).claim_nft_ids@
                    &&& final(self).authorization_vector@ == consumed(
                        purged(old(self).authorization_vector@, now),
                        admin_id,
                        AuthorizedOperation::WithdrawFundManagerBadge,
                        None,
                        None,
                    )
                    &&& Self::same_admin_state(*final(self), *old(self))
                    &&& Self::same_positions(*final(self), *old(self))
                    &&& Self::same_units(*final(self), *old(self))
                    &&& Self::same_config(*final(self), *old(self))
                },
                Err(e) => {
                    &&& *final(self) == *old(self)
                    &&& Some(e) == Self::withdraw_fund_manager_badge_error(
                        *old(self),
                        admin_id,
                        now,
                    )
                },
            },
    {
        match self.check_operation_authorization(
            admin_id,
            AuthorizedOperation::WithdrawFundManagerBadge,
            &None,
            None,
            None,
            now,
        ) {
            Ok(_) => {},
            Err(e) => {
                return Err(e);
            },
        }
        let had = self.fund_manager_badge_present;
        self.fund_manager_badge_present = false;
        Ok(had)
    }

    /// Why `increase_min_authorizers` would fail, if it would.
    pub open spec fn increase_min_authorizers_error(f: FundManager, admin_id: u8, now: i64) -> Option<FundError> {
        let auth = Self::check_auth_error(
            f,
            admin_id,
            AuthorizedOperation::IncreaseMinAuthorizers,
            None,
            None,
            None,
            now,
        );
        if auth is Some {
            auth
        } else if f.min_authorizers + 1 >= f.number_of_admins {
            Some(FundError::TooFewAdmins)
        } else {
            None
        }
    }

    /// Raises the quorum threshold by one.  Requires a quorum (at the old
    /// threshold) and fails if the threshold would no longer be strictly
    /// below the number of admins.
    pub fn increase_min_authorizers(&mut self, admin_id: u8, now: i64) -> (r: Result<
        (),
        FundError,
    >)
        requires
            old(self).wf(),
            0 <= now <= i64::MAX - AUTHORIZATION_TIMEOUT,
        ensures
            final(self).wf(),
            match r {
                Ok(_) => {
                    &&& Self::increase_min_authorizers_error(*old(self), admin_id, now) is None
                    &&& final(self).min_authorizers == old(self).min_authorizers + 1
                    &&& final(self).number_of_admins == old(self).number_of_admins
                    &&& final(self).authorization_vector@ == consumed(
                        purged(old(self).authorization_vector@, now),
                        admin_id,
                        AuthorizedOperation::IncreaseMinAuthorizers,
                        None,
                        None,
                    )
                    &&& Self::same_positions(*final(self), *old(self))
                    &&& Self::same_units(*final(self), *old(self))
                    &&& Self::same_config(*final(self), *old(self))
                    &&& Self::same_custody(*final(self), *old(self))
                },
                Err(e) => {
                    &&& *final(self) == *old(self)
                    &&& Some(e) == Self::increase_min_authorizers_error(*old(self), admin_id, now)
                },
            },
    {
        match self.authorization_granted(
            admin_id,
            AuthorizedOperation::IncreaseMinAuthorizers,
            &None,
            None,
            None,
            now,
        ) {
            Some(e) => {
                return Err(e);
            },
            None => {},
        }
        if self.min_authorizers as u16 + 1 >= self.number_of_admins as u16 {
            return Err(FundError::TooFewAdmins);
        }
        match self.check_operation_authorization(
            admin_id,
            AuthorizedOperation::IncreaseMinAuthorizers,
            &None,
            None,
            None,
            now,
        ) {
            Ok(_) => {},
            Err(e) => {
                return Err(e);
            },
        }
        self.min_authorizers = self.min_authorizers + 1;
        Ok(())
    }

    /// Why `decrease_min_authorizers` would fail, if it would.
    pub open spec fn decrease_min_authorizers_error(f: FundManager, admin_id: u8, now: i64) -> Option<FundError> {
        let auth = Self::check_auth_error(
            f,
            admin_id,
            AuthorizedOperation::DecreaseMinAuthorizers,
            None,
            None,
            None,
            now,
        );
        if auth is Some {
            auth
        } else if f.min_authorizers == 0 {
            Some(FundError::MinAuthorizersAtZero)
        } else {
            None
        }
    }

    /// Lowers the quorum threshold by one.  Requires a quorum at the old
    /// threshold.
    pub fn decrease_min_authorizers(&mut self, admin_id: u8, now: i64) -> (r: Result<
        (),
        FundError,
    >)
        requires
            old(self).wf(),
            0 <= now <= i64::MAX - AUTHORIZATION_TIMEOUT,
        ensures
            final(self).wf(),
            match r {
                Ok(_) => {
                    &&& Self::decrease_min_authorizers_error(*old(self), admin_id, now) is None
                    &&& final(self).min_authorizers == old(self).min_authorizers - 1
                    &&& final(self).number_of_admins == old(self).number_of_admins
                    &&& final(self).authorization_vector@ == consumed(
                        purged(old(self).authorization_vector@, now),
                        admin_id,
                        AuthorizedOperation::DecreaseMinAuthorizers,
                        None,
                        None,
                    )
                    &&& Self::same_positions(*final(self), *old(self))
                    &&& Self::same_units(*final(self), *old(self))
                    &&& Self::same_config(*final(self), *old(self))
                    &&& Self::same_custody(*final(self), *old(self))
                },
                Err(e) => {
                    &&& *final(self) == *old(self)
                    &&& Some(e) == Self::decrease_min_authorizers_error(*old(self), admin_id, now)
                },
            },
    {
        match self.authorization_granted(
            admin_id,
            AuthorizedOperation::DecreaseMinAuthorizers,
            &None,
            None,
            None,
            now,
        ) {
            Some(e) => {
                return Err(e);
            },
            None => {},
        }
        if self.min_authorizers == 0 {
            return Err(FundError::MinAuthorizersAtZero);
        }
        match self.check_operation_authorization(
            admin_id,
            AuthorizedOperation::DecreaseMinAuthorizers,
            &None,
            None,
            None,
            now,
        ) {
            Ok(_) => {},
            Err(e) => {
                return Err(e);
            },
        }
        self.min_authorizers = self.min_authorizers - 1;
        Ok(())
    }

    /// Why `mint_admin_badge` would fail, if it would.
    pub open spec fn mint_admin_badge_error(
        f: FundManager,
        admin_id: u8,
        new_admin_account: u64,
        now: i64,
    ) -> Option<FundError> {
        let auth = Self::check_auth_error(
            f,
            admin_id,
            AuthorizedOperation::MintAdminBadge,
            None,
            None,
            Some(new_admin_account),
            now,
        );
        if auth is Some {
            auth
        } else if f.number_of_admins == u8::MAX {
            Some(FundError::TooManyAdmins)
        } else {
            None
        }
    }

    /// Mints one more admin credential and sends it to the agreed account.
    /// Requires a quorum that also agreed on the account.  Returns the id
    /// of the new credential.
    pub fn mint_admin_badge(&mut self, admin_id: u8, new_admin_account: u64, now: i64) -> (r:
        Result<u8, FundError>)
        requires
            old(self).wf(),
            0 <= now <= i64::MAX - AUTHORIZATION_TIMEOUT,
        ensures
            final(self).wf(),
            match r {
                Ok(new_id) => {
                    &&& Self::mint_admin_badge_error(*old(self), admin_id, new_admin_account, now)
                        is None
                    &&& new_id == old(self).number_of_admins + 1
                    &&& final(self).number_of_admins == old(self).number_of_admins + 1
                    &&& final(self).min_authorizers == old(self).min_authorizers
                    &&& final(self).authorization_vector@ == consumed(
                        purged(old(self).authorization_vector@, now),
                        admin_id,
                        AuthorizedOperation::MintAdminBadge,
                        None,
                        Some(new_admin_account),
                    )
                    &&& Self::same_positions(*final(self), *old(self))
                    &&& Self::same_units(*final(self), *old(self))
                    &&& Self::same_config(*final(self), *old(self))
                    &&& Self::same_custody(*final(self), *old(self))
                },
                Err(e) => {
                    &&& *final(self) == *old(self)
                    &&& Some(e) == Self::mint_admin_badge_error(
                        *old(self),
                        admin_id,
                        new_admin_account,
                        now,
                    )
                },
            },
    {
        match self.authorization_granted(
            admin_id,
            AuthorizedOperation::MintAdminBadge,
            &None,
            None,
            Some(new_admin_account),
            now,
        ) {
            Some(e) => {
                return Err(e);
            },
            None => {},
        }
        if self.number_of_admins == u8::MAX {
            return Err(FundError::TooManyAdmins);
        }
        match self.check_operation_authorization(
            admin_id,
            AuthorizedOperation::MintAdminBadge,
            &None,
            None,
            Some(new_admin_account),
            now,
        ) {
            Ok(_) => {},
            Err(e) => {
                return Err(e);
            },
        }
        proof {
            let v = self.authorization_vector@;
            assert forall|i: int| 0 <= i < v.len() implies {
                let a = #[trigger] v[i];
                &&& 0 <= a.timestamp <= i64::MAX - AUTHORIZATION_TIMEOUT
                &&& a.allower_admin_id != a.allowed_admin_id
                &&& 1 <= a.allower_admin_id <= self.number_of_admins + 1
            } by {
                assert(crate::fund::auth_records_ok(v, self.number_of_admins));
            }
        }
        self.number_of_admins = self.number_of_admins + 1;
        Ok(self.number_of_admins)
    }

    /// Why `mint_bot_badge` would fail, if it would.
    pub open spec fn mint_bot_badge_error(
        f: FundManager,
        admin_id: u8,
        new_bot_account: u64,
        now: i64,
    ) -> Option<FundError> {
        Self::check_auth_error(
            f,
            admin_id,
            AuthorizedOperation::MintBotBadge,
            None,
            None,
            Some(new_bot_account),
            now,
        )
    }

    /// Mints a bot credential for the agreed account.  Requires a quorum
    /// that also agreed on the account.
    pub fn mint_bot_badge(&mut self, admin_id: u8, new_bot_account: u64, now: i64) -> (r: Result<
        (),
        FundError,
    >)
        requires
            old(self).wf(),
            0 <= now <= i64::MAX - AUTHORIZATION_TIMEOUT,
        ensures
            final(self).wf(),
            match r {
                Ok(_) => {
                    &&& Self::mint_bot_badge_error(*old(self), admin_id, new_bot_account, now)
                        is None
                    &&& final(self).authorization_vector@ == consumed(
                        purged(old(self).authorization_vector@, now),
                        admin_id,
                        AuthorizedOperation::MintBotBadge,
                        None,
                        Some(new_bot_account),
                    )
                    &&& Self::same_admin_state(*final(self), *old(self))
                    &&& Self::same_positions(*final(self), *old(self))
                    &&& Self::same_units(*final(self), *old(self))
                    &&& Self::same_config(*final(self), *old(self))
                    &&& Self::same_custody(*final(self), *old(self))
                },
                Err(e) => {
                    &&& *final(self) == *old(self)
                    &&& Some(e) == Self::mint_bot_badge_error(
                        *old(self),
                        admin_id,
                        new_bot_account,
                        now,
                    )
                },
            },
    {
        match self.check_operation_authorization(
            admin_id,
            AuthorizedOperation::MintBotBadge,
            &None,
            None,
            Some(new_bot_account),
            now,
        ) {
            Ok(_) => {},
            Err(e) => {
                return Err(e);
            },
        }
        Ok(())
    }

    /// Why `set_dex_component` would fail, if it would.
    pub open spec fn set_dex_component_error(f: FundManager, admin_id: u8, now: i64) -> Option<
        FundError,
    > {
        Self::check_auth_error(
            f,
            admin_id,
            AuthorizedOperation::SetDexComponent,
            None,
            None,
            None,
            now,
        )
    }

    /// Configures the swap component.  Requires a quorum.
    pub fn set_dex_component(&mut self, admin_id: u8, dex: u64, now: i64) -> (r: Result<
        (),
        FundError,
    >)
        requires
            old(self).wf(),
            0 <= now <= i64::MAX - AUTHORIZATION_TIMEOUT,
        ensures
            final(self).wf(),
            match r {
                Ok(_) => {
                    &&& Self::set_dex_component_error(*old(self), admin_id, now) is None
                    &&& final(self).dex == Some(dex)
                    &&& final(self).oracle_component == old(self).oracle_component
                    &&& final(self).withdrawal_fee == old(self).withdrawal_fee
                    &&& final(self).buyback_fund_percentage == old(self).buyback_fund_percentage
                    &&& final(self).buyback_fund_account == old(self).buyback_fund_account
                    &&& final(self).validator == old(self).validator
                    &&& final(self).base_coin == old(self).base_coin
                    &&& final(self).authorization_vector@ == consumed(
                        purged(old(self).authorization_vector@, now),
                        admin_id,
                        AuthorizedOperation::SetDexComponent,
                        None,
                        None,
                    )
                    &&& Self::same_admin_state(*final(self), *old(self))
                    &&& Self::same_positions(*final(self), *old(self))
                    &&& Self::same_units(*final(self), *old(self))
                    &&& Self::same_custody(*final(self), *old(self))
                },
                Err(e) => {
                    &&& *final(self) == *old(self)
                    &&& Some(e) == Self::set_dex_component_error(*old(self), admin_id, now)
                },
            },
    {
        match self.check_operation_authorization(
            admin_id,
            AuthorizedOperation::SetDexComponent,
            &None,
            None,
            None,
            now,
        ) {
            Ok(_) => {},
            Err(e) => {
                return Err(e);
            },
        }
        self.dex = Some(dex);
        Ok(())
    }

    /// Why `set_oracle_component` would fail, if it would.
    pub open spec fn set_oracle_component_error(f: FundManager, admin_id: u8, now: i64) -> Option<
        FundError,
    > {
        Self::check_auth_error(
            f,
            admin_id,
            AuthorizedOperation::SetOracleComponent,
            None,
            None,
            None,
            now,
        )
    }

    /// Configures the oracle component.  Requires a quorum.
    pub fn set_oracle_component(&mut self, admin_id: u8, component: u64, now: i64) -> (r: Result<
        (),
        FundError,
    >)
        requires
            old(self).wf(),
            0 <= now <= i64::MAX - AUTHORIZATION_TIMEOUT,
        ensures
            final(self).wf(),
            match r {
                Ok(_) => {
                    &&& Self::set_oracle_component_error(*old(self), admin_id, now) is None
                    &&& final(self).oracle_component == Some(component)
                    &&& final(self).dex == old(self).dex
                    &&& final(self).withdrawal_fee == old(self).withdrawal_fee
                    &&& final(self).buyback_fund_percentage == old(self).buyback_fund_percentage
                    &&& final(self).buyback_fund_account == old(self).buyback_fund_account
                    &&& final(self).validator == old(self).validator
                    &&& final(self).base_coin == old(self).base_coin
                    &&& final(self).authorization_vector@ == consumed(
                        purged(old(self).authorization_vector@, now),
                        admin_id,
                        AuthorizedOperation::SetOracleComponent,
                        None,
                        None,
                    )
                    &&& Self::same_admin_state(*final(self), *old(self))
                    &&& Self::same_positions(*final(self), *old(self))
                    &&& Self::same_units(*final(self), *old(self))
                    &&& Self::same_custody(*final(self), *old(self))
                },
                Err(e) => {
                    &&& *final(self) == *old(self)
                    &&& Some(e) == Self::set_oracle_component_error(*old(self), admin_id, now)
                },
            },
    {
        match self.check_operation_authorization(
            admin_id,
            AuthorizedOperation::SetOracleComponent,
            &None,
            None,
            None,
            now,
        ) {
            Ok(_) => {},
            Err(e) => {
                return Err(e);
            },
        }
        self.oracle_component = Some(component);
        Ok(())
    }

    /// Why `set_withdrawal_fee` would fail, if it would.
    pub open spec fn set_withdrawal_fee_error(
        f: FundManager,
        admin_id: u8,
        percentage: u8,
        now: i64,
    ) -> Option<FundError> {
        let auth = Self::check_auth_error(
            f,
            admin_id,
            AuthorizedOperation::SetWithdrawalFee,
            None,
            Some(percentage),
            None,
            now,
        );
        if auth is Some {
            auth
        } else if percentage >= 100 {
            Some(FundError::PercentageOutOfRange)
        } else {
            None
        }
    }

    /// Sets the withdrawal fee.  Requires a quorum that agreed on the
    /// percentage, which must lie strictly below 100.
    pub fn set_withdrawal_fee(&mut self, admin_id: u8, percentage: u8, now: i64) -> (r: Result<
        (),
        FundError,
    >)
        requires
            old(self).wf(),
            0 <= now <= i64::MAX - AUTHORIZATION_TIMEOUT,
        ensures
            final(self).wf(),
            match r {
                Ok(_) => {
                    &&& Self::set_withdrawal_fee_error(*old(self), admin_id, percentage, now)
                        is None
                    &&& final(self).withdrawal_fee == percentage
                    &&& final(self).dex == old(self).dex
                    &&& final(self).oracle_component == old(self).oracle_component
                    &&& final(self).buyback_fund_percentage == old(self).buyback_fund_percentage
                    &&& final(self).buyback_fund_account == old(self).buyback_fund_account
                    &&& final(self).validator == old(self).validator
                    &&& final(self).base_coin == old(self).base_coin
                    &&& final(self).authorization_vector@ == consumed(
                        purged(old(self).authorization_vector@, now),
                        admin_id,
                        AuthorizedOperation::SetWithdrawalFee,
                        None,
                        None,
                    )
                    &&& Self::same_admin_state(*final(self), *old(self))
                    &&& Self::same_positions(*final(self), *old(self))
                    &&& Self::same_units(*final(self), *old(self))
                    &&& Self::same_custody(*final(self), *old(self))
                },
                Err(e) => {
                    &&& *final(self) == *old(self)
                    &&& Some(e) == Self::set_withdrawal_fee_error(
                        *old(self),
                        admin_id,
                        percentage,
                        now,
                    )
                },
            },
    {
        match self.authorization_granted(
            admin_id,
            AuthorizedOperation::SetWithdrawalFee,
            &None,
            Some(percentage),
            None,
            now,
        ) {
            Some(e) => {
                return Err(e);
            },
            None => {},
        }
        if percentage >= 100 {
            return Err(FundError::PercentageOutOfRange);
        }
        match self.check_operation_authorization(
            admin_id,
            AuthorizedOperation::SetWithdrawalFee,
            &None,
            Some(percentage),
            None,
            now,
        ) {
            Ok(_) => {},
            Err(e) => {
                return Err(e);
            },
        }
        self.withdrawal_fee = percentage;
        Ok(())
    }

    /// Why `set_buyback_fund` would fail, if it would.
    pub open spec fn set_buyback_fund_error(
        f: FundManager,
        admin_id: u8,
        percentage: u8,
        account: u64,
        now: i64,
    ) -> Option<FundError> {
        let auth = Self::check_auth_error(
            f,
            admin_id,
            AuthorizedOperation::SetBuybackFund,
            None,
            Some(percentage),
            Some(account),
            now,
        );
        if auth is Some {
            auth
        } else if percentage >= 100 {
            Some(FundError::PercentageOutOfRange)
        } else {
            None
        }
    }

    /// Sets the buyback percentage and its destination account.  Requires
    /// a quorum that agreed on both.
    pub fn set_buyback_fund(&mut self, admin_id: u8, percentage: u8, account: u64, now: i64) -> (r:
        Result<(), FundError>)
        requires
            old(self).wf(),
            0 <= now <= i64::MAX - AUTHORIZATION_TIMEOUT,
        ensures
            final(self).wf(),
            match r {
                Ok(_) => {
                    &&& Self::set_buyback_fund_error(*old(self), admin_id, percentage, account, now)
                        is None
                    &&& final(self).buyback_fund_percentage == percentage
                    &&& final(self).buyback_fund_account == account
                    &&& final(self).dex == old(self).dex
                    &&& final(self).oracle_component == old(self).oracle_component
                    &&& final(self).withdrawal_fee == old(self).withdrawal_fee
                    &&& final(self).validator == old(self).validator
                    &&& final(self).base_coin == old(self).base_coin
                    &&& final(self).authorization_vector@ == consumed(
                        purged(old(self).authorization_vector@, now),
                        admin_id,
                        AuthorizedOperation::SetBuybackFund,
                        None,
                        Some(account),
                    )
                    &&& Self::same_admin_state(*final(self), *old(self))
                    &&& Self::same_positions(*final(self), *old(self))
                    &&& Self::same_units(*final(self), *old(self))
                    &&& Self::same_custody(*final(self), *old(self))
                },
                Err(e) => {
                    &&& *final(self) == *old(self)
                    &&& Some(e) == Self::set_buyback_fund_error(
                        *old(self),
                        admin_id,
                        percentage,
                        account,
                        now,
                    )
                },
            },
    {
        match self.authorization_granted(
            admin_id,
            AuthorizedOperation::SetBuybackFund,
            &None,
            Some(percentage),
            Some(account),
            now,
        ) {
            Some(e) => {
                return Err(e);
            },
            None => {},
        }
        if percentage >= 100 {
            return Err(FundError::PercentageOutOfRange);
        }
        match self.check_operation_authorization(
            admin_id,
            AuthorizedOperation::SetBuybackFund,
            &None,
            Some(percentage),
            Some(account),
            now,
        ) {
            Ok(_) => {},
            Err(e) => {
                return Err(e);
            },
        }
        self.buyback_fund_percentage = percentage;
        self.buyback_fund_account = account;
        Ok(())
    }

    /// Deposits the validator owner badge back into the fund.  Single
    /// admin; fails if a badge is already held.
    pub fn deposit_validator_badge(&mut self) -> (r: Result<(), FundError>)
        requires
            old(self).wf(),
        ensures
            final(self).wf(),
            match r {
                Ok(_) => {
                    &&& !old(self).validator_badge_present
                    &&& final(self).validator_badge_present
                    &&& final(self).fund_manager_badge_present == old(
                        self,
                    ).fund_manager_badge_present
                    &&& final(self).claim_nft_ids@ == old(self).claim_nft_ids@
                    &&& Self::same_admin_state(*final(self), *old(self))
                    &&& Self::same_auths(*final(self), *old(self))
                    &&& Self::same_positions(*final(self), *old(self))
                    &&& Self::same_units(*final(self), *old(self))
                    &&& Self::same_config(*final(self), *old(self))
                },
                Err(e) => {
                    &&& *final(self) == *old(self)
                    &&& e == FundError::ValidatorBadgePresent
                    &&& old(self).validator_badge_present
                },
            },
    {
        if self.validator_badge_present {
            return Err(FundError::ValidatorBadgePresent);
        }
        self.validator_badge_present = true;
        Ok(())
    }

    /// Deposits the position-management master badge back into the fund.
    /// Single admin.
    pub fn deposit_fund_manager_badge(&mut self)
        requires
            old(self).wf(),
        ensures
            final(self).wf(),
            final(self).fund_manager_badge_present,
            final(self).validator_badge_present == old(self).validator_badge_present,
            final(self).claim_nft_ids@ == old(self).claim_nft_ids@,
            Self::same_admin_state(*final(self), *old(self)),
            Self::same_auths(*final(self), *old(self)),
            Self::same_positions(*final(self), *old(self)),
            Self::same_units(*final(self), *old(self)),
            Self::same_config(*final(self), *old(self)),
    {
        self.fund_manager_badge_present = true;
    }

    /// Registers or unregisters the validator.  Single admin; the ledger
    /// action itself is performed by the runtime once this gate passes.
    /// Fails without the validator owner badge.
    pub fn register_validator(&self, register: bool) -> (r: Result<bool, FundError>)
        requires
            self.wf(),
        ensures
            match r {
                Ok(v) => self.validator_badge_present && v == register,
                Err(e) => !self.validator_badge_present && e == FundError::NoValidatorBadge,
            },
    {
        if !self.validator_badge_present {
            return Err(FundError::NoValidatorBadge);
        }
        Ok(register)
    }

    /// Signals protocol-update readiness for the validator.  Single admin;
    /// returns the vote for the runtime to forward.  Fails without the
    /// validator owner badge.
    pub fn signal_protocol_update_readiness(&self, vote: String) -> (r: Result<String, FundError>)
        requires
            self.wf(),
        ensures
            match r {
                Ok(v) => self.validator_badge_present && v@ == vote@,
                Err(e) => !self.validator_badge_present && e == FundError::NoValidatorBadge,
            },
    {
        if !self.validator_badge_present {
            return Err(FundError::NoValidatorBadge);
        }
        Ok(vote)
    }

    /// Rotates the validator node's signing key.  Single admin; returns
    /// the key for the runtime to install.  Fails without the validator
    /// owner badge.
    pub fn update_node_key(&self, key: String) -> (r: Result<String, FundError>)
        requires
            self.wf(),
        ensures
            match r {
                Ok(k) => self.validator_badge_present && k@ == key@,
                Err(e) => !self.validator_badge_present && e == FundError::NoValidatorBadge,
            },
    {
        if !self.validator_badge_present {
            return Err(FundError::NoValidatorBadge);
        }
        Ok(key)
    }

    /// Starts the unlock of the given amount of owner stake units.  Bot
    /// operation; the unlock itself is the validator's.  Fails without the
    /// validator owner badge.
    pub fn start_unlock_owner_stake_units(&self, amount: Amount) -> (r: Result<Amount, FundError>)
        requires
            self.wf(),
        ensures
            match r {
                Ok(a) => self.validator_badge_present && a == amount,
                Err(e) => !self.validator_badge_present && e == FundError::NoValidatorBadge,
            },
    {
        if !self.validator_badge_present {
            return Err(FundError::NoValidatorBadge);
        }
        Ok(amount)
    }
}

} // verus!
