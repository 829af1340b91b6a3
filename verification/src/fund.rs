//! The fund manager state machine.
//!
//! [`FundManager`] holds the engine's entire persistent state: governance
//! parameters, the authorization ledger, the position registry, the unit
//! supply and the custody flags.  Every public method either applies its
//! whole effect and returns `Ok`, or returns an error and leaves the state
//! exactly as it was, mirroring the all-or-nothing transaction semantics of
//! the ledger the engine is designed for.
//!
//! On-ledger entities — accounts, resources, validator and adapter
//! components, claim receipts — appear as opaque `u64` handles.  Ledger
//! time enters as an `i64` argument of the methods that read the clock.
//! Authentication is the ledger's: a method taking an `admin_id` trusts its
//! caller to have verified possession of the admin credential with that id;
//! the engine itself checks that the id is one of the minted credentials,
//! which are numbered from 1 to `number_of_admins`.

use vstd::prelude::*;
use crate::amount::{Amount, AMOUNT_ONE, div_spec, pct_spec};
use crate::authorization::{
    Authorization, AuthorizedOperation, AUTHORIZATION_TIMEOUT, MAX_VECTOR_SIZE, opt_name,
    matches_grant, count_matching, purged, consumed, pairwise_distinct, has_same_request,
    filter_live, count_granted, remove_consumed, contains_same_request, lemma_count_purged,
    lemma_purged_membership, lemma_purged_distinct, lemma_consumed_membership,
    lemma_consumed_distinct, same_request,
};
use crate::errors::FundError;
use crate::protocol::{DefiProtocol, sum_of_values, names_distinct};

verus! {

/// The complete state of the fund engine.
pub struct FundManager {
    /// Minimum number of distinct admin grants a sensitive operation needs.
    pub min_authorizers: u8,
    /// Number of admin credentials minted so far; their ids are
    /// `1..=number_of_admins`.
    pub number_of_admins: u8,
    /// Pending admin authorizations, at most [`MAX_VECTOR_SIZE`].
    pub authorization_vector: Vec<Authorization>,
    /// The position registry, at most [`MAX_VECTOR_SIZE`] entries with
    /// unique names.
    pub defi_protocols: Vec<DefiProtocol>,
    /// Cached total USD value of the fund: the sum of the position values.
    pub total_value: Amount,
    /// Fund units in existence.
    pub fund_unit_supply: Amount,
    /// Fund units held back for the distribution in progress.
    pub fund_units_vault_amount: Amount,
    /// Size of the current distribution batch.
    pub fund_units_to_distribute: Amount,
    /// Percentage fee on withdrawals, 0..=100.
    pub withdrawal_fee: u8,
    /// Percentage of unstake proceeds diverted to the buyback fund, 0..=100.
    pub buyback_fund_percentage: u8,
    /// Account managing the buyback fund.
    pub buyback_fund_account: u64,
    /// The validator component the fund stakes with.
    pub validator: u64,
    /// Resource handle of the staked base asset.
    pub base_coin: u64,
    /// Whether the validator owner badge is held by the fund.
    pub validator_badge_present: bool,
    /// Whether the position-management master badge is held by the fund.
    pub fund_manager_badge_present: bool,
    /// Ids of the claim receipts for unstakes in progress.
    pub claim_nft_ids: Vec<u64>,
    /// The configured swap component, if any.
    pub dex: Option<u64>,
    /// The configured oracle component, if any.
    pub oracle_component: Option<u64>,
}

/// Per-record constraints on the authorization ledger: timestamps that can
/// be compared against the clock without overflow, no self-authorization,
/// and an allower that is a minted credential.
pub open spec fn auth_records_ok(s: Seq<Authorization>, admins: u8) -> bool {
    forall|i: int|
        0 <= i < s.len() ==> {
            let a = #[trigger] s[i];
            &&& 0 <= a.timestamp <= i64::MAX - AUTHORIZATION_TIMEOUT
            &&& a.allower_admin_id != a.allowed_admin_id
            &&& 1 <= a.allower_admin_id <= admins
        }
}

/// Every record of a list drawn element-wise from `s` keeps the per-record
/// constraints of `s`.
pub proof fn lemma_records_ok_subset(s: Seq<Authorization>, t: Seq<Authorization>, admins: u8)
    requires
        auth_records_ok(s, admins),
        forall|i: int|
            0 <= i < t.len() ==> exists|j: int| 0 <= j < s.len() && #[trigger] t[i] == s[j],
    ensures
        auth_records_ok(t, admins),
{
    assert forall|i: int| 0 <= i < t.len() implies {
        let a = #[trigger] t[i];
        &&& 0 <= a.timestamp <= i64::MAX - AUTHORIZATION_TIMEOUT
        &&& a.allower_admin_id != a.allowed_admin_id
        &&& 1 <= a.allower_admin_id <= admins
    } by {
        let j = choose|j: int| 0 <= j < s.len() && t[i] == s[j];
        assert(s[j] == t[i]);
    }
}

/// Whether some pending grant has this allower and these grant parameters.
pub open spec fn has_matching_grant(
    s: Seq<Authorization>,
    allower: u8,
    allowed: u8,
    op: AuthorizedOperation,
    name: Option<Seq<char>>,
    pct: Option<u8>,
    acct: Option<u64>,
) -> bool {
    exists|i: int|
        0 <= i < s.len() && (#[trigger] s[i]).allower_admin_id == allower && matches_grant(
            s[i],
            allowed,
            op,
            name,
            pct,
            acct,
        )
}

impl FundManager {
    /// Governance parameters are sound: once initialised, the quorum
    /// threshold is strictly below the number of admins, and the
    /// percentages are percentages.
    pub open spec fn governance_wf(self) -> bool {
        &&& (self.number_of_admins == 0 ==> self.min_authorizers == 0)
        &&& (self.number_of_admins > 0 ==> self.min_authorizers < self.number_of_admins)
        &&& self.withdrawal_fee <= 100
        &&& self.buyback_fund_percentage <= 100
    }

    /// The authorization ledger is bounded, holds no duplicate grant, and
    /// every record is well-formed.
    pub open spec fn auths_wf(self) -> bool {
        &&& self.authorization_vector@.len() <= MAX_VECTOR_SIZE
        &&& pairwise_distinct(self.authorization_vector@)
        &&& auth_records_ok(self.authorization_vector@, self.number_of_admins)
    }

    /// The position registry is bounded, names are unique, values are
    /// non-negative and desired weights are percentages.
    pub open spec fn protocols_wf(self) -> bool {
        &&& self.defi_protocols@.len() <= MAX_VECTOR_SIZE
        &&& names_distinct(self.defi_protocols@)
        &&& forall|i: int|
            0 <= i < self.defi_protocols@.len() ==> {
                let p = #[trigger] self.defi_protocols@[i];
                &&& p.value.subunits >= 0
                &&& p.desired_percentage <= 100
            }
    }

    /// The fund's cached total value equals the sum of the position values.
    pub open spec fn nav_consistent(self) -> bool {
        self.total_value.subunits == sum_of_values(self.defi_protocols@)
    }

    /// Unit accounting is sound: supply and holdings are non-negative and
    /// the distribution vault never holds more than the whole supply.
    pub open spec fn units_wf(self) -> bool {
        &&& self.fund_unit_supply.subunits >= 0
        &&& self.fund_units_vault_amount.subunits >= 0
        &&& self.fund_units_vault_amount.subunits <= self.fund_unit_supply.subunits
        &&& self.fund_units_to_distribute.subunits >= 0
    }

    /// The well-formedness invariant every public method preserves.
    pub open spec fn wf(self) -> bool {
        &&& self.governance_wf()
        &&& self.auths_wf()
        &&& self.protocols_wf()
        &&& self.nav_consistent()
        &&& self.units_wf()
    }

    /// Both governance counters unchanged.
    pub open spec fn same_admin_state(a: FundManager, b: FundManager) -> bool {
        &&& a.min_authorizers == b.min_authorizers
        &&& a.number_of_admins == b.number_of_admins
    }

    /// The authorization ledger unchanged.
    pub open spec fn same_auths(a: FundManager, b: FundManager) -> bool {
        a.authorization_vector@ == b.authorization_vector@
    }

    /// The position registry and the cached total value unchanged.
    pub open spec fn same_positions(a: FundManager, b: FundManager) -> bool {
        &&& a.defi_protocols@ == b.defi_protocols@
        &&& a.total_value == b.total_value
    }

    /// Unit supply and distribution bookkeeping unchanged.
    pub open spec fn same_units(a: FundManager, b: FundManager) -> bool {
        &&& a.fund_unit_supply == b.fund_unit_supply
        &&& a.fund_units_vault_amount == b.fund_units_vault_amount
        &&& a.fund_units_to_distribute == b.fund_units_to_distribute
    }

    /// Fee, buyback, validator, base asset and collaborator configuration
    /// unchanged.
    pub open spec fn same_config(a: FundManager, b: FundManager) -> bool {
        &&& a.withdrawal_fee == b.withdrawal_fee
        &&& a.buyback_fund_percentage == b.buyback_fund_percentage
        &&& a.buyback_fund_account == b.buyback_fund_account
        &&& a.validator == b.validator
        &&& a.base_coin == b.base_coin
        &&& a.dex == b.dex
        &&& a.oracle_component == b.oracle_component
    }

    /// Badge custody and pending claim receipts unchanged.
    pub open spec fn same_custody(a: FundManager, b: FundManager) -> bool {
        &&& a.validator_badge_present == b.validator_badge_present
        &&& a.fund_manager_badge_present == b.fund_manager_badge_present
        &&& a.claim_nft_ids@ == b.claim_nft_ids@
    }

    /// Instantiates an uninitialised fund holding the master badge and no
    /// positions, units or admins.
    ///
    /// The percentages are trusted at instantiation: a fee or buyback share
    /// above 100 would make later value computations meaningless.
    pub fn new(
        validator: u64,
        base_coin: u64,
        withdrawal_fee: u8,
        buyback_fund_percentage: u8,
        buyback_fund_account: u64,
    ) -> (r: FundManager)
        requires
            withdrawal_fee <= 100,
            buyback_fund_percentage <= 100,
        ensures
            r.wf(),
            r.min_authorizers == 0,
            r.number_of_admins == 0,
            r.authorization_vector@.len() == 0,
            r.defi_protocols@.len() == 0,
            r.total_value.subunits == 0,
            r.fund_unit_supply.subunits == 0,
            r.fund_units_vault_amount.subunits == 0,
            r.fund_units_to_distribute.subunits == 0,
            r.withdrawal_fee == withdrawal_fee,
            r.buyback_fund_percentage == buyback_fund_percentage,
            r.buyback_fund_account == buyback_fund_account,
            r.validator == validator,
            r.base_coin == base_coin,
            !r.validator_badge_present,
            r.fund_manager_badge_present,
            r.claim_nft_ids@.len() == 0,
            r.dex is None,
            r.oracle_component is None,
    {
        FundManager {
            min_authorizers: 0,
            number_of_admins: 0,
            authorization_vector: Vec::new(),
            defi_protocols: Vec::new(),
            total_value: Amount::zero(),
            fund_unit_supply: Amount::zero(),
            fund_units_vault_amount: Amount::zero(),
            fund_units_to_distribute: Amount::zero(),
            withdrawal_fee,
            buyback_fund_percentage,
            buyback_fund_account,
            validator,
            base_coin,
            validator_badge_present: false,
            fund_manager_badge_present: true,
            claim_nft_ids: Vec::new(),
            dex: None,
            oracle_component: None,
        }
    }

    /// Why `init` would fail, if it would.
    pub open spec fn init_error(
        f: FundManager,
        badges: u8,
        min_authorizers: u8,
        initial_supply: Amount,
    ) -> Option<FundError> {
        if f.number_of_admins != 0 {
            Some(FundError::AlreadyInitialised)
        } else if badges == 0 {
            Some(FundError::NoAdminBadges)
        } else if badges <= min_authorizers {
            Some(FundError::TooFewAdmins)
        } else if f.fund_unit_supply.subunits + initial_supply.subunits > i128::MAX {
            Some(FundError::AmountOverflow)
        } else {
            None
        }
    }

    /// One-time initialisation: mints the admin credentials `1..=badges`,
    /// fixes the quorum threshold and mints the initial unit supply, which
    /// is returned to the caller.
    pub fn init(
        &mut self,
        number_of_admin_badges: u8,
        min_authorizers: u8,
        fund_units_initial_supply: Amount,
    ) -> (r: Result<Amount, FundError>)
        requires
            old(self).wf(),
            fund_units_initial_supply.subunits >= 0,
        ensures
            final(self).wf(),
            match r {
                Ok(minted) => {
                    &&& Self::init_error(
                        *old(self),
                        number_of_admin_badges,
                        min_authorizers,
                        fund_units_initial_supply,
                    ) is None
                    &&& minted == fund_units_initial_supply
                    &&& final(self).number_of_admins == number_of_admin_badges
                    &&& final(self).min_authorizers == min_authorizers
                    &&& final(self).fund_unit_supply.subunits == old(
                        self,
                    ).fund_unit_supply.subunits + fund_units_initial_supply.subunits
                    &&& Self::same_auths(*final(self), *old(self))
                    &&& Self::same_positions(*final(self), *old(self))
                    &&& Self::same_config(*final(self), *old(self))
                    &&& Self::same_custody(*final(self), *old(self))
                    &&& final(self).fund_units_vault_amount == old(self).fund_units_vault_amount
                    &&& final(self).fund_units_to_distribute == old(
                        self,
                    ).fund_units_to_distribute
                },
                Err(e) => {
                    &&& *final(self) == *old(self)
                    &&& Some(e) == Self::init_error(
                        *old(self),
                        number_of_admin_badges,
                        min_authorizers,
                        fund_units_initial_supply,
                    )
                },
            },
    {
        if self.number_of_admins != 0 {
            return Err(FundError::AlreadyInitialised);
        }
        if number_of_admin_badges == 0 {
            return Err(FundError::NoAdminBadges);
        }
        if number_of_admin_badges <= min_authorizers {
            return Err(FundError::TooFewAdmins);
        }
        let supply = match self.fund_unit_supply.checked_add(fund_units_initial_supply) {
            Some(s) => s,
            None => {
                return Err(FundError::AmountOverflow);
            },
        };
        self.min_authorizers = min_authorizers;
        self.number_of_admins = number_of_admin_badges;
        self.fund_unit_supply = supply;
        Ok(fund_units_initial_supply)
    }

    /// Why `check_operation_authorization` would fail, if it would.
    pub open spec fn check_auth_error(
        f: FundManager,
        admin_id: u8,
        op: AuthorizedOperation,
        name: Option<Seq<char>>,
        pct: Option<u8>,
        acct: Option<u64>,
        now: i64,
    ) -> Option<FundError> {
        if !(1 <= admin_id <= f.number_of_admins) {
            Some(FundError::InvalidAdminId)
        } else if count_matching(f.authorization_vector@, now, admin_id, op, name, pct, acct)
            < f.min_authorizers {
            Some(FundError::NotAuthorized)
        } else {
            None
        }
    }

    /// Read-only pre-flight of the quorum check: reports the error
    /// `check_operation_authorization` would return, without spending or
    /// purging anything.
    pub(crate) fn authorization_granted(
        &self,
        admin_id: u8,
        op: AuthorizedOperation,
        name: &Option<String>,
        pct: Option<u8>,
        acct: Option<u64>,
        now: i64,
    ) -> (r: Option<FundError>)
        requires
            self.wf(),
            0 <= now <= i64::MAX - AUTHORIZATION_TIMEOUT,
        ensures
            r == Self::check_auth_error(*self, admin_id, op, opt_name(*name), pct, acct, now),
    {
        if admin_id < 1 || admin_id > self.number_of_admins {
            return Some(FundError::InvalidAdminId);
        }
        let live = filter_live(&self.authorization_vector, now);
        proof {
            lemma_purged_membership(self.authorization_vector@, now);
            lemma_records_ok_subset(self.authorization_vector@, live@, self.number_of_admins);
            assert forall|i: int| 0 <= i < live@.len() implies 0 <= #[trigger] live@[i].timestamp
                <= i64::MAX - AUTHORIZATION_TIMEOUT by {
                assert(auth_records_ok(live@, self.number_of_admins));
            }
        }
        let granted = count_granted(&live, now, admin_id, op, name, pct, acct);
        proof {
            lemma_count_purged(
                self.authorization_vector@,
                now,
                admin_id,
                op,
                opt_name(*name),
                pct,
                acct,
            );
        }
        if granted < self.min_authorizers as usize {
            return Some(FundError::NotAuthorized);
        }
        None
    }

    /// Verifies that admin `admin_id` holds a quorum of live grants for the
    /// operation with exactly these parameters, then spends every pending
    /// grant on the operation's consumption key.  On failure nothing is
    /// spent and nothing is purged.
    pub(crate) fn check_operation_authorization(
        &mut self,
        admin_id: u8,
        op: AuthorizedOperation,
        name: &Option<String>,
        pct: Option<u8>,
        acct: Option<u64>,
        now: i64,
    ) -> (r: Result<(), FundError>)
        requires
            old(self).wf(),
            0 <= now <= i64::MAX - AUTHORIZATION_TIMEOUT,
        ensures
            final(self).wf(),
            match r {
                Ok(_) => {
                    &&& Self::check_auth_error(
                        *old(self),
                        admin_id,
                        op,
                        opt_name(*name),
                        pct,
                        acct,
                        now,
                    ) is None
                    &&& final(self).authorization_vector@ == consumed(
                        purged(old(self).authorization_vector@, now),
                        admin_id,
                        op,
                        opt_name(*name),
                        acct,
                    )
                    &&& Self::same_admin_state(*final(self), *old(self))
                    &&& Self::same_positions(*final(self), *old(self))
                    &&& Self::same_units(*final(self), *old(self))
                    &&& Self::same_config(*final(self), *old(self))
                    &&& Self::same_custody(*final(self), *old(self))
                },
                Err(e) => {
                    &&& *final(self) == *old(self)
                    &&& Some(e) == Self::check_auth_error(
                        *old(self),
                        admin_id,
                        op,
                        opt_name(*name),
                        pct,
                        acct,
                        now,
                    )
                },
            },
    {
        if admin_id < 1 || admin_id > self.number_of_admins {
            return Err(FundError::InvalidAdminId);
        }
        let live = filter_live(&self.authorization_vector, now);
        proof {
            lemma_purged_membership(self.authorization_vector@, now);
            lemma_records_ok_subset(
                self.authorization_vector@,
                live@,
                self.number_of_admins,
            );
            assert forall|i: int| 0 <= i < live@.len() implies 0 <= #[trigger] live@[i].timestamp
                <= i64::MAX - AUTHORIZATION_TIMEOUT by {
                assert(auth_records_ok(live@, self.number_of_admins));
            }
        }
        let granted = count_granted(&live, now, admin_id, op, name, pct, acct);
        proof {
            lemma_count_purged(
                self.authorization_vector@,
                now,
                admin_id,
                op,
                opt_name(*name),
                pct,
                acct,
            );
        }
        if granted < self.min_authorizers as usize {
            return Err(FundError::NotAuthorized);
        }
        let remaining = remove_consumed(&live, admin_id, op, name, acct);
        proof {
            let s = self.authorization_vector@;
            let p = purged(s, now);
            let c = consumed(p, admin_id, op, opt_name(*name), acct);
            lemma_purged_membership(s, now);
            lemma_purged_distinct(s, now);
            lemma_records_ok_subset(s, p, self.number_of_admins);
            lemma_consumed_membership(p, admin_id, op, opt_name(*name), acct);
            lemma_consumed_distinct(p, admin_id, op, opt_name(*name), acct);
            lemma_records_ok_subset(p, c, self.number_of_admins);
        }
        self.authorization_vector = remaining;
        Ok(())
    }

    /// Why `authorize_admin_operation` would fail, if it would.
    pub open spec fn authorize_error(
        f: FundManager,
        admin_id: u8,
        allowed: u8,
        op: AuthorizedOperation,
        name: Option<Seq<char>>,
        pct: Option<u8>,
        acct: Option<u64>,
        now: i64,
    ) -> Option<FundError> {
        if !(1 <= admin_id <= f.number_of_admins) {
            Some(FundError::InvalidAdminId)
        } else if admin_id == allowed {
            Some(FundError::SelfAuthorization)
        } else if purged(f.authorization_vector@, now).len() >= MAX_VECTOR_SIZE {
            Some(FundError::AuthorizationListFull)
        } else if has_matching_grant(
            purged(f.authorization_vector@, now),
            admin_id,
            allowed,
            op,
            name,
            pct,
            acct,
        ) {
            Some(FundError::DuplicateAuthorization)
        } else {
            None
        }
    }

    /// Admin `admin_id` grants admin `allowed_admin_id` the right to
    /// perform one sensitive operation with exactly these parameters.
    /// Expired records are purged, self-authorization and exact duplicates
    /// are rejected, and the list is kept within capacity.
    pub fn authorize_admin_operation(
        &mut self,
        admin_id: u8,
        allowed_admin_id: u8,
        authorized_operation: AuthorizedOperation,
        protocol_name: Option<String>,
        percentage: Option<u8>,
        account_address: Option<u64>,
        now: i64,
    ) -> (r: Result<(), FundError>)
        requires
            old(self).wf(),
            0 <= now <= i64::MAX - AUTHORIZATION_TIMEOUT,
        ensures
            final(self).wf(),
            match r {
                Ok(_) => {
                    &&& Self::authorize_error(
                        *old(self),
                        admin_id,
                        allowed_admin_id,
                        authorized_operation,
                        opt_name(protocol_name),
                        percentage,
                        account_address,
                        now,
                    ) is None
                    &&& final(self).authorization_vector@.len() == purged(
                        old(self).authorization_vector@,
                        now,
                    ).len() + 1
                    &&& final(self).authorization_vector@.drop_last() == purged(
                        old(self).authorization_vector@,
                        now,
                    )
                    &&& final(self).authorization_vector@.last() == (Authorization {
                        timestamp: now,
                        allower_admin_id: admin_id,
                        allowed_admin_id,
                        authorized_operation,
                        protocol_name,
                        percentage,
                        account_address,
                    })
                    &&& Self::same_admin_state(*final(self), *old(self))
                    &&& Self::same_positions(*final(self), *old(self))
                    &&& Self::same_units(*final(self), *old(self))
                    &&& Self::same_config(*final(self), *old(self))
                    &&& Self::same_custody(*final(self), *old(self))
                },
                Err(e) => {
                    &&& *final(self) == *old(self)
                    &&& Some(e) == Self::authorize_error(
                        *old(self),
                        admin_id,
                        allowed_admin_id,
                        authorized_operation,
                        opt_name(protocol_name),
                        percentage,
                        account_address,
                        now,
                    )
                },
            },
    {
        if admin_id < 1 || admin_id > self.number_of_admins {
            return Err(FundError::InvalidAdminId);
        }
        if admin_id == allowed_admin_id {
            return Err(FundError::SelfAuthorization);
        }
        let live = filter_live(&self.authorization_vector, now);
        if live.len() >= MAX_VECTOR_SIZE {
            return Err(FundError::AuthorizationListFull);
        }
        let record = Authorization {
            timestamp: now,
            allower_admin_id: admin_id,
            allowed_admin_id,
            authorized_operation,
            protocol_name,
            percentage,
            account_address,
        };
        if contains_same_request(&live, &record) {
            proof {
                let p = purged(old(self).authorization_vector@, now);
                let w = choose|i: int| 0 <= i < p.len() && same_request(p[i], record);
                assert(p[w].allower_admin_id == admin_id && matches_grant(
                    p[w],
                    allowed_admin_id,
                    authorized_operation,
                    opt_name(record.protocol_name),
                    percentage,
                    account_address,
                ));
            }
            return Err(FundError::DuplicateAuthorization);
        }
        let mut updated = live;
        updated.push(record);
        proof {
            let s = old(self).authorization_vector@;
            let p = purged(s, now);
            lemma_purged_membership(s, now);
            lemma_purged_distinct(s, now);
            lemma_records_ok_subset(s, p, self.number_of_admins);
            assert(updated@.drop_last() =~= p);
            if has_matching_grant(
                p,
                admin_id,
                allowed_admin_id,
                authorized_operation,
                opt_name(updated@.last().protocol_name),
                percentage,
                account_address,
            ) {
                let w = choose|i: int|
                    0 <= i < p.len() && (#[trigger] p[i]).allower_admin_id == admin_id
                        && matches_grant(
                        p[i],
                        allowed_admin_id,
                        authorized_operation,
                        opt_name(updated@.last().protocol_name),
                        percentage,
                        account_address,
                    );
                assert(same_request(p[w], updated@.last()));
                assert(has_same_request(p, updated@.last()));
            }
            assert forall|i: int, j: int|
                0 <= i < updated@.len() && 0 <= j < updated@.len() && i != j implies !same_request(
                updated@[i],
                updated@[j],
            ) by {
                if i < p.len() && j < p.len() {
                    assert(updated@[i] == p[i] && updated@[j] == p[j]);
                } else if i < p.len() {
                    assert(updated@[i] == p[i] && updated@[j] == updated@.last());
                    assert(!has_same_request(p, updated@.last()));
                } else {
                    assert(updated@[j] == p[j] && updated@[i] == updated@.last());
                    assert(!has_same_request(p, updated@.last()));
                }
            }
        }
        self.authorization_vector = updated;
        Ok(())
    }
}

} // verus!
