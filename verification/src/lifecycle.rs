//! The stake lifecycle: starting an unstake, completing it by investing
//! the proceeds, and distributing the freshly minted fund units.
//!
//! The runtime performs the ledger work — unlocking and unstaking with the
//! validator, redeeming the claim receipt, swapping and depositing through
//! the adapters, airdropping units — and reports the observed quantities
//! to these methods, which keep the fund's accounts.

use vstd::prelude::*;
use crate::amount::{Amount, AMOUNT_ONE, mul_spec, div_spec, pct_spec};
use crate::errors::FundError;
use crate::fund::FundManager;
use crate::protocol::{DefiProtocol, sum_of_values, index_of_name, lemma_sum_update, lemma_sum_bounds};
use crate::valuation::{
    non_negative_report, best_deposit_index, lemma_best_deposit_index_bounds,
};

verus! {

/// The index of the first occurrence of `id`, or `-1`.
pub open spec fn first_index_u64(s: Seq<u64>, id: u64) -> int
    decreases s.len(),
{
    if s.len() == 0 {
        -1
    } else if s.first() == id {
        0
    } else {
        let r = first_index_u64(s.drop_first(), id);
        if r < 0 {
            -1
        } else {
            r + 1
        }
    }
}

/// What `first_index_u64` returns.
pub proof fn lemma_first_index_u64(s: Seq<u64>, id: u64)
    ensures
        s.contains(id) ==> {
            let r = first_index_u64(s, id);
            &&& 0 <= r < s.len()
            &&& s[r] == id
            &&& forall|j: int| 0 <= j < r ==> s[j] != id
        },
        !s.contains(id) ==> first_index_u64(s, id) == -1,
    decreases s.len(),
{
    if s.len() > 0 {
        let t = s.drop_first();
        lemma_first_index_u64(t, id);
        assert(forall|i: int| 0 <= i < t.len() ==> #[trigger] t[i] == s[i + 1]);
        if s.first() == id {
            assert(s.contains(id));
        } else {
            if s.contains(id) {
                let w = choose|i: int| 0 <= i < s.len() && s[i] == id;
                assert(t[w - 1] == id);
                assert(t.contains(id));
                let r = first_index_u64(t, id);
                assert(s[r + 1] == id);
                assert forall|j: int| 0 <= j < r + 1 implies s[j] != id by {
                    if j > 0 {
                        assert(t[j - 1] != id);
                    }
                }
            } else {
                if t.contains(id) {
                    let w = choose|i: int| 0 <= i < t.len() && t[i] == id;
                    assert(s[w + 1] == id);
                }
            }
        }
    }
}

/// The index of the first occurrence of `id` in the vector, if any.
pub fn find_u64(v: &Vec<u64>, id: u64) -> (r: Option<usize>)
    ensures
        r matches Some(i) ==> i as int == first_index_u64(v@, id) && i < v@.len() && v@[
            i as int
        ] == id,
        r is None ==> !v@.contains(id),
{
    proof {
        lemma_first_index_u64(v@, id);
    }
    let mut i: usize = 0;
    while i < v.len()
        invariant
            i <= v@.len(),
            forall|k: int| 0 <= k < i ==> v@[k] != id,
        decreases v@.len() - i,
    {
        if v[i] == id {
            proof {
                assert(v@.contains(id));
                lemma_first_index_u64(v@, id);
                let r0 = first_index_u64(v@, id);
                if r0 < i as int {
                    assert(v@[r0] != id);
                } else if r0 > i as int {
                    assert(v@[i as int] != id);
                }
            }
            return Some(i);
        }
        i = i + 1;
    }
    proof {
        if v@.contains(id) {
            let w = choose|j: int| 0 <= j < v@.len() && v@[j] == id;
        }
    }
    None
}

/// What the completed unstake did, mirroring the completion event.
#[derive(Debug)]
pub struct UnstakeOutcome {
    /// Name of the position the proceeds were invested in.
    pub defi_protocol_name: String,
    /// Base-asset amount diverted to the buyback fund.
    pub buyback_amount: Amount,
    /// Base-asset amount invested.
    pub xrd_amount: Amount,
    /// Fund units minted for the distribution batch.
    pub fund_units_to_distribute: Amount,
    /// The selected position's new cached value.
    pub protocol_value: Amount,
    /// The fund's new total value.
    pub total_value: Amount,
}

/// The price used for an asset of the selected position: the base asset is
/// priced by the already-fetched base price, any other asset needs its own
/// entry.
pub open spec fn resolved_price(
    asset: u64,
    base: u64,
    base_price: Amount,
    given: Option<Amount>,
) -> Option<Amount> {
    if asset == base {
        Some(base_price)
    } else {
        given
    }
}

/// The USD value of the selected position after the deposit, from the
/// adapter-reported holdings.  A reported second holding on a single-asset
/// position is a mismatch; a missing second holding merely contributes
/// nothing, as the adapter then reported none.
pub open spec fn deposit_valuation(
    entry: DefiProtocol,
    base: u64,
    base_price: Amount,
    coin_price: Option<Amount>,
    other_coin_price: Option<Amount>,
    rep: (Amount, Option<Amount>),
) -> Result<int, FundError> {
    match resolved_price(entry.coin, base, base_price, coin_price) {
        None => Err(FundError::MissingPrice),
        Some(cp) => {
            if cp.value() * rep.0.value() > i128::MAX {
                Err(FundError::AmountOverflow)
            } else {
                let v1 = mul_spec(cp.value(), rep.0.value());
                match rep.1 {
                    None => Ok(v1),
                    Some(oa) => match entry.other_coin {
                        None => Err(FundError::AssetMismatch),
                        Some(oc) => match resolved_price(oc, base, base_price, other_coin_price) {
                            None => Err(FundError::MissingPrice),
                            Some(op) => {
                                if op.value() * oa.value() > i128::MAX {
                                    Err(FundError::AmountOverflow)
                                } else if v1 + mul_spec(op.value(), oa.value()) > i128::MAX {
                                    Err(FundError::AmountOverflow)
                                } else {
                                    Ok(v1 + mul_spec(op.value(), oa.value()))
                                }
                            },
                        },
                    },
                }
            }
        },
    }
}

impl FundManager {
    /// Why `start_unstake` would fail, if it would.
    pub open spec fn start_unstake_error(f: FundManager, lsu_amount: Amount) -> Option<FundError> {
        if !f.validator_badge_present {
            Some(FundError::NoValidatorBadge)
        } else if lsu_amount.subunits <= 0 {
            Some(FundError::NoLsuAvailable)
        } else {
            None
        }
    }

    /// Records the start of an unstake: the runtime has finished unlocking
    /// `lsu_amount` stake units and received the claim receipt
    /// `claim_nft_id` for their unstake.  Bot operation; needs the
    /// validator owner badge and a positive unlocked amount.
    pub fn start_unstake(&mut self, lsu_amount: Amount, claim_nft_id: u64) -> (r: Result<
        (),
        FundError,
    >)
        requires
            old(self).wf(),
            !old(self).claim_nft_ids@.contains(claim_nft_id),
        ensures
            final(self).wf(),
            match r {
                Ok(_) => {
                    &&& Self::start_unstake_error(*old(self), lsu_amount) is None
                    &&& final(self).claim_nft_ids@ == old(self).claim_nft_ids@.push(claim_nft_id)
                    &&& final(self).validator_badge_present == old(self).validator_badge_present
                    &&& final(self).fund_manager_badge_present == old(
                        self,
                    ).fund_manager_badge_present
                    &&& Self::same_admin_state(*final(self), *old(self))
                    &&& Self::same_auths(*final(self), *old(self))
                    &&& Self::same_positions(*final(self), *old(self))
                    &&& Self::same_units(*final(self), *old(self))
                    &&& Self::same_config(*final(self), *old(self))
                },
                Err(e) => {
                    &&& *final(self) == *old(self)
                    &&& Some(e) == Self::start_unstake_error(*old(self), lsu_amount)
                },
            },
    {
        if !self.validator_badge_present {
            return Err(FundError::NoValidatorBadge);
        }
        if lsu_amount.subunits <= 0 {
            return Err(FundError::NoLsuAvailable);
        }
        self.claim_nft_ids.push(claim_nft_id);
        Ok(())
    }

    /// Why `finish_unstake` would fail, if it would.
    pub open spec fn finish_unstake_error(
        f: FundManager,
        claim_nft_id: u64,
        claimed: Amount,
        base_price: Amount,
        coin_price: Option<Amount>,
        other_coin_price: Option<Amount>,
        rep: (Amount, Option<Amount>),
    ) -> Option<FundError> {
        if f.fund_units_vault_amount.subunits != 0 {
            Some(FundError::DistributionPending)
        } else if !f.claim_nft_ids@.contains(claim_nft_id) {
            Some(FundError::ClaimNotFound)
        } else if claimed.value() * (f.buyback_fund_percentage as int) > i128::MAX {
            Some(FundError::AmountOverflow)
        } else if f.oracle_component is None {
            Some(FundError::NoOracle)
        } else if Self::unit_value_error(f) is Some {
            Self::unit_value_error(f)
        } else {
            let xrd = claimed.value() - pct_spec(claimed.value(), f.buyback_fund_percentage as int);
            let gross = Self::gross_unit_value(f);
            if xrd * base_price.value() > i128::MAX {
                Some(FundError::AmountOverflow)
            } else if gross == 0 {
                Some(FundError::ZeroUnitValue)
            } else if mul_spec(xrd, base_price.value()) * (AMOUNT_ONE as int) > i128::MAX {
                Some(FundError::AmountOverflow)
            } else {
                let units = div_spec(mul_spec(xrd, base_price.value()), gross);
                if f.fund_unit_supply.value() + units > i128::MAX {
                    Some(FundError::AmountOverflow)
                } else if Self::deposit_selection_error(f) is Some {
                    Self::deposit_selection_error(f)
                } else {
                    let sel = best_deposit_index(f.defi_protocols@, f.total_value.value());
                    let entry = f.defi_protocols@[sel];
                    if entry.coin != f.base_coin && entry.other_coin != Some(f.base_coin)
                        && f.dex is None {
                        Some(FundError::NoDex)
                    } else {
                        match deposit_valuation(
                            entry,
                            f.base_coin,
                            base_price,
                            coin_price,
                            other_coin_price,
                            rep,
                        ) {
                            Err(e) => Some(e),
                            Ok(nv) => {
                                let s2 = f.defi_protocols@.update(
                                    sel,
                                    (DefiProtocol {
                                        value: Amount { subunits: nv as i128 },
                                        ..entry
                                    }),
                                );
                                if sum_of_values(s2) > i128::MAX {
                                    Some(FundError::AmountOverflow)
                                } else {
                                    None
                                }
                            },
                        }
                    }
                }
            }
        }
    }

    /// Completes an unstake: the runtime redeemed claim receipt
    /// `claim_nft_id` for `claimed` of the base asset, and this method
    /// accounts for it.  A configured share goes to the buyback fund; the
    /// rest is invested into the most under-allocated position (after a
    /// swap through the dex when the position accepts neither the base
    /// asset directly nor as its second asset).  New fund units covering
    /// the invested value at the current gross unit price are minted into
    /// the distribution vault, and the batch size is recorded.  `rep` is the adapter-reported holding after the deposit;
    /// `coin_price` and `other_coin_price` price the position's assets
    /// where they are not the base asset.  Fails while a previous
    /// distribution batch is still undelivered.
    pub fn finish_unstake(
        &mut self,
        claim_nft_id: u64,
        claimed: Amount,
        base_price: Amount,
        coin_price: Option<Amount>,
        other_coin_price: Option<Amount>,
        rep: (Amount, Option<Amount>),
    ) -> (r: Result<UnstakeOutcome, FundError>)
        requires
            old(self).wf(),
            claimed.subunits >= 0,
            base_price.subunits >= 0,
            coin_price matches Some(p) ==> p.subunits >= 0,
            other_coin_price matches Some(p) ==> p.subunits >= 0,
            non_negative_report(rep),
        ensures
            final(self).wf(),
            match r {
                Ok(out) => {
                    &&& Self::finish_unstake_error(
                        *old(self),
                        claim_nft_id,
                        claimed,
                        base_price,
                        coin_price,
                        other_coin_price,
                        rep,
                    ) is None
                    &&& {
                        let f = *old(self);
                        let buyback = pct_spec(claimed.value(), f.buyback_fund_percentage as int);
                        let xrd = claimed.value() - buyback;
                        let gross = Self::gross_unit_value(f);
                        let units = div_spec(mul_spec(xrd, base_price.value()), gross);
                        let sel = best_deposit_index(f.defi_protocols@, f.total_value.value());
                        let entry = f.defi_protocols@[sel];
                        let nv = deposit_valuation(
                            entry,
                            f.base_coin,
                            base_price,
                            coin_price,
                            other_coin_price,
                            rep,
                        )->Ok_0;
                        &&& out.defi_protocol_name@ == entry.name@
                        &&& out.buyback_amount.subunits == buyback
                        &&& out.xrd_amount.subunits == xrd
                        &&& out.fund_units_to_distribute.subunits == units
                        &&& out.protocol_value.subunits == nv
                        &&& out.total_value == final(self).total_value
                        &&& final(self).defi_protocols@ == f.defi_protocols@.update(
                            sel,
                            (DefiProtocol { value: Amount { subunits: nv as i128 }, ..entry }),
                        )
                        &&& final(self).total_value.subunits == f.total_value.subunits
                            - entry.value.subunits + nv
                        &&& final(self).fund_unit_supply.subunits == f.fund_unit_supply.subunits
                            + units
                        &&& final(self).fund_units_vault_amount.subunits == units
                        &&& final(self).fund_units_to_distribute.subunits == units
                        &&& final(self).claim_nft_ids@ == f.claim_nft_ids@.remove(
                            first_index_u64(f.claim_nft_ids@, claim_nft_id),
                        )
                        &&& final(self).validator_badge_present == f.validator_badge_present
                        &&& final(self).fund_manager_badge_present == f.fund_manager_badge_present
                        &&& Self::same_admin_state(*final(self), f)
                        &&& Self::same_auths(*final(self), f)
                        &&& Self::same_config(*final(self), f)
                    }
                },
                Err(e) => {
                    &&& *final(self) == *old(self)
                    &&& Some(e) == Self::finish_unstake_error(
                        *old(self),
                        claim_nft_id,
                        claimed,
                        base_price,
                        coin_price,
                        other_coin_price,
                        rep,
                    )
                },
            },
    {
        let ghost f0 = *old(self);
        if self.fund_units_vault_amount.subunits != 0 {
            return Err(FundError::DistributionPending);
        }
        let claim_index = match find_u64(&self.claim_nft_ids, claim_nft_id) {
            Some(i) => i,
            None => {
                return Err(FundError::ClaimNotFound);
            },
        };
        proof {
            assert(self.claim_nft_ids@[claim_index as int] == claim_nft_id);
            assert(self.claim_nft_ids@.contains(claim_nft_id));
        }
        let buyback = match claimed.checked_pct(self.buyback_fund_percentage) {
            Some(b) => b,
            None => {
                return Err(FundError::AmountOverflow);
            },
        };
        let xrd = match claimed.checked_sub(buyback) {
            Some(x) => x,
            None => {
                proof {
                    assert(false);
                }
                Amount::zero()
            },
        };
        if self.oracle_component.is_none() {
            return Err(FundError::NoOracle);
        }
        let (_, gross) = match self.fund_unit_value() {
            Ok(v) => v,
            Err(e) => {
                return Err(e);
            },
        };
        let value_in = match xrd.checked_mul(base_price) {
            Some(v) => v,
            None => {
                return Err(FundError::AmountOverflow);
            },
        };
        if gross.subunits == 0 {
            return Err(FundError::ZeroUnitValue);
        }
        let units = match value_in.checked_div(gross) {
            Some(u) => u,
            None => {
                return Err(FundError::AmountOverflow);
            },
        };
        let new_supply = match self.fund_unit_supply.checked_add(units) {
            Some(s) => s,
            None => {
                return Err(FundError::AmountOverflow);
            },
        };
        let sel = match self.find_where_to_deposit_to() {
            Ok(i) => i,
            Err(e) => {
                return Err(e);
            },
        };
        proof {
            lemma_best_deposit_index_bounds(self.defi_protocols@, self.total_value.value());
        }
        let needs_swap = self.defi_protocols[sel].coin != self.base_coin && !(match self
            .defi_protocols[sel].other_coin {
            Some(oc) => oc == self.base_coin,
            None => false,
        });
        if needs_swap && self.dex.is_none() {
            return Err(FundError::NoDex);
        }
        let entry_coin_price = if self.defi_protocols[sel].coin == self.base_coin {
            base_price
        } else {
            match coin_price {
                Some(p) => p,
                None => {
                    return Err(FundError::MissingPrice);
                },
            }
        };
        let v1 = match entry_coin_price.checked_mul(rep.0) {
            Some(v) => v,
            None => {
                return Err(FundError::AmountOverflow);
            },
        };
        let new_value: Amount = match rep.1 {
            None => v1,
            Some(oa) => {
                let oc = match self.defi_protocols[sel].other_coin {
                    Some(oc) => oc,
                    None => {
                        return Err(FundError::AssetMismatch);
                    },
                };
                let op = if oc == self.base_coin {
                    base_price
                } else {
                    match other_coin_price {
                        Some(p) => p,
                        None => {
                            return Err(FundError::MissingPrice);
                        },
                    }
                };
                let v2 = match op.checked_mul(oa) {
                    Some(v) => v,
                    None => {
                        return Err(FundError::AmountOverflow);
                    },
                };
                match v1.checked_add(v2) {
                    Some(v) => v,
                    None => {
                        return Err(FundError::AmountOverflow);
                    },
                }
            },
        };
        let entry = DefiProtocol {
            name: self.defi_protocols[sel].name.clone(),
            value: new_value,
            desired_percentage: self.defi_protocols[sel].desired_percentage,
            wrapper: self.defi_protocols[sel].wrapper,
            coin: self.defi_protocols[sel].coin,
            protocol_token: self.defi_protocols[sel].protocol_token,
            needed_morpher_data: self.defi_protocols[sel].needed_morpher_data,
            other_coin: self.defi_protocols[sel].other_coin,
        };
        proof {
            assert(entry == (DefiProtocol { value: new_value, ..f0.defi_protocols@[sel as int] }));
            lemma_sum_bounds(self.defi_protocols@);
            lemma_sum_update(self.defi_protocols@, sel as int, entry);
        }
        let old_value = self.defi_protocols[sel].value;
        let reduced = self.total_value.subunits - old_value.subunits;
        let new_total = match reduced.checked_add(new_value.subunits) {
            Some(t) => t,
            None => {
                return Err(FundError::AmountOverflow);
            },
        };
        let name_out = entry.name.clone();
        self.defi_protocols[sel] = entry;
        self.total_value = Amount { subunits: new_total };
        self.fund_unit_supply = new_supply;
        self.fund_units_vault_amount = units;
        self.fund_units_to_distribute = units;
        let _ = self.claim_nft_ids.remove(claim_index);
        Ok(
            UnstakeOutcome {
                defi_protocol_name: name_out,
                buyback_amount: buyback,
                xrd_amount: xrd,
                fund_units_to_distribute: units,
                protocol_value: new_value,
                total_value: Amount { subunits: new_total },
            },
        )
    }

    /// The per-recipient unit amounts of the current distribution batch:
    /// each share is a fraction of the recorded batch size.
    pub fn fund_units_distribution_amounts(&self, stakers: &Vec<(u64, Amount)>) -> (r: Result<
        Vec<(u64, Amount)>,
        FundError,
    >)
        requires
            self.wf(),
            forall|i: int| 0 <= i < stakers@.len() ==> (#[trigger] stakers@[i]).1.subunits >= 0,
        ensures
            match r {
                Ok(v) => {
                    &&& v@.len() == stakers@.len()
                    &&& forall|i: int|
                        0 <= i < v@.len() ==> (#[trigger] v@[i]).0 == stakers@[i].0 && v@[
                            i
                        ].1.subunits == mul_spec(
                            stakers@[i].1.value(),
                            self.fund_units_to_distribute.value(),
                        )
                    &&& forall|i: int|
                        0 <= i < stakers@.len() ==> (#[trigger] stakers@[i]).1.value()
                            * self.fund_units_to_distribute.value() <= i128::MAX
                },
                Err(e) => {
                    &&& e == FundError::AmountOverflow
                    &&& exists|i: int|
                        0 <= i < stakers@.len() && (#[trigger] stakers@[i]).1.value()
                            * self.fund_units_to_distribute.value() > i128::MAX
                },
            },
    {
        let mut r: Vec<(u64, Amount)> = Vec::new();
        let mut i: usize = 0;
        #[verifier::loop_isolation(false)]
        while i < stakers.len()
            invariant
                i <= stakers@.len(),
                r@.len() == i,
                forall|k: int|
                    0 <= k < i ==> (#[trigger] r@[k]).0 == stakers@[k].0 && r@[k].1.subunits
                        == mul_spec(
                        stakers@[k].1.value(),
                        self.fund_units_to_distribute.value(),
                    ),
                forall|k: int|
                    0 <= k < i ==> (#[trigger] stakers@[k]).1.value()
                        * self.fund_units_to_distribute.value() <= i128::MAX,
            decreases stakers@.len() - i,
        {
            let amount = match stakers[i].1.checked_mul(self.fund_units_to_distribute) {
                Some(a) => a,
                None => {
                    return Err(FundError::AmountOverflow);
                },
            };
            r.push((stakers[i].0, amount));
            i = i + 1;
        }
        Ok(r)
    }

    /// Why `fund_units_distribution` would fail, if it would.
    pub open spec fn distribution_error(
        f: FundManager,
        stakers: Seq<(u64, Amount)>,
        undelivered: Option<Amount>,
        more_stakers: bool,
    ) -> Option<FundError> {
        if exists|i: int|
            0 <= i < stakers.len() && (#[trigger] stakers[i]).1.value()
                * f.fund_units_to_distribute.value() > i128::MAX {
            Some(FundError::AmountOverflow)
        } else if more_stakers && undelivered is None {
            Some(FundError::MissingRemainder)
        } else {
            None
        }
    }

    /// Settles one distribution chunk.  The runtime airdropped the whole
    /// vault according to the per-recipient amounts and got `undelivered`
    /// units back.  With more chunks to come the remainder returns to the
    /// vault; on the final chunk it is burned.  Bot operation.  Returns
    /// the per-recipient amounts of this chunk.
    pub fn fund_units_distribution(
        &mut self,
        stakers: &Vec<(u64, Amount)>,
        undelivered: Option<Amount>,
        more_stakers: bool,
    ) -> (r: Result<Vec<(u64, Amount)>, FundError>)
        requires
            old(self).wf(),
            forall|i: int| 0 <= i < stakers@.len() ==> (#[trigger] stakers@[i]).1.subunits >= 0,
            undelivered matches Some(u) ==> 0 <= u.subunits <= old(
                self,
            ).fund_units_vault_amount.subunits,
        ensures
            final(self).wf(),
            match r {
                Ok(v) => {
                    &&& Self::distribution_error(*old(self), stakers@, undelivered, more_stakers)
                        is None
                    &&& v@.len() == stakers@.len()
                    &&& forall|i: int|
                        0 <= i < v@.len() ==> (#[trigger] v@[i]).0 == stakers@[i].0 && v@[
                            i
                        ].1.subunits == mul_spec(
                            stakers@[i].1.value(),
                            old(self).fund_units_to_distribute.value(),
                        )
                    &&& if more_stakers {
                        &&& final(self).fund_units_vault_amount == undelivered->Some_0
                        &&& final(self).fund_unit_supply == old(self).fund_unit_supply
                    } else {
                        &&& final(self).fund_units_vault_amount.subunits == 0
                        &&& final(self).fund_unit_supply.subunits == old(
                            self,
                        ).fund_unit_supply.subunits - (match undelivered {
                            Some(u) => u.subunits,
                            None => 0,
                        })
                    }
                    &&& final(self).fund_units_to_distribute == old(self).fund_units_to_distribute
                    &&& Self::same_admin_state(*final(self), *old(self))
                    &&& Self::same_auths(*final(self), *old(self))
                    &&& Self::same_positions(*final(self), *old(self))
                    &&& Self::same_config(*final(self), *old(self))
                    &&& Self::same_custody(*final(self), *old(self))
                    &&& final(self).withdrawal_fee == old(self).withdrawal_fee
                },
                Err(e) => {
                    &&& *final(self) == *old(self)
                    &&& Some(e) == Self::distribution_error(
                        *old(self),
                        stakers@,
                        undelivered,
                        more_stakers,
                    )
                },
            },
    {
        let amounts = match self.fund_units_distribution_amounts(stakers) {
            Ok(a) => a,
            Err(e) => {
                return Err(e);
            },
        };
        if more_stakers {
            let u = match undelivered {
                Some(u) => u,
                None => {
                    return Err(FundError::MissingRemainder);
                },
            };
            self.fund_units_vault_amount = u;
        } else {
            match undelivered {
                Some(u) => {
                    let new_supply = match self.fund_unit_supply.checked_sub(u) {
                        Some(s) => s,
                        None => {
                            proof {
                                assert(false);
                            }
                            Amount::zero()
                        },
                    };
                    self.fund_unit_supply = new_supply;
                },
                None => {},
            }
            self.fund_units_vault_amount = Amount::zero();
        }
        Ok(amounts)
    }
}

} // verus!
