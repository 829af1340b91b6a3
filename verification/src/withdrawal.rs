//! The withdrawal engine: swapping fund units back into invested assets.
//!
//! A withdrawal prices the presented units at the net unit value, selects
//! a single source position, asks its adapter for the value, reconciles
//! the position and fund values from the adapter's report, and burns the
//! units actually covered — clamped to the full presented amount when the
//! difference lies within a ten-percent tolerance band, so no unredeemable
//! dust is left behind.

use vstd::prelude::*;
use crate::amount::{Amount, AMOUNT_ONE, mul_spec, div_spec};
use crate::errors::FundError;
use crate::fund::FundManager;
use crate::protocol::{DefiProtocol, sum_of_values, lemma_sum_update, lemma_sum_bounds};
use crate::valuation::{
    non_negative_report, has_candidate, best_withdraw_index, largest_value_index, is_candidate,
    lemma_largest_value_index_bounds,
};

verus! {

/// What the runtime must ask the selected position's adapter for.
#[derive(Debug)]
pub struct WithdrawRequest {
    /// Index of the selected position in the registry.
    pub protocol_index: usize,
    /// Name of the selected position.
    pub protocol_name: String,
    /// Amount of the position's main asset to withdraw.
    pub amount: Amount,
    /// Price of the second asset relative to the main asset, for two-asset
    /// positions.
    pub other_coin_to_coin_price_ratio: Option<Amount>,
}

/// What the completed withdrawal did, mirroring the withdrawal event.
#[derive(Debug)]
pub struct WithdrawOutcome {
    /// Name of the position withdrawn from.
    pub defi_protocol_name: String,
    /// Fund units burned.
    pub fund_units_burned: Amount,
    /// Fund units handed back to the caller unredeemed.
    pub fund_units_returned: Amount,
    /// The position's new cached value.
    pub protocol_value: Amount,
    /// The fund's new total value.
    pub total_value: Amount,
}

/// How the buckets a withdrawal returned are converted into a requested
/// target asset.
#[derive(Clone, Copy, PartialEq, Eq, Structural, Debug)]
pub struct ConversionPlan {
    /// Swap the main-asset bucket into the target asset through the dex.
    pub swap_main_bucket: bool,
    /// Swap the second bucket into the target asset through the dex and
    /// merge the proceeds into the main bucket, so no second bucket is
    /// handed out.
    pub swap_other_bucket: bool,
}

/// The USD value of the asset buckets the adapter returned.
pub open spec fn bucket_valuation(
    entry: DefiProtocol,
    coin_price: Amount,
    other_coin_price: Option<Amount>,
    coin_bucket: Amount,
    other_bucket: Option<Amount>,
) -> Result<int, FundError> {
    if coin_bucket.value() * coin_price.value() > i128::MAX {
        Err(FundError::AmountOverflow)
    } else {
        let v1 = mul_spec(coin_bucket.value(), coin_price.value());
        match other_bucket {
            None => Ok(v1),
            Some(ob) => match entry.other_coin {
                None => Err(FundError::AssetMismatch),
                Some(_) => match other_coin_price {
                    None => Err(FundError::MissingPrice),
                    Some(op) => {
                        if ob.value() * op.value() > i128::MAX {
                            Err(FundError::AmountOverflow)
                        } else if v1 + mul_spec(ob.value(), op.value()) > i128::MAX {
                            Err(FundError::AmountOverflow)
                        } else {
                            Ok(v1 + mul_spec(ob.value(), op.value()))
                        }
                    },
                },
            },
        }
    }
}

/// The selected position's USD value after the withdrawal, from the
/// adapter-reported remaining holdings.  A two-asset position must report
/// both holdings.
pub open spec fn remaining_valuation(
    entry: DefiProtocol,
    coin_price: Amount,
    other_coin_price: Option<Amount>,
    rep: (Amount, Option<Amount>),
) -> Result<int, FundError> {
    if rep.0.value() * coin_price.value() > i128::MAX {
        Err(FundError::AmountOverflow)
    } else {
        let v1 = mul_spec(rep.0.value(), coin_price.value());
        match entry.other_coin {
            None => Ok(v1),
            Some(_) => match other_coin_price {
                None => Err(FundError::MissingPrice),
                Some(op) => match rep.1 {
                    None => Err(FundError::MissingAmount),
                    Some(oa) => {
                        if op.value() * oa.value() > i128::MAX {
                            Err(FundError::AmountOverflow)
                        } else if v1 + mul_spec(op.value(), oa.value()) > i128::MAX {
                            Err(FundError::AmountOverflow)
                        } else {
                            Ok(v1 + mul_spec(op.value(), oa.value()))
                        }
                    },
                },
            },
        }
    }
}

/// The tolerance clamp on the computed burn amount: a computed amount
/// above the presented units but within ten percent burns exactly the
/// presented units, as does one within ten percent below them; an excess
/// of ten percent or more aborts.
pub open spec fn clamp_burn(computed: int, presented: int) -> Option<int> {
    if computed > presented {
        if computed >= mul_spec(presented, 1_100_000) {
            None
        } else {
            Some(presented)
        }
    } else if computed > mul_spec(presented, 900_000) {
        Some(presented)
    } else {
        Some(computed)
    }
}

impl FundManager {
    /// The USD value the presented units redeem at the net unit price.
    pub open spec fn withdraw_target(f: FundManager, units: Amount) -> int {
        mul_spec(units.value(), Self::net_unit_value(f))
    }

    /// The index of the position a withdrawal of `target` USD draws from.
    pub open spec fn withdraw_sel_index(f: FundManager, target: int) -> int {
        if has_candidate(f.defi_protocols@, target) {
            best_withdraw_index(f.defi_protocols@, f.total_value.value(), target)
        } else {
            largest_value_index(f.defi_protocols@)
        }
    }

    /// The USD value that withdrawal can actually draw.
    pub open spec fn withdraw_sel_value(f: FundManager, target: int) -> int {
        if has_candidate(f.defi_protocols@, target) {
            target
        } else {
            f.defi_protocols@[largest_value_index(f.defi_protocols@)].value.value()
        }
    }

    /// Why `withdraw_request` would fail, if it would.
    pub open spec fn withdraw_request_error(
        f: FundManager,
        units: Amount,
        coin_price: Amount,
        other_coin_price: Option<Amount>,
    ) -> Option<FundError> {
        if Self::unit_value_error(f) is Some {
            Self::unit_value_error(f)
        } else if units.value() * Self::net_unit_value(f) > i128::MAX {
            Some(FundError::AmountOverflow)
        } else {
            let target = Self::withdraw_target(f, units);
            if Self::withdraw_selection_error(f, target) is Some {
                Self::withdraw_selection_error(f, target)
            } else if f.oracle_component is None {
                Some(FundError::NoOracle)
            } else {
                let entry = f.defi_protocols@[Self::withdraw_sel_index(f, target)];
                if entry.other_coin is Some && other_coin_price is None {
                    Some(FundError::MissingPrice)
                } else if entry.other_coin is Some && other_coin_price->Some_0.value() * (
                AMOUNT_ONE as int) > i128::MAX {
                    Some(FundError::AmountOverflow)
                } else if Self::withdraw_sel_value(f, target) * (AMOUNT_ONE as int) > i128::MAX {
                    Some(FundError::AmountOverflow)
                } else {
                    None
                }
            }
        }
    }

    /// Computes the adapter request for a withdrawal: prices the presented
    /// units, selects the source position, and converts the withdrawable
    /// USD value into an amount of the position's main asset at
    /// `coin_price`, with the relative price of the second asset for
    /// two-asset positions.  Read-only; `withdraw` settles the result.
    pub fn withdraw_request(
        &self,
        fund_unit_amount: Amount,
        coin_price: Amount,
        other_coin_price: Option<Amount>,
    ) -> (r: Result<WithdrawRequest, FundError>)
        requires
            self.wf(),
            fund_unit_amount.subunits >= 0,
            coin_price.subunits > 0,
            other_coin_price matches Some(p) ==> p.subunits >= 0,
        ensures
            match r {
                Ok(req) => {
                    &&& Self::withdraw_request_error(
                        *self,
                        fund_unit_amount,
                        coin_price,
                        other_coin_price,
                    ) is None
                    &&& {
                        let target = Self::withdraw_target(*self, fund_unit_amount);
                        let sel = Self::withdraw_sel_index(*self, target);
                        &&& req.protocol_index as int == sel
                        &&& req.protocol_name@ == self.defi_protocols@[sel].name@
                        &&& req.amount.subunits == div_spec(
                            Self::withdraw_sel_value(*self, target),
                            coin_price.value(),
                        )
                        &&& req.other_coin_to_coin_price_ratio == (match self.defi_protocols@[
                            sel
                        ].other_coin {
                            Some(_) => Some(
                                (Amount {
                                    subunits: div_spec(
                                        other_coin_price->Some_0.value(),
                                        coin_price.value(),
                                    ) as i128,
                                }),
                            ),
                            None => None::<Amount>,
                        })
                    }
                },
                Err(e) => Some(e) == Self::withdraw_request_error(
                    *self,
                    fund_unit_amount,
                    coin_price,
                    other_coin_price,
                ),
            },
    {
        let (net, _) = match self.fund_unit_value() {
            Ok(v) => v,
            Err(e) => {
                return Err(e);
            },
        };
        let target = match fund_unit_amount.checked_mul(net) {
            Some(t) => t,
            None => {
                return Err(FundError::AmountOverflow);
            },
        };
        let (sel, withdrawable) = match self.find_where_to_withdraw_from(target) {
            Ok(s) => s,
            Err(e) => {
                return Err(e);
            },
        };
        if self.oracle_component.is_none() {
            return Err(FundError::NoOracle);
        }
        let ratio: Option<Amount> = match self.defi_protocols[sel].other_coin {
            Some(_) => {
                let op = match other_coin_price {
                    Some(p) => p,
                    None => {
                        return Err(FundError::MissingPrice);
                    },
                };
                match op.checked_div(coin_price) {
                    Some(q) => Some(q),
                    None => {
                        return Err(FundError::AmountOverflow);
                    },
                }
            },
            None => None,
        };
        proof {
            if !has_candidate(
                self.defi_protocols@,
                Self::withdraw_target(*self, fund_unit_amount),
            ) {
                lemma_largest_value_index_bounds(self.defi_protocols@);
            }
        }
        let amount = match withdrawable.checked_div(coin_price) {
            Some(a) => a,
            None => {
                return Err(FundError::AmountOverflow);
            },
        };
        Ok(
            WithdrawRequest {
                protocol_index: sel,
                protocol_name: self.defi_protocols[sel].name.clone(),
                amount,
                other_coin_to_coin_price_ratio: ratio,
            },
        )
    }

    /// Why `conversion_plan` would fail, if it would.
    pub open spec fn conversion_plan_error(
        f: FundManager,
        coin: u64,
        other_coin: Option<u64>,
        has_other_bucket: bool,
        swap_to: Option<u64>,
    ) -> Option<FundError> {
        match swap_to {
            None => None,
            Some(target) => {
                if target != coin && f.dex is None {
                    Some(FundError::NoDex)
                } else if has_other_bucket && other_coin is None {
                    Some(FundError::AssetMismatch)
                } else if has_other_bucket && target != other_coin->Some_0 && f.dex is None {
                    Some(FundError::NoDex)
                } else {
                    None
                }
            },
        }
    }

    /// The conversion step of a withdrawal that asked for a specific
    /// target asset: given the source position's asset handles, whether a
    /// second bucket came back, and the requested target, decides which
    /// returned buckets the runtime must swap through the dex.  The main
    /// bucket is swapped when it does not already hold the target; a
    /// returned second bucket of another asset is swapped too and its
    /// proceeds merge into the main bucket.  Both swaps need a configured
    /// dex.  Without a requested target nothing is converted.
    pub fn conversion_plan(
        &self,
        coin: u64,
        other_coin: Option<u64>,
        has_other_bucket: bool,
        swap_to: Option<u64>,
    ) -> (r: Result<ConversionPlan, FundError>)
        ensures
            match r {
                Ok(plan) => {
                    &&& Self::conversion_plan_error(
                        *self,
                        coin,
                        other_coin,
                        has_other_bucket,
                        swap_to,
                    ) is None
                    &&& plan.swap_main_bucket == (swap_to matches Some(target) && target != coin)
                    &&& plan.swap_other_bucket == (swap_to matches Some(target)
                        && has_other_bucket && target != other_coin->Some_0)
                },
                Err(e) => Some(e) == Self::conversion_plan_error(
                    *self,
                    coin,
                    other_coin,
                    has_other_bucket,
                    swap_to,
                ),
            },
    {
        let target = match swap_to {
            None => {
                return Ok(ConversionPlan { swap_main_bucket: false, swap_other_bucket: false });
            },
            Some(t) => t,
        };
        let swap_main_bucket = target != coin;
        if swap_main_bucket && self.dex.is_none() {
            return Err(FundError::NoDex);
        }
        let swap_other_bucket = if has_other_bucket {
            let oc = match other_coin {
                Some(oc) => oc,
                None => {
                    return Err(FundError::AssetMismatch);
                },
            };
            if target != oc && self.dex.is_none() {
                return Err(FundError::NoDex);
            }
            target != oc
        } else {
            false
        };
        Ok(ConversionPlan { swap_main_bucket, swap_other_bucket })
    }

    /// Why `withdraw` would fail, if it would.
    pub open spec fn withdraw_error(
        f: FundManager,
        units: Amount,
        coin_price: Amount,
        other_coin_price: Option<Amount>,
        coin_bucket: Amount,
        other_bucket: Option<Amount>,
        rep: (Amount, Option<Amount>),
    ) -> Option<FundError> {
        let req = Self::withdraw_request_error(f, units, coin_price, other_coin_price);
        if req is Some {
            req
        } else {
            let target = Self::withdraw_target(f, units);
            let entry = f.defi_protocols@[Self::withdraw_sel_index(f, target)];
            match bucket_valuation(entry, coin_price, other_coin_price, coin_bucket, other_bucket) {
                Err(e) => Some(e),
                Ok(bv) => match remaining_valuation(entry, coin_price, other_coin_price, rep) {
                    Err(e) => Some(e),
                    Ok(nv) => {
                        let s2 = f.defi_protocols@.update(
                            Self::withdraw_sel_index(f, target),
                            (DefiProtocol { value: Amount { subunits: nv as i128 }, ..entry }),
                        );
                        if sum_of_values(s2) > i128::MAX {
                            Some(FundError::AmountOverflow)
                        } else if Self::gross_unit_value(f) == 0 {
                            Some(FundError::ZeroUnitValue)
                        } else if bv * (AMOUNT_ONE as int) > i128::MAX {
                            Some(FundError::AmountOverflow)
                        } else if units.value() * 1_100_000 > i128::MAX {
                            Some(FundError::AmountOverflow)
                        } else {
                            match clamp_burn(
                                div_spec(bv, Self::gross_unit_value(f)),
                                units.value(),
                            ) {
                                None => Some(FundError::TooMuchValueWithdrawn),
                                Some(_) => None,
                            }
                        }
                    },
                },
            }
        }
    }

    /// Settles a withdrawal.  The runtime performed the adapter request
    /// computed by `withdraw_request` for the same arguments and got back
    /// asset buckets of `coin_bucket` and `other_bucket`, with the adapter
    /// reporting `rep` as its remaining holdings.  The position and fund
    /// values are reconciled, and the units covered by the returned value
    /// are burned, clamped per the ten-percent tolerance band; any
    /// remainder of the presented units is handed back.
    pub fn withdraw(
        &mut self,
        fund_unit_amount: Amount,
        coin_price: Amount,
        other_coin_price: Option<Amount>,
        coin_bucket: Amount,
        other_bucket: Option<Amount>,
        rep: (Amount, Option<Amount>),
    ) -> (r: Result<WithdrawOutcome, FundError>)
        requires
            old(self).wf(),
            fund_unit_amount.subunits >= 0,
            fund_unit_amount.subunits <= old(self).fund_unit_supply.subunits - old(
                self,
            ).fund_units_vault_amount.subunits,
            coin_price.subunits > 0,
            other_coin_price matches Some(p) ==> p.subunits >= 0,
            coin_bucket.subunits >= 0,
            other_bucket matches Some(b) ==> b.subunits >= 0,
            non_negative_report(rep),
        ensures
            final(self).wf(),
            match r {
                Ok(out) => {
                    &&& Self::withdraw_error(
                        *old(self),
                        fund_unit_amount,
                        coin_price,
                        other_coin_price,
                        coin_bucket,
                        other_bucket,
                        rep,
                    ) is None
                    &&& {
                        let f = *old(self);
                        let target = Self::withdraw_target(f, fund_unit_amount);
                        let sel = Self::withdraw_sel_index(f, target);
                        let entry = f.defi_protocols@[sel];
                        let bv = bucket_valuation(
                            entry,
                            coin_price,
                            other_coin_price,
                            coin_bucket,
                            other_bucket,
                        )->Ok_0;
                        let nv = remaining_valuation(entry, coin_price, other_coin_price, rep)->Ok_0;
                        let burned = clamp_burn(
                            div_spec(bv, Self::gross_unit_value(f)),
                            fund_unit_amount.value(),
                        )->Some_0;
                        &&& out.defi_protocol_name@ == entry.name@
                        &&& out.fund_units_burned.subunits == burned
                        &&& out.fund_units_returned.subunits == fund_unit_amount.value() - burned
                        &&& out.protocol_value.subunits == nv
                        &&& out.total_value == final(self).total_value
                        &&& final(self).defi_protocols@ == f.defi_protocols@.update(
                            sel,
                            (DefiProtocol { value: Amount { subunits: nv as i128 }, ..entry }),
                        )
                        &&& final(self).total_value.subunits == f.total_value.subunits
                            - entry.value.subunits + nv
                        &&& final(self).fund_unit_supply.subunits == f.fund_unit_supply.subunits
                            - burned
                        &&& final(self).fund_units_vault_amount == f.fund_units_vault_amount
                        &&& final(self).fund_units_to_distribute == f.fund_units_to_distribute
                        &&& Self::same_admin_state(*final(self), f)
                        &&& Self::same_auths(*final(self), f)
                        &&& Self::same_config(*final(self), f)
                        &&& Self::same_custody(*final(self), f)
                    }
                },
                Err(e) => {
                    &&& *final(self) == *old(self)
                    &&& Some(e) == Self::withdraw_error(
                        *old(self),
                        fund_unit_amount,
                        coin_price,
                        other_coin_price,
                        coin_bucket,
                        other_bucket,
                        rep,
                    )
                },
            },
    {
        let ghost f0 = *old(self);
        let (net, gross) = match self.fund_unit_value() {
            Ok(v) => v,
            Err(e) => {
                return Err(e);
            },
        };
        let target = match fund_unit_amount.checked_mul(net) {
            Some(t) => t,
            None => {
                return Err(FundError::AmountOverflow);
            },
        };
        let (sel, withdrawable) = match self.find_where_to_withdraw_from(target) {
            Ok(s) => s,
            Err(e) => {
                return Err(e);
            },
        };
        if self.oracle_component.is_none() {
            return Err(FundError::NoOracle);
        }
        proof {
            if !has_candidate(f0.defi_protocols@, Self::withdraw_target(f0, fund_unit_amount)) {
                lemma_largest_value_index_bounds(f0.defi_protocols@);
            }
        }
        let checked_other_price: Option<Amount> = match self.defi_protocols[sel].other_coin {
            Some(_) => {
                let op = match other_coin_price {
                    Some(p) => p,
                    None => {
                        return Err(FundError::MissingPrice);
                    },
                };
                match op.checked_div(coin_price) {
                    Some(_) => {},
                    None => {
                        return Err(FundError::AmountOverflow);
                    },
                }
                Some(op)
            },
            None => None,
        };
        match withdrawable.checked_div(coin_price) {
            Some(_) => {},
            None => {
                return Err(FundError::AmountOverflow);
            },
        }
        let v1 = match coin_bucket.checked_mul(coin_price) {
            Some(v) => v,
            None => {
                return Err(FundError::AmountOverflow);
            },
        };
        let bucket_value: Amount = match other_bucket {
            None => v1,
            Some(ob) => {
                if self.defi_protocols[sel].other_coin.is_none() {
                    return Err(FundError::AssetMismatch);
                }
                let op = match other_coin_price {
                    Some(p) => p,
                    None => {
                        return Err(FundError::MissingPrice);
                    },
                };
                let v2 = match ob.checked_mul(op) {
                    Some(v) => v,
                    None => {
                        return Err(FundError::AmountOverflow);
                    },
                };
                match v1.checked_add(v2) {
                    Some(v) => v,
                    None => {
                        return Err(FundError::AmountOverflow);
                    },
                }
            },
        };
        let w1 = match rep.0.checked_mul(coin_price) {
            Some(v) => v,
            None => {
                return Err(FundError::AmountOverflow);
            },
        };
        let new_value: Amount = match self.defi_protocols[sel].other_coin {
            None => w1,
            Some(_) => {
                let op = match other_coin_price {
                    Some(p) => p,
                    None => {
                        return Err(FundError::MissingPrice);
                    },
                };
                let oa = match rep.1 {
                    Some(a) => a,
                    None => {
                        return Err(FundError::MissingAmount);
                    },
                };
                let w2 = match op.checked_mul(oa) {
                    Some(v) => v,
                    None => {
                        return Err(FundError::AmountOverflow);
                    },
                };
                match w1.checked_add(w2) {
                    Some(v) => v,
                    None => {
                        return Err(FundError::AmountOverflow);
                    },
                }
            },
        };
        let entry = DefiProtocol {
            name: self.defi_protocols[sel].name.clone(),
            value: new_value,
            desired_percentage: self.defi_protocols[sel].desired_percentage,
            wrapper: self.defi_protocols[sel].wrapper,
            coin: self.defi_protocols[sel].coin,
            protocol_token: self.defi_protocols[sel].protocol_token,
            needed_morpher_data: self.defi_protocols[sel].needed_morpher_data,
            other_coin: self.defi_protocols[sel].other_coin,
        };
        proof {
            assert(entry == (DefiProtocol { value: new_value, ..f0.defi_protocols@[sel as int] }));
            lemma_sum_bounds(self.defi_protocols@);
            lemma_sum_update(self.defi_protocols@, sel as int, entry);
        }
        let old_value = self.defi_protocols[sel].value;
        let reduced = self.total_value.subunits - old_value.subunits;
        let new_total = match reduced.checked_add(new_value.subunits) {
            Some(t) => t,
            None => {
                return Err(FundError::AmountOverflow);
            },
        };
        if gross.subunits == 0 {
            return Err(FundError::ZeroUnitValue);
        }
        let computed = match bucket_value.checked_div(gross) {
            Some(c) => c,
            None => {
                return Err(FundError::AmountOverflow);
            },
        };
        let upper = match fund_unit_amount.checked_frac(1_100_000) {
            Some(u) => u,
            None => {
                return Err(FundError::AmountOverflow);
            },
        };
        let burned: Amount;
        if computed.subunits > fund_unit_amount.subunits {
            if computed.subunits >= upper.subunits {
                return Err(FundError::TooMuchValueWithdrawn);
            }
            burned = fund_unit_amount;
        } else {
            let lower = match fund_unit_amount.checked_frac(900_000) {
                Some(l) => l,
                None => {
                    proof {
                        assert(fund_unit_amount.value() * 900_000 <= fund_unit_amount.value()
                            * 1_100_000) by (nonlinear_arith)
                            requires
                                fund_unit_amount.value() >= 0,
                        ;
                        assert(false);
                    }
                    Amount::zero()
                },
            };
            if computed.subunits > lower.subunits {
                burned = fund_unit_amount;
            } else {
                burned = computed;
            }
        }
        let new_supply = match self.fund_unit_supply.checked_sub(burned) {
            Some(s) => s,
            None => {
                proof {
                    assert(false);
                }
                Amount::zero()
            },
        };
        let returned = match fund_unit_amount.checked_sub(burned) {
            Some(x) => x,
            None => {
                proof {
                    assert(false);
                }
                Amount::zero()
            },
        };
        let name_out = entry.name.clone();
        self.defi_protocols[sel] = entry;
        self.total_value = Amount { subunits: new_total };
        self.fund_unit_supply = new_supply;
        Ok(
            WithdrawOutcome {
                defi_protocol_name: name_out,
                fund_units_burned: burned,
                fund_units_returned: returned,
                protocol_value: new_value,
                total_value: Amount { subunits: new_total },
            },
        )
    }
}

} // verus!
