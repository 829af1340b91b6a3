//! Admin fast-path deposits: topping up a position with assets or with
//! protocol receipt tokens, optionally minting fund units covering the
//! added value.

use vstd::prelude::*;
use crate::amount::{Amount, mul_spec, div_spec};
use crate::errors::FundError;
use crate::fund::FundManager;
use crate::protocol::{
    DefiProtocol, sum_of_values, index_of_name, contains_name, find_protocol, lemma_sum_update,
    lemma_sum_bounds,
};
use crate::valuation::non_negative_report;

verus! {

impl FundManager {
    /// The USD value of a coin deposit's buckets: the main bucket at the
    /// main price, plus the second bucket at the second price when the
    /// position manages a second asset.  A second bucket for a
    /// single-asset position contributes nothing.
    pub open spec fn coin_deposit_bucket_value(
        entry: DefiProtocol,
        coin_price: Amount,
        other_coin_price: Option<Amount>,
        coin_bucket: Amount,
        other_bucket: Option<Amount>,
    ) -> Result<int, FundError> {
        if coin_bucket.value() * coin_price.value() > i128::MAX {
            Err(FundError::AmountOverflow)
        } else {
            let v1 = mul_spec(coin_bucket.value(), coin_price.value());
            match entry.other_coin {
                None => Ok(v1),
                Some(_) => match other_coin_price {
                    None => Err(FundError::MissingPrice),
                    Some(op) => match other_bucket {
                        None => Ok(v1),
                        Some(ob) => {
                            if ob.value() * op.value() > i128::MAX {
                                Err(FundError::AmountOverflow)
                            } else if v1 + mul_spec(ob.value(), op.value()) > i128::MAX {
                                Err(FundError::AmountOverflow)
                            } else {
                                Ok(v1 + mul_spec(ob.value(), op.value()))
                            }
                        },
                    },
                },
            }
        }
    }

    /// The position's USD value computed from an adapter report, at the
    /// given prices.  A reported second holding needs the second price; a
    /// missing second holding contributes nothing.
    pub open spec fn reported_valuation(
        entry: DefiProtocol,
        coin_price: Amount,
        other_coin_price: Option<Amount>,
        rep: (Amount, Option<Amount>),
    ) -> Result<int, FundError> {
        if rep.0.value() * coin_price.value() > i128::MAX {
            Err(FundError::AmountOverflow)
        } else {
            let v1 = mul_spec(rep.0.value(), coin_price.value());
            match rep.1 {
                None => Ok(v1),
                Some(oa) => match (match entry.other_coin {
                    Some(_) => other_coin_price,
                    None => None,
                }) {
                    None => Err(FundError::AssetMismatch),
                    Some(op) => {
                        if oa.value() * op.value() > i128::MAX {
                            Err(FundError::AmountOverflow)
                        } else if v1 + mul_spec(oa.value(), op.value()) > i128::MAX {
                            Err(FundError::AmountOverflow)
                        } else {
                            Ok(v1 + mul_spec(oa.value(), op.value()))
                        }
                    },
                },
            }
        }
    }

    /// Why `deposit_coin` would fail, if it would.
    pub open spec fn deposit_coin_error(
        f: FundManager,
        name: Seq<char>,
        coin_bucket: Amount,
        other_bucket: Option<Amount>,
        coin_price: Amount,
        other_coin_price: Option<Amount>,
        rep: (Amount, Option<Amount>),
        mint_fund_units: bool,
    ) -> Option<FundError> {
        if f.oracle_component is None {
            Some(FundError::NoOracle)
        } else if coin_bucket.value() * coin_price.value() > i128::MAX {
            Some(FundError::AmountOverflow)
        } else if Self::unit_value_error(f) is Some {
            Self::unit_value_error(f)
        } else if !contains_name(f.defi_protocols@, name) {
            Some(FundError::ProtocolNotFound)
        } else {
            let entry = f.defi_protocols@[index_of_name(f.defi_protocols@, name)];
            match Self::coin_deposit_bucket_value(
                entry,
                coin_price,
                other_coin_price,
                coin_bucket,
                other_bucket,
            ) {
                Err(e) => Some(e),
                Ok(bv) => match Self::reported_valuation(entry, coin_price, other_coin_price, rep) {
                    Err(e) => Some(e),
                    Ok(nv) => {
                        let s2 = f.defi_protocols@.update(
                            index_of_name(f.defi_protocols@, name),
                            (DefiProtocol { value: Amount { subunits: nv as i128 }, ..entry }),
                        );
                        if sum_of_values(s2) > i128::MAX {
                            Some(FundError::AmountOverflow)
                        } else if !mint_fund_units {
                            None
                        } else if Self::gross_unit_value(f) == 0 {
                            Some(FundError::ZeroUnitValue)
                        } else if bv * (crate::amount::AMOUNT_ONE as int) > i128::MAX {
                            Some(FundError::AmountOverflow)
                        } else if f.fund_unit_supply.value() + div_spec(
                            bv,
                            Self::gross_unit_value(f),
                        ) > i128::MAX {
                            Some(FundError::AmountOverflow)
                        } else {
                            None
                        }
                    },
                },
            }
        }
    }

    /// Deposits assets into the position named `name`.  Single admin
    /// operation.  The runtime handed the buckets to the position's
    /// adapter, which reported `rep` as its new holdings; the position and
    /// fund values are reconciled accordingly.  With `mint_fund_units`,
    /// new units covering the deposited buckets' value at the gross unit
    /// price are minted and returned.
    pub fn deposit_coin(
        &mut self,
        defi_protocol_name: &String,
        coin_bucket: Amount,
        other_bucket: Option<Amount>,
        coin_price: Amount,
        other_coin_price: Option<Amount>,
        rep: (Amount, Option<Amount>),
        mint_fund_units: bool,
    ) -> (r: Result<Option<Amount>, FundError>)
        requires
            old(self).wf(),
            coin_bucket.subunits >= 0,
            other_bucket matches Some(b) ==> b.subunits >= 0,
            coin_price.subunits >= 0,
            other_coin_price matches Some(p) ==> p.subunits >= 0,
            non_negative_report(rep),
        ensures
            final(self).wf(),
            match r {
                Ok(minted) => {
                    &&& Self::deposit_coin_error(
                        *old(self),
                        defi_protocol_name@,
                        coin_bucket,
                        other_bucket,
                        coin_price,
                        other_coin_price,
                        rep,
                        mint_fund_units,
                    ) is None
                    &&& {
                        let f = *old(self);
                        let i = index_of_name(f.defi_protocols@, defi_protocol_name@);
                        let entry = f.defi_protocols@[i];
                        let bv = Self::coin_deposit_bucket_value(
                            entry,
                            coin_price,
                            other_coin_price,
                            coin_bucket,
                            other_bucket,
                        )->Ok_0;
                        let nv = Self::reported_valuation(
                            entry,
                            coin_price,
                            other_coin_price,
                            rep,
                        )->Ok_0;
                        &&& final(self).defi_protocols@ == f.defi_protocols@.update(
                            i,
                            (DefiProtocol { value: Amount { subunits: nv as i128 }, ..entry }),
                        )
                        &&& final(self).total_value.subunits == f.total_value.subunits
                            - entry.value.subunits + nv
                        &&& if mint_fund_units {
                            &&& minted matches Some(m)
                            &&& minted->Some_0.subunits == div_spec(bv, Self::gross_unit_value(f))
                            &&& final(self).fund_unit_supply.subunits
                                == f.fund_unit_supply.subunits + minted->Some_0.subunits
                        } else {
                            &&& minted is None
                            &&& final(self).fund_unit_supply == f.fund_unit_supply
                        }
                        &&& final(self).fund_units_vault_amount == f.fund_units_vault_amount
                        &&& final(self).fund_units_to_distribute == f.fund_units_to_distribute
                        &&& Self::same_admin_state(*final(self), f)
                        &&& Self::same_auths(*final(self), f)
                        &&& Self::same_config(*final(self), f)
                        &&& Self::same_custody(*final(self), f)
                    }
                },
                Err(e) => {
                    &&& *final(self) == *old(self)
                    &&& Some(e) == Self::deposit_coin_error(
                        *old(self),
                        defi_protocol_name@,
                        coin_bucket,
                        other_bucket,
                        coin_price,
                        other_coin_price,
                        rep,
                        mint_fund_units,
                    )
                },
            },
    {
        let ghost f0 = *old(self);
        if self.oracle_component.is_none() {
            return Err(FundError::NoOracle);
        }
        let v1 = match coin_bucket.checked_mul(coin_price) {
            Some(v) => v,
            None => {
                return Err(FundError::AmountOverflow);
            },
        };
        let (_, gross) = match self.fund_unit_value() {
            Ok(v) => v,
            Err(e) => {
                return Err(e);
            },
        };
        let i = match find_protocol(&self.defi_protocols, defi_protocol_name) {
            Some(i) => i,
            None => {
                return Err(FundError::ProtocolNotFound);
            },
        };
        let bucket_value: Amount = match self.defi_protocols[i].other_coin {
            None => v1,
            Some(_) => {
                let op = match other_coin_price {
                    Some(p) => p,
                    None => {
                        return Err(FundError::MissingPrice);
                    },
                };
                match other_bucket {
                    None => v1,
                    Some(ob) => {
                        let v2 = match ob.checked_mul(op) {
                            Some(v) => v,
                            None => {
                                return Err(FundError::AmountOverflow);
                            },
                        };
                        match v1.checked_add(v2) {
                            Some(v) => v,
                            None => {
                                return Err(FundError::AmountOverflow);
                            },
                        }
                    },
                }
            },
        };
        let w1 = match rep.0.checked_mul(coin_price) {
            Some(v) => v,
            None => {
                return Err(FundError::AmountOverflow);
            },
        };
        let new_value: Amount = match rep.1 {
            None => w1,
            Some(oa) => {
                let op = match self.defi_protocols[i].other_coin {
                    Some(_) => match other_coin_price {
                        Some(p) => p,
                        None => {
                            return Err(FundError::AssetMismatch);
                        },
                    },
                    None => {
                        return Err(FundError::AssetMismatch);
                    },
                };
                let w2 = match oa.checked_mul(op) {
                    Some(v) => v,
                    None => {
                        return Err(FundError::AmountOverflow);
                    },
                };
                match w1.checked_add(w2) {
                    Some(v) => v,
                    None => {
                        return Err(FundError::AmountOverflow);
                    },
                }
            },
        };
        let entry = DefiProtocol {
            name: self.defi_protocols[i].name.clone(),
            value: new_value,
            desired_percentage: self.defi_protocols[i].desired_percentage,
            wrapper: self.defi_protocols[i].wrapper,
            coin: self.defi_protocols[i].coin,
            protocol_token: self.defi_protocols[i].protocol_token,
            needed_morpher_data: self.defi_protocols[i].needed_morpher_data,
            other_coin: self.defi_protocols[i].other_coin,
        };
        proof {
            assert(entry == (DefiProtocol { value: new_value, ..f0.defi_protocols@[i as int] }));
            lemma_sum_bounds(self.defi_protocols@);
            lemma_sum_update(self.defi_protocols@, i as int, entry);
        }
        let old_value = self.defi_protocols[i].value;
        let reduced = self.total_value.subunits - old_value.subunits;
        let new_total = match reduced.checked_add(new_value.subunits) {
            Some(t) => t,
            None => {
                return Err(FundError::AmountOverflow);
            },
        };
        let minted: Option<Amount> = if mint_fund_units {
            if gross.subunits == 0 {
                return Err(FundError::ZeroUnitValue);
            }
            let m = match bucket_value.checked_div(gross) {
                Some(m) => m,
                None => {
                    return Err(FundError::AmountOverflow);
                },
            };
            let new_supply = match self.fund_unit_supply.checked_add(m) {
                Some(s) => s,
                None => {
                    return Err(FundError::AmountOverflow);
                },
            };
            self.fund_unit_supply = new_supply;
            Some(m)
        } else {
            None
        };
        self.defi_protocols[i] = entry;
        self.total_value = Amount { subunits: new_total };
        Ok(minted)
    }

    /// Why `deposit_protocol_token` would fail, if it would.
    pub open spec fn deposit_protocol_token_error(
        f: FundManager,
        name: Seq<char>,
        old_rep: (Amount, Option<Amount>),
        rep: (Amount, Option<Amount>),
        coin_price: Amount,
        other_coin_price: Option<Amount>,
        mint_fund_units: bool,
    ) -> Option<FundError> {
        if !contains_name(f.defi_protocols@, name) {
            Some(FundError::ProtocolNotFound)
        } else if f.oracle_component is None {
            Some(FundError::NoOracle)
        } else {
            let entry = f.defi_protocols@[index_of_name(f.defi_protocols@, name)];
            match Self::token_deposit_valuation(entry, coin_price, other_coin_price, old_rep) {
                Err(e) => Some(e),
                Ok(before) => match Self::token_deposit_valuation(
                    entry,
                    coin_price,
                    other_coin_price,
                    rep,
                ) {
                    Err(e) => Some(e),
                    Ok(nv) => {
                        let s2 = f.defi_protocols@.update(
                            index_of_name(f.defi_protocols@, name),
                            (DefiProtocol { value: Amount { subunits: nv as i128 }, ..entry }),
                        );
                        if sum_of_values(s2) > i128::MAX {
                            Some(FundError::AmountOverflow)
                        } else if !mint_fund_units {
                            None
                        } else if Self::unit_value_error(f) is Some {
                            Self::unit_value_error(f)
                        } else if nv < before {
                            Some(FundError::NegativeMintAmount)
                        } else if Self::gross_unit_value(f) == 0 {
                            Some(FundError::ZeroUnitValue)
                        } else if (nv - before) * (crate::amount::AMOUNT_ONE as int) > i128::MAX {
                            Some(FundError::AmountOverflow)
                        } else if f.fund_unit_supply.value() + div_spec(
                            nv - before,
                            Self::gross_unit_value(f),
                        ) > i128::MAX {
                            Some(FundError::AmountOverflow)
                        } else {
                            None
                        }
                    },
                },
            }
        }
    }

    /// The USD value of a position's holdings for the token-deposit flow:
    /// a two-asset position needs its second price and both holdings.
    pub open spec fn token_deposit_valuation(
        entry: DefiProtocol,
        coin_price: Amount,
        other_coin_price: Option<Amount>,
        rep: (Amount, Option<Amount>),
    ) -> Result<int, FundError> {
        if rep.0.value() * coin_price.value() > i128::MAX {
            Err(FundError::AmountOverflow)
        } else {
            let v1 = mul_spec(rep.0.value(), coin_price.value());
            match entry.other_coin {
                None => Ok(v1),
                Some(_) => match other_coin_price {
                    None => Err(FundError::MissingPrice),
                    Some(op) => match rep.1 {
                        None => Err(FundError::MissingAmount),
                        Some(oa) => {
                            if oa.value() * op.value() > i128::MAX {
                                Err(FundError::AmountOverflow)
                            } else if v1 + mul_spec(oa.value(), op.value()) > i128::MAX {
                                Err(FundError::AmountOverflow)
                            } else {
                                Ok(v1 + mul_spec(oa.value(), op.value()))
                            }
                        },
                    },
                },
            }
        }
    }

    /// Deposits protocol receipt tokens into the position named `name`.
    /// Single admin operation.  `old_rep` is what the adapter held before
    /// the deposit and `rep` what it reports after; the position and fund
    /// values move to the after-valuation.  With `mint_fund_units`, units
    /// covering the value increase at the gross unit price are minted and
    /// returned; a decrease cannot be minted.
    pub fn deposit_protocol_token(
        &mut self,
        defi_protocol_name: &String,
        old_rep: (Amount, Option<Amount>),
        rep: (Amount, Option<Amount>),
        coin_price: Amount,
        other_coin_price: Option<Amount>,
        mint_fund_units: bool,
    ) -> (r: Result<Option<Amount>, FundError>)
        requires
            old(self).wf(),
            coin_price.subunits >= 0,
            other_coin_price matches Some(p) ==> p.subunits >= 0,
            non_negative_report(old_rep),
            non_negative_report(rep),
        ensures
            final(self).wf(),
            match r {
                Ok(minted) => {
                    &&& Self::deposit_protocol_token_error(
                        *old(self),
                        defi_protocol_name@,
                        old_rep,
                        rep,
                        coin_price,
                        other_coin_price,
                        mint_fund_units,
                    ) is None
                    &&& {
                        let f = *old(self);
                        let i = index_of_name(f.defi_protocols@, defi_protocol_name@);
                        let entry = f.defi_protocols@[i];
                        let before = Self::token_deposit_valuation(
                            entry,
                            coin_price,
                            other_coin_price,
                            old_rep,
                        )->Ok_0;
                        let nv = Self::token_deposit_valuation(
                            entry,
                            coin_price,
                            other_coin_price,
                            rep,
                        )->Ok_0;
                        &&& final(self).defi_protocols@ == f.defi_protocols@.update(
                            i,
                            (DefiProtocol { value: Amount { subunits: nv as i128 }, ..entry }),
                        )
                        &&& final(self).total_value.subunits == f.total_value.subunits
                            - entry.value.subunits + nv
                        &&& if mint_fund_units {
                            &&& minted matches Some(m)
                            &&& minted->Some_0.subunits == div_spec(
                                nv - before,
                                Self::gross_unit_value(f),
                            )
                            &&& final(self).fund_unit_supply.subunits
                                == f.fund_unit_supply.subunits + minted->Some_0.subunits
                        } else {
                            &&& minted is None
                            &&& final(self).fund_unit_supply == f.fund_unit_supply
                        }
                        &&& final(self).fund_units_vault_amount == f.fund_units_vault_amount
                        &&& final(self).fund_units_to_distribute == f.fund_units_to_distribute
                        &&& Self::same_admin_state(*final(self), f)
                        &&& Self::same_auths(*final(self), f)
                        &&& Self::same_config(*final(self), f)
                        &&& Self::same_custody(*final(self), f)
                    }
                },
                Err(e) => {
                    &&& *final(self) == *old(self)
                    &&& Some(e) == Self::deposit_protocol_token_error(
                        *old(self),
                        defi_protocol_name@,
                        old_rep,
                        rep,
                        coin_price,
                        other_coin_price,
                        mint_fund_units,
                    )
                },
            },
    {
        let ghost f0 = *old(self);
        let i = match find_protocol(&self.defi_protocols, defi_protocol_name) {
            Some(i) => i,
            None => {
                return Err(FundError::ProtocolNotFound);
            },
        };
        if self.oracle_component.is_none() {
            return Err(FundError::NoOracle);
        }
        let before = match self.value_holdings(i, coin_price, other_coin_price, old_rep) {
            Ok(v) => v,
            Err(e) => {
                return Err(e);
            },
        };
        let new_value = match self.value_holdings(i, coin_price, other_coin_price, rep) {
            Ok(v) => v,
            Err(e) => {
                return Err(e);
            },
        };
        let entry = DefiProtocol {
            name: self.defi_protocols[i].name.clone(),
            value: new_value,
            desired_percentage: self.defi_protocols[i].desired_percentage,
            wrapper: self.defi_protocols[i].wrapper,
            coin: self.defi_protocols[i].coin,
            protocol_token: self.defi_protocols[i].protocol_token,
            needed_morpher_data: self.defi_protocols[i].needed_morpher_data,
            other_coin: self.defi_protocols[i].other_coin,
        };
        proof {
            assert(entry == (DefiProtocol { value: new_value, ..f0.defi_protocols@[i as int] }));
            lemma_sum_bounds(self.defi_protocols@);
            lemma_sum_update(self.defi_protocols@, i as int, entry);
        }
        let old_value = self.defi_protocols[i].value;
        let reduced = self.total_value.subunits - old_value.subunits;
        let new_total = match reduced.checked_add(new_value.subunits) {
            Some(t) => t,
            None => {
                return Err(FundError::AmountOverflow);
            },
        };
        let minted: Option<Amount> = if mint_fund_units {
            let (_, gross) = match self.fund_unit_value() {
                Ok(v) => v,
                Err(e) => {
                    return Err(e);
                },
            };
            let gain = match new_value.checked_sub(before) {
                Some(g) => g,
                None => {
                    proof {
                        assert(false);
                    }
                    Amount::zero()
                },
            };
            if gain.subunits < 0 {
                return Err(FundError::NegativeMintAmount);
            }
            if gross.subunits == 0 {
                return Err(FundError::ZeroUnitValue);
            }
            let m = match gain.checked_div(gross) {
                Some(m) => m,
                None => {
                    return Err(FundError::AmountOverflow);
                },
            };
            let new_supply = match self.fund_unit_supply.checked_add(m) {
                Some(s) => s,
                None => {
                    return Err(FundError::AmountOverflow);
                },
            };
            self.fund_unit_supply = new_supply;
            Some(m)
        } else {
            None
        };
        self.defi_protocols[i] = entry;
        self.total_value = Amount { subunits: new_total };
        Ok(minted)
    }

    /// Values the holdings report of the position at index `i` for the
    /// token-deposit flow.
    fn value_holdings(
        &self,
        i: usize,
        coin_price: Amount,
        other_coin_price: Option<Amount>,
        rep: (Amount, Option<Amount>),
    ) -> (r: Result<Amount, FundError>)
        requires
            self.wf(),
            i < self.defi_protocols@.len(),
            coin_price.subunits >= 0,
            other_coin_price matches Some(p) ==> p.subunits >= 0,
            non_negative_report(rep),
        ensures
            match r {
                Ok(v) => {
                    &&& Self::token_deposit_valuation(
                        self.defi_protocols@[i as int],
                        coin_price,
                        other_coin_price,
                        rep,
                    ) == Ok::<int, FundError>(v.subunits as int)
                    &&& v.subunits >= 0
                },
                Err(e) => Self::token_deposit_valuation(
                    self.defi_protocols@[i as int],
                    coin_price,
                    other_coin_price,
                    rep,
                ) == Err::<int, FundError>(e),
            },
    {
        let v1 = match rep.0.checked_mul(coin_price) {
            Some(v) => v,
            None => {
                return Err(FundError::AmountOverflow);
            },
        };
        match self.defi_protocols[i].other_coin {
            None => Ok(v1),
            Some(_) => {
                let op = match other_coin_price {
                    Some(p) => p,
                    None => {
                        return Err(FundError::MissingPrice);
                    },
                };
                let oa = match rep.1 {
                    Some(a) => a,
                    None => {
                        return Err(FundError::MissingAmount);
                    },
                };
                let v2 = match oa.checked_mul(op) {
                    Some(v) => v,
                    None => {
                        return Err(FundError::AmountOverflow);
                    },
                };
                match v1.checked_add(v2) {
                    Some(v) => Ok(v),
                    None => Err(FundError::AmountOverflow),
                }
            },
        }
    }
}

} // verus!
