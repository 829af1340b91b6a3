//! Valuation: the USD value of one fund unit, the allocation-based
//! selection of positions for deposits and withdrawals, and the batched
//! revaluation of positions from adapter-reported holdings and oracle
//! prices.
//!
//! Holdings and prices are observations made by the surrounding runtime
//! (adapters report what they hold, the oracle prices each asset once per
//! call); the engine takes them as arguments and is verified for every
//! value they may take.

use vstd::prelude::*;
use crate::amount::{Amount, AMOUNT_ONE, mul_spec, div_spec, pct_spec};
use crate::errors::FundError;
use crate::fund::FundManager;
use crate::protocol::{
    DefiProtocol, sum_of_values, names_distinct, index_of_name, find_protocol, lemma_sum_update,
    lemma_sum_bounds,
};

verus! {

/// A reported holding is non-negative in both components.
pub open spec fn non_negative_report(r: (Amount, Option<Amount>)) -> bool {
    &&& r.0.subunits >= 0
    &&& match r.1 {
        Some(a) => a.subunits >= 0,
        None => true,
    }
}

/// Every price in the table is non-negative.
pub open spec fn non_negative_prices(p: Seq<(u64, Amount)>) -> bool {
    forall|i: int| 0 <= i < p.len() ==> (#[trigger] p[i]).1.subunits >= 0
}

/// The first price recorded for `coin`, if any.
pub open spec fn spec_price(prices: Seq<(u64, Amount)>, coin: u64) -> Option<Amount>
    decreases prices.len(),
{
    if prices.len() == 0 {
        None
    } else if prices.first().0 == coin {
        Some(prices.first().1)
    } else {
        spec_price(prices.drop_first(), coin)
    }
}

/// Looks up the first price recorded for `coin`.
pub fn find_price(prices: &Vec<(u64, Amount)>, coin: u64) -> (r: Option<Amount>)
    ensures
        r == spec_price(prices@, coin),
{
    proof {
        assert(prices@.skip(0) =~= prices@);
    }
    let mut i: usize = 0;
    while i < prices.len()
        invariant
            i <= prices@.len(),
            spec_price(prices@, coin) == spec_price(prices@.skip(i as int), coin),
        decreases prices@.len() - i,
    {
        proof {
            assert(prices@.skip(i as int).first() == prices@[i as int]);
            assert(prices@.skip(i as int).drop_first() =~= prices@.skip(i as int + 1));
        }
        if prices[i].0 == coin {
            return Some(prices[i].1);
        }
        i = i + 1;
    }
    proof {
        assert(prices@.skip(prices@.len() as int) =~= Seq::<(u64, Amount)>::empty());
    }
    None
}

/// A price drawn from a non-negative price table is non-negative.
pub proof fn lemma_spec_price_non_negative(prices: Seq<(u64, Amount)>, coin: u64)
    requires
        non_negative_prices(prices),
    ensures
        match spec_price(prices, coin) {
            Some(p) => p.subunits >= 0,
            None => true,
        },
    decreases prices.len(),
{
    if prices.len() > 0 {
        assert(prices[0].1.subunits >= 0);
        assert forall|i: int| 0 <= i < prices.drop_first().len() implies (#[trigger] prices.drop_first()[
            i
        ]).1.subunits >= 0 by {
            assert(prices[i + 1].1.subunits >= 0);
        }
        lemma_spec_price_non_negative(prices.drop_first(), coin);
    }
}

/// How far a position is above its desired share, in fixed-point
/// percentage points: `100 * value / total - desired`.
pub open spec fn allocation_score(p: DefiProtocol, total: int) -> int {
    div_spec(100 * p.value.value(), total) - (p.desired_percentage as int) * (AMOUNT_ONE as int)
}

/// Whether computing the allocation score of `p` would leave the
/// representable range.
pub open spec fn score_overflows(p: DefiProtocol) -> bool {
    ||| 100 * p.value.value() > i128::MAX
    ||| 100 * p.value.value() * (AMOUNT_ONE as int) > i128::MAX
}

/// The first position with the smallest allocation score: the most
/// under-allocated one.
pub open spec fn best_deposit_index(s: Seq<DefiProtocol>, total: int) -> int
    decreases s.len(),
{
    if s.len() <= 1 {
        0
    } else {
        let b = best_deposit_index(s.drop_last(), total);
        if allocation_score(s.last(), total) < allocation_score(s[b], total) {
            s.len() - 1
        } else {
            b
        }
    }
}

/// `best_deposit_index` of a non-empty registry is a valid index.
pub proof fn lemma_best_deposit_index_bounds(s: Seq<DefiProtocol>, total: int)
    requires
        s.len() >= 1,
    ensures
        0 <= best_deposit_index(s, total) < s.len(),
    decreases s.len(),
{
    if s.len() > 1 {
        lemma_best_deposit_index_bounds(s.drop_last(), total);
    }
}

/// Whether a position can satisfy a withdrawal of `amount` on its own.
pub open spec fn is_candidate(p: DefiProtocol, amount: int) -> bool {
    p.value.value() >= amount
}

/// Whether some position can satisfy the withdrawal on its own.
pub open spec fn has_candidate(s: Seq<DefiProtocol>, amount: int) -> bool {
    exists|i: int| 0 <= i < s.len() && is_candidate(#[trigger] s[i], amount)
}

/// Among the positions that can satisfy the withdrawal, the first one with
/// the largest allocation score: the most over-allocated.  `-1` when none
/// can.
pub open spec fn best_withdraw_index(s: Seq<DefiProtocol>, total: int, amount: int) -> int
    decreases s.len(),
{
    if s.len() == 0 {
        -1
    } else {
        let b = best_withdraw_index(s.drop_last(), total, amount);
        if !is_candidate(s.last(), amount) {
            b
        } else if b < 0 {
            s.len() - 1
        } else if allocation_score(s.last(), total) > allocation_score(s[b], total) {
            s.len() - 1
        } else {
            b
        }
    }
}

/// The first position with the largest positive value; `-1` when every
/// value is zero or the registry is empty.
pub open spec fn largest_value_index(s: Seq<DefiProtocol>) -> int
    decreases s.len(),
{
    if s.len() == 0 {
        -1
    } else {
        let b = largest_value_index(s.drop_last());
        if b < 0 {
            if s.last().value.value() > 0 {
                s.len() - 1
            } else {
                -1
            }
        } else if s.last().value.value() > s[b].value.value() {
            s.len() - 1
        } else {
            b
        }
    }
}

/// When non-negative, the fallback index is valid and names a position of
/// positive value.
pub proof fn lemma_largest_value_index_bounds(s: Seq<DefiProtocol>)
    ensures
        largest_value_index(s) >= 0 ==> 0 <= largest_value_index(s) < s.len() && s[
            largest_value_index(s)
        ].value.value() > 0,
    decreases s.len(),
{
    if s.len() > 0 {
        lemma_largest_value_index_bounds(s.drop_last());
    }
}

impl FundManager {
    /// The gross USD value of one fund unit: total value over supply.
    pub open spec fn gross_unit_value(f: FundManager) -> int {
        div_spec(f.total_value.value(), f.fund_unit_supply.value())
    }

    /// The net USD value of one fund unit: the gross value after the
    /// withdrawal fee.
    pub open spec fn net_unit_value(f: FundManager) -> int {
        pct_spec(Self::gross_unit_value(f), 100 - f.withdrawal_fee as int)
    }

    /// Why `fund_unit_value` would fail, if it would.
    pub open spec fn unit_value_error(f: FundManager) -> Option<FundError> {
        if f.fund_unit_supply.subunits == 0 {
            Some(FundError::ZeroUnitSupply)
        } else if f.total_value.value() * (AMOUNT_ONE as int) > i128::MAX {
            Some(FundError::AmountOverflow)
        } else if Self::gross_unit_value(f) * (100 - f.withdrawal_fee as int) > i128::MAX {
            Some(FundError::AmountOverflow)
        } else {
            None
        }
    }

    /// The net and gross USD value of one fund unit.
    pub fn fund_unit_value(&self) -> (r: Result<(Amount, Amount), FundError>)
        requires
            self.wf(),
        ensures
            match r {
                Ok(v) => {
                    &&& Self::unit_value_error(*self) is None
                    &&& v.1.subunits == Self::gross_unit_value(*self)
                    &&& v.0.subunits == Self::net_unit_value(*self)
                    &&& v.0.subunits >= 0
                    &&& v.1.subunits >= 0
                },
                Err(e) => Some(e) == Self::unit_value_error(*self),
            },
    {
        if self.fund_unit_supply.subunits == 0 {
            return Err(FundError::ZeroUnitSupply);
        }
        proof {
            lemma_sum_bounds(self.defi_protocols@);
        }
        let gross = match self.total_value.checked_div(self.fund_unit_supply) {
            Some(g) => g,
            None => {
                return Err(FundError::AmountOverflow);
            },
        };
        let net = match gross.checked_pct(100 - self.withdrawal_fee) {
            Some(n) => n,
            None => {
                return Err(FundError::AmountOverflow);
            },
        };
        Ok((net, gross))
    }

    /// Why `find_where_to_deposit_to` would fail, if it would.
    pub open spec fn deposit_selection_error(f: FundManager) -> Option<FundError> {
        let s = f.defi_protocols@;
        if s.len() == 0 {
            Some(FundError::NoProtocols)
        } else if f.total_value.subunits == 0 {
            Some(FundError::ZeroTotalValue)
        } else if exists|i: int| 0 <= i < s.len() && score_overflows(#[trigger] s[i]) {
            Some(FundError::AmountOverflow)
        } else {
            None
        }
    }

    /// Selects the position to invest in: the first position whose actual
    /// share of the fund lies furthest below its desired share.  Returns
    /// its index in the registry.
    #[verifier::loop_isolation(false)]
    pub fn find_where_to_deposit_to(&self) -> (r: Result<usize, FundError>)
        requires
            self.wf(),
        ensures
            match r {
                Ok(i) => {
                    &&& Self::deposit_selection_error(*self) is None
                    &&& i < self.defi_protocols@.len()
                    &&& i as int == best_deposit_index(
                        self.defi_protocols@,
                        self.total_value.value(),
                    )
                },
                Err(e) => Some(e) == Self::deposit_selection_error(*self),
            },
    {
        let ghost s = self.defi_protocols@;
        let ghost total_spec = self.total_value.value();
        if self.defi_protocols.len() == 0 {
            return Err(FundError::NoProtocols);
        }
        if self.total_value.subunits == 0 {
            return Err(FundError::ZeroTotalValue);
        }
        proof {
            lemma_sum_bounds(s);
        }
        let total = self.total_value;
        let mut best_idx: usize = 0;
        let mut best_score: i128 = 0;
        let mut i: usize = 0;
        while i < self.defi_protocols.len()
            invariant
                i <= s.len(),
                i > 0 ==> best_idx < i && best_idx as int == best_deposit_index(
                    s.subrange(0, i as int),
                    total_spec,
                ) && best_score == allocation_score(s[best_idx as int], total_spec),
                forall|k: int| 0 <= k < i ==> !score_overflows(#[trigger] s[k]),
            decreases s.len() - i,
        {
            let p = &self.defi_protocols[i];
            let scaled = match p.value.checked_scale(100) {
                Some(x) => x,
                None => {
                    return Err(FundError::AmountOverflow);
                },
            };
            let q = match scaled.checked_div(total) {
                Some(x) => x,
                None => {
                    return Err(FundError::AmountOverflow);
                },
            };
            let score: i128 = q.subunits - (p.desired_percentage as i128) * AMOUNT_ONE;
            proof {
                assert(s.subrange(0, i + 1).drop_last() =~= s.subrange(0, i as int));
                assert(s.subrange(0, i + 1).last() == s[i as int]);
                assert(score == allocation_score(s[i as int], total_spec));
            }
            if i == 0 || score < best_score {
                best_idx = i;
                best_score = score;
            }
            i = i + 1;
        }
        proof {
            assert(s.subrange(0, s.len() as int) =~= s);
        }
        Ok(best_idx)
    }

    /// Why `find_where_to_withdraw_from` would fail, if it would.
    pub open spec fn withdraw_selection_error(f: FundManager, amount: int) -> Option<FundError> {
        let s = f.defi_protocols@;
        if s.len() == 0 {
            Some(FundError::NoProtocols)
        } else if !has_candidate(s, amount) {
            if largest_value_index(s) < 0 {
                Some(FundError::ZeroTotalValue)
            } else {
                None
            }
        } else if f.total_value.subunits == 0 {
            Some(FundError::ZeroTotalValue)
        } else if exists|i: int|
            0 <= i < s.len() && is_candidate(#[trigger] s[i], amount) && score_overflows(s[i]) {
            Some(FundError::AmountOverflow)
        } else {
            None
        }
    }

    /// Selects the position to withdraw `amount` USD from: among the
    /// positions whose cached value covers the full amount, the first one
    /// whose actual share lies furthest above its desired share.  When no
    /// position can cover the amount, falls back to the first position of
    /// largest value and returns that smaller value instead of the full
    /// request.  Returns the index and the USD value that can actually be
    /// withdrawn.
    #[verifier::loop_isolation(false)]
    pub fn find_where_to_withdraw_from(&self, amount: Amount) -> (r: Result<
        (usize, Amount),
        FundError,
    >)
        requires
            self.wf(),
            amount.subunits >= 0,
        ensures
            match r {
                Ok(sel) => {
                    &&& Self::withdraw_selection_error(*self, amount.value()) is None
                    &&& sel.0 < self.defi_protocols@.len()
                    &&& if has_candidate(self.defi_protocols@, amount.value()) {
                        &&& sel.0 as int == best_withdraw_index(
                            self.defi_protocols@,
                            self.total_value.value(),
                            amount.value(),
                        )
                        &&& sel.1 == amount
                        &&& is_candidate(self.defi_protocols@[sel.0 as int], amount.value())
                    } else {
                        &&& sel.0 as int == largest_value_index(self.defi_protocols@)
                        &&& sel.1 == self.defi_protocols@[sel.0 as int].value
                    }
                },
                Err(e) => Some(e) == Self::withdraw_selection_error(*self, amount.value()),
            },
    {
        let ghost s = self.defi_protocols@;
        let ghost total_spec = self.total_value.value();
        if self.defi_protocols.len() == 0 {
            return Err(FundError::NoProtocols);
        }
        let mut any: bool = false;
        let mut i: usize = 0;
        while i < self.defi_protocols.len()
            invariant
                i <= s.len(),
                any == has_candidate(s.subrange(0, i as int), amount.value()),
            decreases s.len() - i,
        {
            proof {
                assert(forall|k: int|
                    0 <= k < i + 1 ==> s.subrange(0, i + 1)[k] == #[trigger] s[k]);
            }
            if self.defi_protocols[i].value.subunits >= amount.subunits {
                any = true;
                proof {
                    assert(is_candidate(s.subrange(0, i + 1)[i as int], amount.value()));
                }
            }
            proof {
                if !any {
                    assert forall|k: int|
                        0 <= k < i + 1 implies !is_candidate(
                        #[trigger] s.subrange(0, i + 1)[k],
                        amount.value(),
                    ) by {
                        if k < i {
                            assert(!is_candidate(s.subrange(0, i as int)[k], amount.value()));
                        }
                    }
                }
            }
            i = i + 1;
        }
        proof {
            assert(s.subrange(0, s.len() as int) =~= s);
        }
        if !any {
            let mut best_idx: usize = 0;
            let mut best_val: i128 = 0;
            let mut found: bool = false;
            let mut j: usize = 0;
            while j < self.defi_protocols.len()
                invariant
                    j <= s.len(),
                    found == (largest_value_index(s.subrange(0, j as int)) >= 0),
                    !found ==> best_val == 0,
                    found ==> best_idx < j && best_idx as int == largest_value_index(
                        s.subrange(0, j as int),
                    ) && best_val == s[best_idx as int].value.subunits && best_val > 0,
                decreases s.len() - j,
            {
                proof {
                    assert(s.subrange(0, j + 1).drop_last() =~= s.subrange(0, j as int));
                    assert(s.subrange(0, j + 1).last() == s[j as int]);
                }
                if self.defi_protocols[j].value.subunits > best_val {
                    best_idx = j;
                    best_val = self.defi_protocols[j].value.subunits;
                    found = true;
                }
                j = j + 1;
            }
            if !found {
                return Err(FundError::ZeroTotalValue);
            }
            return Ok((best_idx, self.defi_protocols[best_idx].value));
        }
        if self.total_value.subunits == 0 {
            return Err(FundError::ZeroTotalValue);
        }
        proof {
            lemma_sum_bounds(s);
        }
        let total = self.total_value;
        let mut best_idx: usize = 0;
        let mut best_score: i128 = 0;
        let mut found: bool = false;
        let mut j: usize = 0;
        while j < self.defi_protocols.len()
            invariant
                j <= s.len(),
                found == (best_withdraw_index(s.subrange(0, j as int), total_spec, amount.value())
                    >= 0),
                found ==> best_idx < j && best_idx as int == best_withdraw_index(
                    s.subrange(0, j as int),
                    total_spec,
                    amount.value(),
                ) && best_score == allocation_score(s[best_idx as int], total_spec)
                    && is_candidate(s[best_idx as int], amount.value()),
                forall|k: int|
                    0 <= k < j ==> !(is_candidate(#[trigger] s[k], amount.value())
                        && score_overflows(s[k])),
            decreases s.len() - j,
        {
            proof {
                assert(s.subrange(0, j + 1).drop_last() =~= s.subrange(0, j as int));
                assert(s.subrange(0, j + 1).last() == s[j as int]);
            }
            let p = &self.defi_protocols[j];
            if p.value.subunits >= amount.subunits {
                let scaled = match p.value.checked_scale(100) {
                    Some(x) => x,
                    None => {
                        return Err(FundError::AmountOverflow);
                    },
                };
                let q = match scaled.checked_div(total) {
                    Some(x) => x,
                    None => {
                        return Err(FundError::AmountOverflow);
                    },
                };
                let score: i128 = q.subunits - (p.desired_percentage as i128) * AMOUNT_ONE;
                proof {
                    assert(score == allocation_score(s[j as int], total_spec));
                }
                if !found || score > best_score {
                    best_idx = j;
                    best_score = score;
                    found = true;
                }
            }
            j = j + 1;
        }
        proof {
            assert(s.subrange(0, s.len() as int) =~= s);
        }
        if !found {
            proof {
                let w = choose|k: int| 0 <= k < s.len() && is_candidate(s[k], amount.value());
                lemma_best_withdraw_index_found(s, total_spec, amount.value(), w);
                assert(false);
            }
        }
        Ok((best_idx, amount))
    }
}

/// One step of the batched revaluation: reprices the position named
/// `name` from the reported holding and the price table.  The position
/// must exist, an oracle must be configured, a price must be on record for
/// each of its assets, a second holding must be reported exactly when the
/// position manages a second asset, and nothing may leave the
/// representable range.
pub open spec fn revalue_one(
    s: Seq<DefiProtocol>,
    oracle_present: bool,
    name: String,
    amt: (Amount, Option<Amount>),
    prices: Seq<(u64, Amount)>,
) -> Result<Seq<DefiProtocol>, FundError> {
    let i = index_of_name(s, name@);
    if i < 0 {
        Err(FundError::ProtocolNotFound)
    } else if !oracle_present {
        Err(FundError::NoOracle)
    } else {
        let p = s[i];
        match spec_price(prices, p.coin) {
            None => Err(FundError::MissingPrice),
            Some(cp) => {
                if cp.value() * amt.0.value() > i128::MAX {
                    Err(FundError::AmountOverflow)
                } else {
                    let v1 = mul_spec(cp.value(), amt.0.value());
                    match p.other_coin {
                        None => {
                            let s2 = s.update(
                                i,
                                (DefiProtocol { value: Amount { subunits: v1 as i128 }, ..p }),
                            );
                            if sum_of_values(s2) > i128::MAX {
                                Err(FundError::AmountOverflow)
                            } else {
                                Ok(s2)
                            }
                        },
                        Some(oc) => match spec_price(prices, oc) {
                            None => Err(FundError::MissingPrice),
                            Some(op) => match amt.1 {
                                None => Err(FundError::MissingAmount),
                                Some(oa) => {
                                    if op.value() * oa.value() > i128::MAX {
                                        Err(FundError::AmountOverflow)
                                    } else if v1 + mul_spec(op.value(), oa.value()) > i128::MAX {
                                        Err(FundError::AmountOverflow)
                                    } else {
                                        let s2 = s.update(
                                            i,
                                            (DefiProtocol {
                                                value: Amount {
                                                    subunits: (v1 + mul_spec(
                                                        op.value(),
                                                        oa.value(),
                                                    )) as i128,
                                                },
                                                ..p
                                            }),
                                        );
                                        if sum_of_values(s2) > i128::MAX {
                                            Err(FundError::AmountOverflow)
                                        } else {
                                            Ok(s2)
                                        }
                                    }
                                },
                            },
                        },
                    }
                }
            },
        }
    }
}

/// The batched revaluation applied name by name, stopping at the first
/// failure.
pub open spec fn apply_revaluations(
    s: Seq<DefiProtocol>,
    oracle_present: bool,
    names: Seq<String>,
    reported: Seq<(Amount, Option<Amount>)>,
    prices: Seq<(u64, Amount)>,
) -> Result<Seq<DefiProtocol>, FundError>
    decreases names.len(),
{
    if names.len() == 0 {
        Ok(s)
    } else {
        match revalue_one(s, oracle_present, names.first(), reported.first(), prices) {
            Ok(s2) => apply_revaluations(
                s2,
                oracle_present,
                names.drop_first(),
                reported.drop_first(),
                prices,
            ),
            Err(e) => Err(e),
        }
    }
}

impl FundManager {
    /// Re-prices the named positions from adapter-reported holdings and a
    /// per-call price table, applying the total-value change once at the
    /// end.  Bot operation.  `reported[i]` is what the adapter of the
    /// position named `defi_protocols[i]` reports holding; `prices` holds
    /// one entry per asset, so each asset is priced at most once per call.
    /// Either every named position is re-priced or none is.
    #[verifier::loop_isolation(false)]
    pub fn update_defi_protocols_value(
        &mut self,
        defi_protocols: &Vec<String>,
        reported: &Vec<(Amount, Option<Amount>)>,
        prices: &Vec<(u64, Amount)>,
    ) -> (r: Result<(), FundError>)
        requires
            old(self).wf(),
            defi_protocols@.len() == reported@.len(),
            forall|i: int| 0 <= i < reported@.len() ==> non_negative_report(#[trigger] reported@[i]),
            non_negative_prices(prices@),
        ensures
            final(self).wf(),
            match r {
                Ok(_) => {
                    &&& apply_revaluations(
                        old(self).defi_protocols@,
                        old(self).oracle_component is Some,
                        defi_protocols@,
                        reported@,
                        prices@,
                    ) == Ok::<_, FundError>(final(self).defi_protocols@)
                    &&& final(self).total_value.subunits == sum_of_values(
                        final(self).defi_protocols@,
                    )
                    &&& Self::same_admin_state(*final(self), *old(self))
                    &&& Self::same_auths(*final(self), *old(self))
                    &&& Self::same_units(*final(self), *old(self))
                    &&& Self::same_config(*final(self), *old(self))
                    &&& Self::same_custody(*final(self), *old(self))
                },
                Err(e) => {
                    &&& *final(self) == *old(self)
                    &&& apply_revaluations(
                        old(self).defi_protocols@,
                        old(self).oracle_component is Some,
                        defi_protocols@,
                        reported@,
                        prices@,
                    ) == Err::<Seq<DefiProtocol>, _>(e)
                },
            },
    {
        let ghost s0 = self.defi_protocols@;
        let ghost oracle_present = self.oracle_component is Some;
        let mut work: Vec<DefiProtocol> = Vec::new();
        let mut i: usize = 0;
        while i < self.defi_protocols.len()
            invariant
                i <= self.defi_protocols@.len(),
                work@ =~= self.defi_protocols@.subrange(0, i as int),
            decreases self.defi_protocols@.len() - i,
        {
            work.push(self.defi_protocols[i].duplicate());
            i = i + 1;
        }
        let mut total: i128 = self.total_value.subunits;
        proof {
            assert(work@ =~= s0);
            assert(defi_protocols@.skip(0) =~= defi_protocols@);
            assert(reported@.skip(0) =~= reported@);
            lemma_sum_bounds(s0);
        }
        let oracle_configured = self.oracle_component.is_some();
        let mut j: usize = 0;
        while j < defi_protocols.len()
            invariant
                j <= defi_protocols@.len(),
                apply_revaluations(s0, oracle_present, defi_protocols@, reported@, prices@)
                    == apply_revaluations(
                    work@,
                    oracle_present,
                    defi_protocols@.skip(j as int),
                    reported@.skip(j as int),
                    prices@,
                ),
                work@.len() == s0.len(),
                forall|k: int|
                    0 <= k < s0.len() ==> {
                        let w = #[trigger] work@[k];
                        &&& w.name@ == s0[k].name@
                        &&& w.coin == s0[k].coin
                        &&& w.other_coin == s0[k].other_coin
                        &&& w.desired_percentage == s0[k].desired_percentage
                        &&& w.value.subunits >= 0
                    },
                names_distinct(work@),
                total == sum_of_values(work@),
                total >= 0,
            decreases defi_protocols@.len() - j,
        {
            proof {
                assert(defi_protocols@.skip(j as int).first() == defi_protocols@[j as int]);
                assert(defi_protocols@.skip(j as int).drop_first() =~= defi_protocols@.skip(
                    j as int + 1,
                ));
                assert(reported@.skip(j as int).first() == reported@[j as int]);
                assert(reported@.skip(j as int).drop_first() =~= reported@.skip(j as int + 1));
            }
            let idx = match find_protocol(&work, &defi_protocols[j]) {
                Some(idx) => idx,
                None => {
                    return Err(FundError::ProtocolNotFound);
                },
            };
            if !oracle_configured {
                return Err(FundError::NoOracle);
            }
            proof {
                lemma_spec_price_non_negative(prices@, work@[idx as int].coin);
            }
            let coin_price = match find_price(prices, work[idx].coin) {
                Some(cp) => cp,
                None => {
                    return Err(FundError::MissingPrice);
                },
            };
            let amount = reported[j].0;
            let v1 = match coin_price.checked_mul(amount) {
                Some(v) => v,
                None => {
                    return Err(FundError::AmountOverflow);
                },
            };
            let new_value: Amount = match work[idx].other_coin {
                None => v1,
                Some(oc) => {
                    proof {
                        lemma_spec_price_non_negative(prices@, oc);
                    }
                    let other_price = match find_price(prices, oc) {
                        Some(op) => op,
                        None => {
                            return Err(FundError::MissingPrice);
                        },
                    };
                    let other_amount = match reported[j].1 {
                        Some(oa) => oa,
                        None => {
                            return Err(FundError::MissingAmount);
                        },
                    };
                    let v2 = match other_price.checked_mul(other_amount) {
                        Some(v) => v,
                        None => {
                            return Err(FundError::AmountOverflow);
                        },
                    };
                    match v1.checked_add(v2) {
                        Some(v) => v,
                        None => {
                            return Err(FundError::AmountOverflow);
                        },
                    }
                },
            };
            let entry = DefiProtocol {
                name: work[idx].name.clone(),
                value: new_value,
                desired_percentage: work[idx].desired_percentage,
                wrapper: work[idx].wrapper,
                coin: work[idx].coin,
                protocol_token: work[idx].protocol_token,
                needed_morpher_data: work[idx].needed_morpher_data,
                other_coin: work[idx].other_coin,
            };
            proof {
                assert(entry == (DefiProtocol { value: new_value, ..work@[idx as int] }));
                lemma_sum_bounds(work@);
                lemma_sum_update(work@, idx as int, entry);
            }
            let old_value = work[idx].value;
            work[idx] = entry;
            let reduced = total - old_value.subunits;
            let new_total = match reduced.checked_add(new_value.subunits) {
                Some(t) => t,
                None => {
                    return Err(FundError::AmountOverflow);
                },
            };
            total = new_total;
            j = j + 1;
        }
        proof {
            assert(defi_protocols@.skip(defi_protocols@.len() as int) =~= Seq::<String>::empty());
        }
        self.defi_protocols = work;
        self.total_value = Amount { subunits: total };
        Ok(())
    }
}

/// A registry containing a candidate has a non-negative best withdraw
/// index.
pub proof fn lemma_best_withdraw_index_found(
    s: Seq<DefiProtocol>,
    total: int,
    amount: int,
    w: int,
)
    requires
        0 <= w < s.len(),
        is_candidate(s[w], amount),
    ensures
        best_withdraw_index(s, total, amount) >= 0,
    decreases s.len(),
{
    if w < s.len() - 1 {
        lemma_best_withdraw_index_found(s.drop_last(), total, amount, w);
    }
}

} // verus!
