//! Laws of the engine that relate several operations, stated and proved
//! once and for all.

use vstd::prelude::*;
use crate::amount::{Amount, AMOUNT_ONE, mul_spec, div_spec};
use crate::authorization::{
    Authorization, AuthorizedOperation, is_live, count_matching,
};
use crate::protocol::{DefiProtocol, sum_of_values, index_of_name, lemma_index_of_name, contains_name};
use crate::valuation::{
    revalue_one, apply_revaluations, allocation_score, best_deposit_index, best_withdraw_index,
    is_candidate, lemma_best_deposit_index_bounds, lemma_best_withdraw_index_found,
};
use crate::withdrawal::clamp_burn;

verus! {

/// An authorization record older than the timeout is never counted toward
/// a quorum, even while still physically present: appending an expired
/// record to the ledger leaves every quorum count unchanged.
pub proof fn lemma_expired_never_counted(
    s: Seq<Authorization>,
    a: Authorization,
    now: i64,
    allowed: u8,
    op: AuthorizedOperation,
    name: Option<Seq<char>>,
    pct: Option<u8>,
    acct: Option<u64>,
)
    requires
        !is_live(a, now),
    ensures
        count_matching(s.push(a), now, allowed, op, name, pct, acct) == count_matching(
            s,
            now,
            allowed,
            op,
            name,
            pct,
            acct,
        ),
{
    assert(s.push(a).drop_last() =~= s);
    assert(s.push(a).last() == a);
}

/// Withdrawing assets worth exactly `u` units at the gross unit price `g`
/// burns exactly `u` units: the value of `u` units, truncated to subunits
/// and converted back, loses less than the ten-percent tolerance band
/// absorbs, so the clamp settles on the full presented amount.
pub proof fn lemma_round_trip_burn(u: int, g: int)
    requires
        g >= AMOUNT_ONE,
        u > 10,
    ensures
        clamp_burn(div_spec(mul_spec(u, g), g), u) == Some(u),
{
    let one = AMOUNT_ONE as int;
    assert(u * g > 0) by (nonlinear_arith)
        requires
            u > 10,
            g >= 1_000_000,
    ;
    let a = u * g;
    let v = a / one;
    vstd::arithmetic::div_mod::lemma_fundamental_div_mod(a, one);
    let r1 = a % one;
    vstd::arithmetic::div_mod::lemma_mod_bound(a, one);
    assert(0 <= r1 < one);
    assert(v * one == a - r1) by (nonlinear_arith)
        requires
            a == one * v + r1,
    ;
    let c = (v * one) / g;
    if r1 == 0 {
        assert(v * one == a);
        vstd::arithmetic::div_mod::lemma_div_multiples_vanish(u, g);
        assert((g * u) / g == u);
        assert(g * u == a) by (nonlinear_arith)
            requires
                a == u * g,
        ;
        assert(c == u);
    } else {
        assert(u * g - r1 == (u - 1) * g + (g - r1)) by (nonlinear_arith);
        assert(0 <= g - r1 < g);
        vstd::arithmetic::div_mod::lemma_fundamental_div_mod_converse(
            a - r1,
            g,
            u - 1,
            g - r1,
        );
        assert(c == u - 1);
    }
    assert(c <= u);
    let lower = mul_spec(u, 900_000);
    vstd::arithmetic::div_mod::lemma_fundamental_div_mod(u * 900_000, one);
    assert(lower * one <= u * 900_000) by {
        vstd::arithmetic::div_mod::lemma_mod_bound(u * 900_000, one);
    }
    assert(lower < u - 1) by (nonlinear_arith)
        requires
            u > 10,
            lower * 1_000_000 <= u * 900_000,
    ;
    assert(c > lower);
    assert(clamp_burn(c, u) == Some(u));
}

/// A successful revaluation step replaces exactly the named entry, with a
/// value computed from its assets, the report and the price table alone.
pub proof fn lemma_revalue_one_step(
    s: Seq<DefiProtocol>,
    oracle_present: bool,
    name: String,
    amt: (Amount, Option<Amount>),
    prices: Seq<(u64, Amount)>,
)
    requires
        revalue_one(s, oracle_present, name, amt, prices) is Ok,
    ensures
        ({
            let t = revalue_one(s, oracle_present, name, amt, prices)->Ok_0;
            let i = index_of_name(s, name@);
            &&& 0 <= i < s.len()
            &&& t.len() == s.len()
            &&& forall|k: int| 0 <= k < s.len() && k != i ==> #[trigger] t[k] == s[k]
            &&& t[i] == (DefiProtocol { value: t[i].value, ..s[i] })
            &&& t[i].value.subunits == revalued_subunits(s[i], amt, prices)
            &&& sum_of_values(t) <= i128::MAX
        }),
{
    let i = index_of_name(s, name@);
    lemma_index_of_name(s, name@);
    let p = s[i];
    if i < 0 {
        assert(false);
    } else {
        match crate::valuation::spec_price(prices, p.coin) {
            None => {
                assert(false);
            },
            Some(cp) => {
                let v1 = mul_spec(cp.value(), amt.0.value());
                match p.other_coin {
                    None => {
                        let e = (DefiProtocol { value: Amount { subunits: v1 as i128 }, ..p });
                        assert(revalue_one(s, oracle_present, name, amt, prices) == Ok::<
                            _,
                            crate::errors::FundError,
                        >(s.update(i, e)));
                    },
                    Some(oc) => {
                        match crate::valuation::spec_price(prices, oc) {
                            None => {
                                assert(false);
                            },
                            Some(op) => {
                                match amt.1 {
                                    None => {
                                        assert(false);
                                    },
                                    Some(oa) => {
                                        let nv = v1 + mul_spec(op.value(), oa.value());
                                        let e = (DefiProtocol {
                                            value: Amount { subunits: nv as i128 },
                                            ..p
                                        });
                                        assert(revalue_one(s, oracle_present, name, amt, prices)
                                            == Ok::<_, crate::errors::FundError>(s.update(i, e)));
                                    },
                                }
                            },
                        }
                    },
                }
            },
        }
    }
}

/// The value a successful revaluation step assigns to the entry `p`,
/// determined by the entry's assets, the reported holding and the price
/// table — not by the entry's previous value.
pub open spec fn revalued_subunits(
    p: DefiProtocol,
    amt: (Amount, Option<Amount>),
    prices: Seq<(u64, Amount)>,
) -> i128 {
    let cp = crate::valuation::spec_price(prices, p.coin)->Some_0;
    let v1 = mul_spec(cp.value(), amt.0.value());
    match p.other_coin {
        None => v1 as i128,
        Some(oc) => {
            let op = crate::valuation::spec_price(prices, oc)->Some_0;
            (v1 + mul_spec(op.value(), amt.1->Some_0.value())) as i128
        },
    }
}

/// A revaluation step that succeeded from `s` also succeeds, and changes
/// nothing, on a registry `t` of the same shape whose named entry already
/// carries the recomputed value.
pub proof fn lemma_revalue_one_transfer(
    s: Seq<DefiProtocol>,
    t: Seq<DefiProtocol>,
    oracle_present: bool,
    name: String,
    amt: (Amount, Option<Amount>),
    prices: Seq<(u64, Amount)>,
)
    requires
        revalue_one(s, oracle_present, name, amt, prices) is Ok,
        t.len() == s.len(),
        forall|k: int|
            0 <= k < s.len() ==> (#[trigger] t[k]).name@ == s[k].name@ && t[k].coin == s[k].coin
                && t[k].other_coin == s[k].other_coin,
        t[index_of_name(s, name@)].value.subunits == revalued_subunits(
            s[index_of_name(s, name@)],
            amt,
            prices,
        ),
        sum_of_values(t) <= i128::MAX,
    ensures
        revalue_one(t, oracle_present, name, amt, prices) == Ok::<_, crate::errors::FundError>(t),
{
    lemma_revalue_one_step(s, oracle_present, name, amt, prices);
    lemma_index_of_name_from_names(t, s, name@);
    let i = index_of_name(s, name@);
    assert(index_of_name(t, name@) == i);
    let p = s[i];
    let q = t[i];
    assert(q.coin == p.coin && q.other_coin == p.other_coin);
    match crate::valuation::spec_price(prices, p.coin) {
        None => {
            assert(false);
        },
        Some(cp) => {
            let v1 = mul_spec(cp.value(), amt.0.value());
            match p.other_coin {
                None => {
                    let e = (DefiProtocol { value: Amount { subunits: v1 as i128 }, ..q });
                    assert(e == q);
                    assert(t.update(i, e) =~= t);
                    assert(revalue_one(t, oracle_present, name, amt, prices) == Ok::<
                        _,
                        crate::errors::FundError,
                    >(t));
                },
                Some(oc) => {
                    match crate::valuation::spec_price(prices, oc) {
                        None => {
                            assert(false);
                        },
                        Some(op) => {
                            match amt.1 {
                                None => {
                                    assert(false);
                                },
                                Some(oa) => {
                                    let nv = v1 + mul_spec(op.value(), oa.value());
                                    let e = (DefiProtocol {
                                        value: Amount { subunits: nv as i128 },
                                        ..q
                                    });
                                    assert(e == q);
                                    assert(t.update(i, e) =~= t);
                                    assert(revalue_one(t, oracle_present, name, amt, prices)
                                        == Ok::<_, crate::errors::FundError>(t));
                                },
                            }
                        },
                    }
                },
            }
        },
    }
}

/// The selected deposit target is the most under-allocated position: its
/// allocation score is minimal, and no earlier position scores as low.
pub proof fn lemma_best_deposit_index_minimal(s: Seq<DefiProtocol>, total: int)
    requires
        s.len() >= 1,
    ensures
        forall|j: int|
            0 <= j < s.len() ==> allocation_score(s[best_deposit_index(s, total)], total)
                <= allocation_score(#[trigger] s[j], total),
        forall|j: int|
            0 <= j < best_deposit_index(s, total) ==> allocation_score(#[trigger] s[j], total)
                > allocation_score(s[best_deposit_index(s, total)], total),
    decreases s.len(),
{
    lemma_best_deposit_index_bounds(s, total);
    if s.len() > 1 {
        lemma_best_deposit_index_minimal(s.drop_last(), total);
        lemma_best_deposit_index_bounds(s.drop_last(), total);
        let b0 = best_deposit_index(s.drop_last(), total);
        assert(forall|j: int| 0 <= j < s.len() - 1 ==> #[trigger] s[j] == s.drop_last()[j]);
    }
}


/// The selected withdrawal source is the most over-allocated position
/// among those that can cover the request: it is itself a candidate, its
/// allocation score is maximal among candidates, and no earlier candidate
/// scores as high.
pub proof fn lemma_best_withdraw_index_maximal(s: Seq<DefiProtocol>, total: int, amount: int)
    requires
        best_withdraw_index(s, total, amount) >= 0,
    ensures
        ({
            let b = best_withdraw_index(s, total, amount);
            &&& 0 <= b < s.len()
            &&& is_candidate(s[b], amount)
            &&& forall|j: int|
                0 <= j < s.len() && is_candidate(#[trigger] s[j], amount) ==> allocation_score(
                    s[j],
                    total,
                ) <= allocation_score(s[b], total)
            &&& forall|j: int|
                0 <= j < b && is_candidate(#[trigger] s[j], amount) ==> allocation_score(s[j], total)
                    < allocation_score(s[b], total)
        }),
    decreases s.len(),
{
    let b = best_withdraw_index(s, total, amount);
    let t = s.drop_last();
    let b0 = best_withdraw_index(t, total, amount);
    assert(forall|j: int| 0 <= j < s.len() - 1 ==> #[trigger] s[j] == t[j]);
    if b0 >= 0 {
        lemma_best_withdraw_index_maximal(t, total, amount);
    } else {
        assert forall|j: int| 0 <= j < s.len() - 1 implies !is_candidate(
            #[trigger] s[j],
            amount,
        ) by {
            if is_candidate(s[j], amount) {
                lemma_best_withdraw_index_found(t, total, amount, j);
            }
        }
    }
}


/// Shape preservation: a successful batched revaluation changes only the
/// cached values; every other field of every entry, and the length, stay.
pub proof fn lemma_revalue_shape(
    s: Seq<DefiProtocol>,
    oracle_present: bool,
    names: Seq<String>,
    reported: Seq<(Amount, Option<Amount>)>,
    prices: Seq<(u64, Amount)>,
)
    requires
        names.len() == reported.len(),
        apply_revaluations(s, oracle_present, names, reported, prices) is Ok,
    ensures
        ({
            let t = apply_revaluations(s, oracle_present, names, reported, prices)->Ok_0;
            &&& t.len() == s.len()
            &&& forall|i: int|
                0 <= i < s.len() ==> {
                    let w = #[trigger] t[i];
                    &&& w.name@ == s[i].name@
                    &&& w.coin == s[i].coin
                    &&& w.other_coin == s[i].other_coin
                    &&& w.desired_percentage == s[i].desired_percentage
                    &&& w.wrapper == s[i].wrapper
                    &&& w.protocol_token == s[i].protocol_token
                    &&& w.needed_morpher_data == s[i].needed_morpher_data
                }
        }),
    decreases names.len(),
{
    if names.len() > 0 {
        lemma_revalue_one_step(s, oracle_present, names.first(), reported.first(), prices);
        let step = revalue_one(s, oracle_present, names.first(), reported.first(), prices);
        let s1 = step->Ok_0;
        let i = index_of_name(s, names.first()@);
        assert forall|k: int| 0 <= k < s.len() implies {
            let w = #[trigger] s1[k];
            &&& w.name@ == s[k].name@
            &&& w.coin == s[k].coin
            &&& w.other_coin == s[k].other_coin
            &&& w.desired_percentage == s[k].desired_percentage
            &&& w.wrapper == s[k].wrapper
            &&& w.protocol_token == s[k].protocol_token
            &&& w.needed_morpher_data == s[k].needed_morpher_data
        } by {
            if k != i {
                assert(s1[k] == s[k]);
            } else {
                assert(s1[i] == (DefiProtocol { value: s1[i].value, ..s[i] }));
            }
        }
        lemma_revalue_shape(s1, oracle_present, names.drop_first(), reported.drop_first(), prices);
        let t = apply_revaluations(s, oracle_present, names, reported, prices)->Ok_0;
        assert forall|k: int| 0 <= k < s.len() implies {
            let w = #[trigger] t[k];
            &&& w.name@ == s[k].name@
            &&& w.coin == s[k].coin
            &&& w.other_coin == s[k].other_coin
            &&& w.desired_percentage == s[k].desired_percentage
            &&& w.wrapper == s[k].wrapper
            &&& w.protocol_token == s[k].protocol_token
            &&& w.needed_morpher_data == s[k].needed_morpher_data
        } by {
            assert(t[k].name@ == s1[k].name@ && t[k].coin == s1[k].coin && t[k].other_coin == s1[
                k
            ].other_coin && t[k].desired_percentage == s1[k].desired_percentage && t[k].wrapper
                == s1[k].wrapper && t[k].protocol_token == s1[k].protocol_token && t[
                k
            ].needed_morpher_data == s1[k].needed_morpher_data);
        }
    }
}

/// Two registries with pointwise equal names agree on every name lookup.
pub proof fn lemma_index_of_name_from_names(
    a: Seq<DefiProtocol>,
    b: Seq<DefiProtocol>,
    name: Seq<char>,
)
    requires
        a.len() == b.len(),
        forall|i: int| 0 <= i < a.len() ==> #[trigger] a[i].name@ == b[i].name@,
    ensures
        index_of_name(a, name) == index_of_name(b, name),
    decreases a.len(),
{
    if a.len() > 0 {
        assert forall|i: int| 0 <= i < a.drop_first().len() implies #[trigger] a.drop_first()[
            i
        ].name@ == b.drop_first()[i].name@ by {
            assert(a[i + 1].name@ == b[i + 1].name@);
        }
        lemma_index_of_name_from_names(a.drop_first(), b.drop_first(), name);
    }
}

/// A successful batched revaluation over names that avoid the entry at
/// `idx` leaves that entry untouched.
pub proof fn lemma_revalue_untouched(
    s: Seq<DefiProtocol>,
    oracle_present: bool,
    names: Seq<String>,
    reported: Seq<(Amount, Option<Amount>)>,
    prices: Seq<(u64, Amount)>,
    idx: int,
)
    requires
        names.len() == reported.len(),
        apply_revaluations(s, oracle_present, names, reported, prices) is Ok,
        0 <= idx < s.len(),
        forall|j: int| 0 <= j < names.len() ==> (#[trigger] names[j])@ != s[idx].name@,
    ensures
        apply_revaluations(s, oracle_present, names, reported, prices)->Ok_0[idx] == s[idx],
    decreases names.len(),
{
    if names.len() > 0 {
        lemma_revalue_one_step(s, oracle_present, names.first(), reported.first(), prices);
        let step = revalue_one(s, oracle_present, names.first(), reported.first(), prices);
        let s1 = step->Ok_0;
        let i = index_of_name(s, names.first()@);
        lemma_index_of_name(s, names.first()@);
        assert(names[0]@ != s[idx].name@);
        assert(s[i].name@ == names.first()@);
        assert(i != idx);
        assert(s1[idx] == s[idx]);
        assert forall|j: int| 0 <= j < names.drop_first().len() implies (#[trigger] names.drop_first()[
            j
        ])@ != s1[idx].name@ by {
            assert(names[j + 1]@ != s[idx].name@);
        }
        lemma_revalue_untouched(
            s1,
            oracle_present,
            names.drop_first(),
            reported.drop_first(),
            prices,
            idx,
        );
    }
}

/// A successful non-empty batched revaluation leaves the value sum within
/// the representable range.
pub proof fn lemma_revalue_sum_bounded(
    s: Seq<DefiProtocol>,
    oracle_present: bool,
    names: Seq<String>,
    reported: Seq<(Amount, Option<Amount>)>,
    prices: Seq<(u64, Amount)>,
)
    requires
        names.len() == reported.len(),
        names.len() > 0,
        apply_revaluations(s, oracle_present, names, reported, prices) is Ok,
    ensures
        sum_of_values(apply_revaluations(s, oracle_present, names, reported, prices)->Ok_0)
            <= i128::MAX,
    decreases names.len(),
{
    let step = revalue_one(s, oracle_present, names.first(), reported.first(), prices);
    let s1 = step->Ok_0;
    if names.len() > 1 {
        lemma_revalue_sum_bounded(
            s1,
            oracle_present,
            names.drop_first(),
            reported.drop_first(),
            prices,
        );
    } else {
        assert(apply_revaluations(
            s1,
            oracle_present,
            names.drop_first(),
            reported.drop_first(),
            prices,
        ) == Ok::<_, crate::errors::FundError>(s1));
    }
}

/// Re-pricing the positions twice from the same adapter reports and the
/// same price table is the same as re-pricing them once: with unchanged
/// external observations, a second `update_defi_protocols_value` call
/// changes neither the registry nor, therefore, the fund's total value.
pub proof fn lemma_revaluation_idempotent(
    s: Seq<DefiProtocol>,
    oracle_present: bool,
    names: Seq<String>,
    reported: Seq<(Amount, Option<Amount>)>,
    prices: Seq<(u64, Amount)>,
)
    requires
        names.len() == reported.len(),
        forall|i: int, j: int|
            0 <= i < names.len() && 0 <= j < names.len() && i != j ==> (#[trigger] names[i])@ != (
            #[trigger] names[j])@,
        apply_revaluations(s, oracle_present, names, reported, prices) is Ok,
    ensures
        ({
            let t = apply_revaluations(s, oracle_present, names, reported, prices)->Ok_0;
            apply_revaluations(t, oracle_present, names, reported, prices) == Ok::<
                _,
                crate::errors::FundError,
            >(t)
        }),
    decreases names.len(),
{
    if names.len() == 0 {
    } else {
        let n0 = names.first();
        let a0 = reported.first();
        let step = revalue_one(s, oracle_present, n0, a0, prices);
        let s1 = step->Ok_0;
        let rest_names = names.drop_first();
        let rest_reported = reported.drop_first();
        let t = apply_revaluations(s1, oracle_present, rest_names, rest_reported, prices);
        let tv = t->Ok_0;
        assert forall|i: int, j: int|
            0 <= i < rest_names.len() && 0 <= j < rest_names.len() && i != j implies (
        #[trigger] rest_names[i])@ != (#[trigger] rest_names[j])@ by {
            assert(names[i + 1]@ != names[j + 1]@);
        }
        lemma_revaluation_idempotent(
            s1,
            oracle_present,
            rest_names,
            rest_reported,
            prices,
        );
        // The entry revalued by the first step keeps its value through the
        // rest of the batch, and a repeated first step therefore rewrites
        // the same value and changes nothing.
        lemma_revalue_one_step(s, oracle_present, n0, a0, prices);
        let i = index_of_name(s, n0@);
        lemma_index_of_name(s, n0@);
        lemma_revalue_shape(s1, oracle_present, rest_names, rest_reported, prices);
        assert forall|j: int| 0 <= j < rest_names.len() implies (#[trigger] rest_names[j])@ != s1[
            i
        ].name@ by {
            assert(names[j + 1]@ != names[0]@);
            assert(s1[i].name@ == s[i].name@);
        }
        lemma_revalue_untouched(s1, oracle_present, rest_names, rest_reported, prices, i);
        assert(tv[i] == s1[i]);
        assert forall|k: int|
            0 <= k < s.len() implies (#[trigger] tv[k]).name@ == s[k].name@ && tv[k].coin == s[
            k
        ].coin && tv[k].other_coin == s[k].other_coin by {
            assert(s1[k].name@ == s[k].name@ && s1[k].coin == s[k].coin && s1[k].other_coin == s[
                k
            ].other_coin);
        }
        if rest_names.len() > 0 {
            lemma_revalue_sum_bounded(s1, oracle_present, rest_names, rest_reported, prices);
        }
        lemma_revalue_one_transfer(s, tv, oracle_present, n0, a0, prices);
        assert(apply_revaluations(tv, oracle_present, names, reported, prices)
            == apply_revaluations(tv, oracle_present, rest_names, rest_reported, prices));
    }
}

} // verus!
