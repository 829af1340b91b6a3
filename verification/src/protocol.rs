//! The position registry: named external yield positions.
//!
//! Each position is managed through an opaque adapter component and carries
//! a cached USD value and a desired allocation weight.  The registry is an
//! ordered list with unique names, bounded by
//! [`crate::authorization::MAX_VECTOR_SIZE`], and the fund's `total_value`
//! is kept equal to the sum of the cached position values.

use vstd::prelude::*;
use crate::amount::Amount;

verus! {

/// One external yield position of the fund.
#[derive(Debug)]
pub struct DefiProtocol {
    /// Unique name of the position.
    pub name: String,
    /// Cached USD value of the position.
    pub value: Amount,
    /// Desired share of the fund's total value, 0..=100.
    pub desired_percentage: u8,
    /// Opaque handle of the adapter component managing the position.
    pub wrapper: u64,
    /// Resource handle of the main asset the position manages.
    pub coin: u64,
    /// Resource handle of the position-receipt asset.
    pub protocol_token: u64,
    /// Resource whose external price proof the adapter requires, if any.
    pub needed_morpher_data: Option<u64>,
    /// Resource handle of the second managed asset, for two-asset positions.
    pub other_coin: Option<u64>,
}

impl DefiProtocol {
    /// An equal copy of the entry.
    pub fn duplicate(&self) -> (r: DefiProtocol)
        ensures
            r == *self,
    {
        DefiProtocol {
            name: self.name.clone(),
            value: self.value,
            desired_percentage: self.desired_percentage,
            wrapper: self.wrapper,
            coin: self.coin,
            protocol_token: self.protocol_token,
            needed_morpher_data: self.needed_morpher_data,
            other_coin: self.other_coin,
        }
    }
}

/// The sum of the cached values of the positions, in subunits.
pub open spec fn sum_of_values(s: Seq<DefiProtocol>) -> int
    decreases s.len(),
{
    if s.len() == 0 {
        0
    } else {
        sum_of_values(s.drop_last()) + s.last().value.subunits
    }
}

/// Whether no two positions carry the same name.
pub open spec fn names_distinct(s: Seq<DefiProtocol>) -> bool {
    forall|i: int, j: int|
        0 <= i < s.len() && 0 <= j < s.len() && i != j ==> s[i].name@ != s[j].name@
}

/// Whether some position carries the given name.
pub open spec fn contains_name(s: Seq<DefiProtocol>, name: Seq<char>) -> bool {
    exists|i: int| 0 <= i < s.len() && s[i].name@ == name
}

/// The index of the first position with the given name, or `-1`.
pub open spec fn index_of_name(s: Seq<DefiProtocol>, name: Seq<char>) -> int
    decreases s.len(),
{
    if s.len() == 0 {
        -1
    } else if s.first().name@ == name {
        0
    } else {
        let r = index_of_name(s.drop_first(), name);
        if r < 0 {
            -1
        } else {
            r + 1
        }
    }
}

/// What `index_of_name` returns: the first index carrying the name, or `-1`
/// when the name is absent.
pub proof fn lemma_index_of_name(s: Seq<DefiProtocol>, name: Seq<char>)
    ensures
        contains_name(s, name) ==> {
            let r = index_of_name(s, name);
            &&& 0 <= r < s.len()
            &&& s[r].name@ == name
            &&& forall|j: int| 0 <= j < r ==> s[j].name@ != name
        },
        !contains_name(s, name) ==> index_of_name(s, name) == -1,
    decreases s.len(),
{
    if s.len() > 0 {
        let t = s.drop_first();
        lemma_index_of_name(t, name);
        assert(forall|i: int| 0 <= i < t.len() ==> #[trigger] t[i] == s[i + 1]);
        if s.first().name@ == name {
            assert(contains_name(s, name));
        } else {
            if contains_name(s, name) {
                let w = choose|i: int| 0 <= i < s.len() && s[i].name@ == name;
                assert(t[w - 1].name@ == name);
                assert(contains_name(t, name));
                let r = index_of_name(t, name);
                assert(index_of_name(s, name) == r + 1);
                assert(s[r + 1].name@ == name);
                assert forall|j: int| 0 <= j < r + 1 implies s[j].name@ != name by {
                    if j > 0 {
                        assert(t[j - 1].name@ != name);
                    }
                }
            } else {
                if contains_name(t, name) {
                    let w = choose|i: int| 0 <= i < t.len() && t[i].name@ == name;
                    assert(s[w + 1].name@ == name);
                }
            }
        }
    }
}

/// Appending a position adds its value to the sum.
pub proof fn lemma_sum_push(s: Seq<DefiProtocol>, e: DefiProtocol)
    ensures
        sum_of_values(s.push(e)) == sum_of_values(s) + e.value.subunits,
{
    assert(s.push(e).drop_last() =~= s);
    assert(s.push(e).last() == e);
}

/// Replacing the position at `i` shifts the sum by the value difference.
pub proof fn lemma_sum_update(s: Seq<DefiProtocol>, i: int, e: DefiProtocol)
    requires
        0 <= i < s.len(),
    ensures
        sum_of_values(s.update(i, e)) == sum_of_values(s) - s[i].value.subunits
            + e.value.subunits,
    decreases s.len(),
{
    if i == s.len() - 1 {
        assert(s.update(i, e).drop_last() =~= s.drop_last());
        assert(s.update(i, e).last() == e);
    } else {
        lemma_sum_update(s.drop_last(), i, e);
        assert(s.update(i, e).drop_last() =~= s.drop_last().update(i, e));
        assert(s.update(i, e).last() == s.last());
    }
}

/// Removing the position at `i` subtracts its value from the sum.
pub proof fn lemma_sum_remove(s: Seq<DefiProtocol>, i: int)
    requires
        0 <= i < s.len(),
    ensures
        sum_of_values(s.remove(i)) == sum_of_values(s) - s[i].value.subunits,
    decreases s.len(),
{
    if i == s.len() - 1 {
        assert(s.remove(i) =~= s.drop_last());
    } else {
        lemma_sum_remove(s.drop_last(), i);
        assert(s.remove(i).drop_last() =~= s.drop_last().remove(i));
        assert(s.remove(i).last() == s.last());
    }
}

/// Two registries of the same length with pointwise equal values have the
/// same value sum.
pub proof fn lemma_sum_values_from_pointwise(a: Seq<DefiProtocol>, b: Seq<DefiProtocol>)
    requires
        a.len() == b.len(),
        forall|i: int| 0 <= i < a.len() ==> #[trigger] a[i].value == b[i].value,
    ensures
        sum_of_values(a) == sum_of_values(b),
    decreases a.len(),
{
    if a.len() > 0 {
        assert forall|i: int| 0 <= i < a.drop_last().len() implies #[trigger] a.drop_last()[i].value
            == b.drop_last()[i].value by {
            assert(a[i].value == b[i].value);
        }
        lemma_sum_values_from_pointwise(a.drop_last(), b.drop_last());
        assert(a.last().value == b.last().value);
    }
}

/// With non-negative position values the sum is non-negative, and each
/// value is at most the sum.
pub proof fn lemma_sum_bounds(s: Seq<DefiProtocol>)
    requires
        forall|i: int| 0 <= i < s.len() ==> #[trigger] s[i].value.subunits >= 0,
    ensures
        sum_of_values(s) >= 0,
        forall|i: int| 0 <= i < s.len() ==> #[trigger] s[i].value.subunits <= sum_of_values(s),
    decreases s.len(),
{
    if s.len() > 0 {
        assert forall|i: int| 0 <= i < s.drop_last().len() implies #[trigger] s.drop_last()[i].value.subunits
            >= 0 by {}
        lemma_sum_bounds(s.drop_last());
        assert forall|i: int| 0 <= i < s.len() implies #[trigger] s[i].value.subunits
            <= sum_of_values(s) by {
            if i < s.len() - 1 {
                assert(s.drop_last()[i] == s[i]);
            }
        }
    }
}

/// The index of the first position with the given name, if any.
pub fn find_protocol(v: &Vec<DefiProtocol>, name: &String) -> (r: Option<usize>)
    ensures
        r matches Some(i) ==> i == index_of_name(v@, name@) && i < v@.len() && v@[
            i as int
        ].name@ == name@,
        r is None ==> !contains_name(v@, name@) && index_of_name(v@, name@) == -1,
{
    proof {
        lemma_index_of_name(v@, name@);
    }
    let mut i: usize = 0;
    while i < v.len()
        invariant
            i <= v@.len(),
            forall|j: int| 0 <= j < i ==> v@[j].name@ != name@,
        decreases v@.len() - i,
    {
        if v[i].name.eq(name) {
            proof {
                assert(contains_name(v@, name@));
                lemma_index_of_name(v@, name@);
                let r0 = index_of_name(v@, name@);
                if r0 < i as int {
                    assert(v@[r0].name@ != name@);
                } else if r0 > i as int {
                    assert(v@[i as int].name@ != name@);
                }
            }
            return Some(i);
        }
        i = i + 1;
    }
    proof {
        if contains_name(v@, name@) {
            let w = choose|j: int| 0 <= j < v@.len() && v@[j].name@ == name@;
        }
    }
    None
}

} // verus!
