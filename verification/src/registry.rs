//! Registry operations: adding, replacing and removing positions, and
//! setting their desired allocation weights.

use vstd::prelude::*;
use crate::amount::Amount;
use crate::authorization::{AuthorizedOperation, AUTHORIZATION_TIMEOUT, opt_name, purged, consumed};
use crate::errors::FundError;
use crate::fund::FundManager;
use crate::protocol::{
    DefiProtocol, sum_of_values, names_distinct, contains_name, index_of_name, find_protocol,
    lemma_index_of_name, lemma_sum_push, lemma_sum_update, lemma_sum_remove, lemma_sum_bounds,
};

verus! {

/// The desired-weight updates applied in order: each entry must name an
/// existing position and carry a weight of at most 100, or the whole call
/// fails with the first offending entry's error.
pub open spec fn apply_percentage_updates(
    s: Seq<DefiProtocol>,
    updates: Seq<(String, u8)>,
) -> Result<Seq<DefiProtocol>, FundError>
    decreases updates.len(),
{
    if updates.len() == 0 {
        Ok(s)
    } else if updates.first().1 > 100 {
        Err(FundError::PercentageOutOfRange)
    } else {
        let i = index_of_name(s, updates.first().0@);
        if i < 0 {
            Err(FundError::ProtocolNotFound)
        } else {
            let entry = DefiProtocol { desired_percentage: updates.first().1, ..s[i] };
            apply_percentage_updates(s.update(i, entry), updates.drop_first())
        }
    }
}

impl FundManager {
    /// The list of position names and their cached USD values, in registry
    /// order.
    pub fn fund_details(&self) -> (r: Vec<(String, Amount)>)
        ensures
            r@.len() == self.defi_protocols@.len(),
            forall|i: int|
                0 <= i < r@.len() ==> (#[trigger] r@[i]).0@ == self.defi_protocols@[i].name@ && r@[
                    i
                ].1 == self.defi_protocols@[i].value,
    {
        let mut r: Vec<(String, Amount)> = Vec::new();
        let mut i: usize = 0;
        while i < self.defi_protocols.len()
            invariant
                i <= self.defi_protocols@.len(),
                r@.len() == i,
                forall|k: int|
                    0 <= k < i ==> (#[trigger] r@[k]).0@ == self.defi_protocols@[k].name@ && r@[
                        k
                    ].1 == self.defi_protocols@[k].value,
            decreases self.defi_protocols@.len() - i,
        {
            r.push((self.defi_protocols[i].name.clone(), self.defi_protocols[i].value));
            i = i + 1;
        }
        r
    }

    /// Why `add_defi_protocol` would fail, if it would.
    pub open spec fn add_defi_protocol_error(
        f: FundManager,
        admin_id: u8,
        name: Seq<char>,
        desired_percentage: u8,
        now: i64,
    ) -> Option<FundError> {
        let auth = Self::check_auth_error(
            f,
            admin_id,
            AuthorizedOperation::AddDefiProtocol,
            Some(name),
            None,
            None,
            now,
        );
        if auth is Some {
            auth
        } else if desired_percentage > 100 {
            Some(FundError::PercentageOutOfRange)
        } else if !contains_name(f.defi_protocols@, name) && f.defi_protocols@.len()
            >= crate::authorization::MAX_VECTOR_SIZE {
            Some(FundError::ProtocolListFull)
        } else {
            None
        }
    }

    /// Registers a position under `name`, or replaces the adapter of an
    /// existing position of that name.  Requires a quorum that agreed on
    /// the name.  On a replacement the cached value carries over unchanged
    /// and the old adapter's handle is returned so the runtime can migrate
    /// all assets from it into the new adapter; on a fresh registration the
    /// value starts at zero.
    pub fn add_defi_protocol(
        &mut self,
        admin_id: u8,
        name: String,
        coin: u64,
        protocol_token: u64,
        other_coin: Option<u64>,
        desired_percentage: u8,
        wrapper: u64,
        needed_morpher_data: Option<u64>,
        now: i64,
    ) -> (r: Result<Option<u64>, FundError>)
        requires
            old(self).wf(),
            0 <= now <= i64::MAX - AUTHORIZATION_TIMEOUT,
        ensures
            final(self).wf(),
            match r {
                Ok(old_wrapper) => {
                    &&& Self::add_defi_protocol_error(
                        *old(self),
                        admin_id,
                        name@,
                        desired_percentage,
                        now,
                    ) is None
                    &&& {
                        let s = old(self).defi_protocols@;
                        let entry = (DefiProtocol {
                            name: name,
                            value: Amount { subunits: 0 },
                            desired_percentage,
                            wrapper,
                            coin,
                            protocol_token,
                            needed_morpher_data,
                            other_coin,
                        });
                        if contains_name(s, name@) {
                            let i = index_of_name(s, name@);
                            &&& old_wrapper == Some(s[i].wrapper)
                            &&& final(self).defi_protocols@ == s.update(
                                i,
                                (DefiProtocol { value: s[i].value, ..entry }),
                            )
                        } else {
                            &&& old_wrapper is None
                            &&& final(self).defi_protocols@ == s.push(entry)
                        }
                    }
                    &&& final(self).total_value == old(self).total_value
                    &&& final(self).authorization_vector@ == consumed(
                        purged(old(self).authorization_vector@, now),
                        admin_id,
                        AuthorizedOperation::AddDefiProtocol,
                        Some(name@),
                        None,
                    )
                    &&& Self::same_admin_state(*final(self), *old(self))
                    &&& Self::same_units(*final(self), *old(self))
                    &&& Self::same_config(*final(self), *old(self))
                    &&& Self::same_custody(*final(self), *old(self))
                },
                Err(e) => {
                    &&& *final(self) == *old(self)
                    &&& Some(e) == Self::add_defi_protocol_error(
                        *old(self),
                        admin_id,
                        name@,
                        desired_percentage,
                        now,
                    )
                },
            },
    {
        let key = Some(name.clone());
        match self.authorization_granted(
            admin_id,
            AuthorizedOperation::AddDefiProtocol,
            &key,
            None,
            None,
            now,
        ) {
            Some(e) => {
                return Err(e);
            },
            None => {},
        }
        if desired_percentage > 100 {
            return Err(FundError::PercentageOutOfRange);
        }
        let existing = find_protocol(&self.defi_protocols, &name);
        if existing.is_none() && self.defi_protocols.len() >= crate::authorization::MAX_VECTOR_SIZE {
            return Err(FundError::ProtocolListFull);
        }
        match self.check_operation_authorization(
            admin_id,
            AuthorizedOperation::AddDefiProtocol,
            &key,
            None,
            None,
            now,
        ) {
            Ok(_) => {},
            Err(e) => {
                return Err(e);
            },
        }
        let ghost s0 = self.defi_protocols@;
        match existing {
            Some(i) => {
                let old_wrapper = self.defi_protocols[i].wrapper;
                let carried = self.defi_protocols[i].value;
                let entry = DefiProtocol {
                    name,
                    value: carried,
                    desired_percentage,
                    wrapper,
                    coin,
                    protocol_token,
                    needed_morpher_data,
                    other_coin,
                };
                proof {
                    lemma_sum_update(s0, i as int, entry);
                    assert forall|a: int, b: int|
                        0 <= a < s0.update(i as int, entry).len() && 0 <= b < s0.update(
                            i as int,
                            entry,
                        ).len() && a != b implies s0.update(i as int, entry)[a].name@ != s0.update(
                        i as int,
                        entry,
                    )[b].name@ by {
                        assert(s0[i as int].name@ == entry.name@);
                    }
                }
                self.defi_protocols[i] = entry;
                Ok(Some(old_wrapper))
            },
            None => {
                let entry = DefiProtocol {
                    name,
                    value: Amount::zero(),
                    desired_percentage,
                    wrapper,
                    coin,
                    protocol_token,
                    needed_morpher_data,
                    other_coin,
                };
                proof {
                    lemma_sum_push(s0, entry);
                    assert forall|a: int, b: int|
                        0 <= a < s0.push(entry).len() && 0 <= b < s0.push(entry).len() && a
                            != b implies s0.push(entry)[a].name@ != s0.push(entry)[b].name@ by {
                        if a < s0.len() && b < s0.len() {
                        } else if a < s0.len() {
                            assert(s0.push(entry)[b] == entry);
                            assert(!contains_name(s0, entry.name@));
                        } else {
                            assert(s0.push(entry)[a] == entry);
                            assert(!contains_name(s0, entry.name@));
                        }
                    }
                }
                self.defi_protocols.push(entry);
                Ok(None)
            },
        }
    }

    /// Why `remove_defi_protocol` would fail, if it would.
    pub open spec fn remove_defi_protocol_error(
        f: FundManager,
        admin_id: u8,
        name: Seq<char>,
        now: i64,
    ) -> Option<FundError> {
        let auth = Self::check_auth_error(
            f,
            admin_id,
            AuthorizedOperation::RemoveDefiProtocol,
            Some(name),
            None,
            None,
            now,
        );
        if auth is Some {
            auth
        } else if !contains_name(f.defi_protocols@, name) {
            Some(FundError::ProtocolNotFound)
        } else {
            None
        }
    }

    /// Deletes the position named `name`, reduces the fund's total value by
    /// its cached value, and returns the removed entry so the runtime can
    /// reclaim the position's account-control credential from its adapter.
    /// Requires a quorum that agreed on the name.
    pub fn remove_defi_protocol(&mut self, admin_id: u8, name: &String, now: i64) -> (r: Result<
        DefiProtocol,
        FundError,
    >)
        requires
            old(self).wf(),
            0 <= now <= i64::MAX - AUTHORIZATION_TIMEOUT,
        ensures
            final(self).wf(),
            match r {
                Ok(entry) => {
                    &&& Self::remove_defi_protocol_error(*old(self), admin_id, name@, now) is None
                    &&& {
                        let s = old(self).defi_protocols@;
                        let i = index_of_name(s, name@);
                        &&& entry == s[i]
                        &&& final(self).defi_protocols@ == s.remove(i)
                        &&& final(self).total_value.subunits == old(self).total_value.subunits
                            - entry.value.subunits
                    }
                    &&& final(self).authorization_vector@ == consumed(
                        purged(old(self).authorization_vector@, now),
                        admin_id,
                        AuthorizedOperation::RemoveDefiProtocol,
                        Some(name@),
                        None,
                    )
                    &&& Self::same_admin_state(*final(self), *old(self))
                    &&& Self::same_units(*final(self), *old(self))
                    &&& Self::same_config(*final(self), *old(self))
                    &&& Self::same_custody(*final(self), *old(self))
                },
                Err(e) => {
                    &&& *final(self) == *old(self)
                    &&& Some(e) == Self::remove_defi_protocol_error(*old(self), admin_id, name@, now)
                },
            },
    {
        let key = Some(name.clone());
        match self.authorization_granted(
            admin_id,
            AuthorizedOperation::RemoveDefiProtocol,
            &key,
            None,
            None,
            now,
        ) {
            Some(e) => {
                return Err(e);
            },
            None => {},
        }
        let i = match find_protocol(&self.defi_protocols, name) {
            Some(i) => i,
            None => {
                return Err(FundError::ProtocolNotFound);
            },
        };
        match self.check_operation_authorization(
            admin_id,
            AuthorizedOperation::RemoveDefiProtocol,
            &key,
            None,
            None,
            now,
        ) {
            Ok(_) => {},
            Err(e) => {
                return Err(e);
            },
        }
        let ghost s0 = self.defi_protocols@;
        let entry = self.defi_protocols.remove(i);
        proof {
            lemma_sum_remove(s0, i as int);
            lemma_sum_bounds(s0);
            assert forall|a: int, b: int|
                0 <= a < s0.remove(i as int).len() && 0 <= b < s0.remove(i as int).len() && a
                    != b implies s0.remove(i as int)[a].name@ != s0.remove(i as int)[b].name@ by {
                let t = s0.remove(i as int);
                let ia: int = if a < i as int {
                    a
                } else {
                    a + 1
                };
                let ib: int = if b < i as int {
                    b
                } else {
                    b + 1
                };
                assert(t[a] == s0[ia] && t[b] == s0[ib]);
            }
        }
        let new_total = match self.total_value.checked_sub(entry.value) {
            Some(t) => t,
            None => {
                proof {
                    assert(false);
                }
                Amount::zero()
            },
        };
        self.total_value = new_total;
        Ok(entry)
    }

    /// Sets the desired allocation weight of each named position.  Single
    /// bot operation, no quorum; moves no funds.  Either every update
    /// applies or none does.
    #[verifier::loop_isolation(false)]
    pub fn set_defi_protocols_percentage(&mut self, updates: &Vec<(String, u8)>) -> (r: Result<
        (),
        FundError,
    >)
        requires
            old(self).wf(),
        ensures
            final(self).wf(),
            match r {
                Ok(_) => {
                    &&& apply_percentage_updates(old(self).defi_protocols@, updates@) == Ok::<
                        _,
                        FundError,
                    >(final(self).defi_protocols@)
                    &&& final(self).total_value == old(self).total_value
                    &&& Self::same_admin_state(*final(self), *old(self))
                    &&& Self::same_auths(*final(self), *old(self))
                    &&& Self::same_units(*final(self), *old(self))
                    &&& Self::same_config(*final(self), *old(self))
                    &&& Self::same_custody(*final(self), *old(self))
                },
                Err(e) => {
                    &&& *final(self) == *old(self)
                    &&& apply_percentage_updates(old(self).defi_protocols@, updates@) == Err::<
                        Seq<DefiProtocol>,
                        _,
                    >(e)
                },
            },
    {
        let ghost s0 = self.defi_protocols@;
        let mut work: Vec<DefiProtocol> = Vec::new();
        let mut i: usize = 0;
        while i < self.defi_protocols.len()
            invariant
                i <= self.defi_protocols@.len(),
                work@ =~= self.defi_protocols@.subrange(0, i as int),
            decreases self.defi_protocols@.len() - i,
        {
            work.push(self.defi_protocols[i].duplicate());
            i = i + 1;
        }
        proof {
            assert(work@ =~= s0);
            assert(updates@.skip(0) =~= updates@);
        }
        let mut j: usize = 0;
        while j < updates.len()
            invariant
                j <= updates@.len(),
                apply_percentage_updates(s0, updates@) == apply_percentage_updates(
                    work@,
                    updates@.skip(j as int),
                ),
                work@.len() == s0.len(),
                forall|k: int|
                    0 <= k < s0.len() ==> {
                        let w = #[trigger] work@[k];
                        &&& w.name@ == s0[k].name@
                        &&& w.value == s0[k].value
                        &&& w.coin == s0[k].coin
                        &&& w.desired_percentage <= 100
                    },
                names_distinct(work@),
            decreases updates@.len() - j,
        {
            proof {
                assert(updates@.skip(j as int).first() == updates@[j as int]);
                assert(updates@.skip(j as int).drop_first() =~= updates@.skip(j as int + 1));
            }
            let pct = updates[j].1;
            if pct > 100 {
                proof {
                    assert(apply_percentage_updates(work@, updates@.skip(j as int)) == Err::<
                        Seq<DefiProtocol>,
                        FundError,
                    >(FundError::PercentageOutOfRange));
                }
                return Err(FundError::PercentageOutOfRange);
            }
            let idx = match find_protocol(&work, &updates[j].0) {
                Some(idx) => idx,
                None => {
                    proof {
                        assert(apply_percentage_updates(work@, updates@.skip(j as int)) == Err::<
                            Seq<DefiProtocol>,
                            FundError,
                        >(FundError::ProtocolNotFound));
                    }
                    return Err(FundError::ProtocolNotFound);
                },
            };
            let entry = DefiProtocol {
                desired_percentage: pct,
                name: work[idx].name.clone(),
                value: work[idx].value,
                wrapper: work[idx].wrapper,
                coin: work[idx].coin,
                protocol_token: work[idx].protocol_token,
                needed_morpher_data: work[idx].needed_morpher_data,
                other_coin: work[idx].other_coin,
            };
            proof {
                assert(entry == (DefiProtocol {
                    desired_percentage: pct,
                    ..work@[idx as int]
                }));
            }
            work[idx] = entry;
            j = j + 1;
        }
        proof {
            assert(updates@.skip(updates@.len() as int) =~= Seq::<(String, u8)>::empty());
            assert(apply_percentage_updates(work@, updates@.skip(updates@.len() as int)) == Ok::<
                _,
                FundError,
            >(work@));
            crate::protocol::lemma_sum_values_from_pointwise(s0, work@);
        }
        self.defi_protocols = work;
        Ok(())
    }
}

} // verus!
