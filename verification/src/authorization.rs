//! The multi-admin authorization ledger.
//!
//! An admin grants another admin the right to perform one sensitive
//! operation by appending an [`Authorization`] record.  A record expires
//! after [`AUTHORIZATION_TIMEOUT`] seconds of ledger time; expiry is
//! evaluated lazily, whenever the list is next touched, and an expired
//! record is never counted toward a quorum even while still physically
//! present.  Executing a sensitive operation consumes the matching records,
//! so a set of grants cannot be spent twice.

use vstd::prelude::*;

verus! {

/// How long an authorization lasts if not consumed, in seconds: two days.
pub const AUTHORIZATION_TIMEOUT: i64 = 172800;

/// Maximum size of the authorization list and of the position list.
pub const MAX_VECTOR_SIZE: usize = 50;

/// The sensitive operations that require a quorum of admin authorizations.
#[derive(Clone, Copy, PartialEq, Eq, Structural, Debug)]
pub enum AuthorizedOperation {
    WithdrawValidatorBadge,
    AddDefiProtocol,
    RemoveDefiProtocol,
    SetDexComponent,
    DecreaseMinAuthorizers,
    IncreaseMinAuthorizers,
    MintAdminBadge,
    SetOracleComponent,
    WithdrawFundManagerBadge,
    SetWithdrawalFee,
    MintBotBadge,
    SetBuybackFund,
}

impl AuthorizedOperation {
    /// The operation encoded by a wire byte, if any.
    pub open spec fn from_u8_spec(value: u8) -> Option<AuthorizedOperation> {
        if value == 0 {
            Some(AuthorizedOperation::WithdrawValidatorBadge)
        } else if value == 1 {
            Some(AuthorizedOperation::AddDefiProtocol)
        } else if value == 2 {
            Some(AuthorizedOperation::RemoveDefiProtocol)
        } else if value == 3 {
            Some(AuthorizedOperation::SetDexComponent)
        } else if value == 4 {
            Some(AuthorizedOperation::DecreaseMinAuthorizers)
        } else if value == 5 {
            Some(AuthorizedOperation::IncreaseMinAuthorizers)
        } else if value == 6 {
            Some(AuthorizedOperation::MintAdminBadge)
        } else if value == 7 {
            Some(AuthorizedOperation::SetOracleComponent)
        } else if value == 8 {
            Some(AuthorizedOperation::WithdrawFundManagerBadge)
        } else if value == 9 {
            Some(AuthorizedOperation::SetWithdrawalFee)
        } else if value == 10 {
            Some(AuthorizedOperation::MintBotBadge)
        } else if value == 11 {
            Some(AuthorizedOperation::SetBuybackFund)
        } else {
            None
        }
    }

    /// Decodes an operation from its wire byte; `None` for an unknown byte.
    pub fn from_u8(value: u8) -> (r: Option<AuthorizedOperation>)
        ensures
            r == Self::from_u8_spec(value),
    {
        match value {
            0 => Some(AuthorizedOperation::WithdrawValidatorBadge),
            1 => Some(AuthorizedOperation::AddDefiProtocol),
            2 => Some(AuthorizedOperation::RemoveDefiProtocol),
            3 => Some(AuthorizedOperation::SetDexComponent),
            4 => Some(AuthorizedOperation::DecreaseMinAuthorizers),
            5 => Some(AuthorizedOperation::IncreaseMinAuthorizers),
            6 => Some(AuthorizedOperation::MintAdminBadge),
            7 => Some(AuthorizedOperation::SetOracleComponent),
            8 => Some(AuthorizedOperation::WithdrawFundManagerBadge),
            9 => Some(AuthorizedOperation::SetWithdrawalFee),
            10 => Some(AuthorizedOperation::MintBotBadge),
            11 => Some(AuthorizedOperation::SetBuybackFund),
            _ => None,
        }
    }
}

/// One admin's grant to another admin to perform one sensitive operation,
/// possibly discriminated by a position name, a percentage and a target
/// account.
#[derive(Debug)]
pub struct Authorization {
    /// Ledger time at which the grant was made, in seconds.
    pub timestamp: i64,
    /// The admin that granted the authorization.
    pub allower_admin_id: u8,
    /// The admin allowed to perform the operation.
    pub allowed_admin_id: u8,
    pub authorized_operation: AuthorizedOperation,
    pub protocol_name: Option<String>,
    pub percentage: Option<u8>,
    pub account_address: Option<u64>,
}

/// The view of an optional name as an optional character sequence.
pub open spec fn opt_name(o: Option<String>) -> Option<Seq<char>> {
    match o {
        Some(s) => Some(s@),
        None => None,
    }
}

/// Whether a record is still valid at ledger time `now`.
pub open spec fn is_live(a: Authorization, now: i64) -> bool {
    a.timestamp + AUTHORIZATION_TIMEOUT > now
}

/// Whether a record grants `allowed` the operation with exactly these
/// discriminating parameters.
pub open spec fn matches_grant(
    a: Authorization,
    allowed: u8,
    op: AuthorizedOperation,
    name: Option<Seq<char>>,
    pct: Option<u8>,
    acct: Option<u64>,
) -> bool {
    &&& a.allowed_admin_id == allowed
    &&& a.authorized_operation == op
    &&& opt_name(a.protocol_name) == name
    &&& a.percentage == pct
    &&& a.account_address == acct
}

/// The key on which executing an operation consumes pending grants: the
/// allowed admin, the operation, the position name and the target account.
/// The percentage parameter deliberately does not discriminate here, so
/// grants differing only in it are spent together.
pub open spec fn matches_consume(
    a: Authorization,
    allowed: u8,
    op: AuthorizedOperation,
    name: Option<Seq<char>>,
    acct: Option<u64>,
) -> bool {
    &&& a.allowed_admin_id == allowed
    &&& a.authorized_operation == op
    &&& opt_name(a.protocol_name) == name
    &&& a.account_address == acct
}

/// Whether two records are the same grant, timestamps aside.
pub open spec fn same_request(a: Authorization, b: Authorization) -> bool {
    &&& a.allower_admin_id == b.allower_admin_id
    &&& a.allowed_admin_id == b.allowed_admin_id
    &&& a.authorized_operation == b.authorized_operation
    &&& opt_name(a.protocol_name) == opt_name(b.protocol_name)
    &&& a.percentage == b.percentage
    &&& a.account_address == b.account_address
}

/// The list with every expired record removed.
pub open spec fn purged(s: Seq<Authorization>, now: i64) -> Seq<Authorization>
    decreases s.len(),
{
    if s.len() == 0 {
        Seq::empty()
    } else if is_live(s.last(), now) {
        purged(s.drop_last(), now).push(s.last())
    } else {
        purged(s.drop_last(), now)
    }
}

/// How many live records grant `allowed` the operation with these
/// parameters.  Expired records contribute nothing, present or not.
pub open spec fn count_matching(
    s: Seq<Authorization>,
    now: i64,
    allowed: u8,
    op: AuthorizedOperation,
    name: Option<Seq<char>>,
    pct: Option<u8>,
    acct: Option<u64>,
) -> int
    decreases s.len(),
{
    if s.len() == 0 {
        0
    } else {
        count_matching(s.drop_last(), now, allowed, op, name, pct, acct) + if is_live(
            s.last(),
            now,
        ) && matches_grant(s.last(), allowed, op, name, pct, acct) {
            1int
        } else {
            0int
        }
    }
}

/// The list with every record on the consumption key removed.
pub open spec fn consumed(
    s: Seq<Authorization>,
    allowed: u8,
    op: AuthorizedOperation,
    name: Option<Seq<char>>,
    acct: Option<u64>,
) -> Seq<Authorization>
    decreases s.len(),
{
    if s.len() == 0 {
        Seq::empty()
    } else if matches_consume(s.last(), allowed, op, name, acct) {
        consumed(s.drop_last(), allowed, op, name, acct)
    } else {
        consumed(s.drop_last(), allowed, op, name, acct).push(s.last())
    }
}

/// Whether some record in the list is the same grant as `rec`.
pub open spec fn has_same_request(s: Seq<Authorization>, rec: Authorization) -> bool {
    exists|i: int| 0 <= i < s.len() && same_request(s[i], rec)
}

/// Whether no two records in the list are the same grant.
pub open spec fn pairwise_distinct(s: Seq<Authorization>) -> bool {
    forall|i: int, j: int|
        0 <= i < s.len() && 0 <= j < s.len() && i != j ==> !same_request(s[i], s[j])
}

/// Every record of the purged list is a record of the original list.
pub proof fn lemma_purged_membership(s: Seq<Authorization>, now: i64)
    ensures
        purged(s, now).len() <= s.len(),
        forall|i: int|
            0 <= i < purged(s, now).len() ==> exists|j: int|
                0 <= j < s.len() && #[trigger] purged(s, now)[i] == s[j],
    decreases s.len(),
{
    if s.len() > 0 {
        lemma_purged_membership(s.drop_last(), now);
        assert forall|i: int| 0 <= i < purged(s, now).len() implies exists|j: int|
            0 <= j < s.len() && #[trigger] purged(s, now)[i] == s[j] by {
            let p = purged(s.drop_last(), now);
            if i < p.len() {
                let j = choose|j: int| 0 <= j < s.drop_last().len() && p[i] == s.drop_last()[j];
                assert(purged(s, now)[i] == s[j]);
            } else {
                assert(purged(s, now)[i] == s[s.len() - 1]);
            }
        }
    }
}

/// Every record of the consumed list is a record of the original list.
pub proof fn lemma_consumed_membership(
    s: Seq<Authorization>,
    allowed: u8,
    op: AuthorizedOperation,
    name: Option<Seq<char>>,
    acct: Option<u64>,
)
    ensures
        consumed(s, allowed, op, name, acct).len() <= s.len(),
        forall|i: int|
            0 <= i < consumed(s, allowed, op, name, acct).len() ==> exists|j: int|
                0 <= j < s.len() && #[trigger] consumed(s, allowed, op, name, acct)[i] == s[j],
    decreases s.len(),
{
    if s.len() > 0 {
        lemma_consumed_membership(s.drop_last(), allowed, op, name, acct);
        let c = consumed(s.drop_last(), allowed, op, name, acct);
        assert forall|i: int| 0 <= i < consumed(s, allowed, op, name, acct).len() implies exists|
            j: int,
        | 0 <= j < s.len() && #[trigger] consumed(s, allowed, op, name, acct)[i] == s[j] by {
            if i < c.len() {
                let j = choose|j: int| 0 <= j < s.drop_last().len() && c[i] == s.drop_last()[j];
                assert(consumed(s, allowed, op, name, acct)[i] == s[j]);
            } else {
                assert(consumed(s, allowed, op, name, acct)[i] == s[s.len() - 1]);
            }
        }
    }
}

/// Purging counts nothing away: a quorum count over the purged list equals
/// the count over the full list, because expired records never counted.
pub proof fn lemma_count_purged(
    s: Seq<Authorization>,
    now: i64,
    allowed: u8,
    op: AuthorizedOperation,
    name: Option<Seq<char>>,
    pct: Option<u8>,
    acct: Option<u64>,
)
    ensures
        count_matching(purged(s, now), now, allowed, op, name, pct, acct) == count_matching(
            s,
            now,
            allowed,
            op,
            name,
            pct,
            acct,
        ),
    decreases s.len(),
{
    if s.len() > 0 {
        lemma_count_purged(s.drop_last(), now, allowed, op, name, pct, acct);
        if is_live(s.last(), now) {
            assert(purged(s, now).drop_last() == purged(s.drop_last(), now));
            assert(purged(s, now).last() == s.last());
        }
    }
}

/// A list of pairwise-distinct grants stays pairwise distinct after
/// purging.
pub proof fn lemma_purged_distinct(s: Seq<Authorization>, now: i64)
    requires
        pairwise_distinct(s),
    ensures
        pairwise_distinct(purged(s, now)),
    decreases s.len(),
{
    if s.len() > 0 {
        assert(pairwise_distinct(s.drop_last()));
        lemma_purged_distinct(s.drop_last(), now);
        if is_live(s.last(), now) {
            lemma_purged_membership(s.drop_last(), now);
            let p = purged(s.drop_last(), now);
            assert forall|i: int, j: int|
                0 <= i < purged(s, now).len() && 0 <= j < purged(s, now).len() && i
                    != j implies !same_request(purged(s, now)[i], purged(s, now)[j]) by {
                if i < p.len() && j < p.len() {
                } else if i < p.len() {
                    let k = choose|k: int| 0 <= k < s.drop_last().len() && p[i] == s.drop_last()[k];
                    assert(!same_request(s[k], s.last()));
                } else {
                    let k = choose|k: int| 0 <= k < s.drop_last().len() && p[j] == s.drop_last()[k];
                    assert(!same_request(s[k], s.last()));
                }
            }
        }
    }
}

/// A list of pairwise-distinct grants stays pairwise distinct after
/// consumption.
pub proof fn lemma_consumed_distinct(
    s: Seq<Authorization>,
    allowed: u8,
    op: AuthorizedOperation,
    name: Option<Seq<char>>,
    acct: Option<u64>,
)
    requires
        pairwise_distinct(s),
    ensures
        pairwise_distinct(consumed(s, allowed, op, name, acct)),
    decreases s.len(),
{
    if s.len() > 0 {
        assert(pairwise_distinct(s.drop_last()));
        lemma_consumed_distinct(s.drop_last(), allowed, op, name, acct);
        if !matches_consume(s.last(), allowed, op, name, acct) {
            lemma_consumed_membership(s.drop_last(), allowed, op, name, acct);
            let c = consumed(s.drop_last(), allowed, op, name, acct);
            let w = consumed(s, allowed, op, name, acct);
            assert forall|i: int, j: int|
                0 <= i < w.len() && 0 <= j < w.len() && i != j implies !same_request(
                w[i],
                w[j],
            ) by {
                if i < c.len() && j < c.len() {
                } else if i < c.len() {
                    let k = choose|k: int| 0 <= k < s.drop_last().len() && c[i] == s.drop_last()[k];
                    assert(!same_request(s[k], s.last()));
                } else {
                    let k = choose|k: int| 0 <= k < s.drop_last().len() && c[j] == s.drop_last()[k];
                    assert(!same_request(s[k], s.last()));
                }
            }
        }
    }
}

impl Authorization {
    /// An equal copy of the record.
    pub fn duplicate(&self) -> (r: Authorization)
        ensures
            r == *self,
    {
        Authorization {
            timestamp: self.timestamp,
            allower_admin_id: self.allower_admin_id,
            allowed_admin_id: self.allowed_admin_id,
            authorized_operation: self.authorized_operation,
            protocol_name: match &self.protocol_name {
                Some(s) => Some(s.clone()),
                None => None,
            },
            percentage: self.percentage,
            account_address: self.account_address,
        }
    }
}

/// Whether two optional names spell the same name.
pub fn opt_string_eq(a: &Option<String>, b: &Option<String>) -> (r: bool)
    ensures
        r == (opt_name(*a) == opt_name(*b)),
{
    match (a, b) {
        (Some(x), Some(y)) => x.eq(y),
        (None, None) => true,
        _ => false,
    }
}

/// Whether two optional percentages are equal.
pub fn opt_u8_eq(a: Option<u8>, b: Option<u8>) -> (r: bool)
    ensures
        r == (a == b),
{
    match (a, b) {
        (Some(x), Some(y)) => x == y,
        (None, None) => true,
        _ => false,
    }
}

/// Whether two optional account handles are equal.
pub fn opt_u64_eq(a: Option<u64>, b: Option<u64>) -> (r: bool)
    ensures
        r == (a == b),
{
    match (a, b) {
        (Some(x), Some(y)) => x == y,
        (None, None) => true,
        _ => false,
    }
}

/// Whether the record is still valid at ledger time `now`.
pub fn is_live_exec(a: &Authorization, now: i64) -> (r: bool)
    requires
        0 <= a.timestamp <= i64::MAX - AUTHORIZATION_TIMEOUT,
    ensures
        r == is_live(*a, now),
{
    a.timestamp + AUTHORIZATION_TIMEOUT > now
}

/// Whether the record grants `allowed` the operation with these parameters.
pub fn matches_grant_exec(
    a: &Authorization,
    allowed: u8,
    op: AuthorizedOperation,
    name: &Option<String>,
    pct: Option<u8>,
    acct: Option<u64>,
) -> (r: bool)
    ensures
        r == matches_grant(*a, allowed, op, opt_name(*name), pct, acct),
{
    a.allowed_admin_id == allowed && a.authorized_operation == op && opt_string_eq(
        &a.protocol_name,
        name,
    ) && opt_u8_eq(a.percentage, pct) && opt_u64_eq(a.account_address, acct)
}

/// Whether the record lies on the consumption key.
pub fn matches_consume_exec(
    a: &Authorization,
    allowed: u8,
    op: AuthorizedOperation,
    name: &Option<String>,
    acct: Option<u64>,
) -> (r: bool)
    ensures
        r == matches_consume(*a, allowed, op, opt_name(*name), acct),
{
    a.allowed_admin_id == allowed && a.authorized_operation == op && opt_string_eq(
        &a.protocol_name,
        name,
    ) && opt_u64_eq(a.account_address, acct)
}

/// Whether two records are the same grant, timestamps aside.
pub fn same_request_exec(a: &Authorization, b: &Authorization) -> (r: bool)
    ensures
        r == same_request(*a, *b),
{
    a.allower_admin_id == b.allower_admin_id && a.allowed_admin_id == b.allowed_admin_id
        && a.authorized_operation == b.authorized_operation && opt_string_eq(
        &a.protocol_name,
        &b.protocol_name,
    ) && opt_u8_eq(a.percentage, b.percentage) && opt_u64_eq(
        a.account_address,
        b.account_address,
    )
}

/// The list with every expired record removed, as a fresh vector.
pub fn filter_live(v: &Vec<Authorization>, now: i64) -> (r: Vec<Authorization>)
    requires
        forall|i: int|
            0 <= i < v@.len() ==> 0 <= #[trigger] v@[i].timestamp <= i64::MAX
                - AUTHORIZATION_TIMEOUT,
    ensures
        r@ == purged(v@, now),
{
    let mut r: Vec<Authorization> = Vec::new();
    let mut i: usize = 0;
    while i < v.len()
        invariant
            i <= v@.len(),
            forall|k: int|
                0 <= k < v@.len() ==> 0 <= #[trigger] v@[k].timestamp <= i64::MAX
                    - AUTHORIZATION_TIMEOUT,
            r@ == purged(v@.subrange(0, i as int), now),
        decreases v@.len() - i,
    {
        proof {
            assert(v@.subrange(0, i + 1).drop_last() =~= v@.subrange(0, i as int));
            assert(v@.subrange(0, i + 1).last() == v@[i as int]);
        }
        if is_live_exec(&v[i], now) {
            r.push(v[i].duplicate());
        }
        i = i + 1;
    }
    proof {
        assert(v@.subrange(0, v@.len() as int) =~= v@);
    }
    r
}

/// How many records in the list are live grants for `allowed` with these
/// parameters.
pub fn count_granted(
    v: &Vec<Authorization>,
    now: i64,
    allowed: u8,
    op: AuthorizedOperation,
    name: &Option<String>,
    pct: Option<u8>,
    acct: Option<u64>,
) -> (r: usize)
    requires
        forall|i: int|
            0 <= i < v@.len() ==> 0 <= #[trigger] v@[i].timestamp <= i64::MAX
                - AUTHORIZATION_TIMEOUT,
    ensures
        r == count_matching(v@, now, allowed, op, opt_name(*name), pct, acct),
{
    let mut r: usize = 0;
    let mut i: usize = 0;
    while i < v.len()
        invariant
            i <= v@.len(),
            forall|k: int|
                0 <= k < v@.len() ==> 0 <= #[trigger] v@[k].timestamp <= i64::MAX
                    - AUTHORIZATION_TIMEOUT,
            r <= i,
            r == count_matching(v@.subrange(0, i as int), now, allowed, op, opt_name(*name), pct, acct),
        decreases v@.len() - i,
    {
        proof {
            assert(v@.subrange(0, i + 1).drop_last() =~= v@.subrange(0, i as int));
            assert(v@.subrange(0, i + 1).last() == v@[i as int]);
        }
        if is_live_exec(&v[i], now) && matches_grant_exec(&v[i], allowed, op, name, pct, acct) {
            r = r + 1;
        }
        i = i + 1;
    }
    proof {
        assert(v@.subrange(0, v@.len() as int) =~= v@);
    }
    r
}

/// The list with every record on the consumption key removed, as a fresh
/// vector.
pub fn remove_consumed(
    v: &Vec<Authorization>,
    allowed: u8,
    op: AuthorizedOperation,
    name: &Option<String>,
    acct: Option<u64>,
) -> (r: Vec<Authorization>)
    ensures
        r@ == consumed(v@, allowed, op, opt_name(*name), acct),
{
    let mut r: Vec<Authorization> = Vec::new();
    let mut i: usize = 0;
    while i < v.len()
        invariant
            i <= v@.len(),
            r@ == consumed(v@.subrange(0, i as int), allowed, op, opt_name(*name), acct),
        decreases v@.len() - i,
    {
        proof {
            assert(v@.subrange(0, i + 1).drop_last() =~= v@.subrange(0, i as int));
            assert(v@.subrange(0, i + 1).last() == v@[i as int]);
        }
        if !matches_consume_exec(&v[i], allowed, op, name, acct) {
            r.push(v[i].duplicate());
        }
        i = i + 1;
    }
    proof {
        assert(v@.subrange(0, v@.len() as int) =~= v@);
    }
    r
}

/// Whether some record in the list is the same grant as `rec`.
pub fn contains_same_request(v: &Vec<Authorization>, rec: &Authorization) -> (r: bool)
    ensures
        r == has_same_request(v@, *rec),
{
    let mut i: usize = 0;
    while i < v.len()
        invariant
            i <= v@.len(),
            forall|k: int| 0 <= k < i ==> !same_request(v@[k], *rec),
        decreases v@.len() - i,
    {
        if same_request_exec(&v[i], rec) {
            return true;
        }
        i = i + 1;
    }
    false
}

} // verus!
