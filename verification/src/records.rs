//! Per-investor accounting for one contract.
//!
//! One record per investor, created on the first contribution and kept
//! forever as an audit trail: settlement and refund zero the amount, the
//! one-time reward sets a flag, nothing is ever deleted. The store's
//! mathematical model is the sequence of records; `sum_amounts` over it is
//! what the contract's running total is held equal to while funding lasts.

use vstd::prelude::*;

verus! {

/// The accounting for one (contract, investor) pair.
#[derive(Clone, Copy, Debug, PartialEq, Eq, Structural)]
pub struct InvestorRecord {
    /// The `contract_id` of the contract this record belongs to.
    pub contract: u64,
    /// Identity of the contributing actor.
    pub investor: u64,
    /// Cumulative principal contributed and not yet paid back.
    pub amount: u64,
    /// True once the one-time reward was issued for this investor.
    pub claimed_reward: bool,
}

/// The sum of all recorded principals.
pub open spec fn sum_amounts(s: Seq<InvestorRecord>) -> int
    decreases s.len(),
{
    if s.len() == 0 {
        0
    } else {
        sum_amounts(s.drop_last()) + s.last().amount
    }
}

/// Whether some record belongs to `investor`.
pub open spec fn has_investor(s: Seq<InvestorRecord>, investor: u64) -> bool {
    exists|i: int| 0 <= i < s.len() && s[i].investor == investor
}

/// The index of `investor`'s record; meaningful only when `has_investor`.
pub open spec fn index_of_investor(s: Seq<InvestorRecord>, investor: u64) -> int {
    choose|i: int| 0 <= i < s.len() && s[i].investor == investor
}

/// The principal recorded for `investor`; zero when there is no record.
pub open spec fn amount_of(s: Seq<InvestorRecord>, investor: u64) -> int {
    if has_investor(s, investor) {
        s[index_of_investor(s, investor)].amount as int
    } else {
        0
    }
}

/// Whether the one-time reward was issued for `investor`; false when there
/// is no record.
pub open spec fn claimed_of(s: Seq<InvestorRecord>, investor: u64) -> bool {
    if has_investor(s, investor) {
        s[index_of_investor(s, investor)].claimed_reward
    } else {
        false
    }
}

/// No two records belong to the same investor.
pub open spec fn distinct_investors(s: Seq<InvestorRecord>) -> bool {
    forall|i: int, j: int| 0 <= i < j < s.len() ==> s[i].investor != s[j].investor
}

/// Every record points back to the owning contract.
pub open spec fn records_of(s: Seq<InvestorRecord>, contract: u64) -> bool {
    forall|i: int| 0 <= i < s.len() ==> s[i].contract == contract
}

/// Well-formedness of a store serving the contract named `contract`.
pub open spec fn store_wf(s: Seq<InvestorRecord>, contract: u64) -> bool {
    distinct_investors(s) && records_of(s, contract)
}

/// Every principal is paid back (or none was ever recorded).
pub open spec fn all_settled(s: Seq<InvestorRecord>) -> bool {
    forall|i: int| 0 <= i < s.len() ==> s[i].amount == 0
}

/// The store after a contribution of `delta` by `investor`: the existing
/// record grows by `delta`, or a fresh record is appended.
pub open spec fn upsert_rec(
    s: Seq<InvestorRecord>,
    contract: u64,
    investor: u64,
    delta: u64,
) -> Seq<InvestorRecord> {
    if has_investor(s, investor) {
        let i = index_of_investor(s, investor);
        s.update(i, InvestorRecord { amount: (s[i].amount + delta) as u64, ..s[i] })
    } else {
        s.push(InvestorRecord { contract, investor, amount: delta, claimed_reward: false })
    }
}

/// The store after `investor`'s principal is paid out or refunded.
pub open spec fn zero_amount_rec(s: Seq<InvestorRecord>, investor: u64) -> Seq<InvestorRecord> {
    if has_investor(s, investor) {
        let i = index_of_investor(s, investor);
        s.update(i, InvestorRecord { amount: 0, ..s[i] })
    } else {
        s
    }
}

/// The store after the one-time reward is issued to `investor`.
pub open spec fn set_claimed_rec(s: Seq<InvestorRecord>, investor: u64) -> Seq<InvestorRecord> {
    if has_investor(s, investor) {
        let i = index_of_investor(s, investor);
        s.update(i, InvestorRecord { claimed_reward: true, ..s[i] })
    } else {
        s
    }
}

/// The recorded principals never sum below zero.
pub proof fn lemma_sum_nonneg(s: Seq<InvestorRecord>)
    ensures
        sum_amounts(s) >= 0,
    decreases s.len(),
{
    if s.len() > 0 {
        lemma_sum_nonneg(s.drop_last());
    }
}

/// One record's principal never exceeds the sum of all of them.
pub proof fn lemma_sum_elem(s: Seq<InvestorRecord>, i: int)
    requires
        0 <= i < s.len(),
    ensures
        s[i].amount <= sum_amounts(s),
    decreases s.len(),
{
    if i == s.len() - 1 {
        lemma_sum_nonneg(s.drop_last());
    } else {
        lemma_sum_elem(s.drop_last(), i);
    }
}

/// One investor's principal is at least zero and at most the sum.
pub proof fn lemma_amount_le_sum(s: Seq<InvestorRecord>, investor: u64)
    ensures
        0 <= amount_of(s, investor) <= sum_amounts(s),
{
    if has_investor(s, investor) {
        let k = index_of_investor(s, investor);
        assert(0 <= k < s.len() && s[k].investor == investor);
        lemma_sum_elem(s, k);
    } else {
        lemma_sum_nonneg(s);
    }
}

/// Replacing one record moves the sum by the difference of the amounts.
pub proof fn lemma_sum_update(s: Seq<InvestorRecord>, i: int, r: InvestorRecord)
    requires
        0 <= i < s.len(),
    ensures
        sum_amounts(s.update(i, r)) == sum_amounts(s) - s[i].amount + r.amount,
    decreases s.len(),
{
    let t = s.update(i, r);
    if i == s.len() - 1 {
        assert(t.drop_last() =~= s.drop_last());
    } else {
        assert(t.drop_last() =~= s.drop_last().update(i, r));
        assert(t.last() == s.last());
        lemma_sum_update(s.drop_last(), i, r);
    }
}

/// Appending a record adds its amount to the sum.
pub proof fn lemma_sum_push(s: Seq<InvestorRecord>, r: InvestorRecord)
    ensures
        sum_amounts(s.push(r)) == sum_amounts(s) + r.amount,
{
    assert(s.push(r).drop_last() =~= s);
    assert(s.push(r).last() == r);
}

/// One more prefix element adds its amount to the prefix sum.
pub proof fn lemma_sum_take_succ(s: Seq<InvestorRecord>, i: int)
    requires
        0 <= i < s.len(),
    ensures
        sum_amounts(s.take(i + 1)) == sum_amounts(s.take(i)) + s[i].amount,
{
    assert(s.take(i + 1).drop_last() =~= s.take(i));
    assert(s.take(i + 1).last() == s[i]);
}

/// A prefix never sums to more than the whole store.
pub proof fn lemma_sum_take_bound(s: Seq<InvestorRecord>, i: int)
    requires
        0 <= i <= s.len(),
    ensures
        sum_amounts(s.take(i)) <= sum_amounts(s),
    decreases s.len() - i,
{
    if i == s.len() {
        assert(s.take(i) =~= s);
    } else {
        lemma_sum_take_succ(s, i);
        lemma_sum_take_bound(s, i + 1);
    }
}

/// A store of settled records sums to zero, and a zero sum settles every
/// record.
pub proof fn lemma_sum_zero(s: Seq<InvestorRecord>)
    ensures
        all_settled(s) <==> sum_amounts(s) == 0,
    decreases s.len(),
{
    if s.len() > 0 {
        lemma_sum_zero(s.drop_last());
        lemma_sum_nonneg(s.drop_last());
        if sum_amounts(s) == 0 {
            assert forall|i: int| 0 <= i < s.len() implies s[i].amount == 0 by {
                if i < s.len() - 1 {
                    assert(s.drop_last()[i] == s[i]);
                }
            }
        }
        if all_settled(s) {
            assert(all_settled(s.drop_last()));
        }
    }
}

/// In a store without duplicate investors, any record of `investor` stands
/// at `index_of_investor`.
pub proof fn lemma_index_unique(s: Seq<InvestorRecord>, investor: u64, i: int)
    requires
        distinct_investors(s),
        0 <= i < s.len(),
        s[i].investor == investor,
    ensures
        has_investor(s, investor),
        index_of_investor(s, investor) == i,
        amount_of(s, investor) == s[i].amount,
        claimed_of(s, investor) == s[i].claimed_reward,
{
    assert(has_investor(s, investor));
    let j = index_of_investor(s, investor);
    assert(0 <= j < s.len() && s[j].investor == investor);
    if i < j {
        assert(s[i].investor != s[j].investor);
    } else if j < i {
        assert(s[j].investor != s[i].investor);
    }
}

/// Replacing one record by another of the same investor touches no other
/// investor's accounting.
pub proof fn lemma_update_same_investor(s: Seq<InvestorRecord>, k: int, r: InvestorRecord)
    requires
        distinct_investors(s),
        0 <= k < s.len(),
        r.investor == s[k].investor,
        r.contract == s[k].contract,
    ensures
        distinct_investors(s.update(k, r)),
        forall|c0: u64| records_of(s, c0) ==> records_of(s.update(k, r), c0),
        forall|v: u64| has_investor(s.update(k, r), v) == has_investor(s, v),
        index_of_investor(s.update(k, r), r.investor) == k,
        amount_of(s.update(k, r), r.investor) == r.amount,
        claimed_of(s.update(k, r), r.investor) == r.claimed_reward,
        forall|v: u64|
            v != r.investor ==> amount_of(s.update(k, r), v) == amount_of(s, v) && claimed_of(
                s.update(k, r),
                v,
            ) == claimed_of(s, v),
{
    let t = s.update(k, r);
    assert(forall|i: int| 0 <= i < t.len() ==> t[i].investor == s[i].investor);
    assert forall|v: u64| has_investor(t, v) == has_investor(s, v) by {
        if has_investor(t, v) {
            let i = choose|i: int| 0 <= i < t.len() && t[i].investor == v;
            assert(s[i].investor == v);
        }
        if has_investor(s, v) {
            let i = choose|i: int| 0 <= i < s.len() && s[i].investor == v;
            assert(t[i].investor == v);
        }
    }
    lemma_index_unique(t, r.investor, k);
    assert forall|v: u64|
        v != r.investor implies amount_of(t, v) == amount_of(s, v) && claimed_of(t, v)
        == claimed_of(s, v) by {
        if has_investor(s, v) {
            let i = index_of_investor(s, v);
            assert(0 <= i < s.len() && s[i].investor == v);
            assert(i != k);
            lemma_index_unique(t, v, i);
        }
    }
}

/// Appending a fresh investor's record touches no other investor's
/// accounting.
pub proof fn lemma_push_new_investor(s: Seq<InvestorRecord>, r: InvestorRecord)
    requires
        distinct_investors(s),
        !has_investor(s, r.investor),
    ensures
        distinct_investors(s.push(r)),
        forall|c0: u64| records_of(s, c0) && r.contract == c0 ==> records_of(s.push(r), c0),
        has_investor(s.push(r), r.investor),
        index_of_investor(s.push(r), r.investor) == s.len(),
        amount_of(s.push(r), r.investor) == r.amount,
        claimed_of(s.push(r), r.investor) == r.claimed_reward,
        forall|v: u64|
            v != r.investor ==> has_investor(s.push(r), v) == has_investor(s, v) && amount_of(
                s.push(r),
                v,
            ) == amount_of(s, v) && claimed_of(s.push(r), v) == claimed_of(s, v),
{
    let t = s.push(r);
    assert(forall|i: int| 0 <= i < s.len() ==> t[i] == s[i]);
    assert(t[s.len() as int] == r);
    assert(forall|i: int| 0 <= i < s.len() ==> s[i].investor != r.investor);
    assert(distinct_investors(t));
    lemma_index_unique(t, r.investor, s.len() as int);
    assert forall|v: u64|
        v != r.investor implies has_investor(t, v) == has_investor(s, v) && amount_of(t, v)
        == amount_of(s, v) && claimed_of(t, v) == claimed_of(s, v) by {
        if has_investor(t, v) {
            let i = choose|i: int| 0 <= i < t.len() && t[i].investor == v;
            assert(i < s.len());
            assert(s[i].investor == v);
        }
        if has_investor(s, v) {
            let i = index_of_investor(s, v);
            assert(0 <= i < s.len() && s[i].investor == v);
            lemma_index_unique(t, v, i);
        }
    }
}

/// What a contribution does to the accounting: the contributor's principal
/// and the sum grow by `delta`, everything else stays.
pub proof fn lemma_upsert_effect(s: Seq<InvestorRecord>, contract: u64, investor: u64, delta: u64)
    requires
        store_wf(s, contract),
        amount_of(s, investor) + delta <= u64::MAX,
    ensures
        store_wf(upsert_rec(s, contract, investor, delta), contract),
        sum_amounts(upsert_rec(s, contract, investor, delta)) == sum_amounts(s) + delta,
        has_investor(upsert_rec(s, contract, investor, delta), investor),
        amount_of(upsert_rec(s, contract, investor, delta), investor) == amount_of(s, investor)
            + delta,
        claimed_of(upsert_rec(s, contract, investor, delta), investor) == claimed_of(s, investor),
        forall|v: u64|
            v != investor ==> amount_of(upsert_rec(s, contract, investor, delta), v) == amount_of(
                s,
                v,
            ) && claimed_of(upsert_rec(s, contract, investor, delta), v) == claimed_of(s, v),
        upsert_rec(s, contract, investor, delta).len() == s.len() + (
        if has_investor(s, investor) {
            0int
        } else {
            1int
        }),
{
    if has_investor(s, investor) {
        let k = index_of_investor(s, investor);
        assert(0 <= k < s.len() && s[k].investor == investor);
        let r = InvestorRecord { amount: (s[k].amount + delta) as u64, ..s[k] };
        lemma_update_same_investor(s, k, r);
        lemma_sum_update(s, k, r);
    } else {
        let r = InvestorRecord { contract, investor, amount: delta, claimed_reward: false };
        lemma_push_new_investor(s, r);
        lemma_sum_push(s, r);
    }
}

/// What a payout or refund does to the accounting: the investor's principal
/// leaves the sum, everything else stays.
pub proof fn lemma_zero_effect(s: Seq<InvestorRecord>, investor: u64)
    requires
        distinct_investors(s),
    ensures
        distinct_investors(zero_amount_rec(s, investor)),
        forall|c0: u64| records_of(s, c0) ==> records_of(zero_amount_rec(s, investor), c0),
        sum_amounts(zero_amount_rec(s, investor)) == sum_amounts(s) - amount_of(s, investor),
        amount_of(zero_amount_rec(s, investor), investor) == 0,
        claimed_of(zero_amount_rec(s, investor), investor) == claimed_of(s, investor),
        forall|v: u64| has_investor(zero_amount_rec(s, investor), v) == has_investor(s, v),
        forall|v: u64|
            v != investor ==> amount_of(zero_amount_rec(s, investor), v) == amount_of(s, v)
                && claimed_of(zero_amount_rec(s, investor), v) == claimed_of(s, v),
        zero_amount_rec(s, investor).len() == s.len(),
{
    if has_investor(s, investor) {
        let k = index_of_investor(s, investor);
        assert(0 <= k < s.len() && s[k].investor == investor);
        let r = InvestorRecord { amount: 0, ..s[k] };
        lemma_update_same_investor(s, k, r);
        lemma_sum_update(s, k, r);
    }
}

/// What issuing the one-time reward does to the accounting: nothing but the
/// flag of the one investor.
pub proof fn lemma_claim_effect(s: Seq<InvestorRecord>, investor: u64)
    requires
        distinct_investors(s),
    ensures
        distinct_investors(set_claimed_rec(s, investor)),
        forall|c0: u64| records_of(s, c0) ==> records_of(set_claimed_rec(s, investor), c0),
        sum_amounts(set_claimed_rec(s, investor)) == sum_amounts(s),
        has_investor(s, investor) ==> claimed_of(set_claimed_rec(s, investor), investor),
        amount_of(set_claimed_rec(s, investor), investor) == amount_of(s, investor),
        forall|v: u64| has_investor(set_claimed_rec(s, investor), v) == has_investor(s, v),
        forall|v: u64|
            v != investor ==> amount_of(set_claimed_rec(s, investor), v) == amount_of(s, v)
                && claimed_of(set_claimed_rec(s, investor), v) == claimed_of(s, v),
        set_claimed_rec(s, investor).len() == s.len(),
{
    if has_investor(s, investor) {
        let k = index_of_investor(s, investor);
        assert(0 <= k < s.len() && s[k].investor == investor);
        let r = InvestorRecord { claimed_reward: true, ..s[k] };
        lemma_update_same_investor(s, k, r);
        lemma_sum_update(s, k, r);
    }
}

/// The store of per-investor records for one contract, in creation order.
#[derive(Clone, Debug)]
pub struct RecordStore {
    /// The records; unique per investor, append-only.
    pub records: Vec<InvestorRecord>,
}

impl View for RecordStore {
    type V = Seq<InvestorRecord>;

    open spec fn view(&self) -> Seq<InvestorRecord> {
        self.records@
    }
}

impl RecordStore {
    /// An empty store, as a contract starts with.
    pub fn new() -> (s: Self)
        ensures
            s@ =~= Seq::<InvestorRecord>::empty(),
    {
        RecordStore { records: Vec::new() }
    }

    /// How many investors have contributed.
    pub fn len(&self) -> (n: usize)
        ensures
            n == self@.len(),
    {
        self.records.len()
    }

    /// The record at one index, for callers that walk the audit trail.
    pub fn get(&self, i: usize) -> (r: InvestorRecord)
        requires
            i < self@.len(),
        ensures
            r == self@[i as int],
    {
        self.records[i]
    }

    /// The index of `investor`'s record, if one exists.
    fn find(&self, investor: u64) -> (r: Option<usize>)
        requires
            distinct_investors(self@),
        ensures
            r is Some <==> has_investor(self@, investor),
            r matches Some(i) ==> 0 <= i < self@.len() && i == index_of_investor(
                self@,
                investor,
            ),
    {
        let n = self.records.len();
        let mut i: usize = 0;
        while i < n
            invariant
                n == self@.len(),
                0 <= i <= n,
                distinct_investors(self@),
                forall|j: int| 0 <= j < i ==> self@[j].investor != investor,
            decreases n - i,
        {
            if self.records[i].investor == investor {
                proof {
                    lemma_index_unique(self@, investor, i as int);
                }
                return Some(i);
            }
            i = i + 1;
        }
        assert(!has_investor(self@, investor));
        None
    }

    /// Whether `investor` has a record, that is, ever contributed.
    pub fn contains(&self, investor: u64) -> (r: bool)
        requires
            distinct_investors(self@),
        ensures
            r == has_investor(self@, investor),
    {
        self.find(investor).is_some()
    }

    /// The principal currently recorded for `investor`; zero without a record.
    pub fn contributed(&self, investor: u64) -> (r: u64)
        requires
            distinct_investors(self@),
        ensures
            r == amount_of(self@, investor),
    {
        match self.find(investor) {
            Some(i) => self.records[i].amount,
            None => 0,
        }
    }

    /// Whether the one-time reward was already issued to `investor`.
    pub fn reward_claimed(&self, investor: u64) -> (r: bool)
        requires
            distinct_investors(self@),
        ensures
            r == claimed_of(self@, investor),
    {
        match self.find(investor) {
            Some(i) => self.records[i].claimed_reward,
            None => false,
        }
    }

    /// Records a contribution of `delta` by `investor`, creating the record
    /// on first touch.
    pub fn upsert(&mut self, contract: u64, investor: u64, delta: u64)
        requires
            store_wf(old(self)@, contract),
            amount_of(old(self)@, investor) + delta <= u64::MAX,
        ensures
            final(self)@ == upsert_rec(old(self)@, contract, investor, delta),
            store_wf(final(self)@, contract),
    {
        match self.find(investor) {
            Some(i) => {
                let r = self.records[i];
                self.records.set(
                    i,
                    InvestorRecord { amount: r.amount + delta, ..r },
                );
                proof {
                    assert(distinct_investors(self@)) by {
                        assert(forall|a: int, b: int|
                            0 <= a < b < self@.len() ==> self@[a].investor == old(
                                self,
                            )@[a].investor && self@[b].investor == old(self)@[b].investor);
                    }
                }
            },
            None => {
                self.records.push(
                    InvestorRecord { contract, investor, amount: delta, claimed_reward: false },
                );
                proof {
                    let s = old(self)@;
                    assert(forall|a: int| 0 <= a < s.len() ==> s[a].investor != investor);
                    assert(distinct_investors(self@)) by {
                        assert(forall|a: int|
                            0 <= a < s.len() ==> self@[a] == s[a]);
                    }
                }
            },
        }
    }

    /// Zeroes `investor`'s recorded principal, after a payout or refund.
    pub fn zero_amount(&mut self, investor: u64)
        requires
            distinct_investors(old(self)@),
        ensures
            final(self)@ == zero_amount_rec(old(self)@, investor),
            distinct_investors(final(self)@),
            records_of(old(self)@, 0) ==> records_of(final(self)@, 0),
    {
        match self.find(investor) {
            Some(i) => {
                let r = self.records[i];
                self.records.set(i, InvestorRecord { amount: 0, ..r });
                proof {
                    assert(distinct_investors(self@)) by {
                        assert(forall|a: int, b: int|
                            0 <= a < b < self@.len() ==> self@[a].investor == old(
                                self,
                            )@[a].investor && self@[b].investor == old(self)@[b].investor);
                    }
                }
            },
            None => {},
        }
    }

    /// Marks the one-time reward as issued to `investor`.
    pub fn set_claimed(&mut self, investor: u64)
        requires
            distinct_investors(old(self)@),
        ensures
            final(self)@ == set_claimed_rec(old(self)@, investor),
            distinct_investors(final(self)@),
    {
        match self.find(investor) {
            Some(i) => {
                let r = self.records[i];
                self.records.set(i, InvestorRecord { claimed_reward: true, ..r });
                proof {
                    assert(distinct_investors(self@)) by {
                        assert(forall|a: int, b: int|
                            0 <= a < b < self@.len() ==> self@[a].investor == old(
                                self,
                            )@[a].investor && self@[b].investor == old(self)@[b].investor);
                    }
                }
            },
            None => {},
        }
    }

    /// The sum of all recorded principals.
    pub fn amounts_sum(&self) -> (r: u64)
        requires
            sum_amounts(self@) <= u64::MAX,
        ensures
            r == sum_amounts(self@),
    {
        let n = self.records.len();
        let mut acc: u64 = 0;
        let mut i: usize = 0;
        proof {
            assert(self@.take(0) =~= Seq::<InvestorRecord>::empty());
        }
        while i < n
            invariant
                n == self@.len(),
                0 <= i <= n,
                sum_amounts(self@) <= u64::MAX,
                acc == sum_amounts(self@.take(i as int)),
            decreases n - i,
        {
            proof {
                lemma_sum_take_succ(self@, i as int);
                lemma_sum_take_bound(self@, i as int + 1);
                lemma_sum_nonneg(self@.take(i as int));
            }
            acc = acc + self.records[i].amount;
            i = i + 1;
        }
        proof {
            assert(self@.take(n as int) =~= self@);
        }
        acc
    }

    /// Whether every recorded principal is paid back.
    pub fn all_amounts_zero(&self) -> (r: bool)
        ensures
            r == all_settled(self@),
    {
        let n = self.records.len();
        let mut i: usize = 0;
        while i < n
            invariant
                n == self@.len(),
                0 <= i <= n,
                forall|j: int| 0 <= j < i ==> self@[j].amount == 0,
            decreases n - i,
        {
            if self.records[i].amount != 0 {
                return false;
            }
            i = i + 1;
        }
        true
    }
}

} // verus!
