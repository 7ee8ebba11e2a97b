//! The state of the redeem module: its configuration and the open redeem
//! requests, keyed by their identifier.
use vstd::prelude::*;
use crate::types::{AccountId, BlockNumber, Error, PolkaBTC, RedeemId, RedeemRequest};

verus! {

/// An entry of the request table.
pub type Entry = (RedeemId, RedeemRequest);

/// The map that a table of entries stands for: each identifier that occurs
/// in the table, to the request stored beside it.
pub open spec fn entries_map(s: Seq<Entry>) -> Map<RedeemId, RedeemRequest> {
    Map::new(
        |k: RedeemId| exists|i: int| 0 <= i < s.len() && s[i].0 == k,
        |k: RedeemId| s[choose|i: int| 0 <= i < s.len() && s[i].0 == k].1,
    )
}

/// No identifier occurs twice in the table.
pub open spec fn unique_ids(s: Seq<Entry>) -> bool {
    forall|i: int, j: int| 0 <= i < s.len() && 0 <= j < s.len() && i != j ==> s[i].0 != s[j].0
}

/// What looking a request up by its identifier gives: the request, or
/// `RedeemIdNotFound`.
pub open spec fn lookup(requests: Map<RedeemId, RedeemRequest>, key: RedeemId) -> Result<
    RedeemRequest,
    Error,
> {
    if requests.contains_key(key) {
        Ok(requests[key])
    } else {
        Err(Error::RedeemIdNotFound)
    }
}

/// The state of the redeem module.
pub struct Module {
    /// Blocks between opening a request and the deadline of its vault.
    redeem_period: BlockNumber,
    /// The least amount of PolkaBTC that a request may redeem.
    redeem_btc_dust_value: PolkaBTC,
    /// The open redeem requests.
    redeem_requests: Vec<Entry>,
}

proof fn lemma_entry_in_map(s: Seq<Entry>, i: int)
    requires
        unique_ids(s),
        0 <= i < s.len(),
    ensures
        entries_map(s).contains_key(s[i].0),
        entries_map(s)[s[i].0] == s[i].1,
{
    let k = s[i].0;
    assert(exists|j: int| 0 <= j < s.len() && s[j].0 == k);
    let j = choose|j: int| 0 <= j < s.len() && s[j].0 == k;
    assert(j == i);
}

proof fn lemma_push(s: Seq<Entry>, e: Entry)
    requires
        unique_ids(s),
        !entries_map(s).contains_key(e.0),
    ensures
        unique_ids(s.push(e)),
        entries_map(s.push(e)) =~= entries_map(s).insert(e.0, e.1),
{
    let t = s.push(e);
    assert forall|i: int, j: int| 0 <= i < t.len() && 0 <= j < t.len() && i != j implies t[i].0
        != t[j].0 by {
        if i == s.len() {
            assert(s[j].0 == t[j].0);
        } else if j == s.len() {
            assert(s[i].0 == t[i].0);
        }
    }
    assert forall|k: RedeemId| #[trigger] entries_map(t).contains_key(k) <==> entries_map(
        s,
    ).insert(e.0, e.1).contains_key(k) by {
        if entries_map(t).contains_key(k) {
            let i = choose|i: int| 0 <= i < t.len() && t[i].0 == k;
            if i < s.len() {
                assert(s[i].0 == k);
            }
        }
        if entries_map(s).contains_key(k) {
            let i = choose|i: int| 0 <= i < s.len() && s[i].0 == k;
            assert(t[i].0 == k);
        }
        if k == e.0 {
            assert(t[s.len() as int].0 == k);
        }
    }
    assert forall|k: RedeemId| #[trigger] entries_map(t).contains_key(k) implies entries_map(t)[k]
        == entries_map(s).insert(e.0, e.1)[k] by {
        let i = choose|i: int| 0 <= i < t.len() && t[i].0 == k;
        lemma_entry_in_map(t, i);
        if i < s.len() {
            lemma_entry_in_map(s, i);
        }
    }
}

proof fn lemma_update(s: Seq<Entry>, i: int, e: Entry)
    requires
        unique_ids(s),
        0 <= i < s.len(),
        s[i].0 == e.0,
    ensures
        unique_ids(s.update(i, e)),
        entries_map(s.update(i, e)) =~= entries_map(s).insert(e.0, e.1),
{
    let t = s.update(i, e);
    assert forall|a: int, b: int| 0 <= a < t.len() && 0 <= b < t.len() && a != b implies t[a].0
        != t[b].0 by {
        assert(s[a].0 == t[a].0 && s[b].0 == t[b].0);
    }
    assert forall|k: RedeemId| #[trigger] entries_map(t).contains_key(k) <==> entries_map(
        s,
    ).insert(e.0, e.1).contains_key(k) by {
        if entries_map(t).contains_key(k) {
            let j = choose|j: int| 0 <= j < t.len() && t[j].0 == k;
            assert(s[j].0 == k);
        }
        if entries_map(s).contains_key(k) {
            let j = choose|j: int| 0 <= j < s.len() && s[j].0 == k;
            assert(t[j].0 == k);
        }
        if k == e.0 {
            assert(t[i].0 == k);
        }
    }
    assert forall|k: RedeemId| #[trigger] entries_map(t).contains_key(k) implies entries_map(t)[k]
        == entries_map(s).insert(e.0, e.1)[k] by {
        let j = choose|j: int| 0 <= j < t.len() && t[j].0 == k;
        lemma_entry_in_map(t, j);
        if j != i {
            lemma_entry_in_map(s, j);
        }
    }
}

proof fn lemma_remove(s: Seq<Entry>, i: int)
    requires
        unique_ids(s),
        0 <= i < s.len(),
    ensures
        unique_ids(s.remove(i)),
        entries_map(s.remove(i)) =~= entries_map(s).remove(s[i].0),
{
    let t = s.remove(i);
    let k0 = s[i].0;
    assert forall|a: int| 0 <= a < t.len() implies #[trigger] t[a] == (if a < i {
        s[a]
    } else {
        s[a + 1]
    }) by {}
    assert forall|a: int, b: int| 0 <= a < t.len() && 0 <= b < t.len() && a != b implies t[a].0
        != t[b].0 by {
        let a1 = if a < i { a } else { a + 1 };
        let b1 = if b < i { b } else { b + 1 };
        assert(t[a] == s[a1] && t[b] == s[b1]);
    }
    assert forall|k: RedeemId| #[trigger] entries_map(t).contains_key(k) <==> entries_map(
        s,
    ).remove(k0).contains_key(k) by {
        if entries_map(t).contains_key(k) {
            let j = choose|j: int| 0 <= j < t.len() && t[j].0 == k;
            let j1 = if j < i { j } else { j + 1 };
            assert(t[j] == s[j1]);
            assert(s[j1].0 == k);
        }
        if entries_map(s).contains_key(k) && k != k0 {
            let j = choose|j: int| 0 <= j < s.len() && s[j].0 == k;
            assert(j != i);
            let j1 = if j < i { j } else { j - 1 };
            assert(t[j1] == s[j]);
        }
    }
    assert forall|k: RedeemId| #[trigger] entries_map(t).contains_key(k) implies entries_map(t)[k]
        == entries_map(s).remove(k0)[k] by {
        let j = choose|j: int| 0 <= j < t.len() && t[j].0 == k;
        lemma_entry_in_map(t, j);
        let j1 = if j < i { j } else { j + 1 };
        assert(t[j] == s[j1]);
        lemma_entry_in_map(s, j1);
    }
}

/// Whether two identifiers are the same, byte by byte.
pub fn same_id(a: &RedeemId, b: &RedeemId) -> (r: bool)
    ensures
        r == (*a == *b),
{
    let mut i: usize = 0;
    while i < 32
        invariant
            0 <= i <= 32,
            forall|j: int| 0 <= j < i ==> a.0[j] == b.0[j],
        decreases 32 - i,
    {
        if a.0[i] != b.0[i] {
            return false;
        }
        i = i + 1;
    }
    assert(a.0 =~= b.0);
    true
}

impl Module {
    /// The table is well formed: no identifier occurs twice.
    pub closed spec fn wf(&self) -> bool {
        unique_ids(self.redeem_requests@)
    }

    /// The open redeem requests, by identifier.
    pub closed spec fn requests(&self) -> Map<RedeemId, RedeemRequest> {
        entries_map(self.redeem_requests@)
    }

    /// The redeem period, as the module was configured.
    pub closed spec fn spec_redeem_period(&self) -> BlockNumber {
        self.redeem_period
    }

    /// The dust value, as the module was configured.
    pub closed spec fn spec_redeem_btc_dust_value(&self) -> PolkaBTC {
        self.redeem_btc_dust_value
    }

    /// A module with the given configuration and no open request.
    pub fn new(redeem_period: BlockNumber, redeem_btc_dust_value: PolkaBTC) -> (m: Module)
        ensures
            m.wf(),
            m.requests() == Map::<RedeemId, RedeemRequest>::empty(),
            m.spec_redeem_period() == redeem_period,
            m.spec_redeem_btc_dust_value() == redeem_btc_dust_value,
    {
        let m = Module { redeem_period, redeem_btc_dust_value, redeem_requests: Vec::new() };
        assert(m.requests() =~= Map::<RedeemId, RedeemRequest>::empty());
        m
    }

    /// The time difference in blocks between the opening of a redeem request
    /// and the deadline of its vault.
    pub fn redeem_period(&self) -> (r: BlockNumber)
        ensures
            r == self.spec_redeem_period(),
    {
        self.redeem_period
    }

    /// The least amount of PolkaBTC that a redeem request is accepted for.
    pub fn redeem_btc_dust_value(&self) -> (r: PolkaBTC)
        ensures
            r == self.spec_redeem_btc_dust_value(),
    {
        self.redeem_btc_dust_value
    }

    /// The position of the request with the given identifier in the table.
    fn find(&self, key: &RedeemId) -> (r: Option<usize>)
        requires
            self.wf(),
        ensures
            match r {
                Some(i) => i < self.redeem_requests@.len() && self.redeem_requests@[i as int].0
                    == *key,
                None => !self.requests().contains_key(*key),
            },
    {
        let mut i: usize = 0;
        while i < self.redeem_requests.len()
            invariant
                0 <= i <= self.redeem_requests@.len(),
                forall|j: int| 0 <= j < i ==> self.redeem_requests@[j].0 != *key,
            decreases self.redeem_requests@.len() - i,
        {
            if same_id(&self.redeem_requests[i].0, key) {
                return Some(i);
            }
            i = i + 1;
        }
        None
    }

    /// Inserts a redeem request under the given identifier, in place of any
    /// request stored under it before.
    pub fn insert_redeem_request(&mut self, key: RedeemId, value: RedeemRequest)
        requires
            old(self).wf(),
        ensures
            final(self).wf(),
            final(self).requests() == old(self).requests().insert(key, value),
            final(self).spec_redeem_period() == old(self).spec_redeem_period(),
            final(self).spec_redeem_btc_dust_value() == old(self).spec_redeem_btc_dust_value(),
    {
        match self.find(&key) {
            Some(i) => {
                proof {
                    lemma_update(self.redeem_requests@, i as int, (key, value));
                }
                self.redeem_requests.set(i, (key, value));
            },
            None => {
                proof {
                    lemma_push(self.redeem_requests@, (key, value));
                }
                self.redeem_requests.push((key, value));
            },
        }
    }

    /// Removes the redeem request with the given identifier, and gives it back
    /// where there was one.
    pub fn remove_redeem_request(&mut self, key: &RedeemId) -> (r: Option<RedeemRequest>)
        requires
            old(self).wf(),
        ensures
            final(self).wf(),
            final(self).requests() == old(self).requests().remove(*key),
            r == (if old(self).requests().contains_key(*key) {
                Some(old(self).requests()[*key])
            } else {
                None
            }),
            final(self).spec_redeem_period() == old(self).spec_redeem_period(),
            final(self).spec_redeem_btc_dust_value() == old(self).spec_redeem_btc_dust_value(),
    {
        match self.find(key) {
            Some(i) => {
                proof {
                    lemma_entry_in_map(self.redeem_requests@, i as int);
                    lemma_remove(self.redeem_requests@, i as int);
                }
                let (_, request) = self.redeem_requests.remove(i);
                Some(request)
            },
            None => {
                assert(self.requests() =~= old(self).requests().remove(*key));
                None
            },
        }
    }

    /// Fetches a pre-existing redeem request, or fails with
    /// `RedeemIdNotFound`.
    pub fn get_redeem_request_from_id(&self, key: &RedeemId) -> (r: Result<RedeemRequest, Error>)
        requires
            self.wf(),
        ensures
            r == lookup(self.requests(), *key),
    {
        match self.find(key) {
            Some(i) => {
                proof {
                    lemma_entry_in_map(self.redeem_requests@, i as int);
                }
                Ok(self.redeem_requests[i].1)
            },
            None => Err(Error::RedeemIdNotFound),
        }
    }

    /// The requests whose redeemer (when `by_vault` is false) or vault (when
    /// it is true) is the given account.
    fn requests_where(&self, account_id: AccountId, by_vault: bool) -> (r: Vec<Entry>)
        requires
            self.wf(),
        ensures
            unique_ids(r@),
            forall|i: int|
                0 <= i < r@.len() ==> {
                    &&& self.requests().contains_key(#[trigger] r@[i].0)
                    &&& self.requests()[r@[i].0] == r@[i].1
                    &&& party(r@[i].1, by_vault) == account_id
                },
            forall|k: RedeemId|
                #[trigger] self.requests().contains_key(k) && party(self.requests()[k], by_vault)
                    == account_id ==> exists|i: int| 0 <= i < r@.len() && r@[i].0 == k,
    {
        let ghost s = self.redeem_requests@;
        let ghost mut idx: Seq<int> = Seq::empty();
        let mut r: Vec<Entry> = Vec::new();
        let mut i: usize = 0;
        while i < self.redeem_requests.len()
            invariant
                s == self.redeem_requests@,
                unique_ids(s),
                0 <= i <= s.len(),
                idx.len() == r@.len(),
                forall|a: int|
                    0 <= a < r@.len() ==> 0 <= #[trigger] idx[a] < i && r@[a] == s[idx[a]]
                        && party(s[idx[a]].1, by_vault) == account_id,
                forall|a: int, c: int| 0 <= a < c < r@.len() ==> idx[a] < idx[c],
                forall|b: int|
                    0 <= b < i && party(#[trigger] s[b].1, by_vault) == account_id ==> exists|a: int|
                        0 <= a < r@.len() && idx[a] == b,
            decreases s.len() - i,
        {
            let e = self.redeem_requests[i];
            let p = if by_vault {
                e.1.vault
            } else {
                e.1.redeemer
            };
            if p == account_id {
                let ghost idx0 = idx;
                r.push(e);
                proof {
                    idx = idx.push(i as int);
                    assert forall|b: int|
                        0 <= b < i + 1 && party(#[trigger] s[b].1, by_vault)
                            == account_id implies exists|a: int| 0 <= a < r@.len() && idx[a] == b by {
                        if b == i {
                            assert(idx[idx0.len() as int] == b);
                        } else {
                            let a = choose|a: int| 0 <= a < idx0.len() && idx0[a] == b;
                            assert(idx[a] == b);
                        }
                    }
                }
            }
            i = i + 1;
        }
        proof {
            assert forall|a: int, c: int|
                0 <= a < r@.len() && 0 <= c < r@.len() && a != c implies r@[a].0 != r@[c].0 by {
                assert(idx[a] != idx[c]);
            }
            assert forall|a: int| 0 <= a < r@.len() implies {
                &&& self.requests().contains_key(#[trigger] r@[a].0)
                &&& self.requests()[r@[a].0] == r@[a].1
                &&& party(r@[a].1, by_vault) == account_id
            } by {
                lemma_entry_in_map(s, idx[a]);
            }
            assert forall|k: RedeemId|
                #[trigger] self.requests().contains_key(k) && party(self.requests()[k], by_vault)
                    == account_id implies exists|a: int| 0 <= a < r@.len() && r@[a].0 == k by {
                let b = choose|b: int| 0 <= b < s.len() && s[b].0 == k;
                lemma_entry_in_map(s, b);
                assert(party(s[b].1, by_vault) == account_id);
                let a = choose|a: int| 0 <= a < r@.len() && idx[a] == b;
                assert(r@[a].0 == k);
            }
        }
        r
    }

    /// Fetches all redeem requests of the given user.
    pub fn get_redeem_requests_for_account(&self, account_id: AccountId) -> (r: Vec<Entry>)
        requires
            self.wf(),
        ensures
            unique_ids(r@),
            forall|i: int|
                0 <= i < r@.len() ==> {
                    &&& self.requests().contains_key(#[trigger] r@[i].0)
                    &&& self.requests()[r@[i].0] == r@[i].1
                    &&& r@[i].1.redeemer == account_id
                },
            forall|k: RedeemId|
                #[trigger] self.requests().contains_key(k) && self.requests()[k].redeemer
                    == account_id ==> exists|i: int| 0 <= i < r@.len() && r@[i].0 == k,
    {
        self.requests_where(account_id, false)
    }

    /// Fetches all redeem requests addressed to the given vault.
    pub fn get_redeem_requests_for_vault(&self, account_id: AccountId) -> (r: Vec<Entry>)
        requires
            self.wf(),
        ensures
            unique_ids(r@),
            forall|i: int|
                0 <= i < r@.len() ==> {
                    &&& self.requests().contains_key(#[trigger] r@[i].0)
                    &&& self.requests()[r@[i].0] == r@[i].1
                    &&& r@[i].1.vault == account_id
                },
            forall|k: RedeemId|
                #[trigger] self.requests().contains_key(k) && self.requests()[k].vault
                    == account_id ==> exists|i: int| 0 <= i < r@.len() && r@[i].0 == k,
    {
        self.requests_where(account_id, true)
    }
}

/// The vault of a request where `by_vault` holds, else its redeemer.
pub open spec fn party(request: RedeemRequest, by_vault: bool) -> AccountId {
    if by_vault {
        request.vault
    } else {
        request.redeemer
    }
}

} // verus!
