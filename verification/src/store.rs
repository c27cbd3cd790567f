//! Key-indexed persistent storage of one escrow record per buyer.
//!
//! The store is a pure keyed container: no validation logic lives here. Its
//! mathematical model is the map from buyer to record, `as_map`, built from
//! the underlying sequence of entries; well-formedness says that no two
//! entries share a buyer.

use vstd::prelude::*;

use crate::types::EscrowRecord;

verus! {

/// The map a sequence of entries denotes: each entry maps its buyer to the
/// record, later entries winning (the store itself never holds duplicates).
pub open spec fn record_map(s: Seq<EscrowRecord>) -> Map<u64, EscrowRecord>
    decreases s.len(),
{
    if s.len() == 0 {
        Map::empty()
    } else {
        record_map(s.drop_last()).insert(s.last().buyer_id, s.last())
    }
}

/// No two entries are for the same buyer.
pub open spec fn unique_buyers(s: Seq<EscrowRecord>) -> bool {
    forall|i: int, j: int|
        0 <= i < j < s.len() ==> (#[trigger] s[i]).buyer_id != (#[trigger] s[j]).buyer_id
}

/// A buyer is in the map exactly when some entry is for that buyer.
pub proof fn lemma_record_map_contains(s: Seq<EscrowRecord>, b: u64)
    ensures
        record_map(s).contains_key(b) <==> exists|i: int| 0 <= i < s.len() && s[i].buyer_id == b,
    decreases s.len(),
{
    if s.len() > 0 {
        lemma_record_map_contains(s.drop_last(), b);
        if s.last().buyer_id == b {
            assert(s[s.len() - 1].buyer_id == b);
        } else {
            if exists|i: int| 0 <= i < s.len() && s[i].buyer_id == b {
                let i = choose|i: int| 0 <= i < s.len() && s[i].buyer_id == b;
                assert(s.drop_last()[i].buyer_id == b);
            }
            if exists|i: int| 0 <= i < s.drop_last().len() && s.drop_last()[i].buyer_id == b {
                let i = choose|i: int| 0 <= i < s.drop_last().len() && s.drop_last()[i].buyer_id
                    == b;
                assert(s[i].buyer_id == b);
            }
        }
    }
}

/// Every record in the map sits under its own buyer.
pub proof fn lemma_record_map_key(s: Seq<EscrowRecord>, b: u64)
    requires
        record_map(s).contains_key(b),
    ensures
        record_map(s)[b].buyer_id == b,
    decreases s.len(),
{
    if s.len() > 0 && s.last().buyer_id != b {
        lemma_record_map_key(s.drop_last(), b);
    }
}

/// With unique buyers, the map sends each entry's buyer to that entry.
pub proof fn lemma_record_map_index(s: Seq<EscrowRecord>, i: int)
    requires
        unique_buyers(s),
        0 <= i < s.len(),
    ensures
        record_map(s).contains_key(s[i].buyer_id),
        record_map(s)[s[i].buyer_id] == s[i],
    decreases s.len(),
{
    if i < s.len() - 1 {
        assert(s.drop_last()[i] == s[i]);
        assert(unique_buyers(s.drop_last())) by {
            assert(forall|p: int, q: int|
                0 <= p < q < s.drop_last().len() ==> s.drop_last()[p] == s[p]
                    && s.drop_last()[q] == s[q]);
        }
        lemma_record_map_index(s.drop_last(), i);
        assert(s[i].buyer_id != s.last().buyer_id);
    }
}

/// The store: a growable vector of records with pairwise distinct buyers.
pub struct EscrowStore {
    pub entries: Vec<EscrowRecord>,
}

impl EscrowStore {
    /// The entries in insertion order.
    pub open spec fn records(self) -> Seq<EscrowRecord> {
        self.entries@
    }

    /// The keyed view the contracts speak of.
    pub open spec fn as_map(self) -> Map<u64, EscrowRecord> {
        record_map(self.entries@)
    }

    /// At most one record per buyer.
    pub open spec fn wf(self) -> bool {
        unique_buyers(self.entries@)
    }

    pub fn new() -> (s: Self)
        ensures
            s.wf(),
            s.records() == Seq::<EscrowRecord>::empty(),
            s.as_map() == Map::<u64, EscrowRecord>::empty(),
    {
        EscrowStore { entries: Vec::new() }
    }

    /// Whether a record exists for the buyer.
    pub fn contains(&self, buyer: u64) -> (r: bool)
        requires
            self.wf(),
        ensures
            r == self.as_map().contains_key(buyer),
    {
        self.get(buyer).is_some()
    }

    /// The record for the buyer, if one exists.
    pub fn get(&self, buyer: u64) -> (r: Option<EscrowRecord>)
        requires
            self.wf(),
        ensures
            r == if self.as_map().contains_key(buyer) {
                Some(self.as_map()[buyer])
            } else {
                None::<EscrowRecord>
            },
    {
        proof {
            lemma_record_map_contains(self.entries@, buyer);
        }
        let n = self.entries.len();
        let mut i: usize = 0;
        while i < n
            invariant
                n == self.entries@.len(),
                i <= n,
                unique_buyers(self.entries@),
                forall|k: int| 0 <= k < i ==> (#[trigger] self.entries@[k]).buyer_id != buyer,
            decreases n - i,
        {
            if self.entries[i].buyer_id == buyer {
                proof {
                    lemma_record_map_index(self.entries@, i as int);
                }
                return Some(self.entries[i]);
            }
            i = i + 1;
        }
        None
    }

    /// Insert or overwrite the record for its buyer.
    pub fn put(&mut self, rec: EscrowRecord)
        requires
            old(self).wf(),
        ensures
            final(self).wf(),
            final(self).as_map() == old(self).as_map().insert(rec.buyer_id, rec),
            !old(self).as_map().contains_key(rec.buyer_id) ==> final(self).entries@ == old(
                self,
            ).entries@.push(rec),
    {
        self.remove(rec.buyer_id);
        proof {
            lemma_record_map_contains(self.entries@, rec.buyer_id);
        }
        let ghost before = self.entries@;
        self.entries.push(rec);
        proof {
            assert(self.entries@.drop_last() =~= before);
            assert(self.entries@.last() == rec);
            assert(final(self).as_map() == record_map(before).insert(rec.buyer_id, rec));
            assert(unique_buyers(self.entries@)) by {
                assert(forall|k: int|
                    0 <= k < before.len() ==> self.entries@[k] == before[k]);
            }
            assert(old(self).as_map().remove(rec.buyer_id).insert(rec.buyer_id, rec) =~= old(
                self,
            ).as_map().insert(rec.buyer_id, rec));
        }
    }

    /// Delete the record for the buyer, if one exists.
    pub fn remove(&mut self, buyer: u64)
        requires
            old(self).wf(),
        ensures
            final(self).wf(),
            final(self).as_map() == old(self).as_map().remove(buyer),
            !old(self).as_map().contains_key(buyer) ==> final(self).entries@ == old(
                self,
            ).entries@,
            old(self).as_map().contains_key(buyer) ==> exists|i: int|
                0 <= i < old(self).entries@.len() && old(self).entries@[i].buyer_id == buyer
                    && final(self).entries@ == old(self).entries@.remove(i),
    {
        let n = self.entries.len();
        let mut i: usize = 0;
        while i < n
            invariant
                n == self.entries@.len(),
                i <= n,
                self == old(self),
                unique_buyers(self.entries@),
                forall|k: int| 0 <= k < i ==> (#[trigger] self.entries@[k]).buyer_id != buyer,
            decreases n - i,
        {
            if self.entries[i].buyer_id == buyer {
                let ghost s = self.entries@;
                let ghost ii = i as int;
                self.entries.remove(i);
                proof {
                    lemma_record_map_contains(s, buyer);
                    assert(s[ii].buyer_id == buyer);
                    Self::lemma_removed_entry(s, ii, buyer);
                }
                return ;
            }
            i = i + 1;
        }
        proof {
            lemma_record_map_contains(self.entries@, buyer);
            assert(self.as_map().remove(buyer) =~= self.as_map());
        }
    }

    /// Removing the one entry for a buyer removes exactly that key from the
    /// map.
    proof fn lemma_removed_entry(s: Seq<EscrowRecord>, i: int, buyer: u64)
        requires
            unique_buyers(s),
            0 <= i < s.len(),
            s[i].buyer_id == buyer,
        ensures
            unique_buyers(s.remove(i)),
            record_map(s.remove(i)) == record_map(s).remove(buyer),
    {
        let t = s.remove(i);
        assert(forall|k: int| 0 <= k < i ==> t[k] == s[k]);
        assert(forall|k: int| i <= k < t.len() ==> t[k] == s[k + 1]);
        assert(unique_buyers(t)) by {
            assert forall|p: int, q: int| 0 <= p < q < t.len() implies (#[trigger] t[p]).buyer_id
                != (#[trigger] t[q]).buyer_id by {
                let p0 = if p < i { p } else { p + 1 };
                let q0 = if q < i { q } else { q + 1 };
                assert(t[p] == s[p0]);
                assert(t[q] == s[q0]);
            }
        }
        assert forall|b: u64| true implies #[trigger] record_map(t).contains_key(b) == record_map(
            s,
        ).remove(buyer).contains_key(b) by {
            lemma_record_map_contains(t, b);
            lemma_record_map_contains(s, b);
            if b == buyer {
                if record_map(t).contains_key(b) {
                    let k = choose|k: int| 0 <= k < t.len() && t[k].buyer_id == b;
                    let k0 = if k < i { k } else { k + 1 };
                    assert(s[k0].buyer_id == b && k0 != i);
                    assert(false);
                }
            } else {
                if record_map(t).contains_key(b) {
                    let k = choose|k: int| 0 <= k < t.len() && t[k].buyer_id == b;
                    let k0 = if k < i { k } else { k + 1 };
                    assert(s[k0].buyer_id == b);
                }
                if record_map(s).contains_key(b) {
                    let k0 = choose|k0: int| 0 <= k0 < s.len() && s[k0].buyer_id == b;
                    let k = if k0 < i { k0 } else { k0 - 1 };
                    assert(k0 != i);
                    assert(t[k].buyer_id == b);
                }
            }
        }
        assert forall|b: u64| record_map(t).contains_key(b) implies #[trigger] record_map(t)[b]
            == record_map(s).remove(buyer)[b] by {
            lemma_record_map_contains(t, b);
            let k = choose|k: int| 0 <= k < t.len() && t[k].buyer_id == b;
            lemma_record_map_index(t, k);
            let k0 = if k < i { k } else { k + 1 };
            assert(t[k] == s[k0]);
            lemma_record_map_index(s, k0);
        }
        assert(record_map(t) =~= record_map(s).remove(buyer));
    }

    /// A snapshot of every record, in store order.
    pub fn all(&self) -> (r: Vec<EscrowRecord>)
        ensures
            r@ == self.entries@,
    {
        let n = self.entries.len();
        let mut r: Vec<EscrowRecord> = Vec::new();
        let mut i: usize = 0;
        while i < n
            invariant
                n == self.entries@.len(),
                i <= n,
                r@ == self.entries@.subrange(0, i as int),
            decreases n - i,
        {
            r.push(self.entries[i]);
            proof {
                assert(r@ =~= self.entries@.subrange(0, i + 1));
            }
            i = i + 1;
        }
        proof {
            assert(r@ =~= self.entries@);
        }
        r
    }
}

} // verus!
