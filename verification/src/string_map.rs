//! A map from strings to strings kept in key order.
use crate::text::{compare_str, lemma_seq_lt_trans, lemma_seq_order_antisym, lemma_seq_order_zero, seq_lt, seq_order};
use vstd::prelude::*;

verus! {

/// A key/value pair viewed as character sequences.
pub type PairView = (Seq<char>, Seq<char>);

/// Views a list of string pairs as a list of character-sequence pairs.
pub open spec fn pairs_view(v: Seq<(String, String)>) -> Seq<PairView> {
    v.map_values(|p: (String, String)| (p.0@, p.1@))
}

/// Keys strictly increase along the list (so no key occurs twice).
pub open spec fn sorted_keys(p: Seq<PairView>) -> bool {
    forall|i: int, j: int| 0 <= i < j < p.len() ==> seq_lt(#[trigger] p[i].0, #[trigger] p[j].0)
}

/// The map that results from inserting the pairs in order, a later pair
/// replacing an earlier one with the same key.
pub open spec fn map_of_pairs(p: Seq<PairView>) -> Map<Seq<char>, Seq<char>>
    decreases p.len(),
{
    if p.len() == 0 {
        Map::empty()
    } else {
        map_of_pairs(p.drop_last()).insert(p.last().0, p.last().1)
    }
}

/// In a list whose keys are sorted, the map of the pairs holds exactly the
/// listed keys, each with its listed value.
pub proof fn lemma_map_of_sorted_pairs(p: Seq<PairView>)
    requires
        sorted_keys(p),
    ensures
        forall|k: Seq<char>|
            map_of_pairs(p).contains_key(k) <==> exists|i: int| 0 <= i < p.len() && #[trigger] p[i].0
                == k,
        forall|i: int| 0 <= i < p.len() ==> #[trigger] map_of_pairs(p)[p[i].0] == p[i].1,
        map_of_pairs(p).dom().finite(),
        map_of_pairs(p).dom().len() == p.len(),
    decreases p.len(),
{
    if p.len() > 0 {
        let q = p.drop_last();
        assert(sorted_keys(q));
        lemma_map_of_sorted_pairs(q);
        let last = p.last();
        assert forall|i: int| 0 <= i < q.len() implies #[trigger] q[i].0 != last.0 by {
            assert(p[i] == q[i]);
            assert(seq_lt(p[i].0, p[p.len() - 1].0));
            lemma_seq_order_zero(p[i].0, p[p.len() - 1].0);
        }
        assert(!map_of_pairs(q).contains_key(last.0));
        assert forall|k: Seq<char>|
            map_of_pairs(p).contains_key(k) implies exists|i: int| 0 <= i < p.len() && #[trigger] p[i].0
                == k by {
            if k == last.0 {
                assert(p[p.len() - 1].0 == k);
            } else {
                let i = choose|i: int| 0 <= i < q.len() && #[trigger] q[i].0 == k;
                assert(p[i] == q[i]);
            }
        }
        assert forall|k: Seq<char>|
            (exists|i: int| 0 <= i < p.len() && #[trigger] p[i].0 == k) implies map_of_pairs(
                p,
            ).contains_key(k) by {
            let i = choose|i: int| 0 <= i < p.len() && #[trigger] p[i].0 == k;
            if i < q.len() {
                assert(q[i] == p[i]);
            }
        }
        assert forall|i: int| 0 <= i < p.len() implies #[trigger] map_of_pairs(p)[p[i].0]
            == p[i].1 by {
            if i < q.len() {
                assert(q[i] == p[i]);
                assert(q[i].0 != last.0);
            }
        }
    }
}

/// Of two pairs with one key, the later one's value is the one kept.
pub proof fn law_last_value_wins(p: Seq<PairView>, k: Seq<char>, first: Seq<char>, last: Seq<char>)
    ensures
        map_of_pairs(p.push((k, first)).push((k, last))) == map_of_pairs(p).insert(k, last),
{
    let q = p.push((k, first)).push((k, last));
    assert(q.drop_last() =~= p.push((k, first)));
    assert(p.push((k, first)).drop_last() =~= p);
    assert(q.last() == (k, last));
    assert(p.push((k, first)).last() == (k, first));
    assert(map_of_pairs(q) == map_of_pairs(p.push((k, first))).insert(k, last));
    assert(map_of_pairs(p.push((k, first))) == map_of_pairs(p).insert(k, first));
    assert(map_of_pairs(p).insert(k, first).insert(k, last) =~= map_of_pairs(p).insert(k, last));
}

/// A map from string keys to string values, kept as a list of entries in
/// increasing key order, as a `BTreeMap<String, String>` iterates.
pub struct StringMap {
    entries: Vec<(String, String)>,
}

impl View for StringMap {
    type V = Map<Seq<char>, Seq<char>>;

    closed spec fn view(&self) -> Map<Seq<char>, Seq<char>> {
        map_of_pairs(pairs_view(self.entries@))
    }
}

impl StringMap {
    /// The entries, in increasing key order.
    pub closed spec fn pairs(self) -> Seq<PairView> {
        pairs_view(self.entries@)
    }

    #[verifier::type_invariant]
    spec fn keys_are_sorted(self) -> bool {
        sorted_keys(pairs_view(self.entries@))
    }

    /// An empty map.
    pub fn new() -> (r: Self)
        ensures
            r@ == Map::<Seq<char>, Seq<char>>::empty(),
            r.pairs().len() == 0,
    {
        let r = StringMap { entries: Vec::new() };
        assert(pairs_view(r.entries@) =~= Seq::<PairView>::empty());
        r
    }

    /// The number of keys.
    pub fn len(&self) -> (n: usize)
        ensures
            n == self.pairs().len(),
            n == self@.dom().len(),
    {
        proof {
            use_type_invariant(self);
            lemma_map_of_sorted_pairs(self.pairs());
        }
        self.entries.len()
    }

    /// The entries in increasing key order; their map is the map itself.
    pub fn entries(&self) -> (r: &Vec<(String, String)>)
        ensures
            pairs_view(r@) == self.pairs(),
            sorted_keys(self.pairs()),
            map_of_pairs(self.pairs()) == self@,
    {
        proof {
            use_type_invariant(self);
        }
        &self.entries
    }

    /// The value stored under `key`, if any.
    pub fn get(&self, key: &str) -> (r: Option<&String>)
        ensures
            match r {
                Some(v) => self@.contains_key(key@) && self@[key@] == v@,
                None => !self@.contains_key(key@),
            },
    {
        proof {
            use_type_invariant(self);
            lemma_map_of_sorted_pairs(self.pairs());
        }
        let mut i: usize = 0;
        while i < self.entries.len()
            invariant
                i <= self.entries.len(),
                forall|j: int| 0 <= j < i ==> #[trigger] self.pairs()[j].0 != key@,
            decreases self.entries.len() - i,
        {
            let c = compare_str(self.entries[i].0.as_str(), key);
            proof {
                lemma_seq_order_zero(self.entries@[i as int].0@, key@);
            }
            if c == 0 {
                proof {
                    use_type_invariant(self);
                    lemma_map_of_sorted_pairs(self.pairs());
                }
                assert(self.pairs()[i as int].0 == key@);
                assert(self.pairs()[i as int].1 == self.entries@[i as int].1@);
                assert(map_of_pairs(self.pairs())[self.pairs()[i as int].0] == self.pairs()[
                    i as int].1);
                return Some(&self.entries[i].1);
            }
            i = i + 1;
        }
        proof {
            use_type_invariant(self);
            lemma_map_of_sorted_pairs(self.pairs());
            if self@.contains_key(key@) {
                let j = choose|j: int| 0 <= j < self.pairs().len() && #[trigger] self.pairs()[j].0
                    == key@;
                assert(false);
            }
        }
        None
    }

    /// Stores `value` under `key`, replacing any earlier value.
    pub fn insert(&mut self, key: String, value: String)
        ensures
            final(self)@ == old(self)@.insert(key@, value@),
    {
        proof {
            use_type_invariant(&*self);
        }
        let mut entries: Vec<(String, String)> = Vec::new();
        std::mem::swap(&mut entries, &mut self.entries);
        let ghost p = pairs_view(entries@);
        proof {
            lemma_map_of_sorted_pairs(p);
        }
        let mut i: usize = 0;
        while i < entries.len()
            invariant
                p == pairs_view(entries@),
                sorted_keys(p),
                i <= entries.len(),
                forall|j: int| 0 <= j < i ==> seq_lt(#[trigger] p[j].0, key@),
            ensures
                i <= entries.len(),
                forall|j: int| 0 <= j < i ==> seq_lt(#[trigger] p[j].0, key@),
                i < entries.len() ==> seq_order(p[i as int].0, key@) >= 0,
            decreases entries.len() - i,
        {
            let c = compare_str(entries[i].0.as_str(), key.as_str());
            if c >= 0 {
                break;
            }
            i = i + 1;
        }
        let ghost new_pair: PairView = (key@, value@);
        if i < entries.len() && compare_str(entries[i].0.as_str(), key.as_str()) == 0 {
            proof {
                lemma_seq_order_zero(p[i as int].0, key@);
            }
            entries.set(i, (key, value));
            let ghost q = pairs_view(entries@);
            proof {
                assert(q =~= p.update(i as int, new_pair));
                assert(sorted_keys(q)) by {
                    assert forall|a: int, b: int| 0 <= a < b < q.len() implies seq_lt(
                        #[trigger] q[a].0,
                        #[trigger] q[b].0,
                    ) by {
                        assert(q[a].0 == p[a].0);
                        assert(q[b].0 == p[b].0);
                    }
                }
                lemma_map_of_sorted_pairs(q);
                assert(map_of_pairs(q) =~= map_of_pairs(p).insert(key@, value@)) by {
                    assert forall|k: Seq<char>| #[trigger]
                        map_of_pairs(q).contains_key(k) == map_of_pairs(p).insert(
                            key@,
                            value@,
                        ).contains_key(k) by {
                        if map_of_pairs(q).contains_key(k) {
                            let j = choose|j: int| 0 <= j < q.len() && #[trigger] q[j].0 == k;
                            assert(p[j].0 == k);
                        }
                        if map_of_pairs(p).contains_key(k) {
                            let j = choose|j: int| 0 <= j < p.len() && #[trigger] p[j].0 == k;
                            assert(q[j].0 == k);
                        }
                    }
                    assert forall|k: Seq<char>| #[trigger]
                        map_of_pairs(q).contains_key(k) implies map_of_pairs(q)[k] == map_of_pairs(
                        p,
                    ).insert(key@, value@)[k] by {
                        let j = choose|j: int| 0 <= j < q.len() && #[trigger] q[j].0 == k;
                        if j != i {
                            assert(q[j] == p[j]);
                            lemma_seq_order_zero(p[j].0, p[i as int].0);
                            if j < i {
                                assert(seq_lt(p[j].0, p[i as int].0));
                            } else {
                                assert(seq_lt(p[i as int].0, p[j].0));
                                lemma_seq_order_antisym(p[i as int].0, p[j].0);
                            }
                        }
                    }
                }
            }
            self.entries = entries;
        } else {
            proof {
                if i < entries.len() {
                    lemma_seq_order_antisym(p[i as int].0, key@);
                    assert(seq_lt(key@, p[i as int].0));
                }
            }
            entries.insert(i, (key, value));
            let ghost q = pairs_view(entries@);
            proof {
                assert(q =~= p.insert(i as int, new_pair));
                assert(sorted_keys(q)) by {
                    assert forall|a: int, b: int| 0 <= a < b < q.len() implies seq_lt(
                        #[trigger] q[a].0,
                        #[trigger] q[b].0,
                    ) by {
                        if b < i {
                            assert(q[a] == p[a] && q[b] == p[b]);
                        } else if b == i {
                            assert(q[a] == p[a]);
                        } else if a == i {
                            assert(q[b] == p[b - 1]);
                            if b - 1 > i {
                                assert(seq_lt(p[i as int].0, p[b - 1].0));
                                lemma_seq_lt_trans(key@, p[i as int].0, p[b - 1].0);
                            }
                        } else if a < i {
                            assert(q[a] == p[a] && q[b] == p[b - 1]);
                        } else {
                            assert(q[a] == p[a - 1] && q[b] == p[b - 1]);
                        }
                    }
                }
                lemma_map_of_sorted_pairs(q);
                assert(map_of_pairs(q) =~= map_of_pairs(p).insert(key@, value@)) by {
                    assert forall|k: Seq<char>| #[trigger]
                        map_of_pairs(q).contains_key(k) == map_of_pairs(p).insert(
                            key@,
                            value@,
                        ).contains_key(k) by {
                        if k == key@ {
                            assert(q[i as int].0 == key@);
                        }
                        if map_of_pairs(q).contains_key(k) {
                            let j = choose|j: int| 0 <= j < q.len() && #[trigger] q[j].0 == k;
                            if j < i {
                                assert(q[j] == p[j]);
                            } else if j > i {
                                assert(q[j] == p[j - 1]);
                            }
                        }
                        if map_of_pairs(p).contains_key(k) {
                            let j = choose|j: int| 0 <= j < p.len() && #[trigger] p[j].0 == k;
                            if j < i {
                                assert(q[j] == p[j]);
                            } else {
                                assert(q[j + 1] == p[j]);
                            }
                        }
                    }
                    assert forall|k: Seq<char>| #[trigger]
                        map_of_pairs(q).contains_key(k) implies map_of_pairs(q)[k] == map_of_pairs(
                        p,
                    ).insert(key@, value@)[k] by {
                        let j = choose|j: int| 0 <= j < q.len() && #[trigger] q[j].0 == k;
                        if j < i {
                            assert(q[j] == p[j]);
                            assert(seq_lt(p[j].0, key@));
                            lemma_seq_order_zero(p[j].0, key@);
                        } else if j > i {
                            assert(q[j] == p[j - 1]);
                            if j - 1 > i {
                                assert(seq_lt(p[i as int].0, p[j - 1].0));
                                lemma_seq_lt_trans(key@, p[i as int].0, p[j - 1].0);
                            }
                            lemma_seq_order_zero(key@, p[j - 1].0);
                        }
                    }
                }
            }
            self.entries = entries;
        }
    }
}

impl Clone for StringMap {
    fn clone(&self) -> (r: Self)
        ensures
            r@ == self@,
            r.pairs() == self.pairs(),
    {
        proof {
            use_type_invariant(self);
        }
        let mut entries: Vec<(String, String)> = Vec::new();
        let mut i: usize = 0;
        while i < self.entries.len()
            invariant
                i <= self.entries.len(),
                entries@ == self.entries@.take(i as int),
            decreases self.entries.len() - i,
        {
            let k = self.entries[i].0.clone();
            let v = self.entries[i].1.clone();
            entries.push((k, v));
            assert(entries@ =~= self.entries@.take(i + 1));
            i = i + 1;
        }
        assert(self.entries@.take(i as int) =~= self.entries@);
        StringMap { entries }
    }
}

} // verus!
