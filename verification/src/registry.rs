//! The subscription registry: a mapping from a composite `channel:kind`
//! key to a subscription descriptor, with idempotent insert, single
//! removal, bulk removal by key prefix, and a drain used to seed
//! restoration after a cold start.

use vstd::prelude::*;

verus! {

/// One tracked subscription: the id the remote issued, the event kind's
/// wire name, and the condition payload it was created with.
#[derive(Debug, PartialEq, Eq)]
pub struct Subscription {
    pub id: String,
    pub kind: String,
    pub condition: String,
}

/// The mathematical shape of a subscription.
#[verifier::ext_equal]
pub struct SubscriptionView {
    pub id: Seq<char>,
    pub kind: Seq<char>,
    pub condition: Seq<char>,
}

impl View for Subscription {
    type V = SubscriptionView;

    open spec fn view(&self) -> SubscriptionView {
        SubscriptionView { id: self.id@, kind: self.kind@, condition: self.condition@ }
    }
}

impl Clone for Subscription {
    fn clone(&self) -> (r: Self)
        ensures
            r == *self,
    {
        Subscription { id: self.id.clone(), kind: self.kind.clone(), condition: self.condition.clone() }
    }
}

/// The key/descriptor shapes of a list of entries.
pub open spec fn pair_views(s: Seq<(String, Subscription)>) -> Seq<(Seq<char>, SubscriptionView)> {
    Seq::new(s.len(), |i: int| (s[i].0@, s[i].1@))
}

/// No two entries share a key.
pub open spec fn unique_keys(s: Seq<(Seq<char>, SubscriptionView)>) -> bool {
    forall|i: int, j: int| 0 <= i < j < s.len() ==> (#[trigger] s[i]).0 != (#[trigger] s[j]).0
}

/// The map a list of entries denotes; with unique keys the order does not
/// matter.
pub open spec fn entries_map(s: Seq<(Seq<char>, SubscriptionView)>) -> Map<
    Seq<char>,
    SubscriptionView,
>
    decreases s.len(),
{
    if s.len() == 0 {
        Map::empty()
    } else {
        entries_map(s.drop_last()).insert(s.last().0, s.last().1)
    }
}

/// `k` begins with `p`.
pub open spec fn key_has_prefix(k: Seq<char>, p: Seq<char>) -> bool {
    p.len() <= k.len() && k.take(p.len() as int) == p
}

/// What the denoted map holds: exactly the listed keys, each at its
/// listed descriptor (keys unique).
proof fn lemma_entries_map_index(s: Seq<(Seq<char>, SubscriptionView)>)
    requires
        unique_keys(s),
    ensures
        forall|k: Seq<char>|
            entries_map(s).contains_key(k) <==> exists|i: int|
                0 <= i < s.len() && (#[trigger] s[i]).0 == k,
        forall|i: int|
            0 <= i < s.len() ==> entries_map(s).contains_key((#[trigger] s[i]).0) && entries_map(
                s,
            )[s[i].0] == s[i].1,
    decreases s.len(),
{
    if s.len() > 0 {
        lemma_entries_map_index(s.drop_last());
        assert(forall|i: int| 0 <= i < s.len() - 1 ==> s.drop_last()[i] == s[i]);
        assert forall|i: int| 0 <= i < s.len() implies entries_map(s).contains_key(
            (#[trigger] s[i]).0,
        ) && entries_map(s)[s[i].0] == s[i].1 by {
            if i < s.len() - 1 {
                assert(s[i].0 != s.last().0);
            }
        }
        assert forall|k: Seq<char>| entries_map(s).contains_key(k) implies exists|i: int|
            0 <= i < s.len() && (#[trigger] s[i]).0 == k by {
            if k == s.last().0 {
                assert(s[s.len() - 1].0 == k);
            } else {
                assert(entries_map(s.drop_last()).contains_key(k));
                let i = choose|i: int|
                    0 <= i < s.drop_last().len() && (#[trigger] s.drop_last()[i]).0 == k;
                assert(s.drop_last()[i] == s[i]);
                assert(s[i].0 == k);
            }
        }
    }
}

/// Removing the entry at `i` removes exactly its key from the denoted map
/// and keeps the keys unique.
proof fn lemma_entries_map_remove(s: Seq<(Seq<char>, SubscriptionView)>, i: int)
    requires
        unique_keys(s),
        0 <= i < s.len(),
    ensures
        unique_keys(s.remove(i)),
        entries_map(s.remove(i)) == entries_map(s).remove(s[i].0),
    decreases s.len(),
{
    lemma_entries_map_index(s);
    lemma_entries_map_index(s.remove(i));
    assert(unique_keys(s.remove(i)));
    let a = entries_map(s.remove(i));
    let b = entries_map(s).remove(s[i].0);
    assert forall|k: Seq<char>| a.contains_key(k) implies b.contains_key(k) && a[k] == b[k] by {
        let j = choose|j: int| 0 <= j < s.remove(i).len() && (#[trigger] s.remove(i)[j]).0 == k;
        let j0 = if j < i {
            j
        } else {
            j + 1
        };
        assert(s[j0] == s.remove(i)[j]);
        assert(k != s[i].0);
    }
    assert forall|k: Seq<char>| b.contains_key(k) implies a.contains_key(k) by {
        let j0 = choose|j0: int| 0 <= j0 < s.len() && (#[trigger] s[j0]).0 == k;
        assert(j0 != i);
        let j = if j0 < i {
            j0
        } else {
            j0 - 1
        };
        assert(s.remove(i)[j] == s[j0]);
    }
    assert(a =~= b);
}

/// The registry of live subscriptions, keyed by `channel:kind`. Keys are
/// unique by construction: a later insert overwrites an earlier one.
pub struct SubscriptionRegistry {
    entries: Vec<(String, Subscription)>,
}

impl View for SubscriptionRegistry {
    type V = Map<Seq<char>, SubscriptionView>;

    closed spec fn view(&self) -> Map<Seq<char>, SubscriptionView> {
        entries_map(pair_views(self.entries@))
    }
}

impl SubscriptionRegistry {
    /// The keys never repeat.
    pub closed spec fn wf(&self) -> bool {
        unique_keys(pair_views(self.entries@))
    }

    /// An empty registry.
    pub fn new() -> (r: SubscriptionRegistry)
        ensures
            r.wf(),
            r@ == Map::<Seq<char>, SubscriptionView>::empty(),
    {
        let r = SubscriptionRegistry { entries: Vec::new() };
        proof {
            assert(pair_views(r.entries@) =~= Seq::<(Seq<char>, SubscriptionView)>::empty());
        }
        r
    }

    /// How many subscriptions are tracked.
    pub fn len(&self) -> (r: usize)
        requires
            self.wf(),
        ensures
            r == self@.dom().len(),
    {
        proof {
            lemma_entries_map_index(pair_views(self.entries@));
            assert(self@.dom() =~= Set::new(
                |k: Seq<char>|
                    exists|i: int|
                        0 <= i < pair_views(self.entries@).len() && (#[trigger] pair_views(
                            self.entries@,
                        )[i]).0 == k,
            ));
            lemma_unique_entries_dom_len(pair_views(self.entries@));
        }
        self.entries.len()
    }

    /// The index of `key` among the entries, if it is present.
    fn find_index(&self, key: &str) -> (r: Option<usize>)
        requires
            self.wf(),
        ensures
            match r {
                Some(i) => i < self.entries@.len() && pair_views(self.entries@)[i as int].0
                    == key@ && self@.contains_key(key@),
                None => !self@.contains_key(key@),
            },
    {
        let k = key.to_owned();
        let n = self.entries.len();
        let mut i: usize = 0;
        while i < n
            invariant
                0 <= i <= n,
                n == self.entries@.len(),
                k@ == key@,
                forall|j: int| 0 <= j < i ==> (#[trigger] pair_views(self.entries@)[j]).0 != key@,
            decreases n - i,
        {
            if self.entries[i].0 == k {
                proof {
                    lemma_entries_map_index(pair_views(self.entries@));
                }
                return Some(i);
            }
            i = i + 1;
        }
        proof {
            lemma_entries_map_index(pair_views(self.entries@));
        }
        None
    }

    /// Inserts a descriptor under `key`, overwriting any earlier entry
    /// with the same key: inserting twice leaves exactly one entry, the
    /// later one.
    pub fn insert(&mut self, key: String, sub: Subscription)
        requires
            old(self).wf(),
        ensures
            final(self).wf(),
            final(self)@ == old(self)@.insert(key@, sub@),
    {
        let ghost before = pair_views(self.entries@);
        proof {
            lemma_entries_map_index(before);
        }
        match self.find_index(key.as_str()) {
            Some(i) => {
                let _ = self.entries.remove(i);
                proof {
                    assert(pair_views(self.entries@) =~= before.remove(i as int));
                    lemma_entries_map_remove(before, i as int);
                    let mid = pair_views(self.entries@);
                    assert forall|j: int| 0 <= j < mid.len() implies (#[trigger] mid[j]).0 != key@
                        by {
                        if j < i {
                            assert(mid[j] == before[j]);
                        } else {
                            assert(mid[j] == before[j + 1]);
                        }
                    }
                }
            },
            None => {
                proof {
                    let mid = pair_views(self.entries@);
                    assert forall|j: int| 0 <= j < mid.len() implies (#[trigger] mid[j]).0 != key@
                        by {
                        assert(self@.contains_key(mid[j].0));
                    }
                }
            },
        }
        let ghost mid = pair_views(self.entries@);
        self.entries.push((key, sub));
        proof {
            assert(pair_views(self.entries@).drop_last() =~= mid);
            assert(forall|j: int| 0 <= j < mid.len() ==> pair_views(self.entries@)[j] == mid[j]);
            assert(pair_views(self.entries@).last() == (key@, sub@));
            lemma_entries_map_index(mid);
            assert(unique_keys(mid));
            assert(forall|j: int| 0 <= j < mid.len() ==> (#[trigger] mid[j]).0 != key@);
            let newv = pair_views(self.entries@);
            assert forall|j1: int, j2: int|
                0 <= j1 < j2 < newv.len() implies (#[trigger] newv[j1]).0 != (
            #[trigger] newv[j2]).0 by {
                assert(newv[j1] == mid[j1]);
                if j2 < newv.len() - 1 {
                    assert(newv[j2] == mid[j2]);
                } else {
                    assert(newv[j2].0 == key@);
                }
            }
            assert(self@ =~= old(self)@.insert(key@, sub@));
        }
    }

    /// Removes the entry under `key` and returns its descriptor, if any.
    pub fn remove(&mut self, key: &str) -> (r: Option<Subscription>)
        requires
            old(self).wf(),
        ensures
            final(self).wf(),
            match r {
                Some(s) => old(self)@.contains_key(key@) && s@ == old(self)@[key@] && final(self)@
                    == old(self)@.remove(key@),
                None => !old(self)@.contains_key(key@) && final(self)@ == old(self)@,
            },
    {
        let ghost before = pair_views(self.entries@);
        match self.find_index(key) {
            Some(i) => {
                let (_, sub) = self.entries.remove(i);
                proof {
                    assert(pair_views(self.entries@) =~= before.remove(i as int));
                    lemma_entries_map_remove(before, i as int);
                    lemma_entries_map_index(before);
                }
                Some(sub)
            },
            None => None,
        }
    }

    /// Removes the entry whose descriptor carries the remote id `id`, if
    /// one is tracked, and returns its key and descriptor. When several
    /// entries carry the id, one of them is removed.
    pub fn remove_by_id(&mut self, id: &str) -> (r: Option<(String, Subscription)>)
        requires
            old(self).wf(),
        ensures
            final(self).wf(),
            match r {
                Some(entry) => {
                    &&& old(self)@.contains_key(entry.0@)
                    &&& entry.1@ == old(self)@[entry.0@]
                    &&& entry.1@.id == id@
                    &&& final(self)@ == old(self)@.remove(entry.0@)
                },
                None => {
                    &&& final(self)@ == old(self)@
                    &&& forall|k: Seq<char>|
                        #[trigger] old(self)@.contains_key(k) ==> old(self)@[k].id != id@
                },
            },
    {
        let ghost before = pair_views(self.entries@);
        proof {
            lemma_entries_map_index(before);
        }
        let wanted = id.to_owned();
        let n = self.entries.len();
        let mut i: usize = 0;
        while i < n
            invariant
                0 <= i <= n,
                n == self.entries@.len(),
                wanted@ == id@,
                before == pair_views(self.entries@),
                forall|j: int| 0 <= j < i ==> (#[trigger] before[j]).1.id != id@,
            decreases n - i,
        {
            if self.entries[i].1.id == wanted {
                let entry = self.entries.remove(i);
                proof {
                    assert(pair_views(self.entries@) =~= before.remove(i as int));
                    lemma_entries_map_remove(before, i as int);
                    assert((entry.0@, entry.1@) == before[i as int]);
                }
                return Some(entry);
            }
            i = i + 1;
        }
        proof {
            assert forall|k: Seq<char>| #[trigger] self@.contains_key(k) implies self@[k].id != id@
                by {
                let j = choose|j: int| 0 <= j < before.len() && (#[trigger] before[j]).0 == k;
                assert(before[j].1.id != id@);
            }
        }
        None
    }

    /// Removes every entry whose key begins with `prefix` and returns
    /// those entries: afterwards the registry holds exactly the entries
    /// whose keys do not begin with it, unchanged.
    pub fn remove_all_with_prefix(&mut self, prefix: &str) -> (r: Vec<(String, Subscription)>)
        requires
            old(self).wf(),
        ensures
            final(self).wf(),
            forall|k: Seq<char>|
                final(self)@.contains_key(k) <==> (old(self)@.contains_key(k) && !key_has_prefix(
                    k,
                    prefix@,
                )),
            forall|k: Seq<char>|
                #[trigger] final(self)@.contains_key(k) ==> final(self)@[k] == old(self)@[k],
            forall|i: int|
                0 <= i < pair_views(r@).len() ==> {
                    &&& key_has_prefix((#[trigger] pair_views(r@)[i]).0, prefix@)
                    &&& old(self)@.contains_key(pair_views(r@)[i].0)
                    &&& pair_views(r@)[i].1 == old(self)@[pair_views(r@)[i].0]
                },
            unique_keys(pair_views(r@)),
            forall|k: Seq<char>|
                old(self)@.contains_key(k) && key_has_prefix(k, prefix@) ==> exists|i: int|
                    0 <= i < pair_views(r@).len() && (#[trigger] pair_views(r@)[i]).0 == k,
    {
        let mut out: Vec<(String, Subscription)> = Vec::new();
        let mut i: usize = 0;
        proof {
            lemma_entries_map_index(pair_views(self.entries@));
        }
        while i < self.entries.len()
            invariant
                old(self).wf(),
                self.wf(),
                0 <= i <= self.entries@.len(),
                forall|j: int|
                    0 <= j < i ==> !key_has_prefix(
                        (#[trigger] pair_views(self.entries@)[j]).0,
                        prefix@,
                    ),
                forall|k: Seq<char>|
                    self@.contains_key(k) ==> old(self)@.contains_key(k) && self@[k] == old(
                        self,
                    )@[k],
                forall|k: Seq<char>|
                    old(self)@.contains_key(k) ==> (self@.contains_key(k) || exists|j: int|
                        0 <= j < pair_views(out@).len() && (#[trigger] pair_views(out@)[j]).0
                            == k),
                forall|k: Seq<char>|
                    old(self)@.contains_key(k) && !key_has_prefix(k, prefix@)
                        ==> self@.contains_key(k),
                forall|j: int|
                    0 <= j < pair_views(out@).len() ==> {
                        &&& key_has_prefix((#[trigger] pair_views(out@)[j]).0, prefix@)
                        &&& old(self)@.contains_key(pair_views(out@)[j].0)
                        &&& pair_views(out@)[j].1 == old(self)@[pair_views(out@)[j].0]
                        &&& !self@.contains_key(pair_views(out@)[j].0)
                    },
                unique_keys(pair_views(out@)),
            decreases self.entries@.len() - i,
        {
            let ghost before = pair_views(self.entries@);
            let ghost out_before = pair_views(out@);
            let ghost pre_map = self@;
            proof {
                lemma_entries_map_index(before);
            }
            let key_matches = str_has_prefix(self.entries[i].0.as_str(), prefix);
            if key_matches {
                let ghost k = before[i as int].0;
                let entry = self.entries.remove(i);
                proof {
                    assert(pair_views(self.entries@) =~= before.remove(i as int));
                    assert(forall|j: int|
                        0 <= j < i ==> pair_views(self.entries@)[j] == before[j]);
                    lemma_entries_map_remove(before, i as int);
                    assert(self@ == pre_map.remove(k));
                    assert(pre_map.contains_key(k) && pre_map[k] == before[i as int].1);
                    assert((entry.0@, entry.1@) == before[i as int]);
                }
                out.push(entry);
                proof {
                    let outv = pair_views(out@);
                    assert(out@.last() == entry);
                    assert(outv.last() == (entry.0@, entry.1@));
                    assert(forall|j: int| 0 <= j < out_before.len() ==> outv[j] == out_before[j]);
                    assert(outv.last() == before[i as int]);
                    assert(outv[outv.len() - 1].0 == k);
                    assert(!self@.contains_key(k));
                    assert(pre_map.contains_key(k));
                    assert(old(self)@.contains_key(k) && old(self)@[k] == pre_map[k]);
                    assert forall|j1: int, j2: int|
                        0 <= j1 < j2 < outv.len() implies (#[trigger] outv[j1]).0 != (
                    #[trigger] outv[j2]).0 by {
                        assert(outv[j1] == out_before[j1]);
                        if j2 == outv.len() - 1 {
                            assert(!pre_map.contains_key(out_before[j1].0));
                            assert(outv[j2].0 == k);
                        } else {
                            assert(outv[j2] == out_before[j2]);
                        }
                    }
                    assert forall|j: int| 0 <= j < outv.len() implies {
                        &&& key_has_prefix((#[trigger] outv[j]).0, prefix@)
                        &&& old(self)@.contains_key(outv[j].0)
                        &&& outv[j].1 == old(self)@[outv[j].0]
                        &&& !self@.contains_key(outv[j].0)
                    } by {
                        if j < outv.len() - 1 {
                            assert(outv[j] == out_before[j]);
                            assert(!pre_map.contains_key(out_before[j].0));
                        } else {
                            assert(outv[j] == before[i as int]);
                        }
                    }
                }
            } else {
                proof {
                    assert(pair_views(self.entries@)[i as int].0 == self.entries@[i as int].0@);
                }
                i = i + 1;
            }
        }
        proof {
            lemma_entries_map_index(pair_views(self.entries@));
            assert(forall|k: Seq<char>|
                self@.contains_key(k) ==> !key_has_prefix(k, prefix@));
        }
        out
    }

    /// Empties the registry and hands out everything it held, to seed a
    /// restoration pass.
    pub fn snapshot_and_drain(&mut self) -> (r: Vec<(String, Subscription)>)
        requires
            old(self).wf(),
        ensures
            final(self).wf(),
            final(self)@ == Map::<Seq<char>, SubscriptionView>::empty(),
            forall|i: int|
                0 <= i < pair_views(r@).len() ==> {
                    &&& old(self)@.contains_key((#[trigger] pair_views(r@)[i]).0)
                    &&& pair_views(r@)[i].1 == old(self)@[pair_views(r@)[i].0]
                },
            unique_keys(pair_views(r@)),
            forall|k: Seq<char>|
                old(self)@.contains_key(k) ==> exists|i: int|
                    0 <= i < pair_views(r@).len() && (#[trigger] pair_views(r@)[i]).0 == k,
    {
        proof {
            lemma_entries_map_index(pair_views(self.entries@));
        }
        let mut out: Vec<(String, Subscription)> = Vec::new();
        core::mem::swap(&mut out, &mut self.entries);
        proof {
            assert(pair_views(self.entries@) =~= Seq::<(Seq<char>, SubscriptionView)>::empty());
            assert(self@ =~= Map::<Seq<char>, SubscriptionView>::empty());
        }
        out
    }
}

/// The number of entries with pairwise-distinct keys equals the size of
/// the key set they denote.
proof fn lemma_unique_entries_dom_len(s: Seq<(Seq<char>, SubscriptionView)>)
    requires
        unique_keys(s),
    ensures
        entries_map(s).dom().finite(),
        entries_map(s).dom().len() == s.len(),
    decreases s.len(),
{
    if s.len() == 0 {
        assert(entries_map(s).dom() =~= Set::<Seq<char>>::empty());
    } else {
        lemma_unique_entries_dom_len(s.drop_last());
        lemma_entries_map_index(s.drop_last());
        assert(entries_map(s).dom() =~= entries_map(s.drop_last()).dom().insert(s.last().0));
        assert(!entries_map(s.drop_last()).dom().contains(s.last().0)) by {
            if entries_map(s.drop_last()).contains_key(s.last().0) {
                let i = choose|i: int|
                    0 <= i < s.drop_last().len() && (#[trigger] s.drop_last()[i]).0 == s.last().0;
                assert(s[i].0 == s[s.len() - 1].0);
            }
        }
        broadcast use vstd::set::axiom_set_insert_len;
        broadcast use vstd::set::axiom_set_insert_finite;
    }
}

/// Inserting under one key twice leaves exactly one entry, the later one:
/// the first insert is absorbed, whatever descriptor it carried.
pub proof fn lemma_insert_twice_keeps_later(
    reg: Map<Seq<char>, SubscriptionView>,
    k: Seq<char>,
    d1: SubscriptionView,
    d2: SubscriptionView,
)
    ensures
        reg.insert(k, d1).insert(k, d2) == reg.insert(k, d2),
        reg.insert(k, d1).insert(k, d2)[k] == d2,
{
    assert(reg.insert(k, d1).insert(k, d2) =~= reg.insert(k, d2));
}

/// Whether `s` begins with `p`.
pub fn str_has_prefix(s: &str, p: &str) -> (r: bool)
    ensures
        r == key_has_prefix(s@, p@),
{
    let np = p.unicode_len();
    let ns = s.unicode_len();
    if np > ns {
        return false;
    }
    let mut i: usize = 0;
    while i < np
        invariant
            0 <= i <= np,
            np == p@.len(),
            np <= ns == s@.len(),
            forall|j: int| 0 <= j < i ==> s@[j] == p@[j],
        decreases np - i,
    {
        if s.get_char(i) != p.get_char(i) {
            proof {
                assert(s@.take(np as int)[i as int] != p@[i as int]);
            }
            return false;
        }
        i = i + 1;
    }
    proof {
        assert(s@.take(np as int) =~= p@);
    }
    true
}

} // verus!
