//! A map keyed by course code. Building one from a list of pairs inserts the
//! pairs in order, so that a course listed twice keeps the value of its last
//! pair; this is the rule by which the catalogue tables are merged.

use vstd::prelude::*;
use crate::schedule::{CourseCode, CourseCodeView};

verus! {

/// The map that inserting the pairs of `s` in order builds: its keys are the
/// keys of the pairs, and each key holds the value of its last pair.
pub open spec fn pairs_to_map<K, W>(s: Seq<(K, W)>) -> Map<K, W>
    decreases s.len(),
{
    if s.len() == 0 {
        Map::empty()
    } else {
        pairs_to_map(s.drop_last()).insert(s.last().0, s.last().1)
    }
}

/// No key occurs in two pairs of `s`.
pub open spec fn keys_distinct<K, W>(s: Seq<(K, W)>) -> bool {
    forall|i: int, j: int| 0 <= i < j < s.len() ==> s[i].0 != s[j].0
}

/// A key is in the map built from `s` exactly when some pair of `s` has it,
/// and that map is finite.
pub proof fn lemma_pairs_to_map_domain<K, W>(s: Seq<(K, W)>, k: K)
    ensures
        pairs_to_map(s).dom().finite(),
        pairs_to_map(s).dom().contains(k) <==> exists|i: int| 0 <= i < s.len() && s[i].0 == k,
    decreases s.len(),
{
    if s.len() > 0 {
        let t = s.drop_last();
        lemma_pairs_to_map_domain(t, k);
        if pairs_to_map(s).dom().contains(k) && k != s.last().0 {
            let i = choose|i: int| 0 <= i < t.len() && t[i].0 == k;
            assert(s[i].0 == k);
        }
        if exists|i: int| 0 <= i < s.len() && s[i].0 == k {
            let i = choose|i: int| 0 <= i < s.len() && s[i].0 == k;
            if i < s.len() - 1 {
                assert(t[i].0 == k);
            }
        }
    }
}

/// The last pair wins: where the pair at `i` is the last one with its key,
/// the map built from `s` holds that key with the pair's value.
pub proof fn law_last_pair_wins<K, W>(s: Seq<(K, W)>, i: int)
    requires
        0 <= i < s.len(),
        forall|j: int| i < j < s.len() ==> s[j].0 != s[i].0,
    ensures
        pairs_to_map(s).dom().contains(s[i].0),
        pairs_to_map(s)[s[i].0] == s[i].1,
    decreases s.len(),
{
    if i < s.len() - 1 {
        let t = s.drop_last();
        assert forall|j: int| i < j < t.len() implies t[j].0 != t[i].0 by {
            assert(t[j] == s[j]);
        }
        law_last_pair_wins(t, i);
        assert(s.last().0 != s[i].0);
    }
}

/// Building a map from two lists laid end to end is building one from each and
/// letting the second override the first.
pub proof fn law_concat_overrides<K, W>(a: Seq<(K, W)>, b: Seq<(K, W)>)
    ensures
        pairs_to_map(a + b) == pairs_to_map(a).union_prefer_right(pairs_to_map(b)),
    decreases b.len(),
{
    if b.len() == 0 {
        assert(a + b =~= a);
        assert(pairs_to_map(a).union_prefer_right(pairs_to_map(b)) =~= pairs_to_map(a));
    } else {
        let b0 = b.drop_last();
        assert((a + b).drop_last() =~= a + b0);
        assert((a + b).last() == b.last());
        law_concat_overrides(a, b0);
        assert(pairs_to_map(a + b) =~= pairs_to_map(a).union_prefer_right(pairs_to_map(b)));
    }
}

/// When the keys of `s` are distinct, the map built from it has one key per pair.
pub proof fn law_distinct_keys_len<K, W>(s: Seq<(K, W)>)
    requires
        keys_distinct(s),
    ensures
        pairs_to_map(s).dom().len() == s.len(),
    decreases s.len(),
{
    if s.len() > 0 {
        let t = s.drop_last();
        assert(keys_distinct(t));
        law_distinct_keys_len(t);
        lemma_pairs_to_map_domain(t, s.last().0);
        if pairs_to_map(t).dom().contains(s.last().0) {
            let i = choose|i: int| 0 <= i < t.len() && t[i].0 == s.last().0;
            assert(s[i].0 == s[s.len() - 1].0);
        }
    }
}

/// What is read back after a write: once `key` is set to `value`, the map holds
/// `value` at `key` and holds every other key as before.
pub proof fn law_read_after_insert<K, W>(m: Map<K, W>, key: K, value: W, other: K)
    ensures
        m.insert(key, value).contains_key(key),
        m.insert(key, value)[key] == value,
        other != key ==> (m.insert(key, value).contains_key(other) == m.contains_key(other)),
        other != key && m.contains_key(other) ==> m.insert(key, value)[other] == m[other],
{
}

/// With distinct keys, each pair of `s` is found in the map built from it.
pub proof fn lemma_distinct_lookup<K, W>(s: Seq<(K, W)>, i: int)
    requires
        keys_distinct(s),
        0 <= i < s.len(),
    ensures
        pairs_to_map(s).dom().contains(s[i].0),
        pairs_to_map(s)[s[i].0] == s[i].1,
{
    law_last_pair_wins(s, i);
}

/// Replacing the value of a pair, keys being distinct, replaces the value of
/// its key in the map.
proof fn lemma_update_value<K, W>(s: Seq<(K, W)>, i: int, w: W)
    requires
        keys_distinct(s),
        0 <= i < s.len(),
    ensures
        keys_distinct(s.update(i, (s[i].0, w))),
        pairs_to_map(s.update(i, (s[i].0, w))) == pairs_to_map(s).insert(s[i].0, w),
{
    let u = s.update(i, (s[i].0, w));
    let k = s[i].0;
    assert(keys_distinct(u));
    let m1 = pairs_to_map(u);
    let m2 = pairs_to_map(s).insert(k, w);
    assert forall|x: K| #![auto] m1.dom().contains(x) <==> m2.dom().contains(x) by {
        lemma_pairs_to_map_domain(u, x);
        lemma_pairs_to_map_domain(s, x);
        if exists|j: int| 0 <= j < s.len() && s[j].0 == x {
            let j = choose|j: int| 0 <= j < s.len() && s[j].0 == x;
            assert(u[j].0 == x);
        }
        if exists|j: int| 0 <= j < u.len() && u[j].0 == x {
            let j = choose|j: int| 0 <= j < u.len() && u[j].0 == x;
            assert(s[j].0 == x);
        }
    }
    assert forall|x: K| #![auto] m1.dom().contains(x) implies m1[x] == m2[x] by {
        lemma_pairs_to_map_domain(u, x);
        let j = choose|j: int| 0 <= j < u.len() && u[j].0 == x;
        lemma_distinct_lookup(u, j);
        if j != i {
            lemma_distinct_lookup(s, j);
        }
    }
    assert(m1 =~= m2);
}

/// A map from course codes to values of type `V`.
pub struct CourseMap<V: DeepView> {
    entries: Vec<(CourseCode, V)>,
}

impl<V: DeepView> CourseMap<V> {
    #[verifier::type_invariant]
    closed spec fn distinct(&self) -> bool {
        keys_distinct(self.entries.deep_view())
    }

    /// The empty map.
    pub fn new() -> (m: CourseMap<V>)
        ensures
            m@ == Map::<CourseCodeView, V::V>::empty(),
    {
        let m = CourseMap { entries: Vec::new() };
        assert(m.entries.deep_view() =~= Seq::<(CourseCodeView, V::V)>::empty());
        m
    }

    /// The number of courses in the map.
    pub fn len(&self) -> (n: usize)
        ensures
            n == self@.len(),
    {
        proof {
            use_type_invariant(self);
            law_distinct_keys_len(self.entries.deep_view());
        }
        self.entries.len()
    }

    /// The value of `key`, if the map holds it.
    pub fn get(&self, key: &CourseCode) -> (found: Option<&V>)
        ensures
            match found {
                Some(v) => self@.contains_key(key.deep_view()) && v.deep_view() == self@[key.deep_view()],
                None => !self@.contains_key(key.deep_view()),
            },
    {
        proof {
            use_type_invariant(self);
        }
        let ghost s = self.entries.deep_view();
        let n = self.entries.len();
        let mut i: usize = 0;
        while i < n
            invariant
                n == self.entries@.len(),
                s == self.entries.deep_view(),
                keys_distinct(s),
                0 <= i <= n,
                forall|j: int| 0 <= j < i ==> s[j].0 != key.deep_view(),
            decreases n - i,
        {
            if self.entries[i].0.same_course(key) {
                proof {
                    assert(s[i as int].0 == key.deep_view());
                    lemma_distinct_lookup(s, i as int);
                }
                return Some(&self.entries[i].1);
            }
            i = i + 1;
        }
        proof {
            lemma_pairs_to_map_domain(s, key.deep_view());
        }
        None
    }

    /// Sets the value of `key` to `value`, and gives back the value it had.
    pub fn insert(&mut self, key: CourseCode, value: V) -> (previous: Option<V>)
        ensures
            final(self)@ == old(self)@.insert(key.deep_view(), value.deep_view()),
            match previous {
                Some(v) => old(self)@.contains_key(key.deep_view()) && v.deep_view() == old(
                    self,
                )@[key.deep_view()],
                None => !old(self)@.contains_key(key.deep_view()),
            },
    {
        proof {
            use_type_invariant(&*self);
        }
        let mut entries: Vec<(CourseCode, V)> = Vec::new();
        std::mem::swap(&mut entries, &mut self.entries);
        let ghost s = entries.deep_view();
        let n = entries.len();
        let mut i: usize = 0;
        while i < n
            invariant
                n == entries@.len(),
                s == entries.deep_view(),
                s == old(self).entries.deep_view(),
                keys_distinct(s),
                0 <= i <= n,
                forall|j: int| 0 <= j < i ==> s[j].0 != key.deep_view(),
            decreases n - i,
        {
            if entries[i].0.same_course(&key) {
                proof {
                    lemma_distinct_lookup(s, i as int);
                    lemma_update_value(s, i as int, value.deep_view());
                }
                let (_, previous) = entries.remove(i);
                entries.insert(i, (key, value));
                assert(entries.deep_view() =~= s.update(i as int, (s[i as int].0, value.deep_view())));
                self.entries = entries;
                return Some(previous);
            }
            assert(s[i as int] == entries@[i as int].deep_view());
            i = i + 1;
        }
        proof {
            lemma_pairs_to_map_domain(s, key.deep_view());
        }
        entries.push((key, value));
        assert(entries.deep_view() =~= s.push((key.deep_view(), value.deep_view())));
        assert(entries.deep_view().drop_last() =~= s);
        self.entries = entries;
        None
    }

    /// The map that inserting the pairs in order builds: a course listed twice
    /// keeps the value of its last pair.
    pub fn from_pairs(pairs: Vec<(CourseCode, V)>) -> (m: CourseMap<V>)
        ensures
            m@ == pairs_to_map(pairs.deep_view()),
    {
        let ghost all = pairs.deep_view();
        let mut rest = pairs;
        let mut m = CourseMap::new();
        let ghost mut done: int = 0;
        while rest.len() > 0
            invariant
                0 <= done <= all.len(),
                rest.deep_view() =~= all.subrange(done, all.len() as int),
                m@ == pairs_to_map(all.take(done)),
            decreases rest.len(),
        {
            let ghost before = rest.deep_view();
            let ghost before_raw = rest@;
            assert(before.len() == all.len() - done);
            assert(before[0] == all[done]);
            let (key, value) = rest.remove(0);
            proof {
                assert(before[0] == (key.deep_view(), value.deep_view()));
                assert(all.take(done + 1).drop_last() =~= all.take(done));
                assert(rest@ =~= before_raw.subrange(1, before_raw.len() as int));
                assert forall|j: int| 0 <= j < rest@.len() implies rest.deep_view()[j] == before[j + 1] by {
                    assert(rest@[j] == before_raw[j + 1]);
                }
                assert(rest.deep_view() =~= all.subrange(done + 1, all.len() as int));
                done = done + 1;
            }
            m.insert(key, value);
        }
        assert(all.take(done) =~= all);
        m
    }

    /// The pairs of the map, one for each course.
    pub fn into_pairs(self) -> (pairs: Vec<(CourseCode, V)>)
        ensures
            keys_distinct(pairs.deep_view()),
            pairs_to_map(pairs.deep_view()) == self@,
    {
        proof {
            use_type_invariant(&self);
        }
        self.entries
    }
}

impl<V: DeepView> View for CourseMap<V> {
    type V = Map<CourseCodeView, V::V>;

    closed spec fn view(&self) -> Map<CourseCodeView, V::V> {
        pairs_to_map(self.entries.deep_view())
    }
}

} // verus!
