//! Keyed tables: an insertion-ordered association list whose abstract view is a `Map`.
//!
//! Every key occurs at most once (the type invariant), so a table behaves as a finite map
//! from key views to value views, while iteration follows insertion order.
use vstd::prelude::*;

verus! {

/// A key of a [`Table`]: executable equality agrees with equality of views.
pub trait TableKey: View + Sized {
    fn same_key(&self, other: &Self) -> (b: bool)
        ensures
            b == (self@ == other@),
    ;

    fn duplicate_key(&self) -> (r: Self)
        ensures
            r@ == self@,
    ;
}

/// A value that can be copied without changing its view.
pub trait Duplicate: View + Sized {
    fn duplicate(&self) -> (r: Self)
        ensures
            r@ == self@,
    ;
}

impl TableKey for String {
    fn same_key(&self, other: &Self) -> (b: bool) {
        *self == *other
    }

    fn duplicate_key(&self) -> (r: Self) {
        self.clone()
    }
}

impl Duplicate for String {
    fn duplicate(&self) -> (r: Self) {
        self.clone()
    }
}

impl Duplicate for () {
    fn duplicate(&self) -> (r: Self) {
        ()
    }
}

impl Duplicate for u64 {
    fn duplicate(&self) -> (r: Self) {
        *self
    }
}

/// Insertion-ordered table with unique keys.
#[derive(Debug, PartialEq, Eq)]
pub struct Table<K: View, V: View> {
    keys: Vec<K>,
    values: Vec<V>,
}

/// Views of the pairs formed by two parallel sequences.
pub open spec fn pair_views<K: View, V: View>(ks: Seq<K>, vs: Seq<V>) -> Seq<(K::V, V::V)> {
    Seq::new(ks.len(), |i: int| (ks[i]@, vs[i]@))
}

/// The keys of a sequence of pairs.
pub open spec fn keys_of<A, B>(s: Seq<(A, B)>) -> Seq<A> {
    s.map_values(|p: (A, B)| p.0)
}

/// No key occurs twice.
pub open spec fn unique_keys<A, B>(s: Seq<(A, B)>) -> bool {
    forall|i: int, j: int| 0 <= i < s.len() && 0 <= j < s.len() && i != j ==> s[i].0 != s[j].0
}

/// The map that a sequence of pairs with unique keys stands for.
pub open spec fn pairs_to_map<A, B>(s: Seq<(A, B)>) -> Map<A, B> {
    Map::new(
        |k: A| exists|i: int| 0 <= i < s.len() && s[i].0 == k,
        |k: A| s[choose|i: int| 0 <= i < s.len() && s[i].0 == k].1,
    )
}

/// Looking up the key of a pair gives its value; the domain is exactly the keys.
pub proof fn lemma_pairs_to_map<A, B>(s: Seq<(A, B)>)
    requires
        unique_keys(s),
    ensures
        forall|i: int| 0 <= i < s.len() ==> #[trigger] pairs_to_map(s).contains_key(s[i].0)
            && pairs_to_map(s)[s[i].0] == s[i].1,
        forall|k: A| #[trigger]
            pairs_to_map(s).contains_key(k) <==> exists|i: int| 0 <= i < s.len() && s[i].0 == k,
{
    assert forall|i: int| 0 <= i < s.len() implies #[trigger] pairs_to_map(s).contains_key(s[i].0)
        && pairs_to_map(s)[s[i].0] == s[i].1 by {
        let k = s[i].0;
        assert(0 <= i < s.len() && s[i].0 == k);
        let j = choose|j: int| 0 <= j < s.len() && s[j].0 == k;
        assert(j == i);
    }
}

/// The domain of the map of a pair sequence is finite and has one element per pair.
pub proof fn lemma_pairs_to_map_len<A, B>(s: Seq<(A, B)>)
    requires
        unique_keys(s),
    ensures
        pairs_to_map(s).dom() == keys_of(s).to_set(),
        pairs_to_map(s).dom().finite(),
        pairs_to_map(s).len() == s.len(),
{
    lemma_pairs_to_map(s);
    let ks = keys_of(s);
    assert forall|k: A| pairs_to_map(s).dom().contains(k) <==> ks.to_set().contains(k) by {
        if pairs_to_map(s).dom().contains(k) {
            let i = choose|i: int| 0 <= i < s.len() && s[i].0 == k;
            assert(ks[i] == k);
        }
        if ks.to_set().contains(k) {
            let i = choose|i: int| 0 <= i < ks.len() && ks[i] == k;
            assert(s[i].0 == k);
        }
    }
    assert(pairs_to_map(s).dom() =~= ks.to_set());
    assert(ks.no_duplicates()) by {
        assert forall|i: int, j: int| 0 <= i < ks.len() && 0 <= j < ks.len() && i != j implies ks[i]
            != ks[j] by {
            assert(s[i].0 != s[j].0);
        }
    }
    ks.unique_seq_to_set();
}

/// Replacing the value of pair `i` updates the map at that key.
pub proof fn lemma_pairs_update<A, B>(s: Seq<(A, B)>, i: int, b: B)
    requires
        unique_keys(s),
        0 <= i < s.len(),
    ensures
        unique_keys(s.update(i, (s[i].0, b))),
        pairs_to_map(s.update(i, (s[i].0, b))) == pairs_to_map(s).insert(s[i].0, b),
{
    let t = s.update(i, (s[i].0, b));
    assert(unique_keys(t)) by {
        assert forall|x: int, y: int| 0 <= x < t.len() && 0 <= y < t.len() && x != y implies t[x].0
            != t[y].0 by {
            assert(t[x].0 == s[x].0);
            assert(t[y].0 == s[y].0);
        }
    }
    lemma_pairs_to_map(s);
    lemma_pairs_to_map(t);
    assert forall|k: A| #[trigger] pairs_to_map(t).contains_key(k) <==> pairs_to_map(s).insert(
        s[i].0,
        b,
    ).contains_key(k) by {
        if pairs_to_map(s).contains_key(k) {
            let j = choose|j: int| 0 <= j < s.len() && s[j].0 == k;
            assert(t[j].0 == k);
        }
        if pairs_to_map(t).contains_key(k) {
            let j = choose|j: int| 0 <= j < t.len() && t[j].0 == k;
            assert(s[j].0 == k);
        }
        if k == s[i].0 {
            assert(t[i].0 == k);
        }
    }
    assert forall|k: A| #[trigger] pairs_to_map(t).contains_key(k) implies pairs_to_map(t)[k]
        == pairs_to_map(s).insert(s[i].0, b)[k] by {
        let j = choose|j: int| 0 <= j < t.len() && t[j].0 == k;
        assert(s[j].0 == k);
    }
    assert(pairs_to_map(t) =~= pairs_to_map(s).insert(s[i].0, b));
}

/// Appending a pair with a fresh key inserts it into the map.
pub proof fn lemma_pairs_push<A, B>(s: Seq<(A, B)>, a: A, b: B)
    requires
        unique_keys(s),
        !pairs_to_map(s).contains_key(a),
    ensures
        unique_keys(s.push((a, b))),
        pairs_to_map(s.push((a, b))) == pairs_to_map(s).insert(a, b),
{
    let t = s.push((a, b));
    lemma_pairs_to_map(s);
    assert(unique_keys(t)) by {
        assert forall|x: int, y: int| 0 <= x < t.len() && 0 <= y < t.len() && x != y implies t[x].0
            != t[y].0 by {
            if x == s.len() {
                assert(!(0 <= y < s.len() && s[y].0 == a));
            } else if y == s.len() {
                assert(!(0 <= x < s.len() && s[x].0 == a));
            } else {
                assert(s[x].0 != s[y].0);
            }
        }
    }
    lemma_pairs_to_map(t);
    assert forall|k: A| #[trigger] pairs_to_map(t).contains_key(k) <==> pairs_to_map(s).insert(
        a,
        b,
    ).contains_key(k) by {
        if pairs_to_map(s).contains_key(k) {
            let j = choose|j: int| 0 <= j < s.len() && s[j].0 == k;
            assert(t[j].0 == k);
        }
        if pairs_to_map(t).contains_key(k) && k != a {
            let j = choose|j: int| 0 <= j < t.len() && t[j].0 == k;
            assert(s[j].0 == k);
        }
        if k == a {
            assert(t[s.len() as int].0 == k);
        }
    }
    assert forall|k: A| #[trigger] pairs_to_map(t).contains_key(k) implies pairs_to_map(t)[k]
        == pairs_to_map(s).insert(a, b)[k] by {
        let j = choose|j: int| 0 <= j < t.len() && t[j].0 == k;
        if j < s.len() {
            assert(s[j].0 == k);
        }
    }
    assert(pairs_to_map(t) =~= pairs_to_map(s).insert(a, b));
}

/// Position of key `k` among the pairs (meaningful when present).
pub open spec fn key_index<A, B>(s: Seq<(A, B)>, k: A) -> int {
    choose|i: int| 0 <= i < s.len() && s[i].0 == k
}

/// The pairs after inserting `(k, v)`: replaced in place when `k` is present, else appended.
pub open spec fn pairs_insert<A, B>(s: Seq<(A, B)>, k: A, v: B) -> Seq<(A, B)> {
    if exists|i: int| 0 <= i < s.len() && s[i].0 == k {
        s.update(key_index(s, k), (k, v))
    } else {
        s.push((k, v))
    }
}

/// With unique keys, the position of a present key is the one that holds it.
pub proof fn lemma_key_index<A, B>(s: Seq<(A, B)>, i: int)
    requires
        unique_keys(s),
        0 <= i < s.len(),
    ensures
        key_index(s, s[i].0) == i,
{
    let k = s[i].0;
    assert(0 <= i < s.len() && s[i].0 == k);
    let j = key_index(s, k);
    assert(s[j].0 == k);
}

impl<K: View, V: View> Table<K, V> {
    /// The views of the pairs, in insertion (iteration) order.
    pub closed spec fn pairs(&self) -> Seq<(K::V, V::V)> {
        pair_views(self.keys@, self.values@)
    }

    /// Well-formedness: no key occurs twice.
    pub closed spec fn wf(&self) -> bool {
        &&& self.keys@.len() == self.values@.len()
        &&& forall|i: int, j: int|
            0 <= i < self.keys@.len() && 0 <= j < self.keys@.len() && i != j ==> #[trigger] self.keys@[i]@
                != #[trigger] self.keys@[j]@
    }

    /// Unique pair keys make a table well formed.
    proof fn lemma_wf_from_pairs(&self)
        requires
            self.keys@.len() == self.values@.len(),
            unique_keys(self.pairs()),
        ensures
            self.wf(),
    {
        assert forall|i: int, j: int|
            0 <= i < self.keys@.len() && 0 <= j < self.keys@.len() && i != j implies #[trigger] self.keys@[i]@
            != #[trigger] self.keys@[j]@ by {
            assert(self.pairs()[i].0 != self.pairs()[j].0);
        }
    }

    /// Replacing value `i` by any value: the pairs, their uniqueness and the map that results.
    proof fn lemma_replace_any(&self, i: int)
        requires
            self.wf(),
            0 <= i < self.keys@.len(),
        ensures
            forall|b: V| #[trigger] pair_views(self.keys@, self.values@.update(i, b)) == self.pairs().update(
                i,
                (self.pairs()[i].0, b@),
            ),
            forall|b: V| #[trigger] pairs_to_map(pair_views(self.keys@, self.values@.update(i, b)))
                == pairs_to_map(self.pairs()).insert(self.pairs()[i].0, b@),
    {
        self.lemma_view();
        assert forall|b: V| #[trigger] pair_views(self.keys@, self.values@.update(i, b)) == self.pairs().update(
            i,
            (self.pairs()[i].0, b@),
        ) by {
            assert(pair_views(self.keys@, self.values@.update(i, b)) =~= self.pairs().update(
                i,
                (self.pairs()[i].0, b@),
            ));
        }
        assert forall|b: V| #[trigger] pairs_to_map(pair_views(self.keys@, self.values@.update(i, b)))
            == pairs_to_map(self.pairs()).insert(self.pairs()[i].0, b@) by {
            assert(pair_views(self.keys@, self.values@.update(i, b)) =~= self.pairs().update(
                i,
                (self.pairs()[i].0, b@),
            ));
            lemma_pairs_update(self.pairs(), i, b@);
        }
    }

    /// Facts every table satisfies: unique keys, and the map is the map of its pairs.
    pub proof fn lemma_view(&self)
        requires
            self.wf(),
        ensures
            unique_keys(self.pairs()),
            self@ == pairs_to_map(self.pairs()),
            self@.dom().finite(),
            self@.len() == self.pairs().len(),
            forall|i: int| 0 <= i < self.pairs().len() ==> #[trigger] self@.contains_key(self.pairs()[i].0)
                && self@[self.pairs()[i].0] == self.pairs()[i].1,
            forall|k: K::V| #[trigger]
                self@.contains_key(k) <==> exists|i: int| 0 <= i < self.pairs().len() && self.pairs()[i].0 == k,
    {
        assert(unique_keys(self.pairs())) by {
            assert forall|i: int, j: int|
                0 <= i < self.pairs().len() && 0 <= j < self.pairs().len() && i != j implies self.pairs()[i].0
                != self.pairs()[j].0 by {
                assert(self.keys@[i]@ != self.keys@[j]@);
            }
        }
        lemma_pairs_to_map(self.pairs());
        lemma_pairs_to_map_len(self.pairs());
    }
}

impl<K: View, V: View> View for Table<K, V> {
    type V = Map<K::V, V::V>;

    closed spec fn view(&self) -> Map<K::V, V::V> {
        pairs_to_map(self.pairs())
    }
}

impl<K: TableKey, V: View> Table<K, V> {
    /// An empty table.
    pub fn new() -> (t: Self)
        ensures
            t.wf(),
            t@ == Map::<K::V, V::V>::empty(),
            t.pairs() == Seq::<(K::V, V::V)>::empty(),
    {
        let t = Table { keys: Vec::new(), values: Vec::new() };
        assert(t.pairs() =~= Seq::<(K::V, V::V)>::empty());
        assert(t@ =~= Map::<K::V, V::V>::empty());
        t
    }

    /// Whether no key occurs twice (and every key has a value): the table's invariant,
    /// checked on a table that came from outside.
    pub fn check_wf(&self) -> (b: bool)
        ensures
            b == self.wf(),
    {
        if self.keys.len() != self.values.len() {
            return false;
        }
        let n = self.keys.len();
        let mut i: usize = 0;
        while i < n
            invariant
                n == self.keys@.len(),
                n == self.values@.len(),
                i <= n,
                forall|a: int, b: int|
                    0 <= a < i && 0 <= b < n && a != b ==> #[trigger] self.keys@[a]@ != #[trigger] self.keys@[b]@,
            decreases n - i,
        {
            let mut j: usize = 0;
            while j < n
                invariant
                    n == self.keys@.len(),
                    n == self.values@.len(),
                    i < n,
                    j <= n,
                    forall|a: int, b: int|
                        0 <= a < i && 0 <= b < n && a != b ==> #[trigger] self.keys@[a]@ != #[trigger] self.keys@[b]@,
                    forall|b: int| 0 <= b < j && b != i ==> self.keys@[i as int]@ != #[trigger] self.keys@[b]@,
                decreases n - j,
            {
                if j != i && self.keys[i].same_key(&self.keys[j]) {
                    return false;
                }
                j = j + 1;
            }
            i = i + 1;
        }
        true
    }

    /// Number of entries.
    pub fn len(&self) -> (n: usize)
        requires
            self.wf(),
        ensures
            n == self@.len(),
            n == self.pairs().len(),
    {
        proof {
            self.lemma_view();
        }
        self.keys.len()
    }

    /// True when the table holds no entry.
    pub fn is_empty(&self) -> (b: bool)
        requires
            self.wf(),
        ensures
            b == (self@.len() == 0),
            b == (self@ == Map::<K::V, V::V>::empty()),
    {
        proof {
            self.lemma_view();
            if self.pairs().len() != 0 {
                assert(self@.contains_key(self.pairs()[0].0));
            } else {
                assert(self@ =~= Map::<K::V, V::V>::empty());
            }
        }
        self.keys.len() == 0
    }

    /// Position of the entry with key `k`, if any.
    pub fn find(&self, k: &K) -> (r: Option<usize>)
        requires
            self.wf(),
        ensures
            match r {
                Some(i) => i < self.pairs().len() && self.pairs()[i as int].0 == k@,
                None => !self@.contains_key(k@),
            },
    {
        proof {
            self.lemma_view();
        }
        let mut i: usize = 0;
        while i < self.keys.len()
            invariant
                self.wf(),
                i <= self.keys@.len(),
                self.pairs().len() == self.keys@.len(),
                forall|j: int| 0 <= j < i ==> self.pairs()[j].0 != k@,
            decreases self.keys@.len() - i,
        {
            if self.keys[i].same_key(k) {
                return Some(i);
            }
            i = i + 1;
        }
        None
    }

    /// The key stored at position `i`.
    pub fn key_at(&self, i: usize) -> (r: &K)
        requires
            self.wf(),
            i < self.pairs().len(),
        ensures
            r@ == self.pairs()[i as int].0,
    {
        &self.keys[i]
    }

    /// The value stored at position `i`.
    pub fn value_at(&self, i: usize) -> (r: &V)
        requires
            self.wf(),
            i < self.pairs().len(),
        ensures
            r@ == self.pairs()[i as int].1,
    {
        &self.values[i]
    }

    /// The value stored under `k`, if any.
    pub fn get(&self, k: &K) -> (r: Option<&V>)
        requires
            self.wf(),
        ensures
            match r {
                Some(v) => self@.contains_key(k@) && v@ == self@[k@],
                None => !self@.contains_key(k@),
            },
    {
        proof {
            self.lemma_view();
        }
        match self.find(k) {
            Some(i) => Some(&self.values[i]),
            None => None,
        }
    }

    /// True when some entry has key `k`.
    pub fn contains_key(&self, k: &K) -> (b: bool)
        requires
            self.wf(),
        ensures
            b == self@.contains_key(k@),
    {
        self.find(k).is_some()
    }

    /// Replace the value at position `i`; the key and the order stay.
    pub fn set_value_at(&mut self, i: usize, v: V)
        requires
            old(self).wf(),
            i < old(self).pairs().len(),
        ensures
            final(self).wf(),
            final(self).pairs() == old(self).pairs().update(i as int, (old(self).pairs()[i as int].0, v@)),
            final(self)@ == old(self)@.insert(old(self).pairs()[i as int].0, v@),
    {
        proof {
            lemma_pairs_update(self.pairs(), i as int, v@);
        }
        let ghost before = self.pairs();
        self.values.set(i, v);
        proof {
            assert(self.pairs() =~= before.update(i as int, (before[i as int].0, v@)));
        }
    }

    /// Insert or replace the value stored under `k`.
    /// A new key goes to the end of the iteration order; an existing key keeps its place.
    pub fn insert(&mut self, k: K, v: V)
        requires
            old(self).wf(),
        ensures
            final(self).wf(),
            final(self)@ == old(self)@.insert(k@, v@),
            final(self).pairs() == pairs_insert(old(self).pairs(), k@, v@),
    {
        proof {
            self.lemma_view();
        }
        match self.find(&k) {
            Some(i) => {
                proof {
                    lemma_key_index(self.pairs(), i as int);
                }
                self.set_value_at(i, v);
            },
            None => {
                proof {
                    lemma_pairs_push(self.pairs(), k@, v@);
                }
                let ghost before = self.pairs();
                self.keys.push(k);
                self.values.push(v);
                proof {
                    assert(self.pairs() =~= before.push((k@, v@)));
                    self.lemma_wf_from_pairs();
                }
            },
        }
    }

    /// Mutable access to the value stored under `k`, if any; the key and the order stay.
    pub fn get_mut(&mut self, k: &K) -> (r: Option<&mut V>)
        requires
            old(self).wf(),
        ensures
            final(self).wf(),
            match r {
                Some(v) => {
                    &&& old(self)@.contains_key(k@)
                    &&& v@ == old(self)@[k@]
                    &&& final(self)@ == old(self)@.insert(k@, final(v)@)
                    &&& final(self).pairs() == pairs_insert(old(self).pairs(), k@, final(v)@)
                },
                None => !old(self)@.contains_key(k@) && *final(self) == *old(self),
            },
    {
        proof {
            self.lemma_view();
        }
        match self.find(k) {
            Some(i) => {
                proof {
                    lemma_key_index(self.pairs(), i as int);
                    self.lemma_replace_any(i as int);
                }
                Some(&mut self.values[i])
            },
            None => None,
        }
    }

    /// References to the values, in iteration order.
    pub fn values(&self) -> (r: Vec<&V>)
        requires
            self.wf(),
        ensures
            r@.len() == self.pairs().len(),
            forall|i: int| 0 <= i < r@.len() ==> #[trigger] r@[i]@ == self.pairs()[i].1,
    {
        let mut r: Vec<&V> = Vec::new();
        let mut i: usize = 0;
        while i < self.values.len()
            invariant
                self.wf(),
                i <= self.values@.len(),
                self.pairs().len() == self.values@.len(),
                r@.len() == i,
                forall|j: int| 0 <= j < i ==> #[trigger] r@[j]@ == self.pairs()[j].1,
            decreases self.values@.len() - i,
        {
            r.push(&self.values[i]);
            i = i + 1;
        }
        r
    }
}

impl<K: TableKey, V: Duplicate> Table<K, V> {
    /// A copy with the same pairs in the same order.
    pub fn duplicate(&self) -> (r: Self)
        requires
            self.wf(),
        ensures
            r.wf(),
            r.pairs() == self.pairs(),
            r@ == self@,
    {
        let mut keys: Vec<K> = Vec::new();
        let mut values: Vec<V> = Vec::new();
        let mut i: usize = 0;
        while i < self.keys.len()
            invariant
                self.wf(),
                i <= self.keys@.len(),
                keys@.len() == i,
                values@.len() == i,
                pair_views(keys@, values@) == self.pairs().take(i as int),
            decreases self.keys@.len() - i,
        {
            keys.push(self.keys[i].duplicate_key());
            values.push(self.values[i].duplicate());
            proof {
                assert(pair_views(keys@, values@) =~= self.pairs().take(i + 1));
            }
            i = i + 1;
        }
        proof {
            assert(self.pairs().take(i as int) =~= self.pairs());
            self.lemma_view();
        }
        let r = Table { keys, values };
        proof {
            r.lemma_wf_from_pairs();
        }
        r
    }
}

} // verus!
