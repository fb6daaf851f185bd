//! Byte-keyed storage maps.
//!
//! Contract storage entries are addressed by keys made of at most two byte
//! strings (an identifier, or an account together with an identifier).  The
//! `KeyMap` below stores such entries in an association list with unique keys
//! and is specified by a mathematical `Map`.
use vstd::prelude::*;

verus! {

/// Byte-wise equality of two byte strings.
pub fn bytes_eq(a: &[u8], b: &[u8]) -> (r: bool)
    ensures
        r == (a@ == b@),
{
    if a.len() != b.len() {
        return false;
    }
    let mut i: usize = 0;
    while i < a.len()
        invariant
            0 <= i <= a.len(),
            a.len() == b.len(),
            forall|j: int| 0 <= j < i ==> a@[j] == b@[j],
        decreases a.len() - i,
    {
        if a[i] != b[i] {
            return false;
        }
        i = i + 1;
    }
    assert(a@ =~= b@);
    true
}

/// A fresh copy of a byte string.
pub fn copy_bytes(a: &[u8]) -> (r: Vec<u8>)
    ensures
        r@ == a@,
{
    let mut r: Vec<u8> = Vec::new();
    let mut i: usize = 0;
    while i < a.len()
        invariant
            0 <= i <= a.len(),
            r@ =~= a@.subrange(0, i as int),
        decreases a.len() - i,
    {
        r.push(a[i]);
        i = i + 1;
    }
    assert(r@ =~= a@);
    r
}

/// A storage key: one or two byte strings.  Keys made of a single string
/// leave `second` empty.
pub struct Key {
    pub first: Vec<u8>,
    pub second: Vec<u8>,
}

impl View for Key {
    type V = (Seq<u8>, Seq<u8>);

    open spec fn view(&self) -> (Seq<u8>, Seq<u8>) {
        (self.first@, self.second@)
    }
}

/// The view of a key made of one byte string.
pub open spec fn single_key(a: Seq<u8>) -> (Seq<u8>, Seq<u8>) {
    (a, Seq::empty())
}

/// The view of a key made of two byte strings.
pub open spec fn pair_key(a: Seq<u8>, b: Seq<u8>) -> (Seq<u8>, Seq<u8>) {
    (a, b)
}

impl Key {
    /// A key made of a copy of one byte string.
    pub fn single(a: &[u8]) -> (k: Key)
        ensures
            k@ == single_key(a@),
    {
        let k = Key { first: copy_bytes(a), second: Vec::new() };
        assert(k.second@ =~= Seq::<u8>::empty());
        k
    }

    /// A key made of copies of two byte strings.
    pub fn pair(a: &[u8], b: &[u8]) -> (k: Key)
        ensures
            k@ == pair_key(a@, b@),
    {
        Key { first: copy_bytes(a), second: copy_bytes(b) }
    }

    /// Whether two keys are made of the same byte strings.
    pub fn same(&self, other: &Key) -> (r: bool)
        ensures
            r == (self@ == other@),
    {
        bytes_eq(self.first.as_slice(), other.first.as_slice()) && bytes_eq(
            self.second.as_slice(),
            other.second.as_slice(),
        )
    }
}

/// A map whose keys are single byte strings, read from a map keyed by
/// `single_key`s.
pub open spec fn by_single<V>(m: Map<(Seq<u8>, Seq<u8>), V>) -> Map<Seq<u8>, V> {
    Map::new(|a: Seq<u8>| m.dom().contains(single_key(a)), |a: Seq<u8>| m[single_key(a)])
}

pub proof fn lemma_by_single_empty<V>()
    ensures
        by_single(Map::<(Seq<u8>, Seq<u8>), V>::empty()) == Map::<Seq<u8>, V>::empty(),
{
    assert(by_single(Map::<(Seq<u8>, Seq<u8>), V>::empty()) =~= Map::<Seq<u8>, V>::empty());
}

pub proof fn lemma_by_single_insert<V>(m: Map<(Seq<u8>, Seq<u8>), V>, a: Seq<u8>, v: V)
    ensures
        by_single(m.insert(single_key(a), v)) == by_single(m).insert(a, v),
{
    assert(by_single(m.insert(single_key(a), v)) =~= by_single(m).insert(a, v));
}

/// `by_single`, with every value taken by its view.
pub open spec fn by_single_view<V: View>(m: Map<(Seq<u8>, Seq<u8>), V>) -> Map<Seq<u8>, V::V> {
    Map::new(|a: Seq<u8>| m.dom().contains(single_key(a)), |a: Seq<u8>| m[single_key(a)]@)
}

pub proof fn lemma_by_single_view_empty<V: View>()
    ensures
        by_single_view(Map::<(Seq<u8>, Seq<u8>), V>::empty()) == Map::<Seq<u8>, V::V>::empty(),
{
    assert(by_single_view(Map::<(Seq<u8>, Seq<u8>), V>::empty()) =~= Map::<Seq<u8>, V::V>::empty());
}

pub proof fn lemma_by_single_view_insert<V: View>(m: Map<(Seq<u8>, Seq<u8>), V>, a: Seq<u8>, v: V)
    ensures
        by_single_view(m.insert(single_key(a), v)) == by_single_view(m).insert(a, v@),
{
    assert(by_single_view(m.insert(single_key(a), v)) =~= by_single_view(m).insert(a, v@));
}

pub proof fn lemma_by_single_view_remove<V: View>(m: Map<(Seq<u8>, Seq<u8>), V>, a: Seq<u8>)
    ensures
        by_single_view(m.remove(single_key(a))) == by_single_view(m).remove(a),
{
    assert(by_single_view(m.remove(single_key(a))) =~= by_single_view(m).remove(a));
}

/// The sum of the weights of the values of a sequence of entries.
pub open spec fn weight_sum<V>(s: Seq<(Key, V)>, w: spec_fn(V) -> int) -> int
    decreases s.len(),
{
    if s.len() == 0 {
        0
    } else {
        weight_sum(s.drop_last(), w) + w(s.last().1)
    }
}

/// The weight of a concatenation is the sum of the weights of its parts.
pub proof fn lemma_weight_sum_concat<V>(a: Seq<(Key, V)>, b: Seq<(Key, V)>, w: spec_fn(V) -> int)
    ensures
        weight_sum(a + b, w) == weight_sum(a, w) + weight_sum(b, w),
    decreases b.len(),
{
    if b.len() == 0 {
        assert(a + b =~= a);
    } else {
        lemma_weight_sum_concat(a, b.drop_last(), w);
        assert((a + b).drop_last() =~= a + b.drop_last());
    }
}

/// A sequence whose values all weigh at least zero has a total of at least zero.
pub proof fn lemma_weight_sum_nonneg<V>(s: Seq<(Key, V)>, w: spec_fn(V) -> int)
    requires
        forall|i: int| 0 <= i < s.len() ==> w(#[trigger] s[i].1) >= 0,
    ensures
        weight_sum(s, w) >= 0,
    decreases s.len(),
{
    if s.len() > 0 {
        let t = s.drop_last();
        assert forall|i: int| 0 <= i < t.len() implies w(#[trigger] t[i].1) >= 0 by {
            assert(t[i] == s[i]);
        }
        lemma_weight_sum_nonneg(t, w);
    }
}

/// Splits the weight of a sequence around position `i`.
pub proof fn lemma_weight_sum_split<V>(s: Seq<(Key, V)>, i: int, w: spec_fn(V) -> int)
    requires
        0 <= i < s.len(),
    ensures
        weight_sum(s, w) == weight_sum(s.subrange(0, i), w) + w(s[i].1) + weight_sum(
            s.subrange(i + 1, s.len() as int),
            w,
        ),
{
    let a = s.subrange(0, i);
    let b = s.subrange(i, s.len() as int);
    assert(s =~= a + b);
    lemma_weight_sum_concat(a, b, w);
    let c = s.subrange(i + 1, s.len() as int);
    assert(b =~= seq![s[i]] + c);
    lemma_weight_sum_concat(seq![s[i]], c, w);
    assert(seq![s[i]].drop_last() =~= Seq::<(Key, V)>::empty());
    assert(weight_sum(seq![s[i]].drop_last(), w) == 0);
    assert(weight_sum(seq![s[i]], w) == w(s[i].1));
}

/// With no value weighing less than zero, each value weighs no more than
/// the whole sequence.
pub proof fn lemma_weight_elem_le<V>(s: Seq<(Key, V)>, j: int, w: spec_fn(V) -> int)
    requires
        0 <= j < s.len(),
        forall|i: int| 0 <= i < s.len() ==> w(#[trigger] s[i].1) >= 0,
    ensures
        w(s[j].1) <= weight_sum(s, w),
{
    lemma_weight_sum_split(s, j, w);
    let a = s.subrange(0, j);
    let b = s.subrange(j + 1, s.len() as int);
    assert forall|i: int| 0 <= i < a.len() implies w(#[trigger] a[i].1) >= 0 by {
        assert(a[i] == s[i]);
    }
    assert forall|i: int| 0 <= i < b.len() implies w(#[trigger] b[i].1) >= 0 by {
        assert(b[i] == s[i + j + 1]);
    }
    lemma_weight_sum_nonneg(a, w);
    lemma_weight_sum_nonneg(b, w);
}

/// With no value weighing less than zero, two values at distinct positions
/// weigh together no more than the whole sequence.
pub proof fn lemma_weight_two_le<V>(s: Seq<(Key, V)>, i: int, j: int, w: spec_fn(V) -> int)
    requires
        0 <= i < s.len(),
        0 <= j < s.len(),
        i != j,
        forall|k: int| 0 <= k < s.len() ==> w(#[trigger] s[k].1) >= 0,
    ensures
        w(s[i].1) + w(s[j].1) <= weight_sum(s, w),
{
    lemma_weight_sum_split(s, i, w);
    let a = s.subrange(0, i);
    let b = s.subrange(i + 1, s.len() as int);
    assert forall|k: int| 0 <= k < a.len() implies w(#[trigger] a[k].1) >= 0 by {
        assert(a[k] == s[k]);
    }
    assert forall|k: int| 0 <= k < b.len() implies w(#[trigger] b[k].1) >= 0 by {
        assert(b[k] == s[k + i + 1]);
    }
    lemma_weight_sum_nonneg(a, w);
    lemma_weight_sum_nonneg(b, w);
    if j < i {
        assert(a[j] == s[j]);
        lemma_weight_elem_le(a, j, w);
    } else {
        assert(b[j - i - 1] == s[j]);
        lemma_weight_elem_le(b, j - i - 1, w);
    }
}

/// A map from keys to values, kept as an association list whose keys are
/// pairwise distinct.
pub struct KeyMap<V> {
    entries: Vec<(Key, V)>,
}

impl<V> KeyMap<V> {
    /// The key of the `i`-th entry.
    pub closed spec fn key_at(&self, i: int) -> (Seq<u8>, Seq<u8>) {
        self.entries@[i].0@
    }

    /// No key occurs twice.
    pub closed spec fn wf(&self) -> bool {
        forall|i: int, j: int|
            0 <= i < self.entries@.len() && 0 <= j < self.entries@.len() && i != j ==> #[trigger] self.key_at(i)
                != #[trigger] self.key_at(j)
    }

    /// Whether some entry has key `k`.
    pub closed spec fn has(&self, k: (Seq<u8>, Seq<u8>)) -> bool {
        exists|i: int| 0 <= i < self.entries@.len() && #[trigger] self.key_at(i) == k
    }

    /// The position of the entry with key `k`.
    pub closed spec fn index_of(&self, k: (Seq<u8>, Seq<u8>)) -> int {
        choose|i: int| 0 <= i < self.entries@.len() && #[trigger] self.key_at(i) == k
    }

    /// The contents, as a map.
    pub closed spec fn view(&self) -> Map<(Seq<u8>, Seq<u8>), V> {
        Map::new(|k: (Seq<u8>, Seq<u8>)| self.has(k), |k: (Seq<u8>, Seq<u8>)| self.entries@[self.index_of(k)].1)
    }

    /// The sum of the weights `w` of all values.
    pub closed spec fn total(&self, w: spec_fn(V) -> int) -> int {
        weight_sum(self.entries@, w)
    }

    proof fn lemma_index(&self, i: int)
        requires
            self.wf(),
            0 <= i < self.entries@.len(),
        ensures
            self.has(self.key_at(i)),
            self.index_of(self.key_at(i)) == i,
            self.view().dom().contains(self.key_at(i)),
            self.view()[self.key_at(i)] == self.entries@[i].1,
    {
        let k = self.key_at(i);
        assert(self.has(k));
        let j = self.index_of(k);
        assert(self.key_at(j) == k);
    }

    /// The empty map.
    pub fn new() -> (m: Self)
        ensures
            m.wf(),
            m.view() == Map::<(Seq<u8>, Seq<u8>), V>::empty(),
            forall|w: spec_fn(V) -> int| #[trigger] m.total(w) == 0,
    {
        let m = KeyMap { entries: Vec::new() };
        assert(m.view() =~= Map::<(Seq<u8>, Seq<u8>), V>::empty());
        m
    }

    /// The position of the entry with key `k`, if any.
    fn find(&self, k: &Key) -> (r: Option<usize>)
        requires
            self.wf(),
        ensures
            match r {
                Some(i) => i < self.entries@.len() && self.key_at(i as int) == k@,
                None => !self.has(k@),
            },
    {
        let mut i: usize = 0;
        while i < self.entries.len()
            invariant
                0 <= i <= self.entries@.len(),
                forall|j: int| 0 <= j < i ==> #[trigger] self.key_at(j) != k@,
            decreases self.entries.len() - i,
        {
            if self.entries[i].0.same(k) {
                return Some(i);
            }
            i = i + 1;
        }
        None
    }

    /// Whether the map has an entry for `k`.
    pub fn contains_key(&self, k: &Key) -> (r: bool)
        requires
            self.wf(),
        ensures
            r == self.view().dom().contains(k@),
    {
        match self.find(k) {
            Some(i) => {
                proof {
                    self.lemma_index(i as int);
                }
                true
            },
            None => false,
        }
    }

    /// The value stored for `k`, if any.
    pub fn get(&self, k: &Key) -> (r: Option<&V>)
        requires
            self.wf(),
        ensures
            r is Some == self.view().dom().contains(k@),
            r matches Some(v) ==> *v == self.view()[k@],
    {
        match self.find(k) {
            Some(i) => {
                proof {
                    self.lemma_index(i as int);
                }
                Some(&self.entries[i].1)
            },
            None => None,
        }
    }

    /// Stores `v` under `k`, replacing what was there.
    pub fn insert(&mut self, k: Key, v: V)
        requires
            old(self).wf(),
        ensures
            final(self).wf(),
            final(self).view() == old(self).view().insert(k@, v),
            forall|w: spec_fn(V) -> int|
                #[trigger] final(self).total(w) == old(self).total(w) - (if old(self).view().dom().contains(
                    k@,
                ) {
                    w(old(self).view()[k@])
                } else {
                    0
                }) + w(v),
    {
        let ghost kv = k@;
        let ghost pre = *self;
        match self.find(&k) {
            Some(i) => {
                proof {
                    pre.lemma_index(i as int);
                }
                self.entries.set(i, (k, v));
                proof {
                    assert forall|a: int, b: int|
                        0 <= a < self.entries@.len() && 0 <= b < self.entries@.len() && a != b implies #[trigger] self.key_at(a)
                        != #[trigger] self.key_at(b) by {
                        assert(pre.key_at(a) != pre.key_at(b));
                        if a != i {
                            assert(self.key_at(a) == pre.key_at(a));
                        }
                        if b != i {
                            assert(self.key_at(b) == pre.key_at(b));
                        }
                    }
                    assert forall|kk: (Seq<u8>, Seq<u8>)|
                        #![auto]
                        self.view().dom().contains(kk) == pre.view().insert(kv, v).dom().contains(kk)
                        by {
                        if pre.has(kk) {
                            let j = pre.index_of(kk);
                            assert(self.key_at(j) == kk);
                        }
                        if self.has(kk) {
                            let j = self.index_of(kk);
                            if j != i {
                                assert(pre.key_at(j) == kk);
                            }
                        }
                    }
                    assert forall|kk: (Seq<u8>, Seq<u8>)|
                        #![auto]
                        self.view().dom().contains(kk) implies self.view()[kk] == pre.view().insert(
                            kv,
                            v,
                        )[kk] by {
                        let j = self.index_of(kk);
                        self.lemma_index(j);
                        if j != i {
                            assert(pre.key_at(j) == kk);
                            pre.lemma_index(j);
                        }
                    }
                    assert(self.view() =~= pre.view().insert(kv, v));
                    assert forall|w: spec_fn(V) -> int|
                        #[trigger] self.total(w) == pre.total(w) - w(pre.view()[kv]) + w(v) by {
                        lemma_weight_sum_split(pre.entries@, i as int, w);
                        lemma_weight_sum_split(self.entries@, i as int, w);
                        assert(self.entries@.subrange(0, i as int) =~= pre.entries@.subrange(
                            0,
                            i as int,
                        ));
                        assert(self.entries@.subrange(i + 1, self.entries@.len() as int)
                            =~= pre.entries@.subrange(i + 1, pre.entries@.len() as int));
                    }
                }
            },
            None => {
                self.entries.push((k, v));
                proof {
                    let n = pre.entries@.len() as int;
                    assert forall|a: int, b: int|
                        0 <= a < self.entries@.len() && 0 <= b < self.entries@.len() && a != b implies #[trigger] self.key_at(a)
                        != #[trigger] self.key_at(b) by {
                        if a < n && b < n {
                            assert(pre.key_at(a) != pre.key_at(b));
                        }
                        if a < n {
                            assert(self.key_at(a) == pre.key_at(a));
                            assert(!pre.has(kv));
                        }
                        if b < n {
                            assert(self.key_at(b) == pre.key_at(b));
                            assert(!pre.has(kv));
                        }
                    }
                    assert forall|kk: (Seq<u8>, Seq<u8>)|
                        #![auto]
                        self.view().dom().contains(kk) == pre.view().insert(kv, v).dom().contains(kk)
                        by {
                        if pre.has(kk) {
                            let j = pre.index_of(kk);
                            assert(self.key_at(j) == kk);
                        }
                        if kk == kv {
                            assert(self.key_at(n) == kv);
                        }
                        if self.has(kk) {
                            let j = self.index_of(kk);
                            if j != n {
                                assert(pre.key_at(j) == kk);
                            }
                        }
                    }
                    assert forall|kk: (Seq<u8>, Seq<u8>)|
                        #![auto]
                        self.view().dom().contains(kk) implies self.view()[kk] == pre.view().insert(
                            kv,
                            v,
                        )[kk] by {
                        let j = self.index_of(kk);
                        self.lemma_index(j);
                        if j != n {
                            assert(pre.key_at(j) == kk);
                            pre.lemma_index(j);
                        }
                    }
                    assert(self.view() =~= pre.view().insert(kv, v));
                    assert forall|w: spec_fn(V) -> int|
                        #[trigger] self.total(w) == pre.total(w) + w(v) by {
                        assert(self.entries@.drop_last() =~= pre.entries@);
                    }
                }
            },
        }
    }

    /// Removes the entry for `k`, if any.
    pub fn remove(&mut self, k: &Key)
        requires
            old(self).wf(),
        ensures
            final(self).wf(),
            final(self).view() == old(self).view().remove(k@),
            forall|w: spec_fn(V) -> int|
                #[trigger] final(self).total(w) == old(self).total(w) - (if old(self).view().dom().contains(
                    k@,
                ) {
                    w(old(self).view()[k@])
                } else {
                    0
                }),
    {
        let ghost kv = k@;
        let ghost pre = *self;
        match self.find(k) {
            Some(i) => {
                proof {
                    pre.lemma_index(i as int);
                }
                let _removed = self.entries.remove(i);
                proof {
                    let n = pre.entries@.len() as int;
                    assert forall|a: int|
                        0 <= a < self.entries@.len() implies #[trigger] self.key_at(a) == if a < i {
                            pre.key_at(a)
                        } else {
                            pre.key_at(a + 1)
                        } by {}
                    assert forall|a: int, b: int|
                        0 <= a < self.entries@.len() && 0 <= b < self.entries@.len() && a != b implies #[trigger] self.key_at(a)
                        != #[trigger] self.key_at(b) by {
                        let pa = if a < i { a } else { a + 1 };
                        let pb = if b < i { b } else { b + 1 };
                        assert(pre.key_at(pa) != pre.key_at(pb));
                    }
                    assert forall|kk: (Seq<u8>, Seq<u8>)|
                        #![auto]
                        self.view().dom().contains(kk) == pre.view().remove(kv).dom().contains(kk) by {
                        if pre.has(kk) && kk != kv {
                            let j = pre.index_of(kk);
                            assert(j != i);
                            if j < i {
                                assert(self.key_at(j) == kk);
                            } else {
                                assert(self.key_at(j - 1) == kk);
                            }
                        }
                        if self.has(kk) {
                            let j = self.index_of(kk);
                            let pj = if j < i { j } else { j + 1 };
                            assert(pre.key_at(pj) == kk);
                            assert(pj != i);
                        }
                    }
                    assert forall|kk: (Seq<u8>, Seq<u8>)|
                        #![auto]
                        self.view().dom().contains(kk) implies self.view()[kk] == pre.view().remove(
                            kv,
                        )[kk] by {
                        let j = self.index_of(kk);
                        self.lemma_index(j);
                        let pj = if j < i { j } else { j + 1 };
                        assert(pre.key_at(pj) == kk);
                        pre.lemma_index(pj);
                    }
                    assert(self.view() =~= pre.view().remove(kv));
                    assert forall|w: spec_fn(V) -> int|
                        #[trigger] self.total(w) == pre.total(w) - w(pre.view()[kv]) by {
                        lemma_weight_sum_split(pre.entries@, i as int, w);
                        assert(self.entries@ =~= pre.entries@.subrange(0, i as int)
                            + pre.entries@.subrange(i + 1, n));
                        lemma_weight_sum_concat(
                            pre.entries@.subrange(0, i as int),
                            pre.entries@.subrange(i + 1, n),
                            w,
                        );
                    }
                }
            },
            None => {
                proof {
                    assert(self.view() =~= pre.view().remove(kv));
                }
            },
        }
    }

    /// A value whose weight is at least zero weighs no more than the whole
    /// map, when no value weighs less than zero.
    pub proof fn lemma_value_le_total(&self, k: (Seq<u8>, Seq<u8>), w: spec_fn(V) -> int)
        requires
            self.wf(),
            self.view().dom().contains(k),
            forall|kk: (Seq<u8>, Seq<u8>)| #[trigger]
                self.view().dom().contains(kk) ==> w(self.view()[kk]) >= 0,
        ensures
            w(self.view()[k]) <= self.total(w),
    {
        let s = self.entries@;
        let i = self.index_of(k);
        self.lemma_index(i);
        assert forall|j: int| 0 <= j < s.len() implies w(#[trigger] s[j].1) >= 0 by {
            self.lemma_index(j);
        }
        lemma_weight_sum_split(s, i, w);
        let a = s.subrange(0, i);
        let b = s.subrange(i + 1, s.len() as int);
        assert forall|j: int| 0 <= j < a.len() implies w(#[trigger] a[j].1) >= 0 by {
            assert(a[j] == s[j]);
        }
        assert forall|j: int| 0 <= j < b.len() implies w(#[trigger] b[j].1) >= 0 by {
            assert(b[j] == s[j + i + 1]);
        }
        lemma_weight_sum_nonneg(a, w);
        lemma_weight_sum_nonneg(b, w);
    }

    /// Two values under distinct keys weigh together no more than the whole
    /// map, when no value weighs less than zero.
    pub proof fn lemma_two_values_le_total(
        &self,
        k1: (Seq<u8>, Seq<u8>),
        k2: (Seq<u8>, Seq<u8>),
        w: spec_fn(V) -> int,
    )
        requires
            self.wf(),
            self.view().dom().contains(k1),
            self.view().dom().contains(k2),
            k1 != k2,
            forall|kk: (Seq<u8>, Seq<u8>)| #[trigger]
                self.view().dom().contains(kk) ==> w(self.view()[kk]) >= 0,
        ensures
            w(self.view()[k1]) + w(self.view()[k2]) <= self.total(w),
    {
        let s = self.entries@;
        let i = self.index_of(k1);
        let j = self.index_of(k2);
        self.lemma_index(i);
        self.lemma_index(j);
        assert forall|k: int| 0 <= k < s.len() implies w(#[trigger] s[k].1) >= 0 by {
            self.lemma_index(k);
        }
        lemma_weight_two_le(s, i, j, w);
    }

    /// With every value weighing at least zero, so does the whole map.
    pub proof fn lemma_total_nonneg(&self, w: spec_fn(V) -> int)
        requires
            self.wf(),
            forall|kk: (Seq<u8>, Seq<u8>)| #[trigger]
                self.view().dom().contains(kk) ==> w(self.view()[kk]) >= 0,
        ensures
            self.total(w) >= 0,
    {
        let s = self.entries@;
        assert forall|j: int| 0 <= j < s.len() implies w(#[trigger] s[j].1) >= 0 by {
            self.lemma_index(j);
        }
        lemma_weight_sum_nonneg(s, w);
    }
}

} // verus!
