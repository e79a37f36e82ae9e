use vstd::prelude::*;

verus! {

/// Keys of an [`AssocMap`]: values that can be compared and duplicated by their view.
pub trait KeyEq: View + Sized {
    fn key_eq(&self, other: &Self) -> (r: bool)
        ensures
            r == (self@ == other@),
    ;

    fn key_clone(&self) -> (r: Self)
        ensures
            r@ == self@,
    ;
}

impl<const N: usize> KeyEq for [u8; N] {
    fn key_eq(&self, other: &Self) -> (r: bool) {
        let mut i: usize = 0;
        while i < N
            invariant
                0 <= i <= N,
                self@.len() == N,
                other@.len() == N,
                forall|j: int| 0 <= j < i ==> self@[j] == other@[j],
            decreases N - i,
        {
            if self[i] != other[i] {
                return false;
            }
            i = i + 1;
        }
        assert(self@ =~= other@);
        true
    }

    fn key_clone(&self) -> (r: Self) {
        *self
    }
}

impl KeyEq for String {
    fn key_eq(&self, other: &Self) -> (r: bool) {
        *self == *other
    }

    fn key_clone(&self) -> (r: Self) {
        self.clone()
    }
}

impl KeyEq for u64 {
    fn key_eq(&self, other: &Self) -> (r: bool) {
        *self == *other
    }

    fn key_clone(&self) -> (r: Self) {
        *self
    }
}

impl<A: KeyEq, B: KeyEq> KeyEq for (A, B) {
    fn key_eq(&self, other: &Self) -> (r: bool) {
        self.0.key_eq(&other.0) && self.1.key_eq(&other.1)
    }

    fn key_clone(&self) -> (r: Self) {
        (self.0.key_clone(), self.1.key_clone())
    }
}

/// Values that can be duplicated, keeping their view.
pub trait Dup: View + Sized {
    fn dup(&self) -> (r: Self)
        ensures
            r@ == self@,
    ;
}

impl Dup for u128 {
    fn dup(&self) -> (r: Self) {
        *self
    }
}

impl Dup for u64 {
    fn dup(&self) -> (r: Self) {
        *self
    }
}

impl Dup for u32 {
    fn dup(&self) -> (r: Self) {
        *self
    }
}

impl Dup for () {
    fn dup(&self) -> (r: Self) {
        ()
    }
}

impl<const N: usize> Dup for [u8; N] {
    fn dup(&self) -> (r: Self) {
        *self
    }
}

impl<const N: usize> Dup for Vec<[u8; N]> {
    fn dup(&self) -> (r: Self) {
        let mut r: Vec<[u8; N]> = Vec::new();
        let mut i: usize = 0;
        while i < self.len()
            invariant
                0 <= i <= self@.len(),
                r@ == self@.subrange(0, i as int),
            decreases self@.len() - i,
        {
            r.push(self[i]);
            i = i + 1;
        }
        assert(self@.subrange(0, self@.len() as int) =~= self@);
        r
    }
}

impl Dup for Vec<u8> {
    fn dup(&self) -> (r: Self) {
        let mut r: Vec<u8> = Vec::new();
        let mut i: usize = 0;
        while i < self.len()
            invariant
                0 <= i <= self@.len(),
                r@ == self@.subrange(0, i as int),
            decreases self@.len() - i,
        {
            r.push(self[i]);
            i = i + 1;
        }
        assert(self@.subrange(0, self@.len() as int) =~= self@);
        r
    }
}

impl Dup for String {
    fn dup(&self) -> (r: Self) {
        self.clone()
    }
}

/// A finite map stored as a vector of entries with pairwise distinct keys.
pub struct AssocMap<K, V> {
    entries: Vec<(K, V)>,
}

/// The keys of a sequence of entries, by their views.
pub open spec fn entry_keys<K: View, V>(s: Seq<(K, V)>) -> Seq<K::V> {
    s.map_values(|e: (K, V)| e.0@)
}

/// The map that a sequence of entries with distinct keys denotes, by views.
pub open spec fn entries_to_map<K: View, V: View>(s: Seq<(K, V)>) -> Map<K::V, V::V> {
    Map::new(
        |k: K::V| exists|i: int| 0 <= i < s.len() && #[trigger] s[i].0@ == k,
        |k: K::V| s[choose|i: int| 0 <= i < s.len() && #[trigger] s[i].0@ == k].1@,
    )
}

/// The entries of a sequence have pairwise distinct keys.
pub open spec fn distinct_keys<K: View, V>(s: Seq<(K, V)>) -> bool {
    forall|i: int, j: int| 0 <= i < s.len() && 0 <= j < s.len() && i != j ==> s[i].0@ != s[j].0@
}

pub(crate) proof fn lemma_lookup_at<K: View, V: View>(s: Seq<(K, V)>, i: int)
    requires
        distinct_keys(s),
        0 <= i < s.len(),
    ensures
        entries_to_map(s).contains_key(s[i].0@),
        entries_to_map(s)[s[i].0@] == s[i].1@,
{
    let k = s[i].0@;
    assert(exists|j: int| 0 <= j < s.len() && #[trigger] s[j].0@ == k) by {
        assert(s[i].0@ == k);
    }
    let c = choose|j: int| 0 <= j < s.len() && #[trigger] s[j].0@ == k;
    assert(c == i);
}

proof fn lemma_dom_is_key_set<K: View, V: View>(s: Seq<(K, V)>)
    ensures
        entries_to_map(s).dom() =~= entry_keys(s).to_set(),
{
    assert forall|k: K::V| entries_to_map(s).dom().contains(k) implies entry_keys(
        s,
    ).to_set().contains(k) by {
        let i = choose|i: int| 0 <= i < s.len() && #[trigger] s[i].0@ == k;
        assert(entry_keys(s)[i] == k);
    }
    assert forall|k: K::V| entry_keys(s).to_set().contains(k) implies entries_to_map(
        s,
    ).dom().contains(k) by {
        let i = choose|i: int| 0 <= i < entry_keys(s).len() && entry_keys(s)[i] == k;
        assert(s[i].0@ == k);
    }
}

/// Entries with distinct keys denote a finite map with one key per entry.
pub proof fn lemma_entries_len<K: View, V: View>(s: Seq<(K, V)>)
    requires
        distinct_keys(s),
    ensures
        entries_to_map(s).dom().finite(),
        entries_to_map(s).len() == s.len(),
{
    lemma_dom_is_key_set(s);
    let ks = entry_keys(s);
    assert(ks.no_duplicates()) by {
        assert forall|i: int, j: int| 0 <= i < ks.len() && 0 <= j < ks.len() && i != j implies ks[i]
            != ks[j] by {
            assert(ks[i] == s[i].0@);
            assert(ks[j] == s[j].0@);
        }
    }
    ks.unique_seq_to_set();
    vstd::seq_lib::seq_to_set_is_finite(ks);
}

impl<K: View, V: View> View for AssocMap<K, V> {
    type V = Map<K::V, V::V>;

    closed spec fn view(&self) -> Map<K::V, V::V> {
        entries_to_map(self.entries@)
    }
}

impl<K: KeyEq, V: View> AssocMap<K, V> {
    /// The map's entries have distinct keys.
    pub closed spec fn wf(&self) -> bool {
        distinct_keys(self.entries@)
    }

    /// Creates an empty map.
    pub fn new() -> (r: Self)
        ensures
            r.wf(),
            r@ == Map::<K::V, V::V>::empty(),
    {
        let r = AssocMap { entries: Vec::new() };
        assert(r@ =~= Map::<K::V, V::V>::empty());
        r
    }

    /// The domain of a well-formed map is finite.
    pub proof fn lemma_finite(&self)
        requires
            self.wf(),
        ensures
            self@.dom().finite(),
    {
        lemma_dom_is_key_set(self.entries@);
    }

    fn find(&self, k: &K) -> (r: Option<usize>)
        requires
            self.wf(),
        ensures
            match r {
                Some(i) => i < self.entries@.len() && self.entries@[i as int].0@ == k@,
                None => !self@.contains_key(k@),
            },
    {
        let mut i: usize = 0;
        while i < self.entries.len()
            invariant
                0 <= i <= self.entries@.len(),
                forall|j: int| 0 <= j < i ==> self.entries@[j].0@ != k@,
            decreases self.entries@.len() - i,
        {
            if self.entries[i].0.key_eq(k) {
                return Some(i);
            }
            i = i + 1;
        }
        assert(!self@.contains_key(k@)) by {
            if self@.contains_key(k@) {
                let j = choose|j: int|
                    0 <= j < self.entries@.len() && #[trigger] self.entries@[j].0@ == k@;
                assert(self.entries@[j].0@ != k@);
            }
        }
        None
    }

    /// Looks a key up.
    pub fn get(&self, k: &K) -> (r: Option<&V>)
        requires
            self.wf(),
        ensures
            match r {
                Some(v) => self@.contains_key(k@) && v@ == self@[k@],
                None => !self@.contains_key(k@),
            },
    {
        match self.find(k) {
            Some(i) => {
                proof {
                    lemma_lookup_at(self.entries@, i as int);
                }
                Some(&self.entries[i].1)
            },
            None => None,
        }
    }

    /// Whether the map holds a key.
    pub fn contains_key(&self, k: &K) -> (r: bool)
        requires
            self.wf(),
        ensures
            r == self@.contains_key(k@),
    {
        match self.find(k) {
            Some(i) => {
                proof {
                    lemma_lookup_at(self.entries@, i as int);
                }
                true
            },
            None => false,
        }
    }

    /// Binds a key to a value, replacing any earlier binding.
    pub fn insert(&mut self, k: K, v: V)
        requires
            old(self).wf(),
        ensures
            final(self).wf(),
            final(self)@ == old(self)@.insert(k@, v@),
    {
        let ghost old_s = self.entries@;
        let ghost kv = k@;
        let ghost vv = v@;
        match self.find(&k) {
            Some(i) => {
                self.entries.set(i, (k, v));
                proof {
                    let s = self.entries@;
                    assert forall|a: int, b: int|
                        0 <= a < s.len() && 0 <= b < s.len() && a != b implies s[a].0@
                        != s[b].0@ by {
                        if a != i && b != i {
                            assert(s[a] == old_s[a] && s[b] == old_s[b]);
                        } else if a == i {
                            assert(s[b] == old_s[b]);
                        } else {
                            assert(s[a] == old_s[a]);
                        }
                    }
                    assert forall|kk: K::V| #[trigger]
                        entries_to_map(s).contains_key(kk) == entries_to_map(old_s).insert(
                            kv,
                            vv,
                        ).contains_key(kk) by {
                        if entries_to_map(s).contains_key(kk) {
                            let j = choose|j: int| 0 <= j < s.len() && #[trigger] s[j].0@ == kk;
                            if j != i {
                                assert(old_s[j].0@ == kk);
                            }
                        }
                        if entries_to_map(old_s).contains_key(kk) {
                            let j = choose|j: int|
                                0 <= j < old_s.len() && #[trigger] old_s[j].0@ == kk;
                            if j != i {
                                assert(s[j].0@ == kk);
                            } else {
                                assert(s[i as int].0@ == kk);
                            }
                        }
                        if kk == kv {
                            assert(s[i as int].0@ == kk);
                        }
                    }
                    assert forall|kk: K::V| #[trigger]
                        entries_to_map(s).contains_key(kk) implies entries_to_map(s)[kk]
                        == entries_to_map(old_s).insert(kv, vv)[kk] by {
                        let j = choose|j: int| 0 <= j < s.len() && #[trigger] s[j].0@ == kk;
                        lemma_lookup_at(s, j);
                        if j != i {
                            assert(old_s[j] == s[j]);
                            lemma_lookup_at(old_s, j);
                        }
                    }
                    assert(entries_to_map(s) =~= entries_to_map(old_s).insert(kv, vv));
                }
            },
            None => {
                self.entries.push((k, v));
                proof {
                    let s = self.entries@;
                    let n = old_s.len() as int;
                    assert forall|a: int, b: int|
                        0 <= a < s.len() && 0 <= b < s.len() && a != b implies s[a].0@
                        != s[b].0@ by {
                        if a < n && b < n {
                            assert(s[a] == old_s[a] && s[b] == old_s[b]);
                        } else if a == n {
                            assert(s[b] == old_s[b]);
                            assert(!entries_to_map(old_s).contains_key(kv));
                            if old_s[b].0@ == kv {
                                assert(entries_to_map(old_s).contains_key(kv)) by {
                                    assert(old_s[b].0@ == kv);
                                }
                            }
                        } else {
                            assert(s[a] == old_s[a]);
                            if old_s[a].0@ == kv {
                                assert(entries_to_map(old_s).contains_key(kv)) by {
                                    assert(old_s[a].0@ == kv);
                                }
                            }
                        }
                    }
                    assert forall|kk: K::V| #[trigger]
                        entries_to_map(s).contains_key(kk) == entries_to_map(old_s).insert(
                            kv,
                            vv,
                        ).contains_key(kk) by {
                        if entries_to_map(s).contains_key(kk) {
                            let j = choose|j: int| 0 <= j < s.len() && #[trigger] s[j].0@ == kk;
                            if j < n {
                                assert(old_s[j].0@ == kk);
                            }
                        }
                        if entries_to_map(old_s).contains_key(kk) {
                            let j = choose|j: int|
                                0 <= j < old_s.len() && #[trigger] old_s[j].0@ == kk;
                            assert(s[j].0@ == kk);
                        }
                        if kk == kv {
                            assert(s[n].0@ == kk);
                        }
                    }
                    assert forall|kk: K::V| #[trigger]
                        entries_to_map(s).contains_key(kk) implies entries_to_map(s)[kk]
                        == entries_to_map(old_s).insert(kv, vv)[kk] by {
                        let j = choose|j: int| 0 <= j < s.len() && #[trigger] s[j].0@ == kk;
                        lemma_lookup_at(s, j);
                        if j < n {
                            assert(old_s[j] == s[j]);
                            lemma_lookup_at(old_s, j);
                        }
                    }
                    assert(entries_to_map(s) =~= entries_to_map(old_s).insert(kv, vv));
                }
            },
        }
    }

    /// Removes a key's binding, if any.
    pub fn remove(&mut self, k: &K)
        requires
            old(self).wf(),
        ensures
            final(self).wf(),
            final(self)@ == old(self)@.remove(k@),
    {
        let ghost old_s = self.entries@;
        match self.find(k) {
            Some(i) => {
                self.entries.remove(i);
                proof {
                    let s = self.entries@;
                    assert(s =~= old_s.remove(i as int));
                    assert forall|a: int, b: int|
                        0 <= a < s.len() && 0 <= b < s.len() && a != b implies s[a].0@
                        != s[b].0@ by {
                        let a2 = if a < i { a } else { a + 1 };
                        let b2 = if b < i { b } else { b + 1 };
                        assert(s[a] == old_s[a2] && s[b] == old_s[b2]);
                    }
                    assert forall|kk: K::V| #[trigger]
                        entries_to_map(s).contains_key(kk) == entries_to_map(old_s).remove(
                            k@,
                        ).contains_key(kk) by {
                        if entries_to_map(s).contains_key(kk) {
                            let j = choose|j: int| 0 <= j < s.len() && #[trigger] s[j].0@ == kk;
                            let j2 = if j < i { j } else { j + 1 };
                            assert(old_s[j2].0@ == kk);
                            assert(j2 != i);
                        }
                        if entries_to_map(old_s).remove(k@).contains_key(kk) {
                            let j = choose|j: int|
                                0 <= j < old_s.len() && #[trigger] old_s[j].0@ == kk;
                            assert(j != i);
                            let j2 = if j < i { j } else { j - 1 };
                            assert(s[j2].0@ == kk);
                        }
                    }
                    assert forall|kk: K::V| #[trigger]
                        entries_to_map(s).contains_key(kk) implies entries_to_map(s)[kk]
                        == entries_to_map(old_s).remove(k@)[kk] by {
                        let j = choose|j: int| 0 <= j < s.len() && #[trigger] s[j].0@ == kk;
                        lemma_lookup_at(s, j);
                        let j2 = if j < i { j } else { j + 1 };
                        assert(old_s[j2] == s[j]);
                        lemma_lookup_at(old_s, j2);
                    }
                    assert(entries_to_map(s) =~= entries_to_map(old_s).remove(k@));
                }
            },
            None => {
                assert(self@ =~= old(self)@.remove(k@));
            },
        }
    }

    /// The number of bindings.
    pub fn len(&self) -> (r: usize)
        requires
            self.wf(),
        ensures
            r == self@.dom().len(),
    {
        proof {
            lemma_dom_is_key_set(self.entries@);
            let ks = entry_keys(self.entries@);
            assert(ks.no_duplicates()) by {
                assert forall|a: int, b: int|
                    0 <= a < ks.len() && 0 <= b < ks.len() && a != b implies ks[a] != ks[b] by {
                    assert(ks[a] == self.entries@[a].0@);
                    assert(ks[b] == self.entries@[b].0@);
                }
            }
            ks.unique_seq_to_set();
        }
        self.entries.len()
    }

    /// Whether the map has no bindings.
    pub fn is_empty(&self) -> (r: bool)
        requires
            self.wf(),
        ensures
            r == (self@.dom().len() == 0),
            r == (self@ == Map::<K::V, V::V>::empty()),
    {
        let n = self.len();
        proof {
            self.lemma_finite();
            if n == 0 {
                assert(self@ =~= Map::<K::V, V::V>::empty());
            } else {
                assert(self@ != Map::<K::V, V::V>::empty()) by {
                    if self@ == Map::<K::V, V::V>::empty() {
                        assert(self@.dom() =~= Set::<K::V>::empty());
                    }
                }
            }
        }
        n == 0
    }
}

/// Two entry sequences whose entries have the same views denote the same map.
proof fn lemma_same_views<K: View, V: View>(s: Seq<(K, V)>, t: Seq<(K, V)>)
    requires
        distinct_keys(s),
        s.len() == t.len(),
        forall|j: int| 0 <= j < s.len() ==> #[trigger] s[j].0@ == t[j].0@ && s[j].1@ == t[j].1@,
    ensures
        distinct_keys(t),
        entries_to_map(t) == entries_to_map(s),
{
    assert forall|a: int, b: int| 0 <= a < t.len() && 0 <= b < t.len() && a != b implies t[a].0@
        != t[b].0@ by {
        assert(s[a].0@ == t[a].0@);
        assert(s[b].0@ == t[b].0@);
    }
    assert forall|k: K::V| #[trigger] entries_to_map(t).contains_key(k) == entries_to_map(
        s,
    ).contains_key(k) by {
        if entries_to_map(t).contains_key(k) {
            let j = choose|j: int| 0 <= j < t.len() && #[trigger] t[j].0@ == k;
            assert(s[j].0@ == t[j].0@);
        }
        if entries_to_map(s).contains_key(k) {
            let j = choose|j: int| 0 <= j < s.len() && #[trigger] s[j].0@ == k;
            assert(s[j].0@ == t[j].0@);
        }
    }
    assert forall|k: K::V| #[trigger] entries_to_map(t).contains_key(k) implies entries_to_map(
        t,
    )[k] == entries_to_map(s)[k] by {
        let j = choose|j: int| 0 <= j < t.len() && #[trigger] t[j].0@ == k;
        assert(s[j].0@ == t[j].0@ && s[j].1@ == t[j].1@);
        lemma_lookup_at(t, j);
        lemma_lookup_at(s, j);
    }
    assert(entries_to_map(t) =~= entries_to_map(s));
}

impl<K: KeyEq, V: Dup> AssocMap<K, V> {
    /// A copy of the map.
    pub fn dup(&self) -> (r: Self)
        requires
            self.wf(),
        ensures
            r.wf(),
            r@ == self@,
    {
        let mut entries: Vec<(K, V)> = Vec::new();
        let mut i: usize = 0;
        while i < self.entries.len()
            invariant
                0 <= i <= self.entries@.len(),
                entries@.len() == i,
                forall|j: int| 0 <= j < i ==> #[trigger] entries@[j].0@ == self.entries@[j].0@
                    && entries@[j].1@ == self.entries@[j].1@,
            decreases self.entries@.len() - i,
        {
            let e = &self.entries[i];
            entries.push((e.0.key_clone(), e.1.dup()));
            i = i + 1;
        }
        proof {
            lemma_same_views(self.entries@, entries@);
        }
        AssocMap { entries }
    }
}

impl<K: KeyEq + Dup, V: View> AssocMap<K, V> {
    /// The keys of the map, each once, in the order of their entries.
    pub closed spec fn key_seq(&self) -> Seq<K::V> {
        entry_keys(self.entries@)
    }

    /// The key sequence holds each key of the map once.
    pub proof fn lemma_key_seq(&self)
        requires
            self.wf(),
        ensures
            self.key_seq().no_duplicates(),
            self.key_seq().to_set() == self@.dom(),
            self.key_seq().len() == self@.dom().len(),
    {
        lemma_dom_is_key_set(self.entries@);
        let ks = entry_keys(self.entries@);
        assert(ks.no_duplicates()) by {
            assert forall|a: int, b: int| 0 <= a < ks.len() && 0 <= b < ks.len() && a != b implies ks[a]
                != ks[b] by {
                assert(ks[a] == self.entries@[a].0@);
                assert(ks[b] == self.entries@[b].0@);
            }
        }
        ks.unique_seq_to_set();
    }

    /// The keys of the map, in the order of their entries.
    pub fn keys(&self) -> (r: Vec<K>)
        requires
            self.wf(),
        ensures
            r@.map_values(|k: K| k@) == self.key_seq(),
    {
        let mut r: Vec<K> = Vec::new();
        let mut i: usize = 0;
        while i < self.entries.len()
            invariant
                0 <= i <= self.entries@.len(),
                r@.len() == i,
                forall|j: int| 0 <= j < i ==> #[trigger] r@[j]@ == self.entries@[j].0@,
            decreases self.entries@.len() - i,
        {
            r.push(self.entries[i].0.dup());
            i = i + 1;
        }
        assert(r@.map_values(|k: K| k@) =~= entry_keys(self.entries@));
        r
    }
}

} // verus!
