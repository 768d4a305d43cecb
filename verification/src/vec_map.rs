//! An ordered association map: the storage model of the pallet's maps.
//!
//! Entries keep the order in which keys were first inserted; replacing the
//! value of an existing key keeps its position, and removal keeps the order
//! of the remaining keys. Walks over a map (counts, scans, audits) follow
//! this order.
use vstd::prelude::*;

verus! {

/// A key type whose equality can be decided at run time and agrees with
/// equality of its view.
pub trait MapKey: View + Sized {
    fn key_eq(&self, other: &Self) -> (b: bool)
        ensures
            b == (self@ == other@),
    ;

    fn key_clone(&self) -> (c: Self)
        ensures
            c@ == self@,
    ;
}

impl MapKey for u8 {
    fn key_eq(&self, other: &Self) -> (b: bool) {
        *self == *other
    }

    fn key_clone(&self) -> (c: Self) {
        *self
    }
}

impl MapKey for u32 {
    fn key_eq(&self, other: &Self) -> (b: bool) {
        *self == *other
    }

    fn key_clone(&self) -> (c: Self) {
        *self
    }
}

impl MapKey for u64 {
    fn key_eq(&self, other: &Self) -> (b: bool) {
        *self == *other
    }

    fn key_clone(&self) -> (c: Self) {
        *self
    }
}

impl<A: MapKey, B: MapKey> MapKey for (A, B) {
    fn key_eq(&self, other: &Self) -> (b: bool) {
        self.0.key_eq(&other.0) && self.1.key_eq(&other.1)
    }

    fn key_clone(&self) -> (c: Self) {
        (self.0.key_clone(), self.1.key_clone())
    }
}

impl MapKey for Vec<u8> {
    fn key_eq(&self, other: &Self) -> (b: bool) {
        if self.len() != other.len() {
            return false;
        }
        let mut i: usize = 0;
        while i < self.len()
            invariant
                i <= self.len(),
                self.len() == other.len(),
                forall|j: int| 0 <= j < i ==> self@[j] == other@[j],
            decreases self.len() - i,
        {
            if self[i] != other[i] {
                return false;
            }
            i = i + 1;
        }
        assert(self@ =~= other@);
        true
    }

    fn key_clone(&self) -> (c: Self) {
        copy_bytes(self)
    }
}

/// A fresh vector holding the same elements.
pub fn copy_vec<T: Copy>(v: &Vec<T>) -> (c: Vec<T>)
    ensures
        c@ == v@,
{
    let mut c: Vec<T> = Vec::new();
    let mut i: usize = 0;
    while i < v.len()
        invariant
            i <= v.len(),
            c@ == v@.subrange(0, i as int),
        decreases v.len() - i,
    {
        c.push(v[i]);
        i = i + 1;
        assert(c@ =~= v@.subrange(0, i as int));
    }
    assert(v@.subrange(0, v.len() as int) =~= v@);
    c
}

/// A fresh vector holding the same bytes.
pub fn copy_bytes(v: &Vec<u8>) -> (c: Vec<u8>)
    ensures
        c@ == v@,
{
    let mut c: Vec<u8> = Vec::new();
    let mut i: usize = 0;
    while i < v.len()
        invariant
            i <= v.len(),
            c@ == v@.subrange(0, i as int),
        decreases v.len() - i,
    {
        c.push(v[i]);
        i = i + 1;
        assert(c@ =~= v@.subrange(0, i as int));
    }
    assert(v@.subrange(0, v.len() as int) =~= v@);
    c
}

pub struct VecMap<K: View, V> {
    entries: Vec<(K, V)>,
    contents: Ghost<Map<<K as View>::V, V>>,
}

impl<K: View, V> VecMap<K, V> {
    /// The keys, in the map's order.
    pub closed spec fn key_seq(&self) -> Seq<K::V> {
        self.entries@.map_values(|e: (K, V)| e.0@)
    }

    #[verifier::type_invariant]
    pub closed spec fn inv(&self) -> bool {
        &&& self.key_seq().no_duplicates()
        &&& forall|k: K::V| #[trigger]
            self.contents@.contains_key(k) <==> self.key_seq().contains(k)
        &&& forall|i: int|
            0 <= i < self.entries@.len() ==> #[trigger] self.contents@[self.entries@[i].0@]
                == self.entries@[i].1
    }

    /// What the invariant gives to clients: the key sequence lists the
    /// domain once each.
    pub proof fn lemma_keys(&self)
        requires
            self.inv(),
        ensures
            self.key_seq().no_duplicates(),
            forall|k: K::V| #[trigger] self@.contains_key(k) <==> self.key_seq().contains(k),
            self@.dom().finite(),
            self@.dom().len() == self.key_seq().len(),
    {
        let ks = self.key_seq();
        assert(self@.dom() =~= ks.to_set());
        ks.unique_seq_to_set();
    }
}

impl<K: View, V> View for VecMap<K, V> {
    type V = Map<K::V, V>;

    closed spec fn view(&self) -> Map<K::V, V> {
        self.contents@
    }
}

impl<K: MapKey, V> VecMap<K, V> {
    pub fn new() -> (m: Self)
        ensures
            m@ == Map::<K::V, V>::empty(),
            m.key_seq() == Seq::<K::V>::empty(),
    {
        let m = VecMap { entries: Vec::new(), contents: Ghost(Map::empty()) };
        assert(m.key_seq() =~= Seq::<K::V>::empty());
        m
    }

    pub fn len(&self) -> (n: usize)
        ensures
            n == self.key_seq().len(),
    {
        self.entries.len()
    }

    fn find(&self, k: &K) -> (r: Option<usize>)
        ensures
            match r {
                Some(i) => i < self.key_seq().len() && self.key_seq()[i as int] == k@,
                None => !self.key_seq().contains(k@),
            },
    {
        let mut i: usize = 0;
        while i < self.entries.len()
            invariant
                i <= self.entries@.len(),
                forall|j: int| 0 <= j < i ==> self.key_seq()[j] != k@,
            decreases self.entries@.len() - i,
        {
            if self.entries[i].0.key_eq(k) {
                return Some(i);
            }
            i = i + 1;
        }
        None
    }

    pub fn get(&self, k: &K) -> (r: Option<&V>)
        ensures
            match r {
                Some(v) => self@.contains_key(k@) && self@[k@] == *v,
                None => !self@.contains_key(k@),
            },
    {
        proof {
            use_type_invariant(self);
        }
        match self.find(k) {
            Some(i) => {
                assert(self.key_seq()[i as int] == self.entries@[i as int].0@);
                Some(&self.entries[i].1)
            },
            None => None,
        }
    }

    pub fn contains_key(&self, k: &K) -> (b: bool)
        ensures
            b == self@.contains_key(k@),
    {
        proof {
            use_type_invariant(self);
        }
        self.find(k).is_some()
    }

    /// The key at position `i` of the map's order.
    pub fn key_at(&self, i: usize) -> (k: &K)
        requires
            i < self.key_seq().len(),
        ensures
            k@ == self.key_seq()[i as int],
    {
        &self.entries[i].0
    }

    /// The value stored under the key at position `i`.
    pub fn value_at(&self, i: usize) -> (v: &V)
        requires
            i < self.key_seq().len(),
        ensures
            self@.contains_key(self.key_seq()[i as int]),
            *v == self@[self.key_seq()[i as int]],
    {
        proof {
            use_type_invariant(self);
            assert(self.key_seq()[i as int] == self.entries@[i as int].0@);
            assert(self.key_seq().contains(self.key_seq()[i as int]));
        }
        &self.entries[i].1
    }

    /// Inserts or replaces; a replaced key keeps its position.
    pub fn insert(&mut self, k: K, v: V)
        ensures
            final(self)@ == old(self)@.insert(k@, v),
            final(self).key_seq() == (if old(self)@.contains_key(k@) {
                old(self).key_seq()
            } else {
                old(self).key_seq().push(k@)
            }),
    {
        proof {
            use_type_invariant(&*self);
        }
        let ghost old_keys = self.key_seq();
        let ghost kv = k@;
        match self.find(&k) {
            Some(i) => {
                let ghost new_map = self.contents@.insert(kv, v);
                let mut me: VecMap<K, V> = VecMap { entries: Vec::new(), contents: Ghost(Map::empty()) };
        proof {
            assert(me.key_seq() =~= Seq::<K::V>::empty());
        }
        std::mem::swap(&mut me, self);
        let VecMap { entries: mut entries, contents: _ } = me;
                entries.set(i, (k, v));
                let ghost ks = entries@.map_values(|e: (K, V)| e.0@);
                assert(ks =~= old_keys);
                proof {
                    assert forall|j: int| 0 <= j < entries@.len() implies #[trigger] new_map[entries@[j].0@]
                        == entries@[j].1 by {
                        if j != i {
                            assert(old_keys[j] != old_keys[i as int]);
                            assert(ks[j] == entries@[j].0@);
                        }
                    }
                }
                *self = VecMap { entries, contents: Ghost(new_map) };
            },
            None => {
                let ghost new_map = self.contents@.insert(kv, v);
                let mut me: VecMap<K, V> = VecMap { entries: Vec::new(), contents: Ghost(Map::empty()) };
        proof {
            assert(me.key_seq() =~= Seq::<K::V>::empty());
        }
        std::mem::swap(&mut me, self);
        let VecMap { entries: mut entries, contents: _ } = me;
                entries.push((k, v));
                let ghost ks = entries@.map_values(|e: (K, V)| e.0@);
                assert(ks =~= old_keys.push(kv));
                proof {
                    assert forall|j: int| 0 <= j < entries@.len() implies #[trigger] new_map[entries@[j].0@]
                        == entries@[j].1 by {
                        if j < old_keys.len() {
                            assert(ks[j] == old_keys[j]);
                            assert(old_keys.contains(old_keys[j]));
                        }
                    }
                    assert forall|kk: K::V| #[trigger] new_map.contains_key(kk) <==> ks.contains(kk) by {
                        if ks.contains(kk) && kk != kv {
                            let j = choose|j: int| 0 <= j < ks.len() && ks[j] == kk;
                            assert(old_keys[j] == kk);
                        }
                        if kk == kv {
                            assert(ks[old_keys.len() as int] == kv);
                        }
                        if new_map.contains_key(kk) && kk != kv {
                            assert(old_keys.contains(kk));
                            let j = choose|j: int| 0 <= j < old_keys.len() && old_keys[j] == kk;
                            assert(ks[j] == kk);
                        }
                    }
                }
                *self = VecMap { entries, contents: Ghost(new_map) };
            },
        }
    }

    /// Removes `k`, reporting the position it held.
    pub fn take(&mut self, k: &K) -> (r: Option<(usize, V)>)
        ensures
            match r {
                Some((i, v)) => {
                    &&& old(self)@.contains_key(k@)
                    &&& i < old(self).key_seq().len()
                    &&& old(self).key_seq()[i as int] == k@
                    &&& old(self)@[k@] == v
                    &&& final(self)@ == old(self)@.remove(k@)
                    &&& final(self).key_seq() == old(self).key_seq().remove(i as int)
                },
                None => {
                    &&& !old(self)@.contains_key(k@)
                    &&& final(self)@ == old(self)@
                    &&& final(self).key_seq() == old(self).key_seq()
                },
            },
    {
        proof {
            use_type_invariant(&*self);
        }
        let ghost old_keys = self.key_seq();
        let ghost kv = k@;
        match self.find(k) {
            Some(i) => {
                let ghost new_map = self.contents@.remove(kv);
                let mut me: VecMap<K, V> = VecMap { entries: Vec::new(), contents: Ghost(Map::empty()) };
        proof {
            assert(me.key_seq() =~= Seq::<K::V>::empty());
        }
        std::mem::swap(&mut me, self);
        let VecMap { entries: mut entries, contents: _ } = me;
                let (_key, v) = entries.remove(i);
                let ghost ks = entries@.map_values(|e: (K, V)| e.0@);
                assert(ks =~= old_keys.remove(i as int));
                proof {
                    assert(old_keys[i as int] == kv);
                    assert forall|j: int| 0 <= j < entries@.len() implies #[trigger] new_map[entries@[j].0@]
                        == entries@[j].1 by {
                        if j < i {
                            assert(old_keys[j] != old_keys[i as int]);
                            assert(ks[j] == old_keys[j]);
                        } else {
                            assert(old_keys[j + 1] != old_keys[i as int]);
                            assert(ks[j] == old_keys[j + 1]);
                        }
                    }
                    assert forall|kk: K::V| #[trigger] new_map.contains_key(kk) <==> ks.contains(kk) by {
                        if ks.contains(kk) {
                            let j = choose|j: int| 0 <= j < ks.len() && ks[j] == kk;
                            if j < i {
                                assert(old_keys[j] == kk);
                                assert(old_keys[j] != old_keys[i as int]);
                            } else {
                                assert(old_keys[j + 1] == kk);
                                assert(old_keys[j + 1] != old_keys[i as int]);
                            }
                        }
                        if new_map.contains_key(kk) {
                            assert(old_keys.contains(kk));
                            let j = choose|j: int| 0 <= j < old_keys.len() && old_keys[j] == kk;
                            assert(j != i);
                            if j < i {
                                assert(ks[j] == kk);
                            } else {
                                assert(ks[j - 1] == kk);
                            }
                        }
                    }
                    assert(ks.no_duplicates()) by {
                        assert forall|a: int, b: int|
                            0 <= a < ks.len() && 0 <= b < ks.len() && a != b implies ks[a]
                            != ks[b] by {
                            let oa = if a < i { a } else { a + 1 };
                            let ob = if b < i { b } else { b + 1 };
                            assert(ks[a] == old_keys[oa]);
                            assert(ks[b] == old_keys[ob]);
                        }
                    }
                }
                *self = VecMap { entries, contents: Ghost(new_map) };
                Some((i, v))
            },
            None => None,
        }
    }

    /// Puts `k` back at position `i` (the inverse of `take`).
    pub fn restore(&mut self, i: usize, k: K, v: V)
        requires
            i <= old(self).key_seq().len(),
            !old(self)@.contains_key(k@),
        ensures
            final(self)@ == old(self)@.insert(k@, v),
            final(self).key_seq() == old(self).key_seq().insert(i as int, k@),
    {
        proof {
            use_type_invariant(&*self);
        }
        let ghost old_keys = self.key_seq();
        let ghost kv = k@;
        let ghost new_map = self.contents@.insert(kv, v);
        let mut me: VecMap<K, V> = VecMap { entries: Vec::new(), contents: Ghost(Map::empty()) };
        proof {
            assert(me.key_seq() =~= Seq::<K::V>::empty());
        }
        std::mem::swap(&mut me, self);
        let VecMap { entries: mut entries, contents: _ } = me;
        entries.insert(i, (k, v));
        let ghost ks = entries@.map_values(|e: (K, V)| e.0@);
        assert(ks =~= old_keys.insert(i as int, kv));
        proof {
            assert(!old_keys.contains(kv));
            assert forall|j: int| 0 <= j < entries@.len() implies #[trigger] new_map[entries@[j].0@]
                == entries@[j].1 by {
                if j < i {
                    assert(ks[j] == old_keys[j]);
                    assert(old_keys.contains(old_keys[j]));
                } else if j > i {
                    assert(ks[j] == old_keys[j - 1]);
                    assert(old_keys.contains(old_keys[j - 1]));
                }
            }
            assert forall|kk: K::V| #[trigger] new_map.contains_key(kk) <==> ks.contains(kk) by {
                if ks.contains(kk) && kk != kv {
                    let j = choose|j: int| 0 <= j < ks.len() && ks[j] == kk;
                    if j < i {
                        assert(old_keys[j] == kk);
                    } else {
                        assert(old_keys[j - 1] == kk);
                    }
                }
                if new_map.contains_key(kk) && kk != kv {
                    let j = choose|j: int| 0 <= j < old_keys.len() && old_keys[j] == kk;
                    if j < i {
                        assert(ks[j] == kk);
                    } else {
                        assert(ks[j + 1] == kk);
                    }
                }
                if kk == kv {
                    assert(ks[i as int] == kv);
                }
            }
            assert(ks.no_duplicates()) by {
                assert forall|a: int, b: int|
                    0 <= a < ks.len() && 0 <= b < ks.len() && a != b implies ks[a] != ks[b] by {
                    if a != i && b != i {
                        let oa = if a < i { a } else { a - 1 };
                        let ob = if b < i { b } else { b - 1 };
                        assert(ks[a] == old_keys[oa]);
                        assert(ks[b] == old_keys[ob]);
                    } else if a == i {
                        let ob = if b < i { b } else { b - 1 };
                        assert(ks[b] == old_keys[ob]);
                        assert(old_keys.contains(old_keys[ob]));
                    } else {
                        let oa = if a < i { a } else { a - 1 };
                        assert(ks[a] == old_keys[oa]);
                        assert(old_keys.contains(old_keys[oa]));
                    }
                }
            }
        }
        *self = VecMap { entries, contents: Ghost(new_map) };
    }

    /// Removes `k` if present.
    pub fn remove(&mut self, k: &K) -> (r: Option<V>)
        ensures
            final(self)@ == old(self)@.remove(k@),
            match r {
                Some(v) => old(self)@.contains_key(k@) && old(self)@[k@] == v,
                None => !old(self)@.contains_key(k@),
            },
    {
        match self.take(k) {
            Some((_i, v)) => Some(v),
            None => None,
        }
    }

    /// Removes every entry.
    pub fn clear(&mut self)
        ensures
            final(self)@ == Map::<K::V, V>::empty(),
            final(self).key_seq() == Seq::<K::V>::empty(),
    {
        *self = VecMap { entries: Vec::new(), contents: Ghost(Map::empty()) };
        assert(self.key_seq() =~= Seq::<K::V>::empty());
    }
}

/// The value under `k`, or `d` where `k` is absent.
pub open spec fn map_get_or<K, V>(m: Map<K, V>, k: K, d: V) -> V {
    if m.contains_key(k) {
        m[k]
    } else {
        d
    }
}

impl<K: MapKey, V: Copy> VecMap<K, V> {
    /// Reads a value-with-default entry.
    pub fn get_or(&self, k: &K, d: V) -> (r: V)
        ensures
            r == map_get_or(self@, k@, d),
    {
        match self.get(k) {
            Some(v) => *v,
            None => d,
        }
    }
}

} // verus!
