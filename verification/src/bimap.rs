use crate::interned::Interned;
use std::collections::HashMap;
use vstd::prelude::*;

verus! {

broadcast use vstd::std_specs::hash::group_hash_axioms;

/// What a value needs so that a table can store it once: a mathematical
/// model (its view), an executable test for equal models, a hash that depends
/// on the model alone, and a way to copy the value.
pub trait Internable: View + Sized {
    /// The hash of a value, as a function of its model.
    spec fn hash_spec(v: Self::V) -> u64;

    fn hash_code(&self) -> (h: u64)
        ensures
            h == Self::hash_spec(self@),
    ;

    fn same(&self, other: &Self) -> (b: bool)
        ensures
            b == (self@ == other@),
    ;

    fn duplicate(&self) -> (r: Self)
        ensures
            r@ == self@,
    ;
}

/// The position at which `v` stands in `s` once it has been interned: where
/// it already is, or else at the end.
pub open spec fn position_of<V>(s: Seq<V>, v: V) -> int {
    if s.contains(v) {
        s.index_of(v)
    } else {
        s.len() as int
    }
}

/// The contents of a table after `v` has been interned into `s`.
pub open spec fn with_value<V>(s: Seq<V>, v: V) -> Seq<V> {
    if s.contains(v) {
        s
    } else {
        s.push(v)
    }
}

/// Interning a value keeps what the table holds, stores nothing twice and
/// puts the value at the position that it reports. Interning the value
/// again changes nothing and reports the same position.
pub proof fn lemma_with_value<V>(s: Seq<V>, v: V)
    requires
        s.no_duplicates(),
    ensures
        s.is_prefix_of(with_value(s, v)),
        with_value(s, v).no_duplicates(),
        0 <= position_of(s, v) < with_value(s, v).len(),
        with_value(s, v)[position_of(s, v)] == v,
        with_value(with_value(s, v), v) == with_value(s, v),
        position_of(with_value(s, v), v) == position_of(s, v),
{
    let t = with_value(s, v);
    let p = position_of(s, v);
    if s.contains(v) {
        assert(s[s.index_of(v)] == v);
    } else {
        assert(t[s.len() as int] == v);
        assert(t.contains(v));
        assert(t.index_of(v) == s.len());
    }
}

/// An append-only interning table. Every value is stored once; the handle of
/// a value is its position. Lookup goes through a hash index: `heads` maps a
/// hash to the newest entry with that hash, `chain` links each entry to the
/// next older entry with the same hash.
pub struct BiMap<T: Internable> {
    items: Vec<T>,
    heads: HashMap<u64, u64>,
    chain: Vec<Option<u64>>,
}

impl<T: Internable> View for BiMap<T> {
    type V = Seq<T::V>;

    closed spec fn view(&self) -> Seq<T::V> {
        self.items@.map_values(|x: T| x@)
    }
}

impl<T: Internable> BiMap<T> {
    spec fn hash_at(&self, i: int) -> u64 {
        T::hash_spec(self.items@[i]@)
    }

    /// The hash index agrees with the stored values.
    pub closed spec fn index_ok(&self) -> bool {
        &&& self.chain@.len() == self.items@.len()
        &&& forall|h: u64| #[trigger]
            self.heads@.contains_key(h) ==> {
                &&& self.heads@[h] < self.items@.len()
                &&& self.hash_at(self.heads@[h] as int) == h
            }
        &&& forall|i: int|
            0 <= i < self.items@.len() ==> {
                &&& self.heads@.contains_key(#[trigger] self.hash_at(i))
                &&& i <= self.heads@[self.hash_at(i)]
            }
        &&& forall|i: int|
            0 <= i < self.items@.len() ==> match #[trigger] self.chain@[i] {
                Some(p) => p < i && self.hash_at(p as int) == self.hash_at(i),
                None => true,
            }
        &&& forall|i: int, k: int|
            0 <= k < i < self.items@.len() && #[trigger] self.hash_at(k) == #[trigger] self.hash_at(i)
                ==> self.chain@[i] is Some && k <= self.chain@[i]->0
    }

    /// The invariant of the table: no value is stored twice.
    pub open spec fn wf(&self) -> bool {
        &&& self.index_ok()
        &&& self@.no_duplicates()
    }

    pub fn new() -> (r: Self)
        ensures
            r.wf(),
            r@ == Seq::<T::V>::empty(),
    {
        let r = BiMap { items: Vec::new(), heads: HashMap::new(), chain: Vec::new() };
        assert(r@ =~= Seq::<T::V>::empty());
        r
    }

    pub fn len(&self) -> (n: u64)
        ensures
            n == self@.len(),
    {
        self.items.len() as u64
    }

    /// The handle of `value`, if the table holds it.
    pub fn find(&self, value: &T) -> (r: Option<Interned<T>>)
        requires
            self.wf(),
        ensures
            match r {
                Some(h) => self@.contains(value@) && h.index() == self@.index_of(value@),
                None => !self@.contains(value@),
            },
    {
        let hash = value.hash_code();
        let mut cur: Option<u64> = match self.heads.get(&hash) {
            Some(i) => Some(*i),
            None => None,
        };
        let size = self.items.len();
        let ghost n = size as int;
        proof {
            if cur is None {
                assert forall|k: int| 0 <= k < n implies self@[k] != value@ by {
                    if self@[k] == value@ {
                        assert(self.hash_at(k) == hash);
                    }
                }
            } else {
                assert forall|k: int| cur->0 < k < n implies self@[k] != value@ by {
                    if self@[k] == value@ {
                        assert(self.hash_at(k) == hash);
                    }
                }
            }
        }
        loop
            invariant
                self.wf(),
                n == self.items@.len(),
                n == size,
                hash == T::hash_spec(value@),
                match cur {
                    Some(c) => c < n && self.hash_at(c as int) == hash && forall|k: int|
                        c < k < n ==> self@[k] != value@,
                    None => forall|k: int| 0 <= k < n ==> self@[k] != value@,
                },
            ensures
                match cur {
                    Some(c) => c < n && self@[c as int] == value@,
                    None => forall|k: int| 0 <= k < n ==> self@[k] != value@,
                },
            decreases
                    match cur {
                        Some(c) => c as int + 1,
                        None => 0,
                    },
        {
            match cur {
                None => {
                    break ;
                },
                Some(c) => {
                    let idx = c as usize;
                    if self.items[idx].same(value) {
                        break ;
                    }
                    let older = self.chain[idx];
                    proof {
                        let lo: int = match older {
                            Some(p) => p as int,
                            None => -1,
                        };
                        assert forall|k: int| lo < k < n implies self@[k] != value@ by {
                            if k < c && self@[k] == value@ {
                                assert(self.hash_at(k) == self.hash_at(c as int));
                            }
                        }
                    }
                    cur = older;
                },
            }
        }
        match cur {
            Some(c) => {
                proof {
                    assert(self@.contains(value@));
                    let j = self@.index_of(value@);
                    assert(self@[j] == value@);
                }
                Some(Interned::from_index(c))
            },
            None => None,
        }
    }

    /// Stores `value` unless the table holds it already; returns its handle.
    pub fn intern(&mut self, value: T) -> (h: Interned<T>)
        requires
            old(self).wf(),
        ensures
            final(self).wf(),
            final(self)@ == with_value(old(self)@, value@),
            h.index() == position_of(old(self)@, value@),
            0 <= h.index() < final(self)@.len(),
            final(self)@[h.index()] == value@,
    {
        match self.find(&value) {
            Some(h) => {
                h
            },
            None => {
                let hash = value.hash_code();
                let n = self.items.len() as u64;
                let older: Option<u64> = match self.heads.get(&hash) {
                    Some(i) => Some(*i),
                    None => None,
                };
                let ghost before = *self;
                self.items.push(value);
                self.chain.push(older);
                self.heads.insert(hash, n);
                proof {
                    assert(self@ =~= before@.push(value@));
                    assert forall|i: int| 0 <= i < before.items@.len() implies self.hash_at(i)
                        == before.hash_at(i) by {}
                    assert(self.hash_at(n as int) == hash);
                    assert forall|i: int| 0 <= i < self.items@.len() implies {
                        &&& self.heads@.contains_key(#[trigger] self.hash_at(i))
                        &&& i <= self.heads@[self.hash_at(i)]
                    } by {
                        if i < n {
                            assert(before.heads@.contains_key(before.hash_at(i)));
                        }
                    }
                    assert forall|i: int, k: int|
                        0 <= k < i < self.items@.len() && #[trigger] self.hash_at(k)
                            == #[trigger] self.hash_at(i) implies self.chain@[i] is Some && k
                        <= self.chain@[i]->0 by {
                        if i < n {
                            assert(before.hash_at(k) == before.hash_at(i));
                        } else {
                            assert(before.heads@.contains_key(before.hash_at(k)));
                        }
                    }
                    assert forall|i: int| 0 <= i < self.items@.len() implies match #[trigger] self.chain@[i] {
                        Some(p) => p < i && self.hash_at(p as int) == self.hash_at(i),
                        None => true,
                    } by {
                        if i < n {
                            assert(self.chain@[i] == before.chain@[i]);
                        }
                    }
                    assert forall|h: u64| #[trigger] self.heads@.contains_key(h) implies {
                        &&& self.heads@[h] < self.items@.len()
                        &&& self.hash_at(self.heads@[h] as int) == h
                    } by {
                        if h != hash {
                            assert(before.heads@.contains_key(h));
                        }
                    }
                }
                Interned::from_index(n)
            },
        }
    }

    /// The value that `h` refers to.
    pub fn get(&self, h: Interned<T>) -> (r: &T)
        requires
            0 <= h.index() < self@.len(),
        ensures
            r@ == self@[h.index()],
    {
        let size = self.items.len();
        assert(h.idx < size);
        &self.items[h.idx as usize]
    }
}

} // verus!
