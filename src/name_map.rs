//! A name-keyed table that keeps its entries in name order.
use vstd::prelude::*;
use crate::order::{
    name_lt, name_less, lemma_name_lt_irreflexive, lemma_name_lt_transitive, lemma_name_lt_total,
};

verus! {

/// No name occurs twice in `names`.
pub open spec fn names_unique(names: Seq<Seq<char>>) -> bool {
    forall|i: int, j: int|
        0 <= i < names.len() && 0 <= j < names.len() && i != j ==> names[i] != names[j]
}

/// Each name in `names` comes before the ones after it.
pub open spec fn names_sorted(names: Seq<Seq<char>>) -> bool {
    forall|i: int, j: int| 0 <= i < j < names.len() ==> name_lt(names[i], names[j])
}

/// `p` is where `k` goes among `names`: after the names before it and before
/// the names after it.
pub open spec fn is_insert_pos(names: Seq<Seq<char>>, k: Seq<char>, p: int) -> bool {
    &&& 0 <= p <= names.len()
    &&& forall|j: int| 0 <= j < p ==> name_lt(#[trigger] names[j], k)
    &&& forall|j: int| p <= j < names.len() ==> name_lt(k, #[trigger] names[j])
}

/// The position where `k` goes among `names`.
pub open spec fn insert_pos(names: Seq<Seq<char>>, k: Seq<char>) -> int {
    choose|p: int| is_insert_pos(names, k, p)
}

/// A sorted sequence holds no name twice.
pub proof fn lemma_sorted_unique(names: Seq<Seq<char>>)
    requires
        names_sorted(names),
    ensures
        names_unique(names),
{
    assert forall|i: int, j: int|
        0 <= i < names.len() && 0 <= j < names.len() && i != j implies names[i] != names[j] by {
        if names[i] == names[j] {
            lemma_name_lt_irreflexive(names[i]);
        }
    }
}

/// A table from names to values. Each name occurs at most once, and the
/// entries are kept in name order.
#[verifier::type_invariant]
pub struct NameMap<T> {
    names: Vec<String>,
    values: Vec<T>,
}

impl<T> NameMap<T> {
    /// The names, in name order.
    pub closed spec fn keys(&self) -> Seq<Seq<char>> {
        self.names@.map_values(|s: String| s@)
    }

    /// The values, in the order of their names.
    pub closed spec fn vals(&self) -> Seq<T> {
        self.values@
    }

    /// What every table satisfies: one value per name, no name twice, names
    /// in order.
    #[verifier::type_invariant]
    pub open spec fn valid(&self) -> bool {
        &&& self.keys().len() == self.vals().len()
        &&& names_unique(self.keys())
        &&& names_sorted(self.keys())
    }

    /// Whether `k` names an entry.
    pub open spec fn has(&self, k: Seq<char>) -> bool {
        self.keys().contains(k)
    }

    /// The position of the entry named `k`; meaningful when `self.has(k)`.
    pub open spec fn index_of(&self, k: Seq<char>) -> int {
        choose|i: int| 0 <= i < self.keys().len() && self.keys()[i] == k
    }

    /// The value stored under `k`, if any.
    pub open spec fn lookup(&self, k: Seq<char>) -> Option<T> {
        if self.has(k) {
            Some(self.vals()[self.index_of(k)])
        } else {
            None
        }
    }

    /// The entry found by `index_of` is the only one with that name.
    pub proof fn lemma_index_of(&self, i: int)
        requires
            names_unique(self.keys()),
            self.keys().len() == self.vals().len(),
            0 <= i < self.keys().len(),
        ensures
            self.has(self.keys()[i]),
            self.index_of(self.keys()[i]) == i,
            self.lookup(self.keys()[i]) == Some(self.vals()[i]),
    {
        let k = self.keys()[i];
        assert(self.keys()[i] == k);
        let j = self.index_of(k);
        assert(0 <= j < self.keys().len() && self.keys()[j] == k);
    }

    /// `after` is `self` with `v` stored under `k`: an existing entry takes
    /// the new value, a new one goes in at its place in name order.
    pub open spec fn inserted(&self, after: Self, k: Seq<char>, v: T) -> bool {
        &&& after.lookup(k) == Some(v)
        &&& self.has(k) ==> after.keys() == self.keys() && after.vals() == self.vals().update(
            self.index_of(k),
            v,
        )
        &&& !self.has(k) ==> is_insert_pos(self.keys(), k, insert_pos(self.keys(), k)) && after.keys()
            == self.keys().insert(insert_pos(self.keys(), k), k) && after.vals() == self.vals().insert(
            insert_pos(self.keys(), k),
            v,
        )
    }

    /// After an insertion, every name that was there, and the new one, is
    /// there.
    pub proof fn lemma_inserted_has(&self, after: Self, k: Seq<char>, v: T, k2: Seq<char>)
        requires
            self.inserted(after, k, v),
            self.has(k2) || k2 == k,
        ensures
            after.has(k2),
            !self.has(k) ==> after.keys().len() == self.keys().len() + 1,
    {
        if self.has(k) {
            if self.has(k2) {
                let j = choose|j: int| 0 <= j < self.keys().len() && self.keys()[j] == k2;
                assert(after.keys()[j] == k2);
            } else {
                let j = choose|j: int| 0 <= j < self.keys().len() && self.keys()[j] == k;
                assert(after.keys()[j] == k2);
            }
        } else {
            let p = insert_pos(self.keys(), k);
            if k2 == k {
                assert(after.keys()[p] == k2);
            } else {
                let j = choose|j: int| 0 <= j < self.keys().len() && self.keys()[j] == k2;
                if j < p {
                    assert(after.keys()[j] == k2);
                } else {
                    assert(after.keys()[j + 1] == k2);
                }
            }
        }
    }

    /// An insertion leaves the values of the other names as they were.
    pub proof fn lemma_inserted_lookup(&self, after: Self, k: Seq<char>, v: T, k2: Seq<char>)
        requires
            self.valid(),
            after.valid(),
            self.inserted(after, k, v),
            self.has(k2),
            k2 != k,
        ensures
            after.has(k2),
            after.lookup(k2) == self.lookup(k2),
    {
        let j = choose|j: int| 0 <= j < self.keys().len() && self.keys()[j] == k2;
        self.lemma_index_of(j);
        if self.has(k) {
            after.lemma_index_of(j);
        } else {
            let p = insert_pos(self.keys(), k);
            if j < p {
                after.lemma_index_of(j);
            } else {
                assert(after.keys()[j + 1] == k2);
                after.lemma_index_of(j + 1);
            }
        }
    }

    /// After an insertion, the names there are the ones that were there and
    /// the new one.
    pub proof fn lemma_inserted_has_only(&self, after: Self, k: Seq<char>, v: T, k2: Seq<char>)
        requires
            self.inserted(after, k, v),
            after.has(k2),
        ensures
            self.has(k2) || k2 == k,
    {
        let j = choose|j: int| 0 <= j < after.keys().len() && after.keys()[j] == k2;
        if self.has(k) {
            assert(self.keys()[j] == k2);
        } else {
            let p = insert_pos(self.keys(), k);
            if j < p {
                assert(self.keys()[j] == k2);
            } else if j > p {
                assert(self.keys()[j - 1] == k2);
            }
        }
    }

    pub fn new() -> (r: Self)
        ensures
            r.valid(),
            r.keys() == Seq::<Seq<char>>::empty(),
            r.vals() == Seq::<T>::empty(),
    {
        let r = NameMap { names: Vec::new(), values: Vec::new() };
        assert(r.keys() =~= Seq::<Seq<char>>::empty());
        r
    }

    pub fn len(&self) -> (r: usize)
        ensures
            self.valid(),
            r == self.keys().len(),
            r == self.vals().len(),
    {
        proof {
            use_type_invariant(&*self);
        }
        self.names.len()
    }

    /// The position of the entry named `name`.
    pub fn find(&self, name: &str) -> (r: Option<usize>)
        ensures
            match r {
                Some(i) => self.has(name@) && i as int == self.index_of(name@) && i < self.keys().len(),
                None => !self.has(name@),
            },
    {
        proof {
            use_type_invariant(&*self);
        }
        let key = name.to_owned();
        assert(key@ == name@);
        let mut i: usize = 0;
        while i < self.names.len()
            invariant
                key@ == name@,
                names_unique(self.keys()),
                self.names@.len() == self.values@.len(),
                i <= self.names@.len(),
                forall|j: int| 0 <= j < i ==> self.keys()[j] != name@,
            decreases self.names@.len() - i,
        {
            assert(self.keys()[i as int] == self.names@[i as int]@);
            let same = self.names[i] == key;
            assert(same == (self.names@[i as int]@ == key@));
            if same {
                proof {
                    self.lemma_index_of(i as int);
                }
                return Some(i);
            }
            i = i + 1;
        }
        proof {
            if self.has(name@) {
                let j = choose|j: int| 0 <= j < self.keys().len() && self.keys()[j] == name@;
                assert(self.keys()[j] != name@);
            }
        }
        None
    }

    /// The name of the entry at position `i`.
    pub fn name_at(&self, i: usize) -> (r: &String)
        requires
            i < self.keys().len(),
        ensures
            r@ == self.keys()[i as int],
    {
        proof {
            use_type_invariant(&*self);
        }
        &self.names[i]
    }

    /// The value of the entry at position `i`.
    pub fn value_at(&self, i: usize) -> (r: &T)
        requires
            i < self.keys().len(),
        ensures
            *r == self.vals()[i as int],
    {
        proof {
            use_type_invariant(&*self);
        }
        &self.values[i]
    }

    /// The value stored under `name`.
    pub fn get(&self, name: &str) -> (r: Option<&T>)
        ensures
            match r {
                Some(v) => self.lookup(name@) == Some(*v),
                None => self.lookup(name@) == None::<T>,
            },
    {
        proof {
            use_type_invariant(self);
        }
        match self.find(name) {
            Some(i) => {
                proof {
                    let j = self.index_of(name@);
                    assert(0 <= j < self.keys().len() && self.keys()[j] == name@);
                }
                Some(&self.values[i])
            },
            None => None,
        }
    }

    /// Stores `v` under `name`: an existing entry of that name takes the new
    /// value, otherwise a new entry goes in at its place in name order.
    pub fn insert(&mut self, name: &str, v: T)
        ensures
            final(self).valid(),
            old(self).inserted(*final(self), name@, v),
    {
        proof {
            use_type_invariant(&*self);
        }
        let found = self.find(name);
        let ghost keys0 = self.keys();
        let n = self.names.len();
        let mut p: usize = 0;
        if found.is_none() {
            while p < n && name_less(self.names[p].as_str(), name)
                invariant
                    n == self.names@.len(),
                    keys0 == self.keys(),
                    p <= n,
                    forall|j: int| 0 <= j < p ==> name_lt(#[trigger] keys0[j], name@),
                decreases n - p,
            {
                proof {
                    assert(keys0[p as int] == self.names@[p as int]@);
                }
                p = p + 1;
            }
            proof {
                assert forall|j: int| p <= j < keys0.len() implies name_lt(name@, #[trigger] keys0[j]) by {
                    assert(keys0[p as int] == self.names@[p as int]@);
                    assert(keys0[p as int] != name@) by {
                        if keys0[p as int] == name@ {
                            assert(keys0.contains(name@));
                        }
                    }
                    lemma_name_lt_total(keys0[p as int], name@);
                    if j > p {
                        lemma_name_lt_transitive(name@, keys0[p as int], keys0[j]);
                    }
                }
                assert(is_insert_pos(keys0, name@, p as int));
                let q = insert_pos(keys0, name@);
                assert(is_insert_pos(keys0, name@, q));
                if q < p {
                    lemma_name_lt_transitive(keys0[q], name@, keys0[q]);
                    lemma_name_lt_irreflexive(keys0[q]);
                } else if p < q {
                    lemma_name_lt_transitive(keys0[p as int], name@, keys0[p as int]);
                    lemma_name_lt_irreflexive(keys0[p as int]);
                }
            }
        }
        let mut m = NameMap { names: Vec::new(), values: Vec::new() };
        std::mem::swap(self, &mut m);
        let NameMap { mut names, mut values } = m;
        match found {
            Some(i) => {
                let ghost vals0 = values@;
                let n = values.len();
                assert(i < n);
                values.insert(i, v);
                values.remove(i + 1);
                assert(values@ =~= vals0.update(i as int, v));
                assert(names@.map_values(|s: String| s@) =~= keys0);
            },
            None => {
                names.insert(p, name.to_owned());
                values.insert(p, v);
                let ghost keys1 = names@.map_values(|s: String| s@);
                assert(keys1 =~= keys0.insert(p as int, name@));
                assert forall|a: int, b: int| 0 <= a < b < keys1.len() implies name_lt(keys1[a], keys1[b]) by {
                    if b < p {
                    } else if b == p {
                        assert(keys1[a] == keys0[a]);
                    } else if a < p {
                        assert(keys1[a] == keys0[a]);
                        assert(keys1[b] == keys0[b - 1]);
                    } else if a == p {
                        assert(keys1[b] == keys0[b - 1]);
                    } else {
                        assert(keys1[a] == keys0[a - 1]);
                        assert(keys1[b] == keys0[b - 1]);
                    }
                }
                proof {
                    lemma_sorted_unique(keys1);
                }
            },
        }
        *self = NameMap { names, values };
        proof {
            use_type_invariant(&*self);
            match found {
                Some(i) => self.lemma_index_of(i as int),
                None => self.lemma_index_of(p as int),
            }
        }
    }

    /// Takes out the entry named `name`, keeping the order of the rest.
    pub fn remove(&mut self, name: &str) -> (r: Option<T>)
        ensures
            final(self).valid(),
            old(self).has(name@) ==> r == Some(old(self).vals()[old(self).index_of(name@)])
                && final(self).keys() == old(self).keys().remove(old(self).index_of(name@))
                && final(self).vals() == old(self).vals().remove(old(self).index_of(name@)),
            !old(self).has(name@) ==> r == None::<T> && *final(self) == *old(self),
    {
        proof {
            use_type_invariant(&*self);
        }
        match self.find(name) {
            Some(i) => {
                let mut m = NameMap { names: Vec::new(), values: Vec::new() };
                std::mem::swap(self, &mut m);
                let NameMap { mut names, mut values } = m;
                let ghost keys0 = old(self).keys();
                names.remove(i);
                let v = values.remove(i);
                let ghost keys1 = names@.map_values(|s: String| s@);
                assert(keys1 =~= keys0.remove(i as int));
                assert forall|a: int, b: int| 0 <= a < b < keys1.len() implies name_lt(keys1[a], keys1[b]) by {
                    let a0 = if a < i { a } else { a + 1 };
                    let b0 = if b < i { b } else { b + 1 };
                    assert(keys1[a] == keys0[a0]);
                    assert(keys1[b] == keys0[b0]);
                }
                proof {
                    lemma_sorted_unique(keys1);
                }
                *self = NameMap { names, values };
                Some(v)
            },
            None => None,
        }
    }
}

} // verus!
