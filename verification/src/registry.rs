//! An insertion-ordered table from string identifiers to values.
//!
//! The table behaves as a map: an identifier occurs at most once, inserting
//! under an identifier that is present replaces its value in place, and
//! removing an entry closes the gap. Unlike a hash map it is walked in one
//! fixed order, the order in which the identifiers were first inserted.

use vstd::prelude::*;

verus! {

pub struct Registry<V> {
    keys: Vec<String>,
    values: Vec<V>,
}

impl<V> Registry<V> {
    /// The identifiers, in insertion order.
    pub closed spec fn ids(&self) -> Seq<Seq<char>> {
        Seq::new(self.keys@.len(), |i: int| self.keys@[i]@)
    }

    /// The values, each at the index of its identifier.
    pub closed spec fn items(&self) -> Seq<V> {
        self.values@
    }

    /// One value per identifier, and no identifier twice.
    pub closed spec fn wf(&self) -> bool {
        &&& self.keys@.len() == self.values@.len()
        &&& self.ids().no_duplicates()
    }

    /// Whether `id` is present.
    pub open spec fn has(&self, id: Seq<char>) -> bool {
        self.ids().contains(id)
    }

    /// The index at which `id` stands, meaningful when it is present.
    pub open spec fn slot(&self, id: Seq<char>) -> int {
        self.ids().index_of(id)
    }

    /// The value stored under `id`, meaningful when it is present.
    pub open spec fn at(&self, id: Seq<char>) -> V {
        self.items()[self.slot(id)]
    }

    /// The table as a map.
    pub open spec fn map(&self) -> Map<Seq<char>, V> {
        Map::new(|id: Seq<char>| self.has(id), |id: Seq<char>| self.at(id))
    }

    /// What validity means: as many values as identifiers, and no identifier twice.
    pub proof fn validity(&self)
        requires
            self.wf(),
        ensures
            self.ids().len() == self.items().len(),
            self.ids().no_duplicates(),
    {}

    /// In a table without duplicates an identifier stands where it is found.
    pub proof fn slot_is_unique(&self, i: int)
        requires
            self.wf(),
            0 <= i < self.ids().len(),
        ensures
            self.has(self.ids()[i]),
            self.slot(self.ids()[i]) == i,
            self.ids().len() == self.items().len(),
    {
        let id = self.ids()[i];
        assert(self.ids()[self.ids().index_of(id)] == id);
    }

    /// The two sequences have one length, and `slot` is in range for what is present.
    pub proof fn slot_in_range(&self, id: Seq<char>)
        requires
            self.wf(),
            self.has(id),
        ensures
            0 <= self.slot(id) < self.ids().len(),
            self.ids().len() == self.items().len(),
            self.ids()[self.slot(id)] == id,
    {}

    pub fn new() -> (table: Self)
        ensures
            table.wf(),
            table.ids() == Seq::<Seq<char>>::empty(),
            table.items() == Seq::<V>::empty(),
    {
        let table = Registry { keys: Vec::new(), values: Vec::new() };
        table
    }

    pub fn len(&self) -> (n: usize)
        requires
            self.wf(),
        ensures
            n == self.ids().len(),
            n == self.items().len(),
    {
        self.keys.len()
    }

    pub fn clear(&mut self)
        ensures
            final(self).wf(),
            final(self).ids() == Seq::<Seq<char>>::empty(),
            final(self).items() == Seq::<V>::empty(),
    {
        self.keys.clear();
        self.values.clear();
    }

    /// The index of `id`, if it is present.
    pub fn find(&self, id: &str) -> (found: Option<usize>)
        requires
            self.wf(),
        ensures
            match found {
                Some(i) => self.has(id@) && i == self.slot(id@) && i < self.ids().len(),
                None => !self.has(id@),
            },
    {
        let key = id.to_owned();
        let mut i: usize = 0;
        while i < self.keys.len()
            invariant
                self.wf(),
                i <= self.keys@.len(),
                key@ == id@,
                forall|j: int| 0 <= j < i ==> self.ids()[j] != id@,
            decreases self.keys@.len() - i,
        {
            if self.keys[i] == key {
                proof {
                    self.slot_is_unique(i as int);
                }
                return Some(i);
            }
            i += 1;
        }
        None
    }

    pub fn contains_key(&self, id: &str) -> (present: bool)
        requires
            self.wf(),
        ensures
            present == self.has(id@),
    {
        self.find(id).is_some()
    }

    /// The identifier at index `i`.
    pub fn key_at(&self, i: usize) -> (id: &String)
        requires
            self.wf(),
            i < self.ids().len(),
        ensures
            id@ == self.ids()[i as int],
    {
        &self.keys[i]
    }

    /// The value at index `i`.
    pub fn value_at(&self, i: usize) -> (value: &V)
        requires
            self.wf(),
            i < self.ids().len(),
        ensures
            *value == self.items()[i as int],
    {
        &self.values[i]
    }

    /// The value at index `i`, to be changed in place.
    pub fn value_at_mut(&mut self, i: usize) -> (value: &mut V)
        requires
            old(self).wf(),
            i < old(self).ids().len(),
        ensures
            *value == old(self).items()[i as int],
            final(self).wf(),
            final(self).ids() == old(self).ids(),
            final(self).items() == old(self).items().update(i as int, *final(value)),
    {
        &mut self.values[i]
    }

    pub fn get(&self, id: &str) -> (value: Option<&V>)
        requires
            self.wf(),
        ensures
            match value {
                Some(v) => self.has(id@) && *v == self.at(id@),
                None => !self.has(id@),
            },
    {
        match self.find(id) {
            Some(i) => Some(&self.values[i]),
            None => None,
        }
    }

    pub fn get_mut(&mut self, id: &str) -> (value: Option<&mut V>)
        requires
            old(self).wf(),
        ensures
            final(self).wf(),
            final(self).ids() == old(self).ids(),
            match value {
                Some(v) => {
                    &&& old(self).has(id@)
                    &&& *v == old(self).at(id@)
                    &&& final(self).items() == old(self).items().update(old(self).slot(id@), *final(v))
                },
                None => !old(self).has(id@) && final(self).items() == old(self).items(),
            },
    {
        match self.find(id) {
            Some(i) => Some(&mut self.values[i]),
            None => None,
        }
    }

    /// Stores `value` under `id`: in place of the value that `id` had, or at
    /// the end when `id` is new.
    pub fn insert(&mut self, id: String, value: V)
        requires
            old(self).wf(),
        ensures
            final(self).wf(),
            old(self).has(id@) ==> {
                &&& final(self).ids() == old(self).ids()
                &&& final(self).items() == old(self).items().update(old(self).slot(id@), value)
            },
            !old(self).has(id@) ==> {
                &&& final(self).ids() == old(self).ids().push(id@)
                &&& final(self).items() == old(self).items().push(value)
            },
            final(self).map() == old(self).map().insert(id@, value),
    {
        let ghost before = *self;
        match self.find(id.as_str()) {
            Some(i) => {
                self.values.set(i, value);
                proof {
                    Self::map_of_update(before, *self, id@, value);
                }
            },
            None => {
                self.keys.push(id);
                self.values.push(value);
                proof {
                    assert(self.ids() =~= before.ids().push(id@));
                    assert(self.ids().no_duplicates()) by {
                        assert forall|a: int, b: int|
                            0 <= a < self.ids().len() && 0 <= b < self.ids().len() && a != b
                            implies self.ids()[a] != self.ids()[b] by {}
                    }
                    Self::map_of_push(before, *self, id@, value);
                }
            },
        }
    }

    /// Takes the entry of `id` out, if there is one; the entries behind it
    /// move up by one.
    pub fn remove(&mut self, id: &str) -> (taken: Option<V>)
        requires
            old(self).wf(),
        ensures
            final(self).wf(),
            match taken {
                Some(v) => {
                    &&& old(self).has(id@)
                    &&& v == old(self).at(id@)
                    &&& final(self).ids() == old(self).ids().remove(old(self).slot(id@))
                    &&& final(self).items() == old(self).items().remove(old(self).slot(id@))
                },
                None => {
                    &&& !old(self).has(id@)
                    &&& final(self).ids() == old(self).ids()
                    &&& final(self).items() == old(self).items()
                },
            },
            !final(self).has(id@),
            forall|other: Seq<char>| other != id@ ==> final(self).has(other) == old(self).has(other),
            forall|other: Seq<char>| other != id@ && old(self).has(other) ==> final(self).at(other) == old(self).at(other),
    {
        let ghost before = *self;
        match self.find(id) {
            Some(i) => {
                self.keys.remove(i);
                let v = self.values.remove(i);
                proof {
                    let k = i as int;
                    assert forall|a: int, b: int|
                        0 <= a < self.ids().len() && 0 <= b < self.ids().len() && a != b
                        implies self.ids()[a] != self.ids()[b] by {
                        let a0 = if a < k { a } else { a + 1 };
                        let b0 = if b < k { b } else { b + 1 };
                        assert(self.ids()[a] == before.ids()[a0]);
                        assert(self.ids()[b] == before.ids()[b0]);
                    }
                    assert(!self.has(id@)) by {
                        if self.ids().contains(id@) {
                            let a = choose|a: int| 0 <= a < self.ids().len() && self.ids()[a] == id@;
                            let a0 = if a < k { a } else { a + 1 };
                            assert(before.ids()[a0] == id@);
                        }
                    }
                    assert forall|other: Seq<char>| other != id@ implies
                        self.has(other) == before.has(other)
                        && (before.has(other) ==> self.at(other) == before.at(other)) by {
                        if before.has(other) {
                            let b0 = before.slot(other);
                            before.slot_in_range(other);
                            let a = if b0 < k { b0 } else { b0 - 1 };
                            self.slot_is_unique(a);
                        }
                        if self.has(other) {
                            let a = self.slot(other);
                            let a0 = if a < k { a } else { a + 1 };
                            assert(before.ids()[a0] == other);
                        }
                    }
                }
                Some(v)
            },
            None => None,
        }
    }

    proof fn map_of_update(before: Self, after: Self, id: Seq<char>, value: V)
        requires
            before.wf(),
            after.wf(),
            before.has(id),
            after.ids() == before.ids(),
            after.items() == before.items().update(before.slot(id), value),
        ensures
            after.map() == before.map().insert(id, value),
    {
        before.slot_in_range(id);
        assert forall|k: Seq<char>| after.has(k) implies #[trigger] after.at(k) == before.map().insert(id, value)[k] by {
            after.slot_in_range(k);
        }
    }

    proof fn map_of_push(before: Self, after: Self, id: Seq<char>, value: V)
        requires
            before.wf(),
            after.wf(),
            !before.has(id),
            after.ids() == before.ids().push(id),
            after.items() == before.items().push(value),
        ensures
            after.map() == before.map().insert(id, value),
    {
        let n = before.ids().len() as int;
        after.slot_is_unique(n);
        assert forall|k: Seq<char>| after.has(k) <==> (k == id || before.has(k)) by {
            if before.has(k) {
                let j = before.slot(k);
                assert(after.ids()[j] == k);
            }
        }
        assert forall|k: Seq<char>| after.has(k) implies #[trigger] after.at(k) == before.map().insert(id, value)[k] by {
            if k != id {
                let j = before.slot(k);
                before.slot_in_range(k);
                after.slot_is_unique(j);
            }
        }
    }
}

} // verus!
