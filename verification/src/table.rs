//! Sessions by their identifier.

use vstd::prelude::*;

verus! {

/// A map from session identifiers to values of type `S`.
///
/// The identifiers stand in one vector, in which none occurs twice, and each one's value stands at
/// the same position of a second vector. Capture sessions are few, so a search from the front is
/// all that a lookup needs.
#[derive(Debug)]
pub struct SessionTable<S> {
    ids: Vec<String>,
    values: Vec<S>,
}

/// No identifier occurs at two positions.
spec fn distinct(ids: Seq<String>) -> bool {
    forall|i: int, j: int|
        0 <= i < j < ids.len() ==> (#[trigger] ids[i])@ != (#[trigger] ids[j])@
}

/// `id` occurs in `ids`.
spec fn listed(ids: Seq<String>, id: Seq<char>) -> bool {
    exists|i: int| 0 <= i < ids.len() && (#[trigger] ids[i])@ == id
}

/// A position at which `id` occurs.
spec fn place_of(ids: Seq<String>, id: Seq<char>) -> int {
    choose|i: int| 0 <= i < ids.len() && (#[trigger] ids[i])@ == id
}

/// The map that identifiers and the values at their positions stand for.
spec fn paired<S>(ids: Seq<String>, values: Seq<S>) -> Map<Seq<char>, S> {
    Map::new(|id: Seq<char>| listed(ids, id), |id: Seq<char>| values[place_of(ids, id)])
}

impl<S> View for SessionTable<S> {
    type V = Map<Seq<char>, S>;

    closed spec fn view(&self) -> Map<Seq<char>, S> {
        paired(self.ids@, self.values@)
    }
}

impl<S> SessionTable<S> {
    #[verifier::type_invariant]
    spec fn inv(self) -> bool {
        &&& self.ids@.len() == self.values@.len()
        &&& distinct(self.ids@)
    }

    /// The identifiers, each once, in the order in which `entry` hands them out.
    pub closed spec fn order(&self) -> Seq<Seq<char>> {
        self.ids@.map_values(|id: String| id@)
    }

    /// A table without entries.
    pub fn new() -> (table: Self)
        ensures
            table@ == Map::<Seq<char>, S>::empty(),
    {
        let table = SessionTable { ids: Vec::new(), values: Vec::new() };
        assert(table@ =~= Map::<Seq<char>, S>::empty());
        table
    }

    /// The position at which `id` occurs.
    fn position(&self, id: &String) -> (found: Option<usize>)
        ensures
            match found {
                Some(i) => {
                    &&& i < self.ids@.len()
                    &&& i < self.values@.len()
                    &&& place_of(self.ids@, id@) == i
                    &&& self@.contains_key(id@)
                    &&& self@[id@] == self.values@[i as int]
                },
                None => !self@.contains_key(id@),
            },
    {
        proof {
            use_type_invariant(self);
        }
        let mut i: usize = 0;
        while i < self.ids.len()
            invariant
                i <= self.ids@.len(),
                self.ids@.len() == self.values@.len(),
                distinct(self.ids@),
                forall|j: int| 0 <= j < i ==> (#[trigger] self.ids@[j])@ != id@,
            decreases self.ids@.len() - i,
        {
            if self.ids[i] == *id {
                return Some(i);
            }
            i = i + 1;
        }
        None
    }

    /// The value stored under `id`, for reading.
    pub fn get(&self, id: &String) -> (found: Option<&S>)
        ensures
            match found {
                Some(value) => self@.contains_key(id@) && *value == self@[id@],
                None => !self@.contains_key(id@),
            },
    {
        match self.position(id) {
            Some(i) => Some(&self.values[i]),
            None => None,
        }
    }

    /// The value stored under `id`, for writing.
    pub fn get_mut(&mut self, id: &String) -> (found: Option<&mut S>)
        ensures
            match found {
                Some(value) => {
                    &&& old(self)@.contains_key(id@)
                    &&& *value == old(self)@[id@]
                    &&& final(self)@ == old(self)@.insert(id@, *final(value))
                },
                None => !old(self)@.contains_key(id@) && final(self)@ == old(self)@,
            },
    {
        proof {
            use_type_invariant(&*self);
        }
        match self.position(id) {
            Some(i) => {
                proof {
                    let ids = self.ids@;
                    let values = self.values@;
                    assert forall|value: S|
                        #[trigger] paired(ids, values.update(i as int, value)) == paired(
                            ids,
                            values,
                        ).insert(id@, value) by {
                        assert(paired(ids, values.update(i as int, value)) =~= paired(
                            ids,
                            values,
                        ).insert(id@, value));
                    }
                }
                Some(&mut self.values[i])
            },
            None => None,
        }
    }

    /// Stores `value` under `id`, in place of what was stored there.
    pub fn insert(&mut self, id: String, value: S)
        ensures
            final(self)@ == old(self)@.insert(id@, value),
    {
        let place = self.position(&id);
        let ghost before = *self;
        let mut table = SessionTable::new();
        std::mem::swap(self, &mut table);
        proof {
            use_type_invariant(&table);
        }
        let SessionTable { mut ids, mut values } = table;
        match place {
            Some(i) => {
                values.set(i, value);
            },
            None => {
                ids.push(id);
                values.push(value);
                assert(ids@.drop_last() =~= before.ids@);
            },
        }
        proof {
            lemma_stored(before.ids@, before.values@, ids@, values@, id@, value);
        }
        *self = SessionTable { ids, values };
    }

    /// Forgets `id` and what is stored under it.
    pub fn remove(&mut self, id: &String)
        ensures
            final(self)@ == old(self)@.remove(id@),
    {
        match self.position(id) {
            Some(i) => {
                let ghost before = *self;
                let mut table = SessionTable::new();
                std::mem::swap(self, &mut table);
                proof {
                    use_type_invariant(&table);
                }
                let SessionTable { mut ids, mut values } = table;
                ids.remove(i);
                values.remove(i);
                proof {
                    lemma_forgotten(before.ids@, before.values@, i as int);
                }
                *self = SessionTable { ids, values };
            },
            None => {
                assert(self@ =~= old(self)@.remove(id@));
            },
        }
    }

    /// How many identifiers there are.
    pub fn len(&self) -> (n: usize)
        ensures
            n == self@.dom().len(),
            n == self.order().len(),
            self.order().no_duplicates(),
            forall|id: Seq<char>| #[trigger] self@.contains_key(id) <==> self.order().contains(id),
    {
        proof {
            use_type_invariant(self);
            assert forall|id: Seq<char>| #[trigger]
                self@.contains_key(id) <==> self.order().contains(id) by {
                if self@.contains_key(id) {
                    let i = place_of(self.ids@, id);
                    assert(self.order()[i] == id);
                }
                if self.order().contains(id) {
                    let i = self.order().index_of(id);
                    assert(self.ids@[i]@ == id);
                }
            }
            self.order().unique_seq_to_set();
            assert(self.order().to_set() =~= self@.dom());
        }
        self.ids.len()
    }

    /// The identifier at a position of the order, and the value stored under it.
    pub fn entry(&self, i: usize) -> (found: (&String, &S))
        requires
            i < self.order().len(),
        ensures
            found.0@ == self.order()[i as int],
            self@.contains_key(found.0@),
            *found.1 == self@[found.0@],
    {
        proof {
            use_type_invariant(self);
            assert(listed(self.ids@, self.ids@[i as int]@));
        }
        (&self.ids[i], &self.values[i])
    }
}

/// Storing `value` under `id`, at the position of `id` or at the end, is an insertion.
proof fn lemma_stored<S>(
    ids: Seq<String>,
    values: Seq<S>,
    ids_after: Seq<String>,
    values_after: Seq<S>,
    id: Seq<char>,
    value: S,
)
    requires
        ids.len() == values.len(),
        distinct(ids),
        if listed(ids, id) {
            ids_after == ids && values_after == values.update(place_of(ids, id), value)
        } else {
            &&& ids_after.len() == ids.len() + 1
            &&& ids_after.drop_last() == ids
            &&& ids_after.last()@ == id
            &&& values_after == values.push(value)
        },
    ensures
        distinct(ids_after),
        paired(ids_after, values_after) == paired(ids, values).insert(id, value),
{
    let inserted = paired(ids, values).insert(id, value);
    if !listed(ids, id) {
        assert(ids_after =~= ids.push(ids_after.last()));
        assert forall|other: Seq<char>| #[trigger]
            listed(ids_after, other) <==> listed(ids, other) || other == id by {
            if listed(ids, other) {
                assert(ids_after[place_of(ids, other)]@ == other);
            }
            if other == id {
                assert(ids_after[ids.len() as int]@ == other);
            }
        }
        assert forall|other: Seq<char>| listed(ids_after, other) implies (#[trigger] paired(
            ids_after,
            values_after,
        )[other]) == inserted[other] by {
            let i = place_of(ids_after, other);
            if other != id {
                assert(ids[i]@ == other);
            }
        }
    }
    assert(paired(ids_after, values_after) =~= inserted);
}

/// Taking out one position takes its identifier out of the map.
proof fn lemma_forgotten<S>(ids: Seq<String>, values: Seq<S>, i: int)
    requires
        ids.len() == values.len(),
        distinct(ids),
        0 <= i < ids.len(),
    ensures
        distinct(ids.remove(i)),
        paired(ids.remove(i), values.remove(i)) == paired(ids, values).remove(ids[i]@),
{
    let ids_after = ids.remove(i);
    let values_after = values.remove(i);
    assert forall|id: Seq<char>| #[trigger]
        listed(ids_after, id) <==> listed(ids, id) && id != ids[i]@ by {
        if listed(ids, id) && id != ids[i]@ {
            let k = place_of(ids, id);
            if k < i {
                assert(ids_after[k]@ == id);
            } else {
                assert(ids_after[k - 1]@ == id);
            }
        }
        if listed(ids_after, id) {
            let k = place_of(ids_after, id);
            if k < i {
                assert(ids[k]@ == id);
            } else {
                assert(ids[k + 1]@ == id);
            }
        }
    }
    assert forall|id: Seq<char>| listed(ids_after, id) implies (#[trigger] paired(
        ids_after,
        values_after,
    )[id]) == paired(ids, values)[id] by {
        let k = place_of(ids_after, id);
        if k < i {
            assert(ids[k]@ == id);
        } else {
            assert(ids[k + 1]@ == id);
        }
    }
    assert(paired(ids_after, values_after) =~= paired(ids, values).remove(ids[i]@));
}

} // verus!
