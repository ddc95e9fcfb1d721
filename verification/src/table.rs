//! A small map keyed by text, kept as a list of named slots in the order in
//! which the names first came.

use vstd::prelude::*;

verus! {

/// One slot of a table: a name and what is kept under it.
pub struct Named<V> {
    pub name: String,
    pub value: V,
}

/// No name occurs in two slots.
pub open spec fn names_distinct<V>(slots: Seq<Named<V>>) -> bool {
    forall|i: int, j: int| 0 <= i < j < slots.len() ==> slots[i].name@ != slots[j].name@
}

/// Some slot carries `name`.
pub open spec fn has_name<V>(slots: Seq<Named<V>>, name: Seq<char>) -> bool {
    exists|i: int| 0 <= i < slots.len() && #[trigger] slots[i].name@ == name
}

/// The index of a slot that carries `name`, where there is one.
pub open spec fn slot_of<V>(slots: Seq<Named<V>>, name: Seq<char>) -> int {
    choose|i: int| 0 <= i < slots.len() && #[trigger] slots[i].name@ == name
}

/// The slots read as a map from name to value.
pub open spec fn slots_as_map<V>(slots: Seq<Named<V>>) -> Map<Seq<char>, V> {
    Map::new(|name: Seq<char>| has_name(slots, name), |name: Seq<char>| slots[slot_of(slots, name)].value)
}

/// With distinct names, the slot of a name is the one place where it stands.
pub proof fn lemma_slot_is_unique<V>(slots: Seq<Named<V>>, i: int)
    requires
        names_distinct(slots),
        0 <= i < slots.len(),
    ensures
        has_name(slots, slots[i].name@),
        slot_of(slots, slots[i].name@) == i,
        slots_as_map(slots).contains_key(slots[i].name@),
        slots_as_map(slots)[slots[i].name@] == slots[i].value,
{
    let k = slot_of(slots, slots[i].name@);
    assert(0 <= k < slots.len() && slots[k].name@ == slots[i].name@);
    if k < i {
        assert(slots[k].name@ != slots[i].name@);
    } else if i < k {
        assert(slots[i].name@ != slots[k].name@);
    }
}

/// Writing a value into an existing slot changes the map at that name only.
pub proof fn lemma_update_slot<V>(slots: Seq<Named<V>>, i: int, slot: Named<V>)
    requires
        names_distinct(slots),
        0 <= i < slots.len(),
        slot.name@ == slots[i].name@,
    ensures
        names_distinct(slots.update(i, slot)),
        slots_as_map(slots.update(i, slot)) == slots_as_map(slots).insert(slot.name@, slot.value),
{
    let after = slots.update(i, slot);
    assert forall|a: int, b: int| 0 <= a < b < after.len() implies after[a].name@ != after[b].name@ by {
        assert(after[a].name@ == slots[a].name@);
        assert(after[b].name@ == slots[b].name@);
    }
    assert forall|name: Seq<char>| has_name(after, name) <==> has_name(slots, name) by {
        if has_name(after, name) {
            let k = slot_of(after, name);
            assert(slots[k].name@ == name);
        }
        if has_name(slots, name) {
            let k = slot_of(slots, name);
            assert(after[k].name@ == name);
        }
    }
    lemma_slot_is_unique(slots, i);
    assert forall|name: Seq<char>| has_name(after, name) implies #[trigger] slots_as_map(after)[name]
        == slots_as_map(slots).insert(slot.name@, slot.value)[name] by {
        let k = slot_of(after, name);
        lemma_slot_is_unique(after, k);
        lemma_slot_is_unique(slots, k);
    }
    assert(slots_as_map(after) =~= slots_as_map(slots).insert(slot.name@, slot.value));
}

/// A slot with a new name, put at the end, adds that name to the map.
pub proof fn lemma_push_slot<V>(slots: Seq<Named<V>>, slot: Named<V>)
    requires
        names_distinct(slots),
        !has_name(slots, slot.name@),
    ensures
        names_distinct(slots.push(slot)),
        slots_as_map(slots.push(slot)) == slots_as_map(slots).insert(slot.name@, slot.value),
{
    let after = slots.push(slot);
    assert forall|a: int, b: int| 0 <= a < b < after.len() implies after[a].name@ != after[b].name@ by {
        if b == slots.len() {
            assert(slots[a].name@ == after[a].name@);
        } else {
            assert(after[a].name@ == slots[a].name@);
            assert(after[b].name@ == slots[b].name@);
        }
    }
    assert forall|name: Seq<char>| has_name(after, name) <==> (has_name(slots, name) || name
        == slot.name@) by {
        if has_name(after, name) {
            let k = slot_of(after, name);
            if k < slots.len() {
                assert(slots[k].name@ == name);
            }
        }
        if has_name(slots, name) {
            let k = slot_of(slots, name);
            assert(after[k].name@ == name);
        }
        if name == slot.name@ {
            assert(after[slots.len() as int].name@ == name);
        }
    }
    assert forall|name: Seq<char>| has_name(after, name) implies #[trigger] slots_as_map(after)[name]
        == slots_as_map(slots).insert(slot.name@, slot.value)[name] by {
        let k = slot_of(after, name);
        lemma_slot_is_unique(after, k);
        if k < slots.len() {
            lemma_slot_is_unique(slots, k);
        }
    }
    assert(slots_as_map(after) =~= slots_as_map(slots).insert(slot.name@, slot.value));
}

/// A map from names to values. Names are compared as text; the slots keep the
/// order in which the names were first inserted.
pub struct NameTable<V> {
    pub(crate) slots: Vec<Named<V>>,
}

impl<V> NameTable<V> {
    /// The slots in order.
    pub closed spec fn slots(&self) -> Seq<Named<V>> {
        self.slots@
    }

    /// The table's invariant: no name stands in two slots.
    pub open spec fn wf(&self) -> bool {
        names_distinct(self.slots())
    }

    /// The table as a map from name to value.
    pub open spec fn view(&self) -> Map<Seq<char>, V> {
        slots_as_map(self.slots())
    }

    /// The empty table.
    pub fn new() -> (table: Self)
        ensures
            table.wf(),
            table.slots() == Seq::<Named<V>>::empty(),
            table@ == Map::<Seq<char>, V>::empty(),
    {
        let table = NameTable { slots: Vec::new() };
        assert(table@ =~= Map::<Seq<char>, V>::empty());
        table
    }

    /// The number of names.
    pub fn len(&self) -> (n: usize)
        ensures
            n == self.slots().len(),
    {
        self.slots.len()
    }

    /// The slot at `index`, counted in order of first insertion.
    pub fn slot(&self, index: usize) -> (slot: &Named<V>)
        requires
            index < self.slots().len(),
        ensures
            *slot == self.slots()[index as int],
    {
        &self.slots[index]
    }

    /// Where `name` stands, if it does.
    pub fn find(&self, name: &String) -> (found: Option<usize>)
        requires
            self.wf(),
        ensures
            match found {
                Some(index) => index < self.slots().len() && self.slots()[index as int].name@
                    == name@ && slot_of(self.slots(), name@) == index,
                None => !has_name(self.slots(), name@),
            },
            found.is_some() == self@.contains_key(name@),
    {
        let mut index: usize = 0;
        while index < self.slots.len()
            invariant
                self.wf(),
                index <= self.slots@.len(),
                forall|k: int| 0 <= k < index ==> self.slots@[k].name@ != name@,
            decreases self.slots@.len() - index,
        {
            if self.slots[index].name == *name {
                proof {
                    lemma_slot_is_unique(self.slots@, index as int);
                }
                return Some(index);
            }
            index += 1;
        }
        None
    }

    /// The value kept under `name`, if there is one.
    pub fn get(&self, name: &String) -> (value: Option<&V>)
        requires
            self.wf(),
        ensures
            match value {
                Some(v) => self@.contains_key(name@) && *v == self@[name@],
                None => !self@.contains_key(name@),
            },
    {
        match self.find(name) {
            Some(index) => {
                proof {
                    lemma_slot_is_unique(self.slots@, index as int);
                }
                Some(&self.slots[index].value)
            },
            None => None,
        }
    }

    /// Puts `value` under `name`, in place of what was there. A new name goes
    /// to the end; a known name keeps its place.
    pub fn insert(&mut self, name: String, value: V)
        requires
            old(self).wf(),
        ensures
            final(self).wf(),
            final(self)@ == old(self)@.insert(name@, value),
            old(self)@.contains_key(name@) ==> final(self).slots() == old(self).slots().update(
                slot_of(old(self).slots(), name@),
                (Named { name: old(self).slots()[slot_of(old(self).slots(), name@)].name, value }),
            ),
            !old(self)@.contains_key(name@) ==> final(self).slots() == old(self).slots().push(
                (Named { name, value }),
            ),
    {
        match self.find(&name) {
            Some(index) => {
                proof {
                    lemma_update_slot(
                        self.slots@,
                        index as int,
                        Named { name: self.slots@[index as int].name, value },
                    );
                }
                self.slots[index].value = value;
            },
            None => {
                proof {
                    lemma_push_slot(self.slots@, Named { name, value });
                }
                self.slots.push(Named { name, value });
            },
        }
    }
}

impl<V: Clone> Clone for Named<V> {
    fn clone(&self) -> (res: Self)
        ensures
            res.name == self.name,
            cloned::<V>(self.value, res.value),
    {
        Named { name: self.name.clone(), value: self.value.clone() }
    }
}

impl<V: Clone> Clone for NameTable<V> {
    fn clone(&self) -> (res: Self)
        ensures
            res.slots().len() == self.slots().len(),
            forall|i: int|
                0 <= i < self.slots().len() ==> (#[trigger] res.slots()[i]).name
                    == self.slots()[i].name && cloned::<V>(
                    self.slots()[i].value,
                    res.slots()[i].value,
                ),
    {
        let res = NameTable { slots: self.slots.clone() };
        assert forall|i: int| 0 <= i < self.slots@.len() implies (#[trigger] res.slots@[i]).name
            == self.slots@[i].name && cloned::<V>(self.slots@[i].value, res.slots@[i].value) by {
            assert(cloned::<Named<V>>(self.slots@[i], res.slots@[i]));
        }
        res
    }
}

/// Two slot lists with the same names in the same places have the same names.
pub proof fn lemma_same_names<V, W>(left: Seq<Named<V>>, right: Seq<Named<W>>)
    requires
        left.len() == right.len(),
        forall|i: int| 0 <= i < left.len() ==> left[i].name@ == right[i].name@,
    ensures
        names_distinct(left) ==> names_distinct(right),
        forall|name: Seq<char>| has_name(left, name) <==> has_name(right, name),
{
    if names_distinct(left) {
        assert forall|a: int, b: int| 0 <= a < b < right.len() implies right[a].name@
            != right[b].name@ by {
            assert(left[a].name@ != left[b].name@);
        }
    }
    assert forall|name: Seq<char>| has_name(left, name) <==> has_name(right, name) by {
        if has_name(left, name) {
            let k = slot_of(left, name);
            assert(right[k].name@ == name);
        }
        if has_name(right, name) {
            let k = slot_of(right, name);
            assert(left[k].name@ == name);
        }
    }
}

/// The slots of a table of lists, read as a map from name to sequence.
pub open spec fn slots_as_sequences<T>(slots: Seq<Named<Vec<T>>>) -> Map<Seq<char>, Seq<T>> {
    slots_as_map(slots).map_values(|list: Vec<T>| list@)
}

/// Two tables of lists whose slots agree in name and in what the lists hold
/// are the same map of sequences.
pub proof fn lemma_same_sequences<T>(left: Seq<Named<Vec<T>>>, right: Seq<Named<Vec<T>>>)
    requires
        names_distinct(left),
        left.len() == right.len(),
        forall|i: int|
            0 <= i < left.len() ==> left[i].name@ == right[i].name@ && left[i].value@
                == right[i].value@,
    ensures
        names_distinct(right),
        slots_as_sequences(left) == slots_as_sequences(right),
{
    lemma_same_names(left, right);
    assert forall|name: Seq<char>| has_name(left, name) implies slots_as_sequences(left)[name]
        == slots_as_sequences(right)[name] by {
        let k = slot_of(left, name);
        lemma_slot_is_unique(left, k);
        lemma_slot_is_unique(right, k);
    }
    assert(slots_as_sequences(left) =~= slots_as_sequences(right));
}

/// What a map of sequences is after one more item under `name`.
pub open spec fn with_appended<T>(
    sequences: Map<Seq<char>, Seq<T>>,
    name: Seq<char>,
    item: T,
) -> Map<Seq<char>, Seq<T>> {
    let before = if sequences.contains_key(name) {
        sequences[name]
    } else {
        Seq::<T>::empty()
    };
    sequences.insert(name, before.push(item))
}

impl<T> NameTable<Vec<T>> {
    /// The table as a map from name to the sequence kept under it.
    pub open spec fn sequences(&self) -> Map<Seq<char>, Seq<T>> {
        slots_as_sequences(self.slots())
    }

    /// Puts `item` at the end of the list under `name`; a name not yet known
    /// gets a list of this one item.
    pub fn append(&mut self, name: String, item: T)
        requires
            old(self).wf(),
        ensures
            final(self).wf(),
            final(self).sequences() == with_appended(old(self).sequences(), name@, item),
    {
        match self.find(&name) {
            Some(index) => {
                self.slots[index].value.push(item);
                proof {
                    let before = old(self).slots@;
                    let after = self.slots@;
                    lemma_slot_is_unique(before, index as int);
                    assert(after =~= before.update(index as int, after[index as int]));
                    lemma_update_slot(before, index as int, after[index as int]);
                    assert(self.sequences() =~= with_appended(old(self).sequences(), name@, item));
                }
            },
            None => {
                let mut list: Vec<T> = Vec::new();
                list.push(item);
                proof {
                    lemma_push_slot(old(self).slots@, Named { name, value: list });
                    assert(list@ =~= Seq::<T>::empty().push(item));
                    assert(slots_as_sequences(old(self).slots@.push(Named { name, value: list }))
                        =~= with_appended(old(self).sequences(), name@, item));
                }
                self.slots.push(Named { name, value: list });
            },
        }
    }
}

} // verus!
