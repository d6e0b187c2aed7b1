//! A small store that keeps one value under each name.
//!
//! The store is a vector of named slots in which no name occurs twice. Its
//! view is the map from names to values; every operation is specified over
//! that map.

use vstd::prelude::*;

verus! {

/// One slot of a [`Registry`]: a value and the name it is kept under.
struct Slot<V> {
    name: String,
    value: V,
}

/// A map from names to values, with exact-match lookup.
pub struct Registry<V> {
    slots: Vec<Slot<V>>,
}

/// Slot `i` of `slots` exists and is kept under `name`.
spec fn slot_named<V>(slots: Seq<Slot<V>>, i: int, name: Seq<char>) -> bool {
    0 <= i < slots.len() && slots[i].name@ == name
}

/// No two slots share a name.
spec fn names_distinct<V>(slots: Seq<Slot<V>>) -> bool {
    forall|i: int, j: int|
        0 <= i < j < slots.len() ==> (#[trigger] slots[i]).name@ != (#[trigger] slots[j]).name@
}

/// The map that a sequence of slots stands for.
spec fn slots_map<V>(slots: Seq<Slot<V>>) -> Map<Seq<char>, V> {
    Map::new(
        |name: Seq<char>| exists|i: int| slot_named(slots, i, name),
        |name: Seq<char>| slots[choose|i: int| slot_named(slots, i, name)].value,
    )
}

/// In a sequence without repeated names, the slot kept under a name is the
/// only one with that name, so the map holds exactly its value.
proof fn lemma_slot_lookup<V>(slots: Seq<Slot<V>>, i: int)
    requires
        names_distinct(slots),
        0 <= i < slots.len(),
    ensures
        slots_map(slots).contains_key(slots[i].name@),
        slots_map(slots)[slots[i].name@] == slots[i].value,
{
    let name = slots[i].name@;
    assert(slot_named(slots, i, name));
    let j = choose|j: int| slot_named(slots, j, name);
    assert(slot_named(slots, j, name));
    if i < j {
        assert(slots[i].name@ != slots[j].name@);
    } else if j < i {
        assert(slots[j].name@ != slots[i].name@);
    }
}

/// A name that no slot carries is not a key of the map.
proof fn lemma_absent<V>(slots: Seq<Slot<V>>, name: Seq<char>)
    requires
        forall|i: int| 0 <= i < slots.len() ==> (#[trigger] slots[i]).name@ != name,
    ensures
        !slots_map(slots).contains_key(name),
{
    if slots_map(slots).contains_key(name) {
        let i = choose|i: int| slot_named(slots, i, name);
        assert(slot_named(slots, i, name));
        assert(slots[i].name@ == name);
    }
}

/// Every key of the map is the name of some slot.
proof fn lemma_key_has_slot<V>(slots: Seq<Slot<V>>, name: Seq<char>) -> (i: int)
    requires
        slots_map(slots).contains_key(name),
    ensures
        slot_named(slots, i, name),
{
    choose|i: int| slot_named(slots, i, name)
}

/// Putting a slot in the place of one with the same name keeps the names
/// distinct and maps the name to the new value.
proof fn lemma_replace<V>(slots: Seq<Slot<V>>, i: int, slot: Slot<V>)
    requires
        names_distinct(slots),
        slot_named(slots, i, slot.name@),
    ensures
        names_distinct(slots.update(i, slot)),
        slots_map(slots.update(i, slot)) == slots_map(slots).insert(slot.name@, slot.value),
{
    let after = slots.update(i, slot);
    assert forall|a: int, b: int| 0 <= a < b < after.len() implies
        (#[trigger] after[a]).name@ != (#[trigger] after[b]).name@ by {
        assert(after[a].name@ == slots[a].name@);
        assert(after[b].name@ == slots[b].name@);
        assert(slots[a].name@ != slots[b].name@);
    }
    let want = slots_map(slots).insert(slot.name@, slot.value);
    assert forall|name: Seq<char>| #[trigger] slots_map(after).dom().contains(name) implies
        want.dom().contains(name) by {
        let j = lemma_key_has_slot(after, name);
        assert(after[j].name@ == slots[j].name@);
        lemma_slot_lookup(slots, j);
    }
    assert forall|name: Seq<char>| #[trigger] want.dom().contains(name) implies
        slots_map(after).dom().contains(name) && slots_map(after)[name] == want[name] by {
        if name == slot.name@ {
            lemma_slot_lookup(after, i);
        } else {
            let j = lemma_key_has_slot(slots, name);
            assert(after[j] == slots[j]);
            lemma_slot_lookup(after, j);
            lemma_slot_lookup(slots, j);
        }
    }
    assert(slots_map(after) =~= want);
}

/// Appending a slot whose name is new keeps the names distinct and adds the
/// pair to the map.
proof fn lemma_append<V>(slots: Seq<Slot<V>>, slot: Slot<V>)
    requires
        names_distinct(slots),
        !slots_map(slots).contains_key(slot.name@),
    ensures
        names_distinct(slots.push(slot)),
        slots_map(slots.push(slot)) == slots_map(slots).insert(slot.name@, slot.value),
{
    let after = slots.push(slot);
    let last = slots.len() as int;
    assert forall|a: int, b: int| 0 <= a < b < after.len() implies
        (#[trigger] after[a]).name@ != (#[trigger] after[b]).name@ by {
        assert(after[a] == slots[a]);
        if b < last {
            assert(after[b] == slots[b]);
            assert(slots[a].name@ != slots[b].name@);
        } else {
            lemma_slot_lookup(slots, a);
        }
    }
    let want = slots_map(slots).insert(slot.name@, slot.value);
    assert forall|name: Seq<char>| #[trigger] slots_map(after).dom().contains(name) implies
        want.dom().contains(name) by {
        let j = lemma_key_has_slot(after, name);
        if j < last {
            assert(after[j] == slots[j]);
            lemma_slot_lookup(slots, j);
        }
    }
    assert forall|name: Seq<char>| #[trigger] want.dom().contains(name) implies
        slots_map(after).dom().contains(name) && slots_map(after)[name] == want[name] by {
        if name == slot.name@ {
            lemma_slot_lookup(after, last);
        } else {
            let j = lemma_key_has_slot(slots, name);
            assert(after[j] == slots[j]);
            lemma_slot_lookup(after, j);
            lemma_slot_lookup(slots, j);
        }
    }
    assert(slots_map(after) =~= want);
}

/// Taking a slot out keeps the names distinct and removes its name from the
/// map.
proof fn lemma_take_out<V>(slots: Seq<Slot<V>>, i: int)
    requires
        names_distinct(slots),
        0 <= i < slots.len(),
    ensures
        names_distinct(slots.remove(i)),
        slots_map(slots.remove(i)) == slots_map(slots).remove(slots[i].name@),
{
    let after = slots.remove(i);
    let gone = slots[i].name@;
    assert forall|a: int, b: int| 0 <= a < b < after.len() implies
        (#[trigger] after[a]).name@ != (#[trigger] after[b]).name@ by {
        let a0 = if a < i { a } else { a + 1 };
        let b0 = if b < i { b } else { b + 1 };
        assert(after[a] == slots[a0]);
        assert(after[b] == slots[b0]);
        assert(slots[a0].name@ != slots[b0].name@);
    }
    let want = slots_map(slots).remove(gone);
    assert forall|name: Seq<char>| #[trigger] slots_map(after).dom().contains(name) implies
        want.dom().contains(name) by {
        let j = lemma_key_has_slot(after, name);
        let j0 = if j < i { j } else { j + 1 };
        assert(after[j] == slots[j0]);
        lemma_slot_lookup(slots, j0);
        if j0 < i {
            assert(slots[j0].name@ != slots[i].name@);
        } else {
            assert(slots[i].name@ != slots[j0].name@);
        }
    }
    assert forall|name: Seq<char>| #[trigger] want.dom().contains(name) implies
        slots_map(after).dom().contains(name) && slots_map(after)[name] == want[name] by {
        let j0 = lemma_key_has_slot(slots, name);
        let j = if j0 < i { j0 } else { j0 - 1 };
        assert(after[j] == slots[j0]);
        lemma_slot_lookup(after, j);
        lemma_slot_lookup(slots, j0);
    }
    assert(slots_map(after) =~= want);
}

impl<V> View for Registry<V> {
    type V = Map<Seq<char>, V>;

    closed spec fn view(&self) -> Map<Seq<char>, V> {
        slots_map(self.slots@)
    }
}

impl<V> Registry<V> {
    #[verifier::type_invariant]
    spec fn well_formed(self) -> bool {
        names_distinct(self.slots@)
    }

    /// An empty registry.
    pub fn new() -> (registry: Self)
        ensures
            registry@ == Map::<Seq<char>, V>::empty(),
    {
        let registry = Registry { slots: Vec::new() };
        proof {
            assert forall|name: Seq<char>| !slots_map(registry.slots@).contains_key(name) by {
                lemma_absent(registry.slots@, name);
            }
            assert(registry@ =~= Map::<Seq<char>, V>::empty());
        }
        registry
    }

    /// The position of the slot kept under `name`, if there is one.
    fn position(&self, name: &String) -> (found: Option<usize>)
        ensures
            match found {
                Some(i) => slot_named(self.slots@, i as int, name@),
                None => !self@.contains_key(name@),
            },
    {
        let mut i: usize = 0;
        while i < self.slots.len()
            invariant
                i <= self.slots.len(),
                forall|j: int| 0 <= j < i ==> (#[trigger] self.slots@[j]).name@ != name@,
            decreases self.slots.len() - i,
        {
            if self.slots[i].name == *name {
                return Some(i);
            }
            i += 1;
        }
        proof {
            lemma_absent(self.slots@, name@);
        }
        None
    }

    /// Whether a value is kept under `name`.
    pub fn contains(&self, name: &str) -> (present: bool)
        ensures
            present == self@.contains_key(name@),
    {
        let wanted = name.to_owned();
        match self.position(&wanted) {
            Some(i) => {
                proof {
                    use_type_invariant(self);
                    lemma_slot_lookup(self.slots@, i as int);
                }
                true
            },
            None => false,
        }
    }

    /// Keeps `value` under `name`, in place of whatever was kept there.
    pub fn insert(&mut self, name: String, value: V)
        ensures
            final(self)@ == old(self)@.insert(name@, value),
    {
        proof {
            use_type_invariant(&*self);
        }
        let found = self.position(&name);
        let mut slots = Vec::new();
        core::mem::swap(&mut slots, &mut self.slots);
        let slot = Slot { name, value };
        match found {
            Some(i) => {
                proof {
                    lemma_replace(slots@, i as int, slot);
                }
                slots.set(i, slot);
            },
            None => {
                proof {
                    lemma_append(slots@, slot);
                }
                slots.push(slot);
            },
        }
        self.slots = slots;
    }

    /// Takes out the value kept under `name`, if there is one.
    pub fn remove(&mut self, name: &str) -> (taken: Option<V>)
        ensures
            match taken {
                Some(value) => old(self)@.contains_key(name@) && value == old(self)@[name@],
                None => !old(self)@.contains_key(name@),
            },
            final(self)@ == old(self)@.remove(name@),
    {
        proof {
            use_type_invariant(&*self);
        }
        let wanted = name.to_owned();
        match self.position(&wanted) {
            Some(i) => {
                let mut slots = Vec::new();
                core::mem::swap(&mut slots, &mut self.slots);
                proof {
                    lemma_slot_lookup(slots@, i as int);
                    lemma_take_out(slots@, i as int);
                }
                let slot = slots.remove(i);
                self.slots = slots;
                Some(slot.value)
            },
            None => {
                assert(self@ =~= self@.remove(name@));
                None
            },
        }
    }
}

} // verus!
