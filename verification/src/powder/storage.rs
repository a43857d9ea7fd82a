//! Slot storage: values are kept under stable numeric identifiers, and the slot of a
//! removed value is reused by the next stored one.
use vstd::prelude::*;

verus! {

/// Values stored under stable identifiers.
pub struct Storage<T> {
    slots: Vec<Option<T>>,
}

impl<T> View for Storage<T> {
    type V = Seq<Option<T>>;

    /// Slot `id` holds `Some(value)` when a value is stored under `id`.
    closed spec fn view(&self) -> Seq<Option<T>> {
        self.slots@
    }
}

/// Whether `id` is the identifier that storing a value into `slots` uses: the lowest
/// free slot, or a new slot after the last one when none is free.
pub open spec fn is_first_free<T>(slots: Seq<Option<T>>, id: int) -> bool {
    &&& 0 <= id <= slots.len()
    &&& id < slots.len() ==> slots[id] is None
    &&& forall|j: int| 0 <= j < id ==> #[trigger] slots[j] is Some
}

/// Whether slot `id` holds a value.
pub open spec fn is_occupied<T>(slots: Seq<Option<T>>, id: int) -> bool {
    0 <= id < slots.len() && slots[id] is Some
}

/// The slots after storing `item` under `id`, the lowest free slot.
pub open spec fn stored<T>(slots: Seq<Option<T>>, id: int, item: T) -> Seq<Option<T>> {
    if id < slots.len() {
        slots.update(id, Some(item))
    } else {
        slots.push(Some(item))
    }
}

/// A stored value is found under the identifier that storing it returned, every other
/// value stays where it was, and removing it again frees that one slot.
pub proof fn lemma_stored_item_is_found<T>(slots: Seq<Option<T>>, id: int, item: T)
    requires
        is_first_free(slots, id),
    ensures
        is_occupied(stored(slots, id, item), id),
        stored(slots, id, item)[id] == Some(item),
        forall|j: int|
            0 <= j < slots.len() && j != id ==> #[trigger] stored(slots, id, item)[j] == slots[j],
        forall|j: int|
            0 <= j < slots.len() && j != id ==> (is_occupied(stored(slots, id, item), j)
                <==> #[trigger] is_occupied(slots, j)),
        stored(slots, id, item).update(id, None).subrange(0, slots.len() as int) == slots,
{
    let after = stored(slots, id, item);
    assert(after.update(id, None).subrange(0, slots.len() as int) =~= slots);
}

impl<T> Storage<T> {
    /// Empty storage.
    pub fn new() -> (storage: Self)
        ensures
            storage@ == Seq::<Option<T>>::empty(),
    {
        Storage { slots: Vec::new() }
    }

    /// Number of slots, free or not.
    pub fn capacity(&self) -> (count: usize)
        ensures
            count == self@.len(),
    {
        self.slots.len()
    }

    /// Stores a value in the lowest free slot and returns its identifier.
    pub fn store(&mut self, item: T) -> (id: usize)
        requires
            old(self)@.len() < usize::MAX,
        ensures
            is_first_free(old(self)@, id as int),
            final(self)@ == stored(old(self)@, id as int, item),
    {
        let mut index: usize = 0;
        while index < self.slots.len()
            invariant
                index <= self.slots@.len(),
                self.slots@ == old(self)@,
                forall|j: int| 0 <= j < index ==> #[trigger] self.slots@[j] is Some,
            decreases self.slots@.len() - index,
        {
            if self.slots[index].is_none() {
                self.slots.set(index, Some(item));
                return index;
            }
            index = index + 1;
        }
        self.slots.push(Some(item));
        index
    }

    /// Removes and returns the value stored under `id`, if any.
    pub fn remove(&mut self, id: usize) -> (item: Option<T>)
        ensures
            item == if id < old(self)@.len() {
                old(self)@[id as int]
            } else {
                None
            },
            final(self)@ == if id < old(self)@.len() {
                old(self)@.update(id as int, None)
            } else {
                old(self)@
            },
    {
        if id < self.slots.len() {
            self.slots[id].take()
        } else {
            None
        }
    }

    /// The value stored under `id`, if any.
    pub fn get(&self, id: usize) -> (item: Option<&T>)
        ensures
            item == if is_occupied(self@, id as int) {
                Some(&self@[id as int].unwrap())
            } else {
                None
            },
    {
        if id < self.slots.len() {
            match &self.slots[id] {
                Some(item) => Some(item),
                None => None,
            }
        } else {
            None
        }
    }

    /// The value stored under `id`, which must be occupied.
    pub fn get_unchecked(&self, id: usize) -> (item: &T)
        requires
            is_occupied(self@, id as int),
        ensures
            *item == self@[id as int].unwrap(),
    {
        match &self.slots[id] {
            Some(item) => item,
            None => vstd::pervasive::unreached(),
        }
    }

    /// Replaces the value stored under `id`, which must be occupied, and returns the old one.
    pub fn replace(&mut self, id: usize, item: T) -> (previous: T)
        requires
            is_occupied(old(self)@, id as int),
        ensures
            previous == old(self)@[id as int].unwrap(),
            final(self)@ == old(self)@.update(id as int, Some(item)),
    {
        let previous = self.slots[id].take();
        self.slots.set(id, Some(item));
        match previous {
            Some(previous) => previous,
            None => vstd::pervasive::unreached(),
        }
    }

    /// The lowest occupied identifier after `last`, or from the start when `last` is `None`.
    pub fn get_next_id(&self, last: Option<usize>) -> (id: Option<usize>)
        ensures
            match id {
                Some(id) => is_occupied(self@, id as int) && (last matches Some(l) ==> l < id)
                    && forall|j: int|
                    #![trigger self@[j]]
                    (match last {
                        Some(l) => l < j,
                        None => 0 <= j,
                    }) && j < id ==> !is_occupied(self@, j),
                None => forall|j: int|
                    #![trigger self@[j]]
                    (match last {
                        Some(l) => l < j,
                        None => 0 <= j,
                    }) ==> !is_occupied(self@, j),
            },
    {
        let mut index: usize = match last {
            Some(l) => if l < self.slots.len() {
                l + 1
            } else {
                self.slots.len()
            },
            None => 0,
        };
        while index < self.slots.len()
            invariant
                index <= self.slots@.len(),
                match last {
                    Some(l) => l < index || index == self.slots@.len(),
                    None => true,
                },
                forall|j: int|
                    #![trigger self.slots@[j]]
                    (match last {
                        Some(l) => l < j,
                        None => 0 <= j,
                    }) && j < index ==> !is_occupied(self.slots@, j),
            decreases self.slots@.len() - index,
        {
            if self.slots[index].is_some() {
                return Some(index);
            }
            index = index + 1;
        }
        None
    }

    /// Whether no value is stored.
    pub fn is_empty(&self) -> (empty: bool)
        ensures
            empty == forall|j: int| 0 <= j < self@.len() ==> #[trigger] self@[j] is None,
    {
        let mut index: usize = 0;
        while index < self.slots.len()
            invariant
                index <= self.slots@.len(),
                forall|j: int| 0 <= j < index ==> #[trigger] self.slots@[j] is None,
            decreases self.slots@.len() - index,
        {
            if self.slots[index].is_some() {
                return false;
            }
            index = index + 1;
        }
        true
    }

    /// Removes every value.
    pub fn clear(&mut self)
        ensures
            final(self)@ == Seq::<Option<T>>::empty(),
    {
        self.slots.clear();
    }
}

} // verus!
