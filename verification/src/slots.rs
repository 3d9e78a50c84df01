//! Slot arrays: fixed-size sequences of optional handles, filled in
//! first-empty-slot order as the host reports what it created.

use vstd::prelude::*;
use crate::protocol::Entity;

verus! {

/// `i` is the first index of `slots` that holds nothing, or the length of
/// `slots` where every slot holds a handle.
pub open spec fn is_first_empty<T>(slots: Seq<Option<T>>, i: int) -> bool {
    &&& 0 <= i <= slots.len()
    &&& i < slots.len() ==> slots[i].is_none()
    &&& forall|j: int| 0 <= j < i ==> (#[trigger] slots[j]).is_some()
}

/// The first index of `slots` that holds nothing, or the length of `slots`
/// where every slot holds a handle.
pub open spec fn first_empty<T>(slots: Seq<Option<T>>) -> int {
    choose|i: int| is_first_empty(slots, i)
}

/// Whether a slot is left to bind a handle to.
pub open spec fn has_empty<T>(slots: Seq<Option<T>>) -> bool {
    first_empty(slots) < slots.len()
}

/// The slots after a handle is bound to the first empty one. Full slots stay
/// as they are.
pub open spec fn bind<T>(slots: Seq<Option<T>>, handle: T) -> Seq<Option<T>> {
    if has_empty(slots) {
        slots.update(first_empty(slots), Some(handle))
    } else {
        slots
    }
}

/// The slots after several handles are bound in the given order.
pub open spec fn bind_all<T>(slots: Seq<Option<T>>, handles: Seq<T>) -> Seq<Option<T>>
    decreases handles.len(),
{
    if handles.len() == 0 {
        slots
    } else {
        bind(bind_all(slots, handles.drop_last()), handles.last())
    }
}

/// The filled slots come first: no handle stands behind an empty slot.
pub open spec fn packed<T>(slots: Seq<Option<T>>) -> bool {
    forall|i: int, j: int|
        0 <= i <= j < slots.len() && (#[trigger] slots[j]).is_some() ==> (#[trigger] slots[i]).is_some()
}

/// `count` slots that hold nothing.
pub open spec fn vacant<T>(count: nat) -> Seq<Option<T>> {
    Seq::new(count, |i: int| None)
}

/// Slots that hold nothing are packed.
pub proof fn lemma_vacant_packed<T>(count: nat)
    ensures
        packed(vacant::<T>(count)),
{
}

/// The first index at or after `start` that holds nothing, or the length.
pub open spec fn scan<T>(slots: Seq<Option<T>>, start: int) -> int
    decreases slots.len() - start,
{
    if 0 <= start < slots.len() && slots[start].is_some() {
        scan(slots, start + 1)
    } else {
        start
    }
}

proof fn lemma_scan<T>(slots: Seq<Option<T>>, start: int)
    requires
        0 <= start <= slots.len(),
        forall|j: int| 0 <= j < start ==> (#[trigger] slots[j]).is_some(),
    ensures
        is_first_empty(slots, scan(slots, start)),
    decreases slots.len() - start,
{
    if start < slots.len() && slots[start].is_some() {
        lemma_scan(slots, start + 1);
    }
}

/// Every slot array has exactly one first empty index.
pub proof fn lemma_first_empty<T>(slots: Seq<Option<T>>)
    ensures
        is_first_empty(slots, first_empty(slots)),
        forall|i: int| is_first_empty(slots, i) ==> i == first_empty(slots),
{
    lemma_scan(slots, 0);
    let k = first_empty(slots);
    assert(is_first_empty(slots, k));
    assert forall|i: int| is_first_empty(slots, i) implies i == k by {
        if i < k {
            assert(slots[i].is_some());
        } else if k < i {
            assert(slots[k].is_some());
        }
    }
}

/// In packed slots the handles stand exactly before the first empty index.
pub proof fn lemma_packed_split<T>(slots: Seq<Option<T>>)
    requires
        packed(slots),
    ensures
        forall|i: int|
            0 <= i < slots.len() ==> ((#[trigger] slots[i]).is_some() <==> i < first_empty(slots)),
{
    lemma_first_empty(slots);
    let k = first_empty(slots);
    assert forall|i: int| 0 <= i < slots.len() implies ((#[trigger] slots[i]).is_some() <==> i
        < k) by {
        if i >= k && slots[i].is_some() {
            assert(slots[k].is_some());
        }
    }
}

/// Binding a handle fills the first empty slot, leaves the others alone,
/// moves the first empty index on by one and keeps packed slots packed.
pub proof fn lemma_bind<T>(slots: Seq<Option<T>>, handle: T)
    requires
        has_empty(slots),
    ensures
        bind(slots, handle).len() == slots.len(),
        bind(slots, handle)[first_empty(slots)] == Some(handle),
        forall|i: int|
            0 <= i < slots.len() && i != first_empty(slots) ==> bind(slots, handle)[i] == slots[i],
        packed(slots) ==> packed(bind(slots, handle)),
        packed(slots) ==> first_empty(bind(slots, handle)) == first_empty(slots) + 1,
{
    lemma_first_empty(slots);
    let k = first_empty(slots);
    let after = bind(slots, handle);
    if packed(slots) {
        lemma_packed_split(slots);
        assert forall|i: int, j: int|
            0 <= i <= j < after.len() && (#[trigger] after[j]).is_some() implies (#[trigger] after[i]).is_some() by {
            if j != k {
                assert(slots[j].is_some());
            }
            if i != k {
                assert(slots[i].is_some() <==> i < k);
            }
        }
        assert forall|j: int| 0 <= j < k + 1 implies (#[trigger] after[j]).is_some() by {
            if j != k {
                assert(slots[j].is_some());
            }
        }
        if k + 1 < after.len() {
            assert(slots[k + 1].is_some() <==> k + 1 < k);
        }
        assert(is_first_empty(after, k + 1));
        lemma_first_empty(after);
    }
}

/// Bound one after the other to slots that hold nothing, the handles stand
/// in the order in which they came: the first in slot 0, the next in slot 1,
/// and so on.
pub proof fn lemma_bind_all_in_order<T>(capacity: nat, handles: Seq<T>)
    requires
        handles.len() <= capacity,
    ensures
        bind_all(vacant::<T>(capacity), handles).len() == capacity,
        packed(bind_all(vacant::<T>(capacity), handles)),
        first_empty(bind_all(vacant::<T>(capacity), handles)) == handles.len(),
        forall|i: int|
            0 <= i < capacity ==> #[trigger] bind_all(vacant::<T>(capacity), handles)[i] == if i
                < handles.len() {
                Some(handles[i])
            } else {
                None
            },
    decreases handles.len(),
{
    let empty = vacant::<T>(capacity);
    if handles.len() == 0 {
        assert(is_first_empty(empty, 0));
        lemma_first_empty(empty);
    } else {
        let front = handles.drop_last();
        lemma_bind_all_in_order::<T>(capacity, front);
        lemma_bind(bind_all(empty, front), handles.last());
    }
}

/// A slot array.
pub struct SlotArray<T> {
    slots: Vec<Option<T>>,
}

impl<T> View for SlotArray<T> {
    type V = Seq<Option<T>>;

    closed spec fn view(&self) -> Seq<Option<T>> {
        self.slots@
    }
}

impl<T: Copy> SlotArray<T> {
    /// A slot array without slots.
    pub fn new() -> (slots: SlotArray<T>)
        ensures
            slots@ == vacant::<T>(0),
    {
        let slots = SlotArray { slots: Vec::new() };
        assert(slots@ =~= vacant::<T>(0));
        slots
    }

    /// Adds one empty slot at the end.
    pub fn extend(&mut self)
        ensures
            final(self)@ == old(self)@.push(None),
    {
        self.slots.push(None);
    }

    /// The number of slots.
    pub fn len(&self) -> (count: usize)
        ensures
            count == self@.len(),
    {
        self.slots.len()
    }

    /// What the slot at `index` holds.
    pub fn get(&self, index: usize) -> (handle: Option<T>)
        requires
            index < self@.len(),
        ensures
            handle == self@[index as int],
    {
        self.slots[index]
    }

    /// The first index that holds nothing, or the number of slots where all
    /// are filled.
    pub fn first_empty(&self) -> (index: usize)
        ensures
            index == first_empty(self@),
            index <= self@.len(),
    {
        let mut index: usize = 0;
        while index < self.slots.len() && self.slots[index].is_some()
            invariant
                index <= self.slots.len(),
                forall|j: int| 0 <= j < index ==> (#[trigger] self.slots@[j]).is_some(),
            decreases self.slots.len() - index,
        {
            index = index + 1;
        }
        proof {
            assert(is_first_empty(self@, index as int));
            lemma_first_empty(self@);
        }
        index
    }

    /// Binds a handle to the first empty slot and tells which slot that was.
    pub fn bind(&mut self, handle: T) -> (index: usize)
        requires
            has_empty(old(self)@),
        ensures
            final(self)@ == bind(old(self)@, handle),
            index == first_empty(old(self)@),
    {
        let index = self.first_empty();
        self.slots[index] = Some(handle);
        index
    }
}

impl SlotArray<Entity> {
    /// The first slot from `from` up to, not including, `to` that holds
    /// `entity`, if one does.
    pub fn position(&self, entity: Entity, from: usize, to: usize) -> (found: Option<usize>)
        requires
            from <= to <= self@.len(),
        ensures
            match found {
                Some(index) => position(self@, entity, from as int, to as int) == Some(index as int),
                None => position(self@, entity, from as int, to as int).is_none(),
            },
    {
        let mut index: usize = from;
        while index < to
            invariant
                from <= index <= to <= self.slots.len(),
                forall|j: int| from <= j < index ==> (#[trigger] self.slots@[j]) != Some(entity),
            decreases to - index,
        {
            match self.slots[index] {
                Some(held) => {
                    if held == entity {
                        proof {
                            assert(is_position(self@, entity, from as int, to as int, index as int));
                            lemma_position(self@, entity, from as int, to as int);
                        }
                        return Some(index);
                    }
                },
                None => {},
            }
            index = index + 1;
        }
        proof {
            lemma_position(self@, entity, from as int, to as int);
        }
        None
    }
}

/// `i` is the first slot from `from` up to, not including, `to` that holds
/// `entity`.
pub open spec fn is_position(slots: Seq<Option<Entity>>, entity: Entity, from: int, to: int, i: int) -> bool {
    &&& 0 <= from <= i < to <= slots.len()
    &&& slots[i] == Some(entity)
    &&& forall|j: int| from <= j < i ==> (#[trigger] slots[j]) != Some(entity)
}

/// The first slot from `from` up to, not including, `to` that holds
/// `entity`, if one does.
pub open spec fn position(slots: Seq<Option<Entity>>, entity: Entity, from: int, to: int) -> Option<int> {
    if exists|i: int| is_position(slots, entity, from, to, i) {
        Some(choose|i: int| is_position(slots, entity, from, to, i))
    } else {
        None
    }
}

/// An entity that a slot of a range holds has a first position in the
/// range.
pub proof fn lemma_position_exists(
    slots: Seq<Option<Entity>>,
    entity: Entity,
    from: int,
    to: int,
    j: int,
)
    requires
        0 <= from <= j < to <= slots.len(),
        slots[j] == Some(entity),
    ensures
        position(slots, entity, from, to).is_some(),
    decreases j - from,
{
    if forall|k: int| from <= k < j ==> (#[trigger] slots[k]) != Some(entity) {
        assert(is_position(slots, entity, from, to, j));
    } else {
        let k = choose|k: int| from <= k < j && (#[trigger] slots[k]) == Some(entity);
        lemma_position_exists(slots, entity, from, to, k);
    }
}

/// An entity has at most one first position in a range, and it has one
/// exactly if a slot of the range holds it.
pub proof fn lemma_position(slots: Seq<Option<Entity>>, entity: Entity, from: int, to: int)
    ensures
        forall|i: int|
            is_position(slots, entity, from, to, i) ==> position(slots, entity, from, to) == Some(i),
        position(slots, entity, from, to) matches Some(i) ==> is_position(slots, entity, from, to, i),
        (forall|j: int| from <= j < to ==> 0 <= j < slots.len() && (#[trigger] slots[j]) != Some(entity))
            ==> position(slots, entity, from, to).is_none(),
        0 <= from && to <= slots.len() && position(slots, entity, from, to).is_none() ==> forall|j: int|
            from <= j < to ==> (#[trigger] slots[j]) != Some(entity),
{
    if 0 <= from && to <= slots.len() && position(slots, entity, from, to).is_none() {
        assert forall|j: int| from <= j < to implies (#[trigger] slots[j]) != Some(entity) by {
            if slots[j] == Some(entity) {
                lemma_position_exists(slots, entity, from, to, j);
            }
        }
    }
    assert forall|i: int| is_position(slots, entity, from, to, i) implies position(
        slots,
        entity,
        from,
        to,
    ) == Some(i) by {
        let k = choose|k: int| is_position(slots, entity, from, to, k);
        if i < k {
            assert(slots[i] != Some(entity));
        } else if k < i {
            assert(slots[k] != Some(entity));
        }
    }
}

} // verus!
