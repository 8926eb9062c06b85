use vstd::prelude::*;

verus! {

/// A simple free-list allocator for fixed-size slots `0..capacity`.
///
/// Freed slots are recycled last-in first-out; fresh slots are handed out in
/// increasing order until `capacity` is reached.
pub struct SlotAllocator {
    free_indices: Vec<u32>,
    next_index: u32,
    capacity: u32,
}

/// The mathematical state of a [`SlotAllocator`].
pub struct SlotAllocatorModel {
    /// Recycled slots; the last one is handed out first.
    pub free_indices: Seq<u32>,
    /// The smallest slot that was never handed out.
    pub next_index: u32,
    /// The number of slots.
    pub capacity: u32,
}

impl SlotAllocatorModel {
    /// The slots that are currently handed out: every slot below `next_index`
    /// that is not waiting in the free list.
    pub open spec fn in_use(self) -> Set<u32> {
        Set::new(|i: u32| i < self.next_index && !self.free_indices.contains(i))
    }

    /// A state reachable by using the allocator as intended: the free list
    /// holds distinct slots that were handed out before, and no more slots were
    /// handed out than exist.
    pub open spec fn well_formed(self) -> bool {
        &&& self.next_index <= self.capacity
        &&& forall|k: int| 0 <= k < self.free_indices.len() ==> #[trigger] self.free_indices[k] < self.next_index
        &&& self.free_indices.no_duplicates()
    }

    /// The state after one call of `allocate`, and the slot it returns.
    pub open spec fn after_allocate(self) -> (SlotAllocatorModel, Option<u32>) {
        if self.free_indices.len() > 0 {
            (
                SlotAllocatorModel { free_indices: self.free_indices.drop_last(), ..self },
                Some(self.free_indices.last()),
            )
        } else if self.next_index < self.capacity {
            (
                SlotAllocatorModel { next_index: (self.next_index + 1) as u32, ..self },
                Some(self.next_index),
            )
        } else {
            (self, None)
        }
    }

    /// The state after one call of `free(index)`.
    pub open spec fn after_free(self, index: u32) -> SlotAllocatorModel {
        SlotAllocatorModel { free_indices: self.free_indices.push(index), ..self }
    }
}

impl View for SlotAllocator {
    type V = SlotAllocatorModel;

    closed spec fn view(&self) -> SlotAllocatorModel {
        SlotAllocatorModel {
            free_indices: self.free_indices@,
            next_index: self.next_index,
            capacity: self.capacity,
        }
    }
}

impl SlotAllocator {
    /// Creates an allocator for the slots `0..capacity`, none of them in use.
    pub fn new(capacity: u32) -> (r: Self)
        ensures
            r@.free_indices == Seq::<u32>::empty(),
            r@.next_index == 0,
            r@.capacity == capacity,
            r@.well_formed(),
    {
        SlotAllocator { free_indices: Vec::new(), next_index: 0, capacity }
    }

    /// Hands out a slot: the most recently freed one if any, else the next
    /// fresh one, else `None` when every slot was handed out.
    pub fn allocate(&mut self) -> (r: Option<u32>)
        ensures
            (final(self)@, r) == old(self)@.after_allocate(),
    {
        // recycle a freed slot if possible
        if let Some(idx) = self.free_indices.pop() {
            return Some(idx);
        }
        // else hand out a fresh one
        if self.next_index < self.capacity {
            let idx = self.next_index;
            self.next_index = self.next_index + 1;
            return Some(idx);
        }
        // or full
        None
    }

    /// Returns a slot to the allocator so that it is handed out again.
    pub fn free(&mut self, index: u32)
        ensures
            final(self)@ == old(self)@.after_free(index),
    {
        self.free_indices.push(index);
    }
}

/// Allocating keeps a well-formed allocator well-formed, and the slot it hands
/// out is below the capacity and was not in use; afterwards exactly that slot
/// has joined the slots in use.
pub proof fn lemma_allocate_hands_out_unused_slot(s: SlotAllocatorModel)
    requires
        s.well_formed(),
    ensures
        s.after_allocate().0.well_formed(),
        s.after_allocate().1 matches Some(i) ==> {
            &&& i < s.capacity
            &&& !s.in_use().contains(i)
            &&& s.after_allocate().0.in_use() == s.in_use().insert(i)
        },
        s.after_allocate().1 is None ==> s.after_allocate().0 == s,
{
    let (t, r) = s.after_allocate();
    if s.free_indices.len() > 0 {
        let i = s.free_indices.last();
        let fl = s.free_indices.drop_last();
        assert(fl.no_duplicates());
        assert(!fl.contains(i)) by {
            if fl.contains(i) {
                let k = choose|k: int| 0 <= k < fl.len() && fl[k] == i;
                assert(s.free_indices[k] == s.free_indices[s.free_indices.len() - 1]);
            }
        }
        assert forall|j: u32| #[trigger] t.in_use().contains(j) == s.in_use().insert(i).contains(j) by {
            if j != i {
                if s.free_indices.contains(j) {
                    let k = choose|k: int| 0 <= k < s.free_indices.len() && s.free_indices[k] == j;
                    assert(fl[k] == j);
                }
                if fl.contains(j) {
                    let k = choose|k: int| 0 <= k < fl.len() && fl[k] == j;
                    assert(s.free_indices[k] == j);
                }
            } else {
                assert(s.free_indices[s.free_indices.len() - 1] == i);
            }
        }
        assert(t.in_use() =~= s.in_use().insert(i));
        assert(s.free_indices.contains(i)) by {
            assert(s.free_indices[s.free_indices.len() - 1] == i);
        }
    } else if s.next_index < s.capacity {
        let i = s.next_index;
        assert forall|j: u32| #[trigger] t.in_use().contains(j) == s.in_use().insert(i).contains(j) by {
            assert(!s.free_indices.contains(j));
        }
        assert(t.in_use() =~= s.in_use().insert(i));
    }
}

/// Freeing a slot that is in use keeps a well-formed allocator well-formed and
/// removes exactly that slot from the slots in use.
pub proof fn lemma_free_returns_slot(s: SlotAllocatorModel, index: u32)
    requires
        s.well_formed(),
        s.in_use().contains(index),
    ensures
        s.after_free(index).well_formed(),
        s.after_free(index).in_use() == s.in_use().remove(index),
{
    let t = s.after_free(index);
    let fl = s.free_indices.push(index);
    assert forall|a: int, b: int| 0 <= a < b < fl.len() implies fl[a] != fl[b] by {
        if b == fl.len() - 1 {
            assert(fl[a] == s.free_indices[a]);
        } else {
            assert(fl[a] == s.free_indices[a] && fl[b] == s.free_indices[b]);
        }
    }
    assert(fl.no_duplicates());
    assert forall|k: int| 0 <= k < fl.len() implies #[trigger] fl[k] < s.next_index by {
        if k < s.free_indices.len() {
            assert(fl[k] == s.free_indices[k]);
        }
    }
    assert forall|j: u32| #[trigger] t.in_use().contains(j) == s.in_use().remove(index).contains(j) by {
        if j != index {
            if fl.contains(j) {
                let k = choose|k: int| 0 <= k < fl.len() && fl[k] == j;
                assert(s.free_indices[k] == j);
            }
            if s.free_indices.contains(j) {
                let k = choose|k: int| 0 <= k < s.free_indices.len() && s.free_indices[k] == j;
                assert(fl[k] == j);
            }
        } else {
            assert(fl[fl.len() - 1] == index);
        }
    }
    assert(t.in_use() =~= s.in_use().remove(index));
}

/// The free list is last-in first-out: the slot freed last is the next one
/// handed out.
pub proof fn lemma_allocate_after_free(s: SlotAllocatorModel, index: u32)
    ensures
        s.after_free(index).after_allocate().1 == Some(index),
        s.after_free(index).after_allocate().0 == s,
{
    assert(s.after_free(index).free_indices.drop_last() =~= s.free_indices);
}

} // verus!
