//! The `offset_allocator` crate's allocator, as the chunk storage uses it to
//! hand out byte ranges of the shared voxel face buffer.

use offset_allocator::{Allocation, Allocator};
use vstd::prelude::*;

verus! {

/// A heap of units handed out by an `offset_allocator::Allocator`, kept
/// private and used only through the functions below, which state what each
/// allocator call does to the heap's live allocations.
#[verifier::external_body]
pub struct GeometryHeap {
    allocator: Allocator,
}

/// An `offset_allocator::Allocation` handed out by a [`GeometryHeap`]: the key
/// under which the heap knows a live range.
#[verifier::external_body]
pub struct GeometryAllocation {
    allocation: Allocation,
}

impl Clone for GeometryAllocation {
    /// `offset_allocator::Allocation` is `Copy`: its clone is the same value.
    #[verifier::external_body]
    fn clone(&self) -> (r: Self)
        ensures
            r == *self,
    {
        GeometryAllocation { allocation: self.allocation }
    }
}

impl Copy for GeometryAllocation {}

/// The live allocations of a heap, each with the `(offset, size)` of the range
/// of units it owns.
pub uninterp spec fn heap_allocations(heap: GeometryHeap) -> Map<GeometryAllocation, (u32, u32)>;

/// The number of units a heap manages: its ranges lie in `0..heap_capacity`.
pub uninterp spec fn heap_capacity(heap: GeometryHeap) -> u32;

/// Whether the heap, in its current state, grants a request for `size` units.
/// `Allocator::allocate` decides this from the allocator's state alone (its
/// free nodes and bins); what that state allows is left unnamed beyond this.
pub uninterp spec fn heap_grants(heap: GeometryHeap, size: u32) -> bool;

/// The unit range `(offset, size)` lies inside `0..capacity`.
pub open spec fn range_within(range: (u32, u32), capacity: int) -> bool {
    range.0 + range.1 <= capacity
}

/// Two unit ranges `(offset, size)` share no unit.
pub open spec fn ranges_disjoint(a: (u32, u32), b: (u32, u32)) -> bool {
    a.0 + a.1 <= b.0 || b.0 + b.1 <= a.0
}

/// `offset_allocator::Allocator::new(size)`: a heap of `size` units with no
/// live allocation. (It builds the allocator with the default node budget and
/// never panics for a `u32` size.)
#[verifier::external_body]
pub(crate) fn new_heap(size: u32) -> (heap: GeometryHeap)
    ensures
        heap_allocations(heap).dom() == Set::<GeometryAllocation>::empty(),
        heap_capacity(heap) == size,
{
    GeometryHeap { allocator: Allocator::new(size) }
}

/// `offset_allocator::Allocator::allocate(size)`, handing out the allocation
/// with its `offset` field. On `None` (no free node, or no free range that is
/// large enough) the heap is untouched. On success the new allocation owns
/// exactly `size` units from `offset` (the node is shrunk to the requested
/// size), inside the heap and disjoint from every live range, and it is not
/// equal to any live allocation. Whether it succeeds depends on the history of
/// the heap (fragmentation), which is named [`heap_grants`] and not described.
#[verifier::external_body]
pub(crate) fn heap_allocate(heap: &mut GeometryHeap, size: u32) -> (r: Option<(GeometryAllocation, u32)>)
    ensures
        heap_capacity(*final(heap)) == heap_capacity(*old(heap)),
        r is Some <==> heap_grants(*old(heap), size),
        r is None ==> heap_allocations(*final(heap)) == heap_allocations(*old(heap)),
        r matches Some((a, offset)) ==> {
            &&& !heap_allocations(*old(heap)).contains_key(a)
            &&& heap_allocations(*final(heap)) == heap_allocations(*old(heap)).insert(a, (offset, size))
            &&& range_within((offset, size), heap_capacity(*old(heap)) as int)
            &&& forall|b: GeometryAllocation| #[trigger] heap_allocations(*old(heap)).contains_key(b)
                ==> ranges_disjoint(heap_allocations(*old(heap))[b], (offset, size))
        },
{
    match heap.allocator.allocate(size) {
        Some(a) => Some((GeometryAllocation { allocation: a }, a.offset)),
        None => None,
    }
}

/// `offset_allocator::Allocator::free(allocation)`: returns a live allocation's
/// range to the heap. Freeing an allocation that is not live trips the
/// allocator's double-free assertion (or frees a later allocation that reused
/// the node), so it is excluded.
#[verifier::external_body]
pub(crate) fn heap_free(heap: &mut GeometryHeap, allocation: GeometryAllocation)
    requires
        heap_allocations(*old(heap)).contains_key(allocation),
    ensures
        heap_capacity(*final(heap)) == heap_capacity(*old(heap)),
        heap_allocations(*final(heap)) == heap_allocations(*old(heap)).remove(allocation),
{
    heap.allocator.free(allocation.allocation)
}

} // verus!
