//! Bookkeeping for the GPU storage of chunk meshes: which byte range of the
//! shared face buffer and which slot of the metadata buffer each chunk owns,
//! and how large the face buffer has to be.
//!
//! The buffers themselves live on the GPU; this module decides what is written
//! where and when the face buffer grows, and the caller performs the writes.

use crate::geometry_heap::{
    heap_allocate, heap_allocations, heap_capacity, heap_free, heap_grants, new_heap, range_within,
    ranges_disjoint, GeometryAllocation, GeometryHeap,
};
use crate::slot_allocator::{
    lemma_allocate_hands_out_unused_slot, lemma_free_returns_slot, SlotAllocator,
    SlotAllocatorModel,
};
use vstd::prelude::*;

verus! {

/// The virtual address space (in bytes) that the geometry heap believes it has: 2 GiB.
pub const VIRTUAL_ADDRESS_SPACE: u32 = 2 * 1024 * 1024 * 1024;

/// The initial physical size (in bytes) of the face buffer: 1 MiB. Growing
/// handles the rest.
pub const INITIAL_PHYSICAL_SIZE: u64 = 1024 * 1024;

/// The maximum number of chunks, i.e. of records in the metadata buffer.
pub const MAX_CHUNKS: u64 = 10_000;

/// The byte size of one chunk's record in the metadata buffer: a world position
/// of three `f32` and a `u32` start index, laid out as in C.
pub const CHUNK_RENDER_DATA_SIZE: u64 = 16;

/// A voxel mesh handle holding the GPU allocation and index.
#[derive(Clone, Copy)]
pub struct VoxelMesh {
    /// Handle for the geometry (face) buffer range.
    pub geometry_allocation: GeometryAllocation,
    /// Index of the chunk's record in the metadata buffer (its instance index).
    pub slot_index: u32,
    /// Number of faces to draw.
    pub face_count: u32,
}

/// The face buffer would have to grow past what the device allows.
#[derive(Clone, Copy, Debug, PartialEq, Eq)]
pub struct GeometryExceedsLimit {
    /// The end (exclusive) of the byte range that had to fit.
    pub required_end_byte: u64,
    /// The largest storage buffer the device supports.
    pub limit: u64,
}

/// What the caller writes to the GPU for a chunk whose storage was granted.
pub struct ChunkUpload {
    /// The handle to keep for drawing and for freeing later.
    pub mesh: VoxelMesh,
    /// The first 32-bit word of the chunk's faces in the face buffer.
    pub start_index: u32,
    /// The byte offset of the chunk's record in the metadata buffer.
    pub meta_offset: u64,
}

/// The outcome of a request for chunk storage.
pub struct ChunkAllocation {
    /// The byte range `(offset, size)` of the face buffer that the faces were
    /// given, if the geometry heap had room.
    pub geometry: Option<(u32, u32)>,
    /// The new size of the face buffer, when it has to grow first (its old
    /// contents are kept); this happens even if no slot is left afterwards.
    pub resize_face_buffer_to: Option<u64>,
    /// The faces and the metadata record to write, if a slot was free too.
    pub upload: Option<ChunkUpload>,
}

/// The number of bytes in `face_count` faces of `face_size` bytes each, as the
/// 32-bit size that the geometry heap is asked for (the count wraps).
pub open spec fn geometry_bytes(face_count: usize, face_size: usize) -> u32 {
    ((face_count as int * face_size as int) % 0x1_0000_0000) as u32
}

/// A `usize` count as a `u32` (it wraps).
pub open spec fn wrapped_u32(n: usize) -> u32 {
    (n as int % 0x1_0000_0000) as u32
}

/// `size` doubled until it reaches `required` (unchanged if it already does).
pub open spec fn doubled_until(size: nat, required: nat) -> nat
    decreases (if size < required { required - size } else { 0int }),
{
    if size == 0 || size >= required {
        size
    } else {
        doubled_until(size * 2, required)
    }
}

/// How the face buffer of `current` bytes must change so that `required` bytes
/// fit: not at all if they do; else doubled at least once until they fit,
/// capped at the device `limit`; and an error when even the limit is too small.
pub open spec fn face_buffer_growth(current: u64, required: u64, limit: u64) -> Result<
    Option<u64>,
    GeometryExceedsLimit,
> {
    if required <= current {
        Ok(None)
    } else {
        let grown = doubled_until((current * 2) as nat, required as nat);
        if grown > limit {
            if required > limit {
                Err(GeometryExceedsLimit { required_end_byte: required, limit })
            } else {
                Ok(Some(limit))
            }
        } else {
            Ok(Some(grown as u64))
        }
    }
}

/// Doubling a positive size ends at or above the target, below twice the
/// target, and on a power-of-two multiple of where it started.
pub proof fn lemma_doubled_until(size: nat, required: nat)
    requires
        size > 0,
    ensures
        doubled_until(size, required) >= required,
        doubled_until(size, required) >= size,
        size < required ==> doubled_until(size, required) < 2 * required,
        exists|k: nat| doubled_until(size, required) == size * vstd::arithmetic::power2::pow2(k),
    decreases (if size < required { required - size } else { 0int }),
{
    if size >= required {
        vstd::arithmetic::power2::lemma2_to64();
        assert(doubled_until(size, required) == size * vstd::arithmetic::power2::pow2(0));
    } else {
        lemma_doubled_until(size * 2, required);
        let k = choose|k: nat|
            doubled_until(size * 2, required) == (size * 2) * vstd::arithmetic::power2::pow2(k);
        vstd::arithmetic::power2::lemma_pow2_unfold(k + 1);
        assert((size * 2) * vstd::arithmetic::power2::pow2(k) == size * (2 * vstd::arithmetic::power2::pow2(k)))
            by (nonlinear_arith);
        assert(doubled_until(size, required) == size * vstd::arithmetic::power2::pow2(k + 1));
    }
}

/// The face buffer only ever grows, and only as far as needed: a new size
/// holds the required bytes and more than the old size (so the old contents
/// can be copied over), and is below twice the requirement unless it is the
/// device limit; an error means that even the limit is too small.
pub proof fn lemma_face_buffer_grows_to_fit(current: u64, required: u64, limit: u64)
    requires
        current > 0,
    ensures
        face_buffer_growth(current, required, limit) matches Ok(None) ==> required <= current,
        face_buffer_growth(current, required, limit) matches Ok(Some(n)) ==> {
            &&& current < required <= n
            &&& n == limit || n < 2 * required
        },
        face_buffer_growth(current, required, limit) is Err ==> required > limit && required > current,
{
    if required > current {
        lemma_doubled_until((current * 2) as nat, required as nat);
    }
}

/// Decides how the face buffer of `current` bytes grows so that `required`
/// bytes fit, given the device's largest storage buffer `limit`.
pub fn plan_face_buffer_growth(current: u64, required: u64, limit: u64) -> (r: Result<
    Option<u64>,
    GeometryExceedsLimit,
>)
    requires
        current > 0,
        required <= 0x8000_0000_0000_0000,
    ensures
        r == face_buffer_growth(current, required, limit),
{
    // if space permits already, we are good
    if required <= current {
        return Ok(None);
    }
    // new size calc
    let mut new_size = current * 2;
    while new_size < required
        invariant
            0 < new_size < 2 * required,
            current < required <= 0x8000_0000_0000_0000,
            doubled_until(new_size as nat, required as nat) == doubled_until((current * 2) as nat, required as nat),
        decreases (if new_size < required { required - new_size } else { 0 }),
    {
        new_size = new_size * 2;
    }
    // past the hardware limit: cap, or fail when even that is too small
    if new_size > limit {
        if required > limit {
            return Err(GeometryExceedsLimit { required_end_byte: required, limit });
        }
        return Ok(Some(limit));
    }
    Ok(Some(new_size))
}

/// The mathematical state of a [`ChunkStorageManager`].
pub struct ChunkStorageModel {
    /// The live byte ranges `(offset, size)` of the face buffer.
    pub geometry: Map<GeometryAllocation, (u32, u32)>,
    /// The size of the geometry heap's address space.
    pub geometry_capacity: u32,
    /// The metadata slots.
    pub slots: SlotAllocatorModel,
    /// The physical size of the face buffer in bytes.
    pub face_buffer_size: u64,
    /// The meshes handed out and not yet freed.
    pub live_meshes: Set<VoxelMesh>,
}

impl ChunkStorageModel {
    /// The state invariant: every live range lies inside the physical face
    /// buffer, no two live ranges overlap, and every live mesh owns its own
    /// live range and its own slot in use.
    pub open spec fn well_formed(self) -> bool {
        &&& self.geometry_capacity == VIRTUAL_ADDRESS_SPACE
        &&& self.slots.capacity == MAX_CHUNKS
        &&& self.slots.well_formed()
        &&& self.face_buffer_size >= INITIAL_PHYSICAL_SIZE
        &&& forall|a: GeometryAllocation| #[trigger] self.geometry.contains_key(a)
            ==> range_within(self.geometry[a], self.face_buffer_size as int)
        &&& forall|a: GeometryAllocation, b: GeometryAllocation|
            #[trigger] self.geometry.contains_key(a) && #[trigger] self.geometry.contains_key(b) && a != b
            ==> ranges_disjoint(self.geometry[a], self.geometry[b])
        &&& forall|m: VoxelMesh| #[trigger] self.live_meshes.contains(m)
            ==> self.geometry.contains_key(m.geometry_allocation) && self.slots.in_use().contains(m.slot_index)
        &&& forall|m1: VoxelMesh, m2: VoxelMesh|
            #[trigger] self.live_meshes.contains(m1) && #[trigger] self.live_meshes.contains(m2) && m1 != m2
            ==> m1.geometry_allocation != m2.geometry_allocation && m1.slot_index != m2.slot_index
    }

    /// The state once `mesh` was granted the face range `range` and the next
    /// slot, with the face buffer grown to `face_buffer_size`.
    pub open spec fn after_upload(self, mesh: VoxelMesh, range: (u32, u32), face_buffer_size: u64) -> ChunkStorageModel {
        ChunkStorageModel {
            geometry: self.geometry.insert(mesh.geometry_allocation, range),
            slots: self.slots.after_allocate().0,
            face_buffer_size,
            live_meshes: self.live_meshes.insert(mesh),
            ..self
        }
    }

    /// The state once `mesh` was freed.
    pub open spec fn after_free(self, mesh: VoxelMesh) -> ChunkStorageModel {
        ChunkStorageModel {
            geometry: self.geometry.remove(mesh.geometry_allocation),
            slots: self.slots.after_free(mesh.slot_index),
            live_meshes: self.live_meshes.remove(mesh),
            ..self
        }
    }
}

/// What a request for the storage of `face_count` faces of `face_size` bytes
/// each, on a device whose largest storage buffer is `max_buffer_size` bytes,
/// may answer (`r`) and leave behind (`after`) from the state `before`.
///
/// An empty chunk gets nothing. Otherwise the faces get a fresh byte range of
/// the face buffer if the heap has room; the face buffer grows to hold it (or
/// the request fails, leaving the state unchanged); and the chunk gets the next
/// metadata slot, or, when none is left, the byte range is given back.
pub open spec fn allocation_outcome(
    before: ChunkStorageModel,
    face_count: usize,
    face_size: usize,
    max_buffer_size: u64,
    r: Result<ChunkAllocation, GeometryExceedsLimit>,
    after: ChunkStorageModel,
) -> bool {
    &&& r matches Err(e) ==> {
        &&& face_count > 0
        &&& e.limit == max_buffer_size
        &&& before.face_buffer_size < e.required_end_byte
        &&& e.required_end_byte > max_buffer_size
        &&& e.required_end_byte <= VIRTUAL_ADDRESS_SPACE
        &&& after == before
    }
    &&& r matches Ok(c) ==> {
        &&& face_count == 0 ==> c.geometry is None
        &&& c.geometry is None ==> {
            &&& c.resize_face_buffer_to is None
            &&& c.upload is None
            &&& after == before
        }
        &&& c.geometry matches Some((offset, size)) ==> {
            let required = (offset + size) as u64;
            let new_size = match c.resize_face_buffer_to {
                Some(n) => n,
                None => before.face_buffer_size,
            };
            &&& face_count > 0
            &&& size == geometry_bytes(face_count, face_size)
            &&& range_within((offset, size), VIRTUAL_ADDRESS_SPACE as int)
            &&& forall|b: GeometryAllocation| #[trigger] before.geometry.contains_key(b)
                ==> ranges_disjoint(before.geometry[b], (offset, size))
            &&& face_buffer_growth(before.face_buffer_size, required, max_buffer_size)
                == Ok::<Option<u64>, GeometryExceedsLimit>(c.resize_face_buffer_to)
            &&& match c.upload {
                None => {
                    &&& before.slots.after_allocate().1 is None
                    &&& after == (ChunkStorageModel { face_buffer_size: new_size, ..before })
                },
                Some(u) => {
                    &&& before.slots.after_allocate().1 == Some(u.mesh.slot_index)
                    &&& !before.geometry.contains_key(u.mesh.geometry_allocation)
                    &&& u.mesh.face_count == wrapped_u32(face_count)
                    &&& u.start_index == offset / 4
                    &&& u.meta_offset == u.mesh.slot_index * CHUNK_RENDER_DATA_SIZE
                    &&& after == before.after_upload(u.mesh, (offset, size), new_size)
                },
            }
        }
    }
}

/// Growing the face buffer keeps the storage well formed.
proof fn lemma_grow_keeps_well_formed(s: ChunkStorageModel, n: u64)
    requires
        s.well_formed(),
        n >= s.face_buffer_size,
    ensures
        (ChunkStorageModel { face_buffer_size: n, ..s }).well_formed(),
{
    let t = ChunkStorageModel { face_buffer_size: n, ..s };
    assert forall|a: GeometryAllocation| #[trigger] t.geometry.contains_key(a)
        implies range_within(t.geometry[a], t.face_buffer_size as int) by {
        assert(s.geometry.contains_key(a));
    }
}

/// Uploading a mesh with a fresh range inside the (grown) face buffer, apart
/// from every live range, and the next slot keeps the storage well formed.
proof fn lemma_upload_keeps_well_formed(s: ChunkStorageModel, mesh: VoxelMesh, range: (u32, u32), n: u64)
    requires
        s.well_formed(),
        n >= s.face_buffer_size,
        !s.geometry.contains_key(mesh.geometry_allocation),
        s.slots.after_allocate().1 == Some(mesh.slot_index),
        range_within(range, n as int),
        forall|b: GeometryAllocation| #[trigger] s.geometry.contains_key(b)
            ==> ranges_disjoint(s.geometry[b], range),
    ensures
        s.after_upload(mesh, range, n).well_formed(),
{
    lemma_allocate_hands_out_unused_slot(s.slots);
    let t = s.after_upload(mesh, range, n);
    let g = mesh.geometry_allocation;
    assert forall|m: VoxelMesh| #[trigger] t.live_meshes.contains(m) implies
        t.geometry.contains_key(m.geometry_allocation) && t.slots.in_use().contains(m.slot_index) by {
        if m != mesh {
            assert(s.live_meshes.contains(m));
        }
    }
    assert forall|m1: VoxelMesh, m2: VoxelMesh|
        #[trigger] t.live_meshes.contains(m1) && #[trigger] t.live_meshes.contains(m2) && m1 != m2
        implies m1.geometry_allocation != m2.geometry_allocation && m1.slot_index != m2.slot_index by {
        if m1 != mesh {
            assert(s.live_meshes.contains(m1));
        }
        if m2 != mesh {
            assert(s.live_meshes.contains(m2));
        }
    }
    assert forall|a: GeometryAllocation, b: GeometryAllocation|
        #[trigger] t.geometry.contains_key(a) && #[trigger] t.geometry.contains_key(b) && a != b
        implies ranges_disjoint(t.geometry[a], t.geometry[b]) by {
        if a != g && b != g {
            assert(s.geometry.contains_key(a) && s.geometry.contains_key(b));
        } else if a == g {
            assert(s.geometry.contains_key(b));
        } else {
            assert(s.geometry.contains_key(a));
        }
    }
    assert forall|a: GeometryAllocation| #[trigger] t.geometry.contains_key(a)
        implies range_within(t.geometry[a], t.face_buffer_size as int) by {
        if a != g {
            assert(s.geometry.contains_key(a));
        }
    }
}

/// Freeing a live mesh keeps the storage well formed.
proof fn lemma_free_keeps_well_formed(s: ChunkStorageModel, mesh: VoxelMesh)
    requires
        s.well_formed(),
        s.live_meshes.contains(mesh),
    ensures
        s.after_free(mesh).well_formed(),
{
    lemma_free_returns_slot(s.slots, mesh.slot_index);
    let t = s.after_free(mesh);
    assert forall|m: VoxelMesh| #[trigger] t.live_meshes.contains(m) implies
        t.geometry.contains_key(m.geometry_allocation) && t.slots.in_use().contains(m.slot_index) by {
        assert(s.live_meshes.contains(m));
    }
    assert forall|m1: VoxelMesh, m2: VoxelMesh|
        #[trigger] t.live_meshes.contains(m1) && #[trigger] t.live_meshes.contains(m2) && m1 != m2
        implies m1.geometry_allocation != m2.geometry_allocation && m1.slot_index != m2.slot_index by {
        assert(s.live_meshes.contains(m1) && s.live_meshes.contains(m2));
    }
    assert forall|a: GeometryAllocation, b: GeometryAllocation|
        #[trigger] t.geometry.contains_key(a) && #[trigger] t.geometry.contains_key(b) && a != b
        implies ranges_disjoint(t.geometry[a], t.geometry[b]) by {
        assert(s.geometry.contains_key(a) && s.geometry.contains_key(b));
    }
    assert forall|a: GeometryAllocation| #[trigger] t.geometry.contains_key(a)
        implies range_within(t.geometry[a], t.face_buffer_size as int) by {
        assert(s.geometry.contains_key(a));
    }
}

/// The CPU side of the chunk storage: a geometry heap over the face buffer, a
/// slot allocator over the metadata buffer, and the face buffer's size.
pub struct ChunkStorageManager {
    geometry_allocator: GeometryHeap,
    slot_allocator: SlotAllocator,
    face_buffer_size: u64,
    live_meshes: Ghost<Set<VoxelMesh>>,
}

impl View for ChunkStorageManager {
    type V = ChunkStorageModel;

    closed spec fn view(&self) -> ChunkStorageModel {
        ChunkStorageModel {
            geometry: heap_allocations(self.geometry_allocator),
            geometry_capacity: heap_capacity(self.geometry_allocator),
            slots: self.slot_allocator@,
            face_buffer_size: self.face_buffer_size,
            live_meshes: self.live_meshes@,
        }
    }
}

impl ChunkStorageManager {
    /// Creates the storage for an empty world: nothing allocated, a face buffer
    /// of [`INITIAL_PHYSICAL_SIZE`] bytes and [`MAX_CHUNKS`] free slots, handed
    /// out from slot 0 upwards.
    pub fn new() -> (r: Self)
        ensures
            r@.well_formed(),
            r@.geometry.dom() == Set::<GeometryAllocation>::empty(),
            r@.slots.free_indices == Seq::<u32>::empty(),
            r@.slots.next_index == 0,
            r@.slots.in_use() == Set::<u32>::empty(),
            r@.face_buffer_size == INITIAL_PHYSICAL_SIZE,
            r@.live_meshes == Set::<VoxelMesh>::empty(),
    {
        let r = ChunkStorageManager {
            geometry_allocator: new_heap(VIRTUAL_ADDRESS_SPACE),
            slot_allocator: SlotAllocator::new(10_000),
            face_buffer_size: INITIAL_PHYSICAL_SIZE,
            live_meshes: Ghost(Set::empty()),
        };
        assert(r@.slots.in_use() =~= Set::<u32>::empty());
        r
    }

    /// Whether the geometry heap, as it stands, grants a byte range of `size`.
    pub closed spec fn geometry_fits(&self, size: u32) -> bool {
        heap_grants(self.geometry_allocator, size)
    }

    /// The current size of the face buffer in bytes.
    pub fn face_buffer_size(&self) -> (r: u64)
        ensures
            r == self@.face_buffer_size,
    {
        self.face_buffer_size
    }

    /// Grows the recorded face buffer size so that `required_end_byte` bytes
    /// fit, doubling it until they do and capping it at `limit`, and returns
    /// the new size when it changed. The bytes must fit within the limit
    /// unless they already fit the buffer.
    fn ensure_capacity(&mut self, required_end_byte: u64, limit: u64) -> (r: Option<u64>)
        requires
            old(self)@.face_buffer_size > 0,
            required_end_byte <= 0x8000_0000_0000_0000,
            required_end_byte <= old(self)@.face_buffer_size || required_end_byte <= limit,
        ensures
            face_buffer_growth(old(self)@.face_buffer_size, required_end_byte, limit) == Ok::<
                Option<u64>,
                GeometryExceedsLimit,
            >(r),
            final(self)@ == (ChunkStorageModel {
                face_buffer_size: match r {
                    Some(n) => n,
                    None => old(self)@.face_buffer_size,
                },
                ..old(self)@
            }),
    {
        match plan_face_buffer_growth(self.face_buffer_size, required_end_byte, limit) {
            Ok(Some(n)) => {
                self.face_buffer_size = n;
                Some(n)
            },
            Ok(None) => None,
            Err(_) => {
                proof {
                    lemma_face_buffer_grows_to_fit(self.face_buffer_size, required_end_byte, limit);
                }
                None
            },
        }
    }

    /// Asks for the storage of a chunk of `face_count` faces of `face_size`
    /// bytes each, on a device whose largest storage buffer is
    /// `max_buffer_size` bytes.
    ///
    /// An empty chunk gets nothing. Otherwise the faces get a byte range of the
    /// face buffer (if the heap has room), the face buffer grows to hold that
    /// range (or the call fails with [`GeometryExceedsLimit`], leaving the state
    /// unchanged), and the chunk gets the next metadata slot; when no slot is
    /// left, the byte range is given back. A non-empty chunk gets a byte range
    /// exactly when the heap grants one of its size.
    pub fn allocate_chunk(&mut self, face_count: usize, face_size: usize, max_buffer_size: u64) -> (r: Result<
        ChunkAllocation,
        GeometryExceedsLimit,
    >)
        requires
            old(self)@.well_formed(),
            face_count * face_size <= isize::MAX,
        ensures
            final(self)@.well_formed(),
            allocation_outcome(old(self)@, face_count, face_size, max_buffer_size, r, final(self)@),
            face_count > 0 ==> (old(self).geometry_fits(geometry_bytes(face_count, face_size)) <==> !(r matches Ok(
                c,
            ) && c.geometry is None)),
    {
        if face_count == 0 {
            return Ok(ChunkAllocation { geometry: None, resize_face_buffer_to: None, upload: None });
        }
        let ghost s0 = self@;

        // allocate faces (variable in size)
        let total = face_count as u64 * face_size as u64;
        let size_bytes = (total % 0x1_0000_0000u64) as u32;
        assert(size_bytes == geometry_bytes(face_count, face_size));

        let (geometry_allocation, offset) = match heap_allocate(&mut self.geometry_allocator, size_bytes) {
            Some(pair) => pair,
            None => {
                return Ok(ChunkAllocation { geometry: None, resize_face_buffer_to: None, upload: None });
            },
        };

        // make sure the physical buffer holds the new range
        let required_end = (offset + size_bytes) as u64;
        if required_end > self.face_buffer_size && required_end > max_buffer_size {
            // past the device's limit: give the range back and report it
            heap_free(&mut self.geometry_allocator, geometry_allocation);
            assert(self@.geometry =~= s0.geometry);
            proof {
                lemma_face_buffer_grows_to_fit(s0.face_buffer_size, required_end, max_buffer_size);
                lemma_doubled_until((s0.face_buffer_size * 2) as nat, required_end as nat);
            }
            return Err(GeometryExceedsLimit { required_end_byte: required_end, limit: max_buffer_size });
        }
        let resize = self.ensure_capacity(required_end, max_buffer_size);
        proof {
            lemma_doubled_until((s0.face_buffer_size * 2) as nat, required_end as nat);
            lemma_face_buffer_grows_to_fit(s0.face_buffer_size, required_end, max_buffer_size);
        }

        // allocate slot (fixed size)
        let ghost slots0 = self.slot_allocator@;
        let slot_index = match self.slot_allocator.allocate() {
            Some(s) => s,
            None => {
                heap_free(&mut self.geometry_allocator, geometry_allocation);
                assert(self@.geometry =~= s0.geometry);
                assert(self.slot_allocator@ == slots0);
                proof {
                    assert(self@ == (ChunkStorageModel { face_buffer_size: self@.face_buffer_size, ..s0 }));
                    lemma_grow_keeps_well_formed(s0, self@.face_buffer_size);
                }
                return Ok(ChunkAllocation {
                    geometry: Some((offset, size_bytes)),
                    resize_face_buffer_to: resize,
                    upload: None,
                });
            },
        };
        proof {
            lemma_allocate_hands_out_unused_slot(slots0);
        }

        let mesh = VoxelMesh {
            geometry_allocation,
            slot_index,
            face_count: (face_count as u64 % 0x1_0000_0000u64) as u32,
        };
        proof {
            self.live_meshes@ = self.live_meshes@.insert(mesh);
            assert(self@ == s0.after_upload(mesh, (offset, size_bytes), self@.face_buffer_size));
            lemma_upload_keeps_well_formed(s0, mesh, (offset, size_bytes), self@.face_buffer_size);
        }

        // the chunk's record in the metadata buffer points at its faces
        let start_index = offset / 4;
        let meta_offset = slot_index as u64 * CHUNK_RENDER_DATA_SIZE;

        Ok(ChunkAllocation {
            geometry: Some((offset, size_bytes)),
            resize_face_buffer_to: resize,
            upload: Some(ChunkUpload { mesh, start_index, meta_offset }),
        })
    }

    /// Frees all resources associated with a live chunk handle.
    pub fn free_chunk(&mut self, mesh: VoxelMesh)
        requires
            old(self)@.well_formed(),
            old(self)@.live_meshes.contains(mesh),
        ensures
            final(self)@.well_formed(),
            final(self)@ == old(self)@.after_free(mesh),
    {
        let ghost s0 = self@;
        proof {
            lemma_free_returns_slot(s0.slots, mesh.slot_index);
        }
        heap_free(&mut self.geometry_allocator, mesh.geometry_allocation);
        self.slot_allocator.free(mesh.slot_index);
        proof {
            self.live_meshes@ = self.live_meshes@.remove(mesh);
            lemma_free_keeps_well_formed(s0, mesh);
        }
    }
}

/// Any two different live chunk meshes own different metadata records and
/// non-overlapping face ranges, and both lie inside their buffers: no chunk
/// upload overwrites another chunk's data.
pub proof fn lemma_live_meshes_do_not_overlap(s: ChunkStorageModel, m1: VoxelMesh, m2: VoxelMesh)
    requires
        s.well_formed(),
        s.live_meshes.contains(m1),
        s.live_meshes.contains(m2),
        m1 != m2,
    ensures
        m1.slot_index != m2.slot_index,
        (m1.slot_index + 1) * CHUNK_RENDER_DATA_SIZE <= MAX_CHUNKS * CHUNK_RENDER_DATA_SIZE,
        ranges_disjoint(s.geometry[m1.geometry_allocation], s.geometry[m2.geometry_allocation]),
        range_within(s.geometry[m1.geometry_allocation], s.face_buffer_size as int),
{
    assert(s.geometry.contains_key(m1.geometry_allocation));
    assert(s.geometry.contains_key(m2.geometry_allocation));
    assert(s.slots.in_use().contains(m1.slot_index));
}

/// Freeing a chunk right after its upload gives back exactly what the upload
/// took: the same live face ranges, slots in use and live meshes.
pub proof fn lemma_free_undoes_upload(s: ChunkStorageModel, mesh: VoxelMesh, range: (u32, u32), face_buffer_size: u64)
    requires
        s.well_formed(),
        !s.geometry.contains_key(mesh.geometry_allocation),
        s.slots.after_allocate().1 == Some(mesh.slot_index),
    ensures
        s.after_upload(mesh, range, face_buffer_size).after_free(mesh).geometry == s.geometry,
        s.after_upload(mesh, range, face_buffer_size).after_free(mesh).slots.in_use() == s.slots.in_use(),
        s.after_upload(mesh, range, face_buffer_size).after_free(mesh).live_meshes == s.live_meshes,
{
    let t = s.after_upload(mesh, range, face_buffer_size);
    lemma_allocate_hands_out_unused_slot(s.slots);
    lemma_free_returns_slot(t.slots, mesh.slot_index);
    assert(t.after_free(mesh).geometry =~= s.geometry);
    assert(t.after_free(mesh).slots.in_use() =~= s.slots.in_use());
    assert(!s.live_meshes.contains(mesh));
    assert(t.after_free(mesh).live_meshes =~= s.live_meshes);
}

} // verus!
