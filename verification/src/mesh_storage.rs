//! The render world's table of uploaded chunk meshes, kept in step with the
//! chunk storage that holds their faces and metadata records.

use crate::chunk_storage::{
    allocation_outcome, lemma_live_meshes_do_not_overlap, ChunkAllocation, ChunkStorageManager,
    ChunkStorageModel, GeometryExceedsLimit, VoxelMesh, CHUNK_RENDER_DATA_SIZE, MAX_CHUNKS,
};
use crate::geometry_heap::{range_within, ranges_disjoint};
use vstd::hash_map::HashMapWithView;
use vstd::prelude::*;

verus! {

/// The uploaded meshes, by mesh id.
pub struct RenderMeshStorageResource {
    meshes: HashMapWithView<u64, VoxelMesh>,
}

impl View for RenderMeshStorageResource {
    type V = Map<u64, VoxelMesh>;

    closed spec fn view(&self) -> Map<u64, VoxelMesh> {
        self.meshes@
    }
}

/// The table and the chunk storage agree: the storage is well formed, every
/// stored mesh is live in it, and no two ids share a mesh.
pub open spec fn meshes_tracked(table: Map<u64, VoxelMesh>, storage: ChunkStorageModel) -> bool {
    &&& storage.well_formed()
    &&& forall|id: u64| #[trigger] table.contains_key(id) ==> storage.live_meshes.contains(table[id])
    &&& forall|a: u64, b: u64|
        #[trigger] table.contains_key(a) && #[trigger] table.contains_key(b) && a != b ==> table[a] != table[b]
}

/// The chunk storage once the mesh stored under `id` (if any) was freed.
pub open spec fn storage_after_release(
    table: Map<u64, VoxelMesh>,
    storage: ChunkStorageModel,
    id: u64,
) -> ChunkStorageModel {
    if table.contains_key(id) {
        storage.after_free(table[id])
    } else {
        storage
    }
}

/// The table and the storage once the meshes of `ids` were dropped and
/// freed, one after the other.
pub open spec fn after_removals(
    table: Map<u64, VoxelMesh>,
    storage: ChunkStorageModel,
    ids: Seq<u64>,
) -> (Map<u64, VoxelMesh>, ChunkStorageModel)
    decreases ids.len(),
{
    if ids.len() == 0 {
        (table, storage)
    } else {
        let (t, s) = after_removals(table, storage, ids.drop_last());
        (t.remove(ids.last()), storage_after_release(t, s, ids.last()))
    }
}

/// A request to upload the mesh of `id`: `face_count` faces of `face_size`
/// bytes each.
#[derive(Clone, Copy, Debug, PartialEq, Eq, Structural)]
pub struct MeshRequest {
    pub id: u64,
    pub face_count: usize,
    pub face_size: usize,
}

/// One upload, from the table `t` and storage `s` to `t2` and `s2`, answering
/// `r`: the old mesh of the id is freed, then storage is requested.
pub open spec fn upload_step(
    t: Map<u64, VoxelMesh>,
    s: ChunkStorageModel,
    req: MeshRequest,
    max_buffer_size: u64,
    r: Result<ChunkAllocation, GeometryExceedsLimit>,
    t2: Map<u64, VoxelMesh>,
    s2: ChunkStorageModel,
) -> bool {
    &&& allocation_outcome(
        storage_after_release(t, s, req.id),
        req.face_count,
        req.face_size,
        max_buffer_size,
        r,
        s2,
    )
    &&& t2 == table_after_upload(t, req.id, r)
}

/// The uploads `reqs`, done one after the other from `t0` and `s0`, answer
/// `rs` (one answer each) and end in `tn` and `sn`.
pub open spec fn upload_chain(
    t0: Map<u64, VoxelMesh>,
    s0: ChunkStorageModel,
    reqs: Seq<MeshRequest>,
    max_buffer_size: u64,
    rs: Seq<Result<ChunkAllocation, GeometryExceedsLimit>>,
    tn: Map<u64, VoxelMesh>,
    sn: ChunkStorageModel,
) -> bool
    decreases reqs.len(),
{
    if reqs.len() == 0 {
        rs.len() == 0 && tn == t0 && sn == s0
    } else {
        &&& rs.len() == reqs.len()
        &&& exists|tm: Map<u64, VoxelMesh>, sm: ChunkStorageModel|
            upload_chain(t0, s0, reqs.drop_last(), max_buffer_size, rs.drop_last(), tm, sm)
                && #[trigger] upload_step(tm, sm, reqs.last(), max_buffer_size, rs.last(), tn, sn)
    }
}

/// The table once a request to upload `id` answered `r`: the new mesh when
/// storage was granted, and no entry otherwise.
pub open spec fn table_after_upload(
    table: Map<u64, VoxelMesh>,
    id: u64,
    r: Result<ChunkAllocation, GeometryExceedsLimit>,
) -> Map<u64, VoxelMesh> {
    match r {
        Ok(c) => match c.upload {
            Some(u) => table.insert(id, u.mesh),
            None => table.remove(id),
        },
        Err(_) => table.remove(id),
    }
}

/// One instanced draw: the vertex range `first_vertex..end_vertex` of the
/// instance range `first_instance..end_instance`.
#[derive(Clone, Copy, Debug, PartialEq, Eq)]
pub struct DrawCall {
    pub first_vertex: u32,
    pub end_vertex: u32,
    pub first_instance: u32,
    pub end_instance: u32,
}

/// The draw call of a mesh: six vertices per face, and the mesh's metadata
/// slot as the one instance.
pub open spec fn mesh_draw_call(mesh: VoxelMesh) -> DrawCall {
    DrawCall {
        first_vertex: 0,
        end_vertex: (mesh.face_count * 6) as u32,
        first_instance: mesh.slot_index,
        end_instance: (mesh.slot_index + 1) as u32,
    }
}

/// The draw calls for the meshes of `ids` that are in the table, in order.
pub open spec fn draw_calls_for(table: Map<u64, VoxelMesh>, ids: Seq<u64>) -> Seq<DrawCall>
    decreases ids.len(),
{
    if ids.len() == 0 {
        Seq::empty()
    } else {
        let rest = draw_calls_for(table, ids.drop_last());
        if table.contains_key(ids.last()) {
            rest.push(mesh_draw_call(table[ids.last()]))
        } else {
            rest
        }
    }
}

/// Every stored mesh of `ids` has few enough faces for its vertex count to
/// fit in 32 bits.
pub open spec fn draw_counts_fit(table: Map<u64, VoxelMesh>, ids: Seq<u64>) -> bool {
    forall|i: int|
        0 <= i < ids.len() && #[trigger] table.contains_key(ids[i]) ==> table[ids[i]].face_count * 6
            <= u32::MAX
}

/// Freeing the mesh of `id` keeps the table and the storage in step.
proof fn lemma_release_keeps_tracking(table: Map<u64, VoxelMesh>, storage: ChunkStorageModel, id: u64)
    requires
        meshes_tracked(table, storage),
        storage_after_release(table, storage, id).well_formed(),
    ensures
        meshes_tracked(table.remove(id), storage_after_release(table, storage, id)),
{
    let t = table.remove(id);
    let s = storage_after_release(table, storage, id);
    assert forall|k: u64| #[trigger] t.contains_key(k) implies s.live_meshes.contains(t[k]) by {
        assert(table.contains_key(k));
        if table.contains_key(id) {
            assert(table[k] != table[id]);
        }
    }
    assert forall|a: u64, b: u64|
        #[trigger] t.contains_key(a) && #[trigger] t.contains_key(b) && a != b implies t[a] != t[b] by {
        assert(table.contains_key(a) && table.contains_key(b));
    }
}

impl RenderMeshStorageResource {
    /// An empty table.
    pub fn new() -> (r: Self)
        ensures
            r@.dom() == Set::<u64>::empty(),
    {
        let r = RenderMeshStorageResource { meshes: HashMapWithView::new() };
        assert(r@.dom() =~= Set::<u64>::empty());
        r
    }

    /// The mesh stored under `id`.
    pub fn get(&self, id: u64) -> (r: Option<VoxelMesh>)
        ensures
            r == (if self@.contains_key(id) {
                Some(self@[id])
            } else {
                None
            }),
    {
        match self.meshes.get(&id) {
            Some(m) => Some(*m),
            None => None,
        }
    }

    /// The number of stored meshes.
    pub fn len(&self) -> (r: usize)
        ensures
            r == self@.len(),
    {
        self.meshes.len()
    }

    /// Drops the mesh stored under `id`, if any, and frees its storage;
    /// returns whether there was one.
    pub fn remove_mesh(&mut self, storage: &mut ChunkStorageManager, id: u64) -> (freed: bool)
        requires
            meshes_tracked(old(self)@, old(storage)@),
        ensures
            freed == old(self)@.contains_key(id),
            final(self)@ == old(self)@.remove(id),
            final(storage)@ == storage_after_release(old(self)@, old(storage)@, id),
            meshes_tracked(final(self)@, final(storage)@),
    {
        let ghost t0 = self@;
        let ghost s0 = storage@;
        match self.meshes.remove(&id) {
            Some(mesh) => {
                storage.free_chunk(mesh);
                proof {
                    lemma_release_keeps_tracking(t0, s0, id);
                }
                true
            },
            None => {
                assert(self@ =~= t0.remove(id));
                false
            },
        }
    }

    /// Drops and frees the meshes of a frame's removals, in order; ids
    /// without a mesh are skipped.
    pub fn remove_meshes(&mut self, storage: &mut ChunkStorageManager, ids: &Vec<u64>)
        requires
            meshes_tracked(old(self)@, old(storage)@),
        ensures
            (final(self)@, final(storage)@) == after_removals(old(self)@, old(storage)@, ids@),
            meshes_tracked(final(self)@, final(storage)@),
            forall|i: int| 0 <= i < ids@.len() ==> !final(self)@.contains_key(#[trigger] ids@[i]),
    {
        let ghost t0 = self@;
        let ghost s0 = storage@;
        let mut i: usize = 0;
        while i < ids.len()
            invariant
                0 <= i <= ids.len(),
                (self@, storage@) == after_removals(t0, s0, ids@.take(i as int)),
                meshes_tracked(self@, storage@),
                forall|j: int| 0 <= j < i ==> !self@.contains_key(#[trigger] ids@[j]),
            decreases ids.len() - i,
        {
            proof {
                assert(ids@.take(i + 1).drop_last() =~= ids@.take(i as int));
            }
            self.remove_mesh(storage, ids[i]);
            i = i + 1;
        }
        assert(ids@.take(ids@.len() as int) =~= ids@);
    }

    /// Uploads the mesh of `id` with `face_count` faces of `face_size` bytes
    /// each: the mesh stored under `id` before is freed first, then storage is
    /// requested; the table keeps the new mesh when storage was granted, and
    /// no entry for `id` otherwise.
    pub fn upload_mesh(
        &mut self,
        storage: &mut ChunkStorageManager,
        id: u64,
        face_count: usize,
        face_size: usize,
        max_buffer_size: u64,
    ) -> (r: Result<ChunkAllocation, GeometryExceedsLimit>)
        requires
            meshes_tracked(old(self)@, old(storage)@),
            face_count * face_size <= isize::MAX,
        ensures
            allocation_outcome(
                storage_after_release(old(self)@, old(storage)@, id),
                face_count,
                face_size,
                max_buffer_size,
                r,
                final(storage)@,
            ),
            final(self)@ == table_after_upload(old(self)@, id, r),
            meshes_tracked(final(self)@, final(storage)@),
    {
        // if it already exists, free the old allocation first
        self.remove_mesh(storage, id);
        let ghost t1 = self@;
        let ghost s1 = storage@;
        let r = storage.allocate_chunk(face_count, face_size, max_buffer_size);
        match &r {
            Ok(c) => match &c.upload {
                Some(u) => {
                    self.meshes.insert(id, u.mesh);
                    proof {
                        let t = self@;
                        let s = storage@;
                        assert forall|k: u64| #[trigger] t.contains_key(k) implies s.live_meshes.contains(t[k]) by {
                            if k != id {
                                assert(t1.contains_key(k));
                                assert(s1.live_meshes.contains(t1[k]));
                            }
                        }
                        assert forall|a: u64, b: u64|
                            #[trigger] t.contains_key(a) && #[trigger] t.contains_key(b) && a != b implies t[a] != t[b] by {
                            if a == id {
                                assert(t1.contains_key(b));
                                assert(s1.live_meshes.contains(t1[b]));
                                assert(s1.geometry.contains_key(t1[b].geometry_allocation));
                            } else if b == id {
                                assert(t1.contains_key(a));
                                assert(s1.live_meshes.contains(t1[a]));
                                assert(s1.geometry.contains_key(t1[a].geometry_allocation));
                            } else {
                                assert(t1.contains_key(a) && t1.contains_key(b));
                            }
                        }
                    }
                },
                None => {
                    proof {
                        let t = self@;
                        let s = storage@;
                        assert(s.live_meshes == s1.live_meshes);
                        assert forall|k: u64| #[trigger] t.contains_key(k) implies s.live_meshes.contains(t[k]) by {
                            assert(t1.contains_key(k));
                        }
                    }
                },
            },
            Err(_) => {},
        }
        r
    }

    /// Uploads a frame's meshes, one after the other, and returns each
    /// upload's answer in order; the caller performs the writes that each
    /// answer calls for in that order.
    pub fn upload_meshes(
        &mut self,
        storage: &mut ChunkStorageManager,
        requests: &Vec<MeshRequest>,
        max_buffer_size: u64,
    ) -> (r: Vec<Result<ChunkAllocation, GeometryExceedsLimit>>)
        requires
            meshes_tracked(old(self)@, old(storage)@),
            forall|i: int| 0 <= i < requests@.len() ==> #[trigger] requests@[i].face_count
                * requests@[i].face_size <= isize::MAX,
        ensures
            upload_chain(old(self)@, old(storage)@, requests@, max_buffer_size, r@, final(self)@, final(storage)@),
            meshes_tracked(final(self)@, final(storage)@),
    {
        let ghost t0 = self@;
        let ghost s0 = storage@;
        let mut results: Vec<Result<ChunkAllocation, GeometryExceedsLimit>> = Vec::new();
        let mut i: usize = 0;
        while i < requests.len()
            invariant
                0 <= i <= requests.len(),
                forall|j: int| 0 <= j < requests@.len() ==> #[trigger] requests@[j].face_count
                    * requests@[j].face_size <= isize::MAX,
                meshes_tracked(self@, storage@),
                results@.len() == i,
                upload_chain(t0, s0, requests@.take(i as int), max_buffer_size, results@, self@, storage@),
            decreases requests.len() - i,
        {
            let req = requests[i];
            let ghost tm = self@;
            let ghost sm = storage@;
            let ghost rs0 = results@;
            let answer = self.upload_mesh(storage, req.id, req.face_count, req.face_size, max_buffer_size);
            results.push(answer);
            proof {
                let reqs = requests@.take(i + 1);
                assert(reqs.drop_last() =~= requests@.take(i as int));
                assert(results@.drop_last() =~= rs0);
                assert(reqs.last() == req);
                assert(upload_step(tm, sm, reqs.last(), max_buffer_size, results@.last(), self@, storage@));
                assert(upload_chain(t0, s0, reqs.drop_last(), max_buffer_size, results@.drop_last(), tm, sm));
                assert(upload_chain(t0, s0, reqs, max_buffer_size, results@, self@, storage@));
            }
            i = i + 1;
        }
        assert(requests@.take(requests@.len() as int) =~= requests@);
        results
    }

    /// The draw calls for the meshes of `ids` that are stored, in the order of
    /// `ids`; ids without a mesh are skipped. The vertex count of each mesh
    /// drawn (six per face) must fit in 32 bits.
    pub fn draw_calls(&self, storage: &ChunkStorageManager, ids: &Vec<u64>) -> (r: Vec<DrawCall>)
        requires
            meshes_tracked(self@, storage@),
            draw_counts_fit(self@, ids@),
        ensures
            r@ == draw_calls_for(self@, ids@),
    {
        let mut calls: Vec<DrawCall> = Vec::new();
        let mut i: usize = 0;
        while i < ids.len()
            invariant
                0 <= i <= ids.len(),
                meshes_tracked(self@, storage@),
                draw_counts_fit(self@, ids@),
                calls@ == draw_calls_for(self@, ids@.subrange(0, i as int)),
            decreases ids.len() - i,
        {
            let id = ids[i];
            proof {
                assert(ids@.subrange(0, i + 1).drop_last() =~= ids@.subrange(0, i as int));
            }
            match self.meshes.get(&id) {
                Some(mesh) => {
                    proof {
                        assert(self@.contains_key(id));
                        assert(storage@.live_meshes.contains(self@[id]));
                        lemma_mesh_slot_in_range(storage@, self@[id]);
                    }
                    let call = DrawCall {
                        first_vertex: 0,
                        end_vertex: mesh.face_count * 6,
                        first_instance: mesh.slot_index,
                        end_instance: mesh.slot_index + 1,
                    };
                    calls.push(call);
                },
                None => {},
            }
            i = i + 1;
        }
        assert(ids@.subrange(0, ids@.len() as int) =~= ids@);
        calls
    }
}

/// A live mesh's metadata slot lies below the number of slots.
proof fn lemma_mesh_slot_in_range(s: ChunkStorageModel, mesh: VoxelMesh)
    requires
        s.well_formed(),
        s.live_meshes.contains(mesh),
    ensures
        mesh.slot_index < MAX_CHUNKS,
{
    assert(s.slots.in_use().contains(mesh.slot_index));
}

/// The meshes stored under two different ids own different metadata records
/// and non-overlapping face ranges inside the face buffer: drawing or
/// replacing one never touches the other's data.
pub proof fn lemma_stored_meshes_do_not_overlap(
    table: Map<u64, VoxelMesh>,
    storage: ChunkStorageModel,
    a: u64,
    b: u64,
)
    requires
        meshes_tracked(table, storage),
        table.contains_key(a),
        table.contains_key(b),
        a != b,
    ensures
        table[a].slot_index != table[b].slot_index,
        ranges_disjoint(
            storage.geometry[table[a].geometry_allocation],
            storage.geometry[table[b].geometry_allocation],
        ),
        range_within(storage.geometry[table[a].geometry_allocation], storage.face_buffer_size as int),
        (table[a].slot_index + 1) * CHUNK_RENDER_DATA_SIZE <= MAX_CHUNKS * CHUNK_RENDER_DATA_SIZE,
{
    lemma_live_meshes_do_not_overlap(storage, table[a], table[b]);
}

} // verus!
