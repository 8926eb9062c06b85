use vantablock_client::chunk_storage::ChunkStorageManager;
use vantablock_client::mesh_storage::{DrawCall, RenderMeshStorageResource};

const ONE_GB: u64 = 1 << 30;

#[test]
fn uploaded_mesh_is_stored_and_drawn() {
    let mut storage = ChunkStorageManager::new();
    let mut meshes = RenderMeshStorageResource::new();
    assert_eq!(meshes.len(), 0);
    let r = meshes.upload_mesh(&mut storage, 7, 10, 8, ONE_GB).unwrap();
    let mesh = meshes.get(7).unwrap();
    assert_eq!(mesh.slot_index, r.upload.unwrap().mesh.slot_index);
    assert_eq!(mesh.face_count, 10);
    assert_eq!(meshes.len(), 1);
    let calls = meshes.draw_calls(&storage, &vec![7, 9]);
    assert_eq!(
        calls,
        vec![DrawCall { first_vertex: 0, end_vertex: 60, first_instance: 0, end_instance: 1 }]
    );
}

#[test]
fn draw_calls_follow_the_order_of_the_ids() {
    let mut storage = ChunkStorageManager::new();
    let mut meshes = RenderMeshStorageResource::new();
    meshes.upload_mesh(&mut storage, 1, 2, 8, ONE_GB).unwrap();
    meshes.upload_mesh(&mut storage, 2, 3, 8, ONE_GB).unwrap();
    let calls = meshes.draw_calls(&storage, &vec![2, 1]);
    assert_eq!(
        calls,
        vec![
            DrawCall { first_vertex: 0, end_vertex: 18, first_instance: 1, end_instance: 2 },
            DrawCall { first_vertex: 0, end_vertex: 12, first_instance: 0, end_instance: 1 },
        ]
    );
}

#[test]
fn reupload_frees_the_old_mesh_first() {
    let mut storage = ChunkStorageManager::new();
    let mut meshes = RenderMeshStorageResource::new();
    meshes.upload_mesh(&mut storage, 7, 10, 8, ONE_GB).unwrap();
    let r = meshes.upload_mesh(&mut storage, 7, 5, 8, ONE_GB).unwrap();
    // the old slot and range were released before the new request
    assert_eq!(r.geometry, Some((0, 40)));
    let mesh = meshes.get(7).unwrap();
    assert_eq!(mesh.slot_index, 0);
    assert_eq!(mesh.face_count, 5);
    assert_eq!(meshes.len(), 1);
}

#[test]
fn empty_upload_drops_the_entry() {
    let mut storage = ChunkStorageManager::new();
    let mut meshes = RenderMeshStorageResource::new();
    meshes.upload_mesh(&mut storage, 3, 10, 8, ONE_GB).unwrap();
    let r = meshes.upload_mesh(&mut storage, 3, 0, 8, ONE_GB).unwrap();
    assert!(r.upload.is_none());
    assert!(meshes.get(3).is_none());
}

#[test]
fn refused_upload_drops_the_entry() {
    let mut storage = ChunkStorageManager::new();
    let mut meshes = RenderMeshStorageResource::new();
    meshes.upload_mesh(&mut storage, 3, 10, 8, ONE_GB).unwrap();
    let r = meshes.upload_mesh(&mut storage, 3, 200_000, 8, 1_500_000);
    assert!(r.is_err());
    assert!(meshes.get(3).is_none());
    assert_eq!(meshes.len(), 0);
}

#[test]
fn removed_mesh_is_freed_and_not_drawn() {
    let mut storage = ChunkStorageManager::new();
    let mut meshes = RenderMeshStorageResource::new();
    meshes.upload_mesh(&mut storage, 4, 10, 8, ONE_GB).unwrap();
    assert!(meshes.remove_mesh(&mut storage, 4));
    assert!(!meshes.remove_mesh(&mut storage, 4));
    assert!(meshes.draw_calls(&storage, &vec![4]).is_empty());
    // its slot is free again
    let c = storage.allocate_chunk(1, 8, ONE_GB).unwrap();
    assert_eq!(c.upload.unwrap().mesh.slot_index, 0);
}

#[test]
fn stored_meshes_do_not_overlap_on_concrete_values() {
    let mut storage = ChunkStorageManager::new();
    let mut meshes = RenderMeshStorageResource::new();
    let a = meshes.upload_mesh(&mut storage, 1, 10, 8, ONE_GB).unwrap();
    let b = meshes.upload_mesh(&mut storage, 2, 10, 8, ONE_GB).unwrap();
    let (ao, asz) = a.geometry.unwrap();
    let (bo, bsz) = b.geometry.unwrap();
    assert!(ao + asz <= bo || bo + bsz <= ao);
    assert_ne!(meshes.get(1).unwrap().slot_index, meshes.get(2).unwrap().slot_index);
}

use vantablock_client::mesh_storage::MeshRequest;

#[test]
fn removals_drop_every_listed_mesh() {
    let mut storage = ChunkStorageManager::new();
    let mut meshes = RenderMeshStorageResource::new();
    for id in [1u64, 2, 3] {
        meshes.upload_mesh(&mut storage, id, 4, 8, ONE_GB).unwrap();
    }
    meshes.remove_meshes(&mut storage, &vec![3, 9, 1]);
    assert!(meshes.get(1).is_none());
    assert!(meshes.get(3).is_none());
    assert_eq!(meshes.get(2).unwrap().slot_index, 1);
    assert_eq!(meshes.len(), 1);
    // slots 0 and 2 came back, the last freed first
    let c = storage.allocate_chunk(1, 8, ONE_GB).unwrap();
    assert_eq!(c.upload.unwrap().mesh.slot_index, 0);
}

#[test]
fn uploads_are_answered_in_order() {
    let mut storage = ChunkStorageManager::new();
    let mut meshes = RenderMeshStorageResource::new();
    let requests = vec![
        MeshRequest { id: 5, face_count: 10, face_size: 8 },
        MeshRequest { id: 6, face_count: 0, face_size: 8 },
        MeshRequest { id: 5, face_count: 2, face_size: 8 },
        MeshRequest { id: 7, face_count: 200_000, face_size: 8 },
    ];
    let answers = meshes.upload_meshes(&mut storage, &requests, 1_500_000);
    assert_eq!(answers.len(), 4);
    assert_eq!(answers[0].as_ref().unwrap().geometry, Some((0, 80)));
    assert!(answers[1].as_ref().unwrap().geometry.is_none());
    // the second upload of 5 replaced the first
    assert_eq!(answers[2].as_ref().unwrap().geometry, Some((0, 16)));
    assert!(answers[3].is_err());
    assert_eq!(meshes.get(5).unwrap().face_count, 2);
    assert!(meshes.get(6).is_none());
    assert!(meshes.get(7).is_none());
    assert_eq!(meshes.len(), 1);
}
