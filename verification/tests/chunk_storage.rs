use vantablock_client::chunk_storage::{
    plan_face_buffer_growth, ChunkStorageManager, GeometryExceedsLimit, CHUNK_RENDER_DATA_SIZE,
    INITIAL_PHYSICAL_SIZE, MAX_CHUNKS,
};
use vantablock_client::slot_allocator::SlotAllocator;

const ONE_GB: u64 = 1 << 30;

#[test]
fn slot_allocator_hands_out_fresh_slots_in_order() {
    let mut slots = SlotAllocator::new(3);
    assert_eq!(slots.allocate(), Some(0));
    assert_eq!(slots.allocate(), Some(1));
    assert_eq!(slots.allocate(), Some(2));
    assert_eq!(slots.allocate(), None);
}

#[test]
fn slot_allocator_recycles_last_freed_first() {
    let mut slots = SlotAllocator::new(10);
    for _ in 0..6 {
        slots.allocate();
    }
    slots.free(3);
    slots.free(5);
    assert_eq!(slots.allocate(), Some(5));
    assert_eq!(slots.allocate(), Some(3));
    assert_eq!(slots.allocate(), Some(6));
}

#[test]
fn slot_allocator_with_no_capacity_is_full() {
    let mut slots = SlotAllocator::new(0);
    assert_eq!(slots.allocate(), None);
}

#[test]
fn face_buffer_growth_keeps_a_buffer_that_fits() {
    assert_eq!(plan_face_buffer_growth(1024, 1000, 4096), Ok(None));
    assert_eq!(plan_face_buffer_growth(1024, 1024, 4096), Ok(None));
}

#[test]
fn face_buffer_growth_doubles_until_it_fits() {
    assert_eq!(plan_face_buffer_growth(1024, 1025, 1 << 20), Ok(Some(2048)));
    assert_eq!(plan_face_buffer_growth(1024, 5000, 1 << 20), Ok(Some(8192)));
}

#[test]
fn face_buffer_growth_is_capped_at_the_limit() {
    assert_eq!(plan_face_buffer_growth(1024, 3000, 3500), Ok(Some(3500)));
}

#[test]
fn face_buffer_growth_fails_past_the_limit() {
    assert_eq!(
        plan_face_buffer_growth(1024, 5000, 4096),
        Err(GeometryExceedsLimit { required_end_byte: 5000, limit: 4096 })
    );
}

#[test]
fn new_storage_has_the_initial_face_buffer() {
    let storage = ChunkStorageManager::new();
    assert_eq!(storage.face_buffer_size(), INITIAL_PHYSICAL_SIZE);
    assert_eq!(INITIAL_PHYSICAL_SIZE, 1024 * 1024);
    assert_eq!(MAX_CHUNKS, 10_000);
}

#[test]
fn empty_chunk_gets_no_storage() {
    let mut storage = ChunkStorageManager::new();
    let c = storage.allocate_chunk(0, 8, ONE_GB).unwrap();
    assert!(c.geometry.is_none());
    assert!(c.resize_face_buffer_to.is_none());
    assert!(c.upload.is_none());
}

#[test]
fn first_chunk_gets_the_start_of_the_buffer_and_slot_zero() {
    let mut storage = ChunkStorageManager::new();
    let c = storage.allocate_chunk(10, 8, ONE_GB).unwrap();
    assert_eq!(c.geometry, Some((0, 80)));
    assert_eq!(c.resize_face_buffer_to, None);
    let u = c.upload.unwrap();
    assert_eq!(u.mesh.slot_index, 0);
    assert_eq!(u.mesh.face_count, 10);
    assert_eq!(u.start_index, 0);
    assert_eq!(u.meta_offset, 0);
}

#[test]
fn chunks_get_disjoint_ranges_and_distinct_slots() {
    let mut storage = ChunkStorageManager::new();
    let a = storage.allocate_chunk(10, 8, ONE_GB).unwrap();
    let b = storage.allocate_chunk(20, 8, ONE_GB).unwrap();
    let (ao, asz) = a.geometry.unwrap();
    let (bo, bsz) = b.geometry.unwrap();
    assert_eq!(asz, 80);
    assert_eq!(bsz, 160);
    assert!(ao + asz <= bo || bo + bsz <= ao);
    let ua = a.upload.unwrap();
    let ub = b.upload.unwrap();
    assert_ne!(ua.mesh.slot_index, ub.mesh.slot_index);
    assert_eq!(ub.meta_offset, ub.mesh.slot_index as u64 * CHUNK_RENDER_DATA_SIZE);
    assert_eq!(ub.start_index, bo / 4);
}

#[test]
fn face_buffer_grows_for_a_large_chunk() {
    let mut storage = ChunkStorageManager::new();
    let c = storage.allocate_chunk(200_000, 8, ONE_GB).unwrap();
    assert_eq!(c.geometry, Some((0, 1_600_000)));
    assert_eq!(c.resize_face_buffer_to, Some(2 * 1024 * 1024));
    assert!(c.upload.is_some());
    assert_eq!(storage.face_buffer_size(), 2 * 1024 * 1024);
}

#[test]
fn face_buffer_growth_stops_at_the_device_limit() {
    let mut storage = ChunkStorageManager::new();
    let c = storage.allocate_chunk(200_000, 8, 1_700_000).unwrap();
    assert_eq!(c.resize_face_buffer_to, Some(1_700_000));
    assert_eq!(storage.face_buffer_size(), 1_700_000);
}

#[test]
fn chunk_too_large_for_the_device_is_refused() {
    let mut storage = ChunkStorageManager::new();
    let r = storage.allocate_chunk(200_000, 8, 1_500_000);
    match r {
        Err(e) => {
            assert_eq!(e, GeometryExceedsLimit { required_end_byte: 1_600_000, limit: 1_500_000 });
        }
        Ok(_) => panic!("expected the device limit to refuse the chunk"),
    }
    assert_eq!(storage.face_buffer_size(), INITIAL_PHYSICAL_SIZE);
    // the refused range was given back: the next chunk starts at the beginning
    let c = storage.allocate_chunk(10, 8, ONE_GB).unwrap();
    assert_eq!(c.geometry, Some((0, 80)));
    assert_eq!(c.upload.unwrap().mesh.slot_index, 0);
}

#[test]
fn freed_chunk_slot_is_reused() {
    let mut storage = ChunkStorageManager::new();
    let a = storage.allocate_chunk(10, 8, ONE_GB).unwrap().upload.unwrap();
    let _b = storage.allocate_chunk(10, 8, ONE_GB).unwrap().upload.unwrap();
    storage.free_chunk(a.mesh);
    let c = storage.allocate_chunk(4, 8, ONE_GB).unwrap().upload.unwrap();
    assert_eq!(c.mesh.slot_index, a.mesh.slot_index);
}

#[test]
fn free_undoes_upload_on_concrete_values() {
    let mut storage = ChunkStorageManager::new();
    let a = storage.allocate_chunk(10, 8, ONE_GB).unwrap().upload.unwrap();
    storage.free_chunk(a.mesh);
    let again = storage.allocate_chunk(10, 8, ONE_GB).unwrap();
    assert_eq!(again.geometry, Some((0, 80)));
    assert_eq!(again.upload.unwrap().mesh.slot_index, 0);
}

#[test]
fn out_of_slots_gives_the_range_back() {
    let mut storage = ChunkStorageManager::new();
    for i in 0..MAX_CHUNKS {
        let c = storage.allocate_chunk(1, 4, ONE_GB).unwrap();
        assert_eq!(c.upload.unwrap().mesh.slot_index as u64, i);
    }
    let c = storage.allocate_chunk(1, 4, ONE_GB).unwrap();
    assert!(c.geometry.is_some());
    assert!(c.upload.is_none());
}

#[test]
fn new_storage_hands_out_slots_from_zero_upwards() {
    let mut storage = ChunkStorageManager::new();
    for expected in 0..3u32 {
        let c = storage.allocate_chunk(1, 8, ONE_GB).unwrap();
        assert_eq!(c.upload.unwrap().mesh.slot_index, expected);
    }
}
