//! What the debug wireframe pass draws each frame, and how its object buffer
//! grows.

use vstd::prelude::*;

verus! {

/// The number of wireframe boxes to draw: one per chunk while chunk borders
/// are shown, plus one around the targeted block; `None` when there is
/// nothing to draw at all.
pub open spec fn wireframe_object_count(chunk_borders: bool, chunk_count: nat, has_target: bool) -> Option<nat> {
    if !chunk_borders && !has_target {
        None
    } else {
        Some(
            (if chunk_borders {
                chunk_count
            } else {
                0
            }) + (if has_target {
                1nat
            } else {
                0nat
            }),
        )
    }
}

/// Decides how many wireframe boxes are queued this frame (the chunk boxes
/// first, then the targeted block's), or `None` when the pass has nothing to
/// draw and leaves its buffer untouched.
pub fn plan_wireframe_objects(chunk_borders: bool, chunk_count: usize, has_target: bool) -> (r: Option<usize>)
    requires
        chunk_count < usize::MAX,
    ensures
        r == (match wireframe_object_count(chunk_borders, chunk_count as nat, has_target) {
            Some(n) => Some(n as usize),
            None => None::<usize>,
        }),
{
    if !chunk_borders && !has_target {
        return None;
    }
    let mut count: usize = 0;
    if chunk_borders {
        count = chunk_count;
    }
    if has_target {
        count = count + 1;
    }
    Some(count)
}

/// Half again the needed size, rounded up: the size a too small wireframe
/// object buffer is replaced with.
pub open spec fn grown_wireframe_buffer_size(needed: nat) -> nat {
    needed + (needed + 1) / 2
}

/// The new size of the wireframe object buffer of `current_size` bytes once
/// `object_count` objects of `object_size` bytes are queued: `None` when they
/// fit, else half again the size they need, rounded up.
pub fn plan_wireframe_buffer_size(object_count: usize, object_size: usize, current_size: u64) -> (r: Option<u64>)
    requires
        object_count * object_size < 0x4_0000_0000_0000,
    ensures
        r == (if object_count * object_size <= current_size {
            None::<u64>
        } else {
            Some(grown_wireframe_buffer_size((object_count * object_size) as nat) as u64)
        }),
{
    let needed = object_count as u64 * object_size as u64;
    if current_size >= needed {
        None
    } else {
        Some(needed + (needed + 1) / 2)
    }
}

} // verus!
