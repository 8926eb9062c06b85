# vantablock_client

The verified core of the Vantablock voxel game client, written in Verus.

- `src/` is the library: chunk storage bookkeeping over the GPU face and
  metadata buffers (`slot_allocator`, `geometry_heap`, `chunk_storage`,
  `mesh_storage`), the texture pack pipeline (`rgba_image`, `texture_registry`,
  `texture_array`, `texture_loader`, `voxel_texture_processor`,
  `texture_tools`), the render pipeline choices (`pipelines`, `wireframe`),
  and the client's settings, states, toggles and menu text entry.
- `app/` is the application around it: file and image I/O, the settings file,
  Bevy resources and plugins, and the driver that performs the GPU writes the
  library plans.
- `tests/` exercises the library on concrete values.
