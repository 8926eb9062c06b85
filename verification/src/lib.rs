//! The verified core of the Vantablock voxel client: chunk storage bookkeeping,
//! the texture pack pipeline, the render pipeline choices, and the client's
//! settings, states, toggles and menus.

pub mod slot_allocator;
pub mod geometry_heap;
pub mod chunk_storage;
pub mod mesh_storage;
pub mod rgba_image;
pub mod text;
pub mod texture_error;
pub mod texture_registry;
pub mod texture_array;
pub mod voxel_texture_processor;
pub mod texture_loader;
pub mod texture_tools;
pub mod pipelines;
pub mod wireframe;
pub mod input;
pub mod state;
pub mod settings;
pub mod main_menu;
pub mod menu_buttons;
pub mod plugins;
