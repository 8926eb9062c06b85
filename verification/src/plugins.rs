//! The client's plugins. What each one registers with the app lives with the
//! application around this library; here are the plugins themselves and the
//! render graph node that each render pass plugin contributes.

use crate::pipelines::VantablockNode;
use vstd::prelude::*;

verus! {

/// Sets up the resources shared by the camera-centric render passes and adds
/// the transparent, opaque and wireframe pass plugins.
pub struct PlayerCentricRenderPassPlugin;

/// Queues and draws opaque chunk geometry and the sky.
pub struct OpaqueRenderPassPlugin;

/// Prepares the standalone sky pipeline.
pub struct SkyboxRenderPassPlugin;

/// Uploads chunk meshes, then queues and draws transparent geometry.
pub struct TransparentRenderPassPlugin;

/// Renders the sun's shadow map.
pub struct ShadowRenderPassPlugin;

/// Loads and stitches the block textures while the app starts up.
pub struct BlockTexturePlugin;

/// Loads or creates the client settings.
pub struct ClientSettingsPlugin;

/// Processes device input and the keybind toggles.
pub struct InputModulePlugin;

/// Sets up the simulation: schedules, shared and client-only plugins, and the
/// texture and block registries.
pub struct SimulationPlugin;

/// Moves the camera and tracks the chunk it is in.
pub struct CameraPlugin;

/// Adds the camera and the player actions.
pub struct PlayerPlugin;

/// Registers the app state and its game sub-state.
pub struct StatePlugin;

impl OpaqueRenderPassPlugin {
    /// The render graph node that draws the opaque pass.
    pub fn graph_node(&self) -> (r: VantablockNode)
        ensures
            r == VantablockNode::OpaquePass,
    {
        VantablockNode::OpaquePass
    }
}

impl TransparentRenderPassPlugin {
    /// The render graph node that draws the transparent pass.
    pub fn graph_node(&self) -> (r: VantablockNode)
        ensures
            r == VantablockNode::TransparentPass,
    {
        VantablockNode::TransparentPass
    }
}

impl ShadowRenderPassPlugin {
    /// The render graph node that draws the shadow map.
    pub fn graph_node(&self) -> (r: VantablockNode)
        ensures
            r == VantablockNode::ShadowPass,
    {
        VantablockNode::ShadowPass
    }
}

} // verus!
