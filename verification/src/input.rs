//! The keybind toggles of the client: chunk borders, opaque wireframe mode,
//! the cursor lock and the debug menu, and what the render world extracts
//! from them.

use vstd::prelude::*;

verus! {

/// Whether the chunk border wireframes are shown.
#[derive(Clone, Copy, Debug, PartialEq, Eq, Structural)]
pub struct ChunkBoundsToggle {
    pub enabled: bool,
}

impl Default for ChunkBoundsToggle {
    /// Chunk borders start hidden.
    fn default() -> (r: Self)
        ensures
            !r.enabled,
    {
        ChunkBoundsToggle { enabled: false }
    }
}

/// Toggles chunk bounds mode on or off.
pub fn toggle_chunk_borders_system(mode: &mut ChunkBoundsToggle)
    ensures
        final(mode).enabled == !old(mode).enabled,
{
    mode.enabled = !mode.enabled;
}

/// Whether opaque geometry is drawn as a wireframe.
#[derive(Clone, Copy, Debug, PartialEq, Eq, Structural)]
pub struct OpaqueWireframeMode {
    pub enabled: bool,
}

impl Default for OpaqueWireframeMode {
    /// Opaque geometry starts filled.
    fn default() -> (r: Self)
        ensures
            !r.enabled,
    {
        OpaqueWireframeMode { enabled: false }
    }
}

/// Toggles opaque wireframe mode on or off.
pub fn toggle_opaque_wireframe_mode_system(mode: &mut OpaqueWireframeMode)
    ensures
        final(mode).enabled == !old(mode).enabled,
{
    mode.enabled = !mode.enabled;
}

/// The render world's copy of the chunk border toggle.
#[derive(Clone, Copy, Debug, PartialEq, Eq, Structural)]
pub struct WireframeToggleState {
    pub enabled: bool,
}

impl WireframeToggleState {
    /// Copies the chunk border toggle into the render world.
    pub fn extract_resource(source: &ChunkBoundsToggle) -> (r: Self)
        ensures
            r.enabled == source.enabled,
    {
        WireframeToggleState { enabled: source.enabled }
    }
}

/// How the OS cursor is held by the window.
#[derive(Clone, Copy, Debug, PartialEq, Eq, Structural)]
pub enum CursorGrabMode {
    /// The cursor moves freely.
    Free,
    /// The cursor is kept inside the window.
    Confined,
    /// The cursor is locked in place.
    Locked,
}

/// The primary window's cursor options that the pause toggle changes.
#[derive(Clone, Copy, Debug, PartialEq, Eq, Structural)]
pub struct CursorState {
    pub visible: bool,
    pub grab_mode: CursorGrabMode,
}

/// The cursor after one press of the pause toggle: its visibility flips, a
/// visible cursor is released and a hidden one is locked.
pub open spec fn cursor_after_toggle(c: CursorState) -> CursorState {
    CursorState {
        visible: !c.visible,
        grab_mode: if !c.visible {
            CursorGrabMode::Free
        } else {
            CursorGrabMode::Locked
        },
    }
}

/// The cursor is in one of the two states that the toggle produces.
pub open spec fn cursor_settled(c: CursorState) -> bool {
    c.grab_mode == (if c.visible {
        CursorGrabMode::Free
    } else {
        CursorGrabMode::Locked
    })
}

/// Toggles the OS cursor visibility and lock state.
pub fn toggle_cursor_system(cursor: &mut CursorState)
    ensures
        *final(cursor) == cursor_after_toggle(*old(cursor)),
        cursor_settled(*final(cursor)),
{
    cursor.visible = !cursor.visible;
    if cursor.visible {
        cursor.grab_mode = CursorGrabMode::Free;
    } else {
        cursor.grab_mode = CursorGrabMode::Locked;
    }
}

/// Pressing the pause toggle twice gives back the cursor it started from,
/// once the cursor is in a state that the toggle produces.
pub proof fn lemma_cursor_toggle_twice(c: CursorState)
    requires
        cursor_settled(c),
    ensures
        cursor_after_toggle(cursor_after_toggle(c)) == c,
{
}

/// Whether the debug menu is shown.
#[derive(Clone, Copy, Debug, PartialEq, Eq, Structural)]
pub struct DebugMenuState {
    pub visible: bool,
}

impl Default for DebugMenuState {
    /// The debug menu starts hidden.
    fn default() -> (r: Self)
        ensures
            !r.visible,
    {
        DebugMenuState { visible: false }
    }
}

/// What the debug menu's UI must do after a frame's input.
#[derive(Clone, Copy, Debug, PartialEq, Eq, Structural)]
pub enum DebugMenuChange {
    /// Nothing to do.
    Unchanged,
    /// Spawn the menu.
    Show,
    /// Despawn the menu.
    Hide,
}

/// Toggles the debug menu when its key was just pressed, and says whether its
/// UI must be spawned or despawned.
pub fn toggle_debug_menu_system(state: &mut DebugMenuState, just_pressed: bool) -> (r: DebugMenuChange)
    ensures
        final(state).visible == (old(state).visible != just_pressed),
        r == (if !just_pressed {
            DebugMenuChange::Unchanged
        } else if final(state).visible {
            DebugMenuChange::Show
        } else {
            DebugMenuChange::Hide
        }),
{
    if just_pressed {
        state.visible = !state.visible;
        if state.visible {
            DebugMenuChange::Show
        } else {
            DebugMenuChange::Hide
        }
    } else {
        DebugMenuChange::Unchanged
    }
}

} // verus!
