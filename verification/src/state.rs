//! The client's application and game states.

use vstd::prelude::*;

verus! {

/// The state of the overall client app runtime.
///
/// This represents the wrapping program itself, unrelated to game logic.
#[derive(Clone, Copy, Debug, PartialEq, Eq, Hash, Structural)]
pub enum ClientAppState {
    /// The client is loading up essential data. The app loop has not started.
    StartingUp,
    /// The main application loop is active and executing.
    Running,
    /// The application is performing cleanup operations before process termination.
    ShuttingDown,
}

impl Default for ClientAppState {
    /// The client starts up first.
    fn default() -> (r: Self)
        ensures
            r == ClientAppState::StartingUp,
    {
        ClientAppState::StartingUp
    }
}

/// A sub-state of [`ClientAppState::Running`]: the game state and lifecycle.
#[derive(Clone, Copy, Debug, PartialEq, Eq, Hash, Structural)]
pub enum ClientGameState {
    /// The user is navigating the main menu UI.
    MainMenu,
    /// The client is attempting to establish a connection to a server or load into a world.
    Connecting,
    /// The client is actively connected and in a game session.
    Playing,
}

impl Default for ClientGameState {
    /// A running client opens on the main menu.
    fn default() -> (r: Self)
        ensures
            r == ClientGameState::MainMenu,
    {
        ClientGameState::MainMenu
    }
}

/// The simulation's fixed-update sets and the render preparation run while
/// the client connects or plays, not in the main menu.
pub open spec fn simulation_active(state: ClientGameState) -> bool {
    state == ClientGameState::Playing || state == ClientGameState::Connecting
}

impl ClientGameState {
    /// Whether the simulation and render preparation run in this state.
    pub fn runs_simulation(&self) -> (r: bool)
        ensures
            r == simulation_active(*self),
    {
        match self {
            ClientGameState::MainMenu => false,
            ClientGameState::Connecting => true,
            ClientGameState::Playing => true,
        }
    }
}

} // verus!
