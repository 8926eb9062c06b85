//! What the menu buttons do when the pointer interacts with them: how each
//! button looks, and where a press takes the client.

use vstd::prelude::*;

verus! {

/// The pointer's interaction with a button.
#[derive(Clone, Copy, Debug, PartialEq, Eq, Structural)]
pub enum Interaction {
    Pressed,
    Hovered,
    Idle,
}

/// The look of a menu button (each screen has its own colors for them).
#[derive(Clone, Copy, Debug, PartialEq, Eq, Structural)]
pub enum ButtonLook {
    Pressed,
    Hovered,
    Idle,
}

/// The look that matches an interaction.
pub open spec fn look_of(interaction: Interaction) -> ButtonLook {
    match interaction {
        Interaction::Pressed => ButtonLook::Pressed,
        Interaction::Hovered => ButtonLook::Hovered,
        Interaction::Idle => ButtonLook::Idle,
    }
}

fn button_look(interaction: Interaction) -> (r: ButtonLook)
    ensures
        r == look_of(interaction),
{
    match interaction {
        Interaction::Pressed => ButtonLook::Pressed,
        Interaction::Hovered => ButtonLook::Hovered,
        Interaction::Idle => ButtonLook::Idle,
    }
}

/// The main menu's buttons.
#[derive(Clone, Copy, Debug, PartialEq, Eq, Structural)]
pub enum MainMenuButtonAction {
    Singleplayer,
    Multiplayer,
}

/// How the client connects to a session.
#[derive(Clone, Copy, Debug, PartialEq, Eq, Structural)]
pub enum ConnectType {
    Singleplayer,
    Multiplayer,
}

/// Where the session's server runs: inside the client or elsewhere.
#[derive(Clone, Copy, Debug, PartialEq, Eq, Structural)]
pub enum SessionTopology {
    Internal,
    External,
}

/// What pressing a main menu button starts: the client goes in game with this
/// connection, and a singleplayer press also requests the local session.
#[derive(Clone, Copy, Debug, PartialEq, Eq, Structural)]
pub struct SessionStart {
    pub connect_type: ConnectType,
    pub topology: SessionTopology,
    pub request_singleplayer_session: bool,
}

/// Reacts to an interaction with a main menu button: its look, and on a press
/// the session to start.
pub fn main_menu_button_interaction_system(interaction: Interaction, action: MainMenuButtonAction) -> (r: (
    ButtonLook,
    Option<SessionStart>,
))
    ensures
        r.0 == look_of(interaction),
        r.1 == (if interaction == Interaction::Pressed {
            Some(
                match action {
                    MainMenuButtonAction::Singleplayer => SessionStart {
                        connect_type: ConnectType::Singleplayer,
                        topology: SessionTopology::Internal,
                        request_singleplayer_session: true,
                    },
                    MainMenuButtonAction::Multiplayer => SessionStart {
                        connect_type: ConnectType::Multiplayer,
                        topology: SessionTopology::External,
                        request_singleplayer_session: false,
                    },
                },
            )
        } else {
            None::<SessionStart>
        }),
{
    let look = button_look(interaction);
    let start = match interaction {
        Interaction::Pressed => match action {
            MainMenuButtonAction::Singleplayer => Some(
                SessionStart {
                    connect_type: ConnectType::Singleplayer,
                    topology: SessionTopology::Internal,
                    request_singleplayer_session: true,
                },
            ),
            MainMenuButtonAction::Multiplayer => Some(
                SessionStart {
                    connect_type: ConnectType::Multiplayer,
                    topology: SessionTopology::External,
                    request_singleplayer_session: false,
                },
            ),
        },
        _ => None,
    };
    (look, start)
}

/// The in-game settings menu's buttons.
#[derive(Clone, Copy, Debug, PartialEq, Eq, Structural)]
pub enum SettingsButtonAction {
    Resume,
    Disconnect,
}

/// Where a press in the settings menu takes the client.
#[derive(Clone, Copy, Debug, PartialEq, Eq, Structural)]
pub enum SettingsOutcome {
    /// Back to playing.
    ResumePlaying,
    /// Disconnect from the server and return to the main menu.
    DisconnectToMainMenu,
}

/// Reacts to an interaction with a settings menu button: its look, and on a
/// press where it takes the client.
pub fn settings_button_interaction_system(interaction: Interaction, action: SettingsButtonAction) -> (r: (
    ButtonLook,
    Option<SettingsOutcome>,
))
    ensures
        r.0 == look_of(interaction),
        r.1 == (if interaction == Interaction::Pressed {
            Some(
                match action {
                    SettingsButtonAction::Resume => SettingsOutcome::ResumePlaying,
                    SettingsButtonAction::Disconnect => SettingsOutcome::DisconnectToMainMenu,
                },
            )
        } else {
            None::<SettingsOutcome>
        }),
{
    let look = button_look(interaction);
    let outcome = match interaction {
        Interaction::Pressed => match action {
            SettingsButtonAction::Resume => Some(SettingsOutcome::ResumePlaying),
            SettingsButtonAction::Disconnect => Some(SettingsOutcome::DisconnectToMainMenu),
        },
        _ => None,
    };
    (look, outcome)
}

/// Reacts to an interaction with the retry button of the disconnected screen:
/// a press returns to the main menu and leaves the button's look as it is;
/// hovering or leaving it changes its look.
pub fn disconnected_ui_button_interaction_system(interaction: Interaction) -> (r: (Option<ButtonLook>, bool))
    ensures
        r.1 == (interaction == Interaction::Pressed),
        r.0 == (if interaction == Interaction::Pressed {
            None::<ButtonLook>
        } else {
            Some(look_of(interaction))
        }),
{
    match interaction {
        Interaction::Pressed => (None, true),
        Interaction::Hovered => (Some(ButtonLook::Hovered), false),
        Interaction::Idle => (Some(ButtonLook::Idle), false),
    }
}

} // verus!
