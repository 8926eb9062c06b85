use vantablock_client::input::{
    toggle_chunk_borders_system, toggle_cursor_system, toggle_debug_menu_system,
    toggle_opaque_wireframe_mode_system, ChunkBoundsToggle, CursorGrabMode, CursorState,
    DebugMenuChange, DebugMenuState, OpaqueWireframeMode, WireframeToggleState,
};
use vantablock_client::main_menu::{main_menu_text_input_system, KeyboardTextEvent, TextKey};
use vantablock_client::pipelines::OpaqueRenderMode;
use vantablock_client::plugins::{
    OpaqueRenderPassPlugin, ShadowRenderPassPlugin, TransparentRenderPassPlugin,
};
use vantablock_client::pipelines::VantablockNode;
use vantablock_client::settings::ClientSettings;
use vantablock_client::state::{ClientAppState, ClientGameState};

#[test]
fn toggles_start_off() {
    assert!(!ChunkBoundsToggle::default().enabled);
    assert!(!OpaqueWireframeMode::default().enabled);
    assert!(!DebugMenuState::default().visible);
}

#[test]
fn chunk_borders_toggle_twice_restores() {
    let mut t = ChunkBoundsToggle::default();
    toggle_chunk_borders_system(&mut t);
    assert!(t.enabled);
    assert!(WireframeToggleState::extract_resource(&t).enabled);
    toggle_chunk_borders_system(&mut t);
    assert!(!t.enabled);
    assert!(!WireframeToggleState::extract_resource(&t).enabled);
}

#[test]
fn wireframe_mode_selects_the_render_mode() {
    let mut m = OpaqueWireframeMode::default();
    assert_eq!(OpaqueRenderMode::extract_resource(&m), OpaqueRenderMode::Fill);
    toggle_opaque_wireframe_mode_system(&mut m);
    assert_eq!(OpaqueRenderMode::extract_resource(&m), OpaqueRenderMode::Wireframe);
    toggle_opaque_wireframe_mode_system(&mut m);
    assert_eq!(OpaqueRenderMode::extract_resource(&m), OpaqueRenderMode::Fill);
    assert_eq!(OpaqueRenderMode::default(), OpaqueRenderMode::Fill);
}

#[test]
fn cursor_toggle_locks_and_releases() {
    let start = CursorState { visible: true, grab_mode: CursorGrabMode::Free };
    let mut c = start;
    toggle_cursor_system(&mut c);
    assert_eq!(c, CursorState { visible: false, grab_mode: CursorGrabMode::Locked });
    toggle_cursor_system(&mut c);
    assert_eq!(c, start);
}

#[test]
fn cursor_toggle_from_confined_hides_and_locks() {
    let mut c = CursorState { visible: true, grab_mode: CursorGrabMode::Confined };
    toggle_cursor_system(&mut c);
    assert_eq!(c, CursorState { visible: false, grab_mode: CursorGrabMode::Locked });
}

#[test]
fn debug_menu_shows_and_hides_on_key_press() {
    let mut s = DebugMenuState::default();
    assert_eq!(toggle_debug_menu_system(&mut s, false), DebugMenuChange::Unchanged);
    assert!(!s.visible);
    assert_eq!(toggle_debug_menu_system(&mut s, true), DebugMenuChange::Show);
    assert!(s.visible);
    assert_eq!(toggle_debug_menu_system(&mut s, false), DebugMenuChange::Unchanged);
    assert_eq!(toggle_debug_menu_system(&mut s, true), DebugMenuChange::Hide);
    assert!(!s.visible);
}

#[test]
fn states_default_to_the_start() {
    assert_eq!(ClientAppState::default(), ClientAppState::StartingUp);
    assert_eq!(ClientGameState::default(), ClientGameState::MainMenu);
}

#[test]
fn simulation_runs_while_connecting_or_playing() {
    assert!(!ClientGameState::MainMenu.runs_simulation());
    assert!(ClientGameState::Connecting.runs_simulation());
    assert!(ClientGameState::Playing.runs_simulation());
}

#[test]
fn default_settings_use_rhinestone() {
    assert_eq!(ClientSettings::default().texture_pack, "rhinestone");
}

#[test]
fn settings_file_lives_in_the_config_dir() {
    assert_eq!(ClientSettings::file_path("/home/u/.config/vantablock"), "/home/u/.config/vantablock/client_settings.ron");
}

#[test]
fn loaded_settings_are_kept() {
    let user = ClientSettings { texture_pack: "faithful".to_string() };
    let (s, write_default) = ClientSettings::load_or_create(Some(user));
    assert_eq!(s.texture_pack, "faithful");
    assert!(!write_default);
}

#[test]
fn missing_settings_fall_back_to_defaults_and_are_written() {
    let (s, write_default) = ClientSettings::load_or_create(None);
    assert_eq!(s.texture_pack, "rhinestone");
    assert!(write_default);
}

fn press(key: TextKey) -> KeyboardTextEvent {
    KeyboardTextEvent { pressed: true, key }
}

#[test]
fn server_address_is_typed_and_erased() {
    let mut addr = "127.0.0.1".to_string();
    let events = vec![
        press(TextKey::Backspace),
        press(TextKey::Character("2".to_string())),
        KeyboardTextEvent { pressed: false, key: TextKey::Character("x".to_string()) },
        press(TextKey::Other),
        press(TextKey::Character(":5000".to_string())),
    ];
    main_menu_text_input_system(&mut addr, &events);
    assert_eq!(addr, "127.0.0.2:5000");
}

#[test]
fn backspace_on_empty_address_does_nothing() {
    let mut addr = String::new();
    main_menu_text_input_system(&mut addr, &vec![press(TextKey::Backspace)]);
    assert_eq!(addr, "");
}

#[test]
fn backspace_removes_a_whole_character() {
    let mut addr = "hé".to_string();
    main_menu_text_input_system(&mut addr, &vec![press(TextKey::Backspace)]);
    assert_eq!(addr, "h");
}

#[test]
fn pass_plugins_add_their_graph_nodes() {
    assert_eq!(OpaqueRenderPassPlugin.graph_node(), VantablockNode::OpaquePass);
    assert_eq!(TransparentRenderPassPlugin.graph_node(), VantablockNode::TransparentPass);
    assert_eq!(ShadowRenderPassPlugin.graph_node(), VantablockNode::ShadowPass);
}

use vantablock_client::menu_buttons::{
    disconnected_ui_button_interaction_system, main_menu_button_interaction_system,
    settings_button_interaction_system, ButtonLook, ConnectType, Interaction,
    MainMenuButtonAction, SessionStart, SessionTopology, SettingsButtonAction, SettingsOutcome,
};

#[test]
fn singleplayer_press_starts_a_local_session() {
    let (look, start) =
        main_menu_button_interaction_system(Interaction::Pressed, MainMenuButtonAction::Singleplayer);
    assert_eq!(look, ButtonLook::Pressed);
    assert_eq!(
        start,
        Some(SessionStart {
            connect_type: ConnectType::Singleplayer,
            topology: SessionTopology::Internal,
            request_singleplayer_session: true,
        })
    );
}

#[test]
fn multiplayer_press_connects_to_an_external_server() {
    let (_, start) =
        main_menu_button_interaction_system(Interaction::Pressed, MainMenuButtonAction::Multiplayer);
    assert_eq!(
        start,
        Some(SessionStart {
            connect_type: ConnectType::Multiplayer,
            topology: SessionTopology::External,
            request_singleplayer_session: false,
        })
    );
}

#[test]
fn hovering_a_menu_button_only_changes_its_look() {
    assert_eq!(
        main_menu_button_interaction_system(Interaction::Hovered, MainMenuButtonAction::Multiplayer),
        (ButtonLook::Hovered, None)
    );
    assert_eq!(
        main_menu_button_interaction_system(Interaction::Idle, MainMenuButtonAction::Singleplayer),
        (ButtonLook::Idle, None)
    );
}

#[test]
fn settings_buttons_resume_or_disconnect() {
    assert_eq!(
        settings_button_interaction_system(Interaction::Pressed, SettingsButtonAction::Resume),
        (ButtonLook::Pressed, Some(SettingsOutcome::ResumePlaying))
    );
    assert_eq!(
        settings_button_interaction_system(Interaction::Pressed, SettingsButtonAction::Disconnect),
        (ButtonLook::Pressed, Some(SettingsOutcome::DisconnectToMainMenu))
    );
    assert_eq!(
        settings_button_interaction_system(Interaction::Hovered, SettingsButtonAction::Disconnect),
        (ButtonLook::Hovered, None)
    );
}

#[test]
fn retry_button_returns_to_the_main_menu() {
    assert_eq!(disconnected_ui_button_interaction_system(Interaction::Pressed), (None, true));
    assert_eq!(
        disconnected_ui_button_interaction_system(Interaction::Hovered),
        (Some(ButtonLook::Hovered), false)
    );
    assert_eq!(
        disconnected_ui_button_interaction_system(Interaction::Idle),
        (Some(ButtonLook::Idle), false)
    );
}
