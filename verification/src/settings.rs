//! The user's client settings and how they are loaded.

use crate::text::{join_path, joined_path};
use vstd::prelude::*;

verus! {

/// The texture pack used when the user has chosen none.
pub open spec fn default_texture_pack() -> Seq<char> {
    "rhinestone"@
}

/// The name of the settings file in the platform's config directory.
pub open spec fn settings_file_name() -> Seq<char> {
    "client_settings.ron"@
}

/// The user-specific client settings.
#[derive(Clone, Debug)]
pub struct ClientSettings {
    /// The texture pack folder to load block textures from.
    pub texture_pack: String,
}

impl Default for ClientSettings {
    /// The default settings: the `rhinestone` texture pack.
    fn default() -> (r: Self)
        ensures
            r.texture_pack@ == default_texture_pack(),
    {
        ClientSettings { texture_pack: String::from_str("rhinestone") }
    }
}

impl ClientSettings {
    /// The path of the settings file inside the config directory `config_dir`.
    pub fn file_path(config_dir: &str) -> (r: String)
        ensures
            r@ == joined_path(config_dir@, settings_file_name()),
    {
        join_path(config_dir, "client_settings.ron")
    }

    /// Settles the settings from what was read from the settings file: the
    /// user's settings when the file was read and parsed, else the defaults,
    /// which are then to be written to the file (the flag).
    pub fn load_or_create(loaded: Option<ClientSettings>) -> (r: (ClientSettings, bool))
        ensures
            match loaded {
                Some(user) => r.0 == user && !r.1,
                None => r.0.texture_pack@ == default_texture_pack() && r.1,
            },
    {
        match loaded {
            Some(user_config) => (user_config, false),
            None => (ClientSettings::default(), true),
        }
    }
}

} // verus!
