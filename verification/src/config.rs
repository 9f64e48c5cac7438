//! The player's persistent settings.

use vstd::prelude::*;

verus! {

/// Settings that survive a restart: the name of the colour theme and the
/// address (`host:port`) of the MPD server.
pub struct Config {
    pub theme: String,
    pub mpd_address: String,
}

/// What a [`Config`] holds, as text.
pub struct ConfigView {
    pub theme: Seq<char>,
    pub mpd_address: Seq<char>,
}

impl View for Config {
    type V = ConfigView;

    open spec fn view(&self) -> ConfigView {
        ConfigView { theme: self.theme@, mpd_address: self.mpd_address@ }
    }
}

/// The directory, inside the user's configuration directory, that holds
/// the settings file.
pub const CONFIG_DIR_NAME: &'static str = "music_player";

/// The name of the settings file.
pub const CONFIG_FILE_NAME: &'static str = "config.toml";

/// The server address used when no settings have been saved yet.
pub open spec fn default_mpd_address() -> Seq<char> {
    "127.0.0.1:6600"@
}

/// The theme used when no settings have been saved yet.
pub open spec fn default_theme_name() -> Seq<char> {
    "Moonfly"@
}

impl Default for Config {
    /// A local MPD server on its standard port, with the Moonfly theme.
    fn default() -> (c: Self)
        ensures
            c@.mpd_address == default_mpd_address(),
            c@.theme == default_theme_name(),
    {
        Config {
            mpd_address: String::from_str("127.0.0.1:6600"),
            theme: String::from_str("Moonfly"),
        }
    }
}

/// Without saved settings the player talks to a local MPD server on its
/// standard port and uses the Moonfly theme.
pub proof fn defaults_are_local_server_and_moonfly()
    ensures
        default_mpd_address() == "127.0.0.1:6600"@,
        default_theme_name() == "Moonfly"@,
{
}

} // verus!
