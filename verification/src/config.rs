//! The application's settings, their defaults, and how a settings file's
//! fate decides the settings in force.

use vstd::prelude::*;

verus! {

/// The settings: the Discord application id, the rank tracker platform and
/// user name, and the port of the game's Stats API.
pub struct AppConfig {
    pub discord_client_id: String,
    pub tracker_platform: String,
    pub tracker_username: String,
    pub stats_api_port: u16,
}

/// The placeholder Discord application id written into a new settings file.
pub open spec fn default_client_id_text() -> Seq<char> {
    "YOUR_DISCORD_APPLICATION_ID"@
}

/// The default rank tracker platform.
pub open spec fn default_platform_text() -> Seq<char> {
    "epic"@
}

/// The Stats API's default port.
pub open spec fn default_port() -> u16 {
    49123
}

/// The settings in force when no usable settings file exists.
pub open spec fn is_default_config(config: AppConfig) -> bool {
    &&& config.discord_client_id@ == default_client_id_text()
    &&& config.tracker_platform@ == default_platform_text()
    &&& config.tracker_username@ == Seq::<char>::empty()
    &&& config.stats_api_port == default_port()
}

/// The placeholder Discord application id.
pub fn default_discord_client_id() -> (id: String)
    ensures
        id@ == default_client_id_text(),
{
    String::from_str("YOUR_DISCORD_APPLICATION_ID")
}

/// The default rank tracker platform.
pub fn default_tracker_platform() -> (platform: String)
    ensures
        platform@ == default_platform_text(),
{
    String::from_str("epic")
}

/// The Stats API's default port.
pub fn default_stats_api_port() -> (port: u16)
    ensures
        port == default_port(),
{
    49123
}

impl Default for AppConfig {
    fn default() -> (config: Self)
        ensures
            is_default_config(config),
    {
        AppConfig {
            discord_client_id: default_discord_client_id(),
            tracker_platform: default_tracker_platform(),
            tracker_username: String::new(),
            stats_api_port: default_stats_api_port(),
        }
    }
}

/// What became of the settings file.
pub enum ConfigSource {
    /// There is no settings file.
    Missing,
    /// The file exists but could not be read.
    Unreadable,
    /// The file was read but does not hold valid settings.
    Malformed,
    /// The file held these settings.
    Parsed(AppConfig),
}

/// The settings in force, and what the user should be told.
pub struct ConfigResolution {
    pub config: AppConfig,
    /// A settings template should be written where the file was missing.
    pub write_template: bool,
    /// The Discord application id is still the placeholder.
    pub placeholder_client_id: bool,
    /// No tracker user name is set, so no rank icon can be shown.
    pub missing_username: bool,
}

/// The settings in force: parsed settings are taken as they are, with
/// warnings for a placeholder application id and an empty tracker user name;
/// in every other case the defaults are used, and a missing file is to be
/// replaced by a template.
pub fn resolve_config(source: ConfigSource) -> (resolution: ConfigResolution)
    ensures
        match source {
            ConfigSource::Parsed(config) => {
                &&& resolution.config == config
                &&& !resolution.write_template
                &&& resolution.placeholder_client_id == (config.discord_client_id@
                    == default_client_id_text())
                &&& resolution.missing_username == (config.tracker_username@.len() == 0)
            },
            _ => {
                &&& is_default_config(resolution.config)
                &&& resolution.write_template == (source is Missing)
                &&& !resolution.placeholder_client_id
                &&& !resolution.missing_username
            },
        },
{
    match source {
        ConfigSource::Parsed(config) => {
            let placeholder = config.discord_client_id == default_discord_client_id();
            let missing = config.tracker_username.as_str().is_empty();
            ConfigResolution {
                config,
                write_template: false,
                placeholder_client_id: placeholder,
                missing_username: missing,
            }
        },
        ConfigSource::Missing => ConfigResolution {
            config: AppConfig::default(),
            write_template: true,
            placeholder_client_id: false,
            missing_username: false,
        },
        _ => ConfigResolution {
            config: AppConfig::default(),
            write_template: false,
            placeholder_client_id: false,
            missing_username: false,
        },
    }
}

} // verus!
