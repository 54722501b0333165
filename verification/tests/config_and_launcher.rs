use rl_discord_rpc::config::{
    default_discord_client_id, default_stats_api_port, default_tracker_platform, resolve_config,
    AppConfig, ConfigSource,
};
use rl_discord_rpc::launcher::{choose_rpc_binary, RpcBinary};

fn config(client: &str, platform: &str, user: &str, port: u16) -> AppConfig {
    AppConfig {
        discord_client_id: client.to_string(),
        tracker_platform: platform.to_string(),
        tracker_username: user.to_string(),
        stats_api_port: port,
    }
}

#[test]
fn defaults_are_the_documented_ones() {
    assert_eq!(default_discord_client_id(), "YOUR_DISCORD_APPLICATION_ID");
    assert_eq!(default_tracker_platform(), "epic");
    assert_eq!(default_stats_api_port(), 49123);
    let d = AppConfig::default();
    assert_eq!(d.discord_client_id, "YOUR_DISCORD_APPLICATION_ID");
    assert_eq!(d.tracker_platform, "epic");
    assert_eq!(d.tracker_username, "");
    assert_eq!(d.stats_api_port, 49123);
}

#[test]
fn missing_file_gives_defaults_and_a_template() {
    let r = resolve_config(ConfigSource::Missing);
    assert!(r.write_template);
    assert!(!r.placeholder_client_id);
    assert!(!r.missing_username);
    assert_eq!(r.config.tracker_platform, "epic");
    assert_eq!(r.config.stats_api_port, 49123);
}

#[test]
fn unreadable_or_malformed_file_gives_defaults_without_template() {
    for source in [ConfigSource::Unreadable, ConfigSource::Malformed] {
        let r = resolve_config(source);
        assert!(!r.write_template);
        assert_eq!(r.config.discord_client_id, "YOUR_DISCORD_APPLICATION_ID");
        assert_eq!(r.config.tracker_username, "");
    }
}

#[test]
fn parsed_settings_are_kept_with_warnings() {
    let r = resolve_config(ConfigSource::Parsed(config("YOUR_DISCORD_APPLICATION_ID", "steam", "", 5000)));
    assert!(r.placeholder_client_id);
    assert!(r.missing_username);
    assert!(!r.write_template);
    assert_eq!(r.config.tracker_platform, "steam");
    assert_eq!(r.config.stats_api_port, 5000);

    let r = resolve_config(ConfigSource::Parsed(config("1234", "epic", "player", 49123)));
    assert!(!r.placeholder_client_id);
    assert!(!r.missing_username);
    assert_eq!(r.config.discord_client_id, "1234");
    assert_eq!(r.config.tracker_username, "player");
}

#[test]
fn rpc_binary_prefers_the_one_beside_the_wrapper() {
    assert!(matches!(choose_rpc_binary(true, true), RpcBinary::BesideExecutable));
    assert!(matches!(choose_rpc_binary(true, false), RpcBinary::BesideExecutable));
    assert!(matches!(choose_rpc_binary(false, true), RpcBinary::UserLocalBin));
    assert!(matches!(choose_rpc_binary(false, false), RpcBinary::OnPath));
}
