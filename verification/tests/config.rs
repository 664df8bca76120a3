use flixparty::config::default_channel;
use flixparty::config::default_loglevel;
use flixparty::config::default_playback_key;
use flixparty::config::default_toggle_key;
use flixparty::config::parse_log_level;
use flixparty::config::LogLevel;
use flixparty::config::Condition;
use flixparty::config::Config;
use flixparty::config::ConfigError;
use flixparty::config::Connection;
use flixparty::config::Keys;
use flixparty::config::Platform;
use flixparty::input::Key;

#[test]
fn defaults_of_the_configuration() {
    assert_eq!(default_channel(), "flixparty");
    assert_eq!(default_loglevel(), "info");
    assert_eq!(default_toggle_key(), Key::Space);
    assert_eq!(default_playback_key(Platform::Windows), Key::Unknown(179));
    assert_eq!(default_playback_key(Platform::Linux), Key::Unknown(172));
    assert_eq!(default_playback_key(Platform::MacOs), Key::Space);
}

#[test]
fn default_keys_pass_the_check_off_macos() {
    for p in [Platform::Windows, Platform::Linux] {
        let keys = Keys::default_for(p);
        assert_eq!(keys.toggle, Key::Space);
        assert_eq!(keys.playback, default_playback_key(p));
        assert_eq!(keys.check(), Ok(()));
    }
    // on macOS both defaults are the space bar
    let mac = Keys::default_for(Platform::MacOs);
    assert_eq!(mac.check(), Err(ConfigError::SameToggleAndPlaybackKey));
}

#[test]
fn log_levels() {
    assert_eq!(parse_log_level("info"), Some(LogLevel::Info));
    assert_eq!(parse_log_level("INFO"), Some(LogLevel::Info));
    assert_eq!(parse_log_level("Warn"), Some(LogLevel::Warn));
    assert_eq!(parse_log_level("error"), Some(LogLevel::Error));
    assert_eq!(parse_log_level("debug"), Some(LogLevel::Debug));
    assert_eq!(parse_log_level("trace"), Some(LogLevel::Trace));
    assert_eq!(parse_log_level("1"), Some(LogLevel::Error));
    assert_eq!(parse_log_level("+5"), Some(LogLevel::Trace));
    assert_eq!(parse_log_level("003"), Some(LogLevel::Info));
    assert_eq!(parse_log_level("0"), None);
    assert_eq!(parse_log_level("6"), None);
    assert_eq!(parse_log_level(""), None);
    assert_eq!(parse_log_level("warning"), None);
    assert_eq!(parse_log_level(" info"), None);
}

#[test]
fn config_check_reports_the_level_or_the_error() {
    let good = Config {
        log_level: "debug".to_string(),
        keys: Keys { toggle: Key::Space, playback: Key::Unknown(172) },
        connection: Connection { address: "redis://localhost".to_string(), channel: default_channel() },
        condition: Condition::default(),
    };
    assert_eq!(good.check(), Ok(LogLevel::Debug));
    let bad_level = Config { log_level: "loud".to_string(), ..good.clone() };
    assert_eq!(bad_level.check(), Err(ConfigError::InvalidLogLevel));
    assert_eq!(
        ConfigError::InvalidLogLevel.message(),
        "error parsing level: expected one of \"error\", \"warn\", \"info\", \"debug\", \"trace\", or a number 1-5"
    );
    let both = Config { log_level: "loud".to_string(), keys: Keys { toggle: Key::KeyA, playback: Key::KeyA }, ..good };
    assert_eq!(both.check(), Err(ConfigError::SameToggleAndPlaybackKey));
}

#[test]
fn same_toggle_and_playback_key_is_refused() {
    let keys = Keys { toggle: Key::Space, playback: Key::Space };
    assert_eq!(keys.check(), Err(ConfigError::SameToggleAndPlaybackKey));
    assert_eq!(
        ConfigError::SameToggleAndPlaybackKey.message(),
        "playback and toggle key must not be the same key"
    );
    let unknown = Keys { toggle: Key::Unknown(7), playback: Key::Unknown(8) };
    assert_eq!(unknown.check(), Ok(()));
    let cfg = Config {
        log_level: default_loglevel(),
        keys,
        connection: Connection { address: "redis://localhost".to_string(), channel: default_channel() },
        condition: Condition::default(),
    };
    assert_eq!(cfg.check(), Err(ConfigError::SameToggleAndPlaybackKey));
}

#[test]
fn default_condition_blocks_trigger_only() {
    let c = Condition::default();
    assert_eq!(c.class, None);
    assert_eq!(c.title_contains, None);
    assert!(c.block_trigger);
    assert!(!c.block_receive);
}
