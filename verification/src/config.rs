//! The client's configuration: where to connect, which keys to use, and
//! which window counts as the player; with the defaults of each part.
use crate::input::Key;
use vstd::prelude::*;

verus! {

/// The platforms the client runs on; the default playback key differs.
#[derive(Clone, Copy, Debug, PartialEq, Eq, Structural)]
pub enum Platform {
    Windows,
    Linux,
    MacOs,
}

/// The key that, pressed locally, toggles playback on every peer.
pub fn default_toggle_key() -> (k: Key)
    ensures
        k == Key::Space,
{
    Key::Space
}

/// The key pressed to toggle playback on this machine, by platform.
pub open spec fn spec_default_playback_key(platform: Platform) -> Key {
    match platform {
        // VK_MEDIA_PLAY_PAUSE
        Platform::Windows => Key::Unknown(179),
        // the XF86AudioPlay key code
        Platform::Linux => Key::Unknown(172),
        // the play/pause key of macOS cannot be simulated; Space toggles the
        // focused player instead
        Platform::MacOs => Key::Space,
    }
}

pub fn default_playback_key(platform: Platform) -> (k: Key)
    ensures
        k == spec_default_playback_key(platform),
{
    match platform {
        Platform::Windows => Key::Unknown(179),
        Platform::Linux => Key::Unknown(172),
        Platform::MacOs => Key::Space,
    }
}

/// The pub-sub channel used when the configuration names none.
pub fn default_channel() -> (s: String)
    ensures
        s@ == "flixparty"@,
{
    String::from_str("flixparty")
}

/// The log level used when the configuration names none.
pub fn default_loglevel() -> (s: String)
    ensures
        s@ == "info"@,
{
    String::from_str("info")
}

/// Where the peers meet: the address of the pub-sub server and the channel.
#[derive(Clone, Debug)]
pub struct Connection {
    pub address: String,
    pub channel: String,
}

/// The key that toggles playback on every peer, and the key pressed here to
/// toggle the local player.
#[derive(Clone, Copy, Debug, PartialEq, Eq, Structural)]
pub struct Keys {
    pub toggle: Key,
    pub playback: Key,
}

/// What the configuration refuses.
#[derive(Clone, Copy, Debug, PartialEq, Eq, Structural)]
pub enum ConfigError {
    /// The playback key is the toggle key: a simulated press would be taken
    /// for a local toggle.
    SameToggleAndPlaybackKey,
    /// The log level names no level.
    InvalidLogLevel,
}

/// The text shown for an error.
pub open spec fn config_error_message(e: ConfigError) -> Seq<char> {
    match e {
        ConfigError::SameToggleAndPlaybackKey => "playback and toggle key must not be the same key"@,
        ConfigError::InvalidLogLevel => "error parsing level: expected one of \"error\", \"warn\", \"info\", \"debug\", \"trace\", or a number 1-5"@,
    }
}

impl ConfigError {
    /// The text shown for the error.
    pub fn message(&self) -> (s: String)
        ensures
            s@ == config_error_message(*self),
    {
        match self {
            ConfigError::SameToggleAndPlaybackKey => String::from_str(
                "playback and toggle key must not be the same key",
            ),
            ConfigError::InvalidLogLevel => String::from_str(
                "error parsing level: expected one of \"error\", \"warn\", \"info\", \"debug\", \"trace\", or a number 1-5",
            ),
        }
    }
}

/// How much the client logs.
#[derive(Clone, Copy, Debug, PartialEq, Eq, Structural)]
pub enum LogLevel {
    Error,
    Warn,
    Info,
    Debug,
    Trace,
}

/// The character with ASCII upper case letters made lower case.
pub open spec fn ascii_lower(c: char) -> char {
    if 'A' <= c && c <= 'Z' {
        ((c as u32) + 32) as char
    } else {
        c
    }
}

/// The same text, ASCII letters compared without case.
pub open spec fn same_ignoring_ascii_case(a: Seq<char>, b: Seq<char>) -> bool {
    a.len() == b.len() && forall|i: int| 0 <= i < a.len() ==> ascii_lower(a[i]) == ascii_lower(b[i])
}

/// The value of a run of decimal digits.
pub open spec fn decimal_value(d: Seq<char>) -> int
    decreases d.len(),
{
    if d.len() == 0 {
        0
    } else {
        decimal_value(d.drop_last()) * 10 + (d.last() as int - '0' as int)
    }
}

/// The value of an unsigned decimal number, as `usize::from_str` reads one
/// (an optional `+`, then at least one digit), without its upper bound.
pub open spec fn unsigned_number(s: Seq<char>) -> Option<int> {
    let d = if s.len() > 0 && s[0] == '+' {
        s.drop_first()
    } else {
        s
    };
    if d.len() > 0 && forall|i: int| 0 <= i < d.len() ==> '0' <= #[trigger] d[i] && d[i] <= '9' {
        Some(decimal_value(d))
    } else {
        None
    }
}

/// The level a text names: a number from 1 (error) to 5 (trace), or a level's
/// name in any ASCII case.
pub open spec fn level_of(s: Seq<char>) -> Option<LogLevel> {
    let n = unsigned_number(s);
    if n == Some(1int) {
        Some(LogLevel::Error)
    } else if n == Some(2int) {
        Some(LogLevel::Warn)
    } else if n == Some(3int) {
        Some(LogLevel::Info)
    } else if n == Some(4int) {
        Some(LogLevel::Debug)
    } else if n == Some(5int) {
        Some(LogLevel::Trace)
    } else if same_ignoring_ascii_case(s, "error"@) {
        Some(LogLevel::Error)
    } else if same_ignoring_ascii_case(s, "warn"@) {
        Some(LogLevel::Warn)
    } else if same_ignoring_ascii_case(s, "info"@) {
        Some(LogLevel::Info)
    } else if same_ignoring_ascii_case(s, "debug"@) {
        Some(LogLevel::Debug)
    } else if same_ignoring_ascii_case(s, "trace"@) {
        Some(LogLevel::Trace)
    } else {
        None
    }
}

/// `tracing::Level::from_str` (through `str::parse`): it reads `s` as a `usize` from 1 (error) to 5
/// (trace), else as a level's name compared without ASCII case; anything
/// else is an error, here `None`.
#[verifier::external_body]
fn tracing_level(s: &str) -> (r: Option<LogLevel>)
    ensures
        r == level_of(s@),
{
    match s.parse::<tracing::Level>() {
        Ok(tracing::Level::ERROR) => Some(LogLevel::Error),
        Ok(tracing::Level::WARN) => Some(LogLevel::Warn),
        Ok(tracing::Level::INFO) => Some(LogLevel::Info),
        Ok(tracing::Level::DEBUG) => Some(LogLevel::Debug),
        Ok(tracing::Level::TRACE) => Some(LogLevel::Trace),
        Ok(_) => None,
        Err(_) => None,
    }
}

/// The level a configured log level names, as the logger reads it.
pub fn parse_log_level(s: &str) -> (r: Option<LogLevel>)
    ensures
        r == level_of(s@),
{
    tracing_level(s)
}

impl Keys {
    /// The keys used when the configuration names none, on `platform`.
    pub fn default_for(platform: Platform) -> (k: Keys)
        ensures
            k.toggle == Key::Space,
            k.playback == spec_default_playback_key(platform),
    {
        Keys { toggle: default_toggle_key(), playback: default_playback_key(platform) }
    }

    /// Refuses a playback key equal to the toggle key.
    pub fn check(&self) -> (r: Result<(), ConfigError>)
        ensures
            r is Err <==> self.playback == self.toggle,
            r matches Err(e) ==> e == ConfigError::SameToggleAndPlaybackKey,
    {
        if self.playback == self.toggle {
            Err(ConfigError::SameToggleAndPlaybackKey)
        } else {
            Ok(())
        }
    }
}

/// The default keys pass the check on Windows and Linux, where the default
/// playback key is a media key, not the toggle key.
pub proof fn lemma_default_keys_differ(platform: Platform)
    requires
        platform != Platform::MacOs,
    ensures
        Key::Space != spec_default_playback_key(platform),
{
}

/// Which foreground window counts as the player, and when that matters.
/// `class` asks for that exact window class (the application's name on
/// macOS); `title_contains` asks for that text in the window's title.
#[derive(Clone, Debug)]
pub struct Condition {
    pub class: Option<String>,
    pub title_contains: Option<String>,
    pub block_trigger: bool,
    pub block_receive: bool,
}

impl Default for Condition {
    fn default() -> (c: Self)
        ensures
            c.class is None,
            c.title_contains is None,
            c.block_trigger,
            !c.block_receive,
    {
        Condition { class: None, title_contains: None, block_trigger: true, block_receive: false }
    }
}

/// The whole configuration.
#[derive(Clone, Debug)]
pub struct Config {
    pub log_level: String,
    pub keys: Keys,
    pub connection: Connection,
    pub condition: Condition,
}

impl Config {
    /// The checks made before connecting: the keys must differ, then the log
    /// level must name a level, which is returned.
    pub fn check(&self) -> (r: Result<LogLevel, ConfigError>)
        ensures
            self.keys.playback == self.keys.toggle ==> r == Err::<LogLevel, ConfigError>(
                ConfigError::SameToggleAndPlaybackKey,
            ),
            self.keys.playback != self.keys.toggle ==> r == match level_of(self.log_level@) {
                Some(l) => Ok::<LogLevel, ConfigError>(l),
                None => Err(ConfigError::InvalidLogLevel),
            },
    {
        if let Err(e) = self.keys.check() {
            return Err(e);
        }
        match parse_log_level(self.log_level.as_str()) {
            Some(l) => Ok(l),
            None => Err(ConfigError::InvalidLogLevel),
        }
    }
}

} // verus!
