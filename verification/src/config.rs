//! The configuration value threaded through the orchestration loop, and the
//! validation that a loaded configuration must pass. Reading and writing the
//! on-disk file is the runtime's business; paths are carried as plain
//! strings.
use vstd::prelude::*;

verus! {

use vstd::string::StrSliceExecFns;

use crate::text::{chars_vec, starts_with, starts_with_chars};

/// A failure to load or validate the configuration.
pub enum ConfigError {
    /// No configuration directory exists for this user.
    NoConfigDir,
    /// No configuration file at this path.
    NotFound(String),
    /// The file could not be read; the message says why.
    ReadError(String),
    /// The file is not valid configuration syntax; the message says why.
    ParseError(String),
    /// The configuration is syntactically fine but unusable; the message
    /// says why.
    ValidationError(String),
}

pub struct ProwlarrConfig {
    pub url: String,
    pub apikey: String,
}

pub struct TmdbConfig {
    pub apikey: String,
}

pub struct SubtitlesConfig {
    pub enabled: bool,
    /// Preferred language code.
    pub language: String,
    /// Key for the external subtitle service, when configured.
    pub opensubtitles_api_key: Option<String>,
}

pub struct PlayerConfig {
    pub command: String,
    pub args: Vec<String>,
}

pub struct StorageConfig {
    /// Directory for the engine's temporary storage; a default is chosen at
    /// the edge when absent.
    pub temp_dir: Option<String>,
}

pub struct DiscordConfig {
    pub enabled: bool,
    pub app_id: Option<String>,
}

pub struct TraktConfig {
    pub enabled: bool,
    pub client_id: Option<String>,
    pub access_token: Option<String>,
}

pub struct ExtensionsConfig {
    pub discord: DiscordConfig,
    pub trakt: TraktConfig,
}

pub struct StreamingConfig {
    /// Admission width for racing; zero disables auto-racing.
    pub auto_race: u8,
}

pub struct Config {
    pub prowlarr: ProwlarrConfig,
    pub tmdb: Option<TmdbConfig>,
    pub player: PlayerConfig,
    pub storage: StorageConfig,
    pub extensions: ExtensionsConfig,
    pub subtitles: SubtitlesConfig,
    pub streaming: StreamingConfig,
}

pub fn default_subtitles_enabled() -> (r: bool)
    ensures
        r,
{
    true
}

pub fn default_subtitle_language() -> (r: String)
    ensures
        r@ == "en"@,
{
    String::from_str("en")
}

pub fn default_player_command() -> (r: String)
    ensures
        r@ == "mpv"@,
{
    String::from_str("mpv")
}

impl Default for SubtitlesConfig {
    fn default() -> (r: SubtitlesConfig)
        ensures
            r.enabled,
            r.language@ == "en"@,
            r.opensubtitles_api_key is None,
    {
        SubtitlesConfig {
            enabled: default_subtitles_enabled(),
            language: default_subtitle_language(),
            opensubtitles_api_key: None,
        }
    }
}

impl Default for PlayerConfig {
    fn default() -> (r: PlayerConfig)
        ensures
            r.command@ == "mpv"@,
            r.args@.len() == 0,
    {
        PlayerConfig { command: default_player_command(), args: Vec::new() }
    }
}

impl Default for StorageConfig {
    fn default() -> (r: StorageConfig)
        ensures
            r.temp_dir is None,
    {
        StorageConfig { temp_dir: None }
    }
}

impl Default for DiscordConfig {
    fn default() -> (r: DiscordConfig)
        ensures
            !r.enabled,
            r.app_id is None,
    {
        DiscordConfig { enabled: false, app_id: None }
    }
}

impl Default for TraktConfig {
    fn default() -> (r: TraktConfig)
        ensures
            !r.enabled,
            r.client_id is None,
            r.access_token is None,
    {
        TraktConfig { enabled: false, client_id: None, access_token: None }
    }
}

impl Default for ExtensionsConfig {
    fn default() -> (r: ExtensionsConfig)
        ensures
            !r.discord.enabled,
            !r.trakt.enabled,
    {
        ExtensionsConfig { discord: DiscordConfig::default(), trakt: TraktConfig::default() }
    }
}

impl Default for StreamingConfig {
    fn default() -> (r: StreamingConfig)
        ensures
            r.auto_race == 0,
    {
        StreamingConfig { auto_race: 0 }
    }
}

impl Default for Config {
    fn default() -> (r: Config)
        ensures
            r.prowlarr.url@ == "http://localhost:9696"@,
            r.prowlarr.apikey@.len() == 0,
            r.tmdb is None,
            r.player.command@ == "mpv"@,
            r.storage.temp_dir is None,
            !r.extensions.discord.enabled,
            !r.extensions.trakt.enabled,
            r.subtitles.enabled,
            r.streaming.auto_race == 0,
    {
        Config {
            prowlarr: ProwlarrConfig {
                url: String::from_str("http://localhost:9696"),
                apikey: String::new(),
            },
            tmdb: None,
            player: PlayerConfig::default(),
            storage: StorageConfig::default(),
            extensions: ExtensionsConfig::default(),
            subtitles: SubtitlesConfig::default(),
            streaming: StreamingConfig::default(),
        }
    }
}

/// `s` without its trailing slashes.
pub open spec fn without_trailing_slashes(s: Seq<char>) -> Seq<char>
    decreases s.len(),
{
    if s.len() > 0 && s.last() == '/' {
        without_trailing_slashes(s.drop_last())
    } else {
        s
    }
}

/// A configuration is usable when the indexer-search URL is non-empty and,
/// with trailing slashes removed, starts with `http://` or `https://`, and
/// its key is non-empty. The trimming matters: a bare `"http://"` trims to
/// `"http:"` and is rejected.
pub open spec fn config_valid(c: Config) -> bool {
    &&& c.prowlarr.url@.len() > 0
    &&& (starts_with(without_trailing_slashes(c.prowlarr.url@), "http://"@) || starts_with(
        without_trailing_slashes(c.prowlarr.url@),
        "https://"@,
    ))
    &&& c.prowlarr.apikey@.len() > 0
}

impl Config {
    /// Check that the configuration can drive a session. Returns the unit
    /// exactly when [`config_valid`] holds, and the validation failure
    /// otherwise.
    pub fn validate(&self) -> (r: Result<(), ConfigError>)
        ensures
            r is Ok <==> config_valid(*self),
            r is Err ==> r->Err_0 is ValidationError,
    {
        if self.prowlarr.url.as_str().unicode_len() == 0 {
            return Err(
                ConfigError::ValidationError(String::from_str("prowlarr.url cannot be empty")),
            );
        }
        let url = chars_vec(self.prowlarr.url.as_str());
        let mut end: usize = url.len();
        proof {
            assert(url@.take(end as int) =~= url@);
        }
        while end > 0 && url[end - 1] == '/'
            invariant
                end <= url@.len(),
                without_trailing_slashes(url@) == without_trailing_slashes(
                    url@.take(end as int),
                ),
            decreases end,
        {
            proof {
                assert(url@.take(end as int).last() == url@[end - 1]);
                assert(url@.take(end as int).drop_last() =~= url@.take(end - 1));
            }
            end = end - 1;
        }
        let mut trimmed: Vec<char> = Vec::new();
        let mut i: usize = 0;
        while i < end
            invariant
                i <= end <= url@.len(),
                trimmed@ == url@.take(end as int).take(i as int),
            decreases end - i,
        {
            trimmed.push(url[i]);
            i += 1;
            proof {
                assert(trimmed@ =~= url@.take(end as int).take(i as int));
            }
        }
        proof {
            if end > 0 {
                assert(url@.take(end as int).last() == url@[end - 1]);
            }
            assert(url@.take(end as int).take(end as int) =~= url@.take(end as int));
            assert(without_trailing_slashes(url@) == url@.take(end as int));
        }
        if !(starts_with_chars(&trimmed, &chars_vec("http://")) || starts_with_chars(
            &trimmed,
            &chars_vec("https://"),
        )) {
            return Err(
                ConfigError::ValidationError(
                    String::from_str("prowlarr.url must start with http:// or https://"),
                ),
            );
        }
        if self.prowlarr.apikey.as_str().unicode_len() == 0 {
            return Err(
                ConfigError::ValidationError(String::from_str("prowlarr.apikey cannot be empty")),
            );
        }
        Ok(())
    }
}

} // verus!
