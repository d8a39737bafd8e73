//! Process-wide configuration: cache tier, cache directory, TTL, transport hints.
//!
//! The configuration is constructed once (defaults, optionally overridden by
//! the embedding program from the environment) and held in an explicitly
//! owned [`ConfigStore`]; callers may replace the whole value at any time.

use vstd::prelude::*;
use vstd::string::StringExecFns;
use crate::text::{seq_eq_fold, str_eq_fold};

verus! {

/// The three cache backends: in-memory map, on-disk directory, or disabled.
#[derive(Clone, Copy, Debug, PartialEq, Eq, Structural)]
pub enum CacheMode {
    Memory,
    Filesystem,
    Off,
}

/// The tier a selector string names: case-insensitive match of `memory`,
/// `filesystem` or `off`; anything else selects `Memory`.
pub open spec fn spec_cache_mode_of(s: Seq<char>) -> CacheMode {
    if seq_eq_fold(s, "memory"@) {
        CacheMode::Memory
    } else if seq_eq_fold(s, "filesystem"@) {
        CacheMode::Filesystem
    } else if seq_eq_fold(s, "off"@) {
        CacheMode::Off
    } else {
        CacheMode::Memory
    }
}

impl CacheMode {
    /// Parse a tier selector, case-insensitively; unrecognized values default
    /// to the in-memory tier.
    pub fn from_str(s: &str) -> (m: CacheMode)
        ensures
            m == spec_cache_mode_of(s@),
    {
        if str_eq_fold(s, "memory") {
            CacheMode::Memory
        } else if str_eq_fold(s, "filesystem") {
            CacheMode::Filesystem
        } else if str_eq_fold(s, "off") {
            CacheMode::Off
        } else {
            CacheMode::Memory
        }
    }
}

/// Relies on `dirs::cache_dir`: the platform's cache directory, if the
/// platform reports one. The result depends on the machine and environment,
/// so nothing is promised of it.
#[verifier::external_body]
fn os_cache_dir() -> (r: Option<String>) {
    dirs::cache_dir().map(|p| p.to_string_lossy().into_owned())
}

/// Process-wide settings consumed by the cache and the fetcher.
#[derive(Clone, Debug)]
pub struct Config {
    pub cache_mode: CacheMode,
    /// Directory of the filesystem cache tier; used only when
    /// `cache_mode == CacheMode::Filesystem`.
    pub cache_dir: String,
    /// TTL in seconds, applied uniformly to both cache tiers.
    pub cache_duration: u64,
    pub verbose: bool,
    /// Per-request network timeout in seconds.
    pub timeout: u64,
    pub user_agent: String,
}

impl Config {
    /// A field-by-field copy that is known to equal the original.
    pub fn duplicate(&self) -> (c: Config)
        ensures
            c == *self,
    {
        Config {
            cache_mode: self.cache_mode,
            cache_dir: self.cache_dir.clone(),
            cache_duration: self.cache_duration,
            verbose: self.verbose,
            timeout: self.timeout,
            user_agent: self.user_agent.clone(),
        }
    }
}

impl Default for Config {
    /// The defaults: in-memory tier, one-day TTL, two-minute timeout, quiet.
    fn default() -> (c: Config)
        ensures
            c.cache_mode == CacheMode::Memory,
            c.cache_duration == 86400,
            !c.verbose,
            c.timeout == 120,
            c.user_agent@ == "nflverse/nflreadrust"@,
    {
        let mut cache_dir = match os_cache_dir() {
            Some(d) => d,
            None => String::from_str("/tmp"),
        };
        cache_dir.append("/nflreadrust");
        Config {
            cache_mode: CacheMode::Memory,
            cache_dir,
            cache_duration: 86400,
            verbose: false,
            timeout: 120,
            user_agent: String::from_str("nflverse/nflreadrust"),
        }
    }
}

/// The owner of the one process-wide [`Config`] value.
pub struct ConfigStore {
    pub config: Config,
}

impl ConfigStore {
    pub fn new(config: Config) -> (s: ConfigStore)
        ensures
            s.config == config,
    {
        ConfigStore { config }
    }
}

/// A snapshot of the current configuration.
pub fn get_config(store: &ConfigStore) -> (c: Config)
    ensures
        c == store.config,
{
    store.config.duplicate()
}

/// Replace the whole configuration atomically; no partial-field mutation is
/// exposed.
pub fn update_config(store: &mut ConfigStore, config: Config)
    ensures
        final(store).config == config,
{
    store.config = config;
}

} // verus!
