//! Verified core of an NFL statistics dataset loader: a content-addressed
//! cache with TTL freshness, URL construction for the upstream data
//! repositories, the download-and-decode pipeline, and season/week
//! resolution by calendar arithmetic.

pub mod cache;
pub mod config;
pub mod dates;
pub mod downloader;
pub mod error;
pub mod frame;
pub mod paths;
pub mod schedule;
pub mod seasons;
pub mod text;
pub mod validate;

pub use cache::{cache_get, cache_set, clear_cache, make_cache_key, Cache, CacheEntry, MemoryCache};
pub use config::{get_config, update_config, CacheMode, Config, ConfigStore};
pub use dates::{
    current_season_of, current_week_of, first_monday_in_september, get_current_season,
    get_current_week_from_date, Date,
};
pub use downloader::{build_url, download_dataframe, download_nflverse, DataFormat, Repository};
pub use error::NflReadError;
pub use paths::{dec_str, season_path};
pub use schedule::{get_current_week_from_schedule, GameRow};
pub use seasons::{resolve_seasons, resolve_seasons_roster, Seasons};
