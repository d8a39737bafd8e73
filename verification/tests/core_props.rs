use nflreadrust::cache::{entry_is_fresh, fs_cache_file_name};
use nflreadrust::dates::{current_season_of, current_week_of, get_current_week_from_date};
use nflreadrust::seasons::Seasons;
use nflreadrust::text::{str_contains, str_ends_with, str_eq, str_eq_fold};
use nflreadrust::validate::{
    ff_rankings_file, participation_max_season, validate_ff_stat_type, validate_model_version,
    validate_nextgen_stat_type, validate_pfr_stat_type, validate_pfr_summary_level,
    validate_stats_summary_level,
};
use nflreadrust::{
    build_url, cache_get, cache_set, clear_cache, dec_str, download_dataframe,
    first_monday_in_september, get_current_season, get_current_week_from_schedule, make_cache_key,
    resolve_seasons, resolve_seasons_roster, season_path, Cache, CacheMode, Config, ConfigStore,
    DataFormat, Date, GameRow, NflReadError, Repository,
};
use polars::prelude::{Column, DataFrame};

fn sample_table() -> DataFrame {
    let seasons = Column::new("season".into(), vec![2023i32, 2023, 2024]);
    let weeks = Column::new("week".into(), vec![1i32, 2, 1]);
    DataFrame::new(3, vec![seasons, weeks]).unwrap()
}

// Key derivation: deterministic, and the documented MD5 hex digests.
#[test]
fn cache_key_is_md5_hex_of_url() {
    assert_eq!(make_cache_key(""), "d41d8cd98f00b204e9800998ecf8427e");
    assert_eq!(make_cache_key("abc"), "900150983cd24fb0d6963f7d28e17f72");
}

#[test]
fn cache_key_deterministic_and_separating() {
    let url = "https://github.com/nflverse/nflverse-data/releases/download/teams/teams.parquet";
    assert_eq!(make_cache_key(url), make_cache_key(url));
    assert_ne!(make_cache_key(url), make_cache_key("https://example.org/other"));
}

// Cache round trip on the memory tier: set then get returns an equal table.
#[test]
fn memory_cache_round_trip() {
    let mut cache = Cache::new(CacheMode::Memory, 3600);
    let table = sample_table();
    cache_set(&mut cache, "k1", table.clone(), 1000);
    let got = cache_get(&cache, "k1", 1000).expect("fresh entry should be served");
    assert_eq!(got, table);
}

// The Off tier neither stores nor serves.
#[test]
fn off_tier_never_hits() {
    let mut cache = Cache::new(CacheMode::Off, 3600);
    cache_set(&mut cache, "k1", sample_table(), 1000);
    assert!(cache_get(&cache, "k1", 1000).is_none());
}

// TTL expiry: after `duration` seconds the entry is no longer served,
// though it was never cleared.
#[test]
fn ttl_expiry_hides_stale_entry() {
    let mut cache = Cache::new(CacheMode::Memory, 3600);
    cache_set(&mut cache, "k1", sample_table(), 1000);
    assert!(cache_get(&cache, "k1", 4599).is_some());
    assert!(cache_get(&cache, "k1", 4600).is_none());
    assert!(cache_get(&cache, "k1", 9999).is_none());
}

// A full clear empties the cache.
#[test]
fn clear_all_empties_cache() {
    let mut cache = Cache::new(CacheMode::Memory, 3600);
    cache_set(&mut cache, "k1", sample_table(), 1000);
    cache_set(&mut cache, "k2", sample_table(), 1000);
    clear_cache(&mut cache, None);
    assert!(cache_get(&cache, "k1", 1000).is_none());
    assert!(cache_get(&cache, "k2", 1000).is_none());
}

// A selective clear removes exactly the keys containing the pattern.
#[test]
fn clear_pattern_removes_only_matching_keys() {
    let mut cache = Cache::new(CacheMode::Memory, 3600);
    cache_set(&mut cache, "abcxyz", sample_table(), 1000);
    cache_set(&mut cache, "qrstuv", sample_table(), 1000);
    clear_cache(&mut cache, Some("bcx"));
    assert!(cache_get(&cache, "abcxyz", 1000).is_none());
    assert!(cache_get(&cache, "qrstuv", 1000).is_some());
}

// Overwriting a key replaces its entry and timestamp.
#[test]
fn set_overwrites_entry() {
    let mut cache = Cache::new(CacheMode::Memory, 100);
    cache_set(&mut cache, "k", sample_table(), 1000);
    let newer = DataFrame::new(1, vec![Column::new("season".into(), vec![2025i32])]).unwrap();
    cache_set(&mut cache, "k", newer.clone(), 2000);
    let got = cache_get(&cache, "k", 2050).expect("rewritten entry is fresh again");
    assert_eq!(got, newer);
}

#[test]
fn freshness_rule_boundaries() {
    assert!(entry_is_fresh(1000, 1000, 1));
    assert!(!entry_is_fresh(1001, 1000, 1));
    assert!(entry_is_fresh(1000, 999, 2));
    assert!(!entry_is_fresh(1000, 999, 1));
    // a timestamp in the future counts as fresh
    assert!(entry_is_fresh(1000, 2000, 1));
}

#[test]
fn fs_file_name_appends_parquet() {
    assert_eq!(fs_cache_file_name("deadbeef"), "deadbeef.parquet");
}

// URL construction and its idempotent suffixing.
#[test]
fn build_url_appends_extension() {
    assert_eq!(
        build_url(Repository::NflverseData, "teams/teams_colors_logos", DataFormat::Parquet),
        "https://github.com/nflverse/nflverse-data/releases/download/teams/teams_colors_logos.parquet"
    );
    assert_eq!(
        build_url(Repository::Dynastyprocess, "db_playerids.csv", DataFormat::Csv),
        "https://github.com/dynastyprocess/data/raw/master/files/db_playerids.csv"
    );
}

#[test]
fn build_url_suffixing_is_idempotent() {
    assert_eq!(
        build_url(Repository::NflverseData, "x.parquet", DataFormat::Parquet),
        build_url(Repository::NflverseData, "x", DataFormat::Parquet)
    );
    assert_eq!(
        build_url(Repository::Espnscraper, "y.csv", DataFormat::Csv),
        build_url(Repository::Espnscraper, "y", DataFormat::Csv)
    );
    // an already-suffixed path is never double-suffixed
    assert_eq!(
        build_url(Repository::Ffopportunity, "a/b.csv", DataFormat::Parquet),
        "https://github.com/ffverse/ffopportunity/releases/download/a/b.csv"
    );
}

// A decode failure surfaces as a decode error and caches nothing: the body
// of an unreachable URL never arrives, and garbage bytes never decode, so
// only the error paths run without a network.
#[test]
fn download_failure_is_reported_not_cached() {
    let mut cache = Cache::new(CacheMode::Memory, 3600);
    let config = Config {
        cache_mode: CacheMode::Memory,
        cache_dir: String::new(),
        cache_duration: 3600,
        verbose: false,
        timeout: 1,
        user_agent: "test".to_string(),
    };
    let r = download_dataframe(&mut cache, &config, "http://127.0.0.1:9/none", DataFormat::Parquet, 0);
    assert!(matches!(r, Err(NflReadError::Http(_))));
    // the failed fetch stored nothing
    let key = make_cache_key("http://127.0.0.1:9/none");
    assert!(cache_get(&cache, &key, 0).is_none());
}

// A cached entry answers a repeated fetch without any network activity:
// the URL is unreachable, so only the cache can have produced the table.
#[test]
fn second_fetch_is_served_from_cache() {
    let mut cache = Cache::new(CacheMode::Memory, 3600);
    let config = Config::default();
    let url = "http://127.0.0.1:9/unreachable";
    let key = make_cache_key(url);
    let table = sample_table();
    cache_set(&mut cache, &key, table.clone(), 500);
    let got = download_dataframe(&mut cache, &config, url, DataFormat::Parquet, 600)
        .expect("a fresh cached table answers the fetch");
    assert_eq!(got, table);
}

// Season resolution.
#[test]
fn resolve_none_is_current_season() {
    let years = resolve_seasons(None, 1999).unwrap();
    assert_eq!(years, vec![get_current_season(false)]);
}

#[test]
fn resolve_none_roster_is_current_roster_season() {
    let years = resolve_seasons_roster(None, 1920).unwrap();
    assert_eq!(years, vec![get_current_season(true)]);
}

#[test]
fn resolve_list_keeps_order_and_duplicates() {
    let years = resolve_seasons(Some(vec![2022, 2023]), 1999).unwrap();
    assert_eq!(years, vec![2022, 2023]);
    let dup = resolve_seasons(Some(vec![2023, 2023, 2022]), 1999).unwrap();
    assert_eq!(dup, vec![2023, 2023, 2022]);
}

#[test]
fn resolve_rejects_year_below_first_season() {
    let r = resolve_seasons(Some(vec![2022, 1990, 2023]), 1999);
    assert!(matches!(r, Err(NflReadError::InvalidSeason { season: 1990, first_season: 1999 })));
    // future years are accepted as-is
    let future = resolve_seasons(Some(vec![2999]), 1999).unwrap();
    assert_eq!(future, vec![2999]);
}

#[test]
fn resolve_single_and_all_with_given_current() {
    let single = Seasons::Single(2010).resolve_with_current(1999, 2023).unwrap();
    assert_eq!(single, vec![2010]);
    assert!(matches!(
        Seasons::Single(1990).resolve_with_current(1999, 2023),
        Err(NflReadError::InvalidSeason { season: 1990, first_season: 1999 })
    ));
    let all = Seasons::All.resolve_with_current(2020, 2023).unwrap();
    assert_eq!(all, vec![2020, 2021, 2022, 2023]);
    assert!(matches!(
        Seasons::All.resolve_with_current(2025, 2023),
        Err(NflReadError::InvalidSeason { season: 2023, first_season: 2025 })
    ));
    let current = Seasons::Current.resolve_with_current(1999, 2023).unwrap();
    assert_eq!(current, vec![2023]);
}

// Calendar arithmetic.
#[test]
fn first_monday_in_september_known_years() {
    assert_eq!(first_monday_in_september(1999).day, 6);
    assert_eq!(first_monday_in_september(2021).day, 6);
    assert_eq!(first_monday_in_september(2023).day, 4);
    assert_eq!(first_monday_in_september(2024).day, 2);
    assert_eq!(first_monday_in_september(2025).day, 1);
    assert_eq!(first_monday_in_september(2026).day, 7);
}

#[test]
fn current_season_cutoffs() {
    let d = |year: i32, month: u8, day: u8| Date { year, month, day };
    // schedule cutoff 2024: Thursday 5 September
    assert_eq!(current_season_of(&d(2024, 9, 4), false), 2023);
    assert_eq!(current_season_of(&d(2024, 9, 5), false), 2024);
    assert_eq!(current_season_of(&d(2024, 6, 1), false), 2023);
    assert_eq!(current_season_of(&d(2024, 12, 31), false), 2024);
    // roster cutoff: 15 March
    assert_eq!(current_season_of(&d(2024, 3, 14), true), 2023);
    assert_eq!(current_season_of(&d(2024, 3, 15), true), 2024);
    assert_eq!(current_season_of(&d(2024, 1, 1), true), 2023);
}

#[test]
fn date_based_week_values() {
    let d = |year: i32, month: u8, day: u8| Date { year, month, day };
    assert_eq!(current_week_of(&d(2024, 9, 5)), 1);
    assert_eq!(current_week_of(&d(2024, 9, 11)), 1);
    assert_eq!(current_week_of(&d(2024, 9, 12)), 2);
    assert_eq!(current_week_of(&d(2024, 12, 25)), 16);
    assert_eq!(current_week_of(&d(2025, 2, 1)), 22);
    // far past the season end, and before the season start, both clamp
    assert_eq!(current_week_of(&d(2025, 3, 1)), 22);
    assert_eq!(current_week_of(&d(2024, 8, 15)), 22);
}

#[test]
fn date_based_week_is_always_in_range() {
    let week = get_current_week_from_date();
    assert!((1..=22).contains(&week), "Week should be between 1 and 22, got {week}");
    // a sweep across a whole season's dates stays in range
    for month in 1u8..=12 {
        for day in [1u8, 11, 21, 28] {
            let w = current_week_of(&Date { year: 2024, month, day });
            assert!((1..=22).contains(&w));
        }
    }
}

// Schedule-based week resolution.
#[test]
fn schedule_week_picks_first_unplayed() {
    let rows = vec![
        GameRow { week: Some(1), result_missing: false },
        GameRow { week: Some(2), result_missing: false },
        GameRow { week: Some(3), result_missing: true },
        GameRow { week: Some(4), result_missing: true },
    ];
    assert_eq!(get_current_week_from_schedule(&rows), 3);
}

#[test]
fn schedule_week_season_complete_takes_max() {
    let rows = vec![
        GameRow { week: Some(20), result_missing: false },
        GameRow { week: Some(22), result_missing: false },
        GameRow { week: Some(21), result_missing: false },
    ];
    assert_eq!(get_current_week_from_schedule(&rows), 22);
}

#[test]
fn schedule_week_defaults() {
    // no rows at all: season complete, default 22
    let empty: Vec<GameRow> = vec![];
    assert_eq!(get_current_week_from_schedule(&empty), 22);
    // unplayed games but no week numbers: default 1
    let rows = vec![GameRow { week: None, result_missing: true }];
    assert_eq!(get_current_week_from_schedule(&rows), 1);
    // null weeks are skipped when taking the minimum
    let rows = vec![
        GameRow { week: None, result_missing: true },
        GameRow { week: Some(7), result_missing: true },
    ];
    assert_eq!(get_current_week_from_schedule(&rows), 7);
}

// Configuration.
#[test]
fn config_store_get_and_update() {
    let mut store = ConfigStore::new(Config::default());
    let mut c = nflreadrust::get_config(&store);
    assert_eq!(c.cache_mode, CacheMode::Memory);
    c.cache_mode = CacheMode::Off;
    c.timeout = 5;
    nflreadrust::update_config(&mut store, c);
    let c2 = nflreadrust::get_config(&store);
    assert_eq!(c2.cache_mode, CacheMode::Off);
    assert_eq!(c2.timeout, 5);
}

#[test]
fn config_default_names_cache_dir() {
    let c = Config::default();
    assert!(c.cache_dir.ends_with("/nflreadrust"));
    assert_eq!(c.user_agent, "nflverse/nflreadrust");
}

// Loader argument validation.
#[test]
fn nextgen_stat_types() {
    assert!(validate_nextgen_stat_type("passing").is_ok());
    assert!(validate_nextgen_stat_type("receiving").is_ok());
    assert!(validate_nextgen_stat_type("rushing").is_ok());
    assert!(matches!(
        validate_nextgen_stat_type("invalid"),
        Err(NflReadError::InvalidParameter(s)) if s == "invalid"
    ));
}

#[test]
fn ff_opportunity_arguments() {
    assert!(validate_ff_stat_type("weekly").is_ok());
    assert!(validate_ff_stat_type("pbp_pass").is_ok());
    assert!(validate_ff_stat_type("pbp_rush").is_ok());
    assert!(validate_ff_stat_type("monthly").is_err());
    assert!(validate_model_version("latest").is_ok());
    assert!(validate_model_version("v1.0.0").is_ok());
    assert!(validate_model_version("v2").is_err());
}

#[test]
fn pfr_arguments() {
    for t in ["pass", "rush", "rec", "def"] {
        assert!(validate_pfr_stat_type(t).is_ok());
    }
    assert!(validate_pfr_stat_type("invalid").is_err());
    assert!(validate_pfr_summary_level("week").is_ok());
    assert!(validate_pfr_summary_level("season").is_ok());
    assert!(validate_pfr_summary_level("invalid").is_err());
}

#[test]
fn stats_summary_levels() {
    for l in ["week", "reg", "post", "reg+post"] {
        assert!(validate_stats_summary_level(l).is_ok());
    }
    assert!(validate_stats_summary_level("invalid").is_err());
}

#[test]
fn ff_rankings_files() {
    assert_eq!(ff_rankings_file("draft").unwrap(), ("db_fpecr_latest.csv", DataFormat::Csv));
    assert_eq!(ff_rankings_file("week").unwrap(), ("fp_latest_weekly.csv", DataFormat::Csv));
    assert_eq!(ff_rankings_file("all").unwrap(), ("db_fpecr.parquet", DataFormat::Parquet));
    assert!(matches!(
        ff_rankings_file("invalid"),
        Err(NflReadError::InvalidParameter(s)) if s == "invalid"
    ));
}

#[test]
fn participation_season_gate() {
    assert_eq!(participation_max_season(2024, 22), 2024);
    assert_eq!(participation_max_season(2024, 10), 2023);
}

// Decimal rendering of season years.
#[test]
fn decimal_rendering() {
    assert_eq!(dec_str(0), "0");
    assert_eq!(dec_str(7), "7");
    assert_eq!(dec_str(1999), "1999");
    assert_eq!(dec_str(2023), "2023");
    assert_eq!(dec_str(4294967295), "4294967295");
    assert_eq!(season_path("pbp/play_by_play_", 2023), "pbp/play_by_play_2023");
    assert_eq!(season_path("rosters/roster_", 1920), "rosters/roster_1920");
}

// Text helpers.
#[test]
fn text_helpers() {
    assert!(str_eq("abc", "abc"));
    assert!(!str_eq("abc", "abd"));
    assert!(str_eq_fold("MEMORY", "memory"));
    assert!(str_eq_fold("Memory", "memory"));
    assert!(!str_eq_fold("memoryx", "memory"));
    assert!(str_ends_with("file.parquet", ".parquet"));
    assert!(!str_ends_with("file.parquet", ".csv"));
    assert!(str_contains("abcxyz", "bcx"));
    assert!(!str_contains("qrstuv", "bcx"));
    assert!(str_contains("anything", ""));
}
