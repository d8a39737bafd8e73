use nflreadrust::{
    clear_cache, get_current_season, resolve_seasons, Cache, CacheMode, Config, NflReadError,
};

#[test]
fn test_get_current_season_standard() {
    let season = get_current_season(false);
    assert!(season >= 2024);
    assert!(season <= 2030);
}

#[test]
fn test_get_current_season_roster() {
    let season = get_current_season(true);
    assert!(season >= 2024);
    assert!(season <= 2030);
}

#[test]
fn test_config_default() {
    let config = Config::default();
    assert_eq!(config.cache_mode, CacheMode::Memory);
    assert_eq!(config.cache_duration, 86400);
    assert!(!config.verbose);
    assert_eq!(config.timeout, 120);
}

#[test]
fn test_cache_mode_from_str() {
    assert_eq!(CacheMode::from_str("memory"), CacheMode::Memory);
    assert_eq!(CacheMode::from_str("filesystem"), CacheMode::Filesystem);
    assert_eq!(CacheMode::from_str("off"), CacheMode::Off);
    assert_eq!(CacheMode::from_str("MEMORY"), CacheMode::Memory);
    assert_eq!(CacheMode::from_str("unknown"), CacheMode::Memory);
}

#[test]
fn test_clear_cache() {
    // Should not panic
    let mut cache = Cache::new(CacheMode::Memory, 86400);
    clear_cache(&mut cache, None);
}

#[test]
fn test_invalid_season_before_first() {
    // PBP data starts in 1999
    let result = resolve_seasons(Some(vec![1990]), 1999);
    assert!(result.is_err());
    assert!(matches!(
        result,
        Err(NflReadError::InvalidSeason { season: 1990, first_season: 1999 })
    ));
}
