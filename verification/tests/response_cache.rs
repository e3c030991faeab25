use inferno_cli::command::{CommandContext, Config};
use inferno_cli::response_cache::{
    benchmark_request_id, cache_test_entry, duplicate_test_entry, prepopulated_entries,
    validate_cache_settings, validate_hit_rate, validate_invalidate_pattern,
    validate_test_requests, CacheClear, CacheConfigure, CacheInvalidate, CacheSettingsConfig,
    CacheStats, CacheTest, HashAlgorithm, HashAlgorithmArg,
};

#[test]
fn response_cache_test_cache_test_validation_zero_requests() {
    let result = validate_test_requests(0);
    assert!(result.is_err());
    assert!(result.unwrap_err().to_string().contains("Request count must be at least 1"));
}

#[test]
fn response_cache_test_cache_test_validation_excessive_requests() {
    let result = validate_test_requests(20000);
    assert!(result.is_err());
    assert!(result.unwrap_err().to_string().contains("Request count cannot exceed 10000"));
}

#[test]
fn response_cache_test_cache_invalidate_validation_empty_pattern() {
    let result = validate_invalidate_pattern("");
    assert!(result.is_err());
    assert!(result.unwrap_err().to_string().contains("Pattern cannot be empty"));
}

#[test]
fn response_cache_test_cache_configure_validation_zero_entries() {
    let settings = CacheSettingsConfig {
        enabled: None,
        max_entries: Some(0),
        max_memory_mb: None,
        ttl_seconds: None,
        deduplication: None,
        compression: None,
        hash_algorithm: None,
    };
    let result = validate_cache_settings(&settings);
    assert!(result.is_err());
    assert!(result.unwrap_err().to_string().contains("Max entries must be at least 1"));
}

#[test]
fn test_benchmark_validation_hit_rate_exceeds_100() {
    let result = validate_hit_rate(150);
    assert!(result.is_err());
    assert!(result.unwrap_err().to_string().contains("Hit rate cannot exceed 100%"));
}

#[test]
fn test_cache_stats_validation() {
    let config = Config::default();
    let cmd = CacheStats::new(config.clone());
    let ctx = CommandContext::new(config);
    assert!(cmd.validate(&ctx).is_ok());
}

#[test]
fn response_cache_v2_test_cache_test_validation_zero_requests() {
    let config = Config::default();
    let cmd = CacheTest::new(config.clone(), 0, false, false);
    let ctx = CommandContext::new(config);
    let result = cmd.validate(&ctx);
    assert!(result.is_err());
    assert!(result.unwrap_err().to_string().contains("Request count must be at least 1"));
}

#[test]
fn response_cache_v2_test_cache_test_validation_excessive_requests() {
    let config = Config::default();
    let cmd = CacheTest::new(config.clone(), 20000, false, false);
    let ctx = CommandContext::new(config);
    let result = cmd.validate(&ctx);
    assert!(result.is_err());
    assert!(result.unwrap_err().to_string().contains("Request count cannot exceed 10000"));
}

#[test]
fn response_cache_v2_test_cache_invalidate_validation_empty_pattern() {
    let config = Config::default();
    let cmd = CacheInvalidate::new(config.clone(), String::new());
    let ctx = CommandContext::new(config);
    let result = cmd.validate(&ctx);
    assert!(result.is_err());
    assert!(result.unwrap_err().to_string().contains("Pattern cannot be empty"));
}

#[test]
fn response_cache_v2_test_cache_configure_validation_zero_entries() {
    let config = Config::default();
    let cmd = CacheConfigure::new(config.clone(), None, Some(0), None);
    let ctx = CommandContext::new(config);
    let result = cmd.validate(&ctx);
    assert!(result.is_err());
    assert!(result.unwrap_err().to_string().contains("Max entries must be at least 1"));
}

#[test]
fn request_count_bounds_are_inclusive() {
    assert!(validate_test_requests(1).is_ok());
    assert!(validate_test_requests(10000).is_ok());
    assert!(validate_test_requests(10001).is_err());
    assert!(validate_hit_rate(100).is_ok());
    assert!(validate_invalidate_pattern("user:*").is_ok());
}

#[test]
fn clear_and_configure_accept_their_arguments() {
    let config = Config::default();
    let ctx = CommandContext::new(config);
    assert!(CacheClear::new(config, Some("model:*".to_string())).validate(&ctx).is_ok());
    assert!(CacheConfigure::new(config, Some(true), Some(1), Some(60)).validate(&ctx).is_ok());
    assert!(CacheConfigure::new(config, None, None, None).validate(&ctx).is_ok());
}

#[test]
fn cache_test_uses_half_the_requests() {
    let config = Config::default();
    assert_eq!(CacheTest::new(config, 101, true, true).unique_requests(), 50);
    assert_eq!(CacheTest::new(config, 1, false, false).unique_requests(), 0);
}

#[test]
fn cache_test_entries() {
    let e = cache_test_entry(3);
    assert_eq!(e.prompt, "test request 3");
    assert_eq!(e.response, "Response for request 3".repeat(10));
    assert_eq!(e.token_count, 55);
    assert_eq!(e.processing_time_ms, 103);
    let e = cache_test_entry(12);
    assert_eq!(e.prompt, "test request 12");
    assert_eq!(e.token_count, 57);
    let d = duplicate_test_entry(4);
    assert_eq!(d.prompt, "duplicate request 4");
    assert_eq!(d.response, "This is duplicate content".repeat(50));
    assert_eq!(d.token_count, 312);
    assert_eq!(d.processing_time_ms, 150);
}

#[test]
fn benchmark_hits_and_misses_never_collide() {
    let entries = prepopulated_entries(1000, 30);
    assert_eq!(entries, 300);
    assert_eq!(benchmark_request_id(0, entries), 0);
    assert_eq!(benchmark_request_id(299, entries), 299);
    assert_eq!(benchmark_request_id(300, entries), 600);
    assert_eq!(benchmark_request_id(999, entries), 1299);
    assert_eq!(prepopulated_entries(7, 100), 7);
    assert_eq!(prepopulated_entries(7, 0), 0);
}

#[test]
fn hash_algorithm_from_argument() {
    assert_eq!(HashAlgorithm::from(HashAlgorithmArg::Sha256), HashAlgorithm::Sha256);
    assert_eq!(HashAlgorithm::from(HashAlgorithmArg::Blake3), HashAlgorithm::Blake3);
    assert_eq!(HashAlgorithm::from(HashAlgorithmArg::Xxhash), HashAlgorithm::Xxhash);
}
