use ctxassembly::breaker::{BreakerState, CircuitBreaker, CircuitBreakerConfig};
use ctxassembly::decode_cache::DecodeCache;
use ctxassembly::ocr::{calculate_backoff, decode_error_status, AttemptDecision, DecodeStart, DeepseekConfig, OcrDecoder, OcrError};
use ctxassembly::vision::{
    validate_index, validate_job_id, IndexRequest,
    should_use_ocr, validate_decode, validate_search, BoundingBox, DecodedRegion, FidelityLevel,
    VisionRequestError, VisionSearchRequest, VisionServiceConfig,
};
use std::collections::HashMap;
use std::time::Duration;

fn region(id: &str, text: &str, confidence: u32) -> DecodedRegion {
    DecodedRegion {
        region_id: id.to_string(),
        text: text.to_string(),
        fidelity: "10x".to_string(),
        confidence,
    }
}

#[test]
fn test_cache_store_and_get() {
    let mut cache = DecodeCache::new(60_000, 100);
    let fidelity = FidelityLevel::Balanced;
    let result = region("region1", "Hello World", 950);
    cache.store("region1", fidelity, result.clone(), 0);
    let retrieved = cache.get("region1", fidelity, 10);
    assert!(retrieved.is_some());
    assert_eq!(retrieved.unwrap().text, "Hello World");
}

#[test]
fn cache_test_cache_expiration() {
    let mut cache = DecodeCache::new(100, 100);
    let fidelity = FidelityLevel::Balanced;
    cache.store("region1", fidelity, region("region1", "Hello World", 950), 1_000);
    assert!(cache.get("region1", fidelity, 1_000).is_some());
    assert!(cache.get("region1", fidelity, 1_150).is_none());
}

#[test]
fn test_cache_split_hits() {
    let mut cache = DecodeCache::new(60_000, 100);
    let fidelity = FidelityLevel::Balanced;
    cache.store("region1", fidelity, region("region1", "Text 1", 950), 0);
    cache.store("region2", fidelity, region("region2", "Text 2", 900), 0);
    let region_ids = vec!["region1".to_string(), "region2".to_string(), "region3".to_string()];
    let (hits, misses) = cache.split_hits(&region_ids, fidelity, 5);
    assert_eq!(hits.len(), 2);
    assert_eq!(misses.len(), 1);
    assert_eq!(misses[0], "region3");
}

#[test]
fn test_cache_eviction() {
    let mut cache = DecodeCache::new(60_000, 2);
    let fidelity = FidelityLevel::Balanced;
    cache.store("region1", fidelity, region("region1", "Text 1", 950), 1);
    cache.store("region2", fidelity, region("region2", "Text 2", 900), 2);
    cache.store("region3", fidelity, region("region3", "Text 3", 850), 3);
    let stats = cache.stats(3);
    assert_eq!(stats.total_entries, 2);
    assert!(cache.get("region1", fidelity, 3).is_none());
    assert!(cache.get("region3", fidelity, 3).is_some());
}

#[test]
fn deepseek_integration_test_test_cache_expiration() {
    let mut cache = DecodeCache::new(1_000, 100);
    let fidelity = FidelityLevel::Balanced;
    cache.store("region1", fidelity, region("region1", "test", 900), 0);
    assert!(cache.get("region1", fidelity, 0).is_some());
    let stats = cache.stats(2_000);
    assert!(stats.expired_entries >= 1);
    assert!(cache.get("region1", fidelity, 2_000).is_none());
    assert_eq!(cache.stats(2_000).total_entries, 0);
}

#[test]
fn test_batch_cache_operations() {
    let mut cache = DecodeCache::new(600_000, 100);
    let fidelity = FidelityLevel::Balanced;
    let region_ids = vec!["region1".to_string(), "region2".to_string(), "region3".to_string()];
    cache.store("region1", fidelity, region("region1", "text1", 900), 0);
    cache.store("region2", fidelity, region("region2", "text2", 900), 0);
    let (hits, misses) = cache.split_hits(&region_ids, fidelity, 1);
    assert_eq!(hits.len(), 2);
    assert_eq!(misses.len(), 1);
    assert_eq!(misses[0], "region3");
    let stats = cache.stats(1);
    assert!(stats.total_entries >= 2);
}

#[test]
fn cache_keys_include_fidelity() {
    let mut cache = DecodeCache::new(60_000, 100);
    cache.store("r1", FidelityLevel::Balanced, region("r1", "X", 900), 0);
    assert!(cache.get("r1", FidelityLevel::Exact, 1).is_none());
    assert!(cache.get("r1", FidelityLevel::Balanced, 1).is_some());
}

#[test]
fn store_batch_and_clear_expired() {
    let mut cache = DecodeCache::new(100, 10);
    cache.store_batch(&vec![region("a", "A", 1), region("b", "B", 2)], FidelityLevel::High, 0);
    cache.store("c", FidelityLevel::High, region("c", "C", 3), 90);
    assert_eq!(cache.stats(120).valid_entries, 1);
    cache.clear_expired(120);
    assert_eq!(cache.stats(120).total_entries, 1);
    assert_eq!(cache.get("c", FidelityLevel::High, 120).unwrap().text, "C");
}

#[test]
fn test_circuit_breaker_closed_by_default() {
    let mut breaker = CircuitBreaker::default();
    assert!(!breaker.is_open("test_op", 0));
    assert_eq!(breaker.state("test_op"), BreakerState::Closed);
}

#[test]
fn test_circuit_breaker_opens_after_failures() {
    let config = CircuitBreakerConfig { failure_threshold: 3, reset_timeout_ms: 30_000 };
    let mut breaker = CircuitBreaker::new(config);
    breaker.mark_failure("test_op", 0);
    assert!(!breaker.is_open("test_op", 0));
    breaker.mark_failure("test_op", 1);
    assert!(!breaker.is_open("test_op", 1));
    breaker.mark_failure("test_op", 2);
    assert!(breaker.is_open("test_op", 2));
    assert_eq!(breaker.state("test_op"), BreakerState::Open);
}

#[test]
fn test_circuit_breaker_resets_on_success() {
    let config = CircuitBreakerConfig { failure_threshold: 3, reset_timeout_ms: 30_000 };
    let mut breaker = CircuitBreaker::new(config);
    breaker.mark_failure("test_op", 0);
    breaker.mark_failure("test_op", 0);
    breaker.mark_success("test_op");
    let stats = breaker.stats("test_op");
    assert_eq!(stats.state, BreakerState::Closed);
    assert_eq!(stats.failure_count, 0);
}

#[test]
fn test_circuit_breaker_half_open_after_timeout() {
    let config = CircuitBreakerConfig { failure_threshold: 2, reset_timeout_ms: 100 };
    let mut breaker = CircuitBreaker::new(config);
    breaker.mark_failure("test_op", 0);
    breaker.mark_failure("test_op", 0);
    assert!(breaker.is_open("test_op", 0));
    assert!(!breaker.is_open("test_op", 150));
    assert_eq!(breaker.state("test_op"), BreakerState::HalfOpen);
}

#[test]
fn test_circuit_breaker_stats() {
    let mut breaker = CircuitBreaker::default();
    breaker.mark_failure("test_op", 5);
    breaker.mark_failure("test_op", 6);
    let stats = breaker.stats("test_op");
    assert_eq!(stats.failure_count, 2);
    assert!(stats.last_failure.is_some());
}

#[test]
fn test_circuit_breaker_reset() {
    let mut breaker = CircuitBreaker::default();
    breaker.mark_failure("test_op", 0);
    breaker.mark_failure("test_op", 0);
    breaker.reset("test_op");
    let stats = breaker.stats("test_op");
    assert_eq!(stats.state, BreakerState::Closed);
    assert_eq!(stats.failure_count, 0);
}

#[test]
fn test_circuit_breaker_state_transitions() {
    let config = CircuitBreakerConfig { failure_threshold: 2, reset_timeout_ms: 100 };
    let mut breaker = CircuitBreaker::new(config);
    assert!(!breaker.is_open("test_op", 0));
    breaker.mark_failure("test_op", 0);
    breaker.mark_failure("test_op", 0);
    assert!(breaker.is_open("test_op", 0));
    assert!(!breaker.is_open("test_op", 150));
    breaker.mark_success("test_op");
    assert!(!breaker.is_open("test_op", 150));
}

#[test]
fn breakers_are_per_operation() {
    let mut breaker = CircuitBreaker::new(CircuitBreakerConfig { failure_threshold: 1, reset_timeout_ms: 10 });
    breaker.mark_failure("decode", 0);
    assert!(breaker.is_open("decode", 1));
    assert!(!breaker.is_open("index", 1));
    breaker.reset_all();
    assert!(!breaker.is_open("decode", 1));
}

#[test]
fn half_open_failure_reopens() {
    let mut breaker = CircuitBreaker::new(CircuitBreakerConfig { failure_threshold: 2, reset_timeout_ms: 100 });
    breaker.mark_failure("op", 0);
    breaker.mark_failure("op", 0);
    assert!(!breaker.is_open("op", 100));
    assert_eq!(breaker.state("op"), BreakerState::HalfOpen);
    breaker.mark_failure("op", 120);
    assert_eq!(breaker.state("op"), BreakerState::Open);
    assert!(breaker.is_open("op", 200));
    assert!(!breaker.is_open("op", 220));
}

#[test]
fn test_bbox_valid() {
    let bbox = BoundingBox { x: 100, y: 200, w: 400, h: 300 };
    assert!(bbox.is_valid(1920, 1080));
    assert!(bbox.validate(1920, 1080).is_ok());
}

#[test]
fn test_bbox_exceeds_width() {
    let bbox = BoundingBox { x: 1800, y: 200, w: 400, h: 300 };
    assert!(!bbox.is_valid(1920, 1080));
    assert!(bbox.validate(1920, 1080).is_err());
}

#[test]
fn test_bbox_exceeds_height() {
    let bbox = BoundingBox { x: 100, y: 900, w: 400, h: 300 };
    assert!(!bbox.is_valid(1920, 1080));
    assert!(bbox.validate(1920, 1080).is_err());
}

#[test]
fn test_bbox_overflow() {
    let bbox = BoundingBox { x: u32::MAX - 10, y: 0, w: 100, h: 100 };
    assert!(!bbox.is_valid(u32::MAX, u32::MAX));
}

#[test]
fn test_fidelity_level_default() {
    let fidelity = FidelityLevel::default();
    assert_eq!(fidelity.as_str(), "10x");
}

#[test]
fn fidelity_tags_round_trip() {
    for f in [FidelityLevel::Fast, FidelityLevel::Balanced, FidelityLevel::High, FidelityLevel::Exact] {
        assert_eq!(FidelityLevel::from_tag(f.as_str()), Some(f));
    }
    assert_eq!(FidelityLevel::from_tag("3x"), None);
}

#[test]
fn test_should_use_ocr_default() {
    assert!(should_use_ocr(None));
}

#[test]
fn test_should_use_ocr_explicit_true() {
    assert!(should_use_ocr(Some("true")));
}

#[test]
fn test_should_use_ocr_explicit_false() {
    assert!(!should_use_ocr(Some("false")));
}

#[test]
fn test_should_use_ocr_numeric() {
    assert!(should_use_ocr(Some("1")));
    assert!(!should_use_ocr(Some("0")));
}

#[test]
fn should_use_ocr_ignores_case() {
    assert!(should_use_ocr(Some("YES")));
    assert!(should_use_ocr(Some("On")));
    assert!(!should_use_ocr(Some("nope")));
}

#[test]
fn test_default_config_vision() {
    let config = VisionServiceConfig::default();
    assert_eq!(config.service_url, "http://localhost:8080");
    assert_eq!(config.timeout_ms, 5000);
    assert_eq!(config.max_regions_per_request, 16);
}

#[test]
fn deepseek_config_test_default_config() {
    let config = DeepseekConfig::default();
    assert!(config.enabled);
    assert_eq!(config.service_url, "http://localhost:8080");
    assert_eq!(config.timeout_ms, 5000);
    assert_eq!(config.max_regions_per_request, 16);
    assert!(config.log_redact_text);
}

#[test]
fn test_vision_config_defaults() {
    let config = DeepseekConfig::default();
    assert_eq!(config.service_url, "http://localhost:8080");
    assert_eq!(config.timeout_ms, 5000);
    assert_eq!(config.max_regions_per_request, 16);
    assert_eq!(config.default_fidelity, "10x");
}

#[test]
fn test_vision_config_validation() {
    let config = DeepseekConfig::default();
    assert_eq!(config.service_url, "http://localhost:8080");
    assert_eq!(config.timeout_ms, 5000);
    assert_eq!(config.max_regions_per_request, 16);
    assert_eq!(config.default_fidelity, "10x");
    assert!(config.timeout_ms >= 1000);
    assert!(config.timeout_ms <= 60000);
    assert!(config.max_regions_per_request > 0);
    assert!(config.max_regions_per_request <= 50);
}

#[test]
fn test_duration_conversions() {
    let config = DeepseekConfig::default();
    assert_eq!(Duration::from_millis(config.timeout()), Duration::from_millis(5000));
    assert_eq!(Duration::from_millis(config.cache_ttl()), Duration::from_secs(600));
    assert_eq!(Duration::from_millis(config.breaker_reset_timeout()), Duration::from_secs(30));
    assert_eq!(Duration::from_millis(config.retry_backoff()), Duration::from_millis(200));
}

fn env(pairs: &[(&str, &str)]) -> Vec<(String, String)> {
    pairs.iter().map(|(k, v)| (k.to_string(), v.to_string())).collect()
}

#[test]
fn deepseek_config_test_config_from_env() {
    let vars = env(&[
        ("DEEPSEEK_OCR_ENABLED", "false"),
        ("VISION_SERVICE_URL", "http://custom:9000"),
        ("VISION_API_KEY", "test-key"),
    ]);
    let config = DeepseekConfig::default().with_env(&vars);
    assert!(!config.enabled);
    assert_eq!(config.service_url, "http://custom:9000");
    assert_eq!(config.api_key, Some("test-key".to_string()));
}

#[test]
fn deepseek_integration_test_test_config_from_env() {
    let vars = env(&[
        ("DEEPSEEK_OCR_ENABLED", "false"),
        ("VISION_API_KEY", "test-key-123"),
        ("VISION_TIMEOUT_MS", "3000"),
    ]);
    let config = DeepseekConfig::default().with_env(&vars);
    assert!(!config.enabled);
    assert_eq!(config.api_key, Some("test-key-123".to_string()));
    assert_eq!(config.timeout_ms, 3000);
}

#[test]
fn env_values_that_do_not_parse_are_ignored() {
    let vars = env(&[
        ("VISION_TIMEOUT_MS", "fast"),
        ("DEEPSEEK_CACHE_SIZE", "+42"),
        ("VISION_RETRY_BACKOFF_MS", "10"),
        ("DEEPSEEK_RETRY_BACKOFF_MS", "20"),
        ("DEEPSEEK_OCR_ENABLED", "TRUE"),
    ]);
    let config = DeepseekConfig::default().with_env(&vars);
    assert_eq!(config.timeout_ms, 5000);
    assert_eq!(config.decode_cache_max_size, 42);
    assert_eq!(config.retry_backoff_ms, 20);
    assert!(config.enabled);
}

#[test]
fn test_calculate_backoff() {
    let config = DeepseekConfig::default();
    assert_eq!(calculate_backoff(config.retry_backoff_ms, 1), 200);
    assert_eq!(calculate_backoff(config.retry_backoff_ms, 2), 400);
    assert_eq!(calculate_backoff(config.retry_backoff_ms, 3), 800);
}

#[test]
fn backoff_saturates() {
    assert_eq!(calculate_backoff(u64::MAX / 2, 3), u64::MAX);
    assert_eq!(calculate_backoff(7, 200), u64::MAX);
    assert_eq!(calculate_backoff(0, 200), 0);
}

#[test]
fn test_disabled_client() {
    let mut config = DeepseekConfig::default();
    config.enabled = false;
    let mut decoder = OcrDecoder::new(config);
    let result = decoder.begin_decode(&vec!["region1".to_string()], FidelityLevel::Balanced, 0);
    assert!(matches!(result, DecodeStart::Rejected(OcrError::Disabled)));
}

#[test]
fn test_opt_out_via_config() {
    let mut config = DeepseekConfig::default();
    config.enabled = false;
    let mut decoder = OcrDecoder::new(config);
    match decoder.begin_decode(&vec!["region1".to_string()], FidelityLevel::Balanced, 0) {
        DecodeStart::Rejected(OcrError::Disabled) => {}
        _ => panic!("Expected Disabled error"),
    }
}

#[test]
fn decode_rejects_empty_and_oversized_requests() {
    let mut decoder = OcrDecoder::new(DeepseekConfig::default());
    assert!(matches!(
        decoder.begin_decode(&vec![], FidelityLevel::Balanced, 0),
        DecodeStart::Rejected(OcrError::InvalidRequest(VisionRequestError::NoRegions))
    ));
    let many: Vec<String> = (0..20).map(|i| format!("r_{}", i)).collect();
    assert!(matches!(
        decoder.begin_decode(&many, FidelityLevel::Balanced, 0),
        DecodeStart::Rejected(OcrError::InvalidRequest(VisionRequestError::TooManyRegions))
    ));
    assert_eq!(validate_decode(&many, 16), Err(VisionRequestError::TooManyRegions));
}

#[test]
fn search_validation() {
    let ok = VisionSearchRequest { query: "tables".to_string(), top_k: 50, filters: HashMap::new() };
    assert_eq!(validate_search(&ok), Ok(()));
    let too_many = VisionSearchRequest { query: "tables".to_string(), top_k: 51, filters: HashMap::new() };
    assert_eq!(validate_search(&too_many), Err(VisionRequestError::TopKTooLarge));
    let empty = VisionSearchRequest { query: String::new(), top_k: 10, filters: HashMap::new() };
    assert_eq!(validate_search(&empty), Err(VisionRequestError::EmptyQuery));
}

#[test]
fn test_decode_with_cache_hit() {
    let mut config = DeepseekConfig::default();
    config.decode_cache_ttl_secs = 600;
    let mut cache = DecodeCache::new(config.cache_ttl(), config.decode_cache_max_size);
    cache.store("r1", FidelityLevel::Balanced, region("r1", "X", 900), 0);
    let breaker = CircuitBreaker::new(CircuitBreakerConfig { failure_threshold: 5, reset_timeout_ms: 30_000 });
    let mut decoder = OcrDecoder::with_parts(config, cache, breaker);
    let ids = vec!["r1".to_string(), "r2".to_string()];
    let (hits, misses) = match decoder.begin_decode(&ids, FidelityLevel::Balanced, 10) {
        DecodeStart::Upstream { hits, misses } => (hits, misses),
        _ => panic!("expected an upstream call"),
    };
    assert_eq!(misses, vec!["r2".to_string()]);
    let upstream = vec![region("r2", "Y", 800)];
    let results = match decoder.after_attempt(1, Ok(upstream), 11) {
        AttemptDecision::Finished(r) => r,
        _ => panic!("expected results"),
    };
    let merged = decoder.finish_decode(hits, results, FidelityLevel::Balanced, 12);
    assert_eq!(merged.len(), 2);
    assert_eq!(merged.iter().find(|d| d.region_id == "r1").unwrap().text, "X");
    assert!(matches!(
        decoder.begin_decode(&ids, FidelityLevel::Balanced, 13),
        DecodeStart::Cached(ref v) if v.len() == 2
    ));
}

#[test]
fn test_circuit_breaker_triggering() {
    let mut config = DeepseekConfig::default();
    config.circuit_breaker_failures = 2;
    config.circuit_breaker_reset_secs = 30;
    config.retry_attempts = 0;
    let mut decoder = OcrDecoder::new(config);
    for (t, id) in [(0u64, "region1"), (1, "region2")] {
        match decoder.begin_decode(&vec![id.to_string()], FidelityLevel::Balanced, t) {
            DecodeStart::Upstream { .. } => {}
            _ => panic!("expected an upstream call"),
        }
        let d = decoder.after_attempt(1, Err(OcrError::UpstreamError("Status 500".to_string())), t);
        assert!(matches!(d, AttemptDecision::Failed(_)));
    }
    match decoder.begin_decode(&vec!["region3".to_string()], FidelityLevel::Balanced, 2) {
        DecodeStart::Rejected(OcrError::CircuitOpen(op)) => assert_eq!(op, "decode"),
        _ => panic!("Expected CircuitOpen error"),
    }
}

#[test]
fn circuit_opens_then_recovers() {
    let mut config = DeepseekConfig::default();
    config.circuit_breaker_failures = 2;
    config.retry_attempts = 0;
    let breaker = CircuitBreaker::new(CircuitBreakerConfig { failure_threshold: 2, reset_timeout_ms: 100 });
    let cache = DecodeCache::new(config.cache_ttl(), 100);
    let mut decoder = OcrDecoder::with_parts(config, cache, breaker);
    let ids = vec!["r9".to_string()];
    for t in [0u64, 10] {
        assert!(matches!(decoder.begin_decode(&ids, FidelityLevel::Balanced, t), DecodeStart::Upstream { .. }));
        decoder.after_attempt(1, Err(OcrError::Timeout("slow".to_string())), t);
    }
    assert!(matches!(
        decoder.begin_decode(&ids, FidelityLevel::Balanced, 20),
        DecodeStart::Rejected(OcrError::CircuitOpen(_))
    ));
    assert!(matches!(decoder.begin_decode(&ids, FidelityLevel::Balanced, 160), DecodeStart::Upstream { .. }));
    let d = decoder.after_attempt(1, Ok(vec![region("r9", "ok", 700)]), 161);
    assert!(matches!(d, AttemptDecision::Finished(_)));
    let stats = decoder.breaker().stats("decode");
    assert_eq!(stats.state, BreakerState::Closed);
    assert_eq!(stats.failure_count, 0);
}

#[test]
fn retries_back_off_then_fail() {
    let config = DeepseekConfig::default();
    let mut decoder = OcrDecoder::new(config);
    let e = || Err(OcrError::RequestFailed("refused".to_string()));
    assert!(matches!(decoder.after_attempt(1, e(), 0), AttemptDecision::RetryAfter(200)));
    assert!(matches!(decoder.after_attempt(2, e(), 0), AttemptDecision::RetryAfter(400)));
    assert!(matches!(decoder.after_attempt(3, e(), 0), AttemptDecision::Failed(OcrError::RequestFailed(_))));
}

#[test]
fn decode_error_statuses() {
    assert_eq!(decode_error_status(&OcrError::Disabled).0, 503);
    assert_eq!(decode_error_status(&OcrError::CircuitOpen("decode".to_string())).0, 503);
    assert_eq!(decode_error_status(&OcrError::Timeout("t".to_string())).0, 504);
    assert_eq!(decode_error_status(&OcrError::UpstreamError("u".to_string())).1, "UPSTREAM_ERROR");
    assert_eq!(decode_error_status(&OcrError::InvalidRequest(VisionRequestError::NoRegions)).0, 400);
}

#[test]
fn index_calls_share_the_breaker_under_their_label() {
    let mut config = DeepseekConfig::default();
    config.circuit_breaker_failures = 1;
    let mut decoder = OcrDecoder::new(config);
    assert_eq!(decoder.gate_call("index", 0), Ok(()));
    decoder.record_outcome("index", false, 0);
    assert_eq!(decoder.gate_call("index", 1), Err(OcrError::CircuitOpen("index".to_string())));
    assert_eq!(decoder.gate_call("status", 1), Ok(()));
    let mut off = DeepseekConfig::default();
    off.enabled = false;
    assert_eq!(OcrDecoder::new(off).gate_call("status", 0), Err(OcrError::Disabled));
}

#[test]
fn zero_capacity_cache_stores_nothing() {
    let mut cache = DecodeCache::new(60_000, 0);
    cache.store("r1", FidelityLevel::Balanced, region("r1", "X", 900), 0);
    assert_eq!(cache.stats(0).total_entries, 0);
    assert!(cache.get("r1", FidelityLevel::Balanced, 0).is_none());
}

#[test]
fn batch_store_reads_back_its_writes() {
    let mut cache = DecodeCache::new(60_000, 2);
    cache.store("A", FidelityLevel::Balanced, region("A", "a", 900), 100);
    cache.store_batch(&vec![region("B", "b", 900), region("C", "c", 900)], FidelityLevel::Balanced, 50);
    assert_eq!(cache.get("B", FidelityLevel::Balanced, 60).unwrap().text, "b");
    assert_eq!(cache.get("C", FidelityLevel::Balanced, 60).unwrap().text, "c");
    assert!(cache.get("A", FidelityLevel::Balanced, 60).is_none());
}

#[test]
fn validation_errors_map_to_validation_code() {
    let many: Vec<String> = (0..17).map(|i| format!("r{}", i)).collect();
    let e = validate_decode(&many, 16).unwrap_err();
    assert_eq!(decode_error_status(&OcrError::InvalidRequest(e)), (400, "VALIDATION_ERROR"));
    let e = validate_decode(&vec![], 16).unwrap_err();
    assert_eq!(decode_error_status(&OcrError::InvalidRequest(e)), (400, "VALIDATION_ERROR"));
    assert_eq!(decode_error_status(&OcrError::Disabled), (503, "UPSTREAM_DISABLED"));
    assert_eq!(decode_error_status(&OcrError::Timeout("t".into())), (504, "TIMEOUT"));
}

#[test]
fn index_and_job_requests_are_validated() {
    let empty = IndexRequest { doc_url: String::new(), metadata: HashMap::new(), force_reindex: false };
    assert_eq!(validate_index(&empty), Err(VisionRequestError::EmptyDocUrl));
    let ok = IndexRequest { doc_url: "s3://docs/test.pdf".to_string(), metadata: HashMap::new(), force_reindex: true };
    assert_eq!(validate_index(&ok), Ok(()));
    assert_eq!(validate_job_id(""), Err(VisionRequestError::EmptyJobId));
    assert_eq!(validate_job_id("job_123"), Ok(()));
}
