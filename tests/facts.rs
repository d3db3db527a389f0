use ctxassembly::facts::{
    decide_insert, effective_limit, fact_from_record, filter_hits, needs_duplicate_check,
    validate_insert, validate_query, Fact, FactInsertRequest, FactQuery, FactStoreConfig,
    FactsApiError, InsertDecision, SourceAnchor,
};

fn request(subject: &str, confidence: i64) -> FactInsertRequest {
    FactInsertRequest {
        subject: subject.to_string(),
        predicate: "is_a".to_string(),
        object: "test".to_string(),
        datatype: None,
        source_doc: None,
        source_anchor: SourceAnchor::default(),
        confidence,
    }
}

#[test]
fn test_fact_creation() {
    let anchor = SourceAnchor::new().with_doc("doc_1".to_string(), Some(1));
    let fact = Fact::new(
        "Rust".to_string(),
        "is_a".to_string(),
        "programming_language".to_string(),
        anchor,
        950,
    );
    assert!(!fact.id.is_empty());
    assert!(!fact.hash.is_empty());
    assert_eq!(fact.confidence, 950);
    assert_eq!(fact.source_doc, Some("doc_1".to_string()));
}

#[test]
fn test_hash_computation() {
    let anchor1 = SourceAnchor::new().with_doc("doc_1".to_string(), Some(1));
    let anchor2 = SourceAnchor::new().with_doc("doc_1".to_string(), Some(1));
    let hash1 = Fact::compute_hash("A", "B", "C", &anchor1);
    let hash2 = Fact::compute_hash("A", "B", "C", &anchor2);
    assert_eq!(hash1, hash2);
}

#[test]
fn hash_is_sha256_of_the_canonical_text() {
    let anchor = SourceAnchor::new().with_doc("doc_1".to_string(), Some(1));
    assert_eq!(Fact::hash_input("A", "B", "C", &anchor), "A|B|C|doc_11");
    // SHA-256 of the empty anchor text "A|B|C|".
    let plain = Fact::compute_hash("A", "B", "C", &SourceAnchor::new());
    assert_eq!(plain.len(), 64);
    assert_ne!(plain, Fact::hash_input("A", "B", "C", &SourceAnchor::new()));
    assert_ne!(plain, Fact::compute_hash("A", "B", "D", &SourceAnchor::new()));
    let region = SourceAnchor::new().with_region("r7".to_string(), None);
    assert_eq!(Fact::hash_input("s", "p", "o", &region), "s|p|o|r7");
}

#[test]
fn hash_ignores_identity_fields() {
    let anchor = SourceAnchor::new().with_doc("doc_1".to_string(), Some(3));
    let a = Fact::with_identity("id-1".into(), "A".into(), "B".into(), "C".into(), anchor.clone(), 100, 1);
    let b = Fact::with_identity("id-2".into(), "A".into(), "B".into(), "C".into(), anchor, 900, 2);
    assert_eq!(a.hash, b.hash);
}

#[test]
fn test_confidence_clamping() {
    let fact = Fact::new("A".to_string(), "B".to_string(), "C".to_string(), SourceAnchor::new(), 1500);
    assert_eq!(fact.confidence, 1000);
    let low = Fact::new("A".to_string(), "B".to_string(), "C".to_string(), SourceAnchor::new(), -5);
    assert_eq!(low.confidence, 0);
}

#[test]
fn test_meets_threshold() {
    let fact = Fact::new("A".to_string(), "B".to_string(), "C".to_string(), SourceAnchor::new(), 850);
    assert!(fact.meets_threshold(800));
    assert!(!fact.meets_threshold(900));
}

#[test]
fn test_insert_fact_validation() {
    let request = request("", 950);
    assert!(request.subject.is_empty());
    let err = validate_insert(&request).unwrap_err();
    assert_eq!(err.code, "VALIDATION_ERROR");
}

#[test]
fn insert_validation_rules() {
    assert!(validate_insert(&request("Rust", 950)).is_ok());
    assert!(validate_insert(&request("Rust", -1)).is_err());
    assert!(validate_insert(&request("Rust", 1001)).is_err());
    assert!(validate_insert(&request("Rust", 0)).is_ok());
    assert!(validate_insert(&request("Rust", 1000)).is_ok());
}

#[test]
fn test_facts_config_defaults() {
    let config = FactStoreConfig::default();
    assert_eq!(config.collection_name, "facts");
    assert_eq!(config.dedup_enabled, true);
    assert_eq!(config.confidence_threshold, 800);
    assert_eq!(config.max_facts_per_query, 100);
}

#[test]
fn test_facts_config_validation() {
    let config = FactStoreConfig::default();
    assert_eq!(config.collection_name, "facts");
    assert_eq!(config.dedup_enabled, true);
    assert_eq!(config.confidence_threshold, 800);
    assert_eq!(config.max_facts_per_query, 100);
    assert!(config.confidence_threshold <= 1000);
    assert!(config.max_facts_per_query > 0);
    assert!(config.max_facts_per_query <= 1000);
}

#[test]
fn facts_api_error_keeps_code_and_message() {
    let e = FactsApiError::new("NOT_FOUND", "missing");
    assert_eq!(e.code, "NOT_FOUND");
    assert_eq!(e.message, "missing");
}

#[test]
fn duplicate_insert_returns_first_id() {
    let config = FactStoreConfig::default();
    assert!(needs_duplicate_check(&config));
    let anchor = SourceAnchor::new().with_doc("doc_1".to_string(), Some(1));
    let first = Fact::new("A".into(), "B".into(), "C".into(), anchor.clone(), 900);
    let first_id = first.id.clone();
    let first_hash = first.hash.clone();
    let mut store: Vec<(String, String)> = vec![];
    let lookup = |store: &Vec<(String, String)>, h: &str| store.iter().find(|(_, x)| x == h).map(|(i, _)| i.clone());
    match decide_insert(&config, first, lookup(&store, &first_hash)) {
        InsertDecision::Write(f, resp) => {
            assert!(!resp.duplicate);
            assert_eq!(resp.fact_id, first_id);
            store.push((f.id.clone(), f.hash.clone()));
        }
        _ => panic!("expected a write"),
    }
    let second = Fact::new("A".into(), "B".into(), "C".into(), anchor, 900);
    let h2 = second.hash.clone();
    match decide_insert(&config, second, lookup(&store, &h2)) {
        InsertDecision::Duplicate(resp) => {
            assert!(resp.duplicate);
            assert_eq!(resp.fact_id, first_id);
        }
        _ => panic!("expected a duplicate"),
    }
    let q = FactQuery { subject: Some("A".to_string()), ..FactQuery::default() };
    let hits: Vec<Fact> = store
        .iter()
        .map(|(id, h)| fact_from_record(Some(id.clone()), Some("A".into()), Some("B".into()), Some("C".into()), Some("doc_1".into()), Some(900), Some(0), Some(h.clone())).unwrap())
        .collect();
    assert_eq!(filter_hits(&config, &q, hits).len(), 1);
}

#[test]
fn low_confidence_insert_is_rejected() {
    let config = FactStoreConfig::default();
    let fact = Fact::new("A".into(), "B".into(), "C".into(), SourceAnchor::new(), 500);
    assert!(matches!(decide_insert(&config, fact, None), InsertDecision::Rejected(_)));
}

#[test]
fn dedup_disabled_writes_even_with_existing() {
    let config = FactStoreConfig { dedup_enabled: false, ..FactStoreConfig::default() };
    let fact = Fact::new("A".into(), "B".into(), "C".into(), SourceAnchor::new(), 900);
    assert!(matches!(decide_insert(&config, fact, Some("old".to_string())), InsertDecision::Write(_, _)));
}

#[test]
fn query_limit_rules() {
    let config = FactStoreConfig::default();
    let ok = FactQuery { limit: 100, ..FactQuery::default() };
    assert!(validate_query(&config, &ok).is_ok());
    let too_many = FactQuery { limit: 101, ..FactQuery::default() };
    assert_eq!(validate_query(&config, &too_many).unwrap_err().code, "VALIDATION_ERROR");
    let small = FactQuery { limit: 5, ..FactQuery::default() };
    assert_eq!(effective_limit(&config, &small), 5);
}

#[test]
fn records_missing_fields_are_dropped() {
    assert!(fact_from_record(Some("1".into()), None, Some("p".into()), Some("o".into()), None, Some(1), Some(0), Some("h".into())).is_none());
    let f = fact_from_record(Some("1".into()), Some("s".into()), Some("p".into()), Some("o".into()), None, Some(5000), Some(7), Some("h".into())).unwrap();
    assert_eq!(f.confidence, 1000);
    assert_eq!(f.observed_at, 7);
}

#[test]
fn query_filters_by_every_criterion() {
    let config = FactStoreConfig::default();
    let mk = |s: &str, c: u32| fact_from_record(Some(s.into()), Some(s.into()), Some("p".into()), Some("o".into()), Some("d".into()), Some(c), Some(0), Some("h".into())).unwrap();
    let hits = vec![mk("A", 900), mk("B", 900), mk("A", 100)];
    let q = FactQuery { subject: Some("A".into()), min_confidence: Some(500), ..FactQuery::default() };
    let r = filter_hits(&config, &q, hits);
    assert_eq!(r.len(), 1);
    assert_eq!(r[0].confidence, 900);
}

#[test]
fn filter_keeps_matches_in_order_up_to_the_limit() {
    let config = FactStoreConfig::default();
    let mk = |id: &str, s: &str| fact_from_record(Some(id.into()), Some(s.into()), Some("p".into()), Some("o".into()), None, Some(900), Some(0), Some("h".into())).unwrap();
    let hits = vec![mk("1", "A"), mk("2", "B"), mk("3", "A"), mk("4", "A")];
    let q = FactQuery { subject: Some("A".into()), limit: 2, ..FactQuery::default() };
    let ids: Vec<String> = filter_hits(&config, &q, hits).into_iter().map(|f| f.id).collect();
    assert_eq!(ids, vec!["1".to_string(), "3".to_string()]);
}

#[test]
fn hash_trims_the_triple_and_ids() {
    let a = SourceAnchor::new().with_doc(" doc_1 ".to_string(), Some(1));
    let b = SourceAnchor::new().with_doc("doc_1".to_string(), Some(1));
    assert_eq!(Fact::hash_input("  A ", "B\t", "\nC", &a), "A|B|C|doc_11");
    assert_eq!(Fact::compute_hash("  A ", "B\t", "\nC", &a), Fact::compute_hash("A", "B", "C", &b));
}
