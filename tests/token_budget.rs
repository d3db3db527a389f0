use ctxassembly::estimator::{TiktokenEstimator, TokenEstimator, WordBasedEstimator};
use ctxassembly::token_budget::{BudgetError, TokenBudgetConfig, TokenBudgetManager};

#[test]
fn test_default_config_is_valid() {
    let config = TokenBudgetConfig::default();
    assert!(config.validate().is_ok());
}

#[test]
fn test_budget_manager_creation() {
    let manager = TokenBudgetManager::default();
    assert!(manager.is_ok());
}

#[test]
fn token_budget_test_token_estimation() {
    let manager = TokenBudgetManager::default().unwrap();
    let text = "This is a test sentence with ten words in it.";
    let tokens = manager.estimate_tokens(text);
    assert!(tokens > 0);
    assert!(tokens < 20);
}

#[test]
fn test_budget_allocation_within_limit() {
    let manager = TokenBudgetManager::default().unwrap();
    let allocation = manager.allocate(700, 1200, 450, 3750, 1000);
    assert!(allocation.is_ok());
    let alloc = allocation.unwrap();
    assert_eq!(alloc.total_allocated, 7100);
    assert_eq!(alloc.remaining, 900);
}

#[test]
fn test_budget_allocation_exceeds_limit() {
    let manager = TokenBudgetManager::default().unwrap();
    let allocation = manager.allocate(1000, 2000, 1000, 5000, 2000);
    assert!(allocation.is_err());
}

#[test]
fn test_check_budget() {
    let manager = TokenBudgetManager::default().unwrap();
    assert!(manager.check_budget(7000).is_ok());
    assert!(manager.check_budget(9000).is_err());
}

#[test]
fn test_calculate_shrinkage() {
    let manager = TokenBudgetManager::default().unwrap();
    let shrinkage = manager.calculate_shrinkage(9000, 8000).unwrap();
    assert_eq!(shrinkage, 1000);
}

#[test]
fn test_recommended_snippet_count() {
    let manager = TokenBudgetManager::default().unwrap();
    let count = manager.recommended_snippet_count();
    assert!(count >= 8 && count <= 12);
    assert_eq!(count, 11);
}

#[test]
fn test_token_budget_config_defaults() {
    let config = TokenBudgetConfig::default();
    assert_eq!(config.system_tokens, 700);
    assert_eq!(config.running_brief, 1200);
    assert_eq!(config.recent_turns, 450);
    assert_eq!(config.retrieved_context, 3750);
    assert_eq!(config.completion, 1000);
    assert_eq!(config.max_total, 8000);
}

#[test]
fn test_token_budget_manager_integration() {
    let manager = TokenBudgetManager::default();
    assert!(manager.is_ok());
    let manager = manager.unwrap();
    let text = "This is a test sentence with multiple words.";
    let tokens = manager.estimate_tokens(text);
    assert!(tokens > 0);
    assert!(tokens < 20);
    assert!(manager.check_budget(7000).is_ok());
    assert!(manager.check_budget(9000).is_err());
    let allocation = manager.allocate(700, 1200, 450, 3750, 1000);
    assert!(allocation.is_ok());
    let alloc = allocation.unwrap();
    assert_eq!(alloc.total_allocated, 7100);
}

#[test]
fn default_components_fit_with_headroom() {
    let config = TokenBudgetConfig::default();
    let total = config.system_tokens
        + config.running_brief
        + config.recent_turns
        + config.retrieved_context
        + config.completion;
    assert_eq!(total, 7100);
    assert!(total * 100 <= config.max_total * 102);
}

#[test]
fn manager_enhanced_test_token_estimation() {
    let budget_manager = TokenBudgetManager::default().unwrap();
    let text = "This is a test sentence.";
    let tokens = budget_manager.estimate_tokens(text);
    assert!(tokens > 0);
}

#[test]
fn word_estimate_is_thirteen_tenths_rounded_down() {
    let manager = TokenBudgetManager::default().unwrap();
    assert_eq!(manager.estimate_tokens("This is a test sentence with ten words in it."), 13);
    assert_eq!(manager.estimate_tokens("one two three"), 3);
    assert_eq!(manager.estimate_tokens(""), 0);
    assert_eq!(manager.estimate_tokens("   \t\n "), 0);
}

#[test]
fn allocation_reports_remaining() {
    let manager = TokenBudgetManager::default().unwrap();
    let alloc = manager.allocate(100, 200, 300, 3000, 1000).unwrap();
    assert_eq!(alloc.total_allocated, 4600);
    assert_eq!(alloc.remaining, 3400);
    assert!(alloc.is_within_budget(8000));
}

#[test]
fn allocation_error_reports_used_and_max() {
    let manager = TokenBudgetManager::default().unwrap();
    let err = manager.allocate(1000, 2000, 1000, 5000, 2000).unwrap_err();
    assert_eq!(err, BudgetError::BudgetExceeded { used: 11000, max: 8000 });
}

#[test]
fn inconsistent_config_is_rejected() {
    let config = TokenBudgetConfig { max_total: 1000, ..TokenBudgetConfig::default() };
    assert_eq!(
        config.validate(),
        Err(BudgetError::ConfigurationInvalid { allocated: 7100, max: 1000 })
    );
    assert!(TokenBudgetManager::new(config).is_err());
}

#[test]
fn snippet_count_is_clamped() {
    let small = TokenBudgetManager::new(TokenBudgetConfig {
        retrieved_context: 100,
        ..TokenBudgetConfig::default()
    })
    .unwrap();
    assert_eq!(small.recommended_snippet_count(), 8);
    let big = TokenBudgetManager::new(TokenBudgetConfig {
        retrieved_context: 6000,
        max_total: 20000,
        ..TokenBudgetConfig::default()
    })
    .unwrap();
    assert_eq!(big.recommended_snippet_count(), 12);
}

#[test]
fn shrinkage_is_zero_when_it_fits() {
    let manager = TokenBudgetManager::default().unwrap();
    assert_eq!(manager.calculate_shrinkage(7000, 8000).unwrap(), 0);
}

#[test]
fn test_word_based_estimator() {
    let estimator = WordBasedEstimator::default();
    let text = "Hello world test";
    let tokens = estimator.estimate(text);
    assert_eq!(tokens, 4);
}

#[test]
fn test_tiktoken_estimator() {
    let estimator = TiktokenEstimator::new().unwrap();
    let text = "Hello, world! This is a test.";
    let tokens = estimator.estimate(text);
    assert!(tokens > 0);
    assert!(tokens < 20);
}

#[test]
fn test_batch_estimation() {
    let estimator = TiktokenEstimator::new().unwrap();
    let texts = vec!["Hello", "world", "test"];
    let tokens = estimator.estimate_batch(&texts);
    assert_eq!(tokens.len(), 3);
    assert!(tokens.iter().all(|&t| t > 0));
}

#[test]
fn manager_error_is_the_validation_error() {
    let config = TokenBudgetConfig { max_total: 1000, ..TokenBudgetConfig::default() };
    assert_eq!(
        TokenBudgetManager::new(config).err(),
        Some(BudgetError::ConfigurationInvalid { allocated: 7100, max: 1000 })
    );
}

#[test]
fn tokenizer_input_bound() {
    let estimator = TiktokenEstimator::new().unwrap();
    assert!(estimator.accepts_text("short text"));
    assert!(estimator.estimate_checked("Hello, world!").unwrap() > 0);
    let long = " ".repeat(ctxassembly::estimator::MAX_BPE_CHARS + 1);
    assert!(!estimator.accepts_text(&long));
    assert_eq!(estimator.estimate_checked(&long), None);
}
