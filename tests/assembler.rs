use ctxassembly::assembler::{
    summarize_step, summary_or_fallback, summary_prompt, LLMSummarizer, SummarizeStep,
    rank_sort, AdaptiveContextManager, ConcatenationSummarizer, ContextError, ContextPlan,
    Summarizer, SummarizerConfig, SummarizerError,
};
use ctxassembly::context::{ContextArtifact, ContextPriority, RelevanceScore};
use ctxassembly::hirag::{EnhancedHiRAGManager, RetrievedContext};
use ctxassembly::token_budget::{BudgetError, TokenBudgetConfig, TokenBudgetManager};
use std::cell::RefCell;
use std::collections::HashMap;

fn artifact(id: &str, priority: ContextPriority, task: u32, tokens: usize) -> ContextArtifact {
    ContextArtifact::new(
        id.to_string(),
        format!("content {}", id),
        HashMap::new(),
        priority,
        RelevanceScore::new(task, 0, 0, 0),
        tokens,
    )
}

/// Text of `n` words, which the word estimate counts as floor(1.3 n) tokens.
fn words(n: usize) -> String {
    vec!["w"; n].join(" ")
}

struct RecordingSummarizer {
    calls: RefCell<Vec<(usize, usize)>>,
}

impl Summarizer for &RecordingSummarizer {
    fn summarize(&self, texts: &Vec<String>, max_tokens: usize) -> Result<String, SummarizerError> {
        self.calls.borrow_mut().push((texts.len(), max_tokens));
        Ok("short summary".to_string())
    }
}

#[test]
fn test_adaptive_manager_creation() {
    let manager = AdaptiveContextManager::default();
    assert!(manager.is_ok());
}

#[test]
fn test_build_context_within_budget() {
    let manager = AdaptiveContextManager::default().unwrap();
    let system_prompt = "You are a helpful assistant.".to_string();
    let running_brief = "User is working on a Rust project.".to_string();
    let recent_turns = vec!["What is the syntax for async functions?".to_string()];
    let artifacts = vec![];
    let context = manager.build_context(system_prompt, running_brief, recent_turns, artifacts);
    assert!(context.is_ok());
    let ctx = context.unwrap();
    assert!(ctx.is_within_budget(8000));
}

#[test]
fn test_calculate_relevance() {
    let manager = AdaptiveContextManager::default().unwrap();
    let artifact = "This is a Rust async function example";
    let query = "async function syntax";
    let score = manager.calculate_relevance(artifact, query, 800, 600, 5);
    assert!(score.total > 0);
    assert!(score.total <= 10000);
    assert_eq!(score.task_relevance, 666);
    assert_eq!(score.reference_density, 500);
    assert_eq!(score.total, 4 * 666 + 2 * 800 + 2 * 600 + 2 * 500);
}

#[test]
fn test_adaptive_context_manager_integration() {
    let manager = AdaptiveContextManager::default();
    assert!(manager.is_ok());
    let manager = manager.unwrap();
    let artifact = "This is a Rust programming example";
    let query = "Rust programming";
    let score = manager.calculate_relevance(artifact, query, 800, 600, 5);
    assert!(score.total > 0);
    assert!(score.total <= 10000);
    assert!(score.task_relevance > 0);
    assert_eq!(score.task_relevance, 1000);
}

#[test]
fn test_prioritize_artifacts() {
    let artifacts = vec![
        ContextArtifact::new(
            "1".to_string(),
            "Low priority".to_string(),
            HashMap::new(),
            ContextPriority::Low,
            RelevanceScore::new(300, 200, 100, 100),
            50,
        ),
        ContextArtifact::new(
            "2".to_string(),
            "High priority".to_string(),
            HashMap::new(),
            ContextPriority::High,
            RelevanceScore::new(900, 800, 700, 600),
            50,
        ),
    ];
    let prioritized = rank_sort(artifacts);
    assert_eq!(prioritized[0].id, "2");
}

#[test]
fn rank_sort_is_stable_and_ordered() {
    let artifacts = vec![
        artifact("a", ContextPriority::Medium, 500, 1),
        artifact("b", ContextPriority::Critical, 100, 1),
        artifact("c", ContextPriority::Medium, 900, 1),
        artifact("d", ContextPriority::Medium, 500, 1),
        artifact("e", ContextPriority::Low, 1000, 1),
    ];
    let ids: Vec<String> = rank_sort(artifacts).into_iter().map(|a| a.id).collect();
    assert_eq!(ids, vec!["b", "c", "a", "d", "e"]);
}

#[test]
fn test_concatenation_summarizer() {
    let summarizer = ConcatenationSummarizer;
    let texts = vec!["Hello".to_string(), "World".to_string()];
    let result = summarizer.summarize(&texts, 100).unwrap();
    assert_eq!(result, "Hello\nWorld");
}

#[test]
fn test_summarizer_config_default() {
    let config = SummarizerConfig::default();
    assert_eq!(config.model, "gpt-3.5-turbo");
    assert_eq!(config.max_retries, 3);
}

#[test]
fn happy_assembly() {
    // 77 words -> 100 tokens, 154 -> 200, 231 -> 300.
    let manager = AdaptiveContextManager::default().unwrap();
    let arts: Vec<ContextArtifact> = (0..10)
        .map(|i| artifact(&format!("a{}", i), ContextPriority::Medium, 100 * i as u32, 300))
        .collect();
    let ctx = manager
        .build_context(words(77), words(154), vec![words(231)], arts)
        .unwrap();
    let a = &ctx.budget_allocation;
    assert_eq!(
        (a.system_tokens, a.running_brief, a.recent_turns, a.retrieved_context, a.completion),
        (100, 200, 300, 3000, 1000)
    );
    assert_eq!(a.total_allocated, 4600);
    assert_eq!(a.remaining, 3400);
    assert_eq!(ctx.retrieved_snippets.len(), 10);
    assert_eq!(ctx.retrieved_snippets[0].id, "a9");
    assert_eq!(ctx.retrieved_snippets[9].id, "a0");
    assert_eq!(ctx.recent_turns.len(), 1);
}

#[test]
fn overflow_triggers_summarization() {
    // 1539 words -> 2000 tokens.
    let budget = TokenBudgetManager::default().unwrap();
    let summarizer = RecordingSummarizer { calls: RefCell::new(vec![]) };
    let manager = AdaptiveContextManager::new(budget, &summarizer);
    let arts: Vec<ContextArtifact> = (0..12)
        .map(|i| artifact(&format!("a{}", i), ContextPriority::High, 10 * i as u32, 500))
        .collect();
    let turns = vec![words(231)];
    match manager.first_pass(words(77), words(1539), turns.clone(), arts.clone()) {
        ContextPlan::NeedsSummary(p) => {
            assert_eq!(p.texts.len(), 1);
            assert_eq!(p.target_tokens, 1200);
            assert_eq!(p.kept_turns, turns);
            // 11 snippets fit the default budget; two thirds of them, rounded up, stay.
            assert_eq!(p.artifacts.len(), 8);
        }
        ContextPlan::Ready(_) => panic!("expected an overflow"),
    }
    let ctx = manager.build_context(words(77), words(1539), turns, arts).unwrap();
    assert_eq!(*summarizer.calls.borrow(), vec![(1, 1200)]);
    assert_eq!(ctx.running_brief, "short summary");
    assert_eq!(ctx.recent_turns.len(), 1);
    assert_eq!(ctx.retrieved_snippets.len(), 8);
    assert!(ctx.budget_allocation.total_allocated <= 8000);
}

#[test]
fn overflow_that_still_does_not_fit_fails() {
    let manager = AdaptiveContextManager::default().unwrap();
    let arts: Vec<ContextArtifact> = (0..12)
        .map(|i| artifact(&format!("a{}", i), ContextPriority::High, 0, 2000))
        .collect();
    let r = manager.build_context(words(77), words(10), vec![words(10)], arts);
    assert_eq!(
        r.unwrap_err(),
        ContextError::Budget(BudgetError::BudgetExceeded { used: 17126, max: 8000 })
    );
}

#[test]
fn relevance_score_is_weighted_sum() {
    let s = RelevanceScore::new(1000, 1000, 1000, 1000);
    assert_eq!(s.total, 10000);
    let t = RelevanceScore::new(500, 0, 250, 1000);
    assert_eq!(t.total, 2000 + 0 + 500 + 2000);
    let clamped = RelevanceScore::new(5000, 0, 0, 0);
    assert_eq!(clamped.task_relevance, 1000);
    assert_eq!(clamped.total, 4000);
}

#[test]
fn test_enhanced_manager_creation() {
    let manager = EnhancedHiRAGManager::with_defaults(());
    assert!(manager.is_ok());
}

#[test]
fn retrieved_contexts_become_artifacts() {
    let manager = EnhancedHiRAGManager::with_defaults(()).unwrap();
    let mut meta = HashMap::new();
    meta.insert("source".to_string(), "doc".to_string());
    let contexts = vec![
        RetrievedContext { id: "x".to_string(), content: "Rust async code".to_string(), metadata: meta },
        RetrievedContext { id: "y".to_string(), content: "Unrelated".to_string(), metadata: HashMap::new() },
    ];
    let arts = manager.artifacts_from_retrieved("rust async", 4, contexts);
    assert_eq!(arts.len(), 2);
    assert_eq!(arts[0].relevance.task_relevance, 1000);
    assert_eq!(arts[0].relevance.recency, 1000);
    assert_eq!(arts[1].relevance.recency, 750);
    assert_eq!(arts[0].relevance.reference_density, 100);
    assert_eq!(arts[0].token_count, 3);
    let ctx = manager
        .build_adaptive_context("sys".to_string(), "brief".to_string(), vec![], arts)
        .unwrap();
    assert_eq!(ctx.retrieved_snippets[0].id, "x");
}

#[test]
fn budget_config_default_via_all_configs() {
    let token_budget = TokenBudgetConfig::default();
    assert!(token_budget.max_total > 0);
}

#[test]
fn summarizer_prompt_and_steps() {
    let texts = vec!["a".to_string(), "b".to_string()];
    assert_eq!(
        summary_prompt(&texts, 1200),
        "Summarize the following conversation turns into a concise running brief. Focus on key decisions, evidence, constraints, and open items. Keep the summary under 1200 tokens.\n\na\n\n---\n\nb"
    );
    let s = LLMSummarizer::new(SummarizerConfig::default());
    assert_eq!(s.start(&vec![]), SummarizeStep::Done(String::new()));
    assert_eq!(s.start(&texts), SummarizeStep::Call(0));
    let none = LLMSummarizer::new(SummarizerConfig { max_retries: 0, ..SummarizerConfig::default() });
    assert_eq!(none.start(&texts), SummarizeStep::Failed(SummarizerError::Unknown));
    let err = || Err(SummarizerError::NetworkError("down".into()));
    assert_eq!(summarize_step(0, 3, err()), SummarizeStep::RetryAfter(200, 1));
    assert_eq!(summarize_step(1, 3, err()), SummarizeStep::RetryAfter(400, 2));
    assert_eq!(summarize_step(2, 3, err()), SummarizeStep::Failed(SummarizerError::NetworkError("down".into())));
    assert_eq!(summarize_step(1, 3, Ok("s".into())), SummarizeStep::Done("s".into()));
    assert_eq!(summary_or_fallback(err(), &texts), "a\nb");
    assert_eq!(summary_or_fallback(Ok("x".into()), &texts), "x");
}

#[test]
fn hirag_overflow_is_summarized_by_concatenation() {
    let manager = EnhancedHiRAGManager::with_defaults(()).unwrap();
    let arts: Vec<ContextArtifact> = (0..12)
        .map(|i| artifact(&format!("a{}", i), ContextPriority::High, 10 * i as u32, 500))
        .collect();
    let ctx = manager
        .build_adaptive_context(words(77), words(1539), vec!["old turn".to_string(), words(231)], arts)
        .unwrap();
    assert_eq!(ctx.running_brief, format!("{}\nold turn", words(1539)));
    assert_eq!(ctx.recent_turns, vec![words(231)]);
    assert_eq!(ctx.retrieved_snippets.len(), 8);
    let big: Vec<ContextArtifact> = (0..12)
        .map(|i| artifact(&format!("b{}", i), ContextPriority::High, 0, 2000))
        .collect();
    let r = manager.build_adaptive_context(words(77), words(10), vec![words(10)], big);
    assert!(matches!(r, Err(ContextError::Budget(BudgetError::BudgetExceeded { max: 8000, .. }))));
}
