//! Context assembly for retrieval-augmented generation: a token-budgeted
//! context assembler, a resilient OCR decode path (cache, circuit breaker,
//! retry), a deduplicating fact store, and a policy-gated task orchestrator.
pub mod text;
pub mod token_budget;
pub mod context;
pub mod assembler;
pub mod vision;
pub mod decode_cache;
pub mod breaker;
pub mod ocr;
pub mod facts;
pub mod autodev;
pub mod tools;
pub mod estimator;
pub mod env;
pub mod hirag;
