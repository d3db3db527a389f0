//! A hierarchical retrieval store wrapped with token-budget enforcement: the
//! base store retrieves, this layer scores, budgets and assembles.
use vstd::prelude::*;

use std::collections::HashMap;

use crate::assembler::{
    allocated_as, artifacts_tokens, keep_first, prioritized, shrink_target, text_tokens, turns_tokens,
    AdaptiveContext, AdaptiveContextManager, ConcatenationSummarizer, ContextError, ContextPlan,
};
use crate::text::join_spec;
use crate::token_budget::{sat_usize, snippet_count_for};
use crate::context::{ContextArtifact, ContextPriority};
use crate::text::lower_of;
use crate::token_budget::{BudgetError, TokenBudgetManager};

verus! {

/// A context as the base store returns it.
#[derive(Debug, Clone)]
pub struct RetrievedContext {
    pub id: String,
    pub content: String,
    pub metadata: HashMap<String, String>,
}

/// Default complexity of a retrieved context, in thousandths.
pub const DEFAULT_COMPLEXITY: u32 = 500;

/// Recency of the result at position `idx` of `max_results`:
/// `1 − idx / max_results`, in thousandths, floored at 0.
pub open spec fn position_recency(idx: usize, max_results: usize) -> u32 {
    if max_results == 0 || idx >= max_results {
        0
    } else {
        (1000 - (1000 * idx) / (max_results as int)) as u32
    }
}

fn recency_at(idx: usize, max_results: usize) -> (r: u32)
    ensures
        r == position_recency(idx, max_results),
        r <= 1000,
{
    if max_results == 0 || idx >= max_results {
        0
    } else {
        proof {
            assert(0 <= (1000 * idx) / (max_results as int) <= 1000) by (nonlinear_arith)
                requires
                    idx < max_results,
                    max_results > 0,
            ;
        }
        let q: u128 = (1000 * (idx as u128)) / (max_results as u128);
        (1000 - q) as u32
    }
}

/// Token-budgeted layer over a base retrieval store `B`.
pub struct EnhancedHiRAGManager<B> {
    base_manager: B,
    context_manager: AdaptiveContextManager<ConcatenationSummarizer>,
    budget_manager: TokenBudgetManager,
}

impl<B> EnhancedHiRAGManager<B> {
    pub closed spec fn spec_budget(&self) -> TokenBudgetManager {
        self.budget_manager
    }

    pub closed spec fn spec_context(&self) -> AdaptiveContextManager<ConcatenationSummarizer> {
        self.context_manager
    }

    pub fn new(
        base_manager: B,
        context_manager: AdaptiveContextManager<ConcatenationSummarizer>,
        budget_manager: TokenBudgetManager,
    ) -> (r: Self)
        ensures
            r.spec_budget() == budget_manager,
            r.spec_context() == context_manager,
    {
        EnhancedHiRAGManager { base_manager, context_manager, budget_manager }
    }

    /// The default budget for both the assembler and this layer.
    pub fn with_defaults(base_manager: B) -> (r: Result<Self, BudgetError>)
        ensures
            (r matches Ok(m) && m.spec_budget().spec_config().max_total == 8000
                && m.spec_context().spec_budget().spec_config().max_total == 8000),
    {
        let context_manager = match AdaptiveContextManager::default() {
            Ok(c) => c,
            Err(e) => {
                return Err(e);
            },
        };
        let budget_manager = match TokenBudgetManager::default() {
            Ok(b) => b,
            Err(e) => {
                return Err(e);
            },
        };
        Ok(EnhancedHiRAGManager { base_manager, context_manager, budget_manager })
    }

    pub fn budget_manager(&self) -> (r: &TokenBudgetManager)
        ensures
            *r == self.spec_budget(),
    {
        &self.budget_manager
    }

    pub fn context_manager(&self) -> (r: &AdaptiveContextManager<ConcatenationSummarizer>)
        ensures
            *r == self.spec_context(),
    {
        &self.context_manager
    }

    pub fn base_manager(&self) -> &B {
        &self.base_manager
    }

    /// Whether `content` alone fits under the total budget.
    pub fn fits_total_budget(&self, content: &str) -> (r: bool)
        ensures
            r == (crate::assembler::text_tokens(content@) <= self.spec_budget().spec_config().max_total),
    {
        self.budget_manager.estimate_tokens(content) <= self.budget_manager.max_total()
    }

    /// Scores retrieved contexts as Medium-priority artifacts: relevance to
    /// `query`, recency by position among `max_results`, default complexity,
    /// and the metadata size as reference count.
    pub fn artifacts_from_retrieved(
        &self,
        query: &str,
        max_results: usize,
        contexts: Vec<RetrievedContext>,
    ) -> (r: Vec<ContextArtifact>)
        ensures
            r@.len() == contexts@.len(),
            forall|k: int|
                0 <= k < r@.len() ==> {
                    let a = #[trigger] r@[k];
                    let c = contexts@[k];
                    &&& a.id == c.id
                    &&& a.content == c.content
                    &&& a.metadata == c.metadata
                    &&& a.priority == ContextPriority::Medium
                    &&& a.token_count == crate::assembler::text_tokens(c.content@)
                    &&& a.relevance.wf()
                    &&& a.relevance.task_relevance == crate::context::overlap_score(
                        lower_of(c.content@),
                        lower_of(query@),
                    )
                    &&& a.relevance.recency == position_recency(k as usize, max_results)
                    &&& a.relevance.complexity == DEFAULT_COMPLEXITY
                },
    {
        let ghost all = contexts@;
        let n = contexts.len();
        let mut rest = contexts;
        let mut out: Vec<ContextArtifact> = Vec::new();
        let mut j: usize = 0;
        while j < n
            invariant
                n == all.len(),
                j <= n,
                rest@ == all.subrange(j as int, n as int),
                out@.len() == j,
                forall|k: int|
                    0 <= k < j ==> {
                        let a = #[trigger] out@[k];
                        let c = all[k];
                        &&& a.id == c.id
                        &&& a.content == c.content
                        &&& a.metadata == c.metadata
                        &&& a.priority == ContextPriority::Medium
                        &&& a.token_count == crate::assembler::text_tokens(c.content@)
                        &&& a.relevance.wf()
                        &&& a.relevance.task_relevance == crate::context::overlap_score(
                            lower_of(c.content@),
                            lower_of(query@),
                        )
                        &&& a.relevance.recency == position_recency(k as usize, max_results)
                        &&& a.relevance.complexity == DEFAULT_COMPLEXITY
                    },
            decreases n - j,
        {
            let c = rest.remove(0);
            assert(c == all[j as int]);
            assert(rest@ =~= all.subrange(j + 1, n as int));
            let tokens = self.budget_manager.estimate_tokens(c.content.as_str());
            let recency = recency_at(j, max_results);
            let refs = c.metadata.len();
            let relevance = self.context_manager.calculate_relevance(
                c.content.as_str(),
                query,
                recency,
                DEFAULT_COMPLEXITY,
                refs,
            );
            let RetrievedContext { id, content, metadata } = c;
            let a = ContextArtifact::new(
                id,
                content,
                metadata,
                ContextPriority::Medium,
                relevance,
                tokens,
            );
            out.push(a);
            j = j + 1;
        }
        out
    }

    /// Assembles a context from retrieved artifacts under the budget; on
    /// overflow the older material is summarized by concatenation.
    pub fn build_adaptive_context(
        &self,
        system_prompt: String,
        running_brief: String,
        recent_turns: Vec<String>,
        artifacts: Vec<ContextArtifact>,
    ) -> (r: Result<AdaptiveContext, ContextError>)
        ensures
            ({
                let m = self.spec_context();
                let cfg = m.spec_budget().spec_config();
                let sel = prioritized(artifacts@, snippet_count_for(cfg.retrieved_context));
                let first = m.first_total(system_prompt@, running_brief@, recent_turns@, artifacts@);
                let older = if recent_turns@.len() == 0 {
                    recent_turns@
                } else {
                    recent_turns@.drop_last()
                };
                let kept = if recent_turns@.len() == 0 {
                    Seq::<String>::empty()
                } else {
                    seq![recent_turns@.last()]
                };
                let summary = join_spec(
                    (seq![running_brief] + older).map_values(|t: String| t@),
                    seq!['\n'],
                );
                let shrunk = keep_first(sel, shrink_target(sel.len()));
                let second = text_tokens(system_prompt@) + text_tokens(summary) + turns_tokens(kept)
                    + artifacts_tokens(shrunk) + cfg.completion;
                &&& first <= cfg.max_total ==> (r matches Ok(c) && c.running_brief == running_brief
                    && c.recent_turns == recent_turns && c.retrieved_snippets@ == sel
                    && allocated_as(
                    c,
                    cfg.max_total,
                    text_tokens(system_prompt@),
                    text_tokens(running_brief@),
                    turns_tokens(recent_turns@),
                    artifacts_tokens(sel),
                    cfg.completion as int,
                ))
                &&& first > cfg.max_total ==> {
                    &&& r is Ok <==> second <= cfg.max_total
                    &&& (r matches Ok(c) ==> c.running_brief@ == summary && c.recent_turns@ == kept
                        && c.retrieved_snippets@ == shrunk && allocated_as(
                        c,
                        cfg.max_total,
                        text_tokens(system_prompt@),
                        text_tokens(summary),
                        turns_tokens(kept),
                        artifacts_tokens(shrunk),
                        cfg.completion as int,
                    ))
                    &&& r is Err ==> r == Err::<AdaptiveContext, ContextError>(
                        ContextError::Budget(
                            BudgetError::BudgetExceeded { used: sat_usize(second), max: cfg.max_total },
                        ),
                    )
                }
            }),
    {
        match self.context_manager.first_pass(system_prompt, running_brief, recent_turns, artifacts) {
            ContextPlan::Ready(c) => Ok(c),
            ContextPlan::NeedsSummary(pending) => {
                let summary = ConcatenationSummarizer.concatenate(&pending.texts);
                match self.context_manager.finish_with_summary(pending, summary) {
                    Ok(c) => Ok(c),
                    Err(e) => Err(ContextError::Budget(e)),
                }
            },
        }
    }
}

} // verus!
