//! The token-budget-enforced context assembler: prioritization, budget
//! accounting and the summarize-then-retry path.
use vstd::prelude::*;

use std::collections::HashMap;

use crate::context::{
    density_score, overlap_score, relevance_from_lowered, clamp_unit, ContextArtifact,
    RelevanceScore,
};
use crate::text::{join_spec, join_strings, lower_of, lowercase};
use crate::token_budget::{
    estimate_words, sat_usize, snippet_count_for, word_token_estimate, BudgetAllocation,
    BudgetError, TokenBudgetManager,
};

verus! {

/// Fewest artifacts kept when shrinking after an overflow.
pub const MIN_SHRUNK_ARTIFACTS: usize = 4;

/// An assembled context with its budget allocation.
#[derive(Debug, Clone)]
pub struct AdaptiveContext {
    pub system_prompt: String,
    pub running_brief: String,
    pub recent_turns: Vec<String>,
    pub retrieved_snippets: Vec<ContextArtifact>,
    pub budget_allocation: BudgetAllocation,
    pub metadata: HashMap<String, String>,
}

impl AdaptiveContext {
    pub fn total_tokens(&self) -> (r: usize)
        ensures
            r == self.budget_allocation.total_allocated,
    {
        self.budget_allocation.total_allocated
    }

    pub fn is_within_budget(&self, max_tokens: usize) -> (r: bool)
        ensures
            r == (self.budget_allocation.total_allocated <= max_tokens),
    {
        self.total_tokens() <= max_tokens
    }
}

/// Errors of the summarizer interface.
#[derive(Debug, Clone, PartialEq, Eq)]
pub enum SummarizerError {
    InitializationError(String),
    ApiError(String),
    NetworkError(String),
    Unknown,
}

/// Errors of an assembly.
#[derive(Debug, Clone, PartialEq, Eq)]
pub enum ContextError {
    Budget(BudgetError),
    Summarizer(SummarizerError),
}

/// Compresses a list of texts into a brief of about `max_tokens` tokens.
pub trait Summarizer {
    fn summarize(&self, texts: &Vec<String>, max_tokens: usize) -> Result<String, SummarizerError>;
}

/// Configuration of a chat-completion summarizer.
#[derive(Debug, Clone)]
pub struct SummarizerConfig {
    pub endpoint: String,
    pub api_key: Option<String>,
    pub model: String,
    pub timeout_ms: u64,
    pub max_retries: usize,
}

impl Default for SummarizerConfig {
    fn default() -> (r: Self)
        ensures
            r.api_key is None,
            r.timeout_ms == 30000,
            r.max_retries == 3,
    {
        SummarizerConfig {
            endpoint: String::from_str("http://localhost:8080/v1/chat/completions"),
            api_key: None,
            model: String::from_str("gpt-3.5-turbo"),
            timeout_ms: 30000,
            max_retries: 3,
        }
    }
}

/// Deterministic summarizer: the texts joined by newlines.
#[derive(Debug, Clone, Copy)]
pub struct ConcatenationSummarizer;

impl ConcatenationSummarizer {
    /// The texts joined with `"\n"`.
    pub fn concatenate(&self, texts: &Vec<String>) -> (r: String)
        ensures
            r@ == join_spec(texts@.map_values(|t: String| t@), seq!['\n']),
    {
        let sep = "\n";
        proof {
            reveal_strlit("\n");
            assert(sep@ =~= seq!['\n']);
        }
        join_strings(texts, sep)
    }
}

/// The summary to use: the model's when it answered, else the texts joined
/// by newlines.
pub fn summary_or_fallback(outcome: Result<String, SummarizerError>, texts: &Vec<String>) -> (r:
    String)
    ensures
        outcome matches Ok(s) ==> r == s,
        outcome is Err ==> r@ == join_spec(texts@.map_values(|t: String| t@), seq!['\n']),
{
    match outcome {
        Ok(s) => s,
        Err(_) => ConcatenationSummarizer.concatenate(texts),
    }
}

impl Default for ConcatenationSummarizer {
    fn default() -> Self {
        ConcatenationSummarizer
    }
}

impl Summarizer for ConcatenationSummarizer {
    fn summarize(&self, texts: &Vec<String>, max_tokens: usize) -> Result<String, SummarizerError> {
        Ok(self.concatenate(texts))
    }
}

/// `a` goes before `b`: higher priority, or equal priority and higher relevance.
pub open spec fn outranks(a: ContextArtifact, b: ContextArtifact) -> bool {
    a.priority.spec_rank() > b.priority.spec_rank() || (a.priority.spec_rank()
        == b.priority.spec_rank() && a.relevance.total > b.relevance.total)
}

/// Inserts `x` after every element it does not outrank.
pub open spec fn insert_ranked(s: Seq<ContextArtifact>, x: ContextArtifact) -> Seq<ContextArtifact>
    decreases s.len(),
{
    if s.len() == 0 {
        seq![x]
    } else if outranks(x, s[0]) {
        seq![x] + s
    } else {
        seq![s[0]] + insert_ranked(s.drop_first(), x)
    }
}

/// Stable sort by priority, then relevance, both descending.
pub open spec fn rank_sorted(s: Seq<ContextArtifact>) -> Seq<ContextArtifact>
    decreases s.len(),
{
    if s.len() == 0 {
        seq![]
    } else {
        insert_ranked(rank_sorted(s.drop_last()), s.last())
    }
}

/// The first `n` elements of `s` (all of them if there are fewer).
pub open spec fn keep_first<T>(s: Seq<T>, n: nat) -> Seq<T> {
    if s.len() > n {
        s.take(n as int)
    } else {
        s
    }
}

/// The artifacts kept after prioritization.
pub open spec fn prioritized(s: Seq<ContextArtifact>, count: usize) -> Seq<ContextArtifact> {
    keep_first(rank_sorted(s), count as nat)
}

/// `max(4, ⌈2n/3⌉)`.
pub open spec fn shrink_target(n: nat) -> nat {
    let two_thirds = (2 * n + 2) / 3;
    if two_thirds < MIN_SHRUNK_ARTIFACTS {
        MIN_SHRUNK_ARTIFACTS as nat
    } else {
        two_thirds
    }
}

/// Token estimate of one text, as the budget manager computes it.
pub open spec fn text_tokens(s: Seq<char>) -> int {
    sat_usize(word_token_estimate(s)) as int
}

/// Sum of the token estimates of the turns.
pub open spec fn turns_tokens(turns: Seq<String>) -> int
    decreases turns.len(),
{
    if turns.len() == 0 {
        0
    } else {
        turns_tokens(turns.drop_last()) + text_tokens(turns.last()@)
    }
}

/// Sum of the artifacts' precomputed token counts.
pub open spec fn artifacts_tokens(s: Seq<ContextArtifact>) -> int
    decreases s.len(),
{
    if s.len() == 0 {
        0
    } else {
        artifacts_tokens(s.drop_last()) + s.last().token_count
    }
}

/// The context's allocation records these five counts and fits under `max_total`.
pub open spec fn allocated_as(
    c: AdaptiveContext,
    max_total: usize,
    system: int,
    brief: int,
    turns: int,
    ctx: int,
    completion: int,
) -> bool {
    &&& c.budget_allocation.fits(max_total)
    &&& c.budget_allocation.system_tokens == system
    &&& c.budget_allocation.running_brief == brief
    &&& c.budget_allocation.recent_turns == turns
    &&& c.budget_allocation.retrieved_context == ctx
    &&& c.budget_allocation.completion == completion
}

/// What remains to do after the first pass overflowed: summarize `texts`
/// towards `target_tokens`, then assemble with the rest.
#[derive(Debug, Clone)]
pub struct PendingSummary {
    pub system_prompt: String,
    pub texts: Vec<String>,
    pub target_tokens: usize,
    pub kept_turns: Vec<String>,
    pub artifacts: Vec<ContextArtifact>,
}

/// Outcome of the first packing pass.
#[derive(Debug, Clone)]
pub enum ContextPlan {
    Ready(AdaptiveContext),
    NeedsSummary(PendingSummary),
}

/// Bound at which running token sums stop growing: one past `usize::MAX`.
pub const SUM_CAP: u128 = 0x1_0000_0000_0000_0000;

/// `min(x, SUM_CAP)`.
pub open spec fn capped(x: int) -> int {
    if x > SUM_CAP {
        SUM_CAP as int
    } else {
        x
    }
}

proof fn lemma_turns_nonneg(turns: Seq<String>)
    ensures
        turns_tokens(turns) >= 0,
    decreases turns.len(),
{
    if turns.len() > 0 {
        lemma_turns_nonneg(turns.drop_last());
    }
}

proof fn lemma_artifacts_nonneg(s: Seq<ContextArtifact>)
    ensures
        artifacts_tokens(s) >= 0,
    decreases s.len(),
{
    if s.len() > 0 {
        lemma_artifacts_nonneg(s.drop_last());
    }
}

fn sum_turn_tokens(turns: &Vec<String>) -> (r: u128)
    ensures
        r == capped(turns_tokens(turns@)),
{
    let mut sum: u128 = 0;
    let mut i: usize = 0;
    while i < turns.len()
        invariant
            i <= turns@.len(),
            sum == capped(turns_tokens(turns@.subrange(0, i as int))),
        decreases turns@.len() - i,
    {
        let t = estimate_words(turns[i].as_str());
        proof {
            let s = turns@.subrange(0, i + 1);
            assert(s.drop_last() =~= turns@.subrange(0, i as int));
            lemma_turns_nonneg(turns@.subrange(0, i as int));
        }
        sum = if sum + t as u128 > SUM_CAP {
            SUM_CAP
        } else {
            sum + t as u128
        };
        i = i + 1;
    }
    assert(turns@.subrange(0, turns@.len() as int) =~= turns@);
    sum
}

fn sum_artifact_tokens(arts: &Vec<ContextArtifact>) -> (r: u128)
    ensures
        r == capped(artifacts_tokens(arts@)),
{
    let mut sum: u128 = 0;
    let mut i: usize = 0;
    while i < arts.len()
        invariant
            i <= arts@.len(),
            sum == capped(artifacts_tokens(arts@.subrange(0, i as int))),
        decreases arts@.len() - i,
    {
        proof {
            let s = arts@.subrange(0, i + 1);
            assert(s.drop_last() =~= arts@.subrange(0, i as int));
            lemma_artifacts_nonneg(arts@.subrange(0, i as int));
        }
        let t = arts[i].token_count;
        sum = if sum + t as u128 > SUM_CAP {
            SUM_CAP
        } else {
            sum + t as u128
        };
        i = i + 1;
    }
    assert(arts@.subrange(0, arts@.len() as int) =~= arts@);
    sum
}

fn outranks_exec(a: &ContextArtifact, b: &ContextArtifact) -> (r: bool)
    ensures
        r == outranks(*a, *b),
{
    let ra = a.priority.rank();
    let rb = b.priority.rank();
    ra > rb || (ra == rb && a.relevance.total > b.relevance.total)
}

proof fn lemma_insert_at(s: Seq<ContextArtifact>, x: ContextArtifact, p: int)
    requires
        0 <= p <= s.len(),
        forall|k: int| 0 <= k < p ==> !outranks(x, #[trigger] s[k]),
        p < s.len() ==> outranks(x, s[p]),
    ensures
        insert_ranked(s, x) == s.insert(p, x),
    decreases p,
{
    if p == 0 {
        if s.len() == 0 {
            assert(s.insert(0, x) =~= seq![x]);
        } else {
            assert(s.insert(0, x) =~= seq![x] + s);
        }
    } else {
        let t = s.drop_first();
        assert forall|k: int| 0 <= k < p - 1 implies !outranks(x, #[trigger] t[k]) by {
            assert(t[k] == s[k + 1]);
        }
        lemma_insert_at(t, x, p - 1);
        assert(!outranks(x, s[0]));
        assert(s.insert(p, x) =~= seq![s[0]] + t.insert(p - 1, x));
    }
}

/// Stable sort by priority, then relevance, both descending.
pub fn rank_sort(artifacts: Vec<ContextArtifact>) -> (r: Vec<ContextArtifact>)
    ensures
        r@ == rank_sorted(artifacts@),
{
    let ghost orig = artifacts@;
    let n = artifacts.len();
    let mut input = artifacts;
    let mut out: Vec<ContextArtifact> = Vec::new();
    let mut j: usize = 0;
    while j < n
        invariant
            n == orig.len(),
            j <= n,
            input@ == orig.subrange(j as int, n as int),
            out@ == rank_sorted(orig.subrange(0, j as int)),
        decreases n - j,
    {
        let x = input.remove(0);
        assert(x == orig[j as int]);
        let mut p: usize = 0;
        while p < out.len() && !outranks_exec(&x, &out[p])
            invariant
                p <= out@.len(),
                forall|k: int| 0 <= k < p ==> !outranks(x, #[trigger] out@[k]),
            decreases out@.len() - p,
        {
            p = p + 1;
        }
        proof {
            lemma_insert_at(out@, x, p as int);
            let s = orig.subrange(0, j + 1);
            assert(s.drop_last() =~= orig.subrange(0, j as int));
            assert(s.last() == x);
        }
        out.insert(p, x);
        assert(input@ =~= orig.subrange(j + 1, n as int));
        j = j + 1;
    }
    assert(orig.subrange(0, n as int) =~= orig);
    out
}

/// Keeps the first `count` artifacts.
pub fn truncate_artifacts(mut artifacts: Vec<ContextArtifact>, count: usize) -> (r: Vec<
    ContextArtifact,
>)
    ensures
        r@ == keep_first(artifacts@, count as nat),
{
    let ghost before = artifacts@;
    if artifacts.len() > count {
        artifacts.truncate(count);
        assert(artifacts@ =~= keep_first(before, count as nat));
    }
    artifacts
}

/// `max(4, ⌈2n/3⌉)`.
pub fn shrink_count(n: usize) -> (r: usize)
    ensures
        r == shrink_target(n as nat),
{
    let t: u128 = (2 * (n as u128) + 2) / 3;
    if t < MIN_SHRUNK_ARTIFACTS as u128 {
        MIN_SHRUNK_ARTIFACTS
    } else {
        t as usize
    }
}

/// Assembles contexts under the token budget, summarizing on overflow.
pub struct AdaptiveContextManager<S> {
    budget_manager: TokenBudgetManager,
    summarizer: S,
}

impl<S: Summarizer> AdaptiveContextManager<S> {
    pub closed spec fn spec_budget(&self) -> TokenBudgetManager {
        self.budget_manager
    }

    pub fn new(budget_manager: TokenBudgetManager, summarizer: S) -> (r: Self)
        ensures
            r.spec_budget() == budget_manager,
    {
        AdaptiveContextManager { budget_manager, summarizer }
    }

    pub fn budget_manager(&self) -> (r: &TokenBudgetManager)
        ensures
            *r == self.spec_budget(),
    {
        &self.budget_manager
    }

    /// Total of the first pass: estimates of the prompt, brief and turns, the
    /// prioritized artifacts' counts, and the completion reserve.
    pub open spec fn first_total(
        &self,
        system_prompt: Seq<char>,
        running_brief: Seq<char>,
        turns: Seq<String>,
        artifacts: Seq<ContextArtifact>,
    ) -> int {
        let cfg = self.spec_budget().spec_config();
        text_tokens(system_prompt) + text_tokens(running_brief) + turns_tokens(turns)
            + artifacts_tokens(prioritized(artifacts, snippet_count_for(cfg.retrieved_context)))
            + cfg.completion
    }

    /// First packing pass: prioritize, count, and either allocate or hand back
    /// what summarize-then-retry needs.
    pub fn first_pass(
        &self,
        system_prompt: String,
        running_brief: String,
        recent_turns: Vec<String>,
        artifacts: Vec<ContextArtifact>,
    ) -> (r: ContextPlan)
        ensures
            ({
                let cfg = self.spec_budget().spec_config();
                let sel = prioritized(artifacts@, snippet_count_for(cfg.retrieved_context));
                let total = self.first_total(system_prompt@, running_brief@, recent_turns@, artifacts@);
                &&& total <= cfg.max_total <==> r is Ready
                &&& r matches ContextPlan::Ready(c) ==> {
                    &&& c.system_prompt == system_prompt
                    &&& c.running_brief == running_brief
                    &&& c.recent_turns == recent_turns
                    &&& c.retrieved_snippets@ == sel
                    &&& allocated_as(
                        c,
                        cfg.max_total,
                        text_tokens(system_prompt@),
                        text_tokens(running_brief@),
                        turns_tokens(recent_turns@),
                        artifacts_tokens(sel),
                        cfg.completion as int,
                    )
                }
                &&& r matches ContextPlan::NeedsSummary(p) ==> {
                    &&& p.system_prompt == system_prompt
                    &&& p.texts@ == seq![running_brief] + (if recent_turns@.len() == 0 {
                        recent_turns@
                    } else {
                        recent_turns@.drop_last()
                    })
                    &&& p.target_tokens == cfg.running_brief
                    &&& p.kept_turns@ == (if recent_turns@.len() == 0 {
                        seq![]
                    } else {
                        seq![recent_turns@.last()]
                    })
                    &&& p.artifacts@ == keep_first(sel, shrink_target(sel.len()))
                }
            }),
    {
        let system_tokens = estimate_words(system_prompt.as_str());
        let brief_tokens = estimate_words(running_brief.as_str());
        let turn_tokens = sum_turn_tokens(&recent_turns);
        let sorted = rank_sort(artifacts);
        let count = self.budget_manager.recommended_snippet_count();
        let selected = truncate_artifacts(sorted, count);
        let context_tokens = sum_artifact_tokens(&selected);
        let completion = self.budget_manager.config().completion;
        let max = self.budget_manager.max_total();
        let total: u128 = system_tokens as u128 + brief_tokens as u128 + turn_tokens
            + context_tokens + completion as u128;
        if total <= max as u128 {
            let alloc = self.budget_manager.allocate(
                system_tokens,
                brief_tokens,
                turn_tokens as usize,
                context_tokens as usize,
                completion,
            );
            match alloc {
                Ok(budget_allocation) => ContextPlan::Ready(
                    AdaptiveContext {
                        system_prompt,
                        running_brief,
                        recent_turns,
                        retrieved_snippets: selected,
                        budget_allocation,
                        metadata: HashMap::new(),
                    },
                ),
                Err(_) => {
                    proof {
                        assert(false);
                    }
                    ContextPlan::NeedsSummary(
                        PendingSummary {
                            system_prompt,
                            texts: Vec::new(),
                            target_tokens: 0,
                            kept_turns: Vec::new(),
                            artifacts: selected,
                        },
                    )
                },
            }
        } else {
            let mut older = recent_turns;
            let mut kept_turns: Vec<String> = Vec::new();
            let ghost turns0 = older@;
            if older.len() > 0 {
                let last = older.pop().unwrap();
                kept_turns.push(last);
                assert(kept_turns@ =~= seq![turns0.last()]);
            }
            let mut texts: Vec<String> = Vec::new();
            texts.push(running_brief);
            texts.append(&mut older);
            let ghost expected = seq![running_brief] + (if turns0.len() == 0 {
                turns0
            } else {
                turns0.drop_last()
            });
            assert(texts@ =~= expected);
            let keep = shrink_count(selected.len());
            let shrunk = truncate_artifacts(selected, keep);
            ContextPlan::NeedsSummary(
                PendingSummary {
                    system_prompt,
                    texts,
                    target_tokens: self.budget_manager.config().running_brief,
                    kept_turns,
                    artifacts: shrunk,
                },
            )
        }
    }

    /// Total after summarization: the prompt, the summary as the new brief,
    /// the kept turn, the shrunk artifacts and the completion reserve.
    pub open spec fn retry_total(&self, pending: PendingSummary, summary: Seq<char>) -> int {
        text_tokens(pending.system_prompt@) + text_tokens(summary) + turns_tokens(
            pending.kept_turns@,
        ) + artifacts_tokens(pending.artifacts@) + self.spec_budget().spec_config().completion
    }

    /// Second pass with `summary` as the running brief: allocate, or fail with
    /// `BudgetExceeded` when it still does not fit.
    pub fn finish_with_summary(&self, pending: PendingSummary, summary: String) -> (r: Result<
        AdaptiveContext,
        BudgetError,
    >)
        ensures
            ({
                let cfg = self.spec_budget().spec_config();
                let total = self.retry_total(pending, summary@);
                &&& r is Ok <==> total <= cfg.max_total
                &&& r matches Ok(c) ==> {
                    &&& c.system_prompt == pending.system_prompt
                    &&& c.running_brief == summary
                    &&& c.recent_turns == pending.kept_turns
                    &&& c.retrieved_snippets == pending.artifacts
                    &&& allocated_as(
                        c,
                        cfg.max_total,
                        text_tokens(pending.system_prompt@),
                        text_tokens(summary@),
                        turns_tokens(pending.kept_turns@),
                        artifacts_tokens(pending.artifacts@),
                        cfg.completion as int,
                    )
                }
                &&& r is Err ==> r == Err::<AdaptiveContext, BudgetError>(
                    BudgetError::BudgetExceeded { used: sat_usize(total), max: cfg.max_total },
                )
            }),
    {
        let PendingSummary { system_prompt, texts, target_tokens, kept_turns, artifacts } = pending;
        let system_tokens = estimate_words(system_prompt.as_str());
        let brief_tokens = estimate_words(summary.as_str());
        let turn_tokens = sum_turn_tokens(&kept_turns);
        let context_tokens = sum_artifact_tokens(&artifacts);
        let completion = self.budget_manager.config().completion;
        let max = self.budget_manager.max_total();
        let total: u128 = system_tokens as u128 + brief_tokens as u128 + turn_tokens
            + context_tokens + completion as u128;
        if total > max as u128 {
            let used: usize = if total > usize::MAX as u128 {
                usize::MAX
            } else {
                total as usize
            };
            return Err(BudgetError::BudgetExceeded { used, max });
        }
        let alloc = self.budget_manager.allocate(
            system_tokens,
            brief_tokens,
            turn_tokens as usize,
            context_tokens as usize,
            completion,
        );
        match alloc {
            Ok(budget_allocation) => Ok(
                AdaptiveContext {
                    system_prompt,
                    running_brief: summary,
                    recent_turns: kept_turns,
                    retrieved_snippets: artifacts,
                    budget_allocation,
                    metadata: HashMap::new(),
                },
            ),
            Err(e) => Err(e),
        }
    }

    /// Assembles a context: the first pass, then, on overflow, the configured
    /// summarizer and the second pass.
    pub fn build_context(
        &self,
        system_prompt: String,
        running_brief: String,
        recent_turns: Vec<String>,
        artifacts: Vec<ContextArtifact>,
    ) -> (r: Result<AdaptiveContext, ContextError>)
        ensures
            ({
                let cfg = self.spec_budget().spec_config();
                let sel = prioritized(artifacts@, snippet_count_for(cfg.retrieved_context));
                let total = self.first_total(system_prompt@, running_brief@, recent_turns@, artifacts@);
                &&& r matches Ok(c) ==> c.budget_allocation.fits(cfg.max_total)
                &&& (r matches Err(ContextError::Budget(e)) ==> (e matches BudgetError::BudgetExceeded {
                    max,
                    ..
                } && max == cfg.max_total))
                &&& total <= cfg.max_total ==> (r matches Ok(c) && c.running_brief == running_brief
                    && c.recent_turns == recent_turns && c.retrieved_snippets@ == sel
                    && allocated_as(
                    c,
                    cfg.max_total,
                    text_tokens(system_prompt@),
                    text_tokens(running_brief@),
                    turns_tokens(recent_turns@),
                    artifacts_tokens(sel),
                    cfg.completion as int,
                ))
                &&& total > cfg.max_total ==> (r matches Ok(c) ==> (c.retrieved_snippets@
                    == keep_first(sel, shrink_target(sel.len())) && c.recent_turns@.len() <= 1))
            }),
    {
        match self.first_pass(system_prompt, running_brief, recent_turns, artifacts) {
            ContextPlan::Ready(c) => Ok(c),
            ContextPlan::NeedsSummary(pending) => {
                match self.summarizer.summarize(&pending.texts, pending.target_tokens) {
                    Ok(summary) => match self.finish_with_summary(pending, summary) {
                        Ok(c) => Ok(c),
                        Err(e) => Err(ContextError::Budget(e)),
                    },
                    Err(e) => Err(ContextError::Summarizer(e)),
                }
            },
        }
    }

    /// Relevance of `artifact` to `query`: keyword overlap of their lowercased
    /// word sets, the caller's recency and complexity (thousandths, clamped),
    /// and `min(1, reference_count / 10)`.
    pub fn calculate_relevance(
        &self,
        artifact: &str,
        query: &str,
        recency_factor: u32,
        complexity_factor: u32,
        reference_count: usize,
    ) -> (r: RelevanceScore)
        ensures
            r.wf(),
            r.task_relevance == overlap_score(lower_of(artifact@), lower_of(query@)),
            r.recency == clamp_unit(recency_factor),
            r.complexity == clamp_unit(complexity_factor),
            r.reference_density == density_score(reference_count),
    {
        let a = lowercase(artifact);
        let q = lowercase(query);
        relevance_from_lowered(
            a.as_str(),
            q.as_str(),
            recency_factor,
            complexity_factor,
            reference_count,
        )
    }
}

impl AdaptiveContextManager<ConcatenationSummarizer> {
    /// Default budget with the concatenation summarizer.
    pub fn default() -> (r: Result<Self, BudgetError>)
        ensures
            (r matches Ok(m) && m.spec_budget().wf() && m.spec_budget().spec_config().max_total
                == 8000),
    {
        match TokenBudgetManager::default() {
            Ok(budget_manager) => Ok(AdaptiveContextManager {
                budget_manager,
                summarizer: ConcatenationSummarizer,
            }),
            Err(e) => Err(e),
        }
    }

    /// The given budget with the concatenation summarizer.
    pub fn with_concat_summarizer(budget_manager: TokenBudgetManager) -> (r: Result<
        Self,
        BudgetError,
    >)
        ensures
            (r matches Ok(m) && m.spec_budget() == budget_manager),
    {
        Ok(AdaptiveContextManager { budget_manager, summarizer: ConcatenationSummarizer })
    }
}

/// Every successful assembly fits under `max_total`: the first pass when it
/// returns a context, and the second pass for any summary.
pub proof fn lemma_assembly_within_budget(
    c: AdaptiveContext,
    max_total: usize,
    system: int,
    brief: int,
    turns: int,
    ctx: int,
    completion: int,
)
    requires
        allocated_as(c, max_total, system, brief, turns, ctx, completion),
    ensures
        c.budget_allocation.total_allocated <= max_total,
        c.budget_allocation.total_allocated + c.budget_allocation.remaining == max_total,
{
}

/// First pause of the chat summarizer's backoff, in milliseconds.
pub const SUMMARY_BACKOFF_BASE_MS: u64 = 100;

/// The user prompt of the chat summarizer.
pub open spec fn summary_prompt_spec(texts: Seq<Seq<char>>, max_tokens: usize) -> Seq<char> {
    "Summarize the following conversation turns into a concise running brief. Focus on key decisions, evidence, constraints, and open items. Keep the summary under "@
        + crate::facts::decimal(max_tokens as nat) + " tokens.\n\n"@ + join_spec(
        texts,
        "\n\n---\n\n"@,
    )
}

/// The user prompt of the chat summarizer: the instruction with the token
/// target, then the texts separated by `---` lines.
pub fn summary_prompt(texts: &Vec<String>, max_tokens: usize) -> (r: String)
    ensures
        r@ == summary_prompt_spec(texts@.map_values(|t: String| t@), max_tokens),
{
    let mut s = String::from_str(
        "Summarize the following conversation turns into a concise running brief. Focus on key decisions, evidence, constraints, and open items. Keep the summary under ",
    );
    let n = crate::facts::decimal_string_usize(max_tokens);
    s.append(n.as_str());
    s.append(" tokens.\n\n");
    let body = join_strings(texts, "\n\n---\n\n");
    s.append(body.as_str());
    s
}

/// What the chat summarizer does next.
#[derive(Debug, Clone, PartialEq, Eq)]
pub enum SummarizeStep {
    /// Call the endpoint (attempt number from 0).
    Call(usize),
    /// The summary.
    Done(String),
    /// Sleep this many milliseconds, then make attempt number `.1`.
    RetryAfter(u64, usize),
    /// Give up with this error.
    Failed(SummarizerError),
}

/// `min(n, u32::MAX)`.
pub open spec fn clip_u32(n: int) -> u32 {
    if n > u32::MAX {
        u32::MAX
    } else {
        n as u32
    }
}

/// Chat-completion summarizer settings, and its retry decisions; the HTTP
/// call itself is made by the caller.
#[derive(Debug, Clone)]
pub struct LLMSummarizer {
    pub config: SummarizerConfig,
}

impl LLMSummarizer {
    pub fn new(config: SummarizerConfig) -> (r: Self)
        ensures
            r.config == config,
    {
        LLMSummarizer { config }
    }

    /// First step: nothing to summarize gives the empty summary without a
    /// call; no attempts allowed gives `Failed(Unknown)`; else attempt 0.
    pub fn start(&self, texts: &Vec<String>) -> (r: SummarizeStep)
        ensures
            texts@.len() == 0 ==> (r matches SummarizeStep::Done(s) && s@.len() == 0),
            texts@.len() > 0 && self.config.max_retries == 0 ==> r == SummarizeStep::Failed(
                SummarizerError::Unknown,
            ),
            texts@.len() > 0 && self.config.max_retries > 0 ==> r == SummarizeStep::Call(0),
    {
        if texts.len() == 0 {
            SummarizeStep::Done(String::new())
        } else if self.config.max_retries == 0 {
            SummarizeStep::Failed(SummarizerError::Unknown)
        } else {
            SummarizeStep::Call(0)
        }
    }

    /// After attempt `attempt` (from 0): a summary is done; a failure is
    /// retried after `100 · 2^(attempt+1)` ms while attempts remain, else
    /// surfaced.
    pub fn after_call(&self, attempt: usize, outcome: Result<String, SummarizerError>) -> (r:
        SummarizeStep)
        ensures
            r == summarize_step_spec(attempt, self.config.max_retries, outcome),
    {
        summarize_step(attempt, self.config.max_retries, outcome)
    }
}

pub open spec fn summarize_step_spec(
    attempt: usize,
    max_retries: usize,
    outcome: Result<String, SummarizerError>,
) -> SummarizeStep {
    match outcome {
        Ok(s) => SummarizeStep::Done(s),
        Err(e) => if attempt + 1 < max_retries {
            SummarizeStep::RetryAfter(
                crate::ocr::backoff_ms(SUMMARY_BACKOFF_BASE_MS, clip_u32(attempt + 2)),
                (attempt + 1) as usize,
            )
        } else {
            SummarizeStep::Failed(e)
        },
    }
}

/// The retry decision of the chat summarizer (see `LLMSummarizer::after_call`).
pub fn summarize_step(attempt: usize, max_retries: usize, outcome: Result<String, SummarizerError>) -> (r:
    SummarizeStep)
    ensures
        r == summarize_step_spec(attempt, max_retries, outcome),
{
    match outcome {
        Ok(s) => SummarizeStep::Done(s),
        Err(e) => {
            if attempt < max_retries && attempt + 1 < max_retries {
                let a: u32 = if attempt >= (u32::MAX - 2) as usize {
                    u32::MAX
                } else {
                    (attempt + 2) as u32
                };
                SummarizeStep::RetryAfter(
                    crate::ocr::calculate_backoff(SUMMARY_BACKOFF_BASE_MS, a),
                    attempt + 1,
                )
            } else {
                SummarizeStep::Failed(e)
            }
        },
    }
}

proof fn lemma_tokens_prepend(a: ContextArtifact, t: Seq<ContextArtifact>)
    ensures
        artifacts_tokens(seq![a] + t) == a.token_count + artifacts_tokens(t),
    decreases t.len(),
{
    let u = seq![a] + t;
    if t.len() > 0 {
        lemma_tokens_prepend(a, t.drop_last());
        assert(u.drop_last() =~= seq![a] + t.drop_last());
        assert(u.last() == t.last());
    } else {
        assert(u.drop_last() =~= Seq::<ContextArtifact>::empty());
        assert(u.last() == a);
        assert(t =~= Seq::<ContextArtifact>::empty());
        assert(artifacts_tokens(Seq::<ContextArtifact>::empty()) == 0);
        assert(artifacts_tokens(u) == artifacts_tokens(u.drop_last()) + u.last().token_count);
    }
}

proof fn lemma_insert_ranked_tokens(s: Seq<ContextArtifact>, x: ContextArtifact)
    ensures
        artifacts_tokens(insert_ranked(s, x)) == artifacts_tokens(s) + x.token_count,
        insert_ranked(s, x).len() == s.len() + 1,
    decreases s.len(),
{
    if s.len() == 0 {
        lemma_tokens_prepend(x, s);
        assert(seq![x] + s =~= seq![x]);
    } else if outranks(x, s[0]) {
        lemma_tokens_prepend(x, s);
    } else {
        lemma_insert_ranked_tokens(s.drop_first(), x);
        lemma_tokens_prepend(s[0], insert_ranked(s.drop_first(), x));
        lemma_tokens_prepend(s[0], s.drop_first());
        assert(seq![s[0]] + s.drop_first() =~= s);
    }
}

/// Prioritizing reorders the artifacts without losing or adding any token:
/// the sorted list is as long as the input and has the same token total, so
/// when every artifact fits the snippet count the first pass counts them all.
pub proof fn lemma_prioritizing_keeps_tokens(s: Seq<ContextArtifact>, count: usize)
    ensures
        rank_sorted(s).len() == s.len(),
        artifacts_tokens(rank_sorted(s)) == artifacts_tokens(s),
        s.len() <= count ==> artifacts_tokens(prioritized(s, count)) == artifacts_tokens(s),
        prioritized(s, count).len() == (if s.len() <= count {
            s.len()
        } else {
            count as nat
        }),
    decreases s.len(),
{
    if s.len() > 0 {
        lemma_prioritizing_keeps_tokens(s.drop_last(), count);
        lemma_insert_ranked_tokens(rank_sorted(s.drop_last()), s.last());
    }
}

} // verus!
