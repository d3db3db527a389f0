//! Token budget accounting: the per-component budget configuration, the
//! realized allocation of one assembly, and the word-count token estimate.
use vstd::prelude::*;

use crate::text::{count_words, word_count};

verus! {

/// Average snippet size, in tokens, used to derive how many snippets fit.
pub const AVG_SNIPPET_TOKENS: usize = 325;

/// Fewest snippets the assembler keeps.
pub const MIN_SNIPPETS: usize = 8;

/// Most snippets the assembler keeps.
pub const MAX_SNIPPETS: usize = 12;

/// Per-component token budget.
#[derive(Debug, Clone)]
pub struct TokenBudgetConfig {
    pub system_tokens: usize,
    pub running_brief: usize,
    pub recent_turns: usize,
    pub retrieved_context: usize,
    pub completion: usize,
    pub max_total: usize,
}

impl TokenBudgetConfig {
    /// Sum of the five component budgets.
    pub open spec fn allocated(&self) -> int {
        self.system_tokens + self.running_brief + self.recent_turns + self.retrieved_context
            + self.completion
    }

    /// The configuration is consistent: the components fit under `max_total`
    /// with a 2% headroom slack.
    pub open spec fn is_consistent(&self) -> bool {
        self.allocated() * 50 <= self.max_total * 51
    }

    /// Checks that the component budgets fit under `max_total` plus 2% headroom.
    pub fn validate(&self) -> (r: Result<(), BudgetError>)
        ensures
            r is Ok <==> self.is_consistent(),
            r is Err ==> r == Err::<(), BudgetError>(BudgetError::ConfigurationInvalid {
                allocated: sat_usize(self.allocated()),
                max: self.max_total,
            }),
    {
        let total: u128 = self.system_tokens as u128 + self.running_brief as u128
            + self.recent_turns as u128 + self.retrieved_context as u128
            + self.completion as u128;
        if total * 50 > self.max_total as u128 * 51 {
            let allocated: usize = if total > usize::MAX as u128 {
                usize::MAX
            } else {
                total as usize
            };
            return Err(BudgetError::ConfigurationInvalid { allocated, max: self.max_total });
        }
        Ok(())
    }
}

impl Default for TokenBudgetConfig {
    fn default() -> (r: Self)
        ensures
            r.system_tokens == 700,
            r.running_brief == 1200,
            r.recent_turns == 450,
            r.retrieved_context == 3750,
            r.completion == 1000,
            r.max_total == 8000,
    {
        TokenBudgetConfig {
            system_tokens: 700,
            running_brief: 1200,
            recent_turns: 450,
            retrieved_context: 3750,
            completion: 1000,
            max_total: 8000,
        }
    }
}

/// An integer clipped to the range of `usize`.
pub open spec fn sat_usize(x: int) -> usize {
    if x > usize::MAX {
        usize::MAX
    } else if x < 0 {
        0
    } else {
        x as usize
    }
}

/// Realized token counts of one assembly.
#[derive(Debug, Clone)]
pub struct BudgetAllocation {
    pub system_tokens: usize,
    pub running_brief: usize,
    pub recent_turns: usize,
    pub retrieved_context: usize,
    pub completion: usize,
    pub total_allocated: usize,
    pub remaining: usize,
}

impl BudgetAllocation {
    /// The counts add up, and the total fits under `max_total` with
    /// `remaining` the difference.
    pub open spec fn fits(&self, max_total: usize) -> bool {
        &&& self.total_allocated == self.system_tokens + self.running_brief + self.recent_turns
            + self.retrieved_context + self.completion
        &&& self.total_allocated <= max_total
        &&& self.remaining == max_total - self.total_allocated
    }

    pub fn is_within_budget(&self, max_total: usize) -> (r: bool)
        ensures
            r == (self.total_allocated <= max_total),
    {
        self.total_allocated <= max_total
    }
}

/// Budget errors; each is terminal for the assembly.
#[derive(Debug, Clone, PartialEq, Eq)]
pub enum BudgetError {
    BudgetExceeded { used: usize, max: usize },
    ConfigurationInvalid { allocated: usize, max: usize },
    EstimationFailed(String),
    InsufficientBudget { needed: usize, available: usize },
}

/// Spec of the word-count estimate: 1.3 tokens per whitespace-separated word,
/// rounded down.
pub open spec fn word_token_estimate(s: Seq<char>) -> int {
    (word_count(s) * 13 / 10) as int
}

/// Token budget manager over a consistent configuration.
pub struct TokenBudgetManager {
    config: TokenBudgetConfig,
}

impl TokenBudgetManager {
    pub closed spec fn spec_config(&self) -> TokenBudgetConfig {
        self.config
    }

    pub open spec fn wf(&self) -> bool {
        self.spec_config().is_consistent()
    }

    /// Builds a manager; fails with `ConfigurationInvalid` exactly when the
    /// configuration does not fit.
    pub fn new(config: TokenBudgetConfig) -> (r: Result<Self, BudgetError>)
        ensures
            r is Ok <==> config.is_consistent(),
            r matches Ok(m) ==> m.spec_config() == config && m.wf(),
            r is Err ==> r == Err::<Self, BudgetError>(
                BudgetError::ConfigurationInvalid {
                    allocated: sat_usize(config.allocated()),
                    max: config.max_total,
                },
            ),
    {
        match config.validate() {
            Ok(()) => Ok(TokenBudgetManager { config }),
            Err(e) => Err(e),
        }
    }

    /// A manager over the default configuration, which is consistent.
    pub fn default() -> (r: Result<Self, BudgetError>)
        ensures
            (r matches Ok(m) && m.spec_config().max_total == 8000
                && m.spec_config().completion == 1000 && m.spec_config().running_brief == 1200
                && m.spec_config().retrieved_context == 3750 && m.wf()),
    {
        Self::new(TokenBudgetConfig::default())
    }

    /// Records the realized counts, or fails when their sum exceeds `max_total`.
    pub fn allocate(
        &self,
        system_used: usize,
        brief_used: usize,
        turns_used: usize,
        context_used: usize,
        completion_used: usize,
    ) -> (r: Result<BudgetAllocation, BudgetError>)
        ensures
            ({
                let sum = system_used + brief_used + turns_used + context_used + completion_used;
                &&& r is Ok <==> sum <= self.spec_config().max_total
                &&& r matches Ok(a) ==> {
                    &&& a.fits(self.spec_config().max_total)
                    &&& a.system_tokens == system_used
                    &&& a.running_brief == brief_used
                    &&& a.recent_turns == turns_used
                    &&& a.retrieved_context == context_used
                    &&& a.completion == completion_used
                }
                &&& r is Err ==> r == Err::<BudgetAllocation, BudgetError>(
                    BudgetError::BudgetExceeded {
                        used: sat_usize(sum),
                        max: self.spec_config().max_total,
                    },
                )
            }),
    {
        let total: u128 = system_used as u128 + brief_used as u128 + turns_used as u128
            + context_used as u128 + completion_used as u128;
        let max = self.config.max_total;
        if total > max as u128 {
            let used: usize = if total > usize::MAX as u128 {
                usize::MAX
            } else {
                total as usize
            };
            return Err(BudgetError::BudgetExceeded { used, max });
        }
        let t = total as usize;
        Ok(BudgetAllocation {
            system_tokens: system_used,
            running_brief: brief_used,
            recent_turns: turns_used,
            retrieved_context: context_used,
            completion: completion_used,
            total_allocated: t,
            remaining: max - t,
        })
    }

    /// Succeeds exactly when `tokens` fits under `max_total`.
    pub fn check_budget(&self, tokens: usize) -> (r: Result<(), BudgetError>)
        ensures
            r is Ok <==> tokens <= self.spec_config().max_total,
            r is Err ==> r == Err::<(), BudgetError>(
                BudgetError::BudgetExceeded { used: tokens, max: self.spec_config().max_total },
            ),
    {
        if tokens > self.config.max_total {
            return Err(BudgetError::BudgetExceeded { used: tokens, max: self.config.max_total });
        }
        Ok(())
    }

    /// Word-count estimate: 1.3 tokens per word, rounded down (saturating).
    pub fn estimate_tokens(&self, text: &str) -> (r: usize)
        ensures
            r == sat_usize(word_token_estimate(text@)),
    {
        estimate_words(text)
    }

    /// Tokens by which `current_total` exceeds `target_total` (0 when it fits).
    pub fn calculate_shrinkage(&self, current_total: usize, target_total: usize) -> (r: Result<
        usize,
        BudgetError,
    >)
        ensures
            r == Ok::<usize, BudgetError>(
                if current_total <= target_total {
                    0
                } else {
                    (current_total - target_total) as usize
                },
            ),
    {
        if current_total <= target_total {
            return Ok(0);
        }
        Ok(current_total - target_total)
    }

    pub fn max_retrieved_context(&self) -> (r: usize)
        ensures
            r == self.spec_config().retrieved_context,
    {
        self.config.retrieved_context
    }

    pub fn max_total(&self) -> (r: usize)
        ensures
            r == self.spec_config().max_total,
    {
        self.config.max_total
    }

    pub fn config(&self) -> (r: &TokenBudgetConfig)
        ensures
            *r == self.spec_config(),
    {
        &self.config
    }

    /// `clamp(retrieved_context / 325, 8, 12)`.
    pub fn recommended_snippet_count(&self) -> (r: usize)
        ensures
            r == snippet_count_for(self.spec_config().retrieved_context),
            MIN_SNIPPETS <= r <= MAX_SNIPPETS,
    {
        let n = self.config.retrieved_context / AVG_SNIPPET_TOKENS;
        if n > MAX_SNIPPETS {
            MAX_SNIPPETS
        } else if n < MIN_SNIPPETS {
            MIN_SNIPPETS
        } else {
            n
        }
    }

    /// Fails with `BudgetExceeded` exactly when the allocation's total exceeds `max_total`.
    pub fn validate_allocation(&self, allocation: &BudgetAllocation) -> (r: Result<(), BudgetError>)
        ensures
            r is Ok <==> allocation.total_allocated <= self.spec_config().max_total,
            r is Err ==> r == Err::<(), BudgetError>(
                BudgetError::BudgetExceeded {
                    used: allocation.total_allocated,
                    max: self.spec_config().max_total,
                },
            ),
    {
        if !allocation.is_within_budget(self.config.max_total) {
            return Err(
                BudgetError::BudgetExceeded {
                    used: allocation.total_allocated,
                    max: self.config.max_total,
                },
            );
        }
        Ok(())
    }
}

/// Snippet count for a retrieved-context budget: `clamp(budget / 325, 8, 12)`.
pub open spec fn snippet_count_for(retrieved_context: usize) -> usize {
    let n = retrieved_context / AVG_SNIPPET_TOKENS;
    if n > MAX_SNIPPETS {
        MAX_SNIPPETS
    } else if n < MIN_SNIPPETS {
        MIN_SNIPPETS
    } else {
        n
    }
}

/// Word-count estimate of `text`, saturating at `usize::MAX`.
pub fn estimate_words(text: &str) -> (r: usize)
    ensures
        r == sat_usize(word_token_estimate(text@)),
{
    let w = count_words(text);
    let t: u128 = (w as u128) * 13 / 10;
    if t > usize::MAX as u128 {
        usize::MAX
    } else {
        t as usize
    }
}

} // verus!
