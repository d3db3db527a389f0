//! Pluggable token estimators: a word-count approximation and a BPE
//! tokenizer of the cl100k family.
use vstd::prelude::*;

use crate::text::{count_words, word_count};

verus! {

/// Estimates how many tokens a text takes; deterministic and side-effect free.
pub trait TokenEstimator {
    /// The estimator can take this text.
    spec fn accepts(&self, text: Seq<char>) -> bool;

    spec fn spec_estimate(&self, text: Seq<char>) -> nat;

    fn estimate(&self, text: &str) -> (r: usize)
        requires
            self.accepts(text@),
        ensures
            r == self.spec_estimate(text@),
    ;

    /// Estimates each text in turn.
    fn estimate_batch(&self, texts: &Vec<&str>) -> (r: Vec<usize>)
        requires
            forall|k: int| 0 <= k < texts@.len() ==> self.accepts(#[trigger] texts@[k]@),
        ensures
            r@.len() == texts@.len(),
            forall|k: int| 0 <= k < texts@.len() ==> r@[k] == self.spec_estimate(#[trigger] texts@[k]@),
    {
        let mut out: Vec<usize> = Vec::new();
        let mut i: usize = 0;
        while i < texts.len()
            invariant
                i <= texts@.len(),
                out@.len() == i,
                forall|k: int| 0 <= k < texts@.len() ==> self.accepts(#[trigger] texts@[k]@),
                forall|k: int| 0 <= k < i ==> out@[k] == self.spec_estimate(#[trigger] texts@[k]@),
            decreases texts@.len() - i,
        {
            let t = self.estimate(texts[i]);
            out.push(t);
            i = i + 1;
        }
        out
    }
}

/// `⌈words · tenths / 10⌉`, saturating at `usize::MAX`.
pub open spec fn scaled_words(words: nat, tenths: u64) -> nat {
    let t = ((words * tenths + 9) / 10) as nat;
    if t > usize::MAX {
        usize::MAX as nat
    } else {
        t
    }
}

/// Word-count estimator: `tokens_per_word_tenths / 10` tokens per word, rounded up.
#[derive(Debug, Clone, Copy)]
pub struct WordBasedEstimator {
    pub tokens_per_word_tenths: u64,
}

impl WordBasedEstimator {
    pub fn new(tokens_per_word_tenths: u64) -> (r: Self)
        ensures
            r.tokens_per_word_tenths == tokens_per_word_tenths,
    {
        WordBasedEstimator { tokens_per_word_tenths }
    }

    /// 1.3 tokens per word.
    pub fn default() -> (r: Self)
        ensures
            r.tokens_per_word_tenths == 13,
    {
        WordBasedEstimator::new(13)
    }
}

impl TokenEstimator for WordBasedEstimator {
    open spec fn accepts(&self, text: Seq<char>) -> bool {
        true
    }

    open spec fn spec_estimate(&self, text: Seq<char>) -> nat {
        scaled_words(word_count(text), self.tokens_per_word_tenths)
    }

    fn estimate(&self, text: &str) -> (r: usize) {
        let w = count_words(text);
        proof {
            assert((w as int) * (self.tokens_per_word_tenths as int) <= (usize::MAX as int) * (
            u64::MAX as int)) by (nonlinear_arith)
                requires
                    w <= usize::MAX,
                    self.tokens_per_word_tenths <= u64::MAX,
            ;
        }
        let t: u128 = ((w as u128) * (self.tokens_per_word_tenths as u128) + 9) / 10;
        if t > usize::MAX as u128 {
            usize::MAX
        } else {
            t as usize
        }
    }
}

#[verifier::external_type_specification]
#[verifier::external_body]
pub struct ExCoreBPE(tiktoken_rs::CoreBPE);

/// Number of tokens of the cl100k_base encoding for the characters, special
/// tokens included.
pub uninterp spec fn cl100k_token_count(s: Seq<char>) -> nat;

/// Relies on `tiktoken_rs::cl100k_base`: builds the cl100k_base tokenizer
/// from the rank file bundled in the crate, which always parses.
#[verifier::external_body]
fn load_cl100k() -> (r: Option<tiktoken_rs::CoreBPE>)
    ensures
        r is Some,
{
    tiktoken_rs::cl100k_base().ok()
}

/// Longest text, in characters, handed to the BPE tokenizer. Its pattern
/// runs in a backtracking matcher that fails (and the tokenizer panics) past
/// a million stacked branches or backtracks within one match; with at most
/// four bytes per character and a bounded number of branches per byte, texts
/// of this length stay far below that.
pub const MAX_BPE_CHARS: usize = 100_000;

/// BPE estimator with the cl100k_base encoding.
pub struct TiktokenEstimator {
    bpe: tiktoken_rs::CoreBPE,
}

/// Relies on `CoreBPE::encode_with_special_tokens` of the estimator's
/// tokenizer, which `TiktokenEstimator::new` alone builds, from
/// `cl100k_base`: the number of tokens depends on the text alone. Longer texts
/// are excluded: the tokenizer unwraps the matcher's stack-overflow error.
#[verifier::external_body]
fn cl100k_count(estimator: &TiktokenEstimator, text: &str) -> (r: usize)
    requires
        text@.len() <= MAX_BPE_CHARS,
    ensures
        r == cl100k_token_count(text@),
{
    estimator.bpe.encode_with_special_tokens(text).len()
}

impl TiktokenEstimator {
    /// The cl100k_base tokenizer.
    pub fn new() -> (r: Option<Self>)
        ensures
            r is Some,
    {
        match load_cl100k() {
            Some(bpe) => Some(TiktokenEstimator { bpe }),
            None => None,
        }
    }

    /// Whether the tokenizer can take `text` (at most `MAX_BPE_CHARS` characters).
    pub fn accepts_text(&self, text: &str) -> (r: bool)
        ensures
            r == self.accepts(text@),
    {
        text.unicode_len() <= MAX_BPE_CHARS
    }

    /// The token count when the tokenizer can take the text, else `None`.
    pub fn estimate_checked(&self, text: &str) -> (r: Option<usize>)
        ensures
            self.accepts(text@) ==> r == Some(cl100k_token_count(text@) as usize),
            !self.accepts(text@) ==> r is None,
    {
        if self.accepts_text(text) {
            Some(self.estimate(text))
        } else {
            None
        }
    }
}

impl TokenEstimator for TiktokenEstimator {
    open spec fn accepts(&self, text: Seq<char>) -> bool {
        text.len() <= MAX_BPE_CHARS
    }

    open spec fn spec_estimate(&self, text: Seq<char>) -> nat {
        cl100k_token_count(text)
    }

    fn estimate(&self, text: &str) -> (r: usize) {
        cl100k_count(self, text)
    }
}

} // verus!
