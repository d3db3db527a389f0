//! Context artifacts: priority, relevance score and the artifact record.
//!
//! Scores are fixed-point: each component is in thousandths (`0..=1000` is
//! `[0, 1]`), and the weighted total is in ten-thousandths (`0..=10000`), so
//! that `0.4·task + 0.2·recency + 0.2·complexity + 0.2·ref_density` is exact.
use vstd::prelude::*;

use std::collections::HashMap;

use crate::text::{split_words, str_eq, words_of};

verus! {

/// One whole unit of a score component.
pub const SCORE_ONE: u32 = 1000;

/// One whole unit of a weighted total.
pub const TOTAL_ONE: u32 = 10000;

/// Priority of a context artifact: Critical > High > Medium > Low.
#[derive(Debug, Clone, Copy, PartialEq, Eq, Structural)]
pub enum ContextPriority {
    Critical,
    High,
    Medium,
    Low,
}

impl ContextPriority {
    pub open spec fn spec_rank(self) -> u8 {
        match self {
            ContextPriority::Critical => 4,
            ContextPriority::High => 3,
            ContextPriority::Medium => 2,
            ContextPriority::Low => 1,
        }
    }

    /// Numeric rank: Critical 4, High 3, Medium 2, Low 1.
    pub fn rank(&self) -> (r: u8)
        ensures
            r == self.spec_rank(),
    {
        match self {
            ContextPriority::Critical => 4,
            ContextPriority::High => 3,
            ContextPriority::Medium => 2,
            ContextPriority::Low => 1,
        }
    }
}

/// `min(x, 1000)`.
pub open spec fn clamp_unit(x: u32) -> u32 {
    if x > SCORE_ONE {
        SCORE_ONE
    } else {
        x
    }
}

/// Weighted total in ten-thousandths: `4·task + 2·recency + 2·complexity + 2·density`.
pub open spec fn weighted_total(task: u32, recency: u32, complexity: u32, density: u32) -> int {
    4 * task + 2 * recency + 2 * complexity + 2 * density
}

/// Relevance of an artifact to the task.
#[derive(Debug, Clone, Copy)]
pub struct RelevanceScore {
    pub task_relevance: u32,
    pub recency: u32,
    pub complexity: u32,
    pub reference_density: u32,
    pub total: u32,
}

impl RelevanceScore {
    /// Components in `[0, 1]` and the total their weighted sum.
    pub open spec fn wf(&self) -> bool {
        &&& self.task_relevance <= SCORE_ONE
        &&& self.recency <= SCORE_ONE
        &&& self.complexity <= SCORE_ONE
        &&& self.reference_density <= SCORE_ONE
        &&& self.total == weighted_total(
            self.task_relevance,
            self.recency,
            self.complexity,
            self.reference_density,
        )
    }

    /// Recomputes the weighted total from the components.
    pub fn calculate_total(&mut self)
        requires
            old(self).task_relevance <= SCORE_ONE,
            old(self).recency <= SCORE_ONE,
            old(self).complexity <= SCORE_ONE,
            old(self).reference_density <= SCORE_ONE,
        ensures
            final(self).wf(),
            final(self).task_relevance == old(self).task_relevance,
            final(self).recency == old(self).recency,
            final(self).complexity == old(self).complexity,
            final(self).reference_density == old(self).reference_density,
    {
        self.total = 4 * self.task_relevance + 2 * self.recency + 2 * self.complexity + 2
            * self.reference_density;
    }

    /// A score from components in thousandths, each clamped to `[0, 1000]`.
    pub fn new(task_relevance: u32, recency: u32, complexity: u32, reference_density: u32) -> (r:
        Self)
        ensures
            r.wf(),
            r.task_relevance == clamp_unit(task_relevance),
            r.recency == clamp_unit(recency),
            r.complexity == clamp_unit(complexity),
            r.reference_density == clamp_unit(reference_density),
    {
        let mut score = RelevanceScore {
            task_relevance: clamp_score(task_relevance),
            recency: clamp_score(recency),
            complexity: clamp_score(complexity),
            reference_density: clamp_score(reference_density),
            total: 0,
        };
        score.calculate_total();
        score
    }
}

/// `min(x, 1000)`.
pub fn clamp_score(x: u32) -> (r: u32)
    ensures
        r == clamp_unit(x),
{
    if x > SCORE_ONE {
        SCORE_ONE
    } else {
        x
    }
}

/// A retrieved text snippet with its priority, relevance and token count.
#[derive(Debug, Clone)]
pub struct ContextArtifact {
    pub id: String,
    pub content: String,
    pub metadata: HashMap<String, String>,
    pub priority: ContextPriority,
    pub relevance: RelevanceScore,
    pub token_count: usize,
}

impl ContextArtifact {
    pub fn new(
        id: String,
        content: String,
        metadata: HashMap<String, String>,
        priority: ContextPriority,
        relevance: RelevanceScore,
        token_count: usize,
    ) -> (r: Self)
        ensures
            r.id == id,
            r.content == content,
            r.metadata == metadata,
            r.priority == priority,
            r.relevance == relevance,
            r.token_count == token_count,
    {
        ContextArtifact { id, content, metadata, priority, relevance, token_count }
    }
}

/// The distinct elements of `s`, in order of first occurrence.
pub open spec fn distinct(s: Seq<Seq<char>>) -> Seq<Seq<char>>
    decreases s.len(),
{
    if s.len() == 0 {
        seq![]
    } else {
        let d = distinct(s.drop_last());
        if d.contains(s.last()) {
            d
        } else {
            d.push(s.last())
        }
    }
}

/// How many of `qs` occur in `ws`.
pub open spec fn count_present(qs: Seq<Seq<char>>, ws: Seq<Seq<char>>) -> nat
    decreases qs.len(),
{
    if qs.len() == 0 {
        0
    } else {
        count_present(qs.drop_last(), ws) + if ws.contains(qs.last()) {
            1nat
        } else {
            0nat
        }
    }
}

/// Keyword overlap `|Q ∩ A| / max(1, |Q|)`, in thousandths, rounded down, where
/// Q and A are the word sets of the (already lowercased) query and artifact.
pub open spec fn overlap_score(artifact: Seq<char>, query: Seq<char>) -> int {
    let q = distinct(words_of(query));
    let overlap = count_present(q, words_of(artifact));
    let denom = if q.len() == 0 {
        1
    } else {
        q.len()
    };
    (1000 * overlap / denom) as int
}

/// `min(1, refs / 10)`, in thousandths.
pub open spec fn density_score(reference_count: usize) -> u32 {
    if reference_count >= 10 {
        SCORE_ONE
    } else {
        (reference_count * 100) as u32
    }
}

fn contains_word(ws: &Vec<String>, w: &String) -> (r: bool)
    ensures
        r == ws@.map_values(|x: String| x@).contains(w@),
{
    let mut i: usize = 0;
    while i < ws.len()
        invariant
            i <= ws@.len(),
            forall|k: int| 0 <= k < i ==> ws@[k]@ != w@,
        decreases ws@.len() - i,
    {
        if str_eq(ws[i].as_str(), w.as_str()) {
            assert(ws@.map_values(|x: String| x@)[i as int] == w@);
            return true;
        }
        i = i + 1;
    }
    proof {
        let m = ws@.map_values(|x: String| x@);
        if m.contains(w@) {
            let k = choose|k: int| 0 <= k < m.len() && m[k] == w@;
            assert(ws@[k]@ == w@);
        }
    }
    false
}

/// Keyword-overlap relevance of an artifact to a query, both already
/// lowercased, in thousandths.
pub fn overlap_relevance(artifact_lower: &str, query_lower: &str) -> (r: u32)
    ensures
        r == overlap_score(artifact_lower@, query_lower@),
        r <= SCORE_ONE,
{
    let a_words = split_words(artifact_lower);
    let q_words = split_words(query_lower);
    let ghost qs = q_words@.map_values(|x: String| x@);
    let ghost aws = a_words@.map_values(|x: String| x@);
    let mut uniq: Vec<String> = Vec::new();
    let mut overlap: usize = 0;
    let mut i: usize = 0;
    while i < q_words.len()
        invariant
            i <= q_words@.len(),
            qs == q_words@.map_values(|x: String| x@),
            aws == a_words@.map_values(|x: String| x@),
            uniq@.map_values(|x: String| x@) == distinct(qs.subrange(0, i as int)),
            overlap == count_present(distinct(qs.subrange(0, i as int)), aws),
            overlap <= uniq@.len(),
            uniq@.len() <= i,
        decreases q_words@.len() - i,
    {
        let ghost pre = qs.subrange(0, i as int);
        let ghost post = qs.subrange(0, i as int + 1);
        assert(post.drop_last() =~= pre);
        assert(post.last() == q_words@[i as int]@);
        let w = &q_words[i];
        if !contains_word(&uniq, w) {
            let ghost d = uniq@.map_values(|x: String| x@);
            let c = crate::text::copy_str(w);
            uniq.push(c);
            assert(uniq@.map_values(|x: String| x@) =~= d.push(w@));
            assert(distinct(post).drop_last() =~= d);
            if contains_word(&a_words, w) {
                overlap = overlap + 1;
            }
        }
        i = i + 1;
    }
    assert(qs.subrange(0, q_words@.len() as int) =~= qs);
    let denom: usize = if uniq.len() == 0 {
        1
    } else {
        uniq.len()
    };
    proof {
        assert(1000 * overlap / denom as int <= 1000) by (nonlinear_arith)
            requires
                overlap <= denom,
                denom >= 1,
        ;
        assert(1000 * overlap <= 1000 * usize::MAX) by (nonlinear_arith)
            requires
                overlap <= usize::MAX,
        ;
    }
    let r: u128 = (1000 * (overlap as u128)) / (denom as u128);
    r as u32
}

/// `min(1, refs / 10)`, in thousandths.
pub fn reference_density(reference_count: usize) -> (r: u32)
    ensures
        r == density_score(reference_count),
        r <= SCORE_ONE,
{
    if reference_count >= 10 {
        SCORE_ONE
    } else {
        (reference_count * 100) as u32
    }
}

/// Relevance from already-lowercased texts and the caller's factors (in
/// thousandths, clamped to `[0, 1000]`).
pub fn relevance_from_lowered(
    artifact_lower: &str,
    query_lower: &str,
    recency_factor: u32,
    complexity_factor: u32,
    reference_count: usize,
) -> (r: RelevanceScore)
    ensures
        r.wf(),
        r.task_relevance == overlap_score(artifact_lower@, query_lower@),
        r.recency == clamp_unit(recency_factor),
        r.complexity == clamp_unit(complexity_factor),
        r.reference_density == density_score(reference_count),
{
    let task = overlap_relevance(artifact_lower, query_lower);
    let density = reference_density(reference_count);
    RelevanceScore::new(task, recency_factor, complexity_factor, density)
}

/// For every score built from components in `[0, 1]`, the total lies in
/// `[0, 1]` (ten-thousandths) and is the 0.4/0.2/0.2/0.2 weighted sum.
pub proof fn lemma_total_in_unit_range(s: RelevanceScore)
    requires
        s.wf(),
    ensures
        s.total <= TOTAL_ONE,
        s.total == 4 * s.task_relevance + 2 * s.recency + 2 * s.complexity + 2
            * s.reference_density,
{
}

} // verus!
