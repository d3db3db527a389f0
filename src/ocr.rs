//! The resilient OCR decode path: configuration, validation, cache split,
//! breaker gate, retry decisions with exponential backoff, and merging.
//!
//! The upstream call and the sleeps happen outside: `begin_decode` says
//! whether an upstream call is needed, `after_attempt` decides what follows
//! each attempt, and `finish_decode` stores and merges the results.
use vstd::prelude::*;

use crate::breaker::{after_failure, after_success, probe_open, after_probe, CircuitBreaker, CircuitBreakerConfig};
use crate::decode_cache::{hits_of, misses_of, stored_all, DecodeCache};
use crate::vision::{validate_decode, DecodedRegion, FidelityLevel, VisionRequestError};

verus! {

/// OCR configuration.
#[derive(Debug, Clone)]
pub struct DeepseekConfig {
    pub enabled: bool,
    pub service_url: String,
    pub api_key: Option<String>,
    pub timeout_ms: u64,
    pub max_regions_per_request: usize,
    pub default_fidelity: String,
    pub decode_cache_ttl_secs: u64,
    pub decode_cache_max_size: usize,
    pub max_concurrent_decodes: usize,
    pub retry_attempts: usize,
    pub retry_backoff_ms: u64,
    pub circuit_breaker_failures: usize,
    pub circuit_breaker_reset_secs: u64,
    pub log_redact_text: bool,
}

impl Default for DeepseekConfig {
    fn default() -> (r: Self)
        ensures
            r.enabled,
            r.api_key is None,
            r.timeout_ms == 5000,
            r.max_regions_per_request == 16,
            r.decode_cache_ttl_secs == 600,
            r.decode_cache_max_size == 1000,
            r.max_concurrent_decodes == 16,
            r.retry_attempts == 2,
            r.retry_backoff_ms == 200,
            r.circuit_breaker_failures == 5,
            r.circuit_breaker_reset_secs == 30,
            r.log_redact_text,
    {
        DeepseekConfig {
            enabled: true,
            service_url: String::from_str("http://localhost:8080"),
            api_key: None,
            timeout_ms: 5000,
            max_regions_per_request: 16,
            default_fidelity: String::from_str("10x"),
            decode_cache_ttl_secs: 600,
            decode_cache_max_size: 1000,
            max_concurrent_decodes: 16,
            retry_attempts: 2,
            retry_backoff_ms: 200,
            circuit_breaker_failures: 5,
            circuit_breaker_reset_secs: 30,
            log_redact_text: true,
        }
    }
}

/// Milliseconds in `secs` seconds, saturating.
pub open spec fn secs_to_ms(secs: u64) -> u64 {
    if secs * 1000 > u64::MAX {
        u64::MAX
    } else {
        (secs * 1000) as u64
    }
}

/// `a · b`, saturating at `u64::MAX`.
fn sat_mul(a: u64, b: u64) -> (r: u64)
    ensures
        r == (if a * b > u64::MAX {
            u64::MAX as int
        } else {
            a * b
        }),
{
    assert((a as int) * (b as int) <= (u64::MAX as int) * (u64::MAX as int)) by (nonlinear_arith)
        requires
            a <= u64::MAX,
            b <= u64::MAX,
    ;
    let p: u128 = (a as u128) * (b as u128);
    if p > u64::MAX as u128 {
        u64::MAX
    } else {
        p as u64
    }
}

fn secs_ms(secs: u64) -> (r: u64)
    ensures
        r == secs_to_ms(secs),
{
    sat_mul(secs, 1000)
}

impl DeepseekConfig {
    /// Request timeout, in milliseconds.
    pub fn timeout(&self) -> (r: u64)
        ensures
            r == self.timeout_ms,
    {
        self.timeout_ms
    }

    /// Cache TTL, in milliseconds.
    pub fn cache_ttl(&self) -> (r: u64)
        ensures
            r == secs_to_ms(self.decode_cache_ttl_secs),
    {
        secs_ms(self.decode_cache_ttl_secs)
    }

    /// Breaker reset timeout, in milliseconds.
    pub fn breaker_reset_timeout(&self) -> (r: u64)
        ensures
            r == secs_to_ms(self.circuit_breaker_reset_secs),
    {
        secs_ms(self.circuit_breaker_reset_secs)
    }

    /// Base retry backoff, in milliseconds.
    pub fn retry_backoff(&self) -> (r: u64)
        ensures
            r == self.retry_backoff_ms,
    {
        self.retry_backoff_ms
    }
}

/// OCR errors.
#[derive(Debug, Clone, PartialEq, Eq)]
pub enum OcrError {
    Disabled,
    CircuitOpen(String),
    RequestFailed(String),
    UpstreamError(String),
    Timeout(String),
    InvalidResponse(String),
    InvalidRequest(VisionRequestError),
}

/// The breaker label of decode calls.
pub open spec fn decode_label() -> Seq<char> {
    seq!['d', 'e', 'c', 'o', 'd', 'e']
}

/// `base · 2^(attempt−1)`, saturating; attempt 0 counts as 1.
pub open spec fn backoff_ms(base: u64, attempt: u32) -> u64 {
    let e: nat = if attempt == 0 {
        0
    } else {
        (attempt - 1) as nat
    };
    if base * vstd::arithmetic::power2::pow2(e) > u64::MAX {
        u64::MAX
    } else {
        (base * vstd::arithmetic::power2::pow2(e)) as u64
    }
}

/// `base · 2^(attempt−1)` milliseconds, saturating.
pub fn calculate_backoff(base: u64, attempt: u32) -> (r: u64)
    ensures
        r == backoff_ms(base, attempt),
{
    let e: u32 = if attempt == 0 {
        0
    } else {
        attempt - 1
    };
    let mut m: u64 = 1;
    let mut k: u32 = 0;
    let mut saturated = false;
    proof {
        vstd::arithmetic::power2::lemma2_to64();
    }
    while k < e
        invariant
            k <= e,
            !saturated ==> m == vstd::arithmetic::power2::pow2(k as nat),
            saturated ==> vstd::arithmetic::power2::pow2(k as nat) > u64::MAX,
        decreases e - k,
    {
        proof {
            vstd::arithmetic::power2::lemma_pow2_adds(k as nat, 1);
            vstd::arithmetic::power2::lemma2_to64();
        }
        if !saturated && m <= u64::MAX / 2 {
            m = m * 2;
        } else {
            saturated = true;
        }
        k = k + 1;
    }
    let ghost p = vstd::arithmetic::power2::pow2(e as nat);
    if saturated {
        if base == 0 {
            assert(base * p == 0);
            0
        } else {
            assert(base * p >= p) by (nonlinear_arith)
                requires
                    base >= 1,
                    p >= 0,
            ;
            u64::MAX
        }
    } else {
        sat_mul(base, m)
    }
}

/// How a decode request continues after validation and the cache split.
#[derive(Debug)]
pub enum DecodeStart {
    /// Every region was cached: the answer, in request order.
    Cached(Vec<DecodedRegion>),
    /// The misses must be decoded upstream; the hits are kept for the merge.
    Upstream { hits: Vec<DecodedRegion>, misses: Vec<String> },
    /// The request is refused.
    Rejected(OcrError),
}

/// What follows one upstream attempt.
#[derive(Debug)]
pub enum AttemptDecision {
    /// The attempt succeeded with these results.
    Finished(Vec<DecodedRegion>),
    /// Sleep this many milliseconds, then try again.
    RetryAfter(u64),
    /// Attempts are exhausted: surface this error.
    Failed(OcrError),
}

/// OCR decode state shared by all callers: configuration, cache and breaker.
pub struct OcrDecoder {
    config: DeepseekConfig,
    cache: DecodeCache,
    breaker: CircuitBreaker,
}

impl OcrDecoder {
    pub closed spec fn spec_config(&self) -> DeepseekConfig {
        self.config
    }

    pub closed spec fn spec_cache(&self) -> DecodeCache {
        self.cache
    }

    pub closed spec fn spec_breaker(&self) -> CircuitBreaker {
        self.breaker
    }

    pub open spec fn wf(&self) -> bool {
        self.spec_cache().wf() && self.spec_breaker().wf()
    }

    /// A decoder with an empty cache and closed breakers sized from `config`.
    pub fn new(config: DeepseekConfig) -> (r: Self)
        ensures
            r.wf(),
            r.spec_config() == config,
            r.spec_cache().ttl() == secs_to_ms(config.decode_cache_ttl_secs),
            r.spec_cache().capacity() == config.decode_cache_max_size,
            r.spec_cache().view().len() == 0,
            r.spec_breaker().spec_config().failure_threshold == config.circuit_breaker_failures,
            r.spec_breaker().spec_config().reset_timeout_ms == secs_to_ms(
                config.circuit_breaker_reset_secs,
            ),
    {
        let cache = DecodeCache::new(config.cache_ttl(), config.decode_cache_max_size);
        let breaker = CircuitBreaker::new(
            CircuitBreakerConfig {
                failure_threshold: config.circuit_breaker_failures,
                reset_timeout_ms: config.breaker_reset_timeout(),
            },
        );
        OcrDecoder { config, cache, breaker }
    }

    /// Builds a decoder with the given cache and breaker.
    pub fn with_parts(config: DeepseekConfig, cache: DecodeCache, breaker: CircuitBreaker) -> (r:
        Self)
        requires
            cache.wf(),
            breaker.wf(),
        ensures
            r.wf(),
            r.spec_config() == config,
            r.spec_cache() == cache,
            r.spec_breaker() == breaker,
    {
        OcrDecoder { config, cache, breaker }
    }

    pub fn cache(&self) -> (r: &DecodeCache)
        ensures
            *r == self.spec_cache(),
    {
        &self.cache
    }

    pub fn breaker(&self) -> (r: &CircuitBreaker)
        ensures
            *r == self.spec_breaker(),
    {
        &self.breaker
    }

    pub fn config(&self) -> (r: &DeepseekConfig)
        ensures
            *r == self.spec_config(),
    {
        &self.config
    }

    /// Validates the request and consults the cache and the breaker at `now`:
    /// disabled → `Disabled`; no ids or too many → `InvalidRequest`; all cached
    /// → `Cached`; breaker open → `CircuitOpen("decode")`; else `Upstream`.
    pub fn begin_decode(&mut self, region_ids: &Vec<String>, fidelity: FidelityLevel, now: u64) -> (r:
        DecodeStart)
        requires
            old(self).wf(),
        ensures
            final(self).spec_breaker().spec_config() == old(self).spec_breaker().spec_config(),
            forall|o: Seq<char>|
                o != decode_label() ==> final(self).spec_breaker().status(o) == old(
                    self,
                ).spec_breaker().status(o),
            final(self).wf(),
            final(self).spec_config() == old(self).spec_config(),
            final(self).spec_cache() == old(self).spec_cache(),
            ({
                let cfg = old(self).spec_config();
                let c = old(self).spec_cache();
                let ids = region_ids@.map_values(|s: String| s@);
                let hits = hits_of(c.view(), ids, fidelity, now, c.ttl());
                let misses = misses_of(c.view(), ids, fidelity, now, c.ttl());
                let b = old(self).spec_breaker();
                let st = b.status(decode_label());
                let open = probe_open(st, now, b.spec_config().reset_timeout_ms);
                &&& !cfg.enabled ==> (r matches DecodeStart::Rejected(OcrError::Disabled))
                &&& cfg.enabled && region_ids@.len() == 0 ==> (r matches DecodeStart::Rejected(
                    OcrError::InvalidRequest(VisionRequestError::NoRegions),
                ))
                &&& cfg.enabled && region_ids@.len() > cfg.max_regions_per_request
                    && region_ids@.len() > 0 ==> (r matches DecodeStart::Rejected(
                    OcrError::InvalidRequest(VisionRequestError::TooManyRegions),
                ))
                &&& (r matches DecodeStart::Cached(v) ==> misses.len() == 0
                    && v@.map_values(|d: DecodedRegion| d.view()) == hits)
                &&& (r matches DecodeStart::Upstream { hits: h, misses: m } ==> h@.map_values(
                    |d: DecodedRegion| d.view(),
                ) == hits && m@.map_values(|s: String| s@) == misses && misses.len() > 0 && !open)
                &&& (cfg.enabled && 0 < region_ids@.len() <= cfg.max_regions_per_request) ==> {
                    &&& misses.len() == 0 ==> r is Cached
                    &&& misses.len() > 0 && open ==> (r matches DecodeStart::Rejected(
                        OcrError::CircuitOpen(l),
                    ) && l@ == decode_label())
                    &&& misses.len() > 0 && !open ==> r is Upstream
                }
                &&& (cfg.enabled && 0 < region_ids@.len() <= cfg.max_regions_per_request
                    && misses.len() > 0) ==> final(self).spec_breaker().status(decode_label())
                    == after_probe(st, now, b.spec_config().reset_timeout_ms)
                &&& !(cfg.enabled && 0 < region_ids@.len() <= cfg.max_regions_per_request
                    && misses.len() > 0) ==> final(self).spec_breaker() == b
            }),
    {
        if !self.config.enabled {
            return DecodeStart::Rejected(OcrError::Disabled);
        }
        match validate_decode(region_ids, self.config.max_regions_per_request) {
            Err(e) => {
                return DecodeStart::Rejected(OcrError::InvalidRequest(e));
            },
            Ok(()) => {},
        }
        let (hits, misses) = self.cache.split_hits(region_ids, fidelity, now);
        if misses.len() == 0 {
            return DecodeStart::Cached(hits);
        }
        let label = "decode";
        proof {
            reveal_strlit("decode");
            assert(label@ =~= decode_label());
        }
        if self.breaker.is_open(label, now) {
            return DecodeStart::Rejected(OcrError::CircuitOpen(String::from_str(label)));
        }
        DecodeStart::Upstream { hits, misses }
    }

    /// Records the outcome of upstream attempt number `attempt` (from 1) at
    /// `now` in the breaker, once, and decides what follows: the results on
    /// success; after a failure, a retry after `retry_backoff · 2^(attempt−1)`
    /// ms while `attempt <= retry_attempts`, else the error.
    pub fn after_attempt(
        &mut self,
        attempt: u32,
        outcome: Result<Vec<DecodedRegion>, OcrError>,
        now: u64,
    ) -> (r: AttemptDecision)
        requires
            old(self).wf(),
        ensures
            final(self).spec_breaker().spec_config() == old(self).spec_breaker().spec_config(),
            forall|o: Seq<char>|
                o != decode_label() ==> final(self).spec_breaker().status(o) == old(
                    self,
                ).spec_breaker().status(o),
            final(self).wf(),
            final(self).spec_config() == old(self).spec_config(),
            final(self).spec_cache() == old(self).spec_cache(),
            ({
                let b = old(self).spec_breaker();
                let st = b.status(decode_label());
                let cfg = old(self).spec_config();
                &&& (outcome matches Ok(v) ==> r == AttemptDecision::Finished(v)
                    && final(self).spec_breaker().status(decode_label()) == after_success(st))
                &&& (outcome matches Err(e) ==> final(self).spec_breaker().status(decode_label())
                    == after_failure(st, now, b.spec_config().failure_threshold) && (if attempt
                    > cfg.retry_attempts {
                    r == AttemptDecision::Failed(e)
                } else {
                    r == AttemptDecision::RetryAfter(backoff_ms(cfg.retry_backoff_ms, attempt))
                }))
            }),
    {
        let label = "decode";
        proof {
            reveal_strlit("decode");
            assert(label@ =~= decode_label());
        }
        match outcome {
            Ok(results) => {
                self.breaker.mark_success(label);
                AttemptDecision::Finished(results)
            },
            Err(e) => {
                self.breaker.mark_failure(label, now);
                if attempt as usize > self.config.retry_attempts {
                    AttemptDecision::Failed(e)
                } else {
                    AttemptDecision::RetryAfter(calculate_backoff(self.config.retry_backoff_ms, attempt))
                }
            },
        }
    }

    /// Admission of a call to the upstream operation `operation` (such as
    /// `index` or `status`) at `now`: `Disabled` when OCR is off,
    /// `CircuitOpen(operation)` when its breaker rejects, else `Ok`.
    pub fn gate_call(&mut self, operation: &str, now: u64) -> (r: Result<(), OcrError>)
        requires
            old(self).wf(),
        ensures
            final(self).spec_breaker().spec_config() == old(self).spec_breaker().spec_config(),
            final(self).wf(),
            final(self).spec_config() == old(self).spec_config(),
            final(self).spec_cache() == old(self).spec_cache(),
            ({
                let b = old(self).spec_breaker();
                let st = b.status(operation@);
                let open = probe_open(st, now, b.spec_config().reset_timeout_ms);
                &&& !old(self).spec_config().enabled ==> r == Err::<(), OcrError>(OcrError::Disabled)
                    && final(self).spec_breaker() == b
                &&& old(self).spec_config().enabled ==> {
                    &&& final(self).spec_breaker().status(operation@) == after_probe(
                        st,
                        now,
                        b.spec_config().reset_timeout_ms,
                    )
                    &&& forall|o: Seq<char>|
                        o != operation@ ==> final(self).spec_breaker().status(o) == b.status(o)
                    &&& (r is Ok <==> !open)
                    &&& (r matches Err(OcrError::CircuitOpen(l)) ==> l@ == operation@)
                    &&& open ==> r is Err
                }
            }),
    {
        if !self.config.enabled {
            return Err(OcrError::Disabled);
        }
        if self.breaker.is_open(operation, now) {
            return Err(OcrError::CircuitOpen(String::from_str(operation)));
        }
        Ok(())
    }

    /// Records the outcome of one upstream call of `operation` in its breaker.
    pub fn record_outcome(&mut self, operation: &str, succeeded: bool, now: u64)
        requires
            old(self).wf(),
        ensures
            final(self).spec_breaker().spec_config() == old(self).spec_breaker().spec_config(),
            final(self).wf(),
            final(self).spec_config() == old(self).spec_config(),
            final(self).spec_cache() == old(self).spec_cache(),
            ({
                let b = old(self).spec_breaker();
                let st = b.status(operation@);
                &&& succeeded ==> final(self).spec_breaker().status(operation@) == after_success(st)
                &&& !succeeded ==> final(self).spec_breaker().status(operation@) == after_failure(
                    st,
                    now,
                    b.spec_config().failure_threshold,
                )
                &&& forall|o: Seq<char>|
                    o != operation@ ==> final(self).spec_breaker().status(o) == b.status(o)
            }),
    {
        if succeeded {
            self.breaker.mark_success(operation);
        } else {
            self.breaker.mark_failure(operation, now);
        }
    }

    /// Stores the upstream results in the cache at `now` and returns the hits
    /// followed by the results.
    pub fn finish_decode(
        &mut self,
        hits: Vec<DecodedRegion>,
        results: Vec<DecodedRegion>,
        fidelity: FidelityLevel,
        now: u64,
    ) -> (r: Vec<DecodedRegion>)
        requires
            old(self).wf(),
        ensures
            final(self).wf(),
            final(self).spec_config() == old(self).spec_config(),
            final(self).spec_breaker() == old(self).spec_breaker(),
            final(self).spec_cache().ttl() == old(self).spec_cache().ttl(),
            final(self).spec_cache().capacity() == old(self).spec_cache().capacity(),
            final(self).spec_cache().view() == stored_all(
                old(self).spec_cache().view(),
                old(self).spec_cache().capacity(),
                results@.map_values(|d: DecodedRegion| d.view()),
                fidelity,
                now,
            ),
            r@ == hits@ + results@,
    {
        self.cache.store_batch(&results, fidelity, now);
        let mut out = hits;
        let mut rest = results;
        let ghost a = out@;
        let ghost b = rest@;
        out.append(&mut rest);
        assert(out@ =~= a + b);
        out
    }
}

/// HTTP status and error code for a decode failure.
pub fn decode_error_status(e: &OcrError) -> (r: (u16, &'static str))
    ensures
        r.0 == (match e {
            OcrError::Disabled => 503u16,
            OcrError::CircuitOpen(_) => 503u16,
            OcrError::Timeout(_) => 504u16,
            OcrError::InvalidRequest(_) => 400u16,
            _ => 502u16,
        }),
        r.1@ == (match e {
            OcrError::Disabled => "UPSTREAM_DISABLED"@,
            OcrError::CircuitOpen(_) => "UPSTREAM_ERROR"@,
            OcrError::Timeout(_) => "TIMEOUT"@,
            OcrError::InvalidRequest(_) => "VALIDATION_ERROR"@,
            _ => "UPSTREAM_ERROR"@,
        }),
{
    match e {
        OcrError::Disabled => (503, "UPSTREAM_DISABLED"),
        OcrError::CircuitOpen(_) => (503, "UPSTREAM_ERROR"),
        OcrError::Timeout(_) => (504, "TIMEOUT"),
        OcrError::InvalidRequest(_) => (400, "VALIDATION_ERROR"),
        _ => (502, "UPSTREAM_ERROR"),
    }
}

} // verus!
