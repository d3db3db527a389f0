//! Configuration overrides from environment variables. The caller reads the
//! process environment and hands the pairs in; a later override of the same
//! field wins, and a value that does not parse leaves the field unchanged.
use vstd::prelude::*;

use crate::ocr::DeepseekConfig;
use crate::text::{copy_str, lower_of, lowercase, str_eq};
use crate::tools::AutodevConfig;

verus! {

/// Environment pairs as the contracts see them.
pub open spec fn env_view(vars: Seq<(String, String)>) -> Seq<(Seq<char>, Seq<char>)> {
    vars.map_values(|p: (String, String)| (p.0@, p.1@))
}

/// Value of the first pair named `name`.
pub open spec fn env_value(vars: Seq<(Seq<char>, Seq<char>)>, name: Seq<char>) -> Option<Seq<char>>
    decreases vars.len(),
{
    if vars.len() == 0 {
        None
    } else if vars[0].0 == name {
        Some(vars[0].1)
    } else {
        env_value(vars.drop_first(), name)
    }
}

/// Value of the decimal digits `s` (no sign).
pub open spec fn digits_value(s: Seq<char>) -> nat
    decreases s.len(),
{
    if s.len() == 0 {
        0
    } else {
        digits_value(s.drop_last()) * 10 + (s.last() as nat - '0' as nat) as nat
    }
}

pub open spec fn all_digits(s: Seq<char>) -> bool {
    forall|k: int| 0 <= k < s.len() ==> '0' <= #[trigger] s[k] <= '9'
}

/// `s` without one leading `+`.
pub open spec fn unsigned_part(s: Seq<char>) -> Seq<char> {
    if s.len() > 0 && s[0] == '+' {
        s.drop_first()
    } else {
        s
    }
}

/// An unsigned decimal as `str::parse::<u64>` accepts it: an optional `+`,
/// then one or more ASCII digits, within `u64`.
pub open spec fn parse_u64_spec(s: Seq<char>) -> Option<u64> {
    let d = unsigned_part(s);
    if d.len() > 0 && all_digits(d) && digits_value(d) <= u64::MAX {
        Some(digits_value(d) as u64)
    } else {
        None
    }
}

/// Parses an unsigned decimal (see `parse_u64_spec`).
pub fn parse_u64(s: &str) -> (r: Option<u64>)
    ensures
        r == parse_u64_spec(s@),
{
    let n = s.unicode_len();
    let mut start: usize = 0;
    if n > 0 && s.get_char(0) == '+' {
        start = 1;
    }
    let ghost d = s@.subrange(start as int, n as int);
    assert(d =~= unsigned_part(s@));
    if start == n {
        return None;
    }
    let mut v: u64 = 0;
    let mut i = start;
    while i < n
        invariant
            n == s@.len(),
            start <= i <= n,
            d == s@.subrange(start as int, n as int),
            d == unsigned_part(s@),
            all_digits(s@.subrange(start as int, i as int)),
            v == digits_value(s@.subrange(start as int, i as int)),
        decreases n - i,
    {
        let c = s.get_char(i);
        let ghost pre = s@.subrange(start as int, i as int);
        let ghost post = s@.subrange(start as int, i + 1);
        assert(post.drop_last() =~= pre);
        if c < '0' || c > '9' {
            assert(!all_digits(d)) by {
                assert(d[i - start] == c);
            }
            assert(parse_u64_spec(s@) is None);
            return None;
        }
        let dig = (c as u32 - '0' as u32) as u64;
        if v > (u64::MAX - dig) / 10 {
            proof {
                lemma_digits_monotone(d, (i - start + 1) as int);
                assert(digits_value(post) > u64::MAX) by (nonlinear_arith)
                    requires
                        digits_value(post) == v * 10 + dig,
                        v > (u64::MAX - dig) / 10,
                        dig <= 9,
                ;
                assert(d.subrange(0, (i - start + 1) as int) =~= post);
                assert(all_digits(d) ==> digits_value(d) > u64::MAX);
                assert(parse_u64_spec(s@) is None);
            }
            return None;
        }
        v = v * 10 + dig;
        i = i + 1;
    }
    assert(s@.subrange(start as int, n as int) =~= d);
    Some(v)
}

/// Extending a digit string never lowers its value.
proof fn lemma_digits_monotone(d: Seq<char>, k: int)
    requires
        0 <= k <= d.len(),
    ensures
        all_digits(d) ==> digits_value(d) >= digits_value(d.subrange(0, k)),
    decreases d.len() - k,
{
    if k < d.len() {
        lemma_digits_monotone(d, k + 1);
        let a = d.subrange(0, k + 1);
        assert(a.drop_last() =~= d.subrange(0, k));
        if all_digits(d) {
            assert(a.last() == d[k]);
            assert('0' <= d[k] <= '9');
        }
    } else {
        assert(d.subrange(0, k) =~= d);
    }
}

/// A flag value: `true` in any letter case, or `1`.
pub open spec fn flag_value(s: Seq<char>) -> bool {
    lower_of(s) == "true"@ || s == "1"@
}

fn flag(s: &str) -> (r: bool)
    ensures
        r == flag_value(s@),
{
    let l = lowercase(s);
    str_eq(l.as_str(), "true") || str_eq(s, "1")
}

fn lookup<'a>(vars: &'a Vec<(String, String)>, name: &str) -> (r: Option<&'a String>)
    ensures
        match (r, env_value(env_view(vars@), name@)) {
            (Some(v), Some(w)) => v@ == w,
            (None, None) => true,
            _ => false,
        },
{
    let ghost all = env_view(vars@);
    assert(all.subrange(0, all.len() as int) =~= all);
    let mut i: usize = 0;
    while i < vars.len()
        invariant
            i <= vars@.len(),
            all == env_view(vars@),
            env_value(all, name@) == env_value(all.subrange(i as int, all.len() as int), name@),
        decreases vars@.len() - i,
    {
        let ghost rest = all.subrange(i as int, all.len() as int);
        assert(rest.drop_first() =~= all.subrange(i + 1, all.len() as int));
        assert(rest[0] == (vars@[i as int].0@, vars@[i as int].1@));
        if str_eq(vars[i].0.as_str(), name) {
            return Some(&vars[i].1);
        }
        i = i + 1;
    }
    None
}

/// A `u64` override: the parsed value when present and valid, else `cur`.
pub open spec fn u64_override(vars: Seq<(Seq<char>, Seq<char>)>, name: Seq<char>, cur: u64) -> u64 {
    match env_value(vars, name) {
        Some(v) => match parse_u64_spec(v) {
            Some(x) => x,
            None => cur,
        },
        None => cur,
    }
}

/// A `usize` override: the parsed value when present, valid and in range, else `cur`.
pub open spec fn usize_override(
    vars: Seq<(Seq<char>, Seq<char>)>,
    name: Seq<char>,
    cur: usize,
) -> usize {
    match env_value(vars, name) {
        Some(v) => match parse_u64_spec(v) {
            Some(x) => if x <= usize::MAX {
                x as usize
            } else {
                cur
            },
            None => cur,
        },
        None => cur,
    }
}

/// A flag override: the flag value when present, else `cur`.
pub open spec fn flag_override(vars: Seq<(Seq<char>, Seq<char>)>, name: Seq<char>, cur: bool) -> bool {
    match env_value(vars, name) {
        Some(v) => flag_value(v),
        None => cur,
    }
}

fn override_u64(vars: &Vec<(String, String)>, name: &str, cur: u64) -> (r: u64)
    ensures
        r == u64_override(env_view(vars@), name@, cur),
{
    match lookup(vars, name) {
        Some(v) => match parse_u64(v.as_str()) {
            Some(x) => x,
            None => cur,
        },
        None => cur,
    }
}

fn override_usize(vars: &Vec<(String, String)>, name: &str, cur: usize) -> (r: usize)
    ensures
        r == usize_override(env_view(vars@), name@, cur),
{
    match lookup(vars, name) {
        Some(v) => match parse_u64(v.as_str()) {
            Some(x) => if x <= usize::MAX as u64 {
                x as usize
            } else {
                cur
            },
            None => cur,
        },
        None => cur,
    }
}

fn override_flag(vars: &Vec<(String, String)>, name: &str, cur: bool) -> (r: bool)
    ensures
        r == flag_override(env_view(vars@), name@, cur),
{
    match lookup(vars, name) {
        Some(v) => flag(v.as_str()),
        None => cur,
    }
}

fn override_string(vars: &Vec<(String, String)>, name: &str, cur: String) -> (r: String)
    ensures
        r@ == (match env_value(env_view(vars@), name@) {
            Some(v) => v,
            None => cur@,
        }),
{
    match lookup(vars, name) {
        Some(v) => copy_str(v),
        None => cur,
    }
}

impl DeepseekConfig {
    /// This configuration with the OCR environment overrides applied.
    pub fn with_env(self, vars: &Vec<(String, String)>) -> (r: Self)
        ensures
            ({
                let e = env_view(vars@);
                &&& r.enabled == flag_override(e, "DEEPSEEK_OCR_ENABLED"@, self.enabled)
                &&& r.service_url@ == (match env_value(e, "VISION_SERVICE_URL"@) {
                    Some(v) => v,
                    None => self.service_url@,
                })
                &&& (match env_value(e, "VISION_API_KEY"@) {
                    Some(v) => r.api_key matches Some(k) && k@ == v,
                    None => r.api_key == self.api_key,
                })
                &&& r.timeout_ms == u64_override(e, "VISION_TIMEOUT_MS"@, self.timeout_ms)
                &&& r.max_regions_per_request == usize_override(
                    e,
                    "VISION_MAX_REGIONS"@,
                    self.max_regions_per_request,
                )
                &&& r.decode_cache_ttl_secs == u64_override(
                    e,
                    "DEEPSEEK_CACHE_TTL_SECS"@,
                    self.decode_cache_ttl_secs,
                )
                &&& r.decode_cache_max_size == usize_override(
                    e,
                    "DEEPSEEK_CACHE_SIZE"@,
                    self.decode_cache_max_size,
                )
                &&& r.max_concurrent_decodes == usize_override(
                    e,
                    "DEEPSEEK_MAX_CONCURRENT"@,
                    usize_override(e, "VISION_MAX_CONCURRENT_DECODES"@, self.max_concurrent_decodes),
                )
                &&& r.retry_attempts == usize_override(
                    e,
                    "DEEPSEEK_MAX_RETRIES"@,
                    self.retry_attempts,
                )
                &&& r.retry_backoff_ms == u64_override(
                    e,
                    "DEEPSEEK_RETRY_BACKOFF_MS"@,
                    u64_override(e, "VISION_RETRY_BACKOFF_MS"@, self.retry_backoff_ms),
                )
                &&& r.circuit_breaker_failures == usize_override(
                    e,
                    "DEEPSEEK_CIRCUIT_THRESHOLD"@,
                    self.circuit_breaker_failures,
                )
                &&& r.circuit_breaker_reset_secs == u64_override(
                    e,
                    "DEEPSEEK_CIRCUIT_COOLDOWN_SECS"@,
                    self.circuit_breaker_reset_secs,
                )
                &&& r.log_redact_text == flag_override(
                    e,
                    "DEEPSEEK_REDACT_API_KEY"@,
                    self.log_redact_text,
                )
                &&& r.default_fidelity == self.default_fidelity
            }),
    {
        let mut c = self;
        c.enabled = override_flag(vars, "DEEPSEEK_OCR_ENABLED", c.enabled);
        c.service_url = override_string(vars, "VISION_SERVICE_URL", c.service_url);
        match lookup(vars, "VISION_API_KEY") {
            Some(v) => {
                c.api_key = Some(copy_str(v));
            },
            None => {},
        }
        c.timeout_ms = override_u64(vars, "VISION_TIMEOUT_MS", c.timeout_ms);
        c.max_regions_per_request = override_usize(
            vars,
            "VISION_MAX_REGIONS",
            c.max_regions_per_request,
        );
        c.decode_cache_ttl_secs = override_u64(
            vars,
            "DEEPSEEK_CACHE_TTL_SECS",
            c.decode_cache_ttl_secs,
        );
        c.decode_cache_max_size = override_usize(
            vars,
            "DEEPSEEK_CACHE_SIZE",
            c.decode_cache_max_size,
        );
        c.max_concurrent_decodes = override_usize(
            vars,
            "VISION_MAX_CONCURRENT_DECODES",
            c.max_concurrent_decodes,
        );
        c.max_concurrent_decodes = override_usize(
            vars,
            "DEEPSEEK_MAX_CONCURRENT",
            c.max_concurrent_decodes,
        );
        c.retry_attempts = override_usize(vars, "DEEPSEEK_MAX_RETRIES", c.retry_attempts);
        c.retry_backoff_ms = override_u64(vars, "VISION_RETRY_BACKOFF_MS", c.retry_backoff_ms);
        c.retry_backoff_ms = override_u64(vars, "DEEPSEEK_RETRY_BACKOFF_MS", c.retry_backoff_ms);
        c.circuit_breaker_failures = override_usize(
            vars,
            "DEEPSEEK_CIRCUIT_THRESHOLD",
            c.circuit_breaker_failures,
        );
        c.circuit_breaker_reset_secs = override_u64(
            vars,
            "DEEPSEEK_CIRCUIT_COOLDOWN_SECS",
            c.circuit_breaker_reset_secs,
        );
        c.log_redact_text = override_flag(vars, "DEEPSEEK_REDACT_API_KEY", c.log_redact_text);
        c
    }
}

/// `s` without leading and trailing whitespace.
pub open spec fn trimmed(s: Seq<char>) -> Seq<char>
    decreases s.len(),
{
    if s.len() > 0 && crate::text::is_ws(s[0]) {
        trimmed(s.drop_first())
    } else if s.len() > 0 && crate::text::is_ws(s.last()) {
        trimmed(s.drop_last())
    } else {
        s
    }
}

pub fn trim(s: &str) -> (r: String)
    ensures
        r@ == trimmed(s@),
{
    let n = s.unicode_len();
    let mut a: usize = 0;
    let mut b: usize = n;
    assert(s@.subrange(0, n as int) =~= s@);
    while a < b && crate::text::is_whitespace_char(s.get_char(a))
        invariant
            n == s@.len(),
            a <= b <= n,
            b == n,
            trimmed(s@) == trimmed(s@.subrange(a as int, b as int)),
        decreases b - a,
    {
        let ghost t = s@.subrange(a as int, b as int);
        assert(t.drop_first() =~= s@.subrange(a + 1, b as int));
        a = a + 1;
    }
    while a < b && crate::text::is_whitespace_char(s.get_char(b - 1))
        invariant
            n == s@.len(),
            a <= b <= n,
            a < b ==> !crate::text::is_ws(s@[a as int]),
            trimmed(s@) == trimmed(s@.subrange(a as int, b as int)),
        decreases b - a,
    {
        let ghost t = s@.subrange(a as int, b as int);
        assert(t.drop_last() =~= s@.subrange(a as int, b - 1));
        b = b - 1;
    }
    String::from_str(s.substring_char(a, b))
}

/// Pieces of `s` between occurrences of `sep`.
pub open spec fn pieces(s: Seq<char>, sep: char) -> Seq<Seq<char>>
    decreases s.len(),
{
    let i = crate::autodev::find_char_from(s, sep, 0);
    if i < 0 || i >= s.len() {
        seq![s]
    } else {
        seq![s.subrange(0, i)] + pieces(s.subrange(i + 1, s.len() as int), sep)
    }
}

fn split_commas_trimmed(s: &str) -> (r: Vec<String>)
    ensures
        r@.map_values(|x: String| x@) == pieces(s@, ',').map_values(|p: Seq<char>| trimmed(p)),
    decreases s@.len(),
{
    let n = s.unicode_len();
    let mut i: usize = 0;
    while i < n && s.get_char(i) != ','
        invariant
            n == s@.len(),
            i <= n,
            forall|k: int| 0 <= k < i ==> s@[k] != ',',
        decreases n - i,
    {
        i = i + 1;
    }
    proof {
        lemma_find_first(s@, ',', i as int);
    }
    let first = trim(s.substring_char(0, i));
    let ghost fv = first@;
    if i == n {
        let mut v: Vec<String> = Vec::new();
        v.push(first);
        assert(s@.subrange(0, n as int) =~= s@);
        assert(pieces(s@, ',') == seq![s@]);
        assert(v@.map_values(|x: String| x@) =~= pieces(s@, ',').map_values(
            |p: Seq<char>| trimmed(p),
        ));
        v
    } else {
        let rest = split_commas_trimmed(s.substring_char(i + 1, n));
        let mut v: Vec<String> = Vec::new();
        v.push(first);
        let ghost rv = rest@.map_values(|x: String| x@);
        assert(pieces(s@, ',') == seq![s@.subrange(0, i as int)] + pieces(s@.subrange(i + 1, n as int), ','));
        let mut rest = rest;
        v.append(&mut rest);
        assert(v@.map_values(|x: String| x@) =~= seq![fv] + rv);
        assert(v@.map_values(|x: String| x@) =~= pieces(s@, ',').map_values(
            |p: Seq<char>| trimmed(p),
        ));
        v
    }
}

pub(crate) proof fn lemma_find_first(s: Seq<char>, c: char, i: int)
    requires
        0 <= i <= s.len(),
        forall|k: int| 0 <= k < i ==> s[k] != c,
        i < s.len() ==> s[i] == c,
    ensures
        crate::autodev::find_char_from(s, c, 0) == (if i < s.len() {
            i
        } else {
            -1
        }),
{
    assert forall|j: int| 0 <= j <= i implies crate::autodev::find_char_from(s, c, j) == (if i
        < s.len() {
        i
    } else {
        -1
    }) by {
        lemma_find_from(s, c, j, i);
    }
}

proof fn lemma_find_from(s: Seq<char>, c: char, j: int, i: int)
    requires
        0 <= j <= i <= s.len(),
        forall|k: int| 0 <= k < i ==> s[k] != c,
        i < s.len() ==> s[i] == c,
    ensures
        crate::autodev::find_char_from(s, c, j) == (if i < s.len() {
            i
        } else {
            -1
        }),
    decreases i - j,
{
    if j < i {
        lemma_find_from(s, c, j + 1, i);
    }
}

impl AutodevConfig {
    /// This configuration with the orchestrator environment overrides applied;
    /// the allowlist is the comma-separated, trimmed pieces of its variable.
    pub fn with_env(self, vars: &Vec<(String, String)>) -> (r: Self)
        ensures
            ({
                let e = env_view(vars@);
                &&& r.enabled == flag_override(e, "AUTODEV_ENABLED"@, self.enabled)
                &&& r.provider@ == (match env_value(e, "AUTODEV_PROVIDER"@) {
                    Some(v) => v,
                    None => self.provider@,
                })
                &&& r.max_parallel_tasks == usize_override(
                    e,
                    "AUTODEV_MAX_PARALLEL"@,
                    self.max_parallel_tasks,
                )
                &&& r.sandbox_image@ == (match env_value(e, "AUTODEV_SANDBOX_IMAGE"@) {
                    Some(v) => v,
                    None => self.sandbox_image@,
                })
                &&& (match env_value(e, "OPA_URL"@) {
                    Some(v) => r.opa_url matches Some(u) && u@ == v,
                    None => r.opa_url == self.opa_url,
                })
                &&& (match env_value(e, "AUTODEV_ALLOWED_REPOS"@) {
                    Some(v) => r.allowlist_repos@.map_values(|x: String| x@) == pieces(v, ',').map_values(|p: Seq<char>| trimmed(p)),
                    None => r.allowlist_repos == self.allowlist_repos,
                })
                &&& r.max_step_retries == self.max_step_retries
                &&& r.runner_timeout_secs == self.runner_timeout_secs
            }),
    {
        let mut c = self;
        c.enabled = override_flag(vars, "AUTODEV_ENABLED", c.enabled);
        c.provider = override_string(vars, "AUTODEV_PROVIDER", c.provider);
        c.max_parallel_tasks = override_usize(vars, "AUTODEV_MAX_PARALLEL", c.max_parallel_tasks);
        c.sandbox_image = override_string(vars, "AUTODEV_SANDBOX_IMAGE", c.sandbox_image);
        match lookup(vars, "OPA_URL") {
            Some(v) => {
                c.opa_url = Some(copy_str(v));
            },
            None => {},
        }
        match lookup(vars, "AUTODEV_ALLOWED_REPOS") {
            Some(v) => {
                c.allowlist_repos = split_commas_trimmed(v.as_str());
            },
            None => {},
        }
        c
    }
}

} // verus!
