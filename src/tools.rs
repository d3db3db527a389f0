//! Tools of the orchestrator: their names, settings and the pure parts of
//! their work (repository slugs, policy endpoints). The tools themselves run
//! processes and HTTP calls outside the library.
use vstd::prelude::*;

use crate::autodev::{RunnerResult, SearchMatch};
use crate::text::{copy_str, str_eq};

verus! {

/// Closed set of tool failures.
#[derive(Debug, Clone, PartialEq, Eq)]
pub enum ToolError {
    Exec(String),
    Policy(String),
    Invalid(String),
    Upstream(String),
    Timeout(u64),
    Io(String),
    Json(String),
    Git(String),
    Build(String),
    TestFailed(String),
}

/// Git identity and credentials settings.
#[derive(Debug, Clone)]
pub struct GitConfig {
    pub github_token_env: String,
    pub git_author_name: String,
    pub git_author_email: String,
}

impl Default for GitConfig {
    fn default() -> (r: Self)
        ensures
            r.github_token_env@ == "GITHUB_TOKEN"@,
            r.git_author_name@ == "AutoDev Bot"@,
            r.git_author_email@ == "autodev@example.com"@,
    {
        GitConfig {
            github_token_env: String::from_str("GITHUB_TOKEN"),
            git_author_name: String::from_str("AutoDev Bot"),
            git_author_email: String::from_str("autodev@example.com"),
        }
    }
}

/// Code-generation model settings; `temperature_milli` in thousandths.
#[derive(Debug, Clone)]
pub struct LlmConfig {
    pub provider: String,
    pub model: String,
    pub api_key_env: String,
    pub api_url: String,
    pub max_tokens: u32,
    pub temperature_milli: u32,
}

impl Default for LlmConfig {
    fn default() -> (r: Self)
        ensures
            r.provider@ == "openai"@,
            r.model@ == "gpt-4"@,
            r.max_tokens == 4096,
            r.temperature_milli == 200,
    {
        LlmConfig {
            provider: String::from_str("openai"),
            model: String::from_str("gpt-4"),
            api_key_env: String::from_str("OPENAI_API_KEY"),
            api_url: String::from_str("https://api.openai.com/v1/chat/completions"),
            max_tokens: 4096,
            temperature_milli: 200,
        }
    }
}

/// Orchestrator settings.
#[derive(Debug, Clone)]
pub struct AutodevConfig {
    pub enabled: bool,
    pub provider: String,
    pub max_parallel_tasks: usize,
    pub max_step_retries: u32,
    pub default_risk_tier: String,
    pub sandbox_image: String,
    pub runner_timeout_secs: u32,
    pub opa_url: Option<String>,
    pub policy_package: String,
    pub allowlist_repos: Vec<String>,
    pub llm: LlmConfig,
    pub git: GitConfig,
}

impl Default for AutodevConfig {
    fn default() -> (r: Self)
        ensures
            r.enabled,
            r.provider@ == "github"@,
            r.max_parallel_tasks == 4,
            r.max_step_retries == 2,
            r.runner_timeout_secs == 1200,
            r.opa_url is None,
            r.allowlist_repos@.len() == 0,
    {
        AutodevConfig {
            enabled: true,
            provider: String::from_str("github"),
            max_parallel_tasks: 4,
            max_step_retries: 2,
            default_risk_tier: String::from_str("low"),
            sandbox_image: String::from_str("rust:1.82"),
            runner_timeout_secs: 1200,
            opa_url: None,
            policy_package: String::from_str("autodev/merge"),
            allowlist_repos: Vec::new(),
            llm: LlmConfig::default(),
            git: GitConfig::default(),
        }
    }
}

/// `s` with every trailing `.git` removed.
pub open spec fn strip_git(s: Seq<char>) -> Seq<char>
    decreases s.len(),
{
    if s.len() >= 4 && s.subrange(s.len() - 4, s.len() as int) == ".git"@ {
        strip_git(s.subrange(0, s.len() - 4))
    } else {
        s
    }
}

/// Index of the last `/` in `s[..end]`, or -1.
pub open spec fn last_slash(s: Seq<char>, end: int) -> int
    decreases end,
{
    if end <= 0 || end > s.len() {
        -1
    } else if s[end - 1] == '/' {
        end - 1
    } else {
        last_slash(s, end - 1)
    }
}

/// Owner and repository of a repository URL: its last two `/`-separated
/// segments, after removing trailing `.git`; none without a `/`.
pub open spec fn repo_slug_spec(url: Seq<char>) -> Option<(Seq<char>, Seq<char>)> {
    let t = strip_git(url);
    let i = last_slash(t, t.len() as int);
    if i < 0 {
        None
    } else {
        let j = last_slash(t, i);
        Some((t.subrange(j + 1, i), t.subrange(i + 1, t.len() as int)))
    }
}

fn strip_git_suffix(url: &str) -> (r: String)
    ensures
        r@ == strip_git(url@),
{
    let mut cur = String::from_str(url);
    let suffix = ".git";
    proof {
        reveal_strlit(".git");
        assert(suffix@ =~= seq!['.', 'g', 'i', 't']);
    }
    let mut done = false;
    while !done
        invariant
            suffix@ == ".git"@,
            suffix@.len() == 4,
            strip_git(cur@) == strip_git(url@),
            done ==> strip_git(cur@) == cur@,
        decreases cur@.len() + (if done {
            0int
        } else {
            1int
        }),
    {
        if crate::text::ends_with_str(cur.as_str(), suffix) {
            let n = cur.unicode_len();
            let shorter = String::from_str(cur.as_str().substring_char(0, n - 4));
            cur = shorter;
        } else {
            done = true;
        }
    }
    cur
}

fn find_last_slash(s: &str, end: usize) -> (r: Option<usize>)
    requires
        end <= s@.len(),
    ensures
        last_slash(s@, end as int) == (match r {
            Some(i) => i as int,
            None => -1,
        }),
        r matches Some(i) ==> i < end,
{
    let mut k = end;
    while k > 0
        invariant
            k <= end,
            end <= s@.len(),
            last_slash(s@, end as int) == last_slash(s@, k as int),
        decreases k,
    {
        if s.get_char(k - 1) == '/' {
            return Some(k - 1);
        }
        k = k - 1;
    }
    None
}

/// Owner and repository of a repository URL (see `repo_slug_spec`).
pub fn repo_slug(url: &str) -> (r: Option<(String, String)>)
    ensures
        match (r, repo_slug_spec(url@)) {
            (Some((o, n)), Some((so, sn))) => o@ == so && n@ == sn,
            (None, None) => true,
            _ => false,
        },
{
    let t = strip_git_suffix(url);
    let n = t.unicode_len();
    match find_last_slash(t.as_str(), n) {
        None => None,
        Some(i) => {
            let j = find_last_slash(t.as_str(), i);
            let start: usize = match j {
                Some(j) => j + 1,
                None => 0,
            };
            let owner = String::from_str(t.as_str().substring_char(start, i));
            let repo = String::from_str(t.as_str().substring_char(i + 1, n));
            Some((owner, repo))
        },
    }
}

/// `s` with each `::` replaced by `/`.
pub open spec fn colons_to_slashes(s: Seq<char>) -> Seq<char>
    decreases s.len(),
{
    if s.len() == 0 {
        s
    } else if s.len() >= 2 && s[0] == ':' && s[1] == ':' {
        seq!['/'] + colons_to_slashes(s.subrange(2, s.len() as int))
    } else {
        seq![s[0]] + colons_to_slashes(s.subrange(1, s.len() as int))
    }
}

fn replace_colons(s: &str) -> (r: String)
    ensures
        r@ == colons_to_slashes(s@),
{
    let n = s.unicode_len();
    let mut out = String::new();
    let mut i: usize = 0;
    let slash = "/";
    proof {
        reveal_strlit("/");
        assert(slash@ =~= seq!['/']);
    }
    assert(s@.subrange(0, n as int) =~= s@);
    assert(out@ =~= Seq::<char>::empty());
    while i < n
        invariant
            n == s@.len(),
            i <= n,
            slash@ == seq!['/'],
            out@ + colons_to_slashes(s@.subrange(i as int, n as int)) == colons_to_slashes(s@),
        decreases n - i,
    {
        let ghost rest = s@.subrange(i as int, n as int);
        let c = s.get_char(i);
        assert(rest[0] == c);
        if i + 1 < n {
            assert(rest[1] == s@[i + 1]);
        }
        if c == ':' && i + 1 < n && s.get_char(i + 1) == ':' {
            assert(rest.subrange(2, rest.len() as int) =~= s@.subrange(i + 2, n as int));
            let ghost o = out@;
            out.append(slash);
            assert(out@ + colons_to_slashes(s@.subrange(i + 2, n as int)) =~= o + colons_to_slashes(rest));
            i = i + 2;
        } else {
            assert(rest.subrange(1, rest.len() as int) =~= s@.subrange(i + 1, n as int));
            let one = s.substring_char(i, i + 1);
            let ghost o = out@;
            out.append(one);
            assert(one@ =~= seq![c]);
            assert(out@ + colons_to_slashes(s@.subrange(i + 1, n as int)) =~= o + colons_to_slashes(rest));
            i = i + 1;
        }
    }
    assert(s@.subrange(n as int, n as int) =~= Seq::<char>::empty());
    assert(out@ + Seq::<char>::empty() =~= out@);
    out
}

/// Endpoint of a policy decision: `<opa_url>/v1/data/<package>`, with each
/// `::` of the package written as `/`.
pub fn policy_url(opa_url: &str, policy_package: &str) -> (r: String)
    ensures
        r@ == opa_url@ + "/v1/data/"@ + colons_to_slashes(policy_package@),
{
    let mut s = String::from_str(opa_url);
    s.append("/v1/data/");
    let p = replace_colons(policy_package);
    s.append(p.as_str());
    s
}

/// The `git_apply` tool: create a new branch, apply a patch, and commit changes.
#[derive(Debug, Clone)]
pub struct GitTool {
    pub author_name: String,
    pub author_email: String,
}

impl GitTool {
    pub fn new(author_name: String, author_email: String) -> (r: Self)
        ensures
            r.author_name == author_name,
            r.author_email == author_email,
    {
        GitTool { author_name, author_email }
    }

    /// Registry name of the tool.
    pub fn name(&self) -> (r: &'static str)
        ensures
            r@ == "git_apply"@,
    {
        "git_apply"
    }

    pub fn description(&self) -> (r: &'static str)
        ensures
            r@ == "Create a new branch, apply a patch, and commit changes"@,
    {
        "Create a new branch, apply a patch, and commit changes"
    }
}

/// The `git_pr` tool: create a GitHub pull request.
#[derive(Debug, Clone)]
pub struct GitHubPrTool {
    pub token: String,
}

impl GitHubPrTool {
    pub fn new(token: String) -> (r: Self)
        ensures
            r.token == token,
    {
        GitHubPrTool { token }
    }

    /// Registry name of the tool.
    pub fn name(&self) -> (r: &'static str)
        ensures
            r@ == "git_pr"@,
    {
        "git_pr"
    }

    pub fn description(&self) -> (r: &'static str)
        ensures
            r@ == "Create a GitHub pull request"@,
    {
        "Create a GitHub pull request"
    }
}

/// The `git_push` tool: push branch to remote repository.
#[derive(Debug, Clone)]
pub struct GitPushTool {
    pub token_env: String,
}

impl GitPushTool {
    pub fn new(token_env: String) -> (r: Self)
        ensures
            r.token_env == token_env,
    {
        GitPushTool { token_env }
    }

    /// Registry name of the tool.
    pub fn name(&self) -> (r: &'static str)
        ensures
            r@ == "git_push"@,
    {
        "git_push"
    }

    pub fn description(&self) -> (r: &'static str)
        ensures
            r@ == "Push branch to remote repository"@,
    {
        "Push branch to remote repository"
    }
}

/// The `git_clone` tool: clone a git repository.
#[derive(Debug, Clone, Copy)]
pub struct GitCloneTool;

impl GitCloneTool {
    pub fn new() -> (r: Self)
    {
        GitCloneTool
    }

    /// Registry name of the tool.
    pub fn name(&self) -> (r: &'static str)
        ensures
            r@ == "git_clone"@,
    {
        "git_clone"
    }

    pub fn description(&self) -> (r: &'static str)
        ensures
            r@ == "Clone a git repository"@,
    {
        "Clone a git repository"
    }
}

/// The `policy` tool: check policy compliance using OPA.
#[derive(Debug, Clone)]
pub struct PolicyTool {
    pub opa_url: String,
    pub policy_package: String,
}

impl PolicyTool {
    pub fn new(opa_url: String, policy_package: String) -> (r: Self)
        ensures
            r.opa_url == opa_url,
            r.policy_package == policy_package,
    {
        PolicyTool { opa_url, policy_package }
    }

    /// Registry name of the tool.
    pub fn name(&self) -> (r: &'static str)
        ensures
            r@ == "policy"@,
    {
        "policy"
    }

    pub fn description(&self) -> (r: &'static str)
        ensures
            r@ == "Check policy compliance using OPA"@,
    {
        "Check policy compliance using OPA"
    }
}

/// The `policy_local` tool: check policy compliance using local rules (fallback).
#[derive(Debug, Clone, Copy)]
pub struct LocalPolicyTool;

impl LocalPolicyTool {
    pub fn new() -> (r: Self)
    {
        LocalPolicyTool
    }

    /// Registry name of the tool.
    pub fn name(&self) -> (r: &'static str)
        ensures
            r@ == "policy_local"@,
    {
        "policy_local"
    }

    pub fn description(&self) -> (r: &'static str)
        ensures
            r@ == "Check policy compliance using local rules (fallback)"@,
    {
        "Check policy compliance using local rules (fallback)"
    }
}

/// The `runner` tool: execute build and test commands in a sandboxed Docker container.
#[derive(Debug, Clone)]
pub struct RunnerTool {
    pub image: String,
    pub timeout_secs: u64,
}

impl RunnerTool {
    pub fn new(image: String, timeout_secs: u64) -> (r: Self)
        ensures
            r.image == image,
            r.timeout_secs == timeout_secs,
    {
        RunnerTool { image, timeout_secs }
    }

    /// Registry name of the tool.
    pub fn name(&self) -> (r: &'static str)
        ensures
            r@ == "runner"@,
    {
        "runner"
    }

    pub fn description(&self) -> (r: &'static str)
        ensures
            r@ == "Execute build and test commands in a sandboxed Docker container"@,
    {
        "Execute build and test commands in a sandboxed Docker container"
    }
}

/// The `build` tool: build the project (cargo build).
#[derive(Debug, Clone)]
pub struct BuildTool {
    pub image: String,
    pub timeout_secs: u64,
}

impl BuildTool {
    pub fn new(image: String, timeout_secs: u64) -> (r: Self)
        ensures
            r.image == image,
            r.timeout_secs == timeout_secs,
    {
        BuildTool { image, timeout_secs }
    }

    /// Registry name of the tool.
    pub fn name(&self) -> (r: &'static str)
        ensures
            r@ == "build"@,
    {
        "build"
    }

    pub fn description(&self) -> (r: &'static str)
        ensures
            r@ == "Build the project (cargo build)"@,
    {
        "Build the project (cargo build)"
    }
}

/// The `test` tool: run tests (cargo test).
#[derive(Debug, Clone)]
pub struct TestTool {
    pub image: String,
    pub timeout_secs: u64,
}

impl TestTool {
    pub fn new(image: String, timeout_secs: u64) -> (r: Self)
        ensures
            r.image == image,
            r.timeout_secs == timeout_secs,
    {
        TestTool { image, timeout_secs }
    }

    /// Registry name of the tool.
    pub fn name(&self) -> (r: &'static str)
        ensures
            r@ == "test"@,
    {
        "test"
    }

    pub fn description(&self) -> (r: &'static str)
        ensures
            r@ == "Run tests (cargo test)"@,
    {
        "Run tests (cargo test)"
    }
}

/// The `repo_search` tool: search repository for text patterns using ripgrep.
#[derive(Debug, Clone)]
pub struct RepoSearchTool {
    pub max_results: usize,
}

impl RepoSearchTool {
    pub fn new(max_results: usize) -> (r: Self)
        ensures
            r.max_results == max_results,
    {
        RepoSearchTool { max_results }
    }

    /// Registry name of the tool.
    pub fn name(&self) -> (r: &'static str)
        ensures
            r@ == "repo_search"@,
    {
        "repo_search"
    }

    pub fn description(&self) -> (r: &'static str)
        ensures
            r@ == "Search repository for text patterns using ripgrep"@,
    {
        "Search repository for text patterns using ripgrep"
    }
}

/// The `file_list` tool: list files in the repository.
#[derive(Debug, Clone, Copy)]
pub struct FileListTool;

impl FileListTool {
    pub fn new() -> (r: Self)
    {
        FileListTool
    }

    /// Registry name of the tool.
    pub fn name(&self) -> (r: &'static str)
        ensures
            r@ == "file_list"@,
    {
        "file_list"
    }

    pub fn description(&self) -> (r: &'static str)
        ensures
            r@ == "List files in the repository"@,
    {
        "List files in the repository"
    }
}

/// The `clippy` tool: run Rust clippy static analysis.
#[derive(Debug, Clone)]
pub struct ClippyTool {
    pub image: String,
}

impl ClippyTool {
    pub fn new(image: String) -> (r: Self)
        ensures
            r.image == image,
    {
        ClippyTool { image }
    }

    /// Registry name of the tool.
    pub fn name(&self) -> (r: &'static str)
        ensures
            r@ == "clippy"@,
    {
        "clippy"
    }

    pub fn description(&self) -> (r: &'static str)
        ensures
            r@ == "Run Rust clippy static analysis"@,
    {
        "Run Rust clippy static analysis"
    }
}

/// The `secrets_scan` tool: scan for secrets and credentials in code.
#[derive(Debug, Clone, Copy)]
pub struct SecretsScanner;

impl SecretsScanner {
    pub fn new() -> (r: Self)
    {
        SecretsScanner
    }

    /// Registry name of the tool.
    pub fn name(&self) -> (r: &'static str)
        ensures
            r@ == "secrets_scan"@,
    {
        "secrets_scan"
    }

    pub fn description(&self) -> (r: &'static str)
        ensures
            r@ == "Scan for secrets and credentials in code"@,
    {
        "Scan for secrets and credentials in code"
    }
}

/// The `check_deps` tool: check project dependencies.
#[derive(Debug, Clone, Copy)]
pub struct DependencyChecker;

impl DependencyChecker {
    pub fn new() -> (r: Self)
    {
        DependencyChecker
    }

    /// Registry name of the tool.
    pub fn name(&self) -> (r: &'static str)
        ensures
            r@ == "check_deps"@,
    {
        "check_deps"
    }

    pub fn description(&self) -> (r: &'static str)
        ensures
            r@ == "Check project dependencies"@,
    {
        "Check project dependencies"
    }
}
/// One message of the search tool's JSON stream, with the fields it may carry.
#[derive(Debug, Clone)]
pub struct SearchEntry {
    pub msg_type: String,
    pub path: Option<String>,
    pub line_number: Option<u32>,
    pub text: Option<String>,
}

/// The entry is a complete match message.
pub open spec fn is_match_entry(e: SearchEntry) -> bool {
    e.msg_type@ == "match"@ && e.path is Some && e.line_number is Some && e.text is Some
}

/// The complete match messages, in order.
pub open spec fn match_entries(s: Seq<SearchEntry>) -> Seq<SearchEntry>
    decreases s.len(),
{
    if s.len() == 0 {
        seq![]
    } else if is_match_entry(s.last()) {
        match_entries(s.drop_last()).push(s.last())
    } else {
        match_entries(s.drop_last())
    }
}

/// Search hits from the tool's messages: only complete `match` messages, in
/// order, at most `max_results` of them.
pub fn collect_matches(entries: Vec<SearchEntry>, max_results: usize) -> (r: Vec<SearchMatch>)
    ensures
        r@.len() == (if match_entries(entries@).len() < max_results {
            match_entries(entries@).len()
        } else {
            max_results as nat
        }),
        forall|k: int|
            0 <= k < r@.len() ==> {
                let e = match_entries(entries@)[k];
                &&& (#[trigger] r@[k]).file == e.path->Some_0
                &&& r@[k].line == e.line_number->Some_0
                &&& r@[k].text == e.text->Some_0
                &&& r@[k].context is None
            },
{
    let ghost all = entries@;
    let n = entries.len();
    let mut rest = entries;
    let mut out: Vec<SearchMatch> = Vec::new();
    let mut j: usize = 0;
    proof {
        reveal_strlit("match");
    }
    while j < n
        invariant
            n == all.len(),
            j <= n,
            rest@ == all.subrange(j as int, n as int),
            out@.len() == (if match_entries(all.subrange(0, j as int)).len() < max_results {
                match_entries(all.subrange(0, j as int)).len()
            } else {
                max_results as nat
            }),
            forall|k: int|
                0 <= k < out@.len() ==> {
                    let e = match_entries(all.subrange(0, j as int))[k];
                    &&& (#[trigger] out@[k]).file == e.path->Some_0
                    &&& out@[k].line == e.line_number->Some_0
                    &&& out@[k].text == e.text->Some_0
                    &&& out@[k].context is None
                },
        decreases n - j,
    {
        let e = rest.remove(0);
        assert(e == all[j as int]);
        assert(rest@ =~= all.subrange(j + 1, n as int));
        let ghost pre = all.subrange(0, j as int);
        let ghost post = all.subrange(0, j + 1);
        assert(post.drop_last() =~= pre);
        assert(post.last() == e);
        let SearchEntry { msg_type, path, line_number, text } = e;
        if str_eq(msg_type.as_str(), "match") {
            match (path, line_number, text) {
                (Some(file), Some(line), Some(t)) => {
                    if out.len() < max_results {
                        out.push(SearchMatch { file, line, text: t, context: None });
                    }
                },
                _ => {},
            }
        }
        j = j + 1;
    }
    assert(all.subrange(0, n as int) =~= all);
    out
}

/// Which runner wrapper judged a command's result.
#[derive(Debug, Clone, Copy, PartialEq, Eq, Structural)]
pub enum RunKind {
    Build,
    Test,
}

/// A zero exit code passes; otherwise a build fails with `Build` and a test
/// run with `TestFailed`.
pub fn judge_run(kind: RunKind, result: RunnerResult) -> (r: Result<RunnerResult, ToolError>)
    ensures
        result.exit_code == 0 ==> r == Ok::<RunnerResult, ToolError>(result),
        result.exit_code != 0 && kind == RunKind::Build ==> r is Err && (r->Err_0 is Build),
        result.exit_code != 0 && kind == RunKind::Test ==> r is Err && (r->Err_0 is TestFailed),
{
    if result.exit_code == 0 {
        return Ok(result);
    }
    let detail = copy_str(&result.stderr);
    match kind {
        RunKind::Build => Err(ToolError::Build(detail)),
        RunKind::Test => Err(ToolError::TestFailed(detail)),
    }
}

/// A manifest line declares something: it holds `=` and, past leading
/// whitespace, does not start with `#`.
pub open spec fn declares(l: Seq<char>) -> bool {
    &&& exists|k: int| 0 <= k < l.len() && l[k] == '='
    &&& !(exists|k: int|
        0 <= k < l.len() && l[k] == '#' && forall|j: int| 0 <= j < k ==> crate::text::is_ws(
            #[trigger] l[j],
        ))
}

/// Number of declaring lines among `ls`.
pub open spec fn count_declaring(ls: Seq<Seq<char>>) -> nat
    decreases ls.len(),
{
    if ls.len() == 0 {
        0
    } else {
        count_declaring(ls.drop_last()) + if declares(ls.last()) {
            1nat
        } else {
            0nat
        }
    }
}

fn line_declares(l: &str) -> (r: bool)
    ensures
        r == declares(l@),
{
    let n = l.unicode_len();
    let mut has_eq = false;
    let mut i: usize = 0;
    while i < n
        invariant
            n == l@.len(),
            i <= n,
            has_eq == exists|k: int| 0 <= k < i && l@[k] == '=',
        decreases n - i,
    {
        if l.get_char(i) == '=' {
            has_eq = true;
        }
        i = i + 1;
    }
    let mut k: usize = 0;
    while k < n && crate::text::is_whitespace_char(l.get_char(k))
        invariant
            n == l@.len(),
            k <= n,
            forall|j: int| 0 <= j < k ==> crate::text::is_ws(#[trigger] l@[j]),
        decreases n - k,
    {
        k = k + 1;
    }
    let hash_first = k < n && l.get_char(k) == '#';
    proof {
        if !hash_first {
            assert forall|m: int|
                !(0 <= m < l@.len() && l@[m] == '#' && forall|j: int|
                    0 <= j < m ==> crate::text::is_ws(#[trigger] l@[j])) by {
                if 0 <= m < l@.len() && l@[m] == '#' && forall|j: int|
                    0 <= j < m ==> crate::text::is_ws(#[trigger] l@[j]) {
                    if m < k {
                        assert(crate::text::is_ws(l@[m]));
                    } else if m > k {
                        assert(crate::text::is_ws(l@[k as int]));
                    }
                }
            }
        }
    }
    has_eq && !hash_first
}

/// Number of declaring lines of a manifest (see `declares`), lines being
/// the pieces between newlines; saturating at `usize::MAX`.
pub fn count_declared_dependencies(manifest: &str) -> (r: usize)
    ensures
        r == crate::token_budget::sat_usize(count_declaring(crate::env::pieces(manifest@, '\n')) as int),
    decreases manifest@.len(),
{
    let n = manifest.unicode_len();
    let mut i: usize = 0;
    while i < n && manifest.get_char(i) != '\n'
        invariant
            n == manifest@.len(),
            i <= n,
            forall|k: int| 0 <= k < i ==> manifest@[k] != '\n',
        decreases n - i,
    {
        i = i + 1;
    }
    proof {
        crate::env::lemma_find_first(manifest@, '\n', i as int);
    }
    let first: usize = if line_declares(manifest.substring_char(0, i)) {
        1
    } else {
        0
    };
    if i == n {
        assert(manifest@.subrange(0, n as int) =~= manifest@);
        let ghost p = crate::env::pieces(manifest@, '\n');
        assert(p == seq![manifest@]);
        assert(p.drop_last() =~= Seq::<Seq<char>>::empty());
        assert(p.last() == manifest@);
        assert(count_declaring(p) == count_declaring(p.drop_last()) + if declares(p.last()) {
            1nat
        } else {
            0nat
        });
        first
    } else {
        let rest = count_declared_dependencies(manifest.substring_char(i + 1, n));
        let ghost head = manifest@.subrange(0, i as int);
        let ghost tail = crate::env::pieces(manifest@.subrange(i + 1, n as int), '\n');
        assert(crate::env::pieces(manifest@, '\n') == seq![head] + tail);
        proof {
            lemma_count_prepend(head, tail);
        }
        if rest < usize::MAX {
            rest + first
        } else {
            rest
        }
    }
}

proof fn lemma_count_prepend(h: Seq<char>, t: Seq<Seq<char>>)
    ensures
        count_declaring(seq![h] + t) == count_declaring(t) + if declares(h) {
            1nat
        } else {
            0nat
        },
    decreases t.len(),
{
    let a = seq![h] + t;
    if t.len() > 0 {
        lemma_count_prepend(h, t.drop_last());
        assert(a.drop_last() =~= seq![h] + t.drop_last());
        assert(a.last() == t.last());
    } else {
        assert(a =~= seq![h]);
        assert(a.drop_last() =~= Seq::<Seq<char>>::empty());
        assert(count_declaring(Seq::<Seq<char>>::empty()) == 0);
    }
}

/// Names of the tools an orchestrator is built with, in registration order:
/// the PR and push tools only with a GitHub token, code generation only with
/// a model API key, the remote policy tool only with a policy engine URL.
pub open spec fn tool_set(opa_configured: bool, has_github_token: bool, has_llm_key: bool) -> Seq<
    Seq<char>,
> {
    seq!["git_clone"@, "git_apply"@] + (if has_github_token {
        seq!["git_pr"@, "git_push"@]
    } else {
        seq![]
    }) + seq!["runner"@, "build"@, "test"@] + (if has_llm_key {
        seq!["codegen"@]
    } else {
        seq![]
    }) + (if opa_configured {
        seq!["policy"@]
    } else {
        seq![]
    }) + seq!["policy_local"@, "repo_search"@, "file_list"@, "clippy"@, "secrets_scan"@, "check_deps"@]
}

fn push_name(v: &mut Vec<&'static str>, name: &'static str)
    ensures
        final(v)@.map_values(|x: &str| x@) == old(v)@.map_values(|x: &str| x@).push(name@),
{
    let ghost before = v@.map_values(|x: &str| x@);
    v.push(name);
    assert(v@.map_values(|x: &str| x@) =~= before.push(name@));
}

/// The tool names of `tool_set`, in order.
pub fn available_tools(opa_configured: bool, has_github_token: bool, has_llm_key: bool) -> (r: Vec<
    &'static str,
>)
    ensures
        r@.map_values(|x: &str| x@) == tool_set(opa_configured, has_github_token, has_llm_key),
{
    let mut v: Vec<&'static str> = Vec::new();
    push_name(&mut v, "git_clone");
    push_name(&mut v, "git_apply");
    if has_github_token {
        push_name(&mut v, "git_pr");
        push_name(&mut v, "git_push");
    }
    push_name(&mut v, "runner");
    push_name(&mut v, "build");
    push_name(&mut v, "test");
    if has_llm_key {
        push_name(&mut v, "codegen");
    }
    if opa_configured {
        push_name(&mut v, "policy");
    }
    push_name(&mut v, "policy_local");
    push_name(&mut v, "repo_search");
    push_name(&mut v, "file_list");
    push_name(&mut v, "clippy");
    push_name(&mut v, "secrets_scan");
    push_name(&mut v, "check_deps");
    assert(v@.map_values(|x: &str| x@) =~= tool_set(opa_configured, has_github_token, has_llm_key));
    v
}

/// `needle` occurs in `hay`.
pub open spec fn occurs_in(hay: Seq<char>, needle: Seq<char>) -> bool {
    exists|k: int| 0 <= k && k + needle.len() <= hay.len() && #[trigger] hay.subrange(k, k + needle.len()) == needle
}

fn contains_text(hay: &str, needle: &str) -> (r: bool)
    ensures
        r == occurs_in(hay@, needle@),
{
    let n = hay.unicode_len();
    let m = needle.unicode_len();
    if m > n {
        return false;
    }
    let last = n - m;
    let mut k: usize = 0;
    while k < last
        invariant
            n == hay@.len(),
            m == needle@.len(),
            last == n - m,
            k <= last,
            forall|j: int| 0 <= j < k ==> #[trigger] hay@.subrange(j, j + m) != needle@,
        decreases last - k,
    {
        if str_eq(hay.substring_char(k, k + m), needle) {
            return true;
        }
        k = k + 1;
    }
    let b = str_eq(hay.substring_char(last, n), needle);
    proof {
        if b {
            assert(hay@.subrange(last as int, last + m) == needle@);
        } else {
            assert forall|j: int| 0 <= j && j + m <= n implies #[trigger] hay@.subrange(j, j + m)
                != needle@ by {
                if j >= last {
                    assert(j == last);
                }
            }
        }
    }
    b
}

/// A line of linter output that reports a warning.
pub open spec fn warning_line(l: Seq<char>) -> bool {
    occurs_in(l, "warning:"@)
}

/// Number of lines of `ls` that report a warning.
pub open spec fn count_warning_lines(ls: Seq<Seq<char>>) -> nat
    decreases ls.len(),
{
    if ls.len() == 0 {
        0
    } else {
        count_warning_lines(ls.drop_last()) + if warning_line(ls.last()) {
            1nat
        } else {
            0nat
        }
    }
}

proof fn lemma_warning_prepend(h: Seq<char>, t: Seq<Seq<char>>)
    ensures
        count_warning_lines(seq![h] + t) == count_warning_lines(t) + if warning_line(h) {
            1nat
        } else {
            0nat
        },
    decreases t.len(),
{
    let a = seq![h] + t;
    if t.len() > 0 {
        lemma_warning_prepend(h, t.drop_last());
        assert(a.drop_last() =~= seq![h] + t.drop_last());
        assert(a.last() == t.last());
    } else {
        assert(a =~= seq![h]);
        assert(a.drop_last() =~= Seq::<Seq<char>>::empty());
        assert(a.last() == h);
        assert(count_warning_lines(Seq::<Seq<char>>::empty()) == 0);
    }
}

/// Number of linter warnings in its output: the newline-separated lines
/// holding `warning:`; saturating at `usize::MAX`.
pub fn count_warnings(output: &str) -> (r: usize)
    ensures
        r == crate::token_budget::sat_usize(
            count_warning_lines(crate::env::pieces(output@, '\n')) as int,
        ),
    decreases output@.len(),
{
    let n = output.unicode_len();
    let mut i: usize = 0;
    while i < n && output.get_char(i) != '\n'
        invariant
            n == output@.len(),
            i <= n,
            forall|k: int| 0 <= k < i ==> output@[k] != '\n',
        decreases n - i,
    {
        i = i + 1;
    }
    proof {
        crate::env::lemma_find_first(output@, '\n', i as int);
    }
    let first: usize = if contains_text(output.substring_char(0, i), "warning:") {
        1
    } else {
        0
    };
    if i == n {
        assert(output@.subrange(0, n as int) =~= output@);
        let ghost p = crate::env::pieces(output@, '\n');
        assert(p == seq![output@]);
        assert(p.drop_last() =~= Seq::<Seq<char>>::empty());
        assert(p.last() == output@);
        assert(count_warning_lines(p) == count_warning_lines(p.drop_last()) + if warning_line(
            p.last(),
        ) {
            1nat
        } else {
            0nat
        });
        first
    } else {
        let rest = count_warnings(output.substring_char(i + 1, n));
        let ghost head = output@.subrange(0, i as int);
        let ghost tail = crate::env::pieces(output@.subrange(i + 1, n as int), '\n');
        assert(crate::env::pieces(output@, '\n') == seq![head] + tail);
        proof {
            lemma_warning_prepend(head, tail);
        }
        if rest < usize::MAX {
            rest + first
        } else {
            rest
        }
    }
}

/// Secret-shaped patterns the fallback scan looks for: API keys, secret
/// keys, passwords and tokens assigned a long literal.
pub fn secret_patterns() -> (r: Vec<&'static str>)
    ensures
        r@.map_values(|p: &str| p@) == seq![
            "(?i)(api[_-]?key|apikey)\\s*[:=]\\s*['\"]?[a-zA-Z0-9]{20,}"@,
            "(?i)(secret[_-]?key|secretkey)\\s*[:=]\\s*['\"]?[a-zA-Z0-9]{20,}"@,
            "(?i)(password|passwd|pwd)\\s*[:=]\\s*['\"]?[a-zA-Z0-9]{8,}"@,
            "(?i)(token)\\s*[:=]\\s*['\"]?[a-zA-Z0-9]{20,}"@,
        ],
{
    let mut v: Vec<&'static str> = Vec::new();
    v.push("(?i)(api[_-]?key|apikey)\\s*[:=]\\s*['\"]?[a-zA-Z0-9]{20,}");
    v.push("(?i)(secret[_-]?key|secretkey)\\s*[:=]\\s*['\"]?[a-zA-Z0-9]{20,}");
    v.push("(?i)(password|passwd|pwd)\\s*[:=]\\s*['\"]?[a-zA-Z0-9]{8,}");
    v.push("(?i)(token)\\s*[:=]\\s*['\"]?[a-zA-Z0-9]{20,}");
    let ghost pats: Seq<Seq<char>> = seq![
        "(?i)(api[_-]?key|apikey)\\s*[:=]\\s*['\"]?[a-zA-Z0-9]{20,}"@,
        "(?i)(secret[_-]?key|secretkey)\\s*[:=]\\s*['\"]?[a-zA-Z0-9]{20,}"@,
        "(?i)(password|passwd|pwd)\\s*[:=]\\s*['\"]?[a-zA-Z0-9]{8,}"@,
        "(?i)(token)\\s*[:=]\\s*['\"]?[a-zA-Z0-9]{20,}"@,
    ];
    assert(v@.map_values(|p: &str| p@) =~= pats);
    v
}

} // verus!
