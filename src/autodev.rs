//! Task orchestration: task and plan models, the task status machine, the
//! heuristic plan, the local policy rules and the step-execution decisions.
//! Tools run outside; the decisions about what runs next are made here.
use vstd::prelude::*;

use crate::facts::decimal_string;
use crate::text::{copy_str, ends_with_str, join_spec, join_strings};

verus! {

/// Risk tier of a task.
#[derive(Debug, Clone, Copy, PartialEq, Eq, Structural)]
pub enum RiskTier {
    Low,
    Medium,
    High,
}

impl Default for RiskTier {
    fn default() -> (r: Self)
        ensures
            r == RiskTier::Low,
    {
        RiskTier::Low
    }
}

/// Lifecycle of a task.
#[derive(Debug, Clone, Copy, PartialEq, Eq, Structural)]
pub enum TaskStatus {
    Pending,
    Planning,
    Executing,
    Verifying,
    PrCreated,
    Merged,
    Failed,
    Cancelled,
}

/// A task may still be cancelled: it is Pending, Planning or Executing.
pub open spec fn cancellable(s: TaskStatus) -> bool {
    s == TaskStatus::Pending || s == TaskStatus::Planning || s == TaskStatus::Executing
}

/// Status of a step.
#[derive(Debug, Clone, Copy, PartialEq, Eq, Structural)]
pub enum StepStatus {
    Pending,
    Running,
    Success,
    Failed,
    Skipped,
}

impl Default for StepStatus {
    fn default() -> (r: Self)
        ensures
            r == StepStatus::Pending,
    {
        StepStatus::Pending
    }
}

/// Service levels of a task.
#[derive(Debug, Clone, Copy)]
pub struct TaskMetrics {
    pub sla_minutes: u32,
    pub max_iterations: u32,
}

impl Default for TaskMetrics {
    fn default() -> (r: Self)
        ensures
            r.sla_minutes == 60,
            r.max_iterations == 8,
    {
        TaskMetrics { sla_minutes: 60, max_iterations: 8 }
    }
}

/// An autonomous development task; `id` is a UUID in text form.
#[derive(Debug, Clone)]
pub struct Task {
    pub id: String,
    pub title: String,
    pub description: String,
    pub repo: String,
    pub base_branch: String,
    pub risk_tier: RiskTier,
    pub constraints: Vec<String>,
    pub acceptance: Vec<String>,
    pub metrics: TaskMetrics,
    pub status: TaskStatus,
    pub pr_url: Option<String>,
    pub error: Option<String>,
}

/// Task creation request.
#[derive(Debug, Clone)]
pub struct CreateTaskRequest {
    pub title: String,
    pub description: String,
    pub repo: String,
    pub base_branch: String,
    pub risk_tier: RiskTier,
    pub constraints: Vec<String>,
    pub acceptance: Vec<String>,
    pub metrics: TaskMetrics,
}

/// Why a task could not be cancelled.
#[derive(Debug, Clone, Copy, PartialEq, Eq, Structural)]
pub enum CancelError {
    /// The task already reached a terminal (or verifying) status.
    NotCancellable(TaskStatus),
}

impl Task {
    /// A Pending task from a request, under the given id.
    pub fn from_request(id: String, request: CreateTaskRequest) -> (r: Self)
        ensures
            r.id == id,
            r.title == request.title,
            r.description == request.description,
            r.repo == request.repo,
            r.base_branch == request.base_branch,
            r.risk_tier == request.risk_tier,
            r.constraints == request.constraints,
            r.acceptance == request.acceptance,
            r.metrics == request.metrics,
            r.status == TaskStatus::Pending,
            r.pr_url is None,
            r.error is None,
    {
        Task {
            id,
            title: request.title,
            description: request.description,
            repo: request.repo,
            base_branch: request.base_branch,
            risk_tier: request.risk_tier,
            constraints: request.constraints,
            acceptance: request.acceptance,
            metrics: request.metrics,
            status: TaskStatus::Pending,
            pr_url: None,
            error: None,
        }
    }

    /// Cancels a Pending, Planning or Executing task; any other status is
    /// refused and left as it is.
    pub fn cancel(&mut self) -> (r: Result<(), CancelError>)
        ensures
            r is Ok <==> cancellable(old(self).status),
            r is Ok ==> final(self).status == TaskStatus::Cancelled,
            r is Err ==> *final(self) == *old(self) && r == Err::<(), CancelError>(
                CancelError::NotCancellable(old(self).status),
            ),
            final(self).id == old(self).id,
            final(self).title == old(self).title,
            final(self).description == old(self).description,
    {
        match self.status {
            TaskStatus::Pending | TaskStatus::Planning | TaskStatus::Executing => {
                self.status = TaskStatus::Cancelled;
                Ok(())
            },
            other => Err(CancelError::NotCancellable(other)),
        }
    }
}

/// HTTP status for a cancel outcome: 200, or 400 for a status that cannot
/// be cancelled.
pub fn cancel_status(r: &Result<(), CancelError>) -> (s: u16)
    ensures
        s == (if r is Ok {
            200u16
        } else {
            400u16
        }),
{
    match r {
        Ok(()) => 200,
        Err(_) => 400,
    }
}

/// Input of a plan step, one shape per tool.
#[derive(Debug, Clone)]
pub enum StepInput {
    RepoSearch { pattern: String, max_results: u32 },
    Codegen { instruction: String, context: String },
    GitApply { branch: String, commit_message: String, patch: Option<String> },
    Empty,
    Policy { task_id: String, risk_tier: RiskTier },
    GitPr { title: String, body: String, branch: String, base: String },
}

/// A step input as the contracts see it.
pub enum StepInputView {
    RepoSearch { pattern: Seq<char>, max_results: u32 },
    Codegen { instruction: Seq<char>, context: Seq<char> },
    GitApply { branch: Seq<char>, commit_message: Seq<char>, patch: Option<Seq<char>> },
    Empty,
    Policy { task_id: Seq<char>, risk_tier: RiskTier },
    GitPr { title: Seq<char>, body: Seq<char>, branch: Seq<char>, base: Seq<char> },
}

impl StepInput {
    pub open spec fn view(&self) -> StepInputView {
        match self {
            StepInput::RepoSearch { pattern, max_results } => StepInputView::RepoSearch {
                pattern: pattern@,
                max_results: *max_results,
            },
            StepInput::Codegen { instruction, context } => StepInputView::Codegen {
                instruction: instruction@,
                context: context@,
            },
            StepInput::GitApply { branch, commit_message, patch } => StepInputView::GitApply {
                branch: branch@,
                commit_message: commit_message@,
                patch: match patch {
                    Some(p) => Some(p@),
                    None => None,
                },
            },
            StepInput::Empty => StepInputView::Empty,
            StepInput::Policy { task_id, risk_tier } => StepInputView::Policy {
                task_id: task_id@,
                risk_tier: *risk_tier,
            },
            StepInput::GitPr { title, body, branch, base } => StepInputView::GitPr {
                title: title@,
                body: body@,
                branch: branch@,
                base: base@,
            },
        }
    }
}

/// One step of a plan.
#[derive(Debug, Clone)]
pub struct Step {
    pub name: String,
    pub tool: String,
    pub input: StepInput,
    pub output: Option<String>,
    pub error: Option<String>,
    pub status: StepStatus,
}

/// A step as the contracts see it: name, tool and input.
pub struct StepView {
    pub name: Seq<char>,
    pub tool: Seq<char>,
    pub input: StepInputView,
}

impl Step {
    pub open spec fn view(&self) -> StepView {
        StepView { name: self.name@, tool: self.tool@, input: self.input.view() }
    }
}

/// A task's plan; `created_at` in milliseconds since the Unix epoch.
#[derive(Debug, Clone)]
pub struct Plan {
    pub task_id: String,
    pub steps: Vec<Step>,
    pub created_at: i64,
}

/// Index of the first `c` in `s` at or after `from`, or -1.
pub open spec fn find_char_from(s: Seq<char>, c: char, from: int) -> int
    decreases s.len() - from,
{
    if from < 0 || from >= s.len() {
        -1
    } else if s[from] == c {
        from
    } else {
        find_char_from(s, c, from + 1)
    }
}

/// The search pattern of a description: the first double-quoted term, else
/// the first whitespace-separated word, else `TODO`.
pub open spec fn search_pattern(d: Seq<char>) -> Seq<char> {
    let open = find_char_from(d, '"', 0);
    let close = if open >= 0 {
        find_char_from(d, '"', open + 1)
    } else {
        -1
    };
    if open >= 0 && close >= 0 {
        d.subrange(open + 1, close)
    } else if crate::text::words_of(d).len() > 0 {
        crate::text::words_of(d)[0]
    } else {
        seq!['T', 'O', 'D', 'O']
    }
}

fn find_char(s: &str, c: char, from: usize) -> (r: Option<usize>)
    requires
        from <= s@.len(),
    ensures
        find_char_from(s@, c, from as int) == (match r {
            Some(i) => i as int,
            None => -1,
        }),
        r matches Some(i) ==> from <= i < s@.len(),
{
    let n = s.unicode_len();
    let mut i = from;
    while i < n
        invariant
            n == s@.len(),
            from <= i <= n,
            find_char_from(s@, c, from as int) == find_char_from(s@, c, i as int),
        decreases n - i,
    {
        if s.get_char(i) == c {
            return Some(i);
        }
        i = i + 1;
    }
    None
}

/// The search pattern of a task description (see `search_pattern`).
pub fn extract_search_pattern(description: &str) -> (r: String)
    ensures
        r@ == search_pattern(description@),
{
    let n = description.unicode_len();
    match find_char(description, '"', 0) {
        Some(open) => match find_char(description, '"', open + 1) {
            Some(close) => {
                return String::from_str(description.substring_char(open + 1, close));
            },
            None => {},
        },
        None => {},
    }
    let words = crate::text::split_words(description);
    if words.len() > 0 {
        proof {
            assert(words@.map_values(|w: String| w@)[0] == words@[0]@);
        }
        copy_str(&words[0])
    } else {
        let t = "TODO";
        proof {
            reveal_strlit("TODO");
            assert(t@ =~= seq!['T', 'O', 'D', 'O']);
        }
        String::from_str(t)
    }
}

/// Most matches the plan's search step asks for.
pub const PLAN_SEARCH_RESULTS: u32 = 50;

/// Branch the plan works on: `autodev/<task id>`.
pub open spec fn work_branch(id: Seq<char>) -> Seq<char> {
    "autodev/"@ + id
}

/// The heuristic plan of a task, step by step.
pub open spec fn heuristic_plan(
    id: Seq<char>,
    title: Seq<char>,
    description: Seq<char>,
    constraints: Seq<Seq<char>>,
    base_branch: Seq<char>,
    risk_tier: RiskTier,
    opa_configured: bool,
) -> Seq<StepView> {
    seq![
        StepView {
            name: "Search repository"@,
            tool: "repo_search"@,
            input: StepInputView::RepoSearch {
                pattern: search_pattern(description),
                max_results: PLAN_SEARCH_RESULTS,
            },
        },
        StepView {
            name: "Generate code changes"@,
            tool: "codegen"@,
            input: StepInputView::Codegen {
                instruction: description,
                context: "Constraints: "@ + join_spec(constraints, ", "@),
            },
        },
        StepView {
            name: "Apply changes"@,
            tool: "git_apply"@,
            input: StepInputView::GitApply {
                branch: work_branch(id),
                commit_message: "AutoDev: "@ + title,
                patch: None,
            },
        },
        StepView { name: "Build project"@, tool: "build"@, input: StepInputView::Empty },
        StepView { name: "Run tests"@, tool: "test"@, input: StepInputView::Empty },
        StepView { name: "Run clippy"@, tool: "clippy"@, input: StepInputView::Empty },
        StepView { name: "Scan for secrets"@, tool: "secrets_scan"@, input: StepInputView::Empty },
        StepView {
            name: "Check policy"@,
            tool: if opa_configured {
                "policy"@
            } else {
                "policy_local"@
            },
            input: StepInputView::Policy { task_id: id, risk_tier },
        },
        StepView {
            name: "Create pull request"@,
            tool: "git_pr"@,
            input: StepInputView::GitPr {
                title,
                body: description + "\n\nGenerated by AutoDev"@,
                branch: work_branch(id),
                base: base_branch,
            },
        },
    ]
}

/// The heuristic plan of `task` as its contract describes it.
pub open spec fn plan_of(task: Task, opa_configured: bool) -> Seq<StepView> {
    heuristic_plan(
        task.id@,
        task.title@,
        task.description@,
        task.constraints@.map_values(|c: String| c@),
        task.base_branch@,
        task.risk_tier,
        opa_configured,
    )
}

fn concat(a: &str, b: &str) -> (r: String)
    ensures
        r@ == a@ + b@,
{
    let mut s = String::from_str(a);
    s.append(b);
    s
}

fn pending_step(name: &str, tool: &str, input: StepInput) -> (r: Step)
    ensures
        r.name@ == name@,
        r.tool@ == tool@,
        r.input == input,
        r.status == StepStatus::Pending,
        r.output is None,
        r.error is None,
{
    Step {
        name: String::from_str(name),
        tool: String::from_str(tool),
        input,
        output: None,
        error: None,
        status: StepStatus::Pending,
    }
}

/// The default plan: search, codegen, apply, build, test, clippy, secrets
/// scan, policy (`policy` with a policy engine, else `policy_local`), PR.
pub fn generate_heuristic_plan(task: &Task, opa_configured: bool) -> (r: Vec<Step>)
    ensures
        r@.map_values(|s: Step| s.view()) == plan_of(*task, opa_configured),
        forall|k: int| 0 <= k < r@.len() ==> (#[trigger] r@[k]).status == StepStatus::Pending,
{
    let mut steps: Vec<Step> = Vec::new();
    let pattern = extract_search_pattern(task.description.as_str());
    steps.push(
        pending_step(
            "Search repository",
            "repo_search",
            StepInput::RepoSearch { pattern, max_results: PLAN_SEARCH_RESULTS },
        ),
    );
    let joined = join_strings(&task.constraints, ", ");
    let context = concat("Constraints: ", joined.as_str());
    steps.push(
        pending_step(
            "Generate code changes",
            "codegen",
            StepInput::Codegen { instruction: copy_str(&task.description), context },
        ),
    );
    let branch = concat("autodev/", task.id.as_str());
    let commit_message = concat("AutoDev: ", task.title.as_str());
    steps.push(
        pending_step(
            "Apply changes",
            "git_apply",
            StepInput::GitApply { branch, commit_message, patch: None },
        ),
    );
    steps.push(pending_step("Build project", "build", StepInput::Empty));
    steps.push(pending_step("Run tests", "test", StepInput::Empty));
    steps.push(pending_step("Run clippy", "clippy", StepInput::Empty));
    steps.push(pending_step("Scan for secrets", "secrets_scan", StepInput::Empty));
    let policy_tool = if opa_configured {
        "policy"
    } else {
        "policy_local"
    };
    steps.push(
        pending_step(
            "Check policy",
            policy_tool,
            StepInput::Policy { task_id: copy_str(&task.id), risk_tier: task.risk_tier },
        ),
    );
    let body = concat(task.description.as_str(), "\n\nGenerated by AutoDev");
    let pr_branch = concat("autodev/", task.id.as_str());
    steps.push(
        pending_step(
            "Create pull request",
            "git_pr",
            StepInput::GitPr {
                title: copy_str(&task.title),
                body,
                branch: pr_branch,
                base: copy_str(&task.base_branch),
            },
        ),
    );
    assert(steps@.map_values(|s: Step| s.view()) =~= plan_of(*task, opa_configured));
    steps
}

/// Planning twice over the same task contents yields the same steps: the
/// same names, tools and inputs, in the same order.
pub proof fn lemma_plan_is_deterministic(a: Task, b: Task, opa_configured: bool)
    requires
        a.id@ == b.id@,
        a.title@ == b.title@,
        a.description@ == b.description@,
        a.constraints@.map_values(|c: String| c@) == b.constraints@.map_values(|c: String| c@),
        a.base_branch@ == b.base_branch@,
        a.risk_tier == b.risk_tier,
    ensures
        plan_of(a, opa_configured) == plan_of(b, opa_configured),
{
}

/// Puts the code generator's patch into a `git_apply` input; other inputs
/// are returned as they are.
pub fn inject_patch(input: StepInput, patch: Option<String>) -> (r: StepInput)
    ensures
        match input {
            StepInput::GitApply { branch, commit_message, patch: old_patch } => r
                == StepInput::GitApply {
                branch,
                commit_message,
                patch: if patch is Some {
                    patch
                } else {
                    old_patch
                },
            },
            _ => r == input,
        },
{
    match input {
        StepInput::GitApply { branch, commit_message, patch: old_patch } => {
            let p = match patch {
                Some(p) => Some(p),
                None => old_patch,
            };
            StepInput::GitApply { branch, commit_message, patch: p }
        },
        other => other,
    }
}

/// Input of the policy decision.
#[derive(Debug, Clone)]
pub struct PolicyInput {
    pub task_id: String,
    pub risk_tier: RiskTier,
    pub diff: String,
    pub files_changed: Vec<String>,
    pub new_dependencies: Vec<String>,
    pub clippy_warnings: u32,
    pub tests_passed: bool,
    pub secrets_found: bool,
}

/// Verdict of the policy decision.
#[derive(Debug, Clone)]
pub struct PolicyDecision {
    pub allow: bool,
    pub deny_reasons: Vec<String>,
    pub warnings: Vec<String>,
}

/// Assembles the policy input from what earlier steps reported: the clippy
/// warning count (saturating at `u32::MAX`, 0 if unknown), the test exit code
/// (passed only when known and 0), the secrets flag (false if unknown) and the
/// patch (empty if unknown).
pub fn build_policy_input(
    task_id: String,
    risk_tier: RiskTier,
    clippy_warnings: Option<u64>,
    test_exit_code: Option<i64>,
    secrets_found: Option<bool>,
    patch: Option<String>,
    files_changed: Vec<String>,
    new_dependencies: Vec<String>,
) -> (r: PolicyInput)
    ensures
        r.task_id == task_id,
        r.risk_tier == risk_tier,
        r.clippy_warnings == (match clippy_warnings {
            Some(n) => if n > u32::MAX {
                u32::MAX
            } else {
                n as u32
            },
            None => 0,
        }),
        r.tests_passed == (test_exit_code == Some(0i64)),
        r.secrets_found == (secrets_found == Some(true)),
        r.diff@ == (match patch {
            Some(p) => p@,
            None => Seq::<char>::empty(),
        }),
        r.files_changed == files_changed,
        r.new_dependencies == new_dependencies,
{
    let warnings: u32 = match clippy_warnings {
        Some(n) => if n > u32::MAX as u64 {
            u32::MAX
        } else {
            n as u32
        },
        None => 0,
    };
    let tests_passed = match test_exit_code {
        Some(c) => c == 0,
        None => false,
    };
    let secrets = match secrets_found {
        Some(b) => b,
        None => false,
    };
    let diff = match patch {
        Some(p) => p,
        None => String::new(),
    };
    PolicyInput {
        task_id,
        risk_tier,
        diff,
        files_changed,
        new_dependencies,
        clippy_warnings: warnings,
        tests_passed,
        secrets_found: secrets,
    }
}

/// Some changed file is an SQL file.
pub open spec fn touches_sql(files: Seq<String>) -> bool {
    exists|k: int|
        0 <= k < files.len() && #[trigger] files[k]@.len() >= 4 && files[k]@.subrange(
            files[k]@.len() - 4,
            files[k]@.len() as int,
        ) == ".sql"@
}

/// The deny reasons of the local rules, in order.
pub open spec fn local_deny_reasons(i: PolicyInput) -> Seq<Seq<char>> {
    (if i.risk_tier == RiskTier::High {
        seq!["High-risk changes require human review"@]
    } else {
        seq![]
    }) + (if i.secrets_found {
        seq!["Secrets detected in changes"@]
    } else {
        seq![]
    }) + (if !i.tests_passed {
        seq!["Tests must pass before merge"@]
    } else {
        seq![]
    }) + (if touches_sql(i.files_changed@) {
        seq!["Database schema changes require DBA approval"@]
    } else {
        seq![]
    })
}

/// The warnings of the local rules, in order.
pub open spec fn local_warnings(i: PolicyInput) -> Seq<Seq<char>> {
    (if i.clippy_warnings > 0 {
        seq![crate::facts::decimal(i.clippy_warnings as nat) + " clippy warnings found"@]
    } else {
        seq![]
    }) + (if i.new_dependencies@.len() > 0 {
        seq![
            "New dependencies added: "@ + join_spec(
                i.new_dependencies@.map_values(|d: String| d@),
                ", "@,
            ),
        ]
    } else {
        seq![]
    })
}

fn push_text(v: &mut Vec<String>, s: String)
    ensures
        final(v)@.map_values(|x: String| x@) == old(v)@.map_values(|x: String| x@).push(s@),
{
    let ghost before = v@.map_values(|x: String| x@);
    v.push(s);
    assert(v@.map_values(|x: String| x@) =~= before.push(s@));
}

fn any_sql(files: &Vec<String>) -> (r: bool)
    ensures
        r == touches_sql(files@),
{
    let mut i: usize = 0;
    while i < files.len()
        invariant
            i <= files@.len(),
            forall|k: int|
                0 <= k < i ==> !(#[trigger] files@[k]@.len() >= 4 && files@[k]@.subrange(
                    files@[k]@.len() - 4,
                    files@[k]@.len() as int,
                ) == ".sql"@),
        decreases files@.len() - i,
    {
        proof {
            reveal_strlit(".sql");
        }
        if ends_with_str(files[i].as_str(), ".sql") {
            assert(files@[i as int]@.len() >= 4);
            return true;
        }
        i = i + 1;
    }
    false
}

/// Local policy rules: deny high-risk changes, found secrets, failing tests
/// and SQL changes; warn on clippy warnings and new dependencies; allow when
/// nothing is denied.
pub fn check_local_policy(input: &PolicyInput) -> (r: PolicyDecision)
    ensures
        r.deny_reasons@.map_values(|x: String| x@) == local_deny_reasons(*input),
        r.warnings@.map_values(|x: String| x@) == local_warnings(*input),
        r.allow == (local_deny_reasons(*input).len() == 0),
{
    let mut deny: Vec<String> = Vec::new();
    let mut warnings: Vec<String> = Vec::new();
    let ghost e: Seq<Seq<char>> = seq![];
    assert(deny@.map_values(|x: String| x@) =~= e);
    assert(warnings@.map_values(|x: String| x@) =~= e);
    if input.risk_tier == RiskTier::High {
        push_text(&mut deny, String::from_str("High-risk changes require human review"));
    }
    if input.secrets_found {
        push_text(&mut deny, String::from_str("Secrets detected in changes"));
    }
    if !input.tests_passed {
        push_text(&mut deny, String::from_str("Tests must pass before merge"));
    }
    if any_sql(&input.files_changed) {
        push_text(&mut deny, String::from_str("Database schema changes require DBA approval"));
    }
    assert(deny@.map_values(|x: String| x@) =~= local_deny_reasons(*input));
    if input.clippy_warnings > 0 {
        let n = decimal_string(input.clippy_warnings);
        push_text(&mut warnings, concat(n.as_str(), " clippy warnings found"));
    }
    if input.new_dependencies.len() > 0 {
        let joined = join_strings(&input.new_dependencies, ", ");
        push_text(&mut warnings, concat("New dependencies added: ", joined.as_str()));
    }
    assert(warnings@.map_values(|x: String| x@) =~= local_warnings(*input));
    let allow = deny.len() == 0;
    PolicyDecision { allow, deny_reasons: deny, warnings }
}

/// Fixed pause between attempts of a failed step, in milliseconds.
pub const STEP_RETRY_DELAY_MS: u64 = 2000;

/// Where plan execution stands: the step being run and its attempt (from 1).
#[derive(Debug, Clone, Copy, PartialEq, Eq, Structural)]
pub struct ExecState {
    pub step: usize,
    pub attempt: u64,
}

/// What the executor does next.
#[derive(Debug, Clone, Copy, PartialEq, Eq, Structural)]
pub enum ExecAction {
    /// Run this step, attempt number `attempt`.
    Run(ExecState),
    /// Sleep `STEP_RETRY_DELAY_MS`, then run this step again.
    RetryAfterDelay(ExecState),
    /// Every step succeeded.
    Completed,
    /// This step failed on its last attempt: the task fails.
    Failed(usize),
    /// The task was cancelled: the remaining steps are skipped.
    Stopped,
}

/// The first action of a plan with `n_steps` steps.
pub fn start_plan(n_steps: usize) -> (r: ExecAction)
    ensures
        n_steps == 0 ==> r == ExecAction::Completed,
        n_steps > 0 ==> r == ExecAction::Run(ExecState { step: 0, attempt: 1 }),
{
    if n_steps == 0 {
        ExecAction::Completed
    } else {
        ExecAction::Run(ExecState { step: 0, attempt: 1 })
    }
}

/// The action after a step attempt ended: on success the next step (or
/// completion); on failure another attempt while fewer than
/// `max_step_retries + 1` were made, else failure; a cancelled task stops
/// before its next step.
pub fn next_action(
    state: ExecState,
    n_steps: usize,
    max_step_retries: u32,
    succeeded: bool,
    cancelled: bool,
) -> (r: ExecAction)
    requires
        state.step < n_steps,
        1 <= state.attempt <= max_step_retries as int + 1,
    ensures
        succeeded && state.step + 1 == n_steps ==> r == ExecAction::Completed,
        succeeded && state.step + 1 < n_steps && cancelled ==> r == ExecAction::Stopped,
        succeeded && state.step + 1 < n_steps && !cancelled ==> r == ExecAction::Run(
            ExecState { step: (state.step + 1) as usize, attempt: 1 },
        ),
        !succeeded && state.attempt <= max_step_retries && cancelled ==> r == ExecAction::Stopped,
        !succeeded && state.attempt <= max_step_retries && !cancelled ==> r
            == ExecAction::RetryAfterDelay(
            ExecState { step: state.step, attempt: (state.attempt + 1) as u64 },
        ),
        !succeeded && state.attempt > max_step_retries ==> r == ExecAction::Failed(state.step),
        r matches ExecAction::Run(s) ==> s.step < n_steps && 1 <= s.attempt <= max_step_retries
            as int + 1,
        r matches ExecAction::RetryAfterDelay(s) ==> s.step < n_steps && 1 <= s.attempt
            <= max_step_retries as int + 1,
{
    if succeeded {
        if state.step + 1 == n_steps {
            ExecAction::Completed
        } else if cancelled {
            ExecAction::Stopped
        } else {
            ExecAction::Run(ExecState { step: state.step + 1, attempt: 1 })
        }
    } else if state.attempt <= max_step_retries as u64 {
        if cancelled {
            ExecAction::Stopped
        } else {
            ExecAction::RetryAfterDelay(ExecState { step: state.step, attempt: state.attempt + 1 })
        }
    } else {
        ExecAction::Failed(state.step)
    }
}

/// Task status once execution ended: PrCreated after completion, Cancelled
/// when stopped, Failed after a failed step.
pub fn final_status(action: ExecAction) -> (r: Option<TaskStatus>)
    ensures
        action == ExecAction::Completed ==> r == Some(TaskStatus::PrCreated),
        action == ExecAction::Stopped ==> r == Some(TaskStatus::Cancelled),
        action is Failed ==> r == Some(TaskStatus::Failed),
        action is Run || action is RetryAfterDelay ==> r is None,
{
    match action {
        ExecAction::Completed => Some(TaskStatus::PrCreated),
        ExecAction::Stopped => Some(TaskStatus::Cancelled),
        ExecAction::Failed(_) => Some(TaskStatus::Failed),
        _ => None,
    }
}


/// Result of a git operation.
#[derive(Debug, Clone)]
pub struct GitResult {
    pub branch: String,
    pub commit: String,
    pub pr_url: Option<String>,
    pub pr_number: Option<u64>,
}

/// Result of a sandboxed command.
#[derive(Debug, Clone)]
pub struct RunnerResult {
    pub exit_code: i32,
    pub stdout: String,
    pub stderr: String,
    pub artifacts_path: Option<String>,
}

/// One search hit.
#[derive(Debug, Clone)]
pub struct SearchMatch {
    pub file: String,
    pub line: u32,
    pub text: String,
    pub context: Option<String>,
}

/// Result of code generation.
#[derive(Debug, Clone)]
pub struct CodegenResult {
    pub patch: String,
    pub rationale: Option<String>,
    pub commit_message: Option<String>,
}

} // verus!
