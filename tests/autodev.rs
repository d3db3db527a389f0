use ctxassembly::autodev::{
    build_policy_input, cancel_status, check_local_policy, extract_search_pattern, final_status,
    generate_heuristic_plan, inject_patch, next_action, start_plan, CancelError,
    CreateTaskRequest, ExecAction, ExecState, PolicyDecision, PolicyInput, RiskTier, StepInput,
    Task, TaskMetrics, TaskStatus,
};
use ctxassembly::autodev::RunnerResult;
use ctxassembly::env::parse_u64;
use ctxassembly::tools::{collect_matches, judge_run, RunKind, SearchEntry, ToolError};
use ctxassembly::tools::{
    policy_url, repo_slug, AutodevConfig, BuildTool, ClippyTool, DependencyChecker, FileListTool,
    GitCloneTool, GitConfig, GitHubPrTool, GitPushTool, GitTool, LlmConfig, LocalPolicyTool,
    PolicyTool, RepoSearchTool, RunnerTool, SecretsScanner, TestTool,
};

fn policy_input(risk: RiskTier, tests_passed: bool, secrets_found: bool, files: Vec<String>) -> PolicyInput {
    PolicyInput {
        task_id: "t-1".to_string(),
        risk_tier: risk,
        diff: String::new(),
        files_changed: files,
        new_dependencies: vec![],
        clippy_warnings: 0,
        tests_passed,
        secrets_found,
    }
}

fn task() -> Task {
    Task::from_request(
        "0b5c".to_string(),
        CreateTaskRequest {
            title: "Fix flaky test".to_string(),
            description: "Test times out intermittently".to_string(),
            repo: "https://github.com/org/repo.git".to_string(),
            base_branch: "main".to_string(),
            risk_tier: RiskTier::Low,
            constraints: vec!["No API changes".to_string()],
            acceptance: vec!["Tests pass".to_string()],
            metrics: TaskMetrics::default(),
        },
    )
}

#[test]
fn test_risk_tier_default() {
    let tier = RiskTier::default();
    assert_eq!(tier, RiskTier::Low);
}

#[test]
fn test_policy_decision() {
    let decision = PolicyDecision {
        allow: false,
        deny_reasons: vec!["High-risk change".to_string()],
        warnings: vec![],
    };
    assert!(!decision.allow);
    assert_eq!(decision.deny_reasons.len(), 1);
}

#[test]
fn test_local_policy_denies_high_risk() {
    let decision = check_local_policy(&policy_input(RiskTier::High, true, false, vec![]));
    assert!(!decision.allow);
    assert!(decision.deny_reasons.iter().any(|r| r.contains("High-risk")));
}

#[test]
fn test_local_policy_denies_secrets() {
    let decision = check_local_policy(&policy_input(RiskTier::Low, true, true, vec![]));
    assert!(!decision.allow);
    assert!(decision.deny_reasons.iter().any(|r| r.contains("Secrets")));
    assert_eq!(decision.deny_reasons, vec!["Secrets detected in changes".to_string()]);
}

#[test]
fn test_local_policy_allows_clean_low_risk() {
    let decision = check_local_policy(&policy_input(RiskTier::Low, true, false, vec!["src/main.rs".to_string()]));
    assert!(decision.allow);
}

#[test]
fn local_policy_denies_sql_and_failing_tests_and_warns() {
    let mut input = policy_input(RiskTier::Medium, false, false, vec!["db/schema.sql".to_string()]);
    input.clippy_warnings = 12;
    input.new_dependencies = vec!["serde".to_string(), "rand".to_string()];
    let d = check_local_policy(&input);
    assert!(!d.allow);
    assert_eq!(
        d.deny_reasons,
        vec!["Tests must pass before merge".to_string(), "Database schema changes require DBA approval".to_string()]
    );
    assert_eq!(
        d.warnings,
        vec!["12 clippy warnings found".to_string(), "New dependencies added: serde, rand".to_string()]
    );
}

#[test]
fn test_extract_search_pattern() {
    assert_eq!(extract_search_pattern("Fix the \"timeout\" issue in decode"), "timeout");
    assert_eq!(extract_search_pattern("Refactor the code"), "Refactor");
    assert_eq!(extract_search_pattern("   "), "TODO");
    assert_eq!(extract_search_pattern("Only \"one quote"), "Only");
}

#[test]
fn heuristic_plan_steps() {
    let t = task();
    let steps = generate_heuristic_plan(&t, false);
    let tools: Vec<&str> = steps.iter().map(|s| s.tool.as_str()).collect();
    assert_eq!(
        tools,
        vec!["repo_search", "codegen", "git_apply", "build", "test", "clippy", "secrets_scan", "policy_local", "git_pr"]
    );
    match &steps[0].input {
        StepInput::RepoSearch { pattern, max_results } => {
            assert_eq!(pattern, "Test");
            assert_eq!(*max_results, 50);
        }
        _ => panic!("unexpected input"),
    }
    match &steps[1].input {
        StepInput::Codegen { context, .. } => assert_eq!(context, "Constraints: No API changes"),
        _ => panic!("unexpected input"),
    }
    match &steps[2].input {
        StepInput::GitApply { branch, commit_message, patch } => {
            assert_eq!(branch, "autodev/0b5c");
            assert_eq!(commit_message, "AutoDev: Fix flaky test");
            assert!(patch.is_none());
        }
        _ => panic!("unexpected input"),
    }
    match &steps[8].input {
        StepInput::GitPr { body, base, .. } => {
            assert_eq!(body, "Test times out intermittently\n\nGenerated by AutoDev");
            assert_eq!(base, "main");
        }
        _ => panic!("unexpected input"),
    }
    assert_eq!(generate_heuristic_plan(&t, true)[7].tool, "policy");
}

#[test]
fn heuristic_plan_is_repeatable() {
    let t = task();
    let a = generate_heuristic_plan(&t, false);
    let b = generate_heuristic_plan(&t, false);
    let names = |v: &Vec<ctxassembly::autodev::Step>| v.iter().map(|s| (s.name.clone(), s.tool.clone(), format!("{:?}", s.input))).collect::<Vec<_>>();
    assert_eq!(names(&a), names(&b));
}

#[test]
fn patch_injection() {
    let input = StepInput::GitApply { branch: "b".into(), commit_message: "m".into(), patch: None };
    match inject_patch(input, Some("diff".to_string())) {
        StepInput::GitApply { patch, .. } => assert_eq!(patch, Some("diff".to_string())),
        _ => panic!("unexpected input"),
    }
    assert!(matches!(inject_patch(StepInput::Empty, Some("x".into())), StepInput::Empty));
}

#[test]
fn policy_input_from_step_reports() {
    let p = build_policy_input("t".into(), RiskTier::Low, Some(3), Some(0), None, None, vec![], vec![]);
    assert_eq!(p.clippy_warnings, 3);
    assert!(p.tests_passed);
    assert!(!p.secrets_found);
    assert_eq!(p.diff, "");
    let q = build_policy_input("t".into(), RiskTier::Low, None, Some(101), Some(true), Some("d".into()), vec![], vec![]);
    assert!(!q.tests_passed);
    assert!(q.secrets_found);
    assert_eq!(q.clippy_warnings, 0);
}

#[test]
fn policy_denial_fails_the_task_before_pr() {
    let t = task();
    let steps = generate_heuristic_plan(&t, false);
    let mut state = match start_plan(steps.len()) {
        ExecAction::Run(s) => s,
        _ => panic!("expected a step"),
    };
    let mut pr_attempted = false;
    let end = loop {
        let tool = steps[state.step].tool.as_str();
        if tool == "git_pr" {
            pr_attempted = true;
        }
        let ok = if tool == "policy_local" {
            let input = build_policy_input(t.id.clone(), t.risk_tier, Some(0), Some(0), Some(true), None, vec![], vec![]);
            let d = check_local_policy(&input);
            assert_eq!(d.deny_reasons, vec!["Secrets detected in changes".to_string()]);
            d.allow
        } else {
            true
        };
        match next_action(state, steps.len(), 2, ok, false) {
            ExecAction::Run(s) | ExecAction::RetryAfterDelay(s) => state = s,
            other => break other,
        }
    };
    assert_eq!(end, ExecAction::Failed(7));
    assert_eq!(final_status(end), Some(TaskStatus::Failed));
    assert!(!pr_attempted);
}

#[test]
fn step_retries_are_bounded() {
    let s = ExecState { step: 0, attempt: 1 };
    assert_eq!(next_action(s, 3, 1, false, false), ExecAction::RetryAfterDelay(ExecState { step: 0, attempt: 2 }));
    assert_eq!(next_action(ExecState { step: 0, attempt: 2 }, 3, 1, false, false), ExecAction::Failed(0));
    assert_eq!(next_action(ExecState { step: 2, attempt: 2 }, 3, 1, true, false), ExecAction::Completed);
    assert_eq!(next_action(s, 3, 1, true, true), ExecAction::Stopped);
    assert_eq!(final_status(ExecAction::Completed), Some(TaskStatus::PrCreated));
}

#[test]
fn cancel_rules() {
    let mut t = task();
    assert!(t.cancel().is_ok());
    assert_eq!(t.status, TaskStatus::Cancelled);
    let r = t.cancel();
    assert_eq!(r, Err(CancelError::NotCancellable(TaskStatus::Cancelled)));
    assert_eq!(cancel_status(&r), 400);
    let mut done = task();
    done.status = TaskStatus::PrCreated;
    assert_eq!(cancel_status(&done.cancel()), 400);
    let mut running = task();
    running.status = TaskStatus::Executing;
    assert_eq!(cancel_status(&running.cancel()), 200);
}

#[test]
fn test_git_tool_name() {
    let tool = GitTool::new("Bot".to_string(), "bot@example.com".to_string());
    assert_eq!(tool.name(), "git_apply");
}

#[test]
fn test_pr_tool_name() {
    let tool = GitHubPrTool::new("token".to_string());
    assert_eq!(tool.name(), "git_pr");
}

#[test]
fn test_policy_tool_name() {
    let tool = PolicyTool::new("http://localhost:8181".to_string(), "autodev/merge".to_string());
    assert_eq!(tool.name(), "policy");
    assert_eq!(LocalPolicyTool::new().name(), "policy_local");
}

#[test]
fn test_runner_tool_name() {
    let tool = RunnerTool::new("rust:1.82".to_string(), 600);
    assert_eq!(tool.name(), "runner");
}

#[test]
fn test_build_tool_name() {
    let tool = BuildTool::new("rust:1.82".to_string(), 600);
    assert_eq!(tool.name(), "build");
}

#[test]
fn test_test_tool_name() {
    let tool = TestTool::new("rust:1.82".to_string(), 600);
    assert_eq!(tool.name(), "test");
}

#[test]
fn test_search_tool_name() {
    let tool = RepoSearchTool::new(100);
    assert_eq!(tool.name(), "repo_search");
}

#[test]
fn test_file_list_tool_name() {
    let tool = FileListTool::new();
    assert_eq!(tool.name(), "file_list");
}

#[test]
fn test_clippy_tool_name() {
    let tool = ClippyTool::new("rust:1.82".to_string());
    assert_eq!(tool.name(), "clippy");
}

#[test]
fn test_secrets_scanner_name() {
    let tool = SecretsScanner::new();
    assert_eq!(tool.name(), "secrets_scan");
}

#[test]
fn test_dependency_checker_name() {
    let tool = DependencyChecker::new();
    assert_eq!(tool.name(), "check_deps");
    assert_eq!(GitCloneTool::new().name(), "git_clone");
    assert_eq!(GitPushTool::new("GITHUB_TOKEN".to_string()).name(), "git_push");
}

#[test]
fn test_git_config_default() {
    let config = GitConfig::default();
    assert_eq!(config.git_author_name, "AutoDev Bot");
}

#[test]
fn config_test_default_config() {
    let config = AutodevConfig::default();
    assert!(config.enabled);
    assert_eq!(config.provider, "github");
    assert_eq!(config.max_parallel_tasks, 4);
}

#[test]
fn test_llm_config_default() {
    let config = LlmConfig::default();
    assert_eq!(config.provider, "openai");
    assert_eq!(config.model, "gpt-4");
    assert_eq!(config.max_tokens, 4096);
}

#[test]
fn autodev_env_overrides() {
    let vars = vec![
        ("AUTODEV_ENABLED".to_string(), "0".to_string()),
        ("AUTODEV_MAX_PARALLEL".to_string(), "9".to_string()),
        ("OPA_URL".to_string(), "http://opa:8181".to_string()),
        ("AUTODEV_ALLOWED_REPOS".to_string(), " org/a , org/b".to_string()),
    ];
    let c = AutodevConfig::default().with_env(&vars);
    assert!(!c.enabled);
    assert_eq!(c.max_parallel_tasks, 9);
    assert_eq!(c.opa_url, Some("http://opa:8181".to_string()));
    assert_eq!(c.allowlist_repos, vec!["org/a".to_string(), "org/b".to_string()]);
}

#[test]
fn repo_slugs() {
    assert_eq!(repo_slug("https://github.com/org/repo.git"), Some(("org".to_string(), "repo".to_string())));
    assert_eq!(repo_slug("org/repo"), Some(("org".to_string(), "repo".to_string())));
    assert_eq!(repo_slug("repo.git.git"), None);
}

#[test]
fn policy_endpoint() {
    assert_eq!(policy_url("http://localhost:8181", "autodev::merge"), "http://localhost:8181/v1/data/autodev/merge");
    assert_eq!(policy_url("http://o", "autodev/merge"), "http://o/v1/data/autodev/merge");
}

#[test]
fn decimal_parsing() {
    assert_eq!(parse_u64("3000"), Some(3000));
    assert_eq!(parse_u64("+7"), Some(7));
    assert_eq!(parse_u64(""), None);
    assert_eq!(parse_u64("18446744073709551616"), None);
    assert_eq!(parse_u64("18446744073709551615"), Some(u64::MAX));
    assert_eq!(parse_u64("12a"), None);
}

#[test]
fn test_create_tools() {
    let config = AutodevConfig::default();
    let tools = ctxassembly::tools::available_tools(config.opa_url.is_some(), false, false);
    assert!(!tools.is_empty());
    assert_eq!(
        tools,
        vec!["git_clone", "git_apply", "runner", "build", "test", "policy_local", "repo_search", "file_list", "clippy", "secrets_scan", "check_deps"]
    );
    let all = ctxassembly::tools::available_tools(true, true, true);
    assert_eq!(all.len(), 15);
    assert_eq!(all[2], "git_pr");
    assert_eq!(all[7], "codegen");
    assert_eq!(all[8], "policy");
}

#[test]
fn dependency_lines_are_counted() {
    let manifest = "[package]\nname = \"x\"\n# note = 1\n  # also = 2\n[dependencies]\nserde = \"1\"\n";
    assert_eq!(ctxassembly::tools::count_declared_dependencies(manifest), 2);
    assert_eq!(ctxassembly::tools::count_declared_dependencies(""), 0);
}

#[test]
fn run_results_are_judged() {
    let ok = RunnerResult { exit_code: 0, stdout: "fine".into(), stderr: String::new(), artifacts_path: None };
    assert_eq!(judge_run(RunKind::Build, ok).unwrap().stdout, "fine");
    let bad = RunnerResult { exit_code: 101, stdout: String::new(), stderr: "boom".into(), artifacts_path: None };
    assert_eq!(judge_run(RunKind::Build, bad.clone()).unwrap_err(), ToolError::Build("boom".into()));
    assert_eq!(judge_run(RunKind::Test, bad).unwrap_err(), ToolError::TestFailed("boom".into()));
}

#[test]
fn search_messages_become_matches() {
    let e = |t: &str, p: Option<&str>, n: Option<u32>| SearchEntry {
        msg_type: t.to_string(),
        path: p.map(String::from),
        line_number: n,
        text: Some("hit".to_string()),
    };
    let entries = vec![
        e("begin", Some("a.rs"), None),
        e("match", Some("a.rs"), Some(3)),
        e("match", None, Some(4)),
        e("match", Some("b.rs"), Some(9)),
        e("match", Some("c.rs"), Some(1)),
        e("end", None, None),
    ];
    let m = collect_matches(entries.clone(), 2);
    assert_eq!(m.len(), 2);
    assert_eq!((m[0].file.as_str(), m[0].line), ("a.rs", 3));
    assert_eq!((m[1].file.as_str(), m[1].line), ("b.rs", 9));
    assert_eq!(collect_matches(entries, 10).len(), 3);
}

#[test]
fn warning_lines_and_secret_patterns() {
    let out = "warning: unused variable\n  --> src/main.rs:1\nerror: nope\nwarning: dead code\n";
    assert_eq!(ctxassembly::tools::count_warnings(out), 2);
    assert_eq!(ctxassembly::tools::count_warnings(""), 0);
    assert_eq!(ctxassembly::tools::secret_patterns().len(), 4);
}

#[test]
fn refused_cancel_leaves_task_unchanged() {
    let mut t = task();
    t.status = TaskStatus::Failed;
    t.error = Some("boom".to_string());
    assert!(t.cancel().is_err());
    assert_eq!(t.status, TaskStatus::Failed);
    assert_eq!(t.error, Some("boom".to_string()));
}
