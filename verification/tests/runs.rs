use repo_reaper::agent::AgentConfig;
use repo_reaper::hunt::{
    budget_reached, default_concurrency, default_labels, default_language, default_max_issues,
    default_max_repos, default_min_stars, default_retry_count, discovered_issue, discovery_query,
    fixable_count, followup_agent, form_teams, keep_repo, labels_param, min_review_confidence,
    parse_i32, partition_repo_lists, webhook_issue, RepoListRow, RunRequest,
};
use repo_reaper::sandbox::{
    applicable_runners, completed_result, docker_args, exhausted_result, host_command,
    no_runner_result, runner_spec, split_words, test_plan, timeout_result, user_spec,
    RunnerRun, RunnerStep, TestSandbox,
};
use repo_reaper::triage::{apply_score, score_and_rank, ScoreEntry, TriageIssue};
use repo_reaper::workspace::{
    askpass_script, clone_identity, env_truthy, parse_u64, shell_single_quote, skip_dir,
    strip_path_prefix, structure_line, structure_text, tail_of_output, test_timeout_seconds,
    trimmed_test_output, wanted_file_exec, CodeDigest,
};

fn issue(position: usize, id: Option<i64>) -> TriageIssue {
    TriageIssue { position, id, fixability_score: Some(50), fixability_reason: Some(String::new()) }
}

fn entry(id: i64, score: Option<i64>, reason: &str) -> ScoreEntry {
    ScoreEntry { id: Some(id), score, reason: Some(reason.to_string()) }
}

#[test]
fn scores_are_written_onto_matching_issues() {
    let scores = vec![entry(1, Some(10), "old"), entry(1, Some(90), "new"), entry(2, None, "none")];
    let a = apply_score(issue(0, Some(1)), &scores);
    assert_eq!(a.fixability_score, Some(90));
    assert_eq!(a.fixability_reason, Some("new".to_string()));
    let b = apply_score(issue(1, Some(2)), &scores);
    assert_eq!(b.fixability_score, None);
    let c = apply_score(issue(2, Some(3)), &scores);
    assert_eq!(c.fixability_score, Some(50));
    let d = apply_score(issue(3, None), &scores);
    assert_eq!(d.fixability_score, Some(50));
}

#[test]
fn issues_are_ranked_highest_first_keeping_ties_in_order() {
    let issues = vec![issue(0, Some(1)), issue(1, Some(2)), issue(2, Some(3)), issue(3, Some(4))];
    let scores = vec![entry(1, Some(40), "a"), entry(2, Some(80), "b"), entry(4, Some(80), "d")];
    let ranked = score_and_rank(issues, &scores);
    let order: Vec<usize> = ranked.iter().map(|i| i.position).collect();
    assert_eq!(order, vec![1, 3, 2, 0]);
    let none = score_and_rank(vec![issue(0, None)], &vec![ScoreEntry { id: None, score: Some(-5), reason: None }]);
    assert_eq!(none.len(), 1);
}

#[test]
fn unscored_issues_rank_as_zero() {
    let mut i = issue(0, Some(1));
    i.fixability_score = None;
    let j = TriageIssue { position: 1, id: Some(2), fixability_score: Some(-1), fixability_reason: None };
    let ranked = score_and_rank(vec![j, i], &vec![]);
    let order: Vec<usize> = ranked.iter().map(|i| i.position).collect();
    assert_eq!(order, vec![0, 1]);
}

#[test]
fn run_request_defaults() {
    assert_eq!(default_language(), "python");
    assert_eq!(default_min_stars(), 50);
    assert_eq!(default_max_repos(), 10);
    assert_eq!(default_max_issues(), 10);
    assert_eq!(default_labels(), vec!["bug".to_string()]);
    assert_eq!(default_concurrency(), 3);
    assert_eq!(default_retry_count(), 3);
}

fn request(query: &str) -> RunRequest {
    RunRequest {
        language: "rust".to_string(),
        min_stars: 120,
        max_repos: 10,
        max_issues: 10,
        labels: vec!["bug".to_string(), "help wanted".to_string()],
        concurrency: 3,
        search_query: query.to_string(),
        cost_budget_micros: 0,
        retry_count: 3,
    }
}

#[test]
fn discovery_uses_the_query_or_the_language() {
    assert_eq!(discovery_query(&request("")), "topic:machine-learning language:rust stars:>120 is:public");
    assert_eq!(discovery_query(&request("user:me")), "user:me");
    assert_eq!(labels_param(&request("").labels), "bug,help wanted");
}

#[test]
fn repo_lists_filter_the_search() {
    let rows = vec![
        RepoListRow { repo: "a/x".to_string(), list_type: "allowlist".to_string() },
        RepoListRow { repo: "b/y".to_string(), list_type: "blocklist".to_string() },
        RepoListRow { repo: "c/z".to_string(), list_type: "opt_out".to_string() },
        RepoListRow { repo: "d/w".to_string(), list_type: "denylist".to_string() },
    ];
    let lists = partition_repo_lists(&rows);
    assert_eq!(lists.allow, vec!["a/x".to_string()]);
    assert_eq!(lists.deny, vec!["b/y".to_string(), "d/w".to_string()]);
    assert_eq!(lists.opt_out, vec!["c/z".to_string()]);
    assert!(keep_repo(Some("a/x"), &lists));
    assert!(!keep_repo(Some("e/v"), &lists));
    assert!(!keep_repo(None, &lists));
    let open = partition_repo_lists(&vec![rows[1].clone()]);
    assert!(keep_repo(Some("e/v"), &open));
    assert!(!keep_repo(Some("b/y"), &open));
}

#[test]
fn issues_are_recorded_with_their_starting_score() {
    let body = "x".repeat(600);
    let d = discovered_issue("a/x", 4, Some("T".to_string()), Some(&body), None);
    assert_eq!(d.body, Some("x".repeat(500)));
    assert_eq!(d.fixability_score, Some(50));
    assert_eq!(d.fixability_reason, Some(String::new()));
    let w = webhook_issue("a/x", 4, None, None, None);
    assert_eq!(w.body, Some(String::new()));
    assert_eq!(w.fixability_score, Some(70));
    assert_eq!(w.fixability_reason, Some("webhook".to_string()));
    assert_eq!(fixable_count(12, 10), 10);
    assert_eq!(fixable_count(3, 10), 3);
}

#[test]
fn budget_stops_a_hunt_only_when_set() {
    assert!(!budget_reached(0, 1_000_000));
    assert!(budget_reached(500, 500));
    assert!(!budget_reached(500, 499));
}

fn agent(id: &str, role: &str) -> AgentConfig {
    AgentConfig {
        id: id.to_string(),
        name: id.to_string(),
        role: role.to_string(),
        provider: "openai".to_string(),
        model: "m".to_string(),
        api_key: None,
        bot_token: None,
        bot_user: None,
        status: String::new(),
        current_task: String::new(),
    }
}

#[test]
fn teams_fall_back_along_the_roles() {
    assert!(form_teams(&vec![]).is_none());
    let agents = vec![agent("j", "judge"), agent("s", "smith")];
    let t = form_teams(&agents).unwrap();
    assert_eq!(t.scout.id, "j");
    assert_eq!(t.reapers.iter().map(|a| a.id.clone()).collect::<Vec<_>>(), vec!["j"]);
    assert_eq!(t.gatekeepers.iter().map(|a| a.id.clone()).collect::<Vec<_>>(), vec!["j"]);
    assert_eq!(t.smiths.len(), 1);
    let agents = vec![agent("r", "reaper"), agent("sc", "scout"), agent("g", "gatekeeper")];
    let t = form_teams(&agents).unwrap();
    assert_eq!(t.scout.id, "sc");
    assert_eq!(t.reapers[0].id, "r");
    assert_eq!(t.gatekeepers[0].id, "g");
    assert_eq!(followup_agent(&agents).unwrap().id, "r");
    assert_eq!(followup_agent(&vec![agent("x", "scout")]).unwrap().id, "x");
}

#[test]
fn review_confidence_reads_an_i32() {
    assert_eq!(min_review_confidence(""), 40);
    assert_eq!(min_review_confidence("55"), 55);
    assert_eq!(min_review_confidence("-7"), -7);
    assert_eq!(min_review_confidence("abc"), 40);
    assert_eq!(parse_i32("+12"), Some(12));
    assert_eq!(parse_i32("-2147483648"), Some(i32::MIN));
    assert_eq!(parse_i32("2147483648"), None);
    assert_eq!(parse_i32("-"), None);
    assert_eq!(parse_i32(" 1"), None);
}

#[test]
fn settings_switch_on_with_true_words() {
    assert!(env_truthy("TRUE"));
    assert!(env_truthy("1"));
    assert!(env_truthy("Yes"));
    assert!(!env_truthy(""));
    assert!(!env_truthy("on"));
}

#[test]
fn test_timeout_reads_positive_seconds() {
    assert_eq!(test_timeout_seconds(None), 600);
    assert_eq!(test_timeout_seconds(Some("30")), 30);
    assert_eq!(test_timeout_seconds(Some("0")), 600);
    assert_eq!(test_timeout_seconds(Some("+45")), 45);
    assert_eq!(test_timeout_seconds(Some("-1")), 600);
    assert_eq!(test_timeout_seconds(Some("99999999999999999999")), 600);
    assert_eq!(parse_u64("18446744073709551615"), Some(u64::MAX));
    assert_eq!(parse_u64("+"), None);
    assert_eq!(parse_u64(""), None);
}

#[test]
fn shell_quoting_survives_single_quotes() {
    assert_eq!(shell_single_quote("abc"), "'abc'");
    assert_eq!(shell_single_quote("it's"), "'it'\"'\"'s'");
    assert_eq!(
        askpass_script("bot", "t'k"),
        "#!/bin/sh\ncase \"$1\" in\n  *Username*) printf '%s\\n' 'bot' ;;\n  *Password*) printf '%s\\n' 't'\"'\"'k' ;;\n  *) printf '\\n' ;;\nesac\n"
    );
}

#[test]
fn clone_identity_falls_back_to_environment() {
    let id = clone_identity(None, "", Some("  "), Some("envtok"), "");
    assert_eq!(id.user, "");
    assert_eq!(id.token, "envtok");
    assert_eq!(id.askpass_user, "x-access-token");
    assert_eq!(id.email, None);
    let id = clone_identity(Some("bot"), "other", Some("tok"), None, "bot@x");
    assert_eq!(id.user, "bot");
    assert_eq!(id.token, "tok");
    assert_eq!(id.askpass_user, "bot");
    assert_eq!(id.email, Some("bot@x".to_string()));
    assert_eq!(clone_identity(None, "envuser", None, None, "").token, "");
}

#[test]
fn listing_skips_vendored_directories_and_filters_extensions() {
    let comps = |v: &[&str]| v.iter().map(|s| s.to_string()).collect::<Vec<_>>();
    assert!(skip_dir(&comps(&["/", "repo", "node_modules", "x.js"])));
    assert!(!skip_dir(&comps(&["/", "repo", "src", "x.js"])));
    assert!(wanted_file_exec("main.rs", false));
    assert!(!wanted_file_exec("README.md", false));
    assert!(wanted_file_exec("README.md", true));
    assert!(!wanted_file_exec(".rs", true));
    assert!(!wanted_file_exec("Makefile", true));
    assert!(wanted_file_exec("a.b.py", false));
    assert_eq!(structure_line("src/main.rs", 13), "src/main.rs (13 B)");
    assert_eq!(structure_text(&vec!["a".to_string(), "b".to_string()]), "a\nb");
}

#[test]
fn only_files_inside_the_repository_are_read() {
    let comps = |v: &[&str]| v.iter().map(|s| s.to_string()).collect::<Vec<_>>();
    let root = comps(&["/", "tmp", "repo"]);
    assert_eq!(
        strip_path_prefix(&root, &comps(&["/", "tmp", "repo", "src", "main.rs"])),
        Some(comps(&["src", "main.rs"]))
    );
    assert_eq!(strip_path_prefix(&root, &comps(&["/", "tmp", "secret.txt"])), None);
    assert_eq!(strip_path_prefix(&root, &comps(&["/", "tmp", "repository"])), None);
}

#[test]
fn code_digest_cuts_at_the_budget() {
    let mut d = CodeDigest::new(10);
    assert!(d.add("a.rs", "1234"));
    assert!(!d.add("b.rs", "abcdefghij"));
    assert_eq!(d.total, 4 + 6 + 15);
    assert_eq!(
        d.text(),
        "### a.rs\n```\n1234\n```\n\n### b.rs\n```\nabcdef\n...(truncated)\n```"
    );
    let mut e = CodeDigest::new(4);
    assert!(!e.add("u.rs", "ééé"));
    assert_eq!(e.sections, vec!["### u.rs\n```\néé\n...(truncated)\n```".to_string()]);
}

#[test]
fn test_output_keeps_the_last_2000_characters() {
    let out = trimmed_test_output(b"abc", &[0xff, b'd']);
    assert_eq!(out, "abc\u{fffd}d");
    let long = "y".repeat(2500);
    assert_eq!(tail_of_output(&long), "y".repeat(2000));
    let mixed = format!("{}{}", "a".repeat(10), "z".repeat(2000));
    assert_eq!(tail_of_output(&mixed), "z".repeat(2000));
}

#[test]
fn run_tests_requires_separate_host_execution_opt_in() {
    let result = test_plan("true", "host", "").err().unwrap();
    assert!(!result.passed);
    assert_eq!(result.runner, "host-disabled");
    assert!(result.output.contains("REAPER_ALLOW_HOST_TESTS=true"));
}

#[test]
fn tests_are_disabled_unless_enabled() {
    let r = test_plan("", "docker", "true").err().unwrap();
    assert_eq!(r.runner, "disabled");
    assert!(!r.passed);
    assert_eq!(
        r.output,
        "Unsafe test execution is disabled for untrusted repositories. Set REAPER_ENABLE_UNTRUSTED_TESTS=true to opt in."
    );
    let bad = test_plan("yes", "VM", "").err().unwrap();
    assert_eq!(bad.runner, "invalid");
    assert_eq!(bad.output, "Unknown REAPER_TEST_SANDBOX value `vm`. Use `docker` or `host`.");
    assert_eq!(test_plan("1", "", "").ok(), Some(TestSandbox::Docker));
    assert_eq!(test_plan("1", "Docker", "").ok(), Some(TestSandbox::Docker));
    assert_eq!(test_plan("1", "host", "true").ok(), Some(TestSandbox::Host));
}

#[test]
fn runners_follow_the_marker_files() {
    let present = vec!["pyproject.toml".to_string(), "package.json".to_string()];
    assert_eq!(applicable_runners(&present), vec![0, 1, 4]);
    assert_eq!(applicable_runners(&vec!["Cargo.toml".to_string()]), vec![2]);
    assert!(applicable_runners(&vec![]).is_empty());
    let go = runner_spec(3);
    assert_eq!(go.runner, "go");
    assert_eq!(go.image, "golang:1.24-bookworm");
    assert_eq!(go.command, "go test ./...");
    assert_eq!(go.markers, vec!["go.mod".to_string()]);
}

#[test]
fn test_results_name_the_sandbox_and_runner() {
    let r = no_runner_result(TestSandbox::Docker);
    assert!(r.passed);
    assert_eq!(r.runner, "none");
    assert_eq!(
        r.output,
        "No supported test runner was found, or Docker was unavailable for the detected runner."
    );
    assert_eq!(no_runner_result(TestSandbox::Host).output, "No supported test runner was found — skipped");
    let e = exhausted_result(TestSandbox::Host, "npm", None);
    assert_eq!(e.output, "Found `npm` test runner, but could not execute it.");
    assert_eq!(e.runner, "host:npm");
    assert_eq!(exhausted_result(TestSandbox::Docker, "go", Some("no docker".to_string())).output, "no docker");
    let t = timeout_result(TestSandbox::Docker, 600, "cargo");
    assert_eq!(t.output, "Sandboxed test run timed out after 600 seconds.");
    assert_eq!(t.runner, "docker:cargo");
    assert_eq!(timeout_result(TestSandbox::Host, 5, "go").output, "Host test run timed out after 5 seconds.");
    let c = completed_result(TestSandbox::Host, "pytest", true, "ok".to_string());
    assert!(c.passed);
    assert_eq!(c.runner, "host:pytest");
}

#[test]
fn sandbox_command_lines() {
    let args = docker_args("/w/repo", Some("1000:1000"), "node:20-bookworm", "npm test");
    assert_eq!(
        args,
        vec![
            "run", "--rm", "--network", "none", "--cap-drop", "ALL", "--security-opt",
            "no-new-privileges", "--pids-limit", "256", "--memory", "2g", "--cpus", "2", "-v",
            "/w/repo:/workspace", "-w", "/workspace", "--user", "1000:1000", "node:20-bookworm",
            "sh", "-lc", "npm test",
        ]
    );
    assert_eq!(docker_args("/w", None, "i", "c").len(), 22);
    let (program, rest) = host_command("pytest --tb=short   -q").unwrap();
    assert_eq!(program, "pytest");
    assert_eq!(rest, vec!["--tb=short".to_string(), "-q".to_string()]);
    assert!(host_command("   ").is_none());
    assert_eq!(split_words(" a  b\tc "), vec!["a", "b", "c"]);
    assert_eq!(user_spec("1000\n", " 100 "), Some("1000:100".to_string()));
    assert_eq!(user_spec("", "1"), None);
}

#[test]
fn runners_are_tried_in_turn_until_one_starts() {
    let present = vec!["pyproject.toml".to_string(), "package.json".to_string()];
    let (mut run, first) = RunnerRun::begin(TestSandbox::Docker, &present);
    assert_eq!(run.order, vec![0, 1, 4]);
    assert!(matches!(first, RunnerStep::Run(0)));
    assert!(matches!(run.on_outcome(Err("pull failed".to_string())), RunnerStep::Run(1)));
    assert!(matches!(run.on_outcome(Err("still no docker".to_string())), RunnerStep::Run(4)));
    let passed = completed_result(TestSandbox::Docker, "npm", true, "ok".to_string());
    match run.on_outcome(Ok(passed)) {
        RunnerStep::Finish(r) => {
            assert!(r.passed);
            assert_eq!(r.runner, "docker:npm");
        },
        _ => panic!("expected the run to finish"),
    }
}

#[test]
fn when_no_runner_starts_the_last_error_is_reported() {
    let present = vec!["go.mod".to_string()];
    let (mut run, first) = RunnerRun::begin(TestSandbox::Host, &present);
    assert!(matches!(first, RunnerStep::Run(3)));
    match run.on_outcome(Err("go: not found".to_string())) {
        RunnerStep::Finish(r) => {
            assert!(!r.passed);
            assert_eq!(r.output, "go: not found");
            assert_eq!(r.runner, "host:go");
        },
        _ => panic!("expected the run to finish"),
    }
    let (_, none) = RunnerRun::begin(TestSandbox::Host, &vec![]);
    match none {
        RunnerStep::Finish(r) => {
            assert!(r.passed);
            assert_eq!(r.runner, "none");
        },
        _ => panic!("expected the run to finish"),
    }
}
