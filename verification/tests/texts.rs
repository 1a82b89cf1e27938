use repo_reaper::agent::{call_params, pick_fix_agents, AgentConfig, PickAgentsError};
use repo_reaper::issue::{build_issue_scope, issue_branch_exec, second_segment_exec, work_dir};
use repo_reaper::memory::{
    build_repo_memory_block, build_smith_rejection_candidate, diff_paths, enriched_context,
    repo_memory_request, short_text, RepoMemoryContext, RepoMemoryEntry,
};
use repo_reaper::prompts::{
    dry_run_prompt, first_chars_exec, generate_patch_prompt, patch_retry_prompt,
    pr_comment_fix_prompt, score_prompt, select_files_prompt, smith_prompt,
};
use repo_reaper::publish::{commit_message, hunting_comment, pr_body, pr_head, PrBodyFacts};
use repo_reaper::issue::IssueFacts;

fn agent(id: &str, role: &str) -> AgentConfig {
    AgentConfig {
        id: id.to_string(),
        name: format!("{id}-name"),
        role: role.to_string(),
        provider: "openai".to_string(),
        model: "gpt-4o".to_string(),
        api_key: Some("k".to_string()),
        bot_token: None,
        bot_user: Some("bot".to_string()),
        status: String::new(),
        current_task: String::new(),
    }
}

#[test]
fn short_text_keeps_short_values_trimmed() {
    assert_eq!(short_text("  abc  ", 5), "abc");
}

#[test]
fn short_text_cuts_long_values_with_ellipsis() {
    assert_eq!(short_text("  hello world  ", 5), "he...");
    assert_eq!(short_text("hello", 2), "...");
}

#[test]
fn diff_paths_lists_each_file_once() {
    let diff = "diff --git a/src/x.rs b/src/x.rs\n+line\ndiff --git a/src/x.rs b/src/x.rs\ndiff --git a/y.py b/y.py\n";
    assert_eq!(diff_paths(diff), vec!["src/x.rs".to_string(), "y.py".to_string()]);
    assert!(diff_paths("no diff here").is_empty());
}

#[test]
fn memory_block_is_empty_without_entries() {
    assert_eq!(build_repo_memory_block(None), "");
    let ctx = RepoMemoryContext { entries: vec![], summary: "S".to_string() };
    assert_eq!(build_repo_memory_block(Some(&ctx)), "");
}

#[test]
fn memory_block_separates_curated_and_signals() {
    let ctx = RepoMemoryContext {
        entries: vec![
            RepoMemoryEntry {
                kind: "rule".to_string(),
                prompt_line: "Use tabs".to_string(),
                disposition: "policy".to_string(),
                pinned: true,
            },
            RepoMemoryEntry {
                kind: "hotspot".to_string(),
                prompt_line: "src/a.rs churns".to_string(),
                disposition: "signal".to_string(),
                pinned: false,
            },
        ],
        summary: "S".to_string(),
    };
    assert_eq!(
        build_repo_memory_block(Some(&ctx)),
        "RepoMemory says the latest durable context for this repo is:\nOperator-curated memory:\n- [pinned policy] [rule] Use tabs\n\nRetrieved signals:\n- [hotspot] src/a.rs churns\n\nSummary: S"
    );
}

#[test]
fn hunting_comment_shows_score_and_reason() {
    assert_eq!(
        hunting_comment(Some(80), Some("clear repro")),
        "🔱 **RepoReaper** is hunting this bug.\n\n> Fixability score: **80/100** — clear repro\n\nA pull request will be opened shortly.\n\n*by PatchHive*"
    );
    assert_eq!(
        hunting_comment(None, Some("")),
        "🔱 **RepoReaper** is hunting this bug.\n\n> Fixability score: **50/100**\n\nA pull request will be opened shortly.\n\n*by PatchHive*"
    );
}

#[test]
fn commit_message_cuts_title_at_72_chars() {
    let title = "x".repeat(80);
    assert_eq!(commit_message(&title, 7), format!("fix: {} (closes #7)", "x".repeat(72)));
    assert_eq!(commit_message("Crash on start", 12), "fix: Crash on start (closes #12)");
}

#[test]
fn pr_head_joins_user_and_branch() {
    assert_eq!(pr_head("bot", "reaper/issue-3"), "bot:reaper/issue-3");
}

#[test]
fn pr_body_lists_everything() {
    let files = vec!["a.rs".to_string(), "b.rs".to_string()];
    let facts = PrBodyFacts {
        issue_num: 5,
        title: Some("Bug"),
        explanation: Some("Fixed it"),
        confidence: 77,
        files_changed: &files,
        fixability_score: None,
        fixability_reason: Some("small"),
        smith_note: "note",
        tests_passed: false,
        judge: None,
        reaper: "R",
        smith: Some("S"),
        gatekeeper: "G",
    };
    assert_eq!(
        pr_body(&facts),
        "## 🔱 Reaping #5: Bug\n\n### What changed\nFixed it\n\n**Reaper confidence:** 77/100\n\n### Files targeted\n- `a.rs`\n- `b.rs`\n\n### Fixability Score\n**50/100** — small\n\nnote\n\n### Tests\n⚠️ Failed (draft PR)\n\n---\n⚖ Judge: none · ⚔ Reaper: R · ⬢ Smith: S · 🔒 Gatekeeper: G\n\n*RepoReaper by PatchHive · Closes #5*"
    );
}

#[test]
fn issue_scope_names_branch_and_directory() {
    let scope = build_issue_scope("acme/widget", 42, "/tmp/repo-reaper");
    assert_eq!(scope.repo, "acme/widget");
    assert_eq!(scope.issue_num, 42);
    assert_eq!(scope.branch, "reaper/issue-42");
    assert_eq!(scope.work_path, "/tmp/repo-reaper/widget-42");
    assert_eq!(issue_branch_exec(-3), "reaper/issue--3");
    assert_eq!(second_segment_exec("acme/widget/extra"), Some("widget".to_string()));
    assert_eq!(second_segment_exec("plain"), None);
    assert_eq!(work_dir(None), "/tmp/repo-reaper");
    assert_eq!(work_dir(Some("/w")), "/w");
}

#[test]
fn issue_scope_without_owner_uses_repo_dir_name() {
    let scope = build_issue_scope("plain", 1, "/w/");
    assert_eq!(scope.work_path, "/w/repo-1");
}

#[test]
fn pick_fix_agents_needs_each_role() {
    let r = vec![agent("r1", "reaper")];
    let j = vec![agent("j1", "judge")];
    let s = vec![agent("s1", "smith")];
    assert_eq!(pick_fix_agents(0, &j, &[], &s, &[]).err(), Some(PickAgentsError::NoReapers));
    assert_eq!(pick_fix_agents(0, &[], &r, &s, &[]).err(), Some(PickAgentsError::NoJudges));
    assert_eq!(pick_fix_agents(0, &j, &r, &[], &[]).err(), Some(PickAgentsError::NoSmiths));
    assert_eq!(
        PickAgentsError::NoSmiths.message(),
        "no smith agents configured — at least one smith is required"
    );
}

#[test]
fn pick_fix_agents_rotates_and_falls_back_to_reaper() {
    let r = vec![agent("r1", "reaper"), agent("r2", "reaper")];
    let j = vec![agent("j1", "judge")];
    let s = vec![agent("s1", "smith"), agent("s2", "smith"), agent("s3", "smith")];
    let team = pick_fix_agents(4, &j, &r, &s, &[]).ok().unwrap();
    assert_eq!(team.reaper.id, "r1");
    assert_eq!(team.smith.unwrap().id, "s2");
    assert_eq!(team.judge.unwrap().id, "j1");
    assert_eq!(team.gatekeeper.id, "r1");
}

#[test]
fn call_params_borrow_agent_settings() {
    let a = agent("a", "reaper");
    let p = call_params(&a, "sys", "prompt");
    assert_eq!(p.provider, "openai");
    assert_eq!(p.model, "gpt-4o");
    assert_eq!(p.api_key, Some("k"));
    assert_eq!(p.bot_user, Some("bot"));
    assert_eq!(p.system, "sys");
    assert_eq!(p.prompt, "prompt");
}

#[test]
fn rejection_candidate_describes_the_rejection() {
    let scope = build_issue_scope("acme/widget", 9, "/tmp/repo-reaper");
    let files = vec!["src/a.rs".to_string(), "  ".to_string()];
    let c = build_smith_rejection_candidate(
        Some("Crash"),
        None,
        &scope,
        &files,
        "diff --git a/src/b.rs b/src/b.rs\n",
        "  ",
        20,
        40,
        "run1",
    );
    assert_eq!(c.repo, "acme/widget");
    assert_eq!(c.source_type, "repo-reaper-rejection");
    assert_eq!(c.source_ref, "acme/widget#9");
    assert_eq!(c.title, "RepoReaper rejection: Crash");
    assert_eq!(c.affected_paths, vec!["src/a.rs".to_string(), "src/b.rs".to_string()]);
    assert_eq!(c.confidence, 80);
    assert_eq!(c.evidence[0], "RepoReaper run run1");
    assert_eq!(c.evidence[1], "Issue #9: Crash");
    assert_eq!(c.evidence[2], "Smith confidence: 20% below required 40%");
    assert_eq!(
        c.evidence[3],
        "Smith feedback: Smith rejected the generated patch without detailed feedback."
    );
    assert_eq!(c.evidence[4], "Affected paths: src/a.rs, src/b.rs");
}

#[test]
fn rejection_confidence_is_clamped() {
    let scope = build_issue_scope("acme/widget", 9, "/tmp/repo-reaper");
    let c = build_smith_rejection_candidate(None, Some("https://x/1"), &scope, &[], "", "bad", 0, 40, "r");
    assert_eq!(c.confidence, 92);
    assert_eq!(c.source_ref, "https://x/1");
    let d = build_smith_rejection_candidate(None, None, &scope, &[], "", "bad", 60, 70, "r");
    assert_eq!(d.confidence, 55);
    assert_eq!(d.title, "RepoReaper rejection: Untitled issue");
}

#[test]
fn memory_request_summarises_the_task() {
    let sel = vec!["a.rs".to_string()];
    let r = repo_memory_request("acme/w", 3, "Crash", &sel, "ctx");
    assert_eq!(r.repo, "acme/w");
    assert_eq!(r.task_summary, "Fix GitHub issue #3 in acme/w: Crash");
    assert_eq!(r.changed_paths, sel);
    assert_eq!(r.limit, 5);
    assert_eq!(r.consumer, "repo-reaper");
    assert_eq!(r.diff_summary, "ctx");
}

#[test]
fn enriched_context_appends_memory() {
    assert_eq!(enriched_context("ctx", ""), "ctx");
    assert_eq!(enriched_context("ctx", "MEM"), "ctx\n\nMEM");
}

#[test]
fn prompts_follow_their_templates() {
    assert_eq!(first_chars_exec("héllo", 2), "hé");
    assert_eq!(
        select_files_prompt("T", "body", "a.rs (1 B)"),
        "Issue: T\n\nbody\n\nFiles:\na.rs (1 B)"
    );
    assert_eq!(
        generate_patch_prompt("T", &"b".repeat(2000), "CODE", "CTX"),
        format!("Issue: T\n\n{}\n\nIssue context:\nCTX\n\nCode:\nCODE", "b".repeat(1500))
    );
    assert_eq!(
        patch_retry_prompt("T", "B", "CODE", "P", "E"),
        "Issue: T\n\nB\n\nPrevious patch (FAILED):\nP\n\nFailure:\nE\n\nCode:\nCODE"
    );
    assert_eq!(smith_prompt("T", "P", "X"), "Issue: T\nFix: X\nPatch:\nP");
    assert_eq!(
        pr_comment_fix_prompt("T", "wrong", "C"),
        "Original issue: T\nMaintainer: wrong\nCode:\nC"
    );
    assert_eq!(score_prompt("[]"), "Score:\n[]");
}

#[test]
fn dry_run_prompt_lists_repos_and_issues() {
    let names = vec![Some("a/x".to_string()), None, Some("b/y".to_string())];
    let issues = vec![IssueFacts {
        repo: "a/x".to_string(),
        number: 4,
        title: Some("Crash".to_string()),
        body: None,
        url: None,
        fixability_score: None,
        fixability_reason: None,
    }];
    assert_eq!(
        dry_run_prompt(&names, &issues),
        "Repos (2): a/x, b/y\n\nIssues (1):\n- #4 [50/100] a/x: Crash"
    );
}
