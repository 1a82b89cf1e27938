use repo_reaper::agent::{AgentConfig, FixAgents};
use repo_reaper::fix::{
    AttemptOutcome, FixAction, FixEvent, FixPhase, FixRun, JsonText, PatchProposal, PublishedPr,
    SmithVerdict, TestResult,
};
use repo_reaper::issue::{build_issue_scope, IssueFacts};

fn agent(id: &str, role: &str) -> AgentConfig {
    AgentConfig {
        id: id.to_string(),
        name: format!("{id}-name"),
        role: role.to_string(),
        provider: "openai".to_string(),
        model: "m".to_string(),
        api_key: None,
        bot_token: None,
        bot_user: None,
        status: String::new(),
        current_task: String::new(),
    }
}

fn team() -> FixAgents {
    FixAgents {
        judge: Some(agent("j", "judge")),
        reaper: agent("r", "reaper"),
        smith: Some(agent("s", "smith")),
        gatekeeper: agent("g", "gatekeeper"),
    }
}

fn new_run(retries: usize) -> FixRun {
    let issue = IssueFacts {
        repo: "acme/widget".to_string(),
        number: 7,
        title: Some("Crash on start".to_string()),
        body: Some("It crashes".to_string()),
        url: Some("https://github.com/acme/widget/issues/7".to_string()),
        fixability_score: Some(80),
        fixability_reason: Some("clear".to_string()),
    };
    let scope = build_issue_scope("acme/widget", 7, "/tmp/repo-reaper");
    let (mut run, first) = FixRun::start(retries, 40, "run1".to_string(), issue, scope, team(), "bot".to_string());
    assert!(matches!(first, FixAction::CheckCancelled));
    match step(&mut run, FixEvent::Cancelled(false)) {
        FixAction::CheckDuplicate { repo, branch } => {
            assert_eq!(repo, "acme/widget");
            assert_eq!(branch, "reaper/issue-7");
        },
        _ => panic!("expected a duplicate check"),
    }
    assert!(matches!(step(&mut run, FixEvent::DuplicateFound(false)), FixAction::StartAttempt));
    run
}

fn fresh_run() -> FixRun {
    let issue = IssueFacts {
        repo: "acme/widget".to_string(),
        number: 8,
        title: None,
        body: None,
        url: None,
        fixability_score: None,
        fixability_reason: None,
    };
    let scope = build_issue_scope("acme/widget", 8, "/tmp/repo-reaper");
    FixRun::start(3, 40, "run2".to_string(), issue, scope, team(), "bot".to_string()).0
}

#[test]
fn a_run_cancelled_before_the_claim_gives_the_issue_up() {
    let mut run = fresh_run();
    assert!(matches!(step(&mut run, FixEvent::Cancelled(true)), FixAction::Abandon));
    assert_eq!(run.phase, FixPhase::Finished);
    assert!(!run.accepts_event(&FixEvent::Done));
}

#[test]
fn an_issue_with_an_existing_branch_is_skipped() {
    let mut run = fresh_run();
    assert!(matches!(step(&mut run, FixEvent::Cancelled(false)), FixAction::CheckDuplicate { .. }));
    assert!(matches!(step(&mut run, FixEvent::DuplicateFound(true)), FixAction::SkipDuplicate));
    assert_eq!(run.phase, FixPhase::Finished);
}

fn step(run: &mut FixRun, e: FixEvent) -> FixAction {
    assert!(run.accepts_event(&e));
    run.step(e)
}

fn proposal(patch: &str, confidence: i64) -> PatchProposal {
    PatchProposal {
        patch: JsonText::Text(patch.to_string()),
        explanation: Some("Guard the null".to_string()),
        files_changed: vec!["src/main.rs".to_string()],
        confidence: Some(confidence),
    }
}

fn reach_review(run: &mut FixRun) {
    assert!(matches!(step(run, FixEvent::Done), FixAction::CloneRepo));
    assert!(matches!(step(run, FixEvent::Cloned(Ok("ctx".to_string()))), FixAction::CheckCancelled));
    assert!(matches!(step(run, FixEvent::Cancelled(false)), FixAction::CollectStructure));
    assert!(matches!(step(run, FixEvent::Collected("src/main.rs (10 B)".to_string())), FixAction::CheckCancelled));
    match step(run, FixEvent::Cancelled(false)) {
        FixAction::SelectFiles { structure } => assert_eq!(structure, "src/main.rs (10 B)"),
        _ => panic!("expected file selection"),
    }
    match step(run, FixEvent::FilesSelected(Ok(vec!["src/main.rs".to_string()]))) {
        FixAction::CollectSelectedFiles { files, max_bytes } => {
            assert_eq!(files, vec!["src/main.rs".to_string()]);
            assert_eq!(max_bytes, 80_000);
        },
        _ => panic!("expected selected files"),
    }
    match step(run, FixEvent::Collected("fn main() {}".to_string())) {
        FixAction::FetchRepoMemory(req) => assert_eq!(req.task_summary, "Fix GitHub issue #7 in acme/widget: Crash on start"),
        _ => panic!("expected a memory request"),
    }
    assert!(matches!(step(run, FixEvent::RepoMemory(Ok(None))), FixAction::CheckCancelled));
    match step(run, FixEvent::Cancelled(false)) {
        FixAction::GeneratePatch { codebase, context } => {
            assert_eq!(codebase, "fn main() {}");
            assert_eq!(context, "ctx");
        },
        _ => panic!("expected patch generation"),
    }
    match step(run, FixEvent::Patch(Ok(proposal("diff --git a/src/main.rs b/src/main.rs\n", 80)))) {
        FixAction::ApplyPatch { patch } => assert_eq!(patch, "diff --git a/src/main.rs b/src/main.rs\n"),
        _ => panic!("expected patch application"),
    }
    assert!(matches!(step(run, FixEvent::Applied { ok: true, error: String::new() }), FixAction::CheckCancelled));
    match step(run, FixEvent::Cancelled(false)) {
        FixAction::ReviewPatch { explanation, .. } => assert_eq!(explanation, "Guard the null"),
        _ => panic!("expected review"),
    }
}

#[test]
fn an_approved_patch_that_passes_is_published() {
    let mut run = new_run(3);
    reach_review(&mut run);
    let verdict = SmithVerdict { confidence: Some(90), approved: Some(true), feedback: Some("good".to_string()), improved_patch: None };
    assert!(matches!(step(&mut run, FixEvent::Reviewed(Ok(verdict))), FixAction::CheckCancelled));
    assert!(matches!(step(&mut run, FixEvent::Cancelled(false)), FixAction::RunTests));
    let passed = TestResult { passed: true, output: "ok".to_string(), runner: "docker:cargo".to_string() };
    assert!(matches!(step(&mut run, FixEvent::Tested(passed)), FixAction::CheckCancelled));
    match step(&mut run, FixEvent::Cancelled(false)) {
        FixAction::Publish { commit_message, head, draft, body } => {
            assert_eq!(commit_message, "fix: Crash on start (closes #7)");
            assert_eq!(head, "bot:reaper/issue-7");
            assert!(!draft);
            assert!(body.contains("Closes #7"));
        },
        _ => panic!("expected publication"),
    }
    let pr = PublishedPr { number: 99, url: Some("https://github.com/acme/widget/pull/99".to_string()) };
    match step(&mut run, FixEvent::Published(Ok(pr))) {
        FixAction::Finish(record) => {
            assert_eq!(record.outcome, AttemptOutcome::Fixed);
            assert_eq!(record.confidence, 80);
            assert!(!record.draft);
            assert_eq!(record.pr.unwrap().number, 99);
        },
        _ => panic!("expected the attempt to finish"),
    }
    assert_eq!(run.phase, FixPhase::Finished);
    assert_eq!(run.smith_review().final_patch, "diff --git a/src/main.rs b/src/main.rs\n");
    assert_eq!(run.code_selection().selected_files, vec!["src/main.rs".to_string()]);
}

#[test]
fn a_rejected_patch_is_recorded_and_not_published() {
    let mut run = new_run(3);
    reach_review(&mut run);
    let verdict = SmithVerdict { confidence: Some(20), approved: Some(false), feedback: Some("risky".to_string()), improved_patch: None };
    match step(&mut run, FixEvent::Reviewed(Ok(verdict))) {
        FixAction::RecordRejection { confidence, feedback, candidate, .. } => {
            assert_eq!(confidence, 20);
            assert_eq!(feedback, "risky");
            assert_eq!(candidate.repo, "acme/widget");
        },
        _ => panic!("expected a rejection"),
    }
    match step(&mut run, FixEvent::Done) {
        FixAction::Finish(record) => {
            assert_eq!(record.outcome, AttemptOutcome::Rejected);
            assert_eq!(record.reason, Some("confidence_20".to_string()));
        },
        _ => panic!("expected the attempt to finish"),
    }
    assert!(!run.accepts_event(&FixEvent::Done));
}

#[test]
fn an_approved_patch_below_the_minimum_confidence_is_rejected() {
    let mut run = new_run(3);
    reach_review(&mut run);
    let verdict = SmithVerdict { confidence: Some(10), approved: Some(true), feedback: Some("fine".to_string()), improved_patch: None };
    match step(&mut run, FixEvent::Reviewed(Ok(verdict))) {
        FixAction::RecordRejection { confidence, .. } => assert_eq!(confidence, 10),
        _ => panic!("expected a rejection"),
    }
    match step(&mut run, FixEvent::Done) {
        FixAction::Finish(record) => {
            assert_eq!(record.outcome, AttemptOutcome::Rejected);
            assert_eq!(record.reason, Some("confidence_10".to_string()));
            assert!(record.pr.is_none());
        },
        _ => panic!("expected the attempt to finish"),
    }
}

#[test]
fn an_unapproved_patch_at_the_minimum_confidence_goes_on_to_tests() {
    let mut run = new_run(3);
    reach_review(&mut run);
    let verdict = SmithVerdict { confidence: Some(40), approved: Some(false), feedback: None, improved_patch: None };
    assert!(matches!(step(&mut run, FixEvent::Reviewed(Ok(verdict))), FixAction::CheckCancelled));
    assert!(matches!(step(&mut run, FixEvent::Cancelled(false)), FixAction::RunTests));
}

#[test]
fn failing_tests_are_retried_then_published_as_draft() {
    let mut run = new_run(1);
    reach_review(&mut run);
    let verdict = SmithVerdict { confidence: None, approved: None, feedback: None, improved_patch: None };
    assert!(matches!(step(&mut run, FixEvent::Reviewed(Ok(verdict))), FixAction::CheckCancelled));
    assert!(matches!(step(&mut run, FixEvent::Cancelled(false)), FixAction::RunTests));
    let failed = TestResult { passed: false, output: "boom".to_string(), runner: "docker:cargo".to_string() };
    assert!(matches!(step(&mut run, FixEvent::Tested(failed.clone())), FixAction::ResetWorktree));
    assert!(matches!(step(&mut run, FixEvent::Done), FixAction::CheckCancelled));
    match step(&mut run, FixEvent::Cancelled(false)) {
        FixAction::RetryPatch { failure, .. } => assert!(failure.starts_with("Test failure:\nboom")),
        _ => panic!("expected a retry"),
    }
    assert!(matches!(step(&mut run, FixEvent::Patch(Ok(proposal("p2", 10)))), FixAction::ApplyPatch { .. }));
    assert!(matches!(step(&mut run, FixEvent::Applied { ok: true, error: String::new() }), FixAction::RunTests));
    assert!(matches!(step(&mut run, FixEvent::Tested(failed)), FixAction::CheckCancelled));
    match step(&mut run, FixEvent::Cancelled(false)) {
        FixAction::Publish { draft, .. } => assert!(draft),
        _ => panic!("expected a draft publication"),
    }
}

#[test]
fn cancellation_ends_the_attempt() {
    let mut run = new_run(3);
    assert!(matches!(step(&mut run, FixEvent::Done), FixAction::CloneRepo));
    assert!(matches!(step(&mut run, FixEvent::Cloned(Ok(String::new()))), FixAction::CheckCancelled));
    match step(&mut run, FixEvent::Cancelled(true)) {
        FixAction::Finish(record) => {
            assert_eq!(record.outcome, AttemptOutcome::Skipped);
            assert_eq!(record.reason, Some("cancelled".to_string()));
        },
        _ => panic!("expected the attempt to finish"),
    }
}

#[test]
fn a_clone_failure_is_an_error() {
    let mut run = new_run(3);
    step(&mut run, FixEvent::Done);
    match step(&mut run, FixEvent::Cloned(Err("fork timed out".to_string()))) {
        FixAction::Finish(record) => {
            assert_eq!(record.outcome, AttemptOutcome::Error);
            assert_eq!(record.error, Some("fork timed out".to_string()));
        },
        _ => panic!("expected the attempt to finish"),
    }
}

#[test]
fn no_patch_is_a_skip() {
    let mut run = new_run(3);
    reach_review_until_patch(&mut run);
    let none = PatchProposal { patch: JsonText::Missing, explanation: None, files_changed: vec![], confidence: None };
    match step(&mut run, FixEvent::Patch(Ok(none))) {
        FixAction::Finish(record) => assert_eq!(record.reason, Some("no_patch".to_string())),
        _ => panic!("expected the attempt to finish"),
    }
}

fn reach_review_until_patch(run: &mut FixRun) {
    step(run, FixEvent::Done);
    step(run, FixEvent::Cloned(Ok(String::new())));
    step(run, FixEvent::Cancelled(false));
    step(run, FixEvent::Collected(String::new()));
    step(run, FixEvent::Cancelled(false));
    step(run, FixEvent::FilesSelected(Ok(vec![])));
    step(run, FixEvent::Collected(String::new()));
    step(run, FixEvent::RepoMemory(Err("down".to_string())));
    assert!(matches!(step(run, FixEvent::Cancelled(false)), FixAction::GeneratePatch { .. }));
}

#[test]
fn a_cancelled_run_asks_for_no_retry_patch() {
    let mut run = new_run(2);
    reach_review(&mut run);
    let verdict = SmithVerdict { confidence: Some(90), approved: Some(true), feedback: None, improved_patch: None };
    assert!(matches!(step(&mut run, FixEvent::Reviewed(Ok(verdict))), FixAction::CheckCancelled));
    assert!(matches!(step(&mut run, FixEvent::Cancelled(false)), FixAction::RunTests));
    let failed = TestResult { passed: false, output: "boom".to_string(), runner: "docker:cargo".to_string() };
    assert!(matches!(step(&mut run, FixEvent::Tested(failed)), FixAction::ResetWorktree));
    assert!(matches!(step(&mut run, FixEvent::Done), FixAction::CheckCancelled));
    match step(&mut run, FixEvent::Cancelled(true)) {
        FixAction::Finish(record) => {
            assert_eq!(record.outcome, AttemptOutcome::Skipped);
            assert_eq!(record.reason, Some("cancelled".to_string()));
            assert_eq!(record.confidence, 80);
        },
        _ => panic!("expected the attempt to finish"),
    }
}

#[test]
fn a_cancelled_run_asks_for_no_self_heal() {
    let mut run = new_run(3);
    reach_review_until_patch(&mut run);
    assert!(matches!(step(&mut run, FixEvent::Patch(Ok(proposal("bad diff", 70)))), FixAction::ApplyPatch { .. }));
    assert!(matches!(
        step(&mut run, FixEvent::Applied { ok: false, error: "corrupt patch".to_string() }),
        FixAction::CheckCancelled
    ));
    match step(&mut run, FixEvent::Cancelled(true)) {
        FixAction::Finish(record) => assert_eq!(record.reason, Some("cancelled".to_string())),
        _ => panic!("expected the attempt to finish"),
    }
}

#[test]
fn a_failed_apply_is_healed_after_a_cancellation_check() {
    let mut run = new_run(3);
    reach_review_until_patch(&mut run);
    step(&mut run, FixEvent::Patch(Ok(proposal("bad diff", 70))));
    step(&mut run, FixEvent::Applied { ok: false, error: "corrupt patch".to_string() });
    match step(&mut run, FixEvent::Cancelled(false)) {
        FixAction::RetryPatch { previous, failure } => {
            assert_eq!(previous, "bad diff");
            assert!(failure.starts_with("git apply error:\ncorrupt patch\n\n"));
        },
        _ => panic!("expected a self-heal request"),
    }
}
