//! The work on one issue, from claiming it to opening the pull request, as a
//! state machine.
//!
//! Each call of [`FixRun::step`] takes the outcome of the last outside action
//! (a clone, a model call, a test run, ...) and decides the next action. The
//! caller performs the actions; every decision of the attempt is taken here.

use vstd::prelude::*;
use crate::agent::{AgentConfig, FixAgents, PickAgentsError};
use crate::issue::{IssueFacts, IssueScope};
use crate::memory::{
    build_repo_memory_block, build_smith_rejection_candidate, enriched_context,
    enriched_context_spec, memory_request_matches, rejection_candidate_matches,
    repo_memory_block, repo_memory_request, FailGuardCandidate, RepoMemoryContext,
    RepoMemoryRequest,
};
use crate::publish::{
    commit_message, commit_message_spec, opt_or, pr_body, pr_body_text, pr_head, pr_head_spec,
    PrBodyFacts,
};
use crate::text::{
    chars_of, int_decimal, is_blank, push_decimal, push_str, string_from_chars, trim, clone_opt,
    clone_strings,
};

verus! {

// ---------------------------------------------------------------------------
// Parameters and outcomes of outside work
// ---------------------------------------------------------------------------

/// The parameters of one fix attempt.
pub struct FixParams {
    pub retry_count: usize,
    pub min_conf: i32,
    pub run_id: String,
    pub cancel_requested: std::sync::Arc<std::sync::atomic::AtomicBool>,
}

/// Whether the run that this attempt belongs to was cancelled. The flag is
/// set by another task, so nothing can be promised of its value.
pub fn cancelled(params: &FixParams) -> bool {
    params.cancel_requested.load(std::sync::atomic::Ordering::SeqCst)
}

/// A JSON field as the decisions read it: absent or null, a string, or any
/// other value.
#[derive(Clone, Debug)]
pub enum JsonText {
    Missing,
    Text(String),
    Other,
}

/// What a patch generation answered.
#[derive(Clone, Debug)]
pub struct PatchProposal {
    pub patch: JsonText,
    pub explanation: Option<String>,
    pub files_changed: Vec<String>,
    pub confidence: Option<i64>,
}

/// What Smith answered about a patch.
#[derive(Clone, Debug)]
pub struct SmithVerdict {
    pub confidence: Option<i64>,
    pub approved: Option<bool>,
    pub feedback: Option<String>,
    pub improved_patch: Option<String>,
}

/// The outcome of a test run.
#[derive(Clone, Debug)]
pub struct TestResult {
    pub passed: bool,
    pub output: String,
    pub runner: String,
}

/// The pull request that was opened.
#[derive(Clone, Debug)]
pub struct PublishedPr {
    pub number: i64,
    pub url: Option<String>,
}

/// The outcome of the outside action that the machine asked for.
pub enum FixEvent {
    Done,
    Cancelled(bool),
    /// Whether the issue's branch or a pull request from it already exists.
    DuplicateFound(bool),
    Cloned(Result<String, String>),
    Collected(String),
    FilesSelected(Result<Vec<String>, String>),
    RepoMemory(Result<Option<RepoMemoryContext>, String>),
    Patch(Result<PatchProposal, String>),
    Applied { ok: bool, error: String },
    Reviewed(Result<SmithVerdict, String>),
    Tested(TestResult),
    Published(Result<PublishedPr, String>),
}

/// How an attempt ended.
#[derive(Clone, Copy, Debug, PartialEq, Eq, Structural)]
pub enum AttemptOutcome {
    Skipped,
    Rejected,
    Error,
    Fixed,
}

/// What is recorded of a finished attempt.
#[derive(Clone, Debug)]
pub struct AttemptRecord {
    pub outcome: AttemptOutcome,
    pub reason: Option<String>,
    pub error: Option<String>,
    pub patch_diff: Option<String>,
    pub confidence: i32,
    pub pr: Option<PublishedPr>,
    pub draft: bool,
}

/// The outside work that the machine asks for next.
pub enum FixAction {
    /// Give the issue up before it is claimed: the run was cancelled.
    Abandon,
    /// Look for the issue's branch, or a pull request from it, in the fork.
    CheckDuplicate { repo: String, branch: String },
    /// Give the issue up: a branch or pull request for it already exists.
    SkipDuplicate,
    StartAttempt,
    CloneRepo,
    CheckCancelled,
    CollectAllFiles { max_bytes: usize },
    CollectStructure,
    SelectFiles { structure: String },
    CollectSelectedFiles { files: Vec<String>, max_bytes: usize },
    FetchRepoMemory(RepoMemoryRequest),
    GeneratePatch { codebase: String, context: String },
    ApplyPatch { patch: String },
    RetryPatch { previous: String, failure: String },
    ReviewPatch { patch: String, explanation: String },
    RecordRejection {
        candidate: FailGuardCandidate,
        confidence: i32,
        feedback: String,
        patch: String,
    },
    RunTests,
    ResetWorktree,
    Publish { commit_message: String, body: String, head: String, draft: bool },
    Finish(AttemptRecord),
}

#[derive(Clone, Copy, Debug, PartialEq, Eq, Structural)]
pub enum FixPhase {
    AwaitClaimCancel,
    AwaitDuplicateCheck,
    AwaitAttemptStart,
    AwaitClone,
    AwaitCancelAfterClone,
    AwaitStructure,
    AwaitCancelBeforeSelection,
    AwaitSelection,
    AwaitCode,
    AwaitMemory,
    AwaitCancelBeforePatch,
    AwaitPatch,
    AwaitApply,
    AwaitCancelBeforeHeal,
    AwaitHeal,
    AwaitHealApply,
    AwaitCancelBeforeReview,
    AwaitReview,
    AwaitRejectionRecorded,
    AwaitCancelBeforeTests,
    AwaitTests,
    AwaitReset,
    AwaitCancelBeforeRetry,
    AwaitRetryPatch,
    AwaitRetryApply,
    AwaitRetryTests,
    AwaitCancelBeforePublish,
    AwaitPublish,
    Finished,
}

/// Code collected from the whole repository when no files were targeted.
pub const ALL_FILES_BUDGET: usize = 60_000;

/// Code collected from the targeted files.
pub const SELECTED_FILES_BUDGET: usize = 80_000;

/// The state of one fix attempt.
pub struct FixRun {
    pub phase: FixPhase,
    pub retry_count: usize,
    pub min_conf: i32,
    pub run_id: String,
    pub issue: IssueFacts,
    pub scope: IssueScope,
    pub agents: FixAgents,
    pub bot_user: String,
    pub issue_ctx: String,
    pub selected_files: Vec<String>,
    pub codebase: String,
    pub enriched_ctx: String,
    /// The accepted patch generation.
    pub result: PatchProposal,
    /// A self-heal or retry answer whose patch is being applied.
    pub candidate: PatchProposal,
    pub confidence: i32,
    pub final_patch: String,
    pub smith_note: String,
    pub rejection_confidence: i32,
    /// The repository's layout, as listed for the judge.
    pub structure: String,
    /// What the self-heal is told of a failed `git apply`.
    pub heal_failure: String,
    pub test: TestResult,
    pub retries_done: usize,
}

// ---------------------------------------------------------------------------
// Model
// ---------------------------------------------------------------------------

/// The files targeted for a fix and the code collected for it.
#[derive(Clone, Debug)]
pub struct CodeSelection {
    pub selected_files: Vec<String>,
    pub codebase: String,
}

/// What the review leaves: the patch that goes on to the tests and Smith's
/// note for the pull request.
#[derive(Clone, Debug)]
pub struct SmithReviewOutcome {
    pub final_patch: String,
    pub smith_note: String,
}

impl FixRun {
    /// The files targeted and the code collected so far.
    pub fn code_selection(&self) -> (res: CodeSelection)
        ensures
            strs(res.selected_files@) == strs(self.selected_files@),
            res.codebase@ == self.codebase@,
    {
        CodeSelection {
            selected_files: crate::text::clone_strings(&self.selected_files),
            codebase: self.codebase.clone(),
        }
    }

    /// The patch and note that the review left.
    pub fn smith_review(&self) -> (res: SmithReviewOutcome)
        ensures
            res.final_patch@ == self.final_patch@,
            res.smith_note@ == self.smith_note@,
    {
        SmithReviewOutcome { final_patch: self.final_patch.clone(), smith_note: self.smith_note.clone() }
    }
}

/// The part of a [`FixRun`] that changes from step to step.
pub struct FixModel {
    pub phase: FixPhase,
    pub issue_ctx: Seq<char>,
    pub selected: Seq<Seq<char>>,
    pub codebase: Seq<char>,
    pub enriched: Seq<char>,
    pub result: ProposalModel,
    pub candidate: ProposalModel,
    pub confidence: i32,
    pub final_patch: Seq<char>,
    pub smith_note: Seq<char>,
    pub rejection_confidence: i32,
    pub structure: Seq<char>,
    pub heal_failure: Seq<char>,
    pub test: TestResult,
    pub retries_done: nat,
}

pub enum JsonTextModel {
    Missing,
    Text(Seq<char>),
    Other,
}

/// A patch generation, by the views of its texts.
pub struct ProposalModel {
    pub patch: JsonTextModel,
    pub explanation: Option<Seq<char>>,
    pub files_changed: Seq<Seq<char>>,
    pub confidence: Option<i64>,
}

pub struct RecordModel {
    pub outcome: AttemptOutcome,
    pub reason: Option<Seq<char>>,
    pub error: Option<Seq<char>>,
    pub patch_diff: Option<Seq<char>>,
    pub confidence: i32,
    pub pr_number: Option<i64>,
    pub pr_url: Option<Seq<char>>,
    pub draft: bool,
}

pub enum ActionModel {
    Abandon,
    CheckDuplicate { repo: Seq<char>, branch: Seq<char> },
    SkipDuplicate,
    StartAttempt,
    CloneRepo,
    CheckCancelled,
    CollectAllFiles { max_bytes: nat },
    CollectStructure,
    SelectFiles { structure: Seq<char> },
    CollectSelectedFiles { files: Seq<Seq<char>>, max_bytes: nat },
    FetchRepoMemory,
    GeneratePatch { codebase: Seq<char>, context: Seq<char> },
    ApplyPatch { patch: Seq<char> },
    RetryPatch { previous: Seq<char>, failure: Seq<char> },
    ReviewPatch { patch: Seq<char>, explanation: Seq<char> },
    RecordRejection { confidence: i32, feedback: Seq<char>, patch: Seq<char> },
    RunTests,
    ResetWorktree,
    Publish { commit_message: Seq<char>, body: Seq<char>, head: Seq<char>, draft: bool },
    Finish(RecordModel),
}

pub open spec fn strs(v: Seq<String>) -> Seq<Seq<char>> {
    v.map_values(|s: String| s@)
}

pub open spec fn opt_seq(o: Option<String>) -> Option<Seq<char>> {
    match o {
        Some(s) => Some(s@),
        None => None,
    }
}

pub open spec fn proposal_model(p: PatchProposal) -> ProposalModel {
    ProposalModel {
        patch: match p.patch {
            JsonText::Missing => JsonTextModel::Missing,
            JsonText::Text(t) => JsonTextModel::Text(t@),
            JsonText::Other => JsonTextModel::Other,
        },
        explanation: opt_seq(p.explanation),
        files_changed: strs(p.files_changed@),
        confidence: p.confidence,
    }
}

pub open spec fn record_model(r: AttemptRecord) -> RecordModel {
    RecordModel {
        outcome: r.outcome,
        reason: opt_seq(r.reason),
        error: opt_seq(r.error),
        patch_diff: opt_seq(r.patch_diff),
        confidence: r.confidence,
        pr_number: match r.pr {
            Some(p) => Some(p.number),
            None => None,
        },
        pr_url: match r.pr {
            Some(p) => opt_seq(p.url),
            None => None,
        },
        draft: r.draft,
    }
}

pub open spec fn action_model(a: FixAction) -> ActionModel {
    match a {
        FixAction::Abandon => ActionModel::Abandon,
        FixAction::CheckDuplicate { repo, branch } => ActionModel::CheckDuplicate {
            repo: repo@,
            branch: branch@,
        },
        FixAction::SkipDuplicate => ActionModel::SkipDuplicate,
        FixAction::StartAttempt => ActionModel::StartAttempt,
        FixAction::CloneRepo => ActionModel::CloneRepo,
        FixAction::CheckCancelled => ActionModel::CheckCancelled,
        FixAction::CollectAllFiles { max_bytes } => ActionModel::CollectAllFiles {
            max_bytes: max_bytes as nat,
        },
        FixAction::CollectStructure => ActionModel::CollectStructure,
        FixAction::SelectFiles { structure } => ActionModel::SelectFiles { structure: structure@ },
        FixAction::CollectSelectedFiles { files, max_bytes } => ActionModel::CollectSelectedFiles {
            files: strs(files@),
            max_bytes: max_bytes as nat,
        },
        FixAction::FetchRepoMemory(_) => ActionModel::FetchRepoMemory,
        FixAction::GeneratePatch { codebase, context } => ActionModel::GeneratePatch {
            codebase: codebase@,
            context: context@,
        },
        FixAction::ApplyPatch { patch } => ActionModel::ApplyPatch { patch: patch@ },
        FixAction::RetryPatch { previous, failure } => ActionModel::RetryPatch {
            previous: previous@,
            failure: failure@,
        },
        FixAction::ReviewPatch { patch, explanation } => ActionModel::ReviewPatch {
            patch: patch@,
            explanation: explanation@,
        },
        FixAction::RecordRejection { candidate, confidence, feedback, patch } =>
            ActionModel::RecordRejection { confidence, feedback: feedback@, patch: patch@ },
        FixAction::RunTests => ActionModel::RunTests,
        FixAction::ResetWorktree => ActionModel::ResetWorktree,
        FixAction::Publish { commit_message, body, head, draft } => ActionModel::Publish {
            commit_message: commit_message@,
            body: body@,
            head: head@,
            draft,
        },
        FixAction::Finish(r) => ActionModel::Finish(record_model(r)),
    }
}

/// The text of a patch field; empty unless it is a string.
pub open spec fn patch_text(p: ProposalModel) -> Seq<char> {
    match p.patch {
        JsonTextModel::Text(s) => s,
        _ => Seq::empty(),
    }
}

/// A generation proposes a patch when its patch field is a non-blank string.
pub open spec fn proposes_patch(p: ProposalModel) -> bool {
    match p.patch {
        JsonTextModel::Text(s) => trim(s).len() > 0,
        _ => false,
    }
}

pub open spec fn patch_is_null(p: ProposalModel) -> bool {
    p.patch is Missing
}

pub open spec fn opt_i64_or(o: Option<i64>, d: i64) -> i64 {
    match o {
        Some(v) => v,
        None => d,
    }
}

/// The confidence that a generation states, 50 when it states none,
/// truncated to 32 bits.
pub open spec fn stated_confidence(o: Option<i64>) -> i32 {
    opt_i64_or(o, 50) as i32
}

pub open spec fn heal_failure_spec(error: Seq<char>, ctx: Seq<char>) -> Seq<char> {
    "git apply error:\n"@ + error + "\n\n"@ + ctx
}

pub open spec fn test_failure_spec(output: Seq<char>, ctx: Seq<char>) -> Seq<char> {
    "Test failure:\n"@ + output + "\n\n"@ + ctx
}

pub open spec fn smith_note_spec(feedback: Seq<char>, conf: i32) -> Seq<char> {
    "\n\n### Smith Review\n"@ + feedback + " (confidence: "@ + int_decimal(conf as int) + "%)"@
}

pub open spec fn rejection_reason_spec(conf: i32) -> Seq<char> {
    "confidence_"@ + int_decimal(conf as int)
}

/// Smith rejects a patch when its confidence is below the required minimum
/// (`MIN_REVIEW_CONFIDENCE`), whatever it says of approval.
pub open spec fn smith_rejects(v: SmithVerdict, min_conf: i32) -> bool {
    stated_confidence(v.confidence) < min_conf
}

pub open spec fn skipped_record(reason: Seq<char>, patch: Option<Seq<char>>, conf: i32) -> RecordModel {
    RecordModel {
        outcome: AttemptOutcome::Skipped,
        reason: Some(reason),
        error: None,
        patch_diff: patch,
        confidence: conf,
        pr_number: None,
        pr_url: None,
        draft: false,
    }
}

pub open spec fn error_record(error: Seq<char>, conf: i32) -> RecordModel {
    RecordModel {
        outcome: AttemptOutcome::Error,
        reason: None,
        error: Some(error),
        patch_diff: None,
        confidence: conf,
        pr_number: None,
        pr_url: None,
        draft: false,
    }
}

pub open spec fn finish(m: FixModel, r: RecordModel) -> (FixModel, ActionModel) {
    (FixModel { phase: FixPhase::Finished, ..m }, ActionModel::Finish(r))
}

/// The outside action that each phase waits on is answered by one kind of
/// event.
pub open spec fn accepts(phase: FixPhase, e: FixEvent) -> bool {
    match phase {
        FixPhase::AwaitAttemptStart | FixPhase::AwaitRejectionRecorded | FixPhase::AwaitReset =>
            e is Done,
        FixPhase::AwaitClaimCancel => e is Cancelled,
        FixPhase::AwaitDuplicateCheck => e is DuplicateFound,
        FixPhase::AwaitClone => e is Cloned,
        FixPhase::AwaitCancelAfterClone | FixPhase::AwaitCancelBeforeSelection
        | FixPhase::AwaitCancelBeforePatch | FixPhase::AwaitCancelBeforeHeal
        | FixPhase::AwaitCancelBeforeReview | FixPhase::AwaitCancelBeforeTests
        | FixPhase::AwaitCancelBeforeRetry | FixPhase::AwaitCancelBeforePublish => e is Cancelled,
        FixPhase::AwaitStructure | FixPhase::AwaitCode => e is Collected,
        FixPhase::AwaitSelection => e is FilesSelected,
        FixPhase::AwaitMemory => e is RepoMemory,
        FixPhase::AwaitPatch | FixPhase::AwaitHeal | FixPhase::AwaitRetryPatch => e is Patch,
        FixPhase::AwaitApply | FixPhase::AwaitHealApply | FixPhase::AwaitRetryApply => e is Applied,
        FixPhase::AwaitReview => e is Reviewed,
        FixPhase::AwaitTests | FixPhase::AwaitRetryTests => e is Tested,
        FixPhase::AwaitPublish => e is Published,
        FixPhase::Finished => false,
    }
}

impl FixRun {
    pub open spec fn model(&self) -> FixModel {
        FixModel {
            phase: self.phase,
            issue_ctx: self.issue_ctx@,
            selected: strs(self.selected_files@),
            codebase: self.codebase@,
            enriched: self.enriched_ctx@,
            result: proposal_model(self.result),
            candidate: proposal_model(self.candidate),
            confidence: self.confidence,
            final_patch: self.final_patch@,
            smith_note: self.smith_note@,
            rejection_confidence: self.rejection_confidence,
            structure: self.structure@,
            heal_failure: self.heal_failure@,
            test: self.test,
            retries_done: self.retries_done as nat,
        }
    }

    /// Within the test-retry loop, fewer than `retry_count` retries were made.
    pub open spec fn wf(&self) -> bool {
        (self.phase == FixPhase::AwaitReset || self.phase == FixPhase::AwaitCancelBeforeRetry
            || self.phase == FixPhase::AwaitRetryPatch || self.phase == FixPhase::AwaitRetryApply
            || self.phase == FixPhase::AwaitRetryTests) ==> self.retries_done < self.retry_count
    }

    /// The parts of a run that stay as they were built.
    pub open spec fn same_setting(&self, other: &FixRun) -> bool {
        &&& self.retry_count == other.retry_count
        &&& self.min_conf == other.min_conf
        &&& self.run_id == other.run_id
        &&& self.issue == other.issue
        &&& self.scope == other.scope
        &&& self.agents == other.agents
        &&& self.bot_user == other.bot_user
    }
}

/// The state after the accepted patch is in place: its text is the final
/// patch, and Smith reviews it when there is a Smith, else testing begins.
pub open spec fn after_apply(s: FixRun, m: FixModel, accepted: ProposalModel) -> (FixModel, ActionModel) {
    let m2 = FixModel {
        result: accepted,
        final_patch: patch_text(accepted),
        smith_note: Seq::empty(),
        ..m
    };
    if s.agents.smith is Some {
        (FixModel { phase: FixPhase::AwaitCancelBeforeReview, ..m2 }, ActionModel::CheckCancelled)
    } else {
        (FixModel { phase: FixPhase::AwaitCancelBeforeTests, ..m2 }, ActionModel::CheckCancelled)
    }
}

/// The head of the test-retry loop before iteration `k`: another patch is
/// tried while the tests fail and fewer than `retry_count` retries were made.
pub open spec fn retry_head(s: FixRun, m: FixModel, k: nat) -> (FixModel, ActionModel) {
    if k < s.retry_count && !m.test.passed {
        (FixModel { phase: FixPhase::AwaitReset, retries_done: k, ..m }, ActionModel::ResetWorktree)
    } else {
        (
            FixModel { phase: FixPhase::AwaitCancelBeforePublish, retries_done: k, ..m },
            ActionModel::CheckCancelled,
        )
    }
}

pub open spec fn name_or_none(a: Option<AgentConfig>) -> Seq<char> {
    match a {
        Some(x) => x.name@,
        None => "none"@,
    }
}

/// The body of the pull request of run `s` in state `m`.
pub open spec fn run_pr_body(s: FixRun, m: FixModel) -> Seq<char> {
    pr_body_text(
        s.scope.issue_num as int,
        opt_or(opt_seq(s.issue.title), Seq::empty()),
        opt_or(m.result.explanation, Seq::empty()),
        m.confidence as int,
        m.result.files_changed,
        opt_i64_or(s.issue.fixability_score, 50) as int,
        opt_or(opt_seq(s.issue.fixability_reason), Seq::empty()),
        m.smith_note,
        m.test.passed,
        name_or_none(s.agents.judge),
        s.agents.reaper.name@,
        name_or_none(s.agents.smith),
        s.agents.gatekeeper.name@,
    )
}

/// The next state and action of a run `s` that receives `e`.
pub open spec fn fix_next(s: FixRun, e: FixEvent) -> (FixModel, ActionModel) {
    let m = s.model();
    let cancel_skip = skipped_record("cancelled"@, None, 0);
    let late_cancel = skipped_record("cancelled"@, Some(m.final_patch), m.confidence);
    match s.phase {
        FixPhase::AwaitClaimCancel => match e {
            FixEvent::Cancelled(true) => (FixModel { phase: FixPhase::Finished, ..m }, ActionModel::Abandon),
            _ => (
                FixModel { phase: FixPhase::AwaitDuplicateCheck, ..m },
                ActionModel::CheckDuplicate { repo: s.scope.repo@, branch: s.scope.branch@ },
            ),
        },
        FixPhase::AwaitDuplicateCheck => match e {
            FixEvent::DuplicateFound(true) => (
                FixModel { phase: FixPhase::Finished, ..m },
                ActionModel::SkipDuplicate,
            ),
            _ => (FixModel { phase: FixPhase::AwaitAttemptStart, ..m }, ActionModel::StartAttempt),
        },
        FixPhase::AwaitAttemptStart => (
            FixModel { phase: FixPhase::AwaitClone, ..m },
            ActionModel::CloneRepo,
        ),
        FixPhase::AwaitClone => match e {
            FixEvent::Cloned(Ok(ctx)) => (
                FixModel { phase: FixPhase::AwaitCancelAfterClone, issue_ctx: ctx@, ..m },
                ActionModel::CheckCancelled,
            ),
            FixEvent::Cloned(Err(err)) => finish(m, error_record(err@, 0)),
            _ => (m, ActionModel::CheckCancelled),
        },
        FixPhase::AwaitCancelAfterClone => match e {
            FixEvent::Cancelled(true) => finish(m, cancel_skip),
            _ => if s.agents.judge is Some {
                (FixModel { phase: FixPhase::AwaitStructure, ..m }, ActionModel::CollectStructure)
            } else {
                (
                    FixModel { phase: FixPhase::AwaitCode, selected: Seq::empty(), ..m },
                    ActionModel::CollectAllFiles { max_bytes: 60_000 },
                )
            },
        },
        FixPhase::AwaitStructure => match e {
            FixEvent::Collected(structure) => (
                FixModel { phase: FixPhase::AwaitCancelBeforeSelection, structure: structure@, ..m },
                ActionModel::CheckCancelled,
            ),
            _ => (m, ActionModel::CheckCancelled),
        },
        FixPhase::AwaitCancelBeforeSelection => match e {
            FixEvent::Cancelled(true) => finish(m, cancel_skip),
            _ => (
                FixModel { phase: FixPhase::AwaitSelection, ..m },
                ActionModel::SelectFiles { structure: m.structure },
            ),
        },
        FixPhase::AwaitSelection => match e {
            FixEvent::FilesSelected(Ok(files)) => if files@.len() > 0 {
                (
                    FixModel { phase: FixPhase::AwaitCode, selected: strs(files@), ..m },
                    ActionModel::CollectSelectedFiles { files: strs(files@), max_bytes: 80_000 },
                )
            } else {
                (
                    FixModel { phase: FixPhase::AwaitCode, selected: Seq::empty(), ..m },
                    ActionModel::CollectAllFiles { max_bytes: 60_000 },
                )
            },
            _ => (
                FixModel { phase: FixPhase::AwaitCode, selected: Seq::empty(), ..m },
                ActionModel::CollectAllFiles { max_bytes: 60_000 },
            ),
        },
        FixPhase::AwaitCode => match e {
            FixEvent::Collected(code) => (
                FixModel { phase: FixPhase::AwaitMemory, codebase: code@, ..m },
                ActionModel::FetchRepoMemory,
            ),
            _ => (m, ActionModel::CheckCancelled),
        },
        FixPhase::AwaitMemory => match e {
            FixEvent::RepoMemory(r) => {
                let ctx = match r {
                    Ok(c) => c,
                    Err(_) => None,
                };
                (
                    FixModel {
                        phase: FixPhase::AwaitCancelBeforePatch,
                        enriched: enriched_context_spec(m.issue_ctx, repo_memory_block(ctx)),
                        ..m
                    },
                    ActionModel::CheckCancelled,
                )
            },
            _ => (m, ActionModel::CheckCancelled),
        },
        FixPhase::AwaitCancelBeforePatch => match e {
            FixEvent::Cancelled(true) => finish(m, cancel_skip),
            _ => (
                FixModel { phase: FixPhase::AwaitPatch, ..m },
                ActionModel::GeneratePatch { codebase: m.codebase, context: m.enriched },
            ),
        },
        FixPhase::AwaitPatch => match e {
            FixEvent::Patch(Ok(p)) => if proposes_patch(proposal_model(p)) {
                (
                    FixModel {
                        phase: FixPhase::AwaitApply,
                        result: proposal_model(p),
                        confidence: stated_confidence(p.confidence),
                        ..m
                    },
                    ActionModel::ApplyPatch { patch: patch_text(proposal_model(p)) },
                )
            } else {
                finish(m, skipped_record("no_patch"@, None, 0))
            },
            _ => finish(m, skipped_record("patch_error"@, None, 0)),
        },
        FixPhase::AwaitApply => match e {
            FixEvent::Applied { ok, error } => if ok {
                after_apply(s, m, m.result)
            } else {
                (
                    FixModel {
                        phase: FixPhase::AwaitCancelBeforeHeal,
                        heal_failure: heal_failure_spec(error@, m.enriched),
                        ..m
                    },
                    ActionModel::CheckCancelled,
                )
            },
            _ => (m, ActionModel::CheckCancelled),
        },
        FixPhase::AwaitCancelBeforeHeal => match e {
            FixEvent::Cancelled(true) => finish(m, cancel_skip),
            _ => (
                FixModel { phase: FixPhase::AwaitHeal, ..m },
                ActionModel::RetryPatch { previous: patch_text(m.result), failure: m.heal_failure },
            ),
        },
        FixPhase::AwaitHeal => match e {
            FixEvent::Patch(Ok(p)) => if !patch_is_null(proposal_model(p)) {
                (
                    FixModel { phase: FixPhase::AwaitHealApply, candidate: proposal_model(p), ..m },
                    ActionModel::ApplyPatch { patch: patch_text(proposal_model(p)) },
                )
            } else {
                finish(m, skipped_record("apply_failed"@, None, 0))
            },
            _ => finish(m, skipped_record("apply_failed"@, None, 0)),
        },
        FixPhase::AwaitHealApply => match e {
            FixEvent::Applied { ok, error } => if ok {
                after_apply(s, m, m.candidate)
            } else {
                finish(m, skipped_record("apply_failed"@, None, 0))
            },
            _ => (m, ActionModel::CheckCancelled),
        },
        FixPhase::AwaitCancelBeforeReview => match e {
            FixEvent::Cancelled(true) => finish(m, late_cancel),
            _ => (
                FixModel { phase: FixPhase::AwaitReview, ..m },
                ActionModel::ReviewPatch {
                    patch: m.final_patch,
                    explanation: opt_or(m.result.explanation, Seq::empty()),
                },
            ),
        },
        FixPhase::AwaitReview => match e {
            FixEvent::Reviewed(Ok(v)) => {
                let sconf = stated_confidence(v.confidence);
                let feedback = opt_or(opt_seq(v.feedback), Seq::empty());
                let patch = match v.improved_patch {
                    Some(ip) => if ip@.len() > 0 {
                        ip@
                    } else {
                        m.final_patch
                    },
                    None => m.final_patch,
                };
                let m2 = FixModel {
                    final_patch: patch,
                    smith_note: smith_note_spec(feedback, sconf),
                    ..m
                };
                if smith_rejects(v, s.min_conf) {
                    (
                        FixModel {
                            phase: FixPhase::AwaitRejectionRecorded,
                            rejection_confidence: sconf,
                            ..m2
                        },
                        ActionModel::RecordRejection { confidence: sconf, feedback, patch },
                    )
                } else {
                    (
                        FixModel { phase: FixPhase::AwaitCancelBeforeTests, ..m2 },
                        ActionModel::CheckCancelled,
                    )
                }
            },
            _ => (
                FixModel { phase: FixPhase::AwaitCancelBeforeTests, ..m },
                ActionModel::CheckCancelled,
            ),
        },
        FixPhase::AwaitRejectionRecorded => finish(
            m,
            RecordModel {
                outcome: AttemptOutcome::Rejected,
                reason: Some(rejection_reason_spec(m.rejection_confidence)),
                error: None,
                patch_diff: Some(m.final_patch),
                confidence: m.rejection_confidence,
                pr_number: None,
                pr_url: None,
                draft: false,
            },
        ),
        FixPhase::AwaitCancelBeforeTests => match e {
            FixEvent::Cancelled(true) => finish(m, late_cancel),
            _ => (FixModel { phase: FixPhase::AwaitTests, ..m }, ActionModel::RunTests),
        },
        FixPhase::AwaitTests => match e {
            FixEvent::Tested(t) => retry_head(s, FixModel { test: t, ..m }, 0),
            _ => (m, ActionModel::CheckCancelled),
        },
        FixPhase::AwaitReset => (
            FixModel { phase: FixPhase::AwaitCancelBeforeRetry, ..m },
            ActionModel::CheckCancelled,
        ),
        FixPhase::AwaitCancelBeforeRetry => match e {
            FixEvent::Cancelled(true) => finish(m, late_cancel),
            _ => (
                FixModel { phase: FixPhase::AwaitRetryPatch, ..m },
                ActionModel::RetryPatch {
                    previous: m.final_patch,
                    failure: test_failure_spec(m.test.output@, m.enriched),
                },
            ),
        },
        FixPhase::AwaitRetryPatch => match e {
            FixEvent::Patch(Ok(p)) => if !patch_is_null(proposal_model(p)) {
                (
                    FixModel { phase: FixPhase::AwaitRetryApply, candidate: proposal_model(p), ..m },
                    ActionModel::ApplyPatch { patch: patch_text(proposal_model(p)) },
                )
            } else {
                retry_head(s, m, m.retries_done + 1)
            },
            _ => retry_head(s, m, m.retries_done + 1),
        },
        FixPhase::AwaitRetryApply => match e {
            FixEvent::Applied { ok, error } => if ok {
                (
                    FixModel {
                        phase: FixPhase::AwaitRetryTests,
                        result: m.candidate,
                        final_patch: patch_text(m.candidate),
                        ..m
                    },
                    ActionModel::RunTests,
                )
            } else {
                retry_head(s, m, m.retries_done + 1)
            },
            _ => (m, ActionModel::CheckCancelled),
        },
        FixPhase::AwaitRetryTests => match e {
            FixEvent::Tested(t) => retry_head(s, FixModel { test: t, ..m }, m.retries_done + 1),
            _ => (m, ActionModel::CheckCancelled),
        },
        FixPhase::AwaitCancelBeforePublish => match e {
            FixEvent::Cancelled(true) => finish(m, late_cancel),
            _ => (
                FixModel { phase: FixPhase::AwaitPublish, ..m },
                ActionModel::Publish {
                    commit_message: commit_message_spec(
                        opt_or(opt_seq(s.issue.title), Seq::empty()),
                        s.scope.issue_num as int,
                    ),
                    body: run_pr_body(s, m),
                    head: pr_head_spec(s.bot_user@, s.scope.branch@),
                    draft: !m.test.passed,
                },
            ),
        },
        FixPhase::AwaitPublish => match e {
            FixEvent::Published(Ok(pr)) => finish(
                m,
                RecordModel {
                    outcome: AttemptOutcome::Fixed,
                    reason: None,
                    error: None,
                    patch_diff: Some(m.final_patch),
                    confidence: m.confidence,
                    pr_number: Some(pr.number),
                    pr_url: opt_seq(pr.url),
                    draft: !m.test.passed,
                },
            ),
            FixEvent::Published(Err(err)) => finish(m, error_record(err@, m.confidence)),
            _ => (m, ActionModel::CheckCancelled),
        },
        FixPhase::Finished => (m, ActionModel::CheckCancelled),
    }
}

// ---------------------------------------------------------------------------
// Execution
// ---------------------------------------------------------------------------

fn empty_proposal() -> (res: PatchProposal)
    ensures
        res.patch is Missing,
        res.explanation is None,
        res.files_changed@.len() == 0,
        res.confidence is None,
{
    PatchProposal {
        patch: JsonText::Missing,
        explanation: None,
        files_changed: Vec::new(),
        confidence: None,
    }
}

fn patch_text_exec(p: &PatchProposal) -> (res: String)
    ensures
        res@ == patch_text(proposal_model(*p)),
{
    match &p.patch {
        JsonText::Text(t) => t.clone(),
        _ => String::new(),
    }
}

fn stated_confidence_exec(o: Option<i64>) -> (res: i32)
    ensures
        res == stated_confidence(o),
{
    let v: i64 = match o {
        Some(v) => v,
        None => 50,
    };
    v as i32
}

fn opt_or_empty(o: &Option<String>) -> (res: String)
    ensures
        res@ == opt_or(opt_seq(*o), Seq::empty()),
{
    match o {
        Some(t) => t.clone(),
        None => String::new(),
    }
}

fn opt_as_str<'a>(o: &'a Option<String>) -> (res: Option<&'a str>)
    ensures
        match res {
            Some(r) => (*o matches Some(t) && r@ == t@),
            None => o is None,
        },
{
    match o {
        Some(t) => Some(t.as_str()),
        None => None,
    }
}

fn agent_name<'a>(a: &'a Option<AgentConfig>) -> (res: Option<&'a str>)
    ensures
        opt_or(
            match res {
                Some(r) => Some(r@),
                None => None,
            },
            "none"@,
        ) == name_or_none(*a),
{
    match a {
        Some(x) => Some(x.name.as_str()),
        None => None,
    }
}

fn skipped(reason: &str, patch: Option<String>, confidence: i32) -> (res: FixAction)
    ensures
        action_model(res) == ActionModel::Finish(
            skipped_record(reason@, opt_seq(patch), confidence),
        ),
{
    FixAction::Finish(
        AttemptRecord {
            outcome: AttemptOutcome::Skipped,
            reason: Some(reason.to_owned()),
            error: None,
            patch_diff: patch,
            confidence,
            pr: None,
            draft: false,
        },
    )
}

pub open spec fn step_post(old: FixRun, new: FixRun, e: FixEvent, res: FixAction) -> bool {
    &&& new.wf()
    &&& new.same_setting(&old)
    &&& new.model() == fix_next(old, e).0
    &&& action_model(res) == fix_next(old, e).1
    &&& (res matches FixAction::RecordRejection { candidate, confidence, feedback, patch }
        ==> rejection_candidate_matches(
        candidate,
        opt_seq(old.issue.title),
        opt_seq(old.issue.url),
        old.scope.repo@,
        old.scope.issue_num as int,
        strs(old.selected_files@),
        patch@,
        feedback@,
        confidence as int,
        old.min_conf as int,
        old.run_id@,
    ))
    &&& (res matches FixAction::FetchRepoMemory(req) ==> memory_request_matches(
        req,
        old.issue.repo@,
        old.issue.number as int,
        opt_or(opt_seq(old.issue.title), Seq::empty()),
        strs(old.selected_files@),
        old.issue_ctx@,
    ))
}

impl FixRun {
    /// A run about to claim its issue; it first checks for cancellation, then
    /// for an existing branch or pull request, and only then starts the
    /// attempt.
    pub fn start(
        retry_count: usize,
        min_conf: i32,
        run_id: String,
        issue: IssueFacts,
        scope: IssueScope,
        agents: FixAgents,
        bot_user: String,
    ) -> (res: (FixRun, FixAction))
        ensures
            res.0.phase == FixPhase::AwaitClaimCancel,
            res.0.retry_count == retry_count,
            res.0.min_conf == min_conf,
            res.0.run_id == run_id,
            res.0.issue == issue,
            res.0.scope == scope,
            res.0.agents == agents,
            res.0.bot_user == bot_user,
            res.0.retries_done == 0,
            res.0.wf(),
            res.1 is CheckCancelled,
    {
        let run = FixRun {
            phase: FixPhase::AwaitClaimCancel,
            retry_count,
            min_conf,
            run_id,
            issue,
            scope,
            agents,
            bot_user,
            issue_ctx: String::new(),
            selected_files: Vec::new(),
            codebase: String::new(),
            enriched_ctx: String::new(),
            result: empty_proposal(),
            candidate: empty_proposal(),
            confidence: 0,
            final_patch: String::new(),
            smith_note: String::new(),
            rejection_confidence: 0,
            structure: String::new(),
            heal_failure: String::new(),
            test: TestResult { passed: false, output: String::new(), runner: String::new() },
            retries_done: 0,
        };
        (run, FixAction::CheckCancelled)
    }

    /// Whether `event` answers the action this run waits on.
    pub fn accepts_event(&self, event: &FixEvent) -> (res: bool)
        ensures
            res == accepts(self.phase, *event),
    {
        match self.phase {
            FixPhase::AwaitAttemptStart | FixPhase::AwaitRejectionRecorded
            | FixPhase::AwaitReset => matches!(event, FixEvent::Done),
            FixPhase::AwaitClaimCancel => matches!(event, FixEvent::Cancelled(_)),
            FixPhase::AwaitDuplicateCheck => matches!(event, FixEvent::DuplicateFound(_)),
            FixPhase::AwaitClone => matches!(event, FixEvent::Cloned(_)),
            FixPhase::AwaitCancelAfterClone | FixPhase::AwaitCancelBeforeSelection
            | FixPhase::AwaitCancelBeforePatch | FixPhase::AwaitCancelBeforeHeal
            | FixPhase::AwaitCancelBeforeReview | FixPhase::AwaitCancelBeforeTests
            | FixPhase::AwaitCancelBeforeRetry | FixPhase::AwaitCancelBeforePublish => matches!(
                event,
                FixEvent::Cancelled(_)
            ),
            FixPhase::AwaitStructure | FixPhase::AwaitCode => matches!(event, FixEvent::Collected(_)),
            FixPhase::AwaitSelection => matches!(event, FixEvent::FilesSelected(_)),
            FixPhase::AwaitMemory => matches!(event, FixEvent::RepoMemory(_)),
            FixPhase::AwaitPatch | FixPhase::AwaitHeal | FixPhase::AwaitRetryPatch => matches!(
                event,
                FixEvent::Patch(_)
            ),
            FixPhase::AwaitApply | FixPhase::AwaitHealApply | FixPhase::AwaitRetryApply =>
                matches!(event, FixEvent::Applied { .. }),
            FixPhase::AwaitReview => matches!(event, FixEvent::Reviewed(_)),
            FixPhase::AwaitTests | FixPhase::AwaitRetryTests => matches!(event, FixEvent::Tested(_)),
            FixPhase::AwaitPublish => matches!(event, FixEvent::Published(_)),
            FixPhase::Finished => false,
        }
    }

    fn after_apply_exec(&mut self, accepted: PatchProposal) -> (res: FixAction)
        ensures
            final(self).same_setting(old(self)),
            final(self).candidate == old(self).candidate,
            (final(self).model(), action_model(res)) == after_apply(
                *old(self),
                old(self).model(),
                proposal_model(accepted),
            ),
    {
        self.final_patch = patch_text_exec(&accepted);
        self.result = accepted;
        self.smith_note = String::new();
        if self.agents.smith.is_some() {
            self.phase = FixPhase::AwaitCancelBeforeReview;
        } else {
            self.phase = FixPhase::AwaitCancelBeforeTests;
        }
        FixAction::CheckCancelled
    }

    fn retry_head_exec(&mut self, k: usize) -> (res: FixAction)
        ensures
            final(self).wf(),
            final(self).same_setting(old(self)),
            (final(self).model(), action_model(res)) == retry_head(
                *old(self),
                old(self).model(),
                k as nat,
            ),
    {
        self.retries_done = k;
        if k < self.retry_count && !self.test.passed {
            self.phase = FixPhase::AwaitReset;
            FixAction::ResetWorktree
        } else {
            self.phase = FixPhase::AwaitCancelBeforePublish;
            FixAction::CheckCancelled
        }
    }

    fn finish_exec(&mut self, action: FixAction) -> (res: FixAction)
        requires
            action is Finish,
        ensures
            final(self).same_setting(old(self)),
            final(self).model() == (FixModel { phase: FixPhase::Finished, ..old(self).model() }),
            res == action,
    {
        self.phase = FixPhase::Finished;
        action
    }

    /// Takes the outcome of the last action and decides the next one.
    pub fn step(&mut self, event: FixEvent) -> (res: FixAction)
        requires
            old(self).wf(),
            accepts(old(self).phase, event),
        ensures
            step_post(*old(self), *final(self), event, res),
    {
        match self.phase {
            FixPhase::AwaitClaimCancel => self.on_await_claim_cancel(event),
            FixPhase::AwaitDuplicateCheck => self.on_await_duplicate_check(event),
            FixPhase::AwaitAttemptStart => self.on_await_attempt_start(event),
            FixPhase::AwaitClone => self.on_await_clone(event),
            FixPhase::AwaitCancelAfterClone => self.on_await_cancel_after_clone(event),
            FixPhase::AwaitStructure => self.on_await_structure(event),
            FixPhase::AwaitCancelBeforeSelection => self.on_await_cancel_before_selection(event),
            FixPhase::AwaitSelection => self.on_await_selection(event),
            FixPhase::AwaitCode => self.on_await_code(event),
            FixPhase::AwaitMemory => self.on_await_memory(event),
            FixPhase::AwaitCancelBeforePatch => self.on_await_cancel_before_patch(event),
            FixPhase::AwaitPatch => self.on_await_patch(event),
            FixPhase::AwaitApply => self.on_await_apply(event),
            FixPhase::AwaitCancelBeforeHeal => self.on_await_cancel_before_heal(event),
            FixPhase::AwaitHeal => self.on_await_heal(event),
            FixPhase::AwaitHealApply => self.on_await_heal_apply(event),
            FixPhase::AwaitCancelBeforeReview => self.on_await_cancel_before_review(event),
            FixPhase::AwaitReview => self.on_await_review(event),
            FixPhase::AwaitRejectionRecorded => self.on_await_rejection_recorded(event),
            FixPhase::AwaitCancelBeforeTests => self.on_await_cancel_before_tests(event),
            FixPhase::AwaitTests => self.on_await_tests(event),
            FixPhase::AwaitReset => self.on_await_reset(event),
            FixPhase::AwaitCancelBeforeRetry => self.on_await_cancel_before_retry(event),
            FixPhase::AwaitRetryPatch => self.on_await_retry_patch(event),
            FixPhase::AwaitRetryApply => self.on_await_retry_apply(event),
            FixPhase::AwaitRetryTests => self.on_await_retry_tests(event),
            FixPhase::AwaitCancelBeforePublish => self.on_await_cancel_before_publish(event),
            FixPhase::AwaitPublish => self.on_await_publish(event),
            FixPhase::Finished => self.on_finished(event),
        }
    }

    fn on_await_claim_cancel(&mut self, event: FixEvent) -> (res: FixAction)
        requires
            old(self).wf(),
            old(self).phase == FixPhase::AwaitClaimCancel,
            accepts(old(self).phase, event),
        ensures
            step_post(*old(self), *final(self), event, res),
    {
        match event {
            FixEvent::Cancelled(true) => {
                self.phase = FixPhase::Finished;
                FixAction::Abandon
            },
            _ => {
                self.phase = FixPhase::AwaitDuplicateCheck;
                FixAction::CheckDuplicate {
                    repo: self.scope.repo.clone(),
                    branch: self.scope.branch.clone(),
                }
            },
        }
    }

    fn on_await_duplicate_check(&mut self, event: FixEvent) -> (res: FixAction)
        requires
            old(self).wf(),
            old(self).phase == FixPhase::AwaitDuplicateCheck,
            accepts(old(self).phase, event),
        ensures
            step_post(*old(self), *final(self), event, res),
    {
        match event {
            FixEvent::DuplicateFound(true) => {
                self.phase = FixPhase::Finished;
                FixAction::SkipDuplicate
            },
            _ => {
                self.phase = FixPhase::AwaitAttemptStart;
                FixAction::StartAttempt
            },
        }
    }

    fn on_await_attempt_start(&mut self, event: FixEvent) -> (res: FixAction)
        requires
            old(self).wf(),
            old(self).phase == FixPhase::AwaitAttemptStart,
            accepts(old(self).phase, event),
        ensures
            step_post(*old(self), *final(self), event, res),
    {
        proof {
            reveal_strlit("cancelled");
        }
        {
                self.phase = FixPhase::AwaitClone;
                FixAction::CloneRepo
            }
    }

    fn on_await_clone(&mut self, event: FixEvent) -> (res: FixAction)
        requires
            old(self).wf(),
            old(self).phase == FixPhase::AwaitClone,
            accepts(old(self).phase, event),
        ensures
            step_post(*old(self), *final(self), event, res),
    {
        proof {
            reveal_strlit("cancelled");
        }
        match event {
                FixEvent::Cloned(Ok(ctx)) => {
                    self.issue_ctx = ctx;
                    self.phase = FixPhase::AwaitCancelAfterClone;
                    FixAction::CheckCancelled
                },
                FixEvent::Cloned(Err(err)) => {
                    let a = FixAction::Finish(
                        AttemptRecord {
                            outcome: AttemptOutcome::Error,
                            reason: None,
                            error: Some(err),
                            patch_diff: None,
                            confidence: 0,
                            pr: None,
                            draft: false,
                        },
                    );
                    self.finish_exec(a)
                },
                _ => FixAction::CheckCancelled,
            }
    }

    fn on_await_cancel_after_clone(&mut self, event: FixEvent) -> (res: FixAction)
        requires
            old(self).wf(),
            old(self).phase == FixPhase::AwaitCancelAfterClone,
            accepts(old(self).phase, event),
        ensures
            step_post(*old(self), *final(self), event, res),
    {
        proof {
            reveal_strlit("cancelled");
        }
        match event {
                FixEvent::Cancelled(true) => {
                    let a = skipped("cancelled", None, 0);
                    self.finish_exec(a)
                },
                _ => {
                    if self.agents.judge.is_some() {
                        self.phase = FixPhase::AwaitStructure;
                        FixAction::CollectStructure
                    } else {
                        self.selected_files = Vec::new();
                        self.phase = FixPhase::AwaitCode;
                        proof {
                            assert(strs(self.selected_files@) =~= Seq::<Seq<char>>::empty());
                        }
                        FixAction::CollectAllFiles { max_bytes: ALL_FILES_BUDGET }
                    }
                },
            }
    }

    fn on_await_structure(&mut self, event: FixEvent) -> (res: FixAction)
        requires
            old(self).wf(),
            old(self).phase == FixPhase::AwaitStructure,
            accepts(old(self).phase, event),
        ensures
            step_post(*old(self), *final(self), event, res),
    {
        proof {
            reveal_strlit("cancelled");
        }
        match event {
                FixEvent::Collected(structure) => {
                    self.structure = structure;
                    self.phase = FixPhase::AwaitCancelBeforeSelection;
                    FixAction::CheckCancelled
                },
                _ => FixAction::CheckCancelled,
            }
    }

    fn on_await_cancel_before_selection(&mut self, event: FixEvent) -> (res: FixAction)
        requires
            old(self).wf(),
            old(self).phase == FixPhase::AwaitCancelBeforeSelection,
            accepts(old(self).phase, event),
        ensures
            step_post(*old(self), *final(self), event, res),
    {
        proof {
            reveal_strlit("cancelled");
        }
        match event {
            FixEvent::Cancelled(true) => {
                let a = skipped("cancelled", None, 0);
                self.finish_exec(a)
            },
            _ => {
                self.phase = FixPhase::AwaitSelection;
                FixAction::SelectFiles { structure: self.structure.clone() }
            },
        }
    }

    fn on_await_selection(&mut self, event: FixEvent) -> (res: FixAction)
        requires
            old(self).wf(),
            old(self).phase == FixPhase::AwaitSelection,
            accepts(old(self).phase, event),
        ensures
            step_post(*old(self), *final(self), event, res),
    {
        proof {
            reveal_strlit("cancelled");
        }
        match event {
                FixEvent::FilesSelected(Ok(files)) if files.len() > 0 => {
                    let copy = clone_strings(&files);
                    self.selected_files = files;
                    self.phase = FixPhase::AwaitCode;
                    FixAction::CollectSelectedFiles { files: copy, max_bytes: SELECTED_FILES_BUDGET }
                },
                _ => {
                    self.selected_files = Vec::new();
                    self.phase = FixPhase::AwaitCode;
                    proof {
                        assert(strs(self.selected_files@) =~= Seq::<Seq<char>>::empty());
                    }
                    FixAction::CollectAllFiles { max_bytes: ALL_FILES_BUDGET }
                },
            }
    }

    fn on_await_code(&mut self, event: FixEvent) -> (res: FixAction)
        requires
            old(self).wf(),
            old(self).phase == FixPhase::AwaitCode,
            accepts(old(self).phase, event),
        ensures
            step_post(*old(self), *final(self), event, res),
    {
        proof {
            reveal_strlit("cancelled");
        }
        match event {
                FixEvent::Collected(code) => {
                    self.codebase = code;
                    self.phase = FixPhase::AwaitMemory;
                    let title = opt_or_empty(&self.issue.title);
                    let req = repo_memory_request(
                        self.issue.repo.as_str(),
                        self.issue.number,
                        title.as_str(),
                        &self.selected_files,
                        self.issue_ctx.as_str(),
                    );
                    FixAction::FetchRepoMemory(req)
                },
                _ => FixAction::CheckCancelled,
            }
    }

    fn on_await_memory(&mut self, event: FixEvent) -> (res: FixAction)
        requires
            old(self).wf(),
            old(self).phase == FixPhase::AwaitMemory,
            accepts(old(self).phase, event),
        ensures
            step_post(*old(self), *final(self), event, res),
    {
        proof {
            reveal_strlit("cancelled");
        }
        match event {
                FixEvent::RepoMemory(r) => {
                    let ctx: Option<RepoMemoryContext> = match r {
                        Ok(c) => c,
                        Err(_) => None,
                    };
                    let block = build_repo_memory_block(ctx.as_ref());
                    self.enriched_ctx = enriched_context(self.issue_ctx.as_str(), block.as_str());
                    self.phase = FixPhase::AwaitCancelBeforePatch;
                    FixAction::CheckCancelled
                },
                _ => FixAction::CheckCancelled,
            }
    }

    fn on_await_cancel_before_patch(&mut self, event: FixEvent) -> (res: FixAction)
        requires
            old(self).wf(),
            old(self).phase == FixPhase::AwaitCancelBeforePatch,
            accepts(old(self).phase, event),
        ensures
            step_post(*old(self), *final(self), event, res),
    {
        proof {
            reveal_strlit("cancelled");
        }
        match event {
                FixEvent::Cancelled(true) => {
                    let a = skipped("cancelled", None, 0);
                    self.finish_exec(a)
                },
                _ => {
                    self.phase = FixPhase::AwaitPatch;
                    FixAction::GeneratePatch {
                        codebase: self.codebase.clone(),
                        context: self.enriched_ctx.clone(),
                    }
                },
            }
    }

    fn on_await_patch(&mut self, event: FixEvent) -> (res: FixAction)
        requires
            old(self).wf(),
            old(self).phase == FixPhase::AwaitPatch,
            accepts(old(self).phase, event),
        ensures
            step_post(*old(self), *final(self), event, res),
    {
        proof {
            reveal_strlit("cancelled");
        }
        match event {
                FixEvent::Patch(Ok(p)) => {
                    let proposes = match &p.patch {
                        JsonText::Text(t) => !is_blank(t.as_str()),
                        _ => false,
                    };
                    if proposes {
                        let patch = patch_text_exec(&p);
                        self.confidence = stated_confidence_exec(p.confidence);
                        self.result = p;
                        self.phase = FixPhase::AwaitApply;
                        FixAction::ApplyPatch { patch }
                    } else {
                        proof {
                            reveal_strlit("no_patch");
                        }
                        let a = skipped("no_patch", None, 0);
                        self.finish_exec(a)
                    }
                },
                _ => {
                    let a = skipped("patch_error", None, 0);
                    self.finish_exec(a)
                },
            }
    }

    fn on_await_apply(&mut self, event: FixEvent) -> (res: FixAction)
        requires
            old(self).wf(),
            old(self).phase == FixPhase::AwaitApply,
            accepts(old(self).phase, event),
        ensures
            step_post(*old(self), *final(self), event, res),
    {
        proof {
            reveal_strlit("cancelled");
        }
        match event {
                FixEvent::Applied { ok, error } => {
                    if ok {
                        let accepted = self.result.clone_proposal();
                        self.after_apply_exec(accepted)
                    } else {
                        let mut f: Vec<char> = Vec::new();
                        push_str(&mut f, "git apply error:\n");
                        push_str(&mut f, error.as_str());
                        push_str(&mut f, "\n\n");
                        push_str(&mut f, self.enriched_ctx.as_str());
                        self.heal_failure = string_from_chars(&f);
                        self.phase = FixPhase::AwaitCancelBeforeHeal;
                        FixAction::CheckCancelled
                    }
                },
                _ => FixAction::CheckCancelled,
            }
    }

    fn on_await_cancel_before_heal(&mut self, event: FixEvent) -> (res: FixAction)
        requires
            old(self).wf(),
            old(self).phase == FixPhase::AwaitCancelBeforeHeal,
            accepts(old(self).phase, event),
        ensures
            step_post(*old(self), *final(self), event, res),
    {
        proof {
            reveal_strlit("cancelled");
        }
        match event {
            FixEvent::Cancelled(true) => {
                let a = skipped("cancelled", None, 0);
                self.finish_exec(a)
            },
            _ => {
                let previous = patch_text_exec(&self.result);
                self.phase = FixPhase::AwaitHeal;
                FixAction::RetryPatch { previous, failure: self.heal_failure.clone() }
            },
        }
    }

    fn on_await_heal(&mut self, event: FixEvent) -> (res: FixAction)
        requires
            old(self).wf(),
            old(self).phase == FixPhase::AwaitHeal,
            accepts(old(self).phase, event),
        ensures
            step_post(*old(self), *final(self), event, res),
    {
        proof {
            reveal_strlit("cancelled");
        }
        match event {
                FixEvent::Patch(Ok(p)) if !matches!(p.patch, JsonText::Missing) => {
                    let patch = patch_text_exec(&p);
                    self.candidate = p;
                    self.phase = FixPhase::AwaitHealApply;
                    FixAction::ApplyPatch { patch }
                },
                _ => {
                    let a = skipped("apply_failed", None, 0);
                    self.finish_exec(a)
                },
            }
    }

    fn on_await_heal_apply(&mut self, event: FixEvent) -> (res: FixAction)
        requires
            old(self).wf(),
            old(self).phase == FixPhase::AwaitHealApply,
            accepts(old(self).phase, event),
        ensures
            step_post(*old(self), *final(self), event, res),
    {
        proof {
            reveal_strlit("cancelled");
        }
        match event {
                FixEvent::Applied { ok, error } => {
                    if ok {
                        let accepted = self.candidate.clone_proposal();
                        self.after_apply_exec(accepted)
                    } else {
                        let a = skipped("apply_failed", None, 0);
                        self.finish_exec(a)
                    }
                },
                _ => FixAction::CheckCancelled,
            }
    }

    fn on_await_cancel_before_review(&mut self, event: FixEvent) -> (res: FixAction)
        requires
            old(self).wf(),
            old(self).phase == FixPhase::AwaitCancelBeforeReview,
            accepts(old(self).phase, event),
        ensures
            step_post(*old(self), *final(self), event, res),
    {
        proof {
            reveal_strlit("cancelled");
        }
        match event {
                FixEvent::Cancelled(true) => {
                    let a = skipped("cancelled", Some(self.final_patch.clone()), self.confidence);
                    self.finish_exec(a)
                },
                _ => {
                    self.phase = FixPhase::AwaitReview;
                    FixAction::ReviewPatch {
                        patch: self.final_patch.clone(),
                        explanation: opt_or_empty(&self.result.explanation),
                    }
                },
            }
    }

    fn on_await_review(&mut self, event: FixEvent) -> (res: FixAction)
        requires
            old(self).wf(),
            old(self).phase == FixPhase::AwaitReview,
            accepts(old(self).phase, event),
        ensures
            step_post(*old(self), *final(self), event, res),
    {
        proof {
            reveal_strlit("cancelled");
        }
        match event {
                FixEvent::Reviewed(Ok(v)) => {
                    let sconf = stated_confidence_exec(v.confidence);
                    let feedback = opt_or_empty(&v.feedback);
                    match &v.improved_patch {
                        Some(ip) => {
                            if !ip.as_str().is_empty() {
                                self.final_patch = ip.clone();
                            }
                        },
                        None => {},
                    }
                    let mut note: Vec<char> = Vec::new();
                    push_str(&mut note, "\n\n### Smith Review\n");
                    push_str(&mut note, feedback.as_str());
                    push_str(&mut note, " (confidence: ");
                    push_decimal(&mut note, sconf as i64);
                    push_str(&mut note, "%)");
                    self.smith_note = string_from_chars(&note);
                    if sconf < self.min_conf {
                        let candidate = build_smith_rejection_candidate(
                            opt_as_str(&self.issue.title),
                            opt_as_str(&self.issue.url),
                            &self.scope,
                            self.selected_files.as_slice(),
                            self.final_patch.as_str(),
                            feedback.as_str(),
                            sconf,
                            self.min_conf,
                            self.run_id.as_str(),
                        );
                        self.rejection_confidence = sconf;
                        self.phase = FixPhase::AwaitRejectionRecorded;
                        FixAction::RecordRejection {
                            candidate,
                            confidence: sconf,
                            feedback,
                            patch: self.final_patch.clone(),
                        }
                    } else {
                        self.phase = FixPhase::AwaitCancelBeforeTests;
                        FixAction::CheckCancelled
                    }
                },
                _ => {
                    self.phase = FixPhase::AwaitCancelBeforeTests;
                    FixAction::CheckCancelled
                },
            }
    }

    fn on_await_rejection_recorded(&mut self, event: FixEvent) -> (res: FixAction)
        requires
            old(self).wf(),
            old(self).phase == FixPhase::AwaitRejectionRecorded,
            accepts(old(self).phase, event),
        ensures
            step_post(*old(self), *final(self), event, res),
    {
        proof {
            reveal_strlit("cancelled");
        }
        {
                let mut reason: Vec<char> = Vec::new();
                push_str(&mut reason, "confidence_");
                push_decimal(&mut reason, self.rejection_confidence as i64);
                let a = FixAction::Finish(
                    AttemptRecord {
                        outcome: AttemptOutcome::Rejected,
                        reason: Some(string_from_chars(&reason)),
                        error: None,
                        patch_diff: Some(self.final_patch.clone()),
                        confidence: self.rejection_confidence,
                        pr: None,
                        draft: false,
                    },
                );
                self.finish_exec(a)
            }
    }

    fn on_await_cancel_before_tests(&mut self, event: FixEvent) -> (res: FixAction)
        requires
            old(self).wf(),
            old(self).phase == FixPhase::AwaitCancelBeforeTests,
            accepts(old(self).phase, event),
        ensures
            step_post(*old(self), *final(self), event, res),
    {
        proof {
            reveal_strlit("cancelled");
        }
        match event {
                FixEvent::Cancelled(true) => {
                    let a = skipped("cancelled", Some(self.final_patch.clone()), self.confidence);
                    self.finish_exec(a)
                },
                _ => {
                    self.phase = FixPhase::AwaitTests;
                    FixAction::RunTests
                },
            }
    }

    fn on_await_tests(&mut self, event: FixEvent) -> (res: FixAction)
        requires
            old(self).wf(),
            old(self).phase == FixPhase::AwaitTests,
            accepts(old(self).phase, event),
        ensures
            step_post(*old(self), *final(self), event, res),
    {
        proof {
            reveal_strlit("cancelled");
        }
        match event {
                FixEvent::Tested(t) => {
                    self.test = t;
                    self.retry_head_exec(0)
                },
                _ => FixAction::CheckCancelled,
            }
    }

    fn on_await_reset(&mut self, event: FixEvent) -> (res: FixAction)
        requires
            old(self).wf(),
            old(self).phase == FixPhase::AwaitReset,
            accepts(old(self).phase, event),
        ensures
            step_post(*old(self), *final(self), event, res),
    {
        proof {
            reveal_strlit("cancelled");
        }
        self.phase = FixPhase::AwaitCancelBeforeRetry;
        FixAction::CheckCancelled
    }

    fn on_await_cancel_before_retry(&mut self, event: FixEvent) -> (res: FixAction)
        requires
            old(self).wf(),
            old(self).phase == FixPhase::AwaitCancelBeforeRetry,
            accepts(old(self).phase, event),
        ensures
            step_post(*old(self), *final(self), event, res),
    {
        proof {
            reveal_strlit("cancelled");
        }
        match event {
            FixEvent::Cancelled(true) => {
                let a = skipped("cancelled", Some(self.final_patch.clone()), self.confidence);
                self.finish_exec(a)
            },
            _ => {
                let mut f: Vec<char> = Vec::new();
                push_str(&mut f, "Test failure:\n");
                push_str(&mut f, self.test.output.as_str());
                push_str(&mut f, "\n\n");
                push_str(&mut f, self.enriched_ctx.as_str());
                self.phase = FixPhase::AwaitRetryPatch;
                FixAction::RetryPatch {
                    previous: self.final_patch.clone(),
                    failure: string_from_chars(&f),
                }
            },
        }
    }

    fn on_await_retry_patch(&mut self, event: FixEvent) -> (res: FixAction)
        requires
            old(self).wf(),
            old(self).phase == FixPhase::AwaitRetryPatch,
            accepts(old(self).phase, event),
        ensures
            step_post(*old(self), *final(self), event, res),
    {
        proof {
            reveal_strlit("cancelled");
        }
        match event {
                FixEvent::Patch(Ok(p)) if !matches!(p.patch, JsonText::Missing) => {
                    let patch = patch_text_exec(&p);
                    self.candidate = p;
                    self.phase = FixPhase::AwaitRetryApply;
                    FixAction::ApplyPatch { patch }
                },
                _ => {
                    let k = self.next_iteration();
                    self.retry_head_exec(k)
                },
            }
    }

    fn on_await_retry_apply(&mut self, event: FixEvent) -> (res: FixAction)
        requires
            old(self).wf(),
            old(self).phase == FixPhase::AwaitRetryApply,
            accepts(old(self).phase, event),
        ensures
            step_post(*old(self), *final(self), event, res),
    {
        proof {
            reveal_strlit("cancelled");
        }
        match event {
                FixEvent::Applied { ok, error } => {
                    if ok {
                        self.final_patch = patch_text_exec(&self.candidate);
                        self.result = self.candidate.clone_proposal();
                        self.phase = FixPhase::AwaitRetryTests;
                        FixAction::RunTests
                    } else {
                        let k = self.next_iteration();
                        self.retry_head_exec(k)
                    }
                },
                _ => FixAction::CheckCancelled,
            }
    }

    fn on_await_retry_tests(&mut self, event: FixEvent) -> (res: FixAction)
        requires
            old(self).wf(),
            old(self).phase == FixPhase::AwaitRetryTests,
            accepts(old(self).phase, event),
        ensures
            step_post(*old(self), *final(self), event, res),
    {
        proof {
            reveal_strlit("cancelled");
        }
        match event {
                FixEvent::Tested(t) => {
                    self.test = t;
                    let k = self.next_iteration();
                    self.retry_head_exec(k)
                },
                _ => FixAction::CheckCancelled,
            }
    }

    fn on_await_cancel_before_publish(&mut self, event: FixEvent) -> (res: FixAction)
        requires
            old(self).wf(),
            old(self).phase == FixPhase::AwaitCancelBeforePublish,
            accepts(old(self).phase, event),
        ensures
            step_post(*old(self), *final(self), event, res),
    {
        proof {
            reveal_strlit("cancelled");
        }
        match event {
                FixEvent::Cancelled(true) => {
                    let a = skipped("cancelled", Some(self.final_patch.clone()), self.confidence);
                    self.finish_exec(a)
                },
                _ => {
                    let title = opt_or_empty(&self.issue.title);
                    let msg = commit_message(title.as_str(), self.scope.issue_num);
                    let explanation = opt_or_empty(&self.result.explanation);
                    let facts = PrBodyFacts {
                        issue_num: self.scope.issue_num,
                        title: Some(title.as_str()),
                        explanation: Some(explanation.as_str()),
                        confidence: self.confidence,
                        files_changed: &self.result.files_changed,
                        fixability_score: self.issue.fixability_score,
                        fixability_reason: opt_as_str(&self.issue.fixability_reason),
                        smith_note: self.smith_note.as_str(),
                        tests_passed: self.test.passed,
                        judge: agent_name(&self.agents.judge),
                        reaper: self.agents.reaper.name.as_str(),
                        smith: agent_name(&self.agents.smith),
                        gatekeeper: self.agents.gatekeeper.name.as_str(),
                    };
                    let body = pr_body(&facts);
                    let head = pr_head(self.bot_user.as_str(), self.scope.branch.as_str());
                    let draft = !self.test.passed;
                    self.phase = FixPhase::AwaitPublish;
                    FixAction::Publish { commit_message: msg, body, head, draft }
                },
            }
    }

    fn on_await_publish(&mut self, event: FixEvent) -> (res: FixAction)
        requires
            old(self).wf(),
            old(self).phase == FixPhase::AwaitPublish,
            accepts(old(self).phase, event),
        ensures
            step_post(*old(self), *final(self), event, res),
    {
        proof {
            reveal_strlit("cancelled");
        }
        match event {
                FixEvent::Published(Ok(pr)) => {
                    let a = FixAction::Finish(
                        AttemptRecord {
                            outcome: AttemptOutcome::Fixed,
                            reason: None,
                            error: None,
                            patch_diff: Some(self.final_patch.clone()),
                            confidence: self.confidence,
                            pr: Some(pr),
                            draft: !self.test.passed,
                        },
                    );
                    self.finish_exec(a)
                },
                FixEvent::Published(Err(err)) => {
                    let a = FixAction::Finish(
                        AttemptRecord {
                            outcome: AttemptOutcome::Error,
                            reason: None,
                            error: Some(err),
                            patch_diff: None,
                            confidence: self.confidence,
                            pr: None,
                            draft: false,
                        },
                    );
                    self.finish_exec(a)
                },
                _ => FixAction::CheckCancelled,
            }
    }

    fn on_finished(&mut self, event: FixEvent) -> (res: FixAction)
        requires
            old(self).wf(),
            old(self).phase == FixPhase::Finished,
            accepts(old(self).phase, event),
        ensures
            step_post(*old(self), *final(self), event, res),
    {
        proof {
            reveal_strlit("cancelled");
        }
        FixAction::CheckCancelled
    }

    /// The number of the next retry iteration; retries never outnumber
    /// `retry_count`, so this stays within `usize`.
    fn next_iteration(&self) -> (res: usize)
        requires
            self.retries_done < self.retry_count,
        ensures
            res == self.retries_done + 1,
    {
        self.retries_done + 1
    }
}

impl PatchProposal {
    /// A field-by-field copy.
    pub fn clone_proposal(&self) -> (res: PatchProposal)
        ensures
            proposal_model(res) == proposal_model(*self),
    {
        PatchProposal {
            patch: match &self.patch {
                JsonText::Missing => JsonText::Missing,
                JsonText::Text(t) => JsonText::Text(t.clone()),
                JsonText::Other => JsonText::Other,
            },
            explanation: clone_opt(&self.explanation),
            files_changed: clone_strings(&self.files_changed),
            confidence: self.confidence,
        }
    }
}

// ---------------------------------------------------------------------------
// Laws
// ---------------------------------------------------------------------------

pub open spec fn is_cancel_check(phase: FixPhase) -> bool {
    ||| phase == FixPhase::AwaitCancelAfterClone
    ||| phase == FixPhase::AwaitCancelBeforeSelection
    ||| phase == FixPhase::AwaitCancelBeforePatch
    ||| phase == FixPhase::AwaitCancelBeforeHeal
    ||| phase == FixPhase::AwaitCancelBeforeRetry
    ||| phase == FixPhase::AwaitCancelBeforeReview
    ||| phase == FixPhase::AwaitCancelBeforeTests
    ||| phase == FixPhase::AwaitCancelBeforePublish
}

/// A cancellation seen at any check point ends the attempt, recorded as
/// skipped for reason `cancelled`.
pub proof fn cancellation_ends_attempt(s: FixRun)
    requires
        is_cancel_check(s.phase),
    ensures
        fix_next(s, FixEvent::Cancelled(true)).0.phase == FixPhase::Finished,
        fix_next(s, FixEvent::Cancelled(true)).1 matches ActionModel::Finish(r) && r.outcome
            == AttemptOutcome::Skipped && r.reason == Some("cancelled"@),
{
}

/// Smith's gate: a reviewed patch goes on to testing only when Smith's
/// confidence reaches the minimum; below it the rejection is recorded and the
/// attempt ends as rejected, with no test run and no pull request.
pub proof fn smith_gate(s: FixRun, v: SmithVerdict)
    requires
        s.phase == FixPhase::AwaitReview,
    ensures
        smith_rejects(v, s.min_conf) ==> {
            let (m, a) = fix_next(s, FixEvent::Reviewed(Ok(v)));
            &&& a is RecordRejection
            &&& m.phase == FixPhase::AwaitRejectionRecorded
            &&& m.rejection_confidence == stated_confidence(v.confidence)
        },
        !smith_rejects(v, s.min_conf) ==> {
            let (m, a) = fix_next(s, FixEvent::Reviewed(Ok(v)));
            &&& a is CheckCancelled
            &&& m.phase == FixPhase::AwaitCancelBeforeTests
        },
{
}

/// Whether an action asks for an AI generation (file targeting, a patch, a
/// retry or self-heal patch, a review) or opens a pull request.
pub open spec fn spends(a: ActionModel) -> bool {
    ||| a is SelectFiles
    ||| a is GeneratePatch
    ||| a is RetryPatch
    ||| a is ReviewPatch
    ||| a is Publish
}

/// Once a run is cancelled (as it is when its budget is spent) no attempt
/// starts new AI work or opens a pull request: each such action is asked
/// for only right after a cancellation check that found the run still going.
pub proof fn spending_follows_a_cancel_check(s: FixRun, e: FixEvent)
    requires
        accepts(s.phase, e),
        spends(fix_next(s, e).1),
    ensures
        is_cancel_check(s.phase),
        e matches FixEvent::Cancelled(c) && !c,
{
}

/// A test run decides the retry loop by its own outcome: the result just
/// received becomes the attempt's test result; a pass ends the loop and
/// heads for publication; a failure asks for another retry (after a reset)
/// while fewer than `retry_count` retries were made, and heads for
/// publication once they are spent.
pub proof fn test_outcome_decides_the_loop(s: FixRun, t: TestResult)
    requires
        s.phase == FixPhase::AwaitTests || s.phase == FixPhase::AwaitRetryTests,
    ensures
        ({
            let (m, a) = fix_next(s, FixEvent::Tested(t));
            let done: int = if s.phase == FixPhase::AwaitTests { 0 } else { s.retries_done + 1 };
            &&& m.test == t
            &&& m.retries_done == done
            &&& t.passed ==> m.phase == FixPhase::AwaitCancelBeforePublish && a is CheckCancelled
            &&& !t.passed && done < s.retry_count ==> m.phase == FixPhase::AwaitReset && a is ResetWorktree
            &&& !t.passed && done >= s.retry_count ==> m.phase == FixPhase::AwaitCancelBeforePublish
                && a is CheckCancelled
        }),
{
}

/// A pull request that follows a passing test run, first or retried, is
/// not a draft: once the run that received the pass is let through its
/// last cancellation check, it asks to publish with `draft` false.
pub proof fn passing_tests_publish_ready(s: FixRun, t: TestResult, next: FixRun)
    requires
        s.phase == FixPhase::AwaitTests || s.phase == FixPhase::AwaitRetryTests,
        t.passed,
        next.model() == fix_next(s, FixEvent::Tested(t)).0,
        next.same_setting(&s),
    ensures
        next.phase == FixPhase::AwaitCancelBeforePublish,
        fix_next(next, FixEvent::Cancelled(false)).1 matches ActionModel::Publish { draft, .. } && !draft,
{
}

/// After a rejection is recorded, the attempt ends as rejected, with the
/// reason `confidence_<n>` for Smith's confidence `n`.
pub proof fn rejection_ends_attempt(s: FixRun, e: FixEvent)
    requires
        s.phase == FixPhase::AwaitRejectionRecorded,
    ensures
        fix_next(s, e).0.phase == FixPhase::Finished,
        fix_next(s, e).1 matches ActionModel::Finish(r) && r.outcome == AttemptOutcome::Rejected
            && r.reason == Some(rejection_reason_spec(s.rejection_confidence)) && r.confidence
            == s.rejection_confidence,
{
}

/// The gates on publication: retries never exceed `retry_count`, and a pull
/// request is only prepared once the tests pass or every retry was spent.
pub open spec fn gates_hold(m: FixModel, retry_count: nat) -> bool {
    &&& m.retries_done <= retry_count
    &&& (m.phase == FixPhase::AwaitReset || m.phase == FixPhase::AwaitCancelBeforeRetry || m.phase
        == FixPhase::AwaitRetryPatch || m.phase == FixPhase::AwaitRetryApply || m.phase
        == FixPhase::AwaitRetryTests) ==> m.retries_done < retry_count
    &&& (m.phase == FixPhase::AwaitCancelBeforePublish || m.phase == FixPhase::AwaitPublish)
        ==> (m.test.passed || m.retries_done == retry_count)
}

/// A new run satisfies the gates.
pub proof fn gates_hold_at_start(s: FixRun)
    requires
        s.phase == FixPhase::AwaitClaimCancel,
        s.retries_done == 0,
    ensures
        gates_hold(s.model(), s.retry_count as nat),
{
}

/// Every step keeps the gates.
pub proof fn gates_preserved(s: FixRun, e: FixEvent)
    requires
        gates_hold(s.model(), s.retry_count as nat),
        accepts(s.phase, e),
    ensures
        gates_hold(fix_next(s, e).0, s.retry_count as nat),
{
}

/// A pull request is opened only when the gates hold, and it is a draft
/// exactly when the tests did not pass.
pub proof fn publish_is_gated(s: FixRun, e: FixEvent)
    requires
        gates_hold(s.model(), s.retry_count as nat),
        accepts(s.phase, e),
    ensures
        fix_next(s, e).1 matches ActionModel::Publish { draft, .. } ==> {
            &&& s.test.passed || s.retries_done == s.retry_count
            &&& draft == !s.test.passed
        },
{
}

/// The order in which an attempt goes through its phases; the retry loop is
/// ranked by the retries still allowed.
pub open spec fn progress(m: FixModel, retry_count: nat) -> int {
    let before_loop = (retry_count * 5) as int;
    let loop_left = (retry_count - m.retries_done) * 5;
    match m.phase {
        FixPhase::AwaitClaimCancel => before_loop + 45,
        FixPhase::AwaitDuplicateCheck => before_loop + 44,
        FixPhase::AwaitAttemptStart => before_loop + 43,
        FixPhase::AwaitClone => before_loop + 42,
        FixPhase::AwaitCancelAfterClone => before_loop + 41,
        FixPhase::AwaitStructure => before_loop + 40,
        FixPhase::AwaitCancelBeforeSelection => before_loop + 39,
        FixPhase::AwaitSelection => before_loop + 38,
        FixPhase::AwaitCode => before_loop + 37,
        FixPhase::AwaitMemory => before_loop + 36,
        FixPhase::AwaitCancelBeforePatch => before_loop + 35,
        FixPhase::AwaitPatch => before_loop + 34,
        FixPhase::AwaitApply => before_loop + 33,
        FixPhase::AwaitCancelBeforeHeal => before_loop + 32,
        FixPhase::AwaitHeal => before_loop + 31,
        FixPhase::AwaitHealApply => before_loop + 30,
        FixPhase::AwaitCancelBeforeReview => before_loop + 29,
        FixPhase::AwaitReview => before_loop + 28,
        FixPhase::AwaitRejectionRecorded => 6,
        FixPhase::AwaitCancelBeforeTests => before_loop + 27,
        FixPhase::AwaitTests => before_loop + 26,
        FixPhase::AwaitReset => loop_left + 5,
        FixPhase::AwaitCancelBeforeRetry => loop_left + 4,
        FixPhase::AwaitRetryPatch => loop_left + 3,
        FixPhase::AwaitRetryApply => loop_left + 2,
        FixPhase::AwaitRetryTests => loop_left + 1,
        FixPhase::AwaitCancelBeforePublish => 3,
        FixPhase::AwaitPublish => 2,
        FixPhase::Finished => 0,
    }
}

/// Every attempt ends: each step makes progress, which cannot go below zero.
#[verifier::spinoff_prover]
#[verifier::rlimit(50)]
pub proof fn every_step_progresses(s: FixRun, e: FixEvent)
    requires
        gates_hold(s.model(), s.retry_count as nat),
        accepts(s.phase, e),
    ensures
        0 <= progress(fix_next(s, e).0, s.retry_count as nat) < progress(
            s.model(),
            s.retry_count as nat,
        ),
{
}

/// A finished attempt asks for nothing more.
pub proof fn finished_is_final(s: FixRun, e: FixEvent)
    requires
        s.phase == FixPhase::Finished,
    ensures
        !accepts(s.phase, e),
{
}

/// A run finishes exactly when it gives its issue up before the claim or
/// records its attempt; an attempt is recorded only once it was started.
pub proof fn finish_action_ends_attempt(s: FixRun, e: FixEvent)
    requires
        accepts(s.phase, e),
    ensures
        (fix_next(s, e).1 is Finish || fix_next(s, e).1 is Abandon || fix_next(s, e).1 is SkipDuplicate)
            == (fix_next(s, e).0.phase == FixPhase::Finished),
        (fix_next(s, e).1 is Abandon || fix_next(s, e).1 is SkipDuplicate) ==> (s.phase
            == FixPhase::AwaitClaimCancel || s.phase == FixPhase::AwaitDuplicateCheck),
{
}

/// Before an issue is claimed: a cancelled run gives it up at once, an issue
/// whose branch or pull request already exists is skipped, and only an
/// issue with neither is claimed, after the duplicate check.
pub proof fn claim_gate(s: FixRun, cancel: bool, duplicate: bool)
    ensures
        s.phase == FixPhase::AwaitClaimCancel ==> {
            let (m, a) = fix_next(s, FixEvent::Cancelled(cancel));
            &&& cancel ==> m.phase == FixPhase::Finished && a is Abandon
            &&& !cancel ==> m.phase == FixPhase::AwaitDuplicateCheck && a == ActionModel::CheckDuplicate {
                repo: s.scope.repo@,
                branch: s.scope.branch@,
            }
        },
        s.phase == FixPhase::AwaitDuplicateCheck ==> {
            let (m, a) = fix_next(s, FixEvent::DuplicateFound(duplicate));
            &&& duplicate ==> m.phase == FixPhase::Finished && a is SkipDuplicate
            &&& !duplicate ==> m.phase == FixPhase::AwaitAttemptStart && a is StartAttempt
        },
{
}

} // verus!
