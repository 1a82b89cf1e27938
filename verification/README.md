# repo_reaper

RepoReaper finds GitHub issues that look fixable, asks a team of AI agents
(Scout, Judge, Reaper, Smith, Gatekeeper) to target files, write a patch,
review it and test it, and opens a pull request only when the patch clears
its gates.

## Layout

- `src/` is the library, verified with Verus. It holds every decision of the
  service as functions from plain values to plain values, with contracts:
  - `fix.rs`: one fix attempt as a state machine (`FixRun::start`,
    `FixRun::step`), with the laws on its gates (Smith's minimum confidence,
    tests before publication, bounded retries, cancellation, termination);
  - `sandbox.rs`, `workspace.rs`: whether and where untrusted tests run, the
    timeout, the code collected for the agents, path confinement;
  - `webhook.rs`: signature checks and routing of GitHub deliveries,
    schedules;
  - `llm.rs`, `agent.rs`, `prompts.rs`, `triage.rs`: provider routing, rate
    limit rests, costs, prompts, agent choice, issue ranking;
  - `settings.rs`, `startup.rs`, `hunt.rs`, `github.rs`, `memory.rs`,
    `publish.rs`, `issue.rs`, `ai_local.rs`, `text.rs`: configuration, startup
    checks, discovery, GitHub paths, RepoMemory and FailGuard, pull request
    texts, and the text model the contracts are written in.
- `app/` is the service around it: the HTTP server, SQLite, git and Docker
  processes, calls to GitHub and to AI providers. It performs the actions
  that the library decides and feeds back their outcomes.
- `tests/` runs the library on concrete values.

Calls into `serde_json`, `hex`, `hmac` and `sha2` stand behind a few trusted
wrappers, each documented where it is declared.
