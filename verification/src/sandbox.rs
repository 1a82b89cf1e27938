//! Running a repository's tests: whether they may run at all and where, which
//! test runner a repository calls for, the sandbox command line, and the
//! result reported for each way a run can end.

use vstd::prelude::*;
use crate::fix::TestResult;
use crate::text::{
    ascii_lowercase, ascii_lowercase_exec, chars_of, is_whitespace, is_ws, nat_decimal, owned,
    push_nat_decimal, push_str, str_eq, string_from_chars, trim,
};
use crate::workspace::{truthy, env_truthy};

verus! {

/// Where tests run.
#[derive(Clone, Copy, Debug, PartialEq, Eq, Structural)]
pub enum TestSandbox {
    Docker,
    Host,
}

pub open spec fn sandbox_name(s: TestSandbox) -> Seq<char> {
    match s {
        TestSandbox::Docker => "docker"@,
        TestSandbox::Host => "host"@,
    }
}

pub fn sandbox_name_exec(s: TestSandbox) -> (res: &'static str)
    ensures
        res@ == sandbox_name(s),
{
    match s {
        TestSandbox::Docker => "docker",
        TestSandbox::Host => "host",
    }
}

pub open spec fn tr(passed: bool, output: Seq<char>, runner: Seq<char>) -> (bool, Seq<char>, Seq<
    char,
>) {
    (passed, output, runner)
}

pub open spec fn view_result(r: TestResult) -> (bool, Seq<char>, Seq<char>) {
    (r.passed, r.output@, r.runner@)
}

/// Why tests do not run, or where they run, from `REAPER_ENABLE_UNTRUSTED_TESTS`,
/// `REAPER_TEST_SANDBOX` and `REAPER_ALLOW_HOST_TESTS` (each empty when unset).
pub open spec fn test_plan_spec(enable: Seq<char>, sandbox: Seq<char>, allow_host: Seq<char>) -> Result<
    TestSandbox,
    (bool, Seq<char>, Seq<char>),
> {
    let lower = ascii_lowercase(sandbox);
    if !truthy(enable) {
        Err(
            tr(
                false,
                "Unsafe test execution is disabled for untrusted repositories. Set REAPER_ENABLE_UNTRUSTED_TESTS=true to opt in."@,
                "disabled"@,
            ),
        )
    } else if !(lower.len() == 0 || lower == "docker"@ || lower == "host"@) {
        Err(
            tr(
                false,
                "Unknown REAPER_TEST_SANDBOX value `"@ + lower + "`. Use `docker` or `host`."@,
                "invalid"@,
            ),
        )
    } else if lower == "host"@ && !truthy(allow_host) {
        Err(
            tr(
                false,
                "Host test execution is disabled. Use the Docker sandbox, or set REAPER_ALLOW_HOST_TESTS=true in addition to REAPER_ENABLE_UNTRUSTED_TESTS=true to explicitly accept host execution risk."@,
                "host-disabled"@,
            ),
        )
    } else if lower == "host"@ {
        Ok(TestSandbox::Host)
    } else {
        Ok(TestSandbox::Docker)
    }
}

/// Decides whether tests run and where: untrusted code runs only when it was
/// switched on, in Docker unless the host was chosen and separately allowed.
pub fn test_plan(enable: &str, sandbox: &str, allow_host: &str) -> (res: Result<
    TestSandbox,
    TestResult,
>)
    ensures
        match (res, test_plan_spec(enable@, sandbox@, allow_host@)) {
            (Ok(a), Ok(b)) => a == b,
            (Err(a), Err(b)) => view_result(a) == b,
            _ => false,
        },
{
    if !env_truthy(enable) {
        return Err(
            TestResult {
                passed: false,
                output: owned(
                    "Unsafe test execution is disabled for untrusted repositories. Set REAPER_ENABLE_UNTRUSTED_TESTS=true to opt in.",
                ),
                runner: owned("disabled"),
            },
        );
    }
    let lower = string_from_chars(&ascii_lowercase_exec(&chars_of(sandbox)));
    let l = lower.as_str();
    let chosen = if l.is_empty() || str_eq(l, "docker") {
        TestSandbox::Docker
    } else if str_eq(l, "host") {
        TestSandbox::Host
    } else {
        let mut out: Vec<char> = Vec::new();
        push_str(&mut out, "Unknown REAPER_TEST_SANDBOX value `");
        push_str(&mut out, l);
        push_str(&mut out, "`. Use `docker` or `host`.");
        return Err(
            TestResult { passed: false, output: string_from_chars(&out), runner: owned("invalid") },
        );
    };
    if chosen == TestSandbox::Host && !env_truthy(allow_host) {
        return Err(
            TestResult {
                passed: false,
                output: owned(
                    "Host test execution is disabled. Use the Docker sandbox, or set REAPER_ALLOW_HOST_TESTS=true in addition to REAPER_ENABLE_UNTRUSTED_TESTS=true to explicitly accept host execution risk.",
                ),
                runner: owned("host-disabled"),
            },
        );
    }
    proof {
        reveal_strlit("docker");
        reveal_strlit("host");
    }
    Ok(chosen)
}

/// Untrusted tests do not run unless switched on.
pub proof fn tests_disabled_by_default(enable: Seq<char>, sandbox: Seq<char>, allow_host: Seq<char>)
    requires
        !truthy(enable),
    ensures
        test_plan_spec(enable, sandbox, allow_host) matches Err(r) && !r.0 && r.2 == "disabled"@,
{
}

/// Once tests are switched on, they run in Docker unless another sandbox is
/// chosen.
pub proof fn docker_is_default(enable: Seq<char>, allow_host: Seq<char>)
    requires
        truthy(enable),
    ensures
        test_plan_spec(enable, Seq::empty(), allow_host) == Ok::<TestSandbox, (bool, Seq<char>, Seq<char>)>(TestSandbox::Docker),
{
    reveal_strlit("host");
    assert(ascii_lowercase(Seq::<char>::empty()) =~= Seq::<char>::empty());
}

/// Tests run on the host only when both untrusted tests and host execution
/// were switched on.
pub proof fn host_needs_both_opt_ins(enable: Seq<char>, sandbox: Seq<char>, allow_host: Seq<char>)
    requires
        test_plan_spec(enable, sandbox, allow_host) == Ok::<TestSandbox, (bool, Seq<char>, Seq<char>)>(TestSandbox::Host),
    ensures
        truthy(enable),
        truthy(allow_host),
{
}

// ---------------------------------------------------------------------------
// Runners
// ---------------------------------------------------------------------------

/// The test runners, in the order they are tried.
pub const RUNNER_COUNT: usize = 5;

pub open spec fn runner_name(i: int) -> Seq<char> {
    if i == 0 {
        "pytest"@
    } else if i == 1 {
        "python"@
    } else if i == 2 {
        "cargo"@
    } else if i == 3 {
        "go"@
    } else {
        "npm"@
    }
}

/// The files whose presence calls for runner `i`.
pub open spec fn runner_markers(i: int) -> Seq<Seq<char>> {
    if i == 0 {
        seq!["pytest.ini"@, "pyproject.toml"@, "requirements.txt"@, "setup.py"@]
    } else if i == 1 {
        seq!["pyproject.toml"@, "requirements.txt"@, "setup.py"@]
    } else if i == 2 {
        seq!["Cargo.toml"@]
    } else if i == 3 {
        seq!["go.mod"@]
    } else {
        seq!["package.json"@]
    }
}

pub open spec fn runner_image(i: int) -> Seq<char> {
    if i == 0 || i == 1 {
        "python:3.12-alpine"@
    } else if i == 2 {
        "rust:1.87-bookworm"@
    } else if i == 3 {
        "golang:1.24-bookworm"@
    } else {
        "node:20-bookworm"@
    }
}

pub open spec fn runner_command(i: int) -> Seq<char> {
    if i == 0 {
        "pytest --tb=short -q"@
    } else if i == 1 {
        "python -m pytest -q"@
    } else if i == 2 {
        "cargo test --quiet"@
    } else if i == 3 {
        "go test ./..."@
    } else {
        "npm test -- --watchAll=false"@
    }
}

/// The runner table, row by row: pytest and `python -m pytest` in
/// `python:3.12-alpine`, cargo in `rust:1.87-bookworm`, go in
/// `golang:1.24-bookworm`, npm in `node:20-bookworm`.
pub proof fn runner_table()
    ensures
        runner_name(0) == "pytest"@ && runner_image(0) == "python:3.12-alpine"@ && runner_command(0)
            == "pytest --tb=short -q"@,
        runner_name(1) == "python"@ && runner_image(1) == "python:3.12-alpine"@ && runner_command(1)
            == "python -m pytest -q"@,
        runner_name(2) == "cargo"@ && runner_image(2) == "rust:1.87-bookworm"@ && runner_command(2)
            == "cargo test --quiet"@,
        runner_name(3) == "go"@ && runner_image(3) == "golang:1.24-bookworm"@ && runner_command(3)
            == "go test ./..."@,
        runner_name(4) == "npm"@ && runner_image(4) == "node:20-bookworm"@ && runner_command(4)
            == "npm test -- --watchAll=false"@,
{
}

/// A test runner: its name, the files that call for it, its Docker image
/// and its command.
#[derive(Clone, Debug)]
pub struct RunnerSpec {
    pub runner: String,
    pub markers: Vec<String>,
    pub image: String,
    pub command: String,
}

fn strings(items: &[&str]) -> (res: Vec<String>)
    ensures
        res@.map_values(|s: String| s@) == items@.map_values(|s: &str| s@),
{
    let mut out: Vec<String> = Vec::new();
    let mut i: usize = 0;
    while i < items.len()
        invariant
            i <= items.len(),
            out.len() == i,
            forall|k: int| 0 <= k < i ==> (#[trigger] out@[k])@ == items@[k]@,
        decreases items.len() - i,
    {
        out.push(owned(items[i]));
        i += 1;
    }
    assert(out@.map_values(|s: String| s@) =~= items@.map_values(|s: &str| s@));
    out
}

/// Runner `i` of the table.
pub fn runner_spec(i: usize) -> (res: RunnerSpec)
    requires
        i < RUNNER_COUNT,
    ensures
        res.runner@ == runner_name(i as int),
        res.markers@.map_values(|s: String| s@) == runner_markers(i as int),
        res.image@ == runner_image(i as int),
        res.command@ == runner_command(i as int),
{
    let (runner, markers, image, command): (&str, Vec<String>, &str, &str) = if i == 0 {
        let m = strings(&["pytest.ini", "pyproject.toml", "requirements.txt", "setup.py"]);
        ("pytest", m, "python:3.12-alpine", "pytest --tb=short -q")
    } else if i == 1 {
        let m = strings(&["pyproject.toml", "requirements.txt", "setup.py"]);
        ("python", m, "python:3.12-alpine", "python -m pytest -q")
    } else if i == 2 {
        let m = strings(&["Cargo.toml"]);
        ("cargo", m, "rust:1.87-bookworm", "cargo test --quiet")
    } else if i == 3 {
        let m = strings(&["go.mod"]);
        ("go", m, "golang:1.24-bookworm", "go test ./...")
    } else {
        let m = strings(&["package.json"]);
        ("npm", m, "node:20-bookworm", "npm test -- --watchAll=false")
    };
    proof {
        assert(markers@.map_values(|s: String| s@) =~= runner_markers(i as int));
    }
    RunnerSpec { runner: owned(runner), markers, image: owned(image), command: owned(command) }
}

/// Whether runner `i` is called for, given the marker files present.
pub open spec fn runner_applies(i: int, present: Seq<Seq<char>>) -> bool {
    exists|m: int, p: int|
        #![trigger runner_markers(i)[m], present[p]]
        0 <= m < runner_markers(i).len() && 0 <= p < present.len() && runner_markers(i)[m]
            == present[p]
}

/// The runners called for, in table order.
pub open spec fn applicable(n: int, present: Seq<Seq<char>>) -> Seq<usize>
    decreases n,
{
    if n <= 0 {
        Seq::empty()
    } else if runner_applies(n - 1, present) {
        applicable(n - 1, present).push((n - 1) as usize)
    } else {
        applicable(n - 1, present)
    }
}

proof fn lemma_applicable_contains(n: int, present: Seq<Seq<char>>, i: usize)
    requires
        0 <= n <= RUNNER_COUNT,
    ensures
        applicable(n, present).contains(i) <==> (i < n && runner_applies(i as int, present)),
    decreases n,
{
    if n > 0 {
        lemma_applicable_contains(n - 1, present, i);
        lemma_applicable_below(n - 1, present);
        let prev = applicable(n - 1, present);
        let cur = applicable(n, present);
        if runner_applies(n - 1, present) {
            assert(cur == prev.push((n - 1) as usize));
            if prev.contains(i) {
                let k = choose|k: int| 0 <= k < prev.len() && prev[k] == i;
                assert(cur[k] == i);
            }
            if i == n - 1 {
                assert(cur[prev.len() as int] == i);
            }
            if cur.contains(i) {
                let k = choose|k: int| 0 <= k < cur.len() && cur[k] == i;
                if k < prev.len() {
                    assert(prev[k] == i);
                }
            }
        } else {
            assert(cur == prev);
            if cur.contains(i) {
                let k = choose|k: int| 0 <= k < prev.len() && prev[k] == i;
                assert(prev[k] < n - 1);
            }
        }
    } else {
        assert(applicable(n, present).len() == 0);
    }
}

proof fn lemma_applies_literal(i: int, present: Seq<Seq<char>>)
    ensures
        runner_applies(i, present) <==> exists|m: int| 0 <= m < runner_markers(i).len() && present.contains(
            #[trigger] runner_markers(i)[m],
        ),
{
    if runner_applies(i, present) {
        let (m, p) = choose|m: int, p: int|
            #![trigger runner_markers(i)[m], present[p]]
            0 <= m < runner_markers(i).len() && 0 <= p < present.len() && runner_markers(i)[m]
                == present[p];
        assert(present.contains(runner_markers(i)[m]));
    }
    if exists|m: int| 0 <= m < runner_markers(i).len() && present.contains(#[trigger] runner_markers(i)[m]) {
        let m = choose|m: int| 0 <= m < runner_markers(i).len() && present.contains(#[trigger] runner_markers(i)[m]);
        let p = choose|p: int| 0 <= p < present.len() && present[p] == runner_markers(i)[m];
        assert(runner_markers(i)[m] == present[p]);
    }
}

/// Which runners a repository calls for, by the marker files at its root:
/// pytest for `pytest.ini`, `pyproject.toml`, `requirements.txt` or
/// `setup.py`; `python -m pytest` for `pyproject.toml`, `requirements.txt`
/// or `setup.py`; cargo for `Cargo.toml`; go for `go.mod`; npm for
/// `package.json`. They are tried in that order.
pub proof fn runners_follow_their_markers(present: Seq<Seq<char>>)
    ensures
        applicable(RUNNER_COUNT as int, present).contains(0usize) == (present.contains("pytest.ini"@)
            || present.contains("pyproject.toml"@) || present.contains("requirements.txt"@)
            || present.contains("setup.py"@)),
        applicable(RUNNER_COUNT as int, present).contains(1usize) == (present.contains(
            "pyproject.toml"@,
        ) || present.contains("requirements.txt"@) || present.contains("setup.py"@)),
        applicable(RUNNER_COUNT as int, present).contains(2usize) == present.contains("Cargo.toml"@),
        applicable(RUNNER_COUNT as int, present).contains(3usize) == present.contains("go.mod"@),
        applicable(RUNNER_COUNT as int, present).contains(4usize) == present.contains(
            "package.json"@,
        ),
        forall|a: int, b: int|
            0 <= a < b < applicable(RUNNER_COUNT as int, present).len() ==> applicable(
                RUNNER_COUNT as int,
                present,
            )[a] < applicable(RUNNER_COUNT as int, present)[b],
{
    let n = RUNNER_COUNT as int;
    lemma_applicable_contains(n, present, 0usize);
    lemma_applicable_contains(n, present, 1usize);
    lemma_applicable_contains(n, present, 2usize);
    lemma_applicable_contains(n, present, 3usize);
    lemma_applicable_contains(n, present, 4usize);
    lemma_applies_literal(0, present);
    lemma_applies_literal(1, present);
    lemma_applies_literal(2, present);
    lemma_applies_literal(3, present);
    lemma_applies_literal(4, present);
    assert(runner_markers(0)[0] == "pytest.ini"@ && runner_markers(0)[1] == "pyproject.toml"@
        && runner_markers(0)[2] == "requirements.txt"@ && runner_markers(0)[3] == "setup.py"@);
    assert(runner_markers(1)[0] == "pyproject.toml"@ && runner_markers(1)[1] == "requirements.txt"@
        && runner_markers(1)[2] == "setup.py"@);
    assert(runner_markers(2)[0] == "Cargo.toml"@);
    assert(runner_markers(3)[0] == "go.mod"@);
    assert(runner_markers(4)[0] == "package.json"@);
    lemma_applicable_sorted(n, present);
}

proof fn lemma_applicable_sorted(n: int, present: Seq<Seq<char>>)
    requires
        0 <= n <= RUNNER_COUNT,
    ensures
        forall|a: int, b: int|
            0 <= a < b < applicable(n, present).len() ==> applicable(n, present)[a] < applicable(n, present)[b],
    decreases n,
{
    if n > 0 {
        lemma_applicable_sorted(n - 1, present);
        lemma_applicable_below(n - 1, present);
        let prev = applicable(n - 1, present);
        let cur = applicable(n, present);
        if runner_applies(n - 1, present) {
            assert(cur == prev.push((n - 1) as usize));
            assert forall|a: int, b: int| 0 <= a < b < cur.len() implies cur[a] < cur[b] by {
                assert(cur[a] == prev[a]);
                assert(prev[a] < n - 1);
                if b < prev.len() {
                    assert(cur[b] == prev[b]);
                } else {
                    assert(cur[b] == (n - 1) as usize);
                }
            }
        } else {
            assert(cur == prev);
        }
    }
}

fn any_present(markers: &Vec<String>, present: &Vec<String>) -> (res: bool)
    ensures
        res == exists|m: int, p: int|
            #![trigger markers@[m], present@[p]]
            0 <= m < markers@.len() && 0 <= p < present@.len() && markers@[m]@ == present@[p]@,
{
    let mut m: usize = 0;
    while m < markers.len()
        invariant
            m <= markers.len(),
            forall|a: int, p: int|
                #![trigger markers@[a], present@[p]]
                0 <= a < m && 0 <= p < present@.len() ==> markers@[a]@ != present@[p]@,
        decreases markers.len() - m,
    {
        let mut p: usize = 0;
        while p < present.len()
            invariant
                p <= present.len(),
                m < markers.len(),
                forall|a: int, q: int|
                    #![trigger markers@[a], present@[q]]
                    0 <= a < m && 0 <= q < present@.len() ==> markers@[a]@ != present@[q]@,
                forall|q: int| 0 <= q < p ==> markers@[m as int]@ != (#[trigger] present@[q])@,
            decreases present.len() - p,
        {
            if str_eq(markers[m].as_str(), present[p].as_str()) {
                return true;
            }
            p += 1;
        }
        m += 1;
    }
    false
}

/// The runners that a repository calls for, given the marker files found at
/// its root, in the order they are tried.
pub fn applicable_runners(present: &Vec<String>) -> (res: Vec<usize>)
    ensures
        res@ == applicable(RUNNER_COUNT as int, present@.map_values(|s: String| s@)),
{
    let ghost pv = present@.map_values(|s: String| s@);
    let mut out: Vec<usize> = Vec::new();
    let mut i: usize = 0;
    while i < RUNNER_COUNT
        invariant
            i <= RUNNER_COUNT,
            pv == present@.map_values(|s: String| s@),
            out@ == applicable(i as int, pv),
        decreases RUNNER_COUNT - i,
    {
        let r = runner_spec(i);
        let hit = any_present(&r.markers, present);
        proof {
            let mv = r.markers@.map_values(|s: String| s@);
            if hit {
                let (m, p) = choose|m: int, p: int|
                    #![trigger r.markers@[m], present@[p]]
                    0 <= m < r.markers@.len() && 0 <= p < present@.len() && r.markers@[m]@
                        == present@[p]@;
                assert(runner_markers(i as int)[m] == pv[p]);
            } else {
                assert forall|m: int, p: int|
                    #![trigger runner_markers(i as int)[m], pv[p]]
                    0 <= m < runner_markers(i as int).len() && 0 <= p < pv.len() implies runner_markers(
                    i as int,
                )[m] != pv[p] by {
                    assert(mv[m] == r.markers@[m]@);
                    assert(pv[p] == present@[p]@);
                }
            }
        }
        if hit {
            out.push(i);
        }
        i += 1;
    }
    out
}

// ---------------------------------------------------------------------------
// Results
// ---------------------------------------------------------------------------

/// The result when no runner was called for: nothing to test counts as a
/// pass.
pub open spec fn no_runner_spec(sandbox: TestSandbox) -> (bool, Seq<char>, Seq<char>) {
    tr(
        true,
        match sandbox {
            TestSandbox::Docker =>
                "No supported test runner was found, or Docker was unavailable for the detected runner."@,
            TestSandbox::Host => "No supported test runner was found — skipped"@,
        },
        "none"@,
    )
}

pub fn no_runner_result(sandbox: TestSandbox) -> (res: TestResult)
    ensures
        view_result(res) == no_runner_spec(sandbox),
{
    let output = match sandbox {
        TestSandbox::Docker => owned(
            "No supported test runner was found, or Docker was unavailable for the detected runner.",
        ),
        TestSandbox::Host => owned("No supported test runner was found — skipped"),
    };
    TestResult { passed: true, output, runner: owned("none") }
}

/// The result when every runner called for failed to start: the last
/// error, reported under the last runner tried.
pub open spec fn exhausted_spec(sandbox: TestSandbox, runner: Seq<char>, last_error: Option<Seq<char>>) -> (bool, Seq<char>, Seq<char>) {
    tr(
        false,
        match last_error {
            Some(e) => e,
            None => "Found `"@ + runner + "` test runner, but could not execute it."@,
        },
        sandbox_name(sandbox) + ":"@ + runner,
    )
}

pub fn exhausted_result(sandbox: TestSandbox, runner: &str, last_error: Option<String>) -> (res:
    TestResult)
    ensures
        view_result(res) == exhausted_spec(
            sandbox,
            runner@,
            match last_error {
                Some(e) => Some(e@),
                None => None,
            },
        ),
{
    let output = match last_error {
        Some(e) => e,
        None => {
            let mut out: Vec<char> = Vec::new();
            push_str(&mut out, "Found `");
            push_str(&mut out, runner);
            push_str(&mut out, "` test runner, but could not execute it.");
            string_from_chars(&out)
        },
    };
    let mut name: Vec<char> = Vec::new();
    push_str(&mut name, sandbox_name_exec(sandbox));
    push_str(&mut name, ":");
    push_str(&mut name, runner);
    TestResult { passed: false, output, runner: string_from_chars(&name) }
}

/// The result of a run that exceeded its time.
pub fn timeout_result(sandbox: TestSandbox, seconds: u64, runner: &str) -> (res: TestResult)
    ensures
        view_result(res) == tr(
            false,
            match sandbox {
                TestSandbox::Docker => "Sandboxed test run timed out after "@,
                TestSandbox::Host => "Host test run timed out after "@,
            } + nat_decimal(seconds as nat) + " seconds."@,
            sandbox_name(sandbox) + ":"@ + runner@,
        ),
{
    let mut out: Vec<char> = Vec::new();
    match sandbox {
        TestSandbox::Docker => push_str(&mut out, "Sandboxed test run timed out after "),
        TestSandbox::Host => push_str(&mut out, "Host test run timed out after "),
    }
    push_nat_decimal(&mut out, seconds);
    push_str(&mut out, " seconds.");
    let mut name: Vec<char> = Vec::new();
    push_str(&mut name, sandbox_name_exec(sandbox));
    push_str(&mut name, ":");
    push_str(&mut name, runner);
    TestResult { passed: false, output: string_from_chars(&out), runner: string_from_chars(&name) }
}

/// The result of a run that finished: it passed when the command succeeded.
pub fn completed_result(sandbox: TestSandbox, runner: &str, success: bool, output: String) -> (res:
    TestResult)
    ensures
        view_result(res) == tr(success, output@, sandbox_name(sandbox) + ":"@ + runner@),
{
    let mut name: Vec<char> = Vec::new();
    push_str(&mut name, sandbox_name_exec(sandbox));
    push_str(&mut name, ":");
    push_str(&mut name, runner);
    TestResult { passed: success, output, runner: string_from_chars(&name) }
}

// ---------------------------------------------------------------------------
// Command lines
// ---------------------------------------------------------------------------

/// The arguments of `docker` for a sandboxed run: no network, no
/// capabilities, no privilege gain, bounded processes, memory and CPUs, the
/// repository mounted as the working directory, as the calling user when
/// known.
pub open spec fn docker_args_spec(
    workspace: Seq<char>,
    user: Option<Seq<char>>,
    image: Seq<char>,
    command: Seq<char>,
) -> Seq<Seq<char>> {
    let base = seq![
        "run"@,
        "--rm"@,
        "--network"@,
        "none"@,
        "--cap-drop"@,
        "ALL"@,
        "--security-opt"@,
        "no-new-privileges"@,
        "--pids-limit"@,
        "256"@,
        "--memory"@,
        "2g"@,
        "--cpus"@,
        "2"@,
        "-v"@,
        workspace + ":/workspace"@,
        "-w"@,
        "/workspace"@,
    ];
    let with_user = match user {
        Some(u) => base + seq!["--user"@, u],
        None => base,
    };
    with_user + seq![image, "sh"@, "-lc"@, command]
}

pub fn docker_args(workspace: &str, user: Option<&str>, image: &str, command: &str) -> (res: Vec<
    String,
>)
    ensures
        res@.map_values(|s: String| s@) == docker_args_spec(
            workspace@,
            crate::agent::opt_str_view(user),
            image@,
            command@,
        ),
{
    let mut mount = chars_of(workspace);
    push_str(&mut mount, ":/workspace");
    let mount = string_from_chars(&mount);
    let mut out: Vec<String> = Vec::new();
    out.push(owned("run"));
    out.push(owned("--rm"));
    out.push(owned("--network"));
    out.push(owned("none"));
    out.push(owned("--cap-drop"));
    out.push(owned("ALL"));
    out.push(owned("--security-opt"));
    out.push(owned("no-new-privileges"));
    out.push(owned("--pids-limit"));
    out.push(owned("256"));
    out.push(owned("--memory"));
    out.push(owned("2g"));
    out.push(owned("--cpus"));
    out.push(owned("2"));
    out.push(owned("-v"));
    let ghost s0 = out@;
    out.push(mount);
    out.push(owned("-w"));
    out.push(owned("/workspace"));
    let ghost s1 = out@;
    match user {
        Some(u) => {
            out.push(owned("--user"));
            out.push(owned(u));
        },
        None => {},
    }
    let ghost s2 = out@;
    out.push(owned(image));
    out.push(owned("sh"));
    out.push(owned("-lc"));
    out.push(owned(command));
    proof {
        let base = seq![
            "run"@,
            "--rm"@,
            "--network"@,
            "none"@,
            "--cap-drop"@,
            "ALL"@,
            "--security-opt"@,
            "no-new-privileges"@,
            "--pids-limit"@,
            "256"@,
            "--memory"@,
            "2g"@,
            "--cpus"@,
            "2"@,
            "-v"@,
            workspace@ + ":/workspace"@,
            "-w"@,
            "/workspace"@,
        ];
        assert(s1.map_values(|s: String| s@) =~= base);
        let wu = match crate::agent::opt_str_view(user) {
            Some(u) => base + seq!["--user"@, u],
            None => base,
        };
        assert(s2.map_values(|s: String| s@) =~= wu);
        assert(out@.map_values(|s: String| s@) =~= wu + seq![image@, "sh"@, "-lc"@, command@]);
    }
    out
}

/// The words of `s` between runs of whitespace, as `split_whitespace` gives
/// them.
pub open spec fn words(s: Seq<char>) -> Seq<Seq<char>>
    decreases s.len(),
{
    if s.len() == 0 {
        Seq::empty()
    } else {
        let w = words(s.drop_last());
        if is_ws(s.last()) {
            w
        } else if s.len() >= 2 && !is_ws(s[s.len() - 2]) && w.len() > 0 {
            w.update(w.len() - 1, w.last().push(s.last()))
        } else {
            w.push(seq![s.last()])
        }
    }
}

/// The words of a command line.
pub fn split_words(s: &str) -> (res: Vec<String>)
    ensures
        res@.map_values(|w: String| w@) == words(s@),
{
    let v = chars_of(s);
    let mut done: Vec<String> = Vec::new();
    let mut cur: Vec<char> = Vec::new();
    let mut i: usize = 0;
    while i < v.len()
        invariant
            i <= v.len(),
            v@ == s@,
            ({
                let w = words(v@.take(i as int));
                if i > 0 && !is_ws(v@[i - 1]) {
                    &&& w.len() > 0
                    &&& done@.map_values(|x: String| x@) == w.drop_last()
                    &&& cur@ == w.last()
                } else {
                    &&& done@.map_values(|x: String| x@) == w
                    &&& cur@.len() == 0
                }
            }),
        decreases v.len() - i,
    {
        let c = v[i];
        let ghost t = v@.take(i + 1);
        assert(t.drop_last() =~= v@.take(i as int));
        assert(t.last() == c);
        if is_whitespace(c) {
            if cur.len() > 0 {
                let ghost before = done@;
                let word = string_from_chars(&cur);
                done.push(word);
                proof {
                    let w = words(v@.take(i as int));
                    assert(done@.map_values(|x: String| x@) =~= before.map_values(|x: String| x@).push(
                        word@,
                    ));
                    assert(w.drop_last().push(w.last()) =~= w);
                }
                cur = Vec::new();
            }
        } else {
            proof {
                if i > 0 && !is_ws(v@[i - 1]) {
                    assert(t[t.len() - 2] == v@[i - 1]);
                    let w = words(v@.take(i as int));
                    assert(w.update(w.len() - 1, w.last().push(c)).drop_last() =~= w.drop_last());
                } else {
                    if i > 0 {
                        assert(t[t.len() - 2] == v@[i - 1]);
                    }
                    let w = words(v@.take(i as int));
                    assert(w.push(seq![c]).drop_last() =~= w);
                }
            }
            cur.push(c);
            proof {
                assert(cur@ =~= words(t).last());
            }
        }
        i += 1;
    }
    assert(v@.take(v@.len() as int) =~= v@);
    if cur.len() > 0 {
        let ghost before = done@;
        let word = string_from_chars(&cur);
        done.push(word);
        proof {
            let w = words(v@);
            assert(done@.map_values(|x: String| x@) =~= before.map_values(|x: String| x@).push(
                word@,
            ));
            assert(w.drop_last().push(w.last()) =~= w);
        }
    }
    done
}

/// The program and arguments of a host run: the words of the runner's
/// command; `None` ("Missing host test program") when it has none.
pub fn host_command(command: &str) -> (res: Option<(String, Vec<String>)>)
    ensures
        match res {
            Some((p, args)) => words(command@).len() > 0 && p@ == words(command@)[0]
                && args@.map_values(|w: String| w@) == words(command@).drop_first(),
            None => words(command@).len() == 0,
        },
{
    let mut all = split_words(command);
    if all.len() == 0 {
        return None;
    }
    let ghost before = all@;
    let program = all.remove(0);
    proof {
        assert(all@ == before.remove(0));
        assert(all@.map_values(|w: String| w@) =~= before.map_values(|w: String| w@).drop_first());
    }
    Some((program, all))
}

/// The user the sandbox runs as, `uid:gid`, from the trimmed outputs of
/// `id -u` and `id -g`; `None` when either is empty.
pub fn user_spec(uid_out: &str, gid_out: &str) -> (res: Option<String>)
    ensures
        match res {
            Some(u) => trim(uid_out@).len() > 0 && trim(gid_out@).len() > 0 && u@ == trim(uid_out@)
                + ":"@ + trim(gid_out@),
            None => trim(uid_out@).len() == 0 || trim(gid_out@).len() == 0,
        },
{
    let uid = crate::text::trim_str(uid_out);
    let gid = crate::text::trim_str(gid_out);
    if uid.as_str().is_empty() || gid.as_str().is_empty() {
        return None;
    }
    let mut out = chars_of(uid.as_str());
    push_str(&mut out, ":");
    push_str(&mut out, gid.as_str());
    Some(string_from_chars(&out))
}

// ---------------------------------------------------------------------------
// Trying the runners in turn
// ---------------------------------------------------------------------------

/// What to do next in a test run: start runner `i` of the table, or report.
pub enum RunnerStep {
    Run(usize),
    Finish(TestResult),
}

pub enum RunnerStepModel {
    Run(usize),
    Finish((bool, Seq<char>, Seq<char>)),
}

pub open spec fn step_model(s: RunnerStep) -> RunnerStepModel {
    match s {
        RunnerStep::Run(i) => RunnerStepModel::Run(i),
        RunnerStep::Finish(r) => RunnerStepModel::Finish(view_result(r)),
    }
}

/// The step after the first `next` runners of `order` failed to start, the
/// last with `last_error`: the next runner, else the report of the last one
/// tried, else (none was called for) the report that there is no runner.
pub open spec fn runner_next_spec(
    sandbox: TestSandbox,
    order: Seq<usize>,
    next: int,
    last_error: Option<Seq<char>>,
) -> RunnerStepModel {
    if next < order.len() {
        RunnerStepModel::Run(order[next])
    } else if order.len() > 0 {
        RunnerStepModel::Finish(exhausted_spec(sandbox, runner_name(order.last() as int), last_error))
    } else {
        RunnerStepModel::Finish(no_runner_spec(sandbox))
    }
}

proof fn lemma_applicable_below(n: int, present: Seq<Seq<char>>)
    ensures
        forall|k: int| 0 <= k < applicable(n, present).len() ==> #[trigger] applicable(n, present)[k] < n,
    decreases n,
{
    if n > 0 {
        lemma_applicable_below(n - 1, present);
        let prev = applicable(n - 1, present);
        assert forall|k: int| 0 <= k < applicable(n, present).len() implies #[trigger] applicable(n, present)[k] < n by {
            if runner_applies(n - 1, present) {
                assert(applicable(n, present) == prev.push((n - 1) as usize));
                if k < prev.len() {
                    assert(applicable(n, present)[k] == prev[k]);
                }
            }
        }
    }
}

/// A test run that tries the runners a repository calls for, in table
/// order, until one of them starts.
pub struct RunnerRun {
    pub sandbox: TestSandbox,
    /// The runners called for, in table order.
    pub order: Vec<usize>,
    /// How many of them failed to start.
    pub next: usize,
    /// The error of the last one that failed to start.
    pub last_error: Option<String>,
}

impl RunnerRun {
    pub open spec fn wf(&self) -> bool {
        &&& self.next <= self.order.len()
        &&& forall|k: int| 0 <= k < self.order@.len() ==> #[trigger] self.order@[k] < RUNNER_COUNT
    }

    pub open spec fn error_view(&self) -> Option<Seq<char>> {
        match self.last_error {
            Some(e) => Some(e@),
            None => None,
        }
    }

    fn current(&self) -> (res: RunnerStep)
        requires
            self.wf(),
        ensures
            step_model(res) == runner_next_spec(self.sandbox, self.order@, self.next as int, self.error_view()),
    {
        if self.next < self.order.len() {
            RunnerStep::Run(self.order[self.next])
        } else if self.order.len() > 0 {
            let last = self.order[self.order.len() - 1];
            let spec = runner_spec(last);
            let err = crate::text::clone_opt(&self.last_error);
            RunnerStep::Finish(exhausted_result(self.sandbox, spec.runner.as_str(), err))
        } else {
            RunnerStep::Finish(no_runner_result(self.sandbox))
        }
    }

    /// Starts a test run in `sandbox` for a repository holding the marker
    /// files `present`; the first step starts the first runner called for.
    pub fn begin(sandbox: TestSandbox, present: &Vec<String>) -> (res: (RunnerRun, RunnerStep))
        ensures
            res.0.wf(),
            res.0.sandbox == sandbox,
            res.0.order@ == applicable(RUNNER_COUNT as int, present@.map_values(|s: String| s@)),
            res.0.next == 0,
            res.0.last_error is None,
            step_model(res.1) == runner_next_spec(sandbox, res.0.order@, 0, None),
    {
        let order = applicable_runners(present);
        proof {
            lemma_applicable_below(RUNNER_COUNT as int, present@.map_values(|s: String| s@));
        }
        let run = RunnerRun { sandbox, order, next: 0, last_error: None };
        let first = run.current();
        (run, first)
    }

    /// What the runner that was started came to: its result is the run's
    /// result; when it could not start, the next runner is tried.
    pub fn on_outcome(&mut self, outcome: Result<TestResult, String>) -> (res: RunnerStep)
        requires
            old(self).wf(),
            old(self).next < old(self).order.len(),
        ensures
            final(self).wf(),
            final(self).sandbox == old(self).sandbox,
            final(self).order@ == old(self).order@,
            match outcome {
                Ok(r) => step_model(res) == RunnerStepModel::Finish(view_result(r))
                    && final(self).next == old(self).next,
                Err(e) => {
                    &&& final(self).next == old(self).next + 1
                    &&& final(self).error_view() == Some(e@)
                    &&& step_model(res) == runner_next_spec(
                        old(self).sandbox,
                        old(self).order@,
                        old(self).next + 1,
                        Some(e@),
                    )
                },
            },
    {
        match outcome {
            Ok(r) => RunnerStep::Finish(r),
            Err(e) => {
                self.next = self.next + 1;
                self.last_error = Some(e);
                self.current()
            },
        }
    }
}

} // verus!
