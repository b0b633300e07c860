//! The Codex CLI provider: the `codex exec` request it makes, how a run
//! of the command is judged, and the prompt it is given.
use vstd::prelude::*;

use crate::codex_auth::{join, join_path, lossy_text, utf8_lossy};
use crate::text::{concat2, concat3, owned, push_decimal_wide, signed_decimal};

verus! {

/// The command the provider runs.
pub const CODEX_EXECUTABLE: &'static str = "codex";

/// How long a `codex exec` run may take, in milliseconds.
pub const CODEX_EXEC_TIMEOUT_MILLIS: u64 = 15_000;

/// The prefix of every provider workspace directory.
pub const TEMP_PREFIX: &'static str = "morrow-codex-provider";

#[derive(Debug, Clone, Copy, PartialEq, Eq)]
pub enum CodexProviderError {
    EvidenceTooLarge,
    WorkspaceUnavailable,
    OutputUnavailable,
    MissingCli,
    Timeout,
    CommandFailed,
    InvalidResponse { reason: &'static str },
}

/// The message each provider error displays.
pub open spec fn codex_provider_error_text(e: CodexProviderError) -> Seq<char> {
    match e {
        CodexProviderError::EvidenceTooLarge => "codex provider evidence is too large"@,
        CodexProviderError::WorkspaceUnavailable => "codex provider workspace unavailable"@,
        CodexProviderError::OutputUnavailable => "codex provider output unavailable"@,
        CodexProviderError::MissingCli => "codex provider command is unavailable"@,
        CodexProviderError::Timeout => "codex provider command timed out"@,
        CodexProviderError::CommandFailed => "codex provider command failed"@,
        CodexProviderError::InvalidResponse { reason } => "codex provider response rejected: "@
            + reason@,
    }
}

impl CodexProviderError {
    /// The message the error displays.
    pub fn to_text(&self) -> (r: String)
        ensures
            r@ == codex_provider_error_text(*self),
    {
        match self {
            CodexProviderError::EvidenceTooLarge => owned("codex provider evidence is too large"),
            CodexProviderError::WorkspaceUnavailable => owned(
                "codex provider workspace unavailable",
            ),
            CodexProviderError::OutputUnavailable => owned("codex provider output unavailable"),
            CodexProviderError::MissingCli => owned("codex provider command is unavailable"),
            CodexProviderError::Timeout => owned("codex provider command timed out"),
            CodexProviderError::CommandFailed => owned("codex provider command failed"),
            CodexProviderError::InvalidResponse { reason } => concat2(
                "codex provider response rejected: ",
                reason,
            ),
        }
    }
}

/// The paths of a provider workspace under its root directory.
pub struct CodexWorkspacePaths {
    pub root: String,
    pub cwd: String,
    pub schema_path: String,
    pub output_path: String,
}

impl CodexWorkspacePaths {
    /// The workspace under `root`: the command runs in `cwd`, reads the
    /// schema from `schema.json` and writes its answer to
    /// `last-message.json`.
    pub fn under(root: String) -> (r: Self)
        ensures
            r.root@ == root@,
            r.cwd@ == join_path(root@, "cwd"@),
            r.schema_path@ == join_path(root@, "schema.json"@),
            r.output_path@ == join_path(root@, "last-message.json"@),
    {
        let cwd = join(&root, "cwd");
        let schema_path = join(&root, "schema.json");
        let output_path = join(&root, "last-message.json");
        CodexWorkspacePaths { root, cwd, schema_path, output_path }
    }
}

/// The name of a fresh workspace directory: the prefix, the process id,
/// the time in nanoseconds and a counter, joined by dashes.
pub fn temp_root_name(pid: u32, timestamp_nanos: u128, counter: u64) -> (r: String)
    ensures
        r@ == TEMP_PREFIX@ + "-"@ + crate::text::decimal(pid as nat) + "-"@ + crate::text::decimal(
            timestamp_nanos as nat,
        ) + "-"@ + crate::text::decimal(counter as nat),
{
    let mut name = concat2(TEMP_PREFIX, "-");
    push_decimal_wide(&mut name, pid as u128);
    name.append("-");
    push_decimal_wide(&mut name, timestamp_nanos);
    name.append("-");
    push_decimal_wide(&mut name, counter as u128);
    name
}

/// The arguments of `codex exec`: JSON events, no session, no user
/// config or rules, a read-only sandbox, no approvals, then the workspace
/// paths, and the prompt read from stdin.
pub open spec fn exec_args(cwd: Seq<char>, schema_path: Seq<char>, output_path: Seq<char>) -> Seq<
    Seq<char>,
> {
    seq![
        "exec"@,
        "--json"@,
        "--ephemeral"@,
        "--ignore-user-config"@,
        "--ignore-rules"@,
        "--skip-git-repo-check"@,
        "--sandbox"@,
        "read-only"@,
        "-c"@,
        "approval_policy=\"never\""@,
        "-C"@,
        cwd,
        "--output-schema"@,
        schema_path,
        "--output-last-message"@,
        output_path,
        "-"@,
    ]
}

pub fn codex_exec_args(cwd: &str, schema_path: &str, output_path: &str) -> (r: Vec<String>)
    ensures
        r.deep_view() == exec_args(cwd@, schema_path@, output_path@),
{
    let mut args: Vec<String> = Vec::new();
    args.push(owned("exec"));
    args.push(owned("--json"));
    args.push(owned("--ephemeral"));
    args.push(owned("--ignore-user-config"));
    args.push(owned("--ignore-rules"));
    args.push(owned("--skip-git-repo-check"));
    args.push(owned("--sandbox"));
    args.push(owned("read-only"));
    args.push(owned("-c"));
    args.push(owned("approval_policy=\"never\""));
    args.push(owned("-C"));
    args.push(owned(cwd));
    args.push(owned("--output-schema"));
    args.push(owned(schema_path));
    args.push(owned("--output-last-message"));
    args.push(owned(output_path));
    args.push(owned("-"));
    assert(args.deep_view() =~= exec_args(cwd@, schema_path@, output_path@));
    args
}

/// One `codex exec` run to make. It has no `Debug`, so the prompt it
/// carries is never printed.
pub struct CodexExecRequest {
    executable: String,
    args: Vec<String>,
    cwd: String,
    schema_path: String,
    output_path: String,
    prompt: String,
    timeout_millis: u64,
}

impl CodexExecRequest {
    pub closed spec fn spec_executable(&self) -> Seq<char> {
        self.executable@
    }

    pub closed spec fn spec_args(&self) -> Seq<Seq<char>> {
        self.args.deep_view()
    }

    pub closed spec fn spec_cwd(&self) -> Seq<char> {
        self.cwd@
    }

    pub closed spec fn spec_schema_path(&self) -> Seq<char> {
        self.schema_path@
    }

    pub closed spec fn spec_output_path(&self) -> Seq<char> {
        self.output_path@
    }

    pub closed spec fn spec_prompt(&self) -> Seq<char> {
        self.prompt@
    }

    pub closed spec fn spec_timeout_millis(&self) -> u64 {
        self.timeout_millis
    }

    /// The run of `codex` in a workspace, with the prompt and the
    /// 15-second limit.
    pub fn for_workspace(workspace: &CodexWorkspacePaths, prompt: String) -> (r: Self)
        ensures
            r.spec_executable() == CODEX_EXECUTABLE@,
            r.spec_args() == exec_args(
                workspace.cwd@,
                workspace.schema_path@,
                workspace.output_path@,
            ),
            r.spec_cwd() == workspace.cwd@,
            r.spec_schema_path() == workspace.schema_path@,
            r.spec_output_path() == workspace.output_path@,
            r.spec_prompt() == prompt@,
            r.spec_timeout_millis() == CODEX_EXEC_TIMEOUT_MILLIS,
    {
        let args = codex_exec_args(
            workspace.cwd.as_str(),
            workspace.schema_path.as_str(),
            workspace.output_path.as_str(),
        );
        CodexExecRequest {
            executable: owned(CODEX_EXECUTABLE),
            args,
            cwd: workspace.cwd.clone(),
            schema_path: workspace.schema_path.clone(),
            output_path: workspace.output_path.clone(),
            prompt,
            timeout_millis: CODEX_EXEC_TIMEOUT_MILLIS,
        }
    }

    pub fn executable(&self) -> (r: &str)
        ensures
            r@ == self.spec_executable(),
    {
        self.executable.as_str()
    }

    pub fn args(&self) -> (r: &Vec<String>)
        ensures
            r.deep_view() == self.spec_args(),
    {
        &self.args
    }

    pub fn cwd(&self) -> (r: &str)
        ensures
            r@ == self.spec_cwd(),
    {
        self.cwd.as_str()
    }

    pub fn schema_path(&self) -> (r: &str)
        ensures
            r@ == self.spec_schema_path(),
    {
        self.schema_path.as_str()
    }

    pub fn output_path(&self) -> (r: &str)
        ensures
            r@ == self.spec_output_path(),
    {
        self.output_path.as_str()
    }

    /// The time limit of the run, in milliseconds.
    pub fn timeout(&self) -> (r: u64)
        ensures
            r == self.spec_timeout_millis(),
    {
        self.timeout_millis
    }

    pub fn prompt(&self) -> (r: &str)
        ensures
            r@ == self.spec_prompt(),
    {
        self.prompt.as_str()
    }
}

/// How a finished `codex exec` run ended. Its output is not printed by
/// [`CodexCommandOutput::debug_text`].
#[derive(Clone, PartialEq, Eq)]
pub struct CodexCommandOutput {
    exit_code: Option<i32>,
    stdout: String,
    stderr: String,
}

/// How an exit code is printed.
pub open spec fn exit_code_text(code: Option<i32>) -> Seq<char> {
    match code {
        Some(c) => "Some("@ + signed_decimal(c as int) + ")"@,
        None => "None"@,
    }
}

impl CodexCommandOutput {
    pub closed spec fn spec_exit_code(&self) -> Option<i32> {
        self.exit_code
    }

    pub closed spec fn spec_stdout(&self) -> Seq<char> {
        self.stdout@
    }

    pub closed spec fn spec_stderr(&self) -> Seq<char> {
        self.stderr@
    }

    pub fn new(exit_code: Option<i32>, stdout: &str, stderr: &str) -> (r: Self)
        ensures
            r.spec_exit_code() == exit_code,
            r.spec_stdout() == stdout@,
            r.spec_stderr() == stderr@,
    {
        CodexCommandOutput { exit_code, stdout: owned(stdout), stderr: owned(stderr) }
    }

    pub fn exit_code(&self) -> (r: Option<i32>)
        ensures
            r == self.spec_exit_code(),
    {
        self.exit_code
    }

    /// The output as it is printed: the exit code, with both streams
    /// redacted.
    pub fn debug_text(&self) -> (r: String)
        ensures
            r@ == "CodexCommandOutput { exit_code: "@ + exit_code_text(self.spec_exit_code())
                + ", stdout: \"<redacted>\", stderr: \"<redacted>\" }"@,
    {
        let mut r = owned("CodexCommandOutput { exit_code: ");
        match self.exit_code {
            Some(c) => {
                r.append("Some(");
                r.append(crate::text::signed_decimal_string(c as i64).as_str());
                r.append(")");
            },
            None => {
                r.append("None");
            },
        }
        r.append(", stdout: \"<redacted>\", stderr: \"<redacted>\" }");
        r
    }
}

#[derive(Clone, PartialEq, Eq)]
pub enum CodexExecRun {
    Completed(CodexCommandOutput),
    MissingCli,
    TimedOut,
    FailedToStart,
}

/// Runs `codex exec` for the provider; what a run gives back is up to the
/// implementation (a process, or a fake in tests).
pub trait CodexExecRunner {
    fn run_exec(&self, request: &CodexExecRequest) -> CodexExecRun;
}

/// How a finished child turns into a run: a stream that could not be read
/// means the command failed to start, and so does a successful exit whose
/// prompt was not written; otherwise the run completed, with the exit
/// code and both streams decoded as UTF-8 (invalid sequences replaced).
pub fn completed_exec_run(
    exit_success: bool,
    exit_code: Option<i32>,
    prompt_written: bool,
    stdout: Option<Vec<u8>>,
    stderr: Option<Vec<u8>>,
) -> (r: CodexExecRun)
    ensures
        stdout is None || stderr is None ==> r is FailedToStart,
        stdout is Some && stderr is Some && exit_success && !prompt_written ==> r is FailedToStart,
        match (stdout, stderr) {
            (Some(out), Some(err)) => (!exit_success || prompt_written) ==> (r matches CodexExecRun::Completed(
                output,
            ) && output.spec_exit_code() == exit_code && output.spec_stdout() == utf8_lossy(out@)
                && output.spec_stderr() == utf8_lossy(err@)),
            _ => true,
        },
{
    let out = match stdout {
        Some(bytes) => bytes,
        None => {
            return CodexExecRun::FailedToStart;
        },
    };
    let err = match stderr {
        Some(bytes) => bytes,
        None => {
            return CodexExecRun::FailedToStart;
        },
    };
    if exit_success && !prompt_written {
        return CodexExecRun::FailedToStart;
    }
    CodexExecRun::Completed(
        CodexCommandOutput {
            exit_code,
            stdout: lossy_text(out.as_slice()),
            stderr: lossy_text(err.as_slice()),
        },
    )
}

/// The verdict on a run: only a completed run that exited with 0 goes on
/// to read the answer; a missing command and a time-out are told apart,
/// and every other run failed.
pub open spec fn run_verdict(run: CodexExecRun) -> Result<(), CodexProviderError> {
    match run {
        CodexExecRun::Completed(output) => if output.spec_exit_code() == Some(0i32) {
            Ok(())
        } else {
            Err(CodexProviderError::CommandFailed)
        },
        CodexExecRun::MissingCli => Err(CodexProviderError::MissingCli),
        CodexExecRun::TimedOut => Err(CodexProviderError::Timeout),
        CodexExecRun::FailedToStart => Err(CodexProviderError::CommandFailed),
    }
}

pub fn judge_run(run: &CodexExecRun) -> (r: Result<(), CodexProviderError>)
    ensures
        r == run_verdict(*run),
{
    match run {
        CodexExecRun::Completed(output) => {
            if output.exit_code() == Some(0i32) {
                Ok(())
            } else {
                Err(CodexProviderError::CommandFailed)
            }
        },
        CodexExecRun::MissingCli => Err(CodexProviderError::MissingCli),
        CodexExecRun::TimedOut => Err(CodexProviderError::Timeout),
        CodexExecRun::FailedToStart => Err(CodexProviderError::CommandFailed),
    }
}

pub struct CodexProvider<R> {
    runner: R,
}

impl<R: CodexExecRunner> CodexProvider<R> {
    pub closed spec fn spec_runner(&self) -> R {
        self.runner
    }

    pub fn new(runner: R) -> (r: Self)
        ensures
            r.spec_runner() == runner,
    {
        CodexProvider { runner }
    }

    /// Makes one run of `codex exec` for the request and judges it: the
    /// run is the runner's answer to the request.
    pub fn run(&self, request: &CodexExecRequest) -> (r: (CodexExecRun, Result<(), CodexProviderError>))
        ensures
            call_ensures(R::run_exec, (&self.spec_runner(), request), r.0),
            r.1 == run_verdict(r.0),
    {
        let run = self.runner.run_exec(request);
        let ghost seen = run;
        assert(call_ensures(R::run_exec, (&self.runner, request), seen));
        let verdict = judge_run(&run);
        (run, verdict)
    }
}

/// The instructions before the configured-zone time example.
pub const PROMPT_HEAD: &'static str = "Return only one JSON object matching the supplied schema. Use only this redacted evidence payload. For an explicit request to create, add, or schedule a calendar event with a date and time, set confidence_millis between 850 and 1000. For weak calendar wording such as catch up Friday afternoon, coffee Friday afternoon, sync Friday afternoon, or touch base Friday afternoon, set kind to calendar_event and set confidence_millis between 850 and 1000 when the date/time is inferable. Semantic calendar wording: natural phrasing such as readouts, check-ins, holds, bookings, visits, or other meeting-like commitments may be calendar_event when selected evidence only grounds the title, context, participants, and time. Calendar vs Reminders disambiguation: choose calendar_event for meetings, appointments, calls, visits, holds, bookings, or shared time commitments; choose task_reminder for reminders, todos, follow-ups, deadlines, due dates, or by-date obligations. For a task or reminder request with a clear due date, deadline, or by-date, set kind to task_reminder and set confidence_millis between 700 and 850. For weak task deadline wording such as follow up by July 25, send by July 25, finish by July 25, complete by July 25, due July 25, or deadline July 25, keep kind as task_reminder. If that task/reminder request has a clear deadline date but no clock time, use 23:59:00 in the configured reference timezone. For list-reminders-v1 quantity lists such as 2 anchovies, 3 salmon, set kind to task_reminder and include structured items with numeric quantity, normalized name, optional bounded unit, and evidence_ids for each item; the title will be rendered locally as Daily list from validated items. Generate title and context from selected evidence only; do not infer private details, names, locations, attendees, or source text that are not present in the redacted selected evidence payload. Reject ungrounded or hallucinated evidence: every anchor_evidence_id, evidence_ids entry, and item evidence_ids entry must reference an existing evidence://selected/N id from the payload, and unsupported or invented evidence should drive confidence_millis below 550. Use confidence_millis below 550 only when the evidence lacks calendar/reminder intent or lacks an inferable date or time after these calendar/reminder rules. normalized_time contract: use exactly YYYY-MM-DDTHH:MM:SS[Area/Location] with the configured reference timezone or YYYY-MM-DDTHH:MM:SSZ for UTC, resolving semantic or relative wording only when grounded by selected evidence and the reference timezone. Date and time fields are fixed-width; seconds are mandatory. Bracketed zones must be safe IANA-style zones. Valid examples: ";

/// The instructions after the configured-zone time example, before the evidence.
pub const PROMPT_TAIL: &'static str = ", 2026-07-03T06:30:00Z. Invalid examples: 2026-7-3T15:30Z, 2026-07-03T15:30, 2026-07-03 15:30:00, 2026-07-03T15:30:00+09:00, tomorrow at 3pm, 2026-07-03T15:30:00[Private/Prompt].\n";


/// The time example given for the configured zone: `Z` for UTC, else the
/// zone in brackets.
pub open spec fn configured_example(timezone: Seq<char>) -> Seq<char> {
    if timezone == "UTC"@ {
        "2026-07-03T15:30:00Z"@
    } else {
        "2026-07-03T15:30:00["@ + timezone + "]"@
    }
}

/// The provider prompt: the fixed instructions with the configured-zone
/// example, then the evidence payload.
pub fn provider_prompt(evidence_text: &str, reference_timezone: &str) -> (r: String)
    ensures
        r@ == PROMPT_HEAD@ + configured_example(reference_timezone@) + PROMPT_TAIL@
            + evidence_text@,
{
    let mut prompt = owned(PROMPT_HEAD);
    if crate::text::same_text(reference_timezone, "UTC") {
        prompt.append("2026-07-03T15:30:00Z");
    } else {
        prompt.append(concat3("2026-07-03T15:30:00[", reference_timezone, "]").as_str());
    }
    prompt.append(PROMPT_TAIL);
    prompt.append(evidence_text);
    prompt
}

} // verus!
