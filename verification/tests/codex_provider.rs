use morrow::codex_provider::{
    codex_exec_args, completed_exec_run, judge_run, provider_prompt, temp_root_name, CodexCommandOutput, CodexExecRequest,
    CodexExecRun, CodexExecRunner, CodexProvider, CodexProviderError, CodexWorkspacePaths,
    PROMPT_HEAD, PROMPT_TAIL,
};

struct FixedRunner {
    exit_code: Option<i32>,
}

impl CodexExecRunner for FixedRunner {
    fn run_exec(&self, _request: &CodexExecRequest) -> CodexExecRun {
        CodexExecRun::Completed(CodexCommandOutput::new(self.exit_code, "out", "err"))
    }
}

#[test]
fn exec_args_pin_a_read_only_ephemeral_run() {
    assert_eq!(
        codex_exec_args("/w/cwd", "/w/schema.json", "/w/last-message.json"),
        vec![
            "exec",
            "--json",
            "--ephemeral",
            "--ignore-user-config",
            "--ignore-rules",
            "--skip-git-repo-check",
            "--sandbox",
            "read-only",
            "-c",
            "approval_policy=\"never\"",
            "-C",
            "/w/cwd",
            "--output-schema",
            "/w/schema.json",
            "--output-last-message",
            "/w/last-message.json",
            "-",
        ]
    );
}

#[test]
fn request_for_workspace_uses_its_paths() {
    let workspace = CodexWorkspacePaths::under("/tmp/morrow-codex-provider-1".to_owned());
    assert_eq!(workspace.cwd, "/tmp/morrow-codex-provider-1/cwd");
    assert_eq!(workspace.schema_path, "/tmp/morrow-codex-provider-1/schema.json");
    assert_eq!(
        workspace.output_path,
        "/tmp/morrow-codex-provider-1/last-message.json"
    );
    let request = CodexExecRequest::for_workspace(&workspace, "PROMPT".to_owned());
    assert_eq!(request.executable(), "codex");
    assert_eq!(request.cwd(), workspace.cwd);
    assert_eq!(request.schema_path(), workspace.schema_path);
    assert_eq!(request.output_path(), workspace.output_path);
    assert_eq!(request.timeout(), 15_000);
    assert_eq!(request.prompt(), "PROMPT");
    assert_eq!(request.args()[11], workspace.cwd);
}

#[test]
fn temp_root_names_join_their_parts() {
    assert_eq!(
        temp_root_name(42, 1_700_000_000_123_456_789, 3),
        "morrow-codex-provider-42-1700000000123456789-3"
    );
}

#[test]
fn runs_are_judged_by_exit_code() {
    let ok = CodexExecRun::Completed(CodexCommandOutput::new(Some(0), "", ""));
    assert_eq!(judge_run(&ok), Ok(()));
    let failed = CodexExecRun::Completed(CodexCommandOutput::new(Some(2), "", ""));
    assert_eq!(judge_run(&failed), Err(CodexProviderError::CommandFailed));
    assert_eq!(
        judge_run(&CodexExecRun::MissingCli),
        Err(CodexProviderError::MissingCli)
    );
    assert_eq!(
        judge_run(&CodexExecRun::TimedOut),
        Err(CodexProviderError::Timeout)
    );
    assert_eq!(
        judge_run(&CodexExecRun::FailedToStart),
        Err(CodexProviderError::CommandFailed)
    );
}

#[test]
fn provider_runs_through_its_runner() {
    let workspace = CodexWorkspacePaths::under("/tmp/w".to_owned());
    let request = CodexExecRequest::for_workspace(&workspace, "p".to_owned());
    let provider = CodexProvider::new(FixedRunner { exit_code: Some(1) });
    let (_run, verdict) = provider.run(&request);
    assert_eq!(verdict, Err(CodexProviderError::CommandFailed));
    let good = CodexProvider::new(FixedRunner { exit_code: Some(0) });
    assert_eq!(good.run(&request).1, Ok(()));
}

#[test]
fn command_output_debug_redacts_streams() {
    let output = CodexCommandOutput::new(Some(-1), "SECRET-OUT", "SECRET-ERR");
    assert_eq!(output.exit_code(), Some(-1));
    assert_eq!(
        output.debug_text(),
        "CodexCommandOutput { exit_code: Some(-1), stdout: \"<redacted>\", stderr: \"<redacted>\" }"
    );
    assert_eq!(
        CodexCommandOutput::new(None, "", "").debug_text(),
        "CodexCommandOutput { exit_code: None, stdout: \"<redacted>\", stderr: \"<redacted>\" }"
    );
}

#[test]
fn provider_prompt_names_the_configured_zone_and_ends_with_the_evidence() {
    let seoul = provider_prompt("EVIDENCE", "Asia/Seoul");
    assert!(seoul.contains("Valid examples: 2026-07-03T15:30:00[Asia/Seoul], 2026-07-03T06:30:00Z."));
    assert!(seoul.contains("confidence_millis between 850 and 1000"));
    assert!(seoul.ends_with(".\nEVIDENCE"));
    assert_eq!(
        seoul,
        format!("{PROMPT_HEAD}2026-07-03T15:30:00[Asia/Seoul]{PROMPT_TAIL}EVIDENCE")
    );
    let utc = provider_prompt("E", "UTC");
    assert!(utc.contains("Valid examples: 2026-07-03T15:30:00Z, 2026-07-03T06:30:00Z."));
}

#[test]
fn provider_errors_have_messages() {
    assert_eq!(
        CodexProviderError::Timeout.to_text(),
        "codex provider command timed out"
    );
    assert_eq!(
        CodexProviderError::InvalidResponse {
            reason: "missing output"
        }
        .to_text(),
        "codex provider response rejected: missing output"
    );
}

#[test]
fn finished_children_become_runs() {
    let run = completed_exec_run(true, Some(0), true, Some(b"{}".to_vec()), Some(vec![0xff, b'x']));
    match run {
        CodexExecRun::Completed(output) => {
            assert_eq!(output.exit_code(), Some(0));
            assert!(output == CodexCommandOutput::new(Some(0), "{}", "\u{fffd}x"));
        }
        _ => panic!("expected a completed run"),
    }
    assert!(matches!(
        completed_exec_run(true, Some(0), false, Some(Vec::new()), Some(Vec::new())),
        CodexExecRun::FailedToStart
    ));
    assert!(matches!(
        completed_exec_run(false, Some(2), false, Some(Vec::new()), Some(Vec::new())),
        CodexExecRun::Completed(_)
    ));
    assert!(matches!(
        completed_exec_run(false, Some(2), true, None, Some(Vec::new())),
        CodexExecRun::FailedToStart
    ));
}
