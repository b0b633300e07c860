use morrow::codex_auth::{
    probe_codex_provider_auth_with_runner, CodexAuthCommandOutput, CodexAuthCommandRunner,
    CodexAuthProbeOptions, CodexAuthStatus, CodexLoginLaunchRun, CodexLoginStatusRun,
    CodexSetupActionRun, ExecutableLookup, executable_candidates,
};
use morrow::codex_setup::{
    install_codex_cli_with_runner, start_codex_login_with_runner, CodexLoginLaunchStatus,
    CodexSetupActionGuard, CodexSetupActionStatus,
};

/// A runner whose disk holds an executable at `present` (if any) and that
/// reports a successful install.
struct ScriptedRunner {
    present: Option<String>,
}

impl ExecutableLookup for ScriptedRunner {
    fn is_executable_file(&self, path: &String) -> bool {
        self.present.as_deref() == Some(path.as_str())
    }
}

impl CodexAuthCommandRunner for ScriptedRunner {
    fn run_login_status(&self, _executable: &String, _timeout_millis: u64) -> CodexLoginStatusRun {
        CodexLoginStatusRun::TimedOut
    }

    fn run_codex_install(&self, _timeout_millis: u64) -> CodexSetupActionRun {
        CodexSetupActionRun::Installed(CodexAuthCommandOutput::new(Some(0), "", ""))
    }

    fn launch_codex_login(&self, _executable: &String, _timeout_millis: u64) -> CodexLoginLaunchRun {
        CodexLoginLaunchRun::Launched
    }
}

#[test]
fn probe_without_search_paths_reports_missing_cli() {
    let options = CodexAuthProbeOptions::from_search_paths(vec![]);
    let runner = ScriptedRunner { present: None };

    let readiness = probe_codex_provider_auth_with_runner(&options, &runner);

    assert_eq!(readiness.status, CodexAuthStatus::MissingCli);
    assert!(!readiness.ready);
    assert_eq!(readiness.command_surface, "codex login status");
    assert!(!readiness.command_output_redacted);
    assert_eq!(readiness.diagnostic, "Codex CLI was not found on PATH.");
}

#[test]
fn probe_maps_a_timed_out_status_run() {
    let options = CodexAuthProbeOptions::from_search_paths(vec!["/opt/tools".to_owned()]);
    let runner = ScriptedRunner { present: Some("/opt/tools/codex".to_owned()) };

    let readiness = probe_codex_provider_auth_with_runner(&options, &runner);

    assert_eq!(readiness.status, CodexAuthStatus::Timeout);
    assert!(!readiness.ready);
}

#[test]
fn reported_install_without_a_found_cli_fails() {
    let options = CodexAuthProbeOptions::from_search_paths(vec![]);
    let runner = ScriptedRunner { present: None };
    let mut guard = CodexSetupActionGuard::new();

    let receipt = install_codex_cli_with_runner(&options, &runner, &mut guard, 1_000);

    assert_eq!(receipt.status, CodexSetupActionStatus::Failed);
    assert_eq!(receipt.command_surface, "codex standalone installer");
    assert!(receipt.command_output_redacted);
    assert_eq!(receipt.diagnostic, "Codex CLI setup completed but the CLI was not found.");
    assert!(!guard.running());
}

#[test]
fn install_skips_the_installer_when_the_cli_is_present() {
    let options = CodexAuthProbeOptions::from_search_paths(vec!["/opt/tools".to_owned()]);
    let runner = ScriptedRunner { present: Some("/opt/tools/codex".to_owned()) };
    let mut guard = CodexSetupActionGuard::new();
    assert!(guard.begin_install());

    let receipt = install_codex_cli_with_runner(&options, &runner, &mut guard, 1_000);

    assert_eq!(receipt.status, CodexSetupActionStatus::AlreadyInstalled);
    assert_eq!(receipt.diagnostic, "Codex CLI is already installed.");
    assert!(guard.running());
}

#[test]
fn install_while_busy_reports_already_running() {
    let options = CodexAuthProbeOptions::from_search_paths(vec![]);
    let runner = ScriptedRunner { present: None };
    let mut guard = CodexSetupActionGuard::new();
    assert!(guard.begin_login());

    let receipt = install_codex_cli_with_runner(&options, &runner, &mut guard, 1_000);

    assert_eq!(receipt.status, CodexSetupActionStatus::AlreadyRunning);
    assert_eq!(receipt.diagnostic, "Codex CLI setup is already running.");
    assert!(guard.running());
}

#[test]
fn login_without_a_cli_reports_missing_cli() {
    let options = CodexAuthProbeOptions::from_search_paths(vec![]);
    let runner = ScriptedRunner { present: None };
    let mut guard = CodexSetupActionGuard::new();

    let receipt = start_codex_login_with_runner(&options, &runner, &mut guard, 1_000);

    assert_eq!(receipt.status, CodexLoginLaunchStatus::MissingCli);
    assert_eq!(receipt.command_surface, "codex login");
    assert!(!guard.running());
}

#[test]
fn launched_login_keeps_the_guard_busy() {
    let options = CodexAuthProbeOptions::from_search_paths(vec!["/opt/tools".to_owned()]);
    let runner = ScriptedRunner { present: Some("/opt/tools/codex".to_owned()) };
    let mut guard = CodexSetupActionGuard::new();

    let receipt = start_codex_login_with_runner(&options, &runner, &mut guard, 1_000);

    assert_eq!(receipt.status, CodexLoginLaunchStatus::Launched);
    assert!(receipt.command_output_redacted);
    assert!(guard.running());
}

#[test]
fn names_of_one_component_are_searched_for() {
    let paths = vec!["/opt/tools".to_owned(), "/usr/bin/".to_owned()];
    assert_eq!(
        executable_candidates(&"codex".to_owned(), &paths),
        vec!["/opt/tools/codex".to_owned(), "/usr/bin/codex".to_owned()]
    );
    assert_eq!(
        executable_candidates(&"codex/".to_owned(), &paths),
        vec!["/opt/tools/codex/".to_owned(), "/usr/bin/codex/".to_owned()]
    );
    assert_eq!(executable_candidates(&"a/./".to_owned(), &paths).len(), 2);
    assert_eq!(executable_candidates(&"./codex".to_owned(), &paths), vec!["./codex".to_owned()]);
    assert_eq!(executable_candidates(&"/bin/codex".to_owned(), &paths), vec!["/bin/codex".to_owned()]);
    assert_eq!(executable_candidates(&"bin/codex".to_owned(), &paths), vec!["bin/codex".to_owned()]);
}
