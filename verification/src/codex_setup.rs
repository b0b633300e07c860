//! The Codex CLI setup actions (standalone install and browser login), one
//! at a time behind a shared guard, and the receipts the UI shows for them.
use vstd::prelude::*;

use crate::codex_auth::{
    opt_text_of, resolution, resolve_executable, CodexAuthCommandRunner, CodexAuthProbeOptions, CodexLoginLaunchRun,
    CodexSetupActionRun,
};
use crate::text::owned;

verus! {

/// How long the Codex CLI installer may run, in milliseconds.
pub const CODEX_INSTALL_TIMEOUT_MILLIS: u64 = 30_000;

/// How long a launched `codex login` is supervised, in milliseconds.
pub const CODEX_LOGIN_LAUNCH_TIMEOUT_MILLIS: u64 = 300_000;

#[derive(Debug, Clone, Copy, PartialEq, Eq, Structural)]
pub enum CodexSetupActionStatus {
    Installed,
    AlreadyInstalled,
    AlreadyRunning,
    Failed,
    Timeout,
    Unsupported,
}

#[derive(Debug)]
pub struct CodexSetupActionReceipt {
    pub status: CodexSetupActionStatus,
    pub command_surface: String,
    pub command_output_redacted: bool,
    pub diagnostic: String,
}

#[derive(Debug, Clone, Copy, PartialEq, Eq, Structural)]
pub enum CodexLoginLaunchStatus {
    Launched,
    AlreadyRunning,
    MissingCli,
    FailedToStart,
}

#[derive(Debug)]
pub struct CodexLoginLaunchReceipt {
    pub status: CodexLoginLaunchStatus,
    pub command_surface: String,
    pub command_output_redacted: bool,
    pub diagnostic: String,
}

/// Allows one setup action (install or login) at a time.
#[derive(Debug, Default)]
pub struct CodexSetupActionGuard {
    action_running: bool,
}

impl CodexSetupActionGuard {
    pub closed spec fn is_running(&self) -> bool {
        self.action_running
    }

    pub fn new() -> (r: Self)
        ensures
            !r.is_running(),
    {
        CodexSetupActionGuard { action_running: false }
    }

    pub fn running(&self) -> (r: bool)
        ensures
            r == self.is_running(),
    {
        self.action_running
    }

    /// Claims the guard for an install; false when an action is running.
    pub fn begin_install(&mut self) -> (r: bool)
        ensures
            r == !old(self).is_running(),
            final(self).is_running(),
    {
        self.claim()
    }

    /// Claims the guard for a login; false when an action is running.
    pub fn begin_login(&mut self) -> (r: bool)
        ensures
            r == !old(self).is_running(),
            final(self).is_running(),
    {
        self.claim()
    }

    fn claim(&mut self) -> (r: bool)
        ensures
            r == !old(self).is_running(),
            final(self).is_running(),
    {
        if self.action_running {
            false
        } else {
            self.action_running = true;
            true
        }
    }

    /// Releases the guard once the running action has ended.
    pub fn finish(&mut self)
        ensures
            !final(self).is_running(),
    {
        self.action_running = false;
    }
}

/// A setup receipt carries exactly these values.
pub open spec fn is_setup_receipt(
    r: CodexSetupActionReceipt,
    status: CodexSetupActionStatus,
    diagnostic: Seq<char>,
) -> bool {
    &&& r.status == status
    &&& r.command_surface@ == "codex standalone installer"@
    &&& r.command_output_redacted
    &&& r.diagnostic@ == diagnostic
}

/// A login receipt carries exactly these values.
pub open spec fn is_login_receipt(
    r: CodexLoginLaunchReceipt,
    status: CodexLoginLaunchStatus,
    diagnostic: Seq<char>,
) -> bool {
    &&& r.status == status
    &&& r.command_surface@ == "codex login"@
    &&& r.command_output_redacted
    &&& r.diagnostic@ == diagnostic
}

pub fn setup_receipt(status: CodexSetupActionStatus, diagnostic: &str) -> (r:
    CodexSetupActionReceipt)
    ensures
        is_setup_receipt(r, status, diagnostic@),
{
    CodexSetupActionReceipt {
        status,
        command_surface: owned("codex standalone installer"),
        command_output_redacted: true,
        diagnostic: owned(diagnostic),
    }
}

pub fn login_receipt(status: CodexLoginLaunchStatus, diagnostic: &str) -> (r:
    CodexLoginLaunchReceipt)
    ensures
        is_login_receipt(r, status, diagnostic@),
{
    CodexLoginLaunchReceipt {
        status,
        command_surface: owned("codex login"),
        command_output_redacted: true,
        diagnostic: owned(diagnostic),
    }
}

/// The receipt for each outcome of the installer, given whether the CLI
/// could be found once the installer reported success.
pub open spec fn install_outcome_receipt(
    r: CodexSetupActionReceipt,
    run: CodexSetupActionRun,
    found_after_install: bool,
) -> bool {
    match run {
        CodexSetupActionRun::Installed(_) => if found_after_install {
            is_setup_receipt(
                r,
                CodexSetupActionStatus::Installed,
                "Codex CLI installed successfully."@,
            )
        } else {
            is_setup_receipt(
                r,
                CodexSetupActionStatus::Failed,
                "Codex CLI setup completed but the CLI was not found."@,
            )
        },
        CodexSetupActionRun::AlreadyInstalled => is_setup_receipt(
            r,
            CodexSetupActionStatus::AlreadyInstalled,
            "Codex CLI is already installed."@,
        ),
        CodexSetupActionRun::MissingCurl => is_setup_receipt(
            r,
            CodexSetupActionStatus::Failed,
            "Codex CLI installer could not start."@,
        ),
        CodexSetupActionRun::CurlFailed(_) => is_setup_receipt(
            r,
            CodexSetupActionStatus::Failed,
            "Codex CLI installer download failed."@,
        ),
        CodexSetupActionRun::InstallerFailed(_) => is_setup_receipt(
            r,
            CodexSetupActionStatus::Failed,
            "Codex CLI installer failed."@,
        ),
        CodexSetupActionRun::TimedOut(_) => is_setup_receipt(
            r,
            CodexSetupActionStatus::Timeout,
            "Codex CLI installer timed out and was stopped."@,
        ),
        CodexSetupActionRun::Unsupported => is_setup_receipt(
            r,
            CodexSetupActionStatus::Unsupported,
            "Codex CLI setup is unsupported on this platform."@,
        ),
        CodexSetupActionRun::Failed(_) => is_setup_receipt(
            r,
            CodexSetupActionStatus::Failed,
            "Codex CLI setup failed."@,
        ),
    }
}

/// An installer outcome's receipt reports an install exactly when the
/// installer reported one and the CLI was found afterwards; then it says so
/// in words. A reported install whose CLI cannot be found is a failure.
pub proof fn law_install_receipt_reports_a_found_install(
    r: CodexSetupActionReceipt,
    run: CodexSetupActionRun,
    found_after_install: bool,
)
    requires
        install_outcome_receipt(r, run, found_after_install),
    ensures
        (r.status == CodexSetupActionStatus::Installed) == (run is Installed && found_after_install),
        run is Installed && found_after_install ==> r.diagnostic@
            == "Codex CLI installed successfully."@,
        run is Installed && !found_after_install ==> r.status == CodexSetupActionStatus::Failed,
        r.command_surface@ == "codex standalone installer"@,
        r.command_output_redacted,
{
}

/// The receipt for an installer outcome.
pub fn install_receipt_for_run(run: &CodexSetupActionRun, found_after_install: bool) -> (r:
    CodexSetupActionReceipt)
    ensures
        install_outcome_receipt(r, *run, found_after_install),
        (r.status == CodexSetupActionStatus::Installed) == (*run is Installed && found_after_install),
{
    match run {
        CodexSetupActionRun::Installed(_) => {
            if found_after_install {
                setup_receipt(CodexSetupActionStatus::Installed, "Codex CLI installed successfully.")
            } else {
                setup_receipt(
                    CodexSetupActionStatus::Failed,
                    "Codex CLI setup completed but the CLI was not found.",
                )
            }
        },
        CodexSetupActionRun::AlreadyInstalled => setup_receipt(
            CodexSetupActionStatus::AlreadyInstalled,
            "Codex CLI is already installed.",
        ),
        CodexSetupActionRun::MissingCurl => setup_receipt(
            CodexSetupActionStatus::Failed,
            "Codex CLI installer could not start.",
        ),
        CodexSetupActionRun::CurlFailed(_) => setup_receipt(
            CodexSetupActionStatus::Failed,
            "Codex CLI installer download failed.",
        ),
        CodexSetupActionRun::InstallerFailed(_) => setup_receipt(
            CodexSetupActionStatus::Failed,
            "Codex CLI installer failed.",
        ),
        CodexSetupActionRun::TimedOut(_) => setup_receipt(
            CodexSetupActionStatus::Timeout,
            "Codex CLI installer timed out and was stopped.",
        ),
        CodexSetupActionRun::Unsupported => setup_receipt(
            CodexSetupActionStatus::Unsupported,
            "Codex CLI setup is unsupported on this platform.",
        ),
        CodexSetupActionRun::Failed(_) => setup_receipt(
            CodexSetupActionStatus::Failed,
            "Codex CLI setup failed.",
        ),
    }
}

/// Installs Codex CLI through the runner unless it is already installed or
/// another setup action holds the guard. The guard is held only while the
/// installer runs, so it is left as it was found.
pub fn install_codex_cli_with_runner<R: CodexAuthCommandRunner>(
    options: &CodexAuthProbeOptions,
    runner: &R,
    guard: &mut CodexSetupActionGuard,
    timeout_millis: u64,
) -> (r: CodexSetupActionReceipt)
    ensures
        final(guard).is_running() == old(guard).is_running(),
        exists|found: Option<Seq<char>>|
            #[trigger] resolution(
                runner,
                options.spec_executable_name(),
                options.spec_search_paths(),
                found,
            ) && if found is Some {
                is_setup_receipt(
                    r,
                    CodexSetupActionStatus::AlreadyInstalled,
                    "Codex CLI is already installed."@,
                )
            } else if old(guard).is_running() {
                is_setup_receipt(
                    r,
                    CodexSetupActionStatus::AlreadyRunning,
                    "Codex CLI setup is already running."@,
                )
            } else {
                exists|run: CodexSetupActionRun|
                    #[trigger] call_ensures(R::run_codex_install, (runner, timeout_millis), run)
                        && if run is Installed {
                        exists|after: Option<Seq<char>>|
                            #[trigger] resolution(
                                runner,
                                options.spec_executable_name(),
                                options.spec_search_paths(),
                                after,
                            ) && install_outcome_receipt(r, run, after is Some)
                    } else {
                        install_outcome_receipt(r, run, false)
                    }
            },
{
    if resolve_executable(options.executable_name(), options.search_paths(), runner).is_some() {
        return setup_receipt(
            CodexSetupActionStatus::AlreadyInstalled,
            "Codex CLI is already installed.",
        );
    }
    if !guard.begin_install() {
        return setup_receipt(
            CodexSetupActionStatus::AlreadyRunning,
            "Codex CLI setup is already running.",
        );
    }
    let run = runner.run_codex_install(timeout_millis);
    let after = match &run {
        CodexSetupActionRun::Installed(_) => resolve_executable(
            options.executable_name(),
            options.search_paths(),
            runner,
        ),
        _ => None,
    };
    let found = after.is_some();
    let r = install_receipt_for_run(&run, found);
    guard.finish();
    assert(call_ensures(R::run_codex_install, (runner, timeout_millis), run));
    assert(install_outcome_receipt(r, run, run is Installed && opt_text_of(after) is Some));
    r
}

/// The receipt for each outcome of a login launch.
pub open spec fn login_outcome_receipt(r: CodexLoginLaunchReceipt, run: CodexLoginLaunchRun) -> bool {
    match run {
        CodexLoginLaunchRun::Launched => is_login_receipt(
            r,
            CodexLoginLaunchStatus::Launched,
            "Codex login started successfully."@,
        ),
        CodexLoginLaunchRun::MissingCli => is_login_receipt(
            r,
            CodexLoginLaunchStatus::MissingCli,
            "Codex CLI was not found on PATH."@,
        ),
        CodexLoginLaunchRun::FailedToStart(_) => is_login_receipt(
            r,
            CodexLoginLaunchStatus::FailedToStart,
            "Codex login could not be started."@,
        ),
    }
}

/// A launch outcome's receipt names the outcome: launched exactly when the
/// login was launched, missing exactly when the CLI was missing, and a
/// failed start otherwise.
pub proof fn law_login_receipt_names_the_outcome(r: CodexLoginLaunchReceipt, run: CodexLoginLaunchRun)
    requires
        login_outcome_receipt(r, run),
    ensures
        (r.status == CodexLoginLaunchStatus::Launched) == (run is Launched),
        (r.status == CodexLoginLaunchStatus::MissingCli) == (run is MissingCli),
        (r.status == CodexLoginLaunchStatus::FailedToStart) == (run is FailedToStart),
        r.command_output_redacted,
{
}

/// The receipt for a login launch outcome.
pub fn login_receipt_for_run(run: &CodexLoginLaunchRun) -> (r: CodexLoginLaunchReceipt)
    ensures
        login_outcome_receipt(r, *run),
        (r.status == CodexLoginLaunchStatus::Launched) == (*run is Launched),
        (r.status == CodexLoginLaunchStatus::MissingCli) == (*run is MissingCli),
{
    match run {
        CodexLoginLaunchRun::Launched => login_receipt(
            CodexLoginLaunchStatus::Launched,
            "Codex login started successfully.",
        ),
        CodexLoginLaunchRun::MissingCli => login_receipt(
            CodexLoginLaunchStatus::MissingCli,
            "Codex CLI was not found on PATH.",
        ),
        CodexLoginLaunchRun::FailedToStart(_) => login_receipt(
            CodexLoginLaunchStatus::FailedToStart,
            "Codex login could not be started.",
        ),
    }
}

/// Starts `codex login` through the runner unless the CLI is missing or
/// another setup action holds the guard. A launched login keeps the guard
/// until its supervisor calls [`CodexSetupActionGuard::finish`]; any other
/// outcome releases it at once.
pub fn start_codex_login_with_runner<R: CodexAuthCommandRunner>(
    options: &CodexAuthProbeOptions,
    runner: &R,
    guard: &mut CodexSetupActionGuard,
    timeout_millis: u64,
) -> (r: CodexLoginLaunchReceipt)
    ensures
        exists|found: Option<Seq<char>>|
            #[trigger] resolution(
                runner,
                options.spec_executable_name(),
                options.spec_search_paths(),
                found,
            ) && match found {
                None => is_login_receipt(
                    r,
                    CodexLoginLaunchStatus::MissingCli,
                    "Codex CLI was not found on PATH."@,
                ) && final(guard).is_running() == old(guard).is_running(),
                Some(e) => if old(guard).is_running() {
                    is_login_receipt(
                        r,
                        CodexLoginLaunchStatus::AlreadyRunning,
                        "Codex login is already running."@,
                    ) && final(guard).is_running()
                } else {
                    exists|c: String, run: CodexLoginLaunchRun|
                        c@ == e && #[trigger] call_ensures(
                            R::launch_codex_login,
                            (runner, &c, timeout_millis),
                            run,
                        ) && login_outcome_receipt(r, run) && (final(guard).is_running()
                            <==> run is Launched)
                },
            },
{
    let executable = match resolve_executable(
        options.executable_name(),
        options.search_paths(),
        runner,
    ) {
        Some(executable) => executable,
        None => {
            return login_receipt(
                CodexLoginLaunchStatus::MissingCli,
                "Codex CLI was not found on PATH.",
            );
        },
    };
    if !guard.begin_login() {
        return login_receipt(
            CodexLoginLaunchStatus::AlreadyRunning,
            "Codex login is already running.",
        );
    }
    let run = runner.launch_codex_login(&executable, timeout_millis);
    let r = login_receipt_for_run(&run);
    assert(call_ensures(R::launch_codex_login, (runner, &executable, timeout_millis), run));
    assert(login_outcome_receipt(r, run));
    match run {
        CodexLoginLaunchRun::Launched => {},
        _ => guard.finish(),
    }
    r
}

} // verus!
