//! The menu-bar shell: the app state the UI reports, and the menu model
//! derived from it.
use vstd::prelude::*;

use crate::text::{concat2, decimal, decimal_string, owned};

verus! {

#[derive(Debug, Clone, Copy, PartialEq, Eq, Structural)]
pub enum AppMode {
    Scanning,
    Paused,
    Error,
}

#[derive(Debug, Clone, Copy, PartialEq, Eq, Structural)]
pub enum AutomaticSyncStatusLabel {
    Off,
    On,
    CoolingDown,
    NeedsAction,
}

/// The text shown for each automatic sync status.
pub open spec fn automatic_sync_label_text(label: AutomaticSyncStatusLabel) -> Seq<char> {
    match label {
        AutomaticSyncStatusLabel::Off => "Off"@,
        AutomaticSyncStatusLabel::On => "On"@,
        AutomaticSyncStatusLabel::CoolingDown => "Cooling Down"@,
        AutomaticSyncStatusLabel::NeedsAction => "Needs Action"@,
    }
}

impl AutomaticSyncStatusLabel {
    pub fn as_str(self) -> (r: &'static str)
        ensures
            r@ == automatic_sync_label_text(self),
    {
        match self {
            AutomaticSyncStatusLabel::Off => "Off",
            AutomaticSyncStatusLabel::On => "On",
            AutomaticSyncStatusLabel::CoolingDown => "Cooling Down",
            AutomaticSyncStatusLabel::NeedsAction => "Needs Action",
        }
    }
}

#[derive(Debug)]
pub struct AppShellState {
    pub mode: AppMode,
    pub error_message: Option<String>,
    pub onboarding_complete: bool,
    pub pending_proposal_count: u32,
    pub sync_now_running: bool,
    pub automatic_sync_enabled: bool,
    pub automatic_sync_status_label: AutomaticSyncStatusLabel,
    pub automatic_sync_detail: String,
}

/// The mathematical content of an [`AppShellState`].
pub struct AppShellStateView {
    pub mode: AppMode,
    pub error_message: Option<Seq<char>>,
    pub onboarding_complete: bool,
    pub pending_proposal_count: u32,
    pub sync_now_running: bool,
    pub automatic_sync_enabled: bool,
    pub automatic_sync_status_label: AutomaticSyncStatusLabel,
    pub automatic_sync_detail: Seq<char>,
}

pub open spec fn opt_text(o: Option<String>) -> Option<Seq<char>> {
    match o {
        Some(s) => Some(s@),
        None => None,
    }
}

impl View for AppShellState {
    type V = AppShellStateView;

    open spec fn view(&self) -> AppShellStateView {
        AppShellStateView {
            mode: self.mode,
            error_message: opt_text(self.error_message),
            onboarding_complete: self.onboarding_complete,
            pending_proposal_count: self.pending_proposal_count,
            sync_now_running: self.sync_now_running,
            automatic_sync_enabled: self.automatic_sync_enabled,
            automatic_sync_status_label: self.automatic_sync_status_label,
            automatic_sync_detail: self.automatic_sync_detail@,
        }
    }
}

/// The shell state at start-up: scanning, setup incomplete, automatic sync off.
pub open spec fn default_shell_state() -> AppShellStateView {
    AppShellStateView {
        mode: AppMode::Scanning,
        error_message: None,
        onboarding_complete: false,
        pending_proposal_count: 0,
        sync_now_running: false,
        automatic_sync_enabled: false,
        automatic_sync_status_label: AutomaticSyncStatusLabel::Off,
        automatic_sync_detail: "Automatic sync is off."@,
    }
}

/// `s` with its mode replaced and its error message cleared.
pub open spec fn with_mode_cleared(s: AppShellStateView, mode: AppMode) -> AppShellStateView {
    AppShellStateView { mode, error_message: None, ..s }
}

/// The state after a pause request.
pub open spec fn paused_state(s: AppShellStateView) -> AppShellStateView {
    with_mode_cleared(s, AppMode::Paused)
}

/// The state after a resume request.
pub open spec fn resumed_state(s: AppShellStateView) -> AppShellStateView {
    with_mode_cleared(s, AppMode::Scanning)
}

/// The state after the pause/resume toggle: scanning and error states pause,
/// a paused state resumes.
pub open spec fn toggled_state(s: AppShellStateView) -> AppShellStateView {
    match s.mode {
        AppMode::Scanning | AppMode::Error => paused_state(s),
        AppMode::Paused => resumed_state(s),
    }
}

/// The state reported when the shell state lock is unusable.
pub open spec fn lock_error_state(message: Seq<char>) -> AppShellStateView {
    AppShellStateView {
        mode: AppMode::Error,
        error_message: Some(message),
        ..default_shell_state()
    }
}

fn clone_opt_string(o: &Option<String>) -> (r: Option<String>)
    ensures
        opt_text(r) == opt_text(*o),
{
    match o {
        Some(s) => Some(s.clone()),
        None => None,
    }
}

impl Default for AppShellState {
    fn default() -> (r: Self)
        ensures
            r@ == default_shell_state(),
    {
        AppShellState {
            mode: AppMode::Scanning,
            error_message: None,
            onboarding_complete: false,
            pending_proposal_count: 0,
            sync_now_running: false,
            automatic_sync_enabled: false,
            automatic_sync_status_label: AutomaticSyncStatusLabel::Off,
            automatic_sync_detail: owned("Automatic sync is off."),
        }
    }
}

impl AppShellState {
    /// A copy of this state.
    pub fn duplicate(&self) -> (r: Self)
        ensures
            r@ == self@,
    {
        AppShellState {
            mode: self.mode,
            error_message: clone_opt_string(&self.error_message),
            onboarding_complete: self.onboarding_complete,
            pending_proposal_count: self.pending_proposal_count,
            sync_now_running: self.sync_now_running,
            automatic_sync_enabled: self.automatic_sync_enabled,
            automatic_sync_status_label: self.automatic_sync_status_label,
            automatic_sync_detail: self.automatic_sync_detail.clone(),
        }
    }

    fn with_mode(&self, mode: AppMode) -> (r: Self)
        ensures
            r@ == with_mode_cleared(self@, mode),
    {
        AppShellState {
            mode,
            error_message: None,
            onboarding_complete: self.onboarding_complete,
            pending_proposal_count: self.pending_proposal_count,
            sync_now_running: self.sync_now_running,
            automatic_sync_enabled: self.automatic_sync_enabled,
            automatic_sync_status_label: self.automatic_sync_status_label,
            automatic_sync_detail: self.automatic_sync_detail.clone(),
        }
    }

    pub fn pause(&self) -> (r: Self)
        ensures
            r@ == paused_state(self@),
    {
        self.with_mode(AppMode::Paused)
    }

    pub fn resume(&self) -> (r: Self)
        ensures
            r@ == resumed_state(self@),
    {
        self.with_mode(AppMode::Scanning)
    }

    pub fn lock_error(message: String) -> (r: Self)
        ensures
            r@ == lock_error_state(message@),
    {
        AppShellState {
            mode: AppMode::Error,
            error_message: Some(message),
            onboarding_complete: false,
            pending_proposal_count: 0,
            sync_now_running: false,
            automatic_sync_enabled: false,
            automatic_sync_status_label: AutomaticSyncStatusLabel::Off,
            automatic_sync_detail: owned("Automatic sync is off."),
        }
    }
}

#[derive(Debug)]
pub struct MenuModel {
    pub status_kind: String,
    pub status_label: String,
    pub detail: String,
    pub pause_resume_label: String,
    pub sync_now_enabled: bool,
    pub pending_proposal_label: String,
    pub settings_label: String,
    pub open_calendar_label: String,
    pub open_reminders_label: String,
    pub automatic_sync_enabled: bool,
    pub automatic_sync_label: String,
    pub automatic_sync_detail: String,
    pub quit_label: String,
}

/// The mathematical content of a [`MenuModel`].
pub struct MenuModelView {
    pub status_kind: Seq<char>,
    pub status_label: Seq<char>,
    pub detail: Seq<char>,
    pub pause_resume_label: Seq<char>,
    pub sync_now_enabled: bool,
    pub pending_proposal_label: Seq<char>,
    pub settings_label: Seq<char>,
    pub open_calendar_label: Seq<char>,
    pub open_reminders_label: Seq<char>,
    pub automatic_sync_enabled: bool,
    pub automatic_sync_label: Seq<char>,
    pub automatic_sync_detail: Seq<char>,
    pub quit_label: Seq<char>,
}

impl View for MenuModel {
    type V = MenuModelView;

    open spec fn view(&self) -> MenuModelView {
        MenuModelView {
            status_kind: self.status_kind@,
            status_label: self.status_label@,
            detail: self.detail@,
            pause_resume_label: self.pause_resume_label@,
            sync_now_enabled: self.sync_now_enabled,
            pending_proposal_label: self.pending_proposal_label@,
            settings_label: self.settings_label@,
            open_calendar_label: self.open_calendar_label@,
            open_reminders_label: self.open_reminders_label@,
            automatic_sync_enabled: self.automatic_sync_enabled,
            automatic_sync_label: self.automatic_sync_label@,
            automatic_sync_detail: self.automatic_sync_detail@,
            quit_label: self.quit_label@,
        }
    }
}

/// The pending-proposal badge: the count, capped at "9+".
pub open spec fn pending_proposal_text(count: u32) -> Seq<char> {
    if count >= 9 {
        "9+"@
    } else {
        decimal(count as nat)
    }
}

/// The automatic sync menu item text.
pub open spec fn automatic_sync_menu_text(label: AutomaticSyncStatusLabel) -> Seq<char> {
    "Automatic Sync: "@ + automatic_sync_label_text(label)
}

/// A menu with the given status texts and Sync Now availability; the other
/// entries are fixed or copied from the state.
pub open spec fn menu_with(
    s: AppShellStateView,
    status_kind: Seq<char>,
    status_label: Seq<char>,
    detail: Seq<char>,
    pause_resume_label: Seq<char>,
    sync_now_enabled: bool,
) -> MenuModelView {
    MenuModelView {
        status_kind,
        status_label,
        detail,
        pause_resume_label,
        sync_now_enabled,
        pending_proposal_label: pending_proposal_text(s.pending_proposal_count),
        settings_label: "Settings"@,
        open_calendar_label: "Open Calendar"@,
        open_reminders_label: "Open Reminders"@,
        automatic_sync_enabled: s.automatic_sync_enabled,
        automatic_sync_label: automatic_sync_menu_text(s.automatic_sync_status_label),
        automatic_sync_detail: s.automatic_sync_detail,
        quit_label: "Quit Morrow"@,
    }
}

/// The menu for a scanning shell: ready once setup is complete, otherwise
/// asking for setup.
pub open spec fn scanning_menu(s: AppShellStateView) -> MenuModelView {
    if s.onboarding_complete {
        menu_with(
            s,
            "scanning"@,
            "Ready"@,
            "Ready. Use Sync Now to reconcile calendars and scan selected chats."@,
            "Disable Sync Now"@,
            !s.sync_now_running,
        )
    } else {
        menu_with(
            s,
            "setup-needed"@,
            "Setup needed"@,
            "Complete setup and choose chats before Sync Now can scan."@,
            "Disable Sync Now"@,
            false,
        )
    }
}

/// The menu model for every shell state.
pub open spec fn menu_for(s: AppShellStateView) -> MenuModelView {
    match s.mode {
        AppMode::Scanning => scanning_menu(s),
        AppMode::Paused => menu_with(
            s,
            "paused"@,
            "Sync Now disabled"@,
            "Sync Now is disabled on this Mac."@,
            "Enable Sync Now"@,
            false,
        ),
        AppMode::Error => menu_with(
            s,
            "error"@,
            "Error"@,
            match s.error_message {
                Some(m) => m,
                None => "Morrow needs attention."@,
            },
            "Disable Sync Now"@,
            s.onboarding_complete && !s.sync_now_running,
        ),
    }
}

fn build_menu(
    state: &AppShellState,
    status_kind: &str,
    status_label: &str,
    detail: String,
    pause_resume_label: &str,
    sync_now_enabled: bool,
) -> (m: MenuModel)
    ensures
        m@ == menu_with(
            state@,
            status_kind@,
            status_label@,
            detail@,
            pause_resume_label@,
            sync_now_enabled,
        ),
{
    MenuModel {
        status_kind: owned(status_kind),
        status_label: owned(status_label),
        detail,
        pause_resume_label: owned(pause_resume_label),
        sync_now_enabled,
        pending_proposal_label: format_pending_proposal_count(state.pending_proposal_count),
        settings_label: owned("Settings"),
        open_calendar_label: owned("Open Calendar"),
        open_reminders_label: owned("Open Reminders"),
        automatic_sync_enabled: state.automatic_sync_enabled,
        automatic_sync_label: automatic_sync_menu_label(state.automatic_sync_status_label),
        automatic_sync_detail: state.automatic_sync_detail.clone(),
        quit_label: owned("Quit Morrow"),
    }
}

pub fn menu_model(state: &AppShellState) -> (m: MenuModel)
    ensures
        m@ == menu_for(state@),
{
    match state.mode {
        AppMode::Scanning => scanning_menu_model(state),
        AppMode::Paused => build_menu(
            state,
            "paused",
            "Sync Now disabled",
            owned("Sync Now is disabled on this Mac."),
            "Enable Sync Now",
            false,
        ),
        AppMode::Error => {
            let detail = match &state.error_message {
                Some(message) => message.clone(),
                None => owned("Morrow needs attention."),
            };
            build_menu(
                state,
                "error",
                "Error",
                detail,
                "Disable Sync Now",
                state.onboarding_complete && !state.sync_now_running,
            )
        },
    }
}

/// Whether a Sync Now request is honoured in `state`: exactly when the menu
/// offers Sync Now.
pub fn sync_now_event_allowed(state: &AppShellState) -> (r: bool)
    ensures
        r == menu_for(state@).sync_now_enabled,
        r == (state.mode != AppMode::Paused && state.onboarding_complete
            && !state.sync_now_running),
{
    menu_model(state).sync_now_enabled
}

fn scanning_menu_model(state: &AppShellState) -> (m: MenuModel)
    requires
        state.mode == AppMode::Scanning,
    ensures
        m@ == scanning_menu(state@),
{
    if state.onboarding_complete {
        return build_menu(
            state,
            "scanning",
            "Ready",
            owned("Ready. Use Sync Now to reconcile calendars and scan selected chats."),
            "Disable Sync Now",
            !state.sync_now_running,
        );
    }
    build_menu(
        state,
        "setup-needed",
        "Setup needed",
        owned("Complete setup and choose chats before Sync Now can scan."),
        "Disable Sync Now",
        false,
    )
}

fn automatic_sync_menu_label(status_label: AutomaticSyncStatusLabel) -> (r: String)
    ensures
        r@ == automatic_sync_menu_text(status_label),
{
    concat2("Automatic Sync: ", status_label.as_str())
}

fn format_pending_proposal_count(count: u32) -> (r: String)
    ensures
        r@ == pending_proposal_text(count),
{
    if count >= 9 {
        owned("9+")
    } else {
        decimal_string(count as u64)
    }
}

/// The shared shell state held by the app.
#[derive(Debug)]
pub struct AppState {
    state: AppShellState,
}

impl View for AppState {
    type V = AppShellStateView;

    closed spec fn view(&self) -> AppShellStateView {
        self.state@
    }
}

impl AppState {
    pub fn new() -> (r: Self)
        ensures
            r@ == default_shell_state(),
    {
        AppState { state: AppShellState::default() }
    }

    /// A copy of the current shell state.
    pub fn snapshot(&self) -> (r: Result<AppShellState, String>)
        ensures
            r matches Ok(s) && s@ == self@,
    {
        Ok(self.state.duplicate())
    }

    /// Replaces the shell state and returns the new state.
    pub fn replace(&mut self, next_state: AppShellState) -> (r: Result<AppShellState, String>)
        ensures
            final(self)@ == next_state@,
            r matches Ok(s) && s@ == next_state@,
    {
        self.state = next_state;
        Ok(self.state.duplicate())
    }

    /// Pauses a scanning or failed shell, resumes a paused one.
    pub fn toggle_pause_resume(&mut self) -> (r: Result<AppShellState, String>)
        ensures
            final(self)@ == toggled_state(old(self)@),
            r matches Ok(s) && s@ == final(self)@,
    {
        let next = match self.state.mode {
            AppMode::Scanning | AppMode::Error => self.state.pause(),
            AppMode::Paused => self.state.resume(),
        };
        self.state = next;
        Ok(self.state.duplicate())
    }
}

/// Pausing and then resuming leaves a shell scanning with every other field
/// as it was, except that any error message is cleared.
pub proof fn law_pause_then_resume(s: AppShellStateView)
    ensures
        resumed_state(paused_state(s)) == with_mode_cleared(s, AppMode::Scanning),
{
}

/// Toggling twice brings any shell to scanning with its error cleared and
/// all other fields unchanged; a paused shell comes back paused.
pub proof fn law_toggle_twice(s: AppShellStateView)
    ensures
        toggled_state(toggled_state(s)) == match s.mode {
            AppMode::Paused => with_mode_cleared(s, AppMode::Paused),
            _ => with_mode_cleared(s, AppMode::Scanning),
        },
{
}

/// A paused shell never offers Sync Now, whatever else holds.
pub proof fn law_paused_disables_sync_now(s: AppShellStateView)
    ensures
        !menu_for(paused_state(s)).sync_now_enabled,
{
}

/// Sync Now is never offered before setup is complete.
pub proof fn law_sync_now_requires_setup(s: AppShellStateView)
    requires
        !s.onboarding_complete,
    ensures
        !menu_for(s).sync_now_enabled,
{
}

} // verus!
