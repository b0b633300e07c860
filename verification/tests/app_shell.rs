use morrow::app_shell::{
    menu_model, sync_now_event_allowed, AppMode, AppShellState, AppState, AutomaticSyncStatusLabel,
};

#[test]
fn menu_model_reports_setup_needed_by_default() {
    let state = AppShellState::default();

    let menu = menu_model(&state);

    assert_eq!(menu.status_kind, "setup-needed");
    assert_eq!(menu.status_label, "Setup needed");
    assert_eq!(menu.pause_resume_label, "Disable Sync Now");
    assert!(!menu.sync_now_enabled);
    assert!(!sync_now_event_allowed(&state));
    assert_eq!(menu.settings_label, "Settings");
    assert_eq!(menu.open_calendar_label, "Open Calendar");
    assert_eq!(menu.open_reminders_label, "Open Reminders");
    assert_eq!(menu.quit_label, "Quit Morrow");
    assert_eq!(menu.pending_proposal_label, "0");
    assert_eq!(menu.automatic_sync_label, "Automatic Sync: Off");
    assert!(!menu.automatic_sync_enabled);
    assert_eq!(menu.automatic_sync_detail, "Automatic sync is off.");
}

#[test]
fn menu_model_reports_scanning_after_setup_complete() {
    let state = AppShellState {
        onboarding_complete: true,
        pending_proposal_count: 12,
        ..AppShellState::default()
    };

    let menu = menu_model(&state);

    assert_eq!(menu.status_kind, "scanning");
    assert_eq!(menu.status_label, "Ready");
    assert_eq!(
        menu.detail,
        "Ready. Use Sync Now to reconcile calendars and scan selected chats."
    );
    assert!(menu.sync_now_enabled);
    assert!(sync_now_event_allowed(&state));
    assert_eq!(menu.pause_resume_label, "Disable Sync Now");
    assert_eq!(menu.pending_proposal_label, "9+");
}

#[test]
fn menu_model_disables_sync_when_paused() {
    let state = AppShellState {
        mode: AppMode::Paused,
        onboarding_complete: true,
        pending_proposal_count: 8,
        ..AppShellState::default()
    };

    let menu = menu_model(&state);

    assert_eq!(menu.status_label, "Sync Now disabled");
    assert_eq!(menu.status_kind, "paused");
    assert_eq!(menu.detail, "Sync Now is disabled on this Mac.");
    assert!(!menu.sync_now_enabled);
    assert!(!sync_now_event_allowed(&state));
    assert_eq!(menu.pause_resume_label, "Enable Sync Now");
    assert_eq!(menu.pending_proposal_label, "8");
}

#[test]
fn menu_model_reports_error_detail_after_setup_complete() {
    let state = AppShellState {
        mode: AppMode::Error,
        error_message: Some("Full Disk Access is unavailable".to_owned()),
        onboarding_complete: true,
        ..AppShellState::default()
    };

    let menu = menu_model(&state);

    assert_eq!(menu.status_label, "Error");
    assert_eq!(menu.status_kind, "error");
    assert_eq!(menu.detail, "Full Disk Access is unavailable");
    assert_eq!(menu.pause_resume_label, "Disable Sync Now");
    assert!(menu.sync_now_enabled);
    assert!(sync_now_event_allowed(&state));
}

#[test]
fn menu_model_gates_error_sync_until_setup_complete() {
    let state = AppShellState {
        mode: AppMode::Error,
        error_message: Some("Full Disk Access is unavailable".to_owned()),
        ..AppShellState::default()
    };

    let menu = menu_model(&state);

    assert_eq!(menu.status_label, "Error");
    assert_eq!(menu.pause_resume_label, "Disable Sync Now");
    assert!(!menu.sync_now_enabled);
    assert!(!sync_now_event_allowed(&state));
}

#[test]
fn menu_model_reports_automatic_sync_on_label() {
    let state = AppShellState {
        automatic_sync_enabled: true,
        automatic_sync_status_label: AutomaticSyncStatusLabel::On,
        automatic_sync_detail: "Next run at 09:30.".to_owned(),
        ..AppShellState::default()
    };

    let menu = menu_model(&state);

    assert_eq!(menu.automatic_sync_label, "Automatic Sync: On");
    assert!(menu.automatic_sync_enabled);
    assert_eq!(menu.automatic_sync_detail, "Next run at 09:30.");
}

#[test]
fn menu_model_reports_automatic_sync_cooling_down_label() {
    let state = AppShellState {
        automatic_sync_enabled: true,
        automatic_sync_status_label: AutomaticSyncStatusLabel::CoolingDown,
        automatic_sync_detail: "Retrying after a transient failure.".to_owned(),
        ..AppShellState::default()
    };

    let menu = menu_model(&state);

    assert_eq!(menu.automatic_sync_label, "Automatic Sync: Cooling Down");
    assert!(menu.automatic_sync_enabled);
    assert_eq!(
        menu.automatic_sync_detail,
        "Retrying after a transient failure."
    );
}

#[test]
fn menu_model_reports_automatic_sync_needs_action_label() {
    let state = AppShellState {
        automatic_sync_enabled: true,
        automatic_sync_status_label: AutomaticSyncStatusLabel::NeedsAction,
        automatic_sync_detail: "Choose at least one chat before automatic sync can run.".to_owned(),
        ..AppShellState::default()
    };

    let menu = menu_model(&state);

    assert_eq!(menu.automatic_sync_label, "Automatic Sync: Needs Action");
    assert!(menu.automatic_sync_enabled);
    assert_eq!(
        menu.automatic_sync_detail,
        "Choose at least one chat before automatic sync can run."
    );
}

#[test]
fn error_menu_without_message_asks_for_attention() {
    let state = AppShellState {
        mode: AppMode::Error,
        ..AppShellState::default()
    };

    let menu = menu_model(&state);

    assert_eq!(menu.detail, "Morrow needs attention.");
    assert_eq!(menu.pending_proposal_label, "0");
}

#[test]
fn scanning_menu_disables_sync_while_running() {
    let state = AppShellState {
        onboarding_complete: true,
        sync_now_running: true,
        pending_proposal_count: 9,
        ..AppShellState::default()
    };

    let menu = menu_model(&state);

    assert!(!menu.sync_now_enabled);
    assert_eq!(menu.pending_proposal_label, "9+");
}

#[test]
fn toggling_twice_returns_to_scanning_and_clears_error() {
    let mut app = AppState::new();
    app.replace(AppShellState::lock_error("lock failed".to_owned()))
        .unwrap();

    let paused = app.toggle_pause_resume().unwrap();
    assert_eq!(paused.mode, AppMode::Paused);
    assert_eq!(paused.error_message, None);

    let resumed = app.toggle_pause_resume().unwrap();
    assert_eq!(resumed.mode, AppMode::Scanning);
    assert_eq!(resumed.error_message, None);
    assert_eq!(app.snapshot().unwrap().mode, AppMode::Scanning);
}

#[test]
fn pause_then_resume_keeps_other_fields() {
    let state = AppShellState {
        onboarding_complete: true,
        pending_proposal_count: 3,
        automatic_sync_detail: "Next run at 09:30.".to_owned(),
        ..AppShellState::default()
    };

    let back = state.pause().resume();

    assert_eq!(back.mode, AppMode::Scanning);
    assert!(back.onboarding_complete);
    assert_eq!(back.pending_proposal_count, 3);
    assert_eq!(back.automatic_sync_detail, "Next run at 09:30.");
    assert_eq!(menu_model(&back).pending_proposal_label, "3");
}
