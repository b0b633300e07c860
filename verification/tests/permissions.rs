use morrow::permissions::{
    map_permission_status, open_privacy_settings, privacy_settings_receipt, settings_exit_failed, OpenPrivacySettingsError,
    OpenPrivacySettingsRequest, PermissionKind, PermissionOutcome, PermissionState,
    PrivacySettingsPane,
};

#[test]
fn privacy_settings_panes_map_to_macos_privacy_urls() {
    let cases = [
        (
            PrivacySettingsPane::FullDiskAccess,
            "x-apple.systempreferences:com.apple.preference.security?Privacy_AllFiles",
        ),
        (
            PrivacySettingsPane::Calendar,
            "x-apple.systempreferences:com.apple.preference.security?Privacy_Calendars",
        ),
        (
            PrivacySettingsPane::Reminders,
            "x-apple.systempreferences:com.apple.preference.security?Privacy_Reminders",
        ),
    ];

    for (pane, expected_url) in cases {
        assert_eq!(pane.settings_url(), expected_url);
    }
}

#[test]
fn granted_permission_is_a_success_without_warning() {
    let status = map_permission_status(PermissionKind::Calendar, PermissionState::Granted);
    assert_eq!(status.kind, PermissionKind::Calendar);
    assert_eq!(status.state, PermissionState::Granted);
    assert_eq!(status.outcome, PermissionOutcome::Success);
    assert_eq!(status.warning, None);
}

#[test]
fn denied_and_unavailable_permissions_warn_with_their_label() {
    let denied = map_permission_status(PermissionKind::FullDiskAccess, PermissionState::Denied);
    assert_eq!(denied.outcome, PermissionOutcome::Warning);
    assert_eq!(
        denied.warning.as_deref(),
        Some("Full Disk Access permission is denied.")
    );
    let unavailable =
        map_permission_status(PermissionKind::FilesystemPath, PermissionState::Unavailable);
    assert_eq!(unavailable.outcome, PermissionOutcome::Unavailable);
    assert_eq!(
        unavailable.warning.as_deref(),
        Some("filesystem path access permission is unavailable on this surface.")
    );
}

#[test]
fn every_kind_and_state_is_listed() {
    assert_eq!(PermissionKind::ALL.len(), 6);
    assert_eq!(PermissionKind::ALL[0], PermissionKind::FullDiskAccess);
    assert_eq!(PermissionKind::ALL[5], PermissionKind::FilesystemPath);
    assert_eq!(PermissionState::ALL.len(), 3);
}

#[test]
fn opened_pane_is_reported_and_failures_pass_through() {
    let request = OpenPrivacySettingsRequest {
        pane: PrivacySettingsPane::Reminders,
    };
    let receipt = privacy_settings_receipt(request, Ok(())).expect("opened");
    assert_eq!(receipt.pane, PrivacySettingsPane::Reminders);
    assert!(receipt.opened);
    let error = privacy_settings_receipt(request, Err(settings_exit_failed("exit status: 1")))
        .expect_err("failed");
    assert_eq!(error.to_text(), "macOS Settings exited with status exit status: 1");
    assert_eq!(
        OpenPrivacySettingsError::unavailable().to_text(),
        "macOS privacy settings are unavailable on this platform"
    );
}

#[test]
fn opening_a_pane_opens_its_settings_url() {
    let opened = std::cell::RefCell::new(Vec::new());
    let receipt = open_privacy_settings(
        OpenPrivacySettingsRequest { pane: PrivacySettingsPane::Calendar },
        |url: &str| {
            opened.borrow_mut().push(url.to_owned());
            Ok(())
        },
    )
    .expect("opened");
    assert_eq!(receipt.pane, PrivacySettingsPane::Calendar);
    assert!(receipt.opened);
    assert_eq!(
        *opened.borrow(),
        vec!["x-apple.systempreferences:com.apple.preference.security?Privacy_Calendars".to_owned()]
    );
    let error = open_privacy_settings(
        OpenPrivacySettingsRequest { pane: PrivacySettingsPane::FullDiskAccess },
        |_url: &str| Err(settings_exit_failed("exit status: 1")),
    )
    .expect_err("failed");
    assert_eq!(error.to_text(), "macOS Settings exited with status exit status: 1");
}
