use morrow::runtime_identity::{runtime_identity_from_executable_path, RuntimeKind};

#[test]
fn runtime_identity_reports_app_bundle_target_when_executable_is_inside_app_bundle() {
    // Given
    let executable_path = "/Applications/Morrow.app/Contents/MacOS/morrow";

    // When
    let identity = runtime_identity_from_executable_path(executable_path);

    // Then
    assert_eq!(identity.display_name, "Morrow");
    assert_eq!(identity.bundle_identifier, "dev.morrow.desktop");
    assert_eq!(identity.executable_path, executable_path);
    assert_eq!(identity.settings_target_path, "/Applications/Morrow.app");
    assert_eq!(identity.runtime_kind, RuntimeKind::AppBundle);
}

#[test]
fn runtime_identity_reports_binary_target_when_executable_is_direct_binary() {
    // Given
    let executable_path = "/Users/example/workspace/morrow/src-tauri/target/debug/morrow";

    // When
    let identity = runtime_identity_from_executable_path(executable_path);

    // Then
    assert_eq!(identity.executable_path, executable_path);
    assert_eq!(identity.settings_target_path, executable_path);
    assert_eq!(identity.runtime_kind, RuntimeKind::Binary);
}

#[test]
fn runtime_identity_keeps_non_app_paths_as_binary_targets() {
    // Given
    let executable_path = "/tmp/not-an-app/Contents/MacOS/morrow";

    // When
    let identity = runtime_identity_from_executable_path(executable_path);

    // Then
    assert_eq!(identity.settings_target_path, executable_path);
    assert_eq!(identity.runtime_kind, RuntimeKind::Binary);
}

#[test]
fn runtime_identity_needs_a_named_bundle() {
    let identity = runtime_identity_from_executable_path(".app/Contents/MacOS/morrow");
    assert_eq!(identity.runtime_kind, RuntimeKind::Binary);
    let plain = runtime_identity_from_executable_path("morrow");
    assert_eq!(plain.settings_target_path, "morrow");
    assert_eq!(plain.runtime_kind, RuntimeKind::Binary);
}
