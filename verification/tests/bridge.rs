use morrow::codex_auth::{
    codex_install_dir, installer_from_download, login_status_from_exit, sanitized_env,
    setup_run_from_installer, CodexAuthCommandOutput, CodexAuthStatus, CodexLoginStatusRun,
    CodexProviderAuthReadiness, CodexSetupActionRun, ProcessRun, RawProcessOutput,
};
use morrow::crash_log::{record_crash_log, CrashLogRequest};
use morrow::eventkit::{
    event_native_request, reminder_native_request, EventKitProposalError,
    EventKitReminderProposalError, ReminderDueComponents, ReminderDueTimeZone,
    ReminderProposalRecord,
};
use morrow::fake_bridge::FakeNativeBridge;
use morrow::keychain::{
    delete_password_outcome, read_password_outcome, SecurityFailure, TokenLookupRequest,
    TokenWriteRequest, MORROW_KEYCHAIN_SERVICE, MORROW_PROVIDER_TOKEN_KIND,
};
use morrow::messages::{MessagesError, NativeBatch, RawChat, RawMessage};
use morrow::paths::{messages_database_path, morrow_store_path};
use morrow::permissions::{PermissionKind, PermissionOutcome, PermissionState};
use morrow::production_scan::{scan_provider_mode, ScanProviderMode};

fn reminder(title: &str, notes: &str, zone: ReminderDueTimeZone) -> ReminderProposalRecord {
    ReminderProposalRecord {
        candidate_id: "candidate-reminder-1".to_owned(),
        selected_source_id: "morrow".to_owned(),
        title: title.to_owned(),
        notes: notes.to_owned(),
        due: ReminderDueComponents {
            year: 2026,
            month: 7,
            day: 25,
            hour: 23,
            minute: 59,
            second: 0,
            time_zone: zone,
        },
    }
}

const NOTES: &str = "buy\n[MORROW_METADATA_V1]\ncandidate_id=6162\n[/MORROW_METADATA_V1]";

#[test]
fn reminder_requests_carry_the_metadata_line_and_zone() {
    let request = reminder_native_request(&reminder(
        "Finish review",
        NOTES,
        ReminderDueTimeZone::Named("Asia/Seoul".to_owned()),
    ))
    .expect("request");
    assert_eq!(request.metadata_candidate_id, "candidate_id=6162");
    assert_eq!(request.timezone_name, "Asia/Seoul");
    assert_eq!(request.due_month, 7);
    assert_eq!(request.has_due_time, 1);
    let utc = reminder_native_request(&reminder("t", NOTES, ReminderDueTimeZone::Utc)).expect("utc");
    assert_eq!(utc.timezone_name, "UTC");
}

#[test]
fn reminder_requests_refuse_nul_and_missing_metadata() {
    match reminder_native_request(&reminder("bad\0title", NOTES, ReminderDueTimeZone::Utc)) {
        Err(EventKitReminderProposalError::InvalidInput { field, reason }) => {
            assert_eq!(field, "title");
            assert_eq!(reason, "value must not contain NUL bytes");
        }
        other => panic!("unexpected: {other:?}"),
    }
    match reminder_native_request(&reminder("t", "no block", ReminderDueTimeZone::Utc)) {
        Err(EventKitReminderProposalError::InvalidInput { field, .. }) => assert_eq!(field, "notes"),
        other => panic!("unexpected: {other:?}"),
    }
    match reminder_native_request(&reminder(
        "t",
        NOTES,
        ReminderDueTimeZone::Named("Bad\0Zone".to_owned()),
    )) {
        Err(EventKitReminderProposalError::InvalidInput { field, .. }) => {
            assert_eq!(field, "time_zone")
        }
        other => panic!("unexpected: {other:?}"),
    }
}

#[test]
fn event_requests_refuse_nul() {
    let request = event_native_request("Title", "Notes", 10, 20).expect("request");
    assert_eq!(request.start_unix, 10);
    match event_native_request("Title", "a\0b", 10, 20) {
        Err(EventKitProposalError::InvalidInput { field, reason }) => {
            assert_eq!(field, "notes");
            assert_eq!(reason, "value must not contain NUL bytes");
        }
        other => panic!("unexpected: {other:?}"),
    }
}

#[test]
fn keychain_lookups_map_to_outcomes() {
    assert_eq!(read_password_outcome(Ok(b"tok".to_vec())), Ok(Some("tok".to_owned())));
    let bad = read_password_outcome(Ok(vec![0xff])).expect_err("not utf8");
    assert_eq!(bad.to_text(), "Morrow Keychain token was not valid UTF-8");
    let missing = SecurityFailure {
        code: -25300,
        description: "The specified item could not be found in the keychain.".to_owned(),
    };
    assert_eq!(read_password_outcome(Err(missing)), Ok(None));
    let denied = SecurityFailure {
        code: -128,
        description: "User canceled the operation.".to_owned(),
    };
    assert_eq!(
        read_password_outcome(Err(denied)).expect_err("denied").to_text(),
        "Morrow Keychain read failed with OSStatus -128: User canceled the operation."
    );
    assert_eq!(delete_password_outcome(Ok(0)), Ok(true));
    assert!(delete_password_outcome(Ok(-1)).is_err());
    let gone = SecurityFailure {
        code: -25300,
        description: String::new(),
    };
    assert_eq!(delete_password_outcome(Err(gone)), Ok(false));
}

#[test]
fn install_runs_are_classified() {
    let ok = RawProcessOutput {
        exit_code: Some(0),
        stdout: b"#!/bin/sh".to_vec(),
        stderr: Vec::new(),
    };
    match installer_from_download(ProcessRun::Completed(ok)) {
        Ok(script) => assert_eq!(script, b"#!/bin/sh".to_vec()),
        Err(_) => panic!("download failed"),
    }
    assert!(matches!(
        installer_from_download(ProcessRun::MissingExecutable),
        Err(CodexSetupActionRun::MissingCurl)
    ));
    let failed = RawProcessOutput {
        exit_code: Some(22),
        stdout: Vec::new(),
        stderr: b"404".to_vec(),
    };
    assert!(matches!(
        installer_from_download(ProcessRun::Completed(failed)),
        Err(CodexSetupActionRun::CurlFailed(_))
    ));
    let installed = RawProcessOutput {
        exit_code: Some(0),
        stdout: b"done".to_vec(),
        stderr: Vec::new(),
    };
    assert!(matches!(
        setup_run_from_installer(ProcessRun::Completed(installed)),
        CodexSetupActionRun::Installed(_)
    ));
    assert!(matches!(
        setup_run_from_installer(ProcessRun::MissingExecutable),
        CodexSetupActionRun::Failed(_)
    ));
    let timed_out = CodexAuthCommandOutput::new(None, "", "");
    assert!(matches!(
        setup_run_from_installer(ProcessRun::TimedOut(timed_out)),
        CodexSetupActionRun::TimedOut(_)
    ));
}

#[test]
fn child_processes_get_a_sanitized_environment() {
    let mut values: Vec<Option<String>> = vec![None; 13];
    values[0] = Some("/Users/me".to_owned());
    values[1] = Some(String::new());
    values[5] = Some("en_US.UTF-8".to_owned());
    assert_eq!(
        sanitized_env(&values),
        vec![
            ("HOME".to_owned(), "/Users/me".to_owned()),
            ("LANG".to_owned(), "en_US.UTF-8".to_owned()),
        ]
    );
    assert_eq!(
        codex_install_dir(Some("/Users/me".to_owned())),
        Some("/Users/me/.local/bin".to_owned())
    );
    assert_eq!(codex_install_dir(Some(String::new())), None);
    assert_eq!(codex_install_dir(None), None);
    match login_status_from_exit(Some(0), b"Logged in using ChatGPT", &[0xff]) {
        CodexLoginStatusRun::Completed(output) => {
            assert!(output.is_success());
            assert_eq!(output.combined_output(), "Logged in using ChatGPT\n\u{fffd}");
        }
        _ => panic!("not completed"),
    }
}

#[test]
fn paths_and_small_commands() {
    assert_eq!(
        messages_database_path(Some("/Users/me".to_owned())),
        Ok("/Users/me/Library/Messages/chat.db".to_owned())
    );
    assert_eq!(
        messages_database_path(None),
        Err("Messages discovery is unavailable on this system.".to_owned())
    );
    assert_eq!(
        morrow_store_path(Ok("/data/".to_owned())),
        Ok("/data/morrow.sqlite".to_owned())
    );
    assert_eq!(morrow_store_path(Err("no dir".to_owned())), Err("no dir".to_owned()));
    let receipt = record_crash_log(CrashLogRequest {
        message: "boom".to_owned(),
    })
    .expect("receipt");
    assert!(!receipt.stored);
    let ready = CodexProviderAuthReadiness {
        status: CodexAuthStatus::LoggedInUsingChatGpt,
        ready: true,
        command_surface: "codex login status".to_owned(),
        command_output_redacted: true,
        diagnostic: String::new(),
    };
    assert_eq!(scan_provider_mode(&ready), ScanProviderMode::Codex);
}

#[test]
fn fake_bridge_reports_its_fixed_state() {
    let bridge = FakeNativeBridge::with_permission(PermissionKind::Calendar, PermissionState::Granted);
    let statuses = bridge.query_permission_statuses();
    assert_eq!(statuses.len(), 6);
    assert_eq!(statuses[1].kind, PermissionKind::Calendar);
    assert_eq!(statuses[1].outcome, PermissionOutcome::Success);
    assert_eq!(statuses[0].state, PermissionState::Unavailable);
    assert!(matches!(bridge.read_recent(), Err(MessagesError::PermissionDenied)));
    let batch = NativeBatch {
        chats: vec![RawChat {
            guid: "chat-1".to_owned(),
            participant_count: 1,
            participant_handles: vec!["+1".to_owned()],
            messages: vec![RawMessage {
                chat_guid: "chat-1".to_owned(),
                message_guid: "m1".to_owned(),
                timestamp: 5,
                text: "hi".to_owned(),
            }],
        }],
    };
    let with_messages = bridge.with_messages(batch);
    let read = with_messages.read_recent().expect("batch");
    assert_eq!(read.chats[0].messages[0].text, "hi");
    let mut stored = FakeNativeBridge::with_morrow_store_path("/tmp/m.sqlite".to_owned());
    assert_eq!(stored.morrow_store_path().map(String::as_str), Some("/tmp/m.sqlite"));
    stored
        .create_morrow_token(TokenWriteRequest::new(
            MORROW_KEYCHAIN_SERVICE,
            MORROW_PROVIDER_TOKEN_KIND,
            "tok",
        ))
        .expect("write");
    let token = stored
        .read_morrow_token(TokenLookupRequest::new(MORROW_KEYCHAIN_SERVICE, MORROW_PROVIDER_TOKEN_KIND))
        .expect("read");
    assert_eq!(token.token.as_deref(), Some("tok"));
    assert!(stored
        .delete_morrow_token(TokenLookupRequest::new(MORROW_KEYCHAIN_SERVICE, MORROW_PROVIDER_TOKEN_KIND))
        .expect("delete")
        .deleted);
}
