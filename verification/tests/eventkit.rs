use morrow::eventkit::{
    c_buffer_text,
    metadata_candidate_id_line, reject_nul, reminders_unavailable_error, validate_identifier,
    validate_reminder_receipt, EventKitReminderProposalError, EventKitReminderProposalReceipt,
    RawEventKitReminderResult,
};

#[test]
fn reads_candidate_id_from_morrow_metadata_block() -> Result<(), String> {
    // Given
    let notes = [
        "candidate_id=wrong-user-note-line\n",
        "[MORROW_METADATA_V1]\n",
        "candidate_id=63616e6469646174652d72656d696e6465722d31\n",
        "source_id=6d6f72726f77\n",
        "[/MORROW_METADATA_V1]",
    ]
    .concat();

    // When
    let candidate_line = metadata_candidate_id_line(&notes).map_err(|error| error.to_text())?;

    // Then
    assert_eq!(
        candidate_line,
        "candidate_id=63616e6469646174652d72656d696e6465722d31"
    );
    Ok(())
}

#[test]
fn metadata_candidate_id_requires_a_closed_block() {
    let notes = "[MORROW_METADATA_V1]\ncandidate_id=abc\n";
    match metadata_candidate_id_line(notes) {
        Err(EventKitReminderProposalError::InvalidInput { field, reason }) => {
            assert_eq!(field, "notes");
            assert_eq!(reason, "missing Morrow metadata candidate id");
        }
        other => panic!("unexpected result: {other:?}"),
    }
}

#[test]
fn metadata_candidate_id_uses_the_last_block_and_crlf_lines() {
    let notes = "[MORROW_METADATA_V1]\ncandidate_id=old\n[/MORROW_METADATA_V1]\n[MORROW_METADATA_V1]\r\ncandidate_id=new\r\n[/MORROW_METADATA_V1]";
    assert_eq!(
        metadata_candidate_id_line(notes).expect("candidate line"),
        "candidate_id=new"
    );
}

#[test]
fn reject_nul_names_the_field() {
    assert!(reject_nul("title", "fine").is_ok());
    match reject_nul("title", "bad\0title") {
        Err(error) => assert_eq!(
            error.to_text(),
            "invalid Reminders proposal title: must not contain NUL bytes"
        ),
        Ok(()) => panic!("NUL accepted"),
    }
}

#[test]
fn identifiers_must_be_present_and_fit_the_native_buffer() {
    assert!(validate_identifier("reminder_id", "reminder-1").is_ok());
    match validate_identifier("reminder_id", "   ") {
        Err(EventKitReminderProposalError::EmptyIdentifier { field }) => {
            assert_eq!(field, "reminder_id")
        }
        other => panic!("unexpected result: {other:?}"),
    }
    let long = "x".repeat(256);
    match validate_identifier("list_id", &long) {
        Err(EventKitReminderProposalError::TruncatedIdentifier { field }) => {
            assert_eq!(field, "list_id")
        }
        other => panic!("unexpected result: {other:?}"),
    }
    assert!(validate_identifier("list_id", &"x".repeat(255)).is_ok());
}

#[test]
fn reminder_receipt_is_checked_in_field_order() {
    let receipt = EventKitReminderProposalReceipt {
        reminder_id: "reminder-1".to_owned(),
        list_id: " ".to_owned(),
        source_id: "".to_owned(),
    };
    match validate_reminder_receipt(receipt) {
        Err(EventKitReminderProposalError::EmptyIdentifier { field }) => {
            assert_eq!(field, "list_id")
        }
        other => panic!("unexpected result: {other:?}"),
    }
}

#[test]
fn native_reminder_results_map_to_typed_errors() {
    let raw = RawEventKitReminderResult {
        ok: 0,
        error_code: 3,
        truncated_field: 0,
        reminder_id: String::new(),
        list_id: String::new(),
        source_id: String::new(),
        message: "database is locked".to_owned(),
    };
    match raw.into_result() {
        Err(error) => assert_eq!(
            error.to_text(),
            "Reminders reminder save failed: database is locked"
        ),
        Ok(receipt) => panic!("unexpected receipt: {receipt:?}"),
    }
    let truncated = RawEventKitReminderResult {
        ok: 1,
        error_code: 0,
        truncated_field: 2,
        reminder_id: "reminder-1".to_owned(),
        list_id: "list-native-id-that-must-not-leak".to_owned(),
        source_id: "source".to_owned(),
        message: String::new(),
    };
    match truncated.into_result() {
        Err(error) => {
            let message = error.to_text();
            assert!(message.contains("truncated list_id"), "{message}");
            assert!(!message.contains("list-native-id-that-must-not-leak"));
        }
        Ok(receipt) => panic!("unexpected receipt: {receipt:?}"),
    }
}

#[test]
fn reminders_are_unavailable_without_eventkit() {
    assert_eq!(
        reminders_unavailable_error().to_text(),
        "Reminders proposal bridge unavailable: Reminders proposal creation requires macOS EventKit"
    );
}

#[test]
fn c_buffers_decode_up_to_the_first_nul() {
    assert_eq!(c_buffer_text(b"ab\0cd"), "ab");
    assert_eq!(c_buffer_text(b"no terminator"), "no terminator");
    assert_eq!(c_buffer_text(&[0xff, 0x41, 0]), "\u{fffd}A");
    assert_eq!(c_buffer_text(&[0, 0x41]), "");
}
