use morrow::messages::{
    apple_timestamp_to_unix_seconds, discovery_sql, hex_text, participant_handles,
    read_recent_sql, rows_to_batch, sql_text, sqlite_error_from_stderr, sqlite_rows,
    unix_seconds_to_apple_date_units, AppleDateUnits, MessagesError, MessagesSqliteAdapter,
    MessagesSqliteLimits, NativeReadRequest, Sqlite, SqliteOutput, SqliteQueryAudit,
    ALL_CHAT_GUIDS_SQL, text_from_hex, AttributedBodyDecoder, NoAttributedBodyDecoder,
    RawAttributedBodyResult, ATTRIBUTED_BODY_DECODE_FAILED, ATTRIBUTED_BODY_TEXT_TRUNCATED,
    SqliteProcess,
};

fn row(values: &[&str]) -> Vec<String> {
    values.iter().map(|value| (*value).to_owned()).collect()
}

fn unavailable_reason(result: Result<String, MessagesError>) -> String {
    match result {
        Err(MessagesError::NativeUnavailable { reason }) => reason,
        other => panic!("unexpected result: {other:?}"),
    }
}

#[test]
fn hex_text_decodes_utf8_pairs() {
    assert_eq!(hex_text("68656C6c6f").expect("hex"), "hello");
    assert_eq!(hex_text("").expect("empty"), "");
    assert_eq!(hex_text("e29c93").expect("check mark"), "\u{2713}");
}

#[test]
fn hex_text_reports_each_decoding_failure() {
    assert_eq!(
        unavailable_reason(hex_text("abc")),
        "sqlite returned odd-length hex text"
    );
    assert_eq!(
        unavailable_reason(hex_text("zz")),
        "sqlite returned invalid hex text"
    );
    assert!(unavailable_reason(hex_text("ff")).starts_with("sqlite returned non-utf8 text: "));
}

#[test]
fn apple_dates_convert_from_seconds_and_nanoseconds() {
    assert_eq!(apple_timestamp_to_unix_seconds(0).expect("zero"), 978_307_200);
    assert_eq!(
        apple_timestamp_to_unix_seconds(9_999_999_999).expect("seconds"),
        10_978_307_199
    );
    assert_eq!(
        apple_timestamp_to_unix_seconds(700_000_000_000_000_000).expect("nanoseconds"),
        1_678_307_200
    );
    match apple_timestamp_to_unix_seconds(-1) {
        Err(MessagesError::InvalidInput { field, reason }) => {
            assert_eq!(field, "message_timestamp");
            assert_eq!(reason, "must be non-negative");
        }
        other => panic!("unexpected result: {other:?}"),
    }
}

#[test]
fn unix_seconds_convert_to_apple_date_units() {
    assert_eq!(
        unix_seconds_to_apple_date_units(978_307_260).expect("units"),
        AppleDateUnits {
            seconds: 60,
            nanoseconds: 60_000_000_000,
        }
    );
    match unix_seconds_to_apple_date_units(i64::MIN) {
        Err(MessagesError::InvalidInput { reason, .. }) => {
            assert_eq!(reason, "unix timestamp is out of range")
        }
        other => panic!("unexpected result: {other:?}"),
    }
    match unix_seconds_to_apple_date_units(i64::MAX) {
        Err(MessagesError::InvalidInput { reason, .. }) => {
            assert_eq!(reason, "nanosecond timestamp is out of range")
        }
        other => panic!("unexpected result: {other:?}"),
    }
}

#[test]
fn sql_text_doubles_quotes_and_refuses_reserved_characters() {
    assert_eq!(sql_text("it's").expect("quoted"), "'it''s'");
    match sql_text("a\u{1f}b") {
        Err(MessagesError::InvalidInput { field, reason }) => {
            assert_eq!(field, "chat_guid");
            assert_eq!(reason, "contains a reserved control character");
        }
        other => panic!("unexpected result: {other:?}"),
    }
    assert!(sql_text("a\0b").is_err());
}

#[test]
fn queries_embed_selected_chats_and_limits() {
    let sql = read_recent_sql(&vec!["a".to_owned(), "b'c".to_owned()], 100).expect("sql");
    assert!(sql.starts_with("\nWITH selected(guid) AS (VALUES ('a'),('b''c')),\n"));
    assert!(sql.contains("WHERE row_number <= 100\n"));
    assert!(discovery_sql(50).ends_with("LIMIT 50;\n"));
    assert!(read_recent_sql(&vec!["x\0".to_owned()], 1).is_err());
    assert_eq!(ALL_CHAT_GUIDS_SQL, "SELECT guid FROM chat ORDER BY guid ASC;");
}

#[test]
fn sqlite_rows_skip_blank_lines_and_split_columns() {
    assert_eq!(
        sqlite_rows("a\u{1f}b\n\nc\r\n\u{1f}\n"),
        vec![
            vec!["a".to_owned(), "b".to_owned()],
            vec!["c".to_owned()],
            vec![String::new(), String::new()],
        ]
    );
    assert!(sqlite_rows("").is_empty());
}

#[test]
fn sqlite_stderr_is_classified() {
    assert!(matches!(
        sqlite_error_from_stderr("Error: Operation NOT permitted"),
        MessagesError::PermissionDenied
    ));
    match sqlite_error_from_stderr("disk I/O error") {
        MessagesError::NativeUnavailable { reason } => {
            assert_eq!(reason, "sqlite3 could not read the Messages database")
        }
        other => panic!("unexpected error: {other:?}"),
    }
}

#[test]
fn sqlite_output_becomes_rows_or_an_error() {
    let sqlite = Sqlite::new("/tmp/chat.db".to_owned());
    let ok = SqliteOutput {
        success: true,
        stdout: "guid-1\nguid-2\n".to_owned(),
        stderr: String::new(),
    };
    assert_eq!(
        sqlite.query_rows(&ok).expect("rows"),
        vec![vec!["guid-1".to_owned()], vec!["guid-2".to_owned()]]
    );
    let failed = SqliteOutput {
        success: false,
        stdout: String::new(),
        stderr: "Error: authorization denied".to_owned(),
    };
    assert!(matches!(
        sqlite.query_rows(&failed),
        Err(MessagesError::PermissionDenied)
    ));
    assert_eq!(
        Sqlite::stdin_script("SELECT 1;"),
        "PRAGMA query_only = ON;\nPRAGMA trusted_schema = OFF;\nSELECT 1;"
    );
    assert_eq!(
        sqlite.args(),
        vec!["-batch", "-noheader", "-readonly", "-separator", "\u{1f}", "/tmp/chat.db"]
    );
}

#[test]
fn query_audit_counts_chat_listings() {
    let mut audit = SqliteQueryAudit::default();
    audit.record(" SELECT guid FROM chat ORDER BY guid ASC; \n");
    audit.record("SELECT 1;");
    assert_eq!(
        audit,
        SqliteQueryAudit {
            total_query_count: 2,
            all_chat_guids_sql_count: 1,
        }
    );
}

#[test]
fn adapter_limits_and_test_denial() {
    let adapter = MessagesSqliteAdapter::new("/tmp/chat.db".to_owned());
    assert_eq!(adapter.limits(), MessagesSqliteLimits::default());
    assert_eq!(adapter.limits().discovery_chat_limit, 50);
    assert_eq!(adapter.limits().read_message_limit, 100);
    let limited = adapter.with_limits(MessagesSqliteLimits {
        discovery_chat_limit: 5,
        read_message_limit: 7,
    });
    assert!(limited.discovery_query().ends_with("LIMIT 5;\n"));
    assert_eq!(limited.read_recent_query(&Vec::new()).expect("none"), None);
    let denied = MessagesSqliteAdapter::permission_denied_for_test("/tmp/chat.db".to_owned());
    let output = SqliteOutput {
        success: true,
        stdout: String::new(),
        stderr: String::new(),
    };
    assert!(!denied.runs_sqlite());
    assert!(matches!(
        denied.query_rows(&output),
        Err(MessagesError::PermissionDenied)
    ));
}

#[test]
fn participant_handles_decode_non_empty_items() {
    assert_eq!(
        participant_handles("61,,2b31,").expect("handles"),
        vec!["a".to_owned(), "+1".to_owned()]
    );
    assert!(participant_handles("61,z").is_err());
    assert!(participant_handles("").expect("none").is_empty());
}

#[test]
fn rows_group_into_chats_in_guid_order() {
    let rows = vec![
        row(&["chat-b", "1", "2b31", "m1", "10", "6869"]),
        row(&["chat-a", "2", "61,62", "m2", "20", "796f"]),
        row(&["chat-b", "1", "2b31", "m3", "30", "21"]),
        row(&["chat-a", "2", "61", "m4", "500", "78"]),
    ];
    let request = NativeReadRequest {
        chat_guids: vec!["chat-a".to_owned(), "chat-b".to_owned()],
        since: 978_307_200,
        until: 978_307_300,
    };

    let batch = rows_to_batch(&rows, &request).expect("batch");

    assert_eq!(batch.chats.len(), 2);
    let a = &batch.chats[0];
    assert_eq!(a.guid, "chat-a");
    assert_eq!(a.participant_count, 2);
    assert_eq!(a.participant_handles, vec!["a".to_owned(), "b".to_owned()]);
    assert_eq!(a.messages.len(), 1);
    assert_eq!(a.messages[0].message_guid, "m2");
    assert_eq!(a.messages[0].timestamp, 978_307_220);
    assert_eq!(a.messages[0].text, "yo");
    let b = &batch.chats[1];
    assert_eq!(b.guid, "chat-b");
    assert_eq!(b.participant_handles, vec!["+1".to_owned()]);
    assert_eq!(b.messages.len(), 2);
    assert_eq!(b.messages[0].text, "hi");
    assert_eq!(b.messages[1].message_guid, "m3");
    assert_eq!(b.messages[1].text, "!");
}

#[test]
fn a_bad_row_fails_the_batch_but_rows_outside_the_window_are_not_read() {
    let request = NativeReadRequest {
        chat_guids: vec!["chat-a".to_owned()],
        since: 978_307_200,
        until: 978_307_300,
    };
    let outside = vec![row(&["chat-a", "not-a-count", "zz", "m1", "900", "zz"])];
    assert!(rows_to_batch(&outside, &request)
        .expect("outside the window")
        .chats
        .is_empty());
    let bad_date = vec![row(&["chat-a", "1", "61", "m1", "soon", "61"])];
    match rows_to_batch(&bad_date, &request) {
        Err(MessagesError::NativeUnavailable { reason }) => {
            assert!(reason.starts_with("sqlite row has invalid message_date: "), "{reason}")
        }
        Err(other) => panic!("unexpected error: {other:?}"),
        Ok(_) => panic!("bad date accepted"),
    }
    let short = vec![row(&["chat-a", "1"])];
    match rows_to_batch(&short, &request) {
        Err(MessagesError::NativeUnavailable { reason }) => {
            assert_eq!(reason, "sqlite row missing message_date")
        }
        Err(other) => panic!("unexpected error: {other:?}"),
        Ok(_) => panic!("short row accepted"),
    }
    let wide_count = vec![row(&["chat-a", "70000", "61", "m1", "20", "61"])];
    match rows_to_batch(&wide_count, &request) {
        Err(MessagesError::NativeUnavailable { reason }) => assert_eq!(
            reason,
            "sqlite row has invalid participant_count: out of range integral type conversion attempted"
        ),
        Err(other) => panic!("unexpected error: {other:?}"),
        Ok(_) => panic!("wide count accepted"),
    }
}

/// A decoder that answers every body with one result and remembers the
/// bytes it was given.
struct FixedDecoder {
    result: RawAttributedBodyResult,
    seen: std::cell::RefCell<Vec<u8>>,
}

impl AttributedBodyDecoder for FixedDecoder {
    fn decode(&self, bytes: &Vec<u8>) -> RawAttributedBodyResult {
        *self.seen.borrow_mut() = bytes.clone();
        self.result.clone()
    }
}

fn decoder(ok: i32, error_code: i32, text: &str, message: &str) -> FixedDecoder {
    FixedDecoder {
        result: RawAttributedBodyResult {
            ok,
            error_code,
            text: text.to_owned(),
            message: message.to_owned(),
        },
        seen: std::cell::RefCell::new(Vec::new()),
    }
}

#[test]
fn attributed_bodies_go_through_the_decoder() {
    let found = decoder(1, 0, "See you at 3", "");
    assert_eq!(text_from_hex("0A0b", &found).unwrap(), Some("See you at 3".to_owned()));
    assert_eq!(*found.seen.borrow(), vec![0x0a, 0x0b]);

    let none = decoder(0, ATTRIBUTED_BODY_DECODE_FAILED, "", "");
    assert_eq!(text_from_hex("00", &none).unwrap(), None);
    assert_eq!(text_from_hex("", &none).unwrap(), None);
    assert!(none.seen.borrow().len() == 1);

    let truncated = decoder(0, ATTRIBUTED_BODY_TEXT_TRUNCATED, "", "text too long");
    match text_from_hex("00", &truncated) {
        Err(MessagesError::NativeUnavailable { reason }) => assert_eq!(reason, "text too long"),
        other => panic!("unexpected {other:?}"),
    }
    let silent = decoder(0, 9, "", "");
    match text_from_hex("00", &silent) {
        Err(MessagesError::NativeUnavailable { reason }) => {
            assert_eq!(reason, "attributed body decode failed")
        }
        other => panic!("unexpected {other:?}"),
    }
    match text_from_hex("0", &NoAttributedBodyDecoder) {
        Err(MessagesError::NativeUnavailable { reason }) => {
            assert_eq!(reason, "sqlite returned odd-length attributed body")
        }
        other => panic!("unexpected {other:?}"),
    }
    match text_from_hex("zz", &NoAttributedBodyDecoder) {
        Err(MessagesError::NativeUnavailable { reason }) => {
            assert_eq!(reason, "sqlite returned invalid attributed body")
        }
        other => panic!("unexpected {other:?}"),
    }
    assert_eq!(text_from_hex("00", &NoAttributedBodyDecoder).unwrap(), None);
}

#[test]
fn uppercase_hex_of_text_reads_back() {
    assert_eq!(hex_text("4D6F72726F77").unwrap(), "Morrow");
    assert_eq!(hex_text("C3A9").unwrap(), "\u{e9}");
    assert_eq!(hex_text("").unwrap(), "");
}

/// A sqlite3 stand-in that prints fixed output and remembers the query.
struct FixedSqlite {
    output: SqliteOutput,
    queries: std::cell::RefCell<Vec<(Vec<String>, String)>>,
}

impl SqliteProcess for FixedSqlite {
    fn run(&self, sqlite: &Sqlite, sql: &str) -> Result<SqliteOutput, MessagesError> {
        self.queries.borrow_mut().push((sqlite.args(), sql.to_owned()));
        Ok(SqliteOutput {
            success: self.output.success,
            stdout: self.output.stdout.clone(),
            stderr: self.output.stderr.clone(),
        })
    }
}

#[test]
fn recent_messages_are_read_through_sqlite() {
    let stdout = ["chat-b", "1", "2b31", "m1", "10", "6869"].join("\u{1f}") + "\n";
    let process = FixedSqlite {
        output: SqliteOutput { success: true, stdout, stderr: String::new() },
        queries: std::cell::RefCell::new(Vec::new()),
    };
    let adapter = MessagesSqliteAdapter::new("/tmp/chat.db".to_owned());
    let request = NativeReadRequest {
        chat_guids: vec!["chat-b".to_owned()],
        since: 978_307_200,
        until: 978_307_300,
    };
    let batch = adapter.read_recent(&request, &process).expect("batch");
    assert_eq!(batch.chats.len(), 1);
    assert_eq!(batch.chats[0].messages[0].text, "hi");
    let queries = process.queries.borrow();
    assert_eq!(queries.len(), 1);
    assert_eq!(queries[0].0.last().map(String::as_str), Some("/tmp/chat.db"));
    assert!(queries[0].0.contains(&"-readonly".to_owned()));
    assert_eq!(queries[0].1, read_recent_sql(&request.chat_guids, 100).expect("sql"));

    let empty = NativeReadRequest { chat_guids: Vec::new(), since: 0, until: 0 };
    assert!(adapter.read_recent(&empty, &process).expect("empty").chats.is_empty());
    assert_eq!(process.queries.borrow().len(), 1);

    let denied = MessagesSqliteAdapter::permission_denied_for_test("/tmp/chat.db".to_owned());
    assert!(matches!(denied.read_recent(&request, &process), Err(MessagesError::PermissionDenied)));
    assert_eq!(process.queries.borrow().len(), 1);
}
