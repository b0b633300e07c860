use morrow::sender_identity::{
    hex_prefix, normalize_handle, parse_sender_identity, sender_identity, MessageSenderIdentity,
    SenderIdentitySalt, SENDER_SALT_DEBUG_MARKER,
};

#[test]
fn sender_identity_salt_debug_redacts_raw_salt_when_formatted() {
    // Given: a local sender salt contains private raw bytes.
    let raw = [0xab; 32];
    let salt = SenderIdentitySalt::from_bytes(raw);

    // When: debug formatting is requested.
    let debug = salt.debug_text();

    // Then: only the redaction marker is visible, not the bytes or hex digest material.
    assert!(debug.contains(SENDER_SALT_DEBUG_MARKER));
    assert!(!debug.contains("bytes"));
    assert!(!debug.contains(&format!("{raw:?}")));
    assert!(!debug.contains(&hex_prefix(&raw)));
}

#[test]
fn handles_are_trimmed_and_lowercased() {
    assert_eq!(
        normalize_handle("  Foo@Example.COM \n").as_deref(),
        Some("foo@example.com")
    );
    assert_eq!(normalize_handle("   "), None);
    assert_eq!(normalize_handle("a\u{7}b"), None);
}

#[test]
fn hex_prefix_shows_sixteen_bytes() {
    assert_eq!(hex_prefix(&[0xab; 32]), "ab".repeat(16));
    assert_eq!(hex_prefix(&[0x01, 0xf0]), "01f0");
}

#[test]
fn sender_key_is_the_salted_digest_of_the_normalized_handle() {
    let zero = SenderIdentitySalt::zero();
    match sender_identity(&zero, "chat-1", " Foo@Example.com ") {
        MessageSenderIdentity::Known { key } => {
            assert_eq!(key, "senderKey-a0c91b1039de0d790ca3d8c911d88adf")
        }
        MessageSenderIdentity::Unknown => panic!("unknown sender"),
    }
    let salted = SenderIdentitySalt::from_bytes([0xab; 32]);
    match sender_identity(&salted, "chat-1", "foo@example.com") {
        MessageSenderIdentity::Known { key } => {
            assert_eq!(key, "senderKey-71ee233a30401e748319d9af132bbfea")
        }
        MessageSenderIdentity::Unknown => panic!("unknown sender"),
    }
    assert!(matches!(
        sender_identity(&zero, "chat-1", "  "),
        MessageSenderIdentity::Unknown
    ));
}

#[test]
fn sender_rows_without_a_handle_are_unknown() {
    let zero = SenderIdentitySalt::zero();
    assert!(matches!(
        parse_sender_identity(&zero, "chat-1", "", "666f6f"),
        Ok(MessageSenderIdentity::Unknown)
    ));
    assert!(parse_sender_identity(&zero, "chat-1", "7", "zz").is_err());
    assert!(matches!(
        parse_sender_identity(&zero, "chat-1", "7", "666f6f"),
        Ok(MessageSenderIdentity::Known { .. })
    ));
}
