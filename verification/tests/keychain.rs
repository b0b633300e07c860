use morrow::keychain::{
    MorrowTokenVault, UnsupportedPasswordStore,
    checked_delete_result, FakeMorrowTokenVault, KeychainErrorCode, TokenLookupRequest,
    TokenWriteRequest, MORROW_KEYCHAIN_SERVICE, MORROW_PROVIDER_TOKEN_KIND, MORROW_TOKEN_KIND,
};

#[test]
fn fake_vault_debug_redacts_stored_tokens() {
    let mut vault = FakeMorrowTokenVault::default();
    vault
        .create(TokenWriteRequest::new(
            MORROW_KEYCHAIN_SERVICE,
            MORROW_PROVIDER_TOKEN_KIND,
            "sk-fake-vault-canary",
        ))
        .expect("fake write");

    let debug = vault.debug_text();

    assert!(debug.contains("token_count"));
    assert!(!debug.contains("sk-fake-vault-canary"), "{debug}");
    assert!(!debug.contains(MORROW_PROVIDER_TOKEN_KIND), "{debug}");
}

#[test]
fn checked_delete_result_reports_deleted_only_after_success_status() {
    let success = checked_delete_result(0);
    let failure = checked_delete_result(-60008);

    assert_eq!(success, Ok(true));
    let error = failure.expect_err("nonzero OSStatus must not report deleted=true");
    assert_eq!(error.code(), KeychainErrorCode::StorageUnavailable);
    assert!(error.to_text().contains("-60008"));
}

#[test]
fn fake_vault_debug_counts_tokens() {
    let mut vault = FakeMorrowTokenVault::default();
    assert_eq!(
        vault.debug_text(),
        "FakeMorrowTokenVault { token_count: 0, tokens: \"<redacted>\" }"
    );
    vault
        .create(TokenWriteRequest::new(MORROW_KEYCHAIN_SERVICE, MORROW_TOKEN_KIND, "a"))
        .expect("owned write");
    vault
        .create(TokenWriteRequest::new(MORROW_KEYCHAIN_SERVICE, MORROW_PROVIDER_TOKEN_KIND, "b"))
        .expect("provider write");
    assert_eq!(
        vault.debug_text(),
        "FakeMorrowTokenVault { token_count: 2, tokens: \"<redacted>\" }"
    );
}

#[test]
fn fake_vault_reads_back_what_was_written_and_forgets_it_on_delete() {
    let mut vault = FakeMorrowTokenVault::default();
    vault
        .create(TokenWriteRequest::new(
            MORROW_KEYCHAIN_SERVICE,
            MORROW_PROVIDER_TOKEN_KIND,
            "sk-live",
        ))
        .expect("write");

    let read = vault
        .read(TokenLookupRequest::new(MORROW_KEYCHAIN_SERVICE, MORROW_PROVIDER_TOKEN_KIND))
        .expect("read");
    assert!(read.present);
    assert_eq!(read.token.as_deref(), Some("sk-live"));

    let other = vault
        .read(TokenLookupRequest::new(MORROW_KEYCHAIN_SERVICE, MORROW_TOKEN_KIND))
        .expect("read other kind");
    assert!(!other.present);

    let deleted = vault
        .delete(TokenLookupRequest::new(MORROW_KEYCHAIN_SERVICE, MORROW_PROVIDER_TOKEN_KIND))
        .expect("delete");
    assert!(deleted.deleted);
    let again = vault
        .delete(TokenLookupRequest::new(MORROW_KEYCHAIN_SERVICE, MORROW_PROVIDER_TOKEN_KIND))
        .expect("delete again");
    assert!(!again.deleted);
    let gone = vault
        .read(TokenLookupRequest::new(MORROW_KEYCHAIN_SERVICE, MORROW_PROVIDER_TOKEN_KIND))
        .expect("read after delete");
    assert!(!gone.present);
    assert_eq!(gone.token, None);
}

#[test]
fn fake_vault_refuses_unknown_service_and_kind() {
    let mut vault = FakeMorrowTokenVault::default();
    let service = vault
        .create(TokenWriteRequest::new("other.service", MORROW_TOKEN_KIND, "x"))
        .expect_err("unknown service");
    assert_eq!(service.code(), KeychainErrorCode::UnsupportedService);
    assert_eq!(service.to_text(), "unsupported Keychain service: other.service");
    let kind = vault
        .read(TokenLookupRequest::new(MORROW_KEYCHAIN_SERVICE, "other-kind"))
        .expect_err("unknown kind");
    assert_eq!(kind.code(), KeychainErrorCode::UnsupportedTokenKind);
}

#[test]
fn checked_delete_failure_names_the_status() {
    let error = checked_delete_result(-25300).expect_err("failure");
    assert_eq!(
        error.to_text(),
        "Morrow Keychain delete failed with OSStatus -25300"
    );
}

#[test]
fn vault_without_a_platform_store_passes_on_the_store_error() {
    let vault = MorrowTokenVault::new(UnsupportedPasswordStore);

    let read = vault.read(TokenLookupRequest::new(MORROW_KEYCHAIN_SERVICE, MORROW_TOKEN_KIND));
    let error = read.err().expect("store error");
    assert_eq!(error.code(), KeychainErrorCode::StorageUnavailable);
    assert_eq!(
        error.to_text(),
        "Morrow Keychain bridge storage requires macOS Security.framework"
    );

    let write = vault.create(TokenWriteRequest::new(
        MORROW_KEYCHAIN_SERVICE,
        MORROW_TOKEN_KIND,
        "token",
    ));
    assert_eq!(write.err().expect("store error").code(), KeychainErrorCode::StorageUnavailable);
}

#[test]
fn vault_refuses_a_foreign_service_before_asking_the_store() {
    let vault = MorrowTokenVault::new(UnsupportedPasswordStore);

    let read = vault.read(TokenLookupRequest::new("com.example.other", MORROW_TOKEN_KIND));

    assert_eq!(read.err().expect("refused").code(), KeychainErrorCode::UnsupportedService);
}
