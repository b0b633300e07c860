use std::cell::Cell;

use morrow::delete_data::{
    delete_morrow_data_at, DeleteCleanupAction, DeleteMorrowDataError, DeleteMorrowDataRequest,
    MorrowStoreEraser, MorrowTokenDeleter, NoopProposedItemCleaner, ProposedItemCleaner,
    ProposedItemCleanupReceipt, RawEventKitCleanupResult, StoreDeleteReceipt,
};
use morrow::keychain::{
    FakeMorrowTokenVault, KeychainBridgeError, MorrowTokenVault, TokenLookupRequest,
    TokenWriteRequest, UnsupportedPasswordStore, MORROW_KEYCHAIN_SERVICE, MORROW_PROVIDER_TOKEN_KIND,
};

/// A store that exists until it is deleted.
struct MemoryStore {
    exists: Cell<bool>,
}

impl MemoryStore {
    fn present() -> Self {
        MemoryStore { exists: Cell::new(true) }
    }
}

impl MorrowStoreEraser for MemoryStore {
    fn delete_all_at(&self, _store_path: &String) -> Result<StoreDeleteReceipt, DeleteMorrowDataError> {
        let existed = self.exists.replace(false);
        Ok(StoreDeleteReceipt { database_deleted: existed, approved_external_items_deleted: false })
    }
}

struct FailingTokenVault;

impl MorrowTokenDeleter for FailingTokenVault {
    fn delete_morrow_token(&mut self, _request: TokenLookupRequest) -> Result<bool, KeychainBridgeError> {
        Err(KeychainBridgeError::storage_unavailable(
            "Morrow Keychain delete failed with OSStatus -60008".to_owned(),
        ))
    }
}

#[test]
fn token_revoke_failure_does_not_block_local_store_delete() {
    let store = MemoryStore::present();
    let path = "morrow.sqlite".to_owned();

    let receipt = delete_morrow_data_at(
        DeleteMorrowDataRequest::new("DELETE MORROW DATA", false, false, true),
        &path,
        &store,
        &mut FailingTokenVault,
        &NoopProposedItemCleaner,
    )
    .expect("delete should continue after token failure");

    assert!(receipt.database_deleted);
    assert!(!store.exists.get());
    assert!(receipt.provider_credentials_delete_requested);
    assert!(!receipt.provider_credentials_deleted);
    assert!(receipt.provider_credentials_delete_failed);
    assert!(receipt
        .provider_credentials_delete_error
        .as_deref()
        .is_some_and(|message| message.contains("-60008")));
}

struct CountingProposedCleaner;

impl ProposedItemCleaner for CountingProposedCleaner {
    fn cleanup_proposed_items(&self) -> Result<ProposedItemCleanupReceipt, DeleteMorrowDataError> {
        Ok(ProposedItemCleanupReceipt { calendar_items_deleted: 2, reminder_items_deleted: 3 })
    }
}

#[test]
fn requested_proposed_cleanup_is_reflected_in_receipt() {
    let store = MemoryStore::present();
    let path = "morrow.sqlite".to_owned();

    let receipt = delete_morrow_data_at(
        DeleteMorrowDataRequest::new("DELETE MORROW DATA", true, false, false),
        &path,
        &store,
        &mut FakeMorrowTokenVault::default(),
        &CountingProposedCleaner,
    )
    .expect("delete receipt");

    assert_eq!(receipt.cleanup_plan.proposed_items, DeleteCleanupAction::Completed);
    assert_eq!(receipt.cleanup_plan.proposed_calendar_items_deleted, 2);
    assert_eq!(receipt.cleanup_plan.proposed_reminder_items_deleted, 3);
}

/// A cleaner whose run removes a marker.
struct DeletingProposedCleaner {
    marker: Cell<bool>,
}

impl ProposedItemCleaner for DeletingProposedCleaner {
    fn cleanup_proposed_items(&self) -> Result<ProposedItemCleanupReceipt, DeleteMorrowDataError> {
        self.marker.set(false);
        Ok(ProposedItemCleanupReceipt { calendar_items_deleted: 1, reminder_items_deleted: 1 })
    }
}

#[test]
fn invalid_confirmation_blocks_proposed_cleanup_before_side_effects() {
    let store = MemoryStore::present();
    let cleaner = DeletingProposedCleaner { marker: Cell::new(true) };
    let path = "morrow.sqlite".to_owned();

    let result = delete_morrow_data_at(
        DeleteMorrowDataRequest::new("delete morrow data", true, false, false),
        &path,
        &store,
        &mut FakeMorrowTokenVault::default(),
        &cleaner,
    );

    assert!(result.is_err());
    assert!(cleaner.marker.get());
    assert!(store.exists.get());
}

#[test]
fn declined_revoke_leaves_credentials_alone() {
    let store = MemoryStore::present();
    let path = "morrow.sqlite".to_owned();

    let receipt = delete_morrow_data_at(
        DeleteMorrowDataRequest::new("DELETE MORROW DATA", false, true, false),
        &path,
        &store,
        &mut FailingTokenVault,
        &NoopProposedItemCleaner,
    )
    .expect("delete receipt");

    assert!(!receipt.provider_credentials_delete_requested);
    assert!(!receipt.provider_credentials_delete_failed);
    assert!(receipt.provider_credentials_delete_error.is_none());
    assert_eq!(receipt.cleanup_plan.proposed_items, DeleteCleanupAction::SkippedByUser);
    assert_eq!(receipt.cleanup_plan.empty_proposal_containers, DeleteCleanupAction::AdapterDeferred);
    assert_eq!(receipt.provider_credential_deletes.len(), 2);
}

#[test]
fn native_cleanup_results_become_receipts() {
    let done = RawEventKitCleanupResult {
        ok: 1,
        calendar_items_deleted: 4,
        reminder_items_deleted: 1,
        message: String::new(),
    };
    assert_eq!(
        done.into_receipt(),
        Ok(ProposedItemCleanupReceipt { calendar_items_deleted: 4, reminder_items_deleted: 1 })
    );
    let silent = RawEventKitCleanupResult::default();
    assert_eq!(
        silent.into_receipt().expect_err("failed").to_text(),
        "Morrow proposed item cleanup failed"
    );
    let denied = RawEventKitCleanupResult { message: "Calendar access denied".to_owned(), ..Default::default() };
    assert_eq!(denied.into_receipt().expect_err("failed").to_text(), "Calendar access denied");
}

#[test]
fn revoke_reports_each_vault_answer() {
    let store = MemoryStore::present();
    let path = "morrow.sqlite".to_owned();
    let mut vault = FakeMorrowTokenVault::default();
    vault
        .create(TokenWriteRequest::new(MORROW_KEYCHAIN_SERVICE, MORROW_PROVIDER_TOKEN_KIND, "sk-test"))
        .expect("fake write");

    let receipt = delete_morrow_data_at(
        DeleteMorrowDataRequest::new("DELETE MORROW DATA", false, false, true),
        &path,
        &store,
        &mut vault,
        &NoopProposedItemCleaner,
    )
    .expect("delete receipt");

    assert!(receipt.provider_credentials_deleted);
    assert!(!receipt.provider_credentials_delete_failed);
    assert!(!receipt.provider_credential_deletes[0].deleted);
    assert!(receipt.provider_credential_deletes[1].deleted);
    assert_eq!(receipt.provider_credential_deletes[1].token_kind, MORROW_PROVIDER_TOKEN_KIND);
    let read = vault
        .read(TokenLookupRequest::new(MORROW_KEYCHAIN_SERVICE, MORROW_PROVIDER_TOKEN_KIND))
        .expect("fake read");
    assert!(!read.present);
}

#[test]
fn revoke_without_a_platform_keychain_reports_the_store_error() {
    let store = MemoryStore::present();
    let path = "morrow.sqlite".to_owned();
    let mut vault = MorrowTokenVault::new(UnsupportedPasswordStore);

    let receipt = delete_morrow_data_at(
        DeleteMorrowDataRequest::new("DELETE MORROW DATA", false, false, true),
        &path,
        &store,
        &mut vault,
        &NoopProposedItemCleaner,
    )
    .expect("delete receipt");

    assert!(receipt.database_deleted);
    assert!(receipt.provider_credentials_delete_failed);
    assert!(receipt
        .provider_credentials_delete_error
        .as_deref()
        .is_some_and(|message| message.contains("Security.framework")));
}
