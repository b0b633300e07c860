//! "Delete Morrow data": the confirmation it demands, the order of its
//! steps, and the receipt that reports what each step did.
use vstd::prelude::*;

use crate::keychain::{
    lookup_refusal, FakeMorrowTokenVault, KeychainBridgeError, MorrowTokenVault, PasswordStore,
    TokenLookupRequest, MORROW_KEYCHAIN_SERVICE, MORROW_PROVIDER_TOKEN_KIND, MORROW_TOKEN_KIND,
};
use crate::text::{concat3, owned};

verus! {

/// The exact phrase the user types to confirm deletion.
pub const DELETE_CONFIRMATION_PHRASE: &'static str = "DELETE MORROW DATA";

#[derive(Debug)]
pub struct DeleteMorrowDataRequest {
    pub confirmation: String,
    pub cleanup_proposed_items: bool,
    pub delete_empty_proposal_containers: bool,
    pub revoke_provider_oauth: bool,
}

impl DeleteMorrowDataRequest {
    pub fn new(
        confirmation: &str,
        cleanup_proposed_items: bool,
        delete_empty_proposal_containers: bool,
        revoke_provider_oauth: bool,
    ) -> (r: Self)
        ensures
            r.confirmation@ == confirmation@,
            r.cleanup_proposed_items == cleanup_proposed_items,
            r.delete_empty_proposal_containers == delete_empty_proposal_containers,
            r.revoke_provider_oauth == revoke_provider_oauth,
    {
        DeleteMorrowDataRequest {
            confirmation: owned(confirmation),
            cleanup_proposed_items,
            delete_empty_proposal_containers,
            revoke_provider_oauth,
        }
    }
}

#[derive(Debug, Clone, Copy, PartialEq, Eq, Structural)]
pub enum MorrowDataStorageSurface {
    MorrowStore,
}

#[derive(Debug, Clone, Copy, PartialEq, Eq, Structural)]
pub enum DeleteCleanupAction {
    Completed,
    AdapterDeferred,
    SkippedByUser,
}

#[derive(Debug, Clone, Copy, PartialEq, Eq, Structural)]
pub struct DeleteCleanupPlan {
    pub proposed_items: DeleteCleanupAction,
    pub empty_proposal_containers: DeleteCleanupAction,
    pub proposed_calendar_items_deleted: u64,
    pub proposed_reminder_items_deleted: u64,
}

#[derive(Debug)]
pub struct ProviderCredentialDeleteReceipt {
    pub token_kind: String,
    pub delete_requested: bool,
    pub deleted: bool,
    pub failed: bool,
    pub error: Option<String>,
}

#[derive(Debug)]
pub struct MorrowDataDeleteReceipt {
    pub storage_surface: MorrowDataStorageSurface,
    pub database_deleted: bool,
    pub approved_external_items_deleted: bool,
    pub provider_credentials_delete_requested: bool,
    pub provider_credentials_deleted: bool,
    pub provider_credentials_delete_failed: bool,
    pub provider_credentials_delete_error: Option<String>,
    pub provider_credential_deletes: Vec<ProviderCredentialDeleteReceipt>,
    pub cleanup_plan: DeleteCleanupPlan,
}

#[derive(Debug, PartialEq, Eq)]
pub struct DeleteMorrowDataError {
    message: String,
}

impl DeleteMorrowDataError {
    pub closed spec fn spec_message(&self) -> Seq<char> {
        self.message@
    }

    pub fn storage_unavailable(message: String) -> (r: Self)
        ensures
            r.spec_message() == message@,
    {
        DeleteMorrowDataError { message }
    }

    /// A Keychain failure carried over with its message.
    pub fn from_keychain(error: KeychainBridgeError) -> (r: Self)
        ensures
            r.spec_message() == error.spec_message(),
    {
        DeleteMorrowDataError { message: error.to_text() }
    }

    /// The message the error displays.
    pub fn to_text(&self) -> (r: String)
        ensures
            r@ == self.spec_message(),
    {
        self.message.clone()
    }
}

/// What the cleanup of proposed Calendar and Reminders items removed.
#[derive(Debug, Clone, Copy, PartialEq, Eq, Structural)]
pub struct ProposedItemCleanupReceipt {
    pub calendar_items_deleted: u64,
    pub reminder_items_deleted: u64,
}

/// What the local store deletion removed.
#[derive(Debug, Clone, Copy, PartialEq, Eq, Structural)]
pub struct StoreDeleteReceipt {
    pub database_deleted: bool,
    pub approved_external_items_deleted: bool,
}

/// Removes the Morrow-owned items that are still proposals.
pub trait ProposedItemCleaner {
    fn cleanup_proposed_items(&self) -> Result<ProposedItemCleanupReceipt, DeleteMorrowDataError>;
}

/// Deletes the local Morrow store.
pub trait MorrowStoreEraser {
    fn delete_all_at(&self, store_path: &String) -> Result<StoreDeleteReceipt, DeleteMorrowDataError>;
}

/// Deletes one Morrow token, reporting whether one was stored.
pub trait MorrowTokenDeleter {
    fn delete_morrow_token(&mut self, request: TokenLookupRequest) -> Result<
        bool,
        KeychainBridgeError,
    >;
}

impl<S: PasswordStore> MorrowTokenDeleter for MorrowTokenVault<S> {
    fn delete_morrow_token(&mut self, request: TokenLookupRequest) -> (r: Result<
        bool,
        KeychainBridgeError,
    >)
        ensures
            lookup_refusal(request.service@, request.token_kind@) matches Some(code) ==> (r matches Err(e)
                && e.spec_code() == code),
    {
        match self.delete(request) {
            Ok(receipt) => Ok(receipt.deleted),
            Err(e) => Err(e),
        }
    }
}

impl MorrowTokenDeleter for FakeMorrowTokenVault {
    fn delete_morrow_token(&mut self, request: TokenLookupRequest) -> (r: Result<
        bool,
        KeychainBridgeError,
    >)
        ensures
            lookup_refusal(request.service@, request.token_kind@) matches Some(code) ==> (r matches Err(e)
                && e.spec_code() == code && *final(self) == *old(self)),
            lookup_refusal(request.service@, request.token_kind@) is None ==> (r matches Ok(deleted)
                && deleted == old(self).stored(request.token_kind@) is Some),
            lookup_refusal(request.service@, request.token_kind@) is None ==> forall|
                k: Seq<char>,
            |
                #[trigger] final(self).stored(k) == if k == request.token_kind@ {
                    None
                } else {
                    old(self).stored(k)
                },
    {
        match self.delete(request) {
            Ok(receipt) => Ok(receipt.deleted),
            Err(e) => Err(e),
        }
    }
}

/// What the native EventKit cleanup reports, its message buffer read as
/// text.
#[derive(Debug, Clone)]
pub struct RawEventKitCleanupResult {
    pub ok: i32,
    pub calendar_items_deleted: u64,
    pub reminder_items_deleted: u64,
    pub message: String,
}

impl Default for RawEventKitCleanupResult {
    fn default() -> (r: Self)
        ensures
            r.ok == 0,
            r.calendar_items_deleted == 0,
            r.reminder_items_deleted == 0,
            r.message@.len() == 0,
    {
        RawEventKitCleanupResult {
            ok: 0,
            calendar_items_deleted: 0,
            reminder_items_deleted: 0,
            message: String::new(),
        }
    }
}

/// The cleanup's message, or a fallback when it left none.
pub open spec fn cleanup_message(raw: RawEventKitCleanupResult) -> Seq<char> {
    if raw.message@.len() == 0 {
        "Morrow proposed item cleanup failed"@
    } else {
        raw.message@
    }
}

impl RawEventKitCleanupResult {
    pub fn message_string(&self) -> (r: String)
        ensures
            r@ == cleanup_message(*self),
    {
        if self.message.as_str().unicode_len() == 0 {
            owned("Morrow proposed item cleanup failed")
        } else {
            self.message.clone()
        }
    }

    /// The counts the cleanup deleted when it succeeded, else its message
    /// as the error.
    pub fn into_receipt(self) -> (r: Result<ProposedItemCleanupReceipt, DeleteMorrowDataError>)
        ensures
            self.ok != 0 ==> r == Ok::<ProposedItemCleanupReceipt, DeleteMorrowDataError>(
                ProposedItemCleanupReceipt {
                    calendar_items_deleted: self.calendar_items_deleted,
                    reminder_items_deleted: self.reminder_items_deleted,
                },
            ),
            self.ok == 0 ==> (r matches Err(e) && e.spec_message() == cleanup_message(self)),
    {
        if self.ok == 0 {
            return Err(DeleteMorrowDataError::storage_unavailable(self.message_string()));
        }
        Ok(
            ProposedItemCleanupReceipt {
                calendar_items_deleted: self.calendar_items_deleted,
                reminder_items_deleted: self.reminder_items_deleted,
            },
        )
    }
}

/// Leaves proposed items in place.
#[derive(Debug, Default, Clone, Copy)]
pub struct NoopProposedItemCleaner;

impl ProposedItemCleaner for NoopProposedItemCleaner {
    fn cleanup_proposed_items(&self) -> (r: Result<ProposedItemCleanupReceipt, DeleteMorrowDataError>)
        ensures
            r matches Ok(receipt) && receipt.calendar_items_deleted == 0
                && receipt.reminder_items_deleted == 0,
    {
        Ok(ProposedItemCleanupReceipt { calendar_items_deleted: 0, reminder_items_deleted: 0 })
    }
}

/// The cleaner used where EventKit is not available: it always fails.
#[derive(Debug, Default, Clone, Copy)]
pub struct UnavailableEventKitCleaner;

impl ProposedItemCleaner for UnavailableEventKitCleaner {
    fn cleanup_proposed_items(&self) -> (r: Result<ProposedItemCleanupReceipt, DeleteMorrowDataError>)
        ensures
            r matches Err(e) && e.spec_message()
                == "Morrow proposed item cleanup requires macOS EventKit"@,
    {
        Err(
            DeleteMorrowDataError::storage_unavailable(
                owned("Morrow proposed item cleanup requires macOS EventKit"),
            ),
        )
    }
}

/// The two token kinds whose deletion "revoke provider OAuth" requests, in
/// the order they are reported.
pub open spec fn provider_token_kind_texts() -> Seq<Seq<char>> {
    seq![MORROW_TOKEN_KIND@, MORROW_PROVIDER_TOKEN_KIND@]
}

pub fn provider_token_kinds() -> (r: [&'static str; 2])
    ensures
        r@.map_values(|k: &str| k@) == provider_token_kind_texts(),
{
    let r = [MORROW_TOKEN_KIND, MORROW_PROVIDER_TOKEN_KIND];
    assert(r@.map_values(|k: &str| k@) =~= provider_token_kind_texts());
    r
}

/// The mathematical content of a credential receipt.
pub struct CredentialReceiptView {
    pub token_kind: Seq<char>,
    pub delete_requested: bool,
    pub deleted: bool,
    pub failed: bool,
    pub error: Option<Seq<char>>,
}

pub open spec fn opt_view(o: Option<String>) -> Option<Seq<char>> {
    match o {
        Some(s) => Some(s@),
        None => None,
    }
}

impl View for ProviderCredentialDeleteReceipt {
    type V = CredentialReceiptView;

    open spec fn view(&self) -> CredentialReceiptView {
        CredentialReceiptView {
            token_kind: self.token_kind@,
            delete_requested: self.delete_requested,
            deleted: self.deleted,
            failed: self.failed,
            error: opt_view(self.error),
        }
    }
}

/// The receipt for one token kind: `None` when no deletion was requested,
/// otherwise what the vault answered (whether a token was deleted, or the
/// message of its error).
pub open spec fn credential_receipt(
    token_kind: Seq<char>,
    outcome: Option<Result<bool, Seq<char>>>,
) -> CredentialReceiptView {
    match outcome {
        None => CredentialReceiptView {
            token_kind,
            delete_requested: false,
            deleted: false,
            failed: false,
            error: None,
        },
        Some(Ok(deleted)) => CredentialReceiptView {
            token_kind,
            delete_requested: true,
            deleted,
            failed: false,
            error: None,
        },
        Some(Err(message)) => CredentialReceiptView {
            token_kind,
            delete_requested: true,
            deleted: false,
            failed: true,
            error: Some(message),
        },
    }
}

/// The vault's answer to a delete, with the error by its message.
pub open spec fn vault_answer(outcome: Result<bool, KeychainBridgeError>) -> Result<bool, Seq<char>> {
    match outcome {
        Ok(deleted) => Ok(deleted),
        Err(e) => Err(e.spec_message()),
    }
}

/// The receipt for one token kind given the vault's answer.
pub fn credential_receipt_for_outcome(
    token_kind: &str,
    outcome: Option<Result<bool, KeychainBridgeError>>,
) -> (r: ProviderCredentialDeleteReceipt)
    ensures
        r@ == credential_receipt(
            token_kind@,
            match outcome {
                None => None,
                Some(Ok(d)) => Some(Ok(d)),
                Some(Err(e)) => Some(Err(e.spec_message())),
            },
        ),
{
    match outcome {
        None => ProviderCredentialDeleteReceipt {
            token_kind: owned(token_kind),
            delete_requested: false,
            deleted: false,
            failed: false,
            error: None,
        },
        Some(Ok(deleted)) => ProviderCredentialDeleteReceipt {
            token_kind: owned(token_kind),
            delete_requested: true,
            deleted,
            failed: false,
            error: None,
        },
        Some(Err(error)) => ProviderCredentialDeleteReceipt {
            token_kind: owned(token_kind),
            delete_requested: true,
            deleted: false,
            failed: true,
            error: Some(error.to_text()),
        },
    }
}

/// One delete asked of the vault through `vault`: it was asked to delete
/// `token_kind` under Morrow's service, and `receipt` reports the answer it
/// gave.
pub open spec fn vault_delete_step<T: MorrowTokenDeleter>(
    vault: &mut T,
    token_kind: Seq<char>,
    receipt: CredentialReceiptView,
) -> bool {
    exists|lookup: TokenLookupRequest, outcome: Result<bool, KeychainBridgeError>|
        lookup.service@ == MORROW_KEYCHAIN_SERVICE@ && lookup.token_kind@ == token_kind
            && #[trigger] call_ensures(T::delete_morrow_token, (vault, lookup), outcome)
            && receipt == credential_receipt(token_kind, Some(vault_answer(outcome)))
}

/// Deletes one provider token kind when requested and reports the outcome.
/// Nothing is asked of the vault when no deletion was requested.
pub fn provider_credential_delete_receipt<T: MorrowTokenDeleter>(
    requested: bool,
    token_kind: &str,
    token_vault: &mut T,
) -> (r: ProviderCredentialDeleteReceipt)
    ensures
        !requested ==> r@ == credential_receipt(token_kind@, None) && *final(token_vault) == *old(
            token_vault,
        ),
        requested ==> exists|vault: &mut T|
            *vault == *old(token_vault) && *final(vault) == *final(token_vault)
                && #[trigger] vault_delete_step(vault, token_kind@, r@),
{
    if !requested {
        return credential_receipt_for_outcome(token_kind, None);
    }
    let lookup = TokenLookupRequest::new(MORROW_KEYCHAIN_SERVICE, token_kind);
    let ghost asked = lookup;
    let outcome = token_vault.delete_morrow_token(lookup);
    let ghost seen = outcome;
    let r = credential_receipt_for_outcome(token_kind, Some(outcome));
    assert(exists|vault: &mut T|
        *vault == *old(token_vault) && *final(vault) == *final(token_vault)
            && #[trigger] call_ensures(T::delete_morrow_token, (vault, asked), seen)
            && vault_delete_step(vault, token_kind@, r@));
    r
}

/// One receipt per provider token kind, in the order of
/// [`provider_token_kind_texts`]. When revocation is requested the vault is
/// asked to delete each kind in turn, and each receipt reports the answer it
/// gave; otherwise the vault is left alone.
pub fn provider_credential_delete_receipts<T: MorrowTokenDeleter>(
    requested: bool,
    token_vault: &mut T,
) -> (r: Vec<ProviderCredentialDeleteReceipt>)
    ensures
        r@.len() == 2,
        forall|i: int|
            0 <= i < 2 ==> (#[trigger] r@[i])@.token_kind == provider_token_kind_texts()[i]
                && r@[i]@.delete_requested == requested,
        !requested ==> forall|i: int|
            0 <= i < 2 ==> (#[trigger] r@[i])@ == credential_receipt(
                provider_token_kind_texts()[i],
                None,
            ),
        !requested ==> *final(token_vault) == *old(token_vault),
        requested ==> exists|first: &mut T, second: &mut T|
            *first == *old(token_vault) && *final(first) == *second
                && *final(second) == *final(token_vault)
                && #[trigger] vault_delete_step(first, provider_token_kind_texts()[0], r@[0]@)
                && #[trigger] vault_delete_step(second, provider_token_kind_texts()[1], r@[1]@),
{
    let kinds = provider_token_kinds();
    let first = provider_credential_delete_receipt(requested, kinds[0], token_vault);
    let ghost mid = *token_vault;
    assert(requested ==> exists|vault: &mut T|
        *vault == *old(token_vault) && *final(vault) == mid
            && #[trigger] vault_delete_step(vault, kinds[0]@, first@));
    let second = provider_credential_delete_receipt(requested, kinds[1], token_vault);
    assert(requested ==> exists|vault: &mut T|
        *vault == mid && *final(vault) == *final(token_vault)
            && #[trigger] vault_delete_step(vault, kinds[1]@, second@));
    let ghost first_view = first@;
    let ghost second_view = second@;
    let mut r: Vec<ProviderCredentialDeleteReceipt> = Vec::new();
    r.push(first);
    r.push(second);
    proof {
        assert(kinds@.map_values(|k: &str| k@)[0] == kinds@[0]@);
        assert(kinds@.map_values(|k: &str| k@)[1] == kinds@[1]@);
        assert(r@[0]@ == first_view && r@[1]@ == second_view);
        if requested {
            let first_vault = choose|vault: &mut T|
                *vault == *old(token_vault) && *final(vault) == mid
                    && #[trigger] vault_delete_step(vault, kinds[0]@, first_view);
            let second_vault = choose|vault: &mut T|
                *vault == mid && *final(vault) == *final(token_vault)
                    && #[trigger] vault_delete_step(vault, kinds[1]@, second_view);
            assert(vault_delete_step(first_vault, provider_token_kind_texts()[0], r@[0]@));
            assert(vault_delete_step(second_vault, provider_token_kind_texts()[1], r@[1]@));
        }
    }
    r
}

/// The summary over all credential receipts.
pub struct ProviderOAuthDeleteReceipt {
    pub deleted: bool,
    pub failed: bool,
    pub error: Option<String>,
}

/// The error lines of the receipts that failed, as `kind: message`.
pub open spec fn error_lines(receipts: Seq<CredentialReceiptView>) -> Seq<Seq<char>>
    decreases receipts.len(),
{
    if receipts.len() == 0 {
        Seq::empty()
    } else {
        let rest = error_lines(receipts.drop_last());
        match receipts.last().error {
            Some(message) => rest.push(receipts.last().token_kind + ": "@ + message),
            None => rest,
        }
    }
}

/// Lines joined by `sep`.
pub open spec fn join_lines(lines: Seq<Seq<char>>, sep: Seq<char>) -> Seq<char>
    decreases lines.len(),
{
    if lines.len() == 0 {
        Seq::empty()
    } else if lines.len() == 1 {
        lines[0]
    } else {
        join_lines(lines.drop_last(), sep) + sep + lines.last()
    }
}

pub open spec fn receipt_views(receipts: Seq<ProviderCredentialDeleteReceipt>) -> Seq<
    CredentialReceiptView,
> {
    receipts.map_values(|r: ProviderCredentialDeleteReceipt| r@)
}

/// Summarises the credential receipts: deleted or failed when any token
/// was, with every failure message joined by "; ".
pub fn provider_oauth_delete_receipt(receipts: &Vec<ProviderCredentialDeleteReceipt>) -> (r:
    ProviderOAuthDeleteReceipt)
    ensures
        r.deleted == exists|i: int| 0 <= i < receipts@.len() && (#[trigger] receipts@[i]).deleted,
        r.failed == exists|i: int| 0 <= i < receipts@.len() && (#[trigger] receipts@[i]).failed,
        error_lines(receipt_views(receipts@)).len() == 0 ==> r.error is None,
        error_lines(receipt_views(receipts@)).len() != 0 ==> opt_view(r.error) == Some(
            join_lines(error_lines(receipt_views(receipts@)), "; "@),
        ),
{
    let n = receipts.len();
    let mut deleted = false;
    let mut failed = false;
    let mut joined = String::new();
    let mut count: usize = 0;
    for i in 0..n
        invariant
            n == receipts@.len(),
            deleted == exists|k: int| 0 <= k < i && (#[trigger] receipts@[k]).deleted,
            failed == exists|k: int| 0 <= k < i && (#[trigger] receipts@[k]).failed,
            count == error_lines(receipt_views(receipts@.take(i as int))).len(),
            count <= i,
            joined@ == join_lines(error_lines(receipt_views(receipts@.take(i as int))), "; "@),
    {
        let receipt = &receipts[i];
        proof {
            assert(receipts@.take(i + 1).drop_last() == receipts@.take(i as int));
            assert(receipt_views(receipts@.take(i + 1)).drop_last() == receipt_views(
                receipts@.take(i as int),
            ));
            assert(receipt_views(receipts@.take(i + 1)).last() == receipt@);
        }
        if receipt.deleted {
            deleted = true;
        }
        if receipt.failed {
            failed = true;
        }
        match &receipt.error {
            Some(error) => {
                let line = concat3(receipt.token_kind.as_str(), ": ", error.as_str());
                let ghost prev = error_lines(receipt_views(receipts@.take(i as int)));
                proof {
                    assert(error_lines(receipt_views(receipts@.take(i + 1))) == prev.push(line@));
                    assert(prev.push(line@).drop_last() == prev);
                    assert(prev.push(line@).last() == line@);
                    if prev.len() == 0 {
                        assert(prev.push(line@)[0] == line@);
                    }
                }
                if count > 0 {
                    joined.append("; ");
                }
                joined.append(line.as_str());
                count = count + 1;
            },
            None => {},
        }
    }
    assert(receipts@.take(n as int) == receipts@);
    let error = if count == 0 {
        None
    } else {
        Some(joined)
    };
    ProviderOAuthDeleteReceipt { deleted, failed, error }
}

/// The action reported for empty-container cleanup.
pub fn cleanup_action(requested: bool) -> (r: DeleteCleanupAction)
    ensures
        r == if requested {
            DeleteCleanupAction::AdapterDeferred
        } else {
            DeleteCleanupAction::SkippedByUser
        },
{
    if requested {
        DeleteCleanupAction::AdapterDeferred
    } else {
        DeleteCleanupAction::SkippedByUser
    }
}

/// The action reported for proposed-item cleanup.
pub fn proposed_items_action(requested: bool) -> (r: DeleteCleanupAction)
    ensures
        r == if requested {
            DeleteCleanupAction::Completed
        } else {
            DeleteCleanupAction::SkippedByUser
        },
{
    if requested {
        DeleteCleanupAction::Completed
    } else {
        DeleteCleanupAction::SkippedByUser
    }
}

/// The cleanup part of the delete receipt.
pub fn cleanup_plan(request: &DeleteMorrowDataRequest, proposed_items: ProposedItemCleanupReceipt) -> (r:
    DeleteCleanupPlan)
    ensures
        r.proposed_items == (if request.cleanup_proposed_items {
            DeleteCleanupAction::Completed
        } else {
            DeleteCleanupAction::SkippedByUser
        }),
        r.empty_proposal_containers == (if request.delete_empty_proposal_containers {
            DeleteCleanupAction::AdapterDeferred
        } else {
            DeleteCleanupAction::SkippedByUser
        }),
        r.proposed_calendar_items_deleted == proposed_items.calendar_items_deleted,
        r.proposed_reminder_items_deleted == proposed_items.reminder_items_deleted,
{
    DeleteCleanupPlan {
        proposed_items: proposed_items_action(request.cleanup_proposed_items),
        empty_proposal_containers: cleanup_action(request.delete_empty_proposal_containers),
        proposed_calendar_items_deleted: proposed_items.calendar_items_deleted,
        proposed_reminder_items_deleted: proposed_items.reminder_items_deleted,
    }
}

/// The error for a confirmation other than the exact phrase.
pub fn invalid_confirmation_error() -> (r: DeleteMorrowDataError)
    ensures
        r.spec_message() == "delete confirmation must be exactly DELETE MORROW DATA"@,
{
    DeleteMorrowDataError::storage_unavailable(
        owned("delete confirmation must be exactly DELETE MORROW DATA"),
    )
}

/// The cleanup plan of a request after cleanup removed `proposed`.
pub open spec fn plan_of(request: DeleteMorrowDataRequest, proposed: ProposedItemCleanupReceipt) -> DeleteCleanupPlan {
    DeleteCleanupPlan {
        proposed_items: if request.cleanup_proposed_items {
            DeleteCleanupAction::Completed
        } else {
            DeleteCleanupAction::SkippedByUser
        },
        empty_proposal_containers: if request.delete_empty_proposal_containers {
            DeleteCleanupAction::AdapterDeferred
        } else {
            DeleteCleanupAction::SkippedByUser
        },
        proposed_calendar_items_deleted: proposed.calendar_items_deleted,
        proposed_reminder_items_deleted: proposed.reminder_items_deleted,
    }
}

/// The receipt of a deletion: what the store deletion removed, the
/// credential receipts and their summary, and the cleanup plan with the
/// counts the proposed-item cleanup reported.
pub open spec fn delete_receipt_of(
    request: DeleteMorrowDataRequest,
    proposed: ProposedItemCleanupReceipt,
    store: StoreDeleteReceipt,
    credentials: Seq<ProviderCredentialDeleteReceipt>,
    receipt: MorrowDataDeleteReceipt,
) -> bool {
    let views = receipt_views(credentials);
    &&& receipt.storage_surface == MorrowDataStorageSurface::MorrowStore
    &&& receipt.database_deleted == store.database_deleted
    &&& receipt.approved_external_items_deleted == store.approved_external_items_deleted
    &&& receipt.provider_credentials_delete_requested == request.revoke_provider_oauth
    &&& receipt_views(receipt.provider_credential_deletes@) == views
    &&& receipt.provider_credentials_deleted == exists|i: int|
        0 <= i < credentials.len() && (#[trigger] credentials[i]).deleted
    &&& receipt.provider_credentials_delete_failed == exists|i: int|
        0 <= i < credentials.len() && (#[trigger] credentials[i]).failed
    &&& (error_lines(views).len() == 0 ==> receipt.provider_credentials_delete_error is None)
    &&& (error_lines(views).len() != 0 ==> opt_view(receipt.provider_credentials_delete_error)
        == Some(join_lines(error_lines(views), "; "@)))
    &&& receipt.cleanup_plan == plan_of(request, proposed)
}

/// A deletion's receipt reports what each step reported: the store's
/// removals, the requested revocation, the cleanup's counts, and a deleted
/// (or failed) credential exactly when some credential receipt says so.
pub proof fn law_delete_receipt_reports_each_step(
    request: DeleteMorrowDataRequest,
    proposed: ProposedItemCleanupReceipt,
    store: StoreDeleteReceipt,
    credentials: Seq<ProviderCredentialDeleteReceipt>,
    receipt: MorrowDataDeleteReceipt,
)
    requires
        delete_receipt_of(request, proposed, store, credentials, receipt),
    ensures
        receipt.database_deleted == store.database_deleted,
        receipt.approved_external_items_deleted == store.approved_external_items_deleted,
        receipt.provider_credentials_delete_requested == request.revoke_provider_oauth,
        receipt.cleanup_plan.proposed_calendar_items_deleted == proposed.calendar_items_deleted,
        receipt.cleanup_plan.proposed_reminder_items_deleted == proposed.reminder_items_deleted,
        (receipt.cleanup_plan.proposed_items == DeleteCleanupAction::Completed)
            == request.cleanup_proposed_items,
        receipt.provider_credentials_deleted <==> exists|i: int|
            0 <= i < credentials.len() && (#[trigger] credentials[i]).deleted,
        receipt.provider_credentials_delete_failed <==> exists|i: int|
            0 <= i < credentials.len() && (#[trigger] credentials[i]).failed,
{
}

/// Builds the receipt of a deletion from what each step reported.
pub fn morrow_data_delete_receipt(
    request: &DeleteMorrowDataRequest,
    proposed: ProposedItemCleanupReceipt,
    store: StoreDeleteReceipt,
    credentials: Vec<ProviderCredentialDeleteReceipt>,
) -> (r: MorrowDataDeleteReceipt)
    ensures
        delete_receipt_of(*request, proposed, store, credentials@, r),
        r.provider_credential_deletes@ == credentials@,
        r.database_deleted == store.database_deleted,
        r.approved_external_items_deleted == store.approved_external_items_deleted,
        r.provider_credentials_delete_requested == request.revoke_provider_oauth,
        r.cleanup_plan.proposed_calendar_items_deleted == proposed.calendar_items_deleted,
        r.cleanup_plan.proposed_reminder_items_deleted == proposed.reminder_items_deleted,
{
    let summary = provider_oauth_delete_receipt(&credentials);
    let plan = cleanup_plan(request, proposed);
    MorrowDataDeleteReceipt {
        storage_surface: MorrowDataStorageSurface::MorrowStore,
        database_deleted: store.database_deleted,
        approved_external_items_deleted: store.approved_external_items_deleted,
        provider_credentials_delete_requested: request.revoke_provider_oauth,
        provider_credentials_deleted: summary.deleted,
        provider_credentials_delete_failed: summary.failed,
        provider_credentials_delete_error: summary.error,
        provider_credential_deletes: credentials,
        cleanup_plan: plan,
    }
}

/// What the proposed-item cleanup step gave: the cleaner's answer when
/// cleanup was requested, else nothing removed.
pub open spec fn cleanup_step<C: ProposedItemCleaner>(
    cleaner: &C,
    requested: bool,
    outcome: Result<ProposedItemCleanupReceipt, DeleteMorrowDataError>,
) -> bool {
    if requested {
        call_ensures(C::cleanup_proposed_items, (cleaner,), outcome)
    } else {
        outcome == Ok::<ProposedItemCleanupReceipt, DeleteMorrowDataError>(
            ProposedItemCleanupReceipt { calendar_items_deleted: 0, reminder_items_deleted: 0 },
        )
    }
}

/// Deletes Morrow's data in order: the confirmation is checked before any
/// side effect; proposed items are cleaned when requested; the local store
/// is deleted; then provider credentials are revoked when requested. A
/// failing credential delete does not stop the deletion: it is reported in
/// the receipt.
pub fn delete_morrow_data_at<E: MorrowStoreEraser, T: MorrowTokenDeleter, C: ProposedItemCleaner>(
    request: DeleteMorrowDataRequest,
    store_path: &String,
    store: &E,
    token_vault: &mut T,
    proposed_item_cleaner: &C,
) -> (r: Result<MorrowDataDeleteReceipt, DeleteMorrowDataError>)
    ensures
        request.confirmation@ != DELETE_CONFIRMATION_PHRASE@ ==> (r matches Err(e)
            && e.spec_message() == "delete confirmation must be exactly DELETE MORROW DATA"@
            && *final(token_vault) == *old(token_vault)),
        r is Err && request.confirmation@ == DELETE_CONFIRMATION_PHRASE@ ==> *final(token_vault)
            == *old(token_vault),
        r matches Ok(receipt) ==> {
            &&& request.confirmation@ == DELETE_CONFIRMATION_PHRASE@
            &&& receipt.storage_surface == MorrowDataStorageSurface::MorrowStore
            &&& receipt.provider_credentials_delete_requested == request.revoke_provider_oauth
            &&& receipt.provider_credential_deletes@.len() == 2
            &&& receipt.provider_credentials_deleted == exists|i: int|
                0 <= i < 2 && (#[trigger] receipt.provider_credential_deletes@[i]).deleted
            &&& receipt.provider_credentials_delete_failed == exists|i: int|
                0 <= i < 2 && (#[trigger] receipt.provider_credential_deletes@[i]).failed
            &&& forall|i: int|
                0 <= i < 2 ==> (#[trigger] receipt.provider_credential_deletes@[i]).delete_requested
                    == request.revoke_provider_oauth
            &&& receipt.cleanup_plan.proposed_items == (if request.cleanup_proposed_items {
                DeleteCleanupAction::Completed
            } else {
                DeleteCleanupAction::SkippedByUser
            })
            &&& receipt.cleanup_plan.empty_proposal_containers == (
            if request.delete_empty_proposal_containers {
                DeleteCleanupAction::AdapterDeferred
            } else {
                DeleteCleanupAction::SkippedByUser
            })
            &&& !request.cleanup_proposed_items ==> receipt.cleanup_plan.proposed_calendar_items_deleted
                == 0 && receipt.cleanup_plan.proposed_reminder_items_deleted == 0
            &&& !request.revoke_provider_oauth ==> !receipt.provider_credentials_deleted
                && !receipt.provider_credentials_delete_failed
                && receipt.provider_credentials_delete_error is None
        },
        request.confirmation@ == DELETE_CONFIRMATION_PHRASE@ ==> exists|
            cleanup: Result<ProposedItemCleanupReceipt, DeleteMorrowDataError>,
        |
            #[trigger] cleanup_step(proposed_item_cleaner, request.cleanup_proposed_items, cleanup)
                && match cleanup {
                Err(e) => r == Err::<MorrowDataDeleteReceipt, DeleteMorrowDataError>(e),
                Ok(proposed) => exists|stored: Result<StoreDeleteReceipt, DeleteMorrowDataError>|
                    #[trigger] call_ensures(E::delete_all_at, (store, store_path), stored)
                        && match stored {
                        Err(e) => r == Err::<MorrowDataDeleteReceipt, DeleteMorrowDataError>(e),
                        Ok(removed) => r matches Ok(receipt) && delete_receipt_of(
                            request,
                            proposed,
                            removed,
                            receipt.provider_credential_deletes@,
                            receipt,
                        ) && if request.revoke_provider_oauth {
                            exists|first: &mut T, second: &mut T|
                                *first == *old(token_vault) && *final(first) == *second
                                    && *final(second) == *final(token_vault) && #[trigger] vault_delete_step(
                                    first,
                                    provider_token_kind_texts()[0],
                                    receipt.provider_credential_deletes@[0]@,
                                ) && #[trigger] vault_delete_step(
                                    second,
                                    provider_token_kind_texts()[1],
                                    receipt.provider_credential_deletes@[1]@,
                                )
                        } else {
                            *final(token_vault) == *old(token_vault)
                        },
                    },
            },
{
    let phrase = owned(DELETE_CONFIRMATION_PHRASE);
    if request.confirmation != phrase {
        return Err(invalid_confirmation_error());
    }
    let cleanup = if request.cleanup_proposed_items {
        proposed_item_cleaner.cleanup_proposed_items()
    } else {
        Ok(ProposedItemCleanupReceipt { calendar_items_deleted: 0, reminder_items_deleted: 0 })
    };
    let ghost cleanup_seen = cleanup;
    assert(cleanup_step(proposed_item_cleaner, request.cleanup_proposed_items, cleanup_seen));
    let proposed_items = match cleanup {
        Ok(p) => p,
        Err(e) => {
            return Err(e);
        },
    };
    let stored = store.delete_all_at(store_path);
    let ghost stored_seen = stored;
    assert(call_ensures(E::delete_all_at, (store, store_path), stored_seen));
    let delete_receipt = match stored {
        Ok(d) => d,
        Err(e) => {
            return Err(e);
        },
    };
    let provider_credentials = provider_credential_delete_receipts(
        request.revoke_provider_oauth,
        token_vault,
    );
    proof {
        if !request.revoke_provider_oauth {
            assert(provider_credentials@[0]@.error is None);
            assert(provider_credentials@[1]@.error is None);
            assert(receipt_views(provider_credentials@).len() == 2);
            assert(receipt_views(provider_credentials@)[0] == provider_credentials@[0]@);
            assert(receipt_views(provider_credentials@)[1] == provider_credentials@[1]@);
            assert(receipt_views(provider_credentials@).drop_last().drop_last() =~= Seq::<
                CredentialReceiptView,
            >::empty());
            reveal_with_fuel(error_lines, 3);
            assert(error_lines(receipt_views(provider_credentials@)).len() == 0);
        }
    }
    let ghost credentials = provider_credentials@;
    let receipt = morrow_data_delete_receipt(
        &request,
        proposed_items,
        delete_receipt,
        provider_credentials,
    );
    assert(receipt.provider_credential_deletes@ == credentials);
    Ok(receipt)
}

} // verus!
