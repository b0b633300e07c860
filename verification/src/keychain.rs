//! Morrow's Keychain token bridge: which service and token kinds it
//! accepts, the receipts it gives, and an in-memory vault for tests.
use vstd::prelude::*;

use crate::text::{concat2, concat3, owned, signed_decimal, signed_decimal_string};

verus! {

pub const MORROW_KEYCHAIN_SERVICE: &'static str = "com.morrow.desktop.token";

pub const MORROW_TOKEN_KIND: &'static str = "morrow-owned-token";

pub const MORROW_PROVIDER_TOKEN_KIND: &'static str = "morrow-provider-token";

#[derive(Debug, Clone, Copy, PartialEq, Eq, Structural)]
pub enum TokenStorageSurface {
    KeychainBridge,
}

#[derive(Debug, Clone, Copy, PartialEq, Eq, Structural)]
pub enum KeychainErrorCode {
    UnsupportedService,
    UnsupportedTokenKind,
    StorageUnavailable,
}

#[derive(Debug, PartialEq, Eq)]
pub struct KeychainBridgeError {
    code: KeychainErrorCode,
    message: String,
}

impl KeychainBridgeError {
    pub closed spec fn spec_code(&self) -> KeychainErrorCode {
        self.code
    }

    pub closed spec fn spec_message(&self) -> Seq<char> {
        self.message@
    }

    pub fn code(&self) -> (r: KeychainErrorCode)
        ensures
            r == self.spec_code(),
    {
        self.code
    }

    /// The message the error displays.
    pub fn to_text(&self) -> (r: String)
        ensures
            r@ == self.spec_message(),
    {
        self.message.clone()
    }

    pub fn unsupported_service(service: &str) -> (r: Self)
        ensures
            r.spec_code() == KeychainErrorCode::UnsupportedService,
            r.spec_message() == "unsupported Keychain service: "@ + service@,
    {
        KeychainBridgeError {
            code: KeychainErrorCode::UnsupportedService,
            message: concat2("unsupported Keychain service: ", service),
        }
    }

    pub fn unsupported_token_kind(token_kind: &str) -> (r: Self)
        ensures
            r.spec_code() == KeychainErrorCode::UnsupportedTokenKind,
            r.spec_message() == "unsupported token kind: "@ + token_kind@,
    {
        KeychainBridgeError {
            code: KeychainErrorCode::UnsupportedTokenKind,
            message: concat2("unsupported token kind: ", token_kind),
        }
    }

    pub fn storage_unavailable(message: String) -> (r: Self)
        ensures
            r.spec_code() == KeychainErrorCode::StorageUnavailable,
            r.spec_message() == message@,
    {
        KeychainBridgeError { code: KeychainErrorCode::StorageUnavailable, message }
    }
}

#[derive(Debug)]
pub struct TokenLookupRequest {
    pub service: String,
    pub token_kind: String,
}

impl TokenLookupRequest {
    pub fn new(service: &str, token_kind: &str) -> (r: Self)
        ensures
            r.service@ == service@,
            r.token_kind@ == token_kind@,
    {
        TokenLookupRequest { service: owned(service), token_kind: owned(token_kind) }
    }
}

#[derive(Debug)]
pub struct TokenWriteRequest {
    pub service: String,
    pub token_kind: String,
    pub token: String,
}

impl TokenWriteRequest {
    pub fn new(service: &str, token_kind: &str, token: &str) -> (r: Self)
        ensures
            r.service@ == service@,
            r.token_kind@ == token_kind@,
            r.token@ == token@,
    {
        TokenWriteRequest {
            service: owned(service),
            token_kind: owned(token_kind),
            token: owned(token),
        }
    }

    /// The lookup naming the same service and token kind.
    pub fn lookup(&self) -> (r: TokenLookupRequest)
        ensures
            r.service@ == self.service@,
            r.token_kind@ == self.token_kind@,
    {
        TokenLookupRequest { service: self.service.clone(), token_kind: self.token_kind.clone() }
    }
}

#[derive(Debug)]
pub struct TokenCommandReceipt {
    pub storage_surface: TokenStorageSurface,
    pub stored: bool,
    pub deleted: bool,
}

#[derive(Debug)]
pub struct TokenReadResponse {
    pub storage_surface: TokenStorageSurface,
    pub present: bool,
    pub token: Option<String>,
}

/// The token kinds the bridge stores.
pub open spec fn supported_token_kind(kind: Seq<char>) -> bool {
    kind == MORROW_TOKEN_KIND@ || kind == MORROW_PROVIDER_TOKEN_KIND@
}

/// The error a lookup is refused with, if any: the service is checked
/// before the token kind.
pub open spec fn lookup_refusal(service: Seq<char>, token_kind: Seq<char>) -> Option<
    KeychainErrorCode,
> {
    if service != MORROW_KEYCHAIN_SERVICE@ {
        Some(KeychainErrorCode::UnsupportedService)
    } else if !supported_token_kind(token_kind) {
        Some(KeychainErrorCode::UnsupportedTokenKind)
    } else {
        None
    }
}

/// The message a refused lookup carries.
pub open spec fn refusal_message(service: Seq<char>, token_kind: Seq<char>) -> Seq<char> {
    if service != MORROW_KEYCHAIN_SERVICE@ {
        "unsupported Keychain service: "@ + service
    } else {
        "unsupported token kind: "@ + token_kind
    }
}

/// Accepts only Morrow's Keychain service and its token kinds.
pub fn validate_lookup(request: &TokenLookupRequest) -> (r: Result<(), KeychainBridgeError>)
    ensures
        r is Ok <==> lookup_refusal(request.service@, request.token_kind@) is None,
        r matches Err(e) ==> Some(e.spec_code()) == lookup_refusal(
            request.service@,
            request.token_kind@,
        ) && e.spec_message() == refusal_message(request.service@, request.token_kind@),
{
    let service = owned(MORROW_KEYCHAIN_SERVICE);
    if request.service != service {
        return Err(KeychainBridgeError::unsupported_service(request.service.as_str()));
    }
    let owned_kind = owned(MORROW_TOKEN_KIND);
    let provider_kind = owned(MORROW_PROVIDER_TOKEN_KIND);
    if request.token_kind != owned_kind && request.token_kind != provider_kind {
        return Err(KeychainBridgeError::unsupported_token_kind(request.token_kind.as_str()));
    }
    Ok(())
}

/// Platform password storage behind the vault.
pub trait PasswordStore {
    fn store_password(&self, lookup: &TokenLookupRequest, token: &str) -> Result<
        (),
        KeychainBridgeError,
    >;

    fn read_password(&self, lookup: &TokenLookupRequest) -> Result<
        Option<String>,
        KeychainBridgeError,
    >;

    fn delete_password(&self, lookup: &TokenLookupRequest) -> Result<bool, KeychainBridgeError>;
}

/// The error reported where no platform Keychain is available.
pub fn unsupported_platform_error() -> (r: KeychainBridgeError)
    ensures
        r.spec_code() == KeychainErrorCode::StorageUnavailable,
        r.spec_message() == "Morrow Keychain bridge storage requires macOS Security.framework"@,
{
    KeychainBridgeError::storage_unavailable(
        owned("Morrow Keychain bridge storage requires macOS Security.framework"),
    )
}

/// Password storage for platforms without Security.framework: every
/// operation fails with [`unsupported_platform_error`].
#[derive(Debug, Default, Clone, Copy)]
pub struct UnsupportedPasswordStore;

impl PasswordStore for UnsupportedPasswordStore {
    fn store_password(&self, lookup: &TokenLookupRequest, token: &str) -> (r: Result<
        (),
        KeychainBridgeError,
    >)
        ensures
            r matches Err(e) && e.spec_code() == KeychainErrorCode::StorageUnavailable
                && e.spec_message()
                == "Morrow Keychain bridge storage requires macOS Security.framework"@,
    {
        Err(unsupported_platform_error())
    }

    fn read_password(&self, lookup: &TokenLookupRequest) -> (r: Result<
        Option<String>,
        KeychainBridgeError,
    >)
        ensures
            r matches Err(e) && e.spec_code() == KeychainErrorCode::StorageUnavailable
                && e.spec_message()
                == "Morrow Keychain bridge storage requires macOS Security.framework"@,
    {
        Err(unsupported_platform_error())
    }

    fn delete_password(&self, lookup: &TokenLookupRequest) -> (r: Result<
        bool,
        KeychainBridgeError,
    >)
        ensures
            r matches Err(e) && e.spec_code() == KeychainErrorCode::StorageUnavailable
                && e.spec_message()
                == "Morrow Keychain bridge storage requires macOS Security.framework"@,
    {
        Err(unsupported_platform_error())
    }
}

/// The Keychain-backed token vault.
#[derive(Debug, Default)]
pub struct MorrowTokenVault<S> {
    store: S,
}

impl<S: PasswordStore> MorrowTokenVault<S> {
    pub closed spec fn spec_store(&self) -> S {
        self.store
    }

    pub fn new(store: S) -> (r: Self)
        ensures
            r.spec_store() == store,
    {
        MorrowTokenVault { store }
    }

    /// Stores a token after checking the service and token kind: a refused
    /// request gets the refusal; otherwise the store is asked to store the
    /// token under the lookup, and its error is passed on.
    pub fn create(&self, request: TokenWriteRequest) -> (r: Result<
        TokenCommandReceipt,
        KeychainBridgeError,
    >)
        ensures
            lookup_refusal(request.service@, request.token_kind@) matches Some(code) ==> (r matches Err(e)
                && e.spec_code() == code && e.spec_message() == refusal_message(
                request.service@,
                request.token_kind@,
            )),
            lookup_refusal(request.service@, request.token_kind@) is None ==> exists|
                lookup: TokenLookupRequest,
                token: &str,
                stored: Result<(), KeychainBridgeError>,
            |
                lookup.service@ == request.service@ && lookup.token_kind@ == request.token_kind@
                    && token@ == request.token@ && #[trigger] call_ensures(
                    S::store_password,
                    (&self.spec_store(), &lookup, token),
                    stored,
                ) && match stored {
                    Ok(()) => r matches Ok(receipt) && receipt.storage_surface
                        == TokenStorageSurface::KeychainBridge && receipt.stored
                        && !receipt.deleted,
                    Err(e) => r == Err::<TokenCommandReceipt, KeychainBridgeError>(e),
                },
    {
        let lookup = request.lookup();
        match validate_lookup(&lookup) {
            Ok(()) => {},
            Err(e) => {
                return Err(e);
            },
        }
        let token = request.token.as_str();
        let stored = self.store.store_password(&lookup, token);
        assert(call_ensures(S::store_password, (&self.spec_store(), &lookup, token), stored));
        assert(token@ == request.token@);
        assert(lookup.service@ == request.service@ && lookup.token_kind@ == request.token_kind@);
        match stored {
            Ok(()) => Ok(
                TokenCommandReceipt {
                    storage_surface: TokenStorageSurface::KeychainBridge,
                    stored: true,
                    deleted: false,
                },
            ),
            Err(e) => Err(e),
        }
    }

    /// Reads a token after checking the service and token kind: a refused
    /// request gets the refusal; otherwise the store's answer is returned,
    /// or its error passed on.
    pub fn read(&self, request: TokenLookupRequest) -> (r: Result<
        TokenReadResponse,
        KeychainBridgeError,
    >)
        ensures
            lookup_refusal(request.service@, request.token_kind@) matches Some(code) ==> (r matches Err(e)
                && e.spec_code() == code && e.spec_message() == refusal_message(
                request.service@,
                request.token_kind@,
            )),
            lookup_refusal(request.service@, request.token_kind@) is None ==> exists|
                found: Result<Option<String>, KeychainBridgeError>,
            |
                #[trigger] call_ensures(S::read_password, (&self.spec_store(), &request), found)
                    && match found {
                    Ok(token) => r matches Ok(response) && response.storage_surface
                        == TokenStorageSurface::KeychainBridge && response.present == token is Some
                        && response.token == token,
                    Err(e) => r == Err::<TokenReadResponse, KeychainBridgeError>(e),
                },
    {
        match validate_lookup(&request) {
            Ok(()) => {},
            Err(e) => {
                return Err(e);
            },
        }
        let found = self.store.read_password(&request);
        assert(call_ensures(S::read_password, (&self.store, &request), found));
        match found {
            Ok(token) => Ok(
                TokenReadResponse {
                    storage_surface: TokenStorageSurface::KeychainBridge,
                    present: token.is_some(),
                    token,
                },
            ),
            Err(e) => Err(e),
        }
    }

    /// Deletes a token after checking the service and token kind: a refused
    /// request gets the refusal; otherwise the receipt says whether the
    /// store deleted one, or its error is passed on.
    pub fn delete(&self, request: TokenLookupRequest) -> (r: Result<
        TokenCommandReceipt,
        KeychainBridgeError,
    >)
        ensures
            lookup_refusal(request.service@, request.token_kind@) matches Some(code) ==> (r matches Err(e)
                && e.spec_code() == code && e.spec_message() == refusal_message(
                request.service@,
                request.token_kind@,
            )),
            lookup_refusal(request.service@, request.token_kind@) is None ==> exists|
                deleted: Result<bool, KeychainBridgeError>,
            |
                #[trigger] call_ensures(S::delete_password, (&self.spec_store(), &request), deleted)
                    && match deleted {
                    Ok(d) => r matches Ok(receipt) && receipt.storage_surface
                        == TokenStorageSurface::KeychainBridge && !receipt.stored && receipt.deleted
                        == d,
                    Err(e) => r == Err::<TokenCommandReceipt, KeychainBridgeError>(e),
                },
    {
        match validate_lookup(&request) {
            Ok(()) => {},
            Err(e) => {
                return Err(e);
            },
        }
        let deleted = self.store.delete_password(&request);
        assert(call_ensures(S::delete_password, (&self.store, &request), deleted));
        match deleted {
            Ok(d) => Ok(
                TokenCommandReceipt {
                    storage_surface: TokenStorageSurface::KeychainBridge,
                    stored: false,
                    deleted: d,
                },
            ),
            Err(e) => Err(e),
        }
    }
}

/// An in-memory vault with the bridge's validation, for tests and previews.
/// It has no `Debug`:
/// [`FakeMorrowTokenVault::debug_text`] shows how many tokens it holds,
/// never the tokens.
pub struct FakeMorrowTokenVault {
    owned_token: Option<String>,
    provider_token: Option<String>,
}

pub open spec fn opt_view(o: Option<String>) -> Option<Seq<char>> {
    match o {
        Some(s) => Some(s@),
        None => None,
    }
}

impl Default for FakeMorrowTokenVault {
    /// An empty vault.
    fn default() -> (r: Self)
        ensures
            forall|k: Seq<char>| r.stored(k) is None,
            r.token_count() == 0,
    {
        FakeMorrowTokenVault { owned_token: None, provider_token: None }
    }
}

impl FakeMorrowTokenVault {
    /// The token stored under a supported token kind.
    pub closed spec fn stored(&self, kind: Seq<char>) -> Option<Seq<char>> {
        if kind == MORROW_TOKEN_KIND@ {
            opt_view(self.owned_token)
        } else if kind == MORROW_PROVIDER_TOKEN_KIND@ {
            opt_view(self.provider_token)
        } else {
            None
        }
    }

    /// The number of stored tokens.
    pub closed spec fn token_count(&self) -> nat {
        (if self.owned_token is Some { 1nat } else { 0nat }) + (if self.provider_token is Some {
            1nat
        } else {
            0nat
        })
    }

    fn is_owned_kind(kind: &String) -> (r: bool)
        requires
            supported_token_kind(kind@),
        ensures
            r == (kind@ == MORROW_TOKEN_KIND@),
    {
        let owned_kind = owned(MORROW_TOKEN_KIND);
        *kind == owned_kind
    }

    /// Stores a token after checking the service and token kind.
    pub fn create(&mut self, request: TokenWriteRequest) -> (r: Result<
        TokenCommandReceipt,
        KeychainBridgeError,
    >)
        ensures
            lookup_refusal(request.service@, request.token_kind@) matches Some(code) ==> (r matches Err(e)
                && e.spec_code() == code && *final(self) == *old(self)),
            lookup_refusal(request.service@, request.token_kind@) is None ==> (r matches Ok(receipt)
                && receipt.storage_surface == TokenStorageSurface::KeychainBridge && receipt.stored
                && !receipt.deleted),
            lookup_refusal(request.service@, request.token_kind@) is None ==> forall|
                k: Seq<char>,
            |
                #[trigger] final(self).stored(k) == if k == request.token_kind@ {
                    Some(request.token@)
                } else {
                    old(self).stored(k)
                },
    {
        validate_lookup(&request.lookup())?;
        let TokenWriteRequest { service, token_kind, token } = request;
        if Self::is_owned_kind(&token_kind) {
            self.owned_token = Some(token);
        } else {
            self.provider_token = Some(token);
        }
        Ok(
            TokenCommandReceipt {
                storage_surface: TokenStorageSurface::KeychainBridge,
                stored: true,
                deleted: false,
            },
        )
    }

    /// Reads a token after checking the service and token kind.
    pub fn read(&self, request: TokenLookupRequest) -> (r: Result<
        TokenReadResponse,
        KeychainBridgeError,
    >)
        ensures
            lookup_refusal(request.service@, request.token_kind@) matches Some(code) ==> (r matches Err(e)
                && e.spec_code() == code),
            lookup_refusal(request.service@, request.token_kind@) is None ==> (r matches Ok(response)
                && response.storage_surface == TokenStorageSurface::KeychainBridge
                && opt_view(response.token) == self.stored(request.token_kind@)
                && response.present == response.token is Some),
    {
        validate_lookup(&request)?;
        let token = if Self::is_owned_kind(&request.token_kind) {
            match &self.owned_token {
                Some(t) => Some(t.clone()),
                None => None,
            }
        } else {
            match &self.provider_token {
                Some(t) => Some(t.clone()),
                None => None,
            }
        };
        Ok(
            TokenReadResponse {
                storage_surface: TokenStorageSurface::KeychainBridge,
                present: token.is_some(),
                token,
            },
        )
    }

    /// Deletes a token after checking the service and token kind; the
    /// receipt says whether one was stored.
    pub fn delete(&mut self, request: TokenLookupRequest) -> (r: Result<
        TokenCommandReceipt,
        KeychainBridgeError,
    >)
        ensures
            lookup_refusal(request.service@, request.token_kind@) matches Some(code) ==> (r matches Err(e)
                && e.spec_code() == code && *final(self) == *old(self)),
            lookup_refusal(request.service@, request.token_kind@) is None ==> (r matches Ok(receipt)
                && receipt.storage_surface == TokenStorageSurface::KeychainBridge && !receipt.stored
                && receipt.deleted == old(self).stored(request.token_kind@) is Some),
            lookup_refusal(request.service@, request.token_kind@) is None ==> forall|
                k: Seq<char>,
            |
                #[trigger] final(self).stored(k) == if k == request.token_kind@ {
                    None
                } else {
                    old(self).stored(k)
                },
    {
        validate_lookup(&request)?;
        let deleted = if Self::is_owned_kind(&request.token_kind) {
            let was = self.owned_token.is_some();
            self.owned_token = None;
            was
        } else {
            let was = self.provider_token.is_some();
            self.provider_token = None;
            was
        };
        Ok(
            TokenCommandReceipt {
                storage_surface: TokenStorageSurface::KeychainBridge,
                stored: false,
                deleted,
            },
        )
    }

    /// A debug rendering that shows how many tokens are stored and hides
    /// the tokens and their kinds.
    pub fn debug_text(&self) -> (r: String)
        ensures
            r@ == "FakeMorrowTokenVault { token_count: "@ + crate::text::decimal(self.token_count())
                + ", tokens: \"<redacted>\" }"@,
    {
        let mut count: u64 = 0;
        if self.owned_token.is_some() {
            count = count + 1;
        }
        if self.provider_token.is_some() {
            count = count + 1;
        }
        let digits = crate::text::decimal_string(count);
        concat3(
            "FakeMorrowTokenVault { token_count: ",
            digits.as_str(),
            ", tokens: \"<redacted>\" }",
        )
    }
}

/// The message of a Security.framework failure.
pub open spec fn security_failure_message(action: Seq<char>, status: i32) -> Seq<char> {
    "Morrow Keychain "@ + action + " failed with OSStatus "@ + signed_decimal(status as int)
}

/// The error for a failed Security.framework call, naming the action and
/// the OSStatus code.
pub fn security_storage_status_error(action: &str, status: i32) -> (r: KeychainBridgeError)
    ensures
        r.spec_code() == KeychainErrorCode::StorageUnavailable,
        r.spec_message() == security_failure_message(action@, status),
{
    let mut message = concat3("Morrow Keychain ", action, " failed with OSStatus ");
    let digits = signed_decimal_string(status as i64);
    message.append(digits.as_str());
    KeychainBridgeError::storage_unavailable(message)
}

/// A Keychain item delete counts as done only when it returned errSecSuccess.
pub fn checked_delete_result(status: i32) -> (r: Result<bool, KeychainBridgeError>)
    ensures
        status == 0 ==> (r matches Ok(true)),
        status != 0 ==> (r matches Err(e) && e.spec_code() == KeychainErrorCode::StorageUnavailable
            && e.spec_message() == security_failure_message("delete"@, status)),
{
    if status == 0 {
        return Ok(true);
    }
    Err(security_storage_status_error("delete", status))
}

/// The error for a stored token that is not UTF-8.
pub fn invalid_utf8_error() -> (r: KeychainBridgeError)
    ensures
        r.spec_code() == KeychainErrorCode::StorageUnavailable,
        r.spec_message() == "Morrow Keychain token was not valid UTF-8"@,
{
    KeychainBridgeError::storage_unavailable(owned("Morrow Keychain token was not valid UTF-8"))
}

/// The OSStatus of success.
pub const ERR_SEC_SUCCESS: i32 = 0;

/// The OSStatus of a Keychain item that is not there.
pub const ERR_SEC_ITEM_NOT_FOUND: i32 = -25300;

/// A Security.framework failure: its OSStatus and its description.
#[derive(Debug)]
pub struct SecurityFailure {
    pub code: i32,
    pub description: String,
}

/// The message of a Security.framework failure with its description.
pub open spec fn security_error_message(action: Seq<char>, failure: SecurityFailure) -> Seq<char> {
    security_failure_message(action, failure.code) + ": "@ + failure.description@
}

/// The error for a failed Security.framework call: the action, the
/// OSStatus and the framework's description of it.
pub fn security_storage_error(action: &str, failure: &SecurityFailure) -> (r: KeychainBridgeError)
    ensures
        r.spec_code() == KeychainErrorCode::StorageUnavailable,
        r.spec_message() == security_error_message(action@, *failure),
{
    let mut message = concat3("Morrow Keychain ", action, " failed with OSStatus ");
    let digits = signed_decimal_string(failure.code as i64);
    message.append(digits.as_str());
    message.append(": ");
    message.append(failure.description.as_str());
    KeychainBridgeError::storage_unavailable(message)
}

/// What reading a token gives, from the Keychain lookup: the stored text
/// (which must be UTF-8), nothing when no item is found, or the failure.
pub fn read_password_outcome(found: Result<Vec<u8>, SecurityFailure>) -> (r: Result<
    Option<String>,
    KeychainBridgeError,
>)
    ensures
        match found {
            Ok(bytes) => if vstd::utf8::valid_utf8(bytes@) {
                r matches Ok(Some(t)) && t@ == vstd::utf8::decode_utf8(bytes@)
            } else {
                r matches Err(e) && e.spec_code() == KeychainErrorCode::StorageUnavailable
                    && e.spec_message() == "Morrow Keychain token was not valid UTF-8"@
            },
            Err(f) => if f.code == ERR_SEC_ITEM_NOT_FOUND {
                r matches Ok(None)
            } else {
                r matches Err(e) && e.spec_code() == KeychainErrorCode::StorageUnavailable
                    && e.spec_message() == security_error_message("read"@, f)
            },
        },
{
    match found {
        Ok(bytes) => match crate::messages::utf8_string(bytes) {
            Ok(text) => Ok(Some(text)),
            Err(_) => Err(invalid_utf8_error()),
        },
        Err(f) => {
            if f.code == ERR_SEC_ITEM_NOT_FOUND {
                Ok(None)
            } else {
                Err(security_storage_error("read", &f))
            }
        },
    }
}

/// What deleting a token gives, from the Keychain lookup: the status of
/// deleting the found item (see [`checked_delete_result`]), nothing deleted
/// when no item is found, or the failure.
pub fn delete_password_outcome(found: Result<i32, SecurityFailure>) -> (r: Result<
    bool,
    KeychainBridgeError,
>)
    ensures
        match found {
            Ok(status) => if status == ERR_SEC_SUCCESS {
                r matches Ok(true)
            } else {
                r matches Err(e) && e.spec_code() == KeychainErrorCode::StorageUnavailable
                    && e.spec_message() == security_failure_message("delete"@, status)
            },
            Err(f) => if f.code == ERR_SEC_ITEM_NOT_FOUND {
                r matches Ok(false)
            } else {
                r matches Err(e) && e.spec_code() == KeychainErrorCode::StorageUnavailable
                    && e.spec_message() == security_error_message("delete"@, f)
            },
        },
{
    match found {
        Ok(status) => checked_delete_result(status),
        Err(f) => {
            if f.code == ERR_SEC_ITEM_NOT_FOUND {
                Ok(false)
            } else {
                Err(security_storage_error("delete", &f))
            }
        },
    }
}

/// What storing a token gives: done, or the failure.
pub fn store_password_outcome(stored: Result<(), SecurityFailure>) -> (r: Result<
    (),
    KeychainBridgeError,
>)
    ensures
        stored is Ok ==> r is Ok,
        stored matches Err(f) ==> (r matches Err(e) && e.spec_code()
            == KeychainErrorCode::StorageUnavailable && e.spec_message() == security_error_message(
            "store"@,
            f,
        )),
{
    match stored {
        Ok(()) => Ok(()),
        Err(f) => Err(security_storage_error("store", &f)),
    }
}

/// A token written to the in-memory vault reads back unchanged, and a
/// delete then reports it deleted and leaves it absent; the other kind's
/// slot is untouched throughout.
pub proof fn law_fake_vault_write_read_delete(
    before: FakeMorrowTokenVault,
    written: FakeMorrowTokenVault,
    deleted: FakeMorrowTokenVault,
    kind: Seq<char>,
    other: Seq<char>,
    token: Seq<char>,
)
    requires
        supported_token_kind(kind),
        other != kind,
        forall|k: Seq<char>|
            #[trigger] written.stored(k) == if k == kind {
                Some(token)
            } else {
                before.stored(k)
            },
        forall|k: Seq<char>|
            #[trigger] deleted.stored(k) == if k == kind {
                None
            } else {
                written.stored(k)
            },
    ensures
        written.stored(kind) == Some(token),
        written.stored(kind) is Some,
        deleted.stored(kind) is None,
        deleted.stored(other) == before.stored(other),
{
    assert(written.stored(kind) == Some(token));
    assert(deleted.stored(other) == written.stored(other));
}

} // verus!
