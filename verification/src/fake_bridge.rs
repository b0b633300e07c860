//! An in-memory stand-in for the native bridge: fixed permission states,
//! an in-memory token vault, and a canned batch of messages.
use vstd::prelude::*;

use crate::keychain::{
    lookup_refusal, opt_view, FakeMorrowTokenVault, KeychainBridgeError, TokenCommandReceipt,
    TokenLookupRequest, TokenReadResponse, TokenStorageSurface, TokenWriteRequest,
};
use crate::messages::{chat_views, MessagesError, NativeBatch, RawChat, RawMessage};
use crate::permissions::{
    map_permission_status, permission_outcome, permission_warning, PermissionKind,
    PermissionState, PermissionStatus,
};

verus! {

/// The position of each kind in [`PermissionKind::ALL`].
pub open spec fn kind_index(kind: PermissionKind) -> int {
    match kind {
        PermissionKind::FullDiskAccess => 0,
        PermissionKind::Calendar => 1,
        PermissionKind::Reminders => 2,
        PermissionKind::Contacts => 3,
        PermissionKind::Notifications => 4,
        PermissionKind::FilesystemPath => 5,
    }
}

fn index_of_kind(kind: PermissionKind) -> (r: usize)
    ensures
        r == kind_index(kind),
{
    match kind {
        PermissionKind::FullDiskAccess => 0,
        PermissionKind::Calendar => 1,
        PermissionKind::Reminders => 2,
        PermissionKind::Contacts => 3,
        PermissionKind::Notifications => 4,
        PermissionKind::FilesystemPath => 5,
    }
}

fn copy_message(m: &RawMessage) -> (r: RawMessage)
    ensures
        r@ == m@,
{
    RawMessage {
        chat_guid: m.chat_guid.clone(),
        message_guid: m.message_guid.clone(),
        timestamp: m.timestamp,
        text: m.text.clone(),
    }
}

fn copy_chat(c: &RawChat) -> (r: RawChat)
    ensures
        r@ == c@,
{
    let mut handles: Vec<String> = Vec::new();
    for i in 0..c.participant_handles.len()
        invariant
            handles.deep_view() == c.participant_handles.deep_view().take(i as int),
    {
        let ghost before = handles.deep_view();
        let h = c.participant_handles[i].clone();
        handles.push(h);
        assert(handles.deep_view() =~= before.push(h@));
        assert(c.participant_handles.deep_view().take(i + 1) =~= c.participant_handles.deep_view().take(
            i as int,
        ).push(c.participant_handles@[i as int]@));
    }
    assert(c.participant_handles.deep_view().take(c.participant_handles@.len() as int)
        =~= c.participant_handles.deep_view());
    let mut messages: Vec<RawMessage> = Vec::new();
    for i in 0..c.messages.len()
        invariant
            messages@.map_values(|m: RawMessage| m@) == c.messages@.take(i as int).map_values(
                |m: RawMessage| m@,
            ),
    {
        let ghost before = messages@.map_values(|m: RawMessage| m@);
        let m = copy_message(&c.messages[i]);
        messages.push(m);
        assert(messages@.map_values(|m: RawMessage| m@) =~= before.push(m@));
        assert(c.messages@.take(i + 1).map_values(|m: RawMessage| m@) =~= c.messages@.take(
            i as int,
        ).map_values(|m: RawMessage| m@).push(c.messages@[i as int]@));
    }
    assert(c.messages@.take(c.messages@.len() as int) == c.messages@);
    RawChat {
        guid: c.guid.clone(),
        participant_count: c.participant_count,
        participant_handles: handles,
        messages,
    }
}

fn copy_batch(b: &NativeBatch) -> (r: NativeBatch)
    ensures
        chat_views(r.chats@) == chat_views(b.chats@),
{
    let mut chats: Vec<RawChat> = Vec::new();
    for i in 0..b.chats.len()
        invariant
            chat_views(chats@) == chat_views(b.chats@.take(i as int)),
    {
        let ghost before = chat_views(chats@);
        let c = copy_chat(&b.chats[i]);
        chats.push(c);
        assert(chat_views(chats@) =~= before.push(c@));
        assert(chat_views(b.chats@.take(i + 1)) =~= chat_views(b.chats@.take(i as int)).push(
            b.chats@[i as int]@,
        ));
    }
    assert(b.chats@.take(b.chats@.len() as int) == b.chats@);
    NativeBatch { chats }
}

pub struct FakeNativeBridge {
    permissions: Vec<PermissionState>,
    vault: FakeMorrowTokenVault,
    morrow_store_path: Option<String>,
    messages: Option<NativeBatch>,
}

impl FakeNativeBridge {
    pub closed spec fn wf(&self) -> bool {
        self.permissions@.len() == 6
    }

    /// The token the bridge's vault holds under a token kind.
    pub closed spec fn stored(&self, kind: Seq<char>) -> Option<Seq<char>> {
        self.vault.stored(kind)
    }

    /// The state the bridge reports for a permission.
    pub closed spec fn state_of(&self, kind: PermissionKind) -> PermissionState {
        self.permissions@[kind_index(kind)]
    }

    pub closed spec fn spec_store_path(&self) -> Option<Seq<char>> {
        match self.morrow_store_path {
            Some(p) => Some(p@),
            None => None,
        }
    }

    pub closed spec fn spec_messages(&self) -> Option<Seq<crate::messages::RawChatView>> {
        match self.messages {
            Some(b) => Some(chat_views(b.chats@)),
            None => None,
        }
    }

    /// A bridge that reports every permission in one state.
    pub fn with_all_permissions(state: PermissionState) -> (r: Self)
        ensures
            r.wf(),
            forall|k: PermissionKind| r.state_of(k) == state,
            forall|k: Seq<char>| r.stored(k) is None,
            r.spec_store_path() is None,
            r.spec_messages() is None,
    {
        let permissions = vec![state, state, state, state, state, state];
        FakeNativeBridge {
            permissions,
            vault: FakeMorrowTokenVault::default(),
            morrow_store_path: None,
            messages: None,
        }
    }

    /// A bridge that reports one permission in a state and the others as
    /// unavailable.
    pub fn with_permission(kind: PermissionKind, state: PermissionState) -> (r: Self)
        ensures
            r.wf(),
            r.state_of(kind) == state,
            forall|k: PermissionKind| k != kind ==> r.state_of(k) == PermissionState::Unavailable,
            r.spec_store_path() is None,
            r.spec_messages() is None,
    {
        let u = PermissionState::Unavailable;
        let mut permissions = vec![u, u, u, u, u, u];
        let ghost before = permissions@;
        permissions.set(index_of_kind(kind), state);
        let bridge = FakeNativeBridge {
            permissions,
            vault: FakeMorrowTokenVault::default(),
            morrow_store_path: None,
            messages: None,
        };
        proof {
            assert forall|k: PermissionKind| k != kind implies bridge.state_of(k)
                == PermissionState::Unavailable by {
                assert(kind_index(k) != kind_index(kind));
                assert(bridge.permissions@[kind_index(k)] == before[kind_index(k)]);
            }
        }
        bridge
    }

    /// A bridge with a store path, every permission unavailable.
    pub fn with_morrow_store_path(path: String) -> (r: Self)
        ensures
            r.wf(),
            forall|k: PermissionKind| r.state_of(k) == PermissionState::Unavailable,
            r.spec_store_path() == Some(path@),
            r.spec_messages() is None,
    {
        let u = PermissionState::Unavailable;
        FakeNativeBridge {
            permissions: vec![u, u, u, u, u, u],
            vault: FakeMorrowTokenVault::default(),
            morrow_store_path: Some(path),
            messages: None,
        }
    }

    /// The bridge, reading `messages` as the recent messages.
    pub fn with_messages(self, messages: NativeBatch) -> (r: Self)
        requires
            self.wf(),
        ensures
            r.wf(),
            forall|k: PermissionKind| r.state_of(k) == self.state_of(k),
            r.spec_store_path() == self.spec_store_path(),
            r.spec_messages() == Some(chat_views(messages.chats@)),
    {
        FakeNativeBridge {
            permissions: self.permissions,
            vault: self.vault,
            morrow_store_path: self.morrow_store_path,
            messages: Some(messages),
        }
    }

    /// The status of every permission, in the order of
    /// [`PermissionKind::ALL`].
    pub fn query_permission_statuses(&self) -> (r: Vec<PermissionStatus>)
        requires
            self.wf(),
        ensures
            r@.len() == 6,
            forall|i: int|
                0 <= i < 6 ==> {
                    let s = #[trigger] r@[i];
                    let k = PermissionKind::ALL@[i];
                    &&& s.kind == k
                    &&& s.state == self.state_of(k)
                    &&& s.outcome == permission_outcome(self.state_of(k))
                    &&& (permission_warning(k, self.state_of(k)) matches Some(w) ==> (
                    s.warning matches Some(m) && m@ == w))
                    &&& (permission_warning(k, self.state_of(k)) is None ==> s.warning is None)
                },
    {
        let kinds = PermissionKind::ALL;
        let mut out: Vec<PermissionStatus> = Vec::new();
        for i in 0..6
            invariant
                self.wf(),
                kinds@ == PermissionKind::ALL@,
                out@.len() == i,
                forall|j: int|
                    0 <= j < i ==> {
                        let s = #[trigger] out@[j];
                        let k = PermissionKind::ALL@[j];
                        &&& s.kind == k
                        &&& s.state == self.state_of(k)
                        &&& s.outcome == permission_outcome(self.state_of(k))
                        &&& (permission_warning(k, self.state_of(k)) matches Some(w) ==> (
                        s.warning matches Some(m) && m@ == w))
                        &&& (permission_warning(k, self.state_of(k)) is None ==> s.warning
                            is None)
                    },
        {
            let kind = kinds[i];
            let state = self.permissions[index_of_kind(kind)];
            out.push(map_permission_status(kind, state));
        }
        out
    }

    /// Stores a token in the bridge's vault, as the vault does.
    pub fn create_morrow_token(&mut self, request: TokenWriteRequest) -> (r: Result<
        TokenCommandReceipt,
        KeychainBridgeError,
    >)
        ensures
            lookup_refusal(request.service@, request.token_kind@) matches Some(code) ==> (r matches Err(e)
                && e.spec_code() == code && forall|k: Seq<char>| #[trigger] final(self).stored(k)
                == old(self).stored(k)),
            lookup_refusal(request.service@, request.token_kind@) is None ==> (r matches Ok(receipt)
                && receipt.storage_surface == TokenStorageSurface::KeychainBridge && receipt.stored
                && !receipt.deleted),
            lookup_refusal(request.service@, request.token_kind@) is None ==> forall|
                k: Seq<char>,
            |
                #[trigger] final(self).stored(k) == if k == request.token_kind@ {
                    Some(request.token@)
                } else {
                    old(self).stored(k)
                },
            final(self).wf() == old(self).wf(),
            forall|k: PermissionKind| #[trigger] final(self).state_of(k) == old(self).state_of(k),
            final(self).spec_store_path() == old(self).spec_store_path(),
            final(self).spec_messages() == old(self).spec_messages(),
    {
        self.vault.create(request)
    }

    /// Reads a token from the bridge's vault, as the vault does.
    pub fn read_morrow_token(&self, request: TokenLookupRequest) -> (r: Result<
        TokenReadResponse,
        KeychainBridgeError,
    >)
        ensures
            lookup_refusal(request.service@, request.token_kind@) matches Some(code) ==> (r matches Err(e)
                && e.spec_code() == code),
            lookup_refusal(request.service@, request.token_kind@) is None ==> (r matches Ok(response)
                && response.storage_surface == TokenStorageSurface::KeychainBridge
                && opt_view(response.token) == self.stored(request.token_kind@)
                && response.present == response.token is Some),
    {
        self.vault.read(request)
    }

    /// Deletes a token from the bridge's vault, as the vault does.
    pub fn delete_morrow_token(&mut self, request: TokenLookupRequest) -> (r: Result<
        TokenCommandReceipt,
        KeychainBridgeError,
    >)
        ensures
            lookup_refusal(request.service@, request.token_kind@) matches Some(code) ==> (r matches Err(e)
                && e.spec_code() == code && forall|k: Seq<char>| #[trigger] final(self).stored(k)
                == old(self).stored(k)),
            lookup_refusal(request.service@, request.token_kind@) is None ==> (r matches Ok(receipt)
                && receipt.storage_surface == TokenStorageSurface::KeychainBridge && !receipt.stored
                && receipt.deleted == old(self).stored(request.token_kind@) is Some),
            lookup_refusal(request.service@, request.token_kind@) is None ==> forall|
                k: Seq<char>,
            |
                #[trigger] final(self).stored(k) == if k == request.token_kind@ {
                    None
                } else {
                    old(self).stored(k)
                },
            final(self).wf() == old(self).wf(),
            forall|k: PermissionKind| #[trigger] final(self).state_of(k) == old(self).state_of(k),
            final(self).spec_store_path() == old(self).spec_store_path(),
            final(self).spec_messages() == old(self).spec_messages(),
    {
        self.vault.delete(request)
    }

    pub fn morrow_store_path(&self) -> (r: Option<&String>)
        ensures
            match r {
                Some(p) => self.spec_store_path() == Some(p@),
                None => self.spec_store_path() is None,
            },
    {
        match &self.morrow_store_path {
            Some(p) => Some(p),
            None => None,
        }
    }

    /// The canned messages, or a refused permission when there are none.
    pub fn read_recent(&self) -> (r: Result<NativeBatch, MessagesError>)
        ensures
            match self.spec_messages() {
                Some(chats) => r matches Ok(b) && chat_views(b.chats@) == chats,
                None => r matches Err(MessagesError::PermissionDenied),
            },
    {
        match &self.messages {
            Some(batch) => Ok(copy_batch(batch)),
            None => Err(MessagesError::PermissionDenied),
        }
    }
}

} // verus!
