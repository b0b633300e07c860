//! How a scan of the selected chats picks its provider.
use vstd::prelude::*;

use crate::codex_auth::CodexProviderAuthReadiness;

verus! {

/// The provider a scan runs with.
#[derive(Debug, Clone, Copy, PartialEq, Eq, Structural)]
pub enum ScanProviderMode {
    /// Codex CLI, logged in and ready.
    Codex,
    /// No provider: the scan runs with the provider reported unavailable.
    Unavailable,
}

/// A scan uses Codex only when the auth probe found it ready.
pub fn scan_provider_mode(auth_readiness: &CodexProviderAuthReadiness) -> (r: ScanProviderMode)
    ensures
        r == (if auth_readiness.ready {
            ScanProviderMode::Codex
        } else {
            ScanProviderMode::Unavailable
        }),
{
    if auth_readiness.ready {
        ScanProviderMode::Codex
    } else {
        ScanProviderMode::Unavailable
    }
}

} // verus!
