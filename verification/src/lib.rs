//! Morrow's native bridge logic: menu state, Codex CLI readiness and setup,
//! Messages database decoding, Keychain token rules, EventKit result
//! mapping and data deletion receipts.
use vstd::prelude::*;

pub mod app_shell;
pub mod codex_auth;
pub mod codex_provider;
pub mod codex_setup;
pub mod crash_log;
pub mod decision_evidence;
pub mod delete_data;
pub mod eventkit;
pub mod fake_bridge;
pub mod keychain;
pub mod list_intake;
pub mod messages;
pub mod openai_provider;
pub mod paths;
pub mod permissions;
pub mod preview;
pub mod production_scan;
pub mod runtime_identity;
pub mod sender_read_recent;
pub mod sender_identity;
pub mod text;

verus! {
} // verus!
