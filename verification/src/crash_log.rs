//! Crash reports from the UI: they are accepted and not kept.
use vstd::prelude::*;

verus! {

#[derive(Debug)]
pub struct CrashLogRequest {
    pub message: String,
}

#[derive(Debug, Clone, Copy, PartialEq, Eq, Structural)]
pub struct CrashLogReceipt {
    pub stored: bool,
}

/// Acknowledges a crash report; nothing is stored.
pub fn record_crash_log(_request: CrashLogRequest) -> (r: Result<CrashLogReceipt, String>)
    ensures
        r matches Ok(receipt) && !receipt.stored,
{
    Ok(CrashLogReceipt { stored: false })
}

} // verus!
