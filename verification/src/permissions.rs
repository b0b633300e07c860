//! macOS permission statuses as the UI reports them, and the System
//! Settings panes the app can open.
use vstd::prelude::*;

use crate::text::{concat2, owned};

verus! {

#[derive(Debug, Clone, Copy, PartialEq, Eq, Structural)]
pub enum PermissionKind {
    FullDiskAccess,
    Calendar,
    Reminders,
    Contacts,
    Notifications,
    FilesystemPath,
}

/// The name each permission is shown under.
pub open spec fn permission_label(kind: PermissionKind) -> Seq<char> {
    match kind {
        PermissionKind::FullDiskAccess => "Full Disk Access"@,
        PermissionKind::Calendar => "Calendar"@,
        PermissionKind::Reminders => "Reminders"@,
        PermissionKind::Contacts => "Contacts"@,
        PermissionKind::Notifications => "Notifications"@,
        PermissionKind::FilesystemPath => "filesystem path access"@,
    }
}

impl PermissionKind {
    pub const ALL: [PermissionKind; 6] = [
        PermissionKind::FullDiskAccess,
        PermissionKind::Calendar,
        PermissionKind::Reminders,
        PermissionKind::Contacts,
        PermissionKind::Notifications,
        PermissionKind::FilesystemPath,
    ];

    pub fn label(self) -> (r: &'static str)
        ensures
            r@ == permission_label(self),
    {
        match self {
            PermissionKind::FullDiskAccess => "Full Disk Access",
            PermissionKind::Calendar => "Calendar",
            PermissionKind::Reminders => "Reminders",
            PermissionKind::Contacts => "Contacts",
            PermissionKind::Notifications => "Notifications",
            PermissionKind::FilesystemPath => "filesystem path access",
        }
    }
}

#[derive(Debug, Clone, Copy, PartialEq, Eq, Structural)]
pub enum PermissionState {
    Granted,
    Denied,
    Unavailable,
}

impl PermissionState {
    pub const ALL: [PermissionState; 3] = [
        PermissionState::Granted,
        PermissionState::Denied,
        PermissionState::Unavailable,
    ];
}

#[derive(Debug, Clone, Copy, PartialEq, Eq, Structural)]
pub enum PermissionOutcome {
    Success,
    Warning,
    Unavailable,
}

#[derive(Debug)]
pub struct PermissionStatus {
    pub kind: PermissionKind,
    pub state: PermissionState,
    pub outcome: PermissionOutcome,
    pub warning: Option<String>,
}

/// The outcome shown for a permission state.
pub open spec fn permission_outcome(state: PermissionState) -> PermissionOutcome {
    match state {
        PermissionState::Granted => PermissionOutcome::Success,
        PermissionState::Denied => PermissionOutcome::Warning,
        PermissionState::Unavailable => PermissionOutcome::Unavailable,
    }
}

/// The warning shown for a permission state, if any.
pub open spec fn permission_warning(kind: PermissionKind, state: PermissionState) -> Option<
    Seq<char>,
> {
    match state {
        PermissionState::Granted => None,
        PermissionState::Denied => Some(permission_label(kind) + " permission is denied."@),
        PermissionState::Unavailable => Some(
            permission_label(kind) + " permission is unavailable on this surface."@,
        ),
    }
}

/// The status the UI shows for a permission in a state: granted is a
/// success, denied a warning, and unavailable its own outcome, each of the
/// last two with a sentence naming the permission.
pub fn map_permission_status(kind: PermissionKind, state: PermissionState) -> (r: PermissionStatus)
    ensures
        r.kind == kind,
        r.state == state,
        r.outcome == permission_outcome(state),
        permission_warning(kind, state) matches Some(w) ==> (r.warning matches Some(m) && m@ == w),
        permission_warning(kind, state) is None ==> r.warning is None,
{
    match state {
        PermissionState::Granted => PermissionStatus {
            kind,
            state,
            outcome: PermissionOutcome::Success,
            warning: None,
        },
        PermissionState::Denied => PermissionStatus {
            kind,
            state,
            outcome: PermissionOutcome::Warning,
            warning: Some(concat2(kind.label(), " permission is denied.")),
        },
        PermissionState::Unavailable => PermissionStatus {
            kind,
            state,
            outcome: PermissionOutcome::Unavailable,
            warning: Some(concat2(kind.label(), " permission is unavailable on this surface.")),
        },
    }
}

#[derive(Debug, Clone, Copy, PartialEq, Eq, Structural)]
pub enum PrivacySettingsPane {
    FullDiskAccess,
    Calendar,
    Reminders,
}

/// The System Settings URL of each privacy pane.
pub open spec fn settings_url_text(pane: PrivacySettingsPane) -> Seq<char> {
    match pane {
        PrivacySettingsPane::FullDiskAccess =>
            "x-apple.systempreferences:com.apple.preference.security?Privacy_AllFiles"@,
        PrivacySettingsPane::Calendar =>
            "x-apple.systempreferences:com.apple.preference.security?Privacy_Calendars"@,
        PrivacySettingsPane::Reminders =>
            "x-apple.systempreferences:com.apple.preference.security?Privacy_Reminders"@,
    }
}

impl PrivacySettingsPane {
    pub fn settings_url(self) -> (r: &'static str)
        ensures
            r@ == settings_url_text(self),
    {
        match self {
            PrivacySettingsPane::FullDiskAccess => {
                "x-apple.systempreferences:com.apple.preference.security?Privacy_AllFiles"
            },
            PrivacySettingsPane::Calendar => {
                "x-apple.systempreferences:com.apple.preference.security?Privacy_Calendars"
            },
            PrivacySettingsPane::Reminders => {
                "x-apple.systempreferences:com.apple.preference.security?Privacy_Reminders"
            },
        }
    }
}

#[derive(Debug, Clone, Copy, PartialEq, Eq, Structural)]
pub struct OpenPrivacySettingsRequest {
    pub pane: PrivacySettingsPane,
}

#[derive(Debug, Clone, Copy, PartialEq, Eq, Structural)]
pub struct OpenPrivacySettingsReceipt {
    pub pane: PrivacySettingsPane,
    pub opened: bool,
}

#[derive(Debug)]
pub struct OpenPrivacySettingsError {
    message: String,
}

impl OpenPrivacySettingsError {
    pub closed spec fn spec_message(&self) -> Seq<char> {
        self.message@
    }

    /// The error where macOS settings cannot be opened at all.
    pub fn unavailable() -> (r: Self)
        ensures
            r.spec_message() == "macOS privacy settings are unavailable on this platform"@,
    {
        OpenPrivacySettingsError {
            message: owned("macOS privacy settings are unavailable on this platform"),
        }
    }

    /// The error where the `open` command failed, with its message.
    pub fn command_failed(message: String) -> (r: Self)
        ensures
            r.spec_message() == message@,
    {
        OpenPrivacySettingsError { message }
    }

    /// The message the error displays.
    pub fn to_text(&self) -> (r: String)
        ensures
            r@ == self.spec_message(),
    {
        self.message.clone()
    }
}

/// The failure where the `open` command could not be started.
pub fn settings_launch_failed(error: &str) -> (r: OpenPrivacySettingsError)
    ensures
        r.spec_message() == "macOS Settings could not be opened: "@ + error@,
{
    OpenPrivacySettingsError::command_failed(concat2("macOS Settings could not be opened: ", error))
}

/// The failure where the `open` command exited unsuccessfully.
pub fn settings_exit_failed(status: &str) -> (r: OpenPrivacySettingsError)
    ensures
        r.spec_message() == "macOS Settings exited with status "@ + status@,
{
    OpenPrivacySettingsError::command_failed(concat2("macOS Settings exited with status ", status))
}

/// How opening a pane's URL went decides the answer: the receipt records
/// the pane as opened, or the opener's error is passed on.
pub open spec fn privacy_settings_answer(
    request: OpenPrivacySettingsRequest,
    opened: Result<(), OpenPrivacySettingsError>,
    r: Result<OpenPrivacySettingsReceipt, OpenPrivacySettingsError>,
) -> bool {
    &&& opened is Ok ==> r == Ok::<OpenPrivacySettingsReceipt, OpenPrivacySettingsError>(
        OpenPrivacySettingsReceipt { pane: request.pane, opened: true },
    )
    &&& opened matches Err(e) ==> (r matches Err(f) && f.spec_message() == e.spec_message())
}

/// Opens the pane's System Settings URL with `open_url` (the `open` command
/// on macOS), once: the receipt records the pane as opened, or the error
/// `open_url` gave is passed on.
pub fn open_privacy_settings<F: Fn(&'static str) -> Result<(), OpenPrivacySettingsError>>(
    request: OpenPrivacySettingsRequest,
    open_url: F,
) -> (r: Result<OpenPrivacySettingsReceipt, OpenPrivacySettingsError>)
    requires
        forall|url: &'static str| url@ == settings_url_text(request.pane) ==> call_requires(open_url, (url,)),
    ensures
        exists|url: &'static str, opened: Result<(), OpenPrivacySettingsError>|
            url@ == settings_url_text(request.pane) && #[trigger] call_ensures(open_url, (url,), opened)
                && privacy_settings_answer(request, opened, r),
{
    let url = request.pane.settings_url();
    let opened = open_url(url);
    let r = privacy_settings_receipt(request, opened);
    assert(privacy_settings_answer(request, opened, r));
    r
}

/// What opening a privacy pane answers, given how opening its URL went:
/// the receipt records the pane as opened, or the opener's error is passed
/// on.
pub fn privacy_settings_receipt(
    request: OpenPrivacySettingsRequest,
    opened: Result<(), OpenPrivacySettingsError>,
) -> (r: Result<OpenPrivacySettingsReceipt, OpenPrivacySettingsError>)
    ensures
        opened is Ok ==> r == Ok::<OpenPrivacySettingsReceipt, OpenPrivacySettingsError>(
            OpenPrivacySettingsReceipt { pane: request.pane, opened: true },
        ),
        opened matches Err(e) ==> (r matches Err(f) && f.spec_message() == e.spec_message()),
{
    match opened {
        Ok(()) => Ok(OpenPrivacySettingsReceipt { pane: request.pane, opened: true }),
        Err(e) => Err(e),
    }
}

} // verus!
