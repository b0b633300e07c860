//! The EventKit proposal bridge: the typed errors it reports, how the
//! native results are mapped to them, the checks on identifiers EventKit
//! returns, and the reminder request handed to the native side.
use vstd::prelude::*;

use crate::text::{
    chars_of, lemma_line_end_bounds, line_at, line_end, next_line, concat2, concat3, occurs_at, owned, starts_with_text, string_from_chars,
    trim_chars, trim_text,
};

verus! {

/// The bytes of a NUL-terminated C buffer: those before its first NUL
/// (all of them when it holds none).
pub open spec fn c_string_bytes(buffer: Seq<u8>) -> Seq<u8>
    decreases buffer.len(),
{
    if buffer.len() == 0 || buffer[0] == 0 {
        Seq::empty()
    } else {
        seq![buffer[0]] + c_string_bytes(buffer.drop_first())
    }
}

/// The text of a fixed-size C buffer the native side filled: the bytes
/// before its first NUL, decoded as UTF-8 with invalid sequences replaced.
pub fn c_buffer_text(buffer: &[u8]) -> (r: String)
    ensures
        r@ == crate::codex_auth::utf8_lossy(c_string_bytes(buffer@)),
{
    let mut bytes: Vec<u8> = Vec::new();
    let mut i: usize = 0;
    let n = buffer.len();
    while i < n && buffer[i] != 0
        invariant
            i <= n,
            n == buffer@.len(),
            forall|k: int| 0 <= k < i ==> buffer@[k] != 0,
            bytes@ == buffer@.take(i as int),
        decreases n - i,
    {
        bytes.push(buffer[i]);
        assert(buffer@.take(i + 1) == buffer@.take(i as int).push(buffer@[i as int]));
        i = i + 1;
    }
    proof {
        lemma_c_string_bytes(buffer@, i as int);
    }
    crate::codex_auth::lossy_text(bytes.as_slice())
}

proof fn lemma_c_string_bytes(buffer: Seq<u8>, i: int)
    requires
        0 <= i <= buffer.len(),
        forall|k: int| 0 <= k < i ==> buffer[k] != 0,
        i == buffer.len() || buffer[i] == 0,
    ensures
        c_string_bytes(buffer) == buffer.take(i),
    decreases i,
{
    if i == 0 {
        assert(buffer.take(0) =~= Seq::<u8>::empty());
    } else {
        lemma_c_string_bytes(buffer.drop_first(), i - 1);
        assert(seq![buffer[0]] + buffer.drop_first().take(i - 1) =~= buffer.take(i));
    }
}

pub const METADATA_BEGIN: &'static str = "[MORROW_METADATA_V1]";

pub const METADATA_END: &'static str = "[/MORROW_METADATA_V1]";

pub const MAX_EVENTKIT_IDENTIFIER_BYTES: usize = 255;

pub const ERROR_PERMISSION_DENIED: i32 = 1;

pub const ERROR_SOURCE_UNAVAILABLE: i32 = 2;

pub const ERROR_SAVE_FAILED: i32 = 3;

pub const ERROR_EMPTY_EVENT_IDENTIFIER: i32 = 4;

pub const ERROR_UNAVAILABLE: i32 = 5;

pub const TRUNCATED_EVENT_ID: i32 = 1;

pub const TRUNCATED_CALENDAR_ID: i32 = 2;

pub const TRUNCATED_SOURCE_ID: i32 = 3;

pub const TRUNCATED_REMINDER_ID: i32 = 1;

pub const TRUNCATED_LIST_ID: i32 = 2;

pub const TRUNCATED_REMINDER_SOURCE_ID: i32 = 3;

// ---------------------------------------------------------------------------
// Calendar events
// ---------------------------------------------------------------------------

#[derive(Debug)]
pub struct EventKitProposalReceipt {
    pub event_id: String,
    pub calendar_id: String,
    pub source_id: String,
}

#[derive(Debug)]
pub enum EventKitProposalError {
    InvalidInput { field: &'static str, reason: String },
    PermissionDenied { reason: String },
    SourceUnavailable { reason: String },
    SaveFailed { reason: String },
    EmptyEventIdentifier,
    Unavailable { reason: String },
}

/// The message each Calendar proposal error displays.
pub open spec fn proposal_error_text(e: EventKitProposalError) -> Seq<char> {
    match e {
        EventKitProposalError::InvalidInput { field, reason } => "invalid Calendar proposal "@
            + field@ + ": "@ + reason@,
        EventKitProposalError::PermissionDenied { reason } => "Calendar permission denied: "@
            + reason@,
        EventKitProposalError::SourceUnavailable { reason } => "Calendar source unavailable: "@
            + reason@,
        EventKitProposalError::SaveFailed { reason } => "Calendar event save failed: "@ + reason@,
        EventKitProposalError::EmptyEventIdentifier =>
            "Calendar event save failed: EventKit returned an empty event identifier"@,
        EventKitProposalError::Unavailable { reason } => "Calendar proposal bridge unavailable: "@
            + reason@,
    }
}

impl EventKitProposalError {
    /// The message the error displays.
    pub fn to_text(&self) -> (r: String)
        ensures
            r@ == proposal_error_text(*self),
    {
        match self {
            EventKitProposalError::InvalidInput { field, reason } => {
                let mut r = concat3("invalid Calendar proposal ", field, ": ");
                r.append(reason.as_str());
                r
            },
            EventKitProposalError::PermissionDenied { reason } => concat2(
                "Calendar permission denied: ",
                reason.as_str(),
            ),
            EventKitProposalError::SourceUnavailable { reason } => concat2(
                "Calendar source unavailable: ",
                reason.as_str(),
            ),
            EventKitProposalError::SaveFailed { reason } => concat2(
                "Calendar event save failed: ",
                reason.as_str(),
            ),
            EventKitProposalError::EmptyEventIdentifier => owned(
                "Calendar event save failed: EventKit returned an empty event identifier",
            ),
            EventKitProposalError::Unavailable { reason } => concat2(
                "Calendar proposal bridge unavailable: ",
                reason.as_str(),
            ),
        }
    }
}

/// The native result of creating a proposal event, with its fixed C
/// buffers already decoded to text.
#[derive(Debug)]
pub struct RawEventKitProposalResult {
    pub ok: i32,
    pub error_code: i32,
    pub truncated_field: i32,
    pub event_id: String,
    pub calendar_id: String,
    pub source_id: String,
    pub message: String,
}

/// The reason reported for a truncated identifier.
pub open spec fn truncated_identifier_text(field: i32) -> Seq<char> {
    if field == TRUNCATED_EVENT_ID {
        "EventKit returned a truncated event identifier"@
    } else if field == TRUNCATED_CALENDAR_ID {
        "EventKit returned a truncated calendar identifier"@
    } else if field == TRUNCATED_SOURCE_ID {
        "EventKit returned a truncated source identifier"@
    } else {
        "EventKit returned a truncated identifier"@
    }
}

pub fn truncated_identifier_message(field: i32) -> (r: &'static str)
    ensures
        r@ == truncated_identifier_text(field),
{
    if field == TRUNCATED_EVENT_ID {
        "EventKit returned a truncated event identifier"
    } else if field == TRUNCATED_CALENDAR_ID {
        "EventKit returned a truncated calendar identifier"
    } else if field == TRUNCATED_SOURCE_ID {
        "EventKit returned a truncated source identifier"
    } else {
        "EventKit returned a truncated identifier"
    }
}

/// A native message, or `fallback` when the native side left it empty.
pub open spec fn message_or(message: Seq<char>, fallback: Seq<char>) -> Seq<char> {
    if message.len() == 0 {
        fallback
    } else {
        message
    }
}

fn message_or_fallback(message: &String, fallback: &str) -> (r: String)
    ensures
        r@ == message_or(message@, fallback@),
{
    if message.as_str().unicode_len() == 0 {
        owned(fallback)
    } else {
        message.clone()
    }
}

/// The mapping of a native event result: a truncated identifier fails the
/// save; otherwise `ok` gives the receipt, and each error code its error.
pub open spec fn proposal_result_matches(
    raw: RawEventKitProposalResult,
    r: Result<EventKitProposalReceipt, EventKitProposalError>,
) -> bool {
    let reason = message_or(raw.message@, "EventKit proposal bridge failed"@);
    if raw.truncated_field != 0 {
        r matches Err(EventKitProposalError::SaveFailed { reason: m }) && m@
            == truncated_identifier_text(raw.truncated_field)
    } else if raw.ok != 0 {
        r matches Ok(receipt) && receipt.event_id@ == raw.event_id@ && receipt.calendar_id@
            == raw.calendar_id@ && receipt.source_id@ == raw.source_id@
    } else if raw.error_code == ERROR_PERMISSION_DENIED {
        r matches Err(EventKitProposalError::PermissionDenied { reason: m }) && m@ == reason
    } else if raw.error_code == ERROR_SOURCE_UNAVAILABLE {
        r matches Err(EventKitProposalError::SourceUnavailable { reason: m }) && m@ == reason
    } else if raw.error_code == ERROR_EMPTY_EVENT_IDENTIFIER {
        r matches Err(EventKitProposalError::EmptyEventIdentifier)
    } else if raw.error_code == ERROR_UNAVAILABLE {
        r matches Err(EventKitProposalError::Unavailable { reason: m }) && m@ == reason
    } else {
        r matches Err(EventKitProposalError::SaveFailed { reason: m }) && m@ == reason
    }
}

impl Default for RawEventKitProposalResult {
    fn default() -> (r: Self)
        ensures
            r.ok == 0 && r.error_code == 0 && r.truncated_field == 0,
            r.event_id@.len() == 0 && r.calendar_id@.len() == 0 && r.source_id@.len() == 0,
            r.message@.len() == 0,
    {
        RawEventKitProposalResult {
            ok: 0,
            error_code: 0,
            truncated_field: 0,
            event_id: String::new(),
            calendar_id: String::new(),
            source_id: String::new(),
            message: String::new(),
        }
    }
}

/// A native event result succeeds exactly when no identifier was cut and
/// the bridge reported success, and then each identifier of the receipt is
/// the one of the same name in the result.
pub proof fn law_event_result_maps_field_for_field(
    raw: RawEventKitProposalResult,
    r: Result<EventKitProposalReceipt, EventKitProposalError>,
)
    requires
        proposal_result_matches(raw, r),
    ensures
        r is Ok <==> (raw.truncated_field == 0 && raw.ok != 0),
        r matches Ok(receipt) ==> receipt.event_id@ == raw.event_id@ && receipt.calendar_id@
            == raw.calendar_id@ && receipt.source_id@ == raw.source_id@,
{
}

impl RawEventKitProposalResult {
    pub fn into_result(self) -> (r: Result<EventKitProposalReceipt, EventKitProposalError>)
        ensures
            proposal_result_matches(self, r),
            r is Ok <==> (self.truncated_field == 0 && self.ok != 0),
            r matches Ok(receipt) ==> receipt.event_id@ == self.event_id@ && receipt.calendar_id@
                == self.calendar_id@ && receipt.source_id@ == self.source_id@,
    {
        if self.truncated_field != 0 {
            return Err(
                EventKitProposalError::SaveFailed {
                    reason: owned(truncated_identifier_message(self.truncated_field)),
                },
            );
        }
        if self.ok != 0 {
            return Ok(
                EventKitProposalReceipt {
                    event_id: self.event_id,
                    calendar_id: self.calendar_id,
                    source_id: self.source_id,
                },
            );
        }
        let reason = self.message_string();
        if self.error_code == ERROR_PERMISSION_DENIED {
            Err(EventKitProposalError::PermissionDenied { reason })
        } else if self.error_code == ERROR_SOURCE_UNAVAILABLE {
            Err(EventKitProposalError::SourceUnavailable { reason })
        } else if self.error_code == ERROR_SAVE_FAILED {
            Err(EventKitProposalError::SaveFailed { reason })
        } else if self.error_code == ERROR_EMPTY_EVENT_IDENTIFIER {
            Err(EventKitProposalError::EmptyEventIdentifier)
        } else if self.error_code == ERROR_UNAVAILABLE {
            Err(EventKitProposalError::Unavailable { reason })
        } else {
            Err(EventKitProposalError::SaveFailed { reason })
        }
    }

    pub fn message_string(&self) -> (r: String)
        ensures
            r@ == message_or(self.message@, "EventKit proposal bridge failed"@),
    {
        message_or_fallback(&self.message, "EventKit proposal bridge failed")
    }
}

/// Rejects an event receipt whose identifier is blank.
pub fn check_event_receipt(receipt: EventKitProposalReceipt) -> (r: Result<
    EventKitProposalReceipt,
    EventKitProposalError,
>)
    ensures
        trim_text(receipt.event_id@).len() == 0 ==> (r matches Err(
            EventKitProposalError::EmptyEventIdentifier,
        )),
        trim_text(receipt.event_id@).len() != 0 ==> (r matches Ok(k) && k.event_id@
            == receipt.event_id@ && k.calendar_id@ == receipt.calendar_id@ && k.source_id@
            == receipt.source_id@),
{
    let trimmed = trim_chars(&chars_of(receipt.event_id.as_str()));
    if trimmed.len() == 0 {
        return Err(EventKitProposalError::EmptyEventIdentifier);
    }
    Ok(receipt)
}

/// The bridge answer where EventKit is not available.
pub fn calendar_unavailable_error() -> (r: EventKitProposalError)
    ensures
        r matches EventKitProposalError::Unavailable { reason } && reason@
            == "Calendar proposal creation requires macOS EventKit"@,
{
    EventKitProposalError::Unavailable {
        reason: owned("Calendar proposal creation requires macOS EventKit"),
    }
}

// ---------------------------------------------------------------------------
// Reminders
// ---------------------------------------------------------------------------

#[derive(Debug, PartialEq, Eq)]
pub struct ReminderDueComponents {
    pub year: i32,
    pub month: u8,
    pub day: u8,
    pub hour: u8,
    pub minute: u8,
    pub second: u8,
    pub time_zone: ReminderDueTimeZone,
}

#[derive(Debug, PartialEq, Eq)]
pub enum ReminderDueTimeZone {
    Named(String),
    Utc,
}

#[derive(Debug)]
pub struct EventKitReminderProposalReceipt {
    pub reminder_id: String,
    pub list_id: String,
    pub source_id: String,
}

#[derive(Debug)]
pub enum EventKitReminderProposalError {
    InvalidInput { field: &'static str, reason: String },
    PermissionDenied { reason: String },
    SourceUnavailable { reason: String },
    SaveFailed { reason: String },
    EmptyIdentifier { field: &'static str },
    TruncatedIdentifier { field: &'static str },
    Unavailable { reason: String },
}

/// The message each Reminders proposal error displays.
pub open spec fn reminder_error_text(e: EventKitReminderProposalError) -> Seq<char> {
    match e {
        EventKitReminderProposalError::InvalidInput { field, reason } =>
            "invalid Reminders proposal "@ + field@ + ": "@ + reason@,
        EventKitReminderProposalError::PermissionDenied { reason } =>
            "Reminders permission denied: "@ + reason@,
        EventKitReminderProposalError::SourceUnavailable { reason } =>
            "Reminders source unavailable: "@ + reason@,
        EventKitReminderProposalError::SaveFailed { reason } => "Reminders reminder save failed: "@
            + reason@,
        EventKitReminderProposalError::EmptyIdentifier { field } =>
            "Reminders reminder save failed: EventKit returned an empty "@ + field@,
        EventKitReminderProposalError::TruncatedIdentifier { field } =>
            "Reminders reminder save failed: EventKit returned a truncated "@ + field@,
        EventKitReminderProposalError::Unavailable { reason } =>
            "Reminders proposal bridge unavailable: "@ + reason@,
    }
}

impl EventKitReminderProposalError {
    /// The message the error displays.
    pub fn to_text(&self) -> (r: String)
        ensures
            r@ == reminder_error_text(*self),
    {
        match self {
            EventKitReminderProposalError::InvalidInput { field, reason } => {
                let mut r = concat3("invalid Reminders proposal ", field, ": ");
                r.append(reason.as_str());
                r
            },
            EventKitReminderProposalError::PermissionDenied { reason } => concat2(
                "Reminders permission denied: ",
                reason.as_str(),
            ),
            EventKitReminderProposalError::SourceUnavailable { reason } => concat2(
                "Reminders source unavailable: ",
                reason.as_str(),
            ),
            EventKitReminderProposalError::SaveFailed { reason } => concat2(
                "Reminders reminder save failed: ",
                reason.as_str(),
            ),
            EventKitReminderProposalError::EmptyIdentifier { field } => concat2(
                "Reminders reminder save failed: EventKit returned an empty ",
                field,
            ),
            EventKitReminderProposalError::TruncatedIdentifier { field } => concat2(
                "Reminders reminder save failed: EventKit returned a truncated ",
                field,
            ),
            EventKitReminderProposalError::Unavailable { reason } => concat2(
                "Reminders proposal bridge unavailable: ",
                reason.as_str(),
            ),
        }
    }
}

/// The native result of creating a proposal reminder, with its fixed C
/// buffers already decoded to text.
#[derive(Debug)]
pub struct RawEventKitReminderResult {
    pub ok: i32,
    pub error_code: i32,
    pub truncated_field: i32,
    pub reminder_id: String,
    pub list_id: String,
    pub source_id: String,
    pub message: String,
}

/// The identifier named for each truncation code.
pub open spec fn truncated_reminder_field_text(field: i32) -> Seq<char> {
    if field == TRUNCATED_LIST_ID {
        "list_id"@
    } else if field == TRUNCATED_REMINDER_SOURCE_ID {
        "source_id"@
    } else {
        "reminder_id"@
    }
}

pub fn truncated_reminder_identifier_field(field: i32) -> (r: &'static str)
    ensures
        r@ == truncated_reminder_field_text(field),
{
    if field == TRUNCATED_REMINDER_ID {
        "reminder_id"
    } else if field == TRUNCATED_LIST_ID {
        "list_id"
    } else if field == TRUNCATED_REMINDER_SOURCE_ID {
        "source_id"
    } else {
        "reminder_id"
    }
}

/// The mapping of a native reminder result, as for events.
pub open spec fn reminder_result_matches(
    raw: RawEventKitReminderResult,
    r: Result<EventKitReminderProposalReceipt, EventKitReminderProposalError>,
) -> bool {
    let reason = message_or(raw.message@, "EventKit Reminders proposal bridge failed"@);
    if raw.truncated_field != 0 {
        r matches Err(EventKitReminderProposalError::TruncatedIdentifier { field }) && field@
            == truncated_reminder_field_text(raw.truncated_field)
    } else if raw.ok != 0 {
        r matches Ok(receipt) && receipt.reminder_id@ == raw.reminder_id@ && receipt.list_id@
            == raw.list_id@ && receipt.source_id@ == raw.source_id@
    } else if raw.error_code == ERROR_PERMISSION_DENIED {
        r matches Err(EventKitReminderProposalError::PermissionDenied { reason: m }) && m@
            == reason
    } else if raw.error_code == ERROR_SOURCE_UNAVAILABLE {
        r matches Err(EventKitReminderProposalError::SourceUnavailable { reason: m }) && m@
            == reason
    } else if raw.error_code == ERROR_EMPTY_EVENT_IDENTIFIER {
        r matches Err(EventKitReminderProposalError::EmptyIdentifier { field }) && field@
            == "reminder_id"@
    } else if raw.error_code == ERROR_UNAVAILABLE {
        r matches Err(EventKitReminderProposalError::Unavailable { reason: m }) && m@ == reason
    } else {
        r matches Err(EventKitReminderProposalError::SaveFailed { reason: m }) && m@ == reason
    }
}

impl Default for RawEventKitReminderResult {
    fn default() -> (r: Self)
        ensures
            r.ok == 0 && r.error_code == 0 && r.truncated_field == 0,
            r.reminder_id@.len() == 0 && r.list_id@.len() == 0 && r.source_id@.len() == 0,
            r.message@.len() == 0,
    {
        RawEventKitReminderResult {
            ok: 0,
            error_code: 0,
            truncated_field: 0,
            reminder_id: String::new(),
            list_id: String::new(),
            source_id: String::new(),
            message: String::new(),
        }
    }
}

/// A native reminder result succeeds exactly when no identifier was cut
/// and the bridge reported success, and then each identifier of the
/// receipt is the one of the same name in the result.
pub proof fn law_reminder_result_maps_field_for_field(
    raw: RawEventKitReminderResult,
    r: Result<EventKitReminderProposalReceipt, EventKitReminderProposalError>,
)
    requires
        reminder_result_matches(raw, r),
    ensures
        r is Ok <==> (raw.truncated_field == 0 && raw.ok != 0),
        r matches Ok(receipt) ==> receipt.reminder_id@ == raw.reminder_id@ && receipt.list_id@
            == raw.list_id@ && receipt.source_id@ == raw.source_id@,
{
}

impl RawEventKitReminderResult {
    pub fn into_result(self) -> (r: Result<
        EventKitReminderProposalReceipt,
        EventKitReminderProposalError,
    >)
        ensures
            reminder_result_matches(self, r),
            r is Ok <==> (self.truncated_field == 0 && self.ok != 0),
            r matches Ok(receipt) ==> receipt.reminder_id@ == self.reminder_id@ && receipt.list_id@
                == self.list_id@ && receipt.source_id@ == self.source_id@,
    {
        if self.truncated_field != 0 {
            return Err(
                EventKitReminderProposalError::TruncatedIdentifier {
                    field: truncated_reminder_identifier_field(self.truncated_field),
                },
            );
        }
        if self.ok != 0 {
            return Ok(
                EventKitReminderProposalReceipt {
                    reminder_id: self.reminder_id,
                    list_id: self.list_id,
                    source_id: self.source_id,
                },
            );
        }
        let reason = self.message_string();
        if self.error_code == ERROR_PERMISSION_DENIED {
            Err(EventKitReminderProposalError::PermissionDenied { reason })
        } else if self.error_code == ERROR_SOURCE_UNAVAILABLE {
            Err(EventKitReminderProposalError::SourceUnavailable { reason })
        } else if self.error_code == ERROR_SAVE_FAILED {
            Err(EventKitReminderProposalError::SaveFailed { reason })
        } else if self.error_code == ERROR_EMPTY_EVENT_IDENTIFIER {
            Err(EventKitReminderProposalError::EmptyIdentifier { field: "reminder_id" })
        } else if self.error_code == ERROR_UNAVAILABLE {
            Err(EventKitReminderProposalError::Unavailable { reason })
        } else {
            Err(EventKitReminderProposalError::SaveFailed { reason })
        }
    }

    pub fn message_string(&self) -> (r: String)
        ensures
            r@ == message_or(self.message@, "EventKit Reminders proposal bridge failed"@),
    {
        message_or_fallback(&self.message, "EventKit Reminders proposal bridge failed")
    }
}

/// The UTF-8 length of a text.
pub open spec fn utf8_len(s: Seq<char>) -> nat {
    vstd::utf8::encode_utf8(s).len()
}

/// Refuses a value that holds a NUL character.
pub fn reject_nul(field: &'static str, value: &str) -> (r: Result<
    (),
    EventKitReminderProposalError,
>)
    ensures
        value@.contains('\0') ==> (r matches Err(
            EventKitReminderProposalError::InvalidInput { field: f, reason },
        ) && f == field && reason@ == "must not contain NUL bytes"@),
        !value@.contains('\0') ==> r is Ok,
{
    let chars = chars_of(value);
    let n = chars.len();
    for i in 0..n
        invariant
            n == chars@.len(),
            chars@ == value@,
            forall|k: int| 0 <= k < i ==> chars@[k] != '\0',
    {
        if chars[i] == '\0' {
            return Err(
                EventKitReminderProposalError::InvalidInput {
                    field,
                    reason: owned("must not contain NUL bytes"),
                },
            );
        }
    }
    Ok(())
}

/// Whether an identifier passes [`validate_identifier`].
pub open spec fn identifier_ok(value: Seq<char>) -> bool {
    trim_text(value).len() != 0 && utf8_len(value) <= MAX_EVENTKIT_IDENTIFIER_BYTES
}

/// The refusal of a bad identifier: blank first, then too long.
pub open spec fn refuses_identifier(
    e: EventKitReminderProposalError,
    field: Seq<char>,
    value: Seq<char>,
) -> bool {
    if trim_text(value).len() == 0 {
        e matches EventKitReminderProposalError::EmptyIdentifier { field: f } && f@ == field
    } else {
        e matches EventKitReminderProposalError::TruncatedIdentifier { field: f } && f@ == field
    }
}

/// Refuses a blank identifier, and one longer than the 255 bytes that
/// EventKit's fixed buffers hold.
pub fn validate_identifier(field: &'static str, value: &str) -> (r: Result<
    (),
    EventKitReminderProposalError,
>)
    ensures
        identifier_ok(value@) ==> r is Ok,
        !identifier_ok(value@) ==> (r matches Err(e) && refuses_identifier(e, field@, value@)),
{
    let trimmed = trim_chars(&chars_of(value));
    if trimmed.len() == 0 {
        return Err(EventKitReminderProposalError::EmptyIdentifier { field });
    }
    if value.as_bytes().len() > MAX_EVENTKIT_IDENTIFIER_BYTES {
        return Err(EventKitReminderProposalError::TruncatedIdentifier { field });
    }
    Ok(())
}

/// Checks the three identifiers of a reminder receipt, in order.
pub fn validate_reminder_receipt(receipt: EventKitReminderProposalReceipt) -> (r: Result<
    EventKitReminderProposalReceipt,
    EventKitReminderProposalError,
>)
    ensures
        r is Ok <==> identifier_ok(receipt.reminder_id@) && identifier_ok(
            receipt.list_id@,
        ) && identifier_ok(receipt.source_id@),
        r matches Ok(k) ==> k.reminder_id@ == receipt.reminder_id@ && k.list_id@
            == receipt.list_id@ && k.source_id@ == receipt.source_id@,
        !identifier_ok(receipt.reminder_id@) ==> (r matches Err(e) && refuses_identifier(
            e,
            "reminder_id"@,
            receipt.reminder_id@,
        )),
        identifier_ok(receipt.reminder_id@) && !identifier_ok(receipt.list_id@)
            ==> (r matches Err(e) && refuses_identifier(e, "list_id"@, receipt.list_id@)),
        identifier_ok(receipt.reminder_id@) && identifier_ok(receipt.list_id@)
            && !identifier_ok(receipt.source_id@) ==> (r matches Err(e)
            && refuses_identifier(e, "source_id"@, receipt.source_id@)),
{
    validate_identifier("reminder_id", receipt.reminder_id.as_str())?;
    validate_identifier("list_id", receipt.list_id.as_str())?;
    validate_identifier("source_id", receipt.source_id.as_str())?;
    Ok(receipt)
}

/// The bridge answer where EventKit is not available.
pub fn reminders_unavailable_error() -> (r: EventKitReminderProposalError)
    ensures
        r matches EventKitReminderProposalError::Unavailable { reason } && reason@
            == "Reminders proposal creation requires macOS EventKit"@,
{
    EventKitReminderProposalError::Unavailable {
        reason: owned("Reminders proposal creation requires macOS EventKit"),
    }
}

// ---------------------------------------------------------------------------
// Metadata block in reminder notes
// ---------------------------------------------------------------------------

/// The start of the last occurrence of `p` that ends at or before `k`, or
/// -1 when there is none.
pub open spec fn rfind_before(s: Seq<char>, p: Seq<char>, k: int) -> int
    decreases k,
{
    if k <= 0 {
        -1
    } else if occurs_at(s, p, k - 1) {
        k - 1
    } else {
        rfind_before(s, p, k - 1)
    }
}

/// The start of the last occurrence of `p` in `s` (-1 if none), as
/// `str::rfind` finds it.
pub open spec fn rfind_text(s: Seq<char>, p: Seq<char>) -> int {
    rfind_before(s, p, s.len() as int + 1)
}

/// The first line, from the one starting at `start` on, that begins with
/// `prefix`.
pub open spec fn first_line_with_prefix(s: Seq<char>, start: int, prefix: Seq<char>) -> Option<
    Seq<char>,
>
    decreases s.len() - start,
{
    if start < 0 || start >= s.len() {
        None
    } else if starts_with_text(line_at(s, start), prefix) {
        Some(line_at(s, start))
    } else if line_end(s, start) >= s.len() {
        None
    } else {
        proof {
            lemma_line_end_bounds(s, start);
        }
        first_line_with_prefix(s, line_end(s, start) + 1, prefix)
    }
}

/// The `candidate_id=` line of the last Morrow metadata block in `notes`.
pub open spec fn metadata_candidate_line(notes: Seq<char>) -> Option<Seq<char>> {
    let end = rfind_text(notes, METADATA_END@);
    if end < 0 {
        None
    } else {
        let begin = rfind_text(notes.take(end), METADATA_BEGIN@);
        if begin < 0 {
            None
        } else {
            let block = notes.subrange(begin + METADATA_BEGIN@.len(), end);
            first_line_with_prefix(block, 0, "candidate_id="@)
        }
    }
}

/// The last start index of `p` in `s` that ends at or before `limit`.
fn rfind_chars(s: &Vec<char>, p: &Vec<char>, limit: usize) -> (r: Option<usize>)
    requires
        limit <= s@.len(),
    ensures
        r matches Some(i) ==> rfind_text(s@.take(limit as int), p@) == i,
        r is None ==> rfind_text(s@.take(limit as int), p@) < 0,
{
    let ghost t = s@.take(limit as int);
    let mut k: usize = limit;
    assert(rfind_text(t, p@) == rfind_before(t, p@, k + 1));
    loop
        invariant
            k <= limit,
            limit <= s@.len(),
            t == s@.take(limit as int),
            rfind_text(t, p@) == rfind_before(t, p@, k + 1),
        decreases k,
    {
        let hit = crate::text::matches_at(s, p, k) && p.len() <= limit - k;
        proof {
            if k + p@.len() <= limit {
                assert(t.subrange(k as int, k + p@.len()) == s@.subrange(k as int, k + p@.len()));
            }
        }
        if hit {
            return Some(k);
        }
        if k == 0 {
            assert(rfind_before(t, p@, 1) == rfind_before(t, p@, 0));
            return None;
        }
        k = k - 1;
    }
}

/// Reads the `candidate_id=` line from the last Morrow metadata block of
/// reminder notes; a `candidate_id=` line outside that block is ignored.
pub fn metadata_candidate_id_line(notes: &str) -> (r: Result<String, EventKitReminderProposalError>)
    ensures
        metadata_candidate_line(notes@) matches Some(line) ==> (r matches Ok(s) && s@ == line),
        metadata_candidate_line(notes@) is None ==> (r matches Err(e) && is_missing_metadata_error(e)),
{
    let s = chars_of(notes);
    let end_marker = chars_of(METADATA_END);
    let begin_marker = chars_of(METADATA_BEGIN);
    let prefix = chars_of("candidate_id=");
    assert(s@.take(s@.len() as int) == s@);
    let end = match rfind_chars(&s, &end_marker, s.len()) {
        Some(e) => e,
        None => return Err(missing_metadata_candidate_id()),
    };
    proof {
        rfind_bounds(s@, end_marker@);
    }
    let begin = match rfind_chars(&s, &begin_marker, end) {
        Some(b) => b,
        None => return Err(missing_metadata_candidate_id()),
    };
    proof {
        rfind_bounds(s@.take(end as int), begin_marker@);
    }
    let from = begin + begin_marker.len();
    let mut block: Vec<char> = Vec::new();
    for i in from..end
        invariant
            from <= end <= s@.len(),
            block@ == s@.subrange(from as int, i as int),
    {
        block.push(s[i]);
        assert(s@.subrange(from as int, i + 1) == s@.subrange(from as int, i as int).push(
            s@[i as int],
        ));
    }
    match first_prefixed_line(&block, &prefix) {
        Some(line) => Ok(line),
        None => Err(missing_metadata_candidate_id()),
    }
}

proof fn rfind_bounds(s: Seq<char>, p: Seq<char>)
    ensures
        rfind_text(s, p) >= 0 ==> occurs_at(s, p, rfind_text(s, p)),
{
    lemma_rfind_before(s, p, s.len() as int + 1);
}

proof fn lemma_rfind_before(s: Seq<char>, p: Seq<char>, k: int)
    ensures
        rfind_before(s, p, k) >= 0 ==> occurs_at(s, p, rfind_before(s, p, k)),
    decreases k,
{
    if k > 0 && !occurs_at(s, p, k - 1) {
        lemma_rfind_before(s, p, k - 1);
    }
}

/// The first line of `s` that begins with `prefix`.
fn first_prefixed_line(s: &Vec<char>, prefix: &Vec<char>) -> (r: Option<String>)
    ensures
        r matches Some(line) ==> first_line_with_prefix(s@, 0, prefix@) == Some(line@),
        r is None ==> first_line_with_prefix(s@, 0, prefix@) is None,
{
    let n = s.len();
    let mut start: usize = 0;
    while start < n
        invariant
            n == s@.len(),
            start <= n,
            first_line_with_prefix(s@, 0, prefix@) == first_line_with_prefix(
                s@,
                start as int,
                prefix@,
            ),
        decreases n - start,
    {
        let (line, e) = next_line(s, start);
        proof {
            lemma_line_end_bounds(s@, start as int);
        }
        if crate::text::starts_with_chars(&line, prefix) {
            return Some(string_from_chars(&line));
        }
        if e >= n {
            return None;
        }
        start = e + 1;
    }
    None
}

/// The error for notes without a Morrow candidate id.
pub open spec fn is_missing_metadata_error(e: EventKitReminderProposalError) -> bool {
    e matches EventKitReminderProposalError::InvalidInput { field, reason } && field@ == "notes"@
        && reason@ == "missing Morrow metadata candidate id"@
}

pub fn missing_metadata_candidate_id() -> (r: EventKitReminderProposalError)
    ensures
        is_missing_metadata_error(r),
{
    EventKitReminderProposalError::InvalidInput {
        field: "notes",
        reason: owned("missing Morrow metadata candidate id"),
    }
}

// ---------------------------------------------------------------------------
// Native requests
// ---------------------------------------------------------------------------

/// Whether a text holds a NUL character (and so cannot be a C string).
pub fn has_nul(value: &str) -> (r: bool)
    ensures
        r == value@.contains('\0'),
{
    let chars = chars_of(value);
    let n = chars.len();
    for i in 0..n
        invariant
            n == chars@.len(),
            chars@ == value@,
            forall|k: int| 0 <= k < i ==> chars@[k] != '\0',
    {
        if chars[i] == '\0' {
            assert(value@[i as int] == '\0');
            return true;
        }
    }
    false
}

/// The native request for a proposal event, with its texts checked to be
/// C strings.
#[derive(Debug)]
pub struct EventNativeRequest {
    pub title: String,
    pub notes: String,
    pub start_unix: i64,
    pub end_unix: i64,
}

/// `e` refuses a Calendar field that holds a NUL character.
pub open spec fn is_event_nul_error(e: EventKitProposalError, field: Seq<char>) -> bool {
    e matches EventKitProposalError::InvalidInput { field: f, reason } && f@ == field && reason@
        == "value must not contain NUL bytes"@
}

pub fn event_native_request(title: &str, notes: &str, start_unix: i64, end_unix: i64) -> (r: Result<
    EventNativeRequest,
    EventKitProposalError,
>)
    ensures
        title@.contains('\0') ==> (r matches Err(e) && is_event_nul_error(e, "title"@)),
        !title@.contains('\0') && notes@.contains('\0') ==> (r matches Err(e)
            && is_event_nul_error(e, "notes"@)),
        !title@.contains('\0') && !notes@.contains('\0') ==> (r matches Ok(q) && q.title@
            == title@ && q.notes@ == notes@ && q.start_unix == start_unix && q.end_unix
            == end_unix),
{
    if has_nul(title) {
        return Err(
            EventKitProposalError::InvalidInput {
                field: "title",
                reason: owned("value must not contain NUL bytes"),
            },
        );
    }
    if has_nul(notes) {
        return Err(
            EventKitProposalError::InvalidInput {
                field: "notes",
                reason: owned("value must not contain NUL bytes"),
            },
        );
    }
    Ok(EventNativeRequest { title: owned(title), notes: owned(notes), start_unix, end_unix })
}

/// A reminder to propose: its texts and when it is due.
#[derive(Debug)]
pub struct ReminderProposalRecord {
    pub candidate_id: String,
    pub selected_source_id: String,
    pub title: String,
    pub notes: String,
    pub due: ReminderDueComponents,
}

/// The native request for a proposal reminder.
#[derive(Debug)]
pub struct ReminderNativeRequest {
    pub title: String,
    pub notes: String,
    pub metadata_candidate_id: String,
    pub due_year: i32,
    pub due_month: i32,
    pub due_day: i32,
    pub has_due_time: i32,
    pub due_hour: i32,
    pub due_minute: i32,
    pub due_second: i32,
    pub timezone_name: String,
}

/// `e` refuses a Reminders field that holds a NUL character.
pub open spec fn is_reminder_nul_error(e: EventKitReminderProposalError, field: Seq<char>) -> bool {
    e matches EventKitReminderProposalError::InvalidInput { field: f, reason } && f@ == field
        && reason@ == "value must not contain NUL bytes"@
}

/// The zone name handed to EventKit: the named zone, or `UTC`.
pub open spec fn time_zone_text(tz: ReminderDueTimeZone) -> Seq<char> {
    match tz {
        ReminderDueTimeZone::Named(name) => name@,
        ReminderDueTimeZone::Utc => "UTC"@,
    }
}

fn reminder_c_text(field: &'static str, value: &str) -> (r: Result<
    String,
    EventKitReminderProposalError,
>)
    ensures
        value@.contains('\0') ==> (r matches Err(e) && is_reminder_nul_error(e, field@)),
        !value@.contains('\0') ==> (r matches Ok(t) && t@ == value@),
{
    if has_nul(value) {
        return Err(
            EventKitReminderProposalError::InvalidInput {
                field,
                reason: owned("value must not contain NUL bytes"),
            },
        );
    }
    Ok(owned(value))
}

/// What the request is once the metadata line is found: the line and the
/// zone name must be C strings too.
pub open spec fn request_from_line(
    record: &ReminderProposalRecord,
    line: Seq<char>,
    r: Result<ReminderNativeRequest, EventKitReminderProposalError>,
) -> bool {
    &&& line.contains('\0') ==> (r matches Err(e) && is_reminder_nul_error(
        e,
        "metadata_candidate_id"@,
    ))
    &&& (!line.contains('\0') && time_zone_text(record.due.time_zone).contains('\0')) ==> (
    r matches Err(e) && is_reminder_nul_error(e, "time_zone"@))
    &&& (!line.contains('\0') && !time_zone_text(record.due.time_zone).contains('\0')) ==> (
    r matches Ok(q) && q.title@ == record.title@ && q.notes@ == record.notes@
        && q.metadata_candidate_id@ == line && q.due_year == record.due.year && q.due_month
        == record.due.month && q.due_day == record.due.day && q.has_due_time == 1 && q.due_hour
        == record.due.hour && q.due_minute == record.due.minute && q.due_second
        == record.due.second && q.timezone_name@ == time_zone_text(record.due.time_zone))
}

/// The native request for a reminder: title, notes, the `candidate_id=`
/// line of the notes' metadata block, the due date and time (always with
/// a time), and the zone name; each text must be a C string, checked in
/// that order.
pub fn reminder_native_request(record: &ReminderProposalRecord) -> (r: Result<
    ReminderNativeRequest,
    EventKitReminderProposalError,
>)
    ensures
        record.title@.contains('\0') ==> (r matches Err(e) && is_reminder_nul_error(e, "title"@)),
        !record.title@.contains('\0') && record.notes@.contains('\0') ==> (r matches Err(e)
            && is_reminder_nul_error(e, "notes"@)),
        !record.title@.contains('\0') && !record.notes@.contains('\0') && metadata_candidate_line(
            record.notes@,
        ) is None ==> (r matches Err(e) && is_missing_metadata_error(e)),
        (!record.title@.contains('\0') && !record.notes@.contains('\0') && metadata_candidate_line(
            record.notes@,
        ) is Some) ==> request_from_line(record, metadata_candidate_line(record.notes@)->0, r),
{
    let title = reminder_c_text("title", record.title.as_str())?;
    let notes = reminder_c_text("notes", record.notes.as_str())?;
    let line = metadata_candidate_id_line(record.notes.as_str())?;
    let metadata_candidate_id = reminder_c_text("metadata_candidate_id", line.as_str())?;
    let timezone_name = match &record.due.time_zone {
        ReminderDueTimeZone::Named(name) => reminder_c_text("time_zone", name.as_str())?,
        ReminderDueTimeZone::Utc => {
            proof {
                reveal_strlit("UTC");
            }
            reminder_c_text("time_zone", "UTC")?
        },
    };
    Ok(
        ReminderNativeRequest {
            title,
            notes,
            metadata_candidate_id,
            due_year: record.due.year,
            due_month: record.due.month as i32,
            due_day: record.due.day as i32,
            has_due_time: 1,
            due_hour: record.due.hour as i32,
            due_minute: record.due.minute as i32,
            due_second: record.due.second as i32,
            timezone_name,
        },
    )
}

} // verus!
