//! The Messages database reader: decoding what sqlite3 prints, the
//! queries it is given, timestamps, and the rules that turn result rows
//! into chats.
use vstd::prelude::*;

use crate::text::{
    ascii_lower, chars_of, concat2, contains_text, decimal, decimal_string, lemma_line_end_bounds,
    line_at, line_end, next_line, owned, string_from_chars, text_less, to_ascii_lower, trim_chars,
    trim_text,
};

verus! {

#[derive(Debug)]
pub enum MessagesError {
    PermissionDenied,
    NativeUnavailable { reason: String },
    InvalidInput { field: &'static str, reason: String },
}

/// `e` reports that the native reader is unavailable, for `reason`.
pub open spec fn is_unavailable(e: MessagesError, reason: Seq<char>) -> bool {
    e matches MessagesError::NativeUnavailable { reason: r } && r@ == reason
}

/// `e` refuses `field` of the input, for `reason`.
pub open spec fn is_invalid_input(e: MessagesError, field: Seq<char>, reason: Seq<char>) -> bool {
    e matches MessagesError::InvalidInput { field: f, reason: r } && f@ == field && r@ == reason
}

fn unavailable(reason: String) -> (r: MessagesError)
    ensures
        is_unavailable(r, reason@),
{
    MessagesError::NativeUnavailable { reason }
}

// ---------------------------------------------------------------------------
// Hex text
// ---------------------------------------------------------------------------

/// The value of an ASCII hex digit.
pub open spec fn hex_value(b: u8) -> Option<u8> {
    if 48 <= b <= 57 {
        Some((b - 48) as u8)
    } else if 97 <= b <= 102 {
        Some((b - 87) as u8)
    } else if 65 <= b <= 70 {
        Some((b - 55) as u8)
    } else {
        None
    }
}

/// Every byte of `s` is a hex digit.
pub open spec fn all_hex_digits(s: Seq<u8>) -> bool {
    forall|i: int| 0 <= i < s.len() ==> (#[trigger] hex_value(s[i])) is Some
}

/// The bytes that a string of hex digit pairs spells.
pub open spec fn hex_decoded(s: Seq<u8>) -> Seq<u8> {
    Seq::new(
        s.len() / 2,
        |i: int| (hex_value(s[2 * i])->0 * 16 + hex_value(s[2 * i + 1])->0) as u8,
    )
}

pub fn hex_nibble(byte: u8) -> (r: Option<u8>)
    ensures
        r == hex_value(byte),
{
    if 48 <= byte && byte <= 57 {
        Some(byte - 48)
    } else if 97 <= byte && byte <= 102 {
        Some(byte - 87)
    } else if 65 <= byte && byte <= 70 {
        Some(byte - 55)
    } else {
        None
    }
}

/// Decodes the hex text sqlite3 prints for a blob; `field` names what is
/// decoded in the error.
pub fn hex_bytes(value: &str, field: &str) -> (r: Result<Vec<u8>, MessagesError>)
    ensures
        vstd::utf8::encode_utf8(value@).len() % 2 != 0 ==> (r matches Err(e) && is_unavailable(
            e,
            "sqlite returned odd-length "@ + field@,
        )),
        vstd::utf8::encode_utf8(value@).len() % 2 == 0 && !all_hex_digits(
            vstd::utf8::encode_utf8(value@),
        ) ==> (r matches Err(e) && is_unavailable(e, "sqlite returned invalid "@ + field@)),
        vstd::utf8::encode_utf8(value@).len() % 2 == 0 && all_hex_digits(
            vstd::utf8::encode_utf8(value@),
        ) ==> (r matches Ok(b) && b@ == hex_decoded(vstd::utf8::encode_utf8(value@))),
{
    let bytes = value.as_bytes();
    let ghost s = vstd::utf8::encode_utf8(value@);
    let n = bytes.len();
    if n % 2 != 0 {
        return Err(unavailable(concat2("sqlite returned odd-length ", field)));
    }
    let mut decoded: Vec<u8> = Vec::new();
    let pairs = n / 2;
    for k in 0..pairs
        invariant
            s == vstd::utf8::encode_utf8(value@),
            bytes@ == s,
            n == s.len(),
            pairs * 2 == n,
            n % 2 == 0,
            decoded@.len() == k,
            forall|j: int| 0 <= j < 2 * k ==> (#[trigger] hex_value(s[j])) is Some,
            forall|j: int|
                0 <= j < k ==> decoded@[j] == (hex_value(s[2 * j])->0 * 16 + hex_value(
                    s[2 * j + 1],
                )->0) as u8,
    {
        let high = match hex_nibble(bytes[2 * k]) {
            Some(h) => h,
            None => {
                return Err(unavailable(concat2("sqlite returned invalid ", field)));
            },
        };
        let low = match hex_nibble(bytes[2 * k + 1]) {
            Some(l) => l,
            None => {
                return Err(unavailable(concat2("sqlite returned invalid ", field)));
            },
        };
        decoded.push(high * 16 + low);
    }
    assert(decoded@ == hex_decoded(s));
    Ok(decoded)
}

/// `String::from_utf8` from std: the text the bytes encode when they are
/// valid UTF-8, else the error's message.
#[verifier::external_body]
pub(crate) fn utf8_string(bytes: Vec<u8>) -> (r: Result<String, String>)
    ensures
        r is Ok <==> vstd::utf8::valid_utf8(bytes@),
        r matches Ok(s) ==> s@ == vstd::utf8::decode_utf8(bytes@),
{
    match String::from_utf8(bytes) {
        Ok(text) => Ok(text),
        Err(error) => Err(format!("{error}")),
    }
}

/// The text a hex column holds, as UTF-8.
pub open spec fn hex_text_ok(value: Seq<char>) -> bool {
    let s = vstd::utf8::encode_utf8(value);
    s.len() % 2 == 0 && all_hex_digits(s) && vstd::utf8::valid_utf8(hex_decoded(s))
}

/// Decodes a hex text column to the UTF-8 text it holds.
pub fn hex_text(value: &str) -> (r: Result<String, MessagesError>)
    ensures
        hex_text_ok(value@) ==> (r matches Ok(t) && t@ == vstd::utf8::decode_utf8(
            hex_decoded(vstd::utf8::encode_utf8(value@)),
        )),
        !hex_text_ok(value@) ==> r is Err,
        vstd::utf8::encode_utf8(value@).len() % 2 != 0 ==> (r matches Err(e) && is_unavailable(
            e,
            "sqlite returned odd-length hex text"@,
        )),
        vstd::utf8::encode_utf8(value@).len() % 2 == 0 && !all_hex_digits(
            vstd::utf8::encode_utf8(value@),
        ) ==> (r matches Err(e) && is_unavailable(e, "sqlite returned invalid hex text"@)),
{
    let bytes = match hex_bytes(value, "hex text") {
        Ok(b) => b,
        Err(e) => {
            proof {
                reveal_strlit("hex text");
                reveal_strlit("sqlite returned odd-length ");
                reveal_strlit("sqlite returned odd-length hex text");
                reveal_strlit("sqlite returned invalid ");
                reveal_strlit("sqlite returned invalid hex text");
                assert("sqlite returned odd-length "@ + "hex text"@
                    =~= "sqlite returned odd-length hex text"@);
                assert("sqlite returned invalid "@ + "hex text"@
                    =~= "sqlite returned invalid hex text"@);
            }
            return Err(e);
        },
    };
    match utf8_string(bytes) {
        Ok(text) => Ok(text),
        Err(error) => Err(unavailable(concat2("sqlite returned non-utf8 text: ", error.as_str()))),
    }
}

/// The uppercase hex digit of a value below 16, as sqlite3's `hex()` prints.
pub open spec fn upper_hex_digit(v: int) -> char {
    if v < 10 {
        (v + 48) as char
    } else {
        (v + 55) as char
    }
}

/// The uppercase hex spelling of a blob, two digits per byte.
pub open spec fn upper_hex_of(bytes: Seq<u8>) -> Seq<char> {
    Seq::new(
        2 * bytes.len(),
        |i: int|
            if i % 2 == 0 {
                upper_hex_digit(bytes[i / 2] as int / 16)
            } else {
                upper_hex_digit(bytes[i / 2] as int % 16)
            },
    )
}

proof fn lemma_upper_hex_digit(v: int)
    requires
        0 <= v < 16,
    ensures
        '\0' <= upper_hex_digit(v) <= '\u{7f}',
        hex_value(upper_hex_digit(v) as u8) == Some(v as u8),
{
    if v < 10 {
        assert(((v + 48) as char) as u32 == v + 48);
    } else {
        assert(((v + 55) as char) as u32 == v + 55);
    }
}

/// Decoding the uppercase hex spelling of a text's UTF-8 bytes gives the
/// text back: [`hex_text`] accepts that spelling and returns the text.
pub proof fn law_hex_text_reads_back(text: Seq<char>)
    ensures
        hex_text_ok(upper_hex_of(vstd::utf8::encode_utf8(text))),
        vstd::utf8::decode_utf8(
            hex_decoded(vstd::utf8::encode_utf8(upper_hex_of(vstd::utf8::encode_utf8(text)))),
        ) == text,
{
    let b = vstd::utf8::encode_utf8(text);
    let h = upper_hex_of(b);
    assert forall|i: int| 0 <= i < h.len() implies '\0' <= #[trigger] h[i] <= '\u{7f}'
        && hex_value(h[i] as u8) == Some(
        (if i % 2 == 0 {
            b[i / 2] as int / 16
        } else {
            b[i / 2] as int % 16
        }) as u8,
    ) by {
        if i % 2 == 0 {
            lemma_upper_hex_digit(b[i / 2] as int / 16);
        } else {
            lemma_upper_hex_digit(b[i / 2] as int % 16);
        }
    }
    assert(vstd::utf8::is_ascii_chars(h));
    vstd::utf8::is_ascii_chars_encode_utf8(h);
    let s = vstd::utf8::encode_utf8(h);
    assert(s.len() == 2 * b.len());
    assert forall|i: int| 0 <= i < s.len() implies (#[trigger] hex_value(s[i])) is Some by {
        assert(s[i] == h[i] as u8);
    }
    assert(hex_decoded(s) =~= b) by {
        assert forall|k: int| 0 <= k < b.len() implies #[trigger] hex_decoded(s)[k] == b[k] by {
            assert(s[2 * k] == h[2 * k] as u8);
            assert(s[2 * k + 1] == h[2 * k + 1] as u8);
            assert((2 * k) / 2 == k && (2 * k) % 2 == 0);
            assert((2 * k + 1) / 2 == k && (2 * k + 1) % 2 == 1);
            let x = b[k] as int;
            assert(x / 16 * 16 + x % 16 == x) by (nonlinear_arith)
                requires
                    0 <= x,
            ;
        }
    }
    vstd::utf8::encode_utf8_valid_utf8(text);
    vstd::utf8::encode_utf8_decode_utf8(text);
}

// ---------------------------------------------------------------------------
// Attributed bodies
// ---------------------------------------------------------------------------

/// The native decoder found no text in the body.
pub const ATTRIBUTED_BODY_DECODE_FAILED: i32 = 1;

/// The native decoder's text did not fit its buffer.
pub const ATTRIBUTED_BODY_TEXT_TRUNCATED: i32 = 2;

/// What the native attributed-body decoder reports, its buffers read as
/// text.
#[derive(Debug, Clone)]
pub struct RawAttributedBodyResult {
    pub ok: i32,
    pub error_code: i32,
    pub text: String,
    pub message: String,
}

impl Default for RawAttributedBodyResult {
    fn default() -> (r: Self)
        ensures
            r.ok == 0,
            r.error_code == 0,
            r.text@.len() == 0,
            r.message@.len() == 0,
    {
        RawAttributedBodyResult { ok: 0, error_code: 0, text: String::new(), message: String::new() }
    }
}

/// The decoder's message, or a fallback when it left none.
pub open spec fn body_message(raw: RawAttributedBodyResult) -> Seq<char> {
    if raw.message@.len() == 0 {
        "attributed body decode failed"@
    } else {
        raw.message@
    }
}

/// The reading of a decoder result: its text when it succeeded, no text
/// when it found none, else the reader is unavailable for its message.
pub open spec fn body_result_matches(
    raw: RawAttributedBodyResult,
    r: Result<Option<String>, MessagesError>,
) -> bool {
    if raw.ok != 0 {
        r matches Ok(Some(t)) && t@ == raw.text@
    } else if raw.error_code == ATTRIBUTED_BODY_DECODE_FAILED {
        r matches Ok(None)
    } else {
        r matches Err(e) && is_unavailable(e, body_message(raw))
    }
}

impl RawAttributedBodyResult {
    pub fn message_string(&self) -> (r: String)
        ensures
            r@ == body_message(*self),
    {
        if self.message.as_str().unicode_len() == 0 {
            owned("attributed body decode failed")
        } else {
            self.message.clone()
        }
    }

    pub fn into_text(self) -> (r: Result<Option<String>, MessagesError>)
        ensures
            body_result_matches(self, r),
    {
        if self.ok != 0 {
            return Ok(Some(self.text));
        }
        if self.error_code == ATTRIBUTED_BODY_DECODE_FAILED {
            Ok(None)
        } else {
            Err(unavailable(self.message_string()))
        }
    }
}

/// Decodes the bytes of an attributed body into its text (the native
/// decoder on macOS).
pub trait AttributedBodyDecoder {
    fn decode(&self, bytes: &Vec<u8>) -> RawAttributedBodyResult;
}

/// The decoder where none is available: every body reads as having no
/// text.
#[derive(Debug, Default, Clone, Copy)]
pub struct NoAttributedBodyDecoder;

impl AttributedBodyDecoder for NoAttributedBodyDecoder {
    fn decode(&self, bytes: &Vec<u8>) -> (r: RawAttributedBodyResult)
        ensures
            r.ok == 0 && r.error_code == ATTRIBUTED_BODY_DECODE_FAILED,
    {
        RawAttributedBodyResult {
            ok: 0,
            error_code: ATTRIBUTED_BODY_DECODE_FAILED,
            text: String::new(),
            message: String::new(),
        }
    }
}

/// The text of a hex attributed-body column: none for an empty column,
/// else what the decoder makes of its bytes.
pub fn text_from_hex<D: AttributedBodyDecoder>(value: &str, decoder: &D) -> (r: Result<
    Option<String>,
    MessagesError,
>)
    ensures
        vstd::utf8::encode_utf8(value@).len() % 2 != 0 ==> (r matches Err(e) && is_unavailable(
            e,
            "sqlite returned odd-length attributed body"@,
        )),
        vstd::utf8::encode_utf8(value@).len() % 2 == 0 && !all_hex_digits(
            vstd::utf8::encode_utf8(value@),
        ) ==> (r matches Err(e) && is_unavailable(e, "sqlite returned invalid attributed body"@)),
        value@.len() == 0 ==> r matches Ok(None),
        value@.len() > 0 && vstd::utf8::encode_utf8(value@).len() % 2 == 0 && all_hex_digits(
            vstd::utf8::encode_utf8(value@),
        ) ==> exists|bytes: Vec<u8>, raw: RawAttributedBodyResult|
            bytes@ == hex_decoded(vstd::utf8::encode_utf8(value@)) && #[trigger] call_ensures(
                D::decode,
                (decoder, &bytes),
                raw,
            ) && body_result_matches(raw, r),
{
    proof {
        reveal_strlit("attributed body");
        reveal_strlit("sqlite returned odd-length ");
        reveal_strlit("sqlite returned odd-length attributed body");
        reveal_strlit("sqlite returned invalid ");
        reveal_strlit("sqlite returned invalid attributed body");
        assert("sqlite returned odd-length "@ + "attributed body"@
            =~= "sqlite returned odd-length attributed body"@);
        assert("sqlite returned invalid "@ + "attributed body"@
            =~= "sqlite returned invalid attributed body"@);
        if value@.len() > 0 {
            assert(vstd::utf8::encode_utf8(value@).len() > 0) by {
                vstd::utf8::encode_utf8_first_scalar(value@);
            }
        }
    }
    let bytes = match hex_bytes(value, "attributed body") {
        Ok(b) => b,
        Err(e) => {
            return Err(e);
        },
    };
    if bytes.len() == 0 {
        return Ok(None);
    }
    let raw = decoder.decode(&bytes);
    let ghost seen = raw;
    assert(call_ensures(D::decode, (decoder, &bytes), seen));
    let r = raw.into_text();
    assert(body_result_matches(seen, r));
    r
}

// ---------------------------------------------------------------------------
// Result rows
// ---------------------------------------------------------------------------

/// An ASCII decimal digit.
pub open spec fn is_ascii_digit(c: char) -> bool {
    '0' <= c <= '9'
}

/// The value of a run of ASCII decimal digits.
pub open spec fn digits_value(d: Seq<char>) -> int
    decreases d.len(),
{
    if d.len() == 0 {
        0
    } else {
        digits_value(d.drop_last()) * 10 + (d.last() as int - 48)
    }
}

/// The integer a decimal text spells: an optional `+` or `-`, then one or
/// more ASCII digits and nothing else.
pub open spec fn decimal_text_value(s: Seq<char>) -> Option<int> {
    let signed = s.len() > 0 && (s[0] == '+' || s[0] == '-');
    let digits = if signed {
        s.drop_first()
    } else {
        s
    };
    if digits.len() > 0 && forall|i: int| 0 <= i < digits.len() ==> is_ascii_digit(#[trigger] digits[i]) {
        if signed && s[0] == '-' {
            Some(-digits_value(digits))
        } else {
            Some(digits_value(digits))
        }
    } else {
        None
    }
}

/// The text parses as an `i64`.
pub open spec fn parses_as_i64(s: Seq<char>) -> bool {
    decimal_text_value(s) matches Some(v) && i64::MIN <= v <= i64::MAX
}

/// `str::parse::<i64>` from std: the value of an optional sign followed by
/// decimal digits, when it fits; else the error's message.
#[verifier::external_body]
fn parse_i64(s: &str) -> (r: Result<i64, String>)
    ensures
        r is Ok <==> parses_as_i64(s@),
        r matches Ok(v) ==> decimal_text_value(s@) == Some(v as int),
{
    match s.parse::<i64>() {
        Ok(value) => Ok(value),
        Err(error) => Err(format!("{error}")),
    }
}

/// Column `index` of a row; `field` names it in the error.
pub fn row_value<'a>(row: &'a Vec<String>, index: usize, field: &str) -> (r: Result<
    &'a str,
    MessagesError,
>)
    ensures
        index < row@.len() ==> (r matches Ok(v) && v@ == row@[index as int]@),
        index >= row@.len() ==> (r matches Err(e) && is_unavailable(
            e,
            "sqlite row missing "@ + field@,
        )),
{
    if index < row.len() {
        Ok(row[index].as_str())
    } else {
        Err(unavailable(concat2("sqlite row missing ", field)))
    }
}

/// `e` reports that column `field` of a row does not hold an integer.
pub open spec fn is_invalid_column(e: MessagesError, field: Seq<char>) -> bool {
    let head = "sqlite row has invalid "@ + field + ": "@;
    e matches MessagesError::NativeUnavailable { reason } && reason@.len() >= head.len()
        && reason@.take(head.len() as int) == head
}

/// Column `index` of a row, as an `i64`.
pub fn row_i64(row: &Vec<String>, index: usize, field: &str) -> (r: Result<i64, MessagesError>)
    ensures
        index >= row@.len() ==> (r matches Err(e) && is_unavailable(
            e,
            "sqlite row missing "@ + field@,
        )),
        index < row@.len() && parses_as_i64(row@[index as int]@) ==> (r matches Ok(v)
            && decimal_text_value(row@[index as int]@) == Some(v as int)),
        index < row@.len() && !parses_as_i64(row@[index as int]@) ==> (r matches Err(e)
            && is_invalid_column(e, field@)),
{
    let text = row_value(row, index, field)?;
    match parse_i64(text) {
        Ok(value) => Ok(value),
        Err(error) => {
            let mut reason = concat2("sqlite row has invalid ", field);
            reason.append(": ");
            let ghost head = reason@;
            reason.append(error.as_str());
            assert(reason@.take(head.len() as int) == head);
            Err(unavailable(reason))
        },
    }
}

/// Column `index` of a row, as a `u16`.
pub fn row_u16(row: &Vec<String>, index: usize, field: &str) -> (r: Result<u16, MessagesError>)
    ensures
        index >= row@.len() ==> (r matches Err(e) && is_unavailable(
            e,
            "sqlite row missing "@ + field@,
        )),
        index < row@.len() && parses_as_i64(row@[index as int]@) && 0 <= decimal_text_value(
            row@[index as int]@,
        )->0 <= u16::MAX ==> (r matches Ok(v) && decimal_text_value(row@[index as int]@) == Some(
            v as int,
        )),
        index < row@.len() && parses_as_i64(row@[index as int]@) && !(0 <= decimal_text_value(
            row@[index as int]@,
        )->0 <= u16::MAX) ==> (r matches Err(e) && is_unavailable(
            e,
            "sqlite row has invalid "@ + field@
                + ": out of range integral type conversion attempted"@,
        )),
        index < row@.len() && !parses_as_i64(row@[index as int]@) ==> (r matches Err(e)
            && is_invalid_column(e, field@)),
{
    let value = row_i64(row, index, field)?;
    if 0 <= value && value <= 65535 {
        Ok(value as u16)
    } else {
        let mut reason = concat2("sqlite row has invalid ", field);
        reason.append(": out of range integral type conversion attempted");
        Err(unavailable(reason))
    }
}


// ---------------------------------------------------------------------------
// Timestamps
// ---------------------------------------------------------------------------

/// Seconds from the Unix epoch to the Apple reference date (2001-01-01).
pub const APPLE_EPOCH_UNIX_SECONDS: i64 = 978_307_200;

pub const NANOSECONDS_PER_SECOND: i64 = 1_000_000_000;

/// Message dates at or above this are nanoseconds since 2001; below it,
/// seconds.
pub const MIN_NANOSECONDS_SINCE_2001: i64 = 10_000_000_000;

/// A Messages `date` column value.
pub open spec fn apple_to_unix_seconds(value: int) -> int {
    if value >= MIN_NANOSECONDS_SINCE_2001 {
        value / NANOSECONDS_PER_SECOND as int + APPLE_EPOCH_UNIX_SECONDS
    } else {
        value + APPLE_EPOCH_UNIX_SECONDS
    }
}

fn invalid_timestamp(reason: &str) -> (r: MessagesError)
    ensures
        is_invalid_input(r, "message_timestamp"@, reason@),
{
    MessagesError::InvalidInput { field: "message_timestamp", reason: owned(reason) }
}

/// Converts a Messages `date` (seconds, or nanoseconds, since 2001) to
/// Unix seconds; a negative date is refused.
pub fn apple_timestamp_to_unix_seconds(value: i64) -> (r: Result<i64, MessagesError>)
    ensures
        value < 0 ==> (r matches Err(e) && is_invalid_input(
            e,
            "message_timestamp"@,
            "must be non-negative"@,
        )),
        value >= 0 ==> (r matches Ok(v) && v == apple_to_unix_seconds(value as int)),
{
    if value < 0 {
        return Err(invalid_timestamp("must be non-negative"));
    }
    if value >= MIN_NANOSECONDS_SINCE_2001 {
        return Ok(value / NANOSECONDS_PER_SECOND + APPLE_EPOCH_UNIX_SECONDS);
    }
    Ok(value + APPLE_EPOCH_UNIX_SECONDS)
}

#[derive(Debug, Clone, Copy, PartialEq, Eq, Structural)]
pub struct AppleDateUnits {
    pub seconds: i64,
    pub nanoseconds: i64,
}

/// Converts Unix seconds to Apple reference-date seconds and nanoseconds;
/// a value whose result does not fit an `i64` is refused.
pub fn unix_seconds_to_apple_date_units(value: i64) -> (r: Result<AppleDateUnits, MessagesError>)
    ensures
        value - APPLE_EPOCH_UNIX_SECONDS < i64::MIN ==> (r matches Err(e) && is_invalid_input(
            e,
            "message_timestamp"@,
            "unix timestamp is out of range"@,
        )),
        i64::MIN <= value - APPLE_EPOCH_UNIX_SECONDS && !(i64::MIN <= (value
            - APPLE_EPOCH_UNIX_SECONDS) * NANOSECONDS_PER_SECOND <= i64::MAX) ==> (r matches Err(e)
            && is_invalid_input(e, "message_timestamp"@, "nanosecond timestamp is out of range"@)),
        i64::MIN <= value - APPLE_EPOCH_UNIX_SECONDS && i64::MIN <= (value
            - APPLE_EPOCH_UNIX_SECONDS) * NANOSECONDS_PER_SECOND <= i64::MAX ==> r == Ok::<
            AppleDateUnits,
            MessagesError,
        >(
            AppleDateUnits {
                seconds: (value - APPLE_EPOCH_UNIX_SECONDS) as i64,
                nanoseconds: ((value - APPLE_EPOCH_UNIX_SECONDS) * NANOSECONDS_PER_SECOND) as i64,
            },
        ),
{
    let seconds = match value.checked_sub(APPLE_EPOCH_UNIX_SECONDS) {
        Some(s) => s,
        None => {
            return Err(invalid_timestamp("unix timestamp is out of range"));
        },
    };
    let nanoseconds = match seconds.checked_mul(NANOSECONDS_PER_SECOND) {
        Some(n) => n,
        None => {
            return Err(invalid_timestamp("nanosecond timestamp is out of range"));
        },
    };
    Ok(AppleDateUnits { seconds, nanoseconds })
}

// ---------------------------------------------------------------------------
// Queries
// ---------------------------------------------------------------------------

/// The discovery query, before its row limit.
pub const DISCOVERY_SQL_HEAD: &'static str = "\nWITH ordered_participants AS (\n  SELECT DISTINCT chj.chat_id, h.id AS handle_value, hex(h.id) AS handle_hex\n  FROM chat_handle_join chj\n  JOIN handle h ON h.ROWID = chj.handle_id\n  ORDER BY chj.chat_id, h.id\n),\nparticipants AS (\n  SELECT\n    chat_id,\n    COUNT(*) AS participant_count,\n    group_concat(handle_hex, ',') AS participant_handles\n  FROM ordered_participants\n  GROUP BY chat_id\n),\nchat_meta AS (\n  SELECT c.ROWID AS chat_rowid, c.guid, COALESCE(c.display_name, '') AS display_label, MAX(m.date) AS latest_date\n  FROM chat c\n  JOIN chat_message_join cmj ON cmj.chat_id = c.ROWID\n  JOIN message m ON m.ROWID = cmj.message_id\n  GROUP BY c.ROWID, c.guid, c.display_name\n)\nSELECT cm.guid, hex(cm.display_label), cm.latest_date, p.participant_count, p.participant_handles\nFROM chat_meta cm\nJOIN participants p ON p.chat_id = cm.chat_rowid\nORDER BY cm.latest_date DESC, cm.guid ASC\nLIMIT ";

/// The discovery query, after its row limit.
pub const DISCOVERY_SQL_TAIL: &'static str = ";\n";

/// The recent-messages query, before the selected chats.
pub const READ_RECENT_SQL_HEAD: &'static str = "\nWITH selected(guid) AS (VALUES ";

/// The recent-messages query, between the selected chats and its limit.
pub const READ_RECENT_SQL_MIDDLE: &'static str = "),\nordered_participants AS (\n  SELECT DISTINCT chj.chat_id, h.id AS handle_value, hex(h.id) AS handle_hex\n  FROM chat_handle_join chj\n  JOIN handle h ON h.ROWID = chj.handle_id\n  ORDER BY chj.chat_id, h.id\n),\nparticipants AS (\n  SELECT\n    chat_id,\n    COUNT(*) AS participant_count,\n    group_concat(handle_hex, ',') AS participant_handles\n  FROM ordered_participants\n  GROUP BY chat_id\n),\nselected_messages AS (\n  SELECT\n    c.guid AS chat_guid,\n    p.participant_count,\n    p.participant_handles,\n    m.guid AS message_guid,\n    m.date AS message_date,\n    hex(COALESCE(m.text, '')) AS text_hex,\n    hex(COALESCE(m.attributedBody, X'')) AS attributed_body_hex,\n    ROW_NUMBER() OVER (PARTITION BY c.ROWID ORDER BY m.date DESC, m.ROWID DESC) AS row_number\n  FROM selected s\n  JOIN chat c ON c.guid = s.guid\n  JOIN participants p ON p.chat_id = c.ROWID\n  JOIN chat_message_join cmj ON cmj.chat_id = c.ROWID\n  JOIN message m ON m.ROWID = cmj.message_id\n)\nSELECT chat_guid, participant_count, participant_handles, message_guid, message_date, text_hex, attributed_body_hex\nFROM selected_messages\nWHERE row_number <= ";

/// The recent-messages query, after its limit.
pub const READ_RECENT_SQL_TAIL: &'static str = "\nORDER BY chat_guid ASC, message_date ASC, message_guid ASC;\n";

/// The latest-preview query, before the selected chats.
pub const LATEST_PREVIEWS_SQL_HEAD: &'static str = "\nWITH selected(guid) AS (VALUES ";

/// The latest-preview query, after the selected chats.
pub const LATEST_PREVIEWS_SQL_TAIL: &'static str = "),\nselected_messages AS (\n  SELECT\n    c.guid AS chat_guid,\n    hex(COALESCE(m.text, '')) AS text_hex,\n    hex(COALESCE(m.attributedBody, X'')) AS attributed_body_hex,\n    ROW_NUMBER() OVER (PARTITION BY c.ROWID ORDER BY m.date DESC, m.ROWID DESC) AS row_number\n  FROM selected s\n  JOIN chat c ON c.guid = s.guid\n  JOIN chat_message_join cmj ON cmj.chat_id = c.ROWID\n  JOIN message m ON m.ROWID = cmj.message_id\n)\nSELECT chat_guid, text_hex, attributed_body_hex\nFROM selected_messages\nWHERE row_number = 1\nORDER BY chat_guid ASC;\n";


/// The query that lists every chat guid.
pub const ALL_CHAT_GUIDS_SQL: &'static str = "SELECT guid FROM chat ORDER BY guid ASC;";

/// The character that separates the columns sqlite3 prints.
pub const FIELD_SEPARATOR: char = '\u{1f}';

/// `s` with every `'` doubled, as SQL string literals need.
pub open spec fn sql_escaped(s: Seq<char>) -> Seq<char>
    decreases s.len(),
{
    if s.len() == 0 {
        Seq::empty()
    } else if s.last() == '\'' {
        sql_escaped(s.drop_last()) + seq!['\'', '\'']
    } else {
        sql_escaped(s.drop_last()).push(s.last())
    }
}

/// A SQL string literal holding `s`.
pub open spec fn sql_literal(s: Seq<char>) -> Seq<char> {
    seq!['\''] + sql_escaped(s) + seq!['\'']
}

/// `s` holds a character that cannot be passed in a query: the column
/// separator or NUL.
pub open spec fn has_reserved_char(s: Seq<char>) -> bool {
    s.contains(FIELD_SEPARATOR) || s.contains('\0')
}

/// `e` is the refusal of a chat guid with a reserved character.
pub open spec fn is_reserved_guid_error(e: MessagesError) -> bool {
    is_invalid_input(e, "chat_guid"@, "contains a reserved control character"@)
}

/// Quotes `value` as a SQL string literal.
pub fn sql_text(value: &str) -> (r: Result<String, MessagesError>)
    ensures
        has_reserved_char(value@) ==> (r matches Err(e) && is_reserved_guid_error(e)),
        !has_reserved_char(value@) ==> (r matches Ok(q) && q@ == sql_literal(value@)),
{
    let chars = chars_of(value);
    let mut quoted: Vec<char> = Vec::new();
    quoted.push('\'');
    let n = chars.len();
    assert(chars@.take(0) =~= Seq::<char>::empty());
    for i in 0..n
        invariant
            n == chars@.len(),
            chars@ == value@,
            quoted@ == seq!['\''] + sql_escaped(chars@.take(i as int)),
            forall|k: int| 0 <= k < i ==> chars@[k] != FIELD_SEPARATOR && chars@[k] != '\0',
    {
        let c = chars[i];
        if c == FIELD_SEPARATOR || c == '\0' {
            return Err(
                MessagesError::InvalidInput {
                    field: "chat_guid",
                    reason: owned("contains a reserved control character"),
                },
            );
        }
        assert(chars@.take(i + 1).drop_last() == chars@.take(i as int));
        if c == '\'' {
            quoted.push('\'');
            quoted.push('\'');
        } else {
            quoted.push(c);
        }
    }
    assert(chars@.take(n as int) == chars@);
    quoted.push('\'');
    Ok(string_from_chars(&quoted))
}

/// The `VALUES` list of the selected chats: each guid quoted in brackets,
/// separated by commas.
pub open spec fn selected_values(guids: Seq<Seq<char>>) -> Seq<char>
    decreases guids.len(),
{
    if guids.len() == 0 {
        Seq::empty()
    } else if guids.len() == 1 {
        seq!['('] + sql_literal(guids[0]) + seq![')']
    } else {
        selected_values(guids.drop_last()) + seq![','] + seq!['('] + sql_literal(guids.last())
            + seq![')']
    }
}

/// Some guid of the list holds a reserved character.
pub open spec fn any_reserved(guids: Seq<Seq<char>>) -> bool {
    exists|i: int| 0 <= i < guids.len() && has_reserved_char(#[trigger] guids[i])
}

fn selected_values_text(chat_guids: &Vec<String>) -> (r: Result<String, MessagesError>)
    ensures
        any_reserved(chat_guids.deep_view()) ==> (r matches Err(e) && is_reserved_guid_error(e)),
        !any_reserved(chat_guids.deep_view()) ==> (r matches Ok(t) && t@ == selected_values(
            chat_guids.deep_view(),
        )),
{
    let ghost g = chat_guids.deep_view();
    let mut out = String::new();
    let n = chat_guids.len();
    for i in 0..n
        invariant
            n == g.len(),
            g == chat_guids.deep_view(),
            out@ == selected_values(g.take(i as int)),
            forall|k: int| 0 <= k < i ==> !has_reserved_char(#[trigger] g[k]),
    {
        assert(g[i as int] == chat_guids@[i as int]@);
        let quoted = match sql_text(chat_guids[i].as_str()) {
            Ok(q) => q,
            Err(e) => {
                return Err(e);
            },
        };
        assert(g.take(i + 1).drop_last() == g.take(i as int));
        if i > 0 {
            out.append(",");
        }
        out.append("(");
        out.append(quoted.as_str());
        out.append(")");
        proof {
            reveal_strlit(",");
            reveal_strlit("(");
            reveal_strlit(")");
            assert(out@ == selected_values(g.take(i + 1)));
        }
    }
    assert(g.take(n as int) == g);
    Ok(out)
}

/// The query that lists the most recent chats, at most `limit` of them.
pub fn discovery_sql(limit: u16) -> (r: String)
    ensures
        r@ == DISCOVERY_SQL_HEAD@ + decimal(limit as nat) + DISCOVERY_SQL_TAIL@,
{
    let mut sql = owned(DISCOVERY_SQL_HEAD);
    sql.append(decimal_string(limit as u64).as_str());
    sql.append(DISCOVERY_SQL_TAIL);
    sql
}

/// The query that reads the latest `limit` messages of each selected chat.
pub fn read_recent_sql(chat_guids: &Vec<String>, limit: u16) -> (r: Result<String, MessagesError>)
    ensures
        any_reserved(chat_guids.deep_view()) ==> (r matches Err(e) && is_reserved_guid_error(e)),
        !any_reserved(chat_guids.deep_view()) ==> (r matches Ok(q) && q@ == READ_RECENT_SQL_HEAD@
            + selected_values(chat_guids.deep_view()) + READ_RECENT_SQL_MIDDLE@ + decimal(
            limit as nat,
        ) + READ_RECENT_SQL_TAIL@),
{
    let values = selected_values_text(chat_guids)?;
    let mut sql = owned(READ_RECENT_SQL_HEAD);
    sql.append(values.as_str());
    sql.append(READ_RECENT_SQL_MIDDLE);
    sql.append(decimal_string(limit as u64).as_str());
    sql.append(READ_RECENT_SQL_TAIL);
    Ok(sql)
}

/// The query that reads the latest message of each selected chat.
pub fn latest_previews_sql(chat_guids: &Vec<String>) -> (r: Result<String, MessagesError>)
    ensures
        any_reserved(chat_guids.deep_view()) ==> (r matches Err(e) && is_reserved_guid_error(e)),
        !any_reserved(chat_guids.deep_view()) ==> (r matches Ok(q) && q@
            == LATEST_PREVIEWS_SQL_HEAD@ + selected_values(chat_guids.deep_view())
            + LATEST_PREVIEWS_SQL_TAIL@),
{
    let values = selected_values_text(chat_guids)?;
    let mut sql = owned(LATEST_PREVIEWS_SQL_HEAD);
    sql.append(values.as_str());
    sql.append(LATEST_PREVIEWS_SQL_TAIL);
    Ok(sql)
}

/// The query that lists every chat guid.
pub fn all_chat_guids_sql() -> (r: &'static str)
    ensures
        r == ALL_CHAT_GUIDS_SQL,
{
    ALL_CHAT_GUIDS_SQL
}

// ---------------------------------------------------------------------------
// What sqlite3 prints
// ---------------------------------------------------------------------------

/// The pieces of `s` between occurrences of `sep` (empty pieces
/// included), as `str::split` yields them.
pub open spec fn split_on(s: Seq<char>, sep: char) -> Seq<Seq<char>>
    decreases s.len(),
{
    if s.len() == 0 {
        seq![Seq::empty()]
    } else {
        let prev = split_on(s.drop_last(), sep);
        if s.last() == sep {
            prev.push(Seq::empty())
        } else {
            prev.update(prev.len() - 1, prev.last().push(s.last()))
        }
    }
}

/// The rows printed from `start` on: each non-empty line (as `str::lines`
/// yields lines), split into its columns.
pub open spec fn output_rows(s: Seq<char>, start: int) -> Seq<Seq<Seq<char>>>
    decreases s.len() - start,
{
    if start < 0 || start >= s.len() {
        Seq::empty()
    } else {
        let line = line_at(s, start);
        let rest = if line_end(s, start) >= s.len() {
            Seq::<Seq<Seq<char>>>::empty()
        } else {
            proof {
                lemma_line_end_bounds(s, start);
            }
            output_rows(s, line_end(s, start) + 1)
        };
        if line.len() == 0 {
            rest
        } else {
            seq![split_on(line, FIELD_SEPARATOR)] + rest
        }
    }
}

fn split_chars(line: &Vec<char>, sep: char) -> (r: Vec<String>)
    ensures
        r.deep_view() == split_on(line@, sep),
{
    let mut done: Vec<String> = Vec::new();
    let mut cur: Vec<char> = Vec::new();
    let n = line.len();
    assert(line@.take(0) =~= Seq::<char>::empty());
    assert(done.deep_view().push(cur@) =~= split_on(line@.take(0), sep));
    for i in 0..n
        invariant
            n == line@.len(),
            done.deep_view().push(cur@) == split_on(line@.take(i as int), sep),
    {
        let c = line[i];
        let ghost t = line@.take(i + 1);
        assert(t.drop_last() == line@.take(i as int));
        let ghost before = done.deep_view();
        if c == sep {
            let field = string_from_chars(&cur);
            done.push(field);
            cur = Vec::new();
            assert(done.deep_view() =~= before.push(field@));
            assert(done.deep_view().push(cur@) =~= split_on(t, sep));
        } else {
            cur.push(c);
            assert(done.deep_view().push(cur@) =~= split_on(t, sep));
        }
    }
    assert(line@.take(n as int) == line@);
    let ghost before = done.deep_view();
    let last = string_from_chars(&cur);
    done.push(last);
    assert(done.deep_view() =~= before.push(last@));
    done
}

/// The rows sqlite3 printed: its non-empty lines split at the column
/// separator.
pub fn sqlite_rows(stdout: &str) -> (r: Vec<Vec<String>>)
    ensures
        r.deep_view() == output_rows(stdout@, 0),
{
    let s = chars_of(stdout);
    let n = s.len();
    let mut rows: Vec<Vec<String>> = Vec::new();
    let mut start: usize = 0;
    assert(rows.deep_view() + output_rows(s@, 0) =~= output_rows(s@, 0));
    while start < n
        invariant
            n == s@.len(),
            s@ == stdout@,
            start <= n,
            rows.deep_view() + output_rows(s@, start as int) == output_rows(s@, 0),
        decreases n - start,
    {
        let (line, e) = next_line(&s, start);
        proof {
            lemma_line_end_bounds(s@, start as int);
        }
        let ghost before = rows.deep_view();
        if line.len() > 0 {
            let fields = split_chars(&line, FIELD_SEPARATOR);
            rows.push(fields);
            assert(rows.deep_view() =~= before.push(fields.deep_view()));
        }
        if e >= n {
            assert(rows.deep_view() + output_rows(s@, n as int) =~= before + output_rows(
                s@,
                start as int,
            ));
            start = n;
        } else {
            assert(rows.deep_view() + output_rows(s@, e + 1) =~= before + output_rows(
                s@,
                start as int,
            ));
            start = e + 1;
        }
    }
    assert(rows.deep_view() + output_rows(s@, start as int) =~= rows.deep_view());
    rows
}

/// The stderr of sqlite3 tells that macOS refused access to the database.
pub open spec fn stderr_denies_permission(stderr: Seq<char>) -> bool {
    let lower = ascii_lower(stderr);
    contains_text(lower, "permission denied"@) || contains_text(lower, "operation not permitted"@)
        || contains_text(lower, "authorization denied"@) || contains_text(
        lower,
        "not authorized"@,
    )
}

/// The error a failed sqlite3 run reports: a refused permission when its
/// stderr says so (in any case), else the database is unavailable.
pub fn sqlite_error_from_stderr(stderr: &str) -> (r: MessagesError)
    ensures
        stderr_denies_permission(stderr@) ==> r is PermissionDenied,
        !stderr_denies_permission(stderr@) ==> is_unavailable(
            r,
            "sqlite3 could not read the Messages database"@,
        ),
{
    let lower = to_ascii_lower(&chars_of(stderr));
    if crate::text::contains_chars(&lower, &chars_of("permission denied"))
        || crate::text::contains_chars(&lower, &chars_of("operation not permitted"))
        || crate::text::contains_chars(&lower, &chars_of("authorization denied"))
        || crate::text::contains_chars(&lower, &chars_of("not authorized")) {
        MessagesError::PermissionDenied
    } else {
        unavailable(owned("sqlite3 could not read the Messages database"))
    }
}

/// The arguments that keep sqlite3 read-only and set its output format.
pub const SQLITE_ARGS: [&'static str; 5] = ["-batch", "-noheader", "-readonly", "-separator", "\u{1f}"];

/// The pragmas sent before every query.
pub const STARTUP_SQL: &'static str = "PRAGMA query_only = ON;\nPRAGMA trusted_schema = OFF;\n";

#[derive(Debug, Clone, Copy)]
pub struct SqliteReadProtections {
    pub sqlite3_args: [&'static str; 5],
    pub startup_sql: &'static str,
}

/// How one run of sqlite3 ended.
#[derive(Debug)]
pub struct SqliteOutput {
    pub success: bool,
    pub stdout: String,
    pub stderr: String,
}

/// The rows read from how sqlite3 ended: the printed rows when it
/// succeeded, else the error its stderr tells.
pub open spec fn output_rows_outcome(
    output: SqliteOutput,
    r: Result<Vec<Vec<String>>, MessagesError>,
) -> bool {
    if output.success {
        r matches Ok(rows) && rows.deep_view() == output_rows(output.stdout@, 0)
    } else {
        r matches Err(e) && (stderr_denies_permission(output.stderr@) ==> e is PermissionDenied) && (
        !stderr_denies_permission(output.stderr@) ==> is_unavailable(
            e,
            "sqlite3 could not read the Messages database"@,
        ))
    }
}

#[derive(Debug)]
pub struct Sqlite {
    db_path: String,
}

impl Sqlite {
    pub closed spec fn spec_db_path(&self) -> Seq<char> {
        self.db_path@
    }

    pub fn new(db_path: String) -> (r: Self)
        ensures
            r.spec_db_path() == db_path@,
    {
        Sqlite { db_path }
    }

    pub fn protections() -> (r: SqliteReadProtections)
        ensures
            r.sqlite3_args == SQLITE_ARGS,
            r.startup_sql == STARTUP_SQL,
    {
        SqliteReadProtections { sqlite3_args: SQLITE_ARGS, startup_sql: STARTUP_SQL }
    }

    /// The command-line arguments of sqlite3: the read protections, then
    /// the database path.
    pub fn args(&self) -> (r: Vec<String>)
        ensures
            r@.len() == SQLITE_ARGS.len() + 1,
            forall|i: int| 0 <= i < SQLITE_ARGS.len() ==> r@[i]@ == SQLITE_ARGS[i]@,
            r@[SQLITE_ARGS.len() as int]@ == self.spec_db_path(),
    {
        let mut args: Vec<String> = Vec::new();
        for i in 0..5
            invariant
                args@.len() == i,
                forall|k: int| 0 <= k < i ==> args@[k]@ == SQLITE_ARGS[k]@,
        {
            args.push(owned(SQLITE_ARGS[i]));
        }
        args.push(self.db_path.clone());
        args
    }

    /// The script sqlite3 reads on stdin: the startup pragmas, then the
    /// query.
    pub fn stdin_script(sql: &str) -> (r: String)
        ensures
            r@ == STARTUP_SQL@ + sql@,
    {
        concat2(STARTUP_SQL, sql)
    }

    /// The rows of a query from how sqlite3 ended: the printed rows when it
    /// succeeded, else the error its stderr tells.
    pub fn query_rows(&self, output: &SqliteOutput) -> (r: Result<Vec<Vec<String>>, MessagesError>)
        ensures
            output_rows_outcome(*output, r),
    {
        if !output.success {
            return Err(sqlite_error_from_stderr(output.stderr.as_str()));
        }
        Ok(sqlite_rows(output.stdout.as_str()))
    }
}

/// How many queries a thread sent, and how many of them listed every chat.
#[derive(Debug, Clone, Copy, PartialEq, Eq, Structural)]
pub struct SqliteQueryAudit {
    pub total_query_count: usize,
    pub all_chat_guids_sql_count: usize,
}

impl Default for SqliteQueryAudit {
    fn default() -> (r: Self)
        ensures
            r.total_query_count == 0,
            r.all_chat_guids_sql_count == 0,
    {
        SqliteQueryAudit { total_query_count: 0, all_chat_guids_sql_count: 0 }
    }
}

impl SqliteQueryAudit {
    /// Counts one query; it is a chat listing when, trimmed, it is exactly
    /// the all-chat-guids query.
    pub fn record(&mut self, sql: &str)
        requires
            old(self).total_query_count < usize::MAX,
            old(self).all_chat_guids_sql_count < usize::MAX,
        ensures
            final(self).total_query_count == old(self).total_query_count + 1,
            final(self).all_chat_guids_sql_count == old(self).all_chat_guids_sql_count + (if trim_text(
                sql@,
            ) == ALL_CHAT_GUIDS_SQL@ {
                1int
            } else {
                0int
            }),
    {
        self.total_query_count = self.total_query_count + 1;
        let trimmed = trim_chars(&chars_of(sql));
        let listing = chars_of(ALL_CHAT_GUIDS_SQL);
        let mut same = trimmed.len() == listing.len();
        let mut i: usize = 0;
        while same && i < trimmed.len()
            invariant
                same ==> trimmed@.len() == listing@.len(),
                i <= trimmed@.len(),
                same ==> trimmed@.take(i as int) == listing@.take(i as int),
                !same ==> trimmed@ != listing@,
            decreases trimmed@.len() - i,
        {
            if trimmed[i] != listing[i] {
                same = false;
            } else {
                assert(trimmed@.take(i + 1) == trimmed@.take(i as int).push(trimmed@[i as int]));
                assert(listing@.take(i + 1) == listing@.take(i as int).push(listing@[i as int]));
            }
            i = i + 1;
        }
        proof {
            if same {
                assert(trimmed@ =~= trimmed@.take(i as int));
                assert(listing@ =~= listing@.take(i as int));
            }
        }
        if same {
            self.all_chat_guids_sql_count = self.all_chat_guids_sql_count + 1;
        }
    }
}

// ---------------------------------------------------------------------------
// The adapter
// ---------------------------------------------------------------------------

pub const DEFAULT_DISCOVERY_CHAT_LIMIT: u16 = 50;

pub const DEFAULT_READ_MESSAGE_LIMIT: u16 = 100;

#[derive(Debug, Clone, Copy, PartialEq, Eq, Structural)]
pub struct MessagesSqliteLimits {
    pub discovery_chat_limit: u16,
    pub read_message_limit: u16,
}

impl Default for MessagesSqliteLimits {
    fn default() -> (r: Self)
        ensures
            r.discovery_chat_limit == DEFAULT_DISCOVERY_CHAT_LIMIT,
            r.read_message_limit == DEFAULT_READ_MESSAGE_LIMIT,
    {
        MessagesSqliteLimits {
            discovery_chat_limit: DEFAULT_DISCOVERY_CHAT_LIMIT,
            read_message_limit: DEFAULT_READ_MESSAGE_LIMIT,
        }
    }
}

#[derive(Debug, Clone, Copy, PartialEq, Eq, Structural)]
pub enum MessagesSqliteRunner {
    Cli,
    PermissionDeniedStderr,
}

/// Runs one query through `sqlite3` (a child process in the app).
pub trait SqliteProcess {
    fn run(&self, sqlite: &Sqlite, sql: &str) -> Result<SqliteOutput, MessagesError>;
}

#[derive(Debug)]
pub struct MessagesSqliteAdapter {
    db_path: String,
    limits: MessagesSqliteLimits,
    runner: MessagesSqliteRunner,
}

impl MessagesSqliteAdapter {
    pub closed spec fn spec_db_path(&self) -> Seq<char> {
        self.db_path@
    }

    pub closed spec fn spec_limits(&self) -> MessagesSqliteLimits {
        self.limits
    }

    pub closed spec fn spec_runner(&self) -> MessagesSqliteRunner {
        self.runner
    }

    pub fn new(db_path: String) -> (r: Self)
        ensures
            r.spec_db_path() == db_path@,
            r.spec_limits().discovery_chat_limit == DEFAULT_DISCOVERY_CHAT_LIMIT,
            r.spec_limits().read_message_limit == DEFAULT_READ_MESSAGE_LIMIT,
            r.spec_runner() == MessagesSqliteRunner::Cli,
    {
        MessagesSqliteAdapter {
            db_path,
            limits: MessagesSqliteLimits::default(),
            runner: MessagesSqliteRunner::Cli,
        }
    }

    /// An adapter whose every query fails as a refused Full Disk Access
    /// permission would.
    pub fn permission_denied_for_test(db_path: String) -> (r: Self)
        ensures
            r.spec_db_path() == db_path@,
            r.spec_limits().discovery_chat_limit == DEFAULT_DISCOVERY_CHAT_LIMIT,
            r.spec_limits().read_message_limit == DEFAULT_READ_MESSAGE_LIMIT,
            r.spec_runner() == MessagesSqliteRunner::PermissionDeniedStderr,
    {
        MessagesSqliteAdapter {
            db_path,
            limits: MessagesSqliteLimits::default(),
            runner: MessagesSqliteRunner::PermissionDeniedStderr,
        }
    }

    pub fn with_limits(self, limits: MessagesSqliteLimits) -> (r: Self)
        ensures
            r.spec_db_path() == self.spec_db_path(),
            r.spec_limits() == limits,
            r.spec_runner() == self.spec_runner(),
    {
        MessagesSqliteAdapter { db_path: self.db_path, limits, runner: self.runner }
    }

    pub fn limits(&self) -> (r: MessagesSqliteLimits)
        ensures
            r == self.spec_limits(),
    {
        self.limits
    }

    pub fn sqlite_read_protections() -> (r: SqliteReadProtections)
        ensures
            r.sqlite3_args == SQLITE_ARGS,
            r.startup_sql == STARTUP_SQL,
    {
        Sqlite::protections()
    }

    pub fn sqlite(&self) -> (r: Sqlite)
        ensures
            r.spec_db_path() == self.spec_db_path(),
    {
        Sqlite::new(self.db_path.clone())
    }

    /// Whether a query needs a run of sqlite3 (the test adapter answers
    /// without one).
    pub fn runs_sqlite(&self) -> (r: bool)
        ensures
            r == (self.spec_runner() == MessagesSqliteRunner::Cli),
    {
        self.runner == MessagesSqliteRunner::Cli
    }

    /// The rows of a query: from the sqlite3 run for the command-line
    /// adapter, and a refused permission for the test adapter.
    pub fn query_rows(&self, output: &SqliteOutput) -> (r: Result<Vec<Vec<String>>, MessagesError>)
        ensures
            self.spec_runner() == MessagesSqliteRunner::PermissionDeniedStderr ==> (r matches Err(
                e,
            ) && e is PermissionDenied),
            self.spec_runner() == MessagesSqliteRunner::Cli ==> output_rows_outcome(*output, r),
    {
        match self.runner {
            MessagesSqliteRunner::Cli => self.sqlite().query_rows(output),
            MessagesSqliteRunner::PermissionDeniedStderr => {
                let e = sqlite_error_from_stderr("Error: permission denied");
                proof {
                    reveal_strlit("Error: permission denied");
                    reveal_strlit("permission denied");
                    let lower = ascii_lower("Error: permission denied"@);
                    assert(lower.subrange(7, 24) =~= "permission denied"@);
                    assert(crate::text::occurs_at(lower, "permission denied"@, 7));
                }
                Err(e)
            },
        }
    }

    /// The query that lists the most recent chats.
    pub fn discovery_query(&self) -> (r: String)
        ensures
            r@ == DISCOVERY_SQL_HEAD@ + decimal(self.spec_limits().discovery_chat_limit as nat)
                + DISCOVERY_SQL_TAIL@,
    {
        discovery_sql(self.limits.discovery_chat_limit)
    }

    /// The query that reads the selected chats, or none when no chat is
    /// selected (the batch is then empty).
    pub fn read_recent_query(&self, chat_guids: &Vec<String>) -> (r: Result<
        Option<String>,
        MessagesError,
    >)
        ensures
            chat_guids@.len() == 0 ==> r matches Ok(None),
            chat_guids@.len() > 0 && any_reserved(chat_guids.deep_view()) ==> (r matches Err(e)
                && is_reserved_guid_error(e)),
            chat_guids@.len() > 0 && !any_reserved(chat_guids.deep_view()) ==> (r matches Ok(
                Some(q),
            ) && q@ == READ_RECENT_SQL_HEAD@ + selected_values(chat_guids.deep_view())
                + READ_RECENT_SQL_MIDDLE@ + decimal(self.spec_limits().read_message_limit as nat)
                + READ_RECENT_SQL_TAIL@),
    {
        if chat_guids.len() == 0 {
            return Ok(None);
        }
        let sql = read_recent_sql(chat_guids, self.limits.read_message_limit)?;
        Ok(Some(sql))
    }

    /// The rows of a query: the test adapter refuses every query as a
    /// denied permission; the command-line adapter runs sqlite3 through
    /// `process` and reads its output, passing on a failed run.
    pub fn query<P: SqliteProcess>(&self, sql: &str, process: &P) -> (r: Result<
        Vec<Vec<String>>,
        MessagesError,
    >)
        ensures
            self.spec_runner() == MessagesSqliteRunner::PermissionDeniedStderr ==> (r matches Err(
                e,
            ) && e is PermissionDenied),
            self.spec_runner() == MessagesSqliteRunner::Cli ==> sqlite_answered(
                process,
                self.spec_db_path(),
                sql@,
                r,
            ),
    {
        if !self.runs_sqlite() {
            let empty = SqliteOutput { success: false, stdout: String::new(), stderr: String::new() };
            return self.query_rows(&empty);
        }
        let sqlite = self.sqlite();
        let answer = process.run(&sqlite, sql);
        let ghost seen = answer;
        assert(call_ensures(P::run, (process, &sqlite, sql), seen));
        let r = match answer {
            Ok(output) => self.query_rows(&output),
            Err(e) => Err(e),
        };
        assert(sqlite_answered(process, self.spec_db_path(), sql@, r));
        r
    }
}

/// `process` was asked to run `sql` with sqlite3 on the database at
/// `db_path`, and `r` is what its answer gives: its error passed on, or the
/// rows read from how sqlite3 ended.
pub open spec fn sqlite_answered<P: SqliteProcess>(
    process: &P,
    db_path: Seq<char>,
    sql: Seq<char>,
    r: Result<Vec<Vec<String>>, MessagesError>,
) -> bool {
    exists|sqlite: Sqlite, text: &str, answer: Result<SqliteOutput, MessagesError>|
        sqlite.spec_db_path() == db_path && text@ == sql && #[trigger] call_ensures(
            P::run,
            (process, &sqlite, text),
            answer,
        ) && match answer {
            Ok(output) => output_rows_outcome(output, r),
            Err(e) => r == Err::<Vec<Vec<String>>, MessagesError>(e),
        }
}

/// The read-recent query for the selected chats.
pub open spec fn read_recent_sql_text(chat_guids: Seq<Seq<char>>, limit: u16) -> Seq<char> {
    READ_RECENT_SQL_HEAD@ + selected_values(chat_guids) + READ_RECENT_SQL_MIDDLE@ + decimal(
        limit as nat,
    ) + READ_RECENT_SQL_TAIL@
}

/// The batch read from result rows: an error exactly when a row fails to
/// read, else the chats of the kept rows in guid order.
pub open spec fn batch_outcome(
    rows: Seq<Seq<Seq<char>>>,
    since: i64,
    until: i64,
    r: Result<NativeBatch, MessagesError>,
) -> bool {
    &&& r is Err <==> any_row_fails(rows, since, until)
    &&& r matches Ok(b) ==> lists_chats(chat_views(b.chats@), chats_by_guid(rows, since, until))
}

/// The read of a request: no chat selected gives an empty batch; a chat
/// guid that cannot be quoted is refused; otherwise the batch lists the
/// chats of the rows that sqlite3 returned.
pub open spec fn read_recent_outcome(
    request: NativeReadRequest,
    r: Result<NativeBatch, MessagesError>,
) -> bool {
    if request.chat_guids@.len() == 0 {
        r matches Ok(b) && b.chats@.len() == 0
    } else if any_reserved(request.chat_guids.deep_view()) {
        r matches Err(e) && is_reserved_guid_error(e)
    } else {
        r matches Ok(b) ==> exists|rows: Seq<Seq<Seq<char>>>|
            !any_row_fails(rows, request.since, request.until) && lists_chats(
                chat_views(b.chats@),
                chats_by_guid(rows, request.since, request.until),
            )
    }
}

// ---------------------------------------------------------------------------
// Recent messages
// ---------------------------------------------------------------------------

#[derive(Debug)]
pub struct NativeReadRequest {
    pub chat_guids: Vec<String>,
    pub since: i64,
    pub until: i64,
}

#[derive(Debug)]
pub struct RawMessage {
    pub chat_guid: String,
    pub message_guid: String,
    pub timestamp: i64,
    pub text: String,
}

pub struct RawMessageView {
    pub chat_guid: Seq<char>,
    pub message_guid: Seq<char>,
    pub timestamp: i64,
    pub text: Seq<char>,
}

impl View for RawMessage {
    type V = RawMessageView;

    open spec fn view(&self) -> RawMessageView {
        RawMessageView {
            chat_guid: self.chat_guid@,
            message_guid: self.message_guid@,
            timestamp: self.timestamp,
            text: self.text@,
        }
    }
}

/// A chat of a batch; its participants are the handles the database
/// lists for it, decoded from hex.
#[derive(Debug)]
pub struct RawChat {
    pub guid: String,
    pub participant_count: u16,
    pub participant_handles: Vec<String>,
    pub messages: Vec<RawMessage>,
}

pub struct RawChatView {
    pub guid: Seq<char>,
    pub participant_count: u16,
    pub participant_handles: Seq<Seq<char>>,
    pub messages: Seq<RawMessageView>,
}

impl View for RawChat {
    type V = RawChatView;

    open spec fn view(&self) -> RawChatView {
        RawChatView {
            guid: self.guid@,
            participant_count: self.participant_count,
            participant_handles: self.participant_handles.deep_view(),
            messages: self.messages@.map_values(|m: RawMessage| m@),
        }
    }
}

#[derive(Debug)]
pub struct NativeBatch {
    pub chats: Vec<RawChat>,
}

/// The views of a list of chats.
pub open spec fn chat_views(chats: Seq<RawChat>) -> Seq<RawChatView> {
    chats.map_values(|c: RawChat| c@)
}

/// The text a hex column holds.
pub open spec fn hex_column_text(v: Seq<char>) -> Seq<char> {
    vstd::utf8::decode_utf8(hex_decoded(vstd::utf8::encode_utf8(v)))
}

/// The non-empty items of a list.
pub open spec fn nonempty_items(items: Seq<Seq<char>>) -> Seq<Seq<char>>
    decreases items.len(),
{
    if items.len() == 0 {
        Seq::empty()
    } else if items.last().len() > 0 {
        nonempty_items(items.drop_last()).push(items.last())
    } else {
        nonempty_items(items.drop_last())
    }
}

/// The hex-encoded handles of a participant column: its non-empty
/// comma-separated items.
pub open spec fn handle_items(raw: Seq<char>) -> Seq<Seq<char>> {
    nonempty_items(split_on(raw, ','))
}

/// Every item of the list is hex text that decodes.
pub open spec fn all_decode(items: Seq<Seq<char>>) -> bool {
    forall|i: int| 0 <= i < items.len() ==> hex_text_ok(#[trigger] items[i])
}

/// Every handle of a participant column decodes.
pub open spec fn handles_ok(raw: Seq<char>) -> bool {
    all_decode(handle_items(raw))
}

/// The decoded handles of a participant column.
pub open spec fn decoded_handles(raw: Seq<char>) -> Seq<Seq<char>> {
    handle_items(raw).map_values(|x: Seq<char>| hex_column_text(x))
}

/// Decodes the handles of a participant column.
pub fn participant_handles(raw: &str) -> (r: Result<Vec<String>, MessagesError>)
    ensures
        handles_ok(raw@) ==> (r matches Ok(v) && v.deep_view() == decoded_handles(raw@)),
        !handles_ok(raw@) ==> r is Err,
{
    let items = split_chars(&chars_of(raw), ',');
    let ghost all = split_on(raw@, ',');
    let mut out: Vec<String> = Vec::new();
    let n = items.len();
    assert(all.take(0) =~= Seq::<Seq<char>>::empty());
    for i in 0..n
        invariant
            n == all.len(),
            items.deep_view() == all,
            all == split_on(raw@, ','),
            out.deep_view() == nonempty_items(all.take(i as int)).map_values(
                |x: Seq<char>| hex_column_text(x),
            ),
            all_decode(nonempty_items(all.take(i as int))),
    {
        let ghost t = all.take(i + 1);
        let ghost prev = nonempty_items(all.take(i as int));
        assert(t.drop_last() == all.take(i as int));
        assert(t.last() == items@[i as int]@);
        let ghost before = out.deep_view();
        if !items[i].as_str().is_empty() {
            assert(nonempty_items(t) == prev.push(t.last()));
            let text = match hex_text(items[i].as_str()) {
                Ok(t) => t,
                Err(e) => {
                    proof {
                        lemma_nonempty_items_prefix(all, i + 1);
                        assert(all.take(n as int) == all);
                        assert(nonempty_items(t)[prev.len() as int] == t.last());
                        assert(handle_items(raw@)[prev.len() as int] == t.last());
                        assert(!hex_text_ok(t.last()));
                    }
                    return Err(e);
                },
            };
            out.push(text);
            assert(hex_text_ok(t.last()));
            assert(out.deep_view() =~= before.push(text@));
            assert(out.deep_view() =~= nonempty_items(t).map_values(
                |x: Seq<char>| hex_column_text(x),
            ));
            assert forall|j: int| 0 <= j < nonempty_items(t).len() implies hex_text_ok(
                #[trigger] nonempty_items(t)[j],
            ) by {
                if j < prev.len() {
                    assert(nonempty_items(t)[j] == prev[j]);
                    assert(hex_text_ok(prev[j]));
                } else {
                    assert(nonempty_items(t)[j] == t.last());
                }
            }
        } else {
            assert(nonempty_items(t) == prev);
        }
    }
    assert(all.take(n as int) == all);
    Ok(out)
}

/// The non-empty items of a prefix are a prefix of the non-empty items.
proof fn lemma_nonempty_items_prefix(all: Seq<Seq<char>>, k: int)
    requires
        0 <= k <= all.len(),
    ensures
        nonempty_items(all.take(k)).len() <= nonempty_items(all).len(),
        forall|j: int|
            0 <= j < nonempty_items(all.take(k)).len() ==> nonempty_items(all.take(k))[j]
                == nonempty_items(all)[j],
    decreases all.len() - k,
{
    if k < all.len() {
        lemma_nonempty_items_prefix(all, k + 1);
        assert(all.take(k + 1).drop_last() == all.take(k));
    } else {
        assert(all.take(k) == all);
    }
}

/// The integer a numeric column holds.
pub open spec fn column_value(row: Seq<Seq<char>>, i: int) -> int {
    decimal_text_value(row[i])->0
}

/// The Unix time of a result row's message.
pub open spec fn row_time(row: Seq<Seq<char>>) -> int {
    apple_to_unix_seconds(column_value(row, 4))
}

/// A result row cannot be read up to its date: a column is missing, or
/// the date is not a non-negative `i64`.
pub open spec fn row_date_fails(row: Seq<Seq<char>>) -> bool {
    row.len() < 5 || !parses_as_i64(row[4]) || column_value(row, 4) < 0
}

/// The row's message falls inside the requested window.
pub open spec fn in_window(row: Seq<Seq<char>>, since: i64, until: i64) -> bool {
    since <= row_time(row) <= until
}

/// The columns after the date cannot be read: the participant count is
/// not a `u16`, a handle does not decode, or the text is missing or does
/// not decode.
pub open spec fn row_rest_fails(row: Seq<Seq<char>>) -> bool {
    !parses_as_i64(row[1]) || !(0 <= column_value(row, 1) <= u16::MAX) || !handles_ok(row[2])
        || row.len() < 6 || !hex_text_ok(row[5])
}

/// Reading the row fails; a row outside the window is not read past its
/// date.
pub open spec fn row_fails(row: Seq<Seq<char>>, since: i64, until: i64) -> bool {
    row_date_fails(row) || (in_window(row, since, until) && row_rest_fails(row))
}

/// The row is read and its message kept.
pub open spec fn row_kept(row: Seq<Seq<char>>, since: i64, until: i64) -> bool {
    !row_date_fails(row) && in_window(row, since, until) && !row_rest_fails(row)
}

/// The message of a kept row, with `text` as its text.
pub open spec fn row_message_with(row: Seq<Seq<char>>, text: Seq<char>) -> RawMessageView {
    RawMessageView {
        chat_guid: row[0],
        message_guid: row[3],
        timestamp: row_time(row) as i64,
        text,
    }
}

/// The message of a kept row, its text decoded from the text column.
pub open spec fn row_message(row: Seq<Seq<char>>) -> RawMessageView {
    row_message_with(row, hex_column_text(row[5]))
}

/// The chat a kept row opens when its chat was not seen before, the row's
/// message having `text` as its text.
pub open spec fn row_chat_with(row: Seq<Seq<char>>, text: Seq<char>) -> RawChatView {
    RawChatView {
        guid: row[0],
        participant_count: column_value(row, 1) as u16,
        participant_handles: decoded_handles(row[2]),
        messages: seq![row_message_with(row, text)],
    }
}

/// The chat a kept row opens when its chat was not seen before.
pub open spec fn row_chat(row: Seq<Seq<char>>) -> RawChatView {
    row_chat_with(row, hex_column_text(row[5]))
}

/// The chats by guid once a kept row is added with `text` as its
/// message's text: its message joins its chat, or it opens the chat with
/// its participants.
pub open spec fn add_row_with(
    m: Map<Seq<char>, RawChatView>,
    row: Seq<Seq<char>>,
    text: Seq<char>,
) -> Map<Seq<char>, RawChatView> {
    if m.contains_key(row[0]) {
        let c = m[row[0]];
        m.insert(
            row[0],
            RawChatView {
                guid: c.guid,
                participant_count: c.participant_count,
                participant_handles: c.participant_handles,
                messages: c.messages.push(row_message_with(row, text)),
            },
        )
    } else {
        m.insert(row[0], row_chat_with(row, text))
    }
}

/// The chats by guid once a kept row is added, its text decoded from the
/// text column.
pub open spec fn add_row(m: Map<Seq<char>, RawChatView>, row: Seq<Seq<char>>) -> Map<
    Seq<char>,
    RawChatView,
> {
    add_row_with(m, row, hex_column_text(row[5]))
}

/// The chats of the kept rows, by guid: the first kept row of a chat
/// gives its participants, and each kept row adds its message, in row
/// order.
pub open spec fn chats_by_guid(rows: Seq<Seq<Seq<char>>>, since: i64, until: i64) -> Map<
    Seq<char>,
    RawChatView,
>
    decreases rows.len(),
{
    if rows.len() == 0 {
        Map::empty()
    } else {
        let m = chats_by_guid(rows.drop_last(), since, until);
        if !row_kept(rows.last(), since, until) {
            m
        } else {
            add_row(m, rows.last())
        }
    }
}

/// Every kept row's message reaches the chat its row names.
pub proof fn law_kept_row_reaches_its_chat(
    rows: Seq<Seq<Seq<char>>>,
    since: i64,
    until: i64,
    i: int,
)
    requires
        0 <= i < rows.len(),
        row_kept(rows[i], since, until),
    ensures
        chats_by_guid(rows, since, until).contains_key(rows[i][0]),
        chats_by_guid(rows, since, until)[rows[i][0]].messages.contains(row_message(rows[i])),
    decreases rows.len(),
{
    let prev = rows.drop_last();
    let m0 = chats_by_guid(prev, since, until);
    let last = rows.last();
    let msg = row_message(rows[i]);
    if i == rows.len() - 1 {
        if m0.contains_key(last[0]) {
            let pushed = m0[last[0]].messages.push(row_message(last));
            assert(pushed[pushed.len() - 1] == msg);
        } else {
            assert(row_chat(last).messages[0] == msg);
        }
    } else {
        assert(prev[i] == rows[i]);
        law_kept_row_reaches_its_chat(prev, since, until, i);
        let k = rows[i][0];
        let before = m0[k].messages;
        let j = choose|j: int| 0 <= j < before.len() && before[j] == msg;
        if row_kept(last, since, until) && last[0] == k {
            let pushed = before.push(row_message(last));
            assert(pushed[j] == msg);
        }
    }
}

/// Each chat of the batch sits under its own guid and holds only
/// messages of that chat.
pub proof fn law_chats_hold_their_own_messages(rows: Seq<Seq<Seq<char>>>, since: i64, until: i64)
    ensures
        forall|k: Seq<char>|
            #[trigger] chats_by_guid(rows, since, until).contains_key(k) ==> {
                let c = chats_by_guid(rows, since, until)[k];
                &&& c.guid == k
                &&& forall|j: int|
                    0 <= j < c.messages.len() ==> (#[trigger] c.messages[j]).chat_guid == k
            },
    decreases rows.len(),
{
    if rows.len() > 0 {
        let prev = rows.drop_last();
        law_chats_hold_their_own_messages(prev, since, until);
        let m0 = chats_by_guid(prev, since, until);
        let last = rows.last();
        if row_kept(last, since, until) {
            let m = chats_by_guid(rows, since, until);
            assert forall|k: Seq<char>| #[trigger] m.contains_key(k) implies m[k].guid == k
                && forall|j: int|
                0 <= j < m[k].messages.len() ==> (#[trigger] m[k].messages[j]).chat_guid == k by {
                if k == last[0] {
                    if m0.contains_key(k) {
                        let before = m0[k].messages;
                        assert forall|j: int| 0 <= j < m[k].messages.len() implies (
                        #[trigger] m[k].messages[j]).chat_guid == k by {
                            if j < before.len() {
                                assert(m[k].messages[j] == before[j]);
                            }
                        }
                    }
                }
            }
        }
    }
}

/// Some row fails to read.
pub open spec fn any_row_fails(rows: Seq<Seq<Seq<char>>>, since: i64, until: i64) -> bool {
    exists|i: int| 0 <= i < rows.len() && row_fails(#[trigger] rows[i], since, until)
}

/// `chats` lists the chats of `m` once each, in guid order.
pub open spec fn lists_chats(chats: Seq<RawChatView>, m: Map<Seq<char>, RawChatView>) -> bool {
    &&& forall|i: int, j: int|
        0 <= i < j < chats.len() ==> text_less(#[trigger] chats[i].guid, #[trigger] chats[j].guid)
    &&& forall|i: int|
        0 <= i < chats.len() ==> m.contains_key(#[trigger] chats[i].guid) && m[chats[i].guid]
            == chats[i]
    &&& forall|k: Seq<char>|
        #[trigger] m.contains_key(k) ==> exists|i: int| 0 <= i < chats.len() && chats[i].guid == k
}

/// What one result row holds, once read.
pub(crate) struct RowParts {
    pub(crate) message: RawMessage,
    pub(crate) participant_count: u16,
    pub(crate) participant_handles: Vec<String>,
}

pub(crate) fn read_row(row: &Vec<String>, since: i64, until: i64) -> (r: Result<Option<RowParts>, MessagesError>)
    ensures
        r is Err <==> row_fails(row.deep_view(), since, until),
        r matches Ok(None) ==> !row_fails(row.deep_view(), since, until) && !in_window(
            row.deep_view(),
            since,
            until,
        ),
        r matches Ok(Some(p)) ==> row_kept(row.deep_view(), since, until) && p.message@
            == row_message(row.deep_view()) && p.participant_count == column_value(
            row.deep_view(),
            1,
        ) && p.participant_handles.deep_view() == decoded_handles(row.deep_view()[2]),
{
    let ghost rv = row.deep_view();
    let chat_guid = row_value(row, 0, "chat_guid")?;
    let date = row_i64(row, 4, "message_date")?;
    let timestamp = apple_timestamp_to_unix_seconds(date)?;
    proof {
        assert(rv[4] == row@[4]@);
    }
    if timestamp < since || timestamp > until {
        return Ok(None);
    }
    let participant_count = row_u16(row, 1, "participant_count")?;
    let handles = participant_handles(row_value(row, 2, "participant_handles")?)?;
    let message_guid = row_value(row, 3, "message_guid")?;
    let text = hex_text(row_value(row, 5, "text_hex")?)?;
    proof {
        assert(rv[1] == row@[1]@);
        assert(rv[2] == row@[2]@);
        assert(rv[5] == row@[5]@);
    }
    let message = RawMessage {
        chat_guid: owned(chat_guid),
        message_guid: owned(message_guid),
        timestamp,
        text,
    };
    Ok(Some(RowParts { message, participant_count, participant_handles: handles }))
}

/// Groups the rows of a recent-messages query into chats: rows whose date
/// falls outside the request window are dropped, each chat collects its
/// messages in row order with the participants of its first row, and the
/// chats come in guid order.
pub fn rows_to_batch(rows: &Vec<Vec<String>>, request: &NativeReadRequest) -> (r: Result<
    NativeBatch,
    MessagesError,
>)
    ensures
        r is Err <==> any_row_fails(rows.deep_view(), request.since, request.until),
        r matches Ok(b) ==> lists_chats(
            chat_views(b.chats@),
            chats_by_guid(rows.deep_view(), request.since, request.until),
        ),
{
    let ghost rs = rows.deep_view();
    let since = request.since;
    let until = request.until;
    let mut chats: Vec<RawChat> = Vec::new();
    let n = rows.len();
    assert(rs.take(0) =~= Seq::<Seq<Seq<char>>>::empty());
    assert(lists_chats(chat_views(chats@), chats_by_guid(rs.take(0), since, until)));
    for i in 0..n
        invariant
            n == rs.len(),
            rs == rows.deep_view(),
            since == request.since,
            until == request.until,
            forall|j: int| 0 <= j < i ==> !row_fails(#[trigger] rs[j], since, until),
            lists_chats(chat_views(chats@), chats_by_guid(rs.take(i as int), since, until)),
    {
        let ghost t = rs.take(i + 1);
        assert(t.drop_last() == rs.take(i as int));
        assert(t.last() == rs[i as int]);
        assert(rs[i as int] == rows@[i as int].deep_view());
        let parts = match read_row(&rows[i], since, until) {
            Ok(p) => p,
            Err(e) => {
                return Err(e);
            },
        };
        match parts {
            None => {},
            Some(p) => {
                insert_message(
                    &mut chats,
                    p,
                    Ghost(chats_by_guid(rs.take(i as int), since, until)),
                    Ghost(rs[i as int]),
                    Ghost(hex_column_text(rs[i as int][5])),
                );
            },
        }
    }
    assert(rs.take(n as int) == rs);
    Ok(NativeBatch { chats })
}

/// Adds the message of a kept row to its chat, keeping the chats in guid
/// order.
pub(crate) fn insert_message(
    chats: &mut Vec<RawChat>,
    p: RowParts,
    Ghost(m): Ghost<Map<Seq<char>, RawChatView>>,
    Ghost(row): Ghost<Seq<Seq<char>>>,
    Ghost(text): Ghost<Seq<char>>,
)
    requires
        lists_chats(chat_views(old(chats)@), m),
        p.message@ == row_message_with(row, text),
        p.participant_count == column_value(row, 1),
        p.participant_handles.deep_view() == decoded_handles(row[2]),
    ensures
        lists_chats(chat_views(final(chats)@), add_row_with(m, row, text)),
{
    let ghost v = chat_views(chats@);
    let ghost g = row[0];
    let guid = p.message.chat_guid.clone();
    assert(guid@ == g);
    let mut k: usize = 0;
    while k < chats.len() && crate::text::less_text(chats[k].guid.as_str(), guid.as_str())
        invariant
            k <= chats@.len(),
            v == chat_views(chats@),
            guid@ == g,
            forall|q: int| 0 <= q < k ==> text_less(#[trigger] v[q].guid, g),
        decreases chats@.len() - k,
    {
        assert(v[k as int].guid == chats@[k as int].guid@);
        k = k + 1;
    }
    if k < chats.len() && crate::text::same_text(chats[k].guid.as_str(), guid.as_str()) {
        assert(v[k as int].guid == g);
        let mut c = chats.remove(k);
        let ghost before_messages = c.messages@;
        c.messages.push(p.message);
        chats.insert(k, c);
        proof {
            let v2 = chat_views(chats@);
            let m2 = add_row_with(m, row, text);
            assert(m.contains_key(g));
            assert(c.messages@.map_values(|x: RawMessage| x@) =~= before_messages.map_values(
                |x: RawMessage| x@,
            ).push(row_message_with(row, text)));
            assert(v2 =~= v.update(
                k as int,
                RawChatView {
                    guid: v[k as int].guid,
                    participant_count: v[k as int].participant_count,
                    participant_handles: v[k as int].participant_handles,
                    messages: v[k as int].messages.push(row_message_with(row, text)),
                },
            ));
            assert forall|q: int| 0 <= q < v2.len() && q != k implies #[trigger] v2[q].guid
                != g by {
                if q < k {
                    crate::text::lemma_text_less_irreflexive(g);
                    assert(text_less(v[q].guid, v[k as int].guid));
                } else {
                    crate::text::lemma_text_less_irreflexive(g);
                    assert(text_less(v[k as int].guid, v[q].guid));
                }
            }
            assert forall|q: int| 0 <= q < v2.len() implies m2.contains_key(#[trigger] v2[q].guid)
                && m2[v2[q].guid] == v2[q] by {
                if q != k {
                    assert(v2[q] == v[q]);
                }
            }
            assert forall|key: Seq<char>| #[trigger] m2.contains_key(key) implies exists|q: int|
                0 <= q < v2.len() && v2[q].guid == key by {
                let q = choose|q: int| 0 <= q < v.len() && v[q].guid == key;
                assert(v2[q].guid == key);
            }
        }
    } else {
        proof {
            assert forall|q: int| 0 <= q < v.len() implies #[trigger] v[q].guid != g by {
                crate::text::lemma_text_less_irreflexive(g);
                if q >= k {
                    assert(v[k as int].guid == chats@[k as int].guid@);
                    crate::text::lemma_text_less_total(v[k as int].guid, g);
                    if q > k {
                        assert(text_less(v[k as int].guid, v[q].guid));
                        if v[q].guid == g {
                            assert(text_less(v[k as int].guid, g));
                        }
                    }
                }
            }
            assert(!m.contains_key(g));
            if k < v.len() {
                assert(v[k as int].guid == chats@[k as int].guid@);
                crate::text::lemma_text_less_total(v[k as int].guid, g);
                assert(text_less(g, v[k as int].guid));
            }
        }
        let mut messages: Vec<RawMessage> = Vec::new();
        messages.push(p.message);
        let chat = RawChat {
            guid,
            participant_count: p.participant_count,
            participant_handles: p.participant_handles,
            messages,
        };
        assert(chat@.messages =~= seq![row_message_with(row, text)]);
        assert(chat@ == row_chat_with(row, text));
        chats.insert(k, chat);
        proof {
            let v2 = chat_views(chats@);
            let m2 = add_row_with(m, row, text);
            assert(v2 =~= v.insert(k as int, row_chat_with(row, text)));
            assert forall|a: int, b: int| 0 <= a < b < v2.len() implies text_less(
                #[trigger] v2[a].guid,
                #[trigger] v2[b].guid,
            ) by {
                if b < k {
                    assert(text_less(v[a].guid, v[b].guid));
                } else if b == k {
                    assert(text_less(v[a].guid, g));
                } else if a < k {
                    assert(text_less(v[a].guid, v[b - 1].guid));
                } else if a == k {
                    if b - 1 > k {
                        assert(text_less(v[k as int].guid, v[b - 1].guid));
                        crate::text::lemma_text_less_transitive(g, v[k as int].guid, v[b - 1].guid);
                    }
                } else {
                    assert(text_less(v[a - 1].guid, v[b - 1].guid));
                }
            }
            assert forall|q: int| 0 <= q < v2.len() implies m2.contains_key(#[trigger] v2[q].guid)
                && m2[v2[q].guid] == v2[q] by {
                if q < k {
                    assert(v2[q] == v[q]);
                } else if q > k {
                    assert(v2[q] == v[q - 1]);
                }
            }
            assert forall|key: Seq<char>| #[trigger] m2.contains_key(key) implies exists|q: int|
                0 <= q < v2.len() && v2[q].guid == key by {
                if key == g {
                    assert(v2[k as int].guid == key);
                } else {
                    let q = choose|q: int| 0 <= q < v.len() && v[q].guid == key;
                    if q < k {
                        assert(v2[q].guid == key);
                    } else {
                        assert(v2[q + 1].guid == key);
                    }
                }
            }
        }
    }
}


impl MessagesSqliteAdapter {
    /// Reads the recent messages of the selected chats: the read-recent
    /// query, run through `process`, turned into a batch.
    pub fn read_recent<P: SqliteProcess>(&self, request: &NativeReadRequest, process: &P) -> (r:
        Result<NativeBatch, MessagesError>)
        ensures
            read_recent_outcome(*request, r),
            request.chat_guids@.len() > 0 && !any_reserved(request.chat_guids.deep_view())
                && self.spec_runner() == MessagesSqliteRunner::PermissionDeniedStderr ==> (r matches Err(
                e,
            ) && e is PermissionDenied),
            request.chat_guids@.len() > 0 && !any_reserved(request.chat_guids.deep_view())
                && self.spec_runner() == MessagesSqliteRunner::Cli ==> exists|
                rows: Result<Vec<Vec<String>>, MessagesError>,
            |
                #[trigger] sqlite_answered(
                    process,
                    self.spec_db_path(),
                    read_recent_sql_text(
                        request.chat_guids.deep_view(),
                        self.spec_limits().read_message_limit,
                    ),
                    rows,
                ) && match rows {
                    Err(e) => r == Err::<NativeBatch, MessagesError>(e),
                    Ok(rows) => batch_outcome(rows.deep_view(), request.since, request.until, r),
                },
    {
        let sql = match self.read_recent_query(&request.chat_guids) {
            Ok(Some(sql)) => sql,
            Ok(None) => {
                return Ok(NativeBatch { chats: Vec::new() });
            },
            Err(e) => {
                return Err(e);
            },
        };
        let queried = self.query(sql.as_str(), process);
        let ghost answered = queried;
        assert(sql@ == read_recent_sql_text(
            request.chat_guids.deep_view(),
            self.spec_limits().read_message_limit,
        ));
        assert(self.spec_runner() == MessagesSqliteRunner::Cli ==> sqlite_answered(
            process,
            self.spec_db_path(),
            read_recent_sql_text(request.chat_guids.deep_view(), self.spec_limits().read_message_limit),
            answered,
        ));
        let rows = match queried {
            Ok(rows) => rows,
            Err(e) => {
                return Err(e);
            },
        };
        let r = rows_to_batch(&rows, request);
        proof {
            if r is Ok {
                assert(!any_row_fails(rows.deep_view(), request.since, request.until));
            }
        }
        assert(batch_outcome(rows.deep_view(), request.since, request.until, r));
        r
    }
}

} // verus!
