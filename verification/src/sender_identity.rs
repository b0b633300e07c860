//! Private sender keys: a message's sender is known to the list intake
//! only by a salted SHA-256 digest of its normalized handle, never by the
//! handle itself.
use vstd::prelude::*;

use sha2::Digest;

use crate::messages::{hex_column_text, hex_text, hex_text_ok, MessagesError};
use crate::text::{
    ascii_lower, ascii_lower_char, chars_of, is_whitespace_char, same_text, is_control, is_control_char, owned, push_char, string_from_chars,
    to_ascii_lower, trim_chars, trim_text,
};

verus! {

/// The domain that prefixes every sender key digest.
pub const KEY_DOMAIN: &'static str = "morrow.list-intake.sender-key.v1:";

/// The prefix of every sender key.
pub const KEY_PREFIX: &'static str = "senderKey-";

/// How many digest bytes a sender key shows.
pub const DIGEST_BYTES: usize = 16;

/// What the salt shows of itself when it is printed.
pub const SENDER_SALT_DEBUG_MARKER: &'static str = "<redacted sender identity salt>";

/// The SHA-256 digest of a byte string.
pub uninterp spec fn sha256_digest(data: Seq<u8>) -> Seq<u8>;

/// `Sha256::digest` from the `sha2` crate: the 32-byte SHA-256 digest of
/// the data.
#[verifier::external_body]
fn sha256(data: &[u8]) -> (r: Vec<u8>)
    ensures
        r@ == sha256_digest(data@),
        r@.len() == 32,
{
    sha2::Sha256::digest(data).to_vec()
}

/// The 32 secret bytes that salt every sender key. The salt has no
/// `Debug`: [`SenderIdentitySalt::debug_text`] shows a marker in place of
/// the bytes.
pub struct SenderIdentitySalt {
    bytes: [u8; 32],
}

impl SenderIdentitySalt {
    pub closed spec fn spec_bytes(&self) -> Seq<u8> {
        self.bytes@
    }

    pub fn from_bytes(bytes: [u8; 32]) -> (r: Self)
        ensures
            r.spec_bytes() == bytes@,
    {
        SenderIdentitySalt { bytes }
    }

    /// The salt where no random bytes could be had.
    pub fn zero() -> (r: Self)
        ensures
            r.spec_bytes() == Seq::new(32, |i: int| 0u8),
    {
        let r = SenderIdentitySalt { bytes: [0u8; 32] };
        assert(r.bytes@ =~= Seq::new(32, |i: int| 0u8));
        r
    }

    /// A fresh random salt when random bytes could be read, else the zero
    /// salt.
    pub fn ephemeral_or_zero(random: Option<[u8; 32]>) -> (r: Self)
        ensures
            random matches Some(bytes) ==> r.spec_bytes() == bytes@,
            random is None ==> r.spec_bytes() == Seq::new(32, |i: int| 0u8),
    {
        match random {
            Some(bytes) => SenderIdentitySalt::from_bytes(bytes),
            None => SenderIdentitySalt::zero(),
        }
    }

    /// How the salt is printed: its type and the redaction marker only.
    pub fn debug_text(&self) -> (r: String)
        ensures
            r@ == "SenderIdentitySalt(\""@ + SENDER_SALT_DEBUG_MARKER@ + "\")"@,
    {
        let mut r = owned("SenderIdentitySalt(\"");
        r.append(SENDER_SALT_DEBUG_MARKER);
        r.append("\")");
        r
    }
}

/// Who sent a message, as far as the list intake may know.
#[derive(Debug)]
pub enum MessageSenderIdentity {
    Unknown,
    Known { key: String },
}

/// The key under which a message's sender identity is cached.
#[derive(Debug)]
pub struct SenderIdentityCacheKey {
    pub chat_guid: String,
    pub message_guid: String,
}

impl SenderIdentityCacheKey {
    pub fn new(chat_guid: &str, message_guid: &str) -> (r: Self)
        ensures
            r.chat_guid@ == chat_guid@,
            r.message_guid@ == message_guid@,
    {
        SenderIdentityCacheKey { chat_guid: owned(chat_guid), message_guid: owned(message_guid) }
    }
}

/// The sender key an identity carries, if any.
pub open spec fn identity_key(identity: MessageSenderIdentity) -> Option<Seq<char>> {
    match identity {
        MessageSenderIdentity::Unknown => None,
        MessageSenderIdentity::Known { key } => Some(key@),
    }
}

fn copy_identity(identity: &MessageSenderIdentity) -> (r: MessageSenderIdentity)
    ensures
        identity_key(r) == identity_key(*identity),
{
    match identity {
        MessageSenderIdentity::Unknown => MessageSenderIdentity::Unknown,
        MessageSenderIdentity::Known { key } => MessageSenderIdentity::Known { key: key.clone() },
    }
}

/// The sender key cached for a message: that of the last row for the
/// message, or none.
pub open spec fn cached_key(
    rows: Seq<(SenderIdentityCacheKey, MessageSenderIdentity)>,
    chat_guid: Seq<char>,
    message_guid: Seq<char>,
) -> Option<Seq<char>>
    decreases rows.len(),
{
    if rows.len() == 0 {
        None
    } else if rows.last().0.chat_guid@ == chat_guid && rows.last().0.message_guid@ == message_guid {
        identity_key(rows.last().1)
    } else {
        cached_key(rows.drop_last(), chat_guid, message_guid)
    }
}

/// The sender identities of the messages last read, by message.
pub struct SenderIdentityCache {
    rows: Vec<(SenderIdentityCacheKey, MessageSenderIdentity)>,
}

impl SenderIdentityCache {
    pub closed spec fn spec_rows(&self) -> Seq<(SenderIdentityCacheKey, MessageSenderIdentity)> {
        self.rows@
    }

    pub fn new() -> (r: Self)
        ensures
            r.spec_rows().len() == 0,
    {
        SenderIdentityCache { rows: Vec::new() }
    }

    /// Replaces every cached identity with `rows`.
    pub fn replace(&mut self, rows: Vec<(SenderIdentityCacheKey, MessageSenderIdentity)>)
        ensures
            final(self).spec_rows() == rows@,
    {
        self.rows = rows;
    }

    /// The identity cached for a message, or unknown.
    pub fn get(&self, chat_guid: &str, message_guid: &str) -> (r: MessageSenderIdentity)
        ensures
            identity_key(r) == cached_key(self.spec_rows(), chat_guid@, message_guid@),
    {
        let ghost rows = self.rows@;
        let mut i: usize = self.rows.len();
        assert(rows.take(i as int) =~= rows);
        while i > 0
            invariant
                i <= rows.len(),
                rows == self.rows@,
                cached_key(rows, chat_guid@, message_guid@) == cached_key(
                    rows.take(i as int),
                    chat_guid@,
                    message_guid@,
                ),
            decreases i,
        {
            let row = &self.rows[i - 1];
            let ghost t = rows.take(i as int);
            assert(t.last() == rows[i - 1]);
            assert(t.drop_last() == rows.take(i - 1));
            if same_text(row.0.chat_guid.as_str(), chat_guid) && same_text(
                row.0.message_guid.as_str(),
                message_guid,
            ) {
                return copy_identity(&row.1);
            }
            i = i - 1;
        }
        MessageSenderIdentity::Unknown
    }
}

/// A handle as keys see it: trimmed and ASCII lower-cased; a blank handle,
/// or one with a control character, has none.
pub open spec fn normalized_handle(raw: Seq<char>) -> Option<Seq<char>> {
    let t = trim_text(raw);
    if t.len() == 0 || exists|i: int| 0 <= i < t.len() && is_control_char(#[trigger] t[i]) {
        None
    } else {
        Some(ascii_lower(t))
    }
}

/// A normalized handle normalizes to itself, so a sender keeps one key
/// however its handle was spaced or cased.
pub proof fn law_normalized_handle_is_settled(raw: Seq<char>)
    ensures
        normalized_handle(raw) matches Some(h) ==> normalized_handle(h) == Some(h),
{
    let t = trim_text(raw);
    if let Some(h) = normalized_handle(raw) {
        crate::text::lemma_trim_text_ends(raw);
        assert(h == ascii_lower(t));
        assert forall|i: int| 0 <= i < h.len() implies (is_whitespace_char(#[trigger] h[i])
            == is_whitespace_char(t[i])) && (is_control_char(h[i]) == is_control_char(t[i]))
            && ascii_lower_char(h[i]) == h[i] by {
            let c = t[i];
            if 'A' <= c && c <= 'Z' {
                assert(((c as u32) + 32) as char as u32 == (c as u32) + 32);
            }
        }
        assert(!is_whitespace_char(h[0]));
        assert(h.last() == h[h.len() - 1]);
        assert(t.last() == t[t.len() - 1]);
        assert(!is_whitespace_char(h.last()));
        crate::text::lemma_trim_text_of_trimmed(h);
        assert(!(exists|i: int| 0 <= i < h.len() && is_control_char(#[trigger] h[i]))) by {
            if exists|i: int| 0 <= i < h.len() && is_control_char(#[trigger] h[i]) {
                let i = choose|i: int| 0 <= i < h.len() && is_control_char(#[trigger] h[i]);
                assert(is_control_char(t[i]));
            }
        }
        assert(ascii_lower(h) =~= h);
    }
}

pub fn normalize_handle(raw_handle: &str) -> (r: Option<String>)
    ensures
        normalized_handle(raw_handle@) matches Some(h) ==> (r matches Some(s) && s@ == h),
        normalized_handle(raw_handle@) is None ==> r is None,
{
    let trimmed = trim_chars(&chars_of(raw_handle));
    if trimmed.len() == 0 {
        return None;
    }
    let n = trimmed.len();
    for i in 0..n
        invariant
            n == trimmed@.len(),
            trimmed@ == trim_text(raw_handle@),
            forall|k: int| 0 <= k < i ==> !is_control_char(#[trigger] trimmed@[k]),
    {
        if is_control(trimmed[i]) {
            assert(is_control_char(trimmed@[i as int]));
            return None;
        }
    }
    Some(string_from_chars(&to_ascii_lower(&trimmed)))
}

/// The lowercase hex digit of a value below 16.
pub open spec fn hex_digit(v: int) -> char {
    if v < 10 {
        (v + 48) as char
    } else {
        (v + 87) as char
    }
}

/// The lowercase hex of the first 16 bytes (or all, if fewer).
pub open spec fn hex_prefix_text(bytes: Seq<u8>) -> Seq<char> {
    let n = if bytes.len() < DIGEST_BYTES {
        bytes.len() as int
    } else {
        DIGEST_BYTES as int
    };
    Seq::new(
        (2 * n) as nat,
        |i: int|
            if i % 2 == 0 {
                hex_digit(bytes[i / 2] as int / 16)
            } else {
                hex_digit(bytes[i / 2] as int % 16)
            },
    )
}

fn hex_char(v: u8) -> (r: char)
    requires
        v < 16,
    ensures
        r == hex_digit(v as int),
{
    if v < 10 {
        (v + 48) as char
    } else {
        (v + 87) as char
    }
}

/// The lowercase hex of the first 16 bytes.
pub fn hex_prefix(bytes: &[u8]) -> (r: String)
    ensures
        r@ == hex_prefix_text(bytes@),
{
    let n: usize = if bytes.len() < DIGEST_BYTES {
        bytes.len()
    } else {
        DIGEST_BYTES
    };
    let mut value = String::new();
    for i in 0..n
        invariant
            n <= bytes@.len(),
            n <= DIGEST_BYTES,
            n == (if bytes@.len() < DIGEST_BYTES {
                bytes@.len() as int
            } else {
                DIGEST_BYTES as int
            }),
            value@ == hex_prefix_text(bytes@).take(2 * i),
    {
        let b = bytes[i];
        push_char(&mut value, hex_char(b / 16));
        push_char(&mut value, hex_char(b % 16));
        assert(value@ =~= hex_prefix_text(bytes@).take(2 * (i + 1)));
    }
    assert(hex_prefix_text(bytes@).take(2 * n) =~= hex_prefix_text(bytes@));
    value
}

/// The sender key of a digest: the prefix, then the hex of its first 16
/// bytes.
pub open spec fn key_of_digest(digest: Seq<u8>) -> Seq<char> {
    KEY_PREFIX@ + hex_prefix_text(digest)
}

pub fn sender_key_from_digest(digest: &[u8]) -> (r: String)
    ensures
        r@ == key_of_digest(digest@),
{
    let mut key = owned(KEY_PREFIX);
    key.append(hex_prefix(digest).as_str());
    key
}

/// The bytes hashed for a sender: the key domain, the salt, the chat guid,
/// a zero byte, then the normalized handle, text as UTF-8.
pub open spec fn sender_key_input(salt: Seq<u8>, chat_guid: Seq<char>, handle: Seq<char>) -> Seq<
    u8,
> {
    vstd::utf8::encode_utf8(KEY_DOMAIN@) + salt + vstd::utf8::encode_utf8(chat_guid) + seq![0u8]
        + vstd::utf8::encode_utf8(handle)
}

fn append_bytes(out: &mut Vec<u8>, bytes: &[u8])
    ensures
        final(out)@ == old(out)@ + bytes@,
{
    let n = bytes.len();
    for i in 0..n
        invariant
            n == bytes@.len(),
            out@ == old(out)@ + bytes@.take(i as int),
    {
        out.push(bytes[i]);
        assert(bytes@.take(i + 1) == bytes@.take(i as int).push(bytes@[i as int]));
    }
    assert(bytes@.take(n as int) == bytes@);
}

/// The identity of a sender in a chat: known by a salted digest of its
/// normalized handle, or unknown when the handle normalizes to nothing.
pub fn sender_identity(salt: &SenderIdentitySalt, chat_guid: &str, raw_handle: &str) -> (r:
    MessageSenderIdentity)
    ensures
        normalized_handle(raw_handle@) is None ==> r is Unknown,
        normalized_handle(raw_handle@) matches Some(h) ==> (r matches MessageSenderIdentity::Known {
            key,
        } && key@ == key_of_digest(sha256_digest(sender_key_input(salt.spec_bytes(), chat_guid@, h)))),
{
    let normalized = match normalize_handle(raw_handle) {
        Some(h) => h,
        None => {
            return MessageSenderIdentity::Unknown;
        },
    };
    let mut input: Vec<u8> = Vec::new();
    append_bytes(&mut input, KEY_DOMAIN.as_bytes());
    append_bytes(&mut input, salt.bytes.as_slice());
    append_bytes(&mut input, chat_guid.as_bytes());
    input.push(0u8);
    append_bytes(&mut input, normalized.as_str().as_bytes());
    assert(input@ =~= sender_key_input(salt.spec_bytes(), chat_guid@, normalized@));
    let digest = sha256(input.as_slice());
    MessageSenderIdentity::Known { key: sender_key_from_digest(digest.as_slice()) }
}

/// The sender of a result row: unknown when the row names no sender
/// handle, else the identity of the decoded handle.
pub fn parse_sender_identity(
    salt: &SenderIdentitySalt,
    chat_guid: &str,
    sender_handle_id: &str,
    sender_handle_hex: &str,
) -> (r: Result<MessageSenderIdentity, MessagesError>)
    ensures
        sender_handle_id@.len() == 0 || sender_handle_hex@.len() == 0 ==> (r matches Ok(i)
            && i is Unknown),
        sender_handle_id@.len() > 0 && sender_handle_hex@.len() > 0 && !hex_text_ok(
            sender_handle_hex@,
        ) ==> r is Err,
        sender_handle_id@.len() > 0 && sender_handle_hex@.len() > 0 && hex_text_ok(
            sender_handle_hex@,
        ) ==> (r matches Ok(i) && (normalized_handle(hex_column_text(sender_handle_hex@)) is None
            ==> i is Unknown) && (normalized_handle(hex_column_text(sender_handle_hex@)) matches Some(
            h,
        ) ==> (i matches MessageSenderIdentity::Known { key } && key@ == key_of_digest(
            sha256_digest(sender_key_input(salt.spec_bytes(), chat_guid@, h)),
        )))),
{
    if sender_handle_id.is_empty() || sender_handle_hex.is_empty() {
        return Ok(MessageSenderIdentity::Unknown);
    }
    let raw_handle = match hex_text(sender_handle_hex) {
        Ok(h) => h,
        Err(e) => {
            return Err(e);
        },
    };
    Ok(sender_identity(salt, chat_guid, raw_handle.as_str()))
}

} // verus!
