//! Reading recent messages together with who sent each one: the message
//! text falls back to the attributed body when the plain text is empty, and
//! every kept message gets the sender identity its row names.
use vstd::prelude::*;

use crate::messages::{
    all_hex_digits, body_message, column_value, decoded_handles, hex_column_text,
    hex_decoded, hex_text, hex_text_ok, in_window, insert_message, is_unavailable, lists_chats,
    chat_views, read_row, row_date_fails, row_message_with, row_rest_fails, row_value,
    text_from_hex, AttributedBodyDecoder, MessagesError, NativeBatch, NativeReadRequest, RawChat,
    RawChatView, RawAttributedBodyResult, ATTRIBUTED_BODY_DECODE_FAILED, add_row_with,
};
use crate::sender_identity::{
    identity_key, key_of_digest, normalized_handle, parse_sender_identity, sender_key_input,
    sha256_digest, MessageSenderIdentity, SenderIdentityCacheKey, SenderIdentitySalt,
};

verus! {

/// The attributed-body column holds hex digits in pairs.
pub open spec fn body_hex_ok(value: Seq<char>) -> bool {
    let s = vstd::utf8::encode_utf8(value);
    s.len() % 2 == 0 && all_hex_digits(s)
}

/// What the text of a decoder result gives: its text when it succeeded, an
/// empty text when it found none, else the reader is unavailable for its
/// message.
pub open spec fn body_text_of(raw: RawAttributedBodyResult, r: Result<Seq<char>, MessagesError>) -> bool {
    if raw.ok != 0 {
        r == Ok::<Seq<char>, MessagesError>(raw.text@)
    } else if raw.error_code == ATTRIBUTED_BODY_DECODE_FAILED {
        r == Ok::<Seq<char>, MessagesError>(Seq::<char>::empty())
    } else {
        r matches Err(e) && is_unavailable(e, body_message(raw))
    }
}

/// The text of a message from its two columns: the decoded plain text when
/// it is not empty; otherwise no text for an empty attributed body, else
/// what `decoder` makes of the attributed body's bytes.
pub open spec fn message_text_outcome<D: AttributedBodyDecoder>(
    decoder: &D,
    text_hex: Seq<char>,
    body_hex: Seq<char>,
    r: Result<Seq<char>, MessagesError>,
) -> bool {
    if !hex_text_ok(text_hex) {
        r is Err
    } else if hex_column_text(text_hex).len() > 0 {
        r == Ok::<Seq<char>, MessagesError>(hex_column_text(text_hex))
    } else if !body_hex_ok(body_hex) {
        r is Err
    } else if body_hex.len() == 0 {
        r == Ok::<Seq<char>, MessagesError>(Seq::<char>::empty())
    } else {
        exists|bytes: Vec<u8>, raw: RawAttributedBodyResult|
            bytes@ == hex_decoded(vstd::utf8::encode_utf8(body_hex)) && #[trigger] call_ensures(
                D::decode,
                (decoder, &bytes),
                raw,
            ) && body_text_of(raw, r)
    }
}

/// A result's text by its view.
pub open spec fn text_result(r: Result<String, MessagesError>) -> Result<Seq<char>, MessagesError> {
    match r {
        Ok(t) => Ok(t@),
        Err(e) => Err(e),
    }
}

/// The text of a message: its plain text column when that decodes to a
/// non-empty text, else the text of its attributed body.
pub fn message_text<D: AttributedBodyDecoder>(text_hex: &str, body_hex: &str, decoder: &D) -> (r:
    Result<String, MessagesError>)
    ensures
        message_text_outcome(decoder, text_hex@, body_hex@, text_result(r)),
{
    let text = match hex_text(text_hex) {
        Ok(t) => t,
        Err(e) => {
            return Err(e);
        },
    };
    if text.as_str().unicode_len() > 0 {
        return Ok(text);
    }
    let body = text_from_hex(body_hex, decoder);
    let ghost seen = body;
    let r = match body {
        Ok(Some(t)) => Ok(t),
        Ok(None) => Ok(String::new()),
        Err(e) => Err(e),
    };
    proof {
        if body_hex_ok(body_hex@) && body_hex@.len() > 0 {
            let (bytes, raw) = choose|bytes: Vec<u8>, raw: RawAttributedBodyResult|
                bytes@ == hex_decoded(vstd::utf8::encode_utf8(body_hex@)) && #[trigger] call_ensures(
                    D::decode,
                    (decoder, &bytes),
                    raw,
                ) && crate::messages::body_result_matches(raw, seen);
            assert(body_text_of(raw, text_result(r)));
        }
    }
    r
}

/// The sender key of a row: none when the row names no sender handle or the
/// handle normalizes to nothing, else the salted digest of the normalized
/// handle in the row's chat.
pub open spec fn row_sender_key(salt: Seq<u8>, row: Seq<Seq<char>>) -> Option<Seq<char>> {
    if row[7].len() == 0 || row[8].len() == 0 {
        None
    } else {
        match normalized_handle(hex_column_text(row[8])) {
            None => None,
            Some(h) => Some(key_of_digest(sha256_digest(sender_key_input(salt, row[0], h)))),
        }
    }
}

/// The columns after the date of a row in the window cannot be read
/// without asking the decoder: those of a plain row, the attributed body
/// when the text is empty, or the sender handle.
pub open spec fn sender_rest_fails(row: Seq<Seq<char>>) -> bool {
    ||| row_rest_fails(row)
    ||| row.len() < 9
    ||| hex_column_text(row[5]).len() == 0 && !body_hex_ok(row[6])
    ||| row[7].len() > 0 && row[8].len() > 0 && !hex_text_ok(row[8])
}

/// Reading the row fails whatever the decoder says; a row outside the
/// window is not read past its date.
pub open spec fn sender_row_fails(row: Seq<Seq<char>>, since: i64, until: i64) -> bool {
    row_date_fails(row) || (in_window(row, since, until) && sender_rest_fails(row))
}

/// The row's message is kept: its date is readable and in the window.
pub open spec fn row_in_window(row: Seq<Seq<char>>, since: i64, until: i64) -> bool {
    !row_date_fails(row) && in_window(row, since, until)
}

/// Some row fails to read whatever the decoder says.
pub open spec fn any_sender_row_fails(rows: Seq<Seq<Seq<char>>>, since: i64, until: i64) -> bool {
    exists|i: int| 0 <= i < rows.len() && sender_row_fails(#[trigger] rows[i], since, until)
}

/// The decoder reported a failure for the attributed body of a row whose
/// text it was asked for.
pub open spec fn decoder_failed<D: AttributedBodyDecoder>(decoder: &D, row: Seq<Seq<char>>) -> bool {
    exists|bytes: Vec<u8>, raw: RawAttributedBodyResult|
        bytes@ == hex_decoded(vstd::utf8::encode_utf8(row[6])) && #[trigger] call_ensures(
            D::decode,
            (decoder, &bytes),
            raw,
        ) && raw.ok == 0 && raw.error_code != ATTRIBUTED_BODY_DECODE_FAILED
}

/// The chats by guid of the rows in the window, the message of row `i`
/// having `texts[i]` as its text.
pub open spec fn chats_with_texts(
    rows: Seq<Seq<Seq<char>>>,
    texts: Seq<Seq<char>>,
    since: i64,
    until: i64,
) -> Map<Seq<char>, RawChatView>
    decreases rows.len(),
{
    if rows.len() == 0 {
        Map::empty()
    } else {
        let m = chats_with_texts(rows.drop_last(), texts.drop_last(), since, until);
        if row_in_window(rows.last(), since, until) {
            add_row_with(m, rows.last(), texts.last())
        } else {
            m
        }
    }
}

/// The sender identity rows of the rows in the window, in row order: the
/// chat guid, the message guid and the sender key.
pub open spec fn sender_rows(
    salt: Seq<u8>,
    rows: Seq<Seq<Seq<char>>>,
    since: i64,
    until: i64,
) -> Seq<(Seq<char>, Seq<char>, Option<Seq<char>>)>
    decreases rows.len(),
{
    if rows.len() == 0 {
        Seq::empty()
    } else {
        let before = sender_rows(salt, rows.drop_last(), since, until);
        let row = rows.last();
        if row_in_window(row, since, until) {
            before.push((row[0], row[3], row_sender_key(salt, row)))
        } else {
            before
        }
    }
}

/// A cached sender identity row by its view.
pub open spec fn sender_row_view(row: (SenderIdentityCacheKey, MessageSenderIdentity)) -> (
    Seq<char>,
    Seq<char>,
    Option<Seq<char>>,
) {
    (row.0.chat_guid@, row.0.message_guid@, identity_key(row.1))
}

/// The messages read and who sent each.
#[derive(Debug)]
pub struct ReadRecentRows {
    pub batch: NativeBatch,
    pub sender_identities: Vec<(SenderIdentityCacheKey, MessageSenderIdentity)>,
}

/// What the whole read gives: no row fails, and for some texts, each read
/// from its row as [`message_text`] reads it, the batch lists the chats of
/// the rows in the window in guid order and the sender rows are those of
/// the rows in the window.
pub open spec fn read_rows_outcome<D: AttributedBodyDecoder>(
    decoder: &D,
    salt: Seq<u8>,
    rows: Seq<Seq<Seq<char>>>,
    since: i64,
    until: i64,
    out: ReadRecentRows,
) -> bool {
    &&& !any_sender_row_fails(rows, since, until)
    &&& exists|texts: Seq<Seq<char>>|
        #![trigger chats_with_texts(rows, texts, since, until)]
        texts.len() == rows.len() && (forall|j: int|
            0 <= j < rows.len() && row_in_window(#[trigger] rows[j], since, until)
                ==> message_text_outcome(
                decoder,
                rows[j][5],
                rows[j][6],
                Ok::<Seq<char>, MessagesError>(texts[j]),
            )) && lists_chats(chat_views(out.batch.chats@), chats_with_texts(rows, texts, since, until))
    &&& out.sender_identities@.map_values(
        |r: (SenderIdentityCacheKey, MessageSenderIdentity)| sender_row_view(r),
    ) == sender_rows(salt, rows, since, until)
}

/// What one row gives once read.
struct SenderRowParts {
    parts: crate::messages::RowParts,
    key: SenderIdentityCacheKey,
    identity: MessageSenderIdentity,
}

fn read_sender_row<D: AttributedBodyDecoder>(
    row: &Vec<String>,
    since: i64,
    until: i64,
    salt: &SenderIdentitySalt,
    decoder: &D,
) -> (r: Result<Option<SenderRowParts>, MessagesError>)
    ensures
        sender_row_fails(row.deep_view(), since, until) ==> r is Err,
        r is Err && !sender_row_fails(row.deep_view(), since, until) ==> row_in_window(
            row.deep_view(),
            since,
            until,
        ) && decoder_failed(decoder, row.deep_view()),
        r matches Ok(None) ==> !row_in_window(row.deep_view(), since, until),
        r matches Ok(Some(p)) ==> {
            let rv = row.deep_view();
            &&& row_in_window(rv, since, until)
            &&& p.parts.message@ == row_message_with(rv, p.parts.message.text@)
            &&& message_text_outcome(
                decoder,
                rv[5],
                rv[6],
                Ok::<Seq<char>, MessagesError>(p.parts.message.text@),
            )
            &&& p.parts.participant_count == column_value(rv, 1)
            &&& p.parts.participant_handles.deep_view() == decoded_handles(rv[2])
            &&& sender_row_view((p.key, p.identity)) == (rv[0], rv[3], row_sender_key(
                salt.spec_bytes(),
                rv,
            ))
        },
{
    let ghost rv = row.deep_view();
    let read = read_row(row, since, until);
    let mut parts = match read {
        Ok(Some(p)) => p,
        Ok(None) => {
            return Ok(None);
        },
        Err(e) => {
            return Err(e);
        },
    };
    proof {
        assert(!row_rest_fails(rv));
        assert(rv[5] == row@[5]@);
    }
    let body_hex = match row_value(row, 6, "attributed_body_hex") {
        Ok(v) => v,
        Err(e) => {
            return Err(e);
        },
    };
    let text_hex = row_value(row, 5, "text_hex")?;
    let text = message_text(text_hex, body_hex, decoder);
    proof {
        assert(rv[6] == row@[6]@);
    }
    let text = match text {
        Ok(t) => t,
        Err(e) => {
            proof {
                if !sender_row_fails(rv, since, until) {
                    let (bytes, raw) = choose|bytes: Vec<u8>, raw: RawAttributedBodyResult|
                        bytes@ == hex_decoded(vstd::utf8::encode_utf8(rv[6])) && #[trigger] call_ensures(
                            D::decode,
                            (decoder, &bytes),
                            raw,
                        ) && body_text_of(raw, Err::<Seq<char>, MessagesError>(e));
                    assert(decoder_failed(decoder, rv));
                }
            }
            return Err(e);
        },
    };
    let sender_id = match row_value(row, 7, "sender_handle_id") {
        Ok(v) => v,
        Err(e) => {
            return Err(e);
        },
    };
    let sender_hex = row_value(row, 8, "sender_handle_hex")?;
    proof {
        assert(rv[7] == row@[7]@);
        assert(rv[8] == row@[8]@);
        assert(rv[0] == row@[0]@);
        assert(rv[3] == row@[3]@);
    }
    let identity = parse_sender_identity(
        salt,
        parts.message.chat_guid.as_str(),
        sender_id,
        sender_hex,
    )?;
    let key = SenderIdentityCacheKey::new(
        parts.message.chat_guid.as_str(),
        parts.message.message_guid.as_str(),
    );
    parts.message.text = text;
    Ok(Some(SenderRowParts { parts, key, identity }))
}

/// Groups the rows of a recent-messages query into chats and records who
/// sent each kept message: rows whose date falls outside the request window
/// are dropped; each chat collects its messages in row order with the
/// participants of its first row; the chats come in guid order; a message
/// whose plain text is empty takes the text of its attributed body. The
/// read fails when a row cannot be read, and only then or when the decoder
/// reports a failure.
pub fn rows_to_batch<D: AttributedBodyDecoder>(
    rows: &Vec<Vec<String>>,
    request: &NativeReadRequest,
    salt: &SenderIdentitySalt,
    decoder: &D,
) -> (r: Result<ReadRecentRows, MessagesError>)
    ensures
        any_sender_row_fails(rows.deep_view(), request.since, request.until) ==> r is Err,
        r is Err && !any_sender_row_fails(rows.deep_view(), request.since, request.until)
            ==> exists|i: int|
            0 <= i < rows@.len() && row_in_window(
                #[trigger] rows.deep_view()[i],
                request.since,
                request.until,
            ) && decoder_failed(decoder, rows.deep_view()[i]),
        r matches Ok(out) ==> read_rows_outcome(
            decoder,
            salt.spec_bytes(),
            rows.deep_view(),
            request.since,
            request.until,
            out,
        ),
{
    let ghost rs = rows.deep_view();
    let since = request.since;
    let until = request.until;
    let mut chats: Vec<RawChat> = Vec::new();
    let mut identities: Vec<(SenderIdentityCacheKey, MessageSenderIdentity)> = Vec::new();
    let ghost mut texts: Seq<Seq<char>> = Seq::empty();
    let n = rows.len();
    assert(rs.take(0) =~= Seq::<Seq<Seq<char>>>::empty());
    assert(identities@.map_values(
        |r: (SenderIdentityCacheKey, MessageSenderIdentity)| sender_row_view(r),
    ) =~= sender_rows(salt.spec_bytes(), rs.take(0), since, until));
    for i in 0..n
        invariant
            n == rs.len(),
            rs == rows.deep_view(),
            since == request.since,
            until == request.until,
            texts.len() == i,
            forall|j: int| 0 <= j < i ==> !sender_row_fails(#[trigger] rs[j], since, until),
            forall|j: int|
                0 <= j < i && row_in_window(#[trigger] rs[j], since, until)
                    ==> message_text_outcome(
                    decoder,
                    rs[j][5],
                    rs[j][6],
                    Ok::<Seq<char>, MessagesError>(texts[j]),
                ),
            lists_chats(chat_views(chats@), chats_with_texts(rs.take(i as int), texts, since, until)),
            identities@.map_values(|r: (SenderIdentityCacheKey, MessageSenderIdentity)| sender_row_view(r))
                == sender_rows(salt.spec_bytes(), rs.take(i as int), since, until),
    {
        let ghost t = rs.take(i + 1);
        let ghost old_texts = texts;
        let ghost old_map = chats_with_texts(rs.take(i as int), texts, since, until);
        assert(t.drop_last() == rs.take(i as int));
        assert(t.last() == rs[i as int]);
        assert(rs[i as int] == rows@[i as int].deep_view());
        let read = read_sender_row(&rows[i], since, until, salt, decoder);
        let parts = match read {
            Ok(p) => p,
            Err(e) => {
                proof {
                    if !any_sender_row_fails(rs, since, until) {
                        assert(!sender_row_fails(rs[i as int], since, until));
                    }
                }
                return Err(e);
            },
        };
        let ghost before_views = identities@.map_values(
            |r: (SenderIdentityCacheKey, MessageSenderIdentity)| sender_row_view(r),
        );
        match parts {
            None => {
                proof {
                    texts = texts.push(Seq::<char>::empty());
                }
            },
            Some(p) => {
                let ghost text = p.parts.message.text@;
                let ghost view = sender_row_view((p.key, p.identity));
                insert_message(
                    &mut chats,
                    p.parts,
                    Ghost(chats_with_texts(rs.take(i as int), texts, since, until)),
                    Ghost(rs[i as int]),
                    Ghost(text),
                );
                identities.push((p.key, p.identity));
                proof {
                    texts = texts.push(text);
                    assert(identities@.map_values(
                        |r: (SenderIdentityCacheKey, MessageSenderIdentity)| sender_row_view(r),
                    ) =~= before_views.push(view));
                }
            },
        }
        proof {
            assert(texts.drop_last() =~= old_texts);
            assert(chats_with_texts(rs.take(i as int), texts.drop_last(), since, until) == old_map);
            assert(chats_with_texts(t, texts, since, until) == if row_in_window(
                rs[i as int],
                since,
                until,
            ) {
                add_row_with(
                    chats_with_texts(rs.take(i as int), texts.drop_last(), since, until),
                    rs[i as int],
                    texts.last(),
                )
            } else {
                chats_with_texts(rs.take(i as int), texts.drop_last(), since, until)
            });
        }
    }
    assert(rs.take(n as int) == rs);
    let out = ReadRecentRows { batch: NativeBatch { chats }, sender_identities: identities };
    assert(lists_chats(chat_views(out.batch.chats@), chats_with_texts(rs, texts, since, until)));
    Ok(out)
}

} // verus!
