//! Chat previews: the request, the report, and how a message is shortened
//! for display.
use vstd::prelude::*;

use crate::text::{chars_of, is_whitespace, is_whitespace_char, trim_end_index, trim_end_len};

verus! {

/// The number of characters a preview shows before it is cut.
pub const MESSAGE_PREVIEW_VISIBLE_CHAR_LIMIT: usize = 120;

#[derive(Debug)]
pub struct MessagesPreviewRequest {
    pub chat_ids: Vec<String>,
}

#[derive(Debug)]
pub struct MessagesPreviewCommandReport {
    pub chats: Vec<MessagesPreviewCommandChat>,
}

#[derive(Debug)]
pub struct MessagesPreviewCommandChat {
    pub chat_id: String,
    pub preview: String,
}

impl MessagesPreviewCommandReport {
    pub fn empty() -> (r: Self)
        ensures
            r.chats@.len() == 0,
    {
        MessagesPreviewCommandReport { chats: Vec::new() }
    }
}

impl MessagesPreviewCommandChat {
    pub fn new(chat_id: String, preview: String) -> (r: Self)
        ensures
            r.chat_id@ == chat_id@,
            r.preview@ == preview@,
    {
        MessagesPreviewCommandChat { chat_id, preview }
    }
}

/// The words of `s` (its maximal runs of non-whitespace characters)
/// joined by single spaces: a character that follows whitespace starts a
/// new word, set apart from any earlier word by one space.
pub open spec fn collapsed_whitespace(s: Seq<char>) -> Seq<char>
    decreases s.len(),
{
    if s.len() == 0 {
        Seq::empty()
    } else {
        let prev = collapsed_whitespace(s.drop_last());
        let c = s.last();
        if is_whitespace_char(c) {
            prev
        } else if s.len() >= 2 && is_whitespace_char(s[s.len() - 2]) && prev.len() > 0 {
            prev.push(' ').push(c)
        } else {
            prev.push(c)
        }
    }
}

/// The preview of a message: its collapsed text when that fits in the
/// limit, else its first 120 characters without trailing whitespace and
/// followed by `...`.
pub open spec fn message_preview(text: Seq<char>) -> Seq<char> {
    let collapsed = collapsed_whitespace(text);
    if collapsed.len() <= MESSAGE_PREVIEW_VISIBLE_CHAR_LIMIT {
        collapsed
    } else {
        let head = collapsed.take(MESSAGE_PREVIEW_VISIBLE_CHAR_LIMIT as int);
        head.take(trim_end_index(head)) + "..."@
    }
}

proof fn lemma_collapsed_spaces(s: Seq<char>)
    ensures
        forall|i: int|
            0 <= i < collapsed_whitespace(s).len() && is_whitespace_char(
                #[trigger] collapsed_whitespace(s)[i],
            ) ==> collapsed_whitespace(s)[i] == ' ',
    decreases s.len(),
{
    if s.len() > 0 {
        let prev = collapsed_whitespace(s.drop_last());
        lemma_collapsed_spaces(s.drop_last());
        let r = collapsed_whitespace(s);
        assert forall|i: int| 0 <= i < r.len() && is_whitespace_char(#[trigger] r[i]) implies r[i]
            == ' ' by {
            if i < prev.len() {
                assert(r[i] == prev[i]);
            }
        }
    }
}

/// A preview is one line: every whitespace character in it is a plain
/// space; and it shows at most the visible limit, plus an ellipsis when
/// the message was cut.
pub proof fn law_preview_is_one_bounded_line(text: Seq<char>)
    ensures
        forall|i: int|
            0 <= i < message_preview(text).len() && is_whitespace_char(
                #[trigger] message_preview(text)[i],
            ) ==> message_preview(text)[i] == ' ',
        message_preview(text).len() <= MESSAGE_PREVIEW_VISIBLE_CHAR_LIMIT + 3,
{
    reveal_strlit("...");
    let collapsed = collapsed_whitespace(text);
    lemma_collapsed_spaces(text);
    if collapsed.len() > MESSAGE_PREVIEW_VISIBLE_CHAR_LIMIT {
        let head = collapsed.take(MESSAGE_PREVIEW_VISIBLE_CHAR_LIMIT as int);
        crate::text::lemma_trim_end_index_bounds(head);
        let kept = head.take(trim_end_index(head));
        let p = message_preview(text);
        assert(p == kept + "..."@);
        assert forall|i: int| 0 <= i < p.len() && is_whitespace_char(#[trigger] p[i]) implies p[i]
            == ' ' by {
            if i < kept.len() {
                assert(p[i] == collapsed[i]);
            } else {
                assert(p[i] == "..."@[i - kept.len()]);
            }
        }
    }
}

fn collapse_whitespace(s: &Vec<char>) -> (r: Vec<char>)
    ensures
        r@ == collapsed_whitespace(s@),
{
    let mut out: Vec<char> = Vec::new();
    let n = s.len();
    assert(s@.take(0) =~= Seq::<char>::empty());
    for i in 0..n
        invariant
            n == s@.len(),
            out@ == collapsed_whitespace(s@.take(i as int)),
    {
        let c = s[i];
        let ghost t = s@.take(i + 1);
        assert(t.drop_last() == s@.take(i as int));
        assert(t.last() == c);
        if is_whitespace(c) {
        } else if i >= 1 && is_whitespace(s[i - 1]) && out.len() > 0 {
            assert(t[t.len() - 2] == s@[i - 1]);
            out.push(' ');
            out.push(c);
        } else {
            proof {
                if i >= 1 {
                    assert(t[t.len() - 2] == s@[i - 1]);
                }
            }
            out.push(c);
        }
    }
    assert(s@.take(n as int) == s@);
    out
}

/// Collapses the whitespace of a message and cuts it to the preview
/// limit.
pub fn normalize_message_preview(text: &str) -> (r: String)
    ensures
        r@ == message_preview(text@),
{
    let collapsed = collapse_whitespace(&chars_of(text));
    let mut out = String::new();
    if collapsed.len() <= MESSAGE_PREVIEW_VISIBLE_CHAR_LIMIT {
        crate::text::push_chars(&mut out, &collapsed);
        return out;
    }
    let mut head: Vec<char> = Vec::new();
    for i in 0..MESSAGE_PREVIEW_VISIBLE_CHAR_LIMIT
        invariant
            collapsed@.len() > MESSAGE_PREVIEW_VISIBLE_CHAR_LIMIT,
            head@ == collapsed@.take(i as int),
    {
        head.push(collapsed[i]);
        assert(collapsed@.take(i + 1) == collapsed@.take(i as int).push(collapsed@[i as int]));
    }
    let keep = trim_end_len(&head);
    proof {
        crate::text::lemma_trim_end_index_bounds(head@);
    }
    let mut kept: Vec<char> = Vec::new();
    for i in 0..keep
        invariant
            keep <= head@.len(),
            kept@ == head@.take(i as int),
    {
        kept.push(head[i]);
        assert(head@.take(i + 1) == head@.take(i as int).push(head@[i as int]));
    }
    crate::text::push_chars(&mut out, &kept);
    out.append("...");
    out
}

} // verus!
