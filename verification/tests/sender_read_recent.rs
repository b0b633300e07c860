use morrow::messages::{
    AttributedBodyDecoder, MessagesError, NativeReadRequest, NoAttributedBodyDecoder,
    RawAttributedBodyResult,
};
use morrow::sender_identity::{sender_identity, MessageSenderIdentity, SenderIdentitySalt};
use morrow::sender_read_recent::{message_text, rows_to_batch};

fn row(values: &[&str]) -> Vec<String> {
    values.iter().map(|value| (*value).to_owned()).collect()
}

fn request() -> NativeReadRequest {
    NativeReadRequest {
        chat_guids: vec!["chat-a".to_owned(), "chat-b".to_owned()],
        since: 978_307_200,
        until: 978_307_300,
    }
}

/// A decoder that reads every body as one text.
struct BodyText(&'static str);

impl AttributedBodyDecoder for BodyText {
    fn decode(&self, _bytes: &Vec<u8>) -> RawAttributedBodyResult {
        RawAttributedBodyResult { ok: 1, error_code: 0, text: self.0.to_owned(), message: String::new() }
    }
}

/// A decoder that fails on every body.
struct BrokenDecoder;

impl AttributedBodyDecoder for BrokenDecoder {
    fn decode(&self, _bytes: &Vec<u8>) -> RawAttributedBodyResult {
        RawAttributedBodyResult { ok: 0, error_code: 2, text: String::new(), message: "too long".to_owned() }
    }
}

fn key_of(identity: &MessageSenderIdentity) -> Option<String> {
    match identity {
        MessageSenderIdentity::Known { key } => Some(key.clone()),
        MessageSenderIdentity::Unknown => None,
    }
}

#[test]
fn plain_text_wins_over_the_attributed_body() {
    assert_eq!(message_text("6869", "0102", &BodyText("body")).expect("text"), "hi");
    assert_eq!(message_text("", "0102", &BodyText("body")).expect("text"), "body");
    assert_eq!(message_text("", "", &BodyText("body")).expect("text"), "");
    assert_eq!(message_text("", "0102", &NoAttributedBodyDecoder).expect("text"), "");
    assert!(message_text("", "0", &BodyText("body")).is_err());
    match message_text("", "0102", &BrokenDecoder) {
        Err(MessagesError::NativeUnavailable { reason }) => assert_eq!(reason, "too long"),
        other => panic!("unexpected result: {other:?}"),
    }
}

#[test]
fn recent_rows_carry_their_senders_and_body_texts() {
    let salt = SenderIdentitySalt::from_bytes([7u8; 32]);
    let rows = vec![
        row(&["chat-b", "1", "2b31", "m1", "10", "6869", "", "5", "2B31"]),
        row(&["chat-a", "2", "61,62", "m2", "20", "", "0102", "", ""]),
        row(&["chat-a", "2", "61", "m4", "500", "78", "", "9", "61"]),
    ];

    let out = rows_to_batch(&rows, &request(), &salt, &BodyText("from body")).expect("read");

    assert_eq!(out.batch.chats.len(), 2);
    assert_eq!(out.batch.chats[0].guid, "chat-a");
    assert_eq!(out.batch.chats[0].messages.len(), 1);
    assert_eq!(out.batch.chats[0].messages[0].text, "from body");
    assert_eq!(out.batch.chats[1].guid, "chat-b");
    assert_eq!(out.batch.chats[1].messages[0].text, "hi");

    assert_eq!(out.sender_identities.len(), 2);
    let (first_key, first_identity) = &out.sender_identities[0];
    assert_eq!(first_key.chat_guid, "chat-b");
    assert_eq!(first_key.message_guid, "m1");
    assert_eq!(key_of(first_identity), key_of(&sender_identity(&salt, "chat-b", "+1")));
    assert!(key_of(first_identity).is_some());
    let (second_key, second_identity) = &out.sender_identities[1];
    assert_eq!(second_key.message_guid, "m2");
    assert!(key_of(second_identity).is_none());
}

#[test]
fn recent_rows_fail_on_a_bad_row_or_a_failed_decode() {
    let salt = SenderIdentitySalt::zero();
    let short = vec![row(&["chat-a", "1", "61", "m1", "20", "6869", ""])];
    assert!(rows_to_batch(&short, &request(), &salt, &NoAttributedBodyDecoder).is_err());
    let bad_sender = vec![row(&["chat-a", "1", "61", "m1", "20", "6869", "", "5", "zz"])];
    assert!(rows_to_batch(&bad_sender, &request(), &salt, &NoAttributedBodyDecoder).is_err());
    let needs_body = vec![row(&["chat-a", "1", "61", "m1", "20", "", "0102", "", ""])];
    assert!(rows_to_batch(&needs_body, &request(), &salt, &BrokenDecoder).is_err());
    let outside = vec![row(&["chat-a", "x", "zz", "m1", "900"])];
    let out = rows_to_batch(&outside, &request(), &salt, &BrokenDecoder).expect("outside the window");
    assert!(out.batch.chats.is_empty());
    assert!(out.sender_identities.is_empty());
}
