use morrow::preview::{
    normalize_message_preview, MessagesPreviewCommandChat, MessagesPreviewCommandReport,
};

#[test]
fn preview_collapses_whitespace() {
    assert_eq!(
        normalize_message_preview("  hello \n\t world  "),
        "hello world"
    );
    assert_eq!(normalize_message_preview(""), "");
    assert_eq!(normalize_message_preview(" \n "), "");
}

#[test]
fn preview_cuts_long_text_at_the_limit() {
    let text = "a".repeat(121);
    assert_eq!(normalize_message_preview(&text), format!("{}...", "a".repeat(120)));
    let exact = "b".repeat(120);
    assert_eq!(normalize_message_preview(&exact), exact);
    let spaced = format!("{} {}", "c".repeat(119), "d".repeat(10));
    assert_eq!(
        normalize_message_preview(&spaced),
        format!("{}...", "c".repeat(119))
    );
}

#[test]
fn preview_limit_counts_characters_not_bytes() {
    let text = "\u{e9}".repeat(120);
    assert_eq!(normalize_message_preview(&text), text);
}

#[test]
fn report_and_chat_constructors() {
    assert!(MessagesPreviewCommandReport::empty().chats.is_empty());
    let chat = MessagesPreviewCommandChat::new("chat-1".to_owned(), "hi".to_owned());
    assert_eq!(chat.chat_id, "chat-1");
    assert_eq!(chat.preview, "hi");
}
