use morrow::codex_auth::{append_node_bin_paths, nvm_node_versions_dir};
use morrow::list_intake::{
    aggregate_groups, category_options, ListIntakeAggregateRow, ListIntakeItemDraft, ReportLabels,
    LIST_INTAKE_UNCATEGORIZED_CATEGORY_ID,
};
use morrow::preview::{normalize_message_preview, MESSAGE_PREVIEW_VISIBLE_CHAR_LIMIT};
use morrow::runtime_identity::runtime_identity_from_executable_path;
use morrow::sender_identity::{
    normalize_handle, sender_identity, MessageSenderIdentity, SenderIdentityCache,
    SenderIdentityCacheKey, SenderIdentitySalt,
};

fn row(profile: &str, chat: &str, category: &str, item: &str, quantity: i64) -> ListIntakeAggregateRow {
    ListIntakeAggregateRow {
        profile_id: profile.to_owned(),
        window_local_date: "2026-07-01".to_owned(),
        chat_key: chat.to_owned(),
        sender_label: "Sender 1".to_owned(),
        category_id: category.to_owned(),
        item_name: item.to_owned(),
        total_quantity: quantity,
        unit: None,
    }
}

#[test]
fn distinct_chats_get_distinct_ordinal_labels() {
    let rows = vec![
        row("profile-b", "chat-z", "produce", "apples", 2),
        row("profile-a", "chat-y", "produce", "pears", 1),
        row("profile-a", "chat-x", "dairy", "milk", 1),
    ];
    let labels = ReportLabels::new(&rows, &Vec::new());
    assert_eq!(labels.chat("chat-x"), "Chat 1");
    assert_eq!(labels.chat("chat-y"), "Chat 2");
    assert_eq!(labels.chat("chat-z"), "Chat 3");
    assert_eq!(labels.profile("profile-a"), "Profile 1");
    assert_eq!(labels.profile("profile-b"), "Profile 2");
    assert_ne!(labels.chat("chat-x"), labels.chat("chat-z"));
}

#[test]
fn every_row_lands_in_its_group() {
    let rows = vec![
        row("profile-a", "chat-x", "produce", "apples", 2),
        row("profile-a", "chat-x", "produce", "pears", 1),
        row("profile-a", "chat-x", "dairy", "milk", 1),
    ];
    let labels = ReportLabels::new(&rows, &Vec::new());
    let groups = aggregate_groups(&rows, &labels);
    assert_eq!(groups.len(), 2);
    let items: usize = groups.iter().map(|group| group.items.len()).sum();
    assert_eq!(items, rows.len());
    let produce = groups.iter().find(|group| group.category_label == "Produce").expect("produce");
    let names: Vec<&str> = produce.items.iter().map(|item| item.item_name.as_str()).collect();
    assert_eq!(names, vec!["apples", "pears"]);
}

#[test]
fn offered_categories_include_uncategorized() {
    let items = vec![ListIntakeItemDraft {
        item_name: "milk".to_owned(),
        quantity: 1,
        unit: None,
        category_id: "dairy".to_owned(),
    }];
    let ids: Vec<String> = category_options(&items).into_iter().map(|c| c.category_id).collect();
    assert_eq!(ids, vec!["dairy".to_owned(), LIST_INTAKE_UNCATEGORIZED_CATEGORY_ID.to_owned()]);
}

#[test]
fn previews_are_single_bounded_lines() {
    let long = "word\n\t ".repeat(60);
    let preview = normalize_message_preview(&long);
    assert!(preview.chars().count() <= MESSAGE_PREVIEW_VISIBLE_CHAR_LIMIT + 3);
    assert!(preview.ends_with("..."));
    assert!(!preview.contains('\n') && !preview.contains('\t') && !preview.contains("  "));
    assert_eq!(normalize_message_preview("  see\n\nyou  soon "), "see you soon");
}

#[test]
fn normalized_handles_normalize_to_themselves() {
    let once = normalize_handle("  Foo@Example.COM \n").expect("handle");
    assert_eq!(once, "foo@example.com");
    assert_eq!(normalize_handle(&once), Some(once.clone()));
    let salt = SenderIdentitySalt::zero();
    let spaced = sender_identity(&salt, "chat-1", "  Foo@Example.COM ");
    let plain = sender_identity(&salt, "chat-1", "foo@example.com");
    match (spaced, plain) {
        (MessageSenderIdentity::Known { key: a }, MessageSenderIdentity::Known { key: b }) => {
            assert_eq!(a, b)
        }
        _ => panic!("both handles are known"),
    }
}

#[test]
fn app_bundles_contain_their_executable() {
    let path = "/Applications/Morrow.app/Contents/MacOS/morrow";
    let identity = runtime_identity_from_executable_path(path);
    assert!(path.starts_with(&identity.settings_target_path));
    assert!(identity.settings_target_path.ends_with(".app"));
}

#[test]
fn sender_cache_answers_the_last_row_of_a_message() {
    let mut cache = SenderIdentityCache::new();
    assert!(matches!(cache.get("chat-1", "msg-1"), MessageSenderIdentity::Unknown));
    cache.replace(vec![
        (
            SenderIdentityCacheKey::new("chat-1", "msg-1"),
            MessageSenderIdentity::Known { key: "senderKey-old".to_owned() },
        ),
        (
            SenderIdentityCacheKey::new("chat-1", "msg-2"),
            MessageSenderIdentity::Known { key: "senderKey-2".to_owned() },
        ),
        (
            SenderIdentityCacheKey::new("chat-1", "msg-1"),
            MessageSenderIdentity::Known { key: "senderKey-new".to_owned() },
        ),
    ]);
    match cache.get("chat-1", "msg-1") {
        MessageSenderIdentity::Known { key } => assert_eq!(key, "senderKey-new"),
        MessageSenderIdentity::Unknown => panic!("cached"),
    }
    assert!(matches!(cache.get("chat-2", "msg-1"), MessageSenderIdentity::Unknown));
    cache.replace(Vec::new());
    assert!(matches!(cache.get("chat-1", "msg-2"), MessageSenderIdentity::Unknown));
}

#[test]
fn salts_fall_back_to_zero() {
    let random = SenderIdentitySalt::ephemeral_or_zero(Some([7; 32]));
    let zero = SenderIdentitySalt::ephemeral_or_zero(None);
    let a = sender_identity(&random, "chat-1", "foo@example.com");
    let b = sender_identity(&zero, "chat-1", "foo@example.com");
    let c = sender_identity(&SenderIdentitySalt::zero(), "chat-1", "foo@example.com");
    match (a, b, c) {
        (
            MessageSenderIdentity::Known { key: a },
            MessageSenderIdentity::Known { key: b },
            MessageSenderIdentity::Known { key: c },
        ) => {
            assert_ne!(a, b);
            assert_eq!(b, c);
            assert_eq!(b, "senderKey-a0c91b1039de0d790ca3d8c911d88adf");
        }
        _ => panic!("known"),
    }
}

#[test]
fn node_version_bins_follow_version_order() {
    let home = "/Users/me".to_owned();
    assert_eq!(nvm_node_versions_dir(&home), "/Users/me/.nvm/versions/node");
    let mut paths = vec!["/usr/bin".to_owned()];
    let names = vec!["v20.1.0".to_owned(), "v18.0.0".to_owned(), "v20.1.0".to_owned()];
    append_node_bin_paths(&mut paths, &home, &names);
    assert_eq!(
        paths,
        vec![
            "/usr/bin".to_owned(),
            "/Users/me/.nvm/versions/node/v18.0.0/bin".to_owned(),
            "/Users/me/.nvm/versions/node/v20.1.0/bin".to_owned(),
        ]
    );
}
