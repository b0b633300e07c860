use morrow::list_intake::{
    aggregate_groups, allowed_category_ids, category_label, category_options, proposal_commands,
    review_report, storage_decision, title_case_ascii, ListIntakeAggregateRow,
    ListIntakeDecisionRequest, ListIntakeItemDraft, ListIntakeProposalDecision,
    ListIntakeReviewItem, ListIntakeReviewProposal, ReportLabels,
};

fn agg(profile: &str, date: &str, chat: &str, sender: &str, category: &str, item: &str, qty: i64) -> ListIntakeAggregateRow {
    ListIntakeAggregateRow {
        profile_id: profile.to_owned(),
        window_local_date: date.to_owned(),
        chat_key: chat.to_owned(),
        sender_label: sender.to_owned(),
        category_id: category.to_owned(),
        item_name: item.to_owned(),
        total_quantity: qty,
        unit: None,
    }
}

fn draft(item: &str, category: &str) -> ListIntakeItemDraft {
    ListIntakeItemDraft {
        item_name: item.to_owned(),
        quantity: 2,
        unit: Some("kg".to_owned()),
        category_id: category.to_owned(),
    }
}

fn proposal(id: &str, profile: &str, chat: &str, items: Vec<ListIntakeItemDraft>) -> ListIntakeReviewProposal {
    ListIntakeReviewProposal {
        proposal_id: id.to_owned(),
        profile_id: profile.to_owned(),
        chat_key: chat.to_owned(),
        sender_label: "Sender 1".to_owned(),
        items,
    }
}

#[test]
fn category_labels_title_case_the_id_parts() {
    assert_eq!(category_label("uncategorized"), "Uncategorized");
    assert_eq!(category_label("fresh-produce_and--DAIRY"), "Fresh Produce And Dairy");
    assert_eq!(category_label("__"), "");
    assert_eq!(title_case_ascii("sEAFOOD"), "Seafood");
    assert_eq!(title_case_ascii("\u{e9}clair"), "\u{c9}clair");
    assert_eq!(title_case_ascii(""), "");
}

#[test]
fn labels_number_profiles_and_chats_in_sorted_order() {
    let rows = vec![agg("p-b", "2026-07-01", "chat-z", "S", "fish", "salmon", 3)];
    let proposals = vec![proposal("prop-1", "p-a", "chat-y", Vec::new())];
    let labels = ReportLabels::new(&rows, &proposals);
    assert_eq!(labels.profile("p-a"), "Profile 1");
    assert_eq!(labels.profile("p-b"), "Profile 2");
    assert_eq!(labels.profile("unknown"), "Profile 1");
    assert_eq!(labels.chat("chat-y"), "Chat 1");
    assert_eq!(labels.chat("chat-z"), "Chat 2");
}

#[test]
fn category_options_always_offer_uncategorized() {
    let options = category_options(&vec![draft("salmon", "fish"), draft("anchovy", "fish"), draft("milk", "dairy")]);
    let ids: Vec<&str> = options.iter().map(|o| o.category_id.as_str()).collect();
    assert_eq!(ids, vec!["dairy", "fish", "uncategorized"]);
    assert_eq!(options[1].label, "Fish");
    assert_eq!(options[2].label, "Uncategorized");
}

#[test]
fn allowed_categories_exclude_uncategorized() {
    let proposals = vec![
        proposal("p1", "prof", "chat", vec![draft("a", "uncategorized"), draft("b", "fish"), draft("c", "dairy"), draft("d", "fish")]),
    ];
    assert_eq!(
        allowed_category_ids(&proposals, "p1"),
        Ok(vec!["dairy".to_owned(), "fish".to_owned()])
    );
    assert_eq!(
        allowed_category_ids(&proposals, "missing"),
        Err("proposal_id: proposal not found".to_owned())
    );
}

#[test]
fn decisions_carry_edits_or_rejections() {
    let proposals = vec![proposal("p1", "prof", "chat", vec![draft("b", "fish")])];
    let edited = ListIntakeReviewItem {
        item_name: "salmon".to_owned(),
        quantity: 4,
        unit: None,
        category_id: "fish".to_owned(),
        category_label: "Fish".to_owned(),
    };
    match storage_decision(
        &proposals,
        ListIntakeDecisionRequest::ApproveEdited {
            proposal_id: "p1".to_owned(),
            items: vec![edited],
        },
        77,
    ) {
        Ok(ListIntakeProposalDecision::ApproveEdited {
            proposal_id,
            items,
            allowed_category_ids,
            decided_at,
        }) => {
            assert_eq!(proposal_id, "p1");
            assert_eq!(items.len(), 1);
            assert_eq!(items[0].item_name, "salmon");
            assert_eq!(items[0].quantity, 4);
            assert_eq!(allowed_category_ids, vec!["fish".to_owned()]);
            assert_eq!(decided_at, 77);
        }
        _ => panic!("approval not stored"),
    }
    match storage_decision(
        &proposals,
        ListIntakeDecisionRequest::Reject {
            proposal_id: "p9".to_owned(),
        },
        5,
    ) {
        Ok(ListIntakeProposalDecision::Reject {
            proposal_id,
            decided_at,
        }) => {
            assert_eq!(proposal_id, "p9");
            assert_eq!(decided_at, 5);
        }
        _ => panic!("rejection not stored"),
    }
    assert!(storage_decision(
        &proposals,
        ListIntakeDecisionRequest::ApproveEdited {
            proposal_id: "p9".to_owned(),
            items: Vec::new(),
        },
        5,
    )
    .is_err());
}

#[test]
fn aggregates_group_by_their_fields_in_order() {
    let rows = vec![
        agg("p1", "2026-07-02", "c1", "S", "fish", "salmon", 3),
        agg("p1", "2026-07-01", "c1", "S", "fish", "anchovy", 2),
        agg("p1", "2026-07-02", "c1", "S", "fish", "tuna", 1),
    ];
    let labels = ReportLabels::new(&rows, &Vec::new());
    let groups = aggregate_groups(&rows, &labels);
    assert_eq!(groups.len(), 2);
    assert_eq!(groups[0].local_date, "2026-07-01");
    assert_eq!(groups[0].profile_name, "Profile 1");
    assert_eq!(groups[0].chat_label, "Chat 1");
    assert_eq!(groups[0].category_label, "Fish");
    assert_eq!(groups[0].output_policy, "aggregateOnly");
    assert_eq!(groups[0].items.len(), 1);
    assert_eq!(groups[0].items[0].item_name, "anchovy");
    assert_eq!(groups[1].items.len(), 2);
    assert_eq!(groups[1].items[0].item_name, "salmon");
    assert_eq!(groups[1].items[1].item_name, "tuna");
    assert_eq!(groups[1].items[1].quantity, 1);
}

#[test]
fn report_labels_proposals_and_groups_together() {
    let rows = vec![agg("p2", "2026-07-01", "c2", "S", "fish", "salmon", 3)];
    let proposals = vec![proposal("prop", "p1", "c2", vec![draft("milk", "dairy")])];
    let report = review_report(&rows, &proposals, 1_782_705_142);
    assert_eq!(report.generated_at_unix_seconds, 1_782_705_142);
    assert_eq!(report.aggregates[0].profile_name, "Profile 2");
    assert_eq!(report.proposals[0].profile_name, "Profile 1");
    assert_eq!(report.proposals[0].chat_label, "Chat 1");
    assert_eq!(report.proposals[0].items[0].category_label, "Dairy");
    assert_eq!(report.proposals[0].categories.len(), 2);
    let labels = ReportLabels::new(&rows, &proposals);
    assert_eq!(proposal_commands(&proposals, &labels)[0].proposal_id, "prop");
}
