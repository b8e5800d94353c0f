use frontend::contacts::{
    bubble_position_class, color_for_name, connected_platforms, email_looks_addable,
    find_exception, initials_for_name, is_platform_ignored, platform_info, platform_label,
    platform_supports_mentions, score_contact, ChannelData, Contact, ContactProfile, PersonData,
    PersonEditData, PersonResponse, ProfileException,
};

fn profile() -> ContactProfile {
    ContactProfile {
        id: 1,
        nickname: "Mom".to_string(),
        notification_mode: "all".to_string(),
        notification_type: "sms".to_string(),
        notify_on_call: true,
        whatsapp_chat: Some("+358401234567".to_string()),
        telegram_chat: Some(String::new()),
        signal_chat: None,
        email_addresses: Some("mom@example.com".to_string()),
        exceptions: vec![
            ProfileException {
                platform: "email".to_string(),
                notification_mode: "ignore".to_string(),
                notification_type: "sms".to_string(),
                notify_on_call: false,
            },
            ProfileException {
                platform: "email".to_string(),
                notification_mode: "all".to_string(),
                notification_type: "call".to_string(),
                notify_on_call: true,
            },
        ],
    }
}

fn contact(name: &str) -> Contact {
    Contact {
        id: "c1".to_string(),
        display_name: name.to_string(),
        subtitle: None,
        platform: Some("whatsapp".to_string()),
        is_group: false,
        source: "whatsapp".to_string(),
    }
}

#[test]
fn avatar_color_follows_the_name_hash() {
    assert_eq!(color_for_name("Anna"), "#6366f1");
    assert_eq!(color_for_name("Bob"), "#3b82f6");
    assert_eq!(color_for_name(""), "#6366f1");
}

#[test]
fn initials_take_the_first_two_words() {
    assert_eq!(initials_for_name("anna maria smith"), "AM");
    assert_eq!(initials_for_name("  bob "), "B");
    assert_eq!(initials_for_name("   "), "?");
    assert_eq!(initials_for_name(""), "?");
}

#[test]
fn platforms_are_listed_in_display_order() {
    let p = platform_info(2);
    assert_eq!(p.key, "signal");
    assert_eq!(p.label, "Signal");
    let list = connected_platforms(&profile());
    let keys: Vec<&str> = list.iter().map(|p| p.key).collect();
    assert_eq!(keys, vec!["whatsapp", "email"]);
    assert_eq!(list[1].color, "#7EB2FF");
}

#[test]
fn bubble_positions_go_round_the_avatar() {
    assert_eq!(bubble_position_class(1, 0), "bubble-pos-br");
    assert_eq!(bubble_position_class(2, 1), "bubble-pos-bl");
    assert_eq!(bubble_position_class(3, 2), "bubble-pos-tr");
    assert_eq!(bubble_position_class(4, 3), "bubble-pos-tl");
    assert_eq!(bubble_position_class(5, 3), "bubble-pos-br");
}

#[test]
fn the_first_exception_for_a_platform_decides() {
    let p = profile();
    let e = find_exception(&p, "email").unwrap();
    assert_eq!(e.notification_mode, "ignore");
    assert!(find_exception(&p, "signal").is_none());
    assert!(is_platform_ignored(&p, "email"));
    assert!(!is_platform_ignored(&p, "whatsapp"));
    let mut q = profile();
    q.notification_mode = "ignore".to_string();
    assert!(is_platform_ignored(&q, "whatsapp"));
}

#[test]
fn contact_scores_rank_exact_prefix_and_substring() {
    assert_eq!(score_contact("anna", &contact("Anna")), Some(3));
    assert_eq!(score_contact("an", &contact("Anna Smith")), Some(2));
    assert_eq!(score_contact("smi", &contact("Anna Smith")), Some(1));
    assert_eq!(score_contact("bob", &contact("Anna Smith")), None);
}

#[test]
fn mentions_and_labels_per_platform() {
    assert!(platform_supports_mentions("whatsapp"));
    assert!(!platform_supports_mentions("telegram"));
    assert_eq!(platform_label("whatsapp"), "WhatsApp");
    assert_eq!(platform_label("email"), "Email");
    assert_eq!(platform_label("discord"), "Discord");
    assert_eq!(platform_label(""), "");
}

#[test]
fn email_needs_an_at_and_a_dotted_domain() {
    assert!(email_looks_addable("  anna@example.com "));
    assert!(!email_looks_addable("anna@example"));
    assert!(!email_looks_addable("anna.example.com"));
    assert!(!email_looks_addable(""));
}

#[test]
fn display_name_prefers_the_first_nickname_edit() {
    let mut p = PersonResponse {
        person: PersonData { id: 7, name: "Anna Smith".to_string() },
        channels: vec![ChannelData { id: 1, platform: "whatsapp".to_string(), handle: None }],
        edits: vec![PersonEditData { property_name: "birthday".to_string(), value: "May".to_string() }],
    };
    assert_eq!(p.display_name(), "Anna Smith");
    p.edits.push(PersonEditData { property_name: "nickname".to_string(), value: "Annie".to_string() });
    p.edits.push(PersonEditData { property_name: "nickname".to_string(), value: "A".to_string() });
    assert_eq!(p.display_name(), "Annie");
}
