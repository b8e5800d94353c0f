use frontend::items::{
    badge_label, clean_description, extract_sender, hidden_count, monitor_card_text, monitor_topic, monitors_to_show,
    offers_show_less, partition_items, platform_visual, tracking_line, visible_count, when_text, AttentionItem,
};

fn item(desc: &str, monitor: bool) -> AttentionItem {
    AttentionItem {
        description: desc.to_string(),
        monitor,
        time_display: None,
        relative_display: None,
        next_check_at: None,
        sender: None,
        platform: None,
        notify: None,
    }
}

#[test]
fn visuals_prefer_the_tag() {
    let v = platform_visual(Some("email"), "whatsapp message");
    assert_eq!(v.name, "Email");
    assert!(!v.is_chat);
    let v = platform_visual(None, "Watch WHATSAPP chats");
    assert_eq!(v.name, "WhatsApp");
    assert_eq!(v.color, "#25D366");
    let v = platform_visual(Some("sms"), "nothing");
    assert_eq!(v.name, "Monitor");
}

#[test]
fn descriptions_lose_their_prefixes() {
    assert_eq!(clean_description("  Remind the user to call mom "), "Call mom");
    assert_eq!(clean_description("Check weather and notify the user if rain"), "Rain");
    assert_eq!(clean_description("Remind user to  "), "Remind user to");
    assert_eq!(clean_description("Buy milk"), "Buy milk");
}

#[test]
fn senders_from_descriptions() {
    assert_eq!(extract_sender("Watch messages from Anna and call"), Some("Anna".to_string()));
    assert_eq!(extract_sender("Email from Bob Smith."), Some("Bob Smith".to_string()));
    assert_eq!(extract_sender("no sender here"), None);
}

#[test]
fn monitor_topics() {
    assert_eq!(monitor_topic("Watch for WhatsApp messages from Anna about the trip.", Some("Anna")), "The trip");
    assert_eq!(monitor_topic("Monitor: Emails about invoices and notify the user", None), "Invoices");
    assert_eq!(monitor_topic("Watch for ", None), "Watch for");
    assert_eq!(monitor_topic("Watch for about .", None), "");
}

#[test]
fn items_split_and_monitors_dedupe() {
    let mut a = item("a", false);
    a.relative_display = Some("overdue".to_string());
    let b = item("b", false);
    let mut m1 = item("Watch for messages from Anna", true);
    m1.next_check_at = Some(50);
    let mut m2 = item("Email from Anna.", true);
    m2.next_check_at = Some(10);
    let mut m3 = item("Watch for emails", true);
    m3.next_check_at = None;
    let items = vec![a, b, m1, m2, m3];
    let (overdue, scheduled) = partition_items(&items);
    assert_eq!(overdue, vec![0]);
    assert_eq!(scheduled, vec![1]);
    assert_eq!(monitors_to_show(&items), vec![3, 4]);
}

#[test]
fn show_more_counts() {
    assert_eq!(hidden_count(5, false), 2);
    assert_eq!(hidden_count(5, true), 0);
    assert_eq!(hidden_count(2, false), 0);
    assert_eq!(visible_count(5, false), 3);
    assert_eq!(visible_count(5, true), 5);
    assert!(offers_show_less(5, true));
    assert!(!offers_show_less(3, true));
}

#[test]
fn item_texts() {
    assert_eq!(when_text(&Some("3pm".to_string()), &Some("in 2h".to_string())), "3pm - in 2h");
    assert_eq!(when_text(&None, &Some("in 2h".to_string())), "in 2h");
    assert_eq!(when_text(&None, &None), "");
    assert_eq!(badge_label(Some("call")), Some("call"));
    assert_eq!(badge_label(Some("email")), None);
    assert_eq!(tracking_line(1, false), Some("Tracking 1 item - all on schedule".to_string()));
    assert_eq!(tracking_line(4, false), Some("Tracking 4 items - all on schedule".to_string()));
    assert_eq!(tracking_line(4, true), None);
    let mut m = item("Watch for WhatsApp messages from Anna about the trip.", true);
    m.platform = Some("whatsapp".to_string());
    m.sender = Some("Anna".to_string());
    let (sender, detail) = monitor_card_text(&m);
    assert_eq!(sender, "Anna");
    assert_eq!(detail, "WhatsApp - The trip");
    let m = item("Watch for emails", true);
    let (sender, detail) = monitor_card_text(&m);
    assert_eq!(sender, "Email");
    assert_eq!(detail, "Emails");
}
