use frontend::dismissed::{dismiss_message, parse_dismissed_ids};
use frontend::overview::{
    connection_hint, digest_count_line, digest_description, digest_times, event_detail_view, expand_event,
    has_auto, is_setup_mode, linked_message_line, own_number_note, reply_prefill, settings_tab_for, split_chars,
    time_or_not_set, visible_action_items, ActionItemResponse, DigestSettings, EventDetailView, OwnNumberNote, SettingsTab,
};

fn item(id: i64) -> ActionItemResponse {
    ActionItemResponse {
        message_id: id,
        person_name: "Ann".to_string(),
        platform: "signal".to_string(),
        preview: "hi".to_string(),
        timestamp: 0,
        person_id: None,
    }
}

#[test]
fn digest_times_are_validated_and_cleaned() {
    assert_eq!(digest_times(" 08:00 , 12:30,,19:05 "), Some("08:00,12:30,19:05".to_string()));
    assert_eq!(digest_times("+8:+0"), Some("+8:+0".to_string()));
    assert_eq!(digest_times(""), None);
    assert_eq!(digest_times(" , "), None);
    assert_eq!(digest_times("24:00"), None);
    assert_eq!(digest_times("23:60"), None);
    assert_eq!(digest_times("8"), None);
    assert_eq!(digest_times("8:00:00"), None);
    assert_eq!(digest_times("-1:00"), None);
    assert_eq!(digest_times("08: 00"), None);
    assert_eq!(digest_times("99999999999999999999:00"), None);
}

#[test]
fn splitting_keeps_empty_pieces() {
    let cs: Vec<char> = "a,,b,".chars().collect();
    let parts: Vec<String> = split_chars(&cs, ',').iter().map(|p| p.iter().collect()).collect();
    assert_eq!(parts, vec!["a", "", "b", ""]);
    let empty: Vec<char> = Vec::new();
    assert_eq!(split_chars(&empty, ',').len(), 1);
}

#[test]
fn action_items_skip_dismissed_ones() {
    let out = visible_action_items(vec![item(1), item(2), item(3)], &vec![2, 7]);
    assert_eq!(out.iter().map(|i| i.message_id).collect::<Vec<_>>(), vec![1, 3]);
    assert_eq!(digest_count_line(1), "1 message in your next digest");
    assert_eq!(digest_count_line(4), "4 messages in your next digest");
    assert_eq!(reply_prefill("Ann", "signal"), "Reply to Ann on signal: ");
}

#[test]
fn plans_and_modes() {
    assert!(has_auto(&Some("autopilot".to_string())));
    assert!(has_auto(&Some("byot".to_string())));
    assert!(!has_auto(&Some("assistant".to_string())));
    assert!(!has_auto(&None));
    assert!(is_setup_mode(false, false, false));
    assert!(!is_setup_mode(false, true, false));
    assert_eq!(own_number_note(&Some("byot".to_string()), true, false), Some(OwnNumberNote::SetupNeeded));
    assert_eq!(own_number_note(&Some("byot".to_string()), true, true), Some(OwnNumberNote::Active));
    assert_eq!(own_number_note(&None, true, true), None);
    assert_eq!(connection_hint(false, true), Some("Connect a messaging app. "));
    assert_eq!(connection_hint(true, false), Some("Connect your email. "));
    assert_eq!(connection_hint(true, true), None);
    assert_eq!(digest_description(false, ""), "Medium-priority messages collected and delivered periodically.");
    assert_eq!(digest_description(true, ""), "Auto-scheduled based on your activity patterns.");
    assert_eq!(digest_description(true, "08:00"), "Delivering at your custom times.");
}

#[test]
fn settings_links_and_events() {
    assert_eq!(settings_tab_for("Connections"), Some(SettingsTab::Capabilities));
    assert_eq!(settings_tab_for("BILLING"), Some(SettingsTab::Billing));
    assert_eq!(settings_tab_for("account"), Some(SettingsTab::Account));
    assert_eq!(settings_tab_for("other"), None);
    assert_eq!(event_detail_view(true, Some(3)), EventDetailView::Loading);
    assert_eq!(event_detail_view(false, Some(0)), EventDetailView::NoMessages);
    assert_eq!(event_detail_view(false, Some(2)), EventDetailView::Messages);
    assert_eq!(event_detail_view(false, None), EventDetailView::NotLoaded);
    assert_eq!(expand_event(Some(1), 1, false, false), (None, false));
    assert_eq!(expand_event(Some(1), 2, false, false), (Some(2), true));
    assert_eq!(expand_event(None, 2, true, false), (Some(2), false));
    assert_eq!(linked_message_line("Ann", "signal", "t"), "Ann · signal · t");
    assert_eq!(time_or_not_set(None), "Not set");
}

#[test]
fn a_dismissed_message_disappears_from_the_list() {
    let stored = dismiss_message("3", 7);
    let ids = parse_dismissed_ids(&stored);
    let shown = visible_action_items(vec![item(3), item(7), item(9)], &ids);
    let shown_ids: Vec<i64> = shown.iter().map(|i| i.message_id).collect();
    assert_eq!(shown_ids, vec![9]);
}

#[test]
fn digest_settings_switch_and_save_custom_times() {
    let mut d = DigestSettings::new(None, Some(true), Some("08:00".to_string()));
    assert!(!d.critical_enabled);
    assert!(d.digest_enabled);
    assert!(d.show_custom);
    assert!(d.toggle_critical());
    assert!(!d.toggle_digest());
    d.choose_custom();
    assert_eq!(d.custom_input, "08:00");
    d.set_custom_input("7:5, 25:00".to_string());
    assert_eq!(d.save_custom(), None);
    assert_eq!(d.digest_time, "08:00");
    d.set_custom_input(" 7:05 ,, 19:30 ".to_string());
    assert_eq!(d.save_custom(), Some("7:05,19:30".to_string()));
    assert_eq!(d.digest_time, "7:05,19:30");
    d.choose_auto();
    assert!(!d.show_custom);
    assert_eq!(d.digest_time, "");
}
