use frontend::activity::{
    activity_result_class, batch_id, batch_key, batch_starts, batch_time_range, batch_title,
    classification_line, confirm_offered, date_group_label, date_headings, delivery_badge, detail_line,
    event_id_for_action, format_activity, format_time_ago, full_time, icon_class, relative_time,
    toggle_expanded, type_label, ActivityBody, ActivityEntry, ActivityFeedEntry, ActivityPanel,
    ActivityReply, LocalTime,
};

fn at(weekday: u32, month: u32, day: u32, hours: u32, minutes: u32) -> LocalTime {
    LocalTime { weekday, month, day, hours, minutes }
}

fn entry(id: &str, entry_type: &str, detail: Option<&str>, success: Option<bool>) -> ActivityFeedEntry {
    ActivityFeedEntry {
        id: id.to_string(),
        entry_type: entry_type.to_string(),
        timestamp: 1_000_000,
        title: "Title".to_string(),
        detail: detail.map(|d| d.to_string()),
        icon: "fa-bell".to_string(),
        success,
        classification_prompt: None,
        classification_result: None,
        urgency: None,
        category: None,
    }
}

fn activity(t: &str, reason: Option<&str>) -> ActivityEntry {
    ActivityEntry {
        id: 1,
        activity_type: t.to_string(),
        created_at: 0,
        reason: reason.map(|r| r.to_string()),
        success: Some(true),
    }
}

#[test]
fn day_groups_name_today_yesterday_weekday_or_date() {
    let now = 10 * 86400;
    let local = at(3, 4, 17, 9, 5);
    assert_eq!(date_group_label(now - 100, now, local), "Today");
    assert_eq!(date_group_label(now - 86400 - 5, now, local), "Yesterday");
    assert_eq!(date_group_label(now - 3 * 86400, now, local), "Wed");
    assert_eq!(date_group_label(now - 8 * 86400, now, local), "May 17");
    assert_eq!(date_group_label(now + 100, now, local), "Today");
}

#[test]
fn relative_time_counts_minutes_then_hours_then_clock() {
    let now = 100_000;
    let local = at(1, 0, 1, 15, 0);
    assert_eq!(relative_time(now - 30, now, local), "just now");
    assert_eq!(relative_time(now - 125, now, local), "2m ago");
    assert_eq!(relative_time(now - 7300, now, local), "2h ago");
    assert_eq!(relative_time(now - 90_000, now, local), "3pm");
    assert_eq!(relative_time(now - 90_000, now, at(1, 0, 1, 0, 7)), "12:07am");
}

#[test]
fn full_time_shows_month_day_and_clock() {
    assert_eq!(full_time(at(2, 11, 3, 13, 9)), "Dec 3, 1:09pm");
    assert_eq!(full_time(at(2, 0, 21, 0, 0)), "Jan 21, 12:00am");
}

#[test]
fn batch_keys_join_type_and_detail() {
    assert_eq!(batch_key(&entry("a", "message", Some("From Anna"), None)), "message|From Anna");
    assert_eq!(batch_key(&entry("a", "message", None, None)), "message|");
}

#[test]
fn batches_break_on_key_or_day_change() {
    let keys: Vec<String> = vec!["a", "a", "b", "b", "b"].into_iter().map(String::from).collect();
    let labels: Vec<String> =
        vec!["Today", "Today", "Today", "Yesterday", "Yesterday"].into_iter().map(String::from).collect();
    assert_eq!(batch_starts(&keys, &labels), vec![0, 2, 3]);
    assert_eq!(batch_starts(&Vec::new(), &Vec::new()), Vec::<usize>::new());
}

#[test]
fn icons_labels_and_event_ids() {
    assert_eq!(icon_class(&entry("a", "message", None, Some(false))), "feed-icon type-message failed");
    assert_eq!(icon_class(&entry("a", "message", None, Some(true))), "feed-icon type-message");
    assert_eq!(type_label("changelog"), "System change");
    assert_eq!(type_label("tracked_item"), "Tracked item");
    assert_eq!(type_label("whatever"), "Event");
    assert_eq!(event_id_for_action(&entry("event-42", "tracked_item", None, None)), Some(42));
    assert_eq!(event_id_for_action(&entry("event-42", "message", None, None)), None);
    assert_eq!(event_id_for_action(&entry("event-x", "proposed_item", None, None)), None);
}

#[test]
fn batch_titles_ranges_and_ids() {
    assert_eq!(batch_title("New message", 3), "New message (3x)");
    assert_eq!(batch_time_range("5m ago", "5m ago"), "5m ago");
    assert_eq!(batch_time_range("5m ago", "2h ago"), "2h ago - 5m ago");
    assert_eq!(batch_id("e1"), "batch-e1");
}

#[test]
fn activities_are_described_by_type() {
    assert_eq!(format_activity(&activity("digest", None)), "Sent morning digest");
    assert_eq!(format_activity(&activity("sms", Some("Bus leaves"))), "SMS notification: Bus leaves");
    assert_eq!(format_activity(&activity("call", None)), "Made voice call");
    assert_eq!(format_activity(&activity("email_priority", None)), "Email notification");
    assert_eq!(format_activity(&activity("whatsapp_critical", Some("x"))), "WhatsApp alert: x");
    assert_eq!(format_activity(&activity("reminder", Some("Dentist"))), "Dentist");
    assert_eq!(format_activity(&activity("custom_thing_here", None)), "custom thing here");
}

#[test]
fn time_ago_counts_minutes_hours_days() {
    assert_eq!(format_time_ago(1000, 1030), "just now");
    assert_eq!(format_time_ago(1000, 1000 + 600), "10m ago");
    assert_eq!(format_time_ago(1000, 1000 + 7200), "2h ago");
    assert_eq!(format_time_ago(1000, 1000 + 3 * 86400), "3d ago");
}

#[test]
fn entry_lines_and_badges() {
    assert_eq!(detail_line(&Some("x".to_string()), Some(false)), Some("x".to_string()));
    assert_eq!(
        detail_line(&None, Some(false)),
        Some("Delivery failed - check notification settings".to_string())
    );
    assert_eq!(detail_line(&None, Some(true)), None);
    assert_eq!(classification_line(&None, &None), None);
    assert_eq!(classification_line(&Some("high".to_string()), &None), Some("high / -".to_string()));
    assert_eq!(
        classification_line(&None, &Some("family".to_string())),
        Some("- / family".to_string())
    );
    assert_eq!(delivery_badge(Some(true)), Some("Delivered"));
    assert_eq!(delivery_badge(Some(false)), Some("Failed"));
    assert_eq!(delivery_badge(None), None);
    assert_eq!(activity_result_class(Some(false)), "failed");
    assert_eq!(activity_result_class(None), "");
}

#[test]
fn expanding_twice_closes_again() {
    let once = toggle_expanded(&None, "e1");
    assert_eq!(once, Some("e1".to_string()));
    assert_eq!(toggle_expanded(&once, "e1"), None);
    assert_eq!(toggle_expanded(&once, "e2"), Some("e2".to_string()));
}

#[test]
fn activity_panel_walks_through_its_states() {
    let mut p = ActivityPanel::new();
    assert_eq!(p.body(), ActivityBody::Loading);
    p.on_reply(ActivityReply::Loaded(Vec::new()));
    assert_eq!(p.body(), ActivityBody::Empty);
    p.on_open();
    p.on_reply(ActivityReply::Unreachable);
    assert_eq!(p.body(), ActivityBody::Error);
    assert_eq!(p.error.as_deref(), Some("Failed to load activity"));
    p.on_open();
    p.on_reply(ActivityReply::Loaded(vec![activity("sms", None)]));
    assert_eq!(p.body(), ActivityBody::List);
}

#[test]
fn headings_show_where_the_day_group_changes() {
    let labels: Vec<String> = vec!["Today", "Today", "Yesterday", ""].into_iter().map(String::from).collect();
    assert_eq!(date_headings(&labels), vec![true, false, true, true]);
    let empty_first: Vec<String> = vec!["", ""].into_iter().map(String::from).collect();
    assert_eq!(date_headings(&empty_first), vec![false, false]);
}

#[test]
fn confirm_is_offered_only_for_proposed_items() {
    assert!(confirm_offered(&entry("event-42", "proposed_item", None, None)));
    assert!(!confirm_offered(&entry("event-42", "tracked_item", None, None)));
    assert!(!confirm_offered(&entry("event-x", "proposed_item", None, None)));
    assert_eq!(event_id_for_action(&entry("event-42", "tracked_item", None, None)), Some(42));
}
