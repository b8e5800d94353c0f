use frontend::attention::{ConnectionState, DashboardAttentionState, RemovalKind};
use frontend::home::{
    bridge_name, connections_checking, preference_field, record_bridge, record_email, record_integration,
    removal_kind_for_wait, removal_path, removal_prompt, remove_reminder, remove_wait, sort_by_time, status_copy,
    toggle_text, upcoming_reminders, value_sentence, wait_label, watching_line, with_created, ActiveWait, Bridge,
    DashboardValueStats, HomePanel, PendingRemoval, Preference, PreferenceToggle, QuickPanel, ReminderDialog,
    ServiceStatus, StatusAnswer, UpcomingReminder,
};
use frontend::media::MediaItem;

fn reminder(id: i32, at: Option<i32>) -> UpcomingReminder {
    UpcomingReminder { id, description: format!("r{}", id), remind_at: at }
}

fn wait(id: i32, kind: &str) -> ActiveWait {
    ActiveWait { id, kind: kind.to_string(), description: format!("w{}", id), expires_at: 100 }
}

fn ids(v: &[UpcomingReminder]) -> Vec<i32> {
    v.iter().map(|r| r.id).collect()
}

#[test]
fn upcoming_keeps_future_reminders_sorted_and_stable() {
    let events = vec![
        reminder(1, Some(50)),
        reminder(2, Some(5)),
        reminder(3, None),
        reminder(4, Some(20)),
        reminder(5, Some(20)),
        reminder(6, Some(10)),
    ];
    let out = upcoming_reminders(events, 10);
    assert_eq!(ids(&out), vec![6, 4, 5, 1]);
}

#[test]
fn sorting_puts_missing_times_first() {
    let out = sort_by_time(vec![reminder(1, Some(3)), reminder(2, None), reminder(3, Some(1)), reminder(4, None)]);
    assert_eq!(ids(&out), vec![2, 4, 3, 1]);
    let out = with_created(vec![reminder(1, Some(1)), reminder(2, Some(9))], reminder(3, Some(5)));
    assert_eq!(ids(&out), vec![1, 3, 2]);
}

#[test]
fn removals_filter_their_lists() {
    let out = remove_reminder(vec![reminder(1, Some(1)), reminder(2, Some(2)), reminder(1, Some(3))], 1);
    assert_eq!(ids(&out), vec![2]);
    let waits = vec![wait(1, "reply_watch"), wait(1, "quiet"), wait(2, "topic")];
    let out = remove_wait(waits.clone(), 1, RemovalKind::Suppression);
    assert_eq!(out.iter().map(|w| w.kind.clone()).collect::<Vec<_>>(), vec!["reply_watch", "topic"]);
    let out = remove_wait(waits, 1, RemovalKind::ReplyWatch);
    assert_eq!(out.iter().map(|w| w.kind.clone()).collect::<Vec<_>>(), vec!["quiet", "topic"]);
}

#[test]
fn wait_labels_and_paths() {
    assert_eq!(wait_label("reply_watch"), "Reply wait");
    assert_eq!(wait_label("quiet"), "Quiet mode");
    assert_eq!(wait_label("topic"), "Ignored topic");
    assert_eq!(wait_label("other"), "Active wait");
    assert_eq!(removal_kind_for_wait("reply_watch"), RemovalKind::ReplyWatch);
    assert_eq!(removal_kind_for_wait("quiet"), RemovalKind::Suppression);
    assert_eq!(removal_path(RemovalKind::Reminder, 7), "/api/dashboard/reminders/7");
    assert_eq!(removal_path(RemovalKind::ReplyWatch, -3), "/api/dashboard/reply-watches/-3");
    assert_eq!(removal_path(RemovalKind::Suppression, 12), "/api/dashboard/suppressions/12");
    assert_eq!(removal_prompt(RemovalKind::ReplyWatch), "Lightfriend will stop waiting for this reply.");
}

#[test]
fn status_copy_for_each_state() {
    let c = status_copy(DashboardAttentionState::Healthy, &None);
    assert_eq!(c.label, "Working quietly");
    assert_eq!(c.class, "");
    assert_eq!(c.description, None);
    let c = status_copy(DashboardAttentionState::IntegrationIssue, &Some("signal needs reconnecting".to_string()));
    assert_eq!(c.title, "A connected service needs attention.");
    assert_eq!(c.description, Some("signal needs reconnecting".to_string()));
    let c = status_copy(DashboardAttentionState::IntegrationIssue, &None);
    assert_eq!(c.description, Some("Open Connections to reconnect it.".to_string()));
    let c = status_copy(DashboardAttentionState::WhatsappRiskSoon, &None);
    assert_eq!(c.label, "At risk soon");
    assert_eq!(c.class, "waiting");
}

#[test]
fn value_and_watching_lines() {
    let stats = DashboardValueStats {
        period_label: "This week".to_string(),
        quieted_messages: 42,
        interruptions_sent: 1,
        quiet_percent: Some(97),
    };
    assert_eq!(value_sentence(&stats), "This week: 42 messages left quiet (97%) and 1 interruption.");
    let stats = DashboardValueStats { quiet_percent: None, interruptions_sent: 3, ..stats };
    assert_eq!(value_sentence(&stats), "This week: 42 messages left quiet and 3 interruptions.");
    let mut c = connections_checking();
    c.whatsapp = true;
    c.email = true;
    assert_eq!(watching_line(&c), "Watching WhatsApp, Email.");
}

#[test]
fn reading_connection_status() {
    let mut c = connections_checking();
    assert!(c.loaded);
    record_bridge(
        &mut c,
        Bridge::Signal,
        StatusAnswer::Read(ServiceStatus {
            connected: Some(false),
            status: Some("error".to_string()),
            linked_device_attention: Some("x".to_string()),
        }),
    );
    assert!(c.available);
    assert!(!c.signal);
    assert_eq!(c.core_issue, Some("signal needs reconnecting".to_string()));
    assert_eq!(c.whatsapp_linked_device_attention, None);
    record_bridge(
        &mut c,
        Bridge::WhatsApp,
        StatusAnswer::Read(ServiceStatus {
            connected: Some(true),
            status: None,
            linked_device_attention: Some("risk_soon".to_string()),
        }),
    );
    assert!(c.whatsapp);
    assert_eq!(c.whatsapp_linked_device_attention, Some("risk_soon".to_string()));
    record_bridge(&mut c, Bridge::Telegram, StatusAnswer::Failed);
    assert!(c.core_check_failed);
    record_email(
        &mut c,
        StatusAnswer::Read(ServiceStatus { connected: Some(true), status: None, linked_device_attention: None }),
    );
    assert!(c.email);
    record_integration(&mut c, QuickPanel::Tesla, StatusAnswer::Unreadable);
    assert!(!c.tesla);
    record_integration(
        &mut c,
        QuickPanel::YouTube,
        StatusAnswer::Read(ServiceStatus { connected: Some(true), status: None, linked_device_attention: None }),
    );
    assert!(c.youtube);
    assert_eq!(bridge_name(Bridge::Telegram), "telegram");
}

#[test]
fn not_connected_status_is_no_issue() {
    let mut c = connections_checking();
    record_bridge(
        &mut c,
        Bridge::Telegram,
        StatusAnswer::Read(ServiceStatus {
            connected: None,
            status: Some("not_connected".to_string()),
            linked_device_attention: None,
        }),
    );
    assert_eq!(c.core_issue, None);
    assert!(c.available);
}

#[test]
fn reminder_dialog_flow() {
    let mut h = HomePanel::new(false, true, "2030-01-01T10:00".to_string());
    h.open_create("2030-01-01T10:05".to_string());
    assert_eq!(h.dialog, Some(ReminderDialog::Create));
    assert_eq!(h.submit_reminder(Some("2030-01-01T10:05:00.000Z".to_string())), None);
    assert_eq!(h.error, Some("Enter what you want to be reminded about.".to_string()));
    h.set_message("  call mom ".to_string());
    assert_eq!(h.submit_reminder(None), None);
    assert_eq!(h.error, Some("Choose a valid date and time.".to_string()));
    h.set_at(" 2030-01-01T10:06 ".to_string());
    assert_eq!(h.trimmed_at(), "2030-01-01T10:06");
    let sent = h.submit_reminder(Some("iso".to_string()));
    assert_eq!(sent, Some(("call mom".to_string(), "iso".to_string())));
    assert!(h.saving);
    assert_eq!(h.submit_reminder(Some("iso".to_string())), None);
    h.close_dialog();
    assert_eq!(h.dialog, Some(ReminderDialog::Create));
    h.on_created(None);
    assert_eq!(
        h.error,
        Some("Could not create that reminder. Choose a time at least one minute ahead.".to_string())
    );
    h.on_created(Some(reminder(9, Some(100))));
    assert_eq!(h.dialog, None);
    assert_eq!(ids(&h.reminders), vec![9]);
}

#[test]
fn removal_dialog_flow() {
    let mut h = HomePanel::new(false, false, String::new());
    assert_eq!(h.value_line(), None);
    let stats = DashboardValueStats {
        period_label: "Today".to_string(),
        quieted_messages: 12,
        interruptions_sent: 1,
        quiet_percent: Some(92),
    };
    h.on_summary(stats.clone(), vec![reminder(1, Some(100)), reminder(2, Some(50))], vec![wait(5, "quiet")], 10);
    assert_eq!(h.value_stats, Some(stats));
    assert_eq!(h.value_line(), Some("Today: 12 messages left quiet (92%) and 1 interruption.".to_string()));
    assert_eq!(ids(&h.reminders), vec![2, 1]);
    assert_eq!(h.confirm_removal(), None);
    h.ask_to_remove(PendingRemoval { id: 2, kind: RemovalKind::Reminder, description: "r2".to_string() });
    assert_eq!(h.confirm_removal(), Some("/api/dashboard/reminders/2".to_string()));
    h.on_removed(2, RemovalKind::Reminder, false);
    assert_eq!(h.error, Some("Could not remove that item. Try again.".to_string()));
    h.on_removed(2, RemovalKind::Reminder, true);
    assert_eq!(ids(&h.reminders), vec![1]);
    assert_eq!(h.dialog, None);
    h.on_removed(5, RemovalKind::Suppression, true);
    assert!(h.waits.is_empty());
}

#[test]
fn preference_toggles_revert_on_failure() {
    let mut h = HomePanel::new(false, true, String::new());
    assert_eq!(h.toggle_preference(Preference::CriticalNotifications), Some(true));
    assert_eq!(toggle_text(h.critical), "Saving…");
    assert_eq!(h.toggle_preference(Preference::CriticalNotifications), None);
    h.on_preference_saved(Preference::CriticalNotifications, true, false);
    assert_eq!(h.critical, PreferenceToggle { enabled: false, saving: false });
    assert_eq!(
        h.preference_error,
        Some("Critical notification setting could not be saved. Try again.".to_string())
    );
    assert_eq!(h.toggle_preference(Preference::Digests), Some(false));
    h.on_preference_saved(Preference::Digests, false, true);
    assert_eq!(h.digests, PreferenceToggle { enabled: false, saving: false });
    assert_eq!(toggle_text(h.digests), "Off");
    assert_eq!(preference_field(Preference::Digests), "digest_enabled");
}

#[test]
fn quick_panels_and_phone_confirmation() {
    let mut h = HomePanel::new(false, false, String::new());
    h.toggle_tesla_panel();
    assert_eq!(h.quick_panel, Some(QuickPanel::Tesla));
    h.toggle_youtube_panel();
    assert_eq!(h.quick_panel, Some(QuickPanel::YouTube));
    let video = MediaItem {
        platform: "youtube".to_string(),
        video_id: "abc".to_string(),
        title: "t".to_string(),
        thumbnail: String::new(),
        duration: None,
        channel: None,
        original_url: None,
    };
    h.select_video(video);
    assert_eq!(h.quick_panel, None);
    assert!(h.youtube_active());
    h.back_to_videos();
    assert!(h.selected_video.is_none());
    assert_eq!(h.quick_panel, Some(QuickPanel::YouTube));
    h.toggle_youtube_panel();
    assert!(!h.youtube_active());
    h.toggle_history();
    assert!(h.show_history);
    let mut c: ConnectionState = connections_checking();
    assert!(h.press_confirm_phone());
    assert!(!h.press_confirm_phone());
    h.on_phone_confirmed(&mut c, true);
    assert!(!h.confirm_saving);
    assert_eq!(c.whatsapp_linked_device_attention, Some("healthy".to_string()));
}
