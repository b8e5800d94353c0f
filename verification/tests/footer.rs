use frontend::footer::{dashboard_footer, next_scheduled, DigestLine, NextDigestInfo, ScheduledItem, ScheduledView};

#[test]
fn footer_digest_line() {
    let info = Some(NextDigestInfo { time_display: "8:00".to_string() });
    assert_eq!(dashboard_footer(&info, true), DigestLine::Next("Next digest: 8:00".to_string()));
    assert_eq!(dashboard_footer(&None, true), DigestLine::Suggest);
    assert_eq!(dashboard_footer(&None, false), DigestLine::NoneScheduled);
}

#[test]
fn next_task() {
    let item = Some(ScheduledItem { time_display: "Tomorrow".to_string(), description: "Call".to_string(), task_id: Some(1) });
    assert_eq!(
        next_scheduled(&item),
        ScheduledView::Task { time: "Tomorrow".to_string(), description: "Call".to_string() }
    );
    assert_eq!(next_scheduled(&None), ScheduledView::Empty);
}
