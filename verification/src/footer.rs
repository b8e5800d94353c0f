use vstd::prelude::*;
use crate::text::{chars_of, extend_str, string_of};

verus! {

// ---------------------------------------------------------------------------
// The dashboard footer and the next scheduled task
// ---------------------------------------------------------------------------

/// When the next digest goes out, as shown.
#[derive(Clone, Debug, PartialEq)]
pub struct NextDigestInfo {
    pub time_display: String,
}

/// What the footer says about digests.
#[derive(Clone, Debug, PartialEq)]
pub enum DigestLine {
    /// "Next digest: ..." with the time.
    Next(String),
    /// A button that suggests setting up a daily digest.
    Suggest,
    /// "No digest scheduled".
    NoneScheduled,
}

/// What the footer says about digests: when the next one goes out; else a
/// suggestion to set one up when the page offers it; else that none is
/// scheduled.
pub fn dashboard_footer(next_digest: &Option<NextDigestInfo>, can_suggest: bool) -> (l: DigestLine)
    ensures
        match *next_digest {
            Some(info) => l matches DigestLine::Next(t) && t@ == "Next digest: "@ + info.time_display@,
            None => l == if can_suggest { DigestLine::Suggest } else { DigestLine::NoneScheduled },
        },
{
    match next_digest {
        Some(info) => {
            let mut v = chars_of("Next digest: ");
            extend_str(&mut v, info.time_display.as_str());
            DigestLine::Next(string_of(v.as_slice()))
        },
        None => if can_suggest { DigestLine::Suggest } else { DigestLine::NoneScheduled },
    }
}

/// A task that will run.
#[derive(Clone, Debug, PartialEq)]
pub struct ScheduledItem {
    pub time_display: String,
    pub description: String,
    pub task_id: Option<i32>,
}

/// What the next-task card shows.
#[derive(Clone, Debug, PartialEq)]
pub enum ScheduledView {
    /// The time and what will happen.
    Task { time: String, description: String },
    /// "No upcoming tasks".
    Empty,
}

/// What the next-task card shows: the task's time and description, or that
/// none is coming.
pub fn next_scheduled(item: &Option<ScheduledItem>) -> (v: ScheduledView)
    ensures
        match *item {
            Some(i) => v matches ScheduledView::Task { time, description } && time@ == i.time_display@
                && description@ == i.description@,
            None => v == ScheduledView::Empty,
        },
{
    match item {
        Some(i) => ScheduledView::Task { time: i.time_display.clone(), description: i.description.clone() },
        None => ScheduledView::Empty,
    }
}

} // verus!
