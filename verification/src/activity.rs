use vstd::prelude::*;
use crate::media::text_opt;
use crate::text::{
    chars_of, dec, ends, dec2, dec_chars, dec2_chars, extend_chars, extend_str, is_text, parse_i32,
    parsed_i32, same, slice_of, starts, starts_with, string_of,
};

verus! {

/// The local calendar reading of a moment, as the browser reports it:
/// weekday 0 (Sunday) to 6, month 0 (January) to 11, day of month, hours, minutes.
#[derive(Clone, Copy, Debug, PartialEq, Eq)]
pub struct LocalTime {
    pub weekday: u32,
    pub month: u32,
    pub day: u32,
    pub hours: u32,
    pub minutes: u32,
}

/// One entry of the activity feed.
#[derive(Clone, Debug, PartialEq)]
pub struct ActivityFeedEntry {
    pub id: String,
    pub entry_type: String,
    pub timestamp: i32,
    pub title: String,
    pub detail: Option<String>,
    pub icon: String,
    pub success: Option<bool>,
    pub classification_prompt: Option<String>,
    pub classification_result: Option<String>,
    pub urgency: Option<String>,
    pub category: Option<String>,
}

/// Division rounding toward zero, as `/` does on Rust integers.
pub open spec fn div_trunc(a: int, b: int) -> int {
    if a >= 0 { a / b } else { -((-a) / b) }
}

/// The short weekday name; "?" past Saturday.
pub open spec fn day_name(k: int) -> Seq<char> {
    if k == 0 { "Sun"@ }
    else if k == 1 { "Mon"@ }
    else if k == 2 { "Tue"@ }
    else if k == 3 { "Wed"@ }
    else if k == 4 { "Thu"@ }
    else if k == 5 { "Fri"@ }
    else if k == 6 { "Sat"@ }
    else { "?"@ }
}

/// The short month name; "?" past December.
pub open spec fn month_name(k: int) -> Seq<char> {
    if k == 0 { "Jan"@ }
    else if k == 1 { "Feb"@ }
    else if k == 2 { "Mar"@ }
    else if k == 3 { "Apr"@ }
    else if k == 4 { "May"@ }
    else if k == 5 { "Jun"@ }
    else if k == 6 { "Jul"@ }
    else if k == 7 { "Aug"@ }
    else if k == 8 { "Sep"@ }
    else if k == 9 { "Oct"@ }
    else if k == 10 { "Nov"@ }
    else if k == 11 { "Dec"@ }
    else { "?"@ }
}

fn day_name_exec(k: u32) -> (s: &'static str)
    ensures
        s@ == day_name(k as int),
{
    if k == 0 { "Sun" }
    else if k == 1 { "Mon" }
    else if k == 2 { "Tue" }
    else if k == 3 { "Wed" }
    else if k == 4 { "Thu" }
    else if k == 5 { "Fri" }
    else if k == 6 { "Sat" }
    else { "?" }
}

fn month_name_exec(k: u32) -> (s: &'static str)
    ensures
        s@ == month_name(k as int),
{
    if k == 0 { "Jan" }
    else if k == 1 { "Feb" }
    else if k == 2 { "Mar" }
    else if k == 3 { "Apr" }
    else if k == 4 { "May" }
    else if k == 5 { "Jun" }
    else if k == 6 { "Jul" }
    else if k == 7 { "Aug" }
    else if k == 8 { "Sep" }
    else if k == 9 { "Oct" }
    else if k == 10 { "Nov" }
    else if k == 11 { "Dec" }
    else { "?" }
}

/// The heading of the day group a moment falls in: "Today", "Yesterday",
/// the weekday within a week, the month and day otherwise.
pub open spec fn date_label_of(timestamp: int, now: int, local: LocalTime) -> Seq<char> {
    let days = div_trunc(now - timestamp, 86400);
    if days == 0 {
        "Today"@
    } else if days == 1 {
        "Yesterday"@
    } else if days < 7 {
        day_name(local.weekday as int)
    } else {
        month_name(local.month as int) + seq![' '] + dec(local.day as nat)
    }
}

fn days_between(timestamp: i32, now_secs: i32) -> (d: i64)
    ensures
        d == div_trunc(now_secs - timestamp, 86400),
{
    let diff: i64 = now_secs as i64 - timestamp as i64;
    if diff >= 0 {
        diff / 86400
    } else {
        -((-diff) / 86400)
    }
}

/// The day-group heading for a moment; `local` is the moment read in local time.
pub fn date_group_label(timestamp: i32, now_secs: i32, local: LocalTime) -> (s: String)
    ensures
        s@ == date_label_of(timestamp as int, now_secs as int, local),
{
    let days = days_between(timestamp, now_secs);
    if days == 0 {
        "Today".to_owned()
    } else if days == 1 {
        "Yesterday".to_owned()
    } else if days < 7 {
        let v = chars_of(day_name_exec(local.weekday));
        string_of(v.as_slice())
    } else {
        let mut v = chars_of(month_name_exec(local.month));
        v.push(' ');
        let d = dec_chars(local.day as u64);
        extend_chars(&mut v, d.as_slice());
        string_of(v.as_slice())
    }
}

/// The 12-hour clock hour for a 24-hour one.
pub open spec fn hour12(h: int) -> int {
    if h == 0 { 12 } else if h > 12 { h - 12 } else { h }
}

/// "am" before noon, "pm" from noon.
pub open spec fn ampm(h: int) -> Seq<char> {
    if h < 12 { "am"@ } else { "pm"@ }
}

/// A clock time such as "3pm" or "3:05pm".
pub open spec fn clock_of(local: LocalTime) -> Seq<char> {
    let h = hour12(local.hours as int);
    if local.minutes == 0 {
        dec(h as nat) + ampm(local.hours as int)
    } else {
        dec(h as nat) + seq![':'] + dec2(local.minutes as nat) + ampm(local.hours as int)
    }
}

/// How long ago a moment was: "just now", minutes, hours, or the local clock time.
pub open spec fn relative_of(timestamp: int, now: int, local: LocalTime) -> Seq<char> {
    let diff = now - timestamp;
    if diff < 60 {
        "just now"@
    } else if diff < 3600 {
        dec((diff / 60) as nat) + "m ago"@
    } else if diff < 86400 {
        dec((diff / 3600) as nat) + "h ago"@
    } else {
        clock_of(local)
    }
}

fn hour12_exec(h: u32) -> (r: u64)
    ensures
        r == hour12(h as int),
{
    if h == 0 { 12 } else if h > 12 { (h - 12) as u64 } else { h as u64 }
}

fn clock_text(local: LocalTime) -> (v: Vec<char>)
    ensures
        v@ == clock_of(local),
{
    let h = hour12_exec(local.hours);
    let mut v = dec_chars(h);
    if local.minutes != 0 {
        v.push(':');
        let m = dec2_chars(local.minutes as u64);
        extend_chars(&mut v, m.as_slice());
    }
    extend_str(&mut v, if local.hours < 12 { "am" } else { "pm" });
    v
}

/// How long ago a moment was, for the feed.
pub fn relative_time(timestamp: i32, now_secs: i32, local: LocalTime) -> (s: String)
    ensures
        s@ == relative_of(timestamp as int, now_secs as int, local),
{
    let diff: i64 = now_secs as i64 - timestamp as i64;
    if diff < 60 {
        "just now".to_owned()
    } else if diff < 3600 {
        let mut v = dec_chars((diff / 60) as u64);
        extend_str(&mut v, "m ago");
        string_of(v.as_slice())
    } else if diff < 86400 {
        let mut v = dec_chars((diff / 3600) as u64);
        extend_str(&mut v, "h ago");
        string_of(v.as_slice())
    } else {
        let v = clock_text(local);
        string_of(v.as_slice())
    }
}

/// The full local time of an entry, such as "Mar 4, 3:05pm".
pub open spec fn full_time_of(local: LocalTime) -> Seq<char> {
    month_name(local.month as int) + seq![' '] + dec(local.day as nat) + ", "@
        + dec(hour12(local.hours as int) as nat) + seq![':'] + dec2(local.minutes as nat)
        + ampm(local.hours as int)
}

/// The full local time shown in an expanded entry.
pub fn full_time(local: LocalTime) -> (s: String)
    ensures
        s@ == full_time_of(local),
{
    let mut v = chars_of(month_name_exec(local.month));
    v.push(' ');
    let d = dec_chars(local.day as u64);
    extend_chars(&mut v, d.as_slice());
    extend_str(&mut v, ", ");
    let h = dec_chars(hour12_exec(local.hours));
    extend_chars(&mut v, h.as_slice());
    v.push(':');
    let m = dec2_chars(local.minutes as u64);
    extend_chars(&mut v, m.as_slice());
    extend_str(&mut v, if local.hours < 12 { "am" } else { "pm" });
    string_of(v.as_slice())
}

/// The key under which consecutive entries are grouped: type and detail.
pub open spec fn batch_key_of(e: ActivityFeedEntry) -> Seq<char> {
    e.entry_type@ + seq!['|'] + match text_opt(e.detail) {
        Some(d) => d,
        None => Seq::empty(),
    }
}

/// The grouping key of a feed entry.
pub fn batch_key(entry: &ActivityFeedEntry) -> (s: String)
    ensures
        s@ == batch_key_of(*entry),
{
    let mut v = chars_of(entry.entry_type.as_str());
    v.push('|');
    match &entry.detail {
        Some(d) => extend_str(&mut v, d.as_str()),
        None => {},
    }
    string_of(v.as_slice())
}

/// Whether entry `i` starts a new batch: it is the first, or its key or its
/// day group differs from the entry before it.
pub open spec fn starts_batch(keys: Seq<Seq<char>>, labels: Seq<Seq<char>>, i: int) -> bool {
    i == 0 || keys[i] != keys[i - 1] || labels[i] != labels[i - 1]
}

/// The positions where batches start, in order.
pub open spec fn batch_starts_of(keys: Seq<Seq<char>>, labels: Seq<Seq<char>>, n: int) -> Seq<usize>
    decreases n,
{
    if n <= 0 {
        Seq::empty()
    } else if starts_batch(keys, labels, n - 1) {
        batch_starts_of(keys, labels, n - 1).push((n - 1) as usize)
    } else {
        batch_starts_of(keys, labels, n - 1)
    }
}

/// Where each batch of consecutive entries with the same key and the same
/// day group begins, given each entry's key and day-group heading.
pub fn batch_starts(keys: &Vec<String>, labels: &Vec<String>) -> (r: Vec<usize>)
    requires
        keys.len() == labels.len(),
    ensures
        r@ == batch_starts_of(
            keys@.map_values(|s: String| s@),
            labels@.map_values(|s: String| s@),
            keys.len() as int,
        ),
{
    let ghost kv = keys@.map_values(|s: String| s@);
    let ghost lv = labels@.map_values(|s: String| s@);
    let mut out: Vec<usize> = Vec::new();
    let mut i: usize = 0;
    while i < keys.len()
        invariant
            i <= keys.len(),
            keys.len() == labels.len(),
            kv == keys@.map_values(|s: String| s@),
            lv == labels@.map_values(|s: String| s@),
            out@ == batch_starts_of(kv, lv, i as int),
        decreases keys.len() - i,
    {
        let new_batch = if i == 0 {
            true
        } else {
            let a = chars_of(keys[i].as_str());
            let b = chars_of(keys[i - 1].as_str());
            let c = chars_of(labels[i].as_str());
            let d = chars_of(labels[i - 1].as_str());
            !same(a.as_slice(), b.as_slice()) || !same(c.as_slice(), d.as_slice())
        };
        if new_batch {
            out.push(i);
        }
        i = i + 1;
    }
    out
}

/// The icon classes of an entry: its type, marked failed when delivery failed.
pub open spec fn icon_class_of(e: ActivityFeedEntry) -> Seq<char> {
    "feed-icon type-"@ + e.entry_type@ + (if e.success == Some(false) { " failed"@ } else { ""@ })
}

/// The icon classes of a feed entry.
pub fn icon_class(entry: &ActivityFeedEntry) -> (s: String)
    ensures
        s@ == icon_class_of(*entry),
{
    let mut v = chars_of("feed-icon type-");
    extend_str(&mut v, entry.entry_type.as_str());
    let failed = match entry.success {
        Some(b) => !b,
        None => false,
    };
    extend_str(&mut v, if failed { " failed" } else { "" });
    string_of(v.as_slice())
}

/// The label of an entry's type.
pub open spec fn type_label_of(t: Seq<char>) -> Seq<char> {
    if t == "changelog"@ { "System change"@ }
    else if t == "notification"@ { "Notification"@ }
    else if t == "screened"@ { "Screened"@ }
    else if t == "message"@ { "Message"@ }
    else if t == "tracked_item"@ { "Tracked item"@ }
    else if t == "proposed_item"@ { "Proposed item"@ }
    else { "Event"@ }
}

/// The label shown for an entry type.
pub fn type_label(entry_type: &str) -> (s: &'static str)
    ensures
        s@ == type_label_of(entry_type@),
{
    if is_text(entry_type, "changelog") { "System change" }
    else if is_text(entry_type, "notification") { "Notification" }
    else if is_text(entry_type, "screened") { "Screened" }
    else if is_text(entry_type, "message") { "Message" }
    else if is_text(entry_type, "tracked_item") { "Tracked item" }
    else if is_text(entry_type, "proposed_item") { "Proposed item" }
    else { "Event" }
}

/// The event an entry of a tracked or proposed item acts on: the number after
/// "event-" in its id.
pub open spec fn event_id_of(e: ActivityFeedEntry) -> Option<i32> {
    if (e.entry_type@ == "tracked_item"@ || e.entry_type@ == "proposed_item"@) && starts(e.id@, "event-"@) {
        parsed_i32(e.id@.skip("event-"@.len() as int))
    } else {
        None
    }
}

/// The event id that the confirm and stop-tracking actions of an entry use.
pub fn event_id_for_action(entry: &ActivityFeedEntry) -> (r: Option<i32>)
    ensures
        r == event_id_of(*entry),
{
    let for_tracking = is_text(entry.entry_type.as_str(), "tracked_item")
        || is_text(entry.entry_type.as_str(), "proposed_item");
    if !for_tracking {
        return None;
    }
    let id = chars_of(entry.id.as_str());
    let prefix = chars_of("event-");
    if !starts_with(id.as_slice(), prefix.as_slice()) {
        return None;
    }
    let rest = slice_of(id.as_slice(), prefix.len(), id.len());
    let rest_s = string_of(rest.as_slice());
    parse_i32(rest_s.as_str())
}

/// An expanded entry offers Confirm only for a proposed item whose event id
/// reads; Stop tracking is offered wherever `event_id_for_action` gives an id.
pub fn confirm_offered(entry: &ActivityFeedEntry) -> (b: bool)
    ensures
        b == (entry.entry_type@ == "proposed_item"@ && event_id_of(*entry) is Some),
{
    is_text(entry.entry_type.as_str(), "proposed_item") && event_id_for_action(entry).is_some()
}

/// The title of a batch: the first entry's title with the count.
pub open spec fn batch_title_of(title: Seq<char>, count: nat) -> Seq<char> {
    title + " ("@ + dec(count) + "x)"@
}

/// The title line of a batch of `count` entries.
pub fn batch_title(title: &str, count: usize) -> (s: String)
    ensures
        s@ == batch_title_of(title@, count as nat),
{
    let mut v = chars_of(title);
    extend_str(&mut v, " (");
    let n = dec_chars(count as u64);
    extend_chars(&mut v, n.as_slice());
    extend_str(&mut v, "x)");
    string_of(v.as_slice())
}

/// The time span of a batch: one time, or "last - first" when they differ.
pub open spec fn time_range_of(first: Seq<char>, last: Seq<char>) -> Seq<char> {
    if first == last { first } else { last + " - "@ + first }
}

/// The time span shown for a batch, from the relative times of its first and last entries.
pub fn batch_time_range(first_time: &str, last_time: &str) -> (s: String)
    ensures
        s@ == time_range_of(first_time@, last_time@),
{
    let f = chars_of(first_time);
    let l = chars_of(last_time);
    if same(f.as_slice(), l.as_slice()) {
        string_of(f.as_slice())
    } else {
        let mut v = l;
        extend_str(&mut v, " - ");
        extend_chars(&mut v, f.as_slice());
        string_of(v.as_slice())
    }
}

/// The id under which a batch expands.
pub fn batch_id(first_id: &str) -> (s: String)
    ensures
        s@ == "batch-"@ + first_id@,
{
    let mut v = chars_of("batch-");
    extend_str(&mut v, first_id);
    string_of(v.as_slice())
}

// ---------------------------------------------------------------------------
// Activity panel
// ---------------------------------------------------------------------------

/// One sent notification or digest.
#[derive(Clone, Debug, PartialEq)]
pub struct ActivityEntry {
    pub id: i32,
    pub activity_type: String,
    pub created_at: i32,
    pub reason: Option<String>,
    pub success: Option<bool>,
}

/// `s` with every `from` char replaced by `to`.
pub open spec fn replace_char(s: Seq<char>, from: char, to: char) -> Seq<char> {
    s.map_values(|c: char| if c == from { to } else { c })
}

/// The one-line description of a sent activity.
pub open spec fn activity_text_of(t: Seq<char>, reason: Option<Seq<char>>) -> Seq<char> {
    if t == "digest"@ || t == "generate_digest"@ {
        match reason { Some(r) => "Sent digest: "@ + r, None => "Sent morning digest"@ }
    } else if t == "sms"@ {
        match reason { Some(r) => "SMS notification: "@ + r, None => "Sent SMS notification"@ }
    } else if t == "call"@ {
        match reason { Some(r) => "Voice call: "@ + r, None => "Made voice call"@ }
    } else if t == "email_critical"@ || t == "email_priority"@ {
        match reason { Some(r) => "Email alert: "@ + r, None => "Email notification"@ }
    } else if t == "whatsapp_critical"@ || t == "whatsapp_priority"@ {
        match reason { Some(r) => "WhatsApp alert: "@ + r, None => "WhatsApp notification"@ }
    } else if t == "reminder"@ {
        match reason { Some(r) => r, None => "Sent reminder"@ }
    } else {
        match reason { Some(r) => r, None => replace_char(t, '_', ' ') }
    }
}

/// The activity types that have their own wording.
pub open spec fn known_activity_type(t: Seq<char>) -> bool {
    ||| t == "digest"@ || t == "generate_digest"@ || t == "sms"@ || t == "call"@
    ||| t == "email_critical"@ || t == "email_priority"@
    ||| t == "whatsapp_critical"@ || t == "whatsapp_priority"@ || t == "reminder"@
}

/// A reason given with an activity is never dropped: the description with a
/// reason is the same lead-in for that type (what an empty reason gives)
/// followed by the reason itself, so it always ends with the reason; and for
/// each known type the lead-in names the type.
pub proof fn law_description_keeps_the_reason(t: Seq<char>, r: Seq<char>)
    ensures
        activity_text_of(t, Some(r)) == activity_text_of(t, Some(Seq::<char>::empty())) + r,
        ends(activity_text_of(t, Some(r)), r),
        t == "call"@ ==> activity_text_of(t, Some(r)) == "Voice call: "@ + r,
        t == "sms"@ ==> activity_text_of(t, Some(r)) == "SMS notification: "@ + r,
        t == "digest"@ || t == "generate_digest"@ ==> activity_text_of(t, Some(r)) == "Sent digest: "@ + r,
        t == "email_critical"@ || t == "email_priority"@ ==> activity_text_of(t, Some(r)) == "Email alert: "@ + r,
        t == "whatsapp_critical"@ || t == "whatsapp_priority"@ ==> activity_text_of(t, Some(r)) == "WhatsApp alert: "@ + r,
        t == "reminder"@ ==> activity_text_of(t, Some(r)) == r,
        !known_activity_type(t) ==> activity_text_of(t, Some(r)) == r,
{
    reveal_strlit("reminder");
    reveal_strlit("digest");
    reveal_strlit("generate_digest");
    reveal_strlit("sms");
    reveal_strlit("call");
    reveal_strlit("email_critical");
    reveal_strlit("email_priority");
    reveal_strlit("whatsapp_critical");
    reveal_strlit("whatsapp_priority");
    assert("call"@.len() == 4 && "sms"@.len() == 3 && "digest"@.len() == 6);
    assert("generate_digest"@.len() == 15 && "email_critical"@.len() == 14);
    assert("email_priority"@.len() == 14 && "whatsapp_critical"@.len() == 17);
    assert("reminder"@.len() == 8 && "whatsapp_priority"@.len() == 17);
    let e = Seq::<char>::empty();
    assert("Sent digest: "@ + e =~= "Sent digest: "@);
    assert("SMS notification: "@ + e =~= "SMS notification: "@);
    assert("Voice call: "@ + e =~= "Voice call: "@);
    assert("Email alert: "@ + e =~= "Email alert: "@);
    assert("WhatsApp alert: "@ + e =~= "WhatsApp alert: "@);
    assert(e + r =~= r);
    let x = activity_text_of(t, Some(r));
    assert(x.skip(x.len() - r.len()) =~= r);
}

fn with_reason(prefix: &str, reason: &Option<String>, fallback: &str) -> (s: String)
    ensures
        s@ == match text_opt(*reason) {
            Some(r) => prefix@ + r,
            None => fallback@,
        },
{
    match reason {
        Some(r) => {
            let mut v = chars_of(prefix);
            extend_str(&mut v, r.as_str());
            string_of(v.as_slice())
        },
        None => {
            let v = chars_of(fallback);
            string_of(v.as_slice())
        },
    }
}

fn underscores_to_spaces(s: &str) -> (out: String)
    ensures
        out@ == replace_char(s@, '_', ' '),
{
    let cs = chars_of(s);
    let mut v: Vec<char> = Vec::new();
    let mut i: usize = 0;
    while i < cs.len()
        invariant
            i <= cs.len(),
            cs@ == s@,
            v@ == replace_char(cs@.take(i as int), '_', ' '),
        decreases cs.len() - i,
    {
        let c = cs[i];
        v.push(if c == '_' { ' ' } else { c });
        i = i + 1;
        assert(replace_char(cs@.take(i as int), '_', ' ') =~= replace_char(cs@.take(i - 1), '_', ' ').push(if c == '_' { ' ' } else { c }));
    }
    assert(cs@.take(cs.len() as int) == cs@);
    string_of(v.as_slice())
}

/// Describe a sent activity in one line.
pub fn format_activity(activity: &ActivityEntry) -> (s: String)
    ensures
        s@ == activity_text_of(activity.activity_type@, text_opt(activity.reason)),
{
    let t = activity.activity_type.as_str();
    let r = &activity.reason;
    if is_text(t, "digest") || is_text(t, "generate_digest") {
        with_reason("Sent digest: ", r, "Sent morning digest")
    } else if is_text(t, "sms") {
        with_reason("SMS notification: ", r, "Sent SMS notification")
    } else if is_text(t, "call") {
        with_reason("Voice call: ", r, "Made voice call")
    } else if is_text(t, "email_critical") || is_text(t, "email_priority") {
        with_reason("Email alert: ", r, "Email notification")
    } else if is_text(t, "whatsapp_critical") || is_text(t, "whatsapp_priority") {
        with_reason("WhatsApp alert: ", r, "WhatsApp notification")
    } else if is_text(t, "reminder") {
        match r {
            Some(reason) => {
                let v = chars_of(reason.as_str());
                string_of(v.as_slice())
            },
            None => "Sent reminder".to_owned(),
        }
    } else {
        match r {
            Some(reason) => {
                let v = chars_of(reason.as_str());
                string_of(v.as_slice())
            },
            None => underscores_to_spaces(t),
        }
    }
}

/// How long ago a sent activity was: "just now", minutes, hours or days.
pub open spec fn time_ago_of(timestamp: int, now: int) -> Seq<char> {
    let diff = now - timestamp;
    if diff < 60 {
        "just now"@
    } else if diff < 3600 {
        dec((diff / 60) as nat) + "m ago"@
    } else if diff < 86400 {
        dec((diff / 3600) as nat) + "h ago"@
    } else {
        dec((diff / 86400) as nat) + "d ago"@
    }
}

/// How long ago a sent activity was, given the current time in seconds.
pub fn format_time_ago(timestamp: i32, now_secs: i64) -> (s: String)
    requires
        i64::MIN <= now_secs - timestamp <= i64::MAX,
    ensures
        s@ == time_ago_of(timestamp as int, now_secs as int),
{
    let diff: i64 = now_secs - timestamp as i64;
    let (n, unit): (i64, &str) = if diff < 60 {
        return "just now".to_owned();
    } else if diff < 3600 {
        (diff / 60, "m ago")
    } else if diff < 86400 {
        (diff / 3600, "h ago")
    } else {
        (diff / 86400, "d ago")
    };
    let mut v = dec_chars(n as u64);
    extend_str(&mut v, unit);
    string_of(v.as_slice())
}

// ---------------------------------------------------------------------------
// What a feed entry and the activity panel show
// ---------------------------------------------------------------------------

/// The note for a failed delivery without a detail.
pub open spec fn failed_delivery_note() -> Seq<char> {
    "Delivery failed - check notification settings"@
}

/// An entry's detail line: its detail, or a note when delivery failed.
pub fn detail_line(detail: &Option<String>, success: Option<bool>) -> (s: Option<String>)
    ensures
        text_opt(s) == match *detail {
            Some(d) => Some(d@),
            None => if success == Some(false) { Some(failed_delivery_note()) } else { None },
        },
{
    match detail {
        Some(d) => Some(d.clone()),
        None => if success == Some(false) {
            Some("Delivery failed - check notification settings".to_owned())
        } else {
            None
        },
    }
}

/// An entry's classification, "urgency / category", a dash for a missing
/// one; nothing when both are missing.
pub fn classification_line(urgency: &Option<String>, category: &Option<String>) -> (s: Option<String>)
    ensures
        urgency is None && category is None ==> s is None,
        urgency is Some || category is Some ==> text_opt(s) == Some(
            match *urgency {
                Some(u) => u@,
                None => seq!['-'],
            } + " / "@ + match *category {
                Some(c) => c@,
                None => seq!['-'],
            },
        ),
{
    if urgency.is_none() && category.is_none() {
        return None;
    }
    let mut v = match urgency {
        Some(u) => chars_of(u.as_str()),
        None => chars_of("-"),
    };
    proof {
        reveal_strlit("-");
    }
    extend_str(&mut v, " / ");
    match category {
        Some(c) => extend_str(&mut v, c.as_str()),
        None => v.push('-'),
    }
    Some(string_of(v.as_slice()))
}

/// The delivery badge of an entry.
pub fn delivery_badge(success: Option<bool>) -> (s: Option<&'static str>)
    ensures
        success == Some(true) ==> (s matches Some(t) && t@ == "Delivered"@),
        success == Some(false) ==> (s matches Some(t) && t@ == "Failed"@),
        success is None ==> s is None,
{
    match success {
        Some(true) => Some("Delivered"),
        Some(false) => Some("Failed"),
        None => None,
    }
}

/// An entry or batch opens when closed, and closes when open.
pub fn toggle_expanded(expanded: &Option<String>, id: &str) -> (r: Option<String>)
    ensures
        text_opt(*expanded) == Some(id@) ==> r is None,
        text_opt(*expanded) != Some(id@) ==> text_opt(r) == Some(id@),
{
    let open = match expanded {
        Some(e) => is_text(e.as_str(), id),
        None => false,
    };
    if open { None } else { Some(id.to_owned()) }
}

/// The class of an activity row: how its delivery went.
pub fn activity_result_class(success: Option<bool>) -> (s: &'static str)
    ensures
        s@ == match success {
            Some(true) => "success"@,
            Some(false) => "failed"@,
            None => ""@,
        },
{
    match success {
        Some(true) => "success",
        Some(false) => "failed",
        None => "",
    }
}

/// How the recent-activity request ended.
#[derive(Clone, Debug)]
pub enum ActivityReply {
    /// The activities, or none when the answer could not be read or was refused.
    Loaded(Vec<ActivityEntry>),
    /// The request did not reach the server.
    Unreachable,
}

/// The recent-activity panel.
#[derive(Clone, Debug)]
pub struct ActivityPanel {
    pub activities: Vec<ActivityEntry>,
    pub loading: bool,
    pub error: Option<String>,
}

/// What the recent-activity panel's body shows.
#[derive(Clone, Copy, Debug, PartialEq, Eq, Structural)]
pub enum ActivityBody {
    Loading,
    Error,
    Empty,
    List,
}

impl ActivityPanel {
    /// The panel before it first opens.
    pub fn new() -> (p: Self)
        ensures
            p.activities@.len() == 0 && p.loading && p.error is None,
    {
        ActivityPanel { activities: Vec::new(), loading: true, error: None }
    }

    /// The panel opened: the activities are fetched again.
    pub fn on_open(&mut self)
        ensures
            *final(self) == (ActivityPanel { loading: true, error: None, ..*old(self) }),
    {
        self.loading = true;
        self.error = None;
    }

    /// The activities arrived, or the request failed.
    pub fn on_reply(&mut self, reply: ActivityReply)
        ensures
            match reply {
                ActivityReply::Loaded(a) => *final(self) == (ActivityPanel { activities: a, loading: false, ..*old(self) }),
                ActivityReply::Unreachable => {
                    &&& *final(self) == (ActivityPanel { error: final(self).error, loading: false, ..*old(self) })
                    &&& text_opt(final(self).error) == Some("Failed to load activity"@)
                },
            },
    {
        match reply {
            ActivityReply::Loaded(a) => self.activities = a,
            ActivityReply::Unreachable => self.error = Some("Failed to load activity".to_owned()),
        }
        self.loading = false;
    }

    /// What the body shows: loading, the error, an empty note, or the list.
    pub fn body(&self) -> (b: ActivityBody)
        ensures
            b == if self.loading {
                ActivityBody::Loading
            } else if self.error is Some {
                ActivityBody::Error
            } else if self.activities@.len() == 0 {
                ActivityBody::Empty
            } else {
                ActivityBody::List
            },
    {
        if self.loading {
            ActivityBody::Loading
        } else if self.error.is_some() {
            ActivityBody::Error
        } else if self.activities.len() == 0 {
            ActivityBody::Empty
        } else {
            ActivityBody::List
        }
    }
}

/// The batches whose day-group heading is shown: the first batch, and each
/// whose first entry's day group differs from the batch before.
pub open spec fn heading_shown(labels: Seq<Seq<char>>, i: int) -> bool {
    (i == 0 && labels[0].len() != 0) || (i > 0 && labels[i] != labels[i - 1])
}

/// Whether each batch shows a day-group heading, given the day group of
/// each batch's first entry.
pub fn date_headings(labels: &Vec<String>) -> (r: Vec<bool>)
    ensures
        r.len() == labels.len(),
        forall|i: int| 0 <= i < r.len() ==> #[trigger] r@[i] == heading_shown(labels@.map_values(|s: String| s@), i),
{
    let ghost lv = labels@.map_values(|s: String| s@);
    let mut out: Vec<bool> = Vec::new();
    let mut prev: Vec<char> = Vec::new();
    let mut i: usize = 0;
    while i < labels.len()
        invariant
            i <= labels.len(),
            lv == labels@.map_values(|s: String| s@),
            out.len() == i,
            forall|k: int| 0 <= k < i ==> #[trigger] out@[k] == heading_shown(lv, k),
            i == 0 ==> prev@ == Seq::<char>::empty(),
            i > 0 ==> prev@ == lv[i - 1],
        decreases labels.len() - i,
    {
        let cur = chars_of(labels[i].as_str());
        assert(lv[i as int] == labels@[i as int]@);
        let changed = !same(cur.as_slice(), prev.as_slice());
        proof {
            if i == 0 {
                if cur@.len() == 0 {
                    assert(cur@ =~= prev@);
                }
                assert(changed == (lv[0].len() != 0));
            }
        }
        let ghost before = out@;
        out.push(changed);
        assert(forall|k: int| 0 <= k < i ==> out@[k] == before[k]);
        prev = cur;
        i = i + 1;
    }
    out
}

// ---------------------------------------------------------------------------
// Laws
// ---------------------------------------------------------------------------

/// Batches split the feed: positions where batches start rise strictly, the
/// first entry starts one, and an entry starts one exactly when its key or
/// its day group differs from the entry before.
pub proof fn law_batches_split_the_feed(keys: Seq<Seq<char>>, labels: Seq<Seq<char>>, n: int)
    requires
        0 <= n <= usize::MAX,
    ensures
        forall|i: int, j: int| 0 <= i < j < batch_starts_of(keys, labels, n).len()
            ==> #[trigger] batch_starts_of(keys, labels, n)[i] < #[trigger] batch_starts_of(keys, labels, n)[j],
        n > 0 ==> batch_starts_of(keys, labels, n).len() > 0 && batch_starts_of(keys, labels, n)[0] == 0,
        forall|p: int| 0 <= p < n ==> (batch_starts_of(keys, labels, n).contains(p as usize)
            <==> #[trigger] starts_batch(keys, labels, p)),
    decreases n,
{
    if n > 0 {
        law_batches_split_the_feed(keys, labels, n - 1);
        let prev = batch_starts_of(keys, labels, n - 1);
        let cur = batch_starts_of(keys, labels, n);
        assert forall|k: int| 0 <= k < prev.len() implies (#[trigger] prev[k]) < n - 1 by {
            assert(prev.contains(prev[k]));
            lemma_starts_below(keys, labels, n - 1, k);
        }
        if n - 1 == 0 {
            assert(starts_batch(keys, labels, 0));
        }
        assert forall|p: int| 0 <= p < n implies (cur.contains(p as usize) <==> #[trigger] starts_batch(keys, labels, p)) by {
            if p < n - 1 {
                if cur.contains(p as usize) && starts_batch(keys, labels, n - 1) {
                    let w = choose|w: int| 0 <= w < cur.len() && cur[w] == p as usize;
                    if w < prev.len() {
                        assert(prev[w] == cur[w]);
                        assert(prev.contains(p as usize));
                    }
                }
                if prev.contains(p as usize) {
                    let w = choose|w: int| 0 <= w < prev.len() && prev[w] == p as usize;
                    if starts_batch(keys, labels, n - 1) {
                        assert(cur[w] == p as usize);
                    }
                }
            } else {
                if starts_batch(keys, labels, n - 1) {
                    assert(cur[cur.len() - 1] == (n - 1) as usize);
                } else if cur.contains(p as usize) {
                    let w = choose|w: int| 0 <= w < cur.len() && cur[w] == p as usize;
                    assert(prev[w] < n - 1);
                }
            }
        }
    }
}

proof fn lemma_starts_below(keys: Seq<Seq<char>>, labels: Seq<Seq<char>>, n: int, k: int)
    requires
        0 <= n <= usize::MAX,
        0 <= k < batch_starts_of(keys, labels, n).len(),
    ensures
        batch_starts_of(keys, labels, n)[k] < n,
    decreases n,
{
    if n > 0 {
        let prev = batch_starts_of(keys, labels, n - 1);
        if k < prev.len() {
            lemma_starts_below(keys, labels, n - 1, k);
        }
    }
}

} // verus!
