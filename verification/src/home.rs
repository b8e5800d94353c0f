use vstd::prelude::*;
use crate::attention::{kind_matches, names_of, ConnectionState, DashboardAttentionState, RemovalKind};
use crate::media::{text_opt, MediaItem};
use crate::text::{chars_of, dec_int, dec_int_chars, extend_chars, extend_str, is_text, join, join_strs, string_of, trim, trimmed};

verus! {

// ---------------------------------------------------------------------------
// Reminders and active waits
// ---------------------------------------------------------------------------

/// A reminder the user has scheduled.
#[derive(Clone, Debug, PartialEq)]
pub struct UpcomingReminder {
    pub id: i32,
    pub description: String,
    pub remind_at: Option<i32>,
}

/// Something the assistant is waiting on, or keeping quiet about, until it expires.
#[derive(Clone, Debug, PartialEq)]
pub struct ActiveWait {
    pub id: i32,
    pub kind: String,
    pub description: String,
    pub expires_at: i32,
}

/// Reminder times in the order `sort_by_key` gives them: no time first, then
/// earlier before later.
pub open spec fn time_le(a: Option<i32>, b: Option<i32>) -> bool {
    match (a, b) {
        (None, _) => true,
        (Some(_), None) => false,
        (Some(x), Some(y)) => x <= y,
    }
}

/// `x` placed into the time-sorted `sorted` before the first reminder that is
/// not earlier than it.
pub open spec fn place(sorted: Seq<UpcomingReminder>, x: UpcomingReminder) -> Seq<UpcomingReminder>
    decreases sorted.len(),
{
    if sorted.len() == 0 {
        seq![x]
    } else if time_le(x.remind_at, sorted[0].remind_at) {
        seq![x] + sorted
    } else {
        seq![sorted[0]] + place(sorted.drop_first(), x)
    }
}

/// The reminders sorted by time, keeping the given order among equal times
/// (the stable sort `sort_by_key` performs).
pub open spec fn by_time(s: Seq<UpcomingReminder>) -> Seq<UpcomingReminder>
    decreases s.len(),
{
    if s.len() == 0 {
        Seq::empty()
    } else {
        place(by_time(s.drop_first()), s[0])
    }
}

/// Whether a reminder is still to come at time `now`.
pub open spec fn still_ahead(r: UpcomingReminder, now: int) -> bool {
    r.remind_at matches Some(at) && at >= now
}

/// The reminders still to come at time `now`, in their order.
pub open spec fn ahead_of(s: Seq<UpcomingReminder>, now: int) -> Seq<UpcomingReminder>
    decreases s.len(),
{
    if s.len() == 0 {
        Seq::empty()
    } else if still_ahead(s[0], now) {
        seq![s[0]] + ahead_of(s.drop_first(), now)
    } else {
        ahead_of(s.drop_first(), now)
    }
}

/// The reminders the dashboard lists at time `now`: those still to come, by time.
pub open spec fn upcoming_of(s: Seq<UpcomingReminder>, now: int) -> Seq<UpcomingReminder> {
    by_time(ahead_of(s, now))
}

fn time_le_exec(a: Option<i32>, b: Option<i32>) -> (r: bool)
    ensures
        r == time_le(a, b),
{
    match (a, b) {
        (None, _) => true,
        (Some(_), None) => false,
        (Some(x), Some(y)) => x <= y,
    }
}

proof fn lemma_place_at(s: Seq<UpcomingReminder>, x: UpcomingReminder, p: int)
    requires
        0 <= p <= s.len(),
        forall|j: int| 0 <= j < p ==> !time_le(x.remind_at, #[trigger] s[j].remind_at),
        p < s.len() ==> time_le(x.remind_at, s[p].remind_at),
    ensures
        place(s, x) == s.take(p) + seq![x] + s.skip(p),
    decreases s.len(),
{
    if s.len() == 0 {
        assert(s.take(p) + seq![x] + s.skip(p) =~= seq![x]);
    } else if p == 0 {
        assert(s.take(0) + seq![x] + s.skip(0) =~= seq![x] + s);
    } else {
        let t = s.drop_first();
        assert forall|j: int| 0 <= j < p - 1 implies !time_le(x.remind_at, #[trigger] t[j].remind_at) by {
            assert(t[j] == s[j + 1]);
        }
        if p < s.len() {
            assert(t[p - 1] == s[p]);
        }
        lemma_place_at(t, x, p - 1);
        assert(seq![s[0]] + (t.take(p - 1) + seq![x] + t.skip(p - 1)) =~= s.take(p) + seq![x] + s.skip(p));
    }
}

/// Places `x` into the time-sorted `out`.
fn place_into(out: &mut Vec<UpcomingReminder>, x: UpcomingReminder)
    ensures
        final(out)@ == place(old(out)@, x),
{
    let mut p: usize = 0;
    while p < out.len() && !time_le_exec(x.remind_at, out[p].remind_at)
        invariant
            p <= out.len(),
            forall|j: int| 0 <= j < p ==> !time_le(x.remind_at, #[trigger] out@[j].remind_at),
        decreases out.len() - p,
    {
        p = p + 1;
    }
    proof {
        lemma_place_at(out@, x, p as int);
    }
    let ghost prev = out@;
    out.insert(p, x);
    assert(out@ =~= prev.take(p as int) + seq![x] + prev.skip(p as int));
}

/// The reminders sorted by time, stably.
pub fn sort_by_time(v: Vec<UpcomingReminder>) -> (out: Vec<UpcomingReminder>)
    ensures
        out@ == by_time(v@),
{
    let ghost orig = v@;
    let mut v = v;
    let mut out: Vec<UpcomingReminder> = Vec::new();
    assert(orig.skip(orig.len() as int) =~= Seq::<UpcomingReminder>::empty());
    while v.len() > 0
        invariant
            v@ == orig.take(v.len() as int),
            v.len() <= orig.len(),
            out@ == by_time(orig.skip(v.len() as int)),
        decreases v.len(),
    {
        let ghost i = (v.len() - 1) as int;
        let x = v.pop().unwrap();
        assert(orig.skip(i).drop_first() =~= orig.skip(i + 1));
        assert(orig.skip(i)[0] == x);
        assert(v@ =~= orig.take(i));
        place_into(&mut out, x);
    }
    assert(orig.skip(0) =~= orig);
    out
}

/// The reminders still to come at time `now`, in their order.
fn keep_ahead(v: Vec<UpcomingReminder>, now: i32) -> (out: Vec<UpcomingReminder>)
    ensures
        out@ == ahead_of(v@, now as int),
{
    let ghost orig = v@;
    let mut v = v;
    let mut out: Vec<UpcomingReminder> = Vec::new();
    assert(orig.skip(orig.len() as int) =~= Seq::<UpcomingReminder>::empty());
    while v.len() > 0
        invariant
            v@ == orig.take(v.len() as int),
            v.len() <= orig.len(),
            out@ == ahead_of(orig.skip(v.len() as int), now as int),
        decreases v.len(),
    {
        let ghost i = (v.len() - 1) as int;
        let x = v.pop().unwrap();
        assert(orig.skip(i).drop_first() =~= orig.skip(i + 1));
        assert(orig.skip(i)[0] == x);
        assert(v@ =~= orig.take(i));
        let keep = match x.remind_at {
            Some(at) => at >= now,
            None => false,
        };
        if keep {
            let ghost prev = out@;
            out.insert(0, x);
            assert(out@ =~= seq![x] + prev);
        }
    }
    assert(orig.skip(0) =~= orig);
    out
}

/// The reminders the dashboard lists at time `now`: those still to come, by time.
pub fn upcoming_reminders(events: Vec<UpcomingReminder>, now: i32) -> (out: Vec<UpcomingReminder>)
    ensures
        out@ == upcoming_of(events@, now as int),
{
    sort_by_time(keep_ahead(events, now))
}

/// The list after a reminder was created: it joins the list, which is sorted
/// by time again.
pub fn with_created(reminders: Vec<UpcomingReminder>, created: UpcomingReminder) -> (out: Vec<UpcomingReminder>)
    ensures
        out@ == by_time(reminders@.push(created)),
{
    let mut next = reminders;
    next.push(created);
    sort_by_time(next)
}

/// The reminders other than the one with id `id`, in their order.
pub open spec fn without_reminder(s: Seq<UpcomingReminder>, id: i32) -> Seq<UpcomingReminder>
    decreases s.len(),
{
    if s.len() == 0 {
        Seq::empty()
    } else if s[0].id != id {
        seq![s[0]] + without_reminder(s.drop_first(), id)
    } else {
        without_reminder(s.drop_first(), id)
    }
}

/// The list after the reminder with id `id` was removed.
pub fn remove_reminder(v: Vec<UpcomingReminder>, id: i32) -> (out: Vec<UpcomingReminder>)
    ensures
        out@ == without_reminder(v@, id),
{
    let ghost orig = v@;
    let mut v = v;
    let mut out: Vec<UpcomingReminder> = Vec::new();
    assert(orig.skip(orig.len() as int) =~= Seq::<UpcomingReminder>::empty());
    while v.len() > 0
        invariant
            v@ == orig.take(v.len() as int),
            v.len() <= orig.len(),
            out@ == without_reminder(orig.skip(v.len() as int), id),
        decreases v.len(),
    {
        let ghost i = (v.len() - 1) as int;
        let x = v.pop().unwrap();
        assert(orig.skip(i).drop_first() =~= orig.skip(i + 1));
        assert(orig.skip(i)[0] == x);
        assert(v@ =~= orig.take(i));
        if x.id != id {
            let ghost prev = out@;
            out.insert(0, x);
            assert(out@ =~= seq![x] + prev);
        }
    }
    assert(orig.skip(0) =~= orig);
    out
}

/// The waits a removal of kind `kind` for id `id` leaves: those with another
/// id, and those whose kind the removal does not apply to.
pub open spec fn without_wait(s: Seq<ActiveWait>, id: i32, kind: RemovalKind) -> Seq<ActiveWait>
    decreases s.len(),
{
    if s.len() == 0 {
        Seq::empty()
    } else if s[0].id != id || !kind_matches(kind, s[0].kind@) {
        seq![s[0]] + without_wait(s.drop_first(), id, kind)
    } else {
        without_wait(s.drop_first(), id, kind)
    }
}

/// The waits after a removal of kind `kind` for id `id` went through.
pub fn remove_wait(v: Vec<ActiveWait>, id: i32, kind: RemovalKind) -> (out: Vec<ActiveWait>)
    ensures
        out@ == without_wait(v@, id, kind),
{
    let ghost orig = v@;
    let mut v = v;
    let mut out: Vec<ActiveWait> = Vec::new();
    assert(orig.skip(orig.len() as int) =~= Seq::<ActiveWait>::empty());
    while v.len() > 0
        invariant
            v@ == orig.take(v.len() as int),
            v.len() <= orig.len(),
            out@ == without_wait(orig.skip(v.len() as int), id, kind),
        decreases v.len(),
    {
        let ghost i = (v.len() - 1) as int;
        let x = v.pop().unwrap();
        assert(orig.skip(i).drop_first() =~= orig.skip(i + 1));
        assert(orig.skip(i)[0] == x);
        assert(v@ =~= orig.take(i));
        if x.id != id || !kind.matches_wait(x.kind.as_str()) {
            let ghost prev = out@;
            out.insert(0, x);
            assert(out@ =~= seq![x] + prev);
        }
    }
    assert(orig.skip(0) =~= orig);
    out
}

/// The label shown before an active wait of kind `kind`.
pub open spec fn wait_label_of(kind: Seq<char>) -> Seq<char> {
    if kind == "reply_watch"@ {
        "Reply wait"@
    } else if kind == "quiet"@ {
        "Quiet mode"@
    } else if kind == "topic"@ {
        "Ignored topic"@
    } else {
        "Active wait"@
    }
}

/// The label shown before an active wait.
pub fn wait_label(kind: &str) -> (s: &'static str)
    ensures
        s@ == wait_label_of(kind@),
{
    if is_text(kind, "reply_watch") {
        "Reply wait"
    } else if is_text(kind, "quiet") {
        "Quiet mode"
    } else if is_text(kind, "topic") {
        "Ignored topic"
    } else {
        "Active wait"
    }
}

/// Cancelling a reply wait stops the reply watch; cancelling any other wait
/// ends a suppression.
pub open spec fn removal_kind_of(kind: Seq<char>) -> RemovalKind {
    if kind == "reply_watch"@ { RemovalKind::ReplyWatch } else { RemovalKind::Suppression }
}

/// What cancelling an active wait of kind `kind` removes.
pub fn removal_kind_for_wait(kind: &str) -> (k: RemovalKind)
    ensures
        k == removal_kind_of(kind@),
{
    if is_text(kind, "reply_watch") { RemovalKind::ReplyWatch } else { RemovalKind::Suppression }
}

/// The endpoint that removes an item.
pub open spec fn removal_path_of(kind: RemovalKind, id: int) -> Seq<char> {
    match kind {
        RemovalKind::Reminder => "/api/dashboard/reminders/"@ + dec_int(id),
        RemovalKind::ReplyWatch => "/api/dashboard/reply-watches/"@ + dec_int(id),
        RemovalKind::Suppression => "/api/dashboard/suppressions/"@ + dec_int(id),
    }
}

/// The endpoint that removes an item.
pub fn removal_path(kind: RemovalKind, id: i32) -> (s: String)
    ensures
        s@ == removal_path_of(kind, id as int),
{
    let mut v = chars_of(
        match kind {
            RemovalKind::Reminder => "/api/dashboard/reminders/",
            RemovalKind::ReplyWatch => "/api/dashboard/reply-watches/",
            RemovalKind::Suppression => "/api/dashboard/suppressions/",
        },
    );
    let d = dec_int_chars(id as i64);
    extend_chars(&mut v, d.as_slice());
    string_of(v.as_slice())
}

/// What the confirmation dialog says a removal does.
pub open spec fn removal_prompt_of(kind: RemovalKind) -> Seq<char> {
    match kind {
        RemovalKind::Reminder => "This reminder will be cancelled and will not notify you."@,
        RemovalKind::ReplyWatch => "Lightfriend will stop waiting for this reply."@,
        RemovalKind::Suppression => "This quiet or ignore period will end immediately."@,
    }
}

/// What the confirmation dialog says a removal does.
pub fn removal_prompt(kind: RemovalKind) -> (s: &'static str)
    ensures
        s@ == removal_prompt_of(kind),
{
    match kind {
        RemovalKind::Reminder => "This reminder will be cancelled and will not notify you.",
        RemovalKind::ReplyWatch => "Lightfriend will stop waiting for this reply.",
        RemovalKind::Suppression => "This quiet or ignore period will end immediately.",
    }
}

// ---------------------------------------------------------------------------
// The status area
// ---------------------------------------------------------------------------

/// What the status area shows for an attention state.
#[derive(Clone, Debug)]
pub struct StatusCopy {
    pub label: &'static str,
    /// The CSS class of the status dot.
    pub class: &'static str,
    pub title: &'static str,
    pub description: Option<String>,
}

/// The status label for an attention state.
pub open spec fn status_label_of(st: DashboardAttentionState) -> Seq<char> {
    match st {
        DashboardAttentionState::Loading => "Checking status"@,
        DashboardAttentionState::StatusUnavailable => "Needs attention"@,
        DashboardAttentionState::IntegrationIssue => "Needs attention"@,
        DashboardAttentionState::WhatsappActionNow => "Action needed"@,
        DashboardAttentionState::WhatsappRiskSoon => "At risk soon"@,
        DashboardAttentionState::Healthy => "Working quietly"@,
        DashboardAttentionState::SetupNeeded => "Setup needed"@,
    }
}

/// The status dot's class for an attention state.
pub open spec fn status_class_of(st: DashboardAttentionState) -> Seq<char> {
    match st {
        DashboardAttentionState::Loading => "waiting"@,
        DashboardAttentionState::StatusUnavailable => "unavailable"@,
        DashboardAttentionState::IntegrationIssue => "unavailable"@,
        DashboardAttentionState::WhatsappActionNow => "unavailable"@,
        DashboardAttentionState::WhatsappRiskSoon => "waiting"@,
        DashboardAttentionState::Healthy => ""@,
        DashboardAttentionState::SetupNeeded => "waiting"@,
    }
}

/// The status title for an attention state.
pub open spec fn status_title_of(st: DashboardAttentionState) -> Seq<char> {
    match st {
        DashboardAttentionState::Loading => "Checking what needs your attention."@,
        DashboardAttentionState::StatusUnavailable => "Lightfriend's status could not be checked."@,
        DashboardAttentionState::IntegrationIssue => "A connected service needs attention."@,
        DashboardAttentionState::WhatsappActionNow => "Open WhatsApp on your primary phone now."@,
        DashboardAttentionState::WhatsappRiskSoon => "Open WhatsApp on your primary phone soon."@,
        DashboardAttentionState::Healthy => "Nothing needs your attention."@,
        DashboardAttentionState::SetupNeeded => "Connect the places that matter."@,
    }
}

/// The status description for an attention state; an integration issue names
/// the service when one was found.
pub open spec fn status_description_of(st: DashboardAttentionState, core_issue: Option<Seq<char>>) -> Option<Seq<char>> {
    match st {
        DashboardAttentionState::Loading => Some("This should only take a moment."@),
        DashboardAttentionState::StatusUnavailable => Some(
            "Your existing services may still be running. Check again in a moment."@,
        ),
        DashboardAttentionState::IntegrationIssue => Some(
            match core_issue {
                Some(m) => m,
                None => "Open Connections to reconnect it."@,
            },
        ),
        DashboardAttentionState::WhatsappActionNow => Some(
            "Linked Devices may expire after about two weeks without the primary phone being active."@,
        ),
        DashboardAttentionState::WhatsappRiskSoon => Some("This keeps the Lightfriend Linked Device from timing out."@),
        DashboardAttentionState::Healthy => None,
        DashboardAttentionState::SetupNeeded => Some(
            "Lightfriend needs at least one connection before it can watch for important messages."@,
        ),
    }
}

/// What the status area shows for an attention state.
pub fn status_copy(st: DashboardAttentionState, core_issue: &Option<String>) -> (c: StatusCopy)
    ensures
        c.label@ == status_label_of(st),
        c.class@ == status_class_of(st),
        c.title@ == status_title_of(st),
        text_opt(c.description) == status_description_of(st, text_opt(*core_issue)),
{
    match st {
        DashboardAttentionState::Loading => StatusCopy {
            label: "Checking status",
            class: "waiting",
            title: "Checking what needs your attention.",
            description: Some("This should only take a moment.".to_owned()),
        },
        DashboardAttentionState::StatusUnavailable => StatusCopy {
            label: "Needs attention",
            class: "unavailable",
            title: "Lightfriend's status could not be checked.",
            description: Some("Your existing services may still be running. Check again in a moment.".to_owned()),
        },
        DashboardAttentionState::IntegrationIssue => StatusCopy {
            label: "Needs attention",
            class: "unavailable",
            title: "A connected service needs attention.",
            description: Some(
                match core_issue {
                    Some(m) => m.clone(),
                    None => "Open Connections to reconnect it.".to_owned(),
                },
            ),
        },
        DashboardAttentionState::WhatsappActionNow => StatusCopy {
            label: "Action needed",
            class: "unavailable",
            title: "Open WhatsApp on your primary phone now.",
            description: Some(
                "Linked Devices may expire after about two weeks without the primary phone being active.".to_owned(),
            ),
        },
        DashboardAttentionState::WhatsappRiskSoon => StatusCopy {
            label: "At risk soon",
            class: "waiting",
            title: "Open WhatsApp on your primary phone soon.",
            description: Some("This keeps the Lightfriend Linked Device from timing out.".to_owned()),
        },
        DashboardAttentionState::Healthy => StatusCopy {
            label: "Working quietly",
            class: "",
            title: "Nothing needs your attention.",
            description: None,
        },
        DashboardAttentionState::SetupNeeded => StatusCopy {
            label: "Setup needed",
            class: "waiting",
            title: "Connect the places that matter.",
            description: Some(
                "Lightfriend needs at least one connection before it can watch for important messages.".to_owned(),
            ),
        },
    }
}

/// "Watching" and the connected services, joined by commas.
pub open spec fn watching_of(c: ConnectionState) -> Seq<char> {
    "Watching "@ + join(names_of(c), ", "@) + seq!['.']
}

/// The line that names the services being watched.
pub fn watching_line(c: &ConnectionState) -> (s: String)
    ensures
        s@ == watching_of(*c),
{
    let names = c.names();
    let mut v = chars_of("Watching ");
    let j = join_strs(&names, ", ");
    extend_chars(&mut v, j.as_slice());
    v.push('.');
    string_of(v.as_slice())
}

/// What the assistant did in the last period.
#[derive(Clone, Debug, PartialEq)]
pub struct DashboardValueStats {
    pub period_label: String,
    pub quieted_messages: i64,
    pub interruptions_sent: i64,
    pub quiet_percent: Option<i64>,
}

/// The sentence about the last period: "`period`: `q` messages left quiet
/// (`p`%) and `n` interruptions.", the percentage only when known and
/// "interruption" for exactly one.
pub open spec fn value_sentence_of(s: DashboardValueStats) -> Seq<char> {
    s.period_label@ + ": "@ + dec_int(s.quieted_messages as int) + " messages left quiet"@
        + match s.quiet_percent {
            Some(p) => " ("@ + dec_int(p as int) + "%)"@,
            None => Seq::empty(),
        }
        + " and "@ + dec_int(s.interruptions_sent as int)
        + if s.interruptions_sent == 1 { " interruption."@ } else { " interruptions."@ }
}

/// The sentence about the last period.
pub fn value_sentence(s: &DashboardValueStats) -> (out: String)
    ensures
        out@ == value_sentence_of(*s),
{
    let mut v = chars_of(s.period_label.as_str());
    extend_str(&mut v, ": ");
    let q = dec_int_chars(s.quieted_messages);
    extend_chars(&mut v, q.as_slice());
    extend_str(&mut v, " messages left quiet");
    let ghost mid = v@;
    match s.quiet_percent {
        Some(p) => {
            extend_str(&mut v, " (");
            let d = dec_int_chars(p);
            extend_chars(&mut v, d.as_slice());
            extend_str(&mut v, "%)");
        },
        None => {
            assert(v@ == mid + Seq::<char>::empty());
        },
    }
    extend_str(&mut v, " and ");
    let n = dec_int_chars(s.interruptions_sent);
    extend_chars(&mut v, n.as_slice());
    extend_str(&mut v, if s.interruptions_sent == 1 { " interruption." } else { " interruptions." });
    string_of(v.as_slice())
}

// ---------------------------------------------------------------------------
// Reading the connection status
// ---------------------------------------------------------------------------

/// A messaging bridge whose status the dashboard reads.
#[derive(Clone, Copy, Debug, PartialEq, Eq, Structural)]
pub enum Bridge {
    WhatsApp,
    Signal,
    Telegram,
}

/// The bridge's name in its status endpoint and in messages.
pub open spec fn bridge_name_of(b: Bridge) -> Seq<char> {
    match b {
        Bridge::WhatsApp => "whatsapp"@,
        Bridge::Signal => "signal"@,
        Bridge::Telegram => "telegram"@,
    }
}

/// The bridge's name in its status endpoint and in messages.
pub fn bridge_name(b: Bridge) -> (s: &'static str)
    ensures
        s@ == bridge_name_of(b),
{
    match b {
        Bridge::WhatsApp => "whatsapp",
        Bridge::Signal => "signal",
        Bridge::Telegram => "telegram",
    }
}

/// The fields a status answer held.
#[derive(Clone, Debug)]
pub struct ServiceStatus {
    pub connected: Option<bool>,
    pub status: Option<String>,
    pub linked_device_attention: Option<String>,
}

/// How a status endpoint answered.
#[derive(Clone, Debug)]
pub enum StatusAnswer {
    /// The request failed or was refused.
    Failed,
    /// The server answered with a body that could not be read.
    Unreadable,
    Read(ServiceStatus),
}

/// A connection state that is being read: loaded, with nothing found yet.
pub fn connections_checking() -> (c: ConnectionState)
    ensures
        c.loaded && !c.available && !c.whatsapp && !c.signal && !c.telegram && !c.email,
        !c.tesla && !c.youtube && !c.core_check_failed,
        c.core_issue is None && c.whatsapp_linked_device_attention is None,
{
    ConnectionState {
        loaded: true,
        available: false,
        whatsapp: false,
        signal: false,
        telegram: false,
        email: false,
        tesla: false,
        youtube: false,
        core_check_failed: false,
        core_issue: None,
        whatsapp_linked_device_attention: None,
    }
}

/// The state with the bridge's connected flag set to `v`.
pub open spec fn with_bridge(c: ConnectionState, b: Bridge, v: bool) -> ConnectionState {
    match b {
        Bridge::WhatsApp => ConnectionState { whatsapp: v, ..c },
        Bridge::Signal => ConnectionState { signal: v, ..c },
        Bridge::Telegram => ConnectionState { telegram: v, ..c },
    }
}

/// A bridge that is not connected but reports a status other than
/// "not_connected" needs reconnecting.
pub open spec fn needs_reconnect(d: ServiceStatus) -> bool {
    d.connected != Some(true) && text_opt(d.status) != Some("not_connected"@) && d.status is Some
}

/// Records a bridge's status answer. A failed request marks the check
/// incomplete; any answer shows the service is reachable; a readable one sets
/// the bridge's flag, names the bridge when it needs reconnecting, and for
/// WhatsApp records the linked device's state.
pub fn record_bridge(c: &mut ConnectionState, b: Bridge, answer: StatusAnswer)
    ensures
        answer is Failed ==> *final(c) == (ConnectionState { core_check_failed: true, ..*old(c) }),
        answer is Unreadable ==> *final(c) == (ConnectionState { available: true, ..*old(c) }),
        answer matches StatusAnswer::Read(d) ==> {
            let flagged = with_bridge(ConnectionState { available: true, ..*old(c) }, b, d.connected == Some(true));
            &&& *final(c) == (ConnectionState {
                core_issue: final(c).core_issue,
                whatsapp_linked_device_attention: if b == Bridge::WhatsApp {
                    d.linked_device_attention
                } else {
                    old(c).whatsapp_linked_device_attention
                },
                ..flagged
            })
            &&& text_opt(final(c).core_issue) == if needs_reconnect(d) {
                Some(bridge_name_of(b) + " needs reconnecting"@)
            } else {
                text_opt(old(c).core_issue)
            }
        },
{
    match answer {
        StatusAnswer::Failed => {
            c.core_check_failed = true;
        },
        StatusAnswer::Unreadable => {
            c.available = true;
        },
        StatusAnswer::Read(d) => {
            c.available = true;
            let connected = d.connected.unwrap_or(false);
            match b {
                Bridge::WhatsApp => c.whatsapp = connected,
                Bridge::Signal => c.signal = connected,
                Bridge::Telegram => c.telegram = connected,
            }
            let not_connected = match &d.status {
                Some(t) => is_text(t.as_str(), "not_connected"),
                None => true,
            };
            if !connected && !not_connected {
                let mut v = chars_of(bridge_name(b));
                extend_str(&mut v, " needs reconnecting");
                c.core_issue = Some(string_of(v.as_slice()));
            }
            if matches!(b, Bridge::WhatsApp) {
                c.whatsapp_linked_device_attention = d.linked_device_attention;
            }
        },
    }
}

/// Records the email status answer: like a bridge, without the issue text.
pub fn record_email(c: &mut ConnectionState, answer: StatusAnswer)
    ensures
        answer is Failed ==> *final(c) == (ConnectionState { core_check_failed: true, ..*old(c) }),
        answer is Unreadable ==> *final(c) == (ConnectionState { available: true, ..*old(c) }),
        answer matches StatusAnswer::Read(d) ==> *final(c) == (ConnectionState {
            available: true,
            email: d.connected == Some(true),
            ..*old(c)
        }),
{
    match answer {
        StatusAnswer::Failed => c.core_check_failed = true,
        StatusAnswer::Unreadable => c.available = true,
        StatusAnswer::Read(d) => {
            c.available = true;
            c.email = d.connected.unwrap_or(false);
        },
    }
}

/// An integration shown as a quick panel.
#[derive(Clone, Copy, Debug, PartialEq, Eq, Structural)]
pub enum QuickPanel {
    Tesla,
    YouTube,
}

/// Records whether an integration is connected; other answers change nothing.
pub fn record_integration(c: &mut ConnectionState, which: QuickPanel, answer: StatusAnswer)
    ensures
        match answer {
            StatusAnswer::Read(d) => *final(c) == match which {
                QuickPanel::Tesla => ConnectionState { tesla: d.connected == Some(true), ..*old(c) },
                QuickPanel::YouTube => ConnectionState { youtube: d.connected == Some(true), ..*old(c) },
            },
            _ => *final(c) == *old(c),
        },
{
    if let StatusAnswer::Read(d) = answer {
        match which {
            QuickPanel::Tesla => c.tesla = d.connected.unwrap_or(false),
            QuickPanel::YouTube => c.youtube = d.connected.unwrap_or(false),
        }
    }
}

/// The user confirmed opening WhatsApp on the primary phone, and the server
/// took it: the linked device counts as healthy.
pub fn confirm_primary_phone(c: &mut ConnectionState)
    ensures
        *final(c) == (ConnectionState { whatsapp_linked_device_attention: final(c).whatsapp_linked_device_attention, ..*old(c) }),
        text_opt(final(c).whatsapp_linked_device_attention) == Some("healthy"@),
{
    c.whatsapp_linked_device_attention = Some("healthy".to_owned());
}

// ---------------------------------------------------------------------------
// The dashboard home
// ---------------------------------------------------------------------------

/// An item the user asked to remove, awaiting confirmation.
#[derive(Clone, Debug, PartialEq)]
pub struct PendingRemoval {
    pub id: i32,
    pub kind: RemovalKind,
    pub description: String,
}

/// The dialog over the reminders.
#[derive(Clone, Debug, PartialEq)]
pub enum ReminderDialog {
    Create,
    Confirm(PendingRemoval),
}

/// A setting switched from the dashboard, saved in the background.
#[derive(Clone, Copy, Debug, PartialEq, Eq, Structural)]
pub struct PreferenceToggle {
    pub enabled: bool,
    pub saving: bool,
}

/// The settings the dashboard switches.
#[derive(Clone, Copy, Debug, PartialEq, Eq, Structural)]
pub enum Preference {
    CriticalNotifications,
    Digests,
}

/// The profile field a setting is saved in.
pub open spec fn preference_field_of(p: Preference) -> Seq<char> {
    match p {
        Preference::CriticalNotifications => "system_important_notify"@,
        Preference::Digests => "digest_enabled"@,
    }
}

/// The profile field a setting is saved in.
pub fn preference_field(p: Preference) -> (s: &'static str)
    ensures
        s@ == preference_field_of(p),
{
    match p {
        Preference::CriticalNotifications => "system_important_notify",
        Preference::Digests => "digest_enabled",
    }
}

/// The message when a setting could not be saved.
pub open spec fn preference_error_of(p: Preference) -> Seq<char> {
    match p {
        Preference::CriticalNotifications => "Critical notification setting could not be saved. Try again."@,
        Preference::Digests => "Digest setting could not be saved. Try again."@,
    }
}

/// What a setting's switch says.
pub open spec fn toggle_text_of(t: PreferenceToggle) -> Seq<char> {
    if t.saving {
        "Saving…"@
    } else if t.enabled {
        "On"@
    } else {
        "Off"@
    }
}

/// What a setting's switch says.
pub fn toggle_text(t: PreferenceToggle) -> (s: &'static str)
    ensures
        s@ == toggle_text_of(t),
{
    if t.saving {
        "Saving…"
    } else if t.enabled {
        "On"
    } else {
        "Off"
    }
}

/// The message when a reminder has no text.
pub open spec fn empty_reminder_error() -> Seq<char> {
    "Enter what you want to be reminded about."@
}

/// The message when the reminder time is not a date and time.
pub open spec fn bad_time_error() -> Seq<char> {
    "Choose a valid date and time."@
}


/// Whether the dialog asks to confirm a removal.
pub open spec fn confirming(d: Option<ReminderDialog>) -> bool {
    d matches Some(ReminderDialog::Confirm(_))
}

/// The dashboard home: reminders, waits, their dialog, settings and panels.
#[derive(Clone, Debug)]
pub struct HomePanel {
    pub reminders: Vec<UpcomingReminder>,
    pub waits: Vec<ActiveWait>,
    pub dialog: Option<ReminderDialog>,
    /// The reminder text as typed.
    pub message: String,
    /// The reminder time as typed (a local date and time).
    pub at: String,
    pub saving: bool,
    pub error: Option<String>,
    pub critical: PreferenceToggle,
    pub digests: PreferenceToggle,
    pub preference_error: Option<String>,
    pub quick_panel: Option<QuickPanel>,
    pub selected_video: Option<MediaItem>,
    pub show_history: bool,
    /// The WhatsApp primary phone confirmation is being saved.
    pub confirm_saving: bool,
    /// What the assistant did in the last period, once the summary arrived.
    pub value_stats: Option<DashboardValueStats>,
}

impl HomePanel {
    /// The home before anything loaded, with the settings as the profile has them.
    pub fn new(critical: bool, digests: bool, default_at: String) -> (h: Self)
        ensures
            h.reminders@.len() == 0 && h.waits@.len() == 0,
            h.dialog is None && h.message@.len() == 0 && h.at == default_at,
            !h.saving && h.error is None,
            h.critical == (PreferenceToggle { enabled: critical, saving: false }),
            h.digests == (PreferenceToggle { enabled: digests, saving: false }),
            h.preference_error is None && h.quick_panel is None && h.selected_video is None,
            !h.show_history && !h.confirm_saving,
            h.value_stats is None,
    {
        HomePanel {
            reminders: Vec::new(),
            waits: Vec::new(),
            dialog: None,
            message: String::new(),
            at: default_at,
            saving: false,
            error: None,
            critical: PreferenceToggle { enabled: critical, saving: false },
            digests: PreferenceToggle { enabled: digests, saving: false },
            preference_error: None,
            quick_panel: None,
            selected_video: None,
            show_history: false,
            confirm_saving: false,
            value_stats: None,
        }
    }

    /// The dashboard summary arrived at time `now`: the reminders still to come,
    /// by time, the active waits, and what the assistant did in the last period.
    pub fn on_summary(&mut self, stats: DashboardValueStats, events: Vec<UpcomingReminder>, waits: Vec<ActiveWait>, now: i32)
        ensures
            *final(self) == (HomePanel { reminders: final(self).reminders, waits, value_stats: Some(stats), ..*old(self) }),
            final(self).reminders@ == upcoming_of(events@, now as int),
    {
        self.reminders = upcoming_reminders(events, now);
        self.waits = waits;
        self.value_stats = Some(stats);
    }

    /// The line about the last period, once the summary arrived.
    pub fn value_line(&self) -> (line: Option<String>)
        ensures
            match self.value_stats {
                Some(st) => line matches Some(t) && t@ == value_sentence_of(st),
                None => line is None,
            },
    {
        match &self.value_stats {
            Some(st) => Some(value_sentence(st)),
            None => None,
        }
    }

    /// The add-reminder dialog opens, empty, at the default time.
    pub fn open_create(&mut self, default_at: String)
        ensures
            *final(self) == (HomePanel {
                dialog: Some(ReminderDialog::Create),
                message: final(self).message,
                at: default_at,
                error: None,
                ..*old(self)
            }),
            final(self).message@.len() == 0,
    {
        self.message = String::new();
        self.at = default_at;
        self.error = None;
        self.dialog = Some(ReminderDialog::Create);
    }

    /// The dialog closes, unless a request is on its way.
    pub fn close_dialog(&mut self)
        ensures
            old(self).saving ==> *final(self) == *old(self),
            !old(self).saving ==> *final(self) == (HomePanel { dialog: None, error: None, ..*old(self) }),
    {
        if !self.saving {
            self.error = None;
            self.dialog = None;
        }
    }

    /// The reminder text as typed.
    pub fn set_message(&mut self, text: String)
        ensures
            *final(self) == (HomePanel { message: text, ..*old(self) }),
    {
        self.message = text;
    }

    /// The reminder time as typed.
    pub fn set_at(&mut self, text: String)
        ensures
            *final(self) == (HomePanel { at: text, ..*old(self) }),
    {
        self.at = text;
    }

    /// The reminder time without surrounding white space, as it is read.
    pub fn trimmed_at(&self) -> (s: String)
        ensures
            s@ == trim(self.at@),
    {
        let cs = chars_of(self.at.as_str());
        let t = trimmed(cs.as_slice());
        string_of(t.as_slice())
    }

    /// The reminder form was submitted, with the time read as an RFC 3339
    /// instant (`None` when it is not a date and time). Nothing happens while a
    /// request is on its way; an empty text or a bad time is reported; otherwise
    /// the trimmed text and the instant are returned to be sent.
    pub fn submit_reminder(&mut self, instant: Option<String>) -> (send: Option<(String, String)>)
        ensures
            old(self).saving ==> send is None && *final(self) == *old(self),
            !old(self).saving && trim(old(self).message@).len() == 0 ==> {
                &&& send is None
                &&& *final(self) == (HomePanel { error: final(self).error, ..*old(self) })
                &&& text_opt(final(self).error) == Some(empty_reminder_error())
            },
            !old(self).saving && trim(old(self).message@).len() != 0 && instant is None ==> {
                &&& send is None
                &&& *final(self) == (HomePanel { error: final(self).error, ..*old(self) })
                &&& text_opt(final(self).error) == Some(bad_time_error())
            },
            !old(self).saving && trim(old(self).message@).len() != 0 && instant is Some ==> {
                &&& send matches Some((m, t)) && m@ == trim(old(self).message@) && Some(t@) == text_opt(instant)
                &&& *final(self) == (HomePanel { saving: true, error: None, ..*old(self) })
            },
    {
        if self.saving {
            return None;
        }
        let cs = chars_of(self.message.as_str());
        let clean = trimmed(cs.as_slice());
        if clean.len() == 0 {
            self.error = Some("Enter what you want to be reminded about.".to_owned());
            return None;
        }
        match instant {
            None => {
                self.error = Some("Choose a valid date and time.".to_owned());
                None
            },
            Some(t) => {
                self.saving = true;
                self.error = None;
                Some((string_of(clean.as_slice()), t))
            },
        }
    }

    /// The server answered the new reminder: when created it joins the list and
    /// the dialog closes, otherwise the dialog says why it may have failed.
    pub fn on_created(&mut self, created: Option<UpcomingReminder>)
        ensures
            created matches Some(r) ==> {
                &&& *final(self) == (HomePanel { reminders: final(self).reminders, dialog: None, saving: false, ..*old(self) })
                &&& final(self).reminders@ == by_time(old(self).reminders@.push(r))
            },
            created is None ==> {
                &&& *final(self) == (HomePanel { error: final(self).error, saving: false, ..*old(self) })
                &&& text_opt(final(self).error) == Some(
                    "Could not create that reminder. Choose a time at least one minute ahead."@,
                )
            },
    {
        match created {
            Some(r) => {
                let mut list = Vec::new();
                std::mem::swap(&mut list, &mut self.reminders);
                self.reminders = with_created(list, r);
                self.dialog = None;
            },
            None => {
                self.error = Some("Could not create that reminder. Choose a time at least one minute ahead.".to_owned());
            },
        }
        self.saving = false;
    }

    /// The user asked to remove an item: the dialog asks to confirm.
    pub fn ask_to_remove(&mut self, removal: PendingRemoval)
        ensures
            *final(self) == (HomePanel { dialog: Some(ReminderDialog::Confirm(removal)), error: None, ..*old(self) }),
    {
        self.error = None;
        self.dialog = Some(ReminderDialog::Confirm(removal));
    }

    /// The user confirmed the removal: returns the endpoint to call, or
    /// nothing while a request is on its way or when no removal is asked.
    pub fn confirm_removal(&mut self) -> (path: Option<String>)
        ensures
            !old(self).saving ==> (old(self).dialog matches Some(ReminderDialog::Confirm(r)) ==> {
                &&& path matches Some(p) && p@ == removal_path_of(r.kind, r.id as int)
                &&& *final(self) == (HomePanel { saving: true, error: None, ..*old(self) })
            }),
            old(self).saving || !confirming(old(self).dialog) ==> {
                &&& path is None
                &&& *final(self) == *old(self)
            },
    {
        if self.saving {
            return None;
        }
        match &self.dialog {
            Some(ReminderDialog::Confirm(r)) => {
                let p = removal_path(r.kind, r.id);
                self.saving = true;
                self.error = None;
                Some(p)
            },
            _ => None,
        }
    }

    /// The server answered the removal of the item `id` of kind `kind`: when
    /// removed it leaves its list and the dialog closes, otherwise the dialog
    /// says so.
    pub fn on_removed(&mut self, id: i32, kind: RemovalKind, removed: bool)
        ensures
            removed && kind == RemovalKind::Reminder ==> {
                &&& *final(self) == (HomePanel { reminders: final(self).reminders, dialog: None, saving: false, ..*old(self) })
                &&& final(self).reminders@ == without_reminder(old(self).reminders@, id)
            },
            removed && kind != RemovalKind::Reminder ==> {
                &&& *final(self) == (HomePanel { waits: final(self).waits, dialog: None, saving: false, ..*old(self) })
                &&& final(self).waits@ == without_wait(old(self).waits@, id, kind)
            },
            !removed ==> {
                &&& *final(self) == (HomePanel { error: final(self).error, saving: false, ..*old(self) })
                &&& text_opt(final(self).error) == Some("Could not remove that item. Try again."@)
            },
    {
        if removed {
            match kind {
                RemovalKind::Reminder => {
                    let mut list = Vec::new();
                std::mem::swap(&mut list, &mut self.reminders);
                    self.reminders = remove_reminder(list, id);
                },
                _ => {
                    let mut list = Vec::new();
                std::mem::swap(&mut list, &mut self.waits);
                    self.waits = remove_wait(list, id, kind);
                },
            }
            self.dialog = None;
        } else {
            self.error = Some("Could not remove that item. Try again.".to_owned());
        }
        self.saving = false;
    }

    /// A setting's switch.
    pub open spec fn toggle_of(self, p: Preference) -> PreferenceToggle {
        match p {
            Preference::CriticalNotifications => self.critical,
            Preference::Digests => self.digests,
        }
    }

    /// The home with a setting's switch replaced.
    pub open spec fn with_toggle(self, p: Preference, t: PreferenceToggle) -> HomePanel {
        match p {
            Preference::CriticalNotifications => HomePanel { critical: t, ..self },
            Preference::Digests => HomePanel { digests: t, ..self },
        }
    }

    fn set_toggle(&mut self, p: Preference, t: PreferenceToggle)
        ensures
            *final(self) == old(self).with_toggle(p, t),
    {
        match p {
            Preference::CriticalNotifications => self.critical = t,
            Preference::Digests => self.digests = t,
        }
    }

    /// A setting's switch was pressed: it flips at once and the new value is
    /// returned to be saved; nothing happens while it is being saved.
    pub fn toggle_preference(&mut self, p: Preference) -> (save: Option<bool>)
        ensures
            old(self).toggle_of(p).saving ==> save is None && *final(self) == *old(self),
            !old(self).toggle_of(p).saving ==> {
                &&& save == Some(!old(self).toggle_of(p).enabled)
                &&& *final(self) == (HomePanel {
                    preference_error: None,
                    ..old(self).with_toggle(p, PreferenceToggle { enabled: !old(self).toggle_of(p).enabled, saving: true })
                })
            },
    {
        let t = match p {
            Preference::CriticalNotifications => self.critical,
            Preference::Digests => self.digests,
        };
        if t.saving {
            return None;
        }
        let next = !t.enabled;
        self.set_toggle(p, PreferenceToggle { enabled: next, saving: true });
        self.preference_error = None;
        Some(next)
    }

    /// The server answered saving `next`: when it failed the switch goes back
    /// and the error says so.
    pub fn on_preference_saved(&mut self, p: Preference, next: bool, saved: bool)
        ensures
            saved ==> *final(self) == old(self).with_toggle(p, PreferenceToggle { enabled: old(self).toggle_of(p).enabled, saving: false }),
            !saved ==> {
                &&& *final(self) == (HomePanel {
                    preference_error: final(self).preference_error,
                    ..old(self).with_toggle(p, PreferenceToggle { enabled: !next, saving: false })
                })
                &&& text_opt(final(self).preference_error) == Some(preference_error_of(p))
            },
    {
        let t = match p {
            Preference::CriticalNotifications => self.critical,
            Preference::Digests => self.digests,
        };
        if saved {
            self.set_toggle(p, PreferenceToggle { enabled: t.enabled, saving: false });
        } else {
            self.set_toggle(p, PreferenceToggle { enabled: !next, saving: false });
            self.preference_error = Some(
                match p {
                    Preference::CriticalNotifications => "Critical notification setting could not be saved. Try again.".to_owned(),
                    Preference::Digests => "Digest setting could not be saved. Try again.".to_owned(),
                },
            );
        }
    }

    /// The Tesla button opens its panel, or closes it when open.
    pub fn toggle_tesla_panel(&mut self)
        ensures
            *final(self) == (HomePanel {
                quick_panel: if old(self).quick_panel == Some(QuickPanel::Tesla) { None } else { Some(QuickPanel::Tesla) },
                ..*old(self)
            }),
    {
        self.quick_panel = match self.quick_panel {
            Some(QuickPanel::Tesla) => None,
            _ => Some(QuickPanel::Tesla),
        };
    }

    /// The YouTube button drops the playing video and opens its panel, or closes
    /// it when open.
    pub fn toggle_youtube_panel(&mut self)
        ensures
            *final(self) == (HomePanel {
                quick_panel: if old(self).quick_panel == Some(QuickPanel::YouTube) { None } else { Some(QuickPanel::YouTube) },
                selected_video: None,
                ..*old(self)
            }),
    {
        self.selected_video = None;
        self.quick_panel = match self.quick_panel {
            Some(QuickPanel::YouTube) => None,
            _ => Some(QuickPanel::YouTube),
        };
    }

    /// Whether the YouTube button shows as active.
    pub fn youtube_active(&self) -> (b: bool)
        ensures
            b == (self.quick_panel == Some(QuickPanel::YouTube) || self.selected_video is Some),
    {
        matches!(self.quick_panel, Some(QuickPanel::YouTube)) || self.selected_video.is_some()
    }

    /// A video was picked in the YouTube panel: it plays, and the panel closes.
    pub fn select_video(&mut self, video: MediaItem)
        ensures
            *final(self) == (HomePanel { selected_video: Some(video), quick_panel: None, ..*old(self) }),
    {
        self.selected_video = Some(video);
        self.quick_panel = None;
    }

    /// Back from the playing video to the video list.
    pub fn back_to_videos(&mut self)
        ensures
            *final(self) == (HomePanel { selected_video: None, quick_panel: Some(QuickPanel::YouTube), ..*old(self) }),
    {
        self.selected_video = None;
        self.quick_panel = Some(QuickPanel::YouTube);
    }

    /// The playing video closes.
    pub fn close_video(&mut self)
        ensures
            *final(self) == (HomePanel { selected_video: None, ..*old(self) }),
    {
        self.selected_video = None;
    }

    /// A quick panel closes.
    pub fn close_quick_panel(&mut self)
        ensures
            *final(self) == (HomePanel { quick_panel: None, ..*old(self) }),
    {
        self.quick_panel = None;
    }

    /// The history view opens, or closes when open.
    pub fn toggle_history(&mut self)
        ensures
            *final(self) == (HomePanel { show_history: !old(self).show_history, ..*old(self) }),
    {
        self.show_history = !self.show_history;
    }

    /// "I opened WhatsApp" was pressed: returns whether to send it; nothing
    /// happens while it is being saved.
    pub fn press_confirm_phone(&mut self) -> (send: bool)
        ensures
            send == !old(self).confirm_saving,
            *final(self) == (HomePanel { confirm_saving: true, ..*old(self) }),
    {
        if self.confirm_saving {
            return false;
        }
        self.confirm_saving = true;
        true
    }

    /// The confirmation was answered: when saved, the linked device counts as
    /// healthy.
    pub fn on_phone_confirmed(&mut self, connections: &mut ConnectionState, saved: bool)
        ensures
            *final(self) == (HomePanel { confirm_saving: false, ..*old(self) }),
            saved ==> text_opt(final(connections).whatsapp_linked_device_attention) == Some("healthy"@),
            saved ==> *final(connections) == (ConnectionState {
                whatsapp_linked_device_attention: final(connections).whatsapp_linked_device_attention,
                ..*old(connections)
            }),
            !saved ==> *final(connections) == *old(connections),
    {
        if saved {
            confirm_primary_phone(connections);
        }
        self.confirm_saving = false;
    }
}


// ---------------------------------------------------------------------------
// Laws
// ---------------------------------------------------------------------------

/// Earlier times first: every reminder's time is at or before every later one's.
pub open spec fn sorted_by_time(s: Seq<UpcomingReminder>) -> bool {
    forall|i: int, j: int| 0 <= i < j < s.len() ==> time_le(#[trigger] s[i].remind_at, #[trigger] s[j].remind_at)
}

proof fn lemma_ms_cons<A>(s: Seq<A>)
    requires
        s.len() > 0,
    ensures
        s.to_multiset() =~= s.drop_first().to_multiset().insert(s[0]),
{
    broadcast use vstd::seq_lib::group_to_multiset_ensures;
    broadcast use vstd::multiset::group_multiset_axioms;
    assert(s.remove(0) =~= s.drop_first());
    assert(s.contains(s[0]));
    assert(s.to_multiset().count(s[0]) > 0);
}

proof fn lemma_ms_empty<A>(s: Seq<A>)
    requires
        s.len() == 0,
    ensures
        s.to_multiset() =~= vstd::multiset::Multiset::empty(),
{
    broadcast use vstd::seq_lib::group_to_multiset_ensures;
    vstd::multiset::lemma_multiset_empty_len(s.to_multiset());
}

proof fn lemma_place_bound(s: Seq<UpcomingReminder>, x: UpcomingReminder, b: Option<i32>)
    requires
        time_le(b, x.remind_at),
        forall|j: int| 0 <= j < s.len() ==> time_le(b, #[trigger] s[j].remind_at),
    ensures
        place(s, x).len() == s.len() + 1,
        forall|k: int| 0 <= k < place(s, x).len() ==> time_le(b, #[trigger] place(s, x)[k].remind_at),
    decreases s.len(),
{
    if s.len() > 0 && !time_le(x.remind_at, s[0].remind_at) {
        let t = s.drop_first();
        lemma_place_bound(t, x, b);
        let r = place(s, x);
        assert forall|k: int| 0 <= k < r.len() implies time_le(b, #[trigger] r[k].remind_at) by {
            if k > 0 {
                assert(r[k] == place(t, x)[k - 1]);
            }
        }
    } else if s.len() > 0 {
        let r = place(s, x);
        assert forall|k: int| 0 <= k < r.len() implies time_le(b, #[trigger] r[k].remind_at) by {
            if k > 0 {
                assert(r[k] == s[k - 1]);
            }
        }
    }
}

proof fn lemma_place_sorted(s: Seq<UpcomingReminder>, x: UpcomingReminder)
    requires
        sorted_by_time(s),
    ensures
        sorted_by_time(place(s, x)),
        place(s, x).to_multiset() == s.to_multiset().insert(x),
    decreases s.len(),
{
    broadcast use vstd::multiset::group_multiset_axioms;
    if s.len() == 0 {
        lemma_ms_cons(place(s, x));
        lemma_ms_empty(place(s, x).drop_first());
        lemma_ms_empty(s);
    } else if time_le(x.remind_at, s[0].remind_at) {
        let r = place(s, x);
        assert(r == seq![x] + s);
        assert forall|i: int, j: int| 0 <= i < j < r.len() implies time_le(#[trigger] r[i].remind_at, #[trigger] r[j].remind_at) by {
            if i == 0 {
                assert(r[j] == s[j - 1]);
                if j - 1 > 0 {
                    assert(time_le(s[0].remind_at, s[j - 1].remind_at));
                }
            } else {
                assert(r[i] == s[i - 1]);
                assert(r[j] == s[j - 1]);
            }
        }
        assert(r.drop_first() =~= s);
        lemma_ms_cons(r);
    } else {
        let t = s.drop_first();
        assert(sorted_by_time(t)) by {
            assert forall|i: int, j: int| 0 <= i < j < t.len() implies time_le(#[trigger] t[i].remind_at, #[trigger] t[j].remind_at) by {
                assert(t[i] == s[i + 1]);
                assert(t[j] == s[j + 1]);
            }
        }
        lemma_place_sorted(t, x);
        assert forall|j: int| 0 <= j < t.len() implies time_le(s[0].remind_at, #[trigger] t[j].remind_at) by {
            assert(t[j] == s[j + 1]);
        }
        lemma_place_bound(t, x, s[0].remind_at);
        let r = place(s, x);
        let pt = place(t, x);
        assert(r == seq![s[0]] + pt);
        assert forall|i: int, j: int| 0 <= i < j < r.len() implies time_le(#[trigger] r[i].remind_at, #[trigger] r[j].remind_at) by {
            assert(r[j] == pt[j - 1]);
            if i > 0 {
                assert(r[i] == pt[i - 1]);
            }
        }
        assert(r.drop_first() =~= pt);
        lemma_ms_cons(s);
        lemma_ms_cons(r);
        assert(r.to_multiset() =~= s.to_multiset().insert(x));
    }
}

proof fn lemma_by_time(s: Seq<UpcomingReminder>)
    ensures
        sorted_by_time(by_time(s)),
        by_time(s).to_multiset() == s.to_multiset(),
    decreases s.len(),
{
    broadcast use vstd::multiset::group_multiset_axioms;
    if s.len() == 0 {
        lemma_ms_empty(s);
        lemma_ms_empty(by_time(s));
    } else {
        lemma_by_time(s.drop_first());
        lemma_place_sorted(by_time(s.drop_first()), s[0]);
        lemma_ms_cons(s);
    }
}

proof fn lemma_ahead_of(s: Seq<UpcomingReminder>, now: int)
    ensures
        forall|r: UpcomingReminder| #[trigger] ahead_of(s, now).to_multiset().count(r)
            == if still_ahead(r, now) { s.to_multiset().count(r) } else { 0 },
    decreases s.len(),
{
    broadcast use vstd::multiset::group_multiset_axioms;
    if s.len() > 0 {
        let t = s.drop_first();
        lemma_ahead_of(t, now);
        lemma_ms_cons(s);
        if still_ahead(s[0], now) {
            let a = ahead_of(s, now);
            assert(a.drop_first() =~= ahead_of(t, now));
            lemma_ms_cons(a);
        }
    } else {
        lemma_ms_empty(ahead_of(s, now));
        lemma_ms_empty(s);
    }
}

/// The dashboard lists exactly the reminders still to come at `now`, each as
/// often as the summary had it, earliest first.
pub proof fn law_upcoming_lists_what_is_ahead_in_time_order(s: Seq<UpcomingReminder>, now: int)
    ensures
        sorted_by_time(upcoming_of(s, now)),
        forall|r: UpcomingReminder| #[trigger] upcoming_of(s, now).to_multiset().count(r)
            == if still_ahead(r, now) { s.to_multiset().count(r) } else { 0 },
{
    lemma_ahead_of(s, now);
    lemma_by_time(ahead_of(s, now));
}

/// A created reminder joins the list, which stays in time order and loses
/// nothing.
pub proof fn law_created_reminder_joins_in_order(s: Seq<UpcomingReminder>, created: UpcomingReminder)
    ensures
        sorted_by_time(by_time(s.push(created))),
        by_time(s.push(created)).to_multiset() == s.to_multiset().insert(created),
{
    broadcast use vstd::seq_lib::group_to_multiset_ensures;
    lemma_by_time(s.push(created));
}

/// Removing a reminder drops every reminder with its id and keeps every other.
pub proof fn law_removed_reminder_is_gone(s: Seq<UpcomingReminder>, id: i32)
    ensures
        forall|r: UpcomingReminder| #[trigger] without_reminder(s, id).to_multiset().count(r)
            == if r.id == id { 0 } else { s.to_multiset().count(r) },
    decreases s.len(),
{
    broadcast use vstd::multiset::group_multiset_axioms;
    if s.len() > 0 {
        let t = s.drop_first();
        law_removed_reminder_is_gone(t, id);
        lemma_ms_cons(s);
        if s[0].id != id {
            let a = without_reminder(s, id);
            assert(a.drop_first() =~= without_reminder(t, id));
            lemma_ms_cons(a);
        }
    } else {
        lemma_ms_empty(without_reminder(s, id));
        lemma_ms_empty(s);
    }
}

/// Cancelling a wait drops exactly the waits with its id that the removal
/// applies to, and keeps every other.
pub proof fn law_cancelled_wait_is_gone(s: Seq<ActiveWait>, id: i32, kind: RemovalKind)
    ensures
        forall|w: ActiveWait| #[trigger] without_wait(s, id, kind).to_multiset().count(w)
            == if w.id == id && kind_matches(kind, w.kind@) { 0 } else { s.to_multiset().count(w) },
    decreases s.len(),
{
    broadcast use vstd::multiset::group_multiset_axioms;
    if s.len() > 0 {
        let t = s.drop_first();
        law_cancelled_wait_is_gone(t, id, kind);
        lemma_ms_cons(s);
        if s[0].id != id || !kind_matches(kind, s[0].kind@) {
            let a = without_wait(s, id, kind);
            assert(a.drop_first() =~= without_wait(t, id, kind));
            lemma_ms_cons(a);
        }
    } else {
        lemma_ms_empty(without_wait(s, id, kind));
        lemma_ms_empty(s);
    }
}

} // verus!
