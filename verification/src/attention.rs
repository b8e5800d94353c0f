use vstd::prelude::*;
use crate::media::text_opt;
use crate::text::{
    chars_of, extend_chars, extend_str, occurs, is_text, join, join_strs, lemma_has_middle,
    lemma_join_has, string_of,
};

verus! {

/// What the dashboard knows about the user's connections.
#[derive(Clone, PartialEq)]
pub struct ConnectionState {
    pub loaded: bool,
    pub available: bool,
    pub whatsapp: bool,
    pub signal: bool,
    pub telegram: bool,
    pub email: bool,
    pub tesla: bool,
    pub youtube: bool,
    pub core_check_failed: bool,
    pub core_issue: Option<String>,
    pub whatsapp_linked_device_attention: Option<String>,
}

impl Default for ConnectionState {
    fn default() -> (c: Self)
        ensures
            !c.loaded && !c.available && !c.whatsapp && !c.signal && !c.telegram && !c.email,
            !c.tesla && !c.youtube && !c.core_check_failed,
            c.core_issue is None && c.whatsapp_linked_device_attention is None,
    {
        ConnectionState {
            loaded: false,
            available: false,
            whatsapp: false,
            signal: false,
            telegram: false,
            email: false,
            tesla: false,
            youtube: false,
            core_check_failed: false,
            core_issue: None,
            whatsapp_linked_device_attention: None,
        }
    }
}

/// What the dashboard's status area tells the user.
#[derive(Clone, Copy, Debug, PartialEq, Eq, Structural)]
pub enum DashboardAttentionState {
    Loading,
    StatusUnavailable,
    IntegrationIssue,
    WhatsappActionNow,
    WhatsappRiskSoon,
    Healthy,
    SetupNeeded,
}

/// The names of the connected message services, in a fixed order.
pub open spec fn names_of(c: ConnectionState) -> Seq<Seq<char>> {
    let a = if c.whatsapp { seq!["WhatsApp"@] } else { Seq::empty() };
    let b = if c.signal { seq!["Signal"@] } else { Seq::empty() };
    let d = if c.telegram { seq!["Telegram"@] } else { Seq::empty() };
    let e = if c.email { seq!["Email"@] } else { Seq::empty() };
    a + b + d + e
}

/// Some message service is connected.
pub open spec fn any_message_service(c: ConnectionState) -> bool {
    c.whatsapp || c.signal || c.telegram || c.email
}

/// The attention state for `c`, most urgent condition first.
pub open spec fn attention_of(c: ConnectionState) -> DashboardAttentionState {
    if !c.loaded {
        DashboardAttentionState::Loading
    } else if !c.available || c.core_check_failed {
        DashboardAttentionState::StatusUnavailable
    } else if c.core_issue is Some {
        DashboardAttentionState::IntegrationIssue
    } else if text_opt(c.whatsapp_linked_device_attention) == Some("action_now"@) {
        DashboardAttentionState::WhatsappActionNow
    } else if text_opt(c.whatsapp_linked_device_attention) == Some("risk_soon"@) {
        DashboardAttentionState::WhatsappRiskSoon
    } else if names_of(c).len() != 0 {
        DashboardAttentionState::Healthy
    } else {
        DashboardAttentionState::SetupNeeded
    }
}

/// The chat service used in examples that send a message.
pub open spec fn bridge_of(c: ConnectionState) -> Option<Seq<char>> {
    if c.whatsapp {
        Some("WhatsApp"@)
    } else if c.telegram {
        Some("Telegram"@)
    } else if c.signal {
        Some("Signal"@)
    } else {
        None
    }
}

/// The six example requests shown to the user.
pub open spec fn examples_of(c: ConnectionState) -> Seq<Seq<char>> {
    let has_messages = names_of(c).len() != 0;
    let e0 = if has_messages {
        "Catch me up on recent messages across "@ + join(names_of(c), ", "@) + "."@
    } else {
        "Connect a message service to ask for a catch-up."@
    };
    let e1 = match bridge_of(c) {
        Some(p) => "Send ‘Running late’ to Alex on "@ + p + "."@,
        None => "Connect WhatsApp, Telegram, or Signal to send a message."@,
    };
    let e2 = "Remind me tomorrow at 9 AM to call the dentist. What exact time is that?"@;
    let e3 = match bridge_of(c) {
        Some(p) => "Send ‘Can you confirm?’ to Alex on "@ + p + " and tell me when they reply."@,
        None => "Connect a chat service to wait for someone’s reply."@,
    };
    let e4 = "How can I quiet noncritical alerts for the next hour?"@;
    let e5 = if has_messages {
        "How do I manage my connected services?"@
    } else {
        "Which message services can I connect?"@
    };
    seq![e0, e1, e2, e3, e4, e5]
}

impl ConnectionState {
    /// The names of the connected message services.
    pub fn names(&self) -> (r: Vec<&'static str>)
        ensures
            r@.map_values(|s: &str| s@) == names_of(*self),
    {
        let mut names: Vec<&'static str> = Vec::new();
        if self.whatsapp {
            names.push("WhatsApp");
        }
        if self.signal {
            names.push("Signal");
        }
        if self.telegram {
            names.push("Telegram");
        }
        if self.email {
            names.push("Email");
        }
        assert(names@.map_values(|s: &str| s@) =~= names_of(*self));
        names
    }
}

fn opt_is(o: &Option<String>, lit: &str) -> (b: bool)
    ensures
        b == (text_opt(*o) == Some(lit@)),
{
    match o {
        Some(s) => is_text(s.as_str(), lit),
        None => false,
    }
}

/// The attention state for the dashboard's status area.
pub fn dashboard_attention_state(connections: &ConnectionState) -> (s: DashboardAttentionState)
    ensures
        s == attention_of(*connections),
{
    if !connections.loaded {
        DashboardAttentionState::Loading
    } else if !connections.available || connections.core_check_failed {
        DashboardAttentionState::StatusUnavailable
    } else if connections.core_issue.is_some() {
        DashboardAttentionState::IntegrationIssue
    } else if opt_is(&connections.whatsapp_linked_device_attention, "action_now") {
        DashboardAttentionState::WhatsappActionNow
    } else if opt_is(&connections.whatsapp_linked_device_attention, "risk_soon") {
        DashboardAttentionState::WhatsappRiskSoon
    } else if connections.names().len() != 0 {
        DashboardAttentionState::Healthy
    } else {
        DashboardAttentionState::SetupNeeded
    }
}

fn around(prefix: &str, middle: &[char], suffix: &str) -> (s: String)
    ensures
        s@ == prefix@ + middle@ + suffix@,
{
    let mut v = chars_of(prefix);
    extend_chars(&mut v, middle);
    extend_str(&mut v, suffix);
    string_of(v.as_slice())
}

fn bridge(connections: &ConnectionState) -> (b: Option<&'static str>)
    ensures
        b matches Some(p) ==> bridge_of(*connections) == Some(p@),
        b is None ==> bridge_of(*connections) is None,
{
    if connections.whatsapp {
        Some("WhatsApp")
    } else if connections.telegram {
        Some("Telegram")
    } else if connections.signal {
        Some("Signal")
    } else {
        None
    }
}

fn catch_up_example(connections: &ConnectionState) -> (s: String)
    ensures
        s@ == examples_of(*connections)[0],
{
    let names = connections.names();
    if names.len() != 0 {
        let source = join_strs(&names, ", ");
        around("Catch me up on recent messages across ", source.as_slice(), ".")
    } else {
        "Connect a message service to ask for a catch-up.".to_owned()
    }
}

fn send_example(connections: &ConnectionState) -> (s: String)
    ensures
        s@ == examples_of(*connections)[1],
{
    match bridge(connections) {
        Some(p) => {
            let pc = chars_of(p);
            around("Send ‘Running late’ to Alex on ", pc.as_slice(), ".")
        },
        None => "Connect WhatsApp, Telegram, or Signal to send a message.".to_owned(),
    }
}

fn wait_example(connections: &ConnectionState) -> (s: String)
    ensures
        s@ == examples_of(*connections)[3],
{
    match bridge(connections) {
        Some(p) => {
            let pc = chars_of(p);
            around("Send ‘Can you confirm?’ to Alex on ", pc.as_slice(), " and tell me when they reply.")
        },
        None => "Connect a chat service to wait for someone’s reply.".to_owned(),
    }
}

fn manage_example(connections: &ConnectionState) -> (s: String)
    ensures
        s@ == examples_of(*connections)[5],
{
    if connections.names().len() != 0 {
        "How do I manage my connected services?".to_owned()
    } else {
        "Which message services can I connect?".to_owned()
    }
}

/// Example requests to try, tuned to the connected services.
pub fn try_asking_examples(connections: &ConnectionState) -> (r: Vec<String>)
    ensures
        r.len() == 6,
        forall|i: int| 0 <= i < 6 ==> #[trigger] r@[i]@ == examples_of(*connections)[i],
{
    let ghost ex = examples_of(*connections);
    let mut r: Vec<String> = Vec::new();
    r.push(catch_up_example(connections));
    r.push(send_example(connections));
    r.push("Remind me tomorrow at 9 AM to call the dentist. What exact time is that?".to_owned());
    r.push(wait_example(connections));
    r.push("How can I quiet noncritical alerts for the next hour?".to_owned());
    r.push(manage_example(connections));
    assert(r@[2]@ == ex[2]);
    assert(r@[4]@ == ex[4]);
    r
}

/// A kind of item the user can ask to remove.
#[derive(Clone, Copy, Debug, PartialEq, Eq, Structural)]
pub enum RemovalKind {
    Reminder,
    ReplyWatch,
    Suppression,
}

/// Whether a removal of kind `k` applies to an active wait of kind `wait_kind`.
pub open spec fn kind_matches(k: RemovalKind, wait_kind: Seq<char>) -> bool {
    match k {
        RemovalKind::Reminder => false,
        RemovalKind::ReplyWatch => wait_kind == "reply_watch"@,
        RemovalKind::Suppression => wait_kind != "reply_watch"@,
    }
}

impl RemovalKind {
    /// Whether this removal applies to an active wait of kind `wait_kind`.
    pub fn matches_wait(self, wait_kind: &str) -> (b: bool)
        ensures
            b == kind_matches(self, wait_kind@),
    {
        match self {
            RemovalKind::Reminder => false,
            RemovalKind::ReplyWatch => is_text(wait_kind, "reply_watch"),
            RemovalKind::Suppression => !is_text(wait_kind, "reply_watch"),
        }
    }
}

// ---------------------------------------------------------------------------
// Laws
// ---------------------------------------------------------------------------

/// The dashboard only reports "nothing needs attention" when status was fully
/// checked, no service has a problem, WhatsApp's linked device is not at risk,
/// and at least one message service is connected.
pub proof fn law_healthy_only_without_attention_conditions(c: ConnectionState)
    ensures
        attention_of(c) == DashboardAttentionState::Healthy <==> {
            &&& c.loaded
            &&& c.available
            &&& !c.core_check_failed
            &&& c.core_issue is None
            &&& text_opt(c.whatsapp_linked_device_attention) != Some("action_now"@)
            &&& text_opt(c.whatsapp_linked_device_attention) != Some("risk_soon"@)
            &&& any_message_service(c)
        },
{
}

/// A status check that did not complete never claims the dashboard is healthy:
/// once loaded, a failed check is reported as unavailable status.
pub proof fn law_incomplete_status_check_is_unavailable(c: ConnectionState)
    requires
        c.loaded,
        c.core_check_failed,
    ensures
        attention_of(c) == DashboardAttentionState::StatusUnavailable,
{
}

/// A problem with a connected service outranks every WhatsApp or healthy state.
pub proof fn law_integration_issue_outranks_healthy(c: ConnectionState)
    requires
        c.loaded,
        c.available,
        !c.core_check_failed,
        c.core_issue is Some,
    ensures
        attention_of(c) == DashboardAttentionState::IntegrationIssue,
{
}

/// A linked device that needs action now is reported ahead of one at risk soon
/// and ahead of the healthy state.
pub proof fn law_action_now_outranks_risk(c: ConnectionState)
    requires
        c.loaded,
        c.available,
        !c.core_check_failed,
        c.core_issue is None,
        text_opt(c.whatsapp_linked_device_attention) == Some("action_now"@),
    ensures
        attention_of(c) == DashboardAttentionState::WhatsappActionNow,
{
}

/// The catch-up example names every connected service, and the two messaging
/// examples name the chat service they would use.
pub proof fn law_examples_name_the_sources(c: ConnectionState, i: int)
    requires
        0 <= i < names_of(c).len(),
    ensures
        occurs(examples_of(c)[0], names_of(c)[i]),
        bridge_of(c) matches Some(p) ==> occurs(examples_of(c)[1], p) && occurs(examples_of(c)[3], p),
{
    lemma_join_has(names_of(c), ", "@, i);
    let (a, b) = choose|a: Seq<char>, b: Seq<char>| join(names_of(c), ", "@) == a + names_of(c)[i] + b;
    let pre = "Catch me up on recent messages across "@;
    assert(examples_of(c)[0] == (pre + a) + names_of(c)[i] + (b + "."@));
    lemma_has_middle(pre + a, names_of(c)[i], b + "."@);
    if let Some(p) = bridge_of(c) {
        lemma_has_middle("Send ‘Running late’ to Alex on "@, p, "."@);
        lemma_has_middle("Send ‘Can you confirm?’ to Alex on "@, p, " and tell me when they reply."@);
    }
}

/// With no message service connected, the examples explain what to connect.
pub proof fn law_examples_without_connections(c: ConnectionState)
    requires
        !any_message_service(c),
    ensures
        examples_of(c)[0] == "Connect a message service to ask for a catch-up."@,
        examples_of(c)[1] == "Connect WhatsApp, Telegram, or Signal to send a message."@,
        examples_of(c)[3] == "Connect a chat service to wait for someone’s reply."@,
        examples_of(c)[5] == "Which message services can I connect?"@,
{
}

} // verus!
