use frontend::attention::{
    dashboard_attention_state, try_asking_examples, ConnectionState, DashboardAttentionState,
    RemovalKind,
};

fn loaded_connections() -> ConnectionState {
    ConnectionState {
        loaded: true,
        available: true,
        ..ConnectionState::default()
    }
}

#[test]
fn healthy_only_when_a_connection_has_no_attention_conditions() {
    let mut connections = loaded_connections();
    connections.whatsapp = true;
    assert_eq!(
        dashboard_attention_state(&connections),
        DashboardAttentionState::Healthy
    );
    connections.whatsapp_linked_device_attention = Some("risk_soon".to_string());
    assert_eq!(
        dashboard_attention_state(&connections),
        DashboardAttentionState::WhatsappRiskSoon
    );
}

#[test]
fn linked_device_action_is_more_urgent_than_risk() {
    let mut connections = loaded_connections();
    connections.whatsapp = true;
    connections.whatsapp_linked_device_attention = Some("action_now".to_string());
    assert_eq!(
        dashboard_attention_state(&connections),
        DashboardAttentionState::WhatsappActionNow
    );
}

#[test]
fn integration_problem_suppresses_generic_healthy_state() {
    let mut connections = loaded_connections();
    connections.telegram = true;
    connections.core_issue = Some("whatsapp needs reconnecting".to_string());
    assert_eq!(
        dashboard_attention_state(&connections),
        DashboardAttentionState::IntegrationIssue
    );
}

#[test]
fn incomplete_status_check_never_claims_healthy() {
    let mut connections = loaded_connections();
    connections.email = true;
    connections.core_check_failed = true;
    assert_eq!(
        dashboard_attention_state(&connections),
        DashboardAttentionState::StatusUnavailable
    );
}

#[test]
fn asking_examples_are_short_source_aware_and_cover_six_core_jobs() {
    let mut connections = loaded_connections();
    connections.telegram = true;
    let examples = try_asking_examples(&connections);
    assert_eq!(examples.len(), 6);
    assert!(examples[0].contains("Telegram"));
    assert!(examples[1].contains("Telegram"));
    assert!(examples[3].contains("tell me when they reply"));
    assert!(examples.iter().all(|example| example.len() < 100));
}

#[test]
fn empty_state_examples_explain_which_connections_are_needed() {
    let examples = try_asking_examples(&loaded_connections());
    assert!(examples[0].starts_with("Connect a message service"));
    assert!(examples[1].starts_with("Connect WhatsApp"));
    assert!(examples[3].starts_with("Connect a chat service"));
    assert_eq!(examples[5], "Which message services can I connect?");
}

#[test]
fn not_loaded_is_loading_even_with_failures() {
    let mut connections = ConnectionState::default();
    connections.core_check_failed = true;
    connections.whatsapp = true;
    assert_eq!(dashboard_attention_state(&connections), DashboardAttentionState::Loading);
}

#[test]
fn unavailable_status_when_no_check_answered() {
    let mut connections = loaded_connections();
    connections.available = false;
    assert_eq!(
        dashboard_attention_state(&connections),
        DashboardAttentionState::StatusUnavailable
    );
}

#[test]
fn setup_needed_without_message_services() {
    let mut connections = loaded_connections();
    connections.tesla = true;
    connections.youtube = true;
    assert_eq!(dashboard_attention_state(&connections), DashboardAttentionState::SetupNeeded);
    connections.whatsapp_linked_device_attention = Some("healthy".to_string());
    assert_eq!(dashboard_attention_state(&connections), DashboardAttentionState::SetupNeeded);
}

#[test]
fn names_follow_fixed_order() {
    let mut connections = loaded_connections();
    connections.email = true;
    connections.whatsapp = true;
    connections.telegram = true;
    assert_eq!(connections.names(), vec!["WhatsApp", "Telegram", "Email"]);
}

#[test]
fn catch_up_example_joins_all_sources() {
    let mut connections = loaded_connections();
    connections.signal = true;
    connections.email = true;
    let examples = try_asking_examples(&connections);
    assert_eq!(examples[0], "Catch me up on recent messages across Signal, Email.");
    assert_eq!(examples[1], "Send ‘Running late’ to Alex on Signal.");
    assert_eq!(
        examples[3],
        "Send ‘Can you confirm?’ to Alex on Signal and tell me when they reply."
    );
    assert_eq!(examples[5], "How do I manage my connected services?");
}

#[test]
fn whatsapp_is_preferred_bridge() {
    let mut connections = loaded_connections();
    connections.signal = true;
    connections.telegram = true;
    connections.whatsapp = true;
    let examples = try_asking_examples(&connections);
    assert_eq!(examples[1], "Send ‘Running late’ to Alex on WhatsApp.");
}

#[test]
fn removal_kinds_match_waits() {
    assert!(!RemovalKind::Reminder.matches_wait("reply_watch"));
    assert!(RemovalKind::ReplyWatch.matches_wait("reply_watch"));
    assert!(!RemovalKind::ReplyWatch.matches_wait("quiet"));
    assert!(RemovalKind::Suppression.matches_wait("quiet"));
    assert!(!RemovalKind::Suppression.matches_wait("reply_watch"));
}
