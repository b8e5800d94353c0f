use frontend::agent::{credential_line, remaining_actions, scopes_line, AgentPanel, CredentialSummary};

fn credential(id: i32) -> CredentialSummary {
    CredentialSummary {
        id,
        label: "laptop".to_string(),
        token_prefix: "lf_ab".to_string(),
        scopes: vec!["remind".to_string(), "watch".to_string()],
        daily_cap: 20,
        daily_used: 25,
        expires_at: 86400,
        last_used_at: None,
    }
}

#[test]
fn credential_rows() {
    assert_eq!(remaining_actions(20, 5), 15);
    assert_eq!(remaining_actions(20, 25), 0);
    assert_eq!(credential_line(&credential(1)), "lf_ab… · 0 actions left today · expires 1970-01-02");
    assert_eq!(scopes_line(&credential(1).scopes), "remind · watch");
    assert_eq!(scopes_line(&vec![]), "");
}

#[test]
fn pairing_flow() {
    let mut p = AgentPanel::new();
    assert_eq!(p.approve(), None);
    p.set_code(" ABCD ".to_string());
    assert_eq!(p.approve(), Some(" ABCD ".to_string()));
    assert!(p.busy);
    assert_eq!(p.approve_text(), "Approving...");
    assert_eq!(p.approve(), None);
    assert!(!p.on_approved(false));
    assert_eq!(p.message, Some((false, "That code is invalid, expired, or already used.".to_string())));
    assert_eq!(p.code, " ABCD ");
    assert!(p.on_approved(true));
    assert_eq!(p.code, "");
    assert!(!p.busy);
}

#[test]
fn revoking() {
    let mut p = AgentPanel::new();
    p.on_credentials(vec![credential(1), credential(2)]);
    p.on_revoked(1, false);
    assert_eq!(p.credentials.len(), 2);
    assert_eq!(p.message, Some((false, "Could not revoke that credential.".to_string())));
    p.on_revoked(1, true);
    assert_eq!(p.credentials.iter().map(|c| c.id).collect::<Vec<_>>(), vec![2]);
    p.on_copied(true);
    assert!(p.copied);
}
