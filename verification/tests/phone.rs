use frontend::phone::{
    format_remaining, on_generate, on_offer, on_offer_failed, on_offer_unreadable,
    on_poll_status, pairing_start, pairing_view, qr_code, qr_drawing, qr_svg_markup, PairingStatus, PairingView,
};

#[test]
fn qr_codes_are_square_with_finder_patterns() {
    let g = qr_code("HELLO WORLD").unwrap();
    assert_eq!(g.rows.len(), 21);
    assert!(g.rows.iter().all(|r| r.len() == 21));
    assert!(g.rows[0][..7].iter().all(|m| *m));
    assert!(!g.rows[0][7]);
    let long = "x".repeat(8000);
    assert!(qr_code(&long).is_err());
}

#[test]
fn qr_drawing_lists_the_dark_modules_inside_the_border() {
    let g = qr_code("HELLO WORLD").unwrap();
    let (side, cells) = qr_drawing(&g);
    assert_eq!(side, 29);
    let dark = g.rows.iter().flatten().filter(|m| **m).count();
    assert_eq!(cells.len(), dark);
    assert_eq!(cells[0], (4, 4));
}

#[test]
fn remaining_time_is_minutes_and_seconds() {
    assert_eq!(format_remaining(125), "02:05");
    assert_eq!(format_remaining(-3), "00:00");
    assert_eq!(format_remaining(3600), "60:00");
}

#[test]
fn pairing_flow_shows_then_connects() {
    let mut s = pairing_start();
    assert_eq!(pairing_view(&s, 0), PairingView::Idle);
    on_generate(&mut s);
    assert!(s.loading);
    assert_eq!(s.epoch, 1);
    on_offer(&mut s, "lightphone://pair?code=abc".to_string(), "2024-01-01T00:00:00Z");
    assert!(!s.loading);
    assert_eq!(s.offer.as_ref().unwrap().expires_at, 1_704_067_200);
    assert_eq!(pairing_view(&s, 1_704_067_200 - 90), PairingView::ShowingCode(90));
    assert_eq!(pairing_view(&s, 1_704_067_200), PairingView::CodeExpired);
    on_poll_status(&mut s, 0, PairingStatus::Connected);
    assert!(!s.connected);
    on_poll_status(&mut s, 1, PairingStatus::Pending);
    assert!(s.offer.is_some());
    on_poll_status(&mut s, 1, PairingStatus::Connected);
    assert!(s.connected);
    assert!(s.offer.is_none());
    assert_eq!(pairing_view(&s, 0), PairingView::Connected);
}

#[test]
fn expired_or_missing_sessions_mark_the_code_expired() {
    let mut s = pairing_start();
    on_generate(&mut s);
    on_offer(&mut s, "lightphone://pair?code=abc".to_string(), "2024-01-01T00:00:00Z");
    on_poll_status(&mut s, 1, PairingStatus::NoSession);
    assert!(s.server_expired);
    assert!(s.offer.is_none());
    assert_eq!(pairing_view(&s, 0), PairingView::ServerExpired);
}

#[test]
fn bad_offers_and_failures_report_errors() {
    let mut s = pairing_start();
    on_generate(&mut s);
    on_offer(&mut s, "lightphone://pair".to_string(), "tomorrow");
    assert_eq!(s.error.as_deref(), Some("The server returned an invalid pairing code."));
    assert!(s.offer.is_none());
    on_offer_failed(&mut s, None, 503);
    assert_eq!(s.error.as_deref(), Some("Could not create a pairing code (503)."));
    on_offer_failed(&mut s, Some("Not allowed".to_string()), 403);
    assert_eq!(s.error.as_deref(), Some("Not allowed"));
    on_offer_unreadable(&mut s, true);
    assert_eq!(s.error.as_deref(), Some("Network error creating the pairing code."));
    on_offer_unreadable(&mut s, false);
    assert_eq!(s.error.as_deref(), Some("Could not read the server response."));
}

#[test]
fn qr_markup_draws_each_dark_module() {
    let g = qr_code("HELLO WORLD").unwrap();
    let svg = qr_svg_markup(&g);
    assert!(svg.starts_with(r##"<svg class="light-phone-qr" viewBox="0 0 29 29" role="img" aria-label="Light Phone pairing QR code" shape-rendering="crispEdges"><rect width="29" height="29" fill="#fff" /><rect x="4" y="4" width="1" height="1" fill="#000" />"##));
    assert!(svg.ends_with("</svg>"));
    let dark = g.rows.iter().flatten().filter(|m| **m).count();
    assert_eq!(svg.matches("fill=\"#000\"").count(), dark);
}
