use frontend::device::{
    after_save, check_twilio, initial_number_choice, number_option_label, picks_saved_number,
    profile_after_alert_saved, profile_after_number_saved, profile_after_own_number, save_error,
    save_status, shown_number, twilio_failure_text, twilio_first, twilio_save_state, twilio_step,
    PhoneProfile, SaveReply, SaveState, SaveStatus, TwilioFailure, TwilioOutcome, TwilioReply,
    TwilioRequest,
};

const SID: &str = "AC0123456789abcdef0123456789ABCDEF";
const TOKEN: &str = "0123456789abcdef0123456789abcdef";

#[test]
fn save_states_show() {
    assert_eq!(save_status(&SaveState::Idle), None);
    assert_eq!(save_status(&SaveState::Saving), Some(SaveStatus::Spinner));
    assert_eq!(save_status(&SaveState::Success), Some(SaveStatus::Saved));
    assert_eq!(save_status(&SaveState::Error("x".to_string())), Some(SaveStatus::NotSaved("x".to_string())));
    assert_eq!(save_error(&SaveState::Error("x".to_string())), Some("x".to_string()));
    assert_eq!(save_error(&SaveState::Success), None);
    assert_eq!(after_save(&SaveReply::Saved, "no"), SaveState::Success);
    assert_eq!(after_save(&SaveReply::Refused, "Could not save alert method."), SaveState::Error("Could not save alert method.".to_string()));
    assert_eq!(after_save(&SaveReply::Unreachable, "no"), SaveState::Error("Network error.".to_string()));
    assert_eq!(after_save(&SaveReply::Unsent, "no"), SaveState::Error("Could not encode the request.".to_string()));
}

#[test]
fn numbers() {
    assert_eq!(initial_number_choice(true, &Some("+1".to_string())), "__byot");
    assert_eq!(initial_number_choice(false, &Some("+1".to_string())), "+1");
    assert_eq!(initial_number_choice(false, &None), "");
    assert_eq!(shown_number(true, &None, &None), "Your Twilio number");
    assert_eq!(shown_number(false, &Some("+2".to_string()), &Some("+3".to_string())), "+3");
    assert_eq!(shown_number(false, &Some("+2".to_string()), &None), "+2");
    assert_eq!(shown_number(false, &None, &None), "Assigned automatically");
    assert_eq!(number_option_label("US", "+1555"), "US (+1555)");
    assert_eq!(number_option_label("Auto", ""), "Auto");
    assert!(!picks_saved_number("__byot"));
    assert!(picks_saved_number("+1555"));
}

#[test]
fn twilio_fields_are_checked_in_order() {
    assert_eq!(check_twilio("12345678901", SID, TOKEN).unwrap_err(), "Enter the Twilio number in E.164 format.");
    assert_eq!(check_twilio("+1234567", SID, TOKEN).unwrap_err(), "Enter the Twilio number in E.164 format.");
    assert_eq!(check_twilio("+12345678a0", SID, TOKEN).unwrap_err(), "Enter the Twilio number in E.164 format.");
    assert_eq!(check_twilio("+123456789", "AB0123456789abcdef0123456789ABCDEF", TOKEN).unwrap_err(), "Enter a valid Twilio Account SID.");
    assert_eq!(check_twilio("+123456789", "AC0123", TOKEN).unwrap_err(), "Enter a valid Twilio Account SID.");
    assert_eq!(check_twilio("+123456789", SID, "xyz").unwrap_err(), "Enter a valid Twilio Auth Token.");
    let ok = check_twilio(" +123456789 ", &format!(" {} ", SID), TOKEN).unwrap();
    assert_eq!(ok.phone, "+123456789");
    assert_eq!(ok.account_sid, SID);
    assert!(!ok.keep_saved_credentials);
    let kept = check_twilio("+123456789", "...", "...").unwrap();
    assert!(kept.keep_saved_credentials);
    assert_eq!(check_twilio("+123456789", "...", TOKEN).unwrap_err(), "Enter a valid Twilio Account SID.");
}

#[test]
fn twilio_failures() {
    assert_eq!(twilio_failure_text(TwilioFailure::Number), "Could not save the Twilio number.");
    assert_eq!(twilio_failure_text(TwilioFailure::Credentials), "Could not save the Twilio credentials.");
    assert_eq!(twilio_failure_text(TwilioFailure::Enable(None)), "Could not enable your Twilio number.");
    assert_eq!(twilio_failure_text(TwilioFailure::Enable(Some("Bad".to_string()))), "Bad");
    assert_eq!(twilio_failure_text(TwilioFailure::Unreachable), "Network error.");
}

fn profile() -> PhoneProfile {
    PhoneProfile {
        notification_type: Some("sms".to_string()),
        preferred_number: Some("+1000".to_string()),
        sms_from_number: None,
        own_twilio_enabled: true,
        twilio_sid: Some("AC1".to_string()),
        twilio_token: Some("tok".to_string()),
    }
}

#[test]
fn profile_after_saves() {
    let p = profile_after_alert_saved(profile(), "call".to_string());
    assert_eq!(p.notification_type, Some("call".to_string()));
    assert_eq!(p.preferred_number, Some("+1000".to_string()));

    let p = profile_after_number_saved(profile(), "+1555".to_string());
    assert_eq!(p.preferred_number, Some("+1555".to_string()));
    assert_eq!(p.sms_from_number, Some("+1555".to_string()));
    assert!(!p.own_twilio_enabled);
    assert_eq!(p.notification_type, Some("sms".to_string()));
    assert_eq!(p.twilio_sid, Some("AC1".to_string()));

    let fresh = check_twilio("+123456789", SID, TOKEN).unwrap();
    let mut off = profile();
    off.own_twilio_enabled = false;
    let p = profile_after_own_number(off, &fresh);
    assert_eq!(p.preferred_number, Some("+123456789".to_string()));
    assert_eq!(p.sms_from_number, Some("+123456789".to_string()));
    assert!(p.own_twilio_enabled);
    assert_eq!(p.twilio_sid, Some("...".to_string()));
    assert_eq!(p.twilio_token, Some("...".to_string()));
    assert_eq!(p.notification_type, Some("sms".to_string()));

    let kept = check_twilio("+123456789", "...", "...").unwrap();
    let p = profile_after_own_number(profile(), &kept);
    assert_eq!(p.twilio_sid, Some("AC1".to_string()));
    assert_eq!(p.twilio_token, Some("tok".to_string()));
    assert_eq!(p.preferred_number, Some("+123456789".to_string()));
}

#[test]
fn own_number_requests_in_turn() {
    let fresh = check_twilio("+123456789", SID, TOKEN).unwrap();
    let kept = check_twilio("+123456789", "...", "...").unwrap();
    assert_eq!(twilio_first(), TwilioRequest::Number);

    let o = twilio_step(&fresh, TwilioRequest::Number, TwilioReply::Accepted);
    assert!(matches!(o, TwilioOutcome::Send(TwilioRequest::Credentials)));
    assert_eq!(twilio_save_state(o), SaveState::Saving);
    let o = twilio_step(&kept, TwilioRequest::Number, TwilioReply::Accepted);
    assert!(matches!(o, TwilioOutcome::Send(TwilioRequest::Enable)));
    let o = twilio_step(&fresh, TwilioRequest::Credentials, TwilioReply::Accepted);
    assert!(matches!(o, TwilioOutcome::Send(TwilioRequest::Enable)));
    let o = twilio_step(&fresh, TwilioRequest::Enable, TwilioReply::Accepted);
    assert!(matches!(o, TwilioOutcome::Connected));
    assert_eq!(twilio_save_state(o), SaveState::Success);

    let o = twilio_step(&fresh, TwilioRequest::Number, TwilioReply::Unreachable);
    assert!(matches!(o, TwilioOutcome::Failed(TwilioFailure::Number)));
    assert_eq!(twilio_save_state(o), SaveState::Error("Could not save the Twilio number.".to_string()));
    let o = twilio_step(&fresh, TwilioRequest::Credentials, TwilioReply::Refused(None));
    assert_eq!(
        twilio_save_state(o),
        SaveState::Error("Could not save the Twilio credentials.".to_string())
    );
    let o = twilio_step(&fresh, TwilioRequest::Enable, TwilioReply::Refused(Some("Number not owned".to_string())));
    assert_eq!(twilio_save_state(o), SaveState::Error("Number not owned".to_string()));
    let o = twilio_step(&fresh, TwilioRequest::Enable, TwilioReply::Refused(None));
    assert_eq!(twilio_save_state(o), SaveState::Error("Could not enable your Twilio number.".to_string()));
    let o = twilio_step(&fresh, TwilioRequest::Enable, TwilioReply::Unreachable);
    assert_eq!(twilio_save_state(o), SaveState::Error("Network error.".to_string()));
}
