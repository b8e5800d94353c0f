use frontend::contacts::{ContactProfile, ProfileException};
use frontend::profiles::{
    default_settings, edit_profile_request, exception_form, exception_removed_request, exception_saved_request,
    new_profile_request, profile_path, search_failure, search_wanted, ChatPlatform, NotifySettings,
    ProfileDialog, ProfileReply, ProfilesPanel, SearchReply, SuggestionsView,
};

fn exception(platform: &str, mode: &str) -> ProfileException {
    ProfileException {
        platform: platform.to_string(),
        notification_mode: mode.to_string(),
        notification_type: "call".to_string(),
        notify_on_call: false,
    }
}

fn profile(exceptions: Vec<ProfileException>) -> ContactProfile {
    ContactProfile {
        id: 3,
        nickname: "Mom".to_string(),
        notification_mode: "critical".to_string(),
        notification_type: "sms".to_string(),
        notify_on_call: true,
        whatsapp_chat: Some("!room:wa".to_string()),
        telegram_chat: None,
        signal_chat: None,
        email_addresses: Some("mom@example.com".to_string()),
        exceptions,
    }
}

fn settings(mode: &str) -> NotifySettings {
    NotifySettings { notification_mode: mode.to_string(), notification_type: "call".to_string(), notify_on_call: false }
}

#[test]
fn editing_checks_the_nickname() {
    let p = profile(vec![]);
    assert_eq!(edit_profile_request(&p, "a@b".to_string(), &settings("all")).unwrap_err(), "Nickname cannot contain '@'.");
    assert_eq!(edit_profile_request(&p, "   ".to_string(), &settings("all")).unwrap_err(), "Nickname cannot be empty.");
    let r = edit_profile_request(&p, " Mum ".to_string(), &settings("all")).unwrap();
    assert_eq!(r.nickname, " Mum ");
    assert_eq!(r.whatsapp_chat, Some("!room:wa".to_string()));
    assert_eq!(r.email_addresses, Some("mom@example.com".to_string()));
    assert_eq!(r.notification_mode, "all");
    assert_eq!(r.exceptions, None);
    let p = profile(vec![exception("signal", "ignore")]);
    let r = edit_profile_request(&p, "Mum".to_string(), &settings("all")).unwrap();
    assert_eq!(r.exceptions.unwrap()[0].platform, "signal");
}

#[test]
fn exceptions_are_replaced_and_removed() {
    let p = profile(vec![exception("signal", "ignore"), exception("whatsapp", "all")]);
    let r = exception_saved_request(&p, "signal", &settings("critical"));
    let ex = r.exceptions.unwrap();
    assert_eq!(ex.len(), 2);
    assert_eq!(ex[0].platform, "whatsapp");
    assert_eq!(ex[1].platform, "signal");
    assert_eq!(ex[1].notification_mode, "critical");
    assert_eq!(r.nickname, "Mom");
    assert_eq!(r.notification_mode, "critical");
    let r = exception_removed_request(&p, "whatsapp");
    let ex = r.exceptions.unwrap();
    assert_eq!(ex.len(), 1);
    assert_eq!(ex[0].platform, "signal");
    let p = profile(vec![exception("signal", "ignore")]);
    assert_eq!(exception_removed_request(&p, "signal").exceptions, None);
}

#[test]
fn new_contacts_trim_and_drop_empty_handles() {
    let s = default_settings();
    assert_eq!(s.notification_mode, "critical");
    assert_eq!(s.notification_type, "sms");
    assert!(s.notify_on_call);
    let e = new_profile_request("  ", String::new(), String::new(), String::new(), String::new(), &s);
    assert_eq!(e.unwrap_err(), "Nickname cannot be empty.");
    let e = new_profile_request(" a@b ", String::new(), String::new(), String::new(), String::new(), &s);
    assert_eq!(e.unwrap_err(), "Nickname cannot contain '@'.");
    let r = new_profile_request(" Bob ", "wa".to_string(), String::new(), "sg".to_string(), String::new(), &s).unwrap();
    assert_eq!(r.nickname, "Bob");
    assert_eq!(r.whatsapp_chat, Some("wa".to_string()));
    assert_eq!(r.telegram_chat, None);
    assert_eq!(r.signal_chat, Some("sg".to_string()));
    assert_eq!(r.email_addresses, None);
    assert_eq!(r.exceptions, None);
}

#[test]
fn exception_form_prefers_the_platform_setting() {
    let p = profile(vec![exception("signal", "ignore")]);
    let f = exception_form(&p, "signal");
    assert_eq!(f.notification_mode, "ignore");
    assert_eq!(f.notification_type, "call");
    assert!(!f.notify_on_call);
    let f = exception_form(&p, "telegram");
    assert_eq!(f.notification_mode, "critical");
    assert!(f.notify_on_call);
}

#[test]
fn chat_search_and_paths() {
    assert!(!search_wanted(" a "));
    assert!(search_wanted(" ab"));
    assert!(search_wanted("ä"));
    assert_eq!(search_failure(None), "Search failed");
    assert_eq!(search_failure(Some("Bridge offline".to_string())), "Bridge offline");
    assert_eq!(profile_path(12), "/api/contact-profiles/12");
}

fn loaded_panel() -> ProfilesPanel {
    let mut p = ProfilesPanel::new();
    p.on_loaded(Some((vec![profile(vec![exception("email", "ignore")])], default_settings())));
    p
}

#[test]
fn contact_dialog_opens_with_the_contact_and_saves() {
    let mut p = loaded_panel();
    assert!(!p.loading);
    p.open_contact(99);
    assert_eq!(p.dialog, None);
    p.open_contact(3);
    assert_eq!(p.dialog, Some(ProfileDialog::Contact(3)));
    assert_eq!(p.nickname, "Mom");
    p.nickname = "M@m".to_string();
    assert!(p.save_contact(3).is_none());
    assert_eq!(p.error.as_deref(), Some("Nickname cannot contain '@'."));
    p.nickname = "Mother".to_string();
    let q = p.save_contact(3).unwrap();
    assert_eq!(q.nickname, "Mother");
    assert!(p.saving);
    p.on_reply(ProfileReply::Refused, "Failed to save");
    assert_eq!(p.error.as_deref(), Some("Failed to save"));
    assert!(!p.saving);
    p.on_reply(ProfileReply::Done, "Failed to save");
    assert_eq!(p.dialog, None);
}

#[test]
fn platform_dialog_starts_from_the_platform_settings() {
    let mut p = loaded_panel();
    p.open_platform(3, "email".to_string());
    assert_eq!(p.platform_form.notification_mode, "ignore");
    p.open_platform(3, "whatsapp".to_string());
    assert_eq!(p.platform_form.notification_mode, "critical");
    p.platform_form.notification_mode = "all".to_string();
    let q = p.save_platform(3, "whatsapp").unwrap();
    let ex = q.exceptions.unwrap();
    assert_eq!(ex.len(), 2);
    assert_eq!(ex[1].platform, "whatsapp");
    assert_eq!(ex[1].notification_mode, "all");
    let r = p.remove_platform(3, "email").unwrap();
    assert!(r.exceptions.is_none());
}

#[test]
fn defaults_change_once_saved() {
    let mut p = loaded_panel();
    p.open_defaults();
    p.defaults_form.notification_mode = "all".to_string();
    let sent = p.save_defaults();
    assert_eq!(sent.notification_mode, "all");
    p.on_defaults_reply(ProfileReply::Unreachable);
    assert_eq!(p.defaults.notification_mode, "critical");
    assert_eq!(p.error.as_deref(), Some("Network error"));
    p.on_defaults_reply(ProfileReply::Done);
    assert_eq!(p.defaults.notification_mode, "all");
    assert_eq!(p.dialog, None);
}

#[test]
fn adding_a_contact_with_chat_suggestions() {
    let mut p = loaded_panel();
    p.open_add();
    assert_eq!(p.dialog, Some(ProfileDialog::AddContact));
    assert!(!p.search_chats(ChatPlatform::WhatsApp, " a "));
    assert_eq!(p.suggestions(ChatPlatform::WhatsApp), SuggestionsView::Hidden);
    assert!(p.search_chats(ChatPlatform::WhatsApp, "an"));
    assert_eq!(p.suggestions(ChatPlatform::WhatsApp), SuggestionsView::Searching);
    p.on_search_reply(ChatPlatform::WhatsApp, SearchReply::Found(Vec::new()));
    assert_eq!(p.suggestions(ChatPlatform::WhatsApp), SuggestionsView::NoChats);
    p.on_search_reply(ChatPlatform::WhatsApp, SearchReply::Found(vec!["Anna".to_string()]));
    assert_eq!(p.suggestions(ChatPlatform::WhatsApp), SuggestionsView::Chats(vec!["Anna".to_string()]));
    p.pick_chat(ChatPlatform::WhatsApp, "Anna".to_string());
    assert_eq!(p.add.whatsapp, "Anna");
    assert_eq!(p.suggestions(ChatPlatform::WhatsApp), SuggestionsView::Hidden);
    assert!(p.search_chats(ChatPlatform::Signal, "bob"));
    p.on_search_reply(ChatPlatform::Signal, SearchReply::Refused(None));
    assert_eq!(p.suggestions(ChatPlatform::Signal), SuggestionsView::Error("Search failed".to_string()));
    assert!(p.save_new().is_none());
    assert_eq!(p.error.as_deref(), Some("Nickname cannot be empty."));
    p.add.nickname = "  Anna ".to_string();
    let q = p.save_new().unwrap();
    assert_eq!(q.nickname, "Anna");
    assert_eq!(q.whatsapp_chat.as_deref(), Some("Anna"));
    assert_eq!(q.telegram_chat, None);
}

#[test]
fn editing_a_contact_without_exceptions_sends_none() {
    let p = profile(Vec::new());
    let q = edit_profile_request(&p, "Mom".to_string(), &default_settings()).unwrap();
    assert_eq!(q.exceptions, None);
    let q = exception_removed_request(&profile(vec![exception("email", "ignore")]), "email");
    assert_eq!(q.exceptions, None);
}
