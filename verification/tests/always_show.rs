use frontend::always_show::{
    add_button_text, contact_choices, entry_path, platform_options, remove_button_text, remove_entry,
    search_placeholder, text_le_exec, upsert_entry, AddReply, AddRequest, AlwaysShowEntry, AlwaysShowPanel,
};
use frontend::contacts::Contact;

fn contact(id: &str, name: &str, platform: Option<&str>, source: &str, is_group: bool) -> Contact {
    Contact {
        id: id.to_string(),
        display_name: name.to_string(),
        subtitle: None,
        platform: platform.map(|p| p.to_string()),
        is_group,
        source: source.to_string(),
    }
}

fn entry(id: i32, name: &str) -> AlwaysShowEntry {
    AlwaysShowEntry { id, platform: "email".to_string(), display_name: name.to_string(), subtitle: String::new() }
}

#[test]
fn text_order_is_char_order() {
    let a: Vec<char> = "abc".chars().collect();
    let b: Vec<char> = "abd".chars().collect();
    let p: Vec<char> = "ab".chars().collect();
    assert!(text_le_exec(&a, &b));
    assert!(!text_le_exec(&b, &a));
    assert!(text_le_exec(&p, &a));
    assert!(!text_le_exec(&a, &p));
    assert!(text_le_exec(&a, &a));
}

#[test]
fn search_ranks_by_score_then_name() {
    let cs = vec![
        contact("1", "Bob", Some("signal"), "contact", false),
        contact("2", "anna", Some("signal"), "contact", false),
        contact("3", "Ann", Some("signal"), "contact", true),
        contact("4", "Joanna", Some("signal"), "contact", false),
        contact("5", "Ann", Some("whatsapp"), "contact", false),
        contact("6", "Ann", Some("signal"), "person", false),
    ];
    let r = contact_choices(&cs, "signal", "  ANN ");
    let got: Vec<(i32, usize)> = r.iter().map(|c| (c.score, c.index)).collect();
    assert_eq!(got, vec![(3, 2), (2, 1), (1, 3)]);
    let all = contact_choices(&cs, "signal", "");
    let got: Vec<usize> = all.iter().map(|c| c.index).collect();
    assert_eq!(got, vec![2, 1, 0, 3]);
}

#[test]
fn search_shows_at_most_fifty() {
    let cs: Vec<Contact> = (0..60).map(|i| contact(&i.to_string(), &format!("c{:02}", i), Some("signal"), "contact", false)).collect();
    let r = contact_choices(&cs, "signal", "");
    assert_eq!(r.len(), 50);
    assert_eq!(r[0].index, 0);
    assert_eq!(r[49].index, 49);
}

#[test]
fn platforms_are_sorted_and_unique() {
    let cs = vec![
        contact("1", "a", Some("whatsapp"), "contact", false),
        contact("2", "b", Some("signal"), "contact", false),
        contact("3", "c", Some("email"), "contact", false),
        contact("4", "d", Some("telegram"), "person", false),
        contact("5", "e", Some("signal"), "contact", false),
        contact("6", "f", None, "contact", false),
    ];
    assert_eq!(platform_options(&cs), vec!["signal".to_string(), "whatsapp".to_string()]);
}

#[test]
fn entries_upsert_and_remove() {
    let list = vec![entry(1, "a"), entry(2, "b")];
    let up = upsert_entry(list.clone(), entry(2, "B"));
    assert_eq!(up.iter().map(|e| e.display_name.clone()).collect::<Vec<_>>(), vec!["a", "B"]);
    let up = upsert_entry(list.clone(), entry(3, "c"));
    assert_eq!(up.iter().map(|e| e.id).collect::<Vec<_>>(), vec![3, 1, 2]);
    let rm = remove_entry(list, 1);
    assert_eq!(rm.iter().map(|e| e.id).collect::<Vec<_>>(), vec![2]);
    assert_eq!(entry_path(5), "/api/always-show/5");
}

#[test]
fn adding_an_email() {
    let mut p = AlwaysShowPanel::new();
    p.on_loaded(Some(vec![entry(1, "a")]), None);
    assert!(!p.loading);
    p.type_email("bob@example".to_string());
    assert!(!p.can_add());
    p.type_email(" bob@example.com ".to_string());
    assert!(p.can_add());
    assert_eq!(p.press_add(), Some(AddRequest::Email("bob@example.com".to_string())));
    assert!(p.saving);
    assert_eq!(p.press_add(), None);
    p.on_added(AddReply::Refused(None));
    assert_eq!(p.error, Some("Couldn't save this entry.".to_string()));
    p.on_added(AddReply::Stored(entry(7, "bob")));
    assert_eq!(p.entries.iter().map(|e| e.id).collect::<Vec<_>>(), vec![7, 1]);
    assert_eq!(p.query, "");
    p.on_added(AddReply::Unsent);
    assert_eq!(p.error, Some("Couldn't prepare this entry.".to_string()));
}

#[test]
fn adding_a_group_chat() {
    let mut p = AlwaysShowPanel::new();
    p.on_loaded(None, Some(vec![contact("g1", "Family", Some("whatsapp"), "contact", true)]));
    assert_eq!(p.error, Some("Couldn't load your always-show list.".to_string()));
    p.choose_source("whatsapp".to_string());
    assert!(!p.can_add());
    p.type_search("fam".to_string());
    assert!(p.results_open);
    let r = p.results();
    assert_eq!(r.len(), 1);
    p.pick(r[0].index);
    assert_eq!(p.query, "Family");
    assert!(p.chosen_is_group());
    assert!(p.mentions_supported());
    p.set_group_mode("mention_only".to_string());
    assert_eq!(
        p.press_add(),
        Some(AddRequest::Platform { contact_id: "g1".to_string(), group_mode: Some("mention_only".to_string()) })
    );
    assert_eq!(p.result_subtitle(0), "WhatsApp");
    assert_eq!(search_placeholder("whatsapp"), "Search WhatsApp contacts and chats");
}

#[test]
fn removing_entries() {
    let mut p = AlwaysShowPanel::new();
    p.on_loaded(Some(vec![entry(1, "a"), entry(2, "b")]), None);
    assert_eq!(p.press_remove(2), "/api/always-show/2");
    assert_eq!(remove_button_text(p.removing, 2), "…");
    assert_eq!(remove_button_text(p.removing, 1), "Remove");
    p.on_removed(2, false);
    assert_eq!(p.error, Some("Couldn't remove this entry.".to_string()));
    assert_eq!(p.removing, None);
    p.on_removed(2, true);
    assert_eq!(p.entries.len(), 1);
    assert_eq!(add_button_text(true), "Adding…");
}
