use frontend::people::{PeoplePanel, RoomSuggestions};
use frontend::profiles::ChatPlatform;
use frontend::people::{
    attached_tag, channel_handle_text, channel_icon, channel_platform_name, new_person_request, person_channel_path,
    person_path, person_search_wanted, pick_room, toggle_expanded, ChannelInput, SearchRoom,
};

fn input(handle: &str, room: Option<&str>) -> ChannelInput {
    ChannelInput { handle: handle.to_string(), room_id: room.map(|r| r.to_string()) }
}

#[test]
fn new_person_channels_in_order() {
    assert_eq!(new_person_request("  ", input("", None), input("", None), input("", None), ""), None);
    let r = new_person_request(" Ann ", input(" ann ", Some("!r")), input("  ", None), input("sg", None), " a@b.c ").unwrap();
    assert_eq!(r.name, "Ann");
    assert_eq!(r.channels.len(), 3);
    assert_eq!(r.channels[0].platform, "whatsapp");
    assert_eq!(r.channels[0].handle, "ann");
    assert_eq!(r.channels[0].room_id, Some("!r".to_string()));
    assert!(r.channels[0].names_room);
    assert_eq!(r.channels[1].platform, "signal");
    assert_eq!(r.channels[2].platform, "email");
    assert_eq!(r.channels[2].handle, "a@b.c");
    assert!(!r.channels[2].names_room);
}

#[test]
fn picking_rooms() {
    let room = SearchRoom {
        display_name: "Ann".to_string(),
        room_id: String::new(),
        is_group: false,
        person_name: None,
        is_phone_contact: None,
    };
    let picked = pick_room(&room).unwrap();
    assert_eq!(picked.handle, "Ann");
    assert_eq!(picked.room_id, None);
    let taken = SearchRoom { person_name: Some("Bob".to_string()), room_id: "!x".to_string(), ..room };
    assert_eq!(pick_room(&taken), None);
    assert_eq!(attached_tag("Bob"), "(Bob)");
}

#[test]
fn people_texts() {
    assert!(!person_search_wanted("a"));
    assert!(person_search_wanted("ab"));
    assert_eq!(channel_icon("telegram"), "fa-brands fa-telegram");
    assert_eq!(channel_icon("other"), "fa-solid fa-envelope");
    assert_eq!(channel_platform_name("signal"), "Signal");
    assert_eq!(channel_platform_name("matrix"), "matrix");
    assert_eq!(channel_handle_text(&None), "Chat linked");
    assert_eq!(channel_handle_text(&Some(String::new())), "Chat linked");
    assert_eq!(channel_handle_text(&Some("@ann".to_string())), "@ann");
    assert_eq!(toggle_expanded(Some(3), 3), None);
    assert_eq!(toggle_expanded(Some(3), 4), Some(4));
    assert_eq!(person_path(4), "/api/persons/4");
    assert_eq!(person_channel_path(4, 9), "/api/persons/4/channels/9");
}

fn room(name: &str, id: &str, owner: Option<&str>) -> SearchRoom {
    SearchRoom {
        display_name: name.to_string(),
        room_id: id.to_string(),
        is_group: false,
        person_name: owner.map(|o| o.to_string()),
        is_phone_contact: None,
    }
}

#[test]
fn people_panel_adds_a_person_with_a_picked_chat() {
    let mut p = PeoplePanel::new();
    p.on_loaded(Some(Vec::new()));
    assert!(!p.loading);
    p.toggle(4);
    assert_eq!(p.expanded, Some(4));
    p.toggle(4);
    assert_eq!(p.expanded, None);
    p.open_add();
    assert!(p.adding);
    assert!(!p.type_handle(ChatPlatform::WhatsApp, "a".to_string()));
    assert_eq!(p.suggestions(ChatPlatform::WhatsApp), RoomSuggestions::Hidden);
    assert!(p.type_handle(ChatPlatform::WhatsApp, "an".to_string()));
    assert_eq!(p.suggestions(ChatPlatform::WhatsApp), RoomSuggestions::Searching);
    assert_eq!(p.suggestions(ChatPlatform::Signal), RoomSuggestions::Hidden);
    p.on_search_reply(Some(vec![room("Anna", "!r1", None), room("Annex", "!r2", Some("Bob"))]));
    assert_eq!(p.suggestions(ChatPlatform::WhatsApp), RoomSuggestions::Rooms);
    p.pick(ChatPlatform::WhatsApp, &room("Annex", "!r2", Some("Bob")));
    assert_eq!(p.whatsapp.handle, "an");
    p.pick(ChatPlatform::WhatsApp, &room("Anna", "!r1", None));
    assert_eq!(p.whatsapp.handle, "Anna");
    assert_eq!(p.whatsapp.room_id.as_deref(), Some("!r1"));
    assert_eq!(p.suggestions(ChatPlatform::WhatsApp), RoomSuggestions::Hidden);
    assert!(p.focus(ChatPlatform::WhatsApp));
    p.close_suggestions();
    assert!(p.save().is_none());
    p.set_name("  Anna ".to_string());
    p.set_email("anna@example.com".to_string());
    let r = p.save().unwrap();
    assert_eq!(r.name, "Anna");
    assert_eq!(r.channels.len(), 2);
    assert_eq!(r.channels[0].room_id.as_deref(), Some("!r1"));
    assert_eq!(r.channels[1].platform, "email");
    p.on_saved(true);
    assert!(!p.adding);
}
