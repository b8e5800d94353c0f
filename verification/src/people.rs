use vstd::prelude::*;
use crate::contacts::PersonResponse;
use crate::media::text_opt;
use crate::profiles::ChatPlatform;
use crate::text::{chars_of, dec_int, dec_int_chars, extend_chars, extend_str, is_text, string_of, trim, trimmed};

verus! {

// ---------------------------------------------------------------------------
// Adding a person
// ---------------------------------------------------------------------------

/// A chat found when searching a platform.
#[derive(Clone, Debug, PartialEq)]
pub struct SearchRoom {
    pub display_name: String,
    pub room_id: String,
    pub is_group: bool,
    /// The person the chat already belongs to.
    pub person_name: Option<String>,
    pub is_phone_contact: Option<bool>,
}

/// A channel of a new person, as sent.
#[derive(Clone, Debug, PartialEq)]
pub struct ChannelRequest {
    pub platform: &'static str,
    pub handle: String,
    /// Whether the request names a chat room (email channels do not).
    pub names_room: bool,
    pub room_id: Option<String>,
}

/// A new person, as sent.
#[derive(Clone, Debug, PartialEq)]
pub struct PersonRequest {
    pub name: String,
    pub channels: Vec<ChannelRequest>,
}

/// What the add form holds for one chat platform: the handle as typed and the
/// chat picked for it.
#[derive(Clone, Debug, PartialEq)]
pub struct ChannelInput {
    pub handle: String,
    pub room_id: Option<String>,
}

/// The values of a channel request.
pub struct ChannelValues {
    pub platform: Seq<char>,
    pub handle: Seq<char>,
    pub names_room: bool,
    pub room_id: Option<Seq<char>>,
}

/// The values of a channel request.
pub open spec fn channel_values(c: ChannelRequest) -> ChannelValues {
    ChannelValues { platform: c.platform@, handle: c.handle@, names_room: c.names_room, room_id: text_opt(c.room_id) }
}

/// The channel for a chat platform, when its trimmed handle is not blank.
pub open spec fn chat_channel(platform: Seq<char>, input: ChannelInput) -> Seq<ChannelValues> {
    if trim(input.handle@).len() == 0 {
        Seq::empty()
    } else {
        seq![ChannelValues { platform, handle: trim(input.handle@), names_room: true, room_id: text_opt(input.room_id) }]
    }
}

/// The channels of a new person: WhatsApp, Telegram, Signal and email, in
/// that order, each when its trimmed handle is not blank.
pub open spec fn channels_of(wa: ChannelInput, tg: ChannelInput, sg: ChannelInput, email: Seq<char>) -> Seq<ChannelValues> {
    chat_channel("whatsapp"@, wa) + chat_channel("telegram"@, tg) + chat_channel("signal"@, sg) + if trim(email).len() == 0 {
        Seq::empty()
    } else {
        seq![ChannelValues { platform: "email"@, handle: trim(email), names_room: false, room_id: None }]
    }
}

fn push_chat_channel(out: &mut Vec<ChannelRequest>, platform: &'static str, input: ChannelInput)
    ensures
        final(out)@.map_values(|c: ChannelRequest| channel_values(c))
            == old(out)@.map_values(|c: ChannelRequest| channel_values(c)) + chat_channel(platform@, input),
{
    let h = chars_of(input.handle.as_str());
    let t = trimmed(h.as_slice());
    let ghost before = out@;
    if t.len() != 0 {
        out.push(ChannelRequest { platform, handle: string_of(t.as_slice()), names_room: true, room_id: input.room_id });
    }
    assert(out@.map_values(|c: ChannelRequest| channel_values(c)) =~= before.map_values(
        |c: ChannelRequest| channel_values(c),
    ) + chat_channel(platform@, input));
}

/// The new person to send, or nothing while the trimmed name is blank.
pub fn new_person_request(name: &str, wa: ChannelInput, tg: ChannelInput, sg: ChannelInput, email: &str) -> (r: Option<PersonRequest>)
    ensures
        trim(name@).len() == 0 ==> r is None,
        trim(name@).len() != 0 ==> (r matches Some(p) && p.name@ == trim(name@)
            && p.channels@.map_values(|c: ChannelRequest| channel_values(c)) == channels_of(wa, tg, sg, email@)),
{
    let n = chars_of(name);
    let tn = trimmed(n.as_slice());
    if tn.len() == 0 {
        return None;
    }
    let ghost (wa0, tg0, sg0) = (wa, tg, sg);
    let mut channels: Vec<ChannelRequest> = Vec::new();
    assert(channels@.map_values(|c: ChannelRequest| channel_values(c)) =~= Seq::<ChannelValues>::empty());
    push_chat_channel(&mut channels, "whatsapp", wa);
    push_chat_channel(&mut channels, "telegram", tg);
    push_chat_channel(&mut channels, "signal", sg);
    let e = chars_of(email);
    let te = trimmed(e.as_slice());
    let ghost before = channels@;
    if te.len() != 0 {
        channels.push(ChannelRequest { platform: "email", handle: string_of(te.as_slice()), names_room: false, room_id: None });
    }
    proof {
        let tail = if trim(email@).len() == 0 {
            Seq::empty()
        } else {
            seq![ChannelValues { platform: "email"@, handle: trim(email@), names_room: false, room_id: None }]
        };
        assert(channels@.map_values(|c: ChannelRequest| channel_values(c)) =~= before.map_values(
            |c: ChannelRequest| channel_values(c),
        ) + tail);
        assert(Seq::<ChannelValues>::empty() + chat_channel("whatsapp"@, wa0) + chat_channel("telegram"@, tg0)
            + chat_channel("signal"@, sg0) + tail =~= channels_of(wa0, tg0, sg0, email@));
    }
    Some(PersonRequest { name: string_of(tn.as_slice()), channels })
}

/// The chat search runs once the query is at least two bytes long in UTF-8.
pub fn person_search_wanted(query: &str) -> (b: bool)
    ensures
        b == (vstd::utf8::encode_utf8(query@).len() >= 2),
{
    let q = chars_of(query);
    !crate::text::utf8_len_below(q.as_slice(), 2)
}

/// Picking a found chat: the handle becomes its name and the chat is
/// attached, unless its room id is empty. Chats that already belong to a
/// person cannot be picked.
pub fn pick_room(room: &SearchRoom) -> (r: Option<ChannelInput>)
    ensures
        room.person_name is Some ==> r is None,
        room.person_name is None ==> (r matches Some(i) && i.handle@ == room.display_name@
            && text_opt(i.room_id) == if room.room_id@.len() == 0 { None } else { Some(room.room_id@) }),
{
    if room.person_name.is_some() {
        return None;
    }
    let rid = if room.room_id.as_str().is_empty() { None } else { Some(room.room_id.clone()) };
    Some(ChannelInput { handle: room.display_name.clone(), room_id: rid })
}

/// The mark shown after a chat that already belongs to someone.
pub fn attached_tag(owner: &str) -> (s: String)
    ensures
        s@ == seq!['('] + owner@ + seq![')'],
{
    let mut v: Vec<char> = Vec::new();
    v.push('(');
    extend_str(&mut v, owner);
    v.push(')');
    string_of(v.as_slice())
}

/// The icon of a channel platform.
pub open spec fn channel_icon_of(platform: Seq<char>) -> Seq<char> {
    if platform == "whatsapp"@ {
        "fa-brands fa-whatsapp"@
    } else if platform == "telegram"@ {
        "fa-brands fa-telegram"@
    } else if platform == "signal"@ {
        "fa-solid fa-comment-dots"@
    } else {
        "fa-solid fa-envelope"@
    }
}

/// The icon of a channel platform.
pub fn channel_icon(platform: &str) -> (s: &'static str)
    ensures
        s@ == channel_icon_of(platform@),
{
    if is_text(platform, "whatsapp") {
        "fa-brands fa-whatsapp"
    } else if is_text(platform, "telegram") {
        "fa-brands fa-telegram"
    } else if is_text(platform, "signal") {
        "fa-solid fa-comment-dots"
    } else {
        "fa-solid fa-envelope"
    }
}

/// How a channel's platform is named: the known ones capitalized, any other
/// as it is.
pub open spec fn channel_platform_name_of(platform: Seq<char>) -> Seq<char> {
    if platform == "whatsapp"@ {
        "WhatsApp"@
    } else if platform == "telegram"@ {
        "Telegram"@
    } else if platform == "signal"@ {
        "Signal"@
    } else if platform == "email"@ {
        "Email"@
    } else {
        platform
    }
}

/// How a channel's platform is named.
pub fn channel_platform_name(platform: &str) -> (s: String)
    ensures
        s@ == channel_platform_name_of(platform@),
{
    if is_text(platform, "whatsapp") {
        "WhatsApp".to_owned()
    } else if is_text(platform, "telegram") {
        "Telegram".to_owned()
    } else if is_text(platform, "signal") {
        "Signal".to_owned()
    } else if is_text(platform, "email") {
        "Email".to_owned()
    } else {
        platform.to_owned()
    }
}

/// How a channel's handle is shown: "Chat linked" when it has none.
pub fn channel_handle_text(handle: &Option<String>) -> (s: String)
    ensures
        s@ == match handle {
            Some(h) => if h@.len() == 0 { "Chat linked"@ } else { h@ },
            None => "Chat linked"@,
        },
{
    match handle {
        Some(h) => if h.as_str().is_empty() { "Chat linked".to_owned() } else { h.clone() },
        None => "Chat linked".to_owned(),
    }
}

/// A person's row opens when closed and closes when open.
pub fn toggle_expanded(expanded: Option<i32>, id: i32) -> (r: Option<i32>)
    ensures
        r == if expanded == Some(id) { None } else { Some(id) },
{
    if expanded == Some(id) { None } else { Some(id) }
}

/// The endpoint of a person.
pub fn person_path(id: i32) -> (s: String)
    ensures
        s@ == "/api/persons/"@ + dec_int(id as int),
{
    let mut v = chars_of("/api/persons/");
    let d = dec_int_chars(id as i64);
    extend_chars(&mut v, d.as_slice());
    string_of(v.as_slice())
}

/// The endpoint of one of a person's channels.
pub fn person_channel_path(id: i32, channel: i32) -> (s: String)
    ensures
        s@ == "/api/persons/"@ + dec_int(id as int) + "/channels/"@ + dec_int(channel as int),
{
    let mut v = chars_of("/api/persons/");
    let d = dec_int_chars(id as i64);
    extend_chars(&mut v, d.as_slice());
    extend_str(&mut v, "/channels/");
    let c = dec_int_chars(channel as i64);
    extend_chars(&mut v, c.as_slice());
    string_of(v.as_slice())
}

// ---------------------------------------------------------------------------
// The people list
// ---------------------------------------------------------------------------

/// What a chat field's suggestions box shows.
#[derive(Clone, Copy, Debug, PartialEq, Eq, Structural)]
pub enum RoomSuggestions {
    Hidden,
    Searching,
    NoChats,
    /// The found chats, `results`.
    Rooms,
}

/// The people list: the persons, the open row, the add form and the chat
/// search under its fields.
#[derive(Clone, Debug)]
pub struct PeoplePanel {
    pub persons: Vec<PersonResponse>,
    pub loading: bool,
    pub expanded: Option<i32>,
    pub adding: bool,
    pub name: String,
    pub whatsapp: ChannelInput,
    pub telegram: ChannelInput,
    pub signal: ChannelInput,
    pub email: String,
    /// The chats found by the last search.
    pub results: Vec<SearchRoom>,
    /// The field whose suggestions show.
    pub active: Option<ChatPlatform>,
    pub searching: bool,
}

/// A chat field of the add form.
pub open spec fn input_of(p: PeoplePanel, c: ChatPlatform) -> ChannelInput {
    match c {
        ChatPlatform::WhatsApp => p.whatsapp,
        ChatPlatform::Telegram => p.telegram,
        ChatPlatform::Signal => p.signal,
    }
}

/// The panel with a chat field replaced.
pub open spec fn with_input(p: PeoplePanel, c: ChatPlatform, i: ChannelInput) -> PeoplePanel {
    match c {
        ChatPlatform::WhatsApp => PeoplePanel { whatsapp: i, ..p },
        ChatPlatform::Telegram => PeoplePanel { telegram: i, ..p },
        ChatPlatform::Signal => PeoplePanel { signal: i, ..p },
    }
}

/// An empty chat field.
pub open spec fn blank_input(i: ChannelInput) -> bool {
    i.handle@.len() == 0 && i.room_id is None
}

fn blank() -> (i: ChannelInput)
    ensures
        blank_input(i),
{
    ChannelInput { handle: String::new(), room_id: None }
}

fn copy_input(i: &ChannelInput) -> (r: ChannelInput)
    ensures
        r == *i,
{
    ChannelInput {
        handle: i.handle.clone(),
        room_id: match &i.room_id {
            Some(x) => Some(x.clone()),
            None => None,
        },
    }
}

impl PeoplePanel {
    /// The list before the persons load.
    pub fn new() -> (p: Self)
        ensures
            p.persons@.len() == 0,
            p.loading,
            p.expanded is None,
            !p.adding,
            p.name@.len() == 0,
            blank_input(p.whatsapp) && blank_input(p.telegram) && blank_input(p.signal),
            p.email@.len() == 0,
            p.results@.len() == 0,
            p.active is None,
            !p.searching,
    {
        PeoplePanel {
            persons: Vec::new(),
            loading: true,
            expanded: None,
            adding: false,
            name: String::new(),
            whatsapp: blank(),
            telegram: blank(),
            signal: blank(),
            email: String::new(),
            results: Vec::new(),
            active: None,
            searching: false,
        }
    }

    /// The persons arrived, or could not be loaded (`None`).
    pub fn on_loaded(&mut self, persons: Option<Vec<PersonResponse>>)
        ensures
            match persons {
                Some(ps) => *final(self) == (PeoplePanel { persons: ps, loading: false, ..*old(self) }),
                None => *final(self) == (PeoplePanel { loading: false, ..*old(self) }),
            },
    {
        match persons {
            Some(ps) => self.persons = ps,
            None => {},
        }
        self.loading = false;
    }

    /// A person's row was clicked: it opens, or closes when open.
    pub fn toggle(&mut self, id: i32)
        ensures
            *final(self) == (PeoplePanel {
                expanded: if old(self).expanded == Some(id) { None } else { Some(id) },
                ..*old(self)
            }),
    {
        self.expanded = toggle_expanded(self.expanded, id);
    }

    /// The add button was clicked: the form opens empty.
    pub fn open_add(&mut self)
        ensures
            final(self).name@.len() == 0,
            blank_input(final(self).whatsapp) && blank_input(final(self).telegram) && blank_input(final(self).signal),
            final(self).email@.len() == 0,
            *final(self) == (PeoplePanel {
                name: final(self).name,
                whatsapp: final(self).whatsapp,
                telegram: final(self).telegram,
                signal: final(self).signal,
                email: final(self).email,
                adding: true,
                ..*old(self)
            }),
    {
        self.name = String::new();
        self.whatsapp = blank();
        self.telegram = blank();
        self.signal = blank();
        self.email = String::new();
        self.adding = true;
    }

    /// The add form was cancelled.
    pub fn cancel_add(&mut self)
        ensures
            *final(self) == (PeoplePanel { adding: false, ..*old(self) }),
    {
        self.adding = false;
    }

    /// The name as typed.
    pub fn set_name(&mut self, name: String)
        ensures
            *final(self) == (PeoplePanel { name, ..*old(self) }),
    {
        self.name = name;
    }

    /// The email address as typed.
    pub fn set_email(&mut self, email: String)
        ensures
            *final(self) == (PeoplePanel { email, ..*old(self) }),
    {
        self.email = email;
    }

    /// Start the chat search for a field with `query`, or clear the results
    /// when the query is too short: returns whether to search.
    fn search(&mut self, c: ChatPlatform, query: &str) -> (send: bool)
        ensures
            send == (vstd::utf8::encode_utf8(query@).len() >= 2),
            send ==> *final(self) == (PeoplePanel { active: Some(c), searching: true, ..*old(self) }),
            !send ==> final(self).results@.len() == 0
                && *final(self) == (PeoplePanel { results: final(self).results, active: None, ..*old(self) }),
    {
        if !person_search_wanted(query) {
            self.results = Vec::new();
            self.active = None;
            false
        } else {
            self.active = Some(c);
            self.searching = true;
            true
        }
    }

    /// A chat field was typed into: the chat picked for it is dropped, and
    /// its chats are searched once the text is two bytes long; returns
    /// whether to search.
    pub fn type_handle(&mut self, c: ChatPlatform, text: String) -> (send: bool)
        ensures
            send == (vstd::utf8::encode_utf8(text@).len() >= 2),
            input_of(*final(self), c).handle@ == text@,
            input_of(*final(self), c).room_id is None,
            send ==> *final(self) == with_input(
                PeoplePanel { active: Some(c), searching: true, ..*old(self) },
                c,
                input_of(*final(self), c),
            ),
            !send ==> final(self).results@.len() == 0 && *final(self) == with_input(
                PeoplePanel { results: final(self).results, active: None, ..*old(self) },
                c,
                input_of(*final(self), c),
            ),
    {
        let send = self.search(c, text.as_str());
        let input = ChannelInput { handle: text, room_id: None };
        match c {
            ChatPlatform::WhatsApp => self.whatsapp = input,
            ChatPlatform::Telegram => self.telegram = input,
            ChatPlatform::Signal => self.signal = input,
        }
        send
    }

    /// A chat field got the focus: its chats are searched again when it
    /// holds at least two bytes; returns whether to search.
    pub fn focus(&mut self, c: ChatPlatform) -> (send: bool)
        ensures
            send == (vstd::utf8::encode_utf8(input_of(*old(self), c).handle@).len() >= 2),
            send ==> *final(self) == (PeoplePanel { active: Some(c), searching: true, ..*old(self) }),
            !send ==> *final(self) == *old(self),
    {
        let h = match c {
            ChatPlatform::WhatsApp => self.whatsapp.handle.clone(),
            ChatPlatform::Telegram => self.telegram.handle.clone(),
            ChatPlatform::Signal => self.signal.handle.clone(),
        };
        if person_search_wanted(h.as_str()) {
            self.search(c, h.as_str())
        } else {
            false
        }
    }

    /// The field lost the focus (a moment ago): the suggestions close.
    pub fn close_suggestions(&mut self)
        ensures
            *final(self) == (PeoplePanel { active: None, ..*old(self) }),
    {
        self.active = None;
    }

    /// A chat search ended, with the chats found, or without a readable answer.
    pub fn on_search_reply(&mut self, rooms: Option<Vec<SearchRoom>>)
        ensures
            match rooms {
                Some(r) => *final(self) == (PeoplePanel { results: r, searching: false, ..*old(self) }),
                None => *final(self) == (PeoplePanel { searching: false, ..*old(self) }),
            },
    {
        match rooms {
            Some(r) => self.results = r,
            None => {},
        }
        self.searching = false;
    }

    /// A found chat was picked for a field: unless it already belongs to
    /// someone, it fills the field and the suggestions close.
    pub fn pick(&mut self, c: ChatPlatform, room: &SearchRoom)
        ensures
            room.person_name is Some ==> *final(self) == *old(self),
            room.person_name is None ==> {
                &&& *final(self) == with_input(PeoplePanel { active: None, ..*old(self) }, c, input_of(*final(self), c))
                &&& input_of(*final(self), c).handle@ == room.display_name@
                &&& text_opt(input_of(*final(self), c).room_id) == if room.room_id@.len() == 0 {
                    None
                } else {
                    Some(room.room_id@)
                }
            },
    {
        match pick_room(room) {
            Some(input) => {
                match c {
                    ChatPlatform::WhatsApp => self.whatsapp = input,
                    ChatPlatform::Telegram => self.telegram = input,
                    ChatPlatform::Signal => self.signal = input,
                }
                self.active = None;
            },
            None => {},
        }
    }

    /// Save was pressed: the new person to send, or nothing while the name is
    /// blank.
    pub fn save(&self) -> (r: Option<PersonRequest>)
        ensures
            trim(self.name@).len() == 0 ==> r is None,
            trim(self.name@).len() != 0 ==> (r matches Some(p) && p.name@ == trim(self.name@)
                && p.channels@.map_values(|c: ChannelRequest| channel_values(c))
                    == channels_of(self.whatsapp, self.telegram, self.signal, self.email@)),
    {
        new_person_request(
            self.name.as_str(),
            copy_input(&self.whatsapp),
            copy_input(&self.telegram),
            copy_input(&self.signal),
            self.email.as_str(),
        )
    }

    /// The new person was stored, or not: once stored the form closes (and
    /// the list is fetched again).
    pub fn on_saved(&mut self, stored: bool)
        ensures
            *final(self) == (PeoplePanel { adding: old(self).adding && !stored, ..*old(self) }),
    {
        if stored {
            self.adding = false;
        }
    }

    /// What a chat field's suggestions show: nothing unless its search is
    /// the active one, then "Searching...", "No chats found", or the chats.
    pub fn suggestions(&self, c: ChatPlatform) -> (v: RoomSuggestions)
        ensures
            v == if self.active != Some(c) {
                RoomSuggestions::Hidden
            } else if self.searching {
                RoomSuggestions::Searching
            } else if self.results@.len() == 0 {
                RoomSuggestions::NoChats
            } else {
                RoomSuggestions::Rooms
            },
    {
        let shown = match self.active {
            Some(a) => a == c,
            None => false,
        };
        if !shown {
            RoomSuggestions::Hidden
        } else if self.searching {
            RoomSuggestions::Searching
        } else if self.results.len() == 0 {
            RoomSuggestions::NoChats
        } else {
            RoomSuggestions::Rooms
        }
    }
}

} // verus!
