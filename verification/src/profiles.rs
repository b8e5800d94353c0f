use vstd::prelude::*;
use crate::contacts::{exception_index, find_exception, ContactProfile, ProfileException};
use crate::media::text_opt;
use crate::text::{chars_of, dec_int, dec_int_chars, extend_chars, occurs, string_of, trim, trimmed, utf8_len_below};

verus! {

// ---------------------------------------------------------------------------
// Editing contact profiles
// ---------------------------------------------------------------------------

/// How to be notified: the mode, the channel, and whether calls ring through.
#[derive(Clone, Debug, PartialEq)]
pub struct NotifySettings {
    pub notification_mode: String,
    pub notification_type: String,
    pub notify_on_call: bool,
}

/// A per-platform setting as sent to the server.
#[derive(Clone, Debug, PartialEq)]
pub struct ExceptionRequest {
    pub platform: String,
    pub notification_mode: String,
    pub notification_type: String,
    pub notify_on_call: bool,
}

/// A contact profile as sent to the server.
#[derive(Clone, Debug, PartialEq)]
pub struct CreateProfileRequest {
    pub nickname: String,
    pub whatsapp_chat: Option<String>,
    pub telegram_chat: Option<String>,
    pub signal_chat: Option<String>,
    pub email_addresses: Option<String>,
    pub notification_mode: String,
    pub notification_type: String,
    pub notify_on_call: bool,
    pub exceptions: Option<Vec<ExceptionRequest>>,
}

/// The values of a per-platform setting.
pub struct ExceptionValues {
    pub platform: Seq<char>,
    pub mode: Seq<char>,
    pub kind: Seq<char>,
    pub on_call: bool,
}

/// The values of a stored per-platform setting.
pub open spec fn exception_values(e: ProfileException) -> ExceptionValues {
    ExceptionValues { platform: e.platform@, mode: e.notification_mode@, kind: e.notification_type@, on_call: e.notify_on_call }
}

/// The values of a per-platform setting to send.
pub open spec fn request_values(e: ExceptionRequest) -> ExceptionValues {
    ExceptionValues { platform: e.platform@, mode: e.notification_mode@, kind: e.notification_type@, on_call: e.notify_on_call }
}

/// The stored settings other than those for `platform` (all of them for
/// `None`), in their order.
pub open spec fn kept_exceptions(ex: Seq<ProfileException>, platform: Option<Seq<char>>) -> Seq<ExceptionValues>
    decreases ex.len(),
{
    if ex.len() == 0 {
        Seq::empty()
    } else {
        let rest = kept_exceptions(ex.drop_last(), platform);
        if platform == Some(ex.last().platform@) { rest } else { rest.push(exception_values(ex.last())) }
    }
}

/// The exceptions as sent, by their values.
pub open spec fn sent_exceptions(ex: Option<Vec<ExceptionRequest>>) -> Option<Seq<ExceptionValues>> {
    match ex {
        Some(v) => Some(v@.map_values(|e: ExceptionRequest| request_values(e))),
        None => None,
    }
}

/// A list of exceptions as it is sent: none at all when it is empty.
pub open spec fn sent_list(l: Seq<ExceptionValues>) -> Option<Seq<ExceptionValues>> {
    if l.len() == 0 { None } else { Some(l) }
}

/// The same optional text.
fn copy_opt(o: &Option<String>) -> (r: Option<String>)
    ensures
        r == *o,
{
    match o {
        Some(s) => Some(s.clone()),
        None => None,
    }
}

/// The stored settings other than those for `platform`, as requests.
fn copy_exceptions(ex: &Vec<ProfileException>, platform: Option<&str>) -> (out: Vec<ExceptionRequest>)
    ensures
        out@.map_values(|e: ExceptionRequest| request_values(e)) == kept_exceptions(
            ex@,
            match platform {
                Some(p) => Some(p@),
                None => None,
            },
        ),
{
    let ghost pl = match platform {
        Some(p) => Some(p@),
        None => None::<Seq<char>>,
    };
    let mut out: Vec<ExceptionRequest> = Vec::new();
    let mut i: usize = 0;
    while i < ex.len()
        invariant
            i <= ex.len(),
            pl == match platform {
                Some(p) => Some(p@),
                None => None,
            },
            out@.map_values(|e: ExceptionRequest| request_values(e)) == kept_exceptions(ex@.take(i as int), pl),
        decreases ex.len() - i,
    {
        let e = &ex[i];
        let skip = match platform {
            Some(p) => crate::text::is_text(e.platform.as_str(), p),
            None => false,
        };
        let ghost t = ex@.take(i + 1);
        assert(t.drop_last() =~= ex@.take(i as int));
        assert(t.last() == ex@[i as int]);
        if !skip {
            let ghost before = out@;
            out.push(ExceptionRequest {
                platform: e.platform.clone(),
                notification_mode: e.notification_mode.clone(),
                notification_type: e.notification_type.clone(),
                notify_on_call: e.notify_on_call,
            });
            assert(out@.map_values(|e: ExceptionRequest| request_values(e)) =~= before.map_values(
                |e: ExceptionRequest| request_values(e),
            ).push(exception_values(ex@[i as int])));
        }
        i = i + 1;
    }
    assert(ex@.take(ex.len() as int) =~= ex@);
    out
}

/// The list to send: none at all when it is empty.
fn nonempty(v: Vec<ExceptionRequest>) -> (r: Option<Vec<ExceptionRequest>>)
    ensures
        v@.len() == 0 ==> r is None,
        v@.len() != 0 ==> r == Some(v),
{
    if v.len() == 0 { None } else { Some(v) }
}

/// The message when a nickname holds an '@'.
pub open spec fn at_sign_error() -> Seq<char> {
    "Nickname cannot contain '@'."@
}

/// The message when a nickname is blank.
pub open spec fn blank_nickname_error() -> Seq<char> {
    "Nickname cannot be empty."@
}

/// A profile request keeps the profile's chats and addresses.
pub open spec fn keeps_handles(r: CreateProfileRequest, p: ContactProfile) -> bool {
    &&& r.whatsapp_chat == p.whatsapp_chat
    &&& r.telegram_chat == p.telegram_chat
    &&& r.signal_chat == p.signal_chat
    &&& r.email_addresses == p.email_addresses
}

/// The request that saves a contact's settings. A nickname with an '@' is
/// refused first, then a blank one; otherwise the nickname as typed, the
/// contact's chats and per-platform settings, and the new settings are sent.
pub fn edit_profile_request(profile: &ContactProfile, nickname: String, s: &NotifySettings) -> (r: Result<CreateProfileRequest, &'static str>)
    ensures
        occurs(nickname@, seq!['@']) ==> (r matches Err(e) && e@ == at_sign_error()),
        !occurs(nickname@, seq!['@']) && trim(nickname@).len() == 0 ==> (r matches Err(e) && e@ == blank_nickname_error()),
        !occurs(nickname@, seq!['@']) && trim(nickname@).len() != 0 ==> (r matches Ok(q) && {
            &&& q.nickname@ == nickname@
            &&& keeps_handles(q, *profile)
            &&& q.notification_mode@ == s.notification_mode@
            &&& q.notification_type@ == s.notification_type@
            &&& q.notify_on_call == s.notify_on_call
            &&& sent_exceptions(q.exceptions) == sent_list(kept_exceptions(profile.exceptions@, None))
        }),
{
    let n = chars_of(nickname.as_str());
    let at = vec!['@'];
    assert(at@ =~= seq!['@']);
    if crate::text::contains(n.as_slice(), at.as_slice()) {
        return Err("Nickname cannot contain '@'.");
    }
    let t = trimmed(n.as_slice());
    if t.len() == 0 {
        return Err("Nickname cannot be empty.");
    }
    let ex = copy_exceptions(&profile.exceptions, None);
    Ok(CreateProfileRequest {
        nickname,
        whatsapp_chat: copy_opt(&profile.whatsapp_chat),
        telegram_chat: copy_opt(&profile.telegram_chat),
        signal_chat: copy_opt(&profile.signal_chat),
        email_addresses: copy_opt(&profile.email_addresses),
        notification_mode: s.notification_mode.clone(),
        notification_type: s.notification_type.clone(),
        notify_on_call: s.notify_on_call,
        exceptions: nonempty(ex),
    })
}

/// The request that keeps a contact as it is but for its per-platform
/// settings `ex`.
fn same_profile_with(profile: &ContactProfile, ex: Vec<ExceptionRequest>) -> (q: CreateProfileRequest)
    ensures
        q.nickname@ == profile.nickname@,
        keeps_handles(q, *profile),
        q.notification_mode@ == profile.notification_mode@,
        q.notification_type@ == profile.notification_type@,
        q.notify_on_call == profile.notify_on_call,
        ex@.len() == 0 ==> q.exceptions is None,
        ex@.len() != 0 ==> q.exceptions == Some(ex),
{
    CreateProfileRequest {
        nickname: profile.nickname.clone(),
        whatsapp_chat: copy_opt(&profile.whatsapp_chat),
        telegram_chat: copy_opt(&profile.telegram_chat),
        signal_chat: copy_opt(&profile.signal_chat),
        email_addresses: copy_opt(&profile.email_addresses),
        notification_mode: profile.notification_mode.clone(),
        notification_type: profile.notification_type.clone(),
        notify_on_call: profile.notify_on_call,
        exceptions: nonempty(ex),
    }
}

/// The request that sets a contact's own settings for `platform`: the
/// other platforms' settings stay, and the new one comes last.
pub fn exception_saved_request(profile: &ContactProfile, platform: &str, s: &NotifySettings) -> (q: CreateProfileRequest)
    ensures
        q.nickname@ == profile.nickname@,
        keeps_handles(q, *profile),
        q.notification_mode@ == profile.notification_mode@,
        q.notification_type@ == profile.notification_type@,
        q.notify_on_call == profile.notify_on_call,
        sent_exceptions(q.exceptions) == Some(kept_exceptions(profile.exceptions@, Some(platform@)).push(ExceptionValues {
            platform: platform@,
            mode: s.notification_mode@,
            kind: s.notification_type@,
            on_call: s.notify_on_call,
        })),
{
    let mut ex = copy_exceptions(&profile.exceptions, Some(platform));
    let ghost before = ex@;
    ex.push(ExceptionRequest {
        platform: platform.to_owned(),
        notification_mode: s.notification_mode.clone(),
        notification_type: s.notification_type.clone(),
        notify_on_call: s.notify_on_call,
    });
    assert(ex@.map_values(|e: ExceptionRequest| request_values(e)) =~= before.map_values(
        |e: ExceptionRequest| request_values(e),
    ).push(ExceptionValues {
        platform: platform@,
        mode: s.notification_mode@,
        kind: s.notification_type@,
        on_call: s.notify_on_call,
    }));
    same_profile_with(profile, ex)
}

/// The request that drops a contact's own settings for `platform`, so the
/// contact's defaults apply there again.
pub fn exception_removed_request(profile: &ContactProfile, platform: &str) -> (q: CreateProfileRequest)
    ensures
        q.nickname@ == profile.nickname@,
        keeps_handles(q, *profile),
        q.notification_mode@ == profile.notification_mode@,
        q.notification_type@ == profile.notification_type@,
        q.notify_on_call == profile.notify_on_call,
        sent_exceptions(q.exceptions) == sent_list(kept_exceptions(profile.exceptions@, Some(platform@))),
{
    let ex = copy_exceptions(&profile.exceptions, Some(platform));
    same_profile_with(profile, ex)
}

/// A handle as typed: none when left empty.
pub open spec fn typed_handle(s: Seq<char>) -> Option<Seq<char>> {
    if s.len() == 0 { None } else { Some(s) }
}

/// A handle as typed: none when left empty.
fn handle(s: String) -> (r: Option<String>)
    ensures
        text_opt(r) == typed_handle(s@),
{
    if s.as_str().is_empty() { None } else { Some(s) }
}

/// The request that creates a contact. The trimmed nickname must not be
/// blank, then must not hold an '@'; handles left empty are not sent, and
/// there are no per-platform settings yet.
pub fn new_profile_request(
    nickname: &str,
    whatsapp: String,
    telegram: String,
    signal: String,
    email: String,
    s: &NotifySettings,
) -> (r: Result<CreateProfileRequest, &'static str>)
    ensures
        trim(nickname@).len() == 0 ==> (r matches Err(e) && e@ == blank_nickname_error()),
        trim(nickname@).len() != 0 && occurs(trim(nickname@), seq!['@']) ==> (r matches Err(e) && e@ == at_sign_error()),
        trim(nickname@).len() != 0 && !occurs(trim(nickname@), seq!['@']) ==> (r matches Ok(q) && {
            &&& q.nickname@ == trim(nickname@)
            &&& text_opt(q.whatsapp_chat) == typed_handle(whatsapp@)
            &&& text_opt(q.telegram_chat) == typed_handle(telegram@)
            &&& text_opt(q.signal_chat) == typed_handle(signal@)
            &&& text_opt(q.email_addresses) == typed_handle(email@)
            &&& q.notification_mode@ == s.notification_mode@
            &&& q.notification_type@ == s.notification_type@
            &&& q.notify_on_call == s.notify_on_call
            &&& q.exceptions is None
        }),
{
    let n = chars_of(nickname);
    let t = trimmed(n.as_slice());
    if t.len() == 0 {
        return Err("Nickname cannot be empty.");
    }
    let at = vec!['@'];
    assert(at@ =~= seq!['@']);
    if crate::text::contains(t.as_slice(), at.as_slice()) {
        return Err("Nickname cannot contain '@'.");
    }
    Ok(CreateProfileRequest {
        nickname: string_of(t.as_slice()),
        whatsapp_chat: handle(whatsapp),
        telegram_chat: handle(telegram),
        signal_chat: handle(signal),
        email_addresses: handle(email),
        notification_mode: s.notification_mode.clone(),
        notification_type: s.notification_type.clone(),
        notify_on_call: s.notify_on_call,
        exceptions: None,
    })
}

/// What the per-platform form starts with: the platform's own settings when
/// the contact has them, else the contact's.
pub fn exception_form(profile: &ContactProfile, platform: &str) -> (s: NotifySettings)
    ensures
        match exception_index(profile.exceptions@, platform@) {
            Some(i) => {
                &&& s.notification_mode@ == profile.exceptions@[i].notification_mode@
                &&& s.notification_type@ == profile.exceptions@[i].notification_type@
                &&& s.notify_on_call == profile.exceptions@[i].notify_on_call
            },
            None => {
                &&& s.notification_mode@ == profile.notification_mode@
                &&& s.notification_type@ == profile.notification_type@
                &&& s.notify_on_call == profile.notify_on_call
            },
        },
{
    match find_exception(profile, platform) {
        Some(e) => NotifySettings {
            notification_mode: e.notification_mode.clone(),
            notification_type: e.notification_type.clone(),
            notify_on_call: e.notify_on_call,
        },
        None => NotifySettings {
            notification_mode: profile.notification_mode.clone(),
            notification_type: profile.notification_type.clone(),
            notify_on_call: profile.notify_on_call,
        },
    }
}

/// The settings a new contact starts with.
pub fn default_settings() -> (s: NotifySettings)
    ensures
        s.notification_mode@ == "critical"@,
        s.notification_type@ == "sms"@,
        s.notify_on_call,
{
    NotifySettings { notification_mode: "critical".to_owned(), notification_type: "sms".to_owned(), notify_on_call: true }
}

/// The endpoint of a contact profile.
pub fn profile_path(id: i32) -> (p: String)
    ensures
        p@ == "/api/contact-profiles/"@ + dec_int(id as int),
{
    let mut v = chars_of("/api/contact-profiles/");
    let d = dec_int_chars(id as i64);
    extend_chars(&mut v, d.as_slice());
    string_of(v.as_slice())
}

/// Whether to search chats for `query`: once the trimmed query is at least
/// two bytes long in UTF-8.
pub fn search_wanted(query: &str) -> (b: bool)
    ensures
        b == (vstd::utf8::encode_utf8(trim(query@)).len() >= 2),
{
    let q = chars_of(query);
    let t = trimmed(q.as_slice());
    !utf8_len_below(t.as_slice(), 2)
}

/// The message when a chat search was refused: the server's error text, or a
/// generic one.
pub fn search_failure(server_error: Option<String>) -> (s: String)
    ensures
        s@ == match server_error {
            Some(e) => e@,
            None => "Search failed"@,
        },
{
    match server_error {
        Some(e) => e,
        None => "Search failed".to_owned(),
    }
}

// ---------------------------------------------------------------------------
// The contacts row: its dialogs, saving, and chat suggestions
// ---------------------------------------------------------------------------

/// Which dialog of the contacts row is open.
#[derive(Clone, Debug, PartialEq)]
pub enum ProfileDialog {
    /// A contact's own settings.
    Contact(i32),
    /// A contact's settings on one platform.
    Platform(i32, String),
    /// The settings for everyone else.
    Defaults,
    AddContact,
    PeopleInfo,
}

/// The chat platforms whose chats can be searched while adding a contact.
#[derive(Clone, Copy, Debug, PartialEq, Eq, Structural)]
pub enum ChatPlatform {
    WhatsApp,
    Telegram,
    Signal,
}

/// The chat suggestions under one handle field of the add-contact form.
#[derive(Clone, Debug, PartialEq)]
pub struct ChatSuggestions {
    /// The names of the chats found.
    pub names: Vec<String>,
    pub searching: bool,
    pub shown: bool,
    pub error: Option<String>,
}

/// What a suggestions box shows.
#[derive(Clone, Debug, PartialEq)]
pub enum SuggestionsView {
    Hidden,
    Searching,
    Error(String),
    NoChats,
    Chats(Vec<String>),
}

/// How a chat search ended.
#[derive(Clone, Debug)]
pub enum SearchReply {
    /// The names of the chats found.
    Found(Vec<String>),
    /// The server refused, with the error text of its body when it had one.
    Refused(Option<String>),
    /// The request did not reach the server.
    Unreachable,
    /// An accepted answer that could not be read.
    Unreadable,
}

/// How a save or delete request ended.
#[derive(Clone, Copy, Debug, PartialEq, Eq, Structural)]
pub enum ProfileReply {
    Done,
    Refused,
    Unreachable,
    /// The request could not be encoded, so it was not sent.
    Unsent,
}

/// The add-contact form.
#[derive(Clone, Debug, PartialEq)]
pub struct AddForm {
    pub nickname: String,
    pub whatsapp: String,
    pub telegram: String,
    pub signal: String,
    pub email: String,
    pub settings: NotifySettings,
}

/// The contacts row: the watched contacts, the settings for everyone else,
/// the open dialog with its forms, and the chat suggestions.
#[derive(Clone, Debug)]
pub struct ProfilesPanel {
    pub profiles: Vec<ContactProfile>,
    pub defaults: NotifySettings,
    pub loading: bool,
    pub dialog: Option<ProfileDialog>,
    pub error: Option<String>,
    pub saving: bool,
    /// The contact dialog's nickname and settings.
    pub nickname: String,
    pub contact_form: NotifySettings,
    /// The platform dialog's settings.
    pub platform_form: NotifySettings,
    /// The defaults dialog's settings.
    pub defaults_form: NotifySettings,
    pub add: AddForm,
    pub whatsapp_search: ChatSuggestions,
    pub telegram_search: ChatSuggestions,
    pub signal_search: ChatSuggestions,
}

/// The position of the first contact with id `id`.
pub open spec fn profile_index(s: Seq<ContactProfile>, id: i32) -> Option<int>
    decreases s.len(),
{
    if s.len() == 0 {
        None
    } else {
        match profile_index(s.drop_last(), id) {
            Some(i) => Some(i),
            None => if s.last().id == id { Some(s.len() - 1) } else { None },
        }
    }
}

proof fn lemma_profile_index(s: Seq<ContactProfile>, id: i32, i: int)
    requires
        0 <= i <= s.len(),
        forall|k: int| 0 <= k < i ==> #[trigger] s[k].id != id,
    ensures
        i < s.len() && s[i].id == id ==> profile_index(s, id) == Some(i),
        i == s.len() ==> profile_index(s, id) is None,
    decreases s.len(),
{
    if s.len() > 0 {
        if i == s.len() {
            lemma_profile_index(s.drop_last(), id, i - 1);
            if s.last().id == id {
                assert(s[i - 1].id != id);
            }
        } else if i < s.len() - 1 {
            lemma_profile_index(s.drop_last(), id, i);
        } else {
            lemma_profile_index(s.drop_last(), id, i);
        }
    }
}

/// The position of the first contact with id `id`, if any.
fn find_profile(profiles: &Vec<ContactProfile>, id: i32) -> (r: Option<usize>)
    ensures
        r matches Some(k) ==> profile_index(profiles@, id) == Some(k as int) && k < profiles@.len()
            && profiles@[k as int].id == id,
        r is None ==> profile_index(profiles@, id) is None,
{
    let mut i: usize = 0;
    while i < profiles.len() && profiles[i].id != id
        invariant
            i <= profiles.len(),
            forall|k: int| 0 <= k < i ==> #[trigger] profiles@[k].id != id,
        decreases profiles.len() - i,
    {
        i = i + 1;
    }
    proof {
        lemma_profile_index(profiles@, id, i as int);
    }
    if i < profiles.len() { Some(i) } else { None }
}

/// The suggestions of no search.
pub open spec fn no_suggestions(c: ChatSuggestions) -> bool {
    c.names@.len() == 0 && !c.searching && !c.shown && c.error is None
}

fn empty_suggestions() -> (c: ChatSuggestions)
    ensures
        no_suggestions(c),
{
    ChatSuggestions { names: Vec::new(), searching: false, shown: false, error: None }
}

/// The suggestions of a platform.
pub open spec fn search_of(p: ProfilesPanel, c: ChatPlatform) -> ChatSuggestions {
    match c {
        ChatPlatform::WhatsApp => p.whatsapp_search,
        ChatPlatform::Telegram => p.telegram_search,
        ChatPlatform::Signal => p.signal_search,
    }
}

/// The panel with a platform's suggestions replaced.
pub open spec fn with_search(p: ProfilesPanel, c: ChatPlatform, s: ChatSuggestions) -> ProfilesPanel {
    match c {
        ChatPlatform::WhatsApp => ProfilesPanel { whatsapp_search: s, ..p },
        ChatPlatform::Telegram => ProfilesPanel { telegram_search: s, ..p },
        ChatPlatform::Signal => ProfilesPanel { signal_search: s, ..p },
    }
}

/// A platform's handle field of the add-contact form.
pub open spec fn handle_of(a: AddForm, c: ChatPlatform) -> String {
    match c {
        ChatPlatform::WhatsApp => a.whatsapp,
        ChatPlatform::Telegram => a.telegram,
        ChatPlatform::Signal => a.signal,
    }
}

/// The add-contact form with a platform's handle replaced.
pub open spec fn with_handle(a: AddForm, c: ChatPlatform, h: String) -> AddForm {
    match c {
        ChatPlatform::WhatsApp => AddForm { whatsapp: h, ..a },
        ChatPlatform::Telegram => AddForm { telegram: h, ..a },
        ChatPlatform::Signal => AddForm { signal: h, ..a },
    }
}

/// A profile's own settings.
pub open spec fn settings_of(p: ContactProfile) -> NotifySettings {
    NotifySettings {
        notification_mode: p.notification_mode,
        notification_type: p.notification_type,
        notify_on_call: p.notify_on_call,
    }
}

/// The settings as they read.
pub open spec fn settings_view(s: NotifySettings) -> (Seq<char>, Seq<char>, bool) {
    (s.notification_mode@, s.notification_type@, s.notify_on_call)
}

fn copy_settings(s: &NotifySettings) -> (r: NotifySettings)
    ensures
        r == *s,
{
    NotifySettings {
        notification_mode: s.notification_mode.clone(),
        notification_type: s.notification_type.clone(),
        notify_on_call: s.notify_on_call,
    }
}

/// The message after a refused or unsent request, given what was refused.
pub open spec fn reply_error(reply: ProfileReply, refused: Seq<char>) -> Option<Seq<char>> {
    match reply {
        ProfileReply::Done => None,
        ProfileReply::Refused => Some(refused),
        ProfileReply::Unreachable => Some("Network error"@),
        ProfileReply::Unsent => None,
    }
}

fn clear_suggestions(s: &mut ChatSuggestions)
    ensures
        final(s).names@.len() == 0,
        *final(s) == (ChatSuggestions { names: final(s).names, shown: false, error: None, ..*old(s) }),
{
    s.names = Vec::new();
    s.shown = false;
    s.error = None;
}

fn start_or_stop(s: &mut ChatSuggestions, send: bool)
    ensures
        !send ==> no_suggestions(*final(s)),
        send ==> *final(s) == (ChatSuggestions { searching: true, shown: true, error: None, ..*old(s) }),
{
    if send {
        s.searching = true;
        s.shown = true;
        s.error = None;
    } else {
        *s = empty_suggestions();
    }
}

fn record_search(s: &mut ChatSuggestions, reply: SearchReply)
    ensures
        match reply {
            SearchReply::Found(names) => *final(s) == (ChatSuggestions { names, searching: false, ..*old(s) }),
            SearchReply::Refused(e) => {
                &&& *final(s) == (ChatSuggestions { searching: false, error: final(s).error, ..*old(s) })
                &&& text_opt(final(s).error) == Some(match e {
                    Some(t) => t@,
                    None => "Search failed"@,
                })
            },
            SearchReply::Unreachable => {
                &&& *final(s) == (ChatSuggestions { searching: false, error: final(s).error, ..*old(s) })
                &&& text_opt(final(s).error) == Some("Network error"@)
            },
            SearchReply::Unreadable => *final(s) == *old(s),
        },
{
    match reply {
        SearchReply::Found(names) => {
            s.names = names;
            s.searching = false;
        },
        SearchReply::Refused(e) => {
            s.searching = false;
            s.error = Some(search_failure(e));
        },
        SearchReply::Unreachable => {
            s.searching = false;
            s.error = Some("Network error".to_owned());
        },
        SearchReply::Unreadable => {},
    }
}

/// The same names.
fn copy_names(v: &Vec<String>) -> (r: Vec<String>)
    ensures
        r@ == v@,
{
    let mut r: Vec<String> = Vec::new();
    let mut i: usize = 0;
    while i < v.len()
        invariant
            i <= v.len(),
            r@ == v@.take(i as int),
        decreases v.len() - i,
    {
        r.push(v[i].clone());
        i = i + 1;
        assert(r@ =~= v@.take(i as int));
    }
    assert(v@.take(v.len() as int) =~= v@);
    r
}

impl ProfilesPanel {
    /// The row before the contacts load: everyone else is notified of
    /// critical messages by SMS, with calls ringing through.
    pub fn new() -> (p: Self)
        ensures
            p.profiles@.len() == 0,
            p.loading,
            p.dialog is None,
            p.error is None,
            !p.saving,
            settings_view(p.defaults) == ("critical"@, "sms"@, true),
            no_suggestions(p.whatsapp_search),
            no_suggestions(p.telegram_search),
            no_suggestions(p.signal_search),
    {
        ProfilesPanel {
            profiles: Vec::new(),
            defaults: default_settings(),
            loading: true,
            dialog: None,
            error: None,
            saving: false,
            nickname: String::new(),
            contact_form: default_settings(),
            platform_form: NotifySettings {
                notification_mode: String::new(),
                notification_type: "sms".to_owned(),
                notify_on_call: true,
            },
            defaults_form: default_settings(),
            add: AddForm {
                nickname: String::new(),
                whatsapp: String::new(),
                telegram: String::new(),
                signal: String::new(),
                email: String::new(),
                settings: default_settings(),
            },
            whatsapp_search: empty_suggestions(),
            telegram_search: empty_suggestions(),
            signal_search: empty_suggestions(),
        }
    }

    /// The contacts and the settings for everyone else arrived, or could not
    /// be loaded (`None`): loading ends either way.
    pub fn on_loaded(&mut self, loaded: Option<(Vec<ContactProfile>, NotifySettings)>)
        ensures
            match loaded {
                Some((ps, d)) => *final(self) == (ProfilesPanel { profiles: ps, defaults: d, loading: false, ..*old(self) }),
                None => *final(self) == (ProfilesPanel { loading: false, ..*old(self) }),
            },
    {
        match loaded {
            Some((ps, d)) => {
                self.profiles = ps;
                self.defaults = d;
            },
            None => {},
        }
        self.loading = false;
    }

    /// A contact's avatar was clicked: its dialog opens with its nickname and
    /// settings; nothing happens for an unknown contact.
    pub fn open_contact(&mut self, id: i32)
        ensures
            match profile_index(old(self).profiles@, id) {
                Some(i) => *final(self) == (ProfilesPanel {
                    nickname: old(self).profiles@[i].nickname,
                    contact_form: settings_of(old(self).profiles@[i]),
                    error: None,
                    dialog: Some(ProfileDialog::Contact(id)),
                    ..*old(self)
                }),
                None => *final(self) == *old(self),
            },
    {
        match find_profile(&self.profiles, id) {
            Some(i) => {
                let p = &self.profiles[i];
                let nickname = p.nickname.clone();
                let form = NotifySettings {
                    notification_mode: p.notification_mode.clone(),
                    notification_type: p.notification_type.clone(),
                    notify_on_call: p.notify_on_call,
                };
                self.nickname = nickname;
                self.contact_form = form;
                self.error = None;
                self.dialog = Some(ProfileDialog::Contact(id));
            },
            None => {},
        }
    }

    /// A platform bubble of a contact was clicked: the platform's dialog opens
    /// with the platform's own settings, or the contact's when it has none.
    pub fn open_platform(&mut self, id: i32, platform: String)
        ensures
            match profile_index(old(self).profiles@, id) {
                Some(i) => {
                    &&& *final(self) == (ProfilesPanel {
                        platform_form: final(self).platform_form,
                        error: None,
                        dialog: Some(ProfileDialog::Platform(id, platform)),
                        ..*old(self)
                    })
                    &&& settings_view(final(self).platform_form) == match exception_index(old(self).profiles@[i].exceptions@, platform@) {
                        Some(k) => settings_view(NotifySettings {
                            notification_mode: old(self).profiles@[i].exceptions@[k].notification_mode,
                            notification_type: old(self).profiles@[i].exceptions@[k].notification_type,
                            notify_on_call: old(self).profiles@[i].exceptions@[k].notify_on_call,
                        }),
                        None => settings_view(settings_of(old(self).profiles@[i])),
                    }
                },
                None => *final(self) == *old(self),
            },
    {
        match find_profile(&self.profiles, id) {
            Some(i) => {
                let form = exception_form(&self.profiles[i], platform.as_str());
                self.platform_form = form;
                self.error = None;
                self.dialog = Some(ProfileDialog::Platform(id, platform));
            },
            None => {},
        }
    }

    /// The "everyone else" avatar was clicked: its dialog opens with the
    /// current settings.
    pub fn open_defaults(&mut self)
        ensures
            *final(self) == (ProfilesPanel {
                defaults_form: old(self).defaults,
                error: None,
                dialog: Some(ProfileDialog::Defaults),
                ..*old(self)
            }),
    {
        self.defaults_form = copy_settings(&self.defaults);
        self.error = None;
        self.dialog = Some(ProfileDialog::Defaults);
    }

    /// The add button was clicked: the add-contact dialog opens with an empty
    /// form and the new-contact settings, and earlier suggestions are cleared.
    pub fn open_add(&mut self)
        ensures
            final(self).add.nickname@.len() == 0,
            final(self).add.whatsapp@.len() == 0,
            final(self).add.telegram@.len() == 0,
            final(self).add.signal@.len() == 0,
            final(self).add.email@.len() == 0,
            settings_view(final(self).add.settings) == ("critical"@, "sms"@, true),
            final(self).whatsapp_search == (ChatSuggestions { names: final(self).whatsapp_search.names, shown: false, error: None, ..old(self).whatsapp_search }),
            final(self).telegram_search == (ChatSuggestions { names: final(self).telegram_search.names, shown: false, error: None, ..old(self).telegram_search }),
            final(self).signal_search == (ChatSuggestions { names: final(self).signal_search.names, shown: false, error: None, ..old(self).signal_search }),
            final(self).whatsapp_search.names@.len() == 0,
            final(self).telegram_search.names@.len() == 0,
            final(self).signal_search.names@.len() == 0,
            *final(self) == (ProfilesPanel {
                add: final(self).add,
                whatsapp_search: final(self).whatsapp_search,
                telegram_search: final(self).telegram_search,
                signal_search: final(self).signal_search,
                error: None,
                dialog: Some(ProfileDialog::AddContact),
                ..*old(self)
            }),
    {
        self.add = AddForm {
            nickname: String::new(),
            whatsapp: String::new(),
            telegram: String::new(),
            signal: String::new(),
            email: String::new(),
            settings: default_settings(),
        };
        self.error = None;
        clear_suggestions(&mut self.whatsapp_search);
        clear_suggestions(&mut self.telegram_search);
        clear_suggestions(&mut self.signal_search);
        self.dialog = Some(ProfileDialog::AddContact);
    }

    /// The people explainer was opened.
    pub fn open_people_info(&mut self)
        ensures
            *final(self) == (ProfilesPanel { dialog: Some(ProfileDialog::PeopleInfo), ..*old(self) }),
    {
        self.dialog = Some(ProfileDialog::PeopleInfo);
    }

    /// The open dialog was closed.
    pub fn close(&mut self)
        ensures
            *final(self) == (ProfilesPanel { dialog: None, ..*old(self) }),
    {
        self.dialog = None;
    }

    /// Save was pressed in a contact's dialog: returns the request to send,
    /// or records why the nickname was refused; nothing for an unknown contact.
    pub fn save_contact(&mut self, id: i32) -> (r: Option<CreateProfileRequest>)
        ensures
            match profile_index(old(self).profiles@, id) {
                None => r is None && *final(self) == *old(self),
                Some(i) => {
                    let nick = old(self).nickname@;
                    if occurs(nick, seq!['@']) {
                        r is None && *final(self) == (ProfilesPanel { error: final(self).error, ..*old(self) })
                            && text_opt(final(self).error) == Some(at_sign_error())
                    } else if trim(nick).len() == 0 {
                        r is None && *final(self) == (ProfilesPanel { error: final(self).error, ..*old(self) })
                            && text_opt(final(self).error) == Some(blank_nickname_error())
                    } else {
                        &&& r matches Some(q) && {
                            &&& q.nickname@ == nick
                            &&& keeps_handles(q, old(self).profiles@[i])
                            &&& settings_view(NotifySettings {
                                notification_mode: q.notification_mode,
                                notification_type: q.notification_type,
                                notify_on_call: q.notify_on_call,
                            }) == settings_view(old(self).contact_form)
                            &&& sent_exceptions(q.exceptions) == sent_list(kept_exceptions(old(self).profiles@[i].exceptions@, None))
                        }
                        &&& *final(self) == (ProfilesPanel { saving: true, ..*old(self) })
                    }
                },
            },
    {
        match find_profile(&self.profiles, id) {
            None => None,
            Some(i) => {
                let nickname = self.nickname.clone();
                match edit_profile_request(&self.profiles[i], nickname, &self.contact_form) {
                    Ok(q) => {
                        self.saving = true;
                        Some(q)
                    },
                    Err(e) => {
                        self.error = Some(e.to_owned());
                        None
                    },
                }
            },
        }
    }

    /// Delete was pressed in a contact's dialog.
    pub fn press_delete(&mut self)
        ensures
            *final(self) == (ProfilesPanel { saving: true, ..*old(self) }),
    {
        self.saving = true;
    }

    /// Save was pressed in a platform's dialog: returns the request that sets
    /// the contact's settings there; nothing for an unknown contact.
    pub fn save_platform(&mut self, id: i32, platform: &str) -> (r: Option<CreateProfileRequest>)
        ensures
            match profile_index(old(self).profiles@, id) {
                None => r is None && *final(self) == *old(self),
                Some(i) => {
                    &&& r matches Some(q) && {
                        &&& q.nickname@ == old(self).profiles@[i].nickname@
                        &&& keeps_handles(q, old(self).profiles@[i])
                        &&& settings_view(NotifySettings {
                            notification_mode: q.notification_mode,
                            notification_type: q.notification_type,
                            notify_on_call: q.notify_on_call,
                        }) == settings_view(settings_of(old(self).profiles@[i]))
                        &&& sent_exceptions(q.exceptions) == Some(kept_exceptions(old(self).profiles@[i].exceptions@, Some(platform@)).push(ExceptionValues {
                            platform: platform@,
                            mode: old(self).platform_form.notification_mode@,
                            kind: old(self).platform_form.notification_type@,
                            on_call: old(self).platform_form.notify_on_call,
                        }))
                    }
                    &&& *final(self) == (ProfilesPanel { saving: true, ..*old(self) })
                },
            },
    {
        match find_profile(&self.profiles, id) {
            None => None,
            Some(i) => {
                let q = exception_saved_request(&self.profiles[i], platform, &self.platform_form);
                self.saving = true;
                Some(q)
            },
        }
    }

    /// "Use the contact's settings" was pressed in a platform's dialog:
    /// returns the request that drops the platform's own settings.
    pub fn remove_platform(&mut self, id: i32, platform: &str) -> (r: Option<CreateProfileRequest>)
        ensures
            match profile_index(old(self).profiles@, id) {
                None => r is None && *final(self) == *old(self),
                Some(i) => {
                    &&& r matches Some(q) && {
                        &&& q.nickname@ == old(self).profiles@[i].nickname@
                        &&& keeps_handles(q, old(self).profiles@[i])
                        &&& settings_view(NotifySettings {
                            notification_mode: q.notification_mode,
                            notification_type: q.notification_type,
                            notify_on_call: q.notify_on_call,
                        }) == settings_view(settings_of(old(self).profiles@[i]))
                        &&& sent_exceptions(q.exceptions) == sent_list(kept_exceptions(old(self).profiles@[i].exceptions@, Some(platform@)))
                    }
                    &&& *final(self) == (ProfilesPanel { saving: true, ..*old(self) })
                },
            },
    {
        match find_profile(&self.profiles, id) {
            None => None,
            Some(i) => {
                let q = exception_removed_request(&self.profiles[i], platform);
                self.saving = true;
                Some(q)
            },
        }
    }

    /// Save was pressed in the defaults dialog: returns the settings to send.
    pub fn save_defaults(&mut self) -> (r: NotifySettings)
        ensures
            r == old(self).defaults_form,
            *final(self) == (ProfilesPanel { saving: true, ..*old(self) }),
    {
        self.saving = true;
        copy_settings(&self.defaults_form)
    }

    /// Create was pressed in the add-contact dialog: returns the request, or
    /// records why the nickname was refused.
    pub fn save_new(&mut self) -> (r: Option<CreateProfileRequest>)
        ensures
            trim(old(self).add.nickname@).len() == 0 ==> r is None
                && *final(self) == (ProfilesPanel { error: final(self).error, ..*old(self) })
                && text_opt(final(self).error) == Some(blank_nickname_error()),
            trim(old(self).add.nickname@).len() != 0 && occurs(trim(old(self).add.nickname@), seq!['@']) ==> r is None
                && *final(self) == (ProfilesPanel { error: final(self).error, ..*old(self) })
                && text_opt(final(self).error) == Some(at_sign_error()),
            trim(old(self).add.nickname@).len() != 0 && !occurs(trim(old(self).add.nickname@), seq!['@']) ==> {
                &&& r matches Some(q) && {
                    &&& q.nickname@ == trim(old(self).add.nickname@)
                    &&& text_opt(q.whatsapp_chat) == typed_handle(old(self).add.whatsapp@)
                    &&& text_opt(q.telegram_chat) == typed_handle(old(self).add.telegram@)
                    &&& text_opt(q.signal_chat) == typed_handle(old(self).add.signal@)
                    &&& text_opt(q.email_addresses) == typed_handle(old(self).add.email@)
                    &&& settings_view(NotifySettings {
                        notification_mode: q.notification_mode,
                        notification_type: q.notification_type,
                        notify_on_call: q.notify_on_call,
                    }) == settings_view(old(self).add.settings)
                    &&& q.exceptions is None
                }
                &&& *final(self) == (ProfilesPanel { saving: true, ..*old(self) })
            },
    {
        let a = &self.add;
        match new_profile_request(
            a.nickname.as_str(),
            a.whatsapp.clone(),
            a.telegram.clone(),
            a.signal.clone(),
            a.email.clone(),
            &a.settings,
        ) {
            Ok(q) => {
                self.saving = true;
                Some(q)
            },
            Err(e) => {
                self.error = Some(e.to_owned());
                None
            },
        }
    }

    /// A save, delete or create request ended. Done closes the dialog (the
    /// contacts are then fetched again); a refusal records `refused_text`, a
    /// request that did not reach the server "Network error".
    pub fn on_reply(&mut self, reply: ProfileReply, refused_text: &str)
        ensures
            *final(self) == (ProfilesPanel {
                dialog: final(self).dialog,
                error: final(self).error,
                saving: false,
                ..*old(self)
            }),
            reply == ProfileReply::Done ==> final(self).dialog is None && final(self).error == old(self).error,
            reply != ProfileReply::Done ==> final(self).dialog == old(self).dialog,
            reply == ProfileReply::Refused || reply == ProfileReply::Unreachable ==>
                text_opt(final(self).error) == reply_error(reply, refused_text@),
            reply == ProfileReply::Unsent ==> final(self).error == old(self).error,
    {
        match reply {
            ProfileReply::Done => self.dialog = None,
            ProfileReply::Refused => self.error = Some(refused_text.to_owned()),
            ProfileReply::Unreachable => self.error = Some("Network error".to_owned()),
            ProfileReply::Unsent => {},
        }
        self.saving = false;
    }

    /// The defaults were saved, or not: once saved they are the new defaults
    /// and the dialog closes.
    pub fn on_defaults_reply(&mut self, reply: ProfileReply)
        ensures
            *final(self) == (ProfilesPanel {
                defaults: final(self).defaults,
                dialog: final(self).dialog,
                error: final(self).error,
                saving: false,
                ..*old(self)
            }),
            reply == ProfileReply::Done ==> final(self).defaults == old(self).defaults_form
                && final(self).dialog is None && final(self).error == old(self).error,
            reply != ProfileReply::Done ==> final(self).defaults == old(self).defaults
                && final(self).dialog == old(self).dialog,
            reply == ProfileReply::Refused || reply == ProfileReply::Unreachable ==>
                text_opt(final(self).error) == reply_error(reply, "Failed to save"@),
            reply == ProfileReply::Unsent ==> final(self).error == old(self).error,
    {
        match reply {
            ProfileReply::Done => {
                self.defaults = copy_settings(&self.defaults_form);
                self.dialog = None;
            },
            ProfileReply::Refused => self.error = Some("Failed to save".to_owned()),
            ProfileReply::Unreachable => self.error = Some("Network error".to_owned()),
            ProfileReply::Unsent => {},
        }
        self.saving = false;
    }

    /// A handle field of the add-contact form changed: returns whether to
    /// search the platform's chats. A query under two bytes, trimmed, clears
    /// the suggestions; a longer one shows them as searching.
    pub fn search_chats(&mut self, c: ChatPlatform, query: &str) -> (send: bool)
        ensures
            send == (vstd::utf8::encode_utf8(trim(query@)).len() >= 2),
            !send ==> *final(self) == with_search(*old(self), c, search_of(*final(self), c))
                && no_suggestions(search_of(*final(self), c)),
            send ==> *final(self) == with_search(*old(self), c, search_of(*final(self), c))
                && search_of(*final(self), c) == (ChatSuggestions {
                    searching: true,
                    shown: true,
                    error: None,
                    ..search_of(*old(self), c)
                }),
    {
        let send = search_wanted(query);
        match c {
            ChatPlatform::WhatsApp => start_or_stop(&mut self.whatsapp_search, send),
            ChatPlatform::Telegram => start_or_stop(&mut self.telegram_search, send),
            ChatPlatform::Signal => start_or_stop(&mut self.signal_search, send),
        }
        send
    }

    /// A chat search ended: found chats are listed; a refusal shows the
    /// server's text (or "Search failed"), a network failure "Network error";
    /// an answer that could not be read changes nothing.
    pub fn on_search_reply(&mut self, c: ChatPlatform, reply: SearchReply)
        ensures
            match reply {
                SearchReply::Found(names) => *final(self) == with_search(*old(self), c, ChatSuggestions {
                    names,
                    searching: false,
                    ..search_of(*old(self), c)
                }),
                SearchReply::Refused(e) => {
                    &&& *final(self) == with_search(*old(self), c, search_of(*final(self), c))
                    &&& search_of(*final(self), c) == (ChatSuggestions {
                        searching: false,
                        error: search_of(*final(self), c).error,
                        ..search_of(*old(self), c)
                    })
                    &&& text_opt(search_of(*final(self), c).error) == Some(match e {
                        Some(t) => t@,
                        None => "Search failed"@,
                    })
                },
                SearchReply::Unreachable => {
                    &&& *final(self) == with_search(*old(self), c, search_of(*final(self), c))
                    &&& search_of(*final(self), c) == (ChatSuggestions {
                        searching: false,
                        error: search_of(*final(self), c).error,
                        ..search_of(*old(self), c)
                    })
                    &&& text_opt(search_of(*final(self), c).error) == Some("Network error"@)
                },
                SearchReply::Unreadable => *final(self) == *old(self),
            },
    {
        match c {
            ChatPlatform::WhatsApp => record_search(&mut self.whatsapp_search, reply),
            ChatPlatform::Telegram => record_search(&mut self.telegram_search, reply),
            ChatPlatform::Signal => record_search(&mut self.signal_search, reply),
        }
    }

    /// A suggested chat was picked: its name fills the platform's handle
    /// field and the suggestions close.
    pub fn pick_chat(&mut self, c: ChatPlatform, name: String)
        ensures
            *final(self) == with_search(
                ProfilesPanel { add: with_handle(old(self).add, c, name), ..*old(self) },
                c,
                search_of(*final(self), c),
            ),
            search_of(*final(self), c) == (ChatSuggestions { shown: false, ..search_of(*old(self), c) }),
    {
        match c {
            ChatPlatform::WhatsApp => {
                self.add.whatsapp = name;
                self.whatsapp_search.shown = false;
            },
            ChatPlatform::Telegram => {
                self.add.telegram = name;
                self.telegram_search.shown = false;
            },
            ChatPlatform::Signal => {
                self.add.signal = name;
                self.signal_search.shown = false;
            },
        }
    }

    /// What a platform's suggestions box shows: nothing when closed, then
    /// "Searching...", the error, "No chats found", or the chats.
    pub fn suggestions(&self, c: ChatPlatform) -> (v: SuggestionsView)
        ensures
            !search_of(*self, c).shown ==> v == SuggestionsView::Hidden,
            search_of(*self, c).shown && search_of(*self, c).searching ==> v == SuggestionsView::Searching,
            search_of(*self, c).shown && !search_of(*self, c).searching && search_of(*self, c).error is Some ==>
                (v matches SuggestionsView::Error(t) && Some(t@) == text_opt(search_of(*self, c).error)),
            search_of(*self, c).shown && !search_of(*self, c).searching && search_of(*self, c).error is None
                && search_of(*self, c).names@.len() == 0 ==> v == SuggestionsView::NoChats,
            search_of(*self, c).shown && !search_of(*self, c).searching && search_of(*self, c).error is None
                && search_of(*self, c).names@.len() != 0 ==> (v matches SuggestionsView::Chats(n)
                    && n@ == search_of(*self, c).names@),
    {
        let s = match c {
            ChatPlatform::WhatsApp => &self.whatsapp_search,
            ChatPlatform::Telegram => &self.telegram_search,
            ChatPlatform::Signal => &self.signal_search,
        };
        if !s.shown {
            SuggestionsView::Hidden
        } else if s.searching {
            SuggestionsView::Searching
        } else {
            match &s.error {
                Some(t) => SuggestionsView::Error(t.clone()),
                None => if s.names.len() == 0 { SuggestionsView::NoChats } else { SuggestionsView::Chats(copy_names(&s.names)) },
            }
        }
    }
}

} // verus!
