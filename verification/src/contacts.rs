use vstd::prelude::*;
use vstd::utf8::encode_utf8;
use vstd::wrapping::u32_specs;
use crate::text::{
    capitalize, capitalized, chars_of, contains, extend_chars, is_text, lowercase, lowercased,
    occurs, piece_after, second_piece, split_words, starts, starts_with, string_of, trim, trimmed,
    uppercase_char, uppercased, words,
};

verus! {

// ---------------------------------------------------------------------------
// Avatars
// ---------------------------------------------------------------------------

/// The colors avatars are drawn in.
pub open spec fn avatar_color(k: int) -> Seq<char> {
    if k == 0 { "#6366f1"@ }
    else if k == 1 { "#8b5cf6"@ }
    else if k == 2 { "#ec4899"@ }
    else if k == 3 { "#f59e0b"@ }
    else if k == 4 { "#10b981"@ }
    else if k == 5 { "#3b82f6"@ }
    else if k == 6 { "#ef4444"@ }
    else { "#14b8a6"@ }
}

/// The 32-bit rolling hash of `bytes`: `h * 31 + b`, wrapping.
pub open spec fn name_hash(bytes: Seq<u8>) -> u32
    decreases bytes.len(),
{
    if bytes.len() == 0 {
        0
    } else {
        u32_specs::wrapping_add(
            u32_specs::wrapping_mul(name_hash(bytes.drop_last()), 31),
            bytes.last() as u32,
        )
    }
}

/// The avatar color for a name: chosen by the hash of the name's UTF-8 bytes.
pub open spec fn color_of(name: Seq<char>) -> Seq<char> {
    avatar_color((name_hash(encode_utf8(name)) % 8) as int)
}

fn avatar_color_exec(k: u32) -> (c: &'static str)
    requires
        k < 8,
    ensures
        c@ == avatar_color(k as int),
{
    if k == 0 { "#6366f1" }
    else if k == 1 { "#8b5cf6" }
    else if k == 2 { "#ec4899" }
    else if k == 3 { "#f59e0b" }
    else if k == 4 { "#10b981" }
    else if k == 5 { "#3b82f6" }
    else if k == 6 { "#ef4444" }
    else { "#14b8a6" }
}

/// The avatar color for a name.
pub fn color_for_name(name: &str) -> (c: &'static str)
    ensures
        c@ == color_of(name@),
{
    let bytes = name.as_bytes();
    let mut hash: u32 = 0;
    let mut i: usize = 0;
    while i < bytes.len()
        invariant
            i <= bytes.len(),
            bytes@ == encode_utf8(name@),
            hash == name_hash(bytes@.take(i as int)),
        decreases bytes.len() - i,
    {
        assert(bytes@.take(i + 1).drop_last() == bytes@.take(i as int));
        hash = hash.wrapping_mul(31).wrapping_add(bytes[i] as u32);
        i = i + 1;
    }
    assert(bytes@.take(bytes.len() as int) == bytes@);
    avatar_color_exec(hash % 8)
}

/// The initials for a name: the uppercased first letters of its first two
/// words, or "?" for a name without words.
pub open spec fn initials_of(name: Seq<char>) -> Seq<char> {
    let w = words(name);
    if w.len() == 0 {
        "?"@
    } else if w.len() == 1 {
        uppercased(w[0][0])
    } else {
        uppercased(w[0][0]) + uppercased(w[1][0])
    }
}

proof fn lemma_words_not_empty(s: Seq<char>)
    ensures
        forall|i: int| 0 <= i < words(s).len() ==> #[trigger] words(s)[i].len() > 0,
    decreases s.len(),
{
    if s.len() > 0 {
        lemma_words_not_empty(s.drop_last());
        let w = words(s.drop_last());
        let c = s.last();
        if !is_space_c(c) && !(s.len() == 1 || is_space_c(s[s.len() - 2])) {
            assert(w.len() > 0) by {
                assert(s.drop_last().last() == s[s.len() - 2]);
                crate::text::lemma_words_nonempty(s.drop_last());
            }
            let u = w.update(w.len() - 1, w.last().push(c));
            assert forall|i: int| 0 <= i < u.len() implies #[trigger] u[i].len() > 0 by {
                if i != w.len() - 1 {
                    assert(u[i] == w[i]);
                }
            }
        } else if !is_space_c(c) {
            let u = w.push(seq![c]);
            assert forall|i: int| 0 <= i < u.len() implies #[trigger] u[i].len() > 0 by {
                if i != w.len() {
                    assert(u[i] == w[i]);
                }
            }
        }
    }
}

spec fn is_space_c(c: char) -> bool {
    crate::text::is_space(c)
}

/// The avatar initials for a name.
pub fn initials_for_name(name: &str) -> (s: String)
    ensures
        s@ == initials_of(name@),
{
    let n = chars_of(name);
    let w = split_words(n.as_slice());
    proof {
        lemma_words_not_empty(n@);
        if w.len() > 0 {
            assert(w@[0]@ == words(n@)[0]);
        }
        if w.len() > 1 {
            assert(w@[1]@ == words(n@)[1]);
        }
    }
    if w.len() == 0 {
        "?".to_owned()
    } else if w.len() == 1 {
        uppercase_char(w[0][0])
    } else {
        let a = uppercase_char(w[0][0]);
        let b = uppercase_char(w[1][0]);
        let mut v = chars_of(a.as_str());
        let bc = chars_of(b.as_str());
        extend_chars(&mut v, bc.as_slice());
        string_of(v.as_slice())
    }
}

/// A messaging platform a contact can be reached on.
#[derive(Clone, Copy, Debug, PartialEq)]
pub struct PlatformInfo {
    pub key: &'static str,
    pub icon: &'static str,
    pub color: &'static str,
    pub label: &'static str,
}

/// The texts of a `PlatformInfo`.
pub open spec fn info_view(p: PlatformInfo) -> (Seq<char>, Seq<char>, Seq<char>, Seq<char>) {
    (p.key@, p.icon@, p.color@, p.label@)
}

/// The platforms in display order: WhatsApp, Telegram, Signal, Email.
pub open spec fn platform_at(k: int) -> (Seq<char>, Seq<char>, Seq<char>, Seq<char>) {
    if k == 0 {
        ("whatsapp"@, "fa-brands fa-whatsapp"@, "#25D366"@, "WhatsApp"@)
    } else if k == 1 {
        ("telegram"@, "fa-brands fa-telegram"@, "#0088CC"@, "Telegram"@)
    } else if k == 2 {
        ("signal"@, "fa-solid fa-comment-dots"@, "#3A76F1"@, "Signal"@)
    } else {
        ("email"@, "fa-solid fa-envelope"@, "#7EB2FF"@, "Email"@)
    }
}

/// The platform at position `k` of the display order.
pub fn platform_info(k: usize) -> (p: PlatformInfo)
    requires
        k < 4,
    ensures
        info_view(p) == platform_at(k as int),
{
    if k == 0 {
        PlatformInfo { key: "whatsapp", icon: "fa-brands fa-whatsapp", color: "#25D366", label: "WhatsApp" }
    } else if k == 1 {
        PlatformInfo { key: "telegram", icon: "fa-brands fa-telegram", color: "#0088CC", label: "Telegram" }
    } else if k == 2 {
        PlatformInfo { key: "signal", icon: "fa-solid fa-comment-dots", color: "#3A76F1", label: "Signal" }
    } else {
        PlatformInfo { key: "email", icon: "fa-solid fa-envelope", color: "#7EB2FF", label: "Email" }
    }
}

/// A per-platform notification setting of a contact.
#[derive(Clone, Debug, PartialEq)]
pub struct ProfileException {
    pub platform: String,
    pub notification_mode: String,
    pub notification_type: String,
    pub notify_on_call: bool,
}

/// A watched contact and how each platform reaches them.
#[derive(Clone, Debug, PartialEq)]
pub struct ContactProfile {
    pub id: i32,
    pub nickname: String,
    pub notification_mode: String,
    pub notification_type: String,
    pub notify_on_call: bool,
    pub whatsapp_chat: Option<String>,
    pub telegram_chat: Option<String>,
    pub signal_chat: Option<String>,
    pub email_addresses: Option<String>,
    pub exceptions: Vec<ProfileException>,
}

/// A set, non-empty contact handle.
pub open spec fn filled(o: Option<String>) -> bool {
    match o {
        Some(s) => s@.len() != 0,
        None => false,
    }
}

/// The display positions of the platforms a contact is reachable on.
pub open spec fn connected_of(p: ContactProfile) -> Seq<int> {
    let a = if filled(p.whatsapp_chat) { seq![0int] } else { Seq::empty() };
    let b = if filled(p.telegram_chat) { seq![1int] } else { Seq::empty() };
    let c = if filled(p.signal_chat) { seq![2int] } else { Seq::empty() };
    let d = if filled(p.email_addresses) { seq![3int] } else { Seq::empty() };
    a + b + c + d
}

fn filled_exec(o: &Option<String>) -> (b: bool)
    ensures
        b == filled(*o),
{
    match o {
        Some(s) => chars_of(s.as_str()).len() != 0,
        None => false,
    }
}

/// The platforms a contact is reachable on, in display order.
pub fn connected_platforms(profile: &ContactProfile) -> (r: Vec<PlatformInfo>)
    ensures
        r.len() == connected_of(*profile).len(),
        forall|i: int| 0 <= i < r.len() ==> info_view(#[trigger] r@[i]) == platform_at(connected_of(*profile)[i]),
{
    let mut out: Vec<PlatformInfo> = Vec::new();
    let ghost ks: Seq<int> = Seq::empty();
    if filled_exec(&profile.whatsapp_chat) {
        out.push(platform_info(0));
        proof { ks = ks.push(0); }
    }
    if filled_exec(&profile.telegram_chat) {
        out.push(platform_info(1));
        proof { ks = ks.push(1); }
    }
    if filled_exec(&profile.signal_chat) {
        out.push(platform_info(2));
        proof { ks = ks.push(2); }
    }
    if filled_exec(&profile.email_addresses) {
        out.push(platform_info(3));
        proof { ks = ks.push(3); }
    }
    assert(ks =~= connected_of(*profile));
    out
}

/// Where the `idx`-th of `count` platform bubbles sits around an avatar.
pub open spec fn bubble_of(count: int, idx: int) -> Seq<char> {
    if idx == 1 && (count == 2 || count == 3 || count == 4) {
        "bubble-pos-bl"@
    } else if idx == 2 && (count == 3 || count == 4) {
        "bubble-pos-tr"@
    } else if idx == 3 && count == 4 {
        "bubble-pos-tl"@
    } else {
        "bubble-pos-br"@
    }
}

/// The position class of the `idx`-th of `count` platform bubbles.
pub fn bubble_position_class(count: usize, idx: usize) -> (c: &'static str)
    ensures
        c@ == bubble_of(count as int, idx as int),
{
    if idx == 1 && (count == 2 || count == 3 || count == 4) {
        "bubble-pos-bl"
    } else if idx == 2 && (count == 3 || count == 4) {
        "bubble-pos-tr"
    } else if idx == 3 && count == 4 {
        "bubble-pos-tl"
    } else {
        "bubble-pos-br"
    }
}

/// The position of the first exception for `platform`.
pub open spec fn exception_index(ex: Seq<ProfileException>, platform: Seq<char>) -> Option<int>
    decreases ex.len(),
{
    if ex.len() == 0 {
        None
    } else {
        match exception_index(ex.drop_last(), platform) {
            Some(i) => Some(i),
            None => if ex.last().platform@ == platform { Some(ex.len() - 1) } else { None },
        }
    }
}

/// The first of a contact's exceptions that is for `platform`.
pub fn find_exception<'a>(profile: &'a ContactProfile, platform: &str) -> (r: Option<&'a ProfileException>)
    ensures
        match exception_index(profile.exceptions@, platform@) {
            Some(i) => r == Some(&profile.exceptions@[i]),
            None => r is None,
        },
{
    let ex = &profile.exceptions;
    let mut i: usize = 0;
    while i < ex.len()
        invariant
            i <= ex.len(),
            ex@ == profile.exceptions@,
            exception_index(ex@.take(i as int), platform@) is None,
        decreases ex.len() - i,
    {
        let ghost t = ex@.take(i + 1);
        assert(t.drop_last() == ex@.take(i as int));
        if is_text(ex[i].platform.as_str(), platform) {
            proof {
                lemma_exception_prefix(ex@, platform@, i as int);
            }
            return Some(&ex[i]);
        }
        i = i + 1;
    }
    assert(ex@.take(ex.len() as int) == ex@);
    None
}

proof fn lemma_exception_prefix(ex: Seq<ProfileException>, platform: Seq<char>, i: int)
    requires
        0 <= i < ex.len(),
        exception_index(ex.take(i), platform) is None,
        ex[i].platform@ == platform,
    ensures
        exception_index(ex, platform) == Some(i),
    decreases ex.len(),
{
    if i == ex.len() - 1 {
        assert(ex.drop_last() == ex.take(i));
    } else {
        assert(ex.drop_last().take(i) == ex.take(i));
        lemma_exception_prefix(ex.drop_last(), platform, i);
    }
}

/// Whether notifications from a contact on a platform are ignored: the
/// platform's exception decides when there is one, the contact's mode otherwise.
pub open spec fn ignored_on(p: ContactProfile, platform: Seq<char>) -> bool {
    match exception_index(p.exceptions@, platform) {
        Some(i) => p.exceptions@[i].notification_mode@ == "ignore"@,
        None => p.notification_mode@ == "ignore"@,
    }
}

/// `exception_index` is the position of the first exception for the
/// platform, and is absent when none is for it.
proof fn lemma_exception_index(ex: Seq<ProfileException>, platform: Seq<char>)
    ensures
        match exception_index(ex, platform) {
            Some(i) => 0 <= i < ex.len() && ex[i].platform@ == platform
                && forall|j: int| 0 <= j < i ==> ex[j].platform@ != platform,
            None => forall|j: int| 0 <= j < ex.len() ==> ex[j].platform@ != platform,
        },
    decreases ex.len(),
{
    if ex.len() > 0 {
        lemma_exception_index(ex.drop_last(), platform);
        assert forall|j: int| 0 <= j < ex.len() - 1 implies ex.drop_last()[j] == ex[j] by {}
    }
}

/// On a platform for which the contact has an exception, the first such
/// exception alone decides whether the contact is ignored there, whatever
/// the contact's own mode; on any other platform the contact's own mode
/// decides.
pub proof fn law_platform_exception_overrides_contact_mode(p: ContactProfile, platform: Seq<char>)
    ensures
        forall|i: int|
            0 <= i < p.exceptions@.len() && #[trigger] p.exceptions@[i].platform@ == platform
                && (forall|j: int| 0 <= j < i ==> p.exceptions@[j].platform@ != platform)
                ==> (ignored_on(p, platform) <==> p.exceptions@[i].notification_mode@ == "ignore"@),
        (forall|j: int| 0 <= j < p.exceptions@.len() ==> p.exceptions@[j].platform@ != platform)
            ==> (ignored_on(p, platform) <==> p.notification_mode@ == "ignore"@),
{
    lemma_exception_index(p.exceptions@, platform);
    assert forall|i: int|
        0 <= i < p.exceptions@.len() && #[trigger] p.exceptions@[i].platform@ == platform
            && (forall|j: int| 0 <= j < i ==> p.exceptions@[j].platform@ != platform)
        implies (ignored_on(p, platform) <==> p.exceptions@[i].notification_mode@ == "ignore"@) by {
        match exception_index(p.exceptions@, platform) {
            Some(k) => {
                if k < i {
                    assert(p.exceptions@[k].platform@ != platform);
                } else if k > i {
                    assert(p.exceptions@[i].platform@ != platform);
                }
            },
            None => {
                assert(p.exceptions@[i].platform@ != platform);
            },
        }
    }
    if forall|j: int| 0 <= j < p.exceptions@.len() ==> p.exceptions@[j].platform@ != platform {
        match exception_index(p.exceptions@, platform) {
            Some(k) => {
                assert(p.exceptions@[k].platform@ != platform);
            },
            None => {},
        }
    }
}

/// Whether a contact is ignored on a platform.
pub fn is_platform_ignored(profile: &ContactProfile, platform_key: &str) -> (b: bool)
    ensures
        b == ignored_on(*profile, platform_key@),
{
    match find_exception(profile, platform_key) {
        Some(exc) => is_text(exc.notification_mode.as_str(), "ignore"),
        None => is_text(profile.notification_mode.as_str(), "ignore"),
    }
}

// ---------------------------------------------------------------------------
// Always-show contacts
// ---------------------------------------------------------------------------

/// A contact or chat offered when adding an always-show entry.
#[derive(Clone, Debug, PartialEq)]
pub struct Contact {
    pub id: String,
    pub display_name: String,
    pub subtitle: Option<String>,
    pub platform: Option<String>,
    pub is_group: bool,
    pub source: String,
}

/// How well a contact's lowercased name matches a lowercased query:
/// 3 exact, 2 prefix, 1 substring, none otherwise.
pub open spec fn score_of(query_lower: Seq<char>, name: Seq<char>) -> Option<i32> {
    let n = lowercased(name);
    if n == query_lower {
        Some(3)
    } else if starts(n, query_lower) {
        Some(2)
    } else if occurs(n, query_lower) {
        Some(1)
    } else {
        None
    }
}

/// Score a contact against a lowercased query.
pub fn score_contact(query_lower: &str, contact: &Contact) -> (r: Option<i32>)
    ensures
        r == score_of(query_lower@, contact.display_name@),
{
    let name_s = lowercase(contact.display_name.as_str());
    let name = chars_of(name_s.as_str());
    let q = chars_of(query_lower);
    if crate::text::same(name.as_slice(), q.as_slice()) {
        Some(3)
    } else if starts_with(name.as_slice(), q.as_slice()) {
        Some(2)
    } else if contains(name.as_slice(), q.as_slice()) {
        Some(1)
    } else {
        None
    }
}

/// Whether mentions can be watched in groups on `platform`.
pub fn platform_supports_mentions(platform: &str) -> (b: bool)
    ensures
        b == (platform@ == "whatsapp"@),
{
    is_text(platform, "whatsapp")
}

/// The label of a platform key: the known names, else the key capitalized.
pub open spec fn label_of(platform: Seq<char>) -> Seq<char> {
    if platform == "whatsapp"@ {
        "WhatsApp"@
    } else if platform == "signal"@ {
        "Signal"@
    } else if platform == "telegram"@ {
        "Telegram"@
    } else if platform == "email"@ {
        "Email"@
    } else {
        capitalized(platform)
    }
}

/// The label shown for a platform key.
pub fn platform_label(platform: &str) -> (s: String)
    ensures
        s@ == label_of(platform@),
{
    if is_text(platform, "whatsapp") {
        "WhatsApp".to_owned()
    } else if is_text(platform, "signal") {
        "Signal".to_owned()
    } else if is_text(platform, "telegram") {
        "Telegram".to_owned()
    } else if is_text(platform, "email") {
        "Email".to_owned()
    } else {
        let p = chars_of(platform);
        let c = capitalize(p.as_slice());
        string_of(c.as_slice())
    }
}

/// An email address can be added when, trimmed, it holds an '@' and the text
/// after the first '@' holds a '.'.
pub open spec fn email_addable(query: Seq<char>) -> bool {
    let v = trim(query);
    occurs(v, seq!['@']) && match second_piece(v, seq!['@']) {
        Some(domain) => occurs(domain, seq!['.']),
        None => false,
    }
}

/// Whether a typed email address looks complete enough to add.
pub fn email_looks_addable(query: &str) -> (b: bool)
    ensures
        b == email_addable(query@),
{
    let q = chars_of(query);
    let v = trimmed(q.as_slice());
    let at = vec!['@'];
    assert(at@ =~= seq!['@']);
    let dot = vec!['.'];
    assert(dot@ =~= seq!['.']);
    if !contains(v.as_slice(), at.as_slice()) {
        return false;
    }
    match piece_after(v.as_slice(), at.as_slice()) {
        Some(domain) => contains(domain.as_slice(), dot.as_slice()),
        None => false,
    }
}

// ---------------------------------------------------------------------------
// People
// ---------------------------------------------------------------------------

/// A person's core record.
#[derive(Clone, Debug, PartialEq)]
pub struct PersonData {
    pub id: i32,
    pub name: String,
}

/// A way to reach a person.
#[derive(Clone, Debug, PartialEq)]
pub struct ChannelData {
    pub id: i32,
    pub platform: String,
    pub handle: Option<String>,
}

/// A user edit to one of a person's properties.
#[derive(Clone, Debug, PartialEq)]
pub struct PersonEditData {
    pub property_name: String,
    pub value: String,
}

/// A person with their channels and edits.
#[derive(Clone, Debug, PartialEq)]
pub struct PersonResponse {
    pub person: PersonData,
    pub channels: Vec<ChannelData>,
    pub edits: Vec<PersonEditData>,
}

/// The position of the first "nickname" edit.
pub open spec fn nickname_index(edits: Seq<PersonEditData>) -> Option<int>
    decreases edits.len(),
{
    if edits.len() == 0 {
        None
    } else {
        match nickname_index(edits.drop_last()) {
            Some(i) => Some(i),
            None => if edits.last().property_name@ == "nickname"@ { Some(edits.len() - 1) } else { None },
        }
    }
}

/// The name shown for a person: the first nickname edit, else the person's name.
pub open spec fn display_name_of(p: PersonResponse) -> Seq<char> {
    match nickname_index(p.edits@) {
        Some(i) => p.edits@[i].value@,
        None => p.person.name@,
    }
}

proof fn lemma_nickname_prefix(edits: Seq<PersonEditData>, i: int)
    requires
        0 <= i < edits.len(),
        nickname_index(edits.take(i)) is None,
        edits[i].property_name@ == "nickname"@,
    ensures
        nickname_index(edits) == Some(i),
    decreases edits.len(),
{
    if i == edits.len() - 1 {
        assert(edits.drop_last() == edits.take(i));
    } else {
        assert(edits.drop_last().take(i) == edits.take(i));
        lemma_nickname_prefix(edits.drop_last(), i);
    }
}

impl PersonResponse {
    /// The name shown for this person.
    pub fn display_name(&self) -> (s: &str)
        ensures
            s@ == display_name_of(*self),
    {
        let edits = &self.edits;
        let mut i: usize = 0;
        while i < edits.len()
            invariant
                i <= edits.len(),
                edits@ == self.edits@,
                nickname_index(edits@.take(i as int)) is None,
            decreases edits.len() - i,
        {
            let ghost t = edits@.take(i + 1);
            assert(t.drop_last() == edits@.take(i as int));
            if is_text(edits[i].property_name.as_str(), "nickname") {
                proof {
                    lemma_nickname_prefix(edits@, i as int);
                }
                return edits[i].value.as_str();
            }
            i = i + 1;
        }
        assert(edits@.take(edits.len() as int) == edits@);
        self.person.name.as_str()
    }
}

} // verus!
