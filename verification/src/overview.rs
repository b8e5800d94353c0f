use vstd::prelude::*;
use crate::always_show::chars_list;
use crate::dismissed::{dismissed_of, law_dismiss_adds_id, stored_of, with_id};
use crate::media::text_opt;
use crate::text::{
    chars_of, dec, dec_chars, digits, extend_chars, extend_str, int_text, is_text, join, lowercase,
    lowercased, parse_i64, string_of, trim, trimmed,
};

verus! {

// ---------------------------------------------------------------------------
// Digest times
// ---------------------------------------------------------------------------

/// `s` split at every `c`, as `str::split` does: one piece more than there
/// are separators.
pub open spec fn split_on(s: Seq<char>, c: char) -> Seq<Seq<char>>
    decreases s.len(),
{
    if s.len() == 0 {
        seq![Seq::empty()]
    } else {
        let init = split_on(s.drop_last(), c);
        if s.last() == c {
            init.push(Seq::empty())
        } else {
            init.update(init.len() - 1, init.last().push(s.last()))
        }
    }
}

proof fn lemma_split_nonempty(s: Seq<char>, c: char)
    ensures
        split_on(s, c).len() >= 1,
    decreases s.len(),
{
    if s.len() > 0 {
        lemma_split_nonempty(s.drop_last(), c);
    }
}

/// The pieces of `cs` between the separators `c`.
pub fn split_chars(cs: &[char], c: char) -> (out: Vec<Vec<char>>)
    ensures
        chars_list(out@) == split_on(cs@, c),
{
    let mut done: Vec<Vec<char>> = Vec::new();
    let mut cur: Vec<char> = Vec::new();
    let mut i: usize = 0;
    assert(cs@.take(0) =~= Seq::<char>::empty());
    while i < cs.len()
        invariant
            i <= cs.len(),
            chars_list(done@).push(cur@) == split_on(cs@.take(i as int), c),
        decreases cs.len() - i,
    {
        let ghost before = chars_list(done@).push(cur@);
        let ghost t = cs@.take(i + 1);
        assert(t.drop_last() =~= cs@.take(i as int));
        assert(t.last() == cs@[i as int]);
        if cs[i] == c {
            let mut fresh: Vec<char> = Vec::new();
            std::mem::swap(&mut fresh, &mut cur);
            done.push(fresh);
            assert(chars_list(done@).push(cur@) =~= before.push(Seq::empty()));
        } else {
            cur.push(cs[i]);
            assert(chars_list(done@).push(cur@) =~= before.update(
                before.len() - 1,
                before.last().push(cs@[i as int]),
            ));
        }
        i = i + 1;
    }
    assert(cs@.take(cs.len() as int) =~= cs@);
    done.push(cur);
    done
}

/// The texts of `list`, trimmed, without the blank ones.
pub open spec fn trimmed_nonblank(list: Seq<Seq<char>>) -> Seq<Seq<char>>
    decreases list.len(),
{
    if list.len() == 0 {
        Seq::empty()
    } else {
        let rest = trimmed_nonblank(list.drop_last());
        if trim(list.last()).len() == 0 { rest } else { rest.push(trim(list.last())) }
    }
}

/// `s` is a whole number below `limit` as `u32` reads it: an optional '+'
/// and decimal digits.
pub open spec fn small_number(s: Seq<char>, limit: int) -> bool {
    s.len() > 0 && s[0] != '-' && (int_text(s) matches Some(v) && v < limit)
}

/// `t` is a time of day written `H:M`, hours below 24 and minutes below 60.
pub open spec fn time_of_day(t: Seq<char>) -> bool {
    let parts = split_on(t, ':');
    parts.len() == 2 && small_number(parts[0], 24) && small_number(parts[1], 60)
}

/// The digest times typed as a comma-separated list: the trimmed, non-blank
/// entries joined by commas, when there is at least one and each is a time of
/// day; `None` otherwise.
pub open spec fn digest_times_of(raw: Seq<char>) -> Option<Seq<char>> {
    let times = trimmed_nonblank(split_on(raw, ','));
    if times.len() > 0 && forall|i: int| 0 <= i < times.len() ==> time_of_day(#[trigger] times[i]) {
        Some(join(times, seq![',']))
    } else {
        None
    }
}

proof fn lemma_int_text_sign(s: Seq<char>)
    requires
        s.len() > 0,
        s[0] != '-',
    ensures
        int_text(s) matches Some(v) ==> v >= 0,
{
    if s[0] == '+' {
        if s.drop_first().len() > 0 && digits(s.drop_first()) {
            crate::text::lemma_digits_value_nonneg(s.drop_first());
        }
    } else if digits(s) {
        crate::text::lemma_digits_value_nonneg(s);
    }
}

/// Whether `s` reads as a whole number below `limit`.
fn small_number_exec(s: &[char], limit: i64) -> (b: bool)
    requires
        0 <= limit,
    ensures
        b == small_number(s@, limit as int),
{
    if s.len() == 0 || s[0] == '-' {
        return false;
    }
    proof {
        lemma_int_text_sign(s@);
    }
    let st = string_of(s);
    match parse_i64(st.as_str()) {
        Some(v) => v < limit,
        None => false,
    }
}

/// Whether `t` is a time of day written `H:M`.
fn time_of_day_exec(t: &[char]) -> (b: bool)
    ensures
        b == time_of_day(t@),
{
    let parts = split_chars(t, ':');
    proof {
        if parts.len() > 0 {
            assert(chars_list(parts@)[0] == parts@[0]@);
        }
        if parts.len() > 1 {
            assert(chars_list(parts@)[1] == parts@[1]@);
        }
    }
    parts.len() == 2 && small_number_exec(parts[0].as_slice(), 24) && small_number_exec(parts[1].as_slice(), 60)
}

/// The digest times to save from what was typed, or nothing when it is not a
/// comma-separated list of times of day.
pub fn digest_times(raw: &str) -> (r: Option<String>)
    ensures
        text_opt(r) == digest_times_of(raw@),
{
    let cs = chars_of(raw);
    let pieces = split_chars(cs.as_slice(), ',');
    let ghost pv = chars_list(pieces@);
    let mut times: Vec<Vec<char>> = Vec::new();
    let mut all_valid = true;
    let mut i: usize = 0;
    assert(pv.take(0) =~= Seq::<Seq<char>>::empty());
    while i < pieces.len()
        invariant
            i <= pieces.len(),
            pv == chars_list(pieces@),
            chars_list(times@) == trimmed_nonblank(pv.take(i as int)),
            all_valid == forall|k: int| 0 <= k < times.len() ==> #[trigger] time_of_day(chars_list(times@)[k]),
        decreases pieces.len() - i,
    {
        let t = trimmed(pieces[i].as_slice());
        let ghost before = chars_list(times@);
        let ghost tk = pv.take(i + 1);
        assert(tk.drop_last() =~= pv.take(i as int));
        assert(tk.last() == pieces@[i as int]@);
        if t.len() != 0 {
            let ok = time_of_day_exec(t.as_slice());
            let ghost was_valid = all_valid;
            times.push(t);
            all_valid = all_valid && ok;
            proof {
                let after = chars_list(times@);
                assert(after =~= before.push(trim(pieces@[i as int]@)));
                assert(after[after.len() - 1] == trim(pieces@[i as int]@));
                if all_valid {
                    assert forall|k: int| 0 <= k < after.len() implies #[trigger] time_of_day(after[k]) by {
                        if k < before.len() {
                            assert(after[k] == before[k]);
                            assert(time_of_day(before[k]));
                        }
                    }
                } else if !ok {
                    assert(!time_of_day(after[after.len() - 1]));
                } else {
                    assert(!was_valid);
                    let k = choose|k: int| 0 <= k < before.len() && !#[trigger] time_of_day(before[k]);
                    assert(after[k] == before[k]);
                    assert(!time_of_day(after[k]));
                }
            }
        }
        i = i + 1;
    }
    assert(pv.take(pieces.len() as int) =~= pv);
    if times.len() == 0 || !all_valid {
        return None;
    }
    let mut out: Vec<char> = Vec::new();
    let mut j: usize = 0;
    let ghost tv = chars_list(times@);
    while j < times.len()
        invariant
            j <= times.len(),
            tv == chars_list(times@),
            out@ == join(tv.take(j as int), seq![',']),
        decreases times.len() - j,
    {
        if j != 0 {
            out.push(',');
        }
        extend_chars(&mut out, times[j].as_slice());
        j = j + 1;
        assert(tv.take(j as int).drop_last() =~= tv.take(j - 1));
        assert(tv.take(j as int).last() == times@[j - 1]@);
        if j == 1 {
            assert(tv.take(1) =~= seq![times@[0]@]);
            assert(out@ =~= times@[0]@);
        } else {
            assert(out@ =~= join(tv.take(j - 1), seq![',']) + seq![','] + times@[j - 1]@);
        }
    }
    assert(tv.take(times.len() as int) =~= tv);
    Some(string_of(out.as_slice()))
}

// ---------------------------------------------------------------------------
// The overview dashboard
// ---------------------------------------------------------------------------

/// A message waiting for the next digest.
#[derive(Clone, Debug, PartialEq)]
pub struct ActionItemResponse {
    pub message_id: i64,
    pub person_name: String,
    pub platform: String,
    pub preview: String,
    pub timestamp: i32,
    pub person_id: Option<i32>,
}

/// The items whose message was not dismissed, in their order.
pub open spec fn undismissed(items: Seq<ActionItemResponse>, dismissed: Seq<i64>) -> Seq<ActionItemResponse>
    decreases items.len(),
{
    if items.len() == 0 {
        Seq::empty()
    } else if dismissed.contains(items[0].message_id) {
        undismissed(items.drop_first(), dismissed)
    } else {
        seq![items[0]] + undismissed(items.drop_first(), dismissed)
    }
}

/// The action items still shown: those whose message was not dismissed.
pub fn visible_action_items(items: Vec<ActionItemResponse>, dismissed: &Vec<i64>) -> (out: Vec<ActionItemResponse>)
    ensures
        out@ == undismissed(items@, dismissed@),
{
    let ghost orig = items@;
    let mut v = items;
    let mut out: Vec<ActionItemResponse> = Vec::new();
    assert(orig.skip(orig.len() as int) =~= Seq::<ActionItemResponse>::empty());
    while v.len() > 0
        invariant
            v@ == orig.take(v.len() as int),
            v.len() <= orig.len(),
            out@ == undismissed(orig.skip(v.len() as int), dismissed@),
        decreases v.len(),
    {
        let ghost i = (v.len() - 1) as int;
        let x = v.pop().unwrap();
        assert(orig.skip(i).drop_first() =~= orig.skip(i + 1));
        assert(orig.skip(i)[0] == x);
        assert(v@ =~= orig.take(i));
        let mut seen = false;
        let mut k: usize = 0;
        while k < dismissed.len()
            invariant
                k <= dismissed.len(),
                seen == exists|j: int| 0 <= j < k && dismissed@[j] == x.message_id,
            decreases dismissed.len() - k,
        {
            if dismissed[k] == x.message_id {
                seen = true;
            }
            k = k + 1;
        }
        proof {
            if seen {
                let j = choose|j: int| 0 <= j < k && dismissed@[j] == x.message_id;
                assert(dismissed@.contains(x.message_id));
            }
        }
        if !seen {
            let ghost prev = out@;
            out.insert(0, x);
            assert(out@ =~= seq![x] + prev);
        }
    }
    assert(orig.skip(0) =~= orig);
    out
}

/// The line over the action items: "`n` message(s) in your next digest".
pub fn digest_count_line(count: usize) -> (s: String)
    ensures
        s@ == dec(count as nat) + if count == 1 { " message in your next digest"@ } else { " messages in your next digest"@ },
{
    let mut v = dec_chars(count as u64);
    extend_str(&mut v, if count == 1 { " message in your next digest" } else { " messages in your next digest" });
    string_of(v.as_slice())
}

/// The chat text that starts a reply to an action item.
pub fn reply_prefill(person: &str, platform: &str) -> (s: String)
    ensures
        s@ == "Reply to "@ + person@ + " on "@ + platform@ + ": "@,
{
    let mut v = chars_of("Reply to ");
    extend_str(&mut v, person);
    extend_str(&mut v, " on ");
    extend_str(&mut v, platform);
    extend_str(&mut v, ": ");
    string_of(v.as_slice())
}

/// Plans that monitor messages on their own.
pub fn has_auto(plan_type: &Option<String>) -> (b: bool)
    ensures
        b == (text_opt(*plan_type) == Some("autopilot"@) || text_opt(*plan_type) == Some("byot"@)),
{
    match plan_type {
        Some(p) => is_text(p.as_str(), "autopilot") || is_text(p.as_str(), "byot"),
        None => false,
    }
}

/// The dashboard guides setup while nothing at all is connected.
pub fn is_setup_mode(has_any_bridge: bool, has_email: bool, has_any_connection: bool) -> (b: bool)
    ensures
        b == (!has_any_bridge && !has_email && !has_any_connection),
{
    !has_any_bridge && !has_email && !has_any_connection
}

/// What the bring-your-own-number note says.
#[derive(Clone, Copy, Debug, PartialEq, Eq, Structural)]
pub enum OwnNumberNote {
    /// The Twilio number still has to be set up.
    SetupNeeded,
    /// The user's own Twilio number is in use.
    Active,
}

/// The note for users bringing their own Twilio number: none on other
/// plans; set up until both the account id and the token are saved.
pub fn own_number_note(plan_type: &Option<String>, has_sid: bool, has_token: bool) -> (n: Option<OwnNumberNote>)
    ensures
        text_opt(*plan_type) != Some("byot"@) ==> n is None,
        text_opt(*plan_type) == Some("byot"@) ==> n == Some(
            if has_sid && has_token { OwnNumberNote::Active } else { OwnNumberNote::SetupNeeded },
        ),
{
    let byot = match plan_type {
        Some(p) => is_text(p.as_str(), "byot"),
        None => false,
    };
    if !byot {
        None
    } else if has_sid && has_token {
        Some(OwnNumberNote::Active)
    } else {
        Some(OwnNumberNote::SetupNeeded)
    }
}

/// The hint under the chat about what is still unconnected.
pub fn connection_hint(has_any_bridge: bool, has_email: bool) -> (s: Option<&'static str>)
    ensures
        !has_any_bridge ==> (s matches Some(t) && t@ == "Connect a messaging app. "@),
        has_any_bridge && !has_email ==> (s matches Some(t) && t@ == "Connect your email. "@),
        has_any_bridge && has_email ==> s is None,
{
    if !has_any_bridge {
        Some("Connect a messaging app. ")
    } else if !has_email {
        Some("Connect your email. ")
    } else {
        None
    }
}

/// What the digest card says about delivery.
pub fn digest_description(enabled: bool, custom_times: &str) -> (s: &'static str)
    ensures
        s@ == if !enabled {
            "Medium-priority messages collected and delivered periodically."@
        } else if custom_times@.len() == 0 {
            "Auto-scheduled based on your activity patterns."@
        } else {
            "Delivering at your custom times."@
        },
{
    if enabled {
        if custom_times.is_empty() {
            "Auto-scheduled based on your activity patterns."
        } else {
            "Delivering at your custom times."
        }
    } else {
        "Medium-priority messages collected and delivered periodically."
    }
}

/// A settings tab a link can open.
#[derive(Clone, Copy, Debug, PartialEq, Eq, Structural)]
pub enum SettingsTab {
    Capabilities,
    Account,
    Billing,
}

/// The tab named by a `settings` link parameter, in any case.
pub open spec fn settings_tab_of(param: Seq<char>) -> Option<SettingsTab> {
    let p = lowercased(param);
    if p == "capabilities"@ || p == "connections"@ {
        Some(SettingsTab::Capabilities)
    } else if p == "account"@ {
        Some(SettingsTab::Account)
    } else if p == "billing"@ {
        Some(SettingsTab::Billing)
    } else {
        None
    }
}

/// The tab named by a `settings` link parameter.
pub fn settings_tab_for(param: &str) -> (t: Option<SettingsTab>)
    ensures
        t == settings_tab_of(param@),
{
    let p = lowercase(param);
    let s = p.as_str();
    if is_text(s, "capabilities") || is_text(s, "connections") {
        Some(SettingsTab::Capabilities)
    } else if is_text(s, "account") {
        Some(SettingsTab::Account)
    } else if is_text(s, "billing") {
        Some(SettingsTab::Billing)
    } else {
        None
    }
}

/// What an opened event card shows below it.
#[derive(Clone, Copy, Debug, PartialEq, Eq, Structural)]
pub enum EventDetailView {
    Loading,
    NoMessages,
    Messages,
    NotLoaded,
}

/// What an opened event card shows: loading, its linked messages, or why
/// there are none.
pub fn event_detail_view(loading: bool, linked_messages: Option<usize>) -> (v: EventDetailView)
    ensures
        loading ==> v == EventDetailView::Loading,
        !loading ==> v == match linked_messages {
            Some(n) => if n == 0 { EventDetailView::NoMessages } else { EventDetailView::Messages },
            None => EventDetailView::NotLoaded,
        },
{
    if loading {
        EventDetailView::Loading
    } else {
        match linked_messages {
            Some(n) => if n == 0 { EventDetailView::NoMessages } else { EventDetailView::Messages },
            None => EventDetailView::NotLoaded,
        }
    }
}

/// An event card was clicked: it closes when open; otherwise it opens, and
/// its details are fetched unless loaded or on their way. Returns the open
/// card and whether to fetch.
pub fn expand_event(expanded: Option<i32>, id: i32, loaded: bool, loading: bool) -> (r: (Option<i32>, bool))
    ensures
        expanded == Some(id) ==> r == (None::<i32>, false),
        expanded != Some(id) ==> r == (Some(id), !loaded && !loading),
{
    if expanded == Some(id) {
        (None, false)
    } else {
        (Some(id), !loaded && !loading)
    }
}

/// A linked message's header: sender, platform and time.
pub fn linked_message_line(sender: &str, platform: &str, time: &str) -> (s: String)
    ensures
        s@ == sender@ + " · "@ + platform@ + " · "@ + time@,
{
    let mut v = chars_of(sender);
    extend_str(&mut v, " · ");
    extend_str(&mut v, platform);
    extend_str(&mut v, " · ");
    extend_str(&mut v, time);
    string_of(v.as_slice())
}

/// An event time, or "Not set".
pub fn time_or_not_set(t: Option<String>) -> (s: String)
    ensures
        s@ == match t {
            Some(x) => x@,
            None => "Not set"@,
        },
{
    match t {
        Some(x) => x,
        None => "Not set".to_owned(),
    }
}

proof fn lemma_undismissed(items: Seq<ActionItemResponse>, dismissed: Seq<i64>)
    ensures
        forall|e: ActionItemResponse| #[trigger] undismissed(items, dismissed).contains(e)
            <==> (items.contains(e) && !dismissed.contains(e.message_id)),
    decreases items.len(),
{
    if items.len() > 0 {
        let t = items.drop_first();
        lemma_undismissed(t, dismissed);
        let u = undismissed(t, dismissed);
        let r = undismissed(items, dismissed);
        assert forall|e: ActionItemResponse| #[trigger] r.contains(e)
            <==> (items.contains(e) && !dismissed.contains(e.message_id)) by {
            if dismissed.contains(items[0].message_id) {
                assert(r == u);
            } else {
                assert(r == seq![items[0]] + u);
            }
            if r.contains(e) {
                let i = choose|i: int| 0 <= i < r.len() && r[i] == e;
                if !dismissed.contains(items[0].message_id) && i == 0 {
                    assert(items[0] == e);
                } else {
                    let k = if dismissed.contains(items[0].message_id) { i } else { i - 1 };
                    assert(u[k] == e);
                    assert(u.contains(e));
                    let j = choose|j: int| 0 <= j < t.len() && t[j] == e;
                    assert(items[j + 1] == e);
                }
            }
            if items.contains(e) && !dismissed.contains(e.message_id) {
                let i = choose|i: int| 0 <= i < items.len() && items[i] == e;
                if i == 0 {
                    assert(r[0] == e);
                } else {
                    assert(t[i - 1] == e);
                    assert(t.contains(e));
                    assert(u.contains(e));
                    let k = choose|k: int| 0 <= k < u.len() && u[k] == e;
                    if dismissed.contains(items[0].message_id) {
                        assert(r[k] == e);
                    } else {
                        assert(r[k + 1] == e);
                    }
                }
            }
        }
    }
}

/// Once a message is dismissed and the stored ids are read back, its action
/// item is no longer shown, and every other item that was shown still is.
pub proof fn law_dismissed_message_disappears(items: Seq<ActionItemResponse>, stored: Seq<char>, id: i64)
    ensures
        forall|e: ActionItemResponse| #[trigger] undismissed(items, dismissed_of(stored_of(with_id(dismissed_of(stored), id)))).contains(e)
            ==> e.message_id != id,
        forall|e: ActionItemResponse| #[trigger] undismissed(items, dismissed_of(stored)).contains(e) && e.message_id != id
            ==> undismissed(items, dismissed_of(stored_of(with_id(dismissed_of(stored), id)))).contains(e),
{
    let before = dismissed_of(stored);
    let after = with_id(before, id);
    law_dismiss_adds_id(stored, id);
    lemma_undismissed(items, before);
    lemma_undismissed(items, after);
    assert(after.contains(id)) by {
        if !before.contains(id) {
            assert(after[before.len() as int] == id);
        }
    }
    assert forall|e: ActionItemResponse| #[trigger] undismissed(items, before).contains(e) && e.message_id != id
        implies undismissed(items, after).contains(e) by {
        if after.contains(e.message_id) && !before.contains(id) {
            let j = choose|j: int| 0 <= j < after.len() && after[j] == e.message_id;
            if j < before.len() {
                assert(before[j] == e.message_id);
            }
        }
    }
}

// ---------------------------------------------------------------------------
// Alert and digest settings
// ---------------------------------------------------------------------------

/// The critical-alert and digest settings of the overview.
#[derive(Clone, Debug)]
pub struct DigestSettings {
    pub critical_enabled: bool,
    pub digest_enabled: bool,
    /// The custom digest times in use, comma-separated; empty for automatic.
    pub digest_time: String,
    /// Whether the custom times field is shown.
    pub show_custom: bool,
    /// The custom times as typed.
    pub custom_input: String,
}

impl DigestSettings {
    /// The settings as the user's profile has them: alerts and digest off
    /// when unset, automatic times when none are set.
    pub fn new(critical: Option<bool>, digest: Option<bool>, time: Option<String>) -> (d: Self)
        ensures
            d.critical_enabled == (critical == Some(true)),
            d.digest_enabled == (digest == Some(true)),
            d.digest_time@ == match time {
                Some(t) => t@,
                None => Seq::empty(),
            },
            d.show_custom == (d.digest_time@.len() != 0),
            d.custom_input@.len() == 0,
    {
        let digest_time = match time {
            Some(t) => t,
            None => String::new(),
        };
        let show_custom = !digest_time.as_str().is_empty();
        DigestSettings {
            critical_enabled: critical == Some(true),
            digest_enabled: digest == Some(true),
            digest_time,
            show_custom,
            custom_input: String::new(),
        }
    }

    /// The critical-alert switch was flipped: returns the new value to save.
    pub fn toggle_critical(&mut self) -> (v: bool)
        ensures
            v == !old(self).critical_enabled,
            *final(self) == (DigestSettings { critical_enabled: v, ..*old(self) }),
    {
        self.critical_enabled = !self.critical_enabled;
        self.critical_enabled
    }

    /// The digest switch was flipped: returns the new value to save.
    pub fn toggle_digest(&mut self) -> (v: bool)
        ensures
            v == !old(self).digest_enabled,
            *final(self) == (DigestSettings { digest_enabled: v, ..*old(self) }),
    {
        self.digest_enabled = !self.digest_enabled;
        self.digest_enabled
    }

    /// "Custom" was chosen: the field opens with the times in use.
    pub fn choose_custom(&mut self)
        ensures
            final(self).custom_input@ == old(self).digest_time@,
            *final(self) == (DigestSettings { custom_input: final(self).custom_input, show_custom: true, ..*old(self) }),
    {
        self.custom_input = self.digest_time.clone();
        self.show_custom = true;
    }

    /// "Automatic" was chosen: the custom times are dropped (and cleared on
    /// the server).
    pub fn choose_auto(&mut self)
        ensures
            final(self).digest_time@.len() == 0,
            *final(self) == (DigestSettings { digest_time: final(self).digest_time, show_custom: false, ..*old(self) }),
    {
        self.show_custom = false;
        self.digest_time = String::new();
    }

    /// The custom times as typed.
    pub fn set_custom_input(&mut self, text: String)
        ensures
            *final(self) == (DigestSettings { custom_input: text, ..*old(self) }),
    {
        self.custom_input = text;
    }

    /// Save was pressed on the custom times: when they are a list of times of
    /// day, returns them cleaned up and puts them in use; otherwise nothing.
    pub fn save_custom(&mut self) -> (r: Option<String>)
        ensures
            text_opt(r) == digest_times_of(old(self).custom_input@),
            r matches Some(t) ==> final(self).digest_time@ == t@
                && *final(self) == (DigestSettings { digest_time: final(self).digest_time, ..*old(self) }),
            r is None ==> *final(self) == *old(self),
    {
        match digest_times(self.custom_input.as_str()) {
            Some(t) => {
                self.digest_time = t.clone();
                Some(t)
            },
            None => None,
        }
    }
}

} // verus!
