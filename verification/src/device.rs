use vstd::prelude::*;
use crate::media::text_opt;
use crate::text::{chars_of, extend_str, is_text, starts, starts_with, string_of, trim, trimmed};

verus! {

// ---------------------------------------------------------------------------
// Saving settings
// ---------------------------------------------------------------------------

/// How a setting's save is going.
#[derive(Clone, Debug, PartialEq)]
pub enum SaveState {
    Idle,
    Saving,
    Success,
    Error(String),
}

/// What shows beside a setting's label.
#[derive(Clone, Debug, PartialEq)]
pub enum SaveStatus {
    Spinner,
    Saved,
    /// "Not saved", with the reason on hover.
    NotSaved(String),
}

/// What shows beside a setting's label: nothing when idle, a spinner while
/// saving, "Saved", or "Not saved" with the reason.
pub fn save_status(state: &SaveState) -> (s: Option<SaveStatus>)
    ensures
        match *state {
            SaveState::Idle => s is None,
            SaveState::Saving => s == Some(SaveStatus::Spinner),
            SaveState::Success => s == Some(SaveStatus::Saved),
            SaveState::Error(m) => s matches Some(SaveStatus::NotSaved(t)) && t@ == m@,
        },
{
    match state {
        SaveState::Idle => None,
        SaveState::Saving => Some(SaveStatus::Spinner),
        SaveState::Success => Some(SaveStatus::Saved),
        SaveState::Error(m) => Some(SaveStatus::NotSaved(m.clone())),
    }
}

/// The error shown under a setting, when its save failed.
pub fn save_error(state: &SaveState) -> (s: Option<String>)
    ensures
        match *state {
            SaveState::Error(m) => text_opt(s) == Some(m@),
            _ => s is None,
        },
{
    match state {
        SaveState::Error(m) => Some(m.clone()),
        _ => None,
    }
}

/// How a save request ended.
#[derive(Clone, Debug)]
pub enum SaveReply {
    Saved,
    Refused,
    Unreachable,
    /// The request could not be encoded.
    Unsent,
}

/// The state after saving the alert method or the number: saved, or why not.
pub fn after_save(reply: &SaveReply, refused_text: &str) -> (s: SaveState)
    ensures
        match *reply {
            SaveReply::Saved => s == SaveState::Success,
            SaveReply::Refused => s matches SaveState::Error(m) && m@ == refused_text@,
            SaveReply::Unreachable => s matches SaveState::Error(m) && m@ == "Network error."@,
            SaveReply::Unsent => s matches SaveState::Error(m) && m@ == "Could not encode the request."@,
        },
{
    match reply {
        SaveReply::Saved => SaveState::Success,
        SaveReply::Refused => SaveState::Error(refused_text.to_owned()),
        SaveReply::Unreachable => SaveState::Error("Network error.".to_owned()),
        SaveReply::Unsent => SaveState::Error("Could not encode the request.".to_owned()),
    }
}

// ---------------------------------------------------------------------------
// The sending number
// ---------------------------------------------------------------------------

/// The choice that stands for the user's own Twilio number.
pub open spec fn own_number_option() -> Seq<char> {
    "__byot"@
}

/// The number chosen when the panel opens: the user's own Twilio number when
/// enabled, else the preferred number, else none.
pub fn initial_number_choice(own_twilio_enabled: bool, preferred: &Option<String>) -> (s: String)
    ensures
        s@ == if own_twilio_enabled {
            own_number_option()
        } else {
            match *preferred {
                Some(p) => p@,
                None => Seq::empty(),
            }
        },
{
    if own_twilio_enabled {
        "__byot".to_owned()
    } else {
        match preferred {
            Some(p) => p.clone(),
            None => String::new(),
        }
    }
}

/// The number shown when it cannot be chosen: the own Twilio number, or the
/// number messages come from.
pub fn shown_number(own_twilio_enabled: bool, preferred: &Option<String>, sms_from: &Option<String>) -> (s: String)
    ensures
        s@ == if own_twilio_enabled {
            match *preferred {
                Some(p) => p@,
                None => "Your Twilio number"@,
            }
        } else {
            match *sms_from {
                Some(f) => f@,
                None => match *preferred {
                    Some(p) => p@,
                    None => "Assigned automatically"@,
                },
            }
        },
{
    if own_twilio_enabled {
        match preferred {
            Some(p) => p.clone(),
            None => "Your Twilio number".to_owned(),
        }
    } else {
        match sms_from {
            Some(f) => f.clone(),
            None => match preferred {
                Some(p) => p.clone(),
                None => "Assigned automatically".to_owned(),
            },
        }
    }
}

/// A number's choice label: "label (number)", or the label alone.
pub fn number_option_label(label: &str, number: &str) -> (s: String)
    ensures
        s@ == if number@.len() == 0 { label@ } else { label@ + " ("@ + number@ + seq![')'] },
{
    if number.is_empty() {
        label.to_owned()
    } else {
        let mut v = chars_of(label);
        extend_str(&mut v, " (");
        extend_str(&mut v, number);
        v.push(')');
        string_of(v.as_slice())
    }
}

/// What picking a number does: the own-number choice only opens the Twilio
/// fields; any other number is saved.
pub fn picks_saved_number(choice: &str) -> (save: bool)
    ensures
        save == (choice@ != own_number_option()),
{
    !is_text(choice, "__byot")
}

// ---------------------------------------------------------------------------
// Bringing your own Twilio number
// ---------------------------------------------------------------------------

/// An ASCII decimal digit.
pub open spec fn ascii_digit(c: char) -> bool {
    '0' <= c <= '9'
}

/// An ASCII hexadecimal digit.
pub open spec fn ascii_hex(c: char) -> bool {
    ('0' <= c <= '9') || ('a' <= c <= 'f') || ('A' <= c <= 'F')
}

/// A phone number in E.164 form as checked here: '+', then only digits, at
/// least ten characters in all.
pub open spec fn e164(p: Seq<char>) -> bool {
    &&& p.len() >= 10
    &&& p[0] == '+'
    &&& forall|i: int| 1 <= i < p.len() ==> ascii_digit(#[trigger] p[i])
}

/// A Twilio account SID: "AC" and 32 hexadecimal digits.
pub open spec fn account_sid(s: Seq<char>) -> bool {
    &&& s.len() == 34
    &&& s[0] == 'A' && s[1] == 'C'
    &&& forall|i: int| 2 <= i < s.len() ==> ascii_hex(#[trigger] s[i])
}

/// A Twilio auth token: 32 hexadecimal digits.
pub open spec fn auth_token(s: Seq<char>) -> bool {
    &&& s.len() == 32
    &&& forall|i: int| 0 <= i < s.len() ==> ascii_hex(#[trigger] s[i])
}

/// The credentials shown masked, as saved earlier, start with "...".
pub open spec fn masked(s: Seq<char>) -> bool {
    starts(s, "..."@)
}

/// The Twilio settings to save.
#[derive(Clone, Debug, PartialEq)]
pub struct TwilioSettings {
    pub phone: String,
    pub account_sid: String,
    pub auth_token: String,
    /// The masked credentials saved earlier stay; only the number is sent.
    pub keep_saved_credentials: bool,
}

fn all_from(cs: &[char], from: usize, hex: bool) -> (b: bool)
    requires
        from <= cs.len(),
    ensures
        b == forall|i: int| from <= i < cs.len() ==> (if hex { ascii_hex(#[trigger] cs@[i]) } else { ascii_digit(cs@[i]) }),
{
    let mut i: usize = from;
    while i < cs.len()
        invariant
            from <= i <= cs.len(),
            forall|k: int| from <= k < i ==> (if hex { ascii_hex(#[trigger] cs@[k]) } else { ascii_digit(cs@[k]) }),
        decreases cs.len() - i,
    {
        let c = cs[i];
        let ok = if hex {
            ('0' <= c && c <= '9') || ('a' <= c && c <= 'f') || ('A' <= c && c <= 'F')
        } else {
            '0' <= c && c <= '9'
        };
        if !ok {
            assert(!(if hex { ascii_hex(cs@[i as int]) } else { ascii_digit(cs@[i as int]) }));
            return false;
        }
        i = i + 1;
    }
    true
}

/// The message for a number that is not in E.164 form.
pub open spec fn bad_phone_error() -> Seq<char> {
    "Enter the Twilio number in E.164 format."@
}

/// The message for an account SID of the wrong shape.
pub open spec fn bad_sid_error() -> Seq<char> {
    "Enter a valid Twilio Account SID."@
}

/// The message for an auth token of the wrong shape.
pub open spec fn bad_token_error() -> Seq<char> {
    "Enter a valid Twilio Auth Token."@
}

/// Checks the Twilio fields, each trimmed. The number must be in E.164 form;
/// unless both credentials are the masked ones saved earlier, the SID and the
/// token must have their shapes. The first problem found is reported.
pub fn check_twilio(phone: &str, sid: &str, token: &str) -> (r: Result<TwilioSettings, &'static str>)
    ensures
        ({
            let p = trim(phone@);
            let s = trim(sid@);
            let t = trim(token@);
            let keep = masked(s) && masked(t);
            if !e164(p) {
                r matches Err(e) && e@ == bad_phone_error()
            } else if !keep && !account_sid(s) {
                r matches Err(e) && e@ == bad_sid_error()
            } else if !keep && !auth_token(t) {
                r matches Err(e) && e@ == bad_token_error()
            } else {
                r matches Ok(v) && v.phone@ == p && v.account_sid@ == s && v.auth_token@ == t
                    && v.keep_saved_credentials == keep
            }
        }),
{
    let pc = chars_of(phone);
    let p = trimmed(pc.as_slice());
    let sc = chars_of(sid);
    let s = trimmed(sc.as_slice());
    let tc = chars_of(token);
    let t = trimmed(tc.as_slice());
    let dots = chars_of("...");
    proof {
        reveal_strlit("...");
    }
    let keep = starts_with(s.as_slice(), dots.as_slice()) && starts_with(t.as_slice(), dots.as_slice());
    let phone_ok = p.len() >= 10 && p[0] == '+' && all_from(p.as_slice(), 1, false);
    if !phone_ok {
        return Err("Enter the Twilio number in E.164 format.");
    }
    if !keep {
        let sid_ok = s.len() == 34 && s[0] == 'A' && s[1] == 'C' && all_from(s.as_slice(), 2, true);
        if !sid_ok {
            return Err("Enter a valid Twilio Account SID.");
        }
        let token_ok = t.len() == 32 && all_from(t.as_slice(), 0, true);
        if !token_ok {
            return Err("Enter a valid Twilio Auth Token.");
        }
    }
    Ok(TwilioSettings {
        phone: string_of(p.as_slice()),
        account_sid: string_of(s.as_slice()),
        auth_token: string_of(t.as_slice()),
        keep_saved_credentials: keep,
    })
}

/// The step of connecting an own Twilio number that failed.
#[derive(Clone, Debug)]
pub enum TwilioFailure {
    /// The number was not saved.
    Number,
    /// The credentials were not saved.
    Credentials,
    /// Turning the own number on was refused, with the server's error text
    /// when its answer had one.
    Enable(Option<String>),
    /// Turning the own number on did not reach the server.
    Unreachable,
}

/// The message for a failed step of connecting an own Twilio number.
pub fn twilio_failure_text(f: TwilioFailure) -> (s: String)
    ensures
        s@ == match f {
            TwilioFailure::Number => "Could not save the Twilio number."@,
            TwilioFailure::Credentials => "Could not save the Twilio credentials."@,
            TwilioFailure::Enable(e) => match e {
                Some(t) => t@,
                None => "Could not enable your Twilio number."@,
            },
            TwilioFailure::Unreachable => "Network error."@,
        },
{
    match f {
        TwilioFailure::Number => "Could not save the Twilio number.".to_owned(),
        TwilioFailure::Credentials => "Could not save the Twilio credentials.".to_owned(),
        TwilioFailure::Enable(e) => match e {
            Some(t) => t,
            None => "Could not enable your Twilio number.".to_owned(),
        },
        TwilioFailure::Unreachable => "Network error.".to_owned(),
    }
}

// ---------------------------------------------------------------------------
// The profile after a save
// ---------------------------------------------------------------------------

/// The profile fields the phone panel reads and updates.
#[derive(Clone, Debug, PartialEq)]
pub struct PhoneProfile {
    pub notification_type: Option<String>,
    pub preferred_number: Option<String>,
    pub sms_from_number: Option<String>,
    pub own_twilio_enabled: bool,
    pub twilio_sid: Option<String>,
    pub twilio_token: Option<String>,
}

/// The profile once the alert method `value` was saved.
pub fn profile_after_alert_saved(p: PhoneProfile, value: String) -> (r: PhoneProfile)
    ensures
        r == (PhoneProfile { notification_type: Some(value), ..p }),
{
    PhoneProfile { notification_type: Some(value), ..p }
}

/// The profile once the sending number `value` was saved: it is both the
/// preferred and the sending number, and the own Twilio number is off.
pub fn profile_after_number_saved(p: PhoneProfile, value: String) -> (r: PhoneProfile)
    ensures
        r == (PhoneProfile {
            preferred_number: Some(value),
            sms_from_number: Some(value),
            own_twilio_enabled: false,
            ..p
        }),
{
    let v = value.clone();
    PhoneProfile { preferred_number: Some(v), sms_from_number: Some(value), own_twilio_enabled: false, ..p }
}

/// The masked form in which newly saved credentials are shown.
pub open spec fn masked_text() -> Seq<char> {
    "..."@
}

/// The profile once an own Twilio number was connected: the number is both
/// the preferred and the sending number, the own number is on, and newly
/// saved credentials are shown masked (kept ones stay as they were).
pub fn profile_after_own_number(p: PhoneProfile, s: &TwilioSettings) -> (r: PhoneProfile)
    ensures
        r.preferred_number == Some(s.phone),
        r.sms_from_number == Some(s.phone),
        r.own_twilio_enabled,
        r.notification_type == p.notification_type,
        s.keep_saved_credentials ==> r.twilio_sid == p.twilio_sid && r.twilio_token == p.twilio_token,
        !s.keep_saved_credentials ==> text_opt(r.twilio_sid) == Some(masked_text())
            && text_opt(r.twilio_token) == Some(masked_text()),
{
    let (sid, token) = if s.keep_saved_credentials {
        (p.twilio_sid, p.twilio_token)
    } else {
        (Some("...".to_owned()), Some("...".to_owned()))
    };
    PhoneProfile {
        notification_type: p.notification_type,
        preferred_number: Some(s.phone.clone()),
        sms_from_number: Some(s.phone.clone()),
        own_twilio_enabled: true,
        twilio_sid: sid,
        twilio_token: token,
    }
}

// ---------------------------------------------------------------------------
// Connecting an own Twilio number: three requests in turn
// ---------------------------------------------------------------------------

/// The requests that connect an own Twilio number, in the order sent.
#[derive(Clone, Copy, Debug, PartialEq, Eq, Structural)]
pub enum TwilioRequest {
    /// Save the number.
    Number,
    /// Save the account SID and auth token.
    Credentials,
    /// Turn the own number on.
    Enable,
}

/// How one of these requests ended.
#[derive(Clone, Debug)]
pub enum TwilioReply {
    Accepted,
    /// Refused, with the server's error text when its answer had one.
    Refused(Option<String>),
    Unreachable,
}

/// What comes after a request.
#[derive(Clone, Debug)]
pub enum TwilioOutcome {
    /// Send this request next.
    Send(TwilioRequest),
    /// The own number is connected.
    Connected,
    /// Connecting stopped at a failed step.
    Failed(TwilioFailure),
}

/// The first request: the number is saved first.
pub fn twilio_first() -> (r: TwilioRequest)
    ensures
        r == TwilioRequest::Number,
{
    TwilioRequest::Number
}

/// What follows the request `done` and its reply. A saved number is followed
/// by the credentials, unless the saved masked ones are kept, in which case
/// the own number is turned on at once; saved credentials are followed by
/// turning it on; once it is on, it is connected. A number or credentials
/// not saved, whatever the reason, stop there; turning it on reports the
/// server's refusal or the network failure.
pub fn twilio_step(s: &TwilioSettings, done: TwilioRequest, reply: TwilioReply) -> (o: TwilioOutcome)
    ensures
        match done {
            TwilioRequest::Number => match reply {
                TwilioReply::Accepted => o matches TwilioOutcome::Send(r)
                    && r == if s.keep_saved_credentials { TwilioRequest::Enable } else { TwilioRequest::Credentials },
                _ => o matches TwilioOutcome::Failed(TwilioFailure::Number),
            },
            TwilioRequest::Credentials => match reply {
                TwilioReply::Accepted => o matches TwilioOutcome::Send(r) && r == TwilioRequest::Enable,
                _ => o matches TwilioOutcome::Failed(TwilioFailure::Credentials),
            },
            TwilioRequest::Enable => match reply {
                TwilioReply::Accepted => o is Connected,
                TwilioReply::Refused(e) => o matches TwilioOutcome::Failed(TwilioFailure::Enable(f)) && f == e,
                TwilioReply::Unreachable => o matches TwilioOutcome::Failed(TwilioFailure::Unreachable),
            },
        },
{
    match done {
        TwilioRequest::Number => match reply {
            TwilioReply::Accepted => TwilioOutcome::Send(
                if s.keep_saved_credentials { TwilioRequest::Enable } else { TwilioRequest::Credentials },
            ),
            _ => TwilioOutcome::Failed(TwilioFailure::Number),
        },
        TwilioRequest::Credentials => match reply {
            TwilioReply::Accepted => TwilioOutcome::Send(TwilioRequest::Enable),
            _ => TwilioOutcome::Failed(TwilioFailure::Credentials),
        },
        TwilioRequest::Enable => match reply {
            TwilioReply::Accepted => TwilioOutcome::Connected,
            TwilioReply::Refused(e) => TwilioOutcome::Failed(TwilioFailure::Enable(e)),
            TwilioReply::Unreachable => TwilioOutcome::Failed(TwilioFailure::Unreachable),
        },
    }
}

/// The number's save state after an outcome: still saving while requests
/// remain, saved once connected, or the failed step's message.
pub fn twilio_save_state(o: TwilioOutcome) -> (st: SaveState)
    ensures
        match o {
            TwilioOutcome::Send(_) => st == SaveState::Saving,
            TwilioOutcome::Connected => st == SaveState::Success,
            TwilioOutcome::Failed(f) => st matches SaveState::Error(m) && m@ == match f {
                TwilioFailure::Number => "Could not save the Twilio number."@,
                TwilioFailure::Credentials => "Could not save the Twilio credentials."@,
                TwilioFailure::Enable(e) => match e {
                    Some(t) => t@,
                    None => "Could not enable your Twilio number."@,
                },
                TwilioFailure::Unreachable => "Network error."@,
            },
        },
{
    match o {
        TwilioOutcome::Send(_) => SaveState::Saving,
        TwilioOutcome::Connected => SaveState::Success,
        TwilioOutcome::Failed(f) => SaveState::Error(twilio_failure_text(f)),
    }
}

} // verus!
