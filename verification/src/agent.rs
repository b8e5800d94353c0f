use vstd::prelude::*;
use crate::clock::{format_date, time_text};
use crate::text::{
    chars_of, dec_int, dec_int_chars, extend_chars, extend_str, join, string_of, trim, trimmed,
};

verus! {

// ---------------------------------------------------------------------------
// Connecting a local agent
// ---------------------------------------------------------------------------

/// A local agent's credential.
#[derive(Clone, Debug, PartialEq)]
pub struct CredentialSummary {
    pub id: i32,
    pub label: String,
    pub token_prefix: String,
    pub scopes: Vec<String>,
    pub daily_cap: i32,
    pub daily_used: i32,
    pub expires_at: i32,
    pub last_used_at: Option<i32>,
}

/// The actions a credential has left today, never below zero.
pub open spec fn remaining_of(cap: int, used: int) -> int {
    if cap - used > 0 { cap - used } else { 0 }
}

/// The actions a credential has left today.
pub fn remaining_actions(cap: i32, used: i32) -> (n: i32)
    requires
        i32::MIN <= cap - used <= i32::MAX,
    ensures
        n == remaining_of(cap as int, used as int),
{
    let d = cap - used;
    if d > 0 { d } else { 0 }
}

/// A credential's line: its token prefix, the actions left today, and when it
/// expires.
pub open spec fn credential_line_of(c: CredentialSummary) -> Seq<char> {
    c.token_prefix@ + "… · "@ + dec_int(remaining_of(c.daily_cap as int, c.daily_used as int)) + " actions left today · expires "@
        + time_text(c.expires_at as int, None, "%Y-%m-%d"@)
}

/// A credential's line.
pub fn credential_line(c: &CredentialSummary) -> (s: String)
    requires
        i32::MIN <= c.daily_cap - c.daily_used <= i32::MAX,
    ensures
        s@ == credential_line_of(*c),
{
    let mut v = chars_of(c.token_prefix.as_str());
    extend_str(&mut v, "… · ");
    let n = dec_int_chars(remaining_actions(c.daily_cap, c.daily_used) as i64);
    extend_chars(&mut v, n.as_slice());
    extend_str(&mut v, " actions left today · expires ");
    let d = format_date(c.expires_at);
    extend_str(&mut v, d.as_str());
    string_of(v.as_slice())
}

/// The texts of a list of strings.
pub open spec fn texts_of(v: Seq<String>) -> Seq<Seq<char>> {
    v.map_values(|s: String| s@)
}

/// A credential's scopes, joined by " · ".
pub fn scopes_line(scopes: &Vec<String>) -> (s: String)
    ensures
        s@ == join(texts_of(scopes@), " · "@),
{
    let ghost ts = texts_of(scopes@);
    let mut out: Vec<char> = Vec::new();
    let mut i: usize = 0;
    while i < scopes.len()
        invariant
            i <= scopes.len(),
            ts == texts_of(scopes@),
            out@ == join(ts.take(i as int), " · "@),
        decreases scopes.len() - i,
    {
        if i != 0 {
            extend_str(&mut out, " · ");
        }
        extend_str(&mut out, scopes[i].as_str());
        i = i + 1;
        assert(ts.take(i as int).drop_last() =~= ts.take(i - 1));
        assert(ts.take(i as int).last() == scopes@[i - 1]@);
        if i == 1 {
            assert(ts.take(1) =~= seq![scopes@[0]@]);
            assert(out@ =~= scopes@[0]@);
        }
    }
    assert(ts.take(scopes.len() as int) =~= ts);
    string_of(out.as_slice())
}

/// The credentials other than the one with id `id`, in their order.
pub open spec fn without_credential(s: Seq<CredentialSummary>, id: i32) -> Seq<CredentialSummary>
    decreases s.len(),
{
    if s.len() == 0 {
        Seq::empty()
    } else if s[0].id != id {
        seq![s[0]] + without_credential(s.drop_first(), id)
    } else {
        without_credential(s.drop_first(), id)
    }
}

/// The agent panel: connected credentials and the pairing form.
#[derive(Clone, Debug)]
pub struct AgentPanel {
    pub credentials: Vec<CredentialSummary>,
    /// The pairing code as typed.
    pub code: String,
    pub busy: bool,
    /// The last outcome: whether it went well, and what to say.
    pub message: Option<(bool, String)>,
    pub copied: bool,
}

/// The last message's text and whether it went well.
pub open spec fn message_of(m: Option<(bool, String)>) -> Option<(bool, Seq<char>)> {
    match m {
        Some((ok, t)) => Some((ok, t@)),
        None => None,
    }
}

impl AgentPanel {
    /// The panel before the credentials load.
    pub fn new() -> (p: Self)
        ensures
            p.credentials@.len() == 0 && p.code@.len() == 0 && !p.busy && p.message is None && !p.copied,
    {
        AgentPanel { credentials: Vec::new(), code: String::new(), busy: false, message: None, copied: false }
    }

    /// The credentials arrived.
    pub fn on_credentials(&mut self, rows: Vec<CredentialSummary>)
        ensures
            *final(self) == (AgentPanel { credentials: rows, ..*old(self) }),
    {
        self.credentials = rows;
    }

    /// The pairing code as typed.
    pub fn set_code(&mut self, code: String)
        ensures
            *final(self) == (AgentPanel { code, ..*old(self) }),
    {
        self.code = code;
    }

    /// The pairing form was submitted: returns the code to approve, as typed;
    /// nothing while busy or when the code is blank.
    pub fn approve(&mut self) -> (send: Option<String>)
        ensures
            old(self).busy || trim(old(self).code@).len() == 0 ==> send is None && *final(self) == *old(self),
            !old(self).busy && trim(old(self).code@).len() != 0 ==> {
                &&& send matches Some(c) && c@ == old(self).code@
                &&& *final(self) == (AgentPanel { busy: true, message: None, ..*old(self) })
            },
    {
        if self.busy {
            return None;
        }
        let cs = chars_of(self.code.as_str());
        let t = trimmed(cs.as_slice());
        if t.len() == 0 {
            return None;
        }
        self.busy = true;
        self.message = None;
        Some(self.code.clone())
    }

    /// The server answered the approval: an accepted code clears the form,
    /// and the credentials are then fetched again (returns whether to fetch).
    pub fn on_approved(&mut self, accepted: bool) -> (refresh: bool)
        ensures
            refresh == accepted,
            *final(self) == (AgentPanel {
                code: final(self).code,
                message: final(self).message,
                busy: false,
                ..*old(self)
            }),
            accepted ==> final(self).code@.len() == 0 && message_of(final(self).message) == Some(
                (true, "Approved. The local CLI will finish securely."@),
            ),
            !accepted ==> final(self).code == old(self).code && message_of(final(self).message) == Some(
                (false, "That code is invalid, expired, or already used."@),
            ),
    {
        if accepted {
            self.code = String::new();
            self.message = Some((true, "Approved. The local CLI will finish securely.".to_owned()));
        } else {
            self.message = Some((false, "That code is invalid, expired, or already used.".to_owned()));
        }
        self.busy = false;
        accepted
    }

    /// The server answered revoking credential `id`: when revoked it leaves
    /// the list.
    pub fn on_revoked(&mut self, id: i32, revoked: bool)
        ensures
            *final(self) == (AgentPanel {
                credentials: final(self).credentials,
                message: final(self).message,
                ..*old(self)
            }),
            revoked ==> final(self).credentials@ == without_credential(old(self).credentials@, id)
                && message_of(final(self).message) == Some((true, "Credential revoked. Run `lightfriend login` to rotate it."@)),
            !revoked ==> final(self).credentials == old(self).credentials
                && message_of(final(self).message) == Some((false, "Could not revoke that credential."@)),
    {
        if revoked {
            let mut list = Vec::new();
            std::mem::swap(&mut list, &mut self.credentials);
            let ghost orig = list@;
            let mut out: Vec<CredentialSummary> = Vec::new();
            assert(orig.skip(orig.len() as int) =~= Seq::<CredentialSummary>::empty());
            while list.len() > 0
                invariant
                    list@ == orig.take(list.len() as int),
                    list.len() <= orig.len(),
                    out@ == without_credential(orig.skip(list.len() as int), id),
                decreases list.len(),
            {
                let ghost i = (list.len() - 1) as int;
                let x = list.pop().unwrap();
                assert(orig.skip(i).drop_first() =~= orig.skip(i + 1));
                assert(orig.skip(i)[0] == x);
                assert(list@ =~= orig.take(i));
                if x.id != id {
                    let ghost prev = out@;
                    out.insert(0, x);
                    assert(out@ =~= seq![x] + prev);
                }
            }
            assert(orig.skip(0) =~= orig);
            self.credentials = out;
            self.message = Some((true, "Credential revoked. Run `lightfriend login` to rotate it.".to_owned()));
        } else {
            self.message = Some((false, "Could not revoke that credential.".to_owned()));
        }
    }

    /// The setup instruction was copied to the clipboard, or not.
    pub fn on_copied(&mut self, ok: bool)
        ensures
            *final(self) == (AgentPanel { copied: ok, ..*old(self) }),
    {
        self.copied = ok;
    }

    /// What the approve button says.
    pub fn approve_text(&self) -> (s: &'static str)
        ensures
            s@ == if self.busy { "Approving..."@ } else { "Approve"@ },
    {
        if self.busy { "Approving..." } else { "Approve" }
    }
}

/// A revoked credential leaves the list, and every other credential stays.
pub proof fn law_revoked_credential_is_gone(s: Seq<CredentialSummary>, id: i32)
    ensures
        forall|k: int| 0 <= k < without_credential(s, id).len() ==> #[trigger] without_credential(s, id)[k].id != id,
        forall|e: CredentialSummary| #[trigger] s.contains(e) && e.id != id ==> without_credential(s, id).contains(e),
    decreases s.len(),
{
    if s.len() > 0 {
        let t = s.drop_first();
        law_revoked_credential_is_gone(t, id);
        let w = without_credential(t, id);
        let r = without_credential(s, id);
        if s[0].id != id {
            assert(r == seq![s[0]] + w);
            assert forall|k: int| 0 <= k < r.len() implies #[trigger] r[k].id != id by {
                if k > 0 {
                    assert(r[k] == w[k - 1]);
                }
            }
        } else {
            assert(r == w);
        }
        assert forall|e: CredentialSummary| #[trigger] s.contains(e) && e.id != id implies r.contains(e) by {
            let i = choose|i: int| 0 <= i < s.len() && s[i] == e;
            if i == 0 {
                assert(r[0] == e);
            } else {
                assert(t[i - 1] == e);
                assert(t.contains(e));
                assert(w.contains(e));
                let k = choose|k: int| 0 <= k < w.len() && w[k] == e;
                if s[0].id != id {
                    assert(r[k + 1] == e);
                } else {
                    assert(r[k] == e);
                }
            }
        }
    }
}

} // verus!
