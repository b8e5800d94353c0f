use vstd::prelude::*;
use crate::contacts::{email_addable, email_looks_addable, label_of, platform_label, score_contact, score_of, Contact};
use crate::media::text_opt;
use crate::text::{chars_of, dec_int, dec_int_chars, extend_chars, is_text, lowercase, lowercased, string_of, trim, trimmed};

verus! {

// ---------------------------------------------------------------------------
// Text order
// ---------------------------------------------------------------------------

/// `a` comes no later than `b` in the order `str` compares in: char by char,
/// a prefix first.
pub open spec fn text_le(a: Seq<char>, b: Seq<char>) -> bool
    decreases a.len(),
{
    if a.len() == 0 {
        true
    } else if b.len() == 0 {
        false
    } else if a[0] != b[0] {
        (a[0] as int) < (b[0] as int)
    } else {
        text_le(a.drop_first(), b.drop_first())
    }
}

/// The text order is total.
pub proof fn lemma_text_le_total(a: Seq<char>, b: Seq<char>)
    ensures
        text_le(a, b) || text_le(b, a),
    decreases a.len(),
{
    if a.len() > 0 && b.len() > 0 && a[0] == b[0] {
        lemma_text_le_total(a.drop_first(), b.drop_first());
    }
}

/// The text order is transitive.
pub proof fn lemma_text_le_trans(a: Seq<char>, b: Seq<char>, c: Seq<char>)
    requires
        text_le(a, b),
        text_le(b, c),
    ensures
        text_le(a, c),
    decreases a.len(),
{
    if a.len() > 0 && b.len() > 0 && c.len() > 0 && a[0] == b[0] && b[0] == c[0] {
        lemma_text_le_trans(a.drop_first(), b.drop_first(), c.drop_first());
    }
}

/// Whether `a` comes no later than `b` in text order.
pub fn text_le_exec(a: &[char], b: &[char]) -> (r: bool)
    ensures
        r == text_le(a@, b@),
{
    let mut i: usize = 0;
    assert(a@.skip(0) =~= a@);
    assert(b@.skip(0) =~= b@);
    while i < a.len() && i < b.len() && a[i] == b[i]
        invariant
            i <= a.len(),
            i <= b.len(),
            text_le(a@, b@) == text_le(a@.skip(i as int), b@.skip(i as int)),
        decreases a.len() - i,
    {
        proof {
            assert(a@.skip(i as int).drop_first() =~= a@.skip(i + 1));
            assert(b@.skip(i as int).drop_first() =~= b@.skip(i + 1));
            assert(a@.skip(i as int)[0] == a@[i as int]);
            assert(b@.skip(i as int)[0] == b@[i as int]);
        }
        i = i + 1;
    }
    proof {
        if i < a.len() {
            assert(a@.skip(i as int)[0] == a@[i as int]);
        }
        if i < b.len() {
            assert(b@.skip(i as int)[0] == b@[i as int]);
        }
    }
    if i == a.len() {
        true
    } else if i == b.len() {
        false
    } else {
        a[i] < b[i]
    }
}

// ---------------------------------------------------------------------------
// Choosing a contact
// ---------------------------------------------------------------------------

/// A contact offered in the search results, with its match score.
#[derive(Clone, Copy, Debug, PartialEq, Eq, Structural)]
pub struct ContactChoice {
    pub score: i32,
    /// The contact's position in the contact list.
    pub index: usize,
}

/// The most results the search shows.
pub const MAX_RESULTS: usize = 50;

/// Whether a contact can be chosen for `source`: it is a chat or contact of
/// that platform, not a person record.
pub open spec fn offered(c: Contact, source: Seq<char>) -> bool {
    c.source@ != "person"@ && text_opt(c.platform) == Some(source)
}

/// A contact's score for the normalized query: 0 for an empty query.
pub open spec fn choice_score(query: Seq<char>, c: Contact) -> Option<i32> {
    if query.len() == 0 { Some(0) } else { score_of(query, c.display_name@) }
}

/// The query as matched: trimmed and lowercased.
pub open spec fn normalized(query: Seq<char>) -> Seq<char> {
    lowercased(trim(query))
}

/// The contacts from position `from` on that match, with their scores, in
/// list order.
pub open spec fn matches_from(cs: Seq<Contact>, source: Seq<char>, query: Seq<char>, from: int) -> Seq<ContactChoice>
    decreases cs.len() - from,
{
    if from >= cs.len() || from < 0 {
        Seq::empty()
    } else if offered(cs[from], source) && choice_score(query, cs[from]) is Some {
        seq![ContactChoice { score: choice_score(query, cs[from])->0, index: from as usize }]
            + matches_from(cs, source, query, from + 1)
    } else {
        matches_from(cs, source, query, from + 1)
    }
}

/// `a` is listed no later than `b`: higher scores first, then names in text
/// order, compared lowercased.
pub open spec fn choice_le(cs: Seq<Contact>, a: ContactChoice, b: ContactChoice) -> bool {
    a.score > b.score || (a.score == b.score
        && text_le(lowercased(cs[a.index as int].display_name@), lowercased(cs[b.index as int].display_name@)))
}

/// `x` placed into the ordered `sorted` before the first choice it may precede.
pub open spec fn place_choice(cs: Seq<Contact>, sorted: Seq<ContactChoice>, x: ContactChoice) -> Seq<ContactChoice>
    decreases sorted.len(),
{
    if sorted.len() == 0 {
        seq![x]
    } else if choice_le(cs, x, sorted[0]) {
        seq![x] + sorted
    } else {
        seq![sorted[0]] + place_choice(cs, sorted.drop_first(), x)
    }
}

/// The choices in listing order, keeping list order among equals (the
/// stable sort `sort_by` performs).
pub open spec fn order_choices(cs: Seq<Contact>, s: Seq<ContactChoice>) -> Seq<ContactChoice>
    decreases s.len(),
{
    if s.len() == 0 {
        Seq::empty()
    } else {
        place_choice(cs, order_choices(cs, s.drop_first()), s[0])
    }
}

/// The search results for `source` and `query`: the matching contacts in
/// listing order, at most fifty.
pub open spec fn results_of(cs: Seq<Contact>, source: Seq<char>, query: Seq<char>) -> Seq<ContactChoice> {
    let all = order_choices(cs, matches_from(cs, source, normalized(query), 0));
    if all.len() > MAX_RESULTS { all.take(MAX_RESULTS as int) } else { all }
}

proof fn lemma_place_choice_at(cs: Seq<Contact>, s: Seq<ContactChoice>, x: ContactChoice, p: int)
    requires
        0 <= p <= s.len(),
        forall|j: int| 0 <= j < p ==> !choice_le(cs, x, #[trigger] s[j]),
        p < s.len() ==> choice_le(cs, x, s[p]),
    ensures
        place_choice(cs, s, x) == s.take(p) + seq![x] + s.skip(p),
    decreases s.len(),
{
    if s.len() == 0 {
        assert(s.take(p) + seq![x] + s.skip(p) =~= seq![x]);
    } else if p == 0 {
        assert(s.take(0) + seq![x] + s.skip(0) =~= seq![x] + s);
    } else {
        let t = s.drop_first();
        assert forall|j: int| 0 <= j < p - 1 implies !choice_le(cs, x, #[trigger] t[j]) by {
            assert(t[j] == s[j + 1]);
        }
        if p < s.len() {
            assert(t[p - 1] == s[p]);
        }
        lemma_place_choice_at(cs, t, x, p - 1);
        assert(seq![s[0]] + (t.take(p - 1) + seq![x] + t.skip(p - 1)) =~= s.take(p) + seq![x] + s.skip(p));
    }
}

/// Whether choice `a` is listed no later than `b`, with the lowercased names.
fn choice_le_exec(a: ContactChoice, b: ContactChoice, names: &Vec<Vec<char>>) -> (r: bool)
    requires
        a.index < names.len(),
        b.index < names.len(),
    ensures
        r == (a.score > b.score || (a.score == b.score && text_le(names@[a.index as int]@, names@[b.index as int]@))),
{
    a.score > b.score || (a.score == b.score && text_le_exec(names[a.index].as_slice(), names[b.index].as_slice()))
}

/// The search results for `source` and `query`: the contacts of that platform
/// (no person records) that match the trimmed, lowercased query (all of them
/// for an empty query), best score first, then by lowercased name, at most fifty.
pub fn contact_choices(contacts: &Vec<Contact>, source: &str, query: &str) -> (out: Vec<ContactChoice>)
    ensures
        out@ == results_of(contacts@, source@, query@),
{
    let qc = chars_of(query);
    let qt = trimmed(qc.as_slice());
    let qs = string_of(qt.as_slice());
    let q = lowercase(qs.as_str());
    let ghost qn = normalized(query@);
    assert(q@ == qn);
    let empty_query = q.as_str().is_empty();
    let mut names: Vec<Vec<char>> = Vec::new();
    let mut k: usize = 0;
    while k < contacts.len()
        invariant
            k <= contacts.len(),
            names.len() == k,
            forall|j: int| 0 <= j < k ==> #[trigger] names@[j]@ == lowercased(contacts@[j].display_name@),
        decreases contacts.len() - k,
    {
        let l = lowercase(contacts[k].display_name.as_str());
        names.push(chars_of(l.as_str()));
        k = k + 1;
    }
    let mut out: Vec<ContactChoice> = Vec::new();
    let mut i: usize = contacts.len();
    assert(matches_from(contacts@, source@, qn, contacts.len() as int) == Seq::<ContactChoice>::empty());
    while i > 0
        invariant
            i <= contacts.len(),
            names.len() == contacts.len(),
            forall|j: int| 0 <= j < contacts.len() ==> #[trigger] names@[j]@ == lowercased(contacts@[j].display_name@),
            q@ == qn,
            empty_query == (qn.len() == 0),
            out@ == order_choices(contacts@, matches_from(contacts@, source@, qn, i as int)),
            forall|j: int| 0 <= j < out.len() ==> #[trigger] out@[j].index < contacts.len(),
        decreases i,
    {
        i = i - 1;
        let c = &contacts[i];
        let is_person = is_text(c.source.as_str(), "person");
        let on_platform = match &c.platform {
            Some(p) => is_text(p.as_str(), source),
            None => false,
        };
        let score = if empty_query { Some(0) } else { score_contact(q.as_str(), c) };
        if !is_person && on_platform && score.is_some() {
            let x = ContactChoice { score: score.unwrap(), index: i };
            let mut p: usize = 0;
            while p < out.len() && !choice_le_exec(x, out[p], &names)
                invariant
                    p <= out.len(),
                    x.index < contacts.len(),
                    names.len() == contacts.len(),
                    forall|j: int| 0 <= j < contacts.len() ==> #[trigger] names@[j]@ == lowercased(contacts@[j].display_name@),
                    forall|j: int| 0 <= j < out.len() ==> #[trigger] out@[j].index < contacts.len(),
                    forall|j: int| 0 <= j < p ==> !choice_le(contacts@, x, #[trigger] out@[j]),
                decreases out.len() - p,
            {
                p = p + 1;
            }
            proof {
                lemma_place_choice_at(contacts@, out@, x, p as int);
                let m = matches_from(contacts@, source@, qn, i as int);
                assert(m.drop_first() == matches_from(contacts@, source@, qn, i + 1));
                assert(m[0] == x);
            }
            let ghost prev = out@;
            out.insert(p, x);
            assert(out@ =~= prev.take(p as int) + seq![x] + prev.skip(p as int));
        }
    }
    if out.len() > MAX_RESULTS {
        out.truncate(MAX_RESULTS);
    }
    out
}


/// The text order is antisymmetric.
pub proof fn lemma_text_le_antisym(a: Seq<char>, b: Seq<char>)
    requires
        text_le(a, b),
        text_le(b, a),
    ensures
        a == b,
    decreases a.len(),
{
    if a.len() == 0 {
        assert(b.len() == 0 || !text_le(b, a));
        assert(a =~= b);
    } else if b.len() == 0 {
    } else {
        lemma_text_le_antisym(a.drop_first(), b.drop_first());
        assert(a =~= seq![a[0]] + a.drop_first());
        assert(b =~= seq![b[0]] + b.drop_first());
    }
}

/// `a` comes strictly before `b` in text order.
pub open spec fn text_lt(a: Seq<char>, b: Seq<char>) -> bool {
    text_le(a, b) && a != b
}

/// Strictly increasing in text order, so each text once.
pub open spec fn strictly_sorted(s: Seq<Seq<char>>) -> bool {
    forall|i: int, j: int| 0 <= i < j < s.len() ==> text_lt(#[trigger] s[i], #[trigger] s[j])
}

/// Whether contact `c` offers a platform to pick from: a chat or contact
/// (not a person record) on a platform other than email.
pub open spec fn offers_platform(c: Contact, p: Seq<char>) -> bool {
    c.source@ != "person"@ && text_opt(c.platform) == Some(p) && p != "email"@
}

/// The platforms the contacts offer.
pub open spec fn platform_set(cs: Seq<Contact>) -> Set<Seq<char>> {
    Set::new(|p: Seq<char>| exists|i: int| 0 <= i < cs.len() && #[trigger] offers_platform(cs[i], p))
}

/// The texts of a list of char vectors.
pub open spec fn chars_list(v: Seq<Vec<char>>) -> Seq<Seq<char>> {
    v.map_values(|x: Vec<char>| x@)
}

/// The texts of a list of strings.
pub open spec fn texts(v: Seq<String>) -> Seq<Seq<char>> {
    v.map_values(|s: String| s@)
}

/// The platforms to pick from, besides email: those of the contacts that are
/// not person records, each once, in text order.
pub fn platform_options(contacts: &Vec<Contact>) -> (out: Vec<String>)
    ensures
        strictly_sorted(texts(out@)),
        texts(out@).to_set() == platform_set(contacts@),
{
    let mut acc: Vec<Vec<char>> = Vec::new();
    let mut i: usize = 0;
    while i < contacts.len()
        invariant
            i <= contacts.len(),
            strictly_sorted(chars_list(acc@)),
            forall|p: Seq<char>| #[trigger] chars_list(acc@).contains(p)
                <==> exists|k: int| 0 <= k < i && #[trigger] offers_platform(contacts@[k], p),
        decreases contacts.len() - i,
    {
        let c = &contacts[i];
        let ghost cur = chars_list(acc@);
        if !is_text(c.source.as_str(), "person") {
            if let Some(pl) = &c.platform {
                if !is_text(pl.as_str(), "email") {
                    let x = chars_of(pl.as_str());
                    assert(offers_platform(contacts@[i as int], x@));
                    let mut p: usize = 0;
                    while p < acc.len() && text_le_exec(acc[p].as_slice(), x.as_slice())
                        && !crate::text::same(acc[p].as_slice(), x.as_slice())
                        invariant
                            p <= acc.len(),
                            cur == chars_list(acc@),
                            forall|j: int| 0 <= j < p ==> text_lt(#[trigger] cur[j], x@),
                        decreases acc.len() - p,
                    {
                        assert(cur[p as int] == acc@[p as int]@);
                        p = p + 1;
                    }
                    let dup = p < acc.len() && crate::text::same(acc[p].as_slice(), x.as_slice());
                    if !dup {
                        proof {
                            if p < acc.len() {
                                assert(cur[p as int] == acc@[p as int]@);
                                lemma_text_le_total(cur[p as int], x@);
                                assert(text_lt(x@, cur[p as int]));
                                assert forall|j: int| p <= j < cur.len() implies text_lt(x@, #[trigger] cur[j]) by {
                                    if j > p {
                                        lemma_text_le_trans(x@, cur[p as int], cur[j]);
                                        if x@ == cur[j] {
                                            lemma_text_le_antisym(cur[p as int], cur[j]);
                                        }
                                    }
                                }
                            }
                        }
                        acc.insert(p, x);
                        proof {
                            let nv = chars_list(acc@);
                            assert(nv =~= cur.take(p as int) + seq![x@] + cur.skip(p as int));
                            assert forall|a: int, b: int| 0 <= a < b < nv.len() implies text_lt(#[trigger] nv[a], #[trigger] nv[b]) by {
                                if b < p {
                                    assert(nv[a] == cur[a] && nv[b] == cur[b]);
                                } else if b == p {
                                    assert(nv[a] == cur[a]);
                                } else if a < p {
                                    assert(nv[a] == cur[a] && nv[b] == cur[b - 1]);
                                    lemma_text_le_trans(cur[a], x@, cur[b - 1]);
                                    if cur[a] == cur[b - 1] {
                                        lemma_text_le_antisym(cur[a], x@);
                                    }
                                } else if a == p {
                                    assert(nv[b] == cur[b - 1]);
                                } else {
                                    assert(nv[a] == cur[a - 1] && nv[b] == cur[b - 1]);
                                }
                            }
                            assert forall|q: Seq<char>| #[trigger] nv.contains(q)
                                <==> exists|k: int| 0 <= k < i + 1 && #[trigger] offers_platform(contacts@[k], q) by {
                                if nv.contains(q) {
                                    let w = choose|w: int| 0 <= w < nv.len() && nv[w] == q;
                                    if w < p {
                                        assert(cur[w] == q && cur.contains(q));
                                    } else if w > p {
                                        assert(cur[w - 1] == q && cur.contains(q));
                                    }
                                }
                                if exists|k: int| 0 <= k < i + 1 && #[trigger] offers_platform(contacts@[k], q) {
                                    let k = choose|k: int| 0 <= k < i + 1 && #[trigger] offers_platform(contacts@[k], q);
                                    if k < i {
                                        assert(cur.contains(q));
                                        let w = choose|w: int| 0 <= w < cur.len() && cur[w] == q;
                                        if w < p {
                                            assert(nv[w] == q);
                                        } else {
                                            assert(nv[w + 1] == q);
                                        }
                                    } else {
                                        assert(q == x@);
                                        assert(nv[p as int] == q);
                                    }
                                }
                            }
                        }
                    } else {
                        proof {
                            assert(cur[p as int] == x@);
                            assert forall|q: Seq<char>| #[trigger] cur.contains(q)
                                <==> exists|k: int| 0 <= k < i + 1 && #[trigger] offers_platform(contacts@[k], q) by {
                                if exists|k: int| 0 <= k < i + 1 && #[trigger] offers_platform(contacts@[k], q) {
                                    let k = choose|k: int| 0 <= k < i + 1 && #[trigger] offers_platform(contacts@[k], q);
                                    if k == i {
                                        assert(q == x@);
                                    }
                                }
                            }
                        }
                    }
                }
            }
        }
        i = i + 1;
    }
    let mut out: Vec<String> = Vec::new();
    let mut j: usize = 0;
    while j < acc.len()
        invariant
            j <= acc.len(),
            out.len() == j,
            forall|k: int| 0 <= k < j ==> #[trigger] out@[k]@ == acc@[k]@,
        decreases acc.len() - j,
    {
        out.push(string_of(acc[j].as_slice()));
        j = j + 1;
    }
    proof {
        assert(texts(out@) =~= chars_list(acc@));
        assert(texts(out@).to_set() =~= platform_set(contacts@)) by {
            assert forall|q: Seq<char>| texts(out@).to_set().contains(q) <==> platform_set(contacts@).contains(q) by {
                assert(texts(out@).to_set().contains(q) <==> texts(out@).contains(q));
            }
        }
    }
    out
}


// ---------------------------------------------------------------------------
// The always-show list
// ---------------------------------------------------------------------------

/// Someone whose messages are always shown.
#[derive(Clone, Debug, PartialEq)]
pub struct AlwaysShowEntry {
    pub id: i32,
    pub platform: String,
    pub display_name: String,
    pub subtitle: String,
}

/// The position of the first entry with id `id`.
pub open spec fn entry_index(s: Seq<AlwaysShowEntry>, id: i32) -> Option<int>
    decreases s.len(),
{
    if s.len() == 0 {
        None
    } else if s.last().id == id {
        match entry_index(s.drop_last(), id) {
            Some(i) => Some(i),
            None => Some(s.len() - 1),
        }
    } else {
        entry_index(s.drop_last(), id)
    }
}

/// The list after the server stored `entry`: it replaces the first entry with
/// its id, or else goes first.
pub open spec fn upserted(s: Seq<AlwaysShowEntry>, entry: AlwaysShowEntry) -> Seq<AlwaysShowEntry> {
    match entry_index(s, entry.id) {
        Some(i) => s.update(i, entry),
        None => seq![entry] + s,
    }
}

proof fn lemma_entry_index(s: Seq<AlwaysShowEntry>, id: i32, i: int)
    requires
        0 <= i <= s.len(),
        forall|k: int| 0 <= k < i ==> #[trigger] s[k].id != id,
    ensures
        i < s.len() && s[i].id == id ==> entry_index(s, id) == Some(i),
        i == s.len() ==> entry_index(s, id) is None,
    decreases s.len(),
{
    if s.len() > 0 {
        if i < s.len() && s[i].id == id {
            if i < s.len() - 1 {
                lemma_entry_index(s.drop_last(), id, i);
            } else {
                lemma_entry_index(s.drop_last(), id, i);
            }
        } else if i == s.len() {
            lemma_entry_index(s.drop_last(), id, i - 1);
        }
    }
}

/// The list after the server stored `entry`.
pub fn upsert_entry(entries: Vec<AlwaysShowEntry>, entry: AlwaysShowEntry) -> (out: Vec<AlwaysShowEntry>)
    ensures
        out@ == upserted(entries@, entry),
{
    let mut entries = entries;
    let mut i: usize = 0;
    while i < entries.len() && entries[i].id != entry.id
        invariant
            i <= entries.len(),
            forall|k: int| 0 <= k < i ==> #[trigger] entries@[k].id != entry.id,
        decreases entries.len() - i,
    {
        i = i + 1;
    }
    proof {
        lemma_entry_index(entries@, entry.id, i as int);
    }
    if i < entries.len() {
        entries.set(i, entry);
        entries
    } else {
        let ghost before = entries@;
        entries.insert(0, entry);
        assert(entries@ =~= seq![entry] + before);
        entries
    }
}

/// The entries other than those with id `id`, in their order.
pub open spec fn without_entry(s: Seq<AlwaysShowEntry>, id: i32) -> Seq<AlwaysShowEntry>
    decreases s.len(),
{
    if s.len() == 0 {
        Seq::empty()
    } else if s[0].id != id {
        seq![s[0]] + without_entry(s.drop_first(), id)
    } else {
        without_entry(s.drop_first(), id)
    }
}

/// The list after the entry with id `id` was removed.
pub fn remove_entry(v: Vec<AlwaysShowEntry>, id: i32) -> (out: Vec<AlwaysShowEntry>)
    ensures
        out@ == without_entry(v@, id),
{
    let ghost orig = v@;
    let mut v = v;
    let mut out: Vec<AlwaysShowEntry> = Vec::new();
    assert(orig.skip(orig.len() as int) =~= Seq::<AlwaysShowEntry>::empty());
    while v.len() > 0
        invariant
            v@ == orig.take(v.len() as int),
            v.len() <= orig.len(),
            out@ == without_entry(orig.skip(v.len() as int), id),
        decreases v.len(),
    {
        let ghost i = (v.len() - 1) as int;
        let x = v.pop().unwrap();
        assert(orig.skip(i).drop_first() =~= orig.skip(i + 1));
        assert(orig.skip(i)[0] == x);
        assert(v@ =~= orig.take(i));
        if x.id != id {
            let ghost prev = out@;
            out.insert(0, x);
            assert(out@ =~= seq![x] + prev);
        }
    }
    assert(orig.skip(0) =~= orig);
    out
}

/// The endpoint that removes an entry.
pub fn entry_path(id: i32) -> (s: String)
    ensures
        s@ == "/api/always-show/"@ + dec_int(id as int),
{
    let mut v = chars_of("/api/always-show/");
    let d = dec_int_chars(id as i64);
    extend_chars(&mut v, d.as_slice());
    string_of(v.as_slice())
}

/// What the add button asks the server to store.
#[derive(Clone, Debug, PartialEq)]
pub enum AddRequest {
    /// An email address.
    Email(String),
    /// A contact or chat, with the delivery mode when it is a group.
    Platform { contact_id: String, group_mode: Option<String> },
}

/// How the server answered an added entry.
#[derive(Clone, Debug)]
pub enum AddReply {
    /// Stored, and this is the entry as stored.
    Stored(AlwaysShowEntry),
    /// Stored, but the answer could not be read.
    StoredUnreadable,
    /// Refused, with the server's error text when its answer had one.
    Refused(Option<String>),
    /// The request did not reach the server.
    Unreachable,
    /// The request could not be built.
    Unsent,
}

/// The panel where the user picks whose messages are always shown.
#[derive(Clone, Debug)]
pub struct AlwaysShowPanel {
    pub entries: Vec<AlwaysShowEntry>,
    pub contacts: Vec<Contact>,
    pub loading: bool,
    pub saving: bool,
    /// The entry being removed.
    pub removing: Option<i32>,
    pub error: Option<String>,
    /// "email", or the platform whose contacts are searched.
    pub source: String,
    /// The email address, or the search, as typed.
    pub query: String,
    /// The position of the chosen contact in `contacts`.
    pub selected: Option<usize>,
    pub results_open: bool,
    /// "all", or "mention_only" for groups where mentions are tracked.
    pub group_mode: String,
}

/// The add button is enabled: not while saving; for email, when the address
/// looks complete; otherwise when a contact is chosen.
pub open spec fn can_add_of(p: AlwaysShowPanel) -> bool {
    !p.saving && if p.source@ == "email"@ { email_addable(p.query@) } else { p.selected is Some }
}

impl AlwaysShowPanel {
    /// The panel while the list loads, searching email.
    pub fn new() -> (p: Self)
        ensures
            p.entries@.len() == 0 && p.contacts@.len() == 0 && p.loading && !p.saving,
            p.removing is None && p.error is None && p.source@ == "email"@ && p.query@.len() == 0,
            p.selected is None && !p.results_open && p.group_mode@ == "all"@,
    {
        AlwaysShowPanel {
            entries: Vec::new(),
            contacts: Vec::new(),
            loading: true,
            saving: false,
            removing: None,
            error: None,
            source: "email".to_owned(),
            query: String::new(),
            selected: None,
            results_open: false,
            group_mode: "all".to_owned(),
        }
    }

    /// The list and the contacts arrived (`None`: the list could not be
    /// loaded; contacts that could not be loaded are left empty).
    pub fn on_loaded(&mut self, entries: Option<Vec<AlwaysShowEntry>>, contacts: Option<Vec<Contact>>)
        ensures
            *final(self) == (AlwaysShowPanel {
                entries: match entries {
                    Some(e) => e,
                    None => old(self).entries,
                },
                contacts: match contacts {
                    Some(c) => c,
                    None => old(self).contacts,
                },
                error: final(self).error,
                loading: false,
                ..*old(self)
            }),
            entries is None ==> text_opt(final(self).error) == Some("Couldn't load your always-show list."@),
            entries is Some ==> final(self).error == old(self).error,
    {
        match entries {
            Some(e) => self.entries = e,
            None => self.error = Some("Couldn't load your always-show list.".to_owned()),
        }
        if let Some(c) = contacts {
            self.contacts = c;
        }
        self.loading = false;
    }

    /// Another source was chosen: the form starts over.
    pub fn choose_source(&mut self, source: String)
        ensures
            *final(self) == (AlwaysShowPanel {
                source,
                query: final(self).query,
                selected: None,
                results_open: false,
                group_mode: final(self).group_mode,
                ..*old(self)
            }),
            final(self).query@.len() == 0,
            final(self).group_mode@ == "all"@,
    {
        self.source = source;
        self.query = String::new();
        self.selected = None;
        self.results_open = false;
        self.group_mode = "all".to_owned();
    }

    /// The email address as typed.
    pub fn type_email(&mut self, text: String)
        ensures
            *final(self) == (AlwaysShowPanel { query: text, ..*old(self) }),
    {
        self.query = text;
    }

    /// The search as typed: any chosen contact is dropped and the results open.
    pub fn type_search(&mut self, text: String)
        ensures
            *final(self) == (AlwaysShowPanel {
                query: text,
                selected: None,
                results_open: true,
                group_mode: final(self).group_mode,
                ..*old(self)
            }),
            final(self).group_mode@ == "all"@,
    {
        self.query = text;
        self.selected = None;
        self.results_open = true;
        self.group_mode = "all".to_owned();
    }

    /// The search box got the focus.
    pub fn open_results(&mut self)
        ensures
            *final(self) == (AlwaysShowPanel { results_open: true, ..*old(self) }),
    {
        self.results_open = true;
    }

    /// A result was chosen: its name fills the search and the results close.
    pub fn pick(&mut self, index: usize)
        requires
            index < old(self).contacts.len(),
        ensures
            *final(self) == (AlwaysShowPanel {
                query: final(self).query,
                selected: Some(index),
                results_open: false,
                group_mode: final(self).group_mode,
                ..*old(self)
            }),
            final(self).query@ == old(self).contacts@[index as int].display_name@,
            final(self).group_mode@ == "all"@,
    {
        self.query = self.contacts[index].display_name.clone();
        self.selected = Some(index);
        self.results_open = false;
        self.group_mode = "all".to_owned();
    }

    /// The group delivery mode was chosen.
    pub fn set_group_mode(&mut self, mode: String)
        ensures
            *final(self) == (AlwaysShowPanel { group_mode: mode, ..*old(self) }),
    {
        self.group_mode = mode;
    }

    /// The search results for the current source and search.
    pub fn results(&self) -> (out: Vec<ContactChoice>)
        ensures
            out@ == results_of(self.contacts@, self.source@, self.query@),
    {
        contact_choices(&self.contacts, self.source.as_str(), self.query.as_str())
    }

    /// Whether the chosen contact is a group.
    pub open spec fn selected_is_group(self) -> bool {
        self.selected matches Some(i) && 0 <= i < self.contacts.len() && self.contacts@[i as int].is_group
    }

    /// Whether the chosen contact is a group.
    pub fn chosen_is_group(&self) -> (b: bool)
        ensures
            b == self.selected_is_group(),
    {
        match self.selected {
            Some(i) => i < self.contacts.len() && self.contacts[i].is_group,
            None => false,
        }
    }

    /// Whether "mentions only" can be offered: for a chosen group on WhatsApp.
    pub fn mentions_supported(&self) -> (b: bool)
        ensures
            b == (self.selected_is_group() && self.source@ == "whatsapp"@),
    {
        self.chosen_is_group() && crate::contacts::platform_supports_mentions(self.source.as_str())
    }

    /// Whether the add button is enabled.
    pub fn can_add(&self) -> (b: bool)
        ensures
            b == can_add_of(*self),
    {
        !self.saving && if is_text(self.source.as_str(), "email") {
            email_looks_addable(self.query.as_str())
        } else {
            self.selected.is_some()
        }
    }

    /// What a result shows under its name: its subtitle, else the platform.
    pub fn result_subtitle(&self, index: usize) -> (s: String)
        requires
            index < self.contacts.len(),
        ensures
            s@ == match self.contacts@[index as int].subtitle {
                Some(t) => t@,
                None => label_of(self.source@),
            },
    {
        match &self.contacts[index].subtitle {
            Some(t) => t.clone(),
            None => platform_label(self.source.as_str()),
        }
    }

    /// The add button was pressed: returns what to store, or nothing while
    /// saving or when no contact is chosen. Email sends the trimmed address; a
    /// contact sends its id, and the delivery mode when it is a group.
    pub fn press_add(&mut self) -> (req: Option<AddRequest>)
        ensures
            old(self).saving ==> req is None && *final(self) == *old(self),
            !old(self).saving && old(self).source@ == "email"@ ==> {
                &&& req matches Some(AddRequest::Email(e)) && e@ == trim(old(self).query@)
                &&& *final(self) == (AlwaysShowPanel { saving: true, error: None, ..*old(self) })
            },
            !old(self).saving && old(self).source@ != "email"@ ==> match old(self).selected {
                Some(i) if i < old(self).contacts.len() => {
                    &&& req matches Some(AddRequest::Platform { contact_id, group_mode })
                        && contact_id@ == old(self).contacts@[i as int].id@
                        && text_opt(group_mode) == if old(self).contacts@[i as int].is_group {
                            Some(old(self).group_mode@)
                        } else {
                            None
                        }
                    &&& *final(self) == (AlwaysShowPanel { saving: true, error: None, ..*old(self) })
                },
                _ => req is None && *final(self) == *old(self),
            },
    {
        if self.saving {
            return None;
        }
        let req = if is_text(self.source.as_str(), "email") {
            let q = chars_of(self.query.as_str());
            let t = trimmed(q.as_slice());
            AddRequest::Email(string_of(t.as_slice()))
        } else {
            match self.selected {
                Some(i) => {
                    if i < self.contacts.len() {
                        let c = &self.contacts[i];
                        AddRequest::Platform {
                            contact_id: c.id.clone(),
                            group_mode: if c.is_group { Some(self.group_mode.clone()) } else { None },
                        }
                    } else {
                        return None;
                    }
                },
                None => return None,
            }
        };
        self.saving = true;
        self.error = None;
        Some(req)
    }

    /// The server answered the add. A stored entry joins the list and the form
    /// starts over; a refusal shows the server's error or a generic one.
    pub fn on_added(&mut self, reply: AddReply)
        ensures
            match reply {
                AddReply::Stored(e) => {
                    &&& *final(self) == (AlwaysShowPanel {
                        entries: final(self).entries,
                        query: final(self).query,
                        selected: None,
                        results_open: false,
                        group_mode: final(self).group_mode,
                        saving: false,
                        ..*old(self)
                    })
                    &&& final(self).entries@ == upserted(old(self).entries@, e)
                    &&& final(self).query@.len() == 0
                    &&& final(self).group_mode@ == "all"@
                },
                AddReply::StoredUnreadable => *final(self) == (AlwaysShowPanel { saving: false, ..*old(self) }),
                AddReply::Refused(m) => {
                    &&& *final(self) == (AlwaysShowPanel { error: final(self).error, saving: false, ..*old(self) })
                    &&& text_opt(final(self).error) == Some(
                        match m {
                            Some(t) => t@,
                            None => "Couldn't save this entry."@,
                        },
                    )
                },
                AddReply::Unreachable => {
                    &&& *final(self) == (AlwaysShowPanel { error: final(self).error, saving: false, ..*old(self) })
                    &&& text_opt(final(self).error) == Some("Couldn't save this entry."@)
                },
                AddReply::Unsent => {
                    &&& *final(self) == (AlwaysShowPanel { error: final(self).error, saving: false, ..*old(self) })
                    &&& text_opt(final(self).error) == Some("Couldn't prepare this entry."@)
                },
            },
    {
        match reply {
            AddReply::Stored(e) => {
                let mut list = Vec::new();
                std::mem::swap(&mut list, &mut self.entries);
                self.entries = upsert_entry(list, e);
                self.query = String::new();
                self.selected = None;
                self.results_open = false;
                self.group_mode = "all".to_owned();
            },
            AddReply::StoredUnreadable => {},
            AddReply::Refused(m) => {
                self.error = Some(
                    match m {
                        Some(t) => t,
                        None => "Couldn't save this entry.".to_owned(),
                    },
                );
            },
            AddReply::Unreachable => {
                self.error = Some("Couldn't save this entry.".to_owned());
            },
            AddReply::Unsent => {
                self.error = Some("Couldn't prepare this entry.".to_owned());
            },
        }
        self.saving = false;
    }

    /// The remove button of entry `id` was pressed: returns the endpoint to call.
    pub fn press_remove(&mut self, id: i32) -> (path: String)
        ensures
            path@ == "/api/always-show/"@ + dec_int(id as int),
            *final(self) == (AlwaysShowPanel { removing: Some(id), error: None, ..*old(self) }),
    {
        self.removing = Some(id);
        self.error = None;
        entry_path(id)
    }

    /// The server answered the removal of entry `id`.
    pub fn on_removed(&mut self, id: i32, removed: bool)
        ensures
            removed ==> {
                &&& *final(self) == (AlwaysShowPanel { entries: final(self).entries, removing: None, ..*old(self) })
                &&& final(self).entries@ == without_entry(old(self).entries@, id)
            },
            !removed ==> {
                &&& *final(self) == (AlwaysShowPanel { error: final(self).error, removing: None, ..*old(self) })
                &&& text_opt(final(self).error) == Some("Couldn't remove this entry."@)
            },
    {
        if removed {
            let mut list = Vec::new();
            std::mem::swap(&mut list, &mut self.entries);
            self.entries = remove_entry(list, id);
        } else {
            self.error = Some("Couldn't remove this entry.".to_owned());
        }
        self.removing = None;
    }
}

/// What the add button says.
pub fn add_button_text(saving: bool) -> (s: &'static str)
    ensures
        s@ == if saving { "Adding…"@ } else { "Add to always show"@ },
{
    if saving { "Adding…" } else { "Add to always show" }
}

/// What an entry's remove button says.
pub fn remove_button_text(removing: Option<i32>, id: i32) -> (s: &'static str)
    ensures
        s@ == if removing == Some(id) { "…"@ } else { "Remove"@ },
{
    if removing == Some(id) { "…" } else { "Remove" }
}

/// The search box's placeholder.
pub fn search_placeholder(source: &str) -> (s: String)
    ensures
        s@ == "Search "@ + label_of(source@) + " contacts and chats"@,
{
    let mut v = chars_of("Search ");
    let l = platform_label(source);
    crate::text::extend_str(&mut v, l.as_str());
    crate::text::extend_str(&mut v, " contacts and chats");
    string_of(v.as_slice())
}


// ---------------------------------------------------------------------------
// Laws
// ---------------------------------------------------------------------------

/// Listed in order: each result no later than every result after it.
pub open spec fn sorted_choices(cs: Seq<Contact>, s: Seq<ContactChoice>) -> bool {
    forall|i: int, j: int| 0 <= i < j < s.len() ==> choice_le(cs, #[trigger] s[i], #[trigger] s[j])
}

/// A choice is a matching contact of the source, with its score.
pub open spec fn genuine(cs: Seq<Contact>, source: Seq<char>, query: Seq<char>, c: ContactChoice) -> bool {
    &&& 0 <= c.index < cs.len()
    &&& offered(cs[c.index as int], source)
    &&& choice_score(query, cs[c.index as int]) == Some(c.score)
}

proof fn lemma_choice_le_total(cs: Seq<Contact>, a: ContactChoice, b: ContactChoice)
    ensures
        choice_le(cs, a, b) || choice_le(cs, b, a),
{
    lemma_text_le_total(lowercased(cs[a.index as int].display_name@), lowercased(cs[b.index as int].display_name@));
}

proof fn lemma_choice_le_trans(cs: Seq<Contact>, a: ContactChoice, b: ContactChoice, c: ContactChoice)
    requires
        choice_le(cs, a, b),
        choice_le(cs, b, c),
    ensures
        choice_le(cs, a, c),
{
    if a.score == b.score && b.score == c.score {
        lemma_text_le_trans(
            lowercased(cs[a.index as int].display_name@),
            lowercased(cs[b.index as int].display_name@),
            lowercased(cs[c.index as int].display_name@),
        );
    }
}

proof fn lemma_ms_cons<A>(s: Seq<A>)
    requires
        s.len() > 0,
    ensures
        s.to_multiset() =~= s.drop_first().to_multiset().insert(s[0]),
{
    broadcast use vstd::seq_lib::group_to_multiset_ensures;
    broadcast use vstd::multiset::group_multiset_axioms;
    assert(s.remove(0) =~= s.drop_first());
    assert(s.contains(s[0]));
    assert(s.to_multiset().count(s[0]) > 0);
}

proof fn lemma_ms_empty<A>(s: Seq<A>)
    requires
        s.len() == 0,
    ensures
        s.to_multiset() =~= vstd::multiset::Multiset::empty(),
{
    broadcast use vstd::seq_lib::group_to_multiset_ensures;
    vstd::multiset::lemma_multiset_empty_len(s.to_multiset());
}

proof fn lemma_place_choice(cs: Seq<Contact>, s: Seq<ContactChoice>, x: ContactChoice, b: Option<ContactChoice>)
    requires
        sorted_choices(cs, s),
        b matches Some(bb) ==> choice_le(cs, bb, x) && forall|j: int| 0 <= j < s.len() ==> choice_le(cs, bb, #[trigger] s[j]),
    ensures
        sorted_choices(cs, place_choice(cs, s, x)),
        place_choice(cs, s, x).to_multiset() == s.to_multiset().insert(x),
        b matches Some(bb) ==> forall|k: int| 0 <= k < place_choice(cs, s, x).len()
            ==> choice_le(cs, bb, #[trigger] place_choice(cs, s, x)[k]),
    decreases s.len(),
{
    broadcast use vstd::multiset::group_multiset_axioms;
    let r = place_choice(cs, s, x);
    if s.len() == 0 {
        lemma_ms_cons(r);
        lemma_ms_empty(r.drop_first());
        lemma_ms_empty(s);
    } else if choice_le(cs, x, s[0]) {
        assert(r == seq![x] + s);
        assert forall|i: int, j: int| 0 <= i < j < r.len() implies choice_le(cs, #[trigger] r[i], #[trigger] r[j]) by {
            if i == 0 {
                assert(r[j] == s[j - 1]);
                if j - 1 > 0 {
                    lemma_choice_le_trans(cs, x, s[0], s[j - 1]);
                }
            } else {
                assert(r[i] == s[i - 1]);
                assert(r[j] == s[j - 1]);
            }
        }
        assert(r.drop_first() =~= s);
        lemma_ms_cons(r);
        if b is Some {
            assert forall|k: int| 0 <= k < r.len() implies choice_le(cs, b->0, #[trigger] r[k]) by {
                if k > 0 {
                    assert(r[k] == s[k - 1]);
                }
            }
        }
    } else {
        let t = s.drop_first();
        assert(sorted_choices(cs, t)) by {
            assert forall|i: int, j: int| 0 <= i < j < t.len() implies choice_le(cs, #[trigger] t[i], #[trigger] t[j]) by {
                assert(t[i] == s[i + 1]);
                assert(t[j] == s[j + 1]);
            }
        }
        lemma_choice_le_total(cs, x, s[0]);
        assert forall|j: int| 0 <= j < t.len() implies choice_le(cs, s[0], #[trigger] t[j]) by {
            assert(t[j] == s[j + 1]);
        }
        lemma_place_choice(cs, t, x, Some(s[0]));
        let pt = place_choice(cs, t, x);
        assert(r == seq![s[0]] + pt);
        assert forall|i: int, j: int| 0 <= i < j < r.len() implies choice_le(cs, #[trigger] r[i], #[trigger] r[j]) by {
            assert(r[j] == pt[j - 1]);
            if i > 0 {
                assert(r[i] == pt[i - 1]);
            }
        }
        assert(r.drop_first() =~= pt);
        lemma_ms_cons(s);
        lemma_ms_cons(r);
        assert(r.to_multiset() =~= s.to_multiset().insert(x));
        if b is Some {
            assert forall|k: int| 0 <= k < r.len() implies choice_le(cs, b->0, #[trigger] r[k]) by {
                if k > 0 {
                    assert(r[k] == pt[k - 1]);
                    lemma_place_choice(cs, t, x, b);
                } else {
                    assert(r[0] == s[0]);
                }
            }
        }
    }
}

proof fn lemma_order_choices(cs: Seq<Contact>, s: Seq<ContactChoice>)
    ensures
        sorted_choices(cs, order_choices(cs, s)),
        order_choices(cs, s).to_multiset() == s.to_multiset(),
    decreases s.len(),
{
    if s.len() == 0 {
        lemma_ms_empty(s);
        lemma_ms_empty(order_choices(cs, s));
    } else {
        lemma_order_choices(cs, s.drop_first());
        lemma_place_choice(cs, order_choices(cs, s.drop_first()), s[0], None);
        lemma_ms_cons(s);
    }
}

proof fn lemma_matches_genuine(cs: Seq<Contact>, source: Seq<char>, query: Seq<char>, from: int)
    requires
        0 <= from,
        cs.len() <= usize::MAX,
    ensures
        forall|k: int| 0 <= k < matches_from(cs, source, query, from).len()
            ==> genuine(cs, source, query, #[trigger] matches_from(cs, source, query, from)[k]),
    decreases cs.len() - from,
{
    if from < cs.len() {
        lemma_matches_genuine(cs, source, query, from + 1);
        let m = matches_from(cs, source, query, from);
        let rest = matches_from(cs, source, query, from + 1);
        if offered(cs[from], source) && choice_score(query, cs[from]) is Some {
            assert forall|k: int| 0 <= k < m.len() implies genuine(cs, source, query, #[trigger] m[k]) by {
                if k > 0 {
                    assert(m[k] == rest[k - 1]);
                }
            }
        }
    }
}

/// The search shows at most fifty results, best match first and then by
/// lowercased name; every result is a contact of the chosen platform (not a
/// person record) that matches the trimmed, lowercased search, shown with its
/// score; and when at most fifty match, each of them is shown.
pub proof fn law_search_results(cs: Seq<Contact>, source: Seq<char>, query: Seq<char>)
    requires
        cs.len() <= usize::MAX,
    ensures
        results_of(cs, source, query).len() <= MAX_RESULTS,
        sorted_choices(cs, results_of(cs, source, query)),
        forall|k: int| 0 <= k < results_of(cs, source, query).len()
            ==> genuine(cs, source, normalized(query), #[trigger] results_of(cs, source, query)[k]),
        matches_from(cs, source, normalized(query), 0).len() <= MAX_RESULTS
            ==> results_of(cs, source, query).to_multiset() == matches_from(cs, source, normalized(query), 0).to_multiset(),
{
    broadcast use vstd::seq_lib::group_to_multiset_ensures;
    let m = matches_from(cs, source, normalized(query), 0);
    let all = order_choices(cs, m);
    lemma_order_choices(cs, m);
    lemma_matches_genuine(cs, source, normalized(query), 0);
    assert forall|k: int| 0 <= k < all.len() implies genuine(cs, source, normalized(query), #[trigger] all[k]) by {
        assert(all.to_multiset().count(all[k]) > 0);
        assert(m.to_multiset().count(all[k]) > 0);
        assert(m.contains(all[k]));
        let w = choose|w: int| 0 <= w < m.len() && m[w] == all[k];
        assert(genuine(cs, source, normalized(query), m[w]));
    }
    let r = results_of(cs, source, query);
    if all.len() > MAX_RESULTS {
        assert forall|k: int| 0 <= k < r.len() implies genuine(cs, source, normalized(query), #[trigger] r[k]) by {
            assert(r[k] == all[k]);
        }
        assert forall|i: int, j: int| 0 <= i < j < r.len() implies choice_le(cs, #[trigger] r[i], #[trigger] r[j]) by {
            assert(r[i] == all[i] && r[j] == all[j]);
        }
    }
    assert(m.to_multiset().len() == m.len());
    assert(all.to_multiset().len() == all.len());
}

proof fn lemma_entry_index_found(s: Seq<AlwaysShowEntry>, id: i32)
    ensures
        entry_index(s, id) matches Some(i) ==> 0 <= i < s.len() && s[i].id == id,
    decreases s.len(),
{
    if s.len() > 0 {
        lemma_entry_index_found(s.drop_last(), id);
    }
}

proof fn lemma_without_entry(s: Seq<AlwaysShowEntry>, id: i32)
    ensures
        forall|k: int| 0 <= k < without_entry(s, id).len() ==> #[trigger] without_entry(s, id)[k].id != id,
        forall|e: AlwaysShowEntry| #[trigger] s.contains(e) && e.id != id ==> without_entry(s, id).contains(e),
    decreases s.len(),
{
    if s.len() > 0 {
        let t = s.drop_first();
        lemma_without_entry(t, id);
        let w = without_entry(t, id);
        let r = without_entry(s, id);
        if s[0].id != id {
            assert(r == seq![s[0]] + w);
            assert forall|k: int| 0 <= k < r.len() implies #[trigger] r[k].id != id by {
                if k > 0 {
                    assert(r[k] == w[k - 1]);
                }
            }
        } else {
            assert(r == w);
        }
        assert forall|e: AlwaysShowEntry| #[trigger] s.contains(e) && e.id != id implies r.contains(e) by {
            let i = choose|i: int| 0 <= i < s.len() && s[i] == e;
            if i == 0 {
                assert(r[0] == e);
            } else {
                assert(t[i - 1] == e);
                assert(t.contains(e));
                assert(w.contains(e));
                let k = choose|k: int| 0 <= k < w.len() && w[k] == e;
                if s[0].id != id {
                    assert(r[k + 1] == e);
                } else {
                    assert(r[k] == e);
                }
            }
        }
    }
}

/// An entry the server stored is listed, and so is every entry with another
/// id; after a removal no entry with the removed id is listed, and every
/// other entry still is.
pub proof fn law_added_entry_listed_and_removed_gone(s: Seq<AlwaysShowEntry>, entry: AlwaysShowEntry, id: i32)
    ensures
        upserted(s, entry).contains(entry),
        forall|e: AlwaysShowEntry| #[trigger] s.contains(e) && e.id != entry.id ==> upserted(s, entry).contains(e),
        forall|k: int| 0 <= k < without_entry(s, id).len() ==> #[trigger] without_entry(s, id)[k].id != id,
        forall|e: AlwaysShowEntry| #[trigger] s.contains(e) && e.id != id ==> without_entry(s, id).contains(e),
{
    lemma_entry_index_found(s, entry.id);
    lemma_without_entry(s, id);
    let u = upserted(s, entry);
    match entry_index(s, entry.id) {
        Some(i) => {
            assert(u[i] == entry);
            assert forall|e: AlwaysShowEntry| #[trigger] s.contains(e) && e.id != entry.id implies u.contains(e) by {
                let j = choose|j: int| 0 <= j < s.len() && s[j] == e;
                assert(j != i);
                assert(u[j] == e);
            }
        },
        None => {
            assert(u[0] == entry);
            assert forall|e: AlwaysShowEntry| #[trigger] s.contains(e) && e.id != entry.id implies u.contains(e) by {
                let j = choose|j: int| 0 <= j < s.len() && s[j] == e;
                assert(u[j + 1] == e);
            }
        },
    }
}

} // verus!
