use vstd::prelude::*;
use crate::text::{
    chars_of, dec, dec_int, dec_int_chars, digits, extend_chars, int_text, is_space, parse_i64,
    parsed_i64, string_of, trim, trim_end, trim_start, trimmed,
};

verus! {

/// The pieces of `s` between the `sep` chars (`str::split` at a char).
pub open spec fn split_at_char(s: Seq<char>, sep: char) -> Seq<Seq<char>>
    decreases s.len(),
{
    if s.len() == 0 {
        seq![Seq::empty()]
    } else {
        let w = split_at_char(s.drop_last(), sep);
        if s.last() == sep {
            w.push(Seq::empty())
        } else {
            w.update(w.len() - 1, w.last().push(s.last()))
        }
    }
}

/// Splitting always yields at least one piece.
pub proof fn lemma_split_nonempty(s: Seq<char>, sep: char)
    ensures
        split_at_char(s, sep).len() >= 1,
    decreases s.len(),
{
    if s.len() > 0 {
        lemma_split_nonempty(s.drop_last(), sep);
    }
}

/// `xs` without repeats, first occurrences kept in order.
pub open spec fn unique(xs: Seq<i64>) -> Seq<i64>
    decreases xs.len(),
{
    if xs.len() == 0 {
        Seq::empty()
    } else if unique(xs.drop_last()).contains(xs.last()) {
        unique(xs.drop_last())
    } else {
        unique(xs.drop_last()).push(xs.last())
    }
}

/// The ids that parse among `parts`, trimmed, in order.
pub open spec fn parsed_ids(parts: Seq<Seq<char>>) -> Seq<i64>
    decreases parts.len(),
{
    if parts.len() == 0 {
        Seq::empty()
    } else {
        let rest = parsed_ids(parts.drop_last());
        match parsed_i64(trim(parts.last())) {
            Some(v) => rest.push(v),
            None => rest,
        }
    }
}

/// The dismissed message ids stored as comma-separated text: each part that
/// parses as an integer after trimming, each id once.
pub open spec fn dismissed_of(stored: Seq<char>) -> Seq<i64> {
    unique(parsed_ids(split_at_char(stored, ',')))
}

/// The stored text for a list of ids: their decimal forms joined by commas.
pub open spec fn stored_of(ids: Seq<i64>) -> Seq<char>
    decreases ids.len(),
{
    if ids.len() == 0 {
        Seq::empty()
    } else if ids.len() == 1 {
        dec_int(ids[0] as int)
    } else {
        stored_of(ids.drop_last()) + seq![','] + dec_int(ids.last() as int)
    }
}

/// The dismissed message ids recorded in the stored text.
pub fn parse_dismissed_ids(stored: &str) -> (ids: Vec<i64>)
    ensures
        ids@ == dismissed_of(stored@),
{
    let s = chars_of(stored);
    let mut parts: Vec<Vec<char>> = Vec::new();
    parts.push(Vec::new());
    assert(parts@.map_values(|p: Vec<char>| p@) =~= split_at_char(s@.take(0), ','));
    let mut i: usize = 0;
    while i < s.len()
        invariant
            i <= s.len(),
            s@ == stored@,
            parts@.map_values(|p: Vec<char>| p@) == split_at_char(s@.take(i as int), ','),
        decreases s.len() - i,
    {
        let ghost pv0 = parts@.map_values(|p: Vec<char>| p@);
        let ghost t = s@.take(i + 1);
        assert(t.drop_last() == s@.take(i as int));
        assert(t.last() == s@[i as int]);
        proof {
            lemma_split_nonempty(s@.take(i as int), ',');
        }
        let c = s[i];
        if c == ',' {
            parts.push(Vec::new());
            assert(parts@.map_values(|p: Vec<char>| p@) =~= pv0.push(Seq::empty()));
        } else {
            let n = parts.len();
            let mut last = parts.pop().unwrap();
            last.push(c);
            parts.push(last);
            assert(parts@.map_values(|p: Vec<char>| p@) =~= pv0.update(pv0.len() - 1, pv0.last().push(c)));
        }
        i = i + 1;
    }
    assert(s@.take(s.len() as int) == s@);
    let ghost pv = parts@.map_values(|p: Vec<char>| p@);
    let mut ids: Vec<i64> = Vec::new();
    let mut found: Vec<i64> = Vec::new();
    let mut i: usize = 0;
    while i < parts.len()
        invariant
            i <= parts.len(),
            pv == parts@.map_values(|p: Vec<char>| p@),
            found@ == parsed_ids(pv.take(i as int)),
            ids@ == unique(found@),
        decreases parts.len() - i,
    {
        assert(pv.take(i + 1).drop_last() == pv.take(i as int));
        let t = trimmed(parts[i].as_slice());
        let ts = string_of(t.as_slice());
        match parse_i64(ts.as_str()) {
            Some(v) => {
                found.push(v);
                assert(found@.drop_last() == parsed_ids(pv.take(i as int)));
                if !contains_id(&ids, v) {
                    ids.push(v);
                }
            },
            None => {},
        }
        i = i + 1;
    }
    assert(pv.take(parts.len() as int) == pv);
    ids
}

fn contains_id(ids: &Vec<i64>, v: i64) -> (b: bool)
    ensures
        b == ids@.contains(v),
{
    let mut i: usize = 0;
    while i < ids.len()
        invariant
            i <= ids.len(),
            forall|k: int| 0 <= k < i ==> ids@[k] != v,
        decreases ids.len() - i,
    {
        if ids[i] == v {
            assert(ids@[i as int] == v);
            return true;
        }
        i = i + 1;
    }
    false
}

/// The text stored for a list of dismissed ids.
pub fn serialize_dismissed_ids(ids: &Vec<i64>) -> (s: String)
    ensures
        s@ == stored_of(ids@),
{
    let mut v: Vec<char> = Vec::new();
    let mut i: usize = 0;
    while i < ids.len()
        invariant
            i <= ids.len(),
            v@ == stored_of(ids@.take(i as int)),
        decreases ids.len() - i,
    {
        assert(ids@.take(i + 1).drop_last() == ids@.take(i as int));
        if i != 0 {
            v.push(',');
        }
        let d = dec_int_chars(ids[i]);
        extend_chars(&mut v, d.as_slice());
        if i == 0 {
            assert(v@ == stored_of(ids@.take(1)));
        }
        i = i + 1;
    }
    assert(ids@.take(ids.len() as int) == ids@);
    string_of(v.as_slice())
}

/// `ids` with `id` added at the end when it is not already there.
pub open spec fn with_id(ids: Seq<i64>, id: i64) -> Seq<i64> {
    if ids.contains(id) { ids } else { ids.push(id) }
}

/// The stored text after one more message is dismissed: the stored ids with
/// `id` added when it is not already there.
pub fn dismiss_message(stored: &str, id: i64) -> (s: String)
    ensures
        s@ == stored_of(with_id(dismissed_of(stored@), id)),
{
    let mut ids = parse_dismissed_ids(stored);
    if !contains_id(&ids, id) {
        ids.push(id);
    }
    serialize_dismissed_ids(&ids)
}

// ---------------------------------------------------------------------------
// Reading back what was stored
// ---------------------------------------------------------------------------

/// Appending text without separators extends the last piece.
proof fn lemma_split_append(a: Seq<char>, b: Seq<char>, sep: char)
    requires
        !b.contains(sep),
    ensures
        split_at_char(a + b, sep) == split_at_char(a, sep).update(
            split_at_char(a, sep).len() - 1,
            split_at_char(a, sep).last() + b,
        ),
    decreases b.len(),
{
    lemma_split_nonempty(a, sep);
    if b.len() == 0 {
        assert(a + b == a);
        assert(split_at_char(a, sep).last() + b == split_at_char(a, sep).last());
        assert(split_at_char(a, sep).update(split_at_char(a, sep).len() - 1, split_at_char(a, sep).last())
            =~= split_at_char(a, sep));
    } else {
        let b0 = b.drop_last();
        assert(!b0.contains(sep)) by {
            if b0.contains(sep) {
                let k = choose|k: int| 0 <= k < b0.len() && b0[k] == sep;
                assert(b[k] == sep);
            }
        }
        assert(b.last() != sep) by {
            assert(b[b.len() - 1] == b.last());
        }
        lemma_split_append(a, b0, sep);
        assert((a + b).drop_last() == a + b0);
        assert((a + b).last() == b.last());
        let w = split_at_char(a, sep);
        let u = split_at_char(a + b0, sep);
        let c = b.last();
        assert(u.len() == w.len());
        assert(u.last() == w.last() + b0);
        assert((a + b).len() > 0);
        assert(split_at_char(a + b, sep) == u.update(u.len() - 1, u.last().push(c)));
        assert((w.last() + b0).push(c) =~= w.last() + b);
        assert(u.update(u.len() - 1, u.last().push(c)) =~= w.update(w.len() - 1, w.last() + b));
    }
}

/// Decimal text holds no comma.
proof fn lemma_dec_int_no_comma(x: int)
    ensures
        !dec_int(x).contains(','),
        dec_int(x).len() > 0,
{
    if x < 0 {
        crate::text::lemma_dec((-x) as nat);
        let s = dec_int(x);
        assert forall|k: int| 0 <= k < s.len() implies s[k] != ',' by {
            if k > 0 {
                assert(s[k] == dec((-x) as nat)[k - 1]);
            }
        }
    } else {
        crate::text::lemma_dec(x as nat);
        let s = dec_int(x);
        assert forall|k: int| 0 <= k < s.len() implies s[k] != ',' by {
            assert('0' <= s[k] <= '9');
        }
    }
}

/// Splitting stored text gives back the decimal form of each id.
proof fn lemma_split_stored(ids: Seq<i64>)
    requires
        ids.len() > 0,
    ensures
        split_at_char(stored_of(ids), ',') == ids.map_values(|x: i64| dec_int(x as int)),
    decreases ids.len(),
{
    if ids.len() == 1 {
        lemma_dec_int_no_comma(ids[0] as int);
        let e = Seq::<char>::empty();
        lemma_split_append(e, dec_int(ids[0] as int), ',');
        assert(e + dec_int(ids[0] as int) == dec_int(ids[0] as int));
        assert(split_at_char(e, ',') =~= seq![e]);
        assert(split_at_char(stored_of(ids), ',') =~= ids.map_values(|x: i64| dec_int(x as int)));
    } else {
        let front = stored_of(ids.drop_last());
        let last = dec_int(ids.last() as int);
        lemma_split_stored(ids.drop_last());
        lemma_dec_int_no_comma(ids.last() as int);
        lemma_split_append(front + seq![','], last, ',');
        assert((front + seq![',']).drop_last() == front);
        assert(split_at_char(front + seq![','], ',') == split_at_char(front, ',').push(Seq::empty()));
        let w = split_at_char(front, ',').push(Seq::<char>::empty());
        assert(Seq::<char>::empty() + last == last);
        assert(w.update(w.len() - 1, w.last() + last) =~= split_at_char(front, ',').push(last));
        assert(ids.map_values(|x: i64| dec_int(x as int)) =~= ids.drop_last().map_values(|x: i64| dec_int(x as int)).push(last));
    }
}

/// An id written in decimal reads back as itself.
proof fn lemma_read_back(x: i64)
    ensures
        parsed_i64(trim(dec_int(x as int))) == Some(x),
{
    let s = dec_int(x as int);
    if x < 0 {
        crate::text::lemma_dec((-x) as nat);
        assert(s.drop_first() == dec((-x) as nat));
        assert(!is_space(s[0]));
        assert(!is_space(s.last())) by {
            assert(s.last() == dec((-x) as nat).last());
        }
    } else {
        crate::text::lemma_dec(x as nat);
        assert(!is_space(s[0]));
        assert(!is_space(s.last()));
    }
    assert(trim_start(s) == s);
    assert(trim_end(s) == s);
    assert(digits(dec((if x < 0 { -x } else { x as int }) as nat)));
}

/// Without repeats, `unique` changes nothing.
proof fn lemma_unique_id(xs: Seq<i64>)
    requires
        xs.no_duplicates(),
    ensures
        unique(xs) == xs,
    decreases xs.len(),
{
    if xs.len() > 0 {
        let front = xs.drop_last();
        assert(front.no_duplicates());
        lemma_unique_id(front);
        assert(!front.contains(xs.last())) by {
            if front.contains(xs.last()) {
                let k = choose|k: int| 0 <= k < front.len() && front[k] == xs.last();
                assert(xs[k] == xs[xs.len() - 1]);
            }
        }
        assert(front.push(xs.last()) == xs);
    }
}

proof fn lemma_parsed_decimals(ids: Seq<i64>)
    ensures
        parsed_ids(ids.map_values(|x: i64| dec_int(x as int))) == ids,
    decreases ids.len(),
{
    if ids.len() > 0 {
        let m = ids.map_values(|x: i64| dec_int(x as int));
        assert(m.drop_last() =~= ids.drop_last().map_values(|x: i64| dec_int(x as int)));
        lemma_parsed_decimals(ids.drop_last());
        lemma_read_back(ids.last());
        assert(ids.drop_last().push(ids.last()) == ids);
    }
}

/// What is stored for a list of distinct ids reads back as the same list:
/// storing dismissed ids and reading them again loses and adds nothing.
pub proof fn law_stored_ids_read_back(ids: Seq<i64>)
    requires
        ids.no_duplicates(),
    ensures
        dismissed_of(stored_of(ids)) == ids,
{
    if ids.len() == 0 {
        assert(split_at_char(Seq::<char>::empty(), ',') =~= seq![Seq::<char>::empty()]);
        assert(trim(Seq::<char>::empty()) =~= Seq::<char>::empty());
        let one = seq![Seq::<char>::empty()];
        assert(one.drop_last() =~= Seq::<Seq<char>>::empty());
        assert(one.last() == Seq::<char>::empty());
        assert(int_text(Seq::<char>::empty()) is None);
        assert(parsed_i64(trim(one.last())) is None);
        assert(parsed_ids(Seq::<Seq<char>>::empty()) =~= Seq::<i64>::empty());
        assert(parsed_ids(one) =~= Seq::<i64>::empty());
    } else {
        lemma_split_stored(ids);
        lemma_parsed_decimals(ids);
    }
    lemma_unique_id(ids);
}

/// The ids read from stored text never repeat.
pub proof fn lemma_unique_distinct(xs: Seq<i64>)
    ensures
        unique(xs).no_duplicates(),
    decreases xs.len(),
{
    if xs.len() > 0 {
        lemma_unique_distinct(xs.drop_last());
    }
}

/// Dismissing a message keeps every earlier dismissal and adds the new one:
/// reading back the text `dismiss_message` stores gives the earlier ids, then
/// `id` if it was not among them.
pub proof fn law_dismiss_adds_id(stored: Seq<char>, id: i64)
    ensures
        dismissed_of(stored_of(with_id(dismissed_of(stored), id))) == with_id(dismissed_of(stored), id),
{
    let d = dismissed_of(stored);
    lemma_unique_distinct(parsed_ids(split_at_char(stored, ',')));
    if d.contains(id) {
        law_stored_ids_read_back(d);
    } else {
        assert(d.push(id).no_duplicates()) by {
            assert forall|i: int, j: int| 0 <= i < j < d.push(id).len() implies d.push(id)[i] != d.push(id)[j] by {
                if j == d.len() {
                    assert(d[i] == d.push(id)[i]);
                }
            }
        }
        law_stored_ids_read_back(d.push(id));
    }
}

} // verus!
