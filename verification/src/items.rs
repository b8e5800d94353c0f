use vstd::prelude::*;
use vstd::utf8::encode_utf8;
use crate::text::{dec_int, dec_int_chars, is_space, lemma_absent_char, lemma_absent_first_missing, lemma_first_match, lemma_has_at, trim_end, trim_start};
use crate::media::text_opt;
use crate::text::{
    capitalize, capitalized, chars_of, contains, cut_at, cut_at_first, cut_out, cut_out_first,
    extend_chars, extend_str, find_from, occurs, is_text, lemma_search, lowercase, lowercased,
    matches_at, same, search, slice_of, split_words, starts, starts_with, strip_first_of,
    strip_first_prefix, string_of, trim, trim_end_char, trim_end_matching, trimmed, utf8_len_below, words,
};

verus! {

/// How a platform is drawn next to a watched or scheduled item.
pub struct PlatformVisual {
    pub name: &'static str,
    pub color: &'static str,
    pub glow: &'static str,
    /// A chat bubble icon when true, an envelope otherwise.
    pub is_chat: bool,
}

/// The texts and icon kind of a `PlatformVisual`.
pub open spec fn visual_view(v: PlatformVisual) -> (Seq<char>, Seq<char>, Seq<char>, bool) {
    (v.name@, v.color@, v.glow@, v.is_chat)
}

/// The visual at position `k` of the fixed table: WhatsApp, Email, Telegram,
/// Signal, Messenger, Instagram, and the generic monitor.
pub open spec fn visual_at(k: int) -> (Seq<char>, Seq<char>, Seq<char>, bool) {
    if k == 0 {
        ("WhatsApp"@, "#25D366"@, "rgba(37,211,102,0.3)"@, true)
    } else if k == 1 {
        ("Email"@, "#5B9AFF"@, "rgba(91,154,255,0.25)"@, false)
    } else if k == 2 {
        ("Telegram"@, "#26A5E4"@, "rgba(38,165,228,0.3)"@, true)
    } else if k == 3 {
        ("Signal"@, "#3A76F0"@, "rgba(58,118,240,0.3)"@, true)
    } else if k == 4 {
        ("Messenger"@, "#0084FF"@, "rgba(0,132,255,0.3)"@, true)
    } else if k == 5 {
        ("Instagram"@, "#E4405F"@, "rgba(228,64,95,0.25)"@, true)
    } else {
        ("Monitor"@, "#7EB2FF"@, "rgba(126,178,255,0.25)"@, true)
    }
}

/// The table position for an exact platform tag, if it names one.
pub open spec fn tag_index(tag: Seq<char>) -> Option<int> {
    if tag == "whatsapp"@ {
        Some(0)
    } else if tag == "email"@ {
        Some(1)
    } else if tag == "telegram"@ {
        Some(2)
    } else if tag == "signal"@ {
        Some(3)
    } else if tag == "messenger"@ {
        Some(4)
    } else if tag == "instagram"@ {
        Some(5)
    } else {
        None
    }
}

/// The table position guessed from a lowercased description.
pub open spec fn desc_index(lower: Seq<char>) -> int {
    if occurs(lower, "whatsapp"@) {
        0
    } else if occurs(lower, "email"@) {
        1
    } else if occurs(lower, "telegram"@) {
        2
    } else if occurs(lower, "signal"@) {
        3
    } else if occurs(lower, "messenger"@) {
        4
    } else if occurs(lower, "instagram"@) {
        5
    } else {
        6
    }
}

/// The visual for an item: its platform tag decides when it names a known
/// platform, the description's wording otherwise.
pub open spec fn visual_of(tag: Option<Seq<char>>, desc: Seq<char>) -> (Seq<char>, Seq<char>, Seq<char>, bool) {
    match tag {
        Some(t) if tag_index(t) is Some => visual_at(tag_index(t)->0),
        _ => visual_at(desc_index(lowercased(desc))),
    }
}

fn visual(k: usize) -> (v: PlatformVisual)
    ensures
        visual_view(v) == visual_at(k as int),
{
    if k == 0 {
        PlatformVisual { name: "WhatsApp", color: "#25D366", glow: "rgba(37,211,102,0.3)", is_chat: true }
    } else if k == 1 {
        PlatformVisual { name: "Email", color: "#5B9AFF", glow: "rgba(91,154,255,0.25)", is_chat: false }
    } else if k == 2 {
        PlatformVisual { name: "Telegram", color: "#26A5E4", glow: "rgba(38,165,228,0.3)", is_chat: true }
    } else if k == 3 {
        PlatformVisual { name: "Signal", color: "#3A76F0", glow: "rgba(58,118,240,0.3)", is_chat: true }
    } else if k == 4 {
        PlatformVisual { name: "Messenger", color: "#0084FF", glow: "rgba(0,132,255,0.3)", is_chat: true }
    } else if k == 5 {
        PlatformVisual { name: "Instagram", color: "#E4405F", glow: "rgba(228,64,95,0.25)", is_chat: true }
    } else {
        PlatformVisual { name: "Monitor", color: "#7EB2FF", glow: "rgba(126,178,255,0.25)", is_chat: true }
    }
}

/// The visual for an item with an optional platform tag and a description.
pub fn platform_visual(platform_tag: Option<&str>, desc: &str) -> (v: PlatformVisual)
    ensures
        visual_view(v) == visual_of(
            match platform_tag {
                Some(t) => Some(t@),
                None => None,
            },
            desc@,
        ),
{
    match platform_tag {
        Some(p) => {
            if is_text(p, "whatsapp") {
                return visual(0);
            } else if is_text(p, "email") {
                return visual(1);
            } else if is_text(p, "telegram") {
                return visual(2);
            } else if is_text(p, "signal") {
                return visual(3);
            } else if is_text(p, "messenger") {
                return visual(4);
            } else if is_text(p, "instagram") {
                return visual(5);
            }
        },
        None => {},
    }
    let lower_s = lowercase(desc);
    let lower = chars_of(lower_s.as_str());
    let l = lower.as_slice();
    let k: usize = if contains(l, chars_of("whatsapp").as_slice()) {
        0
    } else if contains(l, chars_of("email").as_slice()) {
        1
    } else if contains(l, chars_of("telegram").as_slice()) {
        2
    } else if contains(l, chars_of("signal").as_slice()) {
        3
    } else if contains(l, chars_of("messenger").as_slice()) {
        4
    } else if contains(l, chars_of("instagram").as_slice()) {
        5
    } else {
        6
    };
    visual(k)
}

// ---------------------------------------------------------------------------
// Descriptions
// ---------------------------------------------------------------------------

/// The instruction wordings that `clean_description` removes.
pub open spec fn instruction_prefixes() -> Seq<Seq<char>> {
    seq![
        "Remind the user to "@,
        "Remind user to "@,
        "remind the user to "@,
        "remind user to "@,
        "Check weather and notify the user if "@,
    ]
}

/// The first instruction prefix that `s` starts with.
pub open spec fn first_prefix_index(s: Seq<char>, list: Seq<Seq<char>>) -> Option<int>
    decreases list.len(),
{
    if list.len() == 0 {
        None
    } else if starts(s, list[0]) {
        Some(0)
    } else {
        match first_prefix_index(s, list.drop_first()) {
            Some(k) => Some(k + 1),
            None => None,
        }
    }
}

/// A description shown to the user: trimmed, and when it begins with an
/// instruction wording, the rest with its first letter capitalized.
pub open spec fn clean_of(desc: Seq<char>) -> Seq<char> {
    let s = trim(desc);
    match first_prefix_index(s, instruction_prefixes()) {
        Some(k) => capitalized(s.skip(instruction_prefixes()[k].len() as int)),
        None => s,
    }
}

/// Clean up a reminder description for display.
pub fn clean_description(desc: &str) -> (out: String)
    ensures
        out@ == clean_of(desc@),
{
    let d = chars_of(desc);
    let s = trimmed(d.as_slice());
    let prefixes: [&str; 5] = [
        "Remind the user to ",
        "Remind user to ",
        "remind the user to ",
        "remind user to ",
        "Check weather and notify the user if ",
    ];
    let ghost texts = instruction_prefixes();
    assert(prefixes@.map_values(|p: &str| p@) =~= texts);
    let mut i: usize = 0;
    assert(texts.skip(0) == texts);
    while i < 5
        invariant
            i <= 5,
            texts == instruction_prefixes(),
            s@ == trim(desc@),
            prefixes@.map_values(|p: &str| p@) == texts,
            first_prefix_index(s@, texts) == match first_prefix_index(s@, texts.skip(i as int)) {
                Some(k) => Some(k + i),
                None => None,
            },
        decreases 5 - i,
    {
        let p = chars_of(prefixes[i]);
        assert(texts.skip(i as int)[0] == p@);
        assert(texts[i as int] == p@);
        assert(texts.skip(i as int).drop_first() == texts.skip(i + 1));
        if starts_with(s.as_slice(), p.as_slice()) {
            assert(first_prefix_index(s@, texts.skip(i as int)) == Some(0int));
            let rest = slice_of(s.as_slice(), p.len(), s.len());
            assert(rest@ == s@.skip(p@.len() as int));
            let c = capitalize(rest.as_slice());
            return string_of(c.as_slice());
        }
        i = i + 1;
    }
    string_of(s.as_slice())
}

/// Where the sender's name ends in the text after "from ".
pub open spec fn sender_end(rest: Seq<char>) -> int {
    match search(rest, " and "@, 0) {
        Some(e) => e,
        None => match search(rest, seq!['.'], 0) {
            Some(e) => e,
            None => match search(rest, seq![','], 0) {
                Some(e) => e,
                None => rest.len() as int,
            },
        },
    }
}

/// Whether a candidate name looks like a sender: a short single word, or at
/// most two words.
pub open spec fn sender_like(c: Seq<char>) -> bool {
    (c.len() != 0 && encode_utf8(c).len() < 25 && !occurs(c, seq![' '])) || words(c).len() <= 2
}

/// The sender named after the first "from " in a description, if it looks like one.
pub open spec fn sender_of(desc: Seq<char>) -> Option<Seq<char>> {
    match search(desc, "from "@, 0) {
        None => None,
        Some(i) => {
            let rest = desc.skip(i + "from "@.len());
            let candidate = trim(rest.take(sender_end(rest)));
            if sender_like(candidate) { Some(candidate) } else { None }
        },
    }
}

/// A one-word name as descriptions write a sender: ASCII letters only, at
/// least one and fewer than 25.
pub open spec fn one_word_name(name: Seq<char>) -> bool {
    &&& 0 < name.len() < 25
    &&& forall|i: int| 0 <= i < name.len() ==> {
        let c = #[trigger] name[i];
        ('a' <= c <= 'z') || ('A' <= c <= 'Z')
    }
}

/// The first "from " of `pre + "from " + rest` is the one after `pre` when no
/// "from " starts inside `pre`, and a name right after it that looks like a
/// sender is the sender when the name's end is where the search for the end
/// stops.
proof fn lemma_sender_after_from(pre: Seq<char>, name: Seq<char>, after: Seq<char>)
    requires
        sender_like(name),
        trim(name) == name,
        !occurs(pre + "from"@, "from "@),
        sender_end(name + after) == name.len(),
    ensures
        sender_of(pre + "from "@ + name + after) == Some(name),
{
    reveal_strlit("from ");
    reveal_strlit("from");
    let k = "from "@;
    let d = pre + "from "@ + name + after;
    let h = pre + "from"@;
    let n = pre.len() as int;
    assert(d.subrange(n, n + 5) =~= k);
    assert forall|j: int| 0 <= j < n implies !matches_at(d, k, j) by {
        if matches_at(d, k, j) {
            assert(d.subrange(j, j + 5) =~= h.subrange(j, j + 5));
            lemma_has_at(h, k, j);
        }
    }
    lemma_first_match(d, k, n);
    let rest = name + after;
    assert(d.skip(n + 5) =~= rest);
    assert(rest.take(name.len() as int) =~= name);
}

/// A one-word name is its own trimmed form and looks like a sender.
proof fn lemma_one_word_sender_like(name: Seq<char>)
    requires
        one_word_name(name),
    ensures
        trim(name) == name,
        sender_like(name),
{
    assert(trim_start(name) == name);
    assert(trim_end(name) == name);
    assert(vstd::utf8::is_ascii_chars(name));
    vstd::utf8::is_ascii_chars_encode_utf8(name);
    lemma_name_lacks(name);
    assert(seq![' '].contains(' ')) by {
        assert(seq![' '][0] == ' ');
    }
    lemma_absent_char(name, seq![' '], ' ');
}

/// Appending a run of non-space chars to text that is empty or ends in white
/// space adds one word.
proof fn lemma_words_add_word(a: Seq<char>, b: Seq<char>)
    requires
        b.len() > 0,
        forall|i: int| 0 <= i < b.len() ==> !is_space(#[trigger] b[i]),
        a.len() == 0 || is_space(a.last()),
    ensures
        words(a + b).len() == words(a).len() + 1,
    decreases b.len(),
{
    let s = a + b;
    assert(s.last() == b[b.len() - 1]);
    if b.len() == 1 {
        assert(s.drop_last() =~= a);
        if s.len() > 1 {
            assert(s[s.len() - 2] == a.last());
        }
    } else {
        assert(s.drop_last() =~= a + b.drop_last());
        lemma_words_add_word(a, b.drop_last());
        assert(s[s.len() - 2] == b[b.len() - 2]);
    }
}

/// A one-word name lacks ' ', '.' and ','.
proof fn lemma_name_lacks(name: Seq<char>)
    requires
        one_word_name(name),
    ensures
        !name.contains(' '),
        !name.contains('.'),
        !name.contains(','),
{
    if name.contains(' ') {
        let i = choose|i: int| 0 <= i < name.len() && name[i] == ' ';
        assert(one_word_name(name));
    }
    if name.contains('.') {
        let i = choose|i: int| 0 <= i < name.len() && name[i] == '.';
        assert(one_word_name(name));
    }
    if name.contains(',') {
        let i = choose|i: int| 0 <= i < name.len() && name[i] == ',';
        assert(one_word_name(name));
    }
}

/// The sender named after the first "from " of a description ends at the
/// first " and " after it; failing that at the first '.'; failing that at the
/// first ','; and otherwise runs to the end. So a one-word name after
/// "from " is the sender whether " and ", '.', ',' or the end of the text
/// follows it, as long as no earlier one of those ends cuts in.
pub proof fn law_sender_name_ends_at_and_dot_comma_or_end(pre: Seq<char>, name: Seq<char>, tail: Seq<char>)
    requires
        one_word_name(name),
        !occurs(pre + "from"@, "from "@),
    ensures
        sender_of(pre + "from "@ + name + " and "@ + tail) == Some(name),
        !occurs(tail, " and "@) ==> sender_of(pre + "from "@ + name + "."@ + tail) == Some(name),
        !occurs(tail, " and "@) && !tail.contains('.') ==> sender_of(pre + "from "@ + name + ","@ + tail) == Some(name),
        sender_of(pre + "from "@ + name) == Some(name),
{
    reveal_strlit(" and ");
    reveal_strlit(".");
    reveal_strlit(",");
    lemma_name_lacks(name);
    lemma_one_word_sender_like(name);
    let ka = " and "@;
    let dot = seq!['.'];
    let comma = seq![','];
    assert(ka[0] == ' ' && dot[0] == '.' && comma[0] == ',');
    assert(dot.contains('.') && comma.contains(',') && ka.contains(' '));

    // " and "
    let r1 = name + " and "@ + tail;
    assert(r1 =~= name + (" and "@ + tail));
    assert(r1.subrange(name.len() as int, name.len() + 5int) =~= ka);
    assert forall|j: int| 0 <= j < name.len() implies !matches_at(r1, ka, j) by {
        if matches_at(r1, ka, j) {
            assert(r1.subrange(j, j + 5)[0] == r1[j]);
            assert(name[j] == ' ');
        }
    }
    lemma_first_match(r1, ka, name.len() as int);
    assert(sender_end(r1) == name.len());
    assert(pre + "from "@ + name + (" and "@ + tail) =~= pre + "from "@ + name + " and "@ + tail);
    lemma_sender_after_from(pre, name, " and "@ + tail);

    // '.'
    if !occurs(tail, ka) {
        let a2 = "."@ + tail;
        let r2 = name + a2;
        assert(!(name + "."@).contains(' ')) by {
            if (name + "."@).contains(' ') {
                let i = choose|i: int| 0 <= i < (name + "."@).len() && (name + "."@)[i] == ' ';
                if i < name.len() {
                    assert(name[i] == ' ');
                }
            }
        }
        lemma_absent_first_missing(name + "."@, tail, ka);
        assert(r2 =~= (name + "."@) + tail);
        assert(r2.subrange(name.len() as int, name.len() + 1int) =~= dot);
        assert forall|j: int| 0 <= j < name.len() implies !matches_at(r2, dot, j) by {
            if matches_at(r2, dot, j) {
                assert(r2.subrange(j, j + 1)[0] == r2[j]);
                assert(name[j] == '.');
            }
        }
        lemma_first_match(r2, dot, name.len() as int);
        assert(sender_end(r2) == name.len());
        assert(pre + "from "@ + name + a2 =~= pre + "from "@ + name + "."@ + tail);
        lemma_sender_after_from(pre, name, a2);

        // ','
        if !tail.contains('.') {
            let a3 = ","@ + tail;
            let r3 = name + a3;
            assert(!(name + ","@).contains(' ')) by {
                if (name + ","@).contains(' ') {
                    let i = choose|i: int| 0 <= i < (name + ","@).len() && (name + ","@)[i] == ' ';
                    if i < name.len() {
                        assert(name[i] == ' ');
                    }
                }
            }
            lemma_absent_first_missing(name + ","@, tail, ka);
            assert(r3 =~= (name + ","@) + tail);
            assert(!r3.contains('.')) by {
                if r3.contains('.') {
                    let i = choose|i: int| 0 <= i < r3.len() && r3[i] == '.';
                    if i < name.len() {
                        assert(name[i] == '.');
                    } else if i > name.len() {
                        assert(tail[i - name.len() - 1] == '.');
                    }
                }
            }
            lemma_absent_char(r3, dot, '.');
            assert(r3.subrange(name.len() as int, name.len() + 1int) =~= comma);
            assert forall|j: int| 0 <= j < name.len() implies !matches_at(r3, comma, j) by {
                if matches_at(r3, comma, j) {
                    assert(r3.subrange(j, j + 1)[0] == r3[j]);
                    assert(name[j] == ',');
                }
            }
            lemma_first_match(r3, comma, name.len() as int);
            assert(sender_end(r3) == name.len());
            assert(pre + "from "@ + name + a3 =~= pre + "from "@ + name + ","@ + tail);
            lemma_sender_after_from(pre, name, a3);
        }
    }

    // the end of the text
    let e = Seq::<char>::empty();
    assert(name + e =~= name);
    lemma_absent_char(name, ka, ' ');
    lemma_absent_char(name, dot, '.');
    lemma_absent_char(name, comma, ',');
    assert(sender_end(name + e) == name.len());
    assert(pre + "from "@ + name + e =~= pre + "from "@ + name);
    lemma_sender_after_from(pre, name, e);
}

/// A two-word name after the first "from " is the sender too, whether the
/// text ends there or a ',' follows it (with no " and " or '.' after it).
pub proof fn law_two_word_sender_name(pre: Seq<char>, first: Seq<char>, last: Seq<char>, tail: Seq<char>)
    requires
        one_word_name(first),
        one_word_name(last),
        !occurs(pre + "from"@, "from "@),
    ensures
        sender_of(pre + "from "@ + first + " "@ + last) == Some(first + " "@ + last),
        !occurs(tail, " and "@) && !tail.contains('.')
            ==> sender_of(pre + "from "@ + first + " "@ + last + ","@ + tail) == Some(first + " "@ + last),
{
    reveal_strlit(" ");
    reveal_strlit(" and ");
    reveal_strlit(",");
    lemma_name_lacks(first);
    lemma_name_lacks(last);
    let name = first + " "@ + last;
    let f = first.len() as int;
    let ka = " and "@;
    let dot = seq!['.'];
    let comma = seq![','];
    assert(dot[0] == '.' && comma[0] == ',');
    assert(dot.contains('.') && comma.contains(','));

    // The name is trimmed and has two words.
    assert(name[0] == first[0] && name.last() == last.last());
    assert(trim_start(name) == name);
    assert(trim_end(name) == name);
    let nothing = Seq::<char>::empty();
    assert forall|i: int| 0 <= i < first.len() implies !is_space(#[trigger] first[i]) by {
        assert(one_word_name(first));
    }
    assert forall|i: int| 0 <= i < last.len() implies !is_space(#[trigger] last[i]) by {
        assert(one_word_name(last));
    }
    lemma_words_add_word(nothing, first);
    assert(nothing + first =~= first);
    let fs = first + " "@;
    assert(fs.drop_last() =~= first);
    assert(words(fs) == words(first));
    lemma_words_add_word(fs, last);
    assert(fs + last =~= name);
    assert(sender_like(name));

    // The only space of the name is between the two words.
    assert forall|i: int| 0 <= i < name.len() && name[i] == ' ' implies i == f by {
        if i < f {
            assert(first[i] == ' ');
        } else if i > f {
            assert(last[i - f - 1] == ' ');
        }
    }
    assert(!name.contains('.') && !name.contains(',')) by {
        if name.contains('.') {
            let i = choose|i: int| 0 <= i < name.len() && name[i] == '.';
            if i < f { assert(first[i] == '.'); } else if i > f { assert(last[i - f - 1] == '.'); }
        }
        if name.contains(',') {
            let i = choose|i: int| 0 <= i < name.len() && name[i] == ',';
            if i < f { assert(first[i] == ','); } else if i > f { assert(last[i - f - 1] == ','); }
        }
    }

    // Ending at the end of the text.
    assert(!occurs(name, ka)) by {
        lemma_search(name, ka, 0);
        if occurs(name, ka) {
            let j = search(name, ka, 0)->0;
            assert(name.subrange(j, j + 5)[0] == name[j]);
            assert(name.subrange(j, j + 5)[4] == name[j + 4]);
        }
    }
    lemma_absent_char(name, dot, '.');
    lemma_absent_char(name, comma, ',');
    assert(name + nothing =~= name);
    assert(sender_end(name + nothing) == name.len());
    lemma_sender_after_from(pre, name, nothing);
    assert(pre + "from "@ + name + nothing =~= pre + "from "@ + first + " "@ + last);

    // Ending at a ','.
    if !occurs(tail, ka) && !tail.contains('.') {
        let a3 = ","@ + tail;
        let r3 = name + a3;
        let n = name.len() as int;
        assert(!occurs(r3, ka)) by {
            lemma_search(r3, ka, 0);
            lemma_search(tail, ka, 0);
            if occurs(r3, ka) {
                let j = search(r3, ka, 0)->0;
                let m = r3.subrange(j, j + 5);
                assert(m[0] == r3[j] && m[1] == r3[j + 1] && m[2] == r3[j + 2]);
                assert(m[3] == r3[j + 3] && m[4] == r3[j + 4]);
                if j > n {
                    assert(m =~= tail.subrange(j - n - 1, j - n - 1 + 5));
                    lemma_has_at(tail, ka, j - n - 1);
                } else if j < n {
                    assert(name[j] == ' ');
                    assert(j == f);
                    if j + 4 < n {
                        assert(name[j + 4] == ' ');
                    } else if j + 1 == n {
                        assert(r3[n] == ',');
                    } else if j + 2 == n {
                        assert(r3[n] == ',');
                    } else if j + 3 == n {
                        assert(r3[n] == ',');
                    } else {
                        assert(r3[n] == ',');
                    }
                }
            }
        }
        assert(!r3.contains('.')) by {
            if r3.contains('.') {
                let i = choose|i: int| 0 <= i < r3.len() && r3[i] == '.';
                if i < n {
                    assert(name[i] == '.');
                } else if i > n {
                    assert(tail[i - n - 1] == '.');
                }
            }
        }
        lemma_absent_char(r3, dot, '.');
        assert(r3.subrange(n, n + 1) =~= comma);
        assert forall|j: int| 0 <= j < n implies !matches_at(r3, comma, j) by {
            if matches_at(r3, comma, j) {
                assert(r3.subrange(j, j + 1)[0] == r3[j]);
                assert(name[j] == ',');
            }
        }
        lemma_first_match(r3, comma, n);
        assert(sender_end(r3) == name.len());
        lemma_sender_after_from(pre, name, a3);
        assert(pre + "from "@ + name + a3 =~= pre + "from "@ + first + " "@ + last + ","@ + tail);
    }
}

fn find_lit(s: &[char], lit: &str) -> (r: Option<usize>)
    ensures
        r matches Some(k) ==> search(s@, lit@, 0) == Some(k as int),
        r is None ==> search(s@, lit@, 0) is None,
{
    let p = chars_of(lit);
    find_from(s, p.as_slice(), 0)
}

/// Try to find the sender's name in a description whose sender tag is missing.
pub fn extract_sender(desc: &str) -> (r: Option<String>)
    ensures
        text_opt(r) == sender_of(desc@),
{
    let d = chars_of(desc);
    let i = match find_lit(d.as_slice(), "from ") {
        Some(i) => i,
        None => {
            return None;
        },
    };
    proof {
        lemma_search(d@, "from "@, 0);
        assert(matches_at(d@, "from "@, i as int));
    }
    let n = d.len();
    let from_len = chars_of("from ").len();
    assert(i + from_len <= n);
    let rest = slice_of(d.as_slice(), i + from_len, n);
    assert(rest@ == d@.skip(i + "from "@.len()));
    let r = rest.as_slice();
    let end = match find_lit(r, " and ") {
        Some(e) => e,
        None => {
            let dot = vec!['.'];
            assert(dot@ =~= seq!['.']);
            match find_from(r, dot.as_slice(), 0) {
                Some(e) => e,
                None => {
                    let comma = vec![','];
                    assert(comma@ =~= seq![',']);
                    match find_from(r, comma.as_slice(), 0) {
                        Some(e) => e,
                        None => r.len(),
                    }
                },
            }
        },
    };
    proof {
        lemma_search(rest@, " and "@, 0);
        lemma_search(rest@, seq!['.'], 0);
        lemma_search(rest@, seq![','], 0);
        if end < r.len() {
            if let Some(e) = search(rest@, " and "@, 0) {
                assert(matches_at(rest@, " and "@, e));
            } else if let Some(e) = search(rest@, seq!['.'], 0) {
                assert(matches_at(rest@, seq!['.'], e));
            } else if let Some(e) = search(rest@, seq![','], 0) {
                assert(matches_at(rest@, seq![','], e));
            }
        }
    }
    let head = slice_of(r, 0, end);
    let candidate = trimmed(head.as_slice());
    let cand_string = string_of(candidate.as_slice());
    let short = utf8_len_below(candidate.as_slice(), 25);
    let space = vec![' '];
    assert(space@ =~= seq![' ']);
    let short_single = candidate.len() != 0 && short
        && !contains(candidate.as_slice(), space.as_slice());
    let few_words = split_words(candidate.as_slice()).len() <= 2;
    if short_single || few_words {
        Some(cand_string)
    } else {
        None
    }
}

/// Leading wordings that introduce a watch.
pub open spec fn watch_prefixes() -> Seq<Seq<char>> {
    seq!["Watch for "@, "watch for "@, "Monitor: "@]
}

/// Leading wordings that name the platform being watched.
pub open spec fn platform_prefixes() -> Seq<Seq<char>> {
    seq![
        "WhatsApp messages "@,
        "WhatsApp "@,
        "Emails "@,
        "Email "@,
        "Telegram messages "@,
        "Signal messages "@,
        "Messenger messages "@,
        "Instagram messages "@,
        "Messages "@,
        "messages "@,
    ]
}

/// Wordings that name the sender, most specific first.
pub open spec fn sender_patterns(sender: Seq<char>) -> Seq<Seq<char>> {
    seq!["from "@ + sender + ". "@, "from "@ + sender + " "@, "from "@ + sender]
}

/// Trailing instructions that are cut off a topic.
pub open spec fn instruction_suffixes() -> Seq<Seq<char>> {
    seq![
        "Alert when match arrives."@,
        "Alert when match arrives"@,
        "and call the user if she says anything urgent."@,
        "and call the user if she says anything urgent"@,
        "and call the user if they say anything urgent."@,
        "and call the user if they say anything urgent"@,
        "and call the user"@,
        "and sms the user"@,
        "and notify the user"@,
    ]
}

/// `s` with the first occurrence of the first pattern of `pats` that occurs cut out.
pub open spec fn cut_out_first_found(s: Seq<char>, pats: Seq<Seq<char>>) -> Seq<char>
    decreases pats.len(),
{
    if pats.len() == 0 {
        s
    } else if occurs(s, pats[0]) {
        cut_out(s, pats[0])
    } else {
        cut_out_first_found(s, pats.drop_first())
    }
}

/// `s` cut at each of `list` in turn.
pub open spec fn cut_at_each(s: Seq<char>, list: Seq<Seq<char>>) -> Seq<char>
    decreases list.len(),
{
    if list.len() == 0 {
        s
    } else {
        cut_at_each(cut_at(s, list[0]), list.drop_first())
    }
}

/// The short topic line of a watch description, with the sender left out.
pub open spec fn topic_of(desc: Seq<char>, sender: Option<Seq<char>>) -> Seq<char> {
    let s1 = strip_first_prefix(trim(desc), watch_prefixes());
    let s2 = strip_first_prefix(s1, platform_prefixes());
    let s3 = match sender {
        Some(n) => cut_out_first_found(s2, sender_patterns(n)),
        None => s2,
    };
    let s4 = trim(cut_at_each(s3, instruction_suffixes()));
    let s5 = if starts(s4, "about "@) { s4.skip("about "@.len() as int) } else { s4 };
    capitalized(trim(trim_end_char(trim(s5), '.')))
}

fn cut_out_first_found_exec(s: &[char], pats: &Vec<Vec<char>>) -> (out: Vec<char>)
    ensures
        out@ == cut_out_first_found(s@, pats@.map_values(|p: Vec<char>| p@)),
{
    let ghost texts = pats@.map_values(|p: Vec<char>| p@);
    let mut i: usize = 0;
    assert(texts.skip(0) == texts);
    while i < pats.len()
        invariant
            i <= pats.len(),
            texts == pats@.map_values(|p: Vec<char>| p@),
            cut_out_first_found(s@, texts) == cut_out_first_found(s@, texts.skip(i as int)),
        decreases pats.len() - i,
    {
        assert(texts.skip(i as int)[0] == pats@[i as int]@);
        assert(texts.skip(i as int).drop_first() == texts.skip(i + 1));
        if contains(s, pats[i].as_slice()) {
            return cut_out_first(s, pats[i].as_slice());
        }
        i = i + 1;
    }
    slice_of(s, 0, s.len())
}

fn cut_at_each_exec(s: &[char], list: &[&str]) -> (out: Vec<char>)
    ensures
        out@ == cut_at_each(s@, list@.map_values(|p: &str| p@)),
{
    let ghost texts = list@.map_values(|p: &str| p@);
    let mut cur = slice_of(s, 0, s.len());
    assert(cur@ =~= s@);
    let mut i: usize = 0;
    assert(texts.skip(0) == texts);
    while i < list.len()
        invariant
            i <= list.len(),
            texts == list@.map_values(|p: &str| p@),
            cut_at_each(s@, texts) == cut_at_each(cur@, texts.skip(i as int)),
        decreases list.len() - i,
    {
        let p = chars_of(list[i]);
        assert(texts.skip(i as int)[0] == p@);
        assert(texts.skip(i as int).drop_first() == texts.skip(i + 1));
        cur = cut_at_first(cur.as_slice(), p.as_slice());
        i = i + 1;
    }
    cur
}

fn sender_patterns_exec(sender: &str) -> (v: Vec<Vec<char>>)
    ensures
        v@.map_values(|p: Vec<char>| p@) == sender_patterns(sender@),
{
    let mut a = chars_of("from ");
    extend_str(&mut a, sender);
    let ghost base = a@;
    assert(base == "from "@ + sender@);
    let mut b = slice_of(a.as_slice(), 0, a.len());
    let c = slice_of(a.as_slice(), 0, a.len());
    assert(b@ =~= base);
    assert(c@ =~= base);
    extend_str(&mut a, ". ");
    extend_str(&mut b, " ");
    let mut v: Vec<Vec<char>> = Vec::new();
    v.push(a);
    v.push(b);
    v.push(c);
    assert(v@[0]@ == sender_patterns(sender@)[0]);
    assert(v@[1]@ == sender_patterns(sender@)[1]);
    assert(v@[2]@ == sender_patterns(sender@)[2]);
    assert(v@.map_values(|p: Vec<char>| p@) =~= sender_patterns(sender@));
    v
}

/// A short topic line for a watch, leaving out the sender shown next to it.
pub fn monitor_topic(desc: &str, sender: Option<&str>) -> (out: String)
    ensures
        out@ == topic_of(
            desc@,
            match sender {
                Some(n) => Some(n@),
                None => None,
            },
        ),
{
    let d = chars_of(desc);
    let s0 = trimmed(d.as_slice());
    let watch: [&str; 3] = ["Watch for ", "watch for ", "Monitor: "];
    assert(watch@.map_values(|p: &str| p@) =~= watch_prefixes());
    let s1 = strip_first_of(s0.as_slice(), &watch);
    let platforms: [&str; 10] = [
        "WhatsApp messages ",
        "WhatsApp ",
        "Emails ",
        "Email ",
        "Telegram messages ",
        "Signal messages ",
        "Messenger messages ",
        "Instagram messages ",
        "Messages ",
        "messages ",
    ];
    assert(platforms@.map_values(|p: &str| p@) =~= platform_prefixes());
    let s2 = strip_first_of(s1.as_slice(), &platforms);
    let s3 = match sender {
        Some(n) => {
            let pats = sender_patterns_exec(n);
            cut_out_first_found_exec(s2.as_slice(), &pats)
        },
        None => s2,
    };
    let suffixes: [&str; 9] = [
        "Alert when match arrives.",
        "Alert when match arrives",
        "and call the user if she says anything urgent.",
        "and call the user if she says anything urgent",
        "and call the user if they say anything urgent.",
        "and call the user if they say anything urgent",
        "and call the user",
        "and sms the user",
        "and notify the user",
    ];
    assert(suffixes@.map_values(|p: &str| p@) =~= instruction_suffixes());
    let s4 = cut_at_each_exec(s3.as_slice(), &suffixes);
    let s4 = trimmed(s4.as_slice());
    let about = chars_of("about ");
    let s5 = if starts_with(s4.as_slice(), about.as_slice()) {
        slice_of(s4.as_slice(), about.len(), s4.len())
    } else {
        s4
    };
    let s6 = trimmed(s5.as_slice());
    let s7 = trim_end_matching(s6.as_slice(), '.');
    let s8 = trimmed(s7.as_slice());
    let c = capitalize(s8.as_slice());
    string_of(c.as_slice())
}

// ---------------------------------------------------------------------------
// The items section
// ---------------------------------------------------------------------------

/// A scheduled item or a watch ("monitor") shown in the items section.
#[derive(Clone, PartialEq, Debug)]
pub struct AttentionItem {
    pub description: String,
    pub monitor: bool,
    pub time_display: Option<String>,
    pub relative_display: Option<String>,
    pub next_check_at: Option<i64>,
    pub sender: Option<String>,
    pub platform: Option<String>,
    pub notify: Option<String>,
}

/// Whether a check at `a` comes strictly before a check at `b`; a missing
/// time comes after every known one.
pub open spec fn check_before(a: Option<i64>, b: Option<i64>) -> bool {
    match (a, b) {
        (Some(x), Some(y)) => x < y,
        (Some(_), None) => true,
        _ => false,
    }
}

/// `s` with `x` placed before its first element that `x` strictly precedes.
pub open spec fn insert_by_check(s: Seq<usize>, x: usize, keys: Seq<Option<i64>>) -> Seq<usize>
    decreases s.len(),
{
    if s.len() == 0 {
        seq![x]
    } else if check_before(keys[x as int], keys[s[0] as int]) {
        seq![x] + s
    } else {
        seq![s[0]] + insert_by_check(s.drop_first(), x, keys)
    }
}

/// `s` in stable order of check time, soonest first, missing times last.
pub open spec fn sort_by_check(s: Seq<usize>, keys: Seq<Option<i64>>) -> Seq<usize>
    decreases s.len(),
{
    if s.len() == 0 {
        Seq::empty()
    } else {
        insert_by_check(sort_by_check(s.drop_last(), keys), s.last(), keys)
    }
}

/// The elements of `s` whose key did not occur earlier in `s`.
pub open spec fn first_of_each(s: Seq<usize>, keys: Seq<Seq<char>>) -> Seq<usize>
    decreases s.len(),
{
    if s.len() == 0 {
        Seq::empty()
    } else {
        let d = first_of_each(s.drop_last(), keys);
        if exists|j: int| 0 <= j < s.len() - 1 && keys[s[j] as int] == keys[s.last() as int] {
            d
        } else {
            d.push(s.last())
        }
    }
}

/// The positions of the `true` flags, in order.
pub open spec fn positions(flags: Seq<bool>) -> Seq<usize>
    decreases flags.len(),
{
    if flags.len() == 0 {
        Seq::empty()
    } else if flags.last() {
        positions(flags.drop_last()).push((flags.len() - 1) as usize)
    } else {
        positions(flags.drop_last())
    }
}

/// An item is overdue when it is not a watch and its relative time reads "overdue".
pub open spec fn is_overdue(item: AttentionItem) -> bool {
    !item.monitor && text_opt(item.relative_display) == Some("overdue"@)
}

/// An item is scheduled when it is neither a watch nor overdue.
pub open spec fn is_scheduled(item: AttentionItem) -> bool {
    !item.monitor && text_opt(item.relative_display) != Some("overdue"@)
}

/// The key under which watches are merged: the sender tag, else the sender
/// named in the description, else the description.
pub open spec fn monitor_key(item: AttentionItem) -> Seq<char> {
    match text_opt(item.sender) {
        Some(s) => s,
        None => match sender_of(item.description@) {
            Some(s) => s,
            None => item.description@,
        },
    }
}

/// The watches to show: one per key, soonest check first.
pub open spec fn shown_monitors(items: Seq<AttentionItem>) -> Seq<usize> {
    first_of_each(
        sort_by_check(
            positions(items.map_values(|it: AttentionItem| it.monitor)),
            items.map_values(|it: AttentionItem| it.next_check_at),
        ),
        items.map_values(|it: AttentionItem| monitor_key(it)),
    )
}

fn opt_text_is(o: &Option<String>, lit: &str) -> (b: bool)
    ensures
        b == (text_opt(*o) == Some(lit@)),
{
    match o {
        Some(s) => is_text(s.as_str(), lit),
        None => false,
    }
}

/// The positions of overdue items and of scheduled items, each in order.
pub fn partition_items(items: &Vec<AttentionItem>) -> (r: (Vec<usize>, Vec<usize>))
    ensures
        r.0@ == positions(items@.map_values(|it: AttentionItem| is_overdue(it))),
        r.1@ == positions(items@.map_values(|it: AttentionItem| is_scheduled(it))),
{
    let mut overdue: Vec<usize> = Vec::new();
    let mut scheduled: Vec<usize> = Vec::new();
    let mut i: usize = 0;
    while i < items.len()
        invariant
            i <= items.len(),
            overdue@ == positions(items@.take(i as int).map_values(|it: AttentionItem| is_overdue(it))),
            scheduled@ == positions(items@.take(i as int).map_values(|it: AttentionItem| is_scheduled(it))),
        decreases items.len() - i,
    {
        let item = &items[i];
        proof {
            let t = items@.take(i + 1);
            assert(t.drop_last() == items@.take(i as int));
            assert(t.map_values(|it: AttentionItem| is_overdue(it)).drop_last() =~= items@.take(i as int).map_values(|it: AttentionItem| is_overdue(it)));
            assert(t.map_values(|it: AttentionItem| is_scheduled(it)).drop_last() =~= items@.take(i as int).map_values(|it: AttentionItem| is_scheduled(it)));
        }
        if !item.monitor {
            if opt_text_is(&item.relative_display, "overdue") {
                overdue.push(i);
            } else {
                scheduled.push(i);
            }
        }
        i = i + 1;
    }
    assert(items@.take(items.len() as int) == items@);
    (overdue, scheduled)
}

fn before_exec(a: Option<i64>, b: Option<i64>) -> (r: bool)
    ensures
        r == check_before(a, b),
{
    match (a, b) {
        (Some(x), Some(y)) => x < y,
        (Some(_), None) => true,
        _ => false,
    }
}

proof fn lemma_insert_at(s: Seq<usize>, x: usize, keys: Seq<Option<i64>>, p: int)
    requires
        0 <= p <= s.len(),
        forall|j: int| 0 <= j < p ==> !check_before(keys[x as int], keys[s[j] as int]),
        p < s.len() ==> check_before(keys[x as int], keys[s[p] as int]),
    ensures
        insert_by_check(s, x, keys) == s.take(p) + seq![x] + s.skip(p),
    decreases s.len(),
{
    if s.len() == 0 {
        assert(s.take(p) + seq![x] + s.skip(p) =~= seq![x]);
    } else if p == 0 {
        assert(s.take(0) + seq![x] + s.skip(0) =~= seq![x] + s);
    } else {
        let t = s.drop_first();
        assert forall|j: int| 0 <= j < p - 1 implies !check_before(keys[x as int], keys[t[j] as int]) by {
            assert(t[j] == s[j + 1]);
        }
        if p < s.len() {
            assert(t[p - 1] == s[p]);
        }
        lemma_insert_at(t, x, keys, p - 1);
        assert(seq![s[0]] + (t.take(p - 1) + seq![x] + t.skip(p - 1)) =~= s.take(p) + seq![x] + s.skip(p));
    }
}

fn sorted_by_check(order: &Vec<usize>, keys: &Vec<Option<i64>>) -> (r: Vec<usize>)
    requires
        forall|i: int| 0 <= i < order.len() ==> order@[i] < keys.len(),
    ensures
        r@ == sort_by_check(order@, keys@),
{
    let mut out: Vec<usize> = Vec::new();
    let mut i: usize = 0;
    while i < order.len()
        invariant
            i <= order.len(),
            forall|k: int| 0 <= k < order.len() ==> order@[k] < keys.len(),
            out@ == sort_by_check(order@.take(i as int), keys@),
            forall|k: int| 0 <= k < out.len() ==> out@[k] < keys.len(),
        decreases order.len() - i,
    {
        let x = order[i];
        let kx = keys[x];
        let mut p: usize = 0;
        while p < out.len() && !before_exec(kx, keys[out[p]])
            invariant
                p <= out.len(),
                x < keys.len(),
                kx == keys@[x as int],
                forall|k: int| 0 <= k < out.len() ==> out@[k] < keys.len(),
                forall|j: int| 0 <= j < p ==> !check_before(keys@[x as int], keys@[out@[j] as int]),
            decreases out.len() - p,
        {
            p = p + 1;
        }
        proof {
            lemma_insert_at(out@, x, keys@, p as int);
            let t = order@.take(i + 1);
            assert(t.drop_last() == order@.take(i as int));
            assert(t.last() == x);
        }
        let ghost prev = out@;
        out.insert(p, x);
        assert(out@ =~= prev.take(p as int) + seq![x] + prev.skip(p as int));
        i = i + 1;
    }
    assert(order@.take(order.len() as int) == order@);
    out
}

fn monitor_key_exec(item: &AttentionItem) -> (k: Vec<char>)
    ensures
        k@ == monitor_key(*item),
{
    match &item.sender {
        Some(s) => chars_of(s.as_str()),
        None => match extract_sender(item.description.as_str()) {
            Some(s) => chars_of(s.as_str()),
            None => chars_of(item.description.as_str()),
        },
    }
}

/// Some element of `s` before position `n` has key `key`.
pub open spec fn prefix_has_key(s: Seq<usize>, kv: Seq<Seq<char>>, n: int, key: Seq<char>) -> bool {
    exists|j: int| 0 <= j < n && kv[s[j] as int] == key
}

/// `list` holds `key`.
pub open spec fn list_has(list: Seq<Seq<char>>, key: Seq<char>) -> bool {
    exists|t: int| 0 <= t < list.len() && list[t] == key
}

fn key_seen(seen: &Vec<Vec<char>>, k: &Vec<char>) -> (b: bool)
    ensures
        b == list_has(seen@.map_values(|v: Vec<char>| v@), k@),
{
    let ghost sv = seen@.map_values(|v: Vec<char>| v@);
    let mut t: usize = 0;
    while t < seen.len()
        invariant
            t <= seen.len(),
            sv == seen@.map_values(|v: Vec<char>| v@),
            forall|u: int| 0 <= u < t ==> sv[u] != k@,
        decreases seen.len() - t,
    {
        if same(seen[t].as_slice(), k.as_slice()) {
            assert(sv[t as int] == k@);
            return true;
        }
        t = t + 1;
    }
    false
}

fn first_of_each_exec(s: &Vec<usize>, keys: &Vec<Vec<char>>) -> (r: Vec<usize>)
    requires
        forall|i: int| 0 <= i < s.len() ==> s@[i] < keys.len(),
    ensures
        r@ == first_of_each(s@, keys@.map_values(|k: Vec<char>| k@)),
{
    let ghost kv = keys@.map_values(|k: Vec<char>| k@);
    let mut seen: Vec<Vec<char>> = Vec::new();
    let mut out: Vec<usize> = Vec::new();
    let mut i: usize = 0;
    while i < s.len()
        invariant
            i <= s.len(),
            forall|k: int| 0 <= k < s.len() ==> s@[k] < keys.len(),
            kv == keys@.map_values(|k: Vec<char>| k@),
            out@ == first_of_each(s@.take(i as int), kv),
            forall|key: Seq<char>|
                #[trigger] prefix_has_key(s@, kv, i as int, key) == list_has(
                    seen@.map_values(|v: Vec<char>| v@),
                    key,
                ),
        decreases s.len() - i,
    {
        let m = s[i];
        let k = &keys[m];
        let ghost pre = s@.take(i + 1);
        let ghost sv0 = seen@.map_values(|v: Vec<char>| v@);
        assert(pre.drop_last() == s@.take(i as int));
        assert(pre.last() == m);
        assert(kv[m as int] == k@);
        let found = key_seen(&seen, k);
        proof {
            assert((exists|j: int| 0 <= j < pre.len() - 1 && kv[pre[j] as int] == kv[pre.last() as int])
                == prefix_has_key(s@, kv, i as int, k@)) by {
                if prefix_has_key(s@, kv, i as int, k@) {
                    let j = choose|j: int| 0 <= j < i && kv[s@[j] as int] == k@;
                    assert(pre[j] == s@[j]);
                }
                if exists|j: int| 0 <= j < pre.len() - 1 && kv[pre[j] as int] == kv[pre.last() as int] {
                    let j = choose|j: int| 0 <= j < pre.len() - 1 && kv[pre[j] as int] == kv[pre.last() as int];
                    assert(pre[j] == s@[j]);
                }
            }
        }
        if !found {
            out.push(m);
            seen.push(k.clone());
            proof {
                let sv = seen@.map_values(|v: Vec<char>| v@);
                assert(sv =~= sv0.push(k@));
                assert forall|key: Seq<char>|
                    #[trigger] prefix_has_key(s@, kv, i + 1, key) == list_has(sv, key) by {
                    if prefix_has_key(s@, kv, i + 1, key) {
                        let j = choose|j: int| 0 <= j < i + 1 && kv[s@[j] as int] == key;
                        if j == i {
                            assert(sv[sv0.len() as int] == key);
                        } else {
                            assert(prefix_has_key(s@, kv, i as int, key));
                            let u = choose|u: int| 0 <= u < sv0.len() && sv0[u] == key;
                            assert(sv[u] == sv0[u]);
                        }
                    }
                    if list_has(sv, key) {
                        let u = choose|u: int| 0 <= u < sv.len() && sv[u] == key;
                        if u == sv0.len() {
                            assert(kv[s@[i as int] as int] == key);
                        } else {
                            assert(sv[u] == sv0[u]);
                            assert(list_has(sv0, key));
                            assert(prefix_has_key(s@, kv, i as int, key));
                            let j = choose|j: int| 0 <= j < i && kv[s@[j] as int] == key;
                        }
                    }
                }
            }
        } else {
            proof {
                assert forall|key: Seq<char>|
                    #[trigger] prefix_has_key(s@, kv, i + 1, key) == list_has(sv0, key) by {
                    if prefix_has_key(s@, kv, i + 1, key) {
                        let j = choose|j: int| 0 <= j < i + 1 && kv[s@[j] as int] == key;
                        if j == i {
                            assert(list_has(sv0, k@));
                        } else {
                            assert(prefix_has_key(s@, kv, i as int, key));
                        }
                    }
                    if list_has(sv0, key) {
                        assert(prefix_has_key(s@, kv, i as int, key));
                        let j = choose|j: int| 0 <= j < i && kv[s@[j] as int] == key;
                    }
                }
            }
        }
        i = i + 1;
    }
    assert(s@.take(s.len() as int) == s@);
    out
}

/// The positions of the watches to show: one per sender (or description),
/// soonest check first, items without a check time last.
pub fn monitors_to_show(items: &Vec<AttentionItem>) -> (r: Vec<usize>)
    ensures
        r@ == shown_monitors(items@),
{
    let mut order: Vec<usize> = Vec::new();
    let mut times: Vec<Option<i64>> = Vec::new();
    let mut keys: Vec<Vec<char>> = Vec::new();
    let mut i: usize = 0;
    while i < items.len()
        invariant
            i <= items.len(),
            order@ == positions(items@.take(i as int).map_values(|it: AttentionItem| it.monitor)),
            forall|k: int| 0 <= k < order.len() ==> order@[k] < i,
            times@ == items@.take(i as int).map_values(|it: AttentionItem| it.next_check_at),
            keys@.map_values(|k: Vec<char>| k@) == items@.take(i as int).map_values(|it: AttentionItem| monitor_key(it)),
        decreases items.len() - i,
    {
        let item = &items[i];
        proof {
            let t = items@.take(i + 1);
            assert(t.drop_last() == items@.take(i as int));
            assert(t.map_values(|it: AttentionItem| it.monitor).drop_last() =~= items@.take(i as int).map_values(|it: AttentionItem| it.monitor));
        }
        if item.monitor {
            order.push(i);
        }
        times.push(item.next_check_at);
        let ghost kv0 = keys@.map_values(|k: Vec<char>| k@);
        keys.push(monitor_key_exec(item));
        proof {
            assert(items@.take(i + 1) == items@.take(i as int).push(items@[i as int]));
            assert(times@ =~= items@.take(i + 1).map_values(|it: AttentionItem| it.next_check_at));
            assert(keys@.map_values(|k: Vec<char>| k@) =~= kv0.push(monitor_key(items@[i as int])));
            assert(keys@.map_values(|k: Vec<char>| k@) =~= items@.take(i + 1).map_values(|it: AttentionItem| monitor_key(it)));
        }
        i = i + 1;
    }
    assert(items@.take(items.len() as int) == items@);
    let sorted = sorted_by_check(&order, &times);
    proof {
        lemma_sorted_in_range(order@, times@);
    }
    first_of_each_exec(&sorted, &keys)
}

/// Sorting keeps every element of `s`.
proof fn lemma_sorted_in_range(s: Seq<usize>, keys: Seq<Option<i64>>)
    requires
        forall|i: int| 0 <= i < s.len() ==> s[i] < keys.len(),
    ensures
        forall|i: int| 0 <= i < sort_by_check(s, keys).len() ==> sort_by_check(s, keys)[i] < keys.len(),
        sort_by_check(s, keys).len() == s.len(),
    decreases s.len(),
{
    if s.len() > 0 {
        lemma_sorted_in_range(s.drop_last(), keys);
        lemma_insert_in_range(sort_by_check(s.drop_last(), keys), s.last(), keys);
    }
}

proof fn lemma_insert_in_range(s: Seq<usize>, x: usize, keys: Seq<Option<i64>>)
    requires
        forall|i: int| 0 <= i < s.len() ==> s[i] < keys.len(),
        x < keys.len(),
    ensures
        forall|i: int| 0 <= i < insert_by_check(s, x, keys).len() ==> insert_by_check(s, x, keys)[i] < keys.len(),
        insert_by_check(s, x, keys).len() == s.len() + 1,
    decreases s.len(),
{
    if s.len() > 0 && !check_before(keys[x as int], keys[s[0] as int]) {
        lemma_insert_in_range(s.drop_first(), x, keys);
        let r = insert_by_check(s, x, keys);
        assert forall|i: int| 0 <= i < r.len() implies r[i] < keys.len() by {
            if i > 0 {
                assert(r[i] == insert_by_check(s.drop_first(), x, keys)[i - 1]);
            }
        }
    }
}

/// How many rows of a list are shown before "+N more".
pub const VISIBLE_LIMIT: usize = 3;

/// How many rows stay hidden behind "+N more".
pub fn hidden_count(len: usize, show_all: bool) -> (n: usize)
    ensures
        n == (if len > VISIBLE_LIMIT && !show_all { len - VISIBLE_LIMIT } else { 0 }),
{
    if len > VISIBLE_LIMIT && !show_all {
        len - VISIBLE_LIMIT
    } else {
        0
    }
}

/// How many rows are shown.
pub fn visible_count(len: usize, show_all: bool) -> (n: usize)
    ensures
        n == (if show_all || len <= VISIBLE_LIMIT { len } else { VISIBLE_LIMIT }),
{
    if show_all || len <= VISIBLE_LIMIT {
        len
    } else {
        VISIBLE_LIMIT
    }
}

/// Whether "show less" is offered: the full list is open and longer than the limit.
pub fn offers_show_less(len: usize, show_all: bool) -> (b: bool)
    ensures
        b == (show_all && len > VISIBLE_LIMIT),
{
    show_all && len > VISIBLE_LIMIT
}

/// When a scheduled item happens: "time - relative", either one alone, or nothing.
pub open spec fn when_of(time: Option<Seq<char>>, relative: Option<Seq<char>>) -> Seq<char> {
    match (time, relative) {
        (Some(t), Some(r)) => t + " - "@ + r,
        (Some(t), None) => t,
        (None, Some(r)) => r,
        (None, None) => Seq::empty(),
    }
}

/// The "when" text of a scheduled item.
pub fn when_text(time_display: &Option<String>, relative_display: &Option<String>) -> (s: String)
    ensures
        s@ == when_of(text_opt(*time_display), text_opt(*relative_display)),
{
    match (time_display, relative_display) {
        (Some(t), Some(r)) => {
            let mut v = chars_of(t.as_str());
            extend_str(&mut v, " - ");
            extend_str(&mut v, r.as_str());
            string_of(v.as_slice())
        },
        (Some(t), None) => chars_to_string(t.as_str()),
        (None, Some(r)) => chars_to_string(r.as_str()),
        (None, None) => String::new(),
    }
}

fn chars_to_string(s: &str) -> (out: String)
    ensures
        out@ == s@,
{
    let v = chars_of(s);
    string_of(v.as_slice())
}

/// The badge shown for how the user is notified: "call" or "sms".
pub open spec fn badge_of(notify: Option<Seq<char>>) -> Option<Seq<char>> {
    match notify {
        Some(n) => if n == "call"@ { Some("call"@) } else if n == "sms"@ { Some("sms"@) } else { None },
        None => None,
    }
}

/// The badge label for an item's notification channel, if it has one.
pub fn badge_label(notify: Option<&str>) -> (b: Option<&'static str>)
    ensures
        b matches Some(s) ==> badge_of(
            match notify {
                Some(n) => Some(n@),
                None => None,
            },
        ) == Some(s@),
        b is None ==> badge_of(
            match notify {
                Some(n) => Some(n@),
                None => None,
            },
        ) is None,
{
    match notify {
        Some(n) => {
            if is_text(n, "call") {
                Some("call")
            } else if is_text(n, "sms") {
                Some("sms")
            } else {
                None
            }
        },
        None => None,
    }
}

/// The sender and detail lines of a watch card.
pub open spec fn card_of(item: AttentionItem) -> (Seq<char>, Seq<char>) {
    let name = visual_of(text_opt(item.platform), item.description@).0;
    let found = match text_opt(item.sender) {
        Some(s) => Some(s),
        None => sender_of(item.description@),
    };
    let sender_display = match found {
        Some(s) => s,
        None => name,
    };
    let topic = topic_of(item.description@, if found is Some { Some(sender_display) } else { None });
    let detail = if topic.len() == 0 {
        if found is Some { name } else { Seq::empty() }
    } else if found is Some {
        name + " - "@ + topic
    } else {
        topic
    };
    (sender_display, detail)
}

/// The sender line and detail line of a watch card.
pub fn monitor_card_text(item: &AttentionItem) -> (r: (String, String))
    ensures
        (r.0@, r.1@) == card_of(*item),
{
    let platform: Option<&str> = match &item.platform {
        Some(p) => Some(p.as_str()),
        None => None,
    };
    let pv = platform_visual(platform, item.description.as_str());
    let found: Option<String> = match &item.sender {
        Some(s) => Some(chars_to_string(s.as_str())),
        None => extract_sender(item.description.as_str()),
    };
    let has_sender = found.is_some();
    let sender_display: String = match found {
        Some(s) => s,
        None => chars_to_string(pv.name),
    };
    let topic = monitor_topic(
        item.description.as_str(),
        if has_sender { Some(sender_display.as_str()) } else { None },
    );
    let name = chars_of(pv.name);
    let topic_chars = chars_of(topic.as_str());
    let detail = if topic_chars.len() == 0 {
        if has_sender { string_of(name.as_slice()) } else { String::new() }
    } else if has_sender {
        let mut v = name;
        extend_str(&mut v, " - ");
        extend_chars(&mut v, topic_chars.as_slice());
        string_of(v.as_slice())
    } else {
        topic
    };
    (sender_display, detail)
}

/// The quiet status line: shown only when nothing is listed but items are tracked.
pub open spec fn tracking_line_of(total: int, has_anything: bool) -> Option<Seq<char>> {
    if !has_anything && total > 0 {
        Some("Tracking "@ + dec_int(total) + " item"@ + (if total != 1 { "s"@ } else { ""@ }) + " - all on schedule"@)
    } else {
        None
    }
}

/// The status line shown under an otherwise empty items section.
pub fn tracking_line(total_tracked_count: i32, has_anything: bool) -> (r: Option<String>)
    ensures
        text_opt(r) == tracking_line_of(total_tracked_count as int, has_anything),
{
    if !has_anything && total_tracked_count > 0 {
        let mut v = chars_of("Tracking ");
        let n = dec_int_chars(total_tracked_count as i64);
        extend_chars(&mut v, n.as_slice());
        extend_str(&mut v, " item");
        extend_str(&mut v, if total_tracked_count != 1 { "s" } else { "" });
        extend_str(&mut v, " - all on schedule");
        Some(string_of(v.as_slice()))
    } else {
        None
    }
}

// ---------------------------------------------------------------------------
// The watch list: once per sender, soonest check first
// ---------------------------------------------------------------------------

/// No element of `s` comes after one whose check it precedes.
pub open spec fn in_check_order(s: Seq<usize>, keys: Seq<Option<i64>>) -> bool {
    forall|a: int, b: int| 0 <= a < b < s.len() ==> !check_before(keys[s[b] as int], keys[s[a] as int])
}

proof fn lemma_insert_by_check(s: Seq<usize>, x: usize, keys: Seq<Option<i64>>)
    requires
        in_check_order(s, keys),
    ensures
        in_check_order(insert_by_check(s, x, keys), keys),
        insert_by_check(s, x, keys).len() == s.len() + 1,
        forall|e: usize| #[trigger] insert_by_check(s, x, keys).contains(e) <==> (s.contains(e) || e == x),
    decreases s.len(),
{
    let r = insert_by_check(s, x, keys);
    if s.len() == 0 {
        assert(r =~= seq![x]);
        assert forall|e: usize| #[trigger] r.contains(e) <==> (s.contains(e) || e == x) by {
            if r.contains(e) {
                assert(r[0] == x);
            }
            if e == x {
                assert(r[0] == x);
            }
        }
    } else if check_before(keys[x as int], keys[s[0] as int]) {
        assert(r =~= seq![x] + s);
        assert forall|a: int, b: int| 0 <= a < b < r.len() implies !check_before(keys[r[b] as int], keys[r[a] as int]) by {
            if a == 0 {
                assert(r[b] == s[b - 1]);
                if b - 1 > 0 {
                    assert(!check_before(keys[s[b - 1] as int], keys[s[0] as int]));
                }
            } else {
                assert(r[a] == s[a - 1] && r[b] == s[b - 1]);
            }
        }
        assert forall|e: usize| #[trigger] r.contains(e) <==> (s.contains(e) || e == x) by {
            if r.contains(e) {
                let i = choose|i: int| 0 <= i < r.len() && r[i] == e;
                if i > 0 {
                    assert(s[i - 1] == e);
                }
            }
            if s.contains(e) {
                let i = choose|i: int| 0 <= i < s.len() && s[i] == e;
                assert(r[i + 1] == e);
            }
            if e == x {
                assert(r[0] == x);
            }
        }
    } else {
        let t = s.drop_first();
        assert forall|a: int, b: int| 0 <= a < b < t.len() implies !check_before(keys[t[b] as int], keys[t[a] as int]) by {
            assert(t[a] == s[a + 1] && t[b] == s[b + 1]);
        }
        lemma_insert_by_check(t, x, keys);
        let ri = insert_by_check(t, x, keys);
        assert(r =~= seq![s[0]] + ri);
        assert forall|a: int, b: int| 0 <= a < b < r.len() implies !check_before(keys[r[b] as int], keys[r[a] as int]) by {
            if a == 0 {
                assert(r[b] == ri[b - 1]);
                assert(ri.contains(ri[b - 1]));
                if ri[b - 1] != x {
                    assert(t.contains(ri[b - 1]));
                    let i = choose|i: int| 0 <= i < t.len() && t[i] == ri[b - 1];
                    assert(s[i + 1] == t[i]);
                }
            } else {
                assert(r[a] == ri[a - 1] && r[b] == ri[b - 1]);
            }
        }
        assert forall|e: usize| #[trigger] r.contains(e) <==> (s.contains(e) || e == x) by {
            if r.contains(e) {
                let i = choose|i: int| 0 <= i < r.len() && r[i] == e;
                if i > 0 {
                    assert(ri[i - 1] == e);
                    assert(ri.contains(e));
                    if t.contains(e) {
                        let k = choose|k: int| 0 <= k < t.len() && t[k] == e;
                        assert(s[k + 1] == e);
                    }
                } else {
                    assert(s[0] == e);
                }
            }
            if s.contains(e) {
                let i = choose|i: int| 0 <= i < s.len() && s[i] == e;
                if i == 0 {
                    assert(r[0] == e);
                } else {
                    assert(t[i - 1] == e);
                    assert(t.contains(e));
                    assert(ri.contains(e));
                    let k = choose|k: int| 0 <= k < ri.len() && ri[k] == e;
                    assert(r[k + 1] == e);
                }
            }
            if e == x {
                assert(ri.contains(x));
                let k = choose|k: int| 0 <= k < ri.len() && ri[k] == x;
                assert(r[k + 1] == x);
            }
        }
    }
}

proof fn lemma_sort_by_check(s: Seq<usize>, keys: Seq<Option<i64>>)
    ensures
        in_check_order(sort_by_check(s, keys), keys),
        sort_by_check(s, keys).len() == s.len(),
        forall|e: usize| #[trigger] sort_by_check(s, keys).contains(e) <==> s.contains(e),
    decreases s.len(),
{
    if s.len() > 0 {
        let d = s.drop_last();
        lemma_sort_by_check(d, keys);
        lemma_insert_by_check(sort_by_check(d, keys), s.last(), keys);
        assert forall|e: usize| #[trigger] sort_by_check(s, keys).contains(e) <==> s.contains(e) by {
            if s.contains(e) && e != s.last() {
                let i = choose|i: int| 0 <= i < s.len() && s[i] == e;
                assert(d[i] == e);
                assert(d.contains(e));
            }
            if d.contains(e) {
                let i = choose|i: int| 0 <= i < d.len() && d[i] == e;
                assert(s[i] == e);
            }
            if e == s.last() {
                assert(s[s.len() - 1] == e);
            }
        }
    } else {
        assert(sort_by_check(s, keys) =~= Seq::<usize>::empty());
    }
}

proof fn lemma_first_of_each(s: Seq<usize>, keys: Seq<Seq<char>>, times: Seq<Option<i64>>)
    requires
        in_check_order(s, times),
    ensures
        in_check_order(first_of_each(s, keys), times),
        forall|e: usize| #[trigger] first_of_each(s, keys).contains(e) ==> s.contains(e),
        forall|a: int, b: int| 0 <= a < b < first_of_each(s, keys).len() ==>
            keys[first_of_each(s, keys)[a] as int] != keys[first_of_each(s, keys)[b] as int],
        forall|j: int| 0 <= j < s.len() ==> exists|k: int| 0 <= k < first_of_each(s, keys).len()
            && keys[first_of_each(s, keys)[k] as int] == keys[#[trigger] s[j] as int],
    decreases s.len(),
{
    if s.len() > 0 {
        let t = s.drop_last();
        assert forall|a: int, b: int| 0 <= a < b < t.len() implies !check_before(times[t[b] as int], times[t[a] as int]) by {
            assert(t[a] == s[a] && t[b] == s[b]);
        }
        lemma_first_of_each(t, keys, times);
        let d = first_of_each(t, keys);
        let r = first_of_each(s, keys);
        let x = s.last();
        assert forall|e: usize| #[trigger] d.contains(e) implies s.contains(e) by {
            assert(t.contains(e));
            let i = choose|i: int| 0 <= i < t.len() && t[i] == e;
            assert(s[i] == e);
        }
        if exists|j: int| 0 <= j < s.len() - 1 && keys[s[j] as int] == keys[s.last() as int] {
            assert(r == d);
            assert forall|j: int| 0 <= j < s.len() implies exists|k: int| 0 <= k < r.len()
                && keys[r[k] as int] == keys[#[trigger] s[j] as int] by {
                if j < s.len() - 1 {
                    assert(t[j] == s[j]);
                } else {
                    let j2 = choose|j2: int| 0 <= j2 < s.len() - 1 && keys[s[j2] as int] == keys[s.last() as int];
                    assert(t[j2] == s[j2]);
                }
            }
        } else {
            assert(r == d.push(x));
            assert forall|a: int, b: int| 0 <= a < b < r.len() implies !check_before(times[r[b] as int], times[r[a] as int]) by {
                if b == r.len() - 1 {
                    assert(d.contains(r[a]));
                    assert(t.contains(r[a]));
                    let i = choose|i: int| 0 <= i < t.len() && t[i] == r[a];
                    assert(s[i] == r[a]);
                } else {
                    assert(r[a] == d[a] && r[b] == d[b]);
                }
            }
            assert forall|e: usize| #[trigger] r.contains(e) implies s.contains(e) by {
                let i = choose|i: int| 0 <= i < r.len() && r[i] == e;
                if i < d.len() {
                    assert(d[i] == e);
                    assert(d.contains(e));
                } else {
                    assert(s[s.len() - 1] == e);
                }
            }
            assert forall|a: int, b: int| 0 <= a < b < r.len() implies keys[r[a] as int] != keys[r[b] as int] by {
                if b == r.len() - 1 {
                    assert(d.contains(r[a]));
                    assert(t.contains(r[a]));
                    let i = choose|i: int| 0 <= i < t.len() && t[i] == r[a];
                    assert(s[i] == r[a]);
                } else {
                    assert(r[a] == d[a] && r[b] == d[b]);
                }
            }
            assert forall|j: int| 0 <= j < s.len() implies exists|k: int| 0 <= k < r.len()
                && keys[r[k] as int] == keys[#[trigger] s[j] as int] by {
                if j < s.len() - 1 {
                    assert(t[j] == s[j]);
                    let k = choose|k: int| 0 <= k < d.len() && keys[d[k] as int] == keys[t[j] as int];
                    assert(r[k] == d[k]);
                } else {
                    assert(r[r.len() - 1] == x);
                }
            }
        }
    }
}

proof fn lemma_positions(flags: Seq<bool>)
    requires
        flags.len() <= usize::MAX,
    ensures
        forall|e: usize| #[trigger] positions(flags).contains(e) <==> (e < flags.len() && flags[e as int]),
    decreases flags.len(),
{
    if flags.len() > 0 {
        let d = flags.drop_last();
        lemma_positions(d);
        let pd = positions(d);
        let r = positions(flags);
        let n = (flags.len() - 1) as usize;
        if flags.last() {
            assert(r == pd.push(n));
        } else {
            assert(r == pd);
        }
        assert forall|e: usize| #[trigger] r.contains(e) implies (e < flags.len() && flags[e as int]) by {
            let i = choose|i: int| 0 <= i < r.len() && r[i] == e;
            if i < pd.len() {
                assert(pd[i] == e);
                assert(pd.contains(e));
                assert(d[e as int] == flags[e as int]);
            } else {
                assert(e == n);
            }
        }
        assert forall|e: usize| e < flags.len() && flags[e as int] implies #[trigger] r.contains(e) by {
            if e == n {
                assert(flags.last());
                assert(r[r.len() - 1] == n);
            } else {
                assert(d[e as int] == flags[e as int]);
                assert(pd.contains(e));
                let i = choose|i: int| 0 <= i < pd.len() && pd[i] == e;
                assert(r[i] == e);
            }
        }
    }
}

/// The watches shown are watches, one per sender (or description), soonest
/// check first with unscheduled ones last, and every watched sender is among
/// them.
pub proof fn law_watches_once_per_sender_soonest_first(items: Seq<AttentionItem>)
    requires
        items.len() <= usize::MAX,
    ensures
        forall|k: int| 0 <= k < shown_monitors(items).len() ==>
            shown_monitors(items)[k] < items.len() && items[#[trigger] shown_monitors(items)[k] as int].monitor,
        forall|a: int, b: int| 0 <= a < b < shown_monitors(items).len() ==>
            monitor_key(items[shown_monitors(items)[a] as int]) != monitor_key(items[shown_monitors(items)[b] as int]),
        forall|a: int, b: int| 0 <= a < b < shown_monitors(items).len() ==>
            !check_before(items[shown_monitors(items)[b] as int].next_check_at, items[shown_monitors(items)[a] as int].next_check_at),
        forall|i: int| 0 <= i < items.len() && #[trigger] items[i].monitor ==>
            exists|k: int| 0 <= k < shown_monitors(items).len() && monitor_key(items[shown_monitors(items)[k] as int]) == monitor_key(items[i]),
{
    let flags = items.map_values(|it: AttentionItem| it.monitor);
    let times = items.map_values(|it: AttentionItem| it.next_check_at);
    let keys = items.map_values(|it: AttentionItem| monitor_key(it));
    let p = positions(flags);
    let q = sort_by_check(p, times);
    let r = shown_monitors(items);
    lemma_positions(flags);
    lemma_sort_by_check(p, times);
    lemma_first_of_each(q, keys, times);
    assert(r == first_of_each(q, keys));
    assert forall|k: int| 0 <= k < r.len() implies r[k] < items.len() && items[#[trigger] r[k] as int].monitor by {
        assert(r.contains(r[k]));
        assert(q.contains(r[k]));
        assert(p.contains(r[k]));
    }
    assert forall|a: int, b: int| 0 <= a < b < r.len() implies
        monitor_key(items[r[a] as int]) != monitor_key(items[r[b] as int]) by {
        assert(r.contains(r[a]) && q.contains(r[a]) && p.contains(r[a]));
        assert(r.contains(r[b]) && q.contains(r[b]) && p.contains(r[b]));
        assert(keys[r[a] as int] != keys[r[b] as int]);
    }
    assert forall|a: int, b: int| 0 <= a < b < r.len() implies
        !check_before(items[r[b] as int].next_check_at, items[r[a] as int].next_check_at) by {
        assert(r.contains(r[a]) && q.contains(r[a]) && p.contains(r[a]));
        assert(r.contains(r[b]) && q.contains(r[b]) && p.contains(r[b]));
        assert(!check_before(times[r[b] as int], times[r[a] as int]));
    }
    assert forall|i: int| 0 <= i < items.len() && #[trigger] items[i].monitor implies
        exists|k: int| 0 <= k < r.len() && monitor_key(items[r[k] as int]) == monitor_key(items[i]) by {
        assert(flags[i]);
        assert(p.contains(i as usize));
        assert(q.contains(i as usize));
        let j = choose|j: int| 0 <= j < q.len() && q[j] == i as usize;
        let k = choose|k: int| 0 <= k < r.len() && keys[r[k] as int] == keys[q[j] as int];
        assert(r.contains(r[k]) && q.contains(r[k]) && p.contains(r[k]));
    }
}

} // verus!
