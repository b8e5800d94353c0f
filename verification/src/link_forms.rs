use vstd::prelude::*;
use crate::media::{
    all_digits, dailymotion_id, embed_url_of, id_after, instagram_id, reddit_id, rumble_id,
    platform_of, spotify_id, stops_path, stops_query, streamable_id, tiktok_id, twitter_id, video_of,
    vimeo_id, youtube_id, MediaPlatform,
};
use crate::text::{
    ends, lemma_absent_char, lemma_absent_first_missing, lemma_absent_joined, lemma_absent_last_missing,
    lemma_end_chars, lemma_first_after, lemma_first_match, lemma_first_match_kept, lemma_match_chars,
    lemma_no_match, lemma_not_word_slash, lemma_search, lemma_second_piece_after_lead, lemma_until_stop,
    lowercased, matches_at, nth_piece, occurs, search, second_piece, starts, trim, until_any,
};

verus! {

// The link forms that the extractors' documentation names, each shown to
// give back the id written in it.

/// A video id or name as platforms write them in links: ASCII letters,
/// digits, '-' and '_'.
pub open spec fn plain_id(id: Seq<char>) -> bool {
    forall|i: int| 0 <= i < id.len() ==> {
        let c = #[trigger] id[i];
        ('a' <= c <= 'z') || ('A' <= c <= 'Z') || ('0' <= c <= '9') || c == '-' || c == '_'
    }
}

/// A plain id holds none of the chars that end an id, begin a query or
/// separate the parts of a link.
proof fn lemma_plain_lacks(id: Seq<char>)
    requires
        plain_id(id),
    ensures
        !id.contains('/'),
        !id.contains('='),
        !id.contains(':'),
        !id.contains('.'),
        forall|i: int| 0 <= i < id.len() ==> !stops_query().contains(#[trigger] id[i]),
        forall|i: int| 0 <= i < id.len() ==> !stops_path().contains(#[trigger] id[i]),
{
    assert forall|i: int| 0 <= i < id.len() implies !stops_query().contains(#[trigger] id[i]) by {
        assert(stops_query() =~= seq!['?', '&', '#']);
    }
    assert forall|i: int| 0 <= i < id.len() implies !stops_path().contains(#[trigger] id[i]) by {
        assert(stops_path() =~= seq!['?', '&', '#', '/']);
    }
    if id.contains('/') {
        let i = choose|i: int| 0 <= i < id.len() && id[i] == '/';
        assert(plain_id(id));
    }
    if id.contains('=') {
        let i = choose|i: int| 0 <= i < id.len() && id[i] == '=';
        assert(plain_id(id));
    }
    if id.contains(':') {
        let i = choose|i: int| 0 <= i < id.len() && id[i] == ':';
        assert(plain_id(id));
    }
    if id.contains('.') {
        let i = choose|i: int| 0 <= i < id.len() && id[i] == '.';
        assert(plain_id(id));
    }
}

/// After a lead in which `key` first occurs at its very end, an id without
/// any of `stops`, followed by `tail` (empty, or starting with one of
/// `stops`), is the id found after `key`.
proof fn lemma_id_after_lead(lead: Seq<char>, key: Seq<char>, id: Seq<char>, tail: Seq<char>, stops: Seq<char>)
    requires
        key.len() > 0,
        search(lead, key, 0) == Some(lead.len() - key.len()),
        !occurs(id + tail, key),
        forall|i: int| 0 <= i < id.len() ==> !stops.contains(#[trigger] id[i]),
        tail.len() == 0 || stops.contains(tail[0]),
    ensures
        occurs(lead + id + tail, key),
        id_after(lead + id + tail, key, stops) == Some(id),
{
    lemma_second_piece_after_lead(lead, key, id, tail);
    lemma_until_stop(id, tail, stops);
}

/// After a lead in which `key` first occurs at its very end, an id without
/// the first char of `key` and without any of `stops`, followed by any text
/// that is empty or starts with one of `stops`, is the id found after `key`,
/// whatever that text holds.
proof fn lemma_id_cut_at_stop(lead: Seq<char>, key: Seq<char>, id: Seq<char>, tail: Seq<char>, stops: Seq<char>)
    requires
        key.len() > 0,
        search(lead, key, 0) == Some(lead.len() - key.len()),
        !id.contains(key[0]),
        forall|i: int| 0 <= i < id.len() ==> !stops.contains(#[trigger] id[i]),
        tail.len() == 0 || stops.contains(tail[0]),
    ensures
        occurs(lead + id + tail, key),
        id_after(lead + id + tail, key, stops) == Some(id),
{
    let r = id + tail;
    let u = lead + id + tail;
    assert(u =~= lead + r);
    lemma_first_match_kept(lead, r, key, lead.len() - key.len());
    assert(u.skip(lead.len() as int) =~= r);
    assert(second_piece(u, key) == nth_piece(r, key, 0));
    lemma_search(r, key, 0);
    match search(r, key, 0) {
        None => {
            assert(nth_piece(r, key, 0) == Some(r));
            lemma_until_stop(id, tail, stops);
        },
        Some(m) => {
            if m < id.len() {
                assert(r.subrange(m, m + key.len())[0] == r[m]);
                assert(id[m] == key[0]);
            }
            let t = tail.take(m - id.len());
            assert(r.take(m) =~= id + t);
            if t.len() > 0 {
                assert(t[0] == tail[0]);
            }
            assert(nth_piece(r, key, 0) == Some(r.take(m)));
            lemma_until_stop(id, t, stops);
        },
    }
}

/// An id that lacks the last char of `key` holds no `key`.
proof fn lemma_id_lacks_key(id: Seq<char>, key: Seq<char>)
    requires
        key.len() > 0,
        !id.contains(key.last()),
    ensures
        !occurs(id, key),
{
    let nothing = Seq::<char>::empty();
    lemma_no_match(nothing, key);
    lemma_absent_last_missing(nothing, id, key);
    assert(nothing + id =~= id);
}

/// A char that may stand in a query or fragment after an id.
pub open spec fn query_char(c: char) -> bool {
    ||| ('a' <= c <= 'z') || ('A' <= c <= 'Z') || ('0' <= c <= '9') || c == '-' || c == '_'
    ||| c == '?' || c == '&' || c == '#' || c == '='
}

/// What may follow an id in a link: nothing, or a query or fragment that
/// starts with '?', '&' or '#' and holds only letters, digits, '-', '_', '?',
/// '&', '#' and '='.
pub open spec fn query_tail(q: Seq<char>) -> bool {
    q.len() == 0 || ((q[0] == '?' || q[0] == '&' || q[0] == '#')
        && forall|i: int| 0 <= i < q.len() ==> query_char(#[trigger] q[i]))
}

proof fn lemma_query_lacks(q: Seq<char>)
    requires
        query_tail(q),
    ensures
        !q.contains('/'),
        !q.contains('.'),
        !q.contains(':'),
        q.len() > 0 ==> stops_query().contains(q[0]) && stops_path().contains(q[0]) && q[0] != '=',
{
    assert(stops_query() =~= seq!['?', '&', '#']);
    assert(stops_path() =~= seq!['?', '&', '#', '/']);
    if q.len() > 0 {
        if q[0] == '?' {
            assert(stops_query()[0] == q[0] && stops_path()[0] == q[0]);
        } else if q[0] == '&' {
            assert(stops_query()[1] == q[0] && stops_path()[1] == q[0]);
        } else {
            assert(stops_query()[2] == q[0] && stops_path()[2] == q[0]);
        }
    }
    if q.contains('/') {
        let i = choose|i: int| 0 <= i < q.len() && q[i] == '/';
        assert(query_char(q[i]));
    }
    if q.contains('.') {
        let i = choose|i: int| 0 <= i < q.len() && q[i] == '.';
        assert(query_char(q[i]));
    }
    if q.contains(':') {
        let i = choose|i: int| 0 <= i < q.len() && q[i] == ':';
        assert(query_char(q[i]));
    }
}

/// A plain id followed by a query lacks every key holding '/', '.' or ':'.
proof fn lemma_tail_lacks(id: Seq<char>, q: Seq<char>, key: Seq<char>, c: char)
    requires
        plain_id(id),
        query_tail(q),
        key.contains(c),
        c == '/' || c == '.' || c == ':',
    ensures
        !(id + q).contains(c),
        !occurs(id + q, key),
{
    lemma_plain_lacks(id);
    lemma_query_lacks(q);
    if (id + q).contains(c) {
        let i = choose|i: int| 0 <= i < (id + q).len() && (id + q)[i] == c;
        if i < id.len() {
            assert(id[i] == c);
        } else {
            assert(q[i - id.len()] == c);
        }
    }
    lemma_absent_char(id + q, key, c);
}

/// A plain id followed by '/' and a query lacks every key that starts and
/// ends with '/'.
proof fn lemma_slash_tail_lacks(id: Seq<char>, q: Seq<char>, key: Seq<char>)
    requires
        plain_id(id),
        query_tail(q),
        key.len() >= 2,
        key[0] == '/',
        key.last() == '/',
    ensures
        !occurs(id + (seq!['/'] + q), key),
{
    lemma_plain_lacks(id);
    lemma_query_lacks(q);
    let s = seq!['/'];
    lemma_no_match(s, key);
    lemma_absent_last_missing(s, q, key);
    lemma_absent_first_missing(id, s + q, key);
}

/// A plain id followed by a query without "v=" holds no "v=".
proof fn lemma_tail_lacks_v(id: Seq<char>, q: Seq<char>)
    requires
        plain_id(id),
        query_tail(q),
        !occurs(q, seq!['v', '=']),
    ensures
        !occurs(id + q, seq!['v', '=']),
{
    let k = seq!['v', '='];
    lemma_plain_lacks(id);
    lemma_query_lacks(q);
    assert(k[1] == '=');
    lemma_absent_char(id, k, '=');
    assert forall|t: int| 0 < t < k.len() implies !(ends(id, #[trigger] k.take(t)) && starts(q, k.skip(t))) by {
        if starts(q, k.skip(t)) {
            assert(k.skip(t)[0] == '=');
            assert(q.take(k.skip(t).len() as int)[0] == q[0]);
        }
    }
    lemma_absent_joined(id, q, k);
}

/// Each YouTube link form the extractor handles gives back the video id, bare
/// or followed by a query or fragment without "v=": `youtu.be/ID`,
/// `youtube.com/watch?v=ID`, `youtube.com/embed/ID`, `youtube.com/shorts/ID`.
proof fn lemma_youtube_forms(id: Seq<char>, q: Seq<char>)
    requires
        plain_id(id),
        query_tail(q),
        !occurs(q, "v="@),
    ensures
        youtube_id("https://youtu.be/"@ + id + q) == Some(id),
        youtube_id("https://www.youtube.com/watch?v="@ + id + q) == Some(id),
        youtube_id("https://www.youtube.com/embed/"@ + id + q) == Some(id),
        youtube_id("https://www.youtube.com/shorts/"@ + id + q) == Some(id),
{
    reveal_strlit("https://youtu.be/");
    reveal_strlit("https://www.youtube.com/watch?v=");
    reveal_strlit("https://www.youtube.com/embed/");
    reveal_strlit("https://www.youtube.com/shorts/");
    reveal_strlit("youtu.be/");
    reveal_strlit("v=");
    reveal_strlit("/embed/");
    reveal_strlit("/shorts/");
    lemma_plain_lacks(id);
    lemma_query_lacks(q);
    let k1 = "youtu.be/"@;
    let k2 = "v="@;
    let k3 = "/embed/"@;
    let k4 = "/shorts/"@;
    assert(k2 =~= seq!['v', '=']);
    assert(k1.contains('/')) by { assert(k1[8] == '/'); }
    assert(k3.contains('/')) by { assert(k3[0] == '/'); }
    assert(k4.contains('/')) by { assert(k4[0] == '/'); }
    lemma_tail_lacks(id, q, k1, '/');
    lemma_tail_lacks(id, q, k3, '/');
    lemma_tail_lacks(id, q, k4, '/');
    lemma_tail_lacks_v(id, q);

    let a = "https://youtu.be/"@;
    assert forall|j: int| 0 <= j < 8 implies !matches_at(a, k1, j) by {
        if matches_at(a, k1, j) {
            lemma_match_chars(a, k1, j);
        }
    }
    assert(a.subrange(8int, 8int + k1.len()) =~= k1);
    lemma_first_match(a, k1, 8);
    lemma_id_after_lead(a, k1, id, q, stops_query());

    let w = "https://www.youtube.com/watch?v="@;
    assert forall|j: int| 0 <= j implies !matches_at(w, k1, j) by {
        if matches_at(w, k1, j) {
            lemma_match_chars(w, k1, j);
        }
    }
    lemma_no_match(w, k1);
    assert forall|j: int| 0 <= j < 30 implies !matches_at(w, k2, j) by {
        if matches_at(w, k2, j) {
            lemma_match_chars(w, k2, j);
        }
    }
    assert(w.subrange(30int, 30int + k2.len()) =~= k2);
    lemma_first_match(w, k2, 30);
    assert(w + id + q =~= w + (id + q));
    lemma_absent_last_missing(w, id + q, k1);
    lemma_id_after_lead(w, k2, id, q, stops_query());

    let c = "https://www.youtube.com/embed/"@;
    assert forall|j: int| 0 <= j implies !matches_at(c, k1, j) by {
        if matches_at(c, k1, j) {
            lemma_match_chars(c, k1, j);
        }
    }
    lemma_no_match(c, k1);
    assert forall|j: int| 0 <= j implies !matches_at(c, k2, j) by {
        if matches_at(c, k2, j) {
            lemma_match_chars(c, k2, j);
        }
    }
    lemma_no_match(c, k2);
    assert forall|j: int| 0 <= j < 23 implies !matches_at(c, k3, j) by {
        if matches_at(c, k3, j) {
            lemma_match_chars(c, k3, j);
        }
    }
    assert(c.subrange(23int, 23int + k3.len()) =~= k3);
    lemma_first_match(c, k3, 23);
    assert(c + id + q =~= c + (id + q));
    lemma_absent_last_missing(c, id + q, k1);
    assert forall|t: int| 0 < t < k2.len() implies !(ends(c, #[trigger] k2.take(t)) && starts(id + q, k2.skip(t))) by {
        if ends(c, k2.take(t)) {
            lemma_end_chars(c, k2.take(t));
        }
    }
    lemma_absent_joined(c, id + q, k2);
    lemma_id_after_lead(c, k3, id, q, stops_query());

    let d = "https://www.youtube.com/shorts/"@;
    assert forall|j: int| 0 <= j implies !matches_at(d, k1, j) by {
        if matches_at(d, k1, j) {
            lemma_match_chars(d, k1, j);
        }
    }
    lemma_no_match(d, k1);
    assert forall|j: int| 0 <= j implies !matches_at(d, k2, j) by {
        if matches_at(d, k2, j) {
            lemma_match_chars(d, k2, j);
        }
    }
    lemma_no_match(d, k2);
    assert forall|j: int| 0 <= j implies !matches_at(d, k3, j) by {
        if matches_at(d, k3, j) {
            lemma_match_chars(d, k3, j);
        }
    }
    lemma_no_match(d, k3);
    assert forall|j: int| 0 <= j < 23 implies !matches_at(d, k4, j) by {
        if matches_at(d, k4, j) {
            lemma_match_chars(d, k4, j);
        }
    }
    assert(d.subrange(23int, 23int + k4.len()) =~= k4);
    lemma_first_match(d, k4, 23);
    assert(d + id + q =~= d + (id + q));
    lemma_absent_last_missing(d, id + q, k1);
    lemma_absent_last_missing(d, id + q, k3);
    assert forall|t: int| 0 < t < k2.len() implies !(ends(d, #[trigger] k2.take(t)) && starts(id + q, k2.skip(t))) by {
        if ends(d, k2.take(t)) {
            lemma_end_chars(d, k2.take(t));
        }
    }
    lemma_absent_joined(d, id + q, k2);
    lemma_id_after_lead(d, k4, id, q, stops_query());
}

/// Each YouTube link form the extractor handles gives back the video id, bare
/// or followed by a query or fragment (such as `?t=5` or `&list=x`) that
/// holds no "v=": `youtu.be/ID`, `youtube.com/watch?v=ID`,
/// `youtube.com/embed/ID`, `youtube.com/shorts/ID`; and so does the player's
/// own embed link for the id.
pub proof fn law_youtube_links_give_back_the_id(id: Seq<char>, q: Seq<char>)
    requires
        plain_id(id),
        query_tail(q),
        !occurs(q, "v="@),
    ensures
        youtube_id("https://youtu.be/"@ + id + q) == Some(id),
        youtube_id("https://www.youtube.com/watch?v="@ + id + q) == Some(id),
        youtube_id("https://www.youtube.com/embed/"@ + id + q) == Some(id),
        youtube_id("https://www.youtube.com/shorts/"@ + id + q) == Some(id),
        youtube_id(embed_url_of("youtube"@, id)) == Some(id),
{
    lemma_youtube_forms(id, q);
    reveal_strlit("?autoplay=0");
    reveal_strlit("youtube");
    reveal_strlit("https://www.youtube.com/embed/");
    reveal_strlit("v=");
    let t = "?autoplay=0"@;
    let k2 = "v="@;
    assert forall|j: int| 0 <= j implies !matches_at(t, k2, j) by {
        if matches_at(t, k2, j) {
            lemma_match_chars(t, k2, j);
        }
    }
    lemma_no_match(t, k2);
    assert(query_tail(t)) by {
        assert forall|i: int| 0 <= i < t.len() implies query_char(#[trigger] t[i]) by {}
    }
    lemma_youtube_forms(id, t);
    assert(embed_url_of("youtube"@, id) == "https://www.youtube.com/embed/"@ + id + t);
}

/// Each TikTok link form the extractor's documentation names gives back the
/// video id, bare or followed by a query or fragment (such as `?lang=en`):
/// `tiktok.com/@user/video/ID` and `vm.tiktok.com/ID`; a profile link
/// `tiktok.com/@user` gives none.
pub proof fn law_tiktok_links_give_back_the_id(user: Seq<char>, id: Seq<char>, q: Seq<char>)
    requires
        plain_id(user),
        plain_id(id),
        query_tail(q),
    ensures
        tiktok_id("https://www.tiktok.com/@"@ + user + "/video/"@ + id + q) == Some(id),
        tiktok_id("https://vm.tiktok.com/"@ + id + q) == Some(id),
        tiktok_id("https://www.tiktok.com/@"@ + user) is None,
{
    reveal_strlit("https://www.tiktok.com/@");
    reveal_strlit("https://vm.tiktok.com/");
    reveal_strlit("/video/");
    reveal_strlit("vm.tiktok.com/");
    lemma_plain_lacks(user);
    lemma_plain_lacks(id);
    lemma_query_lacks(q);
    let e = Seq::<char>::empty();
    let k = "/video/"@;
    let k2 = "vm.tiktok.com/"@;
    assert(k.contains('/')) by { assert(k[0] == '/'); }
    assert(k2.contains('.')) by { assert(k2[2] == '.'); }
    lemma_tail_lacks(id, q, k, '/');
    lemma_tail_lacks(id, q, k2, '.');

    let x = "https://www.tiktok.com/@"@;
    assert forall|j: int| 0 <= j implies !matches_at(x, k, j) by {
        if matches_at(x, k, j) {
            lemma_match_chars(x, k, j);
        }
    }
    lemma_no_match(x, k);
    assert forall|t: int| 1 <= t < k.len() implies !ends(x, #[trigger] k.take(t)) by {
        if ends(x, k.take(t)) {
            lemma_end_chars(x, k.take(t));
        }
    }
    lemma_first_after(x, user, k, e);
    let lead = x + user + k;
    assert(lead + e =~= lead);
    lemma_id_after_lead(lead, k, id, q, stops_path());
    assert(lead + id + q =~= x + user + k + id + q);
    assert forall|j: int| 0 <= j implies !matches_at(x, k2, j) by {
        if matches_at(x, k2, j) {
            lemma_match_chars(x, k2, j);
        }
    }
    lemma_no_match(x, k2);
    lemma_absent_last_missing(x, user, k);
    lemma_absent_last_missing(x, user, k2);

    let v = "https://vm.tiktok.com/"@;
    assert forall|j: int| 0 <= j implies !matches_at(v, k, j) by {
        if matches_at(v, k, j) {
            lemma_match_chars(v, k, j);
        }
    }
    lemma_no_match(v, k);
    assert forall|j: int| 0 <= j < 8 implies !matches_at(v, k2, j) by {
        if matches_at(v, k2, j) {
            lemma_match_chars(v, k2, j);
        }
    }
    assert(v.subrange(8int, 8int + k2.len()) =~= k2);
    lemma_first_match(v, k2, 8);
    assert(v + id + q =~= v + (id + q));
    lemma_absent_last_missing(v, id + q, k);
    lemma_id_after_lead(v, k2, id, q, stops_path());
}

/// Each Vimeo link form the extractor's documentation names gives back the
/// video id, bare or followed by a query or fragment (such as `?h=1`):
/// `vimeo.com/ID` for a numeric id, and `player.vimeo.com/video/ID`; a
/// channel link gives none.
pub proof fn law_vimeo_links_give_back_the_id(num: Seq<char>, id: Seq<char>, q: Seq<char>)
    requires
        all_digits(num),
        plain_id(id),
        query_tail(q),
    ensures
        vimeo_id("https://vimeo.com/"@ + num + q) == Some(num),
        vimeo_id("https://player.vimeo.com/video/"@ + id + q) == Some(id),
        vimeo_id("https://vimeo.com/channels/staffpicks"@) is None,
{
    reveal_strlit("https://vimeo.com/");
    reveal_strlit("https://player.vimeo.com/video/");
    reveal_strlit("/video/");
    reveal_strlit("vimeo.com/");
    reveal_strlit("https://vimeo.com/channels/staffpicks");
    reveal_strlit("channels");
    reveal_strlit("/staffpicks");
    assert(plain_id(num));
    lemma_plain_lacks(num);
    lemma_plain_lacks(id);
    lemma_query_lacks(q);
    let k = "/video/"@;
    let k2 = "vimeo.com/"@;
    assert(k.contains('/')) by { assert(k[0] == '/'); }
    assert(k2.contains('.')) by { assert(k2[5] == '.'); }
    lemma_tail_lacks(id, q, k, '/');
    lemma_tail_lacks(num, q, k, '/');
    lemma_tail_lacks(num, q, k2, '.');

    let a = "https://vimeo.com/"@;
    assert forall|j: int| 0 <= j implies !matches_at(a, k, j) by {
        if matches_at(a, k, j) {
            lemma_match_chars(a, k, j);
        }
    }
    lemma_no_match(a, k);
    assert forall|j: int| 0 <= j < 8 implies !matches_at(a, k2, j) by {
        if matches_at(a, k2, j) {
            lemma_match_chars(a, k2, j);
        }
    }
    assert(a.subrange(8int, 8int + k2.len()) =~= k2);
    lemma_first_match(a, k2, 8);
    assert(a + num + q =~= a + (num + q));
    lemma_absent_last_missing(a, num + q, k);
    lemma_id_after_lead(a, k2, num, q, stops_path());

    let b = "https://player.vimeo.com/video/"@;
    assert forall|j: int| 0 <= j < 24 implies !matches_at(b, k, j) by {
        if matches_at(b, k, j) {
            lemma_match_chars(b, k, j);
        }
    }
    assert(b.subrange(24int, 24int + k.len()) =~= k);
    lemma_first_match(b, k, 24);
    lemma_id_after_lead(b, k, id, q, stops_path());

    let n = "https://vimeo.com/channels/staffpicks"@;
    let ch = "channels"@;
    let sp = "/staffpicks"@;
    assert(n =~= a + ch + sp);
    assert forall|j: int| 0 <= j implies !matches_at(n, k, j) by {
        if matches_at(n, k, j) {
            lemma_match_chars(n, k, j);
        }
    }
    lemma_no_match(n, k);
    assert(!(ch + sp).contains('.')) by {
        assert forall|i: int| 0 <= i < (ch + sp).len() implies (ch + sp)[i] != '.' by {
            if i < ch.len() {
                assert((ch + sp)[i] == ch[i]);
            } else {
                assert((ch + sp)[i] == sp[i - ch.len()]);
            }
        }
    }
    lemma_absent_char(ch + sp, k2, '.');
    lemma_second_piece_after_lead(a, k2, ch, sp);
    assert(stops_path() =~= seq!['?', '&', '#', '/']);
    assert forall|i: int| 0 <= i < ch.len() implies !stops_path().contains(#[trigger] ch[i]) by {
        if stops_path().contains(ch[i]) {
            let j = choose|j: int| 0 <= j < stops_path().len() && stops_path()[j] == ch[i];
        }
    }
    assert(stops_path().contains(sp[0])) by {
        assert(stops_path()[3] == sp[0]);
    }
    lemma_until_stop(ch, sp, stops_path());
    assert(!all_digits(ch)) by {
        assert(ch[0] == 'c');
    }
}

/// Each Dailymotion link form the extractor's documentation names gives back
/// the video id, bare or followed by a query or fragment (such as
/// `?playlist=x`): `dailymotion.com/video/ID` and `dai.ly/ID`; the bare site
/// gives none.
pub proof fn law_dailymotion_links_give_back_the_id(id: Seq<char>, q: Seq<char>)
    requires
        plain_id(id),
        query_tail(q),
    ensures
        dailymotion_id("https://www.dailymotion.com/video/"@ + id + q) == Some(id),
        dailymotion_id("https://dai.ly/"@ + id + q) == Some(id),
        dailymotion_id("https://www.dailymotion.com/"@) is None,
{
    reveal_strlit("https://www.dailymotion.com/video/");
    reveal_strlit("https://dai.ly/");
    reveal_strlit("/video/");
    reveal_strlit("dai.ly/");
    reveal_strlit("https://www.dailymotion.com/");
    lemma_plain_lacks(id);
    lemma_query_lacks(q);
    let k = "/video/"@;
    let k2 = "dai.ly/"@;
    assert(k.contains('/')) by { assert(k[0] == '/'); }
    assert(k2.contains('.')) by { assert(k2[3] == '.'); }
    lemma_tail_lacks(id, q, k, '/');
    lemma_tail_lacks(id, q, k2, '.');

    let a = "https://www.dailymotion.com/video/"@;
    assert forall|j: int| 0 <= j < 27 implies !matches_at(a, k, j) by {
        if matches_at(a, k, j) {
            lemma_match_chars(a, k, j);
        }
    }
    assert(a.subrange(27int, 27int + k.len()) =~= k);
    lemma_first_match(a, k, 27);
    lemma_id_after_lead(a, k, id, q, stops_path());

    let b = "https://dai.ly/"@;
    assert forall|j: int| 0 <= j implies !matches_at(b, k, j) by {
        if matches_at(b, k, j) {
            lemma_match_chars(b, k, j);
        }
    }
    lemma_no_match(b, k);
    assert forall|j: int| 0 <= j < 8 implies !matches_at(b, k2, j) by {
        if matches_at(b, k2, j) {
            lemma_match_chars(b, k2, j);
        }
    }
    assert(b.subrange(8int, 8int + k2.len()) =~= k2);
    lemma_first_match(b, k2, 8);
    assert(b + id + q =~= b + (id + q));
    lemma_absent_last_missing(b, id + q, k);
    lemma_id_after_lead(b, k2, id, q, stops_path());

    let m = "https://www.dailymotion.com/"@;
    assert forall|j: int| 0 <= j implies !matches_at(m, k, j) by {
        if matches_at(m, k, j) {
            lemma_match_chars(m, k, j);
        }
    }
    lemma_no_match(m, k);
    assert forall|j: int| 0 <= j implies !matches_at(m, k2, j) by {
        if matches_at(m, k2, j) {
            lemma_match_chars(m, k2, j);
        }
    }
    lemma_no_match(m, k2);
}

/// Each Twitter/X link form the extractor's documentation names gives back
/// the tweet id: `twitter.com/user/status/ID` and `x.com/user/status/ID`, for
/// any user name but "status" itself, bare or followed by a query, a fragment
/// or further path; a link to a profile alone, `x.com/user` or
/// `twitter.com/user`, gives nothing.
pub proof fn law_twitter_links_give_back_the_id(user: Seq<char>, id: Seq<char>, tail: Seq<char>)
    requires
        plain_id(user),
        user != "status"@,
        plain_id(id),
        path_tail(tail),
    ensures
        twitter_id("https://twitter.com/"@ + user + "/status/"@ + id + tail) == Some(id),
        twitter_id("https://x.com/"@ + user + "/status/"@ + id + tail) == Some(id),
        twitter_id("https://x.com/"@ + user) is None,
        twitter_id("https://twitter.com/"@ + user) is None,
{
    reveal_strlit("https://twitter.com/");
    reveal_strlit("https://x.com/");
    reveal_strlit("/status/");
    reveal_strlit("status");
    lemma_plain_lacks(user);
    lemma_plain_lacks(id);
    let e = Seq::<char>::empty();
    let k = "/status/"@;
    let w = "status"@;
    assert(!w.contains('/'));
    lemma_path_tail_stops(tail);

    let a = "https://twitter.com/"@;
    assert forall|j: int| 0 <= j implies !matches_at(a, k, j) by {
        if matches_at(a, k, j) {
            lemma_match_chars(a, k, j);
        }
    }
    lemma_no_match(a, k);
    assert forall|t: int| 0 < t < k.len() implies !(ends(a, #[trigger] k.take(t)) && starts(user + k + e, k.skip(t))) by {
        if t == 1 {
            assert(k.skip(1) =~= w + seq!['/']);
            assert(user + k + e =~= user + (k + e));
            lemma_not_word_slash(user, k + e, w);
        } else if ends(a, k.take(t)) {
            lemma_end_chars(a, k.take(t));
        }
    }
    lemma_first_after(a, user, k, e);
    let lead = a + user + k;
    assert(lead + e =~= lead);
    lemma_id_cut_at_stop(lead, k, id, tail, stops_path());
    assert(lead + id + tail =~= a + user + k + id + tail);
    lemma_absent_last_missing(a, user, k);

    let b = "https://x.com/"@;
    assert forall|j: int| 0 <= j implies !matches_at(b, k, j) by {
        if matches_at(b, k, j) {
            lemma_match_chars(b, k, j);
        }
    }
    lemma_no_match(b, k);
    assert forall|t: int| 0 < t < k.len() implies !(ends(b, #[trigger] k.take(t)) && starts(user + k + e, k.skip(t))) by {
        if t == 1 {
            assert(k.skip(1) =~= w + seq!['/']);
            assert(user + k + e =~= user + (k + e));
            lemma_not_word_slash(user, k + e, w);
        } else if ends(b, k.take(t)) {
            lemma_end_chars(b, k.take(t));
        }
    }
    lemma_first_after(b, user, k, e);
    let lead2 = b + user + k;
    assert(lead2 + e =~= lead2);
    lemma_id_cut_at_stop(lead2, k, id, tail, stops_path());
    assert(lead2 + id + tail =~= b + user + k + id + tail);
    lemma_absent_last_missing(b, user, k);
}

/// A tail that ends an id: nothing, or text that starts with '?', '&', '#'
/// or '/'.
pub open spec fn path_tail(tail: Seq<char>) -> bool {
    tail.len() == 0 || tail[0] == '?' || tail[0] == '&' || tail[0] == '#' || tail[0] == '/'
}

proof fn lemma_path_tail_stops(tail: Seq<char>)
    requires
        path_tail(tail),
    ensures
        tail.len() == 0 || stops_path().contains(tail[0]),
{
    assert(stops_path() =~= seq!['?', '&', '#', '/']);
    if tail.len() > 0 {
        if tail[0] == '?' {
            assert(stops_path()[0] == tail[0]);
        } else if tail[0] == '&' {
            assert(stops_path()[1] == tail[0]);
        } else if tail[0] == '#' {
            assert(stops_path()[2] == tail[0]);
        } else {
            assert(stops_path()[3] == tail[0]);
        }
    }
}

/// Each Reddit link form the extractor handles gives back the post id:
/// `reddit.com/r/subreddit/comments/ID`, for any subreddit but "comments"
/// itself, bare or followed by the title slug (`/ID/slug/`), a query or
/// anything else after a '/', '?', '&' or '#'; and `redd.it/ID`, bare or with
/// a query or fragment. A link to a subreddit alone, `reddit.com/r/sub/`,
/// gives nothing.
pub proof fn law_reddit_links_give_back_the_id(sub: Seq<char>, id: Seq<char>, tail: Seq<char>, q: Seq<char>)
    requires
        plain_id(sub),
        sub != "comments"@,
        plain_id(id),
        path_tail(tail),
        query_tail(q),
    ensures
        reddit_id("https://www.reddit.com/r/"@ + sub + "/comments/"@ + id + tail) == Some(id),
        reddit_id("https://redd.it/"@ + id + q) == Some(id),
        reddit_id("https://www.reddit.com/r/"@ + sub + "/"@) is None,
{
    reveal_strlit("https://www.reddit.com/r/");
    reveal_strlit("https://redd.it/");
    reveal_strlit("/comments/");
    reveal_strlit("comments");
    reveal_strlit("redd.it/");
    reveal_strlit("/");
    lemma_plain_lacks(sub);
    lemma_plain_lacks(id);
    lemma_path_tail_stops(tail);
    lemma_query_lacks(q);
    let e = Seq::<char>::empty();
    let s = "/"@;
    let k = "/comments/"@;
    let k2 = "redd.it/"@;
    let w = "comments"@;
    assert(!w.contains('/'));

    let a = "https://www.reddit.com/r/"@;
    assert forall|j: int| 0 <= j implies !matches_at(a, k, j) by {
        if matches_at(a, k, j) {
            lemma_match_chars(a, k, j);
        }
    }
    lemma_no_match(a, k);
    assert forall|t: int| 0 < t < k.len() implies !(ends(a, #[trigger] k.take(t)) && starts(sub + k + e, k.skip(t))) by {
        if t == 1 {
            assert(k.skip(1) =~= w + seq!['/']);
            assert(sub + k + e =~= sub + (k + e));
            lemma_not_word_slash(sub, k + e, w);
        } else if ends(a, k.take(t)) {
            lemma_end_chars(a, k.take(t));
        }
    }
    lemma_first_after(a, sub, k, e);
    let lead = a + sub + k;
    assert(lead + e =~= lead);
    lemma_id_cut_at_stop(lead, k, id, tail, stops_path());
    assert(lead + id + tail =~= a + sub + k + id + tail);

    // A subreddit link holds neither key.
    assert forall|j: int| 0 <= j implies !matches_at(s, k, j) by {
        if matches_at(s, k, j) {
            lemma_match_chars(s, k, j);
        }
    }
    lemma_no_match(s, k);
    lemma_absent_first_missing(sub, s, k);
    assert forall|t: int| 0 < t < k.len() implies !(ends(a, #[trigger] k.take(t)) && starts(sub + s, k.skip(t))) by {
        if t == 1 {
            assert(k.skip(1) =~= w + seq!['/']);
            lemma_not_word_slash(sub, s, w);
        } else if ends(a, k.take(t)) {
            lemma_end_chars(a, k.take(t));
        }
    }
    lemma_absent_joined(a, sub + s, k);
    assert forall|j: int| 0 <= j implies !matches_at(a, k2, j) by {
        if matches_at(a, k2, j) {
            lemma_match_chars(a, k2, j);
        }
    }
    lemma_no_match(a, k2);
    assert(k2[4] == '.');
    assert(!(sub + s).contains('.')) by {
        if (sub + s).contains('.') {
            let i = choose|i: int| 0 <= i < (sub + s).len() && (sub + s)[i] == '.';
            if i < sub.len() {
                assert(sub[i] == '.');
            }
        }
    }
    lemma_absent_char(sub + s, k2, '.');
    assert forall|t: int| 0 < t < k2.len() implies !(ends(a, #[trigger] k2.take(t)) && starts(sub + s, k2.skip(t))) by {
        if ends(a, k2.take(t)) {
            lemma_end_chars(a, k2.take(t));
        }
    }
    lemma_absent_joined(a, sub + s, k2);
    assert(a + (sub + s) =~= a + sub + s);

    let b = "https://redd.it/"@;
    assert forall|j: int| 0 <= j implies !matches_at(b, k, j) by {
        if matches_at(b, k, j) {
            lemma_match_chars(b, k, j);
        }
    }
    lemma_no_match(b, k);
    assert forall|j: int| 0 <= j < 8 implies !matches_at(b, k2, j) by {
        if matches_at(b, k2, j) {
            lemma_match_chars(b, k2, j);
        }
    }
    assert(b.subrange(8int, 8int + k2.len()) =~= k2);
    lemma_first_match(b, k2, 8);
    assert(k[0] == '/' && k2[7] == '/');
    lemma_tail_lacks(id, q, k, '/');
    lemma_tail_lacks(id, q, k2, '/');
    assert(b + id + q =~= b + (id + q));
    lemma_absent_last_missing(b, id + q, k);
    lemma_id_after_lead(b, k2, id, q, stops_path());
}

/// Each Rumble link form the extractor's documentation names gives back the
/// video id: `rumble.com/ID-title.html`, for a non-empty id without '-' other
/// than "embed", and `rumble.com/embed/ID`, bare, with a closing '/', and
/// with a query or fragment after either.
pub proof fn law_rumble_links_give_back_the_id(id: Seq<char>, title: Seq<char>, q: Seq<char>)
    requires
        plain_id(id),
        plain_id(title),
        id.len() > 0,
        !id.contains('-'),
        id != "embed"@,
        query_tail(q),
    ensures
        rumble_id("https://rumble.com/"@ + id + "-"@ + title + ".html"@) == Some(id),
        rumble_id("https://rumble.com/embed/"@ + id + q) == Some(id),
        rumble_id("https://rumble.com/embed/"@ + id + "/"@ + q) == Some(id),
{
    reveal_strlit("/");
    reveal_strlit("https://rumble.com/");
    reveal_strlit("https://rumble.com/embed/");
    reveal_strlit("-");
    reveal_strlit(".html");
    reveal_strlit("/embed/");
    reveal_strlit("rumble.com/");
    reveal_strlit("embed");
    lemma_plain_lacks(id);
    lemma_plain_lacks(title);
    let e = Seq::<char>::empty();
    let k = "/embed/"@;
    let k2 = "rumble.com/"@;
    let tail = "-"@ + title + ".html"@;
    assert(!(id + tail).contains('/')) by {
        assert forall|i: int| 0 <= i < (id + tail).len() implies (id + tail)[i] != '/' by {
            if i < id.len() {
                assert((id + tail)[i] == id[i]);
            } else if i == id.len() {
                assert((id + tail)[i] == '-');
            } else if i < id.len() + 1 + title.len() {
                assert((id + tail)[i] == title[i - id.len() - 1]);
            } else {
                assert((id + tail)[i] == ".html"@[i - id.len() - 1 - title.len()]);
            }
        }
    }
    lemma_id_lacks_key(id + tail, k2);
    assert((id + tail) + e =~= id + tail);
    let a = "https://rumble.com/"@;
    assert forall|j: int| 0 <= j implies !matches_at(a, k, j) by {
        if matches_at(a, k, j) {
            lemma_match_chars(a, k, j);
        }
    }
    lemma_no_match(a, k);
    assert forall|j: int| 0 <= j < 8 implies !matches_at(a, k2, j) by {
        if matches_at(a, k2, j) {
            lemma_match_chars(a, k2, j);
        }
    }
    assert(a.subrange(8int, 8int + k2.len()) =~= k2);
    lemma_first_match(a, k2, 8);
    lemma_absent_last_missing(a, id + tail, k);
    assert(a + id + tail =~= a + (id + tail));
    assert("https://rumble.com/"@ + id + "-"@ + title + ".html"@ =~= a + id + tail);
    lemma_second_piece_after_lead(a, k2, id, tail);
    let dash = seq!['-'];
    assert(dash.contains(tail[0])) by {
        assert(tail[0] == '-');
        assert(dash[0] == '-');
    }
    assert forall|i: int| 0 <= i < id.len() implies !dash.contains(#[trigger] id[i]) by {
        if dash.contains(id[i]) {
            assert(id[i] == '-');
        }
    }
    lemma_until_stop(id, tail, dash);

    lemma_query_lacks(q);
    assert(k.contains('/')) by { assert(k[0] == '/'); }
    lemma_tail_lacks(id, q, k, '/');
    lemma_slash_tail_lacks(id, q, k);
    assert("/"@ =~= seq!['/']);
    let s = "/"@ + q;
    assert(stops_path().contains(s[0])) by {
        assert(stops_path() =~= seq!['?', '&', '#', '/']);
    }
    let b = "https://rumble.com/embed/"@;
    assert forall|j: int| 0 <= j < 18 implies !matches_at(b, k, j) by {
        if matches_at(b, k, j) {
            lemma_match_chars(b, k, j);
        }
    }
    assert(b.subrange(18int, 18int + k.len()) =~= k);
    lemma_first_match(b, k, 18);
    lemma_id_after_lead(b, k, id, q, stops_path());
    lemma_id_after_lead(b, k, id, s, stops_path());
    assert(b + id + "/"@ + q =~= b + id + s);
}

/// Each Instagram link form the extractor's documentation names gives back
/// the code, with or without a query or fragment after its closing '/'
/// (such as `?igsh=x`): `instagram.com/reel/CODE/` and
/// `instagram.com/p/CODE/`, for any code but "reel" and "reels"; a profile
/// link gives none.
pub proof fn law_instagram_links_give_back_the_code(id: Seq<char>, q: Seq<char>)
    requires
        plain_id(id),
        id != "reel"@,
        id != "reels"@,
        query_tail(q),
    ensures
        instagram_id("https://www.instagram.com/reel/"@ + id + "/"@ + q) == Some(id),
        instagram_id("https://www.instagram.com/p/"@ + id + "/"@ + q) == Some(id),
        instagram_id("https://www.instagram.com/natgeo/"@) is None,
{
    reveal_strlit("https://www.instagram.com/natgeo/");
    reveal_strlit("https://www.instagram.com/reel/");
    reveal_strlit("https://www.instagram.com/p/");
    reveal_strlit("/reel/");
    reveal_strlit("/reels/");
    reveal_strlit("/p/");
    reveal_strlit("reel");
    reveal_strlit("reels");
    reveal_strlit("/");
    lemma_plain_lacks(id);
    lemma_query_lacks(q);
    assert("/"@ =~= seq!['/']);
    let s = "/"@ + q;
    let k1 = "/reel/"@;
    let k2 = "/reels/"@;
    let k3 = "/p/"@;
    let w1 = "reel"@;
    let w2 = "reels"@;
    assert(!w1.contains('/'));
    assert(!w2.contains('/'));
    lemma_slash_tail_lacks(id, q, k1);
    lemma_slash_tail_lacks(id, q, k2);
    lemma_slash_tail_lacks(id, q, k3);
    assert(stops_path().contains(s[0])) by {
        assert(stops_path() =~= seq!['?', '&', '#', '/']);
    }

    let a = "https://www.instagram.com/reel/"@;
    assert forall|j: int| 0 <= j < 25 implies !matches_at(a, k1, j) by {
        if matches_at(a, k1, j) {
            lemma_match_chars(a, k1, j);
        }
    }
    assert(a.subrange(25int, 25int + k1.len()) =~= k1);
    lemma_first_match(a, k1, 25);
    lemma_id_after_lead(a, k1, id, s, stops_path());
    assert(a + id + "/"@ + q =~= a + id + s);

    let b = "https://www.instagram.com/p/"@;
    let e = Seq::<char>::empty();
    assert(id + s =~= id + s + e);
    assert forall|j: int| 0 <= j implies !matches_at(b, k1, j) by {
        if matches_at(b, k1, j) {
            lemma_match_chars(b, k1, j);
        }
    }
    lemma_no_match(b, k1);
    assert forall|j: int| 0 <= j implies !matches_at(b, k2, j) by {
        if matches_at(b, k2, j) {
            lemma_match_chars(b, k2, j);
        }
    }
    lemma_no_match(b, k2);
    assert forall|j: int| 0 <= j < 25 implies !matches_at(b, k3, j) by {
        if matches_at(b, k3, j) {
            lemma_match_chars(b, k3, j);
        }
    }
    assert(b.subrange(25int, 25int + k3.len()) =~= k3);
    lemma_first_match(b, k3, 25);
    assert forall|t: int| 0 < t < k1.len() implies !(ends(b, #[trigger] k1.take(t)) && starts(id + s, k1.skip(t))) by {
        if t == 1 {
            assert(k1.skip(1) =~= w1 + seq!['/']);
            lemma_not_word_slash(id, s, w1);
        } else if ends(b, k1.take(t)) {
            lemma_end_chars(b, k1.take(t));
        }
    }
    assert forall|t: int| 0 < t < k2.len() implies !(ends(b, #[trigger] k2.take(t)) && starts(id + s, k2.skip(t))) by {
        if t == 1 {
            assert(k2.skip(1) =~= w2 + seq!['/']);
            lemma_not_word_slash(id, s, w2);
        } else if ends(b, k2.take(t)) {
            lemma_end_chars(b, k2.take(t));
        }
    }
    lemma_absent_joined(b, id + s, k1);
    lemma_absent_joined(b, id + s, k2);
    assert(b + (id + s) =~= b + id + s);
    lemma_id_after_lead(b, k3, id, s, stops_path());
    assert(b + id + "/"@ + q =~= b + id + s);

    let n = "https://www.instagram.com/natgeo/"@;
    assert forall|j: int| 0 <= j implies !matches_at(n, k1, j) by {
        if matches_at(n, k1, j) {
            lemma_match_chars(n, k1, j);
        }
    }
    lemma_no_match(n, k1);
    assert forall|j: int| 0 <= j implies !matches_at(n, k2, j) by {
        if matches_at(n, k2, j) {
            lemma_match_chars(n, k2, j);
        }
    }
    lemma_no_match(n, k2);
    assert forall|j: int| 0 <= j implies !matches_at(n, k3, j) by {
        if matches_at(n, k3, j) {
            lemma_match_chars(n, k3, j);
        }
    }
    lemma_no_match(n, k3);
}

/// Each Streamable link form the extractor's documentation names gives back
/// the video id: `streamable.com/ID`, for a non-empty id other than "e", bare
/// or with a query or fragment, and `streamable.com/e/ID`, bare or followed
/// by a query (such as `?autoplay=1`), a fragment or further path. The bare
/// site, `streamable.com/`, gives nothing.
pub proof fn law_streamable_links_give_back_the_id(id: Seq<char>, q: Seq<char>, tail: Seq<char>)
    requires
        plain_id(id),
        id.len() > 0,
        id != "e"@,
        query_tail(q),
        path_tail(tail),
    ensures
        streamable_id("https://streamable.com/"@ + id + q) == Some(id),
        streamable_id("https://streamable.com/e/"@ + id + tail) == Some(id),
        streamable_id("https://streamable.com/"@) is None,
{
    reveal_strlit("https://streamable.com/");
    reveal_strlit("https://streamable.com/e/");
    reveal_strlit("/e/");
    reveal_strlit("streamable.com/");
    reveal_strlit("e");
    lemma_plain_lacks(id);
    lemma_query_lacks(q);
    lemma_path_tail_stops(tail);
    let e = Seq::<char>::empty();
    let k = "/e/"@;
    let k2 = "streamable.com/"@;
    let w = "e"@;
    assert(k[0] == '/' && k2[14] == '/');
    lemma_tail_lacks(id, q, k, '/');
    lemma_tail_lacks(id, q, k2, '/');

    let a = "https://streamable.com/"@;
    assert forall|j: int| 0 <= j implies !matches_at(a, k, j) by {
        if matches_at(a, k, j) {
            lemma_match_chars(a, k, j);
        }
    }
    lemma_no_match(a, k);
    assert forall|j: int| 0 <= j < 8 implies !matches_at(a, k2, j) by {
        if matches_at(a, k2, j) {
            lemma_match_chars(a, k2, j);
        }
    }
    assert(a.subrange(8int, 8int + k2.len()) =~= k2);
    lemma_first_match(a, k2, 8);
    assert forall|t: int| 0 < t < k.len() implies !(ends(a, #[trigger] k.take(t)) && starts(id + q, k.skip(t))) by {
        if t == 1 {
            if starts(id + q, k.skip(1)) {
                assert((id + q).take(2)[1] == (id + q)[1]);
            }
        } else if ends(a, k.take(t)) {
            lemma_end_chars(a, k.take(t));
        }
    }
    lemma_absent_joined(a, id + q, k);
    assert(a + (id + q) =~= a + id + q);
    lemma_id_after_lead(a, k2, id, q, stops_path());

    // The bare site: the second piece after "streamable.com/" is empty.
    let nothing = Seq::<char>::empty();
    assert(a.skip(23) =~= nothing);
    assert(search(nothing, k2, 0) is None);
    assert(nth_piece(nothing, k2, 0) == Some(nothing));
    assert(second_piece(a, k2) == Some(nothing));
    assert(until_any(nothing, stops_path()) =~= nothing);

    let b = "https://streamable.com/e/"@;
    assert forall|j: int| 0 <= j < 22 implies !matches_at(b, k, j) by {
        if matches_at(b, k, j) {
            lemma_match_chars(b, k, j);
        }
    }
    assert(b.subrange(22int, 22int + k.len()) =~= k);
    lemma_first_match(b, k, 22);
    lemma_id_cut_at_stop(b, k, id, tail, stops_path());
}

/// Each Spotify link form the extractor's documentation names gives back the
/// id: `open.spotify.com/track/ID`, bare or followed by a query (such as
/// `?si=...`), a fragment or further path; `spotify:track:ID`; and
/// `open.spotify.com/episode/ID`, bare or with a query or fragment. The bare
/// site, `open.spotify.com/`, gives nothing.
pub proof fn law_spotify_links_give_back_the_id(id: Seq<char>, tail: Seq<char>, q: Seq<char>)
    requires
        plain_id(id),
        path_tail(tail),
        query_tail(q),
    ensures
        spotify_id("https://open.spotify.com/track/"@ + id + tail) == Some(id),
        spotify_id("spotify:track:"@ + id) == Some(id),
        spotify_id("https://open.spotify.com/episode/"@ + id + q) == Some(id),
        spotify_id("https://open.spotify.com/"@) is None,
{
    reveal_strlit("https://open.spotify.com/track/");
    reveal_strlit("https://open.spotify.com/episode/");
    reveal_strlit("https://open.spotify.com/");
    reveal_strlit("spotify:track:");
    reveal_strlit("track:");
    reveal_strlit("spotify:");
    reveal_strlit("/track/");
    reveal_strlit("/episode/");
    reveal_strlit("/playlist/");
    reveal_strlit("/album/");
    lemma_plain_lacks(id);
    lemma_path_tail_stops(tail);
    let k = "/track/"@;
    let ke = "/episode/"@;
    let colon = seq![':'];

    let a = "https://open.spotify.com/track/"@;
    assert(!starts(a + id + tail, "spotify:"@)) by {
        assert((a + id + tail).take(8)[0] == a[0]);
    }
    assert forall|j: int| 0 <= j < 24 implies !matches_at(a, k, j) by {
        if matches_at(a, k, j) {
            lemma_match_chars(a, k, j);
        }
    }
    assert(a.subrange(24int, 24int + k.len()) =~= k);
    lemma_first_match(a, k, 24);
    lemma_id_cut_at_stop(a, k, id, tail, stops_path());

    let u = "spotify:track:"@ + id;
    assert(u.take(8) =~= "spotify:"@);
    let b = "spotify:track:"@;
    let c = "track:"@;
    assert forall|j: int| 0 <= j < 7 implies !matches_at(b, colon, j) by {
        if matches_at(b, colon, j) {
            lemma_match_chars(b, colon, j);
        }
    }
    assert(b.subrange(7int, 7int + colon.len()) =~= colon);
    lemma_first_match(b, colon, 7);
    assert forall|j: int| 0 <= j < 5 implies !matches_at(c, colon, j) by {
        if matches_at(c, colon, j) {
            lemma_match_chars(c, colon, j);
        }
    }
    assert(c.subrange(5int, 5int + colon.len()) =~= colon);
    lemma_first_match(c, colon, 5);
    lemma_first_match_kept(b, id, colon, 7);
    assert(u.skip(8) =~= c + id);
    lemma_first_match_kept(c, id, colon, 5);
    assert((c + id).skip(6) =~= id);
    lemma_id_lacks_key(id, colon);
    assert(nth_piece(id, colon, 0) == Some(id));
    assert(nth_piece(c + id, colon, 1) == Some(id));
    assert(nth_piece(u, colon, 2) == Some(id));

    let ep = "https://open.spotify.com/episode/"@;
    assert(!starts(ep + id + q, "spotify:"@)) by {
        assert((ep + id + q).take(8)[0] == ep[0]);
    }
    assert forall|j: int| 0 <= j implies !matches_at(ep, k, j) by {
        if matches_at(ep, k, j) {
            lemma_match_chars(ep, k, j);
        }
    }
    lemma_no_match(ep, k);
    assert(k[0] == '/' && ke[0] == '/');
    lemma_tail_lacks(id, q, k, '/');
    lemma_tail_lacks(id, q, ke, '/');
    assert(ep + id + q =~= ep + (id + q));
    lemma_absent_last_missing(ep, id + q, k);
    assert forall|j: int| 0 <= j < 24 implies !matches_at(ep, ke, j) by {
        if matches_at(ep, ke, j) {
            lemma_match_chars(ep, ke, j);
        }
    }
    assert(ep.subrange(24int, 24int + ke.len()) =~= ke);
    lemma_first_match(ep, ke, 24);
    lemma_id_after_lead(ep, ke, id, q, stops_path());

    let site = "https://open.spotify.com/"@;
    assert(!starts(site, "spotify:"@)) by {
        assert(site.take(8)[0] == site[0]);
    }
    assert forall|j: int| 0 <= j implies !matches_at(site, k, j) by {
        if matches_at(site, k, j) {
            lemma_match_chars(site, k, j);
        }
    }
    lemma_no_match(site, k);
    assert forall|j: int| 0 <= j implies !matches_at(site, ke, j) by {
        if matches_at(site, ke, j) {
            lemma_match_chars(site, ke, j);
        }
    }
    lemma_no_match(site, ke);
    let kp = "/playlist/"@;
    assert forall|j: int| 0 <= j implies !matches_at(site, kp, j) by {
        if matches_at(site, kp, j) {
            lemma_match_chars(site, kp, j);
        }
    }
    lemma_no_match(site, kp);
    let ka = "/album/"@;
    assert forall|j: int| 0 <= j implies !matches_at(site, ka, j) by {
        if matches_at(site, ka, j) {
            lemma_match_chars(site, ka, j);
        }
    }
    lemma_no_match(site, ka);
}

/// An id found by one platform's extractor, paired with that platform.
pub open spec fn with_platform(p: MediaPlatform, r: Option<Seq<char>>) -> Option<(MediaPlatform, Seq<char>)> {
    match r {
        Some(id) => Some((p, id)),
        None => None,
    }
}

/// A pasted link is recognised as the platform its text names, with exactly
/// the id that platform's own extractor finds in it (and nothing when that
/// extractor finds nothing); a link of no known platform gives nothing.
pub proof fn law_pasted_link_gives_its_platforms_id(u: Seq<char>)
    ensures
        platform_of(lowercased(trim(u))) == MediaPlatform::YouTube ==> video_of(u) == with_platform(MediaPlatform::YouTube, youtube_id(u)),
        platform_of(lowercased(trim(u))) == MediaPlatform::TikTok ==> video_of(u) == with_platform(MediaPlatform::TikTok, tiktok_id(u)),
        platform_of(lowercased(trim(u))) == MediaPlatform::Instagram ==> video_of(u) == with_platform(MediaPlatform::Instagram, instagram_id(u)),
        platform_of(lowercased(trim(u))) == MediaPlatform::Twitter ==> video_of(u) == with_platform(MediaPlatform::Twitter, twitter_id(u)),
        platform_of(lowercased(trim(u))) == MediaPlatform::Vimeo ==> video_of(u) == with_platform(MediaPlatform::Vimeo, vimeo_id(u)),
        platform_of(lowercased(trim(u))) == MediaPlatform::Rumble ==> video_of(u) == with_platform(MediaPlatform::Rumble, rumble_id(u)),
        platform_of(lowercased(trim(u))) == MediaPlatform::Dailymotion ==> video_of(u) == with_platform(MediaPlatform::Dailymotion, dailymotion_id(u)),
        platform_of(lowercased(trim(u))) == MediaPlatform::Reddit ==> video_of(u) == with_platform(MediaPlatform::Reddit, reddit_id(u)),
        platform_of(lowercased(trim(u))) == MediaPlatform::Streamable ==> video_of(u) == with_platform(MediaPlatform::Streamable, streamable_id(u)),
        platform_of(lowercased(trim(u))) == MediaPlatform::Spotify ==> video_of(u) == with_platform(MediaPlatform::Spotify, spotify_id(u)),
        platform_of(lowercased(trim(u))) == MediaPlatform::Unknown ==> video_of(u) is None,
{
}

/// A TikTok video link, `tiktok.com/@user/video/ID` with or without a query,
/// that is detected as TikTok is recognised as TikTok with the id after
/// "/video/"; so is a short `vm.tiktok.com/ID` link.
pub proof fn law_tiktok_video_link_is_recognised(user: Seq<char>, id: Seq<char>, q: Seq<char>)
    requires
        plain_id(user),
        plain_id(id),
        query_tail(q),
    ensures
        platform_of(lowercased(trim("https://www.tiktok.com/@"@ + user + "/video/"@ + id + q))) == MediaPlatform::TikTok
            ==> video_of("https://www.tiktok.com/@"@ + user + "/video/"@ + id + q) == Some((MediaPlatform::TikTok, id)),
        platform_of(lowercased(trim("https://vm.tiktok.com/"@ + id + q))) == MediaPlatform::TikTok
            ==> video_of("https://vm.tiktok.com/"@ + id + q) == Some((MediaPlatform::TikTok, id)),
{
    law_tiktok_links_give_back_the_id(user, id, q);
    law_pasted_link_gives_its_platforms_id("https://www.tiktok.com/@"@ + user + "/video/"@ + id + q);
    law_pasted_link_gives_its_platforms_id("https://vm.tiktok.com/"@ + id + q);
}

} // verus!
