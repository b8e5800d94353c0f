use vstd::prelude::*;
use vstd::utf8::{encode_scalar, encode_utf8};

verus! {

// ---------------------------------------------------------------------------
// The model: text is a sequence of chars.
// ---------------------------------------------------------------------------

/// `p` occurs in `s` starting at index `i`.
pub open spec fn matches_at(s: Seq<char>, p: Seq<char>, i: int) -> bool {
    0 <= i && i + p.len() <= s.len() && s.subrange(i, i + p.len()) == p
}

/// The first index at or after `i` where `p` occurs in `s`.
pub open spec fn search(s: Seq<char>, p: Seq<char>, i: int) -> Option<int>
    decreases s.len() + 1 - i,
{
    if i < 0 || i + p.len() > s.len() {
        None
    } else if matches_at(s, p, i) {
        Some(i)
    } else {
        search(s, p, i + 1)
    }
}

/// What `search` finds is the first match at or after `i`.
pub proof fn lemma_search(s: Seq<char>, p: Seq<char>, i: int)
    requires
        0 <= i,
    ensures
        search(s, p, i) matches Some(k) ==> {
            &&& i <= k
            &&& matches_at(s, p, k)
            &&& forall|j: int| i <= j < k ==> !matches_at(s, p, j)
        },
        search(s, p, i) is None ==> forall|j: int| i <= j ==> !matches_at(s, p, j),
    decreases s.len() + 1 - i,
{
    if i + p.len() > s.len() {
    } else if matches_at(s, p, i) {
    } else {
        lemma_search(s, p, i + 1);
    }
}

/// A match anywhere means `has`.
pub proof fn lemma_has_at(s: Seq<char>, p: Seq<char>, i: int)
    requires
        matches_at(s, p, i),
    ensures
        occurs(s, p),
{
    lemma_search(s, p, 0);
}

/// Text placed between two others is found in the whole.
pub proof fn lemma_has_middle(a: Seq<char>, p: Seq<char>, b: Seq<char>)
    ensures
        occurs(a + p + b, p),
{
    let s = a + p + b;
    assert(s.subrange(a.len() as int, (a.len() + p.len()) as int) =~= p);
    lemma_has_at(s, p, a.len() as int);
}

/// `p` occurs somewhere in `s` (`str::contains`).
pub open spec fn occurs(s: Seq<char>, p: Seq<char>) -> bool {
    search(s, p, 0) is Some
}

/// `s` begins with `p` (`str::starts_with`).
pub open spec fn starts(s: Seq<char>, p: Seq<char>) -> bool {
    p.len() <= s.len() && s.take(p.len() as int) == p
}

/// `s` ends with `p` (`str::ends_with`).
pub open spec fn ends(s: Seq<char>, p: Seq<char>) -> bool {
    p.len() <= s.len() && s.skip(s.len() - p.len()) == p
}

/// Piece `n` (counting from 0) of `s` split at `p`, that is `s.split(p).nth(n)`.
pub open spec fn nth_piece(s: Seq<char>, p: Seq<char>, n: nat) -> Option<Seq<char>>
    decreases n,
{
    match search(s, p, 0) {
        None => if n == 0 { Some(s) } else { None },
        Some(m) => if n == 0 { Some(s.take(m)) } else { nth_piece(s.skip(m + p.len()), p, (n - 1) as nat) },
    }
}

/// The second piece of `s` split at `p` (`s.split(p).nth(1)`).
pub open spec fn second_piece(s: Seq<char>, p: Seq<char>) -> Option<Seq<char>> {
    nth_piece(s, p, 1)
}

/// When piece `n` exists, so does every earlier piece.
pub proof fn lemma_earlier_pieces(s: Seq<char>, p: Seq<char>, n: nat, k: nat)
    requires
        k <= n,
        nth_piece(s, p, n) is Some,
    ensures
        nth_piece(s, p, k) is Some,
    decreases n,
{
    if k < n {
        match search(s, p, 0) {
            None => {},
            Some(m) => {
                if k > 0 {
                    lemma_earlier_pieces(s.skip(m + p.len()), p, (n - 1) as nat, (k - 1) as nat);
                }
            },
        }
    }
}

/// `s` split at `p` has exactly `n` pieces.
pub open spec fn piece_count_is(s: Seq<char>, p: Seq<char>, n: nat) -> bool {
    n > 0 && nth_piece(s, p, (n - 1) as nat) is Some && nth_piece(s, p, n) is None
}

/// The texts of `list` joined by `sep` (`[&str]::join`).
pub open spec fn join(list: Seq<Seq<char>>, sep: Seq<char>) -> Seq<char>
    decreases list.len(),
{
    if list.len() == 0 {
        Seq::empty()
    } else if list.len() == 1 {
        list[0]
    } else {
        join(list.drop_last(), sep) + sep + list.last()
    }
}

/// Every joined text sits inside the joined whole.
pub proof fn lemma_join_has(list: Seq<Seq<char>>, sep: Seq<char>, i: int)
    requires
        0 <= i < list.len(),
    ensures
        exists|a: Seq<char>, b: Seq<char>| join(list, sep) == a + list[i] + b,
    decreases list.len(),
{
    if list.len() == 1 {
        let e = Seq::<char>::empty();
        assert(join(list, sep) == e + list[i] + e);
    } else if i == list.len() - 1 {
        let a = join(list.drop_last(), sep) + sep;
        let e = Seq::<char>::empty();
        assert(join(list, sep) == a + list[i] + e);
    } else {
        lemma_join_has(list.drop_last(), sep, i);
        let (a, b) = choose|a: Seq<char>, b: Seq<char>| join(list.drop_last(), sep) == a + list.drop_last()[i] + b;
        let b2 = b + sep + list.last();
        assert(join(list, sep) == a + list[i] + b2);
    }
}

/// The index of the first char of `s` at or after `i` that is one of `set`.
pub open spec fn first_of(s: Seq<char>, set: Seq<char>, i: int) -> int
    decreases s.len() - i,
{
    if i < 0 || i >= s.len() {
        s.len() as int
    } else if set.contains(s[i]) {
        i
    } else {
        first_of(s, set, i + 1)
    }
}

/// The first piece of `s` split at any char of `set`
/// (`s.split(&set[..]).next()`).
pub open spec fn until_any(s: Seq<char>, set: Seq<char>) -> Seq<char> {
    s.take(first_of(s, set, 0))
}

/// `c` has the Unicode `White_Space` property, as `char::is_whitespace` documents.
pub open spec fn is_space(c: char) -> bool {
    ||| '\t' <= c <= '\r'
    ||| c == ' '
    ||| c == '\u{85}'
    ||| c == '\u{a0}'
    ||| c == '\u{1680}'
    ||| '\u{2000}' <= c <= '\u{200a}'
    ||| c == '\u{2028}'
    ||| c == '\u{2029}'
    ||| c == '\u{202f}'
    ||| c == '\u{205f}'
    ||| c == '\u{3000}'
}

/// `s` without its leading white space.
pub open spec fn trim_start(s: Seq<char>) -> Seq<char>
    decreases s.len(),
{
    if s.len() > 0 && is_space(s[0]) {
        trim_start(s.drop_first())
    } else {
        s
    }
}

/// `s` without its trailing white space.
pub open spec fn trim_end(s: Seq<char>) -> Seq<char>
    decreases s.len(),
{
    if s.len() > 0 && is_space(s.last()) {
        trim_end(s.drop_last())
    } else {
        s
    }
}

/// `s` without leading and trailing white space (`str::trim`).
pub open spec fn trim(s: Seq<char>) -> Seq<char> {
    trim_end(trim_start(s))
}

/// The white-space separated words of `s` (`str::split_whitespace`).
pub open spec fn words(s: Seq<char>) -> Seq<Seq<char>>
    decreases s.len(),
{
    if s.len() == 0 {
        Seq::empty()
    } else {
        let w = words(s.drop_last());
        let c = s.last();
        if is_space(c) {
            w
        } else if s.len() == 1 || is_space(s[s.len() - 2]) {
            w.push(seq![c])
        } else {
            w.update(w.len() - 1, w.last().push(c))
        }
    }
}

/// `s` without the trailing `c`s (`str::trim_end_matches`).
pub open spec fn trim_end_char(s: Seq<char>, c: char) -> Seq<char>
    decreases s.len(),
{
    if s.len() > 0 && s.last() == c {
        trim_end_char(s.drop_last(), c)
    } else {
        s
    }
}

/// `s` with the first prefix of `list` that it starts with removed
/// (the first match wins; `s` itself when none matches).
pub open spec fn strip_first_prefix(s: Seq<char>, list: Seq<Seq<char>>) -> Seq<char>
    decreases list.len(),
{
    if list.len() == 0 {
        s
    } else if starts(s, list[0]) {
        s.skip(list[0].len() as int)
    } else {
        strip_first_prefix(s, list.drop_first())
    }
}

/// `s` with the first occurrence of `p` cut out, when there is one.
pub open spec fn cut_out(s: Seq<char>, p: Seq<char>) -> Seq<char> {
    match search(s, p, 0) {
        Some(i) => s.take(i) + s.skip(i + p.len()),
        None => s,
    }
}

/// `s` cut off at the first occurrence of `p`, when there is one.
pub open spec fn cut_at(s: Seq<char>, p: Seq<char>) -> Seq<char> {
    match search(s, p, 0) {
        Some(i) => s.take(i),
        None => s,
    }
}

/// The decimal digits of `n`, as `Display` writes an unsigned integer.
pub open spec fn dec(n: nat) -> Seq<char>
    decreases n,
{
    if n < 10 {
        seq![digit(n)]
    } else {
        dec(n / 10).push(digit(n % 10))
    }
}

/// The ASCII digit for `d < 10`.
pub open spec fn digit(d: nat) -> char {
    if d == 0 { '0' }
    else if d == 1 { '1' }
    else if d == 2 { '2' }
    else if d == 3 { '3' }
    else if d == 4 { '4' }
    else if d == 5 { '5' }
    else if d == 6 { '6' }
    else if d == 7 { '7' }
    else if d == 8 { '8' }
    else { '9' }
}

/// The digit chars stand for their values.
pub proof fn lemma_digit(d: nat)
    requires
        d < 10,
    ensures
        digit(d) as int - '0' as int == d,
        '0' <= digit(d) <= '9',
{
}

/// Decimal text is made of digits, is never empty, and reads back as its number.
pub proof fn lemma_dec(n: nat)
    ensures
        dec(n).len() > 0,
        forall|i: int| 0 <= i < dec(n).len() ==> '0' <= #[trigger] dec(n)[i] <= '9',
        digits_value(dec(n)) == n,
    decreases n,
{
    if n < 10 {
        lemma_digit(n);
        assert(dec(n).drop_last() =~= Seq::<char>::empty());
        assert(dec(n).last() == digit(n));
        assert(digits_value(Seq::<char>::empty()) == 0);
    } else {
        lemma_dec(n / 10);
        lemma_digit(n % 10);
        let s = dec(n / 10);
        assert(dec(n).drop_last() == s);
        assert(dec(n).last() == digit(n % 10));
        assert(digits_value(dec(n)) == digits_value(s) * 10 + (digit(n % 10) as int - '0' as int));
        assert(n == (n / 10) * 10 + n % 10);
        assert forall|i: int| 0 <= i < dec(n).len() implies '0' <= #[trigger] dec(n)[i] <= '9' by {
            if i < s.len() {
                assert(dec(n)[i] == s[i]);
            }
        }
    }
}

/// A signed integer as `Display` writes it.
pub open spec fn dec_int(n: int) -> Seq<char> {
    if n < 0 {
        seq!['-'] + dec((-n) as nat)
    } else {
        dec(n as nat)
    }
}

/// `n` written with at least two digits (`{:02}`).
pub open spec fn dec2(n: nat) -> Seq<char> {
    if n < 10 { seq!['0', digit(n)] } else { dec(n) }
}

/// What `str::to_lowercase` returns for text `s` (Unicode lowercase mapping).
pub uninterp spec fn lowercased(s: Seq<char>) -> Seq<char>;

/// What `char::to_uppercase` yields for `c`, collected (Unicode uppercase mapping).
pub uninterp spec fn uppercased(c: char) -> Seq<char>;

/// `s` with its first char uppercased, the rest unchanged.
pub open spec fn capitalized(s: Seq<char>) -> Seq<char> {
    if s.len() == 0 {
        s
    } else {
        uppercased(s[0]) + s.drop_first()
    }
}

// ---------------------------------------------------------------------------
// Trusted calls into std that vstd does not specify.
// ---------------------------------------------------------------------------

/// Calls `String::push`; claims that the char is appended to the text.
#[verifier::external_body]
pub(crate) fn push_char(s: &mut String, c: char)
    ensures
        final(s)@ == old(s)@.push(c),
{
    s.push(c);
}

/// Calls `str::to_lowercase`; claims the result is the named lowercase mapping of `s`.
#[verifier::external_body]
pub(crate) fn lowercase(s: &str) -> (out: String)
    ensures
        out@ == lowercased(s@),
{
    s.to_lowercase()
}

/// Calls `char::to_uppercase` and collects what it yields; claims the result is
/// the named uppercase mapping of `c`.
#[verifier::external_body]
pub(crate) fn uppercase_char(c: char) -> (out: String)
    ensures
        out@ == uppercased(c),
{
    c.to_uppercase().collect()
}

// ---------------------------------------------------------------------------
// Executable text operations.
// ---------------------------------------------------------------------------

/// The characters of `s`, in order.
pub fn chars_of(s: &str) -> (out: Vec<char>)
    ensures
        out@ == s@,
{
    let mut out: Vec<char> = Vec::new();
    for c in it: s.chars()
        invariant
            out@ == it.seq().take(it.index() as int),
            it.seq() == s@,
    {
        out.push(c);
    }
    out
}

/// Appends `cs` to `s`.
pub fn push_all(s: &mut String, cs: &[char])
    ensures
        final(s)@ == old(s)@ + cs@,
{
    let ghost start = s@;
    let mut i: usize = 0;
    while i < cs.len()
        invariant
            i <= cs.len(),
            s@ == start + cs@.take(i as int),
        decreases cs.len() - i,
    {
        push_char(s, cs[i]);
        i = i + 1;
        assert(cs@.take(i as int) == cs@.take(i - 1).push(cs@[i - 1]));
    }
    assert(cs@.take(cs.len() as int) == cs@);
}

/// A `String` holding `cs`.
pub fn string_of(cs: &[char]) -> (out: String)
    ensures
        out@ == cs@,
{
    let mut out = String::new();
    push_all(&mut out, cs);
    out
}

/// Appends the chars of `t` to `v`.
pub fn extend_str(v: &mut Vec<char>, t: &str)
    ensures
        final(v)@ == old(v)@ + t@,
{
    let cs = chars_of(t);
    let ghost start = v@;
    let mut i: usize = 0;
    while i < cs.len()
        invariant
            i <= cs.len(),
            cs@ == t@,
            v@ == start + cs@.take(i as int),
        decreases cs.len() - i,
    {
        v.push(cs[i]);
        i = i + 1;
        assert(cs@.take(i as int) == cs@.take(i - 1).push(cs@[i - 1]));
    }
    assert(cs@.take(cs.len() as int) == cs@);
}

/// Appends `cs` to `v`.
pub fn extend_chars(v: &mut Vec<char>, cs: &[char])
    ensures
        final(v)@ == old(v)@ + cs@,
{
    let ghost start = v@;
    let mut i: usize = 0;
    while i < cs.len()
        invariant
            i <= cs.len(),
            v@ == start + cs@.take(i as int),
        decreases cs.len() - i,
    {
        v.push(cs[i]);
        i = i + 1;
        assert(cs@.take(i as int) == cs@.take(i - 1).push(cs@[i - 1]));
    }
    assert(cs@.take(cs.len() as int) == cs@);
}

/// The chars of `s` from `lo` up to `hi`.
pub fn slice_of(s: &[char], lo: usize, hi: usize) -> (out: Vec<char>)
    requires
        lo <= hi <= s.len(),
    ensures
        out@ == s@.subrange(lo as int, hi as int),
{
    let mut out: Vec<char> = Vec::new();
    let mut i = lo;
    while i < hi
        invariant
            lo <= i <= hi,
            hi <= s.len(),
            out@ == s@.subrange(lo as int, i as int),
        decreases hi - i,
    {
        out.push(s[i]);
        i = i + 1;
        assert(s@.subrange(lo as int, i as int) == s@.subrange(lo as int, i - 1).push(s@[i - 1]));
    }
    out
}

/// Whether `p` occurs in `s` at index `i`.
pub fn matches_here(s: &[char], p: &[char], i: usize) -> (b: bool)
    ensures
        b == matches_at(s@, p@, i as int),
{
    if i > s.len() || p.len() > s.len() - i {
        return false;
    }
    let mut j: usize = 0;
    while j < p.len()
        invariant
            j <= p.len(),
            i + p.len() <= s.len(),
            forall|k: int| 0 <= k < j ==> s@[i + k] == p@[k],
        decreases p.len() - j,
    {
        if s[i + j] != p[j] {
            assert(s@.subrange(i as int, i + p.len())[j as int] != p@[j as int]);
            return false;
        }
        j = j + 1;
    }
    assert(s@.subrange(i as int, i + p.len()) =~= p@);
    true
}

/// The first index at or after `from` where `p` occurs in `s`.
pub fn find_from(s: &[char], p: &[char], from: usize) -> (r: Option<usize>)
    ensures
        r matches Some(k) ==> search(s@, p@, from as int) == Some(k as int),
        r is None ==> search(s@, p@, from as int) is None,
{
    let mut i = from;
    while i <= s.len() && p.len() <= s.len() - i
        invariant
            from <= i,
            search(s@, p@, from as int) == search(s@, p@, i as int),
        decreases s.len() + 1 - i,
    {
        if matches_here(s, p, i) {
            return Some(i);
        }
        if i == s.len() {
            assert(search(s@, p@, i + 1) is None);
            return None;
        }
        i = i + 1;
    }
    None
}

/// Whether `p` occurs in `s` (`str::contains`).
pub fn contains(s: &[char], p: &[char]) -> (b: bool)
    ensures
        b == occurs(s@, p@),
{
    find_from(s, p, 0).is_some()
}

/// Whether `s` begins with `p`.
pub fn starts_with(s: &[char], p: &[char]) -> (b: bool)
    ensures
        b == starts(s@, p@),
{
    let b = matches_here(s, p, 0);
    proof {
        if b {
            assert(s@.take(p@.len() as int) == s@.subrange(0, p@.len() as int));
        } else if p@.len() <= s@.len() {
            assert(s@.take(p@.len() as int) == s@.subrange(0, p@.len() as int));
        }
    }
    b
}

/// Whether `s` ends with `p`.
pub fn ends_with(s: &[char], p: &[char]) -> (b: bool)
    ensures
        b == ends(s@, p@),
{
    if p.len() > s.len() {
        return false;
    }
    let b = matches_here(s, p, s.len() - p.len());
    assert(s@.skip(s@.len() - p@.len()) == s@.subrange(s@.len() - p@.len(), s@.len() as int));
    b
}

/// `s.split(p).nth(n)`.
pub fn piece(s: &[char], p: &[char], n: usize) -> (r: Option<Vec<char>>)
    ensures
        r matches Some(v) ==> nth_piece(s@, p@, n as nat) == Some(v@),
        r is None ==> nth_piece(s@, p@, n as nat) is None,
    decreases n,
{
    match find_from(s, p, 0) {
        None => {
            if n == 0 {
                let v = slice_of(s, 0, s.len());
                assert(v@ == s@);
                Some(v)
            } else {
                None
            }
        },
        Some(m) => {
            proof {
                lemma_search(s@, p@, 0);
                assert(matches_at(s@, p@, m as int));
            }
            if n == 0 {
                let v = slice_of(s, 0, m);
                assert(v@ == s@.take(m as int));
                Some(v)
            } else {
                let len = s.len();
                assert(m + p.len() <= len);
                let rest = slice_of(s, m + p.len(), len);
                assert(rest@ == s@.skip(m + p@.len()));
                piece(rest.as_slice(), p, n - 1)
            }
        },
    }
}

/// `s.split(p).nth(1)`.
pub fn piece_after(s: &[char], p: &[char]) -> (r: Option<Vec<char>>)
    ensures
        r matches Some(v) ==> second_piece(s@, p@) == Some(v@),
        r is None ==> second_piece(s@, p@) is None,
{
    piece(s, p, 1)
}

/// Whether `s` split at `p` has exactly `n` pieces.
pub fn has_piece_count(s: &[char], p: &[char], n: usize) -> (b: bool)
    requires
        n > 0,
    ensures
        b == piece_count_is(s@, p@, n as nat),
{
    piece(s, p, n - 1).is_some() && piece(s, p, n).is_none()
}

/// Whether `a` and `b` hold the same chars.
pub fn same(a: &[char], b: &[char]) -> (r: bool)
    ensures
        r == (a@ == b@),
{
    if a.len() != b.len() {
        return false;
    }
    let mut i: usize = 0;
    while i < a.len()
        invariant
            i <= a.len(),
            a.len() == b.len(),
            forall|k: int| 0 <= k < i ==> a@[k] == b@[k],
        decreases a.len() - i,
    {
        if a[i] != b[i] {
            return false;
        }
        i = i + 1;
    }
    assert(a@ =~= b@);
    true
}

/// Whether the text of `s` is the text of `lit`.
pub fn is_text(s: &str, lit: &str) -> (r: bool)
    ensures
        r == (s@ == lit@),
{
    let a = chars_of(s);
    let b = chars_of(lit);
    same(a.as_slice(), b.as_slice())
}

/// Whether `c` is one of `set`.
pub fn one_of(c: char, set: &[char]) -> (b: bool)
    ensures
        b == set@.contains(c),
{
    let mut i: usize = 0;
    while i < set.len()
        invariant
            i <= set.len(),
            forall|k: int| 0 <= k < i ==> set@[k] != c,
        decreases set.len() - i,
    {
        if set[i] == c {
            assert(set@[i as int] == c);
            return true;
        }
        i = i + 1;
    }
    false
}

/// `s.split(&set[..]).next()`: the chars before the first one that is in `set`.
pub fn take_until_any(s: &[char], set: &[char]) -> (out: Vec<char>)
    ensures
        out@ == until_any(s@, set@),
{
    let mut i: usize = 0;
    while i < s.len() && !one_of(s[i], set)
        invariant
            i <= s.len(),
            first_of(s@, set@, 0) == first_of(s@, set@, i as int),
        decreases s.len() - i,
    {
        i = i + 1;
    }
    slice_of(s, 0, i)
}

/// Whether `c` is white space (`char::is_whitespace`).
pub fn space(c: char) -> (b: bool)
    ensures
        b == is_space(c),
{
    ('\t' <= c && c <= '\r') || c == ' ' || c == '\u{85}' || c == '\u{a0}' || c == '\u{1680}'
        || ('\u{2000}' <= c && c <= '\u{200a}') || c == '\u{2028}' || c == '\u{2029}'
        || c == '\u{202f}' || c == '\u{205f}' || c == '\u{3000}'
}

proof fn lemma_trim_start_skip(s: Seq<char>, i: int)
    requires
        0 <= i <= s.len(),
        forall|k: int| 0 <= k < i ==> is_space(s[k]),
    ensures
        trim_start(s) == trim_start(s.skip(i)),
    decreases i,
{
    if i > 0 {
        assert(s.drop_first().skip(i - 1) == s.skip(i));
        assert forall|k: int| 0 <= k < i - 1 implies is_space(s.drop_first()[k]) by {
            assert(s.drop_first()[k] == s[k + 1]);
        }
        lemma_trim_start_skip(s.drop_first(), i - 1);
    } else {
        assert(s.skip(0) == s);
    }
}

proof fn lemma_trim_end_take(s: Seq<char>, j: int)
    requires
        0 <= j <= s.len(),
        forall|k: int| j <= k < s.len() ==> is_space(s[k]),
    ensures
        trim_end(s) == trim_end(s.take(j)),
    decreases s.len() - j,
{
    if j < s.len() {
        assert(s.drop_last().take(j) == s.take(j));
        assert forall|k: int| j <= k < s.drop_last().len() implies is_space(s.drop_last()[k]) by {}
        lemma_trim_end_take(s.drop_last(), j);
    } else {
        assert(s.take(j) == s);
    }
}

/// `s` without leading and trailing white space.
pub fn trimmed(s: &[char]) -> (out: Vec<char>)
    ensures
        out@ == trim(s@),
{
    let mut i: usize = 0;
    while i < s.len() && space(s[i])
        invariant
            i <= s.len(),
            forall|k: int| 0 <= k < i ==> is_space(s@[k]),
        decreases s.len() - i,
    {
        i = i + 1;
    }
    proof {
        lemma_trim_start_skip(s@, i as int);
    }
    let ghost t = s@.skip(i as int);
    assert(trim_start(t) == t);
    let mut j: usize = s.len();
    while j > i && space(s[j - 1])
        invariant
            i <= j <= s.len(),
            t == s@.skip(i as int),
            forall|k: int| j - i <= k < t.len() ==> is_space(t[k]),
        decreases j,
    {
        j = j - 1;
    }
    proof {
        lemma_trim_end_take(t, j - i);
        assert(t.take(j - i) == s@.subrange(i as int, j as int));
    }
    slice_of(s, i, j)
}

/// The digits of `n`.
pub fn dec_chars(n: u64) -> (out: Vec<char>)
    ensures
        out@ == dec(n as nat),
    decreases n,
{
    let d = digit_char(n % 10);
    if n < 10 {
        let mut v = Vec::new();
        v.push(d);
        assert(v@ == seq![digit(n as nat)]);
        v
    } else {
        let mut v = dec_chars(n / 10);
        v.push(d);
        v
    }
}

/// The ASCII digit for `d`.
pub fn digit_char(d: u64) -> (c: char)
    requires
        d < 10,
    ensures
        c == digit(d as nat),
{
    if d == 0 { '0' }
    else if d == 1 { '1' }
    else if d == 2 { '2' }
    else if d == 3 { '3' }
    else if d == 4 { '4' }
    else if d == 5 { '5' }
    else if d == 6 { '6' }
    else if d == 7 { '7' }
    else if d == 8 { '8' }
    else { '9' }
}

/// The digits of `n`, at least two of them.
pub fn dec2_chars(n: u64) -> (out: Vec<char>)
    ensures
        out@ == dec2(n as nat),
{
    if n < 10 {
        let mut v = Vec::new();
        v.push('0');
        v.push(digit_char(n));
        assert(v@ == seq!['0', digit(n as nat)]);
        v
    } else {
        dec_chars(n)
    }
}

/// A signed integer as `Display` writes it.
pub fn dec_int_chars(n: i64) -> (out: Vec<char>)
    ensures
        out@ == dec_int(n as int),
{
    if n < 0 {
        let m: u64 = if n == i64::MIN { 9223372036854775808u64 } else { (-n) as u64 };
        let mut v = Vec::new();
        v.push('-');
        let d = dec_chars(m);
        extend_chars(&mut v, d.as_slice());
        assert(v@ == seq!['-'] + dec((-n) as nat));
        v
    } else {
        dec_chars(n as u64)
    }
}

/// The words of `s`.
pub fn split_words(s: &[char]) -> (out: Vec<Vec<char>>)
    ensures
        out@.map_values(|w: Vec<char>| w@) == words(s@),
{
    let mut out: Vec<Vec<char>> = Vec::new();
    let mut i: usize = 0;
    while i < s.len()
        invariant
            i <= s.len(),
            out@.map_values(|w: Vec<char>| w@) == words(s@.take(i as int)),
        decreases s.len() - i,
    {
        let c = s[i];
        let ghost before = out@.map_values(|w: Vec<char>| w@);
        let ghost t = s@.take(i + 1);
        assert(t.drop_last() == s@.take(i as int));
        assert(t.last() == c);
        if space(c) {
        } else if i == 0 || space(s[i - 1]) {
            let mut w: Vec<char> = Vec::new();
            w.push(c);
            out.push(w);
            assert(out@.map_values(|w: Vec<char>| w@) =~= before.push(seq![c]));
        } else {
            let n = out.len();
            assert(n > 0) by {
                lemma_words_nonempty(s@.take(i as int));
            }
            let mut last = out.pop().unwrap();
            last.push(c);
            out.push(last);
            assert(out@.map_values(|w: Vec<char>| w@) =~= before.update(before.len() - 1, before.last().push(c)));
        }
        i = i + 1;
    }
    assert(s@.take(s.len() as int) == s@);
    out
}

/// Text that ends in a non-space char has at least one word.
pub proof fn lemma_words_nonempty(s: Seq<char>)
    requires
        s.len() > 0,
        !is_space(s.last()),
    ensures
        words(s).len() > 0,
    decreases s.len(),
{
    if s.len() > 1 && !is_space(s[s.len() - 2]) {
        assert(s.drop_last().last() == s[s.len() - 2]);
        lemma_words_nonempty(s.drop_last());
    }
}

/// `s` without trailing `c`s.
pub fn trim_end_matching(s: &[char], c: char) -> (out: Vec<char>)
    ensures
        out@ == trim_end_char(s@, c),
{
    let mut j = s.len();
    assert(s@.take(j as int) == s@);
    while j > 0 && s[j - 1] == c
        invariant
            j <= s.len(),
            trim_end_char(s@, c) == trim_end_char(s@.take(j as int), c),
        decreases j,
    {
        assert(s@.take(j as int).drop_last() == s@.take(j - 1));
        j = j - 1;
    }
    assert(s@.take(s.len() as int) == s@);
    slice_of(s, 0, j)
}

/// `s` with the first matching prefix of `list` removed.
pub fn strip_first_of(s: &[char], list: &[&str]) -> (out: Vec<char>)
    ensures
        out@ == strip_first_prefix(s@, list@.map_values(|p: &str| p@)),
{
    let ghost texts = list@.map_values(|p: &str| p@);
    let mut i: usize = 0;
    assert(texts.skip(0) == texts);
    while i < list.len()
        invariant
            i <= list.len(),
            texts == list@.map_values(|p: &str| p@),
            strip_first_prefix(s@, texts) == strip_first_prefix(s@, texts.skip(i as int)),
        decreases list.len() - i,
    {
        let p = chars_of(list[i]);
        assert(texts.skip(i as int)[0] == p@);
        assert(texts.skip(i as int).drop_first() == texts.skip(i + 1));
        if starts_with(s, p.as_slice()) {
            return slice_of(s, p.len(), s.len());
        }
        i = i + 1;
    }
    slice_of(s, 0, s.len())
}

/// `s` with the first occurrence of `p` cut out.
pub fn cut_out_first(s: &[char], p: &[char]) -> (out: Vec<char>)
    ensures
        out@ == cut_out(s@, p@),
{
    match find_from(s, p, 0) {
        Some(i) => {
            proof {
                lemma_search(s@, p@, 0);
                assert(matches_at(s@, p@, i as int));
            }
            let n = s.len();
            assert(i + p.len() <= n);
            let mut v = slice_of(s, 0, i);
            let tail = slice_of(s, i + p.len(), n);
            extend_chars(&mut v, tail.as_slice());
            v
        },
        None => slice_of(s, 0, s.len()),
    }
}

/// `s` cut off at the first occurrence of `p`.
pub fn cut_at_first(s: &[char], p: &[char]) -> (out: Vec<char>)
    ensures
        out@ == cut_at(s@, p@),
{
    match find_from(s, p, 0) {
        Some(i) => {
            proof {
                lemma_search(s@, p@, 0);
                assert(matches_at(s@, p@, i as int));
            }
            slice_of(s, 0, i)
        },
        None => slice_of(s, 0, s.len()),
    }
}

/// UTF-8 encodes a concatenation piece by piece.
pub proof fn lemma_encode_concat(a: Seq<char>, b: Seq<char>)
    ensures
        encode_utf8(a + b) == encode_utf8(a) + encode_utf8(b),
    decreases a.len(),
{
    if a.len() == 0 {
        assert(a + b == b);
        assert(encode_utf8(a) =~= Seq::<u8>::empty());
    } else {
        assert((a + b).drop_first() == a.drop_first() + b);
        lemma_encode_concat(a.drop_first(), b);
        assert(encode_utf8(a + b) =~= encode_utf8(a) + encode_utf8(b));
    }
}

/// The number of UTF-8 bytes of `c`.
pub fn utf8_width(c: char) -> (w: usize)
    ensures
        w == encode_scalar(c as u32).len(),
        1 <= w <= 4,
{
    let v = c as u32;
    if v <= 0x7f {
        1
    } else if v <= 0x7ff {
        2
    } else if v <= 0xffff {
        3
    } else {
        4
    }
}

/// Whether the UTF-8 encoding of `cs` is shorter than `limit` bytes
/// (`str::len() < limit` for the text `cs`).
pub fn utf8_len_below(cs: &[char], limit: usize) -> (b: bool)
    ensures
        b == (encode_utf8(cs@).len() < limit),
{
    if limit == 0 {
        return false;
    }
    let mut total: usize = 0;
    let mut i: usize = 0;
    assert(encode_utf8(cs@.take(0)) =~= Seq::<u8>::empty());
    while i < cs.len()
        invariant
            i <= cs.len(),
            total == encode_utf8(cs@.take(i as int)).len(),
            total < limit,
        decreases cs.len() - i,
    {
        let w = utf8_width(cs[i]);
        proof {
            let t = cs@.take(i as int);
            assert(cs@.take(i + 1) == t + seq![cs@[i as int]]);
            lemma_encode_concat(t, seq![cs@[i as int]]);
            let one = seq![cs@[i as int]];
            assert(one.drop_first() =~= Seq::<char>::empty());
            assert(encode_utf8(Seq::<char>::empty()) =~= Seq::<u8>::empty());
            assert(encode_utf8(one) =~= encode_scalar(cs@[i as int] as u32));
        }
        if w >= limit - total {
            proof {
                assert(cs@ == cs@.take(i + 1) + cs@.skip(i + 1));
                lemma_encode_concat(cs@.take(i + 1), cs@.skip(i + 1));
            }
            return false;
        }
        total = total + w;
        i = i + 1;
    }
    assert(cs@.take(cs.len() as int) == cs@);
    true
}

/// The value of a run of ASCII digits.
pub open spec fn digits_value(s: Seq<char>) -> int
    decreases s.len(),
{
    if s.len() == 0 {
        0
    } else {
        digits_value(s.drop_last()) * 10 + (s.last() as int - '0' as int)
    }
}

/// Every char of `s` is an ASCII digit.
pub open spec fn digits(s: Seq<char>) -> bool {
    forall|i: int| 0 <= i < s.len() ==> '0' <= #[trigger] s[i] <= '9'
}

/// The integer written in `s`: an optional '+' or '-' and at least one ASCII
/// digit, nothing else (the syntax `FromStr` accepts for integers).
pub open spec fn int_text(s: Seq<char>) -> Option<int> {
    if s.len() > 0 && (s[0] == '+' || s[0] == '-') {
        let rest = s.drop_first();
        if rest.len() > 0 && digits(rest) {
            Some(if s[0] == '-' { -digits_value(rest) } else { digits_value(rest) })
        } else {
            None
        }
    } else if s.len() > 0 && digits(s) {
        Some(digits_value(s))
    } else {
        None
    }
}

/// `s.parse::<i64>()`: the written integer when it fits.
pub open spec fn parsed_i64(s: Seq<char>) -> Option<i64> {
    match int_text(s) {
        Some(v) => if i64::MIN <= v <= i64::MAX { Some(v as i64) } else { None },
        None => None,
    }
}

/// `s.parse::<i32>()`: the written integer when it fits.
pub open spec fn parsed_i32(s: Seq<char>) -> Option<i32> {
    match int_text(s) {
        Some(v) => if i32::MIN <= v <= i32::MAX { Some(v as i32) } else { None },
        None => None,
    }
}

proof fn lemma_digits_value_grows(s: Seq<char>, i: int)
    requires
        0 <= i <= s.len(),
        digits(s),
    ensures
        0 <= digits_value(s.take(i)) <= digits_value(s),
    decreases s.len() - i,
{
    if i == s.len() {
        assert(s.take(i) == s);
        lemma_digits_value_nonneg(s);
    } else {
        lemma_digits_value_grows(s, i + 1);
        assert(s.take(i + 1).drop_last() == s.take(i));
        assert('0' <= s[i] <= '9');
    }
}

pub proof fn lemma_digits_value_nonneg(s: Seq<char>)
    requires
        digits(s),
    ensures
        digits_value(s) >= 0,
    decreases s.len(),
{
    if s.len() > 0 {
        assert(digits(s.drop_last())) by {
            assert forall|k: int| 0 <= k < s.drop_last().len() implies '0' <= #[trigger] s.drop_last()[k] <= '9' by {
                assert(s.drop_last()[k] == s[k]);
            }
        }
        lemma_digits_value_nonneg(s.drop_last());
        assert('0' <= s[s.len() - 1] <= '9');
    }
}

/// The value of the digits `s` when it is at most `bound`.
fn digits_upto(s: &[char], bound: i128) -> (r: Option<i128>)
    requires
        0 <= bound <= i64::MAX + 1,
        digits(s@),
    ensures
        r matches Some(v) ==> v == digits_value(s@) && 0 <= v <= bound,
        r is None ==> digits_value(s@) > bound,
{
    let mut v: i128 = 0;
    let mut i: usize = 0;
    while i < s.len()
        invariant
            i <= s.len(),
            0 <= bound <= i64::MAX + 1,
            digits(s@),
            v == digits_value(s@.take(i as int)),
            0 <= v <= bound,
        decreases s.len() - i,
    {
        assert(s@.take(i + 1).drop_last() == s@.take(i as int));
        assert('0' <= s@[i as int] <= '9');
        let d = (s[i] as u32 - '0' as u32) as i128;
        v = v * 10 + d;
        i = i + 1;
        if v > bound {
            proof {
                lemma_digits_value_grows(s@, i as int);
            }
            return None;
        }
    }
    assert(s@.take(s.len() as int) == s@);
    Some(v)
}

fn all_ascii_digits(s: &[char]) -> (b: bool)
    ensures
        b == digits(s@),
{
    let mut i: usize = 0;
    while i < s.len()
        invariant
            i <= s.len(),
            forall|k: int| 0 <= k < i ==> '0' <= #[trigger] s@[k] <= '9',
        decreases s.len() - i,
    {
        if !('0' <= s[i] && s[i] <= '9') {
            return false;
        }
        i = i + 1;
    }
    true
}

/// The integer written in `s`, when it lies in `lo..=hi`.
fn parse_in_range(s: &[char], lo: i128, hi: i128) -> (r: Option<i128>)
    requires
        i64::MIN <= lo <= 0 <= hi <= i64::MAX,
    ensures
        r matches Some(v) ==> int_text(s@) == Some(v as int) && lo <= v <= hi,
        r is None ==> !(int_text(s@) matches Some(v) && lo <= v <= hi),
{
    let signed = s.len() > 0 && (s[0] == '+' || s[0] == '-');
    let start: usize = if signed { 1 } else { 0 };
    let rest = slice_of(s, start, s.len());
    if rest.len() == 0 || !all_ascii_digits(rest.as_slice()) {
        proof {
            if signed {
                assert(rest@ == s@.drop_first());
            } else {
                assert(rest@ == s@);
            }
        }
        return None;
    }
    let negative = signed && s[0] == '-';
    let bound: i128 = if negative { -lo } else { hi };
    proof {
        if signed {
            assert(rest@ == s@.drop_first());
        } else {
            assert(rest@ == s@);
        }
    }
    proof {
        if signed {
            assert(int_text(s@) == Some(if s@[0] == '-' { -digits_value(rest@) } else { digits_value(rest@) }));
        } else {
            assert(int_text(s@) == Some(digits_value(rest@)));
        }
    }
    match digits_upto(rest.as_slice(), bound) {
        Some(v) => {
            if negative { Some(-v) } else { Some(v) }
        },
        None => None,
    }
}

/// `s.parse::<i64>()`.
pub fn parse_i64(s: &str) -> (r: Option<i64>)
    ensures
        r == parsed_i64(s@),
{
    let cs = chars_of(s);
    match parse_in_range(cs.as_slice(), i64::MIN as i128, i64::MAX as i128) {
        Some(v) => Some(v as i64),
        None => None,
    }
}

/// `s.parse::<i32>()`.
pub fn parse_i32(s: &str) -> (r: Option<i32>)
    ensures
        r == parsed_i32(s@),
{
    let cs = chars_of(s);
    match parse_in_range(cs.as_slice(), i32::MIN as i128, i32::MAX as i128) {
        Some(v) => Some(v as i32),
        None => None,
    }
}

/// The texts of `list` joined by `sep`.
pub fn join_strs(list: &Vec<&str>, sep: &str) -> (out: Vec<char>)
    ensures
        out@ == join(list@.map_values(|s: &str| s@), sep@),
{
    let ghost texts = list@.map_values(|s: &str| s@);
    let mut out: Vec<char> = Vec::new();
    let mut i: usize = 0;
    while i < list.len()
        invariant
            i <= list.len(),
            texts == list@.map_values(|s: &str| s@),
            out@ == join(texts.take(i as int), sep@),
        decreases list.len() - i,
    {
        if i != 0 {
            extend_str(&mut out, sep);
        }
        extend_str(&mut out, list[i]);
        i = i + 1;
        assert(texts.take(i as int).drop_last() == texts.take(i - 1));
        assert(texts.take(i as int).last() == list@[i - 1]@);
        if i == 1 {
            assert(texts.take(1) == seq![list@[0]@]);
        }
    }
    assert(texts.take(list.len() as int) == texts);
    out
}

/// `s` with its first char uppercased.
pub fn capitalize(s: &[char]) -> (out: Vec<char>)
    ensures
        out@ == capitalized(s@),
{
    if s.len() == 0 {
        return Vec::new();
    }
    let up = uppercase_char(s[0]);
    let mut v = chars_of(up.as_str());
    let rest = slice_of(s, 1, s.len());
    extend_chars(&mut v, rest.as_slice());
    assert(rest@ == s@.drop_first());
    v
}

// ---------------------------------------------------------------------------
// Where a pattern can and cannot occur in joined text
// ---------------------------------------------------------------------------

/// A match at `k` with none before it is what `search` finds first.
pub proof fn lemma_first_match(s: Seq<char>, p: Seq<char>, k: int)
    requires
        matches_at(s, p, k),
        forall|j: int| 0 <= j < k ==> !matches_at(s, p, j),
    ensures
        search(s, p, 0) == Some(k),
{
    lemma_search(s, p, 0);
}

/// Without any match, `p` does not occur.
pub proof fn lemma_no_match(s: Seq<char>, p: Seq<char>)
    requires
        forall|j: int| 0 <= j ==> !matches_at(s, p, j),
    ensures
        !occurs(s, p),
{
    lemma_search(s, p, 0);
}

/// Appending text keeps the first match of `p` where it was.
pub proof fn lemma_first_match_kept(a: Seq<char>, b: Seq<char>, p: Seq<char>, k: int)
    requires
        search(a, p, 0) == Some(k),
    ensures
        search(a + b, p, 0) == Some(k),
{
    lemma_search(a, p, 0);
    let s = a + b;
    assert(s.subrange(k, k + p.len()) =~= a.subrange(k, k + p.len()));
    assert forall|j: int| 0 <= j < k implies !matches_at(s, p, j) by {
        assert(!matches_at(a, p, j));
        assert(s.subrange(j, j + p.len()) =~= a.subrange(j, j + p.len()));
    }
    lemma_first_match(s, p, k);
}

/// Appending text without the last char of `p` cannot create a match.
pub proof fn lemma_absent_last_missing(a: Seq<char>, b: Seq<char>, p: Seq<char>)
    requires
        !occurs(a, p),
        p.len() > 0,
        !b.contains(p.last()),
    ensures
        !occurs(a + b, p),
{
    let s = a + b;
    lemma_search(s, p, 0);
    if occurs(s, p) {
        let k = search(s, p, 0)->0;
        let e = k + p.len() - 1;
        assert(s.subrange(k, k + p.len())[p.len() - 1] == s[e]);
        if e < a.len() {
            assert(s.subrange(k, k + p.len()) =~= a.subrange(k, k + p.len()));
            lemma_has_at(a, p, k);
        } else {
            assert(b[e - a.len()] == p.last());
        }
    }
}

/// Text whose first part lacks the first char of `p`, followed by text in
/// which `p` does not occur, holds no `p`.
pub proof fn lemma_absent_first_missing(a: Seq<char>, b: Seq<char>, p: Seq<char>)
    requires
        p.len() > 0,
        !a.contains(p[0]),
        !occurs(b, p),
    ensures
        !occurs(a + b, p),
{
    let s = a + b;
    lemma_search(s, p, 0);
    if occurs(s, p) {
        let k = search(s, p, 0)->0;
        assert(s.subrange(k, k + p.len())[0] == s[k]);
        if k < a.len() {
            assert(a[k] == p[0]);
        } else {
            assert(s.subrange(k, k + p.len()) =~= b.subrange(k - a.len(), k - a.len() + p.len()));
            lemma_has_at(b, p, k - a.len());
        }
    }
}

/// Chars outside `set` followed by a char of `set` (or nothing) end where the
/// first stop is.
pub proof fn lemma_first_of_after(a: Seq<char>, b: Seq<char>, set: Seq<char>, i: int)
    requires
        0 <= i <= a.len(),
        forall|j: int| 0 <= j < a.len() ==> !set.contains(#[trigger] a[j]),
        b.len() == 0 || set.contains(b[0]),
    ensures
        first_of(a + b, set, i) == a.len(),
    decreases a.len() - i,
{
    if i < a.len() {
        lemma_first_of_after(a, b, set, i + 1);
    }
}

/// `until_any` keeps exactly the chars before the first stop.
pub proof fn lemma_until_stop(a: Seq<char>, b: Seq<char>, set: Seq<char>)
    requires
        forall|j: int| 0 <= j < a.len() ==> !set.contains(#[trigger] a[j]),
        b.len() == 0 || set.contains(b[0]),
    ensures
        until_any(a + b, set) == a,
{
    lemma_first_of_after(a, b, set, 0);
    assert((a + b).take(a.len() as int) =~= a);
}

/// Joining two texts that each lack `p` creates none when, however `p` is cut
/// in two, the first text does not end with the first part or the second does
/// not begin with the rest.
pub proof fn lemma_absent_joined(a: Seq<char>, b: Seq<char>, p: Seq<char>)
    requires
        !occurs(a, p),
        !occurs(b, p),
        forall|t: int| 0 < t < p.len() ==> !(ends(a, #[trigger] p.take(t)) && starts(b, p.skip(t))),
    ensures
        !occurs(a + b, p),
{
    let s = a + b;
    lemma_search(s, p, 0);
    if occurs(s, p) {
        let k = search(s, p, 0)->0;
        if k + p.len() <= a.len() {
            assert(s.subrange(k, k + p.len()) =~= a.subrange(k, k + p.len()));
            lemma_has_at(a, p, k);
        } else if k >= a.len() {
            assert(s.subrange(k, k + p.len()) =~= b.subrange(k - a.len(), k - a.len() + p.len()));
            lemma_has_at(b, p, k - a.len());
        } else {
            let t = a.len() - k;
            assert(b.take(p.len() - t) =~= p.skip(t)) by {
                assert forall|i: int| 0 <= i < p.len() - t implies b[i] == p.skip(t)[i] by {
                    assert(s.subrange(k, k + p.len())[t + i] == s[a.len() + i]);
                }
            }
            assert(a.skip(a.len() - t) =~= p.take(t)) by {
                assert forall|i: int| 0 <= i < t implies a.skip(a.len() - t)[i] == p.take(t)[i] by {
                    assert(s.subrange(k, k + p.len())[i] == s[k + i]);
                }
            }
        }
    }
}

/// The first chars of a match, one by one.
pub proof fn lemma_match_chars(s: Seq<char>, p: Seq<char>, j: int)
    requires
        matches_at(s, p, j),
    ensures
        p.len() > 0 ==> s[j + 0] == p[0],
        p.len() > 1 ==> s[j + 1] == p[1],
        p.len() > 2 ==> s[j + 2] == p[2],
        p.len() > 3 ==> s[j + 3] == p[3],
        p.len() > 4 ==> s[j + 4] == p[4],
        p.len() > 5 ==> s[j + 5] == p[5],
        p.len() > 6 ==> s[j + 6] == p[6],
        p.len() > 7 ==> s[j + 7] == p[7],
        p.len() > 8 ==> s[j + 8] == p[8],
        p.len() > 9 ==> s[j + 9] == p[9],
{
    assert forall|t: int| 0 <= t < p.len() implies s[j + t] == p[t] by {
        assert(s.subrange(j, j + p.len())[t] == s[j + t]);
    }
}

/// The first chars of a text's end part.
pub proof fn lemma_end_chars(x: Seq<char>, q: Seq<char>)
    requires
        ends(x, q),
    ensures
        q.len() > 0 ==> x.last() == q.last(),
        q.len() > 0 ==> x[x.len() - q.len()] == q[0],
        q.len() > 1 ==> x[x.len() - q.len() + 1] == q[1],
        q.len() > 2 ==> x[x.len() - q.len() + 2] == q[2],
{
    if q.len() > 2 {
        assert(x.skip(x.len() - q.len())[2] == x[x.len() - q.len() + 2]);
    }
    if q.len() > 1 {
        assert(x.skip(x.len() - q.len())[1] == x[x.len() - q.len() + 1]);
    }
    if q.len() > 0 {
        assert(x.skip(x.len() - q.len())[0] == x[x.len() - q.len()]);
        assert(x.skip(x.len() - q.len())[q.len() - 1] == x.last());
    }
}

/// In `x + mid + key + rest`, `key` is first found right after `mid` when `x`
/// holds no `key`, `mid` lacks its first char, and no match starts in `x` and
/// runs on past it.
pub proof fn lemma_first_after(x: Seq<char>, mid: Seq<char>, key: Seq<char>, rest: Seq<char>)
    requires
        key.len() > 0,
        !occurs(x, key),
        forall|t: int| 0 < t < key.len() ==> !(ends(x, #[trigger] key.take(t)) && starts(mid + key + rest, key.skip(t))),
        !mid.contains(key[0]),
    ensures
        search(x + mid + key + rest, key, 0) == Some((x.len() + mid.len()) as int),
{
    let s = x + mid + key + rest;
    let k: int = (x.len() + mid.len()) as int;
    assert(s.subrange(k, k + key.len()) =~= key);
    assert forall|j: int| 0 <= j < k implies !matches_at(s, key, j) by {
        if matches_at(s, key, j) {
            assert(s.subrange(j, j + key.len())[0] == s[j]);
            if j >= x.len() {
                assert(mid[j - x.len()] == key[0]);
            } else if j + key.len() <= x.len() {
                assert(s.subrange(j, j + key.len()) =~= x.subrange(j, j + key.len()));
                lemma_has_at(x, key, j);
            } else {
                let t = x.len() - j;
                assert(x.skip(x.len() - t) =~= key.take(t)) by {
                    assert forall|i: int| 0 <= i < t implies x.skip(x.len() - t)[i] == key.take(t)[i] by {
                        assert(s.subrange(j, j + key.len())[i] == s[j + i]);
                    }
                }
                assert(ends(x, key.take(t)));
                let m = mid + key + rest;
                assert(s =~= x + m);
                assert(m.take(key.len() - t) =~= key.skip(t)) by {
                    assert forall|i: int| 0 <= i < key.len() - t implies m[i] == key.skip(t)[i] by {
                        assert(s.subrange(j, j + key.len())[t + i] == s[x.len() + i]);
                    }
                }
            }
        }
    }
    lemma_first_match(s, key, k);
}

/// Text without '/' that is not the word `w` followed by nothing or by '/'
/// does not begin with `w` and a '/'.
pub proof fn lemma_not_word_slash(mid: Seq<char>, rest: Seq<char>, w: Seq<char>)
    requires
        !mid.contains('/'),
        !w.contains('/'),
        mid != w,
        rest.len() == 0 || rest[0] == '/',
    ensures
        !starts(mid + rest, w + seq!['/']),
{
    let s = mid + rest;
    let q = w + seq!['/'];
    let n = w.len() as int;
    if starts(s, q) {
        assert(s.take(q.len() as int)[n] == s[n]);
        if n < mid.len() {
            assert(mid[n] == '/');
        } else if n > mid.len() {
            assert(s.take(q.len() as int)[mid.len() as int] == s[mid.len() as int]);
            assert(w[mid.len() as int] == '/');
        } else {
            assert forall|i: int| 0 <= i < n implies mid[i] == w[i] by {
                assert(s.take(q.len() as int)[i] == s[i]);
            }
            assert(mid =~= w);
        }
    }
}

/// Text without some char of `p` holds no `p`.
pub proof fn lemma_absent_char(s: Seq<char>, p: Seq<char>, c: char)
    requires
        p.contains(c),
        !s.contains(c),
    ensures
        !occurs(s, p),
{
    lemma_search(s, p, 0);
    if occurs(s, p) {
        let k = search(s, p, 0)->0;
        let i = choose|i: int| 0 <= i < p.len() && p[i] == c;
        assert(s.subrange(k, k + p.len())[i] == s[k + i]);
    }
}

/// Splitting `lead + id + tail` at `key`, when `key` first occurs at the very
/// end of `lead` and nowhere after it, gives `id + tail` as the second piece.
pub proof fn lemma_second_piece_after_lead(lead: Seq<char>, key: Seq<char>, id: Seq<char>, tail: Seq<char>)
    requires
        key.len() > 0,
        search(lead, key, 0) == Some(lead.len() - key.len()),
        !occurs(id + tail, key),
    ensures
        occurs(lead + id + tail, key),
        second_piece(lead + id + tail, key) == Some(id + tail),
{
    let u = lead + id + tail;
    assert(u =~= lead + (id + tail));
    lemma_first_match_kept(lead, id + tail, key, lead.len() - key.len());
    assert(u.skip(lead.len() as int) =~= id + tail);
    assert(nth_piece(id + tail, key, 0) == Some(id + tail));
    assert(search(u, key, 0) == Some(lead.len() - key.len()));
}

} // verus!
