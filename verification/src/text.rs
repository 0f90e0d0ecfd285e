//! Properties of text that the rules of the service are written in: length in
//! bytes and in user-perceived characters, content moderation, and a few
//! character-level scans.

use vstd::prelude::*;
use vstd::utf8::encode_utf8;

use rustrict::CensorStr;
use unicode_segmentation::UnicodeSegmentation;

verus! {

broadcast use vstd::string::group_string_axioms;

/// Whether the moderation filter judges the text inappropriate.
pub uninterp spec fn inappropriate(text: Seq<char>) -> bool;

/// The number of extended grapheme clusters (user-perceived characters) of the text.
pub uninterp spec fn grapheme_count(text: Seq<char>) -> nat;

/// Length of the text in bytes, encoded as UTF-8.
pub open spec fn utf8_len(text: Seq<char>) -> nat {
    encode_utf8(text).len()
}

/// `CensorStr::is_inappropriate` of rustrict on a `&str`: whether the text
/// reaches the `Type::INAPPROPRIATE` threshold of the moderation filter.
/// The filter's verdict depends on the text alone (its word lists are built in),
/// so its result is named by `inappropriate`; nothing more of it is stated.
#[verifier::external_body]
pub(crate) fn is_inappropriate(text: &str) -> (r: bool)
    ensures
        r == inappropriate(text@),
{
    text.is_inappropriate()
}

/// `UnicodeSegmentation::graphemes(text, true).count()` of unicode-segmentation:
/// the number of extended grapheme clusters of the text, named by
/// `grapheme_count`; the segmentation rules themselves are not stated.
#[verifier::external_body]
pub(crate) fn count_graphemes(text: &str) -> (r: usize)
    ensures
        r as nat == grapheme_count(text@),
{
    text.graphemes(true).count()
}

/// Length of a string in bytes.
pub fn byte_len(text: &str) -> (r: usize)
    ensures
        r as nat == utf8_len(text@),
{
    text.as_bytes().len()
}

/// Length of a string in characters.
pub fn char_count(text: &str) -> (r: usize)
    ensures
        r == text@.len(),
{
    let chars: Vec<char> = chars_of(text);
    chars.len()
}

/// A character that may stand in a URL path segment without escaping.
pub open spec fn url_safe_char(c: char) -> bool {
    ||| ('a' <= c && c <= 'z')
    ||| ('A' <= c && c <= 'Z')
    ||| ('0' <= c && c <= '9')
    ||| c == '-'
    ||| c == '_'
    ||| c == '.'
    ||| c == '~'
}

/// Every character of the text may stand in a URL path segment.
pub open spec fn url_safe(text: Seq<char>) -> bool {
    forall|i: int| 0 <= i < text.len() ==> url_safe_char(#[trigger] text[i])
}

/// Whether `s` consists only of ASCII letters, digits and `-`, `_`, `.`, `~`.
pub fn is_url_component_safe(s: &str) -> (r: bool)
    ensures
        r == url_safe(s@),
{
    let mut ok: bool = true;
    for c in iter: s.chars()
        invariant
            iter.seq() == s@,
            ok == (forall|i: int| 0 <= i < iter.index() ==> url_safe_char(#[trigger] s@[i])),
    {
        let good: bool = ('a' <= c && c <= 'z') || ('A' <= c && c <= 'Z') || ('0' <= c && c <= '9')
            || c == '-' || c == '_' || c == '.' || c == '~';
        ok = ok && good;
    }
    ok
}

/// `String::push` of std: appends one character at the end.
#[verifier::external_body]
pub(crate) fn push_char(s: &mut String, c: char)
    ensures
        final(s)@ == old(s)@.push(c),
{
    s.push(c);
}

/// The characters of a string, in order.
pub fn chars_of(s: &str) -> (v: Vec<char>)
    ensures
        v@ == s@,
{
    let mut v: Vec<char> = Vec::new();
    for c in iter: s.chars()
        invariant
            iter.seq() == s@,
            v@ == s@.take(iter.index() as int),
    {
        v.push(c);
        assert(s@.take(iter.index() as int + 1) =~= s@.take(iter.index() as int).push(c));
    }
    assert(s@.take(s@.len() as int) =~= s@);
    v
}

/// A string made of the given characters.
pub fn string_of(chars: &Vec<char>) -> (s: String)
    ensures
        s@ == chars@,
{
    let mut s: String = String::new();
    let n: usize = chars.len();
    let mut i: usize = 0;
    while i < n
        invariant
            n == chars@.len(),
            i <= n,
            s@ == chars@.take(i as int),
        decreases n - i,
    {
        push_char(&mut s, chars[i]);
        assert(chars@.take(i + 1) =~= chars@.take(i as int).push(chars@[i as int]));
        i = i + 1;
    }
    assert(chars@.take(n as int) =~= chars@);
    s
}

/// The text `needle` occurs in `hay` starting at position `i`.
pub open spec fn occurs_at(hay: Seq<char>, needle: Seq<char>, i: int) -> bool {
    0 <= i && i + needle.len() <= hay.len() && hay.subrange(i, i + needle.len()) == needle
}

/// The text `needle` occurs somewhere in `hay` (the empty text occurs in every text).
pub open spec fn contains_text(hay: Seq<char>, needle: Seq<char>) -> bool {
    exists|i: int| occurs_at(hay, needle, i)
}

fn matches_at(hay: &Vec<char>, needle: &Vec<char>, i: usize) -> (r: bool)
    requires
        i + needle@.len() <= hay@.len(),
    ensures
        r == occurs_at(hay@, needle@, i as int),
{
    let m: usize = needle.len();
    let hl: usize = hay.len();
    let mut j: usize = 0;
    while j < m
        invariant
            m == needle@.len(),
            hl == hay@.len(),
            i + m <= hay@.len(),
            j <= m,
            forall|k: int| 0 <= k < j ==> hay@[i + k] == needle@[k],
        decreases m - j,
    {
        if hay[i + j] != needle[j] {
            assert(hay@.subrange(i as int, i + m)[j as int] != needle@[j as int]);
            return false;
        }
        j = j + 1;
    }
    assert(hay@.subrange(i as int, i + m) =~= needle@);
    true
}

/// Whether the text `needle` occurs in `hay`.
pub fn text_contains(hay: &str, needle: &str) -> (r: bool)
    ensures
        r == contains_text(hay@, needle@),
{
    let h: Vec<char> = chars_of(hay);
    let nd: Vec<char> = chars_of(needle);
    if nd.len() > h.len() {
        assert forall|i: int| !occurs_at(hay@, needle@, i) by {}
        return false;
    }
    let last: usize = h.len() - nd.len();
    let mut i: usize = 0;
    while i < last
        invariant
            h@ == hay@,
            nd@ == needle@,
            last + nd@.len() == h@.len(),
            i <= last,
            forall|k: int| 0 <= k < i ==> !occurs_at(hay@, needle@, k),
        decreases last - i,
    {
        if matches_at(&h, &nd, i) {
            return true;
        }
        i = i + 1;
    }
    if matches_at(&h, &nd, last) {
        return true;
    }
    assert forall|k: int| !occurs_at(hay@, needle@, k) by {
        if 0 <= k && k < last {
        }
    }
    false
}

/// Whether the character occurs in the text.
pub fn contains_char(text: &str, c: char) -> (r: bool)
    ensures
        r == text@.contains(c),
{
    let mut found: bool = false;
    for x in iter: text.chars()
        invariant
            iter.seq() == text@,
            found == (exists|i: int| 0 <= i < iter.index() && text@[i] == c),
    {
        if x == c {
            found = true;
        }
    }
    found
}

/// Whether two texts are equal.
pub fn same_text(a: &str, b: &str) -> (r: bool)
    ensures
        r == (a@ == b@),
{
    let x: Vec<char> = chars_of(a);
    let y: Vec<char> = chars_of(b);
    if x.len() != y.len() {
        return false;
    }
    let n: usize = x.len();
    let mut i: usize = 0;
    while i < n
        invariant
            x@ == a@,
            y@ == b@,
            n == x@.len(),
            n == y@.len(),
            i <= n,
            forall|k: int| 0 <= k < i ==> x@[k] == y@[k],
        decreases n - i,
    {
        if x[i] != y[i] {
            return false;
        }
        i = i + 1;
    }
    assert(x@ =~= y@);
    true
}

/// `text` without `prefix` at its start, when it starts with `prefix`.
pub open spec fn strip_prefix_spec(text: Seq<char>, prefix: Seq<char>) -> Option<Seq<char>> {
    if prefix.len() <= text.len() && text.subrange(0, prefix.len() as int) == prefix {
        Some(text.subrange(prefix.len() as int, text.len() as int))
    } else {
        None
    }
}

/// The rest of `text` after `prefix`, if `text` starts with `prefix`.
pub fn strip_prefix_text(text: &str, prefix: &str) -> (r: Option<String>)
    ensures
        match r {
            Some(s) => strip_prefix_spec(text@, prefix@) == Some(s@),
            None => strip_prefix_spec(text@, prefix@) is None,
        },
{
    let t: Vec<char> = chars_of(text);
    let p: Vec<char> = chars_of(prefix);
    if p.len() > t.len() {
        return None;
    }
    if !matches_at(&t, &p, 0) {
        assert(t@.subrange(0, p@.len() as int) == t@.subrange(0int, 0int + p@.len()));
        return None;
    }
    let mut rest: String = String::new();
    let n: usize = t.len();
    let mut i: usize = p.len();
    while i < n
        invariant
            t@ == text@,
            n == t@.len(),
            p@.len() <= i <= n,
            rest@ == t@.subrange(p@.len() as int, i as int),
        decreases n - i,
    {
        push_char(&mut rest, t[i]);
        assert(t@.subrange(p@.len() as int, i + 1) =~= t@.subrange(p@.len() as int, i as int).push(t@[i as int]));
        i = i + 1;
    }
    assert(t@.subrange(0, p@.len() as int) == t@.subrange(0int, 0int + p@.len()));
    Some(rest)
}

/// The decimal digit for a value below ten.
pub open spec fn digit_char(d: nat) -> char {
    if d == 0 { '0' }
    else if d == 1 { '1' }
    else if d == 2 { '2' }
    else if d == 3 { '3' }
    else if d == 4 { '4' }
    else if d == 5 { '5' }
    else if d == 6 { '6' }
    else if d == 7 { '7' }
    else if d == 8 { '8' }
    else { '9' }
}

/// The decimal notation of a natural number, without leading zeros.
pub open spec fn decimal(n: nat) -> Seq<char>
    decreases n,
{
    if n < 10 {
        seq![digit_char(n)]
    } else {
        decimal(n / 10).push(digit_char(n % 10))
    }
}

/// The decimal notation of an integer, with a leading `-` when it is negative.
pub open spec fn signed_decimal(i: int) -> Seq<char> {
    if i < 0 {
        seq!['-'] + decimal((-i) as nat)
    } else {
        decimal(i as nat)
    }
}

fn digit(d: u64) -> (c: char)
    requires
        d < 10,
    ensures
        c == digit_char(d as nat),
{
    if d == 0 { '0' }
    else if d == 1 { '1' }
    else if d == 2 { '2' }
    else if d == 3 { '3' }
    else if d == 4 { '4' }
    else if d == 5 { '5' }
    else if d == 6 { '6' }
    else if d == 7 { '7' }
    else if d == 8 { '8' }
    else { '9' }
}

fn push_decimal(s: &mut String, n: u64)
    ensures
        final(s)@ == old(s)@ + decimal(n as nat),
    decreases n,
{
    if n < 10 {
        push_char(s, digit(n));
        assert(decimal(n as nat) =~= seq![digit_char(n as nat)]);
    } else {
        push_decimal(s, n / 10);
        push_char(s, digit(n % 10));
    }
}

/// The decimal notation of an unsigned number, as `to_string` writes it.
pub fn u64_to_decimal(n: u64) -> (s: String)
    ensures
        s@ == decimal(n as nat),
{
    let mut s: String = String::new();
    push_decimal(&mut s, n);
    assert(s@ =~= decimal(n as nat));
    s
}

/// The decimal notation of a signed number, as `to_string` writes it.
pub fn i64_to_decimal(n: i64) -> (s: String)
    ensures
        s@ == signed_decimal(n as int),
{
    let mut s: String = String::new();
    if n < 0 {
        push_char(&mut s, '-');
        let magnitude: u64 = if n == i64::MIN {
            9223372036854775808u64
        } else {
            (-n) as u64
        };
        push_decimal(&mut s, magnitude);
    } else {
        push_decimal(&mut s, n as u64);
    }
    assert(s@ =~= signed_decimal(n as int));
    s
}

// ---------------------------------------------------------------- lists of words

/// A character with the Unicode `White_Space` property.
pub open spec fn white_space(c: char) -> bool {
    ||| ('\u{9}' <= c && c <= '\u{d}')
    ||| c == ' '
    ||| c == '\u{85}'
    ||| c == '\u{a0}'
    ||| c == '\u{1680}'
    ||| ('\u{2000}' <= c && c <= '\u{200a}')
    ||| c == '\u{2028}'
    ||| c == '\u{2029}'
    ||| c == '\u{202f}'
    ||| c == '\u{205f}'
    ||| c == '\u{3000}'
}

/// Whether a character has the Unicode `White_Space` property, as
/// `char::is_whitespace` says.
pub fn is_white_space(c: char) -> (r: bool)
    ensures
        r == white_space(c),
{
    ('\u{9}' <= c && c <= '\u{d}') || c == ' ' || c == '\u{85}' || c == '\u{a0}' || c == '\u{1680}'
        || ('\u{2000}' <= c && c <= '\u{200a}') || c == '\u{2028}' || c == '\u{2029}' || c
        == '\u{202f}' || c == '\u{205f}' || c == '\u{3000}'
}

/// The text without leading white space.
pub open spec fn trim_start(s: Seq<char>) -> Seq<char>
    decreases s.len(),
{
    if s.len() > 0 && white_space(s[0]) {
        trim_start(s.drop_first())
    } else {
        s
    }
}

/// The text without trailing white space.
pub open spec fn trim_end(s: Seq<char>) -> Seq<char>
    decreases s.len(),
{
    if s.len() > 0 && white_space(s.last()) {
        trim_end(s.drop_last())
    } else {
        s
    }
}

/// The text without leading and trailing white space.
pub open spec fn trim(s: Seq<char>) -> Seq<char> {
    trim_end(trim_start(s))
}

proof fn lemma_trim_start_skip(s: Seq<char>, i: int)
    requires
        0 <= i <= s.len(),
        forall|k: int| 0 <= k < i ==> white_space(#[trigger] s[k]),
    ensures
        trim_start(s) == trim_start(s.subrange(i, s.len() as int)),
    decreases i,
{
    if i > 0 {
        lemma_trim_start_skip(s.drop_first(), i - 1);
        assert(s.drop_first().subrange(i - 1, s.drop_first().len() as int) =~= s.subrange(i, s.len() as int));
    } else {
        assert(s.subrange(0, s.len() as int) =~= s);
    }
}

proof fn lemma_trim_end_take(s: Seq<char>, j: int)
    requires
        0 <= j <= s.len(),
        forall|k: int| j <= k < s.len() ==> white_space(#[trigger] s[k]),
    ensures
        trim_end(s) == trim_end(s.subrange(0, j)),
    decreases s.len() - j,
{
    if j < s.len() {
        assert(white_space(s.last()));
        lemma_trim_end_take(s.drop_last(), j);
        assert(s.drop_last().subrange(0, j) =~= s.subrange(0, j));
    } else {
        assert(s.subrange(0, j) =~= s);
    }
}

/// The characters of a text without leading and trailing white space.
pub fn trim_chars(s: &Vec<char>) -> (r: Vec<char>)
    ensures
        r@ == trim(s@),
{
    let n: usize = s.len();
    let mut i: usize = 0;
    while i < n && is_white_space(s[i])
        invariant
            n == s@.len(),
            i <= n,
            forall|k: int| 0 <= k < i ==> white_space(#[trigger] s@[k]),
        decreases n - i,
    {
        i = i + 1;
    }
    proof {
        lemma_trim_start_skip(s@, i as int);
    }
    let ghost mid = s@.subrange(i as int, n as int);
    assert(trim_start(mid) == mid);
    let mut j: usize = n;
    while j > i && is_white_space(s[j - 1])
        invariant
            n == s@.len(),
            i <= j <= n,
            forall|k: int| j <= k < n ==> white_space(#[trigger] s@[k]),
        decreases j,
    {
        j = j - 1;
    }
    proof {
        assert forall|k: int| (j - i) <= k < mid.len() implies white_space(#[trigger] mid[k]) by {
            assert(mid[k] == s@[i + k]);
        }
        lemma_trim_end_take(mid, j - i);
        assert(mid.subrange(0, j - i) =~= s@.subrange(i as int, j as int));
        let t = s@.subrange(i as int, j as int);
        if t.len() > 0 {
            assert(t.last() == s@[j - 1]);
        }
    }
    let mut r: Vec<char> = Vec::new();
    let mut k: usize = i;
    while k < j
        invariant
            n == s@.len(),
            i <= k <= j <= n,
            r@ == s@.subrange(i as int, k as int),
        decreases j - k,
    {
        r.push(s[k]);
        assert(s@.subrange(i as int, k + 1) =~= s@.subrange(i as int, k as int).push(s@[k as int]));
        k = k + 1;
    }
    r
}

/// The pieces of a text between the occurrences of a separator, in order;
/// there is always at least one piece.
pub open spec fn split_on(s: Seq<char>, sep: char) -> Seq<Seq<char>>
    decreases s.len(),
{
    if s.len() == 0 {
        seq![Seq::<char>::empty()]
    } else {
        let init = split_on(s.drop_last(), sep);
        if s.last() == sep {
            init.push(Seq::<char>::empty())
        } else {
            init.update(init.len() - 1, init.last().push(s.last()))
        }
    }
}

proof fn lemma_split_nonempty(s: Seq<char>, sep: char)
    ensures
        split_on(s, sep).len() >= 1,
    decreases s.len(),
{
    if s.len() > 0 {
        lemma_split_nonempty(s.drop_last(), sep);
    }
}

/// The words of a comma-separated list, each without surrounding white space,
/// as `split(',')` followed by `trim` gives them.
pub open spec fn tag_list(s: Seq<char>) -> Seq<Seq<char>> {
    split_on(s, ',').map_values(|w: Seq<char>| trim(w))
}

/// The words of a comma-separated list, each without surrounding white space.
pub fn split_tags(text: &str) -> (r: Vec<String>)
    ensures
        r@.map_values(|w: String| w@) == tag_list(text@),
{
    let chars: Vec<char> = chars_of(text);
    let n: usize = chars.len();
    let mut done: Vec<Vec<char>> = Vec::new();
    let mut cur: Vec<char> = Vec::new();
    let mut i: usize = 0;
    assert(chars@.take(0) =~= Seq::<char>::empty());
    while i < n
        invariant
            n == chars@.len(),
            chars@ == text@,
            i <= n,
            done@.map_values(|v: Vec<char>| v@).push(cur@) == split_on(chars@.take(i as int), ','),
        decreases n - i,
    {
        let c: char = chars[i];
        let ghost before = done@.map_values(|v: Vec<char>| v@).push(cur@);
        proof {
            lemma_split_nonempty(chars@.take(i as int), ',');
            assert(chars@.take(i + 1).drop_last() =~= chars@.take(i as int));
            assert(chars@.take(i + 1).last() == c);
        }
        if c == ',' {
            let finished: Vec<char> = cur;
            done.push(finished);
            cur = Vec::new();
            assert(done@.map_values(|v: Vec<char>| v@).push(cur@) =~= before.push(Seq::<char>::empty()));
        } else {
            cur.push(c);
            assert(done@.map_values(|v: Vec<char>| v@).push(cur@) =~= before.update(
                before.len() - 1,
                before.last().push(c),
            ));
        }
        i = i + 1;
    }
    done.push(cur);
    assert(chars@.take(n as int) =~= chars@);
    let ghost pieces = done@.map_values(|v: Vec<char>| v@);
    assert(pieces == split_on(text@, ','));
    let mut r: Vec<String> = Vec::new();
    let m: usize = done.len();
    let mut k: usize = 0;
    while k < m
        invariant
            m == done@.len(),
            pieces == done@.map_values(|v: Vec<char>| v@),
            pieces == split_on(text@, ','),
            pieces.len() == m,
            r@.len() == k,
            k <= m,
            r@.map_values(|w: String| w@) == pieces.take(k as int).map_values(|w: Seq<char>| trim(w)),
        decreases m - k,
    {
        assert(pieces[k as int] == done@[k as int]@);
        let trimmed: Vec<char> = trim_chars(&done[k]);
        let word: String = string_of(&trimmed);
        let ghost prev = r@;
        r.push(word);
        assert(r@[k as int]@ == trim(pieces[k as int]));
        assert forall|x: int| 0 <= x < k implies r@[x]@ == prev[x]@ by {}
        assert(prev.map_values(|w: String| w@) =~= pieces.take(k as int).map_values(|w: Seq<char>| trim(w)));
        assert forall|x: int| 0 <= x < k implies #[trigger] prev[x]@ == trim(pieces[x]) by {
            assert(prev.map_values(|w: String| w@)[x] == prev[x]@);
            assert(pieces.take(k as int).map_values(|w: Seq<char>| trim(w))[x] == trim(pieces[x]));
        }
        assert(r@.map_values(|w: String| w@) =~= pieces.take(k + 1).map_values(|w: Seq<char>| trim(w)));
        k = k + 1;
    }
    assert(pieces.take(m as int) =~= pieces);
    r
}

} // verus!
