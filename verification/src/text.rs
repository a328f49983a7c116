//! Character-level text helpers shared by the transcript, speech and
//! context modules: conversion between strings and character vectors,
//! Unicode whitespace, trimming, word counting and whitespace collapsing.

use vstd::prelude::*;

verus! {

/// Unicode `White_Space` property (the set `char::is_whitespace` tests).
pub open spec fn is_ws(c: char) -> bool {
    let u = c as u32;
    ||| 0x09 <= u <= 0x0d
    ||| u == 0x20
    ||| u == 0x85
    ||| u == 0xa0
    ||| u == 0x1680
    ||| 0x2000 <= u <= 0x200a
    ||| u == 0x2028
    ||| u == 0x2029
    ||| u == 0x202f
    ||| u == 0x205f
    ||| u == 0x3000
}

/// Executable form of [`is_ws`].
pub fn is_ws_char(c: char) -> (r: bool)
    ensures
        r == is_ws(c),
{
    let u = c as u32;
    (0x09 <= u && u <= 0x0d) || u == 0x20 || u == 0x85 || u == 0xa0 || u == 0x1680 || (0x2000
        <= u && u <= 0x200a) || u == 0x2028 || u == 0x2029 || u == 0x202f || u == 0x205f || u
        == 0x3000
}

/// Appends one character to a string (`String::push`).
#[verifier::external_body]
pub(crate) fn push_char(s: &mut String, c: char)
    ensures
        final(s)@ == old(s)@.push(c),
{
    s.push(c)
}

/// What `str::to_lowercase` returns for a string (Unicode lowercase mapping).
pub uninterp spec fn lowercase(s: Seq<char>) -> Seq<char>;

/// Lowercase copy of `s` (`str::to_lowercase`); the result is named by [`lowercase`].
#[verifier::external_body]
pub(crate) fn to_lower(s: &str) -> (r: String)
    ensures
        r@ == lowercase(s@),
{
    s.to_lowercase()
}

/// What `str::to_uppercase` returns for a string (Unicode uppercase mapping).
pub uninterp spec fn uppercase(s: Seq<char>) -> Seq<char>;

/// Uppercase copy of `s` (`str::to_uppercase`); the result is named by [`uppercase`].
#[verifier::external_body]
pub(crate) fn to_upper(s: &str) -> (r: String)
    ensures
        r@ == uppercase(s@),
{
    s.to_uppercase()
}

/// What `char::is_alphabetic` answers for a character (Unicode `Alphabetic`).
pub uninterp spec fn alphabetic(c: char) -> bool;

/// Whether `c` is alphabetic (`char::is_alphabetic`); named by [`alphabetic`].
#[verifier::external_body]
pub(crate) fn is_alphabetic_char(c: char) -> (r: bool)
    ensures
        r == alphabetic(c),
{
    c.is_alphabetic()
}

/// The characters of `s`, in order.
pub fn to_chars(s: &str) -> (r: Vec<char>)
    ensures
        r@ == s@,
{
    let n = s.unicode_len();
    let mut out: Vec<char> = Vec::new();
    let mut i: usize = 0;
    while i < n
        invariant
            n == s@.len(),
            i <= n,
            out@ == s@.subrange(0, i as int),
        decreases n - i,
    {
        let c = s.get_char(i);
        out.push(c);
        i = i + 1;
        assert(out@ =~= s@.subrange(0, i as int));
    }
    assert(out@ =~= s@);
    out
}

/// The string made of `v[lo..hi]`.
pub fn from_chars_range(v: &Vec<char>, lo: usize, hi: usize) -> (r: String)
    requires
        lo <= hi <= v@.len(),
    ensures
        r@ == v@.subrange(lo as int, hi as int),
{
    let mut out = String::new();
    let mut i: usize = lo;
    while i < hi
        invariant
            lo <= i <= hi <= v@.len(),
            out@ == v@.subrange(lo as int, i as int),
        decreases hi - i,
    {
        push_char(&mut out, v[i]);
        i = i + 1;
        assert(out@ =~= v@.subrange(lo as int, i as int));
    }
    out
}

/// The string made of all of `v`.
pub fn from_chars(v: &Vec<char>) -> (r: String)
    ensures
        r@ == v@,
{
    let r = from_chars_range(v, 0, v.len());
    assert(v@.subrange(0, v@.len() as int) =~= v@);
    r
}

/// A copy of `s` as an owned string.
pub fn owned(s: &str) -> (r: String)
    ensures
        r@ == s@,
{
    String::from_str(s)
}

/// `a` followed by `b`.
pub fn concat2(a: &str, b: &str) -> (r: String)
    ensures
        r@ == a@ + b@,
{
    let mut r = String::from_str(a);
    r.append(b);
    r
}

/// `a`, `b`, `c` in order.
pub fn concat3(a: &str, b: &str, c: &str) -> (r: String)
    ensures
        r@ == a@ + b@ + c@,
{
    let mut r = String::from_str(a);
    r.append(b);
    r.append(c);
    r
}

/// Index of the first non-whitespace character (or `s.len()`).
pub open spec fn lead_ws_end(s: Seq<char>) -> int
    decreases s.len(),
{
    if s.len() == 0 {
        0
    } else if is_ws(s[0]) {
        1 + lead_ws_end(s.drop_first())
    } else {
        0
    }
}

/// Index one past the last non-whitespace character (or 0).
pub open spec fn trail_ws_start(s: Seq<char>) -> int
    decreases s.len(),
{
    if s.len() == 0 {
        0
    } else if is_ws(s.last()) {
        trail_ws_start(s.drop_last())
    } else {
        s.len() as int
    }
}

/// `s` with leading and trailing Unicode whitespace removed (`str::trim`).
pub open spec fn trim(s: Seq<char>) -> Seq<char> {
    if lead_ws_end(s) >= s.len() {
        Seq::empty()
    } else {
        s.subrange(lead_ws_end(s), trail_ws_start(s))
    }
}

pub proof fn lemma_lead_ws_end(s: Seq<char>)
    ensures
        0 <= lead_ws_end(s) <= s.len(),
        forall|i: int| 0 <= i < lead_ws_end(s) ==> is_ws(#[trigger] s[i]),
        lead_ws_end(s) < s.len() ==> !is_ws(s[lead_ws_end(s)]),
    decreases s.len(),
{
    if s.len() > 0 && is_ws(s[0]) {
        lemma_lead_ws_end(s.drop_first());
        assert forall|i: int| 0 <= i < lead_ws_end(s) implies is_ws(#[trigger] s[i]) by {
            if i > 0 {
                assert(s[i] == s.drop_first()[i - 1]);
            }
        }
    }
}

pub proof fn lemma_trail_ws_start(s: Seq<char>)
    ensures
        0 <= trail_ws_start(s) <= s.len(),
        forall|i: int| trail_ws_start(s) <= i < s.len() ==> is_ws(#[trigger] s[i]),
        trail_ws_start(s) > 0 ==> !is_ws(s[trail_ws_start(s) - 1]),
    decreases s.len(),
{
    if s.len() > 0 && is_ws(s.last()) {
        lemma_trail_ws_start(s.drop_last());
        assert forall|i: int| trail_ws_start(s) <= i < s.len() implies is_ws(#[trigger] s[i]) by {
            if i < s.len() - 1 {
                assert(s[i] == s.drop_last()[i]);
            }
        }
    }
}

/// Trimming twice is trimming once.
pub proof fn lemma_trim_idempotent(s: Seq<char>)
    ensures
        trim(trim(s)) == trim(s),
{
    lemma_lead_ws_end(s);
    lemma_trail_ws_start(s);
    lemma_trim_bounds(s);
    let t = trim(s);
    if t.len() > 0 {
        let l = lead_ws_end(s);
        let r = trail_ws_start(s);
        assert(t[0] == s[l]);
        assert(t.last() == s[r - 1]);
        assert(lead_ws_end(t) == 0);
        assert(trail_ws_start(t) == t.len());
        assert(t.subrange(0, t.len() as int) =~= t);
    }
}

/// When some character is not whitespace, the leading run ends before the trailing run starts.
pub proof fn lemma_trim_bounds(s: Seq<char>)
    ensures
        lead_ws_end(s) < s.len() ==> lead_ws_end(s) < trail_ws_start(s),
{
    lemma_lead_ws_end(s);
    lemma_trail_ws_start(s);
    if lead_ws_end(s) < s.len() {
        let k = lead_ws_end(s);
        assert(!is_ws(s[k]));
        if trail_ws_start(s) <= k {
            assert(is_ws(s[k]));
        }
    }
}

/// `s` trimmed of Unicode whitespace at both ends.
pub fn trim_chars(s: &Vec<char>) -> (r: Vec<char>)
    ensures
        r@ == trim(s@),
{
    proof {
        lemma_lead_ws_end(s@);
        lemma_trail_ws_start(s@);
        lemma_trim_bounds(s@);
    }
    let n = s.len();
    let mut lo: usize = 0;
    while lo < n && is_ws_char(s[lo])
        invariant
            n == s@.len(),
            lo <= n,
            lo <= lead_ws_end(s@),
            forall|i: int| 0 <= i < lead_ws_end(s@) ==> is_ws(#[trigger] s@[i]),
            lead_ws_end(s@) < s@.len() ==> !is_ws(s@[lead_ws_end(s@)]),
        decreases n - lo,
    {
        lo = lo + 1;
    }
    assert(lo == lead_ws_end(s@));
    if lo == n {
        let r: Vec<char> = Vec::new();
        assert(r@ =~= trim(s@));
        return r;
    }
    let mut hi: usize = n;
    while hi > lo && is_ws_char(s[hi - 1])
        invariant
            n == s@.len(),
            lo < n,
            lo == lead_ws_end(s@),
            lo < trail_ws_start(s@),
            trail_ws_start(s@) <= hi <= n,
            forall|i: int| trail_ws_start(s@) <= i < s@.len() ==> is_ws(#[trigger] s@[i]),
            trail_ws_start(s@) > 0 ==> !is_ws(s@[trail_ws_start(s@) - 1]),
        decreases hi,
    {
        hi = hi - 1;
    }
    assert(hi == trail_ws_start(s@));
    let mut r: Vec<char> = Vec::new();
    let mut i: usize = lo;
    while i < hi
        invariant
            lo <= i <= hi <= n == s@.len(),
            r@ == s@.subrange(lo as int, i as int),
        decreases hi - i,
    {
        r.push(s[i]);
        i = i + 1;
        assert(r@ =~= s@.subrange(lo as int, i as int));
    }
    r
}

/// Whether `s` begins a new word at position `i` (non-whitespace after whitespace or start).
pub open spec fn word_starts_at(s: Seq<char>, i: int) -> bool {
    &&& 0 <= i < s.len()
    &&& !is_ws(s[i])
    &&& (i == 0 || is_ws(s[i - 1]))
}

/// Number of whitespace-separated words (`str::split_whitespace().count()`).
pub open spec fn word_count(s: Seq<char>) -> nat
    decreases s.len(),
{
    if s.len() == 0 {
        0
    } else {
        word_count(s.drop_last()) + if word_starts_at(s, s.len() - 1) {
            1nat
        } else {
            0nat
        }
    }
}

pub proof fn lemma_word_count_le(s: Seq<char>)
    ensures
        word_count(s) <= s.len(),
    decreases s.len(),
{
    if s.len() > 0 {
        lemma_word_count_le(s.drop_last());
    }
}

/// Word count is at most half the length, rounded up.
pub proof fn lemma_word_count_half(s: Seq<char>)
    ensures
        2 * word_count(s) <= s.len() + 1,
        s.len() > 0 && is_ws(s.last()) ==> 2 * word_count(s) <= s.len(),
    decreases s.len(),
{
    if s.len() > 0 {
        let t = s.drop_last();
        lemma_word_count_half(t);
        if word_starts_at(s, s.len() - 1) && s.len() > 1 {
            assert(is_ws(t.last()));
        }
    }
}

/// Counts whitespace-separated words.
pub fn count_words(s: &str) -> (r: usize)
    ensures
        r == word_count(s@),
        2 * r <= s@.len() + 1,
        s@.len() <= usize::MAX,
{
    proof {
        lemma_word_count_half(s@);
    }
    let v = to_chars(s);
    let n = v.len();
    let mut count: usize = 0;
    let mut i: usize = 0;
    while i < n
        invariant
            n == v@.len(),
            v@ == s@,
            i <= n,
            count == word_count(v@.subrange(0, i as int)),
            count <= i,
        decreases n - i,
    {
        let starts = !is_ws_char(v[i]) && (i == 0 || is_ws_char(v[i - 1]));
        proof {
            let t = v@.subrange(0, i + 1);
            assert(t.drop_last() =~= v@.subrange(0, i as int));
            assert(word_starts_at(t, t.len() - 1) == starts);
        }
        if starts {
            count = count + 1;
        }
        i = i + 1;
    }
    assert(v@.subrange(0, n as int) =~= s@);
    count
}

/// Whitespace-separated words of `s` (`str::split_whitespace`).
pub open spec fn words(s: Seq<char>) -> Seq<Seq<char>>
    decreases s.len(),
{
    if s.len() == 0 {
        Seq::empty()
    } else {
        let w = words(s.drop_last());
        let c = s.last();
        if is_ws(c) {
            w
        } else if word_starts_at(s, s.len() - 1) {
            w.push(seq![c])
        } else {
            w.update(w.len() - 1, w.last().push(c))
        }
    }
}

/// Items of `ws` joined by `sep`.
pub open spec fn join(ws: Seq<Seq<char>>, sep: Seq<char>) -> Seq<char>
    decreases ws.len(),
{
    if ws.len() == 0 {
        Seq::empty()
    } else if ws.len() == 1 {
        ws[0]
    } else {
        join(ws.drop_last(), sep) + sep + ws.last()
    }
}

/// `s` with runs of whitespace collapsed to single spaces and the ends trimmed
/// (`split_whitespace().collect::<Vec<_>>().join(" ")`).
pub open spec fn collapse_ws(s: Seq<char>) -> Seq<char> {
    join(words(s), seq![' '])
}

/// A word is in progress at the end of `s` exactly when its last char is not whitespace.
pub proof fn lemma_words_shape(s: Seq<char>)
    ensures
        s.len() > 0 && !is_ws(s.last()) ==> words(s).len() > 0,
        s.len() > 0 && !is_ws(s.last()) && !word_starts_at(s, s.len() - 1) ==> words(
            s.drop_last(),
        ).len() > 0,
    decreases s.len(),
{
    if s.len() > 1 {
        lemma_words_shape(s.drop_last());
        let t = s.drop_last();
        if !is_ws(s.last()) && !word_starts_at(s, s.len() - 1) {
            assert(!is_ws(t.last()));
        }
    }
}

pub proof fn lemma_join_push(ws: Seq<Seq<char>>, x: Seq<char>, sep: Seq<char>)
    requires
        ws.len() > 0,
    ensures
        join(ws.push(x), sep) == join(ws, sep) + sep + x,
{
    assert(ws.push(x).drop_last() =~= ws);
}

pub proof fn lemma_join_extend_last(ws: Seq<Seq<char>>, c: char, sep: Seq<char>)
    requires
        ws.len() > 0,
    ensures
        join(ws.update(ws.len() - 1, ws.last().push(c)), sep) == join(ws, sep).push(c),
{
    let u = ws.update(ws.len() - 1, ws.last().push(c));
    if ws.len() == 1 {
        assert(u[0] == ws[0].push(c));
    } else {
        assert(u.drop_last() =~= ws.drop_last());
        assert(u.last() == ws.last().push(c));
        assert((join(ws.drop_last(), sep) + sep + ws.last()).push(c) =~= join(ws.drop_last(), sep)
            + sep + ws.last().push(c));
    }
}

/// Collapses whitespace runs to single spaces and trims both ends.
pub fn collapse_whitespace(s: &Vec<char>) -> (r: Vec<char>)
    ensures
        r@ == collapse_ws(s@),
{
    let n = s.len();
    let mut out: Vec<char> = Vec::new();
    let mut i: usize = 0;
    while i < n
        invariant
            n == s@.len(),
            i <= n,
            out@ == join(words(s@.subrange(0, i as int)), seq![' ']),
            out@.len() == 0 <==> words(s@.subrange(0, i as int)).len() == 0,
        decreases n - i,
    {
        let c = s[i];
        let t = Ghost(s@.subrange(0, i + 1));
        proof {
            assert(t@.drop_last() =~= s@.subrange(0, i as int));
            assert(t@.last() == c);
            lemma_words_shape(t@);
        }
        if is_ws_char(c) {
        } else if i == 0 || is_ws_char(s[i - 1]) {
            assert(word_starts_at(t@, t@.len() - 1));
            if out.len() > 0 {
                proof {
                    lemma_join_push(words(s@.subrange(0, i as int)), seq![c], seq![' ']);
                }
                out.push(' ');
                out.push(c);
                assert(out@ =~= join(words(s@.subrange(0, i as int)), seq![' ']) + seq![' ']
                    + seq![c]);
            } else {
                out.push(c);
                assert(words(t@) =~= seq![seq![c]]);
                assert(out@ =~= seq![c]);
            }
        } else {
            assert(!word_starts_at(t@, t@.len() - 1));
            proof {
                lemma_join_extend_last(words(s@.subrange(0, i as int)), c, seq![' ']);
            }
            out.push(c);
        }
        i = i + 1;
    }
    assert(s@.subrange(0, n as int) =~= s@);
    out
}

/// Whether `needle` occurs in `hay` at position `i`.
pub open spec fn occurs_at(hay: Seq<char>, needle: Seq<char>, i: int) -> bool {
    0 <= i && i + needle.len() <= hay.len() && hay.subrange(i, i + needle.len()) == needle
}

/// Whether `needle` occurs anywhere in `hay` (`str::contains`).
pub open spec fn contains_seq(hay: Seq<char>, needle: Seq<char>) -> bool {
    exists|i: int| occurs_at(hay, needle, i)
}

/// Whether `needle` occurs in `hay` at position `i` (executable).
pub fn matches_at(hay: &Vec<char>, needle: &Vec<char>, i: usize) -> (r: bool)
    ensures
        r == occurs_at(hay@, needle@, i as int),
{
    if needle.len() > hay.len() || i > hay.len() - needle.len() {
        return false;
    }
    let mut k: usize = 0;
    while k < needle.len()
        invariant
            i + needle@.len() <= hay@.len(),
            hay@.len() <= usize::MAX,
            k <= needle@.len(),
            forall|j: int| 0 <= j < k ==> hay@[i + j] == needle@[j],
        decreases needle@.len() - k,
    {
        if hay[i + k] != needle[k] {
            assert(hay@.subrange(i as int, i + needle@.len())[k as int] != needle@[k as int]);
            return false;
        }
        k = k + 1;
    }
    assert(hay@.subrange(i as int, i + needle@.len()) =~= needle@);
    true
}

/// First position at or after `from` where `needle` occurs (`str::find`).
pub fn find_from(hay: &Vec<char>, needle: &Vec<char>, from: usize) -> (r: Option<usize>)
    requires
        from <= hay@.len(),
    ensures
        match r {
            Some(i) => from <= i && occurs_at(hay@, needle@, i as int) && forall|j: int|
                from <= j < i ==> !occurs_at(hay@, needle@, j),
            None => forall|j: int| from <= j ==> !occurs_at(hay@, needle@, j),
        },
{
    let mut i: usize = from;
    loop
        invariant
            from <= i <= hay@.len(),
            forall|j: int| from <= j < i ==> !occurs_at(hay@, needle@, j),
        decreases hay@.len() - i,
    {
        if matches_at(hay, needle, i) {
            return Some(i);
        }
        if i == hay.len() {
            assert forall|j: int| from <= j implies !occurs_at(hay@, needle@, j) by {
                if j > i {
                    assert(!occurs_at(hay@, needle@, j));
                }
            }
            return None;
        }
        i = i + 1;
    }
}

/// Whether `needle` occurs anywhere in `hay`.
pub fn contains_chars(hay: &Vec<char>, needle: &Vec<char>) -> (r: bool)
    ensures
        r == contains_seq(hay@, needle@),
{
    match find_from(hay, needle, 0) {
        Some(_) => true,
        None => false,
    }
}

/// Whether `hay` begins with `prefix` (`str::starts_with`).
pub open spec fn starts_with_seq(hay: Seq<char>, prefix: Seq<char>) -> bool {
    occurs_at(hay, prefix, 0)
}

/// Whether `hay` ends with `suffix` (`str::ends_with`).
pub open spec fn ends_with_seq(hay: Seq<char>, suffix: Seq<char>) -> bool {
    suffix.len() <= hay.len() && occurs_at(hay, suffix, hay.len() - suffix.len())
}

/// Whether `hay` ends with `suffix`.
pub fn ends_with_chars(hay: &Vec<char>, suffix: &Vec<char>) -> (r: bool)
    ensures
        r == ends_with_seq(hay@, suffix@),
{
    if suffix.len() > hay.len() {
        return false;
    }
    matches_at(hay, suffix, hay.len() - suffix.len())
}

/// Whether `a` and `b` hold the same characters.
pub fn str_eq(a: &str, b: &str) -> (r: bool)
    ensures
        r == (a@ == b@),
{
    let x = to_chars(a);
    let y = to_chars(b);
    if x.len() != y.len() {
        return false;
    }
    let mut i: usize = 0;
    while i < x.len()
        invariant
            x@ == a@,
            y@ == b@,
            x@.len() == y@.len(),
            i <= x@.len(),
            forall|j: int| 0 <= j < i ==> x@[j] == y@[j],
        decreases x@.len() - i,
    {
        if x[i] != y[i] {
            return false;
        }
        i = i + 1;
    }
    assert(x@ =~= y@);
    true
}

} // verus!

verus! {

/// The ASCII digit for `d` (0..=9).
pub open spec fn digit_char(d: nat) -> char {
    if d == 0 {
        '0'
    } else if d == 1 {
        '1'
    } else if d == 2 {
        '2'
    } else if d == 3 {
        '3'
    } else if d == 4 {
        '4'
    } else if d == 5 {
        '5'
    } else if d == 6 {
        '6'
    } else if d == 7 {
        '7'
    } else if d == 8 {
        '8'
    } else {
        '9'
    }
}

/// Decimal notation of `n` (as `format!("{n}")` writes it).
pub open spec fn decimal(n: nat) -> Seq<char>
    decreases n,
{
    if n < 10 {
        seq![digit_char(n)]
    } else {
        decimal(n / 10).push(digit_char(n % 10))
    }
}

fn digit(d: u64) -> (c: char)
    requires
        d < 10,
    ensures
        c == digit_char(d as nat),
{
    if d == 0 {
        '0'
    } else if d == 1 {
        '1'
    } else if d == 2 {
        '2'
    } else if d == 3 {
        '3'
    } else if d == 4 {
        '4'
    } else if d == 5 {
        '5'
    } else if d == 6 {
        '6'
    } else if d == 7 {
        '7'
    } else if d == 8 {
        '8'
    } else {
        '9'
    }
}

/// Appends the decimal notation of `n` to `out`.
pub fn push_decimal(out: &mut String, n: u64)
    ensures
        final(out)@ == old(out)@ + decimal(n as nat),
    decreases n,
{
    if n >= 10 {
        push_decimal(out, n / 10);
    }
    let c = digit(n % 10);
    push_char(out, c);
    proof {
        if n < 10 {
            assert(n % 10 == n);
        }
    }
    assert(final(out)@ =~= old(out)@ + decimal(n as nat));
}

/// Decimal notation of `n`.
pub fn decimal_string(n: u64) -> (r: String)
    ensures
        r@ == decimal(n as nat),
{
    let mut s = String::new();
    push_decimal(&mut s, n);
    assert(s@ =~= decimal(n as nat));
    s
}

/// First position at or after `from` where `needle` occurs in `hay`.
pub open spec fn first_occ(hay: Seq<char>, needle: Seq<char>, from: int) -> Option<int>
    decreases hay.len() + 1 - from,
{
    if from < 0 || from > hay.len() {
        None
    } else if occurs_at(hay, needle, from) {
        Some(from)
    } else {
        first_occ(hay, needle, from + 1)
    }
}

pub proof fn lemma_first_occ(hay: Seq<char>, needle: Seq<char>, from: int)
    requires
        0 <= from,
    ensures
        match first_occ(hay, needle, from) {
            Some(i) => from <= i && occurs_at(hay, needle, i) && forall|j: int|
                from <= j < i ==> !occurs_at(hay, needle, j),
            None => forall|j: int| from <= j ==> !occurs_at(hay, needle, j),
        },
    decreases hay.len() + 1 - from,
{
    if from <= hay.len() && !occurs_at(hay, needle, from) {
        lemma_first_occ(hay, needle, from + 1);
    }
}

/// First position at or after `from` where `needle` occurs (see [`first_occ`]).
pub fn find_occ(hay: &Vec<char>, needle: &Vec<char>, from: usize) -> (r: Option<usize>)
    requires
        from <= hay@.len(),
    ensures
        match first_occ(hay@, needle@, from as int) {
            Some(i) => r is Some && r.unwrap() as int == i,
            None => r is None,
        },
{
    proof {
        lemma_first_occ(hay@, needle@, from as int);
    }
    let r = find_from(hay, needle, from);
    match r {
        Some(i) => {
            assert(first_occ(hay@, needle@, from as int) == Some(i as int)) by {
                lemma_first_occ(hay@, needle@, from as int);
                match first_occ(hay@, needle@, from as int) {
                    Some(k) => {
                        if k < i {
                        } else if k > i {
                        }
                    },
                    None => {},
                }
            }
        },
        None => {
            assert(first_occ(hay@, needle@, from as int) is None) by {
                lemma_first_occ(hay@, needle@, from as int);
                match first_occ(hay@, needle@, from as int) {
                    Some(k) => {},
                    None => {},
                }
            }
        },
    }
    r
}

/// The characters `v[lo..hi]`.
pub fn vec_slice(v: &Vec<char>, lo: usize, hi: usize) -> (r: Vec<char>)
    requires
        lo <= hi <= v@.len(),
    ensures
        r@ == v@.subrange(lo as int, hi as int),
{
    let mut out: Vec<char> = Vec::new();
    let mut i: usize = lo;
    while i < hi
        invariant
            lo <= i <= hi <= v@.len(),
            out@ == v@.subrange(lo as int, i as int),
        decreases hi - i,
    {
        out.push(v[i]);
        i = i + 1;
        assert(out@ =~= v@.subrange(lo as int, i as int));
    }
    out
}

} // verus!
