//! The `<defer>` tag the model appends to schedule a follow-up:
//! `<defer>{...json...}</defer>`, where the closing tag may be missing (the
//! JSON then ends at a newline or at the end of the reply).
//!
//! The tag is located exactly as the pattern
//! `(?s)<defer>\s*(\{.*?\})(?:\s*</defer>|$|\n)` matches with leftmost-first
//! semantics: the earliest `<defer>` that starts a match, then the shortest
//! JSON candidate `{ ... }` that is followed by whitespace and `</defer>`, by
//! the end of the text, or by a newline (tried in that order).

use vstd::prelude::*;

use crate::clock::{representable_ms, MS_PER_MINUTE};
use crate::monitor::DeferredMessage;
use crate::text::{first_occ, is_ws, is_ws_char, lead_ws_end, lemma_first_occ, occurs_at, to_chars, trail_ws_start};

verus! {

pub open spec fn open_tag() -> Seq<char> {
    seq!['<', 'd', 'e', 'f', 'e', 'r', '>']
}

pub open spec fn close_tag() -> Seq<char> {
    seq!['<', '/', 'd', 'e', 'f', 'e', 'r', '>']
}

/// First index at or after `q` that is not whitespace (or `s.len()`).
pub open spec fn ws_run_end(s: Seq<char>, q: int) -> int
    decreases s.len() - q,
{
    if q < s.len() && is_ws(s[q]) {
        ws_run_end(s, q + 1)
    } else {
        q
    }
}

/// Where a match ends when the JSON candidate ends just before `g`, if the
/// text at `g` completes the pattern.
pub open spec fn tail_end(s: Seq<char>, g: int) -> Option<int> {
    let e = ws_run_end(s, g);
    if occurs_at(s, close_tag(), e) {
        Some(e + close_tag().len())
    } else if g == s.len() {
        Some(g)
    } else if 0 <= g < s.len() && s[g] == '\n' {
        Some(g + 1)
    } else {
        None
    }
}

/// Smallest `j >= from` with `s[j] == '}'` after which the pattern completes.
pub open spec fn first_close(s: Seq<char>, from: int) -> Option<int>
    decreases s.len() - from,
{
    if from >= s.len() {
        None
    } else if s[from] == '}' && tail_end(s, from + 1) is Some {
        Some(from)
    } else {
        first_close(s, from + 1)
    }
}

/// The match starting at `p`, as (JSON start, JSON end, match end).
pub open spec fn match_at(s: Seq<char>, p: int) -> Option<(int, int, int)> {
    if occurs_at(s, open_tag(), p) {
        let r = ws_run_end(s, p + open_tag().len());
        if r < s.len() && s[r] == '{' {
            match first_close(s, r + 1) {
                Some(j) => Some((r, j + 1, tail_end(s, j + 1)->0)),
                None => None,
            }
        } else {
            None
        }
    } else {
        None
    }
}

/// The leftmost match starting at or after `from`, as (start, JSON start, JSON end, end).
pub open spec fn first_match(s: Seq<char>, from: int) -> Option<(int, int, int, int)>
    decreases s.len() + 1 - from,
{
    if from > s.len() || from < 0 {
        None
    } else {
        match match_at(s, from) {
            Some(t) => Some((from, t.0, t.1, t.2)),
            None => first_match(s, from + 1),
        }
    }
}

/// `str::trim_end`.
pub open spec fn trim_end(s: Seq<char>) -> Seq<char> {
    s.take(trail_ws_start(s))
}

/// `str::trim_start`.
pub open spec fn trim_start(s: Seq<char>) -> Seq<char> {
    s.skip(lead_ws_end(s))
}

/// The reply with the first well-formed tag removed (text before it trimmed at
/// its end, text after it trimmed at its start, glued together) and its JSON
/// payload; the reply unchanged and no payload when there is no such tag.
pub open spec fn tag_split(s: Seq<char>) -> (Seq<char>, Option<Seq<char>>) {
    match first_match(s, 0) {
        None => (s, None),
        Some(m) => (
            trim_end(s.take(m.0)) + trim_start(s.skip(m.3)),
            Some(s.subrange(m.1, m.2)),
        ),
    }
}

/// `s` with every complete `<defer>…</defer>` block cut out, leftmost first
/// and again after each cut (each block up to the first `</defer>` after its
/// opening; the text on both sides trimmed and glued as for the tag).
pub open spec fn strip_blocks(s: Seq<char>) -> Seq<char>
    decreases s.len()
    via strip_blocks_decreases
{
    match first_occ(s, open_tag(), 0) {
        None => s,
        Some(i) => match first_occ(s, close_tag(), i + 7) {
            None => s,
            Some(j) => strip_blocks(trim_end(s.take(i)) + trim_start(s.skip(j + 8))),
        },
    }
}

#[via_fn]
proof fn strip_blocks_decreases(s: Seq<char>) {
    lemma_first_occ(s, open_tag(), 0);
    if let Some(i) = first_occ(s, open_tag(), 0) {
        lemma_first_occ(s, close_tag(), i + 7);
        if let Some(j) = first_occ(s, close_tag(), i + 7) {
            crate::text::lemma_trail_ws_start(s.take(i));
            crate::text::lemma_lead_ws_end(s.skip(j + 8));
        }
    }
}

/// What is shown of a reply and the follow-up payload it carries: the first
/// well-formed tag is split off (see [`tag_split`]) and then every complete
/// `<defer>…</defer>` block left is cut out, so no tag is ever shown.
pub open spec fn extract_spec(s: Seq<char>) -> (Seq<char>, Option<Seq<char>>) {
    (strip_blocks(tag_split(s).0), tag_split(s).1)
}

/// Whether `s` holds a complete block: a `<defer>` with a `</defer>` after it.
pub open spec fn has_block(s: Seq<char>) -> bool {
    exists|i: int, j: int|
        #[trigger] occurs_at(s, open_tag(), i) && #[trigger] occurs_at(s, close_tag(), j) && i + 7 <= j
}

/// Result of looking for a `<defer>` tag in a model reply.
#[derive(Debug)]
pub struct DeferExtract {
    /// The reply without the tag.
    pub cleaned: String,
    /// The JSON text between the braces (inclusive), when a tag was found.
    pub payload: Option<String>,
}

proof fn lemma_ws_run_end(s: Seq<char>, q: int)
    requires
        0 <= q <= s.len(),
    ensures
        q <= ws_run_end(s, q) <= s.len(),
        ws_run_end(s, q) < s.len() ==> !is_ws(s[ws_run_end(s, q)]),
    decreases s.len() - q,
{
    if q < s.len() && is_ws(s[q]) {
        lemma_ws_run_end(s, q + 1);
    }
}

fn skip_ws(v: &Vec<char>, q: usize) -> (r: usize)
    requires
        q <= v@.len(),
    ensures
        r as int == ws_run_end(v@, q as int),
        q <= r <= v@.len(),
{
    let mut i = q;
    while i < v.len() && is_ws_char(v[i])
        invariant
            q <= i <= v@.len(),
            ws_run_end(v@, q as int) == ws_run_end(v@, i as int),
        decreases v@.len() - i,
    {
        i = i + 1;
    }
    i
}

fn open_tag_chars() -> (r: Vec<char>)
    ensures
        r@ == open_tag(),
{
    let r = to_chars("<defer>");
    proof {
        reveal_strlit("<defer>");
    }
    assert(r@ =~= open_tag());
    r
}

fn close_tag_chars() -> (r: Vec<char>)
    ensures
        r@ == close_tag(),
{
    let r = to_chars("</defer>");
    proof {
        reveal_strlit("</defer>");
    }
    assert(r@ =~= close_tag());
    r
}

fn tail_end_exec(v: &Vec<char>, close: &Vec<char>, g: usize) -> (r: Option<usize>)
    requires
        g <= v@.len(),
        close@ == close_tag(),
    ensures
        match r {
            Some(e) => tail_end(v@, g as int) == Some(e as int),
            None => tail_end(v@, g as int) is None,
        },
{
    let n = v.len();
    let e = skip_ws(v, g);
    assert(close@.len() == 8);
    if crate::text::matches_at(v, close, e) {
        return Some(e + 8);
    }
    if g == v.len() {
        return Some(g);
    }
    if v[g] == '\n' {
        return Some(g + 1);
    }
    None
}

fn match_at_exec(v: &Vec<char>, open: &Vec<char>, close: &Vec<char>, p: usize) -> (r: Option<
    (usize, usize, usize),
>)
    requires
        p <= v@.len(),
        open@ == open_tag(),
        close@ == close_tag(),
    ensures
        match r {
            Some(t) => match_at(v@, p as int) == Some((t.0 as int, t.1 as int, t.2 as int)),
            None => match_at(v@, p as int) is None,
        },
{
    let n = v.len();
    assert(open@.len() == 7);
    if !crate::text::matches_at(v, open, p) {
        return None;
    }
    let r = skip_ws(v, p + 7);
    if r >= v.len() || v[r] != '{' {
        return None;
    }
    let mut j: usize = r + 1;
    while j < v.len()
        invariant
            r < v@.len(),
            r + 1 <= j <= v@.len(),
            close@ == close_tag(),
            open@ == open_tag(),
            p <= v@.len(),
            occurs_at(v@, open_tag(), p as int),
            r as int == ws_run_end(v@, p + 7),
            v@[r as int] == '{',
            first_close(v@, (r + 1) as int) == first_close(v@, j as int),
        decreases v@.len() - j,
    {
        if v[j] == '}' {
            match tail_end_exec(v, close, j + 1) {
                Some(e) => {
                    assert(first_close(v@, j as int) == Some(j as int));
                    assert(open_tag().len() == 7);
                    assert(occurs_at(v@, open_tag(), p as int));
                    assert(ws_run_end(v@, p + open_tag().len()) == r);
                    assert(first_close(v@, r + 1) == Some(j as int));
                    assert(tail_end(v@, j + 1) == Some(e as int));
                    assert(match_at(v@, p as int) == Some((r as int, (j + 1) as int, e as int)));
                    return Some((r, j + 1, e));
                },
                None => {},
            }
        }
        j = j + 1;
    }
    None
}

fn split_tag(response: &str) -> (r: DeferExtract)
    ensures
        r.cleaned@ == tag_split(response@).0,
        match r.payload {
            Some(p) => tag_split(response@).1 == Some(p@),
            None => tag_split(response@).1 is None,
        },
{
    let v = to_chars(response);
    let open = open_tag_chars();
    let close = close_tag_chars();
    let mut p: usize = 0;
    loop
        invariant
            v@ == response@,
            open@ == open_tag(),
            close@ == close_tag(),
            p <= v@.len(),
            first_match(v@, 0) == first_match(v@, p as int),
        decreases v@.len() - p,
    {
        match match_at_exec(&v, &open, &close, p) {
            Some(t) => {
                let (r, g, e) = t;
                proof {
                    lemma_match_bounds(v@, p as int);
                }
                let before = trim_end_range(&v, p);
                let after = trim_start_from(&v, e);
                let mut cleaned = before;
                let mut k: usize = 0;
                let ghost b = cleaned@;
                while k < after.len()
                    invariant
                        k <= after@.len(),
                        cleaned@ == b + after@.take(k as int),
                    decreases after@.len() - k,
                {
                    cleaned.push(after[k]);
                    k = k + 1;
                    assert(cleaned@ =~= b + after@.take(k as int));
                }
                assert(after@.take(after@.len() as int) =~= after@);
                let payload = crate::text::from_chars_range(&v, r, g);
                return DeferExtract {
                    cleaned: crate::text::from_chars(&cleaned),
                    payload: Some(payload),
                };
            },
            None => {},
        }
        if p == v.len() {
            assert(first_match(v@, 0) is None) by {
                assert(first_match(v@, (v@.len() + 1) as int) is None);
            }
            return DeferExtract { cleaned: crate::text::owned(response), payload: None };
        }
        p = p + 1;
    }
}

fn strip_blocks_exec(v: Vec<char>) -> (r: Vec<char>)
    ensures
        r@ == strip_blocks(v@),
{
    let open = open_tag_chars();
    let close = close_tag_chars();
    let mut cur = v;
    loop
        invariant
            open@ == open_tag(),
            close@ == close_tag(),
            strip_blocks(cur@) == strip_blocks(v@),
        decreases cur@.len(),
    {
        proof {
            lemma_first_occ(cur@, open_tag(), 0);
        }
        match crate::text::find_occ(&cur, &open, 0) {
            None => {
                return cur;
            },
            Some(i) => {
                assert(occurs_at(cur@, open_tag(), i as int));
                let n = cur.len();
                assert(i + 7 <= n);
                proof {
                    lemma_first_occ(cur@, close_tag(), i + 7);
                }
                match crate::text::find_occ(&cur, &close, i + 7) {
                    None => {
                        return cur;
                    },
                    Some(j) => {
                        assert(occurs_at(cur@, close_tag(), j as int));
                        assert(j + 8 <= n);
                        let before = trim_end_range(&cur, i);
                        let after = trim_start_from(&cur, j + 8);
                        proof {
                            crate::text::lemma_trail_ws_start(cur@.take(i as int));
                            crate::text::lemma_lead_ws_end(cur@.skip(j + 8));
                        }
                        let mut next = before;
                        let mut k: usize = 0;
                        let ghost b = next@;
                        while k < after.len()
                            invariant
                                k <= after@.len(),
                                next@ == b + after@.take(k as int),
                            decreases after@.len() - k,
                        {
                            next.push(after[k]);
                            k = k + 1;
                            assert(next@ =~= b + after@.take(k as int));
                        }
                        assert(after@.take(after@.len() as int) =~= after@);
                        cur = next;
                    },
                }
            },
        }
    }
}

/// Finds the `<defer>` tag in `response` and separates it from the text:
/// the first well-formed tag gives the payload, and no complete block is
/// left in the text shown.
pub fn extract_defer(response: &str) -> (r: DeferExtract)
    ensures
        r.cleaned@ == extract_spec(response@).0,
        match r.payload {
            Some(p) => extract_spec(response@).1 == Some(p@),
            None => extract_spec(response@).1 is None,
        },
{
    let split = split_tag(response);
    let cleaned = strip_blocks_exec(to_chars(split.cleaned.as_str()));
    DeferExtract { cleaned: crate::text::from_chars(&cleaned), payload: split.payload }
}

proof fn lemma_first_close(s: Seq<char>, from: int)
    requires
        0 <= from,
    ensures
        first_close(s, from) matches Some(j) ==> from <= j < s.len() && s[j] == '}' && tail_end(
            s,
            j + 1,
        ) is Some,
    decreases s.len() - from,
{
    if from < s.len() && !(s[from] == '}' && tail_end(s, from + 1) is Some) {
        lemma_first_close(s, from + 1);
    }
}

proof fn lemma_tail_end(s: Seq<char>, g: int)
    requires
        0 <= g <= s.len(),
    ensures
        tail_end(s, g) matches Some(e) ==> g <= e <= s.len(),
{
    lemma_ws_run_end(s, g);
}

proof fn lemma_match_bounds(s: Seq<char>, p: int)
    requires
        0 <= p <= s.len(),
    ensures
        match_at(s, p) matches Some(t) ==> p <= t.0 < t.1 <= t.2 <= s.len(),
{
    if occurs_at(s, open_tag(), p) {
        let r = ws_run_end(s, p + 7);
        lemma_ws_run_end(s, p + 7);
        if r < s.len() && s[r] == '{' {
            lemma_first_close(s, r + 1);
            if let Some(j) = first_close(s, r + 1) {
                lemma_tail_end(s, j + 1);
            }
        }
    }
}

/// `v[..end]` trimmed at its end.
fn trim_end_range(v: &Vec<char>, end: usize) -> (r: Vec<char>)
    requires
        end <= v@.len(),
    ensures
        r@ == trim_end(v@.take(end as int)),
{
    let ghost s = v@.take(end as int);
    proof {
        crate::text::lemma_trail_ws_start(s);
    }
    let mut hi: usize = end;
    while hi > 0 && is_ws_char(v[hi - 1])
        invariant
            hi <= end <= v@.len(),
            s == v@.take(end as int),
            trail_ws_start(s) <= hi,
            forall|i: int| trail_ws_start(s) <= i < s.len() ==> is_ws(#[trigger] s[i]),
            trail_ws_start(s) > 0 ==> !is_ws(s[trail_ws_start(s) - 1]),
        decreases hi,
    {
        assert(s[hi - 1] == v@[hi - 1]);
        hi = hi - 1;
    }
    assert(hi == trail_ws_start(s)) by {
        if hi > trail_ws_start(s) {
            assert(s[hi - 1] == v@[hi - 1]);
            assert(is_ws(s[hi - 1]));
        }
    }
    let mut out: Vec<char> = Vec::new();
    let mut i: usize = 0;
    while i < hi
        invariant
            i <= hi <= v@.len(),
            out@ == v@.take(i as int),
        decreases hi - i,
    {
        out.push(v[i]);
        i = i + 1;
        assert(out@ =~= v@.take(i as int));
    }
    assert(s.take(hi as int) =~= v@.take(hi as int));
    out
}

/// `v[start..]` trimmed at its start.
fn trim_start_from(v: &Vec<char>, start: usize) -> (r: Vec<char>)
    requires
        start <= v@.len(),
    ensures
        r@ == trim_start(v@.skip(start as int)),
{
    let ghost s = v@.skip(start as int);
    proof {
        crate::text::lemma_lead_ws_end(s);
    }
    let mut lo: usize = start;
    while lo < v.len() && is_ws_char(v[lo])
        invariant
            start <= lo <= v@.len(),
            s == v@.skip(start as int),
            lo - start <= lead_ws_end(s),
            forall|i: int| 0 <= i < lead_ws_end(s) ==> is_ws(#[trigger] s[i]),
            lead_ws_end(s) < s.len() ==> !is_ws(s[lead_ws_end(s)]),
        decreases v@.len() - lo,
    {
        assert(v@[lo as int] == s[lo - start]);
        lo = lo + 1;
    }
    assert(lo - start == lead_ws_end(s)) by {
        if lo - start < lead_ws_end(s) {
            assert(s[lo - start] == v@[lo as int]);
        }
    }
    let mut out: Vec<char> = Vec::new();
    let mut i: usize = lo;
    while i < v.len()
        invariant
            lo <= i <= v@.len(),
            out@ == v@.subrange(lo as int, i as int),
        decreases v@.len() - i,
    {
        out.push(v[i]);
        i = i + 1;
        assert(out@ =~= v@.subrange(lo as int, i as int));
    }
    assert(s.skip(lo - start) =~= v@.subrange(lo as int, v@.len() as int));
    out
}

/// The fields of a well-formed tag payload
/// (`{"message": ..., "after_minutes": ..., "trigger": ...}`).
#[derive(Debug)]
pub struct DeferFields {
    pub message: String,
    pub after_minutes: i64,
    pub trigger: String,
}

/// Fire time for a follow-up `after_minutes` after `now` (milliseconds).
pub open spec fn fire_time(now: i64, after_minutes: i64) -> int {
    now + after_minutes * MS_PER_MINUTE
}

/// The follow-up scheduled by `fields`, fired `after_minutes` after `now`.
pub fn deferred_at(fields: DeferFields, id: String, now: i64) -> (r: DeferredMessage)
    requires
        representable_ms(now as int),
        representable_ms(fire_time(now, fields.after_minutes)),
    ensures
        r.id@ == id@,
        r.message@ == fields.message@,
        r.trigger@ == fields.trigger@,
        r.fire_at as int == fire_time(now, fields.after_minutes),
{
    assert(-300000000000i64 <= fields.after_minutes <= 300000000000i64) by {
        assert(crate::clock::DATETIME_MIN_MS <= now <= crate::clock::DATETIME_MAX_MS);
    }
    let fire_at = now + fields.after_minutes * MS_PER_MINUTE;
    DeferredMessage { id, message: fields.message, trigger: fields.trigger, fire_at }
}

/// The follow-up scheduled by a parsed payload, stamped with a fresh id and
/// fired `after_minutes` from now. `None` when there is no payload (it was
/// missing or malformed), and when the fire time lies outside the range of
/// representable instants.
pub fn build_deferred(fields: Option<DeferFields>) -> (r: Option<DeferredMessage>)
    ensures
        match fields {
            None => r is None,
            Some(f) => exists|now: i64|
                {
                    &&& representable_ms(now as int)
                    &&& (r is Some <==> representable_ms(fire_time(now, f.after_minutes)))
                    &&& (r matches Some(d) ==> d.message@ == f.message@ && d.trigger@
                        == f.trigger@ && d.fire_at as int == fire_time(now, f.after_minutes)
                        && crate::clock::uuid_v4_text(d.id@))
                },
        },
{
    match fields {
        None => None,
        Some(f) => {
            let now = crate::clock::now_millis();
            let m = f.after_minutes;
            if m < -300000000000i64 || m > 300000000000i64 {
                assert(!representable_ms(fire_time(now, m))) by (nonlinear_arith)
                    requires
                        m < -300000000000i64 || m > 300000000000i64,
                        representable_ms(now as int),
                ;
                return None;
            }
            assert(-18000000000000000 <= (m as int) * 60000 <= 18000000000000000) by (nonlinear_arith)
                requires
                    -300000000000 <= m <= 300000000000,
            ;
            let fire = now as i128 + (m as i128) * (MS_PER_MINUTE as i128);
            if fire < crate::clock::DATETIME_MIN_MS as i128 || fire
                > crate::clock::DATETIME_MAX_MS as i128 {
                return None;
            }
            let id = crate::clock::new_id();
            Some(deferred_at(f, id, now))
        },
    }
}

/// How much a user turn is worth remembering, judged by its length.
#[derive(Debug, Clone, Copy, PartialEq, Eq)]
pub enum ImportanceLevel {
    /// Fewer than 5 words.
    Low,
    /// 5 to 50 words.
    Medium,
    /// More than 50 words.
    High,
}

/// Importance of a turn: very short turns are low-signal, long ones high.
pub fn importance_heuristic(text: &str) -> (r: ImportanceLevel)
    ensures
        r == (if crate::text::word_count(text@) < 5 {
            ImportanceLevel::Low
        } else if crate::text::word_count(text@) > 50 {
            ImportanceLevel::High
        } else {
            ImportanceLevel::Medium
        }),
{
    let words = crate::text::count_words(text);
    if words < 5 {
        ImportanceLevel::Low
    } else if words > 50 {
        ImportanceLevel::High
    } else {
        ImportanceLevel::Medium
    }
}

proof fn lemma_first_match(s: Seq<char>, from: int)
    requires
        0 <= from,
    ensures
        first_match(s, from) matches Some(m) ==> from <= m.0 <= s.len() && match_at(s, m.0)
            == Some((m.1, m.2, m.3)),
        (forall|p: int| from <= p <= s.len() ==> !occurs_at(s, open_tag(), p)) ==> first_match(
            s,
            from,
        ) is None,
    decreases s.len() + 1 - from,
{
    if from <= s.len() {
        lemma_first_match(s, from + 1);
    }
}

proof fn lemma_strip_blocks(s: Seq<char>)
    ensures
        strip_blocks(s).len() <= s.len(),
        !crate::text::contains_seq(s, open_tag()) ==> strip_blocks(s) == s,
        !has_block(strip_blocks(s)),
    decreases s.len(),
{
    lemma_first_occ(s, open_tag(), 0);
    match first_occ(s, open_tag(), 0) {
        None => {
            assert(!has_block(s)) by {
                if has_block(s) {
                    let (i, j) = choose|i: int, j: int|
                        #[trigger] occurs_at(s, open_tag(), i) && #[trigger] occurs_at(s, close_tag(), j) && i + 7 <= j;
                }
            }
        },
        Some(i) => {
            assert(crate::text::contains_seq(s, open_tag()));
            lemma_first_occ(s, close_tag(), i + 7);
            match first_occ(s, close_tag(), i + 7) {
                None => {
                    assert(!has_block(s)) by {
                        if has_block(s) {
                            let (a, b) = choose|a: int, b: int|
                                #[trigger] occurs_at(s, open_tag(), a) && #[trigger] occurs_at(s, close_tag(), b) && a + 7 <= b;
                            assert(a >= i);
                            assert(b >= i + 7);
                        }
                    }
                },
                Some(j) => {
                    let t = trim_end(s.take(i)) + trim_start(s.skip(j + 8));
                    crate::text::lemma_trail_ws_start(s.take(i));
                    crate::text::lemma_lead_ws_end(s.skip(j + 8));
                    lemma_strip_blocks(t);
                },
            }
        },
    }
}

/// The tag never shows: the text shown holds no complete `<defer>…</defer>`
/// block; a reply without `<defer>` is shown unchanged with no follow-up; and
/// when a follow-up is found its payload is a braced JSON text and the shown
/// reply is shorter than the received one by at least the tag opener and the
/// payload.
pub proof fn law_defer_tag_removed(s: Seq<char>)
    ensures
        !crate::text::contains_seq(s, open_tag()) ==> extract_spec(s) == (s, None::<Seq<char>>),
        extract_spec(s).1 matches Some(p) ==> p.len() >= 2 && p[0] == '{' && p.last() == '}'
            && extract_spec(s).0.len() + open_tag().len() + p.len() <= s.len(),
        !has_block(extract_spec(s).0),
{
    lemma_first_match(s, 0);
    lemma_strip_blocks(tag_split(s).0);
    if !crate::text::contains_seq(s, open_tag()) {
        assert forall|p: int| 0 <= p <= s.len() implies !occurs_at(s, open_tag(), p) by {
            if occurs_at(s, open_tag(), p) {
                assert(crate::text::contains_seq(s, open_tag()));
            }
        }
    }
    if let Some(m) = first_match(s, 0) {
        let (start, a, b, end) = m;
        lemma_match_bounds(s, start);
        lemma_ws_run_end(s, start + 7);
        lemma_first_close(s, a + 1);
        let j = first_close(s, a + 1)->0;
        assert(b == j + 1);
        let pl = s.subrange(a, b);
        assert(pl[0] == s[a]);
        assert(pl.last() == s[j]);
        crate::text::lemma_trail_ws_start(s.take(start));
        crate::text::lemma_lead_ws_end(s.skip(end));
    }
}

} // verus!
