//! Context assembly for one model call: persona, retrieved memory blocks,
//! the recent-turns window and the user input, with token estimates and the
//! fitting of all of it into the context window.

use vstd::prelude::*;

use crate::text::{count_words, join, to_chars, word_count};

verus! {

/// Estimated tokens for `s`: about 4/3 token per whitespace-separated word,
/// rounded up (`(words * 4).div_ceil(3)`).
pub open spec fn tokens(s: Seq<char>) -> int {
    ((4 * word_count(s) + 2) / 3) as int
}

/// Upper bound of any single token estimate.
pub open spec fn token_cap() -> int {
    (2 * (usize::MAX as int) + 4) / 3
}

/// Rough token estimate for `text` (see [`tokens`]).
pub fn estimate_tokens(text: &str) -> (r: usize)
    ensures
        r as int == tokens(text@),
        r as int <= token_cap(),
{
    let w = count_words(text);
    w + (w + 2) / 3
}

/// A labelled block of the assembled context with its token estimate.
#[derive(Debug)]
pub struct ContextBlock {
    pub label: String,
    pub content: String,
    pub token_count: usize,
}

impl ContextBlock {
    /// Block `label` holding `content`; the token count is estimated from the content.
    pub fn new(label: &str, content: String) -> (r: Self)
        ensures
            r.label@ == label@,
            r.content@ == content@,
            r.token_count as int == tokens(content@),
    {
        let token_count = estimate_tokens(content.as_str());
        ContextBlock { label: crate::text::owned(label), content, token_count }
    }

    /// A field-for-field copy.
    pub fn duplicate(&self) -> (r: Self)
        ensures
            r == *self,
    {
        ContextBlock {
            label: self.label.clone(),
            content: self.content.clone(),
            token_count: self.token_count,
        }
    }
}

/// One conversation turn of the recent-turns window.
#[derive(Debug, Clone)]
pub struct Turn {
    pub role: String,
    pub content: String,
}

impl Turn {
    /// A field-for-field copy.
    pub fn duplicate(&self) -> (r: Self)
        ensures
            r == *self,
    {
        Turn { role: self.role.clone(), content: self.content.clone() }
    }
}

/// A chat message in the OpenAI wire layout.
#[derive(Debug)]
pub struct Message {
    pub role: String,
    pub content: String,
}

/// Everything sent to the model for one call. The persona block comes first
/// and is never derived from memory. `assembled_at` is in Unix milliseconds.
#[derive(Debug)]
pub struct AssembledContext {
    pub persona: ContextBlock,
    pub semantic: ContextBlock,
    pub episodic: ContextBlock,
    pub recent_turns: Vec<Turn>,
    pub user_input: String,
    pub assembled_at: i64,
}

/// Views of a vector of strings.
pub open spec fn views(v: Seq<String>) -> Seq<Seq<char>> {
    v.map_values(|s: String| s@)
}

/// Separator between semantic facts.
pub open spec fn semantic_sep() -> Seq<char> {
    seq!['\n']
}

/// Separator between episodic memories.
pub open spec fn episodic_sep() -> Seq<char> {
    seq!['\n', '-', '-', '-', '\n']
}

/// Sum of the token estimates of the turns' contents.
pub open spec fn turns_tokens(turns: Seq<Turn>) -> int
    decreases turns.len(),
{
    if turns.len() == 0 {
        0
    } else {
        turns_tokens(turns.drop_last()) + tokens(turns.last().content@)
    }
}

/// Token estimate of a context built from these pieces.
pub open spec fn context_tokens(
    persona: Seq<char>,
    semantic: Seq<Seq<char>>,
    episodic: Seq<Seq<char>>,
    recent: Seq<Turn>,
    input: Seq<char>,
) -> int {
    tokens(persona) + tokens(join(semantic, semantic_sep())) + tokens(
        join(episodic, episodic_sep()),
    ) + turns_tokens(recent) + tokens(input)
}

/// Joins `items` with `sep`.
pub fn join_strings(items: &Vec<String>, sep: &Vec<char>) -> (r: String)
    ensures
        r@ == join(views(items@), sep@),
{
    let mut out: Vec<char> = Vec::new();
    let mut i: usize = 0;
    while i < items.len()
        invariant
            i <= items@.len(),
            out@ == join(views(items@.take(i as int)), sep@),
        decreases items@.len() - i,
    {
        let piece = to_chars(items[i].as_str());
        proof {
            let a = views(items@.take(i as int));
            let b = views(items@.take(i + 1));
            assert(b =~= a.push(items@[i as int]@));
            if i > 0 {
                crate::text::lemma_join_push(a, items@[i as int]@, sep@);
            } else {
                assert(b.len() == 1);
            }
        }
        if i > 0 {
            let mut k: usize = 0;
            let ghost before = out@;
            while k < sep.len()
                invariant
                    k <= sep@.len(),
                    out@ == before + sep@.take(k as int),
                decreases sep@.len() - k,
            {
                out.push(sep[k]);
                k = k + 1;
                assert(out@ =~= before + sep@.take(k as int));
            }
            assert(sep@.take(sep@.len() as int) =~= sep@);
        }
        let mut k: usize = 0;
        let ghost before = out@;
        while k < piece.len()
            invariant
                k <= piece@.len(),
                out@ == before + piece@.take(k as int),
            decreases piece@.len() - k,
        {
            out.push(piece[k]);
            k = k + 1;
            assert(out@ =~= before + piece@.take(k as int));
        }
        assert(piece@.take(piece@.len() as int) =~= piece@);
        i = i + 1;
        proof {
            let b = views(items@.take(i as int));
            if i == 1 {
                assert(out@ =~= b[0]);
            }
        }
    }
    assert(items@.take(items@.len() as int) =~= items@);
    crate::text::from_chars(&out)
}

fn semantic_sep_chars() -> (r: Vec<char>)
    ensures
        r@ == semantic_sep(),
{
    let mut v: Vec<char> = Vec::new();
    v.push('\n');
    assert(v@ =~= semantic_sep());
    v
}

fn episodic_sep_chars() -> (r: Vec<char>)
    ensures
        r@ == episodic_sep(),
{
    let mut v: Vec<char> = Vec::new();
    v.push('\n');
    v.push('-');
    v.push('-');
    v.push('-');
    v.push('\n');
    assert(v@ =~= episodic_sep());
    v
}

/// Copies of all turns.
pub fn copy_turns(turns: &Vec<Turn>) -> (r: Vec<Turn>)
    ensures
        r@ == turns@,
{
    let mut out: Vec<Turn> = Vec::new();
    let mut i: usize = 0;
    while i < turns.len()
        invariant
            i <= turns@.len(),
            out@ == turns@.take(i as int),
        decreases turns@.len() - i,
    {
        out.push(turns[i].duplicate());
        i = i + 1;
        assert(out@ =~= turns@.take(i as int));
    }
    assert(turns@.take(turns@.len() as int) =~= turns@);
    out
}

/// Sum of token estimates of the turns, without overflow.
fn turns_tokens_wide(turns: &Vec<Turn>) -> (r: u128)
    ensures
        r as int == turns_tokens(turns@),
        r <= turns@.len() * token_cap(),
{
    let mut total: u128 = 0;
    let mut i: usize = 0;
    while i < turns.len()
        invariant
            i <= turns@.len(),
            total as int == turns_tokens(turns@.take(i as int)),
            total <= i * token_cap(),
        decreases turns@.len() - i,
    {
        let t = estimate_tokens(turns[i].content.as_str());
        proof {
            assert(turns@.take(i + 1).drop_last() =~= turns@.take(i as int));
            let c = token_cap();
            assert(i * c + c == (i + 1) * c) by (nonlinear_arith);
            let m = usize::MAX as int;
            assert((i + 1) * c <= (m + 4) * c) by (nonlinear_arith)
                requires
                    i + 1 <= m,
                    c >= 0,
            ;
            assert((m + 4) * ((2 * m + 4) / 3) <= u128::MAX) by (nonlinear_arith)
                requires
                    0 <= m <= 0xffff_ffff_ffff_ffffint,
            ;
        }
        total = total + t as u128;
        i = i + 1;
    }
    assert(turns@.take(turns@.len() as int) =~= turns@);
    total
}

impl AssembledContext {
    /// Context built from pre-retrieved memory: semantic facts joined by newlines,
    /// episodic memories joined by `\n---\n`, stamped `assembled_at`.
    pub fn assemble_at(
        persona: &str,
        semantic_facts: &Vec<String>,
        episodic_memories: &Vec<String>,
        recent_turns: Vec<Turn>,
        user_input: String,
        assembled_at: i64,
    ) -> (r: Self)
        ensures
            r.persona.label@ == "persona"@,
            r.persona.content@ == persona@,
            r.semantic.label@ == "semantic"@,
            r.semantic.content@ == join(views(semantic_facts@), semantic_sep()),
            r.episodic.label@ == "episodic"@,
            r.episodic.content@ == join(views(episodic_memories@), episodic_sep()),
            r.persona.token_count as int == tokens(r.persona.content@),
            r.semantic.token_count as int == tokens(r.semantic.content@),
            r.episodic.token_count as int == tokens(r.episodic.content@),
            r.recent_turns@ == recent_turns@,
            r.user_input@ == user_input@,
            r.assembled_at == assembled_at,
    {
        let semantic_content = join_strings(semantic_facts, &semantic_sep_chars());
        let episodic_content = join_strings(episodic_memories, &episodic_sep_chars());
        AssembledContext {
            persona: ContextBlock::new("persona", crate::text::owned(persona)),
            semantic: ContextBlock::new("semantic", semantic_content),
            episodic: ContextBlock::new("episodic", episodic_content),
            recent_turns,
            user_input,
            assembled_at,
        }
    }

    /// Same as [`Self::assemble_at`], stamped with the current time.
    pub fn assemble(
        persona: &str,
        semantic_facts: &Vec<String>,
        episodic_memories: &Vec<String>,
        recent_turns: Vec<Turn>,
        user_input: String,
    ) -> (r: Self)
        ensures
            r.persona.content@ == persona@,
            r.semantic.content@ == join(views(semantic_facts@), semantic_sep()),
            r.episodic.content@ == join(views(episodic_memories@), episodic_sep()),
            r.persona.token_count as int == tokens(r.persona.content@),
            r.semantic.token_count as int == tokens(r.semantic.content@),
            r.episodic.token_count as int == tokens(r.episodic.content@),
            r.recent_turns@ == recent_turns@,
            r.user_input@ == user_input@,
    {
        let now = crate::clock::now_millis();
        Self::assemble_at(
            persona,
            semantic_facts,
            episodic_memories,
            recent_turns,
            user_input,
            now,
        )
    }

    /// Sum of all token estimates: the three blocks, every recent turn and the input.
    pub open spec fn total_spec(&self) -> int {
        self.persona.token_count + self.semantic.token_count + self.episodic.token_count
            + turns_tokens(self.recent_turns@) + tokens(self.user_input@)
    }

    /// Total token estimate, computed without overflow.
    pub fn total_tokens_wide(&self) -> (r: u128)
        ensures
            r as int == self.total_spec(),
    {
        let n = self.recent_turns.len();
        let t = turns_tokens_wide(&self.recent_turns);
        let u = estimate_tokens(self.user_input.as_str());
        proof {
            let m = usize::MAX as int;
            let c = token_cap();
            assert((n as int) * c + c <= (m + 1) * c) by (nonlinear_arith)
                requires
                    n <= m,
                    c >= 0,
            ;
            assert(3 * m + (m + 1) * ((2 * m + 4) / 3) <= u128::MAX) by (nonlinear_arith)
                requires
                    0 <= m <= 0xffff_ffff_ffff_ffffint,
            ;
        }
        self.persona.token_count as u128 + self.semantic.token_count as u128
            + self.episodic.token_count as u128 + t + u as u128
    }

    /// Total token estimate (see [`Self::total_spec`]); the total must fit in `usize`.
    pub fn total_tokens(&self) -> (r: usize)
        requires
            self.total_spec() <= usize::MAX,
        ensures
            r as int == self.total_spec(),
    {
        self.total_tokens_wide() as usize
    }
}

} // verus!

verus! {

/// Whether a context built from these pieces fits in `limit` tokens.
pub open spec fn fits(
    persona: Seq<char>,
    semantic: Seq<Seq<char>>,
    episodic: Seq<Seq<char>>,
    recent: Seq<Turn>,
    input: Seq<char>,
    limit: int,
) -> bool {
    context_tokens(persona, semantic, episodic, recent, input) <= limit
}

/// How many of the oldest episodic memories are dropped: the first `k` (from
/// `from` on) after which none are left or the context fits.
pub open spec fn episodic_drop(
    persona: Seq<char>,
    semantic: Seq<Seq<char>>,
    episodic: Seq<Seq<char>>,
    recent: Seq<Turn>,
    input: Seq<char>,
    limit: int,
    from: int,
) -> int
    decreases episodic.len() - from,
{
    if from >= episodic.len() || fits(
        persona,
        semantic,
        episodic.skip(from),
        recent,
        input,
        limit,
    ) {
        from
    } else {
        episodic_drop(persona, semantic, episodic, recent, input, limit, from + 1)
    }
}

/// How many of the oldest recent turns are dropped once episodic memory is
/// trimmed: the first `k` (from `from` on) after which at most one turn is left
/// or the context fits.
pub open spec fn recent_drop(
    persona: Seq<char>,
    semantic: Seq<Seq<char>>,
    episodic: Seq<Seq<char>>,
    recent: Seq<Turn>,
    input: Seq<char>,
    limit: int,
    from: int,
) -> int
    decreases recent.len() - from,
{
    if recent.len() - from <= 1 || fits(
        persona,
        semantic,
        episodic,
        recent.skip(from),
        input,
        limit,
    ) {
        from
    } else {
        recent_drop(persona, semantic, episodic, recent, input, limit, from + 1)
    }
}

pub proof fn lemma_episodic_drop_bounds(
    persona: Seq<char>,
    semantic: Seq<Seq<char>>,
    episodic: Seq<Seq<char>>,
    recent: Seq<Turn>,
    input: Seq<char>,
    limit: int,
    from: int,
)
    requires
        0 <= from <= episodic.len(),
    ensures
        from <= episodic_drop(persona, semantic, episodic, recent, input, limit, from)
            <= episodic.len(),
    decreases episodic.len() - from,
{
    if from < episodic.len() && !fits(persona, semantic, episodic.skip(from), recent, input, limit) {
        lemma_episodic_drop_bounds(persona, semantic, episodic, recent, input, limit, from + 1);
    }
}

pub proof fn lemma_recent_drop_bounds(
    persona: Seq<char>,
    semantic: Seq<Seq<char>>,
    episodic: Seq<Seq<char>>,
    recent: Seq<Turn>,
    input: Seq<char>,
    limit: int,
    from: int,
)
    requires
        0 <= from,
        from < recent.len() || from == 0,
    ensures
        from <= recent_drop(persona, semantic, episodic, recent, input, limit, from),
        recent.len() > 0 ==> recent_drop(persona, semantic, episodic, recent, input, limit, from)
            < recent.len(),
        recent.len() == 0 ==> recent_drop(persona, semantic, episodic, recent, input, limit, from)
            == from,
    decreases recent.len() - from,
{
    if recent.len() - from > 1 && !fits(persona, semantic, episodic, recent.skip(from), input, limit) {
        lemma_recent_drop_bounds(persona, semantic, episodic, recent, input, limit, from + 1);
    }
}

/// Token estimate of a probe context built from the pieces, without overflow.
fn probe_tokens(
    persona: &str,
    semantic_facts: &Vec<String>,
    episodic: &Vec<String>,
    recent: &Vec<Turn>,
    user_input: &str,
) -> (r: u128)
    ensures
        r as int == context_tokens(
            persona@,
            views(semantic_facts@),
            views(episodic@),
            recent@,
            user_input@,
        ),
{
    let probe = AssembledContext::assemble_at(
        persona,
        semantic_facts,
        episodic,
        copy_turns(recent),
        crate::text::owned(user_input),
        0,
    );
    probe.total_tokens_wide()
}

/// Fits the context into `limit` tokens: drops episodic memories from the
/// front of `episodic` (which the caller orders oldest first, see
/// [`fit_context_by_age`]) until the context fits or none are left, then the
/// oldest recent turns until it fits or one turn is left. Persona, semantic
/// facts and input are never cut.
pub fn fit_context(
    persona: &str,
    semantic_facts: &Vec<String>,
    episodic: Vec<String>,
    recent: Vec<Turn>,
    user_input: &str,
    limit: usize,
) -> (r: (Vec<String>, Vec<Turn>))
    ensures
        ({
            let k1 = episodic_drop(
                persona@,
                views(semantic_facts@),
                views(episodic@),
                recent@,
                user_input@,
                limit as int,
                0,
            );
            let k2 = recent_drop(
                persona@,
                views(semantic_facts@),
                views(episodic@).skip(k1),
                recent@,
                user_input@,
                limit as int,
                0,
            );
            r.0@ == episodic@.skip(k1) && r.1@ == recent@.skip(k2)
        }),
{
    let ghost ep0 = episodic@;
    let ghost rc0 = recent@;
    let ghost sem = views(semantic_facts@);
    let mut episodic = episodic;
    let mut recent = recent;
    let ghost mut k: int = 0;
    proof {
        assert(ep0.skip(0) =~= ep0);
    }
    while episodic.len() > 0
        invariant
            0 <= k <= ep0.len(),
            episodic@ == ep0.skip(k),
            recent@ == rc0,
            sem == views(semantic_facts@),
            episodic_drop(persona@, sem, views(ep0), rc0, user_input@, limit as int, 0)
                == episodic_drop(persona@, sem, views(ep0), rc0, user_input@, limit as int, k),
        ensures
            0 <= k <= ep0.len(),
            episodic@ == ep0.skip(k),
            recent@ == rc0,
            k == episodic_drop(persona@, sem, views(ep0), rc0, user_input@, limit as int, 0),
        decreases episodic@.len(),
    {
        let t = probe_tokens(persona, semantic_facts, &episodic, &recent, user_input);
        assert(views(episodic@) =~= views(ep0).skip(k));
        if t <= limit as u128 {
            break;
        }
        assert(!fits(persona@, sem, views(ep0).skip(k), rc0, user_input@, limit as int));
        episodic.remove(0);
        proof {
            k = k + 1;
            assert(episodic@ =~= ep0.skip(k));
        }
    }
    proof {
        assert(views(episodic@) =~= views(ep0).skip(k));
    }
    let ghost k1 = k;
    let ghost ep1 = views(ep0).skip(k1);
    let ghost mut j: int = 0;
    proof {
        assert(rc0.skip(0) =~= rc0);
    }
    while recent.len() > 1
        invariant
            0 <= j <= rc0.len(),
            recent@ == rc0.skip(j),
            views(episodic@) == ep1,
            sem == views(semantic_facts@),
            recent_drop(persona@, sem, ep1, rc0, user_input@, limit as int, 0) == recent_drop(
                persona@,
                sem,
                ep1,
                rc0,
                user_input@,
                limit as int,
                j,
            ),
        ensures
            recent@ == rc0.skip(j),
            j == recent_drop(persona@, sem, ep1, rc0, user_input@, limit as int, 0),
        decreases recent@.len(),
    {
        let t = probe_tokens(persona, semantic_facts, &episodic, &recent, user_input);
        if t <= limit as u128 {
            break;
        }
        assert(!fits(persona@, sem, ep1, rc0.skip(j), user_input@, limit as int));
        recent.remove(0);
        proof {
            j = j + 1;
            assert(recent@ =~= rc0.skip(j));
        }
    }
    (episodic, recent)
}

/// The last `window` turns (all of them when there are fewer), oldest first.
pub fn recent_window(turns: &Vec<Turn>, window: usize) -> (r: Vec<Turn>)
    ensures
        r@ == turns@.skip(turns@.len() - (if window < turns@.len() {
            window as int
        } else {
            turns@.len() as int
        })),
{
    let n = turns.len();
    let start = if window < n {
        n - window
    } else {
        0
    };
    let mut out: Vec<Turn> = Vec::new();
    let mut i: usize = start;
    while i < n
        invariant
            start <= i <= n == turns@.len(),
            out@ == turns@.subrange(start as int, i as int),
        decreases n - i,
    {
        out.push(turns[i].duplicate());
        i = i + 1;
        assert(out@ =~= turns@.subrange(start as int, i as int));
    }
    assert(out@ =~= turns@.skip(start as int));
    out
}

} // verus!

verus! {

proof fn lemma_episodic_drop_stops(
    persona: Seq<char>,
    semantic: Seq<Seq<char>>,
    episodic: Seq<Seq<char>>,
    recent: Seq<Turn>,
    input: Seq<char>,
    limit: int,
    from: int,
)
    requires
        0 <= from <= episodic.len(),
    ensures
        ({
            let k = episodic_drop(persona, semantic, episodic, recent, input, limit, from);
            k == episodic.len() || fits(persona, semantic, episodic.skip(k), recent, input, limit)
        }),
    decreases episodic.len() - from,
{
    if from < episodic.len() && !fits(persona, semantic, episodic.skip(from), recent, input, limit) {
        lemma_episodic_drop_stops(persona, semantic, episodic, recent, input, limit, from + 1);
    }
}

proof fn lemma_recent_drop_stops(
    persona: Seq<char>,
    semantic: Seq<Seq<char>>,
    episodic: Seq<Seq<char>>,
    recent: Seq<Turn>,
    input: Seq<char>,
    limit: int,
    from: int,
)
    requires
        0 <= from,
        from < recent.len() || from == 0,
    ensures
        ({
            let k = recent_drop(persona, semantic, episodic, recent, input, limit, from);
            recent.len() - k <= 1 || fits(persona, semantic, episodic, recent.skip(k), input, limit)
        }),
    decreases recent.len() - from,
{
    if recent.len() - from > 1 && !fits(persona, semantic, episodic, recent.skip(from), input, limit) {
        lemma_recent_drop_stops(persona, semantic, episodic, recent, input, limit, from + 1);
    }
}

/// Context fitting is as gentle as it can be and never leaves an over-budget
/// context that could still be cut: what `fit_context` keeps is a suffix of
/// the episodic memories and of the recent turns (only the oldest are dropped,
/// at least one recent turn stays when there was one), and the result either
/// fits in `limit` or has no episodic memory left and at most one recent turn.
pub proof fn law_fit_context_result(
    persona: Seq<char>,
    semantic: Seq<Seq<char>>,
    episodic: Seq<Seq<char>>,
    recent: Seq<Turn>,
    input: Seq<char>,
    limit: int,
)
    ensures
        ({
            let k1 = episodic_drop(persona, semantic, episodic, recent, input, limit, 0);
            let ep = episodic.skip(k1);
            let k2 = recent_drop(persona, semantic, ep, recent, input, limit, 0);
            let rc = recent.skip(k2);
            &&& 0 <= k1 <= episodic.len()
            &&& 0 <= k2 <= recent.len()
            &&& (recent.len() > 0 ==> rc.len() >= 1)
            &&& (fits(persona, semantic, ep, rc, input, limit) || (ep.len() == 0 && rc.len() <= 1))
        }),
{
    lemma_episodic_drop_bounds(persona, semantic, episodic, recent, input, limit, 0);
    lemma_episodic_drop_stops(persona, semantic, episodic, recent, input, limit, 0);
    let k1 = episodic_drop(persona, semantic, episodic, recent, input, limit, 0);
    let ep = episodic.skip(k1);
    lemma_recent_drop_bounds(persona, semantic, ep, recent, input, limit, 0);
    lemma_recent_drop_stops(persona, semantic, ep, recent, input, limit, 0);
    let k2 = recent_drop(persona, semantic, ep, recent, input, limit, 0);
    if k1 == episodic.len() {
        assert(ep.len() == 0);
        if !fits(persona, semantic, ep, recent.skip(k2), input, limit) {
            assert(recent.len() - k2 <= 1);
        }
    } else {
        // the episodic loop stopped because the context fit; nothing of recent is cut then
        assert(fits(persona, semantic, ep, recent, input, limit));
        assert(recent.skip(0) =~= recent);
        assert(k2 == 0);
    }
}

} // verus!

verus! {

/// Heading of the semantic block in the system message.
pub open spec fn semantic_heading() -> Seq<char> {
    "## What I know about you:\n"@
}

/// Heading of the episodic block in the system message.
pub open spec fn episodic_heading() -> Seq<char> {
    "## Relevant past context:\n"@
}

/// The system message: the persona, then each non-empty memory block under its
/// heading, separated by blank lines.
pub open spec fn system_content(persona: Seq<char>, semantic: Seq<char>, episodic: Seq<char>) -> Seq<
    char,
> {
    persona + (if semantic.len() > 0 {
        "\n\n"@ + semantic_heading() + semantic
    } else {
        Seq::empty()
    }) + (if episodic.len() > 0 {
        "\n\n"@ + episodic_heading() + episodic
    } else {
        Seq::empty()
    })
}

/// (role, content) of a message.
pub open spec fn message_view(m: Message) -> (Seq<char>, Seq<char>) {
    (m.role@, m.content@)
}

/// (role, content) of a turn.
pub open spec fn turn_view(t: Turn) -> (Seq<char>, Seq<char>) {
    (t.role@, t.content@)
}

impl AssembledContext {
    /// The wire messages of this context: one system message, then every
    /// recent turn in order, then the user input.
    pub open spec fn messages_spec(&self) -> Seq<(Seq<char>, Seq<char>)> {
        seq![("system"@, system_content(self.persona.content@, self.semantic.content@, self.episodic.content@))]
            + self.recent_turns@.map_values(|t: Turn| turn_view(t)) + seq![("user"@, self.user_input@)]
    }

    /// Converts to chat messages: system (persona + memory blocks), recent
    /// turns, current user input.
    pub fn to_messages(&self) -> (r: Vec<Message>)
        ensures
            r@.map_values(|m: Message| message_view(m)) == self.messages_spec(),
    {
        let mut system = self.persona.content.clone();
        if self.semantic.content.unicode_len() > 0 {
            system.append("\n\n");
            system.append("## What I know about you:\n");
            system.append(self.semantic.content.as_str());
        }
        let ghost after_semantic = system@;
        if self.episodic.content.unicode_len() > 0 {
            system.append("\n\n");
            system.append("## Relevant past context:\n");
            system.append(self.episodic.content.as_str());
        }
        proof {
            reveal_strlit("\n\n");
            reveal_strlit("## What I know about you:\n");
            reveal_strlit("## Relevant past context:\n");
            if self.semantic.content@.len() > 0 {
                assert(after_semantic =~= self.persona.content@ + ("\n\n"@ + semantic_heading()
                    + self.semantic.content@));
            } else {
                assert(after_semantic =~= self.persona.content@ + Seq::<char>::empty());
            }
            assert(system@ =~= system_content(
                self.persona.content@,
                self.semantic.content@,
                self.episodic.content@,
            ));
        }
        let mut out: Vec<Message> = Vec::new();
        out.push(Message { role: crate::text::owned("system"), content: system });
        let ghost head = seq![("system"@, system_content(self.persona.content@, self.semantic.content@, self.episodic.content@))];
        let mut i: usize = 0;
        while i < self.recent_turns.len()
            invariant
                i <= self.recent_turns@.len(),
                out@.map_values(|m: Message| message_view(m)) == head
                    + self.recent_turns@.take(i as int).map_values(|t: Turn| turn_view(t)),
            decreases self.recent_turns@.len() - i,
        {
            let t = &self.recent_turns[i];
            let m = Message { role: t.role.clone(), content: t.content.clone() };
            assert(message_view(m) == turn_view(self.recent_turns@[i as int]));
            let ghost before = out@;
            out.push(m);
            proof {
                assert(out@ == before.push(m));
                assert(out@.map_values(|m: Message| message_view(m)) =~= before.map_values(
                    |m: Message| message_view(m),
                ).push(message_view(m)));
                assert(self.recent_turns@.take(i + 1) =~= self.recent_turns@.take(i as int).push(
                    self.recent_turns@[i as int],
                ));
                assert(out@.map_values(|m: Message| message_view(m)) =~= head
                    + self.recent_turns@.take(i + 1).map_values(|t: Turn| turn_view(t)));
            }
            i = i + 1;
        }
        out.push(Message { role: crate::text::owned("user"), content: self.user_input.clone() });
        proof {
            assert(self.recent_turns@.take(self.recent_turns@.len() as int) =~= self.recent_turns@);
            assert(out@.map_values(|m: Message| message_view(m)) =~= self.messages_spec());
        }
        out
    }
}

/// The persona is never diluted by retrieval: the system message begins with
/// the persona text unchanged, memory blocks only follow it, and with no
/// memory the system message is the persona alone.
pub proof fn law_persona_leads(persona: Seq<char>, semantic: Seq<char>, episodic: Seq<char>)
    ensures
        system_content(persona, semantic, episodic).len() >= persona.len(),
        system_content(persona, semantic, episodic).take(persona.len() as int) == persona,
        semantic.len() == 0 && episodic.len() == 0 ==> system_content(persona, semantic, episodic)
            == persona,
{
    let rest_a = if semantic.len() > 0 {
        "\n\n"@ + semantic_heading() + semantic
    } else {
        Seq::<char>::empty()
    };
    let rest_b = if episodic.len() > 0 {
        "\n\n"@ + episodic_heading() + episodic
    } else {
        Seq::<char>::empty()
    };
    assert(system_content(persona, semantic, episodic) == persona + rest_a + rest_b);
    assert((persona + rest_a + rest_b).take(persona.len() as int) =~= persona);
    if semantic.len() == 0 && episodic.len() == 0 {
        assert(persona + rest_a + rest_b =~= persona);
    }
}

} // verus!

verus! {

broadcast use vstd::seq_lib::to_multiset_insert;

/// An episodic memory with the time it was stored (Unix milliseconds).
#[derive(Debug, Clone)]
pub struct EpisodicMemory {
    pub content: String,
    pub timestamp: i64,
}

impl EpisodicMemory {
    /// A field-for-field copy.
    pub fn duplicate(&self) -> (r: Self)
        ensures
            r == *self,
    {
        EpisodicMemory { content: self.content.clone(), timestamp: self.timestamp }
    }
}

/// (content, timestamp) of a memory.
pub open spec fn memory_view(m: EpisodicMemory) -> (Seq<char>, i64) {
    (m.content@, m.timestamp)
}

/// Whether the memories are in order of storage time, oldest first.
pub open spec fn oldest_first(s: Seq<EpisodicMemory>) -> bool {
    forall|i: int, j: int| 0 <= i < j < s.len() ==> #[trigger] s[i].timestamp <= #[trigger] s[j].timestamp
}

/// The contents of the memories, in order.
pub open spec fn contents(s: Seq<EpisodicMemory>) -> Seq<Seq<char>> {
    s.map_values(|m: EpisodicMemory| m.content@)
}

fn insert_by_age(out: &mut Vec<EpisodicMemory>, x: EpisodicMemory)
    requires
        oldest_first(old(out)@),
    ensures
        oldest_first(final(out)@),
        final(out)@.map_values(|m: EpisodicMemory| memory_view(m)).to_multiset() == old(out)@.map_values(
            |m: EpisodicMemory| memory_view(m),
        ).to_multiset().insert(memory_view(x)),
{
    let mut p: usize = 0;
    while p < out.len() && out[p].timestamp <= x.timestamp
        invariant
            p <= out@.len(),
            forall|k: int| 0 <= k < p ==> (#[trigger] out@[k]).timestamp <= x.timestamp,
        decreases out@.len() - p,
    {
        p = p + 1;
    }
    let ghost before = out@;
    out.insert(p, x);
    proof {
        let after = out@;
        assert(after == before.insert(p as int, x));
        assert forall|i: int, j: int| 0 <= i < j < after.len() implies #[trigger] after[i].timestamp
            <= #[trigger] after[j].timestamp by {
            if i < p && j == p {
            } else if i == p && j > p {
                assert(before[p as int].timestamp > x.timestamp);
                assert(before[p as int].timestamp <= before[j - 1].timestamp);
            } else if i < p && j > p {
                assert(before[i].timestamp <= before[j - 1].timestamp);
            } else if j < p {
                assert(before[i].timestamp <= before[j].timestamp);
            } else {
                assert(before[i - 1].timestamp <= before[j - 1].timestamp);
            }
        }
        let f = |m: EpisodicMemory| memory_view(m);
        assert(after.map_values(f) =~= before.map_values(f).insert(p as int, memory_view(x)));
    }
}

/// The memories ordered oldest first (a stable sort by storage time).
pub fn order_oldest_first(memories: Vec<EpisodicMemory>) -> (r: Vec<EpisodicMemory>)
    ensures
        oldest_first(r@),
        r@.map_values(|m: EpisodicMemory| memory_view(m)).to_multiset() == memories@.map_values(
            |m: EpisodicMemory| memory_view(m),
        ).to_multiset(),
{
    let mut out: Vec<EpisodicMemory> = Vec::new();
    let mut i: usize = 0;
    proof {
        assert(out@.map_values(|m: EpisodicMemory| memory_view(m)) =~= memories@.take(0).map_values(
            |m: EpisodicMemory| memory_view(m),
        ));
    }
    while i < memories.len()
        invariant
            i <= memories@.len(),
            oldest_first(out@),
            out@.map_values(|m: EpisodicMemory| memory_view(m)).to_multiset() == memories@.take(
                i as int,
            ).map_values(|m: EpisodicMemory| memory_view(m)).to_multiset(),
        decreases memories@.len() - i,
    {
        let x = memories[i].duplicate();
        assert(memory_view(x) == memory_view(memories@[i as int]));
        insert_by_age(&mut out, x);
        proof {
            let f = |m: EpisodicMemory| memory_view(m);
            assert(memories@.take(i + 1).map_values(f) =~= memories@.take(i as int).map_values(f).push(
                memory_view(memories@[i as int]),
            ));
            vstd::seq_lib::to_multiset_build(memories@.take(i as int).map_values(f), memory_view(memories@[i as int]));
        }
        i = i + 1;
    }
    assert(memories@.take(memories@.len() as int) =~= memories@);
    out
}

fn contents_of(memories: &Vec<EpisodicMemory>) -> (r: Vec<String>)
    ensures
        views(r@) == contents(memories@),
{
    let mut out: Vec<String> = Vec::new();
    let mut i: usize = 0;
    while i < memories.len()
        invariant
            i <= memories@.len(),
            views(out@) == contents(memories@.take(i as int)),
        decreases memories@.len() - i,
    {
        let c = memories[i].content.clone();
        assert(c@ == memories@[i as int].content@);
        let ghost before = out@;
        out.push(c);
        proof {
            assert(out@ == before.push(c));
            assert(views(out@) =~= views(before).push(c@));
            assert(memories@.take(i + 1) =~= memories@.take(i as int).push(memories@[i as int]));
            assert(contents(memories@.take(i + 1)) =~= contents(memories@.take(i as int)).push(
                memories@[i as int].content@,
            ));
        }
        i = i + 1;
    }
    assert(memories@.take(memories@.len() as int) =~= memories@);
    out
}

/// Fits the context by storage age: the memories are put oldest first, then
/// [`fit_context`] evicts from the front, so every evicted memory was stored
/// no later than every kept one; the recent turns are cut only afterwards.
pub fn fit_context_by_age(
    persona: &str,
    semantic_facts: &Vec<String>,
    episodic: Vec<EpisodicMemory>,
    recent: Vec<Turn>,
    user_input: &str,
    limit: usize,
) -> (r: (Vec<String>, Vec<Turn>))
    ensures
        exists|ordered: Seq<EpisodicMemory>|
            #![trigger oldest_first(ordered)]
            {
                let k1 = episodic_drop(
                    persona@,
                    views(semantic_facts@),
                    contents(ordered),
                    recent@,
                    user_input@,
                    limit as int,
                    0,
                );
                let k2 = recent_drop(
                    persona@,
                    views(semantic_facts@),
                    contents(ordered).skip(k1),
                    recent@,
                    user_input@,
                    limit as int,
                    0,
                );
                &&& oldest_first(ordered)
                &&& ordered.map_values(|m: EpisodicMemory| memory_view(m)).to_multiset()
                    == episodic@.map_values(|m: EpisodicMemory| memory_view(m)).to_multiset()
                &&& 0 <= k1 <= ordered.len()
                &&& views(r.0@) == contents(ordered).skip(k1)
                &&& r.1@ == recent@.skip(k2)
                &&& forall|i: int, j: int|
                    0 <= i < k1 <= j < ordered.len() ==> #[trigger] ordered[i].timestamp
                        <= #[trigger] ordered[j].timestamp
            },
{
    let ordered = order_oldest_first(episodic);
    let texts = contents_of(&ordered);
    let ghost o = ordered@;
    let r = fit_context(persona, semantic_facts, texts, recent, user_input, limit);
    proof {
        lemma_episodic_drop_bounds(
            persona@,
            views(semantic_facts@),
            contents(o),
            recent@,
            user_input@,
            limit as int,
            0,
        );
        assert(views(texts@) == contents(o));
        assert(views(r.0@) =~= views(texts@).skip(
            episodic_drop(persona@, views(semantic_facts@), contents(o), recent@, user_input@, limit as int, 0),
        ));
    }
    r
}

/// The system message carries each non-empty memory block whatever the
/// other holds: a non-empty episodic block always ends the message under its
/// heading, a non-empty semantic block always follows the persona under its
/// heading, and the message is as long as the persona plus the blocks present.
pub proof fn law_system_message_keeps_every_block(persona: Seq<char>, semantic: Seq<char>, episodic: Seq<char>)
    ensures
        episodic.len() > 0 ==> ({
            let tail = "\n\n"@ + episodic_heading() + episodic;
            let sc = system_content(persona, semantic, episodic);
            sc.len() >= tail.len() && sc.skip(sc.len() - tail.len()) == tail
        }),
        semantic.len() > 0 ==> ({
            let block = "\n\n"@ + semantic_heading() + semantic;
            system_content(persona, semantic, episodic).subrange(
                persona.len() as int,
                (persona.len() + block.len()) as int,
            ) == block
        }),
        system_content(persona, semantic, episodic).len() == persona.len() + (if semantic.len() > 0 {
            2 + semantic_heading().len() + semantic.len()
        } else {
            0
        }) + (if episodic.len() > 0 {
            2 + episodic_heading().len() + episodic.len()
        } else {
            0
        }),
{
    reveal_strlit("\n\n");
    let ra = if semantic.len() > 0 {
        "\n\n"@ + semantic_heading() + semantic
    } else {
        Seq::<char>::empty()
    };
    let rb = if episodic.len() > 0 {
        "\n\n"@ + episodic_heading() + episodic
    } else {
        Seq::<char>::empty()
    };
    let sc = system_content(persona, semantic, episodic);
    assert(sc == persona + ra + rb);
    assert("\n\n"@.len() == 2);
    if episodic.len() > 0 {
        assert(sc.skip(sc.len() - rb.len()) =~= rb);
    }
    if semantic.len() > 0 {
        assert(sc.subrange(persona.len() as int, (persona.len() + ra.len()) as int) =~= ra);
    }
}

} // verus!
