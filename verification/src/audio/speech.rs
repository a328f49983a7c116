//! Speech text and playback: markdown stripped so it is not read aloud, the
//! playback gate through which a newer utterance supersedes one in flight, and
//! the decisions of a Piper speak request (voice fallback, what to log).

use vstd::prelude::*;

use super::piper::{
    onnx_name, pair_present, piper_voice_pair_present, resolve_piper_voice, resolved_id,
    voice_not_found_message,
};
use crate::paths::{join, join_str};
use crate::platform::artifact::DirEntryFact;
use crate::text::{collapse_whitespace, collapse_ws, concat2, find_from, first_occ, lemma_first_occ, occurs_at, to_chars, trim};

verus! {

/// The code-fence marker.
pub open spec fn fence() -> Seq<char> {
    seq!['`', '`', '`']
}

/// `s` with fenced code blocks removed: repeatedly, the first fence and the
/// next fence after it are cut out together with everything between them; an
/// unclosed fence stays.
pub open spec fn strip_fences(s: Seq<char>) -> Seq<char>
    decreases s.len()
    via strip_fences_decreases
{
    match first_occ(s, fence(), 0) {
        None => s,
        Some(i) => match first_occ(s, fence(), i + 3) {
            None => s,
            Some(j) => strip_fences(s.take(i) + s.skip(j + 3)),
        },
    }
}

#[via_fn]
proof fn strip_fences_decreases(s: Seq<char>) {
    lemma_first_occ(s, fence(), 0);
    match first_occ(s, fence(), 0) {
        None => {},
        Some(i) => {
            lemma_first_occ(s, fence(), i + 3);
        },
    }
}

/// `s` with each non-overlapping pair `cc` (scanning left to right) removed
/// (`str::replace` of the two-character pattern by nothing).
pub open spec fn drop_pairs(s: Seq<char>, c: char) -> Seq<char>
    decreases s.len(),
{
    if s.len() < 2 {
        s
    } else if s[0] == c && s[1] == c {
        drop_pairs(s.skip(2), c)
    } else {
        seq![s[0]] + drop_pairs(s.skip(1), c)
    }
}

/// Markdown emphasis removed: backticks dropped, `**` and `__` pairs dropped,
/// remaining `*` dropped, remaining `_` turned into spaces.
pub open spec fn strip_emphasis(s: Seq<char>) -> Seq<char> {
    drop_pairs(drop_pairs(s.filter(|c: char| c != '`'), '*'), '_').filter(|c: char| c != '*').map_values(
        |c: char| if c == '_' { ' ' } else { c },
    )
}

/// What `Regex::new(pattern)` then `replace_all(text, "")` gives: `text` with
/// every leftmost-first match of the pattern removed (`text` itself when the
/// pattern does not compile).
pub uninterp spec fn regex_removed(pattern: Seq<char>, text: Seq<char>) -> Seq<char>;

/// Removes every match of `pattern` from `text` (`regex::Regex::new` and
/// `Regex::replace_all` with an empty replacement); the result is named by
/// [`regex_removed`].
#[verifier::external_body]
fn remove_matches(pattern: &str, text: &str) -> (r: String)
    ensures
        r@ == regex_removed(pattern@, text@),
{
    match regex::Regex::new(pattern) {
        Ok(re) => re.replace_all(text, "").into_owned(),
        Err(_) => text.to_string(),
    }
}

/// URLs (`http://` or `https://` and the non-space run after it).
pub open spec fn url_pattern() -> Seq<char> {
    "https?://\\S+"@
}

/// A `<defer>..</defer>` block, across lines.
pub open spec fn defer_block_pattern() -> Seq<char> {
    "(?s)<defer>.*?</defer>"@
}

/// The text read aloud for `text`: fences and emphasis stripped, URLs and
/// leftover `<defer>` blocks removed, whitespace collapsed.
pub open spec fn speech_text(text: Seq<char>) -> Seq<char> {
    collapse_ws(
        regex_removed(
            defer_block_pattern(),
            regex_removed(url_pattern(), strip_emphasis(strip_fences(text))),
        ),
    )
}

fn strip_fences_exec(v: Vec<char>) -> (r: Vec<char>)
    ensures
        r@ == strip_fences(v@),
{
    let mut fence_v: Vec<char> = Vec::new();
    fence_v.push('`');
    fence_v.push('`');
    fence_v.push('`');
    assert(fence_v@ =~= fence());
    let mut s = v;
    loop
        invariant
            fence_v@ == fence(),
            fence_v@.len() == 3,
            strip_fences(s@) == strip_fences(v@),
        decreases s@.len(),
    {
        proof {
            lemma_first_occ(s@, fence(), 0);
        }
        match find_from(&s, &fence_v, 0) {
            None => {
                assert(first_occ(s@, fence(), 0) is None) by {
                    match first_occ(s@, fence(), 0) {
                        Some(k) => {},
                        None => {},
                    }
                }
                return s;
            },
            Some(i) => {
                assert(first_occ(s@, fence(), 0) == Some(i as int)) by {
                    match first_occ(s@, fence(), 0) {
                        Some(k) => {
                            if k < i {
                            } else if k > i {
                            }
                        },
                        None => {},
                    }
                }
                proof {
                    lemma_first_occ(s@, fence(), i + 3);
                }
                assert(occurs_at(s@, fence_v@, i as int));
                let n = s.len();
                assert(i + 3 <= n);
                match find_from(&s, &fence_v, i + 3) {
                    None => {
                        assert(first_occ(s@, fence(), i + 3) is None) by {
                            match first_occ(s@, fence(), i + 3) {
                                Some(k) => {},
                                None => {},
                            }
                        }
                        return s;
                    },
                    Some(j) => {
                        assert(occurs_at(s@, fence_v@, j as int));
                        assert(j + 3 <= n);
                        assert(first_occ(s@, fence(), i + 3) == Some(j as int)) by {
                            match first_occ(s@, fence(), i + 3) {
                                Some(k) => {
                                    if k < j {
                                    } else if k > j {
                                    }
                                },
                                None => {},
                            }
                        }
                        let mut t: Vec<char> = Vec::new();
                        let mut k: usize = 0;
                        while k < i
                            invariant
                                i <= s@.len(),
                                k <= i,
                                t@ == s@.take(k as int),
                            decreases i - k,
                        {
                            t.push(s[k]);
                            k = k + 1;
                            assert(t@ =~= s@.take(k as int));
                        }
                        let mut k: usize = j + 3;
                        let ghost head = t@;
                        while k < s.len()
                            invariant
                                j + 3 <= k <= s@.len(),
                                t@ == head + s@.subrange(j + 3, k as int),
                            decreases s@.len() - k,
                        {
                            t.push(s[k]);
                            k = k + 1;
                            assert(t@ =~= head + s@.subrange(j + 3, k as int));
                        }
                        assert(t@ =~= s@.take(i as int) + s@.skip(j + 3));
                        s = t;
                    },
                }
            },
        }
    }
}

fn drop_pairs_exec(v: &Vec<char>, c: char) -> (r: Vec<char>)
    ensures
        r@ == drop_pairs(v@, c),
{
    let mut out: Vec<char> = Vec::new();
    let mut i: usize = 0;
    assert(v@.skip(0) =~= v@);
    assert(out@ + drop_pairs(v@, c) =~= drop_pairs(v@, c));
    while i < v.len()
        invariant
            i <= v@.len(),
            out@ + drop_pairs(v@.skip(i as int), c) == drop_pairs(v@, c),
        decreases v@.len() - i,
    {
        let ghost rest = v@.skip(i as int);
        if i + 1 < v.len() && v[i] == c && v[i + 1] == c {
            assert(rest.skip(2) =~= v@.skip(i + 2));
            i = i + 2;
        } else {
            assert(rest.skip(1) =~= v@.skip(i + 1));
            proof {
                if rest.len() < 2 {
                    assert(rest =~= seq![v@[i as int]]);
                    assert(v@.skip(i + 1) =~= Seq::<char>::empty());
                }
            }
            let ghost before = out@;
            out.push(v[i]);
            assert(out@ + drop_pairs(v@.skip(i + 1), c) =~= before + (seq![v@[i as int]]
                + drop_pairs(v@.skip(i + 1), c)));
            i = i + 1;
        }
    }
    assert(v@.skip(i as int) =~= Seq::<char>::empty());
    assert(out@ + Seq::<char>::empty() =~= out@);
    out
}

fn without_char(v: &Vec<char>, c: char) -> (r: Vec<char>)
    ensures
        r@ == v@.filter(|x: char| x != c),
{
    let mut out: Vec<char> = Vec::new();
    let mut i: usize = 0;
    while i < v.len()
        invariant
            i <= v@.len(),
            out@ == v@.take(i as int).filter(|x: char| x != c),
        decreases v@.len() - i,
    {
        proof {
            reveal_with_fuel(Seq::<_>::filter, 1);
            assert(v@.take(i + 1).drop_last() =~= v@.take(i as int));
        }
        if v[i] != c {
            out.push(v[i]);
        }
        i = i + 1;
    }
    assert(v@.take(v@.len() as int) =~= v@);
    out
}

fn strip_emphasis_exec(v: &Vec<char>) -> (r: Vec<char>)
    ensures
        r@ == strip_emphasis(v@),
{
    let a = without_char(v, '`');
    let b = drop_pairs_exec(&a, '*');
    let c = drop_pairs_exec(&b, '_');
    let d = without_char(&c, '*');
    let mut out: Vec<char> = Vec::new();
    let mut i: usize = 0;
    while i < d.len()
        invariant
            i <= d@.len(),
            out@ == d@.take(i as int).map_values(|x: char| if x == '_' { ' ' } else { x }),
        decreases d@.len() - i,
    {
        let x = d[i];
        out.push(if x == '_' { ' ' } else { x });
        i = i + 1;
        assert(out@ =~= d@.take(i as int).map_values(|x: char| if x == '_' { ' ' } else { x }));
    }
    assert(d@.take(d@.len() as int) =~= d@);
    out
}

/// Fenced code blocks and emphasis markers removed (the first stage of
/// [`speech_text`]).
pub fn strip_markdown(text: &str) -> (r: String)
    ensures
        r@ == strip_emphasis(strip_fences(text@)),
{
    let v = to_chars(text);
    let fenced = strip_fences_exec(v);
    let plain = strip_emphasis_exec(&fenced);
    crate::text::from_chars(&plain)
}

/// Strips markdown so it is not read aloud as noise (see [`speech_text`]).
pub fn clean_for_speech(text: &str) -> (r: String)
    ensures
        r@ == speech_text(text@),
{
    let s1 = strip_markdown(text);
    let s2 = remove_matches("https?://\\S+", s1.as_str());
    let s3 = remove_matches("(?s)<defer>.*?</defer>", s2.as_str());
    let w = collapse_whitespace(&to_chars(s3.as_str()));
    crate::text::from_chars(&w)
}

/// Ticket of one playback: it may play only while it is the newest.
#[derive(Debug, Clone, Copy, PartialEq, Eq, Structural)]
pub struct PlaybackToken {
    pub generation: u64,
}

/// The generation after `g` (wrapping at `u64::MAX`).
pub open spec fn next_generation(g: u64) -> u64 {
    if g == u64::MAX {
        0
    } else {
        (g + 1) as u64
    }
}

/// Generation counter through which a newer utterance supersedes any in flight.
#[derive(Debug)]
pub struct PlaybackGate {
    generation: u64,
}

impl PlaybackGate {
    /// The newest generation handed out.
    pub closed spec fn current(&self) -> u64 {
        self.generation
    }

    /// A gate that has handed out no token.
    pub fn new() -> (r: Self)
        ensures
            r.current() == 0,
    {
        PlaybackGate { generation: 0 }
    }

    /// Starts a new playback, superseding every earlier one.
    pub fn begin(&mut self) -> (t: PlaybackToken)
        ensures
            final(self).current() == next_generation(old(self).current()),
            t.generation == final(self).current(),
    {
        self.generation = if self.generation == u64::MAX {
            0
        } else {
            self.generation + 1
        };
        PlaybackToken { generation: self.generation }
    }

    /// Whether `t` is still the newest playback.
    pub fn is_current(&self, t: PlaybackToken) -> (r: bool)
        ensures
            r == (t.generation == self.current()),
    {
        t.generation == self.generation
    }
}

/// Whether `s` holds two fences, one after the other (a whole code block).
pub open spec fn has_fence_pair(s: Seq<char>) -> bool {
    exists|i: int, j: int|
        #[trigger] occurs_at(s, fence(), i) && #[trigger] occurs_at(s, fence(), j) && i + 3 <= j
}

/// Every fenced code block is removed: the stripped text holds no fence
/// followed by another, is never longer than the input, and text without a
/// complete block is left as it is.
pub proof fn law_strip_fences_removes_every_block(s: Seq<char>)
    ensures
        !has_fence_pair(strip_fences(s)),
        strip_fences(s).len() <= s.len(),
        !has_fence_pair(s) ==> strip_fences(s) == s,
    decreases s.len(),
{
    lemma_first_occ(s, fence(), 0);
    match first_occ(s, fence(), 0) {
        None => {
            assert(!has_fence_pair(s)) by {
                if has_fence_pair(s) {
                    let (i, j) = choose|i: int, j: int|
                        #[trigger] occurs_at(s, fence(), i) && #[trigger] occurs_at(s, fence(), j) && i + 3 <= j;
                }
            }
        },
        Some(i) => {
            lemma_first_occ(s, fence(), i + 3);
            match first_occ(s, fence(), i + 3) {
                None => {
                    assert(!has_fence_pair(s)) by {
                        if has_fence_pair(s) {
                            let (a, b) = choose|a: int, b: int|
                                #[trigger] occurs_at(s, fence(), a) && #[trigger] occurs_at(s, fence(), b) && a + 3 <= b;
                            assert(a >= i);
                        }
                    }
                },
                Some(j) => {
                    assert(has_fence_pair(s)) by {
                        assert(occurs_at(s, fence(), i) && occurs_at(s, fence(), j) && i + 3 <= j);
                    }
                    law_strip_fences_removes_every_block(s.take(i) + s.skip(j + 3));
                },
            }
        },
    }
}

/// A later playback supersedes an earlier one: after a second `begin`, the
/// token of the first is no longer current, while the second one is.
pub proof fn law_later_playback_supersedes(g0: u64)
    ensures
        next_generation(next_generation(g0)) != next_generation(g0),
{
}

/// What a speak request comes to.
#[derive(Debug)]
pub enum SpeakPlan {
    /// Nothing is left to say after cleaning; no playback starts.
    Nothing,
    /// Synthesize `text` with the model at `onnx_path`, playing while `token` is current.
    Play {
        text: String,
        voice_id: String,
        onnx_path: String,
        token: PlaybackToken,
        logs: Vec<String>,
    },
    /// No voice could be resolved.
    Fail { log: String, error: String },
}

/// Log line when the selection falls back to another voice.
pub open spec fn fallback_log(selected: Seq<char>, used: Seq<char>) -> Seq<char> {
    "TTS: voice '"@ + selected + "' unavailable — falling back to '"@ + used + "'"@
}

/// Log line announcing synthesis of `bytes` bytes of text with voice `id`.
pub open spec fn synth_log(bytes: nat, id: Seq<char>) -> Seq<char> {
    "TTS: "@ + crate::text::decimal(bytes) + " chars → "@ + id
}

/// Piper speech: owns the playback gate and the models → `tts/` layout.
pub struct PiperSpeak {
    models_dir: String,
    gate: PlaybackGate,
}

impl PiperSpeak {
    /// The models directory.
    pub closed spec fn models(&self) -> Seq<char> {
        self.models_dir@
    }

    /// The newest playback generation.
    pub closed spec fn generation(&self) -> u64 {
        self.gate.current()
    }

    /// Speech over the models in `models_dir`, with a fresh gate.
    pub fn new(models_dir: String) -> (r: Self)
        ensures
            r.models() == models_dir@,
            r.generation() == 0,
    {
        PiperSpeak { models_dir, gate: PlaybackGate::new() }
    }

    /// The playback gate.
    pub fn gate(&self) -> (r: &PlaybackGate)
        ensures
            r.current() == self.generation(),
    {
        &self.gate
    }

    /// The voices directory, `<models_dir>/tts`.
    pub fn tts_dir(&self) -> (r: String)
        ensures
            r@ == join(self.models(), "tts"@),
    {
        join_str(self.models_dir.as_str(), "tts")
    }

    /// Whether previewing `voice_id` must first download its pair (it is
    /// missing from the voices directory, whose entries are `tts_listing`);
    /// afterwards the preview speaks
    /// [`super::piper::PIPER_VOICE_PREVIEW_SAMPLE`] with
    /// [`Self::plan_speak`].
    pub fn preview_needs_download(&self, voice_id: &str, tts_listing: &Vec<DirEntryFact>) -> (r: bool)
        ensures
            r == !pair_present(tts_listing@, voice_id@),
    {
        !piper_voice_pair_present(tts_listing, voice_id)
    }

    /// Decides how to speak `text` with voice `voice_id`, given the entries of
    /// the voices directory: nothing when no text survives cleaning; otherwise
    /// a new playback supersedes any in flight, and the resolved voice (with
    /// fallback to the default) is used, or the request fails.
    pub fn plan_speak(&mut self, text: &str, voice_id: &str, tts_listing: &Vec<DirEntryFact>) -> (r:
        SpeakPlan)
        ensures
            final(self).models() == old(self).models(),
            trim(speech_text(text@)).len() == 0 ==> r is Nothing && final(self).generation()
                == old(self).generation(),
            trim(speech_text(text@)).len() > 0 ==> {
                &&& final(self).generation() == next_generation(old(self).generation())
                &&& match resolved_id(tts_listing@, voice_id@) {
                    Some(id) => r matches SpeakPlan::Play { text: t, voice_id: v, onnx_path: p, token, logs }
                        && t@ == speech_text(text@) && v@ == id && p@ == join(
                        join(old(self).models(), "tts"@),
                        onnx_name(id),
                    ) && token.generation == final(self).generation() && logs@.map_values(
                        |l: String| l@,
                    ) == (if id != voice_id@ {
                        seq![fallback_log(voice_id@, id)]
                    } else {
                        Seq::empty()
                    }) + seq![synth_log((vstd::utf8::encode_utf8(t@).len() as usize) as nat, id)],
                    None => r matches SpeakPlan::Fail { log, error } && error@
                        == voice_not_found_message(voice_id@) && log@ == "TTS: "@
                        + voice_not_found_message(voice_id@),
                }
            },
    {
        let clean = clean_for_speech(text);
        let cv = to_chars(clean.as_str());
        let trimmed = crate::text::trim_chars(&cv);
        if trimmed.len() == 0 {
            return SpeakPlan::Nothing;
        }
        let token = self.gate.begin();
        let dir = self.tts_dir();
        match resolve_piper_voice(dir.as_str(), tts_listing, voice_id) {
            Err(e) => {
                let log = concat2("TTS: ", e.as_str());
                SpeakPlan::Fail { log, error: e }
            },
            Ok(v) => {
                let mut logs: Vec<String> = Vec::new();
                if !crate::text::str_eq(v.id.as_str(), voice_id) {
                    let mut l = crate::text::concat3("TTS: voice '", voice_id, "' unavailable — falling back to '");
                    l.append(v.id.as_str());
                    l.append("'");
                    assert(l@ =~= fallback_log(voice_id@, v.id@));
                    logs.push(l);
                }
                let n = clean.as_str().len();
                let mut l = crate::text::owned("TTS: ");
                crate::text::push_decimal(&mut l, n as u64);
                l.append(" chars → ");
                l.append(v.id.as_str());
                assert(n as nat == (vstd::utf8::encode_utf8(clean@).len() as usize) as nat);
                assert(l@ =~= synth_log((vstd::utf8::encode_utf8(clean@).len() as usize) as nat, v.id@));
                logs.push(l);
                proof {
                    let want = (if v.id@ != voice_id@ {
                        seq![fallback_log(voice_id@, v.id@)]
                    } else {
                        Seq::<Seq<char>>::empty()
                    }) + seq![synth_log((vstd::utf8::encode_utf8(clean@).len() as usize) as nat, v.id@)];
                    assert(logs@.map_values(|l: String| l@) =~= want);
                }
                SpeakPlan::Play { text: clean, voice_id: v.id, onnx_path: v.onnx_path, token, logs }
            },
        }
    }
}

} // verus!
