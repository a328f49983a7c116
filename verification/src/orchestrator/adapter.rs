//! llama.cpp chat adapter logic: the server address, the Llama-3 prompt used
//! by the native `/completion` fallback, and the framing of the streamed
//! `text/event-stream` reply into `data:` payloads.

use vstd::prelude::*;

use super::context::{message_view, Message};
use crate::text::{decimal, push_decimal, to_chars, trim, trim_chars};

verus! {

/// Base URL of a chat server on the loopback interface.
pub open spec fn base_url_spec(port: u16) -> Seq<char> {
    "http://127.0.0.1:"@ + decimal(port as nat)
}

/// `http://127.0.0.1:{port}`.
pub fn base_url(port: u16) -> (r: String)
    ensures
        r@ == base_url_spec(port),
{
    let mut s = crate::text::owned("http://127.0.0.1:");
    push_decimal(&mut s, port as u64);
    s
}

/// One message in the Llama-3 instruct layout.
pub open spec fn llama3_turn(role: Seq<char>, content: Seq<char>) -> Seq<char> {
    "<|start_header_id|>"@ + role + "<|end_header_id|>\n\n"@ + content + "<|eot_id|>"@
}

/// All messages in the Llama-3 layout, in order.
pub open spec fn llama3_turns(ms: Seq<(Seq<char>, Seq<char>)>) -> Seq<char>
    decreases ms.len(),
{
    if ms.len() == 0 {
        Seq::empty()
    } else {
        llama3_turns(ms.drop_last()) + llama3_turn(ms.last().0, ms.last().1)
    }
}

/// The full prompt: begin-of-text, every message, then an open assistant header.
pub open spec fn llama3_prompt(ms: Seq<(Seq<char>, Seq<char>)>) -> Seq<char> {
    "<|begin_of_text|>"@ + llama3_turns(ms) + "<|start_header_id|>assistant<|end_header_id|>\n\n"@
}

/// Formats messages as a Llama-3 instruct prompt for the native completion endpoint.
pub fn format_llama3_prompt(messages: &Vec<Message>) -> (r: String)
    ensures
        r@ == llama3_prompt(messages@.map_values(|m: Message| message_view(m))),
{
    let ghost ms = messages@.map_values(|m: Message| message_view(m));
    let mut s = crate::text::owned("<|begin_of_text|>");
    let mut i: usize = 0;
    while i < messages.len()
        invariant
            ms == messages@.map_values(|m: Message| message_view(m)),
            i <= messages@.len(),
            s@ == "<|begin_of_text|>"@ + llama3_turns(ms.take(i as int)),
        decreases messages@.len() - i,
    {
        let m = &messages[i];
        let ghost before = s@;
        s.append("<|start_header_id|>");
        s.append(m.role.as_str());
        s.append("<|end_header_id|>\n\n");
        s.append(m.content.as_str());
        s.append("<|eot_id|>");
        proof {
            assert(ms.take(i + 1).drop_last() =~= ms.take(i as int));
            assert(ms.take(i + 1).last() == message_view(messages@[i as int]));
            assert(s@ =~= before + llama3_turn(m.role@, m.content@));
        }
        i = i + 1;
    }
    s.append("<|start_header_id|>assistant<|end_header_id|>\n\n");
    assert(ms.take(messages@.len() as int) =~= ms);
    s
}

/// What `String::from_utf8_lossy` gives for a byte sequence (invalid
/// sequences become U+FFFD).
pub uninterp spec fn utf8_lossy(bytes: Seq<u8>) -> Seq<char>;

/// Decodes bytes as UTF-8, replacing invalid sequences (`String::from_utf8_lossy`).
#[verifier::external_body]
fn decode_lossy(bytes: &[u8]) -> (r: String)
    ensures
        r@ == utf8_lossy(bytes@),
{
    String::from_utf8_lossy(bytes).into_owned()
}

/// Index of the first `'\n'` in `s`.
pub open spec fn first_newline(s: Seq<char>) -> Option<int>
    decreases s.len(),
{
    if s.len() == 0 {
        None
    } else if s[0] == '\n' {
        Some(0)
    } else {
        match first_newline(s.drop_first()) {
            Some(k) => Some(k + 1),
            None => None,
        }
    }
}

proof fn lemma_first_newline(s: Seq<char>)
    ensures
        match first_newline(s) {
            Some(k) => 0 <= k < s.len() && s[k] == '\n' && forall|j: int| 0 <= j < k ==> s[j] != '\n',
            None => forall|j: int| 0 <= j < s.len() ==> s[j] != '\n',
        },
    decreases s.len(),
{
    if s.len() > 0 && s[0] != '\n' {
        lemma_first_newline(s.drop_first());
        assert forall|j: int| 0 < j < s.len() implies s[j] == s.drop_first()[j - 1] by {}
    }
}

/// The payload of a `data:` line (trimmed), if the line is one.
pub open spec fn data_payload(line: Seq<char>) -> Option<Seq<char>> {
    let t = trim(line);
    if t.len() >= 5 && t.take(5) == "data:"@ {
        Some(trim(t.skip(5)))
    } else {
        None
    }
}

/// Processes the complete lines at the front of `buf`: returns the payloads of
/// its `data:` lines in order and what is left unread. A `[DONE]` payload ends
/// the processing (it is not returned); the lines after it stay in the buffer.
pub open spec fn frame(buf: Seq<char>) -> (Seq<Seq<char>>, Seq<char>)
    decreases buf.len()
    via frame_decreases
{
    match first_newline(buf) {
        None => (Seq::empty(), buf),
        Some(nl) => {
            let rest = buf.skip(nl + 1);
            match data_payload(buf.take(nl)) {
                None => frame(rest),
                Some(d) => if d == "[DONE]"@ {
                    (Seq::empty(), rest)
                } else {
                    let (p, r) = frame(rest);
                    (seq![d] + p, r)
                },
            }
        },
    }
}

#[via_fn]
proof fn frame_decreases(buf: Seq<char>) {
    lemma_first_newline(buf);
}

/// Line buffer of a streamed chat reply.
pub struct SseBuffer {
    buffer: Vec<char>,
}

impl SseBuffer {
    /// Text received but not yet consumed as complete lines.
    pub closed spec fn pending(&self) -> Seq<char> {
        self.buffer@
    }

    /// An empty buffer.
    pub fn new() -> (r: Self)
        ensures
            r.pending() == Seq::<char>::empty(),
    {
        SseBuffer { buffer: Vec::new() }
    }

    /// Appends a received chunk (decoded lossily as UTF-8) and returns the
    /// `data:` payloads of the lines now complete, in order, up to a `[DONE]`.
    pub fn push_chunk(&mut self, chunk: &[u8]) -> (r: Vec<String>)
        ensures
            r@.map_values(|s: String| s@) == frame(old(self).pending() + utf8_lossy(chunk@)).0,
            final(self).pending() == frame(old(self).pending() + utf8_lossy(chunk@)).1,
    {
        let text = decode_lossy(chunk);
        self.push_text(text.as_str())
    }

    /// Appends received text and returns the `data:` payloads of the lines
    /// now complete, in order, up to a `[DONE]`.
    pub fn push_text(&mut self, text: &str) -> (r: Vec<String>)
        ensures
            r@.map_values(|s: String| s@) == frame(old(self).pending() + text@).0,
            final(self).pending() == frame(old(self).pending() + text@).1,
    {
        let tv = to_chars(text);
        let mut buf: Vec<char> = Vec::new();
        let mut k: usize = 0;
        while k < self.buffer.len()
            invariant
                k <= self.buffer@.len(),
                buf@ == self.buffer@.take(k as int),
            decreases self.buffer@.len() - k,
        {
            buf.push(self.buffer[k]);
            k = k + 1;
            assert(buf@ =~= self.buffer@.take(k as int));
        }
        let mut k: usize = 0;
        let ghost base = buf@;
        while k < tv.len()
            invariant
                k <= tv@.len(),
                buf@ == base + tv@.take(k as int),
            decreases tv@.len() - k,
        {
            buf.push(tv[k]);
            k = k + 1;
            assert(buf@ =~= base + tv@.take(k as int));
        }
        proof {
            assert(self.buffer@.take(self.buffer@.len() as int) =~= self.buffer@);
            assert(tv@.take(tv@.len() as int) =~= tv@);
        }
        let ghost whole = buf@;
        let mut out: Vec<String> = Vec::new();
        let mut start: usize = 0;
        let data_prefix = to_chars("data:");
        let done = to_chars("[DONE]");
        proof {
            reveal_strlit("data:");
            assert(buf@.skip(0) =~= buf@);
            assert(out@.map_values(|s: String| s@) =~= Seq::<Seq<char>>::empty());
            let (p, r) = frame(buf@.skip(0));
            assert(Seq::<Seq<char>>::empty() + p =~= p);
        }
        loop
            invariant
                whole == old(self).pending() + text@,
                buf@ == whole,
                data_prefix@ == "data:"@,
                data_prefix@.len() == 5,
                done@ == "[DONE]"@,
                start <= buf@.len(),
                frame(whole) == ({
                    let (p, r) = frame(buf@.skip(start as int));
                    (out@.map_values(|s: String| s@) + p, r)
                }),
            decreases buf@.len() - start,
        {
            let ghost cur = buf@.skip(start as int);
            proof {
                lemma_first_newline(cur);
            }
            let mut nl: usize = start;
            while nl < buf.len() && buf[nl] != '\n'
                invariant
                    start <= nl <= buf@.len(),
                    cur == buf@.skip(start as int),
                    forall|j: int| start <= j < nl ==> buf@[j] != '\n',
                decreases buf@.len() - nl,
            {
                nl = nl + 1;
            }
            if nl == buf.len() {
                proof {
                    assert(first_newline(cur) is None) by {
                        match first_newline(cur) {
                            Some(k) => {
                                assert(cur[k] == buf@[start + k]);
                            },
                            None => {},
                        }
                    }
                }
                let rest = crate::text::from_chars_range(&buf, start, buf.len());
                self.buffer = to_chars(rest.as_str());
                proof {
                    assert(out@.map_values(|s: String| s@) + Seq::<Seq<char>>::empty() =~= out@.map_values(|s: String| s@));
                }
                return out;
            }
            proof {
                assert(first_newline(cur) == Some(nl - start)) by {
                    match first_newline(cur) {
                        Some(k) => {
                            assert(cur[k] == buf@[start + k]);
                            assert(cur[nl - start] == buf@[nl as int]);
                            if k < nl - start {
                            } else if k > nl - start {
                            }
                        },
                        None => {
                            assert(cur[nl - start] == buf@[nl as int]);
                        },
                    }
                }
                assert(cur.take(nl - start) =~= buf@.subrange(start as int, nl as int));
                assert(cur.skip(nl - start + 1) =~= buf@.skip(nl + 1));
            }
            let raw: Vec<char> = crate::text::vec_slice(&buf, start, nl);
            let line = trim_chars(&raw);
            let next = nl + 1;
            if line.len() >= 5 && starts_with_five(&line, &data_prefix) {
                let tail = crate::text::vec_slice(&line, 5, line.len());
                let data = trim_chars(&tail);
                proof {
                    assert(line@.take(5) =~= "data:"@);
                    assert(tail@ =~= line@.skip(5));
                }
                if same_chars(&data, &done) {
                    let rest = crate::text::from_chars_range(&buf, next, buf.len());
                    self.buffer = to_chars(rest.as_str());
                    proof {
                        assert(out@.map_values(|s: String| s@) + Seq::<Seq<char>>::empty() =~= out@.map_values(|s: String| s@));
                    }
                    return out;
                }
                let ghost before = out@.map_values(|s: String| s@);
                out.push(crate::text::from_chars(&data));
                proof {
                    assert(out@.map_values(|s: String| s@) =~= before.push(data@));
                    let (p, r) = frame(buf@.skip(next as int));
                    assert(before + (seq![data@] + p) =~= before.push(data@) + p);
                }
            } else {
                proof {
                    assert(!(line@.len() >= 5 && line@.take(5) == "data:"@)) by {
                        if line@.len() >= 5 && line@.take(5) == "data:"@ {
                            assert(line@[0] == data_prefix@[0]);
                        }
                    }
                }
            }
            start = next;
        }
    }
}

fn starts_with_five(line: &Vec<char>, prefix: &Vec<char>) -> (r: bool)
    requires
        line@.len() >= 5,
        prefix@.len() == 5,
    ensures
        r == (line@.take(5) == prefix@),
{
    let mut i: usize = 0;
    while i < 5
        invariant
            line@.len() >= 5,
            prefix@.len() == 5,
            i <= 5,
            forall|j: int| 0 <= j < i ==> line@[j] == prefix@[j],
        decreases 5 - i,
    {
        if line[i] != prefix[i] {
            assert(line@.take(5)[i as int] != prefix@[i as int]);
            return false;
        }
        i = i + 1;
    }
    assert(line@.take(5) =~= prefix@);
    true
}

fn same_chars(a: &Vec<char>, b: &Vec<char>) -> (r: bool)
    ensures
        r == (a@ == b@),
{
    if a.len() != b.len() {
        return false;
    }
    let mut i: usize = 0;
    while i < a.len()
        invariant
            a@.len() == b@.len(),
            i <= a@.len(),
            forall|j: int| 0 <= j < i ==> a@[j] == b@[j],
        decreases a@.len() - i,
    {
        if a[i] != b[i] {
            return false;
        }
        i = i + 1;
    }
    assert(a@ =~= b@);
    true
}

} // verus!

verus! {

/// Stop sequences of the native completion fallback.
pub fn native_stop_tokens() -> (r: Vec<&'static str>)
    ensures
        r@.map_values(|s: &'static str| s@) == seq!["<|eot_id|>"@, "<|eom_id|>"@, "<|im_end|>"@],
{
    let v: Vec<&'static str> = vec!["<|eot_id|>", "<|eom_id|>", "<|im_end|>"];
    assert(v@.map_values(|s: &'static str| s@) =~= seq!["<|eot_id|>"@, "<|eom_id|>"@, "<|im_end|>"@]);
    v
}

/// The model id the chat server reports: the first entry of its llama.cpp
/// `models` list, else the first of its OpenAI `data` list.
pub fn reported_model_id(first_model: Option<String>, first_data_id: Option<String>) -> (r: Option<String>)
    ensures
        r == match first_model {
            Some(m) => Some(m),
            None => first_data_id,
        },
{
    match first_model {
        Some(m) => Some(m),
        None => first_data_id,
    }
}

/// Which model id chat requests name: the one discovered from the server
/// (kept until a request fails), else the fallback alias.
pub struct ModelIdCache {
    discovered: Option<String>,
    fallback_alias: String,
}

impl ModelIdCache {
    /// The cached discovered id.
    pub closed spec fn discovered_spec(&self) -> Option<Seq<char>> {
        match self.discovered {
            Some(d) => Some(d@),
            None => None,
        }
    }

    /// The alias used when nothing was discovered.
    pub closed spec fn alias(&self) -> Seq<char> {
        self.fallback_alias@
    }

    /// Nothing discovered yet.
    pub fn new(fallback_alias: String) -> (r: Self)
        ensures
            r.discovered_spec() is None,
            r.alias() == fallback_alias@,
    {
        ModelIdCache { discovered: None, fallback_alias }
    }

    /// The cached id, if any: when it is `None` the caller asks the server
    /// and hands the answer to [`Self::resolve`].
    pub fn cached(&self) -> (r: Option<String>)
        ensures
            match self.discovered_spec() {
                Some(d) => r is Some && r.unwrap()@ == d,
                None => r is None,
            },
    {
        match &self.discovered {
            Some(d) => Some(d.clone()),
            None => None,
        }
    }

    /// The id to use: the cached one; else `discovered` (which is then
    /// cached); else the fallback alias.
    pub fn resolve(&mut self, discovered: Option<String>) -> (r: String)
        ensures
            final(self).alias() == old(self).alias(),
            match old(self).discovered_spec() {
                Some(d) => r@ == d && final(self).discovered_spec() == old(self).discovered_spec(),
                None => match discovered {
                    Some(n) => r@ == n@ && final(self).discovered_spec() == Some(n@),
                    None => r@ == old(self).alias() && final(self).discovered_spec() is None,
                },
            },
    {
        if let Some(d) = &self.discovered {
            return d.clone();
        }
        match discovered {
            Some(n) => {
                let r = n.clone();
                self.discovered = Some(n);
                r
            },
            None => self.fallback_alias.clone(),
        }
    }

    /// Decides how a streamed chat request goes on from its HTTP status (see
    /// [`chat_start`]); a failure forgets the discovered id, so the next
    /// request asks the server again.
    pub fn on_status(&mut self, status: u16) -> (r: ChatStart)
        ensures
            r == chat_start(status),
            final(self).alias() == old(self).alias(),
            r == ChatStart::Failed ==> final(self).discovered_spec() is None,
            r != ChatStart::Failed ==> final(self).discovered_spec() == old(self).discovered_spec(),
    {
        let r = chat_start_of(status);
        if r == ChatStart::Failed {
            self.discovered = None;
        }
        r
    }

    /// Forgets the discovered id after a failed request.
    pub fn forget(&mut self)
        ensures
            final(self).discovered_spec() is None,
            final(self).alias() == old(self).alias(),
    {
        self.discovered = None;
    }

    /// The model id shown in the status view (the fallback alias).
    pub fn model_id(&self) -> (r: &str)
        ensures
            r@ == self.alias(),
    {
        self.fallback_alias.as_str()
    }
}

/// Whether framing `buf` stops at a `[DONE]` payload.
pub open spec fn hits_done(buf: Seq<char>) -> bool
    decreases buf.len()
    via hits_done_decreases
{
    match first_newline(buf) {
        None => false,
        Some(nl) => {
            let rest = buf.skip(nl + 1);
            match data_payload(buf.take(nl)) {
                None => hits_done(rest),
                Some(d) => if d == "[DONE]"@ {
                    true
                } else {
                    hits_done(rest)
                },
            }
        },
    }
}

#[via_fn]
proof fn hits_done_decreases(buf: Seq<char>) {
    lemma_first_newline(buf);
}

proof fn lemma_first_newline_append(x: Seq<char>, b: Seq<char>)
    ensures
        first_newline(x) matches Some(k) ==> first_newline(x + b) == Some(k),
        first_newline(x) is None ==> match first_newline(x + b) {
            Some(k) => k >= x.len(),
            None => true,
        },
    decreases x.len(),
{
    if x.len() > 0 {
        assert((x + b)[0] == x[0]);
        if x[0] != '\n' {
            lemma_first_newline_append(x.drop_first(), b);
            assert((x + b).drop_first() =~= x.drop_first() + b);
        }
    } else {
        assert(x + b =~= b);
        lemma_first_newline(b);
    }
}

/// Chunk boundaries do not matter: until a `[DONE]` payload, framing a
/// stream received as `x` then `b` gives the same payloads, in the same
/// order, and leaves the same unread text as framing `x + b` at once.
pub proof fn law_framing_ignores_chunk_boundaries(x: Seq<char>, b: Seq<char>)
    requires
        !hits_done(x),
    ensures
        frame(x).0 + frame(frame(x).1 + b).0 == frame(x + b).0,
        frame(frame(x).1 + b).1 == frame(x + b).1,
    decreases x.len(),
{
    lemma_first_newline(x);
    lemma_first_newline_append(x, b);
    match first_newline(x) {
        None => {
            assert(frame(x).0 =~= Seq::<Seq<char>>::empty());
            assert(Seq::<Seq<char>>::empty() + frame(x + b).0 =~= frame(x + b).0);
        },
        Some(nl) => {
            let rest = x.skip(nl + 1);
            assert((x + b).take(nl) =~= x.take(nl));
            assert((x + b).skip(nl + 1) =~= rest + b);
            law_framing_ignores_chunk_boundaries(rest, b);
            match data_payload(x.take(nl)) {
                None => {},
                Some(d) => {
                    let (p, r) = frame(rest);
                    let (p2, r2) = frame(r + b);
                    assert(seq![d] + p + p2 =~= seq![d] + (p + p2));
                },
            }
        },
    }
}

/// How a chat request goes on after the server's status line.
#[derive(Debug, Clone, Copy, PartialEq, Eq, Structural)]
pub enum ChatStart {
    /// 404: the route is missing; fall back to the native completion endpoint.
    Fallback,
    /// Success: read the reply.
    Proceed,
    /// Any other status: the request failed.
    Failed,
}

/// The decision for an HTTP status.
pub open spec fn chat_start(status: u16) -> ChatStart {
    if status == 404 {
        ChatStart::Fallback
    } else if 200 <= status <= 299 {
        ChatStart::Proceed
    } else {
        ChatStart::Failed
    }
}

/// The decision for an HTTP status (see [`chat_start`]).
pub fn chat_start_of(status: u16) -> (r: ChatStart)
    ensures
        r == chat_start(status),
{
    if status == 404 {
        ChatStart::Fallback
    } else if 200 <= status && status <= 299 {
        ChatStart::Proceed
    } else {
        ChatStart::Failed
    }
}

/// The first 200 characters of a response body, shown in error messages.
pub fn body_excerpt(body: &str) -> (r: String)
    ensures
        r@ == body@.take(if body@.len() < 200 { body@.len() as int } else { 200 }),
{
    let v = to_chars(body);
    let n = if v.len() < 200 {
        v.len()
    } else {
        200
    };
    let r = crate::text::from_chars_range(&v, 0, n);
    assert(v@.subrange(0, n as int) =~= body@.take(n as int));
    r
}

/// Error of a failed chat request: `model='{model}' → {status} — {excerpt}`.
pub fn chat_error_message(model: &str, status: &str, excerpt: &str) -> (r: String)
    ensures
        r@ == "model='"@ + model@ + "' → "@ + status@ + " — "@ + excerpt@,
{
    let mut s = crate::text::concat3("model='", model, "' → ");
    s.append(status);
    s.append(" — ");
    s.append(excerpt);
    s
}

/// The reply text gathered from the streamed tokens.
pub struct ReplyText {
    content: String,
}

impl ReplyText {
    /// The text so far.
    pub closed spec fn text(&self) -> Seq<char> {
        self.content@
    }

    /// Nothing received yet.
    pub fn new() -> (r: Self)
        ensures
            r.text() == Seq::<char>::empty(),
    {
        ReplyText { content: String::new() }
    }

    /// Adds the token of one stream event, if it carried one.
    pub fn push_token(&mut self, token: Option<&str>)
        ensures
            final(self).text() == match token {
                Some(t) => old(self).text() + t@,
                None => old(self).text(),
            },
    {
        if let Some(t) = token {
            self.content.append(t);
        }
    }

    /// The full reply.
    pub fn into_string(self) -> (r: String)
        ensures
            r@ == self.text(),
    {
        self.content
    }
}

/// Every message is formatted, in order: the prompt opens with
/// `<|begin_of_text|>`, ends with an open assistant header, and the prompt of
/// the messages plus one more is the prompt of the messages with that
/// message's turn inserted just before the assistant header.
pub proof fn law_llama3_prompt_formats_every_message(ms: Seq<(Seq<char>, Seq<char>)>, m: (Seq<char>, Seq<char>))
    ensures
        llama3_prompt(ms).take(17) == "<|begin_of_text|>"@,
        llama3_prompt(ms).len() == 17 + llama3_turns(ms).len() + 47,
        llama3_prompt(ms).skip(llama3_prompt(ms).len() - 47)
            == "<|start_header_id|>assistant<|end_header_id|>\n\n"@,
        llama3_prompt(ms.push(m)) == llama3_prompt(ms).take(llama3_prompt(ms).len() - 47)
            + llama3_turn(m.0, m.1) + "<|start_header_id|>assistant<|end_header_id|>\n\n"@,
{
    reveal_strlit("<|begin_of_text|>");
    reveal_strlit("<|start_header_id|>assistant<|end_header_id|>\n\n");
    let b = "<|begin_of_text|>"@;
    let h = "<|start_header_id|>assistant<|end_header_id|>\n\n"@;
    assert(b.len() == 17);
    assert(h.len() == 47);
    let p = llama3_prompt(ms);
    assert(p == b + llama3_turns(ms) + h);
    assert(p.take(17) =~= b);
    assert(p.skip(p.len() - 47) =~= h);
    assert(ms.push(m).drop_last() =~= ms);
    assert(llama3_turns(ms.push(m)) == llama3_turns(ms) + llama3_turn(m.0, m.1));
    assert(p.take(p.len() - 47) =~= b + llama3_turns(ms));
    assert(llama3_prompt(ms.push(m)) =~= p.take(p.len() - 47) + llama3_turn(m.0, m.1) + h);
}

} // verus!
