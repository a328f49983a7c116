//! Status types shared by the scheduler and the UI, the bounded debug event
//! log, sidecar health classification and its debouncing, and GGUF filename
//! parsing.

use vstd::prelude::*;

verus! {

/// A message the model deferred for later delivery.
/// `fire_at` is in Unix milliseconds (UTC).
#[derive(Debug)]
pub struct DeferredMessage {
    pub id: String,
    pub message: String,
    pub trigger: String,
    pub fire_at: i64,
}

impl DeferredMessage {
    /// A field-for-field copy.
    pub fn duplicate(&self) -> (r: Self)
        ensures
            r == *self,
    {
        DeferredMessage {
            id: self.id.clone(),
            message: self.message.clone(),
            trigger: self.trigger.clone(),
            fire_at: self.fire_at,
        }
    }
}

/// Snapshot of the scheduler for the status view.
#[derive(Debug)]
pub struct SchedulerState {
    pub pending: Vec<DeferredMessage>,
    pub last_fired: Option<DeferredMessage>,
}

} // verus!

verus! {

/// Health of one sidecar as shown in the status view.
#[derive(Debug, Clone, Copy, PartialEq, Eq, Structural)]
pub struct SidecarHealth {
    pub alive: bool,
    pub port: u16,
    pub pid: Option<u32>,
    pub uptime_secs: u64,
    pub last_latency_ms: u64,
    pub last_status_code: u16,
}

/// Voice activity.
#[derive(Debug, Clone, Copy, PartialEq, Eq, Structural)]
pub enum VadState {
    Silent,
    Active,
}

/// One entry of the debug event log; `timestamp` is in Unix milliseconds.
#[derive(Debug)]
pub struct DebugEvent {
    pub timestamp: i64,
    /// Component tag: `[MEMORY]`, `[AUDIO]`, `[SCHEDULER]`, `[ADAPTER]`, `[ORCHESTRATOR]`, ...
    pub component: String,
    pub message: String,
}

impl DebugEvent {
    /// A field-for-field copy.
    pub fn duplicate(&self) -> (r: Self)
        ensures
            r == *self,
    {
        DebugEvent {
            timestamp: self.timestamp,
            component: self.component.clone(),
            message: self.message.clone(),
        }
    }
}

/// Capacity of the debug event log.
pub const MAX_EVENT_LOG: usize = 500usize;

/// Bounded log of debug events, oldest first: once full, each new event
/// evicts the oldest.
pub struct EventLog {
    events: Vec<DebugEvent>,
}

/// The log after appending `e` to `events`.
pub open spec fn log_after_push(events: Seq<DebugEvent>, e: DebugEvent) -> Seq<DebugEvent> {
    if events.len() >= MAX_EVENT_LOG {
        events.skip(events.len() - MAX_EVENT_LOG + 1).push(e)
    } else {
        events.push(e)
    }
}

/// The newest `n` events, newest first.
pub open spec fn newest_first(events: Seq<DebugEvent>, n: int) -> Seq<DebugEvent> {
    let k = if n < events.len() {
        n
    } else {
        events.len() as int
    };
    Seq::new(k as nat, |i: int| events[events.len() - 1 - i])
}

/// How many events a listing returns: the limit asked for (100 by default), at most 500.
pub open spec fn listing_size(limit: Option<usize>) -> int {
    let n = match limit {
        Some(l) => l as int,
        None => 100,
    };
    if n < 500 {
        n
    } else {
        500
    }
}

impl EventLog {
    /// The events, oldest first.
    pub closed spec fn events(&self) -> Seq<DebugEvent> {
        self.events@
    }

    /// Whether the log is within its capacity.
    pub open spec fn wf(&self) -> bool {
        self.events().len() <= MAX_EVENT_LOG
    }

    /// An empty log.
    pub fn new() -> (r: Self)
        ensures
            r.events() == Seq::<DebugEvent>::empty(),
            r.wf(),
    {
        EventLog { events: Vec::new() }
    }

    /// Appends `e`, evicting the oldest event when the log is full.
    pub fn push(&mut self, e: DebugEvent)
        requires
            old(self).wf(),
        ensures
            final(self).events() == log_after_push(old(self).events(), e),
            final(self).wf(),
    {
        let ghost before = self.events@;
        if self.events.len() >= MAX_EVENT_LOG {
            self.events.remove(0);
            assert(self.events@ =~= before.skip(before.len() - MAX_EVENT_LOG + 1));
        }
        self.events.push(e);
    }

    /// Appends an event stamped with the current time.
    pub fn push_event(&mut self, component: &str, message: String)
        requires
            old(self).wf(),
        ensures
            final(self).wf(),
            final(self).events().len() >= 1,
            final(self).events().last().component@ == component@,
            final(self).events().last().message@ == message@,
            exists|t: i64|
                final(self).events() == log_after_push(
                    old(self).events(),
                    DebugEvent { timestamp: t, component: final(self).events().last().component, message },
                ),
    {
        let now = crate::clock::now_millis();
        let e = DebugEvent { timestamp: now, component: crate::text::owned(component), message };
        self.push(e);
    }

    /// The newest events, newest first: as many as `limit` asks (100 by
    /// default, at most 500).
    pub fn recent(&self, limit: Option<usize>) -> (r: Vec<DebugEvent>)
        ensures
            r@ == newest_first(self.events(), listing_size(limit)),
    {
        let n: usize = match limit {
            Some(l) => if l < 500 {
                l
            } else {
                500
            },
            None => 100,
        };
        let len = self.events.len();
        let k = if n < len {
            n
        } else {
            len
        };
        let mut out: Vec<DebugEvent> = Vec::new();
        let mut i: usize = 0;
        while i < k
            invariant
                k <= len == self.events@.len(),
                i <= k,
                out@.len() == i,
                forall|j: int| 0 <= j < i ==> out@[j] == self.events@[len - 1 - j],
            decreases k - i,
        {
            out.push(self.events[len - 1 - i].duplicate());
            i = i + 1;
        }
        assert(out@ =~= newest_first(self.events(), listing_size(limit)));
        out
    }
}

/// The log never holds more than 500 events, and after a push the newest
/// event is the one pushed, preceded by the previous events (the oldest one
/// dropped when the log was full).
pub proof fn law_event_log_bounded(events: Seq<DebugEvent>, e: DebugEvent)
    requires
        events.len() <= MAX_EVENT_LOG,
    ensures
        log_after_push(events, e).len() <= MAX_EVENT_LOG,
        log_after_push(events, e).last() == e,
        events.len() < MAX_EVENT_LOG ==> log_after_push(events, e).drop_last() == events,
        events.len() == MAX_EVENT_LOG ==> log_after_push(events, e).drop_last() == events.drop_first(),
{
    if events.len() == MAX_EVENT_LOG {
        assert(log_after_push(events, e).drop_last() =~= events.drop_first());
    } else {
        assert(log_after_push(events, e).drop_last() =~= events);
    }
}

/// State of a sidecar from its health endpoint.
#[derive(Debug, Clone, Copy, PartialEq, Eq, Structural)]
pub enum SidecarState {
    Online,
    /// Up, but still loading its model (503 with "loading" in the body).
    Loading,
    Offline,
}

impl SidecarState {
    /// Only an online sidecar is alive.
    pub fn is_alive(&self) -> (r: bool)
        ensures
            r == (*self == SidecarState::Online),
    {
        match self {
            SidecarState::Online => true,
            _ => false,
        }
    }

    /// The state's name for the frontend.
    pub fn as_str(&self) -> (r: &'static str)
        ensures
            r@ == match *self {
                SidecarState::Online => "online"@,
                SidecarState::Loading => "loading"@,
                SidecarState::Offline => "offline"@,
            },
    {
        match self {
            SidecarState::Online => "online",
            SidecarState::Loading => "loading",
            SidecarState::Offline => "offline",
        }
    }
}

/// State from a health probe: `status` is the HTTP status (`None` when the
/// request failed) and `body` the response body (read only on 503).
pub open spec fn health_state(status: Option<u16>, body: Seq<char>) -> SidecarState {
    match status {
        None => SidecarState::Offline,
        Some(s) => if 200 <= s <= 299 {
            SidecarState::Online
        } else if s == 503 && crate::text::contains_seq(body, "loading"@) {
            SidecarState::Loading
        } else {
            SidecarState::Offline
        },
    }
}

/// Classifies a health probe (see [`health_state`]).
pub fn classify_health(status: Option<u16>, body: &str) -> (r: SidecarState)
    ensures
        r == health_state(status, body@),
{
    match status {
        None => SidecarState::Offline,
        Some(s) => if 200 <= s && s <= 299 {
            SidecarState::Online
        } else if s == 503 && crate::text::contains_chars(
            &crate::text::to_chars(body),
            &crate::text::to_chars("loading"),
        ) {
            SidecarState::Loading
        } else {
            SidecarState::Offline
        },
    }
}

/// Debounced state of one sidecar: a state is committed once two
/// consecutive polls agree on it.
#[derive(Debug)]
pub struct SidecarDebounce {
    committed: Option<SidecarState>,
    candidate: Option<SidecarState>,
    count: u8,
}

impl SidecarDebounce {
    /// The last committed state.
    pub closed spec fn committed_spec(&self) -> Option<SidecarState> {
        self.committed
    }

    /// The state the recent polls agree on.
    pub closed spec fn candidate_spec(&self) -> Option<SidecarState> {
        self.candidate
    }

    /// How many consecutive polls agree on the candidate (saturating).
    pub closed spec fn streak(&self) -> u8 {
        self.count
    }

    /// Nothing observed yet.
    pub fn new() -> (r: Self)
        ensures
            r.committed_spec() is None,
            r.candidate_spec() is None,
            r.streak() == 0,
    {
        SidecarDebounce { committed: None, candidate: None, count: 0 }
    }

    /// Records one poll. Returns the state when it is newly committed (the
    /// transition to log), `None` otherwise.
    pub fn observe(&mut self, state: SidecarState) -> (r: Option<SidecarState>)
        ensures
            final(self).candidate_spec() == Some(state),
            final(self).streak() == (if old(self).candidate_spec() == Some(state) {
                if old(self).streak() == 255 {
                    255
                } else {
                    old(self).streak() + 1
                }
            } else {
                1
            }),
            r == (if final(self).streak() >= 2 && old(self).committed_spec() != Some(state) {
                Some(state)
            } else {
                None
            }),
            final(self).committed_spec() == (if r is Some {
                Some(state)
            } else {
                old(self).committed_spec()
            }),
    {
        let same = match self.candidate {
            Some(c) => c == state,
            None => false,
        };
        if same {
            self.count = if self.count == 255 {
                255
            } else {
                self.count + 1
            };
        } else {
            self.candidate = Some(state);
            self.count = 1;
        }
        let differs = match self.committed {
            Some(c) => c != state,
            None => true,
        };
        if self.count >= 2 && differs {
            self.committed = Some(state);
            Some(state)
        } else {
            None
        }
    }
}

} // verus!

verus! {

/// Quantization tags recognised in GGUF file names, in the order tried.
pub open spec fn quant_tags() -> Seq<Seq<char>> {
    seq!["Q8_0"@, "Q6_K"@, "Q5_K_M"@, "Q5_K_S"@, "Q4_K_M"@, "Q4_K_S"@, "Q4_0"@, "Q3_K_M"@]
}

/// Parameter-count tags recognised in GGUF file names, in the order tried.
pub open spec fn param_tags() -> Seq<Seq<char>> {
    seq!["405B"@, "236B"@, "70B"@, "34B"@, "13B"@, "8B"@, "7B"@, "3B"@, "1B"@]
}

/// The first tag (from index `from`) contained in `upper`, else `fallback`.
pub open spec fn first_tag(tags: Seq<Seq<char>>, upper: Seq<char>, from: int, fallback: Seq<char>) -> Seq<char>
    decreases tags.len() - from,
{
    if from < 0 || from >= tags.len() {
        fallback
    } else if crate::text::contains_seq(upper, tags[from]) {
        tags[from]
    } else {
        first_tag(tags, upper, from + 1, fallback)
    }
}

fn pick_tag(tags: &Vec<&'static str>, upper: &Vec<char>, fallback: &'static str, ghost_tags: Ghost<Seq<Seq<char>>>) -> (r: String)
    requires
        tags@.len() == ghost_tags@.len(),
        forall|k: int| 0 <= k < tags@.len() ==> (#[trigger] tags@[k])@ == ghost_tags@[k],
    ensures
        r@ == first_tag(ghost_tags@, upper@, 0, fallback@),
{
    let mut i: usize = 0;
    while i < tags.len()
        invariant
            tags@.len() == ghost_tags@.len(),
            forall|k: int| 0 <= k < tags@.len() ==> (#[trigger] tags@[k])@ == ghost_tags@[k],
            i <= tags@.len(),
            first_tag(ghost_tags@, upper@, i as int, fallback@) == first_tag(ghost_tags@, upper@, 0, fallback@),
        decreases tags@.len() - i,
    {
        let t = crate::text::to_chars(tags[i]);
        if crate::text::contains_chars(upper, &t) {
            return crate::text::owned(tags[i]);
        }
        i = i + 1;
    }
    crate::text::owned(fallback)
}

/// Quantization and parameter count read from an uppercased GGUF file name:
/// the first known tag each contains, else `UNKNOWN` / `?B`.
pub fn parse_upper_filename(upper: &str) -> (r: (String, String))
    ensures
        r.0@ == first_tag(quant_tags(), upper@, 0, "UNKNOWN"@),
        r.1@ == first_tag(param_tags(), upper@, 0, "?B"@),
{
    let u = crate::text::to_chars(upper);
    let q: Vec<&'static str> = vec!["Q8_0", "Q6_K", "Q5_K_M", "Q5_K_S", "Q4_K_M", "Q4_K_S", "Q4_0", "Q3_K_M"];
    let p: Vec<&'static str> = vec!["405B", "236B", "70B", "34B", "13B", "8B", "7B", "3B", "1B"];
    assert(q@.len() == quant_tags().len());
    assert(p@.len() == param_tags().len());
    let quant = pick_tag(&q, &u, "UNKNOWN", Ghost(quant_tags()));
    let param = pick_tag(&p, &u, "?B", Ghost(param_tags()));
    (quant, param)
}

/// A GGUF model file as listed for the model picker.
#[derive(Debug)]
pub struct ModelInfo {
    pub filename: String,
    /// Parsed from the file name: Q4_K_M, Q5_K_S, ...
    pub quant_type: String,
    /// Parsed from the file name: 7B, 13B, 70B, ...
    pub param_count: String,
    pub file_size_bytes: u64,
    /// Last modification, Unix seconds.
    pub last_modified: i64,
}

impl ModelInfo {
    /// Best-effort quantization and parameter count of a GGUF file name
    /// (matched case-insensitively through its uppercase form).
    pub fn parse_filename(filename: &str) -> (r: (String, String))
        ensures
            r.0@ == first_tag(quant_tags(), crate::text::uppercase(filename@), 0, "UNKNOWN"@),
            r.1@ == first_tag(param_tags(), crate::text::uppercase(filename@), 0, "?B"@),
    {
        let upper = crate::text::to_upper(filename);
        parse_upper_filename(upper.as_str())
    }

    /// A model entry with its tags parsed from `filename`.
    pub fn describe(filename: String, file_size_bytes: u64, last_modified: i64) -> (r: Self)
        ensures
            r.filename@ == filename@,
            r.quant_type@ == first_tag(quant_tags(), crate::text::uppercase(filename@), 0, "UNKNOWN"@),
            r.param_count@ == first_tag(param_tags(), crate::text::uppercase(filename@), 0, "?B"@),
            r.file_size_bytes == file_size_bytes,
            r.last_modified == last_modified,
    {
        let (quant_type, param_count) = Self::parse_filename(filename.as_str());
        ModelInfo { filename, quant_type, param_count, file_size_bytes, last_modified }
    }
}

} // verus!

verus! {

/// The sidecars the monitor polls: the chat server and the embedding server
/// (speech-to-text runs in-process and has no port).
pub fn monitored_sidecars(llama_port: u16, embed_port: u16) -> (r: Vec<(&'static str, u16)>)
    ensures
        r@.len() == 2,
        r@[0].0@ == "llama"@ && r@[0].1 == llama_port,
        r@[1].0@ == "embed"@ && r@[1].1 == embed_port,
{
    let mut v: Vec<(&'static str, u16)> = Vec::new();
    v.push(("llama", llama_port));
    v.push(("embed", embed_port));
    v
}

/// Log line for a committed state change of sidecar `name`.
pub open spec fn transition_text(name: Seq<char>, port: u16, state: SidecarState, latency_ms: u64) -> Seq<char> {
    "sidecar "@ + name + " :"@ + crate::text::decimal(port as nat) + match state {
        SidecarState::Online => " → online ("@ + crate::text::decimal(latency_ms as nat) + "ms)"@,
        SidecarState::Loading => " → loading model…"@,
        SidecarState::Offline => " → offline"@,
    }
}

/// The log line for a committed state change (see [`transition_text`]).
pub fn transition_message(name: &str, port: u16, state: SidecarState, latency_ms: u64) -> (r: String)
    ensures
        r@ == transition_text(name@, port, state, latency_ms),
{
    let mut s = crate::text::concat3("sidecar ", name, " :");
    crate::text::push_decimal(&mut s, port as u64);
    match state {
        SidecarState::Online => {
            s.append(" → online (");
            crate::text::push_decimal(&mut s, latency_ms);
            s.append("ms)");
        },
        SidecarState::Loading => {
            s.append(" → loading model…");
        },
        SidecarState::Offline => {
            s.append(" → offline");
        },
    }
    s
}

/// URL of a sidecar's health endpoint.
pub fn health_url(port: u16) -> (r: String)
    ensures
        r@ == "http://"@ + crate::constants::SIDECAR_HOST@ + ":"@ + crate::text::decimal(port as nat)
            + "/health"@,
{
    let mut s = crate::text::concat3("http://", crate::constants::SIDECAR_HOST, ":");
    crate::text::push_decimal(&mut s, port as u64);
    s.append("/health");
    s
}

} // verus!
