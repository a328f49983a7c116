//! The pure parts of the frontend commands: manual follow-up scheduling for
//! testing, memory search results, generation settings, the Visual C++
//! runtime installer, and the chat-server diagnostics.

use vstd::prelude::*;

use crate::audio::tts::signed_decimal;
use crate::clock::{representable_ms, MS_PER_MINUTE};
use crate::monitor::DeferredMessage;
use crate::orchestrator::defer::fire_time;
use crate::paths::{join, join_str};
use crate::text::{concat2, concat3, decimal, owned, push_char, push_decimal};

verus! {

fn push_signed(out: &mut String, n: i64)
    ensures
        final(out)@ == old(out)@ + signed_decimal(n as int),
{
    if n < 0 {
        push_char(out, '-');
        let ghost mid = out@;
        if n == i64::MIN {
            push_decimal(out, 9223372036854775808u64);
        } else {
            push_decimal(out, (-n) as u64);
        }
        assert(final(out)@ =~= old(out)@ + signed_decimal(n as int));
    } else {
        push_decimal(out, n as u64);
    }
}

/// Minutes until a manually scheduled follow-up fires (1 unless given).
pub open spec fn manual_minutes(after_minutes: Option<i64>) -> i64 {
    match after_minutes {
        Some(m) => m,
        None => 1,
    }
}

/// A follow-up scheduled by hand for testing the proactivity pipeline:
/// trigger `manual_test`, firing `after_minutes` (default 1) after `now`;
/// `None` when that instant cannot be represented.
pub fn manual_deferred(message: &str, after_minutes: Option<i64>, id: String, now: i64) -> (r: Option<DeferredMessage>)
    requires
        representable_ms(now as int),
    ensures
        r is Some <==> representable_ms(fire_time(now, manual_minutes(after_minutes))),
        r matches Some(d) ==> d.id@ == id@ && d.message@ == message@ && d.trigger@ == "manual_test"@
            && d.fire_at as int == fire_time(now, manual_minutes(after_minutes)),
{
    let mins: i64 = match after_minutes {
        Some(m) => m,
        None => 1,
    };
    if mins < -300000000000i64 || mins > 300000000000i64 {
        assert(!representable_ms(fire_time(now, mins))) by (nonlinear_arith)
            requires
                mins < -300000000000i64 || mins > 300000000000i64,
                representable_ms(now as int),
        ;
        return None;
    }
    assert(-18000000000000000 <= (mins as int) * 60000 <= 18000000000000000) by (nonlinear_arith)
        requires
            -300000000000 <= mins <= 300000000000,
    ;
    let fire = now as i128 + (mins as i128) * (MS_PER_MINUTE as i128);
    if fire < crate::clock::DATETIME_MIN_MS as i128 || fire > crate::clock::DATETIME_MAX_MS as i128 {
        return None;
    }
    Some(DeferredMessage {
        id,
        message: owned(message),
        trigger: owned("manual_test"),
        fire_at: fire as i64,
    })
}

/// Reply when a manual follow-up fired at once.
pub fn fired_reply(message: &str) -> (r: String)
    ensures
        r@ == "fired immediately: "@ + message@,
{
    concat2("fired immediately: ", message)
}

/// Reply when a manual follow-up was queued.
pub fn scheduled_reply(minutes: i64) -> (r: String)
    ensures
        r@ == "scheduled in "@ + signed_decimal(minutes as int)
            + " min — use 'Fire Now' in Scheduler panel or set after_minutes=0"@,
{
    let mut s = owned("scheduled in ");
    push_signed(&mut s, minutes);
    s.append(" min — use 'Fire Now' in Scheduler panel or set after_minutes=0");
    s
}

/// Error when firing an id that is not pending.
pub fn no_pending_error(id: &str) -> (r: String)
    ensures
        r@ == "no pending message with id "@ + id@,
{
    concat2("no pending message with id ", id)
}

/// Memory search results: episodic contents, then semantic facts.
pub fn merge_memories(episodic: Vec<String>, semantic: Vec<String>) -> (r: Vec<String>)
    ensures
        r@ == episodic@ + semantic@,
{
    let mut out = episodic;
    let mut s = semantic;
    out.append(&mut s);
    out
}

/// The context window setting: at least 512 tokens.
pub fn context_window_setting(requested: usize) -> (r: usize)
    ensures
        r == if requested < 512 {
            512
        } else {
            requested
        },
{
    if requested < 512 {
        512
    } else {
        requested
    }
}

/// Whether the Visual C++ installer succeeded (0, or 3010: reboot suggested).
pub fn installer_succeeded(code: Option<i32>) -> (r: bool)
    ensures
        r == (code == Some(0i32) || code == Some(3010i32)),
{
    match code {
        Some(c) => c == 0 || c == 3010,
        None => false,
    }
}

/// Error when the installer failed (`{:?}` of its exit code).
pub fn installer_error(code: Option<i32>) -> (r: String)
    ensures
        r@ == "installer exited with code "@ + match code {
            Some(c) => "Some("@ + signed_decimal(c as int) + ")"@,
            None => "None"@,
        },
{
    let mut s = owned("installer exited with code ");
    match code {
        Some(c) => {
            s.append("Some(");
            push_signed(&mut s, c as i64);
            s.append(")");
        },
        None => {
            s.append("None");
        },
    }
    s
}

/// Visual C++ runtime libraries copied next to the sidecars after install.
pub open spec fn vcredist_dlls() -> Seq<Seq<char>> {
    seq!["VCRUNTIME140.dll"@, "VCRUNTIME140_1.dll"@, "MSVCP140.dll"@, "MSVCP140_2.dll"@, "CONCRT140.dll"@]
}

/// The runtime library names (see [`vcredist_dlls`]).
pub fn vcredist_dll_names() -> (r: Vec<&'static str>)
    ensures
        r@.map_values(|s: &'static str| s@) == vcredist_dlls(),
{
    let v: Vec<&'static str> = vec!["VCRUNTIME140.dll", "VCRUNTIME140_1.dll", "MSVCP140.dll", "MSVCP140_2.dll", "CONCRT140.dll"];
    assert(v@.map_values(|s: &'static str| s@) =~= vcredist_dlls());
    v
}

/// Directories the runtime libraries are copied into (each when it exists):
/// the llama and whisper sidecar directories and the binaries root itself.
pub fn vcredist_targets(binaries_root: &str) -> (r: Vec<String>)
    ensures
        r@.len() == 3,
        r@[0]@ == join(binaries_root@, "llama"@),
        r@[1]@ == join(binaries_root@, "whisper"@),
        r@[2]@ == binaries_root@,
{
    let mut v: Vec<String> = Vec::new();
    v.push(join_str(binaries_root, "llama"));
    v.push(join_str(binaries_root, "whisper"));
    v.push(owned(binaries_root));
    v
}

/// One HTTP request of the chat-server diagnosis.
#[derive(Debug)]
pub struct ProbeRequest {
    pub method: &'static str,
    pub path: &'static str,
    /// JSON body of a POST (empty for a GET).
    pub body: &'static str,
}

/// (method, path, body) of each diagnosis request to the chat server.
pub open spec fn chat_probes() -> Seq<(Seq<char>, Seq<char>, Seq<char>)> {
    seq![
        ("GET"@, "/health"@, ""@),
        ("GET"@, "/props"@, ""@),
        ("GET"@, "/v1/models"@, ""@),
        ("GET"@, "/slots"@, ""@),
        ("POST"@, "/tokenize"@, "{\"content\":\"hello\"}"@),
        ("POST"@, "/completion"@, "{\"prompt\":\"hello\",\"n_predict\":1}"@),
        ("POST"@, "/v1/chat/completions"@, "{\"model\":\"llama-chat\",\"messages\":[{\"role\":\"user\",\"content\":\"hi\"}]}"@),
    ]
}

/// (method, path, body) of each diagnosis request to the embedding server.
pub open spec fn embed_probes() -> Seq<(Seq<char>, Seq<char>, Seq<char>)> {
    seq![
        ("GET"@, "/health"@, ""@),
        ("GET"@, "/props"@, ""@),
        ("GET"@, "/v1/models"@, ""@),
        ("POST"@, "/tokenize"@, "{\"content\":\"hello\"}"@),
        ("POST"@, "/v1/embeddings"@, "{\"input\":\"hello\",\"model\":\"nomic-embed-text\"}"@),
        ("POST"@, "/completion"@, "{\"prompt\":\"hello\",\"n_predict\":1}"@),
    ]
}

/// View of a probe request.
pub open spec fn probe_view(p: ProbeRequest) -> (Seq<char>, Seq<char>, Seq<char>) {
    (p.method@, p.path@, p.body@)
}

/// The requests sent to the chat server, in order.
pub fn chat_probe_requests() -> (r: Vec<ProbeRequest>)
    ensures
        r@.map_values(|p: ProbeRequest| probe_view(p)) == chat_probes(),
{
    let v: Vec<ProbeRequest> = vec![
        ProbeRequest { method: "GET", path: "/health", body: "" },
        ProbeRequest { method: "GET", path: "/props", body: "" },
        ProbeRequest { method: "GET", path: "/v1/models", body: "" },
        ProbeRequest { method: "GET", path: "/slots", body: "" },
        ProbeRequest { method: "POST", path: "/tokenize", body: "{\"content\":\"hello\"}" },
        ProbeRequest { method: "POST", path: "/completion", body: "{\"prompt\":\"hello\",\"n_predict\":1}" },
        ProbeRequest { method: "POST", path: "/v1/chat/completions", body: "{\"model\":\"llama-chat\",\"messages\":[{\"role\":\"user\",\"content\":\"hi\"}]}" },
    ];
    assert(v@.map_values(|p: ProbeRequest| probe_view(p)) =~= chat_probes());
    v
}

/// The requests sent to the embedding server, in order.
pub fn embed_probe_requests() -> (r: Vec<ProbeRequest>)
    ensures
        r@.map_values(|p: ProbeRequest| probe_view(p)) == embed_probes(),
{
    let v: Vec<ProbeRequest> = vec![
        ProbeRequest { method: "GET", path: "/health", body: "" },
        ProbeRequest { method: "GET", path: "/props", body: "" },
        ProbeRequest { method: "GET", path: "/v1/models", body: "" },
        ProbeRequest { method: "POST", path: "/tokenize", body: "{\"content\":\"hello\"}" },
        ProbeRequest { method: "POST", path: "/v1/embeddings", body: "{\"input\":\"hello\",\"model\":\"nomic-embed-text\"}" },
        ProbeRequest { method: "POST", path: "/completion", body: "{\"prompt\":\"hello\",\"n_predict\":1}" },
    ];
    assert(v@.map_values(|p: ProbeRequest| probe_view(p)) =~= embed_probes());
    v
}

/// URL of a diagnosis request.
pub fn probe_url(port: u16, path: &str) -> (r: String)
    ensures
        r@ == "http://127.0.0.1:"@ + decimal(port as nat) + path@,
{
    let mut s = owned("http://127.0.0.1:");
    push_decimal(&mut s, port as u64);
    s.append(path);
    s
}

/// Opening of the diagnosis report.
pub fn diagnosis_header(our_pid: Option<u32>, chat_port: u16, port_owner: &str) -> (r: String)
    ensures
        r@ == "our chat child PID: "@ + match our_pid {
            Some(p) => "Some("@ + decimal(p as nat) + ")"@,
            None => "None"@,
        } + "\nchat port: "@ + decimal(chat_port as nat) + "\n\nPort "@ + decimal(chat_port as nat)
            + " owner (with process name):\n"@ + port_owner@ + "\n"@,
{
    let mut s = owned("our chat child PID: ");
    match our_pid {
        Some(p) => {
            s.append("Some(");
            push_decimal(&mut s, p as u64);
            s.append(")");
        },
        None => {
            s.append("None");
        },
    }
    s.append("\nchat port: ");
    push_decimal(&mut s, chat_port as u64);
    s.append("\n\nPort ");
    push_decimal(&mut s, chat_port as u64);
    s.append(" owner (with process name):\n");
    s.append(port_owner);
    s.append("\n");
    s
}

/// Heading of the embedding-server part of the report.
pub fn embed_section_heading(embed_port: u16) -> (r: String)
    ensures
        r@ == "\n\n── PORT "@ + decimal(embed_port as nat) + " (embed server) ──"@,
{
    let mut s = owned("\n\n── PORT ");
    push_decimal(&mut s, embed_port as u64);
    s.append(" (embed server) ──");
    s
}

/// Report line for a request that failed to send.
pub fn probe_error_line(method: &str, path: &str, error: &str) -> (r: String)
    ensures
        r@ == "\n"@ + method@ + " "@ + path@ + " → ERROR: "@ + error@ + "\n"@,
{
    let mut s = concat3("\n", method, " ");
    s.append(path);
    s.append(" → ERROR: ");
    s.append(error);
    s.append("\n");
    s
}

/// Batch file that runs `llama-server --version` in a console window and
/// reports the exit code.
pub fn diagnostic_batch(dir: &str, name: &str) -> (r: String)
    ensures
        r@ == "@echo off\r\ncd /d \""@ + dir@ + "\"\r\necho.\r\necho Dir:  "@ + dir@
            + "\r\necho Exe:  "@ + name@ + "\r\necho.\r\n"@ + name@
            + " --version\r\necho.\r\nif %ERRORLEVEL% neq 0 (\r\n    echo FAILED  exit code: %ERRORLEVEL%\r\n    echo If a popup appeared, note the DLL name it mentions.\r\n) else (\r\n    echo OK  binary works!\r\n)\r\necho.\r\npause\r\n"@,
{
    let mut s = owned("@echo off\r\ncd /d \"");
    s.append(dir);
    s.append("\"\r\necho.\r\necho Dir:  ");
    s.append(dir);
    s.append("\r\necho Exe:  ");
    s.append(name);
    s.append("\r\necho.\r\n");
    s.append(name);
    s.append(" --version\r\necho.\r\nif %ERRORLEVEL% neq 0 (\r\n    echo FAILED  exit code: %ERRORLEVEL%\r\n    echo If a popup appeared, note the DLL name it mentions.\r\n) else (\r\n    echo OK  binary works!\r\n)\r\necho.\r\npause\r\n");
    s
}

/// Event-log line for loading the in-process speech-to-text engine at
/// start-up: ready, or a soft failure that keeps the Core agent running.
pub fn stt_engine_message(load: Result<(), String>) -> (r: String)
    ensures
        match load {
            Ok(()) => r@ == "Host STT path ready (in-process ort, CPU)"@,
            Err(e) => r@ == "Host STT soft-fail — Core agent continues; transcription off. Open Setup Wizard / Setup repair.\n"@
                + e@,
        },
{
    match load {
        Ok(()) => owned("Host STT path ready (in-process ort, CPU)"),
        Err(e) => concat2(
            "Host STT soft-fail — Core agent continues; transcription off. Open Setup Wizard / Setup repair.\n",
            e.as_str(),
        ),
    }
}

/// Event-log line after a distillation pass: the number of new facts when
/// there were any, the error when it failed, nothing otherwise.
pub fn distillation_message(result: Result<usize, String>) -> (r: Option<String>)
    ensures
        match result {
            Ok(0) => r is None,
            Ok(n) => r is Some && r.unwrap()@ == "distilled "@ + decimal(n as nat) + " new semantic facts"@,
            Err(e) => r is Some && r.unwrap()@ == "distillation error: "@ + e@,
        },
{
    match result {
        Ok(n) => {
            if n == 0 {
                None
            } else {
                let mut s = owned("distilled ");
                push_decimal(&mut s, n as u64);
                s.append(" new semantic facts");
                Some(s)
            }
        },
        Err(e) => Some(concat2("distillation error: ", e.as_str())),
    }
}

/// Report line for a request that was answered: the method, path and status,
/// then the first `limit` characters of the body (all of it when shorter).
pub fn probe_success_line(method: &str, path: &str, status: &str, body: &str, limit: usize) -> (r: String)
    ensures
        r@ == "\n"@ + method@ + " "@ + path@ + " → "@ + status@ + "\n"@ + body@.take(
            if body@.len() < limit { body@.len() as int } else { limit as int },
        ) + "\n"@,
{
    let v = crate::text::to_chars(body);
    let n = if v.len() < limit {
        v.len()
    } else {
        limit
    };
    let excerpt = crate::text::from_chars_range(&v, 0, n);
    assert(v@.subrange(0, n as int) =~= body@.take(n as int));
    let mut s = concat3("\n", method, " ");
    s.append(path);
    s.append(" → ");
    s.append(status);
    s.append("\n");
    s.append(excerpt.as_str());
    s.append("\n");
    s
}

} // verus!
