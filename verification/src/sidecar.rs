//! Sidecar processes (llama.cpp chat and embedding servers): where the
//! binaries directory is, how a sidecar binary is found, the command lines
//! they are started with, what their exit codes mean, and what is shut down
//! on exit.

use vstd::prelude::*;

use crate::constants::SIDECAR_HOST;
use crate::paths::{join, join_str, parent_of, path_file_name, path_parent};
use crate::platform::artifact::FileStat;
use crate::platform::{HostTarget, PlatformId};
use crate::setup::status::{first_usable, sidecar_candidates};
use crate::text::{decimal, owned, push_decimal, str_eq, to_chars, trim};

verus! {

/// Description of a process exit code (common Windows status codes).
pub open spec fn exit_code_text(code: i32) -> Seq<char> {
    let u = code as u32;
    if u == 0xC0000135u32 {
        "STATUS_DLL_NOT_FOUND — a required DLL is missing from binaries/"@
    } else if u == 0xC0000139u32 {
        "STATUS_ENTRYPOINT_NOT_FOUND — DLL version mismatch (try: winget install Microsoft.VCRedist.2015+.x64)"@
    } else if u == 0xC0000005u32 {
        "STATUS_ACCESS_VIOLATION — crash/segfault"@
    } else if u == 0xC000007Bu32 {
        "STATUS_INVALID_IMAGE_FORMAT — wrong architecture (need x64)"@
    } else if u == 0 {
        "clean exit"@
    } else {
        "unknown"@
    }
}

/// Human-readable description of a process exit code.
pub fn exit_code_description(code: i32) -> (r: &'static str)
    ensures
        r@ == exit_code_text(code),
{
    let u = code as u32;
    if u == 0xC0000135u32 {
        "STATUS_DLL_NOT_FOUND — a required DLL is missing from binaries/"
    } else if u == 0xC0000139u32 {
        "STATUS_ENTRYPOINT_NOT_FOUND — DLL version mismatch (try: winget install Microsoft.VCRedist.2015+.x64)"
    } else if u == 0xC0000005u32 {
        "STATUS_ACCESS_VIOLATION — crash/segfault"
    } else if u == 0xC000007Bu32 {
        "STATUS_INVALID_IMAGE_FORMAT — wrong architecture (need x64)"
    } else if u == 0 {
        "clean exit"
    } else {
        "unknown"
    }
}

/// Views of a list of strings.
pub open spec fn str_views(v: Seq<String>) -> Seq<Seq<char>> {
    v.map_values(|s: String| s@)
}

/// Arguments of the chat server: the model, port, loopback host, a 4096-token
/// context, all layers on the GPU, and the alias `llama-chat`.
pub open spec fn chat_server_args_spec(model: Seq<char>, port: u16) -> Seq<Seq<char>> {
    seq![
        "--model"@, model, "--port"@, decimal(port as nat), "--host"@, SIDECAR_HOST@,
        "--ctx-size"@, "4096"@, "-ngl"@, "999"@, "--alias"@, "llama-chat"@,
    ]
}

/// Arguments of the embedding server: the embedding model, port, loopback
/// host, a 512-token context, all layers on the GPU, embedding mode and the
/// alias `nomic-embed-text`.
pub open spec fn embed_server_args_spec(model: Seq<char>, port: u16) -> Seq<Seq<char>> {
    seq![
        "--model"@, model, "--port"@, decimal(port as nat), "--host"@, SIDECAR_HOST@,
        "--ctx-size"@, "512"@, "-ngl"@, "999"@, "--embedding"@, "--alias"@,
        "nomic-embed-text"@,
    ]
}

/// The chat server's command-line arguments.
pub fn chat_server_args(model_path: &str, port: u16) -> (r: Vec<String>)
    ensures
        str_views(r@) == chat_server_args_spec(model_path@, port),
{
    let mut v: Vec<String> = Vec::new();
    v.push(owned("--model"));
    v.push(owned(model_path));
    v.push(owned("--port"));
    v.push(crate::text::decimal_string(port as u64));
    v.push(owned("--host"));
    v.push(owned(SIDECAR_HOST));
    v.push(owned("--ctx-size"));
    v.push(owned("4096"));
    v.push(owned("-ngl"));
    v.push(owned("999"));
    v.push(owned("--alias"));
    v.push(owned("llama-chat"));
    assert(str_views(v@) =~= chat_server_args_spec(model_path@, port));
    v
}

/// The embedding server's command-line arguments.
pub fn embed_server_args(embed_model_path: &str, port: u16) -> (r: Vec<String>)
    ensures
        str_views(r@) == embed_server_args_spec(embed_model_path@, port),
{
    let mut v: Vec<String> = Vec::new();
    v.push(owned("--model"));
    v.push(owned(embed_model_path));
    v.push(owned("--port"));
    v.push(crate::text::decimal_string(port as u64));
    v.push(owned("--host"));
    v.push(owned(SIDECAR_HOST));
    v.push(owned("--ctx-size"));
    v.push(owned("512"));
    v.push(owned("-ngl"));
    v.push(owned("999"));
    v.push(owned("--embedding"));
    v.push(owned("--alias"));
    v.push(owned("nomic-embed-text"));
    assert(str_views(v@) =~= embed_server_args_spec(embed_model_path@, port));
    v
}

/// The project root in development: the working directory, or its parent when
/// the working directory is `src-tauri`.
pub open spec fn dev_root(cwd: Seq<char>) -> Seq<char> {
    if path_file_name(cwd) == Some("src-tauri"@) {
        match path_parent(cwd) {
            Some(p) => p,
            None => cwd,
        }
    } else {
        cwd
    }
}

/// The development project root (see [`dev_root`]).
pub fn dev_root_of(cwd: &str) -> (r: String)
    ensures
        r@ == dev_root(cwd@),
{
    let is_src_tauri = match crate::paths::file_name_of(cwd) {
        Some(n) => str_eq(n.as_str(), "src-tauri"),
        None => false,
    };
    if is_src_tauri {
        match parent_of(cwd) {
            Some(p) => p,
            None => owned(cwd),
        }
    } else {
        owned(cwd)
    }
}

/// The binaries directory in development: `<project root>/binaries`.
pub fn dev_binaries_dir(cwd: &str) -> (r: String)
    ensures
        r@ == join(dev_root(cwd@), "binaries"@),
{
    let root = dev_root_of(cwd);
    join_str(root.as_str(), "binaries")
}

/// The per-user data base of a platform: `%APPDATA%` on Windows,
/// `$HOME/Library/Application Support` on macOS, `$HOME/.local/share`
/// elsewhere (`home_or_appdata` is that variable, empty when unset).
pub open spec fn user_data_base(platform: PlatformId, var: Option<Seq<char>>) -> Seq<char> {
    match var {
        None => Seq::empty(),
        Some(v) => match platform {
            PlatformId::Windows => v,
            PlatformId::Macos => join(v, "Library/Application Support"@),
            PlatformId::Linux => join(v, ".local/share"@),
        },
    }
}

/// The release binaries directory: `<user data base>/com.proactive.agent/binaries`.
pub fn release_binaries_dir(platform: PlatformId, var: Option<&str>) -> (r: String)
    ensures
        r@ == join(
            join(
                user_data_base(
                    platform,
                    match var {
                        Some(v) => Some(v@),
                        None => None,
                    },
                ),
                "com.proactive.agent"@,
            ),
            "binaries"@,
        ),
{
    let base = match var {
        None => String::new(),
        Some(v) => match platform {
            PlatformId::Windows => owned(v),
            PlatformId::Macos => join_str(v, "Library/Application Support"),
            PlatformId::Linux => join_str(v, ".local/share"),
        },
    };
    let app = join_str(base.as_str(), "com.proactive.agent");
    join_str(app.as_str(), "binaries")
}

/// Models and memory directories: in development under the project root
/// (`models`, `data/memory`), in release under the app data directory
/// (`models`, `memory`).
pub fn data_paths(dev: bool, cwd: &str, data_dir: &str) -> (r: (String, String))
    ensures
        dev ==> r.0@ == join(dev_root(cwd@), "models"@) && r.1@ == join(
            join(dev_root(cwd@), "data"@),
            "memory"@,
        ),
        !dev ==> r.0@ == join(data_dir@, "models"@) && r.1@ == join(data_dir@, "memory"@),
{
    if dev {
        let root = dev_root_of(cwd);
        let data = join_str(root.as_str(), "data");
        (join_str(root.as_str(), "models"), join_str(data.as_str(), "memory"))
    } else {
        (join_str(data_dir, "models"), join_str(data_dir, "memory"))
    }
}

/// Locates sidecar `name`: the candidates under the binaries directory (see
/// [`sidecar_candidates`]) and, in release builds, the same three under the
/// executable's directory; `stats[k]` is what was observed at candidate `k`.
pub fn find_sidecar(binaries_root: &str, exe_dir: Option<&str>, name: &str, target: HostTarget, stats: &Vec<FileStat>) -> (r: Option<String>)
    requires
        stats@.len() == if exe_dir is Some { 6int } else { 3int },
    ensures
        ({
            let first = first_usable(target.platform, stats@.take(3));
            match first {
                Some(k) => r is Some && r.unwrap()@ == sidecar_candidates(binaries_root@, name@, target)[k],
                None => match exe_dir {
                    None => r is None,
                    Some(d) => match first_usable(target.platform, stats@.skip(3)) {
                        Some(k) => r is Some && r.unwrap()@ == sidecar_candidates(d@, name@, target)[k],
                        None => r is None,
                    },
                },
            }
        }),
{
    let mut head: Vec<FileStat> = Vec::new();
    head.push(stats[0]);
    head.push(stats[1]);
    head.push(stats[2]);
    assert(head@ =~= stats@.take(3));
    if let Some(p) = crate::setup::status::find_sidecar_in(binaries_root, name, target, &head) {
        return Some(p);
    }
    match exe_dir {
        None => None,
        Some(d) => {
            let mut tail: Vec<FileStat> = Vec::new();
            tail.push(stats[3]);
            tail.push(stats[4]);
            tail.push(stats[5]);
            assert(tail@ =~= stats@.skip(3));
            crate::setup::status::find_sidecar_in(d, name, target, &tail)
        },
    }
}

/// A log line for one line of sidecar output: `{label}: {line}` with the line
/// trimmed, or nothing for a blank line.
pub fn output_line(label: &str, line: &str) -> (r: Option<String>)
    ensures
        trim(line@).len() == 0 ==> r is None,
        trim(line@).len() > 0 ==> r is Some && r.unwrap()@ == label@ + ": "@ + trim(line@),
{
    let t = crate::text::trim_chars(&to_chars(line));
    if t.len() == 0 {
        None
    } else {
        let mut s = crate::text::concat2(label, ": ");
        let body = crate::text::from_chars(&t);
        s.append(body.as_str());
        Some(s)
    }
}

/// Tracked ids without 0 and repeats, in order.
pub open spec fn unique_pids(pids: Seq<u32>) -> Seq<u32>
    decreases pids.len(),
{
    if pids.len() == 0 {
        Seq::empty()
    } else {
        let earlier = unique_pids(pids.drop_last());
        let p = pids.last();
        if p == 0 || earlier.contains(p) {
            earlier
        } else {
            earlier.push(p)
        }
    }
}

/// What to kill on exit: the tracked sidecar processes (each once, none with
/// id 0), then the chat server when its id is not among them.
pub fn pids_to_kill(pids: &Vec<u32>, chat_pid: Option<u32>) -> (r: Vec<u32>)
    ensures
        r@ == match chat_pid {
            Some(c) => if unique_pids(pids@).contains(c) {
                unique_pids(pids@)
            } else {
                unique_pids(pids@).push(c)
            },
            None => unique_pids(pids@),
        },
{
    let mut out: Vec<u32> = Vec::new();
    let mut i: usize = 0;
    while i < pids.len()
        invariant
            i <= pids@.len(),
            out@ == unique_pids(pids@.take(i as int)),
        decreases pids@.len() - i,
    {
        assert(pids@.take(i + 1).drop_last() =~= pids@.take(i as int));
        let p = pids[i];
        if p != 0 && !contains_u32(&out, p) {
            out.push(p);
        }
        i = i + 1;
    }
    assert(pids@.take(pids@.len() as int) =~= pids@);
    match chat_pid {
        Some(c) => {
            if !contains_u32(&out, c) {
                out.push(c);
            }
        },
        None => {},
    }
    out
}

fn contains_u32(v: &Vec<u32>, x: u32) -> (r: bool)
    ensures
        r == v@.contains(x),
{
    let mut i: usize = 0;
    while i < v.len()
        invariant
            i <= v@.len(),
            forall|j: int| 0 <= j < i ==> v@[j] != x,
        decreases v@.len() - i,
    {
        if v[i] == x {
            return true;
        }
        i = i + 1;
    }
    false
}

/// Ports freed on exit: the configured chat and embedding ports, or the
/// defaults 18080 and 18081 when the configuration cannot be read.
pub fn ports_to_free(configured: Option<(u16, u16)>) -> (r: (u16, u16))
    ensures
        r == match configured {
            Some(p) => p,
            None => (18080u16, 18081u16),
        },
{
    match configured {
        Some(p) => p,
        None => (18080u16, 18081u16),
    }
}

/// Upper-case hexadecimal digit for `d` (0..=15).
pub open spec fn hex_digit(d: nat) -> char {
    if d < 10 {
        crate::text::digit_char(d)
    } else if d == 10 {
        'A'
    } else if d == 11 {
        'B'
    } else if d == 12 {
        'C'
    } else if d == 13 {
        'D'
    } else if d == 14 {
        'E'
    } else {
        'F'
    }
}

/// Upper-case hexadecimal notation of `n` without prefix.
pub open spec fn hex(n: nat) -> Seq<char>
    decreases n,
{
    if n < 16 {
        seq![hex_digit(n)]
    } else {
        hex(n / 16).push(hex_digit(n % 16))
    }
}

fn push_hex(out: &mut String, n: u32)
    ensures
        final(out)@ == old(out)@ + hex(n as nat),
    decreases n,
{
    if n >= 16 {
        push_hex(out, n / 16);
    }
    let d = n % 16;
    let c = if d < 10 {
        if d == 0 { '0' } else if d == 1 { '1' } else if d == 2 { '2' } else if d == 3 { '3' } else if d == 4 { '4' } else if d == 5 { '5' } else if d == 6 { '6' } else if d == 7 { '7' } else if d == 8 { '8' } else { '9' }
    } else if d == 10 {
        'A'
    } else if d == 11 {
        'B'
    } else if d == 12 {
        'C'
    } else if d == 13 {
        'D'
    } else if d == 14 {
        'E'
    } else {
        'F'
    };
    assert(c == hex_digit(d as nat));
    crate::text::push_char(out, c);
    proof {
        if n < 16 {
            assert(n % 16 == n);
        }
    }
    assert(final(out)@ =~= old(out)@ + hex(n as nat));
}

/// How running `llama-server --version` went.
#[derive(Debug)]
pub enum VersionRun {
    /// It exited: its exit code (`None` when killed by a signal), whether the
    /// status counts as success, and its output decoded lossily.
    Exited { code: Option<i32>, success: bool, stdout: String, stderr: String },
    /// It could not be started.
    LaunchFailed(String),
    /// No answer within the time limit.
    TimedOut,
}

/// The first line of `s` (`str::lines`: up to the first `\n`, without a
/// trailing `\r`), or `None` for the empty string.
pub open spec fn first_line(s: Seq<char>) -> Option<Seq<char>> {
    if s.len() == 0 {
        None
    } else {
        let l = match crate::text::first_occ(s, seq!['\n'], 0) {
            Some(k) => s.take(k),
            None => s,
        };
        if l.len() > 0 && l.last() == '\r' {
            Some(l.drop_last())
        } else {
            Some(l)
        }
    }
}

/// The verdict on the llama-server binary and the message shown for it.
pub open spec fn version_verdict(
    code: Option<i32>,
    success: bool,
    stdout: Seq<char>,
    stderr: Seq<char>,
) -> (bool, Seq<char>) {
    let c: i32 = match code {
        Some(x) => x,
        None => -1i32,
    };
    if success || c == 0 {
        let text = if trim(stdout).len() == 0 {
            trim(stderr)
        } else {
            trim(stdout)
        };
        (true, "OK — "@ + match first_line(text) {
            Some(l) => l,
            None => "ready"@,
        })
    } else {
        let u = c as u32;
        (false, if u == 0xC0000135u32 {
            "DLL not found — re-run: npm run setup"@
        } else if u == 0xC0000139u32 {
            "DLL version mismatch — install Visual C++ Redistributable"@
        } else if u == 0xC0000005u32 {
            "crash (access violation)"@
        } else {
            "exited with code 0x"@ + hex(u as nat)
        })
    }
}

/// Judges a `llama-server --version` run: a clean exit is fine and shows the
/// first line of what it printed; a timeout counts as fine; a launch failure
/// or a failing exit code is reported with a description.
pub fn llama_version_outcome(run: VersionRun) -> (r: (bool, String))
    ensures
        match run {
            VersionRun::Exited { code, success, stdout, stderr } => (r.0, r.1@) == version_verdict(
                code,
                success,
                stdout@,
                stderr@,
            ),
            VersionRun::LaunchFailed(e) => !r.0 && r.1@ == "failed to launch: "@ + e@,
            VersionRun::TimedOut => r.0 && r.1@
                == "OK — timed out waiting for --version (normal for some builds)"@,
        },
{
    match run {
        VersionRun::LaunchFailed(e) => (false, crate::text::concat2("failed to launch: ", e.as_str())),
        VersionRun::TimedOut => (true, owned("OK — timed out waiting for --version (normal for some builds)")),
        VersionRun::Exited { code, success, stdout, stderr } => {
            let c: i32 = match code {
                Some(x) => x,
                None => -1i32,
            };
            if success || c == 0 {
                let out_t = crate::text::trim_chars(&to_chars(stdout.as_str()));
                let text = if out_t.len() == 0 {
                    crate::text::trim_chars(&to_chars(stderr.as_str()))
                } else {
                    out_t
                };
                let mut msg = owned("OK — ");
                if text.len() == 0 {
                    msg.append("ready");
                } else {
                    let nl: Vec<char> = vec!['\n'];
                    let end = match crate::text::find_occ(&text, &nl, 0) {
                        Some(k) => k,
                        None => text.len(),
                    };
                    proof {
                        crate::text::lemma_first_occ(text@, seq!['\n'], 0);
                        assert(nl@ =~= seq!['\n']);
                    }
                    let stop = if end > 0 && text[end - 1] == '\r' {
                        end - 1
                    } else {
                        end
                    };
                    let line = crate::text::from_chars_range(&text, 0, stop);
                    proof {
                        let l = match crate::text::first_occ(text@, seq!['\n'], 0) {
                            Some(k) => text@.take(k),
                            None => text@,
                        };
                        assert(l =~= text@.subrange(0, end as int));
                        if end > 0 && text@[end - 1] == '\r' {
                            assert(l.drop_last() =~= text@.subrange(0, stop as int));
                        }
                    }
                    msg.append(line.as_str());
                }
                (true, msg)
            } else {
                let u = c as u32;
                if u == 0xC0000135u32 {
                    (false, owned("DLL not found — re-run: npm run setup"))
                } else if u == 0xC0000139u32 {
                    (false, owned("DLL version mismatch — install Visual C++ Redistributable"))
                } else if u == 0xC0000005u32 {
                    (false, owned("crash (access violation)"))
                } else {
                    let mut m = owned("exited with code 0x");
                    push_hex(&mut m, u);
                    (false, m)
                }
            }
        },
    }
}

/// What happened to a sidecar process, for the event log.
#[derive(Debug)]
pub enum SidecarEvent {
    /// The binary was not found.
    NotFound,
    /// About to start the binary at this path.
    Launching(String),
    /// Started with this process id.
    Started(u32),
    /// Exited with this code (`-1` when it has none).
    Exited(i32),
    /// Could not be started.
    FailedToStart(String),
}

/// The event log line of a sidecar event.
pub open spec fn sidecar_event_text(display: Seq<char>, e: SidecarEvent) -> Seq<char> {
    match e {
        SidecarEvent::NotFound => display + ": not found — open Setup repair"@,
        SidecarEvent::Launching(p) => display + " launching → "@ + p@,
        SidecarEvent::Started(pid) => display + " started (pid "@ + decimal(pid as nat) + ")"@,
        SidecarEvent::Exited(code) => display + " exited (code "@ + crate::audio::tts::signed_decimal(
            code as int,
        ) + " — "@ + exit_code_text(code) + ")"@,
        SidecarEvent::FailedToStart(err) => display + " failed to start: "@ + err@,
    }
}

/// The event log line of a sidecar event (see [`sidecar_event_text`]).
pub fn sidecar_event_message(display: &str, e: SidecarEvent) -> (r: String)
    ensures
        r@ == sidecar_event_text(display@, e),
{
    let mut s = owned(display);
    match e {
        SidecarEvent::NotFound => {
            s.append(": not found — open Setup repair");
        },
        SidecarEvent::Launching(p) => {
            s.append(" launching → ");
            s.append(p.as_str());
        },
        SidecarEvent::Started(pid) => {
            s.append(" started (pid ");
            push_decimal(&mut s, pid as u64);
            s.append(")");
        },
        SidecarEvent::Exited(code) => {
            s.append(" exited (code ");
            if code < 0 {
                crate::text::push_char(&mut s, '-');
                let m: i64 = -(code as i64);
                push_decimal(&mut s, m as u64);
            } else {
                push_decimal(&mut s, code as u64);
            }
            s.append(" — ");
            s.append(exit_code_description(code));
            s.append(")");
            assert(s@ =~= sidecar_event_text(display@, e));
        },
        SidecarEvent::FailedToStart(err) => {
            s.append(" failed to start: ");
            s.append(err.as_str());
        },
    }
    s
}

/// Start-up note on the chat model: nothing when one is configured.
pub fn chat_model_note(chat_model: &str) -> (r: Option<&'static str>)
    ensures
        chat_model@.len() == 0 ==> r == Some("chat model not configured — pick one in the Models tab"),
        chat_model@.len() > 0 ==> r is None,
{
    if chat_model.unicode_len() == 0 {
        Some("chat model not configured — pick one in the Models tab")
    } else {
        None
    }
}

/// Start-up note on text-to-speech, from whether the default voice exists.
pub fn tts_note(voice_exists: bool) -> (r: &'static str)
    ensures
        r@ == if voice_exists {
            "TTS (Piper) ready — subprocess mode"@
        } else {
            "TTS unavailable — open Setup repair"@
        },
{
    if voice_exists {
        "TTS (Piper) ready — subprocess mode"
    } else {
        "TTS unavailable — open Setup repair"
    }
}

/// Arguments of `fuser` that signal whoever listens on a TCP port
/// (`-k -TERM 18080/tcp`).
pub fn fuser_args(port: u16, signal: &str) -> (r: Vec<String>)
    ensures
        str_views(r@) == seq!["-k"@, "-"@ + signal@, decimal(port as nat) + "/tcp"@],
{
    let mut v: Vec<String> = Vec::new();
    v.push(owned("-k"));
    v.push(crate::text::concat2("-", signal));
    let mut p = crate::text::decimal_string(port as u64);
    p.append("/tcp");
    v.push(p);
    assert(str_views(v@) =~= seq!["-k"@, "-"@ + signal@, decimal(port as nat) + "/tcp"@]);
    v
}

/// Permission bits after making a file executable (adds `rwxr-xr-x`).
pub fn executable_mode(mode: u32) -> (r: u32)
    ensures
        r == mode | 0o755u32,
{
    mode | 0o755u32
}

} // verus!
