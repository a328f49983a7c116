//! The Piper command-line speech path: locating the Piper binary and the
//! default voice model, the command that synthesizes one utterance, and
//! reading the WAV file it writes.

use vstd::prelude::*;

use super::speech::{clean_for_speech, speech_text};
use crate::constants::TTS_MODEL_FILE;
use crate::paths::{join, join_str, parent_of, path_parent};
use crate::platform::artifact::FileStat;
use crate::platform::PlatformId;
use crate::text::{concat3, decimal, owned, push_decimal, to_chars, trim};

verus! {

/// Error when no Piper binary is found.
pub open spec fn piper_missing_message() -> Seq<char> {
    "piper not found. Tried binaries/piper/. Run: deno task setup"@
}

/// Error when the default voice model is not found.
pub open spec fn model_missing_message() -> Seq<char> {
    "piper voice model not found — run: deno task setup"@
}

/// Plain Piper binaries tried after the sidecar name: `piper.exe`, then `piper`,
/// under `<binaries_root>/piper`.
pub open spec fn plain_piper_paths(root: Seq<char>) -> Seq<Seq<char>> {
    seq![join(join(root, "piper"@), "piper.exe"@), join(join(root, "piper"@), "piper"@)]
}

/// The plain Piper binary paths under `binaries_root` (see [`plain_piper_paths`]).
pub fn plain_piper_candidates(binaries_root: &str) -> (r: Vec<String>)
    ensures
        r@.len() == 2,
        r@[0]@ == plain_piper_paths(binaries_root@)[0],
        r@[1]@ == plain_piper_paths(binaries_root@)[1],
{
    let dir = join_str(binaries_root, "piper");
    let mut v: Vec<String> = Vec::new();
    v.push(join_str(dir.as_str(), "piper.exe"));
    v.push(join_str(dir.as_str(), "piper"));
    v
}

/// Whether a plain Piper binary is acceptable: it exists and is over 1 KiB.
pub open spec fn plain_piper_ok(stat: FileStat) -> bool {
    stat.exists && stat.len > 1024
}

/// Locates Piper: the sidecar found by name (`sidecar`), else the first plain
/// binary (observed as `stats[k]` at [`plain_piper_candidates`]`[k]`) that passes
/// [`plain_piper_ok`].
pub fn find_piper_in(sidecar: Option<String>, binaries_root: &str, stats: &Vec<FileStat>) -> (r:
    Result<String, String>)
    requires
        stats@.len() == 2,
    ensures
        match sidecar {
            Some(p) => r matches Ok(q) && q@ == p@,
            None => if plain_piper_ok(stats@[0]) {
                r matches Ok(q) && q@ == plain_piper_paths(binaries_root@)[0]
            } else if plain_piper_ok(stats@[1]) {
                r matches Ok(q) && q@ == plain_piper_paths(binaries_root@)[1]
            } else {
                r matches Err(e) && e@ == piper_missing_message()
            },
        },
{
    match sidecar {
        Some(p) => Ok(p),
        None => {
            let mut c = plain_piper_candidates(binaries_root);
            if stats[0].exists && stats[0].len > 1024 {
                Ok(c.swap_remove(0))
            } else if stats[1].exists && stats[1].len > 1024 {
                Ok(c.swap_remove(1))
            } else {
                Err(owned("piper not found. Tried binaries/piper/. Run: deno task setup"))
            }
        },
    }
}

/// `models/tts/<default model>` under `dir`.
pub open spec fn model_under(dir: Seq<char>) -> Seq<char> {
    join(join(join(dir, "models"@), "tts"@), TTS_MODEL_FILE@)
}

/// Where the default voice model is looked for: under the parent of the
/// binaries directory, then under its grandparent (empty when there is none).
pub open spec fn tts_model_paths(binaries_root: Seq<char>) -> Seq<Seq<char>> {
    seq![
        match path_parent(binaries_root) {
            Some(p) => model_under(p),
            None => Seq::empty(),
        },
        match path_parent(binaries_root) {
            Some(p) => match path_parent(p) {
                Some(g) => model_under(g),
                None => Seq::empty(),
            },
            None => Seq::empty(),
        },
    ]
}

fn model_under_exec(dir: &str) -> (r: String)
    ensures
        r@ == model_under(dir@),
{
    let a = join_str(dir, "models");
    let b = join_str(a.as_str(), "tts");
    join_str(b.as_str(), TTS_MODEL_FILE)
}

/// The default voice model candidates (see [`tts_model_paths`]).
pub fn tts_model_candidates(binaries_root: &str) -> (r: Vec<String>)
    ensures
        r@.len() == 2,
        r@[0]@ == tts_model_paths(binaries_root@)[0],
        r@[1]@ == tts_model_paths(binaries_root@)[1],
{
    let mut v: Vec<String> = Vec::new();
    match parent_of(binaries_root) {
        Some(p) => {
            v.push(model_under_exec(p.as_str()));
            match parent_of(p.as_str()) {
                Some(g) => v.push(model_under_exec(g.as_str())),
                None => v.push(String::new()),
            }
        },
        None => {
            v.push(String::new());
            v.push(String::new());
        },
    }
    v
}

/// The first model candidate that exists (`exists[k]` for candidate `k`).
pub fn find_tts_model_in(binaries_root: &str, exists: &Vec<bool>) -> (r: Result<String, String>)
    requires
        exists@.len() == 2,
    ensures
        if exists@[0] {
            r matches Ok(p) && p@ == tts_model_paths(binaries_root@)[0]
        } else if exists@[1] {
            r matches Ok(p) && p@ == tts_model_paths(binaries_root@)[1]
        } else {
            r matches Err(e) && e@ == model_missing_message()
        },
{
    let mut c = tts_model_candidates(binaries_root);
    if exists[0] {
        Ok(c.swap_remove(0))
    } else if exists[1] {
        Ok(c.swap_remove(1))
    } else {
        Err(owned("piper voice model not found — run: deno task setup"))
    }
}

/// A Piper run: program, arguments, working directory and the library search
/// variable to set.
#[derive(Debug)]
pub struct PiperInvocation {
    pub program: String,
    pub args: Vec<String>,
    pub cwd: String,
    pub env_name: String,
    pub env_value: String,
}

/// Directory Piper runs in: the binary's parent, or the binary path itself.
pub open spec fn piper_dir(binary: Seq<char>) -> Seq<char> {
    match path_parent(binary) {
        Some(d) => d,
        None => binary,
    }
}

/// Library search variable of a platform.
pub open spec fn lib_path_var(platform: PlatformId) -> Seq<char> {
    match platform {
        PlatformId::Windows => "PATH"@,
        PlatformId::Linux => "LD_LIBRARY_PATH"@,
        PlatformId::Macos => "DYLD_LIBRARY_PATH"@,
    }
}

/// The variable's new value: `dir` first, then what it held (`;` separates on
/// Windows, always; `:` elsewhere, only when it held something).
pub open spec fn lib_path_value(platform: PlatformId, dir: Seq<char>, current: Seq<char>) -> Seq<char> {
    if platform == PlatformId::Windows {
        dir + ";"@ + current
    } else if current.len() == 0 {
        dir
    } else {
        dir + ":"@ + current
    }
}

/// The Piper arguments: model, output file, sentence silence 0.1 s.
pub open spec fn piper_args(model: Seq<char>, output: Seq<char>) -> Seq<Seq<char>> {
    seq!["--model"@, model, "--output_file"@, output, "--sentence_silence"@, "0.1"@]
}

/// The command that synthesizes one utterance with `binary` and `model` into
/// `output`; `current_env` is the current value of the platform's library
/// search variable (empty when unset).
pub fn piper_invocation(binary: &str, model: &str, output: &str, platform: PlatformId, current_env: &str) -> (r:
    PiperInvocation)
    ensures
        r.program@ == binary@,
        r.args@.map_values(|a: String| a@) == piper_args(model@, output@),
        r.cwd@ == piper_dir(binary@),
        r.env_name@ == lib_path_var(platform),
        r.env_value@ == lib_path_value(platform, piper_dir(binary@), current_env@),
{
    let dir = match parent_of(binary) {
        Some(d) => d,
        None => owned(binary),
    };
    let mut args: Vec<String> = Vec::new();
    args.push(owned("--model"));
    args.push(owned(model));
    args.push(owned("--output_file"));
    args.push(owned(output));
    args.push(owned("--sentence_silence"));
    args.push(owned("0.1"));
    assert(args@.map_values(|a: String| a@) =~= piper_args(model@, output@));
    let env_name = match platform {
        PlatformId::Windows => owned("PATH"),
        PlatformId::Linux => owned("LD_LIBRARY_PATH"),
        PlatformId::Macos => owned("DYLD_LIBRARY_PATH"),
    };
    let env_value = if platform == PlatformId::Windows {
        concat3(dir.as_str(), ";", current_env)
    } else if current_env.unicode_len() == 0 {
        dir.clone()
    } else {
        concat3(dir.as_str(), ":", current_env)
    };
    PiperInvocation { program: owned(binary), args, cwd: dir, env_name, env_value }
}

/// Decimal notation of a signed number.
pub open spec fn signed_decimal(n: int) -> Seq<char> {
    if n < 0 {
        seq!['-'] + decimal((-n) as nat)
    } else {
        decimal(n as nat)
    }
}

/// Error text when Piper exits unsuccessfully (`{:?}` of its exit code).
pub open spec fn piper_exit_text(code: Option<i32>) -> Seq<char> {
    "piper exited "@ + match code {
        Some(c) => "Some("@ + signed_decimal(c as int) + ")"@,
        None => "None"@,
    }
}

/// The error for an unsuccessful Piper exit.
pub fn piper_exit_message(code: Option<i32>) -> (r: String)
    ensures
        r@ == piper_exit_text(code),
{
    let mut s = owned("piper exited ");
    match code {
        None => {
            s.append("None");
        },
        Some(c) => {
            s.append("Some(");
            if c < 0 {
                crate::text::push_char(&mut s, '-');
                let m: i64 = -(c as i64);
                push_decimal(&mut s, m as u64);
            } else {
                push_decimal(&mut s, c as u64);
            }
            s.append(")");
            assert(s@ =~= piper_exit_text(code));
        },
    }
    s
}

/// Little-endian 16-bit value of two bytes.
pub open spec fn le16(lo: u8, hi: u8) -> int {
    lo as int + 256 * hi as int
}

/// Little-endian 32-bit value of four bytes.
pub open spec fn le32(b0: u8, b1: u8, b2: u8, b3: u8) -> int {
    b0 as int + 256 * b1 as int + 65536 * b2 as int + 16777216 * b3 as int
}

/// Signed 16-bit sample of two little-endian bytes.
pub open spec fn sample16(lo: u8, hi: u8) -> int {
    if le16(lo, hi) >= 32768 {
        le16(lo, hi) - 65536
    } else {
        le16(lo, hi)
    }
}

/// What a WAV file written by Piper holds: rate, channels and 16-bit samples.
#[derive(Debug)]
pub struct WavPcm {
    pub sample_rate: u32,
    pub channels: u16,
    pub samples: Vec<i16>,
}

/// Reads a canonical 44-byte-header WAV: channels at offset 22, rate at 24,
/// 16-bit samples from 44 on (a trailing odd byte is ignored). The rate is
/// raised to at least 8000 and channels to at least 1; a file shorter than
/// the header gives no samples at 44100 Hz mono.
pub fn parse_wav(wav: &Vec<u8>) -> (r: WavPcm)
    ensures
        wav@.len() < 44 ==> r.sample_rate == 44100 && r.channels == 1 && r.samples@.len() == 0,
        wav@.len() >= 44 ==> {
            &&& r.sample_rate as int == (if le32(wav@[24], wav@[25], wav@[26], wav@[27]) < 8000 {
                8000
            } else {
                le32(wav@[24], wav@[25], wav@[26], wav@[27])
            })
            &&& r.channels as int == (if le16(wav@[22], wav@[23]) < 1 {
                1
            } else {
                le16(wav@[22], wav@[23])
            })
            &&& r.samples@.len() == (wav@.len() - 44) / 2
            &&& forall|k: int|
                0 <= k < r.samples@.len() ==> (#[trigger] r.samples@[k]) as int == sample16(
                    wav@[44 + 2 * k],
                    wav@[45 + 2 * k],
                )
        },
{
    if wav.len() < 44 {
        return WavPcm { sample_rate: 44100, channels: 1, samples: Vec::new() };
    }
    let channels: u16 = wav[22] as u16 + 256u16 * (wav[23] as u16);
    let rate: u32 = wav[24] as u32 + 256u32 * (wav[25] as u32) + 65536u32 * (wav[26] as u32)
        + 16777216u32 * (wav[27] as u32);
    let len = wav.len();
    let n = (len - 44) / 2;
    let mut samples: Vec<i16> = Vec::new();
    let mut k: usize = 0;
    while k < n
        invariant
            len == wav@.len(),
            n == (wav@.len() - 44) / 2,
            wav@.len() >= 44,
            k <= n,
            samples@.len() == k,
            forall|j: int|
                0 <= j < k ==> (#[trigger] samples@[j]) as int == sample16(
                    wav@[44 + 2 * j],
                    wav@[45 + 2 * j],
                ),
        decreases n - k,
    {
        let lo = wav[44 + 2 * k];
        let hi = wav[45 + 2 * k];
        let v: u32 = lo as u32 + 256u32 * (hi as u32);
        let s: i16 = if v >= 32768 {
            (v as i32 - 65536i32) as i16
        } else {
            v as i16
        };
        samples.push(s);
        k = k + 1;
    }
    WavPcm {
        sample_rate: if rate < 8000 {
            8000
        } else {
            rate
        },
        channels: if channels < 1 {
            1
        } else {
            channels
        },
        samples,
    }
}

/// Piper text-to-speech through its command-line program.
#[derive(Debug)]
pub struct TtsClient {}

/// What one command-line speak request comes to.
#[derive(Debug)]
pub enum TtsPlan {
    /// Nothing left to say after cleaning.
    Nothing,
    /// Piper or its model is missing.
    Fail { error: String },
    /// Run Piper, writing `text` to its standard input.
    Run { invocation: PiperInvocation, text: String },
}

impl TtsClient {
    /// A client; the port is unused (Piper runs as a program, not a server).
    pub fn new(port: u16) -> (r: Self) {
        TtsClient {  }
    }

    /// Decides a speak request: the cleaned text, the binary and model that
    /// were looked up, the WAV path to write and the platform's library
    /// search variable as it is now.
    pub fn plan(
        &self,
        text: &str,
        binary: Result<String, String>,
        model: Result<String, String>,
        output: &str,
        platform: PlatformId,
        current_env: &str,
    ) -> (r: TtsPlan)
        ensures
            trim(speech_text(text@)).len() == 0 ==> r is Nothing,
            trim(speech_text(text@)).len() > 0 ==> match binary {
                Err(e) => r matches TtsPlan::Fail { error } && error@ == e@,
                Ok(b) => match model {
                    Err(e) => r matches TtsPlan::Fail { error } && error@ == e@,
                    Ok(m) => r matches TtsPlan::Run { invocation, text: t } && t@ == speech_text(text@)
                        && invocation.program@ == b@ && invocation.args@.map_values(|a: String| a@)
                        == piper_args(m@, output@) && invocation.cwd@ == piper_dir(b@)
                        && invocation.env_name@ == lib_path_var(platform) && invocation.env_value@
                        == lib_path_value(platform, piper_dir(b@), current_env@),
                },
            },
    {
        let clean = clean_for_speech(text);
        let t = crate::text::trim_chars(&to_chars(clean.as_str()));
        if t.len() == 0 {
            return TtsPlan::Nothing;
        }
        match binary {
            Err(e) => TtsPlan::Fail { error: e },
            Ok(b) => match model {
                Err(e) => TtsPlan::Fail { error: e },
                Ok(m) => {
                    let invocation = piper_invocation(b.as_str(), m.as_str(), output, platform, current_env);
                    TtsPlan::Run { invocation, text: clean }
                },
            },
        }
    }
}

} // verus!
