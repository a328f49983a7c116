use proactive_agent::audio::capture::{
    pick_input_config, resolve_input_device, resolve_output_device, ConfigRange, DeviceChoice,
    DeviceFact, InputChoice,
};
use proactive_agent::audio::piper::{
    curated_voice_download_urls, curated_voice_hf_stem, is_curated_piper_voice_id,
    list_curated_piper_voices, partial_path, piper_voice_pair_present, resolve_piper_voice,
    CuratedPiperVoice, PIPER_VOICE_PREVIEW_SAMPLE,
};
use proactive_agent::audio::session::{
    capture_format, transcription_mode, TranscriptionMode, VoiceSession,
};
use proactive_agent::audio::speech::{clean_for_speech, PiperSpeak, PlaybackGate, SpeakPlan};
use proactive_agent::audio::transcript::{
    clean_transcript, recognizer_rate, transcript_kept, transcript_outcome, utterance_ready,
    TranscriptOutcome,
};
use proactive_agent::audio::tts::{
    find_piper_in, find_tts_model_in, parse_wav, piper_exit_message, piper_invocation,
    plain_piper_candidates, tts_model_candidates, TtsClient, TtsPlan,
};
use proactive_agent::audio::voice_download::{DownloadPhase, DownloadStep, StepOutcome, VoiceDownload};
use proactive_agent::platform::artifact::{DirEntryFact, FileStat};
use proactive_agent::platform::PlatformId;

fn file(name: &str) -> DirEntryFact {
    DirEntryFact { name: name.to_string(), is_file: true }
}

fn pair(id: &str) -> Vec<DirEntryFact> {
    vec![file(&format!("{id}.onnx")), file(&format!("{id}.onnx.json"))]
}

fn entry<'a>(catalog: &'a [CuratedPiperVoice], id: &str) -> &'a CuratedPiperVoice {
    catalog
        .iter()
        .find(|v| v.id == id)
        .unwrap_or_else(|| panic!("missing curated id {id}"))
}

// ── clean_transcript ─────────────────────────────────────────────────────────

#[test]
fn clean_transcript_keeps_short_words() {
    assert_eq!(clean_transcript("ok"), "ok");
    assert_eq!(clean_transcript("no"), "no");
    assert_eq!(clean_transcript("Si"), "Si");
    assert_eq!(clean_transcript("Face."), "Face.");
}

#[test]
fn clean_transcript_drops_near_empty_noise() {
    assert!(clean_transcript("F.").is_empty());
    assert!(clean_transcript(".").is_empty());
    assert!(clean_transcript("you").is_empty());
    assert!(clean_transcript("[music]").is_empty());
}

#[test]
fn clean_transcript_trims_and_drops_case_insensitive_hallucinations() {
    assert_eq!(clean_transcript("  hello there \n"), "hello there");
    assert!(clean_transcript("Thank you for watching").is_empty());
    assert!(clean_transcript("  YOU ").is_empty());
    assert!(clean_transcript("(motor running)").is_empty());
    assert!(clean_transcript("*sighs*").is_empty());
    assert!(clean_transcript("   ").is_empty());
}

#[test]
fn transcript_kept_decides_from_given_forms() {
    assert!(transcript_kept("Hello", "hello", 5));
    assert!(!transcript_kept("You", "you", 3));
    assert!(!transcript_kept("[noise]", "[noise]", 5));
    assert!(!transcript_kept("F.", "f.", 1));
    assert!(!transcript_kept("", "", 0));
}

#[test]
fn transcript_outcomes_separate_noise_from_silence() {
    match transcript_outcome(" ok ") {
        TranscriptOutcome::Emit(s) => assert_eq!(s, "ok"),
        other => panic!("expected emit, got {other:?}"),
    }
    assert!(matches!(transcript_outcome("[music]"), TranscriptOutcome::Discarded));
    assert!(matches!(transcript_outcome("  "), TranscriptOutcome::Silent));
}

#[test]
fn utterance_needs_four_tenths_of_a_second() {
    assert!(!utterance_ready(6399, 16000));
    assert!(utterance_ready(6400, 16000));
    assert!(utterance_ready(19200, 48000));
    assert!(!utterance_ready(19199, 48000));
    assert_eq!(recognizer_rate(true, 48000), 16000);
    assert_eq!(recognizer_rate(false, 48000), 48000);
}

// ── clean_for_speech ─────────────────────────────────────────────────────────

#[test]
fn strips_fenced_code_block() {
    let input = "Here is some code:\n```rust\nlet x = 1;\n```\nThat's it.";
    let out = clean_for_speech(input);
    assert!(!out.contains("```"), "backtick fences should be removed");
    assert!(!out.contains("let x"), "code content should be removed");
    assert!(out.contains("Here is some code"), "surrounding text preserved");
    assert!(out.contains("That's it"), "trailing text preserved");
}

#[test]
fn strips_inline_bold_italic() {
    let out = clean_for_speech("**Bold** and *italic* and __under__ and _em_");
    assert!(!out.contains("**"), "double-star removed");
    assert!(!out.contains("__"), "double-under removed");
    assert!(out.contains("Bold"), "bold text preserved");
    assert!(out.contains("italic"), "italic text preserved");
}

#[test]
fn strips_url() {
    let out = clean_for_speech("Check https://example.com/foo?bar=1 for details");
    assert!(!out.contains("https://"), "URL removed");
    assert!(out.contains("Check"), "surrounding text preserved");
    assert!(out.contains("for details"), "trailing text preserved");
}

#[test]
fn strips_defer_tag() {
    let out = clean_for_speech(
        r#"Nice chat. <defer>{"message":"follow up","after_minutes":60}</defer>"#,
    );
    assert!(!out.contains("<defer>"), "defer tag removed");
    assert!(!out.contains("follow up"), "defer content removed");
    assert!(out.contains("Nice chat"), "main text preserved");
}

#[test]
fn empty_or_whitespace_only_is_empty() {
    assert!(clean_for_speech("   ").trim().is_empty());
    assert!(clean_for_speech("```rust\ncode\n```").trim().is_empty());
}

#[test]
fn clean_for_speech_exact_results() {
    assert_eq!(clean_for_speech("**Bold** and _em_"), "Bold and em");
    assert_eq!(clean_for_speech("a ```x``` b ```y"), "a b y");
    assert_eq!(clean_for_speech("see http://x.io/a now"), "see now");
    assert_eq!(clean_for_speech("snake_case and `code`"), "snake case and code");
    assert_eq!(clean_for_speech("  many   spaces\n\nhere "), "many spaces here");
}

// ── playback gate and speak decisions ───────────────────────────────────────

#[test]
fn later_playback_supersedes_earlier_token() {
    let mut gate = PlaybackGate::new();
    let first = gate.begin();
    assert!(gate.is_current(first));
    let second = gate.begin();
    assert!(!gate.is_current(first));
    assert!(gate.is_current(second));
}

#[test]
fn speak_owns_resolve_and_plays_for_voice_id() {
    let mut speak = PiperSpeak::new("/data/models".to_string());
    assert_eq!(speak.tts_dir(), "/data/models/tts");
    let listing = pair("en_US-joe-medium");
    match speak.plan_speak("Hello there.", "en_US-joe-medium", &listing) {
        SpeakPlan::Play { text, voice_id, onnx_path, token, logs } => {
            assert_eq!(text, "Hello there.");
            assert_eq!(voice_id, "en_US-joe-medium");
            assert_eq!(onnx_path, "/data/models/tts/en_US-joe-medium.onnx");
            assert!(speak.gate().is_current(token));
            assert_eq!(logs, vec!["TTS: 12 chars → en_US-joe-medium".to_string()]);
        }
        other => panic!("expected play, got {other:?}"),
    }
}

#[test]
fn speak_empty_after_clean_is_noop() {
    let mut speak = PiperSpeak::new("/m".to_string());
    assert!(matches!(speak.plan_speak("   ", "en_US-lessac-medium", &Vec::new()), SpeakPlan::Nothing));
}

#[test]
fn speak_falls_back_and_logs_it() {
    let mut speak = PiperSpeak::new("/m".to_string());
    let listing = pair("en_US-lessac-medium");
    match speak.plan_speak("Hi", "en_US-joe-medium", &listing) {
        SpeakPlan::Play { voice_id, logs, .. } => {
            assert_eq!(voice_id, "en_US-lessac-medium");
            assert_eq!(logs.len(), 2);
            assert_eq!(
                logs[0],
                "TTS: voice 'en_US-joe-medium' unavailable — falling back to 'en_US-lessac-medium'"
            );
        }
        other => panic!("expected play, got {other:?}"),
    }
    match speak.plan_speak("Hi", "en_US-joe-medium", &Vec::new()) {
        SpeakPlan::Fail { log, error } => {
            assert!(error.contains("en_US-joe-medium"));
            assert_eq!(log, format!("TTS: {error}"));
        }
        other => panic!("expected failure, got {other:?}"),
    }
}

#[test]
fn later_speak_supersedes_in_flight_playback() {
    let mut speak = PiperSpeak::new("/m".to_string());
    let listing = pair("en_US-lessac-medium");
    let first = match speak.plan_speak("first utterance", "en_US-lessac-medium", &listing) {
        SpeakPlan::Play { token, .. } => token,
        other => panic!("expected play, got {other:?}"),
    };
    let second = match speak.plan_speak("second utterance", "en_US-lessac-medium", &listing) {
        SpeakPlan::Play { token, .. } => token,
        other => panic!("expected play, got {other:?}"),
    };
    assert!(!speak.gate().is_current(first), "first must be superseded");
    assert!(speak.gate().is_current(second), "second must play");
}

#[test]
fn preview_sample_is_spoken_text() {
    let mut speak = PiperSpeak::new("/m".to_string());
    let listing = pair("en_US-joe-medium");
    match speak.plan_speak(PIPER_VOICE_PREVIEW_SAMPLE, "en_US-joe-medium", &listing) {
        SpeakPlan::Play { text, onnx_path, .. } => {
            assert_eq!(text, PIPER_VOICE_PREVIEW_SAMPLE);
            assert_eq!(onnx_path, "/m/tts/en_US-joe-medium.onnx");
        }
        other => panic!("expected play, got {other:?}"),
    }
}

// ── curated catalog and voice resolution ────────────────────────────────────

#[test]
fn curated_catalog_exposes_p0_ids_with_labels_and_locale() {
    let catalog = list_curated_piper_voices(&Vec::new());
    let by_id: Vec<_> = catalog.iter().map(|v| v.id.as_str()).collect();
    assert_eq!(
        by_id,
        [
            "en_US-lessac-medium",
            "en_US-joe-medium",
            "en_US-kristin-medium",
            "en_US-bryce-medium",
            "en_US-sam-medium",
            "en_GB-cori-medium",
        ]
    );
    let lessac = entry(&catalog, "en_US-lessac-medium");
    assert_eq!(lessac.label, "Lessac");
    assert_eq!(lessac.locale, "en_US");
    assert_eq!(entry(&catalog, "en_US-joe-medium").label, "Joe");
    assert_eq!(entry(&catalog, "en_US-joe-medium").locale, "en_US");
    assert_eq!(entry(&catalog, "en_US-kristin-medium").label, "Kristin");
    assert_eq!(entry(&catalog, "en_US-bryce-medium").label, "Bryce");
    assert_eq!(entry(&catalog, "en_US-sam-medium").label, "Sam");
    let cori = entry(&catalog, "en_GB-cori-medium");
    assert_eq!(cori.label, "Cori");
    assert_eq!(cori.locale, "en_GB");
}

#[test]
fn empty_tts_dir_reports_all_voices_available_not_installed() {
    let catalog = list_curated_piper_voices(&Vec::new());
    assert!(catalog.iter().all(|v| !v.installed));
}

#[test]
fn default_lessac_reports_installed_when_pair_present() {
    let catalog = list_curated_piper_voices(&pair("en_US-lessac-medium"));
    assert!(entry(&catalog, "en_US-lessac-medium").installed);
    assert!(!entry(&catalog, "en_US-joe-medium").installed);
}

#[test]
fn installed_requires_both_onnx_and_json() {
    let mut listing = vec![file("en_US-joe-medium.onnx")];
    assert!(!entry(&list_curated_piper_voices(&listing), "en_US-joe-medium").installed);
    listing.push(file("en_US-joe-medium.onnx.json"));
    assert!(entry(&list_curated_piper_voices(&listing), "en_US-joe-medium").installed);
    let dir_named_like_model = vec![
        DirEntryFact { name: "en_US-sam-medium.onnx".to_string(), is_file: false },
        file("en_US-sam-medium.onnx.json"),
    ];
    assert!(!piper_voice_pair_present(&dir_named_like_model, "en_US-sam-medium"));
}

#[test]
fn resolves_selected_voice_when_onnx_and_json_present() {
    let resolved = resolve_piper_voice("/x/tts", &pair("en_US-joe-medium"), "en_US-joe-medium").unwrap();
    assert_eq!(resolved.id, "en_US-joe-medium");
    assert_eq!(resolved.onnx_path, "/x/tts/en_US-joe-medium.onnx");
}

#[test]
fn falls_back_to_default_when_selection_missing() {
    let resolved = resolve_piper_voice("/x/tts", &pair("en_US-lessac-medium"), "en_US-joe-medium").unwrap();
    assert_eq!(resolved.id, "en_US-lessac-medium");
    assert_eq!(resolved.onnx_path, "/x/tts/en_US-lessac-medium.onnx");
}

#[test]
fn onnx_only_selection_falls_back_to_default_pair() {
    let mut listing = pair("en_US-lessac-medium");
    listing.push(file("en_US-joe-medium.onnx"));
    let resolved = resolve_piper_voice("/x/tts", &listing, "en_US-joe-medium").unwrap();
    assert_eq!(resolved.id, "en_US-lessac-medium");
}

#[test]
fn default_onnx_only_without_json_is_unresolved() {
    let listing = vec![file("en_US-lessac-medium.onnx")];
    let err = resolve_piper_voice("/x/tts", &listing, "en_US-lessac-medium").unwrap_err();
    assert!(err.contains("en_US-lessac-medium"), "error should mention the voice id: {err}");
    assert_eq!(
        err,
        "piper voice not found — tried 'en_US-lessac-medium' and default 'en_US-lessac-medium' (need .onnx + .onnx.json)"
    );
}

#[test]
fn curated_download_urls_are_pinned() {
    let (onnx_url, json_url) = curated_voice_download_urls("en_US-joe-medium").unwrap();
    assert_eq!(
        onnx_url,
        "https://huggingface.co/rhasspy/piper-voices/resolve/v1.0.0/en/en_US/joe/medium/en_US-joe-medium.onnx"
    );
    assert_eq!(
        json_url,
        "https://huggingface.co/rhasspy/piper-voices/resolve/v1.0.0/en/en_US/joe/medium/en_US-joe-medium.onnx.json"
    );
    assert_eq!(
        curated_voice_hf_stem("en_GB-cori-medium").unwrap(),
        "en/en_GB/cori/medium/en_GB-cori-medium"
    );
    assert!(is_curated_piper_voice_id("en_US-sam-medium"));
    assert!(!is_curated_piper_voice_id("en_US-amy-medium"));
    assert_eq!(
        curated_voice_download_urls("en_US-amy-medium").unwrap_err(),
        "unknown curated piper voice id: en_US-amy-medium"
    );
    assert_eq!(
        partial_path("/m/tts", "en_US-joe-medium.onnx"),
        "/m/tts/en_US-joe-medium.onnx.download-partial"
    );
}

// ── curated voice download steps ─────────────────────────────────────────────

fn run_download(id: &str, fetch_ok: [bool; 2], pair_after: bool) -> (Vec<DownloadStep>, Result<(), String>) {
    let (mut dl, mut steps) = VoiceDownload::start(id, "/m/tts", false);
    let mut all = Vec::new();
    let mut fetches = 0usize;
    loop {
        let mut next_outcome = StepOutcome::Done;
        for s in steps.drain(..) {
            match &s {
                DownloadStep::Finish(r) => {
                    let r = r.clone();
                    all.push(s);
                    return (all, r);
                }
                DownloadStep::Fetch { .. } => {
                    let _ = dl.on_bytes(10, 10);
                    next_outcome = if fetch_ok[fetches] {
                        StepOutcome::Done
                    } else {
                        StepOutcome::Failed("network down".to_string())
                    };
                    fetches += 1;
                }
                DownloadStep::ProbeFiles => {
                    next_outcome = if matches!(dl.phase, DownloadPhase::Verifying) {
                        StepOutcome::Files { onnx_present: pair_after, json_present: pair_after }
                    } else {
                        StepOutcome::Files { onnx_present: false, json_present: false }
                    };
                }
                _ => {}
            }
            all.push(s);
        }
        steps = dl.next(next_outcome);
    }
}

#[test]
fn download_fetches_onnx_and_json_and_marks_installed() {
    let (steps, result) = run_download("en_US-joe-medium", [true, true], true);
    assert!(result.is_ok());
    let fetched: Vec<String> = steps
        .iter()
        .filter_map(|s| match s {
            DownloadStep::Fetch { url, .. } => Some(url.clone()),
            _ => None,
        })
        .collect();
    let (onnx_url, json_url) = curated_voice_download_urls("en_US-joe-medium").unwrap();
    assert_eq!(fetched, vec![onnx_url, json_url]);
    let events: Vec<_> = steps
        .iter()
        .filter_map(|s| match s {
            DownloadStep::Emit(p) => Some(p.clone()),
            _ => None,
        })
        .collect();
    assert!(events.iter().any(|e| !e.done && e.filename == "en_US-joe-medium.onnx"));
    assert!(events.iter().any(|e| e.done && e.filename == "en_US-joe-medium.onnx"));
    assert!(events.iter().any(|e| e.done && e.filename == "en_US-joe-medium.onnx.json"));
    assert!(events.iter().all(|e| e.voice_id == "en_US-joe-medium"));
    assert!(steps.iter().any(|s| matches!(s, DownloadStep::Rename { from, to }
        if from == "/m/tts/en_US-joe-medium.onnx.download-partial" && to == "/m/tts/en_US-joe-medium.onnx")));
}

#[test]
fn failed_json_fetch_does_not_mark_installed_or_leave_onnx_only() {
    let (steps, result) = run_download("en_US-kristin-medium", [true, false], true);
    let err = result.unwrap_err();
    assert!(err.contains("network down"), "error should surface failure: {err}");
    assert!(!steps.iter().any(|s| matches!(s, DownloadStep::Rename { .. })));
    let removed: Vec<String> = steps
        .iter()
        .filter_map(|s| match s {
            DownloadStep::Remove(p) => Some(p.clone()),
            _ => None,
        })
        .collect();
    assert!(removed.contains(&"/m/tts/en_US-kristin-medium.onnx.download-partial".to_string()));
    assert!(removed.contains(&"/m/tts/en_US-kristin-medium.onnx.json.download-partial".to_string()));
}

#[test]
fn unverified_pair_after_promotion_is_removed() {
    let (steps, result) = run_download("en_US-sam-medium", [true, true], false);
    assert_eq!(
        result.unwrap_err(),
        "download of 'en_US-sam-medium' did not leave a verified onnx+json pair"
    );
    assert!(steps.iter().any(|s| matches!(s, DownloadStep::Remove(p) if p == "/m/tts/en_US-sam-medium.onnx")));
    assert!(steps.iter().any(|s| matches!(s, DownloadStep::Remove(p) if p == "/m/tts/en_US-sam-medium.onnx.json")));
}

#[test]
fn unknown_voice_id_is_rejected() {
    let (_dl, steps) = VoiceDownload::start("en_US-amy-medium", "/m/tts", false);
    assert_eq!(steps.len(), 1);
    match &steps[0] {
        DownloadStep::Finish(Err(e)) => assert!(e.contains("unknown"), "{e}"),
        other => panic!("expected failure, got {other:?}"),
    }
}

#[test]
fn present_pair_reports_done_without_fetching() {
    let (_dl, steps) = VoiceDownload::start("en_US-joe-medium", "/m/tts", true);
    assert_eq!(steps.len(), 3);
    assert!(matches!(&steps[0], DownloadStep::Emit(p) if p.done && p.filename == "en_US-joe-medium.onnx"));
    assert!(matches!(&steps[1], DownloadStep::Emit(p) if p.done && p.filename == "en_US-joe-medium.onnx.json"));
    assert!(matches!(&steps[2], DownloadStep::Finish(Ok(()))));
}

#[test]
fn failed_directory_creation_finishes_at_once() {
    let (mut dl, _) = VoiceDownload::start("en_US-joe-medium", "/m/tts", false);
    let steps = dl.next(StepOutcome::Failed("denied".to_string()));
    assert_eq!(steps.len(), 1);
    assert!(matches!(&steps[0], DownloadStep::Finish(Err(e)) if e == "create tts dir: denied"));
    assert!(dl.next(StepOutcome::Done).is_empty());
}

// ── Piper command line, WAV ─────────────────────────────────────────────────

#[test]
fn piper_is_found_by_sidecar_or_plain_name() {
    let missing = FileStat { exists: false, is_file: false, len: 0, mode: 0 };
    let big = FileStat { exists: true, is_file: true, len: 4096, mode: 0o755 };
    let small = FileStat { exists: true, is_file: true, len: 100, mode: 0o755 };
    assert_eq!(
        find_piper_in(Some("/b/piper/piper-x".to_string()), "/b", &vec![missing, missing]).unwrap(),
        "/b/piper/piper-x"
    );
    assert_eq!(find_piper_in(None, "/b", &vec![small, big]).unwrap(), "/b/piper/piper");
    assert_eq!(find_piper_in(None, "/b", &vec![big, big]).unwrap(), "/b/piper/piper.exe");
    assert_eq!(
        find_piper_in(None, "/b", &vec![small, missing]).unwrap_err(),
        "piper not found. Tried binaries/piper/. Run: deno task setup"
    );
    assert_eq!(plain_piper_candidates("/b"), vec!["/b/piper/piper.exe", "/b/piper/piper"]);
}

#[test]
fn tts_model_is_looked_up_beside_and_above_binaries() {
    assert_eq!(
        tts_model_candidates("/app/data/binaries"),
        vec![
            "/app/data/models/tts/en_US-lessac-medium.onnx".to_string(),
            "/app/models/tts/en_US-lessac-medium.onnx".to_string(),
        ]
    );
    assert_eq!(
        find_tts_model_in("/app/data/binaries", &vec![false, true]).unwrap(),
        "/app/models/tts/en_US-lessac-medium.onnx"
    );
    assert_eq!(
        find_tts_model_in("/app/data/binaries", &vec![false, false]).unwrap_err(),
        "piper voice model not found — run: deno task setup"
    );
}

#[test]
fn piper_invocation_prepends_library_dir() {
    let inv = piper_invocation("/b/piper/piper", "/m/v.onnx", "/tmp/o.wav", PlatformId::Linux, "");
    assert_eq!(inv.program, "/b/piper/piper");
    assert_eq!(
        inv.args,
        vec!["--model", "/m/v.onnx", "--output_file", "/tmp/o.wav", "--sentence_silence", "0.1"]
    );
    assert_eq!(inv.cwd, "/b/piper");
    assert_eq!(inv.env_name, "LD_LIBRARY_PATH");
    assert_eq!(inv.env_value, "/b/piper");
    let mac = piper_invocation("/b/piper/piper", "m", "o", PlatformId::Macos, "/usr/lib");
    assert_eq!(mac.env_name, "DYLD_LIBRARY_PATH");
    assert_eq!(mac.env_value, "/b/piper:/usr/lib");
    let win = piper_invocation("C:/b/piper/piper.exe", "m", "o", PlatformId::Windows, "");
    assert_eq!(win.env_name, "PATH");
    assert_eq!(win.env_value, "C:/b/piper;");
    assert_eq!(piper_exit_message(Some(-3)), "piper exited Some(-3)");
    assert_eq!(piper_exit_message(None), "piper exited None");
}

#[test]
fn tts_client_plans_run_or_reports_missing_parts() {
    let client = TtsClient::new(5000);
    match client.plan("**Hi**", Ok("/b/piper/piper".into()), Ok("/m/v.onnx".into()), "/tmp/o.wav", PlatformId::Linux, "/x") {
        TtsPlan::Run { invocation, text } => {
            assert_eq!(text, "Hi");
            assert_eq!(invocation.env_value, "/b/piper:/x");
        }
        other => panic!("expected run, got {other:?}"),
    }
    assert!(matches!(
        client.plan("Hi", Err("no piper".into()), Ok("m".into()), "o", PlatformId::Linux, ""),
        TtsPlan::Fail { error } if error == "no piper"
    ));
    assert!(matches!(client.plan(" ", Err("x".into()), Err("y".into()), "o", PlatformId::Linux, ""), TtsPlan::Nothing));
}

fn make_wav(sample_rate: u32, channels: u16, samples_i16: &[i16]) -> Vec<u8> {
    let data_bytes = (samples_i16.len() * 2) as u32;
    let mut w = Vec::new();
    w.extend_from_slice(b"RIFF");
    w.extend_from_slice(&(36 + data_bytes).to_le_bytes());
    w.extend_from_slice(b"WAVE");
    w.extend_from_slice(b"fmt ");
    w.extend_from_slice(&16u32.to_le_bytes());
    w.extend_from_slice(&1u16.to_le_bytes());
    w.extend_from_slice(&channels.to_le_bytes());
    w.extend_from_slice(&sample_rate.to_le_bytes());
    let byte_rate = sample_rate * channels as u32 * 2;
    w.extend_from_slice(&byte_rate.to_le_bytes());
    w.extend_from_slice(&(channels * 2).to_le_bytes());
    w.extend_from_slice(&16u16.to_le_bytes());
    w.extend_from_slice(b"data");
    w.extend_from_slice(&data_bytes.to_le_bytes());
    for &s in samples_i16 {
        w.extend_from_slice(&s.to_le_bytes());
    }
    w
}

#[test]
fn wav_to_f32_reads_sample_rate_and_channels() {
    let wav = make_wav(22050, 1, &[0i16, 16384, -16384, 32767]);
    let pcm = parse_wav(&wav);
    assert_eq!(pcm.sample_rate, 22050, "sample rate from WAV header");
    assert_eq!(pcm.channels, 1, "mono channel count");
    assert_eq!(pcm.samples.len(), 4);
    let samples: Vec<f32> = pcm.samples.iter().map(|&s| s as f32 / 32768.0).collect();
    assert!((samples[3] - 1.0f32).abs() < 0.001, "max positive sample");
    assert!((samples[2] + 0.5f32).abs() < 0.001, "-16384 / 32768 = -0.5");
}

#[test]
fn wav_too_short_returns_defaults() {
    let pcm = parse_wav(&vec![0u8; 10]);
    assert!(pcm.samples.is_empty());
    assert_eq!(pcm.sample_rate, 44100);
    assert_eq!(pcm.channels, 1);
}

#[test]
fn wav_stereo_is_detected() {
    let wav = make_wav(48000, 2, &[100i16, 200]);
    let pcm = parse_wav(&wav);
    assert_eq!(pcm.sample_rate, 48000);
    assert_eq!(pcm.channels, 2);
    assert_eq!(pcm.samples, vec![100, 200]);
}

#[test]
fn wav_header_floors_rate_and_channels() {
    let mut wav = make_wav(4000, 0, &[-1i16]);
    wav.push(7);
    let pcm = parse_wav(&wav);
    assert_eq!(pcm.sample_rate, 8000);
    assert_eq!(pcm.channels, 1);
    assert_eq!(pcm.samples, vec![-1]);
}

// ── capture configuration and devices ───────────────────────────────────────

#[test]
fn pick_input_config_prefers_mono_stt_rate_when_advertised() {
    // Pulse advertises 1..=768000 for mono and stereo F32 with a 44100 stereo default.
    let ranges = vec![
        ConfigRange { channels: 2, is_f32: true, min_rate: 1, max_rate: 768000 },
        ConfigRange { channels: 1, is_f32: true, min_rate: 1, max_rate: 768000 },
    ];
    assert_eq!(pick_input_config(&ranges), InputChoice::Range { index: 1, rate: 16000 });
}

#[test]
fn pick_input_config_falls_back_in_order() {
    let mono48 = ConfigRange { channels: 1, is_f32: true, min_rate: 48000, max_rate: 48000 };
    let stereo = ConfigRange { channels: 2, is_f32: true, min_rate: 8000, max_rate: 96000 };
    let int_mono = ConfigRange { channels: 1, is_f32: false, min_rate: 1, max_rate: 96000 };
    assert_eq!(pick_input_config(&vec![stereo, mono48]), InputChoice::Range { index: 1, rate: 48000 });
    assert_eq!(pick_input_config(&vec![int_mono, stereo]), InputChoice::Range { index: 1, rate: 48000 });
    assert_eq!(pick_input_config(&vec![int_mono]), InputChoice::DeviceDefault);
    assert_eq!(pick_input_config(&Vec::new()), InputChoice::DeviceDefault);
}

#[test]
fn devices_prefer_pulse_then_pipewire() {
    let dev = |n: &str, ok: bool| DeviceFact { name: Some(n.to_string()), config_ok: ok };
    let devices = vec![dev("default", true), dev("pipewire", true), dev("pulse", false)];
    assert_eq!(resolve_input_device(&devices, Some(true)), DeviceChoice::Listed(1));
    assert_eq!(resolve_output_device(&devices, true), DeviceChoice::Listed(1));
    let plain = vec![dev("hw:0", false), dev("hw:1", true)];
    assert_eq!(resolve_input_device(&plain, Some(true)), DeviceChoice::HostDefault);
    assert_eq!(resolve_input_device(&plain, Some(false)), DeviceChoice::Listed(1));
    assert_eq!(resolve_input_device(&vec![dev("x", false)], None), DeviceChoice::NoDevice);
    assert_eq!(resolve_output_device(&plain, false), DeviceChoice::NoDevice);
}

// ── voice session ────────────────────────────────────────────────────────────

#[test]
fn start_runs_capture_and_reports_format() {
    let (mode, hint) = transcription_mode(false);
    assert_eq!(mode, TranscriptionMode::Off);
    assert!(hint.is_some());
    assert_eq!(capture_format(Some((48000, 1))), (48000, 1));
    let mut session = VoiceSession::new();
    assert!(session.stop());
}

#[test]
fn stop_is_idempotent() {
    let mut session = VoiceSession::new();
    assert!(session.stop());
    assert!(!session.stop());
    assert!(!session.stop());
    assert!(session.is_stopped());
}

#[test]
fn soft_fail_starts_mic_with_transcription_off_and_repair_hint() {
    let (mode, hint) = transcription_mode(false);
    assert_eq!(mode, TranscriptionMode::Off);
    let joined = hint.unwrap();
    assert!(joined.contains("transcription off"), "{joined}");
    assert!(joined.contains("Setup Wizard") || joined.contains("Setup repair"), "{joined}");
    assert_eq!(transcription_mode(true), (TranscriptionMode::On, None));
    assert_eq!(capture_format(None), (16000, 1));
}
