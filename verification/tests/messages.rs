use proactive_agent::audio::stt::{ort_missing_context, resolve_ort_dylib, OrtEntry};
use proactive_agent::binary_store::{github_latest_url, llama_archive_labels, release_tag};
use proactive_agent::commands::{diagnostic_batch, distillation_message, fired_reply, stt_engine_message};
use proactive_agent::monitor::{health_url, monitored_sidecars, transition_message, SidecarState};
use proactive_agent::orchestrator::adapter::{native_stop_tokens, reported_model_id, ModelIdCache, SseBuffer};
use proactive_agent::setup::status::ort_lib_dir_in;
use proactive_agent::sidecar::{
    chat_model_note, executable_mode, fuser_args, sidecar_event_message, tts_note, SidecarEvent,
};

fn ort(name: &str, usable: bool) -> OrtEntry {
    OrtEntry { name: name.to_string(), usable }
}

#[test]
fn resolve_ort_dylib_finds_so_in_fixture_dir() {
    let entries = vec![ort("libonnxruntime.so.1.23.2", true)];
    assert_eq!(resolve_ort_dylib("/r", true, &entries).unwrap(), "/r/libonnxruntime.so.1.23.2");
}

#[test]
fn ort_library_prefers_shortest_name() {
    let entries = vec![
        ort("libonnxruntime.so.1.23.2", true),
        ort("libonnxruntime_providers_shared.so", true),
        ort("libonnxruntime.so.1", true),
        ort("libonnxruntime.so", false),
        ort("README", true),
    ];
    assert_eq!(resolve_ort_dylib("/r", true, &entries).unwrap(), "/r/libonnxruntime.so.1");
    assert_eq!(resolve_ort_dylib("/r", true, &vec![ort("ONNXRUNTIME.DLL", true)]).unwrap(), "/r/ONNXRUNTIME.DLL");
    assert_eq!(resolve_ort_dylib("/r", true, &Vec::new()).unwrap_err(), "no onnxruntime shared library in /r");
    assert_eq!(resolve_ort_dylib("/r", false, &entries).unwrap_err(), "/r is not a directory");
    assert_eq!(
        ort_missing_context("/b/ort"),
        "ONNX Runtime library missing under /b/ort — open Setup Wizard / Setup repair"
    );
    assert_eq!(ort_lib_dir_in("/b"), "/b/ort");
}

#[test]
fn sidecar_monitor_messages() {
    assert_eq!(monitored_sidecars(18080, 18081), vec![("llama", 18080), ("embed", 18081)]);
    assert_eq!(transition_message("llama", 18080, SidecarState::Online, 12), "sidecar llama :18080 → online (12ms)");
    assert_eq!(transition_message("embed", 18081, SidecarState::Loading, 0), "sidecar embed :18081 → loading model…");
    assert_eq!(transition_message("embed", 1, SidecarState::Offline, 0), "sidecar embed :1 → offline");
    assert_eq!(health_url(18080), "http://127.0.0.1:18080/health");
}

#[test]
fn sidecar_lifecycle_messages() {
    assert_eq!(sidecar_event_message("llama (embed)", SidecarEvent::NotFound), "llama (embed): not found — open Setup repair");
    assert_eq!(sidecar_event_message("llama (chat)", SidecarEvent::Started(42)), "llama (chat) started (pid 42)");
    assert_eq!(
        sidecar_event_message("llama (chat)", SidecarEvent::Exited(0)),
        "llama (chat) exited (code 0 — clean exit)"
    );
    assert_eq!(sidecar_event_message("x", SidecarEvent::Exited(-1)), "x exited (code -1 — unknown)");
    assert_eq!(sidecar_event_message("x", SidecarEvent::Launching("/b/x".into())), "x launching → /b/x");
    assert_eq!(sidecar_event_message("x", SidecarEvent::FailedToStart("denied".into())), "x failed to start: denied");
    assert_eq!(chat_model_note(""), Some("chat model not configured — pick one in the Models tab"));
    assert_eq!(chat_model_note("/m/a.gguf"), None);
    assert_eq!(tts_note(true), "TTS (Piper) ready — subprocess mode");
    assert_eq!(tts_note(false), "TTS unavailable — open Setup repair");
    assert_eq!(fuser_args(18080, "TERM"), vec!["-k", "-TERM", "18080/tcp"]);
    assert_eq!(executable_mode(0o600), 0o755);
    assert_eq!(executable_mode(0o4644), 0o4755);
}

#[test]
fn release_helpers() {
    assert_eq!(github_latest_url("ggml-org/llama.cpp"), "https://api.github.com/repos/ggml-org/llama.cpp/releases/latest");
    assert_eq!(llama_archive_labels(true), ("llama-cpu.tar.gz", "llama-vulkan.tar.gz"));
    assert_eq!(llama_archive_labels(false), ("llama-cpu.zip", "llama-vulkan.zip"));
    assert_eq!(release_tag(None), "unknown");
    assert_eq!(release_tag(Some("b1234".into())), "b1234");
}

#[test]
fn command_texts() {
    assert_eq!(fired_reply("ping"), "fired immediately: ping");
    let bat = diagnostic_batch("C:\\b\\llama", "llama-server.exe");
    assert!(bat.starts_with("@echo off\r\ncd /d \"C:\\b\\llama\"\r\n"));
    assert!(bat.contains("llama-server.exe --version\r\n"));
    assert!(bat.ends_with("pause\r\n"));
}

#[test]
fn model_id_resolution_caches_until_failure() {
    assert_eq!(native_stop_tokens(), vec!["<|eot_id|>", "<|eom_id|>", "<|im_end|>"]);
    assert_eq!(reported_model_id(Some("a".into()), Some("b".into())), Some("a".to_string()));
    assert_eq!(reported_model_id(None, Some("b".into())), Some("b".to_string()));
    let mut cache = ModelIdCache::new("llama-chat".to_string());
    assert_eq!(cache.model_id(), "llama-chat");
    assert_eq!(cache.cached(), None);
    assert_eq!(cache.resolve(None), "llama-chat");
    assert_eq!(cache.resolve(Some("gguf-model".into())), "gguf-model");
    assert_eq!(cache.resolve(Some("other".into())), "gguf-model", "cached id wins");
    cache.forget();
    assert_eq!(cache.cached(), None);
    assert_eq!(cache.resolve(Some("other".into())), "other");
}

#[test]
fn framing_text_and_bytes_agree() {
    let mut a = SseBuffer::new();
    let mut b = SseBuffer::new();
    let text = "data: {\"x\":1}\r\n: keep-alive\ndata:{\"y\":2}\n";
    assert_eq!(a.push_text(text), b.push_chunk(text.as_bytes()));
    let mut c = SseBuffer::new();
    assert_eq!(c.push_chunk(&[0xff, b'\n']), Vec::<String>::new());
}

#[test]
fn startup_messages() {
    assert_eq!(stt_engine_message(Ok(())), "Host STT path ready (in-process ort, CPU)");
    assert_eq!(
        stt_engine_message(Err("no vocab".into())),
        "Host STT soft-fail — Core agent continues; transcription off. Open Setup Wizard / Setup repair.\nno vocab"
    );
    assert_eq!(distillation_message(Ok(0)), None);
    assert_eq!(distillation_message(Ok(3)), Some("distilled 3 new semantic facts".to_string()));
    assert_eq!(distillation_message(Err("x".into())), Some("distillation error: x".to_string()));
}

#[test]
fn fresh_followups_get_distinct_uuid_ids() {
    use_defer_fields();
}

fn use_defer_fields() {
    let make = || proactive_agent::orchestrator::defer::DeferFields {
        message: "m".to_string(),
        after_minutes: 5,
        trigger: "t".to_string(),
    };
    let a = proactive_agent::orchestrator::defer::build_deferred(Some(make())).unwrap();
    let b = proactive_agent::orchestrator::defer::build_deferred(Some(make())).unwrap();
    assert_eq!(a.id.len(), 36);
    assert_ne!(a.id, b.id);
    let conv = proactive_agent::orchestrator::conversation::Conversation::new();
    assert_eq!(conv.session_id().len(), 36);
    assert!(proactive_agent::setup::status::chat_model_present("/m/a.gguf", true));
    assert!(!proactive_agent::setup::status::chat_model_present("", true));
    assert!(!proactive_agent::setup::status::chat_model_present("/m/a.gguf", false));
}

#[test]
fn llama_release_falls_back_to_former_repository() {
    use_fallback();
}

fn use_fallback() {
    assert_eq!(proactive_agent::binary_store::llama_fallback_repo("ggml-org/llama.cpp"), Some("ggerganov/llama.cpp"));
    assert_eq!(proactive_agent::binary_store::llama_fallback_repo("ggerganov/llama.cpp"), None);
    assert_eq!(proactive_agent::constants::DEFAULT_LLAMA_PORT, 18080);
    assert!(proactive_agent::constants::DEFAULT_PERSONA_PROMPT.contains("<defer>"));
}
