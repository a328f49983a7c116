use proactive_agent::audio::piper::curated_voice_download_urls;
use proactive_agent::audio::speech::PiperSpeak;
use proactive_agent::audio::voice_download::{DownloadPhase, DownloadStep, StepOutcome, VoiceDownload};
use proactive_agent::monitor::DeferredMessage;
use proactive_agent::orchestrator::adapter::{
    body_excerpt, chat_error_message, chat_start_of, ChatStart, ModelIdCache, ReplyText,
};
use proactive_agent::orchestrator::context::{fit_context_by_age, order_oldest_first, EpisodicMemory, Turn};
use proactive_agent::orchestrator::conversation::Conversation;
use proactive_agent::orchestrator::defer::extract_defer;
use proactive_agent::orchestrator::scheduler::ProactivityScheduler;
use proactive_agent::platform::artifact::DirEntryFact;

fn mem(content: &str, timestamp: i64) -> EpisodicMemory {
    EpisodicMemory { content: content.to_string(), timestamp }
}

#[test]
fn defer_block_without_json_is_stripped_without_payload() {
    let r = extract_defer("Hi <defer>soon</defer>");
    assert_eq!(r.cleaned, "Hi");
    assert!(r.payload.is_none());
    let r = extract_defer("A <defer>x</defer> B <defer>y</defer> C");
    assert_eq!(r.cleaned, "ABC");
    let r = extract_defer("Ok <defer>{\"message\":\"m\",\"after_minutes\":1,\"trigger\":\"t\"}</defer> then <defer>junk</defer>!");
    assert_eq!(r.cleaned, "Okthen!");
    assert_eq!(r.payload.as_deref(), Some("{\"message\":\"m\",\"after_minutes\":1,\"trigger\":\"t\"}"));
    let r = extract_defer("unclosed <defer> tag");
    assert_eq!(r.cleaned, "unclosed <defer> tag");
}

#[test]
fn eviction_is_by_storage_age() {
    let ordered = order_oldest_first(vec![mem("new", 300), mem("old", 100), mem("mid", 200), mem("old2", 100)]);
    let names: Vec<&str> = ordered.iter().map(|m| m.content.as_str()).collect();
    assert_eq!(names, vec!["old", "old2", "mid", "new"]);
    let memories = vec![mem("a b c d e f", 500), mem("g h i", 100)];
    let recent = vec![Turn { role: "user".into(), content: "one two three".into() }];
    // Only one memory fits: the newer one stays even though it came first.
    let (ep, rc) = fit_context_by_age("p", &Vec::new(), memories, recent, "q", 18);
    assert_eq!(ep, vec!["a b c d e f".to_string()]);
    assert_eq!(rc.len(), 1);
}

#[test]
fn record_exchange_keeps_the_context_sent() {
    let mut conv = Conversation::with_session("s".to_string());
    let ctx = conv.prepare_context("P", &Vec::new(), vec![mem("remember", 1)], 10, 4096, "hi".to_string());
    assert_eq!(ctx.episodic.content, "remember");
    conv.record_exchange("hi".to_string(), "hello", ctx);
    let last = conv.last_context().unwrap();
    assert_eq!(last.user_input, "hi");
    assert_eq!(last.episodic.content, "remember");
}

#[test]
fn wall_clock_drain_records_last_fired() {
    let mut sched = ProactivityScheduler::new();
    sched.add(DeferredMessage { id: "a".into(), message: "x".into(), trigger: "t".into(), fire_at: 0 });
    sched.add(DeferredMessage { id: "b".into(), message: "y".into(), trigger: "t".into(), fire_at: 1 });
    let due = sched.drain_due();
    assert_eq!(due.len(), 2);
    assert_eq!(sched.state().last_fired.unwrap().id, "b");
}

#[test]
fn download_layout_is_kept_across_steps() {
    let (mut dl, _) = VoiceDownload::start("en_US-joe-medium", "/m/tts", false);
    let (onnx_url, json_url) = curated_voice_download_urls("en_US-joe-medium").unwrap();
    let steps = dl.next(StepOutcome::Done);
    assert!(matches!(&steps[3], DownloadStep::Fetch { url, dest } if *url == onnx_url && dest == "/m/tts/en_US-joe-medium.onnx.download-partial"));
    let p = dl.on_bytes(7, 9);
    assert_eq!((p.downloaded, p.total), (7, 9));
    assert_eq!(dl.last, (7, 9));
    let steps = dl.next(StepOutcome::Done);
    assert!(matches!(&steps[0], DownloadStep::Emit(e) if e.done && e.downloaded == 7 && e.total == 9));
    assert!(matches!(&steps[2], DownloadStep::Fetch { url, .. } if *url == json_url));
    let _ = dl.on_bytes(3, 3);
    let steps = dl.next(StepOutcome::Failed("network down".into()));
    assert!(matches!(&steps[0], DownloadStep::Remove(p) if p == "/m/tts/en_US-joe-medium.onnx.download-partial"));
    assert!(matches!(&steps[1], DownloadStep::Remove(p) if p == "/m/tts/en_US-joe-medium.onnx.json.download-partial"));
    assert!(matches!(dl.phase, DownloadPhase::CleaningUp));
    assert_eq!(dl.json_url, json_url);
}

#[test]
fn chat_status_decides_fallback_and_forgets_failed_model() {
    assert_eq!(chat_start_of(404), ChatStart::Fallback);
    assert_eq!(chat_start_of(200), ChatStart::Proceed);
    assert_eq!(chat_start_of(500), ChatStart::Failed);
    let mut ids = ModelIdCache::new("llama-chat".into());
    assert_eq!(ids.resolve(Some("m1".into())), "m1");
    assert_eq!(ids.on_status(200), ChatStart::Proceed);
    assert_eq!(ids.cached(), Some("m1".to_string()));
    assert_eq!(ids.on_status(503), ChatStart::Failed);
    assert_eq!(ids.cached(), None);
    assert_eq!(body_excerpt(&"x".repeat(250)).len(), 200);
    assert_eq!(body_excerpt("short"), "short");
    assert_eq!(chat_error_message("m", "500 Internal Server Error", "oops"), "model='m' → 500 Internal Server Error — oops");
    let mut reply = ReplyText::new();
    reply.push_token(Some("Hel"));
    reply.push_token(None);
    reply.push_token(Some("lo"));
    assert_eq!(reply.into_string(), "Hello");
}

#[test]
fn preview_downloads_only_missing_pairs() {
    let speak = PiperSpeak::new("/m".to_string());
    let listing = vec![
        DirEntryFact { name: "en_US-joe-medium.onnx".into(), is_file: true },
        DirEntryFact { name: "en_US-joe-medium.onnx.json".into(), is_file: true },
    ];
    assert!(!speak.preview_needs_download("en_US-joe-medium", &listing));
    assert!(speak.preview_needs_download("en_US-kristin-medium", &listing));
}

#[test]
fn missing_models_dir_still_lists_active_model() {
    let extra = proactive_agent::models::extra_model("/elsewhere/a-7b.gguf", true, "/models", 5, 6);
    let list = proactive_agent::models::list_models_from(false, &Vec::new(), extra);
    assert_eq!(list.len(), 1);
    assert_eq!(list[0].filename, "/elsewhere/a-7b.gguf");
    assert_eq!(list[0].param_count, "7B");
    assert!(proactive_agent::models::list_models_from(false, &Vec::new(), None).is_empty());
}

#[test]
fn probe_success_lines_cut_bodies_by_characters() {
    use_probe_lines();
}

fn use_probe_lines() {
    use_line("GET", "/health", "200 OK", "{\"status\":\"ok\"}", 200, "\nGET /health → 200 OK\n{\"status\":\"ok\"}\n");
    let long = "é".repeat(160);
    let line = proactive_agent::commands::probe_success_line("POST", "/x", "500 Internal Server Error", &long, 150);
    assert_eq!(line, format!("\nPOST /x → 500 Internal Server Error\n{}\n", "é".repeat(150)));
}

fn use_line(m: &str, p: &str, s: &str, b: &str, limit: usize, want: &str) {
    assert_eq!(proactive_agent::commands::probe_success_line(m, p, s, b, limit), want);
}

#[test]
fn queue_path_follows_std_parent() {
    assert_eq!(
        ProactivityScheduler::queue_path_beside_config("/home/u/.config/app/config.json"),
        "/home/u/.config/app/deferred_queue.json"
    );
    assert_eq!(ProactivityScheduler::queue_path_beside_config("/config.json"), "/deferred_queue.json");
}
