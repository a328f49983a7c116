use proactive_agent::models::{extra_model, list_models_from, ModelEntry};
use proactive_agent::monitor::{
    classify_health, parse_upper_filename, DebugEvent, EventLog, ModelInfo, SidecarDebounce,
    SidecarState, MAX_EVENT_LOG,
};

fn event(n: i64) -> DebugEvent {
    DebugEvent { timestamp: n, component: "[TEST]".to_string(), message: format!("e{n}") }
}

#[test]
fn event_log_keeps_newest_five_hundred() {
    let mut log = EventLog::new();
    for n in 0..(MAX_EVENT_LOG as i64 + 5) {
        log.push(event(n));
    }
    let all = log.recent(Some(1000));
    assert_eq!(all.len(), 500);
    assert_eq!(all[0].timestamp, 504, "newest first");
    assert_eq!(all[499].timestamp, 5, "oldest five evicted");
    assert_eq!(log.recent(None).len(), 100);
    assert_eq!(log.recent(Some(3)).iter().map(|e| e.timestamp).collect::<Vec<_>>(), vec![504, 503, 502]);
}

#[test]
fn push_event_stamps_component_and_message() {
    let mut log = EventLog::new();
    log.push_event("[STT]", "ready".to_string());
    let e = log.recent(Some(1));
    assert_eq!(e.len(), 1);
    assert_eq!(e[0].component, "[STT]");
    assert_eq!(e[0].message, "ready");
    assert!(e[0].timestamp > 0);
}

#[test]
fn health_probe_classification() {
    assert_eq!(classify_health(Some(200), ""), SidecarState::Online);
    assert_eq!(classify_health(Some(503), "{\"status\":\"loading model\"}"), SidecarState::Loading);
    assert_eq!(classify_health(Some(503), "busy"), SidecarState::Offline);
    assert_eq!(classify_health(Some(404), "loading"), SidecarState::Offline);
    assert_eq!(classify_health(None, ""), SidecarState::Offline);
    assert!(SidecarState::Online.is_alive());
    assert!(!SidecarState::Loading.is_alive());
    assert_eq!(SidecarState::Loading.as_str(), "loading");
    assert_eq!(SidecarState::Offline.as_str(), "offline");
}

#[test]
fn state_changes_commit_after_two_agreeing_polls() {
    let mut d = SidecarDebounce::new();
    assert_eq!(d.observe(SidecarState::Loading), None);
    assert_eq!(d.observe(SidecarState::Loading), Some(SidecarState::Loading));
    assert_eq!(d.observe(SidecarState::Loading), None, "already committed");
    assert_eq!(d.observe(SidecarState::Online), None, "one poll is a flicker");
    assert_eq!(d.observe(SidecarState::Loading), None);
    assert_eq!(d.observe(SidecarState::Online), None);
    assert_eq!(d.observe(SidecarState::Online), Some(SidecarState::Online));
    for _ in 0..300 {
        assert_eq!(d.observe(SidecarState::Online), None);
    }
}

#[test]
fn gguf_names_yield_quant_and_params() {
    let (q, p) = ModelInfo::parse_filename("llama-3.1-8b-instruct.q4_k_m.gguf");
    assert_eq!(q, "Q4_K_M");
    assert_eq!(p, "8B");
    let (q, p) = ModelInfo::parse_filename("mystery.gguf");
    assert_eq!(q, "UNKNOWN");
    assert_eq!(p, "?B");
    let (q, p) = parse_upper_filename("MODEL-70B-Q8_0.GGUF");
    assert_eq!((q.as_str(), p.as_str()), ("Q8_0", "70B"));
}

#[test]
fn model_list_is_sorted_gguf_then_active_extra() {
    let entries = vec![
        ModelEntry { name: "zeta-7b.Q4_0.gguf".into(), size: 3, modified: 30 },
        ModelEntry { name: "notes.txt".into(), size: 1, modified: 10 },
        ModelEntry { name: ".gguf".into(), size: 1, modified: 10 },
        ModelEntry { name: "alpha-13b.Q5_K_S.gguf".into(), size: 2, modified: 20 },
    ];
    let extra = extra_model("/elsewhere/beta-3b.gguf", true, "/models", 9, 90);
    let list = list_models_from(true, &entries, extra);
    let names: Vec<&str> = list.iter().map(|m| m.filename.as_str()).collect();
    assert_eq!(names, vec!["alpha-13b.Q5_K_S.gguf", "zeta-7b.Q4_0.gguf", "/elsewhere/beta-3b.gguf"]);
    assert_eq!(list[0].quant_type, "Q5_K_S");
    assert_eq!(list[0].param_count, "13B");
    assert_eq!(list[2].param_count, "3B");
    assert_eq!(list[2].file_size_bytes, 9);
    assert!(list_models_from(false, &entries, None).is_empty());
    assert!(extra_model("/models/beta.gguf", true, "/models", 1, 1).is_none());
    assert!(extra_model("/x/beta.gguf", false, "/models", 1, 1).is_none());
    assert!(extra_model("", true, "/models", 1, 1).is_none());
}
