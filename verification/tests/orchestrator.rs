use proactive_agent::monitor::DeferredMessage;
use proactive_agent::orchestrator::adapter::{base_url, format_llama3_prompt, SseBuffer};
use proactive_agent::orchestrator::context::{
    estimate_tokens, fit_context, recent_window, AssembledContext, ContextBlock, Message, Turn,
};
use proactive_agent::orchestrator::conversation::{turns_to_store, Conversation};
use proactive_agent::orchestrator::defer::{
    build_deferred, deferred_at, extract_defer, importance_heuristic, DeferFields, ImportanceLevel,
};
use proactive_agent::orchestrator::scheduler::ProactivityScheduler;

fn msg(id: &str, message: &str, trigger: &str, fire_at: i64) -> DeferredMessage {
    DeferredMessage {
        id: id.to_string(),
        message: message.to_string(),
        trigger: trigger.to_string(),
        fire_at,
    }
}

fn turn(role: &str, content: &str) -> Turn {
    Turn { role: role.to_string(), content: content.to_string() }
}

// ── scheduler ────────────────────────────────────────────────────────────────

#[test]
fn add_replaces_pending_with_same_message_and_trigger() {
    let mut sched = ProactivityScheduler::new();
    let first = msg("a", "check in", "task", 1_000);
    let second = msg("b", "check in", "task", 2_000);
    let other = msg("c", "check in", "other", 3_000);
    sched.add(first);
    sched.add(second);
    sched.add(other);
    let pending = sched.state().pending;
    assert_eq!(pending.len(), 2);
    assert!(pending.iter().any(|m| m.id == "b"));
    assert!(pending.iter().any(|m| m.id == "c"));
}

#[test]
fn drain_due_returns_all_overdue_and_leaves_future() {
    let mut sched = ProactivityScheduler::new();
    sched.add(msg("first", "one", "t1", 100));
    sched.add(msg("future", "three", "t3", 10_000));
    sched.add(msg("second", "two", "t2", 200));
    let due = sched.drain_due_at(5_000);
    let ids: Vec<&str> = due.iter().map(|m| m.id.as_str()).collect();
    assert_eq!(ids, vec!["first", "second"]);
    let state = sched.state();
    assert_eq!(state.pending.len(), 1);
    assert_eq!(state.pending[0].id, "future");
    assert_eq!(state.last_fired.unwrap().id, "second");
    assert!(sched.drain_due_at(5_000).is_empty(), "a second drain at the same instant delivers nothing");
}

#[test]
fn wall_clock_drain_delivers_past_items() {
    let mut sched = ProactivityScheduler::new();
    sched.add(msg("old", "x", "t", 0));
    sched.add(msg("far", "y", "t2", i64::MAX));
    let due = sched.drain_due();
    assert_eq!(due.len(), 1);
    assert_eq!(due[0].id, "old");
    assert_eq!(sched.state().pending[0].id, "far");
}

#[test]
fn cancel_removes_by_id_and_persists() {
    let mut sched = ProactivityScheduler::with_persist("/tmp/q.json".to_string());
    sched.add(msg("keep", "k", "t", 1));
    sched.add(msg("drop", "d", "t", 2));
    assert!(sched.cancel("drop"));
    assert!(!sched.cancel("drop"));
    let pending = sched.state().pending;
    assert_eq!(pending.len(), 1);
    assert_eq!(pending[0].id, "keep");
    assert_eq!(sched.persist_path(), Some("/tmp/q.json".to_string()));
}

#[test]
fn fire_now_removes_and_records_last_fired() {
    let mut sched = ProactivityScheduler::new();
    sched.add(msg("x", "hello", "t", 99));
    assert!(sched.fire_now("nope").is_none());
    let fired = sched.fire_now("x").unwrap();
    assert_eq!(fired.message, "hello");
    assert!(sched.state().pending.is_empty());
    assert_eq!(sched.state().last_fired.unwrap().id, "x");
}

#[test]
fn load_missing_queue_file_yields_empty_pending() {
    let loaded = ProactivityScheduler::from_loaded(Vec::new(), "/tmp/missing/deferred_queue.json".to_string());
    assert!(loaded.state().pending.is_empty());
    assert!(loaded.state().last_fired.is_none());
}

#[test]
fn queue_path_beside_config() {
    assert_eq!(
        ProactivityScheduler::queue_path_beside_config("/tmp/com.proactive.agent/config.json"),
        "/tmp/com.proactive.agent/deferred_queue.json"
    );
    assert_eq!(ProactivityScheduler::queue_path_beside_config("config.json"), "deferred_queue.json");
    assert_eq!(ProactivityScheduler::queue_path_beside_config(""), "./deferred_queue.json");
}

// ── defer tag ────────────────────────────────────────────────────────────────

#[test]
fn defer_tag_is_stripped_with_and_without_closing_tag() {
    let r = extract_defer("Sure. <defer>{\"message\":\"hi\",\"after_minutes\":5,\"trigger\":\"t\"}</defer> Bye");
    assert_eq!(r.cleaned, "Sure.Bye");
    assert_eq!(r.payload.as_deref(), Some("{\"message\":\"hi\",\"after_minutes\":5,\"trigger\":\"t\"}"));
    let r = extract_defer("Ok <defer> {\"a\":1}");
    assert_eq!(r.cleaned, "Ok");
    assert_eq!(r.payload.as_deref(), Some("{\"a\":1}"));
    let r = extract_defer("no tag here");
    assert_eq!(r.cleaned, "no tag here");
    assert!(r.payload.is_none());
}

#[test]
fn deferred_fire_time_is_minutes_after_now() {
    let fields = DeferFields { message: "m".into(), after_minutes: 60, trigger: "t".into() };
    let d = deferred_at(fields, "id1".to_string(), 1_000);
    assert_eq!(d.fire_at, 1_000 + 60 * 60_000);
    assert_eq!(d.id, "id1");
    assert!(build_deferred(None).is_none());
    let far = DeferFields { message: "m".into(), after_minutes: i64::MAX, trigger: "t".into() };
    assert!(build_deferred(Some(far)).is_none());
    let soon = DeferFields { message: "m".into(), after_minutes: 1, trigger: "t".into() };
    assert_eq!(build_deferred(Some(soon)).unwrap().trigger, "t");
}

#[test]
fn importance_follows_word_count() {
    assert_eq!(importance_heuristic("hi there"), ImportanceLevel::Low);
    assert_eq!(importance_heuristic("one two three four five"), ImportanceLevel::Medium);
    let long = "w ".repeat(51);
    assert_eq!(importance_heuristic(&long), ImportanceLevel::High);
}

// ── context ──────────────────────────────────────────────────────────────────

#[test]
fn token_estimate_is_four_thirds_of_words_rounded_up() {
    assert_eq!(estimate_tokens(""), 0);
    assert_eq!(estimate_tokens("one"), 2);
    assert_eq!(estimate_tokens("one two three"), 4);
    assert_eq!(ContextBlock::new("persona", "a b c".to_string()).token_count, 4);
}

#[test]
fn assembled_context_to_messages_layout() {
    let ctx = AssembledContext::assemble_at(
        "You are helpful.",
        &vec!["likes tea".to_string(), "lives in Oslo".to_string()],
        &vec!["said hi".to_string(), "asked about rain".to_string()],
        vec![turn("user", "hello"), turn("assistant", "hi!")],
        "what now?".to_string(),
        42,
    );
    assert_eq!(ctx.semantic.content, "likes tea\nlives in Oslo");
    assert_eq!(ctx.episodic.content, "said hi\n---\nasked about rain");
    let m = ctx.to_messages();
    assert_eq!(m.len(), 4);
    assert_eq!(m[0].role, "system");
    assert_eq!(
        m[0].content,
        "You are helpful.\n\n## What I know about you:\nlikes tea\nlives in Oslo\n\n## Relevant past context:\nsaid hi\n---\nasked about rain"
    );
    assert_eq!(m[1].content, "hello");
    assert_eq!(m[3].role, "user");
    assert_eq!(m[3].content, "what now?");
    let bare = AssembledContext::assemble_at("P", &Vec::new(), &Vec::new(), Vec::new(), "q".to_string(), 0);
    assert_eq!(bare.to_messages()[0].content, "P");
    assert_eq!(bare.total_tokens(), 2 + 2);
}

#[test]
fn fitting_drops_oldest_episodic_first_then_turns() {
    let episodic = vec!["a b c d e f".to_string(), "g h i".to_string()];
    let recent = vec![turn("user", "one two three"), turn("assistant", "four five six")];
    let (ep, rc) = fit_context("p", &Vec::new(), episodic.clone(), recent.clone(), "q", 1000);
    assert_eq!(ep.len(), 2);
    assert_eq!(rc.len(), 2);
    let (ep, rc) = fit_context("p", &Vec::new(), episodic.clone(), recent.clone(), "q", 16);
    assert_eq!(ep, vec!["g h i".to_string()]);
    assert_eq!(rc.len(), 2);
    let (ep, rc) = fit_context("p", &Vec::new(), episodic, recent, "q", 0);
    assert!(ep.is_empty());
    assert_eq!(rc.len(), 1);
    assert_eq!(rc[0].content, "four five six");
}

#[test]
fn recent_window_keeps_last_turns() {
    let turns = vec![turn("user", "1"), turn("assistant", "2"), turn("user", "3")];
    let w = recent_window(&turns, 2);
    assert_eq!(w.len(), 2);
    assert_eq!(w[0].content, "2");
    assert_eq!(recent_window(&turns, 10).len(), 3);
}

// ── conversation ─────────────────────────────────────────────────────────────

#[test]
fn conversation_records_cleaned_exchange_and_resets() {
    let mut conv = Conversation::with_session("s1".to_string());
    assert_eq!(conv.session_id(), "s1");
    let ctx = conv.prepare_context("P", &Vec::new(), Vec::new(), 10, 4096, "hello".to_string());
    assert!(ctx.recent_turns.is_empty());
    let out = conv.record_exchange(
        "hello".to_string(),
        "Hi! <defer>{\"message\":\"m\",\"after_minutes\":1,\"trigger\":\"t\"}</defer>",
        ctx,
    );
    assert_eq!(out.cleaned, "Hi!");
    assert!(out.payload.is_some());
    assert!(conv.last_context().is_some());
    let next = conv.prepare_context("P", &Vec::new(), Vec::new(), 10, 4096, "again".to_string());
    assert_eq!(next.recent_turns.len(), 2);
    assert_eq!(next.recent_turns[1].content, "Hi!");
    conv.reset();
    assert!(conv.last_context().is_none());
    let after = conv.prepare_context("P", &Vec::new(), Vec::new(), 10, 4096, "x".to_string());
    assert!(after.recent_turns.is_empty());
    let (u, a) = turns_to_store("hi", "hello there");
    assert_eq!(u.role, "user");
    assert_eq!(u.importance, ImportanceLevel::Low);
    assert_eq!(a.importance, ImportanceLevel::Medium);
}

// ── adapter ──────────────────────────────────────────────────────────────────

#[test]
fn llama3_prompt_layout() {
    let msgs = vec![
        Message { role: "system".into(), content: "S".into() },
        Message { role: "user".into(), content: "U".into() },
    ];
    assert_eq!(
        format_llama3_prompt(&msgs),
        "<|begin_of_text|><|start_header_id|>system<|end_header_id|>\n\nS<|eot_id|><|start_header_id|>user<|end_header_id|>\n\nU<|eot_id|><|start_header_id|>assistant<|end_header_id|>\n\n"
    );
    assert_eq!(base_url(18080), "http://127.0.0.1:18080");
}

#[test]
fn sse_lines_are_framed_across_chunks() {
    let mut buf = SseBuffer::new();
    assert!(buf.push_chunk(b"data: {\"a\"").is_empty());
    let out = buf.push_chunk(b":1}\n\ndata: {\"b\":2}\nevent: x\n");
    assert_eq!(out, vec!["{\"a\":1}".to_string(), "{\"b\":2}".to_string()]);
    let out = buf.push_chunk(b"data: [DONE]\ndata: {\"late\":1}\n");
    assert!(out.is_empty(), "[DONE] stops the chunk");
    let out = buf.push_chunk(b"");
    assert_eq!(out, vec!["{\"late\":1}".to_string()]);
}
