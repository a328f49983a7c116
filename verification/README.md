# proactive_agent

The core of a local, proactive desktop assistant — chat with memory, follow-ups
the model schedules for itself, and voice in and out — written in Verus and
proved against its contracts.

## Layout

- `src/` — the verified library.
  - `platform/` — per-OS artifact catalogs (llama.cpp, Piper, speech-to-text
    models, ONNX Runtime), where each artifact lives and when it counts as ready.
  - `setup/` — Setup Wizard readiness (Core agent and Host speech-to-text gates)
    and the system prerequisite rows.
  - `orchestrator/` — context assembly and fitting, the `<defer>` tag, the
    proactivity scheduler, conversation state and the llama.cpp adapter framing.
  - `audio/` — transcript filtering, Piper voices and voice downloads, speech
    text cleaning, the playback gate, WAV reading, device and capture choice.
  - `binary_store.rs`, `sidecar.rs`, `commands.rs`, `models.rs`, `monitor.rs` —
    release assets and archive entries, sidecar processes, command helpers, the
    model picker list, health and the debug event log.
  - `text.rs`, `paths.rs`, `clock.rs` — characters and strings, slash-separated
    paths, time and identifiers.
- `tests/` — tests run against the compiled library.
- `app/` — a command-line front end that performs the I/O (file system, HTTP,
  archives, JSON) and floating-point audio processing around the library.

Decisions that alternate with I/O (a voice download, a speak request, the
speech-to-text loop, a model reply stream) are functions or small state
machines in the library; `app/` performs each step and reports back.
