//! Application-wide names, URLs and timing values.

use vstd::prelude::*;

verus! {

/// Loopback address of all sidecar HTTP servers (IPv4 on purpose).
pub const SIDECAR_HOST: &'static str = "127.0.0.1";

/// Sample rate of the speech-to-text input contract (16 kHz mono).
pub const STT_SAMPLE_RATE: u32 = 16000u32;

/// Embedding model file inside `models_dir` (fixed: vectors are 768-dim).
pub const EMBED_MODEL_FILE: &'static str = "nomic-embed-text-v1.5.Q8_0.gguf";

/// Alias the embedding server is started with.
pub const EMBED_MODEL_ALIAS: &'static str = "nomic-embed-text";

/// Default Piper voice model file inside `models/tts/`.
pub const TTS_MODEL_FILE: &'static str = "en_US-lessac-medium.onnx";

/// Piper voice used when nothing else is selected or usable.
pub const TTS_DEFAULT_VOICE_ID: &'static str = "en_US-lessac-medium";

/// Directory under the binaries root holding speech-to-text model files.
pub const STT_MODEL_REL_DIR: &'static str = "parakeet/models";

/// Parakeet TDT encoder (int8) file name.
pub const STT_ENCODER_FILE: &'static str = "encoder-model.int8.onnx";

/// Parakeet TDT decoder-joint (int8) file name.
pub const STT_DECODER_FILE: &'static str = "decoder_joint-model.int8.onnx";

/// Parakeet vocabulary file name.
pub const STT_VOCAB_FILE: &'static str = "vocab.txt";

/// Directory under the binaries root for the ONNX Runtime shared library.
pub const ORT_LIB_REL_DIR: &'static str = "ort";

/// Embedding model download.
pub const EMBED_MODEL_URL: &'static str = "https://huggingface.co/nomic-ai/nomic-embed-text-v1.5-GGUF/resolve/main/nomic-embed-text-v1.5.Q8_0.gguf";

/// Parakeet TDT encoder download.
pub const STT_ENCODER_URL: &'static str = "https://huggingface.co/istupakov/parakeet-tdt-0.6b-v3-onnx/resolve/main/encoder-model.int8.onnx";

/// Parakeet TDT decoder-joint download.
pub const STT_DECODER_URL: &'static str = "https://huggingface.co/istupakov/parakeet-tdt-0.6b-v3-onnx/resolve/main/decoder_joint-model.int8.onnx";

/// Parakeet vocabulary download.
pub const STT_VOCAB_URL: &'static str = "https://huggingface.co/istupakov/parakeet-tdt-0.6b-v3-onnx/resolve/main/vocab.txt";

/// Visual C++ Redistributable 2022 x64 installer.
pub const VCREDIST_URL: &'static str = "https://aka.ms/vs/17/release/vc_redist.x64.exe";

/// Wait after killing the old chat server before starting a new one.
pub const CHAT_SERVER_RESTART_DELAY_MS: u64 = 600u64;

/// Wait after startup before reporting the system dependency check.
pub const DEPS_CHECK_STARTUP_DELAY_MS: u64 = 800u64;

/// Seconds between semantic distillation runs.
pub const DISTILLATION_INTERVAL_SECS: u64 = 600u64;

/// Seconds after startup before the first distillation run.
pub const DISTILLATION_STARTUP_DELAY_SECS: u64 = 60u64;

/// Port of the chat server.
pub const DEFAULT_LLAMA_PORT: u16 = 18080u16;

/// Port of the embedding server.
pub const DEFAULT_EMBED_PORT: u16 = 18081u16;

/// Legacy speech-to-text port kept in the configuration (speech-to-text runs in-process).
pub const LEGACY_STT_PORT: u16 = 5092u16;

/// Default context window, in tokens.
pub const DEFAULT_CONTEXT_WINDOW_TOKENS: usize = 4096usize;

/// Episodic memories retrieved per message.
pub const DEFAULT_TOP_K_EPISODIC: usize = 5usize;

/// Semantic facts retrieved per message.
pub const DEFAULT_TOP_K_SEMANTIC: usize = 5usize;

/// Recent turns kept in the context window.
pub const DEFAULT_RECENT_TURNS_WINDOW: usize = 10usize;

/// The default persona: a helpful, proactive assistant that may append a
/// `<defer>` tag to schedule a follow-up.
pub const DEFAULT_PERSONA_PROMPT: &'static str = "You are a helpful, proactive assistant with persistent memory. You remember facts about the user across conversations. \n\nPROACTIVITY: When a topic is unresolved or would benefit from a follow-up, append a <defer> tag AFTER your response (not inside it). Format exactly:\n<defer>{\"message\":\"Your follow-up message here\",\"after_minutes\":60,\"trigger\":\"reason\"}</defer>\nUse this sparingly — only for genuinely useful follow-ups like:\n- Checking on a task the user mentioned\n- Reminding about something time-sensitive\n- Following up on an unresolved question";

} // verus!
