//! Voice input and output logic: transcript filtering, Piper voices and speech
//! text, WAV headers, capture configuration and the voice session lifecycle.

pub mod transcript;
pub mod piper;
pub mod voice_download;
pub mod speech;
pub mod tts;
pub mod capture;
pub mod session;
pub mod stt;
