//! Voice session lifecycle decisions: whether transcription runs, the capture
//! format when the capture thread does not report one in time, and a stop
//! that tears down exactly once however often it is called.

use vstd::prelude::*;


verus! {

/// Whether the session feeds a speech-to-text engine.
#[derive(Debug, Clone, Copy, PartialEq, Eq, Structural)]
pub enum TranscriptionMode {
    /// The engine is present: utterances are transcribed.
    On,
    /// Soft-fail: microphone and waveform run, transcription is off.
    Off,
}

/// Setup-repair hint logged when the engine is unavailable.
pub const STT_SOFT_FAIL_HINT: &'static str = "Host STT engine unavailable — starting mic with transcription off. Open Setup Wizard / Setup repair to restore model + vocab + ONNX Runtime.";

/// The transcription mode for a session, and the hint to log when the engine
/// is missing.
pub fn transcription_mode(engine_available: bool) -> (r: (TranscriptionMode, Option<&'static str>))
    ensures
        engine_available ==> r.0 == TranscriptionMode::On && r.1 is None,
        !engine_available ==> r.0 == TranscriptionMode::Off && r.1 == Some(STT_SOFT_FAIL_HINT),
{
    if engine_available {
        (TranscriptionMode::On, None)
    } else {
        (TranscriptionMode::Off, Some(STT_SOFT_FAIL_HINT))
    }
}

/// Capture rate assumed when the capture thread reports no format in time.
pub const DEFAULT_CAPTURE_RATE: u32 = 16000u32;

/// Channels assumed when the capture thread reports no format in time.
pub const DEFAULT_CAPTURE_CHANNELS: u16 = 1u16;

/// The capture format: the one reported, else 16 kHz mono.
pub fn capture_format(reported: Option<(u32, u16)>) -> (r: (u32, u16))
    ensures
        r == match reported {
            Some(f) => f,
            None => (DEFAULT_CAPTURE_RATE, DEFAULT_CAPTURE_CHANNELS),
        },
{
    match reported {
        Some(f) => f,
        None => (DEFAULT_CAPTURE_RATE, DEFAULT_CAPTURE_CHANNELS),
    }
}

/// Whether a session is still running; stopping is idempotent.
#[derive(Debug)]
pub struct VoiceSession {
    stopped: bool,
}

impl VoiceSession {
    /// Whether the session has been stopped.
    pub closed spec fn stopped_spec(&self) -> bool {
        self.stopped
    }

    /// A running session.
    pub fn new() -> (r: Self)
        ensures
            !r.stopped_spec(),
    {
        VoiceSession { stopped: false }
    }

    /// Stops the session. Returns true exactly on the first call, when the
    /// caller signals the capture thread, joins it and zeroes the energy level.
    pub fn stop(&mut self) -> (teardown: bool)
        ensures
            teardown == !old(self).stopped_spec(),
            final(self).stopped_spec(),
    {
        if self.stopped {
            return false;
        }
        self.stopped = true;
        true
    }

    /// Whether the session has been stopped.
    pub fn is_stopped(&self) -> (r: bool)
        ensures
            r == self.stopped_spec(),
    {
        self.stopped
    }
}

} // verus!
