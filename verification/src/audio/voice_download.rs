//! Download of a curated Piper voice (model + configuration) as a sequence of
//! steps: the caller performs each step (create the directory, fetch a URL to
//! a file, rename, list the directory) and reports how it went; the machine
//! decides what comes next.
//!
//! Both files are fetched to `.download-partial` names and promoted only when
//! both arrived, and the voice counts as installed only when the final
//! listing shows the pair. On failure the partial files are removed, and a
//! promoted model without its configuration is removed too.

use vstd::prelude::*;

use super::piper::{
    curated_voice_download_urls, hf_stem_of, json_name, onnx_name,
    partial_path, partial_path_spec, unknown_voice_message, PIPER_VOICES_HF_V1,
};
use crate::paths::{join, join_str};
use crate::text::{concat2, concat3, owned};

verus! {

/// Progress for one file while a curated voice downloads.
#[derive(Debug, Clone, PartialEq, Eq)]
pub struct VoiceDownloadProgress {
    pub voice_id: String,
    pub filename: String,
    pub downloaded: u64,
    pub total: u64,
    pub done: bool,
}

/// One thing for the caller to do.
#[derive(Debug)]
pub enum DownloadStep {
    /// Report progress.
    Emit(VoiceDownloadProgress),
    /// Create the directory (and its parents).
    CreateDir(String),
    /// Remove the file, ignoring failure.
    Remove(String),
    /// Fetch `url` into `dest`, reporting bytes through [`VoiceDownload::on_bytes`].
    Fetch { url: String, dest: String },
    /// Rename `from` to `to`.
    Rename { from: String, to: String },
    /// Report whether the model and the configuration are regular files now.
    ProbeFiles,
    /// The download is over with this result.
    Finish(Result<(), String>),
}

/// How the last step went.
#[derive(Debug)]
pub enum StepOutcome {
    Done,
    Failed(String),
    /// Whether the final model and configuration files are regular files.
    Files { onnx_present: bool, json_present: bool },
}

/// Where the download stands.
#[derive(Debug, Clone, Copy, PartialEq, Eq, Structural)]
pub enum DownloadPhase {
    CreatingDir,
    FetchingOnnx,
    FetchingJson,
    PromotingOnnx,
    PromotingJson,
    Verifying,
    /// Removing what a failure left; the download then fails with the recorded error.
    CleaningUp,
    Finished,
}

/// One curated-voice download in progress.
pub struct VoiceDownload {
    pub voice_id: String,
    pub onnx_url: String,
    pub json_url: String,
    pub onnx_name: String,
    pub json_name: String,
    pub onnx_partial: String,
    pub json_partial: String,
    pub onnx_dest: String,
    pub json_dest: String,
    pub last: (u64, u64),
    pub phase: DownloadPhase,
    /// The error a clean-up finishes with.
    pub error: String,
}

/// Whether the step reports `(filename, downloaded, total, done)` for `voice`.
pub open spec fn is_emit(s: DownloadStep, voice: Seq<char>, filename: Seq<char>, downloaded: u64, total: u64, done: bool) -> bool {
    s matches DownloadStep::Emit(p) && p.voice_id@ == voice && p.filename@ == filename
        && p.downloaded == downloaded && p.total == total && p.done == done
}

/// Whether the step removes `path`.
pub open spec fn is_remove(s: DownloadStep, path: Seq<char>) -> bool {
    s matches DownloadStep::Remove(p) && p@ == path
}

/// Whether the step fetches `url` into `dest`.
pub open spec fn is_fetch(s: DownloadStep, url: Seq<char>, dest: Seq<char>) -> bool {
    s matches DownloadStep::Fetch { url: u, dest: d } && u@ == url && d@ == dest
}

/// Whether the step renames `from` to `to`.
pub open spec fn is_rename(s: DownloadStep, from: Seq<char>, to: Seq<char>) -> bool {
    s matches DownloadStep::Rename { from: f, to: t } && f@ == from && t@ == to
}

/// Whether the step finishes with an error `e`.
pub open spec fn is_fail(s: DownloadStep, e: Seq<char>) -> bool {
    s matches DownloadStep::Finish(r) && r matches Err(m) && m@ == e
}

/// Whether the step finishes successfully.
pub open spec fn is_success(s: DownloadStep) -> bool {
    s matches DownloadStep::Finish(r) && r is Ok
}

/// Whether the phase is a clean-up that will finish with error `e`.
pub open spec fn cleaning_with(d: VoiceDownload, e: Seq<char>) -> bool {
    d.phase is CleaningUp && d.error@ == e
}

/// Whether two downloads have the same voice and file layout: URLs, file
/// names, partial paths and destinations.
pub open spec fn same_layout(a: VoiceDownload, b: VoiceDownload) -> bool {
    &&& a.voice_id == b.voice_id
    &&& a.onnx_url == b.onnx_url
    &&& a.json_url == b.json_url
    &&& a.onnx_name == b.onnx_name
    &&& a.json_name == b.json_name
    &&& a.onnx_partial == b.onnx_partial
    &&& a.json_partial == b.json_partial
    &&& a.onnx_dest == b.onnx_dest
    &&& a.json_dest == b.json_dest
}

/// The three removals that start a clean-up.
pub open spec fn cleanup_steps(steps: Seq<DownloadStep>, at: int, d: VoiceDownload) -> bool {
    &&& is_remove(steps[at], d.onnx_partial@)
    &&& is_remove(steps[at + 1], d.json_partial@)
    &&& steps[at + 2] is ProbeFiles
}

impl VoiceDownload {
    /// Id of the voice being downloaded.
    pub open spec fn voice(&self) -> Seq<char> {
        self.voice_id@
    }

    /// Current phase.
    pub open spec fn phase_spec(&self) -> DownloadPhase {
        self.phase
    }

    /// The file layout every step refers to.
    pub open spec fn layout_ok(&self, tts_dir: Seq<char>) -> bool {
        let id = self.voice_id@;
        &&& self.onnx_name@ == onnx_name(id)
        &&& self.json_name@ == json_name(id)
        &&& self.onnx_partial@ == partial_path_spec(tts_dir, onnx_name(id))
        &&& self.json_partial@ == partial_path_spec(tts_dir, json_name(id))
        &&& self.onnx_dest@ == join(tts_dir, onnx_name(id))
        &&& self.json_dest@ == join(tts_dir, json_name(id))
        &&& hf_stem_of(id) matches Some(stem) && self.onnx_url@ == PIPER_VOICES_HF_V1@ + "/"@
            + stem + ".onnx"@ && self.json_url@ == PIPER_VOICES_HF_V1@ + "/"@ + stem
            + ".onnx.json"@
    }

    /// Starts downloading curated voice `voice_id` into `tts_dir`;
    /// `pair_present` tells whether both of its files are already there.
    /// An id off the shortlist fails at once; a voice already present
    /// reports both files done and succeeds without fetching anything.
    pub fn start(voice_id: &str, tts_dir: &str, pair_present: bool) -> (r: (Self, Vec<DownloadStep>))
        ensures
            r.0.voice() == voice_id@,
            hf_stem_of(voice_id@) is None ==> r.1@.len() == 1 && is_fail(
                r.1@[0],
                unknown_voice_message(voice_id@),
            ) && r.0.phase_spec() is Finished,
            hf_stem_of(voice_id@) is Some ==> r.0.layout_ok(tts_dir@),
            hf_stem_of(voice_id@) is Some && pair_present ==> r.1@.len() == 3 && is_emit(
                r.1@[0],
                voice_id@,
                onnx_name(voice_id@),
                0,
                0,
                true,
            ) && is_emit(r.1@[1], voice_id@, json_name(voice_id@), 0, 0, true) && is_success(r.1@[2])
                && r.0.phase_spec() is Finished,
            hf_stem_of(voice_id@) is Some && !pair_present ==> r.1@.len() == 1 && (r.1@[0] matches DownloadStep::CreateDir(p) && p@ == tts_dir@)
                && r.0.phase_spec() is CreatingDir,
    {
        let onnx_n = concat2(voice_id, ".onnx");
        let json_n = concat2(voice_id, ".onnx.json");
        let onnx_partial = partial_path(tts_dir, onnx_n.as_str());
        let json_partial = partial_path(tts_dir, json_n.as_str());
        let onnx_dest = join_str(tts_dir, onnx_n.as_str());
        let json_dest = join_str(tts_dir, json_n.as_str());
        let mut steps: Vec<DownloadStep> = Vec::new();
        match curated_voice_download_urls(voice_id) {
            Err(e) => {
                steps.push(DownloadStep::Finish(Err(e)));
                let d = VoiceDownload {
                    voice_id: owned(voice_id),
                    onnx_url: String::new(),
                    json_url: String::new(),
                    onnx_name: onnx_n,
                    json_name: json_n,
                    onnx_partial,
                    json_partial,
                    onnx_dest,
                    json_dest,
                    last: (0, 0),
                    phase: DownloadPhase::Finished,
                    error: String::new(),
                };
                (d, steps)
            },
            Ok((onnx_url, json_url)) => {
                let phase = if pair_present {
                    steps.push(DownloadStep::Emit(VoiceDownloadProgress {
                        voice_id: owned(voice_id),
                        filename: onnx_n.clone(),
                        downloaded: 0,
                        total: 0,
                        done: true,
                    }));
                    steps.push(DownloadStep::Emit(VoiceDownloadProgress {
                        voice_id: owned(voice_id),
                        filename: json_n.clone(),
                        downloaded: 0,
                        total: 0,
                        done: true,
                    }));
                    steps.push(DownloadStep::Finish(Ok(())));
                    DownloadPhase::Finished
                } else {
                    steps.push(DownloadStep::CreateDir(owned(tts_dir)));
                    DownloadPhase::CreatingDir
                };
                let d = VoiceDownload {
                    voice_id: owned(voice_id),
                    onnx_url,
                    json_url,
                    onnx_name: onnx_n,
                    json_name: json_n,
                    onnx_partial,
                    json_partial,
                    onnx_dest,
                    json_dest,
                    last: (0, 0),
                    phase,
                    error: String::new(),
                };
                (d, steps)
            },
        }
    }

    fn progress(&self, filename: &String, downloaded: u64, total: u64, done: bool) -> (r: DownloadStep)
        ensures
            is_emit(r, self.voice_id@, filename@, downloaded, total, done),
    {
        DownloadStep::Emit(VoiceDownloadProgress {
            voice_id: self.voice_id.clone(),
            filename: filename.clone(),
            downloaded,
            total,
            done,
        })
    }

    fn begin_cleanup(&mut self, steps: &mut Vec<DownloadStep>, e: String)
        ensures
            final(steps)@.len() == old(steps)@.len() + 3,
            final(steps)@.take(old(steps)@.len() as int) == old(steps)@,
            cleanup_steps(final(steps)@, old(steps)@.len() as int, *old(self)),
            cleaning_with(*final(self), e@),
            same_layout(*old(self), *final(self)),
            final(self).last == old(self).last,
    {
        steps.push(DownloadStep::Remove(self.onnx_partial.clone()));
        steps.push(DownloadStep::Remove(self.json_partial.clone()));
        steps.push(DownloadStep::ProbeFiles);
        self.phase = DownloadPhase::CleaningUp;
        self.error = e;
    }

    /// Records bytes received by the running fetch and returns the progress to report.
    pub fn on_bytes(&mut self, downloaded: u64, total: u64) -> (r: VoiceDownloadProgress)
        ensures
            r.voice_id@ == old(self).voice(),
            r.filename@ == (if old(self).phase_spec() is FetchingJson {
                old(self).json_name@
            } else {
                old(self).onnx_name@
            }),
            r.downloaded == downloaded,
            r.total == total,
            !r.done,
            final(self).voice() == old(self).voice(),
            final(self).phase_spec() == old(self).phase_spec(),
            final(self).last == (downloaded, total),
            same_layout(*old(self), *final(self)),
            final(self).error == old(self).error,
    {
        self.last = (downloaded, total);
        let filename = match self.phase {
            DownloadPhase::FetchingJson => self.json_name.clone(),
            _ => self.onnx_name.clone(),
        };
        VoiceDownloadProgress { voice_id: self.voice_id.clone(), filename, downloaded, total, done: false }
    }

    /// Takes the outcome of the last step and returns the next steps.
    ///
    /// The download finishes successfully only from verification with both
    /// files present; every failure after the directory exists removes both
    /// partial files before finishing.
    pub fn next(&mut self, outcome: StepOutcome) -> (r: Vec<DownloadStep>)
        ensures
            final(self).voice() == old(self).voice(),
            same_layout(*old(self), *final(self)),
            forall|tts: Seq<char>| old(self).layout_ok(tts) ==> #[trigger] final(self).layout_ok(tts),
            final(self).last == (if (old(self).phase_spec() is CreatingDir || old(
                self,
            ).phase_spec() is FetchingOnnx) && !(outcome is Failed) {
                (0u64, 0u64)
            } else {
                old(self).last
            }),
            (old(self).phase_spec() is CleaningUp || !(final(self).phase_spec() is CleaningUp))
                ==> final(self).error == old(self).error,
            forall|i: int| 0 <= i < r@.len() && is_success(#[trigger] r@[i]) ==> old(
                self,
            ).phase_spec() is Verifying && outcome matches StepOutcome::Files {
                onnx_present: true,
                json_present: true,
            },
            match old(self).phase_spec() {
                DownloadPhase::CreatingDir => match outcome {
                    StepOutcome::Failed(e) => r@.len() == 1 && is_fail(r@[0], "create tts dir: "@ + e@)
                        && final(self).phase_spec() is Finished,
                    _ => r@.len() == 4 && is_remove(r@[0], old(self).onnx_partial@) && is_remove(
                        r@[1],
                        old(self).json_partial@,
                    ) && is_emit(r@[2], old(self).voice_id@, old(self).onnx_name@, 0, 0, false)
                        && is_fetch(r@[3], old(self).onnx_url@, old(self).onnx_partial@)
                        && final(self).phase_spec() is FetchingOnnx,
                },
                DownloadPhase::FetchingOnnx => match outcome {
                    StepOutcome::Failed(e) => r@.len() == 3 && cleanup_steps(r@, 0, *old(self))
                        && cleaning_with(*final(self), e@),
                    _ => r@.len() == 3 && is_emit(
                        r@[0],
                        old(self).voice_id@,
                        old(self).onnx_name@,
                        old(self).last.0,
                        old(self).last.1,
                        true,
                    ) && is_emit(r@[1], old(self).voice_id@, old(self).json_name@, 0, 0, false)
                        && is_fetch(r@[2], old(self).json_url@, old(self).json_partial@)
                        && final(self).phase_spec() is FetchingJson,
                },
                DownloadPhase::FetchingJson => match outcome {
                    StepOutcome::Failed(e) => r@.len() == 3 && cleanup_steps(r@, 0, *old(self))
                        && cleaning_with(*final(self), e@),
                    _ => r@.len() == 2 && is_emit(
                        r@[0],
                        old(self).voice_id@,
                        old(self).json_name@,
                        old(self).last.0,
                        old(self).last.1,
                        true,
                    ) && is_rename(r@[1], old(self).onnx_partial@, old(self).onnx_dest@)
                        && final(self).phase_spec() is PromotingOnnx,
                },
                DownloadPhase::PromotingOnnx => match outcome {
                    StepOutcome::Failed(e) => r@.len() == 3 && cleanup_steps(r@, 0, *old(self))
                        && cleaning_with(*final(self), "promote "@ + old(self).onnx_name@ + ": "@ + e@),
                    _ => r@.len() == 1 && is_rename(r@[0], old(self).json_partial@, old(self).json_dest@)
                        && final(self).phase_spec() is PromotingJson,
                },
                DownloadPhase::PromotingJson => match outcome {
                    StepOutcome::Failed(e) => r@.len() == 4 && is_remove(r@[0], old(self).onnx_dest@)
                        && cleanup_steps(r@, 1, *old(self)) && cleaning_with(*final(self), "promote "@ + old(self).json_name@ + ": "@ + e@),
                    _ => r@.len() == 1 && r@[0] is ProbeFiles && final(self).phase_spec() is Verifying,
                },
                DownloadPhase::Verifying => match outcome {
                    StepOutcome::Files { onnx_present: true, json_present: true } => r@.len() == 1
                        && is_success(r@[0]) && final(self).phase_spec() is Finished,
                    _ => r@.len() == 5 && is_remove(r@[0], old(self).onnx_dest@) && is_remove(
                        r@[1],
                        old(self).json_dest@,
                    ) && cleanup_steps(r@, 2, *old(self)) && cleaning_with(*final(self), "download of '"@ + old(self).voice_id@
                        + "' did not leave a verified onnx+json pair"@),
                },
                DownloadPhase::CleaningUp => match outcome {
                    StepOutcome::Files { onnx_present: true, json_present: false } => r@.len() == 2
                        && is_remove(r@[0], old(self).onnx_dest@) && is_fail(r@[1], old(self).error@)
                        && final(self).phase_spec() is Finished,
                    _ => r@.len() == 1 && is_fail(r@[0], old(self).error@) && final(self).phase_spec() is Finished,
                },
                DownloadPhase::Finished => r@.len() == 0 && final(self).phase_spec() is Finished,
            },
    {
        let mut steps: Vec<DownloadStep> = Vec::new();
        let phase = self.phase;
        self.phase = DownloadPhase::Finished;
        assert(phase == old(self).phase);
        assert(self.phase is Finished);
        match phase {
            DownloadPhase::CreatingDir => match outcome {
                StepOutcome::Failed(e) => {
                    steps.push(DownloadStep::Finish(Err(concat2("create tts dir: ", e.as_str()))));
                },
                _ => {
                    steps.push(DownloadStep::Remove(self.onnx_partial.clone()));
                    steps.push(DownloadStep::Remove(self.json_partial.clone()));
                    steps.push(self.progress(&self.onnx_name, 0, 0, false));
                    steps.push(DownloadStep::Fetch { url: self.onnx_url.clone(), dest: self.onnx_partial.clone() });
                    self.last = (0, 0);
                    self.phase = DownloadPhase::FetchingOnnx;
                },
            },
            DownloadPhase::FetchingOnnx => match outcome {
                StepOutcome::Failed(e) => {
                    self.begin_cleanup(&mut steps, e);
                },
                _ => {
                    steps.push(self.progress(&self.onnx_name, self.last.0, self.last.1, true));
                    steps.push(self.progress(&self.json_name, 0, 0, false));
                    steps.push(DownloadStep::Fetch { url: self.json_url.clone(), dest: self.json_partial.clone() });
                    self.last = (0, 0);
                    self.phase = DownloadPhase::FetchingJson;
                },
            },
            DownloadPhase::FetchingJson => match outcome {
                StepOutcome::Failed(e) => {
                    self.begin_cleanup(&mut steps, e);
                },
                _ => {
                    steps.push(self.progress(&self.json_name, self.last.0, self.last.1, true));
                    steps.push(DownloadStep::Rename { from: self.onnx_partial.clone(), to: self.onnx_dest.clone() });
                    self.phase = DownloadPhase::PromotingOnnx;
                },
            },
            DownloadPhase::PromotingOnnx => match outcome {
                StepOutcome::Failed(e) => {
                    let mut m = concat3("promote ", self.onnx_name.as_str(), ": ");
                    m.append(e.as_str());
                    self.begin_cleanup(&mut steps, m);
                },
                _ => {
                    steps.push(DownloadStep::Rename { from: self.json_partial.clone(), to: self.json_dest.clone() });
                    self.phase = DownloadPhase::PromotingJson;
                },
            },
            DownloadPhase::PromotingJson => match outcome {
                StepOutcome::Failed(e) => {
                    steps.push(DownloadStep::Remove(self.onnx_dest.clone()));
                    let mut m = concat3("promote ", self.json_name.as_str(), ": ");
                    m.append(e.as_str());
                    let ghost before = steps@;
                    self.begin_cleanup(&mut steps, m);
                    assert(steps@[0] == steps@.take(before.len() as int)[0]);
                },
                _ => {
                    steps.push(DownloadStep::ProbeFiles);
                    self.phase = DownloadPhase::Verifying;
                },
            },
            DownloadPhase::Verifying => match outcome {
                StepOutcome::Files { onnx_present: true, json_present: true } => {
                    steps.push(DownloadStep::Finish(Ok(())));
                },
                _ => {
                    steps.push(DownloadStep::Remove(self.onnx_dest.clone()));
                    steps.push(DownloadStep::Remove(self.json_dest.clone()));
                    let m = concat3("download of '", self.voice_id.as_str(), "' did not leave a verified onnx+json pair");
                    let ghost before = steps@;
                    self.begin_cleanup(&mut steps, m);
                    assert(steps@[0] == steps@.take(before.len() as int)[0]);
                    assert(steps@[1] == steps@.take(before.len() as int)[1]);
                },
            },
            DownloadPhase::CleaningUp => match outcome {
                StepOutcome::Files { onnx_present: true, json_present: false } => {
                    steps.push(DownloadStep::Remove(self.onnx_dest.clone()));
                    steps.push(DownloadStep::Finish(Err(self.error.clone())));
                },
                _ => {
                    steps.push(DownloadStep::Finish(Err(self.error.clone())));
                },
            },
            DownloadPhase::Finished => {
                assert(steps@.len() == 0);
            },
        }
        steps
    }
}

} // verus!
