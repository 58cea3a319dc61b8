use vstd::prelude::*;

use crate::artifacts::{artifact_path, artifact_path_of, ArtifactRole};
use crate::audio::{meets_engine_input, WavFormat};
use crate::process::{
    audio_extraction_args, audio_extraction_invocation, extension_of, transcode_args,
    transcode_invocation, video_fetch_args, video_fetch_invocation, views, ProcessInvocation,
    TargetFormat,
};

verus! {

/// The invocation that the acquire workflow of run `request_id` makes: it
/// fetches `url` into that run's own mp4 file under `work_dir`.
pub fn acquire_invocation(url: &str, work_dir: &str, request_id: u64) -> (r: ProcessInvocation)
    ensures
        r.output_path@ == artifact_path_of(work_dir@, ArtifactRole::Video, request_id as nat, "mp4"@),
        r.program@ == "yt-dlp"@,
        views(r.args@) == video_fetch_args(url@, r.output_path@),
{
    let output = artifact_path(work_dir, ArtifactRole::Video, request_id, "mp4");
    video_fetch_invocation(url, output.as_str())
}

/// The invocation that the transcribe workflow of run `request_id` makes to
/// extract the audio of `video` into that run's own WAV file under `work_dir`.
pub fn extraction_invocation(video: &str, work_dir: &str, request_id: u64) -> (r: ProcessInvocation)
    ensures
        r.output_path@ == artifact_path_of(work_dir@, ArtifactRole::Audio, request_id as nat, "wav"@),
        r.program@ == "ffmpeg"@,
        views(r.args@) == audio_extraction_args(video@, r.output_path@),
{
    let output = artifact_path(work_dir, ArtifactRole::Audio, request_id, "wav");
    audio_extraction_invocation(video, output.as_str())
}

/// The invocation that the trim workflow of run `request_id` makes: it cuts
/// `duration_ms` of `input` from `start_ms` on into that run's own file of
/// `format` under `work_dir`.
pub fn trim_invocation(
    input: &str,
    start_ms: u64,
    duration_ms: u64,
    format: TargetFormat,
    work_dir: &str,
    request_id: u64,
) -> (r: ProcessInvocation)
    ensures
        r.output_path@ == artifact_path_of(work_dir@, ArtifactRole::Trimmed, request_id as nat, extension_of(format)),
        r.program@ == "ffmpeg"@,
        views(r.args@) == transcode_args(input@, start_ms as nat, duration_ms as nat, format, r.output_path@),
{
    let output = artifact_path(work_dir, ArtifactRole::Trimmed, request_id, format.extension());
    transcode_invocation(input, start_ms, duration_ms, format, output.as_str())
}

/// Where a transcription run stands.
#[derive(Debug, Clone, Copy, PartialEq, Eq, Structural)]
pub enum Stage {
    ResolvingModel,
    ExtractingAudio,
    DecodingAudio,
    Transcribing,
    Finished,
    Failed,
}

/// What the outside world reports to a transcription run.
#[derive(Debug, Clone, Copy, PartialEq, Eq, Structural)]
pub enum Event {
    /// The model was resolved to a local file, or could not be.
    ModelResolved(bool),
    /// The audio extraction process ended, with success or not.
    ExtractionEnded(bool),
    /// The extracted WAV file was opened; this is its header.
    AudioDecoded(WavFormat),
    /// The extracted WAV file could not be opened.
    DecodeFailed,
    /// Inference ended, with a result or with an engine failure.
    InferenceEnded(bool),
}

/// What a transcription run asks for next.
#[derive(Debug, Clone, Copy, PartialEq, Eq, Structural)]
pub enum Next {
    ExtractAudio,
    DecodeAudio,
    RunInference,
    /// Hand the transcription result to the caller.
    Deliver,
    /// Stop and surface the failure of the step that just ended.
    Abort,
    /// The event does not belong to the current stage: nothing to do.
    Ignore,
}

/// The next stage and request of a transcription run. Steps come in a fixed
/// order, each failure aborts the rest, and audio that does not meet the
/// engine's input contract aborts before inference.
pub open spec fn transcribe_step(s: Stage, e: Event) -> (Stage, Next) {
    match (s, e) {
        (Stage::ResolvingModel, Event::ModelResolved(ok)) =>
            if ok { (Stage::ExtractingAudio, Next::ExtractAudio) } else { (Stage::Failed, Next::Abort) },
        (Stage::ExtractingAudio, Event::ExtractionEnded(ok)) =>
            if ok { (Stage::DecodingAudio, Next::DecodeAudio) } else { (Stage::Failed, Next::Abort) },
        (Stage::DecodingAudio, Event::AudioDecoded(f)) =>
            if meets_engine_input(f) { (Stage::Transcribing, Next::RunInference) } else { (Stage::Failed, Next::Abort) },
        (Stage::DecodingAudio, Event::DecodeFailed) => (Stage::Failed, Next::Abort),
        (Stage::Transcribing, Event::InferenceEnded(ok)) =>
            if ok { (Stage::Finished, Next::Deliver) } else { (Stage::Failed, Next::Abort) },
        _ => (s, Next::Ignore),
    }
}

/// Stage and requests after a run of events, in order.
pub open spec fn transcribe_run(s: Stage, events: Seq<Event>) -> (Stage, Seq<Next>)
    decreases events.len(),
{
    if events.len() == 0 {
        (s, Seq::empty())
    } else {
        let (s1, nexts) = transcribe_run(s, events.drop_last());
        let (s2, n) = transcribe_step(s1, events.last());
        (s2, nexts.push(n))
    }
}

/// The state of one transcription run.
#[derive(Debug)]
pub struct TranscribeRun {
    pub stage: Stage,
}

impl TranscribeRun {
    /// A run that starts by resolving its model.
    pub fn new() -> (r: TranscribeRun)
        ensures
            r.stage == Stage::ResolvingModel,
    {
        TranscribeRun { stage: Stage::ResolvingModel }
    }

    /// Takes in what the outside world reports and says what to do next.
    pub fn on_event(&mut self, e: Event) -> (r: Next)
        ensures
            (final(self).stage, r) == transcribe_step(old(self).stage, e),
    {
        match (self.stage, e) {
            (Stage::ResolvingModel, Event::ModelResolved(ok)) => {
                if ok {
                    self.stage = Stage::ExtractingAudio;
                    Next::ExtractAudio
                } else {
                    self.stage = Stage::Failed;
                    Next::Abort
                }
            },
            (Stage::ExtractingAudio, Event::ExtractionEnded(ok)) => {
                if ok {
                    self.stage = Stage::DecodingAudio;
                    Next::DecodeAudio
                } else {
                    self.stage = Stage::Failed;
                    Next::Abort
                }
            },
            (Stage::DecodingAudio, Event::AudioDecoded(f)) => {
                if f.channels == 1 && f.sample_rate == 16000 && f.bits_per_sample == 32
                    && f.sample_kind == crate::audio::SampleKind::Float {
                    self.stage = Stage::Transcribing;
                    Next::RunInference
                } else {
                    self.stage = Stage::Failed;
                    Next::Abort
                }
            },
            (Stage::DecodingAudio, Event::DecodeFailed) => {
                self.stage = Stage::Failed;
                Next::Abort
            },
            (Stage::Transcribing, Event::InferenceEnded(ok)) => {
                if ok {
                    self.stage = Stage::Finished;
                    Next::Deliver
                } else {
                    self.stage = Stage::Failed;
                    Next::Abort
                }
            },
            _ => Next::Ignore,
        }
    }
}

/// A failed run stays failed and asks for nothing more, whatever is
/// reported to it afterwards.
pub proof fn lemma_failed_run_stays_idle(events: Seq<Event>)
    ensures
        transcribe_run(Stage::Failed, events).0 == Stage::Failed,
        forall|i: int| 0 <= i < events.len() ==> transcribe_run(Stage::Failed, events).1[i] == Next::Ignore,
        transcribe_run(Stage::Failed, events).1.len() == events.len(),
    decreases events.len(),
{
    if events.len() > 0 {
        lemma_failed_run_stays_idle(events.drop_last());
        let (s0, n0) = transcribe_run(Stage::Failed, events.drop_last());
        let (s, n) = transcribe_run(Stage::Failed, events);
        assert(n.drop_last() =~= n0);
    }
}

/// Inference is requested only right after a decoded WAV header that meets
/// the engine's input contract, in any run from any stage.
pub proof fn lemma_inference_only_on_valid_audio(s: Stage, events: Seq<Event>)
    ensures
        transcribe_run(s, events).1.len() == events.len(),
        forall|i: int| 0 <= i < events.len() && transcribe_run(s, events).1[i] == Next::RunInference
            ==> (events[i] matches Event::AudioDecoded(f) && meets_engine_input(f)),
    decreases events.len(),
{
    if events.len() > 0 {
        lemma_inference_only_on_valid_audio(s, events.drop_last());
        let (s0, n0) = transcribe_run(s, events.drop_last());
        let (s1, n) = transcribe_run(s, events);
        assert(n.drop_last() =~= n0);
        assert forall|i: int| 0 <= i < events.len() && n[i] == Next::RunInference
            implies (events[i] matches Event::AudioDecoded(f) && meets_engine_input(f)) by {
            if i < events.len() - 1 {
                assert(n[i] == n0[i]);
                assert(events[i] == events.drop_last()[i]);
            }
        }
    }
}

/// Decoding a WAV file that is not one channel of 32-bit float samples at
/// 16 kHz fails the run at once, and no inference follows, whatever is
/// reported afterwards.
pub proof fn lemma_rejected_audio_never_transcribed(f: WavFormat, later: Seq<Event>)
    requires
        !meets_engine_input(f),
    ensures
        transcribe_step(Stage::DecodingAudio, Event::AudioDecoded(f)) == (Stage::Failed, Next::Abort),
        forall|i: int| 0 <= i < later.len() ==> transcribe_run(Stage::Failed, later).1[i] != Next::RunInference,
{
    lemma_failed_run_stays_idle(later);
}

} // verus!
