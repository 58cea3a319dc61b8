//! Orchestration core of a media acquisition and transcription pipeline:
//! the acoustic-model cache, the argument lists handed to external media
//! executables, the audio input contract of the inference engine, and the
//! assembly of transcription results.

mod artifacts;
mod audio;
mod error;
mod model_cache;
mod pipeline;
mod process;
mod text;
mod transcript;

pub use artifacts::{artifact_path, ArtifactRole};
pub use audio::{validate_format, SampleKind, WavFormat};
pub use error::PipelineError;
pub use text::{decimal_text, remove_all_occurrences};
pub use model_cache::{
    check_download_status, list_model_names, model_file_name, model_name_of_file, model_path,
    model_url, models_dir, partial_model_path, FinishAction, ModelSlot, ModelStatus, ResolveAction,
};
pub use process::{
    audio_extraction_invocation, transcode_invocation, video_fetch_invocation, ProcessInvocation,
    TargetFormat,
};
pub use transcript::{assemble_transcript, join_segments, TranscriptionResult};
pub use pipeline::{
    acquire_invocation, extraction_invocation, trim_invocation, Event, Next, Stage, TranscribeRun,
};
