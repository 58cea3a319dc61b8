use vstd::prelude::*;

use crate::error::PipelineError;

verus! {

/// How the samples of a WAV file are encoded.
#[derive(Debug, Clone, Copy, PartialEq, Eq, Structural)]
pub enum SampleKind {
    /// IEEE floating point.
    Float,
    /// Integer PCM.
    Int,
}

/// The header fields of a WAV file that decide whether the inference engine
/// can read its samples.
#[derive(Debug, Clone, Copy, PartialEq, Eq, Structural)]
pub struct WavFormat {
    pub channels: u16,
    pub sample_rate: u32,
    pub bits_per_sample: u16,
    pub sample_kind: SampleKind,
}

/// The inference engine reads only one channel of 32-bit float samples at
/// 16 kHz; audio in any other shape is rejected, never converted.
pub open spec fn meets_engine_input(f: WavFormat) -> bool {
    &&& f.channels == 1
    &&& f.sample_rate == 16000
    &&& f.sample_kind == SampleKind::Float
    &&& f.bits_per_sample == 32
}

/// Checks a WAV header against the inference engine's input contract.
pub fn validate_format(f: &WavFormat) -> (r: Result<(), PipelineError>)
    ensures
        r is Ok <==> meets_engine_input(*f),
        r matches Err(e) ==> e is FormatValidation,
{
    if f.channels != 1 || f.sample_rate != 16000 {
        return Err(PipelineError::FormatValidation(String::from_str("audio must be a 16 kHz mono WAV file")));
    }
    match f.sample_kind {
        SampleKind::Float => {
            if f.bits_per_sample == 32 {
                Ok(())
            } else {
                Err(PipelineError::FormatValidation(String::from_str("only 32-bit float WAV samples are supported")))
            }
        },
        SampleKind::Int => {
            Err(PipelineError::FormatValidation(String::from_str("only 32-bit float WAV samples are supported")))
        },
    }
}

} // verus!
