use convrt::{
    assemble_transcript, decimal_text, join_segments, remove_all_occurrences, validate_format,
    Event, Next, PipelineError, SampleKind, Stage, TranscribeRun, WavFormat,
};

fn format(channels: u16, sample_rate: u32, bits: u16, kind: SampleKind) -> WavFormat {
    WavFormat { channels, sample_rate, bits_per_sample: bits, sample_kind: kind }
}

#[test]
fn engine_input_is_accepted() {
    assert_eq!(validate_format(&format(1, 16000, 32, SampleKind::Float)), Ok(()));
}

#[test]
fn stereo_rate_and_integer_audio_are_rejected() {
    for f in [
        format(2, 16000, 32, SampleKind::Float),
        format(1, 44100, 32, SampleKind::Float),
        format(1, 16000, 16, SampleKind::Int),
        format(1, 16000, 64, SampleKind::Float),
    ] {
        assert!(matches!(validate_format(&f), Err(PipelineError::FormatValidation(_))));
    }
}

#[test]
fn rejected_audio_is_never_transcribed() {
    let mut run = TranscribeRun::new();
    assert_eq!(run.on_event(Event::ModelResolved(true)), Next::ExtractAudio);
    assert_eq!(run.on_event(Event::ExtractionEnded(true)), Next::DecodeAudio);
    assert_eq!(run.on_event(Event::AudioDecoded(format(2, 44100, 16, SampleKind::Int))), Next::Abort);
    assert_eq!(run.stage, Stage::Failed);
    assert_eq!(run.on_event(Event::AudioDecoded(format(1, 16000, 32, SampleKind::Float))), Next::Ignore);
    assert_eq!(run.on_event(Event::InferenceEnded(true)), Next::Ignore);
    assert_eq!(run.stage, Stage::Failed);
}

#[test]
fn transcription_run_in_order() {
    let mut run = TranscribeRun::new();
    assert_eq!(run.on_event(Event::ExtractionEnded(true)), Next::Ignore);
    assert_eq!(run.on_event(Event::ModelResolved(true)), Next::ExtractAudio);
    assert_eq!(run.on_event(Event::ExtractionEnded(true)), Next::DecodeAudio);
    assert_eq!(run.on_event(Event::AudioDecoded(format(1, 16000, 32, SampleKind::Float))), Next::RunInference);
    assert_eq!(run.on_event(Event::InferenceEnded(true)), Next::Deliver);
    assert_eq!(run.stage, Stage::Finished);
}

#[test]
fn each_failure_aborts_the_run() {
    let mut a = TranscribeRun::new();
    assert_eq!(a.on_event(Event::ModelResolved(false)), Next::Abort);
    let mut b = TranscribeRun::new();
    b.on_event(Event::ModelResolved(true));
    assert_eq!(b.on_event(Event::ExtractionEnded(false)), Next::Abort);
    let mut c = TranscribeRun::new();
    c.on_event(Event::ModelResolved(true));
    c.on_event(Event::ExtractionEnded(true));
    assert_eq!(c.on_event(Event::DecodeFailed), Next::Abort);
    let mut d = TranscribeRun::new();
    d.on_event(Event::ModelResolved(true));
    d.on_event(Event::ExtractionEnded(true));
    d.on_event(Event::AudioDecoded(format(1, 16000, 32, SampleKind::Float)));
    assert_eq!(d.on_event(Event::InferenceEnded(false)), Next::Abort);
    assert_eq!(d.stage, Stage::Failed);
}

#[test]
fn segments_joined_with_spaces() {
    let segs = vec![" Hello".to_string(), " world.".to_string()];
    assert_eq!(join_segments(&segs), " Hello  world. ");
    assert_eq!(join_segments(&Vec::new()), "");
}

#[test]
fn transcript_text_is_trimmed() {
    let segs = vec![" Hello".to_string(), " world.".to_string()];
    let r = assemble_transcript(segs.clone(), Some("en".to_string()));
    assert_eq!(r.text, "Hello  world.");
    assert_eq!(r.segments, segs);
    assert_eq!(r.detected_language, Some("en".to_string()));
}

#[test]
fn undetected_language_stays_absent() {
    let r = assemble_transcript(vec!["\tok\n".to_string()], None);
    assert_eq!(r.text, "ok");
    assert_eq!(r.detected_language, None);
    let empty = assemble_transcript(Vec::new(), None);
    assert_eq!(empty.text, "");
}

#[test]
fn decimal_rendering() {
    assert_eq!(decimal_text(0), "0");
    assert_eq!(decimal_text(7), "7");
    assert_eq!(decimal_text(1234), "1234");
    assert_eq!(decimal_text(u64::MAX), "18446744073709551615");
}

#[test]
fn removal_of_all_occurrences() {
    assert_eq!(remove_all_occurrences("ggml-ggml-x", "ggml-"), "x");
    assert_eq!(remove_all_occurrences("aaa", "aa"), "a");
    assert_eq!(remove_all_occurrences("abc", ""), "abc");
    assert_eq!(remove_all_occurrences("", "x"), "");
    assert_eq!(remove_all_occurrences("héllo", "l"), "héo");
}
