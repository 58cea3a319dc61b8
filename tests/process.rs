use convrt::{
    acquire_invocation, artifact_path, audio_extraction_invocation, extraction_invocation,
    transcode_invocation, trim_invocation, video_fetch_invocation, ArtifactRole, PipelineError,
    TargetFormat,
};

fn strings(v: &[&str]) -> Vec<String> {
    v.iter().map(|s| s.to_string()).collect()
}

#[test]
fn failing_process_surfaces_stderr_verbatim() {
    let inv = transcode_invocation("in.mp4", 0, 1000, TargetFormat::Mp4, "out.mp4");
    let stderr = "in.mp4: No such file or directory\n".to_string();
    assert_eq!(inv.outcome(false, stderr.clone()), Err(PipelineError::ProcessExecution(stderr)));
}

#[test]
fn succeeding_process_yields_declared_path() {
    let inv = transcode_invocation("in.mp4", 0, 1000, TargetFormat::Mp4, "out.mp4");
    assert_eq!(inv.outcome(true, "warnings".to_string()), Ok("out.mp4".to_string()));
}

#[test]
fn fetch_arguments() {
    let inv = video_fetch_invocation("-https://x/y?a=1&b=2", "/w/v.mp4");
    assert_eq!(inv.program, "yt-dlp");
    assert_eq!(
        inv.args,
        strings(&["-f", "bestvideo+bestaudio/best", "--merge-output-format", "mp4", "-o", "/w/v.mp4", "--", "-https://x/y?a=1&b=2"])
    );
    assert_eq!(inv.output_path, "/w/v.mp4");
}

#[test]
fn extraction_arguments() {
    let inv = audio_extraction_invocation("/w/v.mp4", "/w/a.wav");
    assert_eq!(inv.program, "ffmpeg");
    assert_eq!(
        inv.args,
        strings(&["-nostdin", "-y", "-i", "/w/v.mp4", "-vn", "-ar", "16000", "-ac", "1", "-c:a", "pcm_f32le", "-f", "wav", "/w/a.wav"])
    );
}

#[test]
fn trim_of_ten_second_video_to_mp4() {
    let inv = trim_invocation("/w/source.mp4", 2000, 3000, TargetFormat::Mp4, "/w", 7);
    assert_eq!(inv.program, "ffmpeg");
    assert_eq!(inv.output_path, "/w/trimmed-7.mp4");
    assert_eq!(
        inv.args,
        strings(&["-nostdin", "-y", "-ss", "2000ms", "-t", "3000ms", "-i", "/w/source.mp4", "-c:v", "libx264", "-c:a", "aac", "/w/trimmed-7.mp4"])
    );
}

#[test]
fn trim_to_webm_uses_vp9_and_opus() {
    let inv = trim_invocation("s.mkv", 0, 1500, TargetFormat::Webm, "/w", 0);
    assert_eq!(inv.output_path, "/w/trimmed-0.webm");
    assert_eq!(inv.args[3], "0ms");
    assert_eq!(inv.args[5], "1500ms");
    assert_eq!(inv.args[9], "libvpx-vp9");
    assert_eq!(inv.args[11], "libopus");
}

#[test]
fn formats_from_extensions() {
    assert_eq!(TargetFormat::from_extension("mp4"), Some(TargetFormat::Mp4));
    assert_eq!(TargetFormat::from_extension("mkv"), Some(TargetFormat::Mkv));
    assert_eq!(TargetFormat::from_extension("webm"), Some(TargetFormat::Webm));
    assert_eq!(TargetFormat::from_extension("MP4"), None);
    assert_eq!(TargetFormat::from_extension(""), None);
    assert_eq!(TargetFormat::Mkv.extension(), "mkv");
}

#[test]
fn workflow_invocations_write_their_own_files() {
    let a = acquire_invocation("https://v/1", "/w", 3);
    assert_eq!(a.output_path, "/w/video-3.mp4");
    let e = extraction_invocation("/w/video-3.mp4", "/w", 3);
    assert_eq!(e.output_path, "/w/audio-3.wav");
    assert_eq!(e.args[3], "/w/video-3.mp4");
}

#[test]
fn artifact_paths_of_two_runs_differ() {
    assert_eq!(artifact_path("/tmp/w", ArtifactRole::Audio, 42, "wav"), "/tmp/w/audio-42.wav");
    let p1 = artifact_path("/tmp/w", ArtifactRole::Audio, 1, "wav");
    let p2 = artifact_path("/tmp/w", ArtifactRole::Audio, 12, "wav");
    assert_ne!(p1, p2);
    let v1 = extraction_invocation("a.mp4", "/tmp/w", 1).output_path;
    let v2 = extraction_invocation("b.mp4", "/tmp/w", 2).output_path;
    assert_ne!(v1, v2);
    assert_eq!(
        artifact_path("/w", ArtifactRole::Video, u64::MAX, "mp4"),
        "/w/video-18446744073709551615.mp4"
    );
}

#[test]
fn failure_described_by_kind_and_detail() {
    let e = PipelineError::ProcessExecution("exit 1: bad codec".to_string());
    assert_eq!(e.kind(), "process execution error");
    assert_eq!(e.detail(), "exit 1: bad codec");
    assert_eq!(e.describe(), "process execution error: exit 1: bad codec");
    assert_eq!(PipelineError::Network("HTTP error: 404".to_string()).describe(), "network error: HTTP error: 404");
    assert_eq!(PipelineError::FormatValidation(String::new()).describe(), "format validation error: ");
}
