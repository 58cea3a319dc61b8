use vstd::prelude::*;

use crate::error::PipelineError;
use crate::text::{decimal, decimal_text, occurs_at_exec};

verus! {

/// The character views of a sequence of strings.
pub open spec fn views(v: Seq<String>) -> Seq<Seq<char>> {
    v.map_values(|s: String| s@)
}

/// One run of an external executable: its logical name, its arguments as a
/// discrete list (never joined into a shell command), and the path it is
/// declared to write.
#[derive(Debug, Clone)]
pub struct ProcessInvocation {
    pub program: String,
    pub args: Vec<String>,
    pub output_path: String,
}

impl ProcessInvocation {
    /// Interprets how the process ended: a failure status yields the captured
    /// standard error verbatim; success yields the declared output path,
    /// whether or not the file exists.
    pub fn outcome(&self, succeeded: bool, stderr: String) -> (r: Result<String, PipelineError>)
        ensures
            succeeded ==> (r matches Ok(p) && p@ == self.output_path@),
            !succeeded ==> r == Err::<String, PipelineError>(PipelineError::ProcessExecution(stderr)),
    {
        if succeeded {
            Ok(self.output_path.clone())
        } else {
            Err(PipelineError::ProcessExecution(stderr))
        }
    }
}

/// Container formats that the trim workflow can produce.
#[derive(Debug, Clone, Copy, PartialEq, Eq, Structural)]
pub enum TargetFormat {
    Mp4,
    Mkv,
    Webm,
}

/// File extension of a target format.
pub open spec fn extension_of(f: TargetFormat) -> Seq<char> {
    match f {
        TargetFormat::Mp4 => "mp4"@,
        TargetFormat::Mkv => "mkv"@,
        TargetFormat::Webm => "webm"@,
    }
}

/// Video codec that a target format is encoded with.
pub open spec fn video_codec_of(f: TargetFormat) -> Seq<char> {
    match f {
        TargetFormat::Webm => "libvpx-vp9"@,
        _ => "libx264"@,
    }
}

/// Audio codec that a target format is encoded with.
pub open spec fn audio_codec_of(f: TargetFormat) -> Seq<char> {
    match f {
        TargetFormat::Webm => "libopus"@,
        _ => "aac"@,
    }
}

fn same_text(a: &str, b: &str) -> (r: bool)
    ensures
        r == (a@ == b@),
{
    let alen = a.unicode_len();
    let blen = b.unicode_len();
    if alen != blen {
        return false;
    }
    let r = occurs_at_exec(a, alen, b, blen, 0);
    proof {
        if r {
            assert(a@.subrange(0, alen as int) =~= a@);
        } else {
            assert(a@.subrange(0, alen as int) =~= a@);
        }
    }
    r
}

impl TargetFormat {
    /// The format whose extension is `ext`, if any.
    pub fn from_extension(ext: &str) -> (r: Option<TargetFormat>)
        ensures
            r matches Some(f) ==> extension_of(f) == ext@,
            r is None ==> forall|f: TargetFormat| extension_of(f) != ext@,
    {
        if same_text(ext, "mp4") {
            Some(TargetFormat::Mp4)
        } else if same_text(ext, "mkv") {
            Some(TargetFormat::Mkv)
        } else if same_text(ext, "webm") {
            Some(TargetFormat::Webm)
        } else {
            None
        }
    }

    /// The file extension of this format.
    pub fn extension(&self) -> (r: &'static str)
        ensures
            r@ == extension_of(*self),
    {
        match self {
            TargetFormat::Mp4 => "mp4",
            TargetFormat::Mkv => "mkv",
            TargetFormat::Webm => "webm",
        }
    }

    /// The video codec this format is encoded with.
    pub fn video_codec(&self) -> (r: &'static str)
        ensures
            r@ == video_codec_of(*self),
    {
        match self {
            TargetFormat::Webm => "libvpx-vp9",
            _ => "libx264",
        }
    }

    /// The audio codec this format is encoded with.
    pub fn audio_codec(&self) -> (r: &'static str)
        ensures
            r@ == audio_codec_of(*self),
    {
        match self {
            TargetFormat::Webm => "libopus",
            _ => "aac",
        }
    }
}

/// Format selection for the video fetcher: best video with best audio,
/// else the best single stream.
pub open spec fn best_streams() -> Seq<char> {
    "bestvideo+bestaudio/best"@
}

/// Arguments that fetch `url` into `output` as an mp4 container. The URL
/// comes after `--`, so that it is never read as an option.
pub open spec fn video_fetch_args(url: Seq<char>, output: Seq<char>) -> Seq<Seq<char>> {
    seq!["-f"@, best_streams(), "--merge-output-format"@, "mp4"@, "-o"@, output, "--"@, url]
}

/// Arguments that extract the audio of `input` into `output` as a WAV file of
/// 16 kHz, one channel, 32-bit float samples.
pub open spec fn audio_extraction_args(input: Seq<char>, output: Seq<char>) -> Seq<Seq<char>> {
    seq![
        "-nostdin"@, "-y"@, "-i"@, input, "-vn"@, "-ar"@, "16000"@, "-ac"@, "1"@,
        "-c:a"@, "pcm_f32le"@, "-f"@, "wav"@, output,
    ]
}

/// A time span in milliseconds, as the transcoder reads it.
pub open spec fn millis_arg(ms: nat) -> Seq<char> {
    decimal(ms) + "ms"@
}

/// Arguments that cut `duration_ms` of `input` from `start_ms` on and encode
/// them in `format` into `output`.
pub open spec fn transcode_args(
    input: Seq<char>,
    start_ms: nat,
    duration_ms: nat,
    format: TargetFormat,
    output: Seq<char>,
) -> Seq<Seq<char>> {
    seq![
        "-nostdin"@, "-y"@, "-ss"@, millis_arg(start_ms), "-t"@, millis_arg(duration_ms),
        "-i"@, input, "-c:v"@, video_codec_of(format), "-c:a"@, audio_codec_of(format), output,
    ]
}

fn text(s: &str) -> (r: String)
    ensures
        r@ == s@,
{
    String::from_str(s)
}

fn millis_text(ms: u64) -> (r: String)
    ensures
        r@ == millis_arg(ms as nat),
{
    let mut r = decimal_text(ms);
    r.append("ms");
    r
}

/// The invocation of the video fetcher that downloads `url` to `output`.
pub fn video_fetch_invocation(url: &str, output: &str) -> (r: ProcessInvocation)
    ensures
        r.program@ == "yt-dlp"@,
        views(r.args@) == video_fetch_args(url@, output@),
        r.output_path@ == output@,
{
    let mut args: Vec<String> = Vec::new();
    args.push(text("-f"));
    args.push(text("bestvideo+bestaudio/best"));
    args.push(text("--merge-output-format"));
    args.push(text("mp4"));
    args.push(text("-o"));
    args.push(text(output));
    args.push(text("--"));
    args.push(text(url));
    assert(views(args@) =~= video_fetch_args(url@, output@));
    ProcessInvocation { program: text("yt-dlp"), args, output_path: text(output) }
}

/// The invocation of the transcoder that extracts the audio of `input` to
/// `output` in the inference engine's input format.
pub fn audio_extraction_invocation(input: &str, output: &str) -> (r: ProcessInvocation)
    ensures
        r.program@ == "ffmpeg"@,
        views(r.args@) == audio_extraction_args(input@, output@),
        r.output_path@ == output@,
{
    let mut args: Vec<String> = Vec::new();
    args.push(text("-nostdin"));
    args.push(text("-y"));
    args.push(text("-i"));
    args.push(text(input));
    args.push(text("-vn"));
    args.push(text("-ar"));
    args.push(text("16000"));
    args.push(text("-ac"));
    args.push(text("1"));
    args.push(text("-c:a"));
    args.push(text("pcm_f32le"));
    args.push(text("-f"));
    args.push(text("wav"));
    args.push(text(output));
    assert(views(args@) =~= audio_extraction_args(input@, output@));
    ProcessInvocation { program: text("ffmpeg"), args, output_path: text(output) }
}

/// The invocation of the transcoder that trims `input` to `duration_ms`
/// from `start_ms` on and encodes it in `format` to `output`.
pub fn transcode_invocation(
    input: &str,
    start_ms: u64,
    duration_ms: u64,
    format: TargetFormat,
    output: &str,
) -> (r: ProcessInvocation)
    ensures
        r.program@ == "ffmpeg"@,
        views(r.args@) == transcode_args(input@, start_ms as nat, duration_ms as nat, format, output@),
        r.output_path@ == output@,
{
    let mut args: Vec<String> = Vec::new();
    args.push(text("-nostdin"));
    args.push(text("-y"));
    args.push(text("-ss"));
    args.push(millis_text(start_ms));
    args.push(text("-t"));
    args.push(millis_text(duration_ms));
    args.push(text("-i"));
    args.push(text(input));
    args.push(text("-c:v"));
    args.push(text(format.video_codec()));
    args.push(text("-c:a"));
    args.push(text(format.audio_codec()));
    args.push(text(output));
    assert(views(args@) =~= transcode_args(input@, start_ms as nat, duration_ms as nat, format, output@));
    ProcessInvocation { program: text("ffmpeg"), args, output_path: text(output) }
}

} // verus!
