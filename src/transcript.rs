use vstd::prelude::*;

verus! {

/// What `str::trim` makes of `s`.
pub uninterp spec fn trimmed_of(s: Seq<char>) -> Seq<char>;

/// Relies on `str::trim`: it removes leading and trailing whitespace, so the
/// result is no longer than the input, and depends on the input alone.
#[verifier::external_body]
fn trim_text(s: &str) -> (r: String)
    ensures
        r@ == trimmed_of(s@),
        r@.len() <= s@.len(),
{
    s.trim().to_string()
}

/// Every segment followed by one space, in order.
pub open spec fn joined_segments(segments: Seq<Seq<char>>) -> Seq<char>
    decreases segments.len(),
{
    if segments.len() == 0 {
        Seq::empty()
    } else {
        joined_segments(segments.drop_last()) + segments.last() + " "@
    }
}

/// Concatenates the segments in emission order, each followed by one space.
pub fn join_segments(segments: &Vec<String>) -> (r: String)
    ensures
        r@ == joined_segments(segments@.map_values(|s: String| s@)),
{
    let mut r = String::new();
    let mut i: usize = 0;
    while i < segments.len()
        invariant
            i <= segments@.len(),
            r@ == joined_segments(segments@.subrange(0, i as int).map_values(|s: String| s@)),
        decreases segments@.len() - i,
    {
        assert(segments@.subrange(0, i + 1).map_values(|s: String| s@).drop_last()
            =~= segments@.subrange(0, i as int).map_values(|s: String| s@));
        r.append(segments[i].as_str());
        r.append(" ");
        i = i + 1;
    }
    assert(segments@.subrange(0, i as int) =~= segments@);
    r
}

/// The outcome of one transcription: the segment texts in emission order,
/// their trimmed space-separated concatenation, and the detected language if
/// detection succeeded.
#[derive(Debug, Clone)]
pub struct TranscriptionResult {
    pub text: String,
    pub detected_language: Option<String>,
    pub segments: Vec<String>,
}

/// Builds the result of a transcription from the emitted segments and the
/// language detection outcome; an undetected language stays absent.
pub fn assemble_transcript(segments: Vec<String>, detected_language: Option<String>) -> (r: TranscriptionResult)
    ensures
        r.text@ == trimmed_of(joined_segments(segments@.map_values(|s: String| s@))),
        r.segments == segments,
        r.detected_language == detected_language,
{
    let joined = join_segments(&segments);
    let text = trim_text(joined.as_str());
    TranscriptionResult { text, detected_language, segments }
}

} // verus!
