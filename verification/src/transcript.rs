use crate::resample::joined;
use crate::text::{same_text, trim_text, trimmed};
use crate::runtime::{transcription_plan, RuntimeView, TranscriptionPlan, MIN_TRANSCRIBE_SAMPLES};
use vstd::prelude::*;

verus! {

/// The text reported when no engine is loaded.
pub const MODEL_NOT_LOADED: &'static str = "[Model not loaded]";

/// The text reported when the engine failed.
pub const TRANSCRIPTION_FAILED: &'static str = "[Transcription failed]";

/// The characters of each segment.
pub open spec fn segment_views(segments: Seq<String>) -> Seq<Seq<char>> {
    segments.map_values(|s: String| s@)
}

/// The segments of a transcription, one after the other.
pub fn join_segments(segments: &Vec<String>) -> (r: String)
    ensures
        r@ == joined(segment_views(segments@)),
{
    let mut text = String::new();
    let mut i: usize = 0;
    while i < segments.len()
        invariant
            0 <= i <= segments.len(),
            text@ == joined(segment_views(segments@.subrange(0, i as int))),
        decreases segments.len() - i,
    {
        text.append(segments[i].as_str());
        proof {
            let next = segment_views(segments@.subrange(0, i + 1));
            assert(next.drop_last() =~= segment_views(segments@.subrange(0, i as int)));
            assert(next.last() == segments@[i as int]@);
        }
        i += 1;
    }
    assert(segments@.subrange(0, segments.len() as int) =~= segments@);
    text
}

/// The text that a plan settles without the engine: the not-loaded
/// sentinel, or the empty text for audio that is too short.
pub open spec fn settled_text(plan: TranscriptionPlan) -> Option<Seq<char>> {
    match plan {
        TranscriptionPlan::NotLoaded => Some(MODEL_NOT_LOADED@),
        TranscriptionPlan::Skip => Some(Seq::empty()),
        TranscriptionPlan::Run { .. } => None,
    }
}

/// The text of a plan that does not run the engine; `None` where the
/// engine has to run.
pub fn planned_text(plan: TranscriptionPlan) -> (r: Option<String>)
    ensures
        match r {
            Some(text) => settled_text(plan) == Some(text@),
            None => settled_text(plan) is None,
        },
{
    match plan {
        TranscriptionPlan::NotLoaded => Some(MODEL_NOT_LOADED.to_owned()),
        TranscriptionPlan::Skip => Some(String::new()),
        TranscriptionPlan::Run { .. } => None,
    }
}

/// The text after a run of the engine: its segments joined and trimmed, or
/// the failure sentinel.
pub open spec fn text_after_run(outcome: Result<Seq<Seq<char>>, Seq<char>>) -> Seq<char> {
    match outcome {
        Ok(segments) => trimmed(joined(segments)),
        Err(_) => TRANSCRIPTION_FAILED@,
    }
}

/// Turns what the engine gave, its segments or its error, into the text of
/// the transcription. A failure degrades to the sentinel.
pub fn engine_text(outcome: Result<Vec<String>, String>) -> (r: String)
    ensures
        r@ == text_after_run(
            match outcome {
                Ok(segments) => Ok(segment_views(segments@)),
                Err(message) => Err(message@),
            },
        ),
{
    match outcome {
        Ok(segments) => {
            let raw = join_segments(&segments);
            trim_text(raw.as_str()).to_owned()
        },
        Err(_) => TRANSCRIPTION_FAILED.to_owned(),
    }
}

/// Whether `text` is to be inserted at the cursor: it is not empty and not
/// one of the two sentinels.
pub open spec fn insertable(text: Seq<char>) -> bool {
    text.len() > 0 && text != MODEL_NOT_LOADED@ && text != TRANSCRIPTION_FAILED@
}

/// Whether a transcription is to be inserted at the cursor.
pub fn should_insert(text: &str) -> (r: bool)
    ensures
        r == insertable(text@),
{
    !text.is_empty() && !same_text(text, MODEL_NOT_LOADED) && !same_text(text, TRANSCRIPTION_FAILED)
}

/// With an engine loaded, audio below the minimum length is settled
/// without the engine: the text is empty, and it is not inserted.
pub proof fn short_audio_gives_empty_text<C>(runtime: RuntimeView<C>, sample_count: int)
    requires
        runtime.context is Some,
        sample_count < MIN_TRANSCRIBE_SAMPLES,
    ensures
        settled_text(transcription_plan(runtime, sample_count)) == Some(Seq::<char>::empty()),
        !insertable(Seq::<char>::empty()),
{
}

/// Without an engine every recording is answered with the not-loaded
/// sentinel, which is not inserted.
pub proof fn missing_engine_gives_sentinel<C>(runtime: RuntimeView<C>, sample_count: int)
    requires
        runtime.context is None,
    ensures
        settled_text(transcription_plan(runtime, sample_count)) == Some(MODEL_NOT_LOADED@),
        !insertable(MODEL_NOT_LOADED@),
{
}

} // verus!
