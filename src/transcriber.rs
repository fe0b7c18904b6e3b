//! The local on-device model: the decoding parameters it is run with, and
//! how its segments become a result. The engine itself runs outside.

use vstd::prelude::*;
use crate::audio::{Segment, TranscribeResult};
use crate::text::{trim_text, trimmed};

verus! {

/// Size of the local model.
#[derive(Clone, Copy, Debug, PartialEq, Eq, Structural)]
pub enum WhisperModel {
    Tiny,
    Base,
    Small,
    Medium,
    Large,
}

/// Parameters of one greedy decoding pass.
pub struct InferencePlan {
    /// Candidates kept by greedy decoding.
    pub best_of: u32,
    /// Language forced on the engine; `None` leaves it to detect one.
    pub language: Option<String>,
    /// Whether the detected language is asked of the engine afterwards.
    pub detect_language: bool,
    pub print_special: bool,
    pub print_progress: bool,
    pub print_realtime: bool,
    pub print_timestamps: bool,
    pub translate: bool,
    pub no_context: bool,
    pub single_segment: bool,
}

/// One segment as the engine reports it: times in hundredths of a second.
pub struct RawSegment {
    pub t0: i64,
    pub t1: i64,
    pub text: String,
}

/// Settings of the local model backend.
pub struct WhisperTranscriber {
    pub model: WhisperModel,
    /// A language code, or "auto" to detect one.
    pub language: String,
}

/// Whether a configured language asks for detection.
pub open spec fn is_auto(language: Seq<char>) -> bool {
    language == "auto"@
}

/// The text of an optional string.
pub open spec fn opt_view(o: Option<String>) -> Option<Seq<char>> {
    match o {
        Some(s) => Some(s@),
        None => None,
    }
}

/// Whether the engine is asked for the language it detected.
pub open spec fn detects_language(configured: Seq<char>) -> bool {
    is_auto(configured)
}

/// The language forced on the engine.
pub open spec fn forced_language(configured: Seq<char>) -> Option<Seq<char>> {
    if is_auto(configured) {
        None
    } else {
        Some(configured)
    }
}

/// The language a result declares, given what the engine detected.
pub open spec fn declared_language(configured: Seq<char>, detected: Option<Seq<char>>) -> Option<
    Seq<char>,
> {
    if is_auto(configured) {
        detected
    } else {
        Some(configured)
    }
}

/// The segments' texts joined in order.
pub open spec fn segments_text(segs: Seq<RawSegment>) -> Seq<char>
    decreases segs.len(),
{
    if segs.len() == 0 {
        seq![]
    } else {
        segments_text(segs.drop_last()) + segs.last().text@
    }
}

impl WhisperTranscriber {
    pub fn new(model: WhisperModel, language: &str) -> (r: WhisperTranscriber)
        ensures
            r.model == model,
            r.language@ == language@,
    {
        WhisperTranscriber { model, language: String::from_str(language) }
    }

    pub fn model(&self) -> (r: WhisperModel)
        ensures
            r == self.model,
    {
        self.model
    }

    pub fn language(&self) -> (r: &str)
        ensures
            r@ == self.language@,
    {
        self.language.as_str()
    }

    fn language_is_auto(&self) -> (r: bool)
        ensures
            r == is_auto(self.language@),
    {
        let auto = String::from_str("auto");
        self.language == auto
    }

    /// The decoding parameters: greedy with one candidate, no printing, no
    /// translation, no carried context, segments kept apart; a fixed
    /// language is forced, "auto" asks for detection instead.
    pub fn plan(&self) -> (r: InferencePlan)
        ensures
            r.best_of == 1,
            opt_view(r.language) == forced_language(self.language@),
            r.detect_language == detects_language(self.language@),
            !r.print_special && !r.print_progress && !r.print_realtime && !r.print_timestamps,
            !r.translate && r.no_context && !r.single_segment,
    {
        let auto = self.language_is_auto();
        InferencePlan {
            best_of: 1,
            language: if auto {
                None
            } else {
                Some(self.language.clone())
            },
            detect_language: auto,
            print_special: false,
            print_progress: false,
            print_realtime: false,
            print_timestamps: false,
            translate: false,
            no_context: true,
            single_segment: false,
        }
    }

    /// Builds the result from the engine's segments: the texts joined and
    /// trimmed, one segment each with its times, and the language: the
    /// configured code, or with "auto" what the engine detected.
    pub fn assemble(&self, raw: Vec<RawSegment>, detected: Option<String>) -> (r: TranscribeResult)
        ensures
            r.text@ == trimmed(segments_text(raw@)),
            r.confidence is None,
            r.segments@.len() == raw@.len(),
            forall|i: int|
                0 <= i < raw@.len() ==> (#[trigger] r.segments@[i]).start_cs == raw@[i].t0
                    && r.segments@[i].end_cs == raw@[i].t1 && r.segments@[i].text@
                    == raw@[i].text@,
            opt_view(r.language) == declared_language(self.language@, opt_view(detected)),
    {
        let mut text = String::new();
        let mut segments: Vec<Segment> = Vec::new();
        let mut i: usize = 0;
        while i < raw.len()
            invariant
                i <= raw@.len(),
                text@ == segments_text(raw@.subrange(0, i as int)),
                segments@.len() == i,
                forall|k: int|
                    0 <= k < i ==> (#[trigger] segments@[k]).start_cs == raw@[k].t0
                        && segments@[k].end_cs == raw@[k].t1 && segments@[k].text@
                        == raw@[k].text@,
            decreases raw@.len() - i,
        {
            let seg = &raw[i];
            text.append(seg.text.as_str());
            segments.push(Segment { start_cs: seg.t0, end_cs: seg.t1, text: seg.text.clone() });
            proof {
                let pre = raw@.subrange(0, i as int + 1);
                assert(pre.drop_last() =~= raw@.subrange(0, i as int));
            }
            i = i + 1;
        }
        assert(raw@.subrange(0, raw@.len() as int) =~= raw@);
        let language = if self.language_is_auto() {
            detected
        } else {
            Some(self.language.clone())
        };
        TranscribeResult { text: trim_text(text.as_str()), language, confidence: None, segments }
    }
}

/// With a fixed language code the engine is never asked to detect one, the
/// code is forced on it, and the result declares exactly that code whatever
/// the engine could have detected.
pub proof fn lemma_fixed_language_is_declared(
    configured: Seq<char>,
    detected: Option<Seq<char>>,
)
    requires
        !is_auto(configured),
    ensures
        !detects_language(configured),
        forced_language(configured) == Some(configured),
        declared_language(configured, detected) == Some(configured),
{
}

} // verus!
