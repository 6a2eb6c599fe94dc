//! The transcription pipeline: prepare the normalized tensor for the
//! optical-character-recognition engine, detect word regions, group them
//! into line regions, recognize each line, and keep the lines with content.
//!
//! The engine itself is an outside capability; what it hands back runs
//! through verified post-processing.

use vstd::prelude::*;

use crate::PipelineError;
use crate::tensor::{NormalizedTensor, decoded_image};

verus! {

#[verifier::external_type_specification]
#[verifier::external_body]
pub struct ExModel(rten::Model);

#[verifier::external_type_specification]
#[verifier::external_body]
pub struct ExOcrEngine(ocrs::OcrEngine);

#[verifier::external_type_specification]
#[verifier::external_body]
pub struct ExOcrInput(ocrs::OcrInput);

#[verifier::external_type_specification]
#[verifier::external_body]
pub struct ExRotatedRect(rten_imageproc::RotatedRect);

/// How per-position character probabilities become a string: pick the best
/// symbol at each step, or keep the `width` best partial decodings.
#[derive(Clone, Copy, Debug, PartialEq, Eq, Structural)]
pub enum DecodeStrategy {
    /// Highest-probability symbol at each step, no backtracking.
    Greedy,
    /// Keep the `width` highest-scoring partial decodings at each step.
    BeamSearch { width: u32 },
}

impl DecodeStrategy {
    /// A beam must keep at least one candidate.
    pub open spec fn wf(self) -> bool {
        self matches DecodeStrategy::BeamSearch { width } ==> width > 0
    }
}

/// Relies on `rten::Model::load`: builds an opaque model handle from the
/// serialized model bytes, and fails when they are not a valid encoding.
#[verifier::external_body]
pub fn load_model(data: Vec<u8>) -> (r: Result<rten::Model, PipelineError>)
    ensures
        r matches Err(e) ==> e == PipelineError::ModelLoad,
{
    match rten::Model::load(data) {
        Ok(m) => Ok(m),
        Err(_) => Err(PipelineError::ModelLoad),
    }
}

/// Relies on `ocrs::OcrEngine::new`: builds the engine from the two model
/// handles and the decode method, and fails when a model cannot back its
/// stage.
#[verifier::external_body]
fn new_engine(
    detection: rten::Model,
    recognition: rten::Model,
    strategy: &DecodeStrategy,
) -> (r: Result<ocrs::OcrEngine, PipelineError>)
    ensures
        r matches Err(e) ==> e == PipelineError::ModelLoad,
{
    let decode_method = match strategy {
        DecodeStrategy::Greedy => ocrs::DecodeMethod::Greedy,
        DecodeStrategy::BeamSearch { width } => ocrs::DecodeMethod::BeamSearch { width: *width },
    };
    let params = ocrs::OcrEngineParams {
        detection_model: Some(detection),
        recognition_model: Some(recognition),
        debug: false,
        decode_method,
        ..Default::default()
    };
    match ocrs::OcrEngine::new(params) {
        Ok(e) => Ok(e),
        Err(_) => Err(PipelineError::ModelLoad),
    }
}

/// Relies on `ocrs::OcrEngine::prepare_input` with an
/// `ocrs::ImageSource::from_tensor` view of the tensor's planes in
/// channel-first order: adapts the image for the engine's stages.
#[verifier::external_body]
fn prepare_input(engine: &ocrs::OcrEngine, img: &NormalizedTensor) -> (r: Result<
    ocrs::OcrInput,
    PipelineError,
>)
    requires
        img.wf(),
    ensures
        r matches Err(e) ==> e == PipelineError::PrepareFailed,
{
    let view = rten_tensor::NdTensorView::from_data(
        [3, img.height, img.width],
        img.data.as_slice(),
    );
    let source = match ocrs::ImageSource::from_tensor(view, ocrs::DimOrder::Chw) {
        Ok(s) => s,
        Err(_) => return Err(PipelineError::PrepareFailed),
    };
    match engine.prepare_input(source) {
        Ok(input) => Ok(input),
        Err(_) => Err(PipelineError::PrepareFailed),
    }
}

/// Relies on `ocrs::OcrEngine::detect_words`: an unordered list of the
/// oriented bounding rectangles of the word candidates; may be empty.
#[verifier::external_body]
fn detect_words(engine: &ocrs::OcrEngine, input: &ocrs::OcrInput) -> (r: Result<
    Vec<rten_imageproc::RotatedRect>,
    PipelineError,
>)
    ensures
        r matches Err(e) ==> e == PipelineError::DetectionFailed,
{
    match engine.detect_words(input) {
        Ok(words) => Ok(words),
        Err(_) => Err(PipelineError::DetectionFailed),
    }
}

/// Relies on `ocrs::OcrEngine::find_text_lines`: groups word regions into
/// line regions in reading order; every returned line region holds at
/// least one word region.
#[verifier::external_body]
fn find_text_lines(
    engine: &ocrs::OcrEngine,
    input: &ocrs::OcrInput,
    words: &Vec<rten_imageproc::RotatedRect>,
) -> (r: Vec<Vec<rten_imageproc::RotatedRect>>)
    ensures
        forall|i: int| 0 <= i < r@.len() ==> (#[trigger] r@[i])@.len() > 0,
{
    engine.find_text_lines(input, words.as_slice())
}

/// Relies on `ocrs::OcrEngine::recognize_text`: one entry per line region,
/// in the given order, `None` where the region held no recognizable text;
/// panics on a line region without word regions, which the precondition
/// rules out.
#[verifier::external_body]
fn recognize_text(
    engine: &ocrs::OcrEngine,
    input: &ocrs::OcrInput,
    lines: &Vec<Vec<rten_imageproc::RotatedRect>>,
) -> (r: Result<Vec<Option<String>>, PipelineError>)
    requires
        forall|i: int| 0 <= i < lines@.len() ==> (#[trigger] lines@[i])@.len() > 0,
    ensures
        r matches Ok(v) ==> v@.len() == lines@.len(),
        r matches Err(e) ==> e == PipelineError::RecognitionFailed,
{
    match engine.recognize_text(input, lines.as_slice()) {
        Ok(v) => Ok(v.into_iter().map(|line| line.map(|t| t.to_string())).collect()),
        Err(_) => Err(PipelineError::RecognitionFailed),
    }
}

/// The lines with recognized content, in order: the non-empty strings,
/// with the gaps dropped rather than surfaced as empty lines.
pub open spec fn collected(found: Seq<Option<Seq<char>>>) -> Seq<Seq<char>>
    decreases found.len(),
{
    if found.len() == 0 {
        Seq::empty()
    } else {
        let rest = collected(found.drop_last());
        match found.last() {
            Some(s) => if s.len() > 0 {
                rest.push(s)
            } else {
                rest
            },
            None => rest,
        }
    }
}

/// Every line that `collected` keeps has content.
pub proof fn lemma_collected_nonempty(found: Seq<Option<Seq<char>>>)
    ensures
        forall|k: int| 0 <= k < collected(found).len() ==> (#[trigger] collected(found)[k]).len()
            > 0,
    decreases found.len(),
{
    if found.len() > 0 {
        lemma_collected_nonempty(found.drop_last());
        let rest = collected(found.drop_last());
        assert forall|k: int| 0 <= k < collected(found).len() implies (#[trigger] collected(
            found,
        )[k]).len() > 0 by {
            if k < rest.len() {
                assert(collected(found)[k] == rest[k]);
            } else {
                assert(collected(found)[k] == found.last()->Some_0);
            }
        }
    }
}

/// When no line region held recognizable content, the transcription is the
/// empty line list — an empty result, not an error.
pub proof fn lemma_no_content_no_lines(found: Seq<Option<Seq<char>>>)
    requires
        forall|k: int| 0 <= k < found.len() ==> ((#[trigger] found[k]) matches Some(s) ==> s.len()
            == 0),
    ensures
        collected(found).len() == 0,
    decreases found.len(),
{
    if found.len() > 0 {
        assert(forall|k: int|
            0 <= k < found.drop_last().len() ==> ((#[trigger] found.drop_last()[k]) matches Some(s)
                ==> s.len() == 0));
        lemma_no_content_no_lines(found.drop_last());
    }
}

/// Keep the recognized lines with content, in order.
pub fn collect_lines(found: Vec<Option<String>>) -> (r: Vec<String>)
    ensures
        r.deep_view() == collected(found.deep_view()),
{
    let ghost all = found.deep_view();
    let mut rest = found;
    let total = rest.len();
    let mut r: Vec<String> = Vec::new();
    let mut i: usize = 0;
    proof {
        assert(all.subrange(0, 0) =~= Seq::<Option<Seq<char>>>::empty());
        assert(r.deep_view() =~= collected(all.subrange(0, 0)));
    }
    while rest.len() > 0
        invariant
            all.len() == total,
            i + rest@.len() == all.len(),
            forall|k: int| 0 <= k < rest@.len() ==> (#[trigger] rest@[k]).deep_view() == all[i + k],
            r.deep_view() == collected(all.subrange(0, i as int)),
        decreases rest@.len(),
    {
        let entry = rest.remove(0);
        let ghost prev = r.deep_view();
        match entry {
            Some(line) => {
                if line.as_str().unicode_len() > 0 {
                    r.push(line);
                    proof {
                        assert(r.deep_view() =~= prev.push(all[i as int]->Some_0));
                    }
                }
            },
            None => {},
        }
        proof {
            assert(all.subrange(0, i + 1).drop_last() =~= all.subrange(0, i as int));
            assert(all.subrange(0, i + 1).last() == all[i as int]);
            assert(r.deep_view() =~= collected(all.subrange(0, i + 1)));
        }
        i = i + 1;
    }
    proof {
        assert(all.subrange(0, i as int) =~= all);
    }
    r
}

/// The transcription capability: the two loaded model handles behind one
/// engine, with the decode strategy fixed at construction.
pub struct TranscriptionEngine {
    engine: ocrs::OcrEngine,
}

impl TranscriptionEngine {
    /// Build an engine from the two model handles and a decode strategy.
    pub fn new(
        detection: rten::Model,
        recognition: rten::Model,
        strategy: DecodeStrategy,
    ) -> (r: Result<TranscriptionEngine, PipelineError>)
        requires
            strategy.wf(),
    {
        match new_engine(detection, recognition, &strategy) {
            Ok(engine) => Ok(TranscriptionEngine { engine }),
            Err(e) => Err(e),
        }
    }

    /// Run the full pipeline on a normalized tensor: prepare, detect,
    /// group, recognize, then keep the lines with content in reading
    /// order. A failure in any stage aborts the whole transcription.
    pub fn transcribe(&self, img: &NormalizedTensor) -> (r: Result<Vec<String>, PipelineError>)
        requires
            img.wf(),
        ensures
            r matches Err(e) ==> (e == PipelineError::PrepareFailed || e
                == PipelineError::DetectionFailed || e == PipelineError::RecognitionFailed),
            r matches Ok(v) ==> forall|k: int|
                0 <= k < v.deep_view().len() ==> (#[trigger] v.deep_view()[k]).len() > 0,
    {
        let input = match prepare_input(&self.engine, img) {
            Ok(input) => input,
            Err(e) => {
                return Err(e);
            },
        };
        let words = match detect_words(&self.engine, &input) {
            Ok(words) => words,
            Err(e) => {
                return Err(e);
            },
        };
        let lines = find_text_lines(&self.engine, &input, &words);
        let found = match recognize_text(&self.engine, &input, &lines) {
            Ok(found) => found,
            Err(e) => {
                return Err(e);
            },
        };
        proof {
            lemma_collected_nonempty(found.deep_view());
        }
        Ok(collect_lines(found))
    }
}

/// Decode an encoded photo and transcribe it: the composition of
/// normalization and the engine pipeline.
///
/// Fails with the decode error exactly when the bytes are not a decodable
/// image; otherwise any failure comes from an engine stage, and a success
/// holds only lines with content.
pub fn transcribe_image(engine: &TranscriptionEngine, buffer: Vec<u8>) -> (r: Result<
    Vec<String>,
    PipelineError,
>)
    ensures
        decoded_image(buffer@) is None <==> (r matches Err(e) && e == PipelineError::Decode),
        r matches Ok(v) ==> forall|k: int|
            0 <= k < v.deep_view().len() ==> (#[trigger] v.deep_view()[k]).len() > 0,
{
    match crate::tensor::read_buffer(&buffer) {
        Ok(tensor) => {
            match engine.transcribe(&tensor) {
                Ok(lines) => Ok(lines),
                Err(e) => Err(e),
            }
        },
        Err(e) => Err(e),
    }
}

} // verus!
