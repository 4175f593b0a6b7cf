use vstd::prelude::*;

use crate::settings::Settings;

verus! {

/// Capacity of each actor's request queue.
pub const BUFFER_LENGTH: usize = 100;

/// Errors of a translation actor.
#[derive(Debug, Clone, PartialEq, Eq)]
pub enum TranslatorError {
    /// The model could not be loaded, or failed on one request; holds the
    /// model library's message.
    RustBertError(String),
    /// The worker is gone: its thread could not be joined, or it dropped a
    /// reply slot without answering.
    ThreadJoinError,
    /// A request could not be enqueued because the worker no longer reads.
    SendError,
}

/// What one request yields: the translated segments, in the model's order.
pub type TranslationModelResult = Result<Vec<String>, TranslatorError>;

/// The language of a text.
#[derive(Debug, Clone, Copy, PartialEq, Eq, Structural)]
pub enum Language {
    English,
    Italian,
}

/// The direction an actor translates in.
#[derive(Debug, Clone, Copy, PartialEq, Eq, Structural)]
pub enum TranslationDirection {
    EnglishToItalian,
    ItalianToEnglish,
}

/// The language a direction translates from.
pub open spec fn source_of(d: TranslationDirection) -> Language {
    match d {
        TranslationDirection::EnglishToItalian => Language::English,
        TranslationDirection::ItalianToEnglish => Language::Italian,
    }
}

/// The language a direction translates into.
pub open spec fn target_of(d: TranslationDirection) -> Language {
    match d {
        TranslationDirection::EnglishToItalian => Language::Italian,
        TranslationDirection::ItalianToEnglish => Language::English,
    }
}

/// The directory, under the base path, that holds a direction's model.
pub open spec fn model_dir_of(d: TranslationDirection) -> Seq<char> {
    match d {
        TranslationDirection::EnglishToItalian => "opus-mt-en-ROMANCE"@,
        TranslationDirection::ItalianToEnglish => "opus-mt-ROMANCE-en"@,
    }
}

/// File, inside a model directory, that holds the weights.
pub const MODEL_FILE: &'static str = "rust_model.ot";

/// File, inside a model directory, that holds the model configuration.
pub const CONFIG_FILE: &'static str = "config.json";

/// File, inside a model directory, that holds the vocabulary.
pub const VOCAB_FILE: &'static str = "vocab.json";

/// Everything a worker needs to construct its model for one direction.
#[derive(Debug, Clone)]
pub struct ModelSetup {
    pub source: Language,
    pub target: Language,
    /// The base directory of all models.
    pub base_path: String,
    /// The directory under `base_path` that holds this direction's files.
    pub model_dir: String,
}

impl TranslationDirection {
    /// The language this direction translates from.
    pub fn source(&self) -> (r: Language)
        ensures
            r == source_of(*self),
    {
        match self {
            TranslationDirection::EnglishToItalian => Language::English,
            TranslationDirection::ItalianToEnglish => Language::Italian,
        }
    }

    /// The language this direction translates into.
    pub fn target(&self) -> (r: Language)
        ensures
            r == target_of(*self),
    {
        match self {
            TranslationDirection::EnglishToItalian => Language::Italian,
            TranslationDirection::ItalianToEnglish => Language::English,
        }
    }

    /// Resolves this direction, under `settings`, into the language pair and
    /// the resource locations of its model.
    pub fn setup(&self, settings: &Settings) -> (r: ModelSetup)
        ensures
            r.source == source_of(*self),
            r.target == target_of(*self),
            r.base_path@ == settings.path@,
            r.model_dir@ == model_dir_of(*self),
    {
        let model_dir = match self {
            TranslationDirection::EnglishToItalian => "opus-mt-en-ROMANCE".to_owned(),
            TranslationDirection::ItalianToEnglish => "opus-mt-ROMANCE-en".to_owned(),
        };
        ModelSetup {
            source: self.source(),
            target: self.target(),
            base_path: settings.path.clone(),
            model_dir,
        }
    }
}

/// The result that `translate` hands its caller: `enqueued` tells whether the
/// request entered the queue, `reply` what came out of its reply slot (`None`
/// where the slot's writer went away without writing).
pub fn translate_outcome(enqueued: bool, reply: Option<TranslationModelResult>) -> (r:
    TranslationModelResult)
    ensures
        !enqueued ==> r == Err::<Vec<String>, TranslatorError>(TranslatorError::SendError),
        enqueued && reply is None ==> r == Err::<Vec<String>, TranslatorError>(
            TranslatorError::ThreadJoinError,
        ),
        enqueued && reply is Some ==> r == reply->0,
{
    if !enqueued {
        Err(TranslatorError::SendError)
    } else {
        match reply {
            Some(result) => result,
            None => Err(TranslatorError::ThreadJoinError),
        }
    }
}

/// The result that `stop` hands its caller: `joined` is the worker's own
/// final outcome, or `None` where its thread ended abnormally.
pub fn stop_outcome(joined: Option<Result<(), TranslatorError>>) -> (r: Result<(), TranslatorError>)
    ensures
        joined is None ==> r == Err::<(), TranslatorError>(TranslatorError::ThreadJoinError),
        joined is Some ==> r == joined->0,
{
    match joined {
        Some(outcome) => outcome,
        None => Err(TranslatorError::ThreadJoinError),
    }
}

} // verus!
