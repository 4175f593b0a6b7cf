use vstd::prelude::*;

use crate::translator::{TranslationDirection, TranslationModelResult, TranslatorError};

verus! {

/// Languages a request may be written in.
#[derive(Debug, Clone, Copy, PartialEq, Eq, Structural)]
pub enum SupportedLanguages {
    Italian,
    English,
}

/// Errors a translation request answers with.
#[derive(Debug, Clone, PartialEq, Eq)]
pub enum ErrorResponse {
    /// The actor serving the request failed.
    TranslatorError(TranslatorError),
}

/// A request to translate `text`, written in `from_language`, into the other
/// supported language.
#[derive(Debug, Clone)]
pub struct TranslationRequest {
    /// The text to be translated.
    pub text: String,
    /// The source language of the text.
    pub from_language: SupportedLanguages,
}

/// The answer to a translation request.
#[derive(Debug, Clone, PartialEq, Eq)]
pub struct TranslationResponse {
    /// The translated text.
    pub translation: String,
}

/// The direction that serves text written in `lang`.
pub open spec fn direction_of(lang: SupportedLanguages) -> TranslationDirection {
    match lang {
        SupportedLanguages::Italian => TranslationDirection::ItalianToEnglish,
        SupportedLanguages::English => TranslationDirection::EnglishToItalian,
    }
}

/// The segments one after another, a single space between two neighbours.
pub open spec fn joined(segments: Seq<Seq<char>>) -> Seq<char>
    decreases segments.len(),
{
    if segments.len() == 0 {
        Seq::empty()
    } else if segments.len() == 1 {
        segments[0]
    } else {
        joined(segments.drop_last()) + seq![' '] + segments.last()
    }
}

/// The text of each segment.
pub open spec fn texts(segments: Seq<String>) -> Seq<Seq<char>> {
    segments.map_values(|s: String| s@)
}

/// What `str::trim` makes of a text: the text without its leading and
/// trailing whitespace.
pub uninterp spec fn trimmed(s: Seq<char>) -> Seq<char>;

/// Relies on `str::trim`, which removes leading and trailing Unicode
/// whitespace; the result depends on the text alone.
#[verifier::external_body]
fn trim(s: &str) -> (r: String)
    ensures
        r@ == trimmed(s@),
{
    s.trim().to_owned()
}

impl SupportedLanguages {
    /// The direction whose actor translates text written in this language.
    pub fn direction(&self) -> (r: TranslationDirection)
        ensures
            r == direction_of(*self),
    {
        match self {
            SupportedLanguages::Italian => TranslationDirection::ItalianToEnglish,
            SupportedLanguages::English => TranslationDirection::EnglishToItalian,
        }
    }
}

impl TranslationRequest {
    /// The direction whose actor serves this request.
    pub fn direction(&self) -> (r: TranslationDirection)
        ensures
            r == direction_of(self.from_language),
    {
        self.from_language.direction()
    }
}

impl ErrorResponse {
    /// The HTTP status of this error: always an internal server error.
    pub fn status_code(&self) -> (r: u16)
        ensures
            r == 500,
    {
        match self {
            ErrorResponse::TranslatorError(_) => 500,
        }
    }
}

/// The segments joined by single spaces.
pub fn join_segments(segments: &Vec<String>) -> (r: String)
    ensures
        r@ == joined(texts(segments@)),
{
    let mut out = String::new();
    let mut i: usize = 0;
    proof {
        reveal_strlit(" ");
        assert(texts(segments@.take(0)) =~= Seq::<Seq<char>>::empty());
    }
    while i < segments.len()
        invariant
            i <= segments.len(),
            out@ == joined(texts(segments@.take(i as int))),
        decreases segments.len() - i,
    {
        let ghost before = out@;
        if i > 0 {
            out.append(" ");
        }
        out.append(segments[i].as_str());
        proof {
            let prefix = texts(segments@.take(i as int));
            let next = texts(segments@.take(i + 1));
            assert(next.drop_last() =~= prefix);
            assert(next.last() == segments@[i as int]@);
            reveal_strlit(" ");
            if i == 0 {
                assert(out@ =~= next[0]);
            } else {
                assert(joined(next) == joined(prefix) + seq![' '] + next.last());
                assert(out@ =~= joined(next));
            }
        }
        i = i + 1;
    }
    proof {
        assert(segments@.take(segments@.len() as int) =~= segments@);
    }
    out
}

/// The translated text that a reply's segments make: joined by single
/// spaces, then trimmed.
pub fn translation_text(segments: &Vec<String>) -> (r: String)
    ensures
        r@ == trimmed(joined(texts(segments@))),
{
    let all = join_segments(segments);
    trim(all.as_str())
}

/// The answer to a request whose actor gave `result`: the translated text,
/// or the actor's error.
pub fn respond(result: TranslationModelResult) -> (r: Result<TranslationResponse, ErrorResponse>)
    ensures
        result is Ok ==> r is Ok && r->Ok_0.translation@ == trimmed(joined(texts(result->Ok_0@))),
        result is Err ==> r == Err::<TranslationResponse, ErrorResponse>(
            ErrorResponse::TranslatorError(result->Err_0),
        ),
{
    match result {
        Ok(segments) => Ok(TranslationResponse { translation: translation_text(&segments) }),
        Err(e) => Err(ErrorResponse::TranslatorError(e)),
    }
}

} // verus!
