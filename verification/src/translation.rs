//! The translator: what is sent to it and how its answer is read.

use vstd::prelude::*;
use vstd::string::*;
use crate::endpoint::{is_success, usable_body, Failure, FailureView, Outcome, OutcomeView};
use crate::language::{resolve_target, target_differs_from_source, target_for};
use crate::wire::{json_member_string, json_object_text, read_member_string, write_object};

verus! {

/// The source language named in every request: the endpoint finds it out.
pub const SOURCE_AUTO: &'static str = "auto";

/// The format named in every request: plain text.
pub const FORMAT_TEXT: &'static str = "text";

/// The number of alternative translations asked for in every request.
pub const ALTERNATIVES: u64 = 3;

/// The member of a translation answer that carries the translated text.
pub const TRANSLATED_MEMBER: &'static str = "translatedText";

/// A request to the translation endpoint, sent as a JSON object with one
/// member for each field, under the field's name.
#[derive(Debug, Clone, PartialEq, Eq)]
pub struct TranslationRequest {
    /// The text to translate.
    pub q: String,
    pub source: String,
    pub target: String,
    pub format: String,
    pub alternatives: u64,
    pub api_key: String,
}

/// The answer of the translation endpoint.
#[derive(Debug, Clone, PartialEq, Eq)]
pub struct TranslateResult {
    pub translated_text: String,
}

/// Why no translation was made.
#[derive(Debug, Clone, PartialEq, Eq)]
pub enum TranslationError {
    /// The call to the endpoint gave nothing to work with.
    Failed(Failure),
    /// The request could not be written as JSON.
    Unencodable(String),
}

/// The mathematical value of a [`TranslationError`].
pub enum TranslationErrorView {
    Failed(FailureView),
    Unencodable(Seq<char>),
}

impl View for TranslationError {
    type V = TranslationErrorView;

    open spec fn view(&self) -> TranslationErrorView {
        match self {
            TranslationError::Failed(failure) => TranslationErrorView::Failed(failure@),
            TranslationError::Unencodable(reason) => TranslationErrorView::Unencodable(reason@),
        }
    }
}

impl TranslationErrorView {
    /// The error in words.
    pub open spec fn description(self) -> Seq<char> {
        match self {
            TranslationErrorView::Failed(failure) => "translation: "@ + failure.description(),
            TranslationErrorView::Unencodable(reason) => "translation: request not written: "@
                + reason,
        }
    }
}

/// Whether `request` is the request that asks for the translation of `text`,
/// detected to be in the language `detected`.
pub open spec fn asks_for(
    request: TranslationRequest,
    text: Seq<char>,
    detected: Seq<char>,
    api_key: Seq<char>,
) -> bool {
    &&& request.q@ == text
    &&& request.source@ == SOURCE_AUTO@
    &&& request.target@ == target_for(detected)
    &&& request.format@ == FORMAT_TEXT@
    &&& request.alternatives == ALTERNATIVES
    &&& request.api_key@ == api_key
}

/// The string members of the JSON object that carries a request with these
/// fields.
pub open spec fn text_members(
    q: Seq<char>,
    source: Seq<char>,
    target: Seq<char>,
    format: Seq<char>,
    api_key: Seq<char>,
) -> Seq<(Seq<char>, Seq<char>)> {
    seq![
        ("q"@, q),
        ("source"@, source),
        ("target"@, target),
        ("format"@, format),
        ("api_key"@, api_key),
    ]
}

/// The number members of the JSON object that carries a request.
pub open spec fn number_members(alternatives: u64) -> Seq<(Seq<char>, u64)> {
    seq![("alternatives"@, alternatives)]
}

/// The body that carries `request`, or why it could not be written.
pub open spec fn request_body(request: TranslationRequest) -> Result<
    Seq<char>,
    TranslationErrorView,
> {
    match json_object_text(
        text_members(
            request.q@,
            request.source@,
            request.target@,
            request.format@,
            request.api_key@,
        ),
        number_members(request.alternatives),
    ) {
        Ok(body) => Ok(body),
        Err(reason) => Err(TranslationErrorView::Unencodable(reason)),
    }
}

/// The body of the request that asks for the translation of `text`, detected
/// to be in the language `detected`, or why it could not be written.
pub open spec fn translation_body(text: Seq<char>, detected: Seq<char>, api_key: Seq<char>) -> Result<
    Seq<char>,
    TranslationErrorView,
> {
    match json_object_text(
        text_members(text, SOURCE_AUTO@, target_for(detected), FORMAT_TEXT@, api_key),
        number_members(ALTERNATIVES),
    ) {
        Ok(body) => Ok(body),
        Err(reason) => Err(TranslationErrorView::Unencodable(reason)),
    }
}

/// The translated text in `body`, the body of a translation answer: the body
/// is a JSON object with a string under `translatedText`.
pub open spec fn translation_result(body: Seq<char>) -> Result<Seq<char>, FailureView> {
    match json_member_string(body, TRANSLATED_MEMBER@) {
        Err(reason) => Err(FailureView::Malformed(reason)),
        Ok(None) => Err(FailureView::Shape),
        Ok(Some(text)) => Ok(text),
    }
}

/// The translated text, given what came of the call to the translation
/// endpoint.
pub open spec fn translated_text(outcome: OutcomeView) -> Result<Seq<char>, TranslationErrorView> {
    match usable_body(outcome) {
        Err(failure) => Err(TranslationErrorView::Failed(failure)),
        Ok(body) => match translation_result(body) {
            Err(failure) => Err(TranslationErrorView::Failed(failure)),
            Ok(text) => Ok(text),
        },
    }
}

impl TranslationRequest {
    /// The request that asks for the translation of `text`, detected to be
    /// in the language `detected`, into the language that
    /// [`target_for`] assigns to it.
    pub fn new(text: &str, detected: &str, api_key: &str) -> (request: TranslationRequest)
        ensures
            asks_for(request, text@, detected@, api_key@),
    {
        TranslationRequest {
            q: String::from_str(text),
            source: String::from_str(SOURCE_AUTO),
            target: String::from_str(resolve_target(detected)),
            format: String::from_str(FORMAT_TEXT),
            alternatives: ALTERNATIVES,
            api_key: String::from_str(api_key),
        }
    }

    /// Writes the request as the JSON body to send.
    pub fn body(&self) -> (r: Result<String, TranslationError>)
        ensures
            match r {
                Ok(body) => request_body(*self) == Ok::<Seq<char>, TranslationErrorView>(body@),
                Err(error) => request_body(*self) == Err::<Seq<char>, TranslationErrorView>(
                    error@,
                ),
            },
    {
        let mut texts: Vec<(String, String)> = Vec::new();
        texts.push((String::from_str("q"), self.q.clone()));
        texts.push((String::from_str("source"), self.source.clone()));
        texts.push((String::from_str("target"), self.target.clone()));
        texts.push((String::from_str("format"), self.format.clone()));
        texts.push((String::from_str("api_key"), self.api_key.clone()));
        let mut numbers: Vec<(String, u64)> = Vec::new();
        numbers.push((String::from_str("alternatives"), self.alternatives));
        assert(texts.deep_view() =~= text_members(
            self.q@,
            self.source@,
            self.target@,
            self.format@,
            self.api_key@,
        ));
        assert(numbers.deep_view() =~= number_members(self.alternatives));
        match write_object(&texts, &numbers) {
            Ok(body) => Ok(body),
            Err(reason) => Err(TranslationError::Unencodable(reason)),
        }
    }
}

impl TranslationError {
    /// The error in words.
    pub fn description(&self) -> (text: String)
        ensures
            text@ == self@.description(),
    {
        match self {
            TranslationError::Failed(failure) => {
                let mut text = String::from_str("translation: ");
                let cause = failure.description();
                text.append(cause.as_str());
                text
            },
            TranslationError::Unencodable(reason) => {
                let mut text = String::from_str("translation: request not written: ");
                text.append(reason.as_str());
                text
            },
        }
    }
}

/// Reads the body of a translation answer.
pub fn parse_translation(body: &str) -> (r: Result<TranslateResult, Failure>)
    ensures
        match r {
            Ok(result) => translation_result(body@) == Ok::<Seq<char>, FailureView>(
                result.translated_text@,
            ),
            Err(failure) => translation_result(body@) == Err::<Seq<char>, FailureView>(failure@),
        },
{
    match read_member_string(body, TRANSLATED_MEMBER) {
        Err(reason) => Err(Failure::Malformed(reason)),
        Ok(None) => Err(Failure::Shape),
        Ok(Some(text)) => Ok(TranslateResult { translated_text: text }),
    }
}

/// Reads what came of the call to the translation endpoint.
pub fn read_translation(outcome: &Outcome) -> (r: Result<String, TranslationError>)
    ensures
        match r {
            Ok(text) => translated_text(outcome@) == Ok::<Seq<char>, TranslationErrorView>(text@),
            Err(error) => translated_text(outcome@) == Err::<Seq<char>, TranslationErrorView>(
                error@,
            ),
        },
{
    match outcome.body() {
        Err(failure) => Err(TranslationError::Failed(failure)),
        Ok(body) => match parse_translation(body.as_str()) {
            Err(failure) => Err(TranslationError::Failed(failure)),
            Ok(result) => Ok(result.translated_text),
        },
    }
}

/// An answer with a status outside 200..=299 is a failed translation,
/// whatever its body holds.
pub proof fn bad_status_fails_translation(status: u16, body: Seq<char>)
    requires
        !is_success(status),
    ensures
        translated_text(OutcomeView::Answered { status, body }) == Err::<
            Seq<char>,
            TranslationErrorView,
        >(TranslationErrorView::Failed(FailureView::Status(status))),
{
}

/// Every request names a target language other than the language that was
/// detected.
pub proof fn request_targets_another_language(
    request: TranslationRequest,
    text: Seq<char>,
    detected: Seq<char>,
    api_key: Seq<char>,
)
    requires
        asks_for(request, text, detected, api_key),
    ensures
        request.target@ != detected,
{
    target_differs_from_source(detected);
}

} // verus!
