//! The language detector: what is sent to it and how its answer is read.

use vstd::prelude::*;
use vstd::string::*;
use crate::endpoint::{is_success, usable_body, Failure, FailureView, Outcome, OutcomeView};
use crate::wire::{json_element_strings, read_element_strings};

verus! {

/// The form field that carries the text.
pub const TEXT_FIELD: &'static str = "q";

/// The form field that carries the API key.
pub const KEY_FIELD: &'static str = "api_key";

/// The member of a detection candidate that carries its language code.
pub const LANGUAGE_MEMBER: &'static str = "language";

/// A request to the detection endpoint, sent as a form.
#[derive(Debug, Clone, PartialEq, Eq)]
pub struct DetectRequest {
    /// The text whose language is asked for.
    pub q: String,
    pub api_key: String,
}

/// One candidate of a detection answer.
#[derive(Debug, Clone, PartialEq, Eq)]
pub struct DetectResponse {
    /// The code of the language.
    pub language: String,
}

/// Why no language was detected.
#[derive(Debug, Clone, PartialEq, Eq)]
pub enum DetectionError {
    /// The call to the endpoint gave nothing to work with.
    Failed(Failure),
    /// The endpoint answered with no candidate at all.
    Empty,
}

/// The mathematical value of a [`DetectionError`].
pub enum DetectionErrorView {
    Failed(FailureView),
    Empty,
}

impl View for DetectionError {
    type V = DetectionErrorView;

    open spec fn view(&self) -> DetectionErrorView {
        match self {
            DetectionError::Failed(failure) => DetectionErrorView::Failed(failure@),
            DetectionError::Empty => DetectionErrorView::Empty,
        }
    }
}

impl DetectionErrorView {
    /// The error in words.
    pub open spec fn description(self) -> Seq<char> {
        match self {
            DetectionErrorView::Failed(failure) => "language detection: "@ + failure.description(),
            DetectionErrorView::Empty => "language detection: no language found"@,
        }
    }
}

/// The fields of the form that asks for the language of `text`, in the order
/// in which they are sent.
pub open spec fn detect_form(text: Seq<char>, api_key: Seq<char>) -> Seq<(Seq<char>, Seq<char>)> {
    seq![(TEXT_FIELD@, text), (KEY_FIELD@, api_key)]
}

/// The language codes of a list of candidates, in order.
pub open spec fn languages_of(candidates: Seq<DetectResponse>) -> Seq<Seq<char>> {
    Seq::new(candidates.len(), |i: int| candidates[i].language@)
}

/// Whether every element of a detection answer held a language code.
pub open spec fn all_found(found: Seq<Option<Seq<char>>>) -> bool {
    forall|i: int| 0 <= i < found.len() ==> (#[trigger] found[i]) is Some
}

/// The codes that the elements of a detection answer held, in order.
pub open spec fn found_languages(found: Seq<Option<Seq<char>>>) -> Seq<Seq<char>> {
    Seq::new(found.len(), |i: int| found[i]->0)
}

/// The language codes of the candidates in `body`, the body of a detection
/// answer: the body is a JSON array, and each element is a JSON object with a
/// string under `language`.
pub open spec fn detection_result(body: Seq<char>) -> Result<Seq<Seq<char>>, FailureView> {
    match json_element_strings(body, LANGUAGE_MEMBER@) {
        Err(reason) => Err(FailureView::Malformed(reason)),
        Ok(found) => if all_found(found) {
            Ok(found_languages(found))
        } else {
            Err(FailureView::Shape)
        },
    }
}

/// The language that a list of candidates stands for: that of the first.
pub open spec fn first_language(languages: Seq<Seq<char>>) -> Result<
    Seq<char>,
    DetectionErrorView,
> {
    if languages.len() == 0 {
        Err(DetectionErrorView::Empty)
    } else {
        Ok(languages[0])
    }
}

/// The language detected, given what came of the call to the detection
/// endpoint.
pub open spec fn detected_language(outcome: OutcomeView) -> Result<Seq<char>, DetectionErrorView> {
    match usable_body(outcome) {
        Err(failure) => Err(DetectionErrorView::Failed(failure)),
        Ok(body) => match detection_result(body) {
            Err(failure) => Err(DetectionErrorView::Failed(failure)),
            Ok(languages) => first_language(languages),
        },
    }
}

impl DetectRequest {
    /// The request that asks for the language of `text`.
    pub fn new(text: &str, api_key: &str) -> (request: DetectRequest)
        ensures
            request.q@ == text@,
            request.api_key@ == api_key@,
    {
        DetectRequest { q: String::from_str(text), api_key: String::from_str(api_key) }
    }

    /// The fields of the form to send, in order.
    pub fn form_fields(&self) -> (fields: Vec<(String, String)>)
        ensures
            fields.deep_view() == detect_form(self.q@, self.api_key@),
    {
        let mut fields: Vec<(String, String)> = Vec::new();
        fields.push((String::from_str(TEXT_FIELD), self.q.clone()));
        fields.push((String::from_str(KEY_FIELD), self.api_key.clone()));
        assert(fields.deep_view() =~= detect_form(self.q@, self.api_key@));
        fields
    }
}

impl DetectionError {
    /// The error in words.
    pub fn description(&self) -> (text: String)
        ensures
            text@ == self@.description(),
    {
        match self {
            DetectionError::Failed(failure) => {
                let mut text = String::from_str("language detection: ");
                let cause = failure.description();
                text.append(cause.as_str());
                text
            },
            DetectionError::Empty => String::from_str("language detection: no language found"),
        }
    }
}

/// Turns what each element of a detection answer held into candidates, if
/// every element held a language code.
pub fn candidates(found: &Vec<Option<String>>) -> (r: Option<Vec<DetectResponse>>)
    ensures
        r is Some <==> all_found(found.deep_view()),
        r matches Some(list) ==> languages_of(list@) == found_languages(found.deep_view()),
{
    let mut list: Vec<DetectResponse> = Vec::new();
    let mut i: usize = 0;
    while i < found.len()
        invariant
            i <= found.len(),
            list.len() == i,
            forall|j: int| 0 <= j < i ==> (#[trigger] found.deep_view()[j]) is Some,
            forall|j: int| 0 <= j < i ==> (#[trigger] list@[j]).language@ == found.deep_view()[j]->0,
        decreases found.len() - i,
    {
        match &found[i] {
            Some(language) => {
                list.push(DetectResponse { language: language.clone() });
            },
            None => {
                assert(found.deep_view()[i as int] is None);
                return None;
            },
        }
        i = i + 1;
    }
    assert(languages_of(list@) =~= found_languages(found.deep_view()));
    Some(list)
}

/// Reads the body of a detection answer.
pub fn parse_detection(body: &str) -> (r: Result<Vec<DetectResponse>, Failure>)
    ensures
        match r {
            Ok(list) => detection_result(body@) == Ok::<Seq<Seq<char>>, FailureView>(
                languages_of(list@),
            ),
            Err(failure) => detection_result(body@) == Err::<Seq<Seq<char>>, FailureView>(
                failure@,
            ),
        },
{
    match read_element_strings(body, LANGUAGE_MEMBER) {
        Err(reason) => Err(Failure::Malformed(reason)),
        Ok(found) => match candidates(&found) {
            Some(list) => Ok(list),
            None => Err(Failure::Shape),
        },
    }
}

/// Picks the language that a list of candidates stands for: that of the
/// first candidate. An empty list is an error.
pub fn pick_language(list: &Vec<DetectResponse>) -> (r: Result<String, DetectionError>)
    ensures
        match r {
            Ok(language) => first_language(languages_of(list@)) == Ok::<
                Seq<char>,
                DetectionErrorView,
            >(language@),
            Err(error) => first_language(languages_of(list@)) == Err::<
                Seq<char>,
                DetectionErrorView,
            >(error@),
        },
{
    if list.len() == 0 {
        Err(DetectionError::Empty)
    } else {
        Ok(list[0].language.clone())
    }
}

/// Reads what came of the call to the detection endpoint.
pub fn read_detection(outcome: &Outcome) -> (r: Result<String, DetectionError>)
    ensures
        match r {
            Ok(language) => detected_language(outcome@) == Ok::<Seq<char>, DetectionErrorView>(
                language@,
            ),
            Err(error) => detected_language(outcome@) == Err::<Seq<char>, DetectionErrorView>(
                error@,
            ),
        },
{
    match outcome.body() {
        Err(failure) => Err(DetectionError::Failed(failure)),
        Ok(body) => match parse_detection(body.as_str()) {
            Err(failure) => Err(DetectionError::Failed(failure)),
            Ok(list) => pick_language(&list),
        },
    }
}

/// An answer with a status outside 200..=299 is a failed detection, whatever
/// its body holds.
pub proof fn bad_status_fails_detection(status: u16, body: Seq<char>)
    requires
        !is_success(status),
    ensures
        detected_language(OutcomeView::Answered { status, body }) == Err::<
            Seq<char>,
            DetectionErrorView,
        >(DetectionErrorView::Failed(FailureView::Status(status))),
{
}

/// An answer without a candidate is a failed detection: an empty list of
/// candidates stands for no language.
pub proof fn no_candidate_is_an_error()
    ensures
        first_language(Seq::empty()) == Err::<Seq<char>, DetectionErrorView>(
            DetectionErrorView::Empty,
        ),
{
}

/// A detection that succeeds gives the language of the first candidate of a
/// body that came with a success status.
pub proof fn detected_language_is_first_candidate(outcome: OutcomeView, language: Seq<char>)
    ensures
        detected_language(outcome) == Ok::<Seq<char>, DetectionErrorView>(language) ==> {
            &&& outcome matches OutcomeView::Answered { status, body }
            &&& is_success(status)
            &&& detection_result(body) matches Ok(languages)
            &&& languages.len() > 0
            &&& languages[0] == language
        },
{
}

} // verus!
