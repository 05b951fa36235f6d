//! What comes back from a call to an endpoint, and the ways in which it can
//! be of no use.

use vstd::prelude::*;
use vstd::string::*;
use crate::text::{decimal, decimal_string};

verus! {

/// What came of one call to an endpoint.
#[derive(Debug, Clone, PartialEq, Eq)]
pub enum Outcome {
    /// No answer arrived; `reason` says why.
    Unreachable { reason: String },
    /// An answer arrived, with this status code and this body.
    Answered { status: u16, body: String },
}

/// The mathematical value of an [`Outcome`].
pub enum OutcomeView {
    Unreachable { reason: Seq<char> },
    Answered { status: u16, body: Seq<char> },
}

impl View for Outcome {
    type V = OutcomeView;

    open spec fn view(&self) -> OutcomeView {
        match self {
            Outcome::Unreachable { reason } => OutcomeView::Unreachable { reason: reason@ },
            Outcome::Answered { status, body } => OutcomeView::Answered {
                status: *status,
                body: body@,
            },
        }
    }
}

/// Why a call to an endpoint gave nothing to work with.
#[derive(Debug, Clone, PartialEq, Eq)]
pub enum Failure {
    /// No answer arrived.
    Unreachable(String),
    /// The answer carried a status code outside 200..=299.
    Status(u16),
    /// The body of the answer could not be read as the JSON expected.
    Malformed(String),
    /// The body is JSON but lacks the string that was expected in it.
    Shape,
}

/// The mathematical value of a [`Failure`].
pub enum FailureView {
    Unreachable(Seq<char>),
    Status(u16),
    Malformed(Seq<char>),
    Shape,
}

impl View for Failure {
    type V = FailureView;

    open spec fn view(&self) -> FailureView {
        match self {
            Failure::Unreachable(reason) => FailureView::Unreachable(reason@),
            Failure::Status(status) => FailureView::Status(*status),
            Failure::Malformed(reason) => FailureView::Malformed(reason@),
            Failure::Shape => FailureView::Shape,
        }
    }
}

/// Whether a status code reports success.
pub open spec fn is_success(status: u16) -> bool {
    200 <= status <= 299
}

/// The body of an outcome that can be worked with, or why there is none: an
/// answer with a success status gives its body, any other answer its status,
/// and a call without an answer its reason.
pub open spec fn usable_body(outcome: OutcomeView) -> Result<Seq<char>, FailureView> {
    match outcome {
        OutcomeView::Unreachable { reason } => Err(FailureView::Unreachable(reason)),
        OutcomeView::Answered { status, body } => if is_success(status) {
            Ok(body)
        } else {
            Err(FailureView::Status(status))
        },
    }
}

impl FailureView {
    /// The failure in words.
    pub open spec fn description(self) -> Seq<char> {
        match self {
            FailureView::Unreachable(reason) => "endpoint unreachable: "@ + reason,
            FailureView::Status(status) => "unexpected status "@ + decimal(status as nat),
            FailureView::Malformed(reason) => "malformed response: "@ + reason,
            FailureView::Shape => "unexpected response shape"@,
        }
    }
}

impl Failure {
    /// The failure in words.
    pub fn description(&self) -> (text: String)
        ensures
            text@ == self@.description(),
    {
        match self {
            Failure::Unreachable(reason) => {
                let mut text = String::from_str("endpoint unreachable: ");
                text.append(reason.as_str());
                text
            },
            Failure::Status(status) => {
                let mut text = String::from_str("unexpected status ");
                let code = decimal_string(*status as u64);
                text.append(code.as_str());
                text
            },
            Failure::Malformed(reason) => {
                let mut text = String::from_str("malformed response: ");
                text.append(reason.as_str());
                text
            },
            Failure::Shape => String::from_str("unexpected response shape"),
        }
    }
}

impl Outcome {
    /// The body to work with, or why there is none.
    pub fn body(&self) -> (r: Result<&String, Failure>)
        ensures
            match r {
                Ok(body) => usable_body(self@) == Ok::<Seq<char>, FailureView>(body@),
                Err(failure) => usable_body(self@) == Err::<Seq<char>, FailureView>(failure@),
            },
    {
        match self {
            Outcome::Unreachable { reason } => Err(Failure::Unreachable(reason.clone())),
            Outcome::Answered { status, body } => {
                if 200 <= *status && *status <= 299 {
                    Ok(body)
                } else {
                    Err(Failure::Status(*status))
                }
            },
        }
    }
}

} // verus!
