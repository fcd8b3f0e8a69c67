//! Why a decode failed.

use vstd::prelude::*;

verus! {

/// The two ways in which decoding a typed request fails. Both end the
/// invocation: nothing is retried and no partial value is returned.
#[derive(Clone, Debug, PartialEq)]
pub enum DecodeError {
    /// The envelope has no body.
    MissingPayload,
    /// The body is there but the parser refused it. Holds the parser's
    /// diagnostic, unchanged.
    MalformedPayload(String),
}

/// What a `DecodeError` holds.
pub enum DecodeErrorView {
    MissingPayload,
    MalformedPayload(Seq<char>),
}

impl View for DecodeError {
    type V = DecodeErrorView;

    open spec fn view(&self) -> DecodeErrorView {
        match self {
            DecodeError::MissingPayload => DecodeErrorView::MissingPayload,
            DecodeError::MalformedPayload(cause) => DecodeErrorView::MalformedPayload(cause@),
        }
    }
}

impl DecodeErrorView {
    /// The text that reports the error: a fixed sentence for a missing
    /// payload, the word `Failed` and the diagnostic for a malformed one.
    pub open spec fn message(self) -> Seq<char> {
        match self {
            DecodeErrorView::MissingPayload => "No payload defined"@,
            DecodeErrorView::MalformedPayload(cause) => "Failed "@ + cause,
        }
    }
}

impl DecodeError {
    /// The text that reports this error to whoever surfaces the failure.
    pub fn message(&self) -> (text: String)
        ensures
            text@ == self@.message(),
    {
        match self {
            DecodeError::MissingPayload => "No payload defined".to_owned(),
            DecodeError::MalformedPayload(cause) => "Failed ".to_owned().concat(cause.as_str()),
        }
    }
}

} // verus!
