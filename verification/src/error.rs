//! The failures that end the orchestration.

use crate::extract::{hop_path, ExtractError, Hop};
use crate::repo::{invalid_format_message, ParseError};
use crate::text::{decimal, decimal_of};
use vstd::prelude::*;
use vstd::string::StringExecFns;

verus! {

/// A failure that ends the orchestration. The errors that the server reports
/// inside an envelope are none of these: they are shown, and the work goes on.
#[derive(Debug, Clone, PartialEq, Eq)]
pub enum WorkflowError {
    /// The repository was not given as `owner/name`.
    InvalidRepositoryFormat,
    /// The request did not reach the server, or no answer came back.
    TransportFailure(String),
    /// The answer does not have the shape of an envelope.
    MalformedPayload,
    /// A field that must be there was absent.
    RequiredFieldMissing(Hop),
    /// The list of pull requests held this many nodes, and not one.
    UnexpectedResultCardinality(usize),
}

/// A `WorkflowError` as plain values.
pub ghost enum ErrorView {
    InvalidRepositoryFormat,
    TransportFailure(Seq<char>),
    MalformedPayload,
    RequiredFieldMissing(Hop),
    UnexpectedResultCardinality(nat),
}

impl View for WorkflowError {
    type V = ErrorView;

    open spec fn view(&self) -> ErrorView {
        match *self {
            WorkflowError::InvalidRepositoryFormat => ErrorView::InvalidRepositoryFormat,
            WorkflowError::TransportFailure(cause) => ErrorView::TransportFailure(cause@),
            WorkflowError::MalformedPayload => ErrorView::MalformedPayload,
            WorkflowError::RequiredFieldMissing(hop) => ErrorView::RequiredFieldMissing(hop),
            WorkflowError::UnexpectedResultCardinality(found) =>
                ErrorView::UnexpectedResultCardinality(found as nat),
        }
    }
}

/// The failure that a failed extraction ends the orchestration with.
pub open spec fn extraction_failure(error: ExtractError) -> ErrorView {
    match error {
        ExtractError::RequiredFieldMissing(hop) => ErrorView::RequiredFieldMissing(hop),
        ExtractError::UnexpectedResultCardinality(found) => ErrorView::UnexpectedResultCardinality(
            found as nat,
        ),
    }
}

/// The message that describes a failure to the user.
pub open spec fn failure_message(error: ErrorView) -> Seq<char> {
    match error {
        ErrorView::InvalidRepositoryFormat => invalid_format_message(),
        ErrorView::TransportFailure(cause) => "transport failure: "@ + cause,
        ErrorView::MalformedPayload => "the answer does not have the shape of a GraphQL envelope"@,
        ErrorView::RequiredFieldMissing(hop) => "required field missing: "@ + hop_path(hop),
        ErrorView::UnexpectedResultCardinality(found) =>
            "expected exactly one pull request, found "@ + decimal_of(found),
    }
}

impl WorkflowError {
    /// The failure that stands for a rejected repository identifier.
    pub fn from_parse(error: ParseError) -> (failure: WorkflowError)
        ensures
            failure@ == ErrorView::InvalidRepositoryFormat,
    {
        match error {
            ParseError::InvalidRepositoryFormat => WorkflowError::InvalidRepositoryFormat,
        }
    }

    /// The failure that stands for a failed extraction.
    pub fn from_extract(error: ExtractError) -> (failure: WorkflowError)
        ensures
            failure@ == extraction_failure(error),
    {
        match error {
            ExtractError::RequiredFieldMissing(hop) => WorkflowError::RequiredFieldMissing(hop),
            ExtractError::UnexpectedResultCardinality(found) =>
                WorkflowError::UnexpectedResultCardinality(found),
        }
    }

    /// The message that describes this failure to the user.
    pub fn message(&self) -> (text: String)
        ensures
            text@ == failure_message(self@),
    {
        match self {
            WorkflowError::InvalidRepositoryFormat => String::from_str(
                ParseError::InvalidRepositoryFormat.message(),
            ),
            WorkflowError::TransportFailure(cause) => {
                let mut text = String::from_str("transport failure: ");
                text.append(cause.as_str());
                text
            },
            WorkflowError::MalformedPayload => String::from_str(
                "the answer does not have the shape of a GraphQL envelope",
            ),
            WorkflowError::RequiredFieldMissing(hop) => {
                let mut text = String::from_str("required field missing: ");
                text.append(hop.path());
                text
            },
            WorkflowError::UnexpectedResultCardinality(found) => {
                let mut text = String::from_str("expected exactly one pull request, found ");
                text.append(decimal(*found as u64).as_str());
                text
            },
        }
    }
}

} // verus!
