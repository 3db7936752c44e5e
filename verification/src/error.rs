//! The ways in which a pull or a push ends without success.

use vstd::prelude::*;
use vstd::string::*;

verus! {

/// The two operations against a registry.
#[derive(Clone, Copy, Debug, PartialEq, Eq, Structural)]
pub enum Operation {
    Pull,
    Push,
}

/// Why an operation was given up. Every one of them ends the operation.
#[derive(Clone, Debug, PartialEq, Eq)]
pub enum RegError {
    /// The reference does not name a registry artifact, or, on a push, names
    /// no tag to push to.
    MalformedReference,
    /// The reference resolves to the tag `latest` and the caller has not
    /// allowed that.
    PolicyViolation(Operation),
    /// The registry could not be reached or refused the operation; the text is
    /// the transport's own.
    TransportFailure(String),
    /// The registry reports another digest than the caller expects.
    IntegrityMismatch,
    /// The bytes are neither an actor module nor a provider archive; the text
    /// is the label that the caller gave the artifact.
    UnsupportedArtifact(String),
    /// A file could not be read or written; the text is the system's own.
    IOFailure(String),
}

/// A `RegError` with its texts as sequences of characters.
pub enum RegErrorView {
    MalformedReference,
    PolicyViolation(Operation),
    TransportFailure(Seq<char>),
    IntegrityMismatch,
    UnsupportedArtifact(Seq<char>),
    IOFailure(Seq<char>),
}

impl View for RegError {
    type V = RegErrorView;

    open spec fn view(&self) -> RegErrorView {
        match self {
            RegError::MalformedReference => RegErrorView::MalformedReference,
            RegError::PolicyViolation(operation) => RegErrorView::PolicyViolation(*operation),
            RegError::TransportFailure(text) => RegErrorView::TransportFailure(text@),
            RegError::IntegrityMismatch => RegErrorView::IntegrityMismatch,
            RegError::UnsupportedArtifact(label) => RegErrorView::UnsupportedArtifact(label@),
            RegError::IOFailure(text) => RegErrorView::IOFailure(text@),
        }
    }
}

/// `Ok` with the view of what it holds, or the view of the error.
pub open spec fn viewed<T: View>(outcome: Result<T, RegError>) -> Result<T::V, RegErrorView> {
    match outcome {
        Ok(value) => Ok(value@),
        Err(error) => Err(error@),
    }
}

impl RegErrorView {
    /// The one line shown to the user for this error.
    pub open spec fn message(self) -> Seq<char> {
        match self {
            RegErrorView::MalformedReference => "Malformed artifact reference"@,
            RegErrorView::PolicyViolation(Operation::Pull) =>
                "Pulling artifacts with tag 'latest' is prohibited. This can be overriden with a flag"@,
            RegErrorView::PolicyViolation(Operation::Push) =>
                "Pushing artifacts with tag 'latest' is prohibited. This can be overriden with a flag"@,
            RegErrorView::TransportFailure(text) => text,
            RegErrorView::IntegrityMismatch =>
                "Image digest did not match provided digest, aborting"@,
            RegErrorView::UnsupportedArtifact(_) => "Unsupported artifact type"@,
            RegErrorView::IOFailure(text) => text,
        }
    }
}

impl RegError {
    /// The one line shown to the user for this error.
    pub fn message(&self) -> (text: String)
        ensures
            text@ == self@.message(),
    {
        match self {
            RegError::MalformedReference => String::from_str("Malformed artifact reference"),
            RegError::PolicyViolation(Operation::Pull) => String::from_str(
                "Pulling artifacts with tag 'latest' is prohibited. This can be overriden with a flag",
            ),
            RegError::PolicyViolation(Operation::Push) => String::from_str(
                "Pushing artifacts with tag 'latest' is prohibited. This can be overriden with a flag",
            ),
            RegError::TransportFailure(text) => text.clone(),
            RegError::IntegrityMismatch => String::from_str(
                "Image digest did not match provided digest, aborting",
            ),
            RegError::UnsupportedArtifact(_) => String::from_str("Unsupported artifact type"),
            RegError::IOFailure(text) => text.clone(),
        }
    }
}

} // verus!
