//! Registry references and the rule on the floating tag `latest`.

use crate::error::{viewed, Operation, RegError, RegErrorView};
use crate::text::same_text;
use oci_distribution::Reference;
use vstd::prelude::*;
use vstd::string::*;

verus! {

/// What a parsed reference names: a registry host, a repository path and,
/// where one was given, a tag.
#[derive(Clone, Debug, PartialEq, Eq)]
pub struct ArtifactReference {
    pub registry: String,
    pub repository: String,
    pub tag: Option<String>,
}

/// An `ArtifactReference` with its parts as sequences of characters.
pub struct ReferenceView {
    pub registry: Seq<char>,
    pub repository: Seq<char>,
    pub tag: Option<Seq<char>>,
}

impl View for ArtifactReference {
    type V = ReferenceView;

    open spec fn view(&self) -> ReferenceView {
        ReferenceView {
            registry: self.registry@,
            repository: self.repository@,
            tag: self.tag.deep_view(),
        }
    }
}

impl DeepView for ArtifactReference {
    type V = ReferenceView;

    open spec fn deep_view(&self) -> ReferenceView {
        self@
    }
}

/// The parts that `oci_distribution` reads out of a reference string, or
/// `None` where it rejects the string.
pub uninterp spec fn parsed_reference(url: Seq<char>) -> Option<ReferenceView>;

/// Calls `Reference::try_from` of `oci_distribution` on `url` and copies
/// out the registry, the repository and the tag of the reference it returns.
/// Trusted: the outcome depends on the characters of `url` alone. Nothing is
/// claimed about which strings parse, nor into what.
#[verifier::external_body]
fn parse_with_oci(url: &str) -> (parsed: Option<ArtifactReference>)
    ensures
        parsed.deep_view() == parsed_reference(url@),
{
    match Reference::try_from(url) {
        Ok(image) => Some(
            ArtifactReference {
                registry: image.registry().to_string(),
                repository: image.repository().to_string(),
                tag: image.tag().map(String::from),
            },
        ),
        Err(_) => None,
    }
}

/// The tag `latest`.
pub open spec fn latest() -> Seq<char> {
    seq!['l', 'a', 't', 'e', 's', 't']
}

impl ReferenceView {
    /// The tag that the reference resolves to: its own, or `latest` where it
    /// has none.
    pub open spec fn resolved_tag(self) -> Seq<char> {
        match self.tag {
            Some(tag) => tag,
            None => latest(),
        }
    }

    /// Whether the reference points at the floating tag.
    pub open spec fn is_floating(self) -> bool {
        self.resolved_tag() == latest()
    }

    /// What the policy on floating tags says to an operation on this
    /// reference.
    pub open spec fn policy(self, allow_latest: bool, operation: Operation) -> Result<
        (),
        RegError,
    > {
        if self.is_floating() && !allow_latest {
            Err(RegError::PolicyViolation(operation))
        } else {
            Ok(())
        }
    }
}

/// What parsing `url` comes to: the reference, or `MalformedReference`.
pub open spec fn parse_outcome(url: Seq<char>) -> Result<ReferenceView, RegErrorView> {
    match parsed_reference(url) {
        Some(reference) => Ok(reference),
        None => Err(RegErrorView::MalformedReference),
    }
}

impl ArtifactReference {
    /// Parses a reference such as `registry.example.com/ns/foo:v1`. A string
    /// that the registry client rejects is a `MalformedReference`.
    pub fn parse(url: &str) -> (outcome: Result<ArtifactReference, RegError>)
        ensures
            viewed(outcome) == parse_outcome(url@),
    {
        match parse_with_oci(url) {
            Some(reference) => Ok(reference),
            None => Err(RegError::MalformedReference),
        }
    }

    /// Whether the reference resolves to the tag `latest`, by naming it or by
    /// naming none.
    pub fn is_floating(&self) -> (floating: bool)
        ensures
            floating == self@.is_floating(),
    {
        proof {
            reveal_strlit("latest");
            assert("latest"@ =~= latest());
        }
        match &self.tag {
            Some(tag) => same_text(tag.as_str(), "latest"),
            None => true,
        }
    }

    /// The rule on floating tags: an operation on a reference that resolves
    /// to `latest` is refused unless `allow_latest` is set; every other tag
    /// passes. Pull and push are held to the same rule.
    pub fn check_mutability_policy(&self, allow_latest: bool, operation: Operation) -> (verdict:
        Result<(), RegError>)
        ensures
            verdict == self@.policy(allow_latest, operation),
    {
        if self.is_floating() && !allow_latest {
            Err(RegError::PolicyViolation(operation))
        } else {
            Ok(())
        }
    }
}

/// The rule on floating tags, case by case: a reference that resolves to
/// `latest` is refused unless the caller allows it, and every other tag
/// passes whether the caller allows `latest` or not.
pub proof fn lemma_policy_guards_latest(
    reference: ReferenceView,
    allow_latest: bool,
    operation: Operation,
)
    ensures
        reference.resolved_tag() == latest() && !allow_latest ==> reference.policy(
            allow_latest,
            operation,
        ) == Err::<(), RegError>(RegError::PolicyViolation(operation)),
        reference.resolved_tag() == latest() && allow_latest ==> reference.policy(
            allow_latest,
            operation,
        ) == Ok::<(), RegError>(()),
        reference.resolved_tag() != latest() ==> reference.policy(allow_latest, operation) == Ok::<
            (),
            RegError,
        >(()),
        reference.tag is None ==> reference.resolved_tag() == latest(),
{
}

} // verus!
