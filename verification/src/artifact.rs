//! The kinds of artifact and how bytes are told apart.

use crate::error::{viewed, RegError, RegErrorView};
use vstd::prelude::*;
use vstd::string::*;

verus! {

pub const PROVIDER_ARCHIVE_MEDIA_TYPE: &'static str =
    "application/vnd.wascc.provider.archive.layer.v1+par";

pub const PROVIDER_ARCHIVE_CONFIG_MEDIA_TYPE: &'static str =
    "application/vnd.wascc.provider.archive.config";

pub const PROVIDER_ARCHIVE_FILE_EXTENSION: &'static str = ".par.gz";

pub const WASM_MEDIA_TYPE: &'static str = "application/vnd.module.wasm.content.layer.v1+wasm";

pub const WASM_CONFIG_MEDIA_TYPE: &'static str = "application/vnd.wascc.actor.archive.config";

pub const WASM_FILE_EXTENSION: &'static str = ".wasm";

/// The kinds of artifact that can be pushed and pulled.
#[derive(Clone, Copy, Debug, PartialEq, Eq, Structural)]
pub enum SupportedArtifacts {
    /// A provider archive.
    Par,
    /// An actor module: WebAssembly that carries claims.
    Wasm,
}

impl View for SupportedArtifacts {
    type V = SupportedArtifacts;

    open spec fn view(&self) -> SupportedArtifacts {
        *self
    }
}

impl SupportedArtifacts {
    /// The media type of a layer that holds an artifact of this kind.
    pub open spec fn media_type_spec(self) -> Seq<char> {
        match self {
            SupportedArtifacts::Par => PROVIDER_ARCHIVE_MEDIA_TYPE@,
            SupportedArtifacts::Wasm => WASM_MEDIA_TYPE@,
        }
    }

    /// The media type of the configuration that goes with this kind.
    pub open spec fn config_media_type_spec(self) -> Seq<char> {
        match self {
            SupportedArtifacts::Par => PROVIDER_ARCHIVE_CONFIG_MEDIA_TYPE@,
            SupportedArtifacts::Wasm => WASM_CONFIG_MEDIA_TYPE@,
        }
    }

    /// The ending of a file that holds an artifact of this kind.
    pub open spec fn file_extension_spec(self) -> Seq<char> {
        match self {
            SupportedArtifacts::Par => PROVIDER_ARCHIVE_FILE_EXTENSION@,
            SupportedArtifacts::Wasm => WASM_FILE_EXTENSION@,
        }
    }

    /// The media type of a layer that holds an artifact of this kind.
    pub fn media_type(self) -> (media_type: &'static str)
        ensures
            media_type@ == self.media_type_spec(),
    {
        match self {
            SupportedArtifacts::Par => PROVIDER_ARCHIVE_MEDIA_TYPE,
            SupportedArtifacts::Wasm => WASM_MEDIA_TYPE,
        }
    }

    /// The media type of the configuration that goes with this kind.
    pub fn config_media_type(self) -> (media_type: &'static str)
        ensures
            media_type@ == self.config_media_type_spec(),
    {
        match self {
            SupportedArtifacts::Par => PROVIDER_ARCHIVE_CONFIG_MEDIA_TYPE,
            SupportedArtifacts::Wasm => WASM_CONFIG_MEDIA_TYPE,
        }
    }

    /// The ending of a file that holds an artifact of this kind.
    pub fn file_extension(self) -> (extension: &'static str)
        ensures
            extension@ == self.file_extension_spec(),
    {
        match self {
            SupportedArtifacts::Par => PROVIDER_ARCHIVE_FILE_EXTENSION,
            SupportedArtifacts::Wasm => WASM_FILE_EXTENSION,
        }
    }
}

/// What the claims extractor makes of some bytes.
#[derive(Clone, Debug, PartialEq, Eq)]
pub enum ClaimsProbe {
    /// A WebAssembly module with a claims token in it.
    Token,
    /// A WebAssembly module without a token.
    NoToken,
    /// Not a module, or one whose token is damaged or belongs to other bytes;
    /// the text is the extractor's own account of it.
    Invalid(String),
}

/// A `ClaimsProbe` with its text as a sequence of characters.
pub enum ClaimsProbeView {
    Token,
    NoToken,
    Invalid(Seq<char>),
}

impl View for ClaimsProbe {
    type V = ClaimsProbeView;

    open spec fn view(&self) -> ClaimsProbeView {
        match self {
            ClaimsProbe::Token => ClaimsProbeView::Token,
            ClaimsProbe::NoToken => ClaimsProbeView::NoToken,
            ClaimsProbe::Invalid(text) => ClaimsProbeView::Invalid(text@),
        }
    }
}

/// What the archive loader makes of some bytes. The loader is run by the
/// caller and its verdict handed in: on a damaged archive it may panic where it
/// should fail, which nothing in this crate is allowed to do.
#[derive(Clone, Copy, Debug, PartialEq, Eq, Structural)]
pub enum ArchiveProbe {
    /// A provider archive with its claims and at least one library.
    Loaded,
    /// Anything else.
    Rejected,
}

/// Why bytes are not an artifact of one given kind.
#[derive(Clone, Debug, PartialEq, Eq)]
pub enum Rejection {
    /// A module, but one that carries no claims; the text is the label of
    /// the module.
    NoCapabilities(String),
    /// Not a module that the extractor accepts; the text is the extractor's.
    InvalidModule(String),
    /// Not an archive that the loader accepts; the text is the label of the
    /// archive.
    InvalidArchive(String),
}

/// A `Rejection` with its text as a sequence of characters.
pub enum RejectionView {
    NoCapabilities(Seq<char>),
    InvalidModule(Seq<char>),
    InvalidArchive(Seq<char>),
}

impl View for Rejection {
    type V = RejectionView;

    open spec fn view(&self) -> RejectionView {
        match self {
            Rejection::NoCapabilities(label) => RejectionView::NoCapabilities(label@),
            Rejection::InvalidModule(text) => RejectionView::InvalidModule(text@),
            Rejection::InvalidArchive(label) => RejectionView::InvalidArchive(label@),
        }
    }
}

impl RejectionView {
    /// The one line that tells of this rejection.
    pub open spec fn message(self) -> Seq<char> {
        match self {
            RejectionView::NoCapabilities(label) =>
                "No capabilities discovered in actor module : "@ + label,
            RejectionView::InvalidModule(text) => text,
            RejectionView::InvalidArchive(label) => "Invalid provider archive : "@ + label,
        }
    }
}

impl Rejection {
    /// The one line that tells of this rejection.
    pub fn message(&self) -> (text: String)
        ensures
            text@ == self@.message(),
    {
        match self {
            Rejection::NoCapabilities(label) => String::from_str(
                "No capabilities discovered in actor module : ",
            ).concat(label.as_str()),
            Rejection::InvalidModule(text) => text.clone(),
            Rejection::InvalidArchive(label) => String::from_str(
                "Invalid provider archive : ",
            ).concat(label.as_str()),
        }
    }
}

/// `Ok` as it is, or the view of the rejection.
pub open spec fn verdict_view(verdict: Result<(), Rejection>) -> Result<(), RejectionView> {
    match verdict {
        Ok(_) => Ok(()),
        Err(rejection) => Err(rejection@),
    }
}

/// How far the bytes alone decide the kind.
#[derive(Clone, Copy, Debug, PartialEq, Eq, Structural)]
pub enum Classification {
    /// The kind is known.
    Classified(SupportedArtifacts),
    /// The bytes are no actor module. Whether they are a provider archive is
    /// for the archive loader to say.
    Deferred,
}

/// What `wascap::wasm::extract_claims` returns for the bytes: whether it
/// finds a token, finds none, or fails, and in the last case the text of its
/// error.
pub uninterp spec fn extracted_claims(artifact: Seq<u8>) -> ClaimsProbeView;

/// Calls `wascap::wasm::extract_claims` on the bytes and tells its three
/// outcomes apart: `Ok` with a token, `Ok` without one, and `Err`, of which
/// it keeps the text that the error displays. Trusted: the outcome depends on
/// the bytes alone (the extractor parses the module, reads the token from its
/// custom section and compares the hash in the token with the hash of the
/// module without it; it looks at no clock and no key, and its errors tell
/// of the bytes only).
#[verifier::external_body]
fn extract_claims(artifact: &[u8]) -> (probe: ClaimsProbe)
    ensures
        probe@ == extracted_claims(artifact@),
{
    match wascap::wasm::extract_claims(artifact) {
        Ok(Some(_)) => ClaimsProbe::Token,
        Ok(None) => ClaimsProbe::NoToken,
        Err(e) => ClaimsProbe::Invalid(e.to_string()),
    }
}

/// Whether a module with this probe is an actor module. One without a token
/// is rejected under the label of the module, one that the extractor failed
/// on with the extractor's own words.
pub open spec fn actor_verdict(probe: ClaimsProbeView, module: Seq<char>) -> Result<
    (),
    RejectionView,
> {
    match probe {
        ClaimsProbeView::Token => Ok(()),
        ClaimsProbeView::NoToken => Err(RejectionView::NoCapabilities(module)),
        ClaimsProbeView::Invalid(text) => Err(RejectionView::InvalidModule(text)),
    }
}

/// Whether bytes with this verdict of the loader are a provider archive. What
/// the loader rejected is rejected under the label of the archive, whatever
/// the loader had against it.
pub open spec fn archive_verdict(probe: ArchiveProbe, archive: Seq<char>) -> Result<
    (),
    RejectionView,
> {
    match probe {
        ArchiveProbe::Loaded => Ok(()),
        ArchiveProbe::Rejected => Err(RejectionView::InvalidArchive(archive)),
    }
}

/// What is made of bytes that are no actor module: a provider archive if
/// the loader took them, else an unsupported artifact under the caller's
/// name for it.
pub open spec fn deferred_classification(archive: ArchiveProbe, name: Seq<char>) -> Result<
    SupportedArtifacts,
    RegErrorView,
> {
    match archive {
        ArchiveProbe::Loaded => Ok(SupportedArtifacts::Par),
        ArchiveProbe::Rejected => Err(RegErrorView::UnsupportedArtifact(name)),
    }
}

/// The classification of an artifact from what the extractor and the loader
/// make of it. The extractor is heard first: bytes with a claims token are an
/// actor module whatever the loader would say. Only without a token can they
/// be a provider archive, and if they are neither they are unsupported.
pub open spec fn classification(
    claims: ClaimsProbeView,
    archive: ArchiveProbe,
    name: Seq<char>,
) -> Result<SupportedArtifacts, RegErrorView> {
    match claims {
        ClaimsProbeView::Token => Ok(SupportedArtifacts::Wasm),
        _ => deferred_classification(archive, name),
    }
}

/// What the bytes alone decide: an actor module where the extractor finds a
/// token, nothing yet where it does not.
pub open spec fn first_attempt(claims: ClaimsProbeView) -> Classification {
    match claims {
        ClaimsProbeView::Token => Classification::Classified(SupportedArtifacts::Wasm),
        _ => Classification::Deferred,
    }
}

/// Whether an actor module stands behind this probe, which was taken of the
/// module labelled `module`.
pub fn actor_module_verdict(probe: ClaimsProbe, module: &str) -> (verdict: Result<(), Rejection>)
    ensures
        verdict_view(verdict) == actor_verdict(probe@, module@),
{
    match probe {
        ClaimsProbe::Token => Ok(()),
        ClaimsProbe::NoToken => Err(Rejection::NoCapabilities(String::from_str(module))),
        ClaimsProbe::Invalid(text) => Err(Rejection::InvalidModule(text)),
    }
}

/// Looks for the claims of an actor module in the bytes. Fails without
/// claims, and where the bytes are no valid module.
pub fn validate_actor_module(artifact: &[u8], module: &str) -> (verdict: Result<(), Rejection>)
    ensures
        verdict_view(verdict) == actor_verdict(extracted_claims(artifact@), module@),
{
    actor_module_verdict(extract_claims(artifact), module)
}

/// Whether the archive loader took the bytes labelled `archive` for a
/// provider archive.
pub fn validate_provider_archive(probe: ArchiveProbe, archive: &str) -> (verdict: Result<
    (),
    Rejection,
>)
    ensures
        verdict_view(verdict) == archive_verdict(probe, archive@),
{
    match probe {
        ArchiveProbe::Loaded => Ok(()),
        ArchiveProbe::Rejected => Err(Rejection::InvalidArchive(String::from_str(archive))),
    }
}

/// The first attempt at the kind of an artifact: an actor module if the
/// bytes carry claims. Otherwise the decision is deferred to the archive
/// loader, which is asked only then. Why the bytes are no actor module is
/// not handed on.
pub fn validate_artifact(artifact: &[u8], name: &str) -> (first: Classification)
    ensures
        first == first_attempt(extracted_claims(artifact@)),
{
    match validate_actor_module(artifact, name) {
        Ok(_) => Classification::Classified(SupportedArtifacts::Wasm),
        Err(_) => Classification::Deferred,
    }
}

/// The second attempt, for bytes that are no actor module: a provider
/// archive if the loader took them, else an unsupported artifact, reported
/// under the name that the caller gives.
pub fn validate_deferred(archive: ArchiveProbe, name: &str) -> (outcome: Result<
    SupportedArtifacts,
    RegError,
>)
    ensures
        viewed(outcome) == deferred_classification(archive, name@),
{
    match validate_provider_archive(archive, name) {
        Ok(_) => Ok(SupportedArtifacts::Par),
        Err(_) => Err(RegError::UnsupportedArtifact(String::from_str(name))),
    }
}

/// The kind of an artifact from both probes at once, in their fixed order.
pub fn classify(claims: ClaimsProbe, archive: ArchiveProbe, name: &str) -> (outcome: Result<
    SupportedArtifacts,
    RegError,
>)
    ensures
        viewed(outcome) == classification(claims@, archive, name@),
{
    match actor_module_verdict(claims, name) {
        Ok(_) => Ok(SupportedArtifacts::Wasm),
        Err(_) => validate_deferred(archive, name),
    }
}

/// Bytes in which the extractor finds a claims token are an actor module,
/// whatever the archive loader makes of them and under any name.
pub proof fn lemma_claims_come_first(archive: ArchiveProbe, name: Seq<char>)
    ensures
        classification(ClaimsProbeView::Token, archive, name) == Ok::<
            SupportedArtifacts,
            RegErrorView,
        >(SupportedArtifacts::Wasm),
        first_attempt(ClaimsProbeView::Token) == Classification::Classified(
            SupportedArtifacts::Wasm,
        ),
{
}

/// Bytes in which the extractor finds no token and which the loader rejects
/// are an unsupported artifact, reported under the caller's name for them.
pub proof fn lemma_neither_is_unsupported(claims: ClaimsProbeView, name: Seq<char>)
    requires
        !(claims is Token),
    ensures
        classification(claims, ArchiveProbe::Rejected, name) == Err::<
            SupportedArtifacts,
            RegErrorView,
        >(RegErrorView::UnsupportedArtifact(name)),
{
}

/// The two attempts, one after the other, come to the classification from
/// both probes at once.
pub proof fn lemma_attempts_agree(claims: ClaimsProbeView, archive: ArchiveProbe, name: Seq<char>)
    ensures
        classification(claims, archive, name) == (match first_attempt(claims) {
            Classification::Classified(kind) => Ok(kind),
            Classification::Deferred => deferred_classification(archive, name),
        }),
{
}

} // verus!
