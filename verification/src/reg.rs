//! Pulling artifacts from an OCI registry and pushing them to one.
//!
//! Neither operation is carried out here. Each is cut at the points where the
//! outside world has to act, and the pieces in between are functions: a
//! command becomes a request, the request is performed by the caller, and what
//! came of it is handed to the next function.
//!
//! A pull: `handle_pull` gives a `PullRequest`; the caller downloads the
//! image; `pull_received` checks its digest, assembles and classifies it and
//! gives either the file to write or, for bytes that are no actor module, a
//! `PendingPull` for which the caller asks the archive loader;
//! `pull_archive_probed` then gives the file to write.
//!
//! A push: `handle_push` gives a `LoadRequest`; the caller reads the files;
//! `push_loaded` classifies and packages the artifact and gives either the
//! `PushRequest` or a `PendingPush`; `push_archive_probed` then gives the
//! `PushRequest`, which the caller performs.

use crate::artifact::{
    first_attempt, deferred_classification, extracted_claims, validate_artifact,
    validate_deferred, ArchiveProbe, Classification, ClaimsProbeView, SupportedArtifacts,
};
use crate::digest::{mismatch, verify};
use crate::error::{viewed, Operation, RegError, RegErrorView};
use crate::reference::{parse_outcome, ArtifactReference, ReferenceView};
use crate::registry::{
    accepted, accepted_media_types, assemble, assembled, credentials, package, packaged,
    protocol, resolve_credentials, select_protocol, AuthView, ClientProtocol, ImageData,
    ImageView, RegistryAuth,
};
use crate::text::{last_path_segment, last_segment};
use vstd::prelude::*;
use vstd::string::*;

verus! {

/// A command on a registry.
#[derive(Clone, Debug, PartialEq, Eq)]
pub struct RegCli {
    pub command: RegCliCommand,
}

/// The commands on a registry.
#[derive(Clone, Debug, PartialEq, Eq)]
pub enum RegCliCommand {
    /// Pull an artifact from an OCI compliant registry.
    Pull(PullCommand),
    /// Push an artifact to an OCI compliant registry.
    Push(PushCommand),
}

/// What a pull is told.
#[derive(Clone, Debug, PartialEq, Eq)]
pub struct PullCommand {
    /// Reference of the artifact.
    pub url: String,
    /// Registry user; without one, access is anonymous.
    pub user: Option<String>,
    /// Registry password; without one, access is anonymous.
    pub password: Option<String>,
    /// Path of the file to write.
    pub output: Option<String>,
    /// Digest to hold the artifact against.
    pub digest: Option<String>,
    /// Reach the registry over plain HTTP.
    pub insecure: bool,
    /// Allow the tag `latest`.
    pub allow_latest: bool,
}

/// What a push is told.
#[derive(Clone, Debug, PartialEq, Eq)]
pub struct PushCommand {
    /// Reference to push the artifact to.
    pub url: String,
    /// Path of the artifact to push.
    pub artifact: String,
    /// Registry user; without one, access is anonymous.
    pub user: Option<String>,
    /// Registry password; without one, access is anonymous.
    pub password: Option<String>,
    /// Path of a configuration file; without one, an empty configuration is
    /// sent.
    pub config: Option<String>,
    /// Reach the registry over plain HTTP.
    pub insecure: bool,
    /// Allow the tag `latest`.
    pub allow_latest: bool,
}

/// A `PullCommand` with its texts as sequences of characters.
pub struct PullCommandView {
    pub url: Seq<char>,
    pub user: Option<Seq<char>>,
    pub password: Option<Seq<char>>,
    pub output: Option<Seq<char>>,
    pub digest: Option<Seq<char>>,
    pub insecure: bool,
    pub allow_latest: bool,
}

/// A `PushCommand` with its texts as sequences of characters.
pub struct PushCommandView {
    pub url: Seq<char>,
    pub artifact: Seq<char>,
    pub user: Option<Seq<char>>,
    pub password: Option<Seq<char>>,
    pub config: Option<Seq<char>>,
    pub insecure: bool,
    pub allow_latest: bool,
}

/// A `RegCli` with its texts as sequences of characters.
pub enum RegCliView {
    Pull(PullCommandView),
    Push(PushCommandView),
}

impl View for PullCommand {
    type V = PullCommandView;

    open spec fn view(&self) -> PullCommandView {
        PullCommandView {
            url: self.url@,
            user: self.user.deep_view(),
            password: self.password.deep_view(),
            output: self.output.deep_view(),
            digest: self.digest.deep_view(),
            insecure: self.insecure,
            allow_latest: self.allow_latest,
        }
    }
}

impl View for PushCommand {
    type V = PushCommandView;

    open spec fn view(&self) -> PushCommandView {
        PushCommandView {
            url: self.url@,
            artifact: self.artifact@,
            user: self.user.deep_view(),
            password: self.password.deep_view(),
            config: self.config.deep_view(),
            insecure: self.insecure,
            allow_latest: self.allow_latest,
        }
    }
}

impl View for RegCli {
    type V = RegCliView;

    open spec fn view(&self) -> RegCliView {
        match self.command {
            RegCliCommand::Pull(cmd) => RegCliView::Pull(cmd@),
            RegCliCommand::Push(cmd) => RegCliView::Push(cmd@),
        }
    }
}

/// A download for the caller to perform: which image to ask for, how, and
/// what the pull needs afterwards.
#[derive(Clone, Debug, PartialEq, Eq)]
pub struct PullRequest {
    /// The reference as the command gave it.
    pub url: String,
    /// The same reference, parsed.
    pub image: ArtifactReference,
    pub auth: RegistryAuth,
    pub protocol: ClientProtocol,
    /// The only media types to accept from the registry.
    pub accepted_media_types: Vec<&'static str>,
    /// Path of the file to write, where the command named one.
    pub output: Option<String>,
    /// Digest that the command expects, as it gave it.
    pub digest: Option<String>,
}

/// A `PullRequest` as sequences.
pub struct PullRequestView {
    pub url: Seq<char>,
    pub image: ReferenceView,
    pub auth: AuthView,
    pub protocol: ClientProtocol,
    pub accepted_media_types: Seq<Seq<char>>,
    pub output: Option<Seq<char>>,
    pub digest: Option<Seq<char>>,
}

impl View for PullRequest {
    type V = PullRequestView;

    open spec fn view(&self) -> PullRequestView {
        PullRequestView {
            url: self.url@,
            image: self.image@,
            auth: self.auth@,
            protocol: self.protocol,
            accepted_media_types: self.accepted_media_types@.map_values(|m: &'static str| m@),
            output: self.output.deep_view(),
            digest: self.digest.deep_view(),
        }
    }
}

/// A file for the caller to write: created or truncated, then filled with
/// the artifact in one go.
#[derive(Clone, Debug, PartialEq, Eq)]
pub struct OutputFile {
    pub outfile: String,
    pub artifact: Vec<u8>,
}

/// An `OutputFile` as sequences.
pub struct OutputFileView {
    pub outfile: Seq<char>,
    pub artifact: Seq<u8>,
}

impl View for OutputFile {
    type V = OutputFileView;

    open spec fn view(&self) -> OutputFileView {
        OutputFileView { outfile: self.outfile@, artifact: self.artifact@ }
    }
}

/// A pulled artifact that is no actor module. The caller hands `artifact` to
/// the archive loader and comes back with its verdict.
#[derive(Clone, Debug, PartialEq, Eq)]
pub struct PendingPull {
    pub artifact: Vec<u8>,
    /// Repository that the artifact came from.
    pub repository: String,
    /// Path of the file to write, where the command named one.
    pub output: Option<String>,
}

/// A `PendingPull` as sequences.
pub struct PendingPullView {
    pub artifact: Seq<u8>,
    pub repository: Seq<char>,
    pub output: Option<Seq<char>>,
}

impl View for PendingPull {
    type V = PendingPullView;

    open spec fn view(&self) -> PendingPullView {
        PendingPullView {
            artifact: self.artifact@,
            repository: self.repository@,
            output: self.output.deep_view(),
        }
    }
}

/// Where a pull stands once the image is there.
#[derive(Clone, Debug, PartialEq, Eq)]
pub enum PullProgress {
    /// The artifact is an actor module: write it.
    Write(OutputFile),
    /// The artifact is no actor module: ask the archive loader.
    AskArchiveLoader(PendingPull),
}

/// A `PullProgress` as sequences.
pub enum PullProgressView {
    Write(OutputFileView),
    AskArchiveLoader(PendingPullView),
}

impl View for PullProgress {
    type V = PullProgressView;

    open spec fn view(&self) -> PullProgressView {
        match self {
            PullProgress::Write(file) => PullProgressView::Write(file@),
            PullProgress::AskArchiveLoader(pending) => PullProgressView::AskArchiveLoader(
                pending@,
            ),
        }
    }
}

/// Files for the caller to read before a push, and what the push needs
/// afterwards.
#[derive(Clone, Debug, PartialEq, Eq)]
pub struct LoadRequest {
    /// The reference as the command gave it.
    pub url: String,
    /// The same reference, parsed.
    pub image: ArtifactReference,
    /// Path of the artifact.
    pub artifact: String,
    /// Path of the configuration, where the command named one.
    pub config: Option<String>,
    pub auth: RegistryAuth,
    pub protocol: ClientProtocol,
}

/// A `LoadRequest` as sequences.
pub struct LoadRequestView {
    pub url: Seq<char>,
    pub image: ReferenceView,
    pub artifact: Seq<char>,
    pub config: Option<Seq<char>>,
    pub auth: AuthView,
    pub protocol: ClientProtocol,
}

impl View for LoadRequest {
    type V = LoadRequestView;

    open spec fn view(&self) -> LoadRequestView {
        LoadRequestView {
            url: self.url@,
            image: self.image@,
            artifact: self.artifact@,
            config: self.config.deep_view(),
            auth: self.auth@,
            protocol: self.protocol,
        }
    }
}

/// An upload for the caller to perform.
#[derive(Clone, Debug, PartialEq, Eq)]
pub struct PushRequest {
    /// The reference as the command gave it.
    pub url: String,
    /// The same reference, parsed.
    pub image: ArtifactReference,
    /// The artifact in its one layer.
    pub image_data: ImageData,
    /// The bytes of the configuration.
    pub config: Vec<u8>,
    pub config_media_type: &'static str,
    pub auth: RegistryAuth,
    pub protocol: ClientProtocol,
}

/// A `PushRequest` as sequences.
pub struct PushRequestView {
    pub url: Seq<char>,
    pub image: ReferenceView,
    pub image_data: ImageView,
    pub config: Seq<u8>,
    pub config_media_type: Seq<char>,
    pub auth: AuthView,
    pub protocol: ClientProtocol,
}

impl View for PushRequest {
    type V = PushRequestView;

    open spec fn view(&self) -> PushRequestView {
        PushRequestView {
            url: self.url@,
            image: self.image@,
            image_data: self.image_data@,
            config: self.config@,
            config_media_type: self.config_media_type@,
            auth: self.auth@,
            protocol: self.protocol,
        }
    }
}

/// A loaded artifact that is no actor module. The caller hands `artifact` to
/// the archive loader and comes back with its verdict.
#[derive(Clone, Debug, PartialEq, Eq)]
pub struct PendingPush {
    pub request: LoadRequest,
    pub artifact: Vec<u8>,
    /// The bytes of the configuration.
    pub config: Vec<u8>,
}

/// A `PendingPush` as sequences.
pub struct PendingPushView {
    pub request: LoadRequestView,
    pub artifact: Seq<u8>,
    pub config: Seq<u8>,
}

impl View for PendingPush {
    type V = PendingPushView;

    open spec fn view(&self) -> PendingPushView {
        PendingPushView { request: self.request@, artifact: self.artifact@, config: self.config@ }
    }
}

/// Where a push stands once the files are read.
#[derive(Clone, Debug, PartialEq, Eq)]
pub enum PushProgress {
    /// The artifact is an actor module: upload it.
    Upload(PushRequest),
    /// The artifact is no actor module: ask the archive loader.
    AskArchiveLoader(PendingPush),
}

/// A `PushProgress` as sequences.
pub enum PushProgressView {
    Upload(PushRequestView),
    AskArchiveLoader(PendingPushView),
}

impl View for PushProgress {
    type V = PushProgressView;

    open spec fn view(&self) -> PushProgressView {
        match self {
            PushProgress::Upload(request) => PushProgressView::Upload(request@),
            PushProgress::AskArchiveLoader(pending) => PushProgressView::AskArchiveLoader(
                pending@,
            ),
        }
    }
}

/// The first thing that a command asks of the caller.
#[derive(Clone, Debug, PartialEq, Eq)]
pub enum RegRequest {
    /// Download an image.
    Pull(PullRequest),
    /// Read the files of a push.
    Load(LoadRequest),
}

/// A `RegRequest` as sequences.
pub enum RegRequestView {
    Pull(PullRequestView),
    Load(LoadRequestView),
}

impl View for RegRequest {
    type V = RegRequestView;

    open spec fn view(&self) -> RegRequestView {
        match self {
            RegRequest::Pull(request) => RegRequestView::Pull(request@),
            RegRequest::Load(request) => RegRequestView::Load(request@),
        }
    }
}

/// The configuration that is sent where the command names none: `{}`.
pub open spec fn default_config() -> Seq<u8> {
    seq![0x7bu8, 0x7du8]
}

/// The download that a pull command asks for. A reference that does not
/// parse is malformed; one that resolves to `latest` needs `allow_latest`.
pub open spec fn pull_plan(cmd: PullCommandView) -> Result<PullRequestView, RegErrorView> {
    match parse_outcome(cmd.url) {
        Err(error) => Err(error),
        Ok(image) => match image.policy(cmd.allow_latest, Operation::Pull) {
            Err(error) => Err(error@),
            Ok(_) => Ok(
                PullRequestView {
                    url: cmd.url,
                    image,
                    auth: credentials(cmd.user, cmd.password),
                    protocol: protocol(cmd.insecure),
                    accepted_media_types: accepted(),
                    output: cmd.output,
                    digest: cmd.digest,
                },
            ),
        },
    }
}

/// The path to write a pulled artifact to: the one that the command named,
/// else the last segment of the repository with the ending of the kind.
pub open spec fn outfile_for(
    output: Option<Seq<char>>,
    repository: Seq<char>,
    kind: SupportedArtifacts,
) -> Seq<char> {
    match output {
        Some(path) => path,
        None => last_segment(repository) + kind.file_extension_spec(),
    }
}

/// Where a pull stands with the assembled artifact and the first attempt at
/// its kind.
pub open spec fn pull_placed(
    image: ReferenceView,
    output: Option<Seq<char>>,
    artifact: Seq<u8>,
    first: Classification,
) -> PullProgressView {
    match first {
        Classification::Classified(kind) => PullProgressView::Write(
            OutputFileView { outfile: outfile_for(output, image.repository, kind), artifact },
        ),
        Classification::Deferred => PullProgressView::AskArchiveLoader(
            PendingPullView { artifact, repository: image.repository, output },
        ),
    }
}

/// What a pull makes of the image that the registry sent, given what the
/// claims extractor makes of the assembled bytes. The digest is held against
/// the expected one before anything else is looked at.
pub open spec fn pull_outcome(request: PullRequestView, image: ImageView, claims: ClaimsProbeView)
    -> Result<PullProgressView, RegErrorView> {
    if mismatch(request.digest, image.digest) {
        Err(RegErrorView::IntegrityMismatch)
    } else {
        Ok(
            pull_placed(
                request.image,
                request.output,
                assembled(image.layers),
                first_attempt(claims),
            ),
        )
    }
}

/// The file to write for a pulled artifact that is no actor module, given the
/// verdict of the archive loader; an unsupported artifact where the loader
/// rejected it.
pub open spec fn pull_settled(pending: PendingPullView, archive: ArchiveProbe) -> Result<
    OutputFileView,
    RegErrorView,
> {
    match deferred_classification(archive, pending.repository) {
        Ok(kind) => Ok(
            OutputFileView {
                outfile: outfile_for(pending.output, pending.repository, kind),
                artifact: pending.artifact,
            },
        ),
        Err(error) => Err(error),
    }
}

/// The files that a push command asks to have read. A reference that does
/// not parse, or that names no tag, is malformed; the tag `latest` needs
/// `allow_latest`.
pub open spec fn push_plan(cmd: PushCommandView) -> Result<LoadRequestView, RegErrorView> {
    match parse_outcome(cmd.url) {
        Err(error) => Err(error),
        Ok(image) => if image.tag is None {
            Err(RegErrorView::MalformedReference)
        } else {
            match image.policy(cmd.allow_latest, Operation::Push) {
                Err(error) => Err(error@),
                Ok(_) => Ok(
                    LoadRequestView {
                        url: cmd.url,
                        image,
                        artifact: cmd.artifact,
                        config: cmd.config,
                        auth: credentials(cmd.user, cmd.password),
                        protocol: protocol(cmd.insecure),
                    },
                ),
            }
        },
    }
}

/// The upload of an artifact of a known kind.
pub open spec fn upload(
    request: LoadRequestView,
    artifact: Seq<u8>,
    config: Seq<u8>,
    kind: SupportedArtifacts,
) -> PushRequestView {
    PushRequestView {
        url: request.url,
        image: request.image,
        image_data: packaged(artifact, kind),
        config,
        config_media_type: kind.config_media_type_spec(),
        auth: request.auth,
        protocol: request.protocol,
    }
}

/// Where a push stands with the artifact, the configuration and the first
/// attempt at the kind.
pub open spec fn push_placed(
    request: LoadRequestView,
    artifact: Seq<u8>,
    config: Seq<u8>,
    first: Classification,
) -> PushProgressView {
    match first {
        Classification::Classified(kind) => PushProgressView::Upload(
            upload(request, artifact, config, kind),
        ),
        Classification::Deferred => PushProgressView::AskArchiveLoader(
            PendingPushView { request, artifact, config },
        ),
    }
}

/// The bytes of the configuration to send: those read, else `{}`.
pub open spec fn config_or_default(config: Option<Seq<u8>>) -> Seq<u8> {
    match config {
        Some(bytes) => bytes,
        None => default_config(),
    }
}

/// The upload for a loaded artifact that is no actor module, given the
/// verdict of the archive loader; an unsupported artifact, under the path it
/// was read from, where the loader rejected it.
pub open spec fn push_settled(pending: PendingPushView, archive: ArchiveProbe) -> Result<
    PushRequestView,
    RegErrorView,
> {
    match deferred_classification(archive, pending.request.artifact) {
        Ok(kind) => Ok(upload(pending.request, pending.artifact, pending.config, kind)),
        Err(error) => Err(error),
    }
}

/// What a command first asks of the caller.
pub open spec fn plan(cli: RegCliView) -> Result<RegRequestView, RegErrorView> {
    match cli {
        RegCliView::Pull(cmd) => match pull_plan(cmd) {
            Ok(request) => Ok(RegRequestView::Pull(request)),
            Err(error) => Err(error),
        },
        RegCliView::Push(cmd) => match push_plan(cmd) {
            Ok(request) => Ok(RegRequestView::Load(request)),
            Err(error) => Err(error),
        },
    }
}

/// Starts the command: a pull with `handle_pull`, a push with `handle_push`.
pub fn handle_command(cli: RegCli) -> (outcome: Result<RegRequest, RegError>)
    ensures
        viewed(outcome) == plan(cli@),
{
    match cli.command {
        RegCliCommand::Pull(cmd) => match handle_pull(cmd) {
            Ok(request) => Ok(RegRequest::Pull(request)),
            Err(error) => Err(error),
        },
        RegCliCommand::Push(cmd) => match handle_push(cmd) {
            Ok(request) => Ok(RegRequest::Load(request)),
            Err(error) => Err(error),
        },
    }
}

/// Starts a pull: parses the reference, holds it to the rule on `latest`,
/// and says what to download and how. Nothing has touched the network when
/// this fails.
pub fn handle_pull(cmd: PullCommand) -> (outcome: Result<PullRequest, RegError>)
    ensures
        viewed(outcome) == pull_plan(cmd@),
{
    let PullCommand { url, user, password, output, digest, insecure, allow_latest } = cmd;
    let image = match ArtifactReference::parse(url.as_str()) {
        Ok(image) => image,
        Err(error) => {
            return Err(error);
        },
    };
    match image.check_mutability_policy(allow_latest, Operation::Pull) {
        Ok(_) => {},
        Err(error) => {
            return Err(error);
        },
    }
    Ok(
        PullRequest {
            url,
            image,
            auth: resolve_credentials(user, password),
            protocol: select_protocol(insecure),
            accepted_media_types: accepted_media_types(),
            output,
            digest,
        },
    )
}

/// The path to write a pulled artifact to.
pub fn output_path(output: Option<String>, repository: &str, kind: SupportedArtifacts) -> (path:
    String)
    ensures
        path@ == outfile_for(output.deep_view(), repository@, kind),
{
    match output {
        Some(path) => path,
        None => last_path_segment(repository).concat(kind.file_extension()),
    }
}

/// Places a pulled artifact after the first attempt at its kind: an actor
/// module is ready to be written, anything else waits for the archive
/// loader.
pub fn place_pulled(
    image: ArtifactReference,
    output: Option<String>,
    artifact: Vec<u8>,
    first: Classification,
) -> (progress: PullProgress)
    ensures
        progress@ == pull_placed(image@, output.deep_view(), artifact@, first),
{
    match first {
        Classification::Classified(kind) => {
            let outfile = output_path(output, image.repository.as_str(), kind);
            PullProgress::Write(OutputFile { outfile, artifact })
        },
        Classification::Deferred => PullProgress::AskArchiveLoader(
            PendingPull { artifact, repository: image.repository, output },
        ),
    }
}

/// Goes on with a pull once the registry has sent the image. The digest is
/// verified first: on a mismatch nothing is assembled, classified or handed
/// out to be written. Then the layers are joined in their order and the bytes
/// are looked at.
pub fn pull_received(request: PullRequest, image: ImageData) -> (outcome: Result<
    PullProgress,
    RegError,
>)
    ensures
        viewed(outcome) == pull_outcome(
            request@,
            image@,
            extracted_claims(assembled(image@.layers)),
        ),
{
    let PullRequest { image: reference, output, digest, .. } = request;
    match verify(digest, &image.digest) {
        Ok(_) => {},
        Err(error) => {
            return Err(error);
        },
    }
    let artifact = assemble(&image.layers);
    let first = validate_artifact(artifact.as_slice(), reference.repository.as_str());
    Ok(place_pulled(reference, output, artifact, first))
}

/// Ends the classification of a pulled artifact with the verdict of the
/// archive loader, and says what to write where.
pub fn pull_archive_probed(pending: PendingPull, archive: ArchiveProbe) -> (outcome: Result<
    OutputFile,
    RegError,
>)
    ensures
        viewed(outcome) == pull_settled(pending@, archive),
{
    let PendingPull { artifact, repository, output } = pending;
    match validate_deferred(archive, repository.as_str()) {
        Ok(kind) => {
            let outfile = output_path(output, repository.as_str(), kind);
            Ok(OutputFile { outfile, artifact })
        },
        Err(error) => Err(error),
    }
}

/// Starts a push: parses the reference, insists on a tag, holds it to the
/// rule on `latest`, and says which files to read. Nothing has been read and
/// nothing has touched the network when this fails.
pub fn handle_push(cmd: PushCommand) -> (outcome: Result<LoadRequest, RegError>)
    ensures
        viewed(outcome) == push_plan(cmd@),
{
    let PushCommand { url, artifact, user, password, config, insecure, allow_latest } = cmd;
    let image = match ArtifactReference::parse(url.as_str()) {
        Ok(image) => image,
        Err(error) => {
            return Err(error);
        },
    };
    if image.tag.is_none() {
        return Err(RegError::MalformedReference);
    }
    match image.check_mutability_policy(allow_latest, Operation::Push) {
        Ok(_) => {},
        Err(error) => {
            return Err(error);
        },
    }
    Ok(
        LoadRequest {
            url,
            image,
            artifact,
            config,
            auth: resolve_credentials(user, password),
            protocol: select_protocol(insecure),
        },
    )
}

/// The upload of an artifact of a known kind: the artifact in one layer of
/// the kind's media type, with the configuration under the media type that
/// goes with the kind.
pub fn prepare_upload(
    request: LoadRequest,
    artifact: Vec<u8>,
    config: Vec<u8>,
    kind: SupportedArtifacts,
) -> (push: PushRequest)
    ensures
        push@ == upload(request@, artifact@, config@, kind),
{
    let LoadRequest { url, image, auth, protocol, .. } = request;
    PushRequest {
        url,
        image,
        image_data: package(artifact, kind),
        config,
        config_media_type: kind.config_media_type(),
        auth,
        protocol,
    }
}

/// Places a loaded artifact after the first attempt at its kind: an actor
/// module is ready to be uploaded, anything else waits for the archive
/// loader.
pub fn place_loaded(
    request: LoadRequest,
    artifact: Vec<u8>,
    config: Vec<u8>,
    first: Classification,
) -> (progress: PushProgress)
    ensures
        progress@ == push_placed(request@, artifact@, config@, first),
{
    match first {
        Classification::Classified(kind) => PushProgress::Upload(
            prepare_upload(request, artifact, config, kind),
        ),
        Classification::Deferred => PushProgress::AskArchiveLoader(
            PendingPush { request, artifact, config },
        ),
    }
}

/// The configuration to send: the bytes read, or `{}` where the command
/// named no file.
pub fn configuration(config: Option<Vec<u8>>) -> (bytes: Vec<u8>)
    ensures
        bytes@ == config_or_default(config.deep_view()),
{
    match config {
        Some(bytes) => bytes,
        None => {
            let mut blank: Vec<u8> = Vec::new();
            blank.push(0x7b);
            blank.push(0x7d);
            assert(blank@ =~= default_config());
            blank
        },
    }
}

/// Goes on with a push once the files are read: `artifact` holds the bytes of
/// the artifact, `config` those of the configuration file if the command
/// named one.
pub fn push_loaded(request: LoadRequest, artifact: Vec<u8>, config: Option<Vec<u8>>) -> (progress:
    PushProgress)
    ensures
        progress@ == push_placed(
            request@,
            artifact@,
            config_or_default(config.deep_view()),
            first_attempt(extracted_claims(artifact@)),
        ),
{
    let config = configuration(config);
    let first = validate_artifact(artifact.as_slice(), request.artifact.as_str());
    place_loaded(request, artifact, config, first)
}

/// Ends the classification of a loaded artifact with the verdict of the
/// archive loader, and says what to upload.
pub fn push_archive_probed(pending: PendingPush, archive: ArchiveProbe) -> (outcome: Result<
    PushRequest,
    RegError,
>)
    ensures
        viewed(outcome) == push_settled(pending@, archive),
{
    let PendingPush { request, artifact, config } = pending;
    match validate_deferred(archive, request.artifact.as_str()) {
        Ok(kind) => Ok(prepare_upload(request, artifact, config, kind)),
        Err(error) => Err(error),
    }
}

/// A report that does not confirm the expected digest, or no report where a
/// digest is expected, ends a pull with `IntegrityMismatch` whatever the
/// layers hold: there is then no file to write and nothing to ask the
/// archive loader.
pub proof fn lemma_mismatch_ends_pull(request: PullRequestView, image: ImageView, claims: ClaimsProbeView)
    requires
        mismatch(request.digest, image.digest),
    ensures
        pull_outcome(request, image, claims) == Err::<PullProgressView, RegErrorView>(
            RegErrorView::IntegrityMismatch,
        ),
{
}

/// A pull of what a push uploaded writes the pushed artifact, byte for byte.
/// The image is the one that `upload` packaged, with whatever digest the
/// registry reports for it, as long as that digest confirms the expected
/// one where one is expected. Whether the artifact is an actor module or is left to the
/// archive loader, the bytes that the pull hands on are those pushed, and so
/// are the bytes of the file that it has written in the end.
pub proof fn lemma_push_then_pull(
    load: LoadRequestView,
    artifact: Seq<u8>,
    config: Seq<u8>,
    kind: SupportedArtifacts,
    reported: Option<Seq<char>>,
    request: PullRequestView,
    claims: ClaimsProbeView,
    archive: ArchiveProbe,
)
    requires
        !mismatch(request.digest, reported),
    ensures
        ({
            let pushed = upload(load, artifact, config, kind).image_data;
            let pulled = ImageView { layers: pushed.layers, digest: reported };
            match pull_outcome(request, pulled, claims) {
                Ok(PullProgressView::Write(file)) => file.artifact == artifact,
                Ok(PullProgressView::AskArchiveLoader(pending)) => pending.artifact == artifact
                    && (pull_settled(pending, archive) matches Ok(file) ==> file.artifact
                    == artifact),
                Err(_) => false,
            }
        }),
{
    crate::registry::lemma_package_round_trip(artifact, kind);
}

} // verus!
