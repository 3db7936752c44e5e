use wascap::jwt::{Actor, Claims};
use wascap::prelude::KeyPair;
use wash::artifact::ArchiveProbe;
use wash::error::{Operation, RegError};
use wash::reference::ArtifactReference;
use wash::reg::{
    handle_command, handle_pull, output_path, place_pulled, pull_archive_probed, pull_received,
    OutputFile, PendingPull, PullCommand, PullProgress, PullRequest, RegCli, RegCliCommand,
    RegRequest,
};
use wash::artifact::{Classification, SupportedArtifacts};
use wash::registry::{
    accepted_media_types, assemble, resolve_credentials, select_protocol, ClientProtocol,
    ImageData, ImageLayer, RegistryAuth,
};

const EMPTY_MODULE: [u8; 8] = [0x00, 0x61, 0x73, 0x6d, 0x01, 0x00, 0x00, 0x00];
const HEX: &str = "ab12cd34ab12cd34ab12cd34ab12cd34ab12cd34ab12cd34ab12cd34ab12cd34";
const WASM_MEDIA_TYPE: &str = "application/vnd.module.wasm.content.layer.v1+wasm";
const PAR_MEDIA_TYPE: &str = "application/vnd.wascc.provider.archive.layer.v1+par";

fn actor_module() -> Vec<u8> {
    let account = KeyPair::new_account();
    let module = KeyPair::new_module();
    let claims = Claims::<Actor>::new(
        "foo".to_string(),
        account.public_key(),
        module.public_key(),
        None,
        None,
        false,
        Some(1),
        Some("0.1.0".to_string()),
    );
    wascap::wasm::embed_claims(&EMPTY_MODULE, &claims, &account).unwrap()
}

fn pull(url: &str) -> PullCommand {
    PullCommand {
        url: url.to_string(),
        user: None,
        password: None,
        output: None,
        digest: None,
        insecure: false,
        allow_latest: false,
    }
}

fn image(layers: Vec<Vec<u8>>, digest: Option<&str>) -> ImageData {
    ImageData {
        layers: layers
            .into_iter()
            .map(|data| ImageLayer { data, media_type: WASM_MEDIA_TYPE.to_string() })
            .collect(),
        digest: digest.map(String::from),
    }
}

#[test]
fn credentials_need_user_and_password() {
    assert_eq!(
        resolve_credentials(Some("u".to_string()), Some("p".to_string())),
        RegistryAuth::Basic("u".to_string(), "p".to_string())
    );
    assert_eq!(resolve_credentials(Some("u".to_string()), None), RegistryAuth::Anonymous);
    assert_eq!(resolve_credentials(None, Some("p".to_string())), RegistryAuth::Anonymous);
    assert_eq!(resolve_credentials(None, None), RegistryAuth::Anonymous);
}

#[test]
fn protocol_follows_the_insecure_flag() {
    assert_eq!(select_protocol(true), ClientProtocol::Http);
    assert_eq!(select_protocol(false), ClientProtocol::Https);
}

#[test]
fn a_pull_accepts_the_two_media_types() {
    assert_eq!(accepted_media_types(), vec![PAR_MEDIA_TYPE, WASM_MEDIA_TYPE]);
}

#[test]
fn layers_are_joined_in_order() {
    let data = image(vec![vec![1, 2], vec![], vec![3], vec![4, 5, 6]], None);
    assert_eq!(assemble(&data.layers), vec![1, 2, 3, 4, 5, 6]);
    assert_eq!(assemble(&Vec::new()), Vec::<u8>::new());
    assert_eq!(assemble(&image(vec![vec![9]], None).layers), vec![9]);
}

#[test]
fn handle_pull_plans_the_download() {
    let cmd = PullCommand {
        url: "registry.example.com/ns/foo:v1".to_string(),
        user: Some("u".to_string()),
        password: Some("p".to_string()),
        output: Some("out.bin".to_string()),
        digest: Some(HEX.to_string()),
        insecure: true,
        allow_latest: false,
    };
    let request = handle_pull(cmd).unwrap();
    assert_eq!(
        request,
        PullRequest {
            url: "registry.example.com/ns/foo:v1".to_string(),
            image: ArtifactReference {
                registry: "registry.example.com".to_string(),
                repository: "ns/foo".to_string(),
                tag: Some("v1".to_string()),
            },
            auth: RegistryAuth::Basic("u".to_string(), "p".to_string()),
            protocol: ClientProtocol::Http,
            accepted_media_types: vec![PAR_MEDIA_TYPE, WASM_MEDIA_TYPE],
            output: Some("out.bin".to_string()),
            digest: Some(HEX.to_string()),
        }
    );
}

#[test]
fn handle_pull_rejects_a_malformed_reference() {
    assert_eq!(handle_pull(pull("")), Err(RegError::MalformedReference));
    assert_eq!(handle_pull(pull("Not A Reference")), Err(RegError::MalformedReference));
}

#[test]
fn pull_of_latest_is_a_policy_violation() {
    assert_eq!(
        handle_pull(pull("registry.example.com/ns/foo:latest")),
        Err(RegError::PolicyViolation(Operation::Pull))
    );
}

#[test]
fn pull_without_a_tag_is_a_policy_violation() {
    assert_eq!(
        handle_pull(pull("registry.example.com/ns/foo")),
        Err(RegError::PolicyViolation(Operation::Pull))
    );
}

#[test]
fn pull_of_latest_passes_with_the_override() {
    let mut cmd = pull("registry.example.com/ns/foo:latest");
    cmd.allow_latest = true;
    let request = handle_pull(cmd).unwrap();
    assert_eq!(request.image.tag, Some("latest".to_string()));
    assert_eq!(request.auth, RegistryAuth::Anonymous);
    assert_eq!(request.protocol, ClientProtocol::Https);
    let mut untagged = pull("registry.example.com/ns/foo");
    untagged.allow_latest = true;
    assert_eq!(handle_pull(untagged).unwrap().image.tag, None);
}

#[test]
fn handle_command_starts_a_pull() {
    let cli = RegCli { command: RegCliCommand::Pull(pull("registry.example.com/ns/foo:v1")) };
    let expected = handle_pull(pull("registry.example.com/ns/foo:v1")).unwrap();
    assert_eq!(handle_command(cli), Ok(RegRequest::Pull(expected)));
    let latest = RegCli { command: RegCliCommand::Pull(pull("registry.example.com/ns/foo")) };
    assert_eq!(handle_command(latest), Err(RegError::PolicyViolation(Operation::Pull)));
}

#[test]
fn output_path_prefers_the_given_path() {
    assert_eq!(
        output_path(Some("here.bin".to_string()), "ns/foo", SupportedArtifacts::Wasm),
        "here.bin"
    );
    assert_eq!(output_path(None, "ns/foo", SupportedArtifacts::Wasm), "foo.wasm");
    assert_eq!(output_path(None, "ns/foo", SupportedArtifacts::Par), "foo.par.gz");
    assert_eq!(output_path(None, "foo", SupportedArtifacts::Wasm), "foo.wasm");
    assert_eq!(output_path(None, "a/b/c", SupportedArtifacts::Par), "c.par.gz");
}

#[test]
fn pull_with_a_bare_digest_writes_the_module() {
    let module = actor_module();
    let mut cmd = pull("registry.example.com/ns/foo:v1");
    cmd.digest = Some(HEX.to_string());
    let request = handle_pull(cmd).unwrap();
    let reported = format!("sha256:{}", HEX);
    let progress = pull_received(request, image(vec![module.clone()], Some(&reported)));
    assert_eq!(
        progress,
        Ok(PullProgress::Write(OutputFile { outfile: "foo.wasm".to_string(), artifact: module }))
    );
}

#[test]
fn pull_with_another_digest_is_an_integrity_mismatch() {
    let mut cmd = pull("registry.example.com/ns/foo:v1");
    cmd.digest = Some(format!("sha256:{}", HEX));
    let request = handle_pull(cmd).unwrap();
    let reported = format!("sha256:{}", "0".repeat(64));
    assert_eq!(
        pull_received(request, image(vec![actor_module()], Some(&reported))),
        Err(RegError::IntegrityMismatch)
    );
}

#[test]
fn pull_with_an_unconfirmed_digest_is_an_integrity_mismatch() {
    let mut cmd = pull("registry.example.com/ns/foo:v1");
    cmd.digest = Some(format!("sha256:{}", HEX));
    let request = handle_pull(cmd).unwrap();
    assert_eq!(
        pull_received(request, image(vec![actor_module()], None)),
        Err(RegError::IntegrityMismatch)
    );
}

#[test]
fn a_mismatch_comes_before_the_classification() {
    // Bytes that are no artifact at all still fail on the digest first.
    let mut cmd = pull("registry.example.com/ns/foo:v1");
    cmd.digest = Some(HEX.to_string());
    let request = handle_pull(cmd).unwrap();
    assert_eq!(
        pull_received(request, image(vec![b"junk".to_vec()], Some("sha256:00"))),
        Err(RegError::IntegrityMismatch)
    );
}

#[test]
fn pull_without_an_expected_digest_takes_any_report() {
    let module = actor_module();
    for reported in [None, Some("sha256:00"), Some("whatever")] {
        let request = handle_pull(pull("registry.example.com/ns/foo:v1")).unwrap();
        let progress = pull_received(request, image(vec![module.clone()], reported)).unwrap();
        assert!(matches!(progress, PullProgress::Write(_)));
    }
}

#[test]
fn pull_writes_to_the_given_output() {
    let module = actor_module();
    let mut cmd = pull("registry.example.com/ns/foo:v1");
    cmd.output = Some("target/actor.bin".to_string());
    let request = handle_pull(cmd).unwrap();
    assert_eq!(
        pull_received(request, image(vec![module.clone()], None)),
        Ok(PullProgress::Write(
            OutputFile { outfile: "target/actor.bin".to_string(), artifact: module }
        ))
    );
}

#[test]
fn pull_joins_the_layers_before_it_classifies() {
    let module = actor_module();
    let (front, back) = module.split_at(module.len() / 2);
    let request = handle_pull(pull("registry.example.com/ns/foo:v1")).unwrap();
    assert_eq!(
        pull_received(request, image(vec![front.to_vec(), back.to_vec()], None)),
        Ok(PullProgress::Write(OutputFile { outfile: "foo.wasm".to_string(), artifact: module }))
    );
}

#[test]
fn pull_of_other_bytes_asks_the_archive_loader() {
    let request = handle_pull(pull("registry.example.com/ns/foo:v1")).unwrap();
    let progress = pull_received(request, image(vec![b"archive".to_vec(), b"bytes".to_vec()], None));
    let pending = PendingPull {
        artifact: b"archivebytes".to_vec(),
        repository: "ns/foo".to_string(),
        output: None,
    };
    assert_eq!(progress, Ok(PullProgress::AskArchiveLoader(pending.clone())));
    assert_eq!(
        pull_archive_probed(pending.clone(), ArchiveProbe::Loaded),
        Ok(OutputFile { outfile: "foo.par.gz".to_string(), artifact: b"archivebytes".to_vec() })
    );
    assert_eq!(
        pull_archive_probed(pending, ArchiveProbe::Rejected),
        Err(RegError::UnsupportedArtifact("ns/foo".to_string()))
    );
}

#[test]
fn pull_of_an_archive_writes_to_the_given_output() {
    let pending = PendingPull {
        artifact: vec![1, 2, 3],
        repository: "ns/foo".to_string(),
        output: Some("provider.par".to_string()),
    };
    assert_eq!(
        pull_archive_probed(pending, ArchiveProbe::Loaded),
        Ok(OutputFile { outfile: "provider.par".to_string(), artifact: vec![1, 2, 3] })
    );
}

#[test]
fn place_pulled_follows_the_first_attempt() {
    let reference = ArtifactReference {
        registry: "registry.example.com".to_string(),
        repository: "ns/foo".to_string(),
        tag: Some("v1".to_string()),
    };
    assert_eq!(
        place_pulled(
            reference.clone(),
            None,
            vec![7],
            Classification::Classified(SupportedArtifacts::Wasm)
        ),
        PullProgress::Write(OutputFile { outfile: "foo.wasm".to_string(), artifact: vec![7] })
    );
    assert_eq!(
        place_pulled(
            reference.clone(),
            None,
            vec![7],
            Classification::Classified(SupportedArtifacts::Par)
        ),
        PullProgress::Write(OutputFile { outfile: "foo.par.gz".to_string(), artifact: vec![7] })
    );
    assert_eq!(
        place_pulled(reference, Some("o".to_string()), vec![7], Classification::Deferred),
        PullProgress::AskArchiveLoader(PendingPull {
            artifact: vec![7],
            repository: "ns/foo".to_string(),
            output: Some("o".to_string()),
        })
    );
}
