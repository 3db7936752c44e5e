use wascap::jwt::{Actor, Claims};
use wascap::prelude::KeyPair;
use wash::artifact::{ArchiveProbe, Classification, SupportedArtifacts};
use wash::error::{Operation, RegError};
use wash::reference::ArtifactReference;
use wash::reg::{
    configuration, handle_command, handle_pull, handle_push, place_loaded, prepare_upload,
    pull_archive_probed, pull_received, push_archive_probed, push_loaded, LoadRequest,
    OutputFile, PendingPush, PullCommand, PullProgress, PushCommand, PushProgress, PushRequest,
    RegCli, RegCliCommand, RegRequest,
};
use wash::registry::{package, ClientProtocol, ImageData, ImageLayer, RegistryAuth};

const BLANK_MODULE: [u8; 8] = [0x00, 0x61, 0x73, 0x6d, 0x01, 0x00, 0x00, 0x00];
const WASM_LAYER: &str = "application/vnd.module.wasm.content.layer.v1+wasm";
const WASM_CONFIG: &str = "application/vnd.wascc.actor.archive.config";
const PAR_LAYER: &str = "application/vnd.wascc.provider.archive.layer.v1+par";
const PAR_CONFIG: &str = "application/vnd.wascc.provider.archive.config";

fn claims_bearing_module() -> Vec<u8> {
    let account = KeyPair::new_account();
    let module = KeyPair::new_module();
    let claims = Claims::<Actor>::new(
        "foo".to_string(),
        account.public_key(),
        module.public_key(),
        None,
        None,
        false,
        Some(1),
        Some("0.1.0".to_string()),
    );
    wascap::wasm::embed_claims(&BLANK_MODULE, &claims, &account).unwrap()
}

fn push(url: &str) -> PushCommand {
    PushCommand {
        url: url.to_string(),
        artifact: "foo.wasm".to_string(),
        user: None,
        password: None,
        config: None,
        insecure: false,
        allow_latest: false,
    }
}

fn foo_v1() -> ArtifactReference {
    ArtifactReference {
        registry: "registry.example.com".to_string(),
        repository: "ns/foo".to_string(),
        tag: Some("v1".to_string()),
    }
}

fn load_request() -> LoadRequest {
    LoadRequest {
        url: "registry.example.com/ns/foo:v1".to_string(),
        image: foo_v1(),
        artifact: "foo.wasm".to_string(),
        config: None,
        auth: RegistryAuth::Anonymous,
        protocol: ClientProtocol::Https,
    }
}

fn upload_of(artifact: Vec<u8>, config: Vec<u8>, layer: &str, config_type: &'static str)
    -> PushRequest {
    PushRequest {
        url: "registry.example.com/ns/foo:v1".to_string(),
        image: foo_v1(),
        image_data: ImageData {
            layers: vec![ImageLayer { data: artifact, media_type: layer.to_string() }],
            digest: None,
        },
        config,
        config_media_type: config_type,
        auth: RegistryAuth::Anonymous,
        protocol: ClientProtocol::Https,
    }
}

#[test]
fn handle_push_plans_the_reading() {
    let cmd = PushCommand {
        url: "registry.example.com/ns/foo:v1".to_string(),
        artifact: "build/foo.wasm".to_string(),
        user: Some("u".to_string()),
        password: Some("p".to_string()),
        config: Some("config.json".to_string()),
        insecure: true,
        allow_latest: false,
    };
    assert_eq!(
        handle_push(cmd),
        Ok(LoadRequest {
            url: "registry.example.com/ns/foo:v1".to_string(),
            image: foo_v1(),
            artifact: "build/foo.wasm".to_string(),
            config: Some("config.json".to_string()),
            auth: RegistryAuth::Basic("u".to_string(), "p".to_string()),
            protocol: ClientProtocol::Http,
        })
    );
}

#[test]
fn handle_push_rejects_a_malformed_reference() {
    assert_eq!(handle_push(push("")), Err(RegError::MalformedReference));
    assert_eq!(handle_push(push("registry.example.com/ns/FOO:v1")), Err(RegError::MalformedReference));
}

#[test]
fn push_without_a_tag_is_malformed() {
    assert_eq!(handle_push(push("registry.example.com/ns/foo")), Err(RegError::MalformedReference));
    let mut allowed = push("registry.example.com/ns/foo");
    allowed.allow_latest = true;
    assert_eq!(handle_push(allowed), Err(RegError::MalformedReference));
    let digest = format!("registry.example.com/ns/foo@sha256:{}", "f".repeat(64));
    assert_eq!(handle_push(push(&digest)), Err(RegError::MalformedReference));
}

#[test]
fn push_to_latest_is_a_policy_violation() {
    assert_eq!(
        handle_push(push("registry.example.com/ns/foo:latest")),
        Err(RegError::PolicyViolation(Operation::Push))
    );
    let mut allowed = push("registry.example.com/ns/foo:latest");
    allowed.allow_latest = true;
    assert_eq!(handle_push(allowed).unwrap().image.tag, Some("latest".to_string()));
}

#[test]
fn handle_command_starts_a_push() {
    let cli = RegCli { command: RegCliCommand::Push(push("registry.example.com/ns/foo:v1")) };
    assert_eq!(handle_command(cli), Ok(RegRequest::Load(load_request())));
    let latest = RegCli { command: RegCliCommand::Push(push("registry.example.com/ns/foo:latest")) };
    assert_eq!(handle_command(latest), Err(RegError::PolicyViolation(Operation::Push)));
}

#[test]
fn configuration_defaults_to_an_empty_object() {
    assert_eq!(configuration(None), b"{}".to_vec());
    assert_eq!(configuration(Some(b"{\"a\":1}".to_vec())), b"{\"a\":1}".to_vec());
    assert_eq!(configuration(Some(Vec::new())), Vec::<u8>::new());
}

#[test]
fn package_is_one_layer_without_a_digest() {
    assert_eq!(
        package(vec![1, 2, 3], SupportedArtifacts::Par),
        ImageData {
            layers: vec![ImageLayer { data: vec![1, 2, 3], media_type: PAR_LAYER.to_string() }],
            digest: None,
        }
    );
}

#[test]
fn push_of_a_module_without_a_config_file() {
    let module = claims_bearing_module();
    let request = handle_push(push("registry.example.com/ns/foo:v1")).unwrap();
    assert_eq!(
        push_loaded(request, module.clone(), None),
        PushProgress::Upload(upload_of(module, b"{}".to_vec(), WASM_LAYER, WASM_CONFIG))
    );
}

#[test]
fn push_sends_the_config_file() {
    let module = claims_bearing_module();
    assert_eq!(
        push_loaded(load_request(), module.clone(), Some(b"{\"k\":true}".to_vec())),
        PushProgress::Upload(upload_of(module, b"{\"k\":true}".to_vec(), WASM_LAYER, WASM_CONFIG))
    );
}

#[test]
fn push_of_other_bytes_asks_the_archive_loader() {
    let pending = PendingPush {
        request: load_request(),
        artifact: b"archive".to_vec(),
        config: b"{}".to_vec(),
    };
    assert_eq!(
        push_loaded(load_request(), b"archive".to_vec(), None),
        PushProgress::AskArchiveLoader(pending.clone())
    );
    assert_eq!(
        push_archive_probed(pending.clone(), ArchiveProbe::Loaded),
        Ok(upload_of(b"archive".to_vec(), b"{}".to_vec(), PAR_LAYER, PAR_CONFIG))
    );
    assert_eq!(
        push_archive_probed(pending, ArchiveProbe::Rejected),
        Err(RegError::UnsupportedArtifact("foo.wasm".to_string()))
    );
}

#[test]
fn place_loaded_follows_the_first_attempt() {
    assert_eq!(
        place_loaded(
            load_request(),
            vec![1],
            vec![2],
            Classification::Classified(SupportedArtifacts::Wasm)
        ),
        PushProgress::Upload(upload_of(vec![1], vec![2], WASM_LAYER, WASM_CONFIG))
    );
    assert_eq!(
        place_loaded(load_request(), vec![1], vec![2], Classification::Deferred),
        PushProgress::AskArchiveLoader(PendingPush {
            request: load_request(),
            artifact: vec![1],
            config: vec![2],
        })
    );
    assert_eq!(
        prepare_upload(load_request(), vec![1], vec![2], SupportedArtifacts::Par),
        upload_of(vec![1], vec![2], PAR_LAYER, PAR_CONFIG)
    );
}

#[test]
fn what_is_pushed_is_what_is_pulled() {
    let module = claims_bearing_module();
    let pushed = match push_loaded(load_request(), module.clone(), None) {
        PushProgress::Upload(request) => request.image_data,
        PushProgress::AskArchiveLoader(_) => panic!("a module with claims is not deferred"),
    };
    let cmd = PullCommand {
        url: "registry.example.com/ns/foo:v1".to_string(),
        user: None,
        password: None,
        output: None,
        digest: None,
        insecure: false,
        allow_latest: false,
    };
    let request = handle_pull(cmd).unwrap();
    // The registry hands the same layers back and reports a digest of its own.
    let served = ImageData { layers: pushed.layers, digest: Some("sha256:00".to_string()) };
    assert_eq!(
        pull_received(request, served),
        Ok(PullProgress::Write(OutputFile { outfile: "foo.wasm".to_string(), artifact: module }))
    );
}

#[test]
fn an_archive_that_is_pushed_is_pulled_unchanged() {
    let archive = b"bytes of some archive".to_vec();
    let pending = match push_loaded(load_request(), archive.clone(), None) {
        PushProgress::AskArchiveLoader(pending) => pending,
        PushProgress::Upload(_) => panic!("bytes without claims are deferred"),
    };
    let pushed = push_archive_probed(pending, ArchiveProbe::Loaded).unwrap().image_data;
    let cmd = PullCommand {
        url: "registry.example.com/ns/foo:v1".to_string(),
        user: None,
        password: None,
        output: None,
        digest: None,
        insecure: false,
        allow_latest: false,
    };
    let request = handle_pull(cmd).unwrap();
    let pending = match pull_received(request, pushed).unwrap() {
        PullProgress::AskArchiveLoader(pending) => pending,
        PullProgress::Write(_) => panic!("bytes without claims are deferred"),
    };
    assert_eq!(
        pull_archive_probed(pending, ArchiveProbe::Loaded),
        Ok(OutputFile { outfile: "foo.par.gz".to_string(), artifact: archive })
    );
}
