//! What is handed to a registry and what comes back from it: credentials,
//! the protocol, and images made of layers.

use crate::artifact::{SupportedArtifacts, PROVIDER_ARCHIVE_MEDIA_TYPE, WASM_MEDIA_TYPE};
use vstd::prelude::*;
use vstd::string::*;

verus! {

/// How to authenticate to a registry.
#[derive(Clone, Debug, PartialEq, Eq)]
pub enum RegistryAuth {
    /// Without credentials.
    Anonymous,
    /// With a user name and a password.
    Basic(String, String),
}

/// A `RegistryAuth` with its texts as sequences of characters.
pub enum AuthView {
    Anonymous,
    Basic(Seq<char>, Seq<char>),
}

impl View for RegistryAuth {
    type V = AuthView;

    open spec fn view(&self) -> AuthView {
        match self {
            RegistryAuth::Anonymous => AuthView::Anonymous,
            RegistryAuth::Basic(user, password) => AuthView::Basic(user@, password@),
        }
    }
}

/// The protocol on which a registry is reached.
#[derive(Clone, Copy, Debug, PartialEq, Eq, Structural)]
pub enum ClientProtocol {
    Http,
    Https,
}

/// One typed chunk of an image.
#[derive(Clone, Debug, PartialEq, Eq)]
pub struct ImageLayer {
    pub data: Vec<u8>,
    pub media_type: String,
}

/// An `ImageLayer` as bytes and characters.
pub struct LayerView {
    pub data: Seq<u8>,
    pub media_type: Seq<char>,
}

impl View for ImageLayer {
    type V = LayerView;

    open spec fn view(&self) -> LayerView {
        LayerView { data: self.data@, media_type: self.media_type@ }
    }
}

/// An image: its layers in order and, where the registry reported one, its
/// digest.
#[derive(Clone, Debug, PartialEq, Eq)]
pub struct ImageData {
    pub layers: Vec<ImageLayer>,
    pub digest: Option<String>,
}

/// An `ImageData` as sequences.
pub struct ImageView {
    pub layers: Seq<LayerView>,
    pub digest: Option<Seq<char>>,
}

impl View for ImageData {
    type V = ImageView;

    open spec fn view(&self) -> ImageView {
        ImageView {
            layers: self.layers@.map_values(|layer: ImageLayer| layer@),
            digest: self.digest.deep_view(),
        }
    }
}

/// Basic credentials where both a user and a password are given, anonymous
/// access otherwise.
pub open spec fn credentials(user: Option<Seq<char>>, password: Option<Seq<char>>) -> AuthView {
    match (user, password) {
        (Some(u), Some(p)) => AuthView::Basic(u, p),
        _ => AuthView::Anonymous,
    }
}

/// Plain HTTP for an insecure registry, HTTPS otherwise.
pub open spec fn protocol(insecure: bool) -> ClientProtocol {
    if insecure {
        ClientProtocol::Http
    } else {
        ClientProtocol::Https
    }
}

/// The media types that a pull accepts: those of the two kinds of artifact.
pub open spec fn accepted() -> Seq<Seq<char>> {
    seq![PROVIDER_ARCHIVE_MEDIA_TYPE@, WASM_MEDIA_TYPE@]
}

/// The bytes of all layers, one layer behind the other.
pub open spec fn assembled(layers: Seq<LayerView>) -> Seq<u8>
    decreases layers.len(),
{
    if layers.len() == 0 {
        Seq::empty()
    } else {
        assembled(layers.drop_last()) + layers.last().data
    }
}

/// The image that carries one artifact: a single layer of the kind's media
/// type, and no digest.
pub open spec fn packaged(artifact: Seq<u8>, kind: SupportedArtifacts) -> ImageView {
    ImageView {
        layers: seq![LayerView { data: artifact, media_type: kind.media_type_spec() }],
        digest: None,
    }
}

/// Picks the credentials for a registry from what the caller supplied.
pub fn resolve_credentials(user: Option<String>, password: Option<String>) -> (auth: RegistryAuth)
    ensures
        auth@ == credentials(user.deep_view(), password.deep_view()),
{
    match (user, password) {
        (Some(u), Some(p)) => RegistryAuth::Basic(u, p),
        _ => RegistryAuth::Anonymous,
    }
}

/// Picks the protocol for a registry.
pub fn select_protocol(insecure: bool) -> (chosen: ClientProtocol)
    ensures
        chosen == protocol(insecure),
{
    if insecure {
        ClientProtocol::Http
    } else {
        ClientProtocol::Https
    }
}

/// The media types to ask a registry for.
pub fn accepted_media_types() -> (media_types: Vec<&'static str>)
    ensures
        media_types@.map_values(|m: &'static str| m@) == accepted(),
{
    let mut media_types: Vec<&'static str> = Vec::new();
    media_types.push(PROVIDER_ARCHIVE_MEDIA_TYPE);
    media_types.push(WASM_MEDIA_TYPE);
    assert(media_types@.map_values(|m: &'static str| m@) =~= accepted());
    media_types
}

/// Joins the layers of an image into the artifact that they carry.
pub fn assemble(layers: &Vec<ImageLayer>) -> (artifact: Vec<u8>)
    ensures
        artifact@ == assembled(layers@.map_values(|layer: ImageLayer| layer@)),
{
    let ghost views = layers@.map_values(|layer: ImageLayer| layer@);
    let mut artifact: Vec<u8> = Vec::new();
    let mut i: usize = 0;
    while i < layers.len()
        invariant
            i <= layers.len(),
            views == layers@.map_values(|layer: ImageLayer| layer@),
            artifact@ == assembled(views.take(i as int)),
        decreases layers.len() - i,
    {
        let ghost before = artifact@;
        artifact.extend_from_slice(layers[i].data.as_slice());
        proof {
            let next = views.take(i + 1);
            assert(next.drop_last() =~= views.take(i as int));
            assert(next.last() == layers@[i as int]@);
            assert(artifact@ =~= before + layers@[i as int].data@);
        }
        i += 1;
    }
    assert(views.take(i as int) =~= views);
    artifact
}

/// Wraps an artifact of a known kind into the image to push.
pub fn package(artifact: Vec<u8>, kind: SupportedArtifacts) -> (image: ImageData)
    ensures
        image@ == packaged(artifact@, kind),
{
    let layer = ImageLayer { data: artifact, media_type: String::from_str(kind.media_type()) };
    let mut layers: Vec<ImageLayer> = Vec::new();
    layers.push(layer);
    let image = ImageData { layers, digest: None };
    assert(image@.layers =~= packaged(artifact@, kind).layers);
    image
}

/// An artifact that is packaged and then assembled again comes back byte
/// for byte.
pub proof fn lemma_package_round_trip(artifact: Seq<u8>, kind: SupportedArtifacts)
    ensures
        assembled(packaged(artifact, kind).layers) == artifact,
{
    let layers = packaged(artifact, kind).layers;
    assert(layers.drop_last() =~= Seq::<LayerView>::empty());
    assert(assembled(layers.drop_last()) =~= Seq::<u8>::empty());
    assert(assembled(layers) =~= artifact);
}

} // verus!
