//! Image data model and the registry protocol's decisions: which requests to
//! make, with which accepted media types, and which platform entry to follow.
use vstd::prelude::*;
use vstd::string::StrSliceExecFns;
use vstd::string::StringExecFns;
use crate::reference::ReferenceError;

verus! {

pub const REGISTRY_BASE: &'static str = "https://index.docker.io/v2/";

pub const AUTH_BASE: &'static str =
    "https://auth.docker.io/token?service=registry.docker.io&scope=repository:";

pub const PULL_SCOPE: &'static str = ":pull";

pub const MANIFESTS_PATH: &'static str = "/manifests/";

pub const BLOBS_PATH: &'static str = "/blobs/";

pub const DOCKER_MANIFEST: &'static str = "application/vnd.docker.distribution.manifest.v2+json";

pub const DOCKER_MANIFEST_LIST: &'static str =
    "application/vnd.docker.distribution.manifest.list.v2+json";

pub const DOCKER_CONFIG: &'static str = "application/vnd.docker.container.image.v1+json";

pub const OCI_INDEX: &'static str = "application/vnd.oci.image.index.v1+json";

pub const OCI_MANIFEST: &'static str = "application/vnd.oci.image.manifest.v1+json";

pub const OCI_CONFIG: &'static str = "application/vnd.oci.image.config.v1+json";

/// The platform that images are pulled for.
pub const TARGET_ARCH: &'static str = "amd64";

pub const TARGET_OS: &'static str = "linux";

pub const OCI_LAYER: &'static str = "application/vnd.oci.image.layer.v1.tar+gzip";

#[derive(Default, Debug, Clone, PartialEq)]
pub struct ImageManifestList {
    pub manifests: Vec<Manifest>,
    pub media_type: String,
    pub schema_version: i64,
}

#[derive(Default, Debug, Clone, PartialEq)]
pub struct Manifest {
    pub digest: String,
    pub media_type: String,
    pub platform: Platform,
    pub size: i64,
}

#[derive(Default, Debug, Clone, PartialEq)]
pub struct Platform {
    pub architecture: String,
    pub os: String,
    pub variant: Option<String>,
}

#[derive(Default, Debug, Clone, PartialEq)]
pub struct ImageManifest {
    pub schema_version: i64,
    pub media_type: String,
    pub config: Config,
    pub layers: Vec<Layer>,
}

#[derive(Default, Debug, Clone, PartialEq)]
pub struct Config {
    pub media_type: String,
    pub size: i64,
    pub digest: String,
}

#[derive(Default, Debug, Clone, PartialEq)]
pub struct Layer {
    pub media_type: String,
    pub size: i64,
    pub digest: String,
}

#[derive(Default, Debug, Clone, PartialEq)]
pub struct ImageConfig {
    pub architecture: String,
    pub config: ImageHostConfig,
    pub container: String,
    pub created: String,
    pub docker_version: String,
    pub os: String,
}

/// The runtime part of an image's configuration. Exposed ports are kept by
/// name and volumes as (path, value) pairs; see `well_formed` for the keys.
#[derive(Default, Debug, Clone, PartialEq)]
pub struct ImageHostConfig {
    pub hostname: String,
    pub domainname: String,
    pub user: String,
    pub attach_stdin: bool,
    pub attach_stdout: bool,
    pub attach_stderr: bool,
    pub exposed_ports: Option<Vec<String>>,
    pub tty: bool,
    pub open_stdin: bool,
    pub stdin_once: bool,
    pub env: Vec<String>,
    pub cmd: Vec<String>,
    pub image: String,
    pub volumes: Option<Vec<(String, String)>>,
    pub working_dir: String,
    pub entrypoint: Option<Vec<String>>,
}

/// No two entries of `s` are equal.
pub open spec fn distinct(s: Seq<String>) -> bool {
    forall|i: int, j: int| 0 <= i < j < s.len() ==> s[i]@ != s[j]@
}

/// No two entries of `v` have equal first components.
pub open spec fn distinct_keys(v: Seq<(String, String)>) -> bool {
    forall|i: int, j: int| 0 <= i < j < v.len() ==> v[i].0@ != v[j].0@
}

impl ImageHostConfig {
    /// Exposed ports and volume paths are keys of the decoded document: each
    /// appears at most once.
    pub open spec fn well_formed(&self) -> bool {
        &&& (self.exposed_ports matches Some(p) ==> distinct(p@))
        &&& (self.volumes matches Some(v) ==> distinct_keys(v@))
    }

    /// Whether the keys of this configuration are unique.
    pub fn is_well_formed(&self) -> (r: bool)
        ensures
            r == self.well_formed(),
    {
        let ports_ok = match &self.exposed_ports {
            Some(p) => distinct_strings(p),
            None => true,
        };
        let volumes_ok = match &self.volumes {
            Some(v) => distinct_first(v),
            None => true,
        };
        ports_ok && volumes_ok
    }
}

fn distinct_strings(v: &Vec<String>) -> (r: bool)
    ensures
        r == distinct(v@),
{
    let n = v.len();
    let mut i: usize = 0;
    while i < n
        invariant
            n == v@.len(),
            i <= n,
            forall|a: int, b: int| 0 <= a < i && a < b < n ==> v@[a]@ != v@[b]@,
        decreases n - i,
    {
        let mut j: usize = i + 1;
        while j < n
            invariant
                n == v@.len(),
                i < n,
                i + 1 <= j <= n,
                forall|a: int, b: int| 0 <= a < i && a < b < n ==> v@[a]@ != v@[b]@,
                forall|b: int| i < b < j ==> v@[i as int]@ != v@[b]@,
            decreases n - j,
        {
            if same_text(v[i].as_str(), v[j].as_str()) {
                return false;
            }
            j = j + 1;
        }
        i = i + 1;
    }
    true
}

fn distinct_first(v: &Vec<(String, String)>) -> (r: bool)
    ensures
        r == distinct_keys(v@),
{
    let n = v.len();
    let mut i: usize = 0;
    while i < n
        invariant
            n == v@.len(),
            i <= n,
            forall|a: int, b: int| 0 <= a < i && a < b < n ==> v@[a].0@ != v@[b].0@,
        decreases n - i,
    {
        let mut j: usize = i + 1;
        while j < n
            invariant
                n == v@.len(),
                i < n,
                i + 1 <= j <= n,
                forall|a: int, b: int| 0 <= a < i && a < b < n ==> v@[a].0@ != v@[b].0@,
                forall|b: int| i < b < j ==> v@[i as int].0@ != v@[b].0@,
            decreases n - j,
        {
            if same_text(v[i].0.as_str(), v[j].0.as_str()) {
                return false;
            }
            j = j + 1;
        }
        i = i + 1;
    }
    true
}

/// The errors of one resolution.
#[derive(Debug, Clone, Copy, PartialEq, Eq, Structural)]
pub enum RegistryError {
    /// The reference is not `name` or `name:tag`.
    Reference(ReferenceError),
    /// No access token could be had for the repository.
    Auth,
    /// A manifest request failed in transport.
    Network,
    /// A manifest response is not a manifest, list or index that decodes.
    UnsupportedManifestType,
    /// No entry of a list or index is built for the target platform.
    PlatformNotFound,
    /// The configuration blob does not decode.
    ConfigDecode,
    /// A configuration or layer blob could not be fetched.
    BlobFetch,
    /// A layer could not be decompressed or unpacked.
    Extraction,
}

/// How a manifest response is handled, by its declared content type.
#[derive(Debug, Clone, Copy, PartialEq, Eq, Structural)]
pub enum ManifestKind {
    /// A list of per-platform manifests in the generic family.
    List,
    /// An image index in the OCI family.
    Index,
    /// A single-platform manifest, used as it is.
    Single,
}

/// The media-type family that later requests advertise.
#[derive(Debug, Clone, Copy, PartialEq, Eq, Structural)]
pub enum MediaFamily {
    Docker,
    Oci,
}

/// One authenticated GET against the registry.
#[derive(Debug, Clone)]
pub struct Request {
    pub url: String,
    pub accept: Vec<String>,
}

pub open spec fn token_url_spec(repo: Seq<char>) -> Seq<char> {
    AUTH_BASE@ + repo + PULL_SCOPE@
}

pub open spec fn manifest_url_spec(repo: Seq<char>, reference: Seq<char>) -> Seq<char> {
    REGISTRY_BASE@ + repo + MANIFESTS_PATH@ + reference
}

pub open spec fn blob_url_spec(repo: Seq<char>, digest: Seq<char>) -> Seq<char> {
    REGISTRY_BASE@ + repo + BLOBS_PATH@ + digest
}

pub open spec fn kind_of(content_type: Seq<char>) -> ManifestKind {
    if content_type == DOCKER_MANIFEST_LIST@ {
        ManifestKind::List
    } else if content_type == OCI_INDEX@ {
        ManifestKind::Index
    } else {
        ManifestKind::Single
    }
}

pub open spec fn platform_matches(m: Manifest, arch: Seq<char>, os: Seq<char>) -> bool {
    m.platform.architecture@ == arch && m.platform.os@ == os
}

/// The accepted types of a request for the manifest found in a list or index.
pub open spec fn platform_manifest_accept(family: MediaFamily) -> Seq<char> {
    match family {
        MediaFamily::Docker => DOCKER_MANIFEST@,
        MediaFamily::Oci => OCI_MANIFEST@,
    }
}

pub open spec fn config_accept(family: MediaFamily) -> Seq<char> {
    match family {
        MediaFamily::Docker => DOCKER_CONFIG@,
        MediaFamily::Oci => OCI_CONFIG@,
    }
}

pub open spec fn layer_accept(family: MediaFamily) -> Seq<char> {
    match family {
        MediaFamily::Docker => DOCKER_MANIFEST@,
        MediaFamily::Oci => OCI_LAYER@,
    }
}

/// Character-wise equality of two strings.
pub fn same_text(a: &str, b: &str) -> (r: bool)
    ensures
        r == (a@ == b@),
{
    let n = a.unicode_len();
    if n != b.unicode_len() {
        return false;
    }
    let mut i: usize = 0;
    while i < n
        invariant
            n == a@.len(),
            n == b@.len(),
            i <= n,
            forall|k: int| 0 <= k < i ==> a@[k] == b@[k],
        decreases n - i,
    {
        if a.get_char(i) != b.get_char(i) {
            return false;
        }
        i = i + 1;
    }
    assert(a@ =~= b@);
    true
}

/// Which path a manifest response takes, by its content type.
pub fn classify_content_type(content_type: &str) -> (r: ManifestKind)
    ensures
        r == kind_of(content_type@),
{
    if same_text(content_type, DOCKER_MANIFEST_LIST) {
        ManifestKind::List
    } else if same_text(content_type, OCI_INDEX) {
        ManifestKind::Index
    } else {
        ManifestKind::Single
    }
}

pub open spec fn family_of_spec(kind: ManifestKind) -> MediaFamily {
    if kind == ManifestKind::Index {
        MediaFamily::Oci
    } else {
        MediaFamily::Docker
    }
}

/// The family that requests made after a response of kind `kind` advertise.
pub fn family_of(kind: ManifestKind) -> (r: MediaFamily)
    ensures
        r == family_of_spec(kind),
{
    match kind {
        ManifestKind::Index => MediaFamily::Oci,
        _ => MediaFamily::Docker,
    }
}

/// The token endpoint for pulling `repo`.
pub fn token_url(repo: &str) -> (r: String)
    ensures
        r@ == token_url_spec(repo@),
{
    String::from_str(AUTH_BASE).concat(repo).concat(PULL_SCOPE)
}

/// The manifest endpoint for `reference` (a tag or a digest) in `repo`.
pub fn manifest_url(repo: &str, reference: &str) -> (r: String)
    ensures
        r@ == manifest_url_spec(repo@, reference@),
{
    String::from_str(REGISTRY_BASE).concat(repo).concat(MANIFESTS_PATH).concat(reference)
}

/// The blob endpoint for `digest` in `repo`.
pub fn blob_url(repo: &str, digest: &str) -> (r: String)
    ensures
        r@ == blob_url_spec(repo@, digest@),
{
    String::from_str(REGISTRY_BASE).concat(repo).concat(BLOBS_PATH).concat(digest)
}

/// The first request for a tag: it accepts a single manifest, a list or an
/// image index.
pub fn tag_manifest_request(repo: &str, tag: &str) -> (r: Request)
    ensures
        r.url@ == manifest_url_spec(repo@, tag@),
        r.accept@.len() == 3,
        r.accept@[0]@ == DOCKER_MANIFEST@,
        r.accept@[1]@ == DOCKER_MANIFEST_LIST@,
        r.accept@[2]@ == OCI_INDEX@,
{
    let accept = vec![
        String::from_str(DOCKER_MANIFEST),
        String::from_str(DOCKER_MANIFEST_LIST),
        String::from_str(OCI_INDEX),
    ];
    Request { url: manifest_url(repo, tag), accept }
}

/// The index of the first entry, in list order, built for `arch` and `os`.
pub fn select_platform(manifests: &Vec<Manifest>, arch: &str, os: &str) -> (r: Option<usize>)
    ensures
        r matches Some(i) ==> i < manifests@.len() && platform_matches(manifests@[i as int], arch@, os@)
            && forall|j: int| 0 <= j < i ==> !platform_matches(manifests@[j], arch@, os@),
        r is None ==> forall|j: int|
            0 <= j < manifests@.len() ==> !platform_matches(manifests@[j], arch@, os@),
{
    let mut i: usize = 0;
    while i < manifests.len()
        invariant
            i <= manifests@.len(),
            forall|j: int| 0 <= j < i ==> !platform_matches(manifests@[j], arch@, os@),
        decreases manifests@.len() - i,
    {
        let p = &manifests[i].platform;
        if same_text(p.architecture.as_str(), arch) && same_text(p.os.as_str(), os) {
            return Some(i);
        }
        i = i + 1;
    }
    None
}

/// `req` asks, with the accepted type of `family`, for the first manifest of
/// `manifests` built for `arch` and `os`.
pub open spec fn chosen_request(
    req: Request,
    repo: Seq<char>,
    manifests: Seq<Manifest>,
    arch: Seq<char>,
    os: Seq<char>,
    family: MediaFamily,
) -> bool {
    exists|i: int|
        0 <= i < manifests.len() && platform_matches(manifests[i], arch, os) && (forall|j: int|
            0 <= j < i ==> !platform_matches(manifests[j], arch, os)) && req.url@
            == manifest_url_spec(repo, manifests[i].digest@) && req.accept@.len() == 1
            && req.accept@[0]@ == platform_manifest_accept(family)
}

/// The request for the platform manifest chosen from a list or an index: it
/// names the entry's digest and accepts the single-manifest type of `family`.
pub fn platform_manifest_request(
    repo: &str,
    list: &ImageManifestList,
    arch: &str,
    os: &str,
    family: MediaFamily,
) -> (r: Result<Request, RegistryError>)
    ensures
        r is Err <==> forall|j: int|
            0 <= j < list.manifests@.len() ==> !platform_matches(list.manifests@[j], arch@, os@),
        r is Err ==> r->Err_0 == RegistryError::PlatformNotFound,
        r matches Ok(req) ==> chosen_request(req, repo@, list.manifests@, arch@, os@, family),
{
    match select_platform(&list.manifests, arch, os) {
        None => Err(RegistryError::PlatformNotFound),
        Some(i) => {
            let accept = match family {
                MediaFamily::Docker => String::from_str(DOCKER_MANIFEST),
                MediaFamily::Oci => String::from_str(OCI_MANIFEST),
            };
            let url = manifest_url(repo, list.manifests[i].digest.as_str());
            Ok(Request { url, accept: vec![accept] })
        },
    }
}

/// The request for the image configuration blob of `manifest`.
pub fn config_request(repo: &str, manifest: &ImageManifest, family: MediaFamily) -> (r: Request)
    ensures
        r.url@ == blob_url_spec(repo@, manifest.config.digest@),
        r.accept@.len() == 1,
        r.accept@[0]@ == config_accept(family),
{
    let accept = match family {
        MediaFamily::Docker => String::from_str(DOCKER_CONFIG),
        MediaFamily::Oci => String::from_str(OCI_CONFIG),
    };
    Request { url: blob_url(repo, manifest.config.digest.as_str()), accept: vec![accept] }
}

/// One request per layer blob, in manifest order: extracting them in this
/// order lets a later layer's files replace an earlier one's.
pub fn layer_requests(repo: &str, manifest: &ImageManifest, family: MediaFamily) -> (r: Vec<
    Request,
>)
    ensures
        r@.len() == manifest.layers@.len(),
        forall|i: int|
            0 <= i < r@.len() ==> r@[i].url@ == blob_url_spec(repo@, manifest.layers@[i].digest@)
                && r@[i].accept@.len() == 1 && r@[i].accept@[0]@ == layer_accept(family),
{
    let mut out: Vec<Request> = Vec::new();
    let mut i: usize = 0;
    while i < manifest.layers.len()
        invariant
            i <= manifest.layers@.len(),
            out@.len() == i,
            forall|k: int|
                0 <= k < i ==> out@[k].url@ == blob_url_spec(repo@, manifest.layers@[k].digest@)
                    && out@[k].accept@.len() == 1 && out@[k].accept@[0]@ == layer_accept(family),
        decreases manifest.layers@.len() - i,
    {
        let accept = match family {
            MediaFamily::Docker => String::from_str(DOCKER_MANIFEST),
            MediaFamily::Oci => String::from_str(OCI_LAYER),
        };
        let url = blob_url(repo, manifest.layers[i].digest.as_str());
        out.push(Request { url, accept: vec![accept] });
        i = i + 1;
    }
    out
}

} // verus!

verus! {

/// What follows a response to the tag request of kind `kind`, whose body,
/// for a list or an index, is `list`: the request for the platform manifest
/// (in the OCI family after an index), or none where the response already is
/// the single manifest.
pub fn follow_manifest(
    repo: &str,
    kind: ManifestKind,
    list: &ImageManifestList,
    arch: &str,
    os: &str,
) -> (r: Result<Option<Request>, RegistryError>)
    ensures
        kind == ManifestKind::Single <==> r matches Ok(None),
        kind != ManifestKind::Single ==> (r is Err <==> forall|j: int|
            0 <= j < list.manifests@.len() ==> !platform_matches(list.manifests@[j], arch@, os@)),
        r is Err ==> r->Err_0 == RegistryError::PlatformNotFound,
        r matches Ok(Some(req)) ==> kind != ManifestKind::Single && chosen_request(
            req,
            repo@,
            list.manifests@,
            arch@,
            os@,
            family_of_spec(kind),
        ),
{
    match kind {
        ManifestKind::Single => Ok(None),
        _ => match platform_manifest_request(repo, list, arch, os, family_of(kind)) {
            Ok(req) => Ok(Some(req)),
            Err(e) => Err(e),
        },
    }
}

} // verus!
