use lcontainer::image::{
    blob_url, classify_content_type, config_request, follow_manifest, layer_requests,
    select_platform, tag_manifest_request, token_url, Config, ImageHostConfig, ImageManifest, ImageManifestList, Layer,
    ManifestKind, MediaFamily, Manifest, Platform, RegistryError, TARGET_ARCH, TARGET_OS,
};
use lcontainer::launcher::{
    exit_code, resolve_command, resolve_env, split_env_entry, LaunchError, MountTracker,
};
use lcontainer::reference::{normalize_repository, parse_reference, ReferenceError};
use lcontainer::fetch::{is_fetching, next_pull_stage, PullStage};
use lcontainer::session::{is_teardown, next_stage, Stage};

fn strings(v: &[&str]) -> Vec<String> {
    v.iter().map(|s| s.to_string()).collect()
}

fn entry(digest: &str, arch: &str, os: &str) -> Manifest {
    Manifest {
        digest: digest.to_string(),
        media_type: String::new(),
        platform: Platform { architecture: arch.to_string(), os: os.to_string(), variant: None },
        size: 0,
    }
}

fn config_with(entrypoint: Option<Vec<String>>, cmd: &[&str], env: &[&str]) -> ImageHostConfig {
    ImageHostConfig { entrypoint, cmd: strings(cmd), env: strings(env), ..Default::default() }
}

#[test]
fn reference_without_tag_is_latest() {
    let r = parse_reference("alpine").unwrap();
    assert_eq!(r.repository, "alpine");
    assert_eq!(r.tag, "latest");
}

#[test]
fn reference_with_tag_splits() {
    let r = parse_reference("alpine:3.18").unwrap();
    assert_eq!(r.repository, "alpine");
    assert_eq!(r.tag, "3.18");
}

#[test]
fn reference_with_empty_tag() {
    let r = parse_reference("alpine:").unwrap();
    assert_eq!(r.repository, "alpine");
    assert_eq!(r.tag, "");
}

#[test]
fn reference_with_two_colons_fails() {
    assert_eq!(parse_reference("a:b:c").unwrap_err(), ReferenceError::TooManySeparators);
    assert_eq!(parse_reference("::").unwrap_err(), ReferenceError::TooManySeparators);
}

#[test]
fn repository_gets_default_namespace() {
    assert_eq!(normalize_repository("alpine"), "library/alpine");
    assert_eq!(normalize_repository("bitnami/redis"), "bitnami/redis");
}

#[test]
fn urls_name_repository_and_digest() {
    assert_eq!(
        token_url("library/alpine"),
        "https://auth.docker.io/token?service=registry.docker.io&scope=repository:library/alpine:pull"
    );
    assert_eq!(
        blob_url("library/alpine", "sha256:abc"),
        "https://index.docker.io/v2/library/alpine/blobs/sha256:abc"
    );
}

#[test]
fn content_types_are_classified() {
    assert_eq!(
        classify_content_type("application/vnd.docker.distribution.manifest.list.v2+json"),
        ManifestKind::List
    );
    assert_eq!(classify_content_type("application/vnd.oci.image.index.v1+json"), ManifestKind::Index);
    assert_eq!(
        classify_content_type("application/vnd.docker.distribution.manifest.v2+json"),
        ManifestKind::Single
    );
}

#[test]
fn first_matching_platform_is_selected() {
    let ms = vec![
        entry("sha256:arm", "arm64", "linux"),
        entry("sha256:win", "amd64", "windows"),
        entry("sha256:one", "amd64", "linux"),
        entry("sha256:two", "amd64", "linux"),
    ];
    assert_eq!(select_platform(&ms, TARGET_ARCH, TARGET_OS), Some(2));
    let list = ImageManifestList { manifests: ms, ..Default::default() };
    let req = follow_manifest("library/alpine", ManifestKind::List, &list, "amd64", "linux")
        .unwrap()
        .unwrap();
    assert_eq!(req.url, "https://index.docker.io/v2/library/alpine/manifests/sha256:one");
    assert_eq!(req.accept, strings(&["application/vnd.docker.distribution.manifest.v2+json"]));
    let oci = follow_manifest("library/alpine", ManifestKind::Index, &list, "amd64", "linux")
        .unwrap()
        .unwrap();
    assert_eq!(oci.accept, strings(&["application/vnd.oci.image.manifest.v1+json"]));
}

#[test]
fn missing_platform_fails() {
    let list = ImageManifestList {
        manifests: vec![entry("sha256:arm", "arm64", "linux")],
        ..Default::default()
    };
    assert_eq!(
        follow_manifest("library/alpine", ManifestKind::Index, &list, "amd64", "linux").unwrap_err(),
        RegistryError::PlatformNotFound
    );
}

#[test]
fn single_manifest_is_used_directly() {
    let list = ImageManifestList::default();
    assert!(follow_manifest("library/alpine", ManifestKind::Single, &list, "amd64", "linux")
        .unwrap()
        .is_none());
}

#[test]
fn layers_are_requested_in_manifest_order() {
    let layer = |d: &str| Layer { media_type: String::new(), size: 1, digest: d.to_string() };
    let m = ImageManifest {
        schema_version: 2,
        media_type: String::new(),
        config: Config { media_type: String::new(), size: 1, digest: "sha256:cfg".to_string() },
        layers: vec![layer("sha256:a"), layer("sha256:b")],
    };
    let reqs = layer_requests("library/alpine", &m, MediaFamily::Oci);
    assert_eq!(reqs.len(), 2);
    assert_eq!(reqs[0].url, "https://index.docker.io/v2/library/alpine/blobs/sha256:a");
    assert_eq!(reqs[1].url, "https://index.docker.io/v2/library/alpine/blobs/sha256:b");
    assert_eq!(reqs[1].accept, strings(&["application/vnd.oci.image.layer.v1.tar+gzip"]));
    let cfg = config_request("library/alpine", &m, MediaFamily::Docker);
    assert_eq!(cfg.url, "https://index.docker.io/v2/library/alpine/blobs/sha256:cfg");
    assert_eq!(cfg.accept, strings(&["application/vnd.docker.container.image.v1+json"]));
}

#[test]
fn env_entry_splits_at_first_equals() {
    assert_eq!(
        split_env_entry("PATH=/bin:/usr/bin"),
        Some(("PATH".to_string(), "/bin:/usr/bin".to_string()))
    );
    assert_eq!(split_env_entry("A=b=c"), Some(("A".to_string(), "b=c".to_string())));
    assert_eq!(split_env_entry("EMPTY="), Some(("EMPTY".to_string(), String::new())));
    assert_eq!(split_env_entry("NOEQUALSSIGN"), None);
}

#[test]
fn malformed_env_fails_resolution() {
    let cfg = config_with(Some(strings(&["/bin/sh"])), &[], &["A=1", "NOEQUALSSIGN"]);
    assert_eq!(resolve_command(&vec![], &cfg).unwrap_err(), LaunchError::MalformedEnv(1));
    assert_eq!(resolve_env(&cfg.env).unwrap_err(), LaunchError::MalformedEnv(1));
}

#[test]
fn image_command_is_entrypoint_then_cmd() {
    let cfg = config_with(
        Some(strings(&["/docker-entrypoint.sh", "ignored"])),
        &["nginx", "-g"],
        &["PATH=/usr/bin", "HOME=/root"],
    );
    let plan = resolve_command(&vec![], &cfg).unwrap();
    assert_eq!(plan.argv, strings(&["/docker-entrypoint.sh", "nginx", "-g"]));
    assert_eq!(
        plan.env,
        vec![
            ("PATH".to_string(), "/usr/bin".to_string()),
            ("HOME".to_string(), "/root".to_string())
        ]
    );
}

#[test]
fn override_arguments_are_verbatim() {
    let cfg = config_with(Some(strings(&["/entry"])), &["cmd"], &["X=1"]);
    let args = strings(&["/bin/echo", "hi"]);
    let plan = resolve_command(&args, &cfg).unwrap();
    assert_eq!(plan.argv, args);
    assert_eq!(plan.env, vec![("X".to_string(), "1".to_string())]);
    let no_entry = config_with(None, &["/bin/sh"], &[]);
    assert_eq!(resolve_command(&args, &no_entry).unwrap().argv, args);
}

#[test]
fn missing_entrypoint_without_arguments_fails() {
    let cfg = config_with(None, &[], &[]);
    assert_eq!(resolve_command(&vec![], &cfg).unwrap_err(), LaunchError::MissingEntrypoint);
    let empty = config_with(Some(vec![]), &[], &["A=1"]);
    assert_eq!(resolve_command(&vec![], &empty).unwrap_err(), LaunchError::MissingEntrypoint);
}

#[test]
fn null_entrypoint_starts_command() {
    let cfg = config_with(None, &["/bin/sh"], &[]);
    let plan = resolve_command(&vec![], &cfg).unwrap();
    assert_eq!(plan.argv, strings(&["/bin/sh"]));
    assert!(plan.env.is_empty());
    let empty = config_with(Some(vec![]), &["/bin/sh", "-c", "true"], &[]);
    assert_eq!(resolve_command(&vec![], &empty).unwrap().argv, strings(&["/bin/sh", "-c", "true"]));
}

#[test]
fn alpine_scenario_runs_shell_and_keeps_its_code() {
    let r = parse_reference("alpine:3.18").unwrap();
    assert_eq!(normalize_repository(&r.repository), "library/alpine");
    assert_eq!(r.tag, "3.18");
    let cfg = config_with(None, &["/bin/sh"], &["PATH=/usr/local/sbin:/usr/local/bin:/usr/sbin:/usr/bin:/sbin:/bin"]);
    let plan = resolve_command(&vec![], &cfg).unwrap();
    assert_eq!(plan.argv, strings(&["/bin/sh"]));
    assert_eq!(exit_code(Some(42)), 42);
}

#[test]
fn duplicate_env_keys_are_kept_in_order() {
    let cfg = config_with(Some(strings(&["/bin/sh"])), &[], &["A=1", "A=2"]);
    let plan = resolve_command(&vec![], &cfg).unwrap();
    assert_eq!(
        plan.env,
        vec![("A".to_string(), "1".to_string()), ("A".to_string(), "2".to_string())]
    );
}

#[test]
fn shell_image_without_arguments() {
    let cfg = config_with(Some(strings(&["/bin/sh"])), &[], &[]);
    let plan = resolve_command(&vec![], &cfg).unwrap();
    assert_eq!(plan.argv, strings(&["/bin/sh"]));
    assert!(plan.env.is_empty());
    assert_eq!(exit_code(Some(3)), 3);
}

#[test]
fn abnormal_exit_is_sentinel() {
    assert_eq!(exit_code(None), -1);
    assert_eq!(exit_code(Some(0)), 0);
}

#[test]
fn mounts_are_released_once() {
    let mut t = MountTracker::new();
    t.record("proc".to_string());
    assert_eq!(t.len(), 1);
    assert_eq!(t.release_all(), strings(&["proc"]));
    assert_eq!(t.len(), 0);
    assert!(t.release_all().is_empty());
}

fn run(mut stage: Stage, oks: &[bool]) -> (Stage, usize) {
    let mut teardowns = 0;
    for &ok in oks {
        if is_teardown(stage) {
            teardowns += 1;
        }
        stage = next_stage(stage, ok);
    }
    (stage, teardowns)
}

#[test]
fn successful_launch_walks_every_stage() {
    let mut stage = Stage::Created;
    let mut seen = vec![stage];
    while stage != Stage::Done {
        stage = next_stage(stage, true);
        seen.push(stage);
    }
    assert_eq!(
        seen,
        vec![
            Stage::Created,
            Stage::Cloned,
            Stage::JailEstablished,
            Stage::ProcMounted,
            Stage::CommandResolved,
            Stage::Spawned,
            Stage::Exited,
            Stage::Unmounted,
            Stage::Done
        ]
    );
    assert_eq!(run(Stage::Created, &[true; 12]), (Stage::Done, 1));
}

#[test]
fn failure_after_mount_still_releases_once() {
    assert_eq!(next_stage(Stage::ProcMounted, false), Stage::Exited);
    assert_eq!(run(Stage::ProcMounted, &[false, true, true, true]), (Stage::Done, 1));
    assert_eq!(run(Stage::CommandResolved, &[false, false, false, false, false]), (Stage::Done, 1));
}

#[test]
fn failure_before_mount_releases_nothing() {
    assert_eq!(next_stage(Stage::Cloned, false), Stage::Done);
    assert_eq!(run(Stage::Created, &[true, true, false, true, true, true]), (Stage::Done, 0));
}

#[test]
fn reference_with_empty_name_fails() {
    assert_eq!(parse_reference("").unwrap_err(), ReferenceError::EmptyRepository);
    assert_eq!(parse_reference(":3.18").unwrap_err(), ReferenceError::EmptyRepository);
    assert_eq!(parse_reference(":a:b").unwrap_err(), ReferenceError::TooManySeparators);
}

#[test]
fn tag_request_accepts_all_manifest_kinds() {
    let req = tag_manifest_request("library/alpine", "3.18");
    assert_eq!(req.url, "https://index.docker.io/v2/library/alpine/manifests/3.18");
    assert_eq!(
        req.accept,
        strings(&[
            "application/vnd.docker.distribution.manifest.v2+json",
            "application/vnd.docker.distribution.manifest.list.v2+json",
            "application/vnd.oci.image.index.v1+json"
        ])
    );
}

#[test]
fn index_follows_first_matching_digest() {
    let list = ImageManifestList {
        manifests: vec![
            entry("sha256:arm", "arm64", "linux"),
            entry("sha256:x86", "amd64", "linux"),
            entry("sha256:late", "amd64", "linux"),
        ],
        ..Default::default()
    };
    let req = follow_manifest("library/nginx", ManifestKind::Index, &list, TARGET_ARCH, TARGET_OS)
        .unwrap()
        .unwrap();
    assert_eq!(req.url, "https://index.docker.io/v2/library/nginx/manifests/sha256:x86");
}

#[test]
fn host_config_keys_are_checked() {
    let mut cfg = ImageHostConfig::default();
    assert!(cfg.is_well_formed());
    cfg.exposed_ports = Some(strings(&["80/tcp", "443/tcp"]));
    cfg.volumes = Some(vec![("/data".to_string(), String::new())]);
    assert!(cfg.is_well_formed());
    cfg.exposed_ports = Some(strings(&["80/tcp", "443/tcp", "80/tcp"]));
    assert!(!cfg.is_well_formed());
    cfg.exposed_ports = None;
    cfg.volumes = Some(vec![
        ("/data".to_string(), "a".to_string()),
        ("/data".to_string(), "b".to_string()),
    ]);
    assert!(!cfg.is_well_formed());
}

#[test]
fn pull_stages_follow_the_protocol() {
    let ok = Ok(());
    assert_eq!(next_pull_stage(PullStage::Auth, ok, false, 2), PullStage::TagManifest);
    assert_eq!(next_pull_stage(PullStage::TagManifest, ok, true, 2), PullStage::Config);
    assert_eq!(next_pull_stage(PullStage::TagManifest, ok, false, 2), PullStage::PlatformManifest);
    assert_eq!(next_pull_stage(PullStage::PlatformManifest, ok, false, 2), PullStage::Config);
    assert_eq!(next_pull_stage(PullStage::Config, ok, false, 2), PullStage::Layer(0));
    assert_eq!(next_pull_stage(PullStage::Layer(0), ok, false, 2), PullStage::Layer(1));
    assert_eq!(next_pull_stage(PullStage::Layer(1), ok, false, 2), PullStage::Done);
    assert_eq!(next_pull_stage(PullStage::Config, ok, true, 0), PullStage::Done);
    assert!(!is_fetching(PullStage::Done));
}

#[test]
fn pull_failure_stops_every_request() {
    let missing = Err(RegistryError::PlatformNotFound);
    let failed = next_pull_stage(PullStage::PlatformManifest, missing, false, 3);
    assert_eq!(failed, PullStage::Failed(RegistryError::PlatformNotFound));
    assert!(!is_fetching(failed));
    assert_eq!(next_pull_stage(failed, Ok(()), false, 3), failed);
    assert_eq!(
        next_pull_stage(PullStage::Auth, Err(RegistryError::Auth), false, 0),
        PullStage::Failed(RegistryError::Auth)
    );
}
