use go_updater::{GoFile, GoRelease, UpdateAction, UpdateError, UpdateEvent, UpdateOutcome, UpdateState};

fn file(name: &str, os: &str, arch: &str, kind: &str) -> GoFile {
    GoFile {
        filename: name.into(),
        os: os.into(),
        arch: arch.into(),
        sha256: format!("sha-of-{name}"),
        kind: kind.into(),
        size: None,
    }
}

fn release(version: &str, stable: bool, files: Vec<GoFile>) -> GoRelease {
    GoRelease { version: version.into(), stable, files }
}

fn step(state: UpdateState, event: UpdateEvent<String>) -> (UpdateState, UpdateAction<String>) {
    assert!(state.expects(&event));
    state.step(event)
}

fn releases() -> Vec<GoRelease> {
    vec![
        release("go1.26rc1", false, vec![]),
        release(
            "go1.25.2",
            true,
            vec![
                file("go1.25.2.src.tar.gz", "", "", "source"),
                file("go1.25.2.linux-amd64.zip", "linux", "amd64", "archive"),
                file("go1.25.2.linux-amd64.tar.gz", "linux", "amd64", "archive"),
                file("go1.25.2.linux-amd64-again.tar.gz", "linux", "amd64", "archive"),
            ],
        ),
        release("go1.24.8", true, vec![]),
    ]
}

#[test]
fn inline_list_is_decoded_without_fetching() {
    let (state, action) = UpdateState::start::<String>("x86_64", Some("[]".into()), Some("http://x".into()));
    assert!(matches!(state, UpdateState::DecodingReleaseList { ref arch } if arch == "amd64"));
    assert!(matches!(action, UpdateAction::DecodeReleaseList { ref json } if json == "[]"));
}

#[test]
fn list_url_can_be_overridden() {
    let (_, action) = UpdateState::start::<String>("aarch64", None, Some("http://mirror/dl".into()));
    assert!(matches!(action, UpdateAction::FetchReleaseList { ref url } if url == "http://mirror/dl"));
    let (state, action) = UpdateState::start::<String>("aarch64", None, None);
    assert!(matches!(state, UpdateState::FetchingReleaseList { ref arch } if arch == "arm64"));
    assert!(matches!(action, UpdateAction::FetchReleaseList { ref url } if url == "https://go.dev/dl/?mode=json"));
}

#[test]
fn full_update_walks_every_step() {
    let (s, a) = UpdateState::start::<String>("x86_64", None, None);
    assert!(matches!(a, UpdateAction::FetchReleaseList { .. }));
    let (s, a) = step(s, UpdateEvent::ReleaseListFetched(Ok("json".into())));
    assert!(matches!(a, UpdateAction::DecodeReleaseList { ref json } if json == "json"));
    let (s, a) = step(s, UpdateEvent::ReleaseListDecoded(Ok(releases())));
    assert!(matches!(a, UpdateAction::QueryLocalVersion));
    match &s {
        UpdateState::CheckingLocalVersion { latest, latest_version, .. } => {
            assert_eq!(latest.version, "go1.25.2");
            assert_eq!(latest_version.minor, 25);
        }
        other => panic!("unexpected {other:?}"),
    }
    let (s, a) = step(s, UpdateEvent::LocalVersion(Ok("go1.24.8".into())));
    assert!(matches!(a, UpdateAction::ResolveDownloadPath { ref filename } if filename == "go1.25.2.linux-amd64.tar.gz"));
    let (s, a) = step(s, UpdateEvent::DownloadPath("/tmp/go1.25.2.linux-amd64.tar.gz".into()));
    match &a {
        UpdateAction::Download { url, dest } => {
            assert_eq!(url, "https://go.dev/dl/go1.25.2.linux-amd64.tar.gz");
            assert_eq!(dest, "/tmp/go1.25.2.linux-amd64.tar.gz");
        }
        other => panic!("unexpected {other:?}"),
    }
    let (s, a) = step(s, UpdateEvent::Downloaded(Ok(())));
    match &a {
        UpdateAction::VerifyChecksum { path, sha256 } => {
            assert_eq!(path, "/tmp/go1.25.2.linux-amd64.tar.gz");
            assert_eq!(sha256, "sha-of-go1.25.2.linux-amd64.tar.gz");
        }
        other => panic!("unexpected {other:?}"),
    }
    let (s, a) = step(s, UpdateEvent::ChecksumVerified(Ok(())));
    assert!(matches!(a, UpdateAction::Install { ref command }
        if command == "rm -rf /usr/local/go && tar -C /usr/local -xzf /tmp/go1.25.2.linux-amd64.tar.gz"));
    let (s, a) = step(s, UpdateEvent::Installed(Ok(())));
    assert!(matches!(a, UpdateAction::QueryInstalledVersion { binary: Some(ref b) } if b == "/usr/local/go/bin/go"));
    let (s, a) = step(s, UpdateEvent::InstalledVersion(Err("not there".into())));
    assert!(matches!(a, UpdateAction::QueryInstalledVersion { binary: None }));
    let (s, a) = step(s, UpdateEvent::InstalledVersion(Ok("go1.25.2".into())));
    assert!(matches!(s, UpdateState::Done));
    assert!(matches!(a, UpdateAction::Finish(Ok(UpdateOutcome::Installed { ref version })) if version == "go1.25.2"));
}

fn at_download(event: UpdateEvent<String>) -> UpdateAction<String> {
    let state = UpdateState::Downloading {
        latest_tag: "go1.25.2".into(),
        artifact: file("a.tar.gz", "linux", "amd64", "archive"),
        dest: "/tmp/a.tar.gz".into(),
    };
    step(state, event).1
}

#[test]
fn outside_errors_end_the_run_unchanged() {
    assert!(matches!(at_download(UpdateEvent::Downloaded(Err("404".into()))),
        UpdateAction::Finish(Err(UpdateError::Download(ref e))) if e == "404"));
    let (_, a) = step(UpdateState::FetchingReleaseList { arch: "amd64".into() },
        UpdateEvent::ReleaseListFetched(Err("500".into())));
    assert!(matches!(a, UpdateAction::Finish(Err(UpdateError::ReleaseList(ref e))) if e == "500"));
    let (_, a) = step(UpdateState::Verifying { latest_tag: "go1".into(), dest: "/tmp/a".into() },
        UpdateEvent::ChecksumVerified(Err("hash mismatch".into())));
    assert!(matches!(a, UpdateAction::Finish(Err(UpdateError::Checksum(_)))));
    let (_, a) = step(UpdateState::Installing { latest_tag: "go1".into() }, UpdateEvent::Installed(Err("denied".into())));
    assert!(matches!(a, UpdateAction::Finish(Err(UpdateError::Install(_)))));
    let (_, a) = step(UpdateState::CheckingInstalled { latest_tag: "go1".into(), fallback: true },
        UpdateEvent::InstalledVersion(Err("no go".into())));
    assert!(matches!(a, UpdateAction::Finish(Err(UpdateError::InstalledVersion(ref e))) if e == "no go"));
}

#[test]
fn local_version_falls_back_to_zero() {
    let latest = releases().remove(1);
    let state = UpdateState::CheckingLocalVersion {
        arch: "amd64".into(),
        latest,
        latest_version: go_updater::GoSemver { major: 1, minor: 25, patch: 2 },
    };
    let (_, a) = step(state, UpdateEvent::LocalVersion(Err("no go".into())));
    assert!(matches!(a, UpdateAction::ResolveDownloadPath { .. }));

    let state = UpdateState::CheckingLocalVersion {
        arch: "amd64".into(),
        latest: release("go0.0.0", true, vec![]),
        latest_version: go_updater::GoSemver { major: 0, minor: 0, patch: 0 },
    };
    let (_, a) = step(state, UpdateEvent::LocalVersion(Err("no go".into())));
    assert!(matches!(a, UpdateAction::Finish(Ok(UpdateOutcome::AlreadyUpToDate { ref local })) if local == "go0.0.0"));
}

#[test]
fn newer_local_version_is_left_alone() {
    let state = UpdateState::CheckingLocalVersion {
        arch: "amd64".into(),
        latest: releases().remove(1),
        latest_version: go_updater::GoSemver { major: 1, minor: 25, patch: 2 },
    };
    let (s, a) = step(state, UpdateEvent::LocalVersion(Ok("go1.26.0".into())));
    assert!(matches!(s, UpdateState::Done));
    assert!(matches!(a, UpdateAction::Finish(Ok(UpdateOutcome::AlreadyUpToDate { ref local })) if local == "go1.26.0"));
}

#[test]
fn unreadable_latest_tag_is_an_error() {
    let (_, a) = step(UpdateState::DecodingReleaseList { arch: "amd64".into() },
        UpdateEvent::ReleaseListDecoded(Ok(vec![release("broken", true, vec![])])));
    match a {
        UpdateAction::Finish(Err(e)) => assert_eq!(e.own_message().as_deref(), Some("not a Go format: broken")),
        other => panic!("unexpected {other:?}"),
    }
}

#[test]
fn done_takes_no_event() {
    assert!(!UpdateState::Done.expects(&UpdateEvent::<String>::Installed(Ok(()))));
    assert!(!UpdateState::Installing { latest_tag: "go1".into() }.expects(&UpdateEvent::<String>::Downloaded(Ok(()))));
}
