use go_updater::{GoFile, GoRelease, UpdateAction, UpdateError, UpdateEvent, UpdateOutcome, UpdateState};

fn text(v: &serde_json::Value, key: &str) -> Result<String, String> {
    v.get(key)
        .and_then(|x| x.as_str())
        .map(|x| x.to_string())
        .ok_or_else(|| format!("expected a string `{key}`"))
}

fn decode(json: &str) -> Result<Vec<GoRelease>, String> {
    let value: serde_json::Value = serde_json::from_str(json).map_err(|e| e.to_string())?;
    let list = value.as_array().ok_or_else(|| "expected a sequence".to_string())?;
    let mut releases = Vec::new();
    for r in list {
        let mut files = Vec::new();
        for f in r.get("files").and_then(|x| x.as_array()).ok_or("expected `files`")? {
            files.push(GoFile {
                filename: text(f, "filename")?,
                os: text(f, "os")?,
                arch: text(f, "arch")?,
                sha256: text(f, "sha256")?,
                kind: text(f, "kind")?,
                size: f.get("size").and_then(|x| x.as_u64()),
            });
        }
        releases.push(GoRelease {
            version: text(r, "version")?,
            stable: r.get("stable").and_then(|x| x.as_bool()).ok_or("expected `stable`")?,
            files,
        });
    }
    Ok(releases)
}

/// What the outside work answers, and what was asked of it.
struct World {
    json: String,
    go_version: fn(Option<&str>) -> Result<String, String>,
    downloaded: bool,
    installed: bool,
}

fn drive(world: &mut World) -> Result<UpdateOutcome, UpdateError<String>> {
    let (mut state, mut action) = UpdateState::start::<String>("x86_64", None, None);
    loop {
        let event = match action {
            UpdateAction::Finish(r) => return r,
            UpdateAction::FetchReleaseList { url } => {
                assert_eq!(url, "https://go.dev/dl/?mode=json");
                UpdateEvent::ReleaseListFetched(Ok(world.json.clone()))
            }
            UpdateAction::DecodeReleaseList { json } => UpdateEvent::ReleaseListDecoded(decode(&json)),
            UpdateAction::QueryLocalVersion => UpdateEvent::LocalVersion((world.go_version)(None)),
            UpdateAction::ResolveDownloadPath { filename } => {
                UpdateEvent::DownloadPath(format!("/tmp/{filename}"))
            }
            UpdateAction::Download { .. } => {
                world.downloaded = true;
                UpdateEvent::Downloaded(Ok(()))
            }
            UpdateAction::VerifyChecksum { .. } => UpdateEvent::ChecksumVerified(Ok(())),
            UpdateAction::Install { .. } => {
                world.installed = true;
                UpdateEvent::Installed(Ok(()))
            }
            UpdateAction::QueryInstalledVersion { binary } => {
                UpdateEvent::InstalledVersion((world.go_version)(binary.as_deref()))
            }
        };
        assert!(state.expects(&event));
        let (s, a) = state.step(event);
        state = s;
        action = a;
    }
}

fn installing(path: Option<&str>) -> Result<String, String> {
    if path.is_some() {
        Ok("go1.25.2".into())
    } else {
        Ok("go1.24.8".into())
    }
}

#[test]
fn outdated_should_download_install_and_verify() {
    let json = r#"[{"version":"go1.25.2","stable":true,"files":[
        {"filename":"go1.25.2.linux-amd64.tar.gz","os":"linux","arch":"amd64","sha256":"deadbeef","kind":"archive","size":null}
    ]}]"#;
    let mut world = World { json: json.into(), go_version: installing, downloaded: false, installed: false };
    let outcome = drive(&mut world).unwrap();
    assert_eq!(outcome, UpdateOutcome::Installed { version: "go1.25.2".into() });
    assert!(world.downloaded);
    assert!(world.installed);
}
