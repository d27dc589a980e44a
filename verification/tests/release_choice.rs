use go_updater::{find_artifact, latest_stable, GoFile, GoRelease};

fn release(version: &str, stable: bool) -> GoRelease {
    GoRelease { version: version.into(), stable, files: vec![] }
}

fn file(name: &str, os: &str, arch: &str, kind: &str) -> GoFile {
    GoFile { filename: name.into(), os: os.into(), arch: arch.into(), sha256: String::new(), kind: kind.into(), size: Some(1) }
}

#[test]
fn latest_stable_ignores_unstable_and_ranks_by_version() {
    let rs = vec![release("go1.9.9", true), release("go1.26rc1", false), release("go1.10.0", true), release("go1.2", true)];
    assert_eq!(latest_stable(&rs), Some(2));
}

#[test]
fn latest_stable_takes_the_last_of_equals() {
    let rs = vec![release("go1.2.3", true), release("go1.2.3", true), release("go1.0", true)];
    assert_eq!(latest_stable(&rs), Some(1));
    let rs = vec![release("broken", true), release("also-broken", true)];
    assert_eq!(latest_stable(&rs), Some(1));
    let rs = vec![release("go0.0.0", true), release("broken", true)];
    assert_eq!(latest_stable(&rs), Some(1));
}

#[test]
fn latest_stable_ranks_unreadable_tags_as_zero() {
    let rs = vec![release("broken", true), release("go1.2.3", true), release("nonsense", true)];
    assert_eq!(latest_stable(&rs), Some(1));
}

#[test]
fn no_stable_release_gives_none() {
    assert_eq!(latest_stable(&[]), None);
    assert_eq!(latest_stable(&[release("go1.2", false)]), None);
}

#[test]
fn first_linux_tarball_for_the_arch_is_chosen() {
    let files = vec![
        file("go.src.tar.gz", "", "", "source"),
        file("go.linux-arm64.tar.gz", "linux", "arm64", "archive"),
        file("go.linux-amd64.msi", "linux", "amd64", "archive"),
        file("go.linux-amd64.tar.gz", "linux", "amd64", "installer"),
        file("go.darwin-amd64.tar.gz", "darwin", "amd64", "archive"),
        file("go.linux-amd64.tar.gz", "linux", "amd64", "archive"),
        file("go.linux-amd64-2.tar.gz", "linux", "amd64", "archive"),
    ];
    assert_eq!(find_artifact(&files, "amd64"), Some(5));
    assert_eq!(find_artifact(&files, "arm64"), Some(1));
    assert_eq!(find_artifact(&files, "riscv64"), None);
    assert_eq!(find_artifact(&[file("tar.gz", "linux", "amd64", "archive")], "amd64"), None);
}
