//! The decisions of an update run, as a state machine.
//!
//! An update alternates outside work (fetching the release list, asking the
//! installed `go` for its version, downloading, checking, installing) with
//! decisions. [`UpdateState::start`] and [`UpdateState::step`] make the
//! decisions: each takes what the last piece of outside work gave and names the
//! next piece of work as an [`UpdateAction`], until the action is
//! [`UpdateAction::Finish`]. Whoever runs the machine performs the actions and
//! reports their results as [`UpdateEvent`]s.
use vstd::prelude::*;

use crate::release::{
    find_artifact, go_arch_name, is_latest_stable, is_tar_gz_name, is_wanted_artifact, latest_stable,
    law_wanted_artifact_exact, map_arch, GoFile, GoRelease,
};
use crate::semver::{parse_tag_spec, GoSemver, SemverError, SemverFailure};
use crate::text::{concat_str, str_eq};
use crate::version_order::lex_less;

verus! {

/// How a finished update run went well.
#[derive(Debug, Clone, PartialEq, Eq)]
pub enum UpdateOutcome {
    /// The local Go is as new as the latest stable release; it carries the
    /// local version tag.
    AlreadyUpToDate { local: String },
    /// The latest release was installed; it carries the version the installed
    /// `go` reports.
    Installed { version: String },
}

/// How a finished update run failed. `E` is the error type of the outside work.
#[derive(Debug)]
pub enum UpdateError<E> {
    /// Fetching the release list failed.
    ReleaseList(E),
    /// The release list could not be decoded.
    Decode(E),
    /// No release in the list is marked stable.
    NoStableRelease,
    /// The tag of the latest stable release does not name a version.
    LatestVersion(SemverError),
    /// The latest release has no Linux `.tar.gz` archive for this architecture.
    ArtifactNotFound { arch: String },
    /// The download failed.
    Download(E),
    /// The downloaded file does not have the published checksum.
    Checksum(E),
    /// Installing as root failed.
    Install(E),
    /// Neither the installed `go` nor the one on `PATH` reported a version.
    InstalledVersion(E),
    /// The installed `go` reports another version than the one installed.
    VersionMismatch { installed: String, expected: String },
}

impl<E> UpdateError<E> {
    /// The error text this library gives the error, or `None` where the error
    /// is an outside error that speaks for itself.
    pub fn own_message(&self) -> (r: Option<String>)
        ensures
            match self {
                UpdateError::NoStableRelease => r matches Some(m) && m@ == "no stable release found"@,
                UpdateError::LatestVersion(se) => r matches Some(m) && m@ == match se {
                    SemverError::NotGoFormat(t) => "not a Go format: "@ + t@,
                    SemverError::InvalidNumber(k) => k.message_spec(),
                },
                UpdateError::ArtifactNotFound { arch } => r matches Some(m) && m@ == "linux-"@ + arch@
                    + " artifact not found"@,
                UpdateError::VersionMismatch { installed, expected } => r matches Some(m) && m@
                    == "verifikasi gagal: "@ + installed@ + " != "@ + expected@,
                _ => r is None,
            },
    {
        match self {
            UpdateError::NoStableRelease => Some(String::from_str("no stable release found")),
            UpdateError::LatestVersion(se) => Some(se.message()),
            UpdateError::ArtifactNotFound { arch } => {
                let mut m = concat_str("linux-", arch.as_str());
                m.append(" artifact not found");
                Some(m)
            },
            UpdateError::VersionMismatch { installed, expected } => {
                let mut m = concat_str("verifikasi gagal: ", installed.as_str());
                m.append(" != ");
                m.append(expected.as_str());
                Some(m)
            },
            _ => None,
        }
    }
}

/// The next piece of outside work, or the end of the run.
#[derive(Debug)]
pub enum UpdateAction<E> {
    /// Fetch the JSON release list from `url`.
    FetchReleaseList { url: String },
    /// Decode `json` as a list of [`GoRelease`].
    DecodeReleaseList { json: String },
    /// Ask the `go` on `PATH` for its version tag.
    QueryLocalVersion,
    /// Find the local path to download `filename` to.
    ResolveDownloadPath { filename: String },
    /// Download `url` to `dest`.
    Download { url: String, dest: String },
    /// Check that the file at `path` has the SHA-256 digest `sha256` (hex).
    VerifyChecksum { path: String, sha256: String },
    /// Run `command` with root rights.
    Install { command: String },
    /// Ask a `go` binary for its version tag: the one at `binary`, or the one
    /// on `PATH` where it is `None`.
    QueryInstalledVersion { binary: Option<String> },
    /// The run is over.
    Finish(Result<UpdateOutcome, UpdateError<E>>),
}

/// The result of the last piece of outside work.
#[derive(Debug)]
pub enum UpdateEvent<E> {
    ReleaseListFetched(Result<String, E>),
    ReleaseListDecoded(Result<Vec<GoRelease>, E>),
    LocalVersion(Result<String, E>),
    DownloadPath(String),
    Downloaded(Result<(), E>),
    ChecksumVerified(Result<(), E>),
    Installed(Result<(), E>),
    InstalledVersion(Result<String, E>),
}

/// Where an update run stands, and what it has learned so far.
#[derive(Debug)]
pub enum UpdateState {
    /// Waiting for the fetched release list.
    FetchingReleaseList { arch: String },
    /// Waiting for the decoded release list.
    DecodingReleaseList { arch: String },
    /// Waiting for the local version; `latest` is the latest stable release
    /// and `latest_version` the version its tag names.
    CheckingLocalVersion { arch: String, latest: GoRelease, latest_version: GoSemver },
    /// The local Go is older: waiting for the path to download `artifact` to.
    ResolvingPath { latest_tag: String, artifact: GoFile },
    /// Waiting for the download of `artifact` to `dest`.
    Downloading { latest_tag: String, artifact: GoFile, dest: String },
    /// Waiting for the checksum of `dest`.
    Verifying { latest_tag: String, dest: String },
    /// Waiting for the installation.
    Installing { latest_tag: String },
    /// Waiting for the installed version; `fallback` once the installed binary
    /// has failed and the `go` on `PATH` was asked.
    CheckingInstalled { latest_tag: String, fallback: bool },
    /// The run is over.
    Done,
}

/// The release list that is fetched where none is given inline.
pub open spec fn default_release_list_url() -> Seq<char> {
    "https://go.dev/dl/?mode=json"@
}

/// Where release files are downloaded from.
pub open spec fn download_url(filename: Seq<char>) -> Seq<char> {
    "https://go.dev/dl/"@ + filename
}

/// The shell command that replaces `/usr/local/go` with the archive at `dest`.
pub open spec fn install_command(dest: Seq<char>) -> Seq<char> {
    "rm -rf /usr/local/go && tar -C /usr/local -xzf "@ + dest
}

/// The path of the freshly installed `go`.
pub open spec fn installed_go_binary() -> Seq<char> {
    "/usr/local/go/bin/go"@
}

/// The version tag assumed where the local `go` reports none.
pub open spec fn absent_local_tag() -> Seq<char> {
    "go0.0.0"@
}

/// The local version tag: what the local `go` reported, or `go0.0.0` where it
/// reported none.
pub open spec fn reported_local_tag<E>(r: Result<String, E>) -> Seq<char> {
    match r {
        Ok(t) => t@,
        Err(_) => absent_local_tag(),
    }
}

/// The version a local tag stands for: what it reads as, or `0.0.0`.
pub open spec fn local_rank(tag: Seq<char>) -> GoSemver {
    match parse_tag_spec(tag) {
        Ok(v) => v,
        Err(_) => GoSemver { major: 0, minor: 0, patch: 0 },
    }
}

/// The first step: where the release list comes from. A list given inline is
/// decoded at once; else it is fetched from `json_url`, or from go.dev.
pub open spec fn start_spec<E>(
    arch: Seq<char>,
    inline_json: Option<String>,
    json_url: Option<String>,
    s: UpdateState,
    a: UpdateAction<E>,
) -> bool {
    match inline_json {
        Some(json) => {
            &&& s matches UpdateState::DecodingReleaseList { arch: ar } && ar@ == go_arch_name(arch)
            &&& a == UpdateAction::<E>::DecodeReleaseList { json }
        },
        None => {
            &&& s matches UpdateState::FetchingReleaseList { arch: ar } && ar@ == go_arch_name(arch)
            &&& a matches UpdateAction::FetchReleaseList { url } && url@ == match json_url {
                Some(u) => u@,
                None => default_release_list_url(),
            }
        },
    }
}

/// Whether `e` answers the work that state `s` waits for.
pub open spec fn accepts<E>(s: UpdateState, e: UpdateEvent<E>) -> bool {
    match (s, e) {
        (UpdateState::FetchingReleaseList { .. }, UpdateEvent::ReleaseListFetched(_)) => true,
        (UpdateState::DecodingReleaseList { .. }, UpdateEvent::ReleaseListDecoded(_)) => true,
        (UpdateState::CheckingLocalVersion { .. }, UpdateEvent::LocalVersion(_)) => true,
        (UpdateState::ResolvingPath { .. }, UpdateEvent::DownloadPath(_)) => true,
        (UpdateState::Downloading { .. }, UpdateEvent::Downloaded(_)) => true,
        (UpdateState::Verifying { .. }, UpdateEvent::ChecksumVerified(_)) => true,
        (UpdateState::Installing { .. }, UpdateEvent::Installed(_)) => true,
        (UpdateState::CheckingInstalled { .. }, UpdateEvent::InstalledVersion(_)) => true,
        _ => false,
    }
}

/// The run ends with `r`.
pub open spec fn finishes<E>(s2: UpdateState, a: UpdateAction<E>, r: Result<UpdateOutcome, UpdateError<E>>) -> bool {
    s2 == UpdateState::Done && a == UpdateAction::<E>::Finish(r)
}

/// What the machine does once the release list is decoded: the latest stable
/// release is chosen (see [`is_latest_stable`]) and its tag must read as a
/// version; then the local version is asked for.
pub open spec fn after_decode<E>(arch: String, rs: Seq<GoRelease>, s2: UpdateState, a: UpdateAction<E>) -> bool {
    if !(exists|i: int| is_latest_stable(rs, i)) {
        finishes(s2, a, Err(UpdateError::NoStableRelease))
    } else {
        exists|i: int|
            #![trigger rs[i]]
            is_latest_stable(rs, i) && match parse_tag_spec(rs[i].version@) {
                Ok(v) => s2 == UpdateState::CheckingLocalVersion {
                    arch,
                    latest: rs[i],
                    latest_version: v,
                } && a == UpdateAction::<E>::QueryLocalVersion,
                Err(f) => exists|se: SemverError|
                    se@ == f && finishes(s2, a, Err(UpdateError::LatestVersion(se))),
            }
    }
}

/// What the machine does with the local version tag `local`: nothing more if
/// the local version is not older than the latest; else the first Linux
/// `.tar.gz` archive for `arch` is chosen and a download path asked for.
pub open spec fn after_local<E>(
    arch: String,
    latest: GoRelease,
    latest_version: GoSemver,
    local: Seq<char>,
    s2: UpdateState,
    a: UpdateAction<E>,
) -> bool {
    let files = latest.files@;
    if !lex_less(local_rank(local), latest_version) {
        exists|t: String| t@ == local && finishes(s2, a, Ok(UpdateOutcome::AlreadyUpToDate { local: t }))
    } else if forall|j: int| 0 <= j < files.len() ==> !is_wanted_artifact(#[trigger] files[j], arch@) {
        finishes(s2, a, Err(UpdateError::ArtifactNotFound { arch }))
    } else {
        exists|j: int|
            #![trigger files[j]]
            {
                &&& 0 <= j < files.len()
                &&& is_wanted_artifact(files[j], arch@)
                &&& forall|k: int| 0 <= k < j ==> !is_wanted_artifact(#[trigger] files[k], arch@)
                &&& s2 == UpdateState::ResolvingPath { latest_tag: latest.version, artifact: files[j] }
                &&& a matches UpdateAction::ResolveDownloadPath { filename } && filename@
                    == files[j].filename@
            }
    }
}

/// One step of the machine: state `s` and event `e` lead to state `s2` and action `a`.
pub open spec fn step_spec<E>(s: UpdateState, e: UpdateEvent<E>, s2: UpdateState, a: UpdateAction<E>) -> bool {
    match (s, e) {
        (UpdateState::FetchingReleaseList { arch }, UpdateEvent::ReleaseListFetched(r)) => match r {
            Err(err) => finishes(s2, a, Err(UpdateError::ReleaseList(err))),
            Ok(json) => s2 == UpdateState::DecodingReleaseList { arch } && a
                == UpdateAction::<E>::DecodeReleaseList { json },
        },
        (UpdateState::DecodingReleaseList { arch }, UpdateEvent::ReleaseListDecoded(r)) => match r {
            Err(err) => finishes(s2, a, Err(UpdateError::Decode(err))),
            Ok(rs) => after_decode(arch, rs@, s2, a),
        },
        (
            UpdateState::CheckingLocalVersion { arch, latest, latest_version },
            UpdateEvent::LocalVersion(r),
        ) => after_local(
            arch,
            latest,
            latest_version,
            reported_local_tag(r),
            s2,
            a,
        ),
        (UpdateState::ResolvingPath { latest_tag, artifact }, UpdateEvent::DownloadPath(dest)) => {
            &&& s2 == UpdateState::Downloading { latest_tag, artifact, dest }
            &&& a matches UpdateAction::Download { url, dest: d } && url@ == download_url(
                artifact.filename@,
            ) && d@ == dest@
        },
        (UpdateState::Downloading { latest_tag, artifact, dest }, UpdateEvent::Downloaded(r)) => match r {
            Err(err) => finishes(s2, a, Err(UpdateError::Download(err))),
            Ok(_) => {
                &&& s2 == UpdateState::Verifying { latest_tag, dest }
                &&& a matches UpdateAction::VerifyChecksum { path, sha256 } && path@ == dest@ && sha256
                    == artifact.sha256
            },
        },
        (UpdateState::Verifying { latest_tag, dest }, UpdateEvent::ChecksumVerified(r)) => match r {
            Err(err) => finishes(s2, a, Err(UpdateError::Checksum(err))),
            Ok(_) => {
                &&& s2 == UpdateState::Installing { latest_tag }
                &&& a matches UpdateAction::Install { command } && command@ == install_command(dest@)
            },
        },
        (UpdateState::Installing { latest_tag }, UpdateEvent::Installed(r)) => match r {
            Err(err) => finishes(s2, a, Err(UpdateError::Install(err))),
            Ok(_) => {
                &&& s2 == UpdateState::CheckingInstalled { latest_tag, fallback: false }
                &&& a matches UpdateAction::QueryInstalledVersion { binary } && binary matches Some(b)
                    && b@ == installed_go_binary()
            },
        },
        (UpdateState::CheckingInstalled { latest_tag, fallback }, UpdateEvent::InstalledVersion(r)) => match r {
            Ok(v) => if v@ == latest_tag@ {
                finishes(s2, a, Ok(UpdateOutcome::Installed { version: v }))
            } else {
                finishes(s2, a, Err(UpdateError::VersionMismatch { installed: v, expected: latest_tag }))
            },
            Err(err) => if fallback {
                finishes(s2, a, Err(UpdateError::InstalledVersion(err)))
            } else {
                &&& s2 == UpdateState::CheckingInstalled { latest_tag, fallback: true }
                &&& a == UpdateAction::<E>::QueryInstalledVersion { binary: None }
            },
        },
        _ => false,
    }
}

/// Chooses the latest stable release and reads its version.
fn decide_after_decode<E>(arch: String, releases: Vec<GoRelease>) -> (r: (UpdateState, UpdateAction<E>))
    ensures
        after_decode(arch, releases@, r.0, r.1),
{
    let ghost rs = releases@;
    let mut releases = releases;
    match latest_stable(releases.as_slice()) {
        None => {
            assert(!(exists|i: int| is_latest_stable(rs, i)));
            (UpdateState::Done, UpdateAction::Finish(Err(UpdateError::NoStableRelease)))
        },
        Some(i) => {
            let latest = releases.swap_remove(i);
            assert(latest == rs[i as int]);
            match GoSemver::parse(latest.version.as_str()) {
                Ok(v) => (
                    UpdateState::CheckingLocalVersion { arch, latest, latest_version: v },
                    UpdateAction::QueryLocalVersion,
                ),
                Err(se) => (UpdateState::Done, UpdateAction::Finish(Err(UpdateError::LatestVersion(se)))),
            }
        },
    }
}

/// Compares the local version with the latest and, if older, chooses the file to download.
fn decide_after_local<E>(arch: String, latest: GoRelease, latest_version: GoSemver, local: String) -> (r: (
    UpdateState,
    UpdateAction<E>,
))
    ensures
        after_local(arch, latest, latest_version, local@, r.0, r.1),
{
    let local_version = match GoSemver::parse(local.as_str()) {
        Ok(v) => v,
        Err(_) => GoSemver { major: 0, minor: 0, patch: 0 },
    };
    assert(local_version == local_rank(local@));
    if !local_version.older_than(&latest_version) {
        return (UpdateState::Done, UpdateAction::Finish(Ok(UpdateOutcome::AlreadyUpToDate { local })));
    }
    let ghost files = latest.files@;
    let GoRelease { version, stable: _, files: mut file_list } = latest;
    match find_artifact(file_list.as_slice(), arch.as_str()) {
        None => (UpdateState::Done, UpdateAction::Finish(Err(UpdateError::ArtifactNotFound { arch }))),
        Some(j) => {
            let artifact = file_list.swap_remove(j);
            assert(artifact == files[j as int]);
            let filename = artifact.filename.clone();
            (
                UpdateState::ResolvingPath { latest_tag: version, artifact },
                UpdateAction::ResolveDownloadPath { filename },
            )
        },
    }
}

impl UpdateState {
    /// The first step of a run on a machine whose Rust architecture is `arch`:
    /// decode `inline_json` if given, else fetch the list from `json_url`, or
    /// from go.dev where that is `None`.
    pub fn start<E>(arch: &'static str, inline_json: Option<String>, json_url: Option<String>) -> (r: (
        UpdateState,
        UpdateAction<E>,
    ))
        ensures
            start_spec(arch@, inline_json, json_url, r.0, r.1),
    {
        let go_arch = String::from_str(map_arch(arch));
        match inline_json {
            Some(json) => (UpdateState::DecodingReleaseList { arch: go_arch }, UpdateAction::DecodeReleaseList { json }),
            None => {
                let url = match json_url {
                    Some(u) => u,
                    None => String::from_str("https://go.dev/dl/?mode=json"),
                };
                (UpdateState::FetchingReleaseList { arch: go_arch }, UpdateAction::FetchReleaseList { url })
            },
        }
    }

    /// Whether `event` answers the work this state waits for.
    pub fn expects<E>(&self, event: &UpdateEvent<E>) -> (r: bool)
        ensures
            r == accepts(*self, *event),
    {
        match (self, event) {
            (UpdateState::FetchingReleaseList { .. }, UpdateEvent::ReleaseListFetched(_)) => true,
            (UpdateState::DecodingReleaseList { .. }, UpdateEvent::ReleaseListDecoded(_)) => true,
            (UpdateState::CheckingLocalVersion { .. }, UpdateEvent::LocalVersion(_)) => true,
            (UpdateState::ResolvingPath { .. }, UpdateEvent::DownloadPath(_)) => true,
            (UpdateState::Downloading { .. }, UpdateEvent::Downloaded(_)) => true,
            (UpdateState::Verifying { .. }, UpdateEvent::ChecksumVerified(_)) => true,
            (UpdateState::Installing { .. }, UpdateEvent::Installed(_)) => true,
            (UpdateState::CheckingInstalled { .. }, UpdateEvent::InstalledVersion(_)) => true,
            _ => false,
        }
    }

    /// Takes the result of the last piece of work and decides the next one.
    pub fn step<E>(self, event: UpdateEvent<E>) -> (r: (UpdateState, UpdateAction<E>))
        requires
            accepts(self, event),
        ensures
            step_spec(self, event, r.0, r.1),
    {
        match (self, event) {
            (UpdateState::FetchingReleaseList { arch }, UpdateEvent::ReleaseListFetched(r)) => match r {
                Err(err) => (UpdateState::Done, UpdateAction::Finish(Err(UpdateError::ReleaseList(err)))),
                Ok(json) => (UpdateState::DecodingReleaseList { arch }, UpdateAction::DecodeReleaseList { json }),
            },
            (UpdateState::DecodingReleaseList { arch }, UpdateEvent::ReleaseListDecoded(r)) => match r {
                Err(err) => (UpdateState::Done, UpdateAction::Finish(Err(UpdateError::Decode(err)))),
                Ok(rs) => decide_after_decode(arch, rs),
            },
            (
                UpdateState::CheckingLocalVersion { arch, latest, latest_version },
                UpdateEvent::LocalVersion(r),
            ) => {
                let local = match r {
                    Ok(t) => t,
                    Err(_) => String::from_str("go0.0.0"),
                };
                decide_after_local(arch, latest, latest_version, local)
            },
            (UpdateState::ResolvingPath { latest_tag, artifact }, UpdateEvent::DownloadPath(dest)) => {
                let url = concat_str("https://go.dev/dl/", artifact.filename.as_str());
                let d = dest.clone();
                (UpdateState::Downloading { latest_tag, artifact, dest }, UpdateAction::Download { url, dest: d })
            },
            (UpdateState::Downloading { latest_tag, artifact, dest }, UpdateEvent::Downloaded(r)) => match r {
                Err(err) => (UpdateState::Done, UpdateAction::Finish(Err(UpdateError::Download(err)))),
                Ok(_) => {
                    let path = dest.clone();
                    let sha256 = artifact.sha256;
                    (UpdateState::Verifying { latest_tag, dest }, UpdateAction::VerifyChecksum { path, sha256 })
                },
            },
            (UpdateState::Verifying { latest_tag, dest }, UpdateEvent::ChecksumVerified(r)) => match r {
                Err(err) => (UpdateState::Done, UpdateAction::Finish(Err(UpdateError::Checksum(err)))),
                Ok(_) => {
                    let command = concat_str("rm -rf /usr/local/go && tar -C /usr/local -xzf ", dest.as_str());
                    (UpdateState::Installing { latest_tag }, UpdateAction::Install { command })
                },
            },
            (UpdateState::Installing { latest_tag }, UpdateEvent::Installed(r)) => match r {
                Err(err) => (UpdateState::Done, UpdateAction::Finish(Err(UpdateError::Install(err)))),
                Ok(_) => (
                    UpdateState::CheckingInstalled { latest_tag, fallback: false },
                    UpdateAction::QueryInstalledVersion { binary: Some(String::from_str("/usr/local/go/bin/go")) },
                ),
            },
            (UpdateState::CheckingInstalled { latest_tag, fallback }, UpdateEvent::InstalledVersion(r)) => match r {
                Ok(v) => {
                    if str_eq(v.as_str(), latest_tag.as_str()) {
                        (UpdateState::Done, UpdateAction::Finish(Ok(UpdateOutcome::Installed { version: v })))
                    } else {
                        (
                            UpdateState::Done,
                            UpdateAction::Finish(
                                Err(UpdateError::VersionMismatch { installed: v, expected: latest_tag }),
                            ),
                        )
                    }
                },
                Err(err) => {
                    if fallback {
                        (UpdateState::Done, UpdateAction::Finish(Err(UpdateError::InstalledVersion(err))))
                    } else {
                        (
                            UpdateState::CheckingInstalled { latest_tag, fallback: true },
                            UpdateAction::QueryInstalledVersion { binary: None },
                        )
                    }
                },
            },
            _ => {
                proof {
                    assert(false);
                }
                (UpdateState::Done, UpdateAction::QueryLocalVersion)
            },
        }
    }
}

/// How far a run has come; every step moves it forward.
pub open spec fn phase(s: UpdateState) -> nat {
    match s {
        UpdateState::FetchingReleaseList { .. } => 0,
        UpdateState::DecodingReleaseList { .. } => 1,
        UpdateState::CheckingLocalVersion { .. } => 2,
        UpdateState::ResolvingPath { .. } => 3,
        UpdateState::Downloading { .. } => 4,
        UpdateState::Verifying { .. } => 5,
        UpdateState::Installing { .. } => 6,
        UpdateState::CheckingInstalled { fallback, .. } => if fallback { 8 } else { 7 },
        UpdateState::Done => 9,
    }
}

/// Every step moves the run forward, so a run ends after at most nine steps;
/// a step ends the run exactly when its action is `Finish`, and a finished
/// run takes no more events.
pub proof fn law_update_run_progresses<E>(s: UpdateState, e: UpdateEvent<E>, s2: UpdateState, a: UpdateAction<E>)
    requires
        step_spec(s, e, s2, a),
    ensures
        phase(s) < phase(s2),
        (s2 == UpdateState::Done) <==> (a is Finish),
        forall|e2: UpdateEvent<E>| s2 == UpdateState::Done ==> !accepts(s2, e2),
{
    match (s, e) {
        (UpdateState::DecodingReleaseList { arch }, UpdateEvent::ReleaseListDecoded(Ok(rs))) => {
            if exists|i: int| is_latest_stable(rs@, i) {
                let i = choose|i: int| #![trigger rs@[i]] is_latest_stable(rs@, i) && match parse_tag_spec(rs@[i].version@) {
                    Ok(v) => s2 == UpdateState::CheckingLocalVersion { arch, latest: rs@[i], latest_version: v }
                        && a == UpdateAction::<E>::QueryLocalVersion,
                    Err(f) => exists|se: SemverError| se@ == f && finishes(s2, a, Err(UpdateError::LatestVersion(se))),
                };
            }
        },
        _ => {},
    }
}

/// A local Go that is not older than the latest stable release is left alone:
/// the run ends at once, reporting the local version, and nothing is
/// downloaded or installed.
pub proof fn law_up_to_date_is_left_alone<E>(
    arch: String,
    latest: GoRelease,
    latest_version: GoSemver,
    r: Result<String, E>,
    s2: UpdateState,
    a: UpdateAction<E>,
)
    requires
        step_spec(
            UpdateState::CheckingLocalVersion { arch, latest, latest_version },
            UpdateEvent::LocalVersion(r),
            s2,
            a,
        ),
        !lex_less(local_rank(reported_local_tag(r)), latest_version),
    ensures
        s2 == UpdateState::Done,
        a matches UpdateAction::Finish(Ok(UpdateOutcome::AlreadyUpToDate { local })) && local@
            == reported_local_tag(r),
{
}

/// A download is only ever asked for an archive that suits the machine, of a
/// release newer than the local Go: the step that picks the file to download
/// comes from a local version older than the latest, and the file is the first
/// Linux `.tar.gz` archive for the architecture.
pub proof fn law_download_only_when_older<E>(s: UpdateState, e: UpdateEvent<E>, s2: UpdateState, a: UpdateAction<E>)
    requires
        step_spec(s, e, s2, a),
        s2 is ResolvingPath,
    ensures
        match (s, e, s2) {
            (
                UpdateState::CheckingLocalVersion { arch, latest, latest_version },
                UpdateEvent::LocalVersion(r),
                UpdateState::ResolvingPath { latest_tag, artifact },
            ) => {
                &&& lex_less(local_rank(reported_local_tag(r)), latest_version)
                &&& latest_tag == latest.version
                &&& is_wanted_artifact(artifact, arch@)
                &&& latest.files@.contains(artifact)
            },
            _ => false,
        },
{
    match (s, e) {
        (UpdateState::CheckingLocalVersion { arch, latest, latest_version }, UpdateEvent::LocalVersion(r)) => {
            let local = reported_local_tag(r);
            let files = latest.files@;
            if lex_less(local_rank(local), latest_version) && !(forall|j: int|
                0 <= j < files.len() ==> !is_wanted_artifact(#[trigger] files[j], arch@)) {
                let j = choose|j: int|
                    #![trigger files[j]]
                    {
                        &&& 0 <= j < files.len()
                        &&& is_wanted_artifact(files[j], arch@)
                        &&& forall|k: int| 0 <= k < j ==> !is_wanted_artifact(#[trigger] files[k], arch@)
                        &&& s2 == UpdateState::ResolvingPath { latest_tag: latest.version, artifact: files[j] }
                        &&& a matches UpdateAction::ResolveDownloadPath { filename } && filename@
                            == files[j].filename@
                    };
                assert(files[j] == files[j]);
            }
        },
        _ => {},
    }
}

/// Installation only ever follows a successful checksum check, and it unpacks
/// the file that was checked.
pub proof fn law_install_only_after_checksum<E>(s: UpdateState, e: UpdateEvent<E>, s2: UpdateState, a: UpdateAction<E>)
    requires
        step_spec(s, e, s2, a),
        a is Install,
    ensures
        s matches UpdateState::Verifying { dest, .. } && e matches UpdateEvent::ChecksumVerified(Ok(_))
            && a matches UpdateAction::Install { command } && command@ == install_command(dest@),
{
}

/// A run succeeds with an installation only when the installed `go` reports
/// exactly the tag of the release that was chosen.
pub proof fn law_installed_means_latest<E>(s: UpdateState, e: UpdateEvent<E>, s2: UpdateState, a: UpdateAction<E>)
    requires
        step_spec(s, e, s2, a),
        a matches UpdateAction::Finish(Ok(UpdateOutcome::Installed { .. })),
    ensures
        s matches UpdateState::CheckingInstalled { latest_tag, .. } && a matches UpdateAction::Finish(
            Ok(UpdateOutcome::Installed { version }),
        ) && version@ == latest_tag@,
{
}

/// When the local Go is older and a suitable archive exists, and the
/// download, the checksum check and the installation succeed and the installed
/// `go` reports the chosen tag, the run ends with that release installed.
pub proof fn law_successful_run_installs<E>(
    arch: String,
    latest: GoRelease,
    latest_version: GoSemver,
    local: String,
    dest: String,
    installed: String,
    s1: UpdateState,
    a1: UpdateAction<E>,
    s2: UpdateState,
    a2: UpdateAction<E>,
    s3: UpdateState,
    a3: UpdateAction<E>,
    s4: UpdateState,
    a4: UpdateAction<E>,
    s5: UpdateState,
    a5: UpdateAction<E>,
    s6: UpdateState,
    a6: UpdateAction<E>,
)
    requires
        lex_less(local_rank(local@), latest_version),
        exists|j: int| 0 <= j < latest.files@.len() && is_wanted_artifact(#[trigger] latest.files@[j], arch@),
        installed@ == latest.version@,
        step_spec(
            UpdateState::CheckingLocalVersion { arch, latest, latest_version },
            UpdateEvent::<E>::LocalVersion(Ok(local)),
            s1,
            a1,
        ),
        step_spec(s1, UpdateEvent::<E>::DownloadPath(dest), s2, a2),
        step_spec(s2, UpdateEvent::<E>::Downloaded(Ok(())), s3, a3),
        step_spec(s3, UpdateEvent::<E>::ChecksumVerified(Ok(())), s4, a4),
        step_spec(s4, UpdateEvent::<E>::Installed(Ok(())), s5, a5),
        step_spec(s5, UpdateEvent::<E>::InstalledVersion(Ok(installed)), s6, a6),
    ensures
        s6 == UpdateState::Done,
        a6 == UpdateAction::<E>::Finish(Ok(UpdateOutcome::Installed { version: installed })),
{
    law_download_only_when_older(
        UpdateState::CheckingLocalVersion { arch, latest, latest_version },
        UpdateEvent::<E>::LocalVersion(Ok(local)),
        s1,
        a1,
    );
}

/// A local tag that reads as a version stands for that version; only a
/// local tag that reads as no version counts as `0.0.0`.
pub proof fn law_local_rank(tag: Seq<char>)
    ensures
        parse_tag_spec(tag) matches Ok(v) ==> local_rank(tag) == v,
        parse_tag_spec(tag) is Err ==> local_rank(tag) == (GoSemver { major: 0, minor: 0, patch: 0 }),
{
}

/// `a` is below `b` field by field: a smaller major; or the same major and a
/// smaller minor; or the same major and minor and a smaller patch.
pub open spec fn below_by_fields(a: GoSemver, b: GoSemver) -> bool {
    a.major < b.major || (a.major == b.major && a.minor < b.minor) || (a.major == b.major && a.minor
        == b.minor && a.patch < b.patch)
}

/// The file is a Linux archive for `arch` whose name ends in `.tar.gz`.
pub open spec fn linux_tarball_for(f: GoFile, arch: Seq<char>) -> bool {
    f.os@ == "linux"@ && f.arch@ == arch && f.kind@ == "archive"@ && is_tar_gz_name(f.filename@)
}

/// The step goes on to download a Linux `.tar.gz` archive for `arch` of the
/// release tagged `tag`.
pub open spec fn goes_to_download<E>(s2: UpdateState, a: UpdateAction<E>, tag: String, arch: Seq<char>) -> bool {
    match (s2, a) {
        (UpdateState::ResolvingPath { latest_tag, artifact }, UpdateAction::ResolveDownloadPath { filename }) => {
            &&& latest_tag == tag
            &&& linux_tarball_for(artifact, arch)
            &&& filename@ == artifact.filename@
        },
        _ => false,
    }
}

/// The step ends the run, reporting `local` as up to date.
pub open spec fn reports_up_to_date<E>(s2: UpdateState, a: UpdateAction<E>, local: Seq<char>) -> bool {
    match a {
        UpdateAction::Finish(Ok(UpdateOutcome::AlreadyUpToDate { local: l })) => s2 == UpdateState::Done
            && l@ == local,
        _ => false,
    }
}

/// When the local `go` reports a tag that reads as version `v`: if `v` is
/// below the latest version field by field and the latest release has a
/// Linux `.tar.gz` archive for the architecture, the run goes on to download
/// one; if `v` is not below, the run ends with the local tag reported as up
/// to date.
pub proof fn law_local_version_decides<E>(
    arch: String,
    latest: GoRelease,
    latest_version: GoSemver,
    t: String,
    v: GoSemver,
    s2: UpdateState,
    a: UpdateAction<E>,
)
    requires
        step_spec(
            UpdateState::CheckingLocalVersion { arch, latest, latest_version },
            UpdateEvent::<E>::LocalVersion(Ok(t)),
            s2,
            a,
        ),
        parse_tag_spec(t@) == Ok::<GoSemver, SemverFailure>(v),
    ensures
        below_by_fields(v, latest_version) && (exists|j: int|
            0 <= j < latest.files@.len() && linux_tarball_for(#[trigger] latest.files@[j], arch@))
            ==> goes_to_download(s2, a, latest.version, arch@),
        !below_by_fields(v, latest_version) ==> reports_up_to_date(s2, a, t@),
{
    let files = latest.files@;
    assert(local_rank(t@) == v);
    if exists|j: int| 0 <= j < files.len() && linux_tarball_for(#[trigger] files[j], arch@) {
        let j = choose|j: int| 0 <= j < files.len() && linux_tarball_for(#[trigger] files[j], arch@);
        law_wanted_artifact_exact(files[j], arch@);
    }
    if s2 is ResolvingPath {
        law_download_only_when_older(
            UpdateState::CheckingLocalVersion { arch, latest, latest_version },
            UpdateEvent::<E>::LocalVersion(Ok(t)),
            s2,
            a,
        );
        match s2 {
            UpdateState::ResolvingPath { artifact, .. } => {
                law_wanted_artifact_exact(artifact, arch@);
            },
            _ => {},
        }
    }
}

/// The outside work is asked for with fixed addresses: the release list
/// defaults to `https://go.dev/dl/?mode=json`, files are downloaded from
/// `https://go.dev/dl/<filename>`, the archive is unpacked over
/// `/usr/local/go` with `rm -rf /usr/local/go && tar -C /usr/local -xzf
/// <dest>`, and the installed binary checked first is `/usr/local/go/bin/go`.
pub proof fn law_fixed_addresses<E>(
    latest_tag: String,
    artifact: GoFile,
    dest: String,
    s2: UpdateState,
    a: UpdateAction<E>,
    s3: UpdateState,
    a3: UpdateAction<E>,
    s4: UpdateState,
    a4: UpdateAction<E>,
)
    requires
        step_spec(
            UpdateState::ResolvingPath { latest_tag, artifact },
            UpdateEvent::<E>::DownloadPath(dest),
            s2,
            a,
        ),
        step_spec(UpdateState::Verifying { latest_tag, dest }, UpdateEvent::<E>::ChecksumVerified(Ok(())), s3, a3),
        step_spec(UpdateState::Installing { latest_tag }, UpdateEvent::<E>::Installed(Ok(())), s4, a4),
    ensures
        default_release_list_url() == "https://go.dev/dl/?mode=json"@,
        a matches UpdateAction::Download { url, dest: d } && url@ == "https://go.dev/dl/"@ + artifact.filename@
            && d@ == dest@,
        a3 matches UpdateAction::Install { command } && command@ == "rm -rf /usr/local/go && tar -C /usr/local -xzf "@
            + dest@,
        a4 matches UpdateAction::QueryInstalledVersion { binary } && binary matches Some(b) && b@
            == "/usr/local/go/bin/go"@,
{
}

} // verus!
