//! The release list published by go.dev, and the choices made on it: which
//! release is the latest stable one and which of its files fits this machine.
use vstd::prelude::*;

use crate::semver::{parse_tag_spec, GoSemver};
use crate::text::{ends_with, str_ends_with, str_eq};
use crate::version_order::lex_less;

verus! {

/// One downloadable file of a release.
#[derive(Debug, Clone)]
pub struct GoFile {
    pub filename: String,
    pub os: String,
    pub arch: String,
    pub sha256: String,
    pub kind: String,
    pub size: Option<u64>,
}

/// One Go release as go.dev lists it.
#[derive(Debug, Clone)]
pub struct GoRelease {
    pub version: String,
    pub stable: bool,
    pub files: Vec<GoFile>,
}

/// The name Go gives to a Rust target architecture.
pub open spec fn go_arch_name(arch: Seq<char>) -> Seq<char> {
    if arch == "x86_64"@ {
        "amd64"@
    } else if arch == "aarch64"@ {
        "arm64"@
    } else {
        arch
    }
}

/// Maps a Rust architecture name to Go's: `x86_64` is `amd64`, `aarch64` is
/// `arm64`, and any other name is kept.
pub fn map_arch(arch: &'static str) -> (r: &'static str)
    ensures
        r@ == go_arch_name(arch@),
        arch@ == "x86_64"@ ==> r@ == "amd64"@,
        arch@ == "aarch64"@ ==> r@ == "arm64"@,
        arch@ != "x86_64"@ && arch@ != "aarch64"@ ==> r@ == arch@,
{
    proof {
        law_go_arch_names(arch@);
    }
    if str_eq(arch, "x86_64") {
        "amd64"
    } else if str_eq(arch, "aarch64") {
        "arm64"
    } else {
        arch
    }
}

/// The version a release is ranked by: its tag read as a version, or `0.0.0`
/// where the tag does not read as one.
pub open spec fn release_rank(r: GoRelease) -> GoSemver {
    match parse_tag_spec(r.version@) {
        Ok(v) => v,
        Err(_) => GoSemver { major: 0, minor: 0, patch: 0 },
    }
}

/// Release `i` is the latest stable one among the first `n`: it is stable, no
/// stable release ranks above it, and every later stable release ranks below
/// it (of equally ranked releases the last one counts).
pub open spec fn is_latest_stable_within(rs: Seq<GoRelease>, n: int, i: int) -> bool {
    &&& 0 <= i < n <= rs.len()
    &&& rs[i].stable
    &&& forall|j: int| 0 <= j < n && #[trigger] rs[j].stable ==> !lex_less(release_rank(rs[i]), release_rank(rs[j]))
    &&& forall|j: int| i < j < n && #[trigger] rs[j].stable ==> lex_less(release_rank(rs[j]), release_rank(rs[i]))
}

pub open spec fn is_latest_stable(rs: Seq<GoRelease>, i: int) -> bool {
    is_latest_stable_within(rs, rs.len() as int, i)
}

pub open spec fn has_stable(rs: Seq<GoRelease>) -> bool {
    exists|j: int| 0 <= j < rs.len() && #[trigger] rs[j].stable
}

/// The rank of a release, computed.
fn rank_of(r: &GoRelease) -> (v: GoSemver)
    ensures
        v == release_rank(*r),
{
    match GoSemver::parse(r.version.as_str()) {
        Ok(v) => v,
        Err(_) => GoSemver { major: 0, minor: 0, patch: 0 },
    }
}

/// Picks the latest stable release, as `max_by` over the stable releases by
/// rank does: the highest rank wins, and of equal ranks the last one.
/// `None` exactly when no release is stable.
pub fn latest_stable(releases: &[GoRelease]) -> (r: Option<usize>)
    ensures
        match r {
            Some(i) => is_latest_stable(releases@, i as int),
            None => !has_stable(releases@),
        },
{
    let mut best: Option<(usize, GoSemver)> = None;
    let mut i: usize = 0;
    while i < releases.len()
        invariant
            i <= releases@.len(),
            match best {
                Some((b, v)) => v == release_rank(releases@[b as int]) && is_latest_stable_within(
                    releases@,
                    i as int,
                    b as int,
                ),
                None => forall|j: int| 0 <= j < i ==> !#[trigger] releases@[j].stable,
            },
        decreases releases@.len() - i,
    {
        let r = &releases[i];
        if r.stable {
            let v = rank_of(r);
            match best {
                None => {
                    best = Some((i, v));
                },
                Some((b, bv)) => {
                    if !v.older_than(&bv) {
                        best = Some((i, v));
                    }
                },
            }
        }
        i = i + 1;
    }
    match best {
        Some((b, _)) => Some(b),
        None => None,
    }
}

/// A file is the one to install: a Linux archive for `arch`, ending in `.tar.gz`.
pub open spec fn is_wanted_artifact(f: GoFile, arch: Seq<char>) -> bool {
    &&& f.os@ == "linux"@
    &&& f.arch@ == arch
    &&& f.kind@ == "archive"@
    &&& ends_with(f.filename@, ".tar.gz"@)
}

/// Whether `f` is the Linux `.tar.gz` archive for `arch`.
pub fn wanted_artifact(f: &GoFile, arch: &str) -> (r: bool)
    ensures
        r == is_wanted_artifact(*f, arch@),
{
    str_eq(f.os.as_str(), "linux") && str_eq(f.arch.as_str(), arch) && str_eq(f.kind.as_str(), "archive")
        && str_ends_with(f.filename.as_str(), ".tar.gz")
}

/// The first file that is the Linux `.tar.gz` archive for `arch`, if any.
pub fn find_artifact(files: &[GoFile], arch: &str) -> (r: Option<usize>)
    ensures
        match r {
            Some(i) => i < files@.len() && is_wanted_artifact(files@[i as int], arch@) && forall|j: int|
                0 <= j < i ==> !is_wanted_artifact(#[trigger] files@[j], arch@),
            None => forall|j: int| 0 <= j < files@.len() ==> !is_wanted_artifact(#[trigger] files@[j], arch@),
        },
        r matches Some(i) ==> files@[i as int].arch@ == arch@ && files@[i as int].os@ == "linux"@
            && files@[i as int].kind@ == "archive"@ && is_tar_gz_name(files@[i as int].filename@),
{
    let mut i: usize = 0;
    while i < files.len()
        invariant
            i <= files@.len(),
            forall|j: int| 0 <= j < i ==> !is_wanted_artifact(#[trigger] files@[j], arch@),
        decreases files@.len() - i,
    {
        if wanted_artifact(&files[i], arch) {
            proof {
                law_wanted_artifact_exact(files@[i as int], arch@);
            }
            return Some(i);
        }
        i = i + 1;
    }
    None
}

/// At most one release is the latest stable one, so the choice is determined.
pub proof fn law_latest_stable_unique(rs: Seq<GoRelease>, i: int, j: int)
    requires
        is_latest_stable(rs, i),
        is_latest_stable(rs, j),
    ensures
        i == j,
{
    if i < j {
        assert(lex_less(release_rank(rs[j]), release_rank(rs[i])));
        assert(!lex_less(release_rank(rs[j]), release_rank(rs[i])));
    } else if j < i {
        assert(lex_less(release_rank(rs[i]), release_rank(rs[j])));
        assert(!lex_less(release_rank(rs[i]), release_rank(rs[j])));
    }
}

/// The name ends in `.tar.gz`: at least seven characters, the last seven
/// being `.`, `t`, `a`, `r`, `.`, `g`, `z`.
pub open spec fn is_tar_gz_name(n: Seq<char>) -> bool {
    n.len() >= 7 && n.subrange(n.len() - 7, n.len() as int) == seq!['.', 't', 'a', 'r', '.', 'g', 'z']
}

/// Go's names for Rust architectures: `x86_64` is `amd64`, `aarch64` is
/// `arm64`, and every other name is kept as it is.
pub proof fn law_go_arch_names(arch: Seq<char>)
    ensures
        arch == "x86_64"@ ==> go_arch_name(arch) == "amd64"@,
        arch == "aarch64"@ ==> go_arch_name(arch) == "arm64"@,
        arch != "x86_64"@ && arch != "aarch64"@ ==> go_arch_name(arch) == arch,
{
    reveal_strlit("x86_64");
    reveal_strlit("aarch64");
    assert("aarch64"@.len() != "x86_64"@.len());
}

/// A file suits the machine exactly when it is for Linux, its architecture is
/// exactly the one asked for (no prefix or near match), it is an archive, and
/// its name ends in `.tar.gz`.
pub proof fn law_wanted_artifact_exact(f: GoFile, arch: Seq<char>)
    ensures
        is_wanted_artifact(f, arch) <==> (f.os@ == "linux"@ && f.arch@ == arch && f.kind@ == "archive"@
            && is_tar_gz_name(f.filename@)),
{
    reveal_strlit(".tar.gz");
    assert(".tar.gz"@ =~= seq!['.', 't', 'a', 'r', '.', 'g', 'z']);
}

/// The rank of a release is the version its tag reads as; only a tag that
/// reads as no version ranks as `0.0.0`.
pub proof fn law_release_rank(r: GoRelease)
    ensures
        parse_tag_spec(r.version@) matches Ok(v) ==> release_rank(r) == v,
        parse_tag_spec(r.version@) is Err ==> release_rank(r) == (GoSemver { major: 0, minor: 0, patch: 0 }),
{
}

/// No stable release reads as a newer version than the latest stable one, and
/// every stable release after it reads as an older one: newer is decided by
/// major, then minor, then patch, each compared as a number.
pub proof fn law_latest_stable_is_highest(rs: Seq<GoRelease>, i: int, j: int, v: GoSemver, w: GoSemver)
    requires
        is_latest_stable(rs, i),
        0 <= j < rs.len(),
        rs[j].stable,
        parse_tag_spec(rs[i].version@) == Ok::<GoSemver, crate::semver::SemverFailure>(v),
        parse_tag_spec(rs[j].version@) == Ok::<GoSemver, crate::semver::SemverFailure>(w),
    ensures
        !(v.major < w.major || (v.major == w.major && v.minor < w.minor) || (v.major == w.major && v.minor
            == w.minor && v.patch < w.patch)),
        i < j ==> (w.major < v.major || (w.major == v.major && w.minor < v.minor) || (w.major == v.major
            && w.minor == v.minor && w.patch < v.patch)),
{
    assert(rs[j].stable);
    assert(!lex_less(release_rank(rs[i]), release_rank(rs[j])));
}

} // verus!
