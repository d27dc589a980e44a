//! The decisions behind the system access of [`RealSys`]: whether the process
//! counts as root, how the version of a `go` binary is read from its output,
//! and in which order a command is tried with root rights.
use vstd::prelude::*;

use crate::decimal::{push_signed_decimal, signed_decimal_text};
use crate::text::{concat_str, str_eq};

verus! {

#[verifier::external_type_specification]
#[verifier::external_body]
pub struct ExRegexError(regex::Error);

/// Whether `regex::Regex::new` accepts `pattern` (it refuses invalid patterns
/// and ones that compile to more than its default size limit).
pub uninterp spec fn pattern_compiles(pattern: Seq<char>) -> bool;

/// The text that capture group `group` matched in the leftmost-first match of
/// `pattern` in `haystack`, as `regex::Regex::captures` and `Captures::get`
/// give it; `None` where nothing matches or the group took no part.
pub uninterp spec fn leftmost_capture(pattern: Seq<char>, haystack: Seq<char>, group: nat) -> Option<
    Seq<char>,
>;

/// A digit or a dot: what `[0-9.]` matches.
pub open spec fn is_version_char(c: char) -> bool {
    ('0' <= c && c <= '9') || c == '.'
}

/// How many digits and dots `s` starts with.
pub open spec fn version_run(s: Seq<char>) -> nat
    decreases s.len(),
{
    if s.len() == 0 || !is_version_char(s[0]) {
        0
    } else {
        1 + version_run(s.drop_first())
    }
}

/// `go version (go[0-9.]+)` can match at position `p` of `h`: the text
/// `go version go` starts there and a digit or dot follows it.
pub open spec fn version_match_at(h: Seq<char>, p: int) -> bool {
    &&& 0 <= p
    &&& p + 13 < h.len()
    &&& h.subrange(p, p + 13) == "go version go"@
    &&& is_version_char(h[p + 13])
}

/// Group 1 of the leftmost match of `go version (go[0-9.]+)` in `h`: at the
/// first position where the pattern can match, `go` and the whole run of
/// digits and dots after `go version go`; `None` where it matches nowhere.
pub open spec fn go_version_capture(h: Seq<char>) -> Option<Seq<char>> {
    if exists|p: int| version_match_at(h, p) {
        let p = choose|p: int|
            version_match_at(h, p) && forall|q: int| 0 <= q < p ==> !version_match_at(h, q);
        Some(h.subrange(p + 11, p + 13 + version_run(h.skip(p + 13))))
    } else {
        None
    }
}

/// Compiles `pattern` with `regex::Regex::new`, then takes capture group
/// `group` of the first match in `haystack` (`Regex::captures`,
/// `Captures::get`). The contract claims that compiling succeeds exactly
/// when [`pattern_compiles`] holds, and that the text returned is
/// [`leftmost_capture`]. For the version pattern `go version (go[0-9.]+)`
/// and group 1 it states both: the pattern compiles (it is a literal, a
/// group and one ASCII class under `+`), and the regex crate's leftmost-first
/// search with a greedy `+` at the end captures [`go_version_capture`].
#[verifier::external_body]
fn capture_group(pattern: &str, haystack: &str, group: usize) -> (r: Result<Option<String>, regex::Error>)
    ensures
        r is Ok <==> pattern_compiles(pattern@),
        r matches Ok(c) ==> match c {
            Some(t) => leftmost_capture(pattern@, haystack@, group as nat) == Some(t@),
            None => leftmost_capture(pattern@, haystack@, group as nat) is None,
        },
        r is Ok || pattern@ != go_version_pattern(),
        r matches Ok(c) ==> (pattern@ == go_version_pattern() && group == 1 ==> match c {
            Some(t) => go_version_capture(haystack@) == Some(t@),
            None => go_version_capture(haystack@) is None,
        }),
{
    let re = regex::Regex::new(pattern)?;
    let Some(caps) = re.captures(haystack) else {
        return Ok(None);
    };
    let Some(m) = caps.get(group) else {
        return Ok(None);
    };
    Ok(Some(m.as_str().to_string()))
}

/// The pattern that finds the version tag in the output of `go version`.
pub open spec fn go_version_pattern() -> Seq<char> {
    "go version (go[0-9.]+)"@
}

/// An exit code as `{:?}` writes an `Option<i32>`: `None` or `Some(<code>)`.
pub open spec fn debug_exit_code(code: Option<i32>) -> Seq<char> {
    match code {
        None => "None"@,
        Some(c) => "Some("@ + signed_decimal_text(c as int) + ")"@,
    }
}

/// Why running `go version` gave no version.
#[derive(Debug, Clone, PartialEq, Eq)]
pub enum GoVersionError {
    /// `go version` did not exit successfully; it carries the exit code, if any.
    ExitStatus(Option<i32>),
    /// The version pattern did not compile; it carries the regex error text.
    BadPattern(String),
    /// The output does not hold `go version go<digits and dots>`; it carries the output.
    ParseFailed(String),
}

impl GoVersionError {
    /// The error text: `` `go version` exit code <code> `` (the code as `{:?}`
    /// writes an `Option<i32>`), the regex error, or `parse gagal: <output>`.
    pub fn message(&self) -> (r: String)
        ensures
            match self {
                GoVersionError::ExitStatus(code) => r@ == "`go version` exit code "@ + debug_exit_code(*code),
                GoVersionError::BadPattern(m) => r@ == m@,
                GoVersionError::ParseFailed(o) => r@ == "parse gagal: "@ + o@,
            },
    {
        match self {
            GoVersionError::ExitStatus(code) => {
                let mut r = String::from_str("`go version` exit code ");
                match code {
                    None => r.append("None"),
                    Some(c) => {
                        r.append("Some(");
                        push_signed_decimal(&mut r, *c);
                        r.append(")");
                    },
                }
                proof {
                    reveal_strlit("None");
                    reveal_strlit("Some(");
                    reveal_strlit(")");
                }
                r
            },
            GoVersionError::BadPattern(m) => m.clone(),
            GoVersionError::ParseFailed(o) => concat_str("parse gagal: ", o.as_str()),
        }
    }
}

/// Reaches the version tag on `PATH`, runs commands with root rights, and
/// tells whether the process runs as root.
pub struct RealSys;

impl RealSys {
    /// Whether the process counts as root: when `GO_UPDATER_ASSUME_ROOT` is
    /// `1` (given here as `root_override`), or when the effective user id is 0.
    pub fn is_root_from(root_override: Option<&str>, euid: u32) -> (r: bool)
        ensures
            r == ((root_override matches Some(v) && v@ == "1"@) || euid == 0),
    {
        match root_override {
            Some(v) => str_eq(v, "1") || euid == 0,
            None => euid == 0,
        }
    }

    /// The version tag from a captured match of the version pattern:
    /// the capture itself, or a parse failure that carries `output`.
    pub fn go_version_from_capture(capture: Option<String>, output: &str) -> (r: Result<String, GoVersionError>)
        ensures
            match capture {
                Some(v) => r == Ok::<String, GoVersionError>(v),
                None => r matches Err(GoVersionError::ParseFailed(o)) && o@ == output@,
            },
    {
        match capture {
            Some(v) => Ok(v),
            None => Err(GoVersionError::ParseFailed(String::from_str(output))),
        }
    }

    /// Reads the version tag from the output of `go version`: the text that
    /// `go version (go[0-9.]+)` captures in it (see [`go_version_capture`]).
    pub fn go_version_from_output(output: &str) -> (r: Result<String, GoVersionError>)
        ensures
            match go_version_capture(output@) {
                Some(v) => r matches Ok(t) && t@ == v,
                None => r matches Err(GoVersionError::ParseFailed(o)) && o@ == output@,
            },
    {
        proof {
            reveal_strlit("go version (go[0-9.]+)");
        }
        match capture_group("go version (go[0-9.]+)", output, 1) {
            Ok(c) => RealSys::go_version_from_capture(c, output),
            Err(e) => Err(GoVersionError::BadPattern(e.to_string())),
        }
    }

    /// The version tag from a run of `go version`: an error carrying the exit
    /// code when the run did not succeed, else the tag read from its standard
    /// output (see [`RealSys::go_version_from_output`]).
    pub fn go_version_from_run(success: bool, code: Option<i32>, stdout: &str) -> (r: Result<String, GoVersionError>)
        ensures
            !success ==> r == Err::<String, GoVersionError>(GoVersionError::ExitStatus(code)),
            success ==> match go_version_capture(stdout@) {
                Some(v) => r matches Ok(t) && t@ == v,
                None => r matches Err(GoVersionError::ParseFailed(o)) && o@ == stdout@,
            },
    {
        if !success {
            return Err(GoVersionError::ExitStatus(code));
        }
        RealSys::go_version_from_output(stdout)
    }
}

/// Where the version pattern matches somewhere, it matches at a first position.
proof fn lemma_first_version_match(h: Seq<char>, p: int)
    requires
        version_match_at(h, p),
    ensures
        exists|q: int| version_match_at(h, q) && forall|r: int| 0 <= r < q ==> !version_match_at(h, r),
    decreases p,
{
    if exists|q: int| 0 <= q < p && version_match_at(h, q) {
        let q = choose|q: int| 0 <= q < p && version_match_at(h, q);
        lemma_first_version_match(h, q);
    } else {
        assert(forall|r: int| 0 <= r < p ==> !version_match_at(h, r));
    }
}

/// The digits and dots `s` starts with are digits and dots, at most all of `s`.
proof fn lemma_version_run(s: Seq<char>)
    ensures
        version_run(s) <= s.len(),
        forall|i: int| 0 <= i < version_run(s) ==> is_version_char(#[trigger] s[i]),
    decreases s.len(),
{
    if s.len() > 0 && is_version_char(s[0]) {
        let t = s.drop_first();
        lemma_version_run(t);
        assert forall|i: int| 0 <= i < version_run(s) implies is_version_char(#[trigger] s[i]) by {
            if i > 0 {
                assert(s[i] == t[i - 1]);
            }
        }
    }
}

/// The version read from `go version` output is `go` followed by one or more
/// digits and dots, and it stands in the output as it is.
pub proof fn law_version_tag_shape(h: Seq<char>, v: Seq<char>)
    requires
        go_version_capture(h) == Some(v),
    ensures
        v.len() >= 3,
        v[0] == 'g' && v[1] == 'o',
        forall|i: int| 2 <= i < v.len() ==> is_version_char(#[trigger] v[i]),
        exists|p: int| 0 <= p && p + v.len() <= h.len() && #[trigger] h.subrange(p, p + v.len()) == v,
{
    let w = choose|p: int| version_match_at(h, p);
    lemma_first_version_match(h, w);
    let p = choose|p: int|
        version_match_at(h, p) && forall|q: int| 0 <= q < p ==> !version_match_at(h, q);
    let t = h.skip(p + 13);
    lemma_version_run(t);
    assert(t[0] == h[p + 13]);
    assert(version_run(t) >= 1) by {
        assert(t.len() > 0 && is_version_char(t[0]));
    }
    let k = version_run(t);
    assert(v == h.subrange(p + 11, p + 13 + k));
    let lit = "go version go"@;
    reveal_strlit("go version go");
    assert(h.subrange(p, p + 13)[11] == lit[11]);
    assert(h.subrange(p, p + 13)[12] == lit[12]);
    assert(v[0] == h[p + 11]);
    assert(v[1] == h[p + 12]);
    assert forall|i: int| 2 <= i < v.len() implies is_version_char(#[trigger] v[i]) by {
        assert(v[i] == h[p + 11 + i]);
        assert(t[i - 2] == h[p + 13 + i - 2]);
    }
    assert(h.subrange(p + 11, p + 11 + v.len()) == v);
}

} // verus!
