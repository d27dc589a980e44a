//! Go release tags (`go1.25.2`) and the versions they name.
use vstd::prelude::*;

use crate::decimal::{
    decimal_text, decimal_value, is_digit, leading_digits, lemma_decimal_text, lemma_parse_decimal_text,
    parse_u64, parse_u64_spec, unsigned_digits, IntErrorKind,
};
use crate::text::chars_of;

verus! {

/// A Go version: `major.minor.patch`, compared field by field.
#[derive(Debug, Clone, Copy, PartialEq, Eq, Ord, Structural)]
pub struct GoSemver {
    pub major: u64,
    pub minor: u64,
    pub patch: u64,
}

/// Why a tag does not name a Go version.
#[derive(Debug, Clone, PartialEq, Eq)]
pub enum SemverError {
    /// The tag does not start with `go`; it carries the tag.
    NotGoFormat(String),
    /// A version field is not an unsigned 64-bit decimal number.
    InvalidNumber(IntErrorKind),
}

/// The mathematical content of a [`SemverError`].
pub enum SemverFailure {
    NotGoFormat(Seq<char>),
    InvalidNumber(IntErrorKind),
}

impl View for SemverError {
    type V = SemverFailure;

    open spec fn view(&self) -> SemverFailure {
        match self {
            SemverError::NotGoFormat(t) => SemverFailure::NotGoFormat(t@),
            SemverError::InvalidNumber(k) => SemverFailure::InvalidNumber(*k),
        }
    }
}

impl SemverError {
    /// The error text: `not a Go format: <tag>`, or the number error's text.
    pub fn message(&self) -> (r: String)
        ensures
            match self {
                SemverError::NotGoFormat(t) => r@ == "not a Go format: "@ + t@,
                SemverError::InvalidNumber(k) => r@ == k.message_spec(),
            },
    {
        match self {
            SemverError::NotGoFormat(t) => crate::text::concat_str("not a Go format: ", t.as_str()),
            SemverError::InvalidNumber(k) => k.message(),
        }
    }
}

/// Number of characters before the first `.` (all of them if there is none).
pub open spec fn field_len(s: Seq<char>) -> nat
    decreases s.len(),
{
    if s.len() == 0 || s[0] == '.' {
        0
    } else {
        1 + field_len(s.drop_first())
    }
}

/// The `n`-th piece of `s` split at every `.`, if there are that many.
pub open spec fn nth_field(s: Seq<char>, n: nat) -> Option<Seq<char>>
    decreases n,
{
    let k = field_len(s);
    if n == 0 {
        Some(s.take(k as int))
    } else if k < s.len() {
        nth_field(s.skip(k + 1 as int), (n - 1) as nat)
    } else {
        None
    }
}

/// The `n`-th field, or `"0"` where the tag has fewer fields.
pub open spec fn field_or_zero(s: Seq<char>, n: nat) -> Seq<char> {
    match nth_field(s, n) {
        Some(f) => f,
        None => seq!['0'],
    }
}

pub open spec fn has_go_prefix(t: Seq<char>) -> bool {
    t.len() >= 2 && t[0] == 'g' && t[1] == 'o'
}

/// What a tag names: after the `go` prefix, the first three `.`-separated
/// fields are major, minor and patch; missing ones are zero, later ones are
/// ignored, and the first field that is not a number decides the error.
pub open spec fn parse_tag_spec(tag: Seq<char>) -> Result<GoSemver, SemverFailure> {
    if !has_go_prefix(tag) {
        Err(SemverFailure::NotGoFormat(tag))
    } else {
        let body = tag.skip(2);
        match parse_u64_spec(field_or_zero(body, 0)) {
            Err(k) => Err(SemverFailure::InvalidNumber(k)),
            Ok(major) => match parse_u64_spec(field_or_zero(body, 1)) {
                Err(k) => Err(SemverFailure::InvalidNumber(k)),
                Ok(minor) => match parse_u64_spec(field_or_zero(body, 2)) {
                    Err(k) => Err(SemverFailure::InvalidNumber(k)),
                    Ok(patch) => Ok(GoSemver { major, minor, patch }),
                },
            },
        }
    }
}

/// `field_len` is the index of the first `.`.
pub proof fn lemma_field_len(s: Seq<char>, i: int)
    requires
        0 <= i <= s.len(),
        forall|j: int| 0 <= j < i ==> #[trigger] s[j] != '.',
        i == s.len() || s[i] == '.',
    ensures
        field_len(s) == i,
    decreases i,
{
    if i > 0 {
        let t = s.drop_first();
        assert forall|j: int| 0 <= j < i - 1 implies #[trigger] t[j] != '.' by {
            assert(t[j] == s[j + 1]);
        }
        if i - 1 < t.len() {
            assert(t[i - 1] == s[i]);
        }
        lemma_field_len(t, i - 1);
    }
}

/// The text `"0"` reads as zero.
pub proof fn lemma_parse_zero()
    ensures
        parse_u64_spec(seq!['0']) == Ok::<u64, IntErrorKind>(0),
{
    let z = seq!['0'];
    assert(unsigned_digits(z) == z);
    assert(z.drop_first().len() == 0);
    assert(leading_digits(z.drop_first()) == 0);
    assert(leading_digits(z) == 1);
    assert(z.take(1) =~= z);
    assert(z.drop_last().len() == 0);
    assert(decimal_value(z.drop_last()) == 0);
    assert(decimal_value(z) == 0);
}

/// Index of the first `.` in `s[from..]`, or `s.len()`.
fn find_dot(s: &[char], from: usize) -> (e: usize)
    requires
        from <= s@.len(),
    ensures
        from <= e <= s@.len(),
        field_len(s@.skip(from as int)) == e - from,
{
    let mut e = from;
    while e < s.len() && s[e] != '.'
        invariant
            from <= e <= s@.len(),
            forall|j: int| from <= j < e ==> #[trigger] s@[j] != '.',
        decreases s@.len() - e,
    {
        e = e + 1;
    }
    proof {
        let t = s@.skip(from as int);
        assert forall|j: int| 0 <= j < e - from implies #[trigger] t[j] != '.' by {
            assert(t[j] == s@[j + from]);
        }
        if e < s@.len() {
            assert(t[e - from] == s@[e as int]);
        }
        lemma_field_len(t, e - from);
    }
    e
}

/// Where `field` sits in `s`: `Some((start, end))` when it is `s[start..end]`.
pub open spec fn field_at(s: Seq<char>, field: Option<Seq<char>>, pos: Option<(usize, usize)>) -> bool {
    match pos {
        Some((a, e)) => a <= e <= s.len() && field == Some(s.subrange(a as int, e as int)),
        None => field is None,
    }
}

/// Locates the first three `.`-separated fields of `s`.
fn locate_fields(s: &[char]) -> (r: (Option<(usize, usize)>, Option<(usize, usize)>, Option<(usize, usize)>))
    ensures
        field_at(s@, nth_field(s@, 0), r.0),
        field_at(s@, nth_field(s@, 1), r.1),
        field_at(s@, nth_field(s@, 2), r.2),
{
    let n = s.len();
    let e0 = find_dot(s, 0);
    assert(s@.skip(0) =~= s@);
    assert(s@.subrange(0, e0 as int) =~= s@.take(e0 as int));
    if e0 < n {
        let ghost b1 = s@.skip(e0 + 1);
        assert(nth_field(s@, 1) == nth_field(b1, 0));
        assert(nth_field(s@, 2) == nth_field(b1, 1));
        let e1 = find_dot(s, e0 + 1);
        assert(s@.subrange(e0 + 1, e1 as int) =~= b1.take(e1 - (e0 + 1)));
        if e1 < n {
            let ghost b2 = b1.skip(e1 - e0);
            assert(b2 =~= s@.skip(e1 + 1));
            assert(nth_field(b1, 1) == nth_field(b2, 0));
            let e2 = find_dot(s, e1 + 1);
            assert(s@.subrange(e1 + 1, e2 as int) =~= b2.take(e2 - (e1 + 1)));
            (Some((0, e0)), Some((e0 + 1, e1)), Some((e1 + 1, e2)))
        } else {
            assert(nth_field(b1, 1) is None);
            (Some((0, e0)), Some((e0 + 1, e1)), None)
        }
    } else {
        assert(nth_field(s@, 1) is None);
        assert(nth_field(s@, 2) is None);
        (Some((0, e0)), None, None)
    }
}

/// Reads the field at `pos` as a number; a missing field reads as `"0"`.
fn read_number(s: &[char], pos: Option<(usize, usize)>, Ghost(field): Ghost<Option<Seq<char>>>)
    -> (r: Result<u64, IntErrorKind>)
    requires
        field_at(s@, field, pos),
    ensures
        r == parse_u64_spec(
            match field {
                Some(f) => f,
                None => seq!['0'],
            },
        ),
{
    match pos {
        Some((a, e)) => parse_u64(&s[a..e]),
        None => {
            proof {
                lemma_parse_zero();
            }
            Ok(0)
        },
    }
}

impl GoSemver {
    /// Reads a Go release tag such as `go1.25.2` (see [`parse_tag_spec`]).
    pub fn parse(tag: &str) -> (r: Result<GoSemver, SemverError>)
        ensures
            match r {
                Ok(v) => parse_tag_spec(tag@) == Ok::<GoSemver, SemverFailure>(v),
                Err(e) => parse_tag_spec(tag@) == Err::<GoSemver, SemverFailure>(e@),
            },
    {
        let t = chars_of(tag);
        if !(t.len() >= 2 && t[0] == 'g' && t[1] == 'o') {
            return Err(SemverError::NotGoFormat(tag.to_owned()));
        }
        let s: &[char] = &t.as_slice()[2..t.len()];
        assert(s@ =~= tag@.skip(2));
        let (p0, p1, p2) = locate_fields(s);
        let major = match read_number(s, p0, Ghost(nth_field(s@, 0))) {
            Ok(v) => v,
            Err(k) => return Err(SemverError::InvalidNumber(k)),
        };
        let minor = match read_number(s, p1, Ghost(nth_field(s@, 1))) {
            Ok(v) => v,
            Err(k) => return Err(SemverError::InvalidNumber(k)),
        };
        let patch = match read_number(s, p2, Ghost(nth_field(s@, 2))) {
            Ok(v) => v,
            Err(k) => return Err(SemverError::InvalidNumber(k)),
        };
        Ok(GoSemver { major, minor, patch })
    }
}

/// The tag `go<a>.<b>.<c>`, each number spelled in decimal.
pub open spec fn tag_text(a: nat, b: nat, c: nat) -> Seq<char> {
    seq!['g', 'o'] + decimal_text(a) + seq!['.'] + decimal_text(b) + seq!['.'] + decimal_text(c)
}

/// A field with no `.` in it ends where the text ends, or at the `.` after it.
proof fn lemma_split_after_field(x: Seq<char>, y: Seq<char>, n: nat)
    requires
        forall|j: int| 0 <= j < x.len() ==> #[trigger] x[j] != '.',
    ensures
        nth_field(x, 0) == Some(x),
        n > 0 ==> nth_field(x, n) is None,
        nth_field(x + seq!['.'] + y, 0) == Some(x),
        nth_field(x + seq!['.'] + y, n + 1) == nth_field(y, n),
{
    let z = x + seq!['.'] + y;
    lemma_field_len(x, x.len() as int);
    assert(x.take(x.len() as int) =~= x);
    assert forall|j: int| 0 <= j < x.len() implies #[trigger] z[j] != '.' by {
        assert(z[j] == x[j]);
    }
    assert(z[x.len() as int] == '.');
    lemma_field_len(z, x.len() as int);
    assert(z.take(x.len() as int) =~= x);
    assert(z.skip(x.len() + 1 as int) =~= y);
}

/// Decimal spellings hold no `.`.
proof fn lemma_no_dot_in_decimal(n: nat)
    ensures
        forall|j: int| 0 <= j < decimal_text(n).len() ==> #[trigger] decimal_text(n)[j] != '.',
{
    lemma_decimal_text(n);
    assert forall|j: int| 0 <= j < decimal_text(n).len() implies #[trigger] decimal_text(n)[j] != '.' by {
        assert(is_digit(decimal_text(n)[j]));
    }
}

/// Reading the tag `go<major>.<minor>.<patch>` gives the version back.
pub proof fn law_parse_rendered_tag(v: GoSemver)
    ensures
        parse_tag_spec(tag_text(v.major as nat, v.minor as nat, v.patch as nat)) == Ok::<
            GoSemver,
            SemverFailure,
        >(v),
{
    let (da, db, dc) = (decimal_text(v.major as nat), decimal_text(v.minor as nat), decimal_text(v.patch as nat));
    let t = tag_text(v.major as nat, v.minor as nat, v.patch as nat);
    let body = da + seq!['.'] + (db + seq!['.'] + dc);
    assert(t.skip(2) =~= body);
    lemma_no_dot_in_decimal(v.major as nat);
    lemma_no_dot_in_decimal(v.minor as nat);
    lemma_no_dot_in_decimal(v.patch as nat);
    lemma_split_after_field(da, db + seq!['.'] + dc, 0);
    lemma_split_after_field(da, db + seq!['.'] + dc, 1);
    lemma_split_after_field(db, dc, 0);
    lemma_split_after_field(dc, seq![], 0);
    lemma_parse_decimal_text(v.major);
    lemma_parse_decimal_text(v.minor);
    lemma_parse_decimal_text(v.patch);
}

/// Fields after the third are ignored: `go<a>.<b>.<c>.<anything>` reads as `go<a>.<b>.<c>`.
pub proof fn law_extra_fields_ignored(v: GoSemver, rest: Seq<char>)
    ensures
        parse_tag_spec(tag_text(v.major as nat, v.minor as nat, v.patch as nat) + seq!['.'] + rest)
            == Ok::<GoSemver, SemverFailure>(v),
{
    let (da, db, dc) = (decimal_text(v.major as nat), decimal_text(v.minor as nat), decimal_text(v.patch as nat));
    let t = tag_text(v.major as nat, v.minor as nat, v.patch as nat) + seq!['.'] + rest;
    let tail = db + seq!['.'] + (dc + seq!['.'] + rest);
    let body = da + seq!['.'] + tail;
    assert(t.skip(2) =~= body);
    lemma_no_dot_in_decimal(v.major as nat);
    lemma_no_dot_in_decimal(v.minor as nat);
    lemma_no_dot_in_decimal(v.patch as nat);
    lemma_split_after_field(da, tail, 0);
    lemma_split_after_field(da, tail, 1);
    lemma_split_after_field(db, dc + seq!['.'] + rest, 0);
    lemma_split_after_field(dc, rest, 0);
    lemma_parse_decimal_text(v.major);
    lemma_parse_decimal_text(v.minor);
    lemma_parse_decimal_text(v.patch);
}

/// Missing minor and patch fields read as zero: `go<a>` is `a.0.0` and
/// `go<a>.<b>` is `a.b.0`.
pub proof fn law_missing_fields_are_zero(a: u64, b: u64)
    ensures
        parse_tag_spec(seq!['g', 'o'] + decimal_text(a as nat)) == Ok::<GoSemver, SemverFailure>(
            GoSemver { major: a, minor: 0, patch: 0 },
        ),
        parse_tag_spec(seq!['g', 'o'] + decimal_text(a as nat) + seq!['.'] + decimal_text(b as nat))
            == Ok::<GoSemver, SemverFailure>(GoSemver { major: a, minor: b, patch: 0 }),
{
    let (da, db) = (decimal_text(a as nat), decimal_text(b as nat));
    let t1 = seq!['g', 'o'] + da;
    let t2 = seq!['g', 'o'] + da + seq!['.'] + db;
    assert(t1.skip(2) =~= da);
    assert(t2.skip(2) =~= da + seq!['.'] + db);
    lemma_no_dot_in_decimal(a as nat);
    lemma_no_dot_in_decimal(b as nat);
    lemma_split_after_field(da, db, 0);
    lemma_split_after_field(da, db, 1);
    lemma_split_after_field(da, seq![], 1);
    lemma_split_after_field(da, seq![], 2);
    lemma_split_after_field(db, seq![], 1);
    lemma_parse_decimal_text(a);
    lemma_parse_decimal_text(b);
    lemma_parse_zero();
}

/// A tag that does not start with `go` is refused, whatever follows.
pub proof fn law_tag_needs_go_prefix(tag: Seq<char>)
    requires
        !has_go_prefix(tag),
    ensures
        parse_tag_spec(tag) == Err::<GoSemver, SemverFailure>(SemverFailure::NotGoFormat(tag)),
{
}

} // verus!
