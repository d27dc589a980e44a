//! How Go versions are ordered: by major, then minor, then patch.
use core::cmp::Ordering;
use vstd::prelude::*;

use crate::semver::GoSemver;
use vstd::std_specs::cmp::PartialOrdSpecImpl;

verus! {

/// `a` comes strictly before `b`: the first field in which they differ is
/// smaller in `a`.
pub open spec fn lex_less(a: GoSemver, b: GoSemver) -> bool {
    ||| a.major < b.major
    ||| (a.major == b.major && a.minor < b.minor)
    ||| (a.major == b.major && a.minor == b.minor && a.patch < b.patch)
}

/// The three-way comparison of two versions.
pub open spec fn order_of(a: GoSemver, b: GoSemver) -> Ordering {
    if lex_less(a, b) {
        Ordering::Less
    } else if a == b {
        Ordering::Equal
    } else {
        Ordering::Greater
    }
}

impl GoSemver {
    /// Whether `self` is an earlier version than `other`.
    pub fn older_than(&self, other: &GoSemver) -> (r: bool)
        ensures
            r == lex_less(*self, *other),
    {
        self.major < other.major || (self.major == other.major && (self.minor < other.minor || (
        self.minor == other.minor && self.patch < other.patch)))
    }

    /// Compares two versions field by field, as `(major, minor, patch)` tuples compare.
    pub fn compare(&self, other: &GoSemver) -> (o: Ordering)
        ensures
            o == order_of(*self, *other),
    {
        if self.older_than(other) {
            Ordering::Less
        } else if self.major == other.major && self.minor == other.minor && self.patch
            == other.patch {
            Ordering::Equal
        } else {
            Ordering::Greater
        }
    }
}

impl PartialOrd for GoSemver {
    /// Always `Some`: versions are totally ordered, as [`GoSemver::compare`] orders them.
    fn partial_cmp(&self, other: &GoSemver) -> (r: Option<Ordering>) {
        Some(self.compare(other))
    }
}

impl PartialOrdSpecImpl for GoSemver {
    open spec fn obeys_partial_cmp_spec() -> bool {
        true
    }

    open spec fn partial_cmp_spec(&self, other: &GoSemver) -> Option<Ordering> {
        Some(order_of(*self, *other))
    }
}

/// Versions are totally ordered: of `a < b`, `a == b` and `b < a` exactly one holds.
pub proof fn law_version_order_total(a: GoSemver, b: GoSemver)
    ensures
        lex_less(a, b) || a == b || lex_less(b, a),
        !(lex_less(a, b) && lex_less(b, a)),
        !(lex_less(a, b) && a == b),
{
}

/// The order on versions is transitive.
pub proof fn law_version_order_transitive(a: GoSemver, b: GoSemver, c: GoSemver)
    requires
        lex_less(a, b),
        lex_less(b, c),
    ensures
        lex_less(a, c),
{
}

/// Swapping the operands of a comparison reverses its result, and a version
/// compares equal exactly to itself.
pub proof fn law_compare_antisymmetric(a: GoSemver, b: GoSemver)
    ensures
        order_of(a, b) == Ordering::Less <==> order_of(b, a) == Ordering::Greater,
        order_of(a, b) == Ordering::Equal <==> a == b,
{
}

/// A larger major version is newer, whatever the minor and patch numbers.
pub proof fn law_newer_major_is_newer(a: GoSemver, b: GoSemver)
    requires
        a.major < b.major,
    ensures
        lex_less(a, b),
        !lex_less(b, a),
        order_of(a, b) == Ordering::Less,
{
}

/// With equal majors, a larger minor version is newer, whatever the patches.
pub proof fn law_newer_minor_is_newer(a: GoSemver, b: GoSemver)
    requires
        a.major == b.major,
        a.minor < b.minor,
    ensures
        lex_less(a, b),
        !lex_less(b, a),
        order_of(a, b) == Ordering::Less,
{
}

/// With equal majors and minors, a larger patch number is newer (numbers are
/// compared by value, so `1.22.10` is newer than `1.22.9`).
pub proof fn law_newer_patch_is_newer(a: GoSemver, b: GoSemver)
    requires
        a.major == b.major,
        a.minor == b.minor,
        a.patch < b.patch,
    ensures
        lex_less(a, b),
        !lex_less(b, a),
        order_of(a, b) == Ordering::Less,
{
}

/// A version is older than another only if one of these holds: its major is
/// smaller; or the majors agree and its minor is smaller; or majors and minors
/// agree and its patch is smaller.
pub proof fn law_older_only_by_fields(a: GoSemver, b: GoSemver)
    requires
        lex_less(a, b),
    ensures
        a.major < b.major || (a.major == b.major && a.minor < b.minor) || (a.major == b.major && a.minor
            == b.minor && a.patch < b.patch),
{
}

} // verus!
