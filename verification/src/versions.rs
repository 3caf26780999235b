//! Semantic versions of installed themes, parsed and ordered by the `semver`
//! crate.

use vstd::prelude::*;

use crate::text::opt_str;

verus! {

/// What `semver::Version::parse` reports for `text`: `None` when it is a
/// valid semantic version, else the text of the parse error. Named, not
/// restated: the grammar is the crate's; it depends on the text alone.
pub uninterp spec fn semver_parse_error(text: Seq<char>) -> Option<Seq<char>>;

/// The precedence of version `a` against version `b` under the total order
/// `Ord for semver::Version` (major, minor, patch, pre-release, build
/// metadata): negative, zero or positive.
pub uninterp spec fn semver_precedence(a: Seq<char>, b: Seq<char>) -> int;

/// Calls `semver::Version::parse` and keeps only its error, rendered with
/// `Display`. Claims that the outcome is the named one for this text.
#[verifier::external_body]
pub(crate) fn version_parse_error(text: &str) -> (r: Option<String>)
    ensures
        opt_str(r) == semver_parse_error(text@),
{
    semver::Version::parse(text).err().map(|error| error.to_string())
}

/// Compares two versions with `Ord for semver::Version`, on the values
/// `semver::Version::parse` gives for them. Claims that the result is the
/// named precedence, that it is -1, 0 or 1, and that a version has the
/// precedence of itself (the order is reflexive).
#[verifier::external_body]
pub(crate) fn version_precedence(a: &str, b: &str) -> (r: i8)
    requires
        semver_parse_error(a@) is None,
        semver_parse_error(b@) is None,
    ensures
        r == semver_precedence(a@, b@),
        -1 <= r <= 1,
        a@ == b@ ==> r == 0,
{
    match semver::Version::parse(a).ok().cmp(&semver::Version::parse(b).ok()) {
        std::cmp::Ordering::Less => -1,
        std::cmp::Ordering::Equal => 0,
        std::cmp::Ordering::Greater => 1,
    }
}

} // verus!
