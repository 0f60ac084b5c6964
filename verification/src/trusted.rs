//! Declarations for the outside crates that the library calls: the opaque
//! JSON value and URL types, and thin wrappers around the few outside
//! functions the logic needs.

use vstd::prelude::*;

verus! {

/// Declares serde_json's JSON value type so that it can stand in fields and
/// signatures. The library carries such values through without reading them.
#[verifier::external_type_specification]
#[verifier::external_body]
pub struct ExValue(serde_json::Value);

/// Relies on serde_json::Value's derived Clone: a deep copy, equal to the
/// original in every observable way.
pub assume_specification[ <serde_json::Value as Clone>::clone ](
    v: &serde_json::Value,
) -> (r: serde_json::Value)
    ensures
        r == *v,
;

/// Declares url's parsed-URL type. Values of it are produced by
/// `url::Url::parse` and handed to the transport unread.
#[verifier::external_type_specification]
#[verifier::external_body]
pub struct ExUrl(url::Url);

/// Whether url::Url::parse accepts the string: a function of the characters
/// alone, too large to spell out here.
pub uninterp spec fn spec_url_ok(s: Seq<char>) -> bool;

/// Relies on url::Url::parse: validates an absolute URL string, succeeding
/// exactly when the string is a valid URL. Nothing further is assumed of the
/// parsed value.
#[verifier::external_body]
pub(crate) fn parse_url(s: &str) -> (r: Option<url::Url>)
    ensures
        r is Some <==> spec_url_ok(s@),
{
    url::Url::parse(s).ok()
}

/// Relies on rand::random: draws a machine random number. Nothing is
/// promised of the value.
#[verifier::external_body]
pub(crate) fn random_u64() -> u64 {
    rand::random::<u64>()
}

/// True when `p` occurs as a contiguous subsequence of `s`.
pub open spec fn spec_str_contains(s: Seq<char>, p: Seq<char>) -> bool {
    exists|i: int|
        0 <= i && i + p.len() <= s.len() && #[trigger] s.subrange(i, i + p.len() as int) == p
}

/// Relies on str::contains: true exactly when the pattern occurs as a
/// substring of `s`.
#[verifier::external_body]
pub(crate) fn str_contains(s: &str, p: &str) -> (r: bool)
    ensures
        r == spec_str_contains(s@, p@),
{
    s.contains(p)
}

} // verus!
