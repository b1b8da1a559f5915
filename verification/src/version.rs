//! Comparison of version strings: by semantic-version precedence where both
//! sides are semantic versions, by the order of strings otherwise.

use crate::text::{
    chars_of, is_lex_greater, lemma_lex_greater_is_strict, lex_greater, lowercase_of, same_text,
    slice_of, string_of, to_lowercase,
};
use vstd::prelude::*;

verus! {

/// How one semantic version stands to another in precedence.
#[derive(Debug, Clone, Copy, PartialEq, Eq, Structural)]
pub enum Precedence {
    Lower,
    Same,
    Higher,
}

/// What the `semver` crate says of two texts: `None` where one of them is no
/// semantic version, else how the version that `a` spells stands to the one
/// that `b` spells in precedence, which goes by the numbers and the
/// pre-release and leaves build metadata out.
pub uninterp spec fn semver_precedence(a: Seq<char>, b: Seq<char>) -> Option<Precedence>;

/// `semver::Version::parse` on both texts and `Version::cmp_precedence` on
/// the versions: the result is the named verdict of the crate on the two
/// texts.
#[verifier::external_body]
fn compare_semver(a: &str, b: &str) -> (verdict: Option<Precedence>)
    ensures
        verdict == semver_precedence(a@, b@),
{
    match (semver::Version::parse(a), semver::Version::parse(b)) {
        (Ok(x), Ok(y)) => Some(
            match x.cmp_precedence(&y) {
                std::cmp::Ordering::Less => Precedence::Lower,
                std::cmp::Ordering::Equal => Precedence::Same,
                std::cmp::Ordering::Greater => Precedence::Higher,
            },
        ),
        _ => None,
    }
}

/// `version` begins with the prefix `v`, in either case.
pub open spec fn has_v_prefix(version: Seq<char>) -> bool {
    version.len() > 0 && (version[0] == 'v' || version[0] == 'V')
}

/// A version string without the prefix `v`, which is dropped once where the
/// string begins with it, in either case.
pub open spec fn unprefixed(version: Seq<char>) -> Seq<char> {
    if has_v_prefix(version) {
        version.skip(1)
    } else {
        version
    }
}

/// The form in which versions are compared: unprefixed and in lower case.
pub open spec fn normalized(version: Seq<char>) -> Seq<char> {
    lowercase_of(unprefixed(version))
}

/// `new` is newer than `old`, both in normalized form, given the verdict of
/// semantic versioning on them: the verdict where there is one, the order of
/// strings where there is none.
pub open spec fn newer_given(verdict: Option<Precedence>, new: Seq<char>, old: Seq<char>) -> bool {
    match verdict {
        Some(precedence) => precedence == Precedence::Higher,
        None => lex_greater(new, old),
    }
}

/// `new` is a newer version than `old`. Versions that are not both semantic
/// versions compare as strings, so that `2.0` is newer than `2`.
pub open spec fn newer(new: Seq<char>, old: Seq<char>) -> bool {
    newer_given(
        semver_precedence(normalized(new), normalized(old)),
        normalized(new),
        normalized(old),
    )
}

/// `latest` is an update of `installed`: the two differ in normalized form,
/// and `latest` is the newer.
pub open spec fn update_available(installed: Seq<char>, latest: Seq<char>) -> bool {
    normalized(latest) != normalized(installed) && newer(latest, installed)
}

/// `version` without the prefix `v`.
pub fn without_v_prefix(version: &str) -> (bare: String)
    ensures
        bare@ == unprefixed(version@),
{
    let chars = chars_of(version);
    if chars.len() > 0 && (chars[0] == 'v' || chars[0] == 'V') {
        string_of(&slice_of(&chars, 1, chars.len()))
    } else {
        string_of(&chars)
    }
}

/// The normalized form of `version`.
pub fn normalize_version(version: &str) -> (norm: String)
    ensures
        norm@ == normalized(version@),
{
    let bare = without_v_prefix(version);
    to_lowercase(bare.as_str())
}

/// Whether `new` is newer than `old`, both in normalized form, given the
/// verdict of semantic versioning on them.
pub fn is_newer_given(verdict: Option<Precedence>, new: &str, old: &str) -> (is_newer: bool)
    ensures
        is_newer == newer_given(verdict, new@, old@),
{
    match verdict {
        Some(precedence) => precedence == Precedence::Higher,
        None => {
            let a = chars_of(new);
            let b = chars_of(old);
            is_lex_greater(&a, &b)
        },
    }
}

/// Whether `new_version` is newer than `old_version`.
pub fn is_newer_version(new_version: &str, old_version: &str) -> (is_newer: bool)
    ensures
        is_newer == newer(new_version@, old_version@),
{
    let new_norm = normalize_version(new_version);
    let old_norm = normalize_version(old_version);
    let verdict = compare_semver(new_norm.as_str(), old_norm.as_str());
    is_newer_given(verdict, new_norm.as_str(), old_norm.as_str())
}

/// Whether `latest` is an update of `installed`.
pub fn has_update(installed: &str, latest: &str) -> (update: bool)
    ensures
        update == update_available(installed@, latest@),
{
    let latest_norm = normalize_version(latest);
    let installed_norm = normalize_version(installed);
    !same_text(latest_norm.as_str(), installed_norm.as_str()) && is_newer_version(
        latest,
        installed,
    )
}

/// Two versions of one normalized form are never an update of one another;
/// in particular no version is an update of itself.
pub proof fn lemma_same_form_is_no_update(installed: Seq<char>, latest: Seq<char>)
    requires
        normalized(installed) == normalized(latest),
    ensures
        !update_available(installed, latest),
        !update_available(latest, installed),
        !update_available(installed, installed),
{
}

/// Where semantic versioning has no verdict, newer is a strict order: of
/// two versions at most one is newer than the other.
pub proof fn lemma_newer_as_strings_is_strict(new: Seq<char>, old: Seq<char>)
    ensures
        newer_given(None, new, old) ==> !newer_given(None, old, new),
        !newer_given(None, new, new),
{
    lemma_lex_greater_is_strict(new, old);
}

/// A `v` in front of a version that does not itself begin with the prefix
/// is cosmetic: it changes neither the normalized form nor, therefore,
/// whether an update is reported.
pub proof fn lemma_v_prefix_is_cosmetic(version: Seq<char>, other: Seq<char>)
    requires
        !has_v_prefix(version),
    ensures
        normalized(seq!['v'] + version) == normalized(version),
        !update_available(seq!['v'] + version, version),
        !update_available(version, seq!['v'] + version),
        update_available(seq!['v'] + version, other) == update_available(version, other),
        update_available(other, seq!['v'] + version) == update_available(other, version),
{
    assert((seq!['v'] + version).skip(1) == version);
}

/// An upper-case `V` in front of a version that does not itself begin with
/// the prefix is cosmetic in the same way.
pub proof fn lemma_upper_v_prefix_is_cosmetic(version: Seq<char>, other: Seq<char>)
    requires
        !has_v_prefix(version),
    ensures
        normalized(seq!['V'] + version) == normalized(version),
        !update_available(seq!['V'] + version, version),
        !update_available(version, seq!['V'] + version),
        update_available(seq!['V'] + version, other) == update_available(version, other),
        update_available(other, seq!['V'] + version) == update_available(other, version),
{
    assert((seq!['V'] + version).skip(1) == version);
}

/// The prefix is dropped once and no more: what follows the first `v` of a
/// version stays as it is, whatever it begins with, and a version without
/// the prefix stays as it is.
pub proof fn lemma_prefix_is_dropped_once(rest: Seq<char>)
    ensures
        unprefixed(seq!['v'] + rest) == rest,
        unprefixed(seq!['V'] + rest) == rest,
        !has_v_prefix(rest) ==> unprefixed(rest) == rest,
{
    assert((seq!['v'] + rest).skip(1) == rest);
    assert((seq!['V'] + rest).skip(1) == rest);
}

} // verus!
