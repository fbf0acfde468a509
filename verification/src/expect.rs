//! What is expected of the installed toolchain, and whether it is met.

use vstd::prelude::*;
use vstd::string::*;
use crate::channel::{channel_name, Channel};
use crate::failure::{message_text, Mismatch, MismatchModel};
use crate::version::{
    numbers_before, precedes, rendered, same_numbers, semver_parse, Version, VersionModel,
};

verus! {

/// The one version that a pinned toolchain must have.
pub const PINNED_VERSION: &'static str = "1.62.0";

/// The oldest version that a stable toolchain may have.
pub const MIN_STABLE_VERSION: &'static str = "1.63.0";

/// An outcome with the texts of its mismatch as sequences of characters.
pub open spec fn outcome(r: Result<(), Mismatch>) -> Result<(), MismatchModel> {
    match r {
        Ok(_) => Ok(()),
        Err(e) => Err(e@),
    }
}

/// Whether `installed` is the expected version: every part must be the same.
pub open spec fn exact_verdict(installed: VersionModel, expected: VersionModel) -> Result<
    (),
    MismatchModel,
> {
    if installed == expected {
        Ok(())
    } else {
        Err(
            MismatchModel::NotExpected {
                expected: rendered(expected),
                installed: rendered(installed),
            },
        )
    }
}

/// Whether `installed` is recent enough: it must not come before `minimum`.
pub open spec fn minimum_verdict(installed: VersionModel, minimum: VersionModel) -> Result<
    (),
    MismatchModel,
> {
    if precedes(installed, minimum) {
        Err(
            MismatchModel::TooOld { installed: rendered(installed), minimum: rendered(minimum) },
        )
    } else {
        Ok(())
    }
}

/// Whether a toolchain of this channel is a stable one.
pub open spec fn channel_verdict(channel: Channel) -> Result<(), MismatchModel> {
    if channel == Channel::Stable {
        Ok(())
    } else {
        Err(MismatchModel::NotStable { channel })
    }
}

/// What is made of two texts: the installed one is read first, then the one
/// it is held against, and `verdict` decides on the two versions.
pub open spec fn text_verdict(
    installed: Seq<char>,
    against: Seq<char>,
    verdict: spec_fn(VersionModel, VersionModel) -> Result<(), MismatchModel>,
) -> Result<(), MismatchModel> {
    match (semver_parse(installed), semver_parse(against)) {
        (None, _) => Err(MismatchModel::Unparsable { text: installed }),
        (Some(_), None) => Err(MismatchModel::Unparsable { text: against }),
        (Some(i), Some(a)) => verdict(i, a),
    }
}

/// The line that announces the installed version.
pub fn installed_line(installed: &Version) -> (line: String)
    ensures
        line@ == "Installed version is "@ + rendered(installed@),
{
    String::from_str("Installed version is ").concat(installed.render().as_str())
}

/// Accepts `installed` if it is exactly `expected`.
pub fn expect_exact(installed: &Version, expected: &Version) -> (r: Result<(), Mismatch>)
    ensures
        outcome(r) == exact_verdict(installed@, expected@),
{
    if installed.equals(expected) {
        Ok(())
    } else {
        Err(Mismatch::NotExpected { expected: expected.render(), installed: installed.render() })
    }
}

/// Accepts `installed` unless it comes before `minimum`.
pub fn expect_at_least(installed: &Version, minimum: &Version) -> (r: Result<(), Mismatch>)
    ensures
        outcome(r) == minimum_verdict(installed@, minimum@),
{
    if installed.less_than(minimum) {
        Err(Mismatch::TooOld { installed: installed.render(), minimum: minimum.render() })
    } else {
        Ok(())
    }
}

/// Accepts the stable channel and no other.
pub fn expect_stable_channel(channel: Channel) -> (r: Result<(), Mismatch>)
    ensures
        outcome(r) == channel_verdict(channel),
{
    match channel {
        Channel::Stable => Ok(()),
        _ => Err(Mismatch::NotStable { channel }),
    }
}

/// Reads both texts as versions and accepts the installed one if it is
/// exactly the expected one.
pub fn expect_version(installed: &str, expected: &str) -> (r: Result<(), Mismatch>)
    ensures
        outcome(r) == text_verdict(
            installed@,
            expected@,
            |i: VersionModel, e: VersionModel| exact_verdict(i, e),
        ),
{
    let installed = match Version::parse(installed) {
        Ok(v) => v,
        Err(e) => { return Err(e); },
    };
    let expected = match Version::parse(expected) {
        Ok(v) => v,
        Err(e) => { return Err(e); },
    };
    expect_exact(&installed, &expected)
}

/// Reads both texts as versions and accepts the installed one unless it
/// comes before the minimum.
pub fn expect_minimum_version(installed: &str, minimum: &str) -> (r: Result<(), Mismatch>)
    ensures
        outcome(r) == text_verdict(
            installed@,
            minimum@,
            |i: VersionModel, m: VersionModel| minimum_verdict(i, m),
        ),
{
    let installed = match Version::parse(installed) {
        Ok(v) => v,
        Err(e) => { return Err(e); },
    };
    let minimum = match Version::parse(minimum) {
        Ok(v) => v,
        Err(e) => { return Err(e); },
    };
    expect_at_least(&installed, &minimum)
}

/// A toolchain passes for stable exactly when its channel is the stable
/// one; for every other channel the diagnostic ends with that channel's name.
pub proof fn lemma_only_stable_passes(channel: Channel)
    ensures
        channel_verdict(channel) is Ok <==> channel == Channel::Stable,
        channel_verdict(channel) matches Err(m) ==> message_text(m)
            == "Expected Stable channel but got channel: "@ + channel_name(channel),
{
}

/// The installed version passes for the expected one exactly when the two
/// are the same in every part; in particular a version passes for itself.
pub proof fn lemma_exact_passes_only_same(installed: VersionModel, expected: VersionModel)
    ensures
        exact_verdict(installed, expected) is Ok <==> installed == expected,
        exact_verdict(expected, expected) is Ok,
{
}

/// Against a minimum that is a release, an installed version without build
/// metadata is too old exactly when its numbers come first, or when it is a
/// pre-release of the minimum's own numbers.
pub proof fn lemma_minimum_against_release(installed: VersionModel, minimum: VersionModel)
    requires
        minimum.pre.len() == 0,
        minimum.build.len() == 0,
        installed.build.len() == 0,
    ensures
        minimum_verdict(installed, minimum) is Err <==> numbers_before(installed, minimum) || (
        same_numbers(installed, minimum) && installed.pre.len() > 0),
        minimum_verdict(minimum, minimum) is Ok,
{
    if !numbers_before(installed, minimum) && !numbers_before(minimum, installed) {
        assert(same_numbers(installed, minimum));
        if installed.pre.len() == 0 {
            assert(installed.pre =~= minimum.pre);
            assert(installed.build =~= minimum.build);
            assert(installed == minimum);
        }
    }
}

} // verus!
