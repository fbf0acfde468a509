//! Semantic versions: parsed by `semver`, held as plain numbers and texts.

use vstd::prelude::*;
use vstd::string::*;
use crate::decimal::{decimal, decimal_string};
use crate::failure::{Mismatch, MismatchModel};

verus! {

/// The error of `semver`'s parsers. Nothing is read from it.
#[verifier::external_type_specification]
#[verifier::external_body]
pub struct ExSemverError(semver::Error);

/// What a version holds: three numbers, and the pre-release and build
/// metadata texts, each empty where the version has none.
pub struct VersionModel {
    pub major: nat,
    pub minor: nat,
    pub patch: nat,
    pub pre: Seq<char>,
    pub build: Seq<char>,
}

/// What `semver::Version::parse` makes of a text: the parts of the version
/// that it returns, or `None` where it returns an error.
pub uninterp spec fn semver_parse(text: Seq<char>) -> Option<VersionModel>;

/// What `<` of `semver::Version` returns for two versions with these parts.
pub uninterp spec fn semver_precedes(a: VersionModel, b: VersionModel) -> bool;

/// The numbers of `a` come before those of `b`: major, minor and patch are
/// compared in that order, as numbers.
pub open spec fn numbers_before(a: VersionModel, b: VersionModel) -> bool {
    ||| a.major < b.major
    ||| a.major == b.major && a.minor < b.minor
    ||| a.major == b.major && a.minor == b.minor && a.patch < b.patch
}

/// Both versions have the same three numbers.
pub open spec fn same_numbers(a: VersionModel, b: VersionModel) -> bool {
    a.major == b.major && a.minor == b.minor && a.patch == b.patch
}

/// Version `a` comes before version `b`.
///
/// The numbers decide first. With equal numbers, a pre-release comes before
/// the release itself. What is left, two different pre-releases of the same
/// numbers or two builds of one version, is ordered as `semver` orders it.
pub open spec fn precedes(a: VersionModel, b: VersionModel) -> bool {
    if numbers_before(a, b) {
        true
    } else if numbers_before(b, a) || a == b {
        false
    } else if a.pre.len() > 0 && b.pre.len() == 0 {
        true
    } else if a.pre.len() == 0 && b.pre.len() > 0 {
        false
    } else {
        semver_precedes(a, b)
    }
}

/// `text` behind `mark`, or nothing where `text` is empty.
pub open spec fn marked(mark: char, text: Seq<char>) -> Seq<char> {
    if text.len() > 0 {
        seq![mark] + text
    } else {
        Seq::<char>::empty()
    }
}

/// The text of a version: the three numbers in base ten with dots between
/// them, then a hyphen and the pre-release, then a plus sign and the build
/// metadata, the last two only where there is one.
pub open spec fn rendered(v: VersionModel) -> Seq<char> {
    decimal(v.major) + seq!['.'] + decimal(v.minor) + seq!['.'] + decimal(v.patch) + marked(
        '-',
        v.pre,
    ) + marked('+', v.build)
}

/// A semantic version. Every value is one that parsing a text has given.
#[derive(Debug)]
pub struct Version {
    major: u64,
    minor: u64,
    patch: u64,
    pre: String,
    build: String,
}

impl View for Version {
    type V = VersionModel;

    closed spec fn view(&self) -> VersionModel {
        VersionModel {
            major: self.major as nat,
            minor: self.minor as nat,
            patch: self.patch as nat,
            pre: self.pre@,
            build: self.build@,
        }
    }
}

/// Calls `semver::Version::parse` and copies the parts of the version that
/// it returns. The contract only names the outcome: the same text always
/// gives the same parts, or always an error.
#[verifier::external_body]
fn semver_parse_text(text: &str) -> (r: Result<Version, semver::Error>)
    ensures
        r is Ok <==> semver_parse(text@) is Some,
        r matches Ok(v) ==> semver_parse(text@) == Some(v@),
{
    match semver::Version::parse(text) {
        Ok(v) => Ok(
            Version {
                major: v.major,
                minor: v.minor,
                patch: v.patch,
                pre: v.pre.as_str().to_owned(),
                build: v.build.as_str().to_owned(),
            },
        ),
        Err(e) => Err(e),
    }
}

/// Puts two versions back together as `semver::Version` values and compares
/// them with `<`. Parts that a parse has given are accepted again, which is
/// why both must come from one. The contract names the outcome, and states
/// of it what `semver` documents of its order in a few words: the numbers
/// decide first, no version comes before itself, and with equal numbers a
/// pre-release comes before the release.
#[verifier::external_body]
fn semver_less(a: &Version, b: &Version) -> (r: bool)
    requires
        a.parsed(),
        b.parsed(),
    ensures
        r == semver_precedes(a@, b@),
        numbers_before(a@, b@) ==> r,
        numbers_before(b@, a@) || a@ == b@ ==> !r,
        same_numbers(a@, b@) && a@.pre.len() > 0 && b@.pre.len() == 0 ==> r,
        same_numbers(a@, b@) && a@.pre.len() == 0 && b@.pre.len() > 0 ==> !r,
{
    let (a_pre, a_build) = (a.pre.parse().unwrap(), a.build.parse().unwrap());
    let (b_pre, b_build) = (b.pre.parse().unwrap(), b.build.parse().unwrap());
    let a = semver::Version { major: a.major, minor: a.minor, patch: a.patch, pre: a_pre, build: a_build };
    let b = semver::Version { major: b.major, minor: b.minor, patch: b.patch, pre: b_pre, build: b_build };
    a < b
}

impl Version {
    /// Some text parses to this version.
    #[verifier::type_invariant]
    pub closed spec fn parsed(self) -> bool {
        exists|text: Seq<char>| #[trigger] semver_parse(text) == Some(self@)
    }

    /// Parses a semantic version.
    pub fn parse(text: &str) -> (r: Result<Version, Mismatch>)
        ensures
            match r {
                Ok(v) => semver_parse(text@) == Some(v@),
                Err(e) => semver_parse(text@) is None && e@ == (MismatchModel::Unparsable {
                    text: text@,
                }),
            },
    {
        match semver_parse_text(text) {
            Ok(v) => Ok(v),
            Err(_) => Err(Mismatch::Unparsable { text: text.to_owned() }),
        }
    }

    /// The major number.
    pub fn major(&self) -> (n: u64)
        ensures
            n == self@.major,
    {
        self.major
    }

    /// The minor number.
    pub fn minor(&self) -> (n: u64)
        ensures
            n == self@.minor,
    {
        self.minor
    }

    /// The patch number.
    pub fn patch(&self) -> (n: u64)
        ensures
            n == self@.patch,
    {
        self.patch
    }

    /// The pre-release text, empty for a release.
    pub fn pre(&self) -> (text: &str)
        ensures
            text@ == self@.pre,
    {
        self.pre.as_str()
    }

    /// The build metadata, empty where the version has none.
    pub fn build(&self) -> (text: &str)
        ensures
            text@ == self@.build,
    {
        self.build.as_str()
    }

    /// Tells whether both versions hold the same parts.
    pub fn equals(&self, other: &Version) -> (same: bool)
        ensures
            same == (self@ == other@),
    {
        self.major == other.major && self.minor == other.minor && self.patch == other.patch
            && self.pre == other.pre && self.build == other.build
    }

    /// Tells whether this version comes before `other`.
    pub fn less_than(&self, other: &Version) -> (before: bool)
        ensures
            before == precedes(self@, other@),
    {
        proof {
            use_type_invariant(self);
            use_type_invariant(other);
        }
        semver_less(self, other)
    }

    /// Writes the version as text.
    pub fn render(&self) -> (text: String)
        ensures
            text@ == rendered(self@),
    {
        let mut text = decimal_string(self.major);
        text.append(".");
        text.append(decimal_string(self.minor).as_str());
        text.append(".");
        text.append(decimal_string(self.patch).as_str());
        if !self.pre.as_str().is_empty() {
            text.append("-");
            text.append(self.pre.as_str());
        }
        if !self.build.as_str().is_empty() {
            text.append("+");
            text.append(self.build.as_str());
        }
        proof {
            reveal_strlit(".");
            reveal_strlit("-");
            reveal_strlit("+");
            assert("."@ =~= seq!['.']);
            assert("-"@ =~= seq!['-']);
            assert("+"@ =~= seq!['+']);
            assert(text@ =~= rendered(self@));
        }
        text
    }
}

} // verus!
