//! The ways in which a toolchain can fall short of what is expected of it.

use vstd::prelude::*;
use vstd::string::*;
use crate::channel::{channel_as_str, channel_name, Channel};

verus! {

/// An expectation that the installed toolchain does not meet.
#[derive(Clone, Debug, PartialEq, Eq)]
pub enum Mismatch {
    /// A text that should hold a version is not a semantic version.
    Unparsable { text: String },
    /// The installed version is not the one version that is expected.
    NotExpected { expected: String, installed: String },
    /// The installed version comes before the oldest one that is accepted.
    TooOld { installed: String, minimum: String },
    /// The toolchain comes from another channel than the stable one.
    NotStable { channel: Channel },
}

/// A `Mismatch` with its texts as sequences of characters.
pub enum MismatchModel {
    Unparsable { text: Seq<char> },
    NotExpected { expected: Seq<char>, installed: Seq<char> },
    TooOld { installed: Seq<char>, minimum: Seq<char> },
    NotStable { channel: Channel },
}

impl View for Mismatch {
    type V = MismatchModel;

    open spec fn view(&self) -> MismatchModel {
        match self {
            Mismatch::Unparsable { text } => MismatchModel::Unparsable { text: text@ },
            Mismatch::NotExpected { expected, installed } => MismatchModel::NotExpected {
                expected: expected@,
                installed: installed@,
            },
            Mismatch::TooOld { installed, minimum } => MismatchModel::TooOld {
                installed: installed@,
                minimum: minimum@,
            },
            Mismatch::NotStable { channel } => MismatchModel::NotStable { channel: *channel },
        }
    }
}

/// The diagnostic that reports a mismatch.
pub open spec fn message_text(m: MismatchModel) -> Seq<char> {
    match m {
        MismatchModel::Unparsable { text } => "Not a semantic version: "@ + text,
        MismatchModel::NotExpected { expected, installed } => "Expected version "@ + expected
            + " but got installed version: "@ + installed,
        MismatchModel::TooOld { installed, minimum } => "Version "@ + installed
            + " is less than expected version of "@ + minimum,
        MismatchModel::NotStable { channel } => "Expected Stable channel but got channel: "@
            + channel_name(channel),
    }
}

impl Mismatch {
    /// Returns the diagnostic that reports this mismatch.
    pub fn message(&self) -> (text: String)
        ensures
            text@ == message_text(self@),
    {
        match self {
            Mismatch::Unparsable { text } => {
                String::from_str("Not a semantic version: ").concat(text.as_str())
            },
            Mismatch::NotExpected { expected, installed } => {
                String::from_str("Expected version ").concat(expected.as_str()).concat(
                    " but got installed version: ",
                ).concat(installed.as_str())
            },
            Mismatch::TooOld { installed, minimum } => {
                String::from_str("Version ").concat(installed.as_str()).concat(
                    " is less than expected version of ",
                ).concat(minimum.as_str())
            },
            Mismatch::NotStable { channel } => {
                String::from_str("Expected Stable channel but got channel: ").concat(
                    channel_as_str(*channel),
                )
            },
        }
    }
}

} // verus!
