//! Release channels of a toolchain.

use vstd::prelude::*;

verus! {

/// The release channel that a toolchain build comes from.
#[derive(Clone, Copy, Debug, PartialEq, Eq, Structural)]
pub enum Channel {
    /// A development build.
    Dev,
    /// A nightly build.
    Nightly,
    /// A beta build.
    Beta,
    /// A stable release.
    Stable,
}

/// The lower-case name of a channel.
pub open spec fn channel_name(ch: Channel) -> Seq<char> {
    match ch {
        Channel::Dev => seq!['d', 'e', 'v'],
        Channel::Nightly => seq!['n', 'i', 'g', 'h', 't', 'l', 'y'],
        Channel::Beta => seq!['b', 'e', 't', 'a'],
        Channel::Stable => seq!['s', 't', 'a', 'b', 'l', 'e'],
    }
}

/// Returns the lower-case name of `ch`.
pub fn channel_as_str(ch: Channel) -> (name: &'static str)
    ensures
        name@ == channel_name(ch),
{
    proof {
        reveal_strlit("dev");
        reveal_strlit("nightly");
        reveal_strlit("beta");
        reveal_strlit("stable");
        assert("dev"@ =~= channel_name(Channel::Dev));
        assert("nightly"@ =~= channel_name(Channel::Nightly));
        assert("beta"@ =~= channel_name(Channel::Beta));
        assert("stable"@ =~= channel_name(Channel::Stable));
    }
    match ch {
        Channel::Dev => "dev",
        Channel::Nightly => "nightly",
        Channel::Beta => "beta",
        Channel::Stable => "stable",
    }
}

} // verus!
