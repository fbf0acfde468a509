//! The greeting of the sample program.

use vstd::prelude::*;

verus! {

/// The text of the greeting, character by character.
pub open spec fn greeting_text() -> Seq<char> {
    seq!['H', 'e', 'l', 'l', 'o', ',', ' ', 'w', 'o', 'r', 'l', 'd', '!']
}

/// Returns the greeting, which is the same on every call.
pub fn hello_world() -> (greeting: &'static str)
    ensures
        greeting@ == greeting_text(),
        greeting@ == "Hello, world!"@,
{
    proof {
        reveal_strlit("Hello, world!");
        assert("Hello, world!"@ =~= greeting_text());
    }
    "Hello, world!"
}

} // verus!
