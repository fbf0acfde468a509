//! Expectations on an installed Rust toolchain: which version it is, whether
//! it is recent enough, and whether it comes from the stable release channel.
//!
//! Versions are parsed and ordered by the `semver` crate; what is decided
//! from them, and the diagnostic that goes with a failed expectation, is
//! stated in contracts and proved.

pub mod channel;
pub mod decimal;
pub mod expect;
pub mod failure;
pub mod greeting;
pub mod version;
