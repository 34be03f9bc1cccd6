//! The version this build of `wt` reports.
use vstd::prelude::*;

use crate::text::{ends_with, has_suffix, trim, trim_seq};

verus! {

/// The version of this build: the package version, marked as a development build.
pub const CURRENT_VERSION: &'static str = "0.1.0-dev";

/// The version of this build.
pub fn current_version() -> (r: &'static str)
    ensures
        r@ == CURRENT_VERSION@,
{
    CURRENT_VERSION
}

/// A development build is one whose version, trimmed, ends in `-dev`.
pub fn is_dev_build(version: &str) -> (r: bool)
    ensures
        r == has_suffix(trim_seq(version@), "-dev"@),
{
    let t = trim(version);
    ends_with(t.as_str(), "-dev")
}

} // verus!
