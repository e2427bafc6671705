//! Rust version management: the naming of a release.

use vstd::prelude::*;
use crate::text::{chars_of, has_prefix, starts_with, text, append_str};

verus! {

/// A release tag: the version with a `v` in front, unless it already starts with one.
pub open spec fn release_tag(version: Seq<char>) -> Seq<char> {
    if starts_with(version, "v"@) {
        version
    } else {
        "v"@ + version
    }
}

/// The release tag under which the notes of a Rust version are looked up.
pub fn normalize_release_version(version: &str) -> (r: String)
    ensures
        r@ == release_tag(version@),
{
    if has_prefix(chars_of(version).as_slice(), chars_of("v").as_slice()) {
        text(version)
    } else {
        let mut r = text("v");
        append_str(&mut r, version);
        r
    }
}

} // verus!
