//! Validation functions for cargo publish interception: the semantic-version check of a
//! crate's version, and the decisions of the publish checks.

use vstd::prelude::*;
use crate::error::{Error, ErrorKind};
use crate::text::{
    append_str, chars_of, parse_u32, parse_unsigned, split, split_char, string_of, text, views,
};

verus! {

/// What the `package.version` entry of a `Cargo.toml` text is: `Err` with the parser's message
/// when the text is not TOML, `Ok(None)` when there is no string at `package.version`, and the
/// string otherwise.
pub uninterp spec fn cargo_package_version(content: Seq<char>) -> Result<Option<Seq<char>>, Seq<char>>;

/// The view of the lookup's result.
pub open spec fn lookup_view(r: Result<Option<String>, String>) -> Result<Option<Seq<char>>, Seq<char>> {
    match r {
        Ok(Some(v)) => Ok(Some(v@)),
        Ok(None) => Ok(None),
        Err(e) => Err(e@),
    }
}

/// `toml::Value::from_str` (which parses a whole document, by `toml::from_str`), then
/// `get("package")`, `get("version")` and `as_str` on the parsed value; a parse error is
/// turned into its `Display` text. The contract names the result by `cargo_package_version`
/// of the text and states nothing more of it.
#[verifier::external_body]
fn lookup_package_version(content: &str) -> (r: Result<Option<String>, String>)
    ensures
        lookup_view(r) == cargo_package_version(content@),
{
    match content.parse::<toml::Value>() {
        Err(e) => Err(e.to_string()),
        Ok(document) => match document.get("package") {
            None => Ok(None),
            Some(package) => match package.get("version") {
                None => Ok(None),
                Some(version) => Ok(version.as_str().map(str::to_string)),
            },
        },
    }
}

/// The name of the `i`-th part of a version.
pub open spec fn part_name(i: int) -> Seq<char> {
    if i == 0 {
        "major"@
    } else if i == 1 {
        "minor"@
    } else {
        "patch"@
    }
}

/// The first part of a version that is not a `u32`, among the first `k`.
pub open spec fn first_bad_part(parts: Seq<Seq<char>>, k: int) -> Option<int>
    decreases k,
{
    if k <= 0 {
        None
    } else {
        match first_bad_part(parts, k - 1) {
            Some(i) => Some(i),
            None => if parse_unsigned(parts[k - 1], u32::MAX as nat) is None {
                Some(k - 1)
            } else {
                None
            },
        }
    }
}

/// The outcome of checking `version` as a semantic version: three parts separated by dots,
/// each a `u32`.
pub open spec fn semver_check(version: Seq<char>) -> Result<(), (ErrorKind, Seq<char>)> {
    let parts = split_char(version, '.');
    if parts.len() != 3 {
        Err(
            (
                ErrorKind::Validation,
                "Version '"@ + version + "' must follow semantic versioning (major.minor.patch)"@,
            ),
        )
    } else {
        match first_bad_part(parts, 3) {
            Some(i) => Err(
                (
                    ErrorKind::Validation,
                    "Version "@ + part_name(i) + " part '"@ + parts[i] + "' must be numeric"@,
                ),
            ),
            None => Ok(()),
        }
    }
}

/// The view of a unit result with the library's error.
pub open spec fn unit_result(r: Result<(), Error>) -> Result<(), (ErrorKind, Seq<char>)> {
    match r {
        Ok(()) => Ok(()),
        Err(e) => Err(e@),
    }
}

/// Validate semantic version format
pub fn check_semver_format(version: &str) -> (r: Result<(), Error>)
    ensures
        unit_result(r) == semver_check(version@),
{
    let parts = split(chars_of(version).as_slice(), '.');
    let ghost ps = split_char(version@, '.');
    if parts.len() != 3 {
        let mut m = text("Version '");
        append_str(&mut m, version);
        append_str(&mut m, "' must follow semantic versioning (major.minor.patch)");
        return Err(Error::validation(m));
    }
    let mut i: usize = 0;
    while i < 3
        invariant
            i <= 3,
            parts.len() == 3,
            views(parts@) == ps,
            ps == split_char(version@, '.'),
            first_bad_part(ps, i as int) is None,
        decreases 3 - i,
    {
        assert(views(parts@)[i as int] == parts@[i as int]@);
        if parse_u32(parts[i].as_slice()).is_none() {
            let name = if i == 0 {
                "major"
            } else if i == 1 {
                "minor"
            } else {
                "patch"
            };
            let mut m = text("Version ");
            assert(name@ == part_name(i as int));
            append_str(&mut m, name);
            append_str(&mut m, " part '");
            let p = string_of(parts[i].as_slice());
            append_str(&mut m, p.as_str());
            append_str(&mut m, "' must be numeric");
            assert(m@ =~= "Version "@ + part_name(i as int) + " part '"@ + ps[i as int]
                + "' must be numeric"@);
            proof {
                assert(first_bad_part(ps, i + 1) == Some(i as int));
                if i + 1 < 3 {
                    assert(first_bad_part(ps, i + 2) == Some(i as int));
                }
                if i + 2 < 3 {
                    assert(first_bad_part(ps, i + 3) == Some(i as int));
                }
            }
            return Err(Error::validation(m));
        }
        i = i + 1;
    }
    Ok(())
}

/// The version found by a lookup in a `Cargo.toml` text, or the error to report.
pub open spec fn version_found(lookup: Result<Option<Seq<char>>, Seq<char>>) -> Result<
    Seq<char>,
    (ErrorKind, Seq<char>),
> {
    match lookup {
        Err(e) => Err((ErrorKind::Config, "Failed to parse Cargo.toml: "@ + e)),
        Ok(None) => Err((ErrorKind::Config, "No version found in Cargo.toml"@)),
        Ok(Some(v)) => Ok(v),
    }
}

/// The version that a lookup in a `Cargo.toml` text found, or the error to report.
pub fn version_from_lookup(lookup: Result<Option<String>, String>) -> (r: Result<String, Error>)
    ensures
        match r {
            Ok(v) => version_found(lookup_view(lookup)) == Ok::<Seq<char>, (ErrorKind, Seq<char>)>(v@),
            Err(e) => version_found(lookup_view(lookup)) == Err::<Seq<char>, (ErrorKind, Seq<char>)>(e@),
        },
{
    match lookup {
        Err(e) => {
            let mut m = text("Failed to parse Cargo.toml: ");
            append_str(&mut m, e.as_str());
            Err(Error::config(m))
        },
        Ok(None) => Err(Error::config(text("No version found in Cargo.toml"))),
        Ok(Some(v)) => Ok(v),
    }
}

/// The outcome of checking the version of a `Cargo.toml` text: the error of the lookup, or
/// the outcome of the semantic-version check of the version found.
pub open spec fn cargo_version_check(lookup: Result<Option<Seq<char>>, Seq<char>>) -> Result<
    (),
    (ErrorKind, Seq<char>),
> {
    match version_found(lookup) {
        Err(e) => Err(e),
        Ok(v) => semver_check(v),
    }
}

/// Check the version of a `Cargo.toml` text: it must have a `package.version` that follows
/// semantic versioning.
pub fn check_cargo_version(cargo_content: &str) -> (r: Result<(), Error>)
    ensures
        unit_result(r) == cargo_version_check(cargo_package_version(cargo_content@)),
{
    let lookup = lookup_package_version(cargo_content);
    let version = version_from_lookup(lookup);
    match version {
        Err(e) => Err(e),
        Ok(v) => check_semver_format(v.as_str()),
    }
}

/// The outcome of the dogfooding check: the project must have a `.ferrous-forge` directory
/// holding a `config.toml`.
pub open spec fn dogfooding_check(has_dir: bool, has_config: bool) -> Result<(), (ErrorKind, Seq<char>)> {
    if !has_dir {
        Err(
            (
                ErrorKind::Validation,
                "Project must use Ferrous Forge before publishing (run 'ferrous-forge init')"@,
            ),
        )
    } else if !has_config {
        Err((ErrorKind::Validation, "Ferrous Forge config not found - run 'ferrous-forge init'"@))
    } else {
        Ok(())
    }
}

/// Enforce dogfooding, given whether the project's `.ferrous-forge` directory and its
/// `config.toml` exist.
pub fn enforce_dogfooding(has_ferrous_forge_dir: bool, has_config_file: bool) -> (r: Result<(), Error>)
    ensures
        unit_result(r) == dogfooding_check(has_ferrous_forge_dir, has_config_file),
{
    if !has_ferrous_forge_dir {
        return Err(
            Error::validation(
                text("Project must use Ferrous Forge before publishing (run 'ferrous-forge init')"),
            ),
        );
    }
    if !has_config_file {
        return Err(Error::validation(text("Ferrous Forge config not found - run 'ferrous-forge init'")));
    }
    Ok(())
}

/// The outcome of pre-publish validation, given whether the publish checks of the safety
/// pipeline passed.
pub fn pre_publish_validation(passed: bool) -> (r: Result<(), Error>)
    ensures
        passed <==> r is Ok,
        r matches Err(e) ==> e@ == (
            ErrorKind::Validation,
            "Pre-publish validation failed - fix errors before publishing"@,
        ),
{
    if !passed {
        return Err(Error::validation(text("Pre-publish validation failed - fix errors before publishing")));
    }
    Ok(())
}

/// No part among the first `k` is bad exactly when each of them is a `u32`.
proof fn lemma_first_bad_part(parts: Seq<Seq<char>>, k: int)
    requires
        0 <= k <= parts.len(),
    ensures
        first_bad_part(parts, k) is None <==> forall|j: int|
            0 <= j < k ==> #[trigger] parse_unsigned(parts[j], u32::MAX as nat) is Some,
    decreases k,
{
    if k > 0 {
        lemma_first_bad_part(parts, k - 1);
    }
}

/// Law: a version passes the semantic-version check exactly when it splits at `.` into three
/// parts, major, minor and patch, each of which reads as a `u32`; otherwise the check fails
/// with a validation error.
pub proof fn law_semver_accepts_three_numbers(version: Seq<char>)
    ensures
        semver_check(version) is Ok <==> (split_char(version, '.').len() == 3 && parse_unsigned(
            split_char(version, '.')[0],
            u32::MAX as nat,
        ) is Some && parse_unsigned(split_char(version, '.')[1], u32::MAX as nat) is Some
            && parse_unsigned(split_char(version, '.')[2], u32::MAX as nat) is Some),
        semver_check(version) matches Err(e) ==> e.0 == ErrorKind::Validation,
{
    let parts = split_char(version, '.');
    if parts.len() == 3 {
        lemma_first_bad_part(parts, 3);
        if parse_unsigned(parts[0], u32::MAX as nat) is None {
            assert(!(forall|j: int|
                0 <= j < 3 ==> #[trigger] parse_unsigned(parts[j], u32::MAX as nat) is Some));
        }
        if parse_unsigned(parts[1], u32::MAX as nat) is None {
            assert(!(forall|j: int|
                0 <= j < 3 ==> #[trigger] parse_unsigned(parts[j], u32::MAX as nat) is Some));
        }
        if parse_unsigned(parts[2], u32::MAX as nat) is None {
            assert(!(forall|j: int|
                0 <= j < 3 ==> #[trigger] parse_unsigned(parts[j], u32::MAX as nat) is Some));
        }
    }
}

} // verus!
