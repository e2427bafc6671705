//! Self-update: where the binary lies in a release archive.

use vstd::prelude::*;
use crate::error::{Error, ErrorKind};
use crate::text::{append_str, chars_of, same_chars, text};

verus! {

/// Return the binary path inside the release archive, for Windows or another platform.
pub fn get_bin_path_in_archive(is_windows: bool) -> (r: String)
    ensures
        r@ == if is_windows {
            "ferrous-forge.exe"@
        } else {
            "ferrous-forge"@
        },
{
    if is_windows {
        text("ferrous-forge.exe")
    } else {
        text("ferrous-forge")
    }
}

/// The suffix of the release asset for a platform (operating system, architecture, and
/// whether the C library is musl), or the error for an unsupported one.
pub open spec fn target_name(os: Seq<char>, arch: Seq<char>, musl: bool) -> Result<Seq<char>, (ErrorKind, Seq<char>)> {
    if os == "linux"@ && arch == "x86_64"@ {
        Ok(if musl {
            "linux-x86_64-musl.tar.gz"@
        } else {
            "linux-x86_64.tar.gz"@
        })
    } else if os == "macos"@ && arch == "x86_64"@ {
        Ok("macos-x86_64.tar.gz"@)
    } else if os == "macos"@ && arch == "aarch64"@ {
        Ok("macos-aarch64.tar.gz"@)
    } else if os == "windows"@ && arch == "x86_64"@ {
        Ok("windows-x86_64.zip"@)
    } else {
        Err((ErrorKind::Config, "Self-update is not supported on "@ + os + "/"@ + arch))
    }
}

/// Whether the characters are those of `y`.
fn is(x: &Vec<char>, y: &str) -> (b: bool)
    ensures
        b == (x@ == y@),
{
    same_chars(x.as_slice(), chars_of(y).as_slice())
}

/// Determine the asset target name for a platform: release assets are named like
/// `ferrous-forge-{target}.{ext}`, and this is the `{target}.{ext}` part.
pub fn get_target_name(os: &str, arch: &str, musl: bool) -> (r: Result<String, Error>)
    ensures
        match r {
            Ok(s) => target_name(os@, arch@, musl) == Ok::<Seq<char>, (ErrorKind, Seq<char>)>(s@),
            Err(e) => target_name(os@, arch@, musl) == Err::<Seq<char>, (ErrorKind, Seq<char>)>(e@),
        },
{
    let o = chars_of(os);
    let a = chars_of(arch);
    if is(&o, "linux") && is(&a, "x86_64") {
        if musl {
            Ok(text("linux-x86_64-musl.tar.gz"))
        } else {
            Ok(text("linux-x86_64.tar.gz"))
        }
    } else if is(&o, "macos") && is(&a, "x86_64") {
        Ok(text("macos-x86_64.tar.gz"))
    } else if is(&o, "macos") && is(&a, "aarch64") {
        Ok(text("macos-aarch64.tar.gz"))
    } else if is(&o, "windows") && is(&a, "x86_64") {
        Ok(text("windows-x86_64.zip"))
    } else {
        let mut m = text("Self-update is not supported on ");
        append_str(&mut m, os);
        append_str(&mut m, "/");
        append_str(&mut m, arch);
        Err(Error::config(m))
    }
}

} // verus!
