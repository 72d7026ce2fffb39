//! Naming of the supported platforms, as used by the Chrome-for-Testing
//! archives.
use vstd::prelude::*;
use crate::text::str_eq;

verus! {

/// The platform name for an operating system and architecture
/// (`std::env::consts::OS`, `std::env::consts::ARCH`), where supported.
pub open spec fn platform_of(os: Seq<char>, arch: Seq<char>) -> Option<Seq<char>> {
    if os == "windows"@ && arch == "x86"@ {
        Some("win32"@)
    } else if os == "windows"@ && (arch == "x86_64"@ || arch == "aarch64"@) {
        Some("win64"@)
    } else if os == "linux"@ && arch == "x86_64"@ {
        Some("linux64"@)
    } else {
        None
    }
}

/// Executables carry this suffix on the given operating system.
pub open spec fn suffix_of(os: Seq<char>) -> Seq<char> {
    if os == "windows"@ { ".exe"@ } else { ""@ }
}

/// Whether browser builds exist for the operating system and architecture.
pub fn platform_supported(os: &str, arch: &str) -> (r: bool)
    ensures
        r == platform_of(os@, arch@) is Some,
{
    let win = str_eq(os, "windows");
    (win && (str_eq(arch, "x86") || str_eq(arch, "x86_64") || str_eq(arch, "aarch64")))
        || (str_eq(os, "linux") && str_eq(arch, "x86_64"))
}

/// The platform identifier of a supported operating system and
/// architecture (an unsupported pair is a fatal error for the tool).
pub fn detect_platform(os: &str, arch: &str) -> (r: String)
    requires
        platform_of(os@, arch@) is Some,
    ensures
        platform_of(os@, arch@) == Some(r@),
{
    let win = str_eq(os, "windows");
    if win && str_eq(arch, "x86") {
        "win32".to_owned()
    } else if win && (str_eq(arch, "x86_64") || str_eq(arch, "aarch64")) {
        "win64".to_owned()
    } else {
        "linux64".to_owned()
    }
}

/// The file name suffix of executables on `os`.
pub fn exe_suffix(os: &str) -> (r: &'static str)
    ensures
        r@ == suffix_of(os@),
{
    if str_eq(os, "windows") { ".exe" } else { "" }
}

} // verus!
