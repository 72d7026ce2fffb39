//! The command line manager: its arguments, the platform names of the
//! browser builds and the download addresses.
use vstd::prelude::*;
use crate::text::{str_eq, chars_of};

verus! {

/// The command line.
pub struct Cli {
    pub command: Commands,
}

/// The manager's commands.
pub enum Commands {
    /// download the browser and its driver
    Download(DownloadArgs),
    /// manage the configuration file
    Config(ConfigArgs),
    /// show whether the daemon runs
    Status,
    /// start the daemon
    Start,
    /// stop the daemon
    Stop,
}

/// Arguments of `download`.
pub struct DownloadArgs {
    /// remove the archives after unpacking
    pub delete: bool,
    /// platform to download for, instead of this machine's
    pub platform: Option<String>,
    /// download Chrome
    pub chrome: bool,
    /// download ChromeDriver
    pub driver: bool,
}

/// Arguments of `config`.
pub struct ConfigArgs {
    /// create the configuration file
    pub create: bool,
    /// check the configuration file
    pub validate: bool,
}

/// What `download` fetches: Chrome and ChromeDriver; naming neither means both.
pub fn download_targets(args: &DownloadArgs) -> (r: (bool, bool))
    ensures
        r.0 == (args.chrome || !args.driver),
        r.1 == (args.driver || !args.chrome),
{
    let neither = !args.chrome && !args.driver;
    (args.chrome || neither, args.driver || neither)
}

/// The platform name of the browser builds for `os`/`arch`, where there is one.
pub open spec fn cli_platform_of(os: Seq<char>, arch: Seq<char>) -> Option<Seq<char>> {
    if os == "windows"@ && arch == "x86"@ {
        Some("win32"@)
    } else if os == "windows"@ && arch == "x86_64"@ {
        Some("win64"@)
    } else if os == "linux"@ && arch == "x86_64"@ {
        Some("linux64"@)
    } else {
        None
    }
}

/// Whether the downloads exist for `os`/`arch`.
pub fn cli_platform_supported(os: &str, arch: &str) -> (r: bool)
    ensures
        r == cli_platform_of(os@, arch@) is Some,
{
    (str_eq(os, "windows") && (str_eq(arch, "x86") || str_eq(arch, "x86_64")))
        || (str_eq(os, "linux") && str_eq(arch, "x86_64"))
}

/// The platform name for a supported `os`/`arch` (`std::env::consts`);
/// an unsupported machine is a fatal error for the tool.
pub fn detect_platform(os: &str, arch: &str) -> (r: String)
    requires
        cli_platform_of(os@, arch@) is Some,
    ensures
        cli_platform_of(os@, arch@) == Some(r@),
{
    let win = str_eq(os, "windows");
    if win && str_eq(arch, "x86") {
        "win32".to_owned()
    } else if win && str_eq(arch, "x86_64") {
        "win64".to_owned()
    } else {
        "linux64".to_owned()
    }
}

/// The two downloads.
#[derive(PartialEq, Eq, Structural, Debug, Clone, Copy)]
pub enum UseChrome {
    Chrome,
    ChromeDriver,
}

/// The version used when `.chrome-version` cannot be read.
pub open spec fn default_version() -> Seq<char> {
    "139.0.7258.138"@
}

/// The archive's base name ("chrome" or "chromedriver").
pub open spec fn archive_stem(k: UseChrome) -> Seq<char> {
    match k {
        UseChrome::Chrome => "chrome"@,
        UseChrome::ChromeDriver => "chromedriver"@,
    }
}

/// The download address of an archive.
pub open spec fn download_url(k: UseChrome, version: Seq<char>, platform: Seq<char>) -> Seq<char> {
    "https://registry.npmmirror.com/-/binary/chrome-for-testing/"@ + version + "/"@ + platform + "/"@
        + archive_stem(k) + "-"@ + platform + ".zip"@
}

impl UseChrome {
    /// The mirror address of the archive for `platform`. `version` is the
    /// content of `.chrome-version` when it could be read.
    pub fn generate_download_url(&self, version: Option<&str>, platform: &str) -> (r: String)
        ensures
            r@ == download_url(*self, match version {
                Some(v) => v@,
                None => default_version(),
            }, platform@),
    {
        let v = match version {
            Some(v) => v,
            None => "139.0.7258.138",
        };
        let mut r = "https://registry.npmmirror.com/-/binary/chrome-for-testing/".to_owned();
        r.append(v);
        r.append("/");
        r.append(platform);
        r.append("/");
        match self {
            UseChrome::Chrome => r.append("chrome"),
            UseChrome::ChromeDriver => r.append("chromedriver"),
        }
        r.append("-");
        r.append(platform);
        r.append(".zip");
        r
    }

    /// The local file name of the archive ("<stem>-<platform>.zip").
    pub fn archive_name(&self, platform: &str) -> (r: String)
        ensures
            r@ == archive_stem(*self) + "-"@ + platform@ + ".zip"@,
    {
        let mut r = match self {
            UseChrome::Chrome => "chrome".to_owned(),
            UseChrome::ChromeDriver => "chromedriver".to_owned(),
        };
        r.append("-");
        r.append(platform);
        r.append(".zip");
        r
    }
}

/// An archive entry whose name ends with '/' is a directory.
pub fn entry_is_directory(name: &str) -> (r: bool)
    ensures
        r == (name@.len() > 0 && name@.last() == '/'),
{
    let v = chars_of(name);
    v.len() > 0 && v[v.len() - 1] == '/'
}

/// Law: the download address ends with the archive's file name
/// ("<stem>-<platform>.zip"), and two archives of different kinds never
/// share an address.
pub proof fn lemma_url_names_the_archive(k: UseChrome, j: UseChrome, version: Seq<char>, platform: Seq<char>)
    ensures
        download_url(k, version, platform).subrange(
            download_url(k, version, platform).len() - (archive_stem(k) + "-"@ + platform + ".zip"@).len(),
            download_url(k, version, platform).len() as int) == archive_stem(k) + "-"@ + platform + ".zip"@,
        k != j ==> download_url(k, version, platform) != download_url(j, version, platform),
{
    let name = archive_stem(k) + "-"@ + platform + ".zip"@;
    let pre = "https://registry.npmmirror.com/-/binary/chrome-for-testing/"@ + version + "/"@ + platform + "/"@;
    assert(download_url(k, version, platform) =~= pre + name);
    assert((pre + name).subrange(pre.len() as int, (pre + name).len() as int) =~= name);
    if k != j {
        reveal_strlit("chrome");
        reveal_strlit("chromedriver");
        let a = download_url(k, version, platform);
        let b = download_url(j, version, platform);
        assert(a.len() != b.len());
    }
}

} // verus!
