//! The configuration file model (`config.toml`) and its defaults.
use vstd::prelude::*;
use crate::text::str_eq;
use crate::campus_core::platform::{detect_platform, platform_of};

verus! {

/// Which browser driver is used.
#[derive(Debug, Clone, Copy, PartialEq, Eq, Structural)]
pub enum DriverType {
    Gecko,
    Chrome,
}

/// The user's login data.
pub struct LoginInfo {
    /// student number
    pub username: String,
    /// password
    pub password: String,
    /// element id of the network service on the portal
    pub service: String,
}

impl LoginInfo {
    /// Empty credentials on the campus network service.
    pub fn default() -> (r: Self)
        ensures
            r.username@ == ""@,
            r.password@ == ""@,
            r.service@ == "_service_0"@,
    {
        LoginInfo {
            username: "".to_owned(),
            password: "".to_owned(),
            service: "_service_0".to_owned(),
        }
    }
}

/// How the portal is reached.
pub struct LoginConfig {
    /// portal address
    pub eportal: String,
    /// seconds to wait for the page
    pub timout: u64,
}

impl LoginConfig {
    /// The campus portal with a three second wait.
    pub fn default() -> (r: Self)
        ensures
            r.eportal@ == "http://eportal.hhu.edu.cn"@,
            r.timout == 3,
    {
        LoginConfig { eportal: "http://eportal.hhu.edu.cn".to_owned(), timout: 3 }
    }
}

/// Login section: credentials and portal settings.
pub struct Login {
    pub info: LoginInfo,
    pub config: LoginConfig,
}

impl Login {
    /// Both parts at their defaults.
    pub fn default() -> (r: Self)
        ensures
            r.info.username@ == ""@,
            r.info.password@ == ""@,
            r.info.service@ == "_service_0"@,
            r.config.eportal@ == "http://eportal.hhu.edu.cn"@,
            r.config.timout == 3,
    {
        Login { info: LoginInfo::default(), config: LoginConfig::default() }
    }
}

/// One connectivity probe: the page to fetch and the text it must return.
pub struct Connection {
    pub url: String,
    pub val: String,
}

/// The probes and how often they run.
pub struct QueryConfig {
    pub connect: Vec<Connection>,
    /// seconds between two checks
    pub interval: u64,
}

impl QueryConfig {
    /// The Microsoft and Apple probe pages, checked every fifteen seconds.
    pub fn default() -> (r: Self)
        ensures
            r.connect@.len() == 2,
            r.connect@[0].url@ == "http://www.msftncsi.com/ncsi.txt"@,
            r.connect@[0].val@ == "Microsoft NCSI"@,
            r.connect@[1].url@ == "https://captive.apple.com/hotspot-detect.html"@,
            r.connect@[1].val@ == "Success"@,
            r.interval == 15,
    {
        let mut connect: Vec<Connection> = Vec::new();
        connect.push(Connection {
            url: "http://www.msftncsi.com/ncsi.txt".to_owned(),
            val: "Microsoft NCSI".to_owned(),
        });
        connect.push(Connection {
            url: "https://captive.apple.com/hotspot-detect.html".to_owned(),
            val: "Success".to_owned(),
        });
        QueryConfig { connect, interval: 15 }
    }
}

/// Where ChromeDriver listens and where the two executables are.
pub struct ChromeConfig {
    pub port: u16,
    pub driver_path: String,
    pub browser_path: String,
}

/// Default path of ChromeDriver inside the unpacked archive for `platform`.
pub open spec fn default_driver_path(platform: Seq<char>, windows: bool) -> Seq<char> {
    "chromedriver-"@ + platform + if windows { "/chromedriver.exe"@ } else { "/chromedriver"@ }
}

/// Default path of Chrome inside the unpacked archive for `platform`.
pub open spec fn default_browser_path(platform: Seq<char>, windows: bool) -> Seq<char> {
    "chrome-"@ + platform + if windows { "/chrome.exe"@ } else { "/chrome"@ }
}

/// The default Chrome settings on `os`/`arch`.
pub open spec fn chrome_default_ok(c: ChromeConfig, os: Seq<char>, arch: Seq<char>) -> bool {
    &&& c.port == 18888
    &&& c.driver_path@ == default_driver_path(platform_of(os, arch)->0, os == "windows"@)
    &&& c.browser_path@ == default_browser_path(platform_of(os, arch)->0, os == "windows"@)
}

impl ChromeConfig {
    /// Port 18888 and the executables where the downloaded archives for
    /// this platform unpack them. `os` and `arch` are the values of
    /// `std::env::consts::{OS, ARCH}`; the platform must be supported.
    pub fn default(os: &str, arch: &str) -> (r: Self)
        requires
            platform_of(os@, arch@) is Some,
        ensures
            chrome_default_ok(r, os@, arch@),
    {
        let platform = detect_platform(os, arch);
        let windows = str_eq(os, "windows");
        let mut driver_path = "chromedriver-".to_owned();
        driver_path.append(platform.as_str());
        let mut browser_path = "chrome-".to_owned();
        browser_path.append(platform.as_str());
        if windows {
            driver_path.append("/chromedriver.exe");
            browser_path.append("/chrome.exe");
        } else {
            driver_path.append("/chromedriver");
            browser_path.append("/chrome");
        }
        ChromeConfig { port: 18888, driver_path, browser_path }
    }
}

/// Settings of the Firefox driver (not used by the login flow).
pub struct GeckoConfig {
    pub port: u16,
    pub driver_path: String,
    pub browser_path: String,
}

impl GeckoConfig {
    /// Port 18888 and empty paths.
    pub fn default() -> (r: Self)
        ensures
            r.port == 18888,
            r.driver_path@ == ""@,
            r.browser_path@ == ""@,
    {
        GeckoConfig { port: 18888, driver_path: "".to_owned(), browser_path: "".to_owned() }
    }
}

/// Driver section.
pub struct DriverConfig {
    pub driver_type: DriverType,
    pub chrome_config: Option<ChromeConfig>,
    pub firefox_config: Option<GeckoConfig>,
}

impl DriverConfig {
    /// Chrome with its default settings, no Firefox settings.
    pub fn default(os: &str, arch: &str) -> (r: Self)
        requires
            platform_of(os@, arch@) is Some,
        ensures
            r.driver_type == DriverType::Chrome,
            r.chrome_config matches Some(c) && chrome_default_ok(c, os@, arch@),
            r.firefox_config is None,
    {
        DriverConfig {
            driver_type: DriverType::Chrome,
            chrome_config: Some(ChromeConfig::default(os, arch)),
            firefox_config: None,
        }
    }
}

/// The whole configuration file.
pub struct ConfigFile {
    pub login: Login,
    pub query: QueryConfig,
    pub driver: DriverConfig,
}

/// What the default configuration holds on `os`/`arch`.
pub open spec fn config_default_ok(r: ConfigFile, os: Seq<char>, arch: Seq<char>) -> bool {
    &&& r.login.info.username@ == ""@
    &&& r.login.info.password@ == ""@
    &&& r.login.info.service@ == "_service_0"@
    &&& r.login.config.eportal@ == "http://eportal.hhu.edu.cn"@
    &&& r.login.config.timout == 3
    &&& r.query.connect@.len() == 2
    &&& r.query.connect@[0].url@ == "http://www.msftncsi.com/ncsi.txt"@
    &&& r.query.connect@[0].val@ == "Microsoft NCSI"@
    &&& r.query.connect@[1].url@ == "https://captive.apple.com/hotspot-detect.html"@
    &&& r.query.connect@[1].val@ == "Success"@
    &&& r.query.interval == 15
    &&& r.driver.driver_type == DriverType::Chrome
    &&& (r.driver.chrome_config matches Some(c) && chrome_default_ok(c, os, arch))
    &&& r.driver.firefox_config is None
}

impl ConfigFile {
    /// The configuration written by `config --create`.
    pub fn default(os: &str, arch: &str) -> (r: Self)
        requires
            platform_of(os@, arch@) is Some,
        ensures
            config_default_ok(r, os@, arch@),
    {
        ConfigFile {
            login: Login::default(),
            query: QueryConfig::default(),
            driver: DriverConfig::default(os, arch),
        }
    }
}

} // verus!
