//! The second configuration layout of the daemon, with the service given
//! by name, and its network status type.
use vstd::prelude::*;

verus! {

/// Login data.
pub struct LoginInfo {
    pub username: String,
    pub password: String,
    pub service: NetServiceType,
    /// seconds to wait after opening the page
    pub wait_seconds: u16,
}

/// A probe page and the text it must return.
pub struct ConnectionState {
    pub url: String,
    pub value: String,
}

/// Directory of Chrome and path of ChromeDriver.
pub struct WebDriverInfo {
    pub chrome_path: String,
    pub driver_path: String,
}

/// The whole file.
pub struct ConfigFile {
    pub login: LoginInfo,
    pub connection: Vec<ConnectionState>,
    /// seconds between two checks
    pub connection_wait: u64,
    pub webdriver: WebDriverInfo,
}

/// The network services offered by the portal.
#[derive(PartialEq, Eq, Structural, Debug, Clone, Copy)]
pub enum NetServiceType {
    /// 校园网
    CampusNet,
    /// 南京移动
    NanjingMobile,
    /// 常州电信
    ChangzhouTelecom,
    /// 常州联通
    ChangzhouUnion,
}

/// Reachability as the daemon tracks it.
#[derive(PartialEq, Eq, Structural, Debug, Clone, Copy)]
pub enum NetStatus {
    Connecting,
    Restricted,
    Disconnected,
}

/// What the default configuration holds.
pub open spec fn default_ok(c: ConfigFile) -> bool {
    &&& c.login.username@ == ""@
    &&& c.login.password@ == ""@
    &&& c.login.service == NetServiceType::CampusNet
    &&& c.login.wait_seconds == 3
    &&& c.connection@.len() == 1
    &&& c.connection@[0].url@ == "http://www.msftncsi.com/ncsi.txt"@
    &&& c.connection@[0].value@ == "Microsoft NCSI"@
    &&& c.connection_wait == 30
    &&& c.webdriver.chrome_path@ == "chrome-win64"@
    &&& c.webdriver.driver_path@ == "chromedriver.exe"@
}

impl Default for ConfigFile {
    /// Empty credentials, the Microsoft probe every thirty seconds and the
    /// Windows browser files next to the program.
    fn default() -> (r: Self)
        ensures
            default_ok(r),
    {
        let mut connection: Vec<ConnectionState> = Vec::new();
        connection.push(ConnectionState {
            url: "http://www.msftncsi.com/ncsi.txt".to_owned(),
            value: "Microsoft NCSI".to_owned(),
        });
        ConfigFile {
            login: LoginInfo {
                username: "".to_owned(),
                password: "".to_owned(),
                service: NetServiceType::CampusNet,
                wait_seconds: 3,
            },
            connection,
            connection_wait: 30,
            webdriver: WebDriverInfo {
                chrome_path: "chrome-win64".to_owned(),
                driver_path: "chromedriver.exe".to_owned(),
            },
        }
    }
}

} // verus!
