//! The first configuration layout of the daemon (`config.toml` with a
//! `[login]` table, a `[[connection]]` list and a `[webdriver]` table).
use vstd::prelude::*;

verus! {

/// Login data and portal address.
pub struct LoginInfo {
    pub username: String,
    pub password: String,
    /// element id of the chosen service
    pub service: String,
    /// seconds to wait after opening the page
    pub wait_seconds: u16,
    pub eportal: String,
}

/// A probe page and the text it must return.
pub struct ConnectionState {
    pub url: String,
    pub value: String,
}

/// Where Chrome and ChromeDriver are.
pub struct WebDriverInfo {
    pub chrome_path: String,
    pub driver_path: String,
}

/// The whole file.
pub struct ConfigFile {
    pub login: LoginInfo,
    pub connection: Vec<ConnectionState>,
    /// seconds between two checks
    pub connection_wait: u64,
    pub webdriver: WebDriverInfo,
}

} // verus!
