//! The Chrome settings in use by the daemon.
use vstd::prelude::*;
use crate::text::push_dec;
use crate::campus_core::config::ChromeConfig;
use crate::auto_login::chrome_driver::{driver_url, port_arg};

verus! {

/// Operates Chrome with the given settings.
pub struct ChromeOperator(pub ChromeConfig);

impl ChromeOperator {
    /// Wraps the settings.
    pub fn from_config(config: ChromeConfig) -> (r: Self)
        ensures
            r.0 == config,
    {
        ChromeOperator(config)
    }

    /// The driver's command line: its port and "--silent=false".
    pub fn get_args(&self) -> (r: Vec<String>)
        ensures
            r@.len() == 2,
            r@[0]@ == port_arg(self.0.port),
            r@[1]@ == "--silent=false"@,
    {
        let mut p = "--port=".to_owned();
        push_dec(&mut p, self.0.port as u64);
        let mut r: Vec<String> = Vec::new();
        r.push(p);
        r.push("--silent=false".to_owned());
        r
    }

    /// The address of the driver.
    pub fn get_driver_url(&self) -> (r: String)
        ensures
            r@ == driver_url(self.0.port),
    {
        let mut r = "http://127.0.0.1:".to_owned();
        push_dec(&mut r, self.0.port as u64);
        r
    }
}

} // verus!
