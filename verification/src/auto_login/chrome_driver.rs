//! How ChromeDriver is started and reached.
use vstd::prelude::*;
use crate::text::{dec, push_dec};

verus! {

/// ChromeDriver settings.
pub struct ChromeDriverConfig {
    /// port it listens on
    pub port: u16,
    /// whether it runs quietly
    pub slient: bool,
}

/// The address of a driver listening on `port`.
pub open spec fn driver_url(port: u16) -> Seq<char> {
    "http://127.0.0.1:"@ + dec(port as nat)
}

/// The port argument of the driver command line.
pub open spec fn port_arg(port: u16) -> Seq<char> {
    "--port="@ + dec(port as nat)
}

impl ChromeDriverConfig {
    /// Port 18888, quiet.
    pub fn default() -> (r: Self)
        ensures
            r.port == 18888,
            r.slient,
    {
        ChromeDriverConfig { port: 18888, slient: true }
    }

    /// Sets the port.
    pub fn set_port(&mut self, driver_port: u16)
        ensures
            final(self).port == driver_port,
            final(self).slient == old(self).slient,
    {
        self.port = driver_port;
    }

    /// Sets quiet mode.
    pub fn set_slient(&mut self, driver_slient: bool)
        ensures
            final(self).slient == driver_slient,
            final(self).port == old(self).port,
    {
        self.slient = driver_slient;
    }

    /// The address of the driver ("http://127.0.0.1:<port>").
    pub fn get_driver_url(&self) -> (r: String)
        ensures
            r@ == driver_url(self.port),
    {
        let mut r = "http://127.0.0.1:".to_owned();
        push_dec(&mut r, self.port as u64);
        r
    }

    /// The driver's command line: the port, then "--slient" in quiet mode.
    pub fn to_args(&self) -> (r: Vec<String>)
        ensures
            r@.len() == if self.slient { 2int } else { 1int },
            r@[0]@ == port_arg(self.port),
            self.slient ==> r@[1]@ == "--slient"@,
    {
        let mut arg: Vec<String> = Vec::new();
        let mut p = "--port=".to_owned();
        push_dec(&mut p, self.port as u64);
        arg.push(p);
        if self.slient {
            arg.push("--slient".to_owned());
        }
        arg
    }
}

} // verus!
