//! Command-line configuration.

use vstd::prelude::*;
use vstd::string::*;
use crate::text::{decimal, push_char, push_decimal};

verus! {

/// Runtime configuration: database path, listen address and port, which
/// pollers are disabled, and the log level.
#[derive(Debug, Clone)]
pub struct Config {
    /// SQLite database path
    pub database: String,
    /// Listen address
    pub address: String,
    /// Listen port
    pub port: u16,
    /// Disable NWS poller
    pub no_nws: bool,
    /// Disable USGS earthquake poller
    pub no_usgs: bool,
    /// Disable FL Mesh node poller
    pub no_mesh: bool,
    /// Log level (trace, debug, info, warn, error)
    pub log_level: String,
}

impl Config {
    /// The socket address the dashboard listens on: `address:port`.
    pub fn listen_address(&self) -> (r: String)
        ensures
            r@ == self.address@ + seq![':'] + decimal(self.port as nat),
    {
        let mut addr = self.address.clone();
        push_char(&mut addr, ':');
        push_decimal(&mut addr, self.port as u64);
        addr
    }
}

} // verus!
