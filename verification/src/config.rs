//! The address pair a client connects to.

use vstd::prelude::*;
use vstd::string::*;

verus! {

/// Host and port of the server.
pub struct Config {
    /// Host name or address, as given.
    pub host: String,
    /// TCP port.
    pub port: u16,
}

impl Config {
    /// Builds a configuration from its parts.
    pub fn new(host: &str, port: u16) -> (c: Config)
        ensures
            c.host@ == host@,
            c.port == port,
    {
        Config { host: host.to_owned(), port }
    }
}

} // verus!
