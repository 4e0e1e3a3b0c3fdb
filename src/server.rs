//! The web service's settings and its resources.
use vstd::prelude::*;

pub mod user;

verus! {

/// Settings of the web server.
#[derive(Debug, Clone)]
pub struct Settings {
    /// The address the server listens on, as `host:port`.
    pub addr: String,
}

impl Default for Settings {
    fn default() -> (r: Settings)
        ensures
            r.addr@ == "0.0.0.0:3001"@,
    {
        Settings { addr: String::from_str("0.0.0.0:3001") }
    }
}

} // verus!
