//! The settings of the whole program, one section per component.
use vstd::prelude::*;

use crate::server;

verus! {

/// All settings: the process-wide section and the web server's.
#[derive(Debug, Clone)]
pub struct Settings {
    pub main: crate::Settings,
    pub server: server::Settings,
}

impl Default for Settings {
    fn default() -> (r: Settings)
        ensures
            r.main.level@ == "error"@,
            r.server.addr@ == "0.0.0.0:3001"@,
    {
        Settings { main: crate::Settings::default(), server: server::Settings::default() }
    }
}

} // verus!
