//! A small user resource service: record shapes, defaults, and the pure
//! operations behind each verb of the resource.
use vstd::prelude::*;

pub mod server;
pub mod settings;
pub mod substring;

verus! {

/// Settings that concern the whole process.
#[derive(Debug, Clone)]
pub struct Settings {
    /// The log verbosity.
    pub level: String,
}

impl Default for Settings {
    fn default() -> (r: Settings)
        ensures
            r.level@ == "error"@,
    {
        Settings { level: String::from_str("error") }
    }
}

} // verus!
