//! The settings of the program.

use vstd::prelude::*;

verus! {

/// A tool, where it is installed and the arguments that it always gets.
#[derive(Debug)]
pub struct ToolConfig {
    pub name: String,
    pub path: String,
    pub args: Vec<String>,
}

/// How hard the program may press on a service.
#[derive(Clone, Copy, Debug, PartialEq, Eq, Structural)]
pub struct RateLimitConfig {
    pub requests_per_minute: u32,
    pub concurrent_connections: u32,
}

/// The settings of the program.
#[derive(Debug)]
pub struct Config {
    pub api_key: String,
    pub working_dir: String,
    pub tools: Vec<ToolConfig>,
    pub rate_limit: RateLimitConfig,
}

impl Default for Config {
    /// The settings of a program that was never configured: no key of the
    /// service, the directory `sessions`, no tools, sixty requests a minute
    /// over ten connections.
    fn default() -> (r: Self)
        ensures
            r.api_key@ == Seq::<char>::empty(),
            r.working_dir@ == "sessions"@,
            r.tools@ == Seq::<ToolConfig>::empty(),
            r.rate_limit == (RateLimitConfig { requests_per_minute: 60, concurrent_connections: 10 }),
    {
        Config {
            api_key: String::new(),
            working_dir: String::from_str("sessions"),
            tools: Vec::new(),
            rate_limit: RateLimitConfig { requests_per_minute: 60, concurrent_connections: 10 },
        }
    }
}

} // verus!
