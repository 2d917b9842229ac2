//! The analysis of command output: what the lines that a command wrote say
//! about open ports, subdomains, paths and vulnerabilities.

pub mod draft;
pub mod engine;
pub mod paths;
pub mod ports;
pub mod scan;
pub mod subdomains;
pub mod vulnerabilities;
