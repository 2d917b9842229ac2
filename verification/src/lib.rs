//! Orchestration of command-line security tools.
//!
//! The library keeps a registry of the commands that run, reads what they
//! write for open ports, subdomains, paths and signs of vulnerabilities,
//! keeps a durable record of each finding, and derives the follow-up
//! actions that a finding calls for. Around this core stand the catalogue
//! of security commands and the reading of what a user and the assistant
//! say.
//!
//! Every function is verified against a contract stated over mathematical
//! views of its data. Processes, files, channels and the network are left
//! to the caller: the library decides, the caller acts and reports back.
//! Regular expressions are matched by `regex`, identifiers are drawn by
//! `uuid` and times are read and rendered by `chrono`, each behind a small
//! function whose contract is taken on trust.

pub mod analyzer;
pub mod clock;
pub mod commands;
pub mod config;
pub mod conversation;
pub mod documentation;
pub mod engine;
pub mod executor;
pub mod ident;
pub mod intent;
pub mod monitor;
pub mod pattern;
pub mod response;
pub mod results;
pub mod seqs;
pub mod text;
pub mod util;
