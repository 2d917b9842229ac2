//! The command registry: validation of command lines, the life cycle of the
//! commands that run, and the findings attached to them.

pub mod model;
pub mod registry;
pub mod report;
pub mod validation;
