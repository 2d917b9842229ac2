//! The documentation of findings: the durable record of each finding, the
//! document rendered from it, and the follow-up actions derived from it.

pub mod follow_up;
pub mod model;
pub mod render;
pub mod store;
