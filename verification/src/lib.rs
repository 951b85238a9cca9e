//! A task tracker's data layer: an ordered list of short textual tasks, the
//! operations that change it, and the JSON document it is stored as.

pub mod ident;
pub mod json;
pub mod laws;
pub mod report;
pub mod session;
pub mod store;
pub mod task;
