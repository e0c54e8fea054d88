//! Decision logic for bringing one named container to a freshly created,
//! running state on a container engine.

pub mod config;
pub mod exchange;
pub mod image;
pub mod laws;
pub mod model;
pub mod provision;
pub mod report;
pub mod state;
