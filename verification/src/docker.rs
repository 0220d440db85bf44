//! What the dashboard knows of the container runtime: the records it lists
//! and the calls it can be asked to make.

pub mod container;
pub mod request;
