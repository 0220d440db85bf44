//! The core of a terminal dashboard for local containers: the state
//! machine behind the screen and the function that maps a state to what is
//! drawn.

pub mod docker;
pub mod text;
pub mod ui;
