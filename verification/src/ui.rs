//! The dashboard itself: its state, the keys that drive it and what it
//! shows.

pub mod app;
pub mod event;
pub mod laws;
pub mod layout;
pub mod render;
pub mod style;
pub mod tree;

pub use app::App;
pub use render::render;
