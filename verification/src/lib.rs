//! The compositor core of a desktop overlay that shows one 3D model: it maps a
//! panel of the user interface onto framebuffer pixels, frames the model with a
//! camera, and keeps one render session per render thread.

pub mod camera;
pub mod geometry;
pub mod registry;
pub mod session;
pub mod shell;
pub mod units;
pub mod viewport;
