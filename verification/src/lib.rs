//! The decision core of a small real-time renderer.
//!
//! The crate models the rendering-device layer of a graphics engine as plain
//! values: what a surface can do, which swapchain to ask for, which frame
//! targets belong to the swapchain's images, and what one frame submits and
//! presents. The graphics device itself stays with the caller, who reports
//! what the device answers and performs what these functions decide.
//!
//! All of it is verified but for three private functions in `surface`, which
//! ask vulkano whether a mode is in a set and which mode a set yields first;
//! what they return is stated there and taken on trust.

pub mod config;
pub mod device;
pub mod error;
pub mod frame;
pub mod render_pass;
pub mod renderer;
pub mod surface;
pub mod swapchain;
pub mod targets;
