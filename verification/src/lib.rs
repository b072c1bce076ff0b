//! Decision logic of a small wgpu game renderer: command-line option
//! interpretation, the window event loop's decisions, the surface size state
//! and the plan of draw commands that one render pass issues.

pub mod component;
pub mod events;
pub mod options;
pub mod render_plan;
pub mod surface;
pub mod text;
