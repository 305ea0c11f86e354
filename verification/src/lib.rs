//! Owned OpenGL ES 2.0 resources, a keyed resource cache and render-pass
//! composition for a shader-driven scene.
//!
//! Every state-changing call to the graphics API is described by a
//! [`Command`]; the sequences a render pass and a scene issue are computed by
//! verified functions and then submitted in order. Calls that answer a
//! question (creating a handle, a compile status, a location) are made
//! directly, and what the library does with each possible answer is decided by
//! verified functions that take the answer as an argument.

pub mod command;
pub mod constants;
mod gl;
pub mod glesv2_raii;
pub mod particle_system;
pub mod render_pass;
pub mod scene;
pub mod table;
pub mod text;

pub use command::{run, submit, Command};
pub use render_pass::RenderPass;
pub use scene::Scene;
