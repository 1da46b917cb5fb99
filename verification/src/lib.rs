//! The kernel of a real-time scene renderer: cameras, models and their
//! placed instances, and the bookkeeping of one frame after another.

pub mod bytes;
pub mod draft;
pub mod draft_camera;
pub mod draft_instance;
pub mod draft_model;
pub mod draft_model_manager;
pub mod draft_pipeline;
pub mod draft_vertex;
pub mod input;
pub mod linear;
pub mod scalar;
pub mod util;
