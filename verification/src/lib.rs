//! An in-memory log of timestamped tasks and the renderer that sets it into a
//! page template.

pub mod decimal;
pub mod render;
pub mod service;
pub mod std_specs;
pub mod store;
pub mod task;
pub mod template;
pub mod time;
