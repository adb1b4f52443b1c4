//! A 2D scene renderer core: axis-aligned quads, a dynamic texture registry,
//! and the per-frame draw-call assembly, with the window and GPU handles kept
//! at the boundary.

pub mod collision;
pub mod color;
pub mod component;
pub mod file_reader;
pub mod frame;
pub mod hover;
pub mod input_handler;
pub mod pipeline;
pub mod registry;
pub mod scene_state;
pub mod screen_details;
pub mod square;
pub mod texture;
pub mod update_commands;
pub mod vertex;
pub mod window_state;
