//! Sprite sheet documents: frames, animations and hitboxes, with the
//! editing state that a sheet editor keeps around them.

pub mod names;
pub mod paths;
pub mod sheet;
pub mod error;
pub mod view;
pub mod transient;
pub mod command;
pub mod document;
pub mod editing;
pub mod hitbox_editing;
pub mod selection_editing;
pub mod export_editing;
pub mod document_commands;
pub mod app_state;
pub mod laws;
pub mod model;
pub mod geometry;
pub mod file_watching;
pub mod command_buffer;
pub mod shortcuts;
pub mod export;
pub mod texture_cache;
pub mod multi_selection;
