//! Safe, typed building blocks for audio plugins: parameter value model,
//! parameter catalog, state codec and process-block marshaling.

pub mod range;
pub mod type_cell;
pub mod converter;
pub mod plugin_parameter;
pub mod le_bytes;
pub mod plugin;
pub mod audio_processor;
pub mod marshal;
pub mod vst_categories;
pub mod utils;
pub mod edit_controller;
pub mod vst_factory;
pub mod vst_stream;
pub mod buses;
