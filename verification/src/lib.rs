//! Verified model of the Maxwell three-dimensional engine: typed register state, method
//! decoding, macro execution, and lowering to a host-independent vocabulary.

pub mod attachments;
pub mod bindings;
pub mod blend_validation;
pub mod capability;
pub mod clear;
pub mod clear_laws;
pub mod color_reduction;
pub mod constant_color;
pub mod counters;
pub mod coverage;
pub mod decode;
pub mod dispatch;
pub mod dispatch_error;
pub mod draw_inputs;
pub mod draw_laws;
pub mod draw_lowering;
pub mod draw_plan;
pub mod draw_state;
pub mod draw_validation;
pub mod falcon;
pub mod fingerprint_cache;
pub mod frontend;
pub mod inline_to_memory;
pub mod instrumentation;
pub mod l2_cache;
pub mod line;
pub mod lists;
pub mod lowering;
pub mod lowering_cache;
pub mod lowering_effects;
pub mod lowering_error;
pub mod lowering_message;
pub mod materialization;
pub mod message;
pub mod method_answers;
pub mod method_kinds;
pub mod method_laws;
pub mod methods;
pub mod mme;
pub mod mme_interpreter;
pub mod mme_laws;
pub mod neutral;
pub mod neutral_refusals;
pub mod operations;
pub mod output;
pub mod output_methods;
pub mod pipeline_identity;
pub mod profile;
pub mod raster;
pub mod register;
pub mod register_laws;
pub mod render_enable;
pub mod render_targets;
pub mod repeated_binding;
pub mod repeated_staging;
pub mod resource;
pub mod resource_indices;
pub mod resource_preparation;
pub mod sampler_preparation;
pub mod sequencing;
pub mod shader_execution;
pub mod shader_resolution;
pub mod state;
pub mod synchronization_laws;
pub mod synchronization_message;
pub mod target_laws;
pub mod tiled_cache;
pub mod timeline;
pub mod translated_shaders;
pub mod vertex;
pub mod vertex_methods;
pub mod viewport_laws;
pub mod zcull;
