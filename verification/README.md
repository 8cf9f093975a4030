# maxwell_threed

Verified model of the Maxwell three-dimensional engine (class `MAXWELL_B`): typed
register state, method decoding, the macro method expander, and the lowering of draws,
surface clears and synchronization to a host-independent vocabulary.

- `src/` is the library. Every function has a contract that Verus checks; relations
  between functions are stated as proof functions whose names start with `law_`.
  - Registers: `register`, `bindings`, `color_reduction`, `constant_color`, `counters`,
    `coverage`, `falcon`, `inline_to_memory`, `instrumentation`, `l2_cache`, `line`,
    `mme`, `operations`, `output`, `raster`, `render_enable`, `render_targets`,
    `shader_execution`, `tiled_cache`, `vertex`, `zcull`, and `state`, which holds them all.
  - Methods: `profile`, `decode`, `vertex_methods`, `output_methods`, `methods`,
    `dispatch`, `dispatch_error`, `mme_interpreter`, `frontend`.
  - Identity of pipelines: `pipeline_identity`.
  - Lowering: `neutral`, `neutral_refusals`, `resource`, `draw_state`, `draw_validation`, `attachments`,
    `blend_validation`, `clear`, `translated_shaders`, `draw_plan`, `fingerprint_cache`,
    `lowering_cache`, `shader_resolution`, `resource_preparation`, `sampler_preparation`,
    `materialization`, `draw_inputs`, `resource_indices`, `draw_lowering`, `sequencing`,
    `lowering`, `capability`, which lowers and asks a backend, and the laws on failed and
    repeated work: `lowering_effects`, `repeated_binding`, `repeated_staging`.
  - Messages: `message`, `lowering_error`, `lowering_message`, `synchronization_message`.
- `tests/` runs the library on concrete method streams and resources.
- `app/` gives its errors the standard error traits and turns register bits into
  floating-point numbers.

Encodings and reset words that differ between GPU profiles are input (`profile`), and so
are facts about draws that the registers alone do not decide (`draw_validation`) and what
the host-independent vocabulary refuses to construct (`neutral_refusals`).
