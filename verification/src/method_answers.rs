//! Which family of registers answers a method, and the vocabulary in which the laws on
//! method words are stated.

use vstd::prelude::*;
use crate::decode::MethodDecode;
use crate::dispatch::{ConstantBufferLoad, MethodPlan, MethodPlanning, PendingOperation};
use crate::dispatch_error::MaxwellEngineDispatchError;
use crate::frontend::PreparedMethod;
use crate::inline_to_memory::InlineToMemoryMethod;
use crate::profile::MaxwellGpuProfile;
use crate::register::{
    MaxwellMethodSource, MaxwellThreeDRawValue, MaxwellThreeDRectangle, MaxwellThreeDRegister,
};
use crate::state::{FrontendModel, MaxwellThreeDState, MaxwellThreeDStateWrite};

verus! {

/// One method on its way to the engine, and whether it passes through the macro shadow.
/// Methods from the command stream do, methods that a macro emits do not.
pub struct MethodStep {
    pub source: MaxwellMethodSource,
    pub shadow: bool,
}

/// The method as it took effect, if the front end accepted it. Its argument is the
/// effective word: the submitted one, unless the macro shadow replayed another.
pub open spec fn taken(profile: &MaxwellGpuProfile, step: MethodStep, model: FrontendModel) -> Option<
    PreparedMethod,
> {
    match crate::frontend::dispatched(profile, step.source, model, step.shadow).1 {
        Ok(prepared) => Some(prepared),
        Err(_) => None,
    }
}

/// The word with which an accepted method took effect.
pub open spec fn taken_word(
    profile: &MaxwellGpuProfile,
    step: MethodStep,
    model: FrontendModel,
) -> u32 {
    taken(profile, step, model)->Some_0.source.argument
}

/// Engine state after the method.
pub open spec fn state_after(
    profile: &MaxwellGpuProfile,
    step: MethodStep,
    model: FrontendModel,
) -> MaxwellThreeDState {
    crate::frontend::dispatched(profile, step.source, model, step.shadow).0.operation
}

/// An accepted method was planned with its effective word, and the engine state after it
/// is the planned one but for the identity.
pub proof fn lemma_taken(profile: &MaxwellGpuProfile, step: MethodStep, model: FrontendModel)
    ensures
        taken(profile, step, model) is None ==> state_after(profile, step, model) == model.operation,
        taken(profile, step, model) matches Some(prepared) ==> {
            &&& prepared.source.method == step.source.method
            &&& crate::dispatch::spec_plan_register(profile, prepared.source, model) matches Ok(plan)
            &&& prepared.operation == plan.operation
            &&& prepared.writes_state == plan.writes_state
            &&& plan.write matches Some(write) ==> state_after(profile, step, model) == (
            MaxwellThreeDState {
                identity: state_after(profile, step, model).identity,
                ..model.operation.written(write)
            })
            &&& plan.write is None ==> state_after(profile, step, model) == (MaxwellThreeDState {
                identity: state_after(profile, step, model).identity,
                ..model.operation
            })
        },
        !step.shadow ==> (taken(profile, step, model) matches Some(prepared) ==> prepared.source
            == step.source),
{
    reveal(crate::frontend::dispatched);
}

/// Answer of the inline upload family.
#[verifier::opaque]
pub open spec fn inline_answer(source: MaxwellMethodSource, model: FrontendModel) -> Result<
    Option<InlineToMemoryMethod>,
    MaxwellEngineDispatchError,
> {
    crate::inline_to_memory::spec_preflight(source, model.operation.inline_to_memory)
}

/// Answer of the macro expander.
#[verifier::opaque]
pub open spec fn mme_answer(source: MaxwellMethodSource, model: FrontendModel) -> MethodDecode {
    crate::dispatch::spec_preflight_mme_state(source, model.mme)
}

/// Answer of the inline constant-buffer loads.
#[verifier::opaque]
pub open spec fn load_answer(source: MaxwellMethodSource, model: FrontendModel) -> Result<
    Option<ConstantBufferLoad>,
    MaxwellEngineDispatchError,
> {
    crate::dispatch::spec_preflight_constant_buffer_load(source, model.operation)
}

/// Answer of the family of vertex streams.
#[verifier::opaque]
pub open spec fn stream_answer(profile: &MaxwellGpuProfile, source: MaxwellMethodSource) -> MethodDecode {
    crate::vertex_methods::spec_decode_vertex_stream(profile, source)
}

/// Answer of the family of primitive assembly.
#[verifier::opaque]
pub open spec fn assembly_answer(profile: &MaxwellGpuProfile, source: MaxwellMethodSource) -> MethodDecode {
    crate::vertex_methods::spec_decode_primitive_assembly(profile, source)
}

/// Answer of the family of constant-buffer bindings.
#[verifier::opaque]
pub open spec fn constant_binding_answer(source: MaxwellMethodSource, model: FrontendModel) -> MethodDecode {
    crate::vertex_methods::spec_decode_constant_buffer_binding(
        source,
        &model.operation.shader_bindings.selector,
    )
}

/// Answer of the family of shader bindings.
#[verifier::opaque]
pub open spec fn shader_binding_answer(profile: &MaxwellGpuProfile, source: MaxwellMethodSource) -> MethodDecode {
    crate::vertex_methods::spec_decode_shader_binding(profile, source)
}

/// Answer of the family of line rasterization.
#[verifier::opaque]
pub open spec fn line_answer(source: MaxwellMethodSource) -> MethodDecode {
    crate::output_methods::spec_decode_line(source)
}

/// Answer of the family of raster registers.
#[verifier::opaque]
pub open spec fn raster_answer(profile: &MaxwellGpuProfile, source: MaxwellMethodSource) -> MethodDecode {
    crate::output_methods::spec_decode_raster(profile, source)
}

/// Answer of the family of color targets.
#[verifier::opaque]
pub open spec fn color_target_answer(profile: &MaxwellGpuProfile, source: MaxwellMethodSource) -> MethodDecode {
    crate::output_methods::spec_decode_color_target(profile, source)
}

/// Answer of the family of depth target and clear registers.
#[verifier::opaque]
pub open spec fn render_target_answer(profile: &MaxwellGpuProfile, source: MaxwellMethodSource) -> MethodDecode {
    crate::output_methods::spec_decode_render_target(profile, source)
}

/// Answer of the family of viewports, scissors and clips.
#[verifier::opaque]
pub open spec fn viewport_answer(source: MaxwellMethodSource) -> MethodDecode {
    crate::output_methods::spec_decode_viewport(source)
}

/// Answer of the family of per-target blending.
#[verifier::opaque]
pub open spec fn blend_answer(source: MaxwellMethodSource) -> MethodDecode {
    crate::output_methods::spec_decode_blend_target(source)
}

/// Answer of the family of sample masks.
#[verifier::opaque]
pub open spec fn sample_mask_answer(source: MaxwellMethodSource) -> MethodDecode {
    crate::output_methods::spec_decode_sample_mask(source)
}

/// Answer of the family of single fixed-function registers.
#[verifier::opaque]
pub open spec fn fixed_answer(source: MaxwellMethodSource) -> MethodDecode {
    crate::output_methods::spec_decode_fixed_function(source)
}

/// Plan of the declared methods.
#[verifier::opaque]
pub open spec fn declared_answer(
    profile: &MaxwellGpuProfile,
    source: MaxwellMethodSource,
    model: FrontendModel,
) -> MethodPlanning {
    crate::dispatch::spec_plan_declared(profile, source, model.mme)
}

/// What the vertex and binding families decide together.
#[verifier::opaque]
pub open spec fn vertex_answer(
    profile: &MaxwellGpuProfile,
    source: MaxwellMethodSource,
    model: FrontendModel,
) -> MethodDecode {
    crate::decode::or_else(
stream_answer(profile, source),
crate::decode::or_else(
assembly_answer(profile, source),
crate::decode::or_else(
constant_binding_answer(source, model),
shader_binding_answer(profile, source),
),
),
)
}

/// What the output families decide together.
#[verifier::opaque]
pub open spec fn output_answer(profile: &MaxwellGpuProfile, source: MaxwellMethodSource) -> MethodDecode {
    crate::decode::or_else(
line_answer(source),
crate::decode::or_else(
raster_answer(profile, source),
crate::decode::or_else(
color_target_answer(profile, source),
crate::decode::or_else(
render_target_answer(profile, source),
crate::decode::or_else(
viewport_answer(source),
crate::decode::or_else(
blend_answer(source),
crate::decode::or_else(
sample_mask_answer(source),
fixed_answer(source),
),
),
),
),
),
),
)
}

pub proof fn lemma_vertex_answer(
    profile: &MaxwellGpuProfile,
    source: MaxwellMethodSource,
    model: FrontendModel,
)
    ensures
        vertex_answer(profile, source, model)
            == crate::vertex_methods::spec_preflight_vertex_and_binding_state(
            profile,
            source,
            &model.operation.shader_bindings.selector,
        ),
{
    reveal(vertex_answer);
    reveal(stream_answer);
    reveal(assembly_answer);
    reveal(constant_binding_answer);
    reveal(shader_binding_answer);
}

pub proof fn lemma_output_answer(profile: &MaxwellGpuProfile, source: MaxwellMethodSource)
    ensures
        output_answer(profile, source) == crate::output_methods::spec_preflight_output_state(
            profile,
            source,
        ),
{
    reveal(output_answer);
    reveal(line_answer);
    reveal(raster_answer);
    reveal(color_target_answer);
    reveal(render_target_answer);
    reveal(viewport_answer);
    reveal(blend_answer);
    reveal(sample_mask_answer);
    reveal(fixed_answer);
}

/// The families are asked in turn, and the first that claims or refuses the method
/// decides.
pub open spec fn answered(
    profile: &MaxwellGpuProfile,
    source: MaxwellMethodSource,
    model: FrontendModel,
) -> MethodPlanning {
    match inline_answer(source, model) {
        Err(error) => Err(error),
        Ok(Some((write, name, upload))) => Ok(
            MethodPlan {
                write: Some(MaxwellThreeDStateWrite::InlineToMemory(write)),
                name,
                operation: match upload {
                    Some(upload) => Some(PendingOperation::InlineToMemory(upload)),
                    None => None,
                },
                writes_state: true,
            },
        ),
        Ok(None) => match mme_answer(source, model) {
            Err(error) => Err(error),
            Ok(Some((write, name))) => Ok(MethodPlan::state_write(write, name)),
            Ok(None) => match load_answer(source, model) {
                Err(error) => Err(error),
                Ok(Some((write, name, upload))) => Ok(
                    MethodPlan {
                        write: Some(write),
                        name,
                        operation: match upload {
                            Some(upload) => Some(PendingOperation::InlineConstantBuffer(upload)),
                            None => None,
                        },
                        writes_state: true,
                    },
                ),
                Ok(None) => match vertex_answer(profile, source, model) {
                    Err(error) => Err(error),
                    Ok(Some((write, name))) => Ok(MethodPlan::state_write(write, name)),
                    Ok(None) => match output_answer(profile, source) {
                        Err(error) => Err(error),
                        Ok(Some((write, name))) => Ok(
                            MethodPlan {
                                write: Some(write),
                                name,
                                operation: crate::dispatch::write_trigger(write, source),
                                writes_state: true,
                            },
                        ),
                        Ok(None) => declared_answer(profile, source, model),
                    },
                },
            },
        },
    }
}

pub proof fn lemma_answered(
    profile: &MaxwellGpuProfile,
    source: MaxwellMethodSource,
    model: FrontendModel,
)
    ensures
        crate::dispatch::spec_plan_register(profile, source, model) == answered(
            profile,
            source,
            model,
        ),
{
    lemma_vertex_answer(profile, source, model);
    lemma_output_answer(profile, source);
    reveal(crate::dispatch::spec_plan_register);
    reveal(inline_answer);
    reveal(mme_answer);
    reveal(load_answer);
    reveal(declared_answer);
}

/// A register follows a method: an accepted word of its own method leaves in it the word,
/// the value and the packet, and any other method leaves it as it was.
pub open spec fn follows<T>(
    before: MaxwellThreeDRegister<T>,
    after: MaxwellThreeDRegister<T>,
    own: bool,
    source: MaxwellMethodSource,
    value: T,
) -> bool {
    if own {
        after.raw == Some(source.argument) && after.value == Some(value) && after.source == Some(
            source,
        )
    } else {
        after == before
    }
}

/// A rectangle register follows a method: the word holds the lower bound in its low half
/// and the upper bound in its high half, and is refused if they are out of order.
pub open spec fn follows_bounds(
    before: MaxwellThreeDRegister<MaxwellThreeDRectangle>,
    after: MaxwellThreeDRegister<MaxwellThreeDRectangle>,
    own: bool,
    source: MaxwellMethodSource,
) -> bool {
    if own {
        &&& after.raw == Some(source.argument)
        &&& after.source == Some(source)
        &&& after.value matches Some(bounds)
        &&& bounds.min <= bounds.max
        &&& bounds.min + 0x1_0000 * bounds.max == source.argument
    } else {
        after == before
    }
}

/// Outside the macro apertures a method that bypasses the macro shadow is accepted exactly
/// when it has a plan.
pub proof fn lemma_planned_is_taken(
    profile: &MaxwellGpuProfile,
    step: MethodStep,
    model: FrontendModel,
)
    requires
        !step.shadow,
        step.source.method.0 < 0x3800,
    ensures
        taken(profile, step, model) is Some <==> crate::dispatch::spec_plan_register(
            profile,
            step.source,
            model,
        ) is Ok,
{
    reveal(crate::frontend::dispatched);
}

} // verus!
