//! Which part of the engine state each family of methods writes.

use vstd::prelude::*;
use crate::dispatch_error::MaxwellEngineDispatchError;
use crate::profile::MaxwellGpuProfile;
use crate::register::MaxwellMethodSource;
use crate::state::{FrontendModel, MaxwellThreeDStateWrite};

verus! {

/// Which part of the state a family writes, family by family.
pub proof fn lemma_mme_kind(source: MaxwellMethodSource, model: FrontendModel)
    ensures
        crate::method_answers::mme_answer(source, model) matches Ok(Some((write, _))) ==> write is Mme,
{
    reveal(crate::method_answers::mme_answer);
}

pub proof fn lemma_load_kind(source: MaxwellMethodSource, model: FrontendModel)
    ensures
        crate::method_answers::load_answer(source, model) matches Ok(Some((write, _, _))) ==> write is ShaderBinding,
{
    reveal(crate::method_answers::load_answer);
}

pub proof fn lemma_stream_kind(profile: &MaxwellGpuProfile, source: MaxwellMethodSource)
    ensures
        crate::method_answers::stream_answer(profile, source) matches Ok(Some((write, _))) ==> write is VertexInput,
{
    reveal(crate::method_answers::stream_answer);
}

pub proof fn lemma_assembly_kind(profile: &MaxwellGpuProfile, source: MaxwellMethodSource)
    ensures
        crate::method_answers::assembly_answer(profile, source) matches Ok(Some((write, _))) ==> write is VertexInput
            || write is ShaderBinding || write is Raster,
{
    reveal(crate::method_answers::assembly_answer);
}

pub proof fn lemma_binding_kinds(
    profile: &MaxwellGpuProfile,
    source: MaxwellMethodSource,
    model: FrontendModel,
)
    ensures
        crate::method_answers::constant_binding_answer(source, model) matches Ok(Some((write, _))) ==> write is ShaderBinding,
        crate::method_answers::shader_binding_answer(profile, source) matches Ok(Some((write, _))) ==> write is ShaderBinding
            || write is VertexInput || write is Raster,
{
    reveal(crate::method_answers::constant_binding_answer);
    reveal(crate::method_answers::shader_binding_answer);
}

pub proof fn lemma_raster_kinds(profile: &MaxwellGpuProfile, source: MaxwellMethodSource)
    ensures
        crate::method_answers::line_answer(source) matches Ok(Some((write, _))) ==> write is Line,
        crate::method_answers::raster_answer(profile, source) matches Ok(Some((write, _))) ==> write is Raster,
{
    reveal(crate::method_answers::line_answer);
    reveal(crate::method_answers::raster_answer);
}

pub proof fn lemma_target_kinds(profile: &MaxwellGpuProfile, source: MaxwellMethodSource)
    ensures
        crate::method_answers::color_target_answer(profile, source) matches Ok(Some((write, _))) ==> write is RenderTarget,
        crate::method_answers::render_target_answer(profile, source) matches Ok(Some((write, _))) ==> write is RenderTarget,
{
    reveal(crate::method_answers::color_target_answer);
    reveal(crate::method_answers::render_target_answer);
}

pub proof fn lemma_blend_kind(source: MaxwellMethodSource)
    ensures
        crate::method_answers::blend_answer(source) matches Ok(Some((write, _))) ==> {
            &&& write matches MaxwellThreeDStateWrite::FixedFunction(write)
            &&& write is BlendEnable || write is BlendState || write is ColorMask
                || write is BlendEnableCommon || write is BlendPerFormatEnable
                || write is BlendFloatPixelKillEnable || write is BlendZeroTimesAnythingIsZero
        },
        crate::method_answers::sample_mask_answer(source) matches Ok(Some((write, _))) ==> {
            &&& write matches MaxwellThreeDStateWrite::FixedFunction(write)
            &&& write is Register
        },
{
    reveal(crate::method_answers::blend_answer);
    reveal(crate::method_answers::sample_mask_answer);
}

pub proof fn lemma_fixed_kind(source: MaxwellMethodSource)
    ensures
        crate::method_answers::fixed_answer(source) matches Ok(Some((write, _))) ==> {
            &&& write matches MaxwellThreeDStateWrite::FixedFunction(write)
            &&& write is Register || write is BlendEnableCommon || write is BlendPerFormatEnable
                || write is BlendFloatPixelKillEnable || write is BlendZeroTimesAnythingIsZero
        },
{
    reveal(crate::method_answers::fixed_answer);
}

pub proof fn lemma_declared_kind(
    profile: &MaxwellGpuProfile,
    source: MaxwellMethodSource,
    model: FrontendModel,
)
    ensures
        crate::method_answers::declared_answer(profile, source, model) matches Ok(plan) ==> (plan.write matches Some(write)
            ==> !(write is RenderTarget) && !(write is VertexInput) && !(write is ShaderBinding)
            && !(write is InlineToMemory) && (write matches MaxwellThreeDStateWrite::FixedFunction(
            write,
        ) ==> write is IteratedBlend || write is IteratedBlendPassCount)),
{
    reveal(crate::method_answers::declared_answer);
}

/// A transition of the fixed-function registers comes from one of the families that own
/// them.
pub proof fn lemma_fixed_function_origin(
    profile: &MaxwellGpuProfile,
    source: MaxwellMethodSource,
    model: FrontendModel,
)
    ensures
        crate::method_answers::answered(profile, source, model) matches Ok(plan) ==> (plan.write matches Some(write) ==> (
        write matches MaxwellThreeDStateWrite::FixedFunction(fixed) ==> {
            ||| crate::method_answers::viewport_answer(source) == Ok::<_, MaxwellEngineDispatchError>(Some((write, plan.name)))
            ||| fixed is BlendEnable || fixed is BlendState || fixed is ColorMask || fixed is Register
                || fixed is BlendEnableCommon || fixed is BlendPerFormatEnable
                || fixed is BlendFloatPixelKillEnable || fixed is BlendZeroTimesAnythingIsZero
                || fixed is IteratedBlend || fixed is IteratedBlendPassCount
        })),
{
    lemma_mme_kind(source, model);
    lemma_load_kind(source, model);
    lemma_stream_kind(profile, source);
    lemma_assembly_kind(profile, source);
    lemma_binding_kinds(profile, source, model);
    lemma_raster_kinds(profile, source);
    lemma_target_kinds(profile, source);
    lemma_blend_kind(source);
    lemma_fixed_kind(source);
    lemma_declared_kind(profile, source, model);
    reveal(crate::method_answers::vertex_answer);
    reveal(crate::method_answers::output_answer);
}

} // verus!
