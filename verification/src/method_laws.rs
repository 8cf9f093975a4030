//! What accepted method words mean: each law relates the word of a method to the register
//! that it programs and says what the method leaves alone.

use vstd::prelude::*;
use crate::method_answers::MethodStep;
use crate::profile::MaxwellGpuProfile;
use crate::register::{MaxwellMethodSource, MaxwellThreeDRegister};
use crate::state::{FrontendModel, MaxwellThreeDStateWrite};
use crate::dispatch_error::MaxwellEngineDispatchError;
use crate::output::{
    MaxwellThreeDFixedFunctionState, MaxwellThreeDFixedFunctionWrite, MaxwellThreeDScissorState,
};

verus! {

/// What the viewport family makes of a word, method by method.
pub proof fn lemma_viewport_decode(source: MaxwellMethodSource)
    ensures
        crate::method_answers::viewport_answer(source) matches Ok(Some((write, _))) ==> {
            &&& write matches MaxwellThreeDStateWrite::FixedFunction(write)
            &&& write.spec_source() == source
            &&& match write {
                MaxwellThreeDFixedFunctionWrite::SurfaceClip { vertical, value, .. } => {
                    &&& source.method.0 == (if vertical { 0x0ff8int } else { 0x0ff4 })
                    &&& value.origin + 0x1_0000 * value.extent == source.argument
                },
                MaxwellThreeDFixedFunctionWrite::ViewportFloat { viewport, field, value, .. } => {
                    &&& viewport < 16
                    &&& field < 6
                    &&& source.method.0 / 4 == 0x280 + 8 * viewport + field
                    &&& value.0 == source.argument
                },
                MaxwellThreeDFixedFunctionWrite::ViewportRectangle { viewport, vertical, value, .. } => {
                    &&& viewport < 16
                    &&& source.method.0 == 0x0c00 + 0x10 * viewport + (if vertical { 4int } else { 0 })
                    &&& value.min <= value.max
                    &&& value.min + 0x1_0000 * value.max == source.argument
                },
                MaxwellThreeDFixedFunctionWrite::ViewportDepth { viewport, maximum, value, .. } => {
                    &&& viewport < 16
                    &&& source.method.0 == 0x0c08 + 0x10 * viewport + (if maximum { 4int } else { 0 })
                    &&& value.0 == source.argument
                },
                MaxwellThreeDFixedFunctionWrite::ViewportCoordinateSwizzle { viewport, .. } => {
                    &&& viewport < 16
                    &&& source.method.0 / 4 == 0x286 + 8 * viewport
                },
                MaxwellThreeDFixedFunctionWrite::ScissorEnable { scissor, value, .. } => {
                    &&& scissor < 16
                    &&& source.method.0 == 0x0e00 + 0x10 * scissor
                    &&& source.argument == (if value { 1int } else { 0 })
                },
                MaxwellThreeDFixedFunctionWrite::ScissorRectangle { scissor, vertical, value, .. } => {
                    &&& scissor < 16
                    &&& source.method.0 == 0x0e04 + 0x10 * scissor + (if vertical { 4int } else { 0 })
                    &&& value.min <= value.max
                    &&& value.min + 0x1_0000 * value.max == source.argument
                },
                MaxwellThreeDFixedFunctionWrite::WindowClipRectangle { region, vertical, value, .. } => {
                    &&& region < 8
                    &&& source.method.0 / 8 == 0x1a0 + region
                    &&& vertical <==> source.method.0 == 0x0d04 + 8 * region
                    &&& value.min <= value.max
                    &&& value.min + 0x1_0000 * value.max == source.argument
                },
                _ => false,
            }
        },
{
    reveal(crate::method_answers::viewport_answer);
}


/// The methods of the viewport family reach no other family.
pub proof fn lemma_viewport_alone(
    profile: &MaxwellGpuProfile,
    source: MaxwellMethodSource,
    model: FrontendModel,
)
    requires
        0x0a00 <= source.method.0 < 0x0d40 || 0x0e00 <= source.method.0 < 0x0f00 || source.method.0
            == 0x0ff4 || source.method.0 == 0x0ff8,
    ensures
        crate::method_answers::inline_answer(source, model) == Ok::<
            Option<crate::inline_to_memory::InlineToMemoryMethod>,
            crate::dispatch_error::MaxwellEngineDispatchError,
        >(None),
        crate::method_answers::mme_answer(source, model) == crate::decode::MethodDecode::Ok(None),
        crate::method_answers::load_answer(source, model) matches Ok(None),
        crate::method_answers::stream_answer(profile, source) matches Ok(None),
        crate::method_answers::assembly_answer(profile, source) matches Ok(None),
        crate::method_answers::constant_binding_answer(source, model) matches Ok(None),
        crate::method_answers::shader_binding_answer(profile, source) matches Ok(None),
        crate::method_answers::line_answer(source) matches Ok(None),
        crate::method_answers::raster_answer(profile, source) matches Ok(None),
        crate::method_answers::color_target_answer(profile, source) matches Ok(None),
        crate::method_answers::render_target_answer(profile, source) matches Ok(None),
{
    reveal(crate::method_answers::inline_answer);
    reveal(crate::method_answers::mme_answer);
    reveal(crate::method_answers::load_answer);
    reveal(crate::method_answers::stream_answer);
    reveal(crate::method_answers::assembly_answer);
    reveal(crate::method_answers::constant_binding_answer);
    reveal(crate::method_answers::shader_binding_answer);
    reveal(crate::method_answers::line_answer);
    reveal(crate::method_answers::raster_answer);
    reveal(crate::method_answers::color_target_answer);
    reveal(crate::method_answers::render_target_answer);
}

/// What one transition does to scissor n.
pub open spec fn scissor_transition(
    before: MaxwellThreeDScissorState,
    after: MaxwellThreeDScissorState,
    write: MaxwellThreeDFixedFunctionWrite,
    n: int,
) -> bool {
    match write {
        MaxwellThreeDFixedFunctionWrite::ScissorEnable { scissor, value, source } => if scissor == n {
            after == (MaxwellThreeDScissorState {
                enable: MaxwellThreeDRegister::programmed(source.argument, value, source),
                ..before
            })
        } else {
            after == before
        },
        MaxwellThreeDFixedFunctionWrite::ScissorRectangle { scissor, vertical, value, source } =>
            if scissor == n && vertical {
                after == (MaxwellThreeDScissorState {
                    vertical: MaxwellThreeDRegister::programmed(source.argument, value, source),
                    ..before
                })
            } else if scissor == n {
                after == (MaxwellThreeDScissorState {
                    horizontal: MaxwellThreeDRegister::programmed(source.argument, value, source),
                    ..before
                })
            } else {
                after == before
            },
        _ => after == before,
    }
}

pub proof fn lemma_scissor_transition(
    before: MaxwellThreeDFixedFunctionState,
    write: MaxwellThreeDFixedFunctionWrite,
    n: int,
)
    requires
        0 <= n < 16,
        write matches MaxwellThreeDFixedFunctionWrite::ScissorEnable { scissor, .. } ==> scissor < 16,
        write matches MaxwellThreeDFixedFunctionWrite::ScissorRectangle { scissor, .. } ==> scissor < 16,
    ensures
        scissor_transition(before.scissor[n], before.written(write).scissor[n], write, n),
{
}

/// A method of the viewport family that the family knows is decided by it.
pub proof fn lemma_viewport_plan(
    profile: &MaxwellGpuProfile,
    source: MaxwellMethodSource,
    model: FrontendModel,
)
    requires
        0x0a00 <= source.method.0 < 0x0d40 || 0x0e00 <= source.method.0 < 0x0f00 || source.method.0
            == 0x0ff4 || source.method.0 == 0x0ff8,
        !(crate::method_answers::viewport_answer(source) matches Ok(None)),
    ensures
        crate::method_answers::answered(profile, source, model) matches Ok(plan) ==> (
        plan.write matches Some(write) && crate::method_answers::viewport_answer(source) == Ok::<
            _,
            MaxwellEngineDispatchError,
        >(Some((write, plan.name)))),
        crate::method_answers::answered(profile, source, model) is Err
            <==> crate::method_answers::viewport_answer(source) is Err,
{
    lemma_viewport_alone(profile, source, model);
    reveal(crate::method_answers::vertex_answer);
    reveal(crate::method_answers::output_answer);
}

/// The family knows the three words of each scissor, and takes a word of bounds exactly
/// when the bounds are in order.
pub proof fn lemma_scissor_known(source: MaxwellMethodSource, n: int)
    requires
        0 <= n < 16,
        source.method.0 == 0x0e00 + 0x10 * n || source.method.0 == 0x0e04 + 0x10 * n
            || source.method.0 == 0x0e08 + 0x10 * n,
    ensures
        !(crate::method_answers::viewport_answer(source) matches Ok(None)),
        source.method.0 != 0x0e00 + 0x10 * n ==> (crate::method_answers::viewport_answer(source) is Ok
            <==> source.argument % 0x1_0000 <= source.argument / 0x1_0000),
        source.method.0 == 0x0e00 + 0x10 * n ==> (crate::method_answers::viewport_answer(source) is Ok
            <==> source.argument <= 1),
{
    reveal(crate::method_answers::viewport_answer);
}

/// An accepted word of method 0xe04 + 0x10 * n programs the horizontal axis of scissor n:
/// its lower bound is the low half of the word and its upper bound the high half. Method
/// 0xe08 + 0x10 * n does so for the vertical axis, and method 0xe00 + 0x10 * n enables the
/// scissor. Each leaves the two other registers of the scissor as they were, and every other
/// method leaves all three.
pub proof fn law_scissor_methods(
    profile: &MaxwellGpuProfile,
    step: MethodStep,
    model: FrontendModel,
    n: int,
)
    requires
        0 <= n < 16,
    ensures
        crate::method_answers::taken(profile, step, model) matches Some(prepared) ==> {
            let source = prepared.source;
            let before = model.operation.fixed_function.scissor[n];
            let after = crate::method_answers::state_after(profile, step, model).fixed_function.scissor[n];
            &&& crate::method_answers::follows_bounds(
                before.horizontal,
                after.horizontal,
                source.method.0 == 0x0e04 + 0x10 * n,
                source,
            )
            &&& crate::method_answers::follows_bounds(
                before.vertical,
                after.vertical,
                source.method.0 == 0x0e08 + 0x10 * n,
                source,
            )
            &&& crate::method_answers::follows(
                before.enable,
                after.enable,
                source.method.0 == 0x0e00 + 0x10 * n,
                source,
                source.argument == 1,
            )
        },
        !step.shadow && (step.source.method.0 == 0x0e04 + 0x10 * n || step.source.method.0 == 0x0e08
            + 0x10 * n) ==> (crate::method_answers::taken(profile, step, model) is Some
            <==> step.source.argument % 0x1_0000 <= step.source.argument / 0x1_0000),
{
    crate::method_answers::lemma_taken(profile, step, model);
    if let Some(prepared) = crate::method_answers::taken(profile, step, model) {
        let source = prepared.source;
        let before = model.operation.fixed_function;
        crate::method_answers::lemma_answered(profile, source, model);
        crate::method_kinds::lemma_fixed_function_origin(profile, source, model);
        lemma_viewport_decode(source);
        let plan = crate::method_answers::answered(profile, source, model)->Ok_0;
        if source.method.0 == 0x0e00 + 0x10 * n || source.method.0 == 0x0e04 + 0x10 * n
            || source.method.0 == 0x0e08 + 0x10 * n {
            lemma_scissor_known(source, n);
            lemma_viewport_plan(profile, source, model);
        }
        if let Some(MaxwellThreeDStateWrite::FixedFunction(write)) = plan.write {
            lemma_scissor_transition(before, write, n);
        }
    }
    if !step.shadow && (step.source.method.0 == 0x0e04 + 0x10 * n || step.source.method.0 == 0x0e08
        + 0x10 * n) {
        lemma_scissor_known(step.source, n);
        lemma_viewport_plan(profile, step.source, model);
        crate::method_answers::lemma_answered(profile, step.source, model);
        crate::method_answers::lemma_planned_is_taken(profile, step, model);
    }
}

} // verus!
