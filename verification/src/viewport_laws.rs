//! Laws of the viewports: from method words to the transform that a draw carries.

use vstd::prelude::*;
use crate::method_answers::MethodStep;
use crate::draw_lowering::{GeometryModel, RequestModel};
use crate::draw_plan::DescriptorEntry;
use crate::neutral::DrawArguments;
use crate::neutral_refusals::{NeutralConstruction, NeutralRefusals};
use crate::output::{
    MaxwellThreeDFixedFunctionRegister, MaxwellThreeDFixedFunctionState,
    MaxwellThreeDFixedFunctionValue, MaxwellThreeDFixedFunctionWrite,
    MaxwellThreeDViewportScaleOffsetEnable, MaxwellThreeDViewportTransformState,
};
use crate::profile::MaxwellGpuProfile;
use crate::register::{MaxwellMethodSource, MaxwellThreeDRawValue, MaxwellThreeDRegister};
use crate::state::{FrontendModel, MaxwellThreeDStateWrite};

verus! {

/// What one transition does to viewport n.
pub open spec fn viewport_transition(
    before: MaxwellThreeDViewportTransformState,
    after: MaxwellThreeDViewportTransformState,
    write: MaxwellThreeDFixedFunctionWrite,
    n: int,
) -> bool {
    match write {
        MaxwellThreeDFixedFunctionWrite::ViewportFloat { viewport, field, value, source } =>
            if viewport == n && field < 3 {
                after == (MaxwellThreeDViewportTransformState {
                    scale: vstd::array::spec_array_update(
                        before.scale,
                        field as int,
                        MaxwellThreeDRegister::programmed(source.argument, value, source),
                    ),
                    ..before
                })
            } else if viewport == n {
                after == (MaxwellThreeDViewportTransformState {
                    offset: vstd::array::spec_array_update(
                        before.offset,
                        field - 3,
                        MaxwellThreeDRegister::programmed(source.argument, value, source),
                    ),
                    ..before
                })
            } else {
                after == before
            },
        MaxwellThreeDFixedFunctionWrite::ViewportRectangle { viewport, vertical, value, source } =>
            if viewport == n && vertical {
                after == (MaxwellThreeDViewportTransformState {
                    clip_vertical: MaxwellThreeDRegister::programmed(source.argument, value, source),
                    ..before
                })
            } else if viewport == n {
                after == (MaxwellThreeDViewportTransformState {
                    clip_horizontal: MaxwellThreeDRegister::programmed(source.argument, value, source),
                    ..before
                })
            } else {
                after == before
            },
        MaxwellThreeDFixedFunctionWrite::ViewportDepth { viewport, maximum, value, source } =>
            if viewport == n && maximum {
                after == (MaxwellThreeDViewportTransformState {
                    clip_max_z: MaxwellThreeDRegister::programmed(source.argument, value, source),
                    ..before
                })
            } else if viewport == n {
                after == (MaxwellThreeDViewportTransformState {
                    clip_min_z: MaxwellThreeDRegister::programmed(source.argument, value, source),
                    ..before
                })
            } else {
                after == before
            },
        MaxwellThreeDFixedFunctionWrite::ViewportCoordinateSwizzle { viewport, value, source } =>
            if viewport == n {
                after == (MaxwellThreeDViewportTransformState {
                    coordinate_swizzle: MaxwellThreeDRegister::programmed(
                        source.argument,
                        value,
                        source,
                    ),
                    ..before
                })
            } else {
                after == before
            },
        _ => after == before,
    }
}

proof fn lemma_viewport_transition(
    before: MaxwellThreeDFixedFunctionState,
    write: MaxwellThreeDFixedFunctionWrite,
    n: int,
)
    requires
        0 <= n < 16,
        write matches MaxwellThreeDFixedFunctionWrite::ViewportFloat { viewport, .. } ==> viewport < 16,
        write matches MaxwellThreeDFixedFunctionWrite::ViewportRectangle { viewport, .. } ==> viewport < 16,
        write matches MaxwellThreeDFixedFunctionWrite::ViewportDepth { viewport, .. } ==> viewport < 16,
        write matches MaxwellThreeDFixedFunctionWrite::ViewportCoordinateSwizzle { viewport, .. }
            ==> viewport < 16,
    ensures
        viewport_transition(before.viewport[n], before.written(write).viewport[n], write, n),
{
}

/// The i-th word of viewport n, counting scales and offsets together.
pub open spec fn is_float_word(method: u32, n: int, i: int) -> bool {
    0x0a00 + 0x20 * n + 4 * i <= method < 0x0a04 + 0x20 * n + 4 * i
}

/// What one transition does to the i-th scale and offset.
proof fn lemma_float_transition(
    before: MaxwellThreeDViewportTransformState,
    after: MaxwellThreeDViewportTransformState,
    write: MaxwellThreeDFixedFunctionWrite,
    n: int,
    i: int,
)
    requires
        0 <= i < 3,
        viewport_transition(before, after, write, n),
        write matches MaxwellThreeDFixedFunctionWrite::ViewportFloat { field, .. } ==> field < 6,
    ensures
        after.scale[i] == (match write {
            MaxwellThreeDFixedFunctionWrite::ViewportFloat { viewport, field, value, source } =>
                if viewport == n && field == i {
                    MaxwellThreeDRegister::programmed(source.argument, value, source)
                } else {
                    before.scale[i]
                },
            _ => before.scale[i],
        }),
        after.offset[i] == (match write {
            MaxwellThreeDFixedFunctionWrite::ViewportFloat { viewport, field, value, source } =>
                if viewport == n && field == i + 3 {
                    MaxwellThreeDRegister::programmed(source.argument, value, source)
                } else {
                    before.offset[i]
                },
            _ => before.offset[i],
        }),
{
}

proof fn lemma_float_word(method: u32, viewport: int, field: int, n: int, i: int)
    requires
        0 <= field < 8,
        0 <= i < 8,
        method / 4 == 0x280 + 8 * viewport + field,
    ensures
        is_float_word(method, n, i) <==> viewport == n && field == i,
{
}

/// The family knows the six floats of each viewport.
proof fn lemma_float_known(source: MaxwellMethodSource, n: int, i: int)
    requires
        0 <= n < 16,
        0 <= i < 6,
        is_float_word(source.method.0, n, i),
    ensures
        crate::method_answers::viewport_answer(source) matches Ok(Some(_)),
{
    let method = source.method.0;
    assert(((method - 0x0a00) % 0x20) / 4 <= 5) by {
        assert(method - 0x0a00 == 0x20 * n + (method - 0x0a00 - 0x20 * n));
    }
    reveal(crate::method_answers::viewport_answer);
}

/// An accepted word of method 0xa00 + 0x20 * n + 4 * i is scale i of viewport n, and of
/// method 0xa0c + 0x20 * n + 4 * i its offset i. Every other method leaves them as they
/// were.
pub proof fn law_viewport_floats(
    profile: &MaxwellGpuProfile,
    step: MethodStep,
    model: FrontendModel,
    n: int,
    i: int,
)
    requires
        0 <= n < 16,
        0 <= i < 3,
    ensures
        crate::method_answers::taken(profile, step, model) matches Some(prepared) ==> {
            let source = prepared.source;
            let before = model.operation.fixed_function.viewport[n];
            let after = crate::method_answers::state_after(profile, step, model).fixed_function.viewport[n];
            &&& crate::method_answers::follows(
                before.scale[i],
                after.scale[i],
                is_float_word(source.method.0, n, i),
                source,
                MaxwellThreeDRawValue(source.argument),
            )
            &&& crate::method_answers::follows(
                before.offset[i],
                after.offset[i],
                is_float_word(source.method.0, n, i + 3),
                source,
                MaxwellThreeDRawValue(source.argument),
            )
        },
{
    crate::method_answers::lemma_taken(profile, step, model);
    if let Some(prepared) = crate::method_answers::taken(profile, step, model) {
        let source = prepared.source;
        let before = model.operation.fixed_function;
        crate::method_answers::lemma_answered(profile, source, model);
        crate::method_kinds::lemma_fixed_function_origin(profile, source, model);
        crate::method_laws::lemma_viewport_decode(source);
        let plan = crate::method_answers::answered(profile, source, model)->Ok_0;
        if is_float_word(source.method.0, n, i) {
            lemma_float_known(source, n, i);
            crate::method_laws::lemma_viewport_plan(profile, source, model);
        }
        if is_float_word(source.method.0, n, i + 3) {
            lemma_float_known(source, n, i + 3);
            crate::method_laws::lemma_viewport_plan(profile, source, model);
        }
        if let Some(MaxwellThreeDStateWrite::FixedFunction(write)) = plan.write {
            lemma_viewport_transition(before, write, n);
            lemma_float_transition(
                before.viewport[n],
                before.written(write).viewport[n],
                write,
                n,
                i,
            );
            if let MaxwellThreeDFixedFunctionWrite::ViewportFloat { viewport, field, .. } = write {
                lemma_float_word(source.method.0, viewport as int, field as int, n, i);
                lemma_float_word(source.method.0, viewport as int, field as int, n, i + 3);
            } else {
                if is_float_word(source.method.0, n, i) || is_float_word(source.method.0, n, i + 3) {
                    lemma_float_is_only(source, write, n);
                }
            }
        }
    }
}

/// A word of a viewport's scales and offsets is decoded to nothing else.
proof fn lemma_float_is_only(source: MaxwellMethodSource, write: MaxwellThreeDFixedFunctionWrite, n: int)
    requires
        0 <= n < 16,
        0x0a00 + 0x20 * n <= source.method.0 < 0x0a18 + 0x20 * n,
        crate::method_answers::viewport_answer(source) matches Ok(Some((decoded, _)))
            && decoded == MaxwellThreeDStateWrite::FixedFunction(write),
    ensures
        write is ViewportFloat,
{
    crate::method_laws::lemma_viewport_decode(source);
}

/// Accepted words of methods 0xc00, 0xc04, 0xc08 and 0xc0c, each plus 0x10 * n, hold the
/// horizontal and vertical clip bounds and the minimum and maximum depth of viewport n.
/// Every other method leaves them as they were.
pub proof fn law_viewport_clips(
    profile: &MaxwellGpuProfile,
    step: MethodStep,
    model: FrontendModel,
    n: int,
)
    requires
        0 <= n < 16,
    ensures
        crate::method_answers::taken(profile, step, model) matches Some(prepared) ==> {
            let source = prepared.source;
            let before = model.operation.fixed_function.viewport[n];
            let after = crate::method_answers::state_after(profile, step, model).fixed_function.viewport[n];
            &&& crate::method_answers::follows_bounds(
                before.clip_horizontal,
                after.clip_horizontal,
                source.method.0 == 0x0c00 + 0x10 * n,
                source,
            )
            &&& crate::method_answers::follows_bounds(
                before.clip_vertical,
                after.clip_vertical,
                source.method.0 == 0x0c04 + 0x10 * n,
                source,
            )
            &&& crate::method_answers::follows(
                before.clip_min_z,
                after.clip_min_z,
                source.method.0 == 0x0c08 + 0x10 * n,
                source,
                MaxwellThreeDRawValue(source.argument),
            )
            &&& crate::method_answers::follows(
                before.clip_max_z,
                after.clip_max_z,
                source.method.0 == 0x0c0c + 0x10 * n,
                source,
                MaxwellThreeDRawValue(source.argument),
            )
        },
{
    crate::method_answers::lemma_taken(profile, step, model);
    if let Some(prepared) = crate::method_answers::taken(profile, step, model) {
        let source = prepared.source;
        let before = model.operation.fixed_function;
        crate::method_answers::lemma_answered(profile, source, model);
        crate::method_kinds::lemma_fixed_function_origin(profile, source, model);
        crate::method_laws::lemma_viewport_decode(source);
        let plan = crate::method_answers::answered(profile, source, model)->Ok_0;
        if source.method.0 == 0x0c00 + 0x10 * n || source.method.0 == 0x0c04 + 0x10 * n
            || source.method.0 == 0x0c08 + 0x10 * n || source.method.0 == 0x0c0c + 0x10 * n {
            lemma_clip_known(source, n);
            crate::method_laws::lemma_viewport_plan(profile, source, model);
        }
        if let Some(MaxwellThreeDStateWrite::FixedFunction(write)) = plan.write {
            lemma_viewport_transition(before, write, n);
        }
    }
}

/// The family knows the four clip words of each viewport.
proof fn lemma_clip_known(source: MaxwellMethodSource, n: int)
    requires
        0 <= n < 16,
        source.method.0 == 0x0c00 + 0x10 * n || source.method.0 == 0x0c04 + 0x10 * n
            || source.method.0 == 0x0c08 + 0x10 * n || source.method.0 == 0x0c0c + 0x10 * n,
    ensures
        !(crate::method_answers::viewport_answer(source) matches Ok(None)),
{
    reveal(crate::method_answers::viewport_answer);
}

/// Front end after a run of methods. A refused method changes nothing.
pub open spec fn run(
    profile: &MaxwellGpuProfile,
    steps: Seq<MethodStep>,
    model: FrontendModel,
) -> FrontendModel
    decreases steps.len(),
{
    if steps.len() == 0 {
        model
    } else {
        let before = run(profile, steps.drop_last(), model);
        crate::frontend::dispatched(
            profile,
            steps.last().source,
            before,
            steps.last().shadow,
        ).0
    }
}

/// Last word that a run brought to the methods `first..first + 4` and that was accepted.
pub open spec fn last_word(
    profile: &MaxwellGpuProfile,
    steps: Seq<MethodStep>,
    model: FrontendModel,
    first: u32,
) -> Option<u32>
    decreases steps.len(),
{
    if steps.len() == 0 {
        None
    } else {
        let before = run(profile, steps.drop_last(), model);
        match crate::method_answers::taken(profile, steps.last(), before) {
            Some(prepared) if first <= prepared.source.method.0 < first + 4 => Some(
                prepared.source.argument,
            ),
            _ => last_word(profile, steps.drop_last(), model, first),
        }
    }
}

/// Last word that a run brought to one method and that was accepted.
pub open spec fn last_word_at(
    profile: &MaxwellGpuProfile,
    steps: Seq<MethodStep>,
    model: FrontendModel,
    method: u32,
) -> Option<u32>
    decreases steps.len(),
{
    if steps.len() == 0 {
        None
    } else {
        let before = run(profile, steps.drop_last(), model);
        match crate::method_answers::taken(profile, steps.last(), before) {
            Some(prepared) if prepared.source.method.0 == method => Some(prepared.source.argument),
            _ => last_word_at(profile, steps.drop_last(), model, method),
        }
    }
}

/// A register holds the last word that reached it.
pub open spec fn holds(register: MaxwellThreeDRegister<MaxwellThreeDRawValue>, word: Option<u32>) -> bool {
    word matches Some(word) ==> register.value == Some(MaxwellThreeDRawValue(word))
}

/// After any run, each scale, offset and depth bound of each viewport holds the last word
/// that was accepted for it.
pub proof fn law_viewport_holds_last_words(
    profile: &MaxwellGpuProfile,
    steps: Seq<MethodStep>,
    model: FrontendModel,
    n: int,
    i: int,
)
    requires
        0 <= n < 16,
        0 <= i < 3,
    ensures
        ({
            let viewport = run(profile, steps, model).operation.fixed_function.viewport[n];
            &&& holds(
                viewport.scale[i],
                last_word(profile, steps, model, (0x0a00 + 0x20 * n + 4 * i) as u32),
            )
            &&& holds(
                viewport.offset[i],
                last_word(profile, steps, model, (0x0a0c + 0x20 * n + 4 * i) as u32),
            )
            &&& holds(
                viewport.clip_min_z,
                last_word_at(profile, steps, model, (0x0c08 + 0x10 * n) as u32),
            )
            &&& holds(
                viewport.clip_max_z,
                last_word_at(profile, steps, model, (0x0c0c + 0x10 * n) as u32),
            )
        }),
    decreases steps.len(),
{
    if steps.len() > 0 {
        let before = run(profile, steps.drop_last(), model);
        law_viewport_holds_last_words(profile, steps.drop_last(), model, n, i);
        law_viewport_floats(profile, steps.last(), before, n, i);
        law_viewport_clips(profile, steps.last(), before, n);
        crate::method_answers::lemma_taken(profile, steps.last(), before);
    }
}

/// After any run that brought a word to method 0x192c, scaling is enabled exactly when the
/// last such word was one.
pub proof fn law_scaling_follows_last_word(
    profile: &MaxwellGpuProfile,
    steps: Seq<MethodStep>,
    model: FrontendModel,
)
    ensures
        last_word_at(profile, steps, model, 0x192c) matches Some(word) ==> {
            &&& word <= 1
            &&& scaled(run(profile, steps, model).operation.fixed_function) <==> word == 1
        },
    decreases steps.len(),
{
    if steps.len() > 0 {
        let before = run(profile, steps.drop_last(), model);
        law_scaling_follows_last_word(profile, steps.drop_last(), model);
        crate::register_laws::law_register_methods(
            profile,
            steps.last(),
            before,
            MaxwellThreeDFixedFunctionRegister::ViewportScaleOffsetEnable,
        );
        crate::method_answers::lemma_taken(profile, steps.last(), before);
    }
}

/// Whether draws go through the viewport transform.
pub open spec fn scaled(state: MaxwellThreeDFixedFunctionState) -> bool {
    state.value_of(MaxwellThreeDFixedFunctionRegister::ViewportScaleOffsetEnable) == Some(
        MaxwellThreeDFixedFunctionValue::ViewportScaleOffsetEnable(
            MaxwellThreeDViewportScaleOffsetEnable::Enabled,
        ),
    )
}

/// After any run that enabled scaling and brought a word to each of the eight methods of
/// viewport 0, a draw is transformed by exactly these words: methods 0xa00, 0xa04 and 0xa08
/// scale x, y and z, methods 0xa0c, 0xa10 and 0xa14 offset them, and methods 0xc08 and 0xc0c
/// bound the depth. The transform is owed unless its construction is refused, and a run that
/// disabled scaling leaves draws without one.
pub proof fn law_transform_carries_last_words(
    profile: &MaxwellGpuProfile,
    steps: Seq<MethodStep>,
    model: FrontendModel,
    refusals: &NeutralRefusals,
)
    ensures
        ({
            let state = run(profile, steps, model).operation;
            let result = crate::draw_state::spec_draw_viewport_transform(&state, refusals);
            &&& last_word_at(profile, steps, model, 0x192c) == Some(0u32) ==> (result matches Ok(None))
            &&& last_word_at(profile, steps, model, 0x192c) == Some(1u32) ==> {
                &&& result matches Ok(transform) ==> {
                    &&& transform matches Some(transform)
                    &&& last_word(profile, steps, model, 0x0a00) matches Some(word) ==> transform.scale_x
                        == word
                    &&& last_word(profile, steps, model, 0x0a04) matches Some(word) ==> transform.scale_y
                        == word
                    &&& last_word(profile, steps, model, 0x0a08) matches Some(word) ==> transform.scale_z
                        == word
                    &&& last_word(profile, steps, model, 0x0a0c) matches Some(word) ==> transform.offset_x
                        == word
                    &&& last_word(profile, steps, model, 0x0a10) matches Some(word) ==> transform.offset_y
                        == word
                    &&& last_word(profile, steps, model, 0x0a14) matches Some(word) ==> transform.offset_z
                        == word
                    &&& last_word_at(profile, steps, model, 0x0c08) matches Some(word)
                        ==> transform.clip_min_z == word
                    &&& last_word_at(profile, steps, model, 0x0c0c) matches Some(word)
                        ==> transform.clip_max_z == word
                }
                &&& last_word(profile, steps, model, 0x0a00) is Some && last_word(
                    profile,
                    steps,
                    model,
                    0x0a04,
                ) is Some && last_word(profile, steps, model, 0x0a08) is Some && last_word(
                    profile,
                    steps,
                    model,
                    0x0a0c,
                ) is Some && last_word(profile, steps, model, 0x0a10) is Some && last_word(
                    profile,
                    steps,
                    model,
                    0x0a14,
                ) is Some && last_word_at(profile, steps, model, 0x0c08) is Some && last_word_at(
                    profile,
                    steps,
                    model,
                    0x0c0c,
                ) is Some && refusals.reason(NeutralConstruction::ViewportTransform) is None
                    ==> result is Ok
            }
        }),
{
    law_scaling_follows_last_word(profile, steps, model);
    law_viewport_holds_last_words(profile, steps, model, 0, 0);
    law_viewport_holds_last_words(profile, steps, model, 0, 1);
    law_viewport_holds_last_words(profile, steps, model, 0, 2);
}

/// The plan of every accepted draw on the state of a run carries the transform of that run.
pub proof fn law_draw_carries_transform(
    profile: &MaxwellGpuProfile,
    steps: Seq<MethodStep>,
    model: FrontendModel,
    request: RequestModel,
    arguments: DrawArguments,
    geometry: GeometryModel,
    render_pass: u64,
    entries: Seq<DescriptorEntry>,
    descriptor_table: Option<u64>,
    pipeline: u64,
)
    requires
        request.state == run(profile, steps, model).operation,
        last_word_at(profile, steps, model, 0x192c) == Some(1u32),
    ensures
        request.planned(
            arguments,
            geometry,
            render_pass,
            entries,
            descriptor_table,
            pipeline,
        ) matches Ok(plan) ==> {
            &&& plan.viewport_transform matches Some(transform)
            &&& last_word(profile, steps, model, 0x0a00) matches Some(word) ==> transform.scale_x == word
            &&& last_word(profile, steps, model, 0x0a04) matches Some(word) ==> transform.scale_y == word
            &&& last_word(profile, steps, model, 0x0a08) matches Some(word) ==> transform.scale_z == word
            &&& last_word(profile, steps, model, 0x0a0c) matches Some(word) ==> transform.offset_x
                == word
            &&& last_word(profile, steps, model, 0x0a10) matches Some(word) ==> transform.offset_y
                == word
            &&& last_word(profile, steps, model, 0x0a14) matches Some(word) ==> transform.offset_z
                == word
            &&& last_word_at(profile, steps, model, 0x0c08) matches Some(word) ==> transform.clip_min_z
                == word
            &&& last_word_at(profile, steps, model, 0x0c0c) matches Some(word) ==> transform.clip_max_z
                == word
        },
{
    law_transform_carries_last_words(profile, steps, model, &request.refusals);
}

} // verus!
