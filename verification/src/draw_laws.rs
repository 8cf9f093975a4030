//! Laws of the draw state: from method words to the tests and arguments of a draw.

use vstd::prelude::*;
use crate::method_answers::MethodStep;
use crate::neutral::{AlphaCompareOperation, DepthCompareOperation, DepthState, PrimitiveTopology};
use crate::output::MaxwellThreeDFixedFunctionRegister;
use crate::profile::MaxwellGpuProfile;
use crate::state::{FrontendModel, MaxwellThreeDState};
use crate::vertex::MaxwellThreeDBegin;

verus! {

/// After any run, every fixed-function register holds what the last word of its method
/// means.
pub proof fn law_registers_hold_last_words(
    profile: &MaxwellGpuProfile,
    steps: Seq<MethodStep>,
    model: FrontendModel,
    register: MaxwellThreeDFixedFunctionRegister,
    method: u32,
)
    requires
        crate::register_laws::home(register) == Some(method),
    ensures
        crate::viewport_laws::last_word_at(profile, steps, model, method) matches Some(word) ==> {
            &&& crate::viewport_laws::run(profile, steps, model).operation.fixed_function.spec_value_of(
                register,
            ) matches Some(value)
            &&& crate::register_laws::shaped(register, value)
            &&& crate::register_laws::means(value, word)
        },
    decreases steps.len(),
{
    if steps.len() > 0 {
        let before = crate::viewport_laws::run(profile, steps.drop_last(), model);
        law_registers_hold_last_words(profile, steps.drop_last(), model, register, method);
        crate::register_laws::law_register_methods(profile, steps.last(), before, register);
        crate::method_answers::lemma_taken(profile, steps.last(), before);
    }
}

/// Outcome of such a comparison, by whether the sample is smaller than or equal to what it
/// is compared with.
pub open spec fn depth_passes(op: DepthCompareOperation, smaller: bool, equal: bool) -> bool {
    match op {
        DepthCompareOperation::Never => false,
        DepthCompareOperation::Less => smaller,
        DepthCompareOperation::Equal => equal,
        DepthCompareOperation::LessEqual => smaller || equal,
        DepthCompareOperation::Greater => !smaller && !equal,
        DepthCompareOperation::NotEqual => !equal,
        DepthCompareOperation::GreaterEqual => !smaller,
        DepthCompareOperation::Always => true,
    }
}

/// Outcome of such a comparison, by whether the sample is smaller than or equal to what it
/// is compared with.
pub open spec fn alpha_passes(op: AlphaCompareOperation, smaller: bool, equal: bool) -> bool {
    match op {
        AlphaCompareOperation::Never => false,
        AlphaCompareOperation::Less => smaller,
        AlphaCompareOperation::Equal => equal,
        AlphaCompareOperation::LessEqual => smaller || equal,
        AlphaCompareOperation::Greater => !smaller && !equal,
        AlphaCompareOperation::NotEqual => !equal,
        AlphaCompareOperation::GreaterEqual => !smaller,
        AlphaCompareOperation::Always => true,
    }
}

/// Bits 0, 1 and 2 of a comparison word, counted from one or from 0x200, tell whether a
/// smaller, an equal and a greater sample passes.
pub open spec fn lets_pass(word: u32, smaller: bool, equal: bool) -> bool {
    let count = if word >= 0x200 { word - 0x200 } else { word - 1 };
    if smaller {
        count % 2 == 1
    } else if equal {
        (count / 2) % 2 == 1
    } else {
        count / 4 == 1
    }
}

/// After any run, the depth test of a draw is what the last words of methods 0x12cc (test),
/// 0x12e8 (write) and 0x130c (comparison) say: without the test nothing is compared or
/// written, and with it a sample passes exactly as the comparison word says.
pub proof fn law_depth_test(
    profile: &MaxwellGpuProfile,
    steps: Seq<MethodStep>,
    model: FrontendModel,
    smaller: bool,
    equal: bool,
)
    requires
        !(smaller && equal),
    ensures
        ({
            let state = crate::viewport_laws::run(profile, steps, model).operation;
            let result = crate::draw_state::spec_draw_depth_state(&state);
            let test = crate::viewport_laws::last_word_at(profile, steps, model, 0x12cc);
            let write = crate::viewport_laws::last_word_at(profile, steps, model, 0x12e8);
            let compare = crate::viewport_laws::last_word_at(profile, steps, model, 0x130c);
            &&& test == Some(0u32) ==> (result matches Ok(depth) && depth is Disabled)
            &&& test == Some(1u32) && write is Some && compare is Some ==> (result matches Ok(
                DepthState::Enabled { write_enabled, compare: op },
            ) && (write_enabled <==> write == Some(1u32)) && (depth_passes(op, smaller, equal)
                <==> lets_pass(compare->Some_0, smaller, equal)))
        }),
{
    law_registers_hold_last_words(profile, steps, model, MaxwellThreeDFixedFunctionRegister::DepthTestEnable, 0x12cc);
    law_registers_hold_last_words(profile, steps, model, MaxwellThreeDFixedFunctionRegister::DepthWriteEnable, 0x12e8);
    law_registers_hold_last_words(profile, steps, model, MaxwellThreeDFixedFunctionRegister::DepthCompare, 0x130c);
}

/// After any run, the alpha test of a draw is what the last words of methods 0x12ec (test),
/// 0x1310 (reference) and 0x1314 (comparison) say.
pub proof fn law_alpha_test(
    profile: &MaxwellGpuProfile,
    steps: Seq<MethodStep>,
    model: FrontendModel,
    smaller: bool,
    equal: bool,
)
    requires
        !(smaller && equal),
    ensures
        ({
            let state = crate::viewport_laws::run(profile, steps, model).operation;
            let result = crate::draw_state::spec_draw_alpha_test_state(&state);
            let test = crate::viewport_laws::last_word_at(profile, steps, model, 0x12ec);
            let reference = crate::viewport_laws::last_word_at(profile, steps, model, 0x1310);
            let compare = crate::viewport_laws::last_word_at(profile, steps, model, 0x1314);
            &&& test == Some(0u32) ==> (result matches Ok(None))
            &&& test == Some(1u32) && reference is Some && compare is Some ==> (result matches Ok(
                Some(alpha),
            ) && reference == Some(alpha.reference_bits) && (alpha_passes(
                alpha.comparison,
                smaller,
                equal,
            ) <==> lets_pass(compare->Some_0, smaller, equal)))
        }),
{
    law_registers_hold_last_words(profile, steps, model, MaxwellThreeDFixedFunctionRegister::AlphaTestEnable, 0x12ec);
    law_registers_hold_last_words(profile, steps, model, MaxwellThreeDFixedFunctionRegister::AlphaTestReference, 0x1310);
    law_registers_hold_last_words(profile, steps, model, MaxwellThreeDFixedFunctionRegister::AlphaTestFunction, 0x1314);
}

/// After any run that enabled the stencil test, by a last word of one at method 0x1380, a
/// draw is refused; after one that disabled it, the stencil test refuses nothing. Which
/// aspects a draw looks at follows the last words of methods 0x12cc and 0x1380.
pub proof fn law_stencil_test(
    profile: &MaxwellGpuProfile,
    steps: Seq<MethodStep>,
    model: FrontendModel,
)
    ensures
        ({
            let state = crate::viewport_laws::run(profile, steps, model).operation;
            let depth = crate::viewport_laws::last_word_at(profile, steps, model, 0x12cc);
            let stencil = crate::viewport_laws::last_word_at(profile, steps, model, 0x1380);
            &&& stencil == Some(1u32) ==> crate::draw_state::spec_validate_draw_stencil_state(&state) is Err
            &&& stencil == Some(0u32) ==> crate::draw_state::spec_validate_draw_stencil_state(&state) is Ok
            &&& depth is Some ==> (crate::draw_state::spec_draw_depth_stencil_aspects(&state).0
                <==> depth == Some(1u32))
            &&& stencil is Some ==> (crate::draw_state::spec_draw_depth_stencil_aspects(&state).1
                <==> stencil == Some(1u32))
            &&& depth is Some && stencil is Some
                ==> (crate::draw_state::spec_draw_depth_stencil_attachment_required(&state)
                <==> depth == Some(1u32) || stencil == Some(1u32))
            &&& depth is Some && stencil is Some
                ==> (crate::draw_state::spec_draw_depth_stencil_resource_required(&state)
                <==> depth == Some(1u32) || stencil == Some(1u32))
        }),
{
    law_registers_hold_last_words(profile, steps, model, MaxwellThreeDFixedFunctionRegister::DepthTestEnable, 0x12cc);
    law_registers_hold_last_words(profile, steps, model, MaxwellThreeDFixedFunctionRegister::StencilTestEnable, 0x1380);
}

/// An accepted draw takes the vertices from the programmed start on, as many as the draw
/// counts, of the one instance at the sum of the base and the running index. It is refused
/// exactly when it counts no vertex, has no start, or the sum leaves the word.
pub proof fn law_draw_arguments(state: &MaxwellThreeDState, vertex_count: u32)
    ensures
        ({
            let start = state.vertex_input.vertex_array_start.value;
            let base = match state.vertex_input.global_base_instance_index.value {
                Some(base) => base as int,
                None => 0,
            };
            let instance = base + state.vertex_input.instance_index;
            let result = crate::draw_state::spec_draw_arguments(state, vertex_count);
            &&& result is Ok <==> vertex_count > 0 && start is Some && instance < 0x1_0000_0000
            &&& result matches Ok(arguments) ==> {
                &&& start == Some(arguments.first_vertex)
                &&& arguments.vertex_count == vertex_count
                &&& arguments.first_instance == instance
                &&& arguments.instance_count == 1
            }
        }),
{
}

/// The low byte of a begin word names the topology. A word that continues primitive
/// numbering, bit 24, is refused, and no other topology than the seven is drawn.
pub proof fn law_topology(begin: MaxwellThreeDBegin)
    ensures
        ({
            let result = crate::draw_state::spec_primitive_topology(begin);
            let named = begin.0 % 0x100;
            &&& begin.0 & 0x0100_0000 != 0 ==> result is Err
            &&& result matches Ok(topology) ==> named == (match topology {
                PrimitiveTopology::Points => 0int,
                PrimitiveTopology::Lines => 1,
                PrimitiveTopology::LineStrip => 3,
                PrimitiveTopology::Triangles => 4,
                PrimitiveTopology::TriangleStrip => 5,
                PrimitiveTopology::TriangleFan => 6,
                PrimitiveTopology::Patches => 14,
            })
            &&& begin.0 < 0x100 && (named == 0 || named == 1 || 3 <= named <= 6 || named == 14)
                ==> result is Ok
        }),
{
    let word = begin.0;
    assert((word & 0xff) as u8 == word % 0x100 && (word < 0x100 ==> word & 0x0100_0000 == 0 && word & 0x6000_0000
        == 0 && (word >> 29) & 3 == 0)) by (bit_vector);
}

} // verus!
