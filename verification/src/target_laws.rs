//! Laws of the color targets, the depth target and the clear registers, stated on method
//! words.

use vstd::prelude::*;
use crate::method_answers::MethodStep;
use crate::profile::MaxwellGpuProfile;
use crate::register::{MaxwellMethodSource, MaxwellThreeDRegister};
use crate::render_targets::{
    MaxwellThreeDImageLayout, MaxwellThreeDRenderTargetState, MaxwellThreeDRenderTargetWrite,
};
use crate::state::{FrontendModel, MaxwellThreeDStateWrite};

verus! {

/// Methods of the color targets, the depth target and the clears.
pub open spec fn is_target_method(method: u32) -> bool {
    ||| 0x0800 <= method < 0x0a00 && method % 4 == 0 && method % 0x40 <= 0x20
    ||| 0x19e0 <= method < 0x1a00 && method % 4 == 0
    ||| 0x0d80 <= method < 0x0d90 && method % 4 == 0
    ||| method == 0x0d6c
    ||| method == 0x0d70
    ||| method == 0x0d90
    ||| method == 0x0da0
    ||| method == 0x10f8
    ||| method == 0x19d0
    ||| method == 0x121c
    ||| method == 0x1220
    ||| method == 0x15cc
    ||| method == 0x0fac
    ||| method == 0x11f0
    ||| method == 0x0fe0
    ||| method == 0x0fe4
    ||| method == 0x0fe8
    ||| method == 0x0fec
    ||| method == 0x0ff0
    ||| method == 0x179c
    ||| method == 0x1228
    ||| method == 0x122c
    ||| method == 0x1230
    ||| method == 0x1538
    ||| method == 0x19cc
}

/// What a transition of the targets says of the method and the word behind it.
pub open spec fn target_word(write: MaxwellThreeDRenderTargetWrite, packet: MaxwellMethodSource) -> bool {
    let method = packet.method.0;
    let word = packet.argument;
    match write {
        MaxwellThreeDRenderTargetWrite::ColorAddressUpper { target, value, source } => {
            &&& target < 8
            &&& source == packet
            &&& method == 0x0800 + 0x40 * target
            &&& value as int == word
        },
        MaxwellThreeDRenderTargetWrite::ColorAddressLower { target, value, source } => {
            &&& target < 8
            &&& source == packet
            &&& method == 0x0804 + 0x40 * target
            &&& value as int == word
        },
        MaxwellThreeDRenderTargetWrite::ColorWidth { target, value, source } => {
            &&& target < 8
            &&& source == packet
            &&& method == 0x0808 + 0x40 * target
            &&& value as int == word
        },
        MaxwellThreeDRenderTargetWrite::ColorHeight { target, value, source } => {
            &&& target < 8
            &&& source == packet
            &&& method == 0x080c + 0x40 * target
            &&& value as int == word
        },
        MaxwellThreeDRenderTargetWrite::ColorFormat { target, value, source } => {
            &&& target < 8
            &&& source == packet
            &&& method == 0x0810 + 0x40 * target
            &&& value.0 == word
        },
        MaxwellThreeDRenderTargetWrite::ColorLayout { target, value, source } => {
            &&& target < 8
            &&& source == packet
            &&& method == 0x0814 + 0x40 * target
            &&& (value.layout matches MaxwellThreeDImageLayout::BlockLinear { block_height_log2, block_depth_log2 } ==> word & 0x1000 == 0 && block_height_log2 == (word >> 4) & 0xf && block_depth_log2 == (word >> 8) & 0xf) && (value.layout is PitchLinear ==> word & 0x1000 != 0) && (value.kind is ThreeDimensional <==> word & 0x1_0000 != 0)
        },
        MaxwellThreeDRenderTargetWrite::ColorThirdDimension { target, value, source } => {
            &&& target < 8
            &&& source == packet
            &&& method == 0x0818 + 0x40 * target
            &&& value as int == word
        },
        MaxwellThreeDRenderTargetWrite::ColorArrayPitch { target, value, source } => {
            &&& target < 8
            &&& source == packet
            &&& method == 0x081c + 0x40 * target
            &&& value as int == word
        },
        MaxwellThreeDRenderTargetWrite::ColorLayer { target, value, source } => {
            &&& target < 8
            &&& source == packet
            &&& method == 0x0820 + 0x40 * target
            &&& value as int == word
        },
        MaxwellThreeDRenderTargetWrite::ColorCompression { target, value, source } => {
            &&& target < 8
            &&& source == packet
            &&& method == 0x19e0 + 4 * target
            &&& word <= 1 && (value is Enabled <==> word == 1)
        },
        MaxwellThreeDRenderTargetWrite::ClearHorizontal { value, source } => {
            &&& source == packet
            &&& method == 0x0d6c
            &&& value.min <= value.max && value.min + 0x1_0000 * value.max == word
        },
        MaxwellThreeDRenderTargetWrite::ClearVertical { value, source } => {
            &&& source == packet
            &&& method == 0x0d70
            &&& value.min <= value.max && value.min + 0x1_0000 * value.max == word
        },
        MaxwellThreeDRenderTargetWrite::ClearDepth { value, source } => {
            &&& source == packet
            &&& method == 0x0d90
            &&& value.0 == word
        },
        MaxwellThreeDRenderTargetWrite::ClearStencil { value, source } => {
            &&& source == packet
            &&& method == 0x0da0
            &&& value as int == word
        },
        MaxwellThreeDRenderTargetWrite::ClearSurfaceControl { value, source } => {
            &&& source == packet
            &&& method == 0x10f8
            &&& value.0 == word
        },
        MaxwellThreeDRenderTargetWrite::ClearSurface { value, source } => {
            &&& source == packet
            &&& method == 0x19d0
            &&& value.0 == word
        },
        MaxwellThreeDRenderTargetWrite::ColorTargetSelection { value, source } => {
            &&& source == packet
            &&& method == 0x121c
            &&& value.0 == word
        },
        MaxwellThreeDRenderTargetWrite::CompressionThreshold { value, source } => {
            &&& source == packet
            &&& method == 0x1220
            &&& value.0 == word
        },
        MaxwellThreeDRenderTargetWrite::RenderTargetLayer { value, source } => {
            &&& source == packet
            &&& method == 0x15cc
            &&& value.0 == word
        },
        MaxwellThreeDRenderTargetWrite::SeparateFragmentData { source, .. } => {
            &&& source == packet
            &&& method == 0x0fac
            &&& true
        },
        MaxwellThreeDRenderTargetWrite::RenderTargetIndexOffset { source, .. } => {
            &&& source == packet
            &&& method == 0x11f0
            &&& true
        },
        MaxwellThreeDRenderTargetWrite::DepthAddressUpper { value, source } => {
            &&& source == packet
            &&& method == 0x0fe0
            &&& value as int == word
        },
        MaxwellThreeDRenderTargetWrite::DepthAddressLower { value, source } => {
            &&& source == packet
            &&& method == 0x0fe4
            &&& value as int == word
        },
        MaxwellThreeDRenderTargetWrite::DepthFormat { value, source } => {
            &&& source == packet
            &&& method == 0x0fe8
            &&& value.0 == word
        },
        MaxwellThreeDRenderTargetWrite::DepthLayout { value, source } => {
            &&& source == packet
            &&& method == 0x0fec
            &&& (value matches MaxwellThreeDImageLayout::BlockLinear { block_height_log2, block_depth_log2 } && block_height_log2 == (word >> 4) & 0xf && block_depth_log2 == 0)
        },
        MaxwellThreeDRenderTargetWrite::DepthArrayPitch { value, source } => {
            &&& source == packet
            &&& method == 0x0ff0
            &&& value as int == word
        },
        MaxwellThreeDRenderTargetWrite::DepthLayer { value, source } => {
            &&& source == packet
            &&& method == 0x179c
            &&& value as int == word
        },
        MaxwellThreeDRenderTargetWrite::DepthWidth { value, source } => {
            &&& source == packet
            &&& method == 0x1228
            &&& value as int == word
        },
        MaxwellThreeDRenderTargetWrite::DepthHeight { value, source } => {
            &&& source == packet
            &&& method == 0x122c
            &&& value as int == word
        },
        MaxwellThreeDRenderTargetWrite::DepthThirdDimension { value, source } => {
            &&& source == packet
            &&& method == 0x1230
            &&& value.size == word % 0x1_0000 && (value.kind is Array <==> word & 0x1_0000 != 0)
        },
        MaxwellThreeDRenderTargetWrite::DepthTargetCount { source, .. } => {
            &&& source == packet
            &&& method == 0x1538
            &&& true
        },
        MaxwellThreeDRenderTargetWrite::DepthCompression { value, source } => {
            &&& source == packet
            &&& method == 0x19cc
            &&& word <= 1 && (value is Enabled <==> word == 1)
        },
        MaxwellThreeDRenderTargetWrite::ClearColor { component, value, source } => {
            &&& component < 4
            &&& source == packet
            &&& method == 0x0d80 + 4 * component
            &&& value.0 == word
        },
    }
}

proof fn lemma_color_word(profile: &MaxwellGpuProfile, source: MaxwellMethodSource)
    ensures
        crate::method_answers::color_target_answer(profile, source) matches Ok(Some((write, _))) ==> (
        write matches MaxwellThreeDStateWrite::RenderTarget(write) && target_word(write, source)),
{
    let word = source.argument;
    assert(((word >> 4) & 0xf) < 16 && ((word >> 8) & 0xf) < 16) by (bit_vector);
    reveal(crate::method_answers::color_target_answer);
}

proof fn lemma_depth_word(profile: &MaxwellGpuProfile, source: MaxwellMethodSource)
    ensures
        crate::method_answers::render_target_answer(profile, source) matches Ok(Some((write, _))) ==> (
        write matches MaxwellThreeDStateWrite::RenderTarget(write) && target_word(write, source)),
{
    let word = source.argument;
    let method = source.method.0;
    assert(((word >> 4) & 0xf) < 16 && (word as u16) == word % 0x1_0000 && (method & 3 == 0 ==> method % 4 == 0)) by (bit_vector);
    reveal(crate::method_answers::render_target_answer);
}

/// A method of the targets is known to their two families.
proof fn lemma_target_known(profile: &MaxwellGpuProfile, source: MaxwellMethodSource)
    requires
        is_target_method(source.method.0),
    ensures
        !(crate::method_answers::color_target_answer(profile, source) matches Ok(None)) || !(
        crate::method_answers::render_target_answer(profile, source) matches Ok(None)),
{
    let method = source.method.0;
    assert(method & 3 == 0 <==> method % 4 == 0) by (bit_vector);
    reveal(crate::method_answers::color_target_answer);
    reveal(crate::method_answers::render_target_answer);
}

proof fn lemma_no_inline(source: MaxwellMethodSource, model: FrontendModel)
    requires
        is_target_method(source.method.0),
    ensures
        crate::method_answers::inline_answer(source, model) matches Ok(None),
{
    reveal(crate::method_answers::inline_answer);
}

proof fn lemma_no_mme(source: MaxwellMethodSource, model: FrontendModel)
    requires
        is_target_method(source.method.0),
    ensures
        crate::method_answers::mme_answer(source, model) matches Ok(None),
{
    reveal(crate::method_answers::mme_answer);
}

proof fn lemma_no_load(source: MaxwellMethodSource, model: FrontendModel)
    requires
        is_target_method(source.method.0),
    ensures
        crate::method_answers::load_answer(source, model) matches Ok(None),
{
    reveal(crate::method_answers::load_answer);
}

proof fn lemma_no_stream(profile: &MaxwellGpuProfile, source: MaxwellMethodSource)
    requires
        is_target_method(source.method.0),
    ensures
        crate::method_answers::stream_answer(profile, source) matches Ok(None),
{
    reveal(crate::method_answers::stream_answer);
}

proof fn lemma_no_assembly(profile: &MaxwellGpuProfile, source: MaxwellMethodSource)
    requires
        is_target_method(source.method.0),
    ensures
        crate::method_answers::assembly_answer(profile, source) matches Ok(None),
{
    reveal(crate::method_answers::assembly_answer);
}

proof fn lemma_no_constant_binding(source: MaxwellMethodSource, model: FrontendModel)
    requires
        is_target_method(source.method.0),
    ensures
        crate::method_answers::constant_binding_answer(source, model) matches Ok(None),
{
    reveal(crate::method_answers::constant_binding_answer);
}

proof fn lemma_no_shader_binding(profile: &MaxwellGpuProfile, source: MaxwellMethodSource)
    requires
        is_target_method(source.method.0),
    ensures
        crate::method_answers::shader_binding_answer(profile, source) matches Ok(None),
{
    reveal(crate::method_answers::shader_binding_answer);
}

proof fn lemma_no_line(source: MaxwellMethodSource)
    requires
        is_target_method(source.method.0),
    ensures
        crate::method_answers::line_answer(source) matches Ok(None),
{
    reveal(crate::method_answers::line_answer);
}

proof fn lemma_no_raster(profile: &MaxwellGpuProfile, source: MaxwellMethodSource)
    requires
        is_target_method(source.method.0),
    ensures
        crate::method_answers::raster_answer(profile, source) matches Ok(None),
{
    reveal(crate::method_answers::raster_answer);
}

/// The targets after an accepted method are unchanged, or changed by the one transition that
/// its method and word describe. A method of the targets always makes one: the registers of
/// color target n stand at 0x800 + 0x40 * n, the clear rectangle at 0xd6c and 0xd70 with its
/// lower bounds in the low halves, and so on as `target_word` lists them.
pub proof fn law_target_methods(
    profile: &MaxwellGpuProfile,
    step: MethodStep,
    model: FrontendModel,
) -> (r: Option<MaxwellThreeDRenderTargetWrite>)
    ensures
        crate::method_answers::taken(profile, step, model) matches Some(prepared) ==> {
            let before = model.operation.render_targets;
            let after = crate::method_answers::state_after(profile, step, model).render_targets;
            &&& r matches Some(write) ==> target_word(write, prepared.source) && after == before.written(
                write,
            )
            &&& r is None ==> after == before && !is_target_method(prepared.source.method.0)
        },
{
    crate::method_answers::lemma_taken(profile, step, model);
    if let Some(prepared) = crate::method_answers::taken(profile, step, model) {
        let source = prepared.source;
        crate::method_answers::lemma_answered(profile, source, model);
        let plan = crate::method_answers::answered(profile, source, model)->Ok_0;
        crate::method_kinds::lemma_mme_kind(source, model);
        crate::method_kinds::lemma_load_kind(source, model);
        crate::method_kinds::lemma_stream_kind(profile, source);
        crate::method_kinds::lemma_assembly_kind(profile, source);
        crate::method_kinds::lemma_binding_kinds(profile, source, model);
        crate::method_kinds::lemma_raster_kinds(profile, source);
        crate::method_kinds::lemma_blend_kind(source);
        crate::method_kinds::lemma_fixed_kind(source);
        crate::method_kinds::lemma_declared_kind(profile, source, model);
        crate::method_laws::lemma_viewport_decode(source);
        lemma_color_word(profile, source);
        lemma_depth_word(profile, source);
        reveal(crate::method_answers::vertex_answer);
        reveal(crate::method_answers::output_answer);
        if is_target_method(source.method.0) {
            lemma_target_known(profile, source);
            lemma_no_inline(source, model);
            lemma_no_mme(source, model);
            lemma_no_load(source, model);
            lemma_no_stream(profile, source);
            lemma_no_assembly(profile, source);
            lemma_no_constant_binding(source, model);
            lemma_no_shader_binding(profile, source);
            lemma_no_line(source);
            lemma_no_raster(profile, source);
        }
        match plan.write {
            Some(MaxwellThreeDStateWrite::RenderTarget(write)) => Some(write),
            _ => None,
        }
    } else {
        None
    }
}

/// A transition programs the register that it names with its value and its packet, and
/// leaves every other register as it was.
pub proof fn law_target_transitions(
    before: MaxwellThreeDRenderTargetState,
    write: MaxwellThreeDRenderTargetWrite,
    other: int,
)
    requires
        write.wf(),
        0 <= other < 8,
    ensures
        match write {
            MaxwellThreeDRenderTargetWrite::ColorAddressUpper { target, value, source } => {
                let after = before.written(write);
                &&& after == (MaxwellThreeDRenderTargetState { color_address_upper: after.color_address_upper, ..before })
                &&& after.color_address_upper[target as int] == MaxwellThreeDRegister::programmed(source.argument, value, source)
                &&& other != target ==> after.color_address_upper[other] == before.color_address_upper[other]
            },
            MaxwellThreeDRenderTargetWrite::ColorAddressLower { target, value, source } => {
                let after = before.written(write);
                &&& after == (MaxwellThreeDRenderTargetState { color_address_lower: after.color_address_lower, ..before })
                &&& after.color_address_lower[target as int] == MaxwellThreeDRegister::programmed(source.argument, value, source)
                &&& other != target ==> after.color_address_lower[other] == before.color_address_lower[other]
            },
            MaxwellThreeDRenderTargetWrite::ColorWidth { target, value, source } => {
                let after = before.written(write);
                &&& after == (MaxwellThreeDRenderTargetState { color_widths: after.color_widths, ..before })
                &&& after.color_widths[target as int] == MaxwellThreeDRegister::programmed(source.argument, value, source)
                &&& other != target ==> after.color_widths[other] == before.color_widths[other]
            },
            MaxwellThreeDRenderTargetWrite::ColorHeight { target, value, source } => {
                let after = before.written(write);
                &&& after == (MaxwellThreeDRenderTargetState { color_heights: after.color_heights, ..before })
                &&& after.color_heights[target as int] == MaxwellThreeDRegister::programmed(source.argument, value, source)
                &&& other != target ==> after.color_heights[other] == before.color_heights[other]
            },
            MaxwellThreeDRenderTargetWrite::ColorFormat { target, value, source } => {
                let after = before.written(write);
                &&& after == (MaxwellThreeDRenderTargetState { color_formats: after.color_formats, ..before })
                &&& after.color_formats[target as int] == MaxwellThreeDRegister::programmed(source.argument, value, source)
                &&& other != target ==> after.color_formats[other] == before.color_formats[other]
            },
            MaxwellThreeDRenderTargetWrite::ColorLayout { target, value, source } => {
                let after = before.written(write);
                &&& after == (MaxwellThreeDRenderTargetState { color_layouts: after.color_layouts, ..before })
                &&& after.color_layouts[target as int] == MaxwellThreeDRegister::programmed(source.argument, value, source)
                &&& other != target ==> after.color_layouts[other] == before.color_layouts[other]
            },
            MaxwellThreeDRenderTargetWrite::ColorThirdDimension { target, value, source } => {
                let after = before.written(write);
                &&& after == (MaxwellThreeDRenderTargetState { color_third_dimensions: after.color_third_dimensions, ..before })
                &&& after.color_third_dimensions[target as int] == MaxwellThreeDRegister::programmed(source.argument, value, source)
                &&& other != target ==> after.color_third_dimensions[other] == before.color_third_dimensions[other]
            },
            MaxwellThreeDRenderTargetWrite::ColorArrayPitch { target, value, source } => {
                let after = before.written(write);
                &&& after == (MaxwellThreeDRenderTargetState { color_array_pitches: after.color_array_pitches, ..before })
                &&& after.color_array_pitches[target as int] == MaxwellThreeDRegister::programmed(source.argument, value, source)
                &&& other != target ==> after.color_array_pitches[other] == before.color_array_pitches[other]
            },
            MaxwellThreeDRenderTargetWrite::ColorLayer { target, value, source } => {
                let after = before.written(write);
                &&& after == (MaxwellThreeDRenderTargetState { color_layers: after.color_layers, ..before })
                &&& after.color_layers[target as int] == MaxwellThreeDRegister::programmed(source.argument, value, source)
                &&& other != target ==> after.color_layers[other] == before.color_layers[other]
            },
            MaxwellThreeDRenderTargetWrite::ColorCompression { target, value, source } => {
                let after = before.written(write);
                &&& after == (MaxwellThreeDRenderTargetState { color_compression: after.color_compression, ..before })
                &&& after.color_compression[target as int] == MaxwellThreeDRegister::programmed(source.argument, value, source)
                &&& other != target ==> after.color_compression[other] == before.color_compression[other]
            },
            MaxwellThreeDRenderTargetWrite::ClearColor { component, value, source } => {
                let after = before.written(write);
                &&& after == (MaxwellThreeDRenderTargetState { clear_color: after.clear_color, ..before })
                &&& after.clear_color[component as int] == MaxwellThreeDRegister::programmed(source.argument, value, source)
                &&& other != component && other < 4 ==> after.clear_color[other] == before.clear_color[other]
            },
            MaxwellThreeDRenderTargetWrite::ClearHorizontal { value, source } => {
                before.written(write) == (MaxwellThreeDRenderTargetState {
                    clear_horizontal: MaxwellThreeDRegister::programmed(source.argument, value, source),
                    ..before
                })
            },
            MaxwellThreeDRenderTargetWrite::ClearVertical { value, source } => {
                before.written(write) == (MaxwellThreeDRenderTargetState {
                    clear_vertical: MaxwellThreeDRegister::programmed(source.argument, value, source),
                    ..before
                })
            },
            MaxwellThreeDRenderTargetWrite::ClearDepth { value, source } => {
                before.written(write) == (MaxwellThreeDRenderTargetState {
                    clear_depth: MaxwellThreeDRegister::programmed(source.argument, value, source),
                    ..before
                })
            },
            MaxwellThreeDRenderTargetWrite::ClearStencil { value, source } => {
                before.written(write) == (MaxwellThreeDRenderTargetState {
                    clear_stencil: MaxwellThreeDRegister::programmed(source.argument, value, source),
                    ..before
                })
            },
            MaxwellThreeDRenderTargetWrite::ClearSurfaceControl { value, source } => {
                before.written(write) == (MaxwellThreeDRenderTargetState {
                    clear_surface_control: MaxwellThreeDRegister::programmed(source.argument, value, source),
                    ..before
                })
            },
            MaxwellThreeDRenderTargetWrite::ClearSurface { value, source } => {
                before.written(write) == (MaxwellThreeDRenderTargetState {
                    clear_surface: MaxwellThreeDRegister::programmed(source.argument, value, source),
                    ..before
                })
            },
            MaxwellThreeDRenderTargetWrite::ColorTargetSelection { value, source } => {
                before.written(write) == (MaxwellThreeDRenderTargetState {
                    color_target_selection: MaxwellThreeDRegister::programmed(source.argument, value, source),
                    ..before
                })
            },
            MaxwellThreeDRenderTargetWrite::CompressionThreshold { value, source } => {
                before.written(write) == (MaxwellThreeDRenderTargetState {
                    compression_threshold: MaxwellThreeDRegister::programmed(source.argument, value, source),
                    ..before
                })
            },
            MaxwellThreeDRenderTargetWrite::RenderTargetLayer { value, source } => {
                before.written(write) == (MaxwellThreeDRenderTargetState {
                    render_target_layer: MaxwellThreeDRegister::programmed(source.argument, value, source),
                    ..before
                })
            },
            MaxwellThreeDRenderTargetWrite::SeparateFragmentData { value, source } => {
                before.written(write) == (MaxwellThreeDRenderTargetState {
                    separate_fragment_data: MaxwellThreeDRegister::programmed(source.argument, value, source),
                    ..before
                })
            },
            MaxwellThreeDRenderTargetWrite::RenderTargetIndexOffset { value, source } => {
                before.written(write) == (MaxwellThreeDRenderTargetState {
                    render_target_index_offset: MaxwellThreeDRegister::programmed(source.argument, value, source),
                    ..before
                })
            },
            MaxwellThreeDRenderTargetWrite::DepthAddressUpper { value, source } => {
                before.written(write) == (MaxwellThreeDRenderTargetState {
                    depth_address_upper: MaxwellThreeDRegister::programmed(source.argument, value, source),
                    ..before
                })
            },
            MaxwellThreeDRenderTargetWrite::DepthAddressLower { value, source } => {
                before.written(write) == (MaxwellThreeDRenderTargetState {
                    depth_address_lower: MaxwellThreeDRegister::programmed(source.argument, value, source),
                    ..before
                })
            },
            MaxwellThreeDRenderTargetWrite::DepthFormat { value, source } => {
                before.written(write) == (MaxwellThreeDRenderTargetState {
                    depth_format: MaxwellThreeDRegister::programmed(source.argument, value, source),
                    ..before
                })
            },
            MaxwellThreeDRenderTargetWrite::DepthLayout { value, source } => {
                before.written(write) == (MaxwellThreeDRenderTargetState {
                    depth_layout: MaxwellThreeDRegister::programmed(source.argument, value, source),
                    ..before
                })
            },
            MaxwellThreeDRenderTargetWrite::DepthArrayPitch { value, source } => {
                before.written(write) == (MaxwellThreeDRenderTargetState {
                    depth_array_pitch: MaxwellThreeDRegister::programmed(source.argument, value, source),
                    ..before
                })
            },
            MaxwellThreeDRenderTargetWrite::DepthLayer { value, source } => {
                before.written(write) == (MaxwellThreeDRenderTargetState {
                    depth_layer: MaxwellThreeDRegister::programmed(source.argument, value, source),
                    ..before
                })
            },
            MaxwellThreeDRenderTargetWrite::DepthWidth { value, source } => {
                before.written(write) == (MaxwellThreeDRenderTargetState {
                    depth_width: MaxwellThreeDRegister::programmed(source.argument, value, source),
                    ..before
                })
            },
            MaxwellThreeDRenderTargetWrite::DepthHeight { value, source } => {
                before.written(write) == (MaxwellThreeDRenderTargetState {
                    depth_height: MaxwellThreeDRegister::programmed(source.argument, value, source),
                    ..before
                })
            },
            MaxwellThreeDRenderTargetWrite::DepthThirdDimension { value, source } => {
                before.written(write) == (MaxwellThreeDRenderTargetState {
                    depth_third_dimension: MaxwellThreeDRegister::programmed(source.argument, value, source),
                    ..before
                })
            },
            MaxwellThreeDRenderTargetWrite::DepthTargetCount { value, source } => {
                before.written(write) == (MaxwellThreeDRenderTargetState {
                    depth_target_count: MaxwellThreeDRegister::programmed(source.argument, value, source),
                    ..before
                })
            },
            MaxwellThreeDRenderTargetWrite::DepthCompression { value, source } => {
                before.written(write) == (MaxwellThreeDRenderTargetState {
                    depth_compression: MaxwellThreeDRegister::programmed(source.argument, value, source),
                    ..before
                })
            },
        },
{
}

} // verus!
