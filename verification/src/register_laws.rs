//! Laws of the single fixed-function registers: each has one method of its own.

use vstd::prelude::*;
use crate::method_answers::MethodStep;
use crate::output::{
    MaxwellThreeDCompareOp, MaxwellThreeDFixedFunctionRegister, MaxwellThreeDFixedFunctionState,
    MaxwellThreeDFixedFunctionValue, MaxwellThreeDFixedFunctionWrite, MaxwellThreeDLogicOp,
};
use crate::output_methods::MaxwellThreeDFieldEncoding;
use crate::profile::MaxwellGpuProfile;
use crate::register::{MaxwellMethodSource, MaxwellThreeDRegister};
use crate::state::{FrontendModel, MaxwellThreeDStateWrite};

verus! {

/// Method of a register. Nothing writes the alpha-to-one register by itself: its bit is part
/// of the alpha control word.
pub open spec fn home(register: MaxwellThreeDFixedFunctionRegister) -> Option<u32> {
    match register {
        MaxwellThreeDFixedFunctionRegister::RasterEnable => Some(0x037c),
        MaxwellThreeDFixedFunctionRegister::FrontPolygonMode => Some(0x0dac),
        MaxwellThreeDFixedFunctionRegister::BackPolygonMode => Some(0x0db0),
        MaxwellThreeDFixedFunctionRegister::PolygonOffsetPointEnable => Some(0x0dc0),
        MaxwellThreeDFixedFunctionRegister::PolygonOffsetLineEnable => Some(0x0dc4),
        MaxwellThreeDFixedFunctionRegister::PolygonOffsetFillEnable => Some(0x0dc8),
        MaxwellThreeDFixedFunctionRegister::WindowOffsetX => Some(0x0df8),
        MaxwellThreeDFixedFunctionRegister::WindowOffsetY => Some(0x0dfc),
        MaxwellThreeDFixedFunctionRegister::BackStencilReference => Some(0x0f54),
        MaxwellThreeDFixedFunctionRegister::BackStencilWriteMask => Some(0x0f58),
        MaxwellThreeDFixedFunctionRegister::BackStencilCompareMask => Some(0x0f5c),
        MaxwellThreeDFixedFunctionRegister::SingleColorTargetWriteControl => Some(0x0f90),
        MaxwellThreeDFixedFunctionRegister::DepthBoundsMin => Some(0x0f9c),
        MaxwellThreeDFixedFunctionRegister::DepthBoundsMax => Some(0x0fa0),
        MaxwellThreeDFixedFunctionRegister::SampleMaskControl => Some(0x0fa4),
        MaxwellThreeDFixedFunctionRegister::RasterSampleMode => Some(0x0fb8),
        MaxwellThreeDFixedFunctionRegister::DepthTestEnable => Some(0x12cc),
        MaxwellThreeDFixedFunctionRegister::ShadeMode => Some(0x12d4),
        MaxwellThreeDFixedFunctionRegister::BlendPerTargetEnable => Some(0x12e4),
        MaxwellThreeDFixedFunctionRegister::DepthWriteEnable => Some(0x12e8),
        MaxwellThreeDFixedFunctionRegister::AlphaTestEnable => Some(0x12ec),
        MaxwellThreeDFixedFunctionRegister::DepthCompare => Some(0x130c),
        MaxwellThreeDFixedFunctionRegister::AlphaTestReference => Some(0x1310),
        MaxwellThreeDFixedFunctionRegister::AlphaTestFunction => Some(0x1314),
        MaxwellThreeDFixedFunctionRegister::BlendConstantRed => Some(0x131c),
        MaxwellThreeDFixedFunctionRegister::BlendConstantGreen => Some(0x1320),
        MaxwellThreeDFixedFunctionRegister::BlendConstantBlue => Some(0x1324),
        MaxwellThreeDFixedFunctionRegister::BlendConstantAlpha => Some(0x1328),
        MaxwellThreeDFixedFunctionRegister::BlendSeparateAlpha => Some(0x133c),
        MaxwellThreeDFixedFunctionRegister::BlendColorOp => Some(0x1340),
        MaxwellThreeDFixedFunctionRegister::BlendAlphaOp => Some(0x134c),
        MaxwellThreeDFixedFunctionRegister::BlendColorSource => Some(0x1344),
        MaxwellThreeDFixedFunctionRegister::BlendColorDestination => Some(0x1348),
        MaxwellThreeDFixedFunctionRegister::BlendAlphaSource => Some(0x1350),
        MaxwellThreeDFixedFunctionRegister::BlendAlphaDestination => Some(0x1358),
        MaxwellThreeDFixedFunctionRegister::StencilTestEnable => Some(0x1380),
        MaxwellThreeDFixedFunctionRegister::TwoSidedStencilTestEnable => Some(0x1594),
        MaxwellThreeDFixedFunctionRegister::FrontStencilFail => Some(0x1384),
        MaxwellThreeDFixedFunctionRegister::FrontStencilDepthFail => Some(0x1388),
        MaxwellThreeDFixedFunctionRegister::FrontStencilPass => Some(0x138c),
        MaxwellThreeDFixedFunctionRegister::BackStencilFail => Some(0x1598),
        MaxwellThreeDFixedFunctionRegister::BackStencilDepthFail => Some(0x159c),
        MaxwellThreeDFixedFunctionRegister::BackStencilPass => Some(0x15a0),
        MaxwellThreeDFixedFunctionRegister::FrontStencilCompare => Some(0x1390),
        MaxwellThreeDFixedFunctionRegister::BackStencilCompare => Some(0x15a4),
        MaxwellThreeDFixedFunctionRegister::FrontStencilReference => Some(0x1394),
        MaxwellThreeDFixedFunctionRegister::FrontStencilCompareMask => Some(0x1398),
        MaxwellThreeDFixedFunctionRegister::FrontStencilWriteMask => Some(0x139c),
        MaxwellThreeDFixedFunctionRegister::PixelShaderSaturate => Some(0x13a8),
        MaxwellThreeDFixedFunctionRegister::WindowOrigin => Some(0x13ac),
        MaxwellThreeDFixedFunctionRegister::LineWidth => Some(0x13b0),
        MaxwellThreeDFixedFunctionRegister::UserClipEnable => Some(0x1510),
        MaxwellThreeDFixedFunctionRegister::AntiAliasEnable => Some(0x1534),
        MaxwellThreeDFixedFunctionRegister::AlphaToCoverageEnable => Some(0x153c),
        MaxwellThreeDFixedFunctionRegister::SampleMode => Some(0x15d0),
        MaxwellThreeDFixedFunctionRegister::ProvokingVertex => Some(0x1684),
        MaxwellThreeDFixedFunctionRegister::TwoSidedLightEnable => Some(0x1688),
        MaxwellThreeDFixedFunctionRegister::CullEnable => Some(0x1918),
        MaxwellThreeDFixedFunctionRegister::FrontFace => Some(0x191c),
        MaxwellThreeDFixedFunctionRegister::CullFace => Some(0x1920),
        MaxwellThreeDFixedFunctionRegister::ViewportScaleOffsetEnable => Some(0x192c),
        MaxwellThreeDFixedFunctionRegister::ViewportClipControl => Some(0x193c),
        MaxwellThreeDFixedFunctionRegister::UserClipOperation => Some(0x1940),
        MaxwellThreeDFixedFunctionRegister::WindowClipEnable => Some(0x194c),
        MaxwellThreeDFixedFunctionRegister::WindowClipType => Some(0x1950),
        MaxwellThreeDFixedFunctionRegister::ClipIdTestEnable => Some(0x197c),
        MaxwellThreeDFixedFunctionRegister::DepthBoundsEnable => Some(0x19bc),
        MaxwellThreeDFixedFunctionRegister::LogicOpEnable => Some(0x19c4),
        MaxwellThreeDFixedFunctionRegister::LogicOpFunction => Some(0x19c8),
        MaxwellThreeDFixedFunctionRegister::ColorClampEnable => Some(0x2600),
        MaxwellThreeDFixedFunctionRegister::SampleMask0 => Some(0x0fbc),
        MaxwellThreeDFixedFunctionRegister::SampleMask1 => Some(0x0fc0),
        MaxwellThreeDFixedFunctionRegister::SampleMask2 => Some(0x0fc4),
        MaxwellThreeDFixedFunctionRegister::SampleMask3 => Some(0x0fc8),
        MaxwellThreeDFixedFunctionRegister::AlphaToOneEnable => None,
    }
}

/// Sort of value that a register holds.
pub open spec fn shaped(
    register: MaxwellThreeDFixedFunctionRegister,
    value: MaxwellThreeDFixedFunctionValue,
) -> bool {
    match register {
        MaxwellThreeDFixedFunctionRegister::FrontPolygonMode
        | MaxwellThreeDFixedFunctionRegister::BackPolygonMode => value is PolygonMode,
        MaxwellThreeDFixedFunctionRegister::WindowOffsetX
        | MaxwellThreeDFixedFunctionRegister::WindowOffsetY
        | MaxwellThreeDFixedFunctionRegister::BackStencilReference
        | MaxwellThreeDFixedFunctionRegister::BackStencilWriteMask
        | MaxwellThreeDFixedFunctionRegister::BackStencilCompareMask
        | MaxwellThreeDFixedFunctionRegister::SampleMaskControl
        | MaxwellThreeDFixedFunctionRegister::FrontStencilReference
        | MaxwellThreeDFixedFunctionRegister::FrontStencilCompareMask
        | MaxwellThreeDFixedFunctionRegister::FrontStencilWriteMask
        | MaxwellThreeDFixedFunctionRegister::WindowOrigin
        | MaxwellThreeDFixedFunctionRegister::UserClipEnable
        | MaxwellThreeDFixedFunctionRegister::UserClipOperation
        | MaxwellThreeDFixedFunctionRegister::SampleMask0
        | MaxwellThreeDFixedFunctionRegister::SampleMask1
        | MaxwellThreeDFixedFunctionRegister::SampleMask2
        | MaxwellThreeDFixedFunctionRegister::SampleMask3 => value is Mask,
        MaxwellThreeDFixedFunctionRegister::DepthBoundsMin
        | MaxwellThreeDFixedFunctionRegister::DepthBoundsMax
        | MaxwellThreeDFixedFunctionRegister::AlphaTestReference
        | MaxwellThreeDFixedFunctionRegister::BlendConstantRed
        | MaxwellThreeDFixedFunctionRegister::BlendConstantGreen
        | MaxwellThreeDFixedFunctionRegister::BlendConstantBlue
        | MaxwellThreeDFixedFunctionRegister::BlendConstantAlpha
        | MaxwellThreeDFixedFunctionRegister::LineWidth => value is FloatBits,
        MaxwellThreeDFixedFunctionRegister::RasterSampleMode
        | MaxwellThreeDFixedFunctionRegister::SampleMode => value is SampleMode,
        MaxwellThreeDFixedFunctionRegister::ShadeMode => value is ShadeMode,
        MaxwellThreeDFixedFunctionRegister::DepthCompare
        | MaxwellThreeDFixedFunctionRegister::AlphaTestFunction
        | MaxwellThreeDFixedFunctionRegister::FrontStencilCompare
        | MaxwellThreeDFixedFunctionRegister::BackStencilCompare => value is Compare,
        MaxwellThreeDFixedFunctionRegister::BlendColorOp
        | MaxwellThreeDFixedFunctionRegister::BlendAlphaOp => value is BlendOp,
        MaxwellThreeDFixedFunctionRegister::BlendColorSource
        | MaxwellThreeDFixedFunctionRegister::BlendColorDestination
        | MaxwellThreeDFixedFunctionRegister::BlendAlphaSource
        | MaxwellThreeDFixedFunctionRegister::BlendAlphaDestination => value is BlendFactor,
        MaxwellThreeDFixedFunctionRegister::FrontStencilFail
        | MaxwellThreeDFixedFunctionRegister::FrontStencilDepthFail
        | MaxwellThreeDFixedFunctionRegister::FrontStencilPass
        | MaxwellThreeDFixedFunctionRegister::BackStencilFail
        | MaxwellThreeDFixedFunctionRegister::BackStencilDepthFail
        | MaxwellThreeDFixedFunctionRegister::BackStencilPass => value is StencilOp,
        MaxwellThreeDFixedFunctionRegister::PixelShaderSaturate => value is PixelShaderSaturate,
        MaxwellThreeDFixedFunctionRegister::AlphaToCoverageEnable => value is AlphaControl,
        MaxwellThreeDFixedFunctionRegister::ProvokingVertex => value is ProvokingVertex,
        MaxwellThreeDFixedFunctionRegister::FrontFace => value is FrontFace,
        MaxwellThreeDFixedFunctionRegister::CullFace => value is CullFace,
        MaxwellThreeDFixedFunctionRegister::ViewportScaleOffsetEnable => value is ViewportScaleOffsetEnable,
        MaxwellThreeDFixedFunctionRegister::ViewportClipControl => value is ClipControl,
        MaxwellThreeDFixedFunctionRegister::WindowClipType => value is WindowClipType,
        MaxwellThreeDFixedFunctionRegister::ClipIdTestEnable => value is ClipIdTestEnable,
        MaxwellThreeDFixedFunctionRegister::LogicOpFunction => value is LogicOp,
        MaxwellThreeDFixedFunctionRegister::AlphaToOneEnable => true,
        _ => value is Boolean,
    }
}

/// No two registers share a place in the file.
proof fn lemma_places(a: MaxwellThreeDFixedFunctionRegister, b: MaxwellThreeDFixedFunctionRegister)
    ensures
        a.spec_index() == b.spec_index() <==> a == b,
        a.spec_index() < 75,
{
}

/// A decoded register is that of the method.
proof fn lemma_home(source: MaxwellMethodSource)
    ensures
        crate::method_answers::fixed_answer(source) matches Ok(Some((write, _))) ==> (
        write matches MaxwellThreeDStateWrite::FixedFunction(
            MaxwellThreeDFixedFunctionWrite::Register { register, source: packet, value },
        ) && packet == source && home(register) == Some(source.method.0) && shaped(register, value)),
        crate::method_answers::sample_mask_answer(source) matches Ok(Some((write, _))) ==> (
        write matches MaxwellThreeDStateWrite::FixedFunction(
            MaxwellThreeDFixedFunctionWrite::Register { register, source: packet, value },
        ) && packet == source && home(register) == Some(source.method.0) && shaped(register, value)
            && value == MaxwellThreeDFixedFunctionValue::Mask(source.argument)),
{
    reveal(crate::method_answers::fixed_answer);
    reveal(crate::method_answers::sample_mask_answer);
}

proof fn lemma_no_inline(source: MaxwellMethodSource, model: FrontendModel, register: MaxwellThreeDFixedFunctionRegister)
    requires
        home(register) == Some(source.method.0),
    ensures
        crate::method_answers::inline_answer(source, model) matches Ok(None),
{
    reveal(crate::method_answers::inline_answer);
}

proof fn lemma_no_mme(source: MaxwellMethodSource, model: FrontendModel, register: MaxwellThreeDFixedFunctionRegister)
    requires
        home(register) == Some(source.method.0),
    ensures
        crate::method_answers::mme_answer(source, model) matches Ok(None),
{
    reveal(crate::method_answers::mme_answer);
}

proof fn lemma_no_load(source: MaxwellMethodSource, model: FrontendModel, register: MaxwellThreeDFixedFunctionRegister)
    requires
        home(register) == Some(source.method.0),
    ensures
        crate::method_answers::load_answer(source, model) matches Ok(None),
{
    reveal(crate::method_answers::load_answer);
}

proof fn lemma_no_stream(profile: &MaxwellGpuProfile, source: MaxwellMethodSource, register: MaxwellThreeDFixedFunctionRegister)
    requires
        home(register) == Some(source.method.0),
    ensures
        crate::method_answers::stream_answer(profile, source) matches Ok(None),
{
    reveal(crate::method_answers::stream_answer);
}

proof fn lemma_no_assembly(profile: &MaxwellGpuProfile, source: MaxwellMethodSource, register: MaxwellThreeDFixedFunctionRegister)
    requires
        home(register) == Some(source.method.0),
    ensures
        crate::method_answers::assembly_answer(profile, source) matches Ok(None),
{
    reveal(crate::method_answers::assembly_answer);
}

proof fn lemma_no_constant_binding(source: MaxwellMethodSource, model: FrontendModel, register: MaxwellThreeDFixedFunctionRegister)
    requires
        home(register) == Some(source.method.0),
    ensures
        crate::method_answers::constant_binding_answer(source, model) matches Ok(None),
{
    reveal(crate::method_answers::constant_binding_answer);
}

proof fn lemma_no_shader_binding(profile: &MaxwellGpuProfile, source: MaxwellMethodSource, register: MaxwellThreeDFixedFunctionRegister)
    requires
        home(register) == Some(source.method.0),
    ensures
        crate::method_answers::shader_binding_answer(profile, source) matches Ok(None),
{
    reveal(crate::method_answers::shader_binding_answer);
}

proof fn lemma_no_line(source: MaxwellMethodSource, register: MaxwellThreeDFixedFunctionRegister)
    requires
        home(register) == Some(source.method.0),
    ensures
        crate::method_answers::line_answer(source) matches Ok(None),
{
    reveal(crate::method_answers::line_answer);
}

proof fn lemma_no_raster(profile: &MaxwellGpuProfile, source: MaxwellMethodSource, register: MaxwellThreeDFixedFunctionRegister)
    requires
        home(register) == Some(source.method.0),
    ensures
        crate::method_answers::raster_answer(profile, source) matches Ok(None),
{
    reveal(crate::method_answers::raster_answer);
}

proof fn lemma_no_color_target(profile: &MaxwellGpuProfile, source: MaxwellMethodSource, register: MaxwellThreeDFixedFunctionRegister)
    requires
        home(register) == Some(source.method.0),
    ensures
        crate::method_answers::color_target_answer(profile, source) matches Ok(None),
{
    reveal(crate::method_answers::color_target_answer);
}

proof fn lemma_no_render_target(profile: &MaxwellGpuProfile, source: MaxwellMethodSource, register: MaxwellThreeDFixedFunctionRegister)
    requires
        home(register) == Some(source.method.0),
    ensures
        crate::method_answers::render_target_answer(profile, source) matches Ok(None),
{
    reveal(crate::method_answers::render_target_answer);
}

proof fn lemma_no_viewport(source: MaxwellMethodSource, register: MaxwellThreeDFixedFunctionRegister)
    requires
        home(register) == Some(source.method.0),
    ensures
        crate::method_answers::viewport_answer(source) matches Ok(None),
{
    reveal(crate::method_answers::viewport_answer);
}

proof fn lemma_no_blend(source: MaxwellMethodSource, register: MaxwellThreeDFixedFunctionRegister)
    requires
        home(register) == Some(source.method.0),
    ensures
        crate::method_answers::blend_answer(source) matches Ok(None),
{
    reveal(crate::method_answers::blend_answer);
}

/// Outcome of a comparison of a sample with the stored value, by whether the sample is
/// smaller, equal or greater.
pub open spec fn passes(op: MaxwellThreeDCompareOp, smaller: bool, equal: bool) -> bool {
    match op {
        MaxwellThreeDCompareOp::Never => false,
        MaxwellThreeDCompareOp::Less => smaller,
        MaxwellThreeDCompareOp::Equal => equal,
        MaxwellThreeDCompareOp::LessEqual => smaller || equal,
        MaxwellThreeDCompareOp::Greater => !smaller && !equal,
        MaxwellThreeDCompareOp::NotEqual => !equal,
        MaxwellThreeDCompareOp::GreaterEqual => !smaller,
        MaxwellThreeDCompareOp::Always => true,
    }
}

/// Bit that a logic operation makes of a source and a destination bit.
pub open spec fn combined(op: MaxwellThreeDLogicOp, source: bool, destination: bool) -> bool {
    match op {
        MaxwellThreeDLogicOp::Clear => false,
        MaxwellThreeDLogicOp::And => source && destination,
        MaxwellThreeDLogicOp::AndReverse => source && !destination,
        MaxwellThreeDLogicOp::Copy => source,
        MaxwellThreeDLogicOp::AndInverted => !source && destination,
        MaxwellThreeDLogicOp::Noop => destination,
        MaxwellThreeDLogicOp::Xor => source != destination,
        MaxwellThreeDLogicOp::Or => source || destination,
        MaxwellThreeDLogicOp::Nor => !(source || destination),
        MaxwellThreeDLogicOp::Equiv => source == destination,
        MaxwellThreeDLogicOp::Invert => !destination,
        MaxwellThreeDLogicOp::OrReverse => source || !destination,
        MaxwellThreeDLogicOp::CopyInverted => !source,
        MaxwellThreeDLogicOp::OrInverted => !source || destination,
        MaxwellThreeDLogicOp::Nand => !(source && destination),
        MaxwellThreeDLogicOp::SetBits => true,
    }
}

/// A value says what the word of its register means. Booleans are zero or one, masks and
/// floats are the word itself. A comparison word counts from one or from 0x200; bits 0, 1 and
/// 2 of the count tell whether a smaller, an equal and a greater sample passes. Bits 0 to 3
/// of a logic word are the outcomes for source and destination bits 11, 10, 01 and 00.
pub open spec fn means(value: MaxwellThreeDFixedFunctionValue, word: u32) -> bool {
    match value {
        MaxwellThreeDFixedFunctionValue::Boolean(value) => word == (if value { 1int } else { 0 }),
        MaxwellThreeDFixedFunctionValue::Mask(bits) => bits == word,
        MaxwellThreeDFixedFunctionValue::FloatBits(bits) => bits.0 == word,
        MaxwellThreeDFixedFunctionValue::BlendFactor(factor) => factor.0 == word,
        MaxwellThreeDFixedFunctionValue::AlphaControl { alpha_to_coverage, alpha_to_one } => {
            &&& alpha_to_coverage <==> word & 1 != 0
            &&& alpha_to_one <==> word & 0x10 != 0
        },
        MaxwellThreeDFixedFunctionValue::ViewportScaleOffsetEnable(enable) => {
            &&& word <= 1
            &&& enable is Enabled <==> word == 1
        },
        MaxwellThreeDFixedFunctionValue::Compare(op) => {
            let count = if word >= 0x200 { word - 0x200 } else { word - 1 };
            &&& 0 <= count < 8
            &&& passes(op, true, false) <==> count % 2 == 1
            &&& passes(op, false, true) <==> (count / 2) % 2 == 1
            &&& passes(op, false, false) <==> count / 4 == 1
        },
        MaxwellThreeDFixedFunctionValue::LogicOp(op) => {
            let table = word - 0x1500;
            &&& 0 <= table < 16
            &&& combined(op, true, true) <==> table % 2 == 1
            &&& combined(op, true, false) <==> (table / 2) % 2 == 1
            &&& combined(op, false, true) <==> (table / 4) % 2 == 1
            &&& combined(op, false, false) <==> table / 8 == 1
        },
        MaxwellThreeDFixedFunctionValue::FrontFace(face) => {
            &&& face is Clockwise <==> word == 0x900
            &&& face is CounterClockwise <==> word == 0x901
        },
        MaxwellThreeDFixedFunctionValue::CullFace(face) => {
            &&& face is Front <==> word == 0x404
            &&& face is Back <==> word == 0x405
            &&& face is FrontAndBack <==> word == 0x408
        },
        MaxwellThreeDFixedFunctionValue::PolygonMode(mode) => {
            &&& mode is Point <==> word == 0x1b00
            &&& mode is Line <==> word == 0x1b01
            &&& mode is Fill <==> word == 0x1b02
        },
        MaxwellThreeDFixedFunctionValue::ShadeMode(mode) => {
            &&& mode is Flat <==> word == 0x1d00
            &&& mode is Smooth <==> word == 0x1d01
        },
        MaxwellThreeDFixedFunctionValue::ProvokingVertex(vertex) => {
            &&& vertex is First <==> word == 0
            &&& vertex is Last <==> word == 1
        },
        MaxwellThreeDFixedFunctionValue::BlendOp(op) => {
            &&& op is Add <==> word == 1 || word == 0x8006
            &&& op is Subtract <==> word == 2 || word == 0x800a
            &&& op is ReverseSubtract <==> word == 3 || word == 0x800b
            &&& op is Min <==> word == 4 || word == 0x8007
            &&& op is Max <==> word == 5 || word == 0x8008
        },
        MaxwellThreeDFixedFunctionValue::StencilOp(op) => {
            &&& op is Keep <==> word == 1 || word == 0x1e00
            &&& op is Zero <==> word == 2 || word == 0
            &&& op is Replace <==> word == 3 || word == 0x1e01
            &&& op is IncrementClamp <==> word == 4 || word == 0x1e02
            &&& op is DecrementClamp <==> word == 5 || word == 0x1e03
            &&& op is Invert <==> word == 6 || word == 0x150a
            &&& op is IncrementWrap <==> word == 7 || word == 0x8507
            &&& op is DecrementWrap <==> word == 8 || word == 0x8508
        },
        _ => true,
    }
}

/// Each encoding decodes a word to what it means.
proof fn lemma_encodings(encoding: MaxwellThreeDFieldEncoding, word: u32)
    ensures
        encoding.spec_decode(word) matches Some(value) ==> means(value, word),
{
}

proof fn lemma_meaning(source: MaxwellMethodSource)
    ensures
        crate::method_answers::fixed_answer(source) matches Ok(Some((write, _))) ==> (
        write matches MaxwellThreeDStateWrite::FixedFunction(
            MaxwellThreeDFixedFunctionWrite::Register { value, .. },
        ) && means(value, source.argument)),
{
    reveal(crate::method_answers::fixed_answer);
    if let Some(field) = crate::output_methods::spec_fixed_function_field(source.method.0) {
        lemma_encodings(field.encoding, source.argument);
    }
}

/// The answer on the own method of a register.
proof fn lemma_register_plan(
    profile: &MaxwellGpuProfile,
    source: MaxwellMethodSource,
    model: FrontendModel,
    register: MaxwellThreeDFixedFunctionRegister,
)
    requires
        home(register) == Some(source.method.0),
    ensures
        crate::method_answers::answered(profile, source, model) matches Ok(plan) ==> {
            &&& plan.write matches Some(
                MaxwellThreeDStateWrite::FixedFunction(
                    MaxwellThreeDFixedFunctionWrite::Register { register: written, value, source: packet },
                ),
            )
            &&& written == register
            &&& packet == source
            &&& shaped(register, value)
            &&& means(value, source.argument)
        },
{
    lemma_no_inline(source, model, register);
    lemma_no_mme(source, model, register);
    lemma_no_load(source, model, register);
    lemma_no_stream(profile, source, register);
    lemma_no_assembly(profile, source, register);
    lemma_no_constant_binding(source, model, register);
    lemma_no_shader_binding(profile, source, register);
    lemma_no_line(source, register);
    lemma_no_raster(profile, source, register);
    lemma_no_color_target(profile, source, register);
    lemma_no_render_target(profile, source, register);
    lemma_no_viewport(source, register);
    lemma_no_blend(source, register);
    lemma_home(source);
    lemma_meaning(source);
    lemma_register_known(profile, source, model, register);
    lemma_homes(register);
    reveal(crate::method_answers::vertex_answer);
    reveal(crate::method_answers::output_answer);
}

/// No two registers share a method.
proof fn lemma_homes(a: MaxwellThreeDFixedFunctionRegister)
    ensures
        forall|b: MaxwellThreeDFixedFunctionRegister|
            home(a) is Some && #[trigger] home(b) == home(a) ==> a == b,
{
}

/// The last two families know the method of every register; a sample mask that is too wide
/// has no declared method either.
proof fn lemma_register_known(
    profile: &MaxwellGpuProfile,
    source: MaxwellMethodSource,
    model: FrontendModel,
    register: MaxwellThreeDFixedFunctionRegister,
)
    requires
        home(register) == Some(source.method.0),
    ensures
        !(crate::method_answers::sample_mask_answer(source) matches Ok(None)) || !(
        crate::method_answers::fixed_answer(source) matches Ok(None)) || crate::method_answers::declared_answer(
            profile,
            source,
            model,
        ) is Err,
{
    reveal(crate::method_answers::sample_mask_answer);
    reveal(crate::method_answers::fixed_answer);
    reveal(crate::method_answers::declared_answer);
}

/// Every fixed-function register follows its own method: an accepted word of the method
/// leaves in the register the word, the packet and the value that the word means, and any
/// other method leaves the register as it was.
pub proof fn law_register_methods(
    profile: &MaxwellGpuProfile,
    step: MethodStep,
    model: FrontendModel,
    register: MaxwellThreeDFixedFunctionRegister,
)
    ensures
        crate::method_answers::taken(profile, step, model) matches Some(prepared) ==> {
            let source = prepared.source;
            let before = model.operation.fixed_function.registers[register.spec_index() as int];
            let after = crate::method_answers::state_after(
                profile,
                step,
                model,
            ).fixed_function.registers[register.spec_index() as int];
            if home(register) == Some(source.method.0) {
                &&& after.raw == Some(source.argument)
                &&& after.source == Some(source)
                &&& after.value matches Some(value) && shaped(register, value) && means(value, source.argument)
            } else {
                after == before
            }
        },
{
    crate::method_answers::lemma_taken(profile, step, model);
    if let Some(prepared) = crate::method_answers::taken(profile, step, model) {
        let source = prepared.source;
        crate::method_answers::lemma_answered(profile, source, model);
        let plan = crate::method_answers::answered(profile, source, model)->Ok_0;
        lemma_register_origin(profile, source, model);
        if home(register) == Some(source.method.0) {
            lemma_register_plan(profile, source, model, register);
        }
        if let Some(MaxwellThreeDStateWrite::FixedFunction(write)) = plan.write {
            lemma_register_transition(model.operation.fixed_function, write, register);
        }
    }
}

/// A transition of a register comes from the method of that register.
proof fn lemma_register_origin(
    profile: &MaxwellGpuProfile,
    source: MaxwellMethodSource,
    model: FrontendModel,
)
    ensures
        crate::method_answers::answered(profile, source, model) matches Ok(plan) ==> (
        plan.write matches Some(
            MaxwellThreeDStateWrite::FixedFunction(
                MaxwellThreeDFixedFunctionWrite::Register { register, source: packet, .. },
            ),
        ) ==> home(register) == Some(source.method.0) && packet == source),
{
    crate::method_kinds::lemma_mme_kind(source, model);
    crate::method_kinds::lemma_load_kind(source, model);
    crate::method_kinds::lemma_stream_kind(profile, source);
    crate::method_kinds::lemma_assembly_kind(profile, source);
    crate::method_kinds::lemma_binding_kinds(profile, source, model);
    crate::method_kinds::lemma_raster_kinds(profile, source);
    crate::method_kinds::lemma_target_kinds(profile, source);
    crate::method_kinds::lemma_blend_kind(source);
    crate::method_kinds::lemma_declared_kind(profile, source, model);
    crate::method_laws::lemma_viewport_decode(source);
    lemma_home(source);
    reveal(crate::method_answers::vertex_answer);
    reveal(crate::method_answers::output_answer);
}

/// What one transition does to one register.
proof fn lemma_register_transition(
    before: MaxwellThreeDFixedFunctionState,
    write: MaxwellThreeDFixedFunctionWrite,
    register: MaxwellThreeDFixedFunctionRegister,
)
    ensures
        before.written(write).registers[register.spec_index() as int] == (match write {
            MaxwellThreeDFixedFunctionWrite::Register { register: written, value, source } =>
                if written == register {
                    MaxwellThreeDRegister::programmed(source.argument, value, source)
                } else {
                    before.registers[register.spec_index() as int]
                },
            _ => before.registers[register.spec_index() as int],
        }),
{
    if let MaxwellThreeDFixedFunctionWrite::Register { register: written, .. } = write {
        lemma_places(written, register);
    }
    lemma_places(register, register);
}

} // verus!
