//! Draw parameters derived from registers: formats, topology, tests and viewport.

use vstd::prelude::*;
use crate::lowering_error::MaxwellThreeDLoweringError;
use crate::neutral::{AlphaCompareOperation, AlphaTest, DepthCompareOperation, DepthState, DrawArguments, PrimitiveTopology, VertexComponentCount, VertexComponentWidth, VertexFormat, ViewportTransform};
use crate::neutral_refusals::{NeutralConstruction, NeutralRefusals};
use crate::output::{MaxwellThreeDCompareOp, MaxwellThreeDFixedFunctionRegister, MaxwellThreeDFixedFunctionValue, MaxwellThreeDViewportScaleOffsetEnable};
use crate::state::MaxwellThreeDState;
use crate::vertex::{MaxwellThreeDBegin, MaxwellThreeDVertexAttributeFormat, MaxwellThreeDVertexNumericalType};

verus! {

/// Component width and count of each encoding that scaled formats use.
pub open spec fn spec_scaled_layout(widths: u8) -> Option<(VertexComponentWidth, VertexComponentCount)> {
    match widths {
        0x1d => Some((VertexComponentWidth::Bits8, VertexComponentCount::One)),
        0x18 => Some((VertexComponentWidth::Bits8, VertexComponentCount::Two)),
        0x13 => Some((VertexComponentWidth::Bits8, VertexComponentCount::Three)),
        0x0a => Some((VertexComponentWidth::Bits8, VertexComponentCount::Four)),
        0x1b => Some((VertexComponentWidth::Bits16, VertexComponentCount::One)),
        0x0f => Some((VertexComponentWidth::Bits16, VertexComponentCount::Two)),
        0x05 => Some((VertexComponentWidth::Bits16, VertexComponentCount::Three)),
        0x03 => Some((VertexComponentWidth::Bits16, VertexComponentCount::Four)),
        0x12 => Some((VertexComponentWidth::Bits32, VertexComponentCount::One)),
        0x04 => Some((VertexComponentWidth::Bits32, VertexComponentCount::Two)),
        0x02 => Some((VertexComponentWidth::Bits32, VertexComponentCount::Three)),
        0x01 => Some((VertexComponentWidth::Bits32, VertexComponentCount::Four)),
        _ => None,
    }
}

#[verifier::when_used_as_spec(spec_scaled_layout)]
pub fn scaled_layout(widths: u8) -> (r: Option<(VertexComponentWidth, VertexComponentCount)>)
    ensures
        r == spec_scaled_layout(widths),
{
    match widths {
        0x1d => Some((VertexComponentWidth::Bits8, VertexComponentCount::One)),
        0x18 => Some((VertexComponentWidth::Bits8, VertexComponentCount::Two)),
        0x13 => Some((VertexComponentWidth::Bits8, VertexComponentCount::Three)),
        0x0a => Some((VertexComponentWidth::Bits8, VertexComponentCount::Four)),
        0x1b => Some((VertexComponentWidth::Bits16, VertexComponentCount::One)),
        0x0f => Some((VertexComponentWidth::Bits16, VertexComponentCount::Two)),
        0x05 => Some((VertexComponentWidth::Bits16, VertexComponentCount::Three)),
        0x03 => Some((VertexComponentWidth::Bits16, VertexComponentCount::Four)),
        0x12 => Some((VertexComponentWidth::Bits32, VertexComponentCount::One)),
        0x04 => Some((VertexComponentWidth::Bits32, VertexComponentCount::Two)),
        0x02 => Some((VertexComponentWidth::Bits32, VertexComponentCount::Three)),
        0x01 => Some((VertexComponentWidth::Bits32, VertexComponentCount::Four)),
        _ => None,
    }
}

/// Host-independent format with exactly the components of an encoding, if there is one.
pub open spec fn spec_exact_vertex_format(widths: u8, numerical: MaxwellThreeDVertexNumericalType) -> Option<VertexFormat> {
    match numerical {
        MaxwellThreeDVertexNumericalType::Float => match widths {
            0x01 => Some(VertexFormat::Float32x4),
            0x02 => Some(VertexFormat::Float32x3),
            0x04 => Some(VertexFormat::Float32x2),
            0x12 => Some(VertexFormat::Float32),
            0x03 => Some(VertexFormat::Float16x4),
            0x0f => Some(VertexFormat::Float16x2),
            _ => None,
        },
        MaxwellThreeDVertexNumericalType::SignedInteger => match widths {
            0x01 => Some(VertexFormat::Sint32x4),
            0x02 => Some(VertexFormat::Sint32x3),
            0x04 => Some(VertexFormat::Sint32x2),
            0x12 => Some(VertexFormat::Sint32),
            0x03 => Some(VertexFormat::Sint16x4),
            0x0f => Some(VertexFormat::Sint16x2),
            0x0a => Some(VertexFormat::Sint8x4),
            0x18 => Some(VertexFormat::Sint8x2),
            _ => None,
        },
        MaxwellThreeDVertexNumericalType::UnsignedInteger => match widths {
            0x01 => Some(VertexFormat::Uint32x4),
            0x02 => Some(VertexFormat::Uint32x3),
            0x04 => Some(VertexFormat::Uint32x2),
            0x12 => Some(VertexFormat::Uint32),
            0x03 => Some(VertexFormat::Uint16x4),
            0x0f => Some(VertexFormat::Uint16x2),
            0x0a => Some(VertexFormat::Uint8x4),
            0x18 => Some(VertexFormat::Uint8x2),
            _ => None,
        },
        MaxwellThreeDVertexNumericalType::SignedNormalized => match widths {
            0x03 => Some(VertexFormat::Snorm16x4),
            0x0f => Some(VertexFormat::Snorm16x2),
            0x0a => Some(VertexFormat::Snorm8x4),
            0x18 => Some(VertexFormat::Snorm8x2),
            _ => None,
        },
        MaxwellThreeDVertexNumericalType::UnsignedNormalized => match widths {
            0x03 => Some(VertexFormat::Unorm16x4),
            0x0f => Some(VertexFormat::Unorm16x2),
            0x0a => Some(VertexFormat::Unorm8x4),
            0x18 => Some(VertexFormat::Unorm8x2),
            0x30 => Some(VertexFormat::Unorm10_10_10_2),
            _ => None,
        },
        MaxwellThreeDVertexNumericalType::UnsignedScaled => match scaled_layout(widths) {
            Some((width, components)) => Some(VertexFormat::Uscaled { width, components }),
            None => None,
        },
        MaxwellThreeDVertexNumericalType::SignedScaled => match scaled_layout(widths) {
            Some((width, components)) => Some(VertexFormat::Sscaled { width, components }),
            None => None,
        },
    }
}

#[verifier::when_used_as_spec(spec_exact_vertex_format)]
pub fn exact_vertex_format(widths: u8, numerical: MaxwellThreeDVertexNumericalType) -> (r: Option<VertexFormat>)
    ensures
        r == spec_exact_vertex_format(widths, numerical),
{
    match numerical {
        MaxwellThreeDVertexNumericalType::Float => match widths {
            0x01 => Some(VertexFormat::Float32x4),
            0x02 => Some(VertexFormat::Float32x3),
            0x04 => Some(VertexFormat::Float32x2),
            0x12 => Some(VertexFormat::Float32),
            0x03 => Some(VertexFormat::Float16x4),
            0x0f => Some(VertexFormat::Float16x2),
            _ => None,
        },
        MaxwellThreeDVertexNumericalType::SignedInteger => match widths {
            0x01 => Some(VertexFormat::Sint32x4),
            0x02 => Some(VertexFormat::Sint32x3),
            0x04 => Some(VertexFormat::Sint32x2),
            0x12 => Some(VertexFormat::Sint32),
            0x03 => Some(VertexFormat::Sint16x4),
            0x0f => Some(VertexFormat::Sint16x2),
            0x0a => Some(VertexFormat::Sint8x4),
            0x18 => Some(VertexFormat::Sint8x2),
            _ => None,
        },
        MaxwellThreeDVertexNumericalType::UnsignedInteger => match widths {
            0x01 => Some(VertexFormat::Uint32x4),
            0x02 => Some(VertexFormat::Uint32x3),
            0x04 => Some(VertexFormat::Uint32x2),
            0x12 => Some(VertexFormat::Uint32),
            0x03 => Some(VertexFormat::Uint16x4),
            0x0f => Some(VertexFormat::Uint16x2),
            0x0a => Some(VertexFormat::Uint8x4),
            0x18 => Some(VertexFormat::Uint8x2),
            _ => None,
        },
        MaxwellThreeDVertexNumericalType::SignedNormalized => match widths {
            0x03 => Some(VertexFormat::Snorm16x4),
            0x0f => Some(VertexFormat::Snorm16x2),
            0x0a => Some(VertexFormat::Snorm8x4),
            0x18 => Some(VertexFormat::Snorm8x2),
            _ => None,
        },
        MaxwellThreeDVertexNumericalType::UnsignedNormalized => match widths {
            0x03 => Some(VertexFormat::Unorm16x4),
            0x0f => Some(VertexFormat::Unorm16x2),
            0x0a => Some(VertexFormat::Unorm8x4),
            0x18 => Some(VertexFormat::Unorm8x2),
            0x30 => Some(VertexFormat::Unorm10_10_10_2),
            _ => None,
        },
        MaxwellThreeDVertexNumericalType::UnsignedScaled => match scaled_layout(widths) {
            Some((width, components)) => Some(VertexFormat::Uscaled { width, components }),
            None => None,
        },
        MaxwellThreeDVertexNumericalType::SignedScaled => match scaled_layout(widths) {
            Some((width, components)) => Some(VertexFormat::Sscaled { width, components }),
            None => None,
        },
    }
}

/// Different encodings never share a format, so a format determines the encoding it
/// came from.
pub proof fn law_vertex_format_determines_encoding(
    widths: u8,
    numerical: MaxwellThreeDVertexNumericalType,
    other_widths: u8,
    other_numerical: MaxwellThreeDVertexNumericalType,
)
    requires
        exact_vertex_format(widths, numerical) is Some,
        exact_vertex_format(widths, numerical) == exact_vertex_format(
            other_widths,
            other_numerical,
        ),
    ensures
        widths == other_widths,
        numerical == other_numerical,
{
}

/// Format of one vertex attribute. Undefined encodings, exchanged components and
/// encodings without an exact format are refused.
pub open spec fn spec_neutral_vertex_format(attribute: u8, format: MaxwellThreeDVertexAttributeFormat) -> Result<VertexFormat, MaxwellThreeDLoweringError> {
    match (format.component_widths(), format.numerical_type()) {
        (Some(component_widths), Some(numerical_type)) => {
            if format.swap_red_blue() {
                Err(
                    MaxwellThreeDLoweringError::UnsupportedVertexAttributeFormat {
                        attribute,
                        component_widths,
                        numerical_type,
                        swap_red_blue: true,
                    },
                )
            } else {
                match exact_vertex_format(component_widths.raw(), numerical_type) {
                    Some(vertex) => Ok(vertex),
                    None => Err(
                        MaxwellThreeDLoweringError::UnsupportedVertexAttributeFormat {
                            attribute,
                            component_widths,
                            numerical_type,
                            swap_red_blue: false,
                        },
                    ),
                }
            }
        },
        _ => Err(MaxwellThreeDLoweringError::IncompleteDraw("SET_VERTEX_ATTRIBUTE_A")),
    }
}

#[verifier::when_used_as_spec(spec_neutral_vertex_format)]
pub fn neutral_vertex_format(attribute: u8, format: MaxwellThreeDVertexAttributeFormat) -> (r: Result<VertexFormat, MaxwellThreeDLoweringError>)
    ensures
        r == spec_neutral_vertex_format(attribute, format),
{
    match (format.component_widths(), format.numerical_type()) {
        (Some(component_widths), Some(numerical_type)) => {
            if format.swap_red_blue() {
                Err(
                    MaxwellThreeDLoweringError::UnsupportedVertexAttributeFormat {
                        attribute,
                        component_widths,
                        numerical_type,
                        swap_red_blue: true,
                    },
                )
            } else {
                match exact_vertex_format(component_widths.raw(), numerical_type) {
                    Some(vertex) => Ok(vertex),
                    None => Err(
                        MaxwellThreeDLoweringError::UnsupportedVertexAttributeFormat {
                            attribute,
                            component_widths,
                            numerical_type,
                            swap_red_blue: false,
                        },
                    ),
                }
            }
        },
        _ => Err(MaxwellThreeDLoweringError::IncompleteDraw("SET_VERTEX_ATTRIBUTE_A")),
    }
}

/// Topology of an open primitive sequence. The instance mode plays no part; sequences
/// that continue another are refused.
pub open spec fn spec_primitive_topology(begin: MaxwellThreeDBegin) -> Result<PrimitiveTopology, MaxwellThreeDLoweringError> {
    if begin.preserve_primitive_id() {
        Err(MaxwellThreeDLoweringError::UnsupportedPrimitiveIdContinuation)
    } else if begin.split_mode() != 0 {
        Err(MaxwellThreeDLoweringError::UnsupportedPrimitiveSplitMode(begin.split_mode()))
    } else {
        match begin.topology() {
            0 => Ok(PrimitiveTopology::Points),
            1 => Ok(PrimitiveTopology::Lines),
            3 => Ok(PrimitiveTopology::LineStrip),
            4 => Ok(PrimitiveTopology::Triangles),
            5 => Ok(PrimitiveTopology::TriangleStrip),
            6 => Ok(PrimitiveTopology::TriangleFan),
            14 => Ok(PrimitiveTopology::Patches),
            topology => Err(MaxwellThreeDLoweringError::UnsupportedTopology(topology)),
        }
    }
}

#[verifier::when_used_as_spec(spec_primitive_topology)]
pub fn primitive_topology(begin: MaxwellThreeDBegin) -> (r: Result<PrimitiveTopology, MaxwellThreeDLoweringError>)
    ensures
        r == spec_primitive_topology(begin),
{
    if begin.preserve_primitive_id() {
        Err(MaxwellThreeDLoweringError::UnsupportedPrimitiveIdContinuation)
    } else if begin.split_mode() != 0 {
        Err(MaxwellThreeDLoweringError::UnsupportedPrimitiveSplitMode(begin.split_mode()))
    } else {
        match begin.topology() {
            0 => Ok(PrimitiveTopology::Points),
            1 => Ok(PrimitiveTopology::Lines),
            3 => Ok(PrimitiveTopology::LineStrip),
            4 => Ok(PrimitiveTopology::Triangles),
            5 => Ok(PrimitiveTopology::TriangleStrip),
            6 => Ok(PrimitiveTopology::TriangleFan),
            14 => Ok(PrimitiveTopology::Patches),
            topology => Err(MaxwellThreeDLoweringError::UnsupportedTopology(topology)),
        }
    }
}

/// Instance index of a draw: the sum, where it fits.
pub open spec fn spec_neutral_first_instance(base: u32, relative: u32) -> Result<
    u32,
    MaxwellThreeDLoweringError,
> {
    if base + relative <= u32::MAX {
        Ok((base + relative) as u32)
    } else {
        Err(MaxwellThreeDLoweringError::InstanceIndexOverflow { base, relative })
    }
}

#[verifier::when_used_as_spec(spec_neutral_first_instance)]
pub fn neutral_first_instance(base: u32, relative: u32) -> (r: Result<
    u32,
    MaxwellThreeDLoweringError,
>)
    ensures
        r == spec_neutral_first_instance(base, relative),
{
    match base.checked_add(relative) {
        Some(sum) => Ok(sum),
        None => Err(MaxwellThreeDLoweringError::InstanceIndexOverflow { base, relative }),
    }
}

/// Arguments of a draw of the vertex array: one instance, at the base plus the relative
/// instance index.
pub open spec fn spec_draw_arguments(state: &MaxwellThreeDState, vertex_count: u32) -> Result<DrawArguments, MaxwellThreeDLoweringError> {
    if vertex_count == 0 {
        Err(MaxwellThreeDLoweringError::EmptyDraw)
    } else {
        match state.vertex_input.vertex_array_start.value {
            None => Err(MaxwellThreeDLoweringError::IncompleteDraw("VERTEX_ARRAY_START")),
            Some(first_vertex) => match neutral_first_instance(
                match state.vertex_input.global_base_instance_index.value {
                    Some(base) => base,
                    None => 0,
                },
                state.vertex_input.instance_index,
            ) {
                Err(error) => Err(error),
                Ok(first_instance) => Ok(
                    DrawArguments { first_vertex, vertex_count, first_instance, instance_count: 1 },
                ),
            },
        }
    }
}

#[verifier::when_used_as_spec(spec_draw_arguments)]
pub fn draw_arguments(state: &MaxwellThreeDState, vertex_count: u32) -> (r: Result<DrawArguments, MaxwellThreeDLoweringError>)
    ensures
        r == spec_draw_arguments(state, vertex_count),
{
    if vertex_count == 0 {
        Err(MaxwellThreeDLoweringError::EmptyDraw)
    } else {
        match state.vertex_input.vertex_array_start.value {
            None => Err(MaxwellThreeDLoweringError::IncompleteDraw("VERTEX_ARRAY_START")),
            Some(first_vertex) => match neutral_first_instance(
                match state.vertex_input.global_base_instance_index.value {
                    Some(base) => base,
                    None => 0,
                },
                state.vertex_input.instance_index,
            ) {
                Err(error) => Err(error),
                Ok(first_instance) => Ok(
                    DrawArguments { first_vertex, vertex_count, first_instance, instance_count: 1 },
                ),
            },
        }
    }
}

/// Depth comparison of the same meaning.
pub open spec fn spec_neutral_depth_compare(compare: MaxwellThreeDCompareOp) -> DepthCompareOperation {
    match compare {
        MaxwellThreeDCompareOp::Never => DepthCompareOperation::Never,
        MaxwellThreeDCompareOp::Less => DepthCompareOperation::Less,
        MaxwellThreeDCompareOp::Equal => DepthCompareOperation::Equal,
        MaxwellThreeDCompareOp::LessEqual => DepthCompareOperation::LessEqual,
        MaxwellThreeDCompareOp::Greater => DepthCompareOperation::Greater,
        MaxwellThreeDCompareOp::NotEqual => DepthCompareOperation::NotEqual,
        MaxwellThreeDCompareOp::GreaterEqual => DepthCompareOperation::GreaterEqual,
        MaxwellThreeDCompareOp::Always => DepthCompareOperation::Always,
    }
}

#[verifier::when_used_as_spec(spec_neutral_depth_compare)]
pub fn neutral_depth_compare(compare: MaxwellThreeDCompareOp) -> (r: DepthCompareOperation)
    ensures
        r == spec_neutral_depth_compare(compare),
{
    match compare {
        MaxwellThreeDCompareOp::Never => DepthCompareOperation::Never,
        MaxwellThreeDCompareOp::Less => DepthCompareOperation::Less,
        MaxwellThreeDCompareOp::Equal => DepthCompareOperation::Equal,
        MaxwellThreeDCompareOp::LessEqual => DepthCompareOperation::LessEqual,
        MaxwellThreeDCompareOp::Greater => DepthCompareOperation::Greater,
        MaxwellThreeDCompareOp::NotEqual => DepthCompareOperation::NotEqual,
        MaxwellThreeDCompareOp::GreaterEqual => DepthCompareOperation::GreaterEqual,
        MaxwellThreeDCompareOp::Always => DepthCompareOperation::Always,
    }
}

/// Alpha comparison of the same meaning.
pub open spec fn spec_neutral_alpha_compare(compare: MaxwellThreeDCompareOp) -> AlphaCompareOperation {
    match compare {
        MaxwellThreeDCompareOp::Never => AlphaCompareOperation::Never,
        MaxwellThreeDCompareOp::Less => AlphaCompareOperation::Less,
        MaxwellThreeDCompareOp::Equal => AlphaCompareOperation::Equal,
        MaxwellThreeDCompareOp::LessEqual => AlphaCompareOperation::LessEqual,
        MaxwellThreeDCompareOp::Greater => AlphaCompareOperation::Greater,
        MaxwellThreeDCompareOp::NotEqual => AlphaCompareOperation::NotEqual,
        MaxwellThreeDCompareOp::GreaterEqual => AlphaCompareOperation::GreaterEqual,
        MaxwellThreeDCompareOp::Always => AlphaCompareOperation::Always,
    }
}

#[verifier::when_used_as_spec(spec_neutral_alpha_compare)]
pub fn neutral_alpha_compare(compare: MaxwellThreeDCompareOp) -> (r: AlphaCompareOperation)
    ensures
        r == spec_neutral_alpha_compare(compare),
{
    match compare {
        MaxwellThreeDCompareOp::Never => AlphaCompareOperation::Never,
        MaxwellThreeDCompareOp::Less => AlphaCompareOperation::Less,
        MaxwellThreeDCompareOp::Equal => AlphaCompareOperation::Equal,
        MaxwellThreeDCompareOp::LessEqual => AlphaCompareOperation::LessEqual,
        MaxwellThreeDCompareOp::Greater => AlphaCompareOperation::Greater,
        MaxwellThreeDCompareOp::NotEqual => AlphaCompareOperation::NotEqual,
        MaxwellThreeDCompareOp::GreaterEqual => AlphaCompareOperation::GreaterEqual,
        MaxwellThreeDCompareOp::Always => AlphaCompareOperation::Always,
    }
}

/// Value of a boolean register, if it is known.
pub open spec fn spec_boolean_register(state: &MaxwellThreeDState, register: MaxwellThreeDFixedFunctionRegister) -> Option<bool> {
    match state.fixed_function.value_of(register) {
        Some(MaxwellThreeDFixedFunctionValue::Boolean(value)) => Some(value),
        _ => None,
    }
}

#[verifier::when_used_as_spec(spec_boolean_register)]
pub fn boolean_register(state: &MaxwellThreeDState, register: MaxwellThreeDFixedFunctionRegister) -> (r: Option<bool>)
    ensures
        r == spec_boolean_register(state, register),
{
    match state.fixed_function.value_of(register) {
        Some(MaxwellThreeDFixedFunctionValue::Boolean(value)) => Some(value),
        _ => None,
    }
}

/// Enables of the depth and stencil tests, as far as they are known.
pub open spec fn spec_draw_depth_stencil_enable_state(state: &MaxwellThreeDState) -> (Option<bool>, Option<bool>) {
    (
        boolean_register(state, MaxwellThreeDFixedFunctionRegister::DepthTestEnable),
        boolean_register(state, MaxwellThreeDFixedFunctionRegister::StencilTestEnable),
    )
}

#[verifier::when_used_as_spec(spec_draw_depth_stencil_enable_state)]
pub fn draw_depth_stencil_enable_state(state: &MaxwellThreeDState) -> (r: (Option<bool>, Option<bool>))
    ensures
        r == spec_draw_depth_stencil_enable_state(state),
{
    (
        boolean_register(state, MaxwellThreeDFixedFunctionRegister::DepthTestEnable),
        boolean_register(state, MaxwellThreeDFixedFunctionRegister::StencilTestEnable),
    )
}

/// Aspects that a draw may observe: all but those whose test is known to be disabled.
pub open spec fn spec_draw_depth_stencil_aspects(state: &MaxwellThreeDState) -> (bool, bool) {
    (
        draw_depth_stencil_enable_state(state).0 != Some(false),
        draw_depth_stencil_enable_state(state).1 != Some(false),
    )
}

#[verifier::when_used_as_spec(spec_draw_depth_stencil_aspects)]
pub fn draw_depth_stencil_aspects(state: &MaxwellThreeDState) -> (r: (bool, bool))
    ensures
        r == spec_draw_depth_stencil_aspects(state),
{
    (
        draw_depth_stencil_enable_state(state).0 != Some(false),
        draw_depth_stencil_enable_state(state).1 != Some(false),
    )
}

/// Whether a configured depth/stencil target is attached.
pub open spec fn spec_draw_depth_stencil_attachment_required(state: &MaxwellThreeDState) -> bool {
    draw_depth_stencil_aspects(state).0 || draw_depth_stencil_aspects(state).1
}

#[verifier::when_used_as_spec(spec_draw_depth_stencil_attachment_required)]
pub fn draw_depth_stencil_attachment_required(state: &MaxwellThreeDState) -> (r: bool)
    ensures
        r == spec_draw_depth_stencil_attachment_required(state),
{
    draw_depth_stencil_aspects(state).0 || draw_depth_stencil_aspects(state).1
}

/// Whether a draw is known to refer to depth/stencil memory.
pub open spec fn spec_draw_depth_stencil_resource_required(state: &MaxwellThreeDState) -> bool {
    draw_depth_stencil_enable_state(state).0 == Some(true) || draw_depth_stencil_enable_state(
        state,
    ).1 == Some(true)
}

#[verifier::when_used_as_spec(spec_draw_depth_stencil_resource_required)]
pub fn draw_depth_stencil_resource_required(state: &MaxwellThreeDState) -> (r: bool)
    ensures
        r == spec_draw_depth_stencil_resource_required(state),
{
    draw_depth_stencil_enable_state(state).0 == Some(true) || draw_depth_stencil_enable_state(
        state,
    ).1 == Some(true)
}

/// Whether the depth/stencil target is attached, given what is known of its tests.
pub open spec fn spec_depth_stencil_attachment_required(
    depth_test_enabled: Option<bool>,
    stencil_test_enabled: Option<bool>,
) -> bool {
    !(depth_test_enabled == Some(false) && stencil_test_enabled == Some(false))
}

#[must_use]
#[verifier::when_used_as_spec(spec_depth_stencil_attachment_required)]
pub fn depth_stencil_attachment_required(
    depth_test_enabled: Option<bool>,
    stencil_test_enabled: Option<bool>,
) -> (r: bool)
    ensures
        r == spec_depth_stencil_attachment_required(depth_test_enabled, stencil_test_enabled),
{
    !matches!((depth_test_enabled, stencil_test_enabled), (Some(false), Some(false)))
}

/// A depth/stencil target is left out of a draw exactly when both tests are known to
/// be disabled, and a draw that is known to refer to it always has it attached.
pub proof fn law_depth_stencil_attachment(state: &MaxwellThreeDState)
    ensures
        draw_depth_stencil_attachment_required(state) == depth_stencil_attachment_required(
            draw_depth_stencil_enable_state(state).0,
            draw_depth_stencil_enable_state(state).1,
        ),
        draw_depth_stencil_resource_required(state) ==> draw_depth_stencil_attachment_required(
            state,
        ),
{
}

/// Depth test of a draw with a depth attachment. A disabled test needs nothing else.
pub open spec fn spec_draw_depth_state(state: &MaxwellThreeDState) -> Result<DepthState, MaxwellThreeDLoweringError> {
    match boolean_register(state, MaxwellThreeDFixedFunctionRegister::DepthTestEnable) {
        None => Err(MaxwellThreeDLoweringError::IncompleteDraw("SET_DEPTH_TEST")),
        Some(false) => Ok(DepthState::Disabled),
        Some(true) => match boolean_register(
            state,
            MaxwellThreeDFixedFunctionRegister::DepthWriteEnable,
        ) {
            None => Err(MaxwellThreeDLoweringError::IncompleteDraw("SET_DEPTH_WRITE")),
            Some(write_enabled) => match state.fixed_function.value_of(
                MaxwellThreeDFixedFunctionRegister::DepthCompare,
            ) {
                Some(MaxwellThreeDFixedFunctionValue::Compare(compare)) => Ok(
                    DepthState::Enabled { write_enabled, compare: neutral_depth_compare(compare) },
                ),
                _ => Err(MaxwellThreeDLoweringError::IncompleteDraw("SET_DEPTH_FUNC")),
            },
        },
    }
}

#[verifier::when_used_as_spec(spec_draw_depth_state)]
pub fn draw_depth_state(state: &MaxwellThreeDState) -> (r: Result<DepthState, MaxwellThreeDLoweringError>)
    ensures
        r == spec_draw_depth_state(state),
{
    match boolean_register(state, MaxwellThreeDFixedFunctionRegister::DepthTestEnable) {
        None => Err(MaxwellThreeDLoweringError::IncompleteDraw("SET_DEPTH_TEST")),
        Some(false) => Ok(DepthState::Disabled),
        Some(true) => match boolean_register(
            state,
            MaxwellThreeDFixedFunctionRegister::DepthWriteEnable,
        ) {
            None => Err(MaxwellThreeDLoweringError::IncompleteDraw("SET_DEPTH_WRITE")),
            Some(write_enabled) => match state.fixed_function.value_of(
                MaxwellThreeDFixedFunctionRegister::DepthCompare,
            ) {
                Some(MaxwellThreeDFixedFunctionValue::Compare(compare)) => Ok(
                    DepthState::Enabled { write_enabled, compare: neutral_depth_compare(compare) },
                ),
                _ => Err(MaxwellThreeDLoweringError::IncompleteDraw("SET_DEPTH_FUNC")),
            },
        },
    }
}

/// An enabled stencil test is refused.
pub open spec fn spec_validate_draw_stencil_state(state: &MaxwellThreeDState) -> Result<(), MaxwellThreeDLoweringError> {
    if boolean_register(state, MaxwellThreeDFixedFunctionRegister::StencilTestEnable) == Some(true) {
        Err(
            MaxwellThreeDLoweringError::UnsupportedStencilTestSemantics {
                two_sided: boolean_register(
                    state,
                    MaxwellThreeDFixedFunctionRegister::TwoSidedStencilTestEnable,
                ) == Some(true),
            },
        )
    } else {
        Ok(())
    }
}

#[verifier::when_used_as_spec(spec_validate_draw_stencil_state)]
pub fn validate_draw_stencil_state(state: &MaxwellThreeDState) -> (r: Result<(), MaxwellThreeDLoweringError>)
    ensures
        r == spec_validate_draw_stencil_state(state),
{
    if boolean_register(state, MaxwellThreeDFixedFunctionRegister::StencilTestEnable) == Some(true) {
        Err(
            MaxwellThreeDLoweringError::UnsupportedStencilTestSemantics {
                two_sided: boolean_register(
                    state,
                    MaxwellThreeDFixedFunctionRegister::TwoSidedStencilTestEnable,
                ) == Some(true),
            },
        )
    } else {
        Ok(())
    }
}

/// Alpha test of a draw; a test that is not enabled needs nothing else.
pub open spec fn spec_draw_alpha_test_state(state: &MaxwellThreeDState) -> Result<Option<AlphaTest>, MaxwellThreeDLoweringError> {
    if boolean_register(state, MaxwellThreeDFixedFunctionRegister::AlphaTestEnable) != Some(true) {
        Ok(None)
    } else {
        match state.fixed_function.value_of(
            MaxwellThreeDFixedFunctionRegister::AlphaTestReference,
        ) {
            None => Err(MaxwellThreeDLoweringError::IncompleteAlphaTestState("reference")),
            Some(MaxwellThreeDFixedFunctionValue::FloatBits(reference)) => match state.fixed_function.value_of(
                MaxwellThreeDFixedFunctionRegister::AlphaTestFunction,
            ) {
                None => Err(MaxwellThreeDLoweringError::IncompleteAlphaTestState("function")),
                Some(MaxwellThreeDFixedFunctionValue::Compare(function)) => Ok(
                    Some(
                        AlphaTest {
                            comparison: neutral_alpha_compare(function),
                            reference_bits: reference.get(),
                        },
                    ),
                ),
                Some(_) => Err(
                    MaxwellThreeDLoweringError::ContradictoryState {
                        reason: "alpha-test function register has the wrong typed value",
                    },
                ),
            },
            Some(_) => Err(
                MaxwellThreeDLoweringError::ContradictoryState {
                    reason: "alpha-test reference register has the wrong typed value",
                },
            ),
        }
    }
}

#[verifier::when_used_as_spec(spec_draw_alpha_test_state)]
pub fn draw_alpha_test_state(state: &MaxwellThreeDState) -> (r: Result<Option<AlphaTest>, MaxwellThreeDLoweringError>)
    ensures
        r == spec_draw_alpha_test_state(state),
{
    if boolean_register(state, MaxwellThreeDFixedFunctionRegister::AlphaTestEnable) != Some(true) {
        Ok(None)
    } else {
        match state.fixed_function.value_of(
            MaxwellThreeDFixedFunctionRegister::AlphaTestReference,
        ) {
            None => Err(MaxwellThreeDLoweringError::IncompleteAlphaTestState("reference")),
            Some(MaxwellThreeDFixedFunctionValue::FloatBits(reference)) => match state.fixed_function.value_of(
                MaxwellThreeDFixedFunctionRegister::AlphaTestFunction,
            ) {
                None => Err(MaxwellThreeDLoweringError::IncompleteAlphaTestState("function")),
                Some(MaxwellThreeDFixedFunctionValue::Compare(function)) => Ok(
                    Some(
                        AlphaTest {
                            comparison: neutral_alpha_compare(function),
                            reference_bits: reference.get(),
                        },
                    ),
                ),
                Some(_) => Err(
                    MaxwellThreeDLoweringError::ContradictoryState {
                        reason: "alpha-test function register has the wrong typed value",
                    },
                ),
            },
            Some(_) => Err(
                MaxwellThreeDLoweringError::ContradictoryState {
                    reason: "alpha-test reference register has the wrong typed value",
                },
            ),
        }
    }
}

/// Viewport transform of a draw: that of the first viewport where scaling and
/// offsetting is enabled, which needs all of its registers and must not be refused.
pub open spec fn spec_draw_viewport_transform(
    state: &MaxwellThreeDState,
    refusals: &NeutralRefusals,
) -> Result<Option<ViewportTransform>, MaxwellThreeDLoweringError> {
    let viewport = state.fixed_function.viewport[0];
    if state.fixed_function.value_of(
        MaxwellThreeDFixedFunctionRegister::ViewportScaleOffsetEnable,
    ) != Some(
        MaxwellThreeDFixedFunctionValue::ViewportScaleOffsetEnable(
            MaxwellThreeDViewportScaleOffsetEnable::Enabled,
        ),
    ) {
        Ok(None)
    } else {
        match (viewport.scale[0].value, viewport.scale[1].value, viewport.scale[2].value) {
            (Some(scale_x), Some(scale_y), Some(scale_z)) => match (
                viewport.offset[0].value,
                viewport.offset[1].value,
                viewport.offset[2].value,
            ) {
                (Some(offset_x), Some(offset_y), Some(offset_z)) => match (
                    viewport.clip_min_z.value,
                    viewport.clip_max_z.value,
                ) {
                    (None, _) => Err(
                        MaxwellThreeDLoweringError::IncompleteDraw("SET_VIEWPORT_CLIP_MIN_Z(0)"),
                    ),
                    (_, None) => Err(
                        MaxwellThreeDLoweringError::IncompleteDraw("SET_VIEWPORT_CLIP_MAX_Z(0)"),
                    ),
                    (Some(clip_min_z), Some(clip_max_z)) => match refusals.reason(
                        NeutralConstruction::ViewportTransform,
                    ) {
                        Some(reason) => Err(MaxwellThreeDLoweringError::Command(reason)),
                        None => Ok(
                            Some(
                                ViewportTransform {
                                    scale_x: scale_x.get(),
                                    scale_y: scale_y.get(),
                                    scale_z: scale_z.get(),
                                    offset_x: offset_x.get(),
                                    offset_y: offset_y.get(),
                                    offset_z: offset_z.get(),
                                    clip_min_z: clip_min_z.get(),
                                    clip_max_z: clip_max_z.get(),
                                },
                            ),
                        ),
                    },
                },
                _ => Err(
                    MaxwellThreeDLoweringError::IncompleteDraw("SET_VIEWPORT_OFFSET_X/Y/Z(0)"),
                ),
            },
            _ => Err(MaxwellThreeDLoweringError::IncompleteDraw("SET_VIEWPORT_SCALE_X/Y/Z(0)")),
        }
    }
}

#[verifier::when_used_as_spec(spec_draw_viewport_transform)]
pub fn draw_viewport_transform(state: &MaxwellThreeDState, refusals: &NeutralRefusals) -> (r: Result<
    Option<ViewportTransform>,
    MaxwellThreeDLoweringError,
>)
    ensures
        r == spec_draw_viewport_transform(state, refusals),
{
    if !matches!(
        state.fixed_function.value_of(
            MaxwellThreeDFixedFunctionRegister::ViewportScaleOffsetEnable,
        ),
        Some(
            MaxwellThreeDFixedFunctionValue::ViewportScaleOffsetEnable(
                MaxwellThreeDViewportScaleOffsetEnable::Enabled,
            ),
        )
    ) {
        return Ok(None);
    }
    let viewport = &state.fixed_function.viewport[0];
    let (scale_x, scale_y, scale_z) = match (
        viewport.scale[0].value,
        viewport.scale[1].value,
        viewport.scale[2].value,
    ) {
        (Some(x), Some(y), Some(z)) => (x, y, z),
        _ => {
            return Err(MaxwellThreeDLoweringError::IncompleteDraw("SET_VIEWPORT_SCALE_X/Y/Z(0)"));
        },
    };
    let (offset_x, offset_y, offset_z) = match (
        viewport.offset[0].value,
        viewport.offset[1].value,
        viewport.offset[2].value,
    ) {
        (Some(x), Some(y), Some(z)) => (x, y, z),
        _ => {
            return Err(MaxwellThreeDLoweringError::IncompleteDraw("SET_VIEWPORT_OFFSET_X/Y/Z(0)"));
        },
    };
    let clip_min_z = match viewport.clip_min_z.value {
        Some(bits) => bits,
        None => {
            return Err(MaxwellThreeDLoweringError::IncompleteDraw("SET_VIEWPORT_CLIP_MIN_Z(0)"));
        },
    };
    let clip_max_z = match viewport.clip_max_z.value {
        Some(bits) => bits,
        None => {
            return Err(MaxwellThreeDLoweringError::IncompleteDraw("SET_VIEWPORT_CLIP_MAX_Z(0)"));
        },
    };
    if let Some(reason) = refusals.reason(NeutralConstruction::ViewportTransform) {
        return Err(MaxwellThreeDLoweringError::Command(reason));
    }
    Ok(
        Some(
            ViewportTransform {
                scale_x: scale_x.get(),
                scale_y: scale_y.get(),
                scale_z: scale_z.get(),
                offset_x: offset_x.get(),
                offset_y: offset_y.get(),
                offset_z: offset_z.get(),
                clip_min_z: clip_min_z.get(),
                clip_max_z: clip_max_z.get(),
            },
        ),
    )
}

} // verus!
