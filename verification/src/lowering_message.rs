//! Messages of lowering errors.

use vstd::prelude::*;
use crate::bindings::MaxwellThreeDShaderStage;
use crate::coverage::{MaxwellThreeDHybridAntiAliasCentroid, MaxwellThreeDTirControl};
use crate::lowering_error::MaxwellThreeDLoweringError;
use crate::message::{append_parts, MessagePart};
use crate::neutral::ShaderStage;
use crate::output::{MaxwellThreeDIteratedBlend, MaxwellThreeDLogicOp, MaxwellThreeDPixelShaderClampRange, MaxwellThreeDProvokingVertex, MaxwellThreeDShadeMode, MaxwellThreeDViewportSwizzleComponent};
use crate::raster::{MaxwellThreeDEdgeFlag, MaxwellThreeDFillViaTriangleMode, MaxwellThreeDPointCenterMode, MaxwellThreeDViewportPixelCenter};
use crate::render_enable::MaxwellThreeDRenderEnableMode;
use crate::resource::{MaxwellThreeDResourceRole, MaxwellThreeDTextureDimension};
use crate::vertex::MaxwellThreeDVertexNumericalType;

verus! {

/// Text of a truth value.
pub open spec fn spec_truth(value: bool) -> &'static str {
    if value {
        "true"
    } else {
        "false"
    }
}

#[verifier::when_used_as_spec(spec_truth)]
pub fn truth(value: bool) -> (r: &'static str)
    ensures
        r == spec_truth(value),
{
    if value {
        "true"
    } else {
        "false"
    }
}

/// Name of a switch.
pub open spec fn spec_enable_name(value: bool) -> &'static str {
    if value {
        "Enabled"
    } else {
        "Disabled"
    }
}

#[verifier::when_used_as_spec(spec_enable_name)]
pub fn enable_name(value: bool) -> (r: &'static str)
    ensures
        r == spec_enable_name(value),
{
    if value {
        "Enabled"
    } else {
        "Disabled"
    }
}

/// Name of a render-enable mode.
pub open spec fn spec_render_enable_mode_name(value: MaxwellThreeDRenderEnableMode) -> &'static str {
    match value {
        MaxwellThreeDRenderEnableMode::Disabled => "Disabled",
        MaxwellThreeDRenderEnableMode::Enabled => "Enabled",
        MaxwellThreeDRenderEnableMode::Conditional => "Conditional",
        MaxwellThreeDRenderEnableMode::RenderIfEqual => "RenderIfEqual",
        MaxwellThreeDRenderEnableMode::RenderIfNotEqual => "RenderIfNotEqual",
    }
}

#[verifier::when_used_as_spec(spec_render_enable_mode_name)]
pub fn render_enable_mode_name(value: MaxwellThreeDRenderEnableMode) -> (r: &'static str)
    ensures
        r == spec_render_enable_mode_name(value),
{
    match value {
        MaxwellThreeDRenderEnableMode::Disabled => "Disabled",
        MaxwellThreeDRenderEnableMode::Enabled => "Enabled",
        MaxwellThreeDRenderEnableMode::Conditional => "Conditional",
        MaxwellThreeDRenderEnableMode::RenderIfEqual => "RenderIfEqual",
        MaxwellThreeDRenderEnableMode::RenderIfNotEqual => "RenderIfNotEqual",
    }
}

/// Name of a stage of the host-independent pipeline.
pub open spec fn spec_stage_name(value: ShaderStage) -> &'static str {
    match value {
        ShaderStage::Vertex => "Vertex",
        ShaderStage::TessellationControl => "TessellationControl",
        ShaderStage::TessellationEvaluation => "TessellationEvaluation",
        ShaderStage::Geometry => "Geometry",
        ShaderStage::Fragment => "Fragment",
        ShaderStage::Compute => "Compute",
    }
}

#[verifier::when_used_as_spec(spec_stage_name)]
pub fn stage_name(value: ShaderStage) -> (r: &'static str)
    ensures
        r == spec_stage_name(value),
{
    match value {
        ShaderStage::Vertex => "Vertex",
        ShaderStage::TessellationControl => "TessellationControl",
        ShaderStage::TessellationEvaluation => "TessellationEvaluation",
        ShaderStage::Geometry => "Geometry",
        ShaderStage::Fragment => "Fragment",
        ShaderStage::Compute => "Compute",
    }
}

/// Name of a shader stage.
pub open spec fn spec_shader_stage_name(value: MaxwellThreeDShaderStage) -> &'static str {
    match value {
        MaxwellThreeDShaderStage::VertexCullBeforeFetch => "VertexCullBeforeFetch",
        MaxwellThreeDShaderStage::Vertex => "Vertex",
        MaxwellThreeDShaderStage::TessellationInit => "TessellationInit",
        MaxwellThreeDShaderStage::Tessellation => "Tessellation",
        MaxwellThreeDShaderStage::Geometry => "Geometry",
        MaxwellThreeDShaderStage::Pixel => "Pixel",
    }
}

#[verifier::when_used_as_spec(spec_shader_stage_name)]
pub fn shader_stage_name(value: MaxwellThreeDShaderStage) -> (r: &'static str)
    ensures
        r == spec_shader_stage_name(value),
{
    match value {
        MaxwellThreeDShaderStage::VertexCullBeforeFetch => "VertexCullBeforeFetch",
        MaxwellThreeDShaderStage::Vertex => "Vertex",
        MaxwellThreeDShaderStage::TessellationInit => "TessellationInit",
        MaxwellThreeDShaderStage::Tessellation => "Tessellation",
        MaxwellThreeDShaderStage::Geometry => "Geometry",
        MaxwellThreeDShaderStage::Pixel => "Pixel",
    }
}

/// Name of a centroid selection.
pub open spec fn spec_centroid_name(value: MaxwellThreeDHybridAntiAliasCentroid) -> &'static str {
    match value {
        MaxwellThreeDHybridAntiAliasCentroid::PerFragment => "PerFragment",
        MaxwellThreeDHybridAntiAliasCentroid::PerPass => "PerPass",
    }
}

#[verifier::when_used_as_spec(spec_centroid_name)]
pub fn centroid_name(value: MaxwellThreeDHybridAntiAliasCentroid) -> (r: &'static str)
    ensures
        r == spec_centroid_name(value),
{
    match value {
        MaxwellThreeDHybridAntiAliasCentroid::PerFragment => "PerFragment",
        MaxwellThreeDHybridAntiAliasCentroid::PerPass => "PerPass",
    }
}

/// Name of a pixel-center convention.
pub open spec fn spec_pixel_center_name(value: MaxwellThreeDViewportPixelCenter) -> &'static str {
    match value {
        MaxwellThreeDViewportPixelCenter::HalfIntegers => "HalfIntegers",
        MaxwellThreeDViewportPixelCenter::Integers => "Integers",
    }
}

#[verifier::when_used_as_spec(spec_pixel_center_name)]
pub fn pixel_center_name(value: MaxwellThreeDViewportPixelCenter) -> (r: &'static str)
    ensures
        r == spec_pixel_center_name(value),
{
    match value {
        MaxwellThreeDViewportPixelCenter::HalfIntegers => "HalfIntegers",
        MaxwellThreeDViewportPixelCenter::Integers => "Integers",
    }
}

/// Name of a swizzle component.
pub open spec fn spec_swizzle_name(value: MaxwellThreeDViewportSwizzleComponent) -> &'static str {
    match value {
        MaxwellThreeDViewportSwizzleComponent::PositiveX => "PositiveX",
        MaxwellThreeDViewportSwizzleComponent::NegativeX => "NegativeX",
        MaxwellThreeDViewportSwizzleComponent::PositiveY => "PositiveY",
        MaxwellThreeDViewportSwizzleComponent::NegativeY => "NegativeY",
        MaxwellThreeDViewportSwizzleComponent::PositiveZ => "PositiveZ",
        MaxwellThreeDViewportSwizzleComponent::NegativeZ => "NegativeZ",
        MaxwellThreeDViewportSwizzleComponent::PositiveW => "PositiveW",
        MaxwellThreeDViewportSwizzleComponent::NegativeW => "NegativeW",
    }
}

#[verifier::when_used_as_spec(spec_swizzle_name)]
pub fn swizzle_name(value: MaxwellThreeDViewportSwizzleComponent) -> (r: &'static str)
    ensures
        r == spec_swizzle_name(value),
{
    match value {
        MaxwellThreeDViewportSwizzleComponent::PositiveX => "PositiveX",
        MaxwellThreeDViewportSwizzleComponent::NegativeX => "NegativeX",
        MaxwellThreeDViewportSwizzleComponent::PositiveY => "PositiveY",
        MaxwellThreeDViewportSwizzleComponent::NegativeY => "NegativeY",
        MaxwellThreeDViewportSwizzleComponent::PositiveZ => "PositiveZ",
        MaxwellThreeDViewportSwizzleComponent::NegativeZ => "NegativeZ",
        MaxwellThreeDViewportSwizzleComponent::PositiveW => "PositiveW",
        MaxwellThreeDViewportSwizzleComponent::NegativeW => "NegativeW",
    }
}

/// Name of a numerical type.
pub open spec fn spec_numerical_name(value: MaxwellThreeDVertexNumericalType) -> &'static str {
    match value {
        MaxwellThreeDVertexNumericalType::SignedNormalized => "SignedNormalized",
        MaxwellThreeDVertexNumericalType::UnsignedNormalized => "UnsignedNormalized",
        MaxwellThreeDVertexNumericalType::SignedInteger => "SignedInteger",
        MaxwellThreeDVertexNumericalType::UnsignedInteger => "UnsignedInteger",
        MaxwellThreeDVertexNumericalType::UnsignedScaled => "UnsignedScaled",
        MaxwellThreeDVertexNumericalType::SignedScaled => "SignedScaled",
        MaxwellThreeDVertexNumericalType::Float => "Float",
    }
}

#[verifier::when_used_as_spec(spec_numerical_name)]
pub fn numerical_name(value: MaxwellThreeDVertexNumericalType) -> (r: &'static str)
    ensures
        r == spec_numerical_name(value),
{
    match value {
        MaxwellThreeDVertexNumericalType::SignedNormalized => "SignedNormalized",
        MaxwellThreeDVertexNumericalType::UnsignedNormalized => "UnsignedNormalized",
        MaxwellThreeDVertexNumericalType::SignedInteger => "SignedInteger",
        MaxwellThreeDVertexNumericalType::UnsignedInteger => "UnsignedInteger",
        MaxwellThreeDVertexNumericalType::UnsignedScaled => "UnsignedScaled",
        MaxwellThreeDVertexNumericalType::SignedScaled => "SignedScaled",
        MaxwellThreeDVertexNumericalType::Float => "Float",
    }
}

/// Name of a point-center convention.
pub open spec fn spec_point_center_name(value: MaxwellThreeDPointCenterMode) -> &'static str {
    match value {
        MaxwellThreeDPointCenterMode::OpenGl => "OpenGl",
        MaxwellThreeDPointCenterMode::Direct3D => "Direct3D",
    }
}

#[verifier::when_used_as_spec(spec_point_center_name)]
pub fn point_center_name(value: MaxwellThreeDPointCenterMode) -> (r: &'static str)
    ensures
        r == spec_point_center_name(value),
{
    match value {
        MaxwellThreeDPointCenterMode::OpenGl => "OpenGl",
        MaxwellThreeDPointCenterMode::Direct3D => "Direct3D",
    }
}

/// Name of a fill mode.
pub open spec fn spec_fill_name(value: MaxwellThreeDFillViaTriangleMode) -> &'static str {
    match value {
        MaxwellThreeDFillViaTriangleMode::Disabled => "Disabled",
        MaxwellThreeDFillViaTriangleMode::FillAll => "FillAll",
        MaxwellThreeDFillViaTriangleMode::FillBoundingBox => "FillBoundingBox",
    }
}

#[verifier::when_used_as_spec(spec_fill_name)]
pub fn fill_name(value: MaxwellThreeDFillViaTriangleMode) -> (r: &'static str)
    ensures
        r == spec_fill_name(value),
{
    match value {
        MaxwellThreeDFillViaTriangleMode::Disabled => "Disabled",
        MaxwellThreeDFillViaTriangleMode::FillAll => "FillAll",
        MaxwellThreeDFillViaTriangleMode::FillBoundingBox => "FillBoundingBox",
    }
}

/// Name of an edge flag.
pub open spec fn spec_edge_flag_name(value: MaxwellThreeDEdgeFlag) -> &'static str {
    match value {
        MaxwellThreeDEdgeFlag::Disabled => "Disabled",
        MaxwellThreeDEdgeFlag::Enabled => "Enabled",
    }
}

#[verifier::when_used_as_spec(spec_edge_flag_name)]
pub fn edge_flag_name(value: MaxwellThreeDEdgeFlag) -> (r: &'static str)
    ensures
        r == spec_edge_flag_name(value),
{
    match value {
        MaxwellThreeDEdgeFlag::Disabled => "Disabled",
        MaxwellThreeDEdgeFlag::Enabled => "Enabled",
    }
}

/// Name of a shade mode.
pub open spec fn spec_shade_mode_name(value: MaxwellThreeDShadeMode) -> &'static str {
    match value {
        MaxwellThreeDShadeMode::Flat => "Flat",
        MaxwellThreeDShadeMode::Smooth => "Smooth",
    }
}

#[verifier::when_used_as_spec(spec_shade_mode_name)]
pub fn shade_mode_name(value: MaxwellThreeDShadeMode) -> (r: &'static str)
    ensures
        r == spec_shade_mode_name(value),
{
    match value {
        MaxwellThreeDShadeMode::Flat => "Flat",
        MaxwellThreeDShadeMode::Smooth => "Smooth",
    }
}

/// Name of a provoking vertex.
pub open spec fn spec_provoking_vertex_name(value: MaxwellThreeDProvokingVertex) -> &'static str {
    match value {
        MaxwellThreeDProvokingVertex::First => "First",
        MaxwellThreeDProvokingVertex::Last => "Last",
    }
}

#[verifier::when_used_as_spec(spec_provoking_vertex_name)]
pub fn provoking_vertex_name(value: MaxwellThreeDProvokingVertex) -> (r: &'static str)
    ensures
        r == spec_provoking_vertex_name(value),
{
    match value {
        MaxwellThreeDProvokingVertex::First => "First",
        MaxwellThreeDProvokingVertex::Last => "Last",
    }
}

/// Name of a clamp range.
pub open spec fn spec_clamp_range_name(value: MaxwellThreeDPixelShaderClampRange) -> &'static str {
    match value {
        MaxwellThreeDPixelShaderClampRange::ZeroToOne => "ZeroToOne",
        MaxwellThreeDPixelShaderClampRange::MinusOneToOne => "MinusOneToOne",
    }
}

#[verifier::when_used_as_spec(spec_clamp_range_name)]
pub fn clamp_range_name(value: MaxwellThreeDPixelShaderClampRange) -> (r: &'static str)
    ensures
        r == spec_clamp_range_name(value),
{
    match value {
        MaxwellThreeDPixelShaderClampRange::ZeroToOne => "ZeroToOne",
        MaxwellThreeDPixelShaderClampRange::MinusOneToOne => "MinusOneToOne",
    }
}

/// Name of a logic operation.
pub open spec fn spec_logic_op_name(value: MaxwellThreeDLogicOp) -> &'static str {
    match value {
        MaxwellThreeDLogicOp::Clear => "Clear",
        MaxwellThreeDLogicOp::And => "And",
        MaxwellThreeDLogicOp::AndReverse => "AndReverse",
        MaxwellThreeDLogicOp::Copy => "Copy",
        MaxwellThreeDLogicOp::AndInverted => "AndInverted",
        MaxwellThreeDLogicOp::Noop => "Noop",
        MaxwellThreeDLogicOp::Xor => "Xor",
        MaxwellThreeDLogicOp::Or => "Or",
        MaxwellThreeDLogicOp::Nor => "Nor",
        MaxwellThreeDLogicOp::Equiv => "Equiv",
        MaxwellThreeDLogicOp::Invert => "Invert",
        MaxwellThreeDLogicOp::OrReverse => "OrReverse",
        MaxwellThreeDLogicOp::CopyInverted => "CopyInverted",
        MaxwellThreeDLogicOp::OrInverted => "OrInverted",
        MaxwellThreeDLogicOp::Nand => "Nand",
        MaxwellThreeDLogicOp::SetBits => "Set",
    }
}

#[verifier::when_used_as_spec(spec_logic_op_name)]
pub fn logic_op_name(value: MaxwellThreeDLogicOp) -> (r: &'static str)
    ensures
        r == spec_logic_op_name(value),
{
    match value {
        MaxwellThreeDLogicOp::Clear => "Clear",
        MaxwellThreeDLogicOp::And => "And",
        MaxwellThreeDLogicOp::AndReverse => "AndReverse",
        MaxwellThreeDLogicOp::Copy => "Copy",
        MaxwellThreeDLogicOp::AndInverted => "AndInverted",
        MaxwellThreeDLogicOp::Noop => "Noop",
        MaxwellThreeDLogicOp::Xor => "Xor",
        MaxwellThreeDLogicOp::Or => "Or",
        MaxwellThreeDLogicOp::Nor => "Nor",
        MaxwellThreeDLogicOp::Equiv => "Equiv",
        MaxwellThreeDLogicOp::Invert => "Invert",
        MaxwellThreeDLogicOp::OrReverse => "OrReverse",
        MaxwellThreeDLogicOp::CopyInverted => "CopyInverted",
        MaxwellThreeDLogicOp::OrInverted => "OrInverted",
        MaxwellThreeDLogicOp::Nand => "Nand",
        MaxwellThreeDLogicOp::SetBits => "Set",
    }
}

/// Name of a texture dimension.
pub open spec fn spec_dimension_name(value: MaxwellThreeDTextureDimension) -> &'static str {
    match value {
        MaxwellThreeDTextureDimension::Two => "Two",
        MaxwellThreeDTextureDimension::TwoArray => "TwoArray",
    }
}

#[verifier::when_used_as_spec(spec_dimension_name)]
pub fn dimension_name(value: MaxwellThreeDTextureDimension) -> (r: &'static str)
    ensures
        r == spec_dimension_name(value),
{
    match value {
        MaxwellThreeDTextureDimension::Two => "Two",
        MaxwellThreeDTextureDimension::TwoArray => "TwoArray",
    }
}

/// Parts that describe a role.
pub open spec fn spec_role_parts(role: MaxwellThreeDResourceRole) -> Seq<MessagePart> {
    match role {
        MaxwellThreeDResourceRole::VertexStream(stream) => seq![
            MessagePart::Text("VertexStream("),
            MessagePart::Number(stream as u64),
            MessagePart::Text(")"),
        ],
        MaxwellThreeDResourceRole::ColorTarget(target) => seq![
            MessagePart::Text("ColorTarget("),
            MessagePart::Number(target as u64),
            MessagePart::Text(")"),
        ],
        MaxwellThreeDResourceRole::DepthStencilTarget => seq![
            MessagePart::Text("DepthStencilTarget"),
        ],
        MaxwellThreeDResourceRole::ConstantBuffer { group, slot } => seq![
            MessagePart::Text("ConstantBuffer { group: "),
            MessagePart::Number(group as u64),
            MessagePart::Text(", slot: "),
            MessagePart::Number(slot as u64),
            MessagePart::Text(" }"),
        ],
        MaxwellThreeDResourceRole::SampledImage { texture, dimension } => seq![
            MessagePart::Text("SampledImage { texture: MaxwellThreeDTextureReference { group: "),
            MessagePart::Number(texture.group as u64),
            MessagePart::Text(", slot: "),
            MessagePart::Number(texture.slot as u64),
            MessagePart::Text(", byte_offset: "),
            MessagePart::Number(texture.byte_offset as u64),
            MessagePart::Text(" }, dimension: "),
            MessagePart::Text(dimension_name(dimension)),
            MessagePart::Text(" }"),
        ],
        MaxwellThreeDResourceRole::Sampler(texture) => seq![
            MessagePart::Text("Sampler(MaxwellThreeDTextureReference { group: "),
            MessagePart::Number(texture.group as u64),
            MessagePart::Text(", slot: "),
            MessagePart::Number(texture.slot as u64),
            MessagePart::Text(", byte_offset: "),
            MessagePart::Number(texture.byte_offset as u64),
            MessagePart::Text(" })"),
        ],
    }
}

fn role_parts(role: MaxwellThreeDResourceRole) -> (r: Vec<MessagePart>)
    ensures
        r@ == spec_role_parts(role),
{
    match role {
        MaxwellThreeDResourceRole::VertexStream(stream) => vec![
            MessagePart::Text("VertexStream("),
            MessagePart::Number(stream as u64),
            MessagePart::Text(")"),
        ],
        MaxwellThreeDResourceRole::ColorTarget(target) => vec![
            MessagePart::Text("ColorTarget("),
            MessagePart::Number(target as u64),
            MessagePart::Text(")"),
        ],
        MaxwellThreeDResourceRole::DepthStencilTarget => vec![
            MessagePart::Text("DepthStencilTarget"),
        ],
        MaxwellThreeDResourceRole::ConstantBuffer { group, slot } => vec![
            MessagePart::Text("ConstantBuffer { group: "),
            MessagePart::Number(group as u64),
            MessagePart::Text(", slot: "),
            MessagePart::Number(slot as u64),
            MessagePart::Text(" }"),
        ],
        MaxwellThreeDResourceRole::SampledImage { texture, dimension } => vec![
            MessagePart::Text("SampledImage { texture: MaxwellThreeDTextureReference { group: "),
            MessagePart::Number(texture.group as u64),
            MessagePart::Text(", slot: "),
            MessagePart::Number(texture.slot as u64),
            MessagePart::Text(", byte_offset: "),
            MessagePart::Number(texture.byte_offset as u64),
            MessagePart::Text(" }, dimension: "),
            MessagePart::Text(dimension_name(dimension)),
            MessagePart::Text(" }"),
        ],
        MaxwellThreeDResourceRole::Sampler(texture) => vec![
            MessagePart::Text("Sampler(MaxwellThreeDTextureReference { group: "),
            MessagePart::Number(texture.group as u64),
            MessagePart::Text(", slot: "),
            MessagePart::Number(texture.slot as u64),
            MessagePart::Text(", byte_offset: "),
            MessagePart::Number(texture.byte_offset as u64),
            MessagePart::Text(" })"),
        ],
    }
}

/// Parts that describe an optional raster control.
pub open spec fn spec_control_parts(control: Option<MaxwellThreeDTirControl>) -> Seq<MessagePart> {
    match control {
        Some(control) => seq![
            MessagePart::Text("Some(MaxwellThreeDTirControl { z_pass_pixel_count_uses_raster_samples: "),
            MessagePart::Text(truth(control.z_pass_pixel_count_uses_raster_samples)),
            MessagePart::Text(", reduce_coverage: "),
            MessagePart::Text(truth(control.reduce_coverage)),
            MessagePart::Text(", alpha_to_coverage_uses_raster_samples: "),
            MessagePart::Text(truth(control.alpha_to_coverage_uses_raster_samples)),
            MessagePart::Text(" })"),
        ],
        None => seq![
            MessagePart::Text("None"),
        ],
    }
}

fn control_parts(control: Option<MaxwellThreeDTirControl>) -> (r: Vec<MessagePart>)
    ensures
        r@ == spec_control_parts(control),
{
    match control {
        Some(control) => vec![
            MessagePart::Text("Some(MaxwellThreeDTirControl { z_pass_pixel_count_uses_raster_samples: "),
            MessagePart::Text(truth(control.z_pass_pixel_count_uses_raster_samples)),
            MessagePart::Text(", reduce_coverage: "),
            MessagePart::Text(truth(control.reduce_coverage)),
            MessagePart::Text(", alpha_to_coverage_uses_raster_samples: "),
            MessagePart::Text(truth(control.alpha_to_coverage_uses_raster_samples)),
            MessagePart::Text(" })"),
        ],
        None => vec![
            MessagePart::Text("None"),
        ],
    }
}

/// Parts that describe an iterated blend.
pub open spec fn spec_iterated_parts(value: MaxwellThreeDIteratedBlend, pass_count: Option<u8>) -> Seq<MessagePart> {
    match pass_count {
        Some(count) => seq![
            MessagePart::Text(truth(value.color_enabled)),
            MessagePart::Text(" alpha="),
            MessagePart::Text(truth(value.alpha_enabled)),
            MessagePart::Text(" pass-count=Some("),
            MessagePart::Number(count as u64),
            MessagePart::Text(")"),
        ],
        None => seq![
            MessagePart::Text(truth(value.color_enabled)),
            MessagePart::Text(" alpha="),
            MessagePart::Text(truth(value.alpha_enabled)),
            MessagePart::Text(" pass-count=None"),
        ],
    }
}

fn iterated_parts(value: MaxwellThreeDIteratedBlend, pass_count: Option<u8>) -> (r: Vec<MessagePart>)
    ensures
        r@ == spec_iterated_parts(value, pass_count),
{
    match pass_count {
        Some(count) => vec![
            MessagePart::Text(truth(value.color_enabled)),
            MessagePart::Text(" alpha="),
            MessagePart::Text(truth(value.alpha_enabled)),
            MessagePart::Text(" pass-count=Some("),
            MessagePart::Number(count as u64),
            MessagePart::Text(")"),
        ],
        None => vec![
            MessagePart::Text(truth(value.color_enabled)),
            MessagePart::Text(" alpha="),
            MessagePart::Text(truth(value.alpha_enabled)),
            MessagePart::Text(" pass-count=None"),
        ],
    }
}

/// Values in the message of an error about state.
pub open spec fn spec_details_state(error: MaxwellThreeDLoweringError) -> Seq<MessagePart> {
    match error {
        MaxwellThreeDLoweringError::ContradictoryState { reason } => seq![
            MessagePart::Text(reason),
        ],
        MaxwellThreeDLoweringError::UnsupportedRenderEnableMode(mode) => seq![
            MessagePart::Text(render_enable_mode_name(mode)),
        ],
        MaxwellThreeDLoweringError::VisibleCallLimitExceeded { stage, required, limit } => seq![
            MessagePart::Text(stage_name(stage)),
            MessagePart::Text(" required="),
            MessagePart::Number(required as u64),
            MessagePart::Text(" limit="),
            MessagePart::Number(limit as u64),
        ],
        MaxwellThreeDLoweringError::UnsupportedPixelShaderInterlockSemantics(_, name) => seq![
            MessagePart::Text(name),
        ],
        MaxwellThreeDLoweringError::UnsupportedGlobalBaseVertexIndex(value) => seq![
            MessagePart::Number(value as u64),
        ],
        MaxwellThreeDLoweringError::UnsupportedCoverageToColorSemantics(value) => seq![
            MessagePart::Number(value.color_target as u64),
        ],
        MaxwellThreeDLoweringError::UnsupportedAlphaToCoverageOverrideSemantics(value) => seq![
            MessagePart::Text(truth(value.qualify_by_anti_alias_enable)),
            MessagePart::Text(" qualify-by-ps-sample-mask="),
            MessagePart::Text(truth(value.qualify_by_pixel_shader_sample_mask)),
        ],
        MaxwellThreeDLoweringError::UnsupportedHybridAntiAliasSemantics(value) => seq![
            MessagePart::Number(value.passes as u64),
            MessagePart::Text(" centroid="),
            MessagePart::Text(centroid_name(value.centroid)),
            MessagePart::Text(" passes-extended="),
            MessagePart::Text(truth(value.passes_extended)),
        ],
        MaxwellThreeDLoweringError::UnsupportedSampleLocationsSemantics { group, value } => seq![
            MessagePart::Number(group as u64),
            MessagePart::Text(" raw=0x"),
            MessagePart::Hexadecimal { value: value.raw() as u64, width: 8 },
        ],
        MaxwellThreeDLoweringError::UnsupportedRenderTargetIndexOffsetSemantics(value) => seq![
            MessagePart::Text(enable_name(value.enabled())),
        ],
        MaxwellThreeDLoweringError::UnsupportedRenderTargetLayerSemantics(value, name) => seq![
            MessagePart::Number(value.layer() as u64),
            MessagePart::Text(" control="),
            MessagePart::Text(name),
        ],
        MaxwellThreeDLoweringError::UnsupportedShaderLocalMemorySemantics { default_size_per_warp } => seq![
            MessagePart::Number(default_size_per_warp.bytes() as u64),
        ],
        _ => Seq::empty(),
    }
}

fn details_state(error: MaxwellThreeDLoweringError) -> (r: Vec<MessagePart>)
    ensures
        r@ == spec_details_state(error),
{
    match error {
        MaxwellThreeDLoweringError::ContradictoryState { reason } => vec![
            MessagePart::Text(reason),
        ],
        MaxwellThreeDLoweringError::UnsupportedRenderEnableMode(mode) => vec![
            MessagePart::Text(render_enable_mode_name(mode)),
        ],
        MaxwellThreeDLoweringError::VisibleCallLimitExceeded { stage, required, limit } => vec![
            MessagePart::Text(stage_name(stage)),
            MessagePart::Text(" required="),
            MessagePart::Number(required as u64),
            MessagePart::Text(" limit="),
            MessagePart::Number(limit as u64),
        ],
        MaxwellThreeDLoweringError::UnsupportedPixelShaderInterlockSemantics(_, name) => vec![
            MessagePart::Text(name),
        ],
        MaxwellThreeDLoweringError::UnsupportedGlobalBaseVertexIndex(value) => vec![
            MessagePart::Number(value as u64),
        ],
        MaxwellThreeDLoweringError::UnsupportedCoverageToColorSemantics(value) => vec![
            MessagePart::Number(value.color_target as u64),
        ],
        MaxwellThreeDLoweringError::UnsupportedAlphaToCoverageOverrideSemantics(value) => vec![
            MessagePart::Text(truth(value.qualify_by_anti_alias_enable)),
            MessagePart::Text(" qualify-by-ps-sample-mask="),
            MessagePart::Text(truth(value.qualify_by_pixel_shader_sample_mask)),
        ],
        MaxwellThreeDLoweringError::UnsupportedHybridAntiAliasSemantics(value) => vec![
            MessagePart::Number(value.passes as u64),
            MessagePart::Text(" centroid="),
            MessagePart::Text(centroid_name(value.centroid)),
            MessagePart::Text(" passes-extended="),
            MessagePart::Text(truth(value.passes_extended)),
        ],
        MaxwellThreeDLoweringError::UnsupportedSampleLocationsSemantics { group, value } => vec![
            MessagePart::Number(group as u64),
            MessagePart::Text(" raw=0x"),
            MessagePart::Hexadecimal { value: value.raw() as u64, width: 8 },
        ],
        MaxwellThreeDLoweringError::UnsupportedRenderTargetIndexOffsetSemantics(value) => vec![
            MessagePart::Text(enable_name(value.enabled())),
        ],
        MaxwellThreeDLoweringError::UnsupportedRenderTargetLayerSemantics(value, name) => vec![
            MessagePart::Number(value.layer() as u64),
            MessagePart::Text(" control="),
            MessagePart::Text(name),
        ],
        MaxwellThreeDLoweringError::UnsupportedShaderLocalMemorySemantics { default_size_per_warp } => vec![
            MessagePart::Number(default_size_per_warp.bytes() as u64),
        ],
        _ => Vec::new(),
    }
}

/// Values in the message of an error about state or formats.
pub open spec fn spec_details_format(error: MaxwellThreeDLoweringError) -> Seq<MessagePart> {
    match error {
        MaxwellThreeDLoweringError::UnsupportedViewportPixelCenterSemantics(center) => seq![
            MessagePart::Text(pixel_center_name(center)),
        ],
        MaxwellThreeDLoweringError::UnsupportedViewportCoordinateSwizzleSemantics { viewport, swizzle } => seq![
            MessagePart::Number(viewport as u64),
            MessagePart::Text(" components=["),
            MessagePart::Text(swizzle_name(swizzle.components[0])),
            MessagePart::Text(", "),
            MessagePart::Text(swizzle_name(swizzle.components[1])),
            MessagePart::Text(", "),
            MessagePart::Text(swizzle_name(swizzle.components[2])),
            MessagePart::Text(", "),
            MessagePart::Text(swizzle_name(swizzle.components[3])),
            MessagePart::Text("]"),
        ],
        MaxwellThreeDLoweringError::UnsupportedStencilTestSemantics { two_sided } => seq![
            MessagePart::Text(truth(two_sided)),
        ],
        MaxwellThreeDLoweringError::UnsupportedLineStippleSemantics { factor, pattern } => seq![
            MessagePart::Number(factor as u64),
            MessagePart::Text(" pattern=0x"),
            MessagePart::Hexadecimal { value: pattern as u64, width: 4 },
        ],
        MaxwellThreeDLoweringError::UnsupportedVertexAttributeFormat { attribute, component_widths, numerical_type, swap_red_blue } => seq![
            MessagePart::Number(attribute as u64),
            MessagePart::Text(" component-widths=0x"),
            MessagePart::Hexadecimal { value: component_widths.raw() as u64, width: 2 },
            MessagePart::Text(" numerical-type="),
            MessagePart::Text(numerical_name(numerical_type)),
            MessagePart::Text(" swap-red-blue="),
            MessagePart::Text(truth(swap_red_blue)),
        ],
        MaxwellThreeDLoweringError::UnsupportedVertexInstanceDivisor { stream, divisor } => seq![
            MessagePart::Number(stream as u64),
            MessagePart::Text(" divisor="),
            MessagePart::Number(divisor as u64),
        ],
        MaxwellThreeDLoweringError::InvalidPatchSize(size) => seq![
            MessagePart::Number(size.control_points() as u64),
        ],
        MaxwellThreeDLoweringError::UnsupportedPatchSemantics(size) => seq![
            MessagePart::Number(size.control_points() as u64),
        ],
        MaxwellThreeDLoweringError::UnsupportedPointSpriteCoordinatesSemantics(_, coordinates) => seq![
            MessagePart::Hexadecimal {
                value: coordinates.generated_texture_mask as u64,
                width: 3,
            },
            MessagePart::Text(" r-mode="),
            MessagePart::Text(coordinates.r_mode),
            MessagePart::Text(" origin="),
            MessagePart::Text(coordinates.origin),
        ],
        MaxwellThreeDLoweringError::UnsupportedAttributePointSizeSemantics { slot } => seq![
            MessagePart::Number(slot as u64),
        ],
        MaxwellThreeDLoweringError::UnsupportedPointCenterSemantics(mode) => seq![
            MessagePart::Text(point_center_name(mode)),
        ],
        MaxwellThreeDLoweringError::UnsupportedFillViaTriangleSemantics(mode) => seq![
            MessagePart::Text(fill_name(mode)),
        ],
        _ => spec_details_state(error),
    }
}

fn details_format(error: MaxwellThreeDLoweringError) -> (r: Vec<MessagePart>)
    ensures
        r@ == spec_details_format(error),
{
    match error {
        MaxwellThreeDLoweringError::UnsupportedViewportPixelCenterSemantics(center) => vec![
            MessagePart::Text(pixel_center_name(center)),
        ],
        MaxwellThreeDLoweringError::UnsupportedViewportCoordinateSwizzleSemantics { viewport, swizzle } => vec![
            MessagePart::Number(viewport as u64),
            MessagePart::Text(" components=["),
            MessagePart::Text(swizzle_name(swizzle.components[0])),
            MessagePart::Text(", "),
            MessagePart::Text(swizzle_name(swizzle.components[1])),
            MessagePart::Text(", "),
            MessagePart::Text(swizzle_name(swizzle.components[2])),
            MessagePart::Text(", "),
            MessagePart::Text(swizzle_name(swizzle.components[3])),
            MessagePart::Text("]"),
        ],
        MaxwellThreeDLoweringError::UnsupportedStencilTestSemantics { two_sided } => vec![
            MessagePart::Text(truth(two_sided)),
        ],
        MaxwellThreeDLoweringError::UnsupportedLineStippleSemantics { factor, pattern } => vec![
            MessagePart::Number(factor as u64),
            MessagePart::Text(" pattern=0x"),
            MessagePart::Hexadecimal { value: pattern as u64, width: 4 },
        ],
        MaxwellThreeDLoweringError::UnsupportedVertexAttributeFormat { attribute, component_widths, numerical_type, swap_red_blue } => vec![
            MessagePart::Number(attribute as u64),
            MessagePart::Text(" component-widths=0x"),
            MessagePart::Hexadecimal { value: component_widths.raw() as u64, width: 2 },
            MessagePart::Text(" numerical-type="),
            MessagePart::Text(numerical_name(numerical_type)),
            MessagePart::Text(" swap-red-blue="),
            MessagePart::Text(truth(swap_red_blue)),
        ],
        MaxwellThreeDLoweringError::UnsupportedVertexInstanceDivisor { stream, divisor } => vec![
            MessagePart::Number(stream as u64),
            MessagePart::Text(" divisor="),
            MessagePart::Number(divisor as u64),
        ],
        MaxwellThreeDLoweringError::InvalidPatchSize(size) => vec![
            MessagePart::Number(size.control_points() as u64),
        ],
        MaxwellThreeDLoweringError::UnsupportedPatchSemantics(size) => vec![
            MessagePart::Number(size.control_points() as u64),
        ],
        MaxwellThreeDLoweringError::UnsupportedPointSpriteCoordinatesSemantics(_, coordinates) => vec![
            MessagePart::Hexadecimal {
                value: coordinates.generated_texture_mask as u64,
                width: 3,
            },
            MessagePart::Text(" r-mode="),
            MessagePart::Text(coordinates.r_mode),
            MessagePart::Text(" origin="),
            MessagePart::Text(coordinates.origin),
        ],
        MaxwellThreeDLoweringError::UnsupportedAttributePointSizeSemantics { slot } => vec![
            MessagePart::Number(slot as u64),
        ],
        MaxwellThreeDLoweringError::UnsupportedPointCenterSemantics(mode) => vec![
            MessagePart::Text(point_center_name(mode)),
        ],
        MaxwellThreeDLoweringError::UnsupportedFillViaTriangleSemantics(mode) => vec![
            MessagePart::Text(fill_name(mode)),
        ],
        _ => details_state(error),
    }
}

/// Values in the message of an error about state, formats or output.
pub open spec fn spec_details_output(error: MaxwellThreeDLoweringError) -> Seq<MessagePart> {
    match error {
        MaxwellThreeDLoweringError::UnsupportedFillRectangleDraw(reason) => seq![
            MessagePart::Text(reason),
        ],
        MaxwellThreeDLoweringError::UnsupportedEdgeFlagSemantics(flag) => seq![
            MessagePart::Text(edge_flag_name(flag)),
        ],
        MaxwellThreeDLoweringError::UnsupportedShadeModeSemantics(mode) => seq![
            MessagePart::Text(shade_mode_name(mode)),
        ],
        MaxwellThreeDLoweringError::UnsupportedProvokingVertexSemantics(vertex) => seq![
            MessagePart::Text(provoking_vertex_name(vertex)),
        ],
        MaxwellThreeDLoweringError::UnsupportedPixelShaderSaturateSemantics { output, range } => seq![
            MessagePart::Number(output as u64),
            MessagePart::Text(" range="),
            MessagePart::Text(clamp_range_name(range)),
        ],
        MaxwellThreeDLoweringError::UnsupportedLogicOpSemantics(function) => seq![
            MessagePart::Text(logic_op_name(function)),
            MessagePart::Text(" is not represented by the neutral render pipeline"),
        ],
        MaxwellThreeDLoweringError::IncompleteColorWriteState { target, mask_register } => seq![
            MessagePart::Number(target as u64),
            MessagePart::Text(" selects unprogrammed SET_CT_WRITE("),
            MessagePart::Number(mask_register as u64),
            MessagePart::Text(")"),
        ],
        MaxwellThreeDLoweringError::UnsupportedColorWriteMask { target, mask_register, mask } => seq![
            MessagePart::Number(target as u64),
            MessagePart::Text(" mask-register="),
            MessagePart::Number(mask_register as u64),
            MessagePart::Text(" mask=0x"),
            MessagePart::Hexadecimal { value: mask.raw() as u64, width: 4 },
        ],
        MaxwellThreeDLoweringError::IncompleteAlphaTestState(field) => seq![
            MessagePart::Text(field),
        ],
        MaxwellThreeDLoweringError::CompressedDepthImportRequired { kind } => seq![
            MessagePart::Hexadecimal { value: kind as u64, width: 2 },
        ],
        MaxwellThreeDLoweringError::CompressedColorImportRequired { target } => seq![
            MessagePart::Number(target as u64),
        ],
        MaxwellThreeDLoweringError::TranslatedShaderMemoryConfigurationMismatch {
            stage,
            configured_bytes,
            required_bytes,
            ..
        } => seq![
            MessagePart::Text(stage_name(stage)),
            MessagePart::Text(" configured-bytes="),
            MessagePart::Number(configured_bytes as u64),
            MessagePart::Text(" translated-for-bytes="),
            MessagePart::Number(required_bytes as u64),
        ],
        _ => spec_details_format(error),
    }
}

fn details_output(error: MaxwellThreeDLoweringError) -> (r: Vec<MessagePart>)
    ensures
        r@ == spec_details_output(error),
{
    match error {
        MaxwellThreeDLoweringError::UnsupportedFillRectangleDraw(reason) => vec![
            MessagePart::Text(reason),
        ],
        MaxwellThreeDLoweringError::UnsupportedEdgeFlagSemantics(flag) => vec![
            MessagePart::Text(edge_flag_name(flag)),
        ],
        MaxwellThreeDLoweringError::UnsupportedShadeModeSemantics(mode) => vec![
            MessagePart::Text(shade_mode_name(mode)),
        ],
        MaxwellThreeDLoweringError::UnsupportedProvokingVertexSemantics(vertex) => vec![
            MessagePart::Text(provoking_vertex_name(vertex)),
        ],
        MaxwellThreeDLoweringError::UnsupportedPixelShaderSaturateSemantics { output, range } => vec![
            MessagePart::Number(output as u64),
            MessagePart::Text(" range="),
            MessagePart::Text(clamp_range_name(range)),
        ],
        MaxwellThreeDLoweringError::UnsupportedLogicOpSemantics(function) => vec![
            MessagePart::Text(logic_op_name(function)),
            MessagePart::Text(" is not represented by the neutral render pipeline"),
        ],
        MaxwellThreeDLoweringError::IncompleteColorWriteState { target, mask_register } => vec![
            MessagePart::Number(target as u64),
            MessagePart::Text(" selects unprogrammed SET_CT_WRITE("),
            MessagePart::Number(mask_register as u64),
            MessagePart::Text(")"),
        ],
        MaxwellThreeDLoweringError::UnsupportedColorWriteMask { target, mask_register, mask } => vec![
            MessagePart::Number(target as u64),
            MessagePart::Text(" mask-register="),
            MessagePart::Number(mask_register as u64),
            MessagePart::Text(" mask=0x"),
            MessagePart::Hexadecimal { value: mask.raw() as u64, width: 4 },
        ],
        MaxwellThreeDLoweringError::IncompleteAlphaTestState(field) => vec![
            MessagePart::Text(field),
        ],
        MaxwellThreeDLoweringError::CompressedDepthImportRequired { kind } => vec![
            MessagePart::Hexadecimal { value: kind as u64, width: 2 },
        ],
        MaxwellThreeDLoweringError::CompressedColorImportRequired { target } => vec![
            MessagePart::Number(target as u64),
        ],
        MaxwellThreeDLoweringError::TranslatedShaderMemoryConfigurationMismatch {
            stage,
            configured_bytes,
            required_bytes,
            ..
        } => vec![
            MessagePart::Text(stage_name(stage)),
            MessagePart::Text(" configured-bytes="),
            MessagePart::Number(configured_bytes as u64),
            MessagePart::Text(" translated-for-bytes="),
            MessagePart::Number(required_bytes as u64),
        ],
        _ => details_format(error),
    }
}

/// Values in the message of an error about state, formats, output or resources.
pub open spec fn spec_details_resource(error: MaxwellThreeDLoweringError) -> Seq<MessagePart> {
    match error {
        MaxwellThreeDLoweringError::UnsupportedShaderStage(stage) => seq![
            MessagePart::Text(shader_stage_name(stage)),
        ],
        MaxwellThreeDLoweringError::AllocationDescriptionChanged { allocation } => seq![
            MessagePart::Number(allocation.0 as u64),
        ],
        MaxwellThreeDLoweringError::IncompleteClear(field) => seq![
            MessagePart::Text(field),
        ],
        MaxwellThreeDLoweringError::PartialColorClearUnsupported { mask } => seq![
            MessagePart::Hexadecimal { value: mask as u64, width: 1 },
        ],
        MaxwellThreeDLoweringError::IncompleteDraw(field) => seq![
            MessagePart::Text(field),
        ],
        MaxwellThreeDLoweringError::Command(refusal) => seq![
            MessagePart::Text(refusal),
        ],
        MaxwellThreeDLoweringError::Capability(refusal) => seq![
            MessagePart::Text(refusal),
        ],
        MaxwellThreeDLoweringError::ColorTargetRouteUnprogrammed { slot, target } => seq![
            MessagePart::Number(slot as u64),
            MessagePart::Text(" to unprogrammed color target "),
            MessagePart::Number(target as u64),
        ],
        MaxwellThreeDLoweringError::ColorTargetRouteDisabled { slot, target } => seq![
            MessagePart::Number(slot as u64),
            MessagePart::Text(" to disabled color target "),
            MessagePart::Number(target as u64),
        ],
        MaxwellThreeDLoweringError::ColorTargetRouteIncomplete { slot, target } => seq![
            MessagePart::Number(slot as u64),
            MessagePart::Text(" to incomplete color target "),
            MessagePart::Number(target as u64),
        ],
        MaxwellThreeDLoweringError::DuplicateColorTargetRoute { target } => seq![
            MessagePart::Number(target as u64),
        ],
        MaxwellThreeDLoweringError::UnsupportedPrimitiveSplitMode(mode) => seq![
            MessagePart::Number(mode as u64),
        ],
        MaxwellThreeDLoweringError::InstanceIndexOverflow { base, relative } => seq![
            MessagePart::Number(base as u64),
            MessagePart::Text(" relative="),
            MessagePart::Number(relative as u64),
        ],
        MaxwellThreeDLoweringError::UnsupportedTopology(topology) => seq![
            MessagePart::Hexadecimal { value: topology as u64, width: 1 },
        ],
        _ => spec_details_output(error),
    }
}

fn details_resource(error: MaxwellThreeDLoweringError) -> (r: Vec<MessagePart>)
    ensures
        r@ == spec_details_resource(error),
{
    match error {
        MaxwellThreeDLoweringError::UnsupportedShaderStage(stage) => vec![
            MessagePart::Text(shader_stage_name(stage)),
        ],
        MaxwellThreeDLoweringError::AllocationDescriptionChanged { allocation } => vec![
            MessagePart::Number(allocation.0 as u64),
        ],
        MaxwellThreeDLoweringError::IncompleteClear(field) => vec![
            MessagePart::Text(field),
        ],
        MaxwellThreeDLoweringError::PartialColorClearUnsupported { mask } => vec![
            MessagePart::Hexadecimal { value: mask as u64, width: 1 },
        ],
        MaxwellThreeDLoweringError::IncompleteDraw(field) => vec![
            MessagePart::Text(field),
        ],
        MaxwellThreeDLoweringError::Command(refusal) => vec![
            MessagePart::Text(refusal),
        ],
        MaxwellThreeDLoweringError::Capability(refusal) => vec![
            MessagePart::Text(refusal),
        ],
        MaxwellThreeDLoweringError::ColorTargetRouteUnprogrammed { slot, target } => vec![
            MessagePart::Number(slot as u64),
            MessagePart::Text(" to unprogrammed color target "),
            MessagePart::Number(target as u64),
        ],
        MaxwellThreeDLoweringError::ColorTargetRouteDisabled { slot, target } => vec![
            MessagePart::Number(slot as u64),
            MessagePart::Text(" to disabled color target "),
            MessagePart::Number(target as u64),
        ],
        MaxwellThreeDLoweringError::ColorTargetRouteIncomplete { slot, target } => vec![
            MessagePart::Number(slot as u64),
            MessagePart::Text(" to incomplete color target "),
            MessagePart::Number(target as u64),
        ],
        MaxwellThreeDLoweringError::DuplicateColorTargetRoute { target } => vec![
            MessagePart::Number(target as u64),
        ],
        MaxwellThreeDLoweringError::UnsupportedPrimitiveSplitMode(mode) => vec![
            MessagePart::Number(mode as u64),
        ],
        MaxwellThreeDLoweringError::InstanceIndexOverflow { base, relative } => vec![
            MessagePart::Number(base as u64),
            MessagePart::Text(" relative="),
            MessagePart::Number(relative as u64),
        ],
        MaxwellThreeDLoweringError::UnsupportedTopology(topology) => vec![
            MessagePart::Hexadecimal { value: topology as u64, width: 1 },
        ],
        _ => details_output(error),
    }
}

/// Values in the message of an error, with the text between them.
pub open spec fn spec_details(error: MaxwellThreeDLoweringError) -> Seq<MessagePart> {
    match error {
        MaxwellThreeDLoweringError::UnsupportedTirSemantics { control } => spec_control_parts(control),
        MaxwellThreeDLoweringError::UnsupportedIteratedBlendSemantics { value, pass_count } => spec_iterated_parts(
            value,
            pass_count,
        ),
        MaxwellThreeDLoweringError::UnsupportedBlendSemantics { target } => match target {
            Some(target) => seq![MessagePart::Number(target as u64)],
            None => Seq::empty(),
        },
        MaxwellThreeDLoweringError::IncompleteBlendState { target, field } => match target {
            Some(target) => seq![
                MessagePart::Number(target as u64),
                MessagePart::Text(" missing="),
                MessagePart::Text(field),
            ],
            None => seq![MessagePart::Text(field)],
        },
        MaxwellThreeDLoweringError::InvalidShaderResourceUse { role } => spec_role_parts(role),
        MaxwellThreeDLoweringError::MissingResolvedResource { role } => spec_role_parts(role),
        MaxwellThreeDLoweringError::InvalidResolvedView { role } => spec_role_parts(role),
        MaxwellThreeDLoweringError::AliasedDrawResources { first, second } => spec_role_parts(first).push(
            MessagePart::Text(" second="),
        ) + spec_role_parts(second),
        _ => spec_details_resource(error),
    }
}

fn details(error: MaxwellThreeDLoweringError) -> (r: Vec<MessagePart>)
    ensures
        r@ == spec_details(error),
{
    match error {
        MaxwellThreeDLoweringError::UnsupportedTirSemantics { control } => control_parts(control),
        MaxwellThreeDLoweringError::UnsupportedIteratedBlendSemantics { value, pass_count } => iterated_parts(
            value,
            pass_count,
        ),
        MaxwellThreeDLoweringError::UnsupportedBlendSemantics { target } => match target {
            Some(target) => vec![MessagePart::Number(target as u64)],
            None => Vec::new(),
        },
        MaxwellThreeDLoweringError::IncompleteBlendState { target, field } => match target {
            Some(target) => vec![
                MessagePart::Number(target as u64),
                MessagePart::Text(" missing="),
                MessagePart::Text(field),
            ],
            None => vec![MessagePart::Text(field)],
        },
        MaxwellThreeDLoweringError::InvalidShaderResourceUse { role } => role_parts(role),
        MaxwellThreeDLoweringError::MissingResolvedResource { role } => role_parts(role),
        MaxwellThreeDLoweringError::InvalidResolvedView { role } => role_parts(role),
        MaxwellThreeDLoweringError::AliasedDrawResources { first, second } => {
            let mut parts: Vec<MessagePart> = role_parts(first);
            parts.push(MessagePart::Text(" second="));
            let mut rest: Vec<MessagePart> = role_parts(second);
            parts.append(&mut rest);
            parts
        },
        _ => details_resource(error),
    }
}

impl MaxwellThreeDLoweringError {
    /// Text of the message up to the first value in it.
    pub open spec fn spec_head(self) -> &'static str {
        match self {
            MaxwellThreeDLoweringError::ContradictoryState { .. } => "contradictory Maxwell 3D state: ",
            MaxwellThreeDLoweringError::TriggerStateMismatch => "3D trigger does not match its immutable state snapshot",
            MaxwellThreeDLoweringError::UnsupportedRenderEnableMode(..) => "MAXWELL_B render-enable mode has no verified neutral execution: mode=",
            MaxwellThreeDLoweringError::UnsupportedConditionalLoadConstantBufferSemantics => "MAXWELL_B conditional constant-buffer load has no verified execution semantics",
            MaxwellThreeDLoweringError::VisibleCallLimitExceeded { .. } => "translated Maxwell shader exceeds SET_API_VISIBLE_CALL_LIMIT: stage=",
            MaxwellThreeDLoweringError::UnsupportedColorReductionSemantics => "MAXWELL_B enabled color reduction has no verified neutral threshold evaluation or color-output semantics",
            MaxwellThreeDLoweringError::UnsupportedConstantColorRenderingSemantics => "MAXWELL_B enabled constant-color rendering is not represented by the neutral pipeline",
            MaxwellThreeDLoweringError::UnsupportedApiMandatedEarlyZSemantics => "MAXWELL_B API-mandated early depth/stencil ordering is not represented by the neutral pipeline",
            MaxwellThreeDLoweringError::UnsupportedPostZPixelShaderImaskSemantics => "MAXWELL_B post-Z pixel-shader invocation mask is not represented by the neutral pipeline",
            MaxwellThreeDLoweringError::UnsupportedPixelShaderInterlockSemantics(..) => "MAXWELL_B pixel-shader interlock is not represented by the neutral pipeline: control=",
            MaxwellThreeDLoweringError::UnsupportedGlobalBaseVertexIndex(..) => "MAXWELL_B global base vertex index cannot be represented independently from vertex-buffer addressing: value=",
            MaxwellThreeDLoweringError::UnsupportedCsaaSemantics => "MAXWELL_B enabled CSAA has no verified coverage sampling, resolve, capability, or coherency semantics",
            MaxwellThreeDLoweringError::UnsupportedCoverageToColorSemantics(..) => "MAXWELL_B coverage-to-color output is not represented by the neutral pipeline: color-target=",
            MaxwellThreeDLoweringError::UnsupportedAlphaToCoverageOverrideSemantics(..) => "MAXWELL_B alpha-to-coverage override qualification is not represented by the neutral pipeline: qualify-by-aa=",
            MaxwellThreeDLoweringError::UnsupportedTirSemantics { .. } => "MAXWELL_B enabled target-independent rasterization has no neutral raster, coverage, alpha-to-coverage, or query representation: control=",
            MaxwellThreeDLoweringError::UnsupportedHybridAntiAliasSemantics(..) => "MAXWELL_B hybrid antialiasing is not represented by the neutral raster pipeline: passes=",
            MaxwellThreeDLoweringError::UnsupportedSampleLocationsSemantics { .. } => "MAXWELL_B custom sample locations are not represented by the neutral raster pipeline: group=",
            MaxwellThreeDLoweringError::UnsupportedPsOutputSampleMaskSemantics => "MAXWELL_B effective pixel-shader sample-mask output has no shader translation or neutral backend representation",
            MaxwellThreeDLoweringError::UnsupportedReplicatedColorTargetOutputSemantics => "MAXWELL_B disabled separate MRT fragment data requires replicating fragment color output zero to every active color target",
            MaxwellThreeDLoweringError::UnsupportedRenderTargetIndexOffsetSemantics(..) => "MAXWELL_B viewport-index render-target routing is not represented by the neutral attachment contract: mode=",
            MaxwellThreeDLoweringError::UnsupportedRenderTargetLayerSemantics(..) => "MAXWELL_B render-target layer routing is not represented by shader translation or the neutral attachment contract: layer=",
            MaxwellThreeDLoweringError::UnsupportedShaderLocalMemorySemantics { .. } => "MAXWELL_B active shader-local-memory allocation has no translated-shader or neutral backend representation: default-size-per-warp=",
            MaxwellThreeDLoweringError::UnsupportedViewportPixelCenterSemantics(..) => "MAXWELL_B viewport pixel-center convention is not represented by the neutral pipeline contract: center=",
            MaxwellThreeDLoweringError::UnsupportedViewportCoordinateSwizzleSemantics { .. } => "MAXWELL_B viewport coordinate swizzle is not represented by the neutral pipeline contract: viewport=",
            MaxwellThreeDLoweringError::UnsupportedSurfaceClipSemantics => "MAXWELL_B programmed surface clip has no verified neutral draw-time region-composition semantics",
            MaxwellThreeDLoweringError::UnsupportedWindowClipSemantics => "MAXWELL_B enabled window clipping has no neutral pipeline or backend rasterization semantics",
            MaxwellThreeDLoweringError::UnsupportedClipIdTestSemantics => "MAXWELL_B enabled clip-ID testing has no implemented extent, surface-ID, comparison, or backend rasterization semantics",
            MaxwellThreeDLoweringError::UnsupportedStencilTestSemantics { .. } => "MAXWELL_B enabled stencil testing has no neutral pipeline representation: two-sided=",
            MaxwellThreeDLoweringError::UnsupportedClearStencilMaskSemantics => "MAXWELL_B stencil-masked clear has no neutral backend representation",
            MaxwellThreeDLoweringError::UnsupportedAliasedLineWidthSemantics => "MAXWELL_B aliased line-width selection has no represented width register or host rasterization semantics",
            MaxwellThreeDLoweringError::UnsupportedAntiAliasedLineSemantics => "MAXWELL_B anti-aliased line rasterization has no neutral backend representation",
            MaxwellThreeDLoweringError::UnsupportedLineStippleSemantics { .. } => "MAXWELL_B line stippling has no neutral backend representation: factor=",
            MaxwellThreeDLoweringError::UnsupportedPolygonClipGeneratedEdgeSemantics => "MAXWELL_B suppression of polygon-clip-generated edges has no neutral backend representation",
            MaxwellThreeDLoweringError::UnsupportedVertexAttributeFormat { .. } => "MAXWELL_B vertex attribute has no exact neutral format: attribute=",
            MaxwellThreeDLoweringError::UnsupportedVertexInstanceDivisor { .. } => "MAXWELL_B vertex stream instance divisor is not representable: stream=",
            MaxwellThreeDLoweringError::InvalidPatchSize(..) => "MAXWELL_B patch draw has an invalid control-point count: ",
            MaxwellThreeDLoweringError::UnsupportedPatchSemantics(..) => "MAXWELL_B patch control-point count is not represented by the neutral pipeline contract: ",
            MaxwellThreeDLoweringError::UnsupportedPointSpriteCoordinatesSemantics(..) => "MAXWELL_B generated point-sprite coordinates are not represented by shader translation or the neutral pipeline contract: texture-mask=0x",
            MaxwellThreeDLoweringError::UnsupportedAttributePointSizeSemantics { .. } => "MAXWELL_B shader-provided point size is not represented by shader or neutral backend lowering: slot=",
            MaxwellThreeDLoweringError::UnsupportedPointSpriteSemantics => "MAXWELL_B enabled point-sprite rasterization is not represented by the neutral backend",
            MaxwellThreeDLoweringError::UnsupportedAntiAliasedPointSemantics => "MAXWELL_B anti-aliased point rasterization is not represented by the neutral backend",
            MaxwellThreeDLoweringError::UnsupportedPointCenterSemantics(..) => "MAXWELL_B point-center convention is not represented by the neutral pipeline contract: mode=",
            MaxwellThreeDLoweringError::UnsupportedFillViaTriangleSemantics(..) => "MAXWELL_B fill-via-triangle mode is not represented by the neutral pipeline contract: mode=",
            MaxwellThreeDLoweringError::UnsupportedFillRectangleDraw(..) => "MAXWELL_B fill-rectangle draw is not representable: ",
            MaxwellThreeDLoweringError::UnsupportedConservativeRasterSemantics => "MAXWELL_B conservative rasterization is not represented by the neutral pipeline contract",
            MaxwellThreeDLoweringError::UnsupportedPolygonSmoothSemantics => "MAXWELL_B polygon smoothing is not represented by the neutral pipeline contract",
            MaxwellThreeDLoweringError::UnsupportedPolygonStippleSemantics => "MAXWELL_B polygon stippling is not represented by the neutral pipeline contract",
            MaxwellThreeDLoweringError::UnsupportedEdgeFlagSemantics(..) => "MAXWELL_B disabled polygon edge flag is not represented by the neutral pipeline contract: flag=",
            MaxwellThreeDLoweringError::UnsupportedShadeModeSemantics(..) => "MAXWELL_B shade mode is not representable in the neutral pipeline contract: mode=",
            MaxwellThreeDLoweringError::UnsupportedProvokingVertexSemantics(..) => "MAXWELL_B provoking vertex is not representable in the neutral pipeline or shader interpolation contract: vertex=",
            MaxwellThreeDLoweringError::UnsupportedTwoSidedLightSemantics => "MAXWELL_B enabled two-sided fixed-function lighting is not represented by shader or neutral backend lowering",
            MaxwellThreeDLoweringError::UnsupportedColorClampSemantics => "MAXWELL_B enabled color clamping is not represented by shader or neutral backend lowering",
            MaxwellThreeDLoweringError::UnsupportedPixelShaderSaturateSemantics { .. } => "MAXWELL_B pixel-shader output saturation is not represented by shader or neutral backend lowering: output=",
            MaxwellThreeDLoweringError::UnsupportedBlendSemantics { target } => if target is Some {
                "MAXWELL_B enabled blend state is not representable in the neutral pipeline contract: target="
            } else {
                "MAXWELL_B enabled common blend state is not representable in the neutral pipeline contract"
            },
            MaxwellThreeDLoweringError::UnsupportedIteratedBlendSemantics { .. } => "MAXWELL_B iterated blending has no neutral backend representation: color=",
            MaxwellThreeDLoweringError::IncompleteLogicOpState => "MAXWELL_B enabled logic operations require SET_LOGIC_OP_FUNC",
            MaxwellThreeDLoweringError::UnsupportedLogicOpSemantics(..) => "MAXWELL_B color logic operation ",
            MaxwellThreeDLoweringError::IncompleteColorWriteState { .. } => "MAXWELL_B color target ",
            MaxwellThreeDLoweringError::UnsupportedColorWriteMask { .. } => "MAXWELL_B partial color writes are not represented by the neutral render pipeline: target=",
            MaxwellThreeDLoweringError::IncompleteAlphaTestState(..) => "MAXWELL_B enabled alpha testing requires SET_ALPHA_",
            MaxwellThreeDLoweringError::CompressedDepthImportRequired { .. } => "Maxwell compressed depth contents require materialization before use: kind=0x",
            MaxwellThreeDLoweringError::CompressedColorImportRequired { .. } => "Maxwell compressed color contents require materialization before use: target=",
            MaxwellThreeDLoweringError::ShaderTranslationRequired => "Maxwell shader translation is required before draw lowering",
            MaxwellThreeDLoweringError::InvalidTranslatedShaders => "translated shader evidence is empty, duplicated, or invalid",
            MaxwellThreeDLoweringError::TranslatedShaderStageMismatch => "translated shader stages do not match enabled Maxwell pipeline stages",
            MaxwellThreeDLoweringError::TranslatedShaderMemoryConfigurationMismatch { .. } => "translated shader requires a different Maxwell directly addressable memory configuration: stage=",
            MaxwellThreeDLoweringError::UnsupportedShaderStage(..) => "Maxwell shader stage has no neutral lowering: ",
            MaxwellThreeDLoweringError::InvalidShaderResourceUse { .. } => "translated shader declares an invalid resource use: role=",
            MaxwellThreeDLoweringError::MissingResolvedResource { .. } => "complete 3D snapshot lacks resolved resource: role=",
            MaxwellThreeDLoweringError::ResolvedResourceKindMismatch => "resolved 3D resource kind contradicts its role",
            MaxwellThreeDLoweringError::InvalidResolvedView { .. } => "resolved 3D view cannot be re-identified neutrally: role=",
            MaxwellThreeDLoweringError::AllocationDescriptionChanged { .. } => "cached GPU allocation changed immutable description: ",
            MaxwellThreeDLoweringError::IncompleteClear(..) => "clear state is incomplete: missing=",
            MaxwellThreeDLoweringError::EmptyClearMask => "CLEAR_SURFACE selects no color, depth, or stencil component",
            MaxwellThreeDLoweringError::EmptyClearRectangle => "clear rectangle, scissor, and viewport-clip intersection is empty",
            MaxwellThreeDLoweringError::PartialColorClearUnsupported { .. } => "partial color-channel clear is not represented yet: mask=0x",
            MaxwellThreeDLoweringError::ClearOutsideAttachment => "clear rectangle or layer lies outside the resolved attachment",
            MaxwellThreeDLoweringError::IncompleteDraw(..) => "draw state is incomplete: missing=",
            MaxwellThreeDLoweringError::IncompleteBlendState { target, .. } => if target is Some {
                "blend state is incomplete: target="
            } else {
                "common blend state is incomplete: missing="
            },
            MaxwellThreeDLoweringError::ColorTargetRouteUnprogrammed { .. } => "SET_CT_SELECT routes output slot ",
            MaxwellThreeDLoweringError::ColorTargetRouteDisabled { .. } => "SET_CT_SELECT routes output slot ",
            MaxwellThreeDLoweringError::ColorTargetRouteIncomplete { .. } => "SET_CT_SELECT routes output slot ",
            MaxwellThreeDLoweringError::DuplicateColorTargetRoute { .. } => "SET_CT_SELECT routes one color target more than once: target=",
            MaxwellThreeDLoweringError::EmptyDraw => "draw vertex count is zero",
            MaxwellThreeDLoweringError::UnsupportedPrimitiveIdContinuation => "BEGIN requests unsupported primitive-ID continuation semantics",
            MaxwellThreeDLoweringError::UnsupportedPrimitiveSplitMode(..) => "BEGIN requests unsupported split-primitive semantics: mode=",
            MaxwellThreeDLoweringError::InstanceIndexOverflow { .. } => "Maxwell instance index exceeds the neutral u32 domain: base=",
            MaxwellThreeDLoweringError::UnsupportedTopology(..) => "primitive topology has no neutral lowering: topology=0x",
            MaxwellThreeDLoweringError::AliasedDrawResources { .. } => "draw has a read/write or attachment alias without modeled feedback semantics: first=",
            MaxwellThreeDLoweringError::InvalidTransition => "derived neutral resource transition is invalid",
            MaxwellThreeDLoweringError::InvalidResourceCreation => "derived neutral resource creation is invalid",
            MaxwellThreeDLoweringError::Command(..) => "neutral command construction failed: ",
            MaxwellThreeDLoweringError::Capability(..) => "backend capabilities cannot represent complete 3D operation: ",
            MaxwellThreeDLoweringError::ResourceExhausted => "3D lowering exhausted host resources or identities",
        }
    }

    #[must_use]
    #[verifier::when_used_as_spec(spec_head)]
    pub fn head(self) -> (r: &'static str)
        ensures
            r == self.spec_head(),
    {
        match self {
            MaxwellThreeDLoweringError::ContradictoryState { .. } => "contradictory Maxwell 3D state: ",
            MaxwellThreeDLoweringError::TriggerStateMismatch => "3D trigger does not match its immutable state snapshot",
            MaxwellThreeDLoweringError::UnsupportedRenderEnableMode(..) => "MAXWELL_B render-enable mode has no verified neutral execution: mode=",
            MaxwellThreeDLoweringError::UnsupportedConditionalLoadConstantBufferSemantics => "MAXWELL_B conditional constant-buffer load has no verified execution semantics",
            MaxwellThreeDLoweringError::VisibleCallLimitExceeded { .. } => "translated Maxwell shader exceeds SET_API_VISIBLE_CALL_LIMIT: stage=",
            MaxwellThreeDLoweringError::UnsupportedColorReductionSemantics => "MAXWELL_B enabled color reduction has no verified neutral threshold evaluation or color-output semantics",
            MaxwellThreeDLoweringError::UnsupportedConstantColorRenderingSemantics => "MAXWELL_B enabled constant-color rendering is not represented by the neutral pipeline",
            MaxwellThreeDLoweringError::UnsupportedApiMandatedEarlyZSemantics => "MAXWELL_B API-mandated early depth/stencil ordering is not represented by the neutral pipeline",
            MaxwellThreeDLoweringError::UnsupportedPostZPixelShaderImaskSemantics => "MAXWELL_B post-Z pixel-shader invocation mask is not represented by the neutral pipeline",
            MaxwellThreeDLoweringError::UnsupportedPixelShaderInterlockSemantics(..) => "MAXWELL_B pixel-shader interlock is not represented by the neutral pipeline: control=",
            MaxwellThreeDLoweringError::UnsupportedGlobalBaseVertexIndex(..) => "MAXWELL_B global base vertex index cannot be represented independently from vertex-buffer addressing: value=",
            MaxwellThreeDLoweringError::UnsupportedCsaaSemantics => "MAXWELL_B enabled CSAA has no verified coverage sampling, resolve, capability, or coherency semantics",
            MaxwellThreeDLoweringError::UnsupportedCoverageToColorSemantics(..) => "MAXWELL_B coverage-to-color output is not represented by the neutral pipeline: color-target=",
            MaxwellThreeDLoweringError::UnsupportedAlphaToCoverageOverrideSemantics(..) => "MAXWELL_B alpha-to-coverage override qualification is not represented by the neutral pipeline: qualify-by-aa=",
            MaxwellThreeDLoweringError::UnsupportedTirSemantics { .. } => "MAXWELL_B enabled target-independent rasterization has no neutral raster, coverage, alpha-to-coverage, or query representation: control=",
            MaxwellThreeDLoweringError::UnsupportedHybridAntiAliasSemantics(..) => "MAXWELL_B hybrid antialiasing is not represented by the neutral raster pipeline: passes=",
            MaxwellThreeDLoweringError::UnsupportedSampleLocationsSemantics { .. } => "MAXWELL_B custom sample locations are not represented by the neutral raster pipeline: group=",
            MaxwellThreeDLoweringError::UnsupportedPsOutputSampleMaskSemantics => "MAXWELL_B effective pixel-shader sample-mask output has no shader translation or neutral backend representation",
            MaxwellThreeDLoweringError::UnsupportedReplicatedColorTargetOutputSemantics => "MAXWELL_B disabled separate MRT fragment data requires replicating fragment color output zero to every active color target",
            MaxwellThreeDLoweringError::UnsupportedRenderTargetIndexOffsetSemantics(..) => "MAXWELL_B viewport-index render-target routing is not represented by the neutral attachment contract: mode=",
            MaxwellThreeDLoweringError::UnsupportedRenderTargetLayerSemantics(..) => "MAXWELL_B render-target layer routing is not represented by shader translation or the neutral attachment contract: layer=",
            MaxwellThreeDLoweringError::UnsupportedShaderLocalMemorySemantics { .. } => "MAXWELL_B active shader-local-memory allocation has no translated-shader or neutral backend representation: default-size-per-warp=",
            MaxwellThreeDLoweringError::UnsupportedViewportPixelCenterSemantics(..) => "MAXWELL_B viewport pixel-center convention is not represented by the neutral pipeline contract: center=",
            MaxwellThreeDLoweringError::UnsupportedViewportCoordinateSwizzleSemantics { .. } => "MAXWELL_B viewport coordinate swizzle is not represented by the neutral pipeline contract: viewport=",
            MaxwellThreeDLoweringError::UnsupportedSurfaceClipSemantics => "MAXWELL_B programmed surface clip has no verified neutral draw-time region-composition semantics",
            MaxwellThreeDLoweringError::UnsupportedWindowClipSemantics => "MAXWELL_B enabled window clipping has no neutral pipeline or backend rasterization semantics",
            MaxwellThreeDLoweringError::UnsupportedClipIdTestSemantics => "MAXWELL_B enabled clip-ID testing has no implemented extent, surface-ID, comparison, or backend rasterization semantics",
            MaxwellThreeDLoweringError::UnsupportedStencilTestSemantics { .. } => "MAXWELL_B enabled stencil testing has no neutral pipeline representation: two-sided=",
            MaxwellThreeDLoweringError::UnsupportedClearStencilMaskSemantics => "MAXWELL_B stencil-masked clear has no neutral backend representation",
            MaxwellThreeDLoweringError::UnsupportedAliasedLineWidthSemantics => "MAXWELL_B aliased line-width selection has no represented width register or host rasterization semantics",
            MaxwellThreeDLoweringError::UnsupportedAntiAliasedLineSemantics => "MAXWELL_B anti-aliased line rasterization has no neutral backend representation",
            MaxwellThreeDLoweringError::UnsupportedLineStippleSemantics { .. } => "MAXWELL_B line stippling has no neutral backend representation: factor=",
            MaxwellThreeDLoweringError::UnsupportedPolygonClipGeneratedEdgeSemantics => "MAXWELL_B suppression of polygon-clip-generated edges has no neutral backend representation",
            MaxwellThreeDLoweringError::UnsupportedVertexAttributeFormat { .. } => "MAXWELL_B vertex attribute has no exact neutral format: attribute=",
            MaxwellThreeDLoweringError::UnsupportedVertexInstanceDivisor { .. } => "MAXWELL_B vertex stream instance divisor is not representable: stream=",
            MaxwellThreeDLoweringError::InvalidPatchSize(..) => "MAXWELL_B patch draw has an invalid control-point count: ",
            MaxwellThreeDLoweringError::UnsupportedPatchSemantics(..) => "MAXWELL_B patch control-point count is not represented by the neutral pipeline contract: ",
            MaxwellThreeDLoweringError::UnsupportedPointSpriteCoordinatesSemantics(..) => "MAXWELL_B generated point-sprite coordinates are not represented by shader translation or the neutral pipeline contract: texture-mask=0x",
            MaxwellThreeDLoweringError::UnsupportedAttributePointSizeSemantics { .. } => "MAXWELL_B shader-provided point size is not represented by shader or neutral backend lowering: slot=",
            MaxwellThreeDLoweringError::UnsupportedPointSpriteSemantics => "MAXWELL_B enabled point-sprite rasterization is not represented by the neutral backend",
            MaxwellThreeDLoweringError::UnsupportedAntiAliasedPointSemantics => "MAXWELL_B anti-aliased point rasterization is not represented by the neutral backend",
            MaxwellThreeDLoweringError::UnsupportedPointCenterSemantics(..) => "MAXWELL_B point-center convention is not represented by the neutral pipeline contract: mode=",
            MaxwellThreeDLoweringError::UnsupportedFillViaTriangleSemantics(..) => "MAXWELL_B fill-via-triangle mode is not represented by the neutral pipeline contract: mode=",
            MaxwellThreeDLoweringError::UnsupportedFillRectangleDraw(..) => "MAXWELL_B fill-rectangle draw is not representable: ",
            MaxwellThreeDLoweringError::UnsupportedConservativeRasterSemantics => "MAXWELL_B conservative rasterization is not represented by the neutral pipeline contract",
            MaxwellThreeDLoweringError::UnsupportedPolygonSmoothSemantics => "MAXWELL_B polygon smoothing is not represented by the neutral pipeline contract",
            MaxwellThreeDLoweringError::UnsupportedPolygonStippleSemantics => "MAXWELL_B polygon stippling is not represented by the neutral pipeline contract",
            MaxwellThreeDLoweringError::UnsupportedEdgeFlagSemantics(..) => "MAXWELL_B disabled polygon edge flag is not represented by the neutral pipeline contract: flag=",
            MaxwellThreeDLoweringError::UnsupportedShadeModeSemantics(..) => "MAXWELL_B shade mode is not representable in the neutral pipeline contract: mode=",
            MaxwellThreeDLoweringError::UnsupportedProvokingVertexSemantics(..) => "MAXWELL_B provoking vertex is not representable in the neutral pipeline or shader interpolation contract: vertex=",
            MaxwellThreeDLoweringError::UnsupportedTwoSidedLightSemantics => "MAXWELL_B enabled two-sided fixed-function lighting is not represented by shader or neutral backend lowering",
            MaxwellThreeDLoweringError::UnsupportedColorClampSemantics => "MAXWELL_B enabled color clamping is not represented by shader or neutral backend lowering",
            MaxwellThreeDLoweringError::UnsupportedPixelShaderSaturateSemantics { .. } => "MAXWELL_B pixel-shader output saturation is not represented by shader or neutral backend lowering: output=",
            MaxwellThreeDLoweringError::UnsupportedBlendSemantics { target } => if target.is_some() {
                "MAXWELL_B enabled blend state is not representable in the neutral pipeline contract: target="
            } else {
                "MAXWELL_B enabled common blend state is not representable in the neutral pipeline contract"
            },
            MaxwellThreeDLoweringError::UnsupportedIteratedBlendSemantics { .. } => "MAXWELL_B iterated blending has no neutral backend representation: color=",
            MaxwellThreeDLoweringError::IncompleteLogicOpState => "MAXWELL_B enabled logic operations require SET_LOGIC_OP_FUNC",
            MaxwellThreeDLoweringError::UnsupportedLogicOpSemantics(..) => "MAXWELL_B color logic operation ",
            MaxwellThreeDLoweringError::IncompleteColorWriteState { .. } => "MAXWELL_B color target ",
            MaxwellThreeDLoweringError::UnsupportedColorWriteMask { .. } => "MAXWELL_B partial color writes are not represented by the neutral render pipeline: target=",
            MaxwellThreeDLoweringError::IncompleteAlphaTestState(..) => "MAXWELL_B enabled alpha testing requires SET_ALPHA_",
            MaxwellThreeDLoweringError::CompressedDepthImportRequired { .. } => "Maxwell compressed depth contents require materialization before use: kind=0x",
            MaxwellThreeDLoweringError::CompressedColorImportRequired { .. } => "Maxwell compressed color contents require materialization before use: target=",
            MaxwellThreeDLoweringError::ShaderTranslationRequired => "Maxwell shader translation is required before draw lowering",
            MaxwellThreeDLoweringError::InvalidTranslatedShaders => "translated shader evidence is empty, duplicated, or invalid",
            MaxwellThreeDLoweringError::TranslatedShaderStageMismatch => "translated shader stages do not match enabled Maxwell pipeline stages",
            MaxwellThreeDLoweringError::TranslatedShaderMemoryConfigurationMismatch { .. } => "translated shader requires a different Maxwell directly addressable memory configuration: stage=",
            MaxwellThreeDLoweringError::UnsupportedShaderStage(..) => "Maxwell shader stage has no neutral lowering: ",
            MaxwellThreeDLoweringError::InvalidShaderResourceUse { .. } => "translated shader declares an invalid resource use: role=",
            MaxwellThreeDLoweringError::MissingResolvedResource { .. } => "complete 3D snapshot lacks resolved resource: role=",
            MaxwellThreeDLoweringError::ResolvedResourceKindMismatch => "resolved 3D resource kind contradicts its role",
            MaxwellThreeDLoweringError::InvalidResolvedView { .. } => "resolved 3D view cannot be re-identified neutrally: role=",
            MaxwellThreeDLoweringError::AllocationDescriptionChanged { .. } => "cached GPU allocation changed immutable description: ",
            MaxwellThreeDLoweringError::IncompleteClear(..) => "clear state is incomplete: missing=",
            MaxwellThreeDLoweringError::EmptyClearMask => "CLEAR_SURFACE selects no color, depth, or stencil component",
            MaxwellThreeDLoweringError::EmptyClearRectangle => "clear rectangle, scissor, and viewport-clip intersection is empty",
            MaxwellThreeDLoweringError::PartialColorClearUnsupported { .. } => "partial color-channel clear is not represented yet: mask=0x",
            MaxwellThreeDLoweringError::ClearOutsideAttachment => "clear rectangle or layer lies outside the resolved attachment",
            MaxwellThreeDLoweringError::IncompleteDraw(..) => "draw state is incomplete: missing=",
            MaxwellThreeDLoweringError::IncompleteBlendState { target, .. } => if target.is_some() {
                "blend state is incomplete: target="
            } else {
                "common blend state is incomplete: missing="
            },
            MaxwellThreeDLoweringError::ColorTargetRouteUnprogrammed { .. } => "SET_CT_SELECT routes output slot ",
            MaxwellThreeDLoweringError::ColorTargetRouteDisabled { .. } => "SET_CT_SELECT routes output slot ",
            MaxwellThreeDLoweringError::ColorTargetRouteIncomplete { .. } => "SET_CT_SELECT routes output slot ",
            MaxwellThreeDLoweringError::DuplicateColorTargetRoute { .. } => "SET_CT_SELECT routes one color target more than once: target=",
            MaxwellThreeDLoweringError::EmptyDraw => "draw vertex count is zero",
            MaxwellThreeDLoweringError::UnsupportedPrimitiveIdContinuation => "BEGIN requests unsupported primitive-ID continuation semantics",
            MaxwellThreeDLoweringError::UnsupportedPrimitiveSplitMode(..) => "BEGIN requests unsupported split-primitive semantics: mode=",
            MaxwellThreeDLoweringError::InstanceIndexOverflow { .. } => "Maxwell instance index exceeds the neutral u32 domain: base=",
            MaxwellThreeDLoweringError::UnsupportedTopology(..) => "primitive topology has no neutral lowering: topology=0x",
            MaxwellThreeDLoweringError::AliasedDrawResources { .. } => "draw has a read/write or attachment alias without modeled feedback semantics: first=",
            MaxwellThreeDLoweringError::InvalidTransition => "derived neutral resource transition is invalid",
            MaxwellThreeDLoweringError::InvalidResourceCreation => "derived neutral resource creation is invalid",
            MaxwellThreeDLoweringError::Command(..) => "neutral command construction failed: ",
            MaxwellThreeDLoweringError::Capability(..) => "backend capabilities cannot represent complete 3D operation: ",
            MaxwellThreeDLoweringError::ResourceExhausted => "3D lowering exhausted host resources or identities",
        }
    }

    /// Whole message.
    pub open spec fn spec_message(self) -> Seq<char> {
        self.spec_head()@ + crate::message::rendered(spec_details(self))
    }

    /// Message that tells why the trigger cannot be lowered.
    #[must_use]
    pub fn message(self) -> (r: String)
        ensures
            r@ == self.spec_message(),
    {
        let mut text: String = String::new();
        text.append(self.head());
        let parts: Vec<MessagePart> = details(self);
        append_parts(&mut text, &parts);
        proof {
            assert(text@ =~= self.spec_message());
        }
        text
    }
}

} // verus!
