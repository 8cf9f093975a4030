//! Checks that a draw must pass before its attachments are looked at.

use vstd::prelude::*;
use crate::color_reduction::MaxwellThreeDColorReductionThresholdsEnable;
use crate::coverage::{MaxwellThreeDCsaaEnable, MaxwellThreeDPostZPixelShaderImask, MaxwellThreeDSampleLocationGroup, MaxwellThreeDTirMode};
use crate::draw_state::{boolean_register, draw_viewport_transform};
use crate::line::{MaxwellThreeDAliasedLineWidthEnable, MaxwellThreeDAntiAliasedLineEnable, MaxwellThreeDPolygonClipGeneratedEdge};
use crate::lowering_error::{MaxwellThreeDLoweringError, MaxwellThreeDPointSpriteCoordinates};
use crate::neutral_refusals::NeutralRefusals;
use crate::output::{MaxwellThreeDClipIdTestEnable, MaxwellThreeDFixedFunctionRegister, MaxwellThreeDFixedFunctionValue, MaxwellThreeDPixelShaderClampRange, MaxwellThreeDPixelShaderSaturate, MaxwellThreeDPolygonMode, MaxwellThreeDProvokingVertex, MaxwellThreeDShadeMode, MaxwellThreeDViewportCoordinateSwizzle};
use crate::raster::{MaxwellThreeDConservativeRasterEnable, MaxwellThreeDEdgeFlag, MaxwellThreeDFillViaTriangleMode, MaxwellThreeDViewportPixelCenter};
use crate::render_enable::{MaxwellThreeDConditionalLoadConstantBuffer, MaxwellThreeDRenderEnableMode};
use crate::shader_execution::MaxwellThreeDApiMandatedEarlyZ;
use crate::state::MaxwellThreeDState;

verus! {

/// Readiness of a color target for a draw.
#[derive(Clone, Copy, Debug, PartialEq, Eq, Hash, Structural)]
pub enum MaxwellThreeDAttachmentReadiness {
    Unprogrammed,
    Disabled,
    Incomplete,
    Ready,
}

/// What the words of some registers mean for a draw, and what the host-independent
/// vocabulary refuses of the operation. The registers hold these words uninterpreted;
/// whoever interprets them states the meaning here.
#[derive(Clone, Debug, PartialEq, Eq)]
pub struct MaxwellThreeDDrawFacts {
    /// Readiness of each color target.
    pub color_readiness: [MaxwellThreeDAttachmentReadiness; 8],
    /// Name of the layer control, where it changes the layer that a draw writes.
    pub render_target_layer_routing: Option<&'static str>,
    /// What the point-sprite selection generates, where it changes coordinates.
    pub point_sprite_coordinates: Option<MaxwellThreeDPointSpriteCoordinates>,
    /// Name of the interlock control, where it detects conflicts.
    pub interlock_conflicts: Option<&'static str>,
    /// Bytes of directly addressable memory that each configuration code selects.
    pub directly_addressable_bytes: [u32; 8],
    /// Whether a disabled edge flag changes what a draw shows.
    pub edge_flag_affects_draw: bool,
    /// Calls that a shader may nest, where they are limited.
    pub visible_call_limit: Option<u16>,
    /// Constructions of the operation that are refused.
    pub refusals: NeutralRefusals,
}

/// First refusal of two checks made one after the other.
pub open spec fn and_then(
    first: Result<(), MaxwellThreeDLoweringError>,
    second: Result<(), MaxwellThreeDLoweringError>,
) -> Result<(), MaxwellThreeDLoweringError> {
    match first {
        Ok(()) => second,
        Err(error) => Err(error),
    }
}

/// Conditional constant-buffer loads are refused.
pub open spec fn spec_validate_constant_buffer_loads(state: &MaxwellThreeDState) -> Result<(), MaxwellThreeDLoweringError> {
    if state.render_enable.conditional_load_constant_buffer.value == Some(
        MaxwellThreeDConditionalLoadConstantBuffer::Enabled,
    ) {
        Err(MaxwellThreeDLoweringError::UnsupportedConditionalLoadConstantBufferSemantics)
    } else {
        Ok(())
    }
}

#[verifier::when_used_as_spec(spec_validate_constant_buffer_loads)]
pub fn validate_constant_buffer_loads(state: &MaxwellThreeDState) -> (r: Result<(), MaxwellThreeDLoweringError>)
    ensures
        r == spec_validate_constant_buffer_loads(state),
{
    if state.render_enable.conditional_load_constant_buffer.value == Some(
        MaxwellThreeDConditionalLoadConstantBuffer::Enabled,
    ) {
        Err(MaxwellThreeDLoweringError::UnsupportedConditionalLoadConstantBufferSemantics)
    } else {
        Ok(())
    }
}

/// Work is lowered only while rendering is enabled, or not yet decided, and constant
/// buffers are loaded unconditionally.
pub open spec fn spec_validate_execution(state: &MaxwellThreeDState) -> Result<(), MaxwellThreeDLoweringError> {
    match state.render_enable.mode.value {
        Some(mode) => if mode != MaxwellThreeDRenderEnableMode::Enabled {
            Err(MaxwellThreeDLoweringError::UnsupportedRenderEnableMode(mode))
        } else {
            validate_constant_buffer_loads(state)
        },
        None => validate_constant_buffer_loads(state),
    }
}

#[verifier::when_used_as_spec(spec_validate_execution)]
pub fn validate_execution(state: &MaxwellThreeDState) -> (r: Result<(), MaxwellThreeDLoweringError>)
    ensures
        r == spec_validate_execution(state),
{
    match state.render_enable.mode.value {
        Some(mode) => if mode != MaxwellThreeDRenderEnableMode::Enabled {
            Err(MaxwellThreeDLoweringError::UnsupportedRenderEnableMode(mode))
        } else {
            validate_constant_buffer_loads(state)
        },
        None => validate_constant_buffer_loads(state),
    }
}

/// First output from `from` on that a saturation word enables.
pub open spec fn first_saturated_output(value: MaxwellThreeDPixelShaderSaturate, from: u8) -> Option<
    u8,
>
    decreases 8 - from,
{
    if from >= 8 {
        None
    } else if value.enables(from as int) {
        Some(from)
    } else {
        first_saturated_output(value, (from + 1) as u8)
    }
}

proof fn lemma_first_saturated_output(
    value: MaxwellThreeDPixelShaderSaturate,
    from: u8,
    output: Option<u8>,
)
    requires
        match output {
            Some(output) => {
                &&& from <= output < 8
                &&& value.enables(output as int)
                &&& forall|earlier: int| 0 <= earlier < output ==> !value.enables(earlier)
            },
            None => forall|output: int| 0 <= output < 8 ==> !value.enables(output),
        },
    ensures
        first_saturated_output(value, from) == output,
    decreases 8 - from,
{
    if from < 8 && output != Some(from) {
        assert(!value.enables(from as int));
        lemma_first_saturated_output(value, (from + 1) as u8, output);
    }
}

/// Range that saturation clamps an output to.
pub open spec fn saturation_range(value: MaxwellThreeDPixelShaderSaturate, output: u8) -> MaxwellThreeDPixelShaderClampRange {
    if value.0 & (2u32 << ((output * 4) as u32)) == 0 {
        MaxwellThreeDPixelShaderClampRange::ZeroToOne
    } else {
        MaxwellThreeDPixelShaderClampRange::MinusOneToOne
    }
}

/// Saturated pixel shader outputs are refused, the lowest first.
pub open spec fn spec_validate_saturation(state: &MaxwellThreeDState) -> Result<
    (),
    MaxwellThreeDLoweringError,
> {
    match state.fixed_function.value_of(MaxwellThreeDFixedFunctionRegister::PixelShaderSaturate) {
        Some(MaxwellThreeDFixedFunctionValue::PixelShaderSaturate(value)) => match first_saturated_output(
            value,
            0,
        ) {
            Some(output) => Err(
                MaxwellThreeDLoweringError::UnsupportedPixelShaderSaturateSemantics {
                    output,
                    range: saturation_range(value, output),
                },
            ),
            None => Ok(()),
        },
        _ => Ok(()),
    }
}

#[verifier::when_used_as_spec(spec_validate_saturation)]
pub fn validate_saturation(state: &MaxwellThreeDState) -> (r: Result<(), MaxwellThreeDLoweringError>)
    ensures
        r == spec_validate_saturation(state),
{
    if let Some(MaxwellThreeDFixedFunctionValue::PixelShaderSaturate(value)) = state.fixed_function.value_of(
        MaxwellThreeDFixedFunctionRegister::PixelShaderSaturate,
    ) {
        let first = value.first_enabled_output();
        proof {
            lemma_first_saturated_output(value, 0, first);
        }
        if let Some(output) = first {
            if let Some(range) = value.clamp_range(output) {
                return Err(
                    MaxwellThreeDLoweringError::UnsupportedPixelShaderSaturateSemantics {
                        output,
                        range,
                    },
                );
            }
        }
    }
    Ok(())
}

/// Flat shading, a first provoking vertex, two-sided light, color clamping and
/// saturated outputs are refused.
pub open spec fn spec_validate_interpolation(state: &MaxwellThreeDState) -> Result<(), MaxwellThreeDLoweringError> {
    if matches!(state.fixed_function.value_of(MaxwellThreeDFixedFunctionRegister::ShadeMode), Some(MaxwellThreeDFixedFunctionValue::ShadeMode(MaxwellThreeDShadeMode::Flat))) {
        Err(MaxwellThreeDLoweringError::UnsupportedShadeModeSemantics(MaxwellThreeDShadeMode::Flat))
    } else if matches!(state.fixed_function.value_of(MaxwellThreeDFixedFunctionRegister::ProvokingVertex), Some(MaxwellThreeDFixedFunctionValue::ProvokingVertex(MaxwellThreeDProvokingVertex::First))) {
        Err(MaxwellThreeDLoweringError::UnsupportedProvokingVertexSemantics(MaxwellThreeDProvokingVertex::First))
    } else if boolean_register(state, MaxwellThreeDFixedFunctionRegister::TwoSidedLightEnable) == Some(true) {
        Err(MaxwellThreeDLoweringError::UnsupportedTwoSidedLightSemantics)
    } else if boolean_register(state, MaxwellThreeDFixedFunctionRegister::ColorClampEnable) == Some(true) {
        Err(MaxwellThreeDLoweringError::UnsupportedColorClampSemantics)
    } else {
        validate_saturation(state)
    }
}

#[verifier::when_used_as_spec(spec_validate_interpolation)]
pub fn validate_interpolation(state: &MaxwellThreeDState) -> (r: Result<(), MaxwellThreeDLoweringError>)
    ensures
        r == spec_validate_interpolation(state),
{
    if matches!(state.fixed_function.value_of(MaxwellThreeDFixedFunctionRegister::ShadeMode), Some(MaxwellThreeDFixedFunctionValue::ShadeMode(MaxwellThreeDShadeMode::Flat))) {
        Err(MaxwellThreeDLoweringError::UnsupportedShadeModeSemantics(MaxwellThreeDShadeMode::Flat))
    } else if matches!(state.fixed_function.value_of(MaxwellThreeDFixedFunctionRegister::ProvokingVertex), Some(MaxwellThreeDFixedFunctionValue::ProvokingVertex(MaxwellThreeDProvokingVertex::First))) {
        Err(MaxwellThreeDLoweringError::UnsupportedProvokingVertexSemantics(MaxwellThreeDProvokingVertex::First))
    } else if boolean_register(state, MaxwellThreeDFixedFunctionRegister::TwoSidedLightEnable) == Some(true) {
        Err(MaxwellThreeDLoweringError::UnsupportedTwoSidedLightSemantics)
    } else if boolean_register(state, MaxwellThreeDFixedFunctionRegister::ColorClampEnable) == Some(true) {
        Err(MaxwellThreeDLoweringError::UnsupportedColorClampSemantics)
    } else {
        validate_saturation(state)
    }
}

/// Local memory of an enabled shader must be wholly unprogrammed or of size zero per
/// warp.
pub open spec fn spec_validate_local_memory(state: &MaxwellThreeDState) -> Result<(), MaxwellThreeDLoweringError> {
    if !state.shader_bindings.has_enabled_pipeline() {
        Ok(())
    } else if state.shader_execution.local_memory_region_is_partially_programmed() {
        Err(MaxwellThreeDLoweringError::IncompleteDraw("SET_SHADER_LOCAL_MEMORY_A-D"))
    } else {
        match state.shader_execution.local_memory_default_size_per_warp.value {
            Some(default_size_per_warp) => if default_size_per_warp.bytes() == 0 {
                Ok(())
            } else if state.shader_execution.local_memory_address().is_none()
                || state.shader_execution.local_memory_size().is_none() {
                Err(MaxwellThreeDLoweringError::IncompleteDraw("SET_SHADER_LOCAL_MEMORY_A-D"))
            } else {
                Err(
                    MaxwellThreeDLoweringError::UnsupportedShaderLocalMemorySemantics {
                        default_size_per_warp,
                    },
                )
            },
            None => Ok(()),
        }
    }
}

#[verifier::when_used_as_spec(spec_validate_local_memory)]
pub fn validate_local_memory(state: &MaxwellThreeDState) -> (r: Result<(), MaxwellThreeDLoweringError>)
    ensures
        r == spec_validate_local_memory(state),
{
    if !state.shader_bindings.has_enabled_pipeline() {
        Ok(())
    } else if state.shader_execution.local_memory_region_is_partially_programmed() {
        Err(MaxwellThreeDLoweringError::IncompleteDraw("SET_SHADER_LOCAL_MEMORY_A-D"))
    } else {
        match state.shader_execution.local_memory_default_size_per_warp.value {
            Some(default_size_per_warp) => if default_size_per_warp.bytes() == 0 {
                Ok(())
            } else if state.shader_execution.local_memory_address().is_none()
                || state.shader_execution.local_memory_size().is_none() {
                Err(MaxwellThreeDLoweringError::IncompleteDraw("SET_SHADER_LOCAL_MEMORY_A-D"))
            } else {
                Err(
                    MaxwellThreeDLoweringError::UnsupportedShaderLocalMemorySemantics {
                        default_size_per_warp,
                    },
                )
            },
            None => Ok(()),
        }
    }
}

/// A global base vertex other than zero is refused.
pub open spec fn spec_validate_base_vertex(state: &MaxwellThreeDState) -> Result<(), MaxwellThreeDLoweringError> {
    match state.vertex_input.global_base_vertex_index.value {
        Some(base) => if base != 0 {
            Err(MaxwellThreeDLoweringError::UnsupportedGlobalBaseVertexIndex(base))
        } else {
            Ok(())
        },
        None => Ok(()),
    }
}

#[verifier::when_used_as_spec(spec_validate_base_vertex)]
pub fn validate_base_vertex(state: &MaxwellThreeDState) -> (r: Result<(), MaxwellThreeDLoweringError>)
    ensures
        r == spec_validate_base_vertex(state),
{
    match state.vertex_input.global_base_vertex_index.value {
        Some(base) => if base != 0 {
            Err(MaxwellThreeDLoweringError::UnsupportedGlobalBaseVertexIndex(base))
        } else {
            Ok(())
        },
        None => Ok(()),
    }
}

/// Color reduction, constant color, early depth ordering, the post-depth mask, the
/// interlock and a global base vertex are refused.
pub open spec fn spec_validate_shader_execution(state: &MaxwellThreeDState, facts: &MaxwellThreeDDrawFacts) -> Result<(), MaxwellThreeDLoweringError> {
    if state.color_reduction.enable.value == Some(
        MaxwellThreeDColorReductionThresholdsEnable::Enabled,
    ) {
        Err(MaxwellThreeDLoweringError::UnsupportedColorReductionSemantics)
    } else if state.constant_color_rendering.enabled.value == Some(true) {
        Err(MaxwellThreeDLoweringError::UnsupportedConstantColorRenderingSemantics)
    } else if state.shader_execution.api_mandated_early_z.value == Some(
        MaxwellThreeDApiMandatedEarlyZ::Enabled,
    ) {
        Err(MaxwellThreeDLoweringError::UnsupportedApiMandatedEarlyZSemantics)
    } else if state.coverage.post_z_pixel_shader_imask.value == Some(
        MaxwellThreeDPostZPixelShaderImask::Enabled,
    ) {
        Err(MaxwellThreeDLoweringError::UnsupportedPostZPixelShaderImaskSemantics)
    } else {
        match state.shader_execution.pixel_shader_interlock_control.value {
            Some(control) => match facts.interlock_conflicts {
                Some(name) => Err(
                    MaxwellThreeDLoweringError::UnsupportedPixelShaderInterlockSemantics(
                        control,
                        name,
                    ),
                ),
                None => validate_base_vertex(state),
            },
            None => validate_base_vertex(state),
        }
    }
}

#[verifier::when_used_as_spec(spec_validate_shader_execution)]
pub fn validate_shader_execution(state: &MaxwellThreeDState, facts: &MaxwellThreeDDrawFacts) -> (r: Result<(), MaxwellThreeDLoweringError>)
    ensures
        r == spec_validate_shader_execution(state, facts),
{
    if state.color_reduction.enable.value == Some(
        MaxwellThreeDColorReductionThresholdsEnable::Enabled,
    ) {
        Err(MaxwellThreeDLoweringError::UnsupportedColorReductionSemantics)
    } else if state.constant_color_rendering.enabled.value == Some(true) {
        Err(MaxwellThreeDLoweringError::UnsupportedConstantColorRenderingSemantics)
    } else if state.shader_execution.api_mandated_early_z.value == Some(
        MaxwellThreeDApiMandatedEarlyZ::Enabled,
    ) {
        Err(MaxwellThreeDLoweringError::UnsupportedApiMandatedEarlyZSemantics)
    } else if state.coverage.post_z_pixel_shader_imask.value == Some(
        MaxwellThreeDPostZPixelShaderImask::Enabled,
    ) {
        Err(MaxwellThreeDLoweringError::UnsupportedPostZPixelShaderImaskSemantics)
    } else {
        match state.shader_execution.pixel_shader_interlock_control.value {
            Some(control) => match facts.interlock_conflicts {
                Some(name) => Err(
                    MaxwellThreeDLoweringError::UnsupportedPixelShaderInterlockSemantics(
                        control,
                        name,
                    ),
                ),
                None => validate_base_vertex(state),
            },
            None => validate_base_vertex(state),
        }
    }
}

/// First group from `from` on with a location away from the pixel center.
pub open spec fn first_moved_group(state: &MaxwellThreeDState, from: u8) -> Option<
    (u8, MaxwellThreeDSampleLocationGroup),
>
    decreases 4 - from,
{
    if from >= 4 {
        None
    } else {
        match state.coverage.sample_locations[from as int].value {
            Some(value) => if !value.centered() {
                Some((from, value))
            } else {
                first_moved_group(state, (from + 1) as u8)
            },
            None => first_moved_group(state, (from + 1) as u8),
        }
    }
}

/// Sample locations away from the pixel center are refused, and so is an effective
/// sample mask of the pixel shader.
pub open spec fn spec_validate_samples(state: &MaxwellThreeDState) -> Result<
    (),
    MaxwellThreeDLoweringError,
> {
    match first_moved_group(state, 0) {
        Some((group, value)) => Err(
            MaxwellThreeDLoweringError::UnsupportedSampleLocationsSemantics { group, value },
        ),
        None => if state.ps_output_sample_mask_effective() == Some(true) {
            Err(MaxwellThreeDLoweringError::UnsupportedPsOutputSampleMaskSemantics)
        } else {
            Ok(())
        },
    }
}

#[verifier::when_used_as_spec(spec_validate_samples)]
pub fn validate_samples(state: &MaxwellThreeDState) -> (r: Result<(), MaxwellThreeDLoweringError>)
    ensures
        r == spec_validate_samples(state),
{
    let mut group: u8 = 0;
    while group < 4
        invariant
            group <= 4,
            first_moved_group(state, 0) == first_moved_group(state, group),
        decreases 4 - group,
    {
        if let Some(value) = state.coverage.sample_locations[group as usize].value {
            if !value.is_centered() {
                return Err(
                    MaxwellThreeDLoweringError::UnsupportedSampleLocationsSemantics {
                        group,
                        value,
                    },
                );
            }
        }
        group = group + 1;
    }
    if let Some(true) = state.ps_output_sample_mask_effective() {
        return Err(MaxwellThreeDLoweringError::UnsupportedPsOutputSampleMaskSemantics);
    }
    Ok(())
}

/// Hybrid anti-aliasing of several passes is refused.
pub open spec fn spec_validate_hybrid_anti_alias(state: &MaxwellThreeDState) -> Result<(), MaxwellThreeDLoweringError> {
    match state.coverage.hybrid_anti_alias_control.value {
        Some(value) => if !value.is_single_pass_per_fragment() {
            Err(MaxwellThreeDLoweringError::UnsupportedHybridAntiAliasSemantics(value))
        } else {
            validate_samples(state)
        },
        None => validate_samples(state),
    }
}

#[verifier::when_used_as_spec(spec_validate_hybrid_anti_alias)]
pub fn validate_hybrid_anti_alias(state: &MaxwellThreeDState) -> (r: Result<(), MaxwellThreeDLoweringError>)
    ensures
        r == spec_validate_hybrid_anti_alias(state),
{
    match state.coverage.hybrid_anti_alias_control.value {
        Some(value) => if !value.is_single_pass_per_fragment() {
            Err(MaxwellThreeDLoweringError::UnsupportedHybridAntiAliasSemantics(value))
        } else {
            validate_samples(state)
        },
        None => validate_samples(state),
    }
}

/// Target-independent rasterization is refused.
pub open spec fn spec_validate_target_independent_raster(state: &MaxwellThreeDState) -> Result<(), MaxwellThreeDLoweringError> {
    if state.coverage.tir_mode.value == Some(MaxwellThreeDTirMode::RasterNTargetM) {
        Err(MaxwellThreeDLoweringError::UnsupportedTirSemantics { control: state.coverage.tir_control.value })
    } else {
        validate_hybrid_anti_alias(state)
    }
}

#[verifier::when_used_as_spec(spec_validate_target_independent_raster)]
pub fn validate_target_independent_raster(state: &MaxwellThreeDState) -> (r: Result<(), MaxwellThreeDLoweringError>)
    ensures
        r == spec_validate_target_independent_raster(state),
{
    if state.coverage.tir_mode.value == Some(MaxwellThreeDTirMode::RasterNTargetM) {
        Err(MaxwellThreeDLoweringError::UnsupportedTirSemantics { control: state.coverage.tir_control.value })
    } else {
        validate_hybrid_anti_alias(state)
    }
}

/// A qualified alpha-to-coverage override is refused.
pub open spec fn spec_validate_alpha_override(state: &MaxwellThreeDState) -> Result<(), MaxwellThreeDLoweringError> {
    match state.coverage.alpha_to_coverage_override.value {
        Some(value) => if value.raw() != 0 {
            Err(MaxwellThreeDLoweringError::UnsupportedAlphaToCoverageOverrideSemantics(value))
        } else {
            validate_target_independent_raster(state)
        },
        None => validate_target_independent_raster(state),
    }
}

#[verifier::when_used_as_spec(spec_validate_alpha_override)]
pub fn validate_alpha_override(state: &MaxwellThreeDState) -> (r: Result<(), MaxwellThreeDLoweringError>)
    ensures
        r == spec_validate_alpha_override(state),
{
    match state.coverage.alpha_to_coverage_override.value {
        Some(value) => if value.raw() != 0 {
            Err(MaxwellThreeDLoweringError::UnsupportedAlphaToCoverageOverrideSemantics(value))
        } else {
            validate_target_independent_raster(state)
        },
        None => validate_target_independent_raster(state),
    }
}

/// Coverage features beyond plain centered sampling are refused.
pub open spec fn spec_validate_coverage(state: &MaxwellThreeDState) -> Result<(), MaxwellThreeDLoweringError> {
    if state.coverage.csaa_enable.value == Some(MaxwellThreeDCsaaEnable::Enabled) {
        Err(MaxwellThreeDLoweringError::UnsupportedCsaaSemantics)
    } else {
        match state.coverage.coverage_to_color.value {
            Some(value) => if value.enabled {
                Err(MaxwellThreeDLoweringError::UnsupportedCoverageToColorSemantics(value))
            } else {
                validate_alpha_override(state)
            },
            None => validate_alpha_override(state),
        }
    }
}

#[verifier::when_used_as_spec(spec_validate_coverage)]
pub fn validate_coverage(state: &MaxwellThreeDState) -> (r: Result<(), MaxwellThreeDLoweringError>)
    ensures
        r == spec_validate_coverage(state),
{
    if state.coverage.csaa_enable.value == Some(MaxwellThreeDCsaaEnable::Enabled) {
        Err(MaxwellThreeDLoweringError::UnsupportedCsaaSemantics)
    } else {
        match state.coverage.coverage_to_color.value {
            Some(value) => if value.enabled {
                Err(MaxwellThreeDLoweringError::UnsupportedCoverageToColorSemantics(value))
            } else {
                validate_alpha_override(state)
            },
            None => validate_alpha_override(state),
        }
    }
}

/// First viewport from `from` on that exchanges or negates coordinates.
pub open spec fn first_swizzled_viewport(state: &MaxwellThreeDState, from: u8) -> Option<
    (u8, MaxwellThreeDViewportCoordinateSwizzle),
>
    decreases 16 - from,
{
    if from >= 16 {
        None
    } else {
        match state.fixed_function.viewport[from as int].coordinate_swizzle.value {
            Some(swizzle) => if !swizzle.is_identity() {
                Some((from, swizzle))
            } else {
                first_swizzled_viewport(state, (from + 1) as u8)
            },
            None => first_swizzled_viewport(state, (from + 1) as u8),
        }
    }
}

/// An incomplete or refused viewport transform, swizzled viewport coordinates, window clipping
/// and clip-id testing are refused.
pub open spec fn spec_validate_viewport(
    state: &MaxwellThreeDState,
    refusals: &NeutralRefusals,
) -> Result<(), MaxwellThreeDLoweringError> {
    match draw_viewport_transform(state, refusals) {
        Err(error) => Err(error),
        Ok(_) => match first_swizzled_viewport(state, 0) {
            Some((viewport, swizzle)) => Err(
                MaxwellThreeDLoweringError::UnsupportedViewportCoordinateSwizzleSemantics {
                    viewport,
                    swizzle,
                },
            ),
            None => if boolean_register(
                state,
                MaxwellThreeDFixedFunctionRegister::WindowClipEnable,
            ) == Some(true) {
                Err(MaxwellThreeDLoweringError::UnsupportedWindowClipSemantics)
            } else if state.fixed_function.value_of(
                MaxwellThreeDFixedFunctionRegister::ClipIdTestEnable,
            ) == Some(
                MaxwellThreeDFixedFunctionValue::ClipIdTestEnable(
                    MaxwellThreeDClipIdTestEnable::Enabled,
                ),
            ) {
                Err(MaxwellThreeDLoweringError::UnsupportedClipIdTestSemantics)
            } else {
                Ok(())
            },
        },
    }
}

#[verifier::when_used_as_spec(spec_validate_viewport)]
pub fn validate_viewport(state: &MaxwellThreeDState, refusals: &NeutralRefusals) -> (r: Result<
    (),
    MaxwellThreeDLoweringError,
>)
    ensures
        r == spec_validate_viewport(state, refusals),
{
    if let Err(error) = draw_viewport_transform(state, refusals) {
        return Err(error);
    }
    let mut viewport: u8 = 0;
    while viewport < 16
        invariant
            viewport <= 16,
            draw_viewport_transform(state, refusals) is Ok,
            first_swizzled_viewport(state, 0) == first_swizzled_viewport(state, viewport),
        decreases 16 - viewport,
    {
        if let Some(swizzle) = state.fixed_function.viewport[viewport as usize].coordinate_swizzle.value {
            if !swizzle.is_identity() {
                return Err(
                    MaxwellThreeDLoweringError::UnsupportedViewportCoordinateSwizzleSemantics {
                        viewport,
                        swizzle,
                    },
                );
            }
        }
        viewport = viewport + 1;
    }
    if let Some(true) = boolean_register(
        state,
        MaxwellThreeDFixedFunctionRegister::WindowClipEnable,
    ) {
        return Err(MaxwellThreeDLoweringError::UnsupportedWindowClipSemantics);
    }
    if matches!(
        state.fixed_function.value_of(MaxwellThreeDFixedFunctionRegister::ClipIdTestEnable),
        Some(
            MaxwellThreeDFixedFunctionValue::ClipIdTestEnable(
                MaxwellThreeDClipIdTestEnable::Enabled,
            ),
        )
    ) {
        return Err(MaxwellThreeDLoweringError::UnsupportedClipIdTestSemantics);
    }
    Ok(())
}

/// Topology code of the open primitive sequence.
pub open spec fn spec_open_topology(state: &MaxwellThreeDState) -> Option<u8> {
    match state.vertex_input.active_begin {
        Some(begin) => Some(begin.topology()),
        None => None,
    }
}

#[verifier::when_used_as_spec(spec_open_topology)]
pub fn open_topology(state: &MaxwellThreeDState) -> (r: Option<u8>)
    ensures
        r == spec_open_topology(state),
{
    match state.vertex_input.active_begin {
        Some(begin) => Some(begin.topology()),
        None => None,
    }
}

/// Whether a topology consists of triangles.
pub open spec fn spec_is_polygon(topology: Option<u8>) -> bool {
    match topology {
        Some(code) => 4 <= code && code <= 6,
        None => false,
    }
}

#[verifier::when_used_as_spec(spec_is_polygon)]
pub fn is_polygon(topology: Option<u8>) -> (r: bool)
    ensures
        r == spec_is_polygon(topology),
{
    match topology {
        Some(code) => 4 <= code && code <= 6,
        None => false,
    }
}

/// Integer pixel centers, filled bounding boxes of every primitive, conservative
/// rasterization, and smooth or stippled polygons are refused.
pub open spec fn spec_validate_polygons(state: &MaxwellThreeDState) -> Result<(), MaxwellThreeDLoweringError> {
    if state.raster.viewport_pixel_center.value == Some(MaxwellThreeDViewportPixelCenter::Integers) {
        Err(MaxwellThreeDLoweringError::UnsupportedViewportPixelCenterSemantics(
            MaxwellThreeDViewportPixelCenter::Integers,
        ))
    } else if state.raster.fill_via_triangle.value == Some(MaxwellThreeDFillViaTriangleMode::FillAll) {
        Err(MaxwellThreeDLoweringError::UnsupportedFillViaTriangleSemantics(
            MaxwellThreeDFillViaTriangleMode::FillAll,
        ))
    } else if state.raster.conservative_raster.value == Some(
        MaxwellThreeDConservativeRasterEnable::Enabled,
    ) {
        Err(MaxwellThreeDLoweringError::UnsupportedConservativeRasterSemantics)
    } else if is_polygon(open_topology(state)) && state.raster.polygon_smooth_enable.value == Some(true) {
        Err(MaxwellThreeDLoweringError::UnsupportedPolygonSmoothSemantics)
    } else if is_polygon(open_topology(state)) && state.raster.polygon_stipple_enable.value == Some(true) {
        Err(MaxwellThreeDLoweringError::UnsupportedPolygonStippleSemantics)
    } else {
        Ok(())
    }
}

#[verifier::when_used_as_spec(spec_validate_polygons)]
pub fn validate_polygons(state: &MaxwellThreeDState) -> (r: Result<(), MaxwellThreeDLoweringError>)
    ensures
        r == spec_validate_polygons(state),
{
    if state.raster.viewport_pixel_center.value == Some(MaxwellThreeDViewportPixelCenter::Integers) {
        Err(MaxwellThreeDLoweringError::UnsupportedViewportPixelCenterSemantics(
            MaxwellThreeDViewportPixelCenter::Integers,
        ))
    } else if state.raster.fill_via_triangle.value == Some(MaxwellThreeDFillViaTriangleMode::FillAll) {
        Err(MaxwellThreeDLoweringError::UnsupportedFillViaTriangleSemantics(
            MaxwellThreeDFillViaTriangleMode::FillAll,
        ))
    } else if state.raster.conservative_raster.value == Some(
        MaxwellThreeDConservativeRasterEnable::Enabled,
    ) {
        Err(MaxwellThreeDLoweringError::UnsupportedConservativeRasterSemantics)
    } else if is_polygon(open_topology(state)) && state.raster.polygon_smooth_enable.value == Some(true) {
        Err(MaxwellThreeDLoweringError::UnsupportedPolygonSmoothSemantics)
    } else if is_polygon(open_topology(state)) && state.raster.polygon_stipple_enable.value == Some(true) {
        Err(MaxwellThreeDLoweringError::UnsupportedPolygonStippleSemantics)
    } else {
        Ok(())
    }
}

/// A programmed point-center convention is refused.
pub open spec fn spec_validate_point_center(state: &MaxwellThreeDState) -> Result<(), MaxwellThreeDLoweringError> {
    match state.raster.point_center_mode.value {
        Some(mode) => Err(MaxwellThreeDLoweringError::UnsupportedPointCenterSemantics(mode)),
        None => Ok(()),
    }
}

#[verifier::when_used_as_spec(spec_validate_point_center)]
pub fn validate_point_center(state: &MaxwellThreeDState) -> (r: Result<(), MaxwellThreeDLoweringError>)
    ensures
        r == spec_validate_point_center(state),
{
    match state.raster.point_center_mode.value {
        Some(mode) => Err(MaxwellThreeDLoweringError::UnsupportedPointCenterSemantics(mode)),
        None => Ok(()),
    }
}

/// Sprite points, smooth points and generated coordinates are refused.
pub open spec fn spec_validate_point_sprites(state: &MaxwellThreeDState, facts: &MaxwellThreeDDrawFacts) -> Result<(), MaxwellThreeDLoweringError> {
    if state.raster.point_sprite_enable.value == Some(true) {
        Err(MaxwellThreeDLoweringError::UnsupportedPointSpriteSemantics)
    } else if state.raster.anti_aliased_point_enable.value == Some(true) {
        Err(MaxwellThreeDLoweringError::UnsupportedAntiAliasedPointSemantics)
    } else {
        match state.raster.point_sprite_select.value {
            Some(select) => match facts.point_sprite_coordinates {
                Some(coordinates) => Err(
                    MaxwellThreeDLoweringError::UnsupportedPointSpriteCoordinatesSemantics(
                        select,
                        coordinates,
                    ),
                ),
                None => validate_point_center(state),
            },
            None => validate_point_center(state),
        }
    }
}

#[verifier::when_used_as_spec(spec_validate_point_sprites)]
pub fn validate_point_sprites(state: &MaxwellThreeDState, facts: &MaxwellThreeDDrawFacts) -> (r: Result<(), MaxwellThreeDLoweringError>)
    ensures
        r == spec_validate_point_sprites(state, facts),
{
    if state.raster.point_sprite_enable.value == Some(true) {
        Err(MaxwellThreeDLoweringError::UnsupportedPointSpriteSemantics)
    } else if state.raster.anti_aliased_point_enable.value == Some(true) {
        Err(MaxwellThreeDLoweringError::UnsupportedAntiAliasedPointSemantics)
    } else {
        match state.raster.point_sprite_select.value {
            Some(select) => match facts.point_sprite_coordinates {
                Some(coordinates) => Err(
                    MaxwellThreeDLoweringError::UnsupportedPointSpriteCoordinatesSemantics(
                        select,
                        coordinates,
                    ),
                ),
                None => validate_point_center(state),
            },
            None => validate_point_center(state),
        }
    }
}

/// Points of attribute size and sprite points are refused.
pub open spec fn spec_validate_points(state: &MaxwellThreeDState, facts: &MaxwellThreeDDrawFacts) -> Result<(), MaxwellThreeDLoweringError> {
    match state.raster.attribute_point_size.value {
        Some(value) => if value.enabled() {
            Err(
                MaxwellThreeDLoweringError::UnsupportedAttributePointSizeSemantics {
                    slot: value.slot(),
                },
            )
        } else {
            validate_point_sprites(state, facts)
        },
        None => validate_point_sprites(state, facts),
    }
}

#[verifier::when_used_as_spec(spec_validate_points)]
pub fn validate_points(state: &MaxwellThreeDState, facts: &MaxwellThreeDDrawFacts) -> (r: Result<(), MaxwellThreeDLoweringError>)
    ensures
        r == spec_validate_points(state, facts),
{
    match state.raster.attribute_point_size.value {
        Some(value) => if value.enabled() {
            Err(
                MaxwellThreeDLoweringError::UnsupportedAttributePointSizeSemantics {
                    slot: value.slot(),
                },
            )
        } else {
            validate_point_sprites(state, facts)
        },
        None => validate_point_sprites(state, facts),
    }
}

/// Patches are always refused; the reason tells what is missing first.
pub open spec fn spec_validate_patches(state: &MaxwellThreeDState) -> Result<(), MaxwellThreeDLoweringError> {
    match state.vertex_input.patch_size.value {
        None => Err(MaxwellThreeDLoweringError::IncompleteDraw("SET_PATCH")),
        Some(size) => if size.control_points() == 0 {
            Err(MaxwellThreeDLoweringError::InvalidPatchSize(size))
        } else {
            Err(MaxwellThreeDLoweringError::UnsupportedPatchSemantics(size))
        },
    }
}

#[verifier::when_used_as_spec(spec_validate_patches)]
pub fn validate_patches(state: &MaxwellThreeDState) -> (r: Result<(), MaxwellThreeDLoweringError>)
    ensures
        r == spec_validate_patches(state),
{
    match state.vertex_input.patch_size.value {
        None => Err(MaxwellThreeDLoweringError::IncompleteDraw("SET_PATCH")),
        Some(size) => if size.control_points() == 0 {
            Err(MaxwellThreeDLoweringError::InvalidPatchSize(size))
        } else {
            Err(MaxwellThreeDLoweringError::UnsupportedPatchSemantics(size))
        },
    }
}

/// Whether either face of polygons is drawn as lines.
pub open spec fn spec_polygon_line_mode(state: &MaxwellThreeDState) -> bool {
    matches!(
        state.fixed_function.value_of(MaxwellThreeDFixedFunctionRegister::FrontPolygonMode),
        Some(MaxwellThreeDFixedFunctionValue::PolygonMode(MaxwellThreeDPolygonMode::Line))
    ) || matches!(
        state.fixed_function.value_of(MaxwellThreeDFixedFunctionRegister::BackPolygonMode),
        Some(MaxwellThreeDFixedFunctionValue::PolygonMode(MaxwellThreeDPolygonMode::Line))
    )
}

#[verifier::when_used_as_spec(spec_polygon_line_mode)]
pub fn polygon_line_mode(state: &MaxwellThreeDState) -> (r: bool)
    ensures
        r == spec_polygon_line_mode(state),
{
    matches!(
        state.fixed_function.value_of(MaxwellThreeDFixedFunctionRegister::FrontPolygonMode),
        Some(MaxwellThreeDFixedFunctionValue::PolygonMode(MaxwellThreeDPolygonMode::Line))
    ) || matches!(
        state.fixed_function.value_of(MaxwellThreeDFixedFunctionRegister::BackPolygonMode),
        Some(MaxwellThreeDFixedFunctionValue::PolygonMode(MaxwellThreeDPolygonMode::Line))
    )
}

/// Whether the open sequence draws lines, directly or as polygon edges.
pub open spec fn spec_draws_lines(state: &MaxwellThreeDState) -> bool {
    open_topology(state) == Some(1u8) || open_topology(state) == Some(3u8) || (is_polygon(
        open_topology(state),
    ) && polygon_line_mode(state))
}

#[verifier::when_used_as_spec(spec_draws_lines)]
pub fn draws_lines(state: &MaxwellThreeDState) -> (r: bool)
    ensures
        r == spec_draws_lines(state),
{
    open_topology(state) == Some(1u8) || open_topology(state) == Some(3u8) || (is_polygon(
        open_topology(state),
    ) && polygon_line_mode(state))
}

/// Lines must be plain and of programmed width; draws without lines need nothing.
pub open spec fn spec_validate_line_rasterization_state(state: &MaxwellThreeDState) -> Result<(), MaxwellThreeDLoweringError> {
    if !draws_lines(state) {
        Ok(())
    } else if state.line.anti_aliased_line_enable.value == Some(MaxwellThreeDAntiAliasedLineEnable::Enabled) {
        Err(MaxwellThreeDLoweringError::UnsupportedAntiAliasedLineSemantics)
    } else if state.line.stipple_enable.value == Some(true) {
        match state.line.stipple_parameters.value {
            Some(parameters) => Err(
                MaxwellThreeDLoweringError::UnsupportedLineStippleSemantics {
                    factor: parameters.factor,
                    pattern: parameters.pattern,
                },
            ),
            None => Err(MaxwellThreeDLoweringError::IncompleteDraw("SET_LINE_STIPPLE_PARAMETERS")),
        }
    } else if is_polygon(open_topology(state)) && polygon_line_mode(state)
        && state.line.polygon_clip_generated_edge.value == Some(
        MaxwellThreeDPolygonClipGeneratedEdge::DoNotDrawLine,
    ) {
        Err(MaxwellThreeDLoweringError::UnsupportedPolygonClipGeneratedEdgeSemantics)
    } else {
        match state.line.aliased_line_width_enable.value {
            None => Err(MaxwellThreeDLoweringError::IncompleteDraw("SET_ALIASED_LINE_WIDTH_ENABLE")),
            Some(MaxwellThreeDAliasedLineWidthEnable::Disabled) => if state.fixed_function.value_of(
                MaxwellThreeDFixedFunctionRegister::LineWidth,
            ).is_some() {
                Ok(())
            } else {
                Err(MaxwellThreeDLoweringError::IncompleteDraw("SET_LINE_WIDTH_FLOAT"))
            },
            Some(MaxwellThreeDAliasedLineWidthEnable::Enabled) => Err(
                MaxwellThreeDLoweringError::UnsupportedAliasedLineWidthSemantics,
            ),
        }
    }
}

#[verifier::when_used_as_spec(spec_validate_line_rasterization_state)]
pub fn validate_line_rasterization_state(state: &MaxwellThreeDState) -> (r: Result<(), MaxwellThreeDLoweringError>)
    ensures
        r == spec_validate_line_rasterization_state(state),
{
    if !draws_lines(state) {
        Ok(())
    } else if state.line.anti_aliased_line_enable.value == Some(MaxwellThreeDAntiAliasedLineEnable::Enabled) {
        Err(MaxwellThreeDLoweringError::UnsupportedAntiAliasedLineSemantics)
    } else if state.line.stipple_enable.value == Some(true) {
        match state.line.stipple_parameters.value {
            Some(parameters) => Err(
                MaxwellThreeDLoweringError::UnsupportedLineStippleSemantics {
                    factor: parameters.factor,
                    pattern: parameters.pattern,
                },
            ),
            None => Err(MaxwellThreeDLoweringError::IncompleteDraw("SET_LINE_STIPPLE_PARAMETERS")),
        }
    } else if is_polygon(open_topology(state)) && polygon_line_mode(state)
        && state.line.polygon_clip_generated_edge.value == Some(
        MaxwellThreeDPolygonClipGeneratedEdge::DoNotDrawLine,
    ) {
        Err(MaxwellThreeDLoweringError::UnsupportedPolygonClipGeneratedEdgeSemantics)
    } else {
        match state.line.aliased_line_width_enable.value {
            None => Err(MaxwellThreeDLoweringError::IncompleteDraw("SET_ALIASED_LINE_WIDTH_ENABLE")),
            Some(MaxwellThreeDAliasedLineWidthEnable::Disabled) => if state.fixed_function.value_of(
                MaxwellThreeDFixedFunctionRegister::LineWidth,
            ).is_some() {
                Ok(())
            } else {
                Err(MaxwellThreeDLoweringError::IncompleteDraw("SET_LINE_WIDTH_FLOAT"))
            },
            Some(MaxwellThreeDAliasedLineWidthEnable::Enabled) => Err(
                MaxwellThreeDLoweringError::UnsupportedAliasedLineWidthSemantics,
            ),
        }
    }
}

/// A disabled edge flag that shows is refused, then the lines are checked.
pub open spec fn spec_validate_edges(state: &MaxwellThreeDState, facts: &MaxwellThreeDDrawFacts) -> Result<(), MaxwellThreeDLoweringError> {
    if facts.edge_flag_affects_draw {
        Err(MaxwellThreeDLoweringError::UnsupportedEdgeFlagSemantics(
            MaxwellThreeDEdgeFlag::Disabled,
        ))
    } else {
        validate_line_rasterization_state(state)
    }
}

#[verifier::when_used_as_spec(spec_validate_edges)]
pub fn validate_edges(state: &MaxwellThreeDState, facts: &MaxwellThreeDDrawFacts) -> (r: Result<(), MaxwellThreeDLoweringError>)
    ensures
        r == spec_validate_edges(state, facts),
{
    if facts.edge_flag_affects_draw {
        Err(MaxwellThreeDLoweringError::UnsupportedEdgeFlagSemantics(
            MaxwellThreeDEdgeFlag::Disabled,
        ))
    } else {
        validate_line_rasterization_state(state)
    }
}

/// A half-programmed program region and patches are refused; points and lines are
/// checked.
pub open spec fn spec_validate_primitives(state: &MaxwellThreeDState, facts: &MaxwellThreeDDrawFacts) -> Result<(), MaxwellThreeDLoweringError> {
    if state.shader_bindings.has_enabled_pipeline()
        && state.shader_bindings.program_region.is_partially_programmed() {
        Err(MaxwellThreeDLoweringError::IncompleteDraw("SET_PROGRAM_REGION_A/B"))
    } else if open_topology(state) == Some(14u8) {
        validate_patches(state)
    } else if open_topology(state) == Some(0u8) {
        match validate_points(state, facts) {
            Ok(()) => validate_edges(state, facts),
            Err(error) => Err(error),
        }
    } else {
        validate_edges(state, facts)
    }
}

#[verifier::when_used_as_spec(spec_validate_primitives)]
pub fn validate_primitives(state: &MaxwellThreeDState, facts: &MaxwellThreeDDrawFacts) -> (r: Result<(), MaxwellThreeDLoweringError>)
    ensures
        r == spec_validate_primitives(state, facts),
{
    if state.shader_bindings.has_enabled_pipeline()
        && state.shader_bindings.program_region.is_partially_programmed() {
        Err(MaxwellThreeDLoweringError::IncompleteDraw("SET_PROGRAM_REGION_A/B"))
    } else if open_topology(state) == Some(14u8) {
        validate_patches(state)
    } else if open_topology(state) == Some(0u8) {
        match validate_points(state, facts) {
            Ok(()) => validate_edges(state, facts),
            Err(error) => Err(error),
        }
    } else {
        validate_edges(state, facts)
    }
}

/// Everything a draw must satisfy before its attachments are looked at; the first
/// check that fails decides.
#[verifier::opaque]
pub open spec fn spec_validate_draw_state(
    state: &MaxwellThreeDState,
    facts: &MaxwellThreeDDrawFacts,
) -> Result<(), MaxwellThreeDLoweringError> {
    and_then(
        validate_interpolation(state),
        and_then(
            validate_local_memory(state),
            and_then(
                validate_shader_execution(state, facts),
                and_then(
                    validate_coverage(state),
                    and_then(
                        validate_viewport(state, &facts.refusals),
                        and_then(
                            validate_polygons(state),
                            validate_primitives(state, facts),
                        ),
                    ),
                ),
            ),
        ),
    )
}

pub fn validate_draw_state(state: &MaxwellThreeDState, facts: &MaxwellThreeDDrawFacts) -> (r: Result<
    (),
    MaxwellThreeDLoweringError,
>)
    ensures
        r == spec_validate_draw_state(state, facts),
{
    reveal(spec_validate_draw_state);
    if let Err(error) = validate_interpolation(state) {
        return Err(error);
    }
    if let Err(error) = validate_local_memory(state) {
        return Err(error);
    }
    if let Err(error) = validate_shader_execution(state, facts) {
        return Err(error);
    }
    if let Err(error) = validate_coverage(state) {
        return Err(error);
    }
    if let Err(error) = validate_viewport(state, &facts.refusals) {
        return Err(error);
    }
    if let Err(error) = validate_polygons(state) {
        return Err(error);
    }
    validate_primitives(state, facts)
}

} // verus!
