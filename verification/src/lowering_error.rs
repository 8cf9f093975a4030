//! Reasons why a trigger cannot be lowered.

use vstd::prelude::*;
use crate::bindings::MaxwellThreeDShaderStage;
use crate::coverage::{MaxwellThreeDAlphaToCoverageOverride, MaxwellThreeDCoverageToColor, MaxwellThreeDHybridAntiAliasControl, MaxwellThreeDSampleLocationGroup, MaxwellThreeDTirControl};
use crate::neutral::{GpuAllocationId, ShaderStage};
use crate::output::{MaxwellThreeDColorMask, MaxwellThreeDIteratedBlend, MaxwellThreeDLogicOp, MaxwellThreeDPixelShaderClampRange, MaxwellThreeDProvokingVertex, MaxwellThreeDShadeMode, MaxwellThreeDViewportCoordinateSwizzle};
use crate::raster::{MaxwellThreeDEdgeFlag, MaxwellThreeDFillViaTriangleMode, MaxwellThreeDPointCenterMode, MaxwellThreeDPointSpriteSelect, MaxwellThreeDViewportPixelCenter};
use crate::render_enable::MaxwellThreeDRenderEnableMode;
use crate::render_targets::{MaxwellThreeDRenderTargetIndexOffset, MaxwellThreeDRenderTargetLayer};
use crate::resource::MaxwellThreeDResourceRole;
use crate::shader_execution::{MaxwellThreeDDirectlyAddressableMemory, MaxwellThreeDPixelShaderInterlockControl, MaxwellThreeDShaderLocalMemoryPerWarpSize};
use crate::vertex::{MaxwellThreeDPatchSize, MaxwellThreeDVertexComponentWidths, MaxwellThreeDVertexNumericalType};

verus! {

/// Coordinates that points generate: the textures they are for, one bit each, and the
/// names of the mode of their third component and of their origin.
#[derive(Clone, Copy, Debug, PartialEq, Eq)]
pub struct MaxwellThreeDPointSpriteCoordinates {
    pub generated_texture_mask: u16,
    pub r_mode: &'static str,
    pub origin: &'static str,
}

/// Why a trigger cannot be lowered. Where a message shows the name of a register field
/// that is held uninterpreted, the error carries that name. Nothing reaches a backend
/// before lowering succeeds.
#[derive(Clone, Copy, Debug, PartialEq, Eq)]
#[allow(inconsistent_fields)]
pub enum MaxwellThreeDLoweringError {
    ContradictoryState {
        reason: &'static str,
    },
    TriggerStateMismatch,
    UnsupportedRenderEnableMode(MaxwellThreeDRenderEnableMode),
    UnsupportedConditionalLoadConstantBufferSemantics,
    VisibleCallLimitExceeded {
        stage: ShaderStage,
        required: u16,
        limit: u16,
    },
    UnsupportedColorReductionSemantics,
    UnsupportedConstantColorRenderingSemantics,
    UnsupportedApiMandatedEarlyZSemantics,
    UnsupportedPostZPixelShaderImaskSemantics,
    UnsupportedPixelShaderInterlockSemantics(
        MaxwellThreeDPixelShaderInterlockControl,
        &'static str,
    ),
    UnsupportedGlobalBaseVertexIndex(u32),
    UnsupportedCsaaSemantics,
    UnsupportedCoverageToColorSemantics(MaxwellThreeDCoverageToColor),
    UnsupportedAlphaToCoverageOverrideSemantics(MaxwellThreeDAlphaToCoverageOverride),
    UnsupportedTirSemantics {
        control: Option<MaxwellThreeDTirControl>,
    },
    UnsupportedHybridAntiAliasSemantics(MaxwellThreeDHybridAntiAliasControl),
    UnsupportedSampleLocationsSemantics {
        group: u8,
        value: MaxwellThreeDSampleLocationGroup,
    },
    UnsupportedPsOutputSampleMaskSemantics,
    UnsupportedReplicatedColorTargetOutputSemantics,
    UnsupportedRenderTargetIndexOffsetSemantics(MaxwellThreeDRenderTargetIndexOffset),
    UnsupportedRenderTargetLayerSemantics(MaxwellThreeDRenderTargetLayer, &'static str),
    UnsupportedShaderLocalMemorySemantics {
        default_size_per_warp: MaxwellThreeDShaderLocalMemoryPerWarpSize,
    },
    UnsupportedViewportPixelCenterSemantics(MaxwellThreeDViewportPixelCenter),
    UnsupportedViewportCoordinateSwizzleSemantics {
        viewport: u8,
        swizzle: MaxwellThreeDViewportCoordinateSwizzle,
    },
    UnsupportedSurfaceClipSemantics,
    UnsupportedWindowClipSemantics,
    UnsupportedClipIdTestSemantics,
    UnsupportedStencilTestSemantics {
        two_sided: bool,
    },
    UnsupportedClearStencilMaskSemantics,
    UnsupportedAliasedLineWidthSemantics,
    UnsupportedAntiAliasedLineSemantics,
    UnsupportedLineStippleSemantics {
        factor: u8,
        pattern: u16,
    },
    UnsupportedPolygonClipGeneratedEdgeSemantics,
    UnsupportedVertexAttributeFormat {
        attribute: u8,
        component_widths: MaxwellThreeDVertexComponentWidths,
        numerical_type: MaxwellThreeDVertexNumericalType,
        swap_red_blue: bool,
    },
    UnsupportedVertexInstanceDivisor {
        stream: u8,
        divisor: u32,
    },
    InvalidPatchSize(MaxwellThreeDPatchSize),
    UnsupportedPatchSemantics(MaxwellThreeDPatchSize),
    UnsupportedPointSpriteCoordinatesSemantics(
        MaxwellThreeDPointSpriteSelect,
        MaxwellThreeDPointSpriteCoordinates,
    ),
    UnsupportedAttributePointSizeSemantics {
        slot: u8,
    },
    UnsupportedPointSpriteSemantics,
    UnsupportedAntiAliasedPointSemantics,
    UnsupportedPointCenterSemantics(MaxwellThreeDPointCenterMode),
    UnsupportedFillViaTriangleSemantics(MaxwellThreeDFillViaTriangleMode),
    UnsupportedFillRectangleDraw(&'static str),
    UnsupportedConservativeRasterSemantics,
    UnsupportedPolygonSmoothSemantics,
    UnsupportedPolygonStippleSemantics,
    UnsupportedEdgeFlagSemantics(MaxwellThreeDEdgeFlag),
    UnsupportedShadeModeSemantics(MaxwellThreeDShadeMode),
    UnsupportedProvokingVertexSemantics(MaxwellThreeDProvokingVertex),
    UnsupportedTwoSidedLightSemantics,
    UnsupportedColorClampSemantics,
    UnsupportedPixelShaderSaturateSemantics {
        output: u8,
        range: MaxwellThreeDPixelShaderClampRange,
    },
    UnsupportedBlendSemantics {
        target: Option<u8>,
    },
    UnsupportedIteratedBlendSemantics {
        value: MaxwellThreeDIteratedBlend,
        pass_count: Option<u8>,
    },
    IncompleteLogicOpState,
    UnsupportedLogicOpSemantics(MaxwellThreeDLogicOp),
    IncompleteColorWriteState {
        target: u8,
        mask_register: u8,
    },
    UnsupportedColorWriteMask {
        target: u8,
        mask_register: u8,
        mask: MaxwellThreeDColorMask,
    },
    IncompleteAlphaTestState(&'static str),
    CompressedDepthImportRequired {
        kind: u8,
    },
    CompressedColorImportRequired {
        target: u8,
    },
    ShaderTranslationRequired,
    InvalidTranslatedShaders,
    TranslatedShaderStageMismatch,
    TranslatedShaderMemoryConfigurationMismatch {
        stage: ShaderStage,
        configured: MaxwellThreeDDirectlyAddressableMemory,
        required: MaxwellThreeDDirectlyAddressableMemory,
        configured_bytes: u32,
        required_bytes: u32,
    },
    UnsupportedShaderStage(MaxwellThreeDShaderStage),
    InvalidShaderResourceUse {
        role: MaxwellThreeDResourceRole,
    },
    MissingResolvedResource {
        role: MaxwellThreeDResourceRole,
    },
    ResolvedResourceKindMismatch,
    InvalidResolvedView {
        role: MaxwellThreeDResourceRole,
    },
    AllocationDescriptionChanged {
        allocation: GpuAllocationId,
    },
    IncompleteClear(&'static str),
    EmptyClearMask,
    EmptyClearRectangle,
    PartialColorClearUnsupported {
        mask: u8,
    },
    ClearOutsideAttachment,
    IncompleteDraw(&'static str),
    IncompleteBlendState {
        target: Option<u8>,
        field: &'static str,
    },
    ColorTargetRouteUnprogrammed {
        slot: u8,
        target: u8,
    },
    ColorTargetRouteDisabled {
        slot: u8,
        target: u8,
    },
    ColorTargetRouteIncomplete {
        slot: u8,
        target: u8,
    },
    DuplicateColorTargetRoute {
        target: u8,
    },
    EmptyDraw,
    UnsupportedPrimitiveIdContinuation,
    UnsupportedPrimitiveSplitMode(u8),
    InstanceIndexOverflow {
        base: u32,
        relative: u32,
    },
    UnsupportedTopology(u8),
    AliasedDrawResources {
        first: MaxwellThreeDResourceRole,
        second: MaxwellThreeDResourceRole,
    },
    InvalidTransition,
    InvalidResourceCreation,
    Command(&'static str),
    Capability(&'static str),
    ResourceExhausted,
}

} // verus!
