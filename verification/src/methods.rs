//! Methods outside the register families: their names, defined bits and actions.

use vstd::prelude::*;
use crate::color_reduction::{MaxwellThreeDColorReductionStateWrite, MaxwellThreeDColorReductionThresholdsEnable, MaxwellThreeDColorReductionThresholdsFp16, MaxwellThreeDColorReductionThresholdsSrgb8, MaxwellThreeDColorReductionThresholdsUnorm10, MaxwellThreeDColorReductionThresholdsUnorm16, MaxwellThreeDColorReductionThresholdsUnorm8};
use crate::constant_color::{MaxwellThreeDConstantColorComponent, MaxwellThreeDConstantColorRenderingStateWrite, MaxwellThreeDConstantColorValue};
use crate::counters::{MaxwellThreeDCounterStateWrite, MaxwellThreeDZPassPixelCountEnable};
use crate::coverage::{MaxwellThreeDAlphaToCoverageOverride, MaxwellThreeDCoverageStateWrite, MaxwellThreeDCoverageToColor, MaxwellThreeDCsaaEnable, MaxwellThreeDHybridAntiAliasControl, MaxwellThreeDPostZPixelShaderImask, MaxwellThreeDPsOutputSampleMaskUsage, MaxwellThreeDSampleLocationGroup, MaxwellThreeDTirControl, MaxwellThreeDTirMode, MaxwellThreeDTirModulationComponentSelect, MaxwellThreeDTirModulationFunction};
use crate::dispatch_error::MaxwellEngineCapability;
use crate::instrumentation::{MaxwellThreeDInstrumentationStateWrite, MaxwellThreeDInstrumentationValue};
use crate::l2_cache::{MaxwellThreeDL2CacheEvictionPolicy, MaxwellThreeDL2CacheStateWrite, MaxwellThreeDRopL2CacheRequest, MaxwellThreeDVafL2CacheControl};
use crate::line::{MaxwellThreeDAliasedLineWidthEnable, MaxwellThreeDLineStateWrite};
use crate::mme::{MaxwellThreeDMmeShadowRamControl, MaxwellThreeDMmeStateWrite, MaxwellThreeDMutableMethodControl};
use crate::operations::{MaxwellShaderCacheInvalidation, MaxwellThreeDFlushPendingWrites, MaxwellThreeDReportSemaphoreControl, MaxwellThreeDReportSemaphoreStateWrite, MaxwellThreeDShaderCacheInvalidation, MaxwellThreeDSynchronizationTrigger, MaxwellThreeDSyncpointIncrement, MaxwellThreeDTextureCacheInvalidation, MaxwellThreeDTextureCacheTarget};
use crate::output::{MaxwellThreeDFixedFunctionWrite, MaxwellThreeDIteratedBlend, MaxwellThreeDIteratedBlendPassCount};
use crate::profile::{MaxwellGpuProfile, MaxwellThreeDEncodedField};
use crate::raster::{MaxwellThreeDAlphaFraction, MaxwellThreeDEdgeFlag, MaxwellThreeDPointCenterMode, MaxwellThreeDPointSize, MaxwellThreeDPointSpriteSelect, MaxwellThreeDRasterBoundingBox, MaxwellThreeDRasterStateWrite, MaxwellThreeDViewportZClipRange};
use crate::register::MaxwellMethodSource;
use crate::render_enable::{MaxwellThreeDConditionalLoadConstantBuffer, MaxwellThreeDRenderEnableMode, MaxwellThreeDRenderEnableStateWrite};
use crate::shader_execution::{MaxwellThreeDApiMandatedEarlyZ, MaxwellThreeDDirectlyAddressableMemory, MaxwellThreeDPixelShaderInterlockControl, MaxwellThreeDShaderExceptionsEnable, MaxwellThreeDShaderExecutionStateWrite, MaxwellThreeDShaderLocalMemoryPerWarpSize, MaxwellThreeDShaderWatermarkRange, MaxwellThreeDShaderWatermarkTarget, MaxwellThreeDSmTimeoutCounterBit, MaxwellThreeDSubtilingPerfKnobA, MaxwellThreeDSubtilingPerfKnobB, MaxwellThreeDVisibleCallLimit};
use crate::state::MaxwellThreeDStateWrite;
use crate::tiled_cache::{MaxwellThreeDTiledCacheFlushMode, MaxwellThreeDTiledCacheStateWrite, MaxwellThreeDTiledCacheTileSize, MaxwellThreeDTiledCacheUnknownConfig};
use crate::zcull::{MaxwellThreeDZCullBounds, MaxwellThreeDZCullCriterion, MaxwellThreeDZCullEnable, MaxwellThreeDZCullRegionId, MaxwellThreeDZCullStateWrite, MaxwellThreeDZCullStatsEnable};

verus! {

/// Register that a declared method writes, and how its word is decoded.
#[derive(Clone, Copy, Debug, PartialEq, Eq, Hash, Structural)]
pub enum MaxwellThreeDWriteAction {
    InstrumentationHeader,
    InstrumentationData,
    IteratedBlend,
    IteratedBlendPassCount,
    MmeShadowRamControl,
    MutableMethodControl,
    SubtilingPerfKnobA,
    SubtilingPerfKnobB,
    TiledCacheEnable,
    TiledCacheTileSize,
    TiledCacheUnknownConfig(u8),
    ShaderWatermarks(MaxwellThreeDShaderWatermarkTarget),
    L1Configuration,
    ColorReductionThresholdsEnable,
    ColorReductionThresholdsUnorm8,
    ColorReductionThresholdsUnorm10,
    ColorReductionThresholdsUnorm16,
    ColorReductionThresholdsFp16,
    ColorReductionThresholdsSrgb8,
    ConstantColorRenderingEnable,
    ConstantColorRenderingComponent(MaxwellThreeDConstantColorComponent),
    ApiMandatedEarlyZ,
    PostZPixelShaderImask,
    PixelShaderInterlockControl,
    AlphaFraction,
    RasterBoundingBox,
    VafL2CacheControl,
    RopL2CacheControl(MaxwellThreeDRopL2CacheRequest),
    ReportSemaphoreAddressUpper,
    ReportSemaphoreAddressLower,
    ReportSemaphorePayload,
    PointSize,
    PointSpriteSelect,
    PointCenterMode,
    EdgeFlag,
    ViewportZClip,
    RenderEnableMode,
    PsOutputSampleMaskUsage,
    HybridAntiAliasControl,
    TirMode,
    TirControl,
    TirModulation,
    TirModulationFunction,
    CoverageToColor,
    AlphaToCoverageOverride,
    SampleLocations(u8),
    RenderEnableControl,
    VisibleCallLimit,
    SmTimeoutCounterBit,
    ShaderExceptionsEnable,
    ShaderLocalMemoryWindowBaseAddress,
    ShaderLocalMemoryAddressUpper,
    ShaderLocalMemoryAddressLower,
    ShaderLocalMemorySizeUpper,
    ShaderLocalMemorySizeLower,
    ShaderLocalMemoryDefaultSizePerWarp,
    CsaaEnable,
    AliasedLineWidthEnable,
    ActiveZCullRegion,
    ZCullStatsEnable,
    ZPassPixelCountEnable,
    ZCullCriterion,
    ZCullEnable,
    ZCullBounds,
}

impl MaxwellThreeDWriteAction {
    /// Register indices are in range.
    pub open spec fn wf(self) -> bool {
        match self {
            MaxwellThreeDWriteAction::TiledCacheUnknownConfig(index) => index < 4,
            MaxwellThreeDWriteAction::SampleLocations(group) => group < 4,
            _ => true,
        }
    }

    /// Transition of a word that the register defines.
    pub open spec fn spec_decode(
        self,
        profile: &MaxwellGpuProfile,
        source: MaxwellMethodSource,
    ) -> Option<MaxwellThreeDStateWrite> {
        let raw = source.argument();
        match self {
            MaxwellThreeDWriteAction::InstrumentationHeader => Some(
                MaxwellThreeDStateWrite::Instrumentation(MaxwellThreeDInstrumentationStateWrite::Header { value: MaxwellThreeDInstrumentationValue(raw), source }),
            ),
            MaxwellThreeDWriteAction::InstrumentationData => Some(
                MaxwellThreeDStateWrite::Instrumentation(MaxwellThreeDInstrumentationStateWrite::Data { value: MaxwellThreeDInstrumentationValue(raw), source }),
            ),
            MaxwellThreeDWriteAction::IteratedBlend => match MaxwellThreeDIteratedBlend::parse(raw) {
                Some(value) => Some(
                    MaxwellThreeDStateWrite::FixedFunction(MaxwellThreeDFixedFunctionWrite::IteratedBlend { value, source }),
                ),
                None => None,
            },
            MaxwellThreeDWriteAction::IteratedBlendPassCount => Some(
                MaxwellThreeDStateWrite::FixedFunction(MaxwellThreeDFixedFunctionWrite::IteratedBlendPassCount { value: MaxwellThreeDIteratedBlendPassCount(raw as u8), source }),
            ),
            MaxwellThreeDWriteAction::MmeShadowRamControl => match MaxwellThreeDMmeShadowRamControl::parse(raw) {
                Some(value) => Some(
                    MaxwellThreeDStateWrite::Mme(MaxwellThreeDMmeStateWrite::ShadowRamControl { value, source }),
                ),
                None => None,
            },
            MaxwellThreeDWriteAction::MutableMethodControl => match MaxwellThreeDMutableMethodControl::parse(raw) {
                Some(value) => Some(
                    MaxwellThreeDStateWrite::Mme(MaxwellThreeDMmeStateWrite::MutableMethodControl { value, source }),
                ),
                None => None,
            },
            MaxwellThreeDWriteAction::SubtilingPerfKnobA => Some(
                MaxwellThreeDStateWrite::ShaderExecution(MaxwellThreeDShaderExecutionStateWrite::SubtilingPerfKnobA { value: MaxwellThreeDSubtilingPerfKnobA(raw), source }),
            ),
            MaxwellThreeDWriteAction::SubtilingPerfKnobB => match MaxwellThreeDSubtilingPerfKnobB::new(raw) {
                Some(value) => Some(
                    MaxwellThreeDStateWrite::ShaderExecution(MaxwellThreeDShaderExecutionStateWrite::SubtilingPerfKnobB { value, source }),
                ),
                None => None,
            },
            MaxwellThreeDWriteAction::TiledCacheEnable => Some(
                MaxwellThreeDStateWrite::TiledCache(MaxwellThreeDTiledCacheStateWrite::Enable { value: raw != 0, source }),
            ),
            MaxwellThreeDWriteAction::TiledCacheTileSize => Some(
                MaxwellThreeDStateWrite::TiledCache(MaxwellThreeDTiledCacheStateWrite::TileSize { value: MaxwellThreeDTiledCacheTileSize(raw), source }),
            ),
            MaxwellThreeDWriteAction::TiledCacheUnknownConfig(index) => Some(
                MaxwellThreeDStateWrite::TiledCache(MaxwellThreeDTiledCacheStateWrite::UnknownConfig { index, value: MaxwellThreeDTiledCacheUnknownConfig(raw), source }),
            ),
            MaxwellThreeDWriteAction::ShaderWatermarks(target) => Some(
                MaxwellThreeDStateWrite::ShaderExecution(MaxwellThreeDShaderExecutionStateWrite::ShaderWatermarks { target, value: MaxwellThreeDShaderWatermarkRange(raw), source }),
            ),
            MaxwellThreeDWriteAction::L1Configuration => if profile.accepts(
                MaxwellThreeDEncodedField::L1Configuration,
                raw,
            ) {
                Some(MaxwellThreeDStateWrite::ShaderExecution(MaxwellThreeDShaderExecutionStateWrite::L1Configuration { value: MaxwellThreeDDirectlyAddressableMemory(raw), source }))
            } else {
                None
            },
            MaxwellThreeDWriteAction::ColorReductionThresholdsEnable => match MaxwellThreeDColorReductionThresholdsEnable::parse(raw) {
                Some(value) => Some(
                    MaxwellThreeDStateWrite::ColorReduction(MaxwellThreeDColorReductionStateWrite::Enable { value, source }),
                ),
                None => None,
            },
            MaxwellThreeDWriteAction::ColorReductionThresholdsUnorm8 => match MaxwellThreeDColorReductionThresholdsUnorm8::parse(raw) {
                Some(value) => Some(
                    MaxwellThreeDStateWrite::ColorReduction(MaxwellThreeDColorReductionStateWrite::ThresholdsUnorm8 { value, source }),
                ),
                None => None,
            },
            MaxwellThreeDWriteAction::ColorReductionThresholdsUnorm10 => match MaxwellThreeDColorReductionThresholdsUnorm10::parse(raw) {
                Some(value) => Some(
                    MaxwellThreeDStateWrite::ColorReduction(MaxwellThreeDColorReductionStateWrite::ThresholdsUnorm10 { value, source }),
                ),
                None => None,
            },
            MaxwellThreeDWriteAction::ColorReductionThresholdsUnorm16 => match MaxwellThreeDColorReductionThresholdsUnorm16::parse(raw) {
                Some(value) => Some(
                    MaxwellThreeDStateWrite::ColorReduction(MaxwellThreeDColorReductionStateWrite::ThresholdsUnorm16 { value, source }),
                ),
                None => None,
            },
            MaxwellThreeDWriteAction::ColorReductionThresholdsFp16 => match MaxwellThreeDColorReductionThresholdsFp16::parse(raw) {
                Some(value) => Some(
                    MaxwellThreeDStateWrite::ColorReduction(MaxwellThreeDColorReductionStateWrite::ThresholdsFp16 { value, source }),
                ),
                None => None,
            },
            MaxwellThreeDWriteAction::ColorReductionThresholdsSrgb8 => match MaxwellThreeDColorReductionThresholdsSrgb8::parse(raw) {
                Some(value) => Some(
                    MaxwellThreeDStateWrite::ColorReduction(MaxwellThreeDColorReductionStateWrite::ThresholdsSrgb8 { value, source }),
                ),
                None => None,
            },
            MaxwellThreeDWriteAction::ConstantColorRenderingEnable => Some(
                MaxwellThreeDStateWrite::ConstantColorRendering(MaxwellThreeDConstantColorRenderingStateWrite::Enable { value: raw != 0, source }),
            ),
            MaxwellThreeDWriteAction::ConstantColorRenderingComponent(component) => Some(
                MaxwellThreeDStateWrite::ConstantColorRendering(MaxwellThreeDConstantColorRenderingStateWrite::Component { component, value: MaxwellThreeDConstantColorValue(raw), source }),
            ),
            MaxwellThreeDWriteAction::ApiMandatedEarlyZ => match MaxwellThreeDApiMandatedEarlyZ::parse(raw) {
                Some(value) => Some(
                    MaxwellThreeDStateWrite::ShaderExecution(MaxwellThreeDShaderExecutionStateWrite::ApiMandatedEarlyZ { value, source }),
                ),
                None => None,
            },
            MaxwellThreeDWriteAction::PostZPixelShaderImask => match MaxwellThreeDPostZPixelShaderImask::parse(raw) {
                Some(value) => Some(
                    MaxwellThreeDStateWrite::Coverage(MaxwellThreeDCoverageStateWrite::PostZPixelShaderImask { value, source }),
                ),
                None => None,
            },
            MaxwellThreeDWriteAction::PixelShaderInterlockControl => if profile.accepts(
                MaxwellThreeDEncodedField::PixelShaderInterlockControl,
                raw,
            ) {
                Some(MaxwellThreeDStateWrite::ShaderExecution(MaxwellThreeDShaderExecutionStateWrite::PixelShaderInterlockControl { value: MaxwellThreeDPixelShaderInterlockControl(raw), source }))
            } else {
                None
            },
            MaxwellThreeDWriteAction::AlphaFraction => Some(
                MaxwellThreeDStateWrite::Raster(MaxwellThreeDRasterStateWrite::AlphaFraction { value: MaxwellThreeDAlphaFraction(raw as u8), source }),
            ),
            MaxwellThreeDWriteAction::RasterBoundingBox => Some(
                MaxwellThreeDStateWrite::Raster(MaxwellThreeDRasterStateWrite::RasterBoundingBox { value: MaxwellThreeDRasterBoundingBox(raw), source }),
            ),
            MaxwellThreeDWriteAction::VafL2CacheControl => match MaxwellThreeDVafL2CacheControl::parse(raw) {
                Some(value) => Some(
                    MaxwellThreeDStateWrite::L2Cache(MaxwellThreeDL2CacheStateWrite::VafControl { value, source }),
                ),
                None => None,
            },
            MaxwellThreeDWriteAction::RopL2CacheControl(request) => match MaxwellThreeDL2CacheEvictionPolicy::parse(raw) {
                Some(value) => Some(
                    MaxwellThreeDStateWrite::L2Cache(MaxwellThreeDL2CacheStateWrite::RopPolicy { request, value, source }),
                ),
                None => None,
            },
            MaxwellThreeDWriteAction::ReportSemaphoreAddressUpper => Some(
                MaxwellThreeDStateWrite::ReportSemaphore(MaxwellThreeDReportSemaphoreStateWrite::AddressUpper { value: raw as u8, source }),
            ),
            MaxwellThreeDWriteAction::ReportSemaphoreAddressLower => Some(
                MaxwellThreeDStateWrite::ReportSemaphore(MaxwellThreeDReportSemaphoreStateWrite::AddressLower { value: raw, source }),
            ),
            MaxwellThreeDWriteAction::ReportSemaphorePayload => Some(
                MaxwellThreeDStateWrite::ReportSemaphore(MaxwellThreeDReportSemaphoreStateWrite::Payload { value: raw, source }),
            ),
            MaxwellThreeDWriteAction::PointSize => Some(
                MaxwellThreeDStateWrite::Raster(MaxwellThreeDRasterStateWrite::PointSize { value: MaxwellThreeDPointSize(raw), source }),
            ),
            MaxwellThreeDWriteAction::PointSpriteSelect => if profile.accepts(
                MaxwellThreeDEncodedField::PointSpriteSelect,
                raw,
            ) {
                Some(MaxwellThreeDStateWrite::Raster(MaxwellThreeDRasterStateWrite::PointSpriteSelect { value: MaxwellThreeDPointSpriteSelect(raw), source }))
            } else {
                None
            },
            MaxwellThreeDWriteAction::PointCenterMode => match MaxwellThreeDPointCenterMode::parse(raw) {
                Some(value) => Some(
                    MaxwellThreeDStateWrite::Raster(MaxwellThreeDRasterStateWrite::PointCenterMode { value, source }),
                ),
                None => None,
            },
            MaxwellThreeDWriteAction::EdgeFlag => match MaxwellThreeDEdgeFlag::parse(raw) {
                Some(value) => Some(
                    MaxwellThreeDStateWrite::Raster(MaxwellThreeDRasterStateWrite::EdgeFlag { value, source }),
                ),
                None => None,
            },
            MaxwellThreeDWriteAction::ViewportZClip => match MaxwellThreeDViewportZClipRange::parse(raw) {
                Some(value) => Some(
                    MaxwellThreeDStateWrite::Raster(MaxwellThreeDRasterStateWrite::ViewportZClip { value, source }),
                ),
                None => None,
            },
            MaxwellThreeDWriteAction::RenderEnableMode => match MaxwellThreeDRenderEnableMode::parse(raw) {
                Some(value) => Some(
                    MaxwellThreeDStateWrite::RenderEnable(MaxwellThreeDRenderEnableStateWrite::Mode { value, source }),
                ),
                None => None,
            },
            MaxwellThreeDWriteAction::PsOutputSampleMaskUsage => match MaxwellThreeDPsOutputSampleMaskUsage::parse(raw) {
                Some(value) => Some(
                    MaxwellThreeDStateWrite::Coverage(MaxwellThreeDCoverageStateWrite::PsOutputSampleMaskUsage { value, source }),
                ),
                None => None,
            },
            MaxwellThreeDWriteAction::HybridAntiAliasControl => match MaxwellThreeDHybridAntiAliasControl::parse(raw) {
                Some(value) => Some(
                    MaxwellThreeDStateWrite::Coverage(MaxwellThreeDCoverageStateWrite::HybridAntiAliasControl { value, source }),
                ),
                None => None,
            },
            MaxwellThreeDWriteAction::TirMode => match MaxwellThreeDTirMode::parse(raw) {
                Some(value) => Some(
                    MaxwellThreeDStateWrite::Coverage(MaxwellThreeDCoverageStateWrite::TirMode { value, source }),
                ),
                None => None,
            },
            MaxwellThreeDWriteAction::TirControl => match MaxwellThreeDTirControl::parse(raw) {
                Some(value) => Some(
                    MaxwellThreeDStateWrite::Coverage(MaxwellThreeDCoverageStateWrite::TirControl { value, source }),
                ),
                None => None,
            },
            MaxwellThreeDWriteAction::TirModulation => match MaxwellThreeDTirModulationComponentSelect::parse(raw) {
                Some(value) => Some(
                    MaxwellThreeDStateWrite::Coverage(MaxwellThreeDCoverageStateWrite::TirModulation { value, source }),
                ),
                None => None,
            },
            MaxwellThreeDWriteAction::TirModulationFunction => match MaxwellThreeDTirModulationFunction::parse(raw) {
                Some(value) => Some(
                    MaxwellThreeDStateWrite::Coverage(MaxwellThreeDCoverageStateWrite::TirModulationFunction { value, source }),
                ),
                None => None,
            },
            MaxwellThreeDWriteAction::CoverageToColor => match MaxwellThreeDCoverageToColor::parse(raw) {
                Some(value) => Some(
                    MaxwellThreeDStateWrite::Coverage(MaxwellThreeDCoverageStateWrite::CoverageToColor { value, source }),
                ),
                None => None,
            },
            MaxwellThreeDWriteAction::AlphaToCoverageOverride => match MaxwellThreeDAlphaToCoverageOverride::parse(raw) {
                Some(value) => Some(
                    MaxwellThreeDStateWrite::Coverage(MaxwellThreeDCoverageStateWrite::AlphaToCoverageOverride { value, source }),
                ),
                None => None,
            },
            MaxwellThreeDWriteAction::SampleLocations(group) => Some(
                MaxwellThreeDStateWrite::Coverage(MaxwellThreeDCoverageStateWrite::SampleLocations { group, value: MaxwellThreeDSampleLocationGroup::parse(raw), source }),
            ),
            MaxwellThreeDWriteAction::RenderEnableControl => match MaxwellThreeDConditionalLoadConstantBuffer::parse(raw) {
                Some(value) => Some(
                    MaxwellThreeDStateWrite::RenderEnable(MaxwellThreeDRenderEnableStateWrite::ConditionalLoadConstantBuffer { value, source }),
                ),
                None => None,
            },
            MaxwellThreeDWriteAction::VisibleCallLimit => if profile.accepts(
                MaxwellThreeDEncodedField::VisibleCallLimit,
                raw,
            ) {
                Some(MaxwellThreeDStateWrite::ShaderExecution(MaxwellThreeDShaderExecutionStateWrite::VisibleCallLimit { value: MaxwellThreeDVisibleCallLimit(raw), source }))
            } else {
                None
            },
            MaxwellThreeDWriteAction::SmTimeoutCounterBit => Some(
                MaxwellThreeDStateWrite::ShaderExecution(MaxwellThreeDShaderExecutionStateWrite::SmTimeoutCounterBit { value: MaxwellThreeDSmTimeoutCounterBit(raw), source }),
            ),
            MaxwellThreeDWriteAction::ShaderExceptionsEnable => match MaxwellThreeDShaderExceptionsEnable::parse(raw) {
                Some(value) => Some(
                    MaxwellThreeDStateWrite::ShaderExecution(MaxwellThreeDShaderExecutionStateWrite::ShaderExceptionsEnable { value, source }),
                ),
                None => None,
            },
            MaxwellThreeDWriteAction::ShaderLocalMemoryWindowBaseAddress => Some(
                MaxwellThreeDStateWrite::ShaderExecution(MaxwellThreeDShaderExecutionStateWrite::ShaderLocalMemoryWindowBaseAddress { value: raw, source }),
            ),
            MaxwellThreeDWriteAction::ShaderLocalMemoryAddressUpper => Some(
                MaxwellThreeDStateWrite::ShaderExecution(MaxwellThreeDShaderExecutionStateWrite::ShaderLocalMemoryAddressUpper { value: raw as u8, source }),
            ),
            MaxwellThreeDWriteAction::ShaderLocalMemoryAddressLower => Some(
                MaxwellThreeDStateWrite::ShaderExecution(MaxwellThreeDShaderExecutionStateWrite::ShaderLocalMemoryAddressLower { value: raw, source }),
            ),
            MaxwellThreeDWriteAction::ShaderLocalMemorySizeUpper => Some(
                MaxwellThreeDStateWrite::ShaderExecution(MaxwellThreeDShaderExecutionStateWrite::ShaderLocalMemorySizeUpper { value: raw as u8, source }),
            ),
            MaxwellThreeDWriteAction::ShaderLocalMemorySizeLower => Some(
                MaxwellThreeDStateWrite::ShaderExecution(MaxwellThreeDShaderExecutionStateWrite::ShaderLocalMemorySizeLower { value: raw, source }),
            ),
            MaxwellThreeDWriteAction::ShaderLocalMemoryDefaultSizePerWarp => Some(
                MaxwellThreeDStateWrite::ShaderExecution(MaxwellThreeDShaderExecutionStateWrite::ShaderLocalMemoryDefaultSizePerWarp { value: MaxwellThreeDShaderLocalMemoryPerWarpSize(raw), source }),
            ),
            MaxwellThreeDWriteAction::CsaaEnable => match MaxwellThreeDCsaaEnable::parse(raw) {
                Some(value) => Some(
                    MaxwellThreeDStateWrite::Coverage(MaxwellThreeDCoverageStateWrite::CsaaEnable { value, source }),
                ),
                None => None,
            },
            MaxwellThreeDWriteAction::AliasedLineWidthEnable => match MaxwellThreeDAliasedLineWidthEnable::parse(raw) {
                Some(value) => Some(
                    MaxwellThreeDStateWrite::Line(MaxwellThreeDLineStateWrite::AliasedLineWidthEnable { value, source }),
                ),
                None => None,
            },
            MaxwellThreeDWriteAction::ActiveZCullRegion => match MaxwellThreeDZCullRegionId::new(raw) {
                Some(value) => Some(
                    MaxwellThreeDStateWrite::ZCull(MaxwellThreeDZCullStateWrite::ActiveRegion { value, source }),
                ),
                None => None,
            },
            MaxwellThreeDWriteAction::ZCullStatsEnable => match MaxwellThreeDZCullStatsEnable::parse(raw) {
                Some(value) => Some(
                    MaxwellThreeDStateWrite::ZCull(MaxwellThreeDZCullStateWrite::StatsEnable { value, source }),
                ),
                None => None,
            },
            MaxwellThreeDWriteAction::ZPassPixelCountEnable => match MaxwellThreeDZPassPixelCountEnable::parse(raw) {
                Some(value) => Some(
                    MaxwellThreeDStateWrite::Counter(MaxwellThreeDCounterStateWrite::ZPassPixelCountEnable { value, source }),
                ),
                None => None,
            },
            MaxwellThreeDWriteAction::ZCullCriterion => if profile.accepts(
                MaxwellThreeDEncodedField::ZCullCriterion,
                raw,
            ) {
                Some(MaxwellThreeDStateWrite::ZCull(MaxwellThreeDZCullStateWrite::Criterion { value: MaxwellThreeDZCullCriterion(raw), source }))
            } else {
                None
            },
            MaxwellThreeDWriteAction::ZCullEnable => if profile.accepts(
                MaxwellThreeDEncodedField::ZCullEnable,
                raw,
            ) {
                Some(MaxwellThreeDStateWrite::ZCull(MaxwellThreeDZCullStateWrite::Enable { value: MaxwellThreeDZCullEnable(raw), source }))
            } else {
                None
            },
            MaxwellThreeDWriteAction::ZCullBounds => if profile.accepts(
                MaxwellThreeDEncodedField::ZCullBounds,
                raw,
            ) {
                Some(MaxwellThreeDStateWrite::ZCull(MaxwellThreeDZCullStateWrite::Bounds { value: MaxwellThreeDZCullBounds(raw), source }))
            } else {
                None
            },
        }
    }

    #[verifier::when_used_as_spec(spec_decode)]
    pub fn decode(self, profile: &MaxwellGpuProfile, source: MaxwellMethodSource) -> (r: Option<
        MaxwellThreeDStateWrite,
    >)
        requires
            self.wf(),
        ensures
            r == self.spec_decode(profile, source),
            r matches Some(write) ==> write.wf(),
    {
        let raw: u32 = source.argument();
        match self {
            MaxwellThreeDWriteAction::InstrumentationHeader => Some(
                MaxwellThreeDStateWrite::Instrumentation(MaxwellThreeDInstrumentationStateWrite::Header { value: MaxwellThreeDInstrumentationValue(raw), source }),
            ),
            MaxwellThreeDWriteAction::InstrumentationData => Some(
                MaxwellThreeDStateWrite::Instrumentation(MaxwellThreeDInstrumentationStateWrite::Data { value: MaxwellThreeDInstrumentationValue(raw), source }),
            ),
            MaxwellThreeDWriteAction::IteratedBlend => match MaxwellThreeDIteratedBlend::parse(raw) {
                Some(value) => Some(
                    MaxwellThreeDStateWrite::FixedFunction(MaxwellThreeDFixedFunctionWrite::IteratedBlend { value, source }),
                ),
                None => None,
            },
            MaxwellThreeDWriteAction::IteratedBlendPassCount => Some(
                MaxwellThreeDStateWrite::FixedFunction(MaxwellThreeDFixedFunctionWrite::IteratedBlendPassCount { value: MaxwellThreeDIteratedBlendPassCount(raw as u8), source }),
            ),
            MaxwellThreeDWriteAction::MmeShadowRamControl => match MaxwellThreeDMmeShadowRamControl::parse(raw) {
                Some(value) => Some(
                    MaxwellThreeDStateWrite::Mme(MaxwellThreeDMmeStateWrite::ShadowRamControl { value, source }),
                ),
                None => None,
            },
            MaxwellThreeDWriteAction::MutableMethodControl => match MaxwellThreeDMutableMethodControl::parse(raw) {
                Some(value) => Some(
                    MaxwellThreeDStateWrite::Mme(MaxwellThreeDMmeStateWrite::MutableMethodControl { value, source }),
                ),
                None => None,
            },
            MaxwellThreeDWriteAction::SubtilingPerfKnobA => Some(
                MaxwellThreeDStateWrite::ShaderExecution(MaxwellThreeDShaderExecutionStateWrite::SubtilingPerfKnobA { value: MaxwellThreeDSubtilingPerfKnobA(raw), source }),
            ),
            MaxwellThreeDWriteAction::SubtilingPerfKnobB => match MaxwellThreeDSubtilingPerfKnobB::new(raw) {
                Some(value) => Some(
                    MaxwellThreeDStateWrite::ShaderExecution(MaxwellThreeDShaderExecutionStateWrite::SubtilingPerfKnobB { value, source }),
                ),
                None => None,
            },
            MaxwellThreeDWriteAction::TiledCacheEnable => Some(
                MaxwellThreeDStateWrite::TiledCache(MaxwellThreeDTiledCacheStateWrite::Enable { value: raw != 0, source }),
            ),
            MaxwellThreeDWriteAction::TiledCacheTileSize => Some(
                MaxwellThreeDStateWrite::TiledCache(MaxwellThreeDTiledCacheStateWrite::TileSize { value: MaxwellThreeDTiledCacheTileSize(raw), source }),
            ),
            MaxwellThreeDWriteAction::TiledCacheUnknownConfig(index) => Some(
                MaxwellThreeDStateWrite::TiledCache(MaxwellThreeDTiledCacheStateWrite::UnknownConfig { index, value: MaxwellThreeDTiledCacheUnknownConfig(raw), source }),
            ),
            MaxwellThreeDWriteAction::ShaderWatermarks(target) => Some(
                MaxwellThreeDStateWrite::ShaderExecution(MaxwellThreeDShaderExecutionStateWrite::ShaderWatermarks { target, value: MaxwellThreeDShaderWatermarkRange(raw), source }),
            ),
            MaxwellThreeDWriteAction::L1Configuration => if profile.accepts(
                MaxwellThreeDEncodedField::L1Configuration,
                raw,
            ) {
                Some(MaxwellThreeDStateWrite::ShaderExecution(MaxwellThreeDShaderExecutionStateWrite::L1Configuration { value: MaxwellThreeDDirectlyAddressableMemory(raw), source }))
            } else {
                None
            },
            MaxwellThreeDWriteAction::ColorReductionThresholdsEnable => match MaxwellThreeDColorReductionThresholdsEnable::parse(raw) {
                Some(value) => Some(
                    MaxwellThreeDStateWrite::ColorReduction(MaxwellThreeDColorReductionStateWrite::Enable { value, source }),
                ),
                None => None,
            },
            MaxwellThreeDWriteAction::ColorReductionThresholdsUnorm8 => match MaxwellThreeDColorReductionThresholdsUnorm8::parse(raw) {
                Some(value) => Some(
                    MaxwellThreeDStateWrite::ColorReduction(MaxwellThreeDColorReductionStateWrite::ThresholdsUnorm8 { value, source }),
                ),
                None => None,
            },
            MaxwellThreeDWriteAction::ColorReductionThresholdsUnorm10 => match MaxwellThreeDColorReductionThresholdsUnorm10::parse(raw) {
                Some(value) => Some(
                    MaxwellThreeDStateWrite::ColorReduction(MaxwellThreeDColorReductionStateWrite::ThresholdsUnorm10 { value, source }),
                ),
                None => None,
            },
            MaxwellThreeDWriteAction::ColorReductionThresholdsUnorm16 => match MaxwellThreeDColorReductionThresholdsUnorm16::parse(raw) {
                Some(value) => Some(
                    MaxwellThreeDStateWrite::ColorReduction(MaxwellThreeDColorReductionStateWrite::ThresholdsUnorm16 { value, source }),
                ),
                None => None,
            },
            MaxwellThreeDWriteAction::ColorReductionThresholdsFp16 => match MaxwellThreeDColorReductionThresholdsFp16::parse(raw) {
                Some(value) => Some(
                    MaxwellThreeDStateWrite::ColorReduction(MaxwellThreeDColorReductionStateWrite::ThresholdsFp16 { value, source }),
                ),
                None => None,
            },
            MaxwellThreeDWriteAction::ColorReductionThresholdsSrgb8 => match MaxwellThreeDColorReductionThresholdsSrgb8::parse(raw) {
                Some(value) => Some(
                    MaxwellThreeDStateWrite::ColorReduction(MaxwellThreeDColorReductionStateWrite::ThresholdsSrgb8 { value, source }),
                ),
                None => None,
            },
            MaxwellThreeDWriteAction::ConstantColorRenderingEnable => Some(
                MaxwellThreeDStateWrite::ConstantColorRendering(MaxwellThreeDConstantColorRenderingStateWrite::Enable { value: raw != 0, source }),
            ),
            MaxwellThreeDWriteAction::ConstantColorRenderingComponent(component) => Some(
                MaxwellThreeDStateWrite::ConstantColorRendering(MaxwellThreeDConstantColorRenderingStateWrite::Component { component, value: MaxwellThreeDConstantColorValue(raw), source }),
            ),
            MaxwellThreeDWriteAction::ApiMandatedEarlyZ => match MaxwellThreeDApiMandatedEarlyZ::parse(raw) {
                Some(value) => Some(
                    MaxwellThreeDStateWrite::ShaderExecution(MaxwellThreeDShaderExecutionStateWrite::ApiMandatedEarlyZ { value, source }),
                ),
                None => None,
            },
            MaxwellThreeDWriteAction::PostZPixelShaderImask => match MaxwellThreeDPostZPixelShaderImask::parse(raw) {
                Some(value) => Some(
                    MaxwellThreeDStateWrite::Coverage(MaxwellThreeDCoverageStateWrite::PostZPixelShaderImask { value, source }),
                ),
                None => None,
            },
            MaxwellThreeDWriteAction::PixelShaderInterlockControl => if profile.accepts(
                MaxwellThreeDEncodedField::PixelShaderInterlockControl,
                raw,
            ) {
                Some(MaxwellThreeDStateWrite::ShaderExecution(MaxwellThreeDShaderExecutionStateWrite::PixelShaderInterlockControl { value: MaxwellThreeDPixelShaderInterlockControl(raw), source }))
            } else {
                None
            },
            MaxwellThreeDWriteAction::AlphaFraction => Some(
                MaxwellThreeDStateWrite::Raster(MaxwellThreeDRasterStateWrite::AlphaFraction { value: MaxwellThreeDAlphaFraction(raw as u8), source }),
            ),
            MaxwellThreeDWriteAction::RasterBoundingBox => Some(
                MaxwellThreeDStateWrite::Raster(MaxwellThreeDRasterStateWrite::RasterBoundingBox { value: MaxwellThreeDRasterBoundingBox(raw), source }),
            ),
            MaxwellThreeDWriteAction::VafL2CacheControl => match MaxwellThreeDVafL2CacheControl::parse(raw) {
                Some(value) => Some(
                    MaxwellThreeDStateWrite::L2Cache(MaxwellThreeDL2CacheStateWrite::VafControl { value, source }),
                ),
                None => None,
            },
            MaxwellThreeDWriteAction::RopL2CacheControl(request) => match MaxwellThreeDL2CacheEvictionPolicy::parse(raw) {
                Some(value) => Some(
                    MaxwellThreeDStateWrite::L2Cache(MaxwellThreeDL2CacheStateWrite::RopPolicy { request, value, source }),
                ),
                None => None,
            },
            MaxwellThreeDWriteAction::ReportSemaphoreAddressUpper => Some(
                MaxwellThreeDStateWrite::ReportSemaphore(MaxwellThreeDReportSemaphoreStateWrite::AddressUpper { value: raw as u8, source }),
            ),
            MaxwellThreeDWriteAction::ReportSemaphoreAddressLower => Some(
                MaxwellThreeDStateWrite::ReportSemaphore(MaxwellThreeDReportSemaphoreStateWrite::AddressLower { value: raw, source }),
            ),
            MaxwellThreeDWriteAction::ReportSemaphorePayload => Some(
                MaxwellThreeDStateWrite::ReportSemaphore(MaxwellThreeDReportSemaphoreStateWrite::Payload { value: raw, source }),
            ),
            MaxwellThreeDWriteAction::PointSize => Some(
                MaxwellThreeDStateWrite::Raster(MaxwellThreeDRasterStateWrite::PointSize { value: MaxwellThreeDPointSize(raw), source }),
            ),
            MaxwellThreeDWriteAction::PointSpriteSelect => if profile.accepts(
                MaxwellThreeDEncodedField::PointSpriteSelect,
                raw,
            ) {
                Some(MaxwellThreeDStateWrite::Raster(MaxwellThreeDRasterStateWrite::PointSpriteSelect { value: MaxwellThreeDPointSpriteSelect(raw), source }))
            } else {
                None
            },
            MaxwellThreeDWriteAction::PointCenterMode => match MaxwellThreeDPointCenterMode::parse(raw) {
                Some(value) => Some(
                    MaxwellThreeDStateWrite::Raster(MaxwellThreeDRasterStateWrite::PointCenterMode { value, source }),
                ),
                None => None,
            },
            MaxwellThreeDWriteAction::EdgeFlag => match MaxwellThreeDEdgeFlag::parse(raw) {
                Some(value) => Some(
                    MaxwellThreeDStateWrite::Raster(MaxwellThreeDRasterStateWrite::EdgeFlag { value, source }),
                ),
                None => None,
            },
            MaxwellThreeDWriteAction::ViewportZClip => match MaxwellThreeDViewportZClipRange::parse(raw) {
                Some(value) => Some(
                    MaxwellThreeDStateWrite::Raster(MaxwellThreeDRasterStateWrite::ViewportZClip { value, source }),
                ),
                None => None,
            },
            MaxwellThreeDWriteAction::RenderEnableMode => match MaxwellThreeDRenderEnableMode::parse(raw) {
                Some(value) => Some(
                    MaxwellThreeDStateWrite::RenderEnable(MaxwellThreeDRenderEnableStateWrite::Mode { value, source }),
                ),
                None => None,
            },
            MaxwellThreeDWriteAction::PsOutputSampleMaskUsage => match MaxwellThreeDPsOutputSampleMaskUsage::parse(raw) {
                Some(value) => Some(
                    MaxwellThreeDStateWrite::Coverage(MaxwellThreeDCoverageStateWrite::PsOutputSampleMaskUsage { value, source }),
                ),
                None => None,
            },
            MaxwellThreeDWriteAction::HybridAntiAliasControl => match MaxwellThreeDHybridAntiAliasControl::parse(raw) {
                Some(value) => Some(
                    MaxwellThreeDStateWrite::Coverage(MaxwellThreeDCoverageStateWrite::HybridAntiAliasControl { value, source }),
                ),
                None => None,
            },
            MaxwellThreeDWriteAction::TirMode => match MaxwellThreeDTirMode::parse(raw) {
                Some(value) => Some(
                    MaxwellThreeDStateWrite::Coverage(MaxwellThreeDCoverageStateWrite::TirMode { value, source }),
                ),
                None => None,
            },
            MaxwellThreeDWriteAction::TirControl => match MaxwellThreeDTirControl::parse(raw) {
                Some(value) => Some(
                    MaxwellThreeDStateWrite::Coverage(MaxwellThreeDCoverageStateWrite::TirControl { value, source }),
                ),
                None => None,
            },
            MaxwellThreeDWriteAction::TirModulation => match MaxwellThreeDTirModulationComponentSelect::parse(raw) {
                Some(value) => Some(
                    MaxwellThreeDStateWrite::Coverage(MaxwellThreeDCoverageStateWrite::TirModulation { value, source }),
                ),
                None => None,
            },
            MaxwellThreeDWriteAction::TirModulationFunction => match MaxwellThreeDTirModulationFunction::parse(raw) {
                Some(value) => Some(
                    MaxwellThreeDStateWrite::Coverage(MaxwellThreeDCoverageStateWrite::TirModulationFunction { value, source }),
                ),
                None => None,
            },
            MaxwellThreeDWriteAction::CoverageToColor => match MaxwellThreeDCoverageToColor::parse(raw) {
                Some(value) => Some(
                    MaxwellThreeDStateWrite::Coverage(MaxwellThreeDCoverageStateWrite::CoverageToColor { value, source }),
                ),
                None => None,
            },
            MaxwellThreeDWriteAction::AlphaToCoverageOverride => match MaxwellThreeDAlphaToCoverageOverride::parse(raw) {
                Some(value) => Some(
                    MaxwellThreeDStateWrite::Coverage(MaxwellThreeDCoverageStateWrite::AlphaToCoverageOverride { value, source }),
                ),
                None => None,
            },
            MaxwellThreeDWriteAction::SampleLocations(group) => Some(
                MaxwellThreeDStateWrite::Coverage(MaxwellThreeDCoverageStateWrite::SampleLocations { group, value: MaxwellThreeDSampleLocationGroup::parse(raw), source }),
            ),
            MaxwellThreeDWriteAction::RenderEnableControl => match MaxwellThreeDConditionalLoadConstantBuffer::parse(raw) {
                Some(value) => Some(
                    MaxwellThreeDStateWrite::RenderEnable(MaxwellThreeDRenderEnableStateWrite::ConditionalLoadConstantBuffer { value, source }),
                ),
                None => None,
            },
            MaxwellThreeDWriteAction::VisibleCallLimit => if profile.accepts(
                MaxwellThreeDEncodedField::VisibleCallLimit,
                raw,
            ) {
                Some(MaxwellThreeDStateWrite::ShaderExecution(MaxwellThreeDShaderExecutionStateWrite::VisibleCallLimit { value: MaxwellThreeDVisibleCallLimit(raw), source }))
            } else {
                None
            },
            MaxwellThreeDWriteAction::SmTimeoutCounterBit => Some(
                MaxwellThreeDStateWrite::ShaderExecution(MaxwellThreeDShaderExecutionStateWrite::SmTimeoutCounterBit { value: MaxwellThreeDSmTimeoutCounterBit(raw), source }),
            ),
            MaxwellThreeDWriteAction::ShaderExceptionsEnable => match MaxwellThreeDShaderExceptionsEnable::parse(raw) {
                Some(value) => Some(
                    MaxwellThreeDStateWrite::ShaderExecution(MaxwellThreeDShaderExecutionStateWrite::ShaderExceptionsEnable { value, source }),
                ),
                None => None,
            },
            MaxwellThreeDWriteAction::ShaderLocalMemoryWindowBaseAddress => Some(
                MaxwellThreeDStateWrite::ShaderExecution(MaxwellThreeDShaderExecutionStateWrite::ShaderLocalMemoryWindowBaseAddress { value: raw, source }),
            ),
            MaxwellThreeDWriteAction::ShaderLocalMemoryAddressUpper => Some(
                MaxwellThreeDStateWrite::ShaderExecution(MaxwellThreeDShaderExecutionStateWrite::ShaderLocalMemoryAddressUpper { value: raw as u8, source }),
            ),
            MaxwellThreeDWriteAction::ShaderLocalMemoryAddressLower => Some(
                MaxwellThreeDStateWrite::ShaderExecution(MaxwellThreeDShaderExecutionStateWrite::ShaderLocalMemoryAddressLower { value: raw, source }),
            ),
            MaxwellThreeDWriteAction::ShaderLocalMemorySizeUpper => Some(
                MaxwellThreeDStateWrite::ShaderExecution(MaxwellThreeDShaderExecutionStateWrite::ShaderLocalMemorySizeUpper { value: raw as u8, source }),
            ),
            MaxwellThreeDWriteAction::ShaderLocalMemorySizeLower => Some(
                MaxwellThreeDStateWrite::ShaderExecution(MaxwellThreeDShaderExecutionStateWrite::ShaderLocalMemorySizeLower { value: raw, source }),
            ),
            MaxwellThreeDWriteAction::ShaderLocalMemoryDefaultSizePerWarp => Some(
                MaxwellThreeDStateWrite::ShaderExecution(MaxwellThreeDShaderExecutionStateWrite::ShaderLocalMemoryDefaultSizePerWarp { value: MaxwellThreeDShaderLocalMemoryPerWarpSize(raw), source }),
            ),
            MaxwellThreeDWriteAction::CsaaEnable => match MaxwellThreeDCsaaEnable::parse(raw) {
                Some(value) => Some(
                    MaxwellThreeDStateWrite::Coverage(MaxwellThreeDCoverageStateWrite::CsaaEnable { value, source }),
                ),
                None => None,
            },
            MaxwellThreeDWriteAction::AliasedLineWidthEnable => match MaxwellThreeDAliasedLineWidthEnable::parse(raw) {
                Some(value) => Some(
                    MaxwellThreeDStateWrite::Line(MaxwellThreeDLineStateWrite::AliasedLineWidthEnable { value, source }),
                ),
                None => None,
            },
            MaxwellThreeDWriteAction::ActiveZCullRegion => match MaxwellThreeDZCullRegionId::new(raw) {
                Some(value) => Some(
                    MaxwellThreeDStateWrite::ZCull(MaxwellThreeDZCullStateWrite::ActiveRegion { value, source }),
                ),
                None => None,
            },
            MaxwellThreeDWriteAction::ZCullStatsEnable => match MaxwellThreeDZCullStatsEnable::parse(raw) {
                Some(value) => Some(
                    MaxwellThreeDStateWrite::ZCull(MaxwellThreeDZCullStateWrite::StatsEnable { value, source }),
                ),
                None => None,
            },
            MaxwellThreeDWriteAction::ZPassPixelCountEnable => match MaxwellThreeDZPassPixelCountEnable::parse(raw) {
                Some(value) => Some(
                    MaxwellThreeDStateWrite::Counter(MaxwellThreeDCounterStateWrite::ZPassPixelCountEnable { value, source }),
                ),
                None => None,
            },
            MaxwellThreeDWriteAction::ZCullCriterion => if profile.accepts(
                MaxwellThreeDEncodedField::ZCullCriterion,
                raw,
            ) {
                Some(MaxwellThreeDStateWrite::ZCull(MaxwellThreeDZCullStateWrite::Criterion { value: MaxwellThreeDZCullCriterion(raw), source }))
            } else {
                None
            },
            MaxwellThreeDWriteAction::ZCullEnable => if profile.accepts(
                MaxwellThreeDEncodedField::ZCullEnable,
                raw,
            ) {
                Some(MaxwellThreeDStateWrite::ZCull(MaxwellThreeDZCullStateWrite::Enable { value: MaxwellThreeDZCullEnable(raw), source }))
            } else {
                None
            },
            MaxwellThreeDWriteAction::ZCullBounds => if profile.accepts(
                MaxwellThreeDEncodedField::ZCullBounds,
                raw,
            ) {
                Some(MaxwellThreeDStateWrite::ZCull(MaxwellThreeDZCullStateWrite::Bounds { value: MaxwellThreeDZCullBounds(raw), source }))
            } else {
                None
            },
        }
    }
}

/// Target and planes of one surface decompression.
#[derive(Clone, Copy, Debug, PartialEq, Eq, Hash, Structural)]
pub struct MaxwellThreeDDecompressSurface(pub u32);

impl MaxwellThreeDDecompressSurface {
    #[must_use]
    pub fn from_raw(raw: u32) -> (r: MaxwellThreeDDecompressSurface)
        ensures
            r.0 == raw,
    {
        MaxwellThreeDDecompressSurface(raw)
    }

    pub open spec fn spec_raw(self) -> u32 {
        self.0
    }

    #[must_use]
    #[verifier::when_used_as_spec(spec_raw)]
    pub fn raw(self) -> (r: u32)
        ensures
            r == self.0,
    {
        self.0
    }
}

/// A trigger that keeps surfaces or the tiled cache coherent.
#[derive(Clone, Copy, Debug, PartialEq, Eq, Hash, Structural)]
#[allow(inconsistent_fields)]
pub enum MaxwellThreeDMaintenanceTrigger {
    DecompressSurface { request: MaxwellThreeDDecompressSurface, source: MaxwellMethodSource },
    TiledCacheFlush { mode: MaxwellThreeDTiledCacheFlushMode, source: MaxwellMethodSource },
}

/// Execution-order trigger of a declared method.
#[derive(Clone, Copy, Debug, PartialEq, Eq, Hash, Structural)]
pub enum MaxwellThreeDTriggerAction {
    WaitForIdle,
    ReportSemaphoreTrigger,
    InvalidateShaderCachesNoWfi,
    InvalidateShaderCaches,
    InvalidateTextureCacheNoWfi(MaxwellThreeDTextureCacheTarget),
    InvalidateTextureCache(MaxwellThreeDTextureCacheTarget),
    FlushPendingWrites,
    IncrementSyncpoint,
}

impl MaxwellThreeDTriggerAction {
    /// Trigger of a word; only a semaphore control can be undefined.
    pub open spec fn spec_decode(self, source: MaxwellMethodSource) -> Option<
        MaxwellThreeDSynchronizationTrigger,
    > {
        let raw = source.argument();
        match self {
            MaxwellThreeDTriggerAction::WaitForIdle => Some(MaxwellThreeDSynchronizationTrigger::WaitForIdle { value: raw, source }),
            MaxwellThreeDTriggerAction::ReportSemaphoreTrigger => match MaxwellThreeDReportSemaphoreControl::parse(raw) {
                Some(control) => Some(MaxwellThreeDSynchronizationTrigger::ReportSemaphore { control, source }),
                None => None,
            },
            MaxwellThreeDTriggerAction::InvalidateShaderCachesNoWfi => Some(
                MaxwellThreeDSynchronizationTrigger::InvalidateShaderCachesNoWfi {
                    caches: MaxwellShaderCacheInvalidation { instruction: raw & 1 != 0, global_data: raw & 0x10 != 0, constant: raw & 0x1000 != 0 },
                    source,
                },
            ),
            MaxwellThreeDTriggerAction::InvalidateShaderCaches => Some(
                MaxwellThreeDSynchronizationTrigger::InvalidateShaderCaches {
                    request: MaxwellThreeDShaderCacheInvalidation {
                        caches: MaxwellShaderCacheInvalidation { instruction: raw & 1 != 0, global_data: raw & 0x10 != 0, constant: raw & 0x1000 != 0 },
                        locks: raw & 2 != 0,
                        flush_data: raw & 4 != 0,
                    },
                    source,
                },
            ),
            MaxwellThreeDTriggerAction::InvalidateTextureCacheNoWfi(target) => Some(
                MaxwellThreeDSynchronizationTrigger::InvalidateTextureCacheNoWfi {
                    request: MaxwellThreeDTextureCacheInvalidation::decode(target, raw),
                    source,
                },
            ),
            MaxwellThreeDTriggerAction::InvalidateTextureCache(target) => Some(
                MaxwellThreeDSynchronizationTrigger::InvalidateTextureCache {
                    request: MaxwellThreeDTextureCacheInvalidation::decode(target, raw),
                    source,
                },
            ),
            MaxwellThreeDTriggerAction::FlushPendingWrites => Some(
                MaxwellThreeDSynchronizationTrigger::FlushPendingWrites {
                    request: MaxwellThreeDFlushPendingWrites { sm_does_global_store: raw != 0 },
                    source,
                },
            ),
            MaxwellThreeDTriggerAction::IncrementSyncpoint => Some(
                MaxwellThreeDSynchronizationTrigger::IncrementSyncpoint {
                    request: MaxwellThreeDSyncpointIncrement::decode(raw),
                    source,
                },
            ),
        }
    }

    #[verifier::when_used_as_spec(spec_decode)]
    pub fn decode(self, source: MaxwellMethodSource) -> (r: Option<
        MaxwellThreeDSynchronizationTrigger,
    >)
        ensures
            r == self.spec_decode(source),
            r is None ==> self == MaxwellThreeDTriggerAction::ReportSemaphoreTrigger,
    {
        let raw: u32 = source.argument();
        match self {
            MaxwellThreeDTriggerAction::WaitForIdle => Some(MaxwellThreeDSynchronizationTrigger::WaitForIdle { value: raw, source }),
            MaxwellThreeDTriggerAction::ReportSemaphoreTrigger => match MaxwellThreeDReportSemaphoreControl::parse(raw) {
                Some(control) => Some(MaxwellThreeDSynchronizationTrigger::ReportSemaphore { control, source }),
                None => None,
            },
            MaxwellThreeDTriggerAction::InvalidateShaderCachesNoWfi => Some(
                MaxwellThreeDSynchronizationTrigger::InvalidateShaderCachesNoWfi {
                    caches: MaxwellShaderCacheInvalidation { instruction: raw & 1 != 0, global_data: raw & 0x10 != 0, constant: raw & 0x1000 != 0 },
                    source,
                },
            ),
            MaxwellThreeDTriggerAction::InvalidateShaderCaches => Some(
                MaxwellThreeDSynchronizationTrigger::InvalidateShaderCaches {
                    request: MaxwellThreeDShaderCacheInvalidation {
                        caches: MaxwellShaderCacheInvalidation { instruction: raw & 1 != 0, global_data: raw & 0x10 != 0, constant: raw & 0x1000 != 0 },
                        locks: raw & 2 != 0,
                        flush_data: raw & 4 != 0,
                    },
                    source,
                },
            ),
            MaxwellThreeDTriggerAction::InvalidateTextureCacheNoWfi(target) => Some(
                MaxwellThreeDSynchronizationTrigger::InvalidateTextureCacheNoWfi {
                    request: MaxwellThreeDTextureCacheInvalidation::decode(target, raw),
                    source,
                },
            ),
            MaxwellThreeDTriggerAction::InvalidateTextureCache(target) => Some(
                MaxwellThreeDSynchronizationTrigger::InvalidateTextureCache {
                    request: MaxwellThreeDTextureCacheInvalidation::decode(target, raw),
                    source,
                },
            ),
            MaxwellThreeDTriggerAction::FlushPendingWrites => Some(
                MaxwellThreeDSynchronizationTrigger::FlushPendingWrites {
                    request: MaxwellThreeDFlushPendingWrites { sm_does_global_store: raw != 0 },
                    source,
                },
            ),
            MaxwellThreeDTriggerAction::IncrementSyncpoint => Some(
                MaxwellThreeDSynchronizationTrigger::IncrementSyncpoint {
                    request: MaxwellThreeDSyncpointIncrement::decode(raw),
                    source,
                },
            ),
        }
    }
}

/// What a declared method does.
#[derive(Clone, Copy, Debug, PartialEq, Eq, Hash, Structural)]
pub enum MaxwellThreeDMethodAction {
    NoOperation,
    Write(MaxwellThreeDWriteAction),
    Trigger(MaxwellThreeDTriggerAction),
    DecompressSurface,
    TiledCacheFlush,
    FalconFirmwareCall4,
    CheckSphVersion,
    CheckAamVersion,
    DrawVertexArray,
    Unsupported,
    Missing(MaxwellEngineCapability),
}

/// A method outside the register families: its name, the bits its word may set and
/// what it does.
#[derive(Clone, Copy, Debug, PartialEq, Eq)]
pub struct MaxwellThreeDMethodDeclaration {
    pub name: &'static str,
    pub defined_mask: u32,
    pub action: MaxwellThreeDMethodAction,
}

/// Declaration of a method, if there is one.
pub open spec fn spec_method_declaration(profile: &MaxwellGpuProfile, method: u32) -> Option<
    MaxwellThreeDMethodDeclaration,
> {
    match method {
        0x0100 => Some(
            MaxwellThreeDMethodDeclaration {
                name: "NO_OPERATION",
                defined_mask: 0xffff_ffff,
                action: MaxwellThreeDMethodAction::NoOperation,
            },
        ),
        0x0104 => Some(
            MaxwellThreeDMethodDeclaration {
                name: "SET_NOTIFY_A",
                defined_mask: 0x0000_00ff,
                action: MaxwellThreeDMethodAction::Unsupported,
            },
        ),
        0x0110 => Some(
            MaxwellThreeDMethodDeclaration {
                name: "WAIT_FOR_IDLE",
                defined_mask: 0xffff_ffff,
                action: MaxwellThreeDMethodAction::Trigger(MaxwellThreeDTriggerAction::WaitForIdle),
            },
        ),
        0x0124 => Some(
            MaxwellThreeDMethodDeclaration {
                name: "SET_MME_SHADOW_RAM_CONTROL",
                defined_mask: 0x0000_0003,
                action: MaxwellThreeDMethodAction::Write(MaxwellThreeDWriteAction::MmeShadowRamControl),
            },
        ),
        0x0150 => Some(
            MaxwellThreeDMethodDeclaration {
                name: "SET_INSTRUMENTATION_METHOD_HEADER",
                defined_mask: 0xffff_ffff,
                action: MaxwellThreeDMethodAction::Write(MaxwellThreeDWriteAction::InstrumentationHeader),
            },
        ),
        0x0154 => Some(
            MaxwellThreeDMethodDeclaration {
                name: "SET_INSTRUMENTATION_METHOD_DATA",
                defined_mask: 0xffff_ffff,
                action: MaxwellThreeDMethodAction::Write(MaxwellThreeDWriteAction::InstrumentationData),
            },
        ),
        0x020c => Some(
            MaxwellThreeDMethodDeclaration {
                name: "SET_ALIASED_LINE_WIDTH_ENABLE",
                defined_mask: 0x0000_0001,
                action: MaxwellThreeDMethodAction::Write(MaxwellThreeDWriteAction::AliasedLineWidthEnable),
            },
        ),
        0x0210 => Some(
            MaxwellThreeDMethodDeclaration {
                name: "SET_API_MANDATED_EARLY_Z",
                defined_mask: 0x0000_0001,
                action: MaxwellThreeDMethodAction::Write(MaxwellThreeDWriteAction::ApiMandatedEarlyZ),
            },
        ),
        0x0218 => Some(
            MaxwellThreeDMethodDeclaration {
                name: "SET_L2_CACHE_CONTROL_FOR_ROP_PREFETCH_READ_REQUESTS",
                defined_mask: 0x0000_0030,
                action: MaxwellThreeDMethodAction::Write(MaxwellThreeDWriteAction::RopL2CacheControl(MaxwellThreeDRopL2CacheRequest::PrefetchRead)),
            },
        ),
        0x021c => Some(
            MaxwellThreeDMethodDeclaration {
                name: "INVALIDATE_SHADER_CACHES",
                defined_mask: 0x0000_1017,
                action: MaxwellThreeDMethodAction::Trigger(MaxwellThreeDTriggerAction::InvalidateShaderCaches),
            },
        ),
        0x02c8 => Some(
            MaxwellThreeDMethodDeclaration {
                name: "INCREMENT_SYNC_POINT",
                defined_mask: 0x0011_0fff,
                action: MaxwellThreeDMethodAction::Trigger(MaxwellThreeDTriggerAction::IncrementSyncpoint),
            },
        ),
        0x02e0 => Some(
            MaxwellThreeDMethodDeclaration {
                name: "DECOMPRESS_SURFACE",
                defined_mask: 0x000f_fff7,
                action: MaxwellThreeDMethodAction::DecompressSurface,
            },
        ),
        0x02ec => Some(
            MaxwellThreeDMethodDeclaration {
                name: "SET_RASTER_BOUNDING_BOX",
                defined_mask: 0x0000_0ff1,
                action: MaxwellThreeDMethodAction::Write(MaxwellThreeDWriteAction::RasterBoundingBox),
            },
        ),
        0x0300 => Some(
            MaxwellThreeDMethodDeclaration {
                name: "SET_PS_OUTPUT_SAMPLE_MASK_USAGE",
                defined_mask: 0x0000_0003,
                action: MaxwellThreeDMethodAction::Write(MaxwellThreeDWriteAction::PsOutputSampleMaskUsage),
            },
        ),
        0x0304 => Some(
            MaxwellThreeDMethodDeclaration {
                name: "DRAW_ZERO_INDEX",
                defined_mask: 0xffff_ffff,
                action: MaxwellThreeDMethodAction::Missing(MaxwellEngineCapability::HostBackend),
            },
        ),
        0x0308 => Some(
            MaxwellThreeDMethodDeclaration {
                name: "SET_L1_CONFIGURATION",
                defined_mask: 0x0000_0007,
                action: MaxwellThreeDMethodAction::Write(MaxwellThreeDWriteAction::L1Configuration),
            },
        ),
        0x030c => Some(
            MaxwellThreeDMethodDeclaration {
                name: "SET_RENDER_ENABLE_CONTROL",
                defined_mask: 0x0000_0001,
                action: MaxwellThreeDMethodAction::Write(MaxwellThreeDWriteAction::RenderEnableControl),
            },
        ),
        0x0360 => Some(
            MaxwellThreeDMethodDeclaration {
                name: "SET_SUBTILING_PERF_KNOB_A",
                defined_mask: 0xffff_ffff,
                action: MaxwellThreeDMethodAction::Write(MaxwellThreeDWriteAction::SubtilingPerfKnobA),
            },
        ),
        0x0364 => Some(
            MaxwellThreeDMethodDeclaration {
                name: "SET_SUBTILING_PERF_KNOB_B",
                defined_mask: 0x0000_00ff,
                action: MaxwellThreeDMethodAction::Write(MaxwellThreeDWriteAction::SubtilingPerfKnobB),
            },
        ),
        0x074c => Some(
            MaxwellThreeDMethodDeclaration {
                name: "SET_ALPHA_FRACTION",
                defined_mask: 0x0000_00ff,
                action: MaxwellThreeDMethodAction::Write(MaxwellThreeDWriteAction::AlphaFraction),
            },
        ),
        0x0754 => Some(
            MaxwellThreeDMethodDeclaration {
                name: "SET_HYBRID_ANTI_ALIAS_CONTROL",
                defined_mask: 0x0000_003f,
                action: MaxwellThreeDMethodAction::Write(MaxwellThreeDWriteAction::HybridAntiAliasControl),
            },
        ),
        0x077c => Some(
            MaxwellThreeDMethodDeclaration {
                name: "SET_SHADER_LOCAL_MEMORY_WINDOW",
                defined_mask: 0xffff_ffff,
                action: MaxwellThreeDMethodAction::Write(MaxwellThreeDWriteAction::ShaderLocalMemoryWindowBaseAddress),
            },
        ),
        0x0790 => Some(
            MaxwellThreeDMethodDeclaration {
                name: "SET_SHADER_LOCAL_MEMORY_A",
                defined_mask: 0x0000_00ff,
                action: MaxwellThreeDMethodAction::Write(MaxwellThreeDWriteAction::ShaderLocalMemoryAddressUpper),
            },
        ),
        0x0794 => Some(
            MaxwellThreeDMethodDeclaration {
                name: "SET_SHADER_LOCAL_MEMORY_B",
                defined_mask: 0xffff_ffff,
                action: MaxwellThreeDMethodAction::Write(MaxwellThreeDWriteAction::ShaderLocalMemoryAddressLower),
            },
        ),
        0x0798 => Some(
            MaxwellThreeDMethodDeclaration {
                name: "SET_SHADER_LOCAL_MEMORY_C",
                defined_mask: 0x0000_003f,
                action: MaxwellThreeDMethodAction::Write(MaxwellThreeDWriteAction::ShaderLocalMemorySizeUpper),
            },
        ),
        0x079c => Some(
            MaxwellThreeDMethodDeclaration {
                name: "SET_SHADER_LOCAL_MEMORY_D",
                defined_mask: 0xffff_ffff,
                action: MaxwellThreeDMethodAction::Write(MaxwellThreeDWriteAction::ShaderLocalMemorySizeLower),
            },
        ),
        0x07a0 => Some(
            MaxwellThreeDMethodDeclaration {
                name: "SET_SHADER_LOCAL_MEMORY_E",
                defined_mask: profile.local_memory_per_warp_mask,
                action: MaxwellThreeDMethodAction::Write(MaxwellThreeDWriteAction::ShaderLocalMemoryDefaultSizePerWarp),
            },
        ),
        0x0d64 => Some(
            MaxwellThreeDMethodDeclaration {
                name: "SET_API_VISIBLE_CALL_LIMIT",
                defined_mask: 0x0000_000f,
                action: MaxwellThreeDMethodAction::Write(MaxwellThreeDWriteAction::VisibleCallLimit),
            },
        ),
        0x0d78 => Some(
            MaxwellThreeDMethodDeclaration {
                name: "DRAW_VERTEX_ARRAY",
                defined_mask: 0xffff_ffff,
                action: MaxwellThreeDMethodAction::DrawVertexArray,
            },
        ),
        0x0d7c => Some(
            MaxwellThreeDMethodDeclaration {
                name: "SET_VIEWPORT_Z_CLIP",
                defined_mask: 0x0000_0001,
                action: MaxwellThreeDMethodAction::Write(MaxwellThreeDWriteAction::ViewportZClip),
            },
        ),
        0x0d9c => Some(
            MaxwellThreeDMethodDeclaration {
                name: "SET_REDUCE_COLOR_THRESHOLDS_ENABLE",
                defined_mask: 0x0000_0001,
                action: MaxwellThreeDMethodAction::Write(MaxwellThreeDWriteAction::ColorReductionThresholdsEnable),
            },
        ),
        0x0da4 => Some(
            MaxwellThreeDMethodDeclaration {
                name: "INVALIDATE_SHADER_CACHES_NO_WFI",
                defined_mask: 0x0000_1011,
                action: MaxwellThreeDMethodAction::Trigger(MaxwellThreeDTriggerAction::InvalidateShaderCachesNoWfi),
            },
        ),
        0x0dd0 => Some(
            MaxwellThreeDMethodDeclaration {
                name: "SET_ITERATED_BLEND",
                defined_mask: 0x0000_0003,
                action: MaxwellThreeDMethodAction::Write(MaxwellThreeDWriteAction::IteratedBlend),
            },
        ),
        0x0dd4 => Some(
            MaxwellThreeDMethodDeclaration {
                name: "SET_ITERATED_BLEND_PASS",
                defined_mask: 0x0000_00ff,
                action: MaxwellThreeDMethodAction::Write(MaxwellThreeDWriteAction::IteratedBlendPassCount),
            },
        ),
        0x0dd8 => Some(
            MaxwellThreeDMethodDeclaration {
                name: "SET_ZCULL_CRITERION",
                defined_mask: 0xffff_03ff,
                action: MaxwellThreeDMethodAction::Write(MaxwellThreeDWriteAction::ZCullCriterion),
            },
        ),
        0x0de4 => Some(
            MaxwellThreeDMethodDeclaration {
                name: "SET_SM_TIMEOUT_INTERVAL",
                defined_mask: profile.sm_timeout_counter_mask,
                action: MaxwellThreeDMethodAction::Write(MaxwellThreeDWriteAction::SmTimeoutCounterBit),
            },
        ),
        0x0f1c => Some(
            MaxwellThreeDMethodDeclaration {
                name: "SET_POST_Z_PS_IMASK",
                defined_mask: 0x0000_0001,
                action: MaxwellThreeDMethodAction::Write(MaxwellThreeDWriteAction::PostZPixelShaderImask),
            },
        ),
        0x0f40 => Some(
            MaxwellThreeDMethodDeclaration {
                name: "SET_CONSTANT_COLOR_RENDERING",
                defined_mask: 0x0000_0001,
                action: MaxwellThreeDMethodAction::Write(MaxwellThreeDWriteAction::ConstantColorRenderingEnable),
            },
        ),
        0x0f44 => Some(
            MaxwellThreeDMethodDeclaration {
                name: "SET_CONSTANT_COLOR_RENDERING_RED",
                defined_mask: 0xffff_ffff,
                action: MaxwellThreeDMethodAction::Write(MaxwellThreeDWriteAction::ConstantColorRenderingComponent(MaxwellThreeDConstantColorComponent::Red)),
            },
        ),
        0x0f48 => Some(
            MaxwellThreeDMethodDeclaration {
                name: "SET_CONSTANT_COLOR_RENDERING_GREEN",
                defined_mask: 0xffff_ffff,
                action: MaxwellThreeDMethodAction::Write(MaxwellThreeDWriteAction::ConstantColorRenderingComponent(MaxwellThreeDConstantColorComponent::Green)),
            },
        ),
        0x0f4c => Some(
            MaxwellThreeDMethodDeclaration {
                name: "SET_CONSTANT_COLOR_RENDERING_BLUE",
                defined_mask: 0xffff_ffff,
                action: MaxwellThreeDMethodAction::Write(MaxwellThreeDWriteAction::ConstantColorRenderingComponent(MaxwellThreeDConstantColorComponent::Blue)),
            },
        ),
        0x0f50 => Some(
            MaxwellThreeDMethodDeclaration {
                name: "SET_CONSTANT_COLOR_RENDERING_ALPHA",
                defined_mask: 0xffff_ffff,
                action: MaxwellThreeDMethodAction::Write(MaxwellThreeDWriteAction::ConstantColorRenderingComponent(MaxwellThreeDConstantColorComponent::Alpha)),
            },
        ),
        0x0f60 => Some(
            MaxwellThreeDMethodDeclaration {
                name: "SET_TILED_CACHE_ENABLE",
                defined_mask: 0x0000_0001,
                action: MaxwellThreeDMethodAction::Write(MaxwellThreeDWriteAction::TiledCacheEnable),
            },
        ),
        0x0f64 => Some(
            MaxwellThreeDMethodDeclaration {
                name: "SET_TILED_CACHE_TILE_SIZE",
                defined_mask: 0xffff_ffff,
                action: MaxwellThreeDMethodAction::Write(MaxwellThreeDWriteAction::TiledCacheTileSize),
            },
        ),
        0x0f68 => Some(
            MaxwellThreeDMethodDeclaration {
                name: "SET_TILED_CACHE_UNKNOWN_CONFIG_0",
                defined_mask: 0xffff_ffff,
                action: MaxwellThreeDMethodAction::Write(MaxwellThreeDWriteAction::TiledCacheUnknownConfig(0)),
            },
        ),
        0x0f6c => Some(
            MaxwellThreeDMethodDeclaration {
                name: "SET_TILED_CACHE_UNKNOWN_CONFIG_1",
                defined_mask: 0xffff_ffff,
                action: MaxwellThreeDMethodAction::Write(MaxwellThreeDWriteAction::TiledCacheUnknownConfig(1)),
            },
        ),
        0x0f70 => Some(
            MaxwellThreeDMethodDeclaration {
                name: "SET_TILED_CACHE_UNKNOWN_CONFIG_3",
                defined_mask: 0xffff_ffff,
                action: MaxwellThreeDMethodAction::Write(MaxwellThreeDWriteAction::TiledCacheUnknownConfig(3)),
            },
        ),
        0x0f80 => Some(
            MaxwellThreeDMethodDeclaration {
                name: "TILED_CACHE_FLUSH",
                defined_mask: 0x0000_0001,
                action: MaxwellThreeDMethodAction::TiledCacheFlush,
            },
        ),
        0x0f98 => Some(
            MaxwellThreeDMethodDeclaration {
                name: "SET_VTG_WARP_WATERMARKS",
                defined_mask: 0xffff_ffff,
                action: MaxwellThreeDMethodAction::Write(MaxwellThreeDWriteAction::ShaderWatermarks(MaxwellThreeDShaderWatermarkTarget::VertexTessellationGeometryWarps)),
            },
        ),
        0x0fb4 => Some(
            MaxwellThreeDMethodDeclaration {
                name: "SET_TIR",
                defined_mask: 0x0000_0003,
                action: MaxwellThreeDMethodAction::Write(MaxwellThreeDWriteAction::TirMode),
            },
        ),
        0x0fd4 => Some(
            MaxwellThreeDMethodDeclaration {
                name: "SET_TIR_MODULATION",
                defined_mask: 0x0000_0003,
                action: MaxwellThreeDMethodAction::Write(MaxwellThreeDWriteAction::TirModulation),
            },
        ),
        0x0fd8 => Some(
            MaxwellThreeDMethodDeclaration {
                name: "SET_TIR_MODULATION_FUNCTION",
                defined_mask: 0x0000_0001,
                action: MaxwellThreeDMethodAction::Write(MaxwellThreeDWriteAction::TirModulationFunction),
            },
        ),
        0x1000 => Some(
            MaxwellThreeDMethodDeclaration {
                name: "SET_L2_CACHE_CONTROL_FOR_VAF_REQUESTS",
                defined_mask: 0x0000_0031,
                action: MaxwellThreeDMethodAction::Write(MaxwellThreeDWriteAction::VafL2CacheControl),
            },
        ),
        0x10cc => Some(
            MaxwellThreeDMethodDeclaration {
                name: "SET_REDUCE_COLOR_THRESHOLDS_UNORM8",
                defined_mask: 0x00ff_00ff,
                action: MaxwellThreeDMethodAction::Write(MaxwellThreeDWriteAction::ColorReductionThresholdsUnorm8),
            },
        ),
        0x10e0 => Some(
            MaxwellThreeDMethodDeclaration {
                name: "SET_REDUCE_COLOR_THRESHOLDS_UNORM10",
                defined_mask: 0x00ff_00ff,
                action: MaxwellThreeDMethodAction::Write(MaxwellThreeDWriteAction::ColorReductionThresholdsUnorm10),
            },
        ),
        0x10e4 => Some(
            MaxwellThreeDMethodDeclaration {
                name: "SET_REDUCE_COLOR_THRESHOLDS_UNORM16",
                defined_mask: 0x00ff_00ff,
                action: MaxwellThreeDMethodAction::Write(MaxwellThreeDWriteAction::ColorReductionThresholdsUnorm16),
            },
        ),
        0x10ec => Some(
            MaxwellThreeDMethodDeclaration {
                name: "SET_REDUCE_COLOR_THRESHOLDS_FP16",
                defined_mask: 0x00ff_00ff,
                action: MaxwellThreeDMethodAction::Write(MaxwellThreeDWriteAction::ColorReductionThresholdsFp16),
            },
        ),
        0x10f0 => Some(
            MaxwellThreeDMethodDeclaration {
                name: "SET_REDUCE_COLOR_THRESHOLDS_SRGB8",
                defined_mask: 0x00ff_00ff,
                action: MaxwellThreeDMethodAction::Write(MaxwellThreeDWriteAction::ColorReductionThresholdsSrgb8),
            },
        ),
        0x10fc => Some(
            MaxwellThreeDMethodDeclaration {
                name: "SET_L2_CACHE_CONTROL_FOR_ROP_NONINTERLOCKED_READ_REQUESTS",
                defined_mask: 0x0000_0030,
                action: MaxwellThreeDMethodAction::Write(MaxwellThreeDWriteAction::RopL2CacheControl(MaxwellThreeDRopL2CacheRequest::NoninterlockedRead)),
            },
        ),
        0x1108 => Some(
            MaxwellThreeDMethodDeclaration {
                name: "SET_TILED_CACHE_UNKNOWN_CONFIG_2",
                defined_mask: 0xffff_ffff,
                action: MaxwellThreeDMethodAction::Write(MaxwellThreeDWriteAction::TiledCacheUnknownConfig(2)),
            },
        ),
        0x1130 => Some(
            MaxwellThreeDMethodDeclaration {
                name: "SET_TIR_CONTROL",
                defined_mask: 0x0000_0013,
                action: MaxwellThreeDMethodAction::Write(MaxwellThreeDWriteAction::TirControl),
            },
        ),
        0x1134 => Some(
            MaxwellThreeDMethodDeclaration {
                name: "SET_MUTABLE_METHOD_CONTROL",
                defined_mask: 0x0000_0001,
                action: MaxwellThreeDMethodAction::Write(MaxwellThreeDWriteAction::MutableMethodControl),
            },
        ),
        0x1144 => Some(
            MaxwellThreeDMethodDeclaration {
                name: "FLUSH_PENDING_WRITES",
                defined_mask: 0x0000_0001,
                action: MaxwellThreeDMethodAction::Trigger(MaxwellThreeDTriggerAction::FlushPendingWrites),
            },
        ),
        0x11e0 => Some(
            MaxwellThreeDMethodDeclaration {
                name: "SAMPLE_LOCATIONS(0)",
                defined_mask: 0xffff_ffff,
                action: MaxwellThreeDMethodAction::Write(MaxwellThreeDWriteAction::SampleLocations(0)),
            },
        ),
        0x11e4 => Some(
            MaxwellThreeDMethodDeclaration {
                name: "SAMPLE_LOCATIONS(1)",
                defined_mask: 0xffff_ffff,
                action: MaxwellThreeDMethodAction::Write(MaxwellThreeDWriteAction::SampleLocations(1)),
            },
        ),
        0x11e8 => Some(
            MaxwellThreeDMethodDeclaration {
                name: "SAMPLE_LOCATIONS(2)",
                defined_mask: 0xffff_ffff,
                action: MaxwellThreeDMethodAction::Write(MaxwellThreeDWriteAction::SampleLocations(2)),
            },
        ),
        0x11ec => Some(
            MaxwellThreeDMethodDeclaration {
                name: "SAMPLE_LOCATIONS(3)",
                defined_mask: 0xffff_ffff,
                action: MaxwellThreeDMethodAction::Write(MaxwellThreeDWriteAction::SampleLocations(3)),
            },
        ),
        0x11f8 => Some(
            MaxwellThreeDMethodDeclaration {
                name: "SET_COVERAGE_TO_COLOR",
                defined_mask: 0x0000_0071,
                action: MaxwellThreeDMethodAction::Write(MaxwellThreeDWriteAction::CoverageToColor),
            },
        ),
        0x1224 => Some(
            MaxwellThreeDMethodDeclaration {
                name: "SET_PIXEL_SHADER_INTERLOCK_CONTROL",
                defined_mask: 0x0000_000f,
                action: MaxwellThreeDMethodAction::Write(MaxwellThreeDWriteAction::PixelShaderInterlockControl),
            },
        ),
        0x1288 => Some(
            MaxwellThreeDMethodDeclaration {
                name: "INVALIDATE_TEXTURE_DATA_CACHE_NO_WFI",
                defined_mask: 0x03ff_fff1,
                action: MaxwellThreeDMethodAction::Trigger(MaxwellThreeDTriggerAction::InvalidateTextureCacheNoWfi(MaxwellThreeDTextureCacheTarget::Data)),
            },
        ),
        0x1290 => Some(
            MaxwellThreeDMethodDeclaration {
                name: "SET_L2_CACHE_CONTROL_FOR_ROP_INTERLOCKED_READ_REQUESTS",
                defined_mask: 0x0000_0030,
                action: MaxwellThreeDMethodAction::Write(MaxwellThreeDWriteAction::RopL2CacheControl(MaxwellThreeDRopL2CacheRequest::InterlockedRead)),
            },
        ),
        0x12d8 => Some(
            MaxwellThreeDMethodDeclaration {
                name: "SET_L2_CACHE_CONTROL_FOR_ROP_NONINTERLOCKED_WRITE_REQUESTS",
                defined_mask: 0x0000_0030,
                action: MaxwellThreeDMethodAction::Write(MaxwellThreeDWriteAction::RopL2CacheControl(MaxwellThreeDRopL2CacheRequest::NoninterlockedWrite)),
            },
        ),
        0x12dc => Some(
            MaxwellThreeDMethodDeclaration {
                name: "SET_L2_CACHE_CONTROL_FOR_ROP_INTERLOCKED_WRITE_REQUESTS",
                defined_mask: 0x0000_0030,
                action: MaxwellThreeDMethodAction::Write(MaxwellThreeDWriteAction::RopL2CacheControl(MaxwellThreeDRopL2CacheRequest::InterlockedWrite)),
            },
        ),
        0x1330 => Some(
            MaxwellThreeDMethodDeclaration {
                name: "INVALIDATE_SAMPLER_CACHE",
                defined_mask: 0x03ff_fff1,
                action: MaxwellThreeDMethodAction::Trigger(MaxwellThreeDTriggerAction::InvalidateTextureCache(MaxwellThreeDTextureCacheTarget::Sampler)),
            },
        ),
        0x1334 => Some(
            MaxwellThreeDMethodDeclaration {
                name: "INVALIDATE_TEXTURE_HEADER_CACHE",
                defined_mask: 0x03ff_fff1,
                action: MaxwellThreeDMethodAction::Trigger(MaxwellThreeDTriggerAction::InvalidateTextureCache(MaxwellThreeDTextureCacheTarget::Header)),
            },
        ),
        0x1338 => Some(
            MaxwellThreeDMethodDeclaration {
                name: "INVALIDATE_TEXTURE_DATA_CACHE",
                defined_mask: 0x03ff_fff1,
                action: MaxwellThreeDMethodAction::Trigger(MaxwellThreeDTriggerAction::InvalidateTextureCache(MaxwellThreeDTextureCacheTarget::Data)),
            },
        ),
        0x1424 => Some(
            MaxwellThreeDMethodDeclaration {
                name: "INVALIDATE_SAMPLER_CACHE_NO_WFI",
                defined_mask: 0x03ff_fff1,
                action: MaxwellThreeDMethodAction::Trigger(MaxwellThreeDTriggerAction::InvalidateTextureCacheNoWfi(MaxwellThreeDTextureCacheTarget::Sampler)),
            },
        ),
        0x1428 => Some(
            MaxwellThreeDMethodDeclaration {
                name: "INVALIDATE_TEXTURE_HEADER_CACHE_NO_WFI",
                defined_mask: 0x03ff_fff1,
                action: MaxwellThreeDMethodAction::Trigger(MaxwellThreeDTriggerAction::InvalidateTextureCacheNoWfi(MaxwellThreeDTextureCacheTarget::Header)),
            },
        ),
        0x1450 => Some(
            MaxwellThreeDMethodDeclaration {
                name: "SET_PS_WARP_WATERMARKS",
                defined_mask: 0xffff_ffff,
                action: MaxwellThreeDMethodAction::Write(MaxwellThreeDWriteAction::ShaderWatermarks(MaxwellThreeDShaderWatermarkTarget::PixelWarps)),
            },
        ),
        0x1454 => Some(
            MaxwellThreeDMethodDeclaration {
                name: "SET_PS_REGISTER_WATERMARKS",
                defined_mask: 0xffff_ffff,
                action: MaxwellThreeDMethodAction::Write(MaxwellThreeDWriteAction::ShaderWatermarks(MaxwellThreeDShaderWatermarkTarget::PixelRegisters)),
            },
        ),
        0x1514 => Some(
            MaxwellThreeDMethodDeclaration {
                name: "SET_ZPASS_PIXEL_COUNT",
                defined_mask: 0x0000_0001,
                action: MaxwellThreeDMethodAction::Write(MaxwellThreeDWriteAction::ZPassPixelCountEnable),
            },
        ),
        0x1518 => Some(
            MaxwellThreeDMethodDeclaration {
                name: "SET_POINT_SIZE",
                defined_mask: 0xffff_ffff,
                action: MaxwellThreeDMethodAction::Write(MaxwellThreeDWriteAction::PointSize),
            },
        ),
        0x151c => Some(
            MaxwellThreeDMethodDeclaration {
                name: "SET_ZCULL_STATS",
                defined_mask: 0x0000_0001,
                action: MaxwellThreeDMethodAction::Write(MaxwellThreeDWriteAction::ZCullStatsEnable),
            },
        ),
        0x1528 => Some(
            MaxwellThreeDMethodDeclaration {
                name: "SET_SHADER_EXCEPTIONS",
                defined_mask: 0x0000_0001,
                action: MaxwellThreeDMethodAction::Write(MaxwellThreeDWriteAction::ShaderExceptionsEnable),
            },
        ),
        0x1558 => Some(
            MaxwellThreeDMethodDeclaration {
                name: "SET_RENDER_ENABLE_C",
                defined_mask: 0x0000_0007,
                action: MaxwellThreeDMethodAction::Write(MaxwellThreeDWriteAction::RenderEnableMode),
            },
        ),
        0x1590 => Some(
            MaxwellThreeDMethodDeclaration {
                name: "SET_ACTIVE_ZCULL_REGION",
                defined_mask: 0x0000_003f,
                action: MaxwellThreeDMethodAction::Write(MaxwellThreeDWriteAction::ActiveZCullRegion),
            },
        ),
        0x15b4 => Some(
            MaxwellThreeDMethodDeclaration {
                name: "CSAA_ENABLE",
                defined_mask: 0x0000_0001,
                action: MaxwellThreeDMethodAction::Write(MaxwellThreeDWriteAction::CsaaEnable),
            },
        ),
        0x15e4 => Some(
            MaxwellThreeDMethodDeclaration {
                name: "SET_EDGE_FLAG",
                defined_mask: 0x0000_0001,
                action: MaxwellThreeDMethodAction::Write(MaxwellThreeDWriteAction::EdgeFlag),
            },
        ),
        0x1604 => Some(
            MaxwellThreeDMethodDeclaration {
                name: "SET_POINT_SPRITE_SELECT",
                defined_mask: 0x0000_1fff,
                action: MaxwellThreeDMethodAction::Write(MaxwellThreeDWriteAction::PointSpriteSelect),
            },
        ),
        0x165c => Some(
            MaxwellThreeDMethodDeclaration {
                name: "SET_POINT_CENTER_MODE",
                defined_mask: 0x0000_0001,
                action: MaxwellThreeDMethodAction::Write(MaxwellThreeDWriteAction::PointCenterMode),
            },
        ),
        0x16a8 => Some(
            MaxwellThreeDMethodDeclaration {
                name: "CHECK_SPH_VERSION",
                defined_mask: 0xffff_ffff,
                action: MaxwellThreeDMethodAction::CheckSphVersion,
            },
        ),
        0x16b4 => Some(
            MaxwellThreeDMethodDeclaration {
                name: "SET_ALPHA_TO_COVERAGE_OVERRIDE",
                defined_mask: 0x0000_0003,
                action: MaxwellThreeDMethodAction::Write(MaxwellThreeDWriteAction::AlphaToCoverageOverride),
            },
        ),
        0x1794 => Some(
            MaxwellThreeDMethodDeclaration {
                name: "CHECK_AAM_VERSION",
                defined_mask: 0xffff_ffff,
                action: MaxwellThreeDMethodAction::CheckAamVersion,
            },
        ),
        0x1968 => Some(
            MaxwellThreeDMethodDeclaration {
                name: "SET_ZCULL",
                defined_mask: 0x0000_0011,
                action: MaxwellThreeDMethodAction::Write(MaxwellThreeDWriteAction::ZCullEnable),
            },
        ),
        0x196c => Some(
            MaxwellThreeDMethodDeclaration {
                name: "SET_ZCULL_BOUNDS",
                defined_mask: 0x0000_0011,
                action: MaxwellThreeDMethodAction::Write(MaxwellThreeDWriteAction::ZCullBounds),
            },
        ),
        0x1a2c => Some(
            MaxwellThreeDMethodDeclaration {
                name: "PIPE_NOP",
                defined_mask: 0xffff_ffff,
                action: MaxwellThreeDMethodAction::NoOperation,
            },
        ),
        0x1b00 => Some(
            MaxwellThreeDMethodDeclaration {
                name: "SET_REPORT_SEMAPHORE_A",
                defined_mask: 0x0000_00ff,
                action: MaxwellThreeDMethodAction::Write(MaxwellThreeDWriteAction::ReportSemaphoreAddressUpper),
            },
        ),
        0x1b04 => Some(
            MaxwellThreeDMethodDeclaration {
                name: "SET_REPORT_SEMAPHORE_B",
                defined_mask: 0xffff_ffff,
                action: MaxwellThreeDMethodAction::Write(MaxwellThreeDWriteAction::ReportSemaphoreAddressLower),
            },
        ),
        0x1b08 => Some(
            MaxwellThreeDMethodDeclaration {
                name: "SET_REPORT_SEMAPHORE_C",
                defined_mask: 0xffff_ffff,
                action: MaxwellThreeDMethodAction::Write(MaxwellThreeDWriteAction::ReportSemaphorePayload),
            },
        ),
        0x1b0c => Some(
            MaxwellThreeDMethodDeclaration {
                name: "SET_REPORT_SEMAPHORE_D",
                defined_mask: 0x1fb7_ffff,
                action: MaxwellThreeDMethodAction::Trigger(MaxwellThreeDTriggerAction::ReportSemaphoreTrigger),
            },
        ),
        0x2310 => Some(
            MaxwellThreeDMethodDeclaration {
                name: "SET_FALCON04",
                defined_mask: 0xffff_ffff,
                action: MaxwellThreeDMethodAction::FalconFirmwareCall4,
            },
        ),
        _ => None,
    }
}

#[verifier::when_used_as_spec(spec_method_declaration)]
pub fn method_declaration(profile: &MaxwellGpuProfile, method: u32) -> (r: Option<
    MaxwellThreeDMethodDeclaration,
>)
    ensures
        r == spec_method_declaration(profile, method),
        r matches Some(declaration) ==> (declaration.action matches MaxwellThreeDMethodAction::Write(
            action,
        ) ==> action.wf()),
{
    match method {
        0x0100 => Some(
            MaxwellThreeDMethodDeclaration {
                name: "NO_OPERATION",
                defined_mask: 0xffff_ffff,
                action: MaxwellThreeDMethodAction::NoOperation,
            },
        ),
        0x0104 => Some(
            MaxwellThreeDMethodDeclaration {
                name: "SET_NOTIFY_A",
                defined_mask: 0x0000_00ff,
                action: MaxwellThreeDMethodAction::Unsupported,
            },
        ),
        0x0110 => Some(
            MaxwellThreeDMethodDeclaration {
                name: "WAIT_FOR_IDLE",
                defined_mask: 0xffff_ffff,
                action: MaxwellThreeDMethodAction::Trigger(MaxwellThreeDTriggerAction::WaitForIdle),
            },
        ),
        0x0124 => Some(
            MaxwellThreeDMethodDeclaration {
                name: "SET_MME_SHADOW_RAM_CONTROL",
                defined_mask: 0x0000_0003,
                action: MaxwellThreeDMethodAction::Write(MaxwellThreeDWriteAction::MmeShadowRamControl),
            },
        ),
        0x0150 => Some(
            MaxwellThreeDMethodDeclaration {
                name: "SET_INSTRUMENTATION_METHOD_HEADER",
                defined_mask: 0xffff_ffff,
                action: MaxwellThreeDMethodAction::Write(MaxwellThreeDWriteAction::InstrumentationHeader),
            },
        ),
        0x0154 => Some(
            MaxwellThreeDMethodDeclaration {
                name: "SET_INSTRUMENTATION_METHOD_DATA",
                defined_mask: 0xffff_ffff,
                action: MaxwellThreeDMethodAction::Write(MaxwellThreeDWriteAction::InstrumentationData),
            },
        ),
        0x020c => Some(
            MaxwellThreeDMethodDeclaration {
                name: "SET_ALIASED_LINE_WIDTH_ENABLE",
                defined_mask: 0x0000_0001,
                action: MaxwellThreeDMethodAction::Write(MaxwellThreeDWriteAction::AliasedLineWidthEnable),
            },
        ),
        0x0210 => Some(
            MaxwellThreeDMethodDeclaration {
                name: "SET_API_MANDATED_EARLY_Z",
                defined_mask: 0x0000_0001,
                action: MaxwellThreeDMethodAction::Write(MaxwellThreeDWriteAction::ApiMandatedEarlyZ),
            },
        ),
        0x0218 => Some(
            MaxwellThreeDMethodDeclaration {
                name: "SET_L2_CACHE_CONTROL_FOR_ROP_PREFETCH_READ_REQUESTS",
                defined_mask: 0x0000_0030,
                action: MaxwellThreeDMethodAction::Write(MaxwellThreeDWriteAction::RopL2CacheControl(MaxwellThreeDRopL2CacheRequest::PrefetchRead)),
            },
        ),
        0x021c => Some(
            MaxwellThreeDMethodDeclaration {
                name: "INVALIDATE_SHADER_CACHES",
                defined_mask: 0x0000_1017,
                action: MaxwellThreeDMethodAction::Trigger(MaxwellThreeDTriggerAction::InvalidateShaderCaches),
            },
        ),
        0x02c8 => Some(
            MaxwellThreeDMethodDeclaration {
                name: "INCREMENT_SYNC_POINT",
                defined_mask: 0x0011_0fff,
                action: MaxwellThreeDMethodAction::Trigger(MaxwellThreeDTriggerAction::IncrementSyncpoint),
            },
        ),
        0x02e0 => Some(
            MaxwellThreeDMethodDeclaration {
                name: "DECOMPRESS_SURFACE",
                defined_mask: 0x000f_fff7,
                action: MaxwellThreeDMethodAction::DecompressSurface,
            },
        ),
        0x02ec => Some(
            MaxwellThreeDMethodDeclaration {
                name: "SET_RASTER_BOUNDING_BOX",
                defined_mask: 0x0000_0ff1,
                action: MaxwellThreeDMethodAction::Write(MaxwellThreeDWriteAction::RasterBoundingBox),
            },
        ),
        0x0300 => Some(
            MaxwellThreeDMethodDeclaration {
                name: "SET_PS_OUTPUT_SAMPLE_MASK_USAGE",
                defined_mask: 0x0000_0003,
                action: MaxwellThreeDMethodAction::Write(MaxwellThreeDWriteAction::PsOutputSampleMaskUsage),
            },
        ),
        0x0304 => Some(
            MaxwellThreeDMethodDeclaration {
                name: "DRAW_ZERO_INDEX",
                defined_mask: 0xffff_ffff,
                action: MaxwellThreeDMethodAction::Missing(MaxwellEngineCapability::HostBackend),
            },
        ),
        0x0308 => Some(
            MaxwellThreeDMethodDeclaration {
                name: "SET_L1_CONFIGURATION",
                defined_mask: 0x0000_0007,
                action: MaxwellThreeDMethodAction::Write(MaxwellThreeDWriteAction::L1Configuration),
            },
        ),
        0x030c => Some(
            MaxwellThreeDMethodDeclaration {
                name: "SET_RENDER_ENABLE_CONTROL",
                defined_mask: 0x0000_0001,
                action: MaxwellThreeDMethodAction::Write(MaxwellThreeDWriteAction::RenderEnableControl),
            },
        ),
        0x0360 => Some(
            MaxwellThreeDMethodDeclaration {
                name: "SET_SUBTILING_PERF_KNOB_A",
                defined_mask: 0xffff_ffff,
                action: MaxwellThreeDMethodAction::Write(MaxwellThreeDWriteAction::SubtilingPerfKnobA),
            },
        ),
        0x0364 => Some(
            MaxwellThreeDMethodDeclaration {
                name: "SET_SUBTILING_PERF_KNOB_B",
                defined_mask: 0x0000_00ff,
                action: MaxwellThreeDMethodAction::Write(MaxwellThreeDWriteAction::SubtilingPerfKnobB),
            },
        ),
        0x074c => Some(
            MaxwellThreeDMethodDeclaration {
                name: "SET_ALPHA_FRACTION",
                defined_mask: 0x0000_00ff,
                action: MaxwellThreeDMethodAction::Write(MaxwellThreeDWriteAction::AlphaFraction),
            },
        ),
        0x0754 => Some(
            MaxwellThreeDMethodDeclaration {
                name: "SET_HYBRID_ANTI_ALIAS_CONTROL",
                defined_mask: 0x0000_003f,
                action: MaxwellThreeDMethodAction::Write(MaxwellThreeDWriteAction::HybridAntiAliasControl),
            },
        ),
        0x077c => Some(
            MaxwellThreeDMethodDeclaration {
                name: "SET_SHADER_LOCAL_MEMORY_WINDOW",
                defined_mask: 0xffff_ffff,
                action: MaxwellThreeDMethodAction::Write(MaxwellThreeDWriteAction::ShaderLocalMemoryWindowBaseAddress),
            },
        ),
        0x0790 => Some(
            MaxwellThreeDMethodDeclaration {
                name: "SET_SHADER_LOCAL_MEMORY_A",
                defined_mask: 0x0000_00ff,
                action: MaxwellThreeDMethodAction::Write(MaxwellThreeDWriteAction::ShaderLocalMemoryAddressUpper),
            },
        ),
        0x0794 => Some(
            MaxwellThreeDMethodDeclaration {
                name: "SET_SHADER_LOCAL_MEMORY_B",
                defined_mask: 0xffff_ffff,
                action: MaxwellThreeDMethodAction::Write(MaxwellThreeDWriteAction::ShaderLocalMemoryAddressLower),
            },
        ),
        0x0798 => Some(
            MaxwellThreeDMethodDeclaration {
                name: "SET_SHADER_LOCAL_MEMORY_C",
                defined_mask: 0x0000_003f,
                action: MaxwellThreeDMethodAction::Write(MaxwellThreeDWriteAction::ShaderLocalMemorySizeUpper),
            },
        ),
        0x079c => Some(
            MaxwellThreeDMethodDeclaration {
                name: "SET_SHADER_LOCAL_MEMORY_D",
                defined_mask: 0xffff_ffff,
                action: MaxwellThreeDMethodAction::Write(MaxwellThreeDWriteAction::ShaderLocalMemorySizeLower),
            },
        ),
        0x07a0 => Some(
            MaxwellThreeDMethodDeclaration {
                name: "SET_SHADER_LOCAL_MEMORY_E",
                defined_mask: profile.local_memory_per_warp_mask,
                action: MaxwellThreeDMethodAction::Write(MaxwellThreeDWriteAction::ShaderLocalMemoryDefaultSizePerWarp),
            },
        ),
        0x0d64 => Some(
            MaxwellThreeDMethodDeclaration {
                name: "SET_API_VISIBLE_CALL_LIMIT",
                defined_mask: 0x0000_000f,
                action: MaxwellThreeDMethodAction::Write(MaxwellThreeDWriteAction::VisibleCallLimit),
            },
        ),
        0x0d78 => Some(
            MaxwellThreeDMethodDeclaration {
                name: "DRAW_VERTEX_ARRAY",
                defined_mask: 0xffff_ffff,
                action: MaxwellThreeDMethodAction::DrawVertexArray,
            },
        ),
        0x0d7c => Some(
            MaxwellThreeDMethodDeclaration {
                name: "SET_VIEWPORT_Z_CLIP",
                defined_mask: 0x0000_0001,
                action: MaxwellThreeDMethodAction::Write(MaxwellThreeDWriteAction::ViewportZClip),
            },
        ),
        0x0d9c => Some(
            MaxwellThreeDMethodDeclaration {
                name: "SET_REDUCE_COLOR_THRESHOLDS_ENABLE",
                defined_mask: 0x0000_0001,
                action: MaxwellThreeDMethodAction::Write(MaxwellThreeDWriteAction::ColorReductionThresholdsEnable),
            },
        ),
        0x0da4 => Some(
            MaxwellThreeDMethodDeclaration {
                name: "INVALIDATE_SHADER_CACHES_NO_WFI",
                defined_mask: 0x0000_1011,
                action: MaxwellThreeDMethodAction::Trigger(MaxwellThreeDTriggerAction::InvalidateShaderCachesNoWfi),
            },
        ),
        0x0dd0 => Some(
            MaxwellThreeDMethodDeclaration {
                name: "SET_ITERATED_BLEND",
                defined_mask: 0x0000_0003,
                action: MaxwellThreeDMethodAction::Write(MaxwellThreeDWriteAction::IteratedBlend),
            },
        ),
        0x0dd4 => Some(
            MaxwellThreeDMethodDeclaration {
                name: "SET_ITERATED_BLEND_PASS",
                defined_mask: 0x0000_00ff,
                action: MaxwellThreeDMethodAction::Write(MaxwellThreeDWriteAction::IteratedBlendPassCount),
            },
        ),
        0x0dd8 => Some(
            MaxwellThreeDMethodDeclaration {
                name: "SET_ZCULL_CRITERION",
                defined_mask: 0xffff_03ff,
                action: MaxwellThreeDMethodAction::Write(MaxwellThreeDWriteAction::ZCullCriterion),
            },
        ),
        0x0de4 => Some(
            MaxwellThreeDMethodDeclaration {
                name: "SET_SM_TIMEOUT_INTERVAL",
                defined_mask: profile.sm_timeout_counter_mask,
                action: MaxwellThreeDMethodAction::Write(MaxwellThreeDWriteAction::SmTimeoutCounterBit),
            },
        ),
        0x0f1c => Some(
            MaxwellThreeDMethodDeclaration {
                name: "SET_POST_Z_PS_IMASK",
                defined_mask: 0x0000_0001,
                action: MaxwellThreeDMethodAction::Write(MaxwellThreeDWriteAction::PostZPixelShaderImask),
            },
        ),
        0x0f40 => Some(
            MaxwellThreeDMethodDeclaration {
                name: "SET_CONSTANT_COLOR_RENDERING",
                defined_mask: 0x0000_0001,
                action: MaxwellThreeDMethodAction::Write(MaxwellThreeDWriteAction::ConstantColorRenderingEnable),
            },
        ),
        0x0f44 => Some(
            MaxwellThreeDMethodDeclaration {
                name: "SET_CONSTANT_COLOR_RENDERING_RED",
                defined_mask: 0xffff_ffff,
                action: MaxwellThreeDMethodAction::Write(MaxwellThreeDWriteAction::ConstantColorRenderingComponent(MaxwellThreeDConstantColorComponent::Red)),
            },
        ),
        0x0f48 => Some(
            MaxwellThreeDMethodDeclaration {
                name: "SET_CONSTANT_COLOR_RENDERING_GREEN",
                defined_mask: 0xffff_ffff,
                action: MaxwellThreeDMethodAction::Write(MaxwellThreeDWriteAction::ConstantColorRenderingComponent(MaxwellThreeDConstantColorComponent::Green)),
            },
        ),
        0x0f4c => Some(
            MaxwellThreeDMethodDeclaration {
                name: "SET_CONSTANT_COLOR_RENDERING_BLUE",
                defined_mask: 0xffff_ffff,
                action: MaxwellThreeDMethodAction::Write(MaxwellThreeDWriteAction::ConstantColorRenderingComponent(MaxwellThreeDConstantColorComponent::Blue)),
            },
        ),
        0x0f50 => Some(
            MaxwellThreeDMethodDeclaration {
                name: "SET_CONSTANT_COLOR_RENDERING_ALPHA",
                defined_mask: 0xffff_ffff,
                action: MaxwellThreeDMethodAction::Write(MaxwellThreeDWriteAction::ConstantColorRenderingComponent(MaxwellThreeDConstantColorComponent::Alpha)),
            },
        ),
        0x0f60 => Some(
            MaxwellThreeDMethodDeclaration {
                name: "SET_TILED_CACHE_ENABLE",
                defined_mask: 0x0000_0001,
                action: MaxwellThreeDMethodAction::Write(MaxwellThreeDWriteAction::TiledCacheEnable),
            },
        ),
        0x0f64 => Some(
            MaxwellThreeDMethodDeclaration {
                name: "SET_TILED_CACHE_TILE_SIZE",
                defined_mask: 0xffff_ffff,
                action: MaxwellThreeDMethodAction::Write(MaxwellThreeDWriteAction::TiledCacheTileSize),
            },
        ),
        0x0f68 => Some(
            MaxwellThreeDMethodDeclaration {
                name: "SET_TILED_CACHE_UNKNOWN_CONFIG_0",
                defined_mask: 0xffff_ffff,
                action: MaxwellThreeDMethodAction::Write(MaxwellThreeDWriteAction::TiledCacheUnknownConfig(0)),
            },
        ),
        0x0f6c => Some(
            MaxwellThreeDMethodDeclaration {
                name: "SET_TILED_CACHE_UNKNOWN_CONFIG_1",
                defined_mask: 0xffff_ffff,
                action: MaxwellThreeDMethodAction::Write(MaxwellThreeDWriteAction::TiledCacheUnknownConfig(1)),
            },
        ),
        0x0f70 => Some(
            MaxwellThreeDMethodDeclaration {
                name: "SET_TILED_CACHE_UNKNOWN_CONFIG_3",
                defined_mask: 0xffff_ffff,
                action: MaxwellThreeDMethodAction::Write(MaxwellThreeDWriteAction::TiledCacheUnknownConfig(3)),
            },
        ),
        0x0f80 => Some(
            MaxwellThreeDMethodDeclaration {
                name: "TILED_CACHE_FLUSH",
                defined_mask: 0x0000_0001,
                action: MaxwellThreeDMethodAction::TiledCacheFlush,
            },
        ),
        0x0f98 => Some(
            MaxwellThreeDMethodDeclaration {
                name: "SET_VTG_WARP_WATERMARKS",
                defined_mask: 0xffff_ffff,
                action: MaxwellThreeDMethodAction::Write(MaxwellThreeDWriteAction::ShaderWatermarks(MaxwellThreeDShaderWatermarkTarget::VertexTessellationGeometryWarps)),
            },
        ),
        0x0fb4 => Some(
            MaxwellThreeDMethodDeclaration {
                name: "SET_TIR",
                defined_mask: 0x0000_0003,
                action: MaxwellThreeDMethodAction::Write(MaxwellThreeDWriteAction::TirMode),
            },
        ),
        0x0fd4 => Some(
            MaxwellThreeDMethodDeclaration {
                name: "SET_TIR_MODULATION",
                defined_mask: 0x0000_0003,
                action: MaxwellThreeDMethodAction::Write(MaxwellThreeDWriteAction::TirModulation),
            },
        ),
        0x0fd8 => Some(
            MaxwellThreeDMethodDeclaration {
                name: "SET_TIR_MODULATION_FUNCTION",
                defined_mask: 0x0000_0001,
                action: MaxwellThreeDMethodAction::Write(MaxwellThreeDWriteAction::TirModulationFunction),
            },
        ),
        0x1000 => Some(
            MaxwellThreeDMethodDeclaration {
                name: "SET_L2_CACHE_CONTROL_FOR_VAF_REQUESTS",
                defined_mask: 0x0000_0031,
                action: MaxwellThreeDMethodAction::Write(MaxwellThreeDWriteAction::VafL2CacheControl),
            },
        ),
        0x10cc => Some(
            MaxwellThreeDMethodDeclaration {
                name: "SET_REDUCE_COLOR_THRESHOLDS_UNORM8",
                defined_mask: 0x00ff_00ff,
                action: MaxwellThreeDMethodAction::Write(MaxwellThreeDWriteAction::ColorReductionThresholdsUnorm8),
            },
        ),
        0x10e0 => Some(
            MaxwellThreeDMethodDeclaration {
                name: "SET_REDUCE_COLOR_THRESHOLDS_UNORM10",
                defined_mask: 0x00ff_00ff,
                action: MaxwellThreeDMethodAction::Write(MaxwellThreeDWriteAction::ColorReductionThresholdsUnorm10),
            },
        ),
        0x10e4 => Some(
            MaxwellThreeDMethodDeclaration {
                name: "SET_REDUCE_COLOR_THRESHOLDS_UNORM16",
                defined_mask: 0x00ff_00ff,
                action: MaxwellThreeDMethodAction::Write(MaxwellThreeDWriteAction::ColorReductionThresholdsUnorm16),
            },
        ),
        0x10ec => Some(
            MaxwellThreeDMethodDeclaration {
                name: "SET_REDUCE_COLOR_THRESHOLDS_FP16",
                defined_mask: 0x00ff_00ff,
                action: MaxwellThreeDMethodAction::Write(MaxwellThreeDWriteAction::ColorReductionThresholdsFp16),
            },
        ),
        0x10f0 => Some(
            MaxwellThreeDMethodDeclaration {
                name: "SET_REDUCE_COLOR_THRESHOLDS_SRGB8",
                defined_mask: 0x00ff_00ff,
                action: MaxwellThreeDMethodAction::Write(MaxwellThreeDWriteAction::ColorReductionThresholdsSrgb8),
            },
        ),
        0x10fc => Some(
            MaxwellThreeDMethodDeclaration {
                name: "SET_L2_CACHE_CONTROL_FOR_ROP_NONINTERLOCKED_READ_REQUESTS",
                defined_mask: 0x0000_0030,
                action: MaxwellThreeDMethodAction::Write(MaxwellThreeDWriteAction::RopL2CacheControl(MaxwellThreeDRopL2CacheRequest::NoninterlockedRead)),
            },
        ),
        0x1108 => Some(
            MaxwellThreeDMethodDeclaration {
                name: "SET_TILED_CACHE_UNKNOWN_CONFIG_2",
                defined_mask: 0xffff_ffff,
                action: MaxwellThreeDMethodAction::Write(MaxwellThreeDWriteAction::TiledCacheUnknownConfig(2)),
            },
        ),
        0x1130 => Some(
            MaxwellThreeDMethodDeclaration {
                name: "SET_TIR_CONTROL",
                defined_mask: 0x0000_0013,
                action: MaxwellThreeDMethodAction::Write(MaxwellThreeDWriteAction::TirControl),
            },
        ),
        0x1134 => Some(
            MaxwellThreeDMethodDeclaration {
                name: "SET_MUTABLE_METHOD_CONTROL",
                defined_mask: 0x0000_0001,
                action: MaxwellThreeDMethodAction::Write(MaxwellThreeDWriteAction::MutableMethodControl),
            },
        ),
        0x1144 => Some(
            MaxwellThreeDMethodDeclaration {
                name: "FLUSH_PENDING_WRITES",
                defined_mask: 0x0000_0001,
                action: MaxwellThreeDMethodAction::Trigger(MaxwellThreeDTriggerAction::FlushPendingWrites),
            },
        ),
        0x11e0 => Some(
            MaxwellThreeDMethodDeclaration {
                name: "SAMPLE_LOCATIONS(0)",
                defined_mask: 0xffff_ffff,
                action: MaxwellThreeDMethodAction::Write(MaxwellThreeDWriteAction::SampleLocations(0)),
            },
        ),
        0x11e4 => Some(
            MaxwellThreeDMethodDeclaration {
                name: "SAMPLE_LOCATIONS(1)",
                defined_mask: 0xffff_ffff,
                action: MaxwellThreeDMethodAction::Write(MaxwellThreeDWriteAction::SampleLocations(1)),
            },
        ),
        0x11e8 => Some(
            MaxwellThreeDMethodDeclaration {
                name: "SAMPLE_LOCATIONS(2)",
                defined_mask: 0xffff_ffff,
                action: MaxwellThreeDMethodAction::Write(MaxwellThreeDWriteAction::SampleLocations(2)),
            },
        ),
        0x11ec => Some(
            MaxwellThreeDMethodDeclaration {
                name: "SAMPLE_LOCATIONS(3)",
                defined_mask: 0xffff_ffff,
                action: MaxwellThreeDMethodAction::Write(MaxwellThreeDWriteAction::SampleLocations(3)),
            },
        ),
        0x11f8 => Some(
            MaxwellThreeDMethodDeclaration {
                name: "SET_COVERAGE_TO_COLOR",
                defined_mask: 0x0000_0071,
                action: MaxwellThreeDMethodAction::Write(MaxwellThreeDWriteAction::CoverageToColor),
            },
        ),
        0x1224 => Some(
            MaxwellThreeDMethodDeclaration {
                name: "SET_PIXEL_SHADER_INTERLOCK_CONTROL",
                defined_mask: 0x0000_000f,
                action: MaxwellThreeDMethodAction::Write(MaxwellThreeDWriteAction::PixelShaderInterlockControl),
            },
        ),
        0x1288 => Some(
            MaxwellThreeDMethodDeclaration {
                name: "INVALIDATE_TEXTURE_DATA_CACHE_NO_WFI",
                defined_mask: 0x03ff_fff1,
                action: MaxwellThreeDMethodAction::Trigger(MaxwellThreeDTriggerAction::InvalidateTextureCacheNoWfi(MaxwellThreeDTextureCacheTarget::Data)),
            },
        ),
        0x1290 => Some(
            MaxwellThreeDMethodDeclaration {
                name: "SET_L2_CACHE_CONTROL_FOR_ROP_INTERLOCKED_READ_REQUESTS",
                defined_mask: 0x0000_0030,
                action: MaxwellThreeDMethodAction::Write(MaxwellThreeDWriteAction::RopL2CacheControl(MaxwellThreeDRopL2CacheRequest::InterlockedRead)),
            },
        ),
        0x12d8 => Some(
            MaxwellThreeDMethodDeclaration {
                name: "SET_L2_CACHE_CONTROL_FOR_ROP_NONINTERLOCKED_WRITE_REQUESTS",
                defined_mask: 0x0000_0030,
                action: MaxwellThreeDMethodAction::Write(MaxwellThreeDWriteAction::RopL2CacheControl(MaxwellThreeDRopL2CacheRequest::NoninterlockedWrite)),
            },
        ),
        0x12dc => Some(
            MaxwellThreeDMethodDeclaration {
                name: "SET_L2_CACHE_CONTROL_FOR_ROP_INTERLOCKED_WRITE_REQUESTS",
                defined_mask: 0x0000_0030,
                action: MaxwellThreeDMethodAction::Write(MaxwellThreeDWriteAction::RopL2CacheControl(MaxwellThreeDRopL2CacheRequest::InterlockedWrite)),
            },
        ),
        0x1330 => Some(
            MaxwellThreeDMethodDeclaration {
                name: "INVALIDATE_SAMPLER_CACHE",
                defined_mask: 0x03ff_fff1,
                action: MaxwellThreeDMethodAction::Trigger(MaxwellThreeDTriggerAction::InvalidateTextureCache(MaxwellThreeDTextureCacheTarget::Sampler)),
            },
        ),
        0x1334 => Some(
            MaxwellThreeDMethodDeclaration {
                name: "INVALIDATE_TEXTURE_HEADER_CACHE",
                defined_mask: 0x03ff_fff1,
                action: MaxwellThreeDMethodAction::Trigger(MaxwellThreeDTriggerAction::InvalidateTextureCache(MaxwellThreeDTextureCacheTarget::Header)),
            },
        ),
        0x1338 => Some(
            MaxwellThreeDMethodDeclaration {
                name: "INVALIDATE_TEXTURE_DATA_CACHE",
                defined_mask: 0x03ff_fff1,
                action: MaxwellThreeDMethodAction::Trigger(MaxwellThreeDTriggerAction::InvalidateTextureCache(MaxwellThreeDTextureCacheTarget::Data)),
            },
        ),
        0x1424 => Some(
            MaxwellThreeDMethodDeclaration {
                name: "INVALIDATE_SAMPLER_CACHE_NO_WFI",
                defined_mask: 0x03ff_fff1,
                action: MaxwellThreeDMethodAction::Trigger(MaxwellThreeDTriggerAction::InvalidateTextureCacheNoWfi(MaxwellThreeDTextureCacheTarget::Sampler)),
            },
        ),
        0x1428 => Some(
            MaxwellThreeDMethodDeclaration {
                name: "INVALIDATE_TEXTURE_HEADER_CACHE_NO_WFI",
                defined_mask: 0x03ff_fff1,
                action: MaxwellThreeDMethodAction::Trigger(MaxwellThreeDTriggerAction::InvalidateTextureCacheNoWfi(MaxwellThreeDTextureCacheTarget::Header)),
            },
        ),
        0x1450 => Some(
            MaxwellThreeDMethodDeclaration {
                name: "SET_PS_WARP_WATERMARKS",
                defined_mask: 0xffff_ffff,
                action: MaxwellThreeDMethodAction::Write(MaxwellThreeDWriteAction::ShaderWatermarks(MaxwellThreeDShaderWatermarkTarget::PixelWarps)),
            },
        ),
        0x1454 => Some(
            MaxwellThreeDMethodDeclaration {
                name: "SET_PS_REGISTER_WATERMARKS",
                defined_mask: 0xffff_ffff,
                action: MaxwellThreeDMethodAction::Write(MaxwellThreeDWriteAction::ShaderWatermarks(MaxwellThreeDShaderWatermarkTarget::PixelRegisters)),
            },
        ),
        0x1514 => Some(
            MaxwellThreeDMethodDeclaration {
                name: "SET_ZPASS_PIXEL_COUNT",
                defined_mask: 0x0000_0001,
                action: MaxwellThreeDMethodAction::Write(MaxwellThreeDWriteAction::ZPassPixelCountEnable),
            },
        ),
        0x1518 => Some(
            MaxwellThreeDMethodDeclaration {
                name: "SET_POINT_SIZE",
                defined_mask: 0xffff_ffff,
                action: MaxwellThreeDMethodAction::Write(MaxwellThreeDWriteAction::PointSize),
            },
        ),
        0x151c => Some(
            MaxwellThreeDMethodDeclaration {
                name: "SET_ZCULL_STATS",
                defined_mask: 0x0000_0001,
                action: MaxwellThreeDMethodAction::Write(MaxwellThreeDWriteAction::ZCullStatsEnable),
            },
        ),
        0x1528 => Some(
            MaxwellThreeDMethodDeclaration {
                name: "SET_SHADER_EXCEPTIONS",
                defined_mask: 0x0000_0001,
                action: MaxwellThreeDMethodAction::Write(MaxwellThreeDWriteAction::ShaderExceptionsEnable),
            },
        ),
        0x1558 => Some(
            MaxwellThreeDMethodDeclaration {
                name: "SET_RENDER_ENABLE_C",
                defined_mask: 0x0000_0007,
                action: MaxwellThreeDMethodAction::Write(MaxwellThreeDWriteAction::RenderEnableMode),
            },
        ),
        0x1590 => Some(
            MaxwellThreeDMethodDeclaration {
                name: "SET_ACTIVE_ZCULL_REGION",
                defined_mask: 0x0000_003f,
                action: MaxwellThreeDMethodAction::Write(MaxwellThreeDWriteAction::ActiveZCullRegion),
            },
        ),
        0x15b4 => Some(
            MaxwellThreeDMethodDeclaration {
                name: "CSAA_ENABLE",
                defined_mask: 0x0000_0001,
                action: MaxwellThreeDMethodAction::Write(MaxwellThreeDWriteAction::CsaaEnable),
            },
        ),
        0x15e4 => Some(
            MaxwellThreeDMethodDeclaration {
                name: "SET_EDGE_FLAG",
                defined_mask: 0x0000_0001,
                action: MaxwellThreeDMethodAction::Write(MaxwellThreeDWriteAction::EdgeFlag),
            },
        ),
        0x1604 => Some(
            MaxwellThreeDMethodDeclaration {
                name: "SET_POINT_SPRITE_SELECT",
                defined_mask: 0x0000_1fff,
                action: MaxwellThreeDMethodAction::Write(MaxwellThreeDWriteAction::PointSpriteSelect),
            },
        ),
        0x165c => Some(
            MaxwellThreeDMethodDeclaration {
                name: "SET_POINT_CENTER_MODE",
                defined_mask: 0x0000_0001,
                action: MaxwellThreeDMethodAction::Write(MaxwellThreeDWriteAction::PointCenterMode),
            },
        ),
        0x16a8 => Some(
            MaxwellThreeDMethodDeclaration {
                name: "CHECK_SPH_VERSION",
                defined_mask: 0xffff_ffff,
                action: MaxwellThreeDMethodAction::CheckSphVersion,
            },
        ),
        0x16b4 => Some(
            MaxwellThreeDMethodDeclaration {
                name: "SET_ALPHA_TO_COVERAGE_OVERRIDE",
                defined_mask: 0x0000_0003,
                action: MaxwellThreeDMethodAction::Write(MaxwellThreeDWriteAction::AlphaToCoverageOverride),
            },
        ),
        0x1794 => Some(
            MaxwellThreeDMethodDeclaration {
                name: "CHECK_AAM_VERSION",
                defined_mask: 0xffff_ffff,
                action: MaxwellThreeDMethodAction::CheckAamVersion,
            },
        ),
        0x1968 => Some(
            MaxwellThreeDMethodDeclaration {
                name: "SET_ZCULL",
                defined_mask: 0x0000_0011,
                action: MaxwellThreeDMethodAction::Write(MaxwellThreeDWriteAction::ZCullEnable),
            },
        ),
        0x196c => Some(
            MaxwellThreeDMethodDeclaration {
                name: "SET_ZCULL_BOUNDS",
                defined_mask: 0x0000_0011,
                action: MaxwellThreeDMethodAction::Write(MaxwellThreeDWriteAction::ZCullBounds),
            },
        ),
        0x1a2c => Some(
            MaxwellThreeDMethodDeclaration {
                name: "PIPE_NOP",
                defined_mask: 0xffff_ffff,
                action: MaxwellThreeDMethodAction::NoOperation,
            },
        ),
        0x1b00 => Some(
            MaxwellThreeDMethodDeclaration {
                name: "SET_REPORT_SEMAPHORE_A",
                defined_mask: 0x0000_00ff,
                action: MaxwellThreeDMethodAction::Write(MaxwellThreeDWriteAction::ReportSemaphoreAddressUpper),
            },
        ),
        0x1b04 => Some(
            MaxwellThreeDMethodDeclaration {
                name: "SET_REPORT_SEMAPHORE_B",
                defined_mask: 0xffff_ffff,
                action: MaxwellThreeDMethodAction::Write(MaxwellThreeDWriteAction::ReportSemaphoreAddressLower),
            },
        ),
        0x1b08 => Some(
            MaxwellThreeDMethodDeclaration {
                name: "SET_REPORT_SEMAPHORE_C",
                defined_mask: 0xffff_ffff,
                action: MaxwellThreeDMethodAction::Write(MaxwellThreeDWriteAction::ReportSemaphorePayload),
            },
        ),
        0x1b0c => Some(
            MaxwellThreeDMethodDeclaration {
                name: "SET_REPORT_SEMAPHORE_D",
                defined_mask: 0x1fb7_ffff,
                action: MaxwellThreeDMethodAction::Trigger(MaxwellThreeDTriggerAction::ReportSemaphoreTrigger),
            },
        ),
        0x2310 => Some(
            MaxwellThreeDMethodDeclaration {
                name: "SET_FALCON04",
                defined_mask: 0xffff_ffff,
                action: MaxwellThreeDMethodAction::FalconFirmwareCall4,
            },
        ),
        _ => None,
    }
}

} // verus!
