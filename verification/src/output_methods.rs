//! Decoding of the output methods: rasterization, targets, clears and fixed function.

use vstd::prelude::*;
use crate::decode::{accepted, refused, MethodDecode};
use crate::dispatch_error::{checked_bool, rectangle};
use crate::line::{MaxwellThreeDAntiAliasedLineEnable, MaxwellThreeDLineStateWrite, MaxwellThreeDLineStippleParameters, MaxwellThreeDPolygonClipGeneratedEdge};
use crate::output::{MaxwellThreeDBlendEnableCommon, MaxwellThreeDBlendFactor, MaxwellThreeDBlendFloatPixelKillEnable, MaxwellThreeDBlendOp, MaxwellThreeDBlendPerFormatEnable, MaxwellThreeDBlendZeroTimesAnythingIsZero, MaxwellThreeDClipIdTestEnable, MaxwellThreeDColorMask, MaxwellThreeDCompareOp, MaxwellThreeDCullFace, MaxwellThreeDFixedFunctionRegister, MaxwellThreeDFixedFunctionValue, MaxwellThreeDFixedFunctionWrite, MaxwellThreeDFrontFace, MaxwellThreeDLogicOp, MaxwellThreeDPixelShaderSaturate, MaxwellThreeDPolygonMode, MaxwellThreeDProvokingVertex, MaxwellThreeDSampleMode, MaxwellThreeDShadeMode, MaxwellThreeDStencilOp, MaxwellThreeDSurfaceClipAxis, MaxwellThreeDViewportClipControl, MaxwellThreeDViewportCoordinateSwizzle, MaxwellThreeDViewportScaleOffsetEnable, MaxwellThreeDWindowClipType};
use crate::profile::{MaxwellGpuProfile, MaxwellThreeDEncodedField};
use crate::raster::{MaxwellThreeDAttributePointSize, MaxwellThreeDConservativeRasterEnable, MaxwellThreeDFillViaTriangleMode, MaxwellThreeDRasterStateWrite, MaxwellThreeDViewportPixelCenter};
use crate::register::{MaxwellMethodSource, MaxwellThreeDRawValue};
use crate::render_targets::{MaxwellThreeDClearSurface, MaxwellThreeDClearSurfaceControl, MaxwellThreeDColorCompressionMode, MaxwellThreeDColorTargetFormat, MaxwellThreeDColorTargetMemory, MaxwellThreeDColorTargetSelection, MaxwellThreeDCompressionThreshold, MaxwellThreeDDepthStencilFormat, MaxwellThreeDDepthTargetCount, MaxwellThreeDDepthThirdDimension, MaxwellThreeDImageKind, MaxwellThreeDImageLayout, MaxwellThreeDRenderTargetIndexOffset, MaxwellThreeDRenderTargetLayer, MaxwellThreeDRenderTargetWrite, MaxwellThreeDSeparateFragmentData, MaxwellThreeDZCompressionMode};
use crate::state::MaxwellThreeDStateWrite;

verus! {

/// Line rasterization methods.
pub open spec fn spec_decode_line(source: MaxwellMethodSource) -> MethodDecode {
    let method = source.method().0;
    let raw = source.argument();
    if method == 0x0f8c {
        match MaxwellThreeDPolygonClipGeneratedEdge::parse(raw) {
            Some(value) => accepted(
                MaxwellThreeDStateWrite::Line(MaxwellThreeDLineStateWrite::PolygonClipGeneratedEdge { value, source }),
                "SET_LINE_MODE_POLYGON_CLIP",
            ),
            None => refused(source, "SET_LINE_MODE_POLYGON_CLIP", "expected generated-edge selector 0 or 1"),
        }
    } else if method == 0x13b4 {
        accepted(
            MaxwellThreeDStateWrite::Line(MaxwellThreeDLineStateWrite::AliasedLineWidth { value: MaxwellThreeDRawValue(raw), source }),
            "SET_ALIASED_LINE_WIDTH_FLOAT",
        )
    } else if method == 0x1570 {
        match MaxwellThreeDAntiAliasedLineEnable::parse(raw) {
            Some(value) => accepted(
                MaxwellThreeDStateWrite::Line(MaxwellThreeDLineStateWrite::AntiAliasedLineEnable { value, source }),
                "SET_ANTI_ALIASED_LINE",
            ),
            None => refused(source, "SET_ANTI_ALIASED_LINE", "expected boolean 0 or 1"),
        }
    } else if method == 0x166c {
        match checked_bool(source, "SET_LINE_STIPPLE") {
            Ok(value) => accepted(
                MaxwellThreeDStateWrite::Line(MaxwellThreeDLineStateWrite::StippleEnable { value, source }),
                "SET_LINE_STIPPLE",
            ),
            Err(error) => Err(error),
        }
    } else if method == 0x1680 {
        match MaxwellThreeDLineStippleParameters::parse(raw) {
            Some(value) => accepted(
                MaxwellThreeDStateWrite::Line(MaxwellThreeDLineStateWrite::StippleParameters { value, source }),
                "SET_LINE_STIPPLE_PARAMETERS",
            ),
            None => refused(source, "SET_LINE_STIPPLE_PARAMETERS", "reserved bits are set"),
        }
    } else {
        Ok(None)
    }
}

#[verifier::when_used_as_spec(spec_decode_line)]
pub fn decode_line(source: MaxwellMethodSource) -> (r: MethodDecode)
    ensures
        r == spec_decode_line(source),
        crate::decode::in_range(r),
{
    let method: u32 = source.method().0;
    let raw: u32 = source.argument();
    if method == 0x0f8c {
        match MaxwellThreeDPolygonClipGeneratedEdge::parse(raw) {
            Some(value) => accepted(
                MaxwellThreeDStateWrite::Line(MaxwellThreeDLineStateWrite::PolygonClipGeneratedEdge { value, source }),
                "SET_LINE_MODE_POLYGON_CLIP",
            ),
            None => refused(source, "SET_LINE_MODE_POLYGON_CLIP", "expected generated-edge selector 0 or 1"),
        }
    } else if method == 0x13b4 {
        accepted(
            MaxwellThreeDStateWrite::Line(MaxwellThreeDLineStateWrite::AliasedLineWidth { value: MaxwellThreeDRawValue(raw), source }),
            "SET_ALIASED_LINE_WIDTH_FLOAT",
        )
    } else if method == 0x1570 {
        match MaxwellThreeDAntiAliasedLineEnable::parse(raw) {
            Some(value) => accepted(
                MaxwellThreeDStateWrite::Line(MaxwellThreeDLineStateWrite::AntiAliasedLineEnable { value, source }),
                "SET_ANTI_ALIASED_LINE",
            ),
            None => refused(source, "SET_ANTI_ALIASED_LINE", "expected boolean 0 or 1"),
        }
    } else if method == 0x166c {
        match checked_bool(source, "SET_LINE_STIPPLE") {
            Ok(value) => accepted(
                MaxwellThreeDStateWrite::Line(MaxwellThreeDLineStateWrite::StippleEnable { value, source }),
                "SET_LINE_STIPPLE",
            ),
            Err(error) => Err(error),
        }
    } else if method == 0x1680 {
        match MaxwellThreeDLineStippleParameters::parse(raw) {
            Some(value) => accepted(
                MaxwellThreeDStateWrite::Line(MaxwellThreeDLineStateWrite::StippleParameters { value, source }),
                "SET_LINE_STIPPLE_PARAMETERS",
            ),
            None => refused(source, "SET_LINE_STIPPLE_PARAMETERS", "reserved bits are set"),
        }
    } else {
        Ok(None)
    }
}

/// Point, polygon and pixel-center methods.
pub open spec fn spec_decode_raster(profile: &MaxwellGpuProfile, source: MaxwellMethodSource) -> MethodDecode {
    let method = source.method().0;
    let raw = source.argument();
    if method == 0x113c {
        match MaxwellThreeDFillViaTriangleMode::parse(raw) {
            Some(value) => accepted(
                MaxwellThreeDStateWrite::Raster(MaxwellThreeDRasterStateWrite::FillViaTriangle { value, source }),
                "SET_FILL_VIA_TRIANGLE",
            ),
            None => refused(source, "SET_FILL_VIA_TRIANGLE", "expected mode 0, 1, or 2"),
        }
    } else if method == 0x1148 {
        match MaxwellThreeDConservativeRasterEnable::parse(raw) {
            Some(value) => accepted(
                MaxwellThreeDStateWrite::Raster(MaxwellThreeDRasterStateWrite::ConservativeRaster { value, source }),
                "SET_CONSERVATIVE_RASTER",
            ),
            None => refused(source, "SET_CONSERVATIVE_RASTER", "expected boolean 0 or 1"),
        }
    } else if method == 0x0db4 {
        match checked_bool(source, "SET_POLY_SMOOTH") {
            Ok(value) => accepted(
                MaxwellThreeDStateWrite::Raster(MaxwellThreeDRasterStateWrite::PolygonSmoothEnable { value, source }),
                "SET_POLY_SMOOTH",
            ),
            Err(error) => Err(error),
        }
    } else if method == 0x168c {
        match checked_bool(source, "SET_POLYGON_STIPPLE") {
            Ok(value) => accepted(
                MaxwellThreeDStateWrite::Raster(MaxwellThreeDRasterStateWrite::PolygonStippleEnable { value, source }),
                "SET_POLYGON_STIPPLE",
            ),
            Err(error) => Err(error),
        }
    } else if 0x1700 <= method && method <= 0x177c && method & 3 == 0 {
        accepted(
            MaxwellThreeDStateWrite::Raster(MaxwellThreeDRasterStateWrite::PolygonStipplePattern { word: ((method - 0x1700) / 4) as u8, value: raw, source }),
            "SET_POLYGON_STIPPLE_PATTERN",
        )
    } else if method == 0x1924 {
        match MaxwellThreeDViewportPixelCenter::parse(raw) {
            Some(value) => accepted(
                MaxwellThreeDStateWrite::Raster(MaxwellThreeDRasterStateWrite::ViewportPixelCenter { value, source }),
                "SET_VIEWPORT_PIXEL",
            ),
            None => refused(source, "SET_VIEWPORT_PIXEL", "expected center mode 0 or 1"),
        }
    } else if method == 0x1520 {
        match checked_bool(source, "SET_POINT_SPRITE") {
            Ok(value) => accepted(
                MaxwellThreeDStateWrite::Raster(MaxwellThreeDRasterStateWrite::PointSpriteEnable { value, source }),
                "SET_POINT_SPRITE",
            ),
            Err(error) => Err(error),
        }
    } else if method == 0x1658 {
        match checked_bool(source, "SET_ANTI_ALIASED_POINT") {
            Ok(value) => accepted(
                MaxwellThreeDStateWrite::Raster(MaxwellThreeDRasterStateWrite::AntiAliasedPointEnable { value, source }),
                "SET_ANTI_ALIASED_POINT",
            ),
            Err(error) => Err(error),
        }
    } else if method == 0x1910 {
        if profile.accepts(MaxwellThreeDEncodedField::AttributePointSize, raw) {
            accepted(
                MaxwellThreeDStateWrite::Raster(MaxwellThreeDRasterStateWrite::AttributePointSize { value: MaxwellThreeDAttributePointSize(raw), source }),
                "SET_ATTRIBUTE_POINT_SIZE",
            )
        } else {
            refused(source, "SET_ATTRIBUTE_POINT_SIZE", "reserved bits are set")
        }
    } else {
        Ok(None)
    }
}

#[verifier::when_used_as_spec(spec_decode_raster)]
pub fn decode_raster(profile: &MaxwellGpuProfile, source: MaxwellMethodSource) -> (r: MethodDecode)
    ensures
        r == spec_decode_raster(profile, source),
        crate::decode::in_range(r),
{
    let method: u32 = source.method().0;
    let raw: u32 = source.argument();
    if method == 0x113c {
        match MaxwellThreeDFillViaTriangleMode::parse(raw) {
            Some(value) => accepted(
                MaxwellThreeDStateWrite::Raster(MaxwellThreeDRasterStateWrite::FillViaTriangle { value, source }),
                "SET_FILL_VIA_TRIANGLE",
            ),
            None => refused(source, "SET_FILL_VIA_TRIANGLE", "expected mode 0, 1, or 2"),
        }
    } else if method == 0x1148 {
        match MaxwellThreeDConservativeRasterEnable::parse(raw) {
            Some(value) => accepted(
                MaxwellThreeDStateWrite::Raster(MaxwellThreeDRasterStateWrite::ConservativeRaster { value, source }),
                "SET_CONSERVATIVE_RASTER",
            ),
            None => refused(source, "SET_CONSERVATIVE_RASTER", "expected boolean 0 or 1"),
        }
    } else if method == 0x0db4 {
        match checked_bool(source, "SET_POLY_SMOOTH") {
            Ok(value) => accepted(
                MaxwellThreeDStateWrite::Raster(MaxwellThreeDRasterStateWrite::PolygonSmoothEnable { value, source }),
                "SET_POLY_SMOOTH",
            ),
            Err(error) => Err(error),
        }
    } else if method == 0x168c {
        match checked_bool(source, "SET_POLYGON_STIPPLE") {
            Ok(value) => accepted(
                MaxwellThreeDStateWrite::Raster(MaxwellThreeDRasterStateWrite::PolygonStippleEnable { value, source }),
                "SET_POLYGON_STIPPLE",
            ),
            Err(error) => Err(error),
        }
    } else if 0x1700 <= method && method <= 0x177c && method & 3 == 0 {
        accepted(
            MaxwellThreeDStateWrite::Raster(MaxwellThreeDRasterStateWrite::PolygonStipplePattern { word: ((method - 0x1700) / 4) as u8, value: raw, source }),
            "SET_POLYGON_STIPPLE_PATTERN",
        )
    } else if method == 0x1924 {
        match MaxwellThreeDViewportPixelCenter::parse(raw) {
            Some(value) => accepted(
                MaxwellThreeDStateWrite::Raster(MaxwellThreeDRasterStateWrite::ViewportPixelCenter { value, source }),
                "SET_VIEWPORT_PIXEL",
            ),
            None => refused(source, "SET_VIEWPORT_PIXEL", "expected center mode 0 or 1"),
        }
    } else if method == 0x1520 {
        match checked_bool(source, "SET_POINT_SPRITE") {
            Ok(value) => accepted(
                MaxwellThreeDStateWrite::Raster(MaxwellThreeDRasterStateWrite::PointSpriteEnable { value, source }),
                "SET_POINT_SPRITE",
            ),
            Err(error) => Err(error),
        }
    } else if method == 0x1658 {
        match checked_bool(source, "SET_ANTI_ALIASED_POINT") {
            Ok(value) => accepted(
                MaxwellThreeDStateWrite::Raster(MaxwellThreeDRasterStateWrite::AntiAliasedPointEnable { value, source }),
                "SET_ANTI_ALIASED_POINT",
            ),
            Err(error) => Err(error),
        }
    } else if method == 0x1910 {
        if profile.accepts(MaxwellThreeDEncodedField::AttributePointSize, raw) {
            accepted(
                MaxwellThreeDStateWrite::Raster(MaxwellThreeDRasterStateWrite::AttributePointSize { value: MaxwellThreeDAttributePointSize(raw), source }),
                "SET_ATTRIBUTE_POINT_SIZE",
            )
        } else {
            refused(source, "SET_ATTRIBUTE_POINT_SIZE", "reserved bits are set")
        }
    } else {
        Ok(None)
    }
}

/// Arrangement of a color target: undefined bits, a block wider than one GOB, a block
/// of more than 32 GOBs in a direction, and a pitch layout with blocks are refused.
pub open spec fn spec_color_target_memory(raw: u32) -> Result<
    MaxwellThreeDColorTargetMemory,
    (&'static str, &'static str),
> {
    let block_height = ((raw >> 4) & 0xf) as u8;
    let block_depth = ((raw >> 8) & 0xf) as u8;
    if raw & !0x0001_1fffu32 != 0 {
        Err(("SET_COLOR_TARGET", "reserved bits are set"))
    } else if raw & 0xf != 0 || block_height > 5 || block_depth > 5 {
        Err(("SET_COLOR_TARGET_MEMORY", "invalid public GOB block size"))
    } else if raw & 0x1000 != 0 && (block_height != 0 || block_depth != 0) {
        Err(
            (
                "SET_COLOR_TARGET_MEMORY",
                "pitch layout contradicts non-unit GOB dimensions",
            ),
        )
    } else {
        Ok(
            MaxwellThreeDColorTargetMemory {
                layout: if raw & 0x1000 != 0 {
                    MaxwellThreeDImageLayout::PitchLinear
                } else {
                    MaxwellThreeDImageLayout::BlockLinear {
                        block_height_log2: block_height,
                        block_depth_log2: block_depth,
                    }
                },
                kind: if raw & 0x1_0000 != 0 {
                    MaxwellThreeDImageKind::ThreeDimensional
                } else {
                    MaxwellThreeDImageKind::Array
                },
            },
        )
    }
}

#[verifier::when_used_as_spec(spec_color_target_memory)]
pub fn color_target_memory(raw: u32) -> (r: Result<
    MaxwellThreeDColorTargetMemory,
    (&'static str, &'static str),
>)
    ensures
        r == spec_color_target_memory(raw),
{
    if raw & !0x0001_1fffu32 != 0 {
        return Err(("SET_COLOR_TARGET", "reserved bits are set"));
    }
    let block_height: u8 = ((raw >> 4) & 0xf) as u8;
    let block_depth: u8 = ((raw >> 8) & 0xf) as u8;
    if raw & 0xf != 0 || block_height > 5 || block_depth > 5 {
        return Err(("SET_COLOR_TARGET_MEMORY", "invalid public GOB block size"));
    }
    let layout = if raw & 0x1000 != 0 {
        if block_height != 0 || block_depth != 0 {
            return Err(
                (
                    "SET_COLOR_TARGET_MEMORY",
                    "pitch layout contradicts non-unit GOB dimensions",
                ),
            );
        }
        MaxwellThreeDImageLayout::PitchLinear
    } else {
        MaxwellThreeDImageLayout::BlockLinear {
            block_height_log2: block_height,
            block_depth_log2: block_depth,
        }
    };
    let kind = if raw & 0x1_0000 != 0 {
        MaxwellThreeDImageKind::ThreeDimensional
    } else {
        MaxwellThreeDImageKind::Array
    };
    Ok(MaxwellThreeDColorTargetMemory { layout, kind })
}

/// Methods of the eight color targets.
pub open spec fn spec_decode_color_target(profile: &MaxwellGpuProfile, source: MaxwellMethodSource) -> MethodDecode {
    let method = source.method().0;
    let raw = source.argument();
    if 0x0800 <= method && method < 0x0a00 {
        if (method - 0x0800) % 0x40 == 0x00 {
            if raw <= 0xff {
                accepted(
                    MaxwellThreeDStateWrite::RenderTarget(MaxwellThreeDRenderTargetWrite::ColorAddressUpper { target: ((method - 0x0800) / 0x40) as u8, value: raw as u8, source }),
                    "SET_COLOR_TARGET_A",
                )
            } else {
                refused(source, "SET_COLOR_TARGET", "reserved bits are set")
            }
        } else if (method - 0x0800) % 0x40 == 0x04 {
            accepted(
                MaxwellThreeDStateWrite::RenderTarget(MaxwellThreeDRenderTargetWrite::ColorAddressLower { target: ((method - 0x0800) / 0x40) as u8, value: raw, source }),
                "SET_COLOR_TARGET_B",
            )
        } else if (method - 0x0800) % 0x40 == 0x08 {
            if raw <= 0x0fff_ffff {
                accepted(
                    MaxwellThreeDStateWrite::RenderTarget(MaxwellThreeDRenderTargetWrite::ColorWidth { target: ((method - 0x0800) / 0x40) as u8, value: raw, source }),
                    "SET_COLOR_TARGET_WIDTH",
                )
            } else {
                refused(source, "SET_COLOR_TARGET", "reserved bits are set")
            }
        } else if (method - 0x0800) % 0x40 == 0x0c {
            if raw <= 0x1ffff {
                accepted(
                    MaxwellThreeDStateWrite::RenderTarget(MaxwellThreeDRenderTargetWrite::ColorHeight { target: ((method - 0x0800) / 0x40) as u8, value: raw, source }),
                    "SET_COLOR_TARGET_HEIGHT",
                )
            } else {
                refused(source, "SET_COLOR_TARGET", "reserved bits are set")
            }
        } else if (method - 0x0800) % 0x40 == 0x10 {
            if profile.accepts(MaxwellThreeDEncodedField::ColorTargetFormat, raw) {
                accepted(
                    MaxwellThreeDStateWrite::RenderTarget(MaxwellThreeDRenderTargetWrite::ColorFormat { target: ((method - 0x0800) / 0x40) as u8, value: MaxwellThreeDColorTargetFormat(raw), source }),
                    "SET_COLOR_TARGET_FORMAT",
                )
            } else {
                refused(source, "SET_COLOR_TARGET_FORMAT", "unknown public color format")
            }
        } else if (method - 0x0800) % 0x40 == 0x14 {
            match color_target_memory(raw) {
                Ok(value) => accepted(
                    MaxwellThreeDStateWrite::RenderTarget(MaxwellThreeDRenderTargetWrite::ColorLayout { target: ((method - 0x0800) / 0x40) as u8, value, source }),
                    "SET_COLOR_TARGET_MEMORY",
                ),
                Err((name, reason)) => refused(source, name, reason),
            }
        } else if (method - 0x0800) % 0x40 == 0x18 {
            if raw <= 0x0fff_ffff {
                accepted(
                    MaxwellThreeDStateWrite::RenderTarget(MaxwellThreeDRenderTargetWrite::ColorThirdDimension { target: ((method - 0x0800) / 0x40) as u8, value: raw, source }),
                    "SET_COLOR_TARGET_THIRD_DIMENSION",
                )
            } else {
                refused(source, "SET_COLOR_TARGET", "reserved bits are set")
            }
        } else if (method - 0x0800) % 0x40 == 0x1c {
            accepted(
                MaxwellThreeDStateWrite::RenderTarget(MaxwellThreeDRenderTargetWrite::ColorArrayPitch { target: ((method - 0x0800) / 0x40) as u8, value: raw, source }),
                "SET_COLOR_TARGET_ARRAY_PITCH",
            )
        } else if (method - 0x0800) % 0x40 == 0x20 {
            if raw <= 0xffff {
                accepted(
                    MaxwellThreeDStateWrite::RenderTarget(MaxwellThreeDRenderTargetWrite::ColorLayer { target: ((method - 0x0800) / 0x40) as u8, value: raw as u16, source }),
                    "SET_COLOR_TARGET_LAYER",
                )
            } else {
                refused(source, "SET_COLOR_TARGET", "reserved bits are set")
            }
        } else {
            Ok(None)
        }
    } else {
        Ok(None)
    }
}

#[verifier::when_used_as_spec(spec_decode_color_target)]
pub fn decode_color_target(profile: &MaxwellGpuProfile, source: MaxwellMethodSource) -> (r: MethodDecode)
    ensures
        r == spec_decode_color_target(profile, source),
        crate::decode::in_range(r),
{
    let method: u32 = source.method().0;
    let raw: u32 = source.argument();
    if 0x0800 <= method && method < 0x0a00 {
        if (method - 0x0800) % 0x40 == 0x00 {
            if raw <= 0xff {
                accepted(
                    MaxwellThreeDStateWrite::RenderTarget(MaxwellThreeDRenderTargetWrite::ColorAddressUpper { target: ((method - 0x0800) / 0x40) as u8, value: raw as u8, source }),
                    "SET_COLOR_TARGET_A",
                )
            } else {
                refused(source, "SET_COLOR_TARGET", "reserved bits are set")
            }
        } else if (method - 0x0800) % 0x40 == 0x04 {
            accepted(
                MaxwellThreeDStateWrite::RenderTarget(MaxwellThreeDRenderTargetWrite::ColorAddressLower { target: ((method - 0x0800) / 0x40) as u8, value: raw, source }),
                "SET_COLOR_TARGET_B",
            )
        } else if (method - 0x0800) % 0x40 == 0x08 {
            if raw <= 0x0fff_ffff {
                accepted(
                    MaxwellThreeDStateWrite::RenderTarget(MaxwellThreeDRenderTargetWrite::ColorWidth { target: ((method - 0x0800) / 0x40) as u8, value: raw, source }),
                    "SET_COLOR_TARGET_WIDTH",
                )
            } else {
                refused(source, "SET_COLOR_TARGET", "reserved bits are set")
            }
        } else if (method - 0x0800) % 0x40 == 0x0c {
            if raw <= 0x1ffff {
                accepted(
                    MaxwellThreeDStateWrite::RenderTarget(MaxwellThreeDRenderTargetWrite::ColorHeight { target: ((method - 0x0800) / 0x40) as u8, value: raw, source }),
                    "SET_COLOR_TARGET_HEIGHT",
                )
            } else {
                refused(source, "SET_COLOR_TARGET", "reserved bits are set")
            }
        } else if (method - 0x0800) % 0x40 == 0x10 {
            if profile.accepts(MaxwellThreeDEncodedField::ColorTargetFormat, raw) {
                accepted(
                    MaxwellThreeDStateWrite::RenderTarget(MaxwellThreeDRenderTargetWrite::ColorFormat { target: ((method - 0x0800) / 0x40) as u8, value: MaxwellThreeDColorTargetFormat(raw), source }),
                    "SET_COLOR_TARGET_FORMAT",
                )
            } else {
                refused(source, "SET_COLOR_TARGET_FORMAT", "unknown public color format")
            }
        } else if (method - 0x0800) % 0x40 == 0x14 {
            match color_target_memory(raw) {
                Ok(value) => accepted(
                    MaxwellThreeDStateWrite::RenderTarget(MaxwellThreeDRenderTargetWrite::ColorLayout { target: ((method - 0x0800) / 0x40) as u8, value, source }),
                    "SET_COLOR_TARGET_MEMORY",
                ),
                Err((name, reason)) => refused(source, name, reason),
            }
        } else if (method - 0x0800) % 0x40 == 0x18 {
            if raw <= 0x0fff_ffff {
                accepted(
                    MaxwellThreeDStateWrite::RenderTarget(MaxwellThreeDRenderTargetWrite::ColorThirdDimension { target: ((method - 0x0800) / 0x40) as u8, value: raw, source }),
                    "SET_COLOR_TARGET_THIRD_DIMENSION",
                )
            } else {
                refused(source, "SET_COLOR_TARGET", "reserved bits are set")
            }
        } else if (method - 0x0800) % 0x40 == 0x1c {
            accepted(
                MaxwellThreeDStateWrite::RenderTarget(MaxwellThreeDRenderTargetWrite::ColorArrayPitch { target: ((method - 0x0800) / 0x40) as u8, value: raw, source }),
                "SET_COLOR_TARGET_ARRAY_PITCH",
            )
        } else if (method - 0x0800) % 0x40 == 0x20 {
            if raw <= 0xffff {
                accepted(
                    MaxwellThreeDStateWrite::RenderTarget(MaxwellThreeDRenderTargetWrite::ColorLayer { target: ((method - 0x0800) / 0x40) as u8, value: raw as u16, source }),
                    "SET_COLOR_TARGET_LAYER",
                )
            } else {
                refused(source, "SET_COLOR_TARGET", "reserved bits are set")
            }
        } else {
            Ok(None)
        }
    } else {
        Ok(None)
    }
}

/// Methods of the depth/stencil target, target selection and surface clears.
pub open spec fn spec_decode_render_target(profile: &MaxwellGpuProfile, source: MaxwellMethodSource) -> MethodDecode {
    let method = source.method().0;
    let raw = source.argument();
    if method == 0x0d6c {
        match rectangle(raw) {
            Some(value) => accepted(
                MaxwellThreeDStateWrite::RenderTarget(MaxwellThreeDRenderTargetWrite::ClearHorizontal { value, source }),
                "SET_CLEAR_RECT_HORIZONTAL",
            ),
            None => refused(source, "SET_CLEAR_RECT_HORIZONTAL", "rectangle minimum exceeds maximum"),
        }
    } else if method == 0x0d70 {
        match rectangle(raw) {
            Some(value) => accepted(
                MaxwellThreeDStateWrite::RenderTarget(MaxwellThreeDRenderTargetWrite::ClearVertical { value, source }),
                "SET_CLEAR_RECT_VERTICAL",
            ),
            None => refused(source, "SET_CLEAR_RECT_VERTICAL", "rectangle minimum exceeds maximum"),
        }
    } else if 0x0d80 <= method && method <= 0x0d8c && method & 3 == 0 {
        accepted(
            MaxwellThreeDStateWrite::RenderTarget(MaxwellThreeDRenderTargetWrite::ClearColor { component: ((method - 0x0d80) / 4) as u8, value: MaxwellThreeDRawValue(raw), source }),
            "SET_COLOR_CLEAR_VALUE",
        )
    } else if method == 0x0d90 {
        accepted(
            MaxwellThreeDStateWrite::RenderTarget(MaxwellThreeDRenderTargetWrite::ClearDepth { value: MaxwellThreeDRawValue(raw), source }),
            "SET_Z_CLEAR_VALUE",
        )
    } else if method == 0x0da0 {
        if raw <= 0xff {
            accepted(
                MaxwellThreeDStateWrite::RenderTarget(MaxwellThreeDRenderTargetWrite::ClearStencil { value: raw as u8, source }),
                "SET_STENCIL_CLEAR_VALUE",
            )
        } else {
            refused(source, "SET_STENCIL_CLEAR_VALUE", "reserved bits are set")
        }
    } else if method == 0x0fac {
        match MaxwellThreeDSeparateFragmentData::parse(raw) {
            Some(value) => accepted(
                MaxwellThreeDStateWrite::RenderTarget(MaxwellThreeDRenderTargetWrite::SeparateFragmentData { value, source }),
                "SET_CT_MRT_ENABLE",
            ),
            None => refused(source, "SET_CT_MRT_ENABLE", "undefined boolean encoding or reserved bits"),
        }
    } else if method == 0x11f0 {
        match MaxwellThreeDRenderTargetIndexOffset::parse(raw) {
            Some(value) => accepted(
                MaxwellThreeDStateWrite::RenderTarget(MaxwellThreeDRenderTargetWrite::RenderTargetIndexOffset { value, source }),
                "SET_OFFSET_RENDER_TARGET_INDEX",
            ),
            None => refused(source, "SET_OFFSET_RENDER_TARGET_INDEX", "undefined boolean encoding or reserved bits"),
        }
    } else if method == 0x0fe0 {
        if raw <= 0xff {
            accepted(
                MaxwellThreeDStateWrite::RenderTarget(MaxwellThreeDRenderTargetWrite::DepthAddressUpper { value: raw as u8, source }),
                "SET_ZT_A",
            )
        } else {
            refused(source, "SET_ZT_A", "reserved address bits are set")
        }
    } else if method == 0x0fe4 {
        accepted(
            MaxwellThreeDStateWrite::RenderTarget(MaxwellThreeDRenderTargetWrite::DepthAddressLower { value: raw, source }),
            "SET_ZT_B",
        )
    } else if method == 0x0fe8 {
        if profile.accepts(MaxwellThreeDEncodedField::DepthStencilFormat, raw) {
            accepted(
                MaxwellThreeDStateWrite::RenderTarget(MaxwellThreeDRenderTargetWrite::DepthFormat { value: MaxwellThreeDDepthStencilFormat(raw), source }),
                "SET_ZT_FORMAT",
            )
        } else {
            refused(source, "SET_ZT_FORMAT", "unknown public depth/stencil format")
        }
    } else if method == 0x0fec {
        if raw & !0x0fffu32 == 0 && raw & 0xf == 0 && (raw >> 4) & 0xf <= 5 && (raw >> 8) & 0xf == 0 {
            accepted(
                MaxwellThreeDStateWrite::RenderTarget(MaxwellThreeDRenderTargetWrite::DepthLayout { value: MaxwellThreeDImageLayout::BlockLinear { block_height_log2: ((raw >> 4) & 0xf) as u8, block_depth_log2: 0 }, source }),
                "SET_ZT_BLOCK_SIZE",
            )
        } else {
            refused(source, "SET_ZT_BLOCK_SIZE", "invalid public GOB block size")
        }
    } else if method == 0x0ff0 {
        accepted(
            MaxwellThreeDStateWrite::RenderTarget(MaxwellThreeDRenderTargetWrite::DepthArrayPitch { value: raw, source }),
            "SET_ZT_ARRAY_PITCH",
        )
    } else if method == 0x179c {
        if raw <= 0xffff {
            accepted(
                MaxwellThreeDStateWrite::RenderTarget(MaxwellThreeDRenderTargetWrite::DepthLayer { value: raw as u16, source }),
                "SET_ZT_LAYER",
            )
        } else {
            refused(source, "SET_ZT_LAYER", "reserved bits are set")
        }
    } else if method == 0x1228 {
        if raw <= 0x0fff_ffff {
            accepted(
                MaxwellThreeDStateWrite::RenderTarget(MaxwellThreeDRenderTargetWrite::DepthWidth { value: raw, source }),
                "SET_ZT_SIZE_A",
            )
        } else {
            refused(source, "SET_ZT_SIZE", "reserved dimension bits are set")
        }
    } else if method == 0x121c {
        if raw & 0xf <= 8 && profile.accepts(MaxwellThreeDEncodedField::ColorTargetSelection, raw) {
            accepted(
                MaxwellThreeDStateWrite::RenderTarget(MaxwellThreeDRenderTargetWrite::ColorTargetSelection { value: MaxwellThreeDColorTargetSelection(raw), source }),
                "SET_CT_SELECT",
            )
        } else {
            refused(source, "SET_CT_SELECT", "reserved bits are set or target count exceeds exposed selectors")
        }
    } else if method == 0x1220 {
        if profile.accepts(MaxwellThreeDEncodedField::CompressionThreshold, raw) {
            accepted(
                MaxwellThreeDStateWrite::RenderTarget(MaxwellThreeDRenderTargetWrite::CompressionThreshold { value: MaxwellThreeDCompressionThreshold(raw), source }),
                "SET_COMPRESSION_THRESHOLD",
            )
        } else {
            refused(source, "SET_COMPRESSION_THRESHOLD", "sample threshold is undefined or reserved bits are set")
        }
    } else if method == 0x15cc {
        if raw & !0x0001_ffffu32 == 0 {
            accepted(
                MaxwellThreeDStateWrite::RenderTarget(MaxwellThreeDRenderTargetWrite::RenderTargetLayer { value: MaxwellThreeDRenderTargetLayer(raw), source }),
                "SET_RT_LAYER",
            )
        } else {
            refused(source, "SET_RT_LAYER", "reserved bits are set")
        }
    } else if method == 0x1538 {
        match MaxwellThreeDDepthTargetCount::parse(raw) {
            Some(value) => accepted(
                MaxwellThreeDStateWrite::RenderTarget(MaxwellThreeDRenderTargetWrite::DepthTargetCount { value, source }),
                "SET_ZT_SELECT",
            ),
            None => refused(source, "SET_ZT_SELECT", "target count exceeds the single exposed depth/stencil target"),
        }
    } else if method == 0x122c {
        if raw <= 0x1ffff {
            accepted(
                MaxwellThreeDStateWrite::RenderTarget(MaxwellThreeDRenderTargetWrite::DepthHeight { value: raw, source }),
                "SET_ZT_SIZE_B",
            )
        } else {
            refused(source, "SET_ZT_SIZE", "reserved dimension bits are set")
        }
    } else if method == 0x19cc {
        match MaxwellThreeDZCompressionMode::parse(raw) {
            Some(value) => accepted(
                MaxwellThreeDStateWrite::RenderTarget(MaxwellThreeDRenderTargetWrite::DepthCompression { value, source }),
                "SET_Z_COMPRESSION",
            ),
            None => refused(source, "SET_Z_COMPRESSION", "reserved bits are set"),
        }
    } else if 0x19e0 <= method && method <= 0x19fc && method & 3 == 0 {
        match MaxwellThreeDColorCompressionMode::parse(raw) {
            Some(value) => accepted(
                MaxwellThreeDStateWrite::RenderTarget(MaxwellThreeDRenderTargetWrite::ColorCompression { target: ((method - 0x19e0) / 4) as u8, value, source }),
                "SET_COLOR_COMPRESSION",
            ),
            None => refused(source, "SET_COLOR_COMPRESSION", "reserved bits are set"),
        }
    } else if method == 0x1230 {
        if raw & !0x1ffffu32 == 0 {
            accepted(
                MaxwellThreeDStateWrite::RenderTarget(MaxwellThreeDRenderTargetWrite::DepthThirdDimension { value: MaxwellThreeDDepthThirdDimension { size: raw as u16, kind: if raw & 0x1_0000 != 0 { MaxwellThreeDImageKind::Array } else { MaxwellThreeDImageKind::ThreeDimensional } }, source }),
                "SET_ZT_SIZE_C",
            )
        } else {
            refused(source, "SET_ZT_SIZE", "reserved dimension bits are set")
        }
    } else if method == 0x10f8 {
        if profile.accepts(MaxwellThreeDEncodedField::ClearSurfaceControl, raw) {
            accepted(
                MaxwellThreeDStateWrite::RenderTarget(MaxwellThreeDRenderTargetWrite::ClearSurfaceControl { value: MaxwellThreeDClearSurfaceControl(raw), source }),
                "SET_CLEAR_SURFACE_CONTROL",
            )
        } else {
            refused(source, "SET_CLEAR_SURFACE_CONTROL", "reserved control bits are set")
        }
    } else if method == 0x19d0 {
        if (raw >> 6) & 0xf < 8 && profile.accepts(MaxwellThreeDEncodedField::ClearSurface, raw) {
            accepted(
                MaxwellThreeDStateWrite::RenderTarget(MaxwellThreeDRenderTargetWrite::ClearSurface { value: MaxwellThreeDClearSurface(raw), source }),
                "CLEAR_SURFACE",
            )
        } else {
            refused(source, "CLEAR_SURFACE", "invalid target, layer, or reserved bits")
        }
    } else {
        Ok(None)
    }
}

#[verifier::when_used_as_spec(spec_decode_render_target)]
pub fn decode_render_target(profile: &MaxwellGpuProfile, source: MaxwellMethodSource) -> (r: MethodDecode)
    ensures
        r == spec_decode_render_target(profile, source),
        crate::decode::in_range(r),
{
    let method: u32 = source.method().0;
    let raw: u32 = source.argument();
    if method == 0x0d6c {
        match rectangle(raw) {
            Some(value) => accepted(
                MaxwellThreeDStateWrite::RenderTarget(MaxwellThreeDRenderTargetWrite::ClearHorizontal { value, source }),
                "SET_CLEAR_RECT_HORIZONTAL",
            ),
            None => refused(source, "SET_CLEAR_RECT_HORIZONTAL", "rectangle minimum exceeds maximum"),
        }
    } else if method == 0x0d70 {
        match rectangle(raw) {
            Some(value) => accepted(
                MaxwellThreeDStateWrite::RenderTarget(MaxwellThreeDRenderTargetWrite::ClearVertical { value, source }),
                "SET_CLEAR_RECT_VERTICAL",
            ),
            None => refused(source, "SET_CLEAR_RECT_VERTICAL", "rectangle minimum exceeds maximum"),
        }
    } else if 0x0d80 <= method && method <= 0x0d8c && method & 3 == 0 {
        accepted(
            MaxwellThreeDStateWrite::RenderTarget(MaxwellThreeDRenderTargetWrite::ClearColor { component: ((method - 0x0d80) / 4) as u8, value: MaxwellThreeDRawValue(raw), source }),
            "SET_COLOR_CLEAR_VALUE",
        )
    } else if method == 0x0d90 {
        accepted(
            MaxwellThreeDStateWrite::RenderTarget(MaxwellThreeDRenderTargetWrite::ClearDepth { value: MaxwellThreeDRawValue(raw), source }),
            "SET_Z_CLEAR_VALUE",
        )
    } else if method == 0x0da0 {
        if raw <= 0xff {
            accepted(
                MaxwellThreeDStateWrite::RenderTarget(MaxwellThreeDRenderTargetWrite::ClearStencil { value: raw as u8, source }),
                "SET_STENCIL_CLEAR_VALUE",
            )
        } else {
            refused(source, "SET_STENCIL_CLEAR_VALUE", "reserved bits are set")
        }
    } else if method == 0x0fac {
        match MaxwellThreeDSeparateFragmentData::parse(raw) {
            Some(value) => accepted(
                MaxwellThreeDStateWrite::RenderTarget(MaxwellThreeDRenderTargetWrite::SeparateFragmentData { value, source }),
                "SET_CT_MRT_ENABLE",
            ),
            None => refused(source, "SET_CT_MRT_ENABLE", "undefined boolean encoding or reserved bits"),
        }
    } else if method == 0x11f0 {
        match MaxwellThreeDRenderTargetIndexOffset::parse(raw) {
            Some(value) => accepted(
                MaxwellThreeDStateWrite::RenderTarget(MaxwellThreeDRenderTargetWrite::RenderTargetIndexOffset { value, source }),
                "SET_OFFSET_RENDER_TARGET_INDEX",
            ),
            None => refused(source, "SET_OFFSET_RENDER_TARGET_INDEX", "undefined boolean encoding or reserved bits"),
        }
    } else if method == 0x0fe0 {
        if raw <= 0xff {
            accepted(
                MaxwellThreeDStateWrite::RenderTarget(MaxwellThreeDRenderTargetWrite::DepthAddressUpper { value: raw as u8, source }),
                "SET_ZT_A",
            )
        } else {
            refused(source, "SET_ZT_A", "reserved address bits are set")
        }
    } else if method == 0x0fe4 {
        accepted(
            MaxwellThreeDStateWrite::RenderTarget(MaxwellThreeDRenderTargetWrite::DepthAddressLower { value: raw, source }),
            "SET_ZT_B",
        )
    } else if method == 0x0fe8 {
        if profile.accepts(MaxwellThreeDEncodedField::DepthStencilFormat, raw) {
            accepted(
                MaxwellThreeDStateWrite::RenderTarget(MaxwellThreeDRenderTargetWrite::DepthFormat { value: MaxwellThreeDDepthStencilFormat(raw), source }),
                "SET_ZT_FORMAT",
            )
        } else {
            refused(source, "SET_ZT_FORMAT", "unknown public depth/stencil format")
        }
    } else if method == 0x0fec {
        if raw & !0x0fffu32 == 0 && raw & 0xf == 0 && (raw >> 4) & 0xf <= 5 && (raw >> 8) & 0xf == 0 {
            accepted(
                MaxwellThreeDStateWrite::RenderTarget(MaxwellThreeDRenderTargetWrite::DepthLayout { value: MaxwellThreeDImageLayout::BlockLinear { block_height_log2: ((raw >> 4) & 0xf) as u8, block_depth_log2: 0 }, source }),
                "SET_ZT_BLOCK_SIZE",
            )
        } else {
            refused(source, "SET_ZT_BLOCK_SIZE", "invalid public GOB block size")
        }
    } else if method == 0x0ff0 {
        accepted(
            MaxwellThreeDStateWrite::RenderTarget(MaxwellThreeDRenderTargetWrite::DepthArrayPitch { value: raw, source }),
            "SET_ZT_ARRAY_PITCH",
        )
    } else if method == 0x179c {
        if raw <= 0xffff {
            accepted(
                MaxwellThreeDStateWrite::RenderTarget(MaxwellThreeDRenderTargetWrite::DepthLayer { value: raw as u16, source }),
                "SET_ZT_LAYER",
            )
        } else {
            refused(source, "SET_ZT_LAYER", "reserved bits are set")
        }
    } else if method == 0x1228 {
        if raw <= 0x0fff_ffff {
            accepted(
                MaxwellThreeDStateWrite::RenderTarget(MaxwellThreeDRenderTargetWrite::DepthWidth { value: raw, source }),
                "SET_ZT_SIZE_A",
            )
        } else {
            refused(source, "SET_ZT_SIZE", "reserved dimension bits are set")
        }
    } else if method == 0x121c {
        if raw & 0xf <= 8 && profile.accepts(MaxwellThreeDEncodedField::ColorTargetSelection, raw) {
            accepted(
                MaxwellThreeDStateWrite::RenderTarget(MaxwellThreeDRenderTargetWrite::ColorTargetSelection { value: MaxwellThreeDColorTargetSelection(raw), source }),
                "SET_CT_SELECT",
            )
        } else {
            refused(source, "SET_CT_SELECT", "reserved bits are set or target count exceeds exposed selectors")
        }
    } else if method == 0x1220 {
        if profile.accepts(MaxwellThreeDEncodedField::CompressionThreshold, raw) {
            accepted(
                MaxwellThreeDStateWrite::RenderTarget(MaxwellThreeDRenderTargetWrite::CompressionThreshold { value: MaxwellThreeDCompressionThreshold(raw), source }),
                "SET_COMPRESSION_THRESHOLD",
            )
        } else {
            refused(source, "SET_COMPRESSION_THRESHOLD", "sample threshold is undefined or reserved bits are set")
        }
    } else if method == 0x15cc {
        if raw & !0x0001_ffffu32 == 0 {
            accepted(
                MaxwellThreeDStateWrite::RenderTarget(MaxwellThreeDRenderTargetWrite::RenderTargetLayer { value: MaxwellThreeDRenderTargetLayer(raw), source }),
                "SET_RT_LAYER",
            )
        } else {
            refused(source, "SET_RT_LAYER", "reserved bits are set")
        }
    } else if method == 0x1538 {
        match MaxwellThreeDDepthTargetCount::parse(raw) {
            Some(value) => accepted(
                MaxwellThreeDStateWrite::RenderTarget(MaxwellThreeDRenderTargetWrite::DepthTargetCount { value, source }),
                "SET_ZT_SELECT",
            ),
            None => refused(source, "SET_ZT_SELECT", "target count exceeds the single exposed depth/stencil target"),
        }
    } else if method == 0x122c {
        if raw <= 0x1ffff {
            accepted(
                MaxwellThreeDStateWrite::RenderTarget(MaxwellThreeDRenderTargetWrite::DepthHeight { value: raw, source }),
                "SET_ZT_SIZE_B",
            )
        } else {
            refused(source, "SET_ZT_SIZE", "reserved dimension bits are set")
        }
    } else if method == 0x19cc {
        match MaxwellThreeDZCompressionMode::parse(raw) {
            Some(value) => accepted(
                MaxwellThreeDStateWrite::RenderTarget(MaxwellThreeDRenderTargetWrite::DepthCompression { value, source }),
                "SET_Z_COMPRESSION",
            ),
            None => refused(source, "SET_Z_COMPRESSION", "reserved bits are set"),
        }
    } else if 0x19e0 <= method && method <= 0x19fc && method & 3 == 0 {
        match MaxwellThreeDColorCompressionMode::parse(raw) {
            Some(value) => accepted(
                MaxwellThreeDStateWrite::RenderTarget(MaxwellThreeDRenderTargetWrite::ColorCompression { target: ((method - 0x19e0) / 4) as u8, value, source }),
                "SET_COLOR_COMPRESSION",
            ),
            None => refused(source, "SET_COLOR_COMPRESSION", "reserved bits are set"),
        }
    } else if method == 0x1230 {
        if raw & !0x1ffffu32 == 0 {
            accepted(
                MaxwellThreeDStateWrite::RenderTarget(MaxwellThreeDRenderTargetWrite::DepthThirdDimension { value: MaxwellThreeDDepthThirdDimension { size: raw as u16, kind: if raw & 0x1_0000 != 0 { MaxwellThreeDImageKind::Array } else { MaxwellThreeDImageKind::ThreeDimensional } }, source }),
                "SET_ZT_SIZE_C",
            )
        } else {
            refused(source, "SET_ZT_SIZE", "reserved dimension bits are set")
        }
    } else if method == 0x10f8 {
        if profile.accepts(MaxwellThreeDEncodedField::ClearSurfaceControl, raw) {
            accepted(
                MaxwellThreeDStateWrite::RenderTarget(MaxwellThreeDRenderTargetWrite::ClearSurfaceControl { value: MaxwellThreeDClearSurfaceControl(raw), source }),
                "SET_CLEAR_SURFACE_CONTROL",
            )
        } else {
            refused(source, "SET_CLEAR_SURFACE_CONTROL", "reserved control bits are set")
        }
    } else if method == 0x19d0 {
        if (raw >> 6) & 0xf < 8 && profile.accepts(MaxwellThreeDEncodedField::ClearSurface, raw) {
            accepted(
                MaxwellThreeDStateWrite::RenderTarget(MaxwellThreeDRenderTargetWrite::ClearSurface { value: MaxwellThreeDClearSurface(raw), source }),
                "CLEAR_SURFACE",
            )
        } else {
            refused(source, "CLEAR_SURFACE", "invalid target, layer, or reserved bits")
        }
    } else {
        Ok(None)
    }
}

/// Methods of the surface clip, viewports, window clips and scissors.
pub open spec fn spec_decode_viewport(source: MaxwellMethodSource) -> MethodDecode {
    let method = source.method().0;
    let raw = source.argument();
    if method == 0x0ff4 {
        accepted(
            MaxwellThreeDStateWrite::FixedFunction(MaxwellThreeDFixedFunctionWrite::SurfaceClip { vertical: false, value: MaxwellThreeDSurfaceClipAxis::parse(raw), source }),
            "SET_SURFACE_CLIP_HORIZONTAL",
        )
    } else if method == 0x0ff8 {
        accepted(
            MaxwellThreeDStateWrite::FixedFunction(MaxwellThreeDFixedFunctionWrite::SurfaceClip { vertical: true, value: MaxwellThreeDSurfaceClipAxis::parse(raw), source }),
            "SET_SURFACE_CLIP_VERTICAL",
        )
    } else if 0x0a00 <= method && method < 0x0c00 {
        if ((method - 0x0a00) % 0x20) / 4 <= 5 {
            accepted(
                MaxwellThreeDStateWrite::FixedFunction(MaxwellThreeDFixedFunctionWrite::ViewportFloat { viewport: ((method - 0x0a00) / 0x20) as u8, field: (((method - 0x0a00) % 0x20) / 4) as u8, value: MaxwellThreeDRawValue(raw), source }),
                "SET_VIEWPORT_SCALE_OR_OFFSET",
            )
        } else if ((method - 0x0a00) % 0x20) / 4 == 6 {
            match MaxwellThreeDViewportCoordinateSwizzle::parse(raw) {
                Some(value) => accepted(
                    MaxwellThreeDStateWrite::FixedFunction(MaxwellThreeDFixedFunctionWrite::ViewportCoordinateSwizzle { viewport: ((method - 0x0a00) / 0x20) as u8, value, source }),
                    "SET_VIEWPORT_COORDINATE_SWIZZLE",
                ),
                None => refused(source, "SET_VIEWPORT_COORDINATE_SWIZZLE", "reserved bits are set"),
            }
        } else {
            Ok(None)
        }
    } else if 0x0c00 <= method && method < 0x0d00 {
        if (method - 0x0c00) % 0x10 == 0 {
            match rectangle(raw) {
                Some(value) => accepted(
                    MaxwellThreeDStateWrite::FixedFunction(MaxwellThreeDFixedFunctionWrite::ViewportRectangle { viewport: ((method - 0x0c00) / 0x10) as u8, vertical: false, value, source }),
                    "SET_VIEWPORT_CLIP",
                ),
                None => refused(source, "SET_VIEWPORT_CLIP", "rectangle minimum exceeds maximum"),
            }
        } else if (method - 0x0c00) % 0x10 == 4 {
            match rectangle(raw) {
                Some(value) => accepted(
                    MaxwellThreeDStateWrite::FixedFunction(MaxwellThreeDFixedFunctionWrite::ViewportRectangle { viewport: ((method - 0x0c00) / 0x10) as u8, vertical: true, value, source }),
                    "SET_VIEWPORT_CLIP",
                ),
                None => refused(source, "SET_VIEWPORT_CLIP", "rectangle minimum exceeds maximum"),
            }
        } else if (method - 0x0c00) % 0x10 == 8 {
            accepted(
                MaxwellThreeDStateWrite::FixedFunction(MaxwellThreeDFixedFunctionWrite::ViewportDepth { viewport: ((method - 0x0c00) / 0x10) as u8, maximum: false, value: MaxwellThreeDRawValue(raw), source }),
                "SET_VIEWPORT_CLIP",
            )
        } else if (method - 0x0c00) % 0x10 == 12 {
            accepted(
                MaxwellThreeDStateWrite::FixedFunction(MaxwellThreeDFixedFunctionWrite::ViewportDepth { viewport: ((method - 0x0c00) / 0x10) as u8, maximum: true, value: MaxwellThreeDRawValue(raw), source }),
                "SET_VIEWPORT_CLIP",
            )
        } else {
            Ok(None)
        }
    } else if 0x0d00 <= method && method < 0x0d40 {
        if (method - 0x0d00) % 8 == 4 {
            match rectangle(raw) {
                Some(value) => accepted(
                    MaxwellThreeDStateWrite::FixedFunction(MaxwellThreeDFixedFunctionWrite::WindowClipRectangle { region: ((method - 0x0d00) / 8) as u8, vertical: true, value, source }),
                    "SET_WINDOW_CLIP_VERTICAL",
                ),
                None => refused(source, "SET_WINDOW_CLIP_VERTICAL", "rectangle minimum exceeds maximum"),
            }
        } else {
            match rectangle(raw) {
                Some(value) => accepted(
                    MaxwellThreeDStateWrite::FixedFunction(MaxwellThreeDFixedFunctionWrite::WindowClipRectangle { region: ((method - 0x0d00) / 8) as u8, vertical: false, value, source }),
                    "SET_WINDOW_CLIP_HORIZONTAL",
                ),
                None => refused(source, "SET_WINDOW_CLIP_HORIZONTAL", "rectangle minimum exceeds maximum"),
            }
        }
    } else if 0x0e00 <= method && method < 0x0f00 {
        if (method - 0x0e00) % 0x10 == 0 {
            match checked_bool(source, "SET_SCISSOR_ENABLE") {
                Ok(value) => accepted(
                    MaxwellThreeDStateWrite::FixedFunction(MaxwellThreeDFixedFunctionWrite::ScissorEnable { scissor: ((method - 0x0e00) / 0x10) as u8, value, source }),
                    "SET_SCISSOR",
                ),
                Err(error) => Err(error),
            }
        } else if (method - 0x0e00) % 0x10 == 4 {
            match rectangle(raw) {
                Some(value) => accepted(
                    MaxwellThreeDStateWrite::FixedFunction(MaxwellThreeDFixedFunctionWrite::ScissorRectangle { scissor: ((method - 0x0e00) / 0x10) as u8, vertical: false, value, source }),
                    "SET_SCISSOR",
                ),
                None => refused(source, "SET_SCISSOR", "rectangle minimum exceeds maximum"),
            }
        } else if (method - 0x0e00) % 0x10 == 8 {
            match rectangle(raw) {
                Some(value) => accepted(
                    MaxwellThreeDStateWrite::FixedFunction(MaxwellThreeDFixedFunctionWrite::ScissorRectangle { scissor: ((method - 0x0e00) / 0x10) as u8, vertical: true, value, source }),
                    "SET_SCISSOR",
                ),
                None => refused(source, "SET_SCISSOR", "rectangle minimum exceeds maximum"),
            }
        } else {
            Ok(None)
        }
    } else {
        Ok(None)
    }
}

#[verifier::when_used_as_spec(spec_decode_viewport)]
pub fn decode_viewport(source: MaxwellMethodSource) -> (r: MethodDecode)
    ensures
        r == spec_decode_viewport(source),
        crate::decode::in_range(r),
{
    let method: u32 = source.method().0;
    let raw: u32 = source.argument();
    if method == 0x0ff4 {
        accepted(
            MaxwellThreeDStateWrite::FixedFunction(MaxwellThreeDFixedFunctionWrite::SurfaceClip { vertical: false, value: MaxwellThreeDSurfaceClipAxis::parse(raw), source }),
            "SET_SURFACE_CLIP_HORIZONTAL",
        )
    } else if method == 0x0ff8 {
        accepted(
            MaxwellThreeDStateWrite::FixedFunction(MaxwellThreeDFixedFunctionWrite::SurfaceClip { vertical: true, value: MaxwellThreeDSurfaceClipAxis::parse(raw), source }),
            "SET_SURFACE_CLIP_VERTICAL",
        )
    } else if 0x0a00 <= method && method < 0x0c00 {
        if ((method - 0x0a00) % 0x20) / 4 <= 5 {
            accepted(
                MaxwellThreeDStateWrite::FixedFunction(MaxwellThreeDFixedFunctionWrite::ViewportFloat { viewport: ((method - 0x0a00) / 0x20) as u8, field: (((method - 0x0a00) % 0x20) / 4) as u8, value: MaxwellThreeDRawValue(raw), source }),
                "SET_VIEWPORT_SCALE_OR_OFFSET",
            )
        } else if ((method - 0x0a00) % 0x20) / 4 == 6 {
            match MaxwellThreeDViewportCoordinateSwizzle::parse(raw) {
                Some(value) => accepted(
                    MaxwellThreeDStateWrite::FixedFunction(MaxwellThreeDFixedFunctionWrite::ViewportCoordinateSwizzle { viewport: ((method - 0x0a00) / 0x20) as u8, value, source }),
                    "SET_VIEWPORT_COORDINATE_SWIZZLE",
                ),
                None => refused(source, "SET_VIEWPORT_COORDINATE_SWIZZLE", "reserved bits are set"),
            }
        } else {
            Ok(None)
        }
    } else if 0x0c00 <= method && method < 0x0d00 {
        if (method - 0x0c00) % 0x10 == 0 {
            match rectangle(raw) {
                Some(value) => accepted(
                    MaxwellThreeDStateWrite::FixedFunction(MaxwellThreeDFixedFunctionWrite::ViewportRectangle { viewport: ((method - 0x0c00) / 0x10) as u8, vertical: false, value, source }),
                    "SET_VIEWPORT_CLIP",
                ),
                None => refused(source, "SET_VIEWPORT_CLIP", "rectangle minimum exceeds maximum"),
            }
        } else if (method - 0x0c00) % 0x10 == 4 {
            match rectangle(raw) {
                Some(value) => accepted(
                    MaxwellThreeDStateWrite::FixedFunction(MaxwellThreeDFixedFunctionWrite::ViewportRectangle { viewport: ((method - 0x0c00) / 0x10) as u8, vertical: true, value, source }),
                    "SET_VIEWPORT_CLIP",
                ),
                None => refused(source, "SET_VIEWPORT_CLIP", "rectangle minimum exceeds maximum"),
            }
        } else if (method - 0x0c00) % 0x10 == 8 {
            accepted(
                MaxwellThreeDStateWrite::FixedFunction(MaxwellThreeDFixedFunctionWrite::ViewportDepth { viewport: ((method - 0x0c00) / 0x10) as u8, maximum: false, value: MaxwellThreeDRawValue(raw), source }),
                "SET_VIEWPORT_CLIP",
            )
        } else if (method - 0x0c00) % 0x10 == 12 {
            accepted(
                MaxwellThreeDStateWrite::FixedFunction(MaxwellThreeDFixedFunctionWrite::ViewportDepth { viewport: ((method - 0x0c00) / 0x10) as u8, maximum: true, value: MaxwellThreeDRawValue(raw), source }),
                "SET_VIEWPORT_CLIP",
            )
        } else {
            Ok(None)
        }
    } else if 0x0d00 <= method && method < 0x0d40 {
        if (method - 0x0d00) % 8 == 4 {
            match rectangle(raw) {
                Some(value) => accepted(
                    MaxwellThreeDStateWrite::FixedFunction(MaxwellThreeDFixedFunctionWrite::WindowClipRectangle { region: ((method - 0x0d00) / 8) as u8, vertical: true, value, source }),
                    "SET_WINDOW_CLIP_VERTICAL",
                ),
                None => refused(source, "SET_WINDOW_CLIP_VERTICAL", "rectangle minimum exceeds maximum"),
            }
        } else {
            match rectangle(raw) {
                Some(value) => accepted(
                    MaxwellThreeDStateWrite::FixedFunction(MaxwellThreeDFixedFunctionWrite::WindowClipRectangle { region: ((method - 0x0d00) / 8) as u8, vertical: false, value, source }),
                    "SET_WINDOW_CLIP_HORIZONTAL",
                ),
                None => refused(source, "SET_WINDOW_CLIP_HORIZONTAL", "rectangle minimum exceeds maximum"),
            }
        }
    } else if 0x0e00 <= method && method < 0x0f00 {
        if (method - 0x0e00) % 0x10 == 0 {
            match checked_bool(source, "SET_SCISSOR_ENABLE") {
                Ok(value) => accepted(
                    MaxwellThreeDStateWrite::FixedFunction(MaxwellThreeDFixedFunctionWrite::ScissorEnable { scissor: ((method - 0x0e00) / 0x10) as u8, value, source }),
                    "SET_SCISSOR",
                ),
                Err(error) => Err(error),
            }
        } else if (method - 0x0e00) % 0x10 == 4 {
            match rectangle(raw) {
                Some(value) => accepted(
                    MaxwellThreeDStateWrite::FixedFunction(MaxwellThreeDFixedFunctionWrite::ScissorRectangle { scissor: ((method - 0x0e00) / 0x10) as u8, vertical: false, value, source }),
                    "SET_SCISSOR",
                ),
                None => refused(source, "SET_SCISSOR", "rectangle minimum exceeds maximum"),
            }
        } else if (method - 0x0e00) % 0x10 == 8 {
            match rectangle(raw) {
                Some(value) => accepted(
                    MaxwellThreeDStateWrite::FixedFunction(MaxwellThreeDFixedFunctionWrite::ScissorRectangle { scissor: ((method - 0x0e00) / 0x10) as u8, vertical: true, value, source }),
                    "SET_SCISSOR",
                ),
                None => refused(source, "SET_SCISSOR", "rectangle minimum exceeds maximum"),
            }
        } else {
            Ok(None)
        }
    } else {
        Ok(None)
    }
}

/// Blend and color-mask methods of the eight color targets.
pub open spec fn spec_decode_blend_target(source: MaxwellMethodSource) -> MethodDecode {
    let method = source.method().0;
    let raw = source.argument();
    if 0x1360 <= method && method < 0x1380 && method & 3 == 0 {
        match checked_bool(source, "SET_BLEND") {
            Ok(value) => accepted(
                MaxwellThreeDStateWrite::FixedFunction(MaxwellThreeDFixedFunctionWrite::BlendEnable { target: ((method - 0x1360) / 4) as u8, value, source }),
                "SET_BLEND",
            ),
            Err(error) => Err(error),
        }
    } else if 0x1a00 <= method && method < 0x1a20 && method & 3 == 0 {
        match MaxwellThreeDColorMask::parse(raw) {
            Some(value) => accepted(
                MaxwellThreeDStateWrite::FixedFunction(MaxwellThreeDFixedFunctionWrite::ColorMask { target: ((method - 0x1a00) / 4) as u8, value, source }),
                "SET_CT_WRITE",
            ),
            None => refused(source, "SET_CT_WRITE", "reserved color-mask bits are set"),
        }
    } else if 0x1e00 <= method && method < 0x1f00 {
        if ((method - 0x1e00) % 0x20) / 4 == 0 {
            match checked_bool(source, "SET_BLEND_PER_TARGET_SEPARATE_FOR_ALPHA") {
                Ok(value) => accepted(
                    MaxwellThreeDStateWrite::FixedFunction(MaxwellThreeDFixedFunctionWrite::BlendState { target: ((method - 0x1e00) / 0x20) as u8, field: (((method - 0x1e00) % 0x20) / 4) as u8, value: MaxwellThreeDFixedFunctionValue::Boolean(value), source }),
                    "SET_BLEND_PER_TARGET_STATE",
                ),
                Err(error) => Err(error),
            }
        } else if ((method - 0x1e00) % 0x20) / 4 == 1 || ((method - 0x1e00) % 0x20) / 4 == 4 {
            match MaxwellThreeDBlendOp::parse(raw) {
                Some(value) => accepted(
                    MaxwellThreeDStateWrite::FixedFunction(MaxwellThreeDFixedFunctionWrite::BlendState { target: ((method - 0x1e00) / 0x20) as u8, field: (((method - 0x1e00) % 0x20) / 4) as u8, value: MaxwellThreeDFixedFunctionValue::BlendOp(value), source }),
                    "SET_BLEND_PER_TARGET_STATE",
                ),
                None => refused(source, "SET_BLEND_PER_TARGET_OP", "unknown blend operation"),
            }
        } else if ((method - 0x1e00) % 0x20) / 4 <= 6 {
            match MaxwellThreeDBlendFactor::parse(raw) {
                Some(value) => accepted(
                    MaxwellThreeDStateWrite::FixedFunction(MaxwellThreeDFixedFunctionWrite::BlendState { target: ((method - 0x1e00) / 0x20) as u8, field: (((method - 0x1e00) % 0x20) / 4) as u8, value: MaxwellThreeDFixedFunctionValue::BlendFactor(value), source }),
                    "SET_BLEND_PER_TARGET_STATE",
                ),
                None => refused(source, "SET_BLEND_PER_TARGET_COEFF", "unknown blend coefficient"),
            }
        } else {
            Ok(None)
        }
    } else if method == 0x0fdc {
        match MaxwellThreeDBlendFloatPixelKillEnable::parse(raw) {
            Some(value) => accepted(
                MaxwellThreeDStateWrite::FixedFunction(MaxwellThreeDFixedFunctionWrite::BlendFloatPixelKillEnable { value, source }),
                "SET_BLEND_OPT_CONTROL",
            ),
            None => refused(source, "SET_BLEND_OPT_CONTROL", "undefined boolean encoding or reserved bits"),
        }
    } else if method == 0x1140 {
        match MaxwellThreeDBlendPerFormatEnable::parse(raw) {
            Some(value) => accepted(
                MaxwellThreeDStateWrite::FixedFunction(MaxwellThreeDFixedFunctionWrite::BlendPerFormatEnable { value, source }),
                "SET_BLEND_PER_FORMAT_ENABLE",
            ),
            None => refused(source, "SET_BLEND_PER_FORMAT_ENABLE", "undefined boolean encoding or reserved bits"),
        }
    } else if method == 0x19c0 {
        match MaxwellThreeDBlendZeroTimesAnythingIsZero::parse(raw) {
            Some(value) => accepted(
                MaxwellThreeDStateWrite::FixedFunction(MaxwellThreeDFixedFunctionWrite::BlendZeroTimesAnythingIsZero { value, source }),
                "SET_BLEND_FLOAT_OPTION",
            ),
            None => refused(source, "SET_BLEND_FLOAT_OPTION", "undefined boolean encoding or reserved bits"),
        }
    } else if method == 0x135c {
        match MaxwellThreeDBlendEnableCommon::parse(raw) {
            Some(value) => accepted(
                MaxwellThreeDStateWrite::FixedFunction(MaxwellThreeDFixedFunctionWrite::BlendEnableCommon { value, source }),
                "SET_BLEND_ENABLE_COMMON",
            ),
            None => refused(source, "SET_BLEND_ENABLE_COMMON", "undefined boolean encoding or reserved bits"),
        }
    } else {
        Ok(None)
    }
}

#[verifier::when_used_as_spec(spec_decode_blend_target)]
pub fn decode_blend_target(source: MaxwellMethodSource) -> (r: MethodDecode)
    ensures
        r == spec_decode_blend_target(source),
        crate::decode::in_range(r),
{
    let method: u32 = source.method().0;
    let raw: u32 = source.argument();
    if 0x1360 <= method && method < 0x1380 && method & 3 == 0 {
        match checked_bool(source, "SET_BLEND") {
            Ok(value) => accepted(
                MaxwellThreeDStateWrite::FixedFunction(MaxwellThreeDFixedFunctionWrite::BlendEnable { target: ((method - 0x1360) / 4) as u8, value, source }),
                "SET_BLEND",
            ),
            Err(error) => Err(error),
        }
    } else if 0x1a00 <= method && method < 0x1a20 && method & 3 == 0 {
        match MaxwellThreeDColorMask::parse(raw) {
            Some(value) => accepted(
                MaxwellThreeDStateWrite::FixedFunction(MaxwellThreeDFixedFunctionWrite::ColorMask { target: ((method - 0x1a00) / 4) as u8, value, source }),
                "SET_CT_WRITE",
            ),
            None => refused(source, "SET_CT_WRITE", "reserved color-mask bits are set"),
        }
    } else if 0x1e00 <= method && method < 0x1f00 {
        if ((method - 0x1e00) % 0x20) / 4 == 0 {
            match checked_bool(source, "SET_BLEND_PER_TARGET_SEPARATE_FOR_ALPHA") {
                Ok(value) => accepted(
                    MaxwellThreeDStateWrite::FixedFunction(MaxwellThreeDFixedFunctionWrite::BlendState { target: ((method - 0x1e00) / 0x20) as u8, field: (((method - 0x1e00) % 0x20) / 4) as u8, value: MaxwellThreeDFixedFunctionValue::Boolean(value), source }),
                    "SET_BLEND_PER_TARGET_STATE",
                ),
                Err(error) => Err(error),
            }
        } else if ((method - 0x1e00) % 0x20) / 4 == 1 || ((method - 0x1e00) % 0x20) / 4 == 4 {
            match MaxwellThreeDBlendOp::parse(raw) {
                Some(value) => accepted(
                    MaxwellThreeDStateWrite::FixedFunction(MaxwellThreeDFixedFunctionWrite::BlendState { target: ((method - 0x1e00) / 0x20) as u8, field: (((method - 0x1e00) % 0x20) / 4) as u8, value: MaxwellThreeDFixedFunctionValue::BlendOp(value), source }),
                    "SET_BLEND_PER_TARGET_STATE",
                ),
                None => refused(source, "SET_BLEND_PER_TARGET_OP", "unknown blend operation"),
            }
        } else if ((method - 0x1e00) % 0x20) / 4 <= 6 {
            match MaxwellThreeDBlendFactor::parse(raw) {
                Some(value) => accepted(
                    MaxwellThreeDStateWrite::FixedFunction(MaxwellThreeDFixedFunctionWrite::BlendState { target: ((method - 0x1e00) / 0x20) as u8, field: (((method - 0x1e00) % 0x20) / 4) as u8, value: MaxwellThreeDFixedFunctionValue::BlendFactor(value), source }),
                    "SET_BLEND_PER_TARGET_STATE",
                ),
                None => refused(source, "SET_BLEND_PER_TARGET_COEFF", "unknown blend coefficient"),
            }
        } else {
            Ok(None)
        }
    } else if method == 0x0fdc {
        match MaxwellThreeDBlendFloatPixelKillEnable::parse(raw) {
            Some(value) => accepted(
                MaxwellThreeDStateWrite::FixedFunction(MaxwellThreeDFixedFunctionWrite::BlendFloatPixelKillEnable { value, source }),
                "SET_BLEND_OPT_CONTROL",
            ),
            None => refused(source, "SET_BLEND_OPT_CONTROL", "undefined boolean encoding or reserved bits"),
        }
    } else if method == 0x1140 {
        match MaxwellThreeDBlendPerFormatEnable::parse(raw) {
            Some(value) => accepted(
                MaxwellThreeDStateWrite::FixedFunction(MaxwellThreeDFixedFunctionWrite::BlendPerFormatEnable { value, source }),
                "SET_BLEND_PER_FORMAT_ENABLE",
            ),
            None => refused(source, "SET_BLEND_PER_FORMAT_ENABLE", "undefined boolean encoding or reserved bits"),
        }
    } else if method == 0x19c0 {
        match MaxwellThreeDBlendZeroTimesAnythingIsZero::parse(raw) {
            Some(value) => accepted(
                MaxwellThreeDStateWrite::FixedFunction(MaxwellThreeDFixedFunctionWrite::BlendZeroTimesAnythingIsZero { value, source }),
                "SET_BLEND_FLOAT_OPTION",
            ),
            None => refused(source, "SET_BLEND_FLOAT_OPTION", "undefined boolean encoding or reserved bits"),
        }
    } else if method == 0x135c {
        match MaxwellThreeDBlendEnableCommon::parse(raw) {
            Some(value) => accepted(
                MaxwellThreeDStateWrite::FixedFunction(MaxwellThreeDFixedFunctionWrite::BlendEnableCommon { value, source }),
                "SET_BLEND_ENABLE_COMMON",
            ),
            None => refused(source, "SET_BLEND_ENABLE_COMMON", "undefined boolean encoding or reserved bits"),
        }
    } else {
        Ok(None)
    }
}

/// Encoding of the word of one fixed-function register.
#[derive(Clone, Copy, Debug, PartialEq, Eq, Hash, Structural)]
pub enum MaxwellThreeDFieldEncoding {
    Boolean,
    /// Every combination of the masked bits.
    Bits(u32),
    FloatBits,
    /// Sample modes that the rasterizer supports.
    RasterSampleMode,
    AlphaControl,
    PolygonMode,
    ShadeMode,
    Compare,
    BlendOp,
    BlendFactor,
    StencilOp,
    PixelShaderSaturate,
    SampleMode,
    ProvokingVertex,
    FrontFace,
    CullFace,
    ViewportScaleOffsetEnable,
    ClipControl,
    WindowClipType,
    ClipIdTestEnable,
    LogicOp,
}

impl MaxwellThreeDFieldEncoding {
    /// Value of a word, if the encoding defines it.
    pub open spec fn spec_decode(self, raw: u32) -> Option<MaxwellThreeDFixedFunctionValue> {
        match self {
            MaxwellThreeDFieldEncoding::Boolean => if raw <= 1 {
                Some(MaxwellThreeDFixedFunctionValue::Boolean(raw == 1))
            } else {
                None
            },
            MaxwellThreeDFieldEncoding::Bits(mask) => if raw & !mask == 0 {
                Some(MaxwellThreeDFixedFunctionValue::Mask(raw))
            } else {
                None
            },
            MaxwellThreeDFieldEncoding::FloatBits => Some(
                MaxwellThreeDFixedFunctionValue::FloatBits(MaxwellThreeDRawValue(raw)),
            ),
            MaxwellThreeDFieldEncoding::RasterSampleMode => match MaxwellThreeDSampleMode::parse(raw) {
                Some(value) => if value == MaxwellThreeDSampleMode::Samples1x1 || value == MaxwellThreeDSampleMode::Samples2x2 || value == MaxwellThreeDSampleMode::Samples4x2D3D || value == MaxwellThreeDSampleMode::Samples2x1D3D || value == MaxwellThreeDSampleMode::Samples4x4 {
                    Some(MaxwellThreeDFixedFunctionValue::SampleMode(value))
                } else {
                    None
                },
                None => None,
            },
            MaxwellThreeDFieldEncoding::AlphaControl => if raw & !0x11u32 == 0 {
                Some(
                    MaxwellThreeDFixedFunctionValue::AlphaControl {
                        alpha_to_coverage: raw & 1 != 0,
                        alpha_to_one: raw & 0x10 != 0,
                    },
                )
            } else {
                None
            },
            MaxwellThreeDFieldEncoding::PolygonMode => match MaxwellThreeDPolygonMode::parse(raw) {
                Some(value) => Some(MaxwellThreeDFixedFunctionValue::PolygonMode(value)),
                None => None,
            },
            MaxwellThreeDFieldEncoding::ShadeMode => match MaxwellThreeDShadeMode::parse(raw) {
                Some(value) => Some(MaxwellThreeDFixedFunctionValue::ShadeMode(value)),
                None => None,
            },
            MaxwellThreeDFieldEncoding::Compare => match MaxwellThreeDCompareOp::parse(raw) {
                Some(value) => Some(MaxwellThreeDFixedFunctionValue::Compare(value)),
                None => None,
            },
            MaxwellThreeDFieldEncoding::BlendOp => match MaxwellThreeDBlendOp::parse(raw) {
                Some(value) => Some(MaxwellThreeDFixedFunctionValue::BlendOp(value)),
                None => None,
            },
            MaxwellThreeDFieldEncoding::BlendFactor => match MaxwellThreeDBlendFactor::parse(raw) {
                Some(value) => Some(MaxwellThreeDFixedFunctionValue::BlendFactor(value)),
                None => None,
            },
            MaxwellThreeDFieldEncoding::StencilOp => match MaxwellThreeDStencilOp::parse(raw) {
                Some(value) => Some(MaxwellThreeDFixedFunctionValue::StencilOp(value)),
                None => None,
            },
            MaxwellThreeDFieldEncoding::PixelShaderSaturate => match MaxwellThreeDPixelShaderSaturate::parse(raw) {
                Some(value) => Some(MaxwellThreeDFixedFunctionValue::PixelShaderSaturate(value)),
                None => None,
            },
            MaxwellThreeDFieldEncoding::SampleMode => match MaxwellThreeDSampleMode::parse(raw) {
                Some(value) => Some(MaxwellThreeDFixedFunctionValue::SampleMode(value)),
                None => None,
            },
            MaxwellThreeDFieldEncoding::ProvokingVertex => match MaxwellThreeDProvokingVertex::parse(raw) {
                Some(value) => Some(MaxwellThreeDFixedFunctionValue::ProvokingVertex(value)),
                None => None,
            },
            MaxwellThreeDFieldEncoding::FrontFace => match MaxwellThreeDFrontFace::parse(raw) {
                Some(value) => Some(MaxwellThreeDFixedFunctionValue::FrontFace(value)),
                None => None,
            },
            MaxwellThreeDFieldEncoding::CullFace => match MaxwellThreeDCullFace::parse(raw) {
                Some(value) => Some(MaxwellThreeDFixedFunctionValue::CullFace(value)),
                None => None,
            },
            MaxwellThreeDFieldEncoding::ViewportScaleOffsetEnable => match MaxwellThreeDViewportScaleOffsetEnable::parse(raw) {
                Some(value) => Some(MaxwellThreeDFixedFunctionValue::ViewportScaleOffsetEnable(value)),
                None => None,
            },
            MaxwellThreeDFieldEncoding::ClipControl => match MaxwellThreeDViewportClipControl::parse(raw) {
                Some(value) => Some(MaxwellThreeDFixedFunctionValue::ClipControl(value)),
                None => None,
            },
            MaxwellThreeDFieldEncoding::WindowClipType => match MaxwellThreeDWindowClipType::parse(raw) {
                Some(value) => Some(MaxwellThreeDFixedFunctionValue::WindowClipType(value)),
                None => None,
            },
            MaxwellThreeDFieldEncoding::ClipIdTestEnable => match MaxwellThreeDClipIdTestEnable::parse(raw) {
                Some(value) => Some(MaxwellThreeDFixedFunctionValue::ClipIdTestEnable(value)),
                None => None,
            },
            MaxwellThreeDFieldEncoding::LogicOp => match MaxwellThreeDLogicOp::parse(raw) {
                Some(value) => Some(MaxwellThreeDFixedFunctionValue::LogicOp(value)),
                None => None,
            },
        }
    }

    #[verifier::when_used_as_spec(spec_decode)]
    pub fn decode(self, raw: u32) -> (r: Option<MaxwellThreeDFixedFunctionValue>)
        ensures
            r == self.spec_decode(raw),
    {
        match self {
            MaxwellThreeDFieldEncoding::Boolean => if raw <= 1 {
                Some(MaxwellThreeDFixedFunctionValue::Boolean(raw == 1))
            } else {
                None
            },
            MaxwellThreeDFieldEncoding::Bits(mask) => if raw & !mask == 0 {
                Some(MaxwellThreeDFixedFunctionValue::Mask(raw))
            } else {
                None
            },
            MaxwellThreeDFieldEncoding::FloatBits => Some(
                MaxwellThreeDFixedFunctionValue::FloatBits(MaxwellThreeDRawValue(raw)),
            ),
            MaxwellThreeDFieldEncoding::RasterSampleMode => match MaxwellThreeDSampleMode::parse(raw) {
                Some(value) => if value == MaxwellThreeDSampleMode::Samples1x1 || value == MaxwellThreeDSampleMode::Samples2x2 || value == MaxwellThreeDSampleMode::Samples4x2D3D || value == MaxwellThreeDSampleMode::Samples2x1D3D || value == MaxwellThreeDSampleMode::Samples4x4 {
                    Some(MaxwellThreeDFixedFunctionValue::SampleMode(value))
                } else {
                    None
                },
                None => None,
            },
            MaxwellThreeDFieldEncoding::AlphaControl => if raw & !0x11u32 == 0 {
                Some(
                    MaxwellThreeDFixedFunctionValue::AlphaControl {
                        alpha_to_coverage: raw & 1 != 0,
                        alpha_to_one: raw & 0x10 != 0,
                    },
                )
            } else {
                None
            },
            MaxwellThreeDFieldEncoding::PolygonMode => match MaxwellThreeDPolygonMode::parse(raw) {
                Some(value) => Some(MaxwellThreeDFixedFunctionValue::PolygonMode(value)),
                None => None,
            },
            MaxwellThreeDFieldEncoding::ShadeMode => match MaxwellThreeDShadeMode::parse(raw) {
                Some(value) => Some(MaxwellThreeDFixedFunctionValue::ShadeMode(value)),
                None => None,
            },
            MaxwellThreeDFieldEncoding::Compare => match MaxwellThreeDCompareOp::parse(raw) {
                Some(value) => Some(MaxwellThreeDFixedFunctionValue::Compare(value)),
                None => None,
            },
            MaxwellThreeDFieldEncoding::BlendOp => match MaxwellThreeDBlendOp::parse(raw) {
                Some(value) => Some(MaxwellThreeDFixedFunctionValue::BlendOp(value)),
                None => None,
            },
            MaxwellThreeDFieldEncoding::BlendFactor => match MaxwellThreeDBlendFactor::parse(raw) {
                Some(value) => Some(MaxwellThreeDFixedFunctionValue::BlendFactor(value)),
                None => None,
            },
            MaxwellThreeDFieldEncoding::StencilOp => match MaxwellThreeDStencilOp::parse(raw) {
                Some(value) => Some(MaxwellThreeDFixedFunctionValue::StencilOp(value)),
                None => None,
            },
            MaxwellThreeDFieldEncoding::PixelShaderSaturate => match MaxwellThreeDPixelShaderSaturate::parse(raw) {
                Some(value) => Some(MaxwellThreeDFixedFunctionValue::PixelShaderSaturate(value)),
                None => None,
            },
            MaxwellThreeDFieldEncoding::SampleMode => match MaxwellThreeDSampleMode::parse(raw) {
                Some(value) => Some(MaxwellThreeDFixedFunctionValue::SampleMode(value)),
                None => None,
            },
            MaxwellThreeDFieldEncoding::ProvokingVertex => match MaxwellThreeDProvokingVertex::parse(raw) {
                Some(value) => Some(MaxwellThreeDFixedFunctionValue::ProvokingVertex(value)),
                None => None,
            },
            MaxwellThreeDFieldEncoding::FrontFace => match MaxwellThreeDFrontFace::parse(raw) {
                Some(value) => Some(MaxwellThreeDFixedFunctionValue::FrontFace(value)),
                None => None,
            },
            MaxwellThreeDFieldEncoding::CullFace => match MaxwellThreeDCullFace::parse(raw) {
                Some(value) => Some(MaxwellThreeDFixedFunctionValue::CullFace(value)),
                None => None,
            },
            MaxwellThreeDFieldEncoding::ViewportScaleOffsetEnable => match MaxwellThreeDViewportScaleOffsetEnable::parse(raw) {
                Some(value) => Some(MaxwellThreeDFixedFunctionValue::ViewportScaleOffsetEnable(value)),
                None => None,
            },
            MaxwellThreeDFieldEncoding::ClipControl => match MaxwellThreeDViewportClipControl::parse(raw) {
                Some(value) => Some(MaxwellThreeDFixedFunctionValue::ClipControl(value)),
                None => None,
            },
            MaxwellThreeDFieldEncoding::WindowClipType => match MaxwellThreeDWindowClipType::parse(raw) {
                Some(value) => Some(MaxwellThreeDFixedFunctionValue::WindowClipType(value)),
                None => None,
            },
            MaxwellThreeDFieldEncoding::ClipIdTestEnable => match MaxwellThreeDClipIdTestEnable::parse(raw) {
                Some(value) => Some(MaxwellThreeDFixedFunctionValue::ClipIdTestEnable(value)),
                None => None,
            },
            MaxwellThreeDFieldEncoding::LogicOp => match MaxwellThreeDLogicOp::parse(raw) {
                Some(value) => Some(MaxwellThreeDFixedFunctionValue::LogicOp(value)),
                None => None,
            },
        }
    }
}

/// A fixed-function register that a method writes: the register, the encoding of its
/// word, the method name, and what a refused word is reported as.
#[derive(Clone, Copy, Debug, PartialEq, Eq)]
pub struct MaxwellThreeDFixedFunctionField {
    pub register: MaxwellThreeDFixedFunctionRegister,
    pub encoding: MaxwellThreeDFieldEncoding,
    pub name: &'static str,
    pub refused_as: &'static str,
    pub reason: &'static str,
}

/// Fixed-function register of a method.
pub open spec fn spec_fixed_function_field(method: u32) -> Option<MaxwellThreeDFixedFunctionField> {
    match method {
        0x037c => Some(
            MaxwellThreeDFixedFunctionField {
                register: MaxwellThreeDFixedFunctionRegister::RasterEnable,
                encoding: MaxwellThreeDFieldEncoding::Boolean,
                name: "SET_RASTER_ENABLE",
                refused_as: "SET_RASTER_ENABLE",
                reason: "expected boolean 0 or 1",
            },
        ),
        0x0dac => Some(
            MaxwellThreeDFixedFunctionField {
                register: MaxwellThreeDFixedFunctionRegister::FrontPolygonMode,
                encoding: MaxwellThreeDFieldEncoding::PolygonMode,
                name: "SET_FRONT_POLYGON_MODE",
                refused_as: "SET_FRONT_POLYGON_MODE",
                reason: "unknown polygon mode",
            },
        ),
        0x0db0 => Some(
            MaxwellThreeDFixedFunctionField {
                register: MaxwellThreeDFixedFunctionRegister::BackPolygonMode,
                encoding: MaxwellThreeDFieldEncoding::PolygonMode,
                name: "SET_BACK_POLYGON_MODE",
                refused_as: "SET_BACK_POLYGON_MODE",
                reason: "unknown polygon mode",
            },
        ),
        0x0dc0 => Some(
            MaxwellThreeDFixedFunctionField {
                register: MaxwellThreeDFixedFunctionRegister::PolygonOffsetPointEnable,
                encoding: MaxwellThreeDFieldEncoding::Boolean,
                name: "SET_POLY_OFFSET",
                refused_as: "SET_POLY_OFFSET",
                reason: "expected boolean 0 or 1",
            },
        ),
        0x0dc4 => Some(
            MaxwellThreeDFixedFunctionField {
                register: MaxwellThreeDFixedFunctionRegister::PolygonOffsetLineEnable,
                encoding: MaxwellThreeDFieldEncoding::Boolean,
                name: "SET_POLY_OFFSET",
                refused_as: "SET_POLY_OFFSET",
                reason: "expected boolean 0 or 1",
            },
        ),
        0x0dc8 => Some(
            MaxwellThreeDFixedFunctionField {
                register: MaxwellThreeDFixedFunctionRegister::PolygonOffsetFillEnable,
                encoding: MaxwellThreeDFieldEncoding::Boolean,
                name: "SET_POLY_OFFSET",
                refused_as: "SET_POLY_OFFSET",
                reason: "expected boolean 0 or 1",
            },
        ),
        0x0df8 => Some(
            MaxwellThreeDFixedFunctionField {
                register: MaxwellThreeDFixedFunctionRegister::WindowOffsetX,
                encoding: MaxwellThreeDFieldEncoding::Bits(0x1ffff),
                name: "SET_WINDOW_OFFSET_X",
                refused_as: "SET_WINDOW_OFFSET",
                reason: "reserved bits are set",
            },
        ),
        0x0dfc => Some(
            MaxwellThreeDFixedFunctionField {
                register: MaxwellThreeDFixedFunctionRegister::WindowOffsetY,
                encoding: MaxwellThreeDFieldEncoding::Bits(0x3ffff),
                name: "SET_WINDOW_OFFSET_Y",
                refused_as: "SET_WINDOW_OFFSET",
                reason: "reserved bits are set",
            },
        ),
        0x0f54 => Some(
            MaxwellThreeDFixedFunctionField {
                register: MaxwellThreeDFixedFunctionRegister::BackStencilReference,
                encoding: MaxwellThreeDFieldEncoding::Bits(0xff),
                name: "SET_BACK_STENCIL_MASK_OR_REFERENCE",
                refused_as: "SET_BACK_STENCIL_MASK_OR_REFERENCE",
                reason: "reserved bits are set",
            },
        ),
        0x0f58 => Some(
            MaxwellThreeDFixedFunctionField {
                register: MaxwellThreeDFixedFunctionRegister::BackStencilWriteMask,
                encoding: MaxwellThreeDFieldEncoding::Bits(0xff),
                name: "SET_BACK_STENCIL_MASK_OR_REFERENCE",
                refused_as: "SET_BACK_STENCIL_MASK_OR_REFERENCE",
                reason: "reserved bits are set",
            },
        ),
        0x0f5c => Some(
            MaxwellThreeDFixedFunctionField {
                register: MaxwellThreeDFixedFunctionRegister::BackStencilCompareMask,
                encoding: MaxwellThreeDFieldEncoding::Bits(0xff),
                name: "SET_BACK_STENCIL_MASK_OR_REFERENCE",
                refused_as: "SET_BACK_STENCIL_MASK_OR_REFERENCE",
                reason: "reserved bits are set",
            },
        ),
        0x0f90 => Some(
            MaxwellThreeDFixedFunctionField {
                register: MaxwellThreeDFixedFunctionRegister::SingleColorTargetWriteControl,
                encoding: MaxwellThreeDFieldEncoding::Boolean,
                name: "SET_SINGLE_CT_WRITE_CONTROL",
                refused_as: "SET_SINGLE_CT_WRITE_CONTROL",
                reason: "expected boolean 0 or 1",
            },
        ),
        0x0f9c => Some(
            MaxwellThreeDFixedFunctionField {
                register: MaxwellThreeDFixedFunctionRegister::DepthBoundsMin,
                encoding: MaxwellThreeDFieldEncoding::FloatBits,
                name: "SET_DEPTH_BOUNDS_MIN",
                refused_as: "SET_DEPTH_BOUNDS_MIN",
                reason: "every word is defined",
            },
        ),
        0x0fa0 => Some(
            MaxwellThreeDFixedFunctionField {
                register: MaxwellThreeDFixedFunctionRegister::DepthBoundsMax,
                encoding: MaxwellThreeDFieldEncoding::FloatBits,
                name: "SET_DEPTH_BOUNDS_MAX",
                refused_as: "SET_DEPTH_BOUNDS_MAX",
                reason: "every word is defined",
            },
        ),
        0x0fa4 => Some(
            MaxwellThreeDFixedFunctionField {
                register: MaxwellThreeDFixedFunctionRegister::SampleMaskControl,
                encoding: MaxwellThreeDFieldEncoding::Bits(0x11),
                name: "SET_SAMPLE_MASK",
                refused_as: "SET_SAMPLE_MASK",
                reason: "reserved bits are set",
            },
        ),
        0x0fb8 => Some(
            MaxwellThreeDFixedFunctionField {
                register: MaxwellThreeDFixedFunctionRegister::RasterSampleMode,
                encoding: MaxwellThreeDFieldEncoding::RasterSampleMode,
                name: "SET_ANTI_ALIAS_RASTER",
                refused_as: "SET_ANTI_ALIAS_RASTER",
                reason: "unsupported raster sample encoding",
            },
        ),
        0x12cc => Some(
            MaxwellThreeDFixedFunctionField {
                register: MaxwellThreeDFixedFunctionRegister::DepthTestEnable,
                encoding: MaxwellThreeDFieldEncoding::Boolean,
                name: "SET_DEPTH_TEST",
                refused_as: "SET_DEPTH_TEST",
                reason: "expected boolean 0 or 1",
            },
        ),
        0x12d4 => Some(
            MaxwellThreeDFixedFunctionField {
                register: MaxwellThreeDFixedFunctionRegister::ShadeMode,
                encoding: MaxwellThreeDFieldEncoding::ShadeMode,
                name: "SET_SHADE_MODE",
                refused_as: "SET_SHADE_MODE",
                reason: "unknown shade mode",
            },
        ),
        0x12e4 => Some(
            MaxwellThreeDFixedFunctionField {
                register: MaxwellThreeDFixedFunctionRegister::BlendPerTargetEnable,
                encoding: MaxwellThreeDFieldEncoding::Boolean,
                name: "SET_BLEND_STATE_PER_TARGET",
                refused_as: "SET_BLEND_STATE_PER_TARGET",
                reason: "expected boolean 0 or 1",
            },
        ),
        0x12e8 => Some(
            MaxwellThreeDFixedFunctionField {
                register: MaxwellThreeDFixedFunctionRegister::DepthWriteEnable,
                encoding: MaxwellThreeDFieldEncoding::Boolean,
                name: "SET_DEPTH_WRITE",
                refused_as: "SET_DEPTH_WRITE",
                reason: "expected boolean 0 or 1",
            },
        ),
        0x12ec => Some(
            MaxwellThreeDFixedFunctionField {
                register: MaxwellThreeDFixedFunctionRegister::AlphaTestEnable,
                encoding: MaxwellThreeDFieldEncoding::Boolean,
                name: "SET_ALPHA_TEST",
                refused_as: "SET_ALPHA_TEST",
                reason: "expected boolean 0 or 1",
            },
        ),
        0x130c => Some(
            MaxwellThreeDFixedFunctionField {
                register: MaxwellThreeDFixedFunctionRegister::DepthCompare,
                encoding: MaxwellThreeDFieldEncoding::Compare,
                name: "SET_DEPTH_FUNC",
                refused_as: "SET_DEPTH_FUNC",
                reason: "unknown compare operation",
            },
        ),
        0x1310 => Some(
            MaxwellThreeDFixedFunctionField {
                register: MaxwellThreeDFixedFunctionRegister::AlphaTestReference,
                encoding: MaxwellThreeDFieldEncoding::FloatBits,
                name: "SET_ALPHA_REF",
                refused_as: "SET_ALPHA_REF",
                reason: "every word is defined",
            },
        ),
        0x1314 => Some(
            MaxwellThreeDFixedFunctionField {
                register: MaxwellThreeDFixedFunctionRegister::AlphaTestFunction,
                encoding: MaxwellThreeDFieldEncoding::Compare,
                name: "SET_ALPHA_FUNC",
                refused_as: "SET_ALPHA_FUNC",
                reason: "unknown compare operation",
            },
        ),
        0x131c => Some(
            MaxwellThreeDFixedFunctionField {
                register: MaxwellThreeDFixedFunctionRegister::BlendConstantRed,
                encoding: MaxwellThreeDFieldEncoding::FloatBits,
                name: "SET_BLEND_CONST",
                refused_as: "SET_BLEND_CONST",
                reason: "every word is defined",
            },
        ),
        0x1320 => Some(
            MaxwellThreeDFixedFunctionField {
                register: MaxwellThreeDFixedFunctionRegister::BlendConstantGreen,
                encoding: MaxwellThreeDFieldEncoding::FloatBits,
                name: "SET_BLEND_CONST",
                refused_as: "SET_BLEND_CONST",
                reason: "every word is defined",
            },
        ),
        0x1324 => Some(
            MaxwellThreeDFixedFunctionField {
                register: MaxwellThreeDFixedFunctionRegister::BlendConstantBlue,
                encoding: MaxwellThreeDFieldEncoding::FloatBits,
                name: "SET_BLEND_CONST",
                refused_as: "SET_BLEND_CONST",
                reason: "every word is defined",
            },
        ),
        0x1328 => Some(
            MaxwellThreeDFixedFunctionField {
                register: MaxwellThreeDFixedFunctionRegister::BlendConstantAlpha,
                encoding: MaxwellThreeDFieldEncoding::FloatBits,
                name: "SET_BLEND_CONST",
                refused_as: "SET_BLEND_CONST",
                reason: "every word is defined",
            },
        ),
        0x133c => Some(
            MaxwellThreeDFixedFunctionField {
                register: MaxwellThreeDFixedFunctionRegister::BlendSeparateAlpha,
                encoding: MaxwellThreeDFieldEncoding::Boolean,
                name: "SET_BLEND_SEPARATE_FOR_ALPHA",
                refused_as: "SET_BLEND_SEPARATE_FOR_ALPHA",
                reason: "expected boolean 0 or 1",
            },
        ),
        0x1340 => Some(
            MaxwellThreeDFixedFunctionField {
                register: MaxwellThreeDFixedFunctionRegister::BlendColorOp,
                encoding: MaxwellThreeDFieldEncoding::BlendOp,
                name: "SET_BLEND_OP",
                refused_as: "SET_BLEND_OP",
                reason: "unknown blend operation",
            },
        ),
        0x134c => Some(
            MaxwellThreeDFixedFunctionField {
                register: MaxwellThreeDFixedFunctionRegister::BlendAlphaOp,
                encoding: MaxwellThreeDFieldEncoding::BlendOp,
                name: "SET_BLEND_OP",
                refused_as: "SET_BLEND_OP",
                reason: "unknown blend operation",
            },
        ),
        0x1344 => Some(
            MaxwellThreeDFixedFunctionField {
                register: MaxwellThreeDFixedFunctionRegister::BlendColorSource,
                encoding: MaxwellThreeDFieldEncoding::BlendFactor,
                name: "SET_BLEND_COEFF",
                refused_as: "SET_BLEND_COEFF",
                reason: "unknown blend coefficient",
            },
        ),
        0x1348 => Some(
            MaxwellThreeDFixedFunctionField {
                register: MaxwellThreeDFixedFunctionRegister::BlendColorDestination,
                encoding: MaxwellThreeDFieldEncoding::BlendFactor,
                name: "SET_BLEND_COEFF",
                refused_as: "SET_BLEND_COEFF",
                reason: "unknown blend coefficient",
            },
        ),
        0x1350 => Some(
            MaxwellThreeDFixedFunctionField {
                register: MaxwellThreeDFixedFunctionRegister::BlendAlphaSource,
                encoding: MaxwellThreeDFieldEncoding::BlendFactor,
                name: "SET_BLEND_COEFF",
                refused_as: "SET_BLEND_COEFF",
                reason: "unknown blend coefficient",
            },
        ),
        0x1358 => Some(
            MaxwellThreeDFixedFunctionField {
                register: MaxwellThreeDFixedFunctionRegister::BlendAlphaDestination,
                encoding: MaxwellThreeDFieldEncoding::BlendFactor,
                name: "SET_BLEND_COEFF",
                refused_as: "SET_BLEND_COEFF",
                reason: "unknown blend coefficient",
            },
        ),
        0x1380 => Some(
            MaxwellThreeDFixedFunctionField {
                register: MaxwellThreeDFixedFunctionRegister::StencilTestEnable,
                encoding: MaxwellThreeDFieldEncoding::Boolean,
                name: "SET_STENCIL_TEST",
                refused_as: "SET_STENCIL_TEST",
                reason: "expected boolean 0 or 1",
            },
        ),
        0x1594 => Some(
            MaxwellThreeDFixedFunctionField {
                register: MaxwellThreeDFixedFunctionRegister::TwoSidedStencilTestEnable,
                encoding: MaxwellThreeDFieldEncoding::Boolean,
                name: "SET_TWO_SIDED_STENCIL_TEST",
                refused_as: "SET_TWO_SIDED_STENCIL_TEST",
                reason: "expected boolean 0 or 1",
            },
        ),
        0x1384 => Some(
            MaxwellThreeDFixedFunctionField {
                register: MaxwellThreeDFixedFunctionRegister::FrontStencilFail,
                encoding: MaxwellThreeDFieldEncoding::StencilOp,
                name: "SET_STENCIL_OP",
                refused_as: "SET_STENCIL_OP",
                reason: "unknown stencil operation",
            },
        ),
        0x1388 => Some(
            MaxwellThreeDFixedFunctionField {
                register: MaxwellThreeDFixedFunctionRegister::FrontStencilDepthFail,
                encoding: MaxwellThreeDFieldEncoding::StencilOp,
                name: "SET_STENCIL_OP",
                refused_as: "SET_STENCIL_OP",
                reason: "unknown stencil operation",
            },
        ),
        0x138c => Some(
            MaxwellThreeDFixedFunctionField {
                register: MaxwellThreeDFixedFunctionRegister::FrontStencilPass,
                encoding: MaxwellThreeDFieldEncoding::StencilOp,
                name: "SET_STENCIL_OP",
                refused_as: "SET_STENCIL_OP",
                reason: "unknown stencil operation",
            },
        ),
        0x1598 => Some(
            MaxwellThreeDFixedFunctionField {
                register: MaxwellThreeDFixedFunctionRegister::BackStencilFail,
                encoding: MaxwellThreeDFieldEncoding::StencilOp,
                name: "SET_STENCIL_OP",
                refused_as: "SET_STENCIL_OP",
                reason: "unknown stencil operation",
            },
        ),
        0x159c => Some(
            MaxwellThreeDFixedFunctionField {
                register: MaxwellThreeDFixedFunctionRegister::BackStencilDepthFail,
                encoding: MaxwellThreeDFieldEncoding::StencilOp,
                name: "SET_STENCIL_OP",
                refused_as: "SET_STENCIL_OP",
                reason: "unknown stencil operation",
            },
        ),
        0x15a0 => Some(
            MaxwellThreeDFixedFunctionField {
                register: MaxwellThreeDFixedFunctionRegister::BackStencilPass,
                encoding: MaxwellThreeDFieldEncoding::StencilOp,
                name: "SET_STENCIL_OP",
                refused_as: "SET_STENCIL_OP",
                reason: "unknown stencil operation",
            },
        ),
        0x1390 => Some(
            MaxwellThreeDFixedFunctionField {
                register: MaxwellThreeDFixedFunctionRegister::FrontStencilCompare,
                encoding: MaxwellThreeDFieldEncoding::Compare,
                name: "SET_STENCIL_FUNC",
                refused_as: "SET_STENCIL_FUNC",
                reason: "unknown compare operation",
            },
        ),
        0x15a4 => Some(
            MaxwellThreeDFixedFunctionField {
                register: MaxwellThreeDFixedFunctionRegister::BackStencilCompare,
                encoding: MaxwellThreeDFieldEncoding::Compare,
                name: "SET_STENCIL_FUNC",
                refused_as: "SET_STENCIL_FUNC",
                reason: "unknown compare operation",
            },
        ),
        0x1394 => Some(
            MaxwellThreeDFixedFunctionField {
                register: MaxwellThreeDFixedFunctionRegister::FrontStencilReference,
                encoding: MaxwellThreeDFieldEncoding::Bits(0xff),
                name: "SET_STENCIL_MASK_OR_REFERENCE",
                refused_as: "SET_STENCIL_MASK_OR_REFERENCE",
                reason: "reserved bits are set",
            },
        ),
        0x1398 => Some(
            MaxwellThreeDFixedFunctionField {
                register: MaxwellThreeDFixedFunctionRegister::FrontStencilCompareMask,
                encoding: MaxwellThreeDFieldEncoding::Bits(0xff),
                name: "SET_STENCIL_MASK_OR_REFERENCE",
                refused_as: "SET_STENCIL_MASK_OR_REFERENCE",
                reason: "reserved bits are set",
            },
        ),
        0x139c => Some(
            MaxwellThreeDFixedFunctionField {
                register: MaxwellThreeDFixedFunctionRegister::FrontStencilWriteMask,
                encoding: MaxwellThreeDFieldEncoding::Bits(0xff),
                name: "SET_STENCIL_MASK_OR_REFERENCE",
                refused_as: "SET_STENCIL_MASK_OR_REFERENCE",
                reason: "reserved bits are set",
            },
        ),
        0x13a8 => Some(
            MaxwellThreeDFixedFunctionField {
                register: MaxwellThreeDFixedFunctionRegister::PixelShaderSaturate,
                encoding: MaxwellThreeDFieldEncoding::PixelShaderSaturate,
                name: "SET_PS_SATURATE",
                refused_as: "SET_PS_SATURATE",
                reason: "reserved output bits are set",
            },
        ),
        0x13ac => Some(
            MaxwellThreeDFixedFunctionField {
                register: MaxwellThreeDFixedFunctionRegister::WindowOrigin,
                encoding: MaxwellThreeDFieldEncoding::Bits(0x11),
                name: "SET_WINDOW_ORIGIN",
                refused_as: "SET_WINDOW_ORIGIN",
                reason: "reserved bits are set",
            },
        ),
        0x13b0 => Some(
            MaxwellThreeDFixedFunctionField {
                register: MaxwellThreeDFixedFunctionRegister::LineWidth,
                encoding: MaxwellThreeDFieldEncoding::FloatBits,
                name: "SET_LINE_WIDTH_FLOAT",
                refused_as: "SET_LINE_WIDTH_FLOAT",
                reason: "every word is defined",
            },
        ),
        0x1510 => Some(
            MaxwellThreeDFixedFunctionField {
                register: MaxwellThreeDFixedFunctionRegister::UserClipEnable,
                encoding: MaxwellThreeDFieldEncoding::Bits(0xff),
                name: "SET_USER_CLIP_ENABLE",
                refused_as: "SET_USER_CLIP_ENABLE",
                reason: "reserved clip-plane bits are set",
            },
        ),
        0x1534 => Some(
            MaxwellThreeDFixedFunctionField {
                register: MaxwellThreeDFixedFunctionRegister::AntiAliasEnable,
                encoding: MaxwellThreeDFieldEncoding::Boolean,
                name: "SET_ANTI_ALIAS_ENABLE",
                refused_as: "SET_ANTI_ALIAS_ENABLE",
                reason: "expected boolean 0 or 1",
            },
        ),
        0x153c => Some(
            MaxwellThreeDFixedFunctionField {
                register: MaxwellThreeDFixedFunctionRegister::AlphaToCoverageEnable,
                encoding: MaxwellThreeDFieldEncoding::AlphaControl,
                name: "SET_ANTI_ALIAS_ALPHA_CONTROL",
                refused_as: "SET_ANTI_ALIAS_ALPHA_CONTROL",
                reason: "reserved bits are set",
            },
        ),
        0x15d0 => Some(
            MaxwellThreeDFixedFunctionField {
                register: MaxwellThreeDFixedFunctionRegister::SampleMode,
                encoding: MaxwellThreeDFieldEncoding::SampleMode,
                name: "SET_ANTI_ALIAS",
                refused_as: "SET_ANTI_ALIAS",
                reason: "unknown sample encoding",
            },
        ),
        0x1684 => Some(
            MaxwellThreeDFixedFunctionField {
                register: MaxwellThreeDFixedFunctionRegister::ProvokingVertex,
                encoding: MaxwellThreeDFieldEncoding::ProvokingVertex,
                name: "SET_PROVOKING_VERTEX",
                refused_as: "SET_PROVOKING_VERTEX",
                reason: "expected FIRST or LAST",
            },
        ),
        0x1688 => Some(
            MaxwellThreeDFixedFunctionField {
                register: MaxwellThreeDFixedFunctionRegister::TwoSidedLightEnable,
                encoding: MaxwellThreeDFieldEncoding::Boolean,
                name: "SET_TWO_SIDED_LIGHT",
                refused_as: "SET_TWO_SIDED_LIGHT",
                reason: "expected boolean 0 or 1",
            },
        ),
        0x1918 => Some(
            MaxwellThreeDFixedFunctionField {
                register: MaxwellThreeDFixedFunctionRegister::CullEnable,
                encoding: MaxwellThreeDFieldEncoding::Boolean,
                name: "OGL_SET_CULL",
                refused_as: "OGL_SET_CULL",
                reason: "expected boolean 0 or 1",
            },
        ),
        0x191c => Some(
            MaxwellThreeDFixedFunctionField {
                register: MaxwellThreeDFixedFunctionRegister::FrontFace,
                encoding: MaxwellThreeDFieldEncoding::FrontFace,
                name: "OGL_SET_FRONT_FACE",
                refused_as: "OGL_SET_FRONT_FACE",
                reason: "unknown winding",
            },
        ),
        0x1920 => Some(
            MaxwellThreeDFixedFunctionField {
                register: MaxwellThreeDFixedFunctionRegister::CullFace,
                encoding: MaxwellThreeDFieldEncoding::CullFace,
                name: "OGL_SET_CULL_FACE",
                refused_as: "OGL_SET_CULL_FACE",
                reason: "unknown cull face",
            },
        ),
        0x192c => Some(
            MaxwellThreeDFixedFunctionField {
                register: MaxwellThreeDFixedFunctionRegister::ViewportScaleOffsetEnable,
                encoding: MaxwellThreeDFieldEncoding::ViewportScaleOffsetEnable,
                name: "SET_VIEWPORT_SCALE_OFFSET",
                refused_as: "SET_VIEWPORT_SCALE_OFFSET",
                reason: "expected boolean 0 or 1",
            },
        ),
        0x193c => Some(
            MaxwellThreeDFixedFunctionField {
                register: MaxwellThreeDFixedFunctionRegister::ViewportClipControl,
                encoding: MaxwellThreeDFieldEncoding::ClipControl,
                name: "SET_VIEWPORT_CLIP_CONTROL",
                refused_as: "SET_VIEWPORT_CLIP_CONTROL",
                reason: "invalid clip-control fields",
            },
        ),
        0x1940 => Some(
            MaxwellThreeDFixedFunctionField {
                register: MaxwellThreeDFixedFunctionRegister::UserClipOperation,
                encoding: MaxwellThreeDFieldEncoding::Bits(0x1111_1111),
                name: "SET_USER_CLIP_OP",
                refused_as: "SET_USER_CLIP_OP",
                reason: "reserved clip operation bits are set",
            },
        ),
        0x194c => Some(
            MaxwellThreeDFixedFunctionField {
                register: MaxwellThreeDFixedFunctionRegister::WindowClipEnable,
                encoding: MaxwellThreeDFieldEncoding::Boolean,
                name: "SET_WINDOW_CLIP_ENABLE",
                refused_as: "SET_WINDOW_CLIP_ENABLE",
                reason: "expected boolean 0 or 1",
            },
        ),
        0x1950 => Some(
            MaxwellThreeDFixedFunctionField {
                register: MaxwellThreeDFixedFunctionRegister::WindowClipType,
                encoding: MaxwellThreeDFieldEncoding::WindowClipType,
                name: "SET_WINDOW_CLIP_TYPE",
                refused_as: "SET_WINDOW_CLIP_TYPE",
                reason: "unknown window clip type",
            },
        ),
        0x197c => Some(
            MaxwellThreeDFixedFunctionField {
                register: MaxwellThreeDFixedFunctionRegister::ClipIdTestEnable,
                encoding: MaxwellThreeDFieldEncoding::ClipIdTestEnable,
                name: "SET_CLIP_ID_TEST",
                refused_as: "SET_CLIP_ID_TEST",
                reason: "expected boolean 0 or 1",
            },
        ),
        0x19bc => Some(
            MaxwellThreeDFixedFunctionField {
                register: MaxwellThreeDFixedFunctionRegister::DepthBoundsEnable,
                encoding: MaxwellThreeDFieldEncoding::Boolean,
                name: "SET_DEPTH_BOUNDS_TEST",
                refused_as: "SET_DEPTH_BOUNDS_TEST",
                reason: "expected boolean 0 or 1",
            },
        ),
        0x19c4 => Some(
            MaxwellThreeDFixedFunctionField {
                register: MaxwellThreeDFixedFunctionRegister::LogicOpEnable,
                encoding: MaxwellThreeDFieldEncoding::Boolean,
                name: "SET_LOGIC_OP",
                refused_as: "SET_LOGIC_OP",
                reason: "expected boolean 0 or 1",
            },
        ),
        0x19c8 => Some(
            MaxwellThreeDFixedFunctionField {
                register: MaxwellThreeDFixedFunctionRegister::LogicOpFunction,
                encoding: MaxwellThreeDFieldEncoding::LogicOp,
                name: "SET_LOGIC_OP_FUNC",
                refused_as: "SET_LOGIC_OP_FUNC",
                reason: "unknown logic operation",
            },
        ),
        0x2600 => Some(
            MaxwellThreeDFixedFunctionField {
                register: MaxwellThreeDFixedFunctionRegister::ColorClampEnable,
                encoding: MaxwellThreeDFieldEncoding::Boolean,
                name: "SET_COLOR_CLAMP",
                refused_as: "SET_COLOR_CLAMP",
                reason: "expected boolean 0 or 1",
            },
        ),
        _ => None,
    }
}

#[verifier::when_used_as_spec(spec_fixed_function_field)]
pub fn fixed_function_field(method: u32) -> (r: Option<MaxwellThreeDFixedFunctionField>)
    ensures
        r == spec_fixed_function_field(method),
{
    match method {
        0x037c => Some(
            MaxwellThreeDFixedFunctionField {
                register: MaxwellThreeDFixedFunctionRegister::RasterEnable,
                encoding: MaxwellThreeDFieldEncoding::Boolean,
                name: "SET_RASTER_ENABLE",
                refused_as: "SET_RASTER_ENABLE",
                reason: "expected boolean 0 or 1",
            },
        ),
        0x0dac => Some(
            MaxwellThreeDFixedFunctionField {
                register: MaxwellThreeDFixedFunctionRegister::FrontPolygonMode,
                encoding: MaxwellThreeDFieldEncoding::PolygonMode,
                name: "SET_FRONT_POLYGON_MODE",
                refused_as: "SET_FRONT_POLYGON_MODE",
                reason: "unknown polygon mode",
            },
        ),
        0x0db0 => Some(
            MaxwellThreeDFixedFunctionField {
                register: MaxwellThreeDFixedFunctionRegister::BackPolygonMode,
                encoding: MaxwellThreeDFieldEncoding::PolygonMode,
                name: "SET_BACK_POLYGON_MODE",
                refused_as: "SET_BACK_POLYGON_MODE",
                reason: "unknown polygon mode",
            },
        ),
        0x0dc0 => Some(
            MaxwellThreeDFixedFunctionField {
                register: MaxwellThreeDFixedFunctionRegister::PolygonOffsetPointEnable,
                encoding: MaxwellThreeDFieldEncoding::Boolean,
                name: "SET_POLY_OFFSET",
                refused_as: "SET_POLY_OFFSET",
                reason: "expected boolean 0 or 1",
            },
        ),
        0x0dc4 => Some(
            MaxwellThreeDFixedFunctionField {
                register: MaxwellThreeDFixedFunctionRegister::PolygonOffsetLineEnable,
                encoding: MaxwellThreeDFieldEncoding::Boolean,
                name: "SET_POLY_OFFSET",
                refused_as: "SET_POLY_OFFSET",
                reason: "expected boolean 0 or 1",
            },
        ),
        0x0dc8 => Some(
            MaxwellThreeDFixedFunctionField {
                register: MaxwellThreeDFixedFunctionRegister::PolygonOffsetFillEnable,
                encoding: MaxwellThreeDFieldEncoding::Boolean,
                name: "SET_POLY_OFFSET",
                refused_as: "SET_POLY_OFFSET",
                reason: "expected boolean 0 or 1",
            },
        ),
        0x0df8 => Some(
            MaxwellThreeDFixedFunctionField {
                register: MaxwellThreeDFixedFunctionRegister::WindowOffsetX,
                encoding: MaxwellThreeDFieldEncoding::Bits(0x1ffff),
                name: "SET_WINDOW_OFFSET_X",
                refused_as: "SET_WINDOW_OFFSET",
                reason: "reserved bits are set",
            },
        ),
        0x0dfc => Some(
            MaxwellThreeDFixedFunctionField {
                register: MaxwellThreeDFixedFunctionRegister::WindowOffsetY,
                encoding: MaxwellThreeDFieldEncoding::Bits(0x3ffff),
                name: "SET_WINDOW_OFFSET_Y",
                refused_as: "SET_WINDOW_OFFSET",
                reason: "reserved bits are set",
            },
        ),
        0x0f54 => Some(
            MaxwellThreeDFixedFunctionField {
                register: MaxwellThreeDFixedFunctionRegister::BackStencilReference,
                encoding: MaxwellThreeDFieldEncoding::Bits(0xff),
                name: "SET_BACK_STENCIL_MASK_OR_REFERENCE",
                refused_as: "SET_BACK_STENCIL_MASK_OR_REFERENCE",
                reason: "reserved bits are set",
            },
        ),
        0x0f58 => Some(
            MaxwellThreeDFixedFunctionField {
                register: MaxwellThreeDFixedFunctionRegister::BackStencilWriteMask,
                encoding: MaxwellThreeDFieldEncoding::Bits(0xff),
                name: "SET_BACK_STENCIL_MASK_OR_REFERENCE",
                refused_as: "SET_BACK_STENCIL_MASK_OR_REFERENCE",
                reason: "reserved bits are set",
            },
        ),
        0x0f5c => Some(
            MaxwellThreeDFixedFunctionField {
                register: MaxwellThreeDFixedFunctionRegister::BackStencilCompareMask,
                encoding: MaxwellThreeDFieldEncoding::Bits(0xff),
                name: "SET_BACK_STENCIL_MASK_OR_REFERENCE",
                refused_as: "SET_BACK_STENCIL_MASK_OR_REFERENCE",
                reason: "reserved bits are set",
            },
        ),
        0x0f90 => Some(
            MaxwellThreeDFixedFunctionField {
                register: MaxwellThreeDFixedFunctionRegister::SingleColorTargetWriteControl,
                encoding: MaxwellThreeDFieldEncoding::Boolean,
                name: "SET_SINGLE_CT_WRITE_CONTROL",
                refused_as: "SET_SINGLE_CT_WRITE_CONTROL",
                reason: "expected boolean 0 or 1",
            },
        ),
        0x0f9c => Some(
            MaxwellThreeDFixedFunctionField {
                register: MaxwellThreeDFixedFunctionRegister::DepthBoundsMin,
                encoding: MaxwellThreeDFieldEncoding::FloatBits,
                name: "SET_DEPTH_BOUNDS_MIN",
                refused_as: "SET_DEPTH_BOUNDS_MIN",
                reason: "every word is defined",
            },
        ),
        0x0fa0 => Some(
            MaxwellThreeDFixedFunctionField {
                register: MaxwellThreeDFixedFunctionRegister::DepthBoundsMax,
                encoding: MaxwellThreeDFieldEncoding::FloatBits,
                name: "SET_DEPTH_BOUNDS_MAX",
                refused_as: "SET_DEPTH_BOUNDS_MAX",
                reason: "every word is defined",
            },
        ),
        0x0fa4 => Some(
            MaxwellThreeDFixedFunctionField {
                register: MaxwellThreeDFixedFunctionRegister::SampleMaskControl,
                encoding: MaxwellThreeDFieldEncoding::Bits(0x11),
                name: "SET_SAMPLE_MASK",
                refused_as: "SET_SAMPLE_MASK",
                reason: "reserved bits are set",
            },
        ),
        0x0fb8 => Some(
            MaxwellThreeDFixedFunctionField {
                register: MaxwellThreeDFixedFunctionRegister::RasterSampleMode,
                encoding: MaxwellThreeDFieldEncoding::RasterSampleMode,
                name: "SET_ANTI_ALIAS_RASTER",
                refused_as: "SET_ANTI_ALIAS_RASTER",
                reason: "unsupported raster sample encoding",
            },
        ),
        0x12cc => Some(
            MaxwellThreeDFixedFunctionField {
                register: MaxwellThreeDFixedFunctionRegister::DepthTestEnable,
                encoding: MaxwellThreeDFieldEncoding::Boolean,
                name: "SET_DEPTH_TEST",
                refused_as: "SET_DEPTH_TEST",
                reason: "expected boolean 0 or 1",
            },
        ),
        0x12d4 => Some(
            MaxwellThreeDFixedFunctionField {
                register: MaxwellThreeDFixedFunctionRegister::ShadeMode,
                encoding: MaxwellThreeDFieldEncoding::ShadeMode,
                name: "SET_SHADE_MODE",
                refused_as: "SET_SHADE_MODE",
                reason: "unknown shade mode",
            },
        ),
        0x12e4 => Some(
            MaxwellThreeDFixedFunctionField {
                register: MaxwellThreeDFixedFunctionRegister::BlendPerTargetEnable,
                encoding: MaxwellThreeDFieldEncoding::Boolean,
                name: "SET_BLEND_STATE_PER_TARGET",
                refused_as: "SET_BLEND_STATE_PER_TARGET",
                reason: "expected boolean 0 or 1",
            },
        ),
        0x12e8 => Some(
            MaxwellThreeDFixedFunctionField {
                register: MaxwellThreeDFixedFunctionRegister::DepthWriteEnable,
                encoding: MaxwellThreeDFieldEncoding::Boolean,
                name: "SET_DEPTH_WRITE",
                refused_as: "SET_DEPTH_WRITE",
                reason: "expected boolean 0 or 1",
            },
        ),
        0x12ec => Some(
            MaxwellThreeDFixedFunctionField {
                register: MaxwellThreeDFixedFunctionRegister::AlphaTestEnable,
                encoding: MaxwellThreeDFieldEncoding::Boolean,
                name: "SET_ALPHA_TEST",
                refused_as: "SET_ALPHA_TEST",
                reason: "expected boolean 0 or 1",
            },
        ),
        0x130c => Some(
            MaxwellThreeDFixedFunctionField {
                register: MaxwellThreeDFixedFunctionRegister::DepthCompare,
                encoding: MaxwellThreeDFieldEncoding::Compare,
                name: "SET_DEPTH_FUNC",
                refused_as: "SET_DEPTH_FUNC",
                reason: "unknown compare operation",
            },
        ),
        0x1310 => Some(
            MaxwellThreeDFixedFunctionField {
                register: MaxwellThreeDFixedFunctionRegister::AlphaTestReference,
                encoding: MaxwellThreeDFieldEncoding::FloatBits,
                name: "SET_ALPHA_REF",
                refused_as: "SET_ALPHA_REF",
                reason: "every word is defined",
            },
        ),
        0x1314 => Some(
            MaxwellThreeDFixedFunctionField {
                register: MaxwellThreeDFixedFunctionRegister::AlphaTestFunction,
                encoding: MaxwellThreeDFieldEncoding::Compare,
                name: "SET_ALPHA_FUNC",
                refused_as: "SET_ALPHA_FUNC",
                reason: "unknown compare operation",
            },
        ),
        0x131c => Some(
            MaxwellThreeDFixedFunctionField {
                register: MaxwellThreeDFixedFunctionRegister::BlendConstantRed,
                encoding: MaxwellThreeDFieldEncoding::FloatBits,
                name: "SET_BLEND_CONST",
                refused_as: "SET_BLEND_CONST",
                reason: "every word is defined",
            },
        ),
        0x1320 => Some(
            MaxwellThreeDFixedFunctionField {
                register: MaxwellThreeDFixedFunctionRegister::BlendConstantGreen,
                encoding: MaxwellThreeDFieldEncoding::FloatBits,
                name: "SET_BLEND_CONST",
                refused_as: "SET_BLEND_CONST",
                reason: "every word is defined",
            },
        ),
        0x1324 => Some(
            MaxwellThreeDFixedFunctionField {
                register: MaxwellThreeDFixedFunctionRegister::BlendConstantBlue,
                encoding: MaxwellThreeDFieldEncoding::FloatBits,
                name: "SET_BLEND_CONST",
                refused_as: "SET_BLEND_CONST",
                reason: "every word is defined",
            },
        ),
        0x1328 => Some(
            MaxwellThreeDFixedFunctionField {
                register: MaxwellThreeDFixedFunctionRegister::BlendConstantAlpha,
                encoding: MaxwellThreeDFieldEncoding::FloatBits,
                name: "SET_BLEND_CONST",
                refused_as: "SET_BLEND_CONST",
                reason: "every word is defined",
            },
        ),
        0x133c => Some(
            MaxwellThreeDFixedFunctionField {
                register: MaxwellThreeDFixedFunctionRegister::BlendSeparateAlpha,
                encoding: MaxwellThreeDFieldEncoding::Boolean,
                name: "SET_BLEND_SEPARATE_FOR_ALPHA",
                refused_as: "SET_BLEND_SEPARATE_FOR_ALPHA",
                reason: "expected boolean 0 or 1",
            },
        ),
        0x1340 => Some(
            MaxwellThreeDFixedFunctionField {
                register: MaxwellThreeDFixedFunctionRegister::BlendColorOp,
                encoding: MaxwellThreeDFieldEncoding::BlendOp,
                name: "SET_BLEND_OP",
                refused_as: "SET_BLEND_OP",
                reason: "unknown blend operation",
            },
        ),
        0x134c => Some(
            MaxwellThreeDFixedFunctionField {
                register: MaxwellThreeDFixedFunctionRegister::BlendAlphaOp,
                encoding: MaxwellThreeDFieldEncoding::BlendOp,
                name: "SET_BLEND_OP",
                refused_as: "SET_BLEND_OP",
                reason: "unknown blend operation",
            },
        ),
        0x1344 => Some(
            MaxwellThreeDFixedFunctionField {
                register: MaxwellThreeDFixedFunctionRegister::BlendColorSource,
                encoding: MaxwellThreeDFieldEncoding::BlendFactor,
                name: "SET_BLEND_COEFF",
                refused_as: "SET_BLEND_COEFF",
                reason: "unknown blend coefficient",
            },
        ),
        0x1348 => Some(
            MaxwellThreeDFixedFunctionField {
                register: MaxwellThreeDFixedFunctionRegister::BlendColorDestination,
                encoding: MaxwellThreeDFieldEncoding::BlendFactor,
                name: "SET_BLEND_COEFF",
                refused_as: "SET_BLEND_COEFF",
                reason: "unknown blend coefficient",
            },
        ),
        0x1350 => Some(
            MaxwellThreeDFixedFunctionField {
                register: MaxwellThreeDFixedFunctionRegister::BlendAlphaSource,
                encoding: MaxwellThreeDFieldEncoding::BlendFactor,
                name: "SET_BLEND_COEFF",
                refused_as: "SET_BLEND_COEFF",
                reason: "unknown blend coefficient",
            },
        ),
        0x1358 => Some(
            MaxwellThreeDFixedFunctionField {
                register: MaxwellThreeDFixedFunctionRegister::BlendAlphaDestination,
                encoding: MaxwellThreeDFieldEncoding::BlendFactor,
                name: "SET_BLEND_COEFF",
                refused_as: "SET_BLEND_COEFF",
                reason: "unknown blend coefficient",
            },
        ),
        0x1380 => Some(
            MaxwellThreeDFixedFunctionField {
                register: MaxwellThreeDFixedFunctionRegister::StencilTestEnable,
                encoding: MaxwellThreeDFieldEncoding::Boolean,
                name: "SET_STENCIL_TEST",
                refused_as: "SET_STENCIL_TEST",
                reason: "expected boolean 0 or 1",
            },
        ),
        0x1594 => Some(
            MaxwellThreeDFixedFunctionField {
                register: MaxwellThreeDFixedFunctionRegister::TwoSidedStencilTestEnable,
                encoding: MaxwellThreeDFieldEncoding::Boolean,
                name: "SET_TWO_SIDED_STENCIL_TEST",
                refused_as: "SET_TWO_SIDED_STENCIL_TEST",
                reason: "expected boolean 0 or 1",
            },
        ),
        0x1384 => Some(
            MaxwellThreeDFixedFunctionField {
                register: MaxwellThreeDFixedFunctionRegister::FrontStencilFail,
                encoding: MaxwellThreeDFieldEncoding::StencilOp,
                name: "SET_STENCIL_OP",
                refused_as: "SET_STENCIL_OP",
                reason: "unknown stencil operation",
            },
        ),
        0x1388 => Some(
            MaxwellThreeDFixedFunctionField {
                register: MaxwellThreeDFixedFunctionRegister::FrontStencilDepthFail,
                encoding: MaxwellThreeDFieldEncoding::StencilOp,
                name: "SET_STENCIL_OP",
                refused_as: "SET_STENCIL_OP",
                reason: "unknown stencil operation",
            },
        ),
        0x138c => Some(
            MaxwellThreeDFixedFunctionField {
                register: MaxwellThreeDFixedFunctionRegister::FrontStencilPass,
                encoding: MaxwellThreeDFieldEncoding::StencilOp,
                name: "SET_STENCIL_OP",
                refused_as: "SET_STENCIL_OP",
                reason: "unknown stencil operation",
            },
        ),
        0x1598 => Some(
            MaxwellThreeDFixedFunctionField {
                register: MaxwellThreeDFixedFunctionRegister::BackStencilFail,
                encoding: MaxwellThreeDFieldEncoding::StencilOp,
                name: "SET_STENCIL_OP",
                refused_as: "SET_STENCIL_OP",
                reason: "unknown stencil operation",
            },
        ),
        0x159c => Some(
            MaxwellThreeDFixedFunctionField {
                register: MaxwellThreeDFixedFunctionRegister::BackStencilDepthFail,
                encoding: MaxwellThreeDFieldEncoding::StencilOp,
                name: "SET_STENCIL_OP",
                refused_as: "SET_STENCIL_OP",
                reason: "unknown stencil operation",
            },
        ),
        0x15a0 => Some(
            MaxwellThreeDFixedFunctionField {
                register: MaxwellThreeDFixedFunctionRegister::BackStencilPass,
                encoding: MaxwellThreeDFieldEncoding::StencilOp,
                name: "SET_STENCIL_OP",
                refused_as: "SET_STENCIL_OP",
                reason: "unknown stencil operation",
            },
        ),
        0x1390 => Some(
            MaxwellThreeDFixedFunctionField {
                register: MaxwellThreeDFixedFunctionRegister::FrontStencilCompare,
                encoding: MaxwellThreeDFieldEncoding::Compare,
                name: "SET_STENCIL_FUNC",
                refused_as: "SET_STENCIL_FUNC",
                reason: "unknown compare operation",
            },
        ),
        0x15a4 => Some(
            MaxwellThreeDFixedFunctionField {
                register: MaxwellThreeDFixedFunctionRegister::BackStencilCompare,
                encoding: MaxwellThreeDFieldEncoding::Compare,
                name: "SET_STENCIL_FUNC",
                refused_as: "SET_STENCIL_FUNC",
                reason: "unknown compare operation",
            },
        ),
        0x1394 => Some(
            MaxwellThreeDFixedFunctionField {
                register: MaxwellThreeDFixedFunctionRegister::FrontStencilReference,
                encoding: MaxwellThreeDFieldEncoding::Bits(0xff),
                name: "SET_STENCIL_MASK_OR_REFERENCE",
                refused_as: "SET_STENCIL_MASK_OR_REFERENCE",
                reason: "reserved bits are set",
            },
        ),
        0x1398 => Some(
            MaxwellThreeDFixedFunctionField {
                register: MaxwellThreeDFixedFunctionRegister::FrontStencilCompareMask,
                encoding: MaxwellThreeDFieldEncoding::Bits(0xff),
                name: "SET_STENCIL_MASK_OR_REFERENCE",
                refused_as: "SET_STENCIL_MASK_OR_REFERENCE",
                reason: "reserved bits are set",
            },
        ),
        0x139c => Some(
            MaxwellThreeDFixedFunctionField {
                register: MaxwellThreeDFixedFunctionRegister::FrontStencilWriteMask,
                encoding: MaxwellThreeDFieldEncoding::Bits(0xff),
                name: "SET_STENCIL_MASK_OR_REFERENCE",
                refused_as: "SET_STENCIL_MASK_OR_REFERENCE",
                reason: "reserved bits are set",
            },
        ),
        0x13a8 => Some(
            MaxwellThreeDFixedFunctionField {
                register: MaxwellThreeDFixedFunctionRegister::PixelShaderSaturate,
                encoding: MaxwellThreeDFieldEncoding::PixelShaderSaturate,
                name: "SET_PS_SATURATE",
                refused_as: "SET_PS_SATURATE",
                reason: "reserved output bits are set",
            },
        ),
        0x13ac => Some(
            MaxwellThreeDFixedFunctionField {
                register: MaxwellThreeDFixedFunctionRegister::WindowOrigin,
                encoding: MaxwellThreeDFieldEncoding::Bits(0x11),
                name: "SET_WINDOW_ORIGIN",
                refused_as: "SET_WINDOW_ORIGIN",
                reason: "reserved bits are set",
            },
        ),
        0x13b0 => Some(
            MaxwellThreeDFixedFunctionField {
                register: MaxwellThreeDFixedFunctionRegister::LineWidth,
                encoding: MaxwellThreeDFieldEncoding::FloatBits,
                name: "SET_LINE_WIDTH_FLOAT",
                refused_as: "SET_LINE_WIDTH_FLOAT",
                reason: "every word is defined",
            },
        ),
        0x1510 => Some(
            MaxwellThreeDFixedFunctionField {
                register: MaxwellThreeDFixedFunctionRegister::UserClipEnable,
                encoding: MaxwellThreeDFieldEncoding::Bits(0xff),
                name: "SET_USER_CLIP_ENABLE",
                refused_as: "SET_USER_CLIP_ENABLE",
                reason: "reserved clip-plane bits are set",
            },
        ),
        0x1534 => Some(
            MaxwellThreeDFixedFunctionField {
                register: MaxwellThreeDFixedFunctionRegister::AntiAliasEnable,
                encoding: MaxwellThreeDFieldEncoding::Boolean,
                name: "SET_ANTI_ALIAS_ENABLE",
                refused_as: "SET_ANTI_ALIAS_ENABLE",
                reason: "expected boolean 0 or 1",
            },
        ),
        0x153c => Some(
            MaxwellThreeDFixedFunctionField {
                register: MaxwellThreeDFixedFunctionRegister::AlphaToCoverageEnable,
                encoding: MaxwellThreeDFieldEncoding::AlphaControl,
                name: "SET_ANTI_ALIAS_ALPHA_CONTROL",
                refused_as: "SET_ANTI_ALIAS_ALPHA_CONTROL",
                reason: "reserved bits are set",
            },
        ),
        0x15d0 => Some(
            MaxwellThreeDFixedFunctionField {
                register: MaxwellThreeDFixedFunctionRegister::SampleMode,
                encoding: MaxwellThreeDFieldEncoding::SampleMode,
                name: "SET_ANTI_ALIAS",
                refused_as: "SET_ANTI_ALIAS",
                reason: "unknown sample encoding",
            },
        ),
        0x1684 => Some(
            MaxwellThreeDFixedFunctionField {
                register: MaxwellThreeDFixedFunctionRegister::ProvokingVertex,
                encoding: MaxwellThreeDFieldEncoding::ProvokingVertex,
                name: "SET_PROVOKING_VERTEX",
                refused_as: "SET_PROVOKING_VERTEX",
                reason: "expected FIRST or LAST",
            },
        ),
        0x1688 => Some(
            MaxwellThreeDFixedFunctionField {
                register: MaxwellThreeDFixedFunctionRegister::TwoSidedLightEnable,
                encoding: MaxwellThreeDFieldEncoding::Boolean,
                name: "SET_TWO_SIDED_LIGHT",
                refused_as: "SET_TWO_SIDED_LIGHT",
                reason: "expected boolean 0 or 1",
            },
        ),
        0x1918 => Some(
            MaxwellThreeDFixedFunctionField {
                register: MaxwellThreeDFixedFunctionRegister::CullEnable,
                encoding: MaxwellThreeDFieldEncoding::Boolean,
                name: "OGL_SET_CULL",
                refused_as: "OGL_SET_CULL",
                reason: "expected boolean 0 or 1",
            },
        ),
        0x191c => Some(
            MaxwellThreeDFixedFunctionField {
                register: MaxwellThreeDFixedFunctionRegister::FrontFace,
                encoding: MaxwellThreeDFieldEncoding::FrontFace,
                name: "OGL_SET_FRONT_FACE",
                refused_as: "OGL_SET_FRONT_FACE",
                reason: "unknown winding",
            },
        ),
        0x1920 => Some(
            MaxwellThreeDFixedFunctionField {
                register: MaxwellThreeDFixedFunctionRegister::CullFace,
                encoding: MaxwellThreeDFieldEncoding::CullFace,
                name: "OGL_SET_CULL_FACE",
                refused_as: "OGL_SET_CULL_FACE",
                reason: "unknown cull face",
            },
        ),
        0x192c => Some(
            MaxwellThreeDFixedFunctionField {
                register: MaxwellThreeDFixedFunctionRegister::ViewportScaleOffsetEnable,
                encoding: MaxwellThreeDFieldEncoding::ViewportScaleOffsetEnable,
                name: "SET_VIEWPORT_SCALE_OFFSET",
                refused_as: "SET_VIEWPORT_SCALE_OFFSET",
                reason: "expected boolean 0 or 1",
            },
        ),
        0x193c => Some(
            MaxwellThreeDFixedFunctionField {
                register: MaxwellThreeDFixedFunctionRegister::ViewportClipControl,
                encoding: MaxwellThreeDFieldEncoding::ClipControl,
                name: "SET_VIEWPORT_CLIP_CONTROL",
                refused_as: "SET_VIEWPORT_CLIP_CONTROL",
                reason: "invalid clip-control fields",
            },
        ),
        0x1940 => Some(
            MaxwellThreeDFixedFunctionField {
                register: MaxwellThreeDFixedFunctionRegister::UserClipOperation,
                encoding: MaxwellThreeDFieldEncoding::Bits(0x1111_1111),
                name: "SET_USER_CLIP_OP",
                refused_as: "SET_USER_CLIP_OP",
                reason: "reserved clip operation bits are set",
            },
        ),
        0x194c => Some(
            MaxwellThreeDFixedFunctionField {
                register: MaxwellThreeDFixedFunctionRegister::WindowClipEnable,
                encoding: MaxwellThreeDFieldEncoding::Boolean,
                name: "SET_WINDOW_CLIP_ENABLE",
                refused_as: "SET_WINDOW_CLIP_ENABLE",
                reason: "expected boolean 0 or 1",
            },
        ),
        0x1950 => Some(
            MaxwellThreeDFixedFunctionField {
                register: MaxwellThreeDFixedFunctionRegister::WindowClipType,
                encoding: MaxwellThreeDFieldEncoding::WindowClipType,
                name: "SET_WINDOW_CLIP_TYPE",
                refused_as: "SET_WINDOW_CLIP_TYPE",
                reason: "unknown window clip type",
            },
        ),
        0x197c => Some(
            MaxwellThreeDFixedFunctionField {
                register: MaxwellThreeDFixedFunctionRegister::ClipIdTestEnable,
                encoding: MaxwellThreeDFieldEncoding::ClipIdTestEnable,
                name: "SET_CLIP_ID_TEST",
                refused_as: "SET_CLIP_ID_TEST",
                reason: "expected boolean 0 or 1",
            },
        ),
        0x19bc => Some(
            MaxwellThreeDFixedFunctionField {
                register: MaxwellThreeDFixedFunctionRegister::DepthBoundsEnable,
                encoding: MaxwellThreeDFieldEncoding::Boolean,
                name: "SET_DEPTH_BOUNDS_TEST",
                refused_as: "SET_DEPTH_BOUNDS_TEST",
                reason: "expected boolean 0 or 1",
            },
        ),
        0x19c4 => Some(
            MaxwellThreeDFixedFunctionField {
                register: MaxwellThreeDFixedFunctionRegister::LogicOpEnable,
                encoding: MaxwellThreeDFieldEncoding::Boolean,
                name: "SET_LOGIC_OP",
                refused_as: "SET_LOGIC_OP",
                reason: "expected boolean 0 or 1",
            },
        ),
        0x19c8 => Some(
            MaxwellThreeDFixedFunctionField {
                register: MaxwellThreeDFixedFunctionRegister::LogicOpFunction,
                encoding: MaxwellThreeDFieldEncoding::LogicOp,
                name: "SET_LOGIC_OP_FUNC",
                refused_as: "SET_LOGIC_OP_FUNC",
                reason: "unknown logic operation",
            },
        ),
        0x2600 => Some(
            MaxwellThreeDFixedFunctionField {
                register: MaxwellThreeDFixedFunctionRegister::ColorClampEnable,
                encoding: MaxwellThreeDFieldEncoding::Boolean,
                name: "SET_COLOR_CLAMP",
                refused_as: "SET_COLOR_CLAMP",
                reason: "expected boolean 0 or 1",
            },
        ),
        _ => None,
    }
}

/// Methods that write one fixed-function register.
pub open spec fn spec_decode_fixed_function(source: MaxwellMethodSource) -> MethodDecode {
    let method = source.method().0;
    let raw = source.argument();
    match fixed_function_field(method) {
        Some(field) => match field.encoding.decode(raw) {
            Some(value) => accepted(
                MaxwellThreeDStateWrite::FixedFunction(
                    MaxwellThreeDFixedFunctionWrite::Register { register: field.register, value, source },
                ),
                field.name,
            ),
            None => refused(source, field.refused_as, field.reason),
        },
        None => Ok(None),
    }
}

#[verifier::when_used_as_spec(spec_decode_fixed_function)]
pub fn decode_fixed_function(source: MaxwellMethodSource) -> (r: MethodDecode)
    ensures
        r == spec_decode_fixed_function(source),
        crate::decode::in_range(r),
{
    let method: u32 = source.method().0;
    let raw: u32 = source.argument();
    match fixed_function_field(method) {
        Some(field) => match field.encoding.decode(raw) {
            Some(value) => accepted(
                MaxwellThreeDStateWrite::FixedFunction(
                    MaxwellThreeDFixedFunctionWrite::Register { register: field.register, value, source },
                ),
                field.name,
            ),
            None => refused(source, field.refused_as, field.reason),
        },
        None => Ok(None),
    }
}

/// Sample masks of the four quadrants; a wider word is not claimed.
pub open spec fn spec_decode_sample_mask(source: MaxwellMethodSource) -> MethodDecode {
    let method = source.method().0;
    let raw = source.argument();
    if method == 0x0fbc && raw <= 0xffff {
        accepted(
            MaxwellThreeDStateWrite::FixedFunction(MaxwellThreeDFixedFunctionWrite::Register { register: MaxwellThreeDFixedFunctionRegister::SampleMask0, value: MaxwellThreeDFixedFunctionValue::Mask(raw), source }),
            "SET_SAMPLE_MASK_QUADRANT",
        )
    } else if method == 0x0fc0 && raw <= 0xffff {
        accepted(
            MaxwellThreeDStateWrite::FixedFunction(MaxwellThreeDFixedFunctionWrite::Register { register: MaxwellThreeDFixedFunctionRegister::SampleMask1, value: MaxwellThreeDFixedFunctionValue::Mask(raw), source }),
            "SET_SAMPLE_MASK_QUADRANT",
        )
    } else if method == 0x0fc4 && raw <= 0xffff {
        accepted(
            MaxwellThreeDStateWrite::FixedFunction(MaxwellThreeDFixedFunctionWrite::Register { register: MaxwellThreeDFixedFunctionRegister::SampleMask2, value: MaxwellThreeDFixedFunctionValue::Mask(raw), source }),
            "SET_SAMPLE_MASK_QUADRANT",
        )
    } else if method == 0x0fc8 && raw <= 0xffff {
        accepted(
            MaxwellThreeDStateWrite::FixedFunction(MaxwellThreeDFixedFunctionWrite::Register { register: MaxwellThreeDFixedFunctionRegister::SampleMask3, value: MaxwellThreeDFixedFunctionValue::Mask(raw), source }),
            "SET_SAMPLE_MASK_QUADRANT",
        )
    } else {
        Ok(None)
    }
}

#[verifier::when_used_as_spec(spec_decode_sample_mask)]
pub fn decode_sample_mask(source: MaxwellMethodSource) -> (r: MethodDecode)
    ensures
        r == spec_decode_sample_mask(source),
        crate::decode::in_range(r),
{
    let method: u32 = source.method().0;
    let raw: u32 = source.argument();
    if method == 0x0fbc && raw <= 0xffff {
        accepted(
            MaxwellThreeDStateWrite::FixedFunction(MaxwellThreeDFixedFunctionWrite::Register { register: MaxwellThreeDFixedFunctionRegister::SampleMask0, value: MaxwellThreeDFixedFunctionValue::Mask(raw), source }),
            "SET_SAMPLE_MASK_QUADRANT",
        )
    } else if method == 0x0fc0 && raw <= 0xffff {
        accepted(
            MaxwellThreeDStateWrite::FixedFunction(MaxwellThreeDFixedFunctionWrite::Register { register: MaxwellThreeDFixedFunctionRegister::SampleMask1, value: MaxwellThreeDFixedFunctionValue::Mask(raw), source }),
            "SET_SAMPLE_MASK_QUADRANT",
        )
    } else if method == 0x0fc4 && raw <= 0xffff {
        accepted(
            MaxwellThreeDStateWrite::FixedFunction(MaxwellThreeDFixedFunctionWrite::Register { register: MaxwellThreeDFixedFunctionRegister::SampleMask2, value: MaxwellThreeDFixedFunctionValue::Mask(raw), source }),
            "SET_SAMPLE_MASK_QUADRANT",
        )
    } else if method == 0x0fc8 && raw <= 0xffff {
        accepted(
            MaxwellThreeDStateWrite::FixedFunction(MaxwellThreeDFixedFunctionWrite::Register { register: MaxwellThreeDFixedFunctionRegister::SampleMask3, value: MaxwellThreeDFixedFunctionValue::Mask(raw), source }),
            "SET_SAMPLE_MASK_QUADRANT",
        )
    } else {
        Ok(None)
    }
}

/// Outcome of offering a method to the output families, in order.
pub open spec fn spec_preflight_output_state(
    profile: &MaxwellGpuProfile,
    source: MaxwellMethodSource,
) -> MethodDecode {
    crate::decode::or_else(
        decode_line(source),
        crate::decode::or_else(
            decode_raster(profile, source),
            crate::decode::or_else(
                decode_color_target(profile, source),
                crate::decode::or_else(
                    decode_render_target(profile, source),
                    crate::decode::or_else(
                        decode_viewport(source),
                        crate::decode::or_else(
                            decode_blend_target(source),
                            crate::decode::or_else(
                                decode_sample_mask(source),
                                decode_fixed_function(source),
                            ),
                        ),
                    ),
                ),
            ),
        ),
    )
}

/// Decodes one output method.
pub fn preflight_output_state(profile: &MaxwellGpuProfile, source: MaxwellMethodSource) -> (r:
    MethodDecode)
    ensures
        r == spec_preflight_output_state(profile, source),
        crate::decode::in_range(r),
{
    match decode_line(source) {
        Ok(None) => {},
        decided => return decided,
    }
    match decode_raster(profile, source) {
        Ok(None) => {},
        decided => return decided,
    }
    match decode_color_target(profile, source) {
        Ok(None) => {},
        decided => return decided,
    }
    match decode_render_target(profile, source) {
        Ok(None) => {},
        decided => return decided,
    }
    match decode_viewport(source) {
        Ok(None) => {},
        decided => return decided,
    }
    match decode_blend_target(source) {
        Ok(None) => {},
        decided => return decided,
    }
    match decode_sample_mask(source) {
        Ok(None) => {},
        decided => return decided,
    }
    decode_fixed_function(source)
}

} // verus!
