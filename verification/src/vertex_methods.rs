//! Decoding of the vertex-input and shader-binding methods.

use vstd::prelude::*;
use crate::bindings::{MaxwellThreeDConstantBufferSelectorState, MaxwellThreeDSamplerBindingMode, MaxwellThreeDShaderBindingWrite, MaxwellThreeDShaderStage, MaxwellThreeDTessellationLod};
use crate::decode::{accepted, refused, MethodDecode};
use crate::dispatch_error::checked_bool;
use crate::profile::{MaxwellGpuProfile, MaxwellThreeDEncodedField};
use crate::raster::{MaxwellSpaVersion, MaxwellThreeDRasterStateWrite};
use crate::register::MaxwellMethodSource;
use crate::state::MaxwellThreeDStateWrite;
use crate::vertex::{MaxwellThreeDAttributeDefaults, MaxwellThreeDBalancedPrimitiveWorkload, MaxwellThreeDBegin, MaxwellThreeDIndexElementSize, MaxwellThreeDPatchSize, MaxwellThreeDPrimitiveCircularBufferThrottle, MaxwellThreeDPrimitiveTopology, MaxwellThreeDVertexArrayPrimitiveRestartEnable, MaxwellThreeDVertexAttributeFormat, MaxwellThreeDVertexIdUsesArrayStart, MaxwellThreeDVertexInputWrite, MaxwellThreeDVertexStreamFormat};

verus! {

/// Methods of the vertex attributes and vertex streams.
pub open spec fn spec_decode_vertex_stream(profile: &MaxwellGpuProfile, source: MaxwellMethodSource) -> MethodDecode {
    let method = source.method().0;
    let raw = source.argument();
    if 0x1160 <= method && method < 0x11e0 && method & 3 == 0 {
        if profile.accepts(MaxwellThreeDEncodedField::VertexAttribute, raw) {
            match MaxwellThreeDVertexAttributeFormat::parse(raw) {
                Some(value) => accepted(
                    MaxwellThreeDStateWrite::VertexInput(MaxwellThreeDVertexInputWrite::Attribute { attribute: ((method - 0x1160) / 4) as u8, value, source }),
                    "SET_VERTEX_ATTRIBUTE",
                ),
                None => refused(source, "SET_VERTEX_ATTRIBUTE", "invalid stream, component-width, or numerical-type encoding"),
            }
        } else {
            refused(source, "SET_VERTEX_ATTRIBUTE", "invalid stream, component-width, or numerical-type encoding")
        }
    } else if 0x1880 <= method && method < 0x1900 && method & 3 == 0 {
        match checked_bool(source, "SET_VERTEX_STREAM_INSTANCE") {
            Ok(value) => accepted(
                MaxwellThreeDStateWrite::VertexInput(MaxwellThreeDVertexInputWrite::StreamInstanced { stream: ((method - 0x1880) / 4) as u8, value, source }),
                "SET_VERTEX_STREAM_INSTANCE",
            ),
            Err(error) => Err(error),
        }
    } else if 0x1c00 <= method && method < 0x1e00 {
        if (method - 0x1c00) % 0x10 == 0 {
            if profile.accepts(MaxwellThreeDEncodedField::VertexStreamFormat, raw) {
                accepted(
                    MaxwellThreeDStateWrite::VertexInput(MaxwellThreeDVertexInputWrite::StreamFormat { stream: ((method - 0x1c00) / 0x10) as u8, value: MaxwellThreeDVertexStreamFormat(raw), source }),
                    "SET_VERTEX_STREAM_FORMAT",
                )
            } else {
                refused(source, "SET_VERTEX_STREAM_FORMAT", "undefined vertex-stream format bits")
            }
        } else if (method - 0x1c00) % 0x10 == 4 {
            if raw <= 0xff {
                accepted(
                    MaxwellThreeDStateWrite::VertexInput(MaxwellThreeDVertexInputWrite::StreamAddressUpper { stream: ((method - 0x1c00) / 0x10) as u8, value: raw as u8, source }),
                    "SET_VERTEX_STREAM_LOCATION_A",
                )
            } else {
                refused(source, "SET_VERTEX_STREAM_LOCATION_A", "GPU address exceeds the 40-bit field")
            }
        } else if (method - 0x1c00) % 0x10 == 8 {
            accepted(
                MaxwellThreeDStateWrite::VertexInput(MaxwellThreeDVertexInputWrite::StreamAddressLower { stream: ((method - 0x1c00) / 0x10) as u8, value: raw, source }),
                "SET_VERTEX_STREAM_LOCATION_B",
            )
        } else if (method - 0x1c00) % 0x10 == 12 {
            accepted(
                MaxwellThreeDStateWrite::VertexInput(MaxwellThreeDVertexInputWrite::StreamFrequency { stream: ((method - 0x1c00) / 0x10) as u8, value: raw, source }),
                "SET_VERTEX_STREAM_FREQUENCY",
            )
        } else {
            Ok(None)
        }
    } else if 0x1f00 <= method && method < 0x2000 && method & 3 == 0 {
        if method < 0x1f80 {
            if method & 7 == 0 {
                if raw > 0xff {
                    refused(source, "SET_VERTEX_STREAM_LIMIT", "GPU address exceeds the 40-bit field")
                } else {
                    accepted(
                        MaxwellThreeDStateWrite::VertexInput(MaxwellThreeDVertexInputWrite::StreamLimitUpper { stream: ((method - 0x1f00) / 8) as u8, value: raw as u8, source }),
                        "SET_VERTEX_STREAM_LIMIT_A",
                    )
                }
            } else {
                accepted(
                    MaxwellThreeDStateWrite::VertexInput(MaxwellThreeDVertexInputWrite::StreamLimitLower { stream: ((method - 0x1f00) / 8) as u8, value: raw, source }),
                    "SET_VERTEX_STREAM_LIMIT_B",
                )
            }
        } else if method & 7 == 0 {
            if raw > 0xff {
                refused(source, "SET_VERTEX_STREAM_LIMIT", "GPU address exceeds the 40-bit field")
            } else {
                accepted(
                    MaxwellThreeDStateWrite::VertexInput(MaxwellThreeDVertexInputWrite::StreamLimitUpper { stream: (16 + (method - 0x1f80) / 8) as u8, value: raw as u8, source }),
                    "SET_VERTEX_STREAM_LIMIT_A",
                )
            }
        } else {
            accepted(
                MaxwellThreeDStateWrite::VertexInput(MaxwellThreeDVertexInputWrite::StreamLimitLower { stream: (16 + (method - 0x1f80) / 8) as u8, value: raw, source }),
                "SET_VERTEX_STREAM_LIMIT_B",
            )
        }
    } else {
        Ok(None)
    }
}

#[verifier::when_used_as_spec(spec_decode_vertex_stream)]
pub fn decode_vertex_stream(profile: &MaxwellGpuProfile, source: MaxwellMethodSource) -> (r: MethodDecode)
    ensures
        r == spec_decode_vertex_stream(profile, source),
        crate::decode::in_range(r),
{
    let method: u32 = source.method().0;
    let raw: u32 = source.argument();
    if 0x1160 <= method && method < 0x11e0 && method & 3 == 0 {
        if profile.accepts(MaxwellThreeDEncodedField::VertexAttribute, raw) {
            match MaxwellThreeDVertexAttributeFormat::parse(raw) {
                Some(value) => accepted(
                    MaxwellThreeDStateWrite::VertexInput(MaxwellThreeDVertexInputWrite::Attribute { attribute: ((method - 0x1160) / 4) as u8, value, source }),
                    "SET_VERTEX_ATTRIBUTE",
                ),
                None => refused(source, "SET_VERTEX_ATTRIBUTE", "invalid stream, component-width, or numerical-type encoding"),
            }
        } else {
            refused(source, "SET_VERTEX_ATTRIBUTE", "invalid stream, component-width, or numerical-type encoding")
        }
    } else if 0x1880 <= method && method < 0x1900 && method & 3 == 0 {
        match checked_bool(source, "SET_VERTEX_STREAM_INSTANCE") {
            Ok(value) => accepted(
                MaxwellThreeDStateWrite::VertexInput(MaxwellThreeDVertexInputWrite::StreamInstanced { stream: ((method - 0x1880) / 4) as u8, value, source }),
                "SET_VERTEX_STREAM_INSTANCE",
            ),
            Err(error) => Err(error),
        }
    } else if 0x1c00 <= method && method < 0x1e00 {
        if (method - 0x1c00) % 0x10 == 0 {
            if profile.accepts(MaxwellThreeDEncodedField::VertexStreamFormat, raw) {
                accepted(
                    MaxwellThreeDStateWrite::VertexInput(MaxwellThreeDVertexInputWrite::StreamFormat { stream: ((method - 0x1c00) / 0x10) as u8, value: MaxwellThreeDVertexStreamFormat(raw), source }),
                    "SET_VERTEX_STREAM_FORMAT",
                )
            } else {
                refused(source, "SET_VERTEX_STREAM_FORMAT", "undefined vertex-stream format bits")
            }
        } else if (method - 0x1c00) % 0x10 == 4 {
            if raw <= 0xff {
                accepted(
                    MaxwellThreeDStateWrite::VertexInput(MaxwellThreeDVertexInputWrite::StreamAddressUpper { stream: ((method - 0x1c00) / 0x10) as u8, value: raw as u8, source }),
                    "SET_VERTEX_STREAM_LOCATION_A",
                )
            } else {
                refused(source, "SET_VERTEX_STREAM_LOCATION_A", "GPU address exceeds the 40-bit field")
            }
        } else if (method - 0x1c00) % 0x10 == 8 {
            accepted(
                MaxwellThreeDStateWrite::VertexInput(MaxwellThreeDVertexInputWrite::StreamAddressLower { stream: ((method - 0x1c00) / 0x10) as u8, value: raw, source }),
                "SET_VERTEX_STREAM_LOCATION_B",
            )
        } else if (method - 0x1c00) % 0x10 == 12 {
            accepted(
                MaxwellThreeDStateWrite::VertexInput(MaxwellThreeDVertexInputWrite::StreamFrequency { stream: ((method - 0x1c00) / 0x10) as u8, value: raw, source }),
                "SET_VERTEX_STREAM_FREQUENCY",
            )
        } else {
            Ok(None)
        }
    } else if 0x1f00 <= method && method < 0x2000 && method & 3 == 0 {
        if method < 0x1f80 {
            if method & 7 == 0 {
                if raw > 0xff {
                    refused(source, "SET_VERTEX_STREAM_LIMIT", "GPU address exceeds the 40-bit field")
                } else {
                    accepted(
                        MaxwellThreeDStateWrite::VertexInput(MaxwellThreeDVertexInputWrite::StreamLimitUpper { stream: ((method - 0x1f00) / 8) as u8, value: raw as u8, source }),
                        "SET_VERTEX_STREAM_LIMIT_A",
                    )
                }
            } else {
                accepted(
                    MaxwellThreeDStateWrite::VertexInput(MaxwellThreeDVertexInputWrite::StreamLimitLower { stream: ((method - 0x1f00) / 8) as u8, value: raw, source }),
                    "SET_VERTEX_STREAM_LIMIT_B",
                )
            }
        } else if method & 7 == 0 {
            if raw > 0xff {
                refused(source, "SET_VERTEX_STREAM_LIMIT", "GPU address exceeds the 40-bit field")
            } else {
                accepted(
                    MaxwellThreeDStateWrite::VertexInput(MaxwellThreeDVertexInputWrite::StreamLimitUpper { stream: (16 + (method - 0x1f80) / 8) as u8, value: raw as u8, source }),
                    "SET_VERTEX_STREAM_LIMIT_A",
                )
            }
        } else {
            accepted(
                MaxwellThreeDStateWrite::VertexInput(MaxwellThreeDVertexInputWrite::StreamLimitLower { stream: (16 + (method - 0x1f80) / 8) as u8, value: raw, source }),
                "SET_VERTEX_STREAM_LIMIT_B",
            )
        }
    } else {
        Ok(None)
    }
}

/// Methods of primitive assembly and the index buffer.
pub open spec fn spec_decode_primitive_assembly(profile: &MaxwellGpuProfile, source: MaxwellMethodSource) -> MethodDecode {
    let method = source.method().0;
    let raw = source.argument();
    if method == 0x0374 {
        if profile.accepts(MaxwellThreeDEncodedField::BalancedPrimitiveWorkload, raw) {
            accepted(
                MaxwellThreeDStateWrite::VertexInput(MaxwellThreeDVertexInputWrite::BalancedPrimitiveWorkload { value: MaxwellThreeDBalancedPrimitiveWorkload(raw), source }),
                "SET_BALANCED_PRIMITIVE_WORKLOAD",
            )
        } else {
            refused(source, "SET_BALANCED_PRIMITIVE_WORKLOAD", "reserved bits are set")
        }
    } else if method == 0x0f84 {
        if raw <= 0xff {
            accepted(
                MaxwellThreeDStateWrite::VertexInput(MaxwellThreeDVertexInputWrite::StreamSubstituteAddressUpper { value: raw as u8, source }),
                "SET_VERTEX_STREAM_SUBSTITUTE_A",
            )
        } else {
            refused(source, "SET_VERTEX_STREAM_SUBSTITUTE_A", "GPU address exceeds the 40-bit field")
        }
    } else if method == 0x0f88 {
        accepted(
            MaxwellThreeDStateWrite::VertexInput(MaxwellThreeDVertexInputWrite::StreamSubstituteAddressLower { value: raw, source }),
            "SET_VERTEX_STREAM_SUBSTITUTE_B",
        )
    } else if method == 0x02d0 {
        if profile.accepts(MaxwellThreeDEncodedField::PrimitiveCircularBufferThrottle, raw) {
            accepted(
                MaxwellThreeDStateWrite::VertexInput(MaxwellThreeDVertexInputWrite::PrimitiveCircularBufferThrottle { value: MaxwellThreeDPrimitiveCircularBufferThrottle(raw), source }),
                "SET_PRIM_CIRCULAR_BUFFER_THROTTLE",
            )
        } else {
            refused(source, "SET_PRIM_CIRCULAR_BUFFER_THROTTLE", "reserved bits are set")
        }
    } else if method == 0x0dcc {
        if raw <= 0xff {
            accepted(
                MaxwellThreeDStateWrite::VertexInput(MaxwellThreeDVertexInputWrite::PatchSize { value: MaxwellThreeDPatchSize(raw as u8), source }),
                "SET_PATCH",
            )
        } else {
            refused(source, "SET_PATCH", "reserved bits are set")
        }
    } else if method == 0x0de8 {
        match MaxwellThreeDVertexArrayPrimitiveRestartEnable::parse(raw) {
            Some(value) => accepted(
                MaxwellThreeDStateWrite::VertexInput(MaxwellThreeDVertexInputWrite::VertexArrayPrimitiveRestartEnable { value, source }),
                "SET_DA_PRIMITIVE_RESTART_VERTEX_ARRAY",
            ),
            None => refused(source, "SET_DA_PRIMITIVE_RESTART_VERTEX_ARRAY", "undefined boolean encoding or reserved bits"),
        }
    } else if method == 0x0d74 {
        accepted(
            MaxwellThreeDStateWrite::VertexInput(MaxwellThreeDVertexInputWrite::VertexArrayStart { value: raw, source }),
            "SET_VERTEX_ARRAY_START",
        )
    } else if method == 0x1434 {
        accepted(
            MaxwellThreeDStateWrite::VertexInput(MaxwellThreeDVertexInputWrite::GlobalBaseVertexIndex { value: raw, source }),
            "SET_GLOBAL_BASE_VERTEX_INDEX",
        )
    } else if method == 0x1438 {
        accepted(
            MaxwellThreeDStateWrite::VertexInput(MaxwellThreeDVertexInputWrite::GlobalBaseInstanceIndex { value: raw, source }),
            "SET_GLOBAL_BASE_INSTANCE_INDEX",
        )
    } else if method == 0x1610 {
        if profile.accepts(MaxwellThreeDEncodedField::AttributeDefaults, raw) {
            accepted(
                MaxwellThreeDStateWrite::VertexInput(MaxwellThreeDVertexInputWrite::AttributeDefaults { value: MaxwellThreeDAttributeDefaults(raw), source }),
                "SET_ATTRIBUTE_DEFAULT",
            )
        } else {
            refused(source, "SET_ATTRIBUTE_DEFAULT", "reserved attribute-default bits are set")
        }
    } else if method == 0x1614 {
        match checked_bool(source, "END") {
            Ok(value) => accepted(
                MaxwellThreeDStateWrite::VertexInput(MaxwellThreeDVertexInputWrite::End { value, source }),
                "END",
            ),
            Err(error) => Err(error),
        }
    } else if method == 0x1618 {
        if profile.accepts(MaxwellThreeDEncodedField::Begin, raw) {
            match MaxwellThreeDBegin::parse(raw) {
                Some(value) => accepted(
                    MaxwellThreeDStateWrite::VertexInput(MaxwellThreeDVertexInputWrite::Begin { value, source }),
                    "BEGIN",
                ),
                None => refused(source, "BEGIN", "invalid topology or begin modifier"),
            }
        } else {
            refused(source, "BEGIN", "invalid topology or begin modifier")
        }
    } else if method == 0x1644 {
        match checked_bool(source, "SET_DA_PRIMITIVE_RESTART") {
            Ok(value) => accepted(
                MaxwellThreeDStateWrite::VertexInput(MaxwellThreeDVertexInputWrite::PrimitiveRestartEnable { value, source }),
                "SET_DA_PRIMITIVE_RESTART",
            ),
            Err(error) => Err(error),
        }
    } else if method == 0x1648 {
        accepted(
            MaxwellThreeDStateWrite::VertexInput(MaxwellThreeDVertexInputWrite::PrimitiveRestartIndex { value: raw, source }),
            "SET_DA_PRIMITIVE_RESTART_INDEX",
        )
    } else if method == 0x164c {
        match MaxwellThreeDVertexIdUsesArrayStart::parse(raw) {
            Some(value) => accepted(
                MaxwellThreeDStateWrite::VertexInput(MaxwellThreeDVertexInputWrite::VertexIdUsesArrayStart { value, source }),
                "SET_DA_OUTPUT",
            ),
            None => refused(source, "SET_DA_OUTPUT", "undefined boolean encoding or reserved bits"),
        }
    } else if method == 0x17c8 {
        if raw <= 0xff {
            accepted(
                MaxwellThreeDStateWrite::VertexInput(MaxwellThreeDVertexInputWrite::IndexAddressUpper { value: raw as u8, source }),
                "SET_INDEX_BUFFER_A",
            )
        } else {
            refused(source, "SET_INDEX_BUFFER", "GPU address exceeds the 40-bit field")
        }
    } else if method == 0x17cc {
        accepted(
            MaxwellThreeDStateWrite::VertexInput(MaxwellThreeDVertexInputWrite::IndexAddressLower { value: raw, source }),
            "SET_INDEX_BUFFER_B",
        )
    } else if method == 0x17d0 {
        if raw <= 0xff {
            accepted(
                MaxwellThreeDStateWrite::VertexInput(MaxwellThreeDVertexInputWrite::IndexLimitUpper { value: raw as u8, source }),
                "SET_INDEX_BUFFER_C",
            )
        } else {
            refused(source, "SET_INDEX_BUFFER", "GPU address exceeds the 40-bit field")
        }
    } else if method == 0x17d4 {
        accepted(
            MaxwellThreeDStateWrite::VertexInput(MaxwellThreeDVertexInputWrite::IndexLimitLower { value: raw, source }),
            "SET_INDEX_BUFFER_D",
        )
    } else if method == 0x17d8 {
        if profile.accepts(MaxwellThreeDEncodedField::IndexElementSize, raw) {
            accepted(
                MaxwellThreeDStateWrite::VertexInput(MaxwellThreeDVertexInputWrite::IndexElementSize { value: MaxwellThreeDIndexElementSize(raw), source }),
                "SET_INDEX_BUFFER_E",
            )
        } else {
            refused(source, "SET_INDEX_BUFFER_E", "invalid index element size")
        }
    } else if method == 0x17dc {
        accepted(
            MaxwellThreeDStateWrite::VertexInput(MaxwellThreeDVertexInputWrite::IndexFirst { value: raw, source }),
            "SET_INDEX_BUFFER_F",
        )
    } else if method == 0x1948 {
        match checked_bool(source, "SET_PRIMITIVE_TOPOLOGY_CONTROL") {
            Ok(value) => accepted(
                MaxwellThreeDStateWrite::VertexInput(MaxwellThreeDVertexInputWrite::TopologyOverride { value, source }),
                "SET_PRIMITIVE_TOPOLOGY_CONTROL",
            ),
            Err(error) => Err(error),
        }
    } else if method == 0x1970 {
        if profile.accepts(MaxwellThreeDEncodedField::PrimitiveTopology, raw) {
            accepted(
                MaxwellThreeDStateWrite::VertexInput(MaxwellThreeDVertexInputWrite::Topology { value: MaxwellThreeDPrimitiveTopology(raw), source }),
                "SET_PRIMITIVE_TOPOLOGY",
            )
        } else {
            refused(source, "SET_PRIMITIVE_TOPOLOGY", "unknown primitive topology")
        }
    } else {
        Ok(None)
    }
}

#[verifier::when_used_as_spec(spec_decode_primitive_assembly)]
pub fn decode_primitive_assembly(profile: &MaxwellGpuProfile, source: MaxwellMethodSource) -> (r: MethodDecode)
    ensures
        r == spec_decode_primitive_assembly(profile, source),
        crate::decode::in_range(r),
{
    let method: u32 = source.method().0;
    let raw: u32 = source.argument();
    if method == 0x0374 {
        if profile.accepts(MaxwellThreeDEncodedField::BalancedPrimitiveWorkload, raw) {
            accepted(
                MaxwellThreeDStateWrite::VertexInput(MaxwellThreeDVertexInputWrite::BalancedPrimitiveWorkload { value: MaxwellThreeDBalancedPrimitiveWorkload(raw), source }),
                "SET_BALANCED_PRIMITIVE_WORKLOAD",
            )
        } else {
            refused(source, "SET_BALANCED_PRIMITIVE_WORKLOAD", "reserved bits are set")
        }
    } else if method == 0x0f84 {
        if raw <= 0xff {
            accepted(
                MaxwellThreeDStateWrite::VertexInput(MaxwellThreeDVertexInputWrite::StreamSubstituteAddressUpper { value: raw as u8, source }),
                "SET_VERTEX_STREAM_SUBSTITUTE_A",
            )
        } else {
            refused(source, "SET_VERTEX_STREAM_SUBSTITUTE_A", "GPU address exceeds the 40-bit field")
        }
    } else if method == 0x0f88 {
        accepted(
            MaxwellThreeDStateWrite::VertexInput(MaxwellThreeDVertexInputWrite::StreamSubstituteAddressLower { value: raw, source }),
            "SET_VERTEX_STREAM_SUBSTITUTE_B",
        )
    } else if method == 0x02d0 {
        if profile.accepts(MaxwellThreeDEncodedField::PrimitiveCircularBufferThrottle, raw) {
            accepted(
                MaxwellThreeDStateWrite::VertexInput(MaxwellThreeDVertexInputWrite::PrimitiveCircularBufferThrottle { value: MaxwellThreeDPrimitiveCircularBufferThrottle(raw), source }),
                "SET_PRIM_CIRCULAR_BUFFER_THROTTLE",
            )
        } else {
            refused(source, "SET_PRIM_CIRCULAR_BUFFER_THROTTLE", "reserved bits are set")
        }
    } else if method == 0x0dcc {
        if raw <= 0xff {
            accepted(
                MaxwellThreeDStateWrite::VertexInput(MaxwellThreeDVertexInputWrite::PatchSize { value: MaxwellThreeDPatchSize(raw as u8), source }),
                "SET_PATCH",
            )
        } else {
            refused(source, "SET_PATCH", "reserved bits are set")
        }
    } else if method == 0x0de8 {
        match MaxwellThreeDVertexArrayPrimitiveRestartEnable::parse(raw) {
            Some(value) => accepted(
                MaxwellThreeDStateWrite::VertexInput(MaxwellThreeDVertexInputWrite::VertexArrayPrimitiveRestartEnable { value, source }),
                "SET_DA_PRIMITIVE_RESTART_VERTEX_ARRAY",
            ),
            None => refused(source, "SET_DA_PRIMITIVE_RESTART_VERTEX_ARRAY", "undefined boolean encoding or reserved bits"),
        }
    } else if method == 0x0d74 {
        accepted(
            MaxwellThreeDStateWrite::VertexInput(MaxwellThreeDVertexInputWrite::VertexArrayStart { value: raw, source }),
            "SET_VERTEX_ARRAY_START",
        )
    } else if method == 0x1434 {
        accepted(
            MaxwellThreeDStateWrite::VertexInput(MaxwellThreeDVertexInputWrite::GlobalBaseVertexIndex { value: raw, source }),
            "SET_GLOBAL_BASE_VERTEX_INDEX",
        )
    } else if method == 0x1438 {
        accepted(
            MaxwellThreeDStateWrite::VertexInput(MaxwellThreeDVertexInputWrite::GlobalBaseInstanceIndex { value: raw, source }),
            "SET_GLOBAL_BASE_INSTANCE_INDEX",
        )
    } else if method == 0x1610 {
        if profile.accepts(MaxwellThreeDEncodedField::AttributeDefaults, raw) {
            accepted(
                MaxwellThreeDStateWrite::VertexInput(MaxwellThreeDVertexInputWrite::AttributeDefaults { value: MaxwellThreeDAttributeDefaults(raw), source }),
                "SET_ATTRIBUTE_DEFAULT",
            )
        } else {
            refused(source, "SET_ATTRIBUTE_DEFAULT", "reserved attribute-default bits are set")
        }
    } else if method == 0x1614 {
        match checked_bool(source, "END") {
            Ok(value) => accepted(
                MaxwellThreeDStateWrite::VertexInput(MaxwellThreeDVertexInputWrite::End { value, source }),
                "END",
            ),
            Err(error) => Err(error),
        }
    } else if method == 0x1618 {
        if profile.accepts(MaxwellThreeDEncodedField::Begin, raw) {
            match MaxwellThreeDBegin::parse(raw) {
                Some(value) => accepted(
                    MaxwellThreeDStateWrite::VertexInput(MaxwellThreeDVertexInputWrite::Begin { value, source }),
                    "BEGIN",
                ),
                None => refused(source, "BEGIN", "invalid topology or begin modifier"),
            }
        } else {
            refused(source, "BEGIN", "invalid topology or begin modifier")
        }
    } else if method == 0x1644 {
        match checked_bool(source, "SET_DA_PRIMITIVE_RESTART") {
            Ok(value) => accepted(
                MaxwellThreeDStateWrite::VertexInput(MaxwellThreeDVertexInputWrite::PrimitiveRestartEnable { value, source }),
                "SET_DA_PRIMITIVE_RESTART",
            ),
            Err(error) => Err(error),
        }
    } else if method == 0x1648 {
        accepted(
            MaxwellThreeDStateWrite::VertexInput(MaxwellThreeDVertexInputWrite::PrimitiveRestartIndex { value: raw, source }),
            "SET_DA_PRIMITIVE_RESTART_INDEX",
        )
    } else if method == 0x164c {
        match MaxwellThreeDVertexIdUsesArrayStart::parse(raw) {
            Some(value) => accepted(
                MaxwellThreeDStateWrite::VertexInput(MaxwellThreeDVertexInputWrite::VertexIdUsesArrayStart { value, source }),
                "SET_DA_OUTPUT",
            ),
            None => refused(source, "SET_DA_OUTPUT", "undefined boolean encoding or reserved bits"),
        }
    } else if method == 0x17c8 {
        if raw <= 0xff {
            accepted(
                MaxwellThreeDStateWrite::VertexInput(MaxwellThreeDVertexInputWrite::IndexAddressUpper { value: raw as u8, source }),
                "SET_INDEX_BUFFER_A",
            )
        } else {
            refused(source, "SET_INDEX_BUFFER", "GPU address exceeds the 40-bit field")
        }
    } else if method == 0x17cc {
        accepted(
            MaxwellThreeDStateWrite::VertexInput(MaxwellThreeDVertexInputWrite::IndexAddressLower { value: raw, source }),
            "SET_INDEX_BUFFER_B",
        )
    } else if method == 0x17d0 {
        if raw <= 0xff {
            accepted(
                MaxwellThreeDStateWrite::VertexInput(MaxwellThreeDVertexInputWrite::IndexLimitUpper { value: raw as u8, source }),
                "SET_INDEX_BUFFER_C",
            )
        } else {
            refused(source, "SET_INDEX_BUFFER", "GPU address exceeds the 40-bit field")
        }
    } else if method == 0x17d4 {
        accepted(
            MaxwellThreeDStateWrite::VertexInput(MaxwellThreeDVertexInputWrite::IndexLimitLower { value: raw, source }),
            "SET_INDEX_BUFFER_D",
        )
    } else if method == 0x17d8 {
        if profile.accepts(MaxwellThreeDEncodedField::IndexElementSize, raw) {
            accepted(
                MaxwellThreeDStateWrite::VertexInput(MaxwellThreeDVertexInputWrite::IndexElementSize { value: MaxwellThreeDIndexElementSize(raw), source }),
                "SET_INDEX_BUFFER_E",
            )
        } else {
            refused(source, "SET_INDEX_BUFFER_E", "invalid index element size")
        }
    } else if method == 0x17dc {
        accepted(
            MaxwellThreeDStateWrite::VertexInput(MaxwellThreeDVertexInputWrite::IndexFirst { value: raw, source }),
            "SET_INDEX_BUFFER_F",
        )
    } else if method == 0x1948 {
        match checked_bool(source, "SET_PRIMITIVE_TOPOLOGY_CONTROL") {
            Ok(value) => accepted(
                MaxwellThreeDStateWrite::VertexInput(MaxwellThreeDVertexInputWrite::TopologyOverride { value, source }),
                "SET_PRIMITIVE_TOPOLOGY_CONTROL",
            ),
            Err(error) => Err(error),
        }
    } else if method == 0x1970 {
        if profile.accepts(MaxwellThreeDEncodedField::PrimitiveTopology, raw) {
            accepted(
                MaxwellThreeDStateWrite::VertexInput(MaxwellThreeDVertexInputWrite::Topology { value: MaxwellThreeDPrimitiveTopology(raw), source }),
                "SET_PRIMITIVE_TOPOLOGY",
            )
        } else {
            refused(source, "SET_PRIMITIVE_TOPOLOGY", "unknown primitive topology")
        }
    } else {
        Ok(None)
    }
}

/// Methods of the shader pipelines and the descriptor pools.
pub open spec fn spec_decode_shader_binding(profile: &MaxwellGpuProfile, source: MaxwellMethodSource) -> MethodDecode {
    let method = source.method().0;
    let raw = source.argument();
    if 0x2000 <= method && method < 0x2180 {
        if (method - 0x2000) % 0x40 == 0 {
            if raw & !0x71u32 == 0 {
                match MaxwellThreeDShaderStage::parse((raw >> 4) & 7) {
                    Some(value) => accepted(
                        MaxwellThreeDStateWrite::ShaderBinding(MaxwellThreeDShaderBindingWrite::PipelineShader { pipeline: ((method - 0x2000) / 0x40) as u8, enabled: raw & 1 != 0, stage: value, source }),
                        "SET_PIPELINE_SHADER",
                    ),
                    None => refused(source, "SET_PIPELINE_SHADER", "unknown shader stage"),
                }
            } else {
                refused(source, "SET_PIPELINE_SHADER", "undefined pipeline shader bits")
            }
        } else if (method - 0x2000) % 0x40 == 0x04 {
            accepted(
                MaxwellThreeDStateWrite::ShaderBinding(MaxwellThreeDShaderBindingWrite::PipelineProgram { pipeline: ((method - 0x2000) / 0x40) as u8, offset: raw, source }),
                "SET_PIPELINE_PROGRAM",
            )
        } else if (method - 0x2000) % 0x40 == 0x0c {
            if raw <= 0xff {
                accepted(
                    MaxwellThreeDStateWrite::ShaderBinding(MaxwellThreeDShaderBindingWrite::PipelineRegisterCount { pipeline: ((method - 0x2000) / 0x40) as u8, count: raw as u8, source }),
                    "SET_PIPELINE_REGISTER_COUNT",
                )
            } else {
                refused(source, "SET_PIPELINE_REGISTER_COUNT", "register count exceeds the eight-bit field")
            }
        } else if (method - 0x2000) % 0x40 == 0x10 {
            if raw <= 7 {
                accepted(
                    MaxwellThreeDStateWrite::ShaderBinding(MaxwellThreeDShaderBindingWrite::PipelineGroup { pipeline: ((method - 0x2000) / 0x40) as u8, group: raw as u8, source }),
                    "SET_PIPELINE_BINDING",
                )
            } else {
                refused(source, "SET_PIPELINE_BINDING", "binding group exceeds the three-bit field")
            }
        } else {
            Ok(None)
        }
    } else if 0x0324 <= method && method <= 0x0338 && method % 4 == 0 {
        accepted(
            MaxwellThreeDStateWrite::ShaderBinding(MaxwellThreeDShaderBindingWrite::TessellationLod { level: MaxwellThreeDTessellationLod::from_index(((method - 0x0324) / 4) as u8), value: raw, source }),
            "SET_TESSELLATION_LOD",
        )
    } else if method == 0x0310 {
        if profile.accepts(MaxwellThreeDEncodedField::SpaVersion, raw) {
            accepted(
                MaxwellThreeDStateWrite::Raster(MaxwellThreeDRasterStateWrite::SpaVersion { value: MaxwellSpaVersion(raw), source }),
                "SET_SPA_VERSION",
            )
        } else {
            refused(source, "SET_SPA_VERSION", "reserved bits are set")
        }
    } else if method == 0x1608 {
        if raw <= 0xff {
            accepted(
                MaxwellThreeDStateWrite::ShaderBinding(MaxwellThreeDShaderBindingWrite::ProgramRegionAddressUpper { value: raw as u8, source }),
                "SET_PROGRAM_REGION_A",
            )
        } else {
            refused(source, "SET_PROGRAM_REGION_A", "GPU address exceeds the 40-bit field")
        }
    } else if method == 0x160c {
        accepted(
            MaxwellThreeDStateWrite::ShaderBinding(MaxwellThreeDShaderBindingWrite::ProgramRegionAddressLower { value: raw, source }),
            "SET_PROGRAM_REGION_B",
        )
    } else if method == 0x0f10 {
        match checked_bool(source, "SET_SELECT_MAXWELL_TEXTURE_HEADERS") {
            Ok(value) => accepted(
                MaxwellThreeDStateWrite::ShaderBinding(MaxwellThreeDShaderBindingWrite::MaxwellTextureHeaders { value, source }),
                "SET_SELECT_MAXWELL_TEXTURE_HEADERS",
            ),
            Err(error) => Err(error),
        }
    } else if method == 0x1234 {
        if raw == 0 {
            accepted(
                MaxwellThreeDStateWrite::ShaderBinding(MaxwellThreeDShaderBindingWrite::SamplerBinding { value: MaxwellThreeDSamplerBindingMode::Independent, source }),
                "SET_SAMPLER_BINDING",
            )
        } else if raw == 1 {
            accepted(
                MaxwellThreeDStateWrite::ShaderBinding(MaxwellThreeDShaderBindingWrite::SamplerBinding { value: MaxwellThreeDSamplerBindingMode::ViaTextureHeader, source }),
                "SET_SAMPLER_BINDING",
            )
        } else {
            refused(source, "SHADER_BINDING", "argument exceeds its verified field")
        }
    } else if method == 0x155c {
        if raw <= 0xff {
            accepted(
                MaxwellThreeDStateWrite::ShaderBinding(MaxwellThreeDShaderBindingWrite::SamplerAddressUpper { value: raw as u8, source }),
                "SET_TEX_SAMPLER_POOL_A",
            )
        } else {
            refused(source, "SHADER_BINDING", "argument exceeds its verified field")
        }
    } else if method == 0x1560 {
        accepted(
            MaxwellThreeDStateWrite::ShaderBinding(MaxwellThreeDShaderBindingWrite::SamplerAddressLower { value: raw, source }),
            "SET_TEX_SAMPLER_POOL_B",
        )
    } else if method == 0x1564 {
        if raw <= 0x0f_ffff {
            accepted(
                MaxwellThreeDStateWrite::ShaderBinding(MaxwellThreeDShaderBindingWrite::SamplerMaximumIndex { value: raw, source }),
                "SET_TEX_SAMPLER_POOL_C",
            )
        } else {
            refused(source, "SHADER_BINDING", "argument exceeds its verified field")
        }
    } else if method == 0x1574 {
        if raw <= 0xff {
            accepted(
                MaxwellThreeDStateWrite::ShaderBinding(MaxwellThreeDShaderBindingWrite::TextureHeaderAddressUpper { value: raw as u8, source }),
                "SET_TEX_HEADER_POOL_A",
            )
        } else {
            refused(source, "SHADER_BINDING", "argument exceeds its verified field")
        }
    } else if method == 0x1578 {
        accepted(
            MaxwellThreeDStateWrite::ShaderBinding(MaxwellThreeDShaderBindingWrite::TextureHeaderAddressLower { value: raw, source }),
            "SET_TEX_HEADER_POOL_B",
        )
    } else if method == 0x157c {
        if raw <= 0x3f_ffff {
            accepted(
                MaxwellThreeDStateWrite::ShaderBinding(MaxwellThreeDShaderBindingWrite::TextureHeaderMaximumIndex { value: raw, source }),
                "SET_TEX_HEADER_POOL_C",
            )
        } else {
            refused(source, "SHADER_BINDING", "argument exceeds its verified field")
        }
    } else if method == 0x2380 {
        if raw <= 0x1_ffff {
            accepted(
                MaxwellThreeDStateWrite::ShaderBinding(MaxwellThreeDShaderBindingWrite::SelectorSize { size: raw, source }),
                "SET_CONSTANT_BUFFER_SELECTOR_A",
            )
        } else {
            refused(source, "SHADER_BINDING", "argument exceeds its verified field")
        }
    } else if method == 0x2384 {
        if raw <= 0xff {
            accepted(
                MaxwellThreeDStateWrite::ShaderBinding(MaxwellThreeDShaderBindingWrite::SelectorAddressUpper { value: raw as u8, source }),
                "SET_CONSTANT_BUFFER_SELECTOR_B",
            )
        } else {
            refused(source, "SHADER_BINDING", "argument exceeds its verified field")
        }
    } else if method == 0x2388 {
        accepted(
            MaxwellThreeDStateWrite::ShaderBinding(MaxwellThreeDShaderBindingWrite::SelectorAddressLower { value: raw, source }),
            "SET_CONSTANT_BUFFER_SELECTOR_C",
        )
    } else if method == 0x2608 {
        if raw <= 0x1f {
            accepted(
                MaxwellThreeDStateWrite::ShaderBinding(MaxwellThreeDShaderBindingWrite::BindlessTextureSlot { value: raw as u8, source }),
                "SET_BINDLESS_TEXTURE",
            )
        } else {
            refused(source, "SHADER_BINDING", "argument exceeds its verified field")
        }
    } else {
        Ok(None)
    }
}

#[verifier::when_used_as_spec(spec_decode_shader_binding)]
pub fn decode_shader_binding(profile: &MaxwellGpuProfile, source: MaxwellMethodSource) -> (r: MethodDecode)
    ensures
        r == spec_decode_shader_binding(profile, source),
        crate::decode::in_range(r),
{
    let method: u32 = source.method().0;
    let raw: u32 = source.argument();
    if 0x2000 <= method && method < 0x2180 {
        if (method - 0x2000) % 0x40 == 0 {
            if raw & !0x71u32 == 0 {
                match MaxwellThreeDShaderStage::parse((raw >> 4) & 7) {
                    Some(value) => accepted(
                        MaxwellThreeDStateWrite::ShaderBinding(MaxwellThreeDShaderBindingWrite::PipelineShader { pipeline: ((method - 0x2000) / 0x40) as u8, enabled: raw & 1 != 0, stage: value, source }),
                        "SET_PIPELINE_SHADER",
                    ),
                    None => refused(source, "SET_PIPELINE_SHADER", "unknown shader stage"),
                }
            } else {
                refused(source, "SET_PIPELINE_SHADER", "undefined pipeline shader bits")
            }
        } else if (method - 0x2000) % 0x40 == 0x04 {
            accepted(
                MaxwellThreeDStateWrite::ShaderBinding(MaxwellThreeDShaderBindingWrite::PipelineProgram { pipeline: ((method - 0x2000) / 0x40) as u8, offset: raw, source }),
                "SET_PIPELINE_PROGRAM",
            )
        } else if (method - 0x2000) % 0x40 == 0x0c {
            if raw <= 0xff {
                accepted(
                    MaxwellThreeDStateWrite::ShaderBinding(MaxwellThreeDShaderBindingWrite::PipelineRegisterCount { pipeline: ((method - 0x2000) / 0x40) as u8, count: raw as u8, source }),
                    "SET_PIPELINE_REGISTER_COUNT",
                )
            } else {
                refused(source, "SET_PIPELINE_REGISTER_COUNT", "register count exceeds the eight-bit field")
            }
        } else if (method - 0x2000) % 0x40 == 0x10 {
            if raw <= 7 {
                accepted(
                    MaxwellThreeDStateWrite::ShaderBinding(MaxwellThreeDShaderBindingWrite::PipelineGroup { pipeline: ((method - 0x2000) / 0x40) as u8, group: raw as u8, source }),
                    "SET_PIPELINE_BINDING",
                )
            } else {
                refused(source, "SET_PIPELINE_BINDING", "binding group exceeds the three-bit field")
            }
        } else {
            Ok(None)
        }
    } else if 0x0324 <= method && method <= 0x0338 && method % 4 == 0 {
        accepted(
            MaxwellThreeDStateWrite::ShaderBinding(MaxwellThreeDShaderBindingWrite::TessellationLod { level: MaxwellThreeDTessellationLod::from_index(((method - 0x0324) / 4) as u8), value: raw, source }),
            "SET_TESSELLATION_LOD",
        )
    } else if method == 0x0310 {
        if profile.accepts(MaxwellThreeDEncodedField::SpaVersion, raw) {
            accepted(
                MaxwellThreeDStateWrite::Raster(MaxwellThreeDRasterStateWrite::SpaVersion { value: MaxwellSpaVersion(raw), source }),
                "SET_SPA_VERSION",
            )
        } else {
            refused(source, "SET_SPA_VERSION", "reserved bits are set")
        }
    } else if method == 0x1608 {
        if raw <= 0xff {
            accepted(
                MaxwellThreeDStateWrite::ShaderBinding(MaxwellThreeDShaderBindingWrite::ProgramRegionAddressUpper { value: raw as u8, source }),
                "SET_PROGRAM_REGION_A",
            )
        } else {
            refused(source, "SET_PROGRAM_REGION_A", "GPU address exceeds the 40-bit field")
        }
    } else if method == 0x160c {
        accepted(
            MaxwellThreeDStateWrite::ShaderBinding(MaxwellThreeDShaderBindingWrite::ProgramRegionAddressLower { value: raw, source }),
            "SET_PROGRAM_REGION_B",
        )
    } else if method == 0x0f10 {
        match checked_bool(source, "SET_SELECT_MAXWELL_TEXTURE_HEADERS") {
            Ok(value) => accepted(
                MaxwellThreeDStateWrite::ShaderBinding(MaxwellThreeDShaderBindingWrite::MaxwellTextureHeaders { value, source }),
                "SET_SELECT_MAXWELL_TEXTURE_HEADERS",
            ),
            Err(error) => Err(error),
        }
    } else if method == 0x1234 {
        if raw == 0 {
            accepted(
                MaxwellThreeDStateWrite::ShaderBinding(MaxwellThreeDShaderBindingWrite::SamplerBinding { value: MaxwellThreeDSamplerBindingMode::Independent, source }),
                "SET_SAMPLER_BINDING",
            )
        } else if raw == 1 {
            accepted(
                MaxwellThreeDStateWrite::ShaderBinding(MaxwellThreeDShaderBindingWrite::SamplerBinding { value: MaxwellThreeDSamplerBindingMode::ViaTextureHeader, source }),
                "SET_SAMPLER_BINDING",
            )
        } else {
            refused(source, "SHADER_BINDING", "argument exceeds its verified field")
        }
    } else if method == 0x155c {
        if raw <= 0xff {
            accepted(
                MaxwellThreeDStateWrite::ShaderBinding(MaxwellThreeDShaderBindingWrite::SamplerAddressUpper { value: raw as u8, source }),
                "SET_TEX_SAMPLER_POOL_A",
            )
        } else {
            refused(source, "SHADER_BINDING", "argument exceeds its verified field")
        }
    } else if method == 0x1560 {
        accepted(
            MaxwellThreeDStateWrite::ShaderBinding(MaxwellThreeDShaderBindingWrite::SamplerAddressLower { value: raw, source }),
            "SET_TEX_SAMPLER_POOL_B",
        )
    } else if method == 0x1564 {
        if raw <= 0x0f_ffff {
            accepted(
                MaxwellThreeDStateWrite::ShaderBinding(MaxwellThreeDShaderBindingWrite::SamplerMaximumIndex { value: raw, source }),
                "SET_TEX_SAMPLER_POOL_C",
            )
        } else {
            refused(source, "SHADER_BINDING", "argument exceeds its verified field")
        }
    } else if method == 0x1574 {
        if raw <= 0xff {
            accepted(
                MaxwellThreeDStateWrite::ShaderBinding(MaxwellThreeDShaderBindingWrite::TextureHeaderAddressUpper { value: raw as u8, source }),
                "SET_TEX_HEADER_POOL_A",
            )
        } else {
            refused(source, "SHADER_BINDING", "argument exceeds its verified field")
        }
    } else if method == 0x1578 {
        accepted(
            MaxwellThreeDStateWrite::ShaderBinding(MaxwellThreeDShaderBindingWrite::TextureHeaderAddressLower { value: raw, source }),
            "SET_TEX_HEADER_POOL_B",
        )
    } else if method == 0x157c {
        if raw <= 0x3f_ffff {
            accepted(
                MaxwellThreeDStateWrite::ShaderBinding(MaxwellThreeDShaderBindingWrite::TextureHeaderMaximumIndex { value: raw, source }),
                "SET_TEX_HEADER_POOL_C",
            )
        } else {
            refused(source, "SHADER_BINDING", "argument exceeds its verified field")
        }
    } else if method == 0x2380 {
        if raw <= 0x1_ffff {
            accepted(
                MaxwellThreeDStateWrite::ShaderBinding(MaxwellThreeDShaderBindingWrite::SelectorSize { size: raw, source }),
                "SET_CONSTANT_BUFFER_SELECTOR_A",
            )
        } else {
            refused(source, "SHADER_BINDING", "argument exceeds its verified field")
        }
    } else if method == 0x2384 {
        if raw <= 0xff {
            accepted(
                MaxwellThreeDStateWrite::ShaderBinding(MaxwellThreeDShaderBindingWrite::SelectorAddressUpper { value: raw as u8, source }),
                "SET_CONSTANT_BUFFER_SELECTOR_B",
            )
        } else {
            refused(source, "SHADER_BINDING", "argument exceeds its verified field")
        }
    } else if method == 0x2388 {
        accepted(
            MaxwellThreeDStateWrite::ShaderBinding(MaxwellThreeDShaderBindingWrite::SelectorAddressLower { value: raw, source }),
            "SET_CONSTANT_BUFFER_SELECTOR_C",
        )
    } else if method == 0x2608 {
        if raw <= 0x1f {
            accepted(
                MaxwellThreeDStateWrite::ShaderBinding(MaxwellThreeDShaderBindingWrite::BindlessTextureSlot { value: raw as u8, source }),
                "SET_BINDLESS_TEXTURE",
            )
        } else {
            refused(source, "SHADER_BINDING", "argument exceeds its verified field")
        }
    } else {
        Ok(None)
    }
}

/// Binding of the selected constant buffer to one slot of one group.
///
/// An enabled binding captures the selector as it stands, and is refused while the
/// selector is incomplete, empty, or runs past the 40-bit address space.
pub open spec fn spec_decode_constant_buffer_binding(source: MaxwellMethodSource, selector: &MaxwellThreeDConstantBufferSelectorState) -> MethodDecode {
    let method = source.method().0;
    let raw = source.argument();
    if 0x2400 <= method && method < 0x2500 && (method - 0x2400) % 0x20 == 0x10 {
        if raw & !0x1f1u32 != 0 {
            refused(source, "BIND_GROUP_CONSTANT_BUFFER", "undefined constant-buffer binding bits")
        } else if raw & 1 == 0 {
            accepted(
                MaxwellThreeDStateWrite::ShaderBinding(MaxwellThreeDShaderBindingWrite::BindConstantBuffer { group: ((method - 0x2400) / 0x20) as u8, slot: ((raw >> 4) & 0x1f) as u8, enabled: false, address: None, size: None, source }),
                "BIND_GROUP_CONSTANT_BUFFER",
            )
        } else {
            match (selector.address(), selector.size.value) {
                (None, _) => refused(source, "BIND_GROUP_CONSTANT_BUFFER", "enabled binding requires a complete selector address"),
                (_, None) => refused(source, "BIND_GROUP_CONSTANT_BUFFER", "enabled binding requires selector size"),
                (Some(address), Some(size)) => if size == 0 || address.get() + size as u64 > 0x100_0000_0000 {
                    refused(source, "BIND_GROUP_CONSTANT_BUFFER", "constant-buffer range is empty or overflows")
                } else {
                    accepted(
                        MaxwellThreeDStateWrite::ShaderBinding(MaxwellThreeDShaderBindingWrite::BindConstantBuffer { group: ((method - 0x2400) / 0x20) as u8, slot: ((raw >> 4) & 0x1f) as u8, enabled: true, address: Some(address), size: Some(size), source }),
                        "BIND_GROUP_CONSTANT_BUFFER",
                    )
                },
            }
        }
    } else {
        Ok(None)
    }
}

#[verifier::when_used_as_spec(spec_decode_constant_buffer_binding)]
pub fn decode_constant_buffer_binding(source: MaxwellMethodSource, selector: &MaxwellThreeDConstantBufferSelectorState) -> (r: MethodDecode)
    ensures
        r == spec_decode_constant_buffer_binding(source, selector),
        crate::decode::in_range(r),
{
    let method: u32 = source.method().0;
    let raw: u32 = source.argument();
    proof {
        assert(((raw >> 4) & 0x1f) < 32) by (bit_vector);
        assert(((raw >> 4) & 0x1f) as u8 == (raw >> 4) & 0x1f) by (bit_vector);
    }
    if 0x2400 <= method && method < 0x2500 && (method - 0x2400) % 0x20 == 0x10 {
        if raw & !0x1f1u32 != 0 {
            refused(source, "BIND_GROUP_CONSTANT_BUFFER", "undefined constant-buffer binding bits")
        } else if raw & 1 == 0 {
            accepted(
                MaxwellThreeDStateWrite::ShaderBinding(MaxwellThreeDShaderBindingWrite::BindConstantBuffer { group: ((method - 0x2400) / 0x20) as u8, slot: ((raw >> 4) & 0x1f) as u8, enabled: false, address: None, size: None, source }),
                "BIND_GROUP_CONSTANT_BUFFER",
            )
        } else {
            match (selector.address(), selector.size.value) {
                (None, _) => refused(source, "BIND_GROUP_CONSTANT_BUFFER", "enabled binding requires a complete selector address"),
                (_, None) => refused(source, "BIND_GROUP_CONSTANT_BUFFER", "enabled binding requires selector size"),
                (Some(address), Some(size)) => if size == 0 || address.get() + size as u64 > 0x100_0000_0000 {
                    refused(source, "BIND_GROUP_CONSTANT_BUFFER", "constant-buffer range is empty or overflows")
                } else {
                    accepted(
                        MaxwellThreeDStateWrite::ShaderBinding(MaxwellThreeDShaderBindingWrite::BindConstantBuffer { group: ((method - 0x2400) / 0x20) as u8, slot: ((raw >> 4) & 0x1f) as u8, enabled: true, address: Some(address), size: Some(size), source }),
                        "BIND_GROUP_CONSTANT_BUFFER",
                    )
                },
            }
        }
    } else {
        Ok(None)
    }
}

/// Outcome of offering a method to the vertex and binding families, in order.
pub open spec fn spec_preflight_vertex_and_binding_state(
    profile: &MaxwellGpuProfile,
    source: MaxwellMethodSource,
    selector: &MaxwellThreeDConstantBufferSelectorState,
) -> MethodDecode {
    crate::decode::or_else(
        decode_vertex_stream(profile, source),
        crate::decode::or_else(
            decode_primitive_assembly(profile, source),
            crate::decode::or_else(
                decode_constant_buffer_binding(source, selector),
                decode_shader_binding(profile, source),
            ),
        ),
    )
}

/// Decodes one vertex-input or shader-binding method.
pub fn preflight_vertex_and_binding_state(
    profile: &MaxwellGpuProfile,
    source: MaxwellMethodSource,
    selector: &MaxwellThreeDConstantBufferSelectorState,
) -> (r: MethodDecode)
    ensures
        r == spec_preflight_vertex_and_binding_state(profile, source, selector),
        crate::decode::in_range(r),
{
    match decode_vertex_stream(profile, source) {
        Ok(None) => {},
        decided => return decided,
    }
    match decode_primitive_assembly(profile, source) {
        Ok(None) => {},
        decided => return decided,
    }
    match decode_constant_buffer_binding(source, selector) {
        Ok(None) => {},
        decided => return decided,
    }
    decode_shader_binding(profile, source)
}

} // verus!
