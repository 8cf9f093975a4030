//! Vertex fetch and primitive assembly registers.

use vstd::prelude::*;
use crate::register::{MaxwellMethodSource, MaxwellThreeDRegister};

verus! {

/// Interpretation of the components of one vertex attribute.
#[derive(Clone, Copy, Debug, PartialEq, Eq, Hash, Structural)]
pub enum MaxwellThreeDVertexNumericalType {
    SignedNormalized,
    UnsignedNormalized,
    SignedInteger,
    UnsignedInteger,
    UnsignedScaled,
    SignedScaled,
    Float,
}

impl MaxwellThreeDVertexNumericalType {
    /// Field encoding of each value.
    pub open spec fn spec_raw(self) -> u32 {
        match self {
            MaxwellThreeDVertexNumericalType::SignedNormalized => 1,
            MaxwellThreeDVertexNumericalType::UnsignedNormalized => 2,
            MaxwellThreeDVertexNumericalType::SignedInteger => 3,
            MaxwellThreeDVertexNumericalType::UnsignedInteger => 4,
            MaxwellThreeDVertexNumericalType::UnsignedScaled => 5,
            MaxwellThreeDVertexNumericalType::SignedScaled => 6,
            MaxwellThreeDVertexNumericalType::Float => 7,
        }
    }

    /// Value of each defined encoding.
    pub open spec fn spec_parse(raw: u32) -> Option<MaxwellThreeDVertexNumericalType> {
        if raw == 1 {
            Some(MaxwellThreeDVertexNumericalType::SignedNormalized)
        } else if raw == 2 {
            Some(MaxwellThreeDVertexNumericalType::UnsignedNormalized)
        } else if raw == 3 {
            Some(MaxwellThreeDVertexNumericalType::SignedInteger)
        } else if raw == 4 {
            Some(MaxwellThreeDVertexNumericalType::UnsignedInteger)
        } else if raw == 5 {
            Some(MaxwellThreeDVertexNumericalType::UnsignedScaled)
        } else if raw == 6 {
            Some(MaxwellThreeDVertexNumericalType::SignedScaled)
        } else if raw == 7 {
            Some(MaxwellThreeDVertexNumericalType::Float)
        } else {
            None
        }
    }

    #[verifier::when_used_as_spec(spec_parse)]
    pub fn parse(raw: u32) -> (r: Option<MaxwellThreeDVertexNumericalType>)
        ensures
            r == MaxwellThreeDVertexNumericalType::spec_parse(raw),
    {
        match raw {
            1 => Some(MaxwellThreeDVertexNumericalType::SignedNormalized),
            2 => Some(MaxwellThreeDVertexNumericalType::UnsignedNormalized),
            3 => Some(MaxwellThreeDVertexNumericalType::SignedInteger),
            4 => Some(MaxwellThreeDVertexNumericalType::UnsignedInteger),
            5 => Some(MaxwellThreeDVertexNumericalType::UnsignedScaled),
            6 => Some(MaxwellThreeDVertexNumericalType::SignedScaled),
            7 => Some(MaxwellThreeDVertexNumericalType::Float),
            _ => None,
        }
    }

    #[must_use]
    #[verifier::when_used_as_spec(spec_raw)]
    pub fn raw(self) -> (r: u32)
        ensures
            r == self.spec_raw(),
    {
        match self {
            MaxwellThreeDVertexNumericalType::SignedNormalized => 1,
            MaxwellThreeDVertexNumericalType::UnsignedNormalized => 2,
            MaxwellThreeDVertexNumericalType::SignedInteger => 3,
            MaxwellThreeDVertexNumericalType::UnsignedInteger => 4,
            MaxwellThreeDVertexNumericalType::UnsignedScaled => 5,
            MaxwellThreeDVertexNumericalType::SignedScaled => 6,
            MaxwellThreeDVertexNumericalType::Float => 7,
        }
    }

    /// Decoding and encoding are inverse: a word decodes to a value exactly
    /// when it is the encoding of that value.
    pub proof fn law_codec(raw: u32, value: MaxwellThreeDVertexNumericalType)
        ensures
            MaxwellThreeDVertexNumericalType::spec_parse(raw) == Some(value) <==> value.spec_raw() == raw,
    {
    }
}

/// Component-width encoding of one vertex attribute.
#[derive(Clone, Copy, Debug, PartialEq, Eq, Hash, Structural)]
pub struct MaxwellThreeDVertexComponentWidths(pub u8);

impl MaxwellThreeDVertexComponentWidths {
    /// Widths of a defined encoding.
    pub open spec fn spec_parse(raw: u8) -> Option<MaxwellThreeDVertexComponentWidths> {
        if raw == 0x1 || raw == 0x2 || raw == 0x3 || raw == 0x4 || raw == 0x5 || raw == 0xa || raw == 0xf || raw == 0x12 || raw == 0x13 || raw == 0x18 || raw == 0x1b || raw == 0x1d || raw == 0x2f || raw == 0x30 || raw == 0x31 || raw == 0x32 || raw == 0x33 || raw == 0x34 {
            Some(MaxwellThreeDVertexComponentWidths(raw))
        } else {
            None
        }
    }

    #[verifier::when_used_as_spec(spec_parse)]
    pub fn parse(raw: u8) -> (r: Option<MaxwellThreeDVertexComponentWidths>)
        ensures
            r == MaxwellThreeDVertexComponentWidths::spec_parse(raw),
    {
        if raw == 0x1 || raw == 0x2 || raw == 0x3 || raw == 0x4 || raw == 0x5 || raw == 0xa || raw == 0xf || raw == 0x12 || raw == 0x13 || raw == 0x18 || raw == 0x1b || raw == 0x1d || raw == 0x2f || raw == 0x30 || raw == 0x31 || raw == 0x32 || raw == 0x33 || raw == 0x34 {
            Some(MaxwellThreeDVertexComponentWidths(raw))
        } else {
            None
        }
    }

    pub open spec fn spec_raw(self) -> u8 {
        self.0
    }

    #[must_use]
    #[verifier::when_used_as_spec(spec_raw)]
    pub fn raw(self) -> (r: u8)
        ensures
            r == self.0,
    {
        self.0
    }
}

/// Format word of one vertex attribute.
#[derive(Clone, Copy, Debug, PartialEq, Eq, Hash, Structural)]
pub struct MaxwellThreeDVertexAttributeFormat(pub u32);

impl MaxwellThreeDVertexAttributeFormat {
    /// Word without reserved bits.
    pub open spec fn spec_parse(raw: u32) -> Option<MaxwellThreeDVertexAttributeFormat> {
        if raw & 0x40000020u32 != 0 {
            None
        } else {
            Some(MaxwellThreeDVertexAttributeFormat(raw))
        }
    }

    #[verifier::when_used_as_spec(spec_parse)]
    pub fn parse(raw: u32) -> (r: Option<MaxwellThreeDVertexAttributeFormat>)
        ensures
            r == MaxwellThreeDVertexAttributeFormat::spec_parse(raw),
    {
        if raw & 0x40000020u32 != 0 {
            None
        } else {
            Some(MaxwellThreeDVertexAttributeFormat(raw))
        }
    }

    pub open spec fn spec_raw(self) -> u32 {
        self.0
    }

    #[must_use]
    #[verifier::when_used_as_spec(spec_raw)]
    pub fn raw(self) -> (r: u32)
        ensures
            r == self.0,
    {
        self.0
    }

    /// Vertex stream that feeds the attribute.
    pub open spec fn spec_stream(self) -> u8 {
        (self.0 & 0x1f) as u8
    }

    #[must_use]
    #[verifier::when_used_as_spec(spec_stream)]
    pub fn stream(self) -> (r: u8)
        ensures
            r == self.spec_stream(),
    {
        (self.0 & 0x1f) as u8
    }

    /// Whether the attribute is fetched from its stream.
    pub open spec fn spec_enabled(self) -> bool {
        self.0 & 0x40 == 0
    }

    #[must_use]
    #[verifier::when_used_as_spec(spec_enabled)]
    pub fn enabled(self) -> (r: bool)
        ensures
            r == self.spec_enabled(),
    {
        self.0 & 0x40 == 0
    }

    /// Byte offset within one element of the stream.
    pub open spec fn spec_offset(self) -> u16 {
        ((self.0 >> 7) & 0x3fff) as u16
    }

    #[must_use]
    #[verifier::when_used_as_spec(spec_offset)]
    pub fn offset(self) -> (r: u16)
        ensures
            r == self.spec_offset(),
    {
        ((self.0 >> 7) & 0x3fff) as u16
    }

    /// Component widths, if the encoding is defined.
    pub open spec fn spec_component_widths(self) -> Option<MaxwellThreeDVertexComponentWidths> {
        MaxwellThreeDVertexComponentWidths::parse(((self.0 >> 21) & 0x3f) as u8)
    }

    #[must_use]
    #[verifier::when_used_as_spec(spec_component_widths)]
    pub fn component_widths(self) -> (r: Option<MaxwellThreeDVertexComponentWidths>)
        ensures
            r == self.spec_component_widths(),
    {
        MaxwellThreeDVertexComponentWidths::parse(((self.0 >> 21) & 0x3f) as u8)
    }

    /// Component interpretation, if the encoding is defined.
    pub open spec fn spec_numerical_type(self) -> Option<MaxwellThreeDVertexNumericalType> {
        MaxwellThreeDVertexNumericalType::parse((self.0 >> 27) & 7)
    }

    #[must_use]
    #[verifier::when_used_as_spec(spec_numerical_type)]
    pub fn numerical_type(self) -> (r: Option<MaxwellThreeDVertexNumericalType>)
        ensures
            r == self.spec_numerical_type(),
    {
        MaxwellThreeDVertexNumericalType::parse((self.0 >> 27) & 7)
    }

    /// Whether the red and blue components are exchanged.
    pub open spec fn spec_swap_red_blue(self) -> bool {
        self.0 & 0x8000_0000 != 0
    }

    #[must_use]
    #[verifier::when_used_as_spec(spec_swap_red_blue)]
    pub fn swap_red_blue(self) -> (r: bool)
        ensures
            r == self.spec_swap_red_blue(),
    {
        self.0 & 0x8000_0000 != 0
    }
}

/// Stride and enable of one vertex stream.
#[derive(Clone, Copy, Debug, PartialEq, Eq, Hash, Structural)]
pub struct MaxwellThreeDVertexStreamFormat(pub u32);

impl MaxwellThreeDVertexStreamFormat {
    #[must_use]
    pub fn from_raw(raw: u32) -> (r: MaxwellThreeDVertexStreamFormat)
        ensures
            r.0 == raw,
    {
        MaxwellThreeDVertexStreamFormat(raw)
    }

    pub open spec fn spec_raw(self) -> u32 {
        self.0
    }

    #[must_use]
    #[verifier::when_used_as_spec(spec_raw)]
    pub fn raw(self) -> (r: u32)
        ensures
            r == self.0,
    {
        self.0
    }

    /// Bytes between consecutive elements.
    pub open spec fn spec_stride(self) -> u16 {
        (self.0 & 0xfff) as u16
    }

    #[must_use]
    #[verifier::when_used_as_spec(spec_stride)]
    pub fn stride(self) -> (r: u16)
        ensures
            r == self.spec_stride(),
    {
        (self.0 & 0xfff) as u16
    }

    /// Whether the stream is fetched.
    pub open spec fn spec_enabled(self) -> bool {
        self.0 & 0x1000 != 0
    }

    #[must_use]
    #[verifier::when_used_as_spec(spec_enabled)]
    pub fn enabled(self) -> (r: bool)
        ensures
            r == self.spec_enabled(),
    {
        self.0 & 0x1000 != 0
    }
}

/// Primitive-workload balancing word.
#[derive(Clone, Copy, Debug, PartialEq, Eq, Hash, Structural)]
pub struct MaxwellThreeDBalancedPrimitiveWorkload(pub u32);

impl MaxwellThreeDBalancedPrimitiveWorkload {
    #[must_use]
    pub fn from_raw(raw: u32) -> (r: MaxwellThreeDBalancedPrimitiveWorkload)
        ensures
            r.0 == raw,
    {
        MaxwellThreeDBalancedPrimitiveWorkload(raw)
    }

    pub open spec fn spec_raw(self) -> u32 {
        self.0
    }

    #[must_use]
    #[verifier::when_used_as_spec(spec_raw)]
    pub fn raw(self) -> (r: u32)
        ensures
            r == self.0,
    {
        self.0
    }
}

/// Primitive circular-buffer throttle word.
#[derive(Clone, Copy, Debug, PartialEq, Eq, Hash, Structural)]
pub struct MaxwellThreeDPrimitiveCircularBufferThrottle(pub u32);

impl MaxwellThreeDPrimitiveCircularBufferThrottle {
    #[must_use]
    pub fn from_raw(raw: u32) -> (r: MaxwellThreeDPrimitiveCircularBufferThrottle)
        ensures
            r.0 == raw,
    {
        MaxwellThreeDPrimitiveCircularBufferThrottle(raw)
    }

    pub open spec fn spec_raw(self) -> u32 {
        self.0
    }

    #[must_use]
    #[verifier::when_used_as_spec(spec_raw)]
    pub fn raw(self) -> (r: u32)
        ensures
            r == self.0,
    {
        self.0
    }
}

/// Control points of one patch.
#[derive(Clone, Copy, Debug, PartialEq, Eq, Hash, Structural)]
pub struct MaxwellThreeDPatchSize(pub u8);

impl MaxwellThreeDPatchSize {
    #[must_use]
    pub fn new(control_points: u8) -> (r: MaxwellThreeDPatchSize)
        ensures
            r.0 == control_points,
    {
        MaxwellThreeDPatchSize(control_points)
    }

    pub open spec fn spec_control_points(self) -> u8 {
        self.0
    }

    #[must_use]
    #[verifier::when_used_as_spec(spec_control_points)]
    pub fn control_points(self) -> (r: u8)
        ensures
            r == self.0,
    {
        self.0
    }
}

/// Primitive restart in non-indexed draws.
#[derive(Clone, Copy, Debug, PartialEq, Eq, Hash, Structural)]
pub enum MaxwellThreeDVertexArrayPrimitiveRestartEnable {
    Disabled,
    Enabled,
}

impl MaxwellThreeDVertexArrayPrimitiveRestartEnable {
    /// Field encoding of each value.
    pub open spec fn spec_raw(self) -> u32 {
        match self {
            MaxwellThreeDVertexArrayPrimitiveRestartEnable::Disabled => 0,
            MaxwellThreeDVertexArrayPrimitiveRestartEnable::Enabled => 1,
        }
    }

    /// Value of each defined encoding.
    pub open spec fn spec_parse(raw: u32) -> Option<MaxwellThreeDVertexArrayPrimitiveRestartEnable> {
        if raw == 0 {
            Some(MaxwellThreeDVertexArrayPrimitiveRestartEnable::Disabled)
        } else if raw == 1 {
            Some(MaxwellThreeDVertexArrayPrimitiveRestartEnable::Enabled)
        } else {
            None
        }
    }

    #[verifier::when_used_as_spec(spec_parse)]
    pub fn parse(raw: u32) -> (r: Option<MaxwellThreeDVertexArrayPrimitiveRestartEnable>)
        ensures
            r == MaxwellThreeDVertexArrayPrimitiveRestartEnable::spec_parse(raw),
    {
        match raw {
            0 => Some(MaxwellThreeDVertexArrayPrimitiveRestartEnable::Disabled),
            1 => Some(MaxwellThreeDVertexArrayPrimitiveRestartEnable::Enabled),
            _ => None,
        }
    }

    #[must_use]
    #[verifier::when_used_as_spec(spec_raw)]
    pub fn raw(self) -> (r: u32)
        ensures
            r == self.spec_raw(),
    {
        match self {
            MaxwellThreeDVertexArrayPrimitiveRestartEnable::Disabled => 0,
            MaxwellThreeDVertexArrayPrimitiveRestartEnable::Enabled => 1,
        }
    }

    /// Decoding and encoding are inverse: a word decodes to a value exactly
    /// when it is the encoding of that value.
    pub proof fn law_codec(raw: u32, value: MaxwellThreeDVertexArrayPrimitiveRestartEnable)
        ensures
            MaxwellThreeDVertexArrayPrimitiveRestartEnable::spec_parse(raw) == Some(value) <==> value.spec_raw() == raw,
    {
    }
}

/// Base of the vertex id in non-indexed draws.
#[derive(Clone, Copy, Debug, PartialEq, Eq, Hash, Structural)]
pub enum MaxwellThreeDVertexIdUsesArrayStart {
    Disabled,
    Enabled,
}

impl MaxwellThreeDVertexIdUsesArrayStart {
    /// Field encoding of each value.
    pub open spec fn spec_raw(self) -> u32 {
        match self {
            MaxwellThreeDVertexIdUsesArrayStart::Disabled => 0,
            MaxwellThreeDVertexIdUsesArrayStart::Enabled => 1,
        }
    }

    /// Value of each defined encoding.
    pub open spec fn spec_parse(raw: u32) -> Option<MaxwellThreeDVertexIdUsesArrayStart> {
        if raw == 0 {
            Some(MaxwellThreeDVertexIdUsesArrayStart::Disabled)
        } else if raw == 1 {
            Some(MaxwellThreeDVertexIdUsesArrayStart::Enabled)
        } else {
            None
        }
    }

    #[verifier::when_used_as_spec(spec_parse)]
    pub fn parse(raw: u32) -> (r: Option<MaxwellThreeDVertexIdUsesArrayStart>)
        ensures
            r == MaxwellThreeDVertexIdUsesArrayStart::spec_parse(raw),
    {
        match raw {
            0 => Some(MaxwellThreeDVertexIdUsesArrayStart::Disabled),
            1 => Some(MaxwellThreeDVertexIdUsesArrayStart::Enabled),
            _ => None,
        }
    }

    #[must_use]
    #[verifier::when_used_as_spec(spec_raw)]
    pub fn raw(self) -> (r: u32)
        ensures
            r == self.spec_raw(),
    {
        match self {
            MaxwellThreeDVertexIdUsesArrayStart::Disabled => 0,
            MaxwellThreeDVertexIdUsesArrayStart::Enabled => 1,
        }
    }

    /// Decoding and encoding are inverse: a word decodes to a value exactly
    /// when it is the encoding of that value.
    pub proof fn law_codec(raw: u32, value: MaxwellThreeDVertexIdUsesArrayStart)
        ensures
            MaxwellThreeDVertexIdUsesArrayStart::spec_parse(raw) == Some(value) <==> value.spec_raw() == raw,
    {
    }
}

/// Defaults of the attributes that no stream feeds.
#[derive(Clone, Copy, Debug, PartialEq, Eq, Hash, Structural)]
pub struct MaxwellThreeDAttributeDefaults(pub u32);

impl MaxwellThreeDAttributeDefaults {
    #[must_use]
    pub fn from_raw(raw: u32) -> (r: MaxwellThreeDAttributeDefaults)
        ensures
            r.0 == raw,
    {
        MaxwellThreeDAttributeDefaults(raw)
    }

    pub open spec fn spec_raw(self) -> u32 {
        self.0
    }

    #[must_use]
    #[verifier::when_used_as_spec(spec_raw)]
    pub fn raw(self) -> (r: u32)
        ensures
            r == self.0,
    {
        self.0
    }
}

/// Primitive sequence opened by one BEGIN method.
#[derive(Clone, Copy, Debug, PartialEq, Eq, Hash, Structural)]
pub struct MaxwellThreeDBegin(pub u32);

impl MaxwellThreeDBegin {
    /// Word without reserved bits.
    pub open spec fn spec_parse(raw: u32) -> Option<MaxwellThreeDBegin> {
        if raw & 0x92ffff00u32 != 0 {
            None
        } else {
            Some(MaxwellThreeDBegin(raw))
        }
    }

    #[verifier::when_used_as_spec(spec_parse)]
    pub fn parse(raw: u32) -> (r: Option<MaxwellThreeDBegin>)
        ensures
            r == MaxwellThreeDBegin::spec_parse(raw),
    {
        if raw & 0x92ffff00u32 != 0 {
            None
        } else {
            Some(MaxwellThreeDBegin(raw))
        }
    }

    pub open spec fn spec_raw(self) -> u32 {
        self.0
    }

    #[must_use]
    #[verifier::when_used_as_spec(spec_raw)]
    pub fn raw(self) -> (r: u32)
        ensures
            r == self.0,
    {
        self.0
    }

    /// Primitive topology code.
    pub open spec fn spec_topology(self) -> u8 {
        (self.0 & 0xff) as u8
    }

    #[must_use]
    #[verifier::when_used_as_spec(spec_topology)]
    pub fn topology(self) -> (r: u8)
        ensures
            r == self.spec_topology(),
    {
        (self.0 & 0xff) as u8
    }

    /// Whether primitive ids continue those of the previous sequence.
    pub open spec fn spec_preserve_primitive_id(self) -> bool {
        self.0 & 0x0100_0000 != 0
    }

    #[must_use]
    #[verifier::when_used_as_spec(spec_preserve_primitive_id)]
    pub fn preserve_primitive_id(self) -> (r: bool)
        ensures
            r == self.spec_preserve_primitive_id(),
    {
        self.0 & 0x0100_0000 != 0
    }

    /// Instance mode: first (0), subsequent (1) or unchanged (2).
    pub open spec fn spec_instance(self) -> u8 {
        ((self.0 >> 26) & 3) as u8
    }

    #[must_use]
    #[verifier::when_used_as_spec(spec_instance)]
    pub fn instance(self) -> (r: u8)
        ensures
            r == self.spec_instance(),
    {
        ((self.0 >> 26) & 3) as u8
    }

    /// How the sequence continues a split primitive stream.
    pub open spec fn spec_split_mode(self) -> u8 {
        ((self.0 >> 29) & 3) as u8
    }

    #[must_use]
    #[verifier::when_used_as_spec(spec_split_mode)]
    pub fn split_mode(self) -> (r: u8)
        ensures
            r == self.spec_split_mode(),
    {
        ((self.0 >> 29) & 3) as u8
    }

    /// Instance index in force once the sequence opens after one with the given index:
    /// the first instance restarts at zero, a subsequent one counts up, and any other
    /// mode keeps the index.
    pub open spec fn spec_next_instance(self, index: u32) -> u32 {
        if self.instance() == 0 {
            0
        } else if self.instance() == 1 {
            index.wrapping_add(1)
        } else {
            index
        }
    }

    #[must_use]
    #[verifier::when_used_as_spec(spec_next_instance)]
    pub fn next_instance(self, index: u32) -> (r: u32)
        ensures
            r == self.spec_next_instance(index),
    {
        if self.instance() == 0 {
            0
        } else if self.instance() == 1 {
            index.wrapping_add(1)
        } else {
            index
        }
    }
}

/// Index element size word.
#[derive(Clone, Copy, Debug, PartialEq, Eq, Hash, Structural)]
pub struct MaxwellThreeDIndexElementSize(pub u32);

impl MaxwellThreeDIndexElementSize {
    #[must_use]
    pub fn from_raw(raw: u32) -> (r: MaxwellThreeDIndexElementSize)
        ensures
            r.0 == raw,
    {
        MaxwellThreeDIndexElementSize(raw)
    }

    pub open spec fn spec_raw(self) -> u32 {
        self.0
    }

    #[must_use]
    #[verifier::when_used_as_spec(spec_raw)]
    pub fn raw(self) -> (r: u32)
        ensures
            r == self.0,
    {
        self.0
    }
}

/// Primitive topology override word.
#[derive(Clone, Copy, Debug, PartialEq, Eq, Hash, Structural)]
pub struct MaxwellThreeDPrimitiveTopology(pub u32);

impl MaxwellThreeDPrimitiveTopology {
    #[must_use]
    pub fn from_raw(raw: u32) -> (r: MaxwellThreeDPrimitiveTopology)
        ensures
            r.0 == raw,
    {
        MaxwellThreeDPrimitiveTopology(raw)
    }

    pub open spec fn spec_raw(self) -> u32 {
        self.0
    }

    #[must_use]
    #[verifier::when_used_as_spec(spec_raw)]
    pub fn raw(self) -> (r: u32)
        ensures
            r == self.0,
    {
        self.0
    }
}

/// One validated vertex-input transition.
#[derive(Clone, Copy, Debug, PartialEq, Eq, Hash, Structural)]
#[allow(inconsistent_fields)]
pub enum MaxwellThreeDVertexInputWrite {
    Attribute { attribute: u8, value: MaxwellThreeDVertexAttributeFormat, source: MaxwellMethodSource },
    StreamInstanced { stream: u8, value: bool, source: MaxwellMethodSource },
    StreamFormat { stream: u8, value: MaxwellThreeDVertexStreamFormat, source: MaxwellMethodSource },
    StreamAddressUpper { stream: u8, value: u8, source: MaxwellMethodSource },
    StreamAddressLower { stream: u8, value: u32, source: MaxwellMethodSource },
    StreamFrequency { stream: u8, value: u32, source: MaxwellMethodSource },
    StreamLimitUpper { stream: u8, value: u8, source: MaxwellMethodSource },
    StreamLimitLower { stream: u8, value: u32, source: MaxwellMethodSource },
    BalancedPrimitiveWorkload { value: MaxwellThreeDBalancedPrimitiveWorkload, source: MaxwellMethodSource },
    StreamSubstituteAddressUpper { value: u8, source: MaxwellMethodSource },
    StreamSubstituteAddressLower { value: u32, source: MaxwellMethodSource },
    PrimitiveCircularBufferThrottle { value: MaxwellThreeDPrimitiveCircularBufferThrottle, source: MaxwellMethodSource },
    PatchSize { value: MaxwellThreeDPatchSize, source: MaxwellMethodSource },
    VertexArrayPrimitiveRestartEnable { value: MaxwellThreeDVertexArrayPrimitiveRestartEnable, source: MaxwellMethodSource },
    VertexArrayStart { value: u32, source: MaxwellMethodSource },
    GlobalBaseVertexIndex { value: u32, source: MaxwellMethodSource },
    GlobalBaseInstanceIndex { value: u32, source: MaxwellMethodSource },
    AttributeDefaults { value: MaxwellThreeDAttributeDefaults, source: MaxwellMethodSource },
    End { value: bool, source: MaxwellMethodSource },
    Begin { value: MaxwellThreeDBegin, source: MaxwellMethodSource },
    PrimitiveRestartEnable { value: bool, source: MaxwellMethodSource },
    PrimitiveRestartIndex { value: u32, source: MaxwellMethodSource },
    VertexIdUsesArrayStart { value: MaxwellThreeDVertexIdUsesArrayStart, source: MaxwellMethodSource },
    IndexAddressUpper { value: u8, source: MaxwellMethodSource },
    IndexAddressLower { value: u32, source: MaxwellMethodSource },
    IndexLimitUpper { value: u8, source: MaxwellMethodSource },
    IndexLimitLower { value: u32, source: MaxwellMethodSource },
    IndexElementSize { value: MaxwellThreeDIndexElementSize, source: MaxwellMethodSource },
    IndexFirst { value: u32, source: MaxwellMethodSource },
    TopologyOverride { value: bool, source: MaxwellMethodSource },
    Topology { value: MaxwellThreeDPrimitiveTopology, source: MaxwellMethodSource },
}

impl MaxwellThreeDVertexInputWrite {
    /// Array indices are in range.
    pub open spec fn wf(self) -> bool {
        match self {
            MaxwellThreeDVertexInputWrite::Attribute { attribute, .. } => attribute < 32,
            MaxwellThreeDVertexInputWrite::StreamInstanced { stream, .. } => stream < 32,
            MaxwellThreeDVertexInputWrite::StreamFormat { stream, .. } => stream < 32,
            MaxwellThreeDVertexInputWrite::StreamAddressUpper { stream, .. } => stream < 32,
            MaxwellThreeDVertexInputWrite::StreamAddressLower { stream, .. } => stream < 32,
            MaxwellThreeDVertexInputWrite::StreamFrequency { stream, .. } => stream < 32,
            MaxwellThreeDVertexInputWrite::StreamLimitUpper { stream, .. } => stream < 32,
            MaxwellThreeDVertexInputWrite::StreamLimitLower { stream, .. } => stream < 32,
            _ => true,
        }
    }
}

/// Vertex fetch, primitive assembly and index-buffer registers, with the primitive sequence that is open.
#[derive(Clone, Copy, Debug, PartialEq, Eq)]
pub struct MaxwellThreeDVertexInputState {
    pub attributes: [MaxwellThreeDRegister<MaxwellThreeDVertexAttributeFormat>; 32],
    pub stream_instanced: [MaxwellThreeDRegister<bool>; 32],
    pub stream_formats: [MaxwellThreeDRegister<MaxwellThreeDVertexStreamFormat>; 32],
    pub stream_address_upper: [MaxwellThreeDRegister<u8>; 32],
    pub stream_address_lower: [MaxwellThreeDRegister<u32>; 32],
    pub stream_frequencies: [MaxwellThreeDRegister<u32>; 32],
    pub stream_limit_upper: [MaxwellThreeDRegister<u8>; 32],
    pub stream_limit_lower: [MaxwellThreeDRegister<u32>; 32],
    pub balanced_primitive_workload: MaxwellThreeDRegister<MaxwellThreeDBalancedPrimitiveWorkload>,
    pub stream_substitute_address_upper: MaxwellThreeDRegister<u8>,
    pub stream_substitute_address_lower: MaxwellThreeDRegister<u32>,
    pub primitive_circular_buffer_throttle: MaxwellThreeDRegister<MaxwellThreeDPrimitiveCircularBufferThrottle>,
    pub patch_size: MaxwellThreeDRegister<MaxwellThreeDPatchSize>,
    pub vertex_array_primitive_restart: MaxwellThreeDRegister<MaxwellThreeDVertexArrayPrimitiveRestartEnable>,
    pub vertex_array_start: MaxwellThreeDRegister<u32>,
    pub global_base_vertex_index: MaxwellThreeDRegister<u32>,
    pub global_base_instance_index: MaxwellThreeDRegister<u32>,
    pub attribute_defaults: MaxwellThreeDRegister<MaxwellThreeDAttributeDefaults>,
    pub end: MaxwellThreeDRegister<bool>,
    pub begin: MaxwellThreeDRegister<MaxwellThreeDBegin>,
    pub primitive_restart: MaxwellThreeDRegister<bool>,
    pub primitive_restart_index: MaxwellThreeDRegister<u32>,
    pub vertex_id_uses_array_start: MaxwellThreeDRegister<MaxwellThreeDVertexIdUsesArrayStart>,
    pub index_address_upper: MaxwellThreeDRegister<u8>,
    pub index_address_lower: MaxwellThreeDRegister<u32>,
    pub index_limit_upper: MaxwellThreeDRegister<u8>,
    pub index_limit_lower: MaxwellThreeDRegister<u32>,
    pub index_element_size: MaxwellThreeDRegister<MaxwellThreeDIndexElementSize>,
    pub index_first: MaxwellThreeDRegister<u32>,
    pub topology_override: MaxwellThreeDRegister<bool>,
    pub topology: MaxwellThreeDRegister<MaxwellThreeDPrimitiveTopology>,
    pub active_begin: Option<MaxwellThreeDBegin>,
    pub instance_index: u32,
}

impl MaxwellThreeDVertexInputState {
    /// State before any method is decoded.
    pub open spec fn initial(self) -> bool {
        &&& forall|i: int| 0 <= i < 32 ==> self.attributes[i] == MaxwellThreeDRegister::<MaxwellThreeDVertexAttributeFormat>::unset()
        &&& forall|i: int| 0 <= i < 32 ==> self.stream_instanced[i] == MaxwellThreeDRegister::<bool>::unset()
        &&& forall|i: int| 0 <= i < 32 ==> self.stream_formats[i] == MaxwellThreeDRegister::<MaxwellThreeDVertexStreamFormat>::unset()
        &&& forall|i: int| 0 <= i < 32 ==> self.stream_address_upper[i] == MaxwellThreeDRegister::<u8>::unset()
        &&& forall|i: int| 0 <= i < 32 ==> self.stream_address_lower[i] == MaxwellThreeDRegister::<u32>::unset()
        &&& forall|i: int| 0 <= i < 32 ==> self.stream_frequencies[i] == MaxwellThreeDRegister::<u32>::unset()
        &&& forall|i: int| 0 <= i < 32 ==> self.stream_limit_upper[i] == MaxwellThreeDRegister::<u8>::unset()
        &&& forall|i: int| 0 <= i < 32 ==> self.stream_limit_lower[i] == MaxwellThreeDRegister::<u32>::unset()
        &&& self.balanced_primitive_workload == MaxwellThreeDRegister::<MaxwellThreeDBalancedPrimitiveWorkload>::unset()
        &&& self.stream_substitute_address_upper == MaxwellThreeDRegister::<u8>::unset()
        &&& self.stream_substitute_address_lower == MaxwellThreeDRegister::<u32>::unset()
        &&& self.primitive_circular_buffer_throttle == MaxwellThreeDRegister::<MaxwellThreeDPrimitiveCircularBufferThrottle>::unset()
        &&& self.patch_size == MaxwellThreeDRegister::<MaxwellThreeDPatchSize>::unset()
        &&& self.vertex_array_primitive_restart == MaxwellThreeDRegister::<MaxwellThreeDVertexArrayPrimitiveRestartEnable>::unset()
        &&& self.vertex_array_start == MaxwellThreeDRegister::<u32>::unset()
        &&& self.global_base_vertex_index == MaxwellThreeDRegister::<u32>::unset()
        &&& self.global_base_instance_index == MaxwellThreeDRegister::<u32>::unset()
        &&& self.attribute_defaults == MaxwellThreeDRegister::<MaxwellThreeDAttributeDefaults>::unset()
        &&& self.end == MaxwellThreeDRegister::<bool>::unset()
        &&& self.begin == MaxwellThreeDRegister::<MaxwellThreeDBegin>::unset()
        &&& self.primitive_restart == MaxwellThreeDRegister::<bool>::unset()
        &&& self.primitive_restart_index == MaxwellThreeDRegister::<u32>::unset()
        &&& self.vertex_id_uses_array_start == MaxwellThreeDRegister::<MaxwellThreeDVertexIdUsesArrayStart>::unset()
        &&& self.index_address_upper == MaxwellThreeDRegister::<u8>::unset()
        &&& self.index_address_lower == MaxwellThreeDRegister::<u32>::unset()
        &&& self.index_limit_upper == MaxwellThreeDRegister::<u8>::unset()
        &&& self.index_limit_lower == MaxwellThreeDRegister::<u32>::unset()
        &&& self.index_element_size == MaxwellThreeDRegister::<MaxwellThreeDIndexElementSize>::unset()
        &&& self.index_first == MaxwellThreeDRegister::<u32>::unset()
        &&& self.topology_override == MaxwellThreeDRegister::<bool>::unset()
        &&& self.topology == MaxwellThreeDRegister::<MaxwellThreeDPrimitiveTopology>::unset()
        &&& self.active_begin == None::<MaxwellThreeDBegin>
        &&& self.instance_index == 0u32
    }

    /// State after one transition: the addressed register holds the written word,
    /// its value and its source, and every other register is unchanged.
    pub open spec fn written(self, write: MaxwellThreeDVertexInputWrite) -> MaxwellThreeDVertexInputState {
        match write {
            MaxwellThreeDVertexInputWrite::Attribute { attribute, value, source } => MaxwellThreeDVertexInputState {
                attributes: vstd::array::spec_array_update(
                    self.attributes,
                    attribute as int,
                    MaxwellThreeDRegister::programmed(source.argument(), value, source),
                ),
                ..self
            },
            MaxwellThreeDVertexInputWrite::StreamInstanced { stream, value, source } => MaxwellThreeDVertexInputState {
                stream_instanced: vstd::array::spec_array_update(
                    self.stream_instanced,
                    stream as int,
                    MaxwellThreeDRegister::programmed(source.argument(), value, source),
                ),
                ..self
            },
            MaxwellThreeDVertexInputWrite::StreamFormat { stream, value, source } => MaxwellThreeDVertexInputState {
                stream_formats: vstd::array::spec_array_update(
                    self.stream_formats,
                    stream as int,
                    MaxwellThreeDRegister::programmed(source.argument(), value, source),
                ),
                ..self
            },
            MaxwellThreeDVertexInputWrite::StreamAddressUpper { stream, value, source } => MaxwellThreeDVertexInputState {
                stream_address_upper: vstd::array::spec_array_update(
                    self.stream_address_upper,
                    stream as int,
                    MaxwellThreeDRegister::programmed(source.argument(), value, source),
                ),
                ..self
            },
            MaxwellThreeDVertexInputWrite::StreamAddressLower { stream, value, source } => MaxwellThreeDVertexInputState {
                stream_address_lower: vstd::array::spec_array_update(
                    self.stream_address_lower,
                    stream as int,
                    MaxwellThreeDRegister::programmed(source.argument(), value, source),
                ),
                ..self
            },
            MaxwellThreeDVertexInputWrite::StreamFrequency { stream, value, source } => MaxwellThreeDVertexInputState {
                stream_frequencies: vstd::array::spec_array_update(
                    self.stream_frequencies,
                    stream as int,
                    MaxwellThreeDRegister::programmed(source.argument(), value, source),
                ),
                ..self
            },
            MaxwellThreeDVertexInputWrite::StreamLimitUpper { stream, value, source } => MaxwellThreeDVertexInputState {
                stream_limit_upper: vstd::array::spec_array_update(
                    self.stream_limit_upper,
                    stream as int,
                    MaxwellThreeDRegister::programmed(source.argument(), value, source),
                ),
                ..self
            },
            MaxwellThreeDVertexInputWrite::StreamLimitLower { stream, value, source } => MaxwellThreeDVertexInputState {
                stream_limit_lower: vstd::array::spec_array_update(
                    self.stream_limit_lower,
                    stream as int,
                    MaxwellThreeDRegister::programmed(source.argument(), value, source),
                ),
                ..self
            },
            MaxwellThreeDVertexInputWrite::BalancedPrimitiveWorkload { value, source } => MaxwellThreeDVertexInputState {
                balanced_primitive_workload: MaxwellThreeDRegister::programmed(source.argument(), value, source),
                ..self
            },
            MaxwellThreeDVertexInputWrite::StreamSubstituteAddressUpper { value, source } => MaxwellThreeDVertexInputState {
                stream_substitute_address_upper: MaxwellThreeDRegister::programmed(source.argument(), value, source),
                ..self
            },
            MaxwellThreeDVertexInputWrite::StreamSubstituteAddressLower { value, source } => MaxwellThreeDVertexInputState {
                stream_substitute_address_lower: MaxwellThreeDRegister::programmed(source.argument(), value, source),
                ..self
            },
            MaxwellThreeDVertexInputWrite::PrimitiveCircularBufferThrottle { value, source } => MaxwellThreeDVertexInputState {
                primitive_circular_buffer_throttle: MaxwellThreeDRegister::programmed(source.argument(), value, source),
                ..self
            },
            MaxwellThreeDVertexInputWrite::PatchSize { value, source } => MaxwellThreeDVertexInputState {
                patch_size: MaxwellThreeDRegister::programmed(source.argument(), value, source),
                ..self
            },
            MaxwellThreeDVertexInputWrite::VertexArrayPrimitiveRestartEnable { value, source } => MaxwellThreeDVertexInputState {
                vertex_array_primitive_restart: MaxwellThreeDRegister::programmed(source.argument(), value, source),
                ..self
            },
            MaxwellThreeDVertexInputWrite::VertexArrayStart { value, source } => MaxwellThreeDVertexInputState {
                vertex_array_start: MaxwellThreeDRegister::programmed(source.argument(), value, source),
                ..self
            },
            MaxwellThreeDVertexInputWrite::GlobalBaseVertexIndex { value, source } => MaxwellThreeDVertexInputState {
                global_base_vertex_index: MaxwellThreeDRegister::programmed(source.argument(), value, source),
                ..self
            },
            MaxwellThreeDVertexInputWrite::GlobalBaseInstanceIndex { value, source } => MaxwellThreeDVertexInputState {
                global_base_instance_index: MaxwellThreeDRegister::programmed(source.argument(), value, source),
                ..self
            },
            MaxwellThreeDVertexInputWrite::AttributeDefaults { value, source } => MaxwellThreeDVertexInputState {
                attribute_defaults: MaxwellThreeDRegister::programmed(source.argument(), value, source),
                ..self
            },
            MaxwellThreeDVertexInputWrite::End { value, source } => MaxwellThreeDVertexInputState {
                end: MaxwellThreeDRegister::programmed(source.argument(), value, source),
                active_begin: None,
                ..self
            },
            MaxwellThreeDVertexInputWrite::Begin { value, source } => MaxwellThreeDVertexInputState {
                begin: MaxwellThreeDRegister::programmed(source.argument(), value, source),
                active_begin: Some(value),
                instance_index: value.next_instance(self.instance_index),
                ..self
            },
            MaxwellThreeDVertexInputWrite::PrimitiveRestartEnable { value, source } => MaxwellThreeDVertexInputState {
                primitive_restart: MaxwellThreeDRegister::programmed(source.argument(), value, source),
                ..self
            },
            MaxwellThreeDVertexInputWrite::PrimitiveRestartIndex { value, source } => MaxwellThreeDVertexInputState {
                primitive_restart_index: MaxwellThreeDRegister::programmed(source.argument(), value, source),
                ..self
            },
            MaxwellThreeDVertexInputWrite::VertexIdUsesArrayStart { value, source } => MaxwellThreeDVertexInputState {
                vertex_id_uses_array_start: MaxwellThreeDRegister::programmed(source.argument(), value, source),
                ..self
            },
            MaxwellThreeDVertexInputWrite::IndexAddressUpper { value, source } => MaxwellThreeDVertexInputState {
                index_address_upper: MaxwellThreeDRegister::programmed(source.argument(), value, source),
                ..self
            },
            MaxwellThreeDVertexInputWrite::IndexAddressLower { value, source } => MaxwellThreeDVertexInputState {
                index_address_lower: MaxwellThreeDRegister::programmed(source.argument(), value, source),
                ..self
            },
            MaxwellThreeDVertexInputWrite::IndexLimitUpper { value, source } => MaxwellThreeDVertexInputState {
                index_limit_upper: MaxwellThreeDRegister::programmed(source.argument(), value, source),
                ..self
            },
            MaxwellThreeDVertexInputWrite::IndexLimitLower { value, source } => MaxwellThreeDVertexInputState {
                index_limit_lower: MaxwellThreeDRegister::programmed(source.argument(), value, source),
                ..self
            },
            MaxwellThreeDVertexInputWrite::IndexElementSize { value, source } => MaxwellThreeDVertexInputState {
                index_element_size: MaxwellThreeDRegister::programmed(source.argument(), value, source),
                ..self
            },
            MaxwellThreeDVertexInputWrite::IndexFirst { value, source } => MaxwellThreeDVertexInputState {
                index_first: MaxwellThreeDRegister::programmed(source.argument(), value, source),
                ..self
            },
            MaxwellThreeDVertexInputWrite::TopologyOverride { value, source } => MaxwellThreeDVertexInputState {
                topology_override: MaxwellThreeDRegister::programmed(source.argument(), value, source),
                ..self
            },
            MaxwellThreeDVertexInputWrite::Topology { value, source } => MaxwellThreeDVertexInputState {
                topology: MaxwellThreeDRegister::programmed(source.argument(), value, source),
                ..self
            },
        }
    }

    #[must_use]
    pub fn attributes(&self, attribute: u8) -> (r: &MaxwellThreeDRegister<MaxwellThreeDVertexAttributeFormat>)
        requires
            attribute < 32,
        ensures
            *r == self.attributes[attribute as int],
    {
        &self.attributes[attribute as usize]
    }

    #[must_use]
    pub fn stream_instanced(&self, stream: u8) -> (r: &MaxwellThreeDRegister<bool>)
        requires
            stream < 32,
        ensures
            *r == self.stream_instanced[stream as int],
    {
        &self.stream_instanced[stream as usize]
    }

    #[must_use]
    pub fn stream_formats(&self, stream: u8) -> (r: &MaxwellThreeDRegister<MaxwellThreeDVertexStreamFormat>)
        requires
            stream < 32,
        ensures
            *r == self.stream_formats[stream as int],
    {
        &self.stream_formats[stream as usize]
    }

    #[must_use]
    pub fn stream_address_upper(&self, stream: u8) -> (r: &MaxwellThreeDRegister<u8>)
        requires
            stream < 32,
        ensures
            *r == self.stream_address_upper[stream as int],
    {
        &self.stream_address_upper[stream as usize]
    }

    #[must_use]
    pub fn stream_address_lower(&self, stream: u8) -> (r: &MaxwellThreeDRegister<u32>)
        requires
            stream < 32,
        ensures
            *r == self.stream_address_lower[stream as int],
    {
        &self.stream_address_lower[stream as usize]
    }

    #[must_use]
    pub fn stream_frequencies(&self, stream: u8) -> (r: &MaxwellThreeDRegister<u32>)
        requires
            stream < 32,
        ensures
            *r == self.stream_frequencies[stream as int],
    {
        &self.stream_frequencies[stream as usize]
    }

    #[must_use]
    pub fn stream_limit_upper(&self, stream: u8) -> (r: &MaxwellThreeDRegister<u8>)
        requires
            stream < 32,
        ensures
            *r == self.stream_limit_upper[stream as int],
    {
        &self.stream_limit_upper[stream as usize]
    }

    #[must_use]
    pub fn stream_limit_lower(&self, stream: u8) -> (r: &MaxwellThreeDRegister<u32>)
        requires
            stream < 32,
        ensures
            *r == self.stream_limit_lower[stream as int],
    {
        &self.stream_limit_lower[stream as usize]
    }

    #[must_use]
    pub fn balanced_primitive_workload(&self) -> (r: &MaxwellThreeDRegister<MaxwellThreeDBalancedPrimitiveWorkload>)
        ensures
            *r == self.balanced_primitive_workload,
    {
        &self.balanced_primitive_workload
    }

    #[must_use]
    pub fn stream_substitute_address_upper(&self) -> (r: &MaxwellThreeDRegister<u8>)
        ensures
            *r == self.stream_substitute_address_upper,
    {
        &self.stream_substitute_address_upper
    }

    #[must_use]
    pub fn stream_substitute_address_lower(&self) -> (r: &MaxwellThreeDRegister<u32>)
        ensures
            *r == self.stream_substitute_address_lower,
    {
        &self.stream_substitute_address_lower
    }

    #[must_use]
    pub fn primitive_circular_buffer_throttle(&self) -> (r: &MaxwellThreeDRegister<MaxwellThreeDPrimitiveCircularBufferThrottle>)
        ensures
            *r == self.primitive_circular_buffer_throttle,
    {
        &self.primitive_circular_buffer_throttle
    }

    #[must_use]
    pub fn patch_size(&self) -> (r: &MaxwellThreeDRegister<MaxwellThreeDPatchSize>)
        ensures
            *r == self.patch_size,
    {
        &self.patch_size
    }

    #[must_use]
    pub fn vertex_array_primitive_restart(&self) -> (r: &MaxwellThreeDRegister<MaxwellThreeDVertexArrayPrimitiveRestartEnable>)
        ensures
            *r == self.vertex_array_primitive_restart,
    {
        &self.vertex_array_primitive_restart
    }

    #[must_use]
    pub fn vertex_array_start(&self) -> (r: &MaxwellThreeDRegister<u32>)
        ensures
            *r == self.vertex_array_start,
    {
        &self.vertex_array_start
    }

    #[must_use]
    pub fn global_base_vertex_index(&self) -> (r: &MaxwellThreeDRegister<u32>)
        ensures
            *r == self.global_base_vertex_index,
    {
        &self.global_base_vertex_index
    }

    #[must_use]
    pub fn global_base_instance_index(&self) -> (r: &MaxwellThreeDRegister<u32>)
        ensures
            *r == self.global_base_instance_index,
    {
        &self.global_base_instance_index
    }

    #[must_use]
    pub fn attribute_defaults(&self) -> (r: &MaxwellThreeDRegister<MaxwellThreeDAttributeDefaults>)
        ensures
            *r == self.attribute_defaults,
    {
        &self.attribute_defaults
    }

    #[must_use]
    pub fn end(&self) -> (r: &MaxwellThreeDRegister<bool>)
        ensures
            *r == self.end,
    {
        &self.end
    }

    #[must_use]
    pub fn begin(&self) -> (r: &MaxwellThreeDRegister<MaxwellThreeDBegin>)
        ensures
            *r == self.begin,
    {
        &self.begin
    }

    #[must_use]
    pub fn primitive_restart(&self) -> (r: &MaxwellThreeDRegister<bool>)
        ensures
            *r == self.primitive_restart,
    {
        &self.primitive_restart
    }

    #[must_use]
    pub fn primitive_restart_index(&self) -> (r: &MaxwellThreeDRegister<u32>)
        ensures
            *r == self.primitive_restart_index,
    {
        &self.primitive_restart_index
    }

    #[must_use]
    pub fn vertex_id_uses_array_start(&self) -> (r: &MaxwellThreeDRegister<MaxwellThreeDVertexIdUsesArrayStart>)
        ensures
            *r == self.vertex_id_uses_array_start,
    {
        &self.vertex_id_uses_array_start
    }

    #[must_use]
    pub fn index_address_upper(&self) -> (r: &MaxwellThreeDRegister<u8>)
        ensures
            *r == self.index_address_upper,
    {
        &self.index_address_upper
    }

    #[must_use]
    pub fn index_address_lower(&self) -> (r: &MaxwellThreeDRegister<u32>)
        ensures
            *r == self.index_address_lower,
    {
        &self.index_address_lower
    }

    #[must_use]
    pub fn index_limit_upper(&self) -> (r: &MaxwellThreeDRegister<u8>)
        ensures
            *r == self.index_limit_upper,
    {
        &self.index_limit_upper
    }

    #[must_use]
    pub fn index_limit_lower(&self) -> (r: &MaxwellThreeDRegister<u32>)
        ensures
            *r == self.index_limit_lower,
    {
        &self.index_limit_lower
    }

    #[must_use]
    pub fn index_element_size(&self) -> (r: &MaxwellThreeDRegister<MaxwellThreeDIndexElementSize>)
        ensures
            *r == self.index_element_size,
    {
        &self.index_element_size
    }

    #[must_use]
    pub fn index_first(&self) -> (r: &MaxwellThreeDRegister<u32>)
        ensures
            *r == self.index_first,
    {
        &self.index_first
    }

    #[must_use]
    pub fn topology_override(&self) -> (r: &MaxwellThreeDRegister<bool>)
        ensures
            *r == self.topology_override,
    {
        &self.topology_override
    }

    #[must_use]
    pub fn topology(&self) -> (r: &MaxwellThreeDRegister<MaxwellThreeDPrimitiveTopology>)
        ensures
            *r == self.topology,
    {
        &self.topology
    }

    #[must_use]
    pub fn active_begin(&self) -> (r: Option<MaxwellThreeDBegin>)
        ensures
            r == self.active_begin,
    {
        self.active_begin
    }

    #[must_use]
    pub fn instance_index(&self) -> (r: u32)
        ensures
            r == self.instance_index,
    {
        self.instance_index
    }

    /// State with every register unset.
    #[must_use]
    pub fn unprogrammed() -> (r: MaxwellThreeDVertexInputState)
        ensures
            r.initial(),
    {
        MaxwellThreeDVertexInputState {
            attributes: [
                MaxwellThreeDRegister::unset(),
                MaxwellThreeDRegister::unset(),
                MaxwellThreeDRegister::unset(),
                MaxwellThreeDRegister::unset(),
                MaxwellThreeDRegister::unset(),
                MaxwellThreeDRegister::unset(),
                MaxwellThreeDRegister::unset(),
                MaxwellThreeDRegister::unset(),
                MaxwellThreeDRegister::unset(),
                MaxwellThreeDRegister::unset(),
                MaxwellThreeDRegister::unset(),
                MaxwellThreeDRegister::unset(),
                MaxwellThreeDRegister::unset(),
                MaxwellThreeDRegister::unset(),
                MaxwellThreeDRegister::unset(),
                MaxwellThreeDRegister::unset(),
                MaxwellThreeDRegister::unset(),
                MaxwellThreeDRegister::unset(),
                MaxwellThreeDRegister::unset(),
                MaxwellThreeDRegister::unset(),
                MaxwellThreeDRegister::unset(),
                MaxwellThreeDRegister::unset(),
                MaxwellThreeDRegister::unset(),
                MaxwellThreeDRegister::unset(),
                MaxwellThreeDRegister::unset(),
                MaxwellThreeDRegister::unset(),
                MaxwellThreeDRegister::unset(),
                MaxwellThreeDRegister::unset(),
                MaxwellThreeDRegister::unset(),
                MaxwellThreeDRegister::unset(),
                MaxwellThreeDRegister::unset(),
                MaxwellThreeDRegister::unset(),
            ],
            stream_instanced: [
                MaxwellThreeDRegister::unset(),
                MaxwellThreeDRegister::unset(),
                MaxwellThreeDRegister::unset(),
                MaxwellThreeDRegister::unset(),
                MaxwellThreeDRegister::unset(),
                MaxwellThreeDRegister::unset(),
                MaxwellThreeDRegister::unset(),
                MaxwellThreeDRegister::unset(),
                MaxwellThreeDRegister::unset(),
                MaxwellThreeDRegister::unset(),
                MaxwellThreeDRegister::unset(),
                MaxwellThreeDRegister::unset(),
                MaxwellThreeDRegister::unset(),
                MaxwellThreeDRegister::unset(),
                MaxwellThreeDRegister::unset(),
                MaxwellThreeDRegister::unset(),
                MaxwellThreeDRegister::unset(),
                MaxwellThreeDRegister::unset(),
                MaxwellThreeDRegister::unset(),
                MaxwellThreeDRegister::unset(),
                MaxwellThreeDRegister::unset(),
                MaxwellThreeDRegister::unset(),
                MaxwellThreeDRegister::unset(),
                MaxwellThreeDRegister::unset(),
                MaxwellThreeDRegister::unset(),
                MaxwellThreeDRegister::unset(),
                MaxwellThreeDRegister::unset(),
                MaxwellThreeDRegister::unset(),
                MaxwellThreeDRegister::unset(),
                MaxwellThreeDRegister::unset(),
                MaxwellThreeDRegister::unset(),
                MaxwellThreeDRegister::unset(),
            ],
            stream_formats: [
                MaxwellThreeDRegister::unset(),
                MaxwellThreeDRegister::unset(),
                MaxwellThreeDRegister::unset(),
                MaxwellThreeDRegister::unset(),
                MaxwellThreeDRegister::unset(),
                MaxwellThreeDRegister::unset(),
                MaxwellThreeDRegister::unset(),
                MaxwellThreeDRegister::unset(),
                MaxwellThreeDRegister::unset(),
                MaxwellThreeDRegister::unset(),
                MaxwellThreeDRegister::unset(),
                MaxwellThreeDRegister::unset(),
                MaxwellThreeDRegister::unset(),
                MaxwellThreeDRegister::unset(),
                MaxwellThreeDRegister::unset(),
                MaxwellThreeDRegister::unset(),
                MaxwellThreeDRegister::unset(),
                MaxwellThreeDRegister::unset(),
                MaxwellThreeDRegister::unset(),
                MaxwellThreeDRegister::unset(),
                MaxwellThreeDRegister::unset(),
                MaxwellThreeDRegister::unset(),
                MaxwellThreeDRegister::unset(),
                MaxwellThreeDRegister::unset(),
                MaxwellThreeDRegister::unset(),
                MaxwellThreeDRegister::unset(),
                MaxwellThreeDRegister::unset(),
                MaxwellThreeDRegister::unset(),
                MaxwellThreeDRegister::unset(),
                MaxwellThreeDRegister::unset(),
                MaxwellThreeDRegister::unset(),
                MaxwellThreeDRegister::unset(),
            ],
            stream_address_upper: [
                MaxwellThreeDRegister::unset(),
                MaxwellThreeDRegister::unset(),
                MaxwellThreeDRegister::unset(),
                MaxwellThreeDRegister::unset(),
                MaxwellThreeDRegister::unset(),
                MaxwellThreeDRegister::unset(),
                MaxwellThreeDRegister::unset(),
                MaxwellThreeDRegister::unset(),
                MaxwellThreeDRegister::unset(),
                MaxwellThreeDRegister::unset(),
                MaxwellThreeDRegister::unset(),
                MaxwellThreeDRegister::unset(),
                MaxwellThreeDRegister::unset(),
                MaxwellThreeDRegister::unset(),
                MaxwellThreeDRegister::unset(),
                MaxwellThreeDRegister::unset(),
                MaxwellThreeDRegister::unset(),
                MaxwellThreeDRegister::unset(),
                MaxwellThreeDRegister::unset(),
                MaxwellThreeDRegister::unset(),
                MaxwellThreeDRegister::unset(),
                MaxwellThreeDRegister::unset(),
                MaxwellThreeDRegister::unset(),
                MaxwellThreeDRegister::unset(),
                MaxwellThreeDRegister::unset(),
                MaxwellThreeDRegister::unset(),
                MaxwellThreeDRegister::unset(),
                MaxwellThreeDRegister::unset(),
                MaxwellThreeDRegister::unset(),
                MaxwellThreeDRegister::unset(),
                MaxwellThreeDRegister::unset(),
                MaxwellThreeDRegister::unset(),
            ],
            stream_address_lower: [
                MaxwellThreeDRegister::unset(),
                MaxwellThreeDRegister::unset(),
                MaxwellThreeDRegister::unset(),
                MaxwellThreeDRegister::unset(),
                MaxwellThreeDRegister::unset(),
                MaxwellThreeDRegister::unset(),
                MaxwellThreeDRegister::unset(),
                MaxwellThreeDRegister::unset(),
                MaxwellThreeDRegister::unset(),
                MaxwellThreeDRegister::unset(),
                MaxwellThreeDRegister::unset(),
                MaxwellThreeDRegister::unset(),
                MaxwellThreeDRegister::unset(),
                MaxwellThreeDRegister::unset(),
                MaxwellThreeDRegister::unset(),
                MaxwellThreeDRegister::unset(),
                MaxwellThreeDRegister::unset(),
                MaxwellThreeDRegister::unset(),
                MaxwellThreeDRegister::unset(),
                MaxwellThreeDRegister::unset(),
                MaxwellThreeDRegister::unset(),
                MaxwellThreeDRegister::unset(),
                MaxwellThreeDRegister::unset(),
                MaxwellThreeDRegister::unset(),
                MaxwellThreeDRegister::unset(),
                MaxwellThreeDRegister::unset(),
                MaxwellThreeDRegister::unset(),
                MaxwellThreeDRegister::unset(),
                MaxwellThreeDRegister::unset(),
                MaxwellThreeDRegister::unset(),
                MaxwellThreeDRegister::unset(),
                MaxwellThreeDRegister::unset(),
            ],
            stream_frequencies: [
                MaxwellThreeDRegister::unset(),
                MaxwellThreeDRegister::unset(),
                MaxwellThreeDRegister::unset(),
                MaxwellThreeDRegister::unset(),
                MaxwellThreeDRegister::unset(),
                MaxwellThreeDRegister::unset(),
                MaxwellThreeDRegister::unset(),
                MaxwellThreeDRegister::unset(),
                MaxwellThreeDRegister::unset(),
                MaxwellThreeDRegister::unset(),
                MaxwellThreeDRegister::unset(),
                MaxwellThreeDRegister::unset(),
                MaxwellThreeDRegister::unset(),
                MaxwellThreeDRegister::unset(),
                MaxwellThreeDRegister::unset(),
                MaxwellThreeDRegister::unset(),
                MaxwellThreeDRegister::unset(),
                MaxwellThreeDRegister::unset(),
                MaxwellThreeDRegister::unset(),
                MaxwellThreeDRegister::unset(),
                MaxwellThreeDRegister::unset(),
                MaxwellThreeDRegister::unset(),
                MaxwellThreeDRegister::unset(),
                MaxwellThreeDRegister::unset(),
                MaxwellThreeDRegister::unset(),
                MaxwellThreeDRegister::unset(),
                MaxwellThreeDRegister::unset(),
                MaxwellThreeDRegister::unset(),
                MaxwellThreeDRegister::unset(),
                MaxwellThreeDRegister::unset(),
                MaxwellThreeDRegister::unset(),
                MaxwellThreeDRegister::unset(),
            ],
            stream_limit_upper: [
                MaxwellThreeDRegister::unset(),
                MaxwellThreeDRegister::unset(),
                MaxwellThreeDRegister::unset(),
                MaxwellThreeDRegister::unset(),
                MaxwellThreeDRegister::unset(),
                MaxwellThreeDRegister::unset(),
                MaxwellThreeDRegister::unset(),
                MaxwellThreeDRegister::unset(),
                MaxwellThreeDRegister::unset(),
                MaxwellThreeDRegister::unset(),
                MaxwellThreeDRegister::unset(),
                MaxwellThreeDRegister::unset(),
                MaxwellThreeDRegister::unset(),
                MaxwellThreeDRegister::unset(),
                MaxwellThreeDRegister::unset(),
                MaxwellThreeDRegister::unset(),
                MaxwellThreeDRegister::unset(),
                MaxwellThreeDRegister::unset(),
                MaxwellThreeDRegister::unset(),
                MaxwellThreeDRegister::unset(),
                MaxwellThreeDRegister::unset(),
                MaxwellThreeDRegister::unset(),
                MaxwellThreeDRegister::unset(),
                MaxwellThreeDRegister::unset(),
                MaxwellThreeDRegister::unset(),
                MaxwellThreeDRegister::unset(),
                MaxwellThreeDRegister::unset(),
                MaxwellThreeDRegister::unset(),
                MaxwellThreeDRegister::unset(),
                MaxwellThreeDRegister::unset(),
                MaxwellThreeDRegister::unset(),
                MaxwellThreeDRegister::unset(),
            ],
            stream_limit_lower: [
                MaxwellThreeDRegister::unset(),
                MaxwellThreeDRegister::unset(),
                MaxwellThreeDRegister::unset(),
                MaxwellThreeDRegister::unset(),
                MaxwellThreeDRegister::unset(),
                MaxwellThreeDRegister::unset(),
                MaxwellThreeDRegister::unset(),
                MaxwellThreeDRegister::unset(),
                MaxwellThreeDRegister::unset(),
                MaxwellThreeDRegister::unset(),
                MaxwellThreeDRegister::unset(),
                MaxwellThreeDRegister::unset(),
                MaxwellThreeDRegister::unset(),
                MaxwellThreeDRegister::unset(),
                MaxwellThreeDRegister::unset(),
                MaxwellThreeDRegister::unset(),
                MaxwellThreeDRegister::unset(),
                MaxwellThreeDRegister::unset(),
                MaxwellThreeDRegister::unset(),
                MaxwellThreeDRegister::unset(),
                MaxwellThreeDRegister::unset(),
                MaxwellThreeDRegister::unset(),
                MaxwellThreeDRegister::unset(),
                MaxwellThreeDRegister::unset(),
                MaxwellThreeDRegister::unset(),
                MaxwellThreeDRegister::unset(),
                MaxwellThreeDRegister::unset(),
                MaxwellThreeDRegister::unset(),
                MaxwellThreeDRegister::unset(),
                MaxwellThreeDRegister::unset(),
                MaxwellThreeDRegister::unset(),
                MaxwellThreeDRegister::unset(),
            ],
            balanced_primitive_workload: MaxwellThreeDRegister::unset(),
            stream_substitute_address_upper: MaxwellThreeDRegister::unset(),
            stream_substitute_address_lower: MaxwellThreeDRegister::unset(),
            primitive_circular_buffer_throttle: MaxwellThreeDRegister::unset(),
            patch_size: MaxwellThreeDRegister::unset(),
            vertex_array_primitive_restart: MaxwellThreeDRegister::unset(),
            vertex_array_start: MaxwellThreeDRegister::unset(),
            global_base_vertex_index: MaxwellThreeDRegister::unset(),
            global_base_instance_index: MaxwellThreeDRegister::unset(),
            attribute_defaults: MaxwellThreeDRegister::unset(),
            end: MaxwellThreeDRegister::unset(),
            begin: MaxwellThreeDRegister::unset(),
            primitive_restart: MaxwellThreeDRegister::unset(),
            primitive_restart_index: MaxwellThreeDRegister::unset(),
            vertex_id_uses_array_start: MaxwellThreeDRegister::unset(),
            index_address_upper: MaxwellThreeDRegister::unset(),
            index_address_lower: MaxwellThreeDRegister::unset(),
            index_limit_upper: MaxwellThreeDRegister::unset(),
            index_limit_lower: MaxwellThreeDRegister::unset(),
            index_element_size: MaxwellThreeDRegister::unset(),
            index_first: MaxwellThreeDRegister::unset(),
            topology_override: MaxwellThreeDRegister::unset(),
            topology: MaxwellThreeDRegister::unset(),
            active_begin: None::<MaxwellThreeDBegin>,
            instance_index: 0u32,
        }
    }

    /// END closes the open sequence and BEGIN opens one, whatever was open before.
    pub proof fn law_sequence_brackets(self, begin: MaxwellThreeDBegin, end: bool, source: MaxwellMethodSource)
        ensures
            self.written(MaxwellThreeDVertexInputWrite::Begin { value: begin, source }).active_begin
                == Some(begin),
            self.written(MaxwellThreeDVertexInputWrite::End { value: end, source }).active_begin
                is None,
            self.written(MaxwellThreeDVertexInputWrite::Begin { value: begin, source }).written(
                MaxwellThreeDVertexInputWrite::End { value: end, source },
            ).instance_index == begin.next_instance(self.instance_index),
    {
    }

    pub fn apply(&mut self, write: MaxwellThreeDVertexInputWrite)
        requires
            write.wf(),
        ensures
            *final(self) == old(self).written(write),
    {
        match write {
            MaxwellThreeDVertexInputWrite::Attribute { attribute, value, source } => {
                self.attributes[attribute as usize] = MaxwellThreeDRegister::programmed(source.argument(), value, source);
            },
            MaxwellThreeDVertexInputWrite::StreamInstanced { stream, value, source } => {
                self.stream_instanced[stream as usize] = MaxwellThreeDRegister::programmed(source.argument(), value, source);
            },
            MaxwellThreeDVertexInputWrite::StreamFormat { stream, value, source } => {
                self.stream_formats[stream as usize] = MaxwellThreeDRegister::programmed(source.argument(), value, source);
            },
            MaxwellThreeDVertexInputWrite::StreamAddressUpper { stream, value, source } => {
                self.stream_address_upper[stream as usize] = MaxwellThreeDRegister::programmed(source.argument(), value, source);
            },
            MaxwellThreeDVertexInputWrite::StreamAddressLower { stream, value, source } => {
                self.stream_address_lower[stream as usize] = MaxwellThreeDRegister::programmed(source.argument(), value, source);
            },
            MaxwellThreeDVertexInputWrite::StreamFrequency { stream, value, source } => {
                self.stream_frequencies[stream as usize] = MaxwellThreeDRegister::programmed(source.argument(), value, source);
            },
            MaxwellThreeDVertexInputWrite::StreamLimitUpper { stream, value, source } => {
                self.stream_limit_upper[stream as usize] = MaxwellThreeDRegister::programmed(source.argument(), value, source);
            },
            MaxwellThreeDVertexInputWrite::StreamLimitLower { stream, value, source } => {
                self.stream_limit_lower[stream as usize] = MaxwellThreeDRegister::programmed(source.argument(), value, source);
            },
            MaxwellThreeDVertexInputWrite::BalancedPrimitiveWorkload { value, source } => {
                self.balanced_primitive_workload = MaxwellThreeDRegister::programmed(source.argument(), value, source);
            },
            MaxwellThreeDVertexInputWrite::StreamSubstituteAddressUpper { value, source } => {
                self.stream_substitute_address_upper = MaxwellThreeDRegister::programmed(source.argument(), value, source);
            },
            MaxwellThreeDVertexInputWrite::StreamSubstituteAddressLower { value, source } => {
                self.stream_substitute_address_lower = MaxwellThreeDRegister::programmed(source.argument(), value, source);
            },
            MaxwellThreeDVertexInputWrite::PrimitiveCircularBufferThrottle { value, source } => {
                self.primitive_circular_buffer_throttle = MaxwellThreeDRegister::programmed(source.argument(), value, source);
            },
            MaxwellThreeDVertexInputWrite::PatchSize { value, source } => {
                self.patch_size = MaxwellThreeDRegister::programmed(source.argument(), value, source);
            },
            MaxwellThreeDVertexInputWrite::VertexArrayPrimitiveRestartEnable { value, source } => {
                self.vertex_array_primitive_restart = MaxwellThreeDRegister::programmed(source.argument(), value, source);
            },
            MaxwellThreeDVertexInputWrite::VertexArrayStart { value, source } => {
                self.vertex_array_start = MaxwellThreeDRegister::programmed(source.argument(), value, source);
            },
            MaxwellThreeDVertexInputWrite::GlobalBaseVertexIndex { value, source } => {
                self.global_base_vertex_index = MaxwellThreeDRegister::programmed(source.argument(), value, source);
            },
            MaxwellThreeDVertexInputWrite::GlobalBaseInstanceIndex { value, source } => {
                self.global_base_instance_index = MaxwellThreeDRegister::programmed(source.argument(), value, source);
            },
            MaxwellThreeDVertexInputWrite::AttributeDefaults { value, source } => {
                self.attribute_defaults = MaxwellThreeDRegister::programmed(source.argument(), value, source);
            },
            MaxwellThreeDVertexInputWrite::End { value, source } => {
                self.end = MaxwellThreeDRegister::programmed(source.argument(), value, source);
                self.active_begin = None;
            },
            MaxwellThreeDVertexInputWrite::Begin { value, source } => {
                self.begin = MaxwellThreeDRegister::programmed(source.argument(), value, source);
                self.active_begin = Some(value);
                self.instance_index = value.next_instance(self.instance_index);
            },
            MaxwellThreeDVertexInputWrite::PrimitiveRestartEnable { value, source } => {
                self.primitive_restart = MaxwellThreeDRegister::programmed(source.argument(), value, source);
            },
            MaxwellThreeDVertexInputWrite::PrimitiveRestartIndex { value, source } => {
                self.primitive_restart_index = MaxwellThreeDRegister::programmed(source.argument(), value, source);
            },
            MaxwellThreeDVertexInputWrite::VertexIdUsesArrayStart { value, source } => {
                self.vertex_id_uses_array_start = MaxwellThreeDRegister::programmed(source.argument(), value, source);
            },
            MaxwellThreeDVertexInputWrite::IndexAddressUpper { value, source } => {
                self.index_address_upper = MaxwellThreeDRegister::programmed(source.argument(), value, source);
            },
            MaxwellThreeDVertexInputWrite::IndexAddressLower { value, source } => {
                self.index_address_lower = MaxwellThreeDRegister::programmed(source.argument(), value, source);
            },
            MaxwellThreeDVertexInputWrite::IndexLimitUpper { value, source } => {
                self.index_limit_upper = MaxwellThreeDRegister::programmed(source.argument(), value, source);
            },
            MaxwellThreeDVertexInputWrite::IndexLimitLower { value, source } => {
                self.index_limit_lower = MaxwellThreeDRegister::programmed(source.argument(), value, source);
            },
            MaxwellThreeDVertexInputWrite::IndexElementSize { value, source } => {
                self.index_element_size = MaxwellThreeDRegister::programmed(source.argument(), value, source);
            },
            MaxwellThreeDVertexInputWrite::IndexFirst { value, source } => {
                self.index_first = MaxwellThreeDRegister::programmed(source.argument(), value, source);
            },
            MaxwellThreeDVertexInputWrite::TopologyOverride { value, source } => {
                self.topology_override = MaxwellThreeDRegister::programmed(source.argument(), value, source);
            },
            MaxwellThreeDVertexInputWrite::Topology { value, source } => {
                self.topology = MaxwellThreeDRegister::programmed(source.argument(), value, source);
            },
        }
    }
}

impl Default for MaxwellThreeDVertexInputState {
    fn default() -> (r: MaxwellThreeDVertexInputState)
        ensures
            r.initial(),
    {
        MaxwellThreeDVertexInputState::unprogrammed()
    }
}

} // verus!
