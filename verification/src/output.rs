//! Fixed-function output state.

use vstd::prelude::*;
use crate::register::{bool_word, MaxwellMethodSource, MaxwellThreeDRawValue, MaxwellThreeDRectangle, MaxwellThreeDRegister};

verus! {

pub const MAXWELL_VIEWPORT_COUNT: usize = 16;

pub const MAXWELL_SCISSOR_COUNT: usize = 16;

pub const MAXWELL_WINDOW_CLIP_COUNT: usize = 8;

/// Depth, stencil and alpha comparison.
#[derive(Clone, Copy, Debug, PartialEq, Eq, Hash, Structural)]
pub enum MaxwellThreeDCompareOp {
    Never,
    Less,
    Equal,
    LessEqual,
    Greater,
    NotEqual,
    GreaterEqual,
    Always,
}

impl MaxwellThreeDCompareOp {
    /// Value of each defined encoding.
    pub open spec fn spec_parse(raw: u32) -> Option<MaxwellThreeDCompareOp> {
        if raw == 0x200 || raw == 1 {
            Some(MaxwellThreeDCompareOp::Never)
        } else if raw == 0x201 || raw == 2 {
            Some(MaxwellThreeDCompareOp::Less)
        } else if raw == 0x202 || raw == 3 {
            Some(MaxwellThreeDCompareOp::Equal)
        } else if raw == 0x203 || raw == 4 {
            Some(MaxwellThreeDCompareOp::LessEqual)
        } else if raw == 0x204 || raw == 5 {
            Some(MaxwellThreeDCompareOp::Greater)
        } else if raw == 0x205 || raw == 6 {
            Some(MaxwellThreeDCompareOp::NotEqual)
        } else if raw == 0x206 || raw == 7 {
            Some(MaxwellThreeDCompareOp::GreaterEqual)
        } else if raw == 0x207 || raw == 8 {
            Some(MaxwellThreeDCompareOp::Always)
        } else {
            None
        }
    }

    #[verifier::when_used_as_spec(spec_parse)]
    pub fn parse(raw: u32) -> (r: Option<MaxwellThreeDCompareOp>)
        ensures
            r == MaxwellThreeDCompareOp::spec_parse(raw),
    {
        match raw {
            0x200 | 1 => Some(MaxwellThreeDCompareOp::Never),
            0x201 | 2 => Some(MaxwellThreeDCompareOp::Less),
            0x202 | 3 => Some(MaxwellThreeDCompareOp::Equal),
            0x203 | 4 => Some(MaxwellThreeDCompareOp::LessEqual),
            0x204 | 5 => Some(MaxwellThreeDCompareOp::Greater),
            0x205 | 6 => Some(MaxwellThreeDCompareOp::NotEqual),
            0x206 | 7 => Some(MaxwellThreeDCompareOp::GreaterEqual),
            0x207 | 8 => Some(MaxwellThreeDCompareOp::Always),
            _ => None,
        }
    }

    /// The two encoding families name the same eight comparisons in the same order.
    pub proof fn law_encoding_families_agree(index: u32)
        requires
            index < 8,
        ensures
            MaxwellThreeDCompareOp::spec_parse((0x200 + index) as u32)
                == MaxwellThreeDCompareOp::spec_parse((1 + index) as u32),
            MaxwellThreeDCompareOp::spec_parse((1 + index) as u32) is Some,
    {
    }
}

/// How polygons of one facing are rasterized.
#[derive(Clone, Copy, Debug, PartialEq, Eq, Hash, Structural)]
pub enum MaxwellThreeDPolygonMode {
    Point,
    Line,
    Fill,
}

impl MaxwellThreeDPolygonMode {
    /// Value of each defined encoding.
    pub open spec fn spec_parse(raw: u32) -> Option<MaxwellThreeDPolygonMode> {
        if raw == 0x1b00 {
            Some(MaxwellThreeDPolygonMode::Point)
        } else if raw == 0x1b01 {
            Some(MaxwellThreeDPolygonMode::Line)
        } else if raw == 0x1b02 {
            Some(MaxwellThreeDPolygonMode::Fill)
        } else {
            None
        }
    }

    #[verifier::when_used_as_spec(spec_parse)]
    pub fn parse(raw: u32) -> (r: Option<MaxwellThreeDPolygonMode>)
        ensures
            r == MaxwellThreeDPolygonMode::spec_parse(raw),
    {
        match raw {
            0x1b00 => Some(MaxwellThreeDPolygonMode::Point),
            0x1b01 => Some(MaxwellThreeDPolygonMode::Line),
            0x1b02 => Some(MaxwellThreeDPolygonMode::Fill),
            _ => None,
        }
    }
}

/// Interpolation of shaded outputs.
#[derive(Clone, Copy, Debug, PartialEq, Eq, Hash, Structural)]
pub enum MaxwellThreeDShadeMode {
    Flat,
    Smooth,
}

impl MaxwellThreeDShadeMode {
    /// Field encoding of each value.
    pub open spec fn spec_raw(self) -> u32 {
        match self {
            MaxwellThreeDShadeMode::Flat => 0x1d00,
            MaxwellThreeDShadeMode::Smooth => 0x1d01,
        }
    }

    /// Value of each defined encoding.
    pub open spec fn spec_parse(raw: u32) -> Option<MaxwellThreeDShadeMode> {
        if raw == 0x1d00 {
            Some(MaxwellThreeDShadeMode::Flat)
        } else if raw == 0x1d01 {
            Some(MaxwellThreeDShadeMode::Smooth)
        } else {
            None
        }
    }

    #[verifier::when_used_as_spec(spec_parse)]
    pub fn parse(raw: u32) -> (r: Option<MaxwellThreeDShadeMode>)
        ensures
            r == MaxwellThreeDShadeMode::spec_parse(raw),
    {
        match raw {
            0x1d00 => Some(MaxwellThreeDShadeMode::Flat),
            0x1d01 => Some(MaxwellThreeDShadeMode::Smooth),
            _ => None,
        }
    }

    #[must_use]
    #[verifier::when_used_as_spec(spec_raw)]
    pub fn raw(self) -> (r: u32)
        ensures
            r == self.spec_raw(),
    {
        match self {
            MaxwellThreeDShadeMode::Flat => 0x1d00,
            MaxwellThreeDShadeMode::Smooth => 0x1d01,
        }
    }

    /// Decoding and encoding are inverse: a word decodes to a value exactly
    /// when it is the encoding of that value.
    pub proof fn law_codec(raw: u32, value: MaxwellThreeDShadeMode)
        ensures
            MaxwellThreeDShadeMode::spec_parse(raw) == Some(value) <==> value.spec_raw() == raw,
    {
    }
}

/// Vertex whose flat outputs supply the value for a whole primitive.
#[derive(Clone, Copy, Debug, PartialEq, Eq, Hash, Structural)]
pub enum MaxwellThreeDProvokingVertex {
    First,
    Last,
}

impl MaxwellThreeDProvokingVertex {
    /// Field encoding of each value.
    pub open spec fn spec_raw(self) -> u32 {
        match self {
            MaxwellThreeDProvokingVertex::First => 0,
            MaxwellThreeDProvokingVertex::Last => 1,
        }
    }

    /// Value of each defined encoding.
    pub open spec fn spec_parse(raw: u32) -> Option<MaxwellThreeDProvokingVertex> {
        if raw == 0 {
            Some(MaxwellThreeDProvokingVertex::First)
        } else if raw == 1 {
            Some(MaxwellThreeDProvokingVertex::Last)
        } else {
            None
        }
    }

    #[verifier::when_used_as_spec(spec_parse)]
    pub fn parse(raw: u32) -> (r: Option<MaxwellThreeDProvokingVertex>)
        ensures
            r == MaxwellThreeDProvokingVertex::spec_parse(raw),
    {
        match raw {
            0 => Some(MaxwellThreeDProvokingVertex::First),
            1 => Some(MaxwellThreeDProvokingVertex::Last),
            _ => None,
        }
    }

    #[must_use]
    #[verifier::when_used_as_spec(spec_raw)]
    pub fn raw(self) -> (r: u32)
        ensures
            r == self.spec_raw(),
    {
        match self {
            MaxwellThreeDProvokingVertex::First => 0,
            MaxwellThreeDProvokingVertex::Last => 1,
        }
    }

    /// Decoding and encoding are inverse: a word decodes to a value exactly
    /// when it is the encoding of that value.
    pub proof fn law_codec(raw: u32, value: MaxwellThreeDProvokingVertex)
        ensures
            MaxwellThreeDProvokingVertex::spec_parse(raw) == Some(value) <==> value.spec_raw() == raw,
    {
    }
}

/// Clamp interval of one saturated pixel-shader output.
#[derive(Clone, Copy, Debug, PartialEq, Eq, Hash, Structural)]
pub enum MaxwellThreeDPixelShaderClampRange {
    ZeroToOne,
    MinusOneToOne,
}

/// Saturation controls of the eight pixel-shader color outputs.
///
/// Each nibble carries an enable bit and a signed-range bit.
#[derive(Clone, Copy, Debug, PartialEq, Eq, Hash, Structural)]
pub struct MaxwellThreeDPixelShaderSaturate(pub u32);

impl MaxwellThreeDPixelShaderSaturate {
    pub open spec fn spec_parse(raw: u32) -> Option<MaxwellThreeDPixelShaderSaturate> {
        if raw & !0x3333_3333u32 == 0 {
            Some(MaxwellThreeDPixelShaderSaturate(raw))
        } else {
            None
        }
    }

    #[verifier::when_used_as_spec(spec_parse)]
    pub fn parse(raw: u32) -> (r: Option<MaxwellThreeDPixelShaderSaturate>)
        ensures
            r == MaxwellThreeDPixelShaderSaturate::spec_parse(raw),
    {
        if raw & !0x3333_3333u32 == 0 {
            Some(MaxwellThreeDPixelShaderSaturate(raw))
        } else {
            None
        }
    }

    #[must_use]
    pub fn raw(self) -> (r: u32)
        ensures
            r == self.0,
    {
        self.0
    }

    /// Enable bit of one output.
    pub open spec fn enables(self, output: int) -> bool {
        self.0 & (1u32 << ((output * 4) as u32)) != 0
    }

    #[must_use]
    pub fn output_enabled(self, output: u8) -> (r: Option<bool>)
        ensures
            r == (if output < 8 {
                Some(self.enables(output as int))
            } else {
                None
            }),
    {
        if output < 8 {
            Some(self.0 & (1u32 << (output as u32 * 4)) != 0)
        } else {
            None
        }
    }

    #[must_use]
    pub fn clamp_range(self, output: u8) -> (r: Option<MaxwellThreeDPixelShaderClampRange>)
        ensures
            r is None <==> output >= 8,
            output < 8 ==> r == (if self.0 & (2u32 << ((output * 4) as u32)) == 0 {
                Some(MaxwellThreeDPixelShaderClampRange::ZeroToOne)
            } else {
                Some(MaxwellThreeDPixelShaderClampRange::MinusOneToOne)
            }),
    {
        if output >= 8 {
            return None;
        }
        if self.0 & (2u32 << (output as u32 * 4)) == 0 {
            Some(MaxwellThreeDPixelShaderClampRange::ZeroToOne)
        } else {
            Some(MaxwellThreeDPixelShaderClampRange::MinusOneToOne)
        }
    }

    /// The lowest-numbered enabled output.
    #[must_use]
    pub fn first_enabled_output(self) -> (r: Option<u8>)
        ensures
            match r {
                Some(output) => {
                    &&& output < 8
                    &&& self.enables(output as int)
                    &&& forall|earlier: int| 0 <= earlier < output ==> !self.enables(earlier)
                },
                None => forall|output: int| 0 <= output < 8 ==> !self.enables(output),
            },
    {
        let mut output: u8 = 0;
        while output < 8
            invariant
                output <= 8,
                forall|earlier: int| 0 <= earlier < output ==> !self.enables(earlier),
            decreases 8 - output,
        {
            if let Some(true) = self.output_enabled(output) {
                return Some(output);
            }
            output = output + 1;
        }
        None
    }
}

/// Combination rule of the window-clip rectangles.
#[derive(Clone, Copy, Debug, PartialEq, Eq, Hash, Structural)]
pub enum MaxwellThreeDWindowClipType {
    Inclusive,
    Exclusive,
    ClipAll,
}

impl MaxwellThreeDWindowClipType {
    /// Field encoding of each value.
    pub open spec fn spec_raw(self) -> u32 {
        match self {
            MaxwellThreeDWindowClipType::Inclusive => 0,
            MaxwellThreeDWindowClipType::Exclusive => 1,
            MaxwellThreeDWindowClipType::ClipAll => 2,
        }
    }

    /// Value of each defined encoding.
    pub open spec fn spec_parse(raw: u32) -> Option<MaxwellThreeDWindowClipType> {
        if raw == 0 {
            Some(MaxwellThreeDWindowClipType::Inclusive)
        } else if raw == 1 {
            Some(MaxwellThreeDWindowClipType::Exclusive)
        } else if raw == 2 {
            Some(MaxwellThreeDWindowClipType::ClipAll)
        } else {
            None
        }
    }

    #[verifier::when_used_as_spec(spec_parse)]
    pub fn parse(raw: u32) -> (r: Option<MaxwellThreeDWindowClipType>)
        ensures
            r == MaxwellThreeDWindowClipType::spec_parse(raw),
    {
        match raw {
            0 => Some(MaxwellThreeDWindowClipType::Inclusive),
            1 => Some(MaxwellThreeDWindowClipType::Exclusive),
            2 => Some(MaxwellThreeDWindowClipType::ClipAll),
            _ => None,
        }
    }

    #[must_use]
    #[verifier::when_used_as_spec(spec_raw)]
    pub fn raw(self) -> (r: u32)
        ensures
            r == self.spec_raw(),
    {
        match self {
            MaxwellThreeDWindowClipType::Inclusive => 0,
            MaxwellThreeDWindowClipType::Exclusive => 1,
            MaxwellThreeDWindowClipType::ClipAll => 2,
        }
    }

    /// Decoding and encoding are inverse: a word decodes to a value exactly
    /// when it is the encoding of that value.
    pub proof fn law_codec(raw: u32, value: MaxwellThreeDWindowClipType)
        ensures
            MaxwellThreeDWindowClipType::spec_parse(raw) == Some(value) <==> value.spec_raw() == raw,
    {
    }
}

/// Whether rasterization applies the surface clip-ID test.
#[derive(Clone, Copy, Debug, PartialEq, Eq, Hash, Structural)]
pub enum MaxwellThreeDClipIdTestEnable {
    Disabled,
    Enabled,
}

impl MaxwellThreeDClipIdTestEnable {
    /// Field encoding of each value.
    pub open spec fn spec_raw(self) -> u32 {
        match self {
            MaxwellThreeDClipIdTestEnable::Disabled => 0,
            MaxwellThreeDClipIdTestEnable::Enabled => 1,
        }
    }

    /// Value of each defined encoding.
    pub open spec fn spec_parse(raw: u32) -> Option<MaxwellThreeDClipIdTestEnable> {
        if raw == 0 {
            Some(MaxwellThreeDClipIdTestEnable::Disabled)
        } else if raw == 1 {
            Some(MaxwellThreeDClipIdTestEnable::Enabled)
        } else {
            None
        }
    }

    #[verifier::when_used_as_spec(spec_parse)]
    pub fn parse(raw: u32) -> (r: Option<MaxwellThreeDClipIdTestEnable>)
        ensures
            r == MaxwellThreeDClipIdTestEnable::spec_parse(raw),
    {
        match raw {
            0 => Some(MaxwellThreeDClipIdTestEnable::Disabled),
            1 => Some(MaxwellThreeDClipIdTestEnable::Enabled),
            _ => None,
        }
    }

    #[must_use]
    #[verifier::when_used_as_spec(spec_raw)]
    pub fn raw(self) -> (r: u32)
        ensures
            r == self.spec_raw(),
    {
        match self {
            MaxwellThreeDClipIdTestEnable::Disabled => 0,
            MaxwellThreeDClipIdTestEnable::Enabled => 1,
        }
    }

    /// Decoding and encoding are inverse: a word decodes to a value exactly
    /// when it is the encoding of that value.
    pub proof fn law_codec(raw: u32, value: MaxwellThreeDClipIdTestEnable)
        ensures
            MaxwellThreeDClipIdTestEnable::spec_parse(raw) == Some(value) <==> value.spec_raw() == raw,
    {
    }
}

/// Winding of front faces.
#[derive(Clone, Copy, Debug, PartialEq, Eq, Hash, Structural)]
pub enum MaxwellThreeDFrontFace {
    Clockwise,
    CounterClockwise,
}

impl MaxwellThreeDFrontFace {
    /// Value of each defined encoding.
    pub open spec fn spec_parse(raw: u32) -> Option<MaxwellThreeDFrontFace> {
        if raw == 0x900 {
            Some(MaxwellThreeDFrontFace::Clockwise)
        } else if raw == 0x901 {
            Some(MaxwellThreeDFrontFace::CounterClockwise)
        } else {
            None
        }
    }

    #[verifier::when_used_as_spec(spec_parse)]
    pub fn parse(raw: u32) -> (r: Option<MaxwellThreeDFrontFace>)
        ensures
            r == MaxwellThreeDFrontFace::spec_parse(raw),
    {
        match raw {
            0x900 => Some(MaxwellThreeDFrontFace::Clockwise),
            0x901 => Some(MaxwellThreeDFrontFace::CounterClockwise),
            _ => None,
        }
    }
}

/// Faces that culling removes.
#[derive(Clone, Copy, Debug, PartialEq, Eq, Hash, Structural)]
pub enum MaxwellThreeDCullFace {
    Front,
    Back,
    FrontAndBack,
}

impl MaxwellThreeDCullFace {
    /// Value of each defined encoding.
    pub open spec fn spec_parse(raw: u32) -> Option<MaxwellThreeDCullFace> {
        if raw == 0x404 {
            Some(MaxwellThreeDCullFace::Front)
        } else if raw == 0x405 {
            Some(MaxwellThreeDCullFace::Back)
        } else if raw == 0x408 {
            Some(MaxwellThreeDCullFace::FrontAndBack)
        } else {
            None
        }
    }

    #[verifier::when_used_as_spec(spec_parse)]
    pub fn parse(raw: u32) -> (r: Option<MaxwellThreeDCullFace>)
        ensures
            r == MaxwellThreeDCullFace::spec_parse(raw),
    {
        match raw {
            0x404 => Some(MaxwellThreeDCullFace::Front),
            0x405 => Some(MaxwellThreeDCullFace::Back),
            0x408 => Some(MaxwellThreeDCullFace::FrontAndBack),
            _ => None,
        }
    }
}

/// Sample layout.
#[derive(Clone, Copy, Debug, PartialEq, Eq, Hash, Structural)]
pub enum MaxwellThreeDSampleMode {
    Samples1x1,
    Samples2x1,
    Samples2x2,
    Samples4x2,
    Samples4x2D3D,
    Samples2x1D3D,
    Samples4x4,
    Coverage2x2x4,
    Coverage2x2x12,
    Coverage4x2x8,
    Coverage4x2x24,
}

impl MaxwellThreeDSampleMode {
    /// Value of each defined encoding.
    pub open spec fn spec_parse(raw: u32) -> Option<MaxwellThreeDSampleMode> {
        if raw == 0 {
            Some(MaxwellThreeDSampleMode::Samples1x1)
        } else if raw == 1 {
            Some(MaxwellThreeDSampleMode::Samples2x1)
        } else if raw == 2 {
            Some(MaxwellThreeDSampleMode::Samples2x2)
        } else if raw == 3 {
            Some(MaxwellThreeDSampleMode::Samples4x2)
        } else if raw == 4 {
            Some(MaxwellThreeDSampleMode::Samples4x2D3D)
        } else if raw == 5 {
            Some(MaxwellThreeDSampleMode::Samples2x1D3D)
        } else if raw == 6 {
            Some(MaxwellThreeDSampleMode::Samples4x4)
        } else if raw == 8 {
            Some(MaxwellThreeDSampleMode::Coverage2x2x4)
        } else if raw == 9 {
            Some(MaxwellThreeDSampleMode::Coverage2x2x12)
        } else if raw == 10 {
            Some(MaxwellThreeDSampleMode::Coverage4x2x8)
        } else if raw == 11 {
            Some(MaxwellThreeDSampleMode::Coverage4x2x24)
        } else {
            None
        }
    }

    #[verifier::when_used_as_spec(spec_parse)]
    pub fn parse(raw: u32) -> (r: Option<MaxwellThreeDSampleMode>)
        ensures
            r == MaxwellThreeDSampleMode::spec_parse(raw),
    {
        match raw {
            0 => Some(MaxwellThreeDSampleMode::Samples1x1),
            1 => Some(MaxwellThreeDSampleMode::Samples2x1),
            2 => Some(MaxwellThreeDSampleMode::Samples2x2),
            3 => Some(MaxwellThreeDSampleMode::Samples4x2),
            4 => Some(MaxwellThreeDSampleMode::Samples4x2D3D),
            5 => Some(MaxwellThreeDSampleMode::Samples2x1D3D),
            6 => Some(MaxwellThreeDSampleMode::Samples4x4),
            8 => Some(MaxwellThreeDSampleMode::Coverage2x2x4),
            9 => Some(MaxwellThreeDSampleMode::Coverage2x2x12),
            10 => Some(MaxwellThreeDSampleMode::Coverage4x2x8),
            11 => Some(MaxwellThreeDSampleMode::Coverage4x2x24),
            _ => None,
        }
    }
}

/// Stencil update.
#[derive(Clone, Copy, Debug, PartialEq, Eq, Hash, Structural)]
pub enum MaxwellThreeDStencilOp {
    Keep,
    Zero,
    Replace,
    IncrementClamp,
    DecrementClamp,
    Invert,
    IncrementWrap,
    DecrementWrap,
}

impl MaxwellThreeDStencilOp {
    /// Value of each defined encoding.
    pub open spec fn spec_parse(raw: u32) -> Option<MaxwellThreeDStencilOp> {
        if raw == 0x1e00 || raw == 1 {
            Some(MaxwellThreeDStencilOp::Keep)
        } else if raw == 0 || raw == 2 {
            Some(MaxwellThreeDStencilOp::Zero)
        } else if raw == 0x1e01 || raw == 3 {
            Some(MaxwellThreeDStencilOp::Replace)
        } else if raw == 0x1e02 || raw == 4 {
            Some(MaxwellThreeDStencilOp::IncrementClamp)
        } else if raw == 0x1e03 || raw == 5 {
            Some(MaxwellThreeDStencilOp::DecrementClamp)
        } else if raw == 0x150a || raw == 6 {
            Some(MaxwellThreeDStencilOp::Invert)
        } else if raw == 0x8507 || raw == 7 {
            Some(MaxwellThreeDStencilOp::IncrementWrap)
        } else if raw == 0x8508 || raw == 8 {
            Some(MaxwellThreeDStencilOp::DecrementWrap)
        } else {
            None
        }
    }

    #[verifier::when_used_as_spec(spec_parse)]
    pub fn parse(raw: u32) -> (r: Option<MaxwellThreeDStencilOp>)
        ensures
            r == MaxwellThreeDStencilOp::spec_parse(raw),
    {
        match raw {
            0x1e00 | 1 => Some(MaxwellThreeDStencilOp::Keep),
            0 | 2 => Some(MaxwellThreeDStencilOp::Zero),
            0x1e01 | 3 => Some(MaxwellThreeDStencilOp::Replace),
            0x1e02 | 4 => Some(MaxwellThreeDStencilOp::IncrementClamp),
            0x1e03 | 5 => Some(MaxwellThreeDStencilOp::DecrementClamp),
            0x150a | 6 => Some(MaxwellThreeDStencilOp::Invert),
            0x8507 | 7 => Some(MaxwellThreeDStencilOp::IncrementWrap),
            0x8508 | 8 => Some(MaxwellThreeDStencilOp::DecrementWrap),
            _ => None,
        }
    }
}

/// Blend equation.
#[derive(Clone, Copy, Debug, PartialEq, Eq, Hash, Structural)]
pub enum MaxwellThreeDBlendOp {
    Add,
    Subtract,
    ReverseSubtract,
    Min,
    Max,
}

impl MaxwellThreeDBlendOp {
    /// Value of each defined encoding.
    pub open spec fn spec_parse(raw: u32) -> Option<MaxwellThreeDBlendOp> {
        if raw == 0x8006 || raw == 1 {
            Some(MaxwellThreeDBlendOp::Add)
        } else if raw == 0x800a || raw == 2 {
            Some(MaxwellThreeDBlendOp::Subtract)
        } else if raw == 0x800b || raw == 3 {
            Some(MaxwellThreeDBlendOp::ReverseSubtract)
        } else if raw == 0x8007 || raw == 4 {
            Some(MaxwellThreeDBlendOp::Min)
        } else if raw == 0x8008 || raw == 5 {
            Some(MaxwellThreeDBlendOp::Max)
        } else {
            None
        }
    }

    #[verifier::when_used_as_spec(spec_parse)]
    pub fn parse(raw: u32) -> (r: Option<MaxwellThreeDBlendOp>)
        ensures
            r == MaxwellThreeDBlendOp::spec_parse(raw),
    {
        match raw {
            0x8006 | 1 => Some(MaxwellThreeDBlendOp::Add),
            0x800a | 2 => Some(MaxwellThreeDBlendOp::Subtract),
            0x800b | 3 => Some(MaxwellThreeDBlendOp::ReverseSubtract),
            0x8007 | 4 => Some(MaxwellThreeDBlendOp::Min),
            0x8008 | 5 => Some(MaxwellThreeDBlendOp::Max),
            _ => None,
        }
    }
}

/// Bitwise operation between fragment and color-target values.
#[derive(Clone, Copy, Debug, PartialEq, Eq, Hash, Structural)]
pub enum MaxwellThreeDLogicOp {
    Clear,
    And,
    AndReverse,
    Copy,
    AndInverted,
    Noop,
    Xor,
    Or,
    Nor,
    Equiv,
    Invert,
    OrReverse,
    CopyInverted,
    OrInverted,
    Nand,
    SetBits,
}

impl MaxwellThreeDLogicOp {
    /// Field encoding of each value.
    pub open spec fn spec_raw(self) -> u32 {
        match self {
            MaxwellThreeDLogicOp::Clear => 0x1500,
            MaxwellThreeDLogicOp::And => 0x1501,
            MaxwellThreeDLogicOp::AndReverse => 0x1502,
            MaxwellThreeDLogicOp::Copy => 0x1503,
            MaxwellThreeDLogicOp::AndInverted => 0x1504,
            MaxwellThreeDLogicOp::Noop => 0x1505,
            MaxwellThreeDLogicOp::Xor => 0x1506,
            MaxwellThreeDLogicOp::Or => 0x1507,
            MaxwellThreeDLogicOp::Nor => 0x1508,
            MaxwellThreeDLogicOp::Equiv => 0x1509,
            MaxwellThreeDLogicOp::Invert => 0x150a,
            MaxwellThreeDLogicOp::OrReverse => 0x150b,
            MaxwellThreeDLogicOp::CopyInverted => 0x150c,
            MaxwellThreeDLogicOp::OrInverted => 0x150d,
            MaxwellThreeDLogicOp::Nand => 0x150e,
            MaxwellThreeDLogicOp::SetBits => 0x150f,
        }
    }

    /// Value of each defined encoding.
    pub open spec fn spec_parse(raw: u32) -> Option<MaxwellThreeDLogicOp> {
        if raw == 0x1500 {
            Some(MaxwellThreeDLogicOp::Clear)
        } else if raw == 0x1501 {
            Some(MaxwellThreeDLogicOp::And)
        } else if raw == 0x1502 {
            Some(MaxwellThreeDLogicOp::AndReverse)
        } else if raw == 0x1503 {
            Some(MaxwellThreeDLogicOp::Copy)
        } else if raw == 0x1504 {
            Some(MaxwellThreeDLogicOp::AndInverted)
        } else if raw == 0x1505 {
            Some(MaxwellThreeDLogicOp::Noop)
        } else if raw == 0x1506 {
            Some(MaxwellThreeDLogicOp::Xor)
        } else if raw == 0x1507 {
            Some(MaxwellThreeDLogicOp::Or)
        } else if raw == 0x1508 {
            Some(MaxwellThreeDLogicOp::Nor)
        } else if raw == 0x1509 {
            Some(MaxwellThreeDLogicOp::Equiv)
        } else if raw == 0x150a {
            Some(MaxwellThreeDLogicOp::Invert)
        } else if raw == 0x150b {
            Some(MaxwellThreeDLogicOp::OrReverse)
        } else if raw == 0x150c {
            Some(MaxwellThreeDLogicOp::CopyInverted)
        } else if raw == 0x150d {
            Some(MaxwellThreeDLogicOp::OrInverted)
        } else if raw == 0x150e {
            Some(MaxwellThreeDLogicOp::Nand)
        } else if raw == 0x150f {
            Some(MaxwellThreeDLogicOp::SetBits)
        } else {
            None
        }
    }

    #[verifier::when_used_as_spec(spec_parse)]
    pub fn parse(raw: u32) -> (r: Option<MaxwellThreeDLogicOp>)
        ensures
            r == MaxwellThreeDLogicOp::spec_parse(raw),
    {
        match raw {
            0x1500 => Some(MaxwellThreeDLogicOp::Clear),
            0x1501 => Some(MaxwellThreeDLogicOp::And),
            0x1502 => Some(MaxwellThreeDLogicOp::AndReverse),
            0x1503 => Some(MaxwellThreeDLogicOp::Copy),
            0x1504 => Some(MaxwellThreeDLogicOp::AndInverted),
            0x1505 => Some(MaxwellThreeDLogicOp::Noop),
            0x1506 => Some(MaxwellThreeDLogicOp::Xor),
            0x1507 => Some(MaxwellThreeDLogicOp::Or),
            0x1508 => Some(MaxwellThreeDLogicOp::Nor),
            0x1509 => Some(MaxwellThreeDLogicOp::Equiv),
            0x150a => Some(MaxwellThreeDLogicOp::Invert),
            0x150b => Some(MaxwellThreeDLogicOp::OrReverse),
            0x150c => Some(MaxwellThreeDLogicOp::CopyInverted),
            0x150d => Some(MaxwellThreeDLogicOp::OrInverted),
            0x150e => Some(MaxwellThreeDLogicOp::Nand),
            0x150f => Some(MaxwellThreeDLogicOp::SetBits),
            _ => None,
        }
    }

    #[must_use]
    #[verifier::when_used_as_spec(spec_raw)]
    pub fn raw(self) -> (r: u32)
        ensures
            r == self.spec_raw(),
    {
        match self {
            MaxwellThreeDLogicOp::Clear => 0x1500,
            MaxwellThreeDLogicOp::And => 0x1501,
            MaxwellThreeDLogicOp::AndReverse => 0x1502,
            MaxwellThreeDLogicOp::Copy => 0x1503,
            MaxwellThreeDLogicOp::AndInverted => 0x1504,
            MaxwellThreeDLogicOp::Noop => 0x1505,
            MaxwellThreeDLogicOp::Xor => 0x1506,
            MaxwellThreeDLogicOp::Or => 0x1507,
            MaxwellThreeDLogicOp::Nor => 0x1508,
            MaxwellThreeDLogicOp::Equiv => 0x1509,
            MaxwellThreeDLogicOp::Invert => 0x150a,
            MaxwellThreeDLogicOp::OrReverse => 0x150b,
            MaxwellThreeDLogicOp::CopyInverted => 0x150c,
            MaxwellThreeDLogicOp::OrInverted => 0x150d,
            MaxwellThreeDLogicOp::Nand => 0x150e,
            MaxwellThreeDLogicOp::SetBits => 0x150f,
        }
    }

    /// Decoding and encoding are inverse: a word decodes to a value exactly
    /// when it is the encoding of that value.
    pub proof fn law_codec(raw: u32, value: MaxwellThreeDLogicOp)
        ensures
            MaxwellThreeDLogicOp::spec_parse(raw) == Some(value) <==> value.spec_raw() == raw,
    {
    }
}

/// Whether the common blend state is active.
#[derive(Clone, Copy, Debug, PartialEq, Eq, Hash, Structural)]
pub enum MaxwellThreeDBlendEnableCommon {
    Disabled,
    Enabled,
}

impl MaxwellThreeDBlendEnableCommon {
    /// Field encoding of each value.
    pub open spec fn spec_raw(self) -> u32 {
        match self {
            MaxwellThreeDBlendEnableCommon::Disabled => 0,
            MaxwellThreeDBlendEnableCommon::Enabled => 1,
        }
    }

    /// Value of each defined encoding.
    pub open spec fn spec_parse(raw: u32) -> Option<MaxwellThreeDBlendEnableCommon> {
        if raw == 0 {
            Some(MaxwellThreeDBlendEnableCommon::Disabled)
        } else if raw == 1 {
            Some(MaxwellThreeDBlendEnableCommon::Enabled)
        } else {
            None
        }
    }

    #[verifier::when_used_as_spec(spec_parse)]
    pub fn parse(raw: u32) -> (r: Option<MaxwellThreeDBlendEnableCommon>)
        ensures
            r == MaxwellThreeDBlendEnableCommon::spec_parse(raw),
    {
        match raw {
            0 => Some(MaxwellThreeDBlendEnableCommon::Disabled),
            1 => Some(MaxwellThreeDBlendEnableCommon::Enabled),
            _ => None,
        }
    }

    #[must_use]
    #[verifier::when_used_as_spec(spec_raw)]
    pub fn raw(self) -> (r: u32)
        ensures
            r == self.spec_raw(),
    {
        match self {
            MaxwellThreeDBlendEnableCommon::Disabled => 0,
            MaxwellThreeDBlendEnableCommon::Enabled => 1,
        }
    }

    /// Decoding and encoding are inverse: a word decodes to a value exactly
    /// when it is the encoding of that value.
    pub proof fn law_codec(raw: u32, value: MaxwellThreeDBlendEnableCommon)
        ensures
            MaxwellThreeDBlendEnableCommon::spec_parse(raw) == Some(value) <==> value.spec_raw() == raw,
    {
    }
}

/// Color and alpha participation in iterated blending.
///
/// Iterated blending adds blend passes, so an enabled value changes output.
#[derive(Clone, Copy, Debug, PartialEq, Eq, Hash, Structural)]
pub struct MaxwellThreeDIteratedBlend {
    pub color_enabled: bool,
    pub alpha_enabled: bool,
}

impl MaxwellThreeDIteratedBlend {
    pub open spec fn spec_parse(raw: u32) -> Option<MaxwellThreeDIteratedBlend> {
        if raw & !0x3u32 != 0 {
            None
        } else {
            Some(
                MaxwellThreeDIteratedBlend {
                    color_enabled: raw & 0x1 != 0,
                    alpha_enabled: raw & 0x2 != 0,
                },
            )
        }
    }

    pub open spec fn spec_raw(self) -> u32 {
        bool_word(self.color_enabled) | (bool_word(self.alpha_enabled) << 1u32)
    }

    #[verifier::when_used_as_spec(spec_parse)]
    pub fn parse(raw: u32) -> (r: Option<MaxwellThreeDIteratedBlend>)
        ensures
            r == MaxwellThreeDIteratedBlend::spec_parse(raw),
    {
        if raw & !0x3u32 != 0 {
            None
        } else {
            Some(
                MaxwellThreeDIteratedBlend {
                    color_enabled: raw & 0x1 != 0,
                    alpha_enabled: raw & 0x2 != 0,
                },
            )
        }
    }

    #[must_use]
    pub fn color_enabled(self) -> (r: bool)
        ensures
            r == self.color_enabled,
    {
        self.color_enabled
    }

    #[must_use]
    pub fn alpha_enabled(self) -> (r: bool)
        ensures
            r == self.alpha_enabled,
    {
        self.alpha_enabled
    }

    #[must_use]
    #[verifier::when_used_as_spec(spec_raw)]
    pub fn raw(self) -> (r: u32)
        ensures
            r == self.spec_raw(),
    {
        bool_word(self.color_enabled) | (bool_word(self.alpha_enabled) << 1u32)
    }

    pub open spec fn spec_enabled(self) -> bool {
        self.color_enabled || self.alpha_enabled
    }

    #[must_use]
    #[verifier::when_used_as_spec(spec_enabled)]
    pub fn enabled(self) -> (r: bool)
        ensures
            r == self.spec_enabled(),
    {
        self.color_enabled || self.alpha_enabled
    }

    /// Decoding and encoding are inverse.
    pub proof fn law_codec(raw: u32, value: MaxwellThreeDIteratedBlend)
        ensures
            MaxwellThreeDIteratedBlend::spec_parse(raw) matches Some(parsed) ==> parsed.spec_raw() == raw,
            MaxwellThreeDIteratedBlend::spec_parse(value.spec_raw()) == Some(value),
    {
        let f0 = bool_word(value.color_enabled);
        let f1 = bool_word(value.alpha_enabled);
        let word = f0 | (f1 << 1u32);
        assert({
            &&& word & !0x3u32 == 0
            &&& (word & 0x1 != 0) == (f0 == 1)
            &&& (word & 0x2 != 0) == (f1 == 1)
        }) by (bit_vector)
            requires
                f0 <= 1,
                f1 <= 1,
                word == f0 | (f1 << 1u32),
        ;
        assert({
            &&& raw & !0x3u32 == 0 ==> ((if raw & 0x1 != 0 { 1u32 } else { 0u32 }) | ((if raw & 0x2 != 0 { 1u32 } else { 0u32 }) << 1u32)) == raw
        }) by (bit_vector);
    }
}

/// Pass count of iterated blending.
#[derive(Clone, Copy, Debug, PartialEq, Eq, Hash, Structural)]
pub struct MaxwellThreeDIteratedBlendPassCount(pub u8);

impl MaxwellThreeDIteratedBlendPassCount {
    #[must_use]
    pub fn new(pass_count: u8) -> (r: MaxwellThreeDIteratedBlendPassCount)
        ensures
            r.0 == pass_count,
    {
        MaxwellThreeDIteratedBlendPassCount(pass_count)
    }

    pub open spec fn spec_pass_count(self) -> u8 {
        self.0
    }

    #[must_use]
    #[verifier::when_used_as_spec(spec_pass_count)]
    pub fn pass_count(self) -> (r: u8)
        ensures
            r == self.0,
    {
        self.0
    }

    pub open spec fn spec_raw(self) -> u32 {
        self.0 as u32
    }

    #[must_use]
    #[verifier::when_used_as_spec(spec_raw)]
    pub fn raw(self) -> (r: u32)
        ensures
            r == self.spec_raw(),
    {
        self.0 as u32
    }
}

/// Whether format-specific blend handling is selected for SNORM8, UNORM16 and SNORM16 targets.
#[derive(Clone, Copy, Debug, PartialEq, Eq, Hash, Structural)]
pub enum MaxwellThreeDBlendPerFormatEnable {
    Disabled,
    Enabled,
}

impl MaxwellThreeDBlendPerFormatEnable {
    /// Field encoding of each value.
    pub open spec fn spec_raw(self) -> u32 {
        match self {
            MaxwellThreeDBlendPerFormatEnable::Disabled => 0,
            MaxwellThreeDBlendPerFormatEnable::Enabled => 0x10,
        }
    }

    /// Value of each defined encoding.
    pub open spec fn spec_parse(raw: u32) -> Option<MaxwellThreeDBlendPerFormatEnable> {
        if raw == 0 {
            Some(MaxwellThreeDBlendPerFormatEnable::Disabled)
        } else if raw == 0x10 {
            Some(MaxwellThreeDBlendPerFormatEnable::Enabled)
        } else {
            None
        }
    }

    #[verifier::when_used_as_spec(spec_parse)]
    pub fn parse(raw: u32) -> (r: Option<MaxwellThreeDBlendPerFormatEnable>)
        ensures
            r == MaxwellThreeDBlendPerFormatEnable::spec_parse(raw),
    {
        match raw {
            0 => Some(MaxwellThreeDBlendPerFormatEnable::Disabled),
            0x10 => Some(MaxwellThreeDBlendPerFormatEnable::Enabled),
            _ => None,
        }
    }

    #[must_use]
    #[verifier::when_used_as_spec(spec_raw)]
    pub fn raw(self) -> (r: u32)
        ensures
            r == self.spec_raw(),
    {
        match self {
            MaxwellThreeDBlendPerFormatEnable::Disabled => 0,
            MaxwellThreeDBlendPerFormatEnable::Enabled => 0x10,
        }
    }

    /// Decoding and encoding are inverse: a word decodes to a value exactly
    /// when it is the encoding of that value.
    pub proof fn law_codec(raw: u32, value: MaxwellThreeDBlendPerFormatEnable)
        ensures
            MaxwellThreeDBlendPerFormatEnable::spec_parse(raw) == Some(value) <==> value.spec_raw() == raw,
    {
    }
}

/// Whether the floating-point pixel-kill optimization is permitted.
#[derive(Clone, Copy, Debug, PartialEq, Eq, Hash, Structural)]
pub enum MaxwellThreeDBlendFloatPixelKillEnable {
    Disallowed,
    Allowed,
}

impl MaxwellThreeDBlendFloatPixelKillEnable {
    /// Field encoding of each value.
    pub open spec fn spec_raw(self) -> u32 {
        match self {
            MaxwellThreeDBlendFloatPixelKillEnable::Disallowed => 0,
            MaxwellThreeDBlendFloatPixelKillEnable::Allowed => 1,
        }
    }

    /// Value of each defined encoding.
    pub open spec fn spec_parse(raw: u32) -> Option<MaxwellThreeDBlendFloatPixelKillEnable> {
        if raw == 0 {
            Some(MaxwellThreeDBlendFloatPixelKillEnable::Disallowed)
        } else if raw == 1 {
            Some(MaxwellThreeDBlendFloatPixelKillEnable::Allowed)
        } else {
            None
        }
    }

    #[verifier::when_used_as_spec(spec_parse)]
    pub fn parse(raw: u32) -> (r: Option<MaxwellThreeDBlendFloatPixelKillEnable>)
        ensures
            r == MaxwellThreeDBlendFloatPixelKillEnable::spec_parse(raw),
    {
        match raw {
            0 => Some(MaxwellThreeDBlendFloatPixelKillEnable::Disallowed),
            1 => Some(MaxwellThreeDBlendFloatPixelKillEnable::Allowed),
            _ => None,
        }
    }

    #[must_use]
    #[verifier::when_used_as_spec(spec_raw)]
    pub fn raw(self) -> (r: u32)
        ensures
            r == self.spec_raw(),
    {
        match self {
            MaxwellThreeDBlendFloatPixelKillEnable::Disallowed => 0,
            MaxwellThreeDBlendFloatPixelKillEnable::Allowed => 1,
        }
    }

    /// Decoding and encoding are inverse: a word decodes to a value exactly
    /// when it is the encoding of that value.
    pub proof fn law_codec(raw: u32, value: MaxwellThreeDBlendFloatPixelKillEnable)
        ensures
            MaxwellThreeDBlendFloatPixelKillEnable::spec_parse(raw) == Some(value) <==> value.spec_raw() == raw,
    {
    }
}

/// Whether blend arithmetic defines zero times any value as zero.
#[derive(Clone, Copy, Debug, PartialEq, Eq, Hash, Structural)]
pub enum MaxwellThreeDBlendZeroTimesAnythingIsZero {
    Disabled,
    Enabled,
}

impl MaxwellThreeDBlendZeroTimesAnythingIsZero {
    /// Field encoding of each value.
    pub open spec fn spec_raw(self) -> u32 {
        match self {
            MaxwellThreeDBlendZeroTimesAnythingIsZero::Disabled => 0,
            MaxwellThreeDBlendZeroTimesAnythingIsZero::Enabled => 1,
        }
    }

    /// Value of each defined encoding.
    pub open spec fn spec_parse(raw: u32) -> Option<MaxwellThreeDBlendZeroTimesAnythingIsZero> {
        if raw == 0 {
            Some(MaxwellThreeDBlendZeroTimesAnythingIsZero::Disabled)
        } else if raw == 1 {
            Some(MaxwellThreeDBlendZeroTimesAnythingIsZero::Enabled)
        } else {
            None
        }
    }

    #[verifier::when_used_as_spec(spec_parse)]
    pub fn parse(raw: u32) -> (r: Option<MaxwellThreeDBlendZeroTimesAnythingIsZero>)
        ensures
            r == MaxwellThreeDBlendZeroTimesAnythingIsZero::spec_parse(raw),
    {
        match raw {
            0 => Some(MaxwellThreeDBlendZeroTimesAnythingIsZero::Disabled),
            1 => Some(MaxwellThreeDBlendZeroTimesAnythingIsZero::Enabled),
            _ => None,
        }
    }

    #[must_use]
    #[verifier::when_used_as_spec(spec_raw)]
    pub fn raw(self) -> (r: u32)
        ensures
            r == self.spec_raw(),
    {
        match self {
            MaxwellThreeDBlendZeroTimesAnythingIsZero::Disabled => 0,
            MaxwellThreeDBlendZeroTimesAnythingIsZero::Enabled => 1,
        }
    }

    /// Decoding and encoding are inverse: a word decodes to a value exactly
    /// when it is the encoding of that value.
    pub proof fn law_codec(raw: u32, value: MaxwellThreeDBlendZeroTimesAnythingIsZero)
        ensures
            MaxwellThreeDBlendZeroTimesAnythingIsZero::spec_parse(raw) == Some(value) <==> value.spec_raw() == raw,
    {
    }
}

/// Format, arithmetic and optimization controls shared by blend paths.
#[derive(Clone, Copy, Debug, PartialEq, Eq)]
pub struct MaxwellThreeDBlendControlState {
    pub per_format_enable: MaxwellThreeDRegister<MaxwellThreeDBlendPerFormatEnable>,
    pub float_pixel_kill_enable: MaxwellThreeDRegister<MaxwellThreeDBlendFloatPixelKillEnable>,
    pub zero_times_anything_is_zero: MaxwellThreeDRegister<MaxwellThreeDBlendZeroTimesAnythingIsZero>,
    pub iterated_blend: MaxwellThreeDRegister<MaxwellThreeDIteratedBlend>,
    pub iterated_blend_pass_count: MaxwellThreeDRegister<MaxwellThreeDIteratedBlendPassCount>,
}

impl MaxwellThreeDBlendControlState {
    pub open spec fn initial(self) -> bool {
        &&& self.per_format_enable == MaxwellThreeDRegister::<MaxwellThreeDBlendPerFormatEnable>::spec_unset()
        &&& self.float_pixel_kill_enable == MaxwellThreeDRegister::<MaxwellThreeDBlendFloatPixelKillEnable>::spec_unset()
        &&& self.zero_times_anything_is_zero == MaxwellThreeDRegister::<MaxwellThreeDBlendZeroTimesAnythingIsZero>::spec_unset()
        &&& self.iterated_blend == MaxwellThreeDRegister::<MaxwellThreeDIteratedBlend>::spec_unset()
        &&& self.iterated_blend_pass_count == MaxwellThreeDRegister::<MaxwellThreeDIteratedBlendPassCount>::spec_unset()
    }

    #[must_use]
    pub fn unprogrammed() -> (r: MaxwellThreeDBlendControlState)
        ensures
            r.initial(),
    {
        MaxwellThreeDBlendControlState {
            per_format_enable: MaxwellThreeDRegister::unset(),
            float_pixel_kill_enable: MaxwellThreeDRegister::unset(),
            zero_times_anything_is_zero: MaxwellThreeDRegister::unset(),
            iterated_blend: MaxwellThreeDRegister::unset(),
            iterated_blend_pass_count: MaxwellThreeDRegister::unset(),
        }
    }

    #[must_use]
    pub fn per_format_enable(&self) -> (r: &MaxwellThreeDRegister<MaxwellThreeDBlendPerFormatEnable>)
        ensures
            *r == self.per_format_enable,
    {
        &self.per_format_enable
    }

    #[must_use]
    pub fn float_pixel_kill_enable(&self) -> (r: &MaxwellThreeDRegister<MaxwellThreeDBlendFloatPixelKillEnable>)
        ensures
            *r == self.float_pixel_kill_enable,
    {
        &self.float_pixel_kill_enable
    }

    #[must_use]
    pub fn zero_times_anything_is_zero(&self) -> (r: &MaxwellThreeDRegister<MaxwellThreeDBlendZeroTimesAnythingIsZero>)
        ensures
            *r == self.zero_times_anything_is_zero,
    {
        &self.zero_times_anything_is_zero
    }

    #[must_use]
    pub fn iterated_blend(&self) -> (r: &MaxwellThreeDRegister<MaxwellThreeDIteratedBlend>)
        ensures
            *r == self.iterated_blend,
    {
        &self.iterated_blend
    }

    #[must_use]
    pub fn iterated_blend_pass_count(&self) -> (r: &MaxwellThreeDRegister<MaxwellThreeDIteratedBlendPassCount>)
        ensures
            *r == self.iterated_blend_pass_count,
    {
        &self.iterated_blend_pass_count
    }
}

impl Default for MaxwellThreeDBlendControlState {
    fn default() -> (r: MaxwellThreeDBlendControlState)
        ensures
            r.initial(),
    {
        MaxwellThreeDBlendControlState::unprogrammed()
    }
}

/// Blend coefficient, held as its defined encoding.
#[derive(Clone, Copy, Debug, PartialEq, Eq, Hash, Structural)]
pub struct MaxwellThreeDBlendFactor(pub u32);

impl MaxwellThreeDBlendFactor {
    /// Encodings of the two coefficient families.
    pub open spec fn defined(raw: u32) -> bool {
        ||| 1 <= raw <= 0x13
        ||| 0x4000 <= raw <= 0x4001
        ||| 0x4300 <= raw <= 0x4308
        ||| 0xc001 <= raw <= 0xc004
        ||| 0xc900 <= raw <= 0xc903
    }

    pub open spec fn spec_parse(raw: u32) -> Option<MaxwellThreeDBlendFactor> {
        if MaxwellThreeDBlendFactor::defined(raw) {
            Some(MaxwellThreeDBlendFactor(raw))
        } else {
            None
        }
    }

    #[verifier::when_used_as_spec(spec_parse)]
    pub fn parse(raw: u32) -> (r: Option<MaxwellThreeDBlendFactor>)
        ensures
            r == MaxwellThreeDBlendFactor::spec_parse(raw),
    {
        if (1 <= raw && raw <= 0x13) || (0x4000 <= raw && raw <= 0x4001) || (0x4300 <= raw && raw
            <= 0x4308) || (0xc001 <= raw && raw <= 0xc004) || (0xc900 <= raw && raw <= 0xc903) {
            Some(MaxwellThreeDBlendFactor(raw))
        } else {
            None
        }
    }

    #[must_use]
    pub fn raw(self) -> (r: u32)
        ensures
            r == self.0,
    {
        self.0
    }
}

/// Per-component color-write mask of one render target.
#[derive(Clone, Copy, Debug, PartialEq, Eq, Hash, Structural)]
pub struct MaxwellThreeDColorMask {
    pub red: bool,
    pub green: bool,
    pub blue: bool,
    pub alpha: bool,
}

impl MaxwellThreeDColorMask {
    pub open spec fn spec_parse(raw: u32) -> Option<MaxwellThreeDColorMask> {
        if raw & !0x1111u32 != 0 {
            None
        } else {
            Some(
                MaxwellThreeDColorMask {
                    red: raw & 0x1 != 0,
                    green: raw & 0x10 != 0,
                    blue: raw & 0x100 != 0,
                    alpha: raw & 0x1000 != 0,
                },
            )
        }
    }

    pub open spec fn spec_raw(self) -> u32 {
        bool_word(self.red) | (bool_word(self.green) << 4u32) | (bool_word(self.blue) << 8u32) | (bool_word(self.alpha) << 12u32)
    }

    #[verifier::when_used_as_spec(spec_parse)]
    pub fn parse(raw: u32) -> (r: Option<MaxwellThreeDColorMask>)
        ensures
            r == MaxwellThreeDColorMask::spec_parse(raw),
    {
        if raw & !0x1111u32 != 0 {
            None
        } else {
            Some(
                MaxwellThreeDColorMask {
                    red: raw & 0x1 != 0,
                    green: raw & 0x10 != 0,
                    blue: raw & 0x100 != 0,
                    alpha: raw & 0x1000 != 0,
                },
            )
        }
    }

    #[must_use]
    #[verifier::when_used_as_spec(spec_raw)]
    pub fn raw(self) -> (r: u32)
        ensures
            r == self.spec_raw(),
    {
        bool_word(self.red) | (bool_word(self.green) << 4u32) | (bool_word(self.blue) << 8u32) | (bool_word(self.alpha) << 12u32)
    }

    pub open spec fn spec_all_enabled(self) -> bool {
        self.red && self.green && self.blue && self.alpha
    }

    #[must_use]
    #[verifier::when_used_as_spec(spec_all_enabled)]
    pub fn all_enabled(self) -> (r: bool)
        ensures
            r == self.spec_all_enabled(),
    {
        self.red && self.green && self.blue && self.alpha
    }

    /// Decoding and encoding are inverse.
    pub proof fn law_codec(raw: u32, value: MaxwellThreeDColorMask)
        ensures
            MaxwellThreeDColorMask::spec_parse(raw) matches Some(parsed) ==> parsed.spec_raw() == raw,
            MaxwellThreeDColorMask::spec_parse(value.spec_raw()) == Some(value),
    {
        let f0 = bool_word(value.red);
        let f1 = bool_word(value.green);
        let f2 = bool_word(value.blue);
        let f3 = bool_word(value.alpha);
        let word = f0 | (f1 << 4u32) | (f2 << 8u32) | (f3 << 12u32);
        assert({
            &&& word & !0x1111u32 == 0
            &&& (word & 0x1 != 0) == (f0 == 1)
            &&& (word & 0x10 != 0) == (f1 == 1)
            &&& (word & 0x100 != 0) == (f2 == 1)
            &&& (word & 0x1000 != 0) == (f3 == 1)
        }) by (bit_vector)
            requires
                f0 <= 1,
                f1 <= 1,
                f2 <= 1,
                f3 <= 1,
                word == f0 | (f1 << 4u32) | (f2 << 8u32) | (f3 << 12u32),
        ;
        assert({
            &&& raw & !0x1111u32 == 0 ==> ((if raw & 0x1 != 0 { 1u32 } else { 0u32 }) | ((if raw & 0x10 != 0 { 1u32 } else { 0u32 }) << 4u32) | ((if raw & 0x100 != 0 { 1u32 } else { 0u32 }) << 8u32) | ((if raw & 0x1000 != 0 { 1u32 } else { 0u32 }) << 12u32)) == raw
        }) by (bit_vector);
    }
}

/// Depth clamp and geometry clip selectors, held as their defined encoding.
#[derive(Clone, Copy, Debug, PartialEq, Eq, Hash, Structural)]
pub struct MaxwellThreeDViewportClipControl(pub u32);

impl MaxwellThreeDViewportClipControl {
    /// Reserved bits are clear, the geometry-clip field holds at most 6 and the
    /// pixel-range field at most 2.
    pub open spec fn defined(raw: u32) -> bool {
        raw & !0x3c9fu32 == 0 && (raw >> 11) & 7 <= 6 && (raw >> 1) & 3 <= 2
    }

    pub open spec fn spec_parse(raw: u32) -> Option<MaxwellThreeDViewportClipControl> {
        if MaxwellThreeDViewportClipControl::defined(raw) {
            Some(MaxwellThreeDViewportClipControl(raw))
        } else {
            None
        }
    }

    #[verifier::when_used_as_spec(spec_parse)]
    pub fn parse(raw: u32) -> (r: Option<MaxwellThreeDViewportClipControl>)
        ensures
            r == MaxwellThreeDViewportClipControl::spec_parse(raw),
    {
        if raw & !0x3c9fu32 == 0 && (raw >> 11) & 7 <= 6 && (raw >> 1) & 3 <= 2 {
            Some(MaxwellThreeDViewportClipControl(raw))
        } else {
            None
        }
    }

    #[must_use]
    pub fn raw(self) -> (r: u32)
        ensures
            r == self.0,
    {
        self.0
    }
}

/// Whether the viewport scale and offset transform is active.
#[derive(Clone, Copy, Debug, PartialEq, Eq, Hash, Structural)]
pub enum MaxwellThreeDViewportScaleOffsetEnable {
    Disabled,
    Enabled,
}

impl MaxwellThreeDViewportScaleOffsetEnable {
    /// Field encoding of each value.
    pub open spec fn spec_raw(self) -> u32 {
        match self {
            MaxwellThreeDViewportScaleOffsetEnable::Disabled => 0,
            MaxwellThreeDViewportScaleOffsetEnable::Enabled => 1,
        }
    }

    /// Value of each defined encoding.
    pub open spec fn spec_parse(raw: u32) -> Option<MaxwellThreeDViewportScaleOffsetEnable> {
        if raw == 0 {
            Some(MaxwellThreeDViewportScaleOffsetEnable::Disabled)
        } else if raw == 1 {
            Some(MaxwellThreeDViewportScaleOffsetEnable::Enabled)
        } else {
            None
        }
    }

    #[verifier::when_used_as_spec(spec_parse)]
    pub fn parse(raw: u32) -> (r: Option<MaxwellThreeDViewportScaleOffsetEnable>)
        ensures
            r == MaxwellThreeDViewportScaleOffsetEnable::spec_parse(raw),
    {
        match raw {
            0 => Some(MaxwellThreeDViewportScaleOffsetEnable::Disabled),
            1 => Some(MaxwellThreeDViewportScaleOffsetEnable::Enabled),
            _ => None,
        }
    }

    #[must_use]
    #[verifier::when_used_as_spec(spec_raw)]
    pub fn raw(self) -> (r: u32)
        ensures
            r == self.spec_raw(),
    {
        match self {
            MaxwellThreeDViewportScaleOffsetEnable::Disabled => 0,
            MaxwellThreeDViewportScaleOffsetEnable::Enabled => 1,
        }
    }

    /// Decoding and encoding are inverse: a word decodes to a value exactly
    /// when it is the encoding of that value.
    pub proof fn law_codec(raw: u32, value: MaxwellThreeDViewportScaleOffsetEnable)
        ensures
            MaxwellThreeDViewportScaleOffsetEnable::spec_parse(raw) == Some(value) <==> value.spec_raw() == raw,
    {
    }
}

/// One scalar fixed-function register.
#[derive(Clone, Copy, Debug, PartialEq, Eq, Hash, Structural)]
pub enum MaxwellThreeDFixedFunctionRegister {
    RasterEnable,
    FrontPolygonMode,
    BackPolygonMode,
    CullEnable,
    FrontFace,
    CullFace,
    LineWidth,
    DepthTestEnable,
    ShadeMode,
    DepthWriteEnable,
    DepthCompare,
    StencilTestEnable,
    TwoSidedStencilTestEnable,
    BlendPerTargetEnable,
    AntiAliasEnable,
    AlphaToCoverageEnable,
    AlphaToOneEnable,
    SampleMode,
    RasterSampleMode,
    SampleMaskControl,
    SampleMask0,
    SampleMask1,
    SampleMask2,
    SampleMask3,
    UserClipEnable,
    ViewportScaleOffsetEnable,
    ViewportClipControl,
    DepthBoundsEnable,
    DepthBoundsMin,
    PolygonOffsetPointEnable,
    PolygonOffsetLineEnable,
    PolygonOffsetFillEnable,
    FrontStencilFail,
    FrontStencilDepthFail,
    FrontStencilPass,
    FrontStencilCompare,
    FrontStencilReference,
    FrontStencilCompareMask,
    FrontStencilWriteMask,
    BackStencilFail,
    BackStencilDepthFail,
    BackStencilPass,
    BackStencilCompare,
    BackStencilReference,
    BackStencilCompareMask,
    BackStencilWriteMask,
    BlendSeparateAlpha,
    BlendColorOp,
    BlendColorSource,
    BlendColorDestination,
    BlendAlphaOp,
    BlendAlphaSource,
    BlendAlphaDestination,
    BlendConstantRed,
    BlendConstantGreen,
    BlendConstantBlue,
    BlendConstantAlpha,
    WindowOffsetX,
    WindowOffsetY,
    WindowOrigin,
    UserClipOperation,
    WindowClipEnable,
    WindowClipType,
    ClipIdTestEnable,
    DepthBoundsMax,
    LogicOpEnable,
    LogicOpFunction,
    SingleColorTargetWriteControl,
    AlphaTestEnable,
    AlphaTestReference,
    AlphaTestFunction,
    ProvokingVertex,
    TwoSidedLightEnable,
    ColorClampEnable,
    PixelShaderSaturate,
}

impl MaxwellThreeDFixedFunctionRegister {
    pub open spec fn spec_index(self) -> usize {
        match self {
            MaxwellThreeDFixedFunctionRegister::RasterEnable => 0,
            MaxwellThreeDFixedFunctionRegister::FrontPolygonMode => 1,
            MaxwellThreeDFixedFunctionRegister::BackPolygonMode => 2,
            MaxwellThreeDFixedFunctionRegister::CullEnable => 3,
            MaxwellThreeDFixedFunctionRegister::FrontFace => 4,
            MaxwellThreeDFixedFunctionRegister::CullFace => 5,
            MaxwellThreeDFixedFunctionRegister::LineWidth => 6,
            MaxwellThreeDFixedFunctionRegister::DepthTestEnable => 7,
            MaxwellThreeDFixedFunctionRegister::ShadeMode => 8,
            MaxwellThreeDFixedFunctionRegister::DepthWriteEnable => 9,
            MaxwellThreeDFixedFunctionRegister::DepthCompare => 10,
            MaxwellThreeDFixedFunctionRegister::StencilTestEnable => 11,
            MaxwellThreeDFixedFunctionRegister::TwoSidedStencilTestEnable => 12,
            MaxwellThreeDFixedFunctionRegister::BlendPerTargetEnable => 13,
            MaxwellThreeDFixedFunctionRegister::AntiAliasEnable => 14,
            MaxwellThreeDFixedFunctionRegister::AlphaToCoverageEnable => 15,
            MaxwellThreeDFixedFunctionRegister::AlphaToOneEnable => 16,
            MaxwellThreeDFixedFunctionRegister::SampleMode => 17,
            MaxwellThreeDFixedFunctionRegister::RasterSampleMode => 18,
            MaxwellThreeDFixedFunctionRegister::SampleMaskControl => 19,
            MaxwellThreeDFixedFunctionRegister::SampleMask0 => 20,
            MaxwellThreeDFixedFunctionRegister::SampleMask1 => 21,
            MaxwellThreeDFixedFunctionRegister::SampleMask2 => 22,
            MaxwellThreeDFixedFunctionRegister::SampleMask3 => 23,
            MaxwellThreeDFixedFunctionRegister::UserClipEnable => 24,
            MaxwellThreeDFixedFunctionRegister::ViewportScaleOffsetEnable => 25,
            MaxwellThreeDFixedFunctionRegister::ViewportClipControl => 26,
            MaxwellThreeDFixedFunctionRegister::DepthBoundsEnable => 27,
            MaxwellThreeDFixedFunctionRegister::DepthBoundsMin => 28,
            MaxwellThreeDFixedFunctionRegister::PolygonOffsetPointEnable => 29,
            MaxwellThreeDFixedFunctionRegister::PolygonOffsetLineEnable => 30,
            MaxwellThreeDFixedFunctionRegister::PolygonOffsetFillEnable => 31,
            MaxwellThreeDFixedFunctionRegister::FrontStencilFail => 32,
            MaxwellThreeDFixedFunctionRegister::FrontStencilDepthFail => 33,
            MaxwellThreeDFixedFunctionRegister::FrontStencilPass => 34,
            MaxwellThreeDFixedFunctionRegister::FrontStencilCompare => 35,
            MaxwellThreeDFixedFunctionRegister::FrontStencilReference => 36,
            MaxwellThreeDFixedFunctionRegister::FrontStencilCompareMask => 37,
            MaxwellThreeDFixedFunctionRegister::FrontStencilWriteMask => 38,
            MaxwellThreeDFixedFunctionRegister::BackStencilFail => 39,
            MaxwellThreeDFixedFunctionRegister::BackStencilDepthFail => 40,
            MaxwellThreeDFixedFunctionRegister::BackStencilPass => 41,
            MaxwellThreeDFixedFunctionRegister::BackStencilCompare => 42,
            MaxwellThreeDFixedFunctionRegister::BackStencilReference => 43,
            MaxwellThreeDFixedFunctionRegister::BackStencilCompareMask => 44,
            MaxwellThreeDFixedFunctionRegister::BackStencilWriteMask => 45,
            MaxwellThreeDFixedFunctionRegister::BlendSeparateAlpha => 46,
            MaxwellThreeDFixedFunctionRegister::BlendColorOp => 47,
            MaxwellThreeDFixedFunctionRegister::BlendColorSource => 48,
            MaxwellThreeDFixedFunctionRegister::BlendColorDestination => 49,
            MaxwellThreeDFixedFunctionRegister::BlendAlphaOp => 50,
            MaxwellThreeDFixedFunctionRegister::BlendAlphaSource => 51,
            MaxwellThreeDFixedFunctionRegister::BlendAlphaDestination => 52,
            MaxwellThreeDFixedFunctionRegister::BlendConstantRed => 53,
            MaxwellThreeDFixedFunctionRegister::BlendConstantGreen => 54,
            MaxwellThreeDFixedFunctionRegister::BlendConstantBlue => 55,
            MaxwellThreeDFixedFunctionRegister::BlendConstantAlpha => 56,
            MaxwellThreeDFixedFunctionRegister::WindowOffsetX => 57,
            MaxwellThreeDFixedFunctionRegister::WindowOffsetY => 58,
            MaxwellThreeDFixedFunctionRegister::WindowOrigin => 59,
            MaxwellThreeDFixedFunctionRegister::UserClipOperation => 60,
            MaxwellThreeDFixedFunctionRegister::WindowClipEnable => 61,
            MaxwellThreeDFixedFunctionRegister::WindowClipType => 62,
            MaxwellThreeDFixedFunctionRegister::ClipIdTestEnable => 63,
            MaxwellThreeDFixedFunctionRegister::DepthBoundsMax => 64,
            MaxwellThreeDFixedFunctionRegister::LogicOpEnable => 65,
            MaxwellThreeDFixedFunctionRegister::LogicOpFunction => 66,
            MaxwellThreeDFixedFunctionRegister::SingleColorTargetWriteControl => 67,
            MaxwellThreeDFixedFunctionRegister::AlphaTestEnable => 68,
            MaxwellThreeDFixedFunctionRegister::AlphaTestReference => 69,
            MaxwellThreeDFixedFunctionRegister::AlphaTestFunction => 70,
            MaxwellThreeDFixedFunctionRegister::ProvokingVertex => 71,
            MaxwellThreeDFixedFunctionRegister::TwoSidedLightEnable => 72,
            MaxwellThreeDFixedFunctionRegister::ColorClampEnable => 73,
            MaxwellThreeDFixedFunctionRegister::PixelShaderSaturate => 74,
        }
    }

    #[must_use]
    #[verifier::when_used_as_spec(spec_index)]
    pub fn index(self) -> (r: usize)
        ensures
            r == self.spec_index(),
            r < 75,
    {
        match self {
            MaxwellThreeDFixedFunctionRegister::RasterEnable => 0,
            MaxwellThreeDFixedFunctionRegister::FrontPolygonMode => 1,
            MaxwellThreeDFixedFunctionRegister::BackPolygonMode => 2,
            MaxwellThreeDFixedFunctionRegister::CullEnable => 3,
            MaxwellThreeDFixedFunctionRegister::FrontFace => 4,
            MaxwellThreeDFixedFunctionRegister::CullFace => 5,
            MaxwellThreeDFixedFunctionRegister::LineWidth => 6,
            MaxwellThreeDFixedFunctionRegister::DepthTestEnable => 7,
            MaxwellThreeDFixedFunctionRegister::ShadeMode => 8,
            MaxwellThreeDFixedFunctionRegister::DepthWriteEnable => 9,
            MaxwellThreeDFixedFunctionRegister::DepthCompare => 10,
            MaxwellThreeDFixedFunctionRegister::StencilTestEnable => 11,
            MaxwellThreeDFixedFunctionRegister::TwoSidedStencilTestEnable => 12,
            MaxwellThreeDFixedFunctionRegister::BlendPerTargetEnable => 13,
            MaxwellThreeDFixedFunctionRegister::AntiAliasEnable => 14,
            MaxwellThreeDFixedFunctionRegister::AlphaToCoverageEnable => 15,
            MaxwellThreeDFixedFunctionRegister::AlphaToOneEnable => 16,
            MaxwellThreeDFixedFunctionRegister::SampleMode => 17,
            MaxwellThreeDFixedFunctionRegister::RasterSampleMode => 18,
            MaxwellThreeDFixedFunctionRegister::SampleMaskControl => 19,
            MaxwellThreeDFixedFunctionRegister::SampleMask0 => 20,
            MaxwellThreeDFixedFunctionRegister::SampleMask1 => 21,
            MaxwellThreeDFixedFunctionRegister::SampleMask2 => 22,
            MaxwellThreeDFixedFunctionRegister::SampleMask3 => 23,
            MaxwellThreeDFixedFunctionRegister::UserClipEnable => 24,
            MaxwellThreeDFixedFunctionRegister::ViewportScaleOffsetEnable => 25,
            MaxwellThreeDFixedFunctionRegister::ViewportClipControl => 26,
            MaxwellThreeDFixedFunctionRegister::DepthBoundsEnable => 27,
            MaxwellThreeDFixedFunctionRegister::DepthBoundsMin => 28,
            MaxwellThreeDFixedFunctionRegister::PolygonOffsetPointEnable => 29,
            MaxwellThreeDFixedFunctionRegister::PolygonOffsetLineEnable => 30,
            MaxwellThreeDFixedFunctionRegister::PolygonOffsetFillEnable => 31,
            MaxwellThreeDFixedFunctionRegister::FrontStencilFail => 32,
            MaxwellThreeDFixedFunctionRegister::FrontStencilDepthFail => 33,
            MaxwellThreeDFixedFunctionRegister::FrontStencilPass => 34,
            MaxwellThreeDFixedFunctionRegister::FrontStencilCompare => 35,
            MaxwellThreeDFixedFunctionRegister::FrontStencilReference => 36,
            MaxwellThreeDFixedFunctionRegister::FrontStencilCompareMask => 37,
            MaxwellThreeDFixedFunctionRegister::FrontStencilWriteMask => 38,
            MaxwellThreeDFixedFunctionRegister::BackStencilFail => 39,
            MaxwellThreeDFixedFunctionRegister::BackStencilDepthFail => 40,
            MaxwellThreeDFixedFunctionRegister::BackStencilPass => 41,
            MaxwellThreeDFixedFunctionRegister::BackStencilCompare => 42,
            MaxwellThreeDFixedFunctionRegister::BackStencilReference => 43,
            MaxwellThreeDFixedFunctionRegister::BackStencilCompareMask => 44,
            MaxwellThreeDFixedFunctionRegister::BackStencilWriteMask => 45,
            MaxwellThreeDFixedFunctionRegister::BlendSeparateAlpha => 46,
            MaxwellThreeDFixedFunctionRegister::BlendColorOp => 47,
            MaxwellThreeDFixedFunctionRegister::BlendColorSource => 48,
            MaxwellThreeDFixedFunctionRegister::BlendColorDestination => 49,
            MaxwellThreeDFixedFunctionRegister::BlendAlphaOp => 50,
            MaxwellThreeDFixedFunctionRegister::BlendAlphaSource => 51,
            MaxwellThreeDFixedFunctionRegister::BlendAlphaDestination => 52,
            MaxwellThreeDFixedFunctionRegister::BlendConstantRed => 53,
            MaxwellThreeDFixedFunctionRegister::BlendConstantGreen => 54,
            MaxwellThreeDFixedFunctionRegister::BlendConstantBlue => 55,
            MaxwellThreeDFixedFunctionRegister::BlendConstantAlpha => 56,
            MaxwellThreeDFixedFunctionRegister::WindowOffsetX => 57,
            MaxwellThreeDFixedFunctionRegister::WindowOffsetY => 58,
            MaxwellThreeDFixedFunctionRegister::WindowOrigin => 59,
            MaxwellThreeDFixedFunctionRegister::UserClipOperation => 60,
            MaxwellThreeDFixedFunctionRegister::WindowClipEnable => 61,
            MaxwellThreeDFixedFunctionRegister::WindowClipType => 62,
            MaxwellThreeDFixedFunctionRegister::ClipIdTestEnable => 63,
            MaxwellThreeDFixedFunctionRegister::DepthBoundsMax => 64,
            MaxwellThreeDFixedFunctionRegister::LogicOpEnable => 65,
            MaxwellThreeDFixedFunctionRegister::LogicOpFunction => 66,
            MaxwellThreeDFixedFunctionRegister::SingleColorTargetWriteControl => 67,
            MaxwellThreeDFixedFunctionRegister::AlphaTestEnable => 68,
            MaxwellThreeDFixedFunctionRegister::AlphaTestReference => 69,
            MaxwellThreeDFixedFunctionRegister::AlphaTestFunction => 70,
            MaxwellThreeDFixedFunctionRegister::ProvokingVertex => 71,
            MaxwellThreeDFixedFunctionRegister::TwoSidedLightEnable => 72,
            MaxwellThreeDFixedFunctionRegister::ColorClampEnable => 73,
            MaxwellThreeDFixedFunctionRegister::PixelShaderSaturate => 74,
        }
    }

    /// Registers that reach pipeline identity only while the state that makes
    /// them effective is on.
    pub open spec fn conditionally_effective(self) -> bool {
        match self {
            MaxwellThreeDFixedFunctionRegister::BlendPerTargetEnable => true,
            MaxwellThreeDFixedFunctionRegister::BlendSeparateAlpha => true,
            MaxwellThreeDFixedFunctionRegister::BlendColorOp => true,
            MaxwellThreeDFixedFunctionRegister::BlendColorSource => true,
            MaxwellThreeDFixedFunctionRegister::BlendColorDestination => true,
            MaxwellThreeDFixedFunctionRegister::BlendAlphaOp => true,
            MaxwellThreeDFixedFunctionRegister::BlendAlphaSource => true,
            MaxwellThreeDFixedFunctionRegister::BlendAlphaDestination => true,
            MaxwellThreeDFixedFunctionRegister::BlendConstantRed => true,
            MaxwellThreeDFixedFunctionRegister::BlendConstantGreen => true,
            MaxwellThreeDFixedFunctionRegister::BlendConstantBlue => true,
            MaxwellThreeDFixedFunctionRegister::BlendConstantAlpha => true,
            MaxwellThreeDFixedFunctionRegister::WindowClipType => true,
            MaxwellThreeDFixedFunctionRegister::LogicOpFunction => true,
            MaxwellThreeDFixedFunctionRegister::TwoSidedStencilTestEnable => true,
            MaxwellThreeDFixedFunctionRegister::FrontStencilFail => true,
            MaxwellThreeDFixedFunctionRegister::FrontStencilDepthFail => true,
            MaxwellThreeDFixedFunctionRegister::FrontStencilPass => true,
            MaxwellThreeDFixedFunctionRegister::FrontStencilCompare => true,
            MaxwellThreeDFixedFunctionRegister::FrontStencilReference => true,
            MaxwellThreeDFixedFunctionRegister::FrontStencilCompareMask => true,
            MaxwellThreeDFixedFunctionRegister::FrontStencilWriteMask => true,
            MaxwellThreeDFixedFunctionRegister::BackStencilFail => true,
            MaxwellThreeDFixedFunctionRegister::BackStencilDepthFail => true,
            MaxwellThreeDFixedFunctionRegister::BackStencilPass => true,
            MaxwellThreeDFixedFunctionRegister::BackStencilCompare => true,
            MaxwellThreeDFixedFunctionRegister::BackStencilReference => true,
            MaxwellThreeDFixedFunctionRegister::BackStencilCompareMask => true,
            MaxwellThreeDFixedFunctionRegister::BackStencilWriteMask => true,
            _ => false,
        }
    }

    /// Whether the register at an index is conditionally effective.
    pub open spec fn spec_conditional_index(index: int) -> bool {
        exists|register: MaxwellThreeDFixedFunctionRegister| #[trigger]
            register.spec_index() == index && register.conditionally_effective()
    }

    pub(crate) fn conditional_index(index: usize) -> (r: bool)
        ensures
            r == MaxwellThreeDFixedFunctionRegister::spec_conditional_index(index as int),
    {
        let r: bool = index == 12 || index == 13 || (32 <= index && index <= 56) || index == 62
            || index == 66;
        proof {
            if r {
                assert(index == 12 ==> MaxwellThreeDFixedFunctionRegister::TwoSidedStencilTestEnable.spec_index() == index);
                assert(index == 13 ==> MaxwellThreeDFixedFunctionRegister::BlendPerTargetEnable.spec_index() == index);
                assert(index == 32 ==> MaxwellThreeDFixedFunctionRegister::FrontStencilFail.spec_index() == index);
                assert(index == 33 ==> MaxwellThreeDFixedFunctionRegister::FrontStencilDepthFail.spec_index() == index);
                assert(index == 34 ==> MaxwellThreeDFixedFunctionRegister::FrontStencilPass.spec_index() == index);
                assert(index == 35 ==> MaxwellThreeDFixedFunctionRegister::FrontStencilCompare.spec_index() == index);
                assert(index == 36 ==> MaxwellThreeDFixedFunctionRegister::FrontStencilReference.spec_index() == index);
                assert(index == 37 ==> MaxwellThreeDFixedFunctionRegister::FrontStencilCompareMask.spec_index() == index);
                assert(index == 38 ==> MaxwellThreeDFixedFunctionRegister::FrontStencilWriteMask.spec_index() == index);
                assert(index == 39 ==> MaxwellThreeDFixedFunctionRegister::BackStencilFail.spec_index() == index);
                assert(index == 40 ==> MaxwellThreeDFixedFunctionRegister::BackStencilDepthFail.spec_index() == index);
                assert(index == 41 ==> MaxwellThreeDFixedFunctionRegister::BackStencilPass.spec_index() == index);
                assert(index == 42 ==> MaxwellThreeDFixedFunctionRegister::BackStencilCompare.spec_index() == index);
                assert(index == 43 ==> MaxwellThreeDFixedFunctionRegister::BackStencilReference.spec_index() == index);
                assert(index == 44 ==> MaxwellThreeDFixedFunctionRegister::BackStencilCompareMask.spec_index() == index);
                assert(index == 45 ==> MaxwellThreeDFixedFunctionRegister::BackStencilWriteMask.spec_index() == index);
                assert(index == 46 ==> MaxwellThreeDFixedFunctionRegister::BlendSeparateAlpha.spec_index() == index);
                assert(index == 47 ==> MaxwellThreeDFixedFunctionRegister::BlendColorOp.spec_index() == index);
                assert(index == 48 ==> MaxwellThreeDFixedFunctionRegister::BlendColorSource.spec_index() == index);
                assert(index == 49 ==> MaxwellThreeDFixedFunctionRegister::BlendColorDestination.spec_index() == index);
                assert(index == 50 ==> MaxwellThreeDFixedFunctionRegister::BlendAlphaOp.spec_index() == index);
                assert(index == 51 ==> MaxwellThreeDFixedFunctionRegister::BlendAlphaSource.spec_index() == index);
                assert(index == 52 ==> MaxwellThreeDFixedFunctionRegister::BlendAlphaDestination.spec_index() == index);
                assert(index == 53 ==> MaxwellThreeDFixedFunctionRegister::BlendConstantRed.spec_index() == index);
                assert(index == 54 ==> MaxwellThreeDFixedFunctionRegister::BlendConstantGreen.spec_index() == index);
                assert(index == 55 ==> MaxwellThreeDFixedFunctionRegister::BlendConstantBlue.spec_index() == index);
                assert(index == 56 ==> MaxwellThreeDFixedFunctionRegister::BlendConstantAlpha.spec_index() == index);
                assert(index == 62 ==> MaxwellThreeDFixedFunctionRegister::WindowClipType.spec_index() == index);
                assert(index == 66 ==> MaxwellThreeDFixedFunctionRegister::LogicOpFunction.spec_index() == index);
            }
        }
        r
    }
}

/// Decoded value of a scalar fixed-function register.
#[derive(Clone, Copy, Debug, PartialEq, Eq, Hash, Structural)]
#[allow(inconsistent_fields)]
pub enum MaxwellThreeDFixedFunctionValue {
    Boolean(bool),
    PolygonMode(MaxwellThreeDPolygonMode),
    ShadeMode(MaxwellThreeDShadeMode),
    FrontFace(MaxwellThreeDFrontFace),
    CullFace(MaxwellThreeDCullFace),
    Compare(MaxwellThreeDCompareOp),
    StencilOp(MaxwellThreeDStencilOp),
    BlendOp(MaxwellThreeDBlendOp),
    BlendFactor(MaxwellThreeDBlendFactor),
    LogicOp(MaxwellThreeDLogicOp),
    ProvokingVertex(MaxwellThreeDProvokingVertex),
    PixelShaderSaturate(MaxwellThreeDPixelShaderSaturate),
    FloatBits(MaxwellThreeDRawValue),
    SampleMode(MaxwellThreeDSampleMode),
    Mask(u32),
    ViewportScaleOffsetEnable(MaxwellThreeDViewportScaleOffsetEnable),
    ClipControl(MaxwellThreeDViewportClipControl),
    WindowClipType(MaxwellThreeDWindowClipType),
    ClipIdTestEnable(MaxwellThreeDClipIdTestEnable),
    AlphaControl { alpha_to_coverage: bool, alpha_to_one: bool },
}

/// One axis of the global surface clip: origin in bits 15:0, extent in bits 31:16.
#[derive(Clone, Copy, Debug, PartialEq, Eq, Hash, Structural)]
pub struct MaxwellThreeDSurfaceClipAxis {
    pub origin: u16,
    pub extent: u16,
}

impl MaxwellThreeDSurfaceClipAxis {
    pub open spec fn spec_parse(raw: u32) -> MaxwellThreeDSurfaceClipAxis {
        MaxwellThreeDSurfaceClipAxis {
            origin: (raw % 0x1_0000) as u16,
            extent: (raw / 0x1_0000) as u16,
        }
    }

    #[verifier::when_used_as_spec(spec_parse)]
    pub fn parse(raw: u32) -> (r: MaxwellThreeDSurfaceClipAxis)
        ensures
            r == MaxwellThreeDSurfaceClipAxis::spec_parse(raw),
    {
        MaxwellThreeDSurfaceClipAxis {
            origin: (raw % 0x1_0000) as u16,
            extent: (raw / 0x1_0000) as u16,
        }
    }

    #[must_use]
    pub fn origin(self) -> (r: u16)
        ensures
            r == self.origin,
    {
        self.origin
    }

    #[must_use]
    pub fn extent(self) -> (r: u16)
        ensures
            r == self.extent,
    {
        self.extent
    }
}

/// One signed source component selected by viewport coordinate swizzling.
#[derive(Clone, Copy, Debug, PartialEq, Eq, Hash, Structural)]
pub enum MaxwellThreeDViewportSwizzleComponent {
    PositiveX,
    NegativeX,
    PositiveY,
    NegativeY,
    PositiveZ,
    NegativeZ,
    PositiveW,
    NegativeW,
}

impl MaxwellThreeDViewportSwizzleComponent {
    /// Component named by the low three bits of a word.
    pub open spec fn spec_parse(raw: u32) -> MaxwellThreeDViewportSwizzleComponent {
        match raw & 7 {
            0 => MaxwellThreeDViewportSwizzleComponent::PositiveX,
            1 => MaxwellThreeDViewportSwizzleComponent::NegativeX,
            2 => MaxwellThreeDViewportSwizzleComponent::PositiveY,
            3 => MaxwellThreeDViewportSwizzleComponent::NegativeY,
            4 => MaxwellThreeDViewportSwizzleComponent::PositiveZ,
            5 => MaxwellThreeDViewportSwizzleComponent::NegativeZ,
            6 => MaxwellThreeDViewportSwizzleComponent::PositiveW,
            _ => MaxwellThreeDViewportSwizzleComponent::NegativeW,
        }
    }

    pub open spec fn spec_raw(self) -> u32 {
        match self {
            MaxwellThreeDViewportSwizzleComponent::PositiveX => 0,
            MaxwellThreeDViewportSwizzleComponent::NegativeX => 1,
            MaxwellThreeDViewportSwizzleComponent::PositiveY => 2,
            MaxwellThreeDViewportSwizzleComponent::NegativeY => 3,
            MaxwellThreeDViewportSwizzleComponent::PositiveZ => 4,
            MaxwellThreeDViewportSwizzleComponent::NegativeZ => 5,
            MaxwellThreeDViewportSwizzleComponent::PositiveW => 6,
            MaxwellThreeDViewportSwizzleComponent::NegativeW => 7,
        }
    }

    #[verifier::when_used_as_spec(spec_parse)]
    pub fn parse(raw: u32) -> (r: MaxwellThreeDViewportSwizzleComponent)
        ensures
            r == MaxwellThreeDViewportSwizzleComponent::spec_parse(raw),
    {
        match raw & 7 {
            0 => MaxwellThreeDViewportSwizzleComponent::PositiveX,
            1 => MaxwellThreeDViewportSwizzleComponent::NegativeX,
            2 => MaxwellThreeDViewportSwizzleComponent::PositiveY,
            3 => MaxwellThreeDViewportSwizzleComponent::NegativeY,
            4 => MaxwellThreeDViewportSwizzleComponent::PositiveZ,
            5 => MaxwellThreeDViewportSwizzleComponent::NegativeZ,
            6 => MaxwellThreeDViewportSwizzleComponent::PositiveW,
            _ => MaxwellThreeDViewportSwizzleComponent::NegativeW,
        }
    }

    #[must_use]
    #[verifier::when_used_as_spec(spec_raw)]
    pub fn raw(self) -> (r: u32)
        ensures
            r == self.spec_raw(),
            r < 8,
    {
        match self {
            MaxwellThreeDViewportSwizzleComponent::PositiveX => 0,
            MaxwellThreeDViewportSwizzleComponent::NegativeX => 1,
            MaxwellThreeDViewportSwizzleComponent::PositiveY => 2,
            MaxwellThreeDViewportSwizzleComponent::NegativeY => 3,
            MaxwellThreeDViewportSwizzleComponent::PositiveZ => 4,
            MaxwellThreeDViewportSwizzleComponent::NegativeZ => 5,
            MaxwellThreeDViewportSwizzleComponent::PositiveW => 6,
            MaxwellThreeDViewportSwizzleComponent::NegativeW => 7,
        }
    }
}

/// Signed component mapping applied before one viewport transform.
#[derive(Clone, Copy, Debug, PartialEq, Eq, Hash)]
pub struct MaxwellThreeDViewportCoordinateSwizzle {
    pub components: [MaxwellThreeDViewportSwizzleComponent; 4],
}

impl MaxwellThreeDViewportCoordinateSwizzle {
    /// Component `index` sits in the low bits of nibble `index`.
    pub open spec fn unpacks(self, raw: u32) -> bool {
        &&& self.components[0] == MaxwellThreeDViewportSwizzleComponent::spec_parse(raw)
        &&& self.components[1] == MaxwellThreeDViewportSwizzleComponent::spec_parse(raw >> 4)
        &&& self.components[2] == MaxwellThreeDViewportSwizzleComponent::spec_parse(raw >> 8)
        &&& self.components[3] == MaxwellThreeDViewportSwizzleComponent::spec_parse(raw >> 12)
    }

    pub open spec fn spec_parse(raw: u32) -> Option<MaxwellThreeDViewportCoordinateSwizzle> {
        if raw & !0x7777u32 != 0 {
            None
        } else {
            Some(
                MaxwellThreeDViewportCoordinateSwizzle {
                    components: [
                        MaxwellThreeDViewportSwizzleComponent::spec_parse(raw),
                        MaxwellThreeDViewportSwizzleComponent::spec_parse(raw >> 4),
                        MaxwellThreeDViewportSwizzleComponent::spec_parse(raw >> 8),
                        MaxwellThreeDViewportSwizzleComponent::spec_parse(raw >> 12),
                    ],
                },
            )
        }
    }

    #[verifier::when_used_as_spec(spec_parse)]
    pub fn parse(raw: u32) -> (r: Option<MaxwellThreeDViewportCoordinateSwizzle>)
        ensures
            r == MaxwellThreeDViewportCoordinateSwizzle::spec_parse(raw),
            r is Some <==> raw & !0x7777u32 == 0,
            r matches Some(swizzle) ==> swizzle.unpacks(raw),
    {
        if raw & !0x7777u32 != 0 {
            return None;
        }
        Some(
            MaxwellThreeDViewportCoordinateSwizzle {
                components: [
                    MaxwellThreeDViewportSwizzleComponent::parse(raw),
                    MaxwellThreeDViewportSwizzleComponent::parse(raw >> 4),
                    MaxwellThreeDViewportSwizzleComponent::parse(raw >> 8),
                    MaxwellThreeDViewportSwizzleComponent::parse(raw >> 12),
                ],
            },
        )
    }

    #[must_use]
    pub fn components(self) -> (r: [MaxwellThreeDViewportSwizzleComponent; 4])
        ensures
            r == self.components,
    {
        self.components
    }

    pub open spec fn spec_is_identity(self) -> bool {
        &&& self.components[0] == MaxwellThreeDViewportSwizzleComponent::PositiveX
        &&& self.components[1] == MaxwellThreeDViewportSwizzleComponent::PositiveY
        &&& self.components[2] == MaxwellThreeDViewportSwizzleComponent::PositiveZ
        &&& self.components[3] == MaxwellThreeDViewportSwizzleComponent::PositiveW
    }

    #[must_use]
    #[verifier::when_used_as_spec(spec_is_identity)]
    pub fn is_identity(self) -> (r: bool)
        ensures
            r == self.spec_is_identity(),
    {
        self.components[0] == MaxwellThreeDViewportSwizzleComponent::PositiveX
            && self.components[1] == MaxwellThreeDViewportSwizzleComponent::PositiveY
            && self.components[2] == MaxwellThreeDViewportSwizzleComponent::PositiveZ
            && self.components[3] == MaxwellThreeDViewportSwizzleComponent::PositiveW
    }

    pub open spec fn spec_raw(self) -> u32 {
        self.components[0].spec_raw() | (self.components[1].spec_raw() << 4u32) | (
        self.components[2].spec_raw() << 8u32) | (self.components[3].spec_raw() << 12u32)
    }

    #[must_use]
    #[verifier::when_used_as_spec(spec_raw)]
    pub fn raw(self) -> (r: u32)
        ensures
            r == self.spec_raw(),
    {
        self.components[0].raw() | (self.components[1].raw() << 4u32) | (self.components[2].raw()
            << 8u32) | (self.components[3].raw() << 12u32)
    }

    /// A word without reserved bits unpacks to a mapping that repacks to it.
    pub proof fn law_codec(self, raw: u32)
        requires
            raw & !0x7777u32 == 0,
            self.unpacks(raw),
        ensures
            self.spec_raw() == raw,
    {
        let a = raw & 7;
        let b = (raw >> 4) & 7;
        let c = (raw >> 8) & 7;
        let d = (raw >> 12) & 7;
        assert({
            &&& a < 8 && b < 8 && c < 8 && d < 8
            &&& a | (b << 4u32) | (c << 8u32) | (d << 12u32) == raw
        }) by (bit_vector)
            requires
                raw & !0x7777u32 == 0,
                a == raw & 7,
                b == (raw >> 4) & 7,
                c == (raw >> 8) & 7,
                d == (raw >> 12) & 7,
        ;
    }
}

/// Transform and clip registers of one viewport.
#[derive(Clone, Copy, Debug, PartialEq, Eq)]
pub struct MaxwellThreeDViewportTransformState {
    pub scale: [MaxwellThreeDRegister<MaxwellThreeDRawValue>; 3],
    pub offset: [MaxwellThreeDRegister<MaxwellThreeDRawValue>; 3],
    pub clip_horizontal: MaxwellThreeDRegister<MaxwellThreeDRectangle>,
    pub clip_vertical: MaxwellThreeDRegister<MaxwellThreeDRectangle>,
    pub clip_min_z: MaxwellThreeDRegister<MaxwellThreeDRawValue>,
    pub clip_max_z: MaxwellThreeDRegister<MaxwellThreeDRawValue>,
    pub coordinate_swizzle: MaxwellThreeDRegister<MaxwellThreeDViewportCoordinateSwizzle>,
}

impl MaxwellThreeDViewportTransformState {
    pub open spec fn initial(self) -> bool {
        &&& forall|i: int| 0 <= i < 3 ==> #[trigger] self.scale[i] == MaxwellThreeDRegister::<MaxwellThreeDRawValue>::spec_unset()
        &&& forall|i: int| 0 <= i < 3 ==> #[trigger] self.offset[i] == MaxwellThreeDRegister::<MaxwellThreeDRawValue>::spec_unset()
        &&& self.clip_horizontal == MaxwellThreeDRegister::<MaxwellThreeDRectangle>::spec_unset()
        &&& self.clip_vertical == MaxwellThreeDRegister::<MaxwellThreeDRectangle>::spec_unset()
        &&& self.clip_min_z == MaxwellThreeDRegister::<MaxwellThreeDRawValue>::spec_unset()
        &&& self.clip_max_z == MaxwellThreeDRegister::<MaxwellThreeDRawValue>::spec_unset()
        &&& self.coordinate_swizzle == MaxwellThreeDRegister::<MaxwellThreeDViewportCoordinateSwizzle>::spec_unset()
    }

    #[must_use]
    pub fn unprogrammed() -> (r: MaxwellThreeDViewportTransformState)
        ensures
            r.initial(),
    {
        MaxwellThreeDViewportTransformState {
            scale: [
                MaxwellThreeDRegister::unset(),
                MaxwellThreeDRegister::unset(),
                MaxwellThreeDRegister::unset(),
            ],
            offset: [
                MaxwellThreeDRegister::unset(),
                MaxwellThreeDRegister::unset(),
                MaxwellThreeDRegister::unset(),
            ],
            clip_horizontal: MaxwellThreeDRegister::unset(),
            clip_vertical: MaxwellThreeDRegister::unset(),
            clip_min_z: MaxwellThreeDRegister::unset(),
            clip_max_z: MaxwellThreeDRegister::unset(),
            coordinate_swizzle: MaxwellThreeDRegister::unset(),
        }
    }

    #[must_use]
    pub fn scale(&self) -> (r: &[MaxwellThreeDRegister<MaxwellThreeDRawValue>; 3])
        ensures
            *r == self.scale,
    {
        &self.scale
    }

    #[must_use]
    pub fn offset(&self) -> (r: &[MaxwellThreeDRegister<MaxwellThreeDRawValue>; 3])
        ensures
            *r == self.offset,
    {
        &self.offset
    }

    #[must_use]
    pub fn clip_horizontal(&self) -> (r: &MaxwellThreeDRegister<MaxwellThreeDRectangle>)
        ensures
            *r == self.clip_horizontal,
    {
        &self.clip_horizontal
    }

    #[must_use]
    pub fn clip_vertical(&self) -> (r: &MaxwellThreeDRegister<MaxwellThreeDRectangle>)
        ensures
            *r == self.clip_vertical,
    {
        &self.clip_vertical
    }

    #[must_use]
    pub fn clip_min_z(&self) -> (r: &MaxwellThreeDRegister<MaxwellThreeDRawValue>)
        ensures
            *r == self.clip_min_z,
    {
        &self.clip_min_z
    }

    #[must_use]
    pub fn clip_max_z(&self) -> (r: &MaxwellThreeDRegister<MaxwellThreeDRawValue>)
        ensures
            *r == self.clip_max_z,
    {
        &self.clip_max_z
    }

    #[must_use]
    pub fn coordinate_swizzle(&self) -> (r: &MaxwellThreeDRegister<MaxwellThreeDViewportCoordinateSwizzle>)
        ensures
            *r == self.coordinate_swizzle,
    {
        &self.coordinate_swizzle
    }
}

impl Default for MaxwellThreeDViewportTransformState {
    fn default() -> (r: MaxwellThreeDViewportTransformState)
        ensures
            r.initial(),
    {
        MaxwellThreeDViewportTransformState::unprogrammed()
    }
}

/// Registers of one scissor.
#[derive(Clone, Copy, Debug, PartialEq, Eq)]
pub struct MaxwellThreeDScissorState {
    pub enable: MaxwellThreeDRegister<bool>,
    pub horizontal: MaxwellThreeDRegister<MaxwellThreeDRectangle>,
    pub vertical: MaxwellThreeDRegister<MaxwellThreeDRectangle>,
}

impl MaxwellThreeDScissorState {
    pub open spec fn initial(self) -> bool {
        &&& self.enable == MaxwellThreeDRegister::<bool>::spec_unset()
        &&& self.horizontal == MaxwellThreeDRegister::<MaxwellThreeDRectangle>::spec_unset()
        &&& self.vertical == MaxwellThreeDRegister::<MaxwellThreeDRectangle>::spec_unset()
    }

    #[must_use]
    pub fn unprogrammed() -> (r: MaxwellThreeDScissorState)
        ensures
            r.initial(),
    {
        MaxwellThreeDScissorState {
            enable: MaxwellThreeDRegister::unset(),
            horizontal: MaxwellThreeDRegister::unset(),
            vertical: MaxwellThreeDRegister::unset(),
        }
    }

    #[must_use]
    pub fn enable(&self) -> (r: &MaxwellThreeDRegister<bool>)
        ensures
            *r == self.enable,
    {
        &self.enable
    }

    #[must_use]
    pub fn horizontal(&self) -> (r: &MaxwellThreeDRegister<MaxwellThreeDRectangle>)
        ensures
            *r == self.horizontal,
    {
        &self.horizontal
    }

    #[must_use]
    pub fn vertical(&self) -> (r: &MaxwellThreeDRegister<MaxwellThreeDRectangle>)
        ensures
            *r == self.vertical,
    {
        &self.vertical
    }
}

impl Default for MaxwellThreeDScissorState {
    fn default() -> (r: MaxwellThreeDScissorState)
        ensures
            r.initial(),
    {
        MaxwellThreeDScissorState::unprogrammed()
    }
}

/// One horizontal and vertical window-clip rectangle pair.
#[derive(Clone, Copy, Debug, PartialEq, Eq)]
pub struct MaxwellThreeDWindowClipState {
    pub horizontal: MaxwellThreeDRegister<MaxwellThreeDRectangle>,
    pub vertical: MaxwellThreeDRegister<MaxwellThreeDRectangle>,
}

impl MaxwellThreeDWindowClipState {
    pub open spec fn initial(self) -> bool {
        &&& self.horizontal == MaxwellThreeDRegister::<MaxwellThreeDRectangle>::spec_unset()
        &&& self.vertical == MaxwellThreeDRegister::<MaxwellThreeDRectangle>::spec_unset()
    }

    #[must_use]
    pub fn unprogrammed() -> (r: MaxwellThreeDWindowClipState)
        ensures
            r.initial(),
    {
        MaxwellThreeDWindowClipState {
            horizontal: MaxwellThreeDRegister::unset(),
            vertical: MaxwellThreeDRegister::unset(),
        }
    }

    #[must_use]
    pub fn horizontal(&self) -> (r: &MaxwellThreeDRegister<MaxwellThreeDRectangle>)
        ensures
            *r == self.horizontal,
    {
        &self.horizontal
    }

    #[must_use]
    pub fn vertical(&self) -> (r: &MaxwellThreeDRegister<MaxwellThreeDRectangle>)
        ensures
            *r == self.vertical,
    {
        &self.vertical
    }
}

impl Default for MaxwellThreeDWindowClipState {
    fn default() -> (r: MaxwellThreeDWindowClipState)
        ensures
            r.initial(),
    {
        MaxwellThreeDWindowClipState::unprogrammed()
    }
}

/// One validated fixed-function transition. The register word is the packet argument.
#[derive(Clone, Copy, Debug, PartialEq, Eq)]
#[allow(inconsistent_fields)]
pub enum MaxwellThreeDFixedFunctionWrite {
    SurfaceClip { vertical: bool, value: MaxwellThreeDSurfaceClipAxis, source: MaxwellMethodSource },
    ViewportFloat { viewport: u8, field: u8, value: MaxwellThreeDRawValue, source: MaxwellMethodSource },
    ViewportRectangle { viewport: u8, vertical: bool, value: MaxwellThreeDRectangle, source: MaxwellMethodSource },
    ViewportDepth { viewport: u8, maximum: bool, value: MaxwellThreeDRawValue, source: MaxwellMethodSource },
    ViewportCoordinateSwizzle { viewport: u8, value: MaxwellThreeDViewportCoordinateSwizzle, source: MaxwellMethodSource },
    ScissorEnable { scissor: u8, value: bool, source: MaxwellMethodSource },
    ScissorRectangle { scissor: u8, vertical: bool, value: MaxwellThreeDRectangle, source: MaxwellMethodSource },
    WindowClipRectangle { region: u8, vertical: bool, value: MaxwellThreeDRectangle, source: MaxwellMethodSource },
    Register { register: MaxwellThreeDFixedFunctionRegister, value: MaxwellThreeDFixedFunctionValue, source: MaxwellMethodSource },
    BlendEnableCommon { value: MaxwellThreeDBlendEnableCommon, source: MaxwellMethodSource },
    BlendEnable { target: u8, value: bool, source: MaxwellMethodSource },
    ColorMask { target: u8, value: MaxwellThreeDColorMask, source: MaxwellMethodSource },
    BlendState { target: u8, field: u8, value: MaxwellThreeDFixedFunctionValue, source: MaxwellMethodSource },
    BlendPerFormatEnable { value: MaxwellThreeDBlendPerFormatEnable, source: MaxwellMethodSource },
    BlendFloatPixelKillEnable { value: MaxwellThreeDBlendFloatPixelKillEnable, source: MaxwellMethodSource },
    BlendZeroTimesAnythingIsZero { value: MaxwellThreeDBlendZeroTimesAnythingIsZero, source: MaxwellMethodSource },
    IteratedBlend { value: MaxwellThreeDIteratedBlend, source: MaxwellMethodSource },
    IteratedBlendPassCount { value: MaxwellThreeDIteratedBlendPassCount, source: MaxwellMethodSource },
}

impl MaxwellThreeDFixedFunctionWrite {
    /// Viewport, scissor, region, target and field indices are in range.
    pub open spec fn wf(self) -> bool {
        match self {
            MaxwellThreeDFixedFunctionWrite::ViewportFloat { viewport, field, .. } => viewport < 16 && field < 6,
            MaxwellThreeDFixedFunctionWrite::ViewportRectangle { viewport, .. } => viewport < 16,
            MaxwellThreeDFixedFunctionWrite::ViewportDepth { viewport, .. } => viewport < 16,
            MaxwellThreeDFixedFunctionWrite::ViewportCoordinateSwizzle { viewport, .. } => viewport < 16,
            MaxwellThreeDFixedFunctionWrite::ScissorEnable { scissor, .. } => scissor < 16,
            MaxwellThreeDFixedFunctionWrite::ScissorRectangle { scissor, .. } => scissor < 16,
            MaxwellThreeDFixedFunctionWrite::WindowClipRectangle { region, .. } => region < 8,
            MaxwellThreeDFixedFunctionWrite::BlendEnable { target, .. } => target < 8,
            MaxwellThreeDFixedFunctionWrite::ColorMask { target, .. } => target < 8,
            MaxwellThreeDFixedFunctionWrite::BlendState { target, field, .. } => target < 8 && field < 7,
            _ => true,
        }
    }

    pub open spec fn spec_source(self) -> MaxwellMethodSource {
        match self {
            MaxwellThreeDFixedFunctionWrite::SurfaceClip { source, .. } => source,
            MaxwellThreeDFixedFunctionWrite::ViewportFloat { source, .. } => source,
            MaxwellThreeDFixedFunctionWrite::ViewportRectangle { source, .. } => source,
            MaxwellThreeDFixedFunctionWrite::ViewportDepth { source, .. } => source,
            MaxwellThreeDFixedFunctionWrite::ViewportCoordinateSwizzle { source, .. } => source,
            MaxwellThreeDFixedFunctionWrite::ScissorEnable { source, .. } => source,
            MaxwellThreeDFixedFunctionWrite::ScissorRectangle { source, .. } => source,
            MaxwellThreeDFixedFunctionWrite::WindowClipRectangle { source, .. } => source,
            MaxwellThreeDFixedFunctionWrite::Register { source, .. } => source,
            MaxwellThreeDFixedFunctionWrite::BlendEnableCommon { source, .. } => source,
            MaxwellThreeDFixedFunctionWrite::BlendEnable { source, .. } => source,
            MaxwellThreeDFixedFunctionWrite::ColorMask { source, .. } => source,
            MaxwellThreeDFixedFunctionWrite::BlendState { source, .. } => source,
            MaxwellThreeDFixedFunctionWrite::BlendPerFormatEnable { source, .. } => source,
            MaxwellThreeDFixedFunctionWrite::BlendFloatPixelKillEnable { source, .. } => source,
            MaxwellThreeDFixedFunctionWrite::BlendZeroTimesAnythingIsZero { source, .. } => source,
            MaxwellThreeDFixedFunctionWrite::IteratedBlend { source, .. } => source,
            MaxwellThreeDFixedFunctionWrite::IteratedBlendPassCount { source, .. } => source,
        }
    }

    #[must_use]
    #[verifier::when_used_as_spec(spec_source)]
    pub fn source(self) -> (r: MaxwellMethodSource)
        ensures
            r == self.spec_source(),
    {
        match self {
            MaxwellThreeDFixedFunctionWrite::SurfaceClip { source, .. } => source,
            MaxwellThreeDFixedFunctionWrite::ViewportFloat { source, .. } => source,
            MaxwellThreeDFixedFunctionWrite::ViewportRectangle { source, .. } => source,
            MaxwellThreeDFixedFunctionWrite::ViewportDepth { source, .. } => source,
            MaxwellThreeDFixedFunctionWrite::ViewportCoordinateSwizzle { source, .. } => source,
            MaxwellThreeDFixedFunctionWrite::ScissorEnable { source, .. } => source,
            MaxwellThreeDFixedFunctionWrite::ScissorRectangle { source, .. } => source,
            MaxwellThreeDFixedFunctionWrite::WindowClipRectangle { source, .. } => source,
            MaxwellThreeDFixedFunctionWrite::Register { source, .. } => source,
            MaxwellThreeDFixedFunctionWrite::BlendEnableCommon { source, .. } => source,
            MaxwellThreeDFixedFunctionWrite::BlendEnable { source, .. } => source,
            MaxwellThreeDFixedFunctionWrite::ColorMask { source, .. } => source,
            MaxwellThreeDFixedFunctionWrite::BlendState { source, .. } => source,
            MaxwellThreeDFixedFunctionWrite::BlendPerFormatEnable { source, .. } => source,
            MaxwellThreeDFixedFunctionWrite::BlendFloatPixelKillEnable { source, .. } => source,
            MaxwellThreeDFixedFunctionWrite::BlendZeroTimesAnythingIsZero { source, .. } => source,
            MaxwellThreeDFixedFunctionWrite::IteratedBlend { source, .. } => source,
            MaxwellThreeDFixedFunctionWrite::IteratedBlendPassCount { source, .. } => source,
        }
    }
}

/// All fixed-function output state.
#[derive(Clone, Copy, Debug, PartialEq, Eq)]
pub struct MaxwellThreeDFixedFunctionState {
    pub surface_clip_horizontal: MaxwellThreeDRegister<MaxwellThreeDSurfaceClipAxis>,
    pub surface_clip_vertical: MaxwellThreeDRegister<MaxwellThreeDSurfaceClipAxis>,
    pub viewport: [MaxwellThreeDViewportTransformState; 16],
    pub scissor: [MaxwellThreeDScissorState; 16],
    pub window_clip: [MaxwellThreeDWindowClipState; 8],
    pub registers: [MaxwellThreeDRegister<MaxwellThreeDFixedFunctionValue>; 75],
    pub blend_enable_common: MaxwellThreeDRegister<MaxwellThreeDBlendEnableCommon>,
    pub blend_enable: [MaxwellThreeDRegister<bool>; 8],
    pub color_mask: [MaxwellThreeDRegister<MaxwellThreeDColorMask>; 8],
    pub per_target_blend: [[MaxwellThreeDRegister<MaxwellThreeDFixedFunctionValue>; 7]; 8],
    pub blend_controls: MaxwellThreeDBlendControlState,
}

impl MaxwellThreeDFixedFunctionState {
    /// Reset state: both polygon modes hold an uninterpreted reset word, the
    /// window origin holds its reset mask, and every other register is unset.
    pub open spec fn initial(self, polygon_mode_reset: u32, window_origin_reset: u32) -> bool {
        &&& self.surface_clip_horizontal == MaxwellThreeDRegister::<MaxwellThreeDSurfaceClipAxis>::spec_unset()
        &&& self.surface_clip_vertical == MaxwellThreeDRegister::<MaxwellThreeDSurfaceClipAxis>::spec_unset()
        &&& forall|i: int| 0 <= i < 16 ==> #[trigger] self.viewport[i].initial()
        &&& forall|i: int| 0 <= i < 16 ==> #[trigger] self.scissor[i].initial()
        &&& forall|i: int| 0 <= i < 8 ==> #[trigger] self.window_clip[i].initial()
        &&& forall|register: MaxwellThreeDFixedFunctionRegister|
            self.registers[(#[trigger] register.spec_index()) as int] == match register {
                MaxwellThreeDFixedFunctionRegister::FrontPolygonMode
                | MaxwellThreeDFixedFunctionRegister::BackPolygonMode =>
                    MaxwellThreeDRegister::verified_reset(polygon_mode_reset, None),
                MaxwellThreeDFixedFunctionRegister::WindowOrigin =>
                    MaxwellThreeDRegister::verified_reset(
                        window_origin_reset,
                        Some(MaxwellThreeDFixedFunctionValue::Mask(window_origin_reset)),
                    ),
                _ => MaxwellThreeDRegister::<MaxwellThreeDFixedFunctionValue>::spec_unset(),
            }
        &&& self.blend_enable_common == MaxwellThreeDRegister::<MaxwellThreeDBlendEnableCommon>::spec_unset()
        &&& forall|i: int| 0 <= i < 8 ==> #[trigger] self.blend_enable[i] == MaxwellThreeDRegister::<bool>::spec_unset()
        &&& forall|i: int| 0 <= i < 8 ==> #[trigger] self.color_mask[i] == MaxwellThreeDRegister::<MaxwellThreeDColorMask>::spec_unset()
        &&& forall|i: int, j: int|
            0 <= i < 8 && 0 <= j < 7 ==> #[trigger] self.per_target_blend[i][j] == MaxwellThreeDRegister::<MaxwellThreeDFixedFunctionValue>::spec_unset()
        &&& self.blend_controls.initial()
    }

    /// State holding the documented reset words and nothing else.
    #[must_use]
    pub fn with_resets(polygon_mode_reset: u32, window_origin_reset: u32) -> (r:
        MaxwellThreeDFixedFunctionState)
        ensures
            r.initial(polygon_mode_reset, window_origin_reset),
    {
        let unset: MaxwellThreeDRegister<MaxwellThreeDFixedFunctionValue> =
            MaxwellThreeDRegister::unset();
        let equation: [MaxwellThreeDRegister<MaxwellThreeDFixedFunctionValue>; 7] = [
            unset, unset, unset, unset, unset, unset, unset,
        ];
        MaxwellThreeDFixedFunctionState {
            surface_clip_horizontal: MaxwellThreeDRegister::unset(),
            surface_clip_vertical: MaxwellThreeDRegister::unset(),
            viewport: [
                MaxwellThreeDViewportTransformState::unprogrammed(),
                MaxwellThreeDViewportTransformState::unprogrammed(),
                MaxwellThreeDViewportTransformState::unprogrammed(),
                MaxwellThreeDViewportTransformState::unprogrammed(),
                MaxwellThreeDViewportTransformState::unprogrammed(),
                MaxwellThreeDViewportTransformState::unprogrammed(),
                MaxwellThreeDViewportTransformState::unprogrammed(),
                MaxwellThreeDViewportTransformState::unprogrammed(),
                MaxwellThreeDViewportTransformState::unprogrammed(),
                MaxwellThreeDViewportTransformState::unprogrammed(),
                MaxwellThreeDViewportTransformState::unprogrammed(),
                MaxwellThreeDViewportTransformState::unprogrammed(),
                MaxwellThreeDViewportTransformState::unprogrammed(),
                MaxwellThreeDViewportTransformState::unprogrammed(),
                MaxwellThreeDViewportTransformState::unprogrammed(),
                MaxwellThreeDViewportTransformState::unprogrammed(),
            ],
            scissor: [
                MaxwellThreeDScissorState::unprogrammed(),
                MaxwellThreeDScissorState::unprogrammed(),
                MaxwellThreeDScissorState::unprogrammed(),
                MaxwellThreeDScissorState::unprogrammed(),
                MaxwellThreeDScissorState::unprogrammed(),
                MaxwellThreeDScissorState::unprogrammed(),
                MaxwellThreeDScissorState::unprogrammed(),
                MaxwellThreeDScissorState::unprogrammed(),
                MaxwellThreeDScissorState::unprogrammed(),
                MaxwellThreeDScissorState::unprogrammed(),
                MaxwellThreeDScissorState::unprogrammed(),
                MaxwellThreeDScissorState::unprogrammed(),
                MaxwellThreeDScissorState::unprogrammed(),
                MaxwellThreeDScissorState::unprogrammed(),
                MaxwellThreeDScissorState::unprogrammed(),
                MaxwellThreeDScissorState::unprogrammed(),
            ],
            window_clip: [
                MaxwellThreeDWindowClipState::unprogrammed(),
                MaxwellThreeDWindowClipState::unprogrammed(),
                MaxwellThreeDWindowClipState::unprogrammed(),
                MaxwellThreeDWindowClipState::unprogrammed(),
                MaxwellThreeDWindowClipState::unprogrammed(),
                MaxwellThreeDWindowClipState::unprogrammed(),
                MaxwellThreeDWindowClipState::unprogrammed(),
                MaxwellThreeDWindowClipState::unprogrammed(),
            ],
            registers: [
                MaxwellThreeDRegister::unset(),
                MaxwellThreeDRegister::verified_reset(polygon_mode_reset, None),
                MaxwellThreeDRegister::verified_reset(polygon_mode_reset, None),
                MaxwellThreeDRegister::unset(),
                MaxwellThreeDRegister::unset(),
                MaxwellThreeDRegister::unset(),
                MaxwellThreeDRegister::unset(),
                MaxwellThreeDRegister::unset(),
                MaxwellThreeDRegister::unset(),
                MaxwellThreeDRegister::unset(),
                MaxwellThreeDRegister::unset(),
                MaxwellThreeDRegister::unset(),
                MaxwellThreeDRegister::unset(),
                MaxwellThreeDRegister::unset(),
                MaxwellThreeDRegister::unset(),
                MaxwellThreeDRegister::unset(),
                MaxwellThreeDRegister::unset(),
                MaxwellThreeDRegister::unset(),
                MaxwellThreeDRegister::unset(),
                MaxwellThreeDRegister::unset(),
                MaxwellThreeDRegister::unset(),
                MaxwellThreeDRegister::unset(),
                MaxwellThreeDRegister::unset(),
                MaxwellThreeDRegister::unset(),
                MaxwellThreeDRegister::unset(),
                MaxwellThreeDRegister::unset(),
                MaxwellThreeDRegister::unset(),
                MaxwellThreeDRegister::unset(),
                MaxwellThreeDRegister::unset(),
                MaxwellThreeDRegister::unset(),
                MaxwellThreeDRegister::unset(),
                MaxwellThreeDRegister::unset(),
                MaxwellThreeDRegister::unset(),
                MaxwellThreeDRegister::unset(),
                MaxwellThreeDRegister::unset(),
                MaxwellThreeDRegister::unset(),
                MaxwellThreeDRegister::unset(),
                MaxwellThreeDRegister::unset(),
                MaxwellThreeDRegister::unset(),
                MaxwellThreeDRegister::unset(),
                MaxwellThreeDRegister::unset(),
                MaxwellThreeDRegister::unset(),
                MaxwellThreeDRegister::unset(),
                MaxwellThreeDRegister::unset(),
                MaxwellThreeDRegister::unset(),
                MaxwellThreeDRegister::unset(),
                MaxwellThreeDRegister::unset(),
                MaxwellThreeDRegister::unset(),
                MaxwellThreeDRegister::unset(),
                MaxwellThreeDRegister::unset(),
                MaxwellThreeDRegister::unset(),
                MaxwellThreeDRegister::unset(),
                MaxwellThreeDRegister::unset(),
                MaxwellThreeDRegister::unset(),
                MaxwellThreeDRegister::unset(),
                MaxwellThreeDRegister::unset(),
                MaxwellThreeDRegister::unset(),
                MaxwellThreeDRegister::unset(),
                MaxwellThreeDRegister::unset(),
                MaxwellThreeDRegister::verified_reset(
                    window_origin_reset,
                    Some(MaxwellThreeDFixedFunctionValue::Mask(window_origin_reset)),
                ),
                MaxwellThreeDRegister::unset(),
                MaxwellThreeDRegister::unset(),
                MaxwellThreeDRegister::unset(),
                MaxwellThreeDRegister::unset(),
                MaxwellThreeDRegister::unset(),
                MaxwellThreeDRegister::unset(),
                MaxwellThreeDRegister::unset(),
                MaxwellThreeDRegister::unset(),
                MaxwellThreeDRegister::unset(),
                MaxwellThreeDRegister::unset(),
                MaxwellThreeDRegister::unset(),
                MaxwellThreeDRegister::unset(),
                MaxwellThreeDRegister::unset(),
                MaxwellThreeDRegister::unset(),
                MaxwellThreeDRegister::unset(),
            ],
            blend_enable_common: MaxwellThreeDRegister::unset(),
            blend_enable: [
                MaxwellThreeDRegister::unset(),
                MaxwellThreeDRegister::unset(),
                MaxwellThreeDRegister::unset(),
                MaxwellThreeDRegister::unset(),
                MaxwellThreeDRegister::unset(),
                MaxwellThreeDRegister::unset(),
                MaxwellThreeDRegister::unset(),
                MaxwellThreeDRegister::unset(),
            ],
            color_mask: [
                MaxwellThreeDRegister::unset(),
                MaxwellThreeDRegister::unset(),
                MaxwellThreeDRegister::unset(),
                MaxwellThreeDRegister::unset(),
                MaxwellThreeDRegister::unset(),
                MaxwellThreeDRegister::unset(),
                MaxwellThreeDRegister::unset(),
                MaxwellThreeDRegister::unset(),
            ],
            per_target_blend: [
                equation, equation, equation, equation, equation, equation, equation, equation,
            ],
            blend_controls: MaxwellThreeDBlendControlState::unprogrammed(),
        }
    }

    #[must_use]
    pub fn surface_clip_horizontal(&self) -> (r: &MaxwellThreeDRegister<MaxwellThreeDSurfaceClipAxis>)
        ensures
            *r == self.surface_clip_horizontal,
    {
        &self.surface_clip_horizontal
    }

    #[must_use]
    pub fn surface_clip_vertical(&self) -> (r: &MaxwellThreeDRegister<MaxwellThreeDSurfaceClipAxis>)
        ensures
            *r == self.surface_clip_vertical,
    {
        &self.surface_clip_vertical
    }

    #[must_use]
    pub fn viewport(&self) -> (r: &[MaxwellThreeDViewportTransformState; 16])
        ensures
            *r == self.viewport,
    {
        &self.viewport
    }

    #[must_use]
    pub fn scissor(&self) -> (r: &[MaxwellThreeDScissorState; 16])
        ensures
            *r == self.scissor,
    {
        &self.scissor
    }

    #[must_use]
    pub fn window_clip(&self) -> (r: &[MaxwellThreeDWindowClipState; 8])
        ensures
            *r == self.window_clip,
    {
        &self.window_clip
    }

    #[must_use]
    pub fn blend_enable_common(&self) -> (r: &MaxwellThreeDRegister<MaxwellThreeDBlendEnableCommon>)
        ensures
            *r == self.blend_enable_common,
    {
        &self.blend_enable_common
    }

    #[must_use]
    pub fn blend_enable(&self) -> (r: &[MaxwellThreeDRegister<bool>; 8])
        ensures
            *r == self.blend_enable,
    {
        &self.blend_enable
    }

    #[must_use]
    pub fn color_mask(&self) -> (r: &[MaxwellThreeDRegister<MaxwellThreeDColorMask>; 8])
        ensures
            *r == self.color_mask,
    {
        &self.color_mask
    }

    #[must_use]
    pub fn per_target_blend(&self) -> (r: &[[MaxwellThreeDRegister<MaxwellThreeDFixedFunctionValue>; 7]; 8])
        ensures
            *r == self.per_target_blend,
    {
        &self.per_target_blend
    }

    #[must_use]
    pub fn blend_controls(&self) -> (r: &MaxwellThreeDBlendControlState)
        ensures
            *r == self.blend_controls,
    {
        &self.blend_controls
    }

    pub open spec fn spec_register(self, register: MaxwellThreeDFixedFunctionRegister) -> MaxwellThreeDRegister<MaxwellThreeDFixedFunctionValue> {
        self.registers[register.spec_index() as int]
    }

    #[must_use]
    pub fn register(&self, register: MaxwellThreeDFixedFunctionRegister) -> (r:
        &MaxwellThreeDRegister<MaxwellThreeDFixedFunctionValue>)
        ensures
            *r == self.spec_register(register),
    {
        &self.registers[register.index()]
    }

    pub open spec fn spec_value_of(&self, register: MaxwellThreeDFixedFunctionRegister) -> Option<MaxwellThreeDFixedFunctionValue> {
        self.spec_register(register).value
    }

    /// Value of a register, if it is known.
    #[must_use]
    #[verifier::when_used_as_spec(spec_value_of)]
    pub fn value_of(&self, register: MaxwellThreeDFixedFunctionRegister) -> (r: Option<MaxwellThreeDFixedFunctionValue>)
        ensures
            r == self.spec_value_of(register),
    {
        self.registers[register.index()].value
    }

    /// Whether a register is known to hold a given boolean.
    pub open spec fn holds(self, register: MaxwellThreeDFixedFunctionRegister, value: bool) -> bool {
        self.spec_register(register).value == Some(MaxwellThreeDFixedFunctionValue::Boolean(value))
    }

    #[must_use]
    pub fn register_holds(&self, register: MaxwellThreeDFixedFunctionRegister, value: bool) -> (r:
        bool)
        ensures
            r == self.holds(register, value),
    {
        match self.registers[register.index()].value {
            Some(MaxwellThreeDFixedFunctionValue::Boolean(held)) => held == value,
            _ => false,
        }
    }

    /// State after one transition: the addressed register holds the packet
    /// argument, its value and its source, and every other register is unchanged.
    pub open spec fn written(self, write: MaxwellThreeDFixedFunctionWrite) -> MaxwellThreeDFixedFunctionState {
        let source = write.spec_source();
        let raw = source.argument;
        match write {
            MaxwellThreeDFixedFunctionWrite::SurfaceClip { vertical, value, .. } => if vertical {
                MaxwellThreeDFixedFunctionState { surface_clip_vertical: MaxwellThreeDRegister::programmed(raw, value, source), ..self }
            } else {
                MaxwellThreeDFixedFunctionState { surface_clip_horizontal: MaxwellThreeDRegister::programmed(raw, value, source), ..self }
            },
            MaxwellThreeDFixedFunctionWrite::ViewportFloat { viewport, field, value, .. } => if field < 3 {
                MaxwellThreeDFixedFunctionState { viewport: vstd::array::spec_array_update(self.viewport, viewport as int, MaxwellThreeDViewportTransformState { scale: vstd::array::spec_array_update(self.viewport[viewport as int].scale, field as int, MaxwellThreeDRegister::programmed(raw, value, source)), ..self.viewport[viewport as int] }), ..self }
            } else {
                MaxwellThreeDFixedFunctionState { viewport: vstd::array::spec_array_update(self.viewport, viewport as int, MaxwellThreeDViewportTransformState { offset: vstd::array::spec_array_update(self.viewport[viewport as int].offset, field - 3, MaxwellThreeDRegister::programmed(raw, value, source)), ..self.viewport[viewport as int] }), ..self }
            },
            MaxwellThreeDFixedFunctionWrite::ViewportRectangle { viewport, vertical, value, .. } => if vertical {
                MaxwellThreeDFixedFunctionState { viewport: vstd::array::spec_array_update(self.viewport, viewport as int, MaxwellThreeDViewportTransformState { clip_vertical: MaxwellThreeDRegister::programmed(raw, value, source), ..self.viewport[viewport as int] }), ..self }
            } else {
                MaxwellThreeDFixedFunctionState { viewport: vstd::array::spec_array_update(self.viewport, viewport as int, MaxwellThreeDViewportTransformState { clip_horizontal: MaxwellThreeDRegister::programmed(raw, value, source), ..self.viewport[viewport as int] }), ..self }
            },
            MaxwellThreeDFixedFunctionWrite::ViewportDepth { viewport, maximum, value, .. } => if maximum {
                MaxwellThreeDFixedFunctionState { viewport: vstd::array::spec_array_update(self.viewport, viewport as int, MaxwellThreeDViewportTransformState { clip_max_z: MaxwellThreeDRegister::programmed(raw, value, source), ..self.viewport[viewport as int] }), ..self }
            } else {
                MaxwellThreeDFixedFunctionState { viewport: vstd::array::spec_array_update(self.viewport, viewport as int, MaxwellThreeDViewportTransformState { clip_min_z: MaxwellThreeDRegister::programmed(raw, value, source), ..self.viewport[viewport as int] }), ..self }
            },
            MaxwellThreeDFixedFunctionWrite::ViewportCoordinateSwizzle { viewport, value, .. } => MaxwellThreeDFixedFunctionState { viewport: vstd::array::spec_array_update(self.viewport, viewport as int, MaxwellThreeDViewportTransformState { coordinate_swizzle: MaxwellThreeDRegister::programmed(raw, value, source), ..self.viewport[viewport as int] }), ..self },
            MaxwellThreeDFixedFunctionWrite::ScissorEnable { scissor, value, .. } => MaxwellThreeDFixedFunctionState { scissor: vstd::array::spec_array_update(self.scissor, scissor as int, MaxwellThreeDScissorState { enable: MaxwellThreeDRegister::programmed(raw, value, source), ..self.scissor[scissor as int] }), ..self },
            MaxwellThreeDFixedFunctionWrite::ScissorRectangle { scissor, vertical, value, .. } => if vertical {
                MaxwellThreeDFixedFunctionState { scissor: vstd::array::spec_array_update(self.scissor, scissor as int, MaxwellThreeDScissorState { vertical: MaxwellThreeDRegister::programmed(raw, value, source), ..self.scissor[scissor as int] }), ..self }
            } else {
                MaxwellThreeDFixedFunctionState { scissor: vstd::array::spec_array_update(self.scissor, scissor as int, MaxwellThreeDScissorState { horizontal: MaxwellThreeDRegister::programmed(raw, value, source), ..self.scissor[scissor as int] }), ..self }
            },
            MaxwellThreeDFixedFunctionWrite::WindowClipRectangle { region, vertical, value, .. } => if vertical {
                MaxwellThreeDFixedFunctionState { window_clip: vstd::array::spec_array_update(self.window_clip, region as int, MaxwellThreeDWindowClipState { vertical: MaxwellThreeDRegister::programmed(raw, value, source), ..self.window_clip[region as int] }), ..self }
            } else {
                MaxwellThreeDFixedFunctionState { window_clip: vstd::array::spec_array_update(self.window_clip, region as int, MaxwellThreeDWindowClipState { horizontal: MaxwellThreeDRegister::programmed(raw, value, source), ..self.window_clip[region as int] }), ..self }
            },
            MaxwellThreeDFixedFunctionWrite::Register { register, value, .. } => MaxwellThreeDFixedFunctionState { registers: vstd::array::spec_array_update(self.registers, register.spec_index() as int, MaxwellThreeDRegister::programmed(raw, value, source)), ..self },
            MaxwellThreeDFixedFunctionWrite::BlendEnableCommon { value, .. } => MaxwellThreeDFixedFunctionState { blend_enable_common: MaxwellThreeDRegister::programmed(raw, value, source), ..self },
            MaxwellThreeDFixedFunctionWrite::BlendEnable { target, value, .. } => MaxwellThreeDFixedFunctionState { blend_enable: vstd::array::spec_array_update(self.blend_enable, target as int, MaxwellThreeDRegister::programmed(raw, value, source)), ..self },
            MaxwellThreeDFixedFunctionWrite::ColorMask { target, value, .. } => MaxwellThreeDFixedFunctionState { color_mask: vstd::array::spec_array_update(self.color_mask, target as int, MaxwellThreeDRegister::programmed(raw, value, source)), ..self },
            MaxwellThreeDFixedFunctionWrite::BlendState { target, field, value, .. } => MaxwellThreeDFixedFunctionState { per_target_blend: vstd::array::spec_array_update(self.per_target_blend, target as int, vstd::array::spec_array_update(self.per_target_blend[target as int], field as int, MaxwellThreeDRegister::programmed(raw, value, source))), ..self },
            MaxwellThreeDFixedFunctionWrite::BlendPerFormatEnable { value, .. } => MaxwellThreeDFixedFunctionState { blend_controls: MaxwellThreeDBlendControlState { per_format_enable: MaxwellThreeDRegister::programmed(raw, value, source), ..self.blend_controls }, ..self },
            MaxwellThreeDFixedFunctionWrite::BlendFloatPixelKillEnable { value, .. } => MaxwellThreeDFixedFunctionState { blend_controls: MaxwellThreeDBlendControlState { float_pixel_kill_enable: MaxwellThreeDRegister::programmed(raw, value, source), ..self.blend_controls }, ..self },
            MaxwellThreeDFixedFunctionWrite::BlendZeroTimesAnythingIsZero { value, .. } => MaxwellThreeDFixedFunctionState { blend_controls: MaxwellThreeDBlendControlState { zero_times_anything_is_zero: MaxwellThreeDRegister::programmed(raw, value, source), ..self.blend_controls }, ..self },
            MaxwellThreeDFixedFunctionWrite::IteratedBlend { value, .. } => MaxwellThreeDFixedFunctionState { blend_controls: MaxwellThreeDBlendControlState { iterated_blend: MaxwellThreeDRegister::programmed(raw, value, source), ..self.blend_controls }, ..self },
            MaxwellThreeDFixedFunctionWrite::IteratedBlendPassCount { value, .. } => MaxwellThreeDFixedFunctionState { blend_controls: MaxwellThreeDBlendControlState { iterated_blend_pass_count: MaxwellThreeDRegister::programmed(raw, value, source), ..self.blend_controls }, ..self },
        }
    }

    pub fn apply(&mut self, write: MaxwellThreeDFixedFunctionWrite)
        requires
            write.wf(),
        ensures
            *final(self) == old(self).written(write),
    {
        let source = write.source();
        let raw: u32 = source.argument();
        match write {
            MaxwellThreeDFixedFunctionWrite::SurfaceClip { vertical, value, .. } => {
                if vertical {
                    self.surface_clip_vertical = MaxwellThreeDRegister::programmed(raw, value, source);
                } else {
                    self.surface_clip_horizontal = MaxwellThreeDRegister::programmed(raw, value, source);
                }
            },
            MaxwellThreeDFixedFunctionWrite::ViewportFloat { viewport, field, value, .. } => {
                if field < 3 {
                    self.viewport[viewport as usize].scale[field as usize] = MaxwellThreeDRegister::programmed(raw, value, source);
                } else {
                    self.viewport[viewport as usize].offset[(field - 3) as usize] = MaxwellThreeDRegister::programmed(raw, value, source);
                }
            },
            MaxwellThreeDFixedFunctionWrite::ViewportRectangle { viewport, vertical, value, .. } => {
                if vertical {
                    self.viewport[viewport as usize].clip_vertical = MaxwellThreeDRegister::programmed(raw, value, source);
                } else {
                    self.viewport[viewport as usize].clip_horizontal = MaxwellThreeDRegister::programmed(raw, value, source);
                }
            },
            MaxwellThreeDFixedFunctionWrite::ViewportDepth { viewport, maximum, value, .. } => {
                if maximum {
                    self.viewport[viewport as usize].clip_max_z = MaxwellThreeDRegister::programmed(raw, value, source);
                } else {
                    self.viewport[viewport as usize].clip_min_z = MaxwellThreeDRegister::programmed(raw, value, source);
                }
            },
            MaxwellThreeDFixedFunctionWrite::ViewportCoordinateSwizzle { viewport, value, .. } => {
                self.viewport[viewport as usize].coordinate_swizzle = MaxwellThreeDRegister::programmed(raw, value, source);
            },
            MaxwellThreeDFixedFunctionWrite::ScissorEnable { scissor, value, .. } => {
                self.scissor[scissor as usize].enable = MaxwellThreeDRegister::programmed(raw, value, source);
            },
            MaxwellThreeDFixedFunctionWrite::ScissorRectangle { scissor, vertical, value, .. } => {
                if vertical {
                    self.scissor[scissor as usize].vertical = MaxwellThreeDRegister::programmed(raw, value, source);
                } else {
                    self.scissor[scissor as usize].horizontal = MaxwellThreeDRegister::programmed(raw, value, source);
                }
            },
            MaxwellThreeDFixedFunctionWrite::WindowClipRectangle { region, vertical, value, .. } => {
                if vertical {
                    self.window_clip[region as usize].vertical = MaxwellThreeDRegister::programmed(raw, value, source);
                } else {
                    self.window_clip[region as usize].horizontal = MaxwellThreeDRegister::programmed(raw, value, source);
                }
            },
            MaxwellThreeDFixedFunctionWrite::Register { register, value, .. } => {
                self.registers[register.index()] = MaxwellThreeDRegister::programmed(raw, value, source);
            },
            MaxwellThreeDFixedFunctionWrite::BlendEnableCommon { value, .. } => {
                self.blend_enable_common = MaxwellThreeDRegister::programmed(raw, value, source);
            },
            MaxwellThreeDFixedFunctionWrite::BlendEnable { target, value, .. } => {
                self.blend_enable[target as usize] = MaxwellThreeDRegister::programmed(raw, value, source);
            },
            MaxwellThreeDFixedFunctionWrite::ColorMask { target, value, .. } => {
                self.color_mask[target as usize] = MaxwellThreeDRegister::programmed(raw, value, source);
            },
            MaxwellThreeDFixedFunctionWrite::BlendState { target, field, value, .. } => {
                self.per_target_blend[target as usize][field as usize] = MaxwellThreeDRegister::programmed(raw, value, source);
            },
            MaxwellThreeDFixedFunctionWrite::BlendPerFormatEnable { value, .. } => {
                self.blend_controls.per_format_enable = MaxwellThreeDRegister::programmed(raw, value, source);
            },
            MaxwellThreeDFixedFunctionWrite::BlendFloatPixelKillEnable { value, .. } => {
                self.blend_controls.float_pixel_kill_enable = MaxwellThreeDRegister::programmed(raw, value, source);
            },
            MaxwellThreeDFixedFunctionWrite::BlendZeroTimesAnythingIsZero { value, .. } => {
                self.blend_controls.zero_times_anything_is_zero = MaxwellThreeDRegister::programmed(raw, value, source);
            },
            MaxwellThreeDFixedFunctionWrite::IteratedBlend { value, .. } => {
                self.blend_controls.iterated_blend = MaxwellThreeDRegister::programmed(raw, value, source);
            },
            MaxwellThreeDFixedFunctionWrite::IteratedBlendPassCount { value, .. } => {
                self.blend_controls.iterated_blend_pass_count = MaxwellThreeDRegister::programmed(raw, value, source);
            },
        }
    }
}

} // verus!
