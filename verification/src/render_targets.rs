//! Color and depth/stencil render targets and surface-clear registers.

use vstd::prelude::*;
use crate::register::{MaxwellMethodSource, MaxwellThreeDRawValue, MaxwellThreeDRectangle, MaxwellThreeDRegister};

verus! {

/// Color target format word.
#[derive(Clone, Copy, Debug, PartialEq, Eq, Hash, Structural)]
pub struct MaxwellThreeDColorTargetFormat(pub u32);

impl MaxwellThreeDColorTargetFormat {
    #[must_use]
    pub fn from_raw(raw: u32) -> (r: MaxwellThreeDColorTargetFormat)
        ensures
            r.0 == raw,
    {
        MaxwellThreeDColorTargetFormat(raw)
    }

    pub open spec fn spec_raw(self) -> u32 {
        self.0
    }

    #[must_use]
    #[verifier::when_used_as_spec(spec_raw)]
    pub fn raw(self) -> (r: u32)
        ensures
            r == self.0,
    {
        self.0
    }
}

/// Depth/stencil format word.
#[derive(Clone, Copy, Debug, PartialEq, Eq, Hash, Structural)]
pub struct MaxwellThreeDDepthStencilFormat(pub u32);

impl MaxwellThreeDDepthStencilFormat {
    #[must_use]
    pub fn from_raw(raw: u32) -> (r: MaxwellThreeDDepthStencilFormat)
        ensures
            r.0 == raw,
    {
        MaxwellThreeDDepthStencilFormat(raw)
    }

    pub open spec fn spec_raw(self) -> u32 {
        self.0
    }

    #[must_use]
    #[verifier::when_used_as_spec(spec_raw)]
    pub fn raw(self) -> (r: u32)
        ensures
            r == self.0,
    {
        self.0
    }
}

/// Arrangement of the texels of one target in memory.
#[derive(Clone, Copy, Debug, PartialEq, Eq, Hash, Structural)]
pub enum MaxwellThreeDImageLayout {
    PitchLinear,
    BlockLinear { block_height_log2: u8, block_depth_log2: u8 },
}

/// Meaning of the third dimension of one target.
#[derive(Clone, Copy, Debug, PartialEq, Eq, Hash, Structural)]
pub enum MaxwellThreeDImageKind {
    Array,
    ThreeDimensional,
}

/// Memory arrangement of one color target.
#[derive(Clone, Copy, Debug, PartialEq, Eq, Hash, Structural)]
pub struct MaxwellThreeDColorTargetMemory {
    pub layout: MaxwellThreeDImageLayout,
    pub kind: MaxwellThreeDImageKind,
}

/// Compression of one color target.
#[derive(Clone, Copy, Debug, PartialEq, Eq, Hash, Structural)]
pub enum MaxwellThreeDColorCompressionMode {
    Disabled,
    Enabled,
}

impl MaxwellThreeDColorCompressionMode {
    /// Field encoding of each value.
    pub open spec fn spec_raw(self) -> u32 {
        match self {
            MaxwellThreeDColorCompressionMode::Disabled => 0,
            MaxwellThreeDColorCompressionMode::Enabled => 1,
        }
    }

    /// Value of each defined encoding.
    pub open spec fn spec_parse(raw: u32) -> Option<MaxwellThreeDColorCompressionMode> {
        if raw == 0 {
            Some(MaxwellThreeDColorCompressionMode::Disabled)
        } else if raw == 1 {
            Some(MaxwellThreeDColorCompressionMode::Enabled)
        } else {
            None
        }
    }

    #[verifier::when_used_as_spec(spec_parse)]
    pub fn parse(raw: u32) -> (r: Option<MaxwellThreeDColorCompressionMode>)
        ensures
            r == MaxwellThreeDColorCompressionMode::spec_parse(raw),
    {
        match raw {
            0 => Some(MaxwellThreeDColorCompressionMode::Disabled),
            1 => Some(MaxwellThreeDColorCompressionMode::Enabled),
            _ => None,
        }
    }

    #[must_use]
    #[verifier::when_used_as_spec(spec_raw)]
    pub fn raw(self) -> (r: u32)
        ensures
            r == self.spec_raw(),
    {
        match self {
            MaxwellThreeDColorCompressionMode::Disabled => 0,
            MaxwellThreeDColorCompressionMode::Enabled => 1,
        }
    }

    /// Whether the feature is on.
    pub open spec fn spec_enabled(self) -> bool {
        matches!(self, MaxwellThreeDColorCompressionMode::Enabled)
    }

    #[must_use]
    #[verifier::when_used_as_spec(spec_enabled)]
    pub fn enabled(self) -> (r: bool)
        ensures
            r == self.spec_enabled(),
    {
        matches!(self, MaxwellThreeDColorCompressionMode::Enabled)
    }

    /// Decoding and encoding are inverse: a word decodes to a value exactly
    /// when it is the encoding of that value.
    pub proof fn law_codec(raw: u32, value: MaxwellThreeDColorCompressionMode)
        ensures
            MaxwellThreeDColorCompressionMode::spec_parse(raw) == Some(value) <==> value.spec_raw() == raw,
    {
    }
}

/// Compression of the depth/stencil target.
#[derive(Clone, Copy, Debug, PartialEq, Eq, Hash, Structural)]
pub enum MaxwellThreeDZCompressionMode {
    Disabled,
    Enabled,
}

impl MaxwellThreeDZCompressionMode {
    /// Field encoding of each value.
    pub open spec fn spec_raw(self) -> u32 {
        match self {
            MaxwellThreeDZCompressionMode::Disabled => 0,
            MaxwellThreeDZCompressionMode::Enabled => 1,
        }
    }

    /// Value of each defined encoding.
    pub open spec fn spec_parse(raw: u32) -> Option<MaxwellThreeDZCompressionMode> {
        if raw == 0 {
            Some(MaxwellThreeDZCompressionMode::Disabled)
        } else if raw == 1 {
            Some(MaxwellThreeDZCompressionMode::Enabled)
        } else {
            None
        }
    }

    #[verifier::when_used_as_spec(spec_parse)]
    pub fn parse(raw: u32) -> (r: Option<MaxwellThreeDZCompressionMode>)
        ensures
            r == MaxwellThreeDZCompressionMode::spec_parse(raw),
    {
        match raw {
            0 => Some(MaxwellThreeDZCompressionMode::Disabled),
            1 => Some(MaxwellThreeDZCompressionMode::Enabled),
            _ => None,
        }
    }

    #[must_use]
    #[verifier::when_used_as_spec(spec_raw)]
    pub fn raw(self) -> (r: u32)
        ensures
            r == self.spec_raw(),
    {
        match self {
            MaxwellThreeDZCompressionMode::Disabled => 0,
            MaxwellThreeDZCompressionMode::Enabled => 1,
        }
    }

    /// Whether the feature is on.
    pub open spec fn spec_enabled(self) -> bool {
        matches!(self, MaxwellThreeDZCompressionMode::Enabled)
    }

    #[must_use]
    #[verifier::when_used_as_spec(spec_enabled)]
    pub fn enabled(self) -> (r: bool)
        ensures
            r == self.spec_enabled(),
    {
        matches!(self, MaxwellThreeDZCompressionMode::Enabled)
    }

    /// Decoding and encoding are inverse: a word decodes to a value exactly
    /// when it is the encoding of that value.
    pub proof fn law_codec(raw: u32, value: MaxwellThreeDZCompressionMode)
        ensures
            MaxwellThreeDZCompressionMode::spec_parse(raw) == Some(value) <==> value.spec_raw() == raw,
    {
    }
}

/// Whether the single depth/stencil target is selected.
#[derive(Clone, Copy, Debug, PartialEq, Eq, Hash, Structural)]
pub enum MaxwellThreeDDepthTargetCount {
    Disabled,
    Enabled,
}

impl MaxwellThreeDDepthTargetCount {
    /// Field encoding of each value.
    pub open spec fn spec_raw(self) -> u32 {
        match self {
            MaxwellThreeDDepthTargetCount::Disabled => 0,
            MaxwellThreeDDepthTargetCount::Enabled => 1,
        }
    }

    /// Value of each defined encoding.
    pub open spec fn spec_parse(raw: u32) -> Option<MaxwellThreeDDepthTargetCount> {
        if raw == 0 {
            Some(MaxwellThreeDDepthTargetCount::Disabled)
        } else if raw == 1 {
            Some(MaxwellThreeDDepthTargetCount::Enabled)
        } else {
            None
        }
    }

    #[verifier::when_used_as_spec(spec_parse)]
    pub fn parse(raw: u32) -> (r: Option<MaxwellThreeDDepthTargetCount>)
        ensures
            r == MaxwellThreeDDepthTargetCount::spec_parse(raw),
    {
        match raw {
            0 => Some(MaxwellThreeDDepthTargetCount::Disabled),
            1 => Some(MaxwellThreeDDepthTargetCount::Enabled),
            _ => None,
        }
    }

    #[must_use]
    #[verifier::when_used_as_spec(spec_raw)]
    pub fn raw(self) -> (r: u32)
        ensures
            r == self.spec_raw(),
    {
        match self {
            MaxwellThreeDDepthTargetCount::Disabled => 0,
            MaxwellThreeDDepthTargetCount::Enabled => 1,
        }
    }

    /// Whether the feature is on.
    pub open spec fn spec_enabled(self) -> bool {
        matches!(self, MaxwellThreeDDepthTargetCount::Enabled)
    }

    #[must_use]
    #[verifier::when_used_as_spec(spec_enabled)]
    pub fn enabled(self) -> (r: bool)
        ensures
            r == self.spec_enabled(),
    {
        matches!(self, MaxwellThreeDDepthTargetCount::Enabled)
    }

    /// Decoding and encoding are inverse: a word decodes to a value exactly
    /// when it is the encoding of that value.
    pub proof fn law_codec(raw: u32, value: MaxwellThreeDDepthTargetCount)
        ensures
            MaxwellThreeDDepthTargetCount::spec_parse(raw) == Some(value) <==> value.spec_raw() == raw,
    {
    }
}

/// Whether each color target has fragment data of its own.
#[derive(Clone, Copy, Debug, PartialEq, Eq, Hash, Structural)]
pub enum MaxwellThreeDSeparateFragmentData {
    Disabled,
    Enabled,
}

impl MaxwellThreeDSeparateFragmentData {
    /// Field encoding of each value.
    pub open spec fn spec_raw(self) -> u32 {
        match self {
            MaxwellThreeDSeparateFragmentData::Disabled => 0,
            MaxwellThreeDSeparateFragmentData::Enabled => 1,
        }
    }

    /// Value of each defined encoding.
    pub open spec fn spec_parse(raw: u32) -> Option<MaxwellThreeDSeparateFragmentData> {
        if raw == 0 {
            Some(MaxwellThreeDSeparateFragmentData::Disabled)
        } else if raw == 1 {
            Some(MaxwellThreeDSeparateFragmentData::Enabled)
        } else {
            None
        }
    }

    #[verifier::when_used_as_spec(spec_parse)]
    pub fn parse(raw: u32) -> (r: Option<MaxwellThreeDSeparateFragmentData>)
        ensures
            r == MaxwellThreeDSeparateFragmentData::spec_parse(raw),
    {
        match raw {
            0 => Some(MaxwellThreeDSeparateFragmentData::Disabled),
            1 => Some(MaxwellThreeDSeparateFragmentData::Enabled),
            _ => None,
        }
    }

    #[must_use]
    #[verifier::when_used_as_spec(spec_raw)]
    pub fn raw(self) -> (r: u32)
        ensures
            r == self.spec_raw(),
    {
        match self {
            MaxwellThreeDSeparateFragmentData::Disabled => 0,
            MaxwellThreeDSeparateFragmentData::Enabled => 1,
        }
    }

    /// Whether the feature is on.
    pub open spec fn spec_enabled(self) -> bool {
        matches!(self, MaxwellThreeDSeparateFragmentData::Enabled)
    }

    #[must_use]
    #[verifier::when_used_as_spec(spec_enabled)]
    pub fn enabled(self) -> (r: bool)
        ensures
            r == self.spec_enabled(),
    {
        matches!(self, MaxwellThreeDSeparateFragmentData::Enabled)
    }

    /// Decoding and encoding are inverse: a word decodes to a value exactly
    /// when it is the encoding of that value.
    pub proof fn law_codec(raw: u32, value: MaxwellThreeDSeparateFragmentData)
        ensures
            MaxwellThreeDSeparateFragmentData::spec_parse(raw) == Some(value) <==> value.spec_raw() == raw,
    {
    }
}

/// Whether the shader selects targets relative to the layer.
#[derive(Clone, Copy, Debug, PartialEq, Eq, Hash, Structural)]
pub enum MaxwellThreeDRenderTargetIndexOffset {
    Disabled,
    Enabled,
}

impl MaxwellThreeDRenderTargetIndexOffset {
    /// Field encoding of each value.
    pub open spec fn spec_raw(self) -> u32 {
        match self {
            MaxwellThreeDRenderTargetIndexOffset::Disabled => 0,
            MaxwellThreeDRenderTargetIndexOffset::Enabled => 1,
        }
    }

    /// Value of each defined encoding.
    pub open spec fn spec_parse(raw: u32) -> Option<MaxwellThreeDRenderTargetIndexOffset> {
        if raw == 0 {
            Some(MaxwellThreeDRenderTargetIndexOffset::Disabled)
        } else if raw == 1 {
            Some(MaxwellThreeDRenderTargetIndexOffset::Enabled)
        } else {
            None
        }
    }

    #[verifier::when_used_as_spec(spec_parse)]
    pub fn parse(raw: u32) -> (r: Option<MaxwellThreeDRenderTargetIndexOffset>)
        ensures
            r == MaxwellThreeDRenderTargetIndexOffset::spec_parse(raw),
    {
        match raw {
            0 => Some(MaxwellThreeDRenderTargetIndexOffset::Disabled),
            1 => Some(MaxwellThreeDRenderTargetIndexOffset::Enabled),
            _ => None,
        }
    }

    #[must_use]
    #[verifier::when_used_as_spec(spec_raw)]
    pub fn raw(self) -> (r: u32)
        ensures
            r == self.spec_raw(),
    {
        match self {
            MaxwellThreeDRenderTargetIndexOffset::Disabled => 0,
            MaxwellThreeDRenderTargetIndexOffset::Enabled => 1,
        }
    }

    /// Whether the feature is on.
    pub open spec fn spec_enabled(self) -> bool {
        matches!(self, MaxwellThreeDRenderTargetIndexOffset::Enabled)
    }

    #[must_use]
    #[verifier::when_used_as_spec(spec_enabled)]
    pub fn enabled(self) -> (r: bool)
        ensures
            r == self.spec_enabled(),
    {
        matches!(self, MaxwellThreeDRenderTargetIndexOffset::Enabled)
    }

    /// Decoding and encoding are inverse: a word decodes to a value exactly
    /// when it is the encoding of that value.
    pub proof fn law_codec(raw: u32, value: MaxwellThreeDRenderTargetIndexOffset)
        ensures
            MaxwellThreeDRenderTargetIndexOffset::spec_parse(raw) == Some(value) <==> value.spec_raw() == raw,
    {
    }
}

/// Number of active color targets and the target of each shader output.
#[derive(Clone, Copy, Debug, PartialEq, Eq, Hash, Structural)]
pub struct MaxwellThreeDColorTargetSelection(pub u32);

impl MaxwellThreeDColorTargetSelection {
    #[must_use]
    pub fn from_raw(raw: u32) -> (r: MaxwellThreeDColorTargetSelection)
        ensures
            r.0 == raw,
    {
        MaxwellThreeDColorTargetSelection(raw)
    }

    pub open spec fn spec_raw(self) -> u32 {
        self.0
    }

    #[must_use]
    #[verifier::when_used_as_spec(spec_raw)]
    pub fn raw(self) -> (r: u32)
        ensures
            r == self.0,
    {
        self.0
    }

    /// Number of active outputs.
    pub open spec fn spec_target_count(self) -> u8 {
        (self.0 & 0xf) as u8
    }

    #[must_use]
    #[verifier::when_used_as_spec(spec_target_count)]
    pub fn target_count(self) -> (r: u8)
        ensures
            r == self.spec_target_count(),
    {
        (self.0 & 0xf) as u8
    }

    /// Target of one output; outputs take three bits each, from bit four on.
    pub open spec fn spec_target(self, output: u8) -> u8 {
        ((self.0 >> ((4 + 3 * output) as u32)) & 7) as u8
    }

    #[must_use]
    #[verifier::when_used_as_spec(spec_target)]
    pub fn target(self, output: u8) -> (r: u8)
        requires
            output < 8,
        ensures
            r == self.spec_target(output),
            r < 8,
    {
        let shift: u32 = 4 + 3 * output as u32;
        let word: u32 = self.0;
        assert((word >> shift) & 7 < 8) by (bit_vector);
        ((word >> shift) & 7) as u8
    }
}

/// Compression threshold word.
#[derive(Clone, Copy, Debug, PartialEq, Eq, Hash, Structural)]
pub struct MaxwellThreeDCompressionThreshold(pub u32);

impl MaxwellThreeDCompressionThreshold {
    #[must_use]
    pub fn from_raw(raw: u32) -> (r: MaxwellThreeDCompressionThreshold)
        ensures
            r.0 == raw,
    {
        MaxwellThreeDCompressionThreshold(raw)
    }

    pub open spec fn spec_raw(self) -> u32 {
        self.0
    }

    #[must_use]
    #[verifier::when_used_as_spec(spec_raw)]
    pub fn raw(self) -> (r: u32)
        ensures
            r == self.0,
    {
        self.0
    }
}

/// Layer selection of layered rendering.
#[derive(Clone, Copy, Debug, PartialEq, Eq, Hash, Structural)]
pub struct MaxwellThreeDRenderTargetLayer(pub u32);

impl MaxwellThreeDRenderTargetLayer {
    #[must_use]
    pub fn from_raw(raw: u32) -> (r: MaxwellThreeDRenderTargetLayer)
        ensures
            r.0 == raw,
    {
        MaxwellThreeDRenderTargetLayer(raw)
    }

    pub open spec fn spec_raw(self) -> u32 {
        self.0
    }

    #[must_use]
    #[verifier::when_used_as_spec(spec_raw)]
    pub fn raw(self) -> (r: u32)
        ensures
            r == self.0,
    {
        self.0
    }

    /// Selected layer.
    pub open spec fn spec_layer(self) -> u16 {
        (self.0 & 0xffff) as u16
    }

    #[must_use]
    #[verifier::when_used_as_spec(spec_layer)]
    pub fn layer(self) -> (r: u16)
        ensures
            r == self.spec_layer(),
    {
        (self.0 & 0xffff) as u16
    }
}

/// Regions and masks that a surface clear respects.
#[derive(Clone, Copy, Debug, PartialEq, Eq, Hash, Structural)]
pub struct MaxwellThreeDClearSurfaceControl(pub u32);

impl MaxwellThreeDClearSurfaceControl {
    #[must_use]
    pub fn from_raw(raw: u32) -> (r: MaxwellThreeDClearSurfaceControl)
        ensures
            r.0 == raw,
    {
        MaxwellThreeDClearSurfaceControl(raw)
    }

    pub open spec fn spec_raw(self) -> u32 {
        self.0
    }

    #[must_use]
    #[verifier::when_used_as_spec(spec_raw)]
    pub fn raw(self) -> (r: u32)
        ensures
            r == self.0,
    {
        self.0
    }

    /// Whether the stencil write mask applies.
    pub open spec fn spec_respect_stencil_mask(self) -> bool {
        self.0 & 1 != 0
    }

    #[must_use]
    #[verifier::when_used_as_spec(spec_respect_stencil_mask)]
    pub fn respect_stencil_mask(self) -> (r: bool)
        ensures
            r == self.spec_respect_stencil_mask(),
    {
        self.0 & 1 != 0
    }

    /// Whether the clear rectangle bounds the clear.
    pub open spec fn spec_use_clear_rect(self) -> bool {
        self.0 & 0x10 != 0
    }

    #[must_use]
    #[verifier::when_used_as_spec(spec_use_clear_rect)]
    pub fn use_clear_rect(self) -> (r: bool)
        ensures
            r == self.spec_use_clear_rect(),
    {
        self.0 & 0x10 != 0
    }

    /// Whether the first scissor bounds the clear.
    pub open spec fn spec_use_scissor_zero(self) -> bool {
        self.0 & 0x100 != 0
    }

    #[must_use]
    #[verifier::when_used_as_spec(spec_use_scissor_zero)]
    pub fn use_scissor_zero(self) -> (r: bool)
        ensures
            r == self.spec_use_scissor_zero(),
    {
        self.0 & 0x100 != 0
    }

    /// Whether the first viewport clip bounds the clear.
    pub open spec fn spec_use_viewport_clip_zero(self) -> bool {
        self.0 & 0x1000 != 0
    }

    #[must_use]
    #[verifier::when_used_as_spec(spec_use_viewport_clip_zero)]
    pub fn use_viewport_clip_zero(self) -> (r: bool)
        ensures
            r == self.spec_use_viewport_clip_zero(),
    {
        self.0 & 0x1000 != 0
    }
}

/// Planes, target and layer of one surface clear.
#[derive(Clone, Copy, Debug, PartialEq, Eq, Hash, Structural)]
pub struct MaxwellThreeDClearSurface(pub u32);

impl MaxwellThreeDClearSurface {
    #[must_use]
    pub fn from_raw(raw: u32) -> (r: MaxwellThreeDClearSurface)
        ensures
            r.0 == raw,
    {
        MaxwellThreeDClearSurface(raw)
    }

    pub open spec fn spec_raw(self) -> u32 {
        self.0
    }

    #[must_use]
    #[verifier::when_used_as_spec(spec_raw)]
    pub fn raw(self) -> (r: u32)
        ensures
            r == self.0,
    {
        self.0
    }

    /// Whether depth is cleared.
    pub open spec fn spec_depth(self) -> bool {
        self.0 & 1 != 0
    }

    #[must_use]
    #[verifier::when_used_as_spec(spec_depth)]
    pub fn depth(self) -> (r: bool)
        ensures
            r == self.spec_depth(),
    {
        self.0 & 1 != 0
    }

    /// Whether stencil is cleared.
    pub open spec fn spec_stencil(self) -> bool {
        self.0 & 2 != 0
    }

    #[must_use]
    #[verifier::when_used_as_spec(spec_stencil)]
    pub fn stencil(self) -> (r: bool)
        ensures
            r == self.spec_stencil(),
    {
        self.0 & 2 != 0
    }

    /// Cleared color components: red is bit zero, alpha bit three.
    pub open spec fn spec_color_mask(self) -> u8 {
        ((self.0 >> 2) & 0xf) as u8
    }

    #[must_use]
    #[verifier::when_used_as_spec(spec_color_mask)]
    pub fn color_mask(self) -> (r: u8)
        ensures
            r == self.spec_color_mask(),
    {
        ((self.0 >> 2) & 0xf) as u8
    }

    /// Cleared color target.
    pub open spec fn spec_color_target(self) -> u8 {
        ((self.0 >> 6) & 0xf) as u8
    }

    #[must_use]
    #[verifier::when_used_as_spec(spec_color_target)]
    pub fn color_target(self) -> (r: u8)
        ensures
            r == self.spec_color_target(),
    {
        ((self.0 >> 6) & 0xf) as u8
    }

    /// Cleared array layer.
    pub open spec fn spec_array_layer(self) -> u16 {
        ((self.0 >> 10) & 0xffff) as u16
    }

    #[must_use]
    #[verifier::when_used_as_spec(spec_array_layer)]
    pub fn array_layer(self) -> (r: u16)
        ensures
            r == self.spec_array_layer(),
    {
        ((self.0 >> 10) & 0xffff) as u16
    }
}

/// Third dimension of the depth/stencil target and its meaning.
#[derive(Clone, Copy, Debug, PartialEq, Eq, Hash, Structural)]
pub struct MaxwellThreeDDepthThirdDimension {
    pub size: u16,
    pub kind: MaxwellThreeDImageKind,
}

/// One validated render-target transition.
#[derive(Clone, Copy, Debug, PartialEq, Eq, Hash, Structural)]
#[allow(inconsistent_fields)]
pub enum MaxwellThreeDRenderTargetWrite {
    ColorAddressUpper { target: u8, value: u8, source: MaxwellMethodSource },
    ColorAddressLower { target: u8, value: u32, source: MaxwellMethodSource },
    ColorWidth { target: u8, value: u32, source: MaxwellMethodSource },
    ColorHeight { target: u8, value: u32, source: MaxwellMethodSource },
    ColorFormat { target: u8, value: MaxwellThreeDColorTargetFormat, source: MaxwellMethodSource },
    ColorLayout { target: u8, value: MaxwellThreeDColorTargetMemory, source: MaxwellMethodSource },
    ColorThirdDimension { target: u8, value: u32, source: MaxwellMethodSource },
    ColorArrayPitch { target: u8, value: u32, source: MaxwellMethodSource },
    ColorLayer { target: u8, value: u16, source: MaxwellMethodSource },
    ColorCompression { target: u8, value: MaxwellThreeDColorCompressionMode, source: MaxwellMethodSource },
    ClearHorizontal { value: MaxwellThreeDRectangle, source: MaxwellMethodSource },
    ClearVertical { value: MaxwellThreeDRectangle, source: MaxwellMethodSource },
    ClearColor { component: u8, value: MaxwellThreeDRawValue, source: MaxwellMethodSource },
    ClearDepth { value: MaxwellThreeDRawValue, source: MaxwellMethodSource },
    ClearStencil { value: u8, source: MaxwellMethodSource },
    SeparateFragmentData { value: MaxwellThreeDSeparateFragmentData, source: MaxwellMethodSource },
    RenderTargetIndexOffset { value: MaxwellThreeDRenderTargetIndexOffset, source: MaxwellMethodSource },
    DepthAddressUpper { value: u8, source: MaxwellMethodSource },
    DepthAddressLower { value: u32, source: MaxwellMethodSource },
    DepthFormat { value: MaxwellThreeDDepthStencilFormat, source: MaxwellMethodSource },
    DepthLayout { value: MaxwellThreeDImageLayout, source: MaxwellMethodSource },
    DepthArrayPitch { value: u32, source: MaxwellMethodSource },
    DepthLayer { value: u16, source: MaxwellMethodSource },
    DepthWidth { value: u32, source: MaxwellMethodSource },
    DepthHeight { value: u32, source: MaxwellMethodSource },
    DepthThirdDimension { value: MaxwellThreeDDepthThirdDimension, source: MaxwellMethodSource },
    DepthTargetCount { value: MaxwellThreeDDepthTargetCount, source: MaxwellMethodSource },
    DepthCompression { value: MaxwellThreeDZCompressionMode, source: MaxwellMethodSource },
    ColorTargetSelection { value: MaxwellThreeDColorTargetSelection, source: MaxwellMethodSource },
    CompressionThreshold { value: MaxwellThreeDCompressionThreshold, source: MaxwellMethodSource },
    RenderTargetLayer { value: MaxwellThreeDRenderTargetLayer, source: MaxwellMethodSource },
    ClearSurfaceControl { value: MaxwellThreeDClearSurfaceControl, source: MaxwellMethodSource },
    ClearSurface { value: MaxwellThreeDClearSurface, source: MaxwellMethodSource },
}

impl MaxwellThreeDRenderTargetWrite {
    /// Array indices are in range.
    pub open spec fn wf(self) -> bool {
        match self {
            MaxwellThreeDRenderTargetWrite::ColorAddressUpper { target, .. } => target < 8,
            MaxwellThreeDRenderTargetWrite::ColorAddressLower { target, .. } => target < 8,
            MaxwellThreeDRenderTargetWrite::ColorWidth { target, .. } => target < 8,
            MaxwellThreeDRenderTargetWrite::ColorHeight { target, .. } => target < 8,
            MaxwellThreeDRenderTargetWrite::ColorFormat { target, .. } => target < 8,
            MaxwellThreeDRenderTargetWrite::ColorLayout { target, .. } => target < 8,
            MaxwellThreeDRenderTargetWrite::ColorThirdDimension { target, .. } => target < 8,
            MaxwellThreeDRenderTargetWrite::ColorArrayPitch { target, .. } => target < 8,
            MaxwellThreeDRenderTargetWrite::ColorLayer { target, .. } => target < 8,
            MaxwellThreeDRenderTargetWrite::ColorCompression { target, .. } => target < 8,
            MaxwellThreeDRenderTargetWrite::ClearColor { component, .. } => component < 4,
            _ => true,
        }
    }
}

/// Color and depth/stencil targets and surface-clear registers.
#[derive(Clone, Copy, Debug, PartialEq, Eq)]
pub struct MaxwellThreeDRenderTargetState {
    pub color_address_upper: [MaxwellThreeDRegister<u8>; 8],
    pub color_address_lower: [MaxwellThreeDRegister<u32>; 8],
    pub color_widths: [MaxwellThreeDRegister<u32>; 8],
    pub color_heights: [MaxwellThreeDRegister<u32>; 8],
    pub color_formats: [MaxwellThreeDRegister<MaxwellThreeDColorTargetFormat>; 8],
    pub color_layouts: [MaxwellThreeDRegister<MaxwellThreeDColorTargetMemory>; 8],
    pub color_third_dimensions: [MaxwellThreeDRegister<u32>; 8],
    pub color_array_pitches: [MaxwellThreeDRegister<u32>; 8],
    pub color_layers: [MaxwellThreeDRegister<u16>; 8],
    pub color_compression: [MaxwellThreeDRegister<MaxwellThreeDColorCompressionMode>; 8],
    pub clear_horizontal: MaxwellThreeDRegister<MaxwellThreeDRectangle>,
    pub clear_vertical: MaxwellThreeDRegister<MaxwellThreeDRectangle>,
    pub clear_color: [MaxwellThreeDRegister<MaxwellThreeDRawValue>; 4],
    pub clear_depth: MaxwellThreeDRegister<MaxwellThreeDRawValue>,
    pub clear_stencil: MaxwellThreeDRegister<u8>,
    pub separate_fragment_data: MaxwellThreeDRegister<MaxwellThreeDSeparateFragmentData>,
    pub render_target_index_offset: MaxwellThreeDRegister<MaxwellThreeDRenderTargetIndexOffset>,
    pub depth_address_upper: MaxwellThreeDRegister<u8>,
    pub depth_address_lower: MaxwellThreeDRegister<u32>,
    pub depth_format: MaxwellThreeDRegister<MaxwellThreeDDepthStencilFormat>,
    pub depth_layout: MaxwellThreeDRegister<MaxwellThreeDImageLayout>,
    pub depth_array_pitch: MaxwellThreeDRegister<u32>,
    pub depth_layer: MaxwellThreeDRegister<u16>,
    pub depth_width: MaxwellThreeDRegister<u32>,
    pub depth_height: MaxwellThreeDRegister<u32>,
    pub depth_third_dimension: MaxwellThreeDRegister<MaxwellThreeDDepthThirdDimension>,
    pub depth_target_count: MaxwellThreeDRegister<MaxwellThreeDDepthTargetCount>,
    pub depth_compression: MaxwellThreeDRegister<MaxwellThreeDZCompressionMode>,
    pub color_target_selection: MaxwellThreeDRegister<MaxwellThreeDColorTargetSelection>,
    pub compression_threshold: MaxwellThreeDRegister<MaxwellThreeDCompressionThreshold>,
    pub render_target_layer: MaxwellThreeDRegister<MaxwellThreeDRenderTargetLayer>,
    pub clear_surface_control: MaxwellThreeDRegister<MaxwellThreeDClearSurfaceControl>,
    pub clear_surface: MaxwellThreeDRegister<MaxwellThreeDClearSurface>,
}

impl MaxwellThreeDRenderTargetState {
    /// State before any method is decoded.
    pub open spec fn initial(self) -> bool {
        &&& forall|i: int| 0 <= i < 8 ==> self.color_address_upper[i] == MaxwellThreeDRegister::<u8>::unset()
        &&& forall|i: int| 0 <= i < 8 ==> self.color_address_lower[i] == MaxwellThreeDRegister::<u32>::unset()
        &&& forall|i: int| 0 <= i < 8 ==> self.color_widths[i] == MaxwellThreeDRegister::<u32>::unset()
        &&& forall|i: int| 0 <= i < 8 ==> self.color_heights[i] == MaxwellThreeDRegister::<u32>::unset()
        &&& forall|i: int| 0 <= i < 8 ==> self.color_formats[i] == MaxwellThreeDRegister::<MaxwellThreeDColorTargetFormat>::unset()
        &&& forall|i: int| 0 <= i < 8 ==> self.color_layouts[i] == MaxwellThreeDRegister::<MaxwellThreeDColorTargetMemory>::unset()
        &&& forall|i: int| 0 <= i < 8 ==> self.color_third_dimensions[i] == MaxwellThreeDRegister::<u32>::unset()
        &&& forall|i: int| 0 <= i < 8 ==> self.color_array_pitches[i] == MaxwellThreeDRegister::<u32>::unset()
        &&& forall|i: int| 0 <= i < 8 ==> self.color_layers[i] == MaxwellThreeDRegister::<u16>::unset()
        &&& forall|i: int| 0 <= i < 8 ==> self.color_compression[i] == MaxwellThreeDRegister::<MaxwellThreeDColorCompressionMode>::unset()
        &&& self.clear_horizontal == MaxwellThreeDRegister::<MaxwellThreeDRectangle>::unset()
        &&& self.clear_vertical == MaxwellThreeDRegister::<MaxwellThreeDRectangle>::unset()
        &&& forall|i: int| 0 <= i < 4 ==> self.clear_color[i] == MaxwellThreeDRegister::<MaxwellThreeDRawValue>::unset()
        &&& self.clear_depth == MaxwellThreeDRegister::<MaxwellThreeDRawValue>::unset()
        &&& self.clear_stencil == MaxwellThreeDRegister::<u8>::unset()
        &&& self.separate_fragment_data == MaxwellThreeDRegister::<MaxwellThreeDSeparateFragmentData>::unset()
        &&& self.render_target_index_offset == MaxwellThreeDRegister::<MaxwellThreeDRenderTargetIndexOffset>::unset()
        &&& self.depth_address_upper == MaxwellThreeDRegister::<u8>::unset()
        &&& self.depth_address_lower == MaxwellThreeDRegister::<u32>::unset()
        &&& self.depth_format == MaxwellThreeDRegister::<MaxwellThreeDDepthStencilFormat>::unset()
        &&& self.depth_layout == MaxwellThreeDRegister::<MaxwellThreeDImageLayout>::unset()
        &&& self.depth_array_pitch == MaxwellThreeDRegister::<u32>::unset()
        &&& self.depth_layer == MaxwellThreeDRegister::<u16>::unset()
        &&& self.depth_width == MaxwellThreeDRegister::<u32>::unset()
        &&& self.depth_height == MaxwellThreeDRegister::<u32>::unset()
        &&& self.depth_third_dimension == MaxwellThreeDRegister::<MaxwellThreeDDepthThirdDimension>::unset()
        &&& self.depth_target_count == MaxwellThreeDRegister::<MaxwellThreeDDepthTargetCount>::unset()
        &&& self.depth_compression == MaxwellThreeDRegister::<MaxwellThreeDZCompressionMode>::unset()
        &&& self.color_target_selection == MaxwellThreeDRegister::<MaxwellThreeDColorTargetSelection>::unset()
        &&& self.compression_threshold == MaxwellThreeDRegister::<MaxwellThreeDCompressionThreshold>::unset()
        &&& self.render_target_layer == MaxwellThreeDRegister::<MaxwellThreeDRenderTargetLayer>::unset()
        &&& self.clear_surface_control == MaxwellThreeDRegister::<MaxwellThreeDClearSurfaceControl>::unset()
        &&& self.clear_surface == MaxwellThreeDRegister::<MaxwellThreeDClearSurface>::unset()
    }

    /// State after one transition: the addressed register holds the written word,
    /// its value and its source, and every other register is unchanged.
    pub open spec fn written(self, write: MaxwellThreeDRenderTargetWrite) -> MaxwellThreeDRenderTargetState {
        match write {
            MaxwellThreeDRenderTargetWrite::ColorAddressUpper { target, value, source } => MaxwellThreeDRenderTargetState {
                color_address_upper: vstd::array::spec_array_update(
                    self.color_address_upper,
                    target as int,
                    MaxwellThreeDRegister::programmed(source.argument(), value, source),
                ),
                ..self
            },
            MaxwellThreeDRenderTargetWrite::ColorAddressLower { target, value, source } => MaxwellThreeDRenderTargetState {
                color_address_lower: vstd::array::spec_array_update(
                    self.color_address_lower,
                    target as int,
                    MaxwellThreeDRegister::programmed(source.argument(), value, source),
                ),
                ..self
            },
            MaxwellThreeDRenderTargetWrite::ColorWidth { target, value, source } => MaxwellThreeDRenderTargetState {
                color_widths: vstd::array::spec_array_update(
                    self.color_widths,
                    target as int,
                    MaxwellThreeDRegister::programmed(source.argument(), value, source),
                ),
                ..self
            },
            MaxwellThreeDRenderTargetWrite::ColorHeight { target, value, source } => MaxwellThreeDRenderTargetState {
                color_heights: vstd::array::spec_array_update(
                    self.color_heights,
                    target as int,
                    MaxwellThreeDRegister::programmed(source.argument(), value, source),
                ),
                ..self
            },
            MaxwellThreeDRenderTargetWrite::ColorFormat { target, value, source } => MaxwellThreeDRenderTargetState {
                color_formats: vstd::array::spec_array_update(
                    self.color_formats,
                    target as int,
                    MaxwellThreeDRegister::programmed(source.argument(), value, source),
                ),
                ..self
            },
            MaxwellThreeDRenderTargetWrite::ColorLayout { target, value, source } => MaxwellThreeDRenderTargetState {
                color_layouts: vstd::array::spec_array_update(
                    self.color_layouts,
                    target as int,
                    MaxwellThreeDRegister::programmed(source.argument(), value, source),
                ),
                ..self
            },
            MaxwellThreeDRenderTargetWrite::ColorThirdDimension { target, value, source } => MaxwellThreeDRenderTargetState {
                color_third_dimensions: vstd::array::spec_array_update(
                    self.color_third_dimensions,
                    target as int,
                    MaxwellThreeDRegister::programmed(source.argument(), value, source),
                ),
                ..self
            },
            MaxwellThreeDRenderTargetWrite::ColorArrayPitch { target, value, source } => MaxwellThreeDRenderTargetState {
                color_array_pitches: vstd::array::spec_array_update(
                    self.color_array_pitches,
                    target as int,
                    MaxwellThreeDRegister::programmed(source.argument(), value, source),
                ),
                ..self
            },
            MaxwellThreeDRenderTargetWrite::ColorLayer { target, value, source } => MaxwellThreeDRenderTargetState {
                color_layers: vstd::array::spec_array_update(
                    self.color_layers,
                    target as int,
                    MaxwellThreeDRegister::programmed(source.argument(), value, source),
                ),
                ..self
            },
            MaxwellThreeDRenderTargetWrite::ColorCompression { target, value, source } => MaxwellThreeDRenderTargetState {
                color_compression: vstd::array::spec_array_update(
                    self.color_compression,
                    target as int,
                    MaxwellThreeDRegister::programmed(source.argument(), value, source),
                ),
                ..self
            },
            MaxwellThreeDRenderTargetWrite::ClearHorizontal { value, source } => MaxwellThreeDRenderTargetState {
                clear_horizontal: MaxwellThreeDRegister::programmed(source.argument(), value, source),
                ..self
            },
            MaxwellThreeDRenderTargetWrite::ClearVertical { value, source } => MaxwellThreeDRenderTargetState {
                clear_vertical: MaxwellThreeDRegister::programmed(source.argument(), value, source),
                ..self
            },
            MaxwellThreeDRenderTargetWrite::ClearColor { component, value, source } => MaxwellThreeDRenderTargetState {
                clear_color: vstd::array::spec_array_update(
                    self.clear_color,
                    component as int,
                    MaxwellThreeDRegister::programmed(source.argument(), value, source),
                ),
                ..self
            },
            MaxwellThreeDRenderTargetWrite::ClearDepth { value, source } => MaxwellThreeDRenderTargetState {
                clear_depth: MaxwellThreeDRegister::programmed(source.argument(), value, source),
                ..self
            },
            MaxwellThreeDRenderTargetWrite::ClearStencil { value, source } => MaxwellThreeDRenderTargetState {
                clear_stencil: MaxwellThreeDRegister::programmed(source.argument(), value, source),
                ..self
            },
            MaxwellThreeDRenderTargetWrite::SeparateFragmentData { value, source } => MaxwellThreeDRenderTargetState {
                separate_fragment_data: MaxwellThreeDRegister::programmed(source.argument(), value, source),
                ..self
            },
            MaxwellThreeDRenderTargetWrite::RenderTargetIndexOffset { value, source } => MaxwellThreeDRenderTargetState {
                render_target_index_offset: MaxwellThreeDRegister::programmed(source.argument(), value, source),
                ..self
            },
            MaxwellThreeDRenderTargetWrite::DepthAddressUpper { value, source } => MaxwellThreeDRenderTargetState {
                depth_address_upper: MaxwellThreeDRegister::programmed(source.argument(), value, source),
                ..self
            },
            MaxwellThreeDRenderTargetWrite::DepthAddressLower { value, source } => MaxwellThreeDRenderTargetState {
                depth_address_lower: MaxwellThreeDRegister::programmed(source.argument(), value, source),
                ..self
            },
            MaxwellThreeDRenderTargetWrite::DepthFormat { value, source } => MaxwellThreeDRenderTargetState {
                depth_format: MaxwellThreeDRegister::programmed(source.argument(), value, source),
                ..self
            },
            MaxwellThreeDRenderTargetWrite::DepthLayout { value, source } => MaxwellThreeDRenderTargetState {
                depth_layout: MaxwellThreeDRegister::programmed(source.argument(), value, source),
                ..self
            },
            MaxwellThreeDRenderTargetWrite::DepthArrayPitch { value, source } => MaxwellThreeDRenderTargetState {
                depth_array_pitch: MaxwellThreeDRegister::programmed(source.argument(), value, source),
                ..self
            },
            MaxwellThreeDRenderTargetWrite::DepthLayer { value, source } => MaxwellThreeDRenderTargetState {
                depth_layer: MaxwellThreeDRegister::programmed(source.argument(), value, source),
                ..self
            },
            MaxwellThreeDRenderTargetWrite::DepthWidth { value, source } => MaxwellThreeDRenderTargetState {
                depth_width: MaxwellThreeDRegister::programmed(source.argument(), value, source),
                ..self
            },
            MaxwellThreeDRenderTargetWrite::DepthHeight { value, source } => MaxwellThreeDRenderTargetState {
                depth_height: MaxwellThreeDRegister::programmed(source.argument(), value, source),
                ..self
            },
            MaxwellThreeDRenderTargetWrite::DepthThirdDimension { value, source } => MaxwellThreeDRenderTargetState {
                depth_third_dimension: MaxwellThreeDRegister::programmed(source.argument(), value, source),
                ..self
            },
            MaxwellThreeDRenderTargetWrite::DepthTargetCount { value, source } => MaxwellThreeDRenderTargetState {
                depth_target_count: MaxwellThreeDRegister::programmed(source.argument(), value, source),
                ..self
            },
            MaxwellThreeDRenderTargetWrite::DepthCompression { value, source } => MaxwellThreeDRenderTargetState {
                depth_compression: MaxwellThreeDRegister::programmed(source.argument(), value, source),
                ..self
            },
            MaxwellThreeDRenderTargetWrite::ColorTargetSelection { value, source } => MaxwellThreeDRenderTargetState {
                color_target_selection: MaxwellThreeDRegister::programmed(source.argument(), value, source),
                ..self
            },
            MaxwellThreeDRenderTargetWrite::CompressionThreshold { value, source } => MaxwellThreeDRenderTargetState {
                compression_threshold: MaxwellThreeDRegister::programmed(source.argument(), value, source),
                ..self
            },
            MaxwellThreeDRenderTargetWrite::RenderTargetLayer { value, source } => MaxwellThreeDRenderTargetState {
                render_target_layer: MaxwellThreeDRegister::programmed(source.argument(), value, source),
                ..self
            },
            MaxwellThreeDRenderTargetWrite::ClearSurfaceControl { value, source } => MaxwellThreeDRenderTargetState {
                clear_surface_control: MaxwellThreeDRegister::programmed(source.argument(), value, source),
                ..self
            },
            MaxwellThreeDRenderTargetWrite::ClearSurface { value, source } => MaxwellThreeDRenderTargetState {
                clear_surface: MaxwellThreeDRegister::programmed(source.argument(), value, source),
                ..self
            },
        }
    }

    #[must_use]
    pub fn color_address_upper(&self, target: u8) -> (r: &MaxwellThreeDRegister<u8>)
        requires
            target < 8,
        ensures
            *r == self.color_address_upper[target as int],
    {
        &self.color_address_upper[target as usize]
    }

    #[must_use]
    pub fn color_address_lower(&self, target: u8) -> (r: &MaxwellThreeDRegister<u32>)
        requires
            target < 8,
        ensures
            *r == self.color_address_lower[target as int],
    {
        &self.color_address_lower[target as usize]
    }

    #[must_use]
    pub fn color_widths(&self, target: u8) -> (r: &MaxwellThreeDRegister<u32>)
        requires
            target < 8,
        ensures
            *r == self.color_widths[target as int],
    {
        &self.color_widths[target as usize]
    }

    #[must_use]
    pub fn color_heights(&self, target: u8) -> (r: &MaxwellThreeDRegister<u32>)
        requires
            target < 8,
        ensures
            *r == self.color_heights[target as int],
    {
        &self.color_heights[target as usize]
    }

    #[must_use]
    pub fn color_formats(&self, target: u8) -> (r: &MaxwellThreeDRegister<MaxwellThreeDColorTargetFormat>)
        requires
            target < 8,
        ensures
            *r == self.color_formats[target as int],
    {
        &self.color_formats[target as usize]
    }

    #[must_use]
    pub fn color_layouts(&self, target: u8) -> (r: &MaxwellThreeDRegister<MaxwellThreeDColorTargetMemory>)
        requires
            target < 8,
        ensures
            *r == self.color_layouts[target as int],
    {
        &self.color_layouts[target as usize]
    }

    #[must_use]
    pub fn color_third_dimensions(&self, target: u8) -> (r: &MaxwellThreeDRegister<u32>)
        requires
            target < 8,
        ensures
            *r == self.color_third_dimensions[target as int],
    {
        &self.color_third_dimensions[target as usize]
    }

    #[must_use]
    pub fn color_array_pitches(&self, target: u8) -> (r: &MaxwellThreeDRegister<u32>)
        requires
            target < 8,
        ensures
            *r == self.color_array_pitches[target as int],
    {
        &self.color_array_pitches[target as usize]
    }

    #[must_use]
    pub fn color_layers(&self, target: u8) -> (r: &MaxwellThreeDRegister<u16>)
        requires
            target < 8,
        ensures
            *r == self.color_layers[target as int],
    {
        &self.color_layers[target as usize]
    }

    #[must_use]
    pub fn color_compression(&self, target: u8) -> (r: &MaxwellThreeDRegister<MaxwellThreeDColorCompressionMode>)
        requires
            target < 8,
        ensures
            *r == self.color_compression[target as int],
    {
        &self.color_compression[target as usize]
    }

    #[must_use]
    pub fn clear_horizontal(&self) -> (r: &MaxwellThreeDRegister<MaxwellThreeDRectangle>)
        ensures
            *r == self.clear_horizontal,
    {
        &self.clear_horizontal
    }

    #[must_use]
    pub fn clear_vertical(&self) -> (r: &MaxwellThreeDRegister<MaxwellThreeDRectangle>)
        ensures
            *r == self.clear_vertical,
    {
        &self.clear_vertical
    }

    #[must_use]
    pub fn clear_color(&self, component: u8) -> (r: &MaxwellThreeDRegister<MaxwellThreeDRawValue>)
        requires
            component < 4,
        ensures
            *r == self.clear_color[component as int],
    {
        &self.clear_color[component as usize]
    }

    #[must_use]
    pub fn clear_depth(&self) -> (r: &MaxwellThreeDRegister<MaxwellThreeDRawValue>)
        ensures
            *r == self.clear_depth,
    {
        &self.clear_depth
    }

    #[must_use]
    pub fn clear_stencil(&self) -> (r: &MaxwellThreeDRegister<u8>)
        ensures
            *r == self.clear_stencil,
    {
        &self.clear_stencil
    }

    #[must_use]
    pub fn separate_fragment_data(&self) -> (r: &MaxwellThreeDRegister<MaxwellThreeDSeparateFragmentData>)
        ensures
            *r == self.separate_fragment_data,
    {
        &self.separate_fragment_data
    }

    #[must_use]
    pub fn render_target_index_offset(&self) -> (r: &MaxwellThreeDRegister<MaxwellThreeDRenderTargetIndexOffset>)
        ensures
            *r == self.render_target_index_offset,
    {
        &self.render_target_index_offset
    }

    #[must_use]
    pub fn depth_address_upper(&self) -> (r: &MaxwellThreeDRegister<u8>)
        ensures
            *r == self.depth_address_upper,
    {
        &self.depth_address_upper
    }

    #[must_use]
    pub fn depth_address_lower(&self) -> (r: &MaxwellThreeDRegister<u32>)
        ensures
            *r == self.depth_address_lower,
    {
        &self.depth_address_lower
    }

    #[must_use]
    pub fn depth_format(&self) -> (r: &MaxwellThreeDRegister<MaxwellThreeDDepthStencilFormat>)
        ensures
            *r == self.depth_format,
    {
        &self.depth_format
    }

    #[must_use]
    pub fn depth_layout(&self) -> (r: &MaxwellThreeDRegister<MaxwellThreeDImageLayout>)
        ensures
            *r == self.depth_layout,
    {
        &self.depth_layout
    }

    #[must_use]
    pub fn depth_array_pitch(&self) -> (r: &MaxwellThreeDRegister<u32>)
        ensures
            *r == self.depth_array_pitch,
    {
        &self.depth_array_pitch
    }

    #[must_use]
    pub fn depth_layer(&self) -> (r: &MaxwellThreeDRegister<u16>)
        ensures
            *r == self.depth_layer,
    {
        &self.depth_layer
    }

    #[must_use]
    pub fn depth_width(&self) -> (r: &MaxwellThreeDRegister<u32>)
        ensures
            *r == self.depth_width,
    {
        &self.depth_width
    }

    #[must_use]
    pub fn depth_height(&self) -> (r: &MaxwellThreeDRegister<u32>)
        ensures
            *r == self.depth_height,
    {
        &self.depth_height
    }

    #[must_use]
    pub fn depth_third_dimension(&self) -> (r: &MaxwellThreeDRegister<MaxwellThreeDDepthThirdDimension>)
        ensures
            *r == self.depth_third_dimension,
    {
        &self.depth_third_dimension
    }

    #[must_use]
    pub fn depth_target_count(&self) -> (r: &MaxwellThreeDRegister<MaxwellThreeDDepthTargetCount>)
        ensures
            *r == self.depth_target_count,
    {
        &self.depth_target_count
    }

    #[must_use]
    pub fn depth_compression(&self) -> (r: &MaxwellThreeDRegister<MaxwellThreeDZCompressionMode>)
        ensures
            *r == self.depth_compression,
    {
        &self.depth_compression
    }

    #[must_use]
    pub fn color_target_selection(&self) -> (r: &MaxwellThreeDRegister<MaxwellThreeDColorTargetSelection>)
        ensures
            *r == self.color_target_selection,
    {
        &self.color_target_selection
    }

    #[must_use]
    pub fn compression_threshold(&self) -> (r: &MaxwellThreeDRegister<MaxwellThreeDCompressionThreshold>)
        ensures
            *r == self.compression_threshold,
    {
        &self.compression_threshold
    }

    #[must_use]
    pub fn render_target_layer(&self) -> (r: &MaxwellThreeDRegister<MaxwellThreeDRenderTargetLayer>)
        ensures
            *r == self.render_target_layer,
    {
        &self.render_target_layer
    }

    #[must_use]
    pub fn clear_surface_control(&self) -> (r: &MaxwellThreeDRegister<MaxwellThreeDClearSurfaceControl>)
        ensures
            *r == self.clear_surface_control,
    {
        &self.clear_surface_control
    }

    #[must_use]
    pub fn clear_surface(&self) -> (r: &MaxwellThreeDRegister<MaxwellThreeDClearSurface>)
        ensures
            *r == self.clear_surface,
    {
        &self.clear_surface
    }

    /// State with every register unset.
    #[must_use]
    pub fn unprogrammed() -> (r: MaxwellThreeDRenderTargetState)
        ensures
            r.initial(),
    {
        MaxwellThreeDRenderTargetState {
            color_address_upper: [
                MaxwellThreeDRegister::unset(),
                MaxwellThreeDRegister::unset(),
                MaxwellThreeDRegister::unset(),
                MaxwellThreeDRegister::unset(),
                MaxwellThreeDRegister::unset(),
                MaxwellThreeDRegister::unset(),
                MaxwellThreeDRegister::unset(),
                MaxwellThreeDRegister::unset(),
            ],
            color_address_lower: [
                MaxwellThreeDRegister::unset(),
                MaxwellThreeDRegister::unset(),
                MaxwellThreeDRegister::unset(),
                MaxwellThreeDRegister::unset(),
                MaxwellThreeDRegister::unset(),
                MaxwellThreeDRegister::unset(),
                MaxwellThreeDRegister::unset(),
                MaxwellThreeDRegister::unset(),
            ],
            color_widths: [
                MaxwellThreeDRegister::unset(),
                MaxwellThreeDRegister::unset(),
                MaxwellThreeDRegister::unset(),
                MaxwellThreeDRegister::unset(),
                MaxwellThreeDRegister::unset(),
                MaxwellThreeDRegister::unset(),
                MaxwellThreeDRegister::unset(),
                MaxwellThreeDRegister::unset(),
            ],
            color_heights: [
                MaxwellThreeDRegister::unset(),
                MaxwellThreeDRegister::unset(),
                MaxwellThreeDRegister::unset(),
                MaxwellThreeDRegister::unset(),
                MaxwellThreeDRegister::unset(),
                MaxwellThreeDRegister::unset(),
                MaxwellThreeDRegister::unset(),
                MaxwellThreeDRegister::unset(),
            ],
            color_formats: [
                MaxwellThreeDRegister::unset(),
                MaxwellThreeDRegister::unset(),
                MaxwellThreeDRegister::unset(),
                MaxwellThreeDRegister::unset(),
                MaxwellThreeDRegister::unset(),
                MaxwellThreeDRegister::unset(),
                MaxwellThreeDRegister::unset(),
                MaxwellThreeDRegister::unset(),
            ],
            color_layouts: [
                MaxwellThreeDRegister::unset(),
                MaxwellThreeDRegister::unset(),
                MaxwellThreeDRegister::unset(),
                MaxwellThreeDRegister::unset(),
                MaxwellThreeDRegister::unset(),
                MaxwellThreeDRegister::unset(),
                MaxwellThreeDRegister::unset(),
                MaxwellThreeDRegister::unset(),
            ],
            color_third_dimensions: [
                MaxwellThreeDRegister::unset(),
                MaxwellThreeDRegister::unset(),
                MaxwellThreeDRegister::unset(),
                MaxwellThreeDRegister::unset(),
                MaxwellThreeDRegister::unset(),
                MaxwellThreeDRegister::unset(),
                MaxwellThreeDRegister::unset(),
                MaxwellThreeDRegister::unset(),
            ],
            color_array_pitches: [
                MaxwellThreeDRegister::unset(),
                MaxwellThreeDRegister::unset(),
                MaxwellThreeDRegister::unset(),
                MaxwellThreeDRegister::unset(),
                MaxwellThreeDRegister::unset(),
                MaxwellThreeDRegister::unset(),
                MaxwellThreeDRegister::unset(),
                MaxwellThreeDRegister::unset(),
            ],
            color_layers: [
                MaxwellThreeDRegister::unset(),
                MaxwellThreeDRegister::unset(),
                MaxwellThreeDRegister::unset(),
                MaxwellThreeDRegister::unset(),
                MaxwellThreeDRegister::unset(),
                MaxwellThreeDRegister::unset(),
                MaxwellThreeDRegister::unset(),
                MaxwellThreeDRegister::unset(),
            ],
            color_compression: [
                MaxwellThreeDRegister::unset(),
                MaxwellThreeDRegister::unset(),
                MaxwellThreeDRegister::unset(),
                MaxwellThreeDRegister::unset(),
                MaxwellThreeDRegister::unset(),
                MaxwellThreeDRegister::unset(),
                MaxwellThreeDRegister::unset(),
                MaxwellThreeDRegister::unset(),
            ],
            clear_horizontal: MaxwellThreeDRegister::unset(),
            clear_vertical: MaxwellThreeDRegister::unset(),
            clear_color: [
                MaxwellThreeDRegister::unset(),
                MaxwellThreeDRegister::unset(),
                MaxwellThreeDRegister::unset(),
                MaxwellThreeDRegister::unset(),
            ],
            clear_depth: MaxwellThreeDRegister::unset(),
            clear_stencil: MaxwellThreeDRegister::unset(),
            separate_fragment_data: MaxwellThreeDRegister::unset(),
            render_target_index_offset: MaxwellThreeDRegister::unset(),
            depth_address_upper: MaxwellThreeDRegister::unset(),
            depth_address_lower: MaxwellThreeDRegister::unset(),
            depth_format: MaxwellThreeDRegister::unset(),
            depth_layout: MaxwellThreeDRegister::unset(),
            depth_array_pitch: MaxwellThreeDRegister::unset(),
            depth_layer: MaxwellThreeDRegister::unset(),
            depth_width: MaxwellThreeDRegister::unset(),
            depth_height: MaxwellThreeDRegister::unset(),
            depth_third_dimension: MaxwellThreeDRegister::unset(),
            depth_target_count: MaxwellThreeDRegister::unset(),
            depth_compression: MaxwellThreeDRegister::unset(),
            color_target_selection: MaxwellThreeDRegister::unset(),
            compression_threshold: MaxwellThreeDRegister::unset(),
            render_target_layer: MaxwellThreeDRegister::unset(),
            clear_surface_control: MaxwellThreeDRegister::unset(),
            clear_surface: MaxwellThreeDRegister::unset(),
        }
    }

    pub fn apply(&mut self, write: MaxwellThreeDRenderTargetWrite)
        requires
            write.wf(),
        ensures
            *final(self) == old(self).written(write),
    {
        match write {
            MaxwellThreeDRenderTargetWrite::ColorAddressUpper { target, value, source } => {
                self.color_address_upper[target as usize] = MaxwellThreeDRegister::programmed(source.argument(), value, source);
            },
            MaxwellThreeDRenderTargetWrite::ColorAddressLower { target, value, source } => {
                self.color_address_lower[target as usize] = MaxwellThreeDRegister::programmed(source.argument(), value, source);
            },
            MaxwellThreeDRenderTargetWrite::ColorWidth { target, value, source } => {
                self.color_widths[target as usize] = MaxwellThreeDRegister::programmed(source.argument(), value, source);
            },
            MaxwellThreeDRenderTargetWrite::ColorHeight { target, value, source } => {
                self.color_heights[target as usize] = MaxwellThreeDRegister::programmed(source.argument(), value, source);
            },
            MaxwellThreeDRenderTargetWrite::ColorFormat { target, value, source } => {
                self.color_formats[target as usize] = MaxwellThreeDRegister::programmed(source.argument(), value, source);
            },
            MaxwellThreeDRenderTargetWrite::ColorLayout { target, value, source } => {
                self.color_layouts[target as usize] = MaxwellThreeDRegister::programmed(source.argument(), value, source);
            },
            MaxwellThreeDRenderTargetWrite::ColorThirdDimension { target, value, source } => {
                self.color_third_dimensions[target as usize] = MaxwellThreeDRegister::programmed(source.argument(), value, source);
            },
            MaxwellThreeDRenderTargetWrite::ColorArrayPitch { target, value, source } => {
                self.color_array_pitches[target as usize] = MaxwellThreeDRegister::programmed(source.argument(), value, source);
            },
            MaxwellThreeDRenderTargetWrite::ColorLayer { target, value, source } => {
                self.color_layers[target as usize] = MaxwellThreeDRegister::programmed(source.argument(), value, source);
            },
            MaxwellThreeDRenderTargetWrite::ColorCompression { target, value, source } => {
                self.color_compression[target as usize] = MaxwellThreeDRegister::programmed(source.argument(), value, source);
            },
            MaxwellThreeDRenderTargetWrite::ClearHorizontal { value, source } => {
                self.clear_horizontal = MaxwellThreeDRegister::programmed(source.argument(), value, source);
            },
            MaxwellThreeDRenderTargetWrite::ClearVertical { value, source } => {
                self.clear_vertical = MaxwellThreeDRegister::programmed(source.argument(), value, source);
            },
            MaxwellThreeDRenderTargetWrite::ClearColor { component, value, source } => {
                self.clear_color[component as usize] = MaxwellThreeDRegister::programmed(source.argument(), value, source);
            },
            MaxwellThreeDRenderTargetWrite::ClearDepth { value, source } => {
                self.clear_depth = MaxwellThreeDRegister::programmed(source.argument(), value, source);
            },
            MaxwellThreeDRenderTargetWrite::ClearStencil { value, source } => {
                self.clear_stencil = MaxwellThreeDRegister::programmed(source.argument(), value, source);
            },
            MaxwellThreeDRenderTargetWrite::SeparateFragmentData { value, source } => {
                self.separate_fragment_data = MaxwellThreeDRegister::programmed(source.argument(), value, source);
            },
            MaxwellThreeDRenderTargetWrite::RenderTargetIndexOffset { value, source } => {
                self.render_target_index_offset = MaxwellThreeDRegister::programmed(source.argument(), value, source);
            },
            MaxwellThreeDRenderTargetWrite::DepthAddressUpper { value, source } => {
                self.depth_address_upper = MaxwellThreeDRegister::programmed(source.argument(), value, source);
            },
            MaxwellThreeDRenderTargetWrite::DepthAddressLower { value, source } => {
                self.depth_address_lower = MaxwellThreeDRegister::programmed(source.argument(), value, source);
            },
            MaxwellThreeDRenderTargetWrite::DepthFormat { value, source } => {
                self.depth_format = MaxwellThreeDRegister::programmed(source.argument(), value, source);
            },
            MaxwellThreeDRenderTargetWrite::DepthLayout { value, source } => {
                self.depth_layout = MaxwellThreeDRegister::programmed(source.argument(), value, source);
            },
            MaxwellThreeDRenderTargetWrite::DepthArrayPitch { value, source } => {
                self.depth_array_pitch = MaxwellThreeDRegister::programmed(source.argument(), value, source);
            },
            MaxwellThreeDRenderTargetWrite::DepthLayer { value, source } => {
                self.depth_layer = MaxwellThreeDRegister::programmed(source.argument(), value, source);
            },
            MaxwellThreeDRenderTargetWrite::DepthWidth { value, source } => {
                self.depth_width = MaxwellThreeDRegister::programmed(source.argument(), value, source);
            },
            MaxwellThreeDRenderTargetWrite::DepthHeight { value, source } => {
                self.depth_height = MaxwellThreeDRegister::programmed(source.argument(), value, source);
            },
            MaxwellThreeDRenderTargetWrite::DepthThirdDimension { value, source } => {
                self.depth_third_dimension = MaxwellThreeDRegister::programmed(source.argument(), value, source);
            },
            MaxwellThreeDRenderTargetWrite::DepthTargetCount { value, source } => {
                self.depth_target_count = MaxwellThreeDRegister::programmed(source.argument(), value, source);
            },
            MaxwellThreeDRenderTargetWrite::DepthCompression { value, source } => {
                self.depth_compression = MaxwellThreeDRegister::programmed(source.argument(), value, source);
            },
            MaxwellThreeDRenderTargetWrite::ColorTargetSelection { value, source } => {
                self.color_target_selection = MaxwellThreeDRegister::programmed(source.argument(), value, source);
            },
            MaxwellThreeDRenderTargetWrite::CompressionThreshold { value, source } => {
                self.compression_threshold = MaxwellThreeDRegister::programmed(source.argument(), value, source);
            },
            MaxwellThreeDRenderTargetWrite::RenderTargetLayer { value, source } => {
                self.render_target_layer = MaxwellThreeDRegister::programmed(source.argument(), value, source);
            },
            MaxwellThreeDRenderTargetWrite::ClearSurfaceControl { value, source } => {
                self.clear_surface_control = MaxwellThreeDRegister::programmed(source.argument(), value, source);
            },
            MaxwellThreeDRenderTargetWrite::ClearSurface { value, source } => {
                self.clear_surface = MaxwellThreeDRegister::programmed(source.argument(), value, source);
            },
        }
    }
}

impl Default for MaxwellThreeDRenderTargetState {
    fn default() -> (r: MaxwellThreeDRenderTargetState)
        ensures
            r.initial(),
    {
        MaxwellThreeDRenderTargetState::unprogrammed()
    }
}

} // verus!
