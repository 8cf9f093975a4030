//! Point, polygon and viewport rasterization registers.

use vstd::prelude::*;
use crate::register::{MaxwellMethodSource, MaxwellThreeDRegister};

verus! {

/// Alpha fraction byte.
#[derive(Clone, Copy, Debug, PartialEq, Eq, Hash, Structural)]
pub struct MaxwellThreeDAlphaFraction(pub u8);

impl MaxwellThreeDAlphaFraction {
    #[must_use]
    pub fn new(value: u8) -> (r: MaxwellThreeDAlphaFraction)
        ensures
            r.0 == value,
    {
        MaxwellThreeDAlphaFraction(value)
    }

    pub open spec fn spec_get(self) -> u8 {
        self.0
    }

    #[must_use]
    #[verifier::when_used_as_spec(spec_get)]
    pub fn get(self) -> (r: u8)
        ensures
            r == self.0,
    {
        self.0
    }
}

/// Raster bounding-box word.
#[derive(Clone, Copy, Debug, PartialEq, Eq, Hash, Structural)]
pub struct MaxwellThreeDRasterBoundingBox(pub u32);

impl MaxwellThreeDRasterBoundingBox {
    #[must_use]
    pub fn from_raw(raw: u32) -> (r: MaxwellThreeDRasterBoundingBox)
        ensures
            r.0 == raw,
    {
        MaxwellThreeDRasterBoundingBox(raw)
    }

    pub open spec fn spec_raw(self) -> u32 {
        self.0
    }

    #[must_use]
    #[verifier::when_used_as_spec(spec_raw)]
    pub fn raw(self) -> (r: u32)
        ensures
            r == self.0,
    {
        self.0
    }
}

/// Exact IEEE-754 point size bits.
#[derive(Clone, Copy, Debug, PartialEq, Eq, Hash, Structural)]
pub struct MaxwellThreeDPointSize(pub u32);

impl MaxwellThreeDPointSize {
    #[must_use]
    pub fn from_bits(bits: u32) -> (r: MaxwellThreeDPointSize)
        ensures
            r.0 == bits,
    {
        MaxwellThreeDPointSize(bits)
    }

    pub open spec fn spec_bits(self) -> u32 {
        self.0
    }

    #[must_use]
    #[verifier::when_used_as_spec(spec_bits)]
    pub fn bits(self) -> (r: u32)
        ensures
            r == self.0,
    {
        self.0
    }
}

/// Point-sprite coordinate generation word.
#[derive(Clone, Copy, Debug, PartialEq, Eq, Hash, Structural)]
pub struct MaxwellThreeDPointSpriteSelect(pub u32);

impl MaxwellThreeDPointSpriteSelect {
    #[must_use]
    pub fn from_raw(raw: u32) -> (r: MaxwellThreeDPointSpriteSelect)
        ensures
            r.0 == raw,
    {
        MaxwellThreeDPointSpriteSelect(raw)
    }

    pub open spec fn spec_raw(self) -> u32 {
        self.0
    }

    #[must_use]
    #[verifier::when_used_as_spec(spec_raw)]
    pub fn raw(self) -> (r: u32)
        ensures
            r == self.0,
    {
        self.0
    }
}

/// Pixel convention of point centers.
#[derive(Clone, Copy, Debug, PartialEq, Eq, Hash, Structural)]
pub enum MaxwellThreeDPointCenterMode {
    OpenGl,
    Direct3D,
}

impl MaxwellThreeDPointCenterMode {
    /// Field encoding of each value.
    pub open spec fn spec_raw(self) -> u32 {
        match self {
            MaxwellThreeDPointCenterMode::OpenGl => 0,
            MaxwellThreeDPointCenterMode::Direct3D => 1,
        }
    }

    /// Value of each defined encoding.
    pub open spec fn spec_parse(raw: u32) -> Option<MaxwellThreeDPointCenterMode> {
        if raw == 0 {
            Some(MaxwellThreeDPointCenterMode::OpenGl)
        } else if raw == 1 {
            Some(MaxwellThreeDPointCenterMode::Direct3D)
        } else {
            None
        }
    }

    #[verifier::when_used_as_spec(spec_parse)]
    pub fn parse(raw: u32) -> (r: Option<MaxwellThreeDPointCenterMode>)
        ensures
            r == MaxwellThreeDPointCenterMode::spec_parse(raw),
    {
        match raw {
            0 => Some(MaxwellThreeDPointCenterMode::OpenGl),
            1 => Some(MaxwellThreeDPointCenterMode::Direct3D),
            _ => None,
        }
    }

    #[must_use]
    #[verifier::when_used_as_spec(spec_raw)]
    pub fn raw(self) -> (r: u32)
        ensures
            r == self.spec_raw(),
    {
        match self {
            MaxwellThreeDPointCenterMode::OpenGl => 0,
            MaxwellThreeDPointCenterMode::Direct3D => 1,
        }
    }

    /// Decoding and encoding are inverse: a word decodes to a value exactly
    /// when it is the encoding of that value.
    pub proof fn law_codec(raw: u32, value: MaxwellThreeDPointCenterMode)
        ensures
            MaxwellThreeDPointCenterMode::spec_parse(raw) == Some(value) <==> value.spec_raw() == raw,
    {
    }
}

/// Edge flag of the vertices that carry none.
#[derive(Clone, Copy, Debug, PartialEq, Eq, Hash, Structural)]
pub enum MaxwellThreeDEdgeFlag {
    Disabled,
    Enabled,
}

impl MaxwellThreeDEdgeFlag {
    /// Field encoding of each value.
    pub open spec fn spec_raw(self) -> u32 {
        match self {
            MaxwellThreeDEdgeFlag::Disabled => 0,
            MaxwellThreeDEdgeFlag::Enabled => 1,
        }
    }

    /// Value of each defined encoding.
    pub open spec fn spec_parse(raw: u32) -> Option<MaxwellThreeDEdgeFlag> {
        if raw == 0 {
            Some(MaxwellThreeDEdgeFlag::Disabled)
        } else if raw == 1 {
            Some(MaxwellThreeDEdgeFlag::Enabled)
        } else {
            None
        }
    }

    #[verifier::when_used_as_spec(spec_parse)]
    pub fn parse(raw: u32) -> (r: Option<MaxwellThreeDEdgeFlag>)
        ensures
            r == MaxwellThreeDEdgeFlag::spec_parse(raw),
    {
        match raw {
            0 => Some(MaxwellThreeDEdgeFlag::Disabled),
            1 => Some(MaxwellThreeDEdgeFlag::Enabled),
            _ => None,
        }
    }

    #[must_use]
    #[verifier::when_used_as_spec(spec_raw)]
    pub fn raw(self) -> (r: u32)
        ensures
            r == self.spec_raw(),
    {
        match self {
            MaxwellThreeDEdgeFlag::Disabled => 0,
            MaxwellThreeDEdgeFlag::Enabled => 1,
        }
    }

    /// Decoding and encoding are inverse: a word decodes to a value exactly
    /// when it is the encoding of that value.
    pub proof fn law_codec(raw: u32, value: MaxwellThreeDEdgeFlag)
        ensures
            MaxwellThreeDEdgeFlag::spec_parse(raw) == Some(value) <==> value.spec_raw() == raw,
    {
    }
}

/// Depth range that viewport clipping keeps.
#[derive(Clone, Copy, Debug, PartialEq, Eq, Hash, Structural)]
pub enum MaxwellThreeDViewportZClipRange {
    NegativeWToPositiveW,
    ZeroToPositiveW,
}

impl MaxwellThreeDViewportZClipRange {
    /// Field encoding of each value.
    pub open spec fn spec_raw(self) -> u32 {
        match self {
            MaxwellThreeDViewportZClipRange::NegativeWToPositiveW => 0,
            MaxwellThreeDViewportZClipRange::ZeroToPositiveW => 1,
        }
    }

    /// Value of each defined encoding.
    pub open spec fn spec_parse(raw: u32) -> Option<MaxwellThreeDViewportZClipRange> {
        if raw == 0 {
            Some(MaxwellThreeDViewportZClipRange::NegativeWToPositiveW)
        } else if raw == 1 {
            Some(MaxwellThreeDViewportZClipRange::ZeroToPositiveW)
        } else {
            None
        }
    }

    #[verifier::when_used_as_spec(spec_parse)]
    pub fn parse(raw: u32) -> (r: Option<MaxwellThreeDViewportZClipRange>)
        ensures
            r == MaxwellThreeDViewportZClipRange::spec_parse(raw),
    {
        match raw {
            0 => Some(MaxwellThreeDViewportZClipRange::NegativeWToPositiveW),
            1 => Some(MaxwellThreeDViewportZClipRange::ZeroToPositiveW),
            _ => None,
        }
    }

    #[must_use]
    #[verifier::when_used_as_spec(spec_raw)]
    pub fn raw(self) -> (r: u32)
        ensures
            r == self.spec_raw(),
    {
        match self {
            MaxwellThreeDViewportZClipRange::NegativeWToPositiveW => 0,
            MaxwellThreeDViewportZClipRange::ZeroToPositiveW => 1,
        }
    }

    /// Decoding and encoding are inverse: a word decodes to a value exactly
    /// when it is the encoding of that value.
    pub proof fn law_codec(raw: u32, value: MaxwellThreeDViewportZClipRange)
        ensures
            MaxwellThreeDViewportZClipRange::spec_parse(raw) == Some(value) <==> value.spec_raw() == raw,
    {
    }
}

/// Expansion of triangles to their bounding boxes.
#[derive(Clone, Copy, Debug, PartialEq, Eq, Hash, Structural)]
pub enum MaxwellThreeDFillViaTriangleMode {
    Disabled,
    FillAll,
    FillBoundingBox,
}

impl MaxwellThreeDFillViaTriangleMode {
    /// Field encoding of each value.
    pub open spec fn spec_raw(self) -> u32 {
        match self {
            MaxwellThreeDFillViaTriangleMode::Disabled => 0,
            MaxwellThreeDFillViaTriangleMode::FillAll => 1,
            MaxwellThreeDFillViaTriangleMode::FillBoundingBox => 2,
        }
    }

    /// Value of each defined encoding.
    pub open spec fn spec_parse(raw: u32) -> Option<MaxwellThreeDFillViaTriangleMode> {
        if raw == 0 {
            Some(MaxwellThreeDFillViaTriangleMode::Disabled)
        } else if raw == 1 {
            Some(MaxwellThreeDFillViaTriangleMode::FillAll)
        } else if raw == 2 {
            Some(MaxwellThreeDFillViaTriangleMode::FillBoundingBox)
        } else {
            None
        }
    }

    #[verifier::when_used_as_spec(spec_parse)]
    pub fn parse(raw: u32) -> (r: Option<MaxwellThreeDFillViaTriangleMode>)
        ensures
            r == MaxwellThreeDFillViaTriangleMode::spec_parse(raw),
    {
        match raw {
            0 => Some(MaxwellThreeDFillViaTriangleMode::Disabled),
            1 => Some(MaxwellThreeDFillViaTriangleMode::FillAll),
            2 => Some(MaxwellThreeDFillViaTriangleMode::FillBoundingBox),
            _ => None,
        }
    }

    #[must_use]
    #[verifier::when_used_as_spec(spec_raw)]
    pub fn raw(self) -> (r: u32)
        ensures
            r == self.spec_raw(),
    {
        match self {
            MaxwellThreeDFillViaTriangleMode::Disabled => 0,
            MaxwellThreeDFillViaTriangleMode::FillAll => 1,
            MaxwellThreeDFillViaTriangleMode::FillBoundingBox => 2,
        }
    }

    /// Decoding and encoding are inverse: a word decodes to a value exactly
    /// when it is the encoding of that value.
    pub proof fn law_codec(raw: u32, value: MaxwellThreeDFillViaTriangleMode)
        ensures
            MaxwellThreeDFillViaTriangleMode::spec_parse(raw) == Some(value) <==> value.spec_raw() == raw,
    {
    }
}

/// Conservative rasterization.
#[derive(Clone, Copy, Debug, PartialEq, Eq, Hash, Structural)]
pub enum MaxwellThreeDConservativeRasterEnable {
    Disabled,
    Enabled,
}

impl MaxwellThreeDConservativeRasterEnable {
    /// Field encoding of each value.
    pub open spec fn spec_raw(self) -> u32 {
        match self {
            MaxwellThreeDConservativeRasterEnable::Disabled => 0,
            MaxwellThreeDConservativeRasterEnable::Enabled => 1,
        }
    }

    /// Value of each defined encoding.
    pub open spec fn spec_parse(raw: u32) -> Option<MaxwellThreeDConservativeRasterEnable> {
        if raw == 0 {
            Some(MaxwellThreeDConservativeRasterEnable::Disabled)
        } else if raw == 1 {
            Some(MaxwellThreeDConservativeRasterEnable::Enabled)
        } else {
            None
        }
    }

    #[verifier::when_used_as_spec(spec_parse)]
    pub fn parse(raw: u32) -> (r: Option<MaxwellThreeDConservativeRasterEnable>)
        ensures
            r == MaxwellThreeDConservativeRasterEnable::spec_parse(raw),
    {
        match raw {
            0 => Some(MaxwellThreeDConservativeRasterEnable::Disabled),
            1 => Some(MaxwellThreeDConservativeRasterEnable::Enabled),
            _ => None,
        }
    }

    #[must_use]
    #[verifier::when_used_as_spec(spec_raw)]
    pub fn raw(self) -> (r: u32)
        ensures
            r == self.spec_raw(),
    {
        match self {
            MaxwellThreeDConservativeRasterEnable::Disabled => 0,
            MaxwellThreeDConservativeRasterEnable::Enabled => 1,
        }
    }

    /// Whether the feature is on.
    pub open spec fn spec_enabled(self) -> bool {
        matches!(self, MaxwellThreeDConservativeRasterEnable::Enabled)
    }

    #[must_use]
    #[verifier::when_used_as_spec(spec_enabled)]
    pub fn enabled(self) -> (r: bool)
        ensures
            r == self.spec_enabled(),
    {
        matches!(self, MaxwellThreeDConservativeRasterEnable::Enabled)
    }

    /// Decoding and encoding are inverse: a word decodes to a value exactly
    /// when it is the encoding of that value.
    pub proof fn law_codec(raw: u32, value: MaxwellThreeDConservativeRasterEnable)
        ensures
            MaxwellThreeDConservativeRasterEnable::spec_parse(raw) == Some(value) <==> value.spec_raw() == raw,
    {
    }
}

/// Position of pixel centers.
#[derive(Clone, Copy, Debug, PartialEq, Eq, Hash, Structural)]
pub enum MaxwellThreeDViewportPixelCenter {
    HalfIntegers,
    Integers,
}

impl MaxwellThreeDViewportPixelCenter {
    /// Field encoding of each value.
    pub open spec fn spec_raw(self) -> u32 {
        match self {
            MaxwellThreeDViewportPixelCenter::HalfIntegers => 0,
            MaxwellThreeDViewportPixelCenter::Integers => 1,
        }
    }

    /// Value of each defined encoding.
    pub open spec fn spec_parse(raw: u32) -> Option<MaxwellThreeDViewportPixelCenter> {
        if raw == 0 {
            Some(MaxwellThreeDViewportPixelCenter::HalfIntegers)
        } else if raw == 1 {
            Some(MaxwellThreeDViewportPixelCenter::Integers)
        } else {
            None
        }
    }

    #[verifier::when_used_as_spec(spec_parse)]
    pub fn parse(raw: u32) -> (r: Option<MaxwellThreeDViewportPixelCenter>)
        ensures
            r == MaxwellThreeDViewportPixelCenter::spec_parse(raw),
    {
        match raw {
            0 => Some(MaxwellThreeDViewportPixelCenter::HalfIntegers),
            1 => Some(MaxwellThreeDViewportPixelCenter::Integers),
            _ => None,
        }
    }

    #[must_use]
    #[verifier::when_used_as_spec(spec_raw)]
    pub fn raw(self) -> (r: u32)
        ensures
            r == self.spec_raw(),
    {
        match self {
            MaxwellThreeDViewportPixelCenter::HalfIntegers => 0,
            MaxwellThreeDViewportPixelCenter::Integers => 1,
        }
    }

    /// Decoding and encoding are inverse: a word decodes to a value exactly
    /// when it is the encoding of that value.
    pub proof fn law_codec(raw: u32, value: MaxwellThreeDViewportPixelCenter)
        ensures
            MaxwellThreeDViewportPixelCenter::spec_parse(raw) == Some(value) <==> value.spec_raw() == raw,
    {
    }
}

/// Attribute slot that carries the point size.
#[derive(Clone, Copy, Debug, PartialEq, Eq, Hash, Structural)]
pub struct MaxwellThreeDAttributePointSize(pub u32);

impl MaxwellThreeDAttributePointSize {
    #[must_use]
    pub fn from_raw(raw: u32) -> (r: MaxwellThreeDAttributePointSize)
        ensures
            r.0 == raw,
    {
        MaxwellThreeDAttributePointSize(raw)
    }

    pub open spec fn spec_raw(self) -> u32 {
        self.0
    }

    #[must_use]
    #[verifier::when_used_as_spec(spec_raw)]
    pub fn raw(self) -> (r: u32)
        ensures
            r == self.0,
    {
        self.0
    }

    /// Whether an attribute carries the point size.
    pub open spec fn spec_enabled(self) -> bool {
        self.0 & 1 != 0
    }

    #[must_use]
    #[verifier::when_used_as_spec(spec_enabled)]
    pub fn enabled(self) -> (r: bool)
        ensures
            r == self.spec_enabled(),
    {
        self.0 & 1 != 0
    }

    /// Attribute slot.
    pub open spec fn spec_slot(self) -> u8 {
        ((self.0 >> 4) & 0xff) as u8
    }

    #[must_use]
    #[verifier::when_used_as_spec(spec_slot)]
    pub fn slot(self) -> (r: u8)
        ensures
            r == self.spec_slot(),
    {
        ((self.0 >> 4) & 0xff) as u8
    }
}

/// Shader architecture version word.
#[derive(Clone, Copy, Debug, PartialEq, Eq, Hash, Structural)]
pub struct MaxwellSpaVersion(pub u32);

impl MaxwellSpaVersion {
    #[must_use]
    pub fn from_raw(raw: u32) -> (r: MaxwellSpaVersion)
        ensures
            r.0 == raw,
    {
        MaxwellSpaVersion(raw)
    }

    pub open spec fn spec_raw(self) -> u32 {
        self.0
    }

    #[must_use]
    #[verifier::when_used_as_spec(spec_raw)]
    pub fn raw(self) -> (r: u32)
        ensures
            r == self.0,
    {
        self.0
    }
}

/// One validated rasterization transition.
#[derive(Clone, Copy, Debug, PartialEq, Eq, Hash, Structural)]
#[allow(inconsistent_fields)]
pub enum MaxwellThreeDRasterStateWrite {
    AlphaFraction { value: MaxwellThreeDAlphaFraction, source: MaxwellMethodSource },
    RasterBoundingBox { value: MaxwellThreeDRasterBoundingBox, source: MaxwellMethodSource },
    PointSize { value: MaxwellThreeDPointSize, source: MaxwellMethodSource },
    PointSpriteSelect { value: MaxwellThreeDPointSpriteSelect, source: MaxwellMethodSource },
    PointCenterMode { value: MaxwellThreeDPointCenterMode, source: MaxwellMethodSource },
    EdgeFlag { value: MaxwellThreeDEdgeFlag, source: MaxwellMethodSource },
    ViewportZClip { value: MaxwellThreeDViewportZClipRange, source: MaxwellMethodSource },
    FillViaTriangle { value: MaxwellThreeDFillViaTriangleMode, source: MaxwellMethodSource },
    ConservativeRaster { value: MaxwellThreeDConservativeRasterEnable, source: MaxwellMethodSource },
    PolygonSmoothEnable { value: bool, source: MaxwellMethodSource },
    PolygonStippleEnable { value: bool, source: MaxwellMethodSource },
    PolygonStipplePattern { word: u8, value: u32, source: MaxwellMethodSource },
    ViewportPixelCenter { value: MaxwellThreeDViewportPixelCenter, source: MaxwellMethodSource },
    PointSpriteEnable { value: bool, source: MaxwellMethodSource },
    AntiAliasedPointEnable { value: bool, source: MaxwellMethodSource },
    AttributePointSize { value: MaxwellThreeDAttributePointSize, source: MaxwellMethodSource },
    SpaVersion { value: MaxwellSpaVersion, source: MaxwellMethodSource },
}

impl MaxwellThreeDRasterStateWrite {
    /// Array indices are in range.
    pub open spec fn wf(self) -> bool {
        match self {
            MaxwellThreeDRasterStateWrite::PolygonStipplePattern { word, .. } => word < 32,
            _ => true,
        }
    }
}

/// Point, polygon and viewport rasterization registers.
#[derive(Clone, Copy, Debug, PartialEq, Eq)]
pub struct MaxwellThreeDRasterState {
    pub alpha_fraction: MaxwellThreeDRegister<MaxwellThreeDAlphaFraction>,
    pub raster_bounding_box: MaxwellThreeDRegister<MaxwellThreeDRasterBoundingBox>,
    pub point_size: MaxwellThreeDRegister<MaxwellThreeDPointSize>,
    pub point_sprite_select: MaxwellThreeDRegister<MaxwellThreeDPointSpriteSelect>,
    pub point_center_mode: MaxwellThreeDRegister<MaxwellThreeDPointCenterMode>,
    pub edge_flag: MaxwellThreeDRegister<MaxwellThreeDEdgeFlag>,
    pub viewport_z_clip: MaxwellThreeDRegister<MaxwellThreeDViewportZClipRange>,
    pub fill_via_triangle: MaxwellThreeDRegister<MaxwellThreeDFillViaTriangleMode>,
    pub conservative_raster: MaxwellThreeDRegister<MaxwellThreeDConservativeRasterEnable>,
    pub polygon_smooth_enable: MaxwellThreeDRegister<bool>,
    pub polygon_stipple_enable: MaxwellThreeDRegister<bool>,
    pub polygon_stipple_pattern: [MaxwellThreeDRegister<u32>; 32],
    pub viewport_pixel_center: MaxwellThreeDRegister<MaxwellThreeDViewportPixelCenter>,
    pub point_sprite_enable: MaxwellThreeDRegister<bool>,
    pub anti_aliased_point_enable: MaxwellThreeDRegister<bool>,
    pub attribute_point_size: MaxwellThreeDRegister<MaxwellThreeDAttributePointSize>,
    pub spa_version: MaxwellThreeDRegister<MaxwellSpaVersion>,
}

impl MaxwellThreeDRasterState {
    /// State before any method is decoded.
    pub open spec fn initial(self) -> bool {
        &&& self.alpha_fraction == MaxwellThreeDRegister::<MaxwellThreeDAlphaFraction>::unset()
        &&& self.raster_bounding_box == MaxwellThreeDRegister::<MaxwellThreeDRasterBoundingBox>::unset()
        &&& self.point_size == MaxwellThreeDRegister::<MaxwellThreeDPointSize>::unset()
        &&& self.point_sprite_select == MaxwellThreeDRegister::<MaxwellThreeDPointSpriteSelect>::unset()
        &&& self.point_center_mode == MaxwellThreeDRegister::<MaxwellThreeDPointCenterMode>::unset()
        &&& self.edge_flag == MaxwellThreeDRegister::<MaxwellThreeDEdgeFlag>::unset()
        &&& self.viewport_z_clip == MaxwellThreeDRegister::<MaxwellThreeDViewportZClipRange>::unset()
        &&& self.fill_via_triangle == MaxwellThreeDRegister::<MaxwellThreeDFillViaTriangleMode>::unset()
        &&& self.conservative_raster == MaxwellThreeDRegister::<MaxwellThreeDConservativeRasterEnable>::unset()
        &&& self.polygon_smooth_enable == MaxwellThreeDRegister::<bool>::unset()
        &&& self.polygon_stipple_enable == MaxwellThreeDRegister::<bool>::unset()
        &&& forall|i: int| 0 <= i < 32 ==> self.polygon_stipple_pattern[i] == MaxwellThreeDRegister::<u32>::unset()
        &&& self.viewport_pixel_center == MaxwellThreeDRegister::<MaxwellThreeDViewportPixelCenter>::unset()
        &&& self.point_sprite_enable == MaxwellThreeDRegister::<bool>::unset()
        &&& self.anti_aliased_point_enable == MaxwellThreeDRegister::<bool>::unset()
        &&& self.attribute_point_size == MaxwellThreeDRegister::<MaxwellThreeDAttributePointSize>::unset()
        &&& self.spa_version == MaxwellThreeDRegister::<MaxwellSpaVersion>::unset()
    }

    /// State after one transition: the addressed register holds the written word,
    /// its value and its source, and every other register is unchanged.
    pub open spec fn written(self, write: MaxwellThreeDRasterStateWrite) -> MaxwellThreeDRasterState {
        match write {
            MaxwellThreeDRasterStateWrite::AlphaFraction { value, source } => MaxwellThreeDRasterState {
                alpha_fraction: MaxwellThreeDRegister::programmed(source.argument(), value, source),
                ..self
            },
            MaxwellThreeDRasterStateWrite::RasterBoundingBox { value, source } => MaxwellThreeDRasterState {
                raster_bounding_box: MaxwellThreeDRegister::programmed(source.argument(), value, source),
                ..self
            },
            MaxwellThreeDRasterStateWrite::PointSize { value, source } => MaxwellThreeDRasterState {
                point_size: MaxwellThreeDRegister::programmed(source.argument(), value, source),
                ..self
            },
            MaxwellThreeDRasterStateWrite::PointSpriteSelect { value, source } => MaxwellThreeDRasterState {
                point_sprite_select: MaxwellThreeDRegister::programmed(source.argument(), value, source),
                ..self
            },
            MaxwellThreeDRasterStateWrite::PointCenterMode { value, source } => MaxwellThreeDRasterState {
                point_center_mode: MaxwellThreeDRegister::programmed(source.argument(), value, source),
                ..self
            },
            MaxwellThreeDRasterStateWrite::EdgeFlag { value, source } => MaxwellThreeDRasterState {
                edge_flag: MaxwellThreeDRegister::programmed(source.argument(), value, source),
                ..self
            },
            MaxwellThreeDRasterStateWrite::ViewportZClip { value, source } => MaxwellThreeDRasterState {
                viewport_z_clip: MaxwellThreeDRegister::programmed(source.argument(), value, source),
                ..self
            },
            MaxwellThreeDRasterStateWrite::FillViaTriangle { value, source } => MaxwellThreeDRasterState {
                fill_via_triangle: MaxwellThreeDRegister::programmed(source.argument(), value, source),
                ..self
            },
            MaxwellThreeDRasterStateWrite::ConservativeRaster { value, source } => MaxwellThreeDRasterState {
                conservative_raster: MaxwellThreeDRegister::programmed(source.argument(), value, source),
                ..self
            },
            MaxwellThreeDRasterStateWrite::PolygonSmoothEnable { value, source } => MaxwellThreeDRasterState {
                polygon_smooth_enable: MaxwellThreeDRegister::programmed(source.argument(), value, source),
                ..self
            },
            MaxwellThreeDRasterStateWrite::PolygonStippleEnable { value, source } => MaxwellThreeDRasterState {
                polygon_stipple_enable: MaxwellThreeDRegister::programmed(source.argument(), value, source),
                ..self
            },
            MaxwellThreeDRasterStateWrite::PolygonStipplePattern { word, value, source } => MaxwellThreeDRasterState {
                polygon_stipple_pattern: vstd::array::spec_array_update(
                    self.polygon_stipple_pattern,
                    word as int,
                    MaxwellThreeDRegister::programmed(source.argument(), value, source),
                ),
                ..self
            },
            MaxwellThreeDRasterStateWrite::ViewportPixelCenter { value, source } => MaxwellThreeDRasterState {
                viewport_pixel_center: MaxwellThreeDRegister::programmed(source.argument(), value, source),
                ..self
            },
            MaxwellThreeDRasterStateWrite::PointSpriteEnable { value, source } => MaxwellThreeDRasterState {
                point_sprite_enable: MaxwellThreeDRegister::programmed(source.argument(), value, source),
                ..self
            },
            MaxwellThreeDRasterStateWrite::AntiAliasedPointEnable { value, source } => MaxwellThreeDRasterState {
                anti_aliased_point_enable: MaxwellThreeDRegister::programmed(source.argument(), value, source),
                ..self
            },
            MaxwellThreeDRasterStateWrite::AttributePointSize { value, source } => MaxwellThreeDRasterState {
                attribute_point_size: MaxwellThreeDRegister::programmed(source.argument(), value, source),
                ..self
            },
            MaxwellThreeDRasterStateWrite::SpaVersion { value, source } => MaxwellThreeDRasterState {
                spa_version: MaxwellThreeDRegister::programmed(source.argument(), value, source),
                ..self
            },
        }
    }

    #[must_use]
    pub fn alpha_fraction(&self) -> (r: &MaxwellThreeDRegister<MaxwellThreeDAlphaFraction>)
        ensures
            *r == self.alpha_fraction,
    {
        &self.alpha_fraction
    }

    #[must_use]
    pub fn raster_bounding_box(&self) -> (r: &MaxwellThreeDRegister<MaxwellThreeDRasterBoundingBox>)
        ensures
            *r == self.raster_bounding_box,
    {
        &self.raster_bounding_box
    }

    #[must_use]
    pub fn point_size(&self) -> (r: &MaxwellThreeDRegister<MaxwellThreeDPointSize>)
        ensures
            *r == self.point_size,
    {
        &self.point_size
    }

    #[must_use]
    pub fn point_sprite_select(&self) -> (r: &MaxwellThreeDRegister<MaxwellThreeDPointSpriteSelect>)
        ensures
            *r == self.point_sprite_select,
    {
        &self.point_sprite_select
    }

    #[must_use]
    pub fn point_center_mode(&self) -> (r: &MaxwellThreeDRegister<MaxwellThreeDPointCenterMode>)
        ensures
            *r == self.point_center_mode,
    {
        &self.point_center_mode
    }

    #[must_use]
    pub fn edge_flag(&self) -> (r: &MaxwellThreeDRegister<MaxwellThreeDEdgeFlag>)
        ensures
            *r == self.edge_flag,
    {
        &self.edge_flag
    }

    #[must_use]
    pub fn viewport_z_clip(&self) -> (r: &MaxwellThreeDRegister<MaxwellThreeDViewportZClipRange>)
        ensures
            *r == self.viewport_z_clip,
    {
        &self.viewport_z_clip
    }

    #[must_use]
    pub fn fill_via_triangle(&self) -> (r: &MaxwellThreeDRegister<MaxwellThreeDFillViaTriangleMode>)
        ensures
            *r == self.fill_via_triangle,
    {
        &self.fill_via_triangle
    }

    #[must_use]
    pub fn conservative_raster(&self) -> (r: &MaxwellThreeDRegister<MaxwellThreeDConservativeRasterEnable>)
        ensures
            *r == self.conservative_raster,
    {
        &self.conservative_raster
    }

    #[must_use]
    pub fn polygon_smooth_enable(&self) -> (r: &MaxwellThreeDRegister<bool>)
        ensures
            *r == self.polygon_smooth_enable,
    {
        &self.polygon_smooth_enable
    }

    #[must_use]
    pub fn polygon_stipple_enable(&self) -> (r: &MaxwellThreeDRegister<bool>)
        ensures
            *r == self.polygon_stipple_enable,
    {
        &self.polygon_stipple_enable
    }

    #[must_use]
    pub fn polygon_stipple_pattern(&self, word: u8) -> (r: &MaxwellThreeDRegister<u32>)
        requires
            word < 32,
        ensures
            *r == self.polygon_stipple_pattern[word as int],
    {
        &self.polygon_stipple_pattern[word as usize]
    }

    #[must_use]
    pub fn viewport_pixel_center(&self) -> (r: &MaxwellThreeDRegister<MaxwellThreeDViewportPixelCenter>)
        ensures
            *r == self.viewport_pixel_center,
    {
        &self.viewport_pixel_center
    }

    #[must_use]
    pub fn point_sprite_enable(&self) -> (r: &MaxwellThreeDRegister<bool>)
        ensures
            *r == self.point_sprite_enable,
    {
        &self.point_sprite_enable
    }

    #[must_use]
    pub fn anti_aliased_point_enable(&self) -> (r: &MaxwellThreeDRegister<bool>)
        ensures
            *r == self.anti_aliased_point_enable,
    {
        &self.anti_aliased_point_enable
    }

    #[must_use]
    pub fn attribute_point_size(&self) -> (r: &MaxwellThreeDRegister<MaxwellThreeDAttributePointSize>)
        ensures
            *r == self.attribute_point_size,
    {
        &self.attribute_point_size
    }

    #[must_use]
    pub fn spa_version(&self) -> (r: &MaxwellThreeDRegister<MaxwellSpaVersion>)
        ensures
            *r == self.spa_version,
    {
        &self.spa_version
    }

    /// State with every register unset.
    #[must_use]
    pub fn unprogrammed() -> (r: MaxwellThreeDRasterState)
        ensures
            r.initial(),
    {
        MaxwellThreeDRasterState {
            alpha_fraction: MaxwellThreeDRegister::unset(),
            raster_bounding_box: MaxwellThreeDRegister::unset(),
            point_size: MaxwellThreeDRegister::unset(),
            point_sprite_select: MaxwellThreeDRegister::unset(),
            point_center_mode: MaxwellThreeDRegister::unset(),
            edge_flag: MaxwellThreeDRegister::unset(),
            viewport_z_clip: MaxwellThreeDRegister::unset(),
            fill_via_triangle: MaxwellThreeDRegister::unset(),
            conservative_raster: MaxwellThreeDRegister::unset(),
            polygon_smooth_enable: MaxwellThreeDRegister::unset(),
            polygon_stipple_enable: MaxwellThreeDRegister::unset(),
            polygon_stipple_pattern: [
                MaxwellThreeDRegister::unset(),
                MaxwellThreeDRegister::unset(),
                MaxwellThreeDRegister::unset(),
                MaxwellThreeDRegister::unset(),
                MaxwellThreeDRegister::unset(),
                MaxwellThreeDRegister::unset(),
                MaxwellThreeDRegister::unset(),
                MaxwellThreeDRegister::unset(),
                MaxwellThreeDRegister::unset(),
                MaxwellThreeDRegister::unset(),
                MaxwellThreeDRegister::unset(),
                MaxwellThreeDRegister::unset(),
                MaxwellThreeDRegister::unset(),
                MaxwellThreeDRegister::unset(),
                MaxwellThreeDRegister::unset(),
                MaxwellThreeDRegister::unset(),
                MaxwellThreeDRegister::unset(),
                MaxwellThreeDRegister::unset(),
                MaxwellThreeDRegister::unset(),
                MaxwellThreeDRegister::unset(),
                MaxwellThreeDRegister::unset(),
                MaxwellThreeDRegister::unset(),
                MaxwellThreeDRegister::unset(),
                MaxwellThreeDRegister::unset(),
                MaxwellThreeDRegister::unset(),
                MaxwellThreeDRegister::unset(),
                MaxwellThreeDRegister::unset(),
                MaxwellThreeDRegister::unset(),
                MaxwellThreeDRegister::unset(),
                MaxwellThreeDRegister::unset(),
                MaxwellThreeDRegister::unset(),
                MaxwellThreeDRegister::unset(),
            ],
            viewport_pixel_center: MaxwellThreeDRegister::unset(),
            point_sprite_enable: MaxwellThreeDRegister::unset(),
            anti_aliased_point_enable: MaxwellThreeDRegister::unset(),
            attribute_point_size: MaxwellThreeDRegister::unset(),
            spa_version: MaxwellThreeDRegister::unset(),
        }
    }

    pub fn apply(&mut self, write: MaxwellThreeDRasterStateWrite)
        requires
            write.wf(),
        ensures
            *final(self) == old(self).written(write),
    {
        match write {
            MaxwellThreeDRasterStateWrite::AlphaFraction { value, source } => {
                self.alpha_fraction = MaxwellThreeDRegister::programmed(source.argument(), value, source);
            },
            MaxwellThreeDRasterStateWrite::RasterBoundingBox { value, source } => {
                self.raster_bounding_box = MaxwellThreeDRegister::programmed(source.argument(), value, source);
            },
            MaxwellThreeDRasterStateWrite::PointSize { value, source } => {
                self.point_size = MaxwellThreeDRegister::programmed(source.argument(), value, source);
            },
            MaxwellThreeDRasterStateWrite::PointSpriteSelect { value, source } => {
                self.point_sprite_select = MaxwellThreeDRegister::programmed(source.argument(), value, source);
            },
            MaxwellThreeDRasterStateWrite::PointCenterMode { value, source } => {
                self.point_center_mode = MaxwellThreeDRegister::programmed(source.argument(), value, source);
            },
            MaxwellThreeDRasterStateWrite::EdgeFlag { value, source } => {
                self.edge_flag = MaxwellThreeDRegister::programmed(source.argument(), value, source);
            },
            MaxwellThreeDRasterStateWrite::ViewportZClip { value, source } => {
                self.viewport_z_clip = MaxwellThreeDRegister::programmed(source.argument(), value, source);
            },
            MaxwellThreeDRasterStateWrite::FillViaTriangle { value, source } => {
                self.fill_via_triangle = MaxwellThreeDRegister::programmed(source.argument(), value, source);
            },
            MaxwellThreeDRasterStateWrite::ConservativeRaster { value, source } => {
                self.conservative_raster = MaxwellThreeDRegister::programmed(source.argument(), value, source);
            },
            MaxwellThreeDRasterStateWrite::PolygonSmoothEnable { value, source } => {
                self.polygon_smooth_enable = MaxwellThreeDRegister::programmed(source.argument(), value, source);
            },
            MaxwellThreeDRasterStateWrite::PolygonStippleEnable { value, source } => {
                self.polygon_stipple_enable = MaxwellThreeDRegister::programmed(source.argument(), value, source);
            },
            MaxwellThreeDRasterStateWrite::PolygonStipplePattern { word, value, source } => {
                self.polygon_stipple_pattern[word as usize] = MaxwellThreeDRegister::programmed(source.argument(), value, source);
            },
            MaxwellThreeDRasterStateWrite::ViewportPixelCenter { value, source } => {
                self.viewport_pixel_center = MaxwellThreeDRegister::programmed(source.argument(), value, source);
            },
            MaxwellThreeDRasterStateWrite::PointSpriteEnable { value, source } => {
                self.point_sprite_enable = MaxwellThreeDRegister::programmed(source.argument(), value, source);
            },
            MaxwellThreeDRasterStateWrite::AntiAliasedPointEnable { value, source } => {
                self.anti_aliased_point_enable = MaxwellThreeDRegister::programmed(source.argument(), value, source);
            },
            MaxwellThreeDRasterStateWrite::AttributePointSize { value, source } => {
                self.attribute_point_size = MaxwellThreeDRegister::programmed(source.argument(), value, source);
            },
            MaxwellThreeDRasterStateWrite::SpaVersion { value, source } => {
                self.spa_version = MaxwellThreeDRegister::programmed(source.argument(), value, source);
            },
        }
    }
}

impl Default for MaxwellThreeDRasterState {
    fn default() -> (r: MaxwellThreeDRasterState)
        ensures
            r.initial(),
    {
        MaxwellThreeDRasterState::unprogrammed()
    }
}

} // verus!
