//! Coverage-sampling configuration.
//!
//! Coverage-sampled antialiasing is modeled independently of ordinary multisample
//! state.

use vstd::prelude::*;
use crate::register::{bool_word, MaxwellMethodSource, MaxwellThreeDRegister};

verus! {

/// Whether the post-depth-test pixel-shader invocation mask is enabled.
#[derive(Clone, Copy, Debug, PartialEq, Eq, Hash, Structural)]
pub enum MaxwellThreeDPostZPixelShaderImask {
    Disabled,
    Enabled,
}

impl MaxwellThreeDPostZPixelShaderImask {
    /// Field encoding of each value.
    pub open spec fn spec_raw(self) -> u32 {
        match self {
            MaxwellThreeDPostZPixelShaderImask::Disabled => 0,
            MaxwellThreeDPostZPixelShaderImask::Enabled => 1,
        }
    }

    /// Value of each defined encoding.
    pub open spec fn spec_parse(raw: u32) -> Option<MaxwellThreeDPostZPixelShaderImask> {
        if raw == 0 {
            Some(MaxwellThreeDPostZPixelShaderImask::Disabled)
        } else if raw == 1 {
            Some(MaxwellThreeDPostZPixelShaderImask::Enabled)
        } else {
            None
        }
    }

    #[verifier::when_used_as_spec(spec_parse)]
    pub fn parse(raw: u32) -> (r: Option<MaxwellThreeDPostZPixelShaderImask>)
        ensures
            r == MaxwellThreeDPostZPixelShaderImask::spec_parse(raw),
    {
        match raw {
            0 => Some(MaxwellThreeDPostZPixelShaderImask::Disabled),
            1 => Some(MaxwellThreeDPostZPixelShaderImask::Enabled),
            _ => None,
        }
    }

    #[must_use]
    #[verifier::when_used_as_spec(spec_raw)]
    pub fn raw(self) -> (r: u32)
        ensures
            r == self.spec_raw(),
    {
        match self {
            MaxwellThreeDPostZPixelShaderImask::Disabled => 0,
            MaxwellThreeDPostZPixelShaderImask::Enabled => 1,
        }
    }

    /// Decoding and encoding are inverse: a word decodes to a value exactly
    /// when it is the encoding of that value.
    pub proof fn law_codec(raw: u32, value: MaxwellThreeDPostZPixelShaderImask)
        ensures
            MaxwellThreeDPostZPixelShaderImask::spec_parse(raw) == Some(value) <==> value.spec_raw() == raw,
    {
    }
}

/// Target-independent rasterization mode.
#[derive(Clone, Copy, Debug, PartialEq, Eq, Hash, Structural)]
pub enum MaxwellThreeDTirMode {
    Disabled,
    RasterNTargetM,
}

impl MaxwellThreeDTirMode {
    /// Field encoding of each value.
    pub open spec fn spec_raw(self) -> u32 {
        match self {
            MaxwellThreeDTirMode::Disabled => 0,
            MaxwellThreeDTirMode::RasterNTargetM => 1,
        }
    }

    /// Value of each defined encoding.
    pub open spec fn spec_parse(raw: u32) -> Option<MaxwellThreeDTirMode> {
        if raw == 0 {
            Some(MaxwellThreeDTirMode::Disabled)
        } else if raw == 1 {
            Some(MaxwellThreeDTirMode::RasterNTargetM)
        } else {
            None
        }
    }

    #[verifier::when_used_as_spec(spec_parse)]
    pub fn parse(raw: u32) -> (r: Option<MaxwellThreeDTirMode>)
        ensures
            r == MaxwellThreeDTirMode::spec_parse(raw),
    {
        match raw {
            0 => Some(MaxwellThreeDTirMode::Disabled),
            1 => Some(MaxwellThreeDTirMode::RasterNTargetM),
            _ => None,
        }
    }

    #[must_use]
    #[verifier::when_used_as_spec(spec_raw)]
    pub fn raw(self) -> (r: u32)
        ensures
            r == self.spec_raw(),
    {
        match self {
            MaxwellThreeDTirMode::Disabled => 0,
            MaxwellThreeDTirMode::RasterNTargetM => 1,
        }
    }

    /// Decoding and encoding are inverse: a word decodes to a value exactly
    /// when it is the encoding of that value.
    pub proof fn law_codec(raw: u32, value: MaxwellThreeDTirMode)
        ensures
            MaxwellThreeDTirMode::spec_parse(raw) == Some(value) <==> value.spec_raw() == raw,
    {
    }
}

/// Color components affected by target-independent raster modulation.
#[derive(Clone, Copy, Debug, PartialEq, Eq, Hash, Structural)]
pub enum MaxwellThreeDTirModulationComponentSelect {
    NoModulation,
    ModulateRgb,
    ModulateAlphaOnly,
    ModulateRgba,
}

impl MaxwellThreeDTirModulationComponentSelect {
    /// Field encoding of each value.
    pub open spec fn spec_raw(self) -> u32 {
        match self {
            MaxwellThreeDTirModulationComponentSelect::NoModulation => 0,
            MaxwellThreeDTirModulationComponentSelect::ModulateRgb => 1,
            MaxwellThreeDTirModulationComponentSelect::ModulateAlphaOnly => 2,
            MaxwellThreeDTirModulationComponentSelect::ModulateRgba => 3,
        }
    }

    /// Value of each defined encoding.
    pub open spec fn spec_parse(raw: u32) -> Option<MaxwellThreeDTirModulationComponentSelect> {
        if raw == 0 {
            Some(MaxwellThreeDTirModulationComponentSelect::NoModulation)
        } else if raw == 1 {
            Some(MaxwellThreeDTirModulationComponentSelect::ModulateRgb)
        } else if raw == 2 {
            Some(MaxwellThreeDTirModulationComponentSelect::ModulateAlphaOnly)
        } else if raw == 3 {
            Some(MaxwellThreeDTirModulationComponentSelect::ModulateRgba)
        } else {
            None
        }
    }

    #[verifier::when_used_as_spec(spec_parse)]
    pub fn parse(raw: u32) -> (r: Option<MaxwellThreeDTirModulationComponentSelect>)
        ensures
            r == MaxwellThreeDTirModulationComponentSelect::spec_parse(raw),
    {
        match raw {
            0 => Some(MaxwellThreeDTirModulationComponentSelect::NoModulation),
            1 => Some(MaxwellThreeDTirModulationComponentSelect::ModulateRgb),
            2 => Some(MaxwellThreeDTirModulationComponentSelect::ModulateAlphaOnly),
            3 => Some(MaxwellThreeDTirModulationComponentSelect::ModulateRgba),
            _ => None,
        }
    }

    #[must_use]
    #[verifier::when_used_as_spec(spec_raw)]
    pub fn raw(self) -> (r: u32)
        ensures
            r == self.spec_raw(),
    {
        match self {
            MaxwellThreeDTirModulationComponentSelect::NoModulation => 0,
            MaxwellThreeDTirModulationComponentSelect::ModulateRgb => 1,
            MaxwellThreeDTirModulationComponentSelect::ModulateAlphaOnly => 2,
            MaxwellThreeDTirModulationComponentSelect::ModulateRgba => 3,
        }
    }

    /// Decoding and encoding are inverse: a word decodes to a value exactly
    /// when it is the encoding of that value.
    pub proof fn law_codec(raw: u32, value: MaxwellThreeDTirModulationComponentSelect)
        ensures
            MaxwellThreeDTirModulationComponentSelect::spec_parse(raw) == Some(value) <==> value.spec_raw() == raw,
    {
    }
}

/// Function used to obtain the modulation factor.
#[derive(Clone, Copy, Debug, PartialEq, Eq, Hash, Structural)]
pub enum MaxwellThreeDTirModulationFunction {
    Linear,
    Table,
}

impl MaxwellThreeDTirModulationFunction {
    /// Field encoding of each value.
    pub open spec fn spec_raw(self) -> u32 {
        match self {
            MaxwellThreeDTirModulationFunction::Linear => 0,
            MaxwellThreeDTirModulationFunction::Table => 1,
        }
    }

    /// Value of each defined encoding.
    pub open spec fn spec_parse(raw: u32) -> Option<MaxwellThreeDTirModulationFunction> {
        if raw == 0 {
            Some(MaxwellThreeDTirModulationFunction::Linear)
        } else if raw == 1 {
            Some(MaxwellThreeDTirModulationFunction::Table)
        } else {
            None
        }
    }

    #[verifier::when_used_as_spec(spec_parse)]
    pub fn parse(raw: u32) -> (r: Option<MaxwellThreeDTirModulationFunction>)
        ensures
            r == MaxwellThreeDTirModulationFunction::spec_parse(raw),
    {
        match raw {
            0 => Some(MaxwellThreeDTirModulationFunction::Linear),
            1 => Some(MaxwellThreeDTirModulationFunction::Table),
            _ => None,
        }
    }

    #[must_use]
    #[verifier::when_used_as_spec(spec_raw)]
    pub fn raw(self) -> (r: u32)
        ensures
            r == self.spec_raw(),
    {
        match self {
            MaxwellThreeDTirModulationFunction::Linear => 0,
            MaxwellThreeDTirModulationFunction::Table => 1,
        }
    }

    /// Decoding and encoding are inverse: a word decodes to a value exactly
    /// when it is the encoding of that value.
    pub proof fn law_codec(raw: u32, value: MaxwellThreeDTirModulationFunction)
        ensures
            MaxwellThreeDTirModulationFunction::spec_parse(raw) == Some(value) <==> value.spec_raw() == raw,
    {
    }
}

/// Coverage and query policy of target-independent rasterization.
#[derive(Clone, Copy, Debug, PartialEq, Eq, Hash, Structural)]
pub struct MaxwellThreeDTirControl {
    pub z_pass_pixel_count_uses_raster_samples: bool,
    pub reduce_coverage: bool,
    pub alpha_to_coverage_uses_raster_samples: bool,
}

impl MaxwellThreeDTirControl {
    pub open spec fn spec_parse(raw: u32) -> Option<MaxwellThreeDTirControl> {
        if raw & !0x13u32 != 0 {
            None
        } else {
            Some(
                MaxwellThreeDTirControl {
                    z_pass_pixel_count_uses_raster_samples: raw & 0x1 != 0,
                    reduce_coverage: raw & 0x2 != 0,
                    alpha_to_coverage_uses_raster_samples: raw & 0x10 != 0,
                },
            )
        }
    }

    pub open spec fn spec_raw(self) -> u32 {
        bool_word(self.z_pass_pixel_count_uses_raster_samples) | (bool_word(self.reduce_coverage) << 1u32) | (bool_word(self.alpha_to_coverage_uses_raster_samples) << 4u32)
    }

    #[verifier::when_used_as_spec(spec_parse)]
    pub fn parse(raw: u32) -> (r: Option<MaxwellThreeDTirControl>)
        ensures
            r == MaxwellThreeDTirControl::spec_parse(raw),
    {
        if raw & !0x13u32 != 0 {
            None
        } else {
            Some(
                MaxwellThreeDTirControl {
                    z_pass_pixel_count_uses_raster_samples: raw & 0x1 != 0,
                    reduce_coverage: raw & 0x2 != 0,
                    alpha_to_coverage_uses_raster_samples: raw & 0x10 != 0,
                },
            )
        }
    }

    #[must_use]
    pub fn z_pass_pixel_count_uses_raster_samples(self) -> (r: bool)
        ensures
            r == self.z_pass_pixel_count_uses_raster_samples,
    {
        self.z_pass_pixel_count_uses_raster_samples
    }

    #[must_use]
    pub fn reduce_coverage(self) -> (r: bool)
        ensures
            r == self.reduce_coverage,
    {
        self.reduce_coverage
    }

    #[must_use]
    pub fn alpha_to_coverage_uses_raster_samples(self) -> (r: bool)
        ensures
            r == self.alpha_to_coverage_uses_raster_samples,
    {
        self.alpha_to_coverage_uses_raster_samples
    }

    #[must_use]
    #[verifier::when_used_as_spec(spec_raw)]
    pub fn raw(self) -> (r: u32)
        ensures
            r == self.spec_raw(),
    {
        bool_word(self.z_pass_pixel_count_uses_raster_samples) | (bool_word(self.reduce_coverage) << 1u32) | (bool_word(self.alpha_to_coverage_uses_raster_samples) << 4u32)
    }

    /// Decoding and encoding are inverse.
    pub proof fn law_codec(raw: u32, value: MaxwellThreeDTirControl)
        ensures
            MaxwellThreeDTirControl::spec_parse(raw) matches Some(parsed) ==> parsed.spec_raw() == raw,
            MaxwellThreeDTirControl::spec_parse(value.spec_raw()) == Some(value),
    {
        let f0 = bool_word(value.z_pass_pixel_count_uses_raster_samples);
        let f1 = bool_word(value.reduce_coverage);
        let f2 = bool_word(value.alpha_to_coverage_uses_raster_samples);
        let word = f0 | (f1 << 1u32) | (f2 << 4u32);
        assert({
            &&& word & !0x13u32 == 0
            &&& (word & 0x1 != 0) == (f0 == 1)
            &&& (word & 0x2 != 0) == (f1 == 1)
            &&& (word & 0x10 != 0) == (f2 == 1)
        }) by (bit_vector)
            requires
                f0 <= 1,
                f1 <= 1,
                f2 <= 1,
                word == f0 | (f1 << 1u32) | (f2 << 4u32),
        ;
        assert({
            &&& raw & !0x13u32 == 0 ==> ((if raw & 0x1 != 0 { 1u32 } else { 0u32 }) | ((if raw & 0x2 != 0 { 1u32 } else { 0u32 }) << 1u32) | ((if raw & 0x10 != 0 { 1u32 } else { 0u32 }) << 4u32)) == raw
        }) by (bit_vector);
    }
}

/// Routes the final coverage value to one color target.
#[derive(Clone, Copy, Debug, PartialEq, Eq, Hash, Structural)]
pub struct MaxwellThreeDCoverageToColor {
    pub enabled: bool,
    pub color_target: u8,
}

impl MaxwellThreeDCoverageToColor {
    /// Numeric fields fit their widths.
    pub open spec fn wf(self) -> bool {
        &&& self.color_target <= 0x7
    }

    pub open spec fn spec_parse(raw: u32) -> Option<MaxwellThreeDCoverageToColor> {
        if raw & !0x71u32 != 0 {
            None
        } else {
            Some(
                MaxwellThreeDCoverageToColor {
                    enabled: raw & 0x1 != 0,
                    color_target: ((raw >> 4) & 0x7) as u8,
                },
            )
        }
    }

    pub open spec fn spec_raw(self) -> u32 {
        bool_word(self.enabled) | ((self.color_target as u32) << 4u32)
    }

    #[verifier::when_used_as_spec(spec_parse)]
    pub fn parse(raw: u32) -> (r: Option<MaxwellThreeDCoverageToColor>)
        ensures
            r == MaxwellThreeDCoverageToColor::spec_parse(raw),
    {
        if raw & !0x71u32 != 0 {
            None
        } else {
            Some(
                MaxwellThreeDCoverageToColor {
                    enabled: raw & 0x1 != 0,
                    color_target: ((raw >> 4) & 0x7) as u8,
                },
            )
        }
    }

    #[must_use]
    pub fn enabled(self) -> (r: bool)
        ensures
            r == self.enabled,
    {
        self.enabled
    }

    #[must_use]
    pub fn color_target(self) -> (r: u8)
        ensures
            r == self.color_target,
    {
        self.color_target
    }

    #[must_use]
    #[verifier::when_used_as_spec(spec_raw)]
    pub fn raw(self) -> (r: u32)
        ensures
            r == self.spec_raw(),
    {
        bool_word(self.enabled) | ((self.color_target as u32) << 4u32)
    }

    /// Decoding and encoding are inverse.
    pub proof fn law_codec(raw: u32, value: MaxwellThreeDCoverageToColor)
        ensures
            MaxwellThreeDCoverageToColor::spec_parse(raw) matches Some(parsed) ==> parsed.spec_raw() == raw && parsed.wf(),
            value.wf() ==> MaxwellThreeDCoverageToColor::spec_parse(value.spec_raw()) == Some(value),
    {
        let f0 = bool_word(value.enabled);
        let f1 = value.color_target;
        if value.wf() {
        let word = f0 | ((f1 as u32) << 4u32);
        assert({
            &&& word & !0x71u32 == 0
            &&& (word & 0x1 != 0) == (f0 == 1)
            &&& ((word >> 4) & 0x7) as u8 == f1
        }) by (bit_vector)
            requires
                f0 <= 1,
                f1 <= 0x7,
                word == f0 | ((f1 as u32) << 4u32),
        ;
        }
        assert({
            &&& raw & !0x71u32 == 0 ==> ((if raw & 0x1 != 0 { 1u32 } else { 0u32 }) | (((((raw >> 4) & 0x7) as u8) as u32) << 4u32)) == raw
            &&& ((raw >> 4) & 0x7) as u8 <= 0x7
        }) by (bit_vector);
    }
}

/// Qualification policy of the alpha-to-coverage override.
#[derive(Clone, Copy, Debug, PartialEq, Eq, Hash, Structural)]
pub struct MaxwellThreeDAlphaToCoverageOverride {
    pub qualify_by_anti_alias_enable: bool,
    pub qualify_by_pixel_shader_sample_mask: bool,
}

impl MaxwellThreeDAlphaToCoverageOverride {
    pub open spec fn spec_parse(raw: u32) -> Option<MaxwellThreeDAlphaToCoverageOverride> {
        if raw & !0x3u32 != 0 {
            None
        } else {
            Some(
                MaxwellThreeDAlphaToCoverageOverride {
                    qualify_by_anti_alias_enable: raw & 0x1 != 0,
                    qualify_by_pixel_shader_sample_mask: raw & 0x2 != 0,
                },
            )
        }
    }

    pub open spec fn spec_raw(self) -> u32 {
        bool_word(self.qualify_by_anti_alias_enable) | (bool_word(self.qualify_by_pixel_shader_sample_mask) << 1u32)
    }

    #[verifier::when_used_as_spec(spec_parse)]
    pub fn parse(raw: u32) -> (r: Option<MaxwellThreeDAlphaToCoverageOverride>)
        ensures
            r == MaxwellThreeDAlphaToCoverageOverride::spec_parse(raw),
    {
        if raw & !0x3u32 != 0 {
            None
        } else {
            Some(
                MaxwellThreeDAlphaToCoverageOverride {
                    qualify_by_anti_alias_enable: raw & 0x1 != 0,
                    qualify_by_pixel_shader_sample_mask: raw & 0x2 != 0,
                },
            )
        }
    }

    #[must_use]
    pub fn qualify_by_anti_alias_enable(self) -> (r: bool)
        ensures
            r == self.qualify_by_anti_alias_enable,
    {
        self.qualify_by_anti_alias_enable
    }

    #[must_use]
    pub fn qualify_by_pixel_shader_sample_mask(self) -> (r: bool)
        ensures
            r == self.qualify_by_pixel_shader_sample_mask,
    {
        self.qualify_by_pixel_shader_sample_mask
    }

    #[must_use]
    #[verifier::when_used_as_spec(spec_raw)]
    pub fn raw(self) -> (r: u32)
        ensures
            r == self.spec_raw(),
    {
        bool_word(self.qualify_by_anti_alias_enable) | (bool_word(self.qualify_by_pixel_shader_sample_mask) << 1u32)
    }

    /// Decoding and encoding are inverse.
    pub proof fn law_codec(raw: u32, value: MaxwellThreeDAlphaToCoverageOverride)
        ensures
            MaxwellThreeDAlphaToCoverageOverride::spec_parse(raw) matches Some(parsed) ==> parsed.spec_raw() == raw,
            MaxwellThreeDAlphaToCoverageOverride::spec_parse(value.spec_raw()) == Some(value),
    {
        let f0 = bool_word(value.qualify_by_anti_alias_enable);
        let f1 = bool_word(value.qualify_by_pixel_shader_sample_mask);
        let word = f0 | (f1 << 1u32);
        assert({
            &&& word & !0x3u32 == 0
            &&& (word & 0x1 != 0) == (f0 == 1)
            &&& (word & 0x2 != 0) == (f1 == 1)
        }) by (bit_vector)
            requires
                f0 <= 1,
                f1 <= 1,
                word == f0 | (f1 << 1u32),
        ;
        assert({
            &&& raw & !0x3u32 == 0 ==> ((if raw & 0x1 != 0 { 1u32 } else { 0u32 }) | ((if raw & 0x2 != 0 { 1u32 } else { 0u32 }) << 1u32)) == raw
        }) by (bit_vector);
    }
}

pub const MAXWELL_SAMPLE_LOCATION_GROUP_COUNT: usize = 4;

pub const MAXWELL_SAMPLE_LOCATIONS_PER_GROUP: usize = 4;

/// One four-bit sample coordinate pair.
#[derive(Clone, Copy, Debug, PartialEq, Eq, Hash, Structural)]
pub struct MaxwellThreeDSampleLocation {
    pub x: u8,
    pub y: u8,
}

impl MaxwellThreeDSampleLocation {
    pub open spec fn wf(self) -> bool {
        self.x < 16 && self.y < 16
    }

    /// Location held in the low byte of a shifted group word.
    pub open spec fn unpacked(raw: u32, shift: u32) -> MaxwellThreeDSampleLocation {
        MaxwellThreeDSampleLocation {
            x: ((raw >> shift) & 0xf) as u8,
            y: ((raw >> (shift + 4) as u32) & 0xf) as u8,
        }
    }

    #[must_use]
    pub fn x(self) -> (r: u8)
        ensures
            r == self.x,
    {
        self.x
    }

    #[must_use]
    pub fn y(self) -> (r: u8)
        ensures
            r == self.y,
    {
        self.y
    }

    pub open spec fn spec_is_centered(self) -> bool {
        self.x == 8 && self.y == 8
    }

    #[must_use]
    #[verifier::when_used_as_spec(spec_is_centered)]
    pub fn is_centered(self) -> (r: bool)
        ensures
            r == self.spec_is_centered(),
    {
        self.x == 8 && self.y == 8
    }
}

/// Four sample locations packed into one register, eight bits each.
#[derive(Clone, Copy, Debug, PartialEq, Eq, Hash)]
pub struct MaxwellThreeDSampleLocationGroup {
    pub locations: [MaxwellThreeDSampleLocation; 4],
}

impl MaxwellThreeDSampleLocationGroup {
    pub open spec fn wf(self) -> bool {
        forall|i: int| 0 <= i < 4 ==> #[trigger] self.locations[i].wf()
    }

    pub open spec fn spec_raw(self) -> u32 {
        (self.locations[0].x as u32) | ((self.locations[0].y as u32) << 4u32) | (
        (self.locations[1].x as u32) << 8u32) | ((self.locations[1].y as u32) << 12u32) | (
        (self.locations[2].x as u32) << 16u32) | ((self.locations[2].y as u32) << 20u32) | (
        (self.locations[3].x as u32) << 24u32) | ((self.locations[3].y as u32) << 28u32)
    }

    pub open spec fn spec_parse(raw: u32) -> MaxwellThreeDSampleLocationGroup {
        MaxwellThreeDSampleLocationGroup {
            locations: [
                MaxwellThreeDSampleLocation::unpacked(raw, 0),
                MaxwellThreeDSampleLocation::unpacked(raw, 8),
                MaxwellThreeDSampleLocation::unpacked(raw, 16),
                MaxwellThreeDSampleLocation::unpacked(raw, 24),
            ],
        }
    }

    #[verifier::when_used_as_spec(spec_parse)]
    pub fn parse(raw: u32) -> (r: MaxwellThreeDSampleLocationGroup)
        ensures
            r == MaxwellThreeDSampleLocationGroup::spec_parse(raw),
            forall|i: int|
                0 <= i < 4 ==> #[trigger] r.locations[i] == MaxwellThreeDSampleLocation::unpacked(
                    raw,
                    (i * 8) as u32,
                ),
    {
        MaxwellThreeDSampleLocationGroup {
            locations: [
                MaxwellThreeDSampleLocation {
                    x: ((raw >> 0u32) & 0xf) as u8,
                    y: ((raw >> 4u32) & 0xf) as u8,
                },
                MaxwellThreeDSampleLocation {
                    x: ((raw >> 8u32) & 0xf) as u8,
                    y: ((raw >> 12u32) & 0xf) as u8,
                },
                MaxwellThreeDSampleLocation {
                    x: ((raw >> 16u32) & 0xf) as u8,
                    y: ((raw >> 20u32) & 0xf) as u8,
                },
                MaxwellThreeDSampleLocation {
                    x: ((raw >> 24u32) & 0xf) as u8,
                    y: ((raw >> 28u32) & 0xf) as u8,
                },
            ],
        }
    }

    #[must_use]
    pub fn locations(&self) -> (r: &[MaxwellThreeDSampleLocation; 4])
        ensures
            *r == self.locations,
    {
        &self.locations
    }

    #[must_use]
    #[verifier::when_used_as_spec(spec_raw)]
    pub fn raw(self) -> (r: u32)
        ensures
            r == self.spec_raw(),
    {
        (self.locations[0].x as u32) | ((self.locations[0].y as u32) << 4u32) | (
        (self.locations[1].x as u32) << 8u32) | ((self.locations[1].y as u32) << 12u32) | (
        (self.locations[2].x as u32) << 16u32) | ((self.locations[2].y as u32) << 20u32) | (
        (self.locations[3].x as u32) << 24u32) | ((self.locations[3].y as u32) << 28u32)
    }

    /// Every location is the pixel center.
    pub open spec fn centered(self) -> bool {
        forall|i: int| 0 <= i < 4 ==> #[trigger] self.locations[i].spec_is_centered()
    }

    #[must_use]
    pub fn is_centered(self) -> (r: bool)
        ensures
            r == self.centered(),
    {
        self.locations[0].is_centered() && self.locations[1].is_centered()
            && self.locations[2].is_centered() && self.locations[3].is_centered()
    }

    /// Every word unpacks to eight nibbles that repack to the same word, and
    /// every well-formed group survives packing.
    pub proof fn law_codec(raw: u32, value: MaxwellThreeDSampleLocationGroup)
        requires
            forall|i: int|
                0 <= i < 4 ==> #[trigger] value.locations[i]
                    == MaxwellThreeDSampleLocation::unpacked(raw, (i * 8) as u32),
        ensures
            value.wf(),
            value.spec_raw() == raw,
    {
        assert forall|i: int| 0 <= i < 4 implies #[trigger] value.locations[i].wf() by {
            let shift = (i * 8) as u32;
            let upper = (shift + 4) as u32;
            assert(((raw >> shift) & 0xf) as u8 <= 0xf && ((raw >> upper) & 0xf) as u8 <= 0xf)
                by (bit_vector);
        }
        assert(value.locations[0] == MaxwellThreeDSampleLocation::unpacked(raw, 0));
        assert(value.locations[1] == MaxwellThreeDSampleLocation::unpacked(raw, 8));
        assert(value.locations[2] == MaxwellThreeDSampleLocation::unpacked(raw, 16));
        assert(value.locations[3] == MaxwellThreeDSampleLocation::unpacked(raw, 24));
        assert((((raw >> 0u32) & 0xf) as u8 as u32) | ((((raw >> 4u32) & 0xf) as u8 as u32) << 4u32)
            | ((((raw >> 8u32) & 0xf) as u8 as u32) << 8u32) | ((((raw >> 12u32) & 0xf) as u8
            as u32) << 12u32) | ((((raw >> 16u32) & 0xf) as u8 as u32) << 16u32) | ((((raw
            >> 20u32) & 0xf) as u8 as u32) << 20u32) | ((((raw >> 24u32) & 0xf) as u8 as u32)
            << 24u32) | ((((raw >> 28u32) & 0xf) as u8 as u32) << 28u32) == raw) by (bit_vector);
    }
}

/// Where the centroid is evaluated for hybrid antialiasing passes.
#[derive(Clone, Copy, Debug, PartialEq, Eq, Hash, Structural)]
pub enum MaxwellThreeDHybridAntiAliasCentroid {
    PerFragment,
    PerPass,
}

impl MaxwellThreeDHybridAntiAliasCentroid {
    pub open spec fn spec_raw(self) -> u32 {
        match self {
            MaxwellThreeDHybridAntiAliasCentroid::PerFragment => 0,
            MaxwellThreeDHybridAntiAliasCentroid::PerPass => 1,
        }
    }

    #[must_use]
    #[verifier::when_used_as_spec(spec_raw)]
    pub fn raw(self) -> (r: u32)
        ensures
            r == self.spec_raw(),
    {
        match self {
            MaxwellThreeDHybridAntiAliasCentroid::PerFragment => 0,
            MaxwellThreeDHybridAntiAliasCentroid::PerPass => 1,
        }
    }
}

/// Hybrid antialiasing pass count and centroid placement.
#[derive(Clone, Copy, Debug, PartialEq, Eq, Hash, Structural)]
pub struct MaxwellThreeDHybridAntiAliasControl {
    pub passes: u8,
    pub centroid: MaxwellThreeDHybridAntiAliasCentroid,
    pub passes_extended: bool,
}

impl MaxwellThreeDHybridAntiAliasControl {
    /// Numeric fields fit their widths.
    pub open spec fn wf(self) -> bool {
        &&& self.passes <= 0xf
    }

    pub open spec fn spec_parse(raw: u32) -> Option<MaxwellThreeDHybridAntiAliasControl> {
        if raw & !0x3fu32 != 0 {
            None
        } else {
            Some(
                MaxwellThreeDHybridAntiAliasControl {
                    passes: (raw & 0xf) as u8,
                    centroid: if raw & 0x10 == 0 {
                        MaxwellThreeDHybridAntiAliasCentroid::PerFragment
                    } else {
                        MaxwellThreeDHybridAntiAliasCentroid::PerPass
                    },
                    passes_extended: raw & 0x20 != 0,
                },
            )
        }
    }

    pub open spec fn spec_raw(self) -> u32 {
        (self.passes as u32) | (self.centroid.raw() << 4u32) | (bool_word(self.passes_extended) << 5u32)
    }

    #[verifier::when_used_as_spec(spec_parse)]
    pub fn parse(raw: u32) -> (r: Option<MaxwellThreeDHybridAntiAliasControl>)
        ensures
            r == MaxwellThreeDHybridAntiAliasControl::spec_parse(raw),
    {
        if raw & !0x3fu32 != 0 {
            None
        } else {
            Some(
                MaxwellThreeDHybridAntiAliasControl {
                    passes: (raw & 0xf) as u8,
                    centroid: if raw & 0x10 == 0 {
                        MaxwellThreeDHybridAntiAliasCentroid::PerFragment
                    } else {
                        MaxwellThreeDHybridAntiAliasCentroid::PerPass
                    },
                    passes_extended: raw & 0x20 != 0,
                },
            )
        }
    }

    #[must_use]
    pub fn passes(self) -> (r: u8)
        ensures
            r == self.passes,
    {
        self.passes
    }

    #[must_use]
    pub fn centroid(self) -> (r: MaxwellThreeDHybridAntiAliasCentroid)
        ensures
            r == self.centroid,
    {
        self.centroid
    }

    #[must_use]
    pub fn passes_extended(self) -> (r: bool)
        ensures
            r == self.passes_extended,
    {
        self.passes_extended
    }

    #[must_use]
    #[verifier::when_used_as_spec(spec_raw)]
    pub fn raw(self) -> (r: u32)
        ensures
            r == self.spec_raw(),
    {
        (self.passes as u32) | (self.centroid.raw() << 4u32) | (bool_word(self.passes_extended) << 5u32)
    }

    /// Whether the configuration adds no coverage pass and no per-pass centroid
    /// beyond ordinary per-fragment sampling.
    pub open spec fn spec_is_single_pass_per_fragment(self) -> bool {
        self.passes == 1 && self.centroid == MaxwellThreeDHybridAntiAliasCentroid::PerFragment
            && !self.passes_extended
    }

    #[must_use]
    #[verifier::when_used_as_spec(spec_is_single_pass_per_fragment)]
    pub fn is_single_pass_per_fragment(self) -> (r: bool)
        ensures
            r == self.spec_is_single_pass_per_fragment(),
    {
        self.passes == 1 && matches!(
            self.centroid,
            MaxwellThreeDHybridAntiAliasCentroid::PerFragment
        ) && !self.passes_extended
    }

    /// Decoding and encoding are inverse.
    pub proof fn law_codec(raw: u32, value: MaxwellThreeDHybridAntiAliasControl)
        ensures
            MaxwellThreeDHybridAntiAliasControl::spec_parse(raw) matches Some(parsed) ==> parsed.spec_raw() == raw && parsed.wf(),
            value.wf() ==> MaxwellThreeDHybridAntiAliasControl::spec_parse(value.spec_raw()) == Some(value),
    {
        let f0 = value.passes;
        let f1 = value.centroid.spec_raw();
        let f2 = bool_word(value.passes_extended);
        if value.wf() {
        let word = (f0 as u32) | (f1 << 4u32) | (f2 << 5u32);
        assert({
            &&& word & !0x3fu32 == 0
            &&& (word & 0xf) as u8 == f0
            &&& (word & 0x10 != 0) == (f1 == 1)
            &&& (word & 0x20 != 0) == (f2 == 1)
        }) by (bit_vector)
            requires
                f0 <= 0xf,
                f1 <= 1,
                f2 <= 1,
                word == (f0 as u32) | (f1 << 4u32) | (f2 << 5u32),
        ;
        }
        assert({
            &&& raw & !0x3fu32 == 0 ==> ((((raw & 0xf) as u8) as u32) | ((if raw & 0x10 != 0 { 1u32 } else { 0u32 }) << 4u32) | ((if raw & 0x20 != 0 { 1u32 } else { 0u32 }) << 5u32)) == raw
            &&& (raw & 0xf) as u8 <= 0xf
        }) by (bit_vector);
    }
}

/// Whether the fragment shader's sample-mask output takes part in coverage.
#[derive(Clone, Copy, Debug, PartialEq, Eq, Hash, Structural)]
pub struct MaxwellThreeDPsOutputSampleMaskUsage {
    pub enabled: bool,
    pub qualify_by_anti_alias_enable: bool,
}

impl MaxwellThreeDPsOutputSampleMaskUsage {
    pub open spec fn spec_parse(raw: u32) -> Option<MaxwellThreeDPsOutputSampleMaskUsage> {
        if raw & !0x3u32 != 0 {
            None
        } else {
            Some(
                MaxwellThreeDPsOutputSampleMaskUsage {
                    enabled: raw & 0x1 != 0,
                    qualify_by_anti_alias_enable: raw & 0x2 != 0,
                },
            )
        }
    }

    pub open spec fn spec_raw(self) -> u32 {
        bool_word(self.enabled) | (bool_word(self.qualify_by_anti_alias_enable) << 1u32)
    }

    #[verifier::when_used_as_spec(spec_parse)]
    pub fn parse(raw: u32) -> (r: Option<MaxwellThreeDPsOutputSampleMaskUsage>)
        ensures
            r == MaxwellThreeDPsOutputSampleMaskUsage::spec_parse(raw),
    {
        if raw & !0x3u32 != 0 {
            None
        } else {
            Some(
                MaxwellThreeDPsOutputSampleMaskUsage {
                    enabled: raw & 0x1 != 0,
                    qualify_by_anti_alias_enable: raw & 0x2 != 0,
                },
            )
        }
    }

    #[must_use]
    pub fn enabled(self) -> (r: bool)
        ensures
            r == self.enabled,
    {
        self.enabled
    }

    #[must_use]
    pub fn qualify_by_anti_alias_enable(self) -> (r: bool)
        ensures
            r == self.qualify_by_anti_alias_enable,
    {
        self.qualify_by_anti_alias_enable
    }

    #[must_use]
    #[verifier::when_used_as_spec(spec_raw)]
    pub fn raw(self) -> (r: u32)
        ensures
            r == self.spec_raw(),
    {
        bool_word(self.enabled) | (bool_word(self.qualify_by_anti_alias_enable) << 1u32)
    }

    /// Effective selection; an unknown antialiasing enable stays unknown only
    /// where the selection depends on it.
    pub open spec fn spec_effective(self, anti_alias_enable: Option<bool>) -> Option<bool> {
        if !self.enabled {
            Some(false)
        } else if !self.qualify_by_anti_alias_enable {
            Some(true)
        } else {
            anti_alias_enable
        }
    }

    #[must_use]
    #[verifier::when_used_as_spec(spec_effective)]
    pub fn effective(self, anti_alias_enable: Option<bool>) -> (r: Option<bool>)
        ensures
            r == self.spec_effective(anti_alias_enable),
    {
        if !self.enabled {
            Some(false)
        } else if !self.qualify_by_anti_alias_enable {
            Some(true)
        } else {
            anti_alias_enable
        }
    }

    /// Decoding and encoding are inverse.
    pub proof fn law_codec(raw: u32, value: MaxwellThreeDPsOutputSampleMaskUsage)
        ensures
            MaxwellThreeDPsOutputSampleMaskUsage::spec_parse(raw) matches Some(parsed) ==> parsed.spec_raw() == raw,
            MaxwellThreeDPsOutputSampleMaskUsage::spec_parse(value.spec_raw()) == Some(value),
    {
        let f0 = bool_word(value.enabled);
        let f1 = bool_word(value.qualify_by_anti_alias_enable);
        let word = f0 | (f1 << 1u32);
        assert({
            &&& word & !0x3u32 == 0
            &&& (word & 0x1 != 0) == (f0 == 1)
            &&& (word & 0x2 != 0) == (f1 == 1)
        }) by (bit_vector)
            requires
                f0 <= 1,
                f1 <= 1,
                word == f0 | (f1 << 1u32),
        ;
        assert({
            &&& raw & !0x3u32 == 0 ==> ((if raw & 0x1 != 0 { 1u32 } else { 0u32 }) | ((if raw & 0x2 != 0 { 1u32 } else { 0u32 }) << 1u32)) == raw
        }) by (bit_vector);
    }
}

/// Whether coverage-sampled antialiasing is selected for later draws.
#[derive(Clone, Copy, Debug, PartialEq, Eq, Hash, Structural)]
pub enum MaxwellThreeDCsaaEnable {
    Disabled,
    Enabled,
}

impl MaxwellThreeDCsaaEnable {
    /// Field encoding of each value.
    pub open spec fn spec_raw(self) -> u32 {
        match self {
            MaxwellThreeDCsaaEnable::Disabled => 0,
            MaxwellThreeDCsaaEnable::Enabled => 1,
        }
    }

    /// Value of each defined encoding.
    pub open spec fn spec_parse(raw: u32) -> Option<MaxwellThreeDCsaaEnable> {
        if raw == 0 {
            Some(MaxwellThreeDCsaaEnable::Disabled)
        } else if raw == 1 {
            Some(MaxwellThreeDCsaaEnable::Enabled)
        } else {
            None
        }
    }

    #[verifier::when_used_as_spec(spec_parse)]
    pub fn parse(raw: u32) -> (r: Option<MaxwellThreeDCsaaEnable>)
        ensures
            r == MaxwellThreeDCsaaEnable::spec_parse(raw),
    {
        match raw {
            0 => Some(MaxwellThreeDCsaaEnable::Disabled),
            1 => Some(MaxwellThreeDCsaaEnable::Enabled),
            _ => None,
        }
    }

    #[must_use]
    #[verifier::when_used_as_spec(spec_raw)]
    pub fn raw(self) -> (r: u32)
        ensures
            r == self.spec_raw(),
    {
        match self {
            MaxwellThreeDCsaaEnable::Disabled => 0,
            MaxwellThreeDCsaaEnable::Enabled => 1,
        }
    }

    /// Decoding and encoding are inverse: a word decodes to a value exactly
    /// when it is the encoding of that value.
    pub proof fn law_codec(raw: u32, value: MaxwellThreeDCsaaEnable)
        ensures
            MaxwellThreeDCsaaEnable::spec_parse(raw) == Some(value) <==> value.spec_raw() == raw,
    {
    }
}

/// One validated coverage-sampling transition.
#[derive(Clone, Copy, Debug, PartialEq, Eq, Hash)]
#[allow(inconsistent_fields)]
pub enum MaxwellThreeDCoverageStateWrite {
    PostZPixelShaderImask { value: MaxwellThreeDPostZPixelShaderImask, source: MaxwellMethodSource },
    TirMode { value: MaxwellThreeDTirMode, source: MaxwellMethodSource },
    TirControl { value: MaxwellThreeDTirControl, source: MaxwellMethodSource },
    TirModulation { value: MaxwellThreeDTirModulationComponentSelect, source: MaxwellMethodSource },
    TirModulationFunction { value: MaxwellThreeDTirModulationFunction, source: MaxwellMethodSource },
    CoverageToColor { value: MaxwellThreeDCoverageToColor, source: MaxwellMethodSource },
    AlphaToCoverageOverride { value: MaxwellThreeDAlphaToCoverageOverride, source: MaxwellMethodSource },
    SampleLocations { group: u8, value: MaxwellThreeDSampleLocationGroup, source: MaxwellMethodSource },
    HybridAntiAliasControl { value: MaxwellThreeDHybridAntiAliasControl, source: MaxwellMethodSource },
    PsOutputSampleMaskUsage { value: MaxwellThreeDPsOutputSampleMaskUsage, source: MaxwellMethodSource },
    CsaaEnable { value: MaxwellThreeDCsaaEnable, source: MaxwellMethodSource },
}

impl MaxwellThreeDCoverageStateWrite {
    /// Array indices are in range.
    pub open spec fn wf(self) -> bool {
        match self {
            MaxwellThreeDCoverageStateWrite::SampleLocations { group, value: _, source: _ } => group < 4,
            _ => true,
        }
    }
}

/// Persistent coverage-sampling configuration.
#[derive(Clone, Copy, Debug, PartialEq, Eq)]
pub struct MaxwellThreeDCoverageState {
    pub post_z_pixel_shader_imask: MaxwellThreeDRegister<MaxwellThreeDPostZPixelShaderImask>,
    pub tir_mode: MaxwellThreeDRegister<MaxwellThreeDTirMode>,
    pub tir_control: MaxwellThreeDRegister<MaxwellThreeDTirControl>,
    pub tir_modulation: MaxwellThreeDRegister<MaxwellThreeDTirModulationComponentSelect>,
    pub tir_modulation_function: MaxwellThreeDRegister<MaxwellThreeDTirModulationFunction>,
    pub coverage_to_color: MaxwellThreeDRegister<MaxwellThreeDCoverageToColor>,
    pub alpha_to_coverage_override: MaxwellThreeDRegister<MaxwellThreeDAlphaToCoverageOverride>,
    pub sample_locations: [MaxwellThreeDRegister<MaxwellThreeDSampleLocationGroup>; 4],
    pub hybrid_anti_alias_control: MaxwellThreeDRegister<MaxwellThreeDHybridAntiAliasControl>,
    pub ps_output_sample_mask_usage: MaxwellThreeDRegister<MaxwellThreeDPsOutputSampleMaskUsage>,
    pub csaa_enable: MaxwellThreeDRegister<MaxwellThreeDCsaaEnable>,
}

impl MaxwellThreeDCoverageState {
    /// State before any method is decoded.
    pub open spec fn initial(self) -> bool {
        &&& self.post_z_pixel_shader_imask == MaxwellThreeDRegister::<MaxwellThreeDPostZPixelShaderImask>::unset()
        &&& self.tir_mode == MaxwellThreeDRegister::<MaxwellThreeDTirMode>::unset()
        &&& self.tir_control == MaxwellThreeDRegister::<MaxwellThreeDTirControl>::unset()
        &&& self.tir_modulation == MaxwellThreeDRegister::<MaxwellThreeDTirModulationComponentSelect>::unset()
        &&& self.tir_modulation_function == MaxwellThreeDRegister::<MaxwellThreeDTirModulationFunction>::unset()
        &&& self.coverage_to_color == MaxwellThreeDRegister::<MaxwellThreeDCoverageToColor>::unset()
        &&& self.alpha_to_coverage_override == MaxwellThreeDRegister::<MaxwellThreeDAlphaToCoverageOverride>::unset()
        &&& forall|i: int| 0 <= i < 4 ==> self.sample_locations[i] == MaxwellThreeDRegister::<MaxwellThreeDSampleLocationGroup>::unset()
        &&& self.hybrid_anti_alias_control == MaxwellThreeDRegister::<MaxwellThreeDHybridAntiAliasControl>::unset()
        &&& self.ps_output_sample_mask_usage == MaxwellThreeDRegister::<MaxwellThreeDPsOutputSampleMaskUsage>::unset()
        &&& self.csaa_enable == MaxwellThreeDRegister::<MaxwellThreeDCsaaEnable>::unset()
    }

    /// State after one transition: the addressed register holds the written word,
    /// its value and its source, and every other register is unchanged.
    pub open spec fn written(self, write: MaxwellThreeDCoverageStateWrite) -> MaxwellThreeDCoverageState {
        match write {
            MaxwellThreeDCoverageStateWrite::PostZPixelShaderImask { value, source } => MaxwellThreeDCoverageState {
                post_z_pixel_shader_imask: MaxwellThreeDRegister::programmed(value.raw(), value, source),
                ..self
            },
            MaxwellThreeDCoverageStateWrite::TirMode { value, source } => MaxwellThreeDCoverageState {
                tir_mode: MaxwellThreeDRegister::programmed(value.raw(), value, source),
                ..self
            },
            MaxwellThreeDCoverageStateWrite::TirControl { value, source } => MaxwellThreeDCoverageState {
                tir_control: MaxwellThreeDRegister::programmed(value.raw(), value, source),
                ..self
            },
            MaxwellThreeDCoverageStateWrite::TirModulation { value, source } => MaxwellThreeDCoverageState {
                tir_modulation: MaxwellThreeDRegister::programmed(value.raw(), value, source),
                ..self
            },
            MaxwellThreeDCoverageStateWrite::TirModulationFunction { value, source } => MaxwellThreeDCoverageState {
                tir_modulation_function: MaxwellThreeDRegister::programmed(value.raw(), value, source),
                ..self
            },
            MaxwellThreeDCoverageStateWrite::CoverageToColor { value, source } => MaxwellThreeDCoverageState {
                coverage_to_color: MaxwellThreeDRegister::programmed(value.raw(), value, source),
                ..self
            },
            MaxwellThreeDCoverageStateWrite::AlphaToCoverageOverride { value, source } => MaxwellThreeDCoverageState {
                alpha_to_coverage_override: MaxwellThreeDRegister::programmed(value.raw(), value, source),
                ..self
            },
            MaxwellThreeDCoverageStateWrite::SampleLocations { group, value, source } => MaxwellThreeDCoverageState {
                sample_locations: vstd::array::spec_array_update(
                    self.sample_locations,
                    group as usize as int,
                    MaxwellThreeDRegister::programmed(value.raw(), value, source),
                ),
                ..self
            },
            MaxwellThreeDCoverageStateWrite::HybridAntiAliasControl { value, source } => MaxwellThreeDCoverageState {
                hybrid_anti_alias_control: MaxwellThreeDRegister::programmed(value.raw(), value, source),
                ..self
            },
            MaxwellThreeDCoverageStateWrite::PsOutputSampleMaskUsage { value, source } => MaxwellThreeDCoverageState {
                ps_output_sample_mask_usage: MaxwellThreeDRegister::programmed(value.raw(), value, source),
                ..self
            },
            MaxwellThreeDCoverageStateWrite::CsaaEnable { value, source } => MaxwellThreeDCoverageState {
                csaa_enable: MaxwellThreeDRegister::programmed(value.raw(), value, source),
                ..self
            },
        }
    }

    #[must_use]
    pub fn post_z_pixel_shader_imask(&self) -> (r: &MaxwellThreeDRegister<MaxwellThreeDPostZPixelShaderImask>)
        ensures
            *r == self.post_z_pixel_shader_imask,
    {
        &self.post_z_pixel_shader_imask
    }

    #[must_use]
    pub fn tir_mode(&self) -> (r: &MaxwellThreeDRegister<MaxwellThreeDTirMode>)
        ensures
            *r == self.tir_mode,
    {
        &self.tir_mode
    }

    #[must_use]
    pub fn tir_control(&self) -> (r: &MaxwellThreeDRegister<MaxwellThreeDTirControl>)
        ensures
            *r == self.tir_control,
    {
        &self.tir_control
    }

    #[must_use]
    pub fn tir_modulation(&self) -> (r: &MaxwellThreeDRegister<MaxwellThreeDTirModulationComponentSelect>)
        ensures
            *r == self.tir_modulation,
    {
        &self.tir_modulation
    }

    #[must_use]
    pub fn tir_modulation_function(&self) -> (r: &MaxwellThreeDRegister<MaxwellThreeDTirModulationFunction>)
        ensures
            *r == self.tir_modulation_function,
    {
        &self.tir_modulation_function
    }

    #[must_use]
    pub fn coverage_to_color(&self) -> (r: &MaxwellThreeDRegister<MaxwellThreeDCoverageToColor>)
        ensures
            *r == self.coverage_to_color,
    {
        &self.coverage_to_color
    }

    #[must_use]
    pub fn alpha_to_coverage_override(&self) -> (r: &MaxwellThreeDRegister<MaxwellThreeDAlphaToCoverageOverride>)
        ensures
            *r == self.alpha_to_coverage_override,
    {
        &self.alpha_to_coverage_override
    }

    #[must_use]
    pub fn hybrid_anti_alias_control(&self) -> (r: &MaxwellThreeDRegister<MaxwellThreeDHybridAntiAliasControl>)
        ensures
            *r == self.hybrid_anti_alias_control,
    {
        &self.hybrid_anti_alias_control
    }

    #[must_use]
    pub fn ps_output_sample_mask_usage(&self) -> (r: &MaxwellThreeDRegister<MaxwellThreeDPsOutputSampleMaskUsage>)
        ensures
            *r == self.ps_output_sample_mask_usage,
    {
        &self.ps_output_sample_mask_usage
    }

    #[must_use]
    pub fn csaa_enable(&self) -> (r: &MaxwellThreeDRegister<MaxwellThreeDCsaaEnable>)
        ensures
            *r == self.csaa_enable,
    {
        &self.csaa_enable
    }

    /// State with every register unset.
    #[must_use]
    pub fn unprogrammed() -> (r: MaxwellThreeDCoverageState)
        ensures
            r.initial(),
    {
        MaxwellThreeDCoverageState {
            post_z_pixel_shader_imask: MaxwellThreeDRegister::unset(),
            tir_mode: MaxwellThreeDRegister::unset(),
            tir_control: MaxwellThreeDRegister::unset(),
            tir_modulation: MaxwellThreeDRegister::unset(),
            tir_modulation_function: MaxwellThreeDRegister::unset(),
            coverage_to_color: MaxwellThreeDRegister::unset(),
            alpha_to_coverage_override: MaxwellThreeDRegister::unset(),
            sample_locations: [
                MaxwellThreeDRegister::unset(),
                MaxwellThreeDRegister::unset(),
                MaxwellThreeDRegister::unset(),
                MaxwellThreeDRegister::unset(),
            ],
            hybrid_anti_alias_control: MaxwellThreeDRegister::unset(),
            ps_output_sample_mask_usage: MaxwellThreeDRegister::unset(),
            csaa_enable: MaxwellThreeDRegister::unset(),
        }
    }

    #[must_use]
    pub fn sample_locations(&self) -> (r: &[MaxwellThreeDRegister<MaxwellThreeDSampleLocationGroup>; 4])
        ensures
            *r == self.sample_locations,
    {
        &self.sample_locations
    }

    pub fn apply(&mut self, write: MaxwellThreeDCoverageStateWrite)
        requires
            write.wf(),
        ensures
            *final(self) == old(self).written(write),
    {
        match write {
            MaxwellThreeDCoverageStateWrite::PostZPixelShaderImask { value, source } => {
                self.post_z_pixel_shader_imask = MaxwellThreeDRegister::programmed(value.raw(), value, source);
            },
            MaxwellThreeDCoverageStateWrite::TirMode { value, source } => {
                self.tir_mode = MaxwellThreeDRegister::programmed(value.raw(), value, source);
            },
            MaxwellThreeDCoverageStateWrite::TirControl { value, source } => {
                self.tir_control = MaxwellThreeDRegister::programmed(value.raw(), value, source);
            },
            MaxwellThreeDCoverageStateWrite::TirModulation { value, source } => {
                self.tir_modulation = MaxwellThreeDRegister::programmed(value.raw(), value, source);
            },
            MaxwellThreeDCoverageStateWrite::TirModulationFunction { value, source } => {
                self.tir_modulation_function = MaxwellThreeDRegister::programmed(value.raw(), value, source);
            },
            MaxwellThreeDCoverageStateWrite::CoverageToColor { value, source } => {
                self.coverage_to_color = MaxwellThreeDRegister::programmed(value.raw(), value, source);
            },
            MaxwellThreeDCoverageStateWrite::AlphaToCoverageOverride { value, source } => {
                self.alpha_to_coverage_override = MaxwellThreeDRegister::programmed(value.raw(), value, source);
            },
            MaxwellThreeDCoverageStateWrite::SampleLocations { group, value, source } => {
                self.sample_locations[group as usize] = MaxwellThreeDRegister::programmed(value.raw(), value, source);
            },
            MaxwellThreeDCoverageStateWrite::HybridAntiAliasControl { value, source } => {
                self.hybrid_anti_alias_control = MaxwellThreeDRegister::programmed(value.raw(), value, source);
            },
            MaxwellThreeDCoverageStateWrite::PsOutputSampleMaskUsage { value, source } => {
                self.ps_output_sample_mask_usage = MaxwellThreeDRegister::programmed(value.raw(), value, source);
            },
            MaxwellThreeDCoverageStateWrite::CsaaEnable { value, source } => {
                self.csaa_enable = MaxwellThreeDRegister::programmed(value.raw(), value, source);
            },
        }
    }
}

impl Default for MaxwellThreeDCoverageState {
    fn default() -> (r: MaxwellThreeDCoverageState)
        ensures
            r.initial(),
    {
        MaxwellThreeDCoverageState::unprogrammed()
    }
}

} // verus!
