//! Line-rasterization selection state.
//!
//! Selecting the aliased-width path is distinct from programming either line width
//! and from anti-aliasing or multisample state.

use vstd::prelude::*;
use crate::register::{bool_word, MaxwellMethodSource, MaxwellThreeDRawValue, MaxwellThreeDRegister};

verus! {

/// Treatment of edges that polygon clipping generates before line rasterization.
#[derive(Clone, Copy, Debug, PartialEq, Eq, Hash, Structural)]
pub enum MaxwellThreeDPolygonClipGeneratedEdge {
    DrawLine,
    DoNotDrawLine,
}

impl MaxwellThreeDPolygonClipGeneratedEdge {
    /// Field encoding of each value.
    pub open spec fn spec_raw(self) -> u32 {
        match self {
            MaxwellThreeDPolygonClipGeneratedEdge::DrawLine => 0,
            MaxwellThreeDPolygonClipGeneratedEdge::DoNotDrawLine => 1,
        }
    }

    /// Value of each defined encoding.
    pub open spec fn spec_parse(raw: u32) -> Option<MaxwellThreeDPolygonClipGeneratedEdge> {
        if raw == 0 {
            Some(MaxwellThreeDPolygonClipGeneratedEdge::DrawLine)
        } else if raw == 1 {
            Some(MaxwellThreeDPolygonClipGeneratedEdge::DoNotDrawLine)
        } else {
            None
        }
    }

    #[verifier::when_used_as_spec(spec_parse)]
    pub fn parse(raw: u32) -> (r: Option<MaxwellThreeDPolygonClipGeneratedEdge>)
        ensures
            r == MaxwellThreeDPolygonClipGeneratedEdge::spec_parse(raw),
    {
        match raw {
            0 => Some(MaxwellThreeDPolygonClipGeneratedEdge::DrawLine),
            1 => Some(MaxwellThreeDPolygonClipGeneratedEdge::DoNotDrawLine),
            _ => None,
        }
    }

    #[must_use]
    #[verifier::when_used_as_spec(spec_raw)]
    pub fn raw(self) -> (r: u32)
        ensures
            r == self.spec_raw(),
    {
        match self {
            MaxwellThreeDPolygonClipGeneratedEdge::DrawLine => 0,
            MaxwellThreeDPolygonClipGeneratedEdge::DoNotDrawLine => 1,
        }
    }

    /// Decoding and encoding are inverse: a word decodes to a value exactly
    /// when it is the encoding of that value.
    pub proof fn law_codec(raw: u32, value: MaxwellThreeDPolygonClipGeneratedEdge)
        ensures
            MaxwellThreeDPolygonClipGeneratedEdge::spec_parse(raw) == Some(value) <==> value.spec_raw() == raw,
    {
    }
}

/// Whether rasterized lines use the smooth antialiasing path.
#[derive(Clone, Copy, Debug, PartialEq, Eq, Hash, Structural)]
pub enum MaxwellThreeDAntiAliasedLineEnable {
    Disabled,
    Enabled,
}

impl MaxwellThreeDAntiAliasedLineEnable {
    /// Field encoding of each value.
    pub open spec fn spec_raw(self) -> u32 {
        match self {
            MaxwellThreeDAntiAliasedLineEnable::Disabled => 0,
            MaxwellThreeDAntiAliasedLineEnable::Enabled => 1,
        }
    }

    /// Value of each defined encoding.
    pub open spec fn spec_parse(raw: u32) -> Option<MaxwellThreeDAntiAliasedLineEnable> {
        if raw == 0 {
            Some(MaxwellThreeDAntiAliasedLineEnable::Disabled)
        } else if raw == 1 {
            Some(MaxwellThreeDAntiAliasedLineEnable::Enabled)
        } else {
            None
        }
    }

    #[verifier::when_used_as_spec(spec_parse)]
    pub fn parse(raw: u32) -> (r: Option<MaxwellThreeDAntiAliasedLineEnable>)
        ensures
            r == MaxwellThreeDAntiAliasedLineEnable::spec_parse(raw),
    {
        match raw {
            0 => Some(MaxwellThreeDAntiAliasedLineEnable::Disabled),
            1 => Some(MaxwellThreeDAntiAliasedLineEnable::Enabled),
            _ => None,
        }
    }

    #[must_use]
    #[verifier::when_used_as_spec(spec_raw)]
    pub fn raw(self) -> (r: u32)
        ensures
            r == self.spec_raw(),
    {
        match self {
            MaxwellThreeDAntiAliasedLineEnable::Disabled => 0,
            MaxwellThreeDAntiAliasedLineEnable::Enabled => 1,
        }
    }

    /// Decoding and encoding are inverse: a word decodes to a value exactly
    /// when it is the encoding of that value.
    pub proof fn law_codec(raw: u32, value: MaxwellThreeDAntiAliasedLineEnable)
        ensures
            MaxwellThreeDAntiAliasedLineEnable::spec_parse(raw) == Some(value) <==> value.spec_raw() == raw,
    {
    }
}

/// Repeat factor in bits 7:0 and 16-bit pattern in bits 23:8 of stippled lines.
#[derive(Clone, Copy, Debug, PartialEq, Eq, Hash, Structural)]
pub struct MaxwellThreeDLineStippleParameters {
    pub factor: u8,
    pub pattern: u16,
}

impl MaxwellThreeDLineStippleParameters {
    pub open spec fn spec_parse(raw: u32) -> Option<MaxwellThreeDLineStippleParameters> {
        if raw <= 0x00ff_ffff {
            Some(
                MaxwellThreeDLineStippleParameters {
                    factor: (raw % 0x100) as u8,
                    pattern: (raw / 0x100) as u16,
                },
            )
        } else {
            None
        }
    }

    pub open spec fn spec_raw(self) -> u32 {
        (self.factor + self.pattern * 0x100) as u32
    }

    #[verifier::when_used_as_spec(spec_parse)]
    pub fn parse(raw: u32) -> (r: Option<MaxwellThreeDLineStippleParameters>)
        ensures
            r == MaxwellThreeDLineStippleParameters::spec_parse(raw),
    {
        if raw <= 0x00ff_ffff {
            Some(
                MaxwellThreeDLineStippleParameters {
                    factor: (raw % 0x100) as u8,
                    pattern: (raw / 0x100) as u16,
                },
            )
        } else {
            None
        }
    }

    #[must_use]
    pub fn factor(self) -> (r: u8)
        ensures
            r == self.factor,
    {
        self.factor
    }

    #[must_use]
    pub fn pattern(self) -> (r: u16)
        ensures
            r == self.pattern,
    {
        self.pattern
    }

    #[must_use]
    #[verifier::when_used_as_spec(spec_raw)]
    pub fn raw(self) -> (r: u32)
        ensures
            r == self.spec_raw(),
    {
        self.factor as u32 + self.pattern as u32 * 0x100
    }

    /// Decoding and encoding are inverse.
    pub proof fn law_codec(raw: u32, value: MaxwellThreeDLineStippleParameters)
        ensures
            MaxwellThreeDLineStippleParameters::spec_parse(raw) == Some(value)
                <==> value.spec_raw() == raw,
    {
    }
}

/// Which line-width register family later line rasterization selects.
#[derive(Clone, Copy, Debug, PartialEq, Eq, Hash, Structural)]
pub enum MaxwellThreeDAliasedLineWidthEnable {
    Disabled,
    Enabled,
}

impl MaxwellThreeDAliasedLineWidthEnable {
    /// Field encoding of each value.
    pub open spec fn spec_raw(self) -> u32 {
        match self {
            MaxwellThreeDAliasedLineWidthEnable::Disabled => 0,
            MaxwellThreeDAliasedLineWidthEnable::Enabled => 1,
        }
    }

    /// Value of each defined encoding.
    pub open spec fn spec_parse(raw: u32) -> Option<MaxwellThreeDAliasedLineWidthEnable> {
        if raw == 0 {
            Some(MaxwellThreeDAliasedLineWidthEnable::Disabled)
        } else if raw == 1 {
            Some(MaxwellThreeDAliasedLineWidthEnable::Enabled)
        } else {
            None
        }
    }

    #[verifier::when_used_as_spec(spec_parse)]
    pub fn parse(raw: u32) -> (r: Option<MaxwellThreeDAliasedLineWidthEnable>)
        ensures
            r == MaxwellThreeDAliasedLineWidthEnable::spec_parse(raw),
    {
        match raw {
            0 => Some(MaxwellThreeDAliasedLineWidthEnable::Disabled),
            1 => Some(MaxwellThreeDAliasedLineWidthEnable::Enabled),
            _ => None,
        }
    }

    #[must_use]
    #[verifier::when_used_as_spec(spec_raw)]
    pub fn raw(self) -> (r: u32)
        ensures
            r == self.spec_raw(),
    {
        match self {
            MaxwellThreeDAliasedLineWidthEnable::Disabled => 0,
            MaxwellThreeDAliasedLineWidthEnable::Enabled => 1,
        }
    }

    /// Decoding and encoding are inverse: a word decodes to a value exactly
    /// when it is the encoding of that value.
    pub proof fn law_codec(raw: u32, value: MaxwellThreeDAliasedLineWidthEnable)
        ensures
            MaxwellThreeDAliasedLineWidthEnable::spec_parse(raw) == Some(value) <==> value.spec_raw() == raw,
    {
    }
}

/// One validated line-rasterization transition.
#[derive(Clone, Copy, Debug, PartialEq, Eq, Hash, Structural)]
#[allow(inconsistent_fields)]
pub enum MaxwellThreeDLineStateWrite {
    PolygonClipGeneratedEdge { value: MaxwellThreeDPolygonClipGeneratedEdge, source: MaxwellMethodSource },
    AliasedLineWidthEnable { value: MaxwellThreeDAliasedLineWidthEnable, source: MaxwellMethodSource },
    AntiAliasedLineEnable { value: MaxwellThreeDAntiAliasedLineEnable, source: MaxwellMethodSource },
    AliasedLineWidth { value: MaxwellThreeDRawValue, source: MaxwellMethodSource },
    StippleEnable { value: bool, source: MaxwellMethodSource },
    StippleParameters { value: MaxwellThreeDLineStippleParameters, source: MaxwellMethodSource },
}

/// Persistent line-rasterization configuration.
#[derive(Clone, Copy, Debug, PartialEq, Eq)]
pub struct MaxwellThreeDLineState {
    pub polygon_clip_generated_edge: MaxwellThreeDRegister<MaxwellThreeDPolygonClipGeneratedEdge>,
    pub aliased_line_width_enable: MaxwellThreeDRegister<MaxwellThreeDAliasedLineWidthEnable>,
    pub anti_aliased_line_enable: MaxwellThreeDRegister<MaxwellThreeDAntiAliasedLineEnable>,
    pub aliased_line_width: MaxwellThreeDRegister<MaxwellThreeDRawValue>,
    pub stipple_enable: MaxwellThreeDRegister<bool>,
    pub stipple_parameters: MaxwellThreeDRegister<MaxwellThreeDLineStippleParameters>,
}

impl MaxwellThreeDLineState {
    /// State before any method is decoded.
    pub open spec fn initial(self) -> bool {
        &&& self.polygon_clip_generated_edge == MaxwellThreeDRegister::<MaxwellThreeDPolygonClipGeneratedEdge>::unset()
        &&& self.aliased_line_width_enable == MaxwellThreeDRegister::<MaxwellThreeDAliasedLineWidthEnable>::unset()
        &&& self.anti_aliased_line_enable == MaxwellThreeDRegister::<MaxwellThreeDAntiAliasedLineEnable>::unset()
        &&& self.aliased_line_width == MaxwellThreeDRegister::<MaxwellThreeDRawValue>::unset()
        &&& self.stipple_enable == MaxwellThreeDRegister::<bool>::unset()
        &&& self.stipple_parameters == MaxwellThreeDRegister::<MaxwellThreeDLineStippleParameters>::unset()
    }

    /// State after one transition: the addressed register holds the written word,
    /// its value and its source, and every other register is unchanged.
    pub open spec fn written(self, write: MaxwellThreeDLineStateWrite) -> MaxwellThreeDLineState {
        match write {
            MaxwellThreeDLineStateWrite::PolygonClipGeneratedEdge { value, source } => MaxwellThreeDLineState {
                polygon_clip_generated_edge: MaxwellThreeDRegister::programmed(value.raw(), value, source),
                ..self
            },
            MaxwellThreeDLineStateWrite::AliasedLineWidthEnable { value, source } => MaxwellThreeDLineState {
                aliased_line_width_enable: MaxwellThreeDRegister::programmed(value.raw(), value, source),
                ..self
            },
            MaxwellThreeDLineStateWrite::AntiAliasedLineEnable { value, source } => MaxwellThreeDLineState {
                anti_aliased_line_enable: MaxwellThreeDRegister::programmed(value.raw(), value, source),
                ..self
            },
            MaxwellThreeDLineStateWrite::AliasedLineWidth { value, source } => MaxwellThreeDLineState {
                aliased_line_width: MaxwellThreeDRegister::programmed(value.get(), value, source),
                ..self
            },
            MaxwellThreeDLineStateWrite::StippleEnable { value, source } => MaxwellThreeDLineState {
                stipple_enable: MaxwellThreeDRegister::programmed(bool_word(value), value, source),
                ..self
            },
            MaxwellThreeDLineStateWrite::StippleParameters { value, source } => MaxwellThreeDLineState {
                stipple_parameters: MaxwellThreeDRegister::programmed(value.raw(), value, source),
                ..self
            },
        }
    }

    #[must_use]
    pub fn polygon_clip_generated_edge(&self) -> (r: &MaxwellThreeDRegister<MaxwellThreeDPolygonClipGeneratedEdge>)
        ensures
            *r == self.polygon_clip_generated_edge,
    {
        &self.polygon_clip_generated_edge
    }

    #[must_use]
    pub fn aliased_line_width_enable(&self) -> (r: &MaxwellThreeDRegister<MaxwellThreeDAliasedLineWidthEnable>)
        ensures
            *r == self.aliased_line_width_enable,
    {
        &self.aliased_line_width_enable
    }

    #[must_use]
    pub fn anti_aliased_line_enable(&self) -> (r: &MaxwellThreeDRegister<MaxwellThreeDAntiAliasedLineEnable>)
        ensures
            *r == self.anti_aliased_line_enable,
    {
        &self.anti_aliased_line_enable
    }

    #[must_use]
    pub fn aliased_line_width(&self) -> (r: &MaxwellThreeDRegister<MaxwellThreeDRawValue>)
        ensures
            *r == self.aliased_line_width,
    {
        &self.aliased_line_width
    }

    #[must_use]
    pub fn stipple_enable(&self) -> (r: &MaxwellThreeDRegister<bool>)
        ensures
            *r == self.stipple_enable,
    {
        &self.stipple_enable
    }

    #[must_use]
    pub fn stipple_parameters(&self) -> (r: &MaxwellThreeDRegister<MaxwellThreeDLineStippleParameters>)
        ensures
            *r == self.stipple_parameters,
    {
        &self.stipple_parameters
    }

    /// State with every register unset.
    #[must_use]
    pub fn unprogrammed() -> (r: MaxwellThreeDLineState)
        ensures
            r.initial(),
    {
        MaxwellThreeDLineState {
            polygon_clip_generated_edge: MaxwellThreeDRegister::unset(),
            aliased_line_width_enable: MaxwellThreeDRegister::unset(),
            anti_aliased_line_enable: MaxwellThreeDRegister::unset(),
            aliased_line_width: MaxwellThreeDRegister::unset(),
            stipple_enable: MaxwellThreeDRegister::unset(),
            stipple_parameters: MaxwellThreeDRegister::unset(),
        }
    }

    /// Raw words that take part in pipeline identity. Stipple parameters count
    /// unless stippling is known to be disabled.
    pub open spec fn pipeline_dependencies(self) -> Seq<Option<u32>> {
        let always = seq![
            self.polygon_clip_generated_edge.raw,
            self.aliased_line_width_enable.raw,
            self.anti_aliased_line_enable.raw,
            self.aliased_line_width.raw,
            self.stipple_enable.raw,
        ];
        if self.stipple_enable.value == Some(false) {
            always
        } else {
            always.push(self.stipple_parameters.raw)
        }
    }

    pub fn append_pipeline_dependencies(&self, dependencies: &mut Vec<Option<u32>>)
        ensures
            final(dependencies)@ == old(dependencies)@ + self.pipeline_dependencies(),
    {
        dependencies.push(self.polygon_clip_generated_edge.raw);
        dependencies.push(self.aliased_line_width_enable.raw);
        dependencies.push(self.anti_aliased_line_enable.raw);
        dependencies.push(self.aliased_line_width.raw);
        dependencies.push(self.stipple_enable.raw);
        match self.stipple_enable.value {
            Some(false) => {},
            _ => dependencies.push(self.stipple_parameters.raw),
        }
    }

    /// Stipple parameters never reach pipeline identity while stippling is disabled.
    pub proof fn law_disabled_stipple_is_inert(
        self,
        value: MaxwellThreeDLineStippleParameters,
        source: MaxwellMethodSource,
    )
        requires
            self.stipple_enable.value == Some(false),
        ensures
            self.written(
                MaxwellThreeDLineStateWrite::StippleParameters { value, source },
            ).pipeline_dependencies() == self.pipeline_dependencies(),
    {
    }

    pub fn apply(&mut self, write: MaxwellThreeDLineStateWrite)
        ensures
            *final(self) == old(self).written(write),
    {
        match write {
            MaxwellThreeDLineStateWrite::PolygonClipGeneratedEdge { value, source } => {
                self.polygon_clip_generated_edge = MaxwellThreeDRegister::programmed(value.raw(), value, source);
            },
            MaxwellThreeDLineStateWrite::AliasedLineWidthEnable { value, source } => {
                self.aliased_line_width_enable = MaxwellThreeDRegister::programmed(value.raw(), value, source);
            },
            MaxwellThreeDLineStateWrite::AntiAliasedLineEnable { value, source } => {
                self.anti_aliased_line_enable = MaxwellThreeDRegister::programmed(value.raw(), value, source);
            },
            MaxwellThreeDLineStateWrite::AliasedLineWidth { value, source } => {
                self.aliased_line_width = MaxwellThreeDRegister::programmed(value.get(), value, source);
            },
            MaxwellThreeDLineStateWrite::StippleEnable { value, source } => {
                self.stipple_enable = MaxwellThreeDRegister::programmed(bool_word(value), value, source);
            },
            MaxwellThreeDLineStateWrite::StippleParameters { value, source } => {
                self.stipple_parameters = MaxwellThreeDRegister::programmed(value.raw(), value, source);
            },
        }
    }
}

impl Default for MaxwellThreeDLineState {
    fn default() -> (r: MaxwellThreeDLineState)
        ensures
            r.initial(),
    {
        MaxwellThreeDLineState::unprogrammed()
    }
}

} // verus!
