//! Depth-culling registers.

use vstd::prelude::*;
use crate::register::{MaxwellMethodSource, MaxwellThreeDRegister};

verus! {

/// Selected depth-culling region.
#[derive(Clone, Copy, Debug, PartialEq, Eq, Hash, Structural)]
pub struct MaxwellThreeDZCullRegionId(pub u32);

impl MaxwellThreeDZCullRegionId {
    /// Value within the field.
    pub open spec fn spec_new(raw: u32) -> Option<MaxwellThreeDZCullRegionId> {
        if raw <= 0x3f {
            Some(MaxwellThreeDZCullRegionId(raw))
        } else {
            None
        }
    }

    #[verifier::when_used_as_spec(spec_new)]
    pub fn new(raw: u32) -> (r: Option<MaxwellThreeDZCullRegionId>)
        ensures
            r == MaxwellThreeDZCullRegionId::spec_new(raw),
    {
        if raw <= 0x3f {
            Some(MaxwellThreeDZCullRegionId(raw))
        } else {
            None
        }
    }

    pub open spec fn spec_raw(self) -> u32 {
        self.0
    }

    #[must_use]
    #[verifier::when_used_as_spec(spec_raw)]
    pub fn raw(self) -> (r: u32)
        ensures
            r == self.0,
    {
        self.0
    }
}

/// Whether depth-culling statistics are kept.
#[derive(Clone, Copy, Debug, PartialEq, Eq, Hash, Structural)]
pub enum MaxwellThreeDZCullStatsEnable {
    Disabled,
    Enabled,
}

impl MaxwellThreeDZCullStatsEnable {
    /// Field encoding of each value.
    pub open spec fn spec_raw(self) -> u32 {
        match self {
            MaxwellThreeDZCullStatsEnable::Disabled => 0,
            MaxwellThreeDZCullStatsEnable::Enabled => 1,
        }
    }

    /// Value of each defined encoding.
    pub open spec fn spec_parse(raw: u32) -> Option<MaxwellThreeDZCullStatsEnable> {
        if raw == 0 {
            Some(MaxwellThreeDZCullStatsEnable::Disabled)
        } else if raw == 1 {
            Some(MaxwellThreeDZCullStatsEnable::Enabled)
        } else {
            None
        }
    }

    #[verifier::when_used_as_spec(spec_parse)]
    pub fn parse(raw: u32) -> (r: Option<MaxwellThreeDZCullStatsEnable>)
        ensures
            r == MaxwellThreeDZCullStatsEnable::spec_parse(raw),
    {
        match raw {
            0 => Some(MaxwellThreeDZCullStatsEnable::Disabled),
            1 => Some(MaxwellThreeDZCullStatsEnable::Enabled),
            _ => None,
        }
    }

    #[must_use]
    #[verifier::when_used_as_spec(spec_raw)]
    pub fn raw(self) -> (r: u32)
        ensures
            r == self.spec_raw(),
    {
        match self {
            MaxwellThreeDZCullStatsEnable::Disabled => 0,
            MaxwellThreeDZCullStatsEnable::Enabled => 1,
        }
    }

    /// Whether the feature is on.
    pub open spec fn spec_enabled(self) -> bool {
        matches!(self, MaxwellThreeDZCullStatsEnable::Enabled)
    }

    #[must_use]
    #[verifier::when_used_as_spec(spec_enabled)]
    pub fn enabled(self) -> (r: bool)
        ensures
            r == self.spec_enabled(),
    {
        matches!(self, MaxwellThreeDZCullStatsEnable::Enabled)
    }

    /// Decoding and encoding are inverse: a word decodes to a value exactly
    /// when it is the encoding of that value.
    pub proof fn law_codec(raw: u32, value: MaxwellThreeDZCullStatsEnable)
        ensures
            MaxwellThreeDZCullStatsEnable::spec_parse(raw) == Some(value) <==> value.spec_raw() == raw,
    {
    }
}

/// Depth-culling stencil criterion.
#[derive(Clone, Copy, Debug, PartialEq, Eq, Hash, Structural)]
pub struct MaxwellThreeDZCullCriterion(pub u32);

impl MaxwellThreeDZCullCriterion {
    #[must_use]
    pub fn from_raw(raw: u32) -> (r: MaxwellThreeDZCullCriterion)
        ensures
            r.0 == raw,
    {
        MaxwellThreeDZCullCriterion(raw)
    }

    pub open spec fn spec_raw(self) -> u32 {
        self.0
    }

    #[must_use]
    #[verifier::when_used_as_spec(spec_raw)]
    pub fn raw(self) -> (r: u32)
        ensures
            r == self.0,
    {
        self.0
    }
}

/// Enables of depth and stencil culling.
#[derive(Clone, Copy, Debug, PartialEq, Eq, Hash, Structural)]
pub struct MaxwellThreeDZCullEnable(pub u32);

impl MaxwellThreeDZCullEnable {
    #[must_use]
    pub fn from_raw(raw: u32) -> (r: MaxwellThreeDZCullEnable)
        ensures
            r.0 == raw,
    {
        MaxwellThreeDZCullEnable(raw)
    }

    pub open spec fn spec_raw(self) -> u32 {
        self.0
    }

    #[must_use]
    #[verifier::when_used_as_spec(spec_raw)]
    pub fn raw(self) -> (r: u32)
        ensures
            r == self.0,
    {
        self.0
    }
}

/// Depth-culling bounds control.
#[derive(Clone, Copy, Debug, PartialEq, Eq, Hash, Structural)]
pub struct MaxwellThreeDZCullBounds(pub u32);

impl MaxwellThreeDZCullBounds {
    #[must_use]
    pub fn from_raw(raw: u32) -> (r: MaxwellThreeDZCullBounds)
        ensures
            r.0 == raw,
    {
        MaxwellThreeDZCullBounds(raw)
    }

    pub open spec fn spec_raw(self) -> u32 {
        self.0
    }

    #[must_use]
    #[verifier::when_used_as_spec(spec_raw)]
    pub fn raw(self) -> (r: u32)
        ensures
            r == self.0,
    {
        self.0
    }
}

/// One validated depth-culling transition.
#[derive(Clone, Copy, Debug, PartialEq, Eq, Hash, Structural)]
#[allow(inconsistent_fields)]
pub enum MaxwellThreeDZCullStateWrite {
    ActiveRegion { value: MaxwellThreeDZCullRegionId, source: MaxwellMethodSource },
    StatsEnable { value: MaxwellThreeDZCullStatsEnable, source: MaxwellMethodSource },
    Criterion { value: MaxwellThreeDZCullCriterion, source: MaxwellMethodSource },
    Enable { value: MaxwellThreeDZCullEnable, source: MaxwellMethodSource },
    Bounds { value: MaxwellThreeDZCullBounds, source: MaxwellMethodSource },
}

/// Depth-culling registers.
#[derive(Clone, Copy, Debug, PartialEq, Eq)]
pub struct MaxwellThreeDZCullState {
    pub active_region: MaxwellThreeDRegister<MaxwellThreeDZCullRegionId>,
    pub stats_enable: MaxwellThreeDRegister<MaxwellThreeDZCullStatsEnable>,
    pub criterion: MaxwellThreeDRegister<MaxwellThreeDZCullCriterion>,
    pub enable: MaxwellThreeDRegister<MaxwellThreeDZCullEnable>,
    pub bounds: MaxwellThreeDRegister<MaxwellThreeDZCullBounds>,
}

impl MaxwellThreeDZCullState {
    /// State before any method is decoded.
    pub open spec fn initial(self) -> bool {
        &&& self.active_region == MaxwellThreeDRegister::<MaxwellThreeDZCullRegionId>::unset()
        &&& self.stats_enable == MaxwellThreeDRegister::<MaxwellThreeDZCullStatsEnable>::unset()
        &&& self.criterion == MaxwellThreeDRegister::<MaxwellThreeDZCullCriterion>::unset()
        &&& self.enable == MaxwellThreeDRegister::<MaxwellThreeDZCullEnable>::unset()
        &&& self.bounds == MaxwellThreeDRegister::<MaxwellThreeDZCullBounds>::unset()
    }

    /// State after one transition: the addressed register holds the written word,
    /// its value and its source, and every other register is unchanged.
    pub open spec fn written(self, write: MaxwellThreeDZCullStateWrite) -> MaxwellThreeDZCullState {
        match write {
            MaxwellThreeDZCullStateWrite::ActiveRegion { value, source } => MaxwellThreeDZCullState {
                active_region: MaxwellThreeDRegister::programmed(source.argument(), value, source),
                ..self
            },
            MaxwellThreeDZCullStateWrite::StatsEnable { value, source } => MaxwellThreeDZCullState {
                stats_enable: MaxwellThreeDRegister::programmed(source.argument(), value, source),
                ..self
            },
            MaxwellThreeDZCullStateWrite::Criterion { value, source } => MaxwellThreeDZCullState {
                criterion: MaxwellThreeDRegister::programmed(source.argument(), value, source),
                ..self
            },
            MaxwellThreeDZCullStateWrite::Enable { value, source } => MaxwellThreeDZCullState {
                enable: MaxwellThreeDRegister::programmed(source.argument(), value, source),
                ..self
            },
            MaxwellThreeDZCullStateWrite::Bounds { value, source } => MaxwellThreeDZCullState {
                bounds: MaxwellThreeDRegister::programmed(source.argument(), value, source),
                ..self
            },
        }
    }

    #[must_use]
    pub fn active_region(&self) -> (r: &MaxwellThreeDRegister<MaxwellThreeDZCullRegionId>)
        ensures
            *r == self.active_region,
    {
        &self.active_region
    }

    #[must_use]
    pub fn stats_enable(&self) -> (r: &MaxwellThreeDRegister<MaxwellThreeDZCullStatsEnable>)
        ensures
            *r == self.stats_enable,
    {
        &self.stats_enable
    }

    #[must_use]
    pub fn criterion(&self) -> (r: &MaxwellThreeDRegister<MaxwellThreeDZCullCriterion>)
        ensures
            *r == self.criterion,
    {
        &self.criterion
    }

    #[must_use]
    pub fn enable(&self) -> (r: &MaxwellThreeDRegister<MaxwellThreeDZCullEnable>)
        ensures
            *r == self.enable,
    {
        &self.enable
    }

    #[must_use]
    pub fn bounds(&self) -> (r: &MaxwellThreeDRegister<MaxwellThreeDZCullBounds>)
        ensures
            *r == self.bounds,
    {
        &self.bounds
    }

    /// State with every register unset.
    #[must_use]
    pub fn unprogrammed() -> (r: MaxwellThreeDZCullState)
        ensures
            r.initial(),
    {
        MaxwellThreeDZCullState {
            active_region: MaxwellThreeDRegister::unset(),
            stats_enable: MaxwellThreeDRegister::unset(),
            criterion: MaxwellThreeDRegister::unset(),
            enable: MaxwellThreeDRegister::unset(),
            bounds: MaxwellThreeDRegister::unset(),
        }
    }

    pub fn apply(&mut self, write: MaxwellThreeDZCullStateWrite)
        ensures
            *final(self) == old(self).written(write),
    {
        match write {
            MaxwellThreeDZCullStateWrite::ActiveRegion { value, source } => {
                self.active_region = MaxwellThreeDRegister::programmed(source.argument(), value, source);
            },
            MaxwellThreeDZCullStateWrite::StatsEnable { value, source } => {
                self.stats_enable = MaxwellThreeDRegister::programmed(source.argument(), value, source);
            },
            MaxwellThreeDZCullStateWrite::Criterion { value, source } => {
                self.criterion = MaxwellThreeDRegister::programmed(source.argument(), value, source);
            },
            MaxwellThreeDZCullStateWrite::Enable { value, source } => {
                self.enable = MaxwellThreeDRegister::programmed(source.argument(), value, source);
            },
            MaxwellThreeDZCullStateWrite::Bounds { value, source } => {
                self.bounds = MaxwellThreeDRegister::programmed(source.argument(), value, source);
            },
        }
    }
}

impl Default for MaxwellThreeDZCullState {
    fn default() -> (r: MaxwellThreeDZCullState)
        ensures
            r.initial(),
    {
        MaxwellThreeDZCullState::unprogrammed()
    }
}

} // verus!
