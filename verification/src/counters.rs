//! State controlling guest-visible performance counters.

use vstd::prelude::*;
use crate::register::{MaxwellMethodSource, MaxwellThreeDRegister};

verus! {

/// Whether later raster work contributes to the Z-pass pixel counter.
///
/// This controls instrumentation, not raster output.
#[derive(Clone, Copy, Debug, PartialEq, Eq, Hash, Structural)]
pub enum MaxwellThreeDZPassPixelCountEnable {
    Disabled,
    Enabled,
}

impl MaxwellThreeDZPassPixelCountEnable {
    /// Field encoding of each value.
    pub open spec fn spec_raw(self) -> u32 {
        match self {
            MaxwellThreeDZPassPixelCountEnable::Disabled => 0,
            MaxwellThreeDZPassPixelCountEnable::Enabled => 1,
        }
    }

    /// Value of each defined encoding.
    pub open spec fn spec_parse(raw: u32) -> Option<MaxwellThreeDZPassPixelCountEnable> {
        if raw == 0 {
            Some(MaxwellThreeDZPassPixelCountEnable::Disabled)
        } else if raw == 1 {
            Some(MaxwellThreeDZPassPixelCountEnable::Enabled)
        } else {
            None
        }
    }

    #[verifier::when_used_as_spec(spec_parse)]
    pub fn parse(raw: u32) -> (r: Option<MaxwellThreeDZPassPixelCountEnable>)
        ensures
            r == MaxwellThreeDZPassPixelCountEnable::spec_parse(raw),
    {
        match raw {
            0 => Some(MaxwellThreeDZPassPixelCountEnable::Disabled),
            1 => Some(MaxwellThreeDZPassPixelCountEnable::Enabled),
            _ => None,
        }
    }

    #[must_use]
    #[verifier::when_used_as_spec(spec_raw)]
    pub fn raw(self) -> (r: u32)
        ensures
            r == self.spec_raw(),
    {
        match self {
            MaxwellThreeDZPassPixelCountEnable::Disabled => 0,
            MaxwellThreeDZPassPixelCountEnable::Enabled => 1,
        }
    }

    /// Decoding and encoding are inverse: a word decodes to a value exactly
    /// when it is the encoding of that value.
    pub proof fn law_codec(raw: u32, value: MaxwellThreeDZPassPixelCountEnable)
        ensures
            MaxwellThreeDZPassPixelCountEnable::spec_parse(raw) == Some(value) <==> value.spec_raw() == raw,
    {
    }
}

/// One validated performance-counter transition.
#[derive(Clone, Copy, Debug, PartialEq, Eq, Hash, Structural)]
pub enum MaxwellThreeDCounterStateWrite {
    ZPassPixelCountEnable { value: MaxwellThreeDZPassPixelCountEnable, source: MaxwellMethodSource },
}

/// Persistent performance-counter configuration.
#[derive(Clone, Copy, Debug, PartialEq, Eq)]
pub struct MaxwellThreeDCounterState {
    pub zpass_pixel_count_enable: MaxwellThreeDRegister<MaxwellThreeDZPassPixelCountEnable>,
}

impl MaxwellThreeDCounterState {
    /// State before any method is decoded.
    pub open spec fn initial(self) -> bool {
        &&& self.zpass_pixel_count_enable == MaxwellThreeDRegister::<MaxwellThreeDZPassPixelCountEnable>::unset()
    }

    /// State after one transition: the addressed register holds the written word,
    /// its value and its source, and every other register is unchanged.
    pub open spec fn written(self, write: MaxwellThreeDCounterStateWrite) -> MaxwellThreeDCounterState {
        match write {
            MaxwellThreeDCounterStateWrite::ZPassPixelCountEnable { value, source } => MaxwellThreeDCounterState {
                zpass_pixel_count_enable: MaxwellThreeDRegister::programmed(value.raw(), value, source),
                ..self
            },
        }
    }

    #[must_use]
    pub fn zpass_pixel_count_enable(&self) -> (r: &MaxwellThreeDRegister<MaxwellThreeDZPassPixelCountEnable>)
        ensures
            *r == self.zpass_pixel_count_enable,
    {
        &self.zpass_pixel_count_enable
    }

    /// State with every register unset.
    #[must_use]
    pub fn unprogrammed() -> (r: MaxwellThreeDCounterState)
        ensures
            r.initial(),
    {
        MaxwellThreeDCounterState {
            zpass_pixel_count_enable: MaxwellThreeDRegister::unset(),
        }
    }

    pub fn apply(&mut self, write: MaxwellThreeDCounterStateWrite)
        ensures
            *final(self) == old(self).written(write),
    {
        match write {
            MaxwellThreeDCounterStateWrite::ZPassPixelCountEnable { value, source } => {
                self.zpass_pixel_count_enable = MaxwellThreeDRegister::programmed(value.raw(), value, source);
            },
        }
    }
}

impl Default for MaxwellThreeDCounterState {
    fn default() -> (r: MaxwellThreeDCounterState)
        ensures
            r.initial(),
    {
        MaxwellThreeDCounterState::unprogrammed()
    }
}

} // verus!
