//! Instrumentation annotations.

use vstd::prelude::*;
use crate::register::{MaxwellMethodSource, MaxwellThreeDRegister};

verus! {

/// An opaque 32-bit instrumentation annotation.
///
/// The word has no rendering meaning; it is kept so that captures replay exactly.
#[derive(Clone, Copy, Debug, PartialEq, Eq, Hash, Structural)]
pub struct MaxwellThreeDInstrumentationValue(pub u32);

impl MaxwellThreeDInstrumentationValue {
    #[must_use]
    pub fn from_bits(bits: u32) -> (r: MaxwellThreeDInstrumentationValue)
        ensures
            r.0 == bits,
    {
        MaxwellThreeDInstrumentationValue(bits)
    }

    pub open spec fn spec_bits(self) -> u32 {
        self.0
    }

    #[must_use]
    #[verifier::when_used_as_spec(spec_bits)]
    pub fn bits(self) -> (r: u32)
        ensures
            r == self.0,
    {
        self.0
    }
}

/// One validated instrumentation transition.
#[derive(Clone, Copy, Debug, PartialEq, Eq, Hash, Structural)]
#[allow(inconsistent_fields)]
pub enum MaxwellThreeDInstrumentationStateWrite {
    Header { value: MaxwellThreeDInstrumentationValue, source: MaxwellMethodSource },
    Data { value: MaxwellThreeDInstrumentationValue, source: MaxwellMethodSource },
}

/// Last instrumentation header and data.
#[derive(Clone, Copy, Debug, PartialEq, Eq)]
pub struct MaxwellThreeDInstrumentationState {
    pub header: MaxwellThreeDRegister<MaxwellThreeDInstrumentationValue>,
    pub data: MaxwellThreeDRegister<MaxwellThreeDInstrumentationValue>,
}

impl MaxwellThreeDInstrumentationState {
    /// State before any method is decoded.
    pub open spec fn initial(self) -> bool {
        &&& self.header == MaxwellThreeDRegister::<MaxwellThreeDInstrumentationValue>::unset()
        &&& self.data == MaxwellThreeDRegister::<MaxwellThreeDInstrumentationValue>::unset()
    }

    /// State after one transition: the addressed register holds the written word,
    /// its value and its source, and every other register is unchanged.
    pub open spec fn written(self, write: MaxwellThreeDInstrumentationStateWrite) -> MaxwellThreeDInstrumentationState {
        match write {
            MaxwellThreeDInstrumentationStateWrite::Header { value, source } => MaxwellThreeDInstrumentationState {
                header: MaxwellThreeDRegister::programmed(value.bits(), value, source),
                ..self
            },
            MaxwellThreeDInstrumentationStateWrite::Data { value, source } => MaxwellThreeDInstrumentationState {
                data: MaxwellThreeDRegister::programmed(value.bits(), value, source),
                ..self
            },
        }
    }

    #[must_use]
    pub fn header(&self) -> (r: &MaxwellThreeDRegister<MaxwellThreeDInstrumentationValue>)
        ensures
            *r == self.header,
    {
        &self.header
    }

    #[must_use]
    pub fn data(&self) -> (r: &MaxwellThreeDRegister<MaxwellThreeDInstrumentationValue>)
        ensures
            *r == self.data,
    {
        &self.data
    }

    /// State with every register unset.
    #[must_use]
    pub fn unprogrammed() -> (r: MaxwellThreeDInstrumentationState)
        ensures
            r.initial(),
    {
        MaxwellThreeDInstrumentationState {
            header: MaxwellThreeDRegister::unset(),
            data: MaxwellThreeDRegister::unset(),
        }
    }

    pub fn apply(&mut self, write: MaxwellThreeDInstrumentationStateWrite)
        ensures
            *final(self) == old(self).written(write),
    {
        match write {
            MaxwellThreeDInstrumentationStateWrite::Header { value, source } => {
                self.header = MaxwellThreeDRegister::programmed(value.bits(), value, source);
            },
            MaxwellThreeDInstrumentationStateWrite::Data { value, source } => {
                self.data = MaxwellThreeDRegister::programmed(value.bits(), value, source);
            },
        }
    }
}

impl Default for MaxwellThreeDInstrumentationState {
    fn default() -> (r: MaxwellThreeDInstrumentationState)
        ensures
            r.initial(),
    {
        MaxwellThreeDInstrumentationState::unprogrammed()
    }
}

} // verus!
