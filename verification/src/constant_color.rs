//! Constant-color rendering state.

use vstd::prelude::*;
use crate::register::{bool_word, MaxwellMethodSource, MaxwellThreeDRegister};

verus! {

/// One component of the color that replaces shader output when enabled.
#[derive(Clone, Copy, Debug, PartialEq, Eq, Hash, Structural)]
pub enum MaxwellThreeDConstantColorComponent {
    Red,
    Green,
    Blue,
    Alpha,
}

impl MaxwellThreeDConstantColorComponent {
    pub open spec fn spec_index(self) -> usize {
        match self {
            MaxwellThreeDConstantColorComponent::Red => 0,
            MaxwellThreeDConstantColorComponent::Green => 1,
            MaxwellThreeDConstantColorComponent::Blue => 2,
            MaxwellThreeDConstantColorComponent::Alpha => 3,
        }
    }

    #[must_use]
    #[verifier::when_used_as_spec(spec_index)]
    pub fn index(self) -> (r: usize)
        ensures
            r == self.spec_index(),
            r < 4,
    {
        match self {
            MaxwellThreeDConstantColorComponent::Red => 0,
            MaxwellThreeDConstantColorComponent::Green => 1,
            MaxwellThreeDConstantColorComponent::Blue => 2,
            MaxwellThreeDConstantColorComponent::Alpha => 3,
        }
    }
}

/// Exact IEEE-754 component bits.
#[derive(Clone, Copy, Debug, PartialEq, Eq, Hash, Structural)]
pub struct MaxwellThreeDConstantColorValue(pub u32);

impl MaxwellThreeDConstantColorValue {
    #[must_use]
    pub fn from_bits(bits: u32) -> (r: MaxwellThreeDConstantColorValue)
        ensures
            r.0 == bits,
    {
        MaxwellThreeDConstantColorValue(bits)
    }

    pub open spec fn spec_bits(self) -> u32 {
        self.0
    }

    #[must_use]
    #[verifier::when_used_as_spec(spec_bits)]
    pub fn bits(self) -> (r: u32)
        ensures
            r == self.0,
    {
        self.0
    }
}

/// One validated constant-color rendering transition.
#[derive(Clone, Copy, Debug, PartialEq, Eq, Hash, Structural)]
#[allow(inconsistent_fields)]
pub enum MaxwellThreeDConstantColorRenderingStateWrite {
    Enable { value: bool, source: MaxwellMethodSource },
    Component { component: MaxwellThreeDConstantColorComponent, value: MaxwellThreeDConstantColorValue, source: MaxwellMethodSource },
}

/// Constant-color rendering registers: an enable and four full-width components.
#[derive(Clone, Copy, Debug, PartialEq, Eq)]
pub struct MaxwellThreeDConstantColorRenderingState {
    pub enabled: MaxwellThreeDRegister<bool>,
    pub components: [MaxwellThreeDRegister<MaxwellThreeDConstantColorValue>; 4],
}

impl MaxwellThreeDConstantColorRenderingState {
    /// State before any method is decoded.
    pub open spec fn initial(self) -> bool {
        &&& self.enabled == MaxwellThreeDRegister::<bool>::unset()
        &&& forall|i: int| 0 <= i < 4 ==> self.components[i] == MaxwellThreeDRegister::<MaxwellThreeDConstantColorValue>::unset()
    }

    /// State after one transition: the addressed register holds the written word,
    /// its value and its source, and every other register is unchanged.
    pub open spec fn written(self, write: MaxwellThreeDConstantColorRenderingStateWrite) -> MaxwellThreeDConstantColorRenderingState {
        match write {
            MaxwellThreeDConstantColorRenderingStateWrite::Enable { value, source } => MaxwellThreeDConstantColorRenderingState {
                enabled: MaxwellThreeDRegister::programmed(bool_word(value), value, source),
                ..self
            },
            MaxwellThreeDConstantColorRenderingStateWrite::Component { component, value, source } => MaxwellThreeDConstantColorRenderingState {
                components: vstd::array::spec_array_update(
                    self.components,
                    component.index() as int,
                    MaxwellThreeDRegister::programmed(value.bits(), value, source),
                ),
                ..self
            },
        }
    }

    #[must_use]
    pub fn enabled(&self) -> (r: &MaxwellThreeDRegister<bool>)
        ensures
            *r == self.enabled,
    {
        &self.enabled
    }

    #[must_use]
    pub fn component(&self, component: MaxwellThreeDConstantColorComponent) -> (r: &MaxwellThreeDRegister<MaxwellThreeDConstantColorValue>)
        ensures
            *r == self.components[component.index() as int],
    {
        &self.components[component.index()]
    }

    /// State with every register unset.
    #[must_use]
    pub fn unprogrammed() -> (r: MaxwellThreeDConstantColorRenderingState)
        ensures
            r.initial(),
    {
        MaxwellThreeDConstantColorRenderingState {
            enabled: MaxwellThreeDRegister::unset(),
            components: [
                MaxwellThreeDRegister::unset(),
                MaxwellThreeDRegister::unset(),
                MaxwellThreeDRegister::unset(),
                MaxwellThreeDRegister::unset(),
            ],
        }
    }

    /// Raw words that take part in pipeline identity: nothing while disabled, the
    /// enable and the four components while enabled, and only the unknown enable
    /// otherwise.
    pub open spec fn pipeline_dependencies(self) -> Seq<Option<u32>> {
        match self.enabled.value {
            Some(false) => seq![],
            Some(true) => seq![
                self.enabled.raw,
                self.components[0].raw,
                self.components[1].raw,
                self.components[2].raw,
                self.components[3].raw,
            ],
            None => seq![self.enabled.raw],
        }
    }

    pub fn append_pipeline_dependencies(&self, dependencies: &mut Vec<Option<u32>>)
        ensures
            final(dependencies)@ == old(dependencies)@ + self.pipeline_dependencies(),
    {
        match self.enabled.value {
            Some(false) => {},
            Some(true) => {
                dependencies.push(self.enabled.raw);
                dependencies.push(self.components[0].raw);
                dependencies.push(self.components[1].raw);
                dependencies.push(self.components[2].raw);
                dependencies.push(self.components[3].raw);
            },
            None => dependencies.push(self.enabled.raw),
        }
    }

    /// Components of a disabled constant color never reach pipeline identity.
    pub proof fn law_disabled_components_are_inert(
        self,
        component: MaxwellThreeDConstantColorComponent,
        value: MaxwellThreeDConstantColorValue,
        source: MaxwellMethodSource,
    )
        requires
            self.enabled.value == Some(false),
        ensures
            self.written(
                MaxwellThreeDConstantColorRenderingStateWrite::Component { component, value, source },
            ).pipeline_dependencies() == self.pipeline_dependencies(),
    {
    }

    pub fn apply(&mut self, write: MaxwellThreeDConstantColorRenderingStateWrite)
        ensures
            *final(self) == old(self).written(write),
    {
        match write {
            MaxwellThreeDConstantColorRenderingStateWrite::Enable { value, source } => {
                self.enabled = MaxwellThreeDRegister::programmed(bool_word(value), value, source);
            },
            MaxwellThreeDConstantColorRenderingStateWrite::Component { component, value, source } => {
                self.components[component.index()] = MaxwellThreeDRegister::programmed(value.bits(), value, source);
            },
        }
    }
}

impl Default for MaxwellThreeDConstantColorRenderingState {
    fn default() -> (r: MaxwellThreeDConstantColorRenderingState)
        ensures
            r.initial(),
    {
        MaxwellThreeDConstantColorRenderingState::unprogrammed()
    }
}

} // verus!
