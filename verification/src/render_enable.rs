//! Render-enable state.

use vstd::prelude::*;
use crate::register::{MaxwellMethodSource, MaxwellThreeDRegister};

verus! {

/// Whether render-enable evaluation may conditionally load a constant buffer.
///
/// Disabled is neutral; enabled state is kept so that operations can reject it.
#[derive(Clone, Copy, Debug, PartialEq, Eq, Hash, Structural)]
pub enum MaxwellThreeDConditionalLoadConstantBuffer {
    Disabled,
    Enabled,
}

impl MaxwellThreeDConditionalLoadConstantBuffer {
    /// Field encoding of each value.
    pub open spec fn spec_raw(self) -> u32 {
        match self {
            MaxwellThreeDConditionalLoadConstantBuffer::Disabled => 0,
            MaxwellThreeDConditionalLoadConstantBuffer::Enabled => 1,
        }
    }

    /// Value of each defined encoding.
    pub open spec fn spec_parse(raw: u32) -> Option<MaxwellThreeDConditionalLoadConstantBuffer> {
        if raw == 0 {
            Some(MaxwellThreeDConditionalLoadConstantBuffer::Disabled)
        } else if raw == 1 {
            Some(MaxwellThreeDConditionalLoadConstantBuffer::Enabled)
        } else {
            None
        }
    }

    #[verifier::when_used_as_spec(spec_parse)]
    pub fn parse(raw: u32) -> (r: Option<MaxwellThreeDConditionalLoadConstantBuffer>)
        ensures
            r == MaxwellThreeDConditionalLoadConstantBuffer::spec_parse(raw),
    {
        match raw {
            0 => Some(MaxwellThreeDConditionalLoadConstantBuffer::Disabled),
            1 => Some(MaxwellThreeDConditionalLoadConstantBuffer::Enabled),
            _ => None,
        }
    }

    #[must_use]
    #[verifier::when_used_as_spec(spec_raw)]
    pub fn raw(self) -> (r: u32)
        ensures
            r == self.spec_raw(),
    {
        match self {
            MaxwellThreeDConditionalLoadConstantBuffer::Disabled => 0,
            MaxwellThreeDConditionalLoadConstantBuffer::Enabled => 1,
        }
    }

    /// Decoding and encoding are inverse: a word decodes to a value exactly
    /// when it is the encoding of that value.
    pub proof fn law_codec(raw: u32, value: MaxwellThreeDConditionalLoadConstantBuffer)
        ensures
            MaxwellThreeDConditionalLoadConstantBuffer::spec_parse(raw) == Some(value) <==> value.spec_raw() == raw,
    {
    }
}

/// Render-enable mode.
#[derive(Clone, Copy, Debug, PartialEq, Eq, Hash, Structural)]
pub enum MaxwellThreeDRenderEnableMode {
    Disabled,
    Enabled,
    Conditional,
    RenderIfEqual,
    RenderIfNotEqual,
}

impl MaxwellThreeDRenderEnableMode {
    /// Field encoding of each value.
    pub open spec fn spec_raw(self) -> u32 {
        match self {
            MaxwellThreeDRenderEnableMode::Disabled => 0,
            MaxwellThreeDRenderEnableMode::Enabled => 1,
            MaxwellThreeDRenderEnableMode::Conditional => 2,
            MaxwellThreeDRenderEnableMode::RenderIfEqual => 3,
            MaxwellThreeDRenderEnableMode::RenderIfNotEqual => 4,
        }
    }

    /// Value of each defined encoding.
    pub open spec fn spec_parse(raw: u32) -> Option<MaxwellThreeDRenderEnableMode> {
        if raw == 0 {
            Some(MaxwellThreeDRenderEnableMode::Disabled)
        } else if raw == 1 {
            Some(MaxwellThreeDRenderEnableMode::Enabled)
        } else if raw == 2 {
            Some(MaxwellThreeDRenderEnableMode::Conditional)
        } else if raw == 3 {
            Some(MaxwellThreeDRenderEnableMode::RenderIfEqual)
        } else if raw == 4 {
            Some(MaxwellThreeDRenderEnableMode::RenderIfNotEqual)
        } else {
            None
        }
    }

    #[verifier::when_used_as_spec(spec_parse)]
    pub fn parse(raw: u32) -> (r: Option<MaxwellThreeDRenderEnableMode>)
        ensures
            r == MaxwellThreeDRenderEnableMode::spec_parse(raw),
    {
        match raw {
            0 => Some(MaxwellThreeDRenderEnableMode::Disabled),
            1 => Some(MaxwellThreeDRenderEnableMode::Enabled),
            2 => Some(MaxwellThreeDRenderEnableMode::Conditional),
            3 => Some(MaxwellThreeDRenderEnableMode::RenderIfEqual),
            4 => Some(MaxwellThreeDRenderEnableMode::RenderIfNotEqual),
            _ => None,
        }
    }

    #[must_use]
    #[verifier::when_used_as_spec(spec_raw)]
    pub fn raw(self) -> (r: u32)
        ensures
            r == self.spec_raw(),
    {
        match self {
            MaxwellThreeDRenderEnableMode::Disabled => 0,
            MaxwellThreeDRenderEnableMode::Enabled => 1,
            MaxwellThreeDRenderEnableMode::Conditional => 2,
            MaxwellThreeDRenderEnableMode::RenderIfEqual => 3,
            MaxwellThreeDRenderEnableMode::RenderIfNotEqual => 4,
        }
    }

    /// Decoding and encoding are inverse: a word decodes to a value exactly
    /// when it is the encoding of that value.
    pub proof fn law_codec(raw: u32, value: MaxwellThreeDRenderEnableMode)
        ensures
            MaxwellThreeDRenderEnableMode::spec_parse(raw) == Some(value) <==> value.spec_raw() == raw,
    {
    }
}

/// One validated render-enable transition.
#[derive(Clone, Copy, Debug, PartialEq, Eq, Hash, Structural)]
#[allow(inconsistent_fields)]
pub enum MaxwellThreeDRenderEnableStateWrite {
    Mode { value: MaxwellThreeDRenderEnableMode, source: MaxwellMethodSource },
    ConditionalLoadConstantBuffer { value: MaxwellThreeDConditionalLoadConstantBuffer, source: MaxwellMethodSource },
}

/// Persistent render-enable configuration.
#[derive(Clone, Copy, Debug, PartialEq, Eq)]
pub struct MaxwellThreeDRenderEnableState {
    pub mode: MaxwellThreeDRegister<MaxwellThreeDRenderEnableMode>,
    pub conditional_load_constant_buffer: MaxwellThreeDRegister<MaxwellThreeDConditionalLoadConstantBuffer>,
}

impl MaxwellThreeDRenderEnableState {
    /// State before any method is decoded.
    pub open spec fn initial(self) -> bool {
        &&& self.mode == MaxwellThreeDRegister::<MaxwellThreeDRenderEnableMode>::unset()
        &&& self.conditional_load_constant_buffer == MaxwellThreeDRegister::<MaxwellThreeDConditionalLoadConstantBuffer>::unset()
    }

    /// State after one transition: the addressed register holds the written word,
    /// its value and its source, and every other register is unchanged.
    pub open spec fn written(self, write: MaxwellThreeDRenderEnableStateWrite) -> MaxwellThreeDRenderEnableState {
        match write {
            MaxwellThreeDRenderEnableStateWrite::Mode { value, source } => MaxwellThreeDRenderEnableState {
                mode: MaxwellThreeDRegister::programmed(value.raw(), value, source),
                ..self
            },
            MaxwellThreeDRenderEnableStateWrite::ConditionalLoadConstantBuffer { value, source } => MaxwellThreeDRenderEnableState {
                conditional_load_constant_buffer: MaxwellThreeDRegister::programmed(value.raw(), value, source),
                ..self
            },
        }
    }

    #[must_use]
    pub fn mode(&self) -> (r: &MaxwellThreeDRegister<MaxwellThreeDRenderEnableMode>)
        ensures
            *r == self.mode,
    {
        &self.mode
    }

    #[must_use]
    pub fn conditional_load_constant_buffer(&self) -> (r: &MaxwellThreeDRegister<MaxwellThreeDConditionalLoadConstantBuffer>)
        ensures
            *r == self.conditional_load_constant_buffer,
    {
        &self.conditional_load_constant_buffer
    }

    /// State with every register unset.
    #[must_use]
    pub fn unprogrammed() -> (r: MaxwellThreeDRenderEnableState)
        ensures
            r.initial(),
    {
        MaxwellThreeDRenderEnableState {
            mode: MaxwellThreeDRegister::unset(),
            conditional_load_constant_buffer: MaxwellThreeDRegister::unset(),
        }
    }

    /// Mode that governs execution, or `None` before any mode is known.
    pub fn execution_mode(&self) -> (r: Option<MaxwellThreeDRenderEnableMode>)
        ensures
            r == self.mode.value,
    {
        self.mode.value
    }

    pub fn apply(&mut self, write: MaxwellThreeDRenderEnableStateWrite)
        ensures
            *final(self) == old(self).written(write),
    {
        match write {
            MaxwellThreeDRenderEnableStateWrite::Mode { value, source } => {
                self.mode = MaxwellThreeDRegister::programmed(value.raw(), value, source);
            },
            MaxwellThreeDRenderEnableStateWrite::ConditionalLoadConstantBuffer { value, source } => {
                self.conditional_load_constant_buffer = MaxwellThreeDRegister::programmed(value.raw(), value, source);
            },
        }
    }
}

impl Default for MaxwellThreeDRenderEnableState {
    fn default() -> (r: MaxwellThreeDRenderEnableState)
        ensures
            r.initial(),
    {
        MaxwellThreeDRenderEnableState::unprogrammed()
    }
}

} // verus!
