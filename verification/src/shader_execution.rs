//! Shader scheduling, exception and local-memory registers.

use vstd::prelude::*;
use crate::register::{MaxwellMethodSource, MaxwellThreeDRegister, MaxwellThreeDUnresolvedAddress};

verus! {

/// First subtiling performance word.
#[derive(Clone, Copy, Debug, PartialEq, Eq, Hash, Structural)]
pub struct MaxwellThreeDSubtilingPerfKnobA(pub u32);

impl MaxwellThreeDSubtilingPerfKnobA {
    #[must_use]
    pub fn from_raw(raw: u32) -> (r: MaxwellThreeDSubtilingPerfKnobA)
        ensures
            r.0 == raw,
    {
        MaxwellThreeDSubtilingPerfKnobA(raw)
    }

    pub open spec fn spec_raw(self) -> u32 {
        self.0
    }

    #[must_use]
    #[verifier::when_used_as_spec(spec_raw)]
    pub fn raw(self) -> (r: u32)
        ensures
            r == self.0,
    {
        self.0
    }
}

/// Second subtiling performance word.
#[derive(Clone, Copy, Debug, PartialEq, Eq, Hash, Structural)]
pub struct MaxwellThreeDSubtilingPerfKnobB(pub u32);

impl MaxwellThreeDSubtilingPerfKnobB {
    /// Value within the field.
    pub open spec fn spec_new(raw: u32) -> Option<MaxwellThreeDSubtilingPerfKnobB> {
        if raw <= 0xff {
            Some(MaxwellThreeDSubtilingPerfKnobB(raw))
        } else {
            None
        }
    }

    #[verifier::when_used_as_spec(spec_new)]
    pub fn new(raw: u32) -> (r: Option<MaxwellThreeDSubtilingPerfKnobB>)
        ensures
            r == MaxwellThreeDSubtilingPerfKnobB::spec_new(raw),
    {
        if raw <= 0xff {
            Some(MaxwellThreeDSubtilingPerfKnobB(raw))
        } else {
            None
        }
    }

    pub open spec fn spec_raw(self) -> u32 {
        self.0
    }

    #[must_use]
    #[verifier::when_used_as_spec(spec_raw)]
    pub fn raw(self) -> (r: u32)
        ensures
            r == self.0,
    {
        self.0
    }
}

/// Resource pool that one watermark word bounds.
#[derive(Clone, Copy, Debug, PartialEq, Eq, Hash, Structural)]
pub enum MaxwellThreeDShaderWatermarkTarget {
    VertexTessellationGeometryWarps,
    PixelWarps,
    PixelRegisters,
}

impl MaxwellThreeDShaderWatermarkTarget {
    pub open spec fn spec_index(self) -> usize {
        match self {
            MaxwellThreeDShaderWatermarkTarget::VertexTessellationGeometryWarps => 0,
            MaxwellThreeDShaderWatermarkTarget::PixelWarps => 1,
            MaxwellThreeDShaderWatermarkTarget::PixelRegisters => 2,
        }
    }

    #[must_use]
    #[verifier::when_used_as_spec(spec_index)]
    pub fn index(self) -> (r: usize)
        ensures
            r == self.spec_index(),
            r < 3,
    {
        match self {
            MaxwellThreeDShaderWatermarkTarget::VertexTessellationGeometryWarps => 0,
            MaxwellThreeDShaderWatermarkTarget::PixelWarps => 1,
            MaxwellThreeDShaderWatermarkTarget::PixelRegisters => 2,
        }
    }
}

/// Low and high watermarks of one resource pool.
#[derive(Clone, Copy, Debug, PartialEq, Eq, Hash, Structural)]
pub struct MaxwellThreeDShaderWatermarkRange(pub u32);

impl MaxwellThreeDShaderWatermarkRange {
    #[must_use]
    pub fn from_raw(raw: u32) -> (r: MaxwellThreeDShaderWatermarkRange)
        ensures
            r.0 == raw,
    {
        MaxwellThreeDShaderWatermarkRange(raw)
    }

    pub open spec fn spec_raw(self) -> u32 {
        self.0
    }

    #[must_use]
    #[verifier::when_used_as_spec(spec_raw)]
    pub fn raw(self) -> (r: u32)
        ensures
            r == self.0,
    {
        self.0
    }
}

/// Directly addressable part of the first-level cache.
#[derive(Clone, Copy, Debug, PartialEq, Eq, Hash, Structural)]
pub struct MaxwellThreeDDirectlyAddressableMemory(pub u32);

impl MaxwellThreeDDirectlyAddressableMemory {
    #[must_use]
    pub fn from_raw(raw: u32) -> (r: MaxwellThreeDDirectlyAddressableMemory)
        ensures
            r.0 == raw,
    {
        MaxwellThreeDDirectlyAddressableMemory(raw)
    }

    pub open spec fn spec_raw(self) -> u32 {
        self.0
    }

    #[must_use]
    #[verifier::when_used_as_spec(spec_raw)]
    pub fn raw(self) -> (r: u32)
        ensures
            r == self.0,
    {
        self.0
    }
}

/// Early depth test demanded by the API.
#[derive(Clone, Copy, Debug, PartialEq, Eq, Hash, Structural)]
pub enum MaxwellThreeDApiMandatedEarlyZ {
    Disabled,
    Enabled,
}

impl MaxwellThreeDApiMandatedEarlyZ {
    /// Field encoding of each value.
    pub open spec fn spec_raw(self) -> u32 {
        match self {
            MaxwellThreeDApiMandatedEarlyZ::Disabled => 0,
            MaxwellThreeDApiMandatedEarlyZ::Enabled => 1,
        }
    }

    /// Value of each defined encoding.
    pub open spec fn spec_parse(raw: u32) -> Option<MaxwellThreeDApiMandatedEarlyZ> {
        if raw == 0 {
            Some(MaxwellThreeDApiMandatedEarlyZ::Disabled)
        } else if raw == 1 {
            Some(MaxwellThreeDApiMandatedEarlyZ::Enabled)
        } else {
            None
        }
    }

    #[verifier::when_used_as_spec(spec_parse)]
    pub fn parse(raw: u32) -> (r: Option<MaxwellThreeDApiMandatedEarlyZ>)
        ensures
            r == MaxwellThreeDApiMandatedEarlyZ::spec_parse(raw),
    {
        match raw {
            0 => Some(MaxwellThreeDApiMandatedEarlyZ::Disabled),
            1 => Some(MaxwellThreeDApiMandatedEarlyZ::Enabled),
            _ => None,
        }
    }

    #[must_use]
    #[verifier::when_used_as_spec(spec_raw)]
    pub fn raw(self) -> (r: u32)
        ensures
            r == self.spec_raw(),
    {
        match self {
            MaxwellThreeDApiMandatedEarlyZ::Disabled => 0,
            MaxwellThreeDApiMandatedEarlyZ::Enabled => 1,
        }
    }

    /// Whether the feature is on.
    pub open spec fn spec_enabled(self) -> bool {
        matches!(self, MaxwellThreeDApiMandatedEarlyZ::Enabled)
    }

    #[must_use]
    #[verifier::when_used_as_spec(spec_enabled)]
    pub fn enabled(self) -> (r: bool)
        ensures
            r == self.spec_enabled(),
    {
        matches!(self, MaxwellThreeDApiMandatedEarlyZ::Enabled)
    }

    /// Decoding and encoding are inverse: a word decodes to a value exactly
    /// when it is the encoding of that value.
    pub proof fn law_codec(raw: u32, value: MaxwellThreeDApiMandatedEarlyZ)
        ensures
            MaxwellThreeDApiMandatedEarlyZ::spec_parse(raw) == Some(value) <==> value.spec_raw() == raw,
    {
    }
}

/// Ordering demanded between overlapping pixel shader invocations.
#[derive(Clone, Copy, Debug, PartialEq, Eq, Hash, Structural)]
pub struct MaxwellThreeDPixelShaderInterlockControl(pub u32);

impl MaxwellThreeDPixelShaderInterlockControl {
    #[must_use]
    pub fn from_raw(raw: u32) -> (r: MaxwellThreeDPixelShaderInterlockControl)
        ensures
            r.0 == raw,
    {
        MaxwellThreeDPixelShaderInterlockControl(raw)
    }

    pub open spec fn spec_raw(self) -> u32 {
        self.0
    }

    #[must_use]
    #[verifier::when_used_as_spec(spec_raw)]
    pub fn raw(self) -> (r: u32)
        ensures
            r == self.0,
    {
        self.0
    }
}

/// Limit on the calls a shader may nest.
#[derive(Clone, Copy, Debug, PartialEq, Eq, Hash, Structural)]
pub struct MaxwellThreeDVisibleCallLimit(pub u32);

impl MaxwellThreeDVisibleCallLimit {
    #[must_use]
    pub fn from_raw(raw: u32) -> (r: MaxwellThreeDVisibleCallLimit)
        ensures
            r.0 == raw,
    {
        MaxwellThreeDVisibleCallLimit(raw)
    }

    pub open spec fn spec_raw(self) -> u32 {
        self.0
    }

    #[must_use]
    #[verifier::when_used_as_spec(spec_raw)]
    pub fn raw(self) -> (r: u32)
        ensures
            r == self.0,
    {
        self.0
    }
}

/// Counter bit at which a stalled shader times out.
#[derive(Clone, Copy, Debug, PartialEq, Eq, Hash, Structural)]
pub struct MaxwellThreeDSmTimeoutCounterBit(pub u32);

impl MaxwellThreeDSmTimeoutCounterBit {
    #[must_use]
    pub fn from_raw(raw: u32) -> (r: MaxwellThreeDSmTimeoutCounterBit)
        ensures
            r.0 == raw,
    {
        MaxwellThreeDSmTimeoutCounterBit(raw)
    }

    pub open spec fn spec_raw(self) -> u32 {
        self.0
    }

    #[must_use]
    #[verifier::when_used_as_spec(spec_raw)]
    pub fn raw(self) -> (r: u32)
        ensures
            r == self.0,
    {
        self.0
    }
}

/// Whether shader exceptions are raised.
#[derive(Clone, Copy, Debug, PartialEq, Eq, Hash, Structural)]
pub enum MaxwellThreeDShaderExceptionsEnable {
    Disabled,
    Enabled,
}

impl MaxwellThreeDShaderExceptionsEnable {
    /// Field encoding of each value.
    pub open spec fn spec_raw(self) -> u32 {
        match self {
            MaxwellThreeDShaderExceptionsEnable::Disabled => 0,
            MaxwellThreeDShaderExceptionsEnable::Enabled => 1,
        }
    }

    /// Value of each defined encoding.
    pub open spec fn spec_parse(raw: u32) -> Option<MaxwellThreeDShaderExceptionsEnable> {
        if raw == 0 {
            Some(MaxwellThreeDShaderExceptionsEnable::Disabled)
        } else if raw == 1 {
            Some(MaxwellThreeDShaderExceptionsEnable::Enabled)
        } else {
            None
        }
    }

    #[verifier::when_used_as_spec(spec_parse)]
    pub fn parse(raw: u32) -> (r: Option<MaxwellThreeDShaderExceptionsEnable>)
        ensures
            r == MaxwellThreeDShaderExceptionsEnable::spec_parse(raw),
    {
        match raw {
            0 => Some(MaxwellThreeDShaderExceptionsEnable::Disabled),
            1 => Some(MaxwellThreeDShaderExceptionsEnable::Enabled),
            _ => None,
        }
    }

    #[must_use]
    #[verifier::when_used_as_spec(spec_raw)]
    pub fn raw(self) -> (r: u32)
        ensures
            r == self.spec_raw(),
    {
        match self {
            MaxwellThreeDShaderExceptionsEnable::Disabled => 0,
            MaxwellThreeDShaderExceptionsEnable::Enabled => 1,
        }
    }

    /// Whether the feature is on.
    pub open spec fn spec_enabled(self) -> bool {
        matches!(self, MaxwellThreeDShaderExceptionsEnable::Enabled)
    }

    #[must_use]
    #[verifier::when_used_as_spec(spec_enabled)]
    pub fn enabled(self) -> (r: bool)
        ensures
            r == self.spec_enabled(),
    {
        matches!(self, MaxwellThreeDShaderExceptionsEnable::Enabled)
    }

    /// Decoding and encoding are inverse: a word decodes to a value exactly
    /// when it is the encoding of that value.
    pub proof fn law_codec(raw: u32, value: MaxwellThreeDShaderExceptionsEnable)
        ensures
            MaxwellThreeDShaderExceptionsEnable::spec_parse(raw) == Some(value) <==> value.spec_raw() == raw,
    {
    }
}

/// Bytes of local memory given to each warp.
#[derive(Clone, Copy, Debug, PartialEq, Eq, Hash, Structural)]
pub struct MaxwellThreeDShaderLocalMemoryPerWarpSize(pub u32);

impl MaxwellThreeDShaderLocalMemoryPerWarpSize {
    #[must_use]
    pub fn new(bytes: u32) -> (r: MaxwellThreeDShaderLocalMemoryPerWarpSize)
        ensures
            r.0 == bytes,
    {
        MaxwellThreeDShaderLocalMemoryPerWarpSize(bytes)
    }

    pub open spec fn spec_bytes(self) -> u32 {
        self.0
    }

    #[must_use]
    #[verifier::when_used_as_spec(spec_bytes)]
    pub fn bytes(self) -> (r: u32)
        ensures
            r == self.0,
    {
        self.0
    }
}

/// One validated shader-execution transition.
#[derive(Clone, Copy, Debug, PartialEq, Eq, Hash, Structural)]
#[allow(inconsistent_fields)]
pub enum MaxwellThreeDShaderExecutionStateWrite {
    SubtilingPerfKnobA { value: MaxwellThreeDSubtilingPerfKnobA, source: MaxwellMethodSource },
    SubtilingPerfKnobB { value: MaxwellThreeDSubtilingPerfKnobB, source: MaxwellMethodSource },
    ShaderWatermarks { target: MaxwellThreeDShaderWatermarkTarget, value: MaxwellThreeDShaderWatermarkRange, source: MaxwellMethodSource },
    L1Configuration { value: MaxwellThreeDDirectlyAddressableMemory, source: MaxwellMethodSource },
    ApiMandatedEarlyZ { value: MaxwellThreeDApiMandatedEarlyZ, source: MaxwellMethodSource },
    PixelShaderInterlockControl { value: MaxwellThreeDPixelShaderInterlockControl, source: MaxwellMethodSource },
    VisibleCallLimit { value: MaxwellThreeDVisibleCallLimit, source: MaxwellMethodSource },
    SmTimeoutCounterBit { value: MaxwellThreeDSmTimeoutCounterBit, source: MaxwellMethodSource },
    ShaderExceptionsEnable { value: MaxwellThreeDShaderExceptionsEnable, source: MaxwellMethodSource },
    ShaderLocalMemoryWindowBaseAddress { value: u32, source: MaxwellMethodSource },
    ShaderLocalMemoryAddressUpper { value: u8, source: MaxwellMethodSource },
    ShaderLocalMemoryAddressLower { value: u32, source: MaxwellMethodSource },
    ShaderLocalMemorySizeUpper { value: u8, source: MaxwellMethodSource },
    ShaderLocalMemorySizeLower { value: u32, source: MaxwellMethodSource },
    ShaderLocalMemoryDefaultSizePerWarp { value: MaxwellThreeDShaderLocalMemoryPerWarpSize, source: MaxwellMethodSource },
}

/// Shader scheduling, exception and local-memory registers.
#[derive(Clone, Copy, Debug, PartialEq, Eq)]
pub struct MaxwellThreeDShaderExecutionState {
    pub subtiling_perf_knob_a: MaxwellThreeDRegister<MaxwellThreeDSubtilingPerfKnobA>,
    pub subtiling_perf_knob_b: MaxwellThreeDRegister<MaxwellThreeDSubtilingPerfKnobB>,
    pub shader_watermarks: [MaxwellThreeDRegister<MaxwellThreeDShaderWatermarkRange>; 3],
    pub l1_configuration: MaxwellThreeDRegister<MaxwellThreeDDirectlyAddressableMemory>,
    pub api_mandated_early_z: MaxwellThreeDRegister<MaxwellThreeDApiMandatedEarlyZ>,
    pub pixel_shader_interlock_control: MaxwellThreeDRegister<MaxwellThreeDPixelShaderInterlockControl>,
    pub visible_call_limit: MaxwellThreeDRegister<MaxwellThreeDVisibleCallLimit>,
    pub sm_timeout_counter_bit: MaxwellThreeDRegister<MaxwellThreeDSmTimeoutCounterBit>,
    pub shader_exceptions_enable: MaxwellThreeDRegister<MaxwellThreeDShaderExceptionsEnable>,
    pub local_memory_window_base_address: MaxwellThreeDRegister<u32>,
    pub local_memory_address_upper: MaxwellThreeDRegister<u8>,
    pub local_memory_address_lower: MaxwellThreeDRegister<u32>,
    pub local_memory_size_upper: MaxwellThreeDRegister<u8>,
    pub local_memory_size_lower: MaxwellThreeDRegister<u32>,
    pub local_memory_default_size_per_warp: MaxwellThreeDRegister<MaxwellThreeDShaderLocalMemoryPerWarpSize>,
}

impl MaxwellThreeDShaderExecutionState {
    /// State before any method is decoded.
    pub open spec fn initial(self) -> bool {
        &&& self.subtiling_perf_knob_a == MaxwellThreeDRegister::<MaxwellThreeDSubtilingPerfKnobA>::unset()
        &&& self.subtiling_perf_knob_b == MaxwellThreeDRegister::<MaxwellThreeDSubtilingPerfKnobB>::unset()
        &&& forall|i: int| 0 <= i < 3 ==> self.shader_watermarks[i] == MaxwellThreeDRegister::<MaxwellThreeDShaderWatermarkRange>::unset()
        &&& self.l1_configuration == MaxwellThreeDRegister::<MaxwellThreeDDirectlyAddressableMemory>::unset()
        &&& self.api_mandated_early_z == MaxwellThreeDRegister::<MaxwellThreeDApiMandatedEarlyZ>::unset()
        &&& self.pixel_shader_interlock_control == MaxwellThreeDRegister::<MaxwellThreeDPixelShaderInterlockControl>::unset()
        &&& self.visible_call_limit == MaxwellThreeDRegister::<MaxwellThreeDVisibleCallLimit>::unset()
        &&& self.sm_timeout_counter_bit == MaxwellThreeDRegister::<MaxwellThreeDSmTimeoutCounterBit>::unset()
        &&& self.shader_exceptions_enable == MaxwellThreeDRegister::<MaxwellThreeDShaderExceptionsEnable>::unset()
        &&& self.local_memory_window_base_address == MaxwellThreeDRegister::<u32>::unset()
        &&& self.local_memory_address_upper == MaxwellThreeDRegister::<u8>::unset()
        &&& self.local_memory_address_lower == MaxwellThreeDRegister::<u32>::unset()
        &&& self.local_memory_size_upper == MaxwellThreeDRegister::<u8>::unset()
        &&& self.local_memory_size_lower == MaxwellThreeDRegister::<u32>::unset()
        &&& self.local_memory_default_size_per_warp == MaxwellThreeDRegister::<MaxwellThreeDShaderLocalMemoryPerWarpSize>::unset()
    }

    /// State after one transition: the addressed register holds the written word,
    /// its value and its source, and every other register is unchanged.
    pub open spec fn written(self, write: MaxwellThreeDShaderExecutionStateWrite) -> MaxwellThreeDShaderExecutionState {
        match write {
            MaxwellThreeDShaderExecutionStateWrite::SubtilingPerfKnobA { value, source } => MaxwellThreeDShaderExecutionState {
                subtiling_perf_knob_a: MaxwellThreeDRegister::programmed(source.argument(), value, source),
                ..self
            },
            MaxwellThreeDShaderExecutionStateWrite::SubtilingPerfKnobB { value, source } => MaxwellThreeDShaderExecutionState {
                subtiling_perf_knob_b: MaxwellThreeDRegister::programmed(source.argument(), value, source),
                ..self
            },
            MaxwellThreeDShaderExecutionStateWrite::ShaderWatermarks { target, value, source } => MaxwellThreeDShaderExecutionState {
                shader_watermarks: vstd::array::spec_array_update(
                    self.shader_watermarks,
                    target.index() as int,
                    MaxwellThreeDRegister::programmed(source.argument(), value, source),
                ),
                ..self
            },
            MaxwellThreeDShaderExecutionStateWrite::L1Configuration { value, source } => MaxwellThreeDShaderExecutionState {
                l1_configuration: MaxwellThreeDRegister::programmed(source.argument(), value, source),
                ..self
            },
            MaxwellThreeDShaderExecutionStateWrite::ApiMandatedEarlyZ { value, source } => MaxwellThreeDShaderExecutionState {
                api_mandated_early_z: MaxwellThreeDRegister::programmed(source.argument(), value, source),
                ..self
            },
            MaxwellThreeDShaderExecutionStateWrite::PixelShaderInterlockControl { value, source } => MaxwellThreeDShaderExecutionState {
                pixel_shader_interlock_control: MaxwellThreeDRegister::programmed(source.argument(), value, source),
                ..self
            },
            MaxwellThreeDShaderExecutionStateWrite::VisibleCallLimit { value, source } => MaxwellThreeDShaderExecutionState {
                visible_call_limit: MaxwellThreeDRegister::programmed(source.argument(), value, source),
                ..self
            },
            MaxwellThreeDShaderExecutionStateWrite::SmTimeoutCounterBit { value, source } => MaxwellThreeDShaderExecutionState {
                sm_timeout_counter_bit: MaxwellThreeDRegister::programmed(source.argument(), value, source),
                ..self
            },
            MaxwellThreeDShaderExecutionStateWrite::ShaderExceptionsEnable { value, source } => MaxwellThreeDShaderExecutionState {
                shader_exceptions_enable: MaxwellThreeDRegister::programmed(source.argument(), value, source),
                ..self
            },
            MaxwellThreeDShaderExecutionStateWrite::ShaderLocalMemoryWindowBaseAddress { value, source } => MaxwellThreeDShaderExecutionState {
                local_memory_window_base_address: MaxwellThreeDRegister::programmed(source.argument(), value, source),
                ..self
            },
            MaxwellThreeDShaderExecutionStateWrite::ShaderLocalMemoryAddressUpper { value, source } => MaxwellThreeDShaderExecutionState {
                local_memory_address_upper: MaxwellThreeDRegister::programmed(source.argument(), value, source),
                ..self
            },
            MaxwellThreeDShaderExecutionStateWrite::ShaderLocalMemoryAddressLower { value, source } => MaxwellThreeDShaderExecutionState {
                local_memory_address_lower: MaxwellThreeDRegister::programmed(source.argument(), value, source),
                ..self
            },
            MaxwellThreeDShaderExecutionStateWrite::ShaderLocalMemorySizeUpper { value, source } => MaxwellThreeDShaderExecutionState {
                local_memory_size_upper: MaxwellThreeDRegister::programmed(source.argument(), value, source),
                ..self
            },
            MaxwellThreeDShaderExecutionStateWrite::ShaderLocalMemorySizeLower { value, source } => MaxwellThreeDShaderExecutionState {
                local_memory_size_lower: MaxwellThreeDRegister::programmed(source.argument(), value, source),
                ..self
            },
            MaxwellThreeDShaderExecutionStateWrite::ShaderLocalMemoryDefaultSizePerWarp { value, source } => MaxwellThreeDShaderExecutionState {
                local_memory_default_size_per_warp: MaxwellThreeDRegister::programmed(source.argument(), value, source),
                ..self
            },
        }
    }

    #[must_use]
    pub fn subtiling_perf_knob_a(&self) -> (r: &MaxwellThreeDRegister<MaxwellThreeDSubtilingPerfKnobA>)
        ensures
            *r == self.subtiling_perf_knob_a,
    {
        &self.subtiling_perf_knob_a
    }

    #[must_use]
    pub fn subtiling_perf_knob_b(&self) -> (r: &MaxwellThreeDRegister<MaxwellThreeDSubtilingPerfKnobB>)
        ensures
            *r == self.subtiling_perf_knob_b,
    {
        &self.subtiling_perf_knob_b
    }

    #[must_use]
    pub fn shader_watermarks(&self, target: MaxwellThreeDShaderWatermarkTarget) -> (r: &MaxwellThreeDRegister<MaxwellThreeDShaderWatermarkRange>)
        ensures
            *r == self.shader_watermarks[target.index() as int],
    {
        &self.shader_watermarks[target.index()]
    }

    #[must_use]
    pub fn l1_configuration(&self) -> (r: &MaxwellThreeDRegister<MaxwellThreeDDirectlyAddressableMemory>)
        ensures
            *r == self.l1_configuration,
    {
        &self.l1_configuration
    }

    #[must_use]
    pub fn api_mandated_early_z(&self) -> (r: &MaxwellThreeDRegister<MaxwellThreeDApiMandatedEarlyZ>)
        ensures
            *r == self.api_mandated_early_z,
    {
        &self.api_mandated_early_z
    }

    #[must_use]
    pub fn pixel_shader_interlock_control(&self) -> (r: &MaxwellThreeDRegister<MaxwellThreeDPixelShaderInterlockControl>)
        ensures
            *r == self.pixel_shader_interlock_control,
    {
        &self.pixel_shader_interlock_control
    }

    #[must_use]
    pub fn visible_call_limit(&self) -> (r: &MaxwellThreeDRegister<MaxwellThreeDVisibleCallLimit>)
        ensures
            *r == self.visible_call_limit,
    {
        &self.visible_call_limit
    }

    #[must_use]
    pub fn sm_timeout_counter_bit(&self) -> (r: &MaxwellThreeDRegister<MaxwellThreeDSmTimeoutCounterBit>)
        ensures
            *r == self.sm_timeout_counter_bit,
    {
        &self.sm_timeout_counter_bit
    }

    #[must_use]
    pub fn shader_exceptions_enable(&self) -> (r: &MaxwellThreeDRegister<MaxwellThreeDShaderExceptionsEnable>)
        ensures
            *r == self.shader_exceptions_enable,
    {
        &self.shader_exceptions_enable
    }

    #[must_use]
    pub fn local_memory_window_base_address(&self) -> (r: &MaxwellThreeDRegister<u32>)
        ensures
            *r == self.local_memory_window_base_address,
    {
        &self.local_memory_window_base_address
    }

    #[must_use]
    pub fn local_memory_address_upper(&self) -> (r: &MaxwellThreeDRegister<u8>)
        ensures
            *r == self.local_memory_address_upper,
    {
        &self.local_memory_address_upper
    }

    #[must_use]
    pub fn local_memory_address_lower(&self) -> (r: &MaxwellThreeDRegister<u32>)
        ensures
            *r == self.local_memory_address_lower,
    {
        &self.local_memory_address_lower
    }

    #[must_use]
    pub fn local_memory_size_upper(&self) -> (r: &MaxwellThreeDRegister<u8>)
        ensures
            *r == self.local_memory_size_upper,
    {
        &self.local_memory_size_upper
    }

    #[must_use]
    pub fn local_memory_size_lower(&self) -> (r: &MaxwellThreeDRegister<u32>)
        ensures
            *r == self.local_memory_size_lower,
    {
        &self.local_memory_size_lower
    }

    #[must_use]
    pub fn local_memory_default_size_per_warp(&self) -> (r: &MaxwellThreeDRegister<MaxwellThreeDShaderLocalMemoryPerWarpSize>)
        ensures
            *r == self.local_memory_default_size_per_warp,
    {
        &self.local_memory_default_size_per_warp
    }

    /// State with every register unset.
    #[must_use]
    pub fn unprogrammed() -> (r: MaxwellThreeDShaderExecutionState)
        ensures
            r.initial(),
    {
        MaxwellThreeDShaderExecutionState {
            subtiling_perf_knob_a: MaxwellThreeDRegister::unset(),
            subtiling_perf_knob_b: MaxwellThreeDRegister::unset(),
            shader_watermarks: [
                MaxwellThreeDRegister::unset(),
                MaxwellThreeDRegister::unset(),
                MaxwellThreeDRegister::unset(),
            ],
            l1_configuration: MaxwellThreeDRegister::unset(),
            api_mandated_early_z: MaxwellThreeDRegister::unset(),
            pixel_shader_interlock_control: MaxwellThreeDRegister::unset(),
            visible_call_limit: MaxwellThreeDRegister::unset(),
            sm_timeout_counter_bit: MaxwellThreeDRegister::unset(),
            shader_exceptions_enable: MaxwellThreeDRegister::unset(),
            local_memory_window_base_address: MaxwellThreeDRegister::unset(),
            local_memory_address_upper: MaxwellThreeDRegister::unset(),
            local_memory_address_lower: MaxwellThreeDRegister::unset(),
            local_memory_size_upper: MaxwellThreeDRegister::unset(),
            local_memory_size_lower: MaxwellThreeDRegister::unset(),
            local_memory_default_size_per_warp: MaxwellThreeDRegister::unset(),
        }
    }

    /// Local-memory base, once both halves are programmed.
    pub open spec fn spec_local_memory_address(&self) -> Option<MaxwellThreeDUnresolvedAddress> {
        match (self.local_memory_address_upper.value, self.local_memory_address_lower.value) {
            (Some(upper), Some(lower)) => Some(MaxwellThreeDUnresolvedAddress { upper, lower }),
            _ => None,
        }
    }

    #[must_use]
    #[verifier::when_used_as_spec(spec_local_memory_address)]
    pub fn local_memory_address(&self) -> (r: Option<MaxwellThreeDUnresolvedAddress>)
        ensures
            r == self.spec_local_memory_address(),
    {
        match (self.local_memory_address_upper.value, self.local_memory_address_lower.value) {
            (Some(upper), Some(lower)) => Some(MaxwellThreeDUnresolvedAddress { upper, lower }),
            _ => None,
        }
    }

    /// Local-memory size, once both halves are programmed.
    pub open spec fn spec_local_memory_size(&self) -> Option<MaxwellThreeDUnresolvedAddress> {
        match (self.local_memory_size_upper.value, self.local_memory_size_lower.value) {
            (Some(upper), Some(lower)) => Some(MaxwellThreeDUnresolvedAddress { upper, lower }),
            _ => None,
        }
    }

    #[must_use]
    #[verifier::when_used_as_spec(spec_local_memory_size)]
    pub fn local_memory_size(&self) -> (r: Option<MaxwellThreeDUnresolvedAddress>)
        ensures
            r == self.spec_local_memory_size(),
    {
        match (self.local_memory_size_upper.value, self.local_memory_size_lower.value) {
            (Some(upper), Some(lower)) => Some(MaxwellThreeDUnresolvedAddress { upper, lower }),
            _ => None,
        }
    }

    /// Whether some but not all halves of the local-memory base and size are programmed.
    pub open spec fn spec_local_memory_region_is_partially_programmed(&self) -> bool {
        (self.local_memory_address_upper.value.is_some() || self.local_memory_address_lower.value.is_some() || self.local_memory_size_upper.value.is_some() || self.local_memory_size_lower.value.is_some()) && (self.local_memory_address_upper.value.is_none() || self.local_memory_address_lower.value.is_none() || self.local_memory_size_upper.value.is_none() || self.local_memory_size_lower.value.is_none())
    }

    #[must_use]
    #[verifier::when_used_as_spec(spec_local_memory_region_is_partially_programmed)]
    pub fn local_memory_region_is_partially_programmed(&self) -> (r: bool)
        ensures
            r == self.spec_local_memory_region_is_partially_programmed(),
    {
        (self.local_memory_address_upper.value.is_some() || self.local_memory_address_lower.value.is_some() || self.local_memory_size_upper.value.is_some() || self.local_memory_size_lower.value.is_some()) && (self.local_memory_address_upper.value.is_none() || self.local_memory_address_lower.value.is_none() || self.local_memory_size_upper.value.is_none() || self.local_memory_size_lower.value.is_none())
    }

    pub fn apply(&mut self, write: MaxwellThreeDShaderExecutionStateWrite)
        ensures
            *final(self) == old(self).written(write),
    {
        match write {
            MaxwellThreeDShaderExecutionStateWrite::SubtilingPerfKnobA { value, source } => {
                self.subtiling_perf_knob_a = MaxwellThreeDRegister::programmed(source.argument(), value, source);
            },
            MaxwellThreeDShaderExecutionStateWrite::SubtilingPerfKnobB { value, source } => {
                self.subtiling_perf_knob_b = MaxwellThreeDRegister::programmed(source.argument(), value, source);
            },
            MaxwellThreeDShaderExecutionStateWrite::ShaderWatermarks { target, value, source } => {
                self.shader_watermarks[target.index()] = MaxwellThreeDRegister::programmed(source.argument(), value, source);
            },
            MaxwellThreeDShaderExecutionStateWrite::L1Configuration { value, source } => {
                self.l1_configuration = MaxwellThreeDRegister::programmed(source.argument(), value, source);
            },
            MaxwellThreeDShaderExecutionStateWrite::ApiMandatedEarlyZ { value, source } => {
                self.api_mandated_early_z = MaxwellThreeDRegister::programmed(source.argument(), value, source);
            },
            MaxwellThreeDShaderExecutionStateWrite::PixelShaderInterlockControl { value, source } => {
                self.pixel_shader_interlock_control = MaxwellThreeDRegister::programmed(source.argument(), value, source);
            },
            MaxwellThreeDShaderExecutionStateWrite::VisibleCallLimit { value, source } => {
                self.visible_call_limit = MaxwellThreeDRegister::programmed(source.argument(), value, source);
            },
            MaxwellThreeDShaderExecutionStateWrite::SmTimeoutCounterBit { value, source } => {
                self.sm_timeout_counter_bit = MaxwellThreeDRegister::programmed(source.argument(), value, source);
            },
            MaxwellThreeDShaderExecutionStateWrite::ShaderExceptionsEnable { value, source } => {
                self.shader_exceptions_enable = MaxwellThreeDRegister::programmed(source.argument(), value, source);
            },
            MaxwellThreeDShaderExecutionStateWrite::ShaderLocalMemoryWindowBaseAddress { value, source } => {
                self.local_memory_window_base_address = MaxwellThreeDRegister::programmed(source.argument(), value, source);
            },
            MaxwellThreeDShaderExecutionStateWrite::ShaderLocalMemoryAddressUpper { value, source } => {
                self.local_memory_address_upper = MaxwellThreeDRegister::programmed(source.argument(), value, source);
            },
            MaxwellThreeDShaderExecutionStateWrite::ShaderLocalMemoryAddressLower { value, source } => {
                self.local_memory_address_lower = MaxwellThreeDRegister::programmed(source.argument(), value, source);
            },
            MaxwellThreeDShaderExecutionStateWrite::ShaderLocalMemorySizeUpper { value, source } => {
                self.local_memory_size_upper = MaxwellThreeDRegister::programmed(source.argument(), value, source);
            },
            MaxwellThreeDShaderExecutionStateWrite::ShaderLocalMemorySizeLower { value, source } => {
                self.local_memory_size_lower = MaxwellThreeDRegister::programmed(source.argument(), value, source);
            },
            MaxwellThreeDShaderExecutionStateWrite::ShaderLocalMemoryDefaultSizePerWarp { value, source } => {
                self.local_memory_default_size_per_warp = MaxwellThreeDRegister::programmed(source.argument(), value, source);
            },
        }
    }
}

impl Default for MaxwellThreeDShaderExecutionState {
    fn default() -> (r: MaxwellThreeDShaderExecutionState)
        ensures
            r.initial(),
    {
        MaxwellThreeDShaderExecutionState::unprogrammed()
    }
}

} // verus!
