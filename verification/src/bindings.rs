//! Shader-visible binding state.
//!
//! These registers hold unresolved guest references, not host resources.

use vstd::prelude::*;
use crate::register::{MaxwellMethodSource, MaxwellThreeDRegister, MaxwellThreeDUnresolvedAddress};

verus! {

pub const MAXWELL_PIPELINE_SHADER_COUNT: usize = 6;

pub const MAXWELL_BIND_GROUP_COUNT: usize = 8;

pub const MAXWELL_CONSTANT_BUFFER_SLOT_COUNT: usize = 32;

pub const MAXWELL_TESSELLATION_LOD_COUNT: usize = 6;

/// Documented reset word of every pipeline-shader register: disabled, first stage.
pub const MAXWELL_THREE_D_PIPELINE_SHADER_RESET: u32 = 0;

/// One of the six default tessellation level registers.
#[derive(Clone, Copy, Debug, PartialEq, Eq, Hash, Structural)]
pub enum MaxwellThreeDTessellationLod {
    OuterU0OrDensity,
    OuterV0OrDetail,
    OuterU1OrW0,
    OuterV1,
    InnerU,
    InnerV,
}

impl MaxwellThreeDTessellationLod {
    pub open spec fn spec_index(self) -> usize {
        match self {
            MaxwellThreeDTessellationLod::OuterU0OrDensity => 0,
            MaxwellThreeDTessellationLod::OuterV0OrDetail => 1,
            MaxwellThreeDTessellationLod::OuterU1OrW0 => 2,
            MaxwellThreeDTessellationLod::OuterV1 => 3,
            MaxwellThreeDTessellationLod::InnerU => 4,
            MaxwellThreeDTessellationLod::InnerV => 5,
        }
    }

    #[must_use]
    #[verifier::when_used_as_spec(spec_index)]
    pub fn index(self) -> (r: usize)
        ensures
            r == self.spec_index(),
            r < 6,
    {
        match self {
            MaxwellThreeDTessellationLod::OuterU0OrDensity => 0,
            MaxwellThreeDTessellationLod::OuterV0OrDetail => 1,
            MaxwellThreeDTessellationLod::OuterU1OrW0 => 2,
            MaxwellThreeDTessellationLod::OuterV1 => 3,
            MaxwellThreeDTessellationLod::InnerU => 4,
            MaxwellThreeDTessellationLod::InnerV => 5,
        }
    }

    /// Level of a register index; indices past the last name the last level.
    pub open spec fn spec_from_index(index: u8) -> MaxwellThreeDTessellationLod {
        match index {
            0 => MaxwellThreeDTessellationLod::OuterU0OrDensity,
            1 => MaxwellThreeDTessellationLod::OuterV0OrDetail,
            2 => MaxwellThreeDTessellationLod::OuterU1OrW0,
            3 => MaxwellThreeDTessellationLod::OuterV1,
            4 => MaxwellThreeDTessellationLod::InnerU,
            _ => MaxwellThreeDTessellationLod::InnerV,
        }
    }

    #[must_use]
    #[verifier::when_used_as_spec(spec_from_index)]
    pub fn from_index(index: u8) -> (r: MaxwellThreeDTessellationLod)
        ensures
            r == MaxwellThreeDTessellationLod::spec_from_index(index),
    {
        match index {
            0 => MaxwellThreeDTessellationLod::OuterU0OrDensity,
            1 => MaxwellThreeDTessellationLod::OuterV0OrDetail,
            2 => MaxwellThreeDTessellationLod::OuterU1OrW0,
            3 => MaxwellThreeDTessellationLod::OuterV1,
            4 => MaxwellThreeDTessellationLod::InnerU,
            _ => MaxwellThreeDTessellationLod::InnerV,
        }
    }

    /// Every level is the level of its own index.
    pub proof fn law_index(self)
        ensures
            MaxwellThreeDTessellationLod::spec_from_index(self.spec_index() as u8) == self,
    {
    }
}

/// Base address of the shader-program region.
#[derive(Clone, Copy, Debug, PartialEq, Eq)]
pub struct MaxwellThreeDProgramRegionState {
    pub address_upper: MaxwellThreeDRegister<u8>,
    pub address_lower: MaxwellThreeDRegister<u32>,
}

impl MaxwellThreeDProgramRegionState {
    pub open spec fn initial(self) -> bool {
        &&& self.address_upper == MaxwellThreeDRegister::<u8>::spec_unset()
        &&& self.address_lower == MaxwellThreeDRegister::<u32>::spec_unset()
    }

    #[must_use]
    pub fn unprogrammed() -> (r: MaxwellThreeDProgramRegionState)
        ensures
            r.initial(),
    {
        MaxwellThreeDProgramRegionState {
            address_upper: MaxwellThreeDRegister::unset(),
            address_lower: MaxwellThreeDRegister::unset(),
        }
    }

    #[must_use]
    pub fn address_upper(&self) -> (r: &MaxwellThreeDRegister<u8>)
        ensures
            *r == self.address_upper,
    {
        &self.address_upper
    }

    #[must_use]
    pub fn address_lower(&self) -> (r: &MaxwellThreeDRegister<u32>)
        ensures
            *r == self.address_lower,
    {
        &self.address_lower
    }

    /// The 40-bit address, once both parts are known.
    pub open spec fn spec_address(&self) -> Option<MaxwellThreeDUnresolvedAddress> {
        match (self.address_upper.value, self.address_lower.value) {
            (Some(upper), Some(lower)) => Some(MaxwellThreeDUnresolvedAddress { upper, lower }),
            _ => None,
        }
    }

    #[must_use]
    #[verifier::when_used_as_spec(spec_address)]
    pub fn address(&self) -> (r: Option<MaxwellThreeDUnresolvedAddress>)
        ensures
            r == self.spec_address(),
    {
        match (self.address_upper.value, self.address_lower.value) {
            (Some(upper), Some(lower)) => Some(MaxwellThreeDUnresolvedAddress::new(upper, lower)),
            _ => None,
        }
    }

    /// Whether one part is known and the address is not.
    pub open spec fn spec_is_partially_programmed(&self) -> bool {
        self.spec_address() is None && (self.address_upper.raw is Some || self.address_lower.raw is Some)
    }

    #[verifier::when_used_as_spec(spec_is_partially_programmed)]
    pub fn is_partially_programmed(&self) -> (r: bool)
        ensures
            r == self.spec_is_partially_programmed(),
    {
        self.address().is_none() && (self.address_upper.raw.is_some()
            || self.address_lower.raw.is_some())
    }
}

impl Default for MaxwellThreeDProgramRegionState {
    fn default() -> (r: MaxwellThreeDProgramRegionState)
        ensures
            r.initial(),
    {
        MaxwellThreeDProgramRegionState::unprogrammed()
    }
}

/// Programmable stage of a pipeline slot.
#[derive(Clone, Copy, Debug, PartialEq, Eq, Hash, Structural)]
pub enum MaxwellThreeDShaderStage {
    VertexCullBeforeFetch,
    Vertex,
    TessellationInit,
    Tessellation,
    Geometry,
    Pixel,
}

impl MaxwellThreeDShaderStage {
    /// Field encoding of each value.
    pub open spec fn spec_raw(self) -> u32 {
        match self {
            MaxwellThreeDShaderStage::VertexCullBeforeFetch => 0,
            MaxwellThreeDShaderStage::Vertex => 1,
            MaxwellThreeDShaderStage::TessellationInit => 2,
            MaxwellThreeDShaderStage::Tessellation => 3,
            MaxwellThreeDShaderStage::Geometry => 4,
            MaxwellThreeDShaderStage::Pixel => 5,
        }
    }

    /// Value of each defined encoding.
    pub open spec fn spec_parse(raw: u32) -> Option<MaxwellThreeDShaderStage> {
        if raw == 0 {
            Some(MaxwellThreeDShaderStage::VertexCullBeforeFetch)
        } else if raw == 1 {
            Some(MaxwellThreeDShaderStage::Vertex)
        } else if raw == 2 {
            Some(MaxwellThreeDShaderStage::TessellationInit)
        } else if raw == 3 {
            Some(MaxwellThreeDShaderStage::Tessellation)
        } else if raw == 4 {
            Some(MaxwellThreeDShaderStage::Geometry)
        } else if raw == 5 {
            Some(MaxwellThreeDShaderStage::Pixel)
        } else {
            None
        }
    }

    #[verifier::when_used_as_spec(spec_parse)]
    pub fn parse(raw: u32) -> (r: Option<MaxwellThreeDShaderStage>)
        ensures
            r == MaxwellThreeDShaderStage::spec_parse(raw),
    {
        match raw {
            0 => Some(MaxwellThreeDShaderStage::VertexCullBeforeFetch),
            1 => Some(MaxwellThreeDShaderStage::Vertex),
            2 => Some(MaxwellThreeDShaderStage::TessellationInit),
            3 => Some(MaxwellThreeDShaderStage::Tessellation),
            4 => Some(MaxwellThreeDShaderStage::Geometry),
            5 => Some(MaxwellThreeDShaderStage::Pixel),
            _ => None,
        }
    }

    #[must_use]
    #[verifier::when_used_as_spec(spec_raw)]
    pub fn raw(self) -> (r: u32)
        ensures
            r == self.spec_raw(),
    {
        match self {
            MaxwellThreeDShaderStage::VertexCullBeforeFetch => 0,
            MaxwellThreeDShaderStage::Vertex => 1,
            MaxwellThreeDShaderStage::TessellationInit => 2,
            MaxwellThreeDShaderStage::Tessellation => 3,
            MaxwellThreeDShaderStage::Geometry => 4,
            MaxwellThreeDShaderStage::Pixel => 5,
        }
    }

    /// Position of the stage in a per-stage array.
    pub open spec fn spec_index(self) -> usize {
        self.spec_raw() as usize
    }

    #[must_use]
    #[verifier::when_used_as_spec(spec_index)]
    pub fn index(self) -> (r: usize)
        ensures
            r == self.spec_index(),
            r < 6,
    {
        self.raw() as usize
    }

    /// Decoding and encoding are inverse: a word decodes to a value exactly
    /// when it is the encoding of that value.
    pub proof fn law_codec(raw: u32, value: MaxwellThreeDShaderStage)
        ensures
            MaxwellThreeDShaderStage::spec_parse(raw) == Some(value) <==> value.spec_raw() == raw,
    {
    }
}

/// One of the six pipeline slots.
#[derive(Clone, Copy, Debug, PartialEq, Eq)]
pub struct MaxwellThreeDPipelineBindingState {
    pub enabled: MaxwellThreeDRegister<bool>,
    pub stage: MaxwellThreeDRegister<MaxwellThreeDShaderStage>,
    pub program_offset: MaxwellThreeDRegister<u32>,
    pub register_count: MaxwellThreeDRegister<u8>,
    pub group: MaxwellThreeDRegister<u8>,
}

impl MaxwellThreeDPipelineBindingState {
    /// Documented reset: the slot is disabled and names the first stage.
    pub open spec fn spec_reset() -> MaxwellThreeDPipelineBindingState {
        MaxwellThreeDPipelineBindingState {
            enabled: MaxwellThreeDRegister::verified_reset(
                MAXWELL_THREE_D_PIPELINE_SHADER_RESET,
                Some(false),
            ),
            stage: MaxwellThreeDRegister::verified_reset(
                MAXWELL_THREE_D_PIPELINE_SHADER_RESET,
                Some(MaxwellThreeDShaderStage::VertexCullBeforeFetch),
            ),
            program_offset: MaxwellThreeDRegister::unset(),
            register_count: MaxwellThreeDRegister::unset(),
            group: MaxwellThreeDRegister::unset(),
        }
    }

    #[must_use]
    #[verifier::when_used_as_spec(spec_reset)]
    pub fn reset() -> (r: MaxwellThreeDPipelineBindingState)
        ensures
            r == MaxwellThreeDPipelineBindingState::spec_reset(),
    {
        MaxwellThreeDPipelineBindingState {
            enabled: MaxwellThreeDRegister::verified_reset(
                MAXWELL_THREE_D_PIPELINE_SHADER_RESET,
                Some(false),
            ),
            stage: MaxwellThreeDRegister::verified_reset(
                MAXWELL_THREE_D_PIPELINE_SHADER_RESET,
                Some(MaxwellThreeDShaderStage::VertexCullBeforeFetch),
            ),
            program_offset: MaxwellThreeDRegister::unset(),
            register_count: MaxwellThreeDRegister::unset(),
            group: MaxwellThreeDRegister::unset(),
        }
    }

    #[must_use]
    pub fn enabled(&self) -> (r: &MaxwellThreeDRegister<bool>)
        ensures
            *r == self.enabled,
    {
        &self.enabled
    }

    #[must_use]
    pub fn stage(&self) -> (r: &MaxwellThreeDRegister<MaxwellThreeDShaderStage>)
        ensures
            *r == self.stage,
    {
        &self.stage
    }

    #[must_use]
    pub fn program_offset(&self) -> (r: &MaxwellThreeDRegister<u32>)
        ensures
            *r == self.program_offset,
    {
        &self.program_offset
    }

    #[must_use]
    pub fn register_count(&self) -> (r: &MaxwellThreeDRegister<u8>)
        ensures
            *r == self.register_count,
    {
        &self.register_count
    }

    #[must_use]
    pub fn group(&self) -> (r: &MaxwellThreeDRegister<u8>)
        ensures
            *r == self.group,
    {
        &self.group
    }

    pub open spec fn spec_is_enabled(self) -> bool {
        self.enabled.value == Some(true)
    }

    #[must_use]
    pub fn is_enabled(&self) -> (r: bool)
        ensures
            r == self.spec_is_enabled(),
    {
        matches!(self.enabled.value, Some(true))
    }

    /// Whether the slot is enabled and runs one of the two tessellation stages.
    pub open spec fn tessellates(self) -> bool {
        self.spec_is_enabled() && (self.stage.value == Some(
            MaxwellThreeDShaderStage::TessellationInit,
        ) || self.stage.value == Some(MaxwellThreeDShaderStage::Tessellation))
    }

    /// Raw words of the slot that take part in pipeline identity. The program
    /// counts only while the slot is enabled.
    pub open spec fn pipeline_dependencies(self) -> Seq<Option<u32>> {
        if self.spec_is_enabled() {
            seq![
                self.enabled.raw,
                self.stage.raw,
                self.program_offset.raw,
                self.register_count.raw,
                self.group.raw,
            ]
        } else {
            seq![self.enabled.raw, self.stage.raw, self.group.raw]
        }
    }
}

impl Default for MaxwellThreeDPipelineBindingState {
    fn default() -> (r: MaxwellThreeDPipelineBindingState)
        ensures
            r == MaxwellThreeDPipelineBindingState::spec_reset(),
    {
        MaxwellThreeDPipelineBindingState::reset()
    }
}

/// Range that later constant-buffer bindings and loads refer to.
#[derive(Clone, Copy, Debug, PartialEq, Eq)]
pub struct MaxwellThreeDConstantBufferSelectorState {
    pub size: MaxwellThreeDRegister<u32>,
    pub address_upper: MaxwellThreeDRegister<u8>,
    pub address_lower: MaxwellThreeDRegister<u32>,
}

impl MaxwellThreeDConstantBufferSelectorState {
    pub open spec fn initial(self) -> bool {
        &&& self.size == MaxwellThreeDRegister::<u32>::spec_unset()
        &&& self.address_upper == MaxwellThreeDRegister::<u8>::spec_unset()
        &&& self.address_lower == MaxwellThreeDRegister::<u32>::spec_unset()
    }

    #[must_use]
    pub fn unprogrammed() -> (r: MaxwellThreeDConstantBufferSelectorState)
        ensures
            r.initial(),
    {
        MaxwellThreeDConstantBufferSelectorState {
            size: MaxwellThreeDRegister::unset(),
            address_upper: MaxwellThreeDRegister::unset(),
            address_lower: MaxwellThreeDRegister::unset(),
        }
    }

    #[must_use]
    pub fn size(&self) -> (r: &MaxwellThreeDRegister<u32>)
        ensures
            *r == self.size,
    {
        &self.size
    }

    #[must_use]
    pub fn address_upper(&self) -> (r: &MaxwellThreeDRegister<u8>)
        ensures
            *r == self.address_upper,
    {
        &self.address_upper
    }

    #[must_use]
    pub fn address_lower(&self) -> (r: &MaxwellThreeDRegister<u32>)
        ensures
            *r == self.address_lower,
    {
        &self.address_lower
    }

    /// The 40-bit address, once both parts are known.
    pub open spec fn spec_address(&self) -> Option<MaxwellThreeDUnresolvedAddress> {
        match (self.address_upper.value, self.address_lower.value) {
            (Some(upper), Some(lower)) => Some(MaxwellThreeDUnresolvedAddress { upper, lower }),
            _ => None,
        }
    }

    #[must_use]
    #[verifier::when_used_as_spec(spec_address)]
    pub fn address(&self) -> (r: Option<MaxwellThreeDUnresolvedAddress>)
        ensures
            r == self.spec_address(),
    {
        match (self.address_upper.value, self.address_lower.value) {
            (Some(upper), Some(lower)) => Some(MaxwellThreeDUnresolvedAddress::new(upper, lower)),
            _ => None,
        }
    }
}

impl Default for MaxwellThreeDConstantBufferSelectorState {
    fn default() -> (r: MaxwellThreeDConstantBufferSelectorState)
        ensures
            r.initial(),
    {
        MaxwellThreeDConstantBufferSelectorState::unprogrammed()
    }
}

/// Inline constant-buffer upload cursor and the last accepted data word.
///
/// The selector supplies the destination range, the offset register selects a byte
/// offset in it, and each data word advances the cursor by four bytes.
#[derive(Clone, Copy, Debug, PartialEq, Eq)]
pub struct MaxwellThreeDConstantBufferLoadState {
    pub offset: MaxwellThreeDRegister<u16>,
    pub next_offset: Option<u32>,
    pub last_data: MaxwellThreeDRegister<u32>,
}

impl MaxwellThreeDConstantBufferLoadState {
    pub open spec fn initial(self) -> bool {
        &&& self.offset == MaxwellThreeDRegister::<u16>::spec_unset()
        &&& self.next_offset is None
        &&& self.last_data == MaxwellThreeDRegister::<u32>::spec_unset()
    }

    #[must_use]
    pub fn unprogrammed() -> (r: MaxwellThreeDConstantBufferLoadState)
        ensures
            r.initial(),
    {
        MaxwellThreeDConstantBufferLoadState {
            offset: MaxwellThreeDRegister::unset(),
            next_offset: None,
            last_data: MaxwellThreeDRegister::unset(),
        }
    }

    #[must_use]
    pub fn offset(&self) -> (r: &MaxwellThreeDRegister<u16>)
        ensures
            *r == self.offset,
    {
        &self.offset
    }

    #[must_use]
    pub fn next_offset(&self) -> (r: Option<u32>)
        ensures
            r == self.next_offset,
    {
        self.next_offset
    }

    #[must_use]
    pub fn last_data(&self) -> (r: &MaxwellThreeDRegister<u32>)
        ensures
            *r == self.last_data,
    {
        &self.last_data
    }
}

impl Default for MaxwellThreeDConstantBufferLoadState {
    fn default() -> (r: MaxwellThreeDConstantBufferLoadState)
        ensures
            r.initial(),
    {
        MaxwellThreeDConstantBufferLoadState::unprogrammed()
    }
}

/// One validated inline word awaiting execution against guest memory.
#[derive(Clone, Copy, Debug, PartialEq, Eq, Hash, Structural)]
pub struct MaxwellThreeDInlineConstantBufferUpload {
    pub address: MaxwellThreeDUnresolvedAddress,
    pub offset: u32,
    pub value: u32,
    pub source: MaxwellMethodSource,
}

impl MaxwellThreeDInlineConstantBufferUpload {
    #[must_use]
    pub fn address(self) -> (r: MaxwellThreeDUnresolvedAddress)
        ensures
            r == self.address,
    {
        self.address
    }

    #[must_use]
    pub fn offset(self) -> (r: u32)
        ensures
            r == self.offset,
    {
        self.offset
    }

    #[must_use]
    pub fn value(self) -> (r: u32)
        ensures
            r == self.value,
    {
        self.value
    }

    #[must_use]
    pub fn source(self) -> (r: MaxwellMethodSource)
        ensures
            r == self.source,
    {
        self.source
    }

    #[must_use]
    pub fn new(
        address: MaxwellThreeDUnresolvedAddress,
        offset: u32,
        value: u32,
        source: MaxwellMethodSource,
    ) -> (r: MaxwellThreeDInlineConstantBufferUpload)
        ensures
            r == (MaxwellThreeDInlineConstantBufferUpload { address, offset, value, source }),
    {
        MaxwellThreeDInlineConstantBufferUpload { address, offset, value, source }
    }
}

/// One constant-buffer slot of a binding group.
#[derive(Clone, Copy, Debug, PartialEq, Eq)]
pub struct MaxwellThreeDConstantBufferBinding {
    pub enabled: bool,
    pub address: Option<MaxwellThreeDUnresolvedAddress>,
    pub size: Option<u32>,
    pub source: MaxwellMethodSource,
}

impl MaxwellThreeDConstantBufferBinding {
    #[must_use]
    pub fn enabled(self) -> (r: bool)
        ensures
            r == self.enabled,
    {
        self.enabled
    }

    #[must_use]
    pub fn address(self) -> (r: Option<MaxwellThreeDUnresolvedAddress>)
        ensures
            r == self.address,
    {
        self.address
    }

    #[must_use]
    pub fn size(self) -> (r: Option<u32>)
        ensures
            r == self.size,
    {
        self.size
    }

    #[must_use]
    pub fn source(self) -> (r: MaxwellMethodSource)
        ensures
            r == self.source,
    {
        self.source
    }
}

/// The constant buffers one binding group makes visible.
#[derive(Clone, Copy, Debug, PartialEq, Eq)]
pub struct MaxwellThreeDBindGroupState {
    pub constant_buffers: [Option<MaxwellThreeDConstantBufferBinding>; 32],
}

impl MaxwellThreeDBindGroupState {
    pub open spec fn initial(self) -> bool {
        forall|i: int| 0 <= i < 32 ==> #[trigger] self.constant_buffers[i] is None
    }

    /// Group with every slot empty.
    #[must_use]
    pub fn empty() -> (r: MaxwellThreeDBindGroupState)
        ensures
            r.initial(),
    {
        MaxwellThreeDBindGroupState {
            constant_buffers: [
                None, None, None, None, None, None, None, None,
                None, None, None, None, None, None, None, None,
                None, None, None, None, None, None, None, None,
                None, None, None, None, None, None, None, None,
            ],
        }
    }

    #[must_use]
    pub fn constant_buffers(&self) -> (r: &[Option<MaxwellThreeDConstantBufferBinding>; 32])
        ensures
            *r == self.constant_buffers,
    {
        &self.constant_buffers
    }
}

impl Default for MaxwellThreeDBindGroupState {
    fn default() -> (r: MaxwellThreeDBindGroupState)
        ensures
            r.initial(),
    {
        MaxwellThreeDBindGroupState::empty()
    }
}

/// How a sampler is chosen for a texture.
#[derive(Clone, Copy, Debug, PartialEq, Eq, Hash, Structural)]
pub enum MaxwellThreeDSamplerBindingMode {
    Independent,
    ViaTextureHeader,
}

/// Base and last index of a descriptor pool.
#[derive(Clone, Copy, Debug, PartialEq, Eq)]
pub struct MaxwellThreeDDescriptorPoolState {
    pub address_upper: MaxwellThreeDRegister<u8>,
    pub address_lower: MaxwellThreeDRegister<u32>,
    pub maximum_index: MaxwellThreeDRegister<u32>,
}

impl MaxwellThreeDDescriptorPoolState {
    pub open spec fn initial(self) -> bool {
        &&& self.address_upper == MaxwellThreeDRegister::<u8>::spec_unset()
        &&& self.address_lower == MaxwellThreeDRegister::<u32>::spec_unset()
        &&& self.maximum_index == MaxwellThreeDRegister::<u32>::spec_unset()
    }

    #[must_use]
    pub fn unprogrammed() -> (r: MaxwellThreeDDescriptorPoolState)
        ensures
            r.initial(),
    {
        MaxwellThreeDDescriptorPoolState {
            address_upper: MaxwellThreeDRegister::unset(),
            address_lower: MaxwellThreeDRegister::unset(),
            maximum_index: MaxwellThreeDRegister::unset(),
        }
    }

    #[must_use]
    pub fn address_upper(&self) -> (r: &MaxwellThreeDRegister<u8>)
        ensures
            *r == self.address_upper,
    {
        &self.address_upper
    }

    #[must_use]
    pub fn address_lower(&self) -> (r: &MaxwellThreeDRegister<u32>)
        ensures
            *r == self.address_lower,
    {
        &self.address_lower
    }

    #[must_use]
    pub fn maximum_index(&self) -> (r: &MaxwellThreeDRegister<u32>)
        ensures
            *r == self.maximum_index,
    {
        &self.maximum_index
    }

    /// The 40-bit address, once both parts are known.
    pub open spec fn spec_address(&self) -> Option<MaxwellThreeDUnresolvedAddress> {
        match (self.address_upper.value, self.address_lower.value) {
            (Some(upper), Some(lower)) => Some(MaxwellThreeDUnresolvedAddress { upper, lower }),
            _ => None,
        }
    }

    #[must_use]
    #[verifier::when_used_as_spec(spec_address)]
    pub fn address(&self) -> (r: Option<MaxwellThreeDUnresolvedAddress>)
        ensures
            r == self.spec_address(),
    {
        match (self.address_upper.value, self.address_lower.value) {
            (Some(upper), Some(lower)) => Some(MaxwellThreeDUnresolvedAddress::new(upper, lower)),
            _ => None,
        }
    }
}

impl Default for MaxwellThreeDDescriptorPoolState {
    fn default() -> (r: MaxwellThreeDDescriptorPoolState)
        ensures
            r.initial(),
    {
        MaxwellThreeDDescriptorPoolState::unprogrammed()
    }
}

/// One validated binding transition. The register word is the packet argument.
#[derive(Clone, Copy, Debug, PartialEq, Eq)]
#[allow(inconsistent_fields)]
pub enum MaxwellThreeDShaderBindingWrite {
    ProgramRegionAddressUpper { value: u8, source: MaxwellMethodSource },
    ProgramRegionAddressLower { value: u32, source: MaxwellMethodSource },
    PipelineShader { pipeline: u8, enabled: bool, stage: MaxwellThreeDShaderStage, source: MaxwellMethodSource },
    PipelineProgram { pipeline: u8, offset: u32, source: MaxwellMethodSource },
    PipelineRegisterCount { pipeline: u8, count: u8, source: MaxwellMethodSource },
    PipelineGroup { pipeline: u8, group: u8, source: MaxwellMethodSource },
    SelectorSize { size: u32, source: MaxwellMethodSource },
    SelectorAddressUpper { value: u8, source: MaxwellMethodSource },
    SelectorAddressLower { value: u32, source: MaxwellMethodSource },
    ConstantBufferLoadOffset { value: u16, source: MaxwellMethodSource },
    ConstantBufferLoadData { value: u32, next_offset: u32, source: MaxwellMethodSource },
    BindConstantBuffer { group: u8, slot: u8, enabled: bool, address: Option<MaxwellThreeDUnresolvedAddress>, size: Option<u32>, source: MaxwellMethodSource },
    TextureHeaderAddressUpper { value: u8, source: MaxwellMethodSource },
    TextureHeaderAddressLower { value: u32, source: MaxwellMethodSource },
    TextureHeaderMaximumIndex { value: u32, source: MaxwellMethodSource },
    SamplerAddressUpper { value: u8, source: MaxwellMethodSource },
    SamplerAddressLower { value: u32, source: MaxwellMethodSource },
    SamplerMaximumIndex { value: u32, source: MaxwellMethodSource },
    SamplerBinding { value: MaxwellThreeDSamplerBindingMode, source: MaxwellMethodSource },
    MaxwellTextureHeaders { value: bool, source: MaxwellMethodSource },
    BindlessTextureSlot { value: u8, source: MaxwellMethodSource },
    TessellationLod { level: MaxwellThreeDTessellationLod, value: u32, source: MaxwellMethodSource },
}

impl MaxwellThreeDShaderBindingWrite {
    /// Slot, group and buffer indices are in range.
    pub open spec fn wf(self) -> bool {
        match self {
            MaxwellThreeDShaderBindingWrite::PipelineShader { pipeline, .. } => pipeline < 6,
            MaxwellThreeDShaderBindingWrite::PipelineProgram { pipeline, .. } => pipeline < 6,
            MaxwellThreeDShaderBindingWrite::PipelineRegisterCount { pipeline, .. } => pipeline < 6,
            MaxwellThreeDShaderBindingWrite::PipelineGroup { pipeline, .. } => pipeline < 6,
            MaxwellThreeDShaderBindingWrite::BindConstantBuffer { group, slot, .. } => group < 8 && slot < 32,
            _ => true,
        }
    }

    pub open spec fn spec_source(self) -> MaxwellMethodSource {
        match self {
            MaxwellThreeDShaderBindingWrite::ProgramRegionAddressUpper { source, .. } => source,
            MaxwellThreeDShaderBindingWrite::ProgramRegionAddressLower { source, .. } => source,
            MaxwellThreeDShaderBindingWrite::PipelineShader { source, .. } => source,
            MaxwellThreeDShaderBindingWrite::PipelineProgram { source, .. } => source,
            MaxwellThreeDShaderBindingWrite::PipelineRegisterCount { source, .. } => source,
            MaxwellThreeDShaderBindingWrite::PipelineGroup { source, .. } => source,
            MaxwellThreeDShaderBindingWrite::SelectorSize { source, .. } => source,
            MaxwellThreeDShaderBindingWrite::SelectorAddressUpper { source, .. } => source,
            MaxwellThreeDShaderBindingWrite::SelectorAddressLower { source, .. } => source,
            MaxwellThreeDShaderBindingWrite::ConstantBufferLoadOffset { source, .. } => source,
            MaxwellThreeDShaderBindingWrite::ConstantBufferLoadData { source, .. } => source,
            MaxwellThreeDShaderBindingWrite::BindConstantBuffer { source, .. } => source,
            MaxwellThreeDShaderBindingWrite::TextureHeaderAddressUpper { source, .. } => source,
            MaxwellThreeDShaderBindingWrite::TextureHeaderAddressLower { source, .. } => source,
            MaxwellThreeDShaderBindingWrite::TextureHeaderMaximumIndex { source, .. } => source,
            MaxwellThreeDShaderBindingWrite::SamplerAddressUpper { source, .. } => source,
            MaxwellThreeDShaderBindingWrite::SamplerAddressLower { source, .. } => source,
            MaxwellThreeDShaderBindingWrite::SamplerMaximumIndex { source, .. } => source,
            MaxwellThreeDShaderBindingWrite::SamplerBinding { source, .. } => source,
            MaxwellThreeDShaderBindingWrite::MaxwellTextureHeaders { source, .. } => source,
            MaxwellThreeDShaderBindingWrite::BindlessTextureSlot { source, .. } => source,
            MaxwellThreeDShaderBindingWrite::TessellationLod { source, .. } => source,
        }
    }

    #[must_use]
    #[verifier::when_used_as_spec(spec_source)]
    pub fn source(self) -> (r: MaxwellMethodSource)
        ensures
            r == self.spec_source(),
    {
        match self {
            MaxwellThreeDShaderBindingWrite::ProgramRegionAddressUpper { source, .. } => source,
            MaxwellThreeDShaderBindingWrite::ProgramRegionAddressLower { source, .. } => source,
            MaxwellThreeDShaderBindingWrite::PipelineShader { source, .. } => source,
            MaxwellThreeDShaderBindingWrite::PipelineProgram { source, .. } => source,
            MaxwellThreeDShaderBindingWrite::PipelineRegisterCount { source, .. } => source,
            MaxwellThreeDShaderBindingWrite::PipelineGroup { source, .. } => source,
            MaxwellThreeDShaderBindingWrite::SelectorSize { source, .. } => source,
            MaxwellThreeDShaderBindingWrite::SelectorAddressUpper { source, .. } => source,
            MaxwellThreeDShaderBindingWrite::SelectorAddressLower { source, .. } => source,
            MaxwellThreeDShaderBindingWrite::ConstantBufferLoadOffset { source, .. } => source,
            MaxwellThreeDShaderBindingWrite::ConstantBufferLoadData { source, .. } => source,
            MaxwellThreeDShaderBindingWrite::BindConstantBuffer { source, .. } => source,
            MaxwellThreeDShaderBindingWrite::TextureHeaderAddressUpper { source, .. } => source,
            MaxwellThreeDShaderBindingWrite::TextureHeaderAddressLower { source, .. } => source,
            MaxwellThreeDShaderBindingWrite::TextureHeaderMaximumIndex { source, .. } => source,
            MaxwellThreeDShaderBindingWrite::SamplerAddressUpper { source, .. } => source,
            MaxwellThreeDShaderBindingWrite::SamplerAddressLower { source, .. } => source,
            MaxwellThreeDShaderBindingWrite::SamplerMaximumIndex { source, .. } => source,
            MaxwellThreeDShaderBindingWrite::SamplerBinding { source, .. } => source,
            MaxwellThreeDShaderBindingWrite::MaxwellTextureHeaders { source, .. } => source,
            MaxwellThreeDShaderBindingWrite::BindlessTextureSlot { source, .. } => source,
            MaxwellThreeDShaderBindingWrite::TessellationLod { source, .. } => source,
        }
    }

    pub open spec fn spec_raw(self) -> u32 {
        self.spec_source().argument
    }

    #[must_use]
    #[verifier::when_used_as_spec(spec_raw)]
    pub fn raw(self) -> (r: u32)
        ensures
            r == self.spec_raw(),
    {
        self.source().argument()
    }
}

/// Shader-visible binding state: unresolved guest references, not host resources.
#[derive(Clone, Copy, Debug, PartialEq, Eq)]
pub struct MaxwellThreeDShaderBindingState {
    pub program_region: MaxwellThreeDProgramRegionState,
    pub pipeline: [MaxwellThreeDPipelineBindingState; 6],
    pub selector: MaxwellThreeDConstantBufferSelectorState,
    pub constant_buffer_load: MaxwellThreeDConstantBufferLoadState,
    pub groups: [MaxwellThreeDBindGroupState; 8],
    pub texture_headers: MaxwellThreeDDescriptorPoolState,
    pub samplers: MaxwellThreeDDescriptorPoolState,
    pub sampler_binding: MaxwellThreeDRegister<MaxwellThreeDSamplerBindingMode>,
    pub maxwell_texture_headers: MaxwellThreeDRegister<bool>,
    pub bindless_texture_constant_buffer_slot: MaxwellThreeDRegister<u8>,
    pub tessellation_lod: [MaxwellThreeDRegister<u32>; 6],
}

impl MaxwellThreeDShaderBindingState {
    pub open spec fn initial(self) -> bool {
        &&& self.program_region.initial()
        &&& forall|i: int|
            0 <= i < 6 ==> #[trigger] self.pipeline[i]
                == MaxwellThreeDPipelineBindingState::spec_reset()
        &&& self.selector.initial()
        &&& self.constant_buffer_load.initial()
        &&& forall|i: int| 0 <= i < 8 ==> #[trigger] self.groups[i].initial()
        &&& self.texture_headers.initial()
        &&& self.samplers.initial()
        &&& self.sampler_binding == MaxwellThreeDRegister::<
            MaxwellThreeDSamplerBindingMode,
        >::spec_unset()
        &&& self.maxwell_texture_headers == MaxwellThreeDRegister::<bool>::spec_unset()
        &&& self.bindless_texture_constant_buffer_slot == MaxwellThreeDRegister::<u8>::spec_unset()
        &&& forall|i: int|
            0 <= i < 6 ==> #[trigger] self.tessellation_lod[i] == MaxwellThreeDRegister::<
                u32,
            >::spec_unset()
    }

    /// State before any method: documented resets in the pipeline slots, every
    /// other register unset.
    #[must_use]
    pub fn unprogrammed() -> (r: MaxwellThreeDShaderBindingState)
        ensures
            r.initial(),
    {
        MaxwellThreeDShaderBindingState {
            program_region: MaxwellThreeDProgramRegionState::unprogrammed(),
            pipeline: [
                MaxwellThreeDPipelineBindingState::reset(),
                MaxwellThreeDPipelineBindingState::reset(),
                MaxwellThreeDPipelineBindingState::reset(),
                MaxwellThreeDPipelineBindingState::reset(),
                MaxwellThreeDPipelineBindingState::reset(),
                MaxwellThreeDPipelineBindingState::reset(),
            ],
            selector: MaxwellThreeDConstantBufferSelectorState::unprogrammed(),
            constant_buffer_load: MaxwellThreeDConstantBufferLoadState::unprogrammed(),
            groups: [
                MaxwellThreeDBindGroupState::empty(),
                MaxwellThreeDBindGroupState::empty(),
                MaxwellThreeDBindGroupState::empty(),
                MaxwellThreeDBindGroupState::empty(),
                MaxwellThreeDBindGroupState::empty(),
                MaxwellThreeDBindGroupState::empty(),
                MaxwellThreeDBindGroupState::empty(),
                MaxwellThreeDBindGroupState::empty(),
            ],
            texture_headers: MaxwellThreeDDescriptorPoolState::unprogrammed(),
            samplers: MaxwellThreeDDescriptorPoolState::unprogrammed(),
            sampler_binding: MaxwellThreeDRegister::unset(),
            maxwell_texture_headers: MaxwellThreeDRegister::unset(),
            bindless_texture_constant_buffer_slot: MaxwellThreeDRegister::unset(),
            tessellation_lod: [
                MaxwellThreeDRegister::unset(),
                MaxwellThreeDRegister::unset(),
                MaxwellThreeDRegister::unset(),
                MaxwellThreeDRegister::unset(),
                MaxwellThreeDRegister::unset(),
                MaxwellThreeDRegister::unset(),
            ],
        }
    }

    /// Slot `pipeline` replaced.
    pub open spec fn with_pipeline(
        self,
        pipeline: u8,
        slot: MaxwellThreeDPipelineBindingState,
    ) -> MaxwellThreeDShaderBindingState {
        MaxwellThreeDShaderBindingState {
            pipeline: vstd::array::spec_array_update(self.pipeline, pipeline as int, slot),
            ..self
        }
    }

    /// Constant buffer `slot` of group `group` replaced.
    pub open spec fn with_constant_buffer(
        self,
        group: u8,
        slot: u8,
        binding: MaxwellThreeDConstantBufferBinding,
    ) -> MaxwellThreeDShaderBindingState {
        MaxwellThreeDShaderBindingState {
            groups: vstd::array::spec_array_update(
                self.groups,
                group as int,
                MaxwellThreeDBindGroupState {
                    constant_buffers: vstd::array::spec_array_update(
                        self.groups[group as int].constant_buffers,
                        slot as int,
                        Some(binding),
                    ),
                },
            ),
            ..self
        }
    }

    /// State after one transition. Each write names the one register it changes,
    /// except that a pipeline-shader word holds both enable and stage and that
    /// the constant-buffer load registers also move the upload cursor.
    pub open spec fn written(self, write: MaxwellThreeDShaderBindingWrite) -> MaxwellThreeDShaderBindingState {
        let raw = write.spec_raw();
        let source = write.spec_source();
        match write {
            MaxwellThreeDShaderBindingWrite::ProgramRegionAddressUpper { value, .. } => MaxwellThreeDShaderBindingState {
                program_region: MaxwellThreeDProgramRegionState {
                    address_upper: MaxwellThreeDRegister::programmed(raw, value, source),
                    ..self.program_region
                },
                ..self
            },
            MaxwellThreeDShaderBindingWrite::ProgramRegionAddressLower { value, .. } => MaxwellThreeDShaderBindingState {
                program_region: MaxwellThreeDProgramRegionState {
                    address_lower: MaxwellThreeDRegister::programmed(raw, value, source),
                    ..self.program_region
                },
                ..self
            },
            MaxwellThreeDShaderBindingWrite::PipelineShader { pipeline, enabled, stage, .. } => self.with_pipeline(
                pipeline,
                MaxwellThreeDPipelineBindingState {
                    enabled: MaxwellThreeDRegister::programmed(raw, enabled, source),
                    stage: MaxwellThreeDRegister::programmed(raw, stage, source),
                    ..self.pipeline[pipeline as int]
                },
            ),
            MaxwellThreeDShaderBindingWrite::PipelineProgram { pipeline, offset, .. } => self.with_pipeline(
                pipeline,
                MaxwellThreeDPipelineBindingState {
                    program_offset: MaxwellThreeDRegister::programmed(raw, offset, source),
                    ..self.pipeline[pipeline as int]
                },
            ),
            MaxwellThreeDShaderBindingWrite::PipelineRegisterCount { pipeline, count, .. } => self.with_pipeline(
                pipeline,
                MaxwellThreeDPipelineBindingState {
                    register_count: MaxwellThreeDRegister::programmed(raw, count, source),
                    ..self.pipeline[pipeline as int]
                },
            ),
            MaxwellThreeDShaderBindingWrite::PipelineGroup { pipeline, group, .. } => self.with_pipeline(
                pipeline,
                MaxwellThreeDPipelineBindingState {
                    group: MaxwellThreeDRegister::programmed(raw, group, source),
                    ..self.pipeline[pipeline as int]
                },
            ),
            MaxwellThreeDShaderBindingWrite::SelectorSize { size, .. } => MaxwellThreeDShaderBindingState {
                selector: MaxwellThreeDConstantBufferSelectorState {
                    size: MaxwellThreeDRegister::programmed(raw, size, source),
                    ..self.selector
                },
                ..self
            },
            MaxwellThreeDShaderBindingWrite::SelectorAddressUpper { value, .. } => MaxwellThreeDShaderBindingState {
                selector: MaxwellThreeDConstantBufferSelectorState {
                    address_upper: MaxwellThreeDRegister::programmed(raw, value, source),
                    ..self.selector
                },
                ..self
            },
            MaxwellThreeDShaderBindingWrite::SelectorAddressLower { value, .. } => MaxwellThreeDShaderBindingState {
                selector: MaxwellThreeDConstantBufferSelectorState {
                    address_lower: MaxwellThreeDRegister::programmed(raw, value, source),
                    ..self.selector
                },
                ..self
            },
            MaxwellThreeDShaderBindingWrite::ConstantBufferLoadOffset { value, .. } => MaxwellThreeDShaderBindingState {
                constant_buffer_load: MaxwellThreeDConstantBufferLoadState {
                    offset: MaxwellThreeDRegister::programmed(raw, value, source),
                    next_offset: Some(value as u32),
                    ..self.constant_buffer_load
                },
                ..self
            },
            MaxwellThreeDShaderBindingWrite::ConstantBufferLoadData { value, next_offset, .. } => MaxwellThreeDShaderBindingState {
                constant_buffer_load: MaxwellThreeDConstantBufferLoadState {
                    last_data: MaxwellThreeDRegister::programmed(raw, value, source),
                    next_offset: Some(next_offset),
                    ..self.constant_buffer_load
                },
                ..self
            },
            MaxwellThreeDShaderBindingWrite::BindConstantBuffer { group, slot, enabled, address, size, .. } => self.with_constant_buffer(
                group,
                slot,
                MaxwellThreeDConstantBufferBinding { enabled, address, size, source },
            ),
            MaxwellThreeDShaderBindingWrite::TextureHeaderAddressUpper { value, .. } => MaxwellThreeDShaderBindingState {
                texture_headers: MaxwellThreeDDescriptorPoolState {
                    address_upper: MaxwellThreeDRegister::programmed(raw, value, source),
                    ..self.texture_headers
                },
                ..self
            },
            MaxwellThreeDShaderBindingWrite::TextureHeaderAddressLower { value, .. } => MaxwellThreeDShaderBindingState {
                texture_headers: MaxwellThreeDDescriptorPoolState {
                    address_lower: MaxwellThreeDRegister::programmed(raw, value, source),
                    ..self.texture_headers
                },
                ..self
            },
            MaxwellThreeDShaderBindingWrite::TextureHeaderMaximumIndex { value, .. } => MaxwellThreeDShaderBindingState {
                texture_headers: MaxwellThreeDDescriptorPoolState {
                    maximum_index: MaxwellThreeDRegister::programmed(raw, value, source),
                    ..self.texture_headers
                },
                ..self
            },
            MaxwellThreeDShaderBindingWrite::SamplerAddressUpper { value, .. } => MaxwellThreeDShaderBindingState {
                samplers: MaxwellThreeDDescriptorPoolState {
                    address_upper: MaxwellThreeDRegister::programmed(raw, value, source),
                    ..self.samplers
                },
                ..self
            },
            MaxwellThreeDShaderBindingWrite::SamplerAddressLower { value, .. } => MaxwellThreeDShaderBindingState {
                samplers: MaxwellThreeDDescriptorPoolState {
                    address_lower: MaxwellThreeDRegister::programmed(raw, value, source),
                    ..self.samplers
                },
                ..self
            },
            MaxwellThreeDShaderBindingWrite::SamplerMaximumIndex { value, .. } => MaxwellThreeDShaderBindingState {
                samplers: MaxwellThreeDDescriptorPoolState {
                    maximum_index: MaxwellThreeDRegister::programmed(raw, value, source),
                    ..self.samplers
                },
                ..self
            },
            MaxwellThreeDShaderBindingWrite::SamplerBinding { value, .. } => MaxwellThreeDShaderBindingState { sampler_binding: MaxwellThreeDRegister::programmed(raw, value, source), ..self },
            MaxwellThreeDShaderBindingWrite::MaxwellTextureHeaders { value, .. } => MaxwellThreeDShaderBindingState { maxwell_texture_headers: MaxwellThreeDRegister::programmed(raw, value, source), ..self },
            MaxwellThreeDShaderBindingWrite::BindlessTextureSlot { value, .. } => MaxwellThreeDShaderBindingState { bindless_texture_constant_buffer_slot: MaxwellThreeDRegister::programmed(raw, value, source), ..self },
            MaxwellThreeDShaderBindingWrite::TessellationLod { level, value, .. } => MaxwellThreeDShaderBindingState {
                tessellation_lod: vstd::array::spec_array_update(
                    self.tessellation_lod,
                    level.spec_index() as int,
                    MaxwellThreeDRegister::programmed(raw, value, source),
                ),
                ..self
            },
        }
    }

    #[must_use]
    pub fn program_region(&self) -> (r: &MaxwellThreeDProgramRegionState)
        ensures
            *r == self.program_region,
    {
        &self.program_region
    }

    #[must_use]
    pub fn pipeline(&self) -> (r: &[MaxwellThreeDPipelineBindingState; 6])
        ensures
            *r == self.pipeline,
    {
        &self.pipeline
    }

    #[must_use]
    pub fn selector(&self) -> (r: &MaxwellThreeDConstantBufferSelectorState)
        ensures
            *r == self.selector,
    {
        &self.selector
    }

    #[must_use]
    pub fn constant_buffer_load(&self) -> (r: &MaxwellThreeDConstantBufferLoadState)
        ensures
            *r == self.constant_buffer_load,
    {
        &self.constant_buffer_load
    }

    #[must_use]
    pub fn groups(&self) -> (r: &[MaxwellThreeDBindGroupState; 8])
        ensures
            *r == self.groups,
    {
        &self.groups
    }

    #[must_use]
    pub fn texture_headers(&self) -> (r: &MaxwellThreeDDescriptorPoolState)
        ensures
            *r == self.texture_headers,
    {
        &self.texture_headers
    }

    #[must_use]
    pub fn samplers(&self) -> (r: &MaxwellThreeDDescriptorPoolState)
        ensures
            *r == self.samplers,
    {
        &self.samplers
    }

    #[must_use]
    pub fn sampler_binding(&self) -> (r: &MaxwellThreeDRegister<MaxwellThreeDSamplerBindingMode>)
        ensures
            *r == self.sampler_binding,
    {
        &self.sampler_binding
    }

    #[must_use]
    pub fn maxwell_texture_headers(&self) -> (r: &MaxwellThreeDRegister<bool>)
        ensures
            *r == self.maxwell_texture_headers,
    {
        &self.maxwell_texture_headers
    }

    #[must_use]
    pub fn bindless_texture_constant_buffer_slot(&self) -> (r: &MaxwellThreeDRegister<u8>)
        ensures
            *r == self.bindless_texture_constant_buffer_slot,
    {
        &self.bindless_texture_constant_buffer_slot
    }

    #[must_use]
    pub fn tessellation_lod(&self, level: MaxwellThreeDTessellationLod) -> (r:
        &MaxwellThreeDRegister<u32>)
        ensures
            *r == self.tessellation_lod[level.spec_index() as int],
    {
        &self.tessellation_lod[level.index()]
    }

    pub open spec fn spec_has_enabled_pipeline(&self) -> bool {
        exists|i: int| 0 <= i < 6 && #[trigger] self.pipeline[i].spec_is_enabled()
    }

    #[must_use]
    #[verifier::when_used_as_spec(spec_has_enabled_pipeline)]
    pub fn has_enabled_pipeline(&self) -> (r: bool)
        ensures
            r == self.spec_has_enabled_pipeline(),
    {
        let mut slot: usize = 0;
        while slot < 6
            invariant
                slot <= 6,
                forall|i: int| 0 <= i < slot ==> !#[trigger] self.pipeline[i].spec_is_enabled(),
            decreases 6 - slot,
        {
            if self.pipeline[slot].is_enabled() {
                return true;
            }
            slot = slot + 1;
        }
        false
    }

    /// Whether an enabled slot below `slots` runs `stage` and selects `group`.
    pub open spec fn stage_selects(
        self,
        slots: int,
        stage: MaxwellThreeDShaderStage,
        group: u8,
    ) -> bool {
        exists|i: int|
            0 <= i < slots && #[trigger] self.pipeline[i].spec_is_enabled()
                && self.pipeline[i].group.value == Some(group) && self.pipeline[i].stage.value
                == Some(stage)
    }

    /// Stages whose enabled pipeline slot selects this binding group.
    #[must_use]
    pub fn stage_visibility(&self, group: u8) -> (r: [bool; 6])
        ensures
            forall|stage: MaxwellThreeDShaderStage|
                r[(#[trigger] stage.spec_index()) as int] == (group < 8 && self.stage_selects(
                    6,
                    stage,
                    group,
                )),
    {
        let mut visible: [bool; 6] = [false, false, false, false, false, false];
        if group >= 8 {
            return visible;
        }
        let mut slot: usize = 0;
        while slot < 6
            invariant
                slot <= 6,
                forall|stage: MaxwellThreeDShaderStage|
                    visible[(#[trigger] stage.spec_index()) as int] == self.stage_selects(
                        slot as int,
                        stage,
                        group,
                    ),
            decreases 6 - slot,
        {
            let ghost before = visible;
            let pipeline = self.pipeline[slot];
            let selected: bool = pipeline.is_enabled() && match pipeline.group.value {
                Some(selected_group) => selected_group == group,
                None => false,
            };
            if selected {
                if let Some(stage) = pipeline.stage.value {
                    visible[stage.index()] = true;
                }
            }
            proof {
                assert forall|stage: MaxwellThreeDShaderStage|
                    visible[(#[trigger] stage.spec_index()) as int] == self.stage_selects(
                        slot + 1,
                        stage,
                        group,
                    ) by {
                    assert(self.stage_selects(slot + 1, stage, group) == (self.stage_selects(
                        slot as int,
                        stage,
                        group,
                    ) || (self.pipeline[slot as int].spec_is_enabled()
                        && self.pipeline[slot as int].group.value == Some(group)
                        && self.pipeline[slot as int].stage.value == Some(stage))));
                    if let Some(other) = pipeline.stage.value {
                        if other != stage {
                            MaxwellThreeDShaderStage::law_codec(other.spec_raw(), stage);
                            MaxwellThreeDShaderStage::law_codec(other.spec_raw(), other);
                        }
                    }
                }
            }
            slot = slot + 1;
        }
        visible
    }

    /// Dependencies of the first `slots` pipeline slots, in order.
    pub open spec fn slot_dependencies(self, slots: nat) -> Seq<Option<u32>>
        decreases slots,
    {
        if slots == 0 {
            seq![]
        } else {
            self.slot_dependencies((slots - 1) as nat)
                + self.pipeline[slots - 1].pipeline_dependencies()
        }
    }

    pub open spec fn spec_tessellates(self) -> bool {
        exists|i: int| 0 <= i < 6 && #[trigger] self.pipeline[i].tessellates()
    }

    /// Raw words that take part in pipeline identity. The program region counts
    /// only while a slot is enabled, and the tessellation levels only while an
    /// enabled slot tessellates.
    pub open spec fn pipeline_dependencies(self) -> Seq<Option<u32>> {
        let region = if self.spec_has_enabled_pipeline() {
            seq![self.program_region.address_upper.raw, self.program_region.address_lower.raw]
        } else {
            seq![]
        };
        let levels = if self.spec_tessellates() {
            Seq::new(6, |i: int| self.tessellation_lod[i].raw)
        } else {
            seq![]
        };
        region + self.slot_dependencies(6) + levels + seq![
            self.sampler_binding.raw,
            self.maxwell_texture_headers.raw,
            self.bindless_texture_constant_buffer_slot.raw,
        ]
    }

    pub fn append_pipeline_dependencies(&self, dependencies: &mut Vec<Option<u32>>)
        ensures
            final(dependencies)@ == old(dependencies)@ + self.pipeline_dependencies(),
    {
        let ghost base = dependencies@;
        if self.has_enabled_pipeline() {
            dependencies.push(self.program_region.address_upper.raw);
            dependencies.push(self.program_region.address_lower.raw);
        }
        let ghost start = dependencies@;
        let mut tessellates: bool = false;
        let mut slot: usize = 0;
        while slot < 6
            invariant
                slot <= 6,
                dependencies@ =~= start + self.slot_dependencies(slot as nat),
                tessellates == exists|i: int|
                    0 <= i < slot && #[trigger] self.pipeline[i].tessellates(),
            decreases 6 - slot,
        {
            let pipeline = self.pipeline[slot];
            let enabled = pipeline.is_enabled();
            dependencies.push(pipeline.enabled.raw);
            dependencies.push(pipeline.stage.raw);
            if enabled {
                dependencies.push(pipeline.program_offset.raw);
                dependencies.push(pipeline.register_count.raw);
            }
            dependencies.push(pipeline.group.raw);
            let slot_tessellates: bool = enabled && match pipeline.stage.value {
                Some(MaxwellThreeDShaderStage::TessellationInit) => true,
                Some(MaxwellThreeDShaderStage::Tessellation) => true,
                _ => false,
            };
            assert(slot_tessellates == self.pipeline[slot as int].tessellates());
            if slot_tessellates {
                tessellates = true;
            }
            slot = slot + 1;
        }
        let ghost slots = dependencies@;
        if tessellates {
            dependencies.push(self.tessellation_lod[0].raw);
            dependencies.push(self.tessellation_lod[1].raw);
            dependencies.push(self.tessellation_lod[2].raw);
            dependencies.push(self.tessellation_lod[3].raw);
            dependencies.push(self.tessellation_lod[4].raw);
            dependencies.push(self.tessellation_lod[5].raw);
            assert(dependencies@ =~= slots + Seq::new(6, |i: int| self.tessellation_lod[i].raw));
        }
        dependencies.push(self.sampler_binding.raw);
        dependencies.push(self.maxwell_texture_headers.raw);
        dependencies.push(self.bindless_texture_constant_buffer_slot.raw);
        assert(dependencies@ =~= base + self.pipeline_dependencies());
    }

    pub fn apply(&mut self, write: MaxwellThreeDShaderBindingWrite)
        requires
            write.wf(),
        ensures
            *final(self) == old(self).written(write),
    {
        let raw: u32 = write.raw();
        let source = write.source();
        match write {
            MaxwellThreeDShaderBindingWrite::ProgramRegionAddressUpper { value, .. } => {
                self.program_region.address_upper = MaxwellThreeDRegister::programmed(raw, value, source);
            },
            MaxwellThreeDShaderBindingWrite::ProgramRegionAddressLower { value, .. } => {
                self.program_region.address_lower = MaxwellThreeDRegister::programmed(raw, value, source);
            },
            MaxwellThreeDShaderBindingWrite::PipelineShader { pipeline, enabled, stage, .. } => {
                let mut slot = self.pipeline[pipeline as usize];
                slot.enabled = MaxwellThreeDRegister::programmed(raw, enabled, source);
                slot.stage = MaxwellThreeDRegister::programmed(raw, stage, source);
                self.pipeline[pipeline as usize] = slot;
            },
            MaxwellThreeDShaderBindingWrite::PipelineProgram { pipeline, offset, .. } => {
                self.pipeline[pipeline as usize].program_offset = MaxwellThreeDRegister::programmed(raw, offset, source);
            },
            MaxwellThreeDShaderBindingWrite::PipelineRegisterCount { pipeline, count, .. } => {
                self.pipeline[pipeline as usize].register_count = MaxwellThreeDRegister::programmed(raw, count, source);
            },
            MaxwellThreeDShaderBindingWrite::PipelineGroup { pipeline, group, .. } => {
                self.pipeline[pipeline as usize].group = MaxwellThreeDRegister::programmed(raw, group, source);
            },
            MaxwellThreeDShaderBindingWrite::SelectorSize { size, .. } => {
                self.selector.size = MaxwellThreeDRegister::programmed(raw, size, source);
            },
            MaxwellThreeDShaderBindingWrite::SelectorAddressUpper { value, .. } => {
                self.selector.address_upper = MaxwellThreeDRegister::programmed(raw, value, source);
            },
            MaxwellThreeDShaderBindingWrite::SelectorAddressLower { value, .. } => {
                self.selector.address_lower = MaxwellThreeDRegister::programmed(raw, value, source);
            },
            MaxwellThreeDShaderBindingWrite::ConstantBufferLoadOffset { value, .. } => {
                self.constant_buffer_load.offset = MaxwellThreeDRegister::programmed(
                    raw,
                    value,
                    source,
                );
                self.constant_buffer_load.next_offset = Some(value as u32);
            },
            MaxwellThreeDShaderBindingWrite::ConstantBufferLoadData { value, next_offset, .. } => {
                self.constant_buffer_load.last_data = MaxwellThreeDRegister::programmed(
                    raw,
                    value,
                    source,
                );
                self.constant_buffer_load.next_offset = Some(next_offset);
            },
            MaxwellThreeDShaderBindingWrite::BindConstantBuffer { group, slot, enabled, address, size, .. } => {
                self.groups[group as usize].constant_buffers[slot as usize] = Some(
                    MaxwellThreeDConstantBufferBinding { enabled, address, size, source },
                );
            },
            MaxwellThreeDShaderBindingWrite::TextureHeaderAddressUpper { value, .. } => {
                self.texture_headers.address_upper = MaxwellThreeDRegister::programmed(raw, value, source);
            },
            MaxwellThreeDShaderBindingWrite::TextureHeaderAddressLower { value, .. } => {
                self.texture_headers.address_lower = MaxwellThreeDRegister::programmed(raw, value, source);
            },
            MaxwellThreeDShaderBindingWrite::TextureHeaderMaximumIndex { value, .. } => {
                self.texture_headers.maximum_index = MaxwellThreeDRegister::programmed(raw, value, source);
            },
            MaxwellThreeDShaderBindingWrite::SamplerAddressUpper { value, .. } => {
                self.samplers.address_upper = MaxwellThreeDRegister::programmed(raw, value, source);
            },
            MaxwellThreeDShaderBindingWrite::SamplerAddressLower { value, .. } => {
                self.samplers.address_lower = MaxwellThreeDRegister::programmed(raw, value, source);
            },
            MaxwellThreeDShaderBindingWrite::SamplerMaximumIndex { value, .. } => {
                self.samplers.maximum_index = MaxwellThreeDRegister::programmed(raw, value, source);
            },
            MaxwellThreeDShaderBindingWrite::SamplerBinding { value, .. } => {
                self.sampler_binding = MaxwellThreeDRegister::programmed(raw, value, source);
            },
            MaxwellThreeDShaderBindingWrite::MaxwellTextureHeaders { value, .. } => {
                self.maxwell_texture_headers = MaxwellThreeDRegister::programmed(raw, value, source);
            },
            MaxwellThreeDShaderBindingWrite::BindlessTextureSlot { value, .. } => {
                self.bindless_texture_constant_buffer_slot = MaxwellThreeDRegister::programmed(raw, value, source);
            },
            MaxwellThreeDShaderBindingWrite::TessellationLod { level, value, .. } => {
                self.tessellation_lod[level.index()] = MaxwellThreeDRegister::programmed(raw, value, source);
            },
        }
    }

    /// The program of a disabled slot never reaches pipeline identity.
    pub proof fn law_disabled_program_is_inert(
        self,
        pipeline: u8,
        offset: u32,
        source: MaxwellMethodSource,
    )
        requires
            pipeline < 6,
            !self.pipeline[pipeline as int].spec_is_enabled(),
        ensures
            self.written(
                MaxwellThreeDShaderBindingWrite::PipelineProgram { pipeline, offset, source },
            ).pipeline_dependencies() == self.pipeline_dependencies(),
    {
        let next = self.written(
            MaxwellThreeDShaderBindingWrite::PipelineProgram { pipeline, offset, source },
        );
        assert forall|i: int| 0 <= i < 6 implies {
            &&& #[trigger] next.pipeline[i].pipeline_dependencies()
                == self.pipeline[i].pipeline_dependencies()
            &&& next.pipeline[i].spec_is_enabled() == self.pipeline[i].spec_is_enabled()
            &&& next.pipeline[i].tessellates() == self.pipeline[i].tessellates()
        } by {
            assert(i == pipeline as int || next.pipeline[i] == self.pipeline[i]);
        }
        next.lemma_slot_dependencies_agree(self, 6);
        assert forall|i: int| 0 <= i < 6 implies #[trigger] self.pipeline[i].spec_is_enabled()
            == next.pipeline[i].spec_is_enabled() by {
            assert(next.pipeline[i].pipeline_dependencies()
                == self.pipeline[i].pipeline_dependencies());
        }
        assert forall|i: int| 0 <= i < 6 implies #[trigger] self.pipeline[i].tessellates()
            == next.pipeline[i].tessellates() by {
            assert(next.pipeline[i].pipeline_dependencies()
                == self.pipeline[i].pipeline_dependencies());
        }
        assert(next.spec_has_enabled_pipeline() == self.spec_has_enabled_pipeline()) by {
            if self.spec_has_enabled_pipeline() {
                let i = choose|i: int|
                    0 <= i < 6 && #[trigger] self.pipeline[i].spec_is_enabled();
                assert(next.pipeline[i].spec_is_enabled());
            }
            if next.spec_has_enabled_pipeline() {
                let i = choose|i: int|
                    0 <= i < 6 && #[trigger] next.pipeline[i].spec_is_enabled();
                assert(self.pipeline[i].spec_is_enabled());
            }
        }
        assert(next.spec_tessellates() == self.spec_tessellates()) by {
            if self.spec_tessellates() {
                let i = choose|i: int| 0 <= i < 6 && #[trigger] self.pipeline[i].tessellates();
                assert(next.pipeline[i].tessellates());
            }
            if next.spec_tessellates() {
                let i = choose|i: int| 0 <= i < 6 && #[trigger] next.pipeline[i].tessellates();
                assert(self.pipeline[i].tessellates());
            }
        }
        assert(next.pipeline_dependencies() =~= self.pipeline_dependencies());
    }

    proof fn lemma_slot_dependencies_agree(self, other: MaxwellThreeDShaderBindingState, slots: nat)
        requires
            slots <= 6,
            forall|i: int|
                0 <= i < 6 ==> #[trigger] self.pipeline[i].pipeline_dependencies()
                    == other.pipeline[i].pipeline_dependencies(),
        ensures
            self.slot_dependencies(slots) == other.slot_dependencies(slots),
        decreases slots,
    {
        if slots > 0 {
            self.lemma_slot_dependencies_agree(other, (slots - 1) as nat);
            assert(self.pipeline[slots - 1].pipeline_dependencies()
                == other.pipeline[slots - 1].pipeline_dependencies());
        }
    }
}

impl Default for MaxwellThreeDShaderBindingState {
    fn default() -> (r: MaxwellThreeDShaderBindingState)
        ensures
            r.initial(),
    {
        MaxwellThreeDShaderBindingState::unprogrammed()
    }
}

} // verus!
