//! Ordering and completion operations.

use vstd::prelude::*;
use crate::register::{MaxwellMethodSource, MaxwellThreeDRegister, MaxwellThreeDUnresolvedAddress};
use crate::state::MaxwellThreeDState;
use crate::timeline::{CacheMaintenanceOperation, GuestSyncpointId, GuestTimelinePoint, ReservedTimelinePoint};

verus! {

/// One validated report-semaphore transition.
#[derive(Clone, Copy, Debug, PartialEq, Eq, Hash, Structural)]
#[allow(inconsistent_fields)]
pub enum MaxwellThreeDReportSemaphoreStateWrite {
    AddressUpper { value: u8, source: MaxwellMethodSource },
    AddressLower { value: u32, source: MaxwellMethodSource },
    Payload { value: u32, source: MaxwellMethodSource },
}

/// Address and payload that a report semaphore release uses.
///
/// The fourth register of the family is the trigger and holds no state.
#[derive(Clone, Copy, Debug, PartialEq, Eq)]
pub struct MaxwellThreeDReportSemaphoreState {
    pub address_upper: MaxwellThreeDRegister<u8>,
    pub address_lower: MaxwellThreeDRegister<u32>,
    pub payload: MaxwellThreeDRegister<u32>,
}

impl MaxwellThreeDReportSemaphoreState {
    /// State before any method is decoded.
    pub open spec fn initial(self) -> bool {
        &&& self.address_upper == MaxwellThreeDRegister::<u8>::unset()
        &&& self.address_lower == MaxwellThreeDRegister::<u32>::unset()
        &&& self.payload == MaxwellThreeDRegister::<u32>::unset()
    }

    /// State after one transition: the addressed register holds the written word,
    /// its value and its source, and every other register is unchanged.
    pub open spec fn written(self, write: MaxwellThreeDReportSemaphoreStateWrite) -> MaxwellThreeDReportSemaphoreState {
        match write {
            MaxwellThreeDReportSemaphoreStateWrite::AddressUpper { value, source } => MaxwellThreeDReportSemaphoreState {
                address_upper: MaxwellThreeDRegister::programmed(value as u32, value, source),
                ..self
            },
            MaxwellThreeDReportSemaphoreStateWrite::AddressLower { value, source } => MaxwellThreeDReportSemaphoreState {
                address_lower: MaxwellThreeDRegister::programmed(value, value, source),
                ..self
            },
            MaxwellThreeDReportSemaphoreStateWrite::Payload { value, source } => MaxwellThreeDReportSemaphoreState {
                payload: MaxwellThreeDRegister::programmed(value, value, source),
                ..self
            },
        }
    }

    #[must_use]
    pub fn address_upper(&self) -> (r: &MaxwellThreeDRegister<u8>)
        ensures
            *r == self.address_upper,
    {
        &self.address_upper
    }

    #[must_use]
    pub fn address_lower(&self) -> (r: &MaxwellThreeDRegister<u32>)
        ensures
            *r == self.address_lower,
    {
        &self.address_lower
    }

    #[must_use]
    pub fn payload(&self) -> (r: &MaxwellThreeDRegister<u32>)
        ensures
            *r == self.payload,
    {
        &self.payload
    }

    /// State with every register unset.
    #[must_use]
    pub fn unprogrammed() -> (r: MaxwellThreeDReportSemaphoreState)
        ensures
            r.initial(),
    {
        MaxwellThreeDReportSemaphoreState {
            address_upper: MaxwellThreeDRegister::unset(),
            address_lower: MaxwellThreeDRegister::unset(),
            payload: MaxwellThreeDRegister::unset(),
        }
    }

    /// The 40-bit address, once both parts are known.
    pub open spec fn spec_address(self) -> Option<MaxwellThreeDUnresolvedAddress> {
        match (self.address_upper.value, self.address_lower.value) {
            (Some(upper), Some(lower)) => Some(MaxwellThreeDUnresolvedAddress { upper, lower }),
            _ => None,
        }
    }

    #[must_use]
    pub fn address(&self) -> (r: Option<MaxwellThreeDUnresolvedAddress>)
        ensures
            r == self.spec_address(),
    {
        match (self.address_upper.value, self.address_lower.value) {
            (Some(upper), Some(lower)) => Some(MaxwellThreeDUnresolvedAddress::new(upper, lower)),
            _ => None,
        }
    }

    pub fn apply(&mut self, write: MaxwellThreeDReportSemaphoreStateWrite)
        ensures
            *final(self) == old(self).written(write),
    {
        match write {
            MaxwellThreeDReportSemaphoreStateWrite::AddressUpper { value, source } => {
                self.address_upper = MaxwellThreeDRegister::programmed(value as u32, value, source);
            },
            MaxwellThreeDReportSemaphoreStateWrite::AddressLower { value, source } => {
                self.address_lower = MaxwellThreeDRegister::programmed(value, value, source);
            },
            MaxwellThreeDReportSemaphoreStateWrite::Payload { value, source } => {
                self.payload = MaxwellThreeDRegister::programmed(value, value, source);
            },
        }
    }
}

impl Default for MaxwellThreeDReportSemaphoreState {
    fn default() -> (r: MaxwellThreeDReportSemaphoreState)
        ensures
            r.initial(),
    {
        MaxwellThreeDReportSemaphoreState::unprogrammed()
    }
}

/// Operation of a report semaphore trigger.
#[derive(Clone, Copy, Debug, PartialEq, Eq, Hash, Structural)]
pub enum MaxwellThreeDReportSemaphoreOperation {
    Release,
    Acquire,
    ReportOnly,
    Trap,
}

/// Pipeline position at which a report semaphore becomes ordered.
#[derive(Clone, Copy, Debug, PartialEq, Eq, Hash, Structural)]
pub enum MaxwellThreeDReportSemaphorePipelineLocation {
    Nowhere,
    DataAssembler,
    VertexShader,
    Vpc,
    StreamingOutput,
    GeometryShader,
    ZCull,
    TessellationInitShader,
    TessellationShader,
    PixelShader,
    DepthTest,
    All,
}

impl MaxwellThreeDReportSemaphorePipelineLocation {
    /// Field encoding of each value.
    pub open spec fn spec_raw(self) -> u32 {
        match self {
            MaxwellThreeDReportSemaphorePipelineLocation::Nowhere => 0,
            MaxwellThreeDReportSemaphorePipelineLocation::DataAssembler => 1,
            MaxwellThreeDReportSemaphorePipelineLocation::VertexShader => 2,
            MaxwellThreeDReportSemaphorePipelineLocation::Vpc => 4,
            MaxwellThreeDReportSemaphorePipelineLocation::StreamingOutput => 5,
            MaxwellThreeDReportSemaphorePipelineLocation::GeometryShader => 6,
            MaxwellThreeDReportSemaphorePipelineLocation::ZCull => 7,
            MaxwellThreeDReportSemaphorePipelineLocation::TessellationInitShader => 8,
            MaxwellThreeDReportSemaphorePipelineLocation::TessellationShader => 9,
            MaxwellThreeDReportSemaphorePipelineLocation::PixelShader => 10,
            MaxwellThreeDReportSemaphorePipelineLocation::DepthTest => 12,
            MaxwellThreeDReportSemaphorePipelineLocation::All => 15,
        }
    }

    /// Value of each defined encoding.
    pub open spec fn spec_parse(raw: u32) -> Option<MaxwellThreeDReportSemaphorePipelineLocation> {
        if raw == 0 {
            Some(MaxwellThreeDReportSemaphorePipelineLocation::Nowhere)
        } else if raw == 1 {
            Some(MaxwellThreeDReportSemaphorePipelineLocation::DataAssembler)
        } else if raw == 2 {
            Some(MaxwellThreeDReportSemaphorePipelineLocation::VertexShader)
        } else if raw == 4 {
            Some(MaxwellThreeDReportSemaphorePipelineLocation::Vpc)
        } else if raw == 5 {
            Some(MaxwellThreeDReportSemaphorePipelineLocation::StreamingOutput)
        } else if raw == 6 {
            Some(MaxwellThreeDReportSemaphorePipelineLocation::GeometryShader)
        } else if raw == 7 {
            Some(MaxwellThreeDReportSemaphorePipelineLocation::ZCull)
        } else if raw == 8 {
            Some(MaxwellThreeDReportSemaphorePipelineLocation::TessellationInitShader)
        } else if raw == 9 {
            Some(MaxwellThreeDReportSemaphorePipelineLocation::TessellationShader)
        } else if raw == 10 {
            Some(MaxwellThreeDReportSemaphorePipelineLocation::PixelShader)
        } else if raw == 12 {
            Some(MaxwellThreeDReportSemaphorePipelineLocation::DepthTest)
        } else if raw == 15 {
            Some(MaxwellThreeDReportSemaphorePipelineLocation::All)
        } else {
            None
        }
    }

    #[verifier::when_used_as_spec(spec_parse)]
    pub fn parse(raw: u32) -> (r: Option<MaxwellThreeDReportSemaphorePipelineLocation>)
        ensures
            r == MaxwellThreeDReportSemaphorePipelineLocation::spec_parse(raw),
    {
        match raw {
            0 => Some(MaxwellThreeDReportSemaphorePipelineLocation::Nowhere),
            1 => Some(MaxwellThreeDReportSemaphorePipelineLocation::DataAssembler),
            2 => Some(MaxwellThreeDReportSemaphorePipelineLocation::VertexShader),
            4 => Some(MaxwellThreeDReportSemaphorePipelineLocation::Vpc),
            5 => Some(MaxwellThreeDReportSemaphorePipelineLocation::StreamingOutput),
            6 => Some(MaxwellThreeDReportSemaphorePipelineLocation::GeometryShader),
            7 => Some(MaxwellThreeDReportSemaphorePipelineLocation::ZCull),
            8 => Some(MaxwellThreeDReportSemaphorePipelineLocation::TessellationInitShader),
            9 => Some(MaxwellThreeDReportSemaphorePipelineLocation::TessellationShader),
            10 => Some(MaxwellThreeDReportSemaphorePipelineLocation::PixelShader),
            12 => Some(MaxwellThreeDReportSemaphorePipelineLocation::DepthTest),
            15 => Some(MaxwellThreeDReportSemaphorePipelineLocation::All),
            _ => None,
        }
    }

    #[must_use]
    #[verifier::when_used_as_spec(spec_raw)]
    pub fn raw(self) -> (r: u32)
        ensures
            r == self.spec_raw(),
    {
        match self {
            MaxwellThreeDReportSemaphorePipelineLocation::Nowhere => 0,
            MaxwellThreeDReportSemaphorePipelineLocation::DataAssembler => 1,
            MaxwellThreeDReportSemaphorePipelineLocation::VertexShader => 2,
            MaxwellThreeDReportSemaphorePipelineLocation::Vpc => 4,
            MaxwellThreeDReportSemaphorePipelineLocation::StreamingOutput => 5,
            MaxwellThreeDReportSemaphorePipelineLocation::GeometryShader => 6,
            MaxwellThreeDReportSemaphorePipelineLocation::ZCull => 7,
            MaxwellThreeDReportSemaphorePipelineLocation::TessellationInitShader => 8,
            MaxwellThreeDReportSemaphorePipelineLocation::TessellationShader => 9,
            MaxwellThreeDReportSemaphorePipelineLocation::PixelShader => 10,
            MaxwellThreeDReportSemaphorePipelineLocation::DepthTest => 12,
            MaxwellThreeDReportSemaphorePipelineLocation::All => 15,
        }
    }

    /// Decoding and encoding are inverse: a word decodes to a value exactly
    /// when it is the encoding of that value.
    pub proof fn law_codec(raw: u32, value: MaxwellThreeDReportSemaphorePipelineLocation)
        ensures
            MaxwellThreeDReportSemaphorePipelineLocation::spec_parse(raw) == Some(value) <==> value.spec_raw() == raw,
    {
    }
}

/// Payload layout written by a report semaphore.
#[derive(Clone, Copy, Debug, PartialEq, Eq, Hash, Structural)]
pub enum MaxwellThreeDReportSemaphoreStructureSize {
    FourWords,
    OneWord,
}

/// Decoded report-semaphore trigger word.
#[derive(Clone, Copy, Debug, PartialEq, Eq, Hash, Structural)]
pub struct MaxwellThreeDReportSemaphoreControl {
    pub raw: u32,
    pub operation: MaxwellThreeDReportSemaphoreOperation,
    pub pipeline_location: MaxwellThreeDReportSemaphorePipelineLocation,
    pub structure_size: MaxwellThreeDReportSemaphoreStructureSize,
}

impl MaxwellThreeDReportSemaphoreControl {
    #[must_use]
    pub fn raw(self) -> (r: u32)
        ensures
            r == self.raw,
    {
        self.raw
    }

    #[must_use]
    pub fn operation(self) -> (r: MaxwellThreeDReportSemaphoreOperation)
        ensures
            r == self.operation,
    {
        self.operation
    }

    #[must_use]
    pub fn pipeline_location(self) -> (r: MaxwellThreeDReportSemaphorePipelineLocation)
        ensures
            r == self.pipeline_location,
    {
        self.pipeline_location
    }

    #[must_use]
    pub fn structure_size(self) -> (r: MaxwellThreeDReportSemaphoreStructureSize)
        ensures
            r == self.structure_size,
    {
        self.structure_size
    }

    /// Operation in bits 1:0.
    pub open spec fn decoded_operation(raw: u32) -> MaxwellThreeDReportSemaphoreOperation {
        if raw & 3 == 0 {
            MaxwellThreeDReportSemaphoreOperation::Release
        } else if raw & 3 == 1 {
            MaxwellThreeDReportSemaphoreOperation::Acquire
        } else if raw & 3 == 2 {
            MaxwellThreeDReportSemaphoreOperation::ReportOnly
        } else {
            MaxwellThreeDReportSemaphoreOperation::Trap
        }
    }

    /// Report selectors that are allocated: every five-bit value but 8, 20, 22 and 23.
    pub open spec fn report_allocated(report: u32) -> bool {
        report != 8 && report != 20 && report != 22 && report != 23
    }

    /// A word decodes when its reserved bits are clear and its location, report and
    /// conditional fields hold allocated values.
    pub open spec fn spec_parse(raw: u32) -> Option<MaxwellThreeDReportSemaphoreControl> {
        let location = MaxwellThreeDReportSemaphorePipelineLocation::spec_parse((raw >> 12) & 0xf);
        if raw & !0x1fb7_ffffu32 == 0 && location is Some
            && MaxwellThreeDReportSemaphoreControl::report_allocated((raw >> 23) & 0x1f) && (raw >> 17)
            & 3 <= 1 {
            Some(
                MaxwellThreeDReportSemaphoreControl {
                    raw,
                    operation: MaxwellThreeDReportSemaphoreControl::decoded_operation(raw),
                    pipeline_location: location->0,
                    structure_size: if raw & 0x1000_0000 == 0 {
                        MaxwellThreeDReportSemaphoreStructureSize::FourWords
                    } else {
                        MaxwellThreeDReportSemaphoreStructureSize::OneWord
                    },
                },
            )
        } else {
            None
        }
    }

    #[verifier::when_used_as_spec(spec_parse)]
    pub fn parse(raw: u32) -> (r: Option<MaxwellThreeDReportSemaphoreControl>)
        ensures
            r == MaxwellThreeDReportSemaphoreControl::spec_parse(raw),
    {
        if raw & !0x1fb7_ffffu32 != 0 {
            return None;
        }
        let operation = match raw & 3 {
            0 => MaxwellThreeDReportSemaphoreOperation::Release,
            1 => MaxwellThreeDReportSemaphoreOperation::Acquire,
            2 => MaxwellThreeDReportSemaphoreOperation::ReportOnly,
            _ => MaxwellThreeDReportSemaphoreOperation::Trap,
        };
        let pipeline_location = match MaxwellThreeDReportSemaphorePipelineLocation::parse(
            (raw >> 12) & 0xf,
        ) {
            Some(value) => value,
            None => {
                return None;
            },
        };
        let report: u32 = (raw >> 23) & 0x1f;
        if report == 8 || report == 20 || report == 22 || report == 23 || (raw >> 17) & 3 > 1 {
            return None;
        }
        Some(
            MaxwellThreeDReportSemaphoreControl {
                raw,
                operation,
                pipeline_location,
                structure_size: if raw & 0x1000_0000 == 0 {
                    MaxwellThreeDReportSemaphoreStructureSize::FourWords
                } else {
                    MaxwellThreeDReportSemaphoreStructureSize::OneWord
                },
            },
        )
    }

    /// The one release form that can be lowered: a one-word release ordered after
    /// all earlier work.
    pub open spec fn spec_is_captured_release(self) -> bool {
        self.raw == 0x1000_f010
    }

    #[must_use]
    #[verifier::when_used_as_spec(spec_is_captured_release)]
    pub fn is_captured_release(self) -> (r: bool)
        ensures
            r == self.spec_is_captured_release(),
    {
        self.raw == 0x1000_f010
    }

    /// The captured word decodes to a one-word release at the end of the pipeline.
    pub proof fn law_captured_release()
        ensures
            MaxwellThreeDReportSemaphoreControl::spec_parse(0x1000_f010) == Some(
                MaxwellThreeDReportSemaphoreControl {
                    raw: 0x1000_f010,
                    operation: MaxwellThreeDReportSemaphoreOperation::Release,
                    pipeline_location: MaxwellThreeDReportSemaphorePipelineLocation::All,
                    structure_size: MaxwellThreeDReportSemaphoreStructureSize::OneWord,
                },
            ),
    {
        assert({
            &&& 0x1000_f010u32 & !0x1fb7_ffffu32 == 0
            &&& 0x1000_f010u32 & 3 == 0
            &&& (0x1000_f010u32 >> 12) & 0xf == 15
            &&& (0x1000_f010u32 >> 23) & 0x1f == 0
            &&& (0x1000_f010u32 >> 17) & 3 == 0
            &&& 0x1000_f010u32 & 0x1000_0000 != 0
        }) by (bit_vector);
    }
}

/// One ordered one-word release to guest-visible memory.
#[derive(Clone, Copy, Debug, PartialEq, Eq, Hash, Structural)]
pub struct MaxwellThreeDReportSemaphoreRelease {
    pub address: MaxwellThreeDUnresolvedAddress,
    pub payload: u32,
    pub source: MaxwellMethodSource,
    pub prior_work_pending: bool,
}

impl MaxwellThreeDReportSemaphoreRelease {
    #[must_use]
    pub fn address(self) -> (r: MaxwellThreeDUnresolvedAddress)
        ensures
            r == self.address,
    {
        self.address
    }

    #[must_use]
    pub fn payload(self) -> (r: u32)
        ensures
            r == self.payload,
    {
        self.payload
    }

    #[must_use]
    pub fn source(self) -> (r: MaxwellMethodSource)
        ensures
            r == self.source,
    {
        self.source
    }

    #[must_use]
    pub fn prior_work_pending(self) -> (r: bool)
        ensures
            r == self.prior_work_pending,
    {
        self.prior_work_pending
    }
}

/// Shader caches selected by an invalidation.
#[derive(Clone, Copy, Debug, PartialEq, Eq, Hash, Structural)]
pub struct MaxwellShaderCacheInvalidation {
    pub instruction: bool,
    pub global_data: bool,
    pub constant: bool,
}

impl MaxwellShaderCacheInvalidation {
    #[must_use]
    pub fn new(instruction: bool, global_data: bool, constant: bool) -> (r: MaxwellShaderCacheInvalidation)
        ensures
            r == (MaxwellShaderCacheInvalidation { instruction, global_data, constant }),
    {
        MaxwellShaderCacheInvalidation { instruction, global_data, constant }
    }

    #[must_use]
    pub fn instruction(self) -> (r: bool)
        ensures
            r == self.instruction,
    {
        self.instruction
    }

    #[must_use]
    pub fn global_data(self) -> (r: bool)
        ensures
            r == self.global_data,
    {
        self.global_data
    }

    #[must_use]
    pub fn constant(self) -> (r: bool)
        ensures
            r == self.constant,
    {
        self.constant
    }
}

/// Ordered shader-cache invalidation request.
#[derive(Clone, Copy, Debug, PartialEq, Eq, Hash, Structural)]
pub struct MaxwellThreeDShaderCacheInvalidation {
    pub caches: MaxwellShaderCacheInvalidation,
    pub locks: bool,
    pub flush_data: bool,
}

impl MaxwellThreeDShaderCacheInvalidation {
    #[must_use]
    pub fn new(caches: MaxwellShaderCacheInvalidation, locks: bool, flush_data: bool) -> (r: MaxwellThreeDShaderCacheInvalidation)
        ensures
            r == (MaxwellThreeDShaderCacheInvalidation { caches, locks, flush_data }),
    {
        MaxwellThreeDShaderCacheInvalidation { caches, locks, flush_data }
    }

    #[must_use]
    pub fn caches(self) -> (r: MaxwellShaderCacheInvalidation)
        ensures
            r == self.caches,
    {
        self.caches
    }

    #[must_use]
    pub fn locks(self) -> (r: bool)
        ensures
            r == self.locks,
    {
        self.locks
    }

    #[must_use]
    pub fn flush_data(self) -> (r: bool)
        ensures
            r == self.flush_data,
    {
        self.flush_data
    }
}

/// Work whose completion gates a syncpoint increment.
#[derive(Clone, Copy, Debug, PartialEq, Eq, Hash, Structural)]
pub enum MaxwellThreeDSyncpointCondition {
    StreamOutWritesDone,
    RopWritesDone,
}

/// Request to flush pending writes.
#[derive(Clone, Copy, Debug, PartialEq, Eq, Hash, Structural)]
pub struct MaxwellThreeDFlushPendingWrites {
    pub sm_does_global_store: bool,
}

impl MaxwellThreeDFlushPendingWrites {
    #[must_use]
    pub fn new(sm_does_global_store: bool) -> (r: MaxwellThreeDFlushPendingWrites)
        ensures
            r == (MaxwellThreeDFlushPendingWrites { sm_does_global_store }),
    {
        MaxwellThreeDFlushPendingWrites { sm_does_global_store }
    }

    #[must_use]
    pub fn sm_does_global_store(self) -> (r: bool)
        ensures
            r == self.sm_does_global_store,
    {
        self.sm_does_global_store
    }
}

/// Cache lines selected by a texture-cache invalidation.
#[derive(Clone, Copy, Debug, PartialEq, Eq, Hash, Structural)]
pub enum MaxwellThreeDTextureCacheLines {
    All,
    One,
}

/// Texture-related cache selected by an invalidation.
#[derive(Clone, Copy, Debug, PartialEq, Eq, Hash, Structural)]
pub enum MaxwellThreeDTextureCacheTarget {
    Data,
    Header,
    Sampler,
}

/// Texture-related cache invalidation request.
#[derive(Clone, Copy, Debug, PartialEq, Eq, Hash, Structural)]
pub struct MaxwellThreeDTextureCacheInvalidation {
    pub target: MaxwellThreeDTextureCacheTarget,
    pub lines: MaxwellThreeDTextureCacheLines,
    pub tag: u32,
}

impl MaxwellThreeDTextureCacheInvalidation {
    #[must_use]
    pub fn new(target: MaxwellThreeDTextureCacheTarget, lines: MaxwellThreeDTextureCacheLines, tag: u32) -> (r: MaxwellThreeDTextureCacheInvalidation)
        ensures
            r == (MaxwellThreeDTextureCacheInvalidation { target, lines, tag }),
    {
        MaxwellThreeDTextureCacheInvalidation { target, lines, tag }
    }

    #[must_use]
    pub fn target(self) -> (r: MaxwellThreeDTextureCacheTarget)
        ensures
            r == self.target,
    {
        self.target
    }

    #[must_use]
    pub fn lines(self) -> (r: MaxwellThreeDTextureCacheLines)
        ensures
            r == self.lines,
    {
        self.lines
    }

    #[must_use]
    pub fn tag(self) -> (r: u32)
        ensures
            r == self.tag,
    {
        self.tag
    }

    /// Request held in an invalidation word: the line selector in bit 0 and the tag
    /// in bits 25:4.
    pub open spec fn spec_decode(target: MaxwellThreeDTextureCacheTarget, raw: u32) -> MaxwellThreeDTextureCacheInvalidation {
        MaxwellThreeDTextureCacheInvalidation {
            target,
            lines: if raw & 1 == 0 {
                MaxwellThreeDTextureCacheLines::All
            } else {
                MaxwellThreeDTextureCacheLines::One
            },
            tag: (raw >> 4) & 0x003f_ffff,
        }
    }

    #[verifier::when_used_as_spec(spec_decode)]
    pub fn decode(target: MaxwellThreeDTextureCacheTarget, raw: u32) -> (r:
        MaxwellThreeDTextureCacheInvalidation)
        ensures
            r == MaxwellThreeDTextureCacheInvalidation::spec_decode(target, raw),
    {
        MaxwellThreeDTextureCacheInvalidation {
            target,
            lines: if raw & 1 == 0 {
                MaxwellThreeDTextureCacheLines::All
            } else {
                MaxwellThreeDTextureCacheLines::One
            },
            tag: (raw >> 4) & 0x003f_ffff,
        }
    }
}

/// Syncpoint increment request.
#[derive(Clone, Copy, Debug, PartialEq, Eq, Hash, Structural)]
pub struct MaxwellThreeDSyncpointIncrement {
    pub syncpoint: GuestSyncpointId,
    pub clean_l2: bool,
    pub condition: MaxwellThreeDSyncpointCondition,
}

impl MaxwellThreeDSyncpointIncrement {
    #[must_use]
    pub fn new(syncpoint: GuestSyncpointId, clean_l2: bool, condition: MaxwellThreeDSyncpointCondition) -> (r: MaxwellThreeDSyncpointIncrement)
        ensures
            r == (MaxwellThreeDSyncpointIncrement { syncpoint, clean_l2, condition }),
    {
        MaxwellThreeDSyncpointIncrement { syncpoint, clean_l2, condition }
    }

    #[must_use]
    pub fn syncpoint(self) -> (r: GuestSyncpointId)
        ensures
            r == self.syncpoint,
    {
        self.syncpoint
    }

    #[must_use]
    pub fn clean_l2(self) -> (r: bool)
        ensures
            r == self.clean_l2,
    {
        self.clean_l2
    }

    #[must_use]
    pub fn condition(self) -> (r: MaxwellThreeDSyncpointCondition)
        ensures
            r == self.condition,
    {
        self.condition
    }

    /// Request held in an increment word: the syncpoint in bits 11:0, the cache
    /// clean in bit 16 and the condition in bit 20.
    pub open spec fn spec_decode(raw: u32) -> MaxwellThreeDSyncpointIncrement {
        MaxwellThreeDSyncpointIncrement {
            syncpoint: GuestSyncpointId(raw & 0x0fff),
            clean_l2: raw & 0x1_0000 != 0,
            condition: if raw & 0x10_0000 == 0 {
                MaxwellThreeDSyncpointCondition::StreamOutWritesDone
            } else {
                MaxwellThreeDSyncpointCondition::RopWritesDone
            },
        }
    }

    #[verifier::when_used_as_spec(spec_decode)]
    pub fn decode(raw: u32) -> (r: MaxwellThreeDSyncpointIncrement)
        ensures
            r == MaxwellThreeDSyncpointIncrement::spec_decode(raw),
    {
        MaxwellThreeDSyncpointIncrement {
            syncpoint: GuestSyncpointId::new(raw & 0x0fff),
            clean_l2: raw & 0x1_0000 != 0,
            condition: if raw & 0x10_0000 == 0 {
                MaxwellThreeDSyncpointCondition::StreamOutWritesDone
            } else {
                MaxwellThreeDSyncpointCondition::RopWritesDone
            },
        }
    }
}

/// One execution-order trigger.
#[derive(Clone, Copy, Debug, PartialEq, Eq, Hash, Structural)]
#[allow(inconsistent_fields)]
pub enum MaxwellThreeDSynchronizationTrigger {
    WaitForIdle { value: u32, source: MaxwellMethodSource },
    InvalidateShaderCaches { request: MaxwellThreeDShaderCacheInvalidation, source: MaxwellMethodSource },
    InvalidateShaderCachesNoWfi { caches: MaxwellShaderCacheInvalidation, source: MaxwellMethodSource },
    InvalidateTextureCacheNoWfi { request: MaxwellThreeDTextureCacheInvalidation, source: MaxwellMethodSource },
    InvalidateTextureCache { request: MaxwellThreeDTextureCacheInvalidation, source: MaxwellMethodSource },
    FlushPendingWrites { request: MaxwellThreeDFlushPendingWrites, source: MaxwellMethodSource },
    ReportSemaphore { control: MaxwellThreeDReportSemaphoreControl, source: MaxwellMethodSource },
    IncrementSyncpoint { request: MaxwellThreeDSyncpointIncrement, source: MaxwellMethodSource },
}

impl MaxwellThreeDSynchronizationTrigger {
    pub open spec fn spec_source(self) -> MaxwellMethodSource {
        match self {
            MaxwellThreeDSynchronizationTrigger::WaitForIdle { source, .. } => source,
            MaxwellThreeDSynchronizationTrigger::InvalidateShaderCaches { source, .. } => source,
            MaxwellThreeDSynchronizationTrigger::InvalidateShaderCachesNoWfi { source, .. } => source,
            MaxwellThreeDSynchronizationTrigger::InvalidateTextureCacheNoWfi { source, .. } => source,
            MaxwellThreeDSynchronizationTrigger::InvalidateTextureCache { source, .. } => source,
            MaxwellThreeDSynchronizationTrigger::FlushPendingWrites { source, .. } => source,
            MaxwellThreeDSynchronizationTrigger::ReportSemaphore { source, .. } => source,
            MaxwellThreeDSynchronizationTrigger::IncrementSyncpoint { source, .. } => source,
        }
    }

    #[must_use]
    #[verifier::when_used_as_spec(spec_source)]
    pub fn source(self) -> (r: MaxwellMethodSource)
        ensures
            r == self.spec_source(),
    {
        match self {
            MaxwellThreeDSynchronizationTrigger::WaitForIdle { source, .. } => source,
            MaxwellThreeDSynchronizationTrigger::InvalidateShaderCaches { source, .. } => source,
            MaxwellThreeDSynchronizationTrigger::InvalidateShaderCachesNoWfi { source, .. } => source,
            MaxwellThreeDSynchronizationTrigger::InvalidateTextureCacheNoWfi { source, .. } => source,
            MaxwellThreeDSynchronizationTrigger::InvalidateTextureCache { source, .. } => source,
            MaxwellThreeDSynchronizationTrigger::FlushPendingWrites { source, .. } => source,
            MaxwellThreeDSynchronizationTrigger::ReportSemaphore { source, .. } => source,
            MaxwellThreeDSynchronizationTrigger::IncrementSyncpoint { source, .. } => source,
        }
    }
}

/// One synchronization trigger with the engine state at that method.
#[derive(Clone, Debug)]
pub struct MaxwellThreeDSynchronizationOperation {
    pub trigger: MaxwellThreeDSynchronizationTrigger,
    pub state: MaxwellThreeDState,
}

impl MaxwellThreeDSynchronizationOperation {
    #[must_use]
    pub fn new(trigger: MaxwellThreeDSynchronizationTrigger, state: MaxwellThreeDState) -> (r: MaxwellThreeDSynchronizationOperation)
        ensures
            r.trigger == trigger,
            r.state == state,
    {
        MaxwellThreeDSynchronizationOperation { trigger, state }
    }

    #[must_use]
    pub fn trigger(&self) -> (r: MaxwellThreeDSynchronizationTrigger)
        ensures
            r == self.trigger,
    {
        self.trigger
    }

    #[must_use]
    pub fn state(&self) -> (r: &MaxwellThreeDState)
        ensures
            *r == self.state,
    {
        &self.state
    }
}

/// Host-independent lowering of one synchronization operation.
#[derive(Clone, Copy, Debug, PartialEq, Eq, Hash, Structural)]
#[allow(inconsistent_fields)]
pub enum MaxwellThreeDSynchronizationPlan {
    /// Orders every earlier channel operation before later work.
    WaitForIdle { prior_work_pending: bool },
    InvalidateShaderCaches {
        request: MaxwellThreeDShaderCacheInvalidation,
        maintenance: CacheMaintenanceOperation,
        prior_work_pending: bool,
    },
    InvalidateShaderCachesNoWfi {
        caches: MaxwellShaderCacheInvalidation,
        maintenance: CacheMaintenanceOperation,
    },
    InvalidateTextureCacheNoWfi {
        request: MaxwellThreeDTextureCacheInvalidation,
        maintenance: CacheMaintenanceOperation,
    },
    InvalidateTextureCache {
        request: MaxwellThreeDTextureCacheInvalidation,
        maintenance: CacheMaintenanceOperation,
        prior_work_pending: bool,
    },
    FlushPendingWrites { request: MaxwellThreeDFlushPendingWrites },
    ReportSemaphoreRelease(MaxwellThreeDReportSemaphoreRelease),
    IncrementSyncpoint {
        request: MaxwellThreeDSyncpointIncrement,
        completion: GuestTimelinePoint,
    },
}

/// Why a synchronization operation has no plan.
#[derive(Clone, Copy, Debug, PartialEq, Eq, Hash, Structural)]
#[allow(inconsistent_fields)]
pub enum MaxwellThreeDSynchronizationError {
    UnsupportedShaderCacheLockInvalidation { source: MaxwellMethodSource },
    UnsupportedShaderDataCacheFlush { source: MaxwellMethodSource },
    IncompleteReportSemaphoreState { source: MaxwellMethodSource },
    UnsupportedReportSemaphoreControl {
        source: MaxwellMethodSource,
        control: MaxwellThreeDReportSemaphoreControl,
    },
    MissingCompletionReservation { source: MaxwellMethodSource, requested: GuestSyncpointId },
    WrongCompletionSyncpoint {
        source: MaxwellMethodSource,
        requested: GuestSyncpointId,
        reserved: GuestSyncpointId,
    },
}

impl MaxwellThreeDSynchronizationError {
    /// Fixed part of the message of each error.
    pub open spec fn spec_summary(self) -> &'static str {
        match self {
            MaxwellThreeDSynchronizationError::UnsupportedShaderCacheLockInvalidation { .. } => "MAXWELL_B shader-cache lock invalidation is not represented by neutral cache maintenance",
            MaxwellThreeDSynchronizationError::UnsupportedShaderDataCacheFlush { .. } => "MAXWELL_B shader-data cache flush is not represented by neutral cache maintenance",
            MaxwellThreeDSynchronizationError::IncompleteReportSemaphoreState { .. } => "MAXWELL_B report semaphore release has no complete address and payload",
            MaxwellThreeDSynchronizationError::UnsupportedReportSemaphoreControl { .. } => "MAXWELL_B report semaphore control is not implemented",
            MaxwellThreeDSynchronizationError::MissingCompletionReservation { .. } => "MAXWELL_B syncpoint increment has no completion reservation",
            MaxwellThreeDSynchronizationError::WrongCompletionSyncpoint { .. } => "MAXWELL_B syncpoint reservation mismatch",
        }
    }

    #[must_use]
    pub fn summary(&self) -> (r: &'static str)
        ensures
            r == self.spec_summary(),
    {
        match self {
            MaxwellThreeDSynchronizationError::UnsupportedShaderCacheLockInvalidation { .. } => "MAXWELL_B shader-cache lock invalidation is not represented by neutral cache maintenance",
            MaxwellThreeDSynchronizationError::UnsupportedShaderDataCacheFlush { .. } => "MAXWELL_B shader-data cache flush is not represented by neutral cache maintenance",
            MaxwellThreeDSynchronizationError::IncompleteReportSemaphoreState { .. } => "MAXWELL_B report semaphore release has no complete address and payload",
            MaxwellThreeDSynchronizationError::UnsupportedReportSemaphoreControl { .. } => "MAXWELL_B report semaphore control is not implemented",
            MaxwellThreeDSynchronizationError::MissingCompletionReservation { .. } => "MAXWELL_B syncpoint increment has no completion reservation",
            MaxwellThreeDSynchronizationError::WrongCompletionSyncpoint { .. } => "MAXWELL_B syncpoint reservation mismatch",
        }
    }
}

/// Maintenance that invalidates one texture-related cache.
pub open spec fn spec_texture_cache_maintenance(
    request: MaxwellThreeDTextureCacheInvalidation,
) -> CacheMaintenanceOperation {
    match request.target {
        MaxwellThreeDTextureCacheTarget::Data =>
            CacheMaintenanceOperation::InvalidateTextureReadCaches,
        MaxwellThreeDTextureCacheTarget::Header =>
            CacheMaintenanceOperation::InvalidateTextureHeaderCaches,
        MaxwellThreeDTextureCacheTarget::Sampler =>
            CacheMaintenanceOperation::InvalidateSamplerCaches,
    }
}

fn texture_cache_maintenance(request: MaxwellThreeDTextureCacheInvalidation) -> (r:
    CacheMaintenanceOperation)
    ensures
        r == spec_texture_cache_maintenance(request),
{
    match request.target {
        MaxwellThreeDTextureCacheTarget::Data =>
            CacheMaintenanceOperation::InvalidateTextureReadCaches,
        MaxwellThreeDTextureCacheTarget::Header =>
            CacheMaintenanceOperation::InvalidateTextureHeaderCaches,
        MaxwellThreeDTextureCacheTarget::Sampler =>
            CacheMaintenanceOperation::InvalidateSamplerCaches,
    }
}

/// Maintenance that invalidates the selected shader caches.
pub open spec fn spec_shader_cache_maintenance(
    caches: MaxwellShaderCacheInvalidation,
) -> CacheMaintenanceOperation {
    CacheMaintenanceOperation::InvalidateShaderCaches {
        instruction: caches.instruction,
        global_data: caches.global_data,
        constant: caches.constant,
    }
}

fn shader_cache_maintenance(caches: MaxwellShaderCacheInvalidation) -> (r: CacheMaintenanceOperation)
    ensures
        r == spec_shader_cache_maintenance(caches),
{
    CacheMaintenanceOperation::InvalidateShaderCaches {
        instruction: caches.instruction,
        global_data: caches.global_data,
        constant: caches.constant,
    }
}

/// The plan of each trigger, or the reason it has none.
///
/// Lock invalidation and data flushes of the shader caches have no host
/// counterpart; only the captured release form of a report semaphore is lowered,
/// and it needs a complete address and payload; a syncpoint increment needs a
/// reservation on the same syncpoint.
pub open spec fn spec_synchronization_plan(
    trigger: MaxwellThreeDSynchronizationTrigger,
    semaphore: MaxwellThreeDReportSemaphoreState,
    completion: Option<GuestTimelinePoint>,
    prior_work_pending: bool,
) -> Result<MaxwellThreeDSynchronizationPlan, MaxwellThreeDSynchronizationError> {
    match trigger {
        MaxwellThreeDSynchronizationTrigger::WaitForIdle { .. } => Ok(
            MaxwellThreeDSynchronizationPlan::WaitForIdle { prior_work_pending },
        ),
        MaxwellThreeDSynchronizationTrigger::InvalidateShaderCaches { request, source } => {
            if request.locks {
                Err(
                    MaxwellThreeDSynchronizationError::UnsupportedShaderCacheLockInvalidation {
                        source,
                    },
                )
            } else if request.flush_data {
                Err(MaxwellThreeDSynchronizationError::UnsupportedShaderDataCacheFlush { source })
            } else {
                Ok(
                    MaxwellThreeDSynchronizationPlan::InvalidateShaderCaches {
                        request,
                        maintenance: spec_shader_cache_maintenance(request.caches),
                        prior_work_pending,
                    },
                )
            }
        },
        MaxwellThreeDSynchronizationTrigger::InvalidateShaderCachesNoWfi { caches, .. } => Ok(
            MaxwellThreeDSynchronizationPlan::InvalidateShaderCachesNoWfi {
                caches,
                maintenance: spec_shader_cache_maintenance(caches),
            },
        ),
        MaxwellThreeDSynchronizationTrigger::InvalidateTextureCacheNoWfi { request, .. } => Ok(
            MaxwellThreeDSynchronizationPlan::InvalidateTextureCacheNoWfi {
                request,
                maintenance: spec_texture_cache_maintenance(request),
            },
        ),
        MaxwellThreeDSynchronizationTrigger::InvalidateTextureCache { request, .. } => Ok(
            MaxwellThreeDSynchronizationPlan::InvalidateTextureCache {
                request,
                maintenance: spec_texture_cache_maintenance(request),
                prior_work_pending,
            },
        ),
        MaxwellThreeDSynchronizationTrigger::FlushPendingWrites { request, .. } => Ok(
            MaxwellThreeDSynchronizationPlan::FlushPendingWrites { request },
        ),
        MaxwellThreeDSynchronizationTrigger::ReportSemaphore { control, source } => {
            if !control.spec_is_captured_release() {
                Err(
                    MaxwellThreeDSynchronizationError::UnsupportedReportSemaphoreControl {
                        source,
                        control,
                    },
                )
            } else {
                match (semaphore.spec_address(), semaphore.payload.value) {
                    (Some(address), Some(payload)) => Ok(
                        MaxwellThreeDSynchronizationPlan::ReportSemaphoreRelease(
                            MaxwellThreeDReportSemaphoreRelease {
                                address,
                                payload,
                                source,
                                prior_work_pending,
                            },
                        ),
                    ),
                    _ => Err(
                        MaxwellThreeDSynchronizationError::IncompleteReportSemaphoreState {
                            source,
                        },
                    ),
                }
            }
        },
        MaxwellThreeDSynchronizationTrigger::IncrementSyncpoint { request, source } => {
            match completion {
                None => Err(
                    MaxwellThreeDSynchronizationError::MissingCompletionReservation {
                        source,
                        requested: request.syncpoint,
                    },
                ),
                Some(point) => if point.syncpoint != request.syncpoint {
                    Err(
                        MaxwellThreeDSynchronizationError::WrongCompletionSyncpoint {
                            source,
                            requested: request.syncpoint,
                            reserved: point.syncpoint,
                        },
                    )
                } else {
                    Ok(
                        MaxwellThreeDSynchronizationPlan::IncrementSyncpoint {
                            request,
                            completion: point,
                        },
                    )
                },
            }
        },
    }
}

/// Produces an ordering plan without publishing or consuming the reservation.
///
/// The owner of the reservation publishes it only after the requested condition,
/// cache maintenance and preceding work have completed.
pub fn lower_maxwell_three_d_synchronization(
    operation: &MaxwellThreeDSynchronizationOperation,
    completion: Option<&ReservedTimelinePoint>,
    prior_work_pending: bool,
) -> (r: Result<MaxwellThreeDSynchronizationPlan, MaxwellThreeDSynchronizationError>)
    ensures
        r == spec_synchronization_plan(
            operation.trigger,
            operation.state.report_semaphore,
            match completion {
                Some(reservation) => Some(reservation.point),
                None => None,
            },
            prior_work_pending,
        ),
{
    match operation.trigger() {
        MaxwellThreeDSynchronizationTrigger::WaitForIdle { .. } => Ok(
            MaxwellThreeDSynchronizationPlan::WaitForIdle { prior_work_pending },
        ),
        MaxwellThreeDSynchronizationTrigger::InvalidateShaderCaches { request, source } => {
            if request.locks() {
                return Err(
                    MaxwellThreeDSynchronizationError::UnsupportedShaderCacheLockInvalidation {
                        source,
                    },
                );
            }
            if request.flush_data() {
                return Err(
                    MaxwellThreeDSynchronizationError::UnsupportedShaderDataCacheFlush { source },
                );
            }
            Ok(
                MaxwellThreeDSynchronizationPlan::InvalidateShaderCaches {
                    request,
                    maintenance: shader_cache_maintenance(request.caches()),
                    prior_work_pending,
                },
            )
        },
        MaxwellThreeDSynchronizationTrigger::InvalidateShaderCachesNoWfi { caches, .. } => Ok(
            MaxwellThreeDSynchronizationPlan::InvalidateShaderCachesNoWfi {
                caches,
                maintenance: shader_cache_maintenance(caches),
            },
        ),
        MaxwellThreeDSynchronizationTrigger::InvalidateTextureCacheNoWfi { request, .. } => Ok(
            MaxwellThreeDSynchronizationPlan::InvalidateTextureCacheNoWfi {
                request,
                maintenance: texture_cache_maintenance(request),
            },
        ),
        MaxwellThreeDSynchronizationTrigger::InvalidateTextureCache { request, .. } => Ok(
            MaxwellThreeDSynchronizationPlan::InvalidateTextureCache {
                request,
                maintenance: texture_cache_maintenance(request),
                prior_work_pending,
            },
        ),
        MaxwellThreeDSynchronizationTrigger::FlushPendingWrites { request, .. } => Ok(
            MaxwellThreeDSynchronizationPlan::FlushPendingWrites { request },
        ),
        MaxwellThreeDSynchronizationTrigger::ReportSemaphore { control, source } => {
            if !control.is_captured_release() {
                return Err(
                    MaxwellThreeDSynchronizationError::UnsupportedReportSemaphoreControl {
                        source,
                        control,
                    },
                );
            }
            let semaphore = operation.state.report_semaphore;
            match (semaphore.address(), semaphore.payload.value) {
                (Some(address), Some(payload)) => Ok(
                    MaxwellThreeDSynchronizationPlan::ReportSemaphoreRelease(
                        MaxwellThreeDReportSemaphoreRelease {
                            address,
                            payload,
                            source,
                            prior_work_pending,
                        },
                    ),
                ),
                _ => Err(
                    MaxwellThreeDSynchronizationError::IncompleteReportSemaphoreState { source },
                ),
            }
        },
        MaxwellThreeDSynchronizationTrigger::IncrementSyncpoint { request, source } => {
            let point = match completion {
                Some(reservation) => reservation.point(),
                None => {
                    return Err(
                        MaxwellThreeDSynchronizationError::MissingCompletionReservation {
                            source,
                            requested: request.syncpoint(),
                        },
                    );
                },
            };
            if point.syncpoint() != request.syncpoint() {
                return Err(
                    MaxwellThreeDSynchronizationError::WrongCompletionSyncpoint {
                        source,
                        requested: request.syncpoint(),
                        reserved: point.syncpoint(),
                    },
                );
            }
            Ok(
                MaxwellThreeDSynchronizationPlan::IncrementSyncpoint {
                    request,
                    completion: point,
                },
            )
        },
    }
}

/// A planned increment completes the very syncpoint that was requested, and only
/// a syncpoint increment depends on the reservation.
pub proof fn law_reservation(
    trigger: MaxwellThreeDSynchronizationTrigger,
    semaphore: MaxwellThreeDReportSemaphoreState,
    completion: Option<GuestTimelinePoint>,
    other: Option<GuestTimelinePoint>,
    prior_work_pending: bool,
)
    ensures
        spec_synchronization_plan(trigger, semaphore, completion, prior_work_pending) matches Ok(
            MaxwellThreeDSynchronizationPlan::IncrementSyncpoint { request, completion: point },
        ) ==> completion == Some(point) && point.syncpoint == request.syncpoint,
        !(trigger is IncrementSyncpoint) ==> spec_synchronization_plan(
            trigger,
            semaphore,
            completion,
            prior_work_pending,
        ) == spec_synchronization_plan(trigger, semaphore, other, prior_work_pending),
{
}

} // verus!
