//! Method metadata and refusals.

use vstd::prelude::*;
use crate::falcon::MaxwellThreeDFalconError;
use crate::mme::{MaxwellThreeDMmeExecutionError, MaxwellThreeDMmeLoadError, MaxwellThreeDMmeRam, MaxwellThreeDMmeShadowRamError};
use crate::profile::{MaxwellAamVersionRange, MaxwellShaderProgramHeaderVersionRange};
use crate::register::{GpuMethodId, MaxwellMethodSource, MaxwellThreeDRectangle};

verus! {

/// Identity of one engine class.
#[derive(Clone, Copy, Debug, PartialEq, Eq, Hash, Structural)]
pub struct GpuClassId(pub u32);

impl GpuClassId {
    #[must_use]
    pub fn new(class: u32) -> (r: GpuClassId)
        ensures
            r.0 == class,
    {
        GpuClassId(class)
    }

    pub open spec fn spec_get(self) -> u32 {
        self.0
    }

    #[must_use]
    #[verifier::when_used_as_spec(spec_get)]
    pub fn get(self) -> (r: u32)
        ensures
            r == self.0,
    {
        self.0
    }
}

/// Class of the three-dimensional engine.
pub const MAXWELL_B_CLASS: u32 = 0xb197;

/// Class and name of one recognized method.
#[derive(Clone, Copy, Debug, PartialEq, Eq)]
pub struct MaxwellEngineMethodMetadata {
    pub class: GpuClassId,
    pub class_name: &'static str,
    pub method: GpuMethodId,
    pub method_name: &'static str,
}

impl MaxwellEngineMethodMetadata {
    /// Metadata of a method of this engine.
    pub open spec fn spec_named(method: GpuMethodId, method_name: &'static str) -> MaxwellEngineMethodMetadata {
        MaxwellEngineMethodMetadata {
            class: GpuClassId(MAXWELL_B_CLASS),
            class_name: "MAXWELL_B",
            method,
            method_name,
        }
    }

    #[must_use]
    #[verifier::when_used_as_spec(spec_named)]
    pub fn named(method: GpuMethodId, method_name: &'static str) -> (r: MaxwellEngineMethodMetadata)
        ensures
            r == MaxwellEngineMethodMetadata::spec_named(method, method_name),
    {
        MaxwellEngineMethodMetadata {
            class: GpuClassId(MAXWELL_B_CLASS),
            class_name: "MAXWELL_B",
            method,
            method_name,
        }
    }
}

/// Capability that a recognized method needs and the engine lacks.
#[derive(Clone, Copy, Debug, PartialEq, Eq, Hash, Structural)]
pub enum MaxwellEngineCapability {
    HostBackend,
}

/// Why a method was refused. A refused method changes no state.
#[derive(Clone, Copy, Debug, PartialEq, Eq)]
#[allow(inconsistent_fields)]
pub enum MaxwellEngineDispatchError {
    UnknownMethod { source: MaxwellMethodSource, class_name: &'static str },
    UnsupportedMethod { source: MaxwellMethodSource, metadata: MaxwellEngineMethodMetadata },
    MissingCapability {
        source: MaxwellMethodSource,
        metadata: MaxwellEngineMethodMetadata,
        capability: MaxwellEngineCapability,
    },
    InvalidMethodValue {
        source: MaxwellMethodSource,
        metadata: MaxwellEngineMethodMetadata,
        defined_mask: u32,
    },
    InvalidMethodEncoding {
        source: MaxwellMethodSource,
        method_name: &'static str,
        reason: &'static str,
    },
    UnsupportedConditionalConstantBufferLoad { source: MaxwellMethodSource },
    IncompatibleShaderProgramHeaderVersion {
        source: MaxwellMethodSource,
        requested: MaxwellShaderProgramHeaderVersionRange,
        supported: MaxwellShaderProgramHeaderVersionRange,
    },
    IncompatibleAamVersion {
        source: MaxwellMethodSource,
        requested: MaxwellAamVersionRange,
        supported: MaxwellAamVersionRange,
    },
    FalconFirmware { source: MaxwellMethodSource, error: MaxwellThreeDFalconError },
    MmeRamLoad {
        source: MaxwellMethodSource,
        ram: MaxwellThreeDMmeRam,
        error: MaxwellThreeDMmeLoadError,
    },
    MmeShadowRam { source: MaxwellMethodSource, error: MaxwellThreeDMmeShadowRamError },
    MmeExecution { source: MaxwellMethodSource, error: MaxwellThreeDMmeExecutionError },
}

/// Refusal of a word that a register does not define.
pub open spec fn spec_invalid_encoding(
    source: MaxwellMethodSource,
    method_name: &'static str,
    reason: &'static str,
) -> MaxwellEngineDispatchError {
    MaxwellEngineDispatchError::InvalidMethodEncoding { source, method_name, reason }
}

#[must_use]
#[verifier::when_used_as_spec(spec_invalid_encoding)]
pub fn invalid_encoding(
    source: MaxwellMethodSource,
    method_name: &'static str,
    reason: &'static str,
) -> (r: MaxwellEngineDispatchError)
    ensures
        r == spec_invalid_encoding(source, method_name, reason),
{
    MaxwellEngineDispatchError::InvalidMethodEncoding { source, method_name, reason }
}

/// A boolean register accepts the words 0 and 1.
pub open spec fn spec_checked_bool(source: MaxwellMethodSource, name: &'static str) -> Result<
    bool,
    MaxwellEngineDispatchError,
> {
    if source.argument == 0 {
        Ok(false)
    } else if source.argument == 1 {
        Ok(true)
    } else {
        Err(spec_invalid_encoding(source, name, "expected boolean 0 or 1"))
    }
}

#[verifier::when_used_as_spec(spec_checked_bool)]
pub fn checked_bool(source: MaxwellMethodSource, name: &'static str) -> (r: Result<
    bool,
    MaxwellEngineDispatchError,
>)
    ensures
        r == spec_checked_bool(source, name),
{
    match source.argument() {
        0 => Ok(false),
        1 => Ok(true),
        _ => Err(invalid_encoding(source, name, "expected boolean 0 or 1")),
    }
}

/// Bounds packed in one word, the minimum in bits 15:0 and the maximum in bits
/// 31:16; refused when the minimum exceeds the maximum.
pub open spec fn spec_rectangle(raw: u32) -> Option<MaxwellThreeDRectangle> {
    if raw % 0x1_0000 <= raw / 0x1_0000 {
        Some(
            MaxwellThreeDRectangle { min: (raw % 0x1_0000) as u16, max: (raw / 0x1_0000) as u16 },
        )
    } else {
        None
    }
}

#[verifier::when_used_as_spec(spec_rectangle)]
pub fn rectangle(raw: u32) -> (r: Option<MaxwellThreeDRectangle>)
    ensures
        r == spec_rectangle(raw),
{
    let min: u16 = (raw % 0x1_0000) as u16;
    let max: u16 = (raw / 0x1_0000) as u16;
    if min <= max {
        Some(MaxwellThreeDRectangle { min, max })
    } else {
        None
    }
}

} // verus!
