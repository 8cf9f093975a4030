//! What one GPU accepts.
//!
//! Enumerated and packed fields differ between chips. The profile lists the
//! encodings that a chip defines; a word outside them is rejected when it is
//! decoded.

use vstd::prelude::*;
use crate::register::GpuMethodId;

verus! {

/// One shader program header version.
#[derive(Clone, Copy, Debug, PartialEq, Eq, Hash, Structural)]
pub struct MaxwellShaderProgramHeaderVersion(pub u16);

impl MaxwellShaderProgramHeaderVersion {
    #[must_use]
    pub fn new(version: u16) -> (r: MaxwellShaderProgramHeaderVersion)
        ensures
            r.0 == version,
    {
        MaxwellShaderProgramHeaderVersion(version)
    }

    pub open spec fn spec_get(self) -> u16 {
        self.0
    }

    #[must_use]
    #[verifier::when_used_as_spec(spec_get)]
    pub fn get(self) -> (r: u16)
        ensures
            r == self.0,
    {
        self.0
    }
}

/// A newest and an oldest supported shader program header version.
#[derive(Clone, Copy, Debug, PartialEq, Eq, Hash, Structural)]
pub struct MaxwellShaderProgramHeaderVersionRange {
    pub current: MaxwellShaderProgramHeaderVersion,
    pub oldest_supported: MaxwellShaderProgramHeaderVersion,
}

impl MaxwellShaderProgramHeaderVersionRange {
    #[must_use]
    pub fn new(current: MaxwellShaderProgramHeaderVersion, oldest_supported: MaxwellShaderProgramHeaderVersion) -> (r: MaxwellShaderProgramHeaderVersionRange)
        ensures
            r == (MaxwellShaderProgramHeaderVersionRange { current, oldest_supported }),
    {
        MaxwellShaderProgramHeaderVersionRange { current, oldest_supported }
    }

    #[must_use]
    pub fn current(self) -> (r: MaxwellShaderProgramHeaderVersion)
        ensures
            r == self.current,
    {
        self.current
    }

    #[must_use]
    pub fn oldest_supported(self) -> (r: MaxwellShaderProgramHeaderVersion)
        ensures
            r == self.oldest_supported,
    {
        self.oldest_supported
    }

    /// The newest version does not precede the oldest.
    pub open spec fn spec_is_well_ordered(self) -> bool {
        self.oldest_supported.0 <= self.current.0
    }

    #[must_use]
    #[verifier::when_used_as_spec(spec_is_well_ordered)]
    pub fn is_well_ordered(self) -> (r: bool)
        ensures
            r == self.spec_is_well_ordered(),
    {
        self.oldest_supported.0 <= self.current.0
    }

    /// The two ranges meet.
    pub open spec fn spec_overlaps(self, other: MaxwellShaderProgramHeaderVersionRange) -> bool {
        self.oldest_supported.0 <= other.current.0 && other.oldest_supported.0 <= self.current.0
    }

    #[must_use]
    #[verifier::when_used_as_spec(spec_overlaps)]
    pub fn overlaps(self, other: MaxwellShaderProgramHeaderVersionRange) -> (r: bool)
        ensures
            r == self.spec_overlaps(other),
    {
        self.oldest_supported.0 <= other.current.0 && other.oldest_supported.0 <= self.current.0
    }

    /// Well-ordered ranges overlap exactly when they share a version.
    pub proof fn law_overlap(self, other: MaxwellShaderProgramHeaderVersionRange, version: u16)
        requires
            self.spec_is_well_ordered(),
            other.spec_is_well_ordered(),
        ensures
            self.oldest_supported.0 <= version <= self.current.0 && other.oldest_supported.0 <= version
                <= other.current.0 ==> self.spec_overlaps(other),
            self.spec_overlaps(other) ==> {
                let shared = if self.oldest_supported.0 <= other.oldest_supported.0 {
                    other.oldest_supported.0
                } else {
                    self.oldest_supported.0
                };
                &&& self.oldest_supported.0 <= shared <= self.current.0
                &&& other.oldest_supported.0 <= shared <= other.current.0
            },
    {
    }

    /// Range requested by a version-check word: the newest version in bits 15:0, the
    /// oldest in bits 31:16.
    pub open spec fn spec_decode(raw: u32) -> MaxwellShaderProgramHeaderVersionRange {
        MaxwellShaderProgramHeaderVersionRange {
            current: MaxwellShaderProgramHeaderVersion((raw % 0x1_0000) as u16),
            oldest_supported: MaxwellShaderProgramHeaderVersion((raw / 0x1_0000) as u16),
        }
    }

    #[verifier::when_used_as_spec(spec_decode)]
    pub fn decode(raw: u32) -> (r: MaxwellShaderProgramHeaderVersionRange)
        ensures
            r == MaxwellShaderProgramHeaderVersionRange::spec_decode(raw),
    {
        MaxwellShaderProgramHeaderVersionRange {
            current: MaxwellShaderProgramHeaderVersion((raw % 0x1_0000) as u16),
            oldest_supported: MaxwellShaderProgramHeaderVersion((raw / 0x1_0000) as u16),
        }
    }
}

/// One AAM version.
#[derive(Clone, Copy, Debug, PartialEq, Eq, Hash, Structural)]
pub struct MaxwellAamVersion(pub u16);

impl MaxwellAamVersion {
    #[must_use]
    pub fn new(version: u16) -> (r: MaxwellAamVersion)
        ensures
            r.0 == version,
    {
        MaxwellAamVersion(version)
    }

    pub open spec fn spec_get(self) -> u16 {
        self.0
    }

    #[must_use]
    #[verifier::when_used_as_spec(spec_get)]
    pub fn get(self) -> (r: u16)
        ensures
            r == self.0,
    {
        self.0
    }
}

/// A newest and an oldest supported AAM version.
#[derive(Clone, Copy, Debug, PartialEq, Eq, Hash, Structural)]
pub struct MaxwellAamVersionRange {
    pub current: MaxwellAamVersion,
    pub oldest_supported: MaxwellAamVersion,
}

impl MaxwellAamVersionRange {
    #[must_use]
    pub fn new(current: MaxwellAamVersion, oldest_supported: MaxwellAamVersion) -> (r: MaxwellAamVersionRange)
        ensures
            r == (MaxwellAamVersionRange { current, oldest_supported }),
    {
        MaxwellAamVersionRange { current, oldest_supported }
    }

    #[must_use]
    pub fn current(self) -> (r: MaxwellAamVersion)
        ensures
            r == self.current,
    {
        self.current
    }

    #[must_use]
    pub fn oldest_supported(self) -> (r: MaxwellAamVersion)
        ensures
            r == self.oldest_supported,
    {
        self.oldest_supported
    }

    /// The newest version does not precede the oldest.
    pub open spec fn spec_is_well_ordered(self) -> bool {
        self.oldest_supported.0 <= self.current.0
    }

    #[must_use]
    #[verifier::when_used_as_spec(spec_is_well_ordered)]
    pub fn is_well_ordered(self) -> (r: bool)
        ensures
            r == self.spec_is_well_ordered(),
    {
        self.oldest_supported.0 <= self.current.0
    }

    /// The two ranges meet.
    pub open spec fn spec_overlaps(self, other: MaxwellAamVersionRange) -> bool {
        self.oldest_supported.0 <= other.current.0 && other.oldest_supported.0 <= self.current.0
    }

    #[must_use]
    #[verifier::when_used_as_spec(spec_overlaps)]
    pub fn overlaps(self, other: MaxwellAamVersionRange) -> (r: bool)
        ensures
            r == self.spec_overlaps(other),
    {
        self.oldest_supported.0 <= other.current.0 && other.oldest_supported.0 <= self.current.0
    }

    /// Well-ordered ranges overlap exactly when they share a version.
    pub proof fn law_overlap(self, other: MaxwellAamVersionRange, version: u16)
        requires
            self.spec_is_well_ordered(),
            other.spec_is_well_ordered(),
        ensures
            self.oldest_supported.0 <= version <= self.current.0 && other.oldest_supported.0 <= version
                <= other.current.0 ==> self.spec_overlaps(other),
            self.spec_overlaps(other) ==> {
                let shared = if self.oldest_supported.0 <= other.oldest_supported.0 {
                    other.oldest_supported.0
                } else {
                    self.oldest_supported.0
                };
                &&& self.oldest_supported.0 <= shared <= self.current.0
                &&& other.oldest_supported.0 <= shared <= other.current.0
            },
    {
    }

    /// Range requested by a version-check word: the newest version in bits 15:0, the
    /// oldest in bits 31:16.
    pub open spec fn spec_decode(raw: u32) -> MaxwellAamVersionRange {
        MaxwellAamVersionRange {
            current: MaxwellAamVersion((raw % 0x1_0000) as u16),
            oldest_supported: MaxwellAamVersion((raw / 0x1_0000) as u16),
        }
    }

    #[verifier::when_used_as_spec(spec_decode)]
    pub fn decode(raw: u32) -> (r: MaxwellAamVersionRange)
        ensures
            r == MaxwellAamVersionRange::spec_decode(raw),
    {
        MaxwellAamVersionRange {
            current: MaxwellAamVersion((raw % 0x1_0000) as u16),
            oldest_supported: MaxwellAamVersion((raw / 0x1_0000) as u16),
        }
    }
}

/// A register whose accepted encodings the profile lists.
#[derive(Clone, Copy, Debug, PartialEq, Eq, Hash, Structural)]
pub enum MaxwellThreeDEncodedField {
    VertexAttribute,
    VertexStreamFormat,
    BalancedPrimitiveWorkload,
    PrimitiveCircularBufferThrottle,
    AttributeDefaults,
    Begin,
    IndexElementSize,
    PrimitiveTopology,
    SpaVersion,
    AttributePointSize,
    ColorTargetFormat,
    DepthStencilFormat,
    ColorTargetSelection,
    CompressionThreshold,
    ClearSurfaceControl,
    ClearSurface,
    DecompressSurface,
    PixelShaderInterlockControl,
    L1Configuration,
    VisibleCallLimit,
    PointSpriteSelect,
    ZCullCriterion,
    ZCullEnable,
    ZCullBounds,
}

/// Words of a field that agree with `value` on the bits of `mask`.
#[derive(Clone, Copy, Debug, PartialEq, Eq, Hash, Structural)]
pub struct MaxwellThreeDEncodingPattern {
    pub field: MaxwellThreeDEncodedField,
    pub mask: u32,
    pub value: u32,
}

impl MaxwellThreeDEncodingPattern {
    #[must_use]
    pub fn new(field: MaxwellThreeDEncodedField, mask: u32, value: u32) -> (r: MaxwellThreeDEncodingPattern)
        ensures
            r == (MaxwellThreeDEncodingPattern { field, mask, value }),
    {
        MaxwellThreeDEncodingPattern { field, mask, value }
    }

    #[must_use]
    pub fn field(self) -> (r: MaxwellThreeDEncodedField)
        ensures
            r == self.field,
    {
        self.field
    }

    #[must_use]
    pub fn mask(self) -> (r: u32)
        ensures
            r == self.mask,
    {
        self.mask
    }

    #[must_use]
    pub fn value(self) -> (r: u32)
        ensures
            r == self.value,
    {
        self.value
    }

    pub open spec fn spec_matches(self, field: MaxwellThreeDEncodedField, word: u32) -> bool {
        self.field == field && word & self.mask == self.value
    }

    pub fn matches_word(&self, field: MaxwellThreeDEncodedField, word: u32) -> (r: bool)
        ensures
            r == self.spec_matches(field, word),
    {
        self.field == field && word & self.mask == self.value
    }
}

/// Documented reset word of one method.
#[derive(Clone, Copy, Debug, PartialEq, Eq, Hash, Structural)]
pub struct MaxwellThreeDRegisterReset {
    pub method: GpuMethodId,
    pub raw: u32,
}

impl MaxwellThreeDRegisterReset {
    #[must_use]
    pub fn new(method: GpuMethodId, raw: u32) -> (r: MaxwellThreeDRegisterReset)
        ensures
            r == (MaxwellThreeDRegisterReset { method, raw }),
    {
        MaxwellThreeDRegisterReset { method, raw }
    }

    #[must_use]
    pub fn method(self) -> (r: GpuMethodId)
        ensures
            r == self.method,
    {
        self.method
    }

    #[must_use]
    pub fn raw(self) -> (r: u32)
        ensures
            r == self.raw,
    {
        self.raw
    }
}

/// What one GPU accepts: supported versions, field widths, accepted encodings and
/// documented resets.
#[derive(Debug)]
pub struct MaxwellGpuProfile {
    pub sph_versions: MaxwellShaderProgramHeaderVersionRange,
    pub aam_versions: MaxwellAamVersionRange,
    /// Defined bits of the SM timeout interval.
    pub sm_timeout_counter_mask: u32,
    /// Defined bits of the default local-memory size per warp.
    pub local_memory_per_warp_mask: u32,
    pub encodings: Vec<MaxwellThreeDEncodingPattern>,
    pub resets: Vec<MaxwellThreeDRegisterReset>,
}

impl MaxwellGpuProfile {
    /// Whether some listed pattern of the field matches the word.
    pub open spec fn spec_accepts(&self, field: MaxwellThreeDEncodedField, word: u32) -> bool {
        exists|i: int|
            0 <= i < self.encodings@.len() && #[trigger] self.encodings@[i].spec_matches(
                field,
                word,
            )
    }

    #[verifier::when_used_as_spec(spec_accepts)]
    pub fn accepts(&self, field: MaxwellThreeDEncodedField, word: u32) -> (r: bool)
        ensures
            r == self.spec_accepts(field, word),
    {
        let mut index: usize = 0;
        while index < self.encodings.len()
            invariant
                index <= self.encodings@.len(),
                forall|i: int|
                    0 <= i < index ==> !#[trigger] self.encodings@[i].spec_matches(field, word),
            decreases self.encodings@.len() - index,
        {
            if self.encodings[index].matches_word(field, word) {
                return true;
            }
            index = index + 1;
        }
        false
    }

    /// First listed reset of a method at or after position `from`.
    pub open spec fn reset_from(&self, method: GpuMethodId, from: int) -> Option<u32>
        decreases self.resets@.len() - from,
    {
        if from < 0 || from >= self.resets@.len() {
            None
        } else if self.resets@[from].method == method {
            Some(self.resets@[from].raw)
        } else {
            self.reset_from(method, from + 1)
        }
    }

    /// Documented reset word of a method: the first one listed.
    pub open spec fn spec_register_reset(&self, method: GpuMethodId) -> Option<u32> {
        self.reset_from(method, 0)
    }

    #[verifier::when_used_as_spec(spec_register_reset)]
    pub fn register_reset(&self, method: GpuMethodId) -> (r: Option<u32>)
        ensures
            r == self.spec_register_reset(method),
    {
        let mut index: usize = 0;
        while index < self.resets.len()
            invariant
                index <= self.resets@.len(),
                self.reset_from(method, 0) == self.reset_from(method, index as int),
            decreases self.resets@.len() - index,
        {
            if self.resets[index].method == method {
                return Some(self.resets[index].raw);
            }
            index = index + 1;
        }
        None
    }
}

} // verus!
