//! L2 cache-policy state.
//!
//! These registers select guest cache policy for independent request producers.
//! They do not command cache maintenance.

use vstd::prelude::*;
use crate::register::{MaxwellMethodSource, MaxwellThreeDRegister};

verus! {

/// Request class whose ROP L2 eviction priority is configured.
#[derive(Clone, Copy, Debug, PartialEq, Eq, Hash, Structural)]
pub enum MaxwellThreeDRopL2CacheRequest {
    PrefetchRead,
    NoninterlockedRead,
    InterlockedRead,
    NoninterlockedWrite,
    InterlockedWrite,
}

impl MaxwellThreeDRopL2CacheRequest {
    pub open spec fn spec_index(self) -> usize {
        match self {
            MaxwellThreeDRopL2CacheRequest::PrefetchRead => 0,
            MaxwellThreeDRopL2CacheRequest::NoninterlockedRead => 1,
            MaxwellThreeDRopL2CacheRequest::InterlockedRead => 2,
            MaxwellThreeDRopL2CacheRequest::NoninterlockedWrite => 3,
            MaxwellThreeDRopL2CacheRequest::InterlockedWrite => 4,
        }
    }

    #[must_use]
    #[verifier::when_used_as_spec(spec_index)]
    pub fn index(self) -> (r: usize)
        ensures
            r == self.spec_index(),
            r < 5,
    {
        match self {
            MaxwellThreeDRopL2CacheRequest::PrefetchRead => 0,
            MaxwellThreeDRopL2CacheRequest::NoninterlockedRead => 1,
            MaxwellThreeDRopL2CacheRequest::InterlockedRead => 2,
            MaxwellThreeDRopL2CacheRequest::NoninterlockedWrite => 3,
            MaxwellThreeDRopL2CacheRequest::InterlockedWrite => 4,
        }
    }
}

/// Replacement priority held in bits 5:4 of the L2 controls.
#[derive(Clone, Copy, Debug, PartialEq, Eq, Hash, Structural)]
pub enum MaxwellThreeDL2CacheEvictionPolicy {
    EvictFirst,
    EvictNormal,
    EvictLast,
}

impl MaxwellThreeDL2CacheEvictionPolicy {
    /// The two-bit field value.
    pub open spec fn spec_raw(self) -> u32 {
        match self {
            MaxwellThreeDL2CacheEvictionPolicy::EvictFirst => 0,
            MaxwellThreeDL2CacheEvictionPolicy::EvictNormal => 1,
            MaxwellThreeDL2CacheEvictionPolicy::EvictLast => 2,
        }
    }

    /// The field value in its register position, bits 5:4.
    pub open spec fn spec_encoded(self) -> u32 {
        (self.spec_raw() * 16) as u32
    }

    /// Policy at its register position, if defined.
    pub open spec fn spec_parse(encoded: u32) -> Option<MaxwellThreeDL2CacheEvictionPolicy> {
        if encoded == 0x00 {
            Some(MaxwellThreeDL2CacheEvictionPolicy::EvictFirst)
        } else if encoded == 0x10 {
            Some(MaxwellThreeDL2CacheEvictionPolicy::EvictNormal)
        } else if encoded == 0x20 {
            Some(MaxwellThreeDL2CacheEvictionPolicy::EvictLast)
        } else {
            None
        }
    }

    #[verifier::when_used_as_spec(spec_parse)]
    pub fn parse(encoded: u32) -> (r: Option<MaxwellThreeDL2CacheEvictionPolicy>)
        ensures
            r == MaxwellThreeDL2CacheEvictionPolicy::spec_parse(encoded),
    {
        match encoded {
            0x00 => Some(MaxwellThreeDL2CacheEvictionPolicy::EvictFirst),
            0x10 => Some(MaxwellThreeDL2CacheEvictionPolicy::EvictNormal),
            0x20 => Some(MaxwellThreeDL2CacheEvictionPolicy::EvictLast),
            _ => None,
        }
    }

    #[must_use]
    #[verifier::when_used_as_spec(spec_raw)]
    pub fn raw(self) -> (r: u32)
        ensures
            r == self.spec_raw(),
    {
        match self {
            MaxwellThreeDL2CacheEvictionPolicy::EvictFirst => 0,
            MaxwellThreeDL2CacheEvictionPolicy::EvictNormal => 1,
            MaxwellThreeDL2CacheEvictionPolicy::EvictLast => 2,
        }
    }

    #[must_use]
    #[verifier::when_used_as_spec(spec_encoded)]
    pub fn encoded(self) -> (r: u32)
        ensures
            r == self.spec_encoded(),
            r == self.spec_raw() << 4u32,
    {
        assert(0u32 << 4u32 == 0 && 1u32 << 4u32 == 16 && 2u32 << 4u32 == 32) by (bit_vector);
        self.raw() * 16
    }

    /// A field decodes to a policy exactly when it is that policy in position.
    pub proof fn law_codec(encoded: u32, value: MaxwellThreeDL2CacheEvictionPolicy)
        ensures
            MaxwellThreeDL2CacheEvictionPolicy::spec_parse(encoded) == Some(value)
                <==> value.spec_encoded() == encoded,
    {
    }
}

/// Whether VAF requests treat system-memory contents as volatile.
#[derive(Clone, Copy, Debug, PartialEq, Eq, Hash, Structural)]
pub enum MaxwellThreeDSystemMemoryVolatile {
    Stable,
    Volatile,
}

impl MaxwellThreeDSystemMemoryVolatile {
    /// Field encoding of each value.
    pub open spec fn spec_raw(self) -> u32 {
        match self {
            MaxwellThreeDSystemMemoryVolatile::Stable => 0,
            MaxwellThreeDSystemMemoryVolatile::Volatile => 1,
        }
    }

    /// Value of each defined encoding.
    pub open spec fn spec_parse(raw: u32) -> Option<MaxwellThreeDSystemMemoryVolatile> {
        if raw == 0 {
            Some(MaxwellThreeDSystemMemoryVolatile::Stable)
        } else if raw == 1 {
            Some(MaxwellThreeDSystemMemoryVolatile::Volatile)
        } else {
            None
        }
    }

    #[verifier::when_used_as_spec(spec_parse)]
    pub fn parse(raw: u32) -> (r: Option<MaxwellThreeDSystemMemoryVolatile>)
        ensures
            r == MaxwellThreeDSystemMemoryVolatile::spec_parse(raw),
    {
        match raw {
            0 => Some(MaxwellThreeDSystemMemoryVolatile::Stable),
            1 => Some(MaxwellThreeDSystemMemoryVolatile::Volatile),
            _ => None,
        }
    }

    #[must_use]
    #[verifier::when_used_as_spec(spec_raw)]
    pub fn raw(self) -> (r: u32)
        ensures
            r == self.spec_raw(),
    {
        match self {
            MaxwellThreeDSystemMemoryVolatile::Stable => 0,
            MaxwellThreeDSystemMemoryVolatile::Volatile => 1,
        }
    }

    #[must_use]
    pub fn volatile(self) -> (r: bool)
        ensures
            r == (self == MaxwellThreeDSystemMemoryVolatile::Volatile),
    {
        matches!(self, MaxwellThreeDSystemMemoryVolatile::Volatile)
    }

    /// Decoding and encoding are inverse: a word decodes to a value exactly
    /// when it is the encoding of that value.
    pub proof fn law_codec(raw: u32, value: MaxwellThreeDSystemMemoryVolatile)
        ensures
            MaxwellThreeDSystemMemoryVolatile::spec_parse(raw) == Some(value) <==> value.spec_raw() == raw,
    {
    }
}

/// Complete cache control for VAF requests: volatility in bit 0, eviction policy
/// in bits 5:4.
#[derive(Clone, Copy, Debug, PartialEq, Eq, Hash, Structural)]
pub struct MaxwellThreeDVafL2CacheControl {
    pub system_memory: MaxwellThreeDSystemMemoryVolatile,
    pub policy: MaxwellThreeDL2CacheEvictionPolicy,
}

impl MaxwellThreeDVafL2CacheControl {
    pub open spec fn spec_parse(raw: u32) -> Option<MaxwellThreeDVafL2CacheControl> {
        match (
            MaxwellThreeDSystemMemoryVolatile::spec_parse(raw & 1),
            MaxwellThreeDL2CacheEvictionPolicy::spec_parse(raw & 0x30),
        ) {
            (Some(system_memory), Some(policy)) => Some(
                MaxwellThreeDVafL2CacheControl { system_memory, policy },
            ),
            _ => None,
        }
    }

    pub open spec fn spec_raw(self) -> u32 {
        self.system_memory.spec_raw() | self.policy.spec_encoded()
    }

    #[verifier::when_used_as_spec(spec_parse)]
    pub fn parse(raw: u32) -> (r: Option<MaxwellThreeDVafL2CacheControl>)
        ensures
            r == MaxwellThreeDVafL2CacheControl::spec_parse(raw),
    {
        match MaxwellThreeDSystemMemoryVolatile::parse(raw & 1) {
            Some(system_memory) => match MaxwellThreeDL2CacheEvictionPolicy::parse(raw & 0x30) {
                Some(policy) => Some(MaxwellThreeDVafL2CacheControl { system_memory, policy }),
                None => None,
            },
            None => None,
        }
    }

    #[must_use]
    pub fn system_memory(self) -> (r: MaxwellThreeDSystemMemoryVolatile)
        ensures
            r == self.system_memory,
    {
        self.system_memory
    }

    #[must_use]
    pub fn policy(self) -> (r: MaxwellThreeDL2CacheEvictionPolicy)
        ensures
            r == self.policy,
    {
        self.policy
    }

    #[must_use]
    #[verifier::when_used_as_spec(spec_raw)]
    pub fn raw(self) -> (r: u32)
        ensures
            r == self.spec_raw(),
    {
        self.system_memory.raw() | self.policy.encoded()
    }

    /// Decoding undoes encoding, and encoding a decoded word keeps its defined bits.
    pub proof fn law_codec(raw: u32, value: MaxwellThreeDVafL2CacheControl)
        ensures
            MaxwellThreeDVafL2CacheControl::spec_parse(value.spec_raw()) == Some(value),
            MaxwellThreeDVafL2CacheControl::spec_parse(raw) matches Some(parsed)
                ==> parsed.spec_raw() == raw & 0x31,
            MaxwellThreeDVafL2CacheControl::spec_parse(raw) is None <==> raw & 0x30 == 0x30,
    {
        let low = value.system_memory.spec_raw();
        let high = value.policy.spec_encoded();
        assert((low | high) & 1 == low && (low | high) & 0x30 == high) by (bit_vector)
            requires
                low <= 1,
                high == 0 || high == 0x10 || high == 0x20,
        ;
        assert({
            &&& raw & 1 == 0 || raw & 1 == 1
            &&& raw & 0x30 == 0 || raw & 0x30 == 0x10 || raw & 0x30 == 0x20 || raw & 0x30 == 0x30
            &&& (raw & 1) | (raw & 0x30) == raw & 0x31
        }) by (bit_vector);
    }
}

/// One validated L2 cache-policy transition.
#[derive(Clone, Copy, Debug, PartialEq, Eq, Hash, Structural)]
#[allow(inconsistent_fields)]
pub enum MaxwellThreeDL2CacheStateWrite {
    VafControl { value: MaxwellThreeDVafL2CacheControl, source: MaxwellMethodSource },
    RopPolicy { request: MaxwellThreeDRopL2CacheRequest, value: MaxwellThreeDL2CacheEvictionPolicy, source: MaxwellMethodSource },
}

/// Persistent L2 cache-policy configuration.
#[derive(Clone, Copy, Debug, PartialEq, Eq)]
pub struct MaxwellThreeDL2CacheState {
    pub vaf_control: MaxwellThreeDRegister<MaxwellThreeDVafL2CacheControl>,
    pub rop_policies: [MaxwellThreeDRegister<MaxwellThreeDL2CacheEvictionPolicy>; 5],
}

impl MaxwellThreeDL2CacheState {
    /// State before any method is decoded.
    pub open spec fn initial(self) -> bool {
        &&& self.vaf_control == MaxwellThreeDRegister::<MaxwellThreeDVafL2CacheControl>::unset()
        &&& forall|i: int| 0 <= i < 5 ==> self.rop_policies[i] == MaxwellThreeDRegister::<MaxwellThreeDL2CacheEvictionPolicy>::unset()
    }

    /// State after one transition: the addressed register holds the written word,
    /// its value and its source, and every other register is unchanged.
    pub open spec fn written(self, write: MaxwellThreeDL2CacheStateWrite) -> MaxwellThreeDL2CacheState {
        match write {
            MaxwellThreeDL2CacheStateWrite::VafControl { value, source } => MaxwellThreeDL2CacheState {
                vaf_control: MaxwellThreeDRegister::programmed(value.raw(), value, source),
                ..self
            },
            MaxwellThreeDL2CacheStateWrite::RopPolicy { request, value, source } => MaxwellThreeDL2CacheState {
                rop_policies: vstd::array::spec_array_update(
                    self.rop_policies,
                    request.index() as int,
                    MaxwellThreeDRegister::programmed(value.encoded(), value, source),
                ),
                ..self
            },
        }
    }

    #[must_use]
    pub fn vaf_control(&self) -> (r: &MaxwellThreeDRegister<MaxwellThreeDVafL2CacheControl>)
        ensures
            *r == self.vaf_control,
    {
        &self.vaf_control
    }

    #[must_use]
    pub fn rop_policy(&self, request: MaxwellThreeDRopL2CacheRequest) -> (r: &MaxwellThreeDRegister<MaxwellThreeDL2CacheEvictionPolicy>)
        ensures
            *r == self.rop_policies[request.index() as int],
    {
        &self.rop_policies[request.index()]
    }

    /// State with every register unset.
    #[must_use]
    pub fn unprogrammed() -> (r: MaxwellThreeDL2CacheState)
        ensures
            r.initial(),
    {
        MaxwellThreeDL2CacheState {
            vaf_control: MaxwellThreeDRegister::unset(),
            rop_policies: [
                MaxwellThreeDRegister::unset(),
                MaxwellThreeDRegister::unset(),
                MaxwellThreeDRegister::unset(),
                MaxwellThreeDRegister::unset(),
                MaxwellThreeDRegister::unset(),
            ],
        }
    }

    pub fn apply(&mut self, write: MaxwellThreeDL2CacheStateWrite)
        ensures
            *final(self) == old(self).written(write),
    {
        match write {
            MaxwellThreeDL2CacheStateWrite::VafControl { value, source } => {
                self.vaf_control = MaxwellThreeDRegister::programmed(value.raw(), value, source);
            },
            MaxwellThreeDL2CacheStateWrite::RopPolicy { request, value, source } => {
                self.rop_policies[request.index()] = MaxwellThreeDRegister::programmed(value.encoded(), value, source);
            },
        }
    }
}

impl Default for MaxwellThreeDL2CacheState {
    fn default() -> (r: MaxwellThreeDL2CacheState)
        ensures
            r.initial(),
    {
        MaxwellThreeDL2CacheState::unprogrammed()
    }
}

} // verus!
