//! High-level state of Falcon firmware calls.
//!
//! Call 4 is a masked PGRAPH-register write: it takes the value and the mask from
//! firmware arguments 1 and 2 and clears argument 0 to report completion.

use vstd::prelude::*;
use crate::register::MaxwellMethodSource;
use std::collections::BTreeMap;

verus! {

/// Falcon-call precondition that the captured state does not meet.
#[derive(Clone, Copy, Debug, PartialEq, Eq, Hash, Structural)]
pub enum MaxwellThreeDFalconError {
    MissingFirmwareArgument { index: u8 },
    UnalignedRegisterAddress { address: u32 },
}

/// Byte address of one internal PGRAPH register; word aligned.
#[derive(Clone, Copy, Debug, PartialEq, Eq, Hash, Structural)]
pub struct MaxwellThreeDFalconRegisterAddress(pub u32);

impl MaxwellThreeDFalconRegisterAddress {
    /// Register addresses are word aligned.
    pub open spec fn wf(self) -> bool {
        self.0 & 3 == 0
    }

    #[must_use]
    pub fn try_new(raw: u32) -> (r: Option<MaxwellThreeDFalconRegisterAddress>)
        ensures
            r is Some <==> raw & 3 == 0,
            r matches Some(address) ==> address.0 == raw && address.wf(),
    {
        if raw & 3 == 0 {
            Some(MaxwellThreeDFalconRegisterAddress(raw))
        } else {
            None
        }
    }

    pub open spec fn spec_raw(self) -> u32 {
        self.0
    }

    #[must_use]
    #[verifier::when_used_as_spec(spec_raw)]
    pub fn raw(self) -> (r: u32)
        ensures
            r == self.0,
    {
        self.0
    }
}

/// Bits currently established for one internal PGRAPH register.
///
/// Writes are masked, so bits that no write has covered stay unknown.
#[derive(Clone, Copy, Debug, PartialEq, Eq, Hash, Structural)]
pub struct MaxwellThreeDFalconRegister {
    pub known_mask: u32,
    pub value: u32,
    pub source: MaxwellMethodSource,
}

impl MaxwellThreeDFalconRegister {
    /// No value bit is set outside the known mask.
    pub open spec fn wf(self) -> bool {
        self.value & !self.known_mask == 0
    }

    /// The register after a masked write, starting from `previous` if any bit
    /// was established before: masked bits come from the write, the others stay.
    pub open spec fn merged(
        previous: Option<MaxwellThreeDFalconRegister>,
        write: MaxwellThreeDFalconMaskedRegisterWrite,
    ) -> MaxwellThreeDFalconRegister {
        let (known, value) = match previous {
            Some(register) => (register.known_mask, register.value),
            None => (0u32, 0u32),
        };
        MaxwellThreeDFalconRegister {
            known_mask: known | write.mask,
            value: ((value & !write.mask) | (write.value & write.mask)) & (known | write.mask),
            source: write.source,
        }
    }

    #[must_use]
    pub fn known_mask(self) -> (r: u32)
        ensures
            r == self.known_mask,
    {
        self.known_mask
    }

    #[must_use]
    pub fn value(self) -> (r: u32)
        ensures
            r == self.value,
    {
        self.value
    }

    #[must_use]
    pub fn source(self) -> (r: MaxwellMethodSource)
        ensures
            r == self.source,
    {
        self.source
    }
}

/// One decoded masked register write.
#[derive(Clone, Copy, Debug, PartialEq, Eq, Hash, Structural)]
pub struct MaxwellThreeDFalconMaskedRegisterWrite {
    pub address: MaxwellThreeDFalconRegisterAddress,
    pub value: u32,
    pub mask: u32,
    pub source: MaxwellMethodSource,
}

impl MaxwellThreeDFalconMaskedRegisterWrite {
    #[must_use]
    pub fn new(
        address: MaxwellThreeDFalconRegisterAddress,
        value: u32,
        mask: u32,
        source: MaxwellMethodSource,
    ) -> (r: MaxwellThreeDFalconMaskedRegisterWrite)
        ensures
            r == (MaxwellThreeDFalconMaskedRegisterWrite { address, value, mask, source }),
    {
        MaxwellThreeDFalconMaskedRegisterWrite { address, value, mask, source }
    }

    #[must_use]
    pub fn address(self) -> (r: MaxwellThreeDFalconRegisterAddress)
        ensures
            r == self.address,
    {
        self.address
    }

    #[must_use]
    pub fn value(self) -> (r: u32)
        ensures
            r == self.value,
    {
        self.value
    }

    #[must_use]
    pub fn mask(self) -> (r: u32)
        ensures
            r == self.mask,
    {
        self.mask
    }

    #[must_use]
    pub fn source(self) -> (r: MaxwellMethodSource)
        ensures
            r == self.source,
    {
        self.source
    }
}

/// Modeled Falcon-owned PGRAPH state.
#[derive(Debug)]
pub struct MaxwellThreeDFalconState {
    pub registers: BTreeMap<u32, MaxwellThreeDFalconRegister>,
    pub last_masked_write: Option<MaxwellThreeDFalconMaskedRegisterWrite>,
}

/// Registers by byte address, and the last masked write.
pub struct FalconModel {
    pub registers: Map<u32, MaxwellThreeDFalconRegister>,
    pub last_masked_write: Option<MaxwellThreeDFalconMaskedRegisterWrite>,
}

impl FalconModel {
    pub open spec fn known(self, address: u32) -> Option<MaxwellThreeDFalconRegister> {
        if self.registers.contains_key(address) {
            Some(self.registers[address])
        } else {
            None
        }
    }

    pub open spec fn written(self, write: MaxwellThreeDFalconMaskedRegisterWrite) -> FalconModel {
        FalconModel {
            registers: self.registers.insert(
                write.address.0,
                MaxwellThreeDFalconRegister::merged(self.known(write.address.0), write),
            ),
            last_masked_write: Some(write),
        }
    }

    /// No register claims value bits that no write established.
    pub open spec fn wf(self) -> bool {
        forall|address: u32| #[trigger]
            self.registers.contains_key(address) ==> self.registers[address].wf()
    }

    /// A masked write keeps every register well formed, never forgets an
    /// established bit, takes the masked bits from the write, leaves the other
    /// bits of the register and all other registers alone, and repeats without
    /// further effect.
    pub proof fn law_masked_write(self, write: MaxwellThreeDFalconMaskedRegisterWrite)
        requires
            self.wf(),
        ensures
            self.written(write).wf(),
            self.written(write).registers[write.address.0].value & write.mask == write.value
                & write.mask,
            self.written(write).registers[write.address.0].known_mask & write.mask == write.mask,
            self.known(write.address.0) matches Some(previous) ==> {
                let next = self.written(write).registers[write.address.0];
                &&& next.known_mask & previous.known_mask == previous.known_mask
                &&& next.value & !write.mask == previous.value & !write.mask
            },
            forall|address: u32|
                address != write.address.0 ==> #[trigger] self.written(write).known(address)
                    == self.known(address),
            self.written(write).written(write) == self.written(write),
    {
        let (known, value) = match self.known(write.address.0) {
            Some(register) => (register.known_mask, register.value),
            None => (0u32, 0u32),
        };
        let mask = write.mask;
        let bits = write.value;
        let next = ((value & !mask) | (bits & mask)) & (known | mask);
        assert(0u32 & !0u32 == 0) by (bit_vector);
        assert({
            &&& next & !(known | mask) == 0
            &&& next & mask == bits & mask
            &&& (known | mask) & mask == mask
            &&& (known | mask) & known == known
            &&& next & !mask == value & !mask
            &&& (known | mask) | mask == known | mask
            &&& ((next & !mask) | (bits & mask)) & ((known | mask) | mask) == next
        }) by (bit_vector)
            requires
                value & !known == 0,
                next == ((value & !mask) | (bits & mask)) & (known | mask),
        ;
        assert(self.written(write).written(write).registers =~= self.written(write).registers);
    }
}

impl View for MaxwellThreeDFalconState {
    type V = FalconModel;

    open spec fn view(&self) -> FalconModel {
        FalconModel { registers: self.registers@, last_masked_write: self.last_masked_write }
    }
}

impl MaxwellThreeDFalconState {
    #[must_use]
    pub fn register(&self, address: MaxwellThreeDFalconRegisterAddress) -> (r: Option<
        &MaxwellThreeDFalconRegister,
    >)
        ensures
            r is Some <==> self@.registers.contains_key(address.0),
            r matches Some(register) ==> *register == self@.registers[address.0],
    {
        self.registers.get(&address.0)
    }

    #[must_use]
    pub fn last_masked_write(&self) -> (r: Option<MaxwellThreeDFalconMaskedRegisterWrite>)
        ensures
            r == self@.last_masked_write,
    {
        self.last_masked_write
    }

    pub fn apply(&mut self, write: MaxwellThreeDFalconMaskedRegisterWrite)
        ensures
            final(self)@ == old(self)@.written(write),
    {
        let (previous_known, previous_value): (u32, u32) = match self.registers.get(
            &write.address.0,
        ) {
            Some(register) => (register.known_mask, register.value),
            None => (0, 0),
        };
        let known_mask: u32 = previous_known | write.mask;
        let value: u32 = (previous_value & !write.mask) | (write.value & write.mask);
        self.registers.insert(
            write.address.0,
            MaxwellThreeDFalconRegister {
                known_mask,
                value: value & known_mask,
                source: write.source,
            },
        );
        self.last_masked_write = Some(write);
    }
}

impl Default for MaxwellThreeDFalconState {
    fn default() -> (r: MaxwellThreeDFalconState)
        ensures
            r@.registers == Map::<u32, MaxwellThreeDFalconRegister>::empty(),
            r@.last_masked_write is None,
    {
        MaxwellThreeDFalconState { registers: BTreeMap::new(), last_masked_write: None }
    }
}

} // verus!
