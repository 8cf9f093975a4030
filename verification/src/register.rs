//! Method packets and the registers they program.

use vstd::prelude::*;

verus! {

/// Byte offset of one engine method.
#[derive(Clone, Copy, Debug, PartialEq, Eq, Hash, Structural)]
pub struct GpuMethodId(pub u32);

impl GpuMethodId {
    #[must_use]
    pub fn new(offset: u32) -> (r: GpuMethodId)
        ensures
            r.0 == offset,
    {
        GpuMethodId(offset)
    }

    #[must_use]
    pub fn get(self) -> (r: u32)
        ensures
            r == self.0,
    {
        self.0
    }
}

/// One method packet: where it stands in its stream, the register it addresses
/// and the word it carries.
///
/// Two packets are the same packet exactly when all three agree, so a trigger is
/// told apart from an earlier trigger with the same argument by its position.
#[derive(Clone, Copy, Debug, PartialEq, Eq, Hash, Structural)]
pub struct MaxwellMethodSource {
    pub position: u64,
    pub method: GpuMethodId,
    pub argument: u32,
    pub emitted: bool,
}

impl MaxwellMethodSource {
    #[must_use]
    pub fn new(position: u64, method: GpuMethodId, argument: u32) -> (r: MaxwellMethodSource)
        ensures
            r == (MaxwellMethodSource { position, method, argument, emitted: false }),
    {
        MaxwellMethodSource { position, method, argument, emitted: false }
    }

    pub open spec fn spec_method(self) -> GpuMethodId {
        self.method
    }

    #[must_use]
    #[verifier::when_used_as_spec(spec_method)]
    pub fn method(self) -> (r: GpuMethodId)
        ensures
            r == self.method,
    {
        self.method
    }

    pub open spec fn spec_argument(self) -> u32 {
        self.argument
    }

    #[must_use]
    #[verifier::when_used_as_spec(spec_argument)]
    pub fn argument(self) -> (r: u32)
        ensures
            r == self.argument,
    {
        self.argument
    }

    /// The method a macro emits on behalf of the call at this packet.
    pub open spec fn spec_emitted_by_mme(self, method: GpuMethodId, argument: u32) -> MaxwellMethodSource {
        MaxwellMethodSource { position: self.position, method, argument, emitted: true }
    }

    #[must_use]
    #[verifier::when_used_as_spec(spec_emitted_by_mme)]
    pub fn emitted_by_mme(self, method: GpuMethodId, argument: u32) -> (r: MaxwellMethodSource)
        ensures
            r == self.spec_emitted_by_mme(method, argument),
    {
        MaxwellMethodSource { position: self.position, method, argument, emitted: true }
    }

    /// The same packet carrying the argument that shadow replay selected.
    pub open spec fn spec_with_effective_argument(self, argument: u32) -> MaxwellMethodSource {
        MaxwellMethodSource { argument, ..self }
    }

    #[must_use]
    #[verifier::when_used_as_spec(spec_with_effective_argument)]
    pub fn with_effective_argument(self, argument: u32) -> (r: MaxwellMethodSource)
        ensures
            r == self.spec_with_effective_argument(argument),
    {
        MaxwellMethodSource { argument, ..self }
    }
}

/// One engine register: the raw word, its decoded value and the packet that
/// programmed it.
///
/// An unset register has none of the three. A register holding a documented reset
/// has a word and possibly a value, but no source. A programmed register has all
/// three.
#[derive(Clone, Copy, Debug, PartialEq, Eq)]
pub struct MaxwellThreeDRegister<T> {
    pub raw: Option<u32>,
    pub value: Option<T>,
    pub source: Option<MaxwellMethodSource>,
}

impl<T> MaxwellThreeDRegister<T> {
    pub open spec fn spec_unset() -> MaxwellThreeDRegister<T> {
        MaxwellThreeDRegister { raw: None, value: None, source: None }
    }

    #[must_use]
    #[verifier::when_used_as_spec(spec_unset)]
    pub fn unset() -> (r: MaxwellThreeDRegister<T>)
        ensures
            r == MaxwellThreeDRegister::<T>::spec_unset(),
    {
        MaxwellThreeDRegister { raw: None, value: None, source: None }
    }

    pub open spec fn spec_programmed(
        raw: u32,
        value: T,
        source: MaxwellMethodSource,
    ) -> MaxwellThreeDRegister<T> {
        MaxwellThreeDRegister { raw: Some(raw), value: Some(value), source: Some(source) }
    }

    #[must_use]
    #[verifier::when_used_as_spec(spec_programmed)]
    pub fn programmed(raw: u32, value: T, source: MaxwellMethodSource) -> (r: MaxwellThreeDRegister<
        T,
    >)
        ensures
            r == MaxwellThreeDRegister::spec_programmed(raw, value, source),
    {
        MaxwellThreeDRegister { raw: Some(raw), value: Some(value), source: Some(source) }
    }

    pub open spec fn spec_verified_reset(raw: u32, value: Option<T>) -> MaxwellThreeDRegister<T> {
        MaxwellThreeDRegister { raw: Some(raw), value, source: None }
    }

    #[must_use]
    #[verifier::when_used_as_spec(spec_verified_reset)]
    pub fn verified_reset(raw: u32, value: Option<T>) -> (r: MaxwellThreeDRegister<T>)
        ensures
            r == MaxwellThreeDRegister::spec_verified_reset(raw, value),
    {
        MaxwellThreeDRegister { raw: Some(raw), value, source: None }
    }

    #[must_use]
    pub fn raw(&self) -> (r: Option<u32>)
        ensures
            r == self.raw,
    {
        self.raw
    }

    #[must_use]
    pub fn value(&self) -> (r: Option<&T>)
        ensures
            r is Some <==> self.value is Some,
            r matches Some(v) ==> self.value == Some(*v),
    {
        self.value.as_ref()
    }

    #[must_use]
    pub fn source(&self) -> (r: Option<MaxwellMethodSource>)
        ensures
            r == self.source,
    {
        self.source
    }
}

impl<T> Default for MaxwellThreeDRegister<T> {
    fn default() -> (r: MaxwellThreeDRegister<T>)
        ensures
            r == MaxwellThreeDRegister::<T>::spec_unset(),
    {
        MaxwellThreeDRegister { raw: None, value: None, source: None }
    }
}

/// Register word of a boolean field.
pub open spec fn spec_bool_word(value: bool) -> u32 {
    if value {
        1
    } else {
        0
    }
}

#[must_use]
#[verifier::when_used_as_spec(spec_bool_word)]
pub fn bool_word(value: bool) -> (r: u32)
    ensures
        r == spec_bool_word(value),
{
    if value {
        1
    } else {
        0
    }
}

/// A field whose complete word is retained without interpretation.
#[derive(Clone, Copy, Debug, PartialEq, Eq, Hash, Structural)]
pub struct MaxwellThreeDRawValue(pub u32);

impl MaxwellThreeDRawValue {
    #[must_use]
    pub fn new(value: u32) -> (r: MaxwellThreeDRawValue)
        ensures
            r.0 == value,
    {
        MaxwellThreeDRawValue(value)
    }

    pub open spec fn spec_get(self) -> u32 {
        self.0
    }

    #[must_use]
    #[verifier::when_used_as_spec(spec_get)]
    pub fn get(self) -> (r: u32)
        ensures
            r == self.0,
    {
        self.0
    }
}

/// A guest address assembled from an 8-bit upper part and a 32-bit lower word.
/// Whether anything is mapped there is decided when work is issued.
#[derive(Clone, Copy, Debug, PartialEq, Eq, Hash, Structural)]
pub struct MaxwellThreeDUnresolvedAddress {
    pub upper: u8,
    pub lower: u32,
}

impl MaxwellThreeDUnresolvedAddress {
    #[must_use]
    pub fn new(upper: u8, lower: u32) -> (r: MaxwellThreeDUnresolvedAddress)
        ensures
            r.upper == upper,
            r.lower == lower,
    {
        MaxwellThreeDUnresolvedAddress { upper, lower }
    }

    /// The 40-bit address.
    pub open spec fn spec_get(self) -> u64 {
        (self.upper * 0x1_0000_0000 + self.lower) as u64
    }

    #[must_use]
    #[verifier::when_used_as_spec(spec_get)]
    pub fn get(self) -> (r: u64)
        ensures
            r == self.upper * 0x1_0000_0000 + self.lower,
            r == self.spec_get(),
            r < 0x100_0000_0000,
    {
        self.upper as u64 * 0x1_0000_0000 + self.lower as u64
    }
}

/// Inclusive-exclusive pair of 16-bit bounds on one axis.
#[derive(Clone, Copy, Debug, PartialEq, Eq, Hash, Structural)]
pub struct MaxwellThreeDRectangle {
    pub min: u16,
    pub max: u16,
}

impl MaxwellThreeDRectangle {
    #[must_use]
    pub fn new(min: u16, max: u16) -> (r: MaxwellThreeDRectangle)
        ensures
            r.min == min,
            r.max == max,
    {
        MaxwellThreeDRectangle { min, max }
    }
}

} // verus!
