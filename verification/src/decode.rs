//! Outcome of decoding one method.

use vstd::prelude::*;
use crate::dispatch_error::{invalid_encoding, MaxwellEngineDispatchError};
use crate::register::MaxwellMethodSource;
use crate::state::MaxwellThreeDStateWrite;

verus! {

/// Outcome of offering a method to a register family: the transition and the
/// method name it claims, nothing if the family does not know the method, or the
/// reason why it refuses the word.
pub type MethodDecode = Result<
    Option<(MaxwellThreeDStateWrite, &'static str)>,
    MaxwellEngineDispatchError,
>;

pub open spec fn spec_accepted(write: MaxwellThreeDStateWrite, name: &'static str) -> MethodDecode {
    Ok(Some((write, name)))
}

/// A claimed method.
#[verifier::when_used_as_spec(spec_accepted)]
pub fn accepted(write: MaxwellThreeDStateWrite, name: &'static str) -> (r: MethodDecode)
    ensures
        r == spec_accepted(write, name),
{
    Ok(Some((write, name)))
}

pub open spec fn spec_refused(
    source: MaxwellMethodSource,
    name: &'static str,
    reason: &'static str,
) -> MethodDecode {
    Err(invalid_encoding(source, name, reason))
}

/// A word that the register of a method does not define.
#[verifier::when_used_as_spec(spec_refused)]
pub fn refused(source: MaxwellMethodSource, name: &'static str, reason: &'static str) -> (r:
    MethodDecode)
    ensures
        r == spec_refused(source, name, reason),
{
    Err(invalid_encoding(source, name, reason))
}

/// The first family that claims or refuses the method decides.
pub open spec fn or_else(first: MethodDecode, next: MethodDecode) -> MethodDecode {
    match first {
        Ok(None) => next,
        _ => first,
    }
}

/// A claimed transition is in range.
pub open spec fn in_range(decode: MethodDecode) -> bool {
    decode matches Ok(Some((write, _))) ==> write.wf()
}

} // verus!
