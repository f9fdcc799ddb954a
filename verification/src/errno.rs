//! Status codes reported by the hashing entry points.

use vstd::prelude::*;

verus! {

/// The outcome of an entry point: `Success`, or the kind of the first failure.
#[derive(Clone, Copy, Debug, PartialEq, Eq, Structural)]
pub enum Errno {
    /// The call succeeded and the digest was written.
    Success,
    /// A required text handle was absent.
    InvalidNullPtr,
    /// The text behind a handle is not valid UTF-8.
    InvalidTextEncoding,
    /// The text is not a numeral of the radix its field calls for.
    InvalidNumeralSyntax,
    /// The numeral denotes a value at or above the field modulus.
    NumeralOutOfRange,
    /// The packed message word does not denote a field element.
    HashComputationError,
}

impl Errno {
    /// Whether the status reports a failure.
    pub open spec fn is_failure(self) -> bool {
        self != Errno::Success
    }
}

} // verus!
