//! Typed failures of the buffer core.

use vstd::prelude::*;
use crate::extension::Extension;

verus! {

/// A failure reported by the native error register, already translated
/// from the raw register code.
#[derive(Clone, Copy, Debug, PartialEq, Eq, Structural)]
pub enum NativeErrorKind {
    /// A handle did not name a live resource.
    InvalidName,
    /// A parameter or format code was not one the native layer accepts.
    InvalidEnum,
    /// A value was out of the range the native layer accepts.
    InvalidValue,
    /// The call was not legal in the current native state.
    InvalidOperation,
    /// The native layer could not allocate resources.
    OutOfMemory,
    /// The register held a code outside the documented set.
    Unknown,
}

/// Everything a fallible operation of this crate can report.
#[derive(Clone, Copy, Debug, PartialEq, Eq, Structural)]
pub enum AllenError {
    /// Native handle creation failed (resource exhaustion).
    Allocation,
    /// The error register was non-clear after a native call.
    Native(NativeErrorKind),
    /// The operation needs a capability the context does not have;
    /// raised before any native call is attempted.
    MissingExtension(Extension),
    /// The operation is structurally disallowed by the native API,
    /// such as writing a read-only parameter.
    UnsupportedOperation,
    /// The native layer reported a value that violates an invariant only
    /// the driver could break, such as a channel count outside the
    /// enumerated set.
    InvariantViolation,
}

/// Result alias used throughout the buffer core.
pub type AllenResult<T> = Result<T, AllenError>;

} // verus!
