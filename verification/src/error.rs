use vstd::prelude::*;

verus! {

/// Why a bus-facing operation failed.
///
/// Every failure is surfaced to the immediate caller; the library retries
/// nothing internally.
#[derive(Debug, Clone, PartialEq)]
pub enum Error {
    /// The underlying transport call failed (timeout, disconnection, malformed
    /// reply). Carries the transport's own description of the fault.
    Transport(String),
    /// Discovery completed without finding any object that implements the LE
    /// advertising manager interface.
    NotFound,
    /// A property read returned a value of an unexpected type (for instance, a
    /// `Powered` value that is not a boolean).
    TypeMismatch,
}

} // verus!
